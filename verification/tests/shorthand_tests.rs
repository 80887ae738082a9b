use batching::shorthand::container;
use batching::shorthand::page_break_after;
use batching::shorthand::page_break_before;
use batching::shorthand::page_break_inside;
use batching::shorthand::{BreakBetween, CssIdent, CssToken, ParseError, Parser};

fn ident(i: CssIdent) -> CssToken {
    CssToken::Ident(i)
}

#[test]
fn legacy_always_maps_to_a_page_break() {
    let mut p = Parser::new(vec![ident(CssIdent::Always)]);
    let lh = page_break_before::parse_value(&mut p).expect("always is accepted");
    assert_eq!(lh.break_before, BreakBetween::Page);
    assert_eq!(p.pos, 1);

    let mut p = Parser::new(vec![ident(CssIdent::Always)]);
    let lh = page_break_after::parse_value(&mut p).expect("always is accepted");
    assert_eq!(lh.break_after, BreakBetween::Page);
}

#[test]
fn every_accepted_break_keyword_parses_to_its_value() {
    let cases = [
        (CssIdent::Auto, BreakBetween::Auto),
        (CssIdent::Avoid, BreakBetween::Avoid),
        (CssIdent::Left, BreakBetween::Left),
        (CssIdent::Right, BreakBetween::Right),
    ];
    for (kw, expected) in cases {
        let mut p = Parser::new(vec![ident(kw)]);
        assert_eq!(
            page_break_before::parse_value(&mut p).unwrap().break_before,
            expected
        );
    }
}

#[test]
fn break_inside_accepts_only_auto_and_avoid() {
    let mut p = Parser::new(vec![ident(CssIdent::Avoid)]);
    let lh = page_break_inside::parse_value(&mut p).unwrap();
    assert_eq!(lh.break_inside, page_break_inside::BreakWithin::Avoid);

    // `left` is a legal break-between keyword but not a break-within one.
    let mut p = Parser::new(vec![ident(CssIdent::Left)]);
    assert_eq!(
        page_break_inside::parse_value(&mut p),
        Err(ParseError::InvalidValue)
    );
    assert_eq!(p.pos, 0, "an error consumes nothing");
}

#[test]
fn unknown_keywords_and_empty_input_are_errors() {
    let mut p = Parser::new(vec![ident(CssIdent::Other)]);
    assert_eq!(
        page_break_before::parse_value(&mut p),
        Err(ParseError::InvalidValue)
    );
    assert_eq!(p.pos, 0, "an error consumes nothing");

    let mut empty = Parser::new(Vec::new());
    assert_eq!(
        page_break_before::parse_value(&mut empty),
        Err(ParseError::EndOfInput)
    );
}

#[test]
fn container_name_collects_custom_identifiers() {
    let mut p = Parser::new(vec![CssToken::CustomIdent(4), CssToken::CustomIdent(9)]);
    let lh = container::parse_value(&mut p).expect("two custom idents name a container");
    assert_eq!(lh.container_name.idents, vec![4, 9]);
    assert_eq!(lh.container_type, container::ContainerType::Normal);
    assert_eq!(p.pos, 2);
}

#[test]
fn container_none_has_an_empty_name() {
    let mut p = Parser::new(vec![ident(CssIdent::NoneKeyword)]);
    let lh = container::parse_value(&mut p).unwrap();
    assert!(lh.container_name.idents.is_empty());
    assert_eq!(lh.container_type, container::ContainerType::Normal);
}

#[test]
fn container_type_follows_a_slash() {
    let mut p = Parser::new(vec![
        CssToken::CustomIdent(1),
        CssToken::Delim('/'),
        ident(CssIdent::InlineSize),
    ]);
    let lh = container::parse_value(&mut p).unwrap();
    assert_eq!(lh.container_name.idents, vec![1]);
    assert_eq!(lh.container_type, container::ContainerType::InlineSize);
    assert_eq!(p.pos, 3);
}

#[test]
fn container_rejects_an_empty_name_and_a_dangling_slash() {
    // A known keyword is not a custom identifier, so no name is found.
    let mut p = Parser::new(vec![ident(CssIdent::Normal)]);
    assert!(container::parse_value(&mut p).is_err());

    let mut p = Parser::new(vec![CssToken::CustomIdent(1), CssToken::Delim('/')]);
    assert!(matches!(
        container::parse_value(&mut p),
        Err(ParseError::EndOfInput)
    ));
}
