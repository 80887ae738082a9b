//! The `container` shorthand: a container name — `none` or one or more
//! custom identifiers — optionally followed by `/` and a container type.

use vstd::prelude::*;
use crate::shorthand::{CssIdent, CssToken, ParseError, Parser};

verus! {

/// The name part: empty stands for `none`, otherwise the interned custom
/// identifiers in source order.
pub struct ContainerName {
    pub idents: Vec<u32>,
}

/// The type part; the default when no `/` clause is present.
#[derive(Clone, Copy, Debug, PartialEq, Eq, Structural)]
pub enum ContainerType {
    Normal,
    Size,
    InlineSize,
}

/// The longhand values this shorthand expands to.
pub struct Longhands {
    pub container_name: ContainerName,
    pub container_type: ContainerType,
}

/// The custom identifier a token carries, for tokens that carry one.
pub open spec fn spec_custom_of(t: CssToken) -> u32 {
    match t {
        CssToken::CustomIdent(x) => x,
        _ => 0,
    }
}

/// How many consecutive custom identifiers stand at `pos`.
pub open spec fn spec_custom_run(tokens: Seq<CssToken>, pos: int) -> int
    decreases tokens.len() - pos,
{
    if pos < 0 || pos >= tokens.len() {
        0
    } else {
        match tokens[pos] {
            CssToken::CustomIdent(_) => 1 + spec_custom_run(tokens, pos + 1),
            _ => 0,
        }
    }
}

/// What parsing the optional `/ <container-type>` clause answers at
/// `pos`: the type and the position after it.
pub open spec fn spec_parse_type(tokens: Seq<CssToken>, pos: int) -> Result<(ContainerType, int),
    ParseError,
> {
    if pos < tokens.len() && tokens[pos] == CssToken::Delim('/') {
        if pos + 1 >= tokens.len() {
            Err(ParseError::EndOfInput)
        } else {
            match tokens[pos + 1] {
                CssToken::Ident(CssIdent::Normal) => Ok((ContainerType::Normal, pos + 2)),
                CssToken::Ident(CssIdent::Size) => Ok((ContainerType::Size, pos + 2)),
                CssToken::Ident(CssIdent::InlineSize) => Ok((ContainerType::InlineSize, pos + 2)),
                _ => Err(ParseError::InvalidValue),
            }
        }
    } else {
        Ok((ContainerType::Normal, pos))
    }
}

/// What `parse_value` answers on a given cursor position: the name's
/// identifiers (empty for `none`), the type, and the position after the
/// value.
pub open spec fn spec_parse_value(p: Parser) -> Result<(Seq<u32>, ContainerType, int),
    ParseError,
> {
    let tokens = p.tokens@;
    let pos = p.pos as int;
    if pos >= tokens.len() {
        Err(ParseError::EndOfInput)
    } else if tokens[pos] == CssToken::Ident(CssIdent::NoneKeyword) {
        match spec_parse_type(tokens, pos + 1) {
            Ok((ty, end)) => Ok((Seq::empty(), ty, end)),
            Err(e) => Err(e),
        }
    } else {
        let run = spec_custom_run(tokens, pos);
        if run == 0 {
            Err(ParseError::InvalidValue)
        } else {
            let names = Seq::new(run as nat, |i: int| spec_custom_of(tokens[pos + i]));
            match spec_parse_type(tokens, pos + run) {
                Ok((ty, end)) => Ok((names, ty, end)),
                Err(e) => Err(e),
            }
        }
    }
}

/// Whether the cursor stands on a custom identifier.
fn peek_is_custom(input: &Parser) -> (r: bool)
    requires
        input.wf(),
    ensures
        r == ((input.pos as int) < input.tokens@.len() && input.tokens@[input.pos as int]
            is CustomIdent),
{
    match input.peek() {
        Some(CssToken::CustomIdent(_)) => true,
        _ => false,
    }
}

/// Parse the shorthand: the name is `none` or a non-empty run of custom
/// identifiers; a `/` clause then names the type, which defaults to
/// `normal` when absent.
pub fn parse_value(input: &mut Parser) -> (r: Result<Longhands, ParseError>)
    requires
        old(input).wf(),
    ensures
        final(input).wf(),
        final(input).tokens@ == old(input).tokens@,
        match spec_parse_value(*old(input)) {
            Ok((names, ty, end)) => r matches Ok(lh) && lh.container_name.idents@ == names
                && lh.container_type == ty && final(input).pos == end,
            Err(e) => r == Err::<Longhands, ParseError>(e),
        },
{
    let ghost tokens = input.tokens@;
    let ghost start = input.pos as int;
    let first = match input.peek() {
        Some(token) => token,
        None => {
            return Err(ParseError::EndOfInput);
        }
    };
    let mut name: Vec<u32> = Vec::new();
    match first {
        CssToken::Ident(CssIdent::NoneKeyword) => {
            input.advance();
        }
        _ => {
            while peek_is_custom(input)
                invariant
                    input.wf(),
                    input.tokens@ == tokens,
                    0 <= start <= input.pos as int,
                    input.pos as int == start + name@.len(),
                    spec_custom_run(tokens, start) == name@.len() + spec_custom_run(
                        tokens,
                        input.pos as int,
                    ),
                    name@ == Seq::new(
                        name@.len(),
                        |i: int| spec_custom_of(tokens[start + i]),
                    ),
                decreases input.tokens@.len() - input.pos,
            {
                let ghost pre_name = name@;
                match input.peek() {
                    Some(CssToken::CustomIdent(x)) => {
                        name.push(x);
                        input.advance();
                    }
                    _ => {
                        proof {
                            assert(false);
                        }
                    }
                }
                proof {
                    assert(name@ =~= Seq::new(
                        name@.len(),
                        |i: int| spec_custom_of(tokens[start + i]),
                    ));
                }
            }
            if name.len() == 0 {
                return Err(ParseError::InvalidValue);
            }
        }
    }

    let container_type = match input.peek() {
        Some(CssToken::Delim('/')) => {
            input.advance();
            match input.peek() {
                None => {
                    return Err(ParseError::EndOfInput);
                }
                Some(CssToken::Ident(CssIdent::Normal)) => {
                    input.advance();
                    ContainerType::Normal
                }
                Some(CssToken::Ident(CssIdent::Size)) => {
                    input.advance();
                    ContainerType::Size
                }
                Some(CssToken::Ident(CssIdent::InlineSize)) => {
                    input.advance();
                    ContainerType::InlineSize
                }
                Some(_) => {
                    return Err(ParseError::InvalidValue);
                }
            }
        }
        _ => ContainerType::Normal,
    };

    Ok(Longhands { container_name: ContainerName { idents: name }, container_type })
}

} // verus!
