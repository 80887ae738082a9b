//! The legacy `page-break-inside` shorthand: one keyword expanding to the
//! `break-inside` longhand, which only knows `auto` and `avoid`.

use vstd::prelude::*;
use crate::shorthand::{CssIdent, CssToken, ParseError, Parser};

verus! {

/// The computed break-within value of the longhand property.
#[derive(Clone, Copy, Debug, PartialEq, Eq, Structural)]
pub enum BreakWithin {
    Auto,
    Avoid,
}

/// The longhand values this shorthand expands to.
#[derive(Clone, Copy, Debug, PartialEq, Eq, Structural)]
pub struct Longhands {
    pub break_inside: BreakWithin,
}

/// The break-within value a legacy keyword stands for, if it is accepted.
pub open spec fn spec_legacy_break_within(ident: CssIdent) -> Option<BreakWithin> {
    match ident {
        CssIdent::Auto => Some(BreakWithin::Auto),
        CssIdent::Avoid => Some(BreakWithin::Avoid),
        _ => None,
    }
}

/// What `parse_value` answers on a given cursor position.
pub open spec fn spec_parse_value(p: Parser) -> Result<Longhands, ParseError> {
    if p.pos == p.tokens@.len() {
        Err(ParseError::EndOfInput)
    } else {
        match p.tokens@[p.pos as int] {
            CssToken::Ident(ident) => match spec_legacy_break_within(ident) {
                Some(value) => Ok(Longhands { break_inside: value }),
                None => Err(ParseError::InvalidValue),
            },
            _ => Err(ParseError::InvalidValue),
        }
    }
}

/// Parse the shorthand: `auto` or `avoid` becomes the expanded longhand
/// value and is consumed; anything else is an error and consumes nothing.
pub fn parse_value(input: &mut Parser) -> (r: Result<Longhands, ParseError>)
    requires
        old(input).wf(),
    ensures
        final(input).wf(),
        final(input).tokens@ == old(input).tokens@,
        r == spec_parse_value(*old(input)),
        r is Ok ==> final(input).pos == old(input).pos + 1,
        r is Err ==> final(input).pos == old(input).pos,
{
    let token = match input.peek() {
        Some(token) => token,
        None => {
            return Err(ParseError::EndOfInput);
        }
    };
    let value = match token {
        CssToken::Ident(CssIdent::Auto) => BreakWithin::Auto,
        CssToken::Ident(CssIdent::Avoid) => BreakWithin::Avoid,
        _ => {
            return Err(ParseError::InvalidValue);
        }
    };
    input.advance();
    Ok(Longhands { break_inside: value })
}

} // verus!
