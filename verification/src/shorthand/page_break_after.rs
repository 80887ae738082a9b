//! The legacy `page-break-after` shorthand: one break keyword expanding
//! to the `break-after` longhand.

use vstd::prelude::*;
use crate::shorthand::{
    parse_legacy_break, spec_parse_legacy_break, BreakBetween, ParseError, Parser,
};

verus! {

/// The longhand values this shorthand expands to.
#[derive(Clone, Copy, Debug, PartialEq, Eq, Structural)]
pub struct Longhands {
    pub break_after: BreakBetween,
}

/// What `parse_value` answers on a given cursor position.
pub open spec fn spec_parse_value(p: Parser) -> Result<Longhands, ParseError> {
    match spec_parse_legacy_break(p) {
        Ok(value) => Ok(Longhands { break_after: value }),
        Err(e) => Err(e),
    }
}

/// Parse the shorthand: one accepted keyword becomes the expanded
/// longhand value and is consumed; anything else is an error and
/// consumes nothing.
pub fn parse_value(input: &mut Parser) -> (r: Result<Longhands, ParseError>)
    requires
        old(input).wf(),
    ensures
        final(input).wf(),
        final(input).tokens@ == old(input).tokens@,
        r == spec_parse_value(*old(input)),
        r is Ok ==> final(input).pos == old(input).pos + 1,
        r is Err ==> final(input).pos == old(input).pos,
{
    match parse_legacy_break(input) {
        Ok(value) => Ok(Longhands { break_after: value }),
        Err(e) => Err(e),
    }
}

} // verus!
