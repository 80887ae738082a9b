//! The keyword shorthands of the style system, reduced to their grammars.
//!
//! Each submodule parses one shorthand into its expanded longhand values.
//! The token stream is held as a cursor over pre-lexed tokens: known
//! keywords, interned custom identifiers, and delimiters.

use vstd::prelude::*;

pub mod container;
pub mod page_break_after;
pub mod page_break_before;
pub mod page_break_inside;

verus! {

/// A keyword this grammar family knows, or anything else.
#[derive(Clone, Copy, Debug, PartialEq, Eq, Structural)]
pub enum CssIdent {
    Auto,
    Always,
    Avoid,
    Left,
    Right,
    /// The keyword `none`.
    NoneKeyword,
    Normal,
    Size,
    InlineSize,
    Other,
}

/// One pre-lexed token.
#[derive(Clone, Copy, Debug, PartialEq, Eq, Structural)]
pub enum CssToken {
    /// A known keyword identifier.
    Ident(CssIdent),
    /// A custom identifier, interned by the lexer.
    CustomIdent(u32),
    /// A single delimiter character.
    Delim(char),
}

/// The computed break-between value of a break longhand.
#[derive(Clone, Copy, Debug, PartialEq, Eq, Structural)]
pub enum BreakBetween {
    Auto,
    Page,
    Avoid,
    Left,
    Right,
}

/// Why a value failed to parse.
#[derive(Clone, Copy, Debug, PartialEq, Eq, Structural)]
pub enum ParseError {
    /// The input ended where a token was expected.
    EndOfInput,
    /// The token is not accepted at this position.
    InvalidValue,
}

/// A cursor over a pre-lexed token stream.
pub struct Parser {
    pub tokens: Vec<CssToken>,
    pub pos: usize,
}

impl Parser {
    pub open spec fn wf(self) -> bool {
        self.pos <= self.tokens@.len()
    }

    pub fn new(tokens: Vec<CssToken>) -> (r: Parser)
        ensures
            r.wf(),
            r.tokens@ == tokens@,
            r.pos == 0,
    {
        Parser { tokens, pos: 0 }
    }

    /// The token under the cursor, if any, without consuming it.
    pub fn peek(&self) -> (r: Option<CssToken>)
        requires
            self.wf(),
        ensures
            (self.pos as int) < self.tokens@.len() ==> r == Some(
                self.tokens@[self.pos as int],
            ),
            self.pos == self.tokens@.len() ==> r is None,
    {
        if self.pos < self.tokens.len() {
            Some(self.tokens[self.pos])
        } else {
            None
        }
    }

    /// Consume the token under the cursor.
    pub fn advance(&mut self)
        requires
            old(self).wf(),
            (old(self).pos as int) < old(self).tokens@.len(),
        ensures
            final(self).wf(),
            final(self).tokens@ == old(self).tokens@,
            final(self).pos == old(self).pos + 1,
    {
        let n = self.tokens.len();
        proof {
            assert(self.pos < n);
        }
        self.pos = self.pos + 1;
    }
}

/// The break value a legacy keyword stands for, if it is accepted:
/// `always` maps to the page break, everything else to its namesake.
pub open spec fn spec_legacy_break(ident: CssIdent) -> Option<BreakBetween> {
    match ident {
        CssIdent::Auto => Some(BreakBetween::Auto),
        CssIdent::Always => Some(BreakBetween::Page),
        CssIdent::Avoid => Some(BreakBetween::Avoid),
        CssIdent::Left => Some(BreakBetween::Left),
        CssIdent::Right => Some(BreakBetween::Right),
        _ => None,
    }
}

/// What legacy break-keyword parsing answers on a given cursor position:
/// one accepted keyword, or an error.
pub open spec fn spec_parse_legacy_break(p: Parser) -> Result<BreakBetween, ParseError> {
    if p.pos == p.tokens@.len() {
        Err(ParseError::EndOfInput)
    } else {
        match p.tokens@[p.pos as int] {
            CssToken::Ident(ident) => match spec_legacy_break(ident) {
                Some(value) => Ok(value),
                None => Err(ParseError::InvalidValue),
            },
            _ => Err(ParseError::InvalidValue),
        }
    }
}

/// Parse one legacy break keyword: an accepted keyword is consumed and
/// mapped (`always` to the page break); anything else is an error and
/// consumes nothing.
pub fn parse_legacy_break(input: &mut Parser) -> (r: Result<BreakBetween, ParseError>)
    requires
        old(input).wf(),
    ensures
        final(input).wf(),
        final(input).tokens@ == old(input).tokens@,
        r == spec_parse_legacy_break(*old(input)),
        r is Ok ==> final(input).pos == old(input).pos + 1,
        r is Err ==> final(input).pos == old(input).pos,
{
    let token = match input.peek() {
        Some(token) => token,
        None => {
            return Err(ParseError::EndOfInput);
        }
    };
    let ident = match token {
        CssToken::Ident(ident) => ident,
        _ => {
            return Err(ParseError::InvalidValue);
        }
    };
    let value = match ident {
        CssIdent::Auto => BreakBetween::Auto,
        CssIdent::Always => BreakBetween::Page,
        CssIdent::Avoid => BreakBetween::Avoid,
        CssIdent::Left => BreakBetween::Left,
        CssIdent::Right => BreakBetween::Right,
        _ => {
            return Err(ParseError::InvalidValue);
        }
    };
    input.advance();
    Ok(value)
}

} // verus!
