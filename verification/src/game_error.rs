//! The user-facing error taxonomy of the engine core.
//!
//! Only two kinds exist: an invalid directional symbol, which names the
//! offending symbol, and a parsing error, which echoes the offending input
//! together with a fixed target-kind tag. Internal contract violations (a
//! direction asked of a non-adjacent pair) are deliberately not part of this
//! taxonomy: they are preconditions of the functions concerned.

use vstd::prelude::*;

verus! {

/// A recoverable, input-facing failure of notation resolution or piece-code
/// parsing.
#[derive(Clone, Debug, PartialEq, Eq)]
pub enum GameError {
    /// A directional symbol that is not one of the three valid tokens for
    /// its side of the piece code.
    InvalidDirection { direction: String },
    /// A grammar mismatch, a bad piece code, or an anchor piece that is not
    /// on the board, all collapsed into one kind carrying the original
    /// input and the kind of value that was being parsed.
    ParsingError { found: String, typ: String },
}

/// Whether `e` is the parsing error that echoes the input `found` under the
/// target kind `typ`.
pub open spec fn is_parsing_error(e: GameError, found: Seq<char>, typ: Seq<char>) -> bool {
    &&& e matches GameError::ParsingError { found: f, typ: t }
    &&& f@ == found
    &&& t@ == typ
}

/// Whether `e` is the invalid-direction error naming the symbol `direction`.
pub open spec fn is_invalid_direction(e: GameError, direction: Seq<char>) -> bool {
    &&& e matches GameError::InvalidDirection { direction: d }
    &&& d@ == direction
}

/// The one-character string holding `c`.
///
/// Relies on `char::to_string` of std: the returned string consists of
/// exactly the given character.
#[verifier::external_body]
pub(crate) fn char_to_string(c: char) -> (r: String)
    ensures
        r@ == seq![c],
{
    c.to_string()
}

impl GameError {
    /// The parsing error that echoes `found` under the target kind `typ`.
    pub fn parsing_error(found: &str, typ: &str) -> (e: GameError)
        ensures
            is_parsing_error(e, found@, typ@),
    {
        GameError::ParsingError { found: found.to_owned(), typ: typ.to_owned() }
    }

    /// The invalid-direction error naming the symbol `c`.
    pub fn invalid_direction(c: char) -> (e: GameError)
        ensures
            is_invalid_direction(e, seq![c]),
    {
        GameError::InvalidDirection { direction: char_to_string(c) }
    }

    /// The offending symbol of an invalid-direction error, or the echoed
    /// input of a parsing error.
    pub fn offending_text(&self) -> (r: &String)
        ensures
            self matches GameError::InvalidDirection { direction } ==> r@ == direction@,
            self matches GameError::ParsingError { found, .. } ==> r@ == found@,
    {
        match self {
            GameError::InvalidDirection { direction } => direction,
            GameError::ParsingError { found, .. } => found,
        }
    }
}

} // verus!
