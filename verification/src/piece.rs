//! Piece references: a color, a bug letter and an optional ordinal, used as
//! an opaque lookup key into the placement registry. The core never
//! interprets bug semantics.

use vstd::prelude::*;

use crate::game_error::GameError;
use vstd::string::StrSliceExecFns;

verus! {

/// The side a piece belongs to, written `w` or `b` in notation.
#[derive(Clone, Copy, Debug, PartialEq, Eq, Hash, Structural)]
pub enum Color {
    White,
    Black,
}

/// The bug kind of a piece, written as one letter of the fixed alphabet
/// `A B G M L P S Q` in notation.
#[derive(Clone, Copy, Debug, PartialEq, Eq, Hash, Structural)]
pub enum Bug {
    Ant,
    Beetle,
    Grasshopper,
    Mosquito,
    Ladybug,
    Pillbug,
    Spider,
    Queen,
}

/// A piece reference. Two references are equal exactly when color, bug and
/// ordinal all match; a reference carries identity, never a position.
#[derive(Clone, Copy, Debug, PartialEq, Eq, Hash, Structural)]
pub struct Piece {
    pub color: Color,
    pub bug: Bug,
    pub order: Option<u8>,
}

/// Whether `c` is a color letter of the notation grammar.
pub open spec fn is_color_char(c: char) -> bool {
    c == 'w' || c == 'b'
}

/// Whether `c` is a bug letter of the notation grammar.
pub open spec fn is_bug_char(c: char) -> bool {
    ||| c == 'A'
    ||| c == 'B'
    ||| c == 'G'
    ||| c == 'M'
    ||| c == 'L'
    ||| c == 'P'
    ||| c == 'S'
    ||| c == 'Q'
}

/// Whether `c` is a decimal digit.
pub open spec fn is_digit_char(c: char) -> bool {
    48 <= c as u32 <= 57
}

/// The color named by a color letter; meaningful only under
/// [`is_color_char`].
pub open spec fn color_of_char(c: char) -> Color {
    if c == 'w' {
        Color::White
    } else {
        Color::Black
    }
}

/// The bug named by a bug letter; meaningful only under [`is_bug_char`].
pub open spec fn bug_of_char(c: char) -> Bug {
    if c == 'A' {
        Bug::Ant
    } else if c == 'B' {
        Bug::Beetle
    } else if c == 'G' {
        Bug::Grasshopper
    } else if c == 'M' {
        Bug::Mosquito
    } else if c == 'L' {
        Bug::Ladybug
    } else if c == 'P' {
        Bug::Pillbug
    } else if c == 'S' {
        Bug::Spider
    } else {
        Bug::Queen
    }
}

/// The value of a decimal digit; meaningful only under [`is_digit_char`].
pub open spec fn digit_value(c: char) -> u8 {
    (c as u32 - 48) as u8
}

/// The piece reference spelt by a color letter, a bug letter and an
/// optional digit.
pub open spec fn piece_of_chars(color: char, bug: char, digit: Option<char>) -> Piece {
    Piece {
        color: color_of_char(color),
        bug: bug_of_char(bug),
        order: match digit {
            None => None,
            Some(d) => Some(digit_value(d)),
        },
    }
}

/// Whether the whole of `s` spells a piece code of the grammar
/// `color bug digit?`.
pub open spec fn is_piece_code(s: Seq<char>) -> bool {
    &&& 2 <= s.len() <= 3
    &&& is_color_char(s[0])
    &&& is_bug_char(s[1])
    &&& (s.len() == 3 ==> is_digit_char(s[2]))
}

/// The piece reference spelt by a whole piece code; meaningful only under
/// [`is_piece_code`].
pub open spec fn piece_of_code(s: Seq<char>) -> Piece {
    piece_of_chars(s[0], s[1], if s.len() == 3 { Some(s[2]) } else { None })
}

pub(crate) fn color_char(c: char) -> (b: bool)
    ensures
        b == is_color_char(c),
{
    c == 'w' || c == 'b'
}

pub(crate) fn bug_char(c: char) -> (b: bool)
    ensures
        b == is_bug_char(c),
{
    c == 'A' || c == 'B' || c == 'G' || c == 'M' || c == 'L' || c == 'P' || c == 'S' || c == 'Q'
}

pub(crate) fn digit_char(c: char) -> (b: bool)
    ensures
        b == is_digit_char(c),
{
    let u = c as u32;
    48 <= u && u <= 57
}

/// The piece reference spelt by the given code characters.
pub(crate) fn piece_from_chars(color: char, bug: char, digit: Option<char>) -> (p: Piece)
    requires
        is_color_char(color),
        is_bug_char(bug),
        digit matches Some(d) ==> is_digit_char(d),
    ensures
        p == piece_of_chars(color, bug, digit),
{
    let c = if color == 'w' {
        Color::White
    } else {
        Color::Black
    };
    let b = if bug == 'A' {
        Bug::Ant
    } else if bug == 'B' {
        Bug::Beetle
    } else if bug == 'G' {
        Bug::Grasshopper
    } else if bug == 'M' {
        Bug::Mosquito
    } else if bug == 'L' {
        Bug::Ladybug
    } else if bug == 'P' {
        Bug::Pillbug
    } else if bug == 'S' {
        Bug::Spider
    } else {
        Bug::Queen
    };
    let o = match digit {
        None => None,
        Some(d) => Some((d as u32 - 48) as u8),
    };
    Piece { color: c, bug: b, order: o }
}

impl Piece {
    pub fn new(color: Color, bug: Bug, order: Option<u8>) -> (p: Piece)
        ensures
            p == (Piece { color, bug, order }),
    {
        Piece { color, bug, order }
    }

    /// Parses a whole piece code such as `wA1` or `bQ`. Any string that is
    /// not exactly `color bug digit?` is rejected with a parsing error that
    /// echoes the input under the target kind `piece`.
    pub fn from_code(s: &str) -> (r: Result<Piece, GameError>)
        ensures
            is_piece_code(s@) ==> r == Ok::<Piece, GameError>(piece_of_code(s@)),
            !is_piece_code(s@) ==> (r matches Err(e)
                && crate::game_error::is_parsing_error(e, s@, "piece"@)),
    {
        let n = s.unicode_len();
        if n < 2 || n > 3 {
            return Err(GameError::parsing_error(s, "piece"));
        }
        let c0 = s.get_char(0);
        let c1 = s.get_char(1);
        if !color_char(c0) || !bug_char(c1) {
            return Err(GameError::parsing_error(s, "piece"));
        }
        if n == 3 {
            let c2 = s.get_char(2);
            if !digit_char(c2) {
                return Err(GameError::parsing_error(s, "piece"));
            }
            Ok(piece_from_chars(c0, c1, Some(c2)))
        } else {
            Ok(piece_from_chars(c0, c1, None))
        }
    }
}

} // verus!
