//! The move-notation resolver.
//!
//! A notation token is either a lone leading `.` (the canonical origin, used
//! for the very first piece placed on an empty board) or, per the grammar
//! `prefix? piece_code suffix?`, an optional directional symbol, a piece
//! code `color bug digit?`, and an optional directional symbol. The match is
//! searched left to right inside the input: the token starts at the first
//! piece code, takes a directional symbol immediately before it as prefix,
//! the digit immediately after the bug letter, and a directional symbol
//! immediately after the code as suffix; surrounding text is ignored.
//!
//! Resolution looks the piece up in the placement registry; its position is
//! the anchor. A prefix symbol steps the anchor one cell (`\` towards NW,
//! `-` towards W, `/` towards SW); a suffix symbol steps it one more cell
//! (`/` towards NE, `-` towards E, `\` towards SE), after any prefix step:
//! the two steps compose when both are present. A grammar mismatch and an
//! anchor piece that is not on the board collapse into the same parsing
//! error, which echoes the input under the target kind `position`.

use vstd::prelude::*;
use vstd::string::StrSliceExecFns;

use crate::direction::Direction;
use crate::game_error::{is_invalid_direction, is_parsing_error, GameError};
use crate::piece::{
    bug_char, color_char, digit_char, is_bug_char, is_color_char, is_digit_char, piece_from_chars,
    piece_of_chars, Piece,
};
use crate::position::{neighbor_position, Position};
use crate::registry::Registry;

verus! {

/// Whether `c` is one of the three directional symbols of the grammar.
pub open spec fn is_dir_symbol(c: char) -> bool {
    c == '-' || c == '/' || c == '\\'
}

/// Whether a piece code starts at index `j` of `s`.
pub open spec fn code_at(s: Seq<char>, j: int) -> bool {
    &&& 0 <= j
    &&& j + 1 < s.len()
    &&& is_color_char(s[j])
    &&& is_bug_char(s[j + 1])
}

/// The first index at or after `i` where a piece code starts, if any.
pub open spec fn first_code_from(s: Seq<char>, i: int) -> Option<int>
    decreases s.len() - i,
{
    if i + 1 >= s.len() {
        None
    } else if code_at(s, i) {
        Some(i)
    } else {
        first_code_from(s, i + 1)
    }
}

/// A tokenized notation string: the optional prefix symbol, the piece
/// reference spelt by the piece code, and the optional suffix symbol.
#[derive(Clone, Copy, Debug, PartialEq, Eq, Structural)]
pub struct Token {
    pub prefix: Option<char>,
    pub piece: Piece,
    pub suffix: Option<char>,
}

/// The token found in `s` by the leftmost-match rule of the grammar, or
/// `None` when `s` holds no piece code at all.
pub open spec fn spec_tokenize(s: Seq<char>) -> Option<Token> {
    match first_code_from(s, 0) {
        None => None,
        Some(j) => {
            let digit = if j + 2 < s.len() && is_digit_char(s[j + 2]) {
                Some(s[j + 2])
            } else {
                None
            };
            let end = if digit is Some {
                j + 3
            } else {
                j + 2
            };
            Some(
                Token {
                    prefix: if j > 0 && is_dir_symbol(s[j - 1]) {
                        Some(s[j - 1])
                    } else {
                        None
                    },
                    piece: piece_of_chars(s[j], s[j + 1], digit),
                    suffix: if end < s.len() && is_dir_symbol(s[end]) {
                        Some(s[end])
                    } else {
                        None
                    },
                },
            )
        },
    }
}

/// The direction a prefix symbol names; meaningful only under
/// [`is_dir_symbol`].
pub open spec fn prefix_direction_of(c: char) -> Direction {
    if c == '\\' {
        Direction::NW
    } else if c == '-' {
        Direction::W
    } else {
        Direction::SW
    }
}

/// The direction a suffix symbol names; meaningful only under
/// [`is_dir_symbol`].
pub open spec fn suffix_direction_of(c: char) -> Direction {
    if c == '/' {
        Direction::NE
    } else if c == '-' {
        Direction::E
    } else {
        Direction::SE
    }
}

/// The position a token resolves to from the anchor position of its piece:
/// the prefix step, if any, then the suffix step, if any.
pub open spec fn resolved_position(t: Token, anchor: Position) -> Position {
    let after_prefix = match t.prefix {
        None => anchor,
        Some(c) => neighbor_position(anchor, prefix_direction_of(c)),
    };
    match t.suffix {
        None => after_prefix,
        Some(c) => neighbor_position(after_prefix, suffix_direction_of(c)),
    }
}

/// The outcome of resolving the notation string `s` against the placements
/// `m`: the position, or `None` for the collapsed parsing failure (grammar
/// mismatch, or anchor piece not placed).
pub open spec fn resolution(s: Seq<char>, m: Map<Piece, Position>) -> Option<Position> {
    if s.len() > 0 && s[0] == '.' {
        Some(Position { x: 0, y: 0 })
    } else {
        match spec_tokenize(s) {
            None => None,
            Some(t) => if m.contains_key(t.piece) {
                Some(resolved_position(t, m[t.piece]))
            } else {
                None
            },
        }
    }
}

/// The direction named by a prefix symbol, or the invalid-direction error
/// naming `c`. Any character outside the grammar's three symbols is
/// rejected; the resolver only ever passes symbols, so the error arm is its
/// defensive check.
pub fn prefix_to_direction(c: char) -> (r: Result<Direction, GameError>)
    ensures
        is_dir_symbol(c) ==> r == Ok::<Direction, GameError>(prefix_direction_of(c)),
        !is_dir_symbol(c) ==> (r matches Err(e) && is_invalid_direction(e, seq![c])),
{
    if c == '\\' {
        Ok(Direction::NW)
    } else if c == '-' {
        Ok(Direction::W)
    } else if c == '/' {
        Ok(Direction::SW)
    } else {
        Err(GameError::invalid_direction(c))
    }
}

/// The direction named by a suffix symbol, or the invalid-direction error
/// naming `c`; the mirror of [`prefix_to_direction`].
pub fn suffix_to_direction(c: char) -> (r: Result<Direction, GameError>)
    ensures
        is_dir_symbol(c) ==> r == Ok::<Direction, GameError>(suffix_direction_of(c)),
        !is_dir_symbol(c) ==> (r matches Err(e) && is_invalid_direction(e, seq![c])),
{
    if c == '/' {
        Ok(Direction::NE)
    } else if c == '-' {
        Ok(Direction::E)
    } else if c == '\\' {
        Ok(Direction::SE)
    } else {
        Err(GameError::invalid_direction(c))
    }
}

impl Position {
    /// Resolves a notation string against the placement registry.
    ///
    /// A string starting with `.` resolves to the origin regardless of the
    /// registry. Otherwise the string is tokenized by the leftmost-match
    /// rule, the piece's placement becomes the anchor, and the prefix and
    /// suffix steps are applied in that order. When no piece code is found,
    /// or the referenced piece is not placed, the result is the parsing
    /// error echoing the input under the target kind `position`; the two
    /// causes are deliberately not distinguished.
    pub fn from_string(s: &str, registry: &Registry) -> (r: Result<Position, GameError>)
        requires
            registry.wf(),
        ensures
            match resolution(s@, registry@) {
                Some(p) => r == Ok::<Position, GameError>(p),
                None => (r matches Err(e) && is_parsing_error(e, s@, "position"@)),
            },
    {
        let n = s.unicode_len();
        if n > 0 && s.get_char(0) == '.' {
            return Ok(Position::new(0, 0));
        }
        // Scan for the leftmost piece code.
        let mut j: usize = 0;
        let mut found = false;
        while !found && n - j > 1
            invariant
                n == s@.len(),
                0 <= j <= n,
                found ==> code_at(s@, j as int) && first_code_from(s@, 0) == Some(j as int),
                !found ==> first_code_from(s@, 0) == first_code_from(s@, j as int),
            decreases n - j, (if found { 0int } else { 1int }),
        {
            if color_char(s.get_char(j)) && bug_char(s.get_char(j + 1)) {
                found = true;
            } else {
                j += 1;
            }
        }
        if !found {
            return Err(GameError::parsing_error(s, "position"));
        }
        let color = s.get_char(j);
        let bug = s.get_char(j + 1);
        let digit = if j + 2 < n && digit_char(s.get_char(j + 2)) {
            Some(s.get_char(j + 2))
        } else {
            None
        };
        let end = if digit.is_some() {
            j + 3
        } else {
            j + 2
        };
        let piece = piece_from_chars(color, bug, digit);
        proof {
            assert(spec_tokenize(s@) matches Some(t) && t.piece == piece);
        }
        let anchor = match registry.position(&piece) {
            Some(p) => p,
            None => {
                return Err(GameError::parsing_error(s, "position"));
            },
        };
        let mut position = anchor;
        if j > 0 {
            let sym = s.get_char(j - 1);
            if dir_symbol(sym) {
                let d = prefix_to_direction(sym)?;
                position = position.to(&d);
            }
        }
        if end < n {
            let sym = s.get_char(end);
            if dir_symbol(sym) {
                let d = suffix_to_direction(sym)?;
                position = position.to(&d);
            }
        }
        Ok(position)
    }
}

/// Whether `c` is one of the three directional symbols.
fn dir_symbol(c: char) -> (b: bool)
    ensures
        b == is_dir_symbol(c),
{
    c == '-' || c == '/' || c == '\\'
}

} // verus!
