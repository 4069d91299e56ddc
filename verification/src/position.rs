//! Board coordinates under the "odd-row-offset horizontal" hex layout, and
//! the neighbor arithmetic over them.
//!
//! Rows of odd parity sit half a cell to the right of even rows, so the six
//! neighbor offsets of a cell depend on the parity of its `y` coordinate.
//! The two parity tables in [`neighbor_offset`] are the single source of
//! truth for all geometry; [`lemma_direction_to_inverse`],
//! [`lemma_double_round_trip`] and [`lemma_offsets_distinct`] tie them to the
//! direction vocabulary.

use vstd::prelude::*;

use crate::direction::{clockwise, counter_clockwise, Direction};

verus! {

/// A cell of the hex board, named by a pair of signed coordinates.
#[derive(Clone, Copy, Debug, PartialEq, Eq, Hash, PartialOrd, Ord, Structural)]
pub struct Position {
    pub x: i32,
    pub y: i32,
}

/// Whether `p` lies on an even row; the row parity selects the offset table.
pub open spec fn even_row(p: Position) -> bool {
    p.y as int % 2 == 0
}

/// The coordinate offset of the neighbor in direction `d`, for a cell on an
/// even row (`even == true`) or an odd row (`even == false`).
pub open spec fn neighbor_offset(d: Direction, even: bool) -> (int, int) {
    if even {
        match d {
            Direction::NW => (-1, -1),
            Direction::NE => (0, -1),
            Direction::E => (1, 0),
            Direction::SE => (0, 1),
            Direction::SW => (-1, 1),
            Direction::W => (-1, 0),
        }
    } else {
        match d {
            Direction::NW => (0, -1),
            Direction::NE => (1, -1),
            Direction::E => (1, 0),
            Direction::SE => (1, 1),
            Direction::SW => (0, 1),
            Direction::W => (-1, 0),
        }
    }
}

/// The unique neighbor of `p` in direction `d`.
pub open spec fn neighbor_position(p: Position, d: Direction) -> Position {
    Position {
        x: (p.x + neighbor_offset(d, even_row(p)).0) as i32,
        y: (p.y + neighbor_offset(d, even_row(p)).1) as i32,
    }
}

/// The direction named by a coordinate delta on a row of the given parity,
/// or `None` when the delta is not one of the six neighbor offsets.
pub open spec fn delta_direction(even: bool, dx: int, dy: int) -> Option<Direction> {
    if even {
        if dx == -1 && dy == -1 {
            Some(Direction::NW)
        } else if dx == 0 && dy == -1 {
            Some(Direction::NE)
        } else if dx == 1 && dy == 0 {
            Some(Direction::E)
        } else if dx == 0 && dy == 1 {
            Some(Direction::SE)
        } else if dx == -1 && dy == 1 {
            Some(Direction::SW)
        } else if dx == -1 && dy == 0 {
            Some(Direction::W)
        } else {
            None
        }
    } else {
        if dx == 0 && dy == -1 {
            Some(Direction::NW)
        } else if dx == 1 && dy == -1 {
            Some(Direction::NE)
        } else if dx == 1 && dy == 0 {
            Some(Direction::E)
        } else if dx == 1 && dy == 1 {
            Some(Direction::SE)
        } else if dx == 0 && dy == 1 {
            Some(Direction::SW)
        } else if dx == -1 && dy == 0 {
            Some(Direction::W)
        } else {
            None
        }
    }
}

/// Whether `to` is one of the six true neighbors of `from`.
pub open spec fn is_neighbor(from: Position, to: Position) -> bool {
    delta_direction(even_row(from), to.x - from.x, to.y - from.y) is Some
}

/// The direction from `from` to its neighbor `to`; meaningful only under
/// [`is_neighbor`].
pub open spec fn spec_direction(from: Position, to: Position) -> Direction {
    match delta_direction(even_row(from), to.x - from.x, to.y - from.y) {
        Some(d) => d,
        None => Direction::W,
    }
}

/// Whether one neighbor step away from `p` stays within `i32` in every
/// direction; a machine limit, not a rule of the game.
pub open spec fn step_in_range(p: Position) -> bool {
    &&& i32::MIN < p.x < i32::MAX
    &&& i32::MIN < p.y < i32::MAX
}

/// Whether two neighbor steps away from `p` stay within `i32` in every
/// direction; a machine limit, not a rule of the game.
pub open spec fn anchor_in_range(p: Position) -> bool {
    &&& i32::MIN + 2 <= p.x <= i32::MAX - 2
    &&& i32::MIN + 2 <= p.y <= i32::MAX - 2
}

impl Position {
    pub fn new(x: i8, y: i8) -> (r: Position)
        ensures
            r.x == x as int,
            r.y == y as int,
    {
        Position { x: x as i32, y: y as i32 }
    }

    pub fn new_i32(x: i32, y: i32) -> (r: Position)
        ensures
            r == (Position { x, y }),
    {
        Position { x, y }
    }

    pub fn new_i8(x: i8, y: i8) -> (r: Position)
        ensures
            r.x == x as int,
            r.y == y as int,
    {
        Position { x: x as i32, y: y as i32 }
    }

    /// Whether this cell lies on an even row.
    fn is_even_row(&self) -> (b: bool)
        ensures
            b == even_row(*self),
    {
        match self.y.checked_rem_euclid(2) {
            Some(r) => r == 0,
            None => false,
        }
    }

    /// The neighbor of this cell in `direction`.
    pub fn to(&self, direction: &Direction) -> (r: Position)
        requires
            step_in_range(*self),
        ensures
            r == neighbor_position(*self, *direction),
    {
        if self.is_even_row() {
            match direction {
                Direction::NW => Position::new_i32(self.x - 1, self.y - 1),
                Direction::NE => Position::new_i32(self.x, self.y - 1),
                Direction::E => Position::new_i32(self.x + 1, self.y),
                Direction::SE => Position::new_i32(self.x, self.y + 1),
                Direction::SW => Position::new_i32(self.x - 1, self.y + 1),
                Direction::W => Position::new_i32(self.x - 1, self.y),
            }
        } else {
            match direction {
                Direction::NW => Position::new_i32(self.x, self.y - 1),
                Direction::NE => Position::new_i32(self.x + 1, self.y - 1),
                Direction::E => Position::new_i32(self.x + 1, self.y),
                Direction::SE => Position::new_i32(self.x + 1, self.y + 1),
                Direction::SW => Position::new_i32(self.x, self.y + 1),
                Direction::W => Position::new_i32(self.x - 1, self.y),
            }
        }
    }

    /// The direction from this cell to its neighbor `to`.
    ///
    /// Adjacency is a programming contract of the engine, not user input:
    /// a caller must establish [`is_neighbor`] before calling, and the
    /// contract leaves every other pair out.
    pub fn direction(&self, to: &Position) -> (d: Direction)
        requires
            is_neighbor(*self, *to),
        ensures
            d == spec_direction(*self, *to),
    {
        let dx = to.x - self.x;
        let dy = to.y - self.y;
        if self.is_even_row() {
            match (dx, dy) {
                (-1, -1) => Direction::NW,
                (0, -1) => Direction::NE,
                (1, 0) => Direction::E,
                (0, 1) => Direction::SE,
                (-1, 1) => Direction::SW,
                (-1, 0) => Direction::W,
                _ => vstd::pervasive::unreached(),
            }
        } else {
            match (dx, dy) {
                (0, -1) => Direction::NW,
                (1, -1) => Direction::NE,
                (1, 0) => Direction::E,
                (1, 1) => Direction::SE,
                (0, 1) => Direction::SW,
                (-1, 0) => Direction::W,
                _ => vstd::pervasive::unreached(),
            }
        }
    }

    /// The two cells adjacent to both this cell and its neighbor `to`: the
    /// pair that flanks the edge between them and gates sliding movement.
    /// They are reached from this cell along the two ring neighbors of the
    /// direction towards `to`.
    pub fn common_adjacent_positions(&self, to: &Position) -> (r: (Position, Position))
        requires
            is_neighbor(*self, *to),
            step_in_range(*self),
        ensures
            r.0 == neighbor_position(*self, counter_clockwise(spec_direction(*self, *to))),
            r.1 == neighbor_position(*self, clockwise(spec_direction(*self, *to))),
    {
        let (dir1, dir2) = self.direction(to).adjacent_directions();
        (self.to(&dir1), self.to(&dir2))
    }
}

/// Translation and direction-finding are mutually inverse: walking from `p`
/// towards `d` reaches a true neighbor, and the direction from `p` to that
/// neighbor is `d` again.
pub proof fn lemma_direction_to_inverse(p: Position, d: Direction)
    requires
        step_in_range(p),
    ensures
        is_neighbor(p, neighbor_position(p, d)),
        spec_direction(p, neighbor_position(p, d)) == d,
{
}

/// Walking from `p` towards `d` and then back along the direction that the
/// neighbor sees returns to `p`.
pub proof fn lemma_double_round_trip(p: Position, d: Direction)
    requires
        step_in_range(p),
    ensures
        is_neighbor(neighbor_position(p, d), p),
        neighbor_position(neighbor_position(p, d), spec_direction(neighbor_position(p, d), p))
            == p,
{
}

/// On each row parity, the six neighbor offsets are mutually distinct, so
/// the offset table is a bijection between the direction ring and the six
/// neighbor deltas.
pub proof fn lemma_offsets_distinct(even: bool, d1: Direction, d2: Direction)
    ensures
        neighbor_offset(d1, even) == neighbor_offset(d2, even) ==> d1 == d2,
{
}

} // verus!
