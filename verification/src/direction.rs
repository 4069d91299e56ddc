//! The six hex-neighbor directions and their cyclic adjacency ring.

use vstd::prelude::*;

verus! {

/// One of the six neighbor directions of a hex cell, arranged in the fixed
/// cyclic order NW -> NE -> E -> SE -> SW -> W -> NW.
#[derive(Clone, Copy, Debug, PartialEq, Eq, Hash, Structural)]
pub enum Direction {
    NW,
    NE,
    E,
    SE,
    SW,
    W,
}

/// The direction that follows `d` clockwise in the six-cycle.
pub open spec fn clockwise(d: Direction) -> Direction {
    match d {
        Direction::NW => Direction::NE,
        Direction::NE => Direction::E,
        Direction::E => Direction::SE,
        Direction::SE => Direction::SW,
        Direction::SW => Direction::W,
        Direction::W => Direction::NW,
    }
}

/// The direction that precedes `d` clockwise in the six-cycle.
pub open spec fn counter_clockwise(d: Direction) -> Direction {
    match d {
        Direction::NW => Direction::W,
        Direction::NE => Direction::NW,
        Direction::E => Direction::NE,
        Direction::SE => Direction::E,
        Direction::SW => Direction::SE,
        Direction::W => Direction::SW,
    }
}

/// The two ring traversals are mutually inverse, so each direction has
/// exactly one clockwise and one counter-clockwise neighbor.
pub proof fn lemma_ring_inverse(d: Direction)
    ensures
        counter_clockwise(clockwise(d)) == d,
        clockwise(counter_clockwise(d)) == d,
{
}

impl Direction {
    /// The two directions immediately adjacent to `self` in the six-cycle:
    /// its counter-clockwise neighbor first, its clockwise neighbor second.
    pub fn adjacent_directions(&self) -> (r: (Direction, Direction))
        ensures
            r.0 == counter_clockwise(*self),
            r.1 == clockwise(*self),
    {
        match self {
            Direction::NW => (Direction::W, Direction::NE),
            Direction::NE => (Direction::NW, Direction::E),
            Direction::E => (Direction::NE, Direction::SE),
            Direction::SE => (Direction::E, Direction::SW),
            Direction::SW => (Direction::SE, Direction::W),
            Direction::W => (Direction::SW, Direction::NW),
        }
    }

    /// All six directions, in ring order starting at NW.
    pub fn all() -> (v: Vec<Direction>)
        ensures
            v@ == seq![
                Direction::NW,
                Direction::NE,
                Direction::E,
                Direction::SE,
                Direction::SW,
                Direction::W,
            ],
    {
        let mut v: Vec<Direction> = Vec::new();
        v.push(Direction::NW);
        v.push(Direction::NE);
        v.push(Direction::E);
        v.push(Direction::SE);
        v.push(Direction::SW);
        v.push(Direction::W);
        proof {
            assert(v@ =~= seq![
                Direction::NW,
                Direction::NE,
                Direction::E,
                Direction::SE,
                Direction::SW,
                Direction::W,
            ]);
        }
        v
    }
}

} // verus!
