//! The board placement registry: which pieces currently stand on the board,
//! and where.
//!
//! The registry maps each placed piece reference to at most one position;
//! looking up an unplaced piece yields an explicit absence, never a default
//! coordinate. Its insertion and update lifecycle belongs to the game-state
//! component around the core; the notation resolver only reads it.

use vstd::prelude::*;

use crate::piece::Piece;
use crate::position::{anchor_in_range, Position};

verus! {

/// The mapping named by a sequence of entries, later entries winning.
spec fn map_of_entries(entries: Seq<(Piece, Position)>) -> Map<Piece, Position>
    decreases entries.len(),
{
    if entries.len() == 0 {
        Map::empty()
    } else {
        map_of_entries(entries.drop_last()).insert(entries.last().0, entries.last().1)
    }
}

/// A key is in the mapping exactly when some entry carries it.
proof fn lemma_map_of_contains(entries: Seq<(Piece, Position)>, piece: Piece)
    ensures
        map_of_entries(entries).contains_key(piece) <==> exists|i: int|
            0 <= i < entries.len() && (#[trigger] entries[i]).0 == piece,
    decreases entries.len(),
{
    if entries.len() > 0 {
        lemma_map_of_contains(entries.drop_last(), piece);
        if entries.last().0 == piece {
            assert(entries[entries.len() - 1].0 == piece);
        } else if map_of_entries(entries).contains_key(piece) {
            let i = choose|i: int|
                0 <= i < entries.drop_last().len() && (#[trigger] entries.drop_last()[i]).0
                    == piece;
            assert(entries[i].0 == piece);
        } else {
            assert forall|i: int| 0 <= i < entries.len() implies (#[trigger] entries[i]).0
                != piece by {
                if i < entries.len() - 1 {
                    assert(entries.drop_last()[i] == entries[i]);
                }
            }
        }
    }
}

/// When keys are unique, the entry that carries a key gives its value.
proof fn lemma_map_of_value(entries: Seq<(Piece, Position)>, i: int)
    requires
        forall|j: int, k: int|
            0 <= j < k < entries.len() ==> (#[trigger] entries[j]).0 != (#[trigger] entries[k]).0,
        0 <= i < entries.len(),
    ensures
        map_of_entries(entries).contains_key(entries[i].0),
        map_of_entries(entries)[entries[i].0] == entries[i].1,
    decreases entries.len(),
{
    if i == entries.len() - 1 {
        lemma_map_of_contains(entries, entries[i].0);
    } else {
        lemma_map_of_value(entries.drop_last(), i);
        assert(entries.drop_last()[i] == entries[i]);
        assert(entries.last().0 != entries[i].0);
    }
}

/// The placement registry.
pub struct Registry {
    entries: Vec<(Piece, Position)>,
}

impl Registry {
    /// The mapping from placed pieces to their positions.
    pub closed spec fn view(&self) -> Map<Piece, Position> {
        map_of_entries(self.entries@)
    }

    /// Well-formedness: at most one position per piece reference, and every
    /// stored position far enough from the `i32` bounds that two neighbor
    /// steps stay representable.
    pub closed spec fn wf(&self) -> bool {
        &&& forall|j: int, k: int|
            0 <= j < k < self.entries@.len() ==> (#[trigger] self.entries@[j]).0 != (
            #[trigger] self.entries@[k]).0
        &&& forall|i: int|
            0 <= i < self.entries@.len() ==> anchor_in_range((#[trigger] self.entries@[i]).1)
    }

    /// An empty registry: no piece is placed.
    pub fn new() -> (r: Registry)
        ensures
            r.wf(),
            r@ == Map::<Piece, Position>::empty(),
    {
        Registry { entries: Vec::new() }
    }

    /// Places `piece` at `position`, replacing any earlier placement of the
    /// same piece. The position must keep two neighbor steps within `i32`;
    /// a machine limit, not a rule of the game.
    pub fn place(&mut self, piece: Piece, position: Position)
        requires
            old(self).wf(),
            anchor_in_range(position),
        ensures
            final(self).wf(),
            final(self)@ == old(self)@.insert(piece, position),
    {
        let n = self.entries.len();
        let mut i: usize = 0;
        while i < n
            invariant
                n == self.entries@.len(),
                0 <= i <= n,
                self.wf(),
                self.entries@ == old(self).entries@,
                anchor_in_range(position),
                forall|k: int| 0 <= k < i ==> (#[trigger] self.entries@[k]).0 != piece,
            decreases n - i,
        {
            if self.entries[i].0 == piece {
                proof {
                    lemma_update_entry(self.entries@, i as int, piece, position);
                }
                self.entries[i].1 = position;
                proof {
                    assert(self.entries@ =~= old(self).entries@.update(i as int, (piece, position)));
                    assert forall|j: int, k: int| 0 <= j < k < self.entries@.len() implies (
                    #[trigger] self.entries@[j]).0 != (#[trigger] self.entries@[k]).0 by {
                        assert(old(self).entries@[j].0 != old(self).entries@[k].0);
                    }
                    assert forall|m: int| 0 <= m < self.entries@.len() implies anchor_in_range(
                        (#[trigger] self.entries@[m]).1,
                    ) by {
                        if m == i as int {
                            assert(self.entries@[m] == (piece, position));
                        } else {
                            assert(self.entries@[m] == old(self).entries@[m]);
                            assert(anchor_in_range(old(self).entries@[m].1));
                        }
                    }
                }
                return ;
            }
            i += 1;
        }
        proof {
            lemma_map_of_contains(old(self).entries@, piece);
            assert(self.entries@.push((piece, position)).drop_last() == self.entries@);
        }
        self.entries.push((piece, position));
    }

    /// The current position of `piece`, or absence when it is not placed.
    pub fn position(&self, piece: &Piece) -> (r: Option<Position>)
        requires
            self.wf(),
        ensures
            match r {
                Some(p) => self@.contains_key(*piece) && self@[*piece] == p && anchor_in_range(p),
                None => !self@.contains_key(*piece),
            },
    {
        let n = self.entries.len();
        let mut i: usize = 0;
        while i < n
            invariant
                n == self.entries@.len(),
                0 <= i <= n,
                self.wf(),
                forall|k: int| 0 <= k < i ==> (#[trigger] self.entries@[k]).0 != *piece,
            decreases n - i,
        {
            if self.entries[i].0 == *piece {
                proof {
                    lemma_map_of_value(self.entries@, i as int);
                }
                return Some(self.entries[i].1);
            }
            i += 1;
        }
        proof {
            lemma_map_of_contains(self.entries@, *piece);
        }
        None
    }

    /// How many pieces are placed.
    pub fn len(&self) -> (n: usize)
        requires
            self.wf(),
        ensures
            n == self@.len(),
    {
        proof {
            lemma_map_of_len(self.entries@);
        }
        self.entries.len()
    }
}

/// Updating the entry that carries a key changes the mapping as `insert`
/// does, when keys are unique.
proof fn lemma_update_entry(entries: Seq<(Piece, Position)>, i: int, piece: Piece, position: Position)
    requires
        forall|j: int, k: int|
            0 <= j < k < entries.len() ==> (#[trigger] entries[j]).0 != (#[trigger] entries[k]).0,
        0 <= i < entries.len(),
        entries[i].0 == piece,
    ensures
        map_of_entries(entries.update(i, (piece, position))) == map_of_entries(entries).insert(
            piece,
            position,
        ),
    decreases entries.len(),
{
    let updated = entries.update(i, (piece, position));
    if i == entries.len() - 1 {
        assert(updated.drop_last() =~= entries.drop_last());
        assert(map_of_entries(updated) =~= map_of_entries(entries).insert(piece, position));
    } else {
        assert(updated.drop_last() =~= entries.drop_last().update(i, (piece, position)));
        lemma_update_entry(entries.drop_last(), i, piece, position);
        assert(entries.last().0 != piece);
        assert(updated.last() == entries.last());
        assert(map_of_entries(updated) =~= map_of_entries(entries).insert(piece, position));
    }
}

/// The mapping named by finitely many entries is finite.
proof fn lemma_map_of_finite(entries: Seq<(Piece, Position)>)
    ensures
        map_of_entries(entries).dom().finite(),
    decreases entries.len(),
{
    if entries.len() > 0 {
        lemma_map_of_finite(entries.drop_last());
    }
}

/// With unique keys, the mapping has exactly one key per entry.
proof fn lemma_map_of_len(entries: Seq<(Piece, Position)>)
    requires
        forall|j: int, k: int|
            0 <= j < k < entries.len() ==> (#[trigger] entries[j]).0 != (#[trigger] entries[k]).0,
    ensures
        map_of_entries(entries).len() == entries.len(),
    decreases entries.len(),
{
    if entries.len() > 0 {
        lemma_map_of_len(entries.drop_last());
        lemma_map_of_contains(entries.drop_last(), entries.last().0);
        assert(forall|i: int|
            0 <= i < entries.drop_last().len() ==> (#[trigger] entries.drop_last()[i]) == entries[i]);
        assert(!map_of_entries(entries.drop_last()).contains_key(entries.last().0));
        let m0 = map_of_entries(entries.drop_last());
        let k = entries.last().0;
        lemma_map_of_finite(entries.drop_last());
        vstd::set::axiom_set_insert_len(m0.dom(), k);
        assert(map_of_entries(entries).dom() =~= m0.dom().insert(k));
    }
}

} // verus!
