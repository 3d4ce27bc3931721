//! The cells of the playing field that locked pieces already fill.
//!
//! A cell is named by the pixel coordinate of its top-left corner. Each filled
//! cell carries an identifier chosen by the board; the piece rules only ask
//! whether a cell is filled.

use std::collections::HashMap;
use vstd::prelude::*;

verus! {

/// The key under which the cell at pixel coordinate `pos` is stored: the two
/// coordinates side by side in one 64-bit word.
pub open spec fn cell_key(pos: (u32, u32)) -> u64 {
    (pos.0 as int * 0x1_0000_0000 + pos.1 as int) as u64
}

/// Different cells have different keys.
pub proof fn lemma_cell_key_injective(a: (u32, u32), b: (u32, u32))
    ensures
        cell_key(a) == cell_key(b) <==> a == b,
{
}

/// The filled cells of the playing field, each with the identifier of its
/// occupant.
pub struct Occupancy {
    cells: HashMap<u64, u32>,
}

impl View for Occupancy {
    type V = Map<(u32, u32), u32>;

    closed spec fn view(&self) -> Map<(u32, u32), u32> {
        Map::new(
            |pos: (u32, u32)| self.cells@.contains_key(cell_key(pos)),
            |pos: (u32, u32)| self.cells@[cell_key(pos)],
        )
    }
}

impl Occupancy {
    /// Creates a field in which no cell is filled.
    pub fn new() -> (board: Occupancy)
        ensures
            board@ == Map::<(u32, u32), u32>::empty(),
    {
        let board = Occupancy { cells: HashMap::new() };
        assert(board@ =~= Map::<(u32, u32), u32>::empty());
        board
    }

    fn key(pos: (u32, u32)) -> (k: u64)
        ensures
            k == cell_key(pos),
    {
        pos.0 as u64 * 0x1_0000_0000 + pos.1 as u64
    }

    /// Fills the cell at `pos` with `occupant` and returns the occupant it
    /// held before, if it was filled.
    pub fn insert(&mut self, pos: (u32, u32), occupant: u32) -> (previous: Option<u32>)
        ensures
            final(self)@ == old(self)@.insert(pos, occupant),
            previous == if old(self)@.contains_key(pos) {
                Some(old(self)@[pos])
            } else {
                None
            },
    {
        let k = Self::key(pos);
        let previous = self.cells.insert(k, occupant);
        proof {
            assert forall|p: (u32, u32)| cell_key(p) == k implies p == pos by {
                lemma_cell_key_injective(p, pos);
            }
            assert(self@ =~= old(self)@.insert(pos, occupant));
        }
        previous
    }

    /// Empties the cell at `pos` and returns the occupant it held, if it was
    /// filled.
    pub fn remove(&mut self, pos: (u32, u32)) -> (previous: Option<u32>)
        ensures
            final(self)@ == old(self)@.remove(pos),
            previous == if old(self)@.contains_key(pos) {
                Some(old(self)@[pos])
            } else {
                None
            },
    {
        let k = Self::key(pos);
        let previous = self.cells.remove(&k);
        proof {
            assert forall|p: (u32, u32)| cell_key(p) == k implies p == pos by {
                lemma_cell_key_injective(p, pos);
            }
            assert(self@ =~= old(self)@.remove(pos));
        }
        previous
    }

    /// Tells whether the cell at `pos` is filled.
    pub fn contains_key(&self, pos: &(u32, u32)) -> (filled: bool)
        ensures
            filled == self@.contains_key(*pos),
    {
        let k = Self::key(*pos);
        self.cells.contains_key(&k)
    }
}

} // verus!
