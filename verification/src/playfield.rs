//! The storage behind the playfield: a row of cells that only the engine
//! can write.

use crate::state::{empty_cell, Cell};
use vstd::prelude::*;

verus! {

/// The cells of a playfield, row by row from the top.
pub struct Playfield {
    cells: Vec<Cell>,
}

impl View for Playfield {
    type V = Seq<Cell>;

    closed spec fn view(&self) -> Seq<Cell> {
        self.cells@
    }
}

impl Playfield {
    /// A playfield of `count` empty cells.
    pub fn empty(count: usize) -> (field: Playfield)
        ensures
            field@ == Seq::new(count as nat, |i: int| empty_cell()),
    {
        let mut cells: Vec<Cell> = Vec::new();
        let mut i: usize = 0;
        while i < count
            invariant
                i <= count,
                cells@.len() == i,
                forall|j: int| 0 <= j < i ==> cells@[j] == empty_cell(),
            decreases count - i,
        {
            cells.push(Cell { occupied: false, color: None });
            i += 1;
        }
        assert(cells@ =~= Seq::new(count as nat, |i: int| empty_cell()));
        Playfield { cells }
    }

    /// The playfield that holds the given cells.
    pub(crate) fn from_cells(cells: Vec<Cell>) -> (field: Playfield)
        ensures
            field@ == cells@,
    {
        Playfield { cells }
    }

    /// The number of cells.
    pub fn len(&self) -> (n: usize)
        ensures
            n == self@.len(),
    {
        self.cells.len()
    }

    /// The cell at index `i`.
    pub fn get(&self, i: usize) -> (c: Cell)
        requires
            i < self@.len(),
        ensures
            c == self@[i as int],
    {
        self.cells[i]
    }

    /// Replaces the cell at index `i`.
    pub(crate) fn set(&mut self, i: usize, c: Cell)
        requires
            i < old(self)@.len(),
        ensures
            final(self)@ == old(self)@.update(i as int, c),
    {
        self.cells[i] = c;
    }
}

} // verus!
