use vstd::prelude::*;

verus! {

/// Binary color of one grid position. Every position holds exactly one of
/// these two values at all times; there is no empty state.
#[derive(Clone, Copy, Debug, PartialEq, Eq, Structural)]
pub enum Cell {
    White,
    Black,
}

impl Cell {
    /// The opposite color: White <-> Black.
    pub open spec fn spec_toggle(self) -> Cell {
        match self {
            Cell::White => Cell::Black,
            Cell::Black => Cell::White,
        }
    }

    /// Flips the color in place: White <-> Black.
    pub fn toggle(&mut self)
        ensures
            *final(self) == old(self).spec_toggle(),
    {
        *self = match *self {
            Cell::White => Cell::Black,
            Cell::Black => Cell::White,
        };
    }

    /// The stable integer tag that crosses the external interface:
    /// White = 0, Black = 1.
    pub open spec fn spec_tag(self) -> u8 {
        match self {
            Cell::White => 0u8,
            Cell::Black => 1u8,
        }
    }

    /// Encodes the color as its one-byte tag.
    pub fn tag(self) -> (r: u8)
        ensures
            r == self.spec_tag(),
    {
        match self {
            Cell::White => 0,
            Cell::Black => 1,
        }
    }
}

/// The number of white cells in a sequence.
pub open spec fn count_white(cells: Seq<Cell>) -> nat
    decreases cells.len(),
{
    if cells.len() == 0 {
        0
    } else {
        count_white(cells.drop_last()) + (if cells.last() == Cell::White {
            1nat
        } else {
            0nat
        })
    }
}

/// The number of black cells in a sequence.
pub open spec fn count_black(cells: Seq<Cell>) -> nat
    decreases cells.len(),
{
    if cells.len() == 0 {
        0
    } else {
        count_black(cells.drop_last()) + (if cells.last() == Cell::Black {
            1nat
        } else {
            0nat
        })
    }
}

/// Toggling a cell twice restores the original color, for every color.
pub proof fn lemma_toggle_involution(c: Cell)
    ensures
        c.spec_toggle().spec_toggle() == c,
{
}

/// Every cell is either white or black, so the two counts together always
/// equal the length of the sequence.
pub proof fn lemma_count_total(cells: Seq<Cell>)
    ensures
        count_white(cells) + count_black(cells) == cells.len(),
    decreases cells.len(),
{
    if cells.len() > 0 {
        lemma_count_total(cells.drop_last());
    }
}

} // verus!
