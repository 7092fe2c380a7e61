use crate::ant::forward_col;
use crate::ant::forward_row;
use crate::cell::count_black;
use crate::cell::count_white;
use crate::cell::lemma_count_total;
use crate::cell::Cell;
use crate::direction::Direction;
use vstd::prelude::*;

verus! {

/// The mathematical model of a whole simulation: the dimensions, the flat
/// row-major cell sequence, and the agent's position and heading. Every
/// contract of the executable grid speaks of this model.
#[verifier::ext_equal]
pub struct SimState {
    pub width: int,
    pub height: int,
    pub cells: Seq<Cell>,
    pub ant_x: int,
    pub ant_y: int,
    pub ant_dir: Direction,
}

impl SimState {
    /// The structural invariant: the cell sequence holds exactly
    /// width * height entries, and the dimensions and coordinates fit the
    /// machine integers that carry them.
    pub open spec fn wf(self) -> bool {
        &&& 0 <= self.width <= u32::MAX
        &&& 0 <= self.height <= u32::MAX
        &&& self.width * self.height <= u32::MAX
        &&& self.cells.len() == self.width * self.height
        &&& 0 <= self.ant_x <= u32::MAX
        &&& 0 <= self.ant_y <= u32::MAX
    }

    /// The row-major linear index of position (row, col).
    pub open spec fn index_of(self, row: int, col: int) -> int {
        row * self.width + col
    }

    /// Whether (row, col) lies on the grid.
    pub open spec fn pos_in_bounds(self, row: int, col: int) -> bool {
        0 <= row < self.height && 0 <= col < self.width
    }

    /// The row-major linear index of the cell under the agent.
    pub open spec fn ant_idx(self) -> int {
        self.index_of(self.ant_x, self.ant_y)
    }

    /// Whether the agent stands on the grid.
    pub open spec fn ant_in_bounds(self) -> bool {
        self.pos_in_bounds(self.ant_x, self.ant_y)
    }

    /// The heading after the turn decision: one quarter right on a white
    /// cell, one quarter left on a black cell.
    pub open spec fn turned(self) -> Direction {
        if self.cells[self.ant_idx()] == Cell::White {
            self.ant_dir.spec_rotate_right()
        } else {
            self.ant_dir.spec_rotate_left()
        }
    }

    /// A step is possible when the agent stands on the grid and the move
    /// after the turn does not take a zero coordinate below zero.
    pub open spec fn can_step(self) -> bool {
        &&& self.ant_in_bounds()
        &&& (self.turned() == Direction::Up ==> self.ant_x > 0)
        &&& (self.turned() == Direction::Left ==> self.ant_y > 0)
    }

    /// One transition of the automaton: turn by the color under the agent,
    /// toggle that cell, then move one unit in the new heading. Meaningful
    /// on states where can_step holds.
    pub open spec fn step(self) -> SimState {
        SimState {
            cells: self.cells.update(self.ant_idx(), self.cells[self.ant_idx()].spec_toggle()),
            ant_x: forward_row(self.ant_x, self.turned()),
            ant_y: forward_col(self.ant_y, self.turned()),
            ant_dir: self.turned(),
            ..self
        }
    }

    /// The state after toggling the cell at (row, col), everything else
    /// unchanged. Meaningful when (row, col) lies on the grid.
    pub open spec fn with_toggled(self, row: int, col: int) -> SimState {
        SimState {
            cells: self.cells.update(
                self.index_of(row, col),
                self.cells[self.index_of(row, col)].spec_toggle(),
            ),
            ..self
        }
    }
}

/// The state after n transitions; a run halts, keeping its state, at the
/// first state from which no step is possible.
pub open spec fn run(s: SimState, n: nat) -> SimState
    decreases n,
{
    if n == 0 {
        s
    } else if s.can_step() {
        run(s.step(), (n - 1) as nat)
    } else {
        s
    }
}

/// An agent that stands on the grid stands over a cell of the sequence.
pub proof fn lemma_ant_idx_in_range(s: SimState)
    requires
        s.wf(),
        s.ant_in_bounds(),
    ensures
        0 <= s.ant_idx() < s.cells.len(),
{
    assert(s.ant_x * s.width + s.ant_y < s.width * s.height) by (nonlinear_arith)
        requires
            0 <= s.ant_x,
            0 <= s.ant_y,
            0 <= s.width,
            s.ant_x < s.height,
            s.ant_y < s.width,
    ;
}

/// One possible step keeps the invariant and the dimensions.
proof fn lemma_step_preserves_wf(s: SimState)
    requires
        s.wf(),
        s.can_step(),
    ensures
        s.step().wf(),
        s.step().width == s.width,
        s.step().height == s.height,
{
    lemma_ant_idx_in_range(s);
}

/// Determinism: from equal initial states, any number of transitions
/// reaches equal states.
pub proof fn lemma_determinism(s1: SimState, s2: SimState, n: nat)
    requires
        s1 == s2,
    ensures
        run(s1, n) == run(s2, n),
{
}

/// Cell-count conservation: after any number of transitions from a
/// well-formed state, the number of white cells and the number of black
/// cells together equal width * height.
pub proof fn lemma_count_conservation(s: SimState, n: nat)
    requires
        s.wf(),
    ensures
        run(s, n).wf(),
        run(s, n).width == s.width,
        run(s, n).height == s.height,
        count_white(run(s, n).cells) + count_black(run(s, n).cells) == s.width * s.height,
    decreases n,
{
    if n > 0 && s.can_step() {
        lemma_step_preserves_wf(s);
        lemma_count_conservation(s.step(), (n - 1) as nat);
    } else {
        lemma_count_total(s.cells);
    }
}

} // verus!
