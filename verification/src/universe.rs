use crate::ant::Ant;
use crate::cell::Cell;
use crate::direction::Direction;
use crate::state::SimState;
use vstd::prelude::*;

verus! {

/// The display glyph of one cell: a white square for White, a black square
/// for Black.
pub open spec fn glyph(c: Cell) -> char {
    if c == Cell::White {
        '\u{25fb}'
    } else {
        '\u{25fc}'
    }
}

/// One rendered row: width glyphs followed by a newline.
pub open spec fn row_chars(cells: Seq<Cell>, width: int, row: int) -> Seq<char> {
    Seq::new(width as nat, |j: int| glyph(cells[row * width + j])).push('\n')
}

/// The rendered grid: rows top to bottom, each terminated by a newline.
pub open spec fn grid_chars(cells: Seq<Cell>, width: int, rows: int) -> Seq<char>
    decreases rows,
{
    if rows <= 0 {
        Seq::empty()
    } else {
        grid_chars(cells, width, rows - 1) + row_chars(cells, width, rows - 1)
    }
}

/// Failures reported by the grid's externally reachable entry points.
#[derive(Clone, Copy, Debug, PartialEq, Eq, Structural)]
pub enum SimError {
    /// A caller-supplied (row, column) lies outside the grid.
    IndexOutOfBounds,
    /// The agent stands off the grid, or its move would take a zero
    /// coordinate below zero.
    AgentOutOfBounds,
}

/// The simulation instance: fixed dimensions, the row-major cell array, and
/// the single agent. The grid owns its storage outright; callers read and
/// mutate cells only through the accessors.
pub struct Universe {
    width: u32,
    height: u32,
    cells: Vec<Cell>,
    ant: Ant,
}

impl View for Universe {
    type V = SimState;

    closed spec fn view(&self) -> SimState {
        SimState {
            width: self.width as int,
            height: self.height as int,
            cells: self.cells@,
            ant_x: self.ant.x as int,
            ant_y: self.ant.y as int,
            ant_dir: self.ant.direction,
        }
    }
}

impl Universe {
    /// The row-major linear index of (row, column).
    fn get_index(&self, row: u32, column: u32) -> (r: usize)
        requires
            self@.wf(),
            row < self@.height,
            column < self@.width,
        ensures
            r == self@.index_of(row as int, column as int),
            r < self@.cells.len(),
    {
        proof {
            let w = self.width as int;
            let h = self.height as int;
            let ri = row as int;
            let ci = column as int;
            assert(ri * w + ci < w * h) by (nonlinear_arith)
                requires
                    0 <= ri,
                    0 <= ci,
                    0 <= w,
                    ri < h,
                    ci < w,
            ;
        }
        (row * self.width + column) as usize
    }

    /// A fresh grid of the given dimensions: every cell white, the agent at
    /// (height / 2, width / 2) heading Up.
    pub fn new_with_size(width: u32, height: u32) -> (r: Universe)
        requires
            1 <= width,
            1 <= height,
            width * height <= u32::MAX,
        ensures
            r@.wf(),
            r@.width == width,
            r@.height == height,
            r@.cells == Seq::new((width * height) as nat, |i: int| Cell::White),
            r@.ant_x == height as int / 2,
            r@.ant_y == width as int / 2,
            r@.ant_dir == Direction::Up,
    {
        let n = width * height;
        let mut cells: Vec<Cell> = Vec::new();
        let mut i: u32 = 0;
        while i < n
            invariant
                i <= n,
                cells@.len() == i as int,
                forall|j: int| 0 <= j < i as int ==> cells@[j] == Cell::White,
            decreases n - i,
        {
            cells.push(Cell::White);
            i = i + 1;
        }
        let ant = Ant::new(height / 2, width / 2);
        let r = Universe { width, height, cells, ant };
        proof {
            assert(r@.cells =~= Seq::new((width * height) as nat, |i: int| Cell::White));
        }
        r
    }

    /// The default simulation: a 17 x 17 all-white grid with the agent
    /// centered at (8, 8), heading Up.
    pub fn new() -> (r: Universe)
        ensures
            r@.wf(),
            r@.width == 17,
            r@.height == 17,
            r@.cells == Seq::new(289, |i: int| Cell::White),
            r@.ant_x == 8,
            r@.ant_y == 8,
            r@.ant_dir == Direction::Up,
    {
        let r = Universe::new_with_size(17, 17);
        proof {
            assert(r@.cells =~= Seq::new(289, |i: int| Cell::White));
        }
        r
    }

    /// One transition of the automaton: read the cell under the agent, turn
    /// right on white and left on black, toggle that cell, then move the
    /// agent one unit in the new heading. Fails, leaving the state
    /// unchanged, when the agent stands off the grid or the move would take
    /// a zero coordinate below zero.
    pub fn tick(&mut self) -> (r: Result<(), SimError>)
        requires
            old(self)@.wf(),
        ensures
            final(self)@.wf(),
            r is Ok <==> old(self)@.can_step(),
            old(self)@.can_step() ==> final(self)@ == old(self)@.step(),
            !old(self)@.can_step() ==> final(self)@ == old(self)@ && r == Err::<(), SimError>(
                SimError::AgentOutOfBounds,
            ),
    {
        if !(self.ant.x < self.height && self.ant.y < self.width) {
            return Err(SimError::AgentOutOfBounds);
        }
        let idx = self.get_index(self.ant.x, self.ant.y);
        let c = self.cells[idx];
        let d = if c == Cell::White {
            self.ant.direction.rotate_right()
        } else {
            self.ant.direction.rotate_left()
        };
        if (d == Direction::Up && self.ant.x == 0) || (d == Direction::Left && self.ant.y == 0) {
            return Err(SimError::AgentOutOfBounds);
        }
        self.ant.direction = d;
        let mut cell = c;
        cell.toggle();
        self.cells.set(idx, cell);
        self.ant.move_forward();
        proof {
            assert(self@ =~= old(self)@.step());
        }
        Ok(())
    }

    /// The color at (row, column); IndexOutOfBounds when the position lies
    /// outside the grid.
    pub fn read_cell(&self, row: u32, column: u32) -> (r: Result<Cell, SimError>)
        requires
            self@.wf(),
        ensures
            self@.pos_in_bounds(row as int, column as int) ==> r == Ok::<Cell, SimError>(
                self@.cells[self@.index_of(row as int, column as int)],
            ),
            !self@.pos_in_bounds(row as int, column as int) ==> r == Err::<Cell, SimError>(
                SimError::IndexOutOfBounds,
            ),
    {
        if row < self.height && column < self.width {
            let idx = self.get_index(row, column);
            Ok(self.cells[idx])
        } else {
            Err(SimError::IndexOutOfBounds)
        }
    }

    /// Toggles the color at (row, column) directly, independent of the
    /// agent, leaving the agent and every other cell unchanged;
    /// IndexOutOfBounds when the position lies outside the grid.
    pub fn toggle_cell(&mut self, row: u32, column: u32) -> (r: Result<(), SimError>)
        requires
            old(self)@.wf(),
        ensures
            final(self)@.wf(),
            old(self)@.pos_in_bounds(row as int, column as int) ==> r == Ok::<(), SimError>(())
                && final(self)@ == old(self)@.with_toggled(row as int, column as int),
            !old(self)@.pos_in_bounds(row as int, column as int) ==> r == Err::<(), SimError>(
                SimError::IndexOutOfBounds,
            ) && final(self)@ == old(self)@,
    {
        if row < self.height && column < self.width {
            let idx = self.get_index(row, column);
            let mut cell = self.cells[idx];
            cell.toggle();
            self.cells.set(idx, cell);
            proof {
                assert(self@ =~= old(self)@.with_toggled(row as int, column as int));
            }
            Ok(())
        } else {
            Err(SimError::IndexOutOfBounds)
        }
    }

    /// A textual snapshot of the grid: one glyph per cell, rows top to
    /// bottom, each row terminated by a newline. A read-only projection; the
    /// state is unchanged.
    pub fn render(&self) -> (r: String)
        requires
            self@.wf(),
        ensures
            r@ == grid_chars(self@.cells, self@.width, self@.height),
    {
        let mut s = String::new();
        let mut row: u32 = 0;
        while row < self.height
            invariant
                self@.wf(),
                row <= self@.height,
                s@ == grid_chars(self@.cells, self@.width, row as int),
            decreases self@.height - row,
        {
            let mut col: u32 = 0;
            while col < self.width
                invariant
                    self@.wf(),
                    row < self@.height,
                    col <= self@.width,
                    s@ == grid_chars(self@.cells, self@.width, row as int) + Seq::new(
                        col as nat,
                        |j: int| glyph(self@.cells[row as int * self@.width + j]),
                    ),
                decreases self@.width - col,
            {
                let idx = self.get_index(row, col);
                let g: &str = if self.cells[idx] == Cell::White {
                    "\u{25fb}"
                } else {
                    "\u{25fc}"
                };
                s.append(g);
                proof {
                    reveal_strlit("\u{25fb}");
                    reveal_strlit("\u{25fc}");
                    assert(s@ =~= grid_chars(self@.cells, self@.width, row as int) + Seq::new(
                        (col + 1) as nat,
                        |j: int| glyph(self@.cells[row as int * self@.width + j]),
                    ));
                }
                col = col + 1;
            }
            s.append("\n");
            proof {
                reveal_strlit("\n");
                assert(s@ =~= grid_chars(self@.cells, self@.width, row as int + 1));
            }
            row = row + 1;
        }
        s
    }

    /// The grid's width in cells.
    pub fn width(&self) -> (r: u32)
        ensures
            r as int == self@.width,
    {
        self.width
    }

    /// The grid's height in cells.
    pub fn height(&self) -> (r: u32)
        ensures
            r as int == self@.height,
    {
        self.height
    }

    /// A read-only view of the whole cell array, row-major.
    pub fn cells(&self) -> (r: &Vec<Cell>)
        ensures
            r@ == self@.cells,
    {
        &self.cells
    }

    /// A snapshot of the agent's current position and heading.
    pub fn ant(&self) -> (r: Ant)
        ensures
            r.x as int == self@.ant_x,
            r.y as int == self@.ant_y,
            r.direction == self@.ant_dir,
    {
        self.ant
    }
}

} // verus!
