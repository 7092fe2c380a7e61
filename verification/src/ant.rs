use crate::direction::Direction;
use vstd::prelude::*;

verus! {

/// The row after one forward move: Up decreases the row, Down increases it.
pub open spec fn forward_row(row: int, d: Direction) -> int {
    match d {
        Direction::Up => row - 1,
        Direction::Down => row + 1,
        _ => row,
    }
}

/// The column after one forward move: Right increases the column, Left
/// decreases it.
pub open spec fn forward_col(col: int, d: Direction) -> int {
    match d {
        Direction::Right => col + 1,
        Direction::Left => col - 1,
        _ => col,
    }
}

/// The mobile agent: a grid position (x = row, y = column) and a heading.
/// The agent itself performs no bounds checking; the grid that owns it keeps
/// it in range.
#[derive(Clone, Copy, Debug, PartialEq, Eq, Structural)]
pub struct Ant {
    pub x: u32,
    pub y: u32,
    pub direction: Direction,
}

impl Ant {
    /// A fresh agent at row x, column y, heading Up.
    pub fn new(x: u32, y: u32) -> (r: Ant)
        ensures
            r.x == x,
            r.y == y,
            r.direction == Direction::Up,
    {
        Ant { x, y, direction: Direction::Up }
    }

    /// Turns the heading one quarter clockwise; the position is unchanged.
    pub fn rotate_right(&mut self)
        ensures
            final(self).direction == old(self).direction.spec_rotate_right(),
            final(self).x == old(self).x,
            final(self).y == old(self).y,
    {
        self.direction = self.direction.rotate_right();
    }

    /// Turns the heading one quarter counterclockwise; the position is
    /// unchanged.
    pub fn rotate_left(&mut self)
        ensures
            final(self).direction == old(self).direction.spec_rotate_left(),
            final(self).x == old(self).x,
            final(self).y == old(self).y,
    {
        self.direction = self.direction.rotate_left();
    }

    /// Moves one unit in the current heading: Up decreases x, Down increases
    /// x, Right increases y, Left decreases y. The caller keeps the new
    /// coordinates representable.
    pub fn move_forward(&mut self)
        requires
            old(self).direction == Direction::Up ==> old(self).x > 0,
            old(self).direction == Direction::Left ==> old(self).y > 0,
            old(self).direction == Direction::Down ==> old(self).x < u32::MAX,
            old(self).direction == Direction::Right ==> old(self).y < u32::MAX,
        ensures
            final(self).x == forward_row(old(self).x as int, old(self).direction),
            final(self).y == forward_col(old(self).y as int, old(self).direction),
            final(self).direction == old(self).direction,
    {
        match self.direction {
            Direction::Up => self.x = self.x - 1,
            Direction::Right => self.y = self.y + 1,
            Direction::Down => self.x = self.x + 1,
            Direction::Left => self.y = self.y - 1,
        }
    }
}

} // verus!
