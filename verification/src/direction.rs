use vstd::prelude::*;

verus! {

/// Compass heading of the agent, ordered cyclically Up, Right, Down, Left.
#[derive(Clone, Copy, Debug, PartialEq, Eq, Structural)]
pub enum Direction {
    Up,
    Right,
    Down,
    Left,
}

impl Direction {
    /// The cyclic successor: Up -> Right -> Down -> Left -> Up.
    pub open spec fn spec_rotate_right(self) -> Direction {
        match self {
            Direction::Up => Direction::Right,
            Direction::Right => Direction::Down,
            Direction::Down => Direction::Left,
            Direction::Left => Direction::Up,
        }
    }

    /// The cyclic predecessor: Up -> Left -> Down -> Right -> Up.
    pub open spec fn spec_rotate_left(self) -> Direction {
        match self {
            Direction::Up => Direction::Left,
            Direction::Right => Direction::Up,
            Direction::Down => Direction::Right,
            Direction::Left => Direction::Down,
        }
    }

    /// Turns one quarter clockwise.
    pub fn rotate_right(self) -> (r: Direction)
        ensures
            r == self.spec_rotate_right(),
    {
        match self {
            Direction::Up => Direction::Right,
            Direction::Right => Direction::Down,
            Direction::Down => Direction::Left,
            Direction::Left => Direction::Up,
        }
    }

    /// Turns one quarter counterclockwise.
    pub fn rotate_left(self) -> (r: Direction)
        ensures
            r == self.spec_rotate_left(),
    {
        match self {
            Direction::Up => Direction::Left,
            Direction::Right => Direction::Up,
            Direction::Down => Direction::Right,
            Direction::Left => Direction::Down,
        }
    }

    /// The stable integer tag that crosses the external interface:
    /// Up = 0, Right = 1, Down = 2, Left = 3.
    pub open spec fn spec_tag(self) -> u32 {
        match self {
            Direction::Up => 0u32,
            Direction::Right => 1u32,
            Direction::Down => 2u32,
            Direction::Left => 3u32,
        }
    }

    /// Encodes the heading as its small-integer tag.
    pub fn tag(self) -> (r: u32)
        ensures
            r == self.spec_tag(),
    {
        match self {
            Direction::Up => 0,
            Direction::Right => 1,
            Direction::Down => 2,
            Direction::Left => 3,
        }
    }

    /// The capitalized English name of the heading, for diagnostics only.
    pub fn name(self) -> (r: &'static str)
        ensures
            self == Direction::Up ==> r@ == "Up"@,
            self == Direction::Right ==> r@ == "Right"@,
            self == Direction::Down ==> r@ == "Down"@,
            self == Direction::Left ==> r@ == "Left"@,
    {
        match self {
            Direction::Up => "Up",
            Direction::Right => "Right",
            Direction::Down => "Down",
            Direction::Left => "Left",
        }
    }
}

/// Rotating right and then left restores the heading, and so does
/// rotating left and then right, for every heading.
pub proof fn lemma_rotation_inverses(d: Direction)
    ensures
        d.spec_rotate_right().spec_rotate_left() == d,
        d.spec_rotate_left().spec_rotate_right() == d,
{
}

} // verus!
