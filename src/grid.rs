use vstd::prelude::*;

verus! {

/// An integer cell address in a level's tile grid.
#[derive(Clone, Copy, Debug, PartialEq, Eq, Structural, Hash)]
pub struct GridCoordinate {
    pub x: i32,
    pub y: i32,
}

/// A direction of movement on the grid.
#[derive(Clone, Copy, Debug, PartialEq, Eq, Structural, Hash)]
pub enum Facing {
    Up,
    Down,
    Left,
    Right,
}

impl GridCoordinate {
    /// The cell as a pair of mathematical integers.
    pub open spec fn cell(self) -> (int, int) {
        (self.x as int, self.y as int)
    }
}

impl Facing {
    /// Horizontal component of the unit step in this direction.
    pub open spec fn dx(self) -> int {
        match self {
            Facing::Left => -1,
            Facing::Right => 1,
            _ => 0,
        }
    }

    /// Vertical component of the unit step in this direction.
    pub open spec fn dy(self) -> int {
        match self {
            Facing::Up => 1,
            Facing::Down => -1,
            _ => 0,
        }
    }

    /// `+1` for Up and Right, `-1` for Down and Left.
    pub open spec fn spec_sense(self) -> int {
        match self {
            Facing::Up | Facing::Right => 1,
            Facing::Down | Facing::Left => -1,
        }
    }

    /// The unit step in this direction, `(dx, dy)`.
    pub fn offset(self) -> (r: (i32, i32))
        ensures
            r.0 == self.dx(),
            r.1 == self.dy(),
    {
        match self {
            Facing::Up => (0, 1),
            Facing::Down => (0, -1),
            Facing::Left => (-1, 0),
            Facing::Right => (1, 0),
        }
    }

    pub fn sense(self) -> (r: i32)
        ensures
            r == self.spec_sense(),
    {
        match self {
            Facing::Up | Facing::Right => 1,
            Facing::Down | Facing::Left => -1,
        }
    }
}

/// Multiplying by the sense keeps or negates a value.
pub proof fn lemma_sense_scales(f: Facing, d: int)
    ensures
        f.spec_sense() * d == if f.spec_sense() > 0 {
            d
        } else {
            -d
        },
{
}

/// The cell reached from `p` by one unit step towards `f`, as integers.
pub open spec fn target(p: GridCoordinate, f: Facing) -> (int, int) {
    (p.x + f.dx(), p.y + f.dy())
}

} // verus!
