//! The eight compass directions and their unit vectors.
use vstd::prelude::*;

verus! {

/// One of the eight compass directions. `Top` points towards smaller y,
/// `Right` towards larger x.
#[derive(Debug, Clone, Copy, PartialEq, Eq, Structural, Hash)]
pub enum Direction {
    Top,
    TopRight,
    Right,
    BottomRight,
    Bottom,
    BottomLeft,
    Left,
    TopLeft,
}

impl Direction {
    /// The x component of the direction's unit vector.
    pub open spec fn dx(self) -> int {
        match self {
            Direction::Top | Direction::Bottom => 0,
            Direction::TopRight | Direction::Right | Direction::BottomRight => 1,
            Direction::BottomLeft | Direction::Left | Direction::TopLeft => -1,
        }
    }

    /// The y component of the direction's unit vector.
    pub open spec fn dy(self) -> int {
        match self {
            Direction::Left | Direction::Right => 0,
            Direction::BottomRight | Direction::Bottom | Direction::BottomLeft => 1,
            Direction::TopLeft | Direction::Top | Direction::TopRight => -1,
        }
    }

    /// The geometrically opposite direction.
    pub open spec fn opposite(self) -> Direction {
        match self {
            Direction::Top => Direction::Bottom,
            Direction::TopRight => Direction::BottomLeft,
            Direction::Right => Direction::Left,
            Direction::BottomRight => Direction::TopLeft,
            Direction::Bottom => Direction::Top,
            Direction::BottomLeft => Direction::TopRight,
            Direction::Left => Direction::Right,
            Direction::TopLeft => Direction::BottomRight,
        }
    }

    /// The unit vector `(dx, dy)` of the direction.
    pub fn to_vector(self) -> (r: (i32, i32))
        ensures
            r.0 == self.dx(),
            r.1 == self.dy(),
    {
        match self {
            Direction::Top => (0, -1),
            Direction::TopRight => (1, -1),
            Direction::Right => (1, 0),
            Direction::BottomRight => (1, 1),
            Direction::Bottom => (0, 1),
            Direction::BottomLeft => (-1, 1),
            Direction::Left => (-1, 0),
            Direction::TopLeft => (-1, -1),
        }
    }

    /// Negating a direction's unit vector gives the opposite direction's
    /// vector; negating twice gives the direction back.
    pub proof fn lemma_opposite(self)
        ensures
            self.opposite().dx() == -self.dx(),
            self.opposite().dy() == -self.dy(),
            self.opposite().opposite() == self,
            self.dx() != 0 || self.dy() != 0,
    {
    }
}

impl std::ops::Neg for Direction {
    type Output = Direction;

    fn neg(self) -> (r: Direction)
        ensures
            r == self.opposite(),
    {
        match self {
            Direction::Top => Direction::Bottom,
            Direction::TopRight => Direction::BottomLeft,
            Direction::Right => Direction::Left,
            Direction::BottomRight => Direction::TopLeft,
            Direction::Bottom => Direction::Top,
            Direction::BottomLeft => Direction::TopRight,
            Direction::Left => Direction::Right,
            Direction::TopLeft => Direction::BottomRight,
        }
    }
}

impl vstd::std_specs::ops::NegSpecImpl for Direction {
    open spec fn obeys_neg_spec() -> bool {
        true
    }

    open spec fn neg_req(self) -> bool {
        true
    }

    open spec fn neg_spec(self) -> Direction {
        self.opposite()
    }
}

impl std::convert::From<Direction> for (i32, i32) {
    fn from(direction: Direction) -> (r: (i32, i32)) {
        direction.to_vector()
    }
}

impl vstd::std_specs::convert::FromSpecImpl<Direction> for (i32, i32) {
    open spec fn obeys_from_spec() -> bool {
        true
    }

    open spec fn from_spec(direction: Direction) -> (i32, i32) {
        (direction.dx() as i32, direction.dy() as i32)
    }
}

} // verus!
