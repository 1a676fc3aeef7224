//! Integer coordinates on the city grid.

use vstd::prelude::*;
use vstd::std_specs::ops::{AddSpecImpl, SubSpecImpl};

verus! {

/// A pair of non-negative coordinates. The same type serves as an absolute
/// grid position and as a relative offset.
#[derive(Clone, Copy, PartialEq, Eq, Debug, Structural)]
pub struct Position {
    pub x: u32,
    pub y: u32,
}

/// An offset from one position to another.
pub type Direction = Position;

impl Position {
    /// Whether the componentwise sum with `rhs` fits the coordinate type.
    pub open spec fn can_add(self, rhs: Position) -> bool {
        self.x + rhs.x <= u32::MAX && self.y + rhs.y <= u32::MAX
    }

    /// Whether `rhs` can be taken away componentwise without going below zero.
    pub open spec fn can_sub(self, rhs: Position) -> bool {
        rhs.x <= self.x && rhs.y <= self.y
    }

    /// The componentwise sum.
    pub open spec fn plus(self, rhs: Position) -> Position {
        Position { x: (self.x + rhs.x) as u32, y: (self.y + rhs.y) as u32 }
    }

    /// The componentwise difference.
    pub open spec fn minus(self, rhs: Position) -> Position {
        Position { x: (self.x - rhs.x) as u32, y: (self.y - rhs.y) as u32 }
    }
}

impl core::ops::Add<Position> for Position {
    type Output = Position;

    fn add(self, rhs: Position) -> (sum: Position) {
        Position { x: self.x + rhs.x, y: self.y + rhs.y }
    }
}

impl AddSpecImpl<Position> for Position {
    open spec fn obeys_add_spec() -> bool {
        true
    }

    open spec fn add_req(self, rhs: Position) -> bool {
        self.can_add(rhs)
    }

    open spec fn add_spec(self, rhs: Position) -> Position {
        self.plus(rhs)
    }
}

impl core::ops::Sub<Position> for Position {
    type Output = Position;

    fn sub(self, rhs: Position) -> (difference: Position) {
        Position { x: self.x - rhs.x, y: self.y - rhs.y }
    }
}

impl SubSpecImpl<Position> for Position {
    open spec fn obeys_sub_spec() -> bool {
        true
    }

    open spec fn sub_req(self, rhs: Position) -> bool {
        self.can_sub(rhs)
    }

    open spec fn sub_spec(self, rhs: Position) -> Position {
        self.minus(rhs)
    }
}

} // verus!
