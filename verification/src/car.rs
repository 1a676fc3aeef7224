//! The cars that drive through a city.

use vstd::prelude::*;
use crate::position::{Direction, Position};
use crate::target::TargetType;

verus! {

/// How far a car has come in its search for a parking spot.
#[derive(Clone, Copy, PartialEq, Eq, Debug, Structural)]
pub enum ParkingType {
    Searching,
    Circling(Position, u32),
    Found(Position),
}

/// What a car is doing.
#[derive(Clone, Copy, PartialEq, Eq, Debug, Structural)]
pub enum CarState {
    Idle,
    Moving,
    Parking(ParkingType),
    Parked,
}

/// A car: where it is, which way it is heading, where it wants to go and
/// what it is doing.
#[derive(Clone, Copy, PartialEq, Eq, Debug, Structural)]
pub struct Car {
    pub id: u32,
    pub p: Position,
    pub dir: Direction,
    pub target: TargetType,
    pub state: CarState,
}

impl Car {
    /// A car with the given fields.
    pub fn new(id: u32, p: Position, dir: Direction, target: TargetType, state: CarState) -> (car:
        Car)
        ensures
            car == (Car { id, p, dir, target, state }),
    {
        Car { id, p, dir, target, state }
    }
}

} // verus!
