//! The kinds of tile a grid cell can hold.

use vstd::prelude::*;

verus! {

/// The direction of travel on a one-way road segment.
#[derive(Clone, Copy, PartialEq, Eq, Debug, Structural)]
pub enum OneWayRoadType {
    Up,
    Left,
    Bottom,
    Right,
}

/// The two directions that meet where perpendicular one-way lanes cross.
#[derive(Clone, Copy, PartialEq, Eq, Debug, Structural)]
pub enum TwoWayRoadType {
    UpLeft,
    UpRight,
    DownLeft,
    DownRight,
}

/// A road segment.
#[derive(Clone, Copy, PartialEq, Eq, Debug, Structural)]
pub enum RoadType {
    OneWay(OneWayRoadType),
    TwoWay(TwoWayRoadType),
}

/// Whether a parking spot is taken.
#[derive(Clone, Copy, PartialEq, Eq, Debug, Structural)]
pub enum ParkType {
    Free,
    Full,
}

/// The state of a traffic light.
#[derive(Clone, Copy, PartialEq, Eq, Debug, Structural)]
pub enum LightCond {
    Green,
    Red,
}

/// What stands on one cell of the grid.
///
/// `Unknown` marks a combination of road directions that no city layout
/// produces; it never appears in a generated grid.
#[derive(Clone, Copy, PartialEq, Eq, Debug, Structural)]
pub enum Tile {
    Building,
    Park(ParkType),
    Light(LightCond),
    Road(RoadType),
    Unknown,
}

} // verus!
