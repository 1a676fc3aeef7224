//! Places a car can be heading for.

use vstd::prelude::*;
use crate::position::Position;

verus! {

/// A position together with what is found there.
#[derive(Clone, Copy, PartialEq, Eq, Debug, Structural)]
pub enum TargetType {
    Building(Position),
    Exit(Position),
    JustPosition(Position),
}

} // verus!
