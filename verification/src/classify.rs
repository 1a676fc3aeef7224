//! Which tile stands on a grid cell.
//!
//! A city repeats one pattern along each axis: a block of buildings, a park
//! strip, two opposite road lanes and another park strip. The position of a
//! coordinate within that pattern gives an intent for its axis, and the two
//! intents of a cell are merged into its tile.

use vstd::prelude::*;
use crate::city::City;
use crate::layout::{block_period, CityError, CityType};
use crate::tile::{LightCond, OneWayRoadType, ParkType, RoadType, Tile, TwoWayRoadType};

verus! {

/// Where `coord` falls within the repeating pattern, counted from the end of
/// the block: negative inside the block, 0 to 3 on the strips behind it.
pub open spec fn residue(b_size: int, coord: int) -> int {
    coord % block_period(b_size) - b_size
}

/// What the column of a cell asks for.
pub open spec fn x_intent(r: int) -> Tile {
    if r == 0 || r == 3 {
        Tile::Park(ParkType::Free)
    } else if r == 1 {
        Tile::Road(RoadType::OneWay(OneWayRoadType::Bottom))
    } else if r == 2 {
        Tile::Road(RoadType::OneWay(OneWayRoadType::Up))
    } else {
        Tile::Building
    }
}

/// What the row of a cell asks for.
pub open spec fn y_intent(r: int) -> Tile {
    if r == 0 || r == 3 {
        Tile::Park(ParkType::Free)
    } else if r == 1 {
        Tile::Road(RoadType::OneWay(OneWayRoadType::Left))
    } else if r == 2 {
        Tile::Road(RoadType::OneWay(OneWayRoadType::Right))
    } else {
        Tile::Building
    }
}

/// The two-way road where the lane `x` of a column crosses the lane `y` of a
/// row, if these two lanes can cross.
pub open spec fn crossing(x: RoadType, y: RoadType) -> Option<TwoWayRoadType> {
    match (y, x) {
        (RoadType::OneWay(OneWayRoadType::Right), RoadType::OneWay(OneWayRoadType::Up)) => Some(
            TwoWayRoadType::UpRight,
        ),
        (RoadType::OneWay(OneWayRoadType::Left), RoadType::OneWay(OneWayRoadType::Up)) => Some(
            TwoWayRoadType::UpLeft,
        ),
        (RoadType::OneWay(OneWayRoadType::Right), RoadType::OneWay(OneWayRoadType::Bottom)) => Some(
            TwoWayRoadType::DownRight,
        ),
        (RoadType::OneWay(OneWayRoadType::Left), RoadType::OneWay(OneWayRoadType::Bottom)) => Some(
            TwoWayRoadType::DownLeft,
        ),
        _ => None,
    }
}

/// The tile that results from the intent of the column, `x`, and the intent
/// of the row, `y`. A road wins over parks and buildings, two parks make a
/// traffic light, and two roads merge where they can cross.
pub open spec fn merged(x: Tile, y: Tile) -> Tile {
    match (x, y) {
        (Tile::Park(_), Tile::Park(_)) => Tile::Light(LightCond::Green),
        (Tile::Park(_), Tile::Building) => Tile::Park(ParkType::Free),
        (Tile::Park(_), Tile::Road(r)) => Tile::Road(r),
        (Tile::Building, Tile::Building) => Tile::Building,
        (Tile::Building, Tile::Park(_)) => Tile::Park(ParkType::Free),
        (Tile::Building, Tile::Road(r)) => Tile::Road(r),
        (Tile::Road(r), Tile::Building) => Tile::Road(r),
        (Tile::Road(r), Tile::Park(_)) => Tile::Road(r),
        (Tile::Road(rx), Tile::Road(ry)) => match crossing(rx, ry) {
            Some(two_way) => Tile::Road(RoadType::TwoWay(two_way)),
            None => Tile::Unknown,
        },
        _ => Tile::Unknown,
    }
}

/// The tile on row `i`, column `j` of a `Default` city with blocks of side
/// `b_size`. The column decides between the lanes that run down and up, the
/// row between those that run left and right.
pub open spec fn tile_at(b_size: int, i: int, j: int) -> Tile {
    merged(x_intent(residue(b_size, j)), y_intent(residue(b_size, i)))
}

/// The tile on row `i`, column `j` of a city, where its type has a pattern.
pub open spec fn classified(city_type: CityType, b_size: int, i: int, j: int) -> Result<
    Tile,
    CityError,
> {
    match city_type {
        CityType::Default => Ok(tile_at(b_size, i, j)),
        _ => Err(CityError::UnsupportedVariant),
    }
}

impl Tile {
    /// The intent of a column whose coordinate has residue `r`.
    pub fn from_x_residue(r: i64) -> (t: Tile)
        ensures
            t == x_intent(r as int),
    {
        if r == 0 || r == 3 {
            Tile::Park(ParkType::Free)
        } else if r == 1 {
            Tile::Road(RoadType::OneWay(OneWayRoadType::Bottom))
        } else if r == 2 {
            Tile::Road(RoadType::OneWay(OneWayRoadType::Up))
        } else {
            Tile::Building
        }
    }

    /// The intent of a row whose coordinate has residue `r`.
    pub fn from_y_residue(r: i64) -> (t: Tile)
        ensures
            t == y_intent(r as int),
    {
        if r == 0 || r == 3 {
            Tile::Park(ParkType::Free)
        } else if r == 1 {
            Tile::Road(RoadType::OneWay(OneWayRoadType::Left))
        } else if r == 2 {
            Tile::Road(RoadType::OneWay(OneWayRoadType::Right))
        } else {
            Tile::Building
        }
    }

    /// Merges the intent of a column, `x`, with the intent of a row, `y`.
    ///
    /// The result is `Unknown` exactly where one of the two is a light or
    /// `Unknown` itself, or where both are roads that cannot cross.
    pub fn combine(x: Tile, y: Tile) -> (t: Tile)
        ensures
            t == merged(x, y),
    {
        match x {
            Tile::Park(_) => match y {
                Tile::Park(_) => Tile::Light(LightCond::Green),
                Tile::Building => Tile::Park(ParkType::Free),
                Tile::Road(r) => Tile::Road(r),
                _ => Tile::Unknown,
            },
            Tile::Building => match y {
                Tile::Building => Tile::Building,
                Tile::Park(_) => Tile::Park(ParkType::Free),
                Tile::Road(r) => Tile::Road(r),
                _ => Tile::Unknown,
            },
            Tile::Road(rx) => match y {
                Tile::Building | Tile::Park(_) => Tile::Road(rx),
                Tile::Road(ry) => match (ry, rx) {
                    (
                        RoadType::OneWay(OneWayRoadType::Right),
                        RoadType::OneWay(OneWayRoadType::Up),
                    ) => Tile::Road(RoadType::TwoWay(TwoWayRoadType::UpRight)),
                    (
                        RoadType::OneWay(OneWayRoadType::Left),
                        RoadType::OneWay(OneWayRoadType::Up),
                    ) => Tile::Road(RoadType::TwoWay(TwoWayRoadType::UpLeft)),
                    (
                        RoadType::OneWay(OneWayRoadType::Right),
                        RoadType::OneWay(OneWayRoadType::Bottom),
                    ) => Tile::Road(RoadType::TwoWay(TwoWayRoadType::DownRight)),
                    (
                        RoadType::OneWay(OneWayRoadType::Left),
                        RoadType::OneWay(OneWayRoadType::Bottom),
                    ) => Tile::Road(RoadType::TwoWay(TwoWayRoadType::DownLeft)),
                    _ => Tile::Unknown,
                },
                _ => Tile::Unknown,
            },
            _ => Tile::Unknown,
        }
    }
}

impl City {
    /// The tile on row `i`, column `j` of a city with blocks of side
    /// `b_size`.
    ///
    /// Only a `Default` city has a tile pattern. There every cell gets a
    /// proper tile, never `Unknown`.
    pub fn calculate_tile_type(city_type: CityType, b_size: u32, i: u32, j: u32) -> (res: Result<
        Tile,
        CityError,
    >)
        ensures
            res == classified(city_type, b_size as int, i as int, j as int),
            res != Ok::<Tile, CityError>(Tile::Unknown),
    {
        match city_type {
            CityType::Default => {
                let unit: u64 = b_size as u64 + 4;
                let unit_y: i64 = (i as u64 % unit) as i64 - b_size as i64;
                let unit_x: i64 = (j as u64 % unit) as i64 - b_size as i64;
                proof {
                    lemma_default_tile_is_known(b_size as int, i as int, j as int);
                }
                Ok(Tile::combine(Tile::from_x_residue(unit_x), Tile::from_y_residue(unit_y)))
            },
            _ => Err(CityError::UnsupportedVariant),
        }
    }
}

/// In a `Default` city every cell has a proper tile: none is `Unknown`,
/// whatever the size of the blocks.
pub proof fn lemma_default_tile_is_known(b_size: int, i: int, j: int)
    ensures
        tile_at(b_size, i, j) != Tile::Unknown,
{
}

/// Two-way roads stand exactly where a road lane of a row crosses a road
/// lane of a column, and which of the four it is follows from the two lanes:
/// the second lane behind a block runs up in a column and right in a row,
/// the first runs down in a column and left in a row.
pub proof fn lemma_two_way_exactly_at_crossings(b_size: int, i: int, j: int)
    ensures
        tile_at(b_size, i, j) == Tile::Road(RoadType::TwoWay(TwoWayRoadType::UpRight)) <==> residue(
            b_size,
            i,
        ) == 2 && residue(b_size, j) == 2,
        tile_at(b_size, i, j) == Tile::Road(RoadType::TwoWay(TwoWayRoadType::UpLeft)) <==> residue(
            b_size,
            i,
        ) == 1 && residue(b_size, j) == 2,
        tile_at(b_size, i, j) == Tile::Road(RoadType::TwoWay(TwoWayRoadType::DownRight))
            <==> residue(b_size, i) == 2 && residue(b_size, j) == 1,
        tile_at(b_size, i, j) == Tile::Road(RoadType::TwoWay(TwoWayRoadType::DownLeft))
            <==> residue(b_size, i) == 1 && residue(b_size, j) == 1,
{
}

/// Two roads merge into a two-way road only where the first runs up or down
/// and the second left or right. Every other pair of roads gives `Unknown`.
pub proof fn lemma_other_crossings_are_unknown(x: RoadType, y: RoadType)
    ensures
        merged(Tile::Road(x), Tile::Road(y)) != Tile::Unknown <==> (x == RoadType::OneWay(
            OneWayRoadType::Up,
        ) || x == RoadType::OneWay(OneWayRoadType::Bottom)) && (y == RoadType::OneWay(
            OneWayRoadType::Left,
        ) || y == RoadType::OneWay(OneWayRoadType::Right)),
        merged(Tile::Road(x), Tile::Road(y)) != Tile::Unknown ==> merged(
            Tile::Road(x),
            Tile::Road(y),
        ) is Road && merged(Tile::Road(x), Tile::Road(y))->Road_0 is TwoWay,
{
}

/// Asking twice for the tile of the same cell gives the same answer: the
/// city type, the block size and the coordinates fix what the classifier
/// returns, be it a tile or a refusal.
pub proof fn lemma_classification_repeats(
    city_type: CityType,
    b_size: u32,
    i: u32,
    j: u32,
    first: Result<Tile, CityError>,
    second: Result<Tile, CityError>,
)
    requires
        first == classified(city_type, b_size as int, i as int, j as int),
        second == classified(city_type, b_size as int, i as int, j as int),
    ensures
        first == second,
{
}

} // verus!
