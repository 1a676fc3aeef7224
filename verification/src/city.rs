//! A generated city.

use vstd::prelude::*;
use crate::entry::default_entry_points;
use crate::grid::{all_known, default_tiles, lemma_default_tiles_are_known, Grid};
use crate::layout::{buildable, default_length, length_fits, CityError, CityType, Layout};
use crate::position::Position;
use crate::target::TargetType;
use crate::tile::Tile;

verus! {

/// A city: its tiles, the parameters it was built from, the positions on
/// its border where cars enter, and the buildings cars can head for. It does
/// not change once it is built.
#[derive(Debug)]
pub struct City {
    tiles: Grid,
    t: CityType,
    layout: Layout,
    entry_points: Vec<Position>,
    buildings: Vec<TargetType>,
}

/// What a city holds, as plain values.
pub struct CityView {
    pub city_type: CityType,
    pub layout: Layout,
    pub tiles: Seq<Seq<Tile>>,
    pub entry_points: Seq<Position>,
    pub buildings: Seq<TargetType>,
}

impl View for City {
    type V = CityView;

    closed spec fn view(&self) -> CityView {
        CityView {
            city_type: self.t,
            layout: self.layout,
            tiles: self.tiles@,
            entry_points: self.entry_points@,
            buildings: self.buildings@,
        }
    }
}

/// The `Default` city with `b_num_x` by `b_num_y` blocks of side `b_size`.
pub open spec fn default_city(b_num_x: u32, b_num_y: u32, b_size: u32) -> CityView {
    CityView {
        city_type: CityType::Default,
        layout: Layout { b_num_x, b_num_y, b_size },
        tiles: default_tiles(
            b_size as int,
            default_length(b_size as int, b_num_x as int),
            default_length(b_size as int, b_num_y as int),
        ),
        entry_points: default_entry_points(b_num_x as int, b_num_y as int, b_size as int),
        buildings: Seq::empty(),
    }
}

impl City {
    /// Every city is the `Default` city of its layout.
    #[verifier::type_invariant]
    spec fn generated(self) -> bool {
        &&& self.t is Default
        &&& length_fits(self.t, self.layout.b_size as int, self.layout.b_num_x as int)
        &&& length_fits(self.t, self.layout.b_size as int, self.layout.b_num_y as int)
        &&& self.tiles.height() == default_length(
            self.layout.b_size as int,
            self.layout.b_num_x as int,
        )
        &&& self.tiles.width() == default_length(
            self.layout.b_size as int,
            self.layout.b_num_y as int,
        )
        &&& self@ == default_city(self.layout.b_num_x, self.layout.b_num_y, self.layout.b_size)
    }

    /// The kind of this city, which is always `Default`: no other kind can
    /// be built.
    pub fn city_type(&self) -> (city_type: CityType)
        ensures
            city_type == self@.city_type,
            city_type is Default,
    {
        proof {
            use_type_invariant(self);
        }
        self.t
    }

    /// The block counts and the block size the city was built from. They
    /// determine everything else the city holds.
    pub fn layout(&self) -> (layout: Layout)
        ensures
            layout == self@.layout,
            self@ == default_city(layout.b_num_x, layout.b_num_y, layout.b_size),
            length_fits(CityType::Default, layout.b_size as int, layout.b_num_x as int),
            length_fits(CityType::Default, layout.b_size as int, layout.b_num_y as int),
    {
        proof {
            use_type_invariant(self);
        }
        self.layout
    }

    /// The tiles of the city, none of which is `Unknown`.
    pub fn tiles(&self) -> (tiles: &Grid)
        ensures
            tiles@ == self@.tiles,
            all_known(tiles@),
            tiles.height() == default_length(
                self@.layout.b_size as int,
                self@.layout.b_num_x as int,
            ),
            tiles.width() == default_length(
                self@.layout.b_size as int,
                self@.layout.b_num_y as int,
            ),
    {
        proof {
            use_type_invariant(self);
            lemma_default_tiles_are_known(
                self.layout.b_size as int,
                default_length(self.layout.b_size as int, self.layout.b_num_x as int),
                default_length(self.layout.b_size as int, self.layout.b_num_y as int),
            );
        }
        &self.tiles
    }

    /// The positions at which cars enter the city, in the order in which
    /// they were generated. There may be none.
    pub fn entry_points(&self) -> (entry_points: &Vec<Position>)
        ensures
            entry_points@ == self@.entry_points,
    {
        &self.entry_points
    }

    /// The buildings that cars can head for. There are none.
    pub fn buildings(&self) -> (buildings: &Vec<TargetType>)
        ensures
            buildings@ == self@.buildings,
            buildings@.len() == 0,
    {
        proof {
            use_type_invariant(self);
        }
        &self.buildings
    }

    /// The buildings that cars can head for. No city type places any yet.
    pub fn building_positions(city_type: CityType, b_num_x: u32, b_num_y: u32, b_size: u32) -> (res:
        Vec<TargetType>)
        ensures
            res@.len() == 0,
    {
        Vec::new()
    }

    /// Builds the city with `b_num_x` by `b_num_y` blocks of side `b_size`.
    ///
    /// Only `Default` cities can be built.
    pub fn new(city_type: CityType, b_num_x: u32, b_num_y: u32, b_size: u32) -> (res: Result<
        City,
        CityError,
    >)
        requires
            buildable(city_type, b_num_x as int, b_num_y as int, b_size as int),
        ensures
            match city_type {
                CityType::Default => {
                    &&& res is Ok
                    &&& res->Ok_0@ == default_city(b_num_x, b_num_y, b_size)
                    &&& all_known(res->Ok_0@.tiles)
                    &&& res->Ok_0@.buildings.len() == 0
                },
                _ => res is Err && res->Err_0 == CityError::UnsupportedVariant,
            },
    {
        let tiles = match City::generate_city_grid(city_type, b_num_x, b_num_y, b_size) {
            Ok(tiles) => tiles,
            Err(e) => {
                return Err(e);
            },
        };
        let entry_points = match City::generate_entry_points(city_type, b_num_x, b_num_y, b_size) {
            Ok(entry_points) => entry_points,
            Err(e) => {
                return Err(e);
            },
        };
        let buildings = City::building_positions(city_type, b_num_x, b_num_y, b_size);
        assert(buildings@ =~= Seq::<TargetType>::empty());
        Ok(
            City {
                t: city_type,
                layout: Layout { b_num_x, b_num_y, b_size },
                tiles,
                entry_points,
                buildings,
            },
        )
    }
}

} // verus!
