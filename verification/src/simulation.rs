//! A city together with the cars in it.

use vstd::prelude::*;
use crate::car::{Car, CarState};
use crate::city::{default_city, City, CityView};
use crate::layout::{buildable, CityError, CityType};
use crate::position::Position;
use crate::target::TargetType;

verus! {

/// How much a simulation reports while it runs.
#[derive(Clone, Copy, PartialEq, Eq, Debug, Structural)]
pub enum SimulationMode {
    Verbose,
    Quite,
}

/// A city, the cars in it and the number of steps taken so far.
#[derive(Debug)]
pub struct Simulation {
    pub city: City,
    pub epoch: u32,
    pub cars: Vec<Car>,
    pub mode: SimulationMode,
    pub seed: u32,
}

/// A number from `rand::random::<usize>()`, which draws it from the
/// generator of the current thread. Any number can come back, and nothing
/// is claimed of it. The generator is seeded by the operating system when a
/// thread first uses it, and the call fails where the system has no
/// randomness to give.
#[verifier::external_body]
fn random_draw() -> (draw: usize) {
    rand::random::<usize>()
}

/// The place in a sequence of `len` items that the draw `draw` selects.
pub open spec fn selected(draw: int, len: int) -> int {
    draw % len
}

/// Whether `car` is the `id`-th car as it is put into `city`: standing idle
/// on one of the entry points, with no direction and no proper target yet.
pub open spec fn spawned(city: CityView, id: int, car: Car) -> bool {
    &&& car.id == id
    &&& city.entry_points.contains(car.p)
    &&& car.dir == Position { x: 0, y: 0 }
    &&& car.target == TargetType::Building(Position { x: 0, y: 0 })
    &&& car.state == CarState::Idle
}

impl Simulation {
    /// The entry point of `city` that the draw `draw` selects.
    ///
    /// A city without entry points has none to select.
    pub fn entry_point_for(city: &City, draw: usize) -> (res: Result<Position, CityError>)
        ensures
            match res {
                Ok(p) => city@.entry_points.len() > 0 && p == city@.entry_points[selected(
                    draw as int,
                    city@.entry_points.len() as int,
                )],
                Err(e) => city@.entry_points.len() == 0 && e == CityError::DegenerateSampling,
            },
    {
        let entry_points = city.entry_points();
        let l: usize = entry_points.len();
        if l == 0 {
            Err(CityError::DegenerateSampling)
        } else {
            Ok(entry_points[draw % l])
        }
    }

    /// The building of `city` that the draw `draw` selects.
    ///
    /// A city without buildings has none to select.
    pub fn building_for(city: &City, draw: usize) -> (res: Result<TargetType, CityError>)
        ensures
            match res {
                Ok(b) => city@.buildings.len() > 0 && b == city@.buildings[selected(
                    draw as int,
                    city@.buildings.len() as int,
                )],
                Err(e) => city@.buildings.len() == 0 && e == CityError::DegenerateSampling,
            },
    {
        let buildings = city.buildings();
        let l: usize = buildings.len();
        if l == 0 {
            Err(CityError::DegenerateSampling)
        } else {
            Ok(buildings[draw % l])
        }
    }

    /// An entry point of `city`, chosen at random.
    ///
    /// A city without entry points has none to choose.
    pub fn random_entry_point(city: &City) -> (res: Result<Position, CityError>)
        ensures
            match res {
                Ok(p) => city@.entry_points.contains(p),
                Err(e) => city@.entry_points.len() == 0 && e == CityError::DegenerateSampling,
            },
    {
        let r: usize = random_draw();
        Simulation::entry_point_for(city, r)
    }

    /// A building of `city`, chosen at random.
    ///
    /// A city without buildings has none to choose.
    pub fn random_building(city: &City) -> (res: Result<TargetType, CityError>)
        ensures
            match res {
                Ok(b) => city@.buildings.contains(b),
                Err(e) => city@.buildings.len() == 0 && e == CityError::DegenerateSampling,
            },
    {
        let r: usize = random_draw();
        Simulation::building_for(city, r)
    }

    /// Puts `n_cars` cars into `city`, numbered from 0, each on an entry
    /// point chosen at random.
    ///
    /// Cars cannot be put into a city without entry points.
    pub fn generate_cars(city: &City, n_cars: u32) -> (res: Result<Vec<Car>, CityError>)
        ensures
            match res {
                Ok(cars) => {
                    &&& cars@.len() == n_cars
                    &&& forall|i: int| 0 <= i < n_cars ==> spawned(city@, i, #[trigger] cars@[i])
                },
                Err(e) => {
                    &&& e == CityError::DegenerateSampling
                    &&& n_cars > 0
                    &&& city@.entry_points.len() == 0
                },
            },
    {
        let mut c_vec: Vec<Car> = Vec::with_capacity(n_cars as usize);
        let mut i: u32 = 0;
        while i < n_cars
            invariant
                i <= n_cars,
                c_vec@.len() == i,
                forall|k: int| 0 <= k < i ==> spawned(city@, k, #[trigger] c_vec@[k]),
            decreases n_cars - i,
        {
            let p = match Simulation::random_entry_point(city) {
                Ok(p) => p,
                Err(e) => {
                    return Err(e);
                },
            };
            c_vec.push(
                Car {
                    id: i,
                    p,
                    dir: Position { x: 0, y: 0 },
                    target: TargetType::Building(Position { x: 0, y: 0 }),
                    state: CarState::Idle,
                },
            );
            i += 1;
        }
        Ok(c_vec)
    }

    /// Builds a city and puts `n_cars` cars into it.
    ///
    /// Only `Default` cities can be built, and cars need an entry point: a
    /// city with a single block has none.
    pub fn new(
        b_num_x: u32,
        b_num_y: u32,
        b_size: u32,
        n_cars: u32,
        city_type: CityType,
        seed: u32,
        mode: SimulationMode,
    ) -> (res: Result<Simulation, CityError>)
        requires
            buildable(city_type, b_num_x as int, b_num_y as int, b_size as int),
        ensures
            match res {
                Ok(sim) => {
                    &&& city_type is Default
                    &&& n_cars > 0 ==> b_num_x > 1 || b_num_y > 1
                    &&& sim.city@ == default_city(b_num_x, b_num_y, b_size)
                    &&& sim.epoch == 0
                    &&& sim.mode == mode
                    &&& sim.seed == seed
                    &&& sim.cars@.len() == n_cars
                    &&& forall|i: int|
                        0 <= i < n_cars ==> spawned(sim.city@, i, #[trigger] sim.cars@[i])
                },
                Err(e) => if city_type is Default {
                    e == CityError::DegenerateSampling && n_cars > 0 && b_num_x == 1 && b_num_y == 1
                } else {
                    e == CityError::UnsupportedVariant
                },
            },
    {
        let city = match City::new(city_type, b_num_x, b_num_y, b_size) {
            Ok(city) => city,
            Err(e) => {
                return Err(e);
            },
        };
        let cars = match Simulation::generate_cars(&city, n_cars) {
            Ok(cars) => cars,
            Err(e) => {
                return Err(e);
            },
        };
        proof {
            if n_cars > 0 {
                assert(spawned(city@, 0, cars@[0]));
                let first = choose|k: int|
                    0 <= k < city@.entry_points.len() && city@.entry_points[k] == cars@[0].p;
                assert(0 <= first < city@.entry_points.len());
            }
        }
        Ok(Simulation { city, epoch: 0, cars, mode, seed })
    }
}

} // verus!
