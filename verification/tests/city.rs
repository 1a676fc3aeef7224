use city_grid::city::City;
use city_grid::grid::Grid;
use city_grid::layout::{CityError, CityType, Layout};
use city_grid::position::Position;
use city_grid::target::TargetType;
use city_grid::tile::{LightCond, OneWayRoadType, ParkType, RoadType, Tile, TwoWayRoadType};

fn at(x: u32, y: u32) -> Position {
    Position { x, y }
}

fn count_tiles(grid: &Grid, wanted: Tile) -> usize {
    let mut n = 0;
    for i in 0..grid.rows() {
        for j in 0..grid.cols() {
            if grid.get(i, j) == Some(wanted) {
                n += 1;
            }
        }
    }
    n
}

#[test]
fn lengths_follow_the_formulas() {
    assert_eq!(City::city_length_x(CityType::Default, 2, 3), Ok(10));
    assert_eq!(City::city_length_y(CityType::Default, 2, 3), Ok(10));
    assert_eq!(City::city_length_x(CityType::Default, 1, 1), Ok(1));
    assert_eq!(City::city_length_y(CityType::Default, 5, 2), Ok(26));
    assert_eq!(City::city_length_x(CityType::Default, 1, 0), Ok(0));
    assert_eq!(City::city_length_x(CityType::Bordered, 2, 3), Ok(16));
    assert_eq!(City::city_length_y(CityType::Bordered, 2, 3), Ok(16));
    assert_eq!(City::city_length_y(CityType::Bordered, 0, 3), Ok(2));
}

#[test]
fn lengths_reach_the_largest_coordinate() {
    // One block whose side is the largest number: 4294967295 + 4 - 4.
    assert_eq!(City::city_length_x(CityType::Default, 1, u32::MAX), Ok(u32::MAX));
    // 4294967295 + 4 = 613566757 * 7.
    assert_eq!(City::city_length_y(CityType::Default, 613566757, 3), Ok(u32::MAX));
    // 858993458 * 5 + 2 is the last length below the limit.
    assert_eq!(City::city_length_x(CityType::Bordered, 858993458, 1), Ok(4294967292));
}

#[test]
fn a_line_city_has_no_length() {
    assert_eq!(City::city_length_x(CityType::Line, 2, 3), Err(CityError::UnsupportedVariant));
    assert_eq!(City::city_length_y(CityType::Line, 2, 3), Err(CityError::UnsupportedVariant));
}

#[test]
fn lengths_are_checked_before_they_are_computed() {
    assert!(City::check_length(CityType::Default, 2, 3));
    assert!(City::check_length(CityType::Default, 1, u32::MAX));
    assert!(City::check_length(CityType::Default, 613566757, 3));
    assert!(!City::check_length(CityType::Default, 613566758, 3));
    assert!(!City::check_length(CityType::Default, 0, 3));
    assert!(!City::check_length(CityType::Default, 2, u32::MAX));
    assert!(!City::check_length(CityType::Default, u32::MAX, u32::MAX));
    assert!(City::check_length(CityType::Bordered, 0, 3));
    assert!(City::check_length(CityType::Bordered, 858993458, 1));
    assert!(!City::check_length(CityType::Bordered, 858993459, 1));
    assert!(!City::check_length(CityType::Bordered, 1, u32::MAX));
    assert!(City::check_length(CityType::Line, u32::MAX, u32::MAX));
}

#[test]
fn layouts_are_checked_before_a_city_is_built() {
    assert!(City::check_layout(CityType::Default, 2, 2, 3));
    assert!(City::check_layout(CityType::Default, 1, 1, 0));
    assert!(!City::check_layout(CityType::Default, 0, 2, 3));
    assert!(!City::check_layout(CityType::Default, 2, 0, 3));
    assert!(!City::check_layout(CityType::Default, 2, 613566758, 3));
    assert!(City::check_layout(CityType::Bordered, 0, 0, u32::MAX));
    assert!(City::check_layout(CityType::Line, 0, 0, 0));
}

#[test]
fn entry_points_of_two_by_two_blocks() {
    assert_eq!(
        City::generate_entry_points(CityType::Default, 2, 2, 3),
        Ok(vec![at(6, 0), at(6, 10), at(0, 6), at(10, 6)])
    );
}

#[test]
fn entry_points_come_street_by_street() {
    assert_eq!(
        City::generate_entry_points(CityType::Default, 3, 2, 1),
        Ok(vec![at(4, 0), at(4, 6), at(9, 0), at(9, 6), at(0, 4), at(11, 4)])
    );
    assert_eq!(
        City::generate_entry_points(CityType::Default, 1, 3, 2),
        Ok(vec![at(0, 5), at(2, 5), at(0, 11), at(2, 11)])
    );
    assert_eq!(
        City::generate_entry_points(CityType::Default, 2, 1, 0),
        Ok(vec![at(3, 0), at(3, 0)])
    );
}

#[test]
fn a_single_block_has_no_entry_point() {
    assert_eq!(City::generate_entry_points(CityType::Default, 1, 1, 3), Ok(vec![]));
    assert_eq!(City::generate_entry_points(CityType::Default, 1, 1, u32::MAX), Ok(vec![]));
}

#[test]
fn there_are_two_entry_points_for_each_street() {
    for b_num_x in 1..6u32 {
        for b_num_y in 1..6u32 {
            for b_size in [0u32, 1, 3, 10] {
                let points =
                    City::generate_entry_points(CityType::Default, b_num_x, b_num_y, b_size)
                        .unwrap();
                assert_eq!(points.len() as u32, 2 * (b_num_x - 1) + 2 * (b_num_y - 1));
            }
        }
    }
}

#[test]
fn entry_points_of_the_other_city_types() {
    assert_eq!(City::generate_entry_points(CityType::Bordered, 2, 2, 3), Ok(vec![]));
    assert_eq!(City::generate_entry_points(CityType::Bordered, 0, 0, 0), Ok(vec![]));
    assert_eq!(
        City::generate_entry_points(CityType::Line, 2, 2, 3),
        Err(CityError::UnsupportedVariant)
    );
}

#[test]
fn no_city_type_has_buildings_to_head_for() {
    for city_type in [CityType::Default, CityType::Bordered, CityType::Line] {
        for (b_num_x, b_num_y, b_size) in [(0, 0, 0), (1, 1, 1), (2, 2, 3), (7, 3, 9)] {
            let buildings: Vec<TargetType> =
                City::building_positions(city_type, b_num_x, b_num_y, b_size);
            assert!(buildings.is_empty());
        }
    }
}

#[test]
fn the_grid_of_two_by_two_blocks() {
    let grid = City::generate_city_grid(CityType::Default, 2, 2, 3).unwrap();
    assert_eq!(grid.rows(), 10);
    assert_eq!(grid.cols(), 10);
    assert_eq!(grid.get(0, 0), Some(Tile::Building));
    assert_eq!(grid.get(0, 3), Some(Tile::Park(ParkType::Free)));
    assert_eq!(grid.get(3, 3), Some(Tile::Light(LightCond::Green)));
    assert_eq!(grid.get(3, 4), Some(Tile::Road(RoadType::OneWay(OneWayRoadType::Bottom))));
    assert_eq!(grid.get(4, 3), Some(Tile::Road(RoadType::OneWay(OneWayRoadType::Left))));
    assert_eq!(grid.get(4, 4), Some(Tile::Road(RoadType::TwoWay(TwoWayRoadType::DownLeft))));
    assert_eq!(grid.get(4, 5), Some(Tile::Road(RoadType::TwoWay(TwoWayRoadType::UpLeft))));
    assert_eq!(grid.get(5, 4), Some(Tile::Road(RoadType::TwoWay(TwoWayRoadType::DownRight))));
    assert_eq!(grid.get(5, 5), Some(Tile::Road(RoadType::TwoWay(TwoWayRoadType::UpRight))));
    assert_eq!(grid.get(9, 9), Some(Tile::Building));
    assert_eq!(count_tiles(&grid, Tile::Building), 36);
    assert_eq!(count_tiles(&grid, Tile::Park(ParkType::Free)), 24);
    assert_eq!(count_tiles(&grid, Tile::Light(LightCond::Green)), 4);
    assert_eq!(count_tiles(&grid, Tile::Unknown), 0);
}

#[test]
fn the_grid_ends_where_the_city_ends() {
    let grid = City::generate_city_grid(CityType::Default, 2, 2, 3).unwrap();
    assert_eq!(grid.get(10, 0), None);
    assert_eq!(grid.get(0, 10), None);
    assert_eq!(grid.get(10, 10), None);
    assert_eq!(grid.get(usize::MAX, usize::MAX), None);
}

#[test]
fn every_cell_of_a_grid_holds_its_tile() {
    for (b_num_x, b_num_y, b_size) in [(1u32, 1u32, 1u32), (1, 3, 2), (3, 1, 0), (2, 3, 4), (4, 2, 1)]
    {
        let grid = City::generate_city_grid(CityType::Default, b_num_x, b_num_y, b_size).unwrap();
        assert_eq!(grid.rows() as u32, (b_size + 4) * b_num_x - 4);
        assert_eq!(grid.cols() as u32, (b_size + 4) * b_num_y - 4);
        for i in 0..grid.rows() {
            for j in 0..grid.cols() {
                let tile = grid.get(i, j).unwrap();
                assert_eq!(
                    Ok(tile),
                    City::calculate_tile_type(CityType::Default, b_size, i as u32, j as u32)
                );
                assert_ne!(tile, Tile::Unknown);
            }
        }
    }
}

#[test]
fn a_grid_can_be_empty() {
    let flat = City::generate_city_grid(CityType::Default, 1, 2, 0).unwrap();
    assert_eq!(flat.rows(), 0);
    assert_eq!(flat.cols(), 4);
    assert_eq!(flat.get(0, 0), None);
    let thin = City::generate_city_grid(CityType::Default, 2, 1, 0).unwrap();
    assert_eq!(thin.rows(), 4);
    assert_eq!(thin.cols(), 0);
    assert_eq!(thin.get(0, 0), None);
}

#[test]
fn only_default_cities_have_a_grid() {
    assert_eq!(
        City::generate_city_grid(CityType::Bordered, 2, 2, 3).err(),
        Some(CityError::UnsupportedVariant)
    );
    assert_eq!(
        City::generate_city_grid(CityType::Line, 2, 2, 3).err(),
        Some(CityError::UnsupportedVariant)
    );
}

#[test]
fn two_by_two_city_has_four_entry_points() {
    let city = City::new(CityType::Default, 2, 2, 3).unwrap();
    assert_eq!(city.tiles().rows(), 10);
    assert_eq!(city.tiles().cols(), 10);
    assert_eq!(city.entry_points(), &vec![at(6, 0), at(6, 10), at(0, 6), at(10, 6)]);
    assert_eq!(city.entry_points().len(), 4);
    assert!(city.buildings().is_empty());
    assert_eq!(city.layout(), Layout { b_num_x: 2, b_num_y: 2, b_size: 3 });
    assert_eq!(city.city_type(), CityType::Default);
    assert_eq!(count_tiles(city.tiles(), Tile::Unknown), 0);
    assert_eq!(city.tiles().get(5, 5), Some(Tile::Road(RoadType::TwoWay(TwoWayRoadType::UpRight))));
}

#[test]
fn a_city_of_one_block_has_nowhere_to_enter() {
    let city = City::new(CityType::Default, 1, 1, 2).unwrap();
    assert_eq!(city.tiles().rows(), 2);
    assert_eq!(city.tiles().cols(), 2);
    assert_eq!(count_tiles(city.tiles(), Tile::Building), 4);
    assert_eq!(city.entry_points().len(), 0);
    assert_eq!(city.buildings().len(), 0);
}

#[test]
fn a_city_holds_what_its_parts_generate() {
    let city = City::new(CityType::Default, 3, 2, 1).unwrap();
    let grid = City::generate_city_grid(CityType::Default, 3, 2, 1).unwrap();
    assert_eq!(city.tiles().rows(), 11);
    assert_eq!(city.tiles().cols(), 6);
    for i in 0..11 {
        for j in 0..6 {
            assert_eq!(city.tiles().get(i, j), grid.get(i, j));
        }
    }
    assert_eq!(
        Ok(city.entry_points().clone()),
        City::generate_entry_points(CityType::Default, 3, 2, 1)
    );
}

#[test]
fn bordered_city_is_unsupported() {
    assert_eq!(City::new(CityType::Bordered, 2, 2, 3).err(), Some(CityError::UnsupportedVariant));
}

#[test]
fn line_city_is_unsupported() {
    assert_eq!(City::new(CityType::Line, 2, 2, 3).err(), Some(CityError::UnsupportedVariant));
    assert_eq!(City::new(CityType::Line, 0, 0, 0).err(), Some(CityError::UnsupportedVariant));
}
