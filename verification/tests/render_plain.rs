use city_grid::car::{Car, CarState, ParkingType};
use city_grid::city::City;
use city_grid::layout::CityType;
use city_grid::position::Position;
use city_grid::render::decimal_text;
use city_grid::target::TargetType;
use city_grid::tile::{LightCond, ParkType, Tile};

// Every test in this file switches colours off, so that they can run side by
// side.
fn colours_off() {
    colored::control::set_override(false);
}

#[test]
fn numbers_in_decimal() {
    assert_eq!(decimal_text(0), "0");
    assert_eq!(decimal_text(7), "7");
    assert_eq!(decimal_text(9), "9");
    assert_eq!(decimal_text(10), "10");
    assert_eq!(decimal_text(101), "101");
    assert_eq!(decimal_text(1234567890), "1234567890");
    assert_eq!(decimal_text(u32::MAX), "4294967295");
    for n in (0..100_000u32).step_by(37) {
        assert_eq!(decimal_text(n), n.to_string());
    }
}

#[test]
fn positions_in_brackets() {
    assert_eq!(Position { x: 0, y: 0 }.render(), "(0,0)");
    assert_eq!(Position { x: 6, y: 10 }.render(), "(6,10)");
    assert_eq!(Position { x: u32::MAX, y: 1 }.render(), "(4294967295,1)");
}

#[test]
fn tiles_without_colour() {
    colours_off();
    assert_eq!(Tile::Park(ParkType::Free).render(), "p");
    assert_eq!(Tile::Park(ParkType::Full).render(), "p");
    assert_eq!(Tile::Light(LightCond::Green).render(), "!");
    assert_eq!(Tile::Light(LightCond::Red).render(), "#");
    assert_eq!(Tile::Building.render(), "#");
    assert_eq!(Tile::Unknown.render(), "?");
}

#[test]
fn glyphs_and_tints_of_tiles() {
    assert_eq!(Tile::Building.glyph(), "#");
    assert_eq!(Tile::Park(ParkType::Full).glyph(), "p");
    assert_eq!(Tile::Light(LightCond::Green).glyph(), "!");
    assert_eq!(Tile::Light(LightCond::Red).glyph(), "#");
    assert_eq!(Tile::Unknown.glyph(), "?");
    assert_eq!(Tile::Building.tint(), city_grid::paint::Tint::Plain);
    assert_eq!(Tile::Park(ParkType::Free).tint(), city_grid::paint::Tint::Yellow);
    assert_eq!(Tile::Park(ParkType::Full).tint(), city_grid::paint::Tint::Red);
    assert_eq!(Tile::Light(LightCond::Green).tint(), city_grid::paint::Tint::Green);
    assert_eq!(Tile::Light(LightCond::Red).tint(), city_grid::paint::Tint::Red);
    assert_eq!(Tile::Unknown.tint(), city_grid::paint::Tint::Plain);
}

#[test]
fn targets_without_colour() {
    colours_off();
    let p = Position { x: 6, y: 10 };
    assert_eq!(TargetType::Building(p).render(), "Building , (6,10)");
    assert_eq!(TargetType::Exit(p).render(), "Exit , (6,10)");
    assert_eq!(TargetType::JustPosition(p).render(), "Road , (6,10)");
}

#[test]
fn car_states_without_colour() {
    colours_off();
    let p = Position { x: 1, y: 2 };
    assert_eq!(ParkingType::Searching.render(), "Searching");
    assert_eq!(ParkingType::Circling(p, 12).render(), "(1,2) 12");
    assert_eq!(ParkingType::Found(p).render(), "(1,2)");
    assert_eq!(CarState::Idle.render(), "Idle");
    assert_eq!(CarState::Moving.render(), "Moving");
    assert_eq!(CarState::Parked.render(), "Parked");
    assert_eq!(CarState::Parking(ParkingType::Circling(p, 0)).render(), "(1,2) 0 Parking");
}

#[test]
fn a_car_without_colour() {
    colours_off();
    let car = Car::new(
        0,
        Position { x: 6, y: 0 },
        Position { x: 0, y: 0 },
        TargetType::Building(Position { x: 0, y: 0 }),
        CarState::Idle,
    );
    assert_eq!(
        car.render(),
        "\nDisplaying the car of 0 id Targeting Building , (0,0)\n\
         Car's position: (6,0)\nIt directs to: (0,0)\nIt's state: Idle"
    );
}

#[test]
fn a_city_without_colour() {
    colours_off();
    let city = City::new(CityType::Default, 2, 2, 3).unwrap();
    let expected = "\
# # # p v ^ p # # # \n\
# # # p v ^ p # # # \n\
# # # p v ^ p # # # \n\
p p p ! v ^ ! p p p \n\
< < < < x x < < < < \n\
> > > > x x > > > > \n\
p p p ! v ^ ! p p p \n\
# # # p v ^ p # # # \n\
# # # p v ^ p # # # \n\
# # # p v ^ p # # # \n";
    assert_eq!(city.render(), expected);
    assert_eq!(city.tiles().render(), expected);
}

#[test]
fn an_empty_city_without_colour() {
    colours_off();
    let city = City::new(CityType::Default, 1, 1, 0).unwrap();
    assert_eq!(city.render(), "");
    let city = City::new(CityType::Default, 2, 1, 0).unwrap();
    assert_eq!(city.render(), "\n\n\n\n");
}
