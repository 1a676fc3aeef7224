use city_grid::car::{Car, CarState, ParkingType};
use city_grid::position::{Direction, Position};
use city_grid::target::TargetType;

#[test]
fn positions_add_componentwise() {
    let sum = Position { x: 1, y: 2 } + Position { x: 10, y: 20 };
    assert_eq!(sum, Position { x: 11, y: 22 });
    let origin = Position { x: 0, y: 0 };
    assert_eq!(sum + origin, sum);
    assert_eq!(
        Position { x: u32::MAX - 1, y: 0 } + Position { x: 1, y: u32::MAX },
        Position { x: u32::MAX, y: u32::MAX }
    );
}

#[test]
fn positions_subtract_componentwise() {
    let difference = Position { x: 10, y: 20 } - Position { x: 1, y: 2 };
    assert_eq!(difference, Position { x: 9, y: 18 });
    assert_eq!(difference - difference, Position { x: 0, y: 0 });
    assert_eq!(
        Position { x: u32::MAX, y: 7 } - Position { x: 0, y: 7 },
        Position { x: u32::MAX, y: 0 }
    );
}

#[test]
fn a_direction_is_a_position() {
    let step: Direction = Position { x: 0, y: 1 };
    let here = Position { x: 3, y: 3 };
    assert_eq!(here + step, Position { x: 3, y: 4 });
    assert_eq!(here + step - step, here);
}

#[test]
fn a_new_car_holds_what_it_was_given() {
    let car = Car::new(
        7,
        Position { x: 6, y: 0 },
        Position { x: 0, y: 1 },
        TargetType::Exit(Position { x: 0, y: 6 }),
        CarState::Parking(ParkingType::Circling(Position { x: 2, y: 2 }, 3)),
    );
    assert_eq!(car.id, 7);
    assert_eq!(car.p, Position { x: 6, y: 0 });
    assert_eq!(car.dir, Position { x: 0, y: 1 });
    assert_eq!(car.target, TargetType::Exit(Position { x: 0, y: 6 }));
    assert_eq!(car.state, CarState::Parking(ParkingType::Circling(Position { x: 2, y: 2 }, 3)));
}
