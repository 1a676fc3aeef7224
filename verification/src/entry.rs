//! Where cars enter a city.
//!
//! Between two neighbouring blocks runs a street, and a street meets the
//! border of the city at both of its ends. Each such meeting is an entry
//! point.

use vstd::prelude::*;
use crate::city::City;
use crate::layout::{block_period, buildable, default_length, CityError, CityType};
use crate::position::Position;

verus! {

/// The coordinate of the `k`-th street along an axis, counted from 1.
pub open spec fn street_coordinate(b_size: int, k: int) -> int {
    block_period(b_size) * k - 1
}

/// The entry points of the streets between the first `b_num_x` blocks along
/// the x axis: for each street in turn, the one at `y = 0` and then the one
/// at the far end of the y axis.
pub open spec fn top_bottom_entries(b_num_x: int, b_num_y: int, b_size: int) -> Seq<Position> {
    Seq::new(
        (2 * (b_num_x - 1)) as nat,
        |k: int|
            Position {
                x: street_coordinate(b_size, k / 2 + 1) as u32,
                y: if k % 2 == 0 {
                    0u32
                } else {
                    default_length(b_size, b_num_y) as u32
                },
            },
    )
}

/// The entry points of the streets between the first `b_num_y` blocks along
/// the y axis: for each street in turn, the one at `x = 0` and then the one
/// at the far end of the x axis.
pub open spec fn left_right_entries(b_num_x: int, b_num_y: int, b_size: int) -> Seq<Position> {
    Seq::new(
        (2 * (b_num_y - 1)) as nat,
        |k: int|
            Position {
                x: if k % 2 == 0 {
                    0u32
                } else {
                    default_length(b_size, b_num_x) as u32
                },
                y: street_coordinate(b_size, k / 2 + 1) as u32,
            },
    )
}

/// The entry points of a `Default` city, in the order in which they are
/// handed out: those of the streets along the x axis, then those of the
/// streets along the y axis.
pub open spec fn default_entry_points(b_num_x: int, b_num_y: int, b_size: int) -> Seq<Position> {
    top_bottom_entries(b_num_x, b_num_y, b_size) + left_right_entries(b_num_x, b_num_y, b_size)
}

/// A `Default` city has two entry points for each street: with one block
/// along each axis it has none.
pub proof fn lemma_entry_point_count(b_num_x: int, b_num_y: int, b_size: int)
    requires
        b_num_x >= 1,
        b_num_y >= 1,
    ensures
        default_entry_points(b_num_x, b_num_y, b_size).len() == 2 * (b_num_x - 1) + 2 * (b_num_y
            - 1),
        b_num_x == 1 && b_num_y == 1 ==> default_entry_points(b_num_x, b_num_y, b_size)
            =~= Seq::<Position>::empty(),
{
}

/// A street that lies between two blocks of an axis meets the border within
/// the length of that axis.
proof fn lemma_street_within_length(b_size: int, b_num: int, k: int)
    requires
        0 <= b_size,
        1 <= k < b_num,
    ensures
        0 <= street_coordinate(b_size, k) < default_length(b_size, b_num),
{
    let period = block_period(b_size);
    assert(period * k >= period) by (nonlinear_arith)
        requires
            period >= 4,
            k >= 1,
    ;
    assert(period * b_num >= period * k + period) by (nonlinear_arith)
        requires
            period >= 4,
            b_num >= k + 1,
    ;
}

impl City {
    /// The entry points of a city with `b_num_x` by `b_num_y` blocks of side
    /// `b_size`.
    ///
    /// A `Bordered` city has none, and for a `Line` city they are not
    /// defined.
    pub fn generate_entry_points(
        city_type: CityType,
        b_num_x: u32,
        b_num_y: u32,
        b_size: u32,
    ) -> (res: Result<Vec<Position>, CityError>)
        requires
            buildable(city_type, b_num_x as int, b_num_y as int, b_size as int),
        ensures
            match city_type {
                CityType::Default => res is Ok && res->Ok_0@ == default_entry_points(
                    b_num_x as int,
                    b_num_y as int,
                    b_size as int,
                ) && res->Ok_0@.len() == 2 * (b_num_x - 1) + 2 * (b_num_y - 1),
                CityType::Bordered => res is Ok && res->Ok_0@.len() == 0,
                CityType::Line => res == Err::<Vec<Position>, CityError>(
                    CityError::UnsupportedVariant,
                ),
            },
    {
        let mut entry_point_vec: Vec<Position> = Vec::new();
        match city_type {
            CityType::Default => {
                let period: u64 = b_size as u64 + 4;
                let far_x: u32 = (period * (b_num_x as u64) - 4) as u32;
                let far_y: u32 = (period * (b_num_y as u64) - 4) as u32;
                let mut i: u32 = 1;
                while i < b_num_x
                    invariant
                        1 <= i <= b_num_x,
                        period == block_period(b_size as int),
                        far_y == default_length(b_size as int, b_num_y as int),
                        default_length(b_size as int, b_num_x as int) <= u32::MAX,
                        entry_point_vec@ == top_bottom_entries(
                            i as int,
                            b_num_y as int,
                            b_size as int,
                        ),
                    decreases b_num_x - i,
                {
                    proof {
                        lemma_street_within_length(b_size as int, b_num_x as int, i as int);
                    }
                    let street: u32 = (period * (i as u64) - 1) as u32;
                    entry_point_vec.push(Position { x: street, y: 0 });
                    entry_point_vec.push(Position { x: street, y: far_y });
                    i += 1;
                }
                let ghost along_x = entry_point_vec@;
                let mut i: u32 = 1;
                while i < b_num_y
                    invariant
                        1 <= i <= b_num_y,
                        period == block_period(b_size as int),
                        far_x == default_length(b_size as int, b_num_x as int),
                        default_length(b_size as int, b_num_y as int) <= u32::MAX,
                        entry_point_vec@ == along_x + left_right_entries(
                            b_num_x as int,
                            i as int,
                            b_size as int,
                        ),
                    decreases b_num_y - i,
                {
                    proof {
                        lemma_street_within_length(b_size as int, b_num_y as int, i as int);
                    }
                    let street: u32 = (period * (i as u64) - 1) as u32;
                    entry_point_vec.push(Position { x: 0, y: street });
                    entry_point_vec.push(Position { x: far_x, y: street });
                    i += 1;
                }
                Ok(entry_point_vec)
            },
            CityType::Bordered => Ok(entry_point_vec),
            CityType::Line => Err(CityError::UnsupportedVariant),
        }
    }
}

} // verus!
