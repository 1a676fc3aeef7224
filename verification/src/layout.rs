//! The parameters a city is built from, and the size of the grid they give.

use vstd::prelude::*;
use crate::city::City;

verus! {

/// How the blocks of a city are arranged.
///
/// Only `Default` cities can be generated. `Bordered` has a size but no tile
/// pattern yet, and `Line` has neither.
#[derive(Clone, Copy, PartialEq, Eq, Debug, Structural)]
pub enum CityType {
    Default,
    Bordered,
    Line,
}

/// The number of blocks along each axis and the side length of one block.
#[derive(Clone, Copy, PartialEq, Eq, Debug, Structural)]
pub struct Layout {
    pub b_num_x: u32,
    pub b_num_y: u32,
    pub b_size: u32,
}

/// Why a request could not be served.
#[derive(Clone, Copy, PartialEq, Eq, Debug, Structural)]
pub enum CityError {
    /// The operation is not defined for the requested city type.
    UnsupportedVariant,
    /// A random choice was asked from an empty sequence.
    DegenerateSampling,
}

/// The distance from the start of one block to the start of the next: the
/// block itself, a ring of parks on both sides and two road lanes.
pub open spec fn block_period(b_size: int) -> int {
    b_size + 4
}

/// The length of a `Default` city along an axis with `b_num` blocks.
pub open spec fn default_length(b_size: int, b_num: int) -> int {
    block_period(b_size) * b_num - 4
}

/// The length of a `Bordered` city along an axis with `b_num` blocks.
pub open spec fn bordered_length(b_size: int, b_num: int) -> int {
    block_period(b_size) * b_num + 2
}

/// The length of a city along one axis, where the city type has one.
pub open spec fn city_length(city_type: CityType, b_size: int, b_num: int) -> Result<
    int,
    CityError,
> {
    match city_type {
        CityType::Default => Ok(default_length(b_size, b_num)),
        CityType::Bordered => Ok(bordered_length(b_size, b_num)),
        CityType::Line => Err(CityError::UnsupportedVariant),
    }
}

/// Whether the length along one axis can be computed: a `Default` city needs
/// at least one block, and the length has to fit the coordinate type.
pub open spec fn length_fits(city_type: CityType, b_size: int, b_num: int) -> bool {
    match city_length(city_type, b_size, b_num) {
        Ok(len) => 0 <= len <= u32::MAX && (city_type is Default ==> b_num >= 1),
        Err(_) => true,
    }
}

/// Whether a city with `b_num_x` by `b_num_y` blocks of side `b_size` can be
/// asked for: a `Default` city needs a length along both axes. Cities of the
/// other types are turned down when they are asked for.
pub open spec fn buildable(city_type: CityType, b_num_x: int, b_num_y: int, b_size: int) -> bool {
    city_type is Default ==> length_fits(city_type, b_size, b_num_x) && length_fits(
        city_type,
        b_size,
        b_num_y,
    )
}

/// The length along one axis of a city with `b_num` blocks of side `b_size`.
fn axis_length(city_type: CityType, b_num: u32, b_size: u32) -> (res: Result<u32, CityError>)
    requires
        length_fits(city_type, b_size as int, b_num as int),
    ensures
        match res {
            Ok(len) => city_length(city_type, b_size as int, b_num as int) == Ok::<int, CityError>(
                len as int,
            ),
            Err(e) => city_length(city_type, b_size as int, b_num as int) == Err::<int, CityError>(
                e,
            ),
        },
{
    let period: u64 = b_size as u64 + 4;
    match city_type {
        CityType::Default => {
            let total: u64 = period * (b_num as u64);
            Ok((total - 4) as u32)
        },
        CityType::Bordered => {
            let total: u64 = period * (b_num as u64);
            Ok((total + 2) as u32)
        },
        CityType::Line => Err(CityError::UnsupportedVariant),
    }
}

impl City {
    /// Whether the length along an axis with `b_num` blocks of side `b_size`
    /// can be computed.
    pub fn check_length(city_type: CityType, b_num: u32, b_size: u32) -> (ok: bool)
        ensures
            ok == length_fits(city_type, b_size as int, b_num as int),
    {
        let period: u128 = b_size as u128 + 4;
        assert(period * b_num <= 0x1_0000_0003 * 0xffff_ffff && (b_num >= 1 ==> period * b_num
            >= 4)) by (nonlinear_arith)
            requires
                4 <= period <= 0x1_0000_0003,
                b_num <= 0xffff_ffff,
        ;
        let total: u128 = period * (b_num as u128);
        match city_type {
            CityType::Default => b_num >= 1 && total - 4 <= u32::MAX as u128,
            CityType::Bordered => total + 2 <= u32::MAX as u128,
            CityType::Line => true,
        }
    }

    /// Whether a city with `b_num_x` by `b_num_y` blocks of side `b_size`
    /// can be asked for.
    pub fn check_layout(city_type: CityType, b_num_x: u32, b_num_y: u32, b_size: u32) -> (ok: bool)
        ensures
            ok == buildable(city_type, b_num_x as int, b_num_y as int, b_size as int),
    {
        match city_type {
            CityType::Default => City::check_length(city_type, b_num_x, b_size)
                && City::check_length(city_type, b_num_y, b_size),
            _ => true,
        }
    }

    /// The number of rows of a city with `b_num_x` blocks along the x axis.
    ///
    /// A `Line` city has no size.
    pub fn city_length_x(city_type: CityType, b_num_x: u32, b_size: u32) -> (res: Result<
        u32,
        CityError,
    >)
        requires
            length_fits(city_type, b_size as int, b_num_x as int),
        ensures
            match res {
                Ok(len) => city_length(city_type, b_size as int, b_num_x as int) == Ok::<
                    int,
                    CityError,
                >(len as int),
                Err(e) => city_length(city_type, b_size as int, b_num_x as int) == Err::<
                    int,
                    CityError,
                >(e),
            },
    {
        axis_length(city_type, b_num_x, b_size)
    }

    /// The number of columns of a city with `b_num_y` blocks along the y axis.
    ///
    /// A `Line` city has no size.
    pub fn city_length_y(city_type: CityType, b_num_y: u32, b_size: u32) -> (res: Result<
        u32,
        CityError,
    >)
        requires
            length_fits(city_type, b_size as int, b_num_y as int),
        ensures
            match res {
                Ok(len) => city_length(city_type, b_size as int, b_num_y as int) == Ok::<
                    int,
                    CityError,
                >(len as int),
                Err(e) => city_length(city_type, b_size as int, b_num_y as int) == Err::<
                    int,
                    CityError,
                >(e),
            },
    {
        axis_length(city_type, b_num_y, b_size)
    }
}

} // verus!
