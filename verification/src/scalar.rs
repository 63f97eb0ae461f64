//! Single and double precision numbers, carried by their IEEE 754 bit patterns.
//!
//! Arithmetic on them belongs to the caller. What this crate decides about them is
//! how two of them compare, and for that the bit patterns are enough: without its
//! sign bit a pattern grows with the magnitude that it stands for.
use vstd::prelude::*;

verus! {

/// A single precision number, as its bit pattern.
pub type Scalar = u32;

/// A double precision number, as its bit pattern.
pub type Coordinate = u64;

pub const SCALAR_SIGN: u32 = 0x8000_0000;

pub const SCALAR_INFINITY: u32 = 0x7f80_0000;

pub const COORDINATE_SIGN: u64 = 0x8000_0000_0000_0000;

pub const COORDINATE_INFINITY: u64 = 0x7ff0_0000_0000_0000;

/// 0.0
pub const ZERO: Scalar = 0;

/// 1.0
pub const ONE: Scalar = 0x3f80_0000;

/// The pattern of the absolute value of `x`.
pub open spec fn magnitude(x: Scalar) -> Scalar {
    if x < SCALAR_SIGN {
        x
    } else {
        (x - SCALAR_SIGN) as Scalar
    }
}

/// Whether `x` is no number.
pub open spec fn is_nan(x: Scalar) -> bool {
    magnitude(x) > SCALAR_INFINITY
}

/// An integer that orders the numbers that are not NaN; both zeros have rank 0.
pub open spec fn rank(x: Scalar) -> int {
    if x < SCALAR_SIGN {
        x as int
    } else {
        -magnitude(x)
    }
}

/// `x < y`; never so if one of them is NaN.
pub open spec fn is_less(x: Scalar, y: Scalar) -> bool {
    !is_nan(x) && !is_nan(y) && rank(x) < rank(y)
}

/// `x <= y`; never so if one of them is NaN.
pub open spec fn is_at_most(x: Scalar, y: Scalar) -> bool {
    !is_nan(x) && !is_nan(y) && rank(x) <= rank(y)
}

/// The number of the range from `low` to `high` that lies nearest to `x`; NaN stays NaN.
pub open spec fn clamped(x: Scalar, low: Scalar, high: Scalar) -> Scalar {
    if is_less(x, low) {
        low
    } else if is_less(high, x) {
        high
    } else {
        x
    }
}

/// The larger of `x` and `floor`, where `floor` also stands in for NaN.
pub open spec fn raised(x: Scalar, floor: Scalar) -> Scalar {
    if is_nan(x) || is_less(x, floor) {
        floor
    } else {
        x
    }
}

/// Takes the sign off `x`.
pub fn absolute(x: Scalar) -> (r: Scalar)
    ensures
        r == magnitude(x),
        is_nan(r) == is_nan(x),
        rank(r) >= 0,
{
    if x < SCALAR_SIGN {
        x
    } else {
        x - SCALAR_SIGN
    }
}

/// Decides whether `x` is no number.
pub fn nan(x: Scalar) -> (r: bool)
    ensures
        r == is_nan(x),
{
    absolute(x) > SCALAR_INFINITY
}

/// Decides `x < y`.
pub fn less(x: Scalar, y: Scalar) -> (r: bool)
    ensures
        r == is_less(x, y),
{
    if nan(x) || nan(y) {
        false
    } else if x < SCALAR_SIGN {
        y < SCALAR_SIGN && x < y
    } else if y < SCALAR_SIGN {
        x != SCALAR_SIGN || y != 0
    } else {
        y < x
    }
}

/// Decides `x <= y`.
pub fn at_most(x: Scalar, y: Scalar) -> (r: bool)
    ensures
        r == is_at_most(x, y),
{
    !nan(x) && !nan(y) && !less(y, x)
}

/// Brings `x` into the range from `low` to `high`.
pub fn clamp(x: Scalar, low: Scalar, high: Scalar) -> (r: Scalar)
    requires
        is_at_most(low, high),
    ensures
        r == clamped(x, low, high),
        is_nan(x) ==> r == x,
        !is_nan(x) ==> is_at_most(low, r) && is_at_most(r, high),
{
    if less(x, low) {
        low
    } else if less(high, x) {
        high
    } else {
        x
    }
}

/// Picks the larger of `x` and `floor`.
pub fn raise(x: Scalar, floor: Scalar) -> (r: Scalar)
    requires
        !is_nan(floor),
    ensures
        r == raised(x, floor),
        is_at_most(floor, r),
{
    if nan(x) || less(x, floor) {
        floor
    } else {
        x
    }
}

/// The pattern of the absolute value of `x`.
pub open spec fn coordinate_magnitude(x: Coordinate) -> Coordinate {
    if x < COORDINATE_SIGN {
        x
    } else {
        (x - COORDINATE_SIGN) as Coordinate
    }
}

/// Whether `x` is no number.
pub open spec fn coordinate_is_nan(x: Coordinate) -> bool {
    coordinate_magnitude(x) > COORDINATE_INFINITY
}

/// An integer that orders the coordinates that are not NaN; both zeros have rank 0.
pub open spec fn coordinate_rank(x: Coordinate) -> int {
    if x < COORDINATE_SIGN {
        x as int
    } else {
        -coordinate_magnitude(x)
    }
}

/// `x < y`; never so if one of them is NaN.
pub open spec fn coordinate_is_less(x: Coordinate, y: Coordinate) -> bool {
    !coordinate_is_nan(x) && !coordinate_is_nan(y) && coordinate_rank(x) < coordinate_rank(y)
}

/// `x <= y`; never so if one of them is NaN.
pub open spec fn coordinate_is_at_most(x: Coordinate, y: Coordinate) -> bool {
    !coordinate_is_nan(x) && !coordinate_is_nan(y) && coordinate_rank(x) <= coordinate_rank(y)
}

/// Takes the sign off `x`.
pub fn coordinate_absolute(x: Coordinate) -> (r: Coordinate)
    ensures
        r == coordinate_magnitude(x),
{
    if x < COORDINATE_SIGN {
        x
    } else {
        x - COORDINATE_SIGN
    }
}

/// Decides `x < y`.
pub fn coordinate_less(x: Coordinate, y: Coordinate) -> (r: bool)
    ensures
        r == coordinate_is_less(x, y),
{
    if coordinate_absolute(x) > COORDINATE_INFINITY || coordinate_absolute(y)
        > COORDINATE_INFINITY {
        false
    } else if x < COORDINATE_SIGN {
        y < COORDINATE_SIGN && x < y
    } else if y < COORDINATE_SIGN {
        x != COORDINATE_SIGN || y != 0
    } else {
        y < x
    }
}

/// Decides `x <= y`.
pub fn coordinate_at_most(x: Coordinate, y: Coordinate) -> (r: bool)
    ensures
        r == coordinate_is_at_most(x, y),
{
    coordinate_absolute(x) <= COORDINATE_INFINITY && coordinate_absolute(y) <= COORDINATE_INFINITY
        && !coordinate_less(y, x)
}

} // verus!
