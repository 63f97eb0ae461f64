//! What the bit patterns stand for: numbers, and that they are compared as such.
//!
//! A pattern without its sign holds an exponent above a fraction. The magnitude that it stands
//! for is a whole multiple of the smallest one that the format can hold; here it is counted in
//! that unit, so that it is an integer. Infinity counts as the next larger magnitude.
use crate::scalar::{
    clamped, coordinate_is_at_most, coordinate_is_less, coordinate_is_nan, coordinate_magnitude,
    is_at_most, is_less, is_nan, magnitude, raised, Coordinate, Scalar,
};
use vstd::arithmetic::div_mod::{lemma_div_is_ordered, lemma_fundamental_div_mod};
use vstd::arithmetic::power2::{
    lemma_pow2_pos, lemma_pow2_strictly_increases, lemma_pow2_unfold, pow2,
};
use vstd::prelude::*;

verus! {

/// The magnitude of a pattern without its sign, where fractions lie below `fractions`: below
/// the smallest exponent the fraction itself, above it the fraction with a leading one, doubled
/// with every step of the exponent.
pub open spec fn units(pattern: int, fractions: int) -> int {
    let exponent = pattern / fractions;
    let fraction = pattern % fractions;
    if exponent == 0 {
        fraction
    } else {
        (fractions + fraction) * pow2((exponent - 1) as nat)
    }
}

/// Whether a single precision pattern stands for a number: not if its exponent is the largest
/// and it has a fraction.
pub open spec fn has_number(x: Scalar) -> bool {
    let pattern = x as int % 0x8000_0000;
    pattern / 0x80_0000 < 255 || pattern % 0x80_0000 == 0
}

/// The number that a single precision pattern stands for, in units of 2^-149.
pub open spec fn number(x: Scalar) -> int {
    let size = units(x as int % 0x8000_0000, 0x80_0000);
    if x as int / 0x8000_0000 == 0 {
        size
    } else {
        -size
    }
}

/// Whether a double precision pattern stands for a number.
pub open spec fn coordinate_has_number(x: Coordinate) -> bool {
    let pattern = x as int % 0x8000_0000_0000_0000;
    pattern / 0x10_0000_0000_0000 < 2047 || pattern % 0x10_0000_0000_0000 == 0
}

/// The number that a double precision pattern stands for, in units of 2^-1074.
pub open spec fn coordinate_number(x: Coordinate) -> int {
    let size = units(x as int % 0x8000_0000_0000_0000, 0x10_0000_0000_0000);
    if x as int / 0x8000_0000_0000_0000 == 0 {
        size
    } else {
        -size
    }
}

/// Larger patterns stand for larger magnitudes, and the pattern zero for none.
proof fn lemma_units_increase(one: int, other: int, fractions: int)
    requires
        0 <= one < other,
        fractions > 0,
    ensures
        0 <= units(one, fractions) < units(other, fractions),
        units(0, fractions) == 0,
{
    let e = one / fractions;
    let r = one % fractions;
    let f = other / fractions;
    let s = other % fractions;
    lemma_fundamental_div_mod(one, fractions);
    lemma_fundamental_div_mod(other, fractions);
    lemma_div_is_ordered(one, other, fractions);
    assert(0 <= e) by (nonlinear_arith)
        requires
            e == one / fractions,
            0 <= one,
            fractions > 0,
    ;
    assert(0int / fractions == 0 && 0int % fractions == 0) by (nonlinear_arith)
        requires
            fractions > 0,
    ;
    assert(0 <= r < fractions && 0 <= s < fractions);
    if e > 0 {
        lemma_pow2_pos((e - 1) as nat);
    }
    if f > 0 {
        lemma_pow2_pos((f - 1) as nat);
    }
    if e == f {
        if e > 0 {
            let p = pow2((e - 1) as nat) as int;
            assert(0 <= (fractions + r) * p < (fractions + s) * p) by (nonlinear_arith)
                requires
                    0 <= r < s,
                    fractions > 0,
                    p > 0,
            ;
        }
    } else if e == 0 {
        let q = pow2((f - 1) as nat) as int;
        assert(r < (fractions + s) * q) by (nonlinear_arith)
            requires
                0 <= r < fractions,
                0 <= s,
                q >= 1,
        ;
    } else {
        let p = pow2((e - 1) as nat) as int;
        let q = pow2((f - 1) as nat) as int;
        lemma_pow2_unfold(e as nat);
        if e < f - 1 {
            lemma_pow2_strictly_increases(e as nat, (f - 1) as nat);
        }
        assert(0 <= (fractions + r) * p < (fractions + s) * q) by (nonlinear_arith)
            requires
                0 <= r < fractions,
                0 <= s,
                p > 0,
                q >= 2 * p,
        ;
    }
}

proof fn lemma_units_order(one: int, other: int, fractions: int)
    requires
        0 <= one,
        0 <= other,
        fractions > 0,
    ensures
        units(one, fractions) >= 0,
        units(one, fractions) == 0 <==> one == 0,
        units(one, fractions) < units(other, fractions) <==> one < other,
        units(one, fractions) <= units(other, fractions) <==> one <= other,
{
    lemma_units_increase(one, one + 1, fractions);
    if one > 0 {
        lemma_units_increase(0, one, fractions);
    }
    if one < other {
        lemma_units_increase(one, other, fractions);
    }
    if other < one {
        lemma_units_increase(other, one, fractions);
    }
}

/// Single precision patterns compare as the numbers that they stand for.
pub proof fn law_scalars_are_ordered_as_numbers(x: Scalar, y: Scalar)
    ensures
        is_nan(x) <==> !has_number(x),
        is_less(x, y) <==> has_number(x) && has_number(y) && number(x) < number(y),
        is_at_most(x, y) <==> has_number(x) && has_number(y) && number(x) <= number(y),
{
    let p = x as int % 0x8000_0000;
    let q = y as int % 0x8000_0000;
    lemma_units_order(p, q, 0x80_0000);
    lemma_units_order(q, p, 0x80_0000);
}

/// The magnitude of a single precision number is its absolute value.
pub proof fn law_magnitudes_are_absolute_values(x: Scalar)
    ensures
        has_number(magnitude(x)) <==> has_number(x),
        number(x) >= 0 ==> number(magnitude(x)) == number(x),
        number(x) < 0 ==> number(magnitude(x)) == -number(x),
{
    let p = x as int % 0x8000_0000;
    lemma_units_order(p, p, 0x80_0000);
}

/// To clamp a number is to take the nearest one of the range, and to raise it is to take the
/// larger of two. What is no number stays so when clamped, and gives way when raised.
pub proof fn law_clamping_takes_the_nearest(x: Scalar, low: Scalar, high: Scalar)
    requires
        has_number(low),
        has_number(high),
        number(low) <= number(high),
    ensures
        !has_number(x) ==> clamped(x, low, high) == x && raised(x, low) == low,
        has_number(x) && number(x) < number(low) ==> clamped(x, low, high) == low && raised(x, low)
            == low,
        has_number(x) && number(low) <= number(x) ==> raised(x, low) == x,
        has_number(x) && number(high) < number(x) ==> clamped(x, low, high) == high,
        has_number(x) && number(low) <= number(x) <= number(high) ==> clamped(x, low, high) == x,
{
    law_scalars_are_ordered_as_numbers(x, low);
    law_scalars_are_ordered_as_numbers(low, x);
    law_scalars_are_ordered_as_numbers(high, x);
}

/// Double precision patterns compare as the numbers that they stand for.
pub proof fn law_coordinates_are_ordered_as_numbers(x: Coordinate, y: Coordinate)
    ensures
        coordinate_is_nan(x) <==> !coordinate_has_number(x),
        coordinate_is_less(x, y) <==> coordinate_has_number(x) && coordinate_has_number(y)
            && coordinate_number(x) < coordinate_number(y),
        coordinate_is_at_most(x, y) <==> coordinate_has_number(x) && coordinate_has_number(y)
            && coordinate_number(x) <= coordinate_number(y),
{
    let p = x as int % 0x8000_0000_0000_0000;
    let q = y as int % 0x8000_0000_0000_0000;
    lemma_units_order(p, q, 0x10_0000_0000_0000);
    lemma_units_order(q, p, 0x10_0000_0000_0000);
}

/// The magnitude of a double precision number is its absolute value.
pub proof fn law_coordinate_magnitudes_are_absolute_values(x: Coordinate)
    ensures
        coordinate_has_number(coordinate_magnitude(x)) <==> coordinate_has_number(x),
        coordinate_number(x) >= 0 ==> coordinate_number(coordinate_magnitude(x))
            == coordinate_number(x),
        coordinate_number(x) < 0 ==> coordinate_number(coordinate_magnitude(x))
            == -coordinate_number(x),
{
    let p = x as int % 0x8000_0000_0000_0000;
    lemma_units_order(p, p, 0x10_0000_0000_0000);
}

} // verus!
