//! The arithmetic on singles gives the nearest single there is.
use vstd::prelude::*;

use crate::rounding::{law_rounding_is_to_the_nearest, one};
use crate::single::{scaled_magnitude, Single};

verus! {

/// No single lies nearer to an integer than the one that it is converted to.
pub proof fn law_conversion_gives_the_nearest(x: u32, r: Single, other: int)
    requires
        call_ensures(Single::from_u32, (x,), r),
        0 <= other <= 0x7f80_0000,
    ensures
        vstd::math::abs(r.scaled() - x * one()) <= vstd::math::abs(
            scaled_magnitude(other) - x * one(),
        ),
{
    law_rounding_is_to_the_nearest(r.0 as int, x * one(), 1, other);
}

/// No single lies nearer to a quotient than the one given.
pub proof fn law_division_gives_the_nearest(a: Single, b: Single, r: Single, other: int)
    requires
        a.is_moderate(),
        b.is_moderate(),
        b.0 != 0,
        call_ensures(Single::divided_by, (a, b), r),
        0 <= other <= 0x7f80_0000,
    ensures
        vstd::math::abs(r.scaled() * b.scaled() - a.scaled() * one()) <= vstd::math::abs(
            scaled_magnitude(other) * b.scaled() - a.scaled() * one(),
        ),
{
    crate::rounding::lemma_scaled_magnitude_ordered(0, b.0 as int);
    assert(scaled_magnitude(0) == 0);
    law_rounding_is_to_the_nearest(r.0 as int, a.scaled() * one(), b.scaled(), other);
}

/// No single lies nearer to a product than the one given.
pub proof fn law_multiplication_gives_the_nearest(a: Single, b: Single, r: Single, other: int)
    requires
        a.is_moderate(),
        b.is_moderate(),
        a.0 != 0 && b.0 != 0 ==> a.0 + b.0 >= 0x4c00_0000,
        call_ensures(Single::times, (a, b), r),
        0 <= other <= 0x7f80_0000,
    ensures
        vstd::math::abs(r.scaled() * one() - a.scaled() * b.scaled()) <= vstd::math::abs(
            scaled_magnitude(other) * one() - a.scaled() * b.scaled(),
        ),
{
    vstd::arithmetic::power2::lemma_pow2_pos(149);
    law_rounding_is_to_the_nearest(r.0 as int, a.scaled() * b.scaled(), one(), other);
}

/// No single lies nearer to a sum than the one given.
pub proof fn law_addition_gives_the_nearest(a: Single, b: Single, r: Single, other: int)
    requires
        a.is_moderate(),
        b.is_moderate(),
        a.0 != 0 && b.0 != 0 ==> a.is_near(b),
        call_ensures(Single::plus, (a, b), r),
        0 <= other <= 0x7f80_0000,
    ensures
        vstd::math::abs(r.scaled() - (a.scaled() + b.scaled())) <= vstd::math::abs(
            scaled_magnitude(other) - (a.scaled() + b.scaled()),
        ),
{
    law_rounding_is_to_the_nearest(r.0 as int, a.scaled() + b.scaled(), 1, other);
}

/// No single lies nearer to a difference than the one given, on its side of zero.
pub proof fn law_subtraction_gives_the_nearest(a: Single, b: Single, r: Single, other: int)
    requires
        a.is_moderate(),
        b.is_moderate(),
        a.0 != 0 && b.0 != 0 ==> a.is_near(b),
        call_ensures(Single::minus, (a, b), r),
        0 <= other <= 0x7f80_0000,
    ensures
        a.scaled() >= b.scaled() ==> r.scaled() >= 0,
        a.scaled() <= b.scaled() ==> r.scaled() <= 0,
        vstd::math::abs(r.scaled() - (a.scaled() - b.scaled())) <= vstd::math::abs(
            scaled_magnitude(other) - vstd::math::abs(a.scaled() - b.scaled()),
        ),
{
    assert(scaled_magnitude(0) == 0);
    crate::rounding::lemma_scaled_magnitude_ordered(0, r.magnitude());
    let d = a.scaled() - b.scaled();
    if d >= 0 {
        law_rounding_is_to_the_nearest(r.0 as int, d, 1, other);
        law_rounding_is_to_the_nearest(r.0 as int, d, 1, 0);
    } else {
        law_rounding_is_to_the_nearest(r.0 - 0x8000_0000, -d, 1, other);
    }
}

/// A number loses its fraction and nothing else, as far as 32 bits hold it.
pub proof fn law_truncation_drops_the_fraction(a: Single, r: u32)
    requires
        a.0 < 0x7f80_0000,
        call_ensures(Single::to_u32, (a,), r),
    ensures
        r * one() <= a.scaled(),
        r < u32::MAX ==> a.scaled() < (r + 1) * one(),
{
    let c = one();
    vstd::arithmetic::power2::lemma_pow2_pos(149);
    assert(scaled_magnitude(0) == 0);
    crate::rounding::lemma_scaled_magnitude_ordered(0, a.0 as int);
    let whole = a.scaled() / c;
    vstd::arithmetic::div_mod::lemma_fundamental_div_mod(a.scaled(), c);
    assert(r * c <= c * whole) by (nonlinear_arith)
        requires
            r <= whole,
            0 < c,
    ;
    if r < u32::MAX {
        assert((r + 1) * c == c * whole + c) by (nonlinear_arith)
            requires
                r == whole,
        ;
    }
}

/// Comparisons are those of the numbers, and false where one is not a number.
pub proof fn law_comparisons_are_of_the_numbers(a: Single, b: Single, lt: bool, le: bool)
    requires
        call_ensures(Single::lt, (a, b), lt),
        call_ensures(Single::le, (a, b), le),
    ensures
        lt <==> !a.is_nan() && !b.is_nan() && a.scaled() < b.scaled(),
        le <==> !a.is_nan() && !b.is_nan() && a.scaled() <= b.scaled(),
{
}

} // verus!
