//! What Halton values are: the digits of the index mirrored about the point.
//!
//! In base 2 the single-precision sum is that number itself, as long as 24 digits hold it;
//! in base 3 it lies close to it.
use vstd::arithmetic::power2::{lemma_pow2_adds, lemma_pow2_pos, lemma_pow2_unfold, pow2};
use vstd::prelude::*;

use crate::arith::{difference, from_integer, lemma_power_pattern, product, quotient, sum};
use crate::halton::{halton_from, halton_value};
use crate::halton_bounds::{
    lemma_third_caps_are_below_one, lemma_third_step, lemma_third_weight, lemma_twice, third_cap,
    third_place, third_weight,
};
use crate::jitter::{jitter_offset, jitter_offsets, texel_offset, texel_offsets};
use crate::rounding::{
    lemma_exact, lemma_nearest_exists, lemma_nearest_is_exact, lemma_pattern_size,
    lemma_rounds_to_at_most, lemma_rounds_to_relative, lemma_scaled_magnitude_ordered,
    nearest_size, one, rounds_to,
};
use crate::single::{scaled_magnitude, Single};

verus! {

/// The base to the power of the number of digits of `index`.
pub open spec fn mirror_den(index: nat, base: nat) -> nat
    decreases index,
{
    if index == 0 || base < 2 {
        1
    } else {
        proof {
            vstd::arithmetic::div_mod::lemma_div_decreases(index as int, base as int);
        }
        base * mirror_den(index / base, base)
    }
}

/// The digits of `index` in reverse. Over [`mirror_den`] it is the radical inverse of
/// `index`: the digit at place `k` weighs one over the base to the power of `k + 1`.
pub open spec fn mirror_num(index: nat, base: nat) -> nat
    decreases index,
{
    if index == 0 || base < 2 {
        0
    } else {
        proof {
            vstd::arithmetic::div_mod::lemma_div_decreases(index as int, base as int);
        }
        (index % base) * mirror_den(index / base, base) + mirror_num(index / base, base)
    }
}

/// A radical inverse lies below one.
proof fn lemma_mirror_is_below_one(index: nat, base: nat)
    requires
        base >= 2,
    ensures
        mirror_num(index, base) < mirror_den(index, base),
    decreases index,
{
    if index > 0 {
        vstd::arithmetic::div_mod::lemma_div_decreases(index as int, base as int);
        lemma_mirror_is_below_one(index / base, base);
        let (n, d) = (mirror_num(index / base, base) as int, mirror_den(index / base, base) as int);
        let (digit, b) = ((index % base) as int, base as int);
        assert(digit * d + n < b * d) by (nonlinear_arith)
            requires
                0 <= digit <= b - 1,
                0 <= n < d,
        ;
    }
}

/// Zero is its own nearest single.
proof fn lemma_nearest_zero(den: int)
    requires
        den > 0,
    ensures
        nearest_size(0, den) == 0,
{
    assert(scaled_magnitude(0) == 0);
    assert(0 * den == 0) by (nonlinear_arith);
    lemma_exact(0, 0, den);
}

/// Integers up to three are singles.
proof fn lemma_digit(d: int)
    requires
        0 <= d <= 3,
    ensures
        from_integer(d).scaled() == d * one(),
        from_integer(d).0 < 0x7f80_0000,
        rounds_to(from_integer(d).0 as int, d * one(), 1),
{
    lemma_pow2_pos(149);
    assert(d * one() >= 0) by (nonlinear_arith)
        requires
            d >= 0,
            one() > 0,
    ;
    lemma_nearest_exists(d * one(), 1);
    if d == 0 {
        assert(0 * one() == 0) by (nonlinear_arith);
        lemma_nearest_zero(1);
        assert(scaled_magnitude(0) == 0);
    } else {
        lemma_nearest_is_exact(d, 149, d * one(), 1);
    }
}

/// One digit in base 2: the weight is halved, and the digit's share of it is exact.
proof fn lemma_half_digit(k: nat, d: int)
    requires
        k <= 24,
        0 <= d <= 1,
    ensures
        quotient(Single(((127 - k) * 0x80_0000) as u32), from_integer(2)) == Single(
            ((127 - (k + 1)) * 0x80_0000) as u32,
        ),
        product(Single(((127 - (k + 1)) * 0x80_0000) as u32), from_integer(d)).scaled() == d * pow2(
            (148 - k) as nat,
        ),
{
    let (unit, half) = (pow2((149 - k) as nat) as int, pow2((148 - k) as nat) as int);
    let c = one();
    lemma_pow2_unfold((149 - k) as nat);
    lemma_pow2_pos((148 - k) as nat);
    lemma_pow2_pos(149);
    let next = Single(((127 - (k + 1)) * 0x80_0000) as u32);
    lemma_power_pattern(127 - k);
    lemma_power_pattern(127 - (k + 1));
    lemma_digit(2);
    lemma_digit(d);
    assert(unit * c == half * (2 * c) && unit * c >= 0) by (nonlinear_arith)
        requires
            unit == 2 * half,
            half > 0,
            c > 0,
    ;
    lemma_exact(next.0 as int, unit * c, 2 * c);
    if d == 0 {
        assert(half * (0 * c) == 0 && 0 * half == 0) by (nonlinear_arith);
        lemma_nearest_zero(c);
        assert(scaled_magnitude(0) == 0);
    } else {
        assert(half * (1 * c) == half * c && half * c >= 0 && 1 * half == half) by (nonlinear_arith)
            requires
                half > 0,
                c > 0,
        ;
        lemma_exact(next.0 as int, half * c, c);
    }
}

/// The sum in base 2 from a point on, while 24 digits hold it: nothing is rounded. `m` is
/// the sum so far, in units of the last weight. Returns the whole sum in units of two to
/// the power of -24.
proof fn lemma_halves(index: nat, k: nat, m: int, result: Single) -> (whole: int)
    requires
        k <= 24,
        index < pow2((24 - k) as nat),
        0 <= m < pow2(k),
        result.scaled() == m * pow2((149 - k) as nat),
    ensures
        ({
            let h = halton_from(index, 2, Single(((127 - k) * 0x80_0000) as u32), result).scaled();
            &&& h * mirror_den(index, 2) == result.scaled() * mirror_den(index, 2) + mirror_num(
                index,
                2,
            ) * pow2((149 - k) as nat)
            &&& h == whole * pow2(125)
        }),
        0 <= whole < 0x100_0000,
    decreases index,
{
    let unit = pow2((149 - k) as nat) as int;
    vstd::arithmetic::power2::lemma2_to64();
    if index == 0 {
        let w = pow2((24 - k) as nat) as int;
        lemma_pow2_adds((24 - k) as nat, 125);
        lemma_pow2_adds(k, (24 - k) as nat);
        lemma_pow2_pos((24 - k) as nat);
        let u = pow2(125) as int;
        assert((m * w) * u == m * (w * u)) by (nonlinear_arith);
        let top = pow2(k) as int;
        assert(0 <= m * w < top * w) by (nonlinear_arith)
            requires
                0 <= m < top,
                0 < w,
        ;
        assert(result.scaled() * 1 == result.scaled() * 1 + 0 * unit) by (nonlinear_arith);
        m * w
    } else {
        assert(k < 24);
        let d = (index % 2) as int;
        let half = pow2((148 - k) as nat) as int;
        lemma_pow2_unfold((149 - k) as nat);
        lemma_pow2_unfold((24 - k) as nat);
        lemma_pow2_unfold(k + 1);
        lemma_pow2_pos((148 - k) as nat);
        lemma_pow2_pos(149);
        let weight = Single(((127 - k) * 0x80_0000) as u32);
        let next = Single(((127 - (k + 1)) * 0x80_0000) as u32);
        let addend = product(next, from_integer(d));
        lemma_half_digit(k, d);
        // The sum.
        let sum_now = sum(result, addend);
        let n = 2 * m + d;
        assert(m * unit + d * half == n * half) by (nonlinear_arith)
            requires
                unit == 2 * half,
                n == 2 * m + d,
        ;
        lemma_pow2_pos(k);
        assert(pow2(k + 1) <= 0x100_0000) by {
            crate::arith::lemma_pow2_ordered(k + 1, 24);
        }
        assert(sum_now.scaled() == n * half) by {
            if n == 0 {
                assert(0 * half == 0) by (nonlinear_arith);
                lemma_nearest_zero(1);
                assert(scaled_magnitude(0) == 0);
            } else {
                lemma_nearest_is_exact(n, 148 - k, n * half, 1);
            }
        }
        let whole = lemma_halves(index / 2, k + 1, n, sum_now);
        let h = halton_from(index / 2, 2, next, sum_now).scaled();
        assert(halton_from(index, 2, weight, result) == halton_from(index / 2, 2, next, sum_now));
        let (q, t) = (mirror_den(index / 2, 2) as int, mirror_num(index / 2, 2) as int);
        let r = result.scaled();
        assert(h * (2 * q) == r * (2 * q) + (d * q + t) * unit) by (nonlinear_arith)
            requires
                h * q == (r + d * half) * q + t * half,
                unit == 2 * half,
        ;
        whole
    }
}

/// The sequence starts at zero, in any base.
pub proof fn law_halton_starts_at_zero(base: nat)
    ensures
        halton_value(0, base).scaled() == 0,
{
    assert(scaled_magnitude(0) == 0);
}

/// In base 2, while 24 digits hold it, a Halton value is the radical inverse itself.
pub proof fn law_halton_two_is_the_radical_inverse(index: nat)
    requires
        index < 0x100_0000,
    ensures
        halton_value(index, 2).scaled() * mirror_den(index, 2) == mirror_num(index, 2) * one(),
        0 <= halton_value(index, 2).scaled() < one(),
{
    vstd::arithmetic::power2::lemma2_to64();
    assert(scaled_magnitude(0) == 0);
    assert(0 * pow2(149) == 0) by (nonlinear_arith);
    assert(0 * mirror_den(index, 2) == 0) by (nonlinear_arith);
    let whole = lemma_halves(index, 0, 0, Single(0));
    lemma_pow2_adds(24, 125);
    lemma_pow2_pos(125);
    let u = pow2(125) as int;
    assert(0 <= whole * u < 0x100_0000 * u) by (nonlinear_arith)
        requires
            0 <= whole < 0x100_0000,
            0 < u,
    ;
}

/// The Halton sequence in base 2 fills each half as it fills the whole: an even index gives
/// half the value of its half, an odd one one half more.
pub proof fn law_halton_two_fills_the_halves(index: nat)
    requires
        2 * index + 1 < 0x100_0000,
    ensures
        2 * halton_value(2 * index, 2).scaled() == halton_value(index, 2).scaled(),
        2 * halton_value(2 * index + 1, 2).scaled() == one() + halton_value(index, 2).scaled(),
{
    law_halton_two_is_the_radical_inverse(index);
    law_halton_two_is_the_radical_inverse(2 * index);
    law_halton_two_is_the_radical_inverse(2 * index + 1);
    lemma_mirror_is_below_one(index, 2);
    let (h, e, o) = (
        halton_value(index, 2).scaled(),
        halton_value(2 * index, 2).scaled(),
        halton_value(2 * index + 1, 2).scaled(),
    );
    let (q, t, c) = (mirror_den(index, 2) as int, mirror_num(index, 2) as int, one());
    assert((2 * index) / 2 == index && (2 * index) % 2 == 0);
    assert((2 * index + 1) / 2 == index && (2 * index + 1) % 2 == 1);
    assert(mirror_den(2 * index + 1, 2) == 2 * q);
    assert(mirror_num(2 * index + 1, 2) == 1 * q + t);
    assert(2 * o == c + h) by (nonlinear_arith)
        requires
            o * (2 * q) == (1 * q + t) * c,
            h * q == t * c,
            q > 0,
    ;
    if index == 0 {
        assert(e == h);
        assert(h == 0) by (nonlinear_arith)
            requires
                h * q == t * c,
                t == 0,
                q == 1,
        ;
    } else {
        assert(mirror_den(2 * index, 2) == 2 * q);
        assert(0 * q == 0) by (nonlinear_arith);
        assert(mirror_num(2 * index, 2) == t);
        assert(2 * e == h) by (nonlinear_arith)
            requires
                e * (2 * q) == t * c,
                h * q == t * c,
                q > 0,
        ;
    }
}

/// No two indices below two to the power of 24 have the same Halton value in base 2.
pub proof fn law_halton_two_values_are_distinct(a: nat, b: nat)
    requires
        a < 0x100_0000,
        b < 0x100_0000,
        halton_value(a, 2).scaled() == halton_value(b, 2).scaled(),
    ensures
        a == b,
    decreases a + b,
{
    if a + b > 0 {
        law_halton_two_fills_the_halves(a / 2);
        law_halton_two_fills_the_halves(b / 2);
        law_halton_two_is_the_radical_inverse(a / 2);
        law_halton_two_is_the_radical_inverse(b / 2);
        assert(a == 2 * (a / 2) || a == 2 * (a / 2) + 1);
        assert(b == 2 * (b / 2) || b == 2 * (b / 2) + 1);
        assert(a % 2 == b % 2);
        law_halton_two_values_are_distinct(a / 2, b / 2);
    }
}

/// Two to the power of 24 has one digit that is not zero: its value is a power of two too.
proof fn lemma_last_power(k: nat)
    requires
        k <= 24,
    ensures
        halton_from(
            pow2((24 - k) as nat),
            2,
            Single(((127 - k) * 0x80_0000) as u32),
            Single(0),
        ).scaled() == pow2(124),
    decreases 24 - k,
{
    vstd::arithmetic::power2::lemma2_to64();
    assert(scaled_magnitude(0) == 0);
    let index = pow2((24 - k) as nat);
    let next = Single(((127 - (k + 1)) * 0x80_0000) as u32);
    if k == 24 {
        lemma_half_digit(k, 1);
        lemma_pow2_pos(124);
        lemma_nearest_is_exact(1, 124, pow2(124) as int, 1);
        let last = sum(Single(0), product(next, from_integer(1)));
        assert(halton_from(0, 2, next, last) == last);
    } else {
        lemma_pow2_unfold((24 - k) as nat);
        lemma_pow2_pos((24 - k) as nat);
        assert(index % 2 == 0 && index / 2 == pow2((24 - (k + 1)) as nat));
        lemma_half_digit(k, 0);
        assert(0 * pow2((148 - k) as nat) == 0) by (nonlinear_arith);
        lemma_nearest_zero(1);
        assert(sum(Single(0), product(next, from_integer(0))) == Single(0));
        lemma_last_power(k + 1);
    }
}

/// Up to an index of two to the power of 24, an offset along the first axis is the Halton
/// value less one half, with nothing rounded, and nothing has to be kept below one.
pub proof fn law_first_axis_is_centered_exactly(index: nat)
    requires
        index <= 0x100_0000,
    ensures
        jitter_offset(index).0.scaled() == halton_value(index, 2).scaled() - pow2(148),
        texel_offset(index) == jitter_offset(index),
{
    vstd::arithmetic::power2::lemma2_to64();
    lemma_power_pattern(126);
    if index == 0x100_0000 {
        lemma_last_power(0);
        lemma_pow2_adds(24, 124);
        lemma_pow2_adds(25, 124);
        lemma_pow2_pos(124);
        let u = pow2(124) as int;
        lemma_nearest_is_exact(0xff_ffff, 124, 0xff_ffff * u, 1);
        lemma_nearest_exists(0xff_ffff * u, 1);
    } else {
        law_halton_two_is_the_radical_inverse(index);
        assert(scaled_magnitude(0) == 0);
        assert(0 * pow2(149) == 0) by (nonlinear_arith);
        let whole = lemma_halves(index, 0, 0, Single(0));
        let h = halton_value(index, 2);
        let u = pow2(125) as int;
        lemma_pow2_adds(23, 125);
        let n = whole - 0x80_0000;
        assert(h.scaled() - pow2(148) == n * u) by (nonlinear_arith)
            requires
                h.scaled() == whole * u,
                pow2(148) == 0x80_0000 * u,
                n == whole - 0x80_0000,
        ;
        lemma_pow2_pos(125);
        if n > 0 {
            assert(n * u > 0) by (nonlinear_arith)
                requires
                    n > 0,
                    u > 0,
            ;
            lemma_nearest_is_exact(n, 125, n * u, 1);
        } else if n == 0 {
            assert(0 * u == 0) by (nonlinear_arith);
            lemma_nearest_zero(1);
        } else {
            let k = -n;
            assert(-(n * u) == k * u && k * u > 0) by (nonlinear_arith)
                requires
                    k == -n,
                    k > 0,
                    u > 0,
            ;
            lemma_nearest_is_exact(k, 125, k * u, 1);
            lemma_nearest_exists(k * u, 1);
        }
    }
}

/// Of up to two to the power of 24 positions none has to be kept in the texel: both patterns
/// are the same.
pub proof fn law_short_patterns_are_texel_patterns(count: nat)
    requires
        count <= 0x100_0000,
    ensures
        texel_offsets(count) == jitter_offsets(count),
{
    assert forall|i: int| 0 <= i < count implies #[trigger] texel_offsets(count)[i]
        == jitter_offsets(count)[i] by {
        law_first_axis_is_centered_exactly((i + 1) as nat);
    }
    assert(texel_offsets(count) =~= jitter_offsets(count));
}

/// No position of a pattern of up to two to the power of 24 repeats another: along the first
/// axis all are distinct.
pub proof fn law_positions_are_distinct(count: nat, i: int, j: int)
    requires
        count <= 0x100_0000,
        0 <= i < j < count,
    ensures
        jitter_offsets(count)[i].0.scaled() != jitter_offsets(count)[j].0.scaled(),
        jitter_offsets(count)[i].0 != jitter_offsets(count)[j].0,
{
    law_first_axis_is_centered_exactly((i + 1) as nat);
    law_first_axis_is_centered_exactly((j + 1) as nat);
    if j == 0xff_ffff {
        // The last value is half a unit of the others.
        vstd::arithmetic::power2::lemma2_to64();
        assert(scaled_magnitude(0) == 0);
        assert(0 * pow2(149) == 0) by (nonlinear_arith);
        let whole = lemma_halves((i + 1) as nat, 0, 0, Single(0));
        lemma_last_power(0);
        lemma_pow2_unfold(125);
        lemma_pow2_pos(124);
        let u = pow2(124) as int;
        assert(whole * (2 * u) != u) by (nonlinear_arith)
            requires
                0 < u,
        ;
    } else if jitter_offsets(count)[i].0.scaled() == jitter_offsets(count)[j].0.scaled() {
        law_halton_two_values_are_distinct((i + 1) as nat, (j + 1) as nat);
    }
}

/// Singles up to one lie at most two to the power of -24 apart.
proof fn lemma_gap_below_one(p: int)
    requires
        0 < p <= 0x3f80_0000,
    ensures
        scaled_magnitude(p) - scaled_magnitude(p - 1) <= pow2(125),
{
    let binade = (p - 1) / 0x80_0000;
    lemma_pow2_pos(125);
    vstd::arithmetic::power2::lemma2_to64();
    if binade == 0 {
        if p == 0x80_0000 {
            lemma_pattern_size(0, 0x80_0000);
        }
    } else {
        let q = p - 1 - (binade - 1) * 0x80_0000;
        lemma_pattern_size(binade - 1, q);
        lemma_pattern_size(binade - 1, q + 1);
        crate::arith::lemma_pow2_ordered((binade - 1) as nat, 125);
        let w = pow2((binade - 1) as nat) as int;
        assert((q + 1) * w - q * w == w) by (nonlinear_arith);
    }
}

/// The sum in base 3 from a point on, against the same sum with nothing rounded: each digit
/// costs at most half the distance between singles below one, and the weight's own rounding
/// no more than the weight, all in units of the last bit. `whole` is the index that the
/// digits are those of.
proof fn lemma_thirds(whole: int, index: nat, k: nat, fraction: Single, result: Single)
    requires
        k <= 21,
        whole < 0x1_0000_0000,
        index > 0 ==> index * third_place(k) <= whole,
        fraction.0 == third_weight(k),
        result.0 <= third_cap(k),
    ensures
        ({
            let h = halton_from(index, 3, fraction, result).scaled();
            let (q, t) = (mirror_den(index, 3) as int, mirror_num(index, 3) as int);
            let (r, f) = (result.scaled(), fraction.scaled());
            0x100_0000 * vstd::math::abs(h * q - (r * q + t * f)) <= ((21 - k) * pow2(148) + 2 * f)
                * q
        }),
        halton_from(index, 3, fraction, result).0 < 0x3f80_0000,
    decreases index,
{
    let (r, f) = (result.scaled(), fraction.scaled());
    lemma_scaled_magnitude_ordered(0, fraction.0 as int);
    assert(scaled_magnitude(0) == 0);
    lemma_pow2_pos(148);
    if index == 0 {
        lemma_third_caps_are_below_one(k);
        assert(r * 1 - (r * 1 + 0 * f) == 0) by (nonlinear_arith);
        assert(((21 - k) * pow2(148) + 2 * f) * 1 >= 0) by (nonlinear_arith)
            requires
                k <= 21,
                f >= 0,
                pow2(148) > 0,
        ;
    } else {
        vstd::arithmetic::div_mod::lemma_div_decreases(index as int, 3);
        let d = (index % 3) as int;
        let c = one();
        lemma_pow2_pos(149);
        lemma_power_pattern(127);
        lemma_power_pattern(128);
        lemma_power_pattern(129);
        lemma_pow2_unfold(150);
        lemma_pow2_unfold(151);
        lemma_scaled_magnitude_ordered(fraction.0 as int, 0x3f80_0000);
        lemma_scaled_magnitude_ordered(0, result.0 as int);
        lemma_scaled_magnitude_ordered(result.0 as int, 0x3f80_0000);
        lemma_digit(3);
        lemma_digit(d);
        let (three, digit) = (from_integer(3), from_integer(d));
        // What the steps round.
        let next = quotient(fraction, three);
        assert(0 <= f * c <= c * (3 * c)) by (nonlinear_arith)
            requires
                0 <= f <= c,
                0 < c,
        ;
        lemma_nearest_exists(f * c, 3 * c);
        lemma_rounds_to_at_most(nearest_size(f * c, 3 * c), f * c, 3 * c, 0x3f80_0000);
        let g = next.scaled();
        lemma_scaled_magnitude_ordered(0, next.0 as int);
        lemma_scaled_magnitude_ordered(next.0 as int, 0x3f80_0000);
        let addend = product(next, digit);
        assert(0 <= g * (d * c) <= (2 * c) * c) by (nonlinear_arith)
            requires
                0 <= g <= c,
                0 <= d <= 2,
                0 < c,
        ;
        lemma_nearest_exists(g * (d * c), c);
        lemma_rounds_to_at_most(nearest_size(g * (d * c), c), g * (d * c), c, 0x4000_0000);
        lemma_scaled_magnitude_ordered(0, addend.0 as int);
        lemma_scaled_magnitude_ordered(addend.0 as int, 0x4000_0000);
        let a = addend.scaled();
        let sum_now = sum(result, addend);
        lemma_nearest_exists(r + a, 1);
        lemma_rounds_to_at_most(nearest_size(r + a, 1), r + a, 1, 0x4080_0000);
        lemma_third_step(
            whole,
            index as int,
            k,
            (three, digit),
            (fraction, next),
            addend,
            (result, sum_now),
        );
        // The digit's share is exact.
        assert(a == d * g) by {
            lemma_twice(next.0 as int);
            assert(g * (d * c) == (d * g) * c) by (nonlinear_arith);
            assert(d * g == (if d == 0 {
                0
            } else if d == 1 {
                g
            } else {
                2 * g
            })) by (nonlinear_arith)
                requires
                    0 <= d <= 2,
            ;
            let p = if d == 0 {
                0
            } else if d == 1 {
                next.0 as int
            } else {
                next.0 + 0x80_0000
            };
            lemma_exact(p, g * (d * c), c);
        }
        // The weight's rounding.
        lemma_third_weight(k);
        lemma_rounds_to_relative(next.0 as int, f, 3);
        // The sum's rounding.
        let s = sum_now.scaled();
        lemma_rounding_below_one(sum_now.0 as int, r + a);
        let rest = index / 3;
        lemma_thirds(whole, rest, k + 1, next, sum_now);
        lemma_mirror_is_below_one(rest, 3);
        let (q, t) = (mirror_den(rest, 3) as int, mirror_num(rest, 3) as int);
        let h = halton_from(rest, 3, next, sum_now).scaled();
        assert(halton_from(index, 3, fraction, result) == halton_from(rest, 3, next, sum_now));
        lemma_pow2_adds(24, 124);
        vstd::arithmetic::power2::lemma2_to64();
        lemma_third_errors(h, q, t, r, s, f, g, d, pow2(124) as int, 20 - k);
    }
}

/// A number rounded to below one moves by at most half the distance between singles there.
pub proof fn lemma_rounding_below_one(p: int, num: int)
    requires
        rounds_to(p, num, 1),
        0 <= num,
        p < 0x3f80_0000,
    ensures
        vstd::math::abs(scaled_magnitude(p) - num) <= pow2(124),
{
    lemma_pow2_unfold(125);
    lemma_pow2_pos(124);
    assert(scaled_magnitude(0) == 0);
    if p > 0 {
        lemma_gap_below_one(p);
    }
    lemma_gap_below_one(p + 1);
}

/// The errors of one digit in base 3 and of all that follow, together.
proof fn lemma_third_errors(
    h: int,
    q: int,
    t: int,
    r: int,
    s: int,
    f: int,
    g: int,
    d: int,
    e: int,
    left: int,
)
    requires
        0 <= t < q,
        0 <= d <= 2,
        0 <= g,
        vstd::math::abs(s - (r + d * g)) <= e,
        g * 3 * 0xff_ffff <= f * 0x100_0000 <= g * 3 * 0x100_0001,
        0x100_0000 * vstd::math::abs(h * q - (s * q + t * g)) <= (left * (0x100_0000 * e) + 2 * g)
            * q,
    ensures
        0x100_0000 * vstd::math::abs(h * (3 * q) - (r * (3 * q) + (d * q + t) * f)) <= ((left + 1)
            * (0x100_0000 * e) + 2 * f) * (3 * q),
{
    let x = h * q - (s * q + t * g);
    let y = s - (r + d * g);
    let z = 3 * g - f;
    let n = d * q + t;
    // The error of the rest, of this sum and of this weight.
    assert(h * (3 * q) == 3 * (h * q)) by (nonlinear_arith);
    assert(r * (3 * q) == 3 * (r * q)) by (nonlinear_arith);
    assert((3 * q) * y == 3 * (s * q) - 3 * (r * q) - 3 * ((d * q) * g)) by (nonlinear_arith)
        requires
            y == s - (r + d * g),
    ;
    assert(n * z == 3 * (n * g) - n * f) by (nonlinear_arith)
        requires
            z == 3 * g - f,
    ;
    assert(n * g == (d * q) * g + t * g) by (nonlinear_arith)
        requires
            n == d * q + t,
    ;
    assert(h * (3 * q) - (r * (3 * q) + n * f) == 3 * x + (3 * q) * y + n * z);
    let k = 0x100_0000int;
    assert(-(3 * g) <= k * z <= 3 * g);
    assert(0 <= n <= 3 * q) by (nonlinear_arith)
        requires
            n == d * q + t,
            0 <= d <= 2,
            0 <= t < q,
    ;
    assert(-((3 * q) * (3 * g)) <= n * (k * z) <= (3 * q) * (3 * g)) by (nonlinear_arith)
        requires
            -(3 * g) <= k * z <= 3 * g,
            0 <= n <= 3 * q,
            0 <= g,
    ;
    assert(n * (k * z) == k * (n * z)) by (nonlinear_arith);
    assert(-((3 * q) * e) <= (3 * q) * y <= (3 * q) * e) by (nonlinear_arith)
        requires
            -e <= y <= e,
            0 < q,
    ;
    let bound = (left * (k * e) + 2 * g) * q;
    let m = left * (k * e);
    assert(5 * g <= 2 * f);
    assert((left + 1) * (k * e) == m + k * e) by (nonlinear_arith)
        requires
            m == left * (k * e),
    ;
    assert(bound == m * q + 2 * (g * q)) by (nonlinear_arith)
        requires
            bound == (m + 2 * g) * q,
    ;
    assert((m + k * e + 2 * f) * (3 * q) == 3 * (m * q) + 3 * (k * (q * e)) + 6 * (f * q))
        by (nonlinear_arith);
    assert(k * ((3 * q) * e) == 3 * (k * (q * e))) by (nonlinear_arith);
    assert((3 * q) * (3 * g) == 9 * (g * q)) by (nonlinear_arith);
    assert(5 * (g * q) <= 2 * (f * q)) by (nonlinear_arith)
        requires
            5 * g <= 2 * f,
            0 < q,
    ;
    assert(3 * bound + k * ((3 * q) * e) + (3 * q) * (3 * g) <= ((left + 1) * (k * e) + 2 * f) * (3
        * q));
}

/// In base 3 a Halton value lies within 25 times two to the power of -25 of the radical
/// inverse: less than one millionth.
pub proof fn law_halton_three_is_close_to_the_radical_inverse(index: nat)
    requires
        index < 0x1_0000_0000,
    ensures
        vstd::math::abs(
            halton_value(index, 3).scaled() * mirror_den(index, 3) - mirror_num(index, 3) * one(),
        ) <= (25 * pow2(124)) * mirror_den(index, 3),
        1_000_000 * (25 * pow2(124)) < one(),
        halton_value(index, 3).0 < 0x3f80_0000,
{
    lemma_power_pattern(127);
    assert(scaled_magnitude(0) == 0);
    assert(third_place(0) == 1);
    lemma_thirds(index as int, index, 0, Single(0x3f80_0000), Single(0));
    vstd::arithmetic::power2::lemma2_to64();
    lemma_pow2_adds(24, 124);
    lemma_pow2_adds(25, 124);
    lemma_pow2_pos(124);
    let (q, e) = (mirror_den(index, 3) as int, pow2(124) as int);
    assert(0 * q == 0) by (nonlinear_arith);
    assert((21 * (0x100_0000 * e) + 2 * (0x200_0000 * e)) * q == 0x100_0000 * ((25 * e) * q))
        by (nonlinear_arith);
}

} // verus!
