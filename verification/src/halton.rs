//! The Halton low-discrepancy sequence in single precision.
use vstd::arithmetic::power2::{lemma_pow2_adds, lemma_pow2_pos, lemma_pow2_unfold, pow2};
use vstd::prelude::*;

use crate::arith::{
    from_integer, lemma_pow2_ordered, lemma_power_pattern, product, quotient, sum,
};
use crate::halton_bounds::{
    follows_half_caps, lemma_below_one, lemma_half_caps_are_below_one, lemma_half_step,
    lemma_third_caps_are_below_one, lemma_third_step, third_cap, third_place, third_weight,
};
use crate::rounding::{
    lemma_representable, lemma_rounds_to_at_least, lemma_rounds_to_at_most,
    lemma_scaled_magnitude_ordered, one, rounds_to,
};
use crate::single::{scaled_magnitude, Single};

verus! {

/// The Halton sum from a point on: the digits of `index` in `base`, least significant
/// first, each weighted by a further division of `fraction`, every step rounded.
pub open spec fn halton_from(index: nat, base: nat, fraction: Single, result: Single) -> Single
    decreases index,
{
    if index == 0 || base < 2 {
        result
    } else {
        proof {
            vstd::arithmetic::div_mod::lemma_div_decreases(index as int, base as int);
        }
        let next = quotient(fraction, from_integer(base as int));
        halton_from(
            index / base,
            base,
            next,
            sum(result, product(next, from_integer((index % base) as int))),
        )
    }
}

/// The `index`-th value of the Halton low-discrepancy sequence for `base`, in single
/// precision.
pub open spec fn halton_value(index: nat, base: nat) -> Single {
    // 0x3f80_0000 is 1.0.
    halton_from(index, base, Single(0x3f80_0000), Single(0))
}

/// The smallest power of two, by its exponent, that is at least `base`.
fn power_above(base: u32) -> (b: u32)
    requires
        base >= 2,
    ensures
        1 <= b <= 32,
        pow2((b - 1) as nat) < base <= pow2(b as nat),
{
    let mut b: u32 = 1;
    let mut w: u64 = 2;
    proof {
        vstd::arithmetic::power2::lemma2_to64();
    }
    while w < base as u64
        invariant
            1 <= b <= 32,
            2 <= base <= u32::MAX,
            w == pow2(b as nat),
            pow2((b - 1) as nat) < base,
            pow2(32) == 0x1_0000_0000,
        decreases 32 - b,
    {
        proof {
            lemma_pow2_unfold((b + 1) as nat);
            if b >= 32 {
                lemma_pow2_ordered(32, b as nat);
            }
        }
        w = w * 2;
        b = b + 1;
    }
    b
}

/// How far the weight can sink: `k` divisions by at most two to the power of `b` have
/// been made of an index that has a digit left, and one more is to come.
proof fn lemma_weight_depth(index: int, rest: int, b: nat, k: nat)
    requires
        0 < rest,
        index <= u32::MAX,
        1 <= b <= 32,
        rest * pow2(k) <= index,
        rest * pow2(((b - 1) * k) as nat) <= index,
    ensures
        k <= 31,
        b * (k + 1) <= 64,
{
    vstd::arithmetic::power2::lemma2_to64();
    lemma_depth(index, rest, k);
    let c = ((b - 1) * k) as nat;
    lemma_depth(index, rest, c);
    assert(b * (k + 1) == (b - 1) * k + k + b) by (nonlinear_arith);
    if b >= 2 && k >= 1 {
        assert((b - 1) + k - 1 <= (b - 1) * k) by (nonlinear_arith)
            requires
                b >= 2,
                k >= 1,
        ;
    }
    if b == 1 {
        assert((b - 1) * k == 0) by (nonlinear_arith)
            requires
                b == 1,
        ;
    }
    if k == 0 {
        assert((b - 1) * k == 0) by (nonlinear_arith)
            requires
                k == 0,
        ;
    }
}

proof fn lemma_depth(index: int, rest: int, c: nat)
    requires
        0 < rest,
        index <= u32::MAX,
        rest * pow2(c) <= index,
    ensures
        c <= 31,
{
    vstd::arithmetic::power2::lemma2_to64();
    if c >= 32 {
        lemma_pow2_ordered(32, c);
        let w = pow2(c) as int;
        assert(w <= rest * w) by (nonlinear_arith)
            requires
                0 < rest,
                0 < w,
        ;
    }
}

/// The next weight: no smaller than the present one by two to the power of `b`, and at
/// most half of it.
proof fn lemma_next_weight(
    fraction: Single,
    divisor: Single,
    base: u32,
    next: Single,
    b: nat,
    depth: nat,
)
    requires
        2 <= base <= pow2(b),
        1 <= b <= 32,
        depth + b <= 64,
        (127 - depth) * 0x80_0000 <= fraction.0 <= 0x3f80_0000,
        rounds_to(divisor.0 as int, base * one(), 1),
        0x3f80_0000 <= divisor.0 <= 0x4f80_0000,
        rounds_to(next.0 as int, fraction.scaled() * one(), divisor.scaled()),
        next.0 < 0x7f80_0000,
    ensures
        (127 - depth - b) * 0x80_0000 <= next.0 <= 0x3f80_0000,
        next.scaled() * divisor.scaled() <= 2 * (fraction.scaled() * one()),
{
    lemma_pow2_pos(149);
    // The divisor lies between one and two to the power of b.
    lemma_power_pattern(127);
    lemma_power_pattern(127 + b as int);
    lemma_pow2_adds(b, 149);
    let (w, c) = (pow2(b) as int, one());
    let scale = base as int;
    assert(scale * c <= w * c) by (nonlinear_arith)
        requires
            scale <= w,
            0 < c,
    ;
    lemma_rounds_to_at_most(divisor.0 as int, base * one(), 1, (127 + b as int) * 0x80_0000);
    lemma_scaled_magnitude_ordered(divisor.0 as int, (127 + b as int) * 0x80_0000);
    lemma_scaled_magnitude_ordered(0x3f80_0000, divisor.0 as int);
    let (f, d) = (fraction.scaled(), divisor.scaled());
    assert(c <= d <= w * c);
    lemma_scaled_magnitude_ordered((127 - depth) * 0x80_0000, fraction.0 as int);
    lemma_scaled_magnitude_ordered(fraction.0 as int, 0x3f80_0000);
    // From below.
    let low = (127 - depth - b) * 0x80_0000;
    lemma_power_pattern(127 - depth);
    lemma_power_pattern(127 - depth - b);
    let (deep, deeper) = (
        pow2((149 - depth) as nat) as int,
        pow2((149 - depth - b) as nat) as int,
    );
    lemma_pow2_adds((149 - depth - b) as nat, b);
    assert(deep == deeper * w);
    lemma_pow2_pos((149 - depth - b) as nat);
    assert(deeper * d <= f * c) by (nonlinear_arith)
        requires
            d <= w * c,
            deep == deeper * w,
            deep <= f,
            0 < c,
            0 < deeper,
    ;
    lemma_rounds_to_at_least(next.0 as int, f * c, d, low);
    // From above.
    assert(f * c <= c * d) by (nonlinear_arith)
        requires
            f <= c,
            c <= d,
            0 < c,
            0 <= f,
    ;
    lemma_rounds_to_at_most(next.0 as int, f * c, d, 0x3f80_0000);
    // What was divided comes back, within a factor of two.
    lemma_scaled_magnitude_ordered(next.0 - 1, next.0 as int);
    let (r, s) = (scaled_magnitude(next.0 - 1), next.scaled());
    assert(s * d <= 2 * (f * c)) by (nonlinear_arith)
        requires
            (r + s) * d <= 2 * (f * c),
            0 <= r,
            0 < d,
    ;
}

/// The `index`-th value of the Halton low-discrepancy sequence for `base`.
pub fn halton(index: u32, base: u32) -> (r: Single)
    requires
        index == 0 || base >= 2,
    ensures
        r == halton_value(index as nat, base as nat),
        r.0 == 0 || 0x1f80_0000 <= r.0 <= 0x4300_0000,
        base == 3 ==> r.scaled() < one(),
        base == 2 && index % 0x200_0000 != 0x1ff_ffff ==> r.scaled() < one(),
        base == 2 && index % 0x200_0000 == 0x1ff_ffff ==> r == Single(0x3f80_0000),
{
    if index == 0 {
        proof {
            lemma_pow2_pos(149);
            assert(scaled_magnitude(0) == 0);
        }
        return Single(0);
    }
    let mut rest: u32 = index;
    let mut fraction = Single(0x3f80_0000);
    let mut result = Single(0);
    let divisor = Single::from_u32(base);
    let b: u32 = power_above(base);
    let ghost mut k: nat = 0;
    // In base two: the digits that have been added.
    let ghost mut low: int = 0;
    proof {
        vstd::arithmetic::power2::lemma2_to64();
        assert((b - 1) * 0 == 0) by (nonlinear_arith);
        assert(b * 0 == 0) by (nonlinear_arith);
    }
    while rest > 0
        invariant
            base >= 2,
            1 <= b <= 32,
            pow2((b - 1) as nat) < base <= pow2(b as nat),
            divisor == from_integer(base as int),
            rounds_to(divisor.0 as int, base * one(), 1),
            0x3f80_0000 <= divisor.0 <= 0x4f80_0000,
            halton_from(rest as nat, base as nat, fraction, result) == halton_value(
                index as nat,
                base as nat,
            ),
            k <= 32,
            rest > 0 ==> rest * pow2(k) <= index,
            rest > 0 ==> rest * pow2(((b - 1) * k) as nat) <= index,
            b * k <= 64,
            (127 - b * k) * 0x80_0000 <= fraction.0 <= 0x3f80_0000,
            result.0 == 0 || 0x1f80_0000 <= result.0 < 0x7f80_0000,
            result.scaled() <= (2 * k) * one(),
            base == 3 ==> {
                &&& k <= 21
                &&& rest > 0 ==> rest * third_place(k) <= index
                &&& fraction.0 == third_weight(k)
                &&& result.0 <= third_cap(k)
            },
            base == 2 ==> fraction.0 == (127 - k) * 0x80_0000 && follows_half_caps(
                index as int,
                rest as int,
                k,
                low,
                result.0 as int,
            ),
        decreases rest,
    {
        let ghost (old_rest, old_fraction, old_result) = (rest, fraction, result);
        proof {
            lemma_weight_depth(index as int, rest as int, b as nat, k);
            assert(b * (k + 1) == b * k + b) by (nonlinear_arith);
            lemma_result_bound(result, k);
        }
        fraction = fraction.divided_by(divisor);
        proof {
            lemma_next_weight(
                old_fraction,
                divisor,
                base,
                fraction,
                b as nat,
                (b * k) as nat,
            );
        }
        let digit = Single::from_u32(rest % base);
        let addend = fraction.times(digit);
        proof {
            lemma_addend(old_fraction, fraction, divisor, base, digit, rest % base, addend);
        }
        result = result.plus(addend);
        proof {
            lemma_new_result(old_result, addend, result, k);
            lemma_rest_shrinks(index, rest, base, b as nat, k);
            if base == 3 {
                lemma_third_step(
                    index as int,
                    rest as int,
                    k,
                    (divisor, digit),
                    (old_fraction, fraction),
                    addend,
                    (old_result, result),
                );
            }
            if base == 2 {
                lemma_half_step(
                    index as int,
                    rest as int,
                    k,
                    low,
                    (divisor, digit),
                    (old_fraction, fraction),
                    addend,
                    (old_result, result),
                );
                low = low + (rest % 2) * pow2(k);
            }
            vstd::arithmetic::div_mod::lemma_div_decreases(rest as int, base as int);
        }
        rest = rest / base;
        proof {
            k = k + 1;
        }
    }
    proof {
        lemma_result_bound(result, k);
        if base == 3 {
            lemma_third_caps_are_below_one(k);
            lemma_below_one(result);
        }
        if base == 2 {
            lemma_half_caps_are_below_one(index as int, k, low, result.0 as int);
            if index % 0x200_0000 != 0x1ff_ffff {
                lemma_below_one(result);
            }
        }
    }
    result
}

/// What a digit adds: nothing, or at least the weight and at most two.
proof fn lemma_addend(
    before: Single,
    weight: Single,
    divisor: Single,
    base: u32,
    digit: Single,
    d: u32,
    addend: Single,
)
    requires
        d < base,
        before.0 <= 0x3f80_0000,
        0x1f80_0000 <= weight.0 <= 0x3f80_0000,
        0x3f80_0000 <= divisor.0 <= 0x4f80_0000,
        rounds_to(divisor.0 as int, base * one(), 1),
        weight.scaled() * divisor.scaled() <= 2 * (before.scaled() * one()),
        rounds_to(digit.0 as int, d * one(), 1),
        d == 0 ==> digit.0 == 0,
        d > 0 ==> 0x3f80_0000 <= digit.0 <= 0x4f80_0000,
        rounds_to(addend.0 as int, weight.scaled() * digit.scaled(), one()),
        addend.0 < 0x7f80_0000,
        digit.0 == 0 ==> addend.0 == 0,
    ensures
        addend.0 == 0 || 0x1f80_0000 <= addend.0 <= 0x4000_0000,
        addend.scaled() <= 2 * one(),
{
    lemma_pow2_pos(149);
    lemma_power_pattern(127);
    lemma_power_pattern(128);
    lemma_pow2_unfold(150);
    assert(scaled_magnitude(0) == 0);
    if d > 0 {
        let c = one();
        let (x, y) = (d as int, base as int);
        assert(x * c <= y * c) by (nonlinear_arith)
            requires
                x <= y,
                0 < c,
        ;
        // A digit is at most its base, rounded as it is.
        if digit.0 > divisor.0 {
            lemma_monotone(digit.0 as int, divisor.0 as int, x * c, y * c);
        }
        lemma_scaled_magnitude_ordered(digit.0 as int, divisor.0 as int);
        lemma_scaled_magnitude_ordered(0x3f80_0000, digit.0 as int);
        lemma_scaled_magnitude_ordered(before.0 as int, 0x3f80_0000);
        lemma_scaled_magnitude_ordered(1, weight.0 as int);
        let (w, g, v, f) = (
            weight.scaled(),
            digit.scaled(),
            divisor.scaled(),
            before.scaled(),
        );
        assert(w * c <= w * g) by (nonlinear_arith)
            requires
                c <= g,
                0 < w,
        ;
        assert(w * g <= (2 * c) * c) by (nonlinear_arith)
            requires
                g <= v,
                w * v <= 2 * (f * c),
                f <= c,
                0 < w,
                0 < c,
        ;
        lemma_rounds_to_at_least(addend.0 as int, w * g, c, weight.0 as int);
        lemma_rounds_to_at_most(addend.0 as int, w * g, c, 0x4000_0000);
        lemma_scaled_magnitude_ordered(addend.0 as int, 0x4000_0000);
    }
}

/// Rounding keeps order.
proof fn lemma_monotone(p: int, q: int, x: int, y: int)
    requires
        rounds_to(p, x, 1),
        rounds_to(q, y, 1),
        x <= y,
    ensures
        p <= q,
{
    if p > q {
        lemma_scaled_magnitude_ordered(q, p - 1);
        lemma_scaled_magnitude_ordered(q + 1, p);
        if q + 1 == p {
            assert(x == y);
        }
    }
}

/// A partial sum of at most 64 lies within what can be added to.
proof fn lemma_result_bound(result: Single, k: nat)
    requires
        k <= 32,
        result.0 < 0x7f80_0000,
        result.scaled() <= (2 * k) * one(),
    ensures
        result.0 <= 0x4300_0000,
{
    if result.0 > 0x4300_0000 {
        lemma_scaled_magnitude_ordered(0x4300_0000, result.0 as int);
        lemma_power_pattern(134);
        vstd::arithmetic::power2::lemma2_to64();
        lemma_pow2_adds(7, 149);
        lemma_pow2_pos(149);
        let c = one();
        assert((2 * k) * c <= 64 * c) by (nonlinear_arith)
            requires
                k <= 32,
                0 < c,
        ;
    }
}

/// Each addend makes the partial sum at most two larger.
proof fn lemma_new_result(before: Single, addend: Single, after: Single, k: nat)
    requires
        k <= 31,
        before.0 == 0 || 0x1f80_0000 <= before.0 < 0x7f80_0000,
        addend.0 == 0 || 0x1f80_0000 <= addend.0 <= 0x4000_0000,
        before.scaled() <= (2 * k) * one(),
        addend.scaled() <= 2 * one(),
        rounds_to(after.0 as int, before.scaled() + addend.scaled(), 1),
        after.0 < 0x7f80_0000,
    ensures
        after.0 == 0 || 0x1f80_0000 <= after.0,
        after.scaled() <= (2 * (k + 1)) * one(),
{
    lemma_pow2_pos(149);
    assert(scaled_magnitude(0) == 0);
    lemma_scaled_magnitude_ordered(0, before.0 as int);
    lemma_scaled_magnitude_ordered(0, addend.0 as int);
    let c = one();
    assert((2 * k) * c + 2 * c == (2 * (k + 1)) * c) by (nonlinear_arith);
    vstd::arithmetic::power2::lemma2_to64();
    lemma_pow2_ordered(23, 149);
    let n = 2 * (k + 1) as int;
    assert(c <= n * c) by (nonlinear_arith)
        requires
            n >= 1,
            c > 0,
    ;
    let p = lemma_representable(n, 149);
    let total = before.scaled() + addend.scaled();
    lemma_rounds_to_at_most(after.0 as int, total, 1, p);
    lemma_scaled_magnitude_ordered(after.0 as int, p);
    if before.0 != 0 {
        lemma_rounds_to_at_least(after.0 as int, total, 1, before.0 as int);
    } else if addend.0 != 0 {
        lemma_rounds_to_at_least(after.0 as int, total, 1, addend.0 as int);
    } else {
        lemma_rounds_to_at_most(after.0 as int, total, 1, 0);
    }
}

/// Every division by the base takes a digit off the index.
proof fn lemma_rest_shrinks(index: u32, rest: u32, base: u32, b: nat, k: nat)
    requires
        rest > 0,
        1 <= b,
        pow2((b - 1) as nat) < base,
        base >= 2,
        rest * pow2(k) <= index,
        rest * pow2(((b - 1) * k) as nat) <= index,
    ensures
        (rest / base) * pow2(k + 1) <= index,
        (rest / base) * pow2(((b - 1) * (k + 1)) as nat) <= index,
{
    let (r, q, n) = (rest as int, (rest / base) as int, base as int);
    vstd::arithmetic::div_mod::lemma_fundamental_div_mod(r, n);
    assert(n * q <= r);
    lemma_pow2_unfold(k + 1);
    let w = pow2(k) as int;
    assert(q * (2 * w) <= r * w) by (nonlinear_arith)
        requires
            n * q <= r,
            n >= 2,
            q >= 0,
            w >= 0,
    ;
    let c = ((b - 1) * k) as nat;
    assert((b - 1) * (k + 1) == c + (b - 1)) by (nonlinear_arith)
        requires
            c == (b - 1) * k,
    ;
    lemma_pow2_adds(c, (b - 1) as nat);
    let (v, u) = (pow2(c) as int, pow2((b - 1) as nat) as int);
    assert(q * (v * u) <= r * v) by (nonlinear_arith)
        requires
            n * q <= r,
            u <= n,
            q >= 0,
            v >= 0,
            u >= 0,
    ;
}

} // verus!
