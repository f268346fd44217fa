//! Rounding to single precision: to the nearest number, ties to the even one.
//!
//! Numbers are counted in units of the smallest positive single, as in
//! [`crate::single`], and a number to be rounded is given as a fraction of two
//! integers. Sizes (numbers without their sign) stand for the bit patterns from
//! zero to that of infinity; a sign is put on afterwards.
use vstd::arithmetic::power2::{lemma_pow2_adds, lemma_pow2_pos, lemma_pow2_unfold, pow2};
use vstd::prelude::*;

use crate::single::{lemma_scaled_magnitude_increases, scaled_magnitude, Single};

verus! {

/// How many units the number one is.
pub open spec fn one() -> int {
    pow2(149) as int
}

/// Whether the bit pattern `p` is what the size `num / den` rounds to: the size lies
/// no further from `p` than halfway to the next pattern on either side, and halfway
/// only if `p` is even.
pub open spec fn rounds_to(p: int, num: int, den: int) -> bool {
    &&& 0 <= p <= 0x7f80_0000
    &&& p > 0 ==> (scaled_magnitude(p - 1) + scaled_magnitude(p)) * den <= 2 * num
    &&& p > 0 && (scaled_magnitude(p - 1) + scaled_magnitude(p)) * den == 2 * num ==> p % 2 == 0
    &&& p < 0x7f80_0000 ==> 2 * num <= (scaled_magnitude(p) + scaled_magnitude(p + 1)) * den
    &&& p < 0x7f80_0000 && 2 * num == (scaled_magnitude(p) + scaled_magnitude(p + 1)) * den ==> p
        % 2 == 0
}

/// The bit pattern that the size `num / den` rounds to.
pub open spec fn nearest_size(num: int, den: int) -> int {
    choose|p: int| rounds_to(p, num, den)
}

/// The single that `num / den` rounds to. Zero is positive zero.
pub open spec fn nearest(num: int, den: int) -> Single {
    if num >= 0 {
        Single(nearest_size(num, den) as u32)
    } else {
        Single((0x8000_0000 + nearest_size(-num, den)) as u32)
    }
}

/// A smaller pattern is at most as large a size.
pub proof fn lemma_scaled_magnitude_ordered(m: int, n: int)
    requires
        0 <= m <= n,
    ensures
        0 <= scaled_magnitude(m) <= scaled_magnitude(n),
        m < n ==> scaled_magnitude(m) < scaled_magnitude(n),
{
    assert(scaled_magnitude(0) == 0);
    if m < n {
        lemma_scaled_magnitude_increases(m, n);
    } else if 0 < m {
        lemma_scaled_magnitude_increases(0, m);
    }
}

/// A size rounds to one pattern only.
pub proof fn lemma_rounds_to_one(p: int, q: int, num: int, den: int)
    requires
        rounds_to(p, num, den),
        rounds_to(q, num, den),
        den > 0,
    ensures
        p == q,
{
    lemma_rounds_to_not_above(p, q, num, den);
    lemma_rounds_to_not_above(q, p, num, den);
}

proof fn lemma_rounds_to_not_above(p: int, q: int, num: int, den: int)
    requires
        rounds_to(p, num, den),
        rounds_to(q, num, den),
        den > 0,
    ensures
        q <= p,
{
    if p < q {
        let above_p = scaled_magnitude(p) + scaled_magnitude(p + 1);
        let below_q = scaled_magnitude(q - 1) + scaled_magnitude(q);
        lemma_scaled_magnitude_ordered(p, q - 1);
        lemma_scaled_magnitude_ordered(p + 1, q);
        assert(above_p * den <= below_q * den && (above_p < below_q ==> above_p * den < below_q
            * den)) by (nonlinear_arith)
            requires
                above_p <= below_q,
                den > 0,
        ;
    }
}

/// What rounds to a pattern is `nearest` to it.
pub proof fn lemma_rounds_to_is_nearest(p: int, num: int, den: int)
    requires
        rounds_to(p, num, den),
        den > 0,
    ensures
        nearest_size(num, den) == p,
{
    lemma_rounds_to_one(p, nearest_size(num, den), num, den);
}

/// Equal fractions round alike.
pub proof fn lemma_rounds_to_same_fraction(
    p: int,
    num: int,
    den: int,
    other_num: int,
    other_den: int,
)
    requires
        rounds_to(p, num, den),
        den > 0,
        other_den > 0,
        num * other_den == other_num * den,
    ensures
        rounds_to(p, other_num, other_den),
{
    assert((2 * num) * other_den == (2 * other_num) * den) by (nonlinear_arith)
        requires
            num * other_den == other_num * den,
    ;
    if p > 0 {
        lemma_compare_fractions(
            scaled_magnitude(p - 1) + scaled_magnitude(p),
            2 * num,
            den,
            2 * other_num,
            other_den,
        );
    }
    if p < 0x7f80_0000 {
        lemma_compare_fractions(
            scaled_magnitude(p) + scaled_magnitude(p + 1),
            2 * num,
            den,
            2 * other_num,
            other_den,
        );
    }
}

/// A bound compares with equal fractions alike.
proof fn lemma_compare_fractions(bound: int, num: int, den: int, other_num: int, other_den: int)
    requires
        den > 0,
        other_den > 0,
        num * other_den == other_num * den,
    ensures
        bound * den <= num <==> bound * other_den <= other_num,
        bound * den >= num <==> bound * other_den >= other_num,
{
    let x = bound * den;
    let y = bound * other_den;
    assert(x * other_den == y * den) by (nonlinear_arith)
        requires
            x == bound * den,
            y == bound * other_den,
    ;
    assert(x <= num <==> x * other_den <= num * other_den) by (nonlinear_arith)
        requires
            other_den > 0,
    ;
    assert(y <= other_num <==> y * den <= other_num * den) by (nonlinear_arith)
        requires
            den > 0,
    ;
    assert(x >= num <==> x * other_den >= num * other_den) by (nonlinear_arith)
        requires
            other_den > 0,
    ;
    assert(y >= other_num <==> y * den >= other_num * den) by (nonlinear_arith)
        requires
            den > 0,
    ;
}

/// Rounding keeps what is at least a single at least that single.
pub proof fn lemma_rounds_to_at_least(p: int, num: int, den: int, bound: int)
    requires
        rounds_to(p, num, den),
        den > 0,
        0 <= bound <= 0x7f80_0000,
        scaled_magnitude(bound) * den <= num,
    ensures
        bound <= p,
{
    if p < bound {
        let (s, t, b) = (
            scaled_magnitude(p),
            scaled_magnitude(p + 1),
            scaled_magnitude(bound),
        );
        lemma_scaled_magnitude_ordered(p, p + 1);
        lemma_scaled_magnitude_ordered(p + 1, bound);
        assert((s + t) * den < 2 * (b * den)) by (nonlinear_arith)
            requires
                s < t,
                t <= b,
                den > 0,
        ;
    }
}

/// Rounding keeps what is at most a single at most that single.
pub proof fn lemma_rounds_to_at_most(p: int, num: int, den: int, bound: int)
    requires
        rounds_to(p, num, den),
        den > 0,
        0 <= bound <= 0x7f80_0000,
        num <= scaled_magnitude(bound) * den,
    ensures
        p <= bound,
{
    if p > bound {
        let (s, t, b) = (
            scaled_magnitude(p - 1),
            scaled_magnitude(p),
            scaled_magnitude(bound),
        );
        lemma_scaled_magnitude_ordered(p - 1, p);
        lemma_scaled_magnitude_ordered(bound, p - 1);
        assert((s + t) * den > 2 * (b * den)) by (nonlinear_arith)
            requires
                s < t,
                b <= s,
                den > 0,
        ;
    }
}

/// What lies no further above a single than halfway to the next rounds to no more than
/// that single: halfway itself only where the single is even.
pub proof fn lemma_rounds_to_at_most_near(p: int, num: int, den: int, bound: int)
    requires
        rounds_to(p, num, den),
        den > 0,
        0 <= bound <= 0x7f80_0000,
        2 * num < (scaled_magnitude(bound) + scaled_magnitude(bound + 1)) * den || (2 * num == (
        scaled_magnitude(bound) + scaled_magnitude(bound + 1)) * den && bound % 2 == 0),
    ensures
        p <= bound,
{
    if p > bound {
        let (r, s) = (scaled_magnitude(p - 1), scaled_magnitude(p));
        let (b, c) = (scaled_magnitude(bound), scaled_magnitude(bound + 1));
        lemma_scaled_magnitude_ordered(bound, p - 1);
        lemma_scaled_magnitude_ordered(bound + 1, p);
        assert((b + c) * den <= (r + s) * den) by (nonlinear_arith)
            requires
                b <= r,
                c <= s,
                den > 0,
        ;
        if p > bound + 1 {
            assert((b + c) * den < (r + s) * den) by (nonlinear_arith)
                requires
                    b <= r,
                    c < s,
                    den > 0,
            ;
        }
    }
}

/// A single rounds to itself.
pub proof fn lemma_exact(p: int, num: int, den: int)
    requires
        0 <= p <= 0x7f80_0000,
        den > 0,
        num == scaled_magnitude(p) * den,
    ensures
        rounds_to(p, num, den),
        nearest_size(num, den) == p,
{
    let s = scaled_magnitude(p);
    if p > 0 {
        let r = scaled_magnitude(p - 1);
        lemma_scaled_magnitude_ordered(p - 1, p);
        assert((r + s) * den < 2 * (s * den)) by (nonlinear_arith)
            requires
                r < s,
                den > 0,
        ;
    }
    if p < 0x7f80_0000 {
        let t = scaled_magnitude(p + 1);
        lemma_scaled_magnitude_ordered(p, p + 1);
        assert((s + t) * den > 2 * (s * den)) by (nonlinear_arith)
            requires
                s < t,
                den > 0,
        ;
    }
    lemma_rounds_to_is_nearest(p, num, den);
}

/// Rounding is to the nearest: no single is closer to `num / den` than the one it
/// rounds to.
pub proof fn law_rounding_is_to_the_nearest(p: int, num: int, den: int, other: int)
    requires
        rounds_to(p, num, den),
        den > 0,
        0 <= other <= 0x7f80_0000,
    ensures
        vstd::math::abs(scaled_magnitude(p) * den - num) <= vstd::math::abs(
            scaled_magnitude(other) * den - num,
        ),
{
    let (s, o) = (scaled_magnitude(p), scaled_magnitude(other));
    if other < p {
        let r = scaled_magnitude(p - 1);
        lemma_scaled_magnitude_ordered(other, p - 1);
        lemma_scaled_magnitude_ordered(p - 1, p);
        assert(o * den <= r * den && (r + s) * den == r * den + s * den && r * den < s * den)
            by (nonlinear_arith)
            requires
                o <= r,
                r < s,
                den > 0,
        ;
    } else if other > p {
        let t = scaled_magnitude(p + 1);
        lemma_scaled_magnitude_ordered(p + 1, other);
        lemma_scaled_magnitude_ordered(p, p + 1);
        assert(t * den <= o * den && (s + t) * den == s * den + t * den && s * den < t * den)
            by (nonlinear_arith)
            requires
                t <= o,
                s < t,
                den > 0,
        ;
    }
}

/// The size of the pattern that is `g` binades above the smallest normal one, with
/// significand `q`. The significand may be that of the next binade's first number.
pub proof fn lemma_pattern_size(g: int, q: int)
    requires
        0 <= g,
        0x80_0000 <= q <= 0x100_0000,
    ensures
        scaled_magnitude(g * 0x80_0000 + q) == q * pow2(g as nat),
{
    let p = g * 0x80_0000 + q;
    if q < 0x100_0000 {
        assert(p / 0x80_0000 == g + 1);
        assert(p % 0x80_0000 == q - 0x80_0000);
    } else {
        assert(p / 0x80_0000 == g + 2);
        assert(p % 0x80_0000 == 0);
        lemma_pow2_unfold((g + 1) as nat);
        assert(0x80_0000 * pow2((g + 1) as nat) == 0x100_0000 * pow2(g as nat));
    }
}

/// Rounding a significand rounds the number: `a / b` lies in the binade from one to
/// two, `q` is its significand, rounded, and `g` places the binade.
proof fn lemma_round_significand(a: int, b: int, q: int, g: int)
    requires
        0 < b <= a < 2 * b,
        0 <= g <= 252,
        ({
            let whole = (a * 0x80_0000) / b;
            let rest = (a * 0x80_0000) % b;
            q == if 2 * rest > b || (2 * rest == b && whole % 2 == 1) {
                whole + 1
            } else {
                whole
            }
        }),
    ensures
        0x80_0000 <= q <= 0x100_0000,
        rounds_to(g * 0x80_0000 + q, a * 0x80_0000 * pow2(g as nat), b),
{
    let n = a * 0x80_0000;
    let whole = n / b;
    let rest = n % b;
    vstd::arithmetic::div_mod::lemma_fundamental_div_mod(n, b);
    vstd::arithmetic::div_mod::lemma_mod_bound(n, b);
    assert(n == b * whole + rest);
    assert(0x80_0000 <= whole < 0x100_0000) by (nonlinear_arith)
        requires
            n == b * whole + rest,
            n == a * 0x80_0000,
            0 <= rest < b,
            0 < b <= a < 2 * b,
    ;
    let p = g * 0x80_0000 + q;
    let scale = pow2(g as nat) as int;
    lemma_pow2_pos(g as nat);
    lemma_pattern_size(g, q);
    assert(p % 2 == q % 2);
    // The neighbor below.
    if q > 0x80_0000 {
        lemma_pattern_size(g, q - 1);
        assert((2 * q - 1) * b <= 2 * n && ((2 * q - 1) * b == 2 * n ==> q % 2 == 0))
            by (nonlinear_arith)
            requires
                n == b * whole + rest,
                0 <= rest < b,
                q == whole || (q == whole + 1 && (2 * rest > b || (2 * rest == b && whole % 2
                    == 1))),
        ;
        let m = 2 * q - 1;
        assert((scaled_magnitude(p - 1) + scaled_magnitude(p)) * b == (m * b) * scale)
            by (nonlinear_arith)
            requires
                scaled_magnitude(p - 1) == (q - 1) * scale,
                scaled_magnitude(p) == q * scale,
                m == 2 * q - 1,
        ;
        lemma_scale_comparison(m * b, 2 * n, scale);
    } else {
        assert(q == whole);
        lemma_scaled_magnitude_ordered(p - 1, p);
        let (r, s) = (scaled_magnitude(p - 1), scaled_magnitude(p));
        assert(b * q <= n) by (nonlinear_arith)
            requires
                n == b * q + rest,
                0 <= rest,
        ;
        assert((r + s) * b < 2 * (n * scale)) by (nonlinear_arith)
            requires
                r < s,
                s == q * scale,
                b * q <= n,
                0 < b,
                0 < scale,
        ;
    }
    // The neighbor above.
    if q < 0x100_0000 {
        lemma_pattern_size(g, q + 1);
        assert(2 * n <= (2 * q + 1) * b && ((2 * q + 1) * b == 2 * n ==> q % 2 == 0))
            by (nonlinear_arith)
            requires
                n == b * whole + rest,
                0 <= rest < b,
                (q == whole && (2 * rest < b || (2 * rest == b && whole % 2 == 0))) || q == whole
                    + 1,
        ;
        let m = 2 * q + 1;
        assert((scaled_magnitude(p) + scaled_magnitude(p + 1)) * b == (m * b) * scale)
            by (nonlinear_arith)
            requires
                scaled_magnitude(p + 1) == (q + 1) * scale,
                scaled_magnitude(p) == q * scale,
                m == 2 * q + 1,
        ;
        lemma_scale_comparison(m * b, 2 * n, scale);
    } else {
        lemma_scaled_magnitude_ordered(p, p + 1);
        let (s, t) = (scaled_magnitude(p), scaled_magnitude(p + 1));
        assert(n < b * q) by (nonlinear_arith)
            requires
                n == b * whole + rest,
                0 <= rest < b,
                q == 0x100_0000,
                whole < 0x100_0000,
        ;
        assert((s + t) * b > 2 * (n * scale)) by (nonlinear_arith)
            requires
                s < t,
                s == q * scale,
                n < b * q,
                0 < b,
                0 < scale,
        ;
    }
    assert(2 * (n * scale) == (2 * n) * scale) by (nonlinear_arith);
}

proof fn lemma_scale_comparison(x: int, y: int, scale: int)
    requires
        scale > 0,
    ensures
        x <= y <==> x * scale <= y * scale,
        x == y <==> x * scale == y * scale,
{
    assert(x <= y <==> x * scale <= y * scale) by (nonlinear_arith)
        requires
            scale > 0,
    ;
    assert(x == y <==> x * scale == y * scale) by (nonlinear_arith)
        requires
            scale > 0,
    ;
}

/// Two to the power of one hundred.
proof fn lemma_power_100()
    ensures
        pow2(100) == 0x10_0000_0000_0000_0000_0000_0000,
{
    vstd::arithmetic::power2::lemma2_to64();
    vstd::arithmetic::power2::lemma2_to64_rest();
    lemma_pow2_adds(50, 50);
    assert(0x4_0000_0000_0000int * 0x4_0000_0000_0000int
        == 0x10_0000_0000_0000_0000_0000_0000) by (nonlinear_arith);
}

/// A number below two to the power of 100 is a multiple of no higher power of two.
proof fn lemma_below_power(x: int, n: int, s: nat)
    requires
        0 < n,
        x == n * pow2(s),
        x < 0x10_0000_0000_0000_0000_0000_0000,
    ensures
        s < 100,
{
    lemma_power_100();
    if s >= 100 {
        if s > 100 {
            vstd::arithmetic::power2::lemma_pow2_strictly_increases(100, s);
        }
        let w = pow2(s) as int;
        assert(w <= n * w) by (nonlinear_arith)
            requires
                0 < n,
                0 <= w,
        ;
    }
}

/// The binade of a number in the normal range: where `a` is `n` times two to the power
/// of `s`, and `b` is `d` times two to the power of `t`, and `a / b` lies between one
/// and two.
proof fn lemma_binade(n: int, d: int, j: nat, a: int, b: int, s: nat, t: nat)
    requires
        0 < n,
        0 < d,
        a == n * pow2(s),
        b == d * pow2(t),
        b <= a < 2 * b,
        0x80_0000 * d <= n * pow2(j),
        n * pow2(j) < d * pow2(275),
    ensures
        0 <= j + t - s - 23 <= 252,
        (n * pow2(j)) * b == a * 0x80_0000 * pow2((j + t - s - 23) as nat) * d,
{
    vstd::arithmetic::power2::lemma2_to64();
    let x = n * pow2(j);
    // Both sides by the same powers: x * 2^(s + t) is a * b-wise the same number.
    lemma_pow2_pos(s);
    lemma_pow2_pos(t);
    lemma_pow2_pos(j);
    let (ps, pt, pj) = (pow2(s) as int, pow2(t) as int, pow2(j) as int);
    assert(x * ps == a * pj) by (nonlinear_arith)
        requires
            x == n * pj,
            a == n * ps,
    ;
    // From below: 2^23 * d <= x and a < 2 * b give 2^(s + 23) < 2^(j + t + 1).
    lemma_pow2_adds(s, 23);
    lemma_pow2_adds(j, t);
    lemma_pow2_unfold((j + t + 1) as nat);
    let low = pow2(s + 23) as int;
    let high = pow2(j + t) as int;
    assert(low == 0x80_0000 * ps);
    assert(high == pj * pt);
    assert(low * d < 2 * high * d) by (nonlinear_arith)
        requires
            low == 0x80_0000 * ps,
            high == pj * pt,
            0x80_0000 * d <= x,
            x * ps == a * pj,
            a < 2 * b,
            b == d * pt,
            0 < ps,
            0 < pj,
    ;
    assert(low < 2 * high) by (nonlinear_arith)
        requires
            low * d < 2 * high * d,
            0 < d,
    ;
    if s + 23 > j + t {
        if s + 23 > j + t + 1 {
            vstd::arithmetic::power2::lemma_pow2_strictly_increases(
                (j + t + 1) as nat,
                (s + 23) as nat,
            );
        }
    }
    // From above: x < 2^275 * d and b <= a give 2^(j + t) < 2^(s + 275).
    lemma_pow2_adds(s, 275);
    let far = pow2(s + 275) as int;
    let top = pow2(275) as int;
    assert(far == ps * top);
    assert(high * d < far * d) by (nonlinear_arith)
        requires
            high == pj * pt,
            far == ps * top,
            x < d * top,
            x * ps == a * pj,
            b <= a,
            b == d * pt,
            0 < ps,
            0 < pj,
    ;
    assert(high < far) by (nonlinear_arith)
        requires
            high * d < far * d,
            0 < d,
    ;
    if j + t >= s + 275 {
        if j + t > s + 275 {
            vstd::arithmetic::power2::lemma_pow2_strictly_increases(s + 275, j + t);
        }
    }
    let g = (j + t - s - 23) as nat;
    lemma_pow2_adds(s + 23, g);
    assert((s + 23 + g) as nat == (j + t) as nat);
    let pg = pow2(g) as int;
    assert(high == low * pg);
    assert(x * b == a * 0x80_0000 * pg * d) by (nonlinear_arith)
        requires
            x == n * pj,
            b == d * pt,
            a == n * ps,
            high == pj * pt,
            high == low * pg,
            low == 0x80_0000 * ps,
    ;
}

/// A size with at most 24 significant bits is its own nearest single.
pub proof fn lemma_nearest_is_exact(q: int, g: int, num: int, den: int)
    requires
        0 < q <= 0x100_0000,
        23 <= g <= 230,
        den > 0,
        num == (q * pow2(g as nat)) * den,
    ensures
        nearest(num, den).scaled() == q * pow2(g as nat),
        nearest(num, den).0 < 0x7f80_0000,
{
    vstd::arithmetic::power2::lemma2_to64();
    crate::arith::lemma_pow2_ordered(23, g as nat);
    let w = pow2(g as nat) as int;
    assert(w <= q * w) by (nonlinear_arith)
        requires
            0 < q,
            0 < w,
    ;
    let p = lemma_representable(q, g);
    assert(num >= 0) by (nonlinear_arith)
        requires
            num == (q * w) * den,
            0 < q,
            0 < w,
            0 < den,
    ;
    lemma_exact(p, num, den);
}

/// Whether the size `num / den` lies at or above the middle below the bit pattern `p`: at
/// the middle only if `p` is even.
spec fn reaches(p: int, num: int, den: int) -> bool {
    p == 0 || {
        let middle = (scaled_magnitude(p - 1) + scaled_magnitude(p)) * den;
        middle < 2 * num || (middle == 2 * num && p % 2 == 0)
    }
}

/// The largest pattern up to `limit` that the size reaches.
proof fn lemma_largest_reached(num: int, den: int, limit: int) -> (p: int)
    requires
        0 <= limit <= 0x7f80_0000,
        num >= 0,
        den > 0,
    ensures
        0 <= p <= limit,
        reaches(p, num, den),
        p < limit ==> !reaches(p + 1, num, den),
    decreases limit,
{
    if reaches(limit, num, den) {
        limit
    } else {
        lemma_largest_reached(num, den, limit - 1)
    }
}

/// Every size rounds to a bit pattern.
pub proof fn lemma_nearest_exists(num: int, den: int)
    requires
        num >= 0,
        den > 0,
    ensures
        rounds_to(nearest_size(num, den), num, den),
{
    let p = lemma_largest_reached(num, den, 0x7f80_0000);
    if p < 0x7f80_0000 {
        lemma_scaled_magnitude_ordered(0, p);
        lemma_scaled_magnitude_ordered(0, p + 1);
        assert(!reaches(p + 1, num, den));
    }
    assert(rounds_to(p, num, den));
}

/// Rounding keeps the order of numbers.
pub proof fn law_rounding_keeps_order(num: int, den: int, larger_num: int, larger_den: int)
    requires
        0 <= num,
        0 < den,
        0 <= larger_num,
        0 < larger_den,
        num * larger_den <= larger_num * den,
    ensures
        nearest(num, den).0 <= nearest(larger_num, larger_den).0 <= 0x7f80_0000,
        0 <= nearest(num, den).scaled() <= nearest(larger_num, larger_den).scaled(),
{
    lemma_nearest_exists(num, den);
    lemma_nearest_exists(larger_num, larger_den);
    let (p, q) = (nearest_size(num, den), nearest_size(larger_num, larger_den));
    if p > q {
        let a = scaled_magnitude(p - 1) + scaled_magnitude(p);
        let b = scaled_magnitude(q) + scaled_magnitude(q + 1);
        lemma_scaled_magnitude_ordered(q, p - 1);
        lemma_scaled_magnitude_ordered(q + 1, p);
        lemma_scaled_magnitude_ordered(0, q);
        lemma_scaled_magnitude_ordered(q, q + 1);
        // The sizes lie on both sides of the same middle: they are that middle.
        assert(a == b && a * den == 2 * num && b * larger_den == 2 * larger_num)
            by (nonlinear_arith)
            requires
                a * den <= 2 * num,
                2 * larger_num <= b * larger_den,
                num * larger_den <= larger_num * den,
                b <= a,
                0 < b,
                0 < den,
                0 < larger_den,
        ;
        if p > q + 1 {
            lemma_scaled_magnitude_ordered(q + 1, p);
        }
    }
    lemma_scaled_magnitude_ordered(0, p);
    lemma_scaled_magnitude_ordered(p, q);
    assert(scaled_magnitude(0) == 0);
}

/// Rounding to a normal single changes a size by at most one part in two to the power of
/// 24.
pub proof fn lemma_rounds_to_relative(p: int, num: int, den: int)
    requires
        rounds_to(p, num, den),
        den > 0,
        0x80_0000 <= p < 0x7f80_0000,
    ensures
        scaled_magnitude(p) * den * 0xff_ffff <= num * 0x100_0000,
        num * 0x100_0000 <= scaled_magnitude(p) * den * 0x100_0001,
{
    let g = p / 0x80_0000 - 1;
    let q = p - g * 0x80_0000;
    let w = pow2(g as nat) as int;
    lemma_pow2_pos(g as nat);
    lemma_pattern_size(g, q);
    lemma_pattern_size(g, q + 1);
    // The next single below, which lies closer where a binade ends.
    if q > 0x80_0000 {
        lemma_pattern_size(g, q - 1);
    } else if g > 0 {
        lemma_pattern_size(g - 1, 0xff_ffff);
        lemma_pow2_unfold(g as nat);
    } else {
        vstd::arithmetic::power2::lemma2_to64();
    }
    let (r, s, t) = (scaled_magnitude(p - 1), scaled_magnitude(p), scaled_magnitude(p + 1));
    assert(t == s + w) by (nonlinear_arith)
        requires
            s == q * w,
            t == (q + 1) * w,
    ;
    assert(s - w <= r) by (nonlinear_arith)
        requires
            s == q * w,
            r == (q - 1) * w || (q == 0x80_0000 && g > 0 && r == 0xff_ffff * pow2((g - 1) as nat)
                && w == 2 * pow2((g - 1) as nat)) || (q == 0x80_0000 && w == 1 && r == 0x7f_ffff),
    ;
    assert(w * 0x80_0000 <= s) by (nonlinear_arith)
        requires
            s == q * w,
            q >= 0x80_0000,
            w > 0,
    ;
    assert(s * den * 0xff_ffff <= num * 0x100_0000) by (nonlinear_arith)
        requires
            (r + s) * den <= 2 * num,
            s - w <= r,
            w * 0x80_0000 <= s,
            den > 0,
    ;
    assert(num * 0x100_0000 <= s * den * 0x100_0001) by (nonlinear_arith)
        requires
            2 * num <= (s + t) * den,
            t == s + w,
            w * 0x80_0000 <= s,
            den > 0,
    ;
}

/// Every number with at most 24 significant bits that is not below the normal range
/// is a single.
pub proof fn lemma_representable(q: int, g: int) -> (p: int)
    requires
        0 < q <= 0x100_0000,
        0 <= g <= 230,
        q * pow2(g as nat) >= 0x80_0000,
    ensures
        0x80_0000 <= p <= g * 0x80_0000 + 0x100_0000,
        scaled_magnitude(p) == q * pow2(g as nat),
    decreases 0x100_0000 - q,
{
    if q >= 0x80_0000 {
        lemma_pattern_size(g, q);
        g * 0x80_0000 + q
    } else {
        if g == 0 {
            vstd::arithmetic::power2::lemma2_to64();
        }
        lemma_pow2_unfold(g as nat);
        let w = pow2((g - 1) as nat) as int;
        assert((2 * q) * w == q * (2 * w)) by (nonlinear_arith);
        lemma_representable(2 * q, g - 1)
    }
}

/// The bit pattern of the single that `n / d` times two to the power of `j` units
/// rounds to, for numbers in the normal range.
pub fn round_fraction(n: u128, d: u128, j: u32) -> (p: u32)
    requires
        0 < n < 0x10_0000_0000_0000_0000_0000_0000,
        0 < d < 0x10_0000_0000_0000_0000_0000_0000,
        j <= 300,
        0x80_0000 * d <= n * pow2(j as nat),
        n * pow2(j as nat) < d * pow2(275),
    ensures
        rounds_to(p as int, n * pow2(j as nat), d as int),
        p < 0x7f80_0000,
{
    let mut a: u128 = n;
    let mut b: u128 = d;
    let mut s: u32 = 0;
    let mut t: u32 = 0;
    proof {
        vstd::arithmetic::power2::lemma2_to64();
    }
    while a < b
        invariant
            0 < n < 0x10_0000_0000_0000_0000_0000_0000,
            0 < b < 0x10_0000_0000_0000_0000_0000_0000,
            0 < a < 0x20_0000_0000_0000_0000_0000_0000,
            a == n * pow2(s as nat),
            s <= 100,
            s > 0 ==> a < 2 * b,
        decreases 2 * b - a,
    {
        proof {
            lemma_pow2_unfold((s + 1) as nat);
            assert(n * (2 * pow2(s as nat)) == 2 * (n * pow2(s as nat))) by (nonlinear_arith);
            lemma_below_power(a as int, n as int, s as nat);
        }
        a = a * 2;
        s = s + 1;
    }
    while a >= 2 * b
        invariant
            0 < d,
            0 < b <= a < 0x20_0000_0000_0000_0000_0000_0000,
            b == d * pow2(t as nat),
            t <= 100,
        decreases a - b,
    {
        proof {
            lemma_pow2_unfold((t + 1) as nat);
            assert(d * (2 * pow2(t as nat)) == 2 * (d * pow2(t as nat))) by (nonlinear_arith);
            lemma_below_power(b as int, d as int, t as nat);
        }
        b = b * 2;
        t = t + 1;
    }
    proof {
        lemma_binade(
            n as int,
            d as int,
            j as nat,
            a as int,
            b as int,
            s as nat,
            t as nat,
        );
    }
    let g: u32 = j + t - s - 23;
    let wide: u128 = a * 0x80_0000;
    let whole: u128 = wide / b;
    let rest: u128 = wide % b;
    let q: u128 = if 2 * rest > b || (2 * rest == b && whole % 2 == 1) {
        whole + 1
    } else {
        whole
    };
    proof {
        lemma_round_significand(a as int, b as int, q as int, g as int);
        lemma_rounds_to_same_fraction(
            g * 0x80_0000 + q,
            a * 0x80_0000 * pow2(g as nat),
            b as int,
            n * pow2(j as nat),
            d as int,
        );
    }
    g * 0x80_0000 + q as u32
}

} // verus!
