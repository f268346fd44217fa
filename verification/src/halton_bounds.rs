//! How large Halton sums in base 2 and 3 grow, rounding and all.
//!
//! The weights of the digits do not depend on the index, and rounding keeps the order of
//! numbers. So no sum exceeds the one in which every digit is the largest: a cap for each
//! number of digits.
use vstd::arithmetic::power2::{lemma_pow2_adds, lemma_pow2_pos, lemma_pow2_unfold, pow2};
use vstd::prelude::*;

use crate::arith::{lemma_pow2_ordered, lemma_power_pattern};
use crate::rounding::{
    lemma_exact, lemma_pattern_size, lemma_representable, lemma_rounds_to_at_most,
    lemma_rounds_to_at_most_near, lemma_rounds_to_one, lemma_rounds_to_same_fraction,
    lemma_scaled_magnitude_ordered, one, rounds_to,
};
use crate::single::{scaled_magnitude, Single};

verus! {

/// Three to the power of `k`, as far as indices reach.
pub open spec fn third_place(k: nat) -> int
    decreases k,
{
    if k == 0 {
        1
    } else {
        3 * third_place((k - 1) as nat)
    }
}

/// The bit pattern of the weight after `k` divisions by three, up to the twenty-first.
pub open spec fn third_weight(k: nat) -> int {
    if k == 0 {
        0x3f80_0000
    } else if k == 1 {
        0x3eaa_aaab
    } else if k == 2 {
        0x3de3_8e39
    } else if k == 3 {
        0x3d17_b426
    } else if k == 4 {
        0x3c4a_4588
    } else if k == 5 {
        0x3b86_d905
    } else if k == 6 {
        0x3ab3_cc07
    } else if k == 7 {
        0x39ef_bab4
    } else if k == 8 {
        0x391f_d1cd
    } else if k == 9 {
        0x3855_17bc
    } else if k == 10 {
        0x378e_0fd3
    } else if k == 11 {
        0x36bd_6a6f
    } else if k == 12 {
        0x35fc_8de9
    } else if k == 13 {
        0x3528_5e9b
    } else if k == 14 {
        0x3460_7e24
    } else if k == 15 {
        0x3395_a96d
    } else if k == 16 {
        0x32c7_8c91
    } else if k == 17 {
        0x3205_0861
    } else if k == 18 {
        0x3131_6081
    } else if k == 19 {
        0x306c_80ac
    } else if k == 20 {
        0x2f9d_ab1d
    } else {
        0x2ed2_397c
    }
}

/// The bit pattern of the sum of `k` digits in base three that are all two.
pub open spec fn third_cap(k: nat) -> int {
    if k == 0 {
        0x0000_0000
    } else if k == 1 {
        0x3f2a_aaab
    } else if k == 2 {
        0x3f63_8e39
    } else if k == 3 {
        0x3f76_84be
    } else if k == 4 {
        0x3f7c_d6ea
    } else if k == 5 {
        0x3f7e_f24e
    } else if k == 6 {
        0x3f7f_a61a
    } else if k == 7 {
        0x3f7f_e209
    } else if k == 8 {
        0x3f7f_f603
    } else if k == 9 {
        0x3f7f_fcac
    } else if k == 10 {
        0x3f7f_fee4
    } else if k == 11 {
        0x3f7f_ffa1
    } else if k == 12 {
        0x3f7f_ffe0
    } else if k == 13 {
        0x3f7f_fff5
    } else if k == 14 {
        0x3f7f_fffc
    } else if k == 15 {
        0x3f7f_fffe
    } else if k == 16 {
        0x3f7f_ffff
    } else if k == 17 {
        0x3f7f_ffff
    } else if k == 18 {
        0x3f7f_ffff
    } else if k == 19 {
        0x3f7f_ffff
    } else if k == 20 {
        0x3f7f_ffff
    } else {
        0x3f7f_ffff
    }
}

/// The integers up to three are singles.
proof fn lemma_small_integer(s: Single, x: int)
    requires
        0 <= x <= 3,
        s.0 < 0x7f80_0000,
        rounds_to(s.0 as int, x * one(), 1),
    ensures
        s.scaled() == x * one(),
{
    lemma_pow2_pos(149);
    if x == 0 {
        assert(scaled_magnitude(0) == 0);
        lemma_exact(0, 0, 1);
        lemma_rounds_to_one(s.0 as int, 0, x * one(), 1);
    } else {
        vstd::arithmetic::power2::lemma2_to64();
        lemma_pow2_ordered(23, 149);
        let c = one();
        assert(c <= x * c) by (nonlinear_arith)
            requires
                1 <= x,
                0 < c,
        ;
        let p = lemma_representable(x, 149);
        lemma_exact(p, x * one(), 1);
        lemma_rounds_to_one(s.0 as int, p, x * one(), 1);
    }
}

/// A number whose pattern is below that of one is below one.
pub proof fn lemma_below_one(s: Single)
    requires
        s.0 < 0x3f80_0000,
    ensures
        s.scaled() < one(),
{
    lemma_power_pattern(127);
    lemma_scaled_magnitude_ordered(s.0 as int, 0x3f80_0000);
}

/// The significand `qq`, `s` binades below `q`, is what a third of `q` rounds to.
proof fn lemma_third(g: int, q: int, gg: int, qq: int, w: int)
    requires
        0 <= gg <= g <= 250,
        pow2((g - gg) as nat) == w,
        0x80_0000 <= q < 0x100_0000,
        0x80_0000 < qq < 0xff_ffff,
        6 * qq - 3 < 2 * q * w < 6 * qq + 3,
    ensures
        rounds_to(gg * 0x80_0000 + qq, scaled_magnitude(g * 0x80_0000 + q), 3),
{
    lemma_pattern_size(g, q);
    lemma_pattern_size(gg, qq - 1);
    lemma_pattern_size(gg, qq);
    lemma_pattern_size(gg, qq + 1);
    lemma_pow2_adds(gg as nat, (g - gg) as nat);
    lemma_pow2_pos(gg as nat);
    let u = pow2(gg as nat) as int;
    assert(q * (u * w) == (q * w) * u) by (nonlinear_arith);
    assert(((qq - 1) * u + qq * u) * 3 < 2 * ((q * w) * u)) by (nonlinear_arith)
        requires
            6 * qq - 3 < 2 * q * w,
            u > 0,
    ;
    assert(2 * ((q * w) * u) < (qq * u + (qq + 1) * u) * 3) by (nonlinear_arith)
        requires
            2 * q * w < 6 * qq + 3,
            u > 0,
    ;
}

/// Every weight is what a third of the one before it rounds to.
pub proof fn lemma_third_weight(k: nat)
    requires
        k <= 20,
    ensures
        rounds_to(third_weight(k + 1), scaled_magnitude(third_weight(k)), 3),
{
    vstd::arithmetic::power2::lemma2_to64();
    if k == 0 {
        lemma_third(126, 0x80_0000, 124, 0xaa_aaab, 4);
    } else if k == 1 {
        lemma_third(124, 0xaa_aaab, 122, 0xe3_8e39, 4);
    } else if k == 2 {
        lemma_third(122, 0xe3_8e39, 121, 0x97_b426, 2);
    } else if k == 3 {
        lemma_third(121, 0x97_b426, 119, 0xca_4588, 4);
    } else if k == 4 {
        lemma_third(119, 0xca_4588, 118, 0x86_d905, 2);
    } else if k == 5 {
        lemma_third(118, 0x86_d905, 116, 0xb3_cc07, 4);
    } else if k == 6 {
        lemma_third(116, 0xb3_cc07, 114, 0xef_bab4, 4);
    } else if k == 7 {
        lemma_third(114, 0xef_bab4, 113, 0x9f_d1cd, 2);
    } else if k == 8 {
        lemma_third(113, 0x9f_d1cd, 111, 0xd5_17bc, 4);
    } else if k == 9 {
        lemma_third(111, 0xd5_17bc, 110, 0x8e_0fd3, 2);
    } else if k == 10 {
        lemma_third(110, 0x8e_0fd3, 108, 0xbd_6a6f, 4);
    } else if k == 11 {
        lemma_third(108, 0xbd_6a6f, 106, 0xfc_8de9, 4);
    } else if k == 12 {
        lemma_third(106, 0xfc_8de9, 105, 0xa8_5e9b, 2);
    } else if k == 13 {
        lemma_third(105, 0xa8_5e9b, 103, 0xe0_7e24, 4);
    } else if k == 14 {
        lemma_third(103, 0xe0_7e24, 102, 0x95_a96d, 2);
    } else if k == 15 {
        lemma_third(102, 0x95_a96d, 100, 0xc7_8c91, 4);
    } else if k == 16 {
        lemma_third(100, 0xc7_8c91, 99, 0x85_0861, 2);
    } else if k == 17 {
        lemma_third(99, 0x85_0861, 97, 0xb1_6081, 4);
    } else if k == 18 {
        lemma_third(97, 0xb1_6081, 95, 0xec_80ac, 4);
    } else if k == 19 {
        lemma_third(95, 0xec_80ac, 94, 0x9d_ab1d, 2);
    } else {
        lemma_third(94, 0x9d_ab1d, 92, 0xd2_397c, 4);
    }
}

/// Adding a digit of two, of significand `a`, to a sum below one keeps it under the next
/// cap: so does a smaller digit.
proof fn lemma_cap(m: int, mm: int, ga: int, a: int, w: int, s: int, x: int)
    requires
        0 <= ga <= 125,
        pow2((125 - ga) as nat) == w,
        0x80_0000 <= m < 0x100_0000,
        0x80_0000 <= mm < 0x100_0000,
        0x80_0000 <= a < 0x100_0000,
        2 * (m * w + a) < (2 * mm + 1) * w,
        s <= scaled_magnitude(125 * 0x80_0000 + m),
        x <= scaled_magnitude(ga * 0x80_0000 + a),
    ensures
        2 * (s + x) < scaled_magnitude(125 * 0x80_0000 + mm) + scaled_magnitude(
            125 * 0x80_0000 + mm + 1,
        ),
{
    lemma_pattern_size(125, m);
    lemma_pattern_size(125, mm);
    lemma_pattern_size(125, mm + 1);
    lemma_pattern_size(ga, a);
    lemma_pow2_adds(ga as nat, (125 - ga) as nat);
    lemma_pow2_pos(ga as nat);
    let u = pow2(ga as nat) as int;
    assert(2 * (m * (u * w) + a * u) < mm * (u * w) + (mm + 1) * (u * w)) by (nonlinear_arith)
        requires
            2 * (m * w + a) < (2 * mm + 1) * w,
            u > 0,
    ;
}

/// A sum under its cap stays under the next one, whatever the digit.
proof fn lemma_third_cap(k: nat, s: int, x: int)
    requires
        k <= 20,
        s <= scaled_magnitude(third_cap(k)),
        x <= scaled_magnitude(third_weight(k + 1) + 0x80_0000),
    ensures
        2 * (s + x) < scaled_magnitude(third_cap(k + 1)) + scaled_magnitude(third_cap(k + 1) + 1),
{
    vstd::arithmetic::power2::lemma2_to64();
    if k == 0 {
        assert(scaled_magnitude(0) == 0);
        lemma_scaled_magnitude_ordered(0x3f2a_aaab, 0x3f2a_aaac);
    } else if k == 1 {
        lemma_cap(0xaa_aaab, 0xe3_8e39, 123, 0xe3_8e39, 0x4, s, x);
    } else if k == 2 {
        lemma_cap(0xe3_8e39, 0xf6_84be, 122, 0x97_b426, 0x8, s, x);
    } else if k == 3 {
        lemma_cap(0xf6_84be, 0xfc_d6ea, 120, 0xca_4588, 0x20, s, x);
    } else if k == 4 {
        lemma_cap(0xfc_d6ea, 0xfe_f24e, 119, 0x86_d905, 0x40, s, x);
    } else if k == 5 {
        lemma_cap(0xfe_f24e, 0xff_a61a, 117, 0xb3_cc07, 0x100, s, x);
    } else if k == 6 {
        lemma_cap(0xff_a61a, 0xff_e209, 115, 0xef_bab4, 0x400, s, x);
    } else if k == 7 {
        lemma_cap(0xff_e209, 0xff_f603, 114, 0x9f_d1cd, 0x800, s, x);
    } else if k == 8 {
        lemma_cap(0xff_f603, 0xff_fcac, 112, 0xd5_17bc, 0x2000, s, x);
    } else if k == 9 {
        lemma_cap(0xff_fcac, 0xff_fee4, 111, 0x8e_0fd3, 0x4000, s, x);
    } else if k == 10 {
        lemma_cap(0xff_fee4, 0xff_ffa1, 109, 0xbd_6a6f, 0x1_0000, s, x);
    } else if k == 11 {
        lemma_cap(0xff_ffa1, 0xff_ffe0, 107, 0xfc_8de9, 0x4_0000, s, x);
    } else if k == 12 {
        lemma_cap(0xff_ffe0, 0xff_fff5, 106, 0xa8_5e9b, 0x8_0000, s, x);
    } else if k == 13 {
        lemma_cap(0xff_fff5, 0xff_fffc, 104, 0xe0_7e24, 0x20_0000, s, x);
    } else if k == 14 {
        lemma_cap(0xff_fffc, 0xff_fffe, 103, 0x95_a96d, 0x40_0000, s, x);
    } else if k == 15 {
        lemma_cap(0xff_fffe, 0xff_ffff, 101, 0xc7_8c91, 0x100_0000, s, x);
    } else if k == 16 {
        lemma_cap(0xff_ffff, 0xff_ffff, 100, 0x85_0861, 0x200_0000, s, x);
    } else if k == 17 {
        lemma_cap(0xff_ffff, 0xff_ffff, 98, 0xb1_6081, 0x800_0000, s, x);
    } else if k == 18 {
        lemma_cap(0xff_ffff, 0xff_ffff, 96, 0xec_80ac, 0x2000_0000, s, x);
    } else if k == 19 {
        lemma_cap(0xff_ffff, 0xff_ffff, 95, 0x9d_ab1d, 0x4000_0000, s, x);
    } else {
        lemma_cap(0xff_ffff, 0xff_ffff, 93, 0xd2_397c, 0x1_0000_0000, s, x);
    }
}

/// All caps in base three are below one.
pub proof fn lemma_third_caps_are_below_one(k: nat)
    ensures
        0 <= third_cap(k) < 0x3f80_0000,
{
}

/// An index of 32 bits has at most 21 digits in base three.
proof fn lemma_third_digits(index: int, rest: int, k: nat)
    requires
        rest > 0,
        rest * third_place(k) <= index < 0x1_0000_0000,
        k <= 21,
    ensures
        k <= 20,
{
    if k == 21 {
        reveal_with_fuel(third_place, 22);
        assert(third_place(21) == 10460353203);
        assert(rest * 10460353203 >= 10460353203) by (nonlinear_arith)
            requires
                rest > 0,
        ;
    }
}

/// Twice a normal number is the pattern one binade higher.
pub proof fn lemma_twice(p: int)
    requires
        0x80_0000 <= p,
    ensures
        scaled_magnitude(p + 0x80_0000) == 2 * scaled_magnitude(p),
{
    let g = p / 0x80_0000 - 1;
    let q = p - g * 0x80_0000;
    lemma_pattern_size(g, q);
    lemma_pattern_size(g + 1, q);
    lemma_pow2_unfold((g + 1) as nat);
    let w = pow2(g as nat) as int;
    assert(q * (2 * w) == 2 * (q * w)) by (nonlinear_arith);
}

/// One digit in base three: the weight is the next one of the table, and the sum stays
/// under the next cap.
pub proof fn lemma_third_step(
    index: int,
    rest: int,
    k: nat,
    factors: (Single, Single),
    weights: (Single, Single),
    addend: Single,
    sums: (Single, Single),
)
    requires
        0 < rest,
        k <= 21,
        rest * third_place(k) <= index < 0x1_0000_0000,
        factors.0.0 < 0x7f80_0000,
        factors.1.0 < 0x7f80_0000,
        rounds_to(factors.0.0 as int, 3 * one(), 1),
        rounds_to(factors.1.0 as int, (rest % 3) * one(), 1),
        weights.0.0 == third_weight(k),
        weights.1.0 < 0x7f80_0000,
        rounds_to(weights.1.0 as int, weights.0.scaled() * one(), factors.0.scaled()),
        rounds_to(addend.0 as int, weights.1.scaled() * factors.1.scaled(), one()),
        addend.0 < 0x7f80_0000,
        sums.0.0 <= third_cap(k),
        sums.1.0 < 0x7f80_0000,
        rounds_to(sums.1.0 as int, sums.0.scaled() + addend.scaled(), 1),
    ensures
        k <= 20,
        rest / 3 > 0 ==> (rest / 3) * third_place(k + 1) <= index,
        weights.1.0 == third_weight(k + 1),
        sums.1.0 <= third_cap(k + 1),
{
    lemma_third_digits(index, rest, k);
    let d = rest % 3;
    let c = one();
    let (f, g) = (weights.0.scaled(), weights.1.scaled());
    lemma_pow2_pos(149);
    lemma_small_integer(factors.0, 3);
    lemma_small_integer(factors.1, d);
    // The weight.
    assert((f * c) * 3 == f * (3 * c)) by (nonlinear_arith);
    lemma_rounds_to_same_fraction(weights.1.0 as int, f * c, 3 * c, f, 3);
    lemma_third_weight(k);
    lemma_rounds_to_one(weights.1.0 as int, third_weight(k + 1), f, 3);
    // What the digit adds.
    lemma_scaled_magnitude_ordered(0, weights.1.0 as int);
    assert(scaled_magnitude(0) == 0);
    assert(g * (d * c) == (g * d) * c) by (nonlinear_arith);
    lemma_rounds_to_same_fraction(addend.0 as int, g * (d * c), c, g * d, 1);
    assert(g * d <= 2 * g) by (nonlinear_arith)
        requires
            0 <= d <= 2,
            0 <= g,
    ;
    lemma_twice(third_weight(k + 1));
    lemma_rounds_to_at_most(addend.0 as int, g * d, 1, third_weight(k + 1) + 0x80_0000);
    lemma_scaled_magnitude_ordered(addend.0 as int, third_weight(k + 1) + 0x80_0000);
    // The sum.
    lemma_scaled_magnitude_ordered(sums.0.0 as int, third_cap(k));
    lemma_third_cap(k, sums.0.scaled(), addend.scaled());
    lemma_rounds_to_at_most_near(
        sums.1.0 as int,
        sums.0.scaled() + addend.scaled(),
        1,
        third_cap(k + 1),
    );
    // The rest.
    let (q, t) = (rest / 3, third_place(k));
    lemma_third_place_positive(k);
    assert(q * (3 * t) <= rest * t) by (nonlinear_arith)
        requires
            3 * q <= rest,
            t > 0,
    ;
}

proof fn lemma_third_place_positive(k: nat)
    ensures
        third_place(k) > 0,
    decreases k,
{
    if k > 0 {
        lemma_third_place_positive((k - 1) as nat);
    }
}

/// The bit pattern of the sum of `k` digits in base two that are all one, up to the
/// twenty-fourth: one, less the weight of the last.
pub open spec fn half_cap(k: nat) -> int {
    if k == 0 {
        0
    } else {
        0x3f80_0000 - pow2((24 - k) as nat)
    }
}

/// Where a sum in base two stands after `k` digits, which make up `low`: at the cap if all
/// were one, else no higher than the cap before it. Past the twenty-fourth digit it stays
/// below one, unless the first twenty-five digits are all one: then it is one.
pub open spec fn follows_half_caps(
    index: int,
    rest: int,
    k: nat,
    low: int,
    result: int,
) -> bool {
    &&& index == rest * pow2(k) + low
    &&& 0 <= low < pow2(k)
    &&& k <= 24 && low == pow2(k) - 1 ==> result == half_cap(k)
    &&& k <= 24 && low != pow2(k) - 1 ==> k > 0 && result <= half_cap((k - 1) as nat)
    &&& k > 24 && index % 0x200_0000 != 0x1ff_ffff ==> result <= 0x3f7f_ffff
    &&& k > 24 && index % 0x200_0000 == 0x1ff_ffff ==> result == 0x3f80_0000
}

proof fn lemma_half_cap(k: nat)
    requires
        k <= 24,
    ensures
        scaled_magnitude(half_cap(k)) == one() - pow2((149 - k) as nat),
        0 <= half_cap(k) < 0x3f80_0000,
        k == 23 ==> half_cap(k) == 0x3f7f_fffe,
        k == 24 ==> half_cap(k) == 0x3f7f_ffff,
{
    vstd::arithmetic::power2::lemma2_to64();
    if k == 0 {
        assert(scaled_magnitude(0) == 0);
    } else {
        let w = pow2((24 - k) as nat) as int;
        lemma_pow2_ordered((24 - k) as nat, 23);
        lemma_pow2_pos((24 - k) as nat);
        lemma_pattern_size(125, 0x100_0000 - w);
        lemma_pow2_adds((24 - k) as nat, 125);
        lemma_pow2_adds(24, 125);
        let u = pow2(125) as int;
        assert((0x100_0000 - w) * u == 0x100_0000 * u - w * u) by (nonlinear_arith);
    }
}

/// All caps in base two are below one.
pub proof fn lemma_half_caps_are_below_one(index: int, k: nat, low: int, result: int)
    requires
        follows_half_caps(index, 0, k, low, result),
    ensures
        index % 0x200_0000 != 0x1ff_ffff ==> result < 0x3f80_0000,
        index % 0x200_0000 == 0x1ff_ffff ==> result == 0x3f80_0000,
{
    if k <= 24 {
        lemma_half_cap(k);
        if k > 0 {
            lemma_half_cap((k - 1) as nat);
        }
        // Fewer than twenty-five digits.
        assert(0 * pow2(k) == 0) by (nonlinear_arith);
        vstd::arithmetic::power2::lemma2_to64();
        lemma_pow2_ordered(k, 24);
    }
}

/// One digit in base two: the weight is halved exactly, and the sum stays under the next
/// cap.
pub proof fn lemma_half_step(
    index: int,
    rest: int,
    k: nat,
    low: int,
    factors: (Single, Single),
    weights: (Single, Single),
    addend: Single,
    sums: (Single, Single),
)
    requires
        0 < rest,
        k <= 32,
        follows_half_caps(index, rest, k, low, sums.0.0 as int),
        factors.0.0 < 0x7f80_0000,
        factors.1.0 < 0x7f80_0000,
        rounds_to(factors.0.0 as int, 2 * one(), 1),
        rounds_to(factors.1.0 as int, (rest % 2) * one(), 1),
        weights.0.0 == (127 - k) * 0x80_0000,
        weights.1.0 < 0x7f80_0000,
        rounds_to(weights.1.0 as int, weights.0.scaled() * one(), factors.0.scaled()),
        rounds_to(addend.0 as int, weights.1.scaled() * factors.1.scaled(), one()),
        addend.0 < 0x7f80_0000,
        sums.1.0 < 0x7f80_0000,
        sums.0.0 < 0x7f80_0000,
        rounds_to(sums.1.0 as int, sums.0.scaled() + addend.scaled(), 1),
    ensures
        weights.1.0 == (127 - (k + 1)) * 0x80_0000,
        follows_half_caps(
            index,
            rest / 2,
            k + 1,
            low + (rest % 2) * pow2(k),
            sums.1.0 as int,
        ),
{
    let d = rest % 2;
    let c = one();
    let (f, g) = (weights.0.scaled(), weights.1.scaled());
    lemma_pow2_pos(149);
    lemma_small_integer(factors.0, 2);
    lemma_small_integer(factors.1, d);
    // The weight.
    let next = (127 - (k + 1)) * 0x80_0000;
    lemma_power_pattern(127 - k);
    lemma_power_pattern(127 - (k + 1));
    lemma_pow2_unfold((149 - k) as nat);
    assert((f * c) * 2 == f * (2 * c)) by (nonlinear_arith);
    lemma_rounds_to_same_fraction(weights.1.0 as int, f * c, 2 * c, f, 2);
    lemma_exact(next, f, 2);
    lemma_rounds_to_one(weights.1.0 as int, next, f, 2);
    // What the digit adds.
    let half = pow2((148 - k) as nat) as int;
    lemma_pow2_pos((148 - k) as nat);
    assert(g * (d * c) == (g * d) * c) by (nonlinear_arith);
    lemma_rounds_to_same_fraction(addend.0 as int, g * (d * c), c, g * d, 1);
    assert(scaled_magnitude(0) == 0);
    if d == 0 {
        assert(g * 0 == 0) by (nonlinear_arith);
        lemma_exact(0, 0, 1);
        lemma_rounds_to_one(addend.0 as int, 0, 0, 1);
    } else {
        assert(g * 1 == g) by (nonlinear_arith);
        lemma_exact(next, g, 1);
        lemma_rounds_to_one(addend.0 as int, next, g, 1);
    }
    assert(addend.scaled() == d * half);
    // The digits.
    lemma_half_digits(index, rest, k, low);
    let new_low = low + d * pow2(k);
    // The sum.
    let s = sums.0.scaled();
    let p = sums.1.0 as int;
    if k < 24 {
        lemma_half_cap(k);
        lemma_half_cap(k + 1);
        if k > 0 {
            lemma_half_cap((k - 1) as nat);
            lemma_pow2_unfold((150 - k) as nat);
        }
        if low == pow2(k) - 1 && d == 1 {
            lemma_exact(half_cap(k + 1), s + half, 1);
            lemma_rounds_to_one(p, half_cap(k + 1), s + half, 1);
        } else {
            if low == pow2(k) - 1 {
                lemma_scaled_magnitude_ordered(sums.0.0 as int, half_cap(k));
            } else {
                lemma_scaled_magnitude_ordered(sums.0.0 as int, half_cap((k - 1) as nat));
            }
            lemma_rounds_to_at_most(p, s + d * half, 1, half_cap(k));
        }
    } else {
        lemma_half_cap(23);
        lemma_half_cap(24);
        lemma_power_pattern(127);
        lemma_pattern_size(126, 0x80_0001);
        lemma_pow2_unfold(126);
        lemma_pow2_unfold(125);
        lemma_pow2_unfold(124);
        lemma_pow2_adds(23, 126);
        vstd::arithmetic::power2::lemma2_to64();
        if k == 24 {
            if low != pow2(24) - 1 {
                lemma_scaled_magnitude_ordered(sums.0.0 as int, 0x3f7f_fffe);
                lemma_rounds_to_at_most_near(p, s + d * half, 1, 0x3f7f_fffe);
            } else if d == 0 {
                lemma_rounds_to_at_most(p, s, 1, 0x3f7f_ffff);
            } else {
                assert(rounds_to(0x3f80_0000, s + half, 1));
                lemma_rounds_to_one(p, 0x3f80_0000, s + half, 1);
            }
        } else {
            lemma_pow2_ordered((148 - k) as nat, 123);
            if index % 0x200_0000 != 0x1ff_ffff {
                lemma_scaled_magnitude_ordered(sums.0.0 as int, 0x3f7f_ffff);
                lemma_rounds_to_at_most_near(p, s + d * half, 1, 0x3f7f_ffff);
            } else {
                assert(rounds_to(0x3f80_0000, s + d * half, 1));
                lemma_rounds_to_one(p, 0x3f80_0000, s + d * half, 1);
            }
        }
    }
}

/// The digits that have been added, and those that are left.
proof fn lemma_half_digits(index: int, rest: int, k: nat, low: int)
    requires
        rest > 0,
        index == rest * pow2(k) + low,
        0 <= low < pow2(k),
    ensures
        index == (rest / 2) * pow2(k + 1) + (low + (rest % 2) * pow2(k)),
        0 <= low + (rest % 2) * pow2(k) < pow2(k + 1),
        low + (rest % 2) * pow2(k) == pow2(k + 1) - 1 <==> rest % 2 == 1 && low == pow2(k) - 1,
        k == 24 ==> (index % 0x200_0000 == 0x1ff_ffff <==> rest % 2 == 1 && low == pow2(24) - 1),
{
    lemma_pow2_unfold(k + 1);
    let (w, q, d) = (pow2(k) as int, rest / 2, rest % 2);
    assert(rest * w == q * (2 * w) + d * w) by (nonlinear_arith)
        requires
            rest == 2 * q + d,
    ;
    assert(d * w == (if d == 1 {
        w
    } else {
        0
    })) by (nonlinear_arith)
        requires
            d == 0 || d == 1,
    ;
    if k == 24 {
        vstd::arithmetic::power2::lemma2_to64();
        assert(q * (2 * w) == q * 0x200_0000) by (nonlinear_arith)
            requires
                w == 0x100_0000,
        ;
    }
}

} // verus!
