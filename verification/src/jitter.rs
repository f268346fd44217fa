//! Upscale ratios and the jitter patterns that go with them.
use vstd::arithmetic::power2::{lemma_pow2_adds, lemma_pow2_pos, lemma_pow2_unfold, pow2};
use vstd::prelude::*;

use crate::arith::{
    difference, from_integer, lemma_power_pattern, product, quotient, truncated,
};
use crate::halton::{halton, halton_value};
use crate::rounding::{
    law_rounding_keeps_order, lemma_exact, lemma_nearest_exists, lemma_nearest_is_exact,
    lemma_pattern_size, lemma_rounds_to_at_least, lemma_rounds_to_at_most,
    lemma_rounds_to_relative, lemma_scaled_magnitude_ordered, one, rounds_to,
};
use crate::single::{scaled_magnitude, Single};

verus! {

/// The ratio of two widths, each rounded to a single first.
pub open spec fn ratio_of(destination_width: u32, source_width: u32) -> Single {
    quotient(from_integer(destination_width as int), from_integer(source_width as int))
}

/// Whether a number lies within one part in two million of `numerator / denominator`.
pub open spec fn is_close(r: Single, numerator: int, denominator: int) -> bool {
    &&& 0x1f_ffff * (numerator * one()) <= 0x20_0000 * (r.scaled() * denominator)
    &&& 0x20_0000 * (r.scaled() * denominator) <= 0x20_0001 * (numerator * one())
}

/// Three roundings, of both widths and of their ratio, keep the ratio close.
proof fn lemma_ratio_is_close(d: int, s: int, a: Single, b: Single, r: Single)
    requires
        d > 0,
        s > 0,
        0x3f80_0000 <= a.0 <= 0x4f80_0000,
        0x3f80_0000 <= b.0 <= 0x4f80_0000,
        0x2f80_0000 <= r.0 <= 0x4f80_0000,
        rounds_to(a.0 as int, d * one(), 1),
        rounds_to(b.0 as int, s * one(), 1),
        rounds_to(r.0 as int, a.scaled() * one(), b.scaled()),
    ensures
        is_close(r, d, s),
{
    let c = one();
    let (x, y, z) = (a.scaled(), b.scaled(), r.scaled());
    lemma_pow2_pos(149);
    lemma_scaled_magnitude_ordered(0, b.0 as int);
    lemma_scaled_magnitude_ordered(0, r.0 as int);
    assert(scaled_magnitude(0) == 0);
    lemma_rounds_to_relative(a.0 as int, d * c, 1);
    lemma_rounds_to_relative(b.0 as int, s * c, 1);
    lemma_rounds_to_relative(r.0 as int, x * c, y);
    // Everything over the same denominator: the ratio times the rounded and the exact
    // width, and both destination widths.
    let (rounded, exact) = (z * y, z * (s * c));
    let (top, bottom) = (x * c, (d * c) * c);
    assert(rounded * 0xff_ffff <= exact * 0x100_0000 <= rounded * 0x100_0001) by (nonlinear_arith)
        requires
            rounded == z * y,
            exact == z * (s * c),
            y * 0xff_ffff <= (s * c) * 0x100_0000 <= y * 0x100_0001,
            z >= 0,
    ;
    assert(top * 0xff_ffff <= bottom * 0x100_0000 <= top * 0x100_0001) by (nonlinear_arith)
        requires
            top == x * c,
            bottom == (d * c) * c,
            x * 0xff_ffff <= (d * c) * 0x100_0000 <= x * 0x100_0001,
            c > 0,
    ;
    assert(rounded * 0xff_ffff <= top * 0x100_0000 <= rounded * 0x100_0001);
    assert(0 <= rounded && 0 <= top && 0 <= bottom) by (nonlinear_arith)
        requires
            rounded == z * y,
            top == x * c,
            bottom == (d * c) * c,
            0 <= z,
            0 <= y,
            x * 0x100_0001 >= (d * c) * 0x100_0000,
            d > 0,
            c > 0,
    ;
    assert(0x1f_ffff * bottom <= 0x20_0000 * exact <= 0x20_0001 * bottom);
    assert(0x1f_ffff * (d * c) <= 0x20_0000 * (z * s) <= 0x20_0001 * (d * c)) by (nonlinear_arith)
        requires
            0x1f_ffff * bottom <= 0x20_0000 * exact <= 0x20_0001 * bottom,
            exact == z * (s * c),
            bottom == (d * c) * c,
            c > 0,
    ;
}

/// The ratio of two widths lies in the range of the ratios of 32-bit widths, close to the
/// exact ratio.
pub proof fn lemma_ratio(destination_width: u32, source_width: u32)
    requires
        source_width > 0,
    ensures
        ({
            let r = ratio_of(destination_width, source_width);
            &&& r.0 == 0 || 0x2f80_0000 <= r.0 <= 0x4f80_0000
            &&& is_close(r, destination_width as int, source_width as int)
        }),
{
    let (d, s) = (destination_width as int, source_width as int);
    let c = one();
    let (a, b) = (from_integer(d), from_integer(s));
    let r = ratio_of(destination_width, source_width);
    lemma_pow2_pos(149);
    lemma_power_pattern(95);
    lemma_power_pattern(127);
    lemma_power_pattern(159);
    lemma_pow2_adds(32, 149);
    vstd::arithmetic::power2::lemma2_to64();
    let high = pow2(181) as int;
    assert(c <= s * c <= high) by (nonlinear_arith)
        requires
            1 <= s <= 0x1_0000_0000,
            high == 0x1_0000_0000 * c,
            0 < c,
    ;
    lemma_nearest_exists(s * c, 1);
    lemma_rounds_to_at_least(b.0 as int, s * c, 1, 0x3f80_0000);
    lemma_rounds_to_at_most(b.0 as int, s * c, 1, 0x4f80_0000);
    lemma_scaled_magnitude_ordered(0x3f80_0000, b.0 as int);
    lemma_scaled_magnitude_ordered(b.0 as int, 0x4f80_0000);
    let y = b.scaled();
    if d > 0 {
        assert(c <= d * c <= high) by (nonlinear_arith)
            requires
                1 <= d <= 0x1_0000_0000,
                high == 0x1_0000_0000 * c,
                0 < c,
        ;
        lemma_nearest_exists(d * c, 1);
        lemma_rounds_to_at_least(a.0 as int, d * c, 1, 0x3f80_0000);
        lemma_rounds_to_at_most(a.0 as int, d * c, 1, 0x4f80_0000);
        lemma_scaled_magnitude_ordered(0x3f80_0000, a.0 as int);
        lemma_scaled_magnitude_ordered(a.0 as int, 0x4f80_0000);
        let x = a.scaled();
        let low = pow2(117) as int;
        lemma_pow2_pos(117);
        lemma_pow2_adds(117, 181);
        lemma_pow2_adds(149, 149);
        assert(low * y <= x * c) by (nonlinear_arith)
            requires
                0 < low,
                y <= high,
                c <= x,
                low * high == c * c,
                0 < c,
        ;
        assert(0 <= x * c <= high * y) by (nonlinear_arith)
            requires
                x <= high,
                0 < c <= y,
                0 < x,
        ;
        lemma_nearest_exists(x * c, y);
        lemma_rounds_to_at_least(r.0 as int, x * c, y, 0x2f80_0000);
        lemma_rounds_to_at_most(r.0 as int, x * c, y, 0x4f80_0000);
        lemma_ratio_is_close(d, s, a, b, r);
    } else {
        assert(scaled_magnitude(0) == 0);
        assert(0 * c == 0 && 0 * s == 0 && 0 * y == 0) by (nonlinear_arith);
        lemma_exact(0, 0, 1);
        lemma_exact(0, 0, y);
    }
}

/// The ratio of two widths, each rounded to a single first: close to the exact ratio.
pub fn upscale_ratio(destination_width: u32, source_width: u32) -> (r: Single)
    requires
        source_width > 0,
    ensures
        r == ratio_of(destination_width, source_width),
        r.0 == 0 || 0x2f80_0000 <= r.0 <= 0x4f80_0000,
        is_close(r, destination_width as int, source_width as int),
{
    proof {
        lemma_ratio(destination_width, source_width);
    }
    Single::from_u32(destination_width).divided_by(Single::from_u32(source_width))
}

/// Eight times the square of an upscale ratio, without its fraction: the number of
/// jitter positions that the ratio calls for.
pub open spec fn phases_of(ratio: Single) -> int {
    // 0x4100_0000 is 8.0.
    truncated(product(product(Single(0x4100_0000), ratio), ratio))
}

/// The number of jitter positions that an upscale ratio calls for.
pub fn phases(ratio: Single) -> (count: u32)
    requires
        ratio.0 == 0 || 0x2f80_0000 <= ratio.0 <= 0x4f80_0000,
    ensures
        count == phases_of(ratio),
{
    let eight = Single(0x4100_0000);
    let once = eight.times(ratio);
    proof {
        if ratio.0 != 0 {
            lemma_power_pattern(130);
            lemma_power_pattern(95);
            lemma_power_pattern(98);
            lemma_power_pattern(159);
            lemma_power_pattern(162);
            lemma_scaled_magnitude_ordered(0x2f80_0000, ratio.0 as int);
            lemma_scaled_magnitude_ordered(ratio.0 as int, 0x4f80_0000);
            let (e, x) = (pow2(152) as int, ratio.scaled());
            let (low, high) = (pow2(120) as int, pow2(184) as int);
            lemma_pow2_pos(149);
            lemma_pow2_pos(152);
            lemma_pow2_adds(120, 149);
            lemma_pow2_adds(152, 117);
            lemma_pow2_adds(184, 149);
            lemma_pow2_adds(152, 181);
            let (least, most) = (pow2(117) as int, pow2(181) as int);
            assert(low * one() <= e * x <= high * one()) by (nonlinear_arith)
                requires
                    0 < e,
                    least <= x <= most,
                    low * one() == e * least,
                    high * one() == e * most,
            ;
            lemma_rounds_to_at_least(once.0 as int, e * x, one(), 0x3100_0000);
            lemma_rounds_to_at_most(once.0 as int, e * x, one(), 0x5100_0000);
        }
    }
    once.times(ratio).to_u32()
}

/// Where the ratio of the widths is a fraction over a power of two, such as 3/2, 2 or 3,
/// nothing is rounded: the number of positions is eight times its square, without the
/// fraction.
pub proof fn law_phases_of_exact_ratios(
    destination_width: u32,
    source_width: u32,
    numerator: nat,
    log_denominator: nat,
)
    requires
        0 < source_width <= 0x100_0000,
        destination_width <= 0x100_0000,
        0 < numerator <= 4096,
        log_denominator <= 24,
        destination_width * pow2(log_denominator) == source_width * numerator,
    ensures
        phases_of(ratio_of(destination_width, source_width)) == (8 * numerator * numerator) / pow2(
            2 * log_denominator,
        ),
{
    let (d, s) = (destination_width as int, source_width as int);
    let (n, j) = (numerator as int, log_denominator as int);
    let c = one();
    let unit = pow2(log_denominator) as int;
    lemma_pow2_pos(149);
    lemma_pow2_pos(log_denominator);
    assert(d > 0) by (nonlinear_arith)
        requires
            d * unit == s * n,
            s > 0,
            n > 0,
            unit > 0,
    ;
    // The widths.
    lemma_nearest_is_exact(d, 149, d * c, 1);
    lemma_nearest_is_exact(s, 149, s * c, 1);
    // Their ratio.
    let w = pow2((149 - j) as nat) as int;
    lemma_pow2_adds(log_denominator, (149 - j) as nat);
    assert(s * c > 0) by (nonlinear_arith)
        requires
            s > 0,
            c > 0,
    ;
    assert((d * c) * c == (n * w) * (s * c)) by (nonlinear_arith)
        requires
            c == unit * w,
            d * unit == s * n,
    ;
    lemma_nearest_is_exact(n, 149 - j, (d * c) * c, s * c);
    let ratio = ratio_of(destination_width, source_width);
    assert(ratio.scaled() == n * w);
    // Eight times the ratio.
    lemma_power_pattern(130);
    lemma_pow2_adds(3, 149);
    lemma_pow2_adds(3, (149 - j) as nat);
    vstd::arithmetic::power2::lemma2_to64();
    let eight = Single(0x4100_0000);
    let w8 = pow2((152 - j) as nat) as int;
    assert((8 * c) * (n * w) == (n * w8) * c) by (nonlinear_arith)
        requires
            w8 == 8 * w,
    ;
    lemma_nearest_is_exact(n, 152 - j, (8 * c) * (n * w), c);
    let once = product(eight, ratio);
    assert(once.scaled() == n * w8);
    // Eight times the square.
    let w2 = pow2((152 - 2 * j) as nat) as int;
    let (rest, part) = (pow2((149 - 2 * j) as nat) as int, pow2(2 * log_denominator) as int);
    lemma_pow2_adds((152 - 2 * j) as nat, log_denominator);
    lemma_pow2_adds(3, (149 - 2 * j) as nat);
    lemma_pow2_adds(2 * log_denominator, (149 - 2 * j) as nat);
    lemma_pow2_pos((149 - 2 * j) as nat);
    lemma_pow2_pos(2 * log_denominator);
    assert((n * w8) * (n * w) == ((n * n) * w2) * c) by (nonlinear_arith)
        requires
            w8 == w2 * unit,
            c == unit * w,
    ;
    assert(0 < n * n <= 0x100_0000) by (nonlinear_arith)
        requires
            0 < n <= 4096,
    ;
    lemma_nearest_is_exact(n * n, 152 - 2 * j, (n * w8) * (n * w), c);
    let square = product(once, ratio);
    assert(square.scaled() == (n * n) * w2);
    // Without the fraction.
    assert((n * n) * w2 == rest * (8 * n * n)) by (nonlinear_arith)
        requires
            w2 == 8 * rest,
    ;
    assert(c == rest * part) by (nonlinear_arith)
        requires
            c == part * rest,
    ;
    vstd::arithmetic::div_mod::lemma_div_denominator(rest * (8 * n * n), rest, part);
    vstd::arithmetic::div_mod::lemma_div_multiples_vanish(8 * n * n, rest);
    assert(8 * n * n <= 0x800_0000) by (nonlinear_arith)
        requires
            0 < n * n <= 0x100_0000,
    ;
    vstd::arithmetic::div_mod::lemma_div_is_ordered_by_denominator(8 * n * n, 1, part);
}

/// A wider destination or a narrower source never makes for a smaller ratio.
pub proof fn law_ratio_keeps_order(
    destination_width: u32,
    source_width: u32,
    wider_destination: u32,
    narrower_source: u32,
)
    requires
        destination_width <= wider_destination,
        0 < narrower_source <= source_width,
    ensures
        0 <= ratio_of(destination_width, source_width).scaled() <= ratio_of(
            wider_destination,
            narrower_source,
        ).scaled(),
        ratio_of(destination_width, source_width).0 <= 0x7f80_0000,
        ratio_of(wider_destination, narrower_source).0 <= 0x7f80_0000,
{
    let c = one();
    let (d, s) = (destination_width as int, source_width as int);
    let (e, t) = (wider_destination as int, narrower_source as int);
    lemma_pow2_pos(149);
    assert(0 <= d * c <= e * c && c <= t * c <= s * c) by (nonlinear_arith)
        requires
            0 <= d <= e,
            1 <= t <= s,
            0 < c,
    ;
    law_rounding_keeps_order(d * c, 1, e * c, 1);
    law_rounding_keeps_order(t * c, 1, s * c, 1);
    law_rounding_keeps_order(c, 1, t * c, 1);
    lemma_nearest_is_exact(1, 149, c, 1);
    let (a, b) = (from_integer(d).scaled(), from_integer(s).scaled());
    let (x, y) = (from_integer(e).scaled(), from_integer(t).scaled());
    assert(0 <= a * c && 0 <= x * c && (a * c) * y <= (x * c) * b) by (nonlinear_arith)
        requires
            0 <= a <= x,
            0 < y <= b,
            0 < c,
    ;
    law_rounding_keeps_order(a * c, b, x * c, y);
}

/// A larger ratio never calls for fewer positions.
pub proof fn law_phases_keep_order(r: Single, q: Single)
    requires
        0 <= r.scaled() <= q.scaled(),
    ensures
        phases_of(r) <= phases_of(q),
{
    let eight = Single(0x4100_0000);
    let (c, w) = (one(), eight.scaled());
    lemma_pow2_pos(149);
    lemma_power_pattern(130);
    lemma_pow2_pos(152);
    let (x, y) = (r.scaled(), q.scaled());
    assert(0 <= w * x <= w * y && (w * x) * c <= (w * y) * c) by (nonlinear_arith)
        requires
            0 <= x <= y,
            0 < w,
            0 < c,
    ;
    law_rounding_keeps_order(w * x, c, w * y, c);
    let (a, b) = (product(eight, r).scaled(), product(eight, q).scaled());
    assert(0 <= a * x <= b * y && (a * x) * c <= (b * y) * c) by (nonlinear_arith)
        requires
            0 <= x <= y,
            0 <= a <= b,
            0 < c,
    ;
    law_rounding_keeps_order(a * x, c, b * y, c);
    vstd::arithmetic::div_mod::lemma_div_is_ordered(
        product(product(eight, r), r).scaled(),
        product(product(eight, q), q).scaled(),
        c,
    );
}

/// A wider destination or a narrower source never calls for fewer positions.
pub proof fn law_larger_ratio_has_no_fewer_phases(
    destination_width: u32,
    source_width: u32,
    wider_destination: u32,
    narrower_source: u32,
)
    requires
        destination_width <= wider_destination,
        0 < narrower_source <= source_width,
    ensures
        phases_of(ratio_of(destination_width, source_width)) <= phases_of(
            ratio_of(wider_destination, narrower_source),
        ),
{
    law_ratio_keeps_order(destination_width, source_width, wider_destination, narrower_source);
    law_phases_keep_order(
        ratio_of(destination_width, source_width),
        ratio_of(wider_destination, narrower_source),
    );
}

/// Widths of up to two to the power of 24 are singles: between such widths, a larger ratio
/// is no smaller rounded.
pub proof fn law_ratio_follows_the_widths(d: u32, s: u32, e: u32, t: u32)
    requires
        d <= 0x100_0000,
        0 < s <= 0x100_0000,
        e <= 0x100_0000,
        0 < t <= 0x100_0000,
        d * t <= e * s,
    ensures
        ratio_of(d, s).scaled() <= ratio_of(e, t).scaled(),
{
    let c = one();
    lemma_pow2_pos(149);
    lemma_width_is_exact(d);
    lemma_width_is_exact(s);
    lemma_width_is_exact(e);
    lemma_width_is_exact(t);
    let (d, s, e, t) = (d as int, s as int, e as int, t as int);
    assert(0 <= (d * c) * c && 0 <= (e * c) * c && 0 < s * c && 0 < t * c) by (nonlinear_arith)
        requires
            0 <= d,
            0 < s,
            0 <= e,
            0 < t,
            0 < c,
    ;
    assert(((d * c) * c) * (t * c) <= ((e * c) * c) * (s * c)) by (nonlinear_arith)
        requires
            d * t <= e * s,
            0 < c,
    ;
    law_rounding_keeps_order((d * c) * c, s * c, (e * c) * c, t * c);
}

/// A width of up to two to the power of 24 is a single.
proof fn lemma_width_is_exact(width: u32)
    requires
        width <= 0x100_0000,
    ensures
        from_integer(width as int).scaled() == width * one(),
{
    if width > 0 {
        lemma_nearest_is_exact(width as int, 149, width * one(), 1);
    } else {
        assert(scaled_magnitude(0) == 0);
        assert(0 * one() == 0) by (nonlinear_arith);
        lemma_exact(0, 0, 1);
    }
}

/// A destination of up to 64 times the source's width calls for at most 33800 positions.
pub proof fn law_phases_are_bounded(destination_width: u32, source_width: u32)
    requires
        0 < source_width,
        destination_width <= 64 * source_width,
    ensures
        0 <= phases_of(ratio_of(destination_width, source_width)) <= 33800,
{
    let (d, s, c) = (destination_width as int, source_width as int, one());
    let (r, q) = (ratio_of(destination_width, source_width), ratio_of(65, 1));
    lemma_pow2_pos(149);
    lemma_ratio(destination_width, source_width);
    lemma_ratio(65, 1);
    law_ratio_keeps_order(destination_width, source_width, destination_width, source_width);
    let (x, y) = (r.scaled(), q.scaled());
    assert(0x20_0000 * x <= 0x20_0001 * (64 * c)) by (nonlinear_arith)
        requires
            0x20_0000 * (x * s) <= 0x20_0001 * (d * c),
            d <= 64 * s,
            0 < s,
            0 < c,
    ;
    assert(x <= y);
    law_phases_keep_order(r, q);
    vstd::arithmetic::power2::lemma2_to64();
    law_phases_of_exact_ratios(65, 1, 65, 0);
    assert(8 * 65 * 65 / 1 == 33800int);
    law_phases_count_up(r);
}

/// A ratio of zero calls for no positions, and none calls for fewer.
pub proof fn law_phases_count_up(ratio: Single)
    requires
        0 <= ratio.scaled(),
    ensures
        phases_of(Single(0)) == 0,
        0 <= phases_of(ratio),
{
    let w = Single(0x4100_0000).scaled();
    lemma_pow2_pos(149);
    assert(scaled_magnitude(0) == 0);
    assert(w * 0 == 0 && 0 * one() == 0) by (nonlinear_arith);
    lemma_exact(0, 0, one());
    vstd::arithmetic::div_mod::lemma_div_basics_1(one());
    law_phases_keep_order(Single(0), ratio);
}

/// A number below one as it is; any other as the largest single below one.
pub open spec fn below_one(x: Single) -> Single {
    if x.scaled() < one() {
        x
    } else {
        Single(0x3f7f_ffff)
    }
}

/// One jitter offset: the Halton values for the bases 2 and 3, centered on zero.
pub open spec fn jitter_offset(index: nat) -> (Single, Single) {
    // 0x3f00_0000 is 0.5.
    (
        difference(halton_value(index, 2), Single(0x3f00_0000)),
        difference(halton_value(index, 3), Single(0x3f00_0000)),
    )
}

/// The offsets from the first on.
pub open spec fn jitter_offsets(count: nat) -> Seq<(Single, Single)> {
    Seq::new(count, |i: int| jitter_offset((i + 1) as nat))
}

/// One jitter offset inside the texel. In base 2 the sum can be rounded up to one, which is
/// not a position in the texel: here it is kept below.
pub open spec fn texel_offset(index: nat) -> (Single, Single) {
    (
        difference(below_one(halton_value(index, 2)), Single(0x3f00_0000)),
        difference(halton_value(index, 3), Single(0x3f00_0000)),
    )
}

/// The offsets inside the texel from the first on.
pub open spec fn texel_offsets(count: nat) -> Seq<(Single, Single)> {
    Seq::new(count, |i: int| texel_offset((i + 1) as nat))
}

/// Whether an offset, along one axis, is half a texel or less to one side and less than
/// half a texel to the other: at least -0.5 and below 0.5.
pub open spec fn stays_in_texel(offset: Single) -> bool {
    -pow2(148) <= offset.scaled() < pow2(148)
}

/// A Halton value below one lies, less one half, in the texel.
proof fn lemma_offset_stays_in_texel(value: Single, offset: Single)
    requires
        value.0 <= 0x4300_0000,
        value.scaled() < one(),
        offset.magnitude() < 0x7f80_0000,
        value.scaled() >= pow2(148) ==> offset.0 < 0x7f80_0000 && rounds_to(
            offset.0 as int,
            value.scaled() - pow2(148),
            1,
        ),
        value.scaled() < pow2(148) ==> offset.0 >= 0x8000_0000 && rounds_to(
            offset.0 - 0x8000_0000,
            pow2(148) - value.scaled(),
            1,
        ),
    ensures
        stays_in_texel(offset),
{
    lemma_power_pattern(126);
    lemma_power_pattern(127);
    lemma_pow2_unfold(149);
    lemma_pow2_pos(148);
    lemma_scaled_magnitude_ordered(0, value.0 as int);
    lemma_scaled_magnitude_ordered(0, offset.magnitude());
    assert(scaled_magnitude(0) == 0);
    if value.scaled() < pow2(148) {
        lemma_rounds_to_at_most(offset.magnitude(), pow2(148) - value.scaled(), 1, 0x3f00_0000);
        lemma_scaled_magnitude_ordered(offset.magnitude(), 0x3f00_0000);
    } else {
        if value.0 >= 0x3f80_0000 {
            lemma_scaled_magnitude_ordered(0x3f80_0000, value.0 as int);
        }
        // The largest single below one, and what is left of it less one half.
        lemma_scaled_magnitude_ordered(value.0 as int, 0x3f7f_ffff);
        lemma_pattern_size(125, 0xff_ffff);
        lemma_pattern_size(124, 0xff_fffe);
        let w = pow2(124) as int;
        lemma_pow2_unfold(125);
        lemma_pow2_adds(24, 125);
        vstd::arithmetic::power2::lemma2_to64();
        lemma_rounds_to_at_most(offset.0 as int, value.scaled() - pow2(148), 1, 0x3eff_fffe);
        lemma_scaled_magnitude_ordered(offset.0 as int, 0x3eff_fffe);
        lemma_scaled_magnitude_ordered(0x3eff_fffe, 0x3f00_0000);
    }
}

/// Whether a position stays in the texel along both axes.
pub open spec fn position_stays_in_texel(offset: (Single, Single)) -> bool {
    stays_in_texel(offset.0) && stays_in_texel(offset.1)
}

/// Where the position with the given index lies. All stay in the texel but those whose
/// lowest twenty-five bits are all one: along the first axis these are rounded to 0.5.
pub open spec fn position_fits_index(index: int, offset: (Single, Single)) -> bool {
    &&& index % 0x200_0000 != 0x1ff_ffff ==> stays_in_texel(offset.0)
    &&& index % 0x200_0000 == 0x1ff_ffff ==> offset.0 == Single(0x3f00_0000)
    &&& stays_in_texel(offset.1)
}

/// The jitter position with the given index.
pub fn jitter_position(index: u32) -> (offset: (Single, Single))
    ensures
        offset == jitter_offset(index as nat),
        position_fits_index(index as int, offset),
{
    let half = Single(0x3f00_0000);
    proof {
        lemma_power_pattern(126);
        lemma_power_pattern(127);
        lemma_pow2_unfold(149);
    }
    let x = halton(index, 2);
    let y = halton(index, 3);
    let offset = (x.minus(half), y.minus(half));
    proof {
        if index % 0x200_0000 != 0x1ff_ffff {
            lemma_offset_stays_in_texel(x, offset.0);
        } else {
            lemma_exact(0x3f00_0000, pow2(148) as int, 1);
        }
        lemma_offset_stays_in_texel(y, offset.1);
    }
    offset
}

/// The jitter position with the given index, kept in the texel.
pub fn texel_position(index: u32) -> (offset: (Single, Single))
    ensures
        offset == texel_offset(index as nat),
        position_stays_in_texel(offset),
{
    let half = Single(0x3f00_0000);
    proof {
        lemma_power_pattern(126);
        lemma_power_pattern(127);
        lemma_scaled_magnitude_ordered(0x3f7f_ffff, 0x3f80_0000);
    }
    let mut x = halton(index, 2);
    if !x.lt(Single(0x3f80_0000)) {
        x = Single(0x3f7f_ffff);
    }
    let y = halton(index, 3);
    let offset = (x.minus(half), y.minus(half));
    proof {
        lemma_offset_stays_in_texel(x, offset.0);
        lemma_offset_stays_in_texel(y, offset.1);
    }
    offset
}

/// A Halton(2, 3) jitter pattern of the given length.
pub fn jitter_pattern(count: u32) -> (offsets: Vec<(Single, Single)>)
    ensures
        offsets@ == jitter_offsets(count as nat),
        forall|i: int| 0 <= i < count ==> position_fits_index(i + 1, #[trigger] offsets@[i]),
{
    let mut offsets: Vec<(Single, Single)> = Vec::new();
    let mut i: u32 = 0;
    while i < count
        invariant
            i <= count,
            offsets@ == jitter_offsets(i as nat),
            offsets@.len() == i,
            forall|j: int| 0 <= j < i ==> position_fits_index(j + 1, #[trigger] offsets@[j]),
        decreases count - i,
    {
        i = i + 1;
        offsets.push(jitter_position(i));
        assert(offsets@ =~= jitter_offsets(i as nat));
    }
    offsets
}

/// A Halton(2, 3) jitter pattern of the given length, all of whose positions stay in the
/// texel.
pub fn texel_pattern(count: u32) -> (offsets: Vec<(Single, Single)>)
    ensures
        offsets@ == texel_offsets(count as nat),
        forall|i: int| 0 <= i < count ==> position_stays_in_texel(#[trigger] offsets@[i]),
{
    let mut offsets: Vec<(Single, Single)> = Vec::new();
    let mut i: u32 = 0;
    while i < count
        invariant
            i <= count,
            offsets@ == texel_offsets(i as nat),
            offsets@.len() == i,
            forall|j: int| 0 <= j < i ==> position_stays_in_texel(#[trigger] offsets@[j]),
        decreases count - i,
    {
        i = i + 1;
        offsets.push(texel_position(i));
        assert(offsets@ =~= texel_offsets(i as nat));
    }
    offsets
}

/// The pattern of fewer positions is the start of that of more.
pub proof fn law_patterns_are_prefixes(count: nat, more: nat)
    requires
        count <= more,
    ensures
        jitter_offsets(count) == jitter_offsets(more).take(count as int),
        texel_offsets(count) == texel_offsets(more).take(count as int),
{
    assert(jitter_offsets(count) =~= jitter_offsets(more).take(count as int));
    assert(texel_offsets(count) =~= texel_offsets(more).take(count as int));
}

} // verus!
