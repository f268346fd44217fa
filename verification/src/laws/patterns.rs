//! What jitter patterns are: how many positions they have, and where these lie.
use vstd::arithmetic::power2::{lemma_pow2_adds, lemma_pow2_pos, lemma_pow2_unfold, pow2};
use vstd::prelude::*;

use crate::arith::{difference, lemma_power_pattern, product};
use crate::dlss;
use crate::halton::{halton, halton_value};
use crate::jitter::{
    jitter_offset, law_phases_count_up, law_phases_of_exact_ratios, law_ratio_follows_the_widths,
    lemma_ratio, phases_of, ratio_of, texel_offset, upscale_ratio,
};
use crate::metalfx::Scaler;
use crate::radical::{
    law_first_axis_is_centered_exactly, law_halton_three_is_close_to_the_radical_inverse,
    law_halton_two_is_the_radical_inverse, lemma_rounding_below_one, mirror_den, mirror_num,
};
use crate::rounding::{
    lemma_nearest_exists, lemma_rounds_to_at_least, lemma_rounds_to_at_most,
    lemma_rounds_to_relative, lemma_scaled_magnitude_ordered, nearest_size, one,
};
use crate::single::{scaled_magnitude, Single};
use crate::vk::{Extent2D, VkError, VkResult};

verus! {

/// Whether `count` is eight times the square of `d / s`, without its fraction, but for the
/// roundings of single precision: within one part in half a million.
pub open spec fn is_eight_squares(count: int, d: int, s: int) -> bool {
    &&& count * (s * s) * 0x8_0000 <= 8 * (d * d) * 0x8_0001
    &&& count < u32::MAX ==> (count + 1) * (s * s) * 0x8_0000 > 8 * (d * d) * 0x7_ffff
}

/// The positions that a pair of widths calls for are eight times their squared ratio.
proof fn lemma_phases_follow_the_square(destination_width: u32, source_width: u32)
    requires
        source_width > 0,
    ensures
        is_eight_squares(
            phases_of(ratio_of(destination_width, source_width)),
            destination_width as int,
            source_width as int,
        ),
        0 <= phases_of(ratio_of(destination_width, source_width)) <= u32::MAX,
{
    let (d, s) = (destination_width as int, source_width as int);
    let ratio = ratio_of(destination_width, source_width);
    let eight = Single(0x4100_0000);
    let (once, twice) = (product(eight, ratio), product(product(eight, ratio), ratio));
    let c = one();
    lemma_pow2_pos(149);
    lemma_ratio(destination_width, source_width);
    if ratio.0 == 0 {
        assert(scaled_magnitude(0) == 0);
        law_phases_count_up(Single(0));
        assert(d == 0) by (nonlinear_arith)
            requires
                0x1f_ffff * (d * c) <= 0x20_0000 * (0 * s),
                0 <= d,
                0 < c,
        ;
        assert(0 * (s * s) == 0 && 1 * (s * s) > 0 && 0 * 0 == 0) by (nonlinear_arith)
            requires
                s > 0,
        ;
        assert(phases_of(ratio) == 0);
    } else {
        lemma_power_pattern(130);
        lemma_power_pattern(95);
        lemma_power_pattern(98);
        lemma_power_pattern(159);
        lemma_power_pattern(162);
        lemma_power_pattern(66);
        lemma_power_pattern(194);
        lemma_scaled_magnitude_ordered(0x2f80_0000, ratio.0 as int);
        lemma_scaled_magnitude_ordered(ratio.0 as int, 0x4f80_0000);
        let (e, x) = (pow2(152) as int, ratio.scaled());
        let (least, most) = (pow2(117) as int, pow2(181) as int);
        let (low, high) = (pow2(120) as int, pow2(184) as int);
        let (lower, higher) = (pow2(88) as int, pow2(216) as int);
        lemma_pow2_pos(152);
        lemma_pow2_pos(117);
        lemma_pow2_pos(120);
        lemma_pow2_adds(120, 149);
        lemma_pow2_adds(152, 117);
        lemma_pow2_adds(184, 149);
        lemma_pow2_adds(152, 181);
        lemma_pow2_adds(88, 149);
        lemma_pow2_adds(120, 117);
        lemma_pow2_adds(216, 149);
        lemma_pow2_adds(184, 181);
        lemma_pow2_adds(3, 149);
        vstd::arithmetic::power2::lemma2_to64();
        assert(0 <= e * x && low * c <= e * x <= high * c) by (nonlinear_arith)
            requires
                0 < e,
                0 < least <= x <= most,
                low * c == e * least,
                high * c == e * most,
        ;
        lemma_nearest_exists(e * x, c);
        lemma_rounds_to_at_least(once.0 as int, e * x, c, 0x3100_0000);
        lemma_rounds_to_at_most(once.0 as int, e * x, c, 0x5100_0000);
        lemma_rounds_to_relative(once.0 as int, e * x, c);
        lemma_scaled_magnitude_ordered(0x3100_0000, once.0 as int);
        lemma_scaled_magnitude_ordered(once.0 as int, 0x5100_0000);
        let y = once.scaled();
        assert(0 <= y * x && lower * c <= y * x <= higher * c) by (nonlinear_arith)
            requires
                0 < low <= y <= high,
                0 < least <= x <= most,
                lower * c == low * least,
                higher * c == high * most,
        ;
        lemma_nearest_exists(y * x, c);
        lemma_rounds_to_at_least(twice.0 as int, y * x, c, 0x2100_0000);
        lemma_rounds_to_at_most(twice.0 as int, y * x, c, 0x6100_0000);
        lemma_rounds_to_relative(twice.0 as int, y * x, c);
        lemma_scaled_magnitude_ordered(0, twice.0 as int);
        assert(scaled_magnitude(0) == 0);
        let z = twice.scaled();
        assert(0 < s * c) by (nonlinear_arith)
            requires
                0 < s,
                0 < c,
        ;
        lemma_square_bounds(d, s, c, x, y, z);
        let count = phases_of(ratio);
        vstd::arithmetic::div_mod::lemma_fundamental_div_mod(z, c);
        vstd::arithmetic::div_mod::lemma_div_pos_is_pos(z, c);
        let whole = z / c;
        assert(c * whole <= z < c * whole + c);
        assert(count <= whole && (count < u32::MAX ==> count == whole));
        assert(c * count <= c * whole) by (nonlinear_arith)
            requires
                count <= whole,
                0 < c,
        ;
        lemma_count_bounds(count, d, s, c, z);
    }
}

/// Three roundings of the ratio and two of the products keep the square close.
proof fn lemma_square_bounds(d: int, s: int, c: int, x: int, y: int, z: int)
    requires
        0 <= d,
        0 < s,
        0 < c,
        0 < x,
        0 < y,
        0 <= z,
        0x1f_ffff * (d * c) <= 0x20_0000 * (x * s),
        0x20_0000 * (x * s) <= 0x20_0001 * (d * c),
        y * c * 0xff_ffff <= (8 * c) * x * 0x100_0000,
        (8 * c) * x * 0x100_0000 <= y * c * 0x100_0001,
        z * c * 0xff_ffff <= y * x * 0x100_0000,
        y * x * 0x100_0000 <= z * c * 0x100_0001,
    ensures
        z * (s * s) * 0x8_0000 <= 8 * (d * d) * c * 0x8_0001,
        z * (s * s) * 0x8_0000 >= 8 * (d * d) * c * 0x7_ffff,
{
    // Eight times the ratio.
    assert(y * 0xff_ffff <= 8 * x * 0x100_0000 <= y * 0x100_0001) by (nonlinear_arith)
        requires
            y * c * 0xff_ffff <= (8 * c) * x * 0x100_0000,
            (8 * c) * x * 0x100_0000 <= y * c * 0x100_0001,
            0 < c,
    ;
    // Its square, over one.
    let q = x * x;
    let p = y * x;
    assert(p * 0xff_ffff <= 8 * q * 0x100_0000 <= p * 0x100_0001) by (nonlinear_arith)
        requires
            y * 0xff_ffff <= 8 * x * 0x100_0000 <= y * 0x100_0001,
            q == x * x,
            p == y * x,
            0 < x,
    ;
    let t = z * c;
    assert(0 <= q && 0 <= p && 0 <= t) by (nonlinear_arith)
        requires
            q == x * x,
            p == y * x,
            t == z * c,
            0 < x,
            0 < y,
            0 <= z,
            0 < c,
    ;
    assert(t * 0xff_ffff * 0xff_ffff <= 8 * q * 0x100_0000 * 0x100_0000);
    assert(8 * q * 0x100_0000 * 0x100_0000 <= t * 0x100_0001 * 0x100_0001);
    // The square of the ratio, against that of the widths.
    let (a, b) = (x * s, d * c);
    let (aa, bb) = (a * a, b * b);
    assert(0 <= a && 0 <= b) by (nonlinear_arith)
        requires
            a == x * s,
            b == d * c,
            0 < x,
            0 < s,
            0 <= d,
            0 < c,
    ;
    assert(0x1f_ffff * 0x1f_ffff * bb <= 0x20_0000 * 0x20_0000 * aa && 0x20_0000 * 0x20_0000 * aa
        <= 0x20_0001 * 0x20_0001 * bb) by (nonlinear_arith)
        requires
            0x1f_ffff * b <= 0x20_0000 * a <= 0x20_0001 * b,
            aa == a * a,
            bb == b * b,
            0 <= a,
            0 <= b,
    ;
    assert(0 <= bb) by (nonlinear_arith)
        requires
            bb == b * b,
    ;
    // Both times the squared source width.
    let w = t * (s * s);
    let qs = q * (s * s);
    assert(qs == aa) by (nonlinear_arith)
        requires
            qs == q * (s * s),
            q == x * x,
            aa == a * a,
            a == x * s,
    ;
    assert(0 <= w && w * 0xff_ffff * 0xff_ffff <= 8 * qs * 0x100_0000 * 0x100_0000 && 8 * qs
        * 0x100_0000 * 0x100_0000 <= w * 0x100_0001 * 0x100_0001) by (nonlinear_arith)
        requires
            t * 0xff_ffff * 0xff_ffff <= 8 * q * 0x100_0000 * 0x100_0000,
            8 * q * 0x100_0000 * 0x100_0000 <= t * 0x100_0001 * 0x100_0001,
            w == t * (s * s),
            qs == q * (s * s),
            0 < s,
            0 <= t,
    ;
    assert(w * 0x8_0000 <= 8 * bb * 0x8_0001 && w * 0x8_0000 >= 8 * bb * 0x7_ffff) by {
        lemma_square_errors(w, aa, bb);
    }
    assert(z * (s * s) * 0x8_0000 <= 8 * (d * d) * c * 0x8_0001 && z * (s * s) * 0x8_0000 >= 8 * (d
        * d) * c * 0x7_ffff) by (nonlinear_arith)
        requires
            w * 0x8_0000 <= 8 * bb * 0x8_0001,
            w * 0x8_0000 >= 8 * bb * 0x7_ffff,
            w == (z * c) * (s * s),
            bb == (d * c) * (d * c),
            0 < c,
    ;
}

/// The errors of a squared ratio and of its two products, together.
proof fn lemma_square_errors(w: int, aa: int, bb: int)
    by (nonlinear_arith)
    requires
        0 <= w,
        0 <= bb,
        w * 0xff_ffff * 0xff_ffff <= 8 * aa * 0x100_0000 * 0x100_0000,
        8 * aa * 0x100_0000 * 0x100_0000 <= w * 0x100_0001 * 0x100_0001,
        0x1f_ffff * 0x1f_ffff * bb <= 0x20_0000 * 0x20_0000 * aa,
        0x20_0000 * 0x20_0000 * aa <= 0x20_0001 * 0x20_0001 * bb,
    ensures
        w * 0x8_0000 <= 8 * bb * 0x8_0001,
        w * 0x8_0000 >= 8 * bb * 0x7_ffff,
{
}

/// What holds of the product holds of its whole part.
proof fn lemma_count_bounds(count: int, d: int, s: int, c: int, z: int)
    requires
        0 < s,
        0 < c,
        c * count <= z,
        count < u32::MAX ==> z < c * count + c,
        z * (s * s) * 0x8_0000 <= 8 * (d * d) * c * 0x8_0001,
        z * (s * s) * 0x8_0000 >= 8 * (d * d) * c * 0x7_ffff,
    ensures
        is_eight_squares(count, d, s),
{
    let (m, n) = (s * s, d * d);
    assert(0 < m) by (nonlinear_arith)
        requires
            m == s * s,
            0 < s,
    ;
    assert(count * m * 0x8_0000 <= 8 * n * 0x8_0001) by (nonlinear_arith)
        requires
            c * count <= z,
            z * m * 0x8_0000 <= 8 * n * c * 0x8_0001,
            0 < m,
            0 < c,
    ;
    if count < u32::MAX {
        assert((count + 1) * m * 0x8_0000 > 8 * n * 0x7_ffff) by (nonlinear_arith)
            requires
                z < c * count + c,
                z * m * 0x8_0000 >= 8 * n * c * 0x7_ffff,
                0 < m,
                0 < c,
        ;
    }
}

/// Along the second axis an offset is the radical inverse of the index in base 3, less one
/// half, to within a millionth.
proof fn lemma_second_offset(index: nat)
    requires
        index < 0x1_0000_0000,
    ensures
        lies_near(jitter_offset(index).1, mirror_num(index, 3) as int, mirror_den(index, 3) as int),
{
    law_halton_three_is_close_to_the_radical_inverse(index);
    let value = halton_value(index, 3);
    let (h, half) = (value.scaled(), pow2(148) as int);
    let offset = difference(value, Single(0x3f00_0000));
    let e = pow2(124) as int;
    lemma_power_pattern(126);
    lemma_power_pattern(127);
    lemma_pow2_unfold(149);
    lemma_pow2_pos(124);
    lemma_pow2_pos(148);
    assert(scaled_magnitude(0) == 0);
    lemma_scaled_magnitude_ordered(0, value.0 as int);
    lemma_scaled_magnitude_ordered(value.0 as int, 0x3f80_0000);
    if h >= half {
        lemma_nearest_exists(h - half, 1);
        lemma_rounds_to_at_most(offset.0 as int, h - half, 1, 0x3f00_0000);
        lemma_rounding_below_one(offset.0 as int, h - half);
    } else {
        lemma_nearest_exists(half - h, 1);
        lemma_rounds_to_at_most(nearest_size(half - h, 1), half - h, 1, 0x3f00_0000);
        lemma_rounding_below_one(nearest_size(half - h, 1), half - h);
    }
    let o = offset.scaled();
    assert(-e <= o - (h - half) <= e);
    let (q, t) = (mirror_den(index, 3) as int, mirror_num(index, 3) as int);
    let c = one();
    assert(vstd::math::abs((o + half) * q - t * c) <= (26 * e) * q) by (nonlinear_arith)
        requires
            -e <= o - (h - half) <= e,
            -((25 * e) * q) <= h * q - t * c <= (25 * e) * q,
            0 <= q,
    ;
}

/// Whether an offset is `num / den` less one half, to within 26 times two to the power of
/// -25: less than a millionth.
pub open spec fn lies_near(offset: Single, num: int, den: int) -> bool {
    vstd::math::abs((offset.scaled() + pow2(148)) * den - num * one()) <= (26 * pow2(124)) * den
}

/// Whether an offset is `num / den` less one half, exactly.
pub open spec fn lies_at(offset: Single, num: int, den: int) -> bool {
    (offset.scaled() + pow2(148)) * den == num * one()
}

/// A position has the radical inverses of its index in the bases 2 and 3 for coordinates,
/// each less one half: the first exactly while 24 digits hold it, the second to within a
/// millionth.
pub open spec fn is_centered_halton(offset: (Single, Single), index: nat) -> bool {
    &&& index < 0x100_0000 ==> lies_at(
        offset.0,
        mirror_num(index, 2) as int,
        mirror_den(index, 2) as int,
    )
    &&& lies_near(offset.1, mirror_num(index, 3) as int, mirror_den(index, 3) as int)
}

proof fn lemma_offset_is_centered_halton(index: nat)
    requires
        index < 0x1_0000_0000,
    ensures
        is_centered_halton(jitter_offset(index), index),
        is_centered_halton(texel_offset(index), index),
{
    lemma_second_offset(index);
    if index < 0x100_0000 {
        law_first_axis_is_centered_exactly(index);
        law_halton_two_is_the_radical_inverse(index);
    }
}

/// The positions of DLSS's pattern are those of the Halton sequence in the bases 2 and 3, from
/// the first on, centered on zero.
pub proof fn law_dlss_positions_are_centered_halton(
    destination: Extent2D,
    source: Extent2D,
    offsets: Vec<(Single, Single)>,
    i: int,
)
    requires
        call_ensures(dlss::recommended_jitter_pattern, (destination, source), Ok(offsets)),
        0 <= i < offsets@.len(),
    ensures
        is_centered_halton(offsets@[i], (i + 1) as nat),
{
    lemma_phases_follow_the_square(
        destination.width,
        if source.width == 0 {
            1
        } else {
            source.width
        },
    );
    lemma_offset_is_centered_halton((i + 1) as nat);
}

/// The positions of MetalFX's pattern are those of the Halton sequence in the bases 2 and 3,
/// from the first on, centered on zero.
pub proof fn law_metalfx_positions_are_centered_halton(
    scaler: &Scaler,
    destination: Extent2D,
    source: Extent2D,
    offsets: Vec<(Single, Single)>,
    i: int,
)
    requires
        call_ensures(
            Scaler::recommended_jitter_pattern,
            (scaler, destination, source),
            Ok(offsets),
        ),
        0 <= i < offsets@.len(),
    ensures
        is_centered_halton(offsets@[i], (i + 1) as nat),
{
    if source.width > 0 {
        lemma_phases_follow_the_square(destination.width, source.width);
    }
    lemma_offset_is_centered_halton((i + 1) as nat);
}

/// MetalFX's temporal and denoised scalers get as many positions as eight times the squared
/// ratio of the widths gives, for any widths; over no source width, all that 32 bits count or
/// none. The spatial scaler gets no pattern.
pub proof fn law_metalfx_pattern_has_eight_squared_ratios(
    scaler: &Scaler,
    destination: Extent2D,
    source: Extent2D,
    r: VkResult<Vec<(Single, Single)>>,
)
    requires
        call_ensures(Scaler::recommended_jitter_pattern, (scaler, destination, source), r),
    ensures
        scaler is Spatial ==> r is Err && r->Err_0 == VkError::FeatureNotPresent,
        !(scaler is Spatial) ==> {
            &&& r matches Ok(offsets)
            &&& source.width > 0 ==> is_eight_squares(
                offsets@.len() as int,
                destination.width as int,
                source.width as int,
            )
            &&& source.width == 0 && destination.width > 0 ==> offsets@.len() == u32::MAX
            &&& source.width == 0 && destination.width == 0 ==> offsets@.len() == 0
        },
{
    if source.width > 0 {
        lemma_phases_follow_the_square(destination.width, source.width);
    }
}

/// Where the ratio of the widths is `n` over two to the power of `j`, so that nothing is
/// rounded, MetalFX's temporal and denoised scalers get exactly `8 * n * n / 2^(2 j)`
/// positions, without the fraction.
pub proof fn law_metalfx_pattern_length_is_exact(
    scaler: &Scaler,
    destination: Extent2D,
    source: Extent2D,
    offsets: Vec<(Single, Single)>,
    n: nat,
    j: nat,
)
    requires
        call_ensures(
            Scaler::recommended_jitter_pattern,
            (scaler, destination, source),
            Ok(offsets),
        ),
        0 < source.width <= 0x100_0000,
        destination.width <= 0x100_0000,
        0 < n <= 4096,
        j <= 24,
        destination.width * pow2(j) == source.width * n,
    ensures
        offsets@.len() == (8 * n * n) / pow2(2 * j),
{
    law_phases_of_exact_ratios(destination.width, source.width, n, j);
    lemma_phases_follow_the_square(destination.width, source.width);
}

/// DLSS gets as many positions as eight times the squared ratio of the widths gives, for any
/// widths, and 32 where that is fewer. A source without width counts as one texel wide.
pub proof fn law_dlss_pattern_has_eight_squared_ratios(
    destination: Extent2D,
    source: Extent2D,
    r: VkResult<Vec<(Single, Single)>>,
)
    requires
        call_ensures(dlss::recommended_jitter_pattern, (destination, source), r),
    ensures
        r matches Ok(offsets) && ({
            let (d, s) = (destination.width as int, vstd::math::max(source.width as int, 1));
            let n = offsets@.len() as int;
            &&& n >= 32
            &&& n > 32 ==> is_eight_squares(n, d, s)
            // Where 32 are enough, no more are called for.
            &&& n == 32 ==> 33 * (s * s) * 0x8_0000 > 8 * (d * d) * 0x7_ffff
        }),
{
    let width = if source.width == 0 {
        1
    } else {
        source.width
    };
    lemma_phases_follow_the_square(destination.width, width);
    let (d, s) = (destination.width as int, width as int);
    let count = phases_of(ratio_of(destination.width, width));
    if count <= 32 {
        assert((count + 1) * (s * s) * 0x8_0000 <= 33 * (s * s) * 0x8_0000) by (nonlinear_arith)
            requires
                count <= 32,
        ;
    }
}

/// Where the ratio of the widths is `n` over two to the power of `j`, so that nothing is
/// rounded, DLSS gets exactly `8 * n * n / 2^(2 j)` positions, without the fraction, and 32
/// where that is fewer.
pub proof fn law_dlss_pattern_length_is_exact(
    destination: Extent2D,
    source: Extent2D,
    offsets: Vec<(Single, Single)>,
    n: nat,
    j: nat,
)
    requires
        call_ensures(dlss::recommended_jitter_pattern, (destination, source), Ok(offsets)),
        0 < source.width <= 0x100_0000,
        destination.width <= 0x100_0000,
        0 < n <= 4096,
        j <= 24,
        destination.width * pow2(j) == source.width * n,
    ensures
        offsets@.len() == vstd::math::max(((8 * n * n) / pow2(2 * j)) as int, 32),
{
    law_phases_of_exact_ratios(destination.width, source.width, n, j);
}

/// Heights have no part in a pattern, and the temporal and the denoised scaler get the same.
pub proof fn law_metalfx_patterns_go_by_widths_alone(
    a: &Scaler,
    b: &Scaler,
    destination: Extent2D,
    source: Extent2D,
    other_destination: Extent2D,
    other_source: Extent2D,
    p: Vec<(Single, Single)>,
    q: Vec<(Single, Single)>,
)
    requires
        call_ensures(Scaler::recommended_jitter_pattern, (a, destination, source), Ok(p)),
        call_ensures(
            Scaler::recommended_jitter_pattern,
            (b, other_destination, other_source),
            Ok(q),
        ),
        destination.width == other_destination.width,
        source.width == other_source.width,
    ensures
        p@ == q@,
{
}

/// Heights have no part in a pattern.
pub proof fn law_dlss_patterns_go_by_widths_alone(
    destination: Extent2D,
    source: Extent2D,
    other_destination: Extent2D,
    other_source: Extent2D,
    p: Vec<(Single, Single)>,
    q: Vec<(Single, Single)>,
)
    requires
        call_ensures(dlss::recommended_jitter_pattern, (destination, source), Ok(p)),
        call_ensures(dlss::recommended_jitter_pattern, (other_destination, other_source), Ok(q)),
        destination.width == other_destination.width,
        source.width == other_source.width,
    ensures
        p@ == q@,
{
}

/// A larger ratio only adds positions: of two patterns the one for the smaller ratio is how
/// the other starts. For widths of up to two to the power of 24.
pub proof fn law_patterns_of_larger_ratios_go_on(
    scaler: &Scaler,
    d: Extent2D,
    s: Extent2D,
    e: Extent2D,
    t: Extent2D,
    p: Vec<(Single, Single)>,
    q: Vec<(Single, Single)>,
    m: Vec<(Single, Single)>,
    n: Vec<(Single, Single)>,
)
    requires
        call_ensures(dlss::recommended_jitter_pattern, (d, s), Ok(p)),
        call_ensures(dlss::recommended_jitter_pattern, (e, t), Ok(q)),
        call_ensures(Scaler::recommended_jitter_pattern, (scaler, d, s), Ok(m)),
        call_ensures(Scaler::recommended_jitter_pattern, (scaler, e, t), Ok(n)),
        d.width <= 0x100_0000,
        0 < s.width <= 0x100_0000,
        e.width <= 0x100_0000,
        0 < t.width <= 0x100_0000,
        d.width * t.width <= e.width * s.width,
    ensures
        p@.len() <= q@.len() && p@ == q@.take(p@.len() as int),
        m@.len() <= n@.len() && m@ == n@.take(m@.len() as int),
{
    law_ratio_follows_the_widths(d.width, s.width, e.width, t.width);
    dlss::law_larger_ratio_extends_the_pattern(d.width, s.width, e.width, t.width);
    crate::metalfx::dispatch::law_larger_ratio_extends_the_pattern(
        d.width,
        s.width,
        e.width,
        t.width,
    );
    lemma_phases_follow_the_square(d.width, s.width);
    lemma_phases_follow_the_square(e.width, t.width);
}

/// The ratio of two widths is their quotient, to within one part in two million.
pub proof fn law_upscale_ratio_is_the_quotient(d: u32, s: u32, r: Single)
    requires
        s > 0,
        call_ensures(upscale_ratio, (d, s), r),
    ensures
        0x1f_ffff * (d * one()) <= 0x20_0000 * (r.scaled() * s),
        0x20_0000 * (r.scaled() * s) <= 0x20_0001 * (d * one()),
{
}

/// A Halton value is the radical inverse of its index: exactly in base 2 while 24 digits hold
/// it, to within a millionth in base 3, and zero at the start in any base.
pub proof fn law_halton_is_the_radical_inverse(index: u32, base: u32, r: Single)
    requires
        index == 0 || base >= 2,
        call_ensures(halton, (index, base), r),
    ensures
        index == 0 ==> r.scaled() == 0,
        base == 2 && index < 0x100_0000 ==> r.scaled() * mirror_den(index as nat, 2) == mirror_num(
            index as nat,
            2,
        ) * one(),
        base == 3 ==> vstd::math::abs(
            r.scaled() * mirror_den(index as nat, 3) - mirror_num(index as nat, 3) * one(),
        ) <= (25 * pow2(124)) * mirror_den(index as nat, 3),
{
    assert(scaled_magnitude(0) == 0);
    if base == 2 && index < 0x100_0000 {
        law_halton_two_is_the_radical_inverse(index as nat);
    }
    if base == 3 {
        law_halton_three_is_close_to_the_radical_inverse(index as nat);
    }
}

} // verus!
