//! The arithmetic on singles is that of the machine, bit for bit.
use pumicite_sr::halton::halton;
use pumicite_sr::jitter::{
    jitter_pattern, jitter_position, phases, texel_pattern, texel_position, upscale_ratio,
};
use pumicite_sr::single::Single;

fn bits(x: f32) -> Single {
    Single(x.to_bits())
}

fn widths() -> Vec<u32> {
    let mut widths = vec![1, 2, 3, 5, 7, 640, 1280, 1706, 1920, 2560, 3840, 16383, 16384];
    widths.extend([16_777_215, 16_777_216, 16_777_217, 33_554_433, 0x7fff_ffff, 0x8000_0000]);
    widths.extend([0xffff_fe7f, 0xffff_fe80, 0xffff_fe81, 0xffff_ffff]);
    let mut x = 12345u32;
    for _ in 0..100 {
        x = x.wrapping_mul(1_664_525).wrapping_add(1_013_904_223);
        widths.push(x >> (x % 32));
    }
    widths
}

fn native_halton(mut index: u32, base: u32) -> f32 {
    let mut fraction = 1.0f32;
    let mut result = 0.0f32;
    while index > 0 {
        fraction /= base as f32;
        result += fraction * (index % base) as f32;
        index /= base;
    }
    result
}

#[test]
fn integers_round_as_the_machine_rounds_them() {
    assert_eq!(Single::from_u32(0), bits(0.0));
    for x in widths() {
        assert_eq!(Single::from_u32(x), bits(x as f32), "{x}");
    }
    // Halfway between two singles, once to the even one below and once above.
    assert_eq!(Single::from_u32(16_777_217), bits(16_777_216.0));
    assert_eq!(Single::from_u32(16_777_219), bits(16_777_220.0));
}

#[test]
fn ratios_and_phases_are_the_machines() {
    for d in widths() {
        for s in widths() {
            if s == 0 {
                continue;
            }
            let native = d as f32 / s as f32;
            let ratio = upscale_ratio(d, s);
            assert_eq!(ratio, bits(native), "{d} / {s}");
            assert_eq!(phases(ratio), (8.0 * native * native) as u32, "{d} / {s}");
        }
    }
}

#[test]
fn sums_products_and_differences_are_the_machines() {
    let values = [0.0f32, 0.1, 0.25, 0.3, 0.5, 0.7, 1.0, 1.5, 2.0, 3.0, 100.0];
    for a in values {
        for b in values {
            assert_eq!(bits(a).plus(bits(b)), bits(a + b), "{a} + {b}");
            assert_eq!(bits(a).times(bits(b)), bits(a * b), "{a} * {b}");
            let difference = bits(a).minus(bits(b));
            if a != b {
                assert_eq!(difference, bits(a - b), "{a} - {b}");
            } else {
                assert_eq!(difference, bits(0.0));
            }
        }
    }
}

#[test]
fn truncation_drops_the_fraction_and_saturates() {
    assert_eq!(bits(0.0).to_u32(), 0);
    assert_eq!(bits(0.999).to_u32(), 0);
    assert_eq!(bits(31.999).to_u32(), 31);
    assert_eq!(bits(4_294_967_040.0).to_u32(), 4_294_967_040);
    assert_eq!(bits(4_294_967_296.0).to_u32(), u32::MAX);
    assert_eq!(bits(1.0e18).to_u32(), u32::MAX);
}

#[test]
fn comparisons_are_the_machines() {
    let values = [
        0.0f32,
        -0.0,
        1.0,
        -1.0,
        1.15,
        2.5,
        f32::MIN_POSITIVE,
        1.0e-45,
        f32::MAX,
        f32::INFINITY,
        f32::NEG_INFINITY,
        f32::NAN,
    ];
    for a in values {
        for b in values {
            assert_eq!(bits(a).lt(bits(b)), a < b, "{a} < {b}");
            assert_eq!(bits(a).le(bits(b)), a <= b, "{a} <= {b}");
        }
    }
}

#[test]
fn halton_values_are_the_machines() {
    for base in [2, 3, 5, 7, 10, 1000, 0xffff_ffff] {
        for index in (0..2000).chain([65535, 65536, 14_348_906, 0x7fff_ffff, 0xffff_ffff]) {
            assert_eq!(halton(index, base), bits(native_halton(index, base)), "{index} in {base}");
        }
    }
}

#[test]
fn first_halton_values() {
    assert_eq!(halton(1, 2), bits(0.5));
    assert_eq!(halton(2, 2), bits(0.25));
    assert_eq!(halton(3, 2), bits(0.75));
    assert_eq!(halton(6, 2), bits(0.375));
    assert_eq!(halton(1, 3), bits(1.0 / 3.0));
    assert_eq!(halton(0, 2), bits(0.0));
}

#[test]
fn jitter_offsets_stay_in_the_texel() {
    let pattern = jitter_pattern(4096);
    assert_eq!(pattern.len(), 4096);
    for (i, (x, y)) in pattern.iter().enumerate() {
        let (x, y) = (f32::from_bits(x.0), f32::from_bits(y.0));
        assert_eq!(x, native_halton(i as u32 + 1, 2) - 0.5);
        assert_eq!(y, native_halton(i as u32 + 1, 3) - 0.5);
        assert!((-0.5..0.5).contains(&x));
        assert!((-0.5..0.5).contains(&y));
    }
    assert!(jitter_pattern(0).is_empty());
}

#[test]
fn halton_values_reach_one_where_twenty_five_digits_are_one() {
    assert_eq!(halton(0x1ff_ffff, 2), bits(1.0));
    assert_eq!(halton(0xff_ffff, 2), bits(1.0 - f32::EPSILON / 2.0));
    assert_eq!(halton(0x3ff_ffff, 2), bits(1.0));
    assert_eq!(halton(0x2ff_ffff, 2), bits(1.0 - f32::EPSILON / 2.0));
    // In base three even the index whose digits are all two stays below.
    assert_eq!(halton(3_486_784_400, 3), bits(1.0 - f32::EPSILON / 2.0));
}

#[test]
fn texel_positions_are_kept_below_one_half() {
    let most = 0.5 - f32::EPSILON / 2.0;
    for index in [0xff_ffff, 0x1ff_ffff, 0x2ff_ffff, 0x3ff_ffff, 0xffff_ffff] {
        let (x, y) = texel_position(index);
        assert_eq!(x, bits(most), "{index}");
        assert_eq!(y, bits(native_halton(index, 3) - 0.5), "{index}");
    }
    assert_eq!(texel_position(0), (bits(-0.5), bits(-0.5)));
    assert_eq!(texel_position(6).0, bits(-0.125));
    // In base three even the index whose digits are all two stays below by itself.
    assert_eq!(texel_position(3_486_784_400).1, bits(most));
}

#[test]
fn jitter_positions_are_the_machines() {
    let some = [0x0, 0x6, 0xff_ffff, 0x100_0000, 0x1ff_ffff, 0x2ff_ffff, 0x3ff_ffff, 0xffff_ffff];
    for index in some {
        let (x, y) = jitter_position(index);
        assert_eq!(x, bits(native_halton(index, 2) - 0.5), "{index}");
        assert_eq!(y, bits(native_halton(index, 3) - 0.5), "{index}");
    }
    assert_eq!(jitter_position(0x1ff_ffff).0, bits(0.5));
    assert_eq!(jitter_position(0x3ff_ffff).0, bits(0.5));
    assert_eq!(jitter_position(0x1ff_fffe).0, texel_position(0x1ff_fffe).0);
}

#[test]
fn short_patterns_stay_in_the_texel() {
    assert_eq!(texel_pattern(4096), jitter_pattern(4096));
    assert_eq!(texel_pattern(72)[..], jitter_pattern(128)[..72]);
    assert!(texel_pattern(0).is_empty());
}

#[test]
fn index_zero_has_a_value_in_any_base() {
    for base in [0, 1, 2, 3, u32::MAX] {
        assert_eq!(halton(0, base), bits(0.0));
    }
}

/// The digits of the index in reverse, and the base to the power of their number.
fn mirrored(mut index: u32, base: u64) -> (u64, u64) {
    let (mut numerator, mut denominator) = (0, 1);
    while index > 0 {
        numerator = numerator * base + index as u64 % base;
        denominator *= base;
        index = (index as u64 / base) as u32;
    }
    (numerator, denominator)
}

#[test]
fn halton_values_are_radical_inverses() {
    for index in (0..4096).chain([0x7f_ffff, 0xaa_aaaa, 0xff_fffe, 0xff_ffff]) {
        let (numerator, denominator) = mirrored(index, 2);
        let value = f32::from_bits(halton(index, 2).0) as f64;
        assert_eq!(value, numerator as f64 / denominator as f64, "{index}");
    }
    for index in (0..65536).chain([14_348_906, 0x7fff_ffff, 3_486_784_400, 0xffff_ffff]) {
        let (numerator, denominator) = mirrored(index, 3);
        let value = f32::from_bits(halton(index, 3).0) as f64;
        assert!((value - numerator as f64 / denominator as f64).abs() < 1.0e-6, "{index}");
    }
}

#[test]
fn halton_fills_the_halves() {
    for index in (0..4096).chain([0x55_5555, 0x7f_ffff]) {
        let value = f32::from_bits(halton(index, 2).0);
        assert_eq!(halton(2 * index, 2), bits(value / 2.0));
        assert_eq!(halton(2 * index + 1, 2), bits(0.5 + value / 2.0));
    }
}

#[test]
fn exact_ratios_have_exact_phases() {
    let count = |d, s| phases(upscale_ratio(d, s));
    assert_eq!(count(1920, 1920), 8);
    assert_eq!(count(2880, 1920), 18);
    assert_eq!(count(3360, 1920), 24);
    assert_eq!(count(3840, 1920), 32);
    assert_eq!(count(3840, 1280), 72);
    assert_eq!(count(4096, 1), 8 * 4096 * 4096);
    assert_eq!(count(1, 2), 2);
    assert_eq!(count(1, 4), 0);
}

#[test]
fn larger_ratios_have_no_fewer_phases() {
    let mut last = 0;
    for d in 0..4000 {
        let count = phases(upscale_ratio(d, 777));
        assert!(count >= last);
        last = count;
    }
    for s in 1..4000 {
        assert!(phases(upscale_ratio(1920, s)) >= phases(upscale_ratio(1920, s + 1)));
    }
}
