use pumicite_sr::engine::{engine_name, fill_scaling_factors, is_hdr_format, report};
use pumicite_sr::vk::{Format, ImageUsageFlags};
use pumicite_sr::{ScalingFactor, SuperResolutionImageUseFlags};

#[test]
fn names_are_padded_with_nul() {
    let name = engine_name(&[65, 66, 67]);
    assert_eq!(&name[..3], "ABC".as_bytes());
    assert_eq!(&name[3..], &[0; 29]);
    let longest = engine_name(&[97; 31]);
    assert_eq!(&longest[..31], &[97; 31]);
    assert_eq!(longest[31], 0);
    assert_eq!(engine_name(&[]), [0; 32]);
}

#[test]
fn unused_factor_slots_are_zero_over_one() {
    let slots = fill_scaling_factors(&[ScalingFactor { numerator: 2, denominator: 1 }]);
    assert_eq!(slots[0], ScalingFactor { numerator: 2, denominator: 1 });
    assert!(slots[1..].iter().all(|f| *f == ScalingFactor { numerator: 0, denominator: 1 }));
}

#[test]
fn only_wide_float_formats_are_hdr() {
    assert!(is_hdr_format(Format::r16g16b16a16_sfloat()));
    assert!(is_hdr_format(Format::r32g32b32a32_sfloat()));
    assert!(!is_hdr_format(Format::r8g8b8a8_unorm()));
    assert!(!is_hdr_format(Format::r16_sfloat()));
    assert!(!is_hdr_format(Format::undefined()));
}

#[test]
fn reports_append_what_is_asked() {
    let mut properties = Vec::new();
    let formats = [Format::r8_unorm(), Format::r16_sfloat()];
    let roughness = SuperResolutionImageUseFlags::roughness();
    report(
        &mut properties,
        SuperResolutionImageUseFlags::depth(),
        roughness,
        &formats,
        ImageUsageFlags::sampled(),
    );
    assert!(properties.is_empty());
    for _ in 0..2 {
        report(&mut properties, roughness, roughness, &formats, ImageUsageFlags::sampled());
    }
    let reported: Vec<_> = properties.iter().map(|p| p.format).collect();
    assert_eq!(reported, [formats, formats].concat());
}
