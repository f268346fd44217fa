use pumicite_sr::{
    SuperResolutionDispatchFlags, SuperResolutionEnginePropertyFlags, SuperResolutionImageUseFlags,
    SuperResolutionQualityFocusFlags, SuperResolutionSessionCreateFlags,
    SuperResolutionSessionMemoryRequirementsFlags,
};

#[test]
fn engine_property_bits() {
    assert_eq!(SuperResolutionEnginePropertyFlags::is_temporal().as_raw(), 0x1);
    assert_eq!(SuperResolutionEnginePropertyFlags::supports_pipeline_cache().as_raw(), 0x2);
    assert_eq!(SuperResolutionEnginePropertyFlags::supports_continuous_scaling().as_raw(), 0x4);
    assert_eq!(SuperResolutionEnginePropertyFlags::supports_dynamic_source_size().as_raw(), 0x8);
    assert_eq!(SuperResolutionEnginePropertyFlags::uses_sharpness().as_raw(), 0x10);
}

#[test]
fn image_use_bits() {
    let uses = [
        SuperResolutionImageUseFlags::source(),
        SuperResolutionImageUseFlags::destination(),
        SuperResolutionImageUseFlags::depth(),
        SuperResolutionImageUseFlags::motion_vectors(),
        SuperResolutionImageUseFlags::reactive_mask(),
        SuperResolutionImageUseFlags::ignore_history_mask(),
        SuperResolutionImageUseFlags::exposure_scale(),
        SuperResolutionImageUseFlags::diffuse_albedo(),
        SuperResolutionImageUseFlags::specular_albedo(),
        SuperResolutionImageUseFlags::normal(),
        SuperResolutionImageUseFlags::roughness(),
        SuperResolutionImageUseFlags::specular_hit_distance(),
        SuperResolutionImageUseFlags::denoise_strength_mask(),
        SuperResolutionImageUseFlags::transparency_overlay(),
    ];
    for (i, flag) in uses.iter().enumerate() {
        assert_eq!(flag.as_raw(), 1 << i);
    }
}

#[test]
fn quality_focus_bits() {
    assert_eq!(SuperResolutionQualityFocusFlags::balanced().as_raw(), 1);
    assert_eq!(SuperResolutionQualityFocusFlags::quality().as_raw(), 2);
    assert_eq!(SuperResolutionQualityFocusFlags::performance().as_raw(), 4);
    assert_eq!(SuperResolutionQualityFocusFlags::power().as_raw(), 8);
}

#[test]
fn session_create_bits() {
    let flags = [
        SuperResolutionSessionCreateFlags::dynamic_source_size(),
        SuperResolutionSessionCreateFlags::motion_vectors_use_destination_dimensions(),
        SuperResolutionSessionCreateFlags::motion_vectors_use_jitter(),
        SuperResolutionSessionCreateFlags::allow_subrect_destination(),
        SuperResolutionSessionCreateFlags::linear_depth(),
        SuperResolutionSessionCreateFlags::inverted_depth(),
        SuperResolutionSessionCreateFlags::use_sharpness(),
        SuperResolutionSessionCreateFlags::use_auto_exposure(),
        SuperResolutionSessionCreateFlags::force_ldr_colors(),
        SuperResolutionSessionCreateFlags::use_legacy_descriptors(),
    ];
    for (i, flag) in flags.iter().enumerate() {
        assert_eq!(flag.as_raw(), 1 << i);
    }
}

#[test]
fn other_bits() {
    assert_eq!(SuperResolutionSessionMemoryRequirementsFlags::persistent().as_raw(), 1);
    assert_eq!(SuperResolutionDispatchFlags::inverted_depth_range().as_raw(), 1);
    assert_eq!(SuperResolutionDispatchFlags::orthographic_projection().as_raw(), 2);
    assert_eq!(SuperResolutionDispatchFlags::reset_history().as_raw(), 4);
}

#[test]
fn operators_are_set_operations() {
    type F = SuperResolutionQualityFocusFlags;
    let a = F::balanced() | F::quality();
    let b = F::quality() | F::power();
    assert_eq!((a | b).as_raw(), 0b1011);
    assert_eq!((a & b).as_raw(), 0b0010);
    assert_eq!((a ^ b).as_raw(), 0b1001);
    assert_eq!((!a).as_raw(), !0b0011);
    let mut c = a;
    c |= b;
    assert_eq!(c, a | b);
    c &= a;
    assert_eq!(c, a);
    c ^= a;
    assert_eq!(c, F::empty());
}

#[test]
fn contains_is_subset_and_intersects_is_overlap() {
    type F = SuperResolutionDispatchFlags;
    let both = F::inverted_depth_range() | F::reset_history();
    assert!(both.contains(F::reset_history()));
    assert!(both.contains(both));
    assert!(both.contains(F::empty()));
    assert!(!both.contains(F::orthographic_projection()));
    assert!(!F::reset_history().contains(both));
    assert!(both.intersects(F::reset_history() | F::orthographic_projection()));
    assert!(!both.intersects(F::orthographic_projection()));
    assert!(!both.intersects(F::empty()));
    assert!(F::default().is_empty());
    assert!(!both.is_empty());
    assert_eq!(F::from_raw(both.as_raw()), both);
}
