use pumicite_sr::dlss::runtime::{NgxFeature, NgxRuntime};
use pumicite_sr::dlss::sys::{
    NVSDK_NGX_DLSS_Denoise_Mode, NVSDK_NGX_DLSS_Depth_Type, NVSDK_NGX_DLSS_Roughness_Mode,
    NVSDK_NGX_Dimensions, NVSDK_NGX_PerfQuality_Value, NVSDK_NGX_Resource_VK_Type,
    NVSDK_NGX_Result,
};
use pumicite_sr::dlss::{
    build_create_params, create_session, engine_properties, engine_supported_image_properties,
    enumerate_engines, flatten, make_resource, perf_quality_for, recommended_jitter_pattern,
    session_descriptor_heap_ranges, session_memory_requirements, DlssSession, Resource,
};
use pumicite_sr::single::Single;
use pumicite_sr::vk::{
    DriverId, Extent2D, Format, Image, ImageLayout, ImageSubresourceRange, ImageUsageFlags,
    ImageView, ImageViewCreateInfo, Offset2D, VkError,
};
use pumicite_sr::{
    ScalingFactor, SuperResolutionEnginePropertyFlags, SuperResolutionImageUseFlags,
    SuperResolutionCameraInfo, SuperResolutionDispatchDenoiseInfo,
    SuperResolutionDispatchExposureInfo, SuperResolutionDispatchFlags, SuperResolutionDispatchInfo,
    SuperResolutionDispatchMotionInfo, SuperResolutionEngine, SuperResolutionImageInfo,
    SuperResolutionQualityFocusFlags, SuperResolutionSessionCreateFlags,
    SuperResolutionSessionCreateInfo,
};

fn image(number: u64, offset: (i32, i32)) -> SuperResolutionImageInfo {
    SuperResolutionImageInfo {
        view: ImageViewCreateInfo {
            image: Image(number),
            format: Format(number as i32),
            subresource_range: ImageSubresourceRange {
                aspect_mask: 1,
                base_mip_level: 0,
                level_count: 1,
                base_array_layer: 0,
                layer_count: 1,
            },
        },
        view_offset: Offset2D { x: offset.0, y: offset.1 },
        initial_layout: ImageLayout(1),
        final_layout: ImageLayout(1),
    }
}

fn matrix(first: u32) -> [[Single; 4]; 4] {
    let mut m = [[Single(0); 4]; 4];
    for (i, column) in m.iter_mut().enumerate() {
        for (j, element) in column.iter_mut().enumerate() {
            *element = Single(first + 4 * i as u32 + j as u32);
        }
    }
    m
}

fn motion_info() -> SuperResolutionDispatchMotionInfo {
    SuperResolutionDispatchMotionInfo {
        motion_vectors_image_info: Some(image(4, (40, -40))),
        reactive_mask_image_info: Some(image(5, (50, 51))),
        ignore_history_mask_image_info: None,
        camera_info: SuperResolutionCameraInfo {
            view_projection_matrix: matrix(0),
            near: Single(0),
            far: Single(0),
            fov: Single(0),
        },
        texel_jitter_x: Single(0x3e80_0000),
        texel_jitter_y: Single(0xbe80_0000),
    }
}

fn denoise_info() -> SuperResolutionDispatchDenoiseInfo {
    SuperResolutionDispatchDenoiseInfo {
        diffuse_albedo_image_info: image(10, (0, 0)),
        specular_albedo_image_info: image(11, (0, 0)),
        normal_image_info: image(12, (0, 0)),
        roughness_image_info: image(13, (0, 0)),
        specular_hit_distance_image_info: Some(image(14, (0, 0))),
        denoise_strength_mask_image_info: None,
        transparency_overlay_image_info: Some(image(16, (0, 0))),
        world_to_view_matrix: matrix(100),
        view_to_clip_matrix: matrix(200),
    }
}

fn bare_dispatch() -> SuperResolutionDispatchInfo {
    SuperResolutionDispatchInfo {
        dispatch_index: 0,
        flags: SuperResolutionDispatchFlags::empty(),
        quality_focus: SuperResolutionQualityFocusFlags::balanced(),
        destination_image_info: image(2, (20, 21)),
        source_image_info: image(1, (-1, 11)),
        source_depth_image_info: None,
        source_size: Extent2D { width: 1280, height: 720 },
        sharpness: Single(0),
        motion_info: None,
        exposure_info: None,
        denoise_info: None,
        resource_descriptor_heap_offset: 0,
        sampler_descriptor_heap_offset: 0,
    }
}

fn full_dispatch() -> SuperResolutionDispatchInfo {
    SuperResolutionDispatchInfo {
        flags: SuperResolutionDispatchFlags::reset_history(),
        source_depth_image_info: Some(image(3, (30, 31))),
        motion_info: Some(motion_info()),
        exposure_info: Some(SuperResolutionDispatchExposureInfo {
            pre_exposure: Single(0x4000_0000),
            exposure_scale_uniform: Single(0),
            exposure_scale_image_info: Some(image(6, (0, 0))),
        }),
        denoise_info: Some(denoise_info()),
        ..bare_dispatch()
    }
}

fn create_info(engine: SuperResolutionEngine) -> SuperResolutionSessionCreateInfo {
    SuperResolutionSessionCreateInfo {
        engine,
        flags: SuperResolutionSessionCreateFlags::empty(),
        required_quality_focuses: SuperResolutionQualityFocusFlags::balanced(),
        destination_format: Format::r8g8b8a8_unorm(),
        source_format: Format::r16g16b16a16_sfloat(),
        source_depth_format: Format::d32_sfloat(),
        motion_vector_format: Format::r16g16_sfloat(),
        reactive_mask_format: Format::undefined(),
        ignore_history_mask_format: Format::undefined(),
        exposure_scale_format: Format::undefined(),
        diffuse_albedo_format: Format::r8g8b8a8_unorm(),
        specular_albedo_format: Format::b8g8r8a8_unorm(),
        normal_format: Format::a2b10g10r10_unorm_pack32(),
        roughness_format: Format::r8_unorm(),
        specular_hit_distance_format: Format::undefined(),
        denoise_strength_mask_format: Format::undefined(),
        transparency_overlay_format: Format::undefined(),
        destination_region_size: Extent2D { width: 2560, height: 1440 },
        max_source_region_size: Extent2D { width: 1280, height: 720 },
        motion_vector_scale_x: Single(0x3f80_0000),
        motion_vector_scale_y: Single(0xbf80_0000),
        max_concurrent_dispatches: 1,
    }
}

const RUNTIME: NgxRuntime = NgxRuntime { device: 3 };

fn initialized(create_info: &SuperResolutionSessionCreateInfo) -> DlssSession {
    let mut session = create_session(create_info, Ok(RUNTIME)).unwrap();
    let feature = NgxFeature { handle: 42, runtime: RUNTIME };
    assert_eq!(session.initialize_session(Ok(feature)), Ok(None));
    session
}

#[test]
fn dlss_is_enumerated_on_nvidias_driver_where_available() {
    let nvidia = DriverId::nvidia_proprietary();
    assert_eq!(enumerate_engines(nvidia, true), vec![SuperResolutionEngine::dlss_rr()]);
    assert!(enumerate_engines(nvidia, false).is_empty());
    assert!(enumerate_engines(DriverId(1), true).is_empty());
}

#[test]
fn dlss_engine_properties() {
    let p = engine_properties(0x10de, SuperResolutionEngine::dlss_rr());
    assert_eq!(p.vendor_id, 0x10de);
    assert_eq!(&p.engine_name[..31], "NVIDIA DLSS Ray Reconstruction\0".as_bytes());
    assert_eq!(
        p.flags,
        SuperResolutionEnginePropertyFlags::is_temporal()
            | SuperResolutionEnginePropertyFlags::supports_dynamic_source_size()
    );
    assert_eq!(p.image_used.as_raw(), 0b1111_1000_1111);
    assert_eq!(p.supported_quality_focuses, SuperResolutionQualityFocusFlags::balanced());
    assert_eq!(p.supported_queue_family_indexes, [u32::MAX; 8]);
    assert_eq!(p.supported_scaling_factor_count, 6);
    let factors: Vec<_> = p.supported_scaling_factors[..6]
        .iter()
        .map(|f| (f.numerator, f.denominator))
        .collect();
    assert_eq!(factors, [(1, 1), (13, 10), (3, 2), (12, 7), (2, 1), (3, 1)]);
    assert_eq!(p.supported_scaling_factors[6], ScalingFactor { numerator: 0, denominator: 1 });
    assert_eq!(p.max_destination_region_size, Extent2D { width: 16384, height: 16384 });
    assert_eq!(p.max_supported_concurrent_session_dispatches, 1);
}

#[test]
fn dlss_formats_are_storage_images() {
    let engine = SuperResolutionEngine::dlss_rr();
    let all = engine_supported_image_properties(engine, !SuperResolutionImageUseFlags::empty());
    let formats: Vec<_> = all.iter().map(|p| p.format).collect();
    assert_eq!(
        formats,
        [
            Format::r16g16b16a16_sfloat(),
            Format::r8g8b8a8_unorm(),
            Format::r16g16b16a16_sfloat(),
            Format::r8g8b8a8_unorm(),
            Format::r32_sfloat(),
            Format::d32_sfloat(),
            Format::r16g16_sfloat(),
            Format::r16g16b16a16_sfloat(),
            Format::r8g8b8a8_unorm(),
            Format::r8g8b8a8_srgb(),
            Format::r8g8b8a8_unorm(),
            Format::r8_unorm(),
            Format::r16_sfloat(),
            Format::r16_sfloat(),
            Format::r32_sfloat(),
        ]
    );
    assert!(all.iter().all(|p| p.image_usage_flags == ImageUsageFlags::storage()));
    let none = SuperResolutionImageUseFlags::reactive_mask()
        | SuperResolutionImageUseFlags::transparency_overlay();
    assert!(engine_supported_image_properties(engine, none).is_empty());
}

#[test]
fn dlss_needs_no_memory_and_no_descriptors() {
    assert!(session_memory_requirements().is_empty());
    let ranges = session_descriptor_heap_ranges();
    assert_eq!((ranges.resource_heap_size, ranges.resource_heap_alignment), (0, 0));
    assert_eq!((ranges.sampler_heap_size, ranges.sampler_heap_alignment), (0, 0));
}

fn quality(destination: u32, source: u32) -> NVSDK_NGX_PerfQuality_Value {
    perf_quality_for(
        Extent2D { width: destination, height: 1 },
        Extent2D { width: source, height: 1 },
    )
}

#[test]
fn perf_quality_follows_the_ratio() {
    type Q = NVSDK_NGX_PerfQuality_Value;
    assert_eq!(quality(1920, 1920), Q::DLAA);
    assert_eq!(quality(1300, 1000), Q::UltraQuality);
    assert_eq!(quality(3840, 2560), Q::MaxQuality);
    assert_eq!(quality(1200, 700), Q::Balanced);
    assert_eq!(quality(3840, 1920), Q::MaxPerf);
    assert_eq!(quality(3840, 1280), Q::UltraPerformance);
    // Halfway between two factors the larger has it.
    assert_eq!(quality(23, 20), Q::UltraQuality);
    assert_eq!(quality(7, 5), Q::MaxQuality);
    assert_eq!(quality(45, 28), Q::Balanced);
    assert_eq!(quality(13, 7), Q::MaxPerf);
    assert_eq!(quality(5, 2), Q::UltraPerformance);
    // Just below halfway the smaller has it.
    assert_eq!(quality(114_999, 100_000), Q::DLAA);
    assert_eq!(quality(139_999, 100_000), Q::UltraQuality);
    assert_eq!(quality(1605, 1000), Q::MaxQuality);
    assert_eq!(quality(16, 10), Q::MaxQuality);
    assert_eq!(quality(1855, 1000), Q::Balanced);
    assert_eq!(quality(185, 100), Q::Balanced);
    assert_eq!(quality(249_999, 100_000), Q::MaxPerf);
    // Where singles would no longer tell the widths apart.
    assert_eq!(quality(2_299_999_999, 2_000_000_000), Q::DLAA);
    assert_eq!(quality(2_300_000_000, 2_000_000_000), Q::UltraQuality);
    // A source without width counts as one texel wide.
    assert_eq!(quality(0, 0), Q::DLAA);
    assert_eq!(quality(2, 0), Q::MaxPerf);
    assert_eq!(quality(u32::MAX, 0), Q::UltraPerformance);
}

#[test]
fn perf_quality_is_the_nearest() {
    type Q = NVSDK_NGX_PerfQuality_Value;
    let factors: [(Q, i128, i128); 6] = [
        (Q::DLAA, 1, 1),
        (Q::UltraQuality, 13, 10),
        (Q::MaxQuality, 3, 2),
        (Q::Balanced, 12, 7),
        (Q::MaxPerf, 2, 1),
        (Q::UltraPerformance, 3, 1),
    ];
    for source in [1u32, 3, 7, 100, 333, 1000, 1280, 16_777_217] {
        for step in 0..400u32 {
            let destination = (source as u64 * step as u64 / 100) as u32;
            let (d, s) = (destination as i128, source as i128);
            // The distances of d / s from the factors, over the denominator 70 s.
            let distance = |n: i128, m: i128| (d * 70 - s * n * (70 / m)).abs();
            let chosen = quality(destination, source);
            let (_, n, m) = factors[factors.iter().position(|f| f.0 == chosen).unwrap()];
            for (_, other_n, other_m) in factors {
                assert!(distance(n, m) <= distance(other_n, other_m), "{destination} / {source}");
            }
        }
    }
}

#[test]
fn create_params_of_plain_sessions() {
    let p = build_create_params(&create_info(SuperResolutionEngine::dlss_rr()));
    assert_eq!(p.in_denoise_mode, NVSDK_NGX_DLSS_Denoise_Mode::DLUnified);
    assert_eq!(p.in_roughness_mode, NVSDK_NGX_DLSS_Roughness_Mode::Unpacked);
    assert_eq!(p.in_use_hw_depth, NVSDK_NGX_DLSS_Depth_Type::HW);
    assert_eq!((p.in_width, p.in_height), (1280, 720));
    assert_eq!((p.in_target_width, p.in_target_height), (2560, 1440));
    assert_eq!(p.in_perf_quality_value, NVSDK_NGX_PerfQuality_Value::MaxPerf);
    let flags = p.in_feature_create_flags;
    assert!(flags.is_hdr && flags.mv_low_res);
    assert!(!flags.mv_jittered && !flags.depth_inverted && !flags.auto_exposure);
    assert!(!p.in_enable_output_subrects);
}

#[test]
fn create_params_follow_the_flags() {
    type Flags = SuperResolutionSessionCreateFlags;
    let mut info = create_info(SuperResolutionEngine::dlss_rr());
    info.roughness_format = Format::undefined();
    info.flags = Flags::force_ldr_colors()
        | Flags::motion_vectors_use_destination_dimensions()
        | Flags::inverted_depth()
        | Flags::motion_vectors_use_jitter()
        | Flags::use_auto_exposure()
        | Flags::linear_depth()
        | Flags::allow_subrect_destination();
    let p = build_create_params(&info);
    assert_eq!(p.in_roughness_mode, NVSDK_NGX_DLSS_Roughness_Mode::Packed);
    assert_eq!(p.in_use_hw_depth, NVSDK_NGX_DLSS_Depth_Type::Linear);
    let flags = p.in_feature_create_flags;
    assert!(!flags.is_hdr && !flags.mv_low_res);
    assert!(flags.mv_jittered && flags.depth_inverted && flags.auto_exposure);
    assert!(p.in_enable_output_subrects);
    info.flags = Flags::empty();
    info.source_format = Format::r8g8b8a8_unorm();
    assert!(!build_create_params(&info).in_feature_create_flags.is_hdr);
}

#[test]
fn dlss_sessions_need_the_runtime() {
    let info = create_info(SuperResolutionEngine::dlss_rr());
    let session = create_session(&info, Ok(RUNTIME)).unwrap();
    assert_eq!(session.create_params, build_create_params(&info));
    assert_eq!(session.feature, None);
    assert_eq!(session.destination_extent, Extent2D { width: 2560, height: 1440 });
    assert_eq!((session.mv_scale_x, session.mv_scale_y), (Single(0x3f80_0000), Single(0xbf80_0000)));
    let failed = create_session(&info, Err(NVSDK_NGX_Result::fail_out_of_date()));
    assert_eq!(failed.err(), Some(VkError::InitializationFailed));
}

#[test]
fn dlss_dispatches_once_initialized() {
    let mut session =
        create_session(&create_info(SuperResolutionEngine::dlss_rr()), Ok(RUNTIME)).unwrap();
    assert!(session.dispatch(&full_dispatch()).is_none());
    let failure = NVSDK_NGX_Result::fail_unable_to_initialize_feature();
    assert_eq!(session.initialize_session(Err(failure)), Err(failure));
    assert!(session.dispatch(&full_dispatch()).is_none());
    let first = NgxFeature { handle: 1, runtime: RUNTIME };
    let second = NgxFeature { handle: 2, runtime: RUNTIME };
    assert_eq!(session.initialize_session(Ok(first)), Ok(None));
    assert_eq!(session.dispatch(&full_dispatch()).unwrap().feature, first);
    assert_eq!(session.initialize_session(Ok(second)), Ok(Some(first)));
    assert_eq!(session.initialize_session(Err(failure)), Err(failure));
    assert_eq!(session.dispatch(&full_dispatch()).unwrap().feature, second);
}

#[test]
fn dlss_evaluates_all_inputs() {
    let session = initialized(&create_info(SuperResolutionEngine::dlss_rr()));
    let e = session.dispatch(&full_dispatch()).unwrap();
    let inputs = [
        (e.color, 1),
        (e.depth.unwrap(), 3),
        (e.motion_vectors.unwrap(), 4),
        (e.diffuse_albedo.unwrap(), 10),
        (e.specular_albedo.unwrap(), 11),
        (e.normals.unwrap(), 12),
        (e.roughness.unwrap(), 13),
        (e.specular_hit_distance.unwrap(), 14),
    ];
    for (request, number) in inputs {
        assert_eq!(request.image_info.view.image, Image(number));
        assert_eq!((request.width, request.height), (1280, 720));
        assert!(!request.read_write);
    }
    assert_eq!(e.output.image_info.view.image, Image(2));
    assert_eq!((e.output.width, e.output.height), (2560, 1440));
    assert!(e.output.read_write);
    let expected: Vec<_> = (100..116).map(Single).collect();
    assert_eq!(e.world_to_view_matrix.unwrap().to_vec(), expected);
    let expected: Vec<_> = (200..216).map(Single).collect();
    assert_eq!(e.view_to_clip_matrix.unwrap().to_vec(), expected);
    assert_eq!(
        e.in_render_subrect_dimensions,
        NVSDK_NGX_Dimensions { width: 1280, height: 720 }
    );
    assert_eq!((e.in_mv_scale_x, e.in_mv_scale_y), (Single(0x3f80_0000), Single(0xbf80_0000)));
    assert_eq!(
        (e.in_jitter_offset_x, e.in_jitter_offset_y),
        (Single(0x3e80_0000), Single(0xbe80_0000))
    );
    assert_eq!(e.in_reset, 1);
}

#[test]
fn dlss_motion_vectors_have_the_size_asked_for() {
    let mut info = create_info(SuperResolutionEngine::dlss_rr());
    info.flags = SuperResolutionSessionCreateFlags::motion_vectors_use_destination_dimensions();
    let e = initialized(&info).dispatch(&full_dispatch()).unwrap();
    let motion_vectors = e.motion_vectors.unwrap();
    assert_eq!((motion_vectors.width, motion_vectors.height), (2560, 1440));
    assert_eq!(motion_vectors.image_info.view.image, Image(4));
    // The other inputs keep the source's size.
    assert_eq!((e.color.width, e.color.height), (1280, 720));
    assert_eq!((e.depth.unwrap().width, e.depth.unwrap().height), (1280, 720));
    info.flags = SuperResolutionSessionCreateFlags::empty();
    let e = initialized(&info).dispatch(&full_dispatch()).unwrap();
    let motion_vectors = e.motion_vectors.unwrap();
    assert_eq!((motion_vectors.width, motion_vectors.height), (1280, 720));
}

#[test]
fn dlss_leaves_out_what_is_missing() {
    let session = initialized(&create_info(SuperResolutionEngine::dlss_rr()));
    let e = session.dispatch(&bare_dispatch()).unwrap();
    assert!(e.depth.is_none() && e.motion_vectors.is_none() && e.diffuse_albedo.is_none());
    assert!(e.specular_albedo.is_none() && e.normals.is_none() && e.roughness.is_none());
    assert!(e.specular_hit_distance.is_none() && e.world_to_view_matrix.is_none());
    assert!(e.view_to_clip_matrix.is_none());
    assert_eq!((e.in_jitter_offset_x, e.in_jitter_offset_y), (Single(0), Single(0)));
    assert_eq!(e.in_reset, 0);
}

#[test]
fn packed_roughness_has_no_image() {
    let mut info = create_info(SuperResolutionEngine::dlss_rr());
    info.roughness_format = Format::undefined();
    let e = initialized(&info).dispatch(&full_dispatch()).unwrap();
    assert!(e.roughness.is_none());
    assert!(e.normals.is_some());
}

#[test]
fn resources_describe_their_views() {
    let session = initialized(&create_info(SuperResolutionEngine::dlss_rr()));
    let e = session.dispatch(&full_dispatch()).unwrap();
    let resource: Resource = make_resource(&e.output, ImageView(99));
    assert_eq!(resource.0.resource_type, NVSDK_NGX_Resource_VK_Type::ImageView);
    assert!(resource.0.read_write);
    assert_eq!(resource.0.resource.image_view, ImageView(99));
    assert_eq!(resource.0.resource.image, Image(2));
    assert_eq!(resource.0.resource.format, Format(2));
    assert_eq!(resource.0.resource.subresource_range.layer_count, 1);
    assert_eq!((resource.0.resource.width, resource.0.resource.height), (2560, 1440));
}

#[test]
fn matrices_are_flattened_column_after_column() {
    let flat = flatten(&matrix(7));
    for (i, element) in flat.iter().enumerate() {
        assert_eq!(*element, Single(7 + i as u32));
    }
}

#[test]
fn dlss_jitter_has_at_least_thirty_two_phases() {
    let pattern = |d, s| {
        recommended_jitter_pattern(
            Extent2D { width: d, height: 1 },
            Extent2D { width: s, height: 1 },
        )
        .unwrap()
    };
    assert_eq!(pattern(1920, 1920).len(), 32);
    assert_eq!(pattern(3840, 1920).len(), 32);
    assert_eq!(pattern(3840, 1280).len(), 72);
    assert_eq!(pattern(0, 0).len(), 32);
    assert_eq!(pattern(3, 0).len(), 72);
    let first = pattern(1920, 1920)[0];
    assert_eq!(f32::from_bits(first.0 .0), 0.0);
    assert_eq!(f32::from_bits(first.1 .0), 1.0f32 / 3.0 - 0.5);
}

#[test]
fn dlss_jitter_of_larger_ratios_starts_alike() {
    let pattern = |d, s, height| {
        recommended_jitter_pattern(Extent2D { width: d, height }, Extent2D { width: s, height: 1 })
            .unwrap()
    };
    let (smaller, larger) = (pattern(3840, 1280, 1), pattern(4096, 1024, 1));
    assert_eq!((smaller.len(), larger.len()), (72, 128));
    assert_eq!(larger[..72], smaller[..]);
    // Heights have no influence.
    assert_eq!(pattern(3840, 1280, 2160), smaller);
    let many = pattern(6400, 100, 1);
    assert_eq!(many.len(), 32768);
    let mut firsts: Vec<_> = many.iter().map(|offset| offset.0 .0).collect();
    firsts.sort_unstable();
    firsts.dedup();
    assert_eq!(firsts.len(), 32768);
}
