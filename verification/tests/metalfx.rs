use pumicite_sr::metalfx::{
    create_session, create_spatial_scaler, create_temporal_denoised_scaler, create_temporal_scaler,
    dispatch_denoised, dispatch_spatial, dispatch_temporal, discretize_scale_range,
    engine_properties, engine_supported_image_properties, enumerate_engines, is_known,
    mtl_pixel_format, offset_xy, scaler_descriptor, session_descriptor_heap_ranges,
    session_memory_requirements, MTLFXSpatialScalerColorProcessingMode, MTLPixelFormat,
    PlacedTexture, ScaleRange, Scaler, ScalerCreation, ScalerDescriptor, ScalerDispatch,
    TemporalTextureRole,
};
use pumicite_sr::single::Single;
use pumicite_sr::vk::{
    Extent2D, Format, Image, ImageLayout, ImageSubresourceRange, ImageUsageFlags,
    ImageViewCreateInfo, Offset2D, VkError,
};
use pumicite_sr::{
    ScalingFactor, SuperResolutionEnginePropertyFlags, SuperResolutionImageUseFlags,
    SuperResolutionCameraInfo, SuperResolutionDispatchDenoiseInfo,
    SuperResolutionDispatchExposureInfo, SuperResolutionDispatchFlags, SuperResolutionDispatchInfo,
    SuperResolutionDispatchMotionInfo, SuperResolutionEngine, SuperResolutionImageInfo,
    SuperResolutionQualityFocusFlags, SuperResolutionSessionCreateFlags,
    SuperResolutionSessionCreateInfo,
};

fn image(number: u64, offset: (i32, i32)) -> SuperResolutionImageInfo {
    SuperResolutionImageInfo {
        view: ImageViewCreateInfo {
            image: Image(number),
            format: Format(number as i32),
            subresource_range: ImageSubresourceRange {
                aspect_mask: 1,
                base_mip_level: 0,
                level_count: 1,
                base_array_layer: 0,
                layer_count: 1,
            },
        },
        view_offset: Offset2D { x: offset.0, y: offset.1 },
        initial_layout: ImageLayout(1),
        final_layout: ImageLayout(1),
    }
}

fn matrix(first: u32) -> [[Single; 4]; 4] {
    let mut m = [[Single(0); 4]; 4];
    for (i, column) in m.iter_mut().enumerate() {
        for (j, element) in column.iter_mut().enumerate() {
            *element = Single(first + 4 * i as u32 + j as u32);
        }
    }
    m
}

fn motion_info() -> SuperResolutionDispatchMotionInfo {
    SuperResolutionDispatchMotionInfo {
        motion_vectors_image_info: Some(image(4, (40, -40))),
        reactive_mask_image_info: Some(image(5, (50, 51))),
        ignore_history_mask_image_info: None,
        camera_info: SuperResolutionCameraInfo {
            view_projection_matrix: matrix(0),
            near: Single(0),
            far: Single(0),
            fov: Single(0),
        },
        texel_jitter_x: Single(0x3e80_0000),
        texel_jitter_y: Single(0xbe80_0000),
    }
}

fn denoise_info() -> SuperResolutionDispatchDenoiseInfo {
    SuperResolutionDispatchDenoiseInfo {
        diffuse_albedo_image_info: image(10, (0, 0)),
        specular_albedo_image_info: image(11, (0, 0)),
        normal_image_info: image(12, (0, 0)),
        roughness_image_info: image(13, (0, 0)),
        specular_hit_distance_image_info: Some(image(14, (0, 0))),
        denoise_strength_mask_image_info: None,
        transparency_overlay_image_info: Some(image(16, (0, 0))),
        world_to_view_matrix: matrix(100),
        view_to_clip_matrix: matrix(200),
    }
}

fn bare_dispatch() -> SuperResolutionDispatchInfo {
    SuperResolutionDispatchInfo {
        dispatch_index: 0,
        flags: SuperResolutionDispatchFlags::empty(),
        quality_focus: SuperResolutionQualityFocusFlags::balanced(),
        destination_image_info: image(2, (20, 21)),
        source_image_info: image(1, (-1, 11)),
        source_depth_image_info: None,
        source_size: Extent2D { width: 1280, height: 720 },
        sharpness: Single(0),
        motion_info: None,
        exposure_info: None,
        denoise_info: None,
        resource_descriptor_heap_offset: 0,
        sampler_descriptor_heap_offset: 0,
    }
}

fn full_dispatch() -> SuperResolutionDispatchInfo {
    SuperResolutionDispatchInfo {
        flags: SuperResolutionDispatchFlags::reset_history(),
        source_depth_image_info: Some(image(3, (30, 31))),
        motion_info: Some(motion_info()),
        exposure_info: Some(SuperResolutionDispatchExposureInfo {
            pre_exposure: Single(0x4000_0000),
            exposure_scale_uniform: Single(0),
            exposure_scale_image_info: Some(image(6, (0, 0))),
        }),
        denoise_info: Some(denoise_info()),
        ..bare_dispatch()
    }
}

fn create_info(engine: SuperResolutionEngine) -> SuperResolutionSessionCreateInfo {
    SuperResolutionSessionCreateInfo {
        engine,
        flags: SuperResolutionSessionCreateFlags::empty(),
        required_quality_focuses: SuperResolutionQualityFocusFlags::balanced(),
        destination_format: Format::r8g8b8a8_unorm(),
        source_format: Format::r16g16b16a16_sfloat(),
        source_depth_format: Format::d32_sfloat(),
        motion_vector_format: Format::r16g16_sfloat(),
        reactive_mask_format: Format::undefined(),
        ignore_history_mask_format: Format::undefined(),
        exposure_scale_format: Format::undefined(),
        diffuse_albedo_format: Format::r8g8b8a8_unorm(),
        specular_albedo_format: Format::b8g8r8a8_unorm(),
        normal_format: Format::a2b10g10r10_unorm_pack32(),
        roughness_format: Format::r8_unorm(),
        specular_hit_distance_format: Format::undefined(),
        denoise_strength_mask_format: Format::undefined(),
        transparency_overlay_format: Format::undefined(),
        destination_region_size: Extent2D { width: 2560, height: 1440 },
        max_source_region_size: Extent2D { width: 1280, height: 720 },
        motion_vector_scale_x: Single(0x3f80_0000),
        motion_vector_scale_y: Single(0xbf80_0000),
        max_concurrent_dispatches: 1,
    }
}

fn single(x: f32) -> Single {
    Single(x.to_bits())
}

fn selected(min: f32, max: f32) -> Vec<(u32, u32)> {
    let mut out = [ScalingFactor { numerator: 9, denominator: 9 }; 16];
    let count = discretize_scale_range(single(min), single(max), &mut out) as usize;
    assert!(out[count..].iter().all(|f| *f == ScalingFactor { numerator: 9, denominator: 9 }));
    out[..count].iter().map(|f| (f.numerator, f.denominator)).collect()
}

#[test]
fn metalfx_engines() {
    let engines = enumerate_engines();
    assert_eq!(
        engines,
        vec![
            SuperResolutionEngine::metalfx_temporal_scaler(),
            SuperResolutionEngine::metalfx_spatial_scaler(),
            SuperResolutionEngine::metalfx_temporal_denoised_scaler(),
        ]
    );
    assert_eq!(engines, [10, 11, 12].map(SuperResolutionEngine));
    assert!(engines.into_iter().all(is_known));
    assert!(!is_known(SuperResolutionEngine(13)));
    assert!(!is_known(SuperResolutionEngine::dlss_rr()));
}

#[test]
fn factors_are_selected_by_range() {
    let all = [(3, 2), (5, 3), (7, 4), (2, 1), (5, 2), (3, 1)];
    assert_eq!(selected(1.0, f32::INFINITY), all);
    assert_eq!(selected(1.0, 2.0), all[..4]);
    assert_eq!(selected(1.5, 1.5), all[..1]);
    assert_eq!(selected(5.0 / 3.0, 2.5), all[1..5]);
    assert_eq!(selected(1.6666667, 1.6666666), [(0, 0); 0]);
    assert_eq!(selected(2.0, 1.0), [(0, 0); 0]);
    assert_eq!(selected(f32::NAN, 3.0), [(0, 0); 0]);
    assert_eq!(selected(1.0, f32::NAN), [(0, 0); 0]);
    assert_eq!(selected(-1.0, 1.75), all[..3]);
}

#[test]
fn metalfx_engine_properties() {
    type Flags = SuperResolutionEnginePropertyFlags;
    let temporal = ScaleRange { min: single(1.0), max: single(2.0) };
    let denoised = ScaleRange { min: single(2.0), max: single(3.0) };
    let p = engine_properties(
        0x106b,
        temporal,
        denoised,
        SuperResolutionEngine::metalfx_temporal_scaler(),
    );
    assert_eq!(p.vendor_id, 0x106b);
    assert_eq!(&p.engine_name[..24], "MetalFX Temporal Scaler\0".as_bytes());
    assert_eq!(
        p.flags,
        Flags::is_temporal()
            | Flags::supports_continuous_scaling()
            | Flags::supports_dynamic_source_size()
            | Flags::supports_pipeline_cache()
    );
    assert_eq!(p.image_used.as_raw(), 0b101_1111);
    assert_eq!(p.supported_scaling_factor_count, 4);
    assert_eq!(p.supported_scaling_factors[3], ScalingFactor { numerator: 2, denominator: 1 });
    assert_eq!(p.supported_scaling_factors[4], ScalingFactor { numerator: 0, denominator: 1 });

    let p = engine_properties(
        0x106b,
        temporal,
        denoised,
        SuperResolutionEngine::metalfx_temporal_denoised_scaler(),
    );
    assert_eq!(&p.engine_name[..24], "MetalFX Denoised Scaler\0".as_bytes());
    assert_eq!(
        p.flags,
        Flags::is_temporal()
            | Flags::supports_continuous_scaling()
            | Flags::supports_pipeline_cache()
    );
    assert_eq!(p.image_used.as_raw(), 0b11_1111_1101_1111);
    assert_eq!(p.supported_scaling_factor_count, 3);
    assert_eq!(p.supported_scaling_factors[0], ScalingFactor { numerator: 2, denominator: 1 });

    let p = engine_properties(
        0x106b,
        temporal,
        denoised,
        SuperResolutionEngine::metalfx_spatial_scaler(),
    );
    assert_eq!(&p.engine_name[..23], "MetalFX Spatial Scaler\0".as_bytes());
    assert_eq!(
        p.flags,
        Flags::supports_continuous_scaling()
            | Flags::supports_dynamic_source_size()
            | Flags::supports_pipeline_cache()
    );
    assert_eq!(p.image_used.as_raw(), 0b11);
    assert_eq!(p.supported_scaling_factor_count, 6);
    assert_eq!(p.engine_version, 0);
    assert_eq!(p.engine_uuid, [0; 16]);
    assert_eq!(p.supported_quality_focuses, SuperResolutionQualityFocusFlags::balanced());
    assert_eq!(p.supported_queue_family_indexes, [u32::MAX; 8]);
    assert_eq!(p.max_destination_region_size, Extent2D { width: 16384, height: 16384 });
    assert_eq!(p.max_supported_concurrent_session_dispatches, 1);
}

#[test]
fn roles_have_formats_and_usages() {
    let (formats, usage) = TemporalTextureRole::Output.supported();
    assert_eq!(formats.len(), 4);
    assert_eq!(usage, ImageUsageFlags::storage());
    let (formats, usage) = TemporalTextureRole::Color.supported();
    assert_eq!(formats[2], Format::b8g8r8a8_unorm());
    assert_eq!(usage, ImageUsageFlags::sampled());
    let (formats, usage) = TemporalTextureRole::Depth.supported();
    assert_eq!(formats, [Format::r32_sfloat(), Format::d32_sfloat()]);
    assert_eq!(usage, ImageUsageFlags::sampled());
    assert_eq!(TemporalTextureRole::Motion.supported().0, [Format::r16g16_sfloat()]);
    assert_eq!(TemporalTextureRole::ReactiveMask.supported().0, [Format::r8_unorm()]);
}

#[test]
fn metalfx_formats_follow_engine_and_use() {
    type Use = SuperResolutionImageUseFlags;
    let everything = !Use::empty();
    let temporal = engine_supported_image_properties(
        SuperResolutionEngine::metalfx_temporal_scaler(),
        everything,
    );
    assert_eq!(temporal.len(), 4 + 4 + 2 + 1 + 1 + 1);
    assert_eq!(temporal[12].format, Format::r16_sfloat());
    let spatial = engine_supported_image_properties(
        SuperResolutionEngine::metalfx_spatial_scaler(),
        everything,
    );
    assert_eq!(spatial.len(), 8);
    assert_eq!(spatial[0].image_usage_flags, ImageUsageFlags::sampled());
    assert_eq!(spatial[4].image_usage_flags, ImageUsageFlags::storage());
    let denoised = engine_supported_image_properties(
        SuperResolutionEngine::metalfx_temporal_denoised_scaler(),
        everything,
    );
    assert_eq!(denoised.len(), 4 + 4 + 2 + 1 + 1 + 1 + 4 + 4 + 2 + 2 + 2 + 1 + 1);
    let storage = denoised.iter().filter(|p| p.image_usage_flags == ImageUsageFlags::storage());
    assert_eq!(storage.count(), 4);
    let normals = engine_supported_image_properties(
        SuperResolutionEngine::metalfx_temporal_denoised_scaler(),
        Use::normal(),
    );
    let normals: Vec<_> = normals.iter().map(|p| p.format).collect();
    assert_eq!(normals, [Format::r16g16b16a16_sfloat(), Format::a2b10g10r10_unorm_pack32()]);
    let none = engine_supported_image_properties(
        SuperResolutionEngine::metalfx_temporal_scaler(),
        Use::normal(),
    );
    assert!(none.is_empty());
    let none = engine_supported_image_properties(
        SuperResolutionEngine::metalfx_spatial_scaler(),
        Use::depth(),
    );
    assert!(none.is_empty());
    for properties in [temporal, spatial, denoised] {
        for p in properties {
            assert_ne!(mtl_pixel_format(p.format), MTLPixelFormat::invalid());
        }
    }
}

#[test]
fn pixel_formats() {
    assert_eq!(mtl_pixel_format(Format::r16g16b16a16_sfloat()), MTLPixelFormat(115));
    assert_eq!(mtl_pixel_format(Format::r8g8b8a8_unorm()), MTLPixelFormat(70));
    assert_eq!(mtl_pixel_format(Format::b8g8r8a8_unorm()), MTLPixelFormat(80));
    assert_eq!(mtl_pixel_format(Format::a2b10g10r10_unorm_pack32()), MTLPixelFormat(90));
    assert_eq!(mtl_pixel_format(Format::r32_sfloat()), MTLPixelFormat(55));
    assert_eq!(mtl_pixel_format(Format::d32_sfloat()), MTLPixelFormat(252));
    assert_eq!(mtl_pixel_format(Format::r16g16_sfloat()), MTLPixelFormat(65));
    assert_eq!(mtl_pixel_format(Format::r8_unorm()), MTLPixelFormat(10));
    assert_eq!(mtl_pixel_format(Format::r16_sfloat()), MTLPixelFormat(25));
    assert_eq!(mtl_pixel_format(Format::undefined()), MTLPixelFormat::invalid());
    assert_eq!(mtl_pixel_format(Format::r8g8b8a8_srgb()), MTLPixelFormat::invalid());
}

#[test]
fn metalfx_needs_no_memory_and_no_descriptors() {
    assert!(session_memory_requirements().is_empty());
    let ranges = session_descriptor_heap_ranges();
    assert_eq!((ranges.resource_heap_size, ranges.resource_heap_alignment), (0, 0));
    assert_eq!((ranges.sampler_heap_size, ranges.sampler_heap_alignment), (0, 0));
}

#[test]
fn temporal_descriptors() {
    type Flags = SuperResolutionSessionCreateFlags;
    let mut info = create_info(SuperResolutionEngine::metalfx_temporal_scaler());
    let d = create_temporal_scaler(&info);
    assert_eq!(d.color_texture_format, MTLPixelFormat(115));
    assert_eq!(d.output_texture_format, MTLPixelFormat(70));
    assert_eq!(d.depth_texture_format, MTLPixelFormat(252));
    assert_eq!(d.motion_texture_format, MTLPixelFormat(65));
    assert_eq!(d.input_size, Extent2D { width: 1280, height: 720 });
    assert_eq!(d.output_size, Extent2D { width: 2560, height: 1440 });
    assert_eq!(d.reactive_mask_texture_format, None);
    assert!(!d.auto_exposure_enabled && !d.input_content_properties_enabled);
    assert!(!d.jittered_motion_vectors_enabled && !d.output_resolution_motion_vectors_enabled);
    assert_eq!(d.motion_vector_scale_x, Single(0x3f80_0000));
    assert_eq!(d.motion_vector_scale_y, Single(0xbf80_0000));
    info.reactive_mask_format = Format::r8_unorm();
    info.flags = Flags::use_auto_exposure()
        | Flags::dynamic_source_size()
        | Flags::motion_vectors_use_jitter()
        | Flags::motion_vectors_use_destination_dimensions();
    let d = create_temporal_scaler(&info);
    assert_eq!(d.reactive_mask_texture_format, Some(MTLPixelFormat(10)));
    assert!(d.auto_exposure_enabled && d.input_content_properties_enabled);
    assert!(d.jittered_motion_vectors_enabled && d.output_resolution_motion_vectors_enabled);
    // A format that Metal lacks still enables the texture.
    info.reactive_mask_format = Format::r8g8b8a8_srgb();
    let d = create_temporal_scaler(&info);
    assert_eq!(d.reactive_mask_texture_format, Some(MTLPixelFormat::invalid()));
}

#[test]
fn denoised_descriptors() {
    let mut info = create_info(SuperResolutionEngine::metalfx_temporal_denoised_scaler());
    let d = create_temporal_denoised_scaler(&info);
    assert_eq!(d.diffuse_albedo_texture_format, MTLPixelFormat(70));
    assert_eq!(d.specular_albedo_texture_format, MTLPixelFormat(80));
    assert_eq!(d.normal_texture_format, MTLPixelFormat(90));
    assert_eq!(d.roughness_texture_format, MTLPixelFormat(10));
    assert_eq!(d.specular_hit_distance_texture_format, None);
    assert_eq!(d.denoise_strength_mask_texture_format, None);
    assert_eq!(d.transparency_overlay_texture_format, None);
    assert!(!d.auto_exposure_enabled);
    info.specular_hit_distance_format = Format::r16_sfloat();
    info.denoise_strength_mask_format = Format::r8_unorm();
    info.transparency_overlay_format = Format::r16g16b16a16_sfloat();
    info.flags = SuperResolutionSessionCreateFlags::use_auto_exposure();
    let d = create_temporal_denoised_scaler(&info);
    assert_eq!(d.specular_hit_distance_texture_format, Some(MTLPixelFormat(25)));
    assert_eq!(d.denoise_strength_mask_texture_format, Some(MTLPixelFormat(10)));
    assert_eq!(d.transparency_overlay_texture_format, Some(MTLPixelFormat(115)));
    assert!(d.auto_exposure_enabled);
}

#[test]
fn spatial_descriptors_infer_the_color_space() {
    type Mode = MTLFXSpatialScalerColorProcessingMode;
    let mut info = create_info(SuperResolutionEngine::metalfx_spatial_scaler());
    let d = create_spatial_scaler(&info);
    assert_eq!((d.color_texture_format, d.output_texture_format), (MTLPixelFormat(115), MTLPixelFormat(70)));
    assert_eq!(d.color_processing_mode, Mode::HDR);
    info.flags = SuperResolutionSessionCreateFlags::force_ldr_colors();
    assert_eq!(create_spatial_scaler(&info).color_processing_mode, Mode::Perceptual);
    info.flags = SuperResolutionSessionCreateFlags::empty();
    info.source_format = Format::b8g8r8a8_unorm();
    assert_eq!(create_spatial_scaler(&info).color_processing_mode, Mode::Perceptual);
}

#[test]
fn scalers_are_created_by_engine() {
    let engines = [
        (SuperResolutionEngine::metalfx_temporal_scaler(), Scaler::Temporal(5)),
        (SuperResolutionEngine::metalfx_spatial_scaler(), Scaler::Spatial(5)),
        (SuperResolutionEngine::metalfx_temporal_denoised_scaler(), Scaler::Denoised(5)),
    ];
    for (engine, scaler) in engines {
        let info = create_info(engine);
        assert_eq!(create_session(&info, ScalerCreation::Created(5)), Ok(scaler));
        let failed = Err(VkError::InitializationFailed);
        assert_eq!(create_session(&info, ScalerCreation::NoCompiler), failed);
        assert_eq!(create_session(&info, ScalerCreation::NoScaler), failed);
    }
    let spatial = create_info(SuperResolutionEngine::metalfx_spatial_scaler());
    assert_eq!(
        scaler_descriptor(&spatial),
        ScalerDescriptor::Spatial(create_spatial_scaler(&spatial))
    );
    let denoised = create_info(SuperResolutionEngine::metalfx_temporal_denoised_scaler());
    assert_eq!(
        scaler_descriptor(&denoised),
        ScalerDescriptor::Denoised(create_temporal_denoised_scaler(&denoised))
    );
}

#[test]
fn offsets_are_clamped_to_zero() {
    assert_eq!(offset_xy(Offset2D { x: 3, y: 4 }), (3, 4));
    assert_eq!(offset_xy(Offset2D { x: -3, y: i32::MIN }), (0, 0));
    assert_eq!(offset_xy(Offset2D { x: i32::MAX, y: 0 }), (0x7fff_ffff, 0));
}

#[test]
fn temporal_dispatch_sets_what_is_there() {
    let d = dispatch_temporal(&full_dispatch());
    assert_eq!(d.color, PlacedTexture { image: Image(1), offset_x: 0, offset_y: 11 });
    assert_eq!(d.output, PlacedTexture { image: Image(2), offset_x: 20, offset_y: 21 });
    assert_eq!(d.depth, Some(PlacedTexture { image: Image(3), offset_x: 30, offset_y: 31 }));
    assert_eq!(d.motion, Some(PlacedTexture { image: Image(4), offset_x: 40, offset_y: 0 }));
    assert_eq!(d.reactive_mask, Some(PlacedTexture { image: Image(5), offset_x: 50, offset_y: 51 }));
    assert_eq!(d.jitter_offset, Some((Single(0x3e80_0000), Single(0xbe80_0000))));
    assert_eq!(d.pre_exposure, Some(Single(0x4000_0000)));
    assert_eq!(d.exposure, Some(Image(6)));
    assert_eq!(d.input_content_size, Extent2D { width: 1280, height: 720 });
    assert!(d.reset && !d.depth_reversed);

    let mut bare = bare_dispatch();
    bare.flags = SuperResolutionDispatchFlags::inverted_depth_range();
    let d = dispatch_temporal(&bare);
    assert!(d.depth.is_none() && d.motion.is_none() && d.reactive_mask.is_none());
    assert!(d.jitter_offset.is_none() && d.pre_exposure.is_none() && d.exposure.is_none());
    assert!(!d.reset && d.depth_reversed);
}

#[test]
fn denoised_dispatch_sets_what_is_there() {
    let d = dispatch_denoised(&full_dispatch());
    assert_eq!((d.color, d.output), (Image(1), Image(2)));
    assert_eq!((d.depth, d.motion), (Some(Image(3)), Some(Image(4))));
    assert_eq!((d.reactive_mask, d.exposure), (Some(Image(5)), Some(Image(6))));
    assert_eq!(d.jitter_offset, Some((Single(0x3e80_0000), Single(0xbe80_0000))));
    assert_eq!(d.pre_exposure, Some(Single(0x4000_0000)));
    let denoise = d.denoise.unwrap();
    assert_eq!((denoise.diffuse_albedo, denoise.specular_albedo), (Image(10), Image(11)));
    assert_eq!((denoise.normal, denoise.roughness), (Image(12), Image(13)));
    assert_eq!(denoise.specular_hit_distance, Some(Image(14)));
    assert_eq!(denoise.denoise_strength_mask, None);
    assert_eq!(denoise.transparency_overlay, Some(Image(16)));
    assert_eq!(denoise.world_to_view_matrix, matrix(100));
    assert_eq!(denoise.view_to_clip_matrix, matrix(200));
    assert!(d.should_reset_history && !d.depth_reversed);

    let d = dispatch_denoised(&bare_dispatch());
    assert!(d.depth.is_none() && d.motion.is_none() && d.reactive_mask.is_none());
    assert!(d.jitter_offset.is_none() && d.pre_exposure.is_none() && d.exposure.is_none());
    assert!(d.denoise.is_none());
    assert!(!d.should_reset_history);
}

#[test]
fn spatial_dispatch_ignores_other_inputs() {
    let full = dispatch_spatial(&full_dispatch());
    assert_eq!(full, dispatch_spatial(&bare_dispatch()));
    assert_eq!((full.color, full.output), (Image(1), Image(2)));
    assert_eq!(full.input_content_size, Extent2D { width: 1280, height: 720 });
}

#[test]
fn scalers_dispatch_by_kind() {
    let info = full_dispatch();
    assert!(matches!(Scaler::Temporal(1).dispatch(&info), ScalerDispatch::Temporal(_)));
    assert!(matches!(Scaler::Denoised(1).dispatch(&info), ScalerDispatch::Denoised(_)));
    assert!(matches!(Scaler::Spatial(1).dispatch(&info), ScalerDispatch::Spatial(_)));
    let mut scaler = Scaler::Temporal(1);
    scaler.initialize_session();
    assert_eq!(scaler, Scaler::Temporal(1));
}

#[test]
fn metalfx_jitter_scales_with_the_ratio() {
    let pattern = |scaler: Scaler, d, s| {
        scaler.recommended_jitter_pattern(
            Extent2D { width: d, height: 1 },
            Extent2D { width: s, height: 1 },
        )
    };
    assert_eq!(pattern(Scaler::Temporal(1), 1920, 1920).unwrap().len(), 8);
    assert_eq!(pattern(Scaler::Denoised(1), 3840, 1920).unwrap().len(), 32);
    assert_eq!(pattern(Scaler::Temporal(1), 3840, 2560).unwrap().len(), 18);
    assert!(pattern(Scaler::Temporal(1), 1, 1000).unwrap().is_empty());
    assert!(pattern(Scaler::Temporal(1), 0, 0).unwrap().is_empty());
    assert_eq!(pattern(Scaler::Spatial(1), 3840, 1920), Err(VkError::FeatureNotPresent));
}
