use pumicite_sr::blit::{
    create_session, dispatch, dispatch_fits, engine_properties, engine_supported_image_properties,
    subresource_layers, BlitSession,
};
use pumicite_sr::single::Single;
use pumicite_sr::vk::{
    Extent2D, Filter, Format, Image, ImageLayout, ImageSubresourceLayers, ImageSubresourceRange,
    ImageUsageFlags, ImageViewCreateInfo, Offset2D, Offset3D, VkError,
};
use pumicite_sr::{
    ScalingFactor, SuperResolutionDispatchDenoiseInfo, SuperResolutionDispatchFlags,
    SuperResolutionDispatchInfo, SuperResolutionEngine, SuperResolutionEnginePropertyFlags,
    SuperResolutionImageInfo, SuperResolutionImageProperties, SuperResolutionImageUseFlags,
    SuperResolutionQualityFocusFlags, SuperResolutionSessionCreateFlags,
    SuperResolutionSessionCreateInfo,
};

fn image(number: u64, offset: (i32, i32)) -> SuperResolutionImageInfo {
    SuperResolutionImageInfo {
        view: ImageViewCreateInfo {
            image: Image(number),
            format: Format::r16g16b16a16_sfloat(),
            subresource_range: ImageSubresourceRange {
                aspect_mask: 1,
                base_mip_level: 3,
                level_count: 1,
                base_array_layer: 2,
                layer_count: 1,
            },
        },
        view_offset: Offset2D { x: offset.0, y: offset.1 },
        initial_layout: ImageLayout(number as i32 + 100),
        final_layout: ImageLayout(number as i32 + 200),
    }
}

fn dispatch_info(
    source_offset: (i32, i32),
    size: (u32, u32),
    destination_offset: (i32, i32),
) -> SuperResolutionDispatchInfo {
    SuperResolutionDispatchInfo {
        dispatch_index: 0,
        flags: SuperResolutionDispatchFlags::empty(),
        quality_focus: SuperResolutionQualityFocusFlags::balanced(),
        destination_image_info: image(7, destination_offset),
        source_image_info: image(5, source_offset),
        source_depth_image_info: None,
        source_size: Extent2D { width: size.0, height: size.1 },
        sharpness: Single(0),
        motion_info: None,
        exposure_info: None,
        denoise_info: None,
        resource_descriptor_heap_offset: 0,
        sampler_descriptor_heap_offset: 0,
    }
}

fn create_info(source: Format, destination: Format) -> SuperResolutionSessionCreateInfo {
    let none = Format::undefined();
    SuperResolutionSessionCreateInfo {
        engine: SuperResolutionEngine(9),
        flags: SuperResolutionSessionCreateFlags::empty(),
        required_quality_focuses: SuperResolutionQualityFocusFlags::balanced(),
        destination_format: destination,
        source_format: source,
        source_depth_format: none,
        motion_vector_format: none,
        reactive_mask_format: none,
        ignore_history_mask_format: none,
        exposure_scale_format: none,
        diffuse_albedo_format: none,
        specular_albedo_format: none,
        normal_format: none,
        roughness_format: none,
        specular_hit_distance_format: none,
        denoise_strength_mask_format: none,
        transparency_overlay_format: none,
        destination_region_size: Extent2D { width: 3840, height: 2160 },
        max_source_region_size: Extent2D { width: 1920, height: 1080 },
        motion_vector_scale_x: Single(0x3f80_0000),
        motion_vector_scale_y: Single(0x3f80_0000),
        max_concurrent_dispatches: 1,
    }
}

#[test]
fn blit_engine_properties() {
    let p = engine_properties(0x10de, 32768);
    assert_eq!(p.vendor_id, 0x10de);
    assert_eq!(p.engine_version, 0);
    assert_eq!(p.engine_uuid, [0; 16]);
    assert_eq!(&p.engine_name[..12], "Vulkan Blit\0".as_bytes());
    assert_eq!(&p.engine_name[12..], &[0; 20]);
    assert_eq!(
        p.flags,
        SuperResolutionEnginePropertyFlags::supports_continuous_scaling()
            | SuperResolutionEnginePropertyFlags::supports_dynamic_source_size()
    );
    assert_eq!(p.image_used.as_raw(), 0b11);
    assert_eq!(p.supported_quality_focuses.as_raw(), 0b1111);
    assert_eq!(p.supported_queue_family_indexes, [u32::MAX; 8]);
    assert_eq!(p.supported_scaling_factor_count, 7);
    assert_eq!(p.supported_scaling_factors[1], ScalingFactor { numerator: 3, denominator: 2 });
    assert_eq!(p.supported_scaling_factors[6], ScalingFactor { numerator: 3, denominator: 1 });
    for slot in &p.supported_scaling_factors[7..] {
        assert_eq!(*slot, ScalingFactor { numerator: 0, denominator: 1 });
    }
    assert_eq!(p.max_destination_region_size, Extent2D { width: 32768, height: 32768 });
    assert_eq!(p.max_supported_concurrent_session_dispatches, u32::MAX);
}

#[test]
fn blit_formats_follow_the_use() {
    type Use = SuperResolutionImageUseFlags;
    let source = engine_supported_image_properties(Use::source());
    assert_eq!(source.len(), 4);
    assert_eq!(
        source[3],
        SuperResolutionImageProperties {
            format: Format::a2b10g10r10_unorm_pack32(),
            image_usage_flags: ImageUsageFlags::transfer_src(),
        }
    );
    let both = engine_supported_image_properties(Use::source() | Use::destination());
    assert_eq!(both.len(), 8);
    assert_eq!(&both[..4], &source[..]);
    assert!(both[4..].iter().all(|p| p.image_usage_flags == ImageUsageFlags::transfer_dst()));
    assert!(engine_supported_image_properties(Use::depth()).is_empty());
    assert!(engine_supported_image_properties(Use::empty()).is_empty());
}

#[test]
fn blit_sessions_need_color_formats() {
    let color = Format::b8g8r8a8_unorm();
    let session = create_session(&create_info(color, Format::r16g16b16a16_sfloat())).unwrap();
    assert_eq!(session.destination_region_size, Extent2D { width: 3840, height: 2160 });
    let refused = Err(VkError::FormatNotSupported);
    assert_eq!(create_session(&create_info(Format::r8_unorm(), color)), refused);
    assert_eq!(create_session(&create_info(color, Format::undefined())), refused);
    assert_eq!(create_session(&create_info(Format::r32g32b32a32_sfloat(), color)), refused);
}

#[test]
fn blit_dispatch_is_one_linear_blit() {
    let session =
        BlitSession { destination_region_size: Extent2D { width: 3840, height: 2160 } };
    let info = dispatch_info((10, 20), (1920, 1080), (-5, 7));
    assert!(dispatch_fits(&session, &info));
    let blit = dispatch(&session, &info);
    assert_eq!(blit.src_image, Image(5));
    assert_eq!(blit.src_layout, ImageLayout(105));
    assert_eq!(blit.dst_image, Image(7));
    assert_eq!(blit.dst_layout, ImageLayout(107));
    assert_eq!(blit.filter, Filter::Linear);
    assert_eq!(
        blit.region.src_offsets,
        [Offset3D { x: 10, y: 20, z: 0 }, Offset3D { x: 1930, y: 1100, z: 1 }]
    );
    assert_eq!(
        blit.region.dst_offsets,
        [Offset3D { x: -5, y: 7, z: 0 }, Offset3D { x: 3835, y: 2167, z: 1 }]
    );
    let layers =
        ImageSubresourceLayers { aspect_mask: 1, mip_level: 3, base_array_layer: 2, layer_count: 1 };
    assert_eq!(blit.region.src_subresource, layers);
    assert_eq!(blit.region.dst_subresource, layers);
}

#[test]
fn blit_ignores_other_inputs() {
    let session = BlitSession { destination_region_size: Extent2D { width: 64, height: 64 } };
    let plain = dispatch_info((0, 0), (32, 32), (0, 0));
    let mut loaded = plain;
    loaded.source_depth_image_info = Some(image(9, (1, 1)));
    loaded.flags = SuperResolutionDispatchFlags::reset_history();
    loaded.sharpness = Single(0x3f00_0000);
    loaded.denoise_info = Some(SuperResolutionDispatchDenoiseInfo {
        diffuse_albedo_image_info: image(11, (0, 0)),
        specular_albedo_image_info: image(12, (0, 0)),
        normal_image_info: image(13, (0, 0)),
        roughness_image_info: image(14, (0, 0)),
        specular_hit_distance_image_info: None,
        denoise_strength_mask_image_info: None,
        transparency_overlay_image_info: None,
        world_to_view_matrix: [[Single(0); 4]; 4],
        view_to_clip_matrix: [[Single(0); 4]; 4],
    });
    let (a, b) = (dispatch(&session, &plain), dispatch(&session, &loaded));
    assert_eq!(format!("{a:?}"), format!("{b:?}"));
}

#[test]
fn blit_regions_must_fit() {
    let session = BlitSession { destination_region_size: Extent2D { width: 1, height: 1 } };
    assert!(!dispatch_fits(&session, &dispatch_info((i32::MAX, 0), (1, 1), (0, 0))));
    assert!(dispatch_fits(&session, &dispatch_info((i32::MAX - 1, 0), (1, 1), (0, 0))));
    assert!(!dispatch_fits(&session, &dispatch_info((0, 0), (1, 1), (0, i32::MAX))));
    // A size from two to the power of 31 on wraps around to a negative coordinate.
    let wrapped = dispatch_info((0, 0), (0x8000_0001, 1), (0, 0));
    assert!(dispatch_fits(&session, &wrapped));
    assert_eq!(dispatch(&session, &wrapped).region.src_offsets[1].x, i32::MIN + 1);
    assert!(!dispatch_fits(&session, &dispatch_info((-2, 0), (0x8000_0001, 1), (0, 0))));
}

#[test]
fn all_remaining_layers_are_one_layer() {
    let range = ImageSubresourceRange {
        aspect_mask: 2,
        base_mip_level: 1,
        level_count: 4,
        base_array_layer: 6,
        layer_count: ash::vk::REMAINING_ARRAY_LAYERS,
    };
    assert_eq!(
        subresource_layers(range),
        ImageSubresourceLayers { aspect_mask: 2, mip_level: 1, base_array_layer: 6, layer_count: 1 }
    );
    assert_eq!(subresource_layers(ImageSubresourceRange { layer_count: 5, ..range }).layer_count, 5);
}
