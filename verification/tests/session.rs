use pumicite_sr::dlss::build_create_params;
use pumicite_sr::dlss::runtime::{NgxFeature, NgxRuntime};
use pumicite_sr::dlss::sys::NVSDK_NGX_Result;
use pumicite_sr::metalfx;
use pumicite_sr::metalfx::{ScaleRange, Scaler, ScalerCreation};
use pumicite_sr::session::{
    Backend, BackendAnswer, CommandEncoder, Device, PhysicalDevice, SessionState,
    SuperResolutionCommand,
};
use pumicite_sr::single::Single;
use pumicite_sr::vk::{
    DeviceMemory, DriverId, Extent2D, Format, Image, ImageLayout, ImageSubresourceRange,
    ImageViewCreateInfo, Offset2D, VkError,
};
use pumicite_sr::{
    BindSuperResolutionSessionMemoryInfo, SuperResolutionCommandEncoder, SuperResolutionDevice,
    SuperResolutionImageUseFlags, SuperResolutionPhysicalDevice, SuperResolutionSession,
    SuperResolutionCameraInfo, SuperResolutionDispatchDenoiseInfo,
    SuperResolutionDispatchExposureInfo, SuperResolutionDispatchFlags, SuperResolutionDispatchInfo,
    SuperResolutionDispatchMotionInfo, SuperResolutionEngine, SuperResolutionImageInfo,
    SuperResolutionQualityFocusFlags, SuperResolutionSessionCreateFlags,
    SuperResolutionSessionCreateInfo,
};

fn image(number: u64, offset: (i32, i32)) -> SuperResolutionImageInfo {
    SuperResolutionImageInfo {
        view: ImageViewCreateInfo {
            image: Image(number),
            format: Format(number as i32),
            subresource_range: ImageSubresourceRange {
                aspect_mask: 1,
                base_mip_level: 0,
                level_count: 1,
                base_array_layer: 0,
                layer_count: 1,
            },
        },
        view_offset: Offset2D { x: offset.0, y: offset.1 },
        initial_layout: ImageLayout(1),
        final_layout: ImageLayout(1),
    }
}

fn matrix(first: u32) -> [[Single; 4]; 4] {
    let mut m = [[Single(0); 4]; 4];
    for (i, column) in m.iter_mut().enumerate() {
        for (j, element) in column.iter_mut().enumerate() {
            *element = Single(first + 4 * i as u32 + j as u32);
        }
    }
    m
}

fn motion_info() -> SuperResolutionDispatchMotionInfo {
    SuperResolutionDispatchMotionInfo {
        motion_vectors_image_info: Some(image(4, (40, -40))),
        reactive_mask_image_info: Some(image(5, (50, 51))),
        ignore_history_mask_image_info: None,
        camera_info: SuperResolutionCameraInfo {
            view_projection_matrix: matrix(0),
            near: Single(0),
            far: Single(0),
            fov: Single(0),
        },
        texel_jitter_x: Single(0x3e80_0000),
        texel_jitter_y: Single(0xbe80_0000),
    }
}

fn denoise_info() -> SuperResolutionDispatchDenoiseInfo {
    SuperResolutionDispatchDenoiseInfo {
        diffuse_albedo_image_info: image(10, (0, 0)),
        specular_albedo_image_info: image(11, (0, 0)),
        normal_image_info: image(12, (0, 0)),
        roughness_image_info: image(13, (0, 0)),
        specular_hit_distance_image_info: Some(image(14, (0, 0))),
        denoise_strength_mask_image_info: None,
        transparency_overlay_image_info: Some(image(16, (0, 0))),
        world_to_view_matrix: matrix(100),
        view_to_clip_matrix: matrix(200),
    }
}

fn bare_dispatch() -> SuperResolutionDispatchInfo {
    SuperResolutionDispatchInfo {
        dispatch_index: 0,
        flags: SuperResolutionDispatchFlags::empty(),
        quality_focus: SuperResolutionQualityFocusFlags::balanced(),
        destination_image_info: image(2, (20, 21)),
        source_image_info: image(1, (-1, 11)),
        source_depth_image_info: None,
        source_size: Extent2D { width: 1280, height: 720 },
        sharpness: Single(0),
        motion_info: None,
        exposure_info: None,
        denoise_info: None,
        resource_descriptor_heap_offset: 0,
        sampler_descriptor_heap_offset: 0,
    }
}

fn full_dispatch() -> SuperResolutionDispatchInfo {
    SuperResolutionDispatchInfo {
        flags: SuperResolutionDispatchFlags::reset_history(),
        source_depth_image_info: Some(image(3, (30, 31))),
        motion_info: Some(motion_info()),
        exposure_info: Some(SuperResolutionDispatchExposureInfo {
            pre_exposure: Single(0x4000_0000),
            exposure_scale_uniform: Single(0),
            exposure_scale_image_info: Some(image(6, (0, 0))),
        }),
        denoise_info: Some(denoise_info()),
        ..bare_dispatch()
    }
}

fn create_info(engine: SuperResolutionEngine) -> SuperResolutionSessionCreateInfo {
    SuperResolutionSessionCreateInfo {
        engine,
        flags: SuperResolutionSessionCreateFlags::empty(),
        required_quality_focuses: SuperResolutionQualityFocusFlags::balanced(),
        destination_format: Format::r8g8b8a8_unorm(),
        source_format: Format::r16g16b16a16_sfloat(),
        source_depth_format: Format::d32_sfloat(),
        motion_vector_format: Format::r16g16_sfloat(),
        reactive_mask_format: Format::undefined(),
        ignore_history_mask_format: Format::undefined(),
        exposure_scale_format: Format::undefined(),
        diffuse_albedo_format: Format::r8g8b8a8_unorm(),
        specular_albedo_format: Format::b8g8r8a8_unorm(),
        normal_format: Format::a2b10g10r10_unorm_pack32(),
        roughness_format: Format::r8_unorm(),
        specular_hit_distance_format: Format::undefined(),
        denoise_strength_mask_format: Format::undefined(),
        transparency_overlay_format: Format::undefined(),
        destination_region_size: Extent2D { width: 2560, height: 1440 },
        max_source_region_size: Extent2D { width: 1280, height: 720 },
        motion_vector_scale_x: Single(0x3f80_0000),
        motion_vector_scale_y: Single(0xbf80_0000),
        max_concurrent_dispatches: 1,
    }
}

fn physical_device(backend: Backend) -> PhysicalDevice {
    let scales = ScaleRange { min: Single(0x3f80_0000), max: Single(0x4040_0000) };
    PhysicalDevice {
        backend,
        vendor_id: 77,
        driver_id: DriverId::nvidia_proprietary(),
        dlss_rr_available: true,
        temporal_scales: scales,
        denoised_scales: scales,
    }
}

fn device(backend: Backend) -> Device {
    Device { backend, handle: 6 }
}

fn metalfx_session(engine: SuperResolutionEngine) -> SuperResolutionSession {
    SuperResolutionSession::new(
        device(Backend::MetalFx),
        &create_info(engine),
        BackendAnswer::MetalFx(ScalerCreation::Created(8)),
    )
    .unwrap()
}

fn dlss_session() -> SuperResolutionSession {
    SuperResolutionSession::new(
        device(Backend::Dlss),
        &create_info(SuperResolutionEngine::dlss_rr()),
        BackendAnswer::Dlss(Ok(NgxRuntime { device: 6 })),
    )
    .unwrap()
}

#[test]
fn backends_follow_the_build() {
    assert_eq!(Backend::select(true, true), Backend::MetalFx);
    assert_eq!(Backend::select(true, false), Backend::MetalFx);
    assert_eq!(Backend::select(false, true), Backend::Dlss);
    assert_eq!(Backend::select(false, false), Backend::Unavailable);
}

#[test]
fn offered_engines_are_known() {
    let mut dlss = physical_device(Backend::Dlss);
    assert_eq!(
        dlss.enumerate_super_resolution_engines(),
        Ok(vec![SuperResolutionEngine::dlss_rr()])
    );
    dlss.dlss_rr_available = false;
    assert_eq!(dlss.enumerate_super_resolution_engines(), Ok(vec![]));
    let metalfx = physical_device(Backend::MetalFx);
    let engines = metalfx.enumerate_super_resolution_engines().unwrap();
    assert_eq!(engines.len(), 3);
    for engine in engines {
        assert!(Backend::MetalFx.knows(engine));
        assert_eq!(metalfx.get_super_resolution_engine_properties(engine).vendor_id, 77);
    }
    let none = physical_device(Backend::Unavailable);
    assert_eq!(none.enumerate_super_resolution_engines(), Ok(vec![]));
    assert!(!Backend::Unavailable.knows(SuperResolutionEngine::dlss_rr()));
    // No engine belongs to two backends.
    assert!(Backend::MetalFx.knows(SuperResolutionEngine::metalfx_temporal_scaler()));
    assert!(!Backend::Dlss.knows(SuperResolutionEngine::metalfx_temporal_scaler()));
    assert!(!Backend::MetalFx.knows(SuperResolutionEngine::dlss_rr()));
}

#[test]
fn properties_and_formats_come_from_the_backend() {
    let source = SuperResolutionImageUseFlags::source();
    let dlss = physical_device(Backend::Dlss);
    let engine = SuperResolutionEngine::dlss_rr();
    let name = dlss.get_super_resolution_engine_properties(engine).engine_name;
    assert_eq!(&name[..11], "NVIDIA DLSS".as_bytes());
    let formats = dlss.get_super_resolution_engine_supported_image_properties(engine, source);
    assert_eq!(formats.unwrap().len(), 2);
    let metalfx = physical_device(Backend::MetalFx);
    let engine = SuperResolutionEngine::metalfx_temporal_scaler();
    let name = metalfx.get_super_resolution_engine_properties(engine).engine_name;
    assert_eq!(&name[..16], "MetalFX Temporal".as_bytes());
    let formats = metalfx.get_super_resolution_engine_supported_image_properties(engine, source);
    assert_eq!(formats.unwrap().len(), 4);
    let none = physical_device(Backend::Unavailable);
    assert_eq!(
        none.get_super_resolution_engine_supported_image_properties(engine, source),
        Err(VkError::FeatureNotPresent)
    );
}

#[test]
fn devices_need_no_memory_and_no_descriptors() {
    let info = create_info(SuperResolutionEngine::dlss_rr());
    for backend in [Backend::Dlss, Backend::MetalFx] {
        let device = device(backend);
        assert_eq!(device.get_super_resolution_session_memory_requirements(&info), Ok(vec![]));
        let ranges = device.get_super_resolution_session_descriptor_heap_ranges(&info).unwrap();
        assert_eq!((ranges.resource_heap_size, ranges.sampler_heap_size), (0, 0));
    }
    let none = device(Backend::Unavailable);
    let absent = VkError::FeatureNotPresent;
    assert_eq!(none.get_super_resolution_session_memory_requirements(&info), Err(absent));
    assert_eq!(none.get_super_resolution_session_descriptor_heap_ranges(&info), Err(absent));
}

#[test]
fn sessions_are_created_from_the_answer() {
    let session = metalfx_session(SuperResolutionEngine::metalfx_spatial_scaler());
    assert_eq!(session.device(), device(Backend::MetalFx));
    assert!(matches!(session.state(), SessionState::MetalFx(Scaler::Spatial(8))));
    let session = dlss_session();
    assert!(matches!(session.state(), SessionState::Dlss(s) if s.feature.is_none()));
    let refused = |backend, engine, answer| {
        SuperResolutionSession::new(device(backend), &create_info(engine), answer).err()
    };
    assert_eq!(
        refused(
            Backend::MetalFx,
            SuperResolutionEngine::metalfx_temporal_scaler(),
            BackendAnswer::MetalFx(ScalerCreation::NoScaler)
        ),
        Some(VkError::InitializationFailed)
    );
    assert_eq!(
        refused(
            Backend::Dlss,
            SuperResolutionEngine::dlss_rr(),
            BackendAnswer::Dlss(Err(NVSDK_NGX_Result::fail_denied()))
        ),
        Some(VkError::InitializationFailed)
    );
    assert_eq!(
        refused(Backend::Unavailable, SuperResolutionEngine(0), BackendAnswer::Unavailable),
        Some(VkError::FeatureNotPresent)
    );
}

#[test]
fn binding_memory_always_succeeds() {
    let bind =
        BindSuperResolutionSessionMemoryInfo { object_index: 0, memory: DeviceMemory(1), memory_offset: 0 };
    assert_eq!(dlss_session().bind_memory(&[bind]), Ok(()));
    let session = metalfx_session(SuperResolutionEngine::metalfx_temporal_scaler());
    assert_eq!(session.bind_memory(&[]), Ok(()));
}

#[test]
fn jitter_belongs_to_temporal_engines() {
    let sizes = |session: SuperResolutionSession| {
        session.recommended_jitter_pattern(
            Extent2D { width: 1920, height: 1080 },
            Extent2D { width: 1920, height: 1080 },
        )
    };
    assert_eq!(sizes(dlss_session()).unwrap().len(), 32);
    let session = metalfx_session(SuperResolutionEngine::metalfx_temporal_scaler());
    assert_eq!(sizes(session).unwrap().len(), 8);
    let session = metalfx_session(SuperResolutionEngine::metalfx_temporal_denoised_scaler());
    assert_eq!(sizes(session).unwrap().len(), 8);
    assert_eq!(
        sizes(metalfx_session(SuperResolutionEngine::metalfx_spatial_scaler())),
        Err(VkError::FeatureNotPresent)
    );
}

#[test]
fn commands_are_recorded_in_order() {
    let mut session = dlss_session();
    let mut encoder = CommandEncoder::new();
    encoder.dispatch_super_resolution(&session, &full_dispatch());
    encoder.initialize_super_resolution_session(&session);
    let feature = NgxFeature { handle: 3, runtime: NgxRuntime { device: 6 } };
    assert_eq!(session.finish_initialization(Ok(feature)), Ok(None));
    encoder.dispatch_super_resolution(&session, &full_dispatch());
    let scaler = metalfx_session(SuperResolutionEngine::metalfx_temporal_scaler());
    encoder.initialize_super_resolution_session(&scaler);
    encoder.dispatch_super_resolution(&scaler, &bare_dispatch());
    let commands = encoder.into_commands();
    assert_eq!(commands.len(), 4);
    assert!(matches!(commands[0], SuperResolutionCommand::SkipUninitialized));
    let params = build_create_params(&create_info(SuperResolutionEngine::dlss_rr()));
    assert!(matches!(commands[1], SuperResolutionCommand::CreateDlssFeature(p) if p == params));
    assert!(matches!(commands[2], SuperResolutionCommand::EvaluateDlss(e) if e.feature == feature));
    assert!(matches!(
        commands[3],
        SuperResolutionCommand::EncodeScaler(Scaler::Temporal(8), metalfx::ScalerDispatch::Temporal(_))
    ));
}

#[test]
fn failed_initialization_changes_nothing() {
    let mut session = dlss_session();
    let failure = NVSDK_NGX_Result::fail_unable_to_initialize_feature();
    assert_eq!(session.finish_initialization(Err(failure)), Err(failure));
    assert!(matches!(session.state(), SessionState::Dlss(s) if s.feature.is_none()));
    let feature = NgxFeature { handle: 3, runtime: NgxRuntime { device: 6 } };
    assert_eq!(session.finish_initialization(Ok(feature)), Ok(None));
    assert_eq!(session.finish_initialization(Ok(feature)), Ok(Some(feature)));
}
