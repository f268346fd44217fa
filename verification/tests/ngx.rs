use pumicite_sr::dlss::runtime::{
    availability_request, check_dlss_rr_available, dlss_runtime_search_dir, dlssd_creation,
    encode_app_data_path, extension_request, ngx_log_record, required_device_extensions,
    required_instance_extensions, ExtensionAnswer, FeatureCall, LogSeverity, NgxFeature,
    NgxRuntime, NgxState, ParameterMap, RuntimeSearchDir, RuntimeStep,
};
use pumicite_sr::dlss::sys::{
    NVSDK_NGX_Application_Identifier_Type, NVSDK_NGX_DLSSD_Create_Params,
    NVSDK_NGX_DLSS_Denoise_Mode, NVSDK_NGX_DLSS_Depth_Type, NVSDK_NGX_DLSS_Feature_Flags,
    NVSDK_NGX_DLSS_Roughness_Mode, NVSDK_NGX_EngineType, NVSDK_NGX_Feature,
    NVSDK_NGX_Logging_Level, NVSDK_NGX_PerfQuality_Value, NVSDK_NGX_Result,
};
use pumicite_sr::types::ExtensionProperties;
use pumicite_sr::vk::DriverId;
use pumicite_sr::SuperResolutionApplicationInfo;

fn extension(name: &str) -> ExtensionProperties {
    let mut extension_name = [0; 256];
    extension_name[..name.len()].copy_from_slice(name.as_bytes());
    ExtensionProperties { extension_name, spec_version: 1 }
}

fn units(text: &str) -> Vec<u16> {
    text.bytes().map(u16::from).collect()
}

#[test]
fn results_are_ok_on_success_alone() {
    assert_eq!(NVSDK_NGX_Result::success().result(), Ok(()));
    assert_eq!(NVSDK_NGX_Result::success().result_with_success(7), Ok(7));
    let denied = NVSDK_NGX_Result::fail_denied();
    assert_eq!(denied.result(), Err(denied));
    assert_eq!(denied.result_with_success(7), Err(denied));
    assert_eq!(NVSDK_NGX_Result(0).result(), Err(NVSDK_NGX_Result(0)));
    assert_eq!(NVSDK_NGX_Result(0xbad0_ffff).result(), Err(NVSDK_NGX_Result(0xbad0_ffff)));
}

#[test]
fn result_messages_name_the_code() {
    assert_eq!(NVSDK_NGX_Result::success().message(), "NVSDK_NGX_Result::Success(0x00000001)");
    assert_eq!(NVSDK_NGX_Result::fail().message(), "NVSDK_NGX_Result::Fail(0xbad00000)");
    assert_eq!(
        NVSDK_NGX_Result::fail_not_initialized().message(),
        "NVSDK_NGX_Result::FAIL_NotInitialized(0xbad00007)"
    );
    assert_eq!(
        NVSDK_NGX_Result::fail_unable_to_write_to_app_data_path().message(),
        "NVSDK_NGX_Result::FAIL_UnableToWriteToAppDataPath(0xbad0000f)"
    );
    assert_eq!(
        NVSDK_NGX_Result(0xdead_beef).message(),
        "NVSDK_NGX_Result::FAIL_Unknown(0xdeadbeef)"
    );
    assert_eq!(NVSDK_NGX_Result::fail_out_of_gpu_memory().name(), Some("FAIL_OutOfGPUMemory"));
}

#[test]
fn only_ngx_codes_have_symbolic_names() {
    assert_eq!(NVSDK_NGX_Result::success().name(), Some("Success"));
    assert_eq!(NVSDK_NGX_Result::fail().name(), Some("Fail"));
    assert_eq!(NVSDK_NGX_Result(0).name(), None);
    assert_eq!(NVSDK_NGX_Result(0xdead_beef).name(), None);
    assert_eq!(NVSDK_NGX_Result(u32::MAX).name(), None);
}

#[test]
fn paths_are_widened_and_terminated() {
    assert_eq!(encode_app_data_path(&units("/a")), vec![0x2f, 0x61, 0]);
    assert_eq!(encode_app_data_path(&[]), vec![0]);
    assert_eq!(encode_app_data_path(&[0xffff]), vec![0xffff, 0]);
    // A NUL in the path is kept: its encoding is that of no other path.
    assert_eq!(encode_app_data_path(&[0]), vec![0, 0]);
}

#[test]
fn search_dir_order() {
    let dir = |baked, environment| match dlss_runtime_search_dir(baked, environment) {
        RuntimeSearchDir::Directory(dir) => Some(dir),
        RuntimeSearchDir::Runfiles => None,
    };
    assert_eq!(dir(Some("/baked"), Some("/env")).as_deref(), Some("/baked"));
    assert_eq!(dir(Some(""), Some("/env")).as_deref(), Some("/env"));
    assert_eq!(dir(None, Some("/env")).as_deref(), Some("/env"));
    assert_eq!(dir(None, Some("")), None);
    assert_eq!(dir(Some(""), None), None);
}

#[test]
fn discovery_asks_for_ray_reconstruction() {
    let path = units("/tmp");
    let app = SuperResolutionApplicationInfo {
        project_id: "id".as_bytes(),
        engine_version: "1.2".as_bytes(),
        application_data_path: &path,
    };
    let info = extension_request(&app);
    assert_eq!(info.sdk_version, 0x15);
    assert_eq!(info.feature_id, NVSDK_NGX_Feature::RayReconstruction);
    assert_eq!(
        info.identifier.identifier_type,
        NVSDK_NGX_Application_Identifier_Type::ProjectId
    );
    assert_eq!(info.identifier.engine_type, NVSDK_NGX_EngineType::Custom);
    assert_eq!(info.identifier.project_id, "id".as_bytes());
    assert_eq!(info.identifier.engine_version, "1.2".as_bytes());
    assert_eq!(info.application_data_path, encode_app_data_path(&path));
    assert!(info.feature_info.is_none());

    let dir = units("/lib");
    let common = availability_request(&app, Some(&dir)).feature_info.unwrap();
    assert_eq!(common.path_list, vec![encode_app_data_path(&dir)]);
    assert!(!common.logging_info.logging_callback);
    assert_eq!(common.logging_info.minimum_logging_level, NVSDK_NGX_Logging_Level::Off);
    assert!(common.logging_info.disable_other_logging_sinks);
    assert!(availability_request(&app, None).feature_info.unwrap().path_list.is_empty());
}

#[test]
fn availability_needs_success_and_support() {
    let ok = NVSDK_NGX_Result::success();
    assert!(check_dlss_rr_available(ok, 0));
    assert!(!check_dlss_rr_available(ok, 1));
    assert!(!check_dlss_rr_available(NVSDK_NGX_Result::fail(), 0));
}

#[test]
fn extension_names_end_at_the_first_nul() {
    let mut second = extension("VK_NVX_image_view_handle");
    // What stands behind the terminator is no part of the name.
    second.extension_name[30] = 88;
    let properties = [extension("VK_KHR_get_physical_device_properties2"), second, extension("")];
    let answer = ExtensionAnswer {
        result: NVSDK_NGX_Result::success(),
        properties: Some(&properties),
    };
    assert!(answer.check_well_formed());
    let names = required_instance_extensions(&answer);
    assert_eq!(
        names,
        vec![
            "VK_KHR_get_physical_device_properties2".as_bytes().to_vec(),
            "VK_NVX_image_view_handle".as_bytes().to_vec(),
            Vec::new(),
        ]
    );
    assert_eq!(required_device_extensions(DriverId::nvidia_proprietary(), &answer), names);
    assert!(required_device_extensions(DriverId(1), &answer).is_empty());
}

#[test]
fn failed_or_missing_answers_need_no_extensions() {
    let properties = [extension("VK_A")];
    let failed =
        ExtensionAnswer { result: NVSDK_NGX_Result::fail(), properties: Some(&properties) };
    assert!(failed.check_well_formed());
    assert!(required_instance_extensions(&failed).is_empty());
    let missing = ExtensionAnswer { result: NVSDK_NGX_Result::success(), properties: None };
    assert!(missing.check_well_formed());
    assert!(required_instance_extensions(&missing).is_empty());
}

#[test]
fn unterminated_names_are_told() {
    let properties =
        [extension("VK_A"), ExtensionProperties { extension_name: [65; 256], spec_version: 1 }];
    let answer = ExtensionAnswer {
        result: NVSDK_NGX_Result::success(),
        properties: Some(&properties),
    };
    assert!(!answer.check_well_formed());
    let failed = ExtensionAnswer { result: NVSDK_NGX_Result::fail(), ..answer };
    assert!(failed.check_well_formed());
}

#[test]
fn ngx_is_initialized_once() {
    let path = units("/data");
    let app = SuperResolutionApplicationInfo {
        project_id: "id".as_bytes(),
        engine_version: "v".as_bytes(),
        application_data_path: &path,
    };
    let mut state = NgxState::new();
    assert_eq!(state.runtime(), Err(NVSDK_NGX_Result::fail_not_initialized()));
    match state.ensure_runtime(11, &app, None) {
        RuntimeStep::Initialize(request) => {
            assert_eq!(request.device, 11);
            assert_eq!(request.project_id, "id".as_bytes());
            assert_eq!(request.engine_version, "v".as_bytes());
            assert_eq!(request.application_data_path, encode_app_data_path(&path));
            assert_eq!(request.sdk_version, 0x15);
            assert!(request.feature_info.path_list.is_empty());
            assert!(request.feature_info.logging_info.logging_callback);
            assert_eq!(
                request.feature_info.logging_info.minimum_logging_level,
                NVSDK_NGX_Logging_Level::On
            );
        }
        RuntimeStep::Ready(_) => panic!("not initialized yet"),
    }
    // A failure leaves NGX uninitialized.
    let denied = NVSDK_NGX_Result::fail_denied();
    assert_eq!(state.finish_initialization(11, denied), Err(denied));
    assert_eq!(state.runtime(), Err(NVSDK_NGX_Result::fail_not_initialized()));
    let runtime = NgxRuntime { device: 12 };
    assert_eq!(state.finish_initialization(12, NVSDK_NGX_Result::success()), Ok(runtime));
    assert_eq!(state.runtime(), Ok(runtime));
    // From then on every device gets the first runtime.
    match state.ensure_runtime(13, &app, None) {
        RuntimeStep::Ready(ready) => assert_eq!(ready, runtime),
        RuntimeStep::Initialize(_) => panic!("initialized already"),
    }
}

#[test]
fn feature_calls_fail_with_the_first_code() {
    let runtime = NgxRuntime { device: 5 };
    let ok = NVSDK_NGX_Result::success();
    let early = FeatureCall::begin(Err(NVSDK_NGX_Result::fail_not_initialized()));
    assert_eq!(
        early.create_dlssd_feature(ok, 77),
        Err(NVSDK_NGX_Result::fail_not_initialized())
    );
    assert_eq!(early.evaluate_dlssd(ok), Err(NVSDK_NGX_Result::fail_not_initialized()));

    let begun = FeatureCall::begin(Ok(runtime));
    assert_eq!(begun, FeatureCall::AllocateParameters(runtime));
    let memory = NVSDK_NGX_Result::fail_out_of_gpu_memory();
    assert_eq!(begun.allocate_parameters(memory, 0), FeatureCall::Failed(memory));

    let ready = begun.allocate_parameters(ok, 0x1000);
    assert_eq!(ready, FeatureCall::Invoke(runtime, ParameterMap(0x1000)));
    assert_eq!(ready.create_dlssd_feature(ok, 77), Ok(NgxFeature { handle: 77, runtime }));
    assert_eq!(ready.create_dlssd_feature(memory, 0), Err(memory));
    assert_eq!(ready.evaluate_dlssd(ok), Ok(()));
    assert_eq!(ready.evaluate_dlssd(memory), Err(memory));
}

#[test]
fn features_are_created_on_the_first_node() {
    let params = NVSDK_NGX_DLSSD_Create_Params {
        in_denoise_mode: NVSDK_NGX_DLSS_Denoise_Mode::DLUnified,
        in_roughness_mode: NVSDK_NGX_DLSS_Roughness_Mode::Packed,
        in_use_hw_depth: NVSDK_NGX_DLSS_Depth_Type::HW,
        in_width: 1,
        in_height: 2,
        in_target_width: 3,
        in_target_height: 4,
        in_perf_quality_value: NVSDK_NGX_PerfQuality_Value::DLAA,
        in_feature_create_flags: NVSDK_NGX_DLSS_Feature_Flags {
            is_hdr: false,
            mv_low_res: true,
            mv_jittered: false,
            depth_inverted: false,
            auto_exposure: false,
        },
        in_enable_output_subrects: false,
    };
    let creation = dlssd_creation(NgxRuntime { device: 9 }, ParameterMap(8), params);
    assert_eq!(creation.device, 9);
    assert_eq!((creation.creation_node_mask, creation.visibility_node_mask), (1, 1));
    assert_eq!(creation.parameters, ParameterMap(8));
    assert_eq!(creation.create_params, params);
}

#[test]
fn log_messages_lose_their_line_ends() {
    let record = ngx_log_record(Some("a\nb\r\n\n".as_bytes()), NVSDK_NGX_Logging_Level::On).unwrap();
    assert_eq!(record.severity, LogSeverity::Info);
    assert_eq!(record.message, "a\nb".as_bytes());
    let record = ngx_log_record(Some("\r\n".as_bytes()), NVSDK_NGX_Logging_Level::Verbose).unwrap();
    assert_eq!(record.severity, LogSeverity::Debug);
    assert!(record.message.is_empty());
    assert!(ngx_log_record(Some("a".as_bytes()), NVSDK_NGX_Logging_Level::Off).is_none());
    assert!(ngx_log_record(None, NVSDK_NGX_Logging_Level::On).is_none());
}
