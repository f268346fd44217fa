//! What NGX is asked and told, and what its answers mean.
use vstd::prelude::*;

use crate::dlss::runtime::{
    availability_request, dlss_runtime_search_dir, dlssd_creation, encode_app_data_path,
    extension_request, is_terminated, ngx_log_record, required_device_extensions,
    required_instance_extensions, DlssdCreation, ExtensionAnswer, FeatureCall, LogRecord,
    LogSeverity, NgxFeature, NgxRuntime, NgxState, ParameterMap, RuntimeSearchDir, RuntimeStep,
};
use crate::dlss::sys::{
    hex_char, hex_text, DlssResult, NVSDK_NGX_Application_Identifier_Type,
    NVSDK_NGX_DLSSD_Create_Params, NVSDK_NGX_EngineType, NVSDK_NGX_Feature,
    NVSDK_NGX_FeatureDiscoveryInfo, NVSDK_NGX_Logging_Level, NVSDK_NGX_Result, WChar,
};
use crate::types::SuperResolutionApplicationInfo;
use crate::vk::DriverId;

verus! {

/// Whether a wide path is the given path, unit for unit, with a NUL behind it.
pub open spec fn spells(wide: Seq<WChar>, path: Seq<u16>) -> bool {
    &&& wide.len() == path.len() + 1
    &&& forall|i: int| 0 <= i < path.len() ==> #[trigger] wide[i] == path[i]
    &&& wide[path.len() as int] == 0
}

/// A path is encoded unit for unit and terminated.
pub proof fn law_paths_are_spelled_out(path: &[u16], wide: Vec<WChar>)
    requires
        call_ensures(encode_app_data_path, (path,), wide),
    ensures
        spells(wide@, path@),
{
}

/// The runtime library is looked for in the directory that was baked in; without one, in that
/// of the environment; without either, among the runfiles. An empty directory is none.
pub proof fn law_baked_directory_comes_first(
    baked: Option<&str>,
    environment: Option<&str>,
    r: RuntimeSearchDir,
)
    requires
        call_ensures(dlss_runtime_search_dir, (baked, environment), r),
    ensures
        ({
            let has_baked = baked is Some && baked->0@.len() > 0;
            let has_environment = environment is Some && environment->0@.len() > 0;
            &&& r is Runfiles <==> !has_baked && !has_environment
            &&& r matches RuntimeSearchDir::Directory(d) ==> d@.len() > 0
            &&& has_baked ==> r is Directory && r->Directory_0@ == baked->0@
            &&& !has_baked && has_environment ==> r is Directory && r->Directory_0@
                == environment->0@
        }),
{
}

/// Whether a request asks about DLSS-RR for an application: by its project, as a custom
/// engine, with its data path.
pub open spec fn is_for_application(
    info: NVSDK_NGX_FeatureDiscoveryInfo,
    app: SuperResolutionApplicationInfo<'_>,
) -> bool {
    &&& info.sdk_version == 0x15
    &&& info.feature_id == NVSDK_NGX_Feature::RayReconstruction
    &&& info.identifier.identifier_type == NVSDK_NGX_Application_Identifier_Type::ProjectId
    &&& info.identifier.project_id@ == app.project_id@
    &&& info.identifier.engine_type == NVSDK_NGX_EngineType::Custom
    &&& info.identifier.engine_version@ == app.engine_version@
    &&& spells(info.application_data_path@, app.application_data_path@)
}

/// A request is about DLSS-RR, by project, and holds what it is made of.
pub proof fn law_requests_hold_what_they_are_made_of(
    path: &[WChar],
    project_id: &[u8],
    engine_version: &[u8],
    info: NVSDK_NGX_FeatureDiscoveryInfo,
)
    requires
        path@.len() > 0,
        path@.last() == 0,
        call_ensures(
            NVSDK_NGX_FeatureDiscoveryInfo::new,
            (path, project_id, engine_version),
            info,
        ),
    ensures
        info.sdk_version == 0x15,
        info.feature_id == NVSDK_NGX_Feature::RayReconstruction,
        info.identifier.identifier_type == NVSDK_NGX_Application_Identifier_Type::ProjectId,
        info.identifier.engine_type == NVSDK_NGX_EngineType::Custom,
        info.identifier.project_id@ == project_id@,
        info.identifier.engine_version@ == engine_version@,
        info.application_data_path@ == path@,
        info.feature_info is None,
{
}

/// NGX is asked about extensions for the application, and about nothing else.
pub proof fn law_extension_request_is_for_the_application(
    app: &SuperResolutionApplicationInfo<'_>,
    info: NVSDK_NGX_FeatureDiscoveryInfo,
)
    requires
        call_ensures(extension_request, (app,), info),
    ensures
        is_for_application(info, *app),
        info.feature_info is None,
{
}

/// NGX is asked about availability for the application, with the search directory, if there
/// is one, as its only search path, and without logging anything.
pub proof fn law_availability_request_names_the_search_directory(
    app: &SuperResolutionApplicationInfo<'_>,
    search_dir: Option<&[u16]>,
    info: NVSDK_NGX_FeatureDiscoveryInfo,
)
    requires
        call_ensures(availability_request, (app, search_dir), info),
    ensures
        is_for_application(info, *app),
        info.feature_info is Some,
        search_dir is None ==> info.feature_info->0.path_list@.len() == 0,
        search_dir is Some ==> info.feature_info->0.path_list@.len() == 1 && spells(
            info.feature_info->0.path_list@[0]@,
            search_dir->0@,
        ),
        !info.feature_info->0.logging_info.logging_callback,
        info.feature_info->0.logging_info.minimum_logging_level == NVSDK_NGX_Logging_Level::Off,
        info.feature_info->0.logging_info.disable_other_logging_sinks,
{
}

/// Whether a name is what stands before the first NUL of a field.
pub open spec fn names(name: Seq<u8>, field: Seq<u8>) -> bool {
    &&& name.len() < field.len()
    &&& field[name.len() as int] == 0
    &&& name == field.take(name.len() as int)
    &&& forall|i: int| 0 <= i < name.len() ==> field[i] != 0
}

/// Every extension that NGX names is enabled, by its name, in NGX's order; none is where the
/// call failed or gave no array.
pub proof fn law_extensions_are_those_that_ngx_names(
    answer: &ExtensionAnswer<'_>,
    r: Vec<Vec<u8>>,
)
    requires
        answer.is_well_formed(),
        call_ensures(required_instance_extensions, (answer,), r),
    ensures
        answer.result.0 != 1 || answer.properties is None ==> r@.len() == 0,
        answer.result.0 == 1 && answer.properties is Some ==> {
            &&& r@.len() == answer.properties->0@.len()
            &&& forall|i: int|
                0 <= i < r@.len() ==> names(
                    (#[trigger] r@[i])@,
                    answer.properties->0@[i].extension_name@,
                )
        },
{
    if answer.result.0 == 1 && answer.properties is Some {
        assert forall|i: int| 0 <= i < r@.len() implies names(
            (#[trigger] r@[i])@,
            answer.properties->0@[i].extension_name@,
        ) by {
            let field = answer.properties->0@[i].extension_name@;
            let name = r@[i]@;
            assert(answer.extensions()[i] == answer.properties->0@[i]);
            assert forall|k: int| 0 <= k < name.len() implies field[k] != 0 && name[k]
                == field[k] by {
                assert(name[k] == field[k]);
            }
            assert(name =~= field.take(name.len() as int));
        }
    }
}

/// Device extensions are enabled on NVIDIA's driver alone, which is driver 4, and there as
/// instance extensions are.
pub proof fn law_device_extensions_are_for_nvidia_alone(
    driver_id: DriverId,
    answer: &ExtensionAnswer<'_>,
    r: Vec<Vec<u8>>,
    i: Vec<Vec<u8>>,
    k: int,
)
    requires
        answer.is_well_formed(),
        call_ensures(required_device_extensions, (driver_id, answer), r),
        call_ensures(required_instance_extensions, (answer,), i),
    ensures
        driver_id.0 != 4 ==> r@.len() == 0,
        driver_id.0 == 4 ==> r@.len() == i@.len(),
        driver_id.0 == 4 && 0 <= k < i@.len() ==> r@[k]@ == i@[k]@,
{
    if driver_id.0 == 4 && 0 <= k < i@.len() {
        crate::dlss::runtime::law_c_string_is_unique(
            answer.extensions()[k].extension_name@,
            r@[k]@,
            i@[k]@,
        );
    }
}

/// A live runtime is handed out; one that is not is refused with 0xbad00007.
pub proof fn law_runtime_is_refused_until_live(state: &NgxState, r: DlssResult<NgxRuntime>)
    requires
        call_ensures(NgxState::runtime, (state,), r),
    ensures
        state@ is Some ==> r is Ok && r->Ok_0 == state@->0,
        state@ is None ==> r is Err && r->Err_0.0 == 0xbad0_0007,
{
}

/// A live runtime is handed out as it is, whichever device asks. Otherwise NGX is to be
/// initialized with the device that asks, for the application, with the search directory, if
/// there is one, as its only search path, and its log going to the callback alone.
pub proof fn law_ngx_is_initialized_for_who_asks_first(
    state: &NgxState,
    device: u64,
    app: &SuperResolutionApplicationInfo<'_>,
    search_dir: Option<&[u16]>,
    step: RuntimeStep,
)
    requires
        call_ensures(NgxState::ensure_runtime, (state, device, app, search_dir), step),
    ensures
        state@ is Some ==> step is Ready && step->Ready_0 == state@->0,
        state@ is None ==> step is Initialize,
        step matches RuntimeStep::Initialize(request) ==> {
            &&& request.device == device
            &&& request.project_id@ == app.project_id@
            &&& request.engine_version@ == app.engine_version@
            &&& request.engine_type == NVSDK_NGX_EngineType::Custom
            &&& request.sdk_version == 0x15
            &&& spells(request.application_data_path@, app.application_data_path@)
            &&& search_dir is None ==> request.feature_info.path_list@.len() == 0
            &&& search_dir is Some ==> request.feature_info.path_list@.len() == 1 && spells(
                request.feature_info.path_list@[0]@,
                search_dir->0@,
            )
            &&& request.feature_info.logging_info.logging_callback
            &&& request.feature_info.logging_info.minimum_logging_level
                == NVSDK_NGX_Logging_Level::On
            &&& request.feature_info.logging_info.disable_other_logging_sinks
        },
{
}

/// An initialization that succeeds makes the runtime of its device live and hands it out; one
/// that fails is the error itself and leaves NGX as it was.
pub proof fn law_initialization_makes_its_device_live(
    state: &mut NgxState,
    device: u64,
    result: NVSDK_NGX_Result,
    r: DlssResult<NgxRuntime>,
)
    requires
        old(state)@ is None,
        call_ensures(NgxState::finish_initialization, (state, device, result), r),
    ensures
        result.0 == 1 ==> r is Ok && r->Ok_0.device == device && final(state)@ == Some(r->Ok_0),
        result.0 != 1 ==> r is Err && r->Err_0 == result && final(state)@ is None,
{
}

/// NGX is not live before its first use.
pub proof fn law_ngx_starts_out_dead(state: NgxState)
    requires
        call_ensures(NgxState::new, (), state),
    ensures
        state@ is None,
{
}

/// An answer is well formed where each name that it gives holds a NUL; one that failed, or
/// gave no array, gives none.
pub proof fn law_well_formed_names_are_terminated(answer: &ExtensionAnswer<'_>, b: bool)
    requires
        call_ensures(ExtensionAnswer::check_well_formed, (answer,), b),
    ensures
        answer.result.0 != 1 || answer.properties is None ==> b,
        answer.result.0 == 1 && answer.properties is Some ==> (b <==> forall|i: int|
            0 <= i < answer.properties->0@.len() ==> (
            #[trigger] answer.properties->0@[i]).extension_name@.contains(0)),
{
    if answer.result.0 == 1 && answer.properties is Some {
        let p = answer.properties->0@;
        assert(answer.extensions() == p);
        if b {
            assert forall|i: int| 0 <= i < p.len() implies (
            #[trigger] p[i]).extension_name@.contains(0) by {
                assert(is_terminated(answer.extensions()[i].extension_name@));
            }
        } else {
            let i = choose|i: int|
                0 <= i < p.len() && !is_terminated(
                    (#[trigger] answer.extensions()[i]).extension_name@,
                );
            assert(!is_terminated(p[i].extension_name@));
            assert(!p[i].extension_name@.contains(0));
        }
    }
}

/// A creation fails with the first code that is not success: that of the runtime, then that
/// of the parameter map, then that of the call itself. If all succeed it gives the handle, on
/// the runtime it was begun with.
pub proof fn law_creation_fails_with_the_first_failure(
    runtime: DlssResult<NgxRuntime>,
    begun: FeatureCall,
    allocation: NVSDK_NGX_Result,
    address: u64,
    allocated: FeatureCall,
    creation: NVSDK_NGX_Result,
    handle: u64,
    r: DlssResult<NgxFeature>,
    evaluation: DlssResult<()>,
)
    requires
        call_ensures(FeatureCall::begin, (runtime,), begun),
        allocation.0 == 1 ==> address != 0,
        creation.0 == 1 ==> handle != 0,
        runtime is Ok ==> call_ensures(
            FeatureCall::allocate_parameters,
            (begun, allocation, address),
            allocated,
        ),
        runtime is Err ==> allocated == begun,
        call_ensures(FeatureCall::create_dlssd_feature, (allocated, creation, handle), r),
        call_ensures(FeatureCall::evaluate_dlssd, (allocated, creation), evaluation),
    ensures
        runtime matches Err(e) ==> r == Err::<NgxFeature, NVSDK_NGX_Result>(e)
            && evaluation == Err::<
            (),
            NVSDK_NGX_Result,
        >(e),
        runtime is Ok && allocation.0 != 1 ==> r == Err::<NgxFeature, NVSDK_NGX_Result>(allocation)
            && evaluation == Err::<(), NVSDK_NGX_Result>(allocation),
        runtime is Ok && allocation.0 == 1 && creation.0 != 1 ==> r == Err::<
            NgxFeature,
            NVSDK_NGX_Result,
        >(creation) && evaluation == Err::<(), NVSDK_NGX_Result>(creation),
        runtime is Ok && allocation.0 == 1 && creation.0 == 1 ==> {
            &&& r is Ok && r->Ok_0.handle == handle && r->Ok_0.runtime == runtime->Ok_0
            &&& evaluation is Ok
        },
        runtime is Ok && allocation.0 == 1 ==> {
            &&& allocated is Invoke
            &&& allocated->Invoke_0 == runtime->Ok_0
            &&& allocated->Invoke_1.0 == address
        },
{
}

/// A feature is created on the runtime's own device, with the parameter map and the params
/// given, on the first node.
pub proof fn law_features_are_created_on_the_runtimes_device(
    runtime: NgxRuntime,
    parameters: ParameterMap,
    params: NVSDK_NGX_DLSSD_Create_Params,
    r: DlssdCreation,
)
    requires
        call_ensures(dlssd_creation, (runtime, parameters, params), r),
    ensures
        r.device == runtime.device,
        r.parameters == parameters,
        r.create_params == params,
        r.creation_node_mask == 1,
        r.visibility_node_mask == 1,
{
}

/// NGX's messages are logged as information, verbose ones for debugging, and none at level
/// off. What is logged is the message up to the line ends behind it: what was taken off is
/// line ends alone, and what is left ends in none.
pub proof fn law_messages_are_logged_without_their_line_ends(
    message: Option<&[u8]>,
    level: NVSDK_NGX_Logging_Level,
    r: Option<LogRecord>,
)
    requires
        call_ensures(ngx_log_record, (message, level), r),
    ensures
        r is Some <==> message is Some && level != NVSDK_NGX_Logging_Level::Off,
        r matches Some(record) ==> {
            let n = record.message@.len() as int;
            &&& record.severity == LogSeverity::Info <==> level == NVSDK_NGX_Logging_Level::On
            &&& record.severity == LogSeverity::Debug <==> level == NVSDK_NGX_Logging_Level::Verbose
            &&& n <= message->0@.len()
            &&& record.message@ == message->0@.take(n)
            &&& n > 0 ==> message->0@[n - 1] != 10 && message->0@[n - 1] != 13
            &&& forall|i: int|
                n <= i < message->0@.len() ==> #[trigger] message->0@[i] == 10 || message->0@[i]
                    == 13
        },
{
    if message is Some {
        crate::dlss::runtime::law_only_line_ends_are_trimmed(message->0@);
    }
}

/// Success is code 1 and keeps the value; any other code is the error itself.
pub proof fn law_success_is_one(
    code: NVSDK_NGX_Result,
    v: u64,
    r: DlssResult<()>,
    w: DlssResult<u64>,
)
    requires
        call_ensures(NVSDK_NGX_Result::result, (code,), r),
        call_ensures(NVSDK_NGX_Result::result_with_success::<u64>, (code, v), w),
    ensures
        code.0 == 1 ==> r is Ok && w is Ok && w->Ok_0 == v,
        code.0 != 1 ==> r is Err && r->Err_0 == code && w is Err && w->Err_0 == code,
{
}

/// Each of the SDK's codes has its own name: success is 1, the failures are numbered from
/// 0xbad00000 on. No other code has one.
pub proof fn law_codes_have_the_sdks_names(code: NVSDK_NGX_Result, r: Option<&'static str>)
    requires
        call_ensures(NVSDK_NGX_Result::name, (code,), r),
    ensures
        r is Some <==> code.0 == 1 || 0xbad0_0000 <= code.0 <= 0xbad0_0012,
        code.0 == 1 ==> r->0@ == "Success"@,
        code.0 == 0xbad0_0000 ==> r->0@ == "Fail"@,
        code.0 == 0xbad0_0001 ==> r->0@ == "FAIL_FeatureNotSupported"@,
        code.0 == 0xbad0_0002 ==> r->0@ == "FAIL_PlatformError"@,
        code.0 == 0xbad0_0003 ==> r->0@ == "FAIL_FeatureAlreadyExists"@,
        code.0 == 0xbad0_0004 ==> r->0@ == "FAIL_FeatureNotFound"@,
        code.0 == 0xbad0_0005 ==> r->0@ == "FAIL_InvalidParameter"@,
        code.0 == 0xbad0_0006 ==> r->0@ == "FAIL_ScratchBufferTooSmall"@,
        code.0 == 0xbad0_0007 ==> r->0@ == "FAIL_NotInitialized"@,
        code.0 == 0xbad0_0008 ==> r->0@ == "FAIL_UnsupportedInputFormat"@,
        code.0 == 0xbad0_0009 ==> r->0@ == "FAIL_RWFlagMissing"@,
        code.0 == 0xbad0_000a ==> r->0@ == "FAIL_MissingInput"@,
        code.0 == 0xbad0_000b ==> r->0@ == "FAIL_UnableToInitializeFeature"@,
        code.0 == 0xbad0_000c ==> r->0@ == "FAIL_OutOfDate"@,
        code.0 == 0xbad0_000d ==> r->0@ == "FAIL_OutOfGPUMemory"@,
        code.0 == 0xbad0_000e ==> r->0@ == "FAIL_UnsupportedFormat"@,
        code.0 == 0xbad0_000f ==> r->0@ == "FAIL_UnableToWriteToAppDataPath"@,
        code.0 == 0xbad0_0010 ==> r->0@ == "FAIL_UnsupportedParameter"@,
        code.0 == 0xbad0_0011 ==> r->0@ == "FAIL_Denied"@,
        code.0 == 0xbad0_0012 ==> r->0@ == "FAIL_NotImplemented"@,
{
}

/// The value of a lower-case hexadecimal digit.
pub open spec fn hex_value(c: char) -> int {
    if '0' <= c <= '9' {
        c as int - '0' as int
    } else {
        c as int - 'a' as int + 10
    }
}

/// The number that digits spell, the first weighing most.
pub open spec fn hex_number(digits: Seq<char>) -> int
    decreases digits.len(),
{
    if digits.len() == 0 {
        0
    } else {
        16 * hex_number(digits.drop_last()) + hex_value(digits.last())
    }
}

proof fn lemma_hex_text_spells(value: int, n: nat)
    requires
        0 <= value,
    ensures
        hex_text(value, n).len() == n,
        hex_number(hex_text(value, n)) == value % vstd::arithmetic::power::pow(16, n),
    decreases n,
{
    vstd::arithmetic::power::lemma_pow_positive(16, n);
    if n == 0 {
        vstd::arithmetic::power::lemma_pow0(16);
    } else {
        let k = (n - 1) as nat;
        let q = vstd::arithmetic::power::pow(16, k);
        vstd::arithmetic::power::lemma_pow_positive(16, k);
        assert(vstd::arithmetic::power::pow(16, n) == 16 * q) by {
            reveal(vstd::arithmetic::power::pow);
        }
        lemma_hex_text_spells(value / 16, k);
        assert(hex_text(value, n).drop_last() =~= hex_text(value / 16, k));
        assert(hex_value(hex_char(value % 16)) == value % 16);
        vstd::arithmetic::div_mod::lemma_mod_breakdown(value, 16, q);
    }
}

/// A message names the code, or says that it is unknown, and spells its number in eight
/// hexadecimal digits.
pub proof fn law_messages_name_and_number_the_code(
    code: NVSDK_NGX_Result,
    text: String,
    name: Option<&'static str>,
)
    requires
        call_ensures(NVSDK_NGX_Result::message, (code,), text),
        call_ensures(NVSDK_NGX_Result::name, (code,), name),
    ensures
        exists|digits: Seq<char>|
            {
                &&& #[trigger] hex_number(digits) == code.0
                &&& digits.len() == 8
                &&& text@ == "NVSDK_NGX_Result::"@ + (if name is Some {
                    name->0@
                } else {
                    "FAIL_Unknown"@
                }) + "(0x"@ + digits + ")"@
            },
{
    let digits = hex_text(code.0 as int, 8);
    lemma_hex_text_spells(code.0 as int, 8);
    assert(vstd::arithmetic::power::pow(16, 8) == 0x1_0000_0000) by {
        reveal_with_fuel(vstd::arithmetic::power::pow, 9);
    }
    vstd::arithmetic::div_mod::lemma_small_mod(code.0 as nat, 0x1_0000_0000);
    assert(hex_number(digits) == code.0);
}

} // verus!
