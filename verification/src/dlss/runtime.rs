//! The NGX runtime: what it is asked, and what its answers mean.
//!
//! NGX is a per-process singleton behind C entry points. The functions here decide
//! what to call with which values and what follows from the results; they call
//! nothing themselves.
use vstd::prelude::*;
use vstd::slice::slice_to_vec;

use super::sys::{
    DlssResult, NVSDK_NGX_Application_Identifier, NVSDK_NGX_Application_Identifier_Type,
    NVSDK_NGX_DLSSD_Create_Params, NVSDK_NGX_EngineType, NVSDK_NGX_Feature,
    NVSDK_NGX_FeatureCommonInfo, NVSDK_NGX_FeatureDiscoveryInfo, NVSDK_NGX_LoggingInfo,
    NVSDK_NGX_Logging_Level, NVSDK_NGX_Result, WChar, NVSDK_NGX_FEATURE_SUPPORT_RESULT_SUPPORTED,
    NVSDK_NGX_VERSION_API,
};
use crate::types::{ExtensionProperties, SuperResolutionApplicationInfo};
use crate::vk::DriverId;

verus! {

/// A path as NGX takes it: its units, widened, then a terminating NUL.
pub open spec fn wide_path(path: Seq<u16>) -> Seq<WChar> {
    Seq::new(
        path.len() + 1,
        |i: int|
            if i < path.len() {
                path[i] as WChar
            } else {
                0
            },
    )
}

/// NUL-terminated wide encoding of `path`, suitable for NGX's
/// `ApplicationDataPath` and search paths.
pub fn encode_app_data_path(path: &[u16]) -> (wide: Vec<WChar>)
    ensures
        wide@ == wide_path(path@),
{
    let mut wide: Vec<WChar> = Vec::new();
    let mut i: usize = 0;
    while i < path.len()
        invariant
            i <= path@.len(),
            wide@ == wide_path(path@).take(i as int),
        decreases path@.len() - i,
    {
        wide.push(path[i] as WChar);
        i = i + 1;
        assert(wide@ =~= wide_path(path@).take(i as int));
    }
    wide.push(0);
    assert(wide@ =~= wide_path(path@));
    wide
}

/// The encoding of a path is NUL-terminated and tells the path. That of a path without NULs
/// holds no other NUL.
pub proof fn law_wide_path_is_terminated_and_faithful(a: Seq<u16>, b: Seq<u16>)
    ensures
        wide_path(a).last() == 0,
        (forall|i: int| 0 <= i < a.len() ==> a[i] != 0) ==> forall|i: int|
            0 <= i < wide_path(a).len() - 1 ==> wide_path(a)[i] != 0,
        wide_path(a) == wide_path(b) ==> a == b,
{
    if wide_path(a) == wide_path(b) {
        assert(wide_path(a).len() == wide_path(b).len());
        assert forall|i: int| 0 <= i < a.len() implies a[i] == b[i] by {
            assert(wide_path(a)[i] == wide_path(b)[i]);
        }
        assert(a =~= b);
    }
}

/// Where the DLSS-RR runtime library is looked for.
#[derive(Debug)]
pub enum RuntimeSearchDir {
    /// In this directory.
    Directory(String),
    /// Where Bazel runfiles hold it, if they do.
    Runfiles,
}

/// Directory containing the DLSS-RR runtime library, used as an NGX search path.
///
/// Resolution order: the directory baked in at compile time; then the one from the
/// runtime environment; then Bazel runfiles. An empty directory counts as none.
pub fn dlss_runtime_search_dir(baked: Option<&str>, environment: Option<&str>) -> (r:
    RuntimeSearchDir)
    ensures
        match (baked, environment) {
            (Some(dir), _) if dir@.len() > 0 => r matches RuntimeSearchDir::Directory(d) && d@
                == dir@,
            (_, Some(dir)) if dir@.len() > 0 => r matches RuntimeSearchDir::Directory(d) && d@
                == dir@,
            _ => r is Runfiles,
        },
{
    if let Some(dir) = baked {
        if !dir.is_empty() {
            return RuntimeSearchDir::Directory(dir.to_owned());
        }
    }
    if let Some(dir) = environment {
        if !dir.is_empty() {
            return RuntimeSearchDir::Directory(dir.to_owned());
        }
    }
    RuntimeSearchDir::Runfiles
}

/// The search paths that stand for an optional directory.
pub open spec fn lists_search_dir(paths: Seq<Vec<WChar>>, search_dir: Option<&[u16]>) -> bool {
    match search_dir {
        Some(dir) => paths.len() == 1 && paths[0]@ == wide_path(dir@),
        None => paths.len() == 0,
    }
}

fn search_path_list(search_dir: Option<&[u16]>) -> (paths: Vec<Vec<WChar>>)
    ensures
        lists_search_dir(paths@, search_dir),
{
    let mut paths: Vec<Vec<WChar>> = Vec::new();
    if let Some(dir) = search_dir {
        paths.push(encode_app_data_path(dir));
    }
    paths
}

impl NVSDK_NGX_FeatureDiscoveryInfo {
    /// Whether `self` asks about DLSS-RR for the given project.
    pub open spec fn asks_for(
        self,
        app_data_path: Seq<WChar>,
        project_id: Seq<u8>,
        engine_version: Seq<u8>,
    ) -> bool {
        &&& self.sdk_version == NVSDK_NGX_VERSION_API
        &&& self.feature_id == NVSDK_NGX_Feature::RayReconstruction
        &&& self.identifier.identifier_type == NVSDK_NGX_Application_Identifier_Type::ProjectId
        &&& self.identifier.project_id@ == project_id
        &&& self.identifier.engine_type == NVSDK_NGX_EngineType::Custom
        &&& self.identifier.engine_version@ == engine_version
        &&& self.application_data_path@ == app_data_path
    }

    /// What NGX is asked about DLSS-RR, without information common to all features.
    /// `app_data_path` must be NUL-terminated.
    pub fn new(app_data_path: &[WChar], project_id: &[u8], engine_version: &[u8]) -> (info: Self)
        requires
            app_data_path@.len() > 0,
            app_data_path@.last() == 0,
        ensures
            info.asks_for(app_data_path@, project_id@, engine_version@),
            info.feature_info is None,
    {
        NVSDK_NGX_FeatureDiscoveryInfo {
            sdk_version: NVSDK_NGX_VERSION_API,
            feature_id: NVSDK_NGX_Feature::RayReconstruction,
            identifier: NVSDK_NGX_Application_Identifier {
                identifier_type: NVSDK_NGX_Application_Identifier_Type::ProjectId,
                project_id: slice_to_vec(project_id),
                engine_type: NVSDK_NGX_EngineType::Custom,
                engine_version: slice_to_vec(engine_version),
            },
            application_data_path: slice_to_vec(app_data_path),
            feature_info: None,
        }
    }
}

/// What NGX is asked about the extensions that DLSS-RR needs.
pub fn extension_request(app_info: &SuperResolutionApplicationInfo<'_>) -> (info:
    NVSDK_NGX_FeatureDiscoveryInfo)
    ensures
        info.asks_for(
            wide_path(app_info.application_data_path@),
            app_info.project_id@,
            app_info.engine_version@,
        ),
        info.feature_info is None,
{
    let app_data = encode_app_data_path(app_info.application_data_path);
    NVSDK_NGX_FeatureDiscoveryInfo::new(
        app_data.as_slice(),
        app_info.project_id,
        app_info.engine_version,
    )
}

/// What NGX is asked about the availability of DLSS-RR: with the search path of the
/// runtime library, so that discovery can inspect it, and without any logging.
pub fn availability_request(
    app_info: &SuperResolutionApplicationInfo<'_>,
    search_dir: Option<&[u16]>,
) -> (info: NVSDK_NGX_FeatureDiscoveryInfo)
    ensures
        info.asks_for(
            wide_path(app_info.application_data_path@),
            app_info.project_id@,
            app_info.engine_version@,
        ),
        info.feature_info matches Some(common) && lists_search_dir(common.path_list@, search_dir)
            && common.logging_info == (NVSDK_NGX_LoggingInfo {
            logging_callback: false,
            minimum_logging_level: NVSDK_NGX_Logging_Level::Off,
            disable_other_logging_sinks: true,
        }),
{
    let mut info = extension_request(app_info);
    info.feature_info = Some(
        NVSDK_NGX_FeatureCommonInfo {
            path_list: search_path_list(search_dir),
            logging_info: NVSDK_NGX_LoggingInfo {
                logging_callback: false,
                minimum_logging_level: NVSDK_NGX_Logging_Level::Off,
                disable_other_logging_sinks: true,
            },
        },
    );
    info
}

/// Reports whether DLSS-RR is supported, from NGX's answer to an
/// [`availability_request`]: the result of the call, and the support that it wrote,
/// which counts only where the call succeeded.
pub fn check_dlss_rr_available(
    result: NVSDK_NGX_Result,
    feature_supported: u32,
) -> (available: bool)
    ensures
        available == (result == NVSDK_NGX_Result::success() && feature_supported
            == NVSDK_NGX_FEATURE_SUPPORT_RESULT_SUPPORTED),
{
    if result.result().is_err() {
        return false;
    }
    feature_supported == NVSDK_NGX_FEATURE_SUPPORT_RESULT_SUPPORTED
}

/// Whether a device runs on NVIDIA's proprietary driver. NGX is asked about no other.
#[verifier::allow_in_spec]
pub fn has_nvidia_driver(driver_id: DriverId) -> bool
    returns
        driver_id == DriverId::nvidia_proprietary(),
{
    driver_id == DriverId::nvidia_proprietary()
}

/// Whether `name` is the NUL-terminated string at the start of `field`: the bytes
/// before its first NUL.
pub open spec fn is_c_string(field: Seq<u8>, name: Seq<u8>) -> bool {
    &&& name.len() < field.len()
    &&& field[name.len() as int] == 0
    &&& forall|i: int| 0 <= i < name.len() ==> name[i] != 0 && name[i] == #[trigger] field[i]
}

/// Whether a fixed-size field holds a NUL-terminated string.
pub open spec fn is_terminated(field: Seq<u8>) -> bool {
    exists|i: int| 0 <= i < field.len() && field[i] == 0
}

/// A field holds one string at most.
pub proof fn law_c_string_is_unique(field: Seq<u8>, a: Seq<u8>, b: Seq<u8>)
    requires
        is_c_string(field, a),
        is_c_string(field, b),
    ensures
        a == b,
{
    if a.len() < b.len() {
        assert(b[a.len() as int] == field[a.len() as int]);
    }
    if b.len() < a.len() {
        assert(a[b.len() as int] == field[b.len() as int]);
    }
    assert forall|i: int| 0 <= i < a.len() implies a[i] == b[i] by {
        assert(a[i] == field[i]);
    }
    assert(a =~= b);
}

/// Calls `ash::vk::ExtensionProperties::extension_name_as_c_str`, which reads the
/// fixed-size name field up to its first NUL byte. The contract claims that it
/// returns the bytes before that NUL, and an error exactly where there is none.
#[verifier::external_body]
fn extension_name_as_c_str(properties: &ExtensionProperties) -> (name: Option<Vec<u8>>)
    ensures
        name is Some <==> is_terminated(properties.extension_name@),
        name matches Some(bytes) ==> is_c_string(properties.extension_name@, bytes@),
{
    let properties = ash::vk::ExtensionProperties {
        extension_name: properties.extension_name.map(|byte| byte as _),
        spec_version: properties.spec_version,
    };
    properties.extension_name_as_c_str().ok().map(|name| name.to_bytes().to_vec())
}

/// What NGX answers when it is asked for the extensions of a feature: the result of
/// the call, and the array that it points to, if it points to one.
#[derive(Clone, Copy, Debug)]
pub struct ExtensionAnswer<'a> {
    pub result: NVSDK_NGX_Result,
    pub properties: Option<&'a [ExtensionProperties]>,
}

impl<'a> ExtensionAnswer<'a> {
    /// The extensions of the answer: none where the call failed or gave no array.
    pub open spec fn extensions(self) -> Seq<ExtensionProperties> {
        match self.properties {
            Some(properties) if self.result == NVSDK_NGX_Result::success() => properties@,
            _ => Seq::empty(),
        }
    }

    /// Whether every name of the answer is NUL-terminated, as NGX's are.
    pub open spec fn is_well_formed(self) -> bool {
        forall|i: int|
            0 <= i < self.extensions().len() ==> is_terminated(
                (#[trigger] self.extensions()[i]).extension_name@,
            )
    }

    /// Tells whether every name of the answer is NUL-terminated.
    pub fn check_well_formed(&self) -> (b: bool)
        ensures
            b == self.is_well_formed(),
    {
        if self.result.result().is_err() {
            return true;
        }
        if let Some(properties) = self.properties {
            let mut i: usize = 0;
            while i < properties.len()
                invariant
                    i <= properties@.len(),
                    self.extensions() == properties@,
                    forall|j: int|
                        0 <= j < i ==> is_terminated(
                            (#[trigger] properties@[j]).extension_name@,
                        ),
                decreases properties@.len() - i,
            {
                if extension_name_as_c_str(&properties[i]).is_none() {
                    assert(!is_terminated(self.extensions()[i as int].extension_name@));
                    return false;
                }
                i = i + 1;
            }
        }
        true
    }
}

/// Whether `names` are the names of the extensions, in order.
pub open spec fn names_of(names: Seq<Vec<u8>>, extensions: Seq<ExtensionProperties>) -> bool {
    &&& names.len() == extensions.len()
    &&& forall|i: int|
        0 <= i < names.len() ==> is_c_string(
            extensions[i].extension_name@,
            (#[trigger] names[i])@,
        )
}

/// The names of the instance extensions to enable for DLSS-RR, in order, from NGX's
/// answer to an [`extension_request`].
pub fn required_instance_extensions(answer: &ExtensionAnswer<'_>) -> (names: Vec<Vec<u8>>)
    requires
        answer.is_well_formed(),
    ensures
        names_of(names@, answer.extensions()),
{
    let mut names: Vec<Vec<u8>> = Vec::new();
    if answer.result.result().is_err() {
        return names;
    }
    if let Some(properties) = answer.properties {
        let mut i: usize = 0;
        while i < properties.len()
            invariant
                i <= properties@.len(),
                answer.is_well_formed(),
                answer.extensions() == properties@,
                names_of(names@, properties@.take(i as int)),
            decreases properties@.len() - i,
        {
            let name = extension_name_as_c_str(&properties[i]);
            assert(is_terminated(answer.extensions()[i as int].extension_name@));
            names.push(name.unwrap());
            i = i + 1;
        }
        assert(properties@.take(properties@.len() as int) =~= properties@);
    }
    names
}

/// The names of the device extensions to enable for DLSS-RR, in order, from NGX's
/// answer to an [`extension_request`]. On a driver other than NVIDIA's there are
/// none, and NGX need not be asked.
pub fn required_device_extensions(driver_id: DriverId, answer: &ExtensionAnswer<'_>) -> (names: Vec<
    Vec<u8>,
>)
    requires
        has_nvidia_driver(driver_id) ==> answer.is_well_formed(),
    ensures
        has_nvidia_driver(driver_id) ==> names_of(names@, answer.extensions()),
        !has_nvidia_driver(driver_id) ==> names@.len() == 0,
{
    if !has_nvidia_driver(driver_id) {
        return Vec::new();
    }
    required_instance_extensions(answer)
}

/// The live NGX runtime: the device that NGX was initialized with, by its number.
#[derive(Clone, Copy, Debug, PartialEq, Eq, Hash, Structural)]
pub struct NgxRuntime {
    pub device: u64,
}

/// How NGX is initialized.
#[derive(Debug)]
pub struct NgxInitRequest {
    pub project_id: Vec<u8>,
    pub engine_type: NVSDK_NGX_EngineType,
    pub engine_version: Vec<u8>,
    /// NUL-terminated.
    pub application_data_path: Vec<WChar>,
    pub device: u64,
    pub feature_info: NVSDK_NGX_FeatureCommonInfo,
    pub sdk_version: u32,
}

impl NgxInitRequest {
    /// Whether `self` initializes NGX for the given application on the given device:
    /// with the search path of the runtime library, and NGX's log going to this
    /// crate's callback alone.
    pub open spec fn initializes(
        self,
        device: u64,
        app_info: SuperResolutionApplicationInfo<'_>,
        search_dir: Option<&[u16]>,
    ) -> bool {
        &&& self.project_id@ == app_info.project_id@
        &&& self.engine_type == NVSDK_NGX_EngineType::Custom
        &&& self.engine_version@ == app_info.engine_version@
        &&& self.application_data_path@ == wide_path(app_info.application_data_path@)
        &&& self.device == device
        &&& lists_search_dir(self.feature_info.path_list@, search_dir)
        &&& self.feature_info.logging_info == (NVSDK_NGX_LoggingInfo {
            logging_callback: true,
            minimum_logging_level: NVSDK_NGX_Logging_Level::On,
            disable_other_logging_sinks: true,
        })
        &&& self.sdk_version == NVSDK_NGX_VERSION_API
    }
}

/// What stands between a caller and the runtime.
#[derive(Debug)]
pub enum RuntimeStep {
    /// Nothing: the runtime is live.
    Ready(NgxRuntime),
    /// NGX is to be initialized first.
    Initialize(NgxInitRequest),
}

/// What becomes of NGX when it is needed with `device`, and its initialization, if it
/// is live no sooner, ends with `result`.
pub open spec fn after_attempt(
    state: Option<NgxRuntime>,
    device: u64,
    result: NVSDK_NGX_Result,
) -> Option<NgxRuntime> {
    match state {
        Some(runtime) => Some(runtime),
        None => if result == NVSDK_NGX_Result::success() {
            Some(NgxRuntime { device })
        } else {
            None
        },
    }
}

/// What has become of NGX after a number of such needs.
pub open spec fn after_attempts(attempts: Seq<(u64, NVSDK_NGX_Result)>) -> Option<NgxRuntime>
    decreases attempts.len(),
{
    if attempts.len() == 0 {
        None
    } else {
        after_attempt(
            after_attempts(attempts.drop_last()),
            attempts.last().0,
            attempts.last().1,
        )
    }
}

/// NGX is initialized once: with the device of the first initialization that
/// succeeds, whatever comes after it. Until one succeeds it is not live.
pub proof fn law_first_success_initializes(attempts: Seq<(u64, NVSDK_NGX_Result)>, first: int)
    requires
        0 <= first <= attempts.len(),
        forall|i: int| 0 <= i < first ==> (#[trigger] attempts[i]).1 != NVSDK_NGX_Result::success(),
        first < attempts.len() ==> attempts[first].1 == NVSDK_NGX_Result::success(),
    ensures
        after_attempts(attempts) == (if first < attempts.len() {
            Some(NgxRuntime { device: attempts[first].0 })
        } else {
            None
        }),
    decreases attempts.len(),
{
    if attempts.len() > 0 {
        let rest = attempts.drop_last();
        assert forall|i: int| 0 <= i < rest.len() implies rest[i] == attempts[i] by {}
        if first < attempts.len() {
            law_first_success_initializes(rest, first);
        } else {
            law_first_success_initializes(rest, first - 1);
            assert(attempts[attempts.len() - 1].1 != NVSDK_NGX_Result::success());
        }
    }
}

/// Process-global state of NGX: the runtime, once it is initialized.
#[derive(Clone, Copy, Debug, PartialEq, Eq, Hash, Structural)]
pub struct NgxState {
    runtime: Option<NgxRuntime>,
}

impl View for NgxState {
    type V = Option<NgxRuntime>;

    closed spec fn view(&self) -> Option<NgxRuntime> {
        self.runtime
    }
}

impl NgxState {
    /// NGX before its first use.
    pub fn new() -> (state: Self)
        ensures
            state@ is None,
    {
        NgxState { runtime: None }
    }

    /// Returns the runtime, or `FAIL_NotInitialized` if it hasn't been initialized
    /// yet.
    pub fn runtime(&self) -> (r: DlssResult<NgxRuntime>)
        ensures
            r == (match self@ {
                Some(runtime) => Ok(runtime),
                None => Err(NVSDK_NGX_Result::fail_not_initialized()),
            }),
    {
        match self.runtime {
            Some(runtime) => Ok(runtime),
            None => Err(NVSDK_NGX_Result::fail_not_initialized()),
        }
    }

    /// Returns the runtime, or how to initialize it with `device` on first use.
    pub fn ensure_runtime(
        &self,
        device: u64,
        application_info: &SuperResolutionApplicationInfo<'_>,
        search_dir: Option<&[u16]>,
    ) -> (step: RuntimeStep)
        ensures
            match self@ {
                Some(runtime) => step == RuntimeStep::Ready(runtime),
                None => step matches RuntimeStep::Initialize(request) && request.initializes(
                    device,
                    *application_info,
                    search_dir,
                ),
            },
    {
        if let Some(runtime) = self.runtime {
            return RuntimeStep::Ready(runtime);
        }
        RuntimeStep::Initialize(
            NgxInitRequest {
                project_id: slice_to_vec(application_info.project_id),
                engine_type: NVSDK_NGX_EngineType::Custom,
                engine_version: slice_to_vec(application_info.engine_version),
                application_data_path: encode_app_data_path(application_info.application_data_path),
                device,
                feature_info: NVSDK_NGX_FeatureCommonInfo {
                    path_list: search_path_list(search_dir),
                    logging_info: NVSDK_NGX_LoggingInfo {
                        logging_callback: true,
                        minimum_logging_level: NVSDK_NGX_Logging_Level::On,
                        disable_other_logging_sinks: true,
                    },
                },
                sdk_version: NVSDK_NGX_VERSION_API,
            },
        )
    }

    /// Takes note of how the initialization with `device` ended. The runtime is live
    /// from then on if it succeeded; otherwise nothing changes.
    pub fn finish_initialization(&mut self, device: u64, result: NVSDK_NGX_Result) -> (r: DlssResult<
        NgxRuntime,
    >)
        requires
            old(self)@ is None,
        ensures
            final(self)@ == after_attempt(old(self)@, device, result),
            r == (if result == NVSDK_NGX_Result::success() {
                Ok(NgxRuntime { device })
            } else {
                Err(result)
            }),
    {
        match result.result() {
            Ok(_) => {
                let runtime = NgxRuntime { device };
                self.runtime = Some(runtime);
                Ok(runtime)
            },
            Err(e) => Err(e),
        }
    }
}

/// An NGX parameter map, by its address.
#[derive(Clone, Copy, Debug, PartialEq, Eq, Hash, Structural)]
pub struct ParameterMap(pub u64);

/// An NGX feature (a DLSS-RR instance), by the address of its handle, with the
/// runtime that it belongs to.
#[derive(Clone, Copy, Debug, PartialEq, Eq, Hash, Structural)]
pub struct NgxFeature {
    pub handle: u64,
    pub runtime: NgxRuntime,
}

/// How far a call on the runtime has come. A call needs the runtime, then a
/// parameter map, and fails with the first code that is not success.
#[derive(Clone, Copy, Debug, PartialEq, Eq, Hash, Structural)]
pub enum FeatureCall {
    /// An empty parameter map is to be allocated.
    AllocateParameters(NgxRuntime),
    /// The call itself is to be made, with the parameter map.
    Invoke(NgxRuntime, ParameterMap),
    /// The call has failed.
    Failed(NVSDK_NGX_Result),
}

impl FeatureCall {
    /// Starts a call.
    pub fn begin(runtime: DlssResult<NgxRuntime>) -> (call: Self)
        ensures
            call == (match runtime {
                Ok(runtime) => FeatureCall::AllocateParameters(runtime),
                Err(e) => FeatureCall::Failed(e),
            }),
    {
        match runtime {
            Ok(runtime) => FeatureCall::AllocateParameters(runtime),
            Err(e) => FeatureCall::Failed(e),
        }
    }

    /// Takes note of how the allocation of the parameter map ended. NGX gives an
    /// address other than null wherever it succeeds.
    pub fn allocate_parameters(self, result: NVSDK_NGX_Result, address: u64) -> (call: Self)
        requires
            self is AllocateParameters,
            result == NVSDK_NGX_Result::success() ==> address != 0,
        ensures
            call == (if result == NVSDK_NGX_Result::success() {
                FeatureCall::Invoke(self->AllocateParameters_0, ParameterMap(address))
            } else {
                FeatureCall::Failed(result)
            }),
    {
        match self {
            FeatureCall::AllocateParameters(runtime) => match result.result() {
                Ok(_) => FeatureCall::Invoke(runtime, ParameterMap(address)),
                Err(e) => FeatureCall::Failed(e),
            },
            other => other,
        }
    }

    /// The feature that a creation gives, from how it ended. NGX gives a handle other
    /// than null wherever it succeeds.
    pub fn create_dlssd_feature(self, result: NVSDK_NGX_Result, handle: u64) -> (r: DlssResult<
        NgxFeature,
    >)
        requires
            !(self is AllocateParameters),
            self is Invoke && result == NVSDK_NGX_Result::success() ==> handle != 0,
        ensures
            r == (match self {
                FeatureCall::Failed(e) => Err(e),
                FeatureCall::Invoke(runtime, _) if result == NVSDK_NGX_Result::success() => Ok(
                    NgxFeature { handle, runtime },
                ),
                _ => Err(result),
            }),
    {
        match self {
            FeatureCall::Failed(e) => Err(e),
            FeatureCall::Invoke(runtime, _) => match result.result() {
                Ok(_) => Ok(NgxFeature { handle, runtime }),
                Err(e) => Err(e),
            },
            FeatureCall::AllocateParameters(_) => Err(result),
        }
    }

    /// How an evaluation ended.
    pub fn evaluate_dlssd(self, result: NVSDK_NGX_Result) -> (r: DlssResult<()>)
        requires
            !(self is AllocateParameters),
        ensures
            r == (match self {
                FeatureCall::Failed(e) => Err(e),
                _ if result == NVSDK_NGX_Result::success() => Ok(()),
                _ => Err(result),
            }),
    {
        match self {
            FeatureCall::Failed(e) => Err(e),
            _ => result.result(),
        }
    }
}

/// The arguments with which a DLSS-RR feature is created.
#[derive(Clone, Copy, Debug, PartialEq, Eq, Hash, Structural)]
pub struct DlssdCreation {
    pub device: u64,
    /// Multi-GPU creation node mask.
    pub creation_node_mask: u32,
    /// Multi-GPU visibility node mask.
    pub visibility_node_mask: u32,
    pub parameters: ParameterMap,
    pub create_params: NVSDK_NGX_DLSSD_Create_Params,
}

/// The arguments with which a DLSS-RR feature is created on the runtime's device,
/// on the first node alone.
pub fn dlssd_creation(
    runtime: NgxRuntime,
    parameters: ParameterMap,
    create_params: NVSDK_NGX_DLSSD_Create_Params,
) -> (r: DlssdCreation)
    ensures
        r == (DlssdCreation {
            device: runtime.device,
            creation_node_mask: 1,
            visibility_node_mask: 1,
            parameters,
            create_params,
        }),
{
    DlssdCreation {
        device: runtime.device,
        creation_node_mask: 1,
        visibility_node_mask: 1,
        parameters,
        create_params,
    }
}

/// How loud a log record is.
#[derive(Clone, Copy, Debug, PartialEq, Eq, Hash, Structural)]
pub enum LogSeverity {
    Info,
    Debug,
}

/// A message of NGX, ready to be logged.
#[derive(Debug)]
pub struct LogRecord {
    pub severity: LogSeverity,
    pub message: Vec<u8>,
}

/// Whether a byte ends a line.
pub open spec fn is_line_end(byte: u8) -> bool {
    byte == 13 || byte == 10
}

/// A message without the line ends that it ends with.
pub open spec fn without_line_end(message: Seq<u8>) -> Seq<u8>
    decreases message.len(),
{
    if message.len() > 0 && is_line_end(message.last()) {
        without_line_end(message.drop_last())
    } else {
        message
    }
}

/// What is logged of a message of NGX: nothing without a message or at level `Off`;
/// otherwise the message without the line ends that it ends with.
pub fn ngx_log_record(
    message: Option<&[u8]>,
    level: NVSDK_NGX_Logging_Level,
) -> (r: Option<LogRecord>)
    ensures
        match (message, level) {
            (None, _) | (_, NVSDK_NGX_Logging_Level::Off) => r is None,
            (Some(message), NVSDK_NGX_Logging_Level::On) => r matches Some(record)
                && record.severity == LogSeverity::Info && record.message@ == without_line_end(
                message@,
            ),
            (Some(message), NVSDK_NGX_Logging_Level::Verbose) => r matches Some(record)
                && record.severity == LogSeverity::Debug && record.message@ == without_line_end(
                message@,
            ),
        },
{
    let text: &[u8] = match message {
        Some(text) => text,
        None => return None,
    };
    let severity = match level {
        NVSDK_NGX_Logging_Level::Off => return None,
        NVSDK_NGX_Logging_Level::On => LogSeverity::Info,
        NVSDK_NGX_Logging_Level::Verbose => LogSeverity::Debug,
    };
    let mut message: Vec<u8> = slice_to_vec(text);
    while message.len() > 0 && (message[message.len() - 1] == 13 || message[message.len() - 1]
        == 10)
        invariant
            without_line_end(message@) == without_line_end(text@),
        decreases message@.len(),
    {
        let ghost before = message@;
        message.pop();
        assert(message@ =~= before.drop_last());
    }
    Some(LogRecord { severity, message })
}

/// What is logged is the longest start of the message that ends no line: it ends in
/// no line end, and only line ends were taken off.
pub proof fn law_only_line_ends_are_trimmed(message: Seq<u8>)
    ensures
        without_line_end(message).len() <= message.len(),
        without_line_end(message) == message.take(without_line_end(message).len() as int),
        without_line_end(message).len() > 0 ==> !is_line_end(without_line_end(message).last()),
        forall|i: int|
            without_line_end(message).len() <= i < message.len() ==> is_line_end(message[i]),
    decreases message.len(),
{
    if message.len() > 0 && is_line_end(message.last()) {
        let rest = message.drop_last();
        law_only_line_ends_are_trimmed(rest);
        let n = without_line_end(rest).len() as int;
        assert(rest.take(n) =~= message.take(n));
        assert forall|i: int| n <= i < message.len() implies is_line_end(message[i]) by {
            if i < rest.len() {
                assert(rest[i] == message[i]);
            }
        }
    } else {
        assert(message.take(message.len() as int) =~= message);
    }
}

} // verus!
