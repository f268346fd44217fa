//! The interface itself: engines of a physical device, sessions, and what is recorded for
//! them, whichever backend is in use.
//!
//! A program is built for one backend. What only the backend's own library can tell enters
//! as plain values; what is to be done with that library comes back as commands.
use vstd::prelude::*;

use crate::dlss;
use crate::dlss::runtime::{NgxFeature, NgxRuntime};
use crate::dlss::sys::{DlssResult, NVSDK_NGX_DLSSD_Create_Params};
use crate::dlss::{DlssSession, DlssdEvaluation};
use crate::engine::ascii_bytes;
use crate::flags::{SuperResolutionEnginePropertyFlags, SuperResolutionImageUseFlags};
use crate::jitter::{
    jitter_offsets, position_fits_index, position_stays_in_texel, texel_offsets,
};
use crate::metalfx;
use crate::metalfx::{ScaleRange, Scaler, ScalerCreation, ScalerDispatch};
use crate::single::Single;
use crate::types::{
    BindSuperResolutionSessionMemoryInfo, SuperResolutionDescriptorHeapRanges,
    SuperResolutionDispatchInfo, SuperResolutionEngine, SuperResolutionEngineProperties,
    SuperResolutionImageProperties, SuperResolutionSessionCreateInfo,
    SuperResolutionSessionMemoryRequirements,
};
use crate::vk::{DriverId, Extent2D, VkError, VkResult};

verus! {

/// The library that does the work.
#[derive(Clone, Copy, Debug, PartialEq, Eq, Hash, Structural)]
pub enum Backend {
    MetalFx,
    Dlss,
    /// None was built in.
    Unavailable,
}

impl Backend {
    /// The backend of a build: MetalFX on Apple's platforms; elsewhere DLSS, if it is
    /// enabled.
    #[verifier::allow_in_spec]
    pub fn select(apple: bool, dlss_enabled: bool) -> Self
        returns
            (if apple {
                Backend::MetalFx
            } else if dlss_enabled {
                Backend::Dlss
            } else {
                Backend::Unavailable
            }),
    {
        if apple {
            Backend::MetalFx
        } else if dlss_enabled {
            Backend::Dlss
        } else {
            Backend::Unavailable
        }
    }

    /// Whether the backend has an engine.
    #[verifier::allow_in_spec]
    pub fn knows(self, engine: SuperResolutionEngine) -> bool
        returns
            (match self {
                Backend::MetalFx => metalfx::is_known(engine),
                Backend::Dlss => engine == SuperResolutionEngine::dlss_rr(),
                Backend::Unavailable => false,
            }),
    {
        match self {
            Backend::MetalFx => metalfx::is_known(engine),
            Backend::Dlss => engine == SuperResolutionEngine::dlss_rr(),
            Backend::Unavailable => false,
        }
    }

    /// What an engine of the backend is able to do.
    pub open spec fn engine_flags(
        self,
        engine: SuperResolutionEngine,
    ) -> SuperResolutionEnginePropertyFlags {
        match self {
            Backend::MetalFx => metalfx::engine_flags(engine),
            _ => dlss::engine_flags(),
        }
    }
}

/// What is asked of a physical device.
pub trait SuperResolutionPhysicalDevice {
    /// The backend that the device is used through.
    spec fn backend(&self) -> Backend;

    /// The engines that the device offers, in order.
    spec fn offered_engines(&self) -> Seq<SuperResolutionEngine>;

    /// Whether `r` describes an engine on this device.
    spec fn is_described_by(
        &self,
        engine: SuperResolutionEngine,
        r: SuperResolutionEngineProperties,
    ) -> bool;

    /// Enumerates the engines that the device offers.
    fn enumerate_super_resolution_engines(&self) -> (r: VkResult<Vec<SuperResolutionEngine>>)
        ensures
            r matches Ok(engines) && engines@ == self.offered_engines(),
    ;

    /// The properties of an engine that the backend has.
    fn get_super_resolution_engine_properties(&self, engine: SuperResolutionEngine) -> (r:
        SuperResolutionEngineProperties)
        requires
            self.backend().knows(engine),
        ensures
            self.is_described_by(engine, r),
    ;

    /// Enumerates the image properties supported by a super resolution `engine` for the
    /// given `image_use`.
    fn get_super_resolution_engine_supported_image_properties(
        &self,
        engine: SuperResolutionEngine,
        image_use: SuperResolutionImageUseFlags,
    ) -> (r: VkResult<Vec<SuperResolutionImageProperties>>)
        requires
            self.backend() is Unavailable || self.backend().knows(engine),
        ensures
            match self.backend() {
                Backend::MetalFx => r matches Ok(properties) && properties@
                    == metalfx::supported_images(engine, image_use),
                Backend::Dlss => r matches Ok(properties) && properties@ == dlss::supported_images(
                    image_use,
                ),
                Backend::Unavailable => r == Err::<Vec<SuperResolutionImageProperties>, VkError>(
                    VkError::FeatureNotPresent,
                ),
            },
    ;
}

/// A physical device, by what the backends ask about it.
#[derive(Clone, Copy, Debug, PartialEq, Eq, Hash, Structural)]
pub struct PhysicalDevice {
    pub backend: Backend,
    pub vendor_id: u32,
    pub driver_id: DriverId,
    /// What NGX's discovery said of DLSS-RR for the application (see
    /// [`crate::dlss::runtime::check_dlss_rr_available`]). Looked at on NVIDIA's driver
    /// alone.
    pub dlss_rr_available: bool,
    /// The scales of MetalFX's temporal scaler.
    pub temporal_scales: ScaleRange,
    /// The scales of MetalFX's temporal denoised scaler.
    pub denoised_scales: ScaleRange,
}

impl SuperResolutionPhysicalDevice for PhysicalDevice {
    open spec fn backend(&self) -> Backend {
        self.backend
    }

    open spec fn offered_engines(&self) -> Seq<SuperResolutionEngine> {
        match self.backend {
            Backend::MetalFx => metalfx::engines(),
            Backend::Dlss => if self.driver_id == DriverId::nvidia_proprietary()
                && self.dlss_rr_available {
                dlss::engines()
            } else {
                Seq::empty()
            },
            Backend::Unavailable => Seq::empty(),
        }
    }

    open spec fn is_described_by(
        &self,
        engine: SuperResolutionEngine,
        r: SuperResolutionEngineProperties,
    ) -> bool {
        match self.backend {
            Backend::MetalFx => metalfx::describes(
                r,
                self.vendor_id,
                ascii_bytes(metalfx::engine_text(engine)),
                metalfx::engine_flags(engine),
                metalfx::image_used(engine),
                metalfx::scaling_factors(engine, self.temporal_scales, self.denoised_scales),
            ),
            _ => dlss::describes(r, self.vendor_id),
        }
    }

    fn enumerate_super_resolution_engines(&self) -> (r: VkResult<Vec<SuperResolutionEngine>>) {
        match self.backend {
            Backend::MetalFx => Ok(metalfx::enumerate_engines()),
            Backend::Dlss => Ok(dlss::enumerate_engines(self.driver_id, self.dlss_rr_available)),
            Backend::Unavailable => Ok(Vec::new()),
        }
    }

    fn get_super_resolution_engine_properties(&self, engine: SuperResolutionEngine) -> (r:
        SuperResolutionEngineProperties) {
        if self.backend == Backend::MetalFx {
            metalfx::engine_properties(
                self.vendor_id,
                self.temporal_scales,
                self.denoised_scales,
                engine,
            )
        } else {
            dlss::engine_properties(self.vendor_id, engine)
        }
    }

    fn get_super_resolution_engine_supported_image_properties(
        &self,
        engine: SuperResolutionEngine,
        image_use: SuperResolutionImageUseFlags,
    ) -> (r: VkResult<Vec<SuperResolutionImageProperties>>) {
        match self.backend {
            Backend::MetalFx => Ok(metalfx::engine_supported_image_properties(engine, image_use)),
            Backend::Dlss => Ok(dlss::engine_supported_image_properties(engine, image_use)),
            Backend::Unavailable => Err(VkError::FeatureNotPresent),
        }
    }
}

/// The properties of every engine that a device offers can be asked for: the backend knows
/// it.
pub proof fn law_offered_engines_are_known(device: PhysicalDevice, engine: SuperResolutionEngine)
    requires
        device.offered_engines().contains(engine),
    ensures
        device.backend().knows(engine),
{
}

/// No engine of one backend is an engine of another.
pub proof fn law_engines_belong_to_one_backend(
    backend: Backend,
    other: Backend,
    engine: SuperResolutionEngine,
)
    requires
        backend.knows(engine),
        other.knows(engine),
    ensures
        backend == other,
{
}

/// What is asked of a device.
pub trait SuperResolutionDevice {
    /// The backend that the device is used through.
    spec fn device_backend(&self) -> Backend;

    /// Queries the internal device memory requirements of a super resolution session that
    /// would be created with `session_create_info`. The backends manage their own memory.
    fn get_super_resolution_session_memory_requirements(
        &self,
        session_create_info: &SuperResolutionSessionCreateInfo,
    ) -> (r: VkResult<Vec<SuperResolutionSessionMemoryRequirements>>)
        ensures
            match self.device_backend() {
                Backend::Unavailable => r == Err::<
                    Vec<SuperResolutionSessionMemoryRequirements>,
                    VkError,
                >(VkError::FeatureNotPresent),
                _ => r matches Ok(requirements) && requirements@.len() == 0,
            },
    ;

    /// Queries the descriptor heap range requirements of a super resolution session that
    /// would be created with `session_create_info`. The backends manage their own
    /// descriptors.
    fn get_super_resolution_session_descriptor_heap_ranges(
        &self,
        session_create_info: &SuperResolutionSessionCreateInfo,
    ) -> (r: VkResult<SuperResolutionDescriptorHeapRanges>)
        ensures
            r == (match self.device_backend() {
                Backend::Unavailable => Err(VkError::FeatureNotPresent),
                _ => Ok(
                    SuperResolutionDescriptorHeapRanges {
                        resource_heap_size: 0,
                        resource_heap_alignment: 0,
                        sampler_heap_size: 0,
                        sampler_heap_alignment: 0,
                    },
                ),
            }),
    ;
}

/// A device, by its number.
#[derive(Clone, Copy, Debug, PartialEq, Eq, Hash, Structural)]
pub struct Device {
    pub backend: Backend,
    pub handle: u64,
}

impl SuperResolutionDevice for Device {
    open spec fn device_backend(&self) -> Backend {
        self.backend
    }

    fn get_super_resolution_session_memory_requirements(
        &self,
        session_create_info: &SuperResolutionSessionCreateInfo,
    ) -> (r: VkResult<Vec<SuperResolutionSessionMemoryRequirements>>) {
        match self.backend {
            Backend::MetalFx => Ok(metalfx::session_memory_requirements()),
            Backend::Dlss => Ok(dlss::session_memory_requirements()),
            Backend::Unavailable => Err(VkError::FeatureNotPresent),
        }
    }

    fn get_super_resolution_session_descriptor_heap_ranges(
        &self,
        session_create_info: &SuperResolutionSessionCreateInfo,
    ) -> (r: VkResult<SuperResolutionDescriptorHeapRanges>) {
        match self.backend {
            Backend::MetalFx => Ok(metalfx::session_descriptor_heap_ranges()),
            Backend::Dlss => Ok(dlss::session_descriptor_heap_ranges()),
            Backend::Unavailable => Err(VkError::FeatureNotPresent),
        }
    }
}

/// What the backend's own library answered when a session was to be created.
#[derive(Clone, Copy, Debug)]
pub enum BackendAnswer {
    /// How the creation of the scaler that
    /// [`crate::metalfx::scaler_descriptor`] describes ended.
    MetalFx(ScalerCreation),
    /// The NGX runtime, or why there is none (see
    /// [`crate::dlss::runtime::NgxState::ensure_runtime`]).
    Dlss(DlssResult<NgxRuntime>),
    /// There is no library to ask.
    Unavailable,
}

impl BackendAnswer {
    /// The backend that answered.
    pub open spec fn backend(self) -> Backend {
        match self {
            BackendAnswer::MetalFx(_) => Backend::MetalFx,
            BackendAnswer::Dlss(_) => Backend::Dlss,
            BackendAnswer::Unavailable => Backend::Unavailable,
        }
    }
}

/// What a session holds for its backend.
#[derive(Clone, Copy, Debug)]
pub enum SessionState {
    /// The backing MetalFX scaler.
    MetalFx(Scaler),
    /// The backing DLSS-RR session (deferred NGX feature + create params).
    Dlss(DlssSession),
}

/// An instance of a specific scaler implementation, created from a
/// [`SuperResolutionSessionCreateInfo`].
///
/// Wraps `VkSuperResolutionSessionEXT`. Keeps the device it was created from. Before it can
/// be dispatched to, the session must have its memory requirements satisfied (see
/// [`SuperResolutionDevice::get_super_resolution_session_memory_requirements`]) and be
/// initialized.
#[derive(Clone, Copy, Debug)]
pub struct SuperResolutionSession {
    device: Device,
    state: SessionState,
}

impl SuperResolutionSession {
    /// The device that the session was created from.
    pub closed spec fn device_of(self) -> Device {
        self.device
    }

    /// What the session holds for its backend.
    pub closed spec fn state_of(self) -> SessionState {
        self.state
    }

    /// The device that the session was created from.
    pub fn device(&self) -> (r: Device)
        ensures
            r == self.device_of(),
    {
        self.device
    }

    /// What the session holds for its backend.
    pub fn state(&self) -> (r: SessionState)
        ensures
            r == self.state_of(),
    {
        self.state
    }

    /// Creates a super resolution session, from what the backend's own library answered.
    pub fn new(
        device: Device,
        create_info: &SuperResolutionSessionCreateInfo,
        answer: BackendAnswer,
    ) -> (r: VkResult<SuperResolutionSession>)
        requires
            device.backend == answer.backend(),
            device.backend is Unavailable || device.backend.knows(create_info.engine),
        ensures
            match answer {
                BackendAnswer::MetalFx(ScalerCreation::Created(address)) => {
                    &&& r matches Ok(session)
                    &&& session.device_of() == device
                    &&& session.state_of() == SessionState::MetalFx(
                        metalfx::scaler_of(create_info.engine, address),
                    )
                },
                BackendAnswer::MetalFx(_) => r == Err::<SuperResolutionSession, VkError>(
                    VkError::InitializationFailed,
                ),
                BackendAnswer::Dlss(Ok(_)) => {
                    &&& r matches Ok(session)
                    &&& session.device_of() == device
                    &&& session.state_of() == SessionState::Dlss(dlss::session_of(*create_info))
                },
                BackendAnswer::Dlss(Err(_)) => r == Err::<SuperResolutionSession, VkError>(
                    VkError::InitializationFailed,
                ),
                BackendAnswer::Unavailable => r == Err::<SuperResolutionSession, VkError>(
                    VkError::FeatureNotPresent,
                ),
            },
    {
        match answer {
            BackendAnswer::MetalFx(creation) => match metalfx::create_session(
                create_info,
                creation,
            ) {
                Ok(scaler) => Ok(
                    SuperResolutionSession { device, state: SessionState::MetalFx(scaler) },
                ),
                Err(e) => Err(e),
            },
            BackendAnswer::Dlss(runtime) => match dlss::create_session(create_info, runtime) {
                Ok(session) => Ok(
                    SuperResolutionSession { device, state: SessionState::Dlss(session) },
                ),
                Err(e) => Err(e),
            },
            // No backend owns this engine (none were enumerated).
            BackendAnswer::Unavailable => Err(VkError::FeatureNotPresent),
        }
    }

    /// Attaches device memory to this session's internal bind points. The backends manage
    /// all session memory internally; there is nothing to bind.
    pub fn bind_memory(&self, bind_infos: &[BindSuperResolutionSessionMemoryInfo]) -> (r: VkResult<
        (),
    >)
        ensures
            r == Ok::<(), VkError>(()),
    {
        Ok(())
    }

    /// Whether the session's engine uses jitter.
    pub open spec fn uses_jitter(self) -> bool {
        !(self.state_of() matches SessionState::MetalFx(Scaler::Spatial(_)))
    }

    /// Queries the recommended per-frame jitter pattern for this session. If the engine does
    /// not use jitter (i.e. it is not temporal), this returns
    /// `Err(VkError::FeatureNotPresent)`.
    pub fn recommended_jitter_pattern(
        &self,
        destination_region_size: Extent2D,
        source_region_size: Extent2D,
    ) -> (r: VkResult<Vec<(Single, Single)>>)
        ensures
            !self.uses_jitter() ==> r == Err::<Vec<(Single, Single)>, VkError>(
                VkError::FeatureNotPresent,
            ),
            self.uses_jitter() ==> {
                &&& r matches Ok(offsets)
                &&& match self.state_of() {
                    SessionState::MetalFx(_) => {
                        &&& offsets@ == texel_offsets(
                            metalfx::phase_count(
                                destination_region_size.width,
                                source_region_size.width,
                            ) as nat,
                        )
                        &&& forall|i: int|
                            0 <= i < offsets@.len() ==> position_stays_in_texel(
                                #[trigger] offsets@[i],
                            )
                    },
                    SessionState::Dlss(_) => {
                        &&& offsets@ == jitter_offsets(
                            dlss::phase_count(
                                destination_region_size.width,
                                source_region_size.width,
                            ) as nat,
                        )
                        &&& forall|i: int|
                            0 <= i < offsets@.len() ==> position_fits_index(
                                i + 1,
                                #[trigger] offsets@[i],
                            )
                    },
                }
            },
    {
        match &self.state {
            SessionState::MetalFx(scaler) => scaler.recommended_jitter_pattern(
                destination_region_size,
                source_region_size,
            ),
            SessionState::Dlss(_) => dlss::recommended_jitter_pattern(
                destination_region_size,
                source_region_size,
            ),
        }
    }

    /// Takes note of how a recorded feature creation (see
    /// [`SuperResolutionCommand::CreateDlssFeature`]) ended. Returns the feature that the
    /// new one replaces, to be released, or the failure, on which nothing changes.
    pub fn finish_initialization(&mut self, created: DlssResult<NgxFeature>) -> (r: DlssResult<
        Option<NgxFeature>,
    >)
        requires
            old(self).state_of() is Dlss,
        ensures
            final(self).device_of() == old(self).device_of(),
            final(self).state_of() == SessionState::Dlss(
                dlss::after_creation(old(self).state_of()->Dlss_0, created),
            ),
            r == (match created {
                Ok(_) => Ok(old(self).state_of()->Dlss_0.feature),
                Err(e) => Err(e),
            }),
    {
        match self.state {
            SessionState::Dlss(session) => {
                let mut session = session;
                let r = session.initialize_session(created);
                self.state = SessionState::Dlss(session);
                r
            },
            SessionState::MetalFx(_) => Ok(None),
        }
    }
}

/// A session's engine uses jitter exactly where it is temporal.
pub proof fn law_temporal_engines_use_jitter(
    create_info: SuperResolutionSessionCreateInfo,
    session: SuperResolutionSession,
    address: u64,
)
    requires
        session.device_of().backend.knows(create_info.engine),
        match session.device_of().backend {
            Backend::MetalFx => session.state_of() == SessionState::MetalFx(
                metalfx::scaler_of(create_info.engine, address),
            ),
            _ => session.state_of() == SessionState::Dlss(dlss::session_of(create_info)),
        },
    ensures
        session.uses_jitter() <==> session.device_of().backend.engine_flags(
            create_info.engine,
        ).contains(SuperResolutionEnginePropertyFlags::is_temporal()),
{
    assert((1u32 | 4u32 | 8u32 | 2u32) & 1 == 1 && (4u32 | 8u32 | 2u32) & 1 != 1 && (1u32 | 4u32
        | 2u32) & 1 == 1 && (1u32 | 8u32) & 1 == 1) by (bit_vector);
}

/// What is to be done with the backend's own library on the command buffer.
#[derive(Clone, Copy, Debug)]
pub enum SuperResolutionCommand {
    /// Have NGX create a DLSS-RR feature.
    CreateDlssFeature(NVSDK_NGX_DLSSD_Create_Params),
    /// Have NGX evaluate a DLSS-RR feature.
    EvaluateDlss(DlssdEvaluation),
    /// Nothing but a warning: the session is not initialized.
    SkipUninitialized,
    /// Set the values on a MetalFX scaler and encode its work.
    EncodeScaler(Scaler, ScalerDispatch),
}

/// Whether `commands` initialize a session.
pub open spec fn initializes(
    commands: Seq<SuperResolutionCommand>,
    session: SuperResolutionSession,
) -> bool {
    match session.state_of() {
        SessionState::MetalFx(_) => commands.len() == 0,
        SessionState::Dlss(dlss) => commands.len() == 1 && commands[0]
            == SuperResolutionCommand::CreateDlssFeature(dlss.create_params),
    }
}

/// Whether `command` is a dispatch on a session.
pub open spec fn dispatches(
    command: SuperResolutionCommand,
    session: SuperResolutionSession,
    info: SuperResolutionDispatchInfo,
) -> bool {
    match session.state_of() {
        SessionState::MetalFx(scaler) => command matches SuperResolutionCommand::EncodeScaler(
            target,
            values,
        ) && target == scaler && match scaler {
            Scaler::Temporal(_) => values matches ScalerDispatch::Temporal(d)
                && metalfx::sets_temporal(d, info),
            Scaler::Denoised(_) => values matches ScalerDispatch::Denoised(d)
                && metalfx::sets_denoised(d, info),
            Scaler::Spatial(_) => values == ScalerDispatch::Spatial(
                metalfx::dispatch_spatial(&info),
            ),
        },
        SessionState::Dlss(dlss) => match dlss.feature {
            Some(feature) => command matches SuperResolutionCommand::EvaluateDlss(e)
                && dlss::evaluates(e, dlss, feature, info),
            None => command is SkipUninitialized,
        },
    }
}

/// What is recorded into a command buffer.
pub trait SuperResolutionCommandEncoder {
    /// What has been recorded.
    spec fn recorded(&self) -> Seq<SuperResolutionCommand>;

    /// Records initialization of a super resolution `session` into the command buffer.
    fn initialize_super_resolution_session(&mut self, session: &SuperResolutionSession)
        ensures
            old(self).recorded().len() <= final(self).recorded().len(),
            final(self).recorded().take(old(self).recorded().len() as int) == old(self).recorded(),
            initializes(
                final(self).recorded().skip(old(self).recorded().len() as int),
                *session,
            ),
    ;

    /// Records a super resolution upscaling dispatch into the command buffer.
    fn dispatch_super_resolution(
        &mut self,
        session: &SuperResolutionSession,
        dispatch_info: &SuperResolutionDispatchInfo,
    )
        ensures
            final(self).recorded().len() == old(self).recorded().len() + 1,
            final(self).recorded().drop_last() == old(self).recorded(),
            dispatches(final(self).recorded().last(), *session, *dispatch_info),
    ;
}

/// A list of commands.
#[derive(Debug)]
pub struct CommandEncoder {
    commands: Vec<SuperResolutionCommand>,
}

impl CommandEncoder {
    /// An empty list.
    pub fn new() -> (r: Self)
        ensures
            r.recorded().len() == 0,
    {
        CommandEncoder { commands: Vec::new() }
    }

    /// The commands, in the order in which they were recorded.
    pub fn into_commands(self) -> (r: Vec<SuperResolutionCommand>)
        ensures
            r@ == self.recorded(),
    {
        self.commands
    }
}

impl SuperResolutionCommandEncoder for CommandEncoder {
    closed spec fn recorded(&self) -> Seq<SuperResolutionCommand> {
        self.commands@
    }

    fn initialize_super_resolution_session(&mut self, session: &SuperResolutionSession) {
        let ghost before = self.commands@;
        match &session.state {
            SessionState::MetalFx(scaler) => {
                let mut scaler: Scaler = *scaler;
                scaler.initialize_session();
                assert(self.commands@.take(before.len() as int) =~= before);
            },
            SessionState::Dlss(dlss) => {
                self.commands.push(SuperResolutionCommand::CreateDlssFeature(dlss.create_params));
                assert(self.commands@.take(before.len() as int) =~= before);
            },
        }
    }

    fn dispatch_super_resolution(
        &mut self,
        session: &SuperResolutionSession,
        dispatch_info: &SuperResolutionDispatchInfo,
    ) {
        let ghost before = self.commands@;
        let command = match &session.state {
            SessionState::MetalFx(scaler) => SuperResolutionCommand::EncodeScaler(
                *scaler,
                scaler.dispatch(dispatch_info),
            ),
            SessionState::Dlss(dlss) => match dlss.dispatch(dispatch_info) {
                Some(evaluation) => SuperResolutionCommand::EvaluateDlss(evaluation),
                None => SuperResolutionCommand::SkipUninitialized,
            },
        };
        self.commands.push(command);
        assert(self.commands@.drop_last() =~= before);
    }
}

} // verus!
