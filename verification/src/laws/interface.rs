//! What the interface promises, whichever backend is in use.
use vstd::prelude::*;

use crate::dlss;
use crate::dlss::runtime::{NgxFeature, NgxRuntime};
use crate::dlss::sys::{DlssResult, NVSDK_NGX_DLSSD_Create_Params};
use crate::dlss::DlssSession;
use crate::flags::SuperResolutionImageUseFlags;
use crate::laws::dispatch::{keeps_matrices, reads_images, takes_numbers};
use crate::laws::scalers::{suits_denoised, suits_spatial, suits_temporal};
use crate::metalfx;
use crate::metalfx::Scaler;
use crate::session::{
    dispatches, initializes, Backend, BackendAnswer, CommandEncoder, Device, PhysicalDevice,
    SessionState, SuperResolutionCommand, SuperResolutionCommandEncoder, SuperResolutionDevice,
    SuperResolutionPhysicalDevice, SuperResolutionSession,
};
use crate::single::Single;
use crate::types::{
    BindSuperResolutionSessionMemoryInfo, SuperResolutionDescriptorHeapRanges,
    SuperResolutionDispatchInfo, SuperResolutionEngine, SuperResolutionEngineProperties,
    SuperResolutionImageProperties, SuperResolutionSessionCreateInfo,
    SuperResolutionSessionMemoryRequirements,
};
use crate::vk::{Extent2D, VkError, VkResult};

verus! {

/// Apple's platforms have MetalFX, whatever else is enabled; elsewhere there is DLSS exactly
/// where it is enabled.
pub proof fn law_apple_has_metalfx(apple: bool, dlss_enabled: bool, b: Backend)
    requires
        call_ensures(Backend::select, (apple, dlss_enabled), b),
    ensures
        b is MetalFx <==> apple,
        b is Dlss <==> !apple && dlss_enabled,
        b is Unavailable <==> !apple && !dlss_enabled,
{
}

/// MetalFX has the engines 10, 11 and 12, DLSS has engine 0.
pub proof fn law_backends_know_their_engines(b: Backend, engine: SuperResolutionEngine, known: bool)
    requires
        call_ensures(Backend::knows, (b, engine), known),
    ensures
        known <==> (b is MetalFx && (engine.0 == 10 || engine.0 == 11 || engine.0 == 12)) || (b
            is Dlss && engine.0 == 0),
{
}

/// A device offers its backend's engines: MetalFX's always, DLSS's on NVIDIA's driver where
/// NGX says that DLSS-RR is available, and none without a backend. Enumerating never fails.
pub proof fn law_devices_offer_their_backends_engines(
    device: &PhysicalDevice,
    r: VkResult<Vec<SuperResolutionEngine>>,
)
    requires
        call_ensures(PhysicalDevice::enumerate_super_resolution_engines, (device,), r),
    ensures
        r is Ok,
        device.backend is MetalFx ==> r->Ok_0@.len() == 3 && r->Ok_0@[0].0 == 10 && r->Ok_0@[1].0
            == 11 && r->Ok_0@[2].0 == 12,
        device.backend is Dlss && device.driver_id.0 == 4 && device.dlss_rr_available
            ==> r->Ok_0@.len() == 1 && r->Ok_0@[0].0 == 0,
        device.backend is Dlss && (device.driver_id.0 != 4 || !device.dlss_rr_available)
            ==> r->Ok_0@.len() == 0,
        device.backend is Unavailable ==> r->Ok_0@.len() == 0,
{
}

/// Without a backend no engine takes any image; with one the answer is the backend's own.
pub proof fn law_image_properties_are_the_backends(
    device: &PhysicalDevice,
    engine: SuperResolutionEngine,
    image_use: SuperResolutionImageUseFlags,
    r: VkResult<Vec<SuperResolutionImageProperties>>,
    d: Vec<SuperResolutionImageProperties>,
    m: Vec<SuperResolutionImageProperties>,
)
    requires
        call_ensures(
            PhysicalDevice::get_super_resolution_engine_supported_image_properties,
            (device, engine, image_use),
            r,
        ),
        device.backend is Dlss ==> engine.0 == 0 && call_ensures(
            dlss::engine_supported_image_properties,
            (engine, image_use),
            d,
        ),
        device.backend is MetalFx ==> (engine.0 == 10 || engine.0 == 11 || engine.0 == 12)
            && call_ensures(metalfx::engine_supported_image_properties, (engine, image_use), m),
    ensures
        device.backend is Unavailable ==> r is Err && r->Err_0 == VkError::FeatureNotPresent,
        device.backend is Dlss ==> r is Ok && r->Ok_0@ == d@,
        device.backend is MetalFx ==> r is Ok && r->Ok_0@ == m@,
{
}

/// What a device says of an engine: its own vendor; temporal or not, as the engine is; and
/// the images that the engine uses.
pub proof fn law_engine_properties_are_the_engines(
    device: &PhysicalDevice,
    engine: SuperResolutionEngine,
    r: SuperResolutionEngineProperties,
)
    requires
        device.backend is Dlss && engine.0 == 0 || device.backend is MetalFx && (engine.0 == 10
            || engine.0 == 11 || engine.0 == 12),
        call_ensures(
            PhysicalDevice::get_super_resolution_engine_properties,
            (device, engine),
            r,
        ),
    ensures
        r.vendor_id == device.vendor_id,
        engine.0 == 0 ==> r.flags.0 == 0x9 && r.image_used.0 == 0xf8f,
        engine.0 == 10 ==> r.flags.0 == 0xf && r.image_used.0 == 0x5f,
        engine.0 == 11 ==> r.flags.0 == 0xe && r.image_used.0 == 0x3,
        engine.0 == 12 ==> r.flags.0 == 0x7 && r.image_used.0 == 0x3fdf,
        r.supported_quality_focuses.0 == 1,
        r.max_destination_region_size.width == 16384,
        r.max_destination_region_size.height == 16384,
        r.max_supported_concurrent_session_dispatches == 1,
{
    assert(1u32 | 8u32 == 9 && 1u32 | 2u32 | 4u32 | 8u32 | 0x200u32 | 0x80u32 | 0x100u32 | 0x400u32
        | 0x800u32 == 0xf8f && 1u32 | 4u32 | 8u32 | 2u32 == 0xf && 1u32 | 2u32 | 4u32 | 8u32
        | 0x10u32 | 0x40u32 == 0x5f && 4u32 | 8u32 | 2u32 == 0xe && 1u32 | 2u32 == 3 && 1u32 | 4u32
        | 2u32 == 7 && 1u32 | 2u32 | 4u32 | 8u32 | 0x10u32 | 0x40u32 | 0x80u32 | 0x100u32 | 0x200u32
        | 0x400u32 | 0x800u32 | 0x1000u32 | 0x2000u32 == 0x3fdf) by (bit_vector);
}

/// The backends manage memory and descriptors themselves: a session needs none of either, and
/// only without a backend can they not be asked about.
pub proof fn law_sessions_need_neither_memory_nor_descriptors(
    device: &Device,
    ci: &SuperResolutionSessionCreateInfo,
    m: VkResult<Vec<SuperResolutionSessionMemoryRequirements>>,
    h: VkResult<SuperResolutionDescriptorHeapRanges>,
)
    requires
        call_ensures(Device::get_super_resolution_session_memory_requirements, (device, ci), m),
        call_ensures(Device::get_super_resolution_session_descriptor_heap_ranges, (device, ci), h),
    ensures
        device.backend is Unavailable ==> m is Err && m->Err_0 == VkError::FeatureNotPresent,
        device.backend is Unavailable ==> h is Err && h->Err_0 == VkError::FeatureNotPresent,
        !(device.backend is Unavailable) ==> m is Ok && m->Ok_0@.len() == 0,
        !(device.backend is Unavailable) ==> h is Ok && h->Ok_0.resource_heap_size == 0
            && h->Ok_0.resource_heap_alignment == 0 && h->Ok_0.sampler_heap_size == 0
            && h->Ok_0.sampler_heap_alignment == 0,
{
}

/// A session is created exactly where the backend's library gave what it needs: Metal a
/// scaler, NGX a runtime. It belongs to its device; MetalFX's is the engine's own scaler, at
/// the address that Metal gave; DLSS's is what DLSS creates.
pub proof fn law_sessions_are_created_where_the_library_agrees(
    device: Device,
    ci: &SuperResolutionSessionCreateInfo,
    answer: BackendAnswer,
    r: VkResult<SuperResolutionSession>,
)
    requires
        device.backend == answer.backend(),
        device.backend is Unavailable || device.backend.knows(ci.engine),
        call_ensures(SuperResolutionSession::new, (device, ci, answer), r),
    ensures
        answer is Unavailable ==> r is Err && r->Err_0 == VkError::FeatureNotPresent,
        answer matches BackendAnswer::MetalFx(creation) ==> {
            &&& r is Ok <==> creation is Created
            &&& r matches Err(e) ==> e == VkError::InitializationFailed
            &&& r matches Ok(session) ==> {
                let address = creation->Created_0;
                &&& ci.engine.0 == 10 ==> session.state_of() == SessionState::MetalFx(
                    Scaler::Temporal(address),
                )
                &&& ci.engine.0 == 11 ==> session.state_of() == SessionState::MetalFx(
                    Scaler::Spatial(address),
                )
                &&& ci.engine.0 == 12 ==> session.state_of() == SessionState::MetalFx(
                    Scaler::Denoised(address),
                )
            }
        },
        answer matches BackendAnswer::Dlss(runtime) ==> {
            &&& r is Ok <==> runtime is Ok
            &&& r matches Err(e) ==> e == VkError::InitializationFailed
            &&& r matches Ok(session) ==> session.state_of() is Dlss && {
                let dlss = session.state_of()->Dlss_0;
                &&& dlss.feature is None
                &&& dlss.destination_extent == ci.destination_region_size
                &&& dlss.mv_scale_x == ci.motion_vector_scale_x
                &&& dlss.mv_scale_y == ci.motion_vector_scale_y
                &&& dlss.create_params.in_width == ci.max_source_region_size.width
                &&& dlss.create_params.in_height == ci.max_source_region_size.height
                &&& dlss.create_params.in_target_width == ci.destination_region_size.width
                &&& dlss.create_params.in_target_height == ci.destination_region_size.height
            }
        },
        r matches Ok(session) ==> session.device_of() == device,
{
}

/// A DLSS session of the interface is to be created from what its create info is made into.
pub proof fn law_dlss_sessions_hold_their_create_params(
    device: Device,
    ci: &SuperResolutionSessionCreateInfo,
    runtime: NgxRuntime,
    session: SuperResolutionSession,
    params: NVSDK_NGX_DLSSD_Create_Params,
)
    requires
        device.backend is Dlss,
        ci.engine.0 == 0,
        call_ensures(
            SuperResolutionSession::new,
            (device, ci, BackendAnswer::Dlss(Ok(runtime))),
            Ok(session),
        ),
        call_ensures(dlss::build_create_params, (ci,), params),
    ensures
        session.state_of() is Dlss,
        session.state_of()->Dlss_0.create_params == params,
{
}

/// What a device says of an engine is what the engine's backend says of it.
pub proof fn law_engine_properties_are_the_backends(
    device: &PhysicalDevice,
    engine: SuperResolutionEngine,
    r: SuperResolutionEngineProperties,
    d: SuperResolutionEngineProperties,
)
    requires
        call_ensures(
            PhysicalDevice::get_super_resolution_engine_properties,
            (device, engine),
            r,
        ),
        device.backend is Dlss && engine.0 == 0 && call_ensures(
            dlss::engine_properties,
            (device.vendor_id, engine),
            d,
        ) || device.backend is MetalFx && (engine.0 == 10 || engine.0 == 11 || engine.0 == 12)
            && call_ensures(
            metalfx::engine_properties,
            (device.vendor_id, device.temporal_scales, device.denoised_scales, engine),
            d,
        ),
    ensures
        r.engine_name@ == d.engine_name@,
        r.supported_scaling_factor_count == d.supported_scaling_factor_count,
        r.supported_scaling_factors@ == d.supported_scaling_factors@,
        r.flags == d.flags,
        r.image_used == d.image_used,
{
}

/// A session tells its own device and state, and there is no memory to bind.
pub proof fn law_sessions_tell_what_they_are(
    session: &SuperResolutionSession,
    device: Device,
    state: SessionState,
    infos: &[BindSuperResolutionSessionMemoryInfo],
    bound: VkResult<()>,
)
    requires
        call_ensures(SuperResolutionSession::device, (session,), device),
        call_ensures(SuperResolutionSession::state, (session,), state),
        call_ensures(SuperResolutionSession::bind_memory, (session, infos), bound),
    ensures
        device == session.device_of(),
        state == session.state_of(),
        bound is Ok,
{
}

/// A session recommends the pattern of its backend, and none where its engine is the spatial
/// scaler.
pub proof fn law_sessions_recommend_their_backends_pattern(
    session: &SuperResolutionSession,
    destination: Extent2D,
    source: Extent2D,
    r: VkResult<Vec<(Single, Single)>>,
    d: Vec<(Single, Single)>,
    m: Vec<(Single, Single)>,
)
    requires
        call_ensures(
            SuperResolutionSession::recommended_jitter_pattern,
            (session, destination, source),
            r,
        ),
        call_ensures(dlss::recommended_jitter_pattern, (destination, source), Ok(d)),
        call_ensures(
            Scaler::recommended_jitter_pattern,
            (&Scaler::Temporal(0), destination, source),
            Ok(m),
        ),
    ensures
        match session.state_of() {
            SessionState::Dlss(_) => r is Ok && r->Ok_0@ == d@,
            SessionState::MetalFx(Scaler::Spatial(_)) => r is Err && r->Err_0
                == VkError::FeatureNotPresent,
            SessionState::MetalFx(_) => r is Ok && r->Ok_0@ == m@,
        },
{
}

/// To initialize a session is to have NGX create its feature from the session's own params;
/// for MetalFX it is nothing.
pub proof fn law_initialization_creates_the_sessions_feature(
    session: SuperResolutionSession,
    commands: Seq<SuperResolutionCommand>,
)
    requires
        initializes(commands, session),
    ensures
        match session.state_of() {
            SessionState::MetalFx(_) => commands.len() == 0,
            SessionState::Dlss(dlss) => commands.len() == 1 && commands[0] is CreateDlssFeature
                && commands[0]->CreateDlssFeature_0 == dlss.create_params,
        },
{
}

/// A creation of the feature that succeeds gives the session its feature, hands back the one
/// that it replaces, and leaves the rest as it was; one that fails is the error itself and
/// leaves all as it was.
pub proof fn law_creation_gives_the_session_its_feature(
    session: &mut DlssSession,
    created: DlssResult<NgxFeature>,
    r: DlssResult<Option<NgxFeature>>,
)
    requires
        call_ensures(DlssSession::initialize_session, (session, created), r),
    ensures
        created matches Ok(feature) ==> final(session).feature == Some(feature) && r is Ok
            && r->Ok_0 == old(session).feature,
        created matches Err(e) ==> final(session).feature == old(session).feature && r is Err
            && r->Err_0 == e,
        final(session).create_params == old(session).create_params,
        final(session).destination_extent == old(session).destination_extent,
        final(session).mv_scale_x == old(session).mv_scale_x,
        final(session).mv_scale_y == old(session).mv_scale_y,
{
}

/// The same of a session of the interface: it keeps its device and stays a DLSS session.
pub proof fn law_creation_gives_the_interfaces_session_its_feature(
    session: &mut SuperResolutionSession,
    created: DlssResult<NgxFeature>,
    r: DlssResult<Option<NgxFeature>>,
)
    requires
        old(session).state_of() is Dlss,
        call_ensures(SuperResolutionSession::finish_initialization, (session, created), r),
    ensures
        final(session).device_of() == old(session).device_of(),
        final(session).state_of() is Dlss,
        ({
            let before = old(session).state_of()->Dlss_0;
            let after = final(session).state_of()->Dlss_0;
            &&& created matches Ok(feature) ==> after.feature == Some(feature) && r is Ok
                && r->Ok_0 == before.feature
            &&& created matches Err(e) ==> after.feature == before.feature && r is Err && r->Err_0
                == e
            &&& after.create_params == before.create_params
            &&& after.destination_extent == before.destination_extent
            &&& after.mv_scale_x == before.mv_scale_x
            &&& after.mv_scale_y == before.mv_scale_y
        }),
{
}

/// A list of commands starts out empty and is handed out as it was recorded.
pub proof fn law_commands_are_handed_out_as_recorded(
    empty: CommandEncoder,
    encoder: CommandEncoder,
    commands: Vec<SuperResolutionCommand>,
)
    requires
        call_ensures(CommandEncoder::new, (), empty),
        call_ensures(CommandEncoder::into_commands, (encoder,), commands),
    ensures
        empty.recorded().len() == 0,
        commands@ == encoder.recorded(),
{
}

/// To record an initialization adds the creation of the session's feature behind what was
/// recorded, and for MetalFX nothing.
pub proof fn law_recording_an_initialization_adds_its_creation(
    encoder: &mut CommandEncoder,
    session: &SuperResolutionSession,
)
    requires
        call_ensures(
            CommandEncoder::initialize_super_resolution_session,
            (encoder, session),
            (),
        ),
    ensures
        session.state_of() is MetalFx ==> final(encoder).recorded() == old(encoder).recorded(),
        session.state_of() matches SessionState::Dlss(dlss) ==> final(encoder).recorded() == old(
            encoder,
        ).recorded().push(SuperResolutionCommand::CreateDlssFeature(dlss.create_params)),
{
    let (before, after) = (old(encoder).recorded(), final(encoder).recorded());
    let n = before.len() as int;
    if session.state_of() is MetalFx {
        assert(after.skip(n).len() == 0);
        assert(after =~= after.take(n));
    } else {
        assert(after.skip(n).len() == 1);
        assert(after[n] == after.skip(n)[0]);
        assert(after =~= after.take(n).push(after[n]));
    }
}

/// To record a dispatch adds that dispatch, and nothing else, behind what was recorded.
pub proof fn law_recording_a_dispatch_adds_it(
    encoder: &mut CommandEncoder,
    session: &SuperResolutionSession,
    info: &SuperResolutionDispatchInfo,
)
    requires
        call_ensures(
            CommandEncoder::dispatch_super_resolution,
            (encoder, session, info),
            (),
        ),
    ensures
        final(encoder).recorded().len() == old(encoder).recorded().len() + 1,
        final(encoder).recorded().drop_last() == old(encoder).recorded(),
        is_dispatch_on(final(encoder).recorded().last(), *session, *info),
{
    law_recorded_dispatches_are_on_the_session(final(encoder).recorded().last(), *session, *info);
}

/// Whether a command is a dispatch on a session's own object and hands it all that the
/// dispatch carries: a scaler of the session's kind, or the session's feature; a session
/// without a feature skips the dispatch.
pub open spec fn is_dispatch_on(
    command: SuperResolutionCommand,
    session: SuperResolutionSession,
    info: SuperResolutionDispatchInfo,
) -> bool {
    &&& session.state_of() matches SessionState::MetalFx(scaler) ==> {
        &&& command is EncodeScaler
        &&& command->EncodeScaler_0 == scaler
        &&& scaler is Temporal ==> command->EncodeScaler_1 is Temporal && suits_temporal(
            command->EncodeScaler_1->Temporal_0,
            info,
        )
        &&& scaler is Denoised ==> command->EncodeScaler_1 is Denoised && suits_denoised(
            command->EncodeScaler_1->Denoised_0,
            info,
        )
        &&& scaler is Spatial ==> command->EncodeScaler_1 is Spatial && suits_spatial(
            command->EncodeScaler_1->Spatial_0,
            info,
        )
    }
    &&& session.state_of() matches SessionState::Dlss(dlss) ==> {
        &&& dlss.feature is None <==> command is SkipUninitialized
        &&& dlss.feature is Some ==> command is EvaluateDlss && reads_images(
            command->EvaluateDlss_0,
            dlss,
            info,
        ) && takes_numbers(command->EvaluateDlss_0, dlss, info) && keeps_matrices(
            command->EvaluateDlss_0,
            info,
        )
    }
}

/// A recorded dispatch is on the session's own object and hands it all that the dispatch carries.
pub proof fn law_recorded_dispatches_are_on_the_session(
    command: SuperResolutionCommand,
    session: SuperResolutionSession,
    info: SuperResolutionDispatchInfo,
)
    requires
        dispatches(command, session, info),
    ensures
        is_dispatch_on(command, session, info),
{
}

} // verus!
