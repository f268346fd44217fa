//! What sessions are created from.
use vstd::prelude::*;

use crate::dlss;
use crate::dlss::runtime::NgxRuntime;
use crate::dlss::sys::{
    DlssResult, NVSDK_NGX_DLSSD_Create_Params, NVSDK_NGX_DLSS_Denoise_Mode,
    NVSDK_NGX_DLSS_Depth_Type, NVSDK_NGX_DLSS_Roughness_Mode, NVSDK_NGX_PerfQuality_Value,
};
use crate::dlss::{build_create_params, perf_quality_for, DlssSession};
use crate::metalfx;
use crate::metalfx::{
    create_spatial_scaler, create_temporal_denoised_scaler, create_temporal_scaler,
    mtl_pixel_format, optional_pixel_format, scaler_descriptor,
    MTLFXSpatialScalerColorProcessingMode, MTLPixelFormat, Scaler, ScalerCreation,
    ScalerDescriptor, SpatialScalerDescriptor, TemporalDenoisedScalerDescriptor,
    TemporalScalerDescriptor,
};
use crate::types::SuperResolutionSessionCreateInfo;
use crate::vk::{Extent2D, Format, VkError, VkResult};

verus! {

/// Each choice that NGX is told of follows one flag of the create info and no other: each is
/// on exactly where the flag's own bit is set.
pub proof fn law_create_params_follow_their_own_flags(
    ci: &SuperResolutionSessionCreateInfo,
    p: NVSDK_NGX_DLSSD_Create_Params,
)
    requires
        call_ensures(build_create_params, (ci,), p),
    ensures
        p.in_feature_create_flags.mv_low_res <==> ci.flags.0 & 0x2 != 0x2,
        p.in_feature_create_flags.mv_jittered <==> ci.flags.0 & 0x4 == 0x4,
        p.in_enable_output_subrects <==> ci.flags.0 & 0x8 == 0x8,
        p.in_use_hw_depth == NVSDK_NGX_DLSS_Depth_Type::Linear <==> ci.flags.0 & 0x10 == 0x10,
        p.in_use_hw_depth == NVSDK_NGX_DLSS_Depth_Type::HW <==> ci.flags.0 & 0x10 != 0x10,
        p.in_feature_create_flags.depth_inverted <==> ci.flags.0 & 0x20 == 0x20,
        p.in_feature_create_flags.auto_exposure <==> ci.flags.0 & 0x80 == 0x80,
{
}

/// To change any other flag leaves a choice as it is: create infos that agree in a flag's bit
/// agree in what NGX is told for it, whatever else they differ in.
pub proof fn law_other_flags_leave_a_choice_alone(
    a: &SuperResolutionSessionCreateInfo,
    b: &SuperResolutionSessionCreateInfo,
    p: NVSDK_NGX_DLSSD_Create_Params,
    q: NVSDK_NGX_DLSSD_Create_Params,
)
    requires
        call_ensures(build_create_params, (a,), p),
        call_ensures(build_create_params, (b,), q),
    ensures
        a.flags.0 & 0x2 == b.flags.0 & 0x2 <==> p.in_feature_create_flags.mv_low_res
            == q.in_feature_create_flags.mv_low_res,
        a.flags.0 & 0x4 == b.flags.0 & 0x4 <==> p.in_feature_create_flags.mv_jittered
            == q.in_feature_create_flags.mv_jittered,
        a.flags.0 & 0x8 == b.flags.0 & 0x8 <==> p.in_enable_output_subrects
            == q.in_enable_output_subrects,
        a.flags.0 & 0x10 == b.flags.0 & 0x10 <==> p.in_use_hw_depth == q.in_use_hw_depth,
        a.flags.0 & 0x20 == b.flags.0 & 0x20 <==> p.in_feature_create_flags.depth_inverted
            == q.in_feature_create_flags.depth_inverted,
        a.flags.0 & 0x80 == b.flags.0 & 0x80 <==> p.in_feature_create_flags.auto_exposure
            == q.in_feature_create_flags.auto_exposure,
{
    let (x, y) = (a.flags.0, b.flags.0);
    assert((x & 2 == 2 || x & 2 == 0) && (x & 4 == 4 || x & 4 == 0) && (x & 8 == 8 || x & 8 == 0)
        && (x & 16 == 16 || x & 16 == 0) && (x & 32 == 32 || x & 32 == 0) && (x & 128 == 128 || x
        & 128 == 0)) by (bit_vector);
    assert((y & 2 == 2 || y & 2 == 0) && (y & 4 == 4 || y & 4 == 0) && (y & 8 == 8 || y & 8 == 0)
        && (y & 16 == 16 || y & 16 == 0) && (y & 32 == 32 || y & 32 == 0) && (y & 128 == 128 || y
        & 128 == 0)) by (bit_vector);
}

/// Colors are HDR exactly where the source is in one of the two formats of four floating-point
/// channels and bit 0x100, which forces LDR, is not set.
pub proof fn law_colors_are_hdr_unless_forced(
    ci: &SuperResolutionSessionCreateInfo,
    p: NVSDK_NGX_DLSSD_Create_Params,
    s: SpatialScalerDescriptor,
)
    requires
        call_ensures(build_create_params, (ci,), p),
        call_ensures(create_spatial_scaler, (ci,), s),
    ensures
        p.in_feature_create_flags.is_hdr <==> (ci.source_format == Format::r16g16b16a16_sfloat()
            || ci.source_format == Format::r32g32b32a32_sfloat()) && ci.flags.0 & 0x100 != 0x100,
        s.color_processing_mode == MTLFXSpatialScalerColorProcessingMode::HDR
            <==> p.in_feature_create_flags.is_hdr,
        s.color_processing_mode == MTLFXSpatialScalerColorProcessingMode::Perceptual
            <==> !p.in_feature_create_flags.is_hdr,
{
}

/// The sizes are the create info's: what is rendered at most, and what it is scaled to.
/// Roughness is packed into the normals exactly where it has no format of its own. Denoising
/// is DLSS-RR's own.
pub proof fn law_create_params_have_the_sessions_sizes(
    ci: &SuperResolutionSessionCreateInfo,
    p: NVSDK_NGX_DLSSD_Create_Params,
)
    requires
        call_ensures(build_create_params, (ci,), p),
    ensures
        p.in_width == ci.max_source_region_size.width,
        p.in_height == ci.max_source_region_size.height,
        p.in_target_width == ci.destination_region_size.width,
        p.in_target_height == ci.destination_region_size.height,
        p.in_roughness_mode == NVSDK_NGX_DLSS_Roughness_Mode::Packed <==> ci.roughness_format
            == Format::undefined(),
        p.in_roughness_mode == NVSDK_NGX_DLSS_Roughness_Mode::Unpacked <==> ci.roughness_format
            != Format::undefined(),
        p.in_denoise_mode == NVSDK_NGX_DLSS_Denoise_Mode::DLUnified,
{
}

/// How much each quality mode upscales, in seventieths: 1, 13/10, 3/2, 12/7, 2 and 3.
pub open spec fn seventieths(q: NVSDK_NGX_PerfQuality_Value) -> int {
    match q {
        NVSDK_NGX_PerfQuality_Value::DLAA => 70,
        NVSDK_NGX_PerfQuality_Value::UltraQuality => 91,
        NVSDK_NGX_PerfQuality_Value::MaxQuality => 105,
        NVSDK_NGX_PerfQuality_Value::Balanced => 120,
        NVSDK_NGX_PerfQuality_Value::MaxPerf => 140,
        NVSDK_NGX_PerfQuality_Value::UltraPerformance => 210,
    }
}

/// How far a quality mode is from the ratio of two widths, times seventy source widths.
pub open spec fn off_by(d: int, s: int, q: NVSDK_NGX_PerfQuality_Value) -> int {
    vstd::math::abs(70 * d - seventieths(q) * s) as int
}

/// No quality mode upscales by more nearly the ratio of the widths than the one chosen, and
/// of two that are equally near the larger is chosen. A source without width counts as one
/// texel wide; heights have no part in it.
pub proof fn law_quality_mode_is_the_nearest(
    destination: Extent2D,
    source: Extent2D,
    q: NVSDK_NGX_PerfQuality_Value,
    other: NVSDK_NGX_PerfQuality_Value,
)
    requires
        call_ensures(perf_quality_for, (destination, source), q),
    ensures
        ({
            let (d, s) = (destination.width as int, vstd::math::max(source.width as int, 1));
            &&& off_by(d, s, q) <= off_by(d, s, other)
            &&& off_by(d, s, q) == off_by(d, s, other) ==> seventieths(other) <= seventieths(q)
        }),
{
    let (d, s) = (destination.width as int, vstd::math::max(source.width as int, 1));
    lemma_off_by(d, s, q);
    lemma_off_by(d, s, other);
}

proof fn lemma_off_by(d: int, s: int, q: NVSDK_NGX_PerfQuality_Value)
    ensures
        off_by(d, s, q) == (match q {
            NVSDK_NGX_PerfQuality_Value::DLAA => vstd::math::abs(70 * d - 70 * s),
            NVSDK_NGX_PerfQuality_Value::UltraQuality => vstd::math::abs(70 * d - 91 * s),
            NVSDK_NGX_PerfQuality_Value::MaxQuality => vstd::math::abs(70 * d - 105 * s),
            NVSDK_NGX_PerfQuality_Value::Balanced => vstd::math::abs(70 * d - 120 * s),
            NVSDK_NGX_PerfQuality_Value::MaxPerf => vstd::math::abs(70 * d - 140 * s),
            NVSDK_NGX_PerfQuality_Value::UltraPerformance => vstd::math::abs(70 * d - 210 * s),
        }),
{
}

/// A session's quality mode is the one for its destination and its largest source.
pub proof fn law_create_params_have_the_nearest_quality(
    ci: &SuperResolutionSessionCreateInfo,
    p: NVSDK_NGX_DLSSD_Create_Params,
    other: NVSDK_NGX_PerfQuality_Value,
)
    requires
        call_ensures(build_create_params, (ci,), p),
    ensures
        ({
            let d = ci.destination_region_size.width as int;
            let s = vstd::math::max(ci.max_source_region_size.width as int, 1);
            &&& off_by(d, s, p.in_perf_quality_value) <= off_by(d, s, other)
            &&& off_by(d, s, p.in_perf_quality_value) == off_by(d, s, other) ==> seventieths(other)
                <= seventieths(p.in_perf_quality_value)
        }),
{
    let d = ci.destination_region_size.width as int;
    let s = vstd::math::max(ci.max_source_region_size.width as int, 1);
    lemma_off_by(d, s, p.in_perf_quality_value);
    lemma_off_by(d, s, other);
}

/// A DLSS session is created exactly where there is a runtime. It holds the params for its
/// create info, its destination's size and its motion scales, and has no feature yet.
pub proof fn law_dlss_sessions_hold_their_create_info(
    ci: &SuperResolutionSessionCreateInfo,
    runtime: DlssResult<NgxRuntime>,
    r: VkResult<DlssSession>,
    p: NVSDK_NGX_DLSSD_Create_Params,
)
    requires
        ci.engine.0 == 0,
        call_ensures(dlss::create_session, (ci, runtime), r),
        call_ensures(build_create_params, (ci,), p),
    ensures
        r is Ok <==> runtime is Ok,
        r matches Err(e) ==> e == VkError::InitializationFailed,
        r matches Ok(session) ==> {
            &&& session.create_params == p
            &&& session.feature is None
            &&& session.destination_extent.width == ci.destination_region_size.width
            &&& session.destination_extent.height == ci.destination_region_size.height
            &&& session.mv_scale_x == ci.motion_vector_scale_x
            &&& session.mv_scale_y == ci.motion_vector_scale_y
        },
{
}

/// Each format has the pixel format of the same channels in Metal; formats without one, the
/// undefined format among them, have none.
pub proof fn law_pixel_formats_are_metals(format: Format, m: MTLPixelFormat)
    requires
        call_ensures(mtl_pixel_format, (format,), m),
    ensures
        m.0 == 10 <==> format == Format::r8_unorm(),
        m.0 == 25 <==> format == Format::r16_sfloat(),
        m.0 == 55 <==> format == Format::r32_sfloat(),
        m.0 == 65 <==> format == Format::r16g16_sfloat(),
        m.0 == 70 <==> format == Format::r8g8b8a8_unorm(),
        m.0 == 80 <==> format == Format::b8g8r8a8_unorm(),
        m.0 == 90 <==> format == Format::a2b10g10r10_unorm_pack32(),
        m.0 == 115 <==> format == Format::r16g16b16a16_sfloat(),
        m.0 == 252 <==> format == Format::d32_sfloat(),
        m.0 == 0 || m.0 == 10 || m.0 == 25 || m.0 == 55 || m.0 == 65 || m.0 == 70 || m.0 == 80
            || m.0 == 90 || m.0 == 115 || m.0 == 252,
{
}

/// An optional image has a pixel format exactly where its format is defined.
pub proof fn law_optional_pixel_format_follows_the_format(
    format: Format,
    r: Option<MTLPixelFormat>,
    m: MTLPixelFormat,
)
    requires
        call_ensures(optional_pixel_format, (format,), r),
        call_ensures(mtl_pixel_format, (format,), m),
    ensures
        r is Some <==> format.0 != 0,
        r matches Some(p) ==> p == m,
{
}

/// Whether an optional texture of a descriptor is enabled exactly where its format is
/// defined, with that format's pixel format.
pub open spec fn enables(texture: Option<MTLPixelFormat>, format: Format) -> bool {
    &&& texture is Some <==> format.0 != 0
    &&& texture matches Some(m) ==> m == mtl_pixel_format(format)
}

/// A temporal scaler's textures have the formats of the create info, each its own, and its
/// sizes and motion scales are the create info's.
pub proof fn law_temporal_scaler_has_the_sessions_formats(
    ci: &SuperResolutionSessionCreateInfo,
    d: TemporalScalerDescriptor,
)
    requires
        call_ensures(create_temporal_scaler, (ci,), d),
    ensures
        d.color_texture_format == mtl_pixel_format(ci.source_format),
        d.output_texture_format == mtl_pixel_format(ci.destination_format),
        d.depth_texture_format == mtl_pixel_format(ci.source_depth_format),
        d.motion_texture_format == mtl_pixel_format(ci.motion_vector_format),
        enables(d.reactive_mask_texture_format, ci.reactive_mask_format),
        d.input_size == ci.max_source_region_size,
        d.output_size == ci.destination_region_size,
        d.motion_vector_scale_x == ci.motion_vector_scale_x,
        d.motion_vector_scale_y == ci.motion_vector_scale_y,
{
}

/// What a temporal scaler enables follows one flag each: a dynamic source size bit 0x1, motion
/// vectors of the destination's size bit 0x2, jittered motion vectors bit 0x4, auto exposure
/// bit 0x80.
pub proof fn law_temporal_scaler_follows_its_own_flags(
    ci: &SuperResolutionSessionCreateInfo,
    d: TemporalScalerDescriptor,
)
    requires
        call_ensures(create_temporal_scaler, (ci,), d),
    ensures
        d.input_content_properties_enabled <==> ci.flags.0 & 0x1 == 0x1,
        d.output_resolution_motion_vectors_enabled <==> ci.flags.0 & 0x2 == 0x2,
        d.jittered_motion_vectors_enabled <==> ci.flags.0 & 0x4 == 0x4,
        d.auto_exposure_enabled <==> ci.flags.0 & 0x80 == 0x80,
{
}

/// A denoised scaler's textures have the formats of the create info, each its own; the
/// optional ones are enabled exactly where their format is defined; auto exposure follows bit
/// 0x80.
pub proof fn law_denoised_scaler_has_the_sessions_formats(
    ci: &SuperResolutionSessionCreateInfo,
    d: TemporalDenoisedScalerDescriptor,
)
    requires
        call_ensures(create_temporal_denoised_scaler, (ci,), d),
    ensures
        d.color_texture_format == mtl_pixel_format(ci.source_format),
        d.output_texture_format == mtl_pixel_format(ci.destination_format),
        d.depth_texture_format == mtl_pixel_format(ci.source_depth_format),
        d.motion_texture_format == mtl_pixel_format(ci.motion_vector_format),
        d.diffuse_albedo_texture_format == mtl_pixel_format(ci.diffuse_albedo_format),
        d.specular_albedo_texture_format == mtl_pixel_format(ci.specular_albedo_format),
        d.normal_texture_format == mtl_pixel_format(ci.normal_format),
        d.roughness_texture_format == mtl_pixel_format(ci.roughness_format),
        enables(d.reactive_mask_texture_format, ci.reactive_mask_format),
        enables(d.specular_hit_distance_texture_format, ci.specular_hit_distance_format),
        enables(d.denoise_strength_mask_texture_format, ci.denoise_strength_mask_format),
        enables(d.transparency_overlay_texture_format, ci.transparency_overlay_format),
        d.input_size == ci.max_source_region_size,
        d.output_size == ci.destination_region_size,
        d.motion_vector_scale_x == ci.motion_vector_scale_x,
        d.motion_vector_scale_y == ci.motion_vector_scale_y,
        d.auto_exposure_enabled <==> ci.flags.0 & 0x80 == 0x80,
{
}

/// A spatial scaler has the color formats and the sizes of the create info.
pub proof fn law_spatial_scaler_has_the_sessions_formats(
    ci: &SuperResolutionSessionCreateInfo,
    d: SpatialScalerDescriptor,
)
    requires
        call_ensures(create_spatial_scaler, (ci,), d),
    ensures
        d.color_texture_format == mtl_pixel_format(ci.source_format),
        d.output_texture_format == mtl_pixel_format(ci.destination_format),
        d.input_size == ci.max_source_region_size,
        d.output_size == ci.destination_region_size,
{
}

/// Each engine's session is described by its own scaler, and what it becomes, where Metal
/// returned one, is that scaler: engine 10 is temporal, 11 spatial, 12 denoised.
pub proof fn law_engines_have_their_own_scaler(
    ci: &SuperResolutionSessionCreateInfo,
    d: ScalerDescriptor,
    creation: ScalerCreation,
    r: VkResult<Scaler>,
)
    requires
        ci.engine.0 == 10 || ci.engine.0 == 11 || ci.engine.0 == 12,
        call_ensures(scaler_descriptor, (ci,), d),
        call_ensures(metalfx::create_session, (ci, creation), r),
    ensures
        d is Temporal <==> ci.engine.0 == 10,
        d is Spatial <==> ci.engine.0 == 11,
        d is Denoised <==> ci.engine.0 == 12,
        d matches ScalerDescriptor::Temporal(t) ==> t == create_temporal_scaler(ci),
        d matches ScalerDescriptor::Spatial(t) ==> t == create_spatial_scaler(ci),
        d matches ScalerDescriptor::Denoised(t) ==> t == create_temporal_denoised_scaler(ci),
        r is Ok <==> creation is Created,
        r matches Err(e) ==> e == VkError::InitializationFailed,
        creation matches ScalerCreation::Created(address) ==> {
            &&& ci.engine.0 == 10 ==> r == Ok::<Scaler, VkError>(Scaler::Temporal(address))
            &&& ci.engine.0 == 11 ==> r == Ok::<Scaler, VkError>(Scaler::Spatial(address))
            &&& ci.engine.0 == 12 ==> r == Ok::<Scaler, VkError>(Scaler::Denoised(address))
        },
{
}

} // verus!
