//! What a session's scaler is created from.
use vstd::prelude::*;

use crate::engine::{is_hdr_format, reported};
use crate::flags::{SuperResolutionImageUseFlags, SuperResolutionSessionCreateFlags};
use crate::metalfx::{
    denoised_supported_images, is_known, spatial_supported_images, supported_images,
    temporal_color_formats, temporal_supported_images,
};
use crate::single::Single;
use crate::types::{
    SuperResolutionEngine, SuperResolutionImageProperties, SuperResolutionSessionCreateInfo,
};
use crate::vk::{Extent2D, Format, ImageUsageFlags, VkError, VkResult};

verus! {

/// An `MTLPixelFormat`, by its number.
#[derive(Clone, Copy, Debug, PartialEq, Eq, Hash, Structural)]
pub struct MTLPixelFormat(pub u64);

impl MTLPixelFormat {
    /// `MTLPixelFormatInvalid`.
    #[verifier::allow_in_spec]
    pub fn invalid() -> Self
        returns
            MTLPixelFormat(0),
    {
        MTLPixelFormat(0)
    }
}

/// Maps a Vulkan format to the Metal pixel format MetalFX expects, returning
/// [`MTLPixelFormat::invalid`] for [`Format::undefined`] (an absent image) or any unmapped
/// format.
#[verifier::allow_in_spec]
pub fn mtl_pixel_format(format: Format) -> MTLPixelFormat
    returns
        (if format == Format::r16g16b16a16_sfloat() {
            MTLPixelFormat(115)  // RGBA16Float
        } else if format == Format::r8g8b8a8_unorm() {
            MTLPixelFormat(70)  // RGBA8Unorm
        } else if format == Format::b8g8r8a8_unorm() {
            MTLPixelFormat(80)  // BGRA8Unorm
        } else if format == Format::a2b10g10r10_unorm_pack32() {
            MTLPixelFormat(90)  // RGB10A2Unorm
        } else if format == Format::r32_sfloat() {
            MTLPixelFormat(55)  // R32Float
        } else if format == Format::d32_sfloat() {
            MTLPixelFormat(252)  // Depth32Float
        } else if format == Format::r16g16_sfloat() {
            MTLPixelFormat(65)  // RG16Float
        } else if format == Format::r8_unorm() {
            MTLPixelFormat(10)  // R8Unorm
        } else if format == Format::r16_sfloat() {
            MTLPixelFormat(25)  // R16Float
        } else {
            MTLPixelFormat::invalid()
        }),
{
    if format == Format::r16g16b16a16_sfloat() {
        MTLPixelFormat(115)
    } else if format == Format::r8g8b8a8_unorm() {
        MTLPixelFormat(70)
    } else if format == Format::b8g8r8a8_unorm() {
        MTLPixelFormat(80)
    } else if format == Format::a2b10g10r10_unorm_pack32() {
        MTLPixelFormat(90)
    } else if format == Format::r32_sfloat() {
        MTLPixelFormat(55)
    } else if format == Format::d32_sfloat() {
        MTLPixelFormat(252)
    } else if format == Format::r16g16_sfloat() {
        MTLPixelFormat(65)
    } else if format == Format::r8_unorm() {
        MTLPixelFormat(10)
    } else if format == Format::r16_sfloat() {
        MTLPixelFormat(25)
    } else {
        MTLPixelFormat::invalid()
    }
}

/// Whether every entry has a Metal pixel format.
pub open spec fn all_mapped(properties: Seq<SuperResolutionImageProperties>) -> bool {
    forall|i: int|
        0 <= i < properties.len() ==> mtl_pixel_format((#[trigger] properties[i]).format)
            != MTLPixelFormat::invalid()
}

/// What is reported of formats that have a pixel format, behind entries that have one.
proof fn lemma_report_is_mapped(
    before: Seq<SuperResolutionImageProperties>,
    image_use: SuperResolutionImageUseFlags,
    flag: SuperResolutionImageUseFlags,
    formats: Seq<Format>,
    usage: ImageUsageFlags,
) -> (after: Seq<SuperResolutionImageProperties>)
    requires
        all_mapped(before),
        forall|i: int|
            0 <= i < formats.len() ==> mtl_pixel_format(#[trigger] formats[i])
                != MTLPixelFormat::invalid(),
    ensures
        after == before + reported(image_use, flag, formats, usage),
        all_mapped(after),
{
    let added = reported(image_use, flag, formats, usage);
    let after = before + added;
    assert forall|i: int| 0 <= i < after.len() implies mtl_pixel_format(
        (#[trigger] after[i]).format,
    ) != MTLPixelFormat::invalid() by {
        if i < before.len() {
            assert(after[i] == before[i]);
        } else {
            assert(after[i] == added[i - before.len()]);
            assert(added[i - before.len()].format == formats[i - before.len()]);
        }
    }
    after
}

proof fn lemma_temporal_formats_are_mapped(image_use: SuperResolutionImageUseFlags)
    ensures
        all_mapped(temporal_supported_images(image_use)),
{
    let s = Seq::<SuperResolutionImageProperties>::empty();
    let s = lemma_report_is_mapped(
        s,
        image_use,
        SuperResolutionImageUseFlags::source(),
        temporal_color_formats(),
        ImageUsageFlags::sampled(),
    );
    let s = lemma_report_is_mapped(
        s,
        image_use,
        SuperResolutionImageUseFlags::destination(),
        temporal_color_formats(),
        ImageUsageFlags::storage(),
    );
    let s = lemma_report_is_mapped(
        s,
        image_use,
        SuperResolutionImageUseFlags::depth(),
        seq![Format::r32_sfloat(), Format::d32_sfloat()],
        ImageUsageFlags::sampled(),
    );
    let s = lemma_report_is_mapped(
        s,
        image_use,
        SuperResolutionImageUseFlags::motion_vectors(),
        seq![Format::r16g16_sfloat()],
        ImageUsageFlags::sampled(),
    );
    let s = lemma_report_is_mapped(
        s,
        image_use,
        SuperResolutionImageUseFlags::reactive_mask(),
        seq![Format::r8_unorm()],
        ImageUsageFlags::sampled(),
    );
    let s = lemma_report_is_mapped(
        s,
        image_use,
        SuperResolutionImageUseFlags::exposure_scale(),
        seq![Format::r16_sfloat()],
        ImageUsageFlags::sampled(),
    );
    assert(s =~= temporal_supported_images(image_use));
}

proof fn lemma_spatial_formats_are_mapped(image_use: SuperResolutionImageUseFlags)
    ensures
        all_mapped(spatial_supported_images(image_use)),
{
    let s = Seq::<SuperResolutionImageProperties>::empty();
    let s = lemma_report_is_mapped(
        s,
        image_use,
        SuperResolutionImageUseFlags::source(),
        temporal_color_formats(),
        ImageUsageFlags::sampled(),
    );
    let s = lemma_report_is_mapped(
        s,
        image_use,
        SuperResolutionImageUseFlags::destination(),
        temporal_color_formats(),
        ImageUsageFlags::storage(),
    );
    assert(s =~= spatial_supported_images(image_use));
}

proof fn lemma_denoised_formats_are_mapped(image_use: SuperResolutionImageUseFlags)
    ensures
        all_mapped(denoised_supported_images(image_use)),
{
    let s = Seq::<SuperResolutionImageProperties>::empty();
    let s = lemma_report_is_mapped(
        s,
        image_use,
        SuperResolutionImageUseFlags::source(),
        temporal_color_formats(),
        ImageUsageFlags::sampled(),
    );
    let s = lemma_report_is_mapped(
        s,
        image_use,
        SuperResolutionImageUseFlags::destination(),
        temporal_color_formats(),
        ImageUsageFlags::storage(),
    );
    let s = lemma_report_is_mapped(
        s,
        image_use,
        SuperResolutionImageUseFlags::depth(),
        seq![Format::r32_sfloat(), Format::d32_sfloat()],
        ImageUsageFlags::sampled(),
    );
    let s = lemma_report_is_mapped(
        s,
        image_use,
        SuperResolutionImageUseFlags::motion_vectors(),
        seq![Format::r16g16_sfloat()],
        ImageUsageFlags::sampled(),
    );
    let s = lemma_report_is_mapped(
        s,
        image_use,
        SuperResolutionImageUseFlags::reactive_mask(),
        seq![Format::r8_unorm()],
        ImageUsageFlags::sampled(),
    );
    let s = lemma_report_is_mapped(
        s,
        image_use,
        SuperResolutionImageUseFlags::exposure_scale(),
        seq![Format::r16_sfloat()],
        ImageUsageFlags::sampled(),
    );
    let s = lemma_report_is_mapped(
        s,
        image_use,
        SuperResolutionImageUseFlags::diffuse_albedo(),
        temporal_color_formats(),
        ImageUsageFlags::sampled(),
    );
    let s = lemma_report_is_mapped(
        s,
        image_use,
        SuperResolutionImageUseFlags::specular_albedo(),
        temporal_color_formats(),
        ImageUsageFlags::sampled(),
    );
    let s = lemma_report_is_mapped(
        s,
        image_use,
        SuperResolutionImageUseFlags::normal(),
        seq![Format::r16g16b16a16_sfloat(), Format::a2b10g10r10_unorm_pack32()],
        ImageUsageFlags::sampled(),
    );
    let s = lemma_report_is_mapped(
        s,
        image_use,
        SuperResolutionImageUseFlags::roughness(),
        seq![Format::r8_unorm(), Format::r16_sfloat()],
        ImageUsageFlags::sampled(),
    );
    let s = lemma_report_is_mapped(
        s,
        image_use,
        SuperResolutionImageUseFlags::specular_hit_distance(),
        seq![Format::r16_sfloat(), Format::r32_sfloat()],
        ImageUsageFlags::sampled(),
    );
    let s = lemma_report_is_mapped(
        s,
        image_use,
        SuperResolutionImageUseFlags::denoise_strength_mask(),
        seq![Format::r8_unorm()],
        ImageUsageFlags::sampled(),
    );
    let s = lemma_report_is_mapped(
        s,
        image_use,
        SuperResolutionImageUseFlags::transparency_overlay(),
        seq![Format::r16g16b16a16_sfloat()],
        ImageUsageFlags::sampled(),
    );
    assert(s =~= denoised_supported_images(image_use));
}

/// Every format that an engine reports has a Metal pixel format.
pub proof fn law_reported_formats_have_a_pixel_format(
    engine: SuperResolutionEngine,
    image_use: SuperResolutionImageUseFlags,
)
    requires
        is_known(engine),
    ensures
        all_mapped(supported_images(engine, image_use)),
{
    lemma_temporal_formats_are_mapped(image_use);
    lemma_spatial_formats_are_mapped(image_use);
    lemma_denoised_formats_are_mapped(image_use);
}

/// No two formats share a Metal pixel format, but for those that have none.
pub proof fn law_pixel_formats_are_distinct(a: Format, b: Format)
    requires
        mtl_pixel_format(a) == mtl_pixel_format(b),
        mtl_pixel_format(a) != MTLPixelFormat::invalid(),
    ensures
        a == b,
{
}

/// The pixel format of an optional image: none where its format is undefined.
#[verifier::allow_in_spec]
pub fn optional_pixel_format(format: Format) -> Option<MTLPixelFormat>
    returns
        (if format != Format::undefined() {
            Some(mtl_pixel_format(format))
        } else {
            None
        }),
{
    if format != Format::undefined() {
        Some(mtl_pixel_format(format))
    } else {
        None
    }
}

/// What a temporal scaler is created from. An optional texture is enabled, with its format,
/// where there is one; a feature that is `false` is left as the descriptor has it.
#[derive(Clone, Copy, Debug, PartialEq, Eq, Hash, Structural)]
pub struct TemporalScalerDescriptor {
    pub color_texture_format: MTLPixelFormat,
    pub output_texture_format: MTLPixelFormat,
    pub depth_texture_format: MTLPixelFormat,
    pub motion_texture_format: MTLPixelFormat,
    pub input_size: Extent2D,
    pub output_size: Extent2D,
    pub reactive_mask_texture_format: Option<MTLPixelFormat>,
    pub auto_exposure_enabled: bool,
    pub input_content_properties_enabled: bool,
    pub jittered_motion_vectors_enabled: bool,
    pub output_resolution_motion_vectors_enabled: bool,
    /// Set on the scaler itself, once it is there.
    pub motion_vector_scale_x: Single,
    /// Set on the scaler itself, once it is there.
    pub motion_vector_scale_y: Single,
}

/// What a session's temporal scaler is created from.
#[verifier::allow_in_spec]
pub fn create_temporal_scaler(
    create_info: &SuperResolutionSessionCreateInfo,
) -> TemporalScalerDescriptor
    returns
        (TemporalScalerDescriptor {
            color_texture_format: mtl_pixel_format(create_info.source_format),
            output_texture_format: mtl_pixel_format(create_info.destination_format),
            depth_texture_format: mtl_pixel_format(create_info.source_depth_format),
            motion_texture_format: mtl_pixel_format(create_info.motion_vector_format),
            input_size: create_info.max_source_region_size,
            output_size: create_info.destination_region_size,
            reactive_mask_texture_format: optional_pixel_format(create_info.reactive_mask_format),
            auto_exposure_enabled: create_info.flags.contains(
                SuperResolutionSessionCreateFlags::use_auto_exposure(),
            ),
            input_content_properties_enabled: create_info.flags.contains(
                SuperResolutionSessionCreateFlags::dynamic_source_size(),
            ),
            jittered_motion_vectors_enabled: create_info.flags.contains(
                SuperResolutionSessionCreateFlags::motion_vectors_use_jitter(),
            ),
            output_resolution_motion_vectors_enabled: create_info.flags.contains(
                SuperResolutionSessionCreateFlags::motion_vectors_use_destination_dimensions(),
            ),
            motion_vector_scale_x: create_info.motion_vector_scale_x,
            motion_vector_scale_y: create_info.motion_vector_scale_y,
        }),
{
    TemporalScalerDescriptor {
        color_texture_format: mtl_pixel_format(create_info.source_format),
        output_texture_format: mtl_pixel_format(create_info.destination_format),
        depth_texture_format: mtl_pixel_format(create_info.source_depth_format),
        motion_texture_format: mtl_pixel_format(create_info.motion_vector_format),
        input_size: create_info.max_source_region_size,
        output_size: create_info.destination_region_size,
        reactive_mask_texture_format: optional_pixel_format(create_info.reactive_mask_format),
        auto_exposure_enabled: create_info.flags.contains(
            SuperResolutionSessionCreateFlags::use_auto_exposure(),
        ),
        input_content_properties_enabled: create_info.flags.contains(
            SuperResolutionSessionCreateFlags::dynamic_source_size(),
        ),
        jittered_motion_vectors_enabled: create_info.flags.contains(
            SuperResolutionSessionCreateFlags::motion_vectors_use_jitter(),
        ),
        output_resolution_motion_vectors_enabled: create_info.flags.contains(
            SuperResolutionSessionCreateFlags::motion_vectors_use_destination_dimensions(),
        ),
        motion_vector_scale_x: create_info.motion_vector_scale_x,
        motion_vector_scale_y: create_info.motion_vector_scale_y,
    }
}

/// What a temporal denoised scaler is created from. The four G-buffer inputs are mandatory
/// for the denoiser. An optional texture is enabled, with its format, where there is one; a
/// feature that is `false` is left as the descriptor has it.
#[derive(Clone, Copy, Debug, PartialEq, Eq, Hash, Structural)]
pub struct TemporalDenoisedScalerDescriptor {
    pub color_texture_format: MTLPixelFormat,
    pub output_texture_format: MTLPixelFormat,
    pub depth_texture_format: MTLPixelFormat,
    pub motion_texture_format: MTLPixelFormat,
    pub diffuse_albedo_texture_format: MTLPixelFormat,
    pub specular_albedo_texture_format: MTLPixelFormat,
    pub normal_texture_format: MTLPixelFormat,
    pub roughness_texture_format: MTLPixelFormat,
    pub input_size: Extent2D,
    pub output_size: Extent2D,
    pub reactive_mask_texture_format: Option<MTLPixelFormat>,
    pub specular_hit_distance_texture_format: Option<MTLPixelFormat>,
    pub denoise_strength_mask_texture_format: Option<MTLPixelFormat>,
    pub transparency_overlay_texture_format: Option<MTLPixelFormat>,
    pub auto_exposure_enabled: bool,
    /// Set on the scaler itself, once it is there.
    pub motion_vector_scale_x: Single,
    /// Set on the scaler itself, once it is there.
    pub motion_vector_scale_y: Single,
}

/// What a session's temporal denoised scaler is created from.
#[verifier::allow_in_spec]
pub fn create_temporal_denoised_scaler(
    create_info: &SuperResolutionSessionCreateInfo,
) -> TemporalDenoisedScalerDescriptor
    returns
        (TemporalDenoisedScalerDescriptor {
            color_texture_format: mtl_pixel_format(create_info.source_format),
            output_texture_format: mtl_pixel_format(create_info.destination_format),
            depth_texture_format: mtl_pixel_format(create_info.source_depth_format),
            motion_texture_format: mtl_pixel_format(create_info.motion_vector_format),
            diffuse_albedo_texture_format: mtl_pixel_format(create_info.diffuse_albedo_format),
            specular_albedo_texture_format: mtl_pixel_format(create_info.specular_albedo_format),
            normal_texture_format: mtl_pixel_format(create_info.normal_format),
            roughness_texture_format: mtl_pixel_format(create_info.roughness_format),
            input_size: create_info.max_source_region_size,
            output_size: create_info.destination_region_size,
            reactive_mask_texture_format: optional_pixel_format(create_info.reactive_mask_format),
            specular_hit_distance_texture_format: optional_pixel_format(
                create_info.specular_hit_distance_format,
            ),
            denoise_strength_mask_texture_format: optional_pixel_format(
                create_info.denoise_strength_mask_format,
            ),
            transparency_overlay_texture_format: optional_pixel_format(
                create_info.transparency_overlay_format,
            ),
            auto_exposure_enabled: create_info.flags.contains(
                SuperResolutionSessionCreateFlags::use_auto_exposure(),
            ),
            motion_vector_scale_x: create_info.motion_vector_scale_x,
            motion_vector_scale_y: create_info.motion_vector_scale_y,
        }),
{
    TemporalDenoisedScalerDescriptor {
        color_texture_format: mtl_pixel_format(create_info.source_format),
        output_texture_format: mtl_pixel_format(create_info.destination_format),
        depth_texture_format: mtl_pixel_format(create_info.source_depth_format),
        motion_texture_format: mtl_pixel_format(create_info.motion_vector_format),
        diffuse_albedo_texture_format: mtl_pixel_format(create_info.diffuse_albedo_format),
        specular_albedo_texture_format: mtl_pixel_format(create_info.specular_albedo_format),
        normal_texture_format: mtl_pixel_format(create_info.normal_format),
        roughness_texture_format: mtl_pixel_format(create_info.roughness_format),
        input_size: create_info.max_source_region_size,
        output_size: create_info.destination_region_size,
        reactive_mask_texture_format: optional_pixel_format(create_info.reactive_mask_format),
        specular_hit_distance_texture_format: optional_pixel_format(
            create_info.specular_hit_distance_format,
        ),
        denoise_strength_mask_texture_format: optional_pixel_format(
            create_info.denoise_strength_mask_format,
        ),
        transparency_overlay_texture_format: optional_pixel_format(
            create_info.transparency_overlay_format,
        ),
        auto_exposure_enabled: create_info.flags.contains(
            SuperResolutionSessionCreateFlags::use_auto_exposure(),
        ),
        motion_vector_scale_x: create_info.motion_vector_scale_x,
        motion_vector_scale_y: create_info.motion_vector_scale_y,
    }
}

/// How a spatial scaler processes colors.
#[derive(Clone, Copy, Debug, PartialEq, Eq, Hash, Structural)]
pub enum MTLFXSpatialScalerColorProcessingMode {
    Perceptual,
    Linear,
    HDR,
}

/// What a spatial scaler is created from.
#[derive(Clone, Copy, Debug, PartialEq, Eq, Hash, Structural)]
pub struct SpatialScalerDescriptor {
    pub color_texture_format: MTLPixelFormat,
    pub output_texture_format: MTLPixelFormat,
    pub input_size: Extent2D,
    pub output_size: Extent2D,
    pub color_processing_mode: MTLFXSpatialScalerColorProcessingMode,
}

/// What a session's spatial scaler is created from.
///
/// There is no dedicated color-space field in the create-info, so it is inferred: an
/// explicit LDR request, or an HDR (float) source format, else the perceptual default.
#[verifier::allow_in_spec]
pub fn create_spatial_scaler(
    create_info: &SuperResolutionSessionCreateInfo,
) -> SpatialScalerDescriptor
    returns
        (SpatialScalerDescriptor {
            color_texture_format: mtl_pixel_format(create_info.source_format),
            output_texture_format: mtl_pixel_format(create_info.destination_format),
            input_size: create_info.max_source_region_size,
            output_size: create_info.destination_region_size,
            color_processing_mode: if !create_info.flags.contains(
                SuperResolutionSessionCreateFlags::force_ldr_colors(),
            ) && is_hdr_format(create_info.source_format) {
                MTLFXSpatialScalerColorProcessingMode::HDR
            } else {
                MTLFXSpatialScalerColorProcessingMode::Perceptual
            },
        }),
{
    let color_processing_mode = if !create_info.flags.contains(
        SuperResolutionSessionCreateFlags::force_ldr_colors(),
    ) && is_hdr_format(create_info.source_format) {
        MTLFXSpatialScalerColorProcessingMode::HDR
    } else {
        MTLFXSpatialScalerColorProcessingMode::Perceptual
    };
    SpatialScalerDescriptor {
        color_texture_format: mtl_pixel_format(create_info.source_format),
        output_texture_format: mtl_pixel_format(create_info.destination_format),
        input_size: create_info.max_source_region_size,
        output_size: create_info.destination_region_size,
        color_processing_mode,
    }
}

/// What a session's scaler is created from.
#[derive(Clone, Copy, Debug, PartialEq, Eq, Hash, Structural)]
pub enum ScalerDescriptor {
    Temporal(TemporalScalerDescriptor),
    Denoised(TemporalDenoisedScalerDescriptor),
    Spatial(SpatialScalerDescriptor),
}

/// A live MetalFX scaler, by the address of its object.
#[derive(Clone, Copy, Debug, PartialEq, Eq, Hash, Structural)]
pub enum Scaler {
    Temporal(u64),
    Denoised(u64),
    Spatial(u64),
}

/// What the scaler of a session is created from, by the session's engine.
pub fn scaler_descriptor(create_info: &SuperResolutionSessionCreateInfo) -> (r: ScalerDescriptor)
    requires
        is_known(create_info.engine),
    ensures
        r == (if create_info.engine == SuperResolutionEngine::metalfx_temporal_scaler() {
            ScalerDescriptor::Temporal(create_temporal_scaler(create_info))
        } else if create_info.engine == SuperResolutionEngine::metalfx_spatial_scaler() {
            ScalerDescriptor::Spatial(create_spatial_scaler(create_info))
        } else {
            ScalerDescriptor::Denoised(create_temporal_denoised_scaler(create_info))
        }),
{
    if create_info.engine == SuperResolutionEngine::metalfx_temporal_scaler() {
        ScalerDescriptor::Temporal(create_temporal_scaler(create_info))
    } else if create_info.engine == SuperResolutionEngine::metalfx_spatial_scaler() {
        ScalerDescriptor::Spatial(create_spatial_scaler(create_info))
    } else {
        ScalerDescriptor::Denoised(create_temporal_denoised_scaler(create_info))
    }
}

/// How the creation of a scaler ended.
#[derive(Clone, Copy, Debug, PartialEq, Eq, Hash, Structural)]
pub enum ScalerCreation {
    /// The Metal 4 compiler that a scaler needs could not be created.
    NoCompiler,
    /// Metal returned no scaler.
    NoScaler,
    /// Metal returned a scaler, at this address.
    Created(u64),
}

/// The scaler of an engine, at the given address.
#[verifier::allow_in_spec]
pub fn scaler_of(engine: SuperResolutionEngine, address: u64) -> Scaler
    returns
        (if engine == SuperResolutionEngine::metalfx_temporal_scaler() {
            Scaler::Temporal(address)
        } else if engine == SuperResolutionEngine::metalfx_spatial_scaler() {
            Scaler::Spatial(address)
        } else {
            Scaler::Denoised(address)
        }),
{
    if engine == SuperResolutionEngine::metalfx_temporal_scaler() {
        Scaler::Temporal(address)
    } else if engine == SuperResolutionEngine::metalfx_spatial_scaler() {
        Scaler::Spatial(address)
    } else {
        Scaler::Denoised(address)
    }
}

/// Creates a MetalFX session: the scaler of the session's engine, if Metal returned one.
pub fn create_session(
    create_info: &SuperResolutionSessionCreateInfo,
    creation: ScalerCreation,
) -> (r: VkResult<Scaler>)
    requires
        is_known(create_info.engine),
    ensures
        r == (match creation {
            ScalerCreation::Created(address) => Ok(scaler_of(create_info.engine, address)),
            _ => Err(VkError::InitializationFailed),
        }),
{
    match creation {
        ScalerCreation::Created(address) => Ok(scaler_of(create_info.engine, address)),
        _ => Err(VkError::InitializationFailed),
    }
}

/// A spatial scaler processes colors as HDR exactly where DLSS-RR is told that they are.
pub proof fn law_hdr_is_decided_alike(create_info: SuperResolutionSessionCreateInfo)
    ensures
        create_spatial_scaler(&create_info).color_processing_mode
            == MTLFXSpatialScalerColorProcessingMode::HDR <==> crate::dlss::create_params_of(
            create_info,
        ).in_feature_create_flags.is_hdr,
{
}

} // verus!
