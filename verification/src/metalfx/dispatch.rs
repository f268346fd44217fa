//! What a dispatch sets on a session's scaler.
use vstd::prelude::*;

use crate::flags::SuperResolutionDispatchFlags;
use crate::jitter::{
    law_patterns_are_prefixes, law_phases_are_bounded, law_phases_count_up,
    law_phases_keep_order, law_ratio_keeps_order, phases, phases_of, position_stays_in_texel,
    ratio_of, texel_offsets, texel_pattern, upscale_ratio,
};
use crate::metalfx::{engines, Scaler};
use crate::radical::{law_positions_are_distinct, law_short_patterns_are_texel_patterns};
use crate::rounding::one;
use crate::single::Single;
use crate::types::{SuperResolutionDispatchInfo, SuperResolutionImageInfo};
use crate::vk::{Extent2D, Image, Offset2D, VkError, VkResult};

verus! {

/// Clamps a Vulkan offset into the non-negative pair MetalFX's content-offset properties
/// expect.
#[verifier::allow_in_spec]
pub fn offset_xy(offset: Offset2D) -> (usize, usize)
    returns
        (
            (if offset.x < 0 {
                0usize
            } else {
                offset.x as usize
            }),
            (if offset.y < 0 {
                0usize
            } else {
                offset.y as usize
            }),
        ),
{
    let x: usize = if offset.x < 0 {
        0
    } else {
        offset.x as usize
    };
    let y: usize = if offset.y < 0 {
        0
    } else {
        offset.y as usize
    };
    (x, y)
}

/// The clamped offset is the offset itself, where that has no negative part.
pub proof fn law_offsets_in_the_image_are_kept(offset: Offset2D)
    ensures
        offset.x >= 0 ==> offset_xy(offset).0 == offset.x,
        offset.x < 0 ==> offset_xy(offset).0 == 0,
        offset.y >= 0 ==> offset_xy(offset).1 == offset.y,
        offset.y < 0 ==> offset_xy(offset).1 == 0,
{
}

/// A texture and where its content starts.
#[derive(Clone, Copy, Debug, PartialEq, Eq, Hash, Structural)]
pub struct PlacedTexture {
    /// The image whose Metal texture it is.
    pub image: Image,
    pub offset_x: usize,
    pub offset_y: usize,
}

/// The texture of an image, with its offset.
#[verifier::allow_in_spec]
pub fn placed(image_info: &SuperResolutionImageInfo) -> PlacedTexture
    returns
        (PlacedTexture {
            image: image_info.view.image,
            offset_x: offset_xy(image_info.view_offset).0,
            offset_y: offset_xy(image_info.view_offset).1,
        }),
{
    let (offset_x, offset_y) = offset_xy(image_info.view_offset);
    PlacedTexture { image: image_info.view.image, offset_x, offset_y }
}

/// The texture of an optional image, with its offset.
#[verifier::allow_in_spec]
pub fn optional_placed(image_info: &Option<SuperResolutionImageInfo>) -> Option<PlacedTexture>
    returns
        (match image_info {
            Some(image_info) => Some(placed(image_info)),
            None => None,
        }),
{
    match image_info {
        Some(image_info) => Some(placed(image_info)),
        None => None,
    }
}

/// The image whose texture is used, if there is one.
#[verifier::allow_in_spec]
pub fn optional_image(image_info: &Option<SuperResolutionImageInfo>) -> Option<Image>
    returns
        (match image_info {
            Some(image_info) => Some(image_info.view.image),
            None => None,
        }),
{
    match image_info {
        Some(image_info) => Some(image_info.view.image),
        None => None,
    }
}

/// What a dispatch sets on a spatial scaler before its work is encoded. The spatial scaler
/// exposes no content-offset properties, so image `view_offset`s are not applied.
#[derive(Clone, Copy, Debug, PartialEq, Eq, Hash, Structural)]
pub struct SpatialDispatch {
    pub color: Image,
    pub output: Image,
    pub input_content_size: Extent2D,
}

/// What a dispatch sets on a spatial scaler.
#[verifier::allow_in_spec]
pub fn dispatch_spatial(dispatch_info: &SuperResolutionDispatchInfo) -> SpatialDispatch
    returns
        (SpatialDispatch {
            color: dispatch_info.source_image_info.view.image,
            output: dispatch_info.destination_image_info.view.image,
            input_content_size: dispatch_info.source_size,
        }),
{
    SpatialDispatch {
        color: dispatch_info.source_image_info.view.image,
        output: dispatch_info.destination_image_info.view.image,
        input_content_size: dispatch_info.source_size,
    }
}

/// What a dispatch sets on a temporal scaler before its work is encoded. What is `None`
/// is left as the scaler has it.
#[derive(Clone, Copy, Debug)]
pub struct TemporalDispatch {
    pub color: PlacedTexture,
    pub output: PlacedTexture,
    pub depth: Option<PlacedTexture>,
    pub motion: Option<PlacedTexture>,
    pub reactive_mask: Option<PlacedTexture>,
    pub jitter_offset: Option<(Single, Single)>,
    pub pre_exposure: Option<Single>,
    pub exposure: Option<Image>,
    pub input_content_size: Extent2D,
    pub reset: bool,
    pub depth_reversed: bool,
}

/// Whether `d` is what a dispatch sets on a temporal scaler.
pub open spec fn sets_temporal(d: TemporalDispatch, info: SuperResolutionDispatchInfo) -> bool {
    &&& d.color == placed(&info.source_image_info)
    &&& d.output == placed(&info.destination_image_info)
    &&& d.depth == optional_placed(&info.source_depth_image_info)
    &&& match info.motion_info {
        Some(motion) => {
            &&& d.motion == optional_placed(&motion.motion_vectors_image_info)
            &&& d.reactive_mask == optional_placed(&motion.reactive_mask_image_info)
            &&& d.jitter_offset == Some((motion.texel_jitter_x, motion.texel_jitter_y))
        },
        None => d.motion is None && d.reactive_mask is None && d.jitter_offset is None,
    }
    &&& match info.exposure_info {
        Some(exposure) => {
            &&& d.pre_exposure == Some(exposure.pre_exposure)
            &&& d.exposure == optional_image(&exposure.exposure_scale_image_info)
        },
        None => d.pre_exposure is None && d.exposure is None,
    }
    &&& d.input_content_size == info.source_size
    &&& d.reset == info.flags.contains(SuperResolutionDispatchFlags::reset_history())
    &&& d.depth_reversed == info.flags.contains(
        SuperResolutionDispatchFlags::inverted_depth_range(),
    )
}

/// What a dispatch sets on a temporal scaler: the per-texture region offsets carried by
/// each image info are applied.
pub fn dispatch_temporal(dispatch_info: &SuperResolutionDispatchInfo) -> (d: TemporalDispatch)
    ensures
        sets_temporal(d, *dispatch_info),
{
    let mut d = TemporalDispatch {
        color: placed(&dispatch_info.source_image_info),
        output: placed(&dispatch_info.destination_image_info),
        depth: optional_placed(&dispatch_info.source_depth_image_info),
        motion: None,
        reactive_mask: None,
        jitter_offset: None,
        pre_exposure: None,
        exposure: None,
        input_content_size: dispatch_info.source_size,
        reset: dispatch_info.flags.contains(SuperResolutionDispatchFlags::reset_history()),
        depth_reversed: dispatch_info.flags.contains(
            SuperResolutionDispatchFlags::inverted_depth_range(),
        ),
    };
    if let Some(motion) = &dispatch_info.motion_info {
        d.motion = optional_placed(&motion.motion_vectors_image_info);
        d.reactive_mask = optional_placed(&motion.reactive_mask_image_info);
        d.jitter_offset = Some((motion.texel_jitter_x, motion.texel_jitter_y));
    }
    if let Some(exposure) = &dispatch_info.exposure_info {
        d.pre_exposure = Some(exposure.pre_exposure);
        d.exposure = optional_image(&exposure.exposure_scale_image_info);
    }
    d
}

/// The G-buffers that a dispatch sets on a temporal denoised scaler.
#[derive(Clone, Copy, Debug)]
pub struct DenoiseInputs {
    pub diffuse_albedo: Image,
    pub specular_albedo: Image,
    pub normal: Image,
    pub roughness: Image,
    pub specular_hit_distance: Option<Image>,
    pub denoise_strength_mask: Option<Image>,
    pub transparency_overlay: Option<Image>,
    pub world_to_view_matrix: [[Single; 4]; 4],
    pub view_to_clip_matrix: [[Single; 4]; 4],
}

/// What a dispatch sets on a temporal denoised scaler before its work is encoded. What is
/// `None` is left as the scaler has it. The denoised scaler has neither an input content
/// size nor content-offset properties.
#[derive(Clone, Copy, Debug)]
pub struct DenoisedDispatch {
    pub color: Image,
    pub output: Image,
    pub depth: Option<Image>,
    pub motion: Option<Image>,
    pub reactive_mask: Option<Image>,
    pub jitter_offset: Option<(Single, Single)>,
    pub pre_exposure: Option<Single>,
    pub exposure: Option<Image>,
    pub denoise: Option<DenoiseInputs>,
    pub should_reset_history: bool,
    pub depth_reversed: bool,
}

/// Whether `d` is what a dispatch sets on a temporal denoised scaler.
pub open spec fn sets_denoised(d: DenoisedDispatch, info: SuperResolutionDispatchInfo) -> bool {
    &&& d.color == info.source_image_info.view.image
    &&& d.output == info.destination_image_info.view.image
    &&& d.depth == optional_image(&info.source_depth_image_info)
    &&& match info.motion_info {
        Some(motion) => {
            &&& d.motion == optional_image(&motion.motion_vectors_image_info)
            &&& d.reactive_mask == optional_image(&motion.reactive_mask_image_info)
            &&& d.jitter_offset == Some((motion.texel_jitter_x, motion.texel_jitter_y))
        },
        None => d.motion is None && d.reactive_mask is None && d.jitter_offset is None,
    }
    &&& match info.exposure_info {
        Some(exposure) => {
            &&& d.pre_exposure == Some(exposure.pre_exposure)
            &&& d.exposure == optional_image(&exposure.exposure_scale_image_info)
        },
        None => d.pre_exposure is None && d.exposure is None,
    }
    &&& match info.denoise_info {
        Some(denoise) => d.denoise == Some(
            DenoiseInputs {
                diffuse_albedo: denoise.diffuse_albedo_image_info.view.image,
                specular_albedo: denoise.specular_albedo_image_info.view.image,
                normal: denoise.normal_image_info.view.image,
                roughness: denoise.roughness_image_info.view.image,
                specular_hit_distance: optional_image(&denoise.specular_hit_distance_image_info),
                denoise_strength_mask: optional_image(&denoise.denoise_strength_mask_image_info),
                transparency_overlay: optional_image(&denoise.transparency_overlay_image_info),
                world_to_view_matrix: denoise.world_to_view_matrix,
                view_to_clip_matrix: denoise.view_to_clip_matrix,
            },
        ),
        None => d.denoise is None,
    }
    &&& d.should_reset_history == info.flags.contains(SuperResolutionDispatchFlags::reset_history())
    &&& d.depth_reversed == info.flags.contains(
        SuperResolutionDispatchFlags::inverted_depth_range(),
    )
}

/// What a dispatch sets on a temporal denoised scaler.
pub fn dispatch_denoised(dispatch_info: &SuperResolutionDispatchInfo) -> (d: DenoisedDispatch)
    ensures
        sets_denoised(d, *dispatch_info),
{
    let mut d = DenoisedDispatch {
        color: dispatch_info.source_image_info.view.image,
        output: dispatch_info.destination_image_info.view.image,
        depth: optional_image(&dispatch_info.source_depth_image_info),
        motion: None,
        reactive_mask: None,
        jitter_offset: None,
        pre_exposure: None,
        exposure: None,
        denoise: None,
        should_reset_history: dispatch_info.flags.contains(
            SuperResolutionDispatchFlags::reset_history(),
        ),
        depth_reversed: dispatch_info.flags.contains(
            SuperResolutionDispatchFlags::inverted_depth_range(),
        ),
    };
    if let Some(motion) = &dispatch_info.motion_info {
        d.motion = optional_image(&motion.motion_vectors_image_info);
        d.reactive_mask = optional_image(&motion.reactive_mask_image_info);
        d.jitter_offset = Some((motion.texel_jitter_x, motion.texel_jitter_y));
    }
    if let Some(exposure) = &dispatch_info.exposure_info {
        d.pre_exposure = Some(exposure.pre_exposure);
        d.exposure = optional_image(&exposure.exposure_scale_image_info);
    }
    if let Some(denoise) = &dispatch_info.denoise_info {
        d.denoise = Some(
            DenoiseInputs {
                diffuse_albedo: denoise.diffuse_albedo_image_info.view.image,
                specular_albedo: denoise.specular_albedo_image_info.view.image,
                normal: denoise.normal_image_info.view.image,
                roughness: denoise.roughness_image_info.view.image,
                specular_hit_distance: optional_image(&denoise.specular_hit_distance_image_info),
                denoise_strength_mask: optional_image(&denoise.denoise_strength_mask_image_info),
                transparency_overlay: optional_image(&denoise.transparency_overlay_image_info),
                world_to_view_matrix: denoise.world_to_view_matrix,
                view_to_clip_matrix: denoise.view_to_clip_matrix,
            },
        );
    }
    d
}

/// What a dispatch sets on a session's scaler.
#[derive(Clone, Copy, Debug)]
pub enum ScalerDispatch {
    Temporal(TemporalDispatch),
    Denoised(DenoisedDispatch),
    Spatial(SpatialDispatch),
}

impl Scaler {
    /// What a dispatch sets on this scaler before its work is encoded.
    pub fn dispatch(&self, dispatch_info: &SuperResolutionDispatchInfo) -> (r: ScalerDispatch)
        ensures
            match *self {
                Scaler::Temporal(_) => r matches ScalerDispatch::Temporal(d) && sets_temporal(
                    d,
                    *dispatch_info,
                ),
                Scaler::Denoised(_) => r matches ScalerDispatch::Denoised(d) && sets_denoised(
                    d,
                    *dispatch_info,
                ),
                Scaler::Spatial(_) => r == ScalerDispatch::Spatial(dispatch_spatial(dispatch_info)),
            },
    {
        match self {
            Scaler::Temporal(_) => ScalerDispatch::Temporal(dispatch_temporal(dispatch_info)),
            Scaler::Denoised(_) => ScalerDispatch::Denoised(dispatch_denoised(dispatch_info)),
            Scaler::Spatial(_) => ScalerDispatch::Spatial(dispatch_spatial(dispatch_info)),
        }
    }

    /// MetalFX scalers are ready to use immediately after creation and have no separate
    /// command-buffer initialization step, so this does nothing.
    pub fn initialize_session(&mut self)
        ensures
            *final(self) == *old(self),
    {
    }

    /// The recommended jitter pattern.
    ///
    /// MetalFX exposes no jitter API, so this follows Apple's guidance: a Halton(2, 3)
    /// sequence whose length scales with the upscale ratio. Each offset is centered into the
    /// `[-0.5, 0.5)` texel range that MetalFX's jitter offsets expect. The spatial scaler is
    /// single-frame and uses no jitter.
    pub fn recommended_jitter_pattern(
        &self,
        destination_region_size: Extent2D,
        source_region_size: Extent2D,
    ) -> (r: VkResult<Vec<(Single, Single)>>)
        ensures
            match *self {
                Scaler::Spatial(_) => r == Err::<Vec<(Single, Single)>, VkError>(
                    VkError::FeatureNotPresent,
                ),
                _ => r matches Ok(offsets) && offsets@ == texel_offsets(
                    phase_count(destination_region_size.width, source_region_size.width) as nat,
                ) && forall|i: int|
                    0 <= i < offsets@.len() ==> position_stays_in_texel(#[trigger] offsets@[i]),
            },
    {
        match self {
            // Both temporal engines drive jitter the same way.
            Scaler::Temporal(_) | Scaler::Denoised(_) => {
                let count: u32 = if source_region_size.width > 0 {
                    phases(upscale_ratio(destination_region_size.width, source_region_size.width))
                } else if destination_region_size.width > 0 {
                    u32::MAX
                } else {
                    0
                };
                Ok(texel_pattern(count))
            },
            Scaler::Spatial(_) => Err(VkError::FeatureNotPresent),
        }
    }
}

/// The number of jitter positions for a pair of widths: what the ratio calls for. Over no
/// width at all the ratio is infinite, which calls for as many positions as 32 bits count,
/// or, for a destination without width, not a number, which calls for none.
pub open spec fn phase_count(destination_width: u32, source_width: u32) -> int {
    if source_width > 0 {
        phases_of(ratio_of(destination_width, source_width))
    } else if destination_width > 0 {
        u32::MAX as int
    } else {
        0
    }
}

/// A larger upscale ratio only adds positions: the pattern of a smaller one is how that of
/// the larger starts.
pub proof fn law_larger_ratio_extends_the_pattern(d: u32, s: u32, e: u32, t: u32)
    requires
        s > 0,
        t > 0,
        ratio_of(d, s).scaled() <= ratio_of(e, t).scaled(),
    ensures
        phase_count(d, s) <= phase_count(e, t),
        texel_offsets(phase_count(d, s) as nat) == texel_offsets(phase_count(e, t) as nat).take(
            phase_count(d, s),
        ),
{
    law_ratio_keeps_order(d, s, d, s);
    law_phases_keep_order(ratio_of(d, s), ratio_of(e, t));
    law_phases_count_up(ratio_of(d, s));
    law_patterns_are_prefixes(phase_count(d, s) as nat, phase_count(e, t) as nat);
}

/// Up to an upscaling of 64 the recommended positions are distinct along the first axis.
pub proof fn law_recommended_positions_are_distinct(
    destination_width: u32,
    source_width: u32,
    i: int,
    j: int,
)
    requires
        source_width > 0,
        destination_width <= 64 * source_width,
        0 <= i < j < phase_count(destination_width, source_width),
    ensures
        ({
            let offsets = texel_offsets(phase_count(destination_width, source_width) as nat);
            offsets[i].0.scaled() != offsets[j].0.scaled()
        }),
{
    law_phases_are_bounded(destination_width, source_width);
    law_positions_are_distinct(phase_count(destination_width, source_width) as nat, i, j);
    law_short_patterns_are_texel_patterns(phase_count(destination_width, source_width) as nat);
}

/// The spatial scaler looks at the source, the destination and the size of the source
/// alone, whatever else a dispatch carries.
pub proof fn law_spatial_scaler_ignores_other_inputs(
    a: SuperResolutionDispatchInfo,
    b: SuperResolutionDispatchInfo,
)
    requires
        a.source_image_info.view.image == b.source_image_info.view.image,
        a.destination_image_info.view.image == b.destination_image_info.view.image,
        a.source_size == b.source_size,
    ensures
        dispatch_spatial(&a) == dispatch_spatial(&b),
{
}

/// The temporal denoised scaler has no dynamic source size: dispatches that differ in the
/// size of the source alone are the same.
pub proof fn law_denoised_scaler_ignores_source_size(
    d: DenoisedDispatch,
    info: SuperResolutionDispatchInfo,
    source_size: Extent2D,
)
    ensures
        sets_denoised(d, info) <==> sets_denoised(
            d,
            SuperResolutionDispatchInfo { source_size, ..info },
        ),
{
}

} // verus!
