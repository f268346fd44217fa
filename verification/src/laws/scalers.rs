//! What a dispatch sets on MetalFX's scalers.
use vstd::prelude::*;

use crate::metalfx::{
    dispatch_denoised, dispatch_spatial, dispatch_temporal, offset_xy, DenoisedDispatch,
    PlacedTexture, Scaler, ScalerDispatch, SpatialDispatch, TemporalDispatch,
};
use crate::types::{SuperResolutionDispatchInfo, SuperResolutionImageInfo};
use crate::vk::{Image, Offset2D};

verus! {

/// Whether a texture is that of the given image, with its content where the image's region
/// starts: a negative start counts as zero.
pub open spec fn places(t: PlacedTexture, image_info: SuperResolutionImageInfo) -> bool {
    &&& t.image == image_info.view.image
    &&& t.offset_x == vstd::math::max(image_info.view_offset.x as int, 0)
    &&& t.offset_y == vstd::math::max(image_info.view_offset.y as int, 0)
}

/// Whether an optional texture is set exactly where the dispatch has an image for it, and is
/// that of this image.
pub open spec fn places_optional(
    t: Option<PlacedTexture>,
    image_info: Option<SuperResolutionImageInfo>,
) -> bool {
    &&& t is Some <==> image_info is Some
    &&& image_info is Some ==> places(t->0, image_info->0)
}

/// Whether an optional image is set exactly where the dispatch has one, and is that one.
pub open spec fn carries(
    image: Option<Image>,
    image_info: Option<SuperResolutionImageInfo>,
) -> bool {
    &&& image is Some <==> image_info is Some
    &&& image_info is Some ==> image->0 == image_info->0.view.image
}

/// Whether a temporal scaler is set up with all that a dispatch carries for it, each in its
/// own place, and with nothing that the dispatch has not.
pub open spec fn suits_temporal(d: TemporalDispatch, info: SuperResolutionDispatchInfo) -> bool {
    &&& places(d.color, info.source_image_info)
    &&& places(d.output, info.destination_image_info)
    &&& places_optional(d.depth, info.source_depth_image_info)
    &&& d.input_content_size == info.source_size
    &&& d.reset <==> info.flags.0 & 0x4 == 0x4
    &&& d.depth_reversed <==> info.flags.0 & 0x1 == 0x1
    &&& info.motion_info is None ==> d.motion is None && d.reactive_mask is None && d.jitter_offset
        is None
    &&& info.motion_info matches Some(m) ==> d.jitter_offset == Some(
        (m.texel_jitter_x, m.texel_jitter_y),
    ) && places_optional(d.motion, m.motion_vectors_image_info) && places_optional(
        d.reactive_mask,
        m.reactive_mask_image_info,
    )
    &&& info.exposure_info is None ==> d.pre_exposure is None && d.exposure is None
    &&& info.exposure_info matches Some(x) ==> d.pre_exposure == Some(x.pre_exposure) && carries(
        d.exposure,
        x.exposure_scale_image_info,
    )
}

/// The same of a denoised scaler.
pub open spec fn suits_denoised(d: DenoisedDispatch, info: SuperResolutionDispatchInfo) -> bool {
    &&& d.color == info.source_image_info.view.image
    &&& d.output == info.destination_image_info.view.image
    &&& carries(d.depth, info.source_depth_image_info)
    &&& d.should_reset_history <==> info.flags.0 & 0x4 == 0x4
    &&& d.depth_reversed <==> info.flags.0 & 0x1 == 0x1
    &&& info.motion_info is None ==> d.motion is None && d.reactive_mask is None && d.jitter_offset
        is None
    &&& info.motion_info matches Some(m) ==> d.jitter_offset == Some(
        (m.texel_jitter_x, m.texel_jitter_y),
    ) && carries(d.motion, m.motion_vectors_image_info) && carries(
        d.reactive_mask,
        m.reactive_mask_image_info,
    )
    &&& info.exposure_info is None ==> d.pre_exposure is None && d.exposure is None
    &&& info.exposure_info matches Some(x) ==> d.pre_exposure == Some(x.pre_exposure) && carries(
        d.exposure,
        x.exposure_scale_image_info,
    )
    &&& d.denoise is Some <==> info.denoise_info is Some
    &&& info.denoise_info matches Some(g) ==> {
        &&& d.denoise->0.normal == g.normal_image_info.view.image
        &&& d.denoise->0.roughness == g.roughness_image_info.view.image
        &&& d.denoise->0.diffuse_albedo == g.diffuse_albedo_image_info.view.image
        &&& d.denoise->0.specular_albedo == g.specular_albedo_image_info.view.image
        &&& carries(d.denoise->0.denoise_strength_mask, g.denoise_strength_mask_image_info)
        &&& carries(d.denoise->0.specular_hit_distance, g.specular_hit_distance_image_info)
        &&& carries(d.denoise->0.transparency_overlay, g.transparency_overlay_image_info)
        &&& d.denoise->0.world_to_view_matrix == g.world_to_view_matrix
        &&& d.denoise->0.view_to_clip_matrix == g.view_to_clip_matrix
    }
}

/// The same of a spatial scaler.
pub open spec fn suits_spatial(d: SpatialDispatch, info: SuperResolutionDispatchInfo) -> bool {
    &&& d.color == info.source_image_info.view.image
    &&& d.output == info.destination_image_info.view.image
    &&& d.input_content_size == info.source_size
}

/// A negative offset becomes zero; any other stays, each coordinate by itself.
pub proof fn law_offsets_are_clamped_at_zero(offset: Offset2D, r: (usize, usize))
    requires
        call_ensures(offset_xy, (offset,), r),
    ensures
        r.0 == vstd::math::max(offset.x as int, 0),
        r.1 == vstd::math::max(offset.y as int, 0),
{
}

/// A temporal dispatch sets each texture that the dispatch carries, at its offset, and no
/// other.
pub proof fn law_temporal_dispatch_sets_its_textures(
    info: &SuperResolutionDispatchInfo,
    d: TemporalDispatch,
)
    requires
        call_ensures(dispatch_temporal, (info,), d),
    ensures
        places(d.color, info.source_image_info),
        places(d.output, info.destination_image_info),
        places_optional(d.depth, info.source_depth_image_info),
        info.motion_info is None ==> d.motion is None && d.reactive_mask is None,
        info.motion_info matches Some(m) ==> places_optional(d.motion, m.motion_vectors_image_info)
            && places_optional(d.reactive_mask, m.reactive_mask_image_info),
        info.exposure_info is None ==> d.exposure is None,
        info.exposure_info matches Some(x) ==> carries(d.exposure, x.exposure_scale_image_info),
{
}

/// The numbers of a temporal dispatch: the content has the size of the source; jitter is the
/// dispatch's, each coordinate for its own axis; the pre-exposure is the dispatch's; history
/// is reset exactly where bit 0x4 is among the flags, and depth is reversed exactly where bit
/// 0x1 is.
pub proof fn law_temporal_dispatch_sets_its_numbers(
    info: &SuperResolutionDispatchInfo,
    d: TemporalDispatch,
)
    requires
        call_ensures(dispatch_temporal, (info,), d),
    ensures
        d.input_content_size.width == info.source_size.width,
        d.input_content_size.height == info.source_size.height,
        d.jitter_offset is Some <==> info.motion_info is Some,
        info.motion_info matches Some(m) ==> {
            let (x, y) = d.jitter_offset->0;
            x == m.texel_jitter_x && y == m.texel_jitter_y
        },
        d.pre_exposure is Some <==> info.exposure_info is Some,
        info.exposure_info matches Some(x) ==> d.pre_exposure->0 == x.pre_exposure,
        d.reset <==> info.flags.0 & 0x4 == 0x4,
        d.depth_reversed <==> info.flags.0 & 0x1 == 0x1,
{
}

/// Every image that a dispatch carries for the denoised scaler is set on it, as the part it
/// plays, and no other: mandatory G-buffers wherever there are G-buffers, optional ones, the
/// denoise strength mask among them, exactly where the dispatch has them.
pub proof fn law_denoised_dispatch_sets_its_images(
    info: &SuperResolutionDispatchInfo,
    d: DenoisedDispatch,
)
    requires
        call_ensures(dispatch_denoised, (info,), d),
    ensures
        d.color == info.source_image_info.view.image,
        d.output == info.destination_image_info.view.image,
        carries(d.depth, info.source_depth_image_info),
        info.motion_info is None ==> d.motion is None && d.reactive_mask is None,
        info.motion_info matches Some(m) ==> carries(d.motion, m.motion_vectors_image_info)
            && carries(d.reactive_mask, m.reactive_mask_image_info),
        info.exposure_info is None ==> d.exposure is None,
        info.exposure_info matches Some(x) ==> carries(d.exposure, x.exposure_scale_image_info),
        d.denoise is Some <==> info.denoise_info is Some,
        info.denoise_info matches Some(g) ==> {
            &&& d.denoise->0.diffuse_albedo == g.diffuse_albedo_image_info.view.image
            &&& d.denoise->0.specular_albedo == g.specular_albedo_image_info.view.image
            &&& d.denoise->0.normal == g.normal_image_info.view.image
            &&& d.denoise->0.roughness == g.roughness_image_info.view.image
            &&& carries(d.denoise->0.specular_hit_distance, g.specular_hit_distance_image_info)
            &&& carries(d.denoise->0.denoise_strength_mask, g.denoise_strength_mask_image_info)
            &&& carries(d.denoise->0.transparency_overlay, g.transparency_overlay_image_info)
        },
{
}

/// Dispatches that set the same on the denoised scaler carry the same images: a dispatch with
/// another denoise strength mask, hit distance or transparency overlay, or without one, sets
/// something else.
pub proof fn law_denoised_dispatches_tell_their_images_apart(
    a: &SuperResolutionDispatchInfo,
    b: &SuperResolutionDispatchInfo,
    d: DenoisedDispatch,
)
    requires
        call_ensures(dispatch_denoised, (a,), d),
        call_ensures(dispatch_denoised, (b,), d),
    ensures
        a.source_image_info.view.image == b.source_image_info.view.image,
        a.destination_image_info.view.image == b.destination_image_info.view.image,
        a.denoise_info is Some <==> b.denoise_info is Some,
        a.denoise_info is Some ==> {
            let (g, h) = (a.denoise_info->0, b.denoise_info->0);
            &&& g.diffuse_albedo_image_info.view.image == h.diffuse_albedo_image_info.view.image
            &&& g.specular_albedo_image_info.view.image == h.specular_albedo_image_info.view.image
            &&& g.normal_image_info.view.image == h.normal_image_info.view.image
            &&& g.roughness_image_info.view.image == h.roughness_image_info.view.image
            &&& g.denoise_strength_mask_image_info is Some
                <==> h.denoise_strength_mask_image_info is Some
            &&& g.denoise_strength_mask_image_info is Some
                ==> g.denoise_strength_mask_image_info->0.view.image
                == h.denoise_strength_mask_image_info->0.view.image
            &&& g.specular_hit_distance_image_info is Some
                <==> h.specular_hit_distance_image_info is Some
            &&& g.specular_hit_distance_image_info is Some
                ==> g.specular_hit_distance_image_info->0.view.image
                == h.specular_hit_distance_image_info->0.view.image
            &&& g.transparency_overlay_image_info is Some
                <==> h.transparency_overlay_image_info is Some
            &&& g.transparency_overlay_image_info is Some
                ==> g.transparency_overlay_image_info->0.view.image
                == h.transparency_overlay_image_info->0.view.image
            &&& g.world_to_view_matrix == h.world_to_view_matrix
            &&& g.view_to_clip_matrix == h.view_to_clip_matrix
        },
        a.flags.0 & 0x4 == b.flags.0 & 0x4,
        a.flags.0 & 0x1 == b.flags.0 & 0x1,
{
    let (x, y) = (a.flags.0, b.flags.0);
    assert((x & 4 == 4 || x & 4 == 0) && (y & 4 == 4 || y & 4 == 0) && (x & 1 == 1 || x & 1 == 0)
        && (y & 1 == 1 || y & 1 == 0)) by (bit_vector);
}

/// The numbers of a denoised dispatch: both matrices are the dispatch's, each in its place;
/// jitter and pre-exposure are the dispatch's; history is reset exactly where bit 0x4 is
/// among the flags, and depth is reversed exactly where bit 0x1 is.
pub proof fn law_denoised_dispatch_sets_its_numbers(
    info: &SuperResolutionDispatchInfo,
    d: DenoisedDispatch,
)
    requires
        call_ensures(dispatch_denoised, (info,), d),
    ensures
        info.denoise_info matches Some(g) ==> d.denoise->0.world_to_view_matrix
            == g.world_to_view_matrix && d.denoise->0.view_to_clip_matrix == g.view_to_clip_matrix,
        d.jitter_offset is Some <==> info.motion_info is Some,
        info.motion_info matches Some(m) ==> {
            let (x, y) = d.jitter_offset->0;
            x == m.texel_jitter_x && y == m.texel_jitter_y
        },
        d.pre_exposure is Some <==> info.exposure_info is Some,
        info.exposure_info matches Some(x) ==> d.pre_exposure->0 == x.pre_exposure,
        d.should_reset_history <==> info.flags.0 & 0x4 == 0x4,
        d.depth_reversed <==> info.flags.0 & 0x1 == 0x1,
{
}

/// A spatial dispatch scales the dispatch's source into its destination, at the size of the
/// source content.
pub proof fn law_spatial_dispatch_scales_source_into_destination(
    info: &SuperResolutionDispatchInfo,
    d: SpatialDispatch,
)
    requires
        call_ensures(dispatch_spatial, (info,), d),
    ensures
        d.color == info.source_image_info.view.image,
        d.output == info.destination_image_info.view.image,
        d.input_content_size.width == info.source_size.width,
        d.input_content_size.height == info.source_size.height,
{
}

/// A scaler gets the dispatch of its own kind: the temporal one what a temporal dispatch
/// sets, the denoised one what a denoised dispatch sets, the spatial one what a spatial
/// dispatch sets.
pub proof fn law_scalers_get_their_own_dispatch(
    scaler: &Scaler,
    info: &SuperResolutionDispatchInfo,
    r: ScalerDispatch,
)
    requires
        call_ensures(Scaler::dispatch, (scaler, info), r),
    ensures
        scaler is Temporal <==> r is Temporal,
        scaler is Denoised <==> r is Denoised,
        scaler is Spatial <==> r is Spatial,
        r matches ScalerDispatch::Temporal(d) ==> suits_temporal(d, *info),
        r matches ScalerDispatch::Denoised(d) ==> suits_denoised(d, *info),
        r matches ScalerDispatch::Spatial(d) ==> suits_spatial(d, *info),
{
}

/// Dispatches that a temporal scaler cannot tell apart agree in all that it reads.
pub proof fn law_temporal_dispatches_tell_their_inputs_apart(
    a: &SuperResolutionDispatchInfo,
    b: &SuperResolutionDispatchInfo,
    d: TemporalDispatch,
)
    requires
        call_ensures(dispatch_temporal, (a,), d),
        call_ensures(dispatch_temporal, (b,), d),
    ensures
        a.source_image_info.view.image == b.source_image_info.view.image,
        a.destination_image_info.view.image == b.destination_image_info.view.image,
        a.source_size == b.source_size,
        a.source_depth_image_info is Some <==> b.source_depth_image_info is Some,
        a.motion_info is Some <==> b.motion_info is Some,
        a.motion_info is Some ==> a.motion_info->0.texel_jitter_x == b.motion_info->0.texel_jitter_x
            && a.motion_info->0.texel_jitter_y == b.motion_info->0.texel_jitter_y,
        a.exposure_info is Some <==> b.exposure_info is Some,
        a.exposure_info is Some ==> a.exposure_info->0.pre_exposure
            == b.exposure_info->0.pre_exposure,
{
}

/// A scaler is ready once it is there: to initialize a session leaves it as it was.
pub proof fn law_initializing_leaves_the_scaler(scaler: &mut Scaler)
    requires
        call_ensures(Scaler::initialize_session, (scaler,), ()),
    ensures
        *final(scaler) == *old(scaler),
{
}

} // verus!
