//! What a dispatch hands to DLSS-RR.
use vstd::prelude::*;

use crate::dlss::runtime::{NgxFeature, NgxRuntime};
use crate::dlss::sys::{NVSDK_NGX_DLSS_Roughness_Mode, NVSDK_NGX_Resource_VK_Type};
use crate::dlss::{
    create_session, flatten, make_resource, DlssSession, DlssdEvaluation, Resource, ResourceRequest,
};
use crate::single::Single;
use crate::types::{
    SuperResolutionDispatchInfo, SuperResolutionImageInfo, SuperResolutionSessionCreateInfo,
};
use crate::vk::{Extent2D, Format, ImageView};

verus! {

/// Whether a resource covers the image that a dispatch carries, at the given size, and is
/// read alone.
pub open spec fn reads(
    r: ResourceRequest,
    image_info: SuperResolutionImageInfo,
    size: Extent2D,
) -> bool {
    &&& r.image_info == image_info
    &&& r.width == size.width
    &&& r.height == size.height
    &&& !r.read_write
}

/// Whether an optional image has a resource exactly where there is one, and it is of that
/// image.
pub open spec fn reads_optional(
    r: Option<ResourceRequest>,
    image_info: Option<SuperResolutionImageInfo>,
    size: Extent2D,
) -> bool {
    &&& r is Some <==> image_info is Some
    &&& image_info is Some ==> reads(r->0, image_info->0, size)
}

/// Whether an evaluation reads the images that a dispatch carries, each in its own place and
/// at its own size, and writes the dispatch's destination.
pub open spec fn reads_images(
    e: DlssdEvaluation,
    session: DlssSession,
    info: SuperResolutionDispatchInfo,
) -> bool {
    &&& reads(e.color, info.source_image_info, info.source_size)
    &&& reads_optional(e.depth, info.source_depth_image_info, info.source_size)
    &&& e.output.image_info == info.destination_image_info
    &&& e.output.width == session.destination_extent.width
    &&& e.output.height == session.destination_extent.height
    &&& e.output.read_write
    &&& info.motion_info is None ==> e.motion_vectors is None
    &&& info.motion_info matches Some(m) ==> reads_optional(
        e.motion_vectors,
        m.motion_vectors_image_info,
        if session.create_params.in_feature_create_flags.mv_low_res {
            info.source_size
        } else {
            session.destination_extent
        },
    )
    &&& info.denoise_info is None ==> {
        &&& e.diffuse_albedo is None
        &&& e.specular_albedo is None
        &&& e.normals is None
        &&& e.roughness is None
        &&& e.specular_hit_distance is None
    }
    &&& info.denoise_info matches Some(g) ==> {
        &&& reads_optional(
            e.diffuse_albedo,
            Some(g.diffuse_albedo_image_info),
            info.source_size,
        )
        &&& reads_optional(
            e.specular_albedo,
            Some(g.specular_albedo_image_info),
            info.source_size,
        )
        &&& reads_optional(e.normals, Some(g.normal_image_info), info.source_size)
        &&& reads_optional(
            e.specular_hit_distance,
            g.specular_hit_distance_image_info,
            info.source_size,
        )
        &&& reads_optional(
            e.roughness,
            if session.create_params.in_roughness_mode
                == NVSDK_NGX_DLSS_Roughness_Mode::Packed {
                None
            } else {
                Some(g.roughness_image_info)
            },
            info.source_size,
        )
    }
}

/// Whether the numbers of an evaluation are those of the session and of the dispatch, each in
/// its own place.
pub open spec fn takes_numbers(
    e: DlssdEvaluation,
    session: DlssSession,
    info: SuperResolutionDispatchInfo,
) -> bool {
    &&& session.feature == Some(e.feature)
    &&& e.in_render_subrect_dimensions.width == info.source_size.width
    &&& e.in_render_subrect_dimensions.height == info.source_size.height
    &&& e.in_mv_scale_x == session.mv_scale_x
    &&& e.in_mv_scale_y == session.mv_scale_y
    &&& info.motion_info matches Some(m) ==> e.in_jitter_offset_x == m.texel_jitter_x
        && e.in_jitter_offset_y == m.texel_jitter_y
    &&& info.motion_info is None ==> e.in_jitter_offset_x.0 == 0 && e.in_jitter_offset_y.0 == 0
    &&& e.in_reset == 1 <==> info.flags.0 & 0x4 == 0x4
    &&& e.in_reset == 0 <==> info.flags.0 & 0x4 != 0x4
}

/// Whether the matrices of an evaluation are those of the dispatch, with every element in its
/// place: column after column, row after row in each.
pub open spec fn keeps_matrices(e: DlssdEvaluation, info: SuperResolutionDispatchInfo) -> bool {
    &&& e.world_to_view_matrix is Some <==> info.denoise_info is Some
    &&& e.view_to_clip_matrix is Some <==> info.denoise_info is Some
    &&& info.denoise_info matches Some(g) ==> forall|i: int|
        #![trigger e.world_to_view_matrix->0@[i]]
        #![trigger e.view_to_clip_matrix->0@[i]]
        0 <= i < 16 ==> e.world_to_view_matrix->0@[i] == g.world_to_view_matrix@[i / 4]@[i % 4]
            && e.view_to_clip_matrix->0@[i] == g.view_to_clip_matrix@[i / 4]@[i % 4]
}

/// NGX upscales what the frame has rendered: the render subrect has the size of the
/// dispatch's source, and so has every image that is read, motion vectors aside. The size
/// that the session was created with has no part in it.
pub proof fn law_evaluation_covers_what_the_frame_rendered(
    session: &DlssSession,
    info: &SuperResolutionDispatchInfo,
    e: DlssdEvaluation,
)
    requires
        call_ensures(DlssSession::dispatch, (session, info), Some(e)),
    ensures
        e.in_render_subrect_dimensions.width == info.source_size.width,
        e.in_render_subrect_dimensions.height == info.source_size.height,
        e.color.width == info.source_size.width && e.color.height == info.source_size.height,
        forall|r: ResourceRequest|
            {
                ||| e.depth == Some(r)
                ||| e.diffuse_albedo == Some(r)
                ||| e.specular_albedo == Some(r)
                ||| e.normals == Some(r)
                ||| e.roughness == Some(r)
                ||| e.specular_hit_distance == Some(r)
            } ==> (#[trigger] r.width) == info.source_size.width && r.height
                == info.source_size.height,
{
}

/// Dispatches that differ in the size of the source alone differ in the render subrect, and
/// in the sizes of what is read; the images, the output and the numbers are the same.
pub proof fn law_source_size_sets_the_render_size(
    session: &DlssSession,
    a: &SuperResolutionDispatchInfo,
    b: &SuperResolutionDispatchInfo,
    x: DlssdEvaluation,
    y: DlssdEvaluation,
)
    requires
        call_ensures(DlssSession::dispatch, (session, a), Some(x)),
        call_ensures(DlssSession::dispatch, (session, b), Some(y)),
        *b == (SuperResolutionDispatchInfo { source_size: b.source_size, ..*a }),
    ensures
        x.in_render_subrect_dimensions == y.in_render_subrect_dimensions <==> a.source_size
            == b.source_size,
        x.color.image_info == y.color.image_info,
        x.output == y.output,
        x.in_mv_scale_x == y.in_mv_scale_x && x.in_mv_scale_y == y.in_mv_scale_y,
        x.in_jitter_offset_x == y.in_jitter_offset_x && x.in_jitter_offset_y
            == y.in_jitter_offset_y,
        x.in_reset == y.in_reset,
        a.source_size == b.source_size ==> x.color == y.color && x.depth == y.depth
            && x.motion_vectors == y.motion_vectors && x.normals == y.normals,
{
}

/// Sessions on which the same dispatch is recorded render the same region, whatever size
/// each was created with.
pub proof fn law_render_size_is_the_dispatchs_own(
    a: &DlssSession,
    b: &DlssSession,
    info: &SuperResolutionDispatchInfo,
    x: DlssdEvaluation,
    y: DlssdEvaluation,
)
    requires
        call_ensures(DlssSession::dispatch, (a, info), Some(x)),
        call_ensures(DlssSession::dispatch, (b, info), Some(y)),
    ensures
        x.in_render_subrect_dimensions == y.in_render_subrect_dimensions,
        x.color == y.color,
        x.depth == y.depth,
        x.diffuse_albedo == y.diffuse_albedo,
        x.specular_albedo == y.specular_albedo,
        x.normals == y.normals,
        x.specular_hit_distance == y.specular_hit_distance,
        x.roughness is Some && y.roughness is Some ==> x.roughness == y.roughness,
        x.in_jitter_offset_x == y.in_jitter_offset_x,
        x.in_jitter_offset_y == y.in_jitter_offset_y,
        x.in_reset == y.in_reset,
{
}

/// Each input of NGX is the image that the dispatch carries for that part, and there is one
/// exactly where the dispatch has one. Images that DLSS-RR does not take are left out.
pub proof fn law_evaluation_reads_the_dispatchs_images(
    session: &DlssSession,
    info: &SuperResolutionDispatchInfo,
    e: DlssdEvaluation,
)
    requires
        call_ensures(DlssSession::dispatch, (session, info), Some(e)),
    ensures
        reads_images(e, *session, *info),
{
}

/// The numbers of an evaluation: motion scales are the session's, each for its own axis;
/// jitter is the dispatch's, each for its own axis, and none without motion; history is reset
/// exactly where bit 0x4 is among the dispatch's flags.
pub proof fn law_evaluation_numbers_come_from_their_own_fields(
    session: &DlssSession,
    info: &SuperResolutionDispatchInfo,
    e: DlssdEvaluation,
)
    requires
        call_ensures(DlssSession::dispatch, (session, info), Some(e)),
    ensures
        takes_numbers(e, *session, *info),
{
}

/// A dispatch evaluates something exactly where the session has a feature.
pub proof fn law_only_initialized_sessions_evaluate(
    session: &DlssSession,
    info: &SuperResolutionDispatchInfo,
    r: Option<DlssdEvaluation>,
)
    requires
        call_ensures(DlssSession::dispatch, (session, info), r),
    ensures
        r is Some <==> session.feature is Some,
{
}

/// NGX gets the dispatch's matrices with every element in its place: column after column,
/// row after row in each.
pub proof fn law_evaluation_keeps_the_matrices(
    session: &DlssSession,
    info: &SuperResolutionDispatchInfo,
    e: DlssdEvaluation,
)
    requires
        call_ensures(DlssSession::dispatch, (session, info), Some(e)),
    ensures
        keeps_matrices(e, *info),
{
}

/// A matrix is flattened with every element in its place.
pub proof fn law_flattening_keeps_every_element(
    m: &[[Single; 4]; 4],
    flat: [Single; 16],
    column: int,
    row: int,
)
    requires
        call_ensures(flatten, (m,), flat),
        0 <= column < 4,
        0 <= row < 4,
    ensures
        flat@[4 * column + row] == m@[column]@[row],
{
    assert((4 * column + row) / 4 == column && (4 * column + row) % 4 == row);
}

/// A resource describes the view it was built over and the image that was asked for.
pub proof fn law_resource_describes_its_view(
    request: &ResourceRequest,
    view: ImageView,
    r: Resource,
)
    requires
        call_ensures(make_resource, (request, view), r),
    ensures
        r.0.resource_type == NVSDK_NGX_Resource_VK_Type::ImageView,
        r.0.resource.image_view == view,
        r.0.resource.image == request.image_info.view.image,
        r.0.resource.format == request.image_info.view.format,
        r.0.resource.subresource_range == request.image_info.view.subresource_range,
        r.0.resource.width == request.width,
        r.0.resource.height == request.height,
        r.0.read_write == request.read_write,
{
}

/// From creation to evaluation: what a session was created with decides the size of the
/// output, the motion scales, the size of the motion vectors and whether roughness has an
/// image; nothing else of the create info reaches an evaluation.
pub proof fn law_creation_reaches_the_evaluation(
    ci: &SuperResolutionSessionCreateInfo,
    runtime: NgxRuntime,
    created: DlssSession,
    feature: NgxFeature,
    info: &SuperResolutionDispatchInfo,
    e: DlssdEvaluation,
)
    requires
        ci.engine.0 == 0,
        call_ensures(create_session, (ci, Ok(runtime)), Ok(created)),
        call_ensures(
            DlssSession::dispatch,
            (&(DlssSession { feature: Some(feature), ..created }), info),
            Some(e),
        ),
    ensures
        e.feature == feature,
        e.output.width == ci.destination_region_size.width,
        e.output.height == ci.destination_region_size.height,
        e.in_mv_scale_x == ci.motion_vector_scale_x,
        e.in_mv_scale_y == ci.motion_vector_scale_y,
        e.in_render_subrect_dimensions.width == info.source_size.width,
        e.in_render_subrect_dimensions.height == info.source_size.height,
        e.motion_vectors matches Some(r) ==> {
            &&& ci.flags.0 & 0x2 == 0x2 ==> r.width == ci.destination_region_size.width && r.height
                == ci.destination_region_size.height
            &&& ci.flags.0 & 0x2 != 0x2 ==> r.width == info.source_size.width && r.height
                == info.source_size.height
        },
        e.roughness is Some <==> ci.roughness_format != Format::undefined() && info.denoise_info
            is Some,
{
}

} // verus!
