//! What a blit session is, and what its dispatches blit.
use vstd::prelude::*;

use crate::blit::{
    create_session, dispatch, dispatch_fits, subresource_layers, BlitCommand, BlitSession,
};
use crate::types::{SuperResolutionDispatchInfo, SuperResolutionSessionCreateInfo};
use crate::vk::{
    Extent2D, Filter, Format, ImageSubresourceLayers, ImageSubresourceRange, Offset2D, Offset3D,
    VkError, VkResult,
};

verus! {

/// Whether a region fits the signed coordinates of Vulkan: its size does, and its far corner.
pub open spec fn is_drawable(offset: Offset2D, size: Extent2D) -> bool {
    &&& size.width <= i32::MAX
    &&& size.height <= i32::MAX
    &&& offset.x + size.width <= i32::MAX
    &&& offset.y + size.height <= i32::MAX
}

/// Whether a size leads from an offset to a coordinate: the size itself where it is one, else
/// what it stands for as a negative number.
pub open spec fn can_reach(offset: i32, size: u32) -> bool {
    &&& size <= i32::MAX ==> offset + size <= i32::MAX
    &&& size > i32::MAX ==> offset + size >= i32::MIN + 0x1_0000_0000
}

/// Whether two corners span the region of the given size that starts at the given offset, one
/// texel deep.
pub open spec fn spans(corners: Seq<Offset3D>, offset: Offset2D, size: Extent2D) -> bool {
    &&& corners.len() == 2
    &&& corners[0].x == offset.x && corners[0].y == offset.y && corners[0].z == 0
    &&& corners[1].x == offset.x + size.width
    &&& corners[1].y == offset.y + size.height
    &&& corners[1].z == 1
}

/// Whether layers are those of a view: its aspect, its first mip level, and its array layers,
/// one where it covers all that remain.
pub open spec fn are_layers_of(l: ImageSubresourceLayers, range: ImageSubresourceRange) -> bool {
    &&& l.aspect_mask == range.aspect_mask
    &&& l.mip_level == range.base_mip_level
    &&& l.base_array_layer == range.base_array_layer
    &&& range.layer_count == 0xffff_ffff ==> l.layer_count == 1
    &&& range.layer_count != 0xffff_ffff ==> l.layer_count == range.layer_count
}

/// The layers of a view's range.
pub proof fn law_layers_are_the_views(range: ImageSubresourceRange, l: ImageSubresourceLayers)
    requires
        call_ensures(subresource_layers, (range,), l),
    ensures
        are_layers_of(l, range),
{
}

/// A dispatch blits the region of the source that the dispatch says into the region of the
/// destination that has the session's size, linearly filtered, each image in the layout that
/// it is in.
pub proof fn law_blit_scales_source_into_destination(
    session: &BlitSession,
    info: &SuperResolutionDispatchInfo,
    c: BlitCommand,
)
    requires
        is_drawable(info.source_image_info.view_offset, info.source_size),
        is_drawable(info.destination_image_info.view_offset, session.destination_region_size),
        call_ensures(dispatch, (session, info), c),
    ensures
        c.src_image == info.source_image_info.view.image,
        c.dst_image == info.destination_image_info.view.image,
        c.src_layout == info.source_image_info.initial_layout,
        c.dst_layout == info.destination_image_info.initial_layout,
        c.filter == Filter::Linear,
        spans(c.region.src_offsets@, info.source_image_info.view_offset, info.source_size),
        spans(
            c.region.dst_offsets@,
            info.destination_image_info.view_offset,
            session.destination_region_size,
        ),
        are_layers_of(
            c.region.src_subresource,
            info.source_image_info.view.subresource_range,
        ),
        are_layers_of(
            c.region.dst_subresource,
            info.destination_image_info.view.subresource_range,
        ),
{
}

/// Whatever the sizes, the far corners lie at the size's distance from the near ones, counted
/// around in 32 bits.
pub proof fn law_blit_regions_count_around(
    session: &BlitSession,
    info: &SuperResolutionDispatchInfo,
    c: BlitCommand,
    b: bool,
)
    requires
        call_ensures(dispatch_fits, (session, info), b),
        b ==> call_ensures(dispatch, (session, info), c),
    ensures
        b <==> {
            &&& can_reach(info.source_image_info.view_offset.x, info.source_size.width)
            &&& can_reach(info.source_image_info.view_offset.y, info.source_size.height)
            &&& can_reach(
                info.destination_image_info.view_offset.x,
                session.destination_region_size.width,
            )
            &&& can_reach(
                info.destination_image_info.view_offset.y,
                session.destination_region_size.height,
            )
        },
        b ==> {
            let (src, dst) = (c.region.src_offsets@, c.region.dst_offsets@);
            &&& src[0].x == info.source_image_info.view_offset.x
            &&& src[0].y == info.source_image_info.view_offset.y
            &&& dst[0].x == info.destination_image_info.view_offset.x
            &&& dst[0].y == info.destination_image_info.view_offset.y
            &&& (src[1].x - src[0].x) % 0x1_0000_0000 == info.source_size.width
            &&& (src[1].y - src[0].y) % 0x1_0000_0000 == info.source_size.height
            &&& (dst[1].x - dst[0].x) % 0x1_0000_0000 == session.destination_region_size.width
            &&& (dst[1].y - dst[0].y) % 0x1_0000_0000 == session.destination_region_size.height
        },
{
}

/// Every dispatch whose regions fit the signed coordinates can be blitted; sizes that do not
/// wrap around count as they are.
pub proof fn law_drawable_regions_fit(
    session: &BlitSession,
    info: &SuperResolutionDispatchInfo,
    b: bool,
)
    requires
        call_ensures(dispatch_fits, (session, info), b),
        info.source_size.width <= i32::MAX,
        info.source_size.height <= i32::MAX,
        session.destination_region_size.width <= i32::MAX,
        session.destination_region_size.height <= i32::MAX,
    ensures
        b <==> is_drawable(info.source_image_info.view_offset, info.source_size) && is_drawable(
            info.destination_image_info.view_offset,
            session.destination_region_size,
        ),
{
}

/// Whether a format is one of the four color formats that a blit takes.
pub open spec fn is_color(format: Format) -> bool {
    ||| format == Format::r16g16b16a16_sfloat()
    ||| format == Format::r8g8b8a8_unorm()
    ||| format == Format::b8g8r8a8_unorm()
    ||| format == Format::a2b10g10r10_unorm_pack32()
}

/// A blit session is created exactly where both formats are color formats, and keeps the size
/// of the destination.
pub proof fn law_blit_sessions_need_color_formats(
    ci: &SuperResolutionSessionCreateInfo,
    r: VkResult<BlitSession>,
)
    requires
        call_ensures(create_session, (ci,), r),
    ensures
        r is Ok <==> is_color(ci.source_format) && is_color(ci.destination_format),
        r matches Ok(session) ==> session.destination_region_size == ci.destination_region_size,
        r matches Err(e) ==> e == VkError::FormatNotSupported,
{
    let s = crate::blit::color_formats();
    assert(s[0] == Format::r16g16b16a16_sfloat());
    assert(s[1] == Format::r8g8b8a8_unorm());
    assert(s[2] == Format::b8g8r8a8_unorm());
    assert(s[3] == Format::a2b10g10r10_unorm_pack32());
}

} // verus!
