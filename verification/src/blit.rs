//! Plain-Vulkan blit implementation of the super-resolution interface.
//!
//! The blit engine upscales with a single `vkCmdBlitImage` (linear filter). It
//! consumes only a source color image and writes the destination — no temporal
//! accumulation, no denoising, no jitter. It exists as a universally available
//! fallback for platforms/drivers where no vendor engine works, and as a
//! reference backend for bring-up debugging.
use vstd::prelude::*;

use crate::engine::{
    ascii_bytes, ascii_engine_name, fill_scaling_factors, padded_name, report, reported,
    scaling_factor_slots,
};
use crate::flags::{
    SuperResolutionEnginePropertyFlags, SuperResolutionImageUseFlags,
    SuperResolutionQualityFocusFlags,
};
use crate::types::{
    ScalingFactor, SuperResolutionDispatchInfo, SuperResolutionEngineProperties,
    SuperResolutionImageInfo, SuperResolutionImageProperties, SuperResolutionSessionCreateInfo,
};
use crate::vk::{
    Extent2D, Filter, Format, Image, ImageBlit, ImageLayout, ImageSubresourceLayers,
    ImageSubresourceRange, ImageUsageFlags, Offset2D, Offset3D, VkError, VkResult,
    QUEUE_FAMILY_IGNORED, REMAINING_ARRAY_LAYERS,
};

verus! {

/// Color formats accepted for both the source and the destination. All of
/// these support `BLIT_SRC`/`BLIT_DST` with linear filtering on every Vulkan
/// implementation this backend targets.
pub open spec fn color_formats() -> Seq<Format> {
    seq![
        Format::r16g16b16a16_sfloat(),
        Format::r8g8b8a8_unorm(),
        Format::b8g8r8a8_unorm(),
        Format::a2b10g10r10_unorm_pack32(),
    ]
}

fn color_format_list() -> (formats: [Format; 4])
    ensures
        formats@ == color_formats(),
{
    let formats = [
        Format::r16g16b16a16_sfloat(),
        Format::r8g8b8a8_unorm(),
        Format::b8g8r8a8_unorm(),
        Format::a2b10g10r10_unorm_pack32(),
    ];
    assert(formats@ =~= color_formats());
    formats
}

/// Representative discrete scaling factors; blit scaling is fully continuous.
pub open spec fn scaling_factors() -> Seq<ScalingFactor> {
    seq![
        ScalingFactor { numerator: 1, denominator: 1 },  // 1.00x (copy)
        ScalingFactor { numerator: 3, denominator: 2 },  // 1.50x
        ScalingFactor { numerator: 5, denominator: 3 },  // 1.67x
        ScalingFactor { numerator: 7, denominator: 4 },  // 1.75x
        ScalingFactor { numerator: 2, denominator: 1 },  // 2.00x
        ScalingFactor { numerator: 5, denominator: 2 },  // 2.50x
        ScalingFactor { numerator: 3, denominator: 1 },  // 3.00x
    ]
}

fn scaling_factor_list() -> (factors: [ScalingFactor; 7])
    ensures
        factors@ == scaling_factors(),
{
    let factors = [
        ScalingFactor { numerator: 1, denominator: 1 },
        ScalingFactor { numerator: 3, denominator: 2 },
        ScalingFactor { numerator: 5, denominator: 3 },
        ScalingFactor { numerator: 7, denominator: 4 },
        ScalingFactor { numerator: 2, denominator: 1 },
        ScalingFactor { numerator: 5, denominator: 2 },
        ScalingFactor { numerator: 3, denominator: 1 },
    ];
    assert(factors@ =~= scaling_factors());
    factors
}

/// The image uses of the blit engine.
pub open spec fn image_used() -> SuperResolutionImageUseFlags {
    SuperResolutionImageUseFlags(
        SuperResolutionImageUseFlags::source().0 | SuperResolutionImageUseFlags::destination().0,
    )
}

/// Properties of the blit engine on a device with the given vendor and the given
/// limit on the size of a 2D image.
pub fn engine_properties(vendor_id: u32, max_image_dimension_2d: u32) -> (r:
    SuperResolutionEngineProperties)
    ensures
        r.vendor_id == vendor_id,
        r.engine_version == 0,
        r.engine_uuid@ == Seq::new(16, |i: int| 0u8),
        r.engine_name@ == padded_name(ascii_bytes("Vulkan Blit"@)),
        r.flags.0 == (SuperResolutionEnginePropertyFlags::supports_continuous_scaling().0
            | SuperResolutionEnginePropertyFlags::supports_dynamic_source_size().0),
        r.image_used == image_used(),
        r.supported_quality_focuses.0 == (SuperResolutionQualityFocusFlags::balanced().0
            | SuperResolutionQualityFocusFlags::quality().0
            | SuperResolutionQualityFocusFlags::performance().0
            | SuperResolutionQualityFocusFlags::power().0),
        r.supported_queue_family_indexes@ == Seq::new(8, |i: int| QUEUE_FAMILY_IGNORED),
        r.supported_scaling_factor_count == scaling_factors().len(),
        r.supported_scaling_factors@ == scaling_factor_slots(scaling_factors()),
        r.max_destination_region_size == (Extent2D {
            width: max_image_dimension_2d,
            height: max_image_dimension_2d,
        }),
        r.max_supported_concurrent_session_dispatches == u32::MAX,
{
    let name = "Vulkan Blit";
    proof {
        reveal_strlit("Vulkan Blit");
        assert(name@ =~= seq!['V', 'u', 'l', 'k', 'a', 'n', ' ', 'B', 'l', 'i', 't']);
    }
    let factors = scaling_factor_list();
    SuperResolutionEngineProperties {
        vendor_id,
        engine_version: 0,
        engine_uuid: [0u8;16],
        engine_name: ascii_engine_name(name),
        // Single-frame: not temporal. Any source/destination size combination
        // works, and the per-dispatch `source_size` makes the source dynamic.
        flags: SuperResolutionEnginePropertyFlags::supports_continuous_scaling()
            | SuperResolutionEnginePropertyFlags::supports_dynamic_source_size(),
        image_used: SuperResolutionImageUseFlags::source()
            | SuperResolutionImageUseFlags::destination(),
        // A blit has no quality/performance trade-off to make; accept any focus.
        supported_quality_focuses: SuperResolutionQualityFocusFlags::balanced()
            | SuperResolutionQualityFocusFlags::quality()
            | SuperResolutionQualityFocusFlags::performance()
            | SuperResolutionQualityFocusFlags::power(),
        supported_queue_family_indexes: [QUEUE_FAMILY_IGNORED;8],
        supported_scaling_factor_count: 7,
        supported_scaling_factors: fill_scaling_factors(&factors),
        max_destination_region_size: Extent2D {
            width: max_image_dimension_2d,
            height: max_image_dimension_2d,
        },
        max_supported_concurrent_session_dispatches: u32::MAX,
    }
}

/// The formats of the blit engine for the uses asked about: the color formats as
/// transfer source, then as transfer destination.
pub open spec fn supported_images(image_use: SuperResolutionImageUseFlags) -> Seq<
    SuperResolutionImageProperties,
> {
    reported(
        image_use,
        SuperResolutionImageUseFlags::source(),
        color_formats(),
        ImageUsageFlags::transfer_src(),
    ) + reported(
        image_use,
        SuperResolutionImageUseFlags::destination(),
        color_formats(),
        ImageUsageFlags::transfer_dst(),
    )
}

/// Enumerates the image properties that the blit engine supports for the given
/// `image_use`.
pub fn engine_supported_image_properties(image_use: SuperResolutionImageUseFlags) -> (properties:
    Vec<SuperResolutionImageProperties>)
    ensures
        properties@ == supported_images(image_use),
{
    let formats = color_format_list();
    let mut properties: Vec<SuperResolutionImageProperties> = Vec::new();
    report(
        &mut properties,
        image_use,
        SuperResolutionImageUseFlags::source(),
        &formats,
        ImageUsageFlags::transfer_src(),
    );
    report(
        &mut properties,
        image_use,
        SuperResolutionImageUseFlags::destination(),
        &formats,
        ImageUsageFlags::transfer_dst(),
    );
    assert(properties@ =~= supported_images(image_use));
    properties
}

/// State backing a blit session. A blit is stateless; only the destination region
/// size (not part of the dispatch info) is kept.
#[derive(Clone, Copy, Debug, PartialEq, Eq, Hash, Structural)]
pub struct BlitSession {
    pub destination_region_size: Extent2D,
}

fn is_color_format(format: Format) -> (b: bool)
    ensures
        b == color_formats().contains(format),
{
    let b = format == Format::r16g16b16a16_sfloat() || format == Format::r8g8b8a8_unorm() || format
        == Format::b8g8r8a8_unorm() || format == Format::a2b10g10r10_unorm_pack32();
    proof {
        let s = color_formats();
        assert(s[0] == Format::r16g16b16a16_sfloat());
        assert(s[1] == Format::r8g8b8a8_unorm());
        assert(s[2] == Format::b8g8r8a8_unorm());
        assert(s[3] == Format::a2b10g10r10_unorm_pack32());
    }
    b
}

/// Creates a blit session: possible exactly where both color formats are among
/// those that the engine accepts.
pub fn create_session(create_info: &SuperResolutionSessionCreateInfo) -> (r: VkResult<BlitSession>)
    ensures
        r == (if color_formats().contains(create_info.source_format) && color_formats().contains(
            create_info.destination_format,
        ) {
            Ok(BlitSession { destination_region_size: create_info.destination_region_size })
        } else {
            Err(VkError::FormatNotSupported)
        }),
{
    if !is_color_format(create_info.source_format) || !is_color_format(
        create_info.destination_format,
    ) {
        return Err(VkError::FormatNotSupported);
    }
    Ok(BlitSession { destination_region_size: create_info.destination_region_size })
}

/// Maps an image-info subresource range to the single-mip layers a blit region
/// addresses.
#[verifier::allow_in_spec]
pub fn subresource_layers(range: ImageSubresourceRange) -> ImageSubresourceLayers
    returns
        (ImageSubresourceLayers {
            aspect_mask: range.aspect_mask,
            mip_level: range.base_mip_level,
            base_array_layer: range.base_array_layer,
            layer_count: if range.layer_count == REMAINING_ARRAY_LAYERS {
                1
            } else {
                range.layer_count
            },
        }),
{
    ImageSubresourceLayers {
        aspect_mask: range.aspect_mask,
        mip_level: range.base_mip_level,
        base_array_layer: range.base_array_layer,
        layer_count: if range.layer_count == REMAINING_ARRAY_LAYERS {
            1
        } else {
            range.layer_count
        },
    }
}

/// A size as the signed coordinate that Vulkan's offsets are made of: sizes from
/// two to the power of 31 on wrap around to negative coordinates.
pub open spec fn signed_size(size: u32) -> int {
    if size < 0x8000_0000 {
        size as int
    } else {
        size - 0x1_0000_0000
    }
}

/// Whether the far corner of a region can be written as an offset.
pub open spec fn region_fits(offset: Offset2D, size: Extent2D) -> bool {
    &&& i32::MIN <= offset.x + signed_size(size.width) <= i32::MAX
    &&& i32::MIN <= offset.y + signed_size(size.height) <= i32::MAX
}

/// Whether both regions of a dispatch can be written as offsets.
pub open spec fn regions_fit(session: BlitSession, info: SuperResolutionDispatchInfo) -> bool {
    &&& region_fits(info.source_image_info.view_offset, info.source_size)
    &&& region_fits(info.destination_image_info.view_offset, session.destination_region_size)
}

/// The near and the far corner of a region that starts at `offset`.
pub open spec fn corners(offset: Offset2D, size: Extent2D) -> Seq<Offset3D> {
    seq![
        Offset3D { x: offset.x, y: offset.y, z: 0 },
        Offset3D {
            x: (offset.x + signed_size(size.width)) as i32,
            y: (offset.y + signed_size(size.height)) as i32,
            z: 1,
        },
    ]
}

fn coordinate(size: u32) -> (c: i32)
    ensures
        c == signed_size(size),
{
    let c: i32 = #[verifier::truncate] (size as i32);
    assert(size < 0x8000_0000 ==> (size as i32) == size) by (bit_vector);
    assert(size >= 0x8000_0000 ==> (size as i32) == size - 0x1_0000_0000) by (bit_vector);
    c
}

fn corner_pair(offset: Offset2D, size: Extent2D) -> (pair: [Offset3D; 2])
    requires
        region_fits(offset, size),
    ensures
        pair@ == corners(offset, size),
{
    let pair = [
        Offset3D { x: offset.x, y: offset.y, z: 0 },
        Offset3D {
            x: offset.x + coordinate(size.width),
            y: offset.y + coordinate(size.height),
            z: 1,
        },
    ];
    assert(pair@ =~= corners(offset, size));
    pair
}

fn can_add(offset: i32, size: u32) -> (b: bool)
    ensures
        b == (i32::MIN <= offset + signed_size(size) <= i32::MAX),
{
    let sum: i64 = offset as i64 + coordinate(size) as i64;
    -0x8000_0000 <= sum && sum <= 0x7fff_ffff
}

/// Tells whether [`dispatch`] can write both regions as offsets. A dispatch for
/// which it cannot has no meaning to Vulkan.
pub fn dispatch_fits(
    session: &BlitSession,
    dispatch_info: &SuperResolutionDispatchInfo,
) -> (b: bool)
    ensures
        b == regions_fit(*session, *dispatch_info),
{
    let src = dispatch_info.source_image_info;
    let dst = dispatch_info.destination_image_info;
    can_add(src.view_offset.x, dispatch_info.source_size.width) && can_add(
        src.view_offset.y,
        dispatch_info.source_size.height,
    ) && can_add(dst.view_offset.x, session.destination_region_size.width) && can_add(
        dst.view_offset.y,
        session.destination_region_size.height,
    )
}

/// One `vkCmdBlitImage`.
#[derive(Clone, Copy, Debug)]
pub struct BlitCommand {
    pub src_image: Image,
    pub src_layout: ImageLayout,
    pub dst_image: Image,
    pub dst_layout: ImageLayout,
    pub region: ImageBlit,
    pub filter: Filter,
}

/// Whether `command` is the blit of a dispatch: from the region of the source image
/// that starts at its view offset and has the size of the source, to the region of
/// the destination image that starts at its view offset and has the size of the
/// destination.
pub open spec fn blits(
    command: BlitCommand,
    session: BlitSession,
    info: SuperResolutionDispatchInfo,
) -> bool {
    let src = info.source_image_info;
    let dst = info.destination_image_info;
    &&& command.src_image == src.view.image
    &&& command.src_layout == src.initial_layout
    &&& command.dst_image == dst.view.image
    &&& command.dst_layout == dst.initial_layout
    &&& command.region.src_subresource == subresource_layers(src.view.subresource_range)
    &&& command.region.src_offsets@ == corners(src.view_offset, info.source_size)
    &&& command.region.dst_subresource == subresource_layers(dst.view.subresource_range)
    &&& command.region.dst_offsets@ == corners(dst.view_offset, session.destination_region_size)
    &&& command.filter == Filter::Linear
}

/// The blit of a dispatch: a single linear-filtered `vkCmdBlitImage` from the
/// source region to the destination region. All other dispatch inputs (depth,
/// motion, exposure, G-buffers) are ignored.
pub fn dispatch(session: &BlitSession, dispatch_info: &SuperResolutionDispatchInfo) -> (r:
    BlitCommand)
    requires
        regions_fit(*session, *dispatch_info),
    ensures
        blits(r, *session, *dispatch_info),
{
    let src: SuperResolutionImageInfo = dispatch_info.source_image_info;
    let dst: SuperResolutionImageInfo = dispatch_info.destination_image_info;
    let region = ImageBlit {
        src_subresource: subresource_layers(src.view.subresource_range),
        src_offsets: corner_pair(src.view_offset, dispatch_info.source_size),
        dst_subresource: subresource_layers(dst.view.subresource_range),
        dst_offsets: corner_pair(dst.view_offset, session.destination_region_size),
    };
    BlitCommand {
        src_image: src.view.image,
        src_layout: src.initial_layout,
        dst_image: dst.view.image,
        dst_layout: dst.initial_layout,
        region,
        filter: Filter::Linear,
    }
}

/// Depth, motion, exposure, G-buffers and all other inputs are ignored: dispatches
/// with the same source, destination and source size are the same blits.
pub proof fn law_other_inputs_are_ignored(
    command: BlitCommand,
    session: BlitSession,
    a: SuperResolutionDispatchInfo,
    b: SuperResolutionDispatchInfo,
)
    requires
        a.source_image_info == b.source_image_info,
        a.destination_image_info == b.destination_image_info,
        a.source_size == b.source_size,
    ensures
        blits(command, session, a) <==> blits(command, session, b),
        regions_fit(session, a) <==> regions_fit(session, b),
{
}

/// The blit engine reports formats exactly for the image uses it declares.
pub proof fn law_formats_match_declared_uses(image_use: SuperResolutionImageUseFlags)
    ensures
        supported_images(image_use).len() > 0 <==> image_use.intersects(image_used()),
{
    let x = image_use.0;
    assert((x & 1 == 1 || x & 2 == 2) <==> x & (1u32 | 2u32) != 0) by (bit_vector);
}

/// A session can be created exactly with formats that the engine reports: the
/// source format for the source use, the destination format for the destination
/// use.
pub proof fn law_session_formats_are_the_reported_ones(format: Format)
    ensures
        color_formats().contains(format) <==> supported_images(
            SuperResolutionImageUseFlags::source(),
        ).contains(
            SuperResolutionImageProperties {
                format,
                image_usage_flags: ImageUsageFlags::transfer_src(),
            },
        ),
        color_formats().contains(format) <==> supported_images(
            SuperResolutionImageUseFlags::destination(),
        ).contains(
            SuperResolutionImageProperties {
                format,
                image_usage_flags: ImageUsageFlags::transfer_dst(),
            },
        ),
{
    assert(1u32 & 1 == 1 && 1u32 & 2 != 2 && 2u32 & 1 != 1 && 2u32 & 2 == 2) by (bit_vector);
    let source = supported_images(SuperResolutionImageUseFlags::source());
    let destination = supported_images(SuperResolutionImageUseFlags::destination());
    assert(source.len() == color_formats().len());
    assert(destination.len() == color_formats().len());
    assert forall|i: int| 0 <= i < color_formats().len() implies (#[trigger] source[i])
        == (SuperResolutionImageProperties {
        format: color_formats()[i],
        image_usage_flags: ImageUsageFlags::transfer_src(),
    }) && destination[i] == (SuperResolutionImageProperties {
        format: color_formats()[i],
        image_usage_flags: ImageUsageFlags::transfer_dst(),
    }) by {}
    if color_formats().contains(format) {
        let i = choose|i: int| 0 <= i < color_formats().len() && color_formats()[i] == format;
        assert(source[i].format == format);
        assert(destination[i].format == format);
    }
}

/// The region of a blit spans the size asked for: its far corner lies `size` beyond
/// its near corner, one texel deep.
pub proof fn law_region_spans_size(offset: Offset2D, size: Extent2D)
    requires
        region_fits(offset, size),
        size.width < 0x8000_0000,
        size.height < 0x8000_0000,
    ensures
        corners(offset, size)[1].x - corners(offset, size)[0].x == size.width,
        corners(offset, size)[1].y - corners(offset, size)[0].y == size.height,
        corners(offset, size)[1].z - corners(offset, size)[0].z == 1,
{
}

} // verus!
