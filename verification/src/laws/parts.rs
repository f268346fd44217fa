//! Laws of the smaller operations that the backends are made of.
use vstd::prelude::*;
use vstd::string::StringSliceAdditionalSpecFns;

use crate::dlss::{self, Resource};
use crate::dlss::sys::{NVSDK_NGX_Resource_VK_Type, NVSDK_NGX_Result};
use crate::engine::{ascii_engine_name, report, unused_scaling_factors};
use crate::flags::{
    SuperResolutionDispatchFlags, SuperResolutionEnginePropertyFlags, SuperResolutionImageUseFlags,
    SuperResolutionQualityFocusFlags, SuperResolutionSessionCreateFlags,
    SuperResolutionSessionMemoryRequirementsFlags,
};
use crate::jitter::{jitter_pattern, texel_pattern};
use crate::laws::engines::keeps_in_range;
use crate::metalfx;
use crate::metalfx::dispatch::{optional_image, optional_placed, placed, PlacedTexture};
use crate::metalfx::scaler::{scaler_of, MTLPixelFormat, Scaler};
use crate::single::Single;
use crate::types::{
    ScalingFactor, SuperResolutionDescriptorHeapRanges, SuperResolutionEngine,
    SuperResolutionImageInfo, SuperResolutionImageProperties,
    SuperResolutionSessionMemoryRequirements,
};
use crate::vk::{
    DriverId, Format, Image, ImageSubresourceRange, ImageUsageFlags, ImageView, VkError,
};

verus! {

/// Each of these flags is a bit of its own: a set contains it where that bit is set.
pub proof fn law_engine_property_flags_are_bits_of_their_own(
    flags: SuperResolutionEnginePropertyFlags,
)
    ensures
        flags.contains(
            SuperResolutionEnginePropertyFlags::is_temporal(),
        ) <==> flags.0 & 0x1 == 0x1,
        flags.contains(
            SuperResolutionEnginePropertyFlags::supports_pipeline_cache(),
        ) <==> flags.0 & 0x2 == 0x2,
        flags.contains(
            SuperResolutionEnginePropertyFlags::supports_continuous_scaling(),
        ) <==> flags.0 & 0x4 == 0x4,
        flags.contains(
            SuperResolutionEnginePropertyFlags::supports_dynamic_source_size(),
        ) <==> flags.0 & 0x8 == 0x8,
        flags.contains(
            SuperResolutionEnginePropertyFlags::uses_sharpness(),
        ) <==> flags.0 & 0x10 == 0x10,
        SuperResolutionEnginePropertyFlags::empty().0 == 0,
{
}

/// Each of these flags is a bit of its own: a set contains it where that bit is set.
pub proof fn law_image_use_flags_are_bits_of_their_own(
    flags: SuperResolutionImageUseFlags,
)
    ensures
        flags.contains(
            SuperResolutionImageUseFlags::source(),
        ) <==> flags.0 & 0x1 == 0x1,
        flags.contains(
            SuperResolutionImageUseFlags::destination(),
        ) <==> flags.0 & 0x2 == 0x2,
        flags.contains(
            SuperResolutionImageUseFlags::depth(),
        ) <==> flags.0 & 0x4 == 0x4,
        flags.contains(
            SuperResolutionImageUseFlags::motion_vectors(),
        ) <==> flags.0 & 0x8 == 0x8,
        flags.contains(
            SuperResolutionImageUseFlags::reactive_mask(),
        ) <==> flags.0 & 0x10 == 0x10,
        flags.contains(
            SuperResolutionImageUseFlags::ignore_history_mask(),
        ) <==> flags.0 & 0x20 == 0x20,
        flags.contains(
            SuperResolutionImageUseFlags::exposure_scale(),
        ) <==> flags.0 & 0x40 == 0x40,
        flags.contains(
            SuperResolutionImageUseFlags::diffuse_albedo(),
        ) <==> flags.0 & 0x80 == 0x80,
        flags.contains(
            SuperResolutionImageUseFlags::specular_albedo(),
        ) <==> flags.0 & 0x100 == 0x100,
        flags.contains(
            SuperResolutionImageUseFlags::normal(),
        ) <==> flags.0 & 0x200 == 0x200,
        flags.contains(
            SuperResolutionImageUseFlags::roughness(),
        ) <==> flags.0 & 0x400 == 0x400,
        flags.contains(
            SuperResolutionImageUseFlags::specular_hit_distance(),
        ) <==> flags.0 & 0x800 == 0x800,
        flags.contains(
            SuperResolutionImageUseFlags::denoise_strength_mask(),
        ) <==> flags.0 & 0x1000 == 0x1000,
        flags.contains(
            SuperResolutionImageUseFlags::transparency_overlay(),
        ) <==> flags.0 & 0x2000 == 0x2000,
        SuperResolutionImageUseFlags::empty().0 == 0,
{
}

/// Each of these flags is a bit of its own: a set contains it where that bit is set.
pub proof fn law_quality_focus_flags_are_bits_of_their_own(
    flags: SuperResolutionQualityFocusFlags,
)
    ensures
        flags.contains(
            SuperResolutionQualityFocusFlags::balanced(),
        ) <==> flags.0 & 0x1 == 0x1,
        flags.contains(
            SuperResolutionQualityFocusFlags::quality(),
        ) <==> flags.0 & 0x2 == 0x2,
        flags.contains(
            SuperResolutionQualityFocusFlags::performance(),
        ) <==> flags.0 & 0x4 == 0x4,
        flags.contains(
            SuperResolutionQualityFocusFlags::power(),
        ) <==> flags.0 & 0x8 == 0x8,
        SuperResolutionQualityFocusFlags::empty().0 == 0,
{
}

/// Each of these flags is a bit of its own: a set contains it where that bit is set.
pub proof fn law_session_create_flags_are_bits_of_their_own(
    flags: SuperResolutionSessionCreateFlags,
)
    ensures
        flags.contains(
            SuperResolutionSessionCreateFlags::dynamic_source_size(),
        ) <==> flags.0 & 0x1 == 0x1,
        flags.contains(
            SuperResolutionSessionCreateFlags::motion_vectors_use_destination_dimensions(),
        ) <==> flags.0 & 0x2 == 0x2,
        flags.contains(
            SuperResolutionSessionCreateFlags::motion_vectors_use_jitter(),
        ) <==> flags.0 & 0x4 == 0x4,
        flags.contains(
            SuperResolutionSessionCreateFlags::allow_subrect_destination(),
        ) <==> flags.0 & 0x8 == 0x8,
        flags.contains(
            SuperResolutionSessionCreateFlags::linear_depth(),
        ) <==> flags.0 & 0x10 == 0x10,
        flags.contains(
            SuperResolutionSessionCreateFlags::inverted_depth(),
        ) <==> flags.0 & 0x20 == 0x20,
        flags.contains(
            SuperResolutionSessionCreateFlags::use_sharpness(),
        ) <==> flags.0 & 0x40 == 0x40,
        flags.contains(
            SuperResolutionSessionCreateFlags::use_auto_exposure(),
        ) <==> flags.0 & 0x80 == 0x80,
        flags.contains(
            SuperResolutionSessionCreateFlags::force_ldr_colors(),
        ) <==> flags.0 & 0x100 == 0x100,
        flags.contains(
            SuperResolutionSessionCreateFlags::use_legacy_descriptors(),
        ) <==> flags.0 & 0x200 == 0x200,
        SuperResolutionSessionCreateFlags::empty().0 == 0,
{
}

/// Each of these flags is a bit of its own: a set contains it where that bit is set.
pub proof fn law_memory_requirements_flags_are_bits_of_their_own(
    flags: SuperResolutionSessionMemoryRequirementsFlags,
)
    ensures
        flags.contains(
            SuperResolutionSessionMemoryRequirementsFlags::persistent(),
        ) <==> flags.0 & 0x1 == 0x1,
        SuperResolutionSessionMemoryRequirementsFlags::empty().0 == 0,
{
}

/// Each of these flags is a bit of its own: a set contains it where that bit is set.
pub proof fn law_dispatch_flags_are_bits_of_their_own(
    flags: SuperResolutionDispatchFlags,
)
    ensures
        flags.contains(
            SuperResolutionDispatchFlags::inverted_depth_range(),
        ) <==> flags.0 & 0x1 == 0x1,
        flags.contains(
            SuperResolutionDispatchFlags::orthographic_projection(),
        ) <==> flags.0 & 0x2 == 0x2,
        flags.contains(
            SuperResolutionDispatchFlags::reset_history(),
        ) <==> flags.0 & 0x4 == 0x4,
        SuperResolutionDispatchFlags::empty().0 == 0,
{
}

/// Formats, usages, drivers, engines and errors have the numbers of their interfaces.
pub proof fn law_values_have_their_numbers(raw: i32, error: VkError)
    requires
        call_ensures(VkError::as_raw, (error,), raw),
    ensures
        Format::undefined().0 == 0,
        Format::r8_unorm().0 == 9,
        Format::r8g8b8a8_unorm().0 == 37,
        Format::r8g8b8a8_srgb().0 == 43,
        Format::b8g8r8a8_unorm().0 == 44,
        Format::a2b10g10r10_unorm_pack32().0 == 64,
        Format::r16_sfloat().0 == 76,
        Format::r16g16_sfloat().0 == 83,
        Format::r16g16b16a16_sfloat().0 == 97,
        Format::r32_sfloat().0 == 100,
        Format::r32g32b32a32_sfloat().0 == 109,
        Format::d32_sfloat().0 == 126,
        ImageUsageFlags::transfer_src().0 == 0x1,
        ImageUsageFlags::transfer_dst().0 == 0x2,
        ImageUsageFlags::sampled().0 == 0x4,
        ImageUsageFlags::storage().0 == 0x8,
        DriverId::nvidia_proprietary().0 == 4,
        MTLPixelFormat::invalid().0 == 0,
        SuperResolutionEngine::dlss_rr().0 == 0,
        SuperResolutionEngine::metalfx_temporal_scaler().0 == 10,
        SuperResolutionEngine::metalfx_spatial_scaler().0 == 11,
        SuperResolutionEngine::metalfx_temporal_denoised_scaler().0 == 12,
        raw == -3 <==> error is InitializationFailed,
        raw == -8 <==> error is FeatureNotPresent,
        raw == -11 <==> error is FormatNotSupported,
{
}

/// NGX codes have the numbers of the SDK: one for success, and for the failures a number from
/// the range that all failures share.
pub proof fn law_ngx_codes_have_their_numbers()
    ensures
        NVSDK_NGX_Result::success().0 == 0x0000_0001,
        NVSDK_NGX_Result::fail().0 == 0xbad0_0000,
        NVSDK_NGX_Result::fail_feature_not_supported().0 == 0xbad0_0001,
        NVSDK_NGX_Result::fail_platform_error().0 == 0xbad0_0002,
        NVSDK_NGX_Result::fail_feature_already_exists().0 == 0xbad0_0003,
        NVSDK_NGX_Result::fail_feature_not_found().0 == 0xbad0_0004,
        NVSDK_NGX_Result::fail_invalid_parameter().0 == 0xbad0_0005,
        NVSDK_NGX_Result::fail_scratch_buffer_too_small().0 == 0xbad0_0006,
        NVSDK_NGX_Result::fail_not_initialized().0 == 0xbad0_0007,
        NVSDK_NGX_Result::fail_unsupported_input_format().0 == 0xbad0_0008,
        NVSDK_NGX_Result::fail_rw_flag_missing().0 == 0xbad0_0009,
        NVSDK_NGX_Result::fail_missing_input().0 == 0xbad0_000a,
        NVSDK_NGX_Result::fail_unable_to_initialize_feature().0 == 0xbad0_000b,
        NVSDK_NGX_Result::fail_out_of_date().0 == 0xbad0_000c,
        NVSDK_NGX_Result::fail_out_of_gpu_memory().0 == 0xbad0_000d,
        NVSDK_NGX_Result::fail_unsupported_format().0 == 0xbad0_000e,
        NVSDK_NGX_Result::fail_unable_to_write_to_app_data_path().0 == 0xbad0_000f,
        NVSDK_NGX_Result::fail_unsupported_parameter().0 == 0xbad0_0010,
        NVSDK_NGX_Result::fail_denied().0 == 0xbad0_0011,
        NVSDK_NGX_Result::fail_not_implemented().0 == 0xbad0_0012,
{
}

/// A report of one use leaves what was reported before, and adds each format of the use in
/// order with the use's usage where the use is asked about, else nothing.
pub proof fn law_reports_go_behind_what_was_reported(
    p: &mut Vec<SuperResolutionImageProperties>,
    image_use: SuperResolutionImageUseFlags,
    flag: SuperResolutionImageUseFlags,
    formats: &[Format],
    usage: ImageUsageFlags,
)
    requires
        call_ensures(report, (p, image_use, flag, formats, usage), ()),
    ensures
        image_use.0 & flag.0 != flag.0 ==> final(p)@ == old(p)@,
        image_use.0 & flag.0 == flag.0 ==> final(p)@.len() == old(p)@.len() + formats@.len(),
        final(p)@.take(old(p)@.len() as int) == old(p)@,
        forall|i: int|
            old(p)@.len() <= i < final(p)@.len() ==> (#[trigger] final(p)@[i]).format == formats@[i
                - old(p)@.len()] && final(p)@[i].image_usage_flags == usage,
{
    assert(final(p)@.take(old(p)@.len() as int) =~= old(p)@);
}

/// A name of ASCII characters is copied character for character and padded with NULs.
pub proof fn law_ascii_name_is_copied(name: &str, out: [u8; 32], i: int)
    requires
        name.is_ascii(),
        name@.len() < 32,
        call_ensures(ascii_engine_name, (name,), out),
        0 <= i < 32,
    ensures
        i < name@.len() ==> out@[i] == name@[i] as u8,
        i >= name@.len() ==> out@[i] == 0,
{
}

/// Unused slots are zero over one.
pub proof fn law_unused_slots_are_zero(out: [ScalingFactor; 16], i: int)
    requires
        call_ensures(unused_scaling_factors, (), out),
        0 <= i < 16,
    ensures
        out@[i].numerator == 0,
        out@[i].denominator == 1,
{
}

/// A range of scales is made into exactly those of the candidates 3/2, 5/3, 7/4, 2, 5/2 and 3
/// that lie in it, in order, in the first slots; the other slots stay as they were.
pub proof fn law_scale_ranges_keep_the_candidates_in_them(
    min: Single,
    max: Single,
    out: &mut [ScalingFactor; 16],
    count: u32,
)
    requires
        call_ensures(metalfx::discretize_scale_range, (min, max, out), count),
    ensures
        count <= 6,
        keeps_in_range(
            final(out)@.take(count as int),
            seq![
                ScalingFactor { numerator: 3, denominator: 2 },
                ScalingFactor { numerator: 5, denominator: 3 },
                ScalingFactor { numerator: 7, denominator: 4 },
                ScalingFactor { numerator: 2, denominator: 1 },
                ScalingFactor { numerator: 5, denominator: 2 },
                ScalingFactor { numerator: 3, denominator: 1 },
            ],
            min,
            max,
        ),
        forall|i: int| count <= i < 16 ==> #[trigger] final(out)@[i] == old(out)@[i],
{
    let candidates = seq![
        ScalingFactor { numerator: 3, denominator: 2 },
        ScalingFactor { numerator: 5, denominator: 3 },
        ScalingFactor { numerator: 7, denominator: 4 },
        ScalingFactor { numerator: 2, denominator: 1 },
        ScalingFactor { numerator: 5, denominator: 2 },
        ScalingFactor { numerator: 3, denominator: 1 },
    ];
    assert(candidates =~= metalfx::candidate_scaling_factors());
    let selected = metalfx::selected_factors(min, max);
    assert(keeps_in_range(selected, candidates, min, max)) by {
        assert((|f: ScalingFactor|
            min.at_most(crate::jitter::ratio_of(f.numerator, f.denominator))
                && crate::jitter::ratio_of(f.numerator, f.denominator).at_most(max)) =~= (
        |factor: ScalingFactor| metalfx::factor_in_range(factor, min, max)));
    }
    assert(final(out)@.take(count as int) =~= selected);
    assert forall|i: int| count <= i < 16 implies #[trigger] final(out)@[i] == old(out)@[i] by {
        assert(final(out)@[i] == old(out)@.skip(count as int)[i - count]);
    }
}

/// Patterns of a length have that length.
pub proof fn law_patterns_have_their_length(
    count: u32,
    jitter: Vec<(Single, Single)>,
    texel: Vec<(Single, Single)>,
)
    requires
        call_ensures(jitter_pattern, (count,), jitter),
        call_ensures(texel_pattern, (count,), texel),
    ensures
        jitter@.len() == count,
        texel@.len() == count,
{
}

/// A texture is that of its image's view; it is placed at the view's offset in x and in y, a
/// negative one at zero. An image that is absent has none.
pub proof fn law_textures_are_placed_at_their_offsets(
    info: &SuperResolutionImageInfo,
    optional: &Option<SuperResolutionImageInfo>,
    r: PlacedTexture,
    placed_optional: Option<PlacedTexture>,
    image: Option<Image>,
)
    requires
        call_ensures(placed, (info,), r),
        call_ensures(optional_placed, (optional,), placed_optional),
        call_ensures(optional_image, (optional,), image),
    ensures
        r.image == info.view.image,
        info.view_offset.x >= 0 ==> r.offset_x == info.view_offset.x,
        info.view_offset.x < 0 ==> r.offset_x == 0,
        info.view_offset.y >= 0 ==> r.offset_y == info.view_offset.y,
        info.view_offset.y < 0 ==> r.offset_y == 0,
        placed_optional is Some <==> optional is Some,
        image is Some <==> optional is Some,
        *optional == Some(*info) ==> placed_optional == Some(r) && image == Some(r.image),
{
}

/// A scaler is at its address and of its engine's kind.
pub proof fn law_scalers_are_of_their_engines(
    engine: SuperResolutionEngine,
    address: u64,
    scaler: Scaler,
)
    requires
        call_ensures(scaler_of, (engine, address), scaler),
    ensures
        engine.0 == 10 ==> scaler == Scaler::Temporal(address),
        engine.0 == 11 ==> scaler == Scaler::Spatial(address),
        engine.0 == 12 ==> scaler == Scaler::Denoised(address),
{
}

/// A resource is an image view that holds each of its parts, and is writable where asked.
pub proof fn law_image_view_resources_hold_their_parts(
    image_view: ImageView,
    image: Image,
    range: ImageSubresourceRange,
    format: Format,
    width: u32,
    height: u32,
    read_write: bool,
    r: Resource,
)
    requires
        call_ensures(
            Resource::image_view,
            (image_view, image, range, format, width, height, read_write),
            r,
        ),
    ensures
        ({
            let Resource(ngx) = r;
            &&& ngx.resource_type == NVSDK_NGX_Resource_VK_Type::ImageView
            &&& ngx.read_write == read_write
            &&& ngx.resource.image_view == image_view
            &&& ngx.resource.image == image
            &&& ngx.resource.subresource_range == range
            &&& ngx.resource.format == format
            &&& ngx.resource.width == width
            &&& ngx.resource.height == height
        }),
{
}

/// A width is itself; no width counts as one.
pub proof fn law_widths_are_at_least_one(width: u32, r: u32)
    requires
        call_ensures(dlss::at_least_one, (width,), r),
    ensures
        r >= 1,
        width >= 1 ==> r == width,
        width == 0 ==> r == 1,
{
}

/// Sessions of both backends ask for no memory and for no descriptors.
pub proof fn law_sessions_ask_for_nothing(
    dlss_memory: Vec<SuperResolutionSessionMemoryRequirements>,
    metalfx_memory: Vec<SuperResolutionSessionMemoryRequirements>,
    dlss_ranges: SuperResolutionDescriptorHeapRanges,
    metalfx_ranges: SuperResolutionDescriptorHeapRanges,
)
    requires
        call_ensures(dlss::session_memory_requirements, (), dlss_memory),
        call_ensures(metalfx::session_memory_requirements, (), metalfx_memory),
        call_ensures(dlss::session_descriptor_heap_ranges, (), dlss_ranges),
        call_ensures(metalfx::session_descriptor_heap_ranges, (), metalfx_ranges),
    ensures
        dlss_memory@.len() == 0,
        metalfx_memory@.len() == 0,
        dlss_ranges == metalfx_ranges,
        dlss_ranges.resource_heap_size == 0,
        dlss_ranges.resource_heap_alignment == 0,
        dlss_ranges.sampler_heap_size == 0,
        dlss_ranges.sampler_heap_alignment == 0,
{
}

} // verus!
