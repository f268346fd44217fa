//! DLSS Ray Reconstruction implementation of the super-resolution interface, over
//! NVIDIA's NGX.
//!
//! [`sys`] holds the values that NGX exchanges with its callers, [`runtime`] the
//! decisions around its entry points. The functions here are the backend itself: what
//! its engine is, what a session is created from, and what a dispatch hands to NGX.
use vstd::prelude::*;

use crate::engine::{
    ascii_bytes, ascii_engine_name, fill_scaling_factors, is_hdr_format, padded_name, report,
    reported, scaling_factor_slots,
};
use crate::flags::{
    SuperResolutionDispatchFlags, SuperResolutionEnginePropertyFlags,
    SuperResolutionImageUseFlags, SuperResolutionQualityFocusFlags,
    SuperResolutionSessionCreateFlags,
};
use crate::jitter::{
    jitter_offsets, jitter_pattern, law_patterns_are_prefixes, law_phases_are_bounded,
    law_phases_keep_order, law_ratio_keeps_order, phases, phases_of, position_fits_index,
    position_stays_in_texel, ratio_of, upscale_ratio,
};
use crate::radical::law_positions_are_distinct;
use crate::single::Single;
use crate::types::{
    ScalingFactor, SuperResolutionDescriptorHeapRanges, SuperResolutionDispatchInfo,
    SuperResolutionEngine, SuperResolutionEngineProperties, SuperResolutionImageInfo,
    SuperResolutionImageProperties, SuperResolutionSessionCreateInfo,
    SuperResolutionSessionMemoryRequirements,
};
use crate::vk::{
    DriverId, Extent2D, Format, Image, ImageSubresourceRange, ImageUsageFlags, ImageView, VkError,
    VkResult, QUEUE_FAMILY_IGNORED,
};
use runtime::{has_nvidia_driver, NgxFeature, NgxRuntime};
use sys::{
    DlssResult, NVSDK_NGX_DLSSD_Create_Params, NVSDK_NGX_DLSS_Denoise_Mode,
    NVSDK_NGX_DLSS_Depth_Type, NVSDK_NGX_DLSS_Feature_Flags, NVSDK_NGX_DLSS_Roughness_Mode,
    NVSDK_NGX_Dimensions, NVSDK_NGX_ImageViewInfo_VK, NVSDK_NGX_PerfQuality_Value,
    NVSDK_NGX_Resource_VK, NVSDK_NGX_Resource_VK_Type,
};

pub mod runtime;
pub mod sys;

verus! {

/// An image view that NGX reads from or writes to during evaluation. NGX looks at it
/// when the recorded commands run, so the underlying image, view and memory must stay
/// alive until they have completed.
#[derive(Clone, Copy, Debug, PartialEq, Eq, Hash, Structural)]
pub struct Resource(pub NVSDK_NGX_Resource_VK);

impl Resource {
    /// Builds a resource backed by a Vulkan image view. `read_write` must be `true` for
    /// output / mutated targets and `false` for read-only inputs.
    pub fn image_view(
        image_view: ImageView,
        image: Image,
        subresource_range: ImageSubresourceRange,
        format: Format,
        width: u32,
        height: u32,
        read_write: bool,
    ) -> (r: Self)
        ensures
            r.0.resource_type == NVSDK_NGX_Resource_VK_Type::ImageView,
            r.0.read_write == read_write,
            r.0.resource.image_view == image_view,
            r.0.resource.image == image,
            r.0.resource.subresource_range == subresource_range,
            r.0.resource.format == format,
            r.0.resource.width == width,
            r.0.resource.height == height,
    {
        Resource(
            NVSDK_NGX_Resource_VK {
                resource: NVSDK_NGX_ImageViewInfo_VK {
                    image_view,
                    image,
                    subresource_range,
                    format,
                    width,
                    height,
                },
                resource_type: NVSDK_NGX_Resource_VK_Type::ImageView,
                read_write,
            },
        )
    }
}

/// Engines provided by the DLSS backend, in enumeration order.
pub open spec fn engines() -> Seq<SuperResolutionEngine> {
    seq![SuperResolutionEngine::dlss_rr()]
}

/// Output-over-input ratios exposed for DLSS-RR, matching NVIDIA's quality modes so a
/// ratio-derived render extent equals NGX's recommended optimal: DLAA (1.0),
/// UltraQuality (~0.77), Quality (0.667), Balanced (~0.58), Performance (0.5),
/// UltraPerformance (~0.33).
pub open spec fn scaling_factors() -> Seq<ScalingFactor> {
    seq![
        ScalingFactor { numerator: 1, denominator: 1 },  // 1.00x — DLAA
        ScalingFactor { numerator: 13, denominator: 10 },  // 1.30x — UltraQuality
        ScalingFactor { numerator: 3, denominator: 2 },  // 1.50x — Quality
        ScalingFactor { numerator: 12, denominator: 7 },  // 1.71x — Balanced
        ScalingFactor { numerator: 2, denominator: 1 },  // 2.00x — Performance
        ScalingFactor { numerator: 3, denominator: 1 },  // 3.00x — UltraPerformance
    ]
}

fn scaling_factor_list() -> (factors: [ScalingFactor; 6])
    ensures
        factors@ == scaling_factors(),
{
    let factors = [
        ScalingFactor { numerator: 1, denominator: 1 },
        ScalingFactor { numerator: 13, denominator: 10 },
        ScalingFactor { numerator: 3, denominator: 2 },
        ScalingFactor { numerator: 12, denominator: 7 },
        ScalingFactor { numerator: 2, denominator: 1 },
        ScalingFactor { numerator: 3, denominator: 1 },
    ];
    assert(factors@ =~= scaling_factors());
    factors
}

/// Enumerates the DLSS backend's engines for a physical device. DLSS-RR is reported only
/// on NVIDIA's proprietary driver *and* when NGX's discovery confirms the feature is
/// supported (see [`runtime::check_dlss_rr_available`]); on another driver NGX need not
/// be asked. This is the single availability gate.
pub fn enumerate_engines(driver_id: DriverId, dlss_rr_available: bool) -> (r: Vec<
    SuperResolutionEngine,
>)
    ensures
        r@ == (if has_nvidia_driver(driver_id) && dlss_rr_available {
            engines()
        } else {
            Seq::empty()
        }),
{
    let mut list: Vec<SuperResolutionEngine> = Vec::new();
    if has_nvidia_driver(driver_id) && dlss_rr_available {
        list.push(SuperResolutionEngine::dlss_rr());
        assert(list@ =~= engines());
    }
    list
}

/// The image uses of DLSS-RR.
pub open spec fn image_used() -> SuperResolutionImageUseFlags {
    SuperResolutionImageUseFlags(
        SuperResolutionImageUseFlags::source().0 | SuperResolutionImageUseFlags::destination().0
            | SuperResolutionImageUseFlags::depth().0
            | SuperResolutionImageUseFlags::motion_vectors().0
            | SuperResolutionImageUseFlags::normal().0
            | SuperResolutionImageUseFlags::diffuse_albedo().0
            | SuperResolutionImageUseFlags::specular_albedo().0
            | SuperResolutionImageUseFlags::roughness().0
            | SuperResolutionImageUseFlags::specular_hit_distance().0,
    )
}

/// What DLSS-RR is able to do.
pub open spec fn engine_flags() -> SuperResolutionEnginePropertyFlags {
    SuperResolutionEnginePropertyFlags(
        SuperResolutionEnginePropertyFlags::is_temporal().0
            | SuperResolutionEnginePropertyFlags::supports_dynamic_source_size().0,
    )
}

/// Whether `r` describes DLSS-RR.
pub open spec fn describes(r: SuperResolutionEngineProperties, vendor_id: u32) -> bool {
    &&& r.vendor_id == vendor_id
    &&& r.engine_version == 0
    &&& r.engine_uuid@ =~= Seq::new(16, |i: int| 0u8)
    &&& r.engine_name@ == padded_name(ascii_bytes("NVIDIA DLSS Ray Reconstruction"@))
    &&& r.flags == engine_flags()
    &&& r.image_used == image_used()
    &&& r.supported_quality_focuses == SuperResolutionQualityFocusFlags::balanced()
    &&& r.supported_queue_family_indexes@ =~= Seq::new(8, |i: int| QUEUE_FAMILY_IGNORED)
    &&& r.supported_scaling_factor_count == scaling_factors().len()
    &&& r.supported_scaling_factors@ == scaling_factor_slots(scaling_factors())
    &&& r.max_destination_region_size == (Extent2D { width: 16384, height: 16384 })
    &&& r.max_supported_concurrent_session_dispatches == 1
}

/// Properties of DLSS-RR on a device with the given vendor.
pub fn engine_properties(vendor_id: u32, engine: SuperResolutionEngine) -> (r:
    SuperResolutionEngineProperties)
    requires
        engine == SuperResolutionEngine::dlss_rr(),
    ensures
        describes(r, vendor_id),
{
    let name = "NVIDIA DLSS Ray Reconstruction";
    proof {
        reveal_strlit("NVIDIA DLSS Ray Reconstruction");
        assert(name@ =~= seq!['N', 'V', 'I', 'D', 'I', 'A', ' ', 'D', 'L', 'S', 'S', ' ', 'R', 'a',
            'y', ' ', 'R', 'e', 'c', 'o', 'n', 's', 't', 'r', 'u', 'c', 't', 'i', 'o', 'n']);
    }
    let factors = scaling_factor_list();
    SuperResolutionEngineProperties {
        vendor_id,
        engine_version: 0,
        engine_uuid: [0u8;16],
        engine_name: ascii_engine_name(name),
        flags: SuperResolutionEnginePropertyFlags::is_temporal()
            | SuperResolutionEnginePropertyFlags::supports_dynamic_source_size(),
        image_used: SuperResolutionImageUseFlags::source()
            | SuperResolutionImageUseFlags::destination() | SuperResolutionImageUseFlags::depth()
            | SuperResolutionImageUseFlags::motion_vectors()
            | SuperResolutionImageUseFlags::normal()
            | SuperResolutionImageUseFlags::diffuse_albedo()
            | SuperResolutionImageUseFlags::specular_albedo()
            | SuperResolutionImageUseFlags::roughness()
            | SuperResolutionImageUseFlags::specular_hit_distance(),
        // DLSS exposes quality via render-scale (the scaling factors above), not an
        // orthogonal quality/perf/power focus; report the single balanced one.
        supported_quality_focuses: SuperResolutionQualityFocusFlags::balanced(),
        supported_queue_family_indexes: [QUEUE_FAMILY_IGNORED;8],
        supported_scaling_factor_count: 6,
        supported_scaling_factors: fill_scaling_factors(&factors),
        max_destination_region_size: Extent2D { width: 16384, height: 16384 },
        max_supported_concurrent_session_dispatches: 1,
    }
}

/// The formats of DLSS-RR for each image use, all as storage images.
pub open spec fn supported_images(image_use: SuperResolutionImageUseFlags) -> Seq<
    SuperResolutionImageProperties,
> {
    let storage = ImageUsageFlags::storage();
    let color = seq![Format::r16g16b16a16_sfloat(), Format::r8g8b8a8_unorm()];
    reported(image_use, SuperResolutionImageUseFlags::source(), color, storage) + reported(
        image_use,
        SuperResolutionImageUseFlags::destination(),
        color,
        storage,
    ) + reported(
        image_use,
        SuperResolutionImageUseFlags::depth(),
        seq![Format::r32_sfloat(), Format::d32_sfloat()],
        storage,
    ) + reported(
        image_use,
        SuperResolutionImageUseFlags::motion_vectors(),
        seq![Format::r16g16_sfloat()],
        storage,
    ) + reported(
        image_use,
        SuperResolutionImageUseFlags::normal(),
        seq![Format::r16g16b16a16_sfloat()],
        storage,
    ) + reported(
        image_use,
        SuperResolutionImageUseFlags::diffuse_albedo(),
        seq![Format::r8g8b8a8_unorm(), Format::r8g8b8a8_srgb()],
        storage,
    ) + reported(
        image_use,
        SuperResolutionImageUseFlags::specular_albedo(),
        seq![Format::r8g8b8a8_unorm()],
        storage,
    ) + reported(
        image_use,
        SuperResolutionImageUseFlags::roughness(),
        seq![Format::r8_unorm(), Format::r16_sfloat()],
        storage,
    ) + reported(
        image_use,
        SuperResolutionImageUseFlags::specular_hit_distance(),
        seq![Format::r16_sfloat(), Format::r32_sfloat()],
        storage,
    )
}

/// Enumerates the image properties that DLSS-RR supports for the given `image_use`.
pub fn engine_supported_image_properties(
    engine: SuperResolutionEngine,
    image_use: SuperResolutionImageUseFlags,
) -> (properties: Vec<SuperResolutionImageProperties>)
    requires
        engine == SuperResolutionEngine::dlss_rr(),
    ensures
        properties@ == supported_images(image_use),
{
    let storage = ImageUsageFlags::storage();
    let color = [Format::r16g16b16a16_sfloat(), Format::r8g8b8a8_unorm()];
    let depth = [Format::r32_sfloat(), Format::d32_sfloat()];
    let motion_vectors = [Format::r16g16_sfloat()];
    let normal = [Format::r16g16b16a16_sfloat()];
    let diffuse_albedo = [Format::r8g8b8a8_unorm(), Format::r8g8b8a8_srgb()];
    let specular_albedo = [Format::r8g8b8a8_unorm()];
    let roughness = [Format::r8_unorm(), Format::r16_sfloat()];
    let specular_hit_distance = [Format::r16_sfloat(), Format::r32_sfloat()];
    proof {
        assert(color@ =~= seq![Format::r16g16b16a16_sfloat(), Format::r8g8b8a8_unorm()]);
        assert(depth@ =~= seq![Format::r32_sfloat(), Format::d32_sfloat()]);
        assert(motion_vectors@ =~= seq![Format::r16g16_sfloat()]);
        assert(normal@ =~= seq![Format::r16g16b16a16_sfloat()]);
        assert(diffuse_albedo@ =~= seq![Format::r8g8b8a8_unorm(), Format::r8g8b8a8_srgb()]);
        assert(specular_albedo@ =~= seq![Format::r8g8b8a8_unorm()]);
        assert(roughness@ =~= seq![Format::r8_unorm(), Format::r16_sfloat()]);
        assert(specular_hit_distance@ =~= seq![Format::r16_sfloat(), Format::r32_sfloat()]);
    }
    let mut p: Vec<SuperResolutionImageProperties> = Vec::new();
    report(&mut p, image_use, SuperResolutionImageUseFlags::source(), &color, storage);
    assert(p@ =~= reported(
        image_use,
        SuperResolutionImageUseFlags::source(),
        color@,
        storage,
    ));
    report(&mut p, image_use, SuperResolutionImageUseFlags::destination(), &color, storage);
    report(&mut p, image_use, SuperResolutionImageUseFlags::depth(), &depth, storage);
    report(
        &mut p,
        image_use,
        SuperResolutionImageUseFlags::motion_vectors(),
        &motion_vectors,
        storage,
    );
    report(&mut p, image_use, SuperResolutionImageUseFlags::normal(), &normal, storage);
    report(
        &mut p,
        image_use,
        SuperResolutionImageUseFlags::diffuse_albedo(),
        &diffuse_albedo,
        storage,
    );
    report(
        &mut p,
        image_use,
        SuperResolutionImageUseFlags::specular_albedo(),
        &specular_albedo,
        storage,
    );
    report(&mut p, image_use, SuperResolutionImageUseFlags::roughness(), &roughness, storage);
    report(
        &mut p,
        image_use,
        SuperResolutionImageUseFlags::specular_hit_distance(),
        &specular_hit_distance,
        storage,
    );
    p
}

/// DLSS-RR reports formats exactly for the image uses it declares.
pub proof fn law_formats_match_declared_uses(image_use: SuperResolutionImageUseFlags)
    ensures
        supported_images(image_use).len() > 0 <==> image_use.intersects(image_used()),
{
    let x = image_use.0;
    assert((x & 1 == 1 || x & 2 == 2 || x & 4 == 4 || x & 8 == 8 || x & 0x200 == 0x200 || x & 0x80
        == 0x80 || x & 0x100 == 0x100 || x & 0x400 == 0x400 || x & 0x800 == 0x800) <==> x & (1u32
        | 2u32 | 4u32 | 8u32 | 0x200u32 | 0x80u32 | 0x100u32 | 0x400u32 | 0x800u32) != 0)
        by (bit_vector);
}

/// NGX manages its own working memory, so a session exposes no Vulkan-visible memory
/// bind points.
pub fn session_memory_requirements() -> (r: Vec<SuperResolutionSessionMemoryRequirements>)
    ensures
        r@ == Seq::<SuperResolutionSessionMemoryRequirements>::empty(),
{
    Vec::new()
}

/// NGX manages its own descriptors, so a session requires no application descriptor-heap
/// ranges.
pub fn session_descriptor_heap_ranges() -> (r: SuperResolutionDescriptorHeapRanges)
    ensures
        r == (SuperResolutionDescriptorHeapRanges {
            resource_heap_size: 0,
            resource_heap_alignment: 0,
            sampler_heap_size: 0,
            sampler_heap_alignment: 0,
        }),
{
    SuperResolutionDescriptorHeapRanges {
        resource_heap_size: 0,
        resource_heap_alignment: 0,
        sampler_heap_size: 0,
        sampler_heap_alignment: 0,
    }
}

/// A width that a ratio can be taken over.
#[verifier::allow_in_spec]
pub fn at_least_one(width: u32) -> u32
    returns
        (if width == 0 {
            1u32
        } else {
            width
        }),
{
    if width == 0 {
        1
    } else {
        width
    }
}

/// The NGX perf-quality value whose scaling factor is nearest to the ratio of the widths:
/// the bounds lie midway between neighbouring factors, and belong to the larger one.
pub open spec fn perf_quality_of(destination_width: int, source_width: int) ->
    NVSDK_NGX_PerfQuality_Value {
    let (d, s) = (destination_width, source_width);
    if 20 * d < 23 * s {
        NVSDK_NGX_PerfQuality_Value::DLAA
    } else if 5 * d < 7 * s {
        NVSDK_NGX_PerfQuality_Value::UltraQuality
    } else if 28 * d < 45 * s {
        NVSDK_NGX_PerfQuality_Value::MaxQuality
    } else if 7 * d < 13 * s {
        NVSDK_NGX_PerfQuality_Value::Balanced
    } else if 2 * d < 5 * s {
        NVSDK_NGX_PerfQuality_Value::MaxPerf
    } else {
        NVSDK_NGX_PerfQuality_Value::UltraPerformance
    }
}

/// How much a perf-quality value upscales, compared to the others: the place of its
/// scaling factor among [`scaling_factors`].
pub open spec fn upscale_rank(q: NVSDK_NGX_PerfQuality_Value) -> int {
    match q {
        NVSDK_NGX_PerfQuality_Value::DLAA => 0,
        NVSDK_NGX_PerfQuality_Value::UltraQuality => 1,
        NVSDK_NGX_PerfQuality_Value::MaxQuality => 2,
        NVSDK_NGX_PerfQuality_Value::Balanced => 3,
        NVSDK_NGX_PerfQuality_Value::MaxPerf => 4,
        NVSDK_NGX_PerfQuality_Value::UltraPerformance => 5,
    }
}

/// The scaling factor of a perf-quality value.
pub open spec fn factor_of(q: NVSDK_NGX_PerfQuality_Value) -> ScalingFactor {
    scaling_factors()[upscale_rank(q)]
}

/// How far a scaling factor lies from the ratio of the widths, times the source width and
/// the factor's denominator.
pub open spec fn distance(destination_width: int, source_width: int, factor: ScalingFactor) -> int {
    vstd::math::abs(
        destination_width * factor.denominator - source_width * factor.numerator,
    ) as int
}

/// Whether `near` lies no farther from the ratio of the widths than `far` does.
pub open spec fn is_no_farther(
    destination_width: int,
    source_width: int,
    near: ScalingFactor,
    far: ScalingFactor,
) -> bool {
    distance(destination_width, source_width, near) * far.denominator <= distance(
        destination_width,
        source_width,
        far,
    ) * near.denominator
}

/// No listed factor lies nearer to the ratio of the widths than the factor of its
/// perf-quality value.
pub proof fn law_perf_quality_is_the_nearest(
    destination_width: int,
    source_width: int,
    i: int,
)
    requires
        0 <= destination_width,
        0 < source_width,
        0 <= i < scaling_factors().len(),
    ensures
        is_no_farther(
            destination_width,
            source_width,
            factor_of(perf_quality_of(destination_width, source_width)),
            scaling_factors()[i],
        ),
{
    let (d, s) = (destination_width, source_width);
    let near = factor_of(perf_quality_of(d, s));
    let far = scaling_factors()[i];
    lemma_distances(d, s);
    lemma_scaled_distances(d, s, near, far);
}

/// The distances of all listed factors, without symbolic products.
proof fn lemma_distances(d: int, s: int)
    ensures
        distance(d, s, scaling_factors()[0]) == vstd::math::abs(d - s),
        distance(d, s, scaling_factors()[1]) == vstd::math::abs(10 * d - 13 * s),
        distance(d, s, scaling_factors()[2]) == vstd::math::abs(2 * d - 3 * s),
        distance(d, s, scaling_factors()[3]) == vstd::math::abs(7 * d - 12 * s),
        distance(d, s, scaling_factors()[4]) == vstd::math::abs(d - 2 * s),
        distance(d, s, scaling_factors()[5]) == vstd::math::abs(d - 3 * s),
{
    lemma_distance(d, s, scaling_factors()[0], 1, 1);
    lemma_distance(d, s, scaling_factors()[1], 13, 10);
    lemma_distance(d, s, scaling_factors()[2], 3, 2);
    lemma_distance(d, s, scaling_factors()[3], 12, 7);
    lemma_distance(d, s, scaling_factors()[4], 2, 1);
    lemma_distance(d, s, scaling_factors()[5], 3, 1);
}

proof fn lemma_distance(d: int, s: int, factor: ScalingFactor, n: int, m: int)
    requires
        factor.numerator == n,
        factor.denominator == m,
    ensures
        distance(d, s, factor) == vstd::math::abs(m * d - n * s),
{
    assert(d * factor.denominator == m * d && s * factor.numerator == n * s) by (nonlinear_arith)
        requires
            factor.numerator == n,
            factor.denominator == m,
    ;
}

/// A distance times a listed denominator, without symbolic products.
proof fn lemma_scaled_distances(d: int, s: int, near: ScalingFactor, far: ScalingFactor)
    requires
        near.denominator == 1 || near.denominator == 2 || near.denominator == 7 || near.denominator
            == 10,
        far.denominator == 1 || far.denominator == 2 || far.denominator == 7 || far.denominator
            == 10,
    ensures
        is_no_farther(d, s, near, far) <==> {
            let (x, y) = (distance(d, s, near), distance(d, s, far));
            let a = if far.denominator == 1 {
                x
            } else if far.denominator == 2 {
                2 * x
            } else if far.denominator == 7 {
                7 * x
            } else {
                10 * x
            };
            let b = if near.denominator == 1 {
                y
            } else if near.denominator == 2 {
                2 * y
            } else if near.denominator == 7 {
                7 * y
            } else {
                10 * y
            };
            a <= b
        },
{
}

/// Each listed scaling factor gets its own perf-quality value.
pub proof fn law_listed_factors_have_their_own_values(
    i: int,
    destination_width: int,
    source_width: int,
)
    requires
        0 <= i < scaling_factors().len(),
        source_width > 0,
        destination_width * scaling_factors()[i].denominator == source_width
            * scaling_factors()[i].numerator,
    ensures
        upscale_rank(perf_quality_of(destination_width, source_width)) == i,
{
    let f = scaling_factors()[i];
    let (d, s) = (destination_width, source_width);
    if i == 0 {
        assert(d * 1 == s * 1) by (nonlinear_arith)
            requires
                d * f.denominator == s * f.numerator,
                f.numerator == 1,
                f.denominator == 1,
        ;
    } else if i == 1 {
        assert(d * 10 == s * 13) by (nonlinear_arith)
            requires
                d * f.denominator == s * f.numerator,
                f.numerator == 13,
                f.denominator == 10,
        ;
    } else if i == 2 {
        assert(d * 2 == s * 3) by (nonlinear_arith)
            requires
                d * f.denominator == s * f.numerator,
                f.numerator == 3,
                f.denominator == 2,
        ;
    } else if i == 3 {
        assert(d * 7 == s * 12) by (nonlinear_arith)
            requires
                d * f.denominator == s * f.numerator,
                f.numerator == 12,
                f.denominator == 7,
        ;
    } else if i == 4 {
        assert(d * 1 == s * 2) by (nonlinear_arith)
            requires
                d * f.denominator == s * f.numerator,
                f.numerator == 2,
                f.denominator == 1,
        ;
    } else {
        assert(d * 1 == s * 3) by (nonlinear_arith)
            requires
                d * f.denominator == s * f.numerator,
                f.numerator == 3,
                f.denominator == 1,
        ;
    }
}

/// The larger ratio never gets a perf-quality value that upscales less.
pub proof fn law_larger_ratio_upscales_no_less(
    destination_width: int,
    source_width: int,
    other_destination: int,
    other_source: int,
)
    requires
        0 < source_width,
        0 < other_source,
        destination_width * other_source <= other_destination * source_width,
    ensures
        upscale_rank(perf_quality_of(destination_width, source_width)) <= upscale_rank(
            perf_quality_of(other_destination, other_source),
        ),
{
    let (d, s, e, t) = (destination_width, source_width, other_destination, other_source);
    lemma_bound_keeps_order(d, s, e, t, 20, 23);
    lemma_bound_keeps_order(d, s, e, t, 5, 7);
    lemma_bound_keeps_order(d, s, e, t, 28, 45);
    lemma_bound_keeps_order(d, s, e, t, 7, 13);
    lemma_bound_keeps_order(d, s, e, t, 2, 5);
}

/// Where the larger ratio lies below a bound, the smaller one does.
proof fn lemma_bound_keeps_order(d: int, s: int, e: int, t: int, a: int, b: int)
    requires
        0 < s,
        0 < t,
        0 < a,
        d * t <= e * s,
    ensures
        a * e < b * t ==> a * d < b * s,
{
    if a * e < b * t {
        assert(a * d < b * s) by (nonlinear_arith)
            requires
                0 < s,
                0 < t,
                0 < a,
                d * t <= e * s,
                a * e < b * t,
        ;
    }
}

/// Maps a destination/source ratio to the nearest NGX perf-quality value, by the widths. A
/// source without width counts as one texel wide.
pub fn perf_quality_for(destination: Extent2D, source: Extent2D) -> (q: NVSDK_NGX_PerfQuality_Value)
    ensures
        q == perf_quality_of(destination.width as int, at_least_one(source.width) as int),
        forall|i: int|
            0 <= i < scaling_factors().len() ==> is_no_farther(
                destination.width as int,
                at_least_one(source.width) as int,
                factor_of(q),
                #[trigger] scaling_factors()[i],
            ),
{
    let d: u64 = destination.width as u64;
    let s: u64 = at_least_one(source.width) as u64;
    proof {
        assert forall|i: int| 0 <= i < scaling_factors().len() implies is_no_farther(
            d as int,
            s as int,
            factor_of(perf_quality_of(d as int, s as int)),
            #[trigger] scaling_factors()[i],
        ) by {
            law_perf_quality_is_the_nearest(d as int, s as int, i);
        }
    }
    if 20 * d < 23 * s {
        NVSDK_NGX_PerfQuality_Value::DLAA
    } else if 5 * d < 7 * s {
        NVSDK_NGX_PerfQuality_Value::UltraQuality
    } else if 28 * d < 45 * s {
        NVSDK_NGX_PerfQuality_Value::MaxQuality
    } else if 7 * d < 13 * s {
        NVSDK_NGX_PerfQuality_Value::Balanced
    } else if 2 * d < 5 * s {
        NVSDK_NGX_PerfQuality_Value::MaxPerf
    } else {
        NVSDK_NGX_PerfQuality_Value::UltraPerformance
    }
}

/// The NGX create params that stand for a session's create info.
pub open spec fn create_params_of(
    ci: SuperResolutionSessionCreateInfo,
) -> NVSDK_NGX_DLSSD_Create_Params {
    NVSDK_NGX_DLSSD_Create_Params {
        in_denoise_mode: NVSDK_NGX_DLSS_Denoise_Mode::DLUnified,
        in_roughness_mode: if ci.roughness_format == Format::undefined() {
            NVSDK_NGX_DLSS_Roughness_Mode::Packed
        } else {
            NVSDK_NGX_DLSS_Roughness_Mode::Unpacked
        },
        in_use_hw_depth: if ci.flags.contains(SuperResolutionSessionCreateFlags::linear_depth()) {
            NVSDK_NGX_DLSS_Depth_Type::Linear
        } else {
            NVSDK_NGX_DLSS_Depth_Type::HW
        },
        in_width: ci.max_source_region_size.width,
        in_height: ci.max_source_region_size.height,
        in_target_width: ci.destination_region_size.width,
        in_target_height: ci.destination_region_size.height,
        in_perf_quality_value: perf_quality_of(
            ci.destination_region_size.width as int,
            at_least_one(ci.max_source_region_size.width) as int,
        ),
        in_feature_create_flags: NVSDK_NGX_DLSS_Feature_Flags {
            is_hdr: is_hdr_format(ci.source_format) && !ci.flags.contains(
                SuperResolutionSessionCreateFlags::force_ldr_colors(),
            ),
            mv_low_res: !ci.flags.contains(
                SuperResolutionSessionCreateFlags::motion_vectors_use_destination_dimensions(),
            ),
            mv_jittered: ci.flags.contains(
                SuperResolutionSessionCreateFlags::motion_vectors_use_jitter(),
            ),
            depth_inverted: ci.flags.contains(SuperResolutionSessionCreateFlags::inverted_depth()),
            auto_exposure: ci.flags.contains(
                SuperResolutionSessionCreateFlags::use_auto_exposure(),
            ),
        },
        in_enable_output_subrects: ci.flags.contains(
            SuperResolutionSessionCreateFlags::allow_subrect_destination(),
        ),
    }
}

/// Translates a [`SuperResolutionSessionCreateInfo`] into NGX DLSS-RR create params.
pub fn build_create_params(ci: &SuperResolutionSessionCreateInfo) -> (r:
    NVSDK_NGX_DLSSD_Create_Params)
    ensures
        r == create_params_of(*ci),
{
    let flags = NVSDK_NGX_DLSS_Feature_Flags {
        is_hdr: is_hdr_format(ci.source_format) && !ci.flags.contains(
            SuperResolutionSessionCreateFlags::force_ldr_colors(),
        ),
        mv_low_res: !ci.flags.contains(
            SuperResolutionSessionCreateFlags::motion_vectors_use_destination_dimensions(),
        ),
        mv_jittered: ci.flags.contains(
            SuperResolutionSessionCreateFlags::motion_vectors_use_jitter(),
        ),
        depth_inverted: ci.flags.contains(SuperResolutionSessionCreateFlags::inverted_depth()),
        auto_exposure: ci.flags.contains(SuperResolutionSessionCreateFlags::use_auto_exposure()),
    };
    NVSDK_NGX_DLSSD_Create_Params {
        in_denoise_mode: NVSDK_NGX_DLSS_Denoise_Mode::DLUnified,
        // No separate roughness G-buffer => roughness is packed in normals.w.
        in_roughness_mode: if ci.roughness_format == Format::undefined() {
            NVSDK_NGX_DLSS_Roughness_Mode::Packed
        } else {
            NVSDK_NGX_DLSS_Roughness_Mode::Unpacked
        },
        in_use_hw_depth: if ci.flags.contains(SuperResolutionSessionCreateFlags::linear_depth()) {
            NVSDK_NGX_DLSS_Depth_Type::Linear
        } else {
            NVSDK_NGX_DLSS_Depth_Type::HW
        },
        in_width: ci.max_source_region_size.width,
        in_height: ci.max_source_region_size.height,
        in_target_width: ci.destination_region_size.width,
        in_target_height: ci.destination_region_size.height,
        in_perf_quality_value: perf_quality_for(
            ci.destination_region_size,
            ci.max_source_region_size,
        ),
        in_feature_create_flags: flags,
        in_enable_output_subrects: ci.flags.contains(
            SuperResolutionSessionCreateFlags::allow_subrect_destination(),
        ),
    }
}

/// State backing a DLSS-RR session. The NGX feature is created in
/// [`DlssSession::initialize_session`] (NGX feature creation needs a command buffer), so
/// this holds the deferred create params until then.
#[derive(Clone, Copy, Debug)]
pub struct DlssSession {
    pub create_params: NVSDK_NGX_DLSSD_Create_Params,
    pub feature: Option<NgxFeature>,
    pub destination_extent: Extent2D,
    pub mv_scale_x: Single,
    pub mv_scale_y: Single,
}

/// A session as it is created: without its feature.
pub open spec fn session_of(ci: SuperResolutionSessionCreateInfo) -> DlssSession {
    DlssSession {
        create_params: create_params_of(ci),
        feature: None,
        destination_extent: ci.destination_region_size,
        mv_scale_x: ci.motion_vector_scale_x,
        mv_scale_y: ci.motion_vector_scale_y,
    }
}

/// A session after the recorded creation of its feature ended: with the feature, or as it
/// was.
pub open spec fn after_creation(
    session: DlssSession,
    created: DlssResult<NgxFeature>,
) -> DlssSession {
    match created {
        Ok(feature) => DlssSession { feature: Some(feature), ..session },
        Err(_) => session,
    }
}

/// A session after a number of creations.
pub open spec fn after_creations(
    session: DlssSession,
    created: Seq<DlssResult<NgxFeature>>,
) -> DlssSession
    decreases created.len(),
{
    if created.len() == 0 {
        session
    } else {
        after_creation(after_creations(session, created.drop_last()), created.last())
    }
}

/// Whatever the creations of its feature, a session keeps what it was created from, and
/// it has the feature of the last creation that succeeded: none, and so nothing to
/// dispatch to, if none did.
pub proof fn law_last_created_feature_counts(
    ci: SuperResolutionSessionCreateInfo,
    created: Seq<DlssResult<NgxFeature>>,
    last: int,
)
    requires
        -1 <= last < created.len(),
        last >= 0 ==> created[last] is Ok,
        forall|i: int| last < i < created.len() ==> (#[trigger] created[i]) is Err,
    ensures
        after_creations(session_of(ci), created) == (DlssSession {
            feature: if last >= 0 {
                Some(created[last]->Ok_0)
            } else {
                None
            },
            ..session_of(ci)
        }),
    decreases created.len(),
{
    if created.len() > 0 && last < created.len() - 1 {
        let rest = created.drop_last();
        assert forall|i: int| last < i < rest.len() implies (#[trigger] rest[i]) is Err by {
            assert(rest[i] == created[i]);
        }
        law_last_created_feature_counts(ci, rest, last);
        assert(created[created.len() - 1] is Err);
    } else if created.len() > 0 {
        lemma_creations_keep_the_rest(session_of(ci), created.drop_last());
    }
}

proof fn lemma_creations_keep_the_rest(session: DlssSession, created: Seq<DlssResult<NgxFeature>>)
    ensures
        after_creations(session, created) == (DlssSession {
            feature: after_creations(session, created).feature,
            ..session
        }),
    decreases created.len(),
{
    if created.len() > 0 {
        lemma_creations_keep_the_rest(session, created.drop_last());
    }
}

/// Creates a DLSS-RR session, once the NGX runtime is there (see
/// [`runtime::NgxState::ensure_runtime`]).
///
/// Defers NGX feature creation: stores the translated create params and returns a session
/// whose feature is filled in by [`DlssSession::initialize_session`].
pub fn create_session(
    create_info: &SuperResolutionSessionCreateInfo,
    runtime: DlssResult<NgxRuntime>,
) -> (r: VkResult<DlssSession>)
    requires
        create_info.engine == SuperResolutionEngine::dlss_rr(),
    ensures
        r == (match runtime {
            Ok(_) => Ok(session_of(*create_info)),
            Err(_) => Err(VkError::InitializationFailed),
        }),
{
    match runtime {
        Ok(_) => Ok(
            DlssSession {
                create_params: build_create_params(create_info),
                feature: None,
                destination_extent: create_info.destination_region_size,
                mv_scale_x: create_info.motion_vector_scale_x,
                mv_scale_y: create_info.motion_vector_scale_y,
            },
        ),
        Err(_) => Err(VkError::InitializationFailed),
    }
}

/// An image for which a transient view is to be created, and what the resource over it
/// is to be.
#[derive(Clone, Copy, Debug, PartialEq, Eq, Hash, Structural)]
pub struct ResourceRequest {
    pub image_info: SuperResolutionImageInfo,
    pub width: u32,
    pub height: u32,
    pub read_write: bool,
}

/// An image that is read, at the given size.
pub open spec fn input(image_info: SuperResolutionImageInfo, size: Extent2D) -> ResourceRequest {
    ResourceRequest { image_info, width: size.width, height: size.height, read_write: false }
}

/// An image that is read, if there is one.
pub open spec fn optional_input(
    image_info: Option<SuperResolutionImageInfo>,
    size: Extent2D,
) -> Option<ResourceRequest> {
    match image_info {
        Some(image_info) => Some(input(image_info, size)),
        None => None,
    }
}

fn request_input(image_info: SuperResolutionImageInfo, size: Extent2D) -> (r: ResourceRequest)
    ensures
        r == input(image_info, size),
{
    ResourceRequest { image_info, width: size.width, height: size.height, read_write: false }
}

fn request_optional_input(image_info: Option<SuperResolutionImageInfo>, size: Extent2D) -> (r:
    Option<ResourceRequest>)
    ensures
        r == optional_input(image_info, size),
{
    match image_info {
        Some(image_info) => Some(request_input(image_info, size)),
        None => None,
    }
}

/// Builds the NGX resource over the view that was created for a request.
pub fn make_resource(request: &ResourceRequest, view: ImageView) -> (r: Resource)
    ensures
        r.0 == (NVSDK_NGX_Resource_VK {
            resource: NVSDK_NGX_ImageViewInfo_VK {
                image_view: view,
                image: request.image_info.view.image,
                subresource_range: request.image_info.view.subresource_range,
                format: request.image_info.view.format,
                width: request.width,
                height: request.height,
            },
            resource_type: NVSDK_NGX_Resource_VK_Type::ImageView,
            read_write: request.read_write,
        }),
{
    Resource::image_view(
        view,
        request.image_info.view.image,
        request.image_info.view.subresource_range,
        request.image_info.view.format,
        request.width,
        request.height,
        request.read_write,
    )
}

/// The elements of a column-major 4x4 matrix, column after column.
pub open spec fn flattened(m: [[Single; 4]; 4]) -> Seq<Single> {
    Seq::new(16, |i: int| m@[i / 4]@[i % 4])
}

/// Flattens a column-major 4x4 matrix into 16 contiguous singles for NGX.
pub fn flatten(m: &[[Single; 4]; 4]) -> (flat: [Single; 16])
    ensures
        flat@ == flattened(*m),
{
    let mut flat = [Single(0);16];
    let mut i: usize = 0;
    while i < 16
        invariant
            i <= 16,
            forall|j: int| 0 <= j < i ==> flat@[j] == m@[j / 4]@[j % 4],
        decreases 16 - i,
    {
        let column: [Single; 4] = m[i / 4];
        flat[i] = column[i % 4];
        i = i + 1;
    }
    assert(flat@ =~= flattened(*m));
    flat
}

/// What a dispatch has NGX evaluate: its images, in the order in which their views are
/// created, then its numbers. Offsets of the images' regions and the dispatch's exposure are
/// not among them.
#[derive(Clone, Copy, Debug)]
pub struct DlssdEvaluation {
    pub feature: NgxFeature,
    pub color: ResourceRequest,
    pub output: ResourceRequest,
    pub depth: Option<ResourceRequest>,
    pub motion_vectors: Option<ResourceRequest>,
    pub diffuse_albedo: Option<ResourceRequest>,
    pub specular_albedo: Option<ResourceRequest>,
    pub normals: Option<ResourceRequest>,
    pub roughness: Option<ResourceRequest>,
    pub specular_hit_distance: Option<ResourceRequest>,
    pub world_to_view_matrix: Option<[Single; 16]>,
    pub view_to_clip_matrix: Option<[Single; 16]>,
    pub in_render_subrect_dimensions: NVSDK_NGX_Dimensions,
    pub in_mv_scale_x: Single,
    pub in_mv_scale_y: Single,
    pub in_jitter_offset_x: Single,
    pub in_jitter_offset_y: Single,
    pub in_reset: i32,
}

/// The size of a dispatch's motion vectors image: that of the source, or that of the
/// destination where the session was created so.
pub open spec fn motion_vectors_size(
    session: DlssSession,
    info: SuperResolutionDispatchInfo,
) -> Extent2D {
    if session.create_params.in_feature_create_flags.mv_low_res {
        info.source_size
    } else {
        session.destination_extent
    }
}

/// Whether `e` evaluates `feature` for a dispatch on `session`. The inputs have the size of
/// the source, but for motion vectors that use the destination's dimensions; the output
/// alone is written and has the size of the destination.
pub open spec fn evaluates(
    e: DlssdEvaluation,
    session: DlssSession,
    feature: NgxFeature,
    info: SuperResolutionDispatchInfo,
) -> bool {
    let size = info.source_size;
    &&& e.feature == feature
    &&& e.color == input(info.source_image_info, size)
    &&& e.output == (ResourceRequest {
        image_info: info.destination_image_info,
        width: session.destination_extent.width,
        height: session.destination_extent.height,
        read_write: true,
    })
    &&& e.depth == optional_input(info.source_depth_image_info, size)
    &&& e.motion_vectors == (match info.motion_info {
        Some(motion) => optional_input(
            motion.motion_vectors_image_info,
            motion_vectors_size(session, info),
        ),
        None => None,
    })
    &&& match info.denoise_info {
        Some(denoise) => {
            &&& e.diffuse_albedo == Some(input(denoise.diffuse_albedo_image_info, size))
            &&& e.specular_albedo == Some(input(denoise.specular_albedo_image_info, size))
            &&& e.normals == Some(input(denoise.normal_image_info, size))
            &&& e.roughness == (if session.create_params.in_roughness_mode
                == NVSDK_NGX_DLSS_Roughness_Mode::Packed {
                None
            } else {
                Some(input(denoise.roughness_image_info, size))
            })
            &&& e.specular_hit_distance == optional_input(
                denoise.specular_hit_distance_image_info,
                size,
            )
            &&& e.world_to_view_matrix matches Some(m) && m@ == flattened(
                denoise.world_to_view_matrix,
            )
            &&& e.view_to_clip_matrix matches Some(m) && m@ == flattened(
                denoise.view_to_clip_matrix,
            )
        },
        None => {
            &&& e.diffuse_albedo is None
            &&& e.specular_albedo is None
            &&& e.normals is None
            &&& e.roughness is None
            &&& e.specular_hit_distance is None
            &&& e.world_to_view_matrix is None
            &&& e.view_to_clip_matrix is None
        },
    }
    &&& e.in_render_subrect_dimensions == (NVSDK_NGX_Dimensions {
        width: size.width,
        height: size.height,
    })
    &&& e.in_mv_scale_x == session.mv_scale_x
    &&& e.in_mv_scale_y == session.mv_scale_y
    &&& match info.motion_info {
        Some(motion) => e.in_jitter_offset_x == motion.texel_jitter_x && e.in_jitter_offset_y
            == motion.texel_jitter_y,
        None => e.in_jitter_offset_x == Single(0) && e.in_jitter_offset_y == Single(0),
    }
    &&& e.in_reset == (if info.flags.contains(SuperResolutionDispatchFlags::reset_history()) {
        1int
    } else {
        0int
    })
}

impl DlssSession {
    /// Takes note of how the recorded creation of the NGX feature ended: stores the
    /// feature and returns the one that it replaces, if any, to be released; or keeps
    /// everything as it is and returns the failure.
    pub fn initialize_session(&mut self, created: DlssResult<NgxFeature>) -> (r: DlssResult<
        Option<NgxFeature>,
    >)
        ensures
            *final(self) == after_creation(*old(self), created),
            r == (match created {
                Ok(_) => Ok(old(self).feature),
                Err(e) => Err(e),
            }),
    {
        match created {
            Ok(feature) => {
                let replaced = self.feature;
                self.feature = Some(feature);
                Ok(replaced)
            },
            Err(e) => Err(e),
        }
    }

    /// What a dispatch has NGX evaluate: nothing while the session is not initialized.
    pub fn dispatch(&self, info: &SuperResolutionDispatchInfo) -> (r: Option<DlssdEvaluation>)
        ensures
            match self.feature {
                Some(feature) => r matches Some(e) && evaluates(e, *self, feature, *info),
                None => r is None,
            },
    {
        let feature: NgxFeature = match self.feature {
            Some(feature) => feature,
            None => return None,
        };
        let src = info.source_size;
        let dst = self.destination_extent;
        let packed_roughness = self.create_params.in_roughness_mode
            == NVSDK_NGX_DLSS_Roughness_Mode::Packed;
        let mut e = DlssdEvaluation {
            feature,
            color: request_input(info.source_image_info, src),
            output: ResourceRequest {
                image_info: info.destination_image_info,
                width: dst.width,
                height: dst.height,
                read_write: true,
            },
            depth: request_optional_input(info.source_depth_image_info, src),
            motion_vectors: None,
            diffuse_albedo: None,
            specular_albedo: None,
            normals: None,
            roughness: None,
            specular_hit_distance: None,
            world_to_view_matrix: None,
            view_to_clip_matrix: None,
            in_render_subrect_dimensions: NVSDK_NGX_Dimensions {
                width: src.width,
                height: src.height,
            },
            in_mv_scale_x: self.mv_scale_x,
            in_mv_scale_y: self.mv_scale_y,
            in_jitter_offset_x: Single(0),
            in_jitter_offset_y: Single(0),
            in_reset: if info.flags.contains(SuperResolutionDispatchFlags::reset_history()) {
                1
            } else {
                0
            },
        };
        if let Some(motion) = &info.motion_info {
            let size = if self.create_params.in_feature_create_flags.mv_low_res {
                src
            } else {
                dst
            };
            e.motion_vectors = request_optional_input(motion.motion_vectors_image_info, size);
            e.in_jitter_offset_x = motion.texel_jitter_x;
            e.in_jitter_offset_y = motion.texel_jitter_y;
        }
        if let Some(denoise) = &info.denoise_info {
            e.diffuse_albedo = Some(request_input(denoise.diffuse_albedo_image_info, src));
            e.specular_albedo = Some(request_input(denoise.specular_albedo_image_info, src));
            e.normals = Some(request_input(denoise.normal_image_info, src));
            if !packed_roughness {
                e.roughness = Some(request_input(denoise.roughness_image_info, src));
            }
            e.specular_hit_distance = request_optional_input(
                denoise.specular_hit_distance_image_info,
                src,
            );
            e.world_to_view_matrix = Some(flatten(&denoise.world_to_view_matrix));
            e.view_to_clip_matrix = Some(flatten(&denoise.view_to_clip_matrix));
        }
        Some(e)
    }
}

/// The number of jitter positions for a pair of widths: what the ratio calls for, and at
/// least the 32 that DLSS-RR asks for.
pub open spec fn phase_count(destination_width: u32, source_width: u32) -> int {
    let phases = phases_of(ratio_of(destination_width, at_least_one(source_width)));
    if phases < 32 {
        32
    } else {
        phases
    }
}

/// The recommended jitter pattern. NGX exposes no jitter API, so this returns a
/// Halton(2, 3) sequence.
///
/// DLSS-RR guidance: "there is no reason to limit the number of samples; use of many more
/// jitter positions (at least 32) is also highly recommended." So the phase count is the
/// DLSS super-resolution base of `8 * ratio²`, floored at the DLSS-RR minimum of 32.
///
/// Up to an upscaling of 64 every offset lies in `[-0.5, 0.5)`. Beyond, a pattern can be long
/// enough for a sum that is rounded up to one: that position lies at 0.5.
pub fn recommended_jitter_pattern(
    destination_region_size: Extent2D,
    source_region_size: Extent2D,
) -> (r: VkResult<Vec<(Single, Single)>>)
    ensures
        r matches Ok(offsets) && offsets@ == jitter_offsets(
            phase_count(destination_region_size.width, source_region_size.width) as nat,
        ) && offsets@.len() >= 32 && (forall|i: int|
            0 <= i < offsets@.len() ==> position_fits_index(i + 1, #[trigger] offsets@[i])) && (
        destination_region_size.width <= 64 * at_least_one(source_region_size.width) ==> forall|
            i: int,
        |
            0 <= i < offsets@.len() ==> position_stays_in_texel(#[trigger] offsets@[i])),
{
    let source_width: u32 = at_least_one(source_region_size.width);
    let scale = upscale_ratio(destination_region_size.width, source_width);
    let mut count: u32 = phases(scale);
    if count < 32 {
        count = 32;
    }
    proof {
        if destination_region_size.width <= 64 * source_width {
            law_phases_are_bounded(destination_region_size.width, source_width);
        }
    }
    Ok(jitter_pattern(count))
}

/// A larger upscale ratio only adds positions: the pattern of a smaller one is how that of
/// the larger starts.
pub proof fn law_larger_ratio_extends_the_pattern(d: u32, s: u32, e: u32, t: u32)
    requires
        ratio_of(d, at_least_one(s)).scaled() <= ratio_of(e, at_least_one(t)).scaled(),
    ensures
        32 <= phase_count(d, s) <= phase_count(e, t),
        jitter_offsets(phase_count(d, s) as nat) == jitter_offsets(phase_count(e, t) as nat).take(
            phase_count(d, s),
        ),
{
    law_ratio_keeps_order(d, at_least_one(s), d, at_least_one(s));
    law_phases_keep_order(ratio_of(d, at_least_one(s)), ratio_of(e, at_least_one(t)));
    law_patterns_are_prefixes(phase_count(d, s) as nat, phase_count(e, t) as nat);
}

/// Up to an upscaling of 64 the recommended positions are distinct along the first axis.
pub proof fn law_recommended_positions_are_distinct(
    destination_width: u32,
    source_width: u32,
    i: int,
    j: int,
)
    requires
        destination_width <= 64 * at_least_one(source_width),
        0 <= i < j < phase_count(destination_width, source_width),
    ensures
        ({
            let offsets = jitter_offsets(phase_count(destination_width, source_width) as nat);
            offsets[i].0.scaled() != offsets[j].0.scaled()
        }),
{
    law_phases_are_bounded(destination_width, at_least_one(source_width));
    law_positions_are_distinct(phase_count(destination_width, source_width) as nat, i, j);
}

/// A dispatch writes its output and nothing else.
pub proof fn law_only_the_output_is_written(
    e: DlssdEvaluation,
    session: DlssSession,
    feature: NgxFeature,
    info: SuperResolutionDispatchInfo,
)
    requires
        evaluates(e, session, feature, info),
    ensures
        e.output.read_write,
        !e.color.read_write,
        e.depth matches Some(r) ==> !r.read_write,
        e.motion_vectors matches Some(r) ==> !r.read_write,
        e.diffuse_albedo matches Some(r) ==> !r.read_write,
        e.specular_albedo matches Some(r) ==> !r.read_write,
        e.normals matches Some(r) ==> !r.read_write,
        e.roughness matches Some(r) ==> !r.read_write,
        e.specular_hit_distance matches Some(r) ==> !r.read_write,
{
}

/// The motion vectors image has the size of the destination exactly where the session was
/// created with motion vectors that use the destination's dimensions; otherwise it has the
/// size of the source.
pub proof fn law_motion_vectors_have_the_size_asked_for(
    ci: SuperResolutionSessionCreateInfo,
    e: DlssdEvaluation,
    feature: NgxFeature,
    info: SuperResolutionDispatchInfo,
)
    requires
        evaluates(e, DlssSession { feature: Some(feature), ..session_of(ci) }, feature, info),
        e.motion_vectors is Some,
    ensures
        ({
            let size = if ci.flags.contains(
                SuperResolutionSessionCreateFlags::motion_vectors_use_destination_dimensions(),
            ) {
                ci.destination_region_size
            } else {
                info.source_size
            };
            e.motion_vectors->0.width == size.width && e.motion_vectors->0.height == size.height
        }),
{
}

/// Roughness comes from an image of its own exactly where the session was created with a
/// roughness format and the dispatch has G-buffers; otherwise NGX is told that it is
/// packed, and gets no roughness image.
pub proof fn law_roughness_has_an_image_where_it_has_a_format(
    ci: SuperResolutionSessionCreateInfo,
    e: DlssdEvaluation,
    feature: NgxFeature,
    info: SuperResolutionDispatchInfo,
)
    requires
        evaluates(e, DlssSession { feature: Some(feature), ..session_of(ci) }, feature, info),
    ensures
        e.roughness is Some <==> ci.roughness_format != Format::undefined() && info.denoise_info
            is Some,
        create_params_of(ci).in_roughness_mode == NVSDK_NGX_DLSS_Roughness_Mode::Packed
            <==> ci.roughness_format == Format::undefined(),
{
}

} // verus!
