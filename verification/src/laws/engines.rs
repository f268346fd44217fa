//! Which engines there are and what they say of themselves.
use vstd::prelude::*;

use crate::blit;
use crate::dlss;
use crate::dlss::runtime::{check_dlss_rr_available, has_nvidia_driver};
use crate::dlss::sys::{NVSDK_NGX_PerfQuality_Value, NVSDK_NGX_Result};
use crate::engine::{engine_name, fill_scaling_factors, is_hdr_format};
use crate::jitter::ratio_of;
use crate::laws::creation::seventieths;
use crate::metalfx;
use crate::metalfx::ScaleRange;
use crate::single::Single;
use crate::types::{ScalingFactor, SuperResolutionEngine, SuperResolutionEngineProperties};
use crate::vk::{DriverId, Extent2D, Format};

verus! {

/// DLSS-RR is offered exactly on NVIDIA's proprietary driver and where NGX says that it is
/// available; it is the only engine.
pub proof fn law_dlss_is_offered_where_it_works(
    driver_id: DriverId,
    available: bool,
    r: Vec<SuperResolutionEngine>,
)
    requires
        call_ensures(dlss::enumerate_engines, (driver_id, available), r),
    ensures
        r@.len() == (if driver_id.0 == 4 && available {
            1nat
        } else {
            0
        }),
        forall|i: int| 0 <= i < r@.len() ==> (#[trigger] r@[i]).0 == 0,
{
}

/// DLSS-RR is available exactly where NGX answered with success, which is 1, and nothing
/// stands against the feature, which is 0.
pub proof fn law_dlss_is_available_where_nothing_stands_against_it(
    result: NVSDK_NGX_Result,
    supported: u32,
    b: bool,
)
    requires
        call_ensures(check_dlss_rr_available, (result, supported), b),
    ensures
        b <==> result.0 == 1 && supported == 0,
{
}

/// MetalFX offers its three engines, the temporal one first, then the spatial one, then the
/// denoised one, and knows no others.
pub proof fn law_metalfx_offers_its_three_engines(
    r: Vec<SuperResolutionEngine>,
    engine: SuperResolutionEngine,
    known: bool,
)
    requires
        call_ensures(metalfx::enumerate_engines, (), r),
        call_ensures(metalfx::is_known, (engine,), known),
    ensures
        r@.len() == 3,
        r@[0].0 == 10,
        r@[1].0 == 11,
        r@[2].0 == 12,
        known <==> r@.contains(engine),
{
    if known {
        assert(r@[0] == engine || r@[1] == engine || r@[2] == engine);
    }
}

/// Whether an engine's name reads as the given text: its characters, then NULs to the end.
pub open spec fn is_named(r: SuperResolutionEngineProperties, text: Seq<char>) -> bool {
    &&& text.len() < 32
    &&& forall|i: int|
        0 <= i < 32 ==> #[trigger] r.engine_name@[i] == (if i < text.len() {
            text[i] as int
        } else {
            0
        })
}

/// Whether an engine's scaling factors are exactly the given ones, in order; slots beyond
/// them are zero over one.
pub open spec fn scales_by(r: SuperResolutionEngineProperties, factors: Seq<(u32, u32)>) -> bool {
    &&& r.supported_scaling_factor_count == factors.len()
    &&& factors.len() <= 16
    &&& forall|i: int|
        0 <= i < 16 ==> (#[trigger] r.supported_scaling_factors@[i]).numerator == (if i
            < factors.len() {
            factors[i].0
        } else {
            0
        }) && r.supported_scaling_factors@[i].denominator == (if i < factors.len() {
            factors[i].1
        } else {
            1
        })
}

/// What all engines have in common: neither a version nor an identity, and no particular
/// queue family.
pub open spec fn is_anonymous(r: SuperResolutionEngineProperties) -> bool {
    &&& r.engine_version == 0
    &&& forall|i: int| 0 <= i < 16 ==> #[trigger] r.engine_uuid@[i] == 0
    &&& forall|i: int| 0 <= i < 8 ==> #[trigger] r.supported_queue_family_indexes@[i] == 0xffff_ffff
}

/// DLSS-RR is temporal and takes a dynamic source size. It uses color, depth, motion vectors,
/// albedos, normals, roughness and hit distance, and has a single quality focus, the factors
/// of NVIDIA's quality modes, and one dispatch at a time.
pub proof fn law_dlss_describes_itself(
    vendor_id: u32,
    engine: SuperResolutionEngine,
    r: SuperResolutionEngineProperties,
)
    requires
        engine.0 == 0,
        call_ensures(dlss::engine_properties, (vendor_id, engine), r),
    ensures
        r.vendor_id == vendor_id,
        is_anonymous(r),
        is_named(r, "NVIDIA DLSS Ray Reconstruction"@),
        r.flags.0 == 0x9,
        r.image_used.0 == 0xf8f,
        r.supported_quality_focuses.0 == 0x1,
        scales_by(
            r,
            seq![
                (1u32, 1u32),
                (13u32, 10u32),
                (3u32, 2u32),
                (12u32, 7u32),
                (2u32, 1u32),
                (3u32, 1u32),
            ],
        ),
        r.max_destination_region_size.width == 16384,
        r.max_destination_region_size.height == 16384,
        r.max_supported_concurrent_session_dispatches == 1,
{
    reveal_strlit("NVIDIA DLSS Ray Reconstruction");
    assert(1u32 | 8u32 == 9 && 1u32 | 2u32 | 4u32 | 8u32 | 0x200u32 | 0x80u32 | 0x100u32 | 0x400u32
        | 0x800u32
        == 0xf8f) by (bit_vector);
}

/// The temporal scaler is temporal, scales continuously, takes a dynamic source size and a
/// pipeline cache, and uses color, depth, motion vectors, a reactive mask and an exposure
/// scale.
pub proof fn law_temporal_scaler_describes_itself(
    vendor_id: u32,
    temporal: ScaleRange,
    denoised: ScaleRange,
    engine: SuperResolutionEngine,
    r: SuperResolutionEngineProperties,
)
    requires
        engine.0 == 10,
        call_ensures(
            metalfx::engine_properties,
            (vendor_id, temporal, denoised, engine), r),
    ensures
        r.vendor_id == vendor_id,
        is_anonymous(r),
        is_named(r, "MetalFX Temporal Scaler"@),
        r.flags.0 == 0xf,
        r.image_used.0 == 0x5f,
        r.supported_quality_focuses.0 == 0x1,
        r.max_destination_region_size.width == 16384,
        r.max_destination_region_size.height == 16384,
        r.max_supported_concurrent_session_dispatches == 1,
{
    reveal_strlit("MetalFX Temporal Scaler");
    assert(1u32 | 4u32 | 8u32 | 2u32 == 0xf && 1u32 | 2u32 | 4u32 | 8u32 | 0x10u32
        | 0x40u32 == 0x5f) by (bit_vector);
}

/// The spatial scaler is not temporal: it scales continuously, takes a dynamic source size and
/// a pipeline cache, uses color alone, and reports every factor.
pub proof fn law_spatial_scaler_describes_itself(
    vendor_id: u32,
    temporal: ScaleRange,
    denoised: ScaleRange,
    engine: SuperResolutionEngine,
    r: SuperResolutionEngineProperties,
)
    requires
        engine.0 == 11,
        call_ensures(
            metalfx::engine_properties,
            (vendor_id, temporal, denoised, engine), r),
    ensures
        r.vendor_id == vendor_id,
        is_anonymous(r),
        is_named(r, "MetalFX Spatial Scaler"@),
        r.flags.0 == 0xe,
        r.image_used.0 == 0x3,
        r.supported_quality_focuses.0 == 0x1,
        scales_by(
            r,
            seq![
                (3u32, 2u32),
                (5u32, 3u32),
                (7u32, 4u32),
                (2u32, 1u32),
                (5u32, 2u32),
                (3u32, 1u32),
            ],
        ),
        r.max_destination_region_size.width == 16384,
        r.max_destination_region_size.height == 16384,
        r.max_supported_concurrent_session_dispatches == 1,
{
    reveal_strlit("MetalFX Spatial Scaler");
    assert(4u32 | 8u32 | 2u32 == 0xe && 1u32 | 2u32 == 3) by (bit_vector);
}

/// The denoised scaler is temporal, scales continuously and takes a pipeline cache, but no
/// dynamic source size. It uses all that the temporal scaler uses, and the G-buffers.
pub proof fn law_denoised_scaler_describes_itself(
    vendor_id: u32,
    temporal: ScaleRange,
    denoised: ScaleRange,
    engine: SuperResolutionEngine,
    r: SuperResolutionEngineProperties,
)
    requires
        engine.0 == 12,
        call_ensures(
            metalfx::engine_properties,
            (vendor_id, temporal, denoised, engine), r),
    ensures
        r.vendor_id == vendor_id,
        is_anonymous(r),
        is_named(r, "MetalFX Denoised Scaler"@),
        r.flags.0 == 0x7,
        r.image_used.0 == 0x3fdf,
        r.supported_quality_focuses.0 == 0x1,
        r.max_destination_region_size.width == 16384,
        r.max_destination_region_size.height == 16384,
        r.max_supported_concurrent_session_dispatches == 1,
{
    reveal_strlit("MetalFX Denoised Scaler");
    assert(1u32 | 4u32 | 2u32 == 7 && 1u32 | 2u32 | 4u32 | 8u32 | 0x10u32 | 0x40u32 | 0x80u32
        | 0x100u32
        | 0x200u32 | 0x400u32 | 0x800u32 | 0x1000u32 | 0x2000u32 == 0x3fdf) by (bit_vector);
}

/// A blit is not temporal: it scales continuously and takes a dynamic source size, uses color
/// alone, accepts any quality focus, goes up to the device's largest image and has no limit on
/// dispatches.
pub proof fn law_blit_describes_itself(
    vendor_id: u32,
    max_dimension: u32,
    r: SuperResolutionEngineProperties,
)
    requires
        call_ensures(blit::engine_properties, (vendor_id, max_dimension), r),
    ensures
        r.vendor_id == vendor_id,
        is_anonymous(r),
        is_named(r, "Vulkan Blit"@),
        r.flags.0 == 0xc,
        r.image_used.0 == 0x3,
        r.supported_quality_focuses.0 == 0xf,
        scales_by(
            r,
            seq![
                (1u32, 1u32),
                (3u32, 2u32),
                (5u32, 3u32),
                (7u32, 4u32),
                (2u32, 1u32),
                (5u32, 2u32),
                (3u32, 1u32),
            ],
        ),
        r.max_destination_region_size.width == max_dimension,
        r.max_destination_region_size.height == max_dimension,
        r.max_supported_concurrent_session_dispatches == 0xffff_ffff,
{
    reveal_strlit("Vulkan Blit");
    assert(4u32 | 8u32 == 0xc && 1u32 | 2u32 == 3 && 1u32 | 2u32 | 4u32 | 8u32 == 0xf)
        by (bit_vector);
}

/// Whether `p` are the given candidates, less those that lie outside of a range.
pub open spec fn keeps_in_range(
    p: Seq<ScalingFactor>,
    candidates: Seq<ScalingFactor>,
    min: Single,
    max: Single,
) -> bool {
    p == candidates.filter(
        |f: ScalingFactor|
            min.at_most(ratio_of(f.numerator, f.denominator)) && ratio_of(
                f.numerator,
                f.denominator,
            ).at_most(max),
    )
}

/// The temporal scalers report exactly the candidates 3/2, 5/3, 7/4, 2, 5/2 and 3 that lie
/// within the range of scales that Metal gives for the scaler itself, and not within that of
/// the other scaler.
pub proof fn law_temporal_scalers_report_factors_in_their_own_range(
    vendor_id: u32,
    temporal: ScaleRange,
    denoised: ScaleRange,
    engine: SuperResolutionEngine,
    r: SuperResolutionEngineProperties,
)
    requires
        engine.0 == 10 || engine.0 == 12,
        call_ensures(metalfx::engine_properties, (vendor_id, temporal, denoised, engine), r),
    ensures
        ({
            let candidates = seq![
                ScalingFactor { numerator: 3, denominator: 2 },
                ScalingFactor { numerator: 5, denominator: 3 },
                ScalingFactor { numerator: 7, denominator: 4 },
                ScalingFactor { numerator: 2, denominator: 1 },
                ScalingFactor { numerator: 5, denominator: 2 },
                ScalingFactor { numerator: 3, denominator: 1 },
            ];
            let own = if engine.0 == 10 {
                temporal
            } else {
                denoised
            };
            let n = r.supported_scaling_factor_count as int;
            &&& n <= 6
            &&& keeps_in_range(r.supported_scaling_factors@.take(n), candidates, own.min, own.max)
            &&& forall|i: int|
                n <= i < 16 ==> (#[trigger] r.supported_scaling_factors@[i]).numerator == 0
                    && r.supported_scaling_factors@[i].denominator == 1
        }),
{
    broadcast use vstd::seq_lib::group_filter_ensures;

    let candidates = seq![
        ScalingFactor { numerator: 3, denominator: 2 },
        ScalingFactor { numerator: 5, denominator: 3 },
        ScalingFactor { numerator: 7, denominator: 4 },
        ScalingFactor { numerator: 2, denominator: 1 },
        ScalingFactor { numerator: 5, denominator: 2 },
        ScalingFactor { numerator: 3, denominator: 1 },
    ];
    let own = if engine.0 == 10 {
        temporal
    } else {
        denoised
    };
    assert(candidates =~= metalfx::candidate_scaling_factors());
    let selected = metalfx::selected_factors(own.min, own.max);
    assert(keeps_in_range(selected, candidates, own.min, own.max)) by {
        let (min, max) = (own.min, own.max);
        assert((|f: ScalingFactor|
            min.at_most(ratio_of(f.numerator, f.denominator)) && ratio_of(
                f.numerator,
                f.denominator,
            ).at_most(max)) =~= (|factor: ScalingFactor|
            metalfx::factor_in_range(factor, min, max)));
    }
    let n = r.supported_scaling_factor_count as int;
    assert(r.supported_scaling_factors@.take(n) =~= selected);
}

/// A listed factor of DLSS-RR is that of a quality mode: the modes' own upscaling, in order.
pub proof fn law_dlss_factors_are_the_quality_modes(
    vendor_id: u32,
    engine: SuperResolutionEngine,
    r: SuperResolutionEngineProperties,
    i: int,
    q: NVSDK_NGX_PerfQuality_Value,
    source: Extent2D,
    destination: Extent2D,
)
    requires
        engine.0 == 0,
        call_ensures(dlss::engine_properties, (vendor_id, engine), r),
        0 <= i < r.supported_scaling_factor_count,
        source.width > 0,
        destination.width * r.supported_scaling_factors@[i].denominator == source.width
            * r.supported_scaling_factors@[i].numerator,
        call_ensures(dlss::perf_quality_for, (destination, source), q),
    ensures
        seventieths(q) * r.supported_scaling_factors@[i].denominator == 70
            * r.supported_scaling_factors@[i].numerator,
{
    let f = r.supported_scaling_factors@[i];
    assert(f == dlss::scaling_factors()[i]);
    dlss::law_listed_factors_have_their_own_values(
        i,
        destination.width as int,
        source.width as int,
    );
}

/// A name is copied byte for byte and padded with NULs.
pub proof fn law_engine_name_is_copied(name: &[u8], out: [u8; 32], i: int)
    requires
        name@.len() < 32,
        call_ensures(engine_name, (name,), out),
        0 <= i < 32,
    ensures
        i < name@.len() ==> out@[i] == name@[i],
        i >= name@.len() ==> out@[i] == 0,
{
}

/// Factors fill the first slots in order; the others are zero over one.
pub proof fn law_factors_fill_the_first_slots(
    factors: &[ScalingFactor],
    out: [ScalingFactor; 16],
    i: int,
)
    requires
        factors@.len() <= 16,
        call_ensures(fill_scaling_factors, (factors,), out),
        0 <= i < 16,
    ensures
        i < factors@.len() ==> out@[i] == factors@[i],
        i >= factors@.len() ==> out@[i].numerator == 0 && out@[i].denominator == 1,
{
}

/// The formats that go beyond the range from zero to one are the two of four floating-point
/// channels.
pub proof fn law_hdr_formats_have_four_floating_channels(format: Format, b: bool)
    requires
        call_ensures(is_hdr_format, (format,), b),
    ensures
        b <==> format == Format::r16g16b16a16_sfloat() || format == Format::r32g32b32a32_sfloat(),
{
}

/// NVIDIA's proprietary driver is driver 4.
pub proof fn law_nvidia_driver_is_the_proprietary_one(driver_id: DriverId, b: bool)
    requires
        call_ensures(has_nvidia_driver, (driver_id,), b),
    ensures
        b <==> driver_id.0 == 4,
{
}

} // verus!
