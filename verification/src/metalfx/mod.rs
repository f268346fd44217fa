//! MetalFX-backed implementation of the super-resolution interface.
//!
//! Apple exposes three distinct upscaling effects, each surfaced here as a unique
//! [`SuperResolutionEngine`]:
//!
//! - [`SuperResolutionEngine::metalfx_temporal_scaler`]: `MTL4FXTemporalScaler`
//! - [`SuperResolutionEngine::metalfx_spatial_scaler`]: `MTL4FXSpatialScaler`
//! - [`SuperResolutionEngine::metalfx_temporal_denoised_scaler`]:
//!   `MTL4FXTemporalDenoisedScaler`
//!
//! The functions here decide what a scaler is created from and what a dispatch sets on it;
//! they touch no Metal object themselves.
use vstd::prelude::*;

use crate::engine::{
    ascii_bytes, ascii_engine_name, padded_name, report, reported, scaling_factor_slots,
    unused_scaling_factor, unused_scaling_factors,
};
use crate::flags::{
    SuperResolutionEnginePropertyFlags, SuperResolutionImageUseFlags,
    SuperResolutionQualityFocusFlags,
};
use crate::jitter::{is_close, ratio_of, upscale_ratio};
use crate::rounding::one;
use crate::single::Single;
use crate::types::{
    ScalingFactor, SuperResolutionDescriptorHeapRanges, SuperResolutionEngine,
    SuperResolutionEngineProperties, SuperResolutionImageProperties,
    SuperResolutionSessionMemoryRequirements, MAX_SUPER_RESOLUTION_SCALING_FACTOR_COUNT,
};
use crate::vk::{Extent2D, Format, ImageUsageFlags, QUEUE_FAMILY_IGNORED};

pub mod dispatch;
pub mod scaler;

pub use dispatch::{
    dispatch_denoised, dispatch_spatial, dispatch_temporal, offset_xy, optional_image,
    optional_placed, phase_count, placed, sets_denoised, sets_temporal, DenoiseInputs,
    DenoisedDispatch, PlacedTexture, ScalerDispatch, SpatialDispatch, TemporalDispatch,
};
pub use scaler::{
    create_session, create_spatial_scaler, create_temporal_denoised_scaler, create_temporal_scaler,
    mtl_pixel_format, optional_pixel_format, scaler_descriptor, scaler_of,
    MTLFXSpatialScalerColorProcessingMode, MTLPixelFormat, Scaler, ScalerCreation, ScalerDescriptor,
    SpatialScalerDescriptor, TemporalDenoisedScalerDescriptor, TemporalScalerDescriptor,
};

verus! {

/// The engines provided by the MetalFX backend, in enumeration order.
pub open spec fn engines() -> Seq<SuperResolutionEngine> {
    seq![
        SuperResolutionEngine::metalfx_temporal_scaler(),
        SuperResolutionEngine::metalfx_spatial_scaler(),
        SuperResolutionEngine::metalfx_temporal_denoised_scaler(),
    ]
}

/// Whether the MetalFX backend provides an engine.
#[verifier::allow_in_spec]
pub fn is_known(engine: SuperResolutionEngine) -> bool
    returns
        engine == SuperResolutionEngine::metalfx_temporal_scaler()
            || engine == SuperResolutionEngine::metalfx_spatial_scaler()
            || engine == SuperResolutionEngine::metalfx_temporal_denoised_scaler(),
{
    engine == SuperResolutionEngine::metalfx_temporal_scaler()
        || engine == SuperResolutionEngine::metalfx_spatial_scaler()
        || engine == SuperResolutionEngine::metalfx_temporal_denoised_scaler()
}

/// Enumerates the MetalFX backend's engines.
pub fn enumerate_engines() -> (r: Vec<SuperResolutionEngine>)
    ensures
        r@ == engines(),
{
    let mut list: Vec<SuperResolutionEngine> = Vec::new();
    list.push(SuperResolutionEngine::metalfx_temporal_scaler());
    list.push(SuperResolutionEngine::metalfx_spatial_scaler());
    list.push(SuperResolutionEngine::metalfx_temporal_denoised_scaler());
    assert(list@ =~= engines());
    list
}

/// The engines are distinct, and they are those that the backend knows.
pub proof fn law_engines_are_distinct()
    ensures
        engines().no_duplicates(),
        forall|engine: SuperResolutionEngine| engines().contains(engine) <==> is_known(engine),
{
    assert forall|engine: SuperResolutionEngine| is_known(engine) implies engines().contains(
        engine,
    ) by {
        assert(engines()[0] == SuperResolutionEngine::metalfx_temporal_scaler());
        assert(engines()[1] == SuperResolutionEngine::metalfx_spatial_scaler());
        assert(engines()[2] == SuperResolutionEngine::metalfx_temporal_denoised_scaler());
    }
}

/// Representative discrete scaling factors for engines whose native scaling is continuous.
/// Each entry is an output-over-input ratio; the set is filtered against the engine's
/// reported `[min, max]` range at query time.
pub open spec fn candidate_scaling_factors() -> Seq<ScalingFactor> {
    seq![
        ScalingFactor { numerator: 3, denominator: 2 },  // 1.50x
        ScalingFactor { numerator: 5, denominator: 3 },  // 1.67x
        ScalingFactor { numerator: 7, denominator: 4 },  // 1.75x
        ScalingFactor { numerator: 2, denominator: 1 },  // 2.00x
        ScalingFactor { numerator: 5, denominator: 2 },  // 2.50x
        ScalingFactor { numerator: 3, denominator: 1 },  // 3.00x
    ]
}

fn candidate_scaling_factor_list() -> (factors: [ScalingFactor; 6])
    ensures
        factors@ == candidate_scaling_factors(),
{
    let factors = [
        ScalingFactor { numerator: 3, denominator: 2 },
        ScalingFactor { numerator: 5, denominator: 3 },
        ScalingFactor { numerator: 7, denominator: 4 },
        ScalingFactor { numerator: 2, denominator: 1 },
        ScalingFactor { numerator: 5, denominator: 2 },
        ScalingFactor { numerator: 3, denominator: 1 },
    ];
    assert(factors@ =~= candidate_scaling_factors());
    factors
}

/// A scaling factor as a single.
pub open spec fn factor_ratio(factor: ScalingFactor) -> Single {
    ratio_of(factor.numerator, factor.denominator)
}

/// Whether a scaling factor lies within a range of scales, the bounds included.
pub open spec fn factor_in_range(factor: ScalingFactor, min: Single, max: Single) -> bool {
    min.at_most(factor_ratio(factor)) && factor_ratio(factor).at_most(max)
}

/// The candidates that lie within a range of scales, in order.
pub open spec fn selected_factors(min: Single, max: Single) -> Seq<ScalingFactor> {
    candidate_scaling_factors().filter(|factor: ScalingFactor| factor_in_range(factor, min, max))
}

/// Whether a factor's ratio, as a single, is close to the exact one.
pub open spec fn factor_is_close(factor: ScalingFactor) -> bool {
    &&& is_close(factor_ratio(factor), factor.numerator as int, factor.denominator as int)
    &&& factor_ratio(factor).0 <= 0x4f80_0000
}

/// Whether the singles for all candidates are close to their exact ratios.
pub open spec fn candidates_are_close() -> bool {
    forall|i: int|
        0 <= i < candidate_scaling_factors().len() ==> #[trigger] factor_is_close(
            candidate_scaling_factors()[i],
        )
}

/// Selects the candidate scaling factors that fall within `[min, max]`, writing them into
/// `out` and returning how many were written.
pub fn discretize_scale_range(
    min: Single,
    max: Single,
    out: &mut [ScalingFactor; MAX_SUPER_RESOLUTION_SCALING_FACTOR_COUNT],
) -> (count: u32)
    ensures
        count == selected_factors(min, max).len(),
        final(out)@ == selected_factors(min, max) + old(out)@.skip(count as int),
        count <= candidate_scaling_factors().len(),
        candidates_are_close(),
{
    let candidates = candidate_scaling_factor_list();
    let ghost all = candidate_scaling_factors();
    let ghost keeps = |factor: ScalingFactor| factor_in_range(factor, min, max);
    let mut count: usize = 0;
    let mut i: usize = 0;
    proof {
        reveal(Seq::filter);
        assert(all.take(0).filter(keeps) =~= Seq::empty());
    }
    while i < 6
        invariant
            i <= 6,
            count <= i,
            all == candidate_scaling_factors(),
            candidates@ == all,
            all.len() == 6,
            keeps == (|factor: ScalingFactor| factor_in_range(factor, min, max)),
            count == all.take(i as int).filter(keeps).len(),
            out@ == all.take(i as int).filter(keeps) + old(out)@.skip(count as int),
            forall|j: int| 0 <= j < i ==> factor_is_close(#[trigger] all[j]),
        decreases 6 - i,
    {
        let factor = candidates[i];
        assert(factor.denominator > 0);
        let ratio = upscale_ratio(factor.numerator, factor.denominator);
        proof {
            reveal(Seq::filter);
            assert(all.take(i + 1).drop_last() =~= all.take(i as int));
            assert(all.take(i + 1).last() == factor);
            assert(factor_is_close(all[i as int]));
        }
        if min.le(ratio) && ratio.le(max) && count < MAX_SUPER_RESOLUTION_SCALING_FACTOR_COUNT {
            let ghost before = out@;
            out[count] = factor;
            assert(out@ =~= before.update(count as int, factor));
            count = count + 1;
        }
        i = i + 1;
        assert(out@ =~= all.take(i as int).filter(keeps) + old(out)@.skip(count as int));
    }
    assert(all.take(6) =~= all);
    count as u32
}

/// The scaling factor slots of an engine with the given range of scales, and how many are
/// in use.
fn scaling_factors_in_range(min: Single, max: Single) -> (r: (
    u32,
    [ScalingFactor; MAX_SUPER_RESOLUTION_SCALING_FACTOR_COUNT],
))
    ensures
        r.0 == selected_factors(min, max).len(),
        r.1@ == scaling_factor_slots(selected_factors(min, max)),
        candidates_are_close(),
{
    let mut slots = unused_scaling_factors();
    let ghost unused = slots@;
    let count: u32 = discretize_scale_range(min, max, &mut slots);
    proof {
        let selected = selected_factors(min, max);
        assert forall|i: int| 0 <= i < 16 implies slots@[i] == scaling_factor_slots(selected)[i] by {
            if i >= count {
                assert(slots@[i] == unused.skip(count as int)[i - count]);
                assert(unused[i] == unused_scaling_factor());
            }
        }
        assert(slots@ =~= scaling_factor_slots(selected));
    }
    (count, slots)
}

/// What is selected is exactly what is in range: each selected factor is a candidate in
/// range, and each candidate in range is selected.
pub proof fn law_selected_factors_are_those_in_range(
    min: Single,
    max: Single,
    factor: ScalingFactor,
)
    ensures
        selected_factors(min, max).contains(factor) <==> candidate_scaling_factors().contains(factor)
            && factor_in_range(factor, min, max),
{
    broadcast use vstd::seq_lib::group_filter_ensures;

    let keeps = |factor: ScalingFactor| factor_in_range(factor, min, max);
    if selected_factors(min, max).contains(factor) {
        let i = choose|i: int|
            0 <= i < selected_factors(min, max).len() && selected_factors(min, max)[i] == factor;
        assert(keeps(selected_factors(min, max)[i]));
        candidate_scaling_factors().lemma_filter_contains_rev(keeps, factor);
    }
    if candidate_scaling_factors().contains(factor) && factor_in_range(factor, min, max) {
        let i = choose|i: int|
            0 <= i < candidate_scaling_factors().len() && candidate_scaling_factors()[i] == factor;
        assert(keeps(candidate_scaling_factors()[i]));
    }
}

/// All candidates lie between 1.0 and infinity.
proof fn lemma_all_candidates_are_selected()
    requires
        candidates_are_close(),
    ensures
        selected_factors(Single(0x3f80_0000), Single(0x7f80_0000)) == candidate_scaling_factors(),
{
    let all = candidate_scaling_factors();
    let keeps = |factor: ScalingFactor|
        factor_in_range(factor, Single(0x3f80_0000), Single(0x7f80_0000));
    assert forall|i: int| 0 <= i < all.len() implies keeps(#[trigger] all[i]) by {
        assert(factor_is_close(all[i]));
        lemma_close_factor_is_above_one(all[i]);
    }
    lemma_filter_keeps_all(all, keeps);
}

proof fn lemma_filter_keeps_all(s: Seq<ScalingFactor>, keeps: spec_fn(ScalingFactor) -> bool)
    requires
        forall|i: int| 0 <= i < s.len() ==> keeps(#[trigger] s[i]),
    ensures
        s.filter(keeps) == s,
    decreases s.len(),
{
    reveal(Seq::filter);
    if s.len() > 0 {
        let rest = s.drop_last();
        assert forall|i: int| 0 <= i < rest.len() implies keeps(#[trigger] rest[i]) by {
            assert(rest[i] == s[i]);
        }
        lemma_filter_keeps_all(rest, keeps);
        assert(keeps(s[s.len() - 1]));
        assert(rest.push(s.last()) =~= s);
    }
}

/// A close factor that is, exactly, at least three halves is above one as a single.
proof fn lemma_close_factor_is_above_one(factor: ScalingFactor)
    requires
        factor_is_close(factor),
        factor.denominator > 0,
        3 * factor.denominator <= 2 * factor.numerator,
    ensures
        factor_in_range(factor, Single(0x3f80_0000), Single(0x7f80_0000)),
{
    let (n, d) = (factor.numerator as int, factor.denominator as int);
    let r = factor_ratio(factor);
    let (z, c) = (r.scaled(), one());
    vstd::arithmetic::power2::lemma_pow2_pos(149);
    crate::arith::lemma_power_pattern(127);
    assert(c <= z) by (nonlinear_arith)
        requires
            0x1f_ffff * (n * c) <= 0x20_0000 * (z * d),
            3 * d <= 2 * n,
            d > 0,
            c > 0,
    ;
    crate::rounding::lemma_scaled_magnitude_ordered(r.0 as int, 0x7f80_0000);
}

/// Whether `r` describes an engine of the MetalFX backend: by its name, what it is able to
/// do, the images it uses and its scaling factors. The rest is the same for all of them.
pub open spec fn describes(
    r: SuperResolutionEngineProperties,
    vendor_id: u32,
    name: Seq<u8>,
    flags: SuperResolutionEnginePropertyFlags,
    image_used: SuperResolutionImageUseFlags,
    factors: Seq<ScalingFactor>,
) -> bool {
    &&& r.vendor_id == vendor_id
    &&& r.engine_version == 0
    &&& r.engine_uuid@ =~= Seq::new(16, |i: int| 0u8)
    &&& r.engine_name@ == padded_name(name)
    &&& r.flags == flags
    &&& r.image_used == image_used
    &&& r.supported_quality_focuses == SuperResolutionQualityFocusFlags::balanced()
    &&& r.supported_queue_family_indexes@ =~= Seq::new(8, |i: int| QUEUE_FAMILY_IGNORED)
    &&& r.supported_scaling_factor_count == factors.len()
    &&& r.supported_scaling_factors@ == scaling_factor_slots(factors)
    &&& r.max_destination_region_size == (Extent2D { width: 16384, height: 16384 })
    &&& r.max_supported_concurrent_session_dispatches == 1
}

/// The image uses of the temporal scaler.
pub open spec fn temporal_image_used() -> SuperResolutionImageUseFlags {
    SuperResolutionImageUseFlags(
        SuperResolutionImageUseFlags::source().0
            | SuperResolutionImageUseFlags::destination().0
            | SuperResolutionImageUseFlags::depth().0
            | SuperResolutionImageUseFlags::motion_vectors().0
            | SuperResolutionImageUseFlags::reactive_mask().0
            | SuperResolutionImageUseFlags::exposure_scale().0,
    )
}

/// What the temporal scaler is able to do.
pub open spec fn temporal_flags() -> SuperResolutionEnginePropertyFlags {
    SuperResolutionEnginePropertyFlags(
        SuperResolutionEnginePropertyFlags::is_temporal().0
            | SuperResolutionEnginePropertyFlags::supports_continuous_scaling().0
            | SuperResolutionEnginePropertyFlags::supports_dynamic_source_size().0
            | SuperResolutionEnginePropertyFlags::supports_pipeline_cache().0,
    )
}

/// Properties of the temporal scaler on a device with the given vendor
/// and the given range of scales.
pub fn temporal_scaler_properties(
    vendor_id: u32,
    min_scale: Single,
    max_scale: Single,
) -> (r: SuperResolutionEngineProperties)
    ensures
        describes(
            r,
            vendor_id,
            ascii_bytes("MetalFX Temporal Scaler"@),
            temporal_flags(),
            temporal_image_used(),
            selected_factors(min_scale, max_scale),
        ),
{
    let name = "MetalFX Temporal Scaler";
    proof {
        reveal_strlit("MetalFX Temporal Scaler");
        assert(name@ =~= seq![
            'M', 'e', 't', 'a', 'l', 'F', 'X', ' ', 'T', 'e', 'm', 'p', 'o', 'r', 'a', 'l', ' ',
            'S', 'c', 'a', 'l', 'e', 'r',
        ]);
    }
    let (supported_scaling_factor_count, supported_scaling_factors) = scaling_factors_in_range(
        min_scale,
        max_scale,
    );
    SuperResolutionEngineProperties {
        vendor_id,
        // MetalFX exposes no version/UUID.
        engine_version: 0,
        engine_uuid: [0u8;16],
        engine_name: ascii_engine_name(name),
        flags: SuperResolutionEnginePropertyFlags::is_temporal()
            | SuperResolutionEnginePropertyFlags::supports_continuous_scaling()
            | SuperResolutionEnginePropertyFlags::supports_dynamic_source_size()
            | SuperResolutionEnginePropertyFlags::supports_pipeline_cache(),
        image_used: SuperResolutionImageUseFlags::source()
            | SuperResolutionImageUseFlags::destination()
            | SuperResolutionImageUseFlags::depth()
            | SuperResolutionImageUseFlags::motion_vectors()
            | SuperResolutionImageUseFlags::reactive_mask()
            | SuperResolutionImageUseFlags::exposure_scale(),
        // MetalFX has no explicit quality presets; map to the single balanced focus.
        supported_quality_focuses: SuperResolutionQualityFocusFlags::balanced(),
        // No queue-family affinity: the "ignored" sentinel throughout.
        supported_queue_family_indexes: [QUEUE_FAMILY_IGNORED;8],
        supported_scaling_factor_count,
        supported_scaling_factors,
        // Metal's maximum 2D texture dimension on Apple silicon.
        max_destination_region_size: Extent2D { width: 16384, height: 16384 },
        max_supported_concurrent_session_dispatches: 1,
    }
}

/// The image uses of the temporal denoised scaler.
pub open spec fn denoised_image_used() -> SuperResolutionImageUseFlags {
    SuperResolutionImageUseFlags(
        SuperResolutionImageUseFlags::source().0
            | SuperResolutionImageUseFlags::destination().0
            | SuperResolutionImageUseFlags::depth().0
            | SuperResolutionImageUseFlags::motion_vectors().0
            | SuperResolutionImageUseFlags::reactive_mask().0
            | SuperResolutionImageUseFlags::exposure_scale().0
            | SuperResolutionImageUseFlags::diffuse_albedo().0
            | SuperResolutionImageUseFlags::specular_albedo().0
            | SuperResolutionImageUseFlags::normal().0
            | SuperResolutionImageUseFlags::roughness().0
            | SuperResolutionImageUseFlags::specular_hit_distance().0
            | SuperResolutionImageUseFlags::denoise_strength_mask().0
            | SuperResolutionImageUseFlags::transparency_overlay().0,
    )
}

/// What the temporal denoised scaler is able to do.
pub open spec fn denoised_flags() -> SuperResolutionEnginePropertyFlags {
    SuperResolutionEnginePropertyFlags(
        SuperResolutionEnginePropertyFlags::is_temporal().0
            | SuperResolutionEnginePropertyFlags::supports_continuous_scaling().0
            | SuperResolutionEnginePropertyFlags::supports_pipeline_cache().0,
    )
}

/// Properties of the temporal denoised scaler on a device with the given vendor
/// and the given range of scales.
pub fn temporal_denoised_scaler_properties(
    vendor_id: u32,
    min_scale: Single,
    max_scale: Single,
) -> (r: SuperResolutionEngineProperties)
    ensures
        describes(
            r,
            vendor_id,
            ascii_bytes("MetalFX Denoised Scaler"@),
            denoised_flags(),
            denoised_image_used(),
            selected_factors(min_scale, max_scale),
        ),
{
    let name = "MetalFX Denoised Scaler";
    proof {
        reveal_strlit("MetalFX Denoised Scaler");
        assert(name@ =~= seq![
            'M', 'e', 't', 'a', 'l', 'F', 'X', ' ', 'D', 'e', 'n', 'o', 'i', 's', 'e', 'd', ' ',
            'S', 'c', 'a', 'l', 'e', 'r',
        ]);
    }
    let (supported_scaling_factor_count, supported_scaling_factors) = scaling_factors_in_range(
        min_scale,
        max_scale,
    );
    SuperResolutionEngineProperties {
        vendor_id,
        // MetalFX exposes no version/UUID.
        engine_version: 0,
        engine_uuid: [0u8;16],
        engine_name: ascii_engine_name(name),
        flags: SuperResolutionEnginePropertyFlags::is_temporal()
            | SuperResolutionEnginePropertyFlags::supports_continuous_scaling()
            | SuperResolutionEnginePropertyFlags::supports_pipeline_cache(),
        image_used: SuperResolutionImageUseFlags::source()
            | SuperResolutionImageUseFlags::destination()
            | SuperResolutionImageUseFlags::depth()
            | SuperResolutionImageUseFlags::motion_vectors()
            | SuperResolutionImageUseFlags::reactive_mask()
            | SuperResolutionImageUseFlags::exposure_scale()
            | SuperResolutionImageUseFlags::diffuse_albedo()
            | SuperResolutionImageUseFlags::specular_albedo()
            | SuperResolutionImageUseFlags::normal()
            | SuperResolutionImageUseFlags::roughness()
            | SuperResolutionImageUseFlags::specular_hit_distance()
            | SuperResolutionImageUseFlags::denoise_strength_mask()
            | SuperResolutionImageUseFlags::transparency_overlay(),
        // MetalFX has no explicit quality presets; map to the single balanced focus.
        supported_quality_focuses: SuperResolutionQualityFocusFlags::balanced(),
        // No queue-family affinity: the "ignored" sentinel throughout.
        supported_queue_family_indexes: [QUEUE_FAMILY_IGNORED;8],
        supported_scaling_factor_count,
        supported_scaling_factors,
        // Metal's maximum 2D texture dimension on Apple silicon.
        max_destination_region_size: Extent2D { width: 16384, height: 16384 },
        max_supported_concurrent_session_dispatches: 1,
    }
}

/// The image uses of the spatial scaler.
pub open spec fn spatial_image_used() -> SuperResolutionImageUseFlags {
    SuperResolutionImageUseFlags(
        SuperResolutionImageUseFlags::source().0
            | SuperResolutionImageUseFlags::destination().0,
    )
}

/// What the spatial scaler is able to do.
pub open spec fn spatial_flags() -> SuperResolutionEnginePropertyFlags {
    SuperResolutionEnginePropertyFlags(
        SuperResolutionEnginePropertyFlags::supports_continuous_scaling().0
            | SuperResolutionEnginePropertyFlags::supports_dynamic_source_size().0
            | SuperResolutionEnginePropertyFlags::supports_pipeline_cache().0,
    )
}

/// Properties of the spatial scaler on a device with the given vendor. It has no range of
/// scales: it reports all candidate factors.
pub fn spatial_scaler_properties(vendor_id: u32) -> (r: SuperResolutionEngineProperties)
    ensures
        describes(
            r,
            vendor_id,
            ascii_bytes("MetalFX Spatial Scaler"@),
            spatial_flags(),
            spatial_image_used(),
            candidate_scaling_factors(),
        ),
{
    let name = "MetalFX Spatial Scaler";
    proof {
        reveal_strlit("MetalFX Spatial Scaler");
        assert(name@ =~= seq![
            'M', 'e', 't', 'a', 'l', 'F', 'X', ' ', 'S', 'p', 'a', 't', 'i', 'a', 'l', ' ', 'S',
            'c', 'a', 'l', 'e', 'r',
        ]);
    }
    let (supported_scaling_factor_count, supported_scaling_factors) = scaling_factors_in_range(
        Single(0x3f80_0000),
        Single(0x7f80_0000),
    );
    proof {
        lemma_all_candidates_are_selected();
    }
    SuperResolutionEngineProperties {
        vendor_id,
        // MetalFX exposes no version/UUID.
        engine_version: 0,
        engine_uuid: [0u8;16],
        engine_name: ascii_engine_name(name),
        flags: SuperResolutionEnginePropertyFlags::supports_continuous_scaling()
            | SuperResolutionEnginePropertyFlags::supports_dynamic_source_size()
            | SuperResolutionEnginePropertyFlags::supports_pipeline_cache(),
        image_used: SuperResolutionImageUseFlags::source()
            | SuperResolutionImageUseFlags::destination(),
        // MetalFX has no explicit quality presets; map to the single balanced focus.
        supported_quality_focuses: SuperResolutionQualityFocusFlags::balanced(),
        // No queue-family affinity: the "ignored" sentinel throughout.
        supported_queue_family_indexes: [QUEUE_FAMILY_IGNORED;8],
        supported_scaling_factor_count,
        supported_scaling_factors,
        // Metal's maximum 2D texture dimension on Apple silicon.
        max_destination_region_size: Extent2D { width: 16384, height: 16384 },
        max_supported_concurrent_session_dispatches: 1,
    }
}

/// The range of scales that an engine reports for the system's device: from the smallest to
/// the largest output-over-input ratio. The spatial scaler reports none.
#[derive(Clone, Copy, Debug, PartialEq, Eq, Hash, Structural)]
pub struct ScaleRange {
    pub min: Single,
    pub max: Single,
}

/// The name of an engine.
pub open spec fn engine_text(engine: SuperResolutionEngine) -> Seq<char> {
    if engine == SuperResolutionEngine::metalfx_temporal_scaler() {
        "MetalFX Temporal Scaler"@
    } else if engine == SuperResolutionEngine::metalfx_spatial_scaler() {
        "MetalFX Spatial Scaler"@
    } else {
        "MetalFX Denoised Scaler"@
    }
}

/// What an engine is able to do. The denoised scaler has no dynamic-resolution mode.
pub open spec fn engine_flags(engine: SuperResolutionEngine) -> SuperResolutionEnginePropertyFlags {
    if engine == SuperResolutionEngine::metalfx_temporal_scaler() {
        temporal_flags()
    } else if engine == SuperResolutionEngine::metalfx_spatial_scaler() {
        spatial_flags()
    } else {
        denoised_flags()
    }
}

/// The image uses of an engine.
pub open spec fn image_used(engine: SuperResolutionEngine) -> SuperResolutionImageUseFlags {
    if engine == SuperResolutionEngine::metalfx_temporal_scaler() {
        temporal_image_used()
    } else if engine == SuperResolutionEngine::metalfx_spatial_scaler() {
        spatial_image_used()
    } else {
        denoised_image_used()
    }
}

/// The scaling factors of an engine.
pub open spec fn scaling_factors(
    engine: SuperResolutionEngine,
    temporal: ScaleRange,
    denoised: ScaleRange,
) -> Seq<ScalingFactor> {
    if engine == SuperResolutionEngine::metalfx_temporal_scaler() {
        selected_factors(temporal.min, temporal.max)
    } else if engine == SuperResolutionEngine::metalfx_spatial_scaler() {
        candidate_scaling_factors()
    } else {
        selected_factors(denoised.min, denoised.max)
    }
}

/// Properties of an engine of the MetalFX backend on a device with the given vendor. The
/// ranges of scales are those of the temporal and of the temporal denoised scaler.
pub fn engine_properties(
    vendor_id: u32,
    temporal: ScaleRange,
    denoised: ScaleRange,
    engine: SuperResolutionEngine,
) -> (r: SuperResolutionEngineProperties)
    requires
        is_known(engine),
    ensures
        describes(
            r,
            vendor_id,
            ascii_bytes(engine_text(engine)),
            engine_flags(engine),
            image_used(engine),
            scaling_factors(engine, temporal, denoised),
        ),
{
    if engine == SuperResolutionEngine::metalfx_temporal_scaler() {
        temporal_scaler_properties(vendor_id, temporal.min, temporal.max)
    } else if engine == SuperResolutionEngine::metalfx_spatial_scaler() {
        spatial_scaler_properties(vendor_id)
    } else {
        temporal_denoised_scaler_properties(vendor_id, denoised.min, denoised.max)
    }
}

/// A texture input/output role of a temporal scaler, mapped from a
/// [`SuperResolutionImageUseFlags`] bit.
#[derive(Clone, Copy, Debug, PartialEq, Eq, Hash, Structural)]
pub enum TemporalTextureRole {
    Color,
    Output,
    Depth,
    Motion,
    ReactiveMask,
}

/// Color formats MetalFX accepts for both color inputs and the upscaled output.
pub open spec fn temporal_color_formats() -> Seq<Format> {
    seq![
        Format::r16g16b16a16_sfloat(),
        Format::r8g8b8a8_unorm(),
        Format::b8g8r8a8_unorm(),
        Format::a2b10g10r10_unorm_pack32(),
    ]
}

fn temporal_color_format_list() -> (formats: [Format; 4])
    ensures
        formats@ == temporal_color_formats(),
{
    let formats = [
        Format::r16g16b16a16_sfloat(),
        Format::r8g8b8a8_unorm(),
        Format::b8g8r8a8_unorm(),
        Format::a2b10g10r10_unorm_pack32(),
    ];
    assert(formats@ =~= temporal_color_formats());
    formats
}

impl TemporalTextureRole {
    /// The formats of a texture in this role.
    pub open spec fn formats(self) -> Seq<Format> {
        match self {
            TemporalTextureRole::Color => temporal_color_formats(),
            TemporalTextureRole::Output => temporal_color_formats(),
            TemporalTextureRole::Depth => seq![Format::r32_sfloat(), Format::d32_sfloat()],
            TemporalTextureRole::Motion => seq![Format::r16g16_sfloat()],
            TemporalTextureRole::ReactiveMask => seq![Format::r8_unorm()],
        }
    }

    /// The usage of a texture in this role: the output is written, the others are sampled.
    pub open spec fn usage(self) -> ImageUsageFlags {
        if self == TemporalTextureRole::Output {
            ImageUsageFlags::storage()
        } else {
            ImageUsageFlags::sampled()
        }
    }

    /// The statically known set of supported formats for this role together with the Vulkan
    /// image usage MetalFX requires of that texture.
    ///
    /// MetalFX's accepted formats and minimal texture usage are fixed across every device
    /// that supports the temporal scaler, so this needs no device query or scaler
    /// instantiation. Inputs are sampled (`ShaderRead`); the output is written
    /// (`ShaderWrite`).
    pub fn supported(self) -> (r: (Vec<Format>, ImageUsageFlags))
        ensures
            r.0@ == self.formats(),
            r.1 == self.usage(),
    {
        let mut formats: Vec<Format> = Vec::new();
        match self {
            TemporalTextureRole::Color | TemporalTextureRole::Output => {
                formats.push(Format::r16g16b16a16_sfloat());
                formats.push(Format::r8g8b8a8_unorm());
                formats.push(Format::b8g8r8a8_unorm());
                formats.push(Format::a2b10g10r10_unorm_pack32());
            },
            TemporalTextureRole::Depth => {
                formats.push(Format::r32_sfloat());
                formats.push(Format::d32_sfloat());
            },
            TemporalTextureRole::Motion => {
                formats.push(Format::r16g16_sfloat());
            },
            TemporalTextureRole::ReactiveMask => {
                formats.push(Format::r8_unorm());
            },
        }
        assert(formats@ =~= self.formats());
        let usage = if self == TemporalTextureRole::Output {
            ImageUsageFlags::storage()
        } else {
            ImageUsageFlags::sampled()
        };
        (formats, usage)
    }
}

/// What the temporal scaler reports for one of its roles.
pub open spec fn role_reported(
    image_use: SuperResolutionImageUseFlags,
    flag: SuperResolutionImageUseFlags,
    role: TemporalTextureRole,
) -> Seq<SuperResolutionImageProperties> {
    reported(image_use, flag, role.formats(), role.usage())
}

/// The formats of the temporal scaler for each image use.
pub open spec fn temporal_supported_images(image_use: SuperResolutionImageUseFlags) -> Seq<
    SuperResolutionImageProperties,
> {
    role_reported(image_use, SuperResolutionImageUseFlags::source(), TemporalTextureRole::Color)
        + role_reported(
        image_use,
        SuperResolutionImageUseFlags::destination(),
        TemporalTextureRole::Output,
    ) + role_reported(
        image_use,
        SuperResolutionImageUseFlags::depth(),
        TemporalTextureRole::Depth,
    ) + role_reported(
        image_use,
        SuperResolutionImageUseFlags::motion_vectors(),
        TemporalTextureRole::Motion,
    ) + role_reported(
        image_use,
        SuperResolutionImageUseFlags::reactive_mask(),
        TemporalTextureRole::ReactiveMask,
    ) + reported(
        image_use,
        SuperResolutionImageUseFlags::exposure_scale(),
        seq![Format::r16_sfloat()],
        ImageUsageFlags::sampled(),
    )
}

/// Appends what the temporal scaler reports for one of its roles.
fn report_role(
    properties: &mut Vec<SuperResolutionImageProperties>,
    image_use: SuperResolutionImageUseFlags,
    flag: SuperResolutionImageUseFlags,
    role: TemporalTextureRole,
)
    ensures
        final(properties)@ == old(properties)@ + role_reported(image_use, flag, role),
{
    let (formats, usage) = role.supported();
    report(properties, image_use, flag, formats.as_slice(), usage);
}

/// Enumerates the image properties that the temporal scaler supports.
pub fn temporal_supported_image_properties(image_use: SuperResolutionImageUseFlags) -> (properties:
    Vec<SuperResolutionImageProperties>)
    ensures
        properties@ == temporal_supported_images(image_use),
{
    let mut p: Vec<SuperResolutionImageProperties> = Vec::new();
    report_role(
        &mut p,
        image_use,
        SuperResolutionImageUseFlags::source(),
        TemporalTextureRole::Color,
    );
    assert(p@ =~= role_reported(
        image_use,
        SuperResolutionImageUseFlags::source(),
        TemporalTextureRole::Color,
    ));
    report_role(
        &mut p,
        image_use,
        SuperResolutionImageUseFlags::destination(),
        TemporalTextureRole::Output,
    );
    report_role(
        &mut p,
        image_use,
        SuperResolutionImageUseFlags::depth(),
        TemporalTextureRole::Depth,
    );
    report_role(
        &mut p,
        image_use,
        SuperResolutionImageUseFlags::motion_vectors(),
        TemporalTextureRole::Motion,
    );
    report_role(
        &mut p,
        image_use,
        SuperResolutionImageUseFlags::reactive_mask(),
        TemporalTextureRole::ReactiveMask,
    );
    // The exposure scale is a fixed 1x1 R16Float texture MetalFX samples; it has no
    // descriptor field or usage getter, so it is reported directly.
    let exposure_scale = [Format::r16_sfloat()];
    assert(exposure_scale@ =~= seq![Format::r16_sfloat()]);
    report(
        &mut p,
        image_use,
        SuperResolutionImageUseFlags::exposure_scale(),
        &exposure_scale,
        ImageUsageFlags::sampled(),
    );
    p
}

/// The formats of the temporal denoised scaler for each image use.
pub open spec fn denoised_supported_images(image_use: SuperResolutionImageUseFlags) -> Seq<
    SuperResolutionImageProperties,
> {
    reported(
        image_use,
        SuperResolutionImageUseFlags::source(),
        temporal_color_formats(),
        ImageUsageFlags::sampled(),
    ) + reported(
        image_use,
        SuperResolutionImageUseFlags::destination(),
        temporal_color_formats(),
        ImageUsageFlags::storage(),
    ) + reported(
        image_use,
        SuperResolutionImageUseFlags::depth(),
        seq![Format::r32_sfloat(), Format::d32_sfloat()],
        ImageUsageFlags::sampled(),
    ) + reported(
        image_use,
        SuperResolutionImageUseFlags::motion_vectors(),
        seq![Format::r16g16_sfloat()],
        ImageUsageFlags::sampled(),
    ) + reported(
        image_use,
        SuperResolutionImageUseFlags::reactive_mask(),
        seq![Format::r8_unorm()],
        ImageUsageFlags::sampled(),
    ) + reported(
        image_use,
        SuperResolutionImageUseFlags::exposure_scale(),
        seq![Format::r16_sfloat()],
        ImageUsageFlags::sampled(),
    ) + reported(
        image_use,
        SuperResolutionImageUseFlags::diffuse_albedo(),
        temporal_color_formats(),
        ImageUsageFlags::sampled(),
    ) + reported(
        image_use,
        SuperResolutionImageUseFlags::specular_albedo(),
        temporal_color_formats(),
        ImageUsageFlags::sampled(),
    ) + reported(
        image_use,
        SuperResolutionImageUseFlags::normal(),
        seq![Format::r16g16b16a16_sfloat(), Format::a2b10g10r10_unorm_pack32()],
        ImageUsageFlags::sampled(),
    ) + reported(
        image_use,
        SuperResolutionImageUseFlags::roughness(),
        seq![Format::r8_unorm(), Format::r16_sfloat()],
        ImageUsageFlags::sampled(),
    ) + reported(
        image_use,
        SuperResolutionImageUseFlags::specular_hit_distance(),
        seq![Format::r16_sfloat(), Format::r32_sfloat()],
        ImageUsageFlags::sampled(),
    ) + reported(
        image_use,
        SuperResolutionImageUseFlags::denoise_strength_mask(),
        seq![Format::r8_unorm()],
        ImageUsageFlags::sampled(),
    ) + reported(
        image_use,
        SuperResolutionImageUseFlags::transparency_overlay(),
        seq![Format::r16g16b16a16_sfloat()],
        ImageUsageFlags::sampled(),
    )
}

/// Enumerates the image properties that the temporal denoised scaler supports.
pub fn denoised_supported_image_properties(image_use: SuperResolutionImageUseFlags) -> (properties:
    Vec<SuperResolutionImageProperties>)
    ensures
        properties@ == denoised_supported_images(image_use),
{
    let color = temporal_color_format_list();
    let depth = [Format::r32_sfloat(), Format::d32_sfloat()];
    let motion_vectors = [Format::r16g16_sfloat()];
    let reactive_mask = [Format::r8_unorm()];
    let exposure_scale = [Format::r16_sfloat()];
    let normal = [Format::r16g16b16a16_sfloat(), Format::a2b10g10r10_unorm_pack32()];
    let roughness = [Format::r8_unorm(), Format::r16_sfloat()];
    let specular_hit_distance = [Format::r16_sfloat(), Format::r32_sfloat()];
    let denoise_strength_mask = [Format::r8_unorm()];
    let transparency_overlay = [Format::r16g16b16a16_sfloat()];
    proof {
        assert(depth@ =~= seq![Format::r32_sfloat(), Format::d32_sfloat()]);
        assert(motion_vectors@ =~= seq![Format::r16g16_sfloat()]);
        assert(reactive_mask@ =~= seq![Format::r8_unorm()]);
        assert(exposure_scale@ =~= seq![Format::r16_sfloat()]);
        assert(normal@ =~= seq![Format::r16g16b16a16_sfloat(), Format::a2b10g10r10_unorm_pack32()]);
        assert(roughness@ =~= seq![Format::r8_unorm(), Format::r16_sfloat()]);
        assert(specular_hit_distance@ =~= seq![Format::r16_sfloat(), Format::r32_sfloat()]);
        assert(denoise_strength_mask@ =~= seq![Format::r8_unorm()]);
        assert(transparency_overlay@ =~= seq![Format::r16g16b16a16_sfloat()]);
    }
    let mut p: Vec<SuperResolutionImageProperties> = Vec::new();
    report(
        &mut p,
        image_use,
        SuperResolutionImageUseFlags::source(),
        &color,
        ImageUsageFlags::sampled(),
    );
    assert(p@ =~= reported(
        image_use,
        SuperResolutionImageUseFlags::source(),
        temporal_color_formats(),
        ImageUsageFlags::sampled(),
    ));
    report(
        &mut p,
        image_use,
        SuperResolutionImageUseFlags::destination(),
        &color,
        ImageUsageFlags::storage(),
    );
    report(
        &mut p,
        image_use,
        SuperResolutionImageUseFlags::depth(),
        &depth,
        ImageUsageFlags::sampled(),
    );
    report(
        &mut p,
        image_use,
        SuperResolutionImageUseFlags::motion_vectors(),
        &motion_vectors,
        ImageUsageFlags::sampled(),
    );
    report(
        &mut p,
        image_use,
        SuperResolutionImageUseFlags::reactive_mask(),
        &reactive_mask,
        ImageUsageFlags::sampled(),
    );
    report(
        &mut p,
        image_use,
        SuperResolutionImageUseFlags::exposure_scale(),
        &exposure_scale,
        ImageUsageFlags::sampled(),
    );
    report(
        &mut p,
        image_use,
        SuperResolutionImageUseFlags::diffuse_albedo(),
        &color,
        ImageUsageFlags::sampled(),
    );
    report(
        &mut p,
        image_use,
        SuperResolutionImageUseFlags::specular_albedo(),
        &color,
        ImageUsageFlags::sampled(),
    );
    report(
        &mut p,
        image_use,
        SuperResolutionImageUseFlags::normal(),
        &normal,
        ImageUsageFlags::sampled(),
    );
    report(
        &mut p,
        image_use,
        SuperResolutionImageUseFlags::roughness(),
        &roughness,
        ImageUsageFlags::sampled(),
    );
    report(
        &mut p,
        image_use,
        SuperResolutionImageUseFlags::specular_hit_distance(),
        &specular_hit_distance,
        ImageUsageFlags::sampled(),
    );
    report(
        &mut p,
        image_use,
        SuperResolutionImageUseFlags::denoise_strength_mask(),
        &denoise_strength_mask,
        ImageUsageFlags::sampled(),
    );
    report(
        &mut p,
        image_use,
        SuperResolutionImageUseFlags::transparency_overlay(),
        &transparency_overlay,
        ImageUsageFlags::sampled(),
    );
    p
}

/// The formats of the spatial scaler for each image use.
pub open spec fn spatial_supported_images(image_use: SuperResolutionImageUseFlags) -> Seq<
    SuperResolutionImageProperties,
> {
    reported(
        image_use,
        SuperResolutionImageUseFlags::source(),
        temporal_color_formats(),
        ImageUsageFlags::sampled(),
    ) + reported(
        image_use,
        SuperResolutionImageUseFlags::destination(),
        temporal_color_formats(),
        ImageUsageFlags::storage(),
    )
}

/// Enumerates the image properties that the spatial scaler supports.
pub fn spatial_supported_image_properties(image_use: SuperResolutionImageUseFlags) -> (properties:
    Vec<SuperResolutionImageProperties>)
    ensures
        properties@ == spatial_supported_images(image_use),
{
    let color = temporal_color_format_list();
    let mut p: Vec<SuperResolutionImageProperties> = Vec::new();
    report(
        &mut p,
        image_use,
        SuperResolutionImageUseFlags::source(),
        &color,
        ImageUsageFlags::sampled(),
    );
    report(
        &mut p,
        image_use,
        SuperResolutionImageUseFlags::destination(),
        &color,
        ImageUsageFlags::storage(),
    );
    assert(p@ =~= spatial_supported_images(image_use));
    p
}

/// The formats of an engine for each image use.
pub open spec fn supported_images(
    engine: SuperResolutionEngine,
    image_use: SuperResolutionImageUseFlags,
) -> Seq<SuperResolutionImageProperties> {
    if engine == SuperResolutionEngine::metalfx_temporal_scaler() {
        temporal_supported_images(image_use)
    } else if engine == SuperResolutionEngine::metalfx_spatial_scaler() {
        spatial_supported_images(image_use)
    } else {
        denoised_supported_images(image_use)
    }
}

/// Enumerates the image properties that an engine of the MetalFX backend supports for the
/// given `image_use`.
pub fn engine_supported_image_properties(
    engine: SuperResolutionEngine,
    image_use: SuperResolutionImageUseFlags,
) -> (properties: Vec<SuperResolutionImageProperties>)
    requires
        is_known(engine),
    ensures
        properties@ == supported_images(engine, image_use),
{
    if engine == SuperResolutionEngine::metalfx_temporal_scaler() {
        temporal_supported_image_properties(image_use)
    } else if engine == SuperResolutionEngine::metalfx_spatial_scaler() {
        spatial_supported_image_properties(image_use)
    } else {
        denoised_supported_image_properties(image_use)
    }
}

/// Each engine reports formats exactly for the image uses it declares.
pub proof fn law_formats_match_declared_uses(
    engine: SuperResolutionEngine,
    image_use: SuperResolutionImageUseFlags,
)
    requires
        is_known(engine),
    ensures
        supported_images(engine, image_use).len() > 0 <==> image_use.intersects(image_used(engine)),
{
    lemma_temporal_formats_match(image_use);
    lemma_spatial_formats_match(image_use);
    lemma_denoised_formats_match(image_use);
}

proof fn lemma_temporal_formats_match(image_use: SuperResolutionImageUseFlags)
    ensures
        temporal_supported_images(image_use).len() > 0 <==> image_use.intersects(
            temporal_image_used(),
        ),
{
    let x = image_use.0;
    assert((x & 0x1 == 0x1 || x & 0x2 == 0x2 || x & 0x4 == 0x4 || x & 0x8 == 0x8 || x & 0x10 ==
        0x10 || x & 0x40 == 0x40) <==> x & (0x1u32 | 0x2u32 | 0x4u32 | 0x8u32 | 0x10u32 | 0x40u32)
        != 0) by (bit_vector);
}

proof fn lemma_spatial_formats_match(image_use: SuperResolutionImageUseFlags)
    ensures
        spatial_supported_images(image_use).len() > 0 <==> image_use.intersects(
            spatial_image_used(),
        ),
{
    let x = image_use.0;
    assert((x & 0x1 == 0x1 || x & 0x2 == 0x2) <==> x & (0x1u32 | 0x2u32) != 0) by (bit_vector);
}

proof fn lemma_denoised_formats_match(image_use: SuperResolutionImageUseFlags)
    ensures
        denoised_supported_images(image_use).len() > 0 <==> image_use.intersects(
            denoised_image_used(),
        ),
{
    let x = image_use.0;
    assert((x & 0x1 == 0x1 || x & 0x2 == 0x2 || x & 0x4 == 0x4 || x & 0x8 == 0x8 || x & 0x10 ==
        0x10 || x & 0x40 == 0x40 || x & 0x80 == 0x80 || x & 0x100 == 0x100 || x & 0x200 == 0x200
        || x & 0x400 == 0x400 || x & 0x800 == 0x800 || x & 0x1000 == 0x1000 || x & 0x2000 ==
        0x2000) <==> x & (0x1u32 | 0x2u32 | 0x4u32 | 0x8u32 | 0x10u32 | 0x40u32 | 0x80u32 |
        0x100u32 | 0x200u32 | 0x400u32 | 0x800u32 | 0x1000u32 | 0x2000u32) != 0) by (bit_vector);
}

/// MetalFX scalers allocate and manage their own working memory internally, so a session
/// exposes no Vulkan-visible memory bind points to satisfy.
pub fn session_memory_requirements() -> (r: Vec<SuperResolutionSessionMemoryRequirements>)
    ensures
        r@ == Seq::<SuperResolutionSessionMemoryRequirements>::empty(),
{
    Vec::new()
}

/// MetalFX manages its own descriptors, so a session requires no application-provided
/// descriptor heap ranges. All sizes are zero.
pub fn session_descriptor_heap_ranges() -> (r: SuperResolutionDescriptorHeapRanges)
    ensures
        r == (SuperResolutionDescriptorHeapRanges {
            resource_heap_size: 0,
            resource_heap_alignment: 0,
            sampler_heap_size: 0,
            sampler_heap_alignment: 0,
        }),
{
    SuperResolutionDescriptorHeapRanges {
        resource_heap_size: 0,
        resource_heap_alignment: 0,
        sampler_heap_size: 0,
        sampler_heap_alignment: 0,
    }
}

} // verus!
