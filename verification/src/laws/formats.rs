//! Which image formats engines take, use by use.
use vstd::prelude::*;

use crate::blit;
use crate::dlss;
use crate::flags::SuperResolutionImageUseFlags;
use crate::metalfx;
use crate::types::{SuperResolutionEngine, SuperResolutionImageProperties};
use crate::vk::{Format, ImageUsageFlags};

verus! {

/// Whether what is reported is exactly the given formats, in order, all with one usage.
pub open spec fn lists(
    p: Seq<SuperResolutionImageProperties>,
    formats: Seq<Format>,
    usage: ImageUsageFlags,
) -> bool {
    &&& p.len() == formats.len()
    &&& forall|i: int|
        0 <= i < p.len() ==> (#[trigger] p[i]).format == formats[i] && p[i].image_usage_flags
            == usage
}

/// The four color formats of MetalFX and of a blit.
pub open spec fn four_colors() -> Seq<Format> {
    seq![
        Format::r16g16b16a16_sfloat(),
        Format::r8g8b8a8_unorm(),
        Format::b8g8r8a8_unorm(),
        Format::a2b10g10r10_unorm_pack32(),
    ]
}

/// A result where a use is asked about, nothing where it is not.
pub open spec fn where_asked(
    image_use: u32,
    bit: u32,
    p: Seq<SuperResolutionImageProperties>,
) -> Seq<SuperResolutionImageProperties> {
    if image_use & bit == bit {
        p
    } else {
        Seq::empty()
    }
}

/// What DLSS-RR takes for each use, asked about that use alone: all as storage images.
pub proof fn law_dlss_formats_of_each_use(
    engine: SuperResolutionEngine,
    image_use: SuperResolutionImageUseFlags,
    p: Vec<SuperResolutionImageProperties>,
)
    requires
        engine.0 == 0,
        call_ensures(dlss::engine_supported_image_properties, (engine, image_use), p),
    ensures
        // Source.
        image_use.0 == 0x1 ==> lists(
            p@,
            seq![Format::r16g16b16a16_sfloat(), Format::r8g8b8a8_unorm()],
            ImageUsageFlags::storage(),
        ),
        // Destination.
        image_use.0 == 0x2 ==> lists(
            p@,
            seq![Format::r16g16b16a16_sfloat(), Format::r8g8b8a8_unorm()],
            ImageUsageFlags::storage(),
        ),
        // Depth.
        image_use.0 == 0x4 ==> lists(
            p@,
            seq![Format::r32_sfloat(), Format::d32_sfloat()],
            ImageUsageFlags::storage(),
        ),
        // Motion vectors.
        image_use.0 == 0x8 ==> lists(
            p@,
            seq![Format::r16g16_sfloat()],
            ImageUsageFlags::storage(),
        ),
        // Normal.
        image_use.0 == 0x200 ==> lists(
            p@,
            seq![Format::r16g16b16a16_sfloat()],
            ImageUsageFlags::storage(),
        ),
        // Diffuse albedo.
        image_use.0 == 0x80 ==> lists(
            p@,
            seq![Format::r8g8b8a8_unorm(), Format::r8g8b8a8_srgb()],
            ImageUsageFlags::storage(),
        ),
        // Specular albedo.
        image_use.0 == 0x100 ==> lists(
            p@,
            seq![Format::r8g8b8a8_unorm()],
            ImageUsageFlags::storage(),
        ),
        // Roughness.
        image_use.0 == 0x400 ==> lists(
            p@,
            seq![Format::r8_unorm(), Format::r16_sfloat()],
            ImageUsageFlags::storage(),
        ),
        // Specular hit distance.
        image_use.0 == 0x800 ==> lists(
            p@,
            seq![Format::r16_sfloat(), Format::r32_sfloat()],
            ImageUsageFlags::storage(),
        ),
        // Nothing else.
        image_use.0 == 0x10
            || image_use.0 == 0x20
            || image_use.0 == 0x40
            || image_use.0 == 0x1000
            || image_use.0 == 0x2000 ==> p@.len() == 0,
{
    lemma_single_uses();
}

/// Of several uses the engine reports what it reports of each by itself, one after the
/// other; a use that is not asked about adds nothing.
pub proof fn law_dlss_formats_add_up(
    engine: SuperResolutionEngine,
    image_use: SuperResolutionImageUseFlags,
    p: Vec<SuperResolutionImageProperties>,
    single: spec_fn(u32) -> Vec<SuperResolutionImageProperties>,
)
    requires
        engine.0 == 0,
        call_ensures(dlss::engine_supported_image_properties, (engine, image_use), p),
        forall|bit: u32|
            is_single_use(bit) ==> call_ensures(
                dlss::engine_supported_image_properties,
                (engine, SuperResolutionImageUseFlags(bit)),
                #[trigger] single(bit),
            ),
    ensures
        p@ == where_asked(image_use.0, 0x1, single(0x1)@)
            + where_asked(image_use.0, 0x2, single(0x2)@)
            + where_asked(image_use.0, 0x4, single(0x4)@)
            + where_asked(image_use.0, 0x8, single(0x8)@)
            + where_asked(image_use.0, 0x200, single(0x200)@)
            + where_asked(image_use.0, 0x80, single(0x80)@)
            + where_asked(image_use.0, 0x100, single(0x100)@)
            + where_asked(image_use.0, 0x400, single(0x400)@)
            + where_asked(image_use.0, 0x800, single(0x800)@),
{
    lemma_single_uses();
}

/// What the temporal scaler takes for each use, asked about that use alone: its output is
/// written, everything else is sampled.
pub proof fn law_temporal_formats_of_each_use(
    engine: SuperResolutionEngine,
    image_use: SuperResolutionImageUseFlags,
    p: Vec<SuperResolutionImageProperties>,
)
    requires
        engine.0 == 10,
        call_ensures(metalfx::engine_supported_image_properties, (engine, image_use), p),
    ensures
        // Source.
        image_use.0 == 0x1 ==> lists(
            p@,
            four_colors(),
            ImageUsageFlags::sampled(),
        ),
        // Destination.
        image_use.0 == 0x2 ==> lists(
            p@,
            four_colors(),
            ImageUsageFlags::storage(),
        ),
        // Depth.
        image_use.0 == 0x4 ==> lists(
            p@,
            seq![Format::r32_sfloat(), Format::d32_sfloat()],
            ImageUsageFlags::sampled(),
        ),
        // Motion vectors.
        image_use.0 == 0x8 ==> lists(
            p@,
            seq![Format::r16g16_sfloat()],
            ImageUsageFlags::sampled(),
        ),
        // Reactive mask.
        image_use.0 == 0x10 ==> lists(
            p@,
            seq![Format::r8_unorm()],
            ImageUsageFlags::sampled(),
        ),
        // Exposure scale.
        image_use.0 == 0x40 ==> lists(
            p@,
            seq![Format::r16_sfloat()],
            ImageUsageFlags::sampled(),
        ),
        // Nothing else.
        image_use.0 == 0x20
            || image_use.0 == 0x80
            || image_use.0 == 0x100
            || image_use.0 == 0x200
            || image_use.0 == 0x400
            || image_use.0 == 0x800
            || image_use.0 == 0x1000
            || image_use.0 == 0x2000 ==> p@.len() == 0,
{
    lemma_single_uses();
}

/// Of several uses the engine reports what it reports of each by itself, one after the
/// other; a use that is not asked about adds nothing.
pub proof fn law_temporal_formats_add_up(
    engine: SuperResolutionEngine,
    image_use: SuperResolutionImageUseFlags,
    p: Vec<SuperResolutionImageProperties>,
    single: spec_fn(u32) -> Vec<SuperResolutionImageProperties>,
)
    requires
        engine.0 == 10,
        call_ensures(metalfx::engine_supported_image_properties, (engine, image_use), p),
        forall|bit: u32|
            is_single_use(bit) ==> call_ensures(
                metalfx::engine_supported_image_properties,
                (engine, SuperResolutionImageUseFlags(bit)),
                #[trigger] single(bit),
            ),
    ensures
        p@ == where_asked(image_use.0, 0x1, single(0x1)@)
            + where_asked(image_use.0, 0x2, single(0x2)@)
            + where_asked(image_use.0, 0x4, single(0x4)@)
            + where_asked(image_use.0, 0x8, single(0x8)@)
            + where_asked(image_use.0, 0x10, single(0x10)@)
            + where_asked(image_use.0, 0x40, single(0x40)@),
{
    lemma_single_uses();
}

/// What the spatial scaler takes for each use, asked about that use alone.
pub proof fn law_spatial_formats_of_each_use(
    engine: SuperResolutionEngine,
    image_use: SuperResolutionImageUseFlags,
    p: Vec<SuperResolutionImageProperties>,
)
    requires
        engine.0 == 11,
        call_ensures(metalfx::engine_supported_image_properties, (engine, image_use), p),
    ensures
        // Source.
        image_use.0 == 0x1 ==> lists(
            p@,
            four_colors(),
            ImageUsageFlags::sampled(),
        ),
        // Destination.
        image_use.0 == 0x2 ==> lists(
            p@,
            four_colors(),
            ImageUsageFlags::storage(),
        ),
        // Nothing else.
        image_use.0 == 0x4
            || image_use.0 == 0x8
            || image_use.0 == 0x10
            || image_use.0 == 0x20
            || image_use.0 == 0x40
            || image_use.0 == 0x80
            || image_use.0 == 0x100
            || image_use.0 == 0x200
            || image_use.0 == 0x400
            || image_use.0 == 0x800
            || image_use.0 == 0x1000
            || image_use.0 == 0x2000 ==> p@.len() == 0,
{
    lemma_single_uses();
}

/// Of several uses the engine reports what it reports of each by itself, one after the
/// other; a use that is not asked about adds nothing.
pub proof fn law_spatial_formats_add_up(
    engine: SuperResolutionEngine,
    image_use: SuperResolutionImageUseFlags,
    p: Vec<SuperResolutionImageProperties>,
    single: spec_fn(u32) -> Vec<SuperResolutionImageProperties>,
)
    requires
        engine.0 == 11,
        call_ensures(metalfx::engine_supported_image_properties, (engine, image_use), p),
        forall|bit: u32|
            is_single_use(bit) ==> call_ensures(
                metalfx::engine_supported_image_properties,
                (engine, SuperResolutionImageUseFlags(bit)),
                #[trigger] single(bit),
            ),
    ensures
        p@ == where_asked(image_use.0, 0x1, single(0x1)@)
            + where_asked(image_use.0, 0x2, single(0x2)@),
{
    lemma_single_uses();
}

/// What the denoised scaler takes for each use, asked about that use alone: its output is
/// written, everything else is sampled.
pub proof fn law_denoised_formats_of_each_use(
    engine: SuperResolutionEngine,
    image_use: SuperResolutionImageUseFlags,
    p: Vec<SuperResolutionImageProperties>,
)
    requires
        engine.0 == 12,
        call_ensures(metalfx::engine_supported_image_properties, (engine, image_use), p),
    ensures
        // Source.
        image_use.0 == 0x1 ==> lists(
            p@,
            four_colors(),
            ImageUsageFlags::sampled(),
        ),
        // Destination.
        image_use.0 == 0x2 ==> lists(
            p@,
            four_colors(),
            ImageUsageFlags::storage(),
        ),
        // Depth.
        image_use.0 == 0x4 ==> lists(
            p@,
            seq![Format::r32_sfloat(), Format::d32_sfloat()],
            ImageUsageFlags::sampled(),
        ),
        // Motion vectors.
        image_use.0 == 0x8 ==> lists(
            p@,
            seq![Format::r16g16_sfloat()],
            ImageUsageFlags::sampled(),
        ),
        // Reactive mask.
        image_use.0 == 0x10 ==> lists(
            p@,
            seq![Format::r8_unorm()],
            ImageUsageFlags::sampled(),
        ),
        // Exposure scale.
        image_use.0 == 0x40 ==> lists(
            p@,
            seq![Format::r16_sfloat()],
            ImageUsageFlags::sampled(),
        ),
        // Diffuse albedo.
        image_use.0 == 0x80 ==> lists(
            p@,
            four_colors(),
            ImageUsageFlags::sampled(),
        ),
        // Specular albedo.
        image_use.0 == 0x100 ==> lists(
            p@,
            four_colors(),
            ImageUsageFlags::sampled(),
        ),
        // Normal.
        image_use.0 == 0x200 ==> lists(
            p@,
            seq![Format::r16g16b16a16_sfloat(), Format::a2b10g10r10_unorm_pack32()],
            ImageUsageFlags::sampled(),
        ),
        // Roughness.
        image_use.0 == 0x400 ==> lists(
            p@,
            seq![Format::r8_unorm(), Format::r16_sfloat()],
            ImageUsageFlags::sampled(),
        ),
        // Specular hit distance.
        image_use.0 == 0x800 ==> lists(
            p@,
            seq![Format::r16_sfloat(), Format::r32_sfloat()],
            ImageUsageFlags::sampled(),
        ),
        // Denoise strength mask.
        image_use.0 == 0x1000 ==> lists(
            p@,
            seq![Format::r8_unorm()],
            ImageUsageFlags::sampled(),
        ),
        // Transparency overlay.
        image_use.0 == 0x2000 ==> lists(
            p@,
            seq![Format::r16g16b16a16_sfloat()],
            ImageUsageFlags::sampled(),
        ),
        // Nothing else.
        image_use.0 == 0x20 ==> p@.len() == 0,
{
    lemma_single_uses();
}

/// Of several uses the engine reports what it reports of each by itself, one after the
/// other; a use that is not asked about adds nothing.
#[verifier::spinoff_prover]
#[verifier::rlimit(80)]
pub proof fn law_denoised_formats_add_up(
    engine: SuperResolutionEngine,
    image_use: SuperResolutionImageUseFlags,
    p: Vec<SuperResolutionImageProperties>,
    single: spec_fn(u32) -> Vec<SuperResolutionImageProperties>,
)
    requires
        engine.0 == 12,
        call_ensures(metalfx::engine_supported_image_properties, (engine, image_use), p),
        forall|bit: u32|
            is_single_use(bit) ==> call_ensures(
                metalfx::engine_supported_image_properties,
                (engine, SuperResolutionImageUseFlags(bit)),
                #[trigger] single(bit),
            ),
    ensures
        p@ == where_asked(image_use.0, 0x1, single(0x1)@)
            + where_asked(image_use.0, 0x2, single(0x2)@)
            + where_asked(image_use.0, 0x4, single(0x4)@)
            + where_asked(image_use.0, 0x8, single(0x8)@)
            + where_asked(image_use.0, 0x10, single(0x10)@)
            + where_asked(image_use.0, 0x40, single(0x40)@)
            + where_asked(image_use.0, 0x80, single(0x80)@)
            + where_asked(image_use.0, 0x100, single(0x100)@)
            + where_asked(image_use.0, 0x200, single(0x200)@)
            + where_asked(image_use.0, 0x400, single(0x400)@)
            + where_asked(image_use.0, 0x800, single(0x800)@)
            + where_asked(image_use.0, 0x1000, single(0x1000)@)
            + where_asked(image_use.0, 0x2000, single(0x2000)@),
{
    lemma_single_uses();
    assert(single(0x1)@ =~= where_asked(0x1, 0x1, single(0x1)@));
    assert(single(0x2)@ =~= where_asked(0x2, 0x2, single(0x2)@));
    assert(single(0x4)@ =~= where_asked(0x4, 0x4, single(0x4)@));
    assert(single(0x8)@ =~= where_asked(0x8, 0x8, single(0x8)@));
    assert(single(0x10)@ =~= where_asked(0x10, 0x10, single(0x10)@));
    assert(single(0x40)@ =~= where_asked(0x40, 0x40, single(0x40)@));
    assert(single(0x80)@ =~= where_asked(0x80, 0x80, single(0x80)@));
    assert(single(0x100)@ =~= where_asked(0x100, 0x100, single(0x100)@));
    assert(single(0x200)@ =~= where_asked(0x200, 0x200, single(0x200)@));
    assert(single(0x400)@ =~= where_asked(0x400, 0x400, single(0x400)@));
    assert(single(0x800)@ =~= where_asked(0x800, 0x800, single(0x800)@));
    assert(single(0x1000)@ =~= where_asked(0x1000, 0x1000, single(0x1000)@));
    assert(single(0x2000)@ =~= where_asked(0x2000, 0x2000, single(0x2000)@));
}

/// What a blit takes for each use, asked about that use alone.
pub proof fn law_blit_formats_of_each_use(
    image_use: SuperResolutionImageUseFlags,
    p: Vec<SuperResolutionImageProperties>,
)
    requires
        call_ensures(blit::engine_supported_image_properties, (image_use,), p),
    ensures
        // Source.
        image_use.0 == 0x1 ==> lists(
            p@,
            four_colors(),
            ImageUsageFlags::transfer_src(),
        ),
        // Destination.
        image_use.0 == 0x2 ==> lists(
            p@,
            four_colors(),
            ImageUsageFlags::transfer_dst(),
        ),
        // Nothing else.
        image_use.0 == 0x4
            || image_use.0 == 0x8
            || image_use.0 == 0x10
            || image_use.0 == 0x20
            || image_use.0 == 0x40
            || image_use.0 == 0x80
            || image_use.0 == 0x100
            || image_use.0 == 0x200
            || image_use.0 == 0x400
            || image_use.0 == 0x800
            || image_use.0 == 0x1000
            || image_use.0 == 0x2000 ==> p@.len() == 0,
{
    lemma_single_uses();
}

/// Of several uses the engine reports what it reports of each by itself, one after the
/// other; a use that is not asked about adds nothing.
pub proof fn law_blit_formats_add_up(
    image_use: SuperResolutionImageUseFlags,
    p: Vec<SuperResolutionImageProperties>,
    single: spec_fn(u32) -> Vec<SuperResolutionImageProperties>,
)
    requires
        call_ensures(blit::engine_supported_image_properties, (image_use,), p),
        forall|bit: u32|
            is_single_use(bit) ==> call_ensures(
                blit::engine_supported_image_properties,
                (SuperResolutionImageUseFlags(bit),),
                #[trigger] single(bit),
            ),
    ensures
        p@ == where_asked(image_use.0, 0x1, single(0x1)@)
            + where_asked(image_use.0, 0x2, single(0x2)@),
{
    lemma_single_uses();
}

/// Whether the bits are those of one use alone.
pub open spec fn is_single_use(x: u32) -> bool {
    x == 0x1 || x == 0x2 || x == 0x4 || x == 0x8 || x == 0x10 || x == 0x20 || x == 0x40 || x
        == 0x80 || x == 0x100 || x == 0x200 || x == 0x400 || x == 0x800 || x == 0x1000
        || x == 0x2000
}

/// A single use is no other.
proof fn lemma_single_uses()
    ensures
        forall|x: u32, b: u32|
            is_single_use(x) && is_single_use(b) ==> (#[trigger] (x & b) == b <==> x == b),
{
    assert forall|x: u32, b: u32| is_single_use(x) && is_single_use(b) implies (#[trigger] (x & b)
        == b <==> x == b) by {
        assert(is_single_use(x) && is_single_use(b) ==> (x & b == b <==> x == b)) by (bit_vector);
    }
}

} // verus!
