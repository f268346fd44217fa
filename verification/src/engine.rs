//! What the backends share in describing their engines: names, scaling factor
//! slots, and the formats that an engine accepts for each image use.
use vstd::prelude::*;
use vstd::string::StringSliceAdditionalSpecFns;

use crate::flags::SuperResolutionImageUseFlags;
use crate::types::{
    ScalingFactor, SuperResolutionImageProperties, MAX_SUPER_RESOLUTION_NAME_SIZE,
    MAX_SUPER_RESOLUTION_SCALING_FACTOR_COUNT,
};
use crate::vk::{Format, ImageUsageFlags};

verus! {

/// An engine name's bytes: those of the name itself, then NUL bytes.
pub open spec fn padded_name(name: Seq<u8>) -> Seq<u8> {
    Seq::new(
        MAX_SUPER_RESOLUTION_NAME_SIZE as nat,
        |i: int|
            if i < name.len() {
                name[i]
            } else {
                0u8
            },
    )
}

/// The bytes of a text of ASCII characters.
pub open spec fn ascii_bytes(text: Seq<char>) -> Seq<u8> {
    Seq::new(text.len(), |i: int| text[i] as u8)
}

/// Builds a fixed-size, NUL-padded engine name array from a byte string, which
/// must leave room for a NUL terminator.
pub fn engine_name(name: &[u8]) -> (out: [u8; MAX_SUPER_RESOLUTION_NAME_SIZE])
    requires
        name@.len() < MAX_SUPER_RESOLUTION_NAME_SIZE,
    ensures
        out@ == padded_name(name@),
{
    let mut out = [0u8; 32];
    let mut i: usize = 0;
    while i < name.len()
        invariant
            i <= name@.len() < 32,
            forall|j: int|
                0 <= j < 32 ==> out@[j] == (if j < i {
                    name@[j]
                } else {
                    0u8
                }),
        decreases name@.len() - i,
    {
        out[i] = name[i];
        i = i + 1;
    }
    out
}

/// [`engine_name`] of a text of ASCII characters.
pub fn ascii_engine_name(name: &str) -> (out: [u8; MAX_SUPER_RESOLUTION_NAME_SIZE])
    requires
        name.is_ascii(),
        name@.len() < MAX_SUPER_RESOLUTION_NAME_SIZE,
    ensures
        out@ == padded_name(ascii_bytes(name@)),
{
    proof {
        vstd::string::is_ascii_spec_bytes(name);
        assert(name.spec_bytes() =~= ascii_bytes(name@));
    }
    engine_name(name.as_bytes())
}

/// The name reads back: a name without NUL bytes is what stands before the first
/// NUL byte of its padded form, and there always is one.
pub proof fn law_engine_name_reads_back(name: Seq<u8>)
    requires
        name.len() < MAX_SUPER_RESOLUTION_NAME_SIZE,
        forall|i: int| 0 <= i < name.len() ==> name[i] != 0,
    ensures
        padded_name(name)[name.len() as int] == 0,
        forall|i: int| 0 <= i < name.len() ==> padded_name(name)[i] != 0,
        padded_name(name).take(name.len() as int) == name,
{
    assert(padded_name(name).take(name.len() as int) =~= name);
}

/// The scaling factor that fills unused slots.
pub open spec fn unused_scaling_factor() -> ScalingFactor {
    ScalingFactor { numerator: 0, denominator: 1 }
}

/// The scaling factor slots: the given factors, then unused slots.
pub open spec fn scaling_factor_slots(factors: Seq<ScalingFactor>) -> Seq<ScalingFactor> {
    Seq::new(
        MAX_SUPER_RESOLUTION_SCALING_FACTOR_COUNT as nat,
        |i: int|
            if i < factors.len() {
                factors[i]
            } else {
                unused_scaling_factor()
            },
    )
}

/// Sixteen unused slots.
pub fn unused_scaling_factors() -> (out:
    [ScalingFactor; MAX_SUPER_RESOLUTION_SCALING_FACTOR_COUNT])
    ensures
        forall|j: int| 0 <= j < 16 ==> #[trigger] out@[j] == unused_scaling_factor(),
{
    let f = ScalingFactor { numerator: 0, denominator: 1 };
    [f, f, f, f, f, f, f, f, f, f, f, f, f, f, f, f]
}

/// Puts the given factors into the first slots and leaves the others unused.
pub fn fill_scaling_factors(factors: &[ScalingFactor]) -> (out:
    [ScalingFactor; MAX_SUPER_RESOLUTION_SCALING_FACTOR_COUNT])
    requires
        factors@.len() <= MAX_SUPER_RESOLUTION_SCALING_FACTOR_COUNT,
    ensures
        out@ == scaling_factor_slots(factors@),
{
    let mut out = unused_scaling_factors();
    let mut i: usize = 0;
    while i < factors.len()
        invariant
            i <= factors@.len() <= 16,
            forall|j: int|
                0 <= j < 16 ==> out@[j] == (if j < i {
                    factors@[j]
                } else {
                    unused_scaling_factor()
                }),
        decreases factors@.len() - i,
    {
        out[i] = factors[i];
        i = i + 1;
    }
    out
}

/// Whether a color format carries values beyond the `[0, 1]` range (HDR).
#[verifier::allow_in_spec]
pub fn is_hdr_format(format: Format) -> bool
    returns
        format == Format::r16g16b16a16_sfloat() || format == Format::r32g32b32a32_sfloat(),
{
    format == Format::r16g16b16a16_sfloat() || format == Format::r32g32b32a32_sfloat()
}

/// What an engine reports for one image use: its formats with their usage, in
/// order, if the use is among those asked about.
pub open spec fn reported(
    image_use: SuperResolutionImageUseFlags,
    flag: SuperResolutionImageUseFlags,
    formats: Seq<Format>,
    usage: ImageUsageFlags,
) -> Seq<SuperResolutionImageProperties> {
    if image_use.contains(flag) {
        formats.map_values(
            |format: Format| SuperResolutionImageProperties { format, image_usage_flags: usage },
        )
    } else {
        Seq::empty()
    }
}

/// Appends what an engine reports for one image use.
pub fn report(
    properties: &mut Vec<SuperResolutionImageProperties>,
    image_use: SuperResolutionImageUseFlags,
    flag: SuperResolutionImageUseFlags,
    formats: &[Format],
    usage: ImageUsageFlags,
)
    ensures
        final(properties)@ == old(properties)@ + reported(image_use, flag, formats@, usage),
{
    if image_use.contains(flag) {
        let ghost before = properties@;
        let ghost added = reported(image_use, flag, formats@, usage);
        let mut i: usize = 0;
        while i < formats.len()
            invariant
                i <= formats@.len(),
                added.len() == formats@.len(),
                forall|j: int|
                    0 <= j < formats@.len() ==> #[trigger] added[j] == (
                    SuperResolutionImageProperties {
                        format: formats@[j],
                        image_usage_flags: usage,
                    }),
                properties@ == before + added.take(i as int),
            decreases formats@.len() - i,
        {
            properties.push(
                SuperResolutionImageProperties { format: formats[i], image_usage_flags: usage },
            );
            assert(added.take(i + 1) =~= added.take(i as int).push(added[i as int]));
            i = i + 1;
        }
        assert(added.take(formats@.len() as int) =~= added);
    }
}

/// An engine reports something for a use exactly where the use is asked about and
/// has a format; each entry is one of the use's formats, with its usage.
pub proof fn law_reports_only_what_is_asked(
    image_use: SuperResolutionImageUseFlags,
    flag: SuperResolutionImageUseFlags,
    formats: Seq<Format>,
    usage: ImageUsageFlags,
)
    ensures
        reported(image_use, flag, formats, usage).len() == (if image_use.contains(flag) {
            formats.len()
        } else {
            0
        }),
        forall|i: int|
            0 <= i < reported(image_use, flag, formats, usage).len() ==> (#[trigger] reported(
                image_use,
                flag,
                formats,
                usage,
            )[i]) == (SuperResolutionImageProperties {
                format: formats[i],
                image_usage_flags: usage,
            }),
{
}

} // verus!
