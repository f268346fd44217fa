//! The flag types of the super resolution interface, one bit per flag.
//!
//! Each type is a set of flags held in 32 bits: `|`, `&`, `^` and `!` are union,
//! intersection, symmetric difference and complement, and `contains` is the
//! subset relation. [`crate::bits`] proves that reading.
use vstd::prelude::*;

verus! {

/// What a super resolution engine is able to do. One bit per flag.
#[derive(Clone, Copy, Debug, PartialEq, Eq, PartialOrd, Ord, Hash, Structural)]
pub struct SuperResolutionEnginePropertyFlags(pub u32);

impl SuperResolutionEnginePropertyFlags {
    /// The implementation accumulates samples across multiple frames.
    #[verifier::allow_in_spec]
    pub fn is_temporal() -> Self
        returns
            SuperResolutionEnginePropertyFlags(0x0000_0001),
    {
        SuperResolutionEnginePropertyFlags(0x0000_0001)
    }

    /// A pipeline cache may be passed at session creation to improve its
    /// performance.
    #[verifier::allow_in_spec]
    pub fn supports_pipeline_cache() -> Self
        returns
            SuperResolutionEnginePropertyFlags(0x0000_0002),
    {
        SuperResolutionEnginePropertyFlags(0x0000_0002)
    }

    /// The engine can use any scaling factor up to the maximum supported one,
    /// with source and destination region sizes set independently.
    #[verifier::allow_in_spec]
    pub fn supports_continuous_scaling() -> Self
        returns
            SuperResolutionEnginePropertyFlags(0x0000_0004),
    {
        SuperResolutionEnginePropertyFlags(0x0000_0004)
    }

    /// The dispatch `source_size` may differ from the session's
    /// `max_source_region_size`.
    #[verifier::allow_in_spec]
    pub fn supports_dynamic_source_size() -> Self
        returns
            SuperResolutionEnginePropertyFlags(0x0000_0008),
    {
        SuperResolutionEnginePropertyFlags(0x0000_0008)
    }

    /// The engine uses the `sharpness` value provided at dispatch.
    #[verifier::allow_in_spec]
    pub fn uses_sharpness() -> Self
        returns
            SuperResolutionEnginePropertyFlags(0x0000_0010),
    {
        SuperResolutionEnginePropertyFlags(0x0000_0010)
    }

    /// No flag at all.
    #[verifier::allow_in_spec]
    pub fn empty() -> Self
        returns
            SuperResolutionEnginePropertyFlags(0),
    {
        SuperResolutionEnginePropertyFlags(0)
    }

    /// The flags with the given bits.
    #[verifier::allow_in_spec]
    pub fn from_raw(x: u32) -> Self
        returns
            SuperResolutionEnginePropertyFlags(x),
    {
        SuperResolutionEnginePropertyFlags(x)
    }

    /// The bits of these flags.
    #[verifier::allow_in_spec]
    pub fn as_raw(self) -> u32
        returns
            self.0,
    {
        self.0
    }

    /// Returns whether no flag is set.
    #[verifier::allow_in_spec]
    pub fn is_empty(self) -> bool
        returns
            self.0 == 0,
    {
        self.0 == 0
    }

    /// Returns whether some flag is set in both.
    #[verifier::allow_in_spec]
    pub fn intersects(self, other: Self) -> bool
        returns
            self.0 & other.0 != 0,
    {
        self.0 & other.0 != 0
    }

    /// Returns whether `other` is a subset of `self`.
    #[verifier::allow_in_spec]
    pub fn contains(self, other: Self) -> bool
        returns
            self.0 & other.0 == other.0,
    {
        self.0 & other.0 == other.0
    }
}

impl Default for SuperResolutionEnginePropertyFlags {
    /// No flag at all.
    fn default() -> (r: Self)
        ensures
            r == SuperResolutionEnginePropertyFlags(0),
    {
        SuperResolutionEnginePropertyFlags(0)
    }
}

impl core::ops::BitOr for SuperResolutionEnginePropertyFlags {
    type Output = Self;

    fn bitor(self, rhs: Self) -> (r: Self) {
        SuperResolutionEnginePropertyFlags(self.0 | rhs.0)
    }
}

impl vstd::std_specs::ops::BitOrSpecImpl for SuperResolutionEnginePropertyFlags {
    open spec fn obeys_bitor_spec() -> bool {
        true
    }

    open spec fn bitor_req(self, rhs: Self) -> bool {
        true
    }

    open spec fn bitor_spec(self, rhs: Self) -> Self {
        SuperResolutionEnginePropertyFlags(self.0 | rhs.0)
    }
}

impl core::ops::BitOrAssign for SuperResolutionEnginePropertyFlags {
    fn bitor_assign(&mut self, rhs: Self)
        ensures
            final(self).0 == old(self).0 | rhs.0,
    {
        *self = SuperResolutionEnginePropertyFlags(self.0 | rhs.0);
    }
}

impl core::ops::BitAnd for SuperResolutionEnginePropertyFlags {
    type Output = Self;

    fn bitand(self, rhs: Self) -> (r: Self) {
        SuperResolutionEnginePropertyFlags(self.0 & rhs.0)
    }
}

impl vstd::std_specs::ops::BitAndSpecImpl for SuperResolutionEnginePropertyFlags {
    open spec fn obeys_bitand_spec() -> bool {
        true
    }

    open spec fn bitand_req(self, rhs: Self) -> bool {
        true
    }

    open spec fn bitand_spec(self, rhs: Self) -> Self {
        SuperResolutionEnginePropertyFlags(self.0 & rhs.0)
    }
}

impl core::ops::BitAndAssign for SuperResolutionEnginePropertyFlags {
    fn bitand_assign(&mut self, rhs: Self)
        ensures
            final(self).0 == old(self).0 & rhs.0,
    {
        *self = SuperResolutionEnginePropertyFlags(self.0 & rhs.0);
    }
}

impl core::ops::BitXor for SuperResolutionEnginePropertyFlags {
    type Output = Self;

    fn bitxor(self, rhs: Self) -> (r: Self) {
        SuperResolutionEnginePropertyFlags(self.0 ^ rhs.0)
    }
}

impl vstd::std_specs::ops::BitXorSpecImpl for SuperResolutionEnginePropertyFlags {
    open spec fn obeys_bitxor_spec() -> bool {
        true
    }

    open spec fn bitxor_req(self, rhs: Self) -> bool {
        true
    }

    open spec fn bitxor_spec(self, rhs: Self) -> Self {
        SuperResolutionEnginePropertyFlags(self.0 ^ rhs.0)
    }
}

impl core::ops::BitXorAssign for SuperResolutionEnginePropertyFlags {
    fn bitxor_assign(&mut self, rhs: Self)
        ensures
            final(self).0 == old(self).0 ^ rhs.0,
    {
        *self = SuperResolutionEnginePropertyFlags(self.0 ^ rhs.0);
    }
}

impl core::ops::Not for SuperResolutionEnginePropertyFlags {
    type Output = Self;

    fn not(self) -> (r: Self) {
        SuperResolutionEnginePropertyFlags(!self.0)
    }
}

impl vstd::std_specs::ops::NotSpecImpl for SuperResolutionEnginePropertyFlags {
    open spec fn obeys_not_spec() -> bool {
        true
    }

    open spec fn not_req(self) -> bool {
        true
    }

    open spec fn not_spec(self) -> Self {
        SuperResolutionEnginePropertyFlags(!self.0)
    }
}

/// The parts that images play in a dispatch. One bit per flag.
#[derive(Clone, Copy, Debug, PartialEq, Eq, PartialOrd, Ord, Hash, Structural)]
pub struct SuperResolutionImageUseFlags(pub u32);

impl SuperResolutionImageUseFlags {
    /// Used as a source color image during a dispatch.
    #[verifier::allow_in_spec]
    pub fn source() -> Self
        returns
            SuperResolutionImageUseFlags(0x0000_0001),
    {
        SuperResolutionImageUseFlags(0x0000_0001)
    }

    /// Used as a destination color image during a dispatch.
    #[verifier::allow_in_spec]
    pub fn destination() -> Self
        returns
            SuperResolutionImageUseFlags(0x0000_0002),
    {
        SuperResolutionImageUseFlags(0x0000_0002)
    }

    /// Used as a depth image during a dispatch.
    #[verifier::allow_in_spec]
    pub fn depth() -> Self
        returns
            SuperResolutionImageUseFlags(0x0000_0004),
    {
        SuperResolutionImageUseFlags(0x0000_0004)
    }

    /// Used as a motion vector image during a dispatch.
    #[verifier::allow_in_spec]
    pub fn motion_vectors() -> Self
        returns
            SuperResolutionImageUseFlags(0x0000_0008),
    {
        SuperResolutionImageUseFlags(0x0000_0008)
    }

    /// Used as a reactive mask image during a dispatch.
    #[verifier::allow_in_spec]
    pub fn reactive_mask() -> Self
        returns
            SuperResolutionImageUseFlags(0x0000_0010),
    {
        SuperResolutionImageUseFlags(0x0000_0010)
    }

    /// Used as an ignore history mask image during a dispatch.
    #[verifier::allow_in_spec]
    pub fn ignore_history_mask() -> Self
        returns
            SuperResolutionImageUseFlags(0x0000_0020),
    {
        SuperResolutionImageUseFlags(0x0000_0020)
    }

    /// Used as an exposure scale image during a dispatch.
    #[verifier::allow_in_spec]
    pub fn exposure_scale() -> Self
        returns
            SuperResolutionImageUseFlags(0x0000_0040),
    {
        SuperResolutionImageUseFlags(0x0000_0040)
    }

    /// Used as a diffuse albedo G-buffer image by a denoising engine.
    #[verifier::allow_in_spec]
    pub fn diffuse_albedo() -> Self
        returns
            SuperResolutionImageUseFlags(0x0000_0080),
    {
        SuperResolutionImageUseFlags(0x0000_0080)
    }

    /// Used as a specular albedo G-buffer image by a denoising engine.
    #[verifier::allow_in_spec]
    pub fn specular_albedo() -> Self
        returns
            SuperResolutionImageUseFlags(0x0000_0100),
    {
        SuperResolutionImageUseFlags(0x0000_0100)
    }

    /// Used as a world-space normal G-buffer image by a denoising engine.
    #[verifier::allow_in_spec]
    pub fn normal() -> Self
        returns
            SuperResolutionImageUseFlags(0x0000_0200),
    {
        SuperResolutionImageUseFlags(0x0000_0200)
    }

    /// Used as a roughness G-buffer image by a denoising engine.
    #[verifier::allow_in_spec]
    pub fn roughness() -> Self
        returns
            SuperResolutionImageUseFlags(0x0000_0400),
    {
        SuperResolutionImageUseFlags(0x0000_0400)
    }

    /// Used as a specular hit-distance image by a denoising engine.
    #[verifier::allow_in_spec]
    pub fn specular_hit_distance() -> Self
        returns
            SuperResolutionImageUseFlags(0x0000_0800),
    {
        SuperResolutionImageUseFlags(0x0000_0800)
    }

    /// Used as a denoise strength mask image by a denoising engine.
    #[verifier::allow_in_spec]
    pub fn denoise_strength_mask() -> Self
        returns
            SuperResolutionImageUseFlags(0x0000_1000),
    {
        SuperResolutionImageUseFlags(0x0000_1000)
    }

    /// Used as a transparency overlay image by a denoising engine.
    #[verifier::allow_in_spec]
    pub fn transparency_overlay() -> Self
        returns
            SuperResolutionImageUseFlags(0x0000_2000),
    {
        SuperResolutionImageUseFlags(0x0000_2000)
    }

    /// No flag at all.
    #[verifier::allow_in_spec]
    pub fn empty() -> Self
        returns
            SuperResolutionImageUseFlags(0),
    {
        SuperResolutionImageUseFlags(0)
    }

    /// The flags with the given bits.
    #[verifier::allow_in_spec]
    pub fn from_raw(x: u32) -> Self
        returns
            SuperResolutionImageUseFlags(x),
    {
        SuperResolutionImageUseFlags(x)
    }

    /// The bits of these flags.
    #[verifier::allow_in_spec]
    pub fn as_raw(self) -> u32
        returns
            self.0,
    {
        self.0
    }

    /// Returns whether no flag is set.
    #[verifier::allow_in_spec]
    pub fn is_empty(self) -> bool
        returns
            self.0 == 0,
    {
        self.0 == 0
    }

    /// Returns whether some flag is set in both.
    #[verifier::allow_in_spec]
    pub fn intersects(self, other: Self) -> bool
        returns
            self.0 & other.0 != 0,
    {
        self.0 & other.0 != 0
    }

    /// Returns whether `other` is a subset of `self`.
    #[verifier::allow_in_spec]
    pub fn contains(self, other: Self) -> bool
        returns
            self.0 & other.0 == other.0,
    {
        self.0 & other.0 == other.0
    }
}

impl Default for SuperResolutionImageUseFlags {
    /// No flag at all.
    fn default() -> (r: Self)
        ensures
            r == SuperResolutionImageUseFlags(0),
    {
        SuperResolutionImageUseFlags(0)
    }
}

impl core::ops::BitOr for SuperResolutionImageUseFlags {
    type Output = Self;

    fn bitor(self, rhs: Self) -> (r: Self) {
        SuperResolutionImageUseFlags(self.0 | rhs.0)
    }
}

impl vstd::std_specs::ops::BitOrSpecImpl for SuperResolutionImageUseFlags {
    open spec fn obeys_bitor_spec() -> bool {
        true
    }

    open spec fn bitor_req(self, rhs: Self) -> bool {
        true
    }

    open spec fn bitor_spec(self, rhs: Self) -> Self {
        SuperResolutionImageUseFlags(self.0 | rhs.0)
    }
}

impl core::ops::BitOrAssign for SuperResolutionImageUseFlags {
    fn bitor_assign(&mut self, rhs: Self)
        ensures
            final(self).0 == old(self).0 | rhs.0,
    {
        *self = SuperResolutionImageUseFlags(self.0 | rhs.0);
    }
}

impl core::ops::BitAnd for SuperResolutionImageUseFlags {
    type Output = Self;

    fn bitand(self, rhs: Self) -> (r: Self) {
        SuperResolutionImageUseFlags(self.0 & rhs.0)
    }
}

impl vstd::std_specs::ops::BitAndSpecImpl for SuperResolutionImageUseFlags {
    open spec fn obeys_bitand_spec() -> bool {
        true
    }

    open spec fn bitand_req(self, rhs: Self) -> bool {
        true
    }

    open spec fn bitand_spec(self, rhs: Self) -> Self {
        SuperResolutionImageUseFlags(self.0 & rhs.0)
    }
}

impl core::ops::BitAndAssign for SuperResolutionImageUseFlags {
    fn bitand_assign(&mut self, rhs: Self)
        ensures
            final(self).0 == old(self).0 & rhs.0,
    {
        *self = SuperResolutionImageUseFlags(self.0 & rhs.0);
    }
}

impl core::ops::BitXor for SuperResolutionImageUseFlags {
    type Output = Self;

    fn bitxor(self, rhs: Self) -> (r: Self) {
        SuperResolutionImageUseFlags(self.0 ^ rhs.0)
    }
}

impl vstd::std_specs::ops::BitXorSpecImpl for SuperResolutionImageUseFlags {
    open spec fn obeys_bitxor_spec() -> bool {
        true
    }

    open spec fn bitxor_req(self, rhs: Self) -> bool {
        true
    }

    open spec fn bitxor_spec(self, rhs: Self) -> Self {
        SuperResolutionImageUseFlags(self.0 ^ rhs.0)
    }
}

impl core::ops::BitXorAssign for SuperResolutionImageUseFlags {
    fn bitxor_assign(&mut self, rhs: Self)
        ensures
            final(self).0 == old(self).0 ^ rhs.0,
    {
        *self = SuperResolutionImageUseFlags(self.0 ^ rhs.0);
    }
}

impl core::ops::Not for SuperResolutionImageUseFlags {
    type Output = Self;

    fn not(self) -> (r: Self) {
        SuperResolutionImageUseFlags(!self.0)
    }
}

impl vstd::std_specs::ops::NotSpecImpl for SuperResolutionImageUseFlags {
    open spec fn obeys_not_spec() -> bool {
        true
    }

    open spec fn not_req(self) -> bool {
        true
    }

    open spec fn not_spec(self) -> Self {
        SuperResolutionImageUseFlags(!self.0)
    }
}

/// What a dispatch may favor. One bit per flag.
#[derive(Clone, Copy, Debug, PartialEq, Eq, PartialOrd, Ord, Hash, Structural)]
pub struct SuperResolutionQualityFocusFlags(pub u32);

impl SuperResolutionQualityFocusFlags {
    /// Strives for a balance of quality, performance, and power consumption.
    #[verifier::allow_in_spec]
    pub fn balanced() -> Self
        returns
            SuperResolutionQualityFocusFlags(0x0000_0001),
    {
        SuperResolutionQualityFocusFlags(0x0000_0001)
    }

    /// Focuses on destination image quality, potentially at the expense of
    /// performance and power consumption.
    #[verifier::allow_in_spec]
    pub fn quality() -> Self
        returns
            SuperResolutionQualityFocusFlags(0x0000_0002),
    {
        SuperResolutionQualityFocusFlags(0x0000_0002)
    }

    /// Focuses on speed of execution, potentially at the expense of power
    /// consumption and image quality.
    #[verifier::allow_in_spec]
    pub fn performance() -> Self
        returns
            SuperResolutionQualityFocusFlags(0x0000_0004),
    {
        SuperResolutionQualityFocusFlags(0x0000_0004)
    }

    /// Focuses on reduced power consumption, potentially at the expense of
    /// performance and image quality.
    #[verifier::allow_in_spec]
    pub fn power() -> Self
        returns
            SuperResolutionQualityFocusFlags(0x0000_0008),
    {
        SuperResolutionQualityFocusFlags(0x0000_0008)
    }

    /// No flag at all.
    #[verifier::allow_in_spec]
    pub fn empty() -> Self
        returns
            SuperResolutionQualityFocusFlags(0),
    {
        SuperResolutionQualityFocusFlags(0)
    }

    /// The flags with the given bits.
    #[verifier::allow_in_spec]
    pub fn from_raw(x: u32) -> Self
        returns
            SuperResolutionQualityFocusFlags(x),
    {
        SuperResolutionQualityFocusFlags(x)
    }

    /// The bits of these flags.
    #[verifier::allow_in_spec]
    pub fn as_raw(self) -> u32
        returns
            self.0,
    {
        self.0
    }

    /// Returns whether no flag is set.
    #[verifier::allow_in_spec]
    pub fn is_empty(self) -> bool
        returns
            self.0 == 0,
    {
        self.0 == 0
    }

    /// Returns whether some flag is set in both.
    #[verifier::allow_in_spec]
    pub fn intersects(self, other: Self) -> bool
        returns
            self.0 & other.0 != 0,
    {
        self.0 & other.0 != 0
    }

    /// Returns whether `other` is a subset of `self`.
    #[verifier::allow_in_spec]
    pub fn contains(self, other: Self) -> bool
        returns
            self.0 & other.0 == other.0,
    {
        self.0 & other.0 == other.0
    }
}

impl Default for SuperResolutionQualityFocusFlags {
    /// No flag at all.
    fn default() -> (r: Self)
        ensures
            r == SuperResolutionQualityFocusFlags(0),
    {
        SuperResolutionQualityFocusFlags(0)
    }
}

impl core::ops::BitOr for SuperResolutionQualityFocusFlags {
    type Output = Self;

    fn bitor(self, rhs: Self) -> (r: Self) {
        SuperResolutionQualityFocusFlags(self.0 | rhs.0)
    }
}

impl vstd::std_specs::ops::BitOrSpecImpl for SuperResolutionQualityFocusFlags {
    open spec fn obeys_bitor_spec() -> bool {
        true
    }

    open spec fn bitor_req(self, rhs: Self) -> bool {
        true
    }

    open spec fn bitor_spec(self, rhs: Self) -> Self {
        SuperResolutionQualityFocusFlags(self.0 | rhs.0)
    }
}

impl core::ops::BitOrAssign for SuperResolutionQualityFocusFlags {
    fn bitor_assign(&mut self, rhs: Self)
        ensures
            final(self).0 == old(self).0 | rhs.0,
    {
        *self = SuperResolutionQualityFocusFlags(self.0 | rhs.0);
    }
}

impl core::ops::BitAnd for SuperResolutionQualityFocusFlags {
    type Output = Self;

    fn bitand(self, rhs: Self) -> (r: Self) {
        SuperResolutionQualityFocusFlags(self.0 & rhs.0)
    }
}

impl vstd::std_specs::ops::BitAndSpecImpl for SuperResolutionQualityFocusFlags {
    open spec fn obeys_bitand_spec() -> bool {
        true
    }

    open spec fn bitand_req(self, rhs: Self) -> bool {
        true
    }

    open spec fn bitand_spec(self, rhs: Self) -> Self {
        SuperResolutionQualityFocusFlags(self.0 & rhs.0)
    }
}

impl core::ops::BitAndAssign for SuperResolutionQualityFocusFlags {
    fn bitand_assign(&mut self, rhs: Self)
        ensures
            final(self).0 == old(self).0 & rhs.0,
    {
        *self = SuperResolutionQualityFocusFlags(self.0 & rhs.0);
    }
}

impl core::ops::BitXor for SuperResolutionQualityFocusFlags {
    type Output = Self;

    fn bitxor(self, rhs: Self) -> (r: Self) {
        SuperResolutionQualityFocusFlags(self.0 ^ rhs.0)
    }
}

impl vstd::std_specs::ops::BitXorSpecImpl for SuperResolutionQualityFocusFlags {
    open spec fn obeys_bitxor_spec() -> bool {
        true
    }

    open spec fn bitxor_req(self, rhs: Self) -> bool {
        true
    }

    open spec fn bitxor_spec(self, rhs: Self) -> Self {
        SuperResolutionQualityFocusFlags(self.0 ^ rhs.0)
    }
}

impl core::ops::BitXorAssign for SuperResolutionQualityFocusFlags {
    fn bitxor_assign(&mut self, rhs: Self)
        ensures
            final(self).0 == old(self).0 ^ rhs.0,
    {
        *self = SuperResolutionQualityFocusFlags(self.0 ^ rhs.0);
    }
}

impl core::ops::Not for SuperResolutionQualityFocusFlags {
    type Output = Self;

    fn not(self) -> (r: Self) {
        SuperResolutionQualityFocusFlags(!self.0)
    }
}

impl vstd::std_specs::ops::NotSpecImpl for SuperResolutionQualityFocusFlags {
    open spec fn obeys_not_spec() -> bool {
        true
    }

    open spec fn not_req(self) -> bool {
        true
    }

    open spec fn not_spec(self) -> Self {
        SuperResolutionQualityFocusFlags(!self.0)
    }
}

/// Additional session parameters. One bit per flag.
#[derive(Clone, Copy, Debug, PartialEq, Eq, PartialOrd, Ord, Hash, Structural)]
pub struct SuperResolutionSessionCreateFlags(pub u32);

impl SuperResolutionSessionCreateFlags {
    /// The dispatch `source_size` may vary between subsequent dispatches.
    #[verifier::allow_in_spec]
    pub fn dynamic_source_size() -> Self
        returns
            SuperResolutionSessionCreateFlags(0x0000_0001),
    {
        SuperResolutionSessionCreateFlags(0x0000_0001)
    }

    /// The motion vectors image is the size of the destination image rather
    /// than the source image.
    #[verifier::allow_in_spec]
    pub fn motion_vectors_use_destination_dimensions() -> Self
        returns
            SuperResolutionSessionCreateFlags(0x0000_0002),
    {
        SuperResolutionSessionCreateFlags(0x0000_0002)
    }

    /// The motion vectors image is rendered with the camera jitter offset.
    #[verifier::allow_in_spec]
    pub fn motion_vectors_use_jitter() -> Self
        returns
            SuperResolutionSessionCreateFlags(0x0000_0004),
    {
        SuperResolutionSessionCreateFlags(0x0000_0004)
    }

    /// Scaling may target a subregion of the destination image, rather than
    /// requiring the destination region to match the full destination image.
    #[verifier::allow_in_spec]
    pub fn allow_subrect_destination() -> Self
        returns
            SuperResolutionSessionCreateFlags(0x0000_0008),
    {
        SuperResolutionSessionCreateFlags(0x0000_0008)
    }

    /// The supplied depth buffer contains linear depth values.
    #[verifier::allow_in_spec]
    pub fn linear_depth() -> Self
        returns
            SuperResolutionSessionCreateFlags(0x0000_0010),
    {
        SuperResolutionSessionCreateFlags(0x0000_0010)
    }

    /// Inverted depth tracking: high depth values are near the camera.
    #[verifier::allow_in_spec]
    pub fn inverted_depth() -> Self
        returns
            SuperResolutionSessionCreateFlags(0x0000_0020),
    {
        SuperResolutionSessionCreateFlags(0x0000_0020)
    }

    /// The `sharpness` value is honored; otherwise it is ignored.
    #[verifier::allow_in_spec]
    pub fn use_sharpness() -> Self
        returns
            SuperResolutionSessionCreateFlags(0x0000_0040),
    {
        SuperResolutionSessionCreateFlags(0x0000_0040)
    }

    /// Apply auto exposure, ignoring application-provided exposure values.
    #[verifier::allow_in_spec]
    pub fn use_auto_exposure() -> Self
        returns
            SuperResolutionSessionCreateFlags(0x0000_0080),
    {
        SuperResolutionSessionCreateFlags(0x0000_0080)
    }

    /// Source and output images contain only LDR color data (0.0 to 1.0).
    #[verifier::allow_in_spec]
    pub fn force_ldr_colors() -> Self
        returns
            SuperResolutionSessionCreateFlags(0x0000_0100),
    {
        SuperResolutionSessionCreateFlags(0x0000_0100)
    }

    /// The application is using descriptor sets rather than descriptor heaps.
    #[verifier::allow_in_spec]
    pub fn use_legacy_descriptors() -> Self
        returns
            SuperResolutionSessionCreateFlags(0x0000_0200),
    {
        SuperResolutionSessionCreateFlags(0x0000_0200)
    }

    /// No flag at all.
    #[verifier::allow_in_spec]
    pub fn empty() -> Self
        returns
            SuperResolutionSessionCreateFlags(0),
    {
        SuperResolutionSessionCreateFlags(0)
    }

    /// The flags with the given bits.
    #[verifier::allow_in_spec]
    pub fn from_raw(x: u32) -> Self
        returns
            SuperResolutionSessionCreateFlags(x),
    {
        SuperResolutionSessionCreateFlags(x)
    }

    /// The bits of these flags.
    #[verifier::allow_in_spec]
    pub fn as_raw(self) -> u32
        returns
            self.0,
    {
        self.0
    }

    /// Returns whether no flag is set.
    #[verifier::allow_in_spec]
    pub fn is_empty(self) -> bool
        returns
            self.0 == 0,
    {
        self.0 == 0
    }

    /// Returns whether some flag is set in both.
    #[verifier::allow_in_spec]
    pub fn intersects(self, other: Self) -> bool
        returns
            self.0 & other.0 != 0,
    {
        self.0 & other.0 != 0
    }

    /// Returns whether `other` is a subset of `self`.
    #[verifier::allow_in_spec]
    pub fn contains(self, other: Self) -> bool
        returns
            self.0 & other.0 == other.0,
    {
        self.0 & other.0 == other.0
    }
}

impl Default for SuperResolutionSessionCreateFlags {
    /// No flag at all.
    fn default() -> (r: Self)
        ensures
            r == SuperResolutionSessionCreateFlags(0),
    {
        SuperResolutionSessionCreateFlags(0)
    }
}

impl core::ops::BitOr for SuperResolutionSessionCreateFlags {
    type Output = Self;

    fn bitor(self, rhs: Self) -> (r: Self) {
        SuperResolutionSessionCreateFlags(self.0 | rhs.0)
    }
}

impl vstd::std_specs::ops::BitOrSpecImpl for SuperResolutionSessionCreateFlags {
    open spec fn obeys_bitor_spec() -> bool {
        true
    }

    open spec fn bitor_req(self, rhs: Self) -> bool {
        true
    }

    open spec fn bitor_spec(self, rhs: Self) -> Self {
        SuperResolutionSessionCreateFlags(self.0 | rhs.0)
    }
}

impl core::ops::BitOrAssign for SuperResolutionSessionCreateFlags {
    fn bitor_assign(&mut self, rhs: Self)
        ensures
            final(self).0 == old(self).0 | rhs.0,
    {
        *self = SuperResolutionSessionCreateFlags(self.0 | rhs.0);
    }
}

impl core::ops::BitAnd for SuperResolutionSessionCreateFlags {
    type Output = Self;

    fn bitand(self, rhs: Self) -> (r: Self) {
        SuperResolutionSessionCreateFlags(self.0 & rhs.0)
    }
}

impl vstd::std_specs::ops::BitAndSpecImpl for SuperResolutionSessionCreateFlags {
    open spec fn obeys_bitand_spec() -> bool {
        true
    }

    open spec fn bitand_req(self, rhs: Self) -> bool {
        true
    }

    open spec fn bitand_spec(self, rhs: Self) -> Self {
        SuperResolutionSessionCreateFlags(self.0 & rhs.0)
    }
}

impl core::ops::BitAndAssign for SuperResolutionSessionCreateFlags {
    fn bitand_assign(&mut self, rhs: Self)
        ensures
            final(self).0 == old(self).0 & rhs.0,
    {
        *self = SuperResolutionSessionCreateFlags(self.0 & rhs.0);
    }
}

impl core::ops::BitXor for SuperResolutionSessionCreateFlags {
    type Output = Self;

    fn bitxor(self, rhs: Self) -> (r: Self) {
        SuperResolutionSessionCreateFlags(self.0 ^ rhs.0)
    }
}

impl vstd::std_specs::ops::BitXorSpecImpl for SuperResolutionSessionCreateFlags {
    open spec fn obeys_bitxor_spec() -> bool {
        true
    }

    open spec fn bitxor_req(self, rhs: Self) -> bool {
        true
    }

    open spec fn bitxor_spec(self, rhs: Self) -> Self {
        SuperResolutionSessionCreateFlags(self.0 ^ rhs.0)
    }
}

impl core::ops::BitXorAssign for SuperResolutionSessionCreateFlags {
    fn bitxor_assign(&mut self, rhs: Self)
        ensures
            final(self).0 == old(self).0 ^ rhs.0,
    {
        *self = SuperResolutionSessionCreateFlags(self.0 ^ rhs.0);
    }
}

impl core::ops::Not for SuperResolutionSessionCreateFlags {
    type Output = Self;

    fn not(self) -> (r: Self) {
        SuperResolutionSessionCreateFlags(!self.0)
    }
}

impl vstd::std_specs::ops::NotSpecImpl for SuperResolutionSessionCreateFlags {
    open spec fn obeys_not_spec() -> bool {
        true
    }

    open spec fn not_req(self) -> bool {
        true
    }

    open spec fn not_spec(self) -> Self {
        SuperResolutionSessionCreateFlags(!self.0)
    }
}

/// Characteristics of the memory that a session requires. One bit per flag.
#[derive(Clone, Copy, Debug, PartialEq, Eq, PartialOrd, Ord, Hash, Structural)]
pub struct SuperResolutionSessionMemoryRequirementsFlags(pub u32);

impl SuperResolutionSessionMemoryRequirementsFlags {
    /// The memory may persist across multiple dispatches on the session.
    #[verifier::allow_in_spec]
    pub fn persistent() -> Self
        returns
            SuperResolutionSessionMemoryRequirementsFlags(0x0000_0001),
    {
        SuperResolutionSessionMemoryRequirementsFlags(0x0000_0001)
    }

    /// No flag at all.
    #[verifier::allow_in_spec]
    pub fn empty() -> Self
        returns
            SuperResolutionSessionMemoryRequirementsFlags(0),
    {
        SuperResolutionSessionMemoryRequirementsFlags(0)
    }

    /// The flags with the given bits.
    #[verifier::allow_in_spec]
    pub fn from_raw(x: u32) -> Self
        returns
            SuperResolutionSessionMemoryRequirementsFlags(x),
    {
        SuperResolutionSessionMemoryRequirementsFlags(x)
    }

    /// The bits of these flags.
    #[verifier::allow_in_spec]
    pub fn as_raw(self) -> u32
        returns
            self.0,
    {
        self.0
    }

    /// Returns whether no flag is set.
    #[verifier::allow_in_spec]
    pub fn is_empty(self) -> bool
        returns
            self.0 == 0,
    {
        self.0 == 0
    }

    /// Returns whether some flag is set in both.
    #[verifier::allow_in_spec]
    pub fn intersects(self, other: Self) -> bool
        returns
            self.0 & other.0 != 0,
    {
        self.0 & other.0 != 0
    }

    /// Returns whether `other` is a subset of `self`.
    #[verifier::allow_in_spec]
    pub fn contains(self, other: Self) -> bool
        returns
            self.0 & other.0 == other.0,
    {
        self.0 & other.0 == other.0
    }
}

impl Default for SuperResolutionSessionMemoryRequirementsFlags {
    /// No flag at all.
    fn default() -> (r: Self)
        ensures
            r == SuperResolutionSessionMemoryRequirementsFlags(0),
    {
        SuperResolutionSessionMemoryRequirementsFlags(0)
    }
}

impl core::ops::BitOr for SuperResolutionSessionMemoryRequirementsFlags {
    type Output = Self;

    fn bitor(self, rhs: Self) -> (r: Self) {
        SuperResolutionSessionMemoryRequirementsFlags(self.0 | rhs.0)
    }
}

impl vstd::std_specs::ops::BitOrSpecImpl for SuperResolutionSessionMemoryRequirementsFlags {
    open spec fn obeys_bitor_spec() -> bool {
        true
    }

    open spec fn bitor_req(self, rhs: Self) -> bool {
        true
    }

    open spec fn bitor_spec(self, rhs: Self) -> Self {
        SuperResolutionSessionMemoryRequirementsFlags(self.0 | rhs.0)
    }
}

impl core::ops::BitOrAssign for SuperResolutionSessionMemoryRequirementsFlags {
    fn bitor_assign(&mut self, rhs: Self)
        ensures
            final(self).0 == old(self).0 | rhs.0,
    {
        *self = SuperResolutionSessionMemoryRequirementsFlags(self.0 | rhs.0);
    }
}

impl core::ops::BitAnd for SuperResolutionSessionMemoryRequirementsFlags {
    type Output = Self;

    fn bitand(self, rhs: Self) -> (r: Self) {
        SuperResolutionSessionMemoryRequirementsFlags(self.0 & rhs.0)
    }
}

impl vstd::std_specs::ops::BitAndSpecImpl for SuperResolutionSessionMemoryRequirementsFlags {
    open spec fn obeys_bitand_spec() -> bool {
        true
    }

    open spec fn bitand_req(self, rhs: Self) -> bool {
        true
    }

    open spec fn bitand_spec(self, rhs: Self) -> Self {
        SuperResolutionSessionMemoryRequirementsFlags(self.0 & rhs.0)
    }
}

impl core::ops::BitAndAssign for SuperResolutionSessionMemoryRequirementsFlags {
    fn bitand_assign(&mut self, rhs: Self)
        ensures
            final(self).0 == old(self).0 & rhs.0,
    {
        *self = SuperResolutionSessionMemoryRequirementsFlags(self.0 & rhs.0);
    }
}

impl core::ops::BitXor for SuperResolutionSessionMemoryRequirementsFlags {
    type Output = Self;

    fn bitxor(self, rhs: Self) -> (r: Self) {
        SuperResolutionSessionMemoryRequirementsFlags(self.0 ^ rhs.0)
    }
}

impl vstd::std_specs::ops::BitXorSpecImpl for SuperResolutionSessionMemoryRequirementsFlags {
    open spec fn obeys_bitxor_spec() -> bool {
        true
    }

    open spec fn bitxor_req(self, rhs: Self) -> bool {
        true
    }

    open spec fn bitxor_spec(self, rhs: Self) -> Self {
        SuperResolutionSessionMemoryRequirementsFlags(self.0 ^ rhs.0)
    }
}

impl core::ops::BitXorAssign for SuperResolutionSessionMemoryRequirementsFlags {
    fn bitxor_assign(&mut self, rhs: Self)
        ensures
            final(self).0 == old(self).0 ^ rhs.0,
    {
        *self = SuperResolutionSessionMemoryRequirementsFlags(self.0 ^ rhs.0);
    }
}

impl core::ops::Not for SuperResolutionSessionMemoryRequirementsFlags {
    type Output = Self;

    fn not(self) -> (r: Self) {
        SuperResolutionSessionMemoryRequirementsFlags(!self.0)
    }
}

impl vstd::std_specs::ops::NotSpecImpl for SuperResolutionSessionMemoryRequirementsFlags {
    open spec fn obeys_not_spec() -> bool {
        true
    }

    open spec fn not_req(self) -> bool {
        true
    }

    open spec fn not_spec(self) -> Self {
        SuperResolutionSessionMemoryRequirementsFlags(!self.0)
    }
}

/// Additional dispatch parameters. One bit per flag.
#[derive(Clone, Copy, Debug, PartialEq, Eq, PartialOrd, Ord, Hash, Structural)]
pub struct SuperResolutionDispatchFlags(pub u32);

impl SuperResolutionDispatchFlags {
    /// The camera projection maps the near plane to depth `1.0` and the far
    /// plane to `0.0`, instead of the default `0.0`/`1.0` mapping.
    #[verifier::allow_in_spec]
    pub fn inverted_depth_range() -> Self
        returns
            SuperResolutionDispatchFlags(0x0000_0001),
    {
        SuperResolutionDispatchFlags(0x0000_0001)
    }

    /// The camera's view-projection matrix uses orthographic projection rather
    /// than perspective projection.
    #[verifier::allow_in_spec]
    pub fn orthographic_projection() -> Self
        returns
            SuperResolutionDispatchFlags(0x0000_0002),
    {
        SuperResolutionDispatchFlags(0x0000_0002)
    }

    /// Motion history is ignored for this dispatch, e.g. across a cut-scene
    /// transition.
    #[verifier::allow_in_spec]
    pub fn reset_history() -> Self
        returns
            SuperResolutionDispatchFlags(0x0000_0004),
    {
        SuperResolutionDispatchFlags(0x0000_0004)
    }

    /// No flag at all.
    #[verifier::allow_in_spec]
    pub fn empty() -> Self
        returns
            SuperResolutionDispatchFlags(0),
    {
        SuperResolutionDispatchFlags(0)
    }

    /// The flags with the given bits.
    #[verifier::allow_in_spec]
    pub fn from_raw(x: u32) -> Self
        returns
            SuperResolutionDispatchFlags(x),
    {
        SuperResolutionDispatchFlags(x)
    }

    /// The bits of these flags.
    #[verifier::allow_in_spec]
    pub fn as_raw(self) -> u32
        returns
            self.0,
    {
        self.0
    }

    /// Returns whether no flag is set.
    #[verifier::allow_in_spec]
    pub fn is_empty(self) -> bool
        returns
            self.0 == 0,
    {
        self.0 == 0
    }

    /// Returns whether some flag is set in both.
    #[verifier::allow_in_spec]
    pub fn intersects(self, other: Self) -> bool
        returns
            self.0 & other.0 != 0,
    {
        self.0 & other.0 != 0
    }

    /// Returns whether `other` is a subset of `self`.
    #[verifier::allow_in_spec]
    pub fn contains(self, other: Self) -> bool
        returns
            self.0 & other.0 == other.0,
    {
        self.0 & other.0 == other.0
    }
}

impl Default for SuperResolutionDispatchFlags {
    /// No flag at all.
    fn default() -> (r: Self)
        ensures
            r == SuperResolutionDispatchFlags(0),
    {
        SuperResolutionDispatchFlags(0)
    }
}

impl core::ops::BitOr for SuperResolutionDispatchFlags {
    type Output = Self;

    fn bitor(self, rhs: Self) -> (r: Self) {
        SuperResolutionDispatchFlags(self.0 | rhs.0)
    }
}

impl vstd::std_specs::ops::BitOrSpecImpl for SuperResolutionDispatchFlags {
    open spec fn obeys_bitor_spec() -> bool {
        true
    }

    open spec fn bitor_req(self, rhs: Self) -> bool {
        true
    }

    open spec fn bitor_spec(self, rhs: Self) -> Self {
        SuperResolutionDispatchFlags(self.0 | rhs.0)
    }
}

impl core::ops::BitOrAssign for SuperResolutionDispatchFlags {
    fn bitor_assign(&mut self, rhs: Self)
        ensures
            final(self).0 == old(self).0 | rhs.0,
    {
        *self = SuperResolutionDispatchFlags(self.0 | rhs.0);
    }
}

impl core::ops::BitAnd for SuperResolutionDispatchFlags {
    type Output = Self;

    fn bitand(self, rhs: Self) -> (r: Self) {
        SuperResolutionDispatchFlags(self.0 & rhs.0)
    }
}

impl vstd::std_specs::ops::BitAndSpecImpl for SuperResolutionDispatchFlags {
    open spec fn obeys_bitand_spec() -> bool {
        true
    }

    open spec fn bitand_req(self, rhs: Self) -> bool {
        true
    }

    open spec fn bitand_spec(self, rhs: Self) -> Self {
        SuperResolutionDispatchFlags(self.0 & rhs.0)
    }
}

impl core::ops::BitAndAssign for SuperResolutionDispatchFlags {
    fn bitand_assign(&mut self, rhs: Self)
        ensures
            final(self).0 == old(self).0 & rhs.0,
    {
        *self = SuperResolutionDispatchFlags(self.0 & rhs.0);
    }
}

impl core::ops::BitXor for SuperResolutionDispatchFlags {
    type Output = Self;

    fn bitxor(self, rhs: Self) -> (r: Self) {
        SuperResolutionDispatchFlags(self.0 ^ rhs.0)
    }
}

impl vstd::std_specs::ops::BitXorSpecImpl for SuperResolutionDispatchFlags {
    open spec fn obeys_bitxor_spec() -> bool {
        true
    }

    open spec fn bitxor_req(self, rhs: Self) -> bool {
        true
    }

    open spec fn bitxor_spec(self, rhs: Self) -> Self {
        SuperResolutionDispatchFlags(self.0 ^ rhs.0)
    }
}

impl core::ops::BitXorAssign for SuperResolutionDispatchFlags {
    fn bitxor_assign(&mut self, rhs: Self)
        ensures
            final(self).0 == old(self).0 ^ rhs.0,
    {
        *self = SuperResolutionDispatchFlags(self.0 ^ rhs.0);
    }
}

impl core::ops::Not for SuperResolutionDispatchFlags {
    type Output = Self;

    fn not(self) -> (r: Self) {
        SuperResolutionDispatchFlags(!self.0)
    }
}

impl vstd::std_specs::ops::NotSpecImpl for SuperResolutionDispatchFlags {
    open spec fn obeys_not_spec() -> bool {
        true
    }

    open spec fn not_req(self) -> bool {
        true
    }

    open spec fn not_spec(self) -> Self {
        SuperResolutionDispatchFlags(!self.0)
    }
}

} // verus!
