//! The Vulkan values that the backends decide on, held as plain values.
//!
//! Every number here is the one the Vulkan registry assigns, so a value passes
//! to and from a Vulkan binding by its raw representation.
use vstd::prelude::*;

verus! {

/// Number of bytes in a Vulkan UUID.
pub const UUID_SIZE: usize = 16;

/// Stands for "no particular queue family".
pub const QUEUE_FAMILY_IGNORED: u32 = 0xffff_ffff;

/// A layer count that stands for "all layers from the base layer on".
pub const REMAINING_ARRAY_LAYERS: u32 = 0xffff_ffff;

/// Number of bytes in the fixed-size name of a Vulkan extension.
pub const MAX_EXTENSION_NAME_SIZE: usize = 256;

/// The Vulkan errors that the super resolution interface reports.
#[derive(Clone, Copy, Debug, PartialEq, Eq, Hash, Structural)]
pub enum VkError {
    /// `VK_ERROR_INITIALIZATION_FAILED`.
    InitializationFailed,
    /// `VK_ERROR_FEATURE_NOT_PRESENT`.
    FeatureNotPresent,
    /// `VK_ERROR_FORMAT_NOT_SUPPORTED`.
    FormatNotSupported,
}

/// The result of an operation that fails with a Vulkan error.
pub type VkResult<T> = Result<T, VkError>;

impl VkError {
    /// The `VkResult` code of this error.
    #[verifier::allow_in_spec]
    pub fn as_raw(self) -> i32
        returns
            (match self {
                VkError::InitializationFailed => -3i32,
                VkError::FeatureNotPresent => -8i32,
                VkError::FormatNotSupported => -11i32,
            }),
    {
        match self {
            VkError::InitializationFailed => -3,
            VkError::FeatureNotPresent => -8,
            VkError::FormatNotSupported => -11,
        }
    }
}

/// A `VkFormat`, by its number.
#[derive(Clone, Copy, Debug, PartialEq, Eq, PartialOrd, Ord, Hash, Structural)]
pub struct Format(pub i32);

impl Format {
    /// `VK_FORMAT_UNDEFINED`. No format: the image is absent.
    #[verifier::allow_in_spec]
    pub fn undefined() -> Self
        returns
            Format(0),
    {
        Format(0)
    }

    /// `VK_FORMAT_R8_UNORM`. One 8-bit normalized channel.
    #[verifier::allow_in_spec]
    pub fn r8_unorm() -> Self
        returns
            Format(9),
    {
        Format(9)
    }

    /// `VK_FORMAT_R8G8B8A8_UNORM`. Four 8-bit normalized channels, red first.
    #[verifier::allow_in_spec]
    pub fn r8g8b8a8_unorm() -> Self
        returns
            Format(37),
    {
        Format(37)
    }

    /// `VK_FORMAT_R8G8B8A8_SRGB`. Four 8-bit channels, red first, sRGB encoded.
    #[verifier::allow_in_spec]
    pub fn r8g8b8a8_srgb() -> Self
        returns
            Format(43),
    {
        Format(43)
    }

    /// `VK_FORMAT_B8G8R8A8_UNORM`. Four 8-bit normalized channels, blue first.
    #[verifier::allow_in_spec]
    pub fn b8g8r8a8_unorm() -> Self
        returns
            Format(44),
    {
        Format(44)
    }

    /// `VK_FORMAT_A2B10G10R10_UNORM_PACK32`. Three 10-bit channels and a 2-bit alpha, packed.
    #[verifier::allow_in_spec]
    pub fn a2b10g10r10_unorm_pack32() -> Self
        returns
            Format(64),
    {
        Format(64)
    }

    /// `VK_FORMAT_R16_SFLOAT`. One 16-bit floating-point channel.
    #[verifier::allow_in_spec]
    pub fn r16_sfloat() -> Self
        returns
            Format(76),
    {
        Format(76)
    }

    /// `VK_FORMAT_R16G16_SFLOAT`. Two 16-bit floating-point channels.
    #[verifier::allow_in_spec]
    pub fn r16g16_sfloat() -> Self
        returns
            Format(83),
    {
        Format(83)
    }

    /// `VK_FORMAT_R16G16B16A16_SFLOAT`. Four 16-bit floating-point channels.
    #[verifier::allow_in_spec]
    pub fn r16g16b16a16_sfloat() -> Self
        returns
            Format(97),
    {
        Format(97)
    }

    /// `VK_FORMAT_R32_SFLOAT`. One 32-bit floating-point channel.
    #[verifier::allow_in_spec]
    pub fn r32_sfloat() -> Self
        returns
            Format(100),
    {
        Format(100)
    }

    /// `VK_FORMAT_R32G32B32A32_SFLOAT`. Four 32-bit floating-point channels.
    #[verifier::allow_in_spec]
    pub fn r32g32b32a32_sfloat() -> Self
        returns
            Format(109),
    {
        Format(109)
    }

    /// `VK_FORMAT_D32_SFLOAT`. A 32-bit floating-point depth channel.
    #[verifier::allow_in_spec]
    pub fn d32_sfloat() -> Self
        returns
            Format(126),
    {
        Format(126)
    }
}

/// `VkImageUsageFlags`: the ways in which an image may be used, one bit each.
#[derive(Clone, Copy, Debug, PartialEq, Eq, PartialOrd, Ord, Hash, Structural)]
pub struct ImageUsageFlags(pub u32);

impl ImageUsageFlags {
    /// The image is the source of a transfer.
    #[verifier::allow_in_spec]
    pub fn transfer_src() -> Self
        returns
            ImageUsageFlags(0x0000_0001),
    {
        ImageUsageFlags(0x0000_0001)
    }

    /// The image is the destination of a transfer.
    #[verifier::allow_in_spec]
    pub fn transfer_dst() -> Self
        returns
            ImageUsageFlags(0x0000_0002),
    {
        ImageUsageFlags(0x0000_0002)
    }

    /// The image is sampled in a shader.
    #[verifier::allow_in_spec]
    pub fn sampled() -> Self
        returns
            ImageUsageFlags(0x0000_0004),
    {
        ImageUsageFlags(0x0000_0004)
    }

    /// The image is read and written as a storage image.
    #[verifier::allow_in_spec]
    pub fn storage() -> Self
        returns
            ImageUsageFlags(0x0000_0008),
    {
        ImageUsageFlags(0x0000_0008)
    }
}

/// A `VkDriverId`: which driver a physical device runs on.
#[derive(Clone, Copy, Debug, PartialEq, Eq, PartialOrd, Ord, Hash, Structural)]
pub struct DriverId(pub i32);

impl DriverId {
    /// `VK_DRIVER_ID_NVIDIA_PROPRIETARY`.
    #[verifier::allow_in_spec]
    pub fn nvidia_proprietary() -> Self
        returns
            DriverId(4),
    {
        DriverId(4)
    }
}

/// A width and a height.
#[derive(Clone, Copy, Debug, PartialEq, Eq, Hash, Structural)]
pub struct Extent2D {
    pub width: u32,
    pub height: u32,
}

/// A position in an image.
#[derive(Clone, Copy, Debug, PartialEq, Eq, Hash, Structural)]
pub struct Offset2D {
    pub x: i32,
    pub y: i32,
}

/// A position in an image volume.
#[derive(Clone, Copy, Debug, PartialEq, Eq, Hash, Structural)]
pub struct Offset3D {
    pub x: i32,
    pub y: i32,
    pub z: i32,
}

/// A `VkImage` handle, by its number.
#[derive(Clone, Copy, Debug, PartialEq, Eq, Hash, Structural)]
pub struct Image(pub u64);

/// A `VkImageView` handle, by its number.
#[derive(Clone, Copy, Debug, PartialEq, Eq, Hash, Structural)]
pub struct ImageView(pub u64);

/// A `VkDeviceMemory` handle, by its number.
#[derive(Clone, Copy, Debug, PartialEq, Eq, Hash, Structural)]
pub struct DeviceMemory(pub u64);

/// A `VkImageLayout`, by its number.
#[derive(Clone, Copy, Debug, PartialEq, Eq, Hash, Structural)]
pub struct ImageLayout(pub i32);

/// `VkMemoryRequirements`.
#[derive(Clone, Copy, Debug, PartialEq, Eq, Hash, Structural)]
pub struct MemoryRequirements {
    pub size: u64,
    pub alignment: u64,
    pub memory_type_bits: u32,
}

/// The mip levels and array layers that an image view covers.
#[derive(Clone, Copy, Debug, PartialEq, Eq, Hash, Structural)]
pub struct ImageSubresourceRange {
    pub aspect_mask: u32,
    pub base_mip_level: u32,
    pub level_count: u32,
    pub base_array_layer: u32,
    pub layer_count: u32,
}

/// The layers of one mip level.
#[derive(Clone, Copy, Debug, PartialEq, Eq, Hash, Structural)]
pub struct ImageSubresourceLayers {
    pub aspect_mask: u32,
    pub mip_level: u32,
    pub base_array_layer: u32,
    pub layer_count: u32,
}

/// What an image view is created from, as far as a backend reads it.
#[derive(Clone, Copy, Debug, PartialEq, Eq, Hash, Structural)]
pub struct ImageViewCreateInfo {
    pub image: Image,
    pub format: Format,
    pub subresource_range: ImageSubresourceRange,
}

/// The filter that a blit applies.
#[derive(Clone, Copy, Debug, PartialEq, Eq, Hash, Structural)]
pub enum Filter {
    Nearest,
    Linear,
}

/// One region of a `vkCmdBlitImage`: two opposite corners on each side.
#[derive(Clone, Copy, Debug)]
pub struct ImageBlit {
    pub src_subresource: ImageSubresourceLayers,
    pub src_offsets: [Offset3D; 2],
    pub dst_subresource: ImageSubresourceLayers,
    pub dst_offsets: [Offset3D; 2],
}

} // verus!
