//! Vendor-neutral super resolution.
//!
//! An application asks a physical device for its super resolution engines, creates a
//! session from one of them, and records dispatches that upscale a rendered image. The
//! work itself is done by a vendor's library: MetalFX on Apple's platforms ([`metalfx`]),
//! NVIDIA's NGX elsewhere ([`dlss`]), or a plain Vulkan blit ([`blit`]).
//!
//! This crate holds what is decided and computed on the way: what an engine is and which
//! images it takes, what a session is created from, what a dispatch hands to the vendor's
//! library, and what follows from that library's answers. It calls no vendor library and
//! records no Vulkan command itself: handles enter as numbers, and what is to be done comes
//! back as plain values ([`session`]).
//!
//! Numbers that the vendors' libraries take in single precision are held by their bits
//! ([`single`]); the arithmetic on them is that of IEEE 754, rounding to nearest
//! ([`rounding`], [`arith`]).
pub mod arith;
pub mod bits;
pub mod blit;
pub mod dlss;
pub mod engine;
pub mod flags;
pub mod halton;
pub mod halton_bounds;
pub mod jitter;
pub mod laws;
pub mod metalfx;
pub mod radical;
pub mod rounding;
pub mod session;
pub mod single;
pub mod types;
pub mod vk;

pub use flags::{
    SuperResolutionDispatchFlags, SuperResolutionEnginePropertyFlags, SuperResolutionImageUseFlags,
    SuperResolutionQualityFocusFlags, SuperResolutionSessionCreateFlags,
    SuperResolutionSessionMemoryRequirementsFlags,
};
pub use session::{
    SuperResolutionCommandEncoder, SuperResolutionDevice, SuperResolutionPhysicalDevice,
    SuperResolutionSession,
};
pub use types::{
    BindSuperResolutionSessionMemoryInfo, ScalingFactor, SuperResolutionApplicationInfo,
    SuperResolutionCameraInfo, SuperResolutionDescriptorHeapRanges,
    SuperResolutionDispatchDenoiseInfo, SuperResolutionDispatchExposureInfo,
    SuperResolutionDispatchInfo, SuperResolutionDispatchMotionInfo, SuperResolutionEngine,
    SuperResolutionEngineProperties, SuperResolutionImageInfo, SuperResolutionImageProperties,
    SuperResolutionSessionCreateInfo, SuperResolutionSessionMemoryRequirements,
    MAX_SUPER_RESOLUTION_NAME_SIZE, MAX_SUPER_RESOLUTION_QUEUE_FAMILY_COUNT,
    MAX_SUPER_RESOLUTION_SCALING_FACTOR_COUNT,
};
