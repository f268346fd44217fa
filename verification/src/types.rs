//! The values that callers and backends exchange.
use vstd::prelude::*;

use crate::flags::{
    SuperResolutionDispatchFlags, SuperResolutionEnginePropertyFlags, SuperResolutionImageUseFlags,
    SuperResolutionQualityFocusFlags, SuperResolutionSessionCreateFlags,
    SuperResolutionSessionMemoryRequirementsFlags,
};
use crate::single::Single;
use crate::vk::{
    DeviceMemory, Extent2D, Format, ImageLayout, ImageUsageFlags, ImageViewCreateInfo,
    MemoryRequirements, Offset2D, MAX_EXTENSION_NAME_SIZE, UUID_SIZE,
};

verus! {

/// Number of queue family slots in an engine's properties.
pub const MAX_SUPER_RESOLUTION_QUEUE_FAMILY_COUNT: usize = 8;

/// Number of scaling factor slots in an engine's properties.
pub const MAX_SUPER_RESOLUTION_SCALING_FACTOR_COUNT: usize = 16;

/// Number of bytes in an engine's name, its terminating NUL included.
pub const MAX_SUPER_RESOLUTION_NAME_SIZE: usize = 32;

/// Who the application is, for backends that ask.
#[derive(Clone, Copy, Debug)]
pub struct SuperResolutionApplicationInfo<'a> {
    /// A stable project/application identifier registered with the vendor. For
    /// NGX this is the DLSS Project ID (a GUID string).
    pub project_id: &'a [u8],
    /// The application/engine version string.
    pub engine_version: &'a [u8],
    /// A writable directory the backend may use for its own data (caches, logs).
    /// For NGX this is the `ApplicationDataPath`. Must already exist and be
    /// writable. Given by the path's units: its bytes on Unix, its UTF-16 code units
    /// on Windows.
    pub application_data_path: &'a [u16],
}

/// Identifies a super resolution engine within the backend that offers it.
#[derive(Clone, Copy, Debug, PartialEq, Eq, Hash, Structural)]
pub struct SuperResolutionEngine(pub u32);

impl SuperResolutionEngine {
    /// The single engine exposed by the DLSS backend: DLSS-RR (Ray Reconstruction),
    /// a temporal denoising upscaler.
    #[verifier::allow_in_spec]
    pub fn dlss_rr() -> Self
        returns
            SuperResolutionEngine(0),
    {
        SuperResolutionEngine(0)
    }

    /// `MTL4FXTemporalScaler` — temporal upscaling that accumulates samples across
    /// frames using motion vectors. Corresponds to a temporal engine.
    #[verifier::allow_in_spec]
    pub fn metalfx_temporal_scaler() -> Self
        returns
            SuperResolutionEngine(10),
    {
        SuperResolutionEngine(10)
    }

    /// `MTL4FXSpatialScaler` — single-frame spatial upscaling with no history.
    #[verifier::allow_in_spec]
    pub fn metalfx_spatial_scaler() -> Self
        returns
            SuperResolutionEngine(11),
    {
        SuperResolutionEngine(11)
    }

    /// `MTL4FXTemporalDenoisedScaler` — temporal upscaling combined with denoising,
    /// intended for ray-traced inputs.
    #[verifier::allow_in_spec]
    pub fn metalfx_temporal_denoised_scaler() -> Self
        returns
            SuperResolutionEngine(12),
    {
        SuperResolutionEngine(12)
    }
}

/// An output-over-input ratio.
#[derive(Clone, Copy, Debug, PartialEq, Eq, Hash, Structural)]
pub struct ScalingFactor {
    pub numerator: u32,
    pub denominator: u32,
}

/// What an engine is and what it supports.
#[derive(Debug)]
pub struct SuperResolutionEngineProperties {
    pub vendor_id: u32,
    pub engine_version: u32,
    pub engine_uuid: [u8; UUID_SIZE],
    /// The engine's name, padded with NUL bytes.
    pub engine_name: [u8; MAX_SUPER_RESOLUTION_NAME_SIZE],
    pub flags: SuperResolutionEnginePropertyFlags,
    pub image_used: SuperResolutionImageUseFlags,
    pub supported_quality_focuses: SuperResolutionQualityFocusFlags,
    pub supported_queue_family_indexes: [u32; MAX_SUPER_RESOLUTION_QUEUE_FAMILY_COUNT],
    /// How many of the `supported_scaling_factors` are in use.
    pub supported_scaling_factor_count: u32,
    pub supported_scaling_factors: [ScalingFactor; MAX_SUPER_RESOLUTION_SCALING_FACTOR_COUNT],
    pub max_destination_region_size: Extent2D,
    pub max_supported_concurrent_session_dispatches: u32,
}

/// What a session is created from.
///
/// The optional source/auxiliary formats use [`Format::undefined`] to indicate
/// that the corresponding image will not be provided to dispatches.
#[derive(Clone, Copy, Debug)]
pub struct SuperResolutionSessionCreateInfo {
    /// The engine for which the session will be created.
    pub engine: SuperResolutionEngine,
    /// Additional session parameters.
    pub flags: SuperResolutionSessionCreateFlags,
    /// The quality focuses that must be supported by the session. Enabling
    /// fewer bits may reduce session creation time and memory.
    pub required_quality_focuses: SuperResolutionQualityFocusFlags,
    /// Format of the destination color image.
    pub destination_format: Format,
    /// Format of the source color image.
    pub source_format: Format,
    /// Format of the source depth image, or undefined if none.
    pub source_depth_format: Format,
    /// Format of the motion vectors image, or undefined if none.
    pub motion_vector_format: Format,
    /// Format of the reactive mask image, or undefined if none.
    pub reactive_mask_format: Format,
    /// Format of the ignore history mask image, or undefined if none.
    pub ignore_history_mask_format: Format,
    /// Format of the 1x1 exposure scale image, or undefined if none.
    pub exposure_scale_format: Format,
    /// Format of the diffuse albedo G-buffer image (denoising engines only), or
    /// undefined if none.
    pub diffuse_albedo_format: Format,
    /// Format of the specular albedo G-buffer image (denoising engines only), or
    /// undefined if none.
    pub specular_albedo_format: Format,
    /// Format of the world-space normal G-buffer image (denoising engines only),
    /// or undefined if none.
    pub normal_format: Format,
    /// Format of the roughness G-buffer image (denoising engines only), or
    /// undefined if none.
    pub roughness_format: Format,
    /// Format of the specular hit-distance image (denoising engines only), or
    /// undefined if none.
    pub specular_hit_distance_format: Format,
    /// Format of the denoise strength mask image (denoising engines only), or
    /// undefined if none.
    pub denoise_strength_mask_format: Format,
    /// Format of the transparency overlay image (denoising engines only), or
    /// undefined if none.
    pub transparency_overlay_format: Format,
    /// Size of the destination region, which may be smaller than the
    /// destination image.
    pub destination_region_size: Extent2D,
    /// Maximum size of the source content (color, depth, and optional masks).
    pub max_source_region_size: Extent2D,
    /// Scale applied to the X axis of motion vectors to bring them into source
    /// image space. Use 1.0 if already in source space.
    pub motion_vector_scale_x: Single,
    /// Scale applied to the Y axis of motion vectors to bring them into source
    /// image space. Use 1.0 if already in source space.
    pub motion_vector_scale_y: Single,
    /// Maximum number of dispatches the application may execute concurrently.
    pub max_concurrent_dispatches: u32,
}

/// Format and usage flags supported by a super resolution engine for a
/// particular image use.
#[derive(Clone, Copy, Debug, PartialEq, Eq, Hash, Structural)]
pub struct SuperResolutionImageProperties {
    pub format: Format,
    pub image_usage_flags: ImageUsageFlags,
}

/// Describes a block of internal device memory required by a super resolution
/// session.
#[derive(Clone, Copy, Debug, PartialEq, Eq, Hash, Structural)]
pub struct SuperResolutionSessionMemoryRequirements {
    /// Additional characteristics of the required memory.
    pub flags: SuperResolutionSessionMemoryRequirementsFlags,
    /// The size, alignment, and acceptable memory types for this bind point.
    pub memory_requirements: MemoryRequirements,
}

/// Describes device memory to attach to one of a session's bind points.
#[derive(Clone, Copy, Debug, PartialEq, Eq, Hash, Structural)]
pub struct BindSuperResolutionSessionMemoryInfo {
    /// Index of the bind point to which `memory` is attached. Corresponds to
    /// the position of the matching entry among the session's memory
    /// requirements.
    pub object_index: u32,
    /// The device memory to attach.
    pub memory: DeviceMemory,
    /// Start offset within `memory` of the region to bind.
    pub memory_offset: u64,
}

/// Requirements for ranges within the resource and sampler descriptor heaps
/// that a super resolution session uses for its internal descriptors.
#[derive(Clone, Copy, Debug, PartialEq, Eq, Hash, Structural)]
pub struct SuperResolutionDescriptorHeapRanges {
    /// Required size of a range on the resource descriptor heap.
    pub resource_heap_size: u64,
    /// Required alignment of that resource heap range.
    pub resource_heap_alignment: u64,
    /// Required size of a range on the sampler descriptor heap.
    pub sampler_heap_size: u64,
    /// Required alignment of that sampler heap range.
    pub sampler_heap_alignment: u64,
}

/// Describes an image passed into a super resolution dispatch.
#[derive(Clone, Copy, Debug, PartialEq, Eq, Hash, Structural)]
pub struct SuperResolutionImageInfo {
    /// The image content, specified as an image view create info.
    pub view: ImageViewCreateInfo,
    /// Offset, in texels, to the region within the image used by the dispatch.
    pub view_offset: Offset2D,
    /// Layout of the image at the start of the dispatch.
    pub initial_layout: ImageLayout,
    /// Layout the image is expected to be in once the dispatch completes.
    pub final_layout: ImageLayout,
}

/// Camera parameters used to render the scene.
#[derive(Clone, Copy, Debug)]
pub struct SuperResolutionCameraInfo {
    /// Column-major view-projection matrix (world space to clip space),
    /// excluding jitter.
    pub view_projection_matrix: [[Single; 4]; 4],
    /// Near plane of the camera frustum.
    pub near: Single,
    /// Far plane of the camera frustum.
    pub far: Single,
    /// Field of view of the camera frustum.
    pub fov: Single,
}

/// Motion information for a super resolution dispatch.
#[derive(Clone, Copy, Debug)]
pub struct SuperResolutionDispatchMotionInfo {
    /// Image encoding the motion of pixels between frames, or `None` if
    /// unavailable or unused by the engine.
    pub motion_vectors_image_info: Option<SuperResolutionImageInfo>,
    /// Image encoding reactive information, or `None` if unavailable or unused.
    pub reactive_mask_image_info: Option<SuperResolutionImageInfo>,
    /// Image encoding whether per-pixel history should be considered, or `None`
    /// if unavailable or unused.
    pub ignore_history_mask_image_info: Option<SuperResolutionImageInfo>,
    /// Information about the camera used to render the scene.
    pub camera_info: SuperResolutionCameraInfo,
    /// Per-frame jitter applied in the X dimension.
    pub texel_jitter_x: Single,
    /// Per-frame jitter applied in the Y dimension.
    pub texel_jitter_y: Single,
}

/// Exposure information for a super resolution dispatch.
#[derive(Clone, Copy, Debug)]
pub struct SuperResolutionDispatchExposureInfo {
    /// Pre-exposure value for HDR images; ignored if not using HDR or if auto
    /// exposure is enabled.
    pub pre_exposure: Single,
    /// Uniform exposure scale factor for HDR images; ignored if
    /// `exposure_scale_image_info` is provided. The backends of this library hand on the
    /// pre-exposure and the image alone.
    pub exposure_scale_uniform: Single,
    /// 1x1 image providing an exposure scale factor for HDR images, or `None`
    /// to use `exposure_scale_uniform`.
    pub exposure_scale_image_info: Option<SuperResolutionImageInfo>,
}

/// G-buffer inputs for a denoising super resolution dispatch.
///
/// Only used by denoising engines (e.g. the MetalFX temporal denoised scaler).
/// The diffuse/specular albedo, normal, and roughness images are required; the
/// remaining images are optional and may be `None`.
#[derive(Clone, Copy, Debug)]
pub struct SuperResolutionDispatchDenoiseInfo {
    /// Diffuse albedo G-buffer image.
    pub diffuse_albedo_image_info: SuperResolutionImageInfo,
    /// Specular albedo G-buffer image.
    pub specular_albedo_image_info: SuperResolutionImageInfo,
    /// World-space normal G-buffer image.
    pub normal_image_info: SuperResolutionImageInfo,
    /// Roughness G-buffer image.
    pub roughness_image_info: SuperResolutionImageInfo,
    /// Specular hit-distance image, or `None` if unused.
    pub specular_hit_distance_image_info: Option<SuperResolutionImageInfo>,
    /// Denoise strength mask image, or `None` if unused.
    pub denoise_strength_mask_image_info: Option<SuperResolutionImageInfo>,
    /// Transparency overlay image, or `None` if unused.
    pub transparency_overlay_image_info: Option<SuperResolutionImageInfo>,
    /// Column-major world-to-view (camera) matrix.
    pub world_to_view_matrix: [[Single; 4]; 4],
    /// Column-major view-to-clip (projection) matrix.
    pub view_to_clip_matrix: [[Single; 4]; 4],
}

/// Parameters driving a single super resolution upscaling dispatch.
#[derive(Clone, Copy, Debug)]
pub struct SuperResolutionDispatchInfo {
    /// Index of the dispatch. Must be less than the session's
    /// `max_concurrent_dispatches`, and unique across overlapping concurrent
    /// dispatches (including across swapchain images).
    pub dispatch_index: u32,
    /// Additional dispatch parameters.
    pub flags: SuperResolutionDispatchFlags,
    /// The single quality focus to use for this dispatch.
    pub quality_focus: SuperResolutionQualityFocusFlags,
    /// The destination color image.
    pub destination_image_info: SuperResolutionImageInfo,
    /// The source color image.
    pub source_image_info: SuperResolutionImageInfo,
    /// The source depth image, or `None` if the engine does not use depth.
    pub source_depth_image_info: Option<SuperResolutionImageInfo>,
    /// Size of the source content.
    pub source_size: Extent2D,
    /// Amount of sharpening to apply, in the range 0.0 to 1.0.
    pub sharpness: Single,
    /// Motion information, or `None` if the engine is not temporal.
    pub motion_info: Option<SuperResolutionDispatchMotionInfo>,
    /// Exposure information, or `None` to use auto/default exposure.
    pub exposure_info: Option<SuperResolutionDispatchExposureInfo>,
    /// G-buffer information, or `None` if the engine does not denoise.
    pub denoise_info: Option<SuperResolutionDispatchDenoiseInfo>,
    /// Offset into the bound resource descriptor heap reserved for the
    /// session's internal descriptors.
    pub resource_descriptor_heap_offset: u64,
    /// Offset into the bound sampler descriptor heap reserved for the session's
    /// internal descriptors.
    pub sampler_descriptor_heap_offset: u64,
}

/// An extension that a backend asks for, as Vulkan describes it.
#[derive(Clone, Copy, Debug)]
pub struct ExtensionProperties {
    /// The extension's name, up to its first NUL byte.
    pub extension_name: [u8; MAX_EXTENSION_NAME_SIZE],
    pub spec_version: u32,
}

} // verus!
