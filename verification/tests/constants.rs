//! The numbers are those of the Vulkan binding.
use ash::vk;
use pumicite_sr::vk::{
    DriverId, Format, ImageUsageFlags, VkError, MAX_EXTENSION_NAME_SIZE, QUEUE_FAMILY_IGNORED,
    REMAINING_ARRAY_LAYERS, UUID_SIZE,
};

#[test]
fn formats_have_their_vulkan_numbers() {
    let pairs = [
        (Format::undefined(), vk::Format::UNDEFINED),
        (Format::r8_unorm(), vk::Format::R8_UNORM),
        (Format::r8g8b8a8_unorm(), vk::Format::R8G8B8A8_UNORM),
        (Format::r8g8b8a8_srgb(), vk::Format::R8G8B8A8_SRGB),
        (Format::b8g8r8a8_unorm(), vk::Format::B8G8R8A8_UNORM),
        (Format::a2b10g10r10_unorm_pack32(), vk::Format::A2B10G10R10_UNORM_PACK32),
        (Format::r16_sfloat(), vk::Format::R16_SFLOAT),
        (Format::r16g16_sfloat(), vk::Format::R16G16_SFLOAT),
        (Format::r16g16b16a16_sfloat(), vk::Format::R16G16B16A16_SFLOAT),
        (Format::r32_sfloat(), vk::Format::R32_SFLOAT),
        (Format::r32g32b32a32_sfloat(), vk::Format::R32G32B32A32_SFLOAT),
        (Format::d32_sfloat(), vk::Format::D32_SFLOAT),
    ];
    for (ours, theirs) in pairs {
        assert_eq!(ours.0, theirs.as_raw());
    }
}

#[test]
fn usages_have_their_vulkan_numbers() {
    assert_eq!(ImageUsageFlags::transfer_src().0, vk::ImageUsageFlags::TRANSFER_SRC.as_raw());
    assert_eq!(ImageUsageFlags::transfer_dst().0, vk::ImageUsageFlags::TRANSFER_DST.as_raw());
    assert_eq!(ImageUsageFlags::sampled().0, vk::ImageUsageFlags::SAMPLED.as_raw());
    assert_eq!(ImageUsageFlags::storage().0, vk::ImageUsageFlags::STORAGE.as_raw());
}

#[test]
fn errors_have_their_vulkan_numbers() {
    assert_eq!(
        VkError::InitializationFailed.as_raw(),
        vk::Result::ERROR_INITIALIZATION_FAILED.as_raw()
    );
    assert_eq!(
        VkError::FeatureNotPresent.as_raw(),
        vk::Result::ERROR_FEATURE_NOT_PRESENT.as_raw()
    );
    assert_eq!(
        VkError::FormatNotSupported.as_raw(),
        vk::Result::ERROR_FORMAT_NOT_SUPPORTED.as_raw()
    );
}

#[test]
fn sizes_and_sentinels_are_vulkans() {
    assert_eq!(UUID_SIZE, vk::UUID_SIZE);
    assert_eq!(QUEUE_FAMILY_IGNORED, vk::QUEUE_FAMILY_IGNORED);
    assert_eq!(REMAINING_ARRAY_LAYERS, vk::REMAINING_ARRAY_LAYERS);
    assert_eq!(MAX_EXTENSION_NAME_SIZE, vk::MAX_EXTENSION_NAME_SIZE);
    assert_eq!(DriverId::nvidia_proprietary().0, vk::DriverId::NVIDIA_PROPRIETARY.as_raw());
}
