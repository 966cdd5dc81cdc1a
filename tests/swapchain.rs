use sagitario::queue_family::{QueueFamilyIndices, SharingMode};
use sagitario::swapchain::{
    get_swapchain_extent, get_swapchain_present_mode, get_swapchain_surface_format,
    swapchain_image_count, Extent2D, SurfaceCapabilities, SurfaceFormat, SwapchainConfig,
    SwapchainSupport, COLOR_SPACE_SRGB_NONLINEAR, FORMAT_B8G8R8A8_SRGB, PRESENT_MODE_FIFO,
    PRESENT_MODE_MAILBOX,
};
use vulkanalia::vk;

const RGBA8_SRGB: i32 = 43;
const RGBA8_UNORM: i32 = 37;
const EXTENDED_SRGB_LINEAR: i32 = 1000104002;
const IMMEDIATE: i32 = 0;

fn caps(min: u32, max: u32) -> SurfaceCapabilities {
    SurfaceCapabilities {
        min_image_count: min,
        max_image_count: max,
        current_extent: Extent2D { width: 800, height: 600 },
        min_image_extent: Extent2D { width: 1, height: 1 },
        max_image_extent: Extent2D { width: 4096, height: 4096 },
        current_transform: 1,
    }
}

#[test]
fn raw_values_match_vulkan() {
    assert_eq!(vk::Format::B8G8R8A8_SRGB.as_raw(), FORMAT_B8G8R8A8_SRGB);
    assert_eq!(vk::ColorSpaceKHR::SRGB_NONLINEAR.as_raw(), COLOR_SPACE_SRGB_NONLINEAR);
    assert_eq!(vk::PresentModeKHR::MAILBOX.as_raw(), PRESENT_MODE_MAILBOX);
    assert_eq!(vk::PresentModeKHR::FIFO.as_raw(), PRESENT_MODE_FIFO);
    assert_eq!(vk::Format::R8G8B8A8_SRGB.as_raw(), RGBA8_SRGB);
}

#[test]
fn format_falls_back_to_single_entry_and_fifo() {
    let formats = vec![SurfaceFormat { format: RGBA8_SRGB, color_space: COLOR_SPACE_SRGB_NONLINEAR }];
    assert_eq!(get_swapchain_surface_format(&formats), formats[0]);
    assert_eq!(get_swapchain_present_mode(&vec![PRESENT_MODE_FIFO]), PRESENT_MODE_FIFO);
}

#[test]
fn preferred_format_chosen_regardless_of_order() {
    let preferred = SurfaceFormat { format: FORMAT_B8G8R8A8_SRGB, color_space: COLOR_SPACE_SRGB_NONLINEAR };
    let other = SurfaceFormat { format: RGBA8_UNORM, color_space: EXTENDED_SRGB_LINEAR };
    assert_eq!(get_swapchain_surface_format(&vec![preferred, other]), preferred);
    assert_eq!(get_swapchain_surface_format(&vec![other, preferred]), preferred);
    let wrong_space = SurfaceFormat { format: FORMAT_B8G8R8A8_SRGB, color_space: EXTENDED_SRGB_LINEAR };
    assert_eq!(get_swapchain_surface_format(&vec![wrong_space, other]), wrong_space);
}

#[test]
fn mailbox_preferred_when_offered() {
    assert_eq!(get_swapchain_present_mode(&vec![IMMEDIATE, PRESENT_MODE_FIFO, PRESENT_MODE_MAILBOX]), PRESENT_MODE_MAILBOX);
    assert_eq!(get_swapchain_present_mode(&vec![IMMEDIATE]), PRESENT_MODE_FIFO);
    assert_eq!(get_swapchain_present_mode(&vec![]), PRESENT_MODE_FIFO);
}

#[test]
fn image_count_clamps_to_maximum() {
    assert_eq!(swapchain_image_count(&caps(2, 2)), 2);
    assert_eq!(swapchain_image_count(&caps(2, 8)), 3);
    assert_eq!(swapchain_image_count(&caps(2, 0)), 3);
    assert_eq!(swapchain_image_count(&caps(3, 4)), 4);
}

#[test]
fn extent_uses_current_extent_when_defined() {
    let c = caps(2, 3);
    assert_eq!(get_swapchain_extent(Extent2D { width: 10, height: 10 }, &c), Extent2D { width: 800, height: 600 });
}

#[test]
fn extent_clamps_window_size_when_undefined() {
    let mut c = caps(2, 3);
    c.current_extent = Extent2D { width: u32::MAX, height: u32::MAX };
    c.min_image_extent = Extent2D { width: 100, height: 100 };
    c.max_image_extent = Extent2D { width: 1000, height: 500 };
    assert_eq!(get_swapchain_extent(Extent2D { width: 1920, height: 50 }, &c), Extent2D { width: 1000, height: 100 });
    assert_eq!(get_swapchain_extent(Extent2D { width: 640, height: 480 }, &c), Extent2D { width: 640, height: 480 });
    assert!(c.is_wf());
    c.min_image_extent.width = 2000;
    assert!(!c.is_wf());
}

#[test]
fn negotiated_config_for_distinct_families() {
    let support = SwapchainSupport {
        capabilities: caps(2, 2),
        formats: vec![SurfaceFormat { format: RGBA8_SRGB, color_space: COLOR_SPACE_SRGB_NONLINEAR }],
        present_modes: vec![PRESENT_MODE_FIFO, PRESENT_MODE_MAILBOX],
    };
    let config = SwapchainConfig::negotiate(&support, &QueueFamilyIndices { graphics: 0, present: 1 }, Extent2D { width: 1, height: 1 });
    assert_eq!(config.surface_format, support.formats[0]);
    assert_eq!(config.present_mode, PRESENT_MODE_MAILBOX);
    assert_eq!(config.extent, Extent2D { width: 800, height: 600 });
    assert_eq!(config.image_count, 2);
    assert_eq!(config.sharing_mode, SharingMode::Concurrent);
    assert_eq!(config.queue_family_indices, vec![0, 1]);
    assert_eq!(config.pre_transform, 1);
    let exclusive = SwapchainConfig::negotiate(&support, &QueueFamilyIndices { graphics: 2, present: 2 }, Extent2D { width: 1, height: 1 });
    assert_eq!(exclusive.sharing_mode, SharingMode::Exclusive);
    assert!(exclusive.queue_family_indices.is_empty());
}
