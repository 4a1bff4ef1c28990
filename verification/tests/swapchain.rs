use ash::vk;
use rendering_project::renderer::device_info_handler::VulkanSurfaceFormat;
use rendering_project::renderer::swapchain_handler::{desired_format, desired_present_mode};

fn format(format: vk::Format, color_space: vk::ColorSpaceKHR) -> VulkanSurfaceFormat {
    VulkanSurfaceFormat { format: format.as_raw(), color_space: color_space.as_raw() }
}

/// The last format in R8G8B8A8_SRGB is chosen, or else the first format.
#[test]
fn swapchain_format_choice() {
    let formats = vec![
        format(vk::Format::B8G8R8A8_UNORM, vk::ColorSpaceKHR::SRGB_NONLINEAR),
        format(vk::Format::R8G8B8A8_SRGB, vk::ColorSpaceKHR::SRGB_NONLINEAR),
        format(vk::Format::R8G8B8A8_SRGB, vk::ColorSpaceKHR::DISPLAY_P3_NONLINEAR_EXT),
        format(vk::Format::R8G8B8A8_UNORM, vk::ColorSpaceKHR::SRGB_NONLINEAR),
    ];
    assert_eq!(desired_format(&formats), Some(formats[2]));
    let others = vec![
        format(vk::Format::B8G8R8A8_UNORM, vk::ColorSpaceKHR::SRGB_NONLINEAR),
        format(vk::Format::R8G8B8A8_UNORM, vk::ColorSpaceKHR::SRGB_NONLINEAR),
    ];
    assert_eq!(desired_format(&others), Some(others[0]));
    assert_eq!(desired_format(&Vec::new()), None);
}

/// Mailbox is chosen when it is supported, and FIFO otherwise.
#[test]
fn swapchain_present_mode_choice() {
    let with_mailbox = vec![vk::PresentModeKHR::FIFO.as_raw(), vk::PresentModeKHR::MAILBOX.as_raw()];
    assert_eq!(desired_present_mode(&with_mailbox), vk::PresentModeKHR::MAILBOX.as_raw());
    let without = vec![vk::PresentModeKHR::IMMEDIATE.as_raw()];
    assert_eq!(desired_present_mode(&without), vk::PresentModeKHR::FIFO.as_raw());
    assert_eq!(desired_present_mode(&Vec::new()), vk::PresentModeKHR::FIFO.as_raw());
}
