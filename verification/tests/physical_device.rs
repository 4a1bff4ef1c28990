use ash::vk;
use rendering_project::renderer::device_info_handler::{
    DeviceInfo, PhysicalDevice, VulkanDisplayInfo, VulkanSurfaceCapabilities, VulkanSurfaceFormat,
};
use rendering_project::renderer::logical_device_handler::get_queue_create_infos;
use rendering_project::renderer::physical_device_handler::{
    check_device_display_capabilities, check_device_extension_support, get_physical_device,
    get_queue_family_indices, is_physical_device_suitable, rank_device, DeviceReport,
    QueueFamilyIndices, QueueFamilyReport,
};
use rendering_project::renderer::{RendererError, VulkanExtent};

fn name_array(name: &str) -> Vec<u8> {
    let mut bytes = name.as_bytes().to_vec();
    bytes.resize(256, 0);
    bytes
}

fn family(flags: vk::QueueFlags, presents: bool) -> QueueFamilyReport {
    QueueFamilyReport { queue_flags: flags.as_raw(), presentation_support: Ok(presents) }
}

fn display(formats: usize, modes: usize) -> VulkanDisplayInfo {
    let extent = VulkanExtent { width: 1, height: 1 };
    VulkanDisplayInfo {
        capabilities: VulkanSurfaceCapabilities {
            min_image_count: 1,
            max_image_count: 0,
            current_extent: extent,
            min_image_extent: extent,
            max_image_extent: extent,
            max_image_array_layers: 1,
            supported_transforms: 1,
            current_transform: 1,
            supported_composite_alpha: 1,
            supported_usage_flags: 0,
        },
        formats: vec![
            VulkanSurfaceFormat {
                format: vk::Format::B8G8R8A8_SRGB.as_raw(),
                color_space: vk::ColorSpaceKHR::SRGB_NONLINEAR.as_raw(),
            };
            formats
        ],
        presentation_modes: vec![vk::PresentModeKHR::FIFO.as_raw(); modes],
    }
}

fn device(device_type: vk::PhysicalDeviceType) -> DeviceReport {
    DeviceReport {
        queue_families: vec![
            family(vk::QueueFlags::TRANSFER, false),
            family(vk::QueueFlags::GRAPHICS | vk::QueueFlags::COMPUTE, true),
        ],
        extensions: Ok(vec![name_array("VK_KHR_maintenance1"), name_array("VK_KHR_swapchain")]),
        display_info: Ok(display(1, 1)),
        device_type: device_type.as_raw(),
    }
}

/// The first family with graphics and the first that can present are chosen.
#[test]
fn queue_families_are_the_first_that_fit() {
    let families = vec![
        family(vk::QueueFlags::TRANSFER, false),
        family(vk::QueueFlags::COMPUTE, true),
        family(vk::QueueFlags::GRAPHICS, false),
        family(vk::QueueFlags::GRAPHICS, true),
    ];
    assert_eq!(
        get_queue_family_indices(&families),
        Ok(QueueFamilyIndices { queue_family_indices: [Some(2), Some(1)] })
    );
    assert_eq!(
        get_queue_family_indices(&vec![family(vk::QueueFlags::TRANSFER, false)]),
        Ok(QueueFamilyIndices { queue_family_indices: [None, None] })
    );
}

/// A failed presentation query is reported only while no presentation family was found.
#[test]
fn presentation_query_failures() {
    let failing = QueueFamilyReport {
        queue_flags: vk::QueueFlags::GRAPHICS.as_raw(),
        presentation_support: Err(vk::Result::ERROR_SURFACE_LOST_KHR.as_raw()),
    };
    assert_eq!(
        get_queue_family_indices(&vec![failing]),
        Err(RendererError::KhrSurfaceLostError)
    );
    assert_eq!(
        get_queue_family_indices(&vec![family(vk::QueueFlags::TRANSFER, true), failing]),
        Ok(QueueFamilyIndices { queue_family_indices: [Some(1), Some(0)] })
    );
}

#[test]
fn too_many_queue_families() {
    let families = vec![family(vk::QueueFlags::TRANSFER, false); 0x1_0001];
    assert_eq!(
        get_queue_family_indices(&families),
        Err(RendererError::TooManyQueuesAvailableToHandleError)
    );
}

#[test]
fn extension_support() {
    assert_eq!(
        check_device_extension_support(&Ok(vec![name_array("VK_KHR_swapchain")])),
        Ok(true)
    );
    assert_eq!(
        check_device_extension_support(&Ok(vec![name_array("VK_KHR_swapchain_extra")])),
        Ok(false)
    );
    assert_eq!(check_device_extension_support(&Ok(Vec::new())), Ok(false));
    assert_eq!(
        check_device_extension_support(&Err(vk::Result::ERROR_OUT_OF_HOST_MEMORY.as_raw())),
        Err(RendererError::HostMemoryExceededError)
    );
}

#[test]
fn display_capabilities() {
    assert_eq!(check_device_display_capabilities(&Ok(display(1, 1))), Ok(true));
    assert_eq!(check_device_display_capabilities(&Ok(display(0, 1))), Ok(false));
    assert_eq!(check_device_display_capabilities(&Ok(display(1, 0))), Ok(false));
}

#[test]
fn suitability() {
    assert_eq!(is_physical_device_suitable(&device(vk::PhysicalDeviceType::INTEGRATED_GPU)), Ok(true));
    let mut no_graphics = device(vk::PhysicalDeviceType::DISCRETE_GPU);
    no_graphics.queue_families = vec![family(vk::QueueFlags::TRANSFER, true)];
    assert_eq!(is_physical_device_suitable(&no_graphics), Ok(false));
    let mut no_swapchain = device(vk::PhysicalDeviceType::DISCRETE_GPU);
    no_swapchain.extensions = Ok(vec![name_array("VK_KHR_maintenance1")]);
    no_swapchain.display_info = Err(vk::Result::ERROR_SURFACE_LOST_KHR.as_raw());
    assert_eq!(is_physical_device_suitable(&no_swapchain), Ok(false));
    let mut lost = device(vk::PhysicalDeviceType::DISCRETE_GPU);
    lost.display_info = Err(vk::Result::ERROR_SURFACE_LOST_KHR.as_raw());
    assert_eq!(is_physical_device_suitable(&lost), Err(RendererError::KhrSurfaceLostError));
}

#[test]
fn ranking() {
    assert_eq!(rank_device(vk::PhysicalDeviceType::DISCRETE_GPU.as_raw()), 1);
    assert_eq!(rank_device(vk::PhysicalDeviceType::INTEGRATED_GPU.as_raw()), 0);
    assert_eq!(rank_device(vk::PhysicalDeviceType::CPU.as_raw()), 0);
}

/// The first of the best-ranked suitable devices is chosen.
#[test]
fn device_choice() {
    let mut unsuitable = device(vk::PhysicalDeviceType::DISCRETE_GPU);
    unsuitable.display_info = Ok(display(0, 0));
    let devices = vec![
        device(vk::PhysicalDeviceType::INTEGRATED_GPU),
        unsuitable,
        device(vk::PhysicalDeviceType::DISCRETE_GPU),
        device(vk::PhysicalDeviceType::DISCRETE_GPU),
    ];
    assert_eq!(get_physical_device(&devices), Ok(2));
    let integrated = vec![
        device(vk::PhysicalDeviceType::CPU),
        device(vk::PhysicalDeviceType::INTEGRATED_GPU),
    ];
    assert_eq!(get_physical_device(&integrated), Ok(0));
    assert_eq!(
        get_physical_device(&Vec::new()),
        Err(RendererError::UnableToFindSuitablePhysicalDeviceError)
    );
}

/// A family that serves both roles gets one queue; a role without a family is a logic error.
#[test]
fn queue_create_infos() {
    assert_eq!(
        get_queue_create_infos(QueueFamilyIndices { queue_family_indices: [Some(0), Some(0)] }),
        Ok(vec![0])
    );
    assert_eq!(
        get_queue_create_infos(QueueFamilyIndices { queue_family_indices: [Some(2), Some(1)] }),
        Ok(vec![2, 1])
    );
    assert_eq!(
        get_queue_create_infos(QueueFamilyIndices { queue_family_indices: [Some(2), None] }),
        Err(RendererError::LogicError(String::from("get_queue_create_info")))
    );
}

/// A copy of a physical device keeps its handle and its information.
#[test]
fn physical_device_copies_keep_the_handle() {
    let device = PhysicalDevice {
        device_info: DeviceInfo::from(display(1, 1)),
        device: vk::Handle::from_raw(0x1234),
    };
    let copy = device.clone();
    assert_eq!(vk::Handle::as_raw(copy.device), 0x1234);
    assert_eq!(copy, device);
}
