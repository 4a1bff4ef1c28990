use ash::vk;
use rendering_project::get_renderer;
use rendering_project::renderer::{GlfwInitError, RendererError, Size, VulkanExtent};

#[test]
fn cannot_get_renderer_with_0_frames() {
    match get_renderer("test", 0) {
        Ok(_) => panic!("Renderer created with no frames"),
        Err(_) => (),
    }
}

#[test]
fn can_get_renderer_with_1_frame() {
    match get_renderer("test", 1) {
        Ok(_) => (),
        Err(e) => panic!("{e:?}"),
    }
}

#[test]
fn can_get_renderer_with_2_frames() {
    match get_renderer("test", 2) {
        Ok(_) => (),
        Err(e) => panic!("{e:?}"),
    }
}

#[test]
fn can_get_renderer_with_3_frames() {
    match get_renderer("test", 3) {
        Ok(_) => (),
        Err(e) => panic!("{e:?}"),
    }
}

/// A request keeps the name's bytes and the number of frames.
#[test]
fn renderer_request_holds_name_and_frames() {
    let request = get_renderer("test", 2).unwrap();
    assert_eq!(request.app_name, b"test".to_vec());
    assert_eq!(request.num_frames, 2);
    assert_eq!(get_renderer("test", 0), Err(RendererError::ImageCountNotAvailableError(1, 0)));
    assert_eq!(
        get_renderer("te\0st", 0),
        Err(RendererError::StringContainingNullCharError(2, b"te\0st".to_vec()))
    );
}

/// Each Vulkan result code maps to its error.
#[test]
fn vulkan_results_become_errors() {
    let data = [
        (vk::Result::NOT_READY, RendererError::ExpectedResourceNotReadyError),
        (vk::Result::ERROR_OUT_OF_HOST_MEMORY, RendererError::HostMemoryExceededError),
        (vk::Result::ERROR_DEVICE_LOST, RendererError::LogicalDeviceLostError),
        (vk::Result::ERROR_SURFACE_LOST_KHR, RendererError::KhrSurfaceLostError),
        (vk::Result::ERROR_OUT_OF_POOL_MEMORY_KHR, RendererError::PoolMemoryExceededError),
        (vk::Result::INCOMPATIBLE_SHADER_BINARY_EXT, RendererError::ExtIncompatibleShaderBinaryError),
        (vk::Result::SUCCESS, RendererError::LogicError(String::from("Success treated as failure!"))),
        (
            vk::Result::SUBOPTIMAL_KHR,
            RendererError::LogicError(String::from("Suboptimal KHR treated as failure!")),
        ),
        (vk::Result::from_raw(-12345), RendererError::UnknownVkResult(-12345)),
    ];
    for test in data {
        assert_eq!(RendererError::from_vk_result(test.0.as_raw()), test.1);
    }
}

#[test]
fn glfw_errors_become_errors() {
    assert_eq!(
        RendererError::from_glfw_init_error(GlfwInitError::AlreadyInitialized),
        RendererError::GlfwEntryAlreadyExists
    );
    assert_eq!(
        RendererError::from_glfw_init_error(GlfwInitError::Internal),
        RendererError::GlfwEntryCreationInternalError
    );
}

#[test]
fn size_of_extent() {
    assert_eq!(Size::from(VulkanExtent { width: 640, height: 480 }), Size { x: 640, y: 480 });
}
