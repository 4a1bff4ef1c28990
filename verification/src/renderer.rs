//! The renderer's error type and the plain values that describe a display.

pub mod debugger;
pub mod device_info_handler;
pub mod logical_device_handler;
pub mod physical_device_handler;
pub mod swapchain_handler;

use vstd::prelude::*;

verus! {

/// A width and a height in pixels.
#[derive(Copy, Clone, Debug, PartialEq, Eq, Structural)]
pub struct Size {
    pub x: u32,
    pub y: u32,
}

/// A two-dimensional extent as Vulkan reports it.
#[derive(Copy, Clone, Debug, PartialEq, Eq, Structural)]
pub struct VulkanExtent {
    pub width: u32,
    pub height: u32,
}

impl Size {
    /// The size of an extent: its width and its height.
    pub fn from(value: VulkanExtent) -> (s: Self)
        ensures
            s == (Size { x: value.width, y: value.height }),
    {
        Self { x: value.width, y: value.height }
    }
}

/// A checked request for a renderer: the application's name as a C string (its bytes, without
/// the terminating nul byte) and the number of frames in the swapchain.
#[derive(Clone, Debug, PartialEq, Eq)]
pub struct RendererRequest {
    pub app_name: Vec<u8>,
    pub num_frames: u8,
}

/// How starting the windowing library failed.
#[derive(Copy, Clone, Debug, PartialEq, Eq, Structural)]
pub enum GlfwInitError {
    AlreadyInitialized,
    Internal,
}

/// What went wrong in the renderer.
#[derive(Clone, Debug, PartialEq, Eq)]
pub enum RendererError {
    /// A text to hand to Vulkan held a nul character: its position and the bytes of the text.
    StringContainingNullCharError(usize, Vec<u8>),
    CStringDidNotContainTerminatingNullButeError,
    LayerRequiredNotSupportedError,
    UnableToFindSuitablePhysicalDeviceError,
    TooManyQueuesAvailableToHandleError,
    /// The minimum and maximum image count available.
    ImageCountNotAvailableError(u8, u8),
    LogicError(String),
    UnknownError,
    ExpectedResourceNotReadyError,
    OperationTimedOutError,
    IncompleteResultReturnedError,
    HostMemoryExceededError,
    DeviceMemoryExceededError,
    ObjectInitialisationFailedError,
    LogicalDeviceLostError,
    MemoryMapFailedError,
    LayerSpecifiedNotPresentError,
    ExtensionSpecifiedNotPresentError,
    FeatureSpecifiedNotPresentError,
    IncompatibleDriverError,
    TooManyObjectError,
    FormatSpecifiedNotSupportedError,
    PoolMemoryFragmentationError,
    KhrSurfaceLostError,
    KhrNativeWindowInUseError,
    KhrSwapchainOutOfDateError,
    KhrIncompatibleDisplayForSwapchainError,
    ExtDebugReportValidationFailedError,
    NvGlslShaderInvalidError,
    KhrVideoQueueImageNotSupportedError,
    KhrVideoQueuePictureLayoutNotSupportedError,
    KhrVideoQueueProfileOperationNotSupportedError,
    KhrVideoQueueProfileFormatNotSupportedError,
    KhrVideoQueueProfileCodecNotSupportedError,
    KhrVideoQueueStdVersionNotSupportedError,
    PoolMemoryExceededError,
    MemoryInvalidExternalHandleError,
    ExtImageDrmFormatModifierInvalidLayoutError,
    DescriptorFragmentationError,
    GlobalPriorityNotPermittedError,
    BufferDeviceAddressInvalidError,
    ExtFullScreenExclusiveModeLostError,
    PipelineCompileRequiredError,
    KhrVideoStdParametersInvalidError,
    ExtImageCompressionExhaustedError,
    ExtIncompatibleShaderBinaryError,
    /// A Vulkan result code with no meaning of its own here.
    UnknownVkResult(i32),
    GlfwEntryAlreadyExists,
    GlfwEntryCreationInternalError,
    GlfwCallFailed(String),
}

/// The mathematical value of a [`RendererError`].
pub enum SpecRendererError {
    StringContainingNullCharError(usize, Seq<u8>),
    CStringDidNotContainTerminatingNullButeError,
    LayerRequiredNotSupportedError,
    UnableToFindSuitablePhysicalDeviceError,
    TooManyQueuesAvailableToHandleError,
    ImageCountNotAvailableError(u8, u8),
    LogicError(Seq<char>),
    UnknownError,
    ExpectedResourceNotReadyError,
    OperationTimedOutError,
    IncompleteResultReturnedError,
    HostMemoryExceededError,
    DeviceMemoryExceededError,
    ObjectInitialisationFailedError,
    LogicalDeviceLostError,
    MemoryMapFailedError,
    LayerSpecifiedNotPresentError,
    ExtensionSpecifiedNotPresentError,
    FeatureSpecifiedNotPresentError,
    IncompatibleDriverError,
    TooManyObjectError,
    FormatSpecifiedNotSupportedError,
    PoolMemoryFragmentationError,
    KhrSurfaceLostError,
    KhrNativeWindowInUseError,
    KhrSwapchainOutOfDateError,
    KhrIncompatibleDisplayForSwapchainError,
    ExtDebugReportValidationFailedError,
    NvGlslShaderInvalidError,
    KhrVideoQueueImageNotSupportedError,
    KhrVideoQueuePictureLayoutNotSupportedError,
    KhrVideoQueueProfileOperationNotSupportedError,
    KhrVideoQueueProfileFormatNotSupportedError,
    KhrVideoQueueProfileCodecNotSupportedError,
    KhrVideoQueueStdVersionNotSupportedError,
    PoolMemoryExceededError,
    MemoryInvalidExternalHandleError,
    ExtImageDrmFormatModifierInvalidLayoutError,
    DescriptorFragmentationError,
    GlobalPriorityNotPermittedError,
    BufferDeviceAddressInvalidError,
    ExtFullScreenExclusiveModeLostError,
    PipelineCompileRequiredError,
    KhrVideoStdParametersInvalidError,
    ExtImageCompressionExhaustedError,
    ExtIncompatibleShaderBinaryError,
    UnknownVkResult(i32),
    GlfwEntryAlreadyExists,
    GlfwEntryCreationInternalError,
    GlfwCallFailed(Seq<char>),
}

impl View for RendererError {
    type V = SpecRendererError;

    open spec fn view(&self) -> SpecRendererError {
        match self {
            RendererError::StringContainingNullCharError(p, b) => SpecRendererError::StringContainingNullCharError(*p, b@),
            RendererError::CStringDidNotContainTerminatingNullButeError => SpecRendererError::CStringDidNotContainTerminatingNullButeError,
            RendererError::LayerRequiredNotSupportedError => SpecRendererError::LayerRequiredNotSupportedError,
            RendererError::UnableToFindSuitablePhysicalDeviceError => SpecRendererError::UnableToFindSuitablePhysicalDeviceError,
            RendererError::TooManyQueuesAvailableToHandleError => SpecRendererError::TooManyQueuesAvailableToHandleError,
            RendererError::ImageCountNotAvailableError(a, b) => SpecRendererError::ImageCountNotAvailableError(*a, *b),
            RendererError::LogicError(s) => SpecRendererError::LogicError(s@),
            RendererError::UnknownError => SpecRendererError::UnknownError,
            RendererError::ExpectedResourceNotReadyError => SpecRendererError::ExpectedResourceNotReadyError,
            RendererError::OperationTimedOutError => SpecRendererError::OperationTimedOutError,
            RendererError::IncompleteResultReturnedError => SpecRendererError::IncompleteResultReturnedError,
            RendererError::HostMemoryExceededError => SpecRendererError::HostMemoryExceededError,
            RendererError::DeviceMemoryExceededError => SpecRendererError::DeviceMemoryExceededError,
            RendererError::ObjectInitialisationFailedError => SpecRendererError::ObjectInitialisationFailedError,
            RendererError::LogicalDeviceLostError => SpecRendererError::LogicalDeviceLostError,
            RendererError::MemoryMapFailedError => SpecRendererError::MemoryMapFailedError,
            RendererError::LayerSpecifiedNotPresentError => SpecRendererError::LayerSpecifiedNotPresentError,
            RendererError::ExtensionSpecifiedNotPresentError => SpecRendererError::ExtensionSpecifiedNotPresentError,
            RendererError::FeatureSpecifiedNotPresentError => SpecRendererError::FeatureSpecifiedNotPresentError,
            RendererError::IncompatibleDriverError => SpecRendererError::IncompatibleDriverError,
            RendererError::TooManyObjectError => SpecRendererError::TooManyObjectError,
            RendererError::FormatSpecifiedNotSupportedError => SpecRendererError::FormatSpecifiedNotSupportedError,
            RendererError::PoolMemoryFragmentationError => SpecRendererError::PoolMemoryFragmentationError,
            RendererError::KhrSurfaceLostError => SpecRendererError::KhrSurfaceLostError,
            RendererError::KhrNativeWindowInUseError => SpecRendererError::KhrNativeWindowInUseError,
            RendererError::KhrSwapchainOutOfDateError => SpecRendererError::KhrSwapchainOutOfDateError,
            RendererError::KhrIncompatibleDisplayForSwapchainError => SpecRendererError::KhrIncompatibleDisplayForSwapchainError,
            RendererError::ExtDebugReportValidationFailedError => SpecRendererError::ExtDebugReportValidationFailedError,
            RendererError::NvGlslShaderInvalidError => SpecRendererError::NvGlslShaderInvalidError,
            RendererError::KhrVideoQueueImageNotSupportedError => SpecRendererError::KhrVideoQueueImageNotSupportedError,
            RendererError::KhrVideoQueuePictureLayoutNotSupportedError => SpecRendererError::KhrVideoQueuePictureLayoutNotSupportedError,
            RendererError::KhrVideoQueueProfileOperationNotSupportedError => SpecRendererError::KhrVideoQueueProfileOperationNotSupportedError,
            RendererError::KhrVideoQueueProfileFormatNotSupportedError => SpecRendererError::KhrVideoQueueProfileFormatNotSupportedError,
            RendererError::KhrVideoQueueProfileCodecNotSupportedError => SpecRendererError::KhrVideoQueueProfileCodecNotSupportedError,
            RendererError::KhrVideoQueueStdVersionNotSupportedError => SpecRendererError::KhrVideoQueueStdVersionNotSupportedError,
            RendererError::PoolMemoryExceededError => SpecRendererError::PoolMemoryExceededError,
            RendererError::MemoryInvalidExternalHandleError => SpecRendererError::MemoryInvalidExternalHandleError,
            RendererError::ExtImageDrmFormatModifierInvalidLayoutError => SpecRendererError::ExtImageDrmFormatModifierInvalidLayoutError,
            RendererError::DescriptorFragmentationError => SpecRendererError::DescriptorFragmentationError,
            RendererError::GlobalPriorityNotPermittedError => SpecRendererError::GlobalPriorityNotPermittedError,
            RendererError::BufferDeviceAddressInvalidError => SpecRendererError::BufferDeviceAddressInvalidError,
            RendererError::ExtFullScreenExclusiveModeLostError => SpecRendererError::ExtFullScreenExclusiveModeLostError,
            RendererError::PipelineCompileRequiredError => SpecRendererError::PipelineCompileRequiredError,
            RendererError::KhrVideoStdParametersInvalidError => SpecRendererError::KhrVideoStdParametersInvalidError,
            RendererError::ExtImageCompressionExhaustedError => SpecRendererError::ExtImageCompressionExhaustedError,
            RendererError::ExtIncompatibleShaderBinaryError => SpecRendererError::ExtIncompatibleShaderBinaryError,
            RendererError::UnknownVkResult(c) => SpecRendererError::UnknownVkResult(*c),
            RendererError::GlfwEntryAlreadyExists => SpecRendererError::GlfwEntryAlreadyExists,
            RendererError::GlfwEntryCreationInternalError => SpecRendererError::GlfwEntryCreationInternalError,
            RendererError::GlfwCallFailed(s) => SpecRendererError::GlfwCallFailed(s@),
        }
    }
}

/// A result with its error taken by its value.
pub open spec fn result_view<T>(r: Result<T, RendererError>) -> Result<T, SpecRendererError> {
    match r {
        Ok(v) => Ok(v),
        Err(e) => Err(e@),
    }
}

/// The error that a Vulkan result code stands for. Codes that report success or a
/// non-error status give a logic error, since they should never be treated as failures.
pub open spec fn spec_error_from_vk_result(code: i32) -> SpecRendererError {
    if code == 0 {
        // SUCCESS
        SpecRendererError::LogicError("Success treated as failure!"@)
    } else if code == 1 {
        // NOT_READY
        SpecRendererError::ExpectedResourceNotReadyError
    } else if code == 2 {
        // TIMEOUT
        SpecRendererError::OperationTimedOutError
    } else if code == 3 {
        // EVENT_SET
        SpecRendererError::LogicError("Event being set treated as failure!"@)
    } else if code == 4 {
        // EVENT_RESET
        SpecRendererError::LogicError("Event being reset treated as failure!"@)
    } else if code == 5 {
        // INCOMPLETE
        SpecRendererError::IncompleteResultReturnedError
    } else if code == -1 {
        // ERROR_OUT_OF_HOST_MEMORY
        SpecRendererError::HostMemoryExceededError
    } else if code == -2 {
        // ERROR_OUT_OF_DEVICE_MEMORY
        SpecRendererError::DeviceMemoryExceededError
    } else if code == -3 {
        // ERROR_INITIALIZATION_FAILED
        SpecRendererError::ObjectInitialisationFailedError
    } else if code == -4 {
        // ERROR_DEVICE_LOST
        SpecRendererError::LogicalDeviceLostError
    } else if code == -5 {
        // ERROR_MEMORY_MAP_FAILED
        SpecRendererError::MemoryMapFailedError
    } else if code == -6 {
        // ERROR_LAYER_NOT_PRESENT
        SpecRendererError::LayerSpecifiedNotPresentError
    } else if code == -7 {
        // ERROR_EXTENSION_NOT_PRESENT
        SpecRendererError::ExtensionSpecifiedNotPresentError
    } else if code == -8 {
        // ERROR_FEATURE_NOT_PRESENT
        SpecRendererError::FeatureSpecifiedNotPresentError
    } else if code == -9 {
        // ERROR_INCOMPATIBLE_DRIVER
        SpecRendererError::IncompatibleDriverError
    } else if code == -10 {
        // ERROR_TOO_MANY_OBJECTS
        SpecRendererError::TooManyObjectError
    } else if code == -11 {
        // ERROR_FORMAT_NOT_SUPPORTED
        SpecRendererError::FormatSpecifiedNotSupportedError
    } else if code == -12 {
        // ERROR_FRAGMENTED_POOL
        SpecRendererError::PoolMemoryFragmentationError
    } else if code == -13 {
        // ERROR_UNKNOWN
        SpecRendererError::UnknownError
    } else if code == -1_000_000_000 {
        // ERROR_SURFACE_LOST_KHR
        SpecRendererError::KhrSurfaceLostError
    } else if code == -1_000_000_001 {
        // ERROR_NATIVE_WINDOW_IN_USE_KHR
        SpecRendererError::KhrNativeWindowInUseError
    } else if code == 1_000_001_003 {
        // SUBOPTIMAL_KHR
        SpecRendererError::LogicError("Suboptimal KHR treated as failure!"@)
    } else if code == -1_000_001_004 {
        // ERROR_OUT_OF_DATE_KHR
        SpecRendererError::KhrSwapchainOutOfDateError
    } else if code == -1_000_003_001 {
        // ERROR_INCOMPATIBLE_DISPLAY_KHR
        SpecRendererError::KhrIncompatibleDisplayForSwapchainError
    } else if code == -1_000_011_001 {
        // ERROR_VALIDATION_FAILED_EXT
        SpecRendererError::ExtDebugReportValidationFailedError
    } else if code == -1_000_012_000 {
        // ERROR_INVALID_SHADER_NV
        SpecRendererError::NvGlslShaderInvalidError
    } else if code == -1_000_023_000 {
        // ERROR_IMAGE_USAGE_NOT_SUPPORTED_KHR
        SpecRendererError::KhrVideoQueueImageNotSupportedError
    } else if code == -1_000_023_001 {
        // ERROR_VIDEO_PICTURE_LAYOUT_NOT_SUPPORTED_KHR
        SpecRendererError::KhrVideoQueuePictureLayoutNotSupportedError
    } else if code == -1_000_023_002 {
        // ERROR_VIDEO_PROFILE_OPERATION_NOT_SUPPORTED_KHR
        SpecRendererError::KhrVideoQueueProfileOperationNotSupportedError
    } else if code == -1_000_023_003 {
        // ERROR_VIDEO_PROFILE_FORMAT_NOT_SUPPORTED_KHR
        SpecRendererError::KhrVideoQueueProfileFormatNotSupportedError
    } else if code == -1_000_023_004 {
        // ERROR_VIDEO_PROFILE_CODEC_NOT_SUPPORTED_KHR
        SpecRendererError::KhrVideoQueueProfileCodecNotSupportedError
    } else if code == -1_000_023_005 {
        // ERROR_VIDEO_STD_VERSION_NOT_SUPPORTED_KHR
        SpecRendererError::KhrVideoQueueStdVersionNotSupportedError
    } else if code == -1_000_069_000 {
        // ERROR_OUT_OF_POOL_MEMORY_KHR
        SpecRendererError::PoolMemoryExceededError
    } else if code == -1_000_072_003 {
        // ERROR_INVALID_EXTERNAL_HANDLE_KHR
        SpecRendererError::MemoryInvalidExternalHandleError
    } else if code == -1_000_158_000 {
        // ERROR_INVALID_DRM_FORMAT_MODIFIER_PLANE_LAYOUT_EXT
        SpecRendererError::ExtImageDrmFormatModifierInvalidLayoutError
    } else if code == -1_000_161_000 {
        // ERROR_FRAGMENTATION_EXT
        SpecRendererError::DescriptorFragmentationError
    } else if code == -1_000_174_001 {
        // ERROR_NOT_PERMITTED_EXT
        SpecRendererError::GlobalPriorityNotPermittedError
    } else if code == -1_000_257_000 {
        // ERROR_INVALID_DEVICE_ADDRESS_EXT
        SpecRendererError::BufferDeviceAddressInvalidError
    } else if code == -1_000_255_000 {
        // ERROR_FULL_SCREEN_EXCLUSIVE_MODE_LOST_EXT
        SpecRendererError::ExtFullScreenExclusiveModeLostError
    } else if code == 1_000_268_000 {
        // THREAD_IDLE_KHR
        SpecRendererError::LogicError("Thread idle treated as failure!"@)
    } else if code == 1_000_268_001 {
        // THREAD_DONE_KHR
        SpecRendererError::LogicError("Thread done treated as failure!"@)
    } else if code == 1_000_268_002 {
        // OPERATION_DEFERRED_KHR
        SpecRendererError::LogicError("Operation deferred treated as failure!"@)
    } else if code == 1_000_268_003 {
        // OPERATION_NOT_DEFERRED_KHR
        SpecRendererError::LogicError("Operation not deferred treated as failure!"@)
    } else if code == 1_000_297_000 {
        // PIPELINE_COMPILE_REQUIRED_EXT
        SpecRendererError::PipelineCompileRequiredError
    } else if code == -1_000_299_000 {
        // ERROR_INVALID_VIDEO_STD_PARAMETERS_KHR
        SpecRendererError::KhrVideoStdParametersInvalidError
    } else if code == -1_000_338_000 {
        // ERROR_COMPRESSION_EXHAUSTED_EXT
        SpecRendererError::ExtImageCompressionExhaustedError
    } else if code == 1_000_482_000 {
        // INCOMPATIBLE_SHADER_BINARY_EXT
        SpecRendererError::ExtIncompatibleShaderBinaryError
    } else {
        SpecRendererError::UnknownVkResult(code)
    }
}

impl RendererError {
    /// The error that a Vulkan result code stands for.
    pub fn from_vk_result(code: i32) -> (e: Self)
        ensures
            e@ == spec_error_from_vk_result(code),
    {
        if code == 0 {
            RendererError::LogicError("Success treated as failure!".to_owned())
        } else if code == 1 {
            RendererError::ExpectedResourceNotReadyError
        } else if code == 2 {
            RendererError::OperationTimedOutError
        } else if code == 3 {
            RendererError::LogicError("Event being set treated as failure!".to_owned())
        } else if code == 4 {
            RendererError::LogicError("Event being reset treated as failure!".to_owned())
        } else if code == 5 {
            RendererError::IncompleteResultReturnedError
        } else if code == -1 {
            RendererError::HostMemoryExceededError
        } else if code == -2 {
            RendererError::DeviceMemoryExceededError
        } else if code == -3 {
            RendererError::ObjectInitialisationFailedError
        } else if code == -4 {
            RendererError::LogicalDeviceLostError
        } else if code == -5 {
            RendererError::MemoryMapFailedError
        } else if code == -6 {
            RendererError::LayerSpecifiedNotPresentError
        } else if code == -7 {
            RendererError::ExtensionSpecifiedNotPresentError
        } else if code == -8 {
            RendererError::FeatureSpecifiedNotPresentError
        } else if code == -9 {
            RendererError::IncompatibleDriverError
        } else if code == -10 {
            RendererError::TooManyObjectError
        } else if code == -11 {
            RendererError::FormatSpecifiedNotSupportedError
        } else if code == -12 {
            RendererError::PoolMemoryFragmentationError
        } else if code == -13 {
            RendererError::UnknownError
        } else if code == -1_000_000_000 {
            RendererError::KhrSurfaceLostError
        } else if code == -1_000_000_001 {
            RendererError::KhrNativeWindowInUseError
        } else if code == 1_000_001_003 {
            RendererError::LogicError("Suboptimal KHR treated as failure!".to_owned())
        } else if code == -1_000_001_004 {
            RendererError::KhrSwapchainOutOfDateError
        } else if code == -1_000_003_001 {
            RendererError::KhrIncompatibleDisplayForSwapchainError
        } else if code == -1_000_011_001 {
            RendererError::ExtDebugReportValidationFailedError
        } else if code == -1_000_012_000 {
            RendererError::NvGlslShaderInvalidError
        } else if code == -1_000_023_000 {
            RendererError::KhrVideoQueueImageNotSupportedError
        } else if code == -1_000_023_001 {
            RendererError::KhrVideoQueuePictureLayoutNotSupportedError
        } else if code == -1_000_023_002 {
            RendererError::KhrVideoQueueProfileOperationNotSupportedError
        } else if code == -1_000_023_003 {
            RendererError::KhrVideoQueueProfileFormatNotSupportedError
        } else if code == -1_000_023_004 {
            RendererError::KhrVideoQueueProfileCodecNotSupportedError
        } else if code == -1_000_023_005 {
            RendererError::KhrVideoQueueStdVersionNotSupportedError
        } else if code == -1_000_069_000 {
            RendererError::PoolMemoryExceededError
        } else if code == -1_000_072_003 {
            RendererError::MemoryInvalidExternalHandleError
        } else if code == -1_000_158_000 {
            RendererError::ExtImageDrmFormatModifierInvalidLayoutError
        } else if code == -1_000_161_000 {
            RendererError::DescriptorFragmentationError
        } else if code == -1_000_174_001 {
            RendererError::GlobalPriorityNotPermittedError
        } else if code == -1_000_257_000 {
            RendererError::BufferDeviceAddressInvalidError
        } else if code == -1_000_255_000 {
            RendererError::ExtFullScreenExclusiveModeLostError
        } else if code == 1_000_268_000 {
            RendererError::LogicError("Thread idle treated as failure!".to_owned())
        } else if code == 1_000_268_001 {
            RendererError::LogicError("Thread done treated as failure!".to_owned())
        } else if code == 1_000_268_002 {
            RendererError::LogicError("Operation deferred treated as failure!".to_owned())
        } else if code == 1_000_268_003 {
            RendererError::LogicError("Operation not deferred treated as failure!".to_owned())
        } else if code == 1_000_297_000 {
            RendererError::PipelineCompileRequiredError
        } else if code == -1_000_299_000 {
            RendererError::KhrVideoStdParametersInvalidError
        } else if code == -1_000_338_000 {
            RendererError::ExtImageCompressionExhaustedError
        } else if code == 1_000_482_000 {
            RendererError::ExtIncompatibleShaderBinaryError
        } else {
            RendererError::UnknownVkResult(code)
        }
    }

    /// The error for a failed start of the windowing library.
    pub fn from_glfw_init_error(error: GlfwInitError) -> (e: Self)
        ensures
            e@ == match error {
                GlfwInitError::AlreadyInitialized => SpecRendererError::GlfwEntryAlreadyExists,
                GlfwInitError::Internal => SpecRendererError::GlfwEntryCreationInternalError,
            },
    {
        match error {
            GlfwInitError::AlreadyInitialized => RendererError::GlfwEntryAlreadyExists,
            GlfwInitError::Internal => RendererError::GlfwEntryCreationInternalError,
        }
    }
}

} // verus!
