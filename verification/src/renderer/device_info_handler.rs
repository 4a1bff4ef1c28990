//! Translates what Vulkan reports about a device and its display into values that are easy to
//! use, and holds the settings wanted for the logical device.

pub mod regular_image_format_conversion_data;

use super::{Size, VulkanExtent};
use ash::vk::PhysicalDevice as PhysicalDeviceHandle;
use regular_image_format_conversion_data::{lookup_regular_image_format, regular_image_format_data};
use vstd::prelude::*;

verus! {

/// The surface capabilities of a device as Vulkan reports them; each set of flags is the raw
/// bit mask.
#[derive(Copy, Clone, Debug, PartialEq, Eq, Structural)]
pub struct VulkanSurfaceCapabilities {
    pub min_image_count: u32,
    pub max_image_count: u32,
    pub current_extent: VulkanExtent,
    pub min_image_extent: VulkanExtent,
    pub max_image_extent: VulkanExtent,
    pub max_image_array_layers: u32,
    pub supported_transforms: u32,
    pub current_transform: u32,
    pub supported_composite_alpha: u32,
    pub supported_usage_flags: u32,
}

/// A surface format as Vulkan reports it: the codes of its image format and its colour space.
#[derive(Copy, Clone, Debug, PartialEq, Eq, Structural)]
pub struct VulkanSurfaceFormat {
    pub format: i32,
    pub color_space: i32,
}

/// This stores the details about what surface information is supported.
#[derive(Clone, Debug, PartialEq, Eq)]
pub struct VulkanDisplayInfo {
    pub capabilities: VulkanSurfaceCapabilities,
    pub formats: Vec<VulkanSurfaceFormat>,
    /// The codes of the presentation modes.
    pub presentation_modes: Vec<i32>,
}

/// Whether every bit of `flag` is set in `flags`.
pub open spec fn has_flag(flags: u32, flag: u32) -> bool {
    flags & flag == flag
}

fn contains(flags: u32, flag: u32) -> (r: bool)
    ensures
        r == has_flag(flags, flag),
{
    flags & flag == flag
}

/// Stores transformations of the image.
#[derive(Copy, Clone, Debug, PartialEq, Eq, Structural)]
pub struct ImageTransformations {
    /// This transformation does nothing to the image.
    pub identity: bool,
    /// The image is rotated 90 degrees clockwise.
    pub rotate_90_degrees: bool,
    /// The image is rotated 180 degrees.
    pub rotate_180_degrees: bool,
    /// The image is rotated 270 degrees clockwise.
    pub rotate_270_degrees: bool,
    /// The image is mirrored horizontally.
    pub mirror: bool,
    /// The image is mirrored horizontally and then rotated 90 degrees clockwise
    pub mirror_and_rotate_90_degrees: bool,
    /// The image is mirrored horizontally and then rotated 180 degrees
    pub mirror_and_rotate_180_degrees: bool,
    /// The image is mirrored horizontally and then rotated 270 degrees clockwise
    pub mirror_and_rotate_270_degrees: bool,
    /// Inherit means the transformation is not specified, and is determined by platform specific
    /// considerations and mechanisms.
    pub inherit: bool,
}

/// The transformations that Vulkan surface transform flags stand for: identity `0x1`,
/// rotations by 90, 180 and 270 degrees `0x2`, `0x4` and `0x8`, horizontal mirror `0x10`,
/// mirror then rotation by 90, 180 and 270 degrees `0x20`, `0x40` and `0x80`, inherit `0x100`.
pub open spec fn transformations_from_flags(value: u32) -> ImageTransformations {
    ImageTransformations {
        identity: has_flag(value, 0x1),
        rotate_90_degrees: has_flag(value, 0x2),
        rotate_180_degrees: has_flag(value, 0x4),
        rotate_270_degrees: has_flag(value, 0x8),
        mirror: has_flag(value, 0x10),
        mirror_and_rotate_90_degrees: has_flag(value, 0x20),
        mirror_and_rotate_180_degrees: has_flag(value, 0x40),
        mirror_and_rotate_270_degrees: has_flag(value, 0x80),
        inherit: has_flag(value, 0x100),
    }
}

impl ImageTransformations {
    /// Reads the transformations from Vulkan surface transform flags.
    pub fn from(value: u32) -> (t: Self)
        ensures
            t == transformations_from_flags(value),
    {
        Self {
            identity: contains(value, 0x1),
            rotate_90_degrees: contains(value, 0x2),
            rotate_180_degrees: contains(value, 0x4),
            rotate_270_degrees: contains(value, 0x8),
            mirror: contains(value, 0x10),
            mirror_and_rotate_90_degrees: contains(value, 0x20),
            mirror_and_rotate_180_degrees: contains(value, 0x40),
            mirror_and_rotate_270_degrees: contains(value, 0x80),
            inherit: contains(value, 0x100),
        }
    }
}

/// Stores how the alpha component of the image is determined.
/// If the image does not have an alpha component, these settings will not do anything (except
/// potentially inherit depending on the specific system).
#[derive(Copy, Clone, Debug, PartialEq, Eq, Structural)]
pub struct AlphaCompositingModes {
    /// The alpha is ignored, and the image is treated as a constant alpha of 1.
    pub opaque: bool,
    /// The non-alpha components are expected to already be multiplied by the alpha component, and
    /// the alpha is respected.
    pub pre_multiplied: bool,
    /// The non-alpha components are not expected to already be multiplied by the alpha component,
    /// and the compositor will multiply the non-alpha components by the alpha component, and the
    /// alpha is respected.
    pub post_multiplied: bool,
    /// The way that the alpha component is used is platform-specific.
    pub inherit: bool,
}

/// The modes that Vulkan composite alpha flags stand for: opaque `0x1`, pre-multiplied `0x2`,
/// post-multiplied `0x4`, inherit `0x8`.
pub open spec fn alpha_modes_from_flags(value: u32) -> AlphaCompositingModes {
    AlphaCompositingModes {
        opaque: has_flag(value, 0x1),
        pre_multiplied: has_flag(value, 0x2),
        post_multiplied: has_flag(value, 0x4),
        inherit: has_flag(value, 0x8),
    }
}

impl AlphaCompositingModes {
    /// Reads the modes from Vulkan composite alpha flags.
    pub fn from(value: u32) -> (m: Self)
        ensures
            m == alpha_modes_from_flags(value),
    {
        Self {
            opaque: contains(value, 0x1),
            pre_multiplied: contains(value, 0x2),
            post_multiplied: contains(value, 0x4),
            inherit: contains(value, 0x8),
        }
    }
}

/// Specifies how an image is used.
#[derive(Copy, Clone, Debug, PartialEq, Eq, Structural)]
pub struct ImageUsages {}

impl ImageUsages {
    /// Reads the usages from Vulkan image usage flags; no usage is recorded yet.
    pub fn from(_value: u32) -> (u: Self)
        ensures
            u == (ImageUsages {  }),
    {
        ImageUsages {  }
    }
}

/// Specifies how an image is used, flag by flag.
#[derive(Copy, Clone, Debug, PartialEq, Eq, Structural)]
pub struct VulkanImageUsages {
    /// Can be used as a source of transfer operations.
    pub transfer_source: bool,
    /// Can be used as a destination for transfer operations.
    pub transfer_destination: bool,
    /// Can be sampled from by shaders, and create an image view which can be used for a sampler.
    pub sampled: bool,
    /// Can create an image view which can be used for image storage.
    pub storage: bool,
    /// Can create an image view which can be used in a framebuffer.
    pub colour_attachment: bool,
    /// Can create an image view which can be used as a depth/stencil or depth/stencil resolve
    /// attachment in a framebuffer.
    pub depth_stencil_attachment: bool,
    /// Can create an image view which can be used as a descriptor set, can be read from a
    /// shader as an input attachment, and can be used as an input attachment to a framebuffer.
    pub input_attachment: bool,
    /// Can be used as a decode output picture in a video decode operation.
    pub video_decode_destination: bool,
    /// Can be used as an output reconstructed picture or an input reference picture in a video
    /// decode operation.
    pub video_decode_decoded_picture_buffer: bool,
    /// Can be used as an encode input picture in a video decode operation.
    pub video_encode_source: bool,
    /// Can be used as an output reconstructed picture or an input reference picture in a video
    /// encode operation.
    pub video_encode_decoded_picture_buffer: bool,
    /// Can create an image view which can be used as a fragment shading rate attachment.
    pub shading_rate_image: bool,
    /// Can create an image view which can be used as a fragment density map image.
    pub fragment_density_map: bool,
    /// Can create an image view which can be used as a fragment shading rate attachment, or as a
    /// shading rate image.
    pub fragment_shading_rate_attachment: bool,
    /// Can be used with host copy commands and host layout transitions.
    pub host_transfer: bool,
}

/// The usages that Vulkan image usage flags stand for. The video encode source usage is read
/// from the video encode source flag `0x4000`, and the shading rate image usage from the
/// fragment shading rate attachment flag `0x100`, which has the same value.
pub open spec fn vulkan_usages_from_flags(value: u32) -> VulkanImageUsages {
    VulkanImageUsages {
        transfer_source: has_flag(value, 0x1),
        transfer_destination: has_flag(value, 0x2),
        sampled: has_flag(value, 0x4),
        storage: has_flag(value, 0x8),
        colour_attachment: has_flag(value, 0x10),
        depth_stencil_attachment: has_flag(value, 0x20),
        input_attachment: has_flag(value, 0x80),
        video_decode_destination: has_flag(value, 0x400),
        video_decode_decoded_picture_buffer: has_flag(value, 0x1000),
        video_encode_source: has_flag(value, 0x4000),
        video_encode_decoded_picture_buffer: has_flag(value, 0x8000),
        shading_rate_image: has_flag(value, 0x100),
        fragment_density_map: has_flag(value, 0x200),
        fragment_shading_rate_attachment: has_flag(value, 0x100),
        host_transfer: has_flag(value, 0x40_0000),
    }
}

impl VulkanImageUsages {
    /// Reads the usages from Vulkan image usage flags.
    pub fn from(value: u32) -> (u: Self)
        ensures
            u == vulkan_usages_from_flags(value),
    {
        Self {
            transfer_source: contains(value, 0x1),
            transfer_destination: contains(value, 0x2),
            sampled: contains(value, 0x4),
            storage: contains(value, 0x8),
            colour_attachment: contains(value, 0x10),
            depth_stencil_attachment: contains(value, 0x20),
            input_attachment: contains(value, 0x80),
            video_decode_destination: contains(value, 0x400),
            video_decode_decoded_picture_buffer: contains(value, 0x1000),
            video_encode_source: contains(value, 0x4000),
            video_encode_decoded_picture_buffer: contains(value, 0x8000),
            shading_rate_image: contains(value, 0x100),
            fragment_density_map: contains(value, 0x200),
            fragment_shading_rate_attachment: contains(value, 0x100),
            host_transfer: contains(value, 0x40_0000),
        }
    }
}

/// What capabilities a physical device has.
#[derive(Copy, Clone, Debug, PartialEq, Eq, Structural)]
pub struct Capabilities {
    /// The minimum number of images that can be in the swapchain.
    pub min_swapchain_image_count: u32,
    /// The maximum number of images that can be in the swapchain.
    pub max_swapchain_image_count: u32,
    /// The current size of the image size to be displayed in pixels.
    /// A None for current_image_size is a special value meaning that the size of the image depends
    /// on the size of the provided swapchain.
    pub current_image_size: Option<Size>,
    /// The minimum size of the swapchain in pixels.
    pub min_swapchain_size: Size,
    /// The maximum size of the swapchain in pixels.
    pub max_swapchain_size: Size,
    /// The maximum number of layers to the image to be rendered to.
    pub max_number_of_image_layers: u32,
    /// The possible transformations that can be applied to the image.
    pub supported_image_transformations: ImageTransformations,
    /// The current transformations that are applied to the image.
    pub current_image_transformations: ImageTransformations,
    /// The possible alpha compositing modes that can be applied to the rendering process.
    pub supported_alpha_compositing_modes: AlphaCompositingModes,
    /// The possible usages of the image
    pub supported_image_usages: ImageUsages,
}

/// The size of an extent.
pub open spec fn size_of(e: VulkanExtent) -> Size {
    Size { x: e.width, y: e.height }
}

/// The capabilities that Vulkan's surface capabilities describe. A current extent of
/// `0xFFFFFFFF` by `0xFFFFFFFF` means that the image size follows the swapchain, and gives no
/// current size.
pub open spec fn capabilities_from(value: VulkanSurfaceCapabilities) -> Capabilities {
    Capabilities {
        min_swapchain_image_count: value.min_image_count,
        max_swapchain_image_count: value.max_image_count,
        current_image_size: if value.current_extent.width == 0xFFFF_FFFF
            && value.current_extent.height == 0xFFFF_FFFF {
            None
        } else {
            Some(size_of(value.current_extent))
        },
        min_swapchain_size: size_of(value.min_image_extent),
        max_swapchain_size: size_of(value.max_image_extent),
        max_number_of_image_layers: value.max_image_array_layers,
        supported_image_transformations: transformations_from_flags(value.supported_transforms),
        current_image_transformations: transformations_from_flags(value.current_transform),
        supported_alpha_compositing_modes: alpha_modes_from_flags(value.supported_composite_alpha),
        supported_image_usages: ImageUsages {  },
    }
}

impl Capabilities {
    /// Reads the capabilities from what Vulkan reports.
    pub fn from(value: VulkanSurfaceCapabilities) -> (c: Self)
        ensures
            c == capabilities_from(value),
    {
        let current_image_size = if value.current_extent.width == 0xFFFF_FFFF
            && value.current_extent.height == 0xFFFF_FFFF {
            None
        } else {
            Some(Size::from(value.current_extent))
        };
        Self {
            min_swapchain_image_count: value.min_image_count,
            max_swapchain_image_count: value.max_image_count,
            current_image_size,
            min_swapchain_size: Size::from(value.min_image_extent),
            max_swapchain_size: Size::from(value.max_image_extent),
            max_number_of_image_layers: value.max_image_array_layers,
            supported_image_transformations: ImageTransformations::from(value.supported_transforms),
            current_image_transformations: ImageTransformations::from(value.current_transform),
            supported_alpha_compositing_modes: AlphaCompositingModes::from(
                value.supported_composite_alpha,
            ),
            supported_image_usages: ImageUsages::from(value.supported_usage_flags),
        }
    }
}

/// An image format and colour space pair.
#[derive(Copy, Clone, Debug, PartialEq, Eq, Structural)]
pub struct Format {
    /// The format that the image will use.
    pub image_format: ImageFormat,
    pub colour_space: ColourSpace,
}

/// Why a surface format could not be read: the code of the image format or of the colour space
/// that is not understood.
#[derive(Copy, Clone, Debug, PartialEq, Eq, Structural)]
pub enum FormatConversionError {
    ImageFormatError(i32),
    ColourSpaceError(i32),
}

/// The format and colour space of a Vulkan surface format, or the first of the two codes that
/// is not understood.
pub open spec fn format_from(value: VulkanSurfaceFormat) -> Result<Format, FormatConversionError> {
    match image_format_from(value.format) {
        None => Err(FormatConversionError::ImageFormatError(value.format)),
        Some(image_format) => match colour_space_from(value.color_space) {
            None => Err(FormatConversionError::ColourSpaceError(value.color_space)),
            Some(colour_space) => Ok(Format { image_format, colour_space }),
        },
    }
}

impl Format {
    /// Reads a Vulkan surface format.
    pub fn try_from(value: VulkanSurfaceFormat) -> (r: Result<Self, FormatConversionError>)
        ensures
            r == format_from(value),
    {
        let image_format = match ImageFormat::try_from(value.format) {
            Ok(fmt) => fmt,
            Err(()) => return Err(FormatConversionError::ImageFormatError(value.format)),
        };
        let colour_space = match ColourSpace::try_from(value.color_space) {
            Ok(clr) => clr,
            Err(()) => return Err(FormatConversionError::ColourSpaceError(value.color_space)),
        };
        Ok(Format { image_format, colour_space })
    }
}

/// A way that the swapchain images are presented to the screen
/// The only option that is required to be supported is FIFO.
#[non_exhaustive]
#[derive(Copy, Clone, Debug, PartialEq, Eq, Structural)]
pub enum PresentationMode {
    /// When a new image is ready, it is presented immediately, and does not wait for the vertical
    /// blanking period to update, which may result in visible tearing.
    /// No internal queuing of presentation requests is needed.
    Immediate,
    /// When a new image is waiting, the image waits for the next vertical blanking period.
    /// This prevents any tearing.
    /// Internally, a queue sized to fit one image is used to hold the presentation requests.
    /// Any new entries to the queue when the queue is full, the new entry replaces the one already
    /// in the queue, making any images associated with the prior entry available for reuse.
    /// One request is removed from the queue whenever the queue is not empty for every vertical
    /// blanking interval.
    Mailbox,
    /// The images are held in a queue, each vertical blanking period, the image from the front of
    /// the queue is presented.
    /// One request is removed from the queue whenever the queue is not empty for every vertical
    /// blanking interval.
    FIFO,
    /// The images are held in a queue, and new ones are added to the end.
    /// The vulkan presentation engine will generally wait for the next vertical blanking period to
    /// update the current image.
    /// If the previous vertical blanking period passed with no new image in the queue to present,
    /// then the next image to reach the queue will be presented immediately.
    /// This will reduce potential stuttering, but may result in some visible tearing.
    FIFORelaxed,
}

/// The presentation mode that a Vulkan present mode code stands for: immediate `0`, mailbox `1`,
/// FIFO `2` and relaxed FIFO `3`. The shared refresh modes and unknown codes are not supported.
pub open spec fn presentation_mode_from(value: i32) -> Option<PresentationMode> {
    if value == 0 {
        Some(PresentationMode::Immediate)
    } else if value == 1 {
        Some(PresentationMode::Mailbox)
    } else if value == 2 {
        Some(PresentationMode::FIFO)
    } else if value == 3 {
        Some(PresentationMode::FIFORelaxed)
    } else {
        None
    }
}

impl PresentationMode {
    /// Reads a Vulkan present mode; a mode that is not supported is handed back as the error.
    pub fn try_from(value: i32) -> (r: Result<Self, i32>)
        ensures
            r == match presentation_mode_from(value) {
                Some(m) => Ok::<PresentationMode, i32>(m),
                None => Err(value),
            },
    {
        if value == 0 {
            Ok(PresentationMode::Immediate)
        } else if value == 1 {
            Ok(PresentationMode::Mailbox)
        } else if value == 2 {
            Ok(PresentationMode::FIFO)
        } else if value == 3 {
            Ok(PresentationMode::FIFORelaxed)
        } else {
            Err(value)
        }
    }
}

/// A colour space that the values in the image format can be interpreted in.
#[derive(Copy, Clone, Debug, PartialEq, Eq, Structural)]
pub enum ColourSpace {
    /// The images are in sRGB colour space, encoded according to the sRGB specification.
    NonLinearSRGB,
    /// The images are in extended sRGB colour space, encoded using a linear transfer function.
    LinearExtendedSRGB,
    /// The images are in extended sRGB colour space, encoded accorded to the scRGB specification.
    NonLinearExtendedSRGB,
    /// The images are in Display-p3 colour space, encoded using a linear transfer function.
    LinearDisplayP3,
    /// The images are in Display-P3 colour space, encoded using a Display-P3 transfer function.
    NonLinearDisplayP3,
    /// The images are in DCI-P3 colour space, encoded using accorded to the DCI-P3 specification
    /// Values in the image are interpreted as XYZ encoded colour data by the vulkan presentation
    /// engine underpinning this library.
    NonLinearDCIP3,
    /// The images are in BT709 colour space, encoded using a linear transfer function.
    LinearBT709,
    /// The images are in BT709 colour space, encoded according to the BT709 specification
    NonLinearBT709,
    /// The images are in BT2020 colour space, encoded using a linear transfer function.
    LinearBT2020,
    /// The images are using the HDR10 standard (BT2020 colour space), encoded according to the
    /// SMPTE ST2084 Perceptual Quantizer (PQ) specification.
    NonLinearBT2020UsingST2084,
    /// The images are using the HDR10 standard (BT2020 colour space), encoded according to the
    /// Hybrid Log Gamma (HLG) specification.
    NonLinearBT2020UsingHLG,
    /// The images are in Adobe RGB colour space, encoded using a linear transfer function.
    LinearAdobeRGB,
    /// The images are in Adobe RGB colour space, encoding according to the Adobe RGB specification.
    NonLinearAdobeRGB,
    /// The images are in no particular colour space, rather the colour components are used as is.
    /// This is intended to allow applications to use colour spaces not explicitly supported.
    PassThrough,
    /// The images are in the display's native colour space.
    /// This matches the expectations of AMD's FreeSync2 standard, for any displays that support it.
    Native,
}

/// The colour space that a Vulkan colour space code stands for. Dolby Vision
/// (`1_000_104_009`) and unknown codes are not supported.
pub open spec fn colour_space_from(value: i32) -> Option<ColourSpace> {
    if value == 0 {
        Some(ColourSpace::NonLinearSRGB)
    } else if value == 1_000_104_001 {
        Some(ColourSpace::NonLinearDisplayP3)
    } else if value == 1_000_104_002 {
        Some(ColourSpace::LinearExtendedSRGB)
    } else if value == 1_000_104_003 {
        Some(ColourSpace::LinearDisplayP3)
    } else if value == 1_000_104_004 {
        Some(ColourSpace::NonLinearDCIP3)
    } else if value == 1_000_104_005 {
        Some(ColourSpace::LinearBT709)
    } else if value == 1_000_104_006 {
        Some(ColourSpace::NonLinearBT709)
    } else if value == 1_000_104_007 {
        Some(ColourSpace::LinearBT2020)
    } else if value == 1_000_104_008 {
        Some(ColourSpace::NonLinearBT2020UsingST2084)
    } else if value == 1_000_104_010 {
        Some(ColourSpace::NonLinearBT2020UsingHLG)
    } else if value == 1_000_104_011 {
        Some(ColourSpace::LinearAdobeRGB)
    } else if value == 1_000_104_012 {
        Some(ColourSpace::NonLinearAdobeRGB)
    } else if value == 1_000_104_013 {
        Some(ColourSpace::PassThrough)
    } else if value == 1_000_104_014 {
        Some(ColourSpace::NonLinearExtendedSRGB)
    } else if value == 1_000_213_000 {
        Some(ColourSpace::Native)
    } else {
        None
    }
}

impl ColourSpace {
    /// Reads a Vulkan colour space.
    pub fn try_from(value: i32) -> (r: Result<Self, ()>)
        ensures
            r == match colour_space_from(value) {
                Some(c) => Ok::<ColourSpace, ()>(c),
                None => Err(()),
            },
    {
        if value == 0 {
            Ok(Self::NonLinearSRGB)
        } else if value == 1_000_104_001 {
            Ok(Self::NonLinearDisplayP3)
        } else if value == 1_000_104_002 {
            Ok(Self::LinearExtendedSRGB)
        } else if value == 1_000_104_003 {
            Ok(Self::LinearDisplayP3)
        } else if value == 1_000_104_004 {
            Ok(Self::NonLinearDCIP3)
        } else if value == 1_000_104_005 {
            Ok(Self::LinearBT709)
        } else if value == 1_000_104_006 {
            Ok(Self::NonLinearBT709)
        } else if value == 1_000_104_007 {
            Ok(Self::LinearBT2020)
        } else if value == 1_000_104_008 {
            Ok(Self::NonLinearBT2020UsingST2084)
        } else if value == 1_000_104_010 {
            Ok(Self::NonLinearBT2020UsingHLG)
        } else if value == 1_000_104_011 {
            Ok(Self::LinearAdobeRGB)
        } else if value == 1_000_104_012 {
            Ok(Self::NonLinearAdobeRGB)
        } else if value == 1_000_104_013 {
            Ok(Self::PassThrough)
        } else if value == 1_000_104_014 {
            Ok(Self::NonLinearExtendedSRGB)
        } else if value == 1_000_213_000 {
            Ok(Self::Native)
        } else {
            Err(())
        }
    }
}

/// An image format.
#[non_exhaustive]
#[derive(Copy, Clone, Debug, PartialEq, Eq, Structural)]
pub enum ImageFormat {
    RegularFormat(RegularImageFormat),
}

/// The image format that a Vulkan format code stands for: only the regular formats are
/// understood.
pub open spec fn image_format_from(value: i32) -> Option<ImageFormat> {
    match regular_image_format_data(value) {
        Some(f) => Some(ImageFormat::RegularFormat(f)),
        None => None,
    }
}

impl ImageFormat {
    /// Reads a Vulkan format.
    pub fn try_from(value: i32) -> (r: Result<Self, ()>)
        ensures
            r == match image_format_from(value) {
                Some(f) => Ok::<ImageFormat, ()>(f),
                None => Err(()),
            },
    {
        match RegularImageFormat::try_from(value) {
            Ok(fmt) => Ok(ImageFormat::RegularFormat(fmt)),
            Err(()) => Err(()),
        }
    }
}

/// An image format with some number (potentially 0) of bits in the red, green, blue, and alpha
/// channels, with each pixel having its own data, packed into a bitstring.
#[derive(Copy, Clone, Debug, PartialEq, Eq, Structural)]
pub struct RegularImageFormat {
    /// The number of bits in the red channel.
    pub red_channel: u8,
    /// The number of bits in the green channel.
    pub green_channel: u8,
    /// The number of bits in the blue channel.
    pub blue_channel: u8,
    /// The number of bits in the alpha channel.
    pub alpha_channel: u8,
    /// The number of bits in the depth channel.
    pub depth_channel: u8,
    /// The unused bits of the structure.
    pub unused_bits: u8,
    /// Stores if the data channels are signed or not.
    pub signed: bool,
    /// Stores if the data is packed or not.
    /// On a packed data format, the data is stored in one big integer, and the first element in the
    /// order takes the least significant bits, all the way to the most significant bits for the
    /// last element.
    /// On a non-packed data format, the data is stored in a byte array, with the first elements of
    /// the order having the lower index bytes, and the later elements having the higher index.
    /// Non-packed data formats are only available when each element takes an integer number of
    /// bytes.
    /// Some formats have a number of bits not equal to a full number of bytes, and unused bits
    /// after that to fill the gaps.
    /// For these, if packed is true, then the group of bits with the unused ones at the end form an
    /// unpacked word, and it is these words which are then packed
    pub packed: bool,
    /// Stores the order that the data is packed into the bitstring in.
    pub order: RegularImageFormatOrder,
    /// The way that the data is converted when passed to the shader.
    pub data_conversion: RegularImageFormatConversion,
}

impl RegularImageFormat {
    /// Looks a Vulkan format up in the table of regular formats.
    pub fn try_from(value: i32) -> (r: Result<Self, ()>)
        ensures
            r == match regular_image_format_data(value) {
                Some(f) => Ok::<RegularImageFormat, ()>(f),
                None => Err(()),
            },
    {
        match lookup_regular_image_format(value) {
            Some(f) => Ok(f),
            None => Err(()),
        }
    }
}

/// The order that the data is packed into the data structure for when it is ambiguous (e.g. when
/// the channels are packed into an int).
#[non_exhaustive]
#[derive(Copy, Clone, Debug, PartialEq, Eq, Structural)]
pub enum RegularImageFormatOrder {
    R,
    D,
    RG,
    RX,
    RGB,
    BGR,
    RGBA,
    BGRA,
    ARGB,
    ABGR,
    RXGX,
    RXGXBXAX,
}

/// This describes how the data gets converted when passed to the shader.
#[derive(Copy, Clone, Debug, PartialEq, Eq, Structural)]
pub enum RegularImageFormatConversion {
    /// The data is stored as an integer given to the shaders as an integer directly.
    Int,
    /// The data is stored as an integer, and cast as a float, the value of which is equal to the
    /// value of the integer stored when passed to the shader.
    Scaled,
    /// The data is stored as an integer and cast as a float when passed to the shader.
    /// The value of the cast float is normalized to between 0 and 1 inclusively for an unsigned
    /// data type, and between -1 and 1 for a signed data type.
    Norm,
    /// The data is stored directly as a float type, and is passed as such to the shader.
    Float,
    /// The values are interpreted using sRGB non-linear encoding.
    /// Data with this type is always unsigned.
    SRGB,
}

/// The formats of a list of Vulkan surface formats that can be read, in their order; the others
/// are left out.
pub open spec fn readable_formats(formats: Seq<VulkanSurfaceFormat>) -> Seq<Format>
    decreases formats.len(),
{
    if formats.len() == 0 {
        Seq::empty()
    } else {
        let earlier = readable_formats(formats.drop_last());
        match format_from(formats.last()) {
            Ok(f) => earlier.push(f),
            Err(_) => earlier,
        }
    }
}

/// The supported presentation modes of a list of Vulkan present mode codes, in their order; the
/// others are left out.
pub open spec fn supported_modes(modes: Seq<i32>) -> Seq<PresentationMode>
    decreases modes.len(),
{
    if modes.len() == 0 {
        Seq::empty()
    } else {
        let earlier = supported_modes(modes.drop_last());
        match presentation_mode_from(modes.last()) {
            Some(m) => earlier.push(m),
            None => earlier,
        }
    }
}

/// The info about a specific device, including the capabilities of the device, the formats that
/// the rendering can be done in, and the presentation modes available.
#[derive(Clone, Debug, PartialEq, Eq)]
pub struct DeviceInfo {
    /// The capabilities of the device.
    pub capabilities: Capabilities,
    /// The formats that can be rendered in.
    pub available_formats: Vec<Format>,
    /// The presentation modes that are available.
    pub presentation_modes: Vec<PresentationMode>,
}

fn read_formats(formats: &Vec<VulkanSurfaceFormat>) -> (r: Vec<Format>)
    ensures
        r@ == readable_formats(formats@),
{
    let mut out: Vec<Format> = Vec::new();
    let mut i: usize = 0;
    while i < formats.len()
        invariant
            i <= formats@.len(),
            out@ == readable_formats(formats@.take(i as int)),
        decreases formats@.len() - i,
    {
        assert(formats@.take(i + 1).drop_last() == formats@.take(i as int));
        match Format::try_from(formats[i]) {
            Ok(f) => out.push(f),
            Err(_) => {},
        }
        i = i + 1;
    }
    assert(formats@.take(formats@.len() as int) == formats@);
    out
}

fn read_modes(modes: &Vec<i32>) -> (r: Vec<PresentationMode>)
    ensures
        r@ == supported_modes(modes@),
{
    let mut out: Vec<PresentationMode> = Vec::new();
    let mut i: usize = 0;
    while i < modes.len()
        invariant
            i <= modes@.len(),
            out@ == supported_modes(modes@.take(i as int)),
        decreases modes@.len() - i,
    {
        assert(modes@.take(i + 1).drop_last() == modes@.take(i as int));
        match PresentationMode::try_from(modes[i]) {
            Ok(m) => out.push(m),
            Err(_) => {},
        }
        i = i + 1;
    }
    assert(modes@.take(modes@.len() as int) == modes@);
    out
}

impl DeviceInfo {
    /// Reads what Vulkan reports about a device's display: the formats and presentation modes
    /// that are not understood are left out, and the others keep their order.
    pub fn from(value: VulkanDisplayInfo) -> (d: Self)
        ensures
            d.capabilities == capabilities_from(value.capabilities),
            d.available_formats@ == readable_formats(value.formats@),
            d.presentation_modes@ == supported_modes(value.presentation_modes@),
    {
        DeviceInfo {
            capabilities: Capabilities::from(value.capabilities),
            available_formats: read_formats(&value.formats),
            presentation_modes: read_modes(&value.presentation_modes),
        }
    }
}

/// A Vulkan physical device handle, carried through unchanged.
#[verifier::external_type_specification]
#[verifier::external_body]
pub struct ExPhysicalDeviceHandle(PhysicalDeviceHandle);

/// `Clone::clone` of ash's physical device handle, which derives `Clone` and `Copy`: the clone is
/// the same handle.
pub assume_specification[ <PhysicalDeviceHandle as Clone>::clone ](
    handle: &PhysicalDeviceHandle,
) -> (copy: PhysicalDeviceHandle)
    ensures
        copy == *handle,
;

/// A struct holding a potential physical device in a way that is easily usable.
#[derive(Clone, Debug, PartialEq, Eq)]
pub struct PhysicalDevice {
    /// The information about what this device can be used for.
    pub device_info: DeviceInfo,
    /// The Vulkan handle of the device.
    pub device: PhysicalDeviceHandle,
}

/// A struct storing the info about what settings we want for our logical device.
#[derive(Clone, Debug, PartialEq, Eq)]
pub struct LogicalDeviceSettings {
    pub(crate) physical_device: PhysicalDevice,
    /// The data format of the images.
    pub(crate) format: VulkanSurfaceFormat,
    /// The code of the presentation mode of the images.
    pub(crate) mode: i32,
    /// The size of the swapchain images.
    pub(crate) size: VulkanExtent,
    pub(crate) num_swap_frames: u8,
}

/// The value of a [`LogicalDeviceSettings`]: each of its settings.
pub struct LogicalDeviceSettingsView {
    pub physical_device: PhysicalDevice,
    pub format: VulkanSurfaceFormat,
    pub mode: i32,
    pub size: VulkanExtent,
    pub num_swap_frames: u8,
}

impl View for LogicalDeviceSettings {
    type V = LogicalDeviceSettingsView;

    closed spec fn view(&self) -> LogicalDeviceSettingsView {
        LogicalDeviceSettingsView {
            physical_device: self.physical_device,
            format: self.format,
            mode: self.mode,
            size: self.size,
            num_swap_frames: self.num_swap_frames,
        }
    }
}

impl LogicalDeviceSettings {
    /// Returns the physical device that is currently stored within the settings.
    pub fn get_physical_device(&self) -> (d: &PhysicalDevice)
        ensures
            *d == self@.physical_device,
    {
        &self.physical_device
    }

    /// Sets the physical device to be used; the other settings stay as they are.
    pub fn with_physical_device(self, device: PhysicalDevice) -> (s: Self)
        ensures
            s@ == (LogicalDeviceSettingsView { physical_device: device, ..self@ }),
    {
        let mut settings = self;
        settings.physical_device = device;
        settings
    }

    /// Returns the number of swap frames that is currently stored within the settings.
    pub fn get_num_swap_frames(&self) -> (n: u8)
        ensures
            n == self@.num_swap_frames,
    {
        self.num_swap_frames
    }

    /// Sets the number of swap frames to be used; the other settings stay as they are.
    pub fn with_num_swap_frames(self, num_swap_frames: u8) -> (s: Self)
        ensures
            s@ == (LogicalDeviceSettingsView { num_swap_frames, ..self@ }),
    {
        let mut settings = self;
        settings.num_swap_frames = num_swap_frames;
        settings
    }
}

/// Reading surface capabilities keeps what Vulkan reported: the image counts, the minimum and
/// maximum sizes with their widths and heights, the number of layers, and the current size,
/// which is left out exactly when both its sides are `0xFFFFFFFF`; each transformation and alpha
/// mode is there exactly when its bit is set.
pub proof fn law_capabilities_keep_reported_values(value: VulkanSurfaceCapabilities)
    ensures
        capabilities_from(value).min_swapchain_image_count == value.min_image_count,
        capabilities_from(value).max_swapchain_image_count == value.max_image_count,
        capabilities_from(value).min_swapchain_size.x == value.min_image_extent.width,
        capabilities_from(value).min_swapchain_size.y == value.min_image_extent.height,
        capabilities_from(value).max_swapchain_size.x == value.max_image_extent.width,
        capabilities_from(value).max_swapchain_size.y == value.max_image_extent.height,
        capabilities_from(value).max_number_of_image_layers == value.max_image_array_layers,
        capabilities_from(value).current_image_size is None <==> (value.current_extent.width
            == 0xFFFF_FFFF && value.current_extent.height == 0xFFFF_FFFF),
        capabilities_from(value).current_image_size matches Some(size) ==> size.x
            == value.current_extent.width && size.y == value.current_extent.height,
        capabilities_from(value).supported_image_transformations.identity == (
        value.supported_transforms & 0x1 == 0x1),
        capabilities_from(value).supported_image_transformations.rotate_90_degrees == (
        value.supported_transforms & 0x2 == 0x2),
        capabilities_from(value).supported_image_transformations.inherit == (
        value.supported_transforms & 0x100 == 0x100),
        capabilities_from(value).current_image_transformations.identity == (
        value.current_transform & 0x1 == 0x1),
        capabilities_from(value).current_image_transformations.inherit == (value.current_transform
            & 0x100 == 0x100),
        capabilities_from(value).supported_alpha_compositing_modes.opaque == (
        value.supported_composite_alpha & 0x1 == 0x1),
        capabilities_from(value).supported_alpha_compositing_modes.inherit == (
        value.supported_composite_alpha & 0x8 == 0x8),
{
}

} // verus!
