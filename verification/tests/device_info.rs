use ash::vk;
use rendering_project::renderer::device_info_handler::RegularImageFormatConversion::{
    Float, Int, Norm, Scaled, SRGB,
};
use rendering_project::renderer::device_info_handler::RegularImageFormatOrder::{
    ABGR, ARGB, BGR, BGRA, D, R, RG, RGB, RGBA, RX, RXGX, RXGXBXAX,
};
use rendering_project::renderer::device_info_handler::{
    AlphaCompositingModes, Capabilities, ColourSpace, DeviceInfo, Format, FormatConversionError,
    ImageFormat, ImageTransformations, ImageUsages, PresentationMode, RegularImageFormat,
    RegularImageFormatConversion, RegularImageFormatOrder, VulkanDisplayInfo,
    VulkanImageUsages, VulkanSurfaceCapabilities, VulkanSurfaceFormat,
};
use rendering_project::renderer::{Size, VulkanExtent};

fn surface_format(format: vk::Format, color_space: vk::ColorSpaceKHR) -> VulkanSurfaceFormat {
    VulkanSurfaceFormat { format: format.as_raw(), color_space: color_space.as_raw() }
}

fn r8_uint() -> RegularImageFormat {
    RegularImageFormat {
        red_channel: 8,
        green_channel: 0,
        blue_channel: 0,
        alpha_channel: 0,
        depth_channel: 0,
        unused_bits: 0,
        signed: false,
        packed: false,
        order: R,
        data_conversion: Int,
    }
}

#[test]
fn test_try_into_format() {
    let data = [
        (
            surface_format(vk::Format::R8_UINT, vk::ColorSpaceKHR::SRGB_NONLINEAR),
            Ok(Format {
                image_format: ImageFormat::RegularFormat(r8_uint()),
                colour_space: ColourSpace::NonLinearSRGB,
            }),
        ),
        (
            surface_format(vk::Format::UNDEFINED, vk::ColorSpaceKHR::SRGB_NONLINEAR),
            Err(FormatConversionError::ImageFormatError(vk::Format::UNDEFINED.as_raw())),
        ),
        (
            surface_format(vk::Format::R8_UINT, vk::ColorSpaceKHR::DOLBYVISION_EXT),
            Err(FormatConversionError::ColourSpaceError(
                vk::ColorSpaceKHR::DOLBYVISION_EXT.as_raw(),
            )),
        ),
        (
            surface_format(vk::Format::UNDEFINED, vk::ColorSpaceKHR::DOLBYVISION_EXT),
            Err(FormatConversionError::ImageFormatError(vk::Format::UNDEFINED.as_raw())),
        ),
        (
            surface_format(vk::Format::EAC_R11G11_UNORM_BLOCK, vk::ColorSpaceKHR::SRGB_NONLINEAR),
            Err(FormatConversionError::ImageFormatError(
                vk::Format::EAC_R11G11_UNORM_BLOCK.as_raw(),
            )),
        ),
    ];
    for test in data {
        assert_eq!(Format::try_from(test.0), test.1)
    }
}

#[test]
fn test_try_into_presentation_mode() {
    let test_data = [
        (vk::PresentModeKHR::IMMEDIATE, Ok(PresentationMode::Immediate)),
        (vk::PresentModeKHR::MAILBOX, Ok(PresentationMode::Mailbox)),
        (vk::PresentModeKHR::FIFO, Ok(PresentationMode::FIFO)),
        (vk::PresentModeKHR::FIFO_RELAXED, Ok(PresentationMode::FIFORelaxed)),
        (
            vk::PresentModeKHR::SHARED_DEMAND_REFRESH,
            Err(vk::PresentModeKHR::SHARED_DEMAND_REFRESH.as_raw()),
        ),
        (
            vk::PresentModeKHR::SHARED_CONTINUOUS_REFRESH,
            Err(vk::PresentModeKHR::SHARED_CONTINUOUS_REFRESH.as_raw()),
        ),
        (vk::PresentModeKHR::from_raw(-1), Err(-1)),
    ];
    for test in test_data {
        assert_eq!(PresentationMode::try_from(test.0.as_raw()), test.1)
    }
}

#[test]
fn test_into_image_transformations() {
    let data = [
        (vk::SurfaceTransformFlagsKHR::from_raw(0), [false, false, false, false, false, false, false, false, false]),
        (vk::SurfaceTransformFlagsKHR::IDENTITY, [true, false, false, false, false, false, false, false, false]),
        (vk::SurfaceTransformFlagsKHR::ROTATE_90, [false, true, false, false, false, false, false, false, false]),
        (vk::SurfaceTransformFlagsKHR::ROTATE_180, [false, false, true, false, false, false, false, false, false]),
        (vk::SurfaceTransformFlagsKHR::ROTATE_270, [false, false, false, true, false, false, false, false, false]),
        (vk::SurfaceTransformFlagsKHR::HORIZONTAL_MIRROR, [false, false, false, false, true, false, false, false, false]),
        (vk::SurfaceTransformFlagsKHR::HORIZONTAL_MIRROR_ROTATE_90, [false, false, false, false, false, true, false, false, false]),
        (vk::SurfaceTransformFlagsKHR::HORIZONTAL_MIRROR_ROTATE_180, [false, false, false, false, false, false, true, false, false]),
        (vk::SurfaceTransformFlagsKHR::HORIZONTAL_MIRROR_ROTATE_270, [false, false, false, false, false, false, false, true, false]),
        (vk::SurfaceTransformFlagsKHR::INHERIT, [false, false, false, false, false, false, false, false, true]),
        (vk::SurfaceTransformFlagsKHR::from_raw(0xffffffff), [true, true, true, true, true, true, true, true, true]),
    ];
    for test in data {
        assert_eq!(
            ImageTransformations::from(test.0.as_raw()),
            ImageTransformations {
                identity: test.1[0],
                rotate_90_degrees: test.1[1],
                rotate_180_degrees: test.1[2],
                rotate_270_degrees: test.1[3],
                mirror: test.1[4],
                mirror_and_rotate_90_degrees: test.1[5],
                mirror_and_rotate_180_degrees: test.1[6],
                mirror_and_rotate_270_degrees: test.1[7],
                inherit: test.1[8],
            }
        )
    }
}

#[test]
fn test_into_alpha_compositing_modes() {
    let test_data = [
        (vk::CompositeAlphaFlagsKHR::from_raw(0), false, false, false, false),
        (vk::CompositeAlphaFlagsKHR::OPAQUE, true, false, false, false),
        (vk::CompositeAlphaFlagsKHR::PRE_MULTIPLIED, false, true, false, false),
        (vk::CompositeAlphaFlagsKHR::POST_MULTIPLIED, false, false, true, false),
        (vk::CompositeAlphaFlagsKHR::INHERIT, false, false, false, true),
        (vk::CompositeAlphaFlagsKHR::from_raw(0xffffffff), true, true, true, true),
    ];
    for test in test_data {
        assert_eq!(
            AlphaCompositingModes::from(test.0.as_raw()),
            AlphaCompositingModes {
                opaque: test.1,
                pre_multiplied: test.2,
                post_multiplied: test.3,
                inherit: test.4,
            }
        )
    }
}

#[test]
fn test_into_image_usages() {
    assert_eq!(ImageUsages {}, ImageUsages::from(vk::ImageUsageFlags::from_raw(0xffffffff).as_raw()))
}

#[test]
fn test_try_into_colour_spaces() {
    let test_data = [
        (vk::ColorSpaceKHR::SRGB_NONLINEAR, Ok(ColourSpace::NonLinearSRGB)),
        (vk::ColorSpaceKHR::DISPLAY_P3_NONLINEAR_EXT, Ok(ColourSpace::NonLinearDisplayP3)),
        (vk::ColorSpaceKHR::EXTENDED_SRGB_LINEAR_EXT, Ok(ColourSpace::LinearExtendedSRGB)),
        (vk::ColorSpaceKHR::EXTENDED_SRGB_NONLINEAR_EXT, Ok(ColourSpace::NonLinearExtendedSRGB)),
        (vk::ColorSpaceKHR::DISPLAY_P3_LINEAR_EXT, Ok(ColourSpace::LinearDisplayP3)),
        (vk::ColorSpaceKHR::DCI_P3_NONLINEAR_EXT, Ok(ColourSpace::NonLinearDCIP3)),
        (vk::ColorSpaceKHR::BT709_LINEAR_EXT, Ok(ColourSpace::LinearBT709)),
        (vk::ColorSpaceKHR::BT709_NONLINEAR_EXT, Ok(ColourSpace::NonLinearBT709)),
        (vk::ColorSpaceKHR::BT2020_LINEAR_EXT, Ok(ColourSpace::LinearBT2020)),
        (vk::ColorSpaceKHR::HDR10_ST2084_EXT, Ok(ColourSpace::NonLinearBT2020UsingST2084)),
        (vk::ColorSpaceKHR::HDR10_HLG_EXT, Ok(ColourSpace::NonLinearBT2020UsingHLG)),
        (vk::ColorSpaceKHR::ADOBERGB_LINEAR_EXT, Ok(ColourSpace::LinearAdobeRGB)),
        (vk::ColorSpaceKHR::ADOBERGB_NONLINEAR_EXT, Ok(ColourSpace::NonLinearAdobeRGB)),
        (vk::ColorSpaceKHR::PASS_THROUGH_EXT, Ok(ColourSpace::PassThrough)),
        (vk::ColorSpaceKHR::DISPLAY_NATIVE_AMD, Ok(ColourSpace::Native)),
        (vk::ColorSpaceKHR::DOLBYVISION_EXT, Err(())),
        (vk::ColorSpaceKHR::from_raw(-1), Err(())),
    ];
    for test in test_data {
        assert_eq!(ColourSpace::try_from(test.0.as_raw()), test.1)
    }
}

#[test]
fn can_create_image_format_using_regular_image_format() {
    let result = ImageFormat::try_from(vk::Format::R4G4_UNORM_PACK8.as_raw());
    assert_eq!(
        result,
        Ok(ImageFormat::RegularFormat(RegularImageFormat {
            red_channel: 4,
            green_channel: 4,
            blue_channel: 0,
            alpha_channel: 0,
            depth_channel: 0,
            unused_bits: 0,
            signed: false,
            packed: true,
            order: RG,
            data_conversion: Norm,
        })),
    )
}

#[test]
fn cannot_create_image_format_from_invalid_format() {
    assert_eq!(ImageFormat::try_from(vk::Format::from_raw(-1).as_raw()), Err(()));
}

#[test]
fn cannot_create_image_format_from_undefined_format() {
    assert_eq!(ImageFormat::try_from(vk::Format::UNDEFINED.as_raw()), Err(()));
}

#[test]
fn cannot_create_image_format_from_unimplemented_format() {
    assert_eq!(ImageFormat::try_from(vk::Format::EAC_R11G11_UNORM_BLOCK.as_raw()), Err(()));
}

#[test]
fn test_try_into_image_format() {
    let data = [
        (vk::Format::R8_UINT, Ok(ImageFormat::RegularFormat(r8_uint()))),
        (vk::Format::from_raw(-1), Err(())),
        (vk::Format::UNDEFINED, Err(())),
        (vk::Format::EAC_R11G11_UNORM_BLOCK, Err(())),
    ];
    for test in data {
        assert_eq!(ImageFormat::try_from(test.0.as_raw()), test.1);
    }
}

#[test]
fn test_try_into_regular_image_format() {
    // Data format is (vk::Format, passes, red, green, blue, alpha, depth, unused, signed,
    // packed, order, conversion).
    let test_data = [
        (vk::Format::R8_SNORM, true, 8, 0, 0, 0, 0, 0, true, false, R, Norm),
        (vk::Format::R5G6B5_UNORM_PACK16, true, 5, 6, 5, 0, 0, 0, false, true, RGB, Norm),
        (
            vk::Format::R10X6G10X6B10X6A10X6_UNORM_4PACK16,
            true, 10, 10, 10, 10, 0, 24, false, true, RXGXBXAX, Norm,
        ),
        (vk::Format::D32_SFLOAT, true, 0, 0, 0, 0, 32, 0, true, false, D, Float),
        (vk::Format::R4G4_UNORM_PACK8, true, 4, 4, 0, 0, 0, 0, false, true, RG, Norm),
        (
            vk::Format::R12X4G12X4B12X4A12X4_UNORM_4PACK16,
            true, 12, 12, 12, 12, 0, 16, false, true, RXGXBXAX, Norm,
        ),
        (vk::Format::R12X4_UNORM_PACK16_KHR, true, 12, 0, 0, 0, 0, 4, false, true, RX, Norm),
        (vk::Format::from_raw(-1), false, 0, 0, 0, 0, 0, 0, false, false, R, Int),
        (vk::Format::UNDEFINED, false, 0, 0, 0, 0, 0, 0, false, false, R, Int),
        (vk::Format::EAC_R11G11_UNORM_BLOCK, false, 0, 0, 0, 0, 0, 0, false, false, R, Int),
    ];
    for test in test_data {
        if test.1 == true {
            assert_eq!(
                RegularImageFormat::try_from(test.0.as_raw()),
                Ok(RegularImageFormat {
                    red_channel: test.2,
                    green_channel: test.3,
                    blue_channel: test.4,
                    alpha_channel: test.5,
                    depth_channel: test.6,
                    unused_bits: test.7,
                    signed: test.8,
                    packed: test.9,
                    order: test.10,
                    data_conversion: test.11,
                }),
            )
        } else {
            assert_eq!(RegularImageFormat::try_from(test.0.as_raw()), Err(()))
        }
    }
}

/// Reads the layout of a regular format from its Vulkan name.
fn get_regular_image_format_stats(
    name: String,
) -> Option<([u8; 6], bool, bool, RegularImageFormatOrder, RegularImageFormatConversion)> {
    let mut words = name.split('_');

    let mut channels = [0, 0, 0, 0, 0, 0];
    let mut first_word = words.next()?.chars().peekable();
    let mut format_order_string = String::new();
    loop {
        let slot = match first_word.next() {
            Some('R') => 0,
            Some('G') => 1,
            Some('B') => 2,
            Some('A') => 3,
            Some('D') => 4,
            Some('X') => 5,
            Some(_) => return None,
            None => break,
        };
        let letter = ['R', 'G', 'B', 'A', 'D', 'X'][slot];
        channels[slot] += get_number_from_char_iterator(&mut first_word);
        format_order_string.push(letter);
    }

    let order = match format_order_string.as_str() {
        "R" => R,
        "D" => D,
        "RG" => RG,
        "RX" => RX,
        "RGB" => RGB,
        "BGR" => BGR,
        "RGBA" => RGBA,
        "BGRA" => BGRA,
        "ARGB" => ARGB,
        "ABGR" => ABGR,
        "RXGX" => RXGX,
        "RXGXBXAX" => RXGXBXAX,
        _ => return None,
    };

    let (signed, conversion) = match words.next()? {
        "UINT" => (false, Int),
        "SINT" => (true, Int),
        "USCALED" => (false, Scaled),
        "SSCALED" => (true, Scaled),
        "UNORM" => (false, Norm),
        "SNORM" => (true, Norm),
        "UFLOAT" => (false, Float),
        "SFLOAT" => (true, Float),
        "SRGB" => (false, SRGB),
        _ => return None,
    };

    let packed = match words.next() {
        Some("PACK8") => true,
        Some("PACK16") => true,
        Some("2PACK16") => true,
        Some("4PACK16") => true,
        Some("PACK32") => true,
        Some(_) => return None,
        None => false,
    };

    if words.next() != None {
        return None;
    }

    Some((channels, signed, packed, order, conversion))
}

fn get_number_from_char_iterator(chars: &mut std::iter::Peekable<std::str::Chars>) -> u8 {
    let mut val: u8 = 0;
    loop {
        match chars.peek() {
            None => return val,
            Some(c) => {
                if c.is_digit(10) {
                    val = val * 10 + c.to_digit(10).unwrap() as u8
                } else {
                    return val;
                }
            }
        }
        chars.next();
    }
}

/// Every format in the table of regular formats has the layout that its Vulkan name spells out.
#[test]
fn regular_image_format_conversion_data_correct() {
    let ranges = [0..=300, 1_000_156_000..=1_000_156_040, 1_000_340_000..=1_000_340_010, 1_000_470_000..=1_000_470_010];
    let mut found = 0;
    for range in ranges {
        for code in range {
            if let Ok(format) = RegularImageFormat::try_from(code) {
                found += 1;
                let correct = vk::Format::from_raw(code);
                let correct_data = get_regular_image_format_stats(format!("{correct:?}")).unwrap();
                assert_eq!(
                    (
                        format.red_channel,
                        format.green_channel,
                        format.blue_channel,
                        format.alpha_channel,
                        format.depth_channel,
                        format.unused_bits,
                        format.signed,
                        format.packed,
                        format.order,
                        format.data_conversion,
                    ),
                    (
                        correct_data.0[0],
                        correct_data.0[1],
                        correct_data.0[2],
                        correct_data.0[3],
                        correct_data.0[4],
                        correct_data.0[5],
                        correct_data.1,
                        correct_data.2,
                        correct_data.3,
                        correct_data.4,
                    ),
                    "{correct:?}"
                );
            }
        }
    }
    assert!(found > 100);
}

fn extent(width: u32, height: u32) -> VulkanExtent {
    VulkanExtent { width, height }
}

fn capabilities_report() -> VulkanSurfaceCapabilities {
    VulkanSurfaceCapabilities {
        min_image_count: 2,
        max_image_count: 8,
        current_extent: extent(800, 600),
        min_image_extent: extent(1, 1),
        max_image_extent: extent(4096, 4096),
        max_image_array_layers: 1,
        supported_transforms: vk::SurfaceTransformFlagsKHR::IDENTITY.as_raw(),
        current_transform: vk::SurfaceTransformFlagsKHR::IDENTITY.as_raw(),
        supported_composite_alpha: vk::CompositeAlphaFlagsKHR::OPAQUE.as_raw(),
        supported_usage_flags: vk::ImageUsageFlags::COLOR_ATTACHMENT.as_raw(),
    }
}

/// The capabilities keep the counts and sizes Vulkan reports, and a current size of all ones
/// bits means the size follows the swapchain.
#[test]
fn capabilities_are_read() {
    let capabilities = Capabilities::from(capabilities_report());
    assert_eq!(capabilities.min_swapchain_image_count, 2);
    assert_eq!(capabilities.max_swapchain_image_count, 8);
    assert_eq!(capabilities.current_image_size, Some(Size { x: 800, y: 600 }));
    assert_eq!(capabilities.max_swapchain_size, Size { x: 4096, y: 4096 });
    assert!(capabilities.supported_image_transformations.identity);
    assert!(!capabilities.supported_image_transformations.inherit);
    assert!(capabilities.supported_alpha_compositing_modes.opaque);
    let mut following = capabilities_report();
    following.current_extent = extent(0xFFFF_FFFF, 0xFFFF_FFFF);
    assert_eq!(Capabilities::from(following).current_image_size, None);
}

/// The device info keeps the formats and presentation modes that can be read, in their order.
#[test]
fn device_info_leaves_out_what_cannot_be_read() {
    let info = DeviceInfo::from(VulkanDisplayInfo {
        capabilities: capabilities_report(),
        formats: vec![
            surface_format(vk::Format::UNDEFINED, vk::ColorSpaceKHR::SRGB_NONLINEAR),
            surface_format(vk::Format::R8_UINT, vk::ColorSpaceKHR::SRGB_NONLINEAR),
            surface_format(vk::Format::R8_UINT, vk::ColorSpaceKHR::DOLBYVISION_EXT),
            surface_format(vk::Format::B8G8R8A8_SRGB, vk::ColorSpaceKHR::SRGB_NONLINEAR),
        ],
        presentation_modes: vec![
            vk::PresentModeKHR::SHARED_DEMAND_REFRESH.as_raw(),
            vk::PresentModeKHR::FIFO.as_raw(),
            vk::PresentModeKHR::MAILBOX.as_raw(),
        ],
    });
    assert_eq!(info.capabilities, Capabilities::from(capabilities_report()));
    assert_eq!(info.available_formats.len(), 2);
    assert_eq!(info.available_formats[0].image_format, ImageFormat::RegularFormat(r8_uint()));
    assert_eq!(info.available_formats[1].colour_space, ColourSpace::NonLinearSRGB);
    assert_eq!(info.presentation_modes, vec![PresentationMode::FIFO, PresentationMode::Mailbox]);
}

/// Each usage flag is read into its own field.
#[test]
fn vulkan_image_usages_are_read() {
    let usages = VulkanImageUsages::from(
        (vk::ImageUsageFlags::TRANSFER_SRC | vk::ImageUsageFlags::SAMPLED).as_raw(),
    );
    assert!(usages.transfer_source);
    assert!(usages.sampled);
    assert!(!usages.transfer_destination);
    assert!(!usages.storage);
    let all = VulkanImageUsages::from(0xffff_ffff);
    assert!(all.host_transfer && all.fragment_density_map && all.colour_attachment);
}

/// The video encode source usage is read from the encode source flag, not the decode one.
#[test]
fn video_encode_source_usage() {
    let encode = VulkanImageUsages::from(vk::ImageUsageFlags::VIDEO_ENCODE_SRC_KHR.as_raw());
    assert!(encode.video_encode_source);
    let decode = VulkanImageUsages::from(vk::ImageUsageFlags::VIDEO_DECODE_SRC_KHR.as_raw());
    assert!(!decode.video_encode_source);
}
