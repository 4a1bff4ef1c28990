//! The table of Vulkan image formats whose channels each have a fixed number of bits.

use super::{RegularImageFormat, RegularImageFormatConversion, RegularImageFormatOrder};
use vstd::prelude::*;

verus! {

/// A regular format with the given numbers of bits and properties.
pub open spec fn layout(
    red: u8,
    green: u8,
    blue: u8,
    alpha: u8,
    depth: u8,
    unused: u8,
    signed: bool,
    packed: bool,
    order: RegularImageFormatOrder,
    data_conversion: RegularImageFormatConversion,
) -> RegularImageFormat {
    RegularImageFormat {
        red_channel: red,
        green_channel: green,
        blue_channel: blue,
        alpha_channel: alpha,
        depth_channel: depth,
        unused_bits: unused,
        signed,
        packed,
        order,
        data_conversion,
    }
}

fn make_layout(
    red: u8,
    green: u8,
    blue: u8,
    alpha: u8,
    depth: u8,
    unused: u8,
    signed: bool,
    packed: bool,
    order: RegularImageFormatOrder,
    data_conversion: RegularImageFormatConversion,
) -> (f: RegularImageFormat)
    ensures
        f == layout(red, green, blue, alpha, depth, unused, signed, packed, order, data_conversion),
{
    RegularImageFormat {
        red_channel: red,
        green_channel: green,
        blue_channel: blue,
        alpha_channel: alpha,
        depth_channel: depth,
        unused_bits: unused,
        signed,
        packed,
        order,
        data_conversion,
    }
}


/// The entries of the table numbered 0 to 21, in the order the table lists them.
pub open spec fn regular_format_group_0(format: i32) -> Option<RegularImageFormat> {
    if format == 1 {
        // R4G4_UNORM_PACK8
        Some(layout(4, 4, 0, 0, 0, 0, false, true, RegularImageFormatOrder::RG, RegularImageFormatConversion::Norm))
    } else if format == 2 {
        // R4G4B4A4_UNORM_PACK16
        Some(layout(4, 4, 4, 4, 0, 0, false, true, RegularImageFormatOrder::RGBA, RegularImageFormatConversion::Norm))
    } else if format == 3 {
        // B4G4R4A4_UNORM_PACK16
        Some(layout(4, 4, 4, 4, 0, 0, false, true, RegularImageFormatOrder::BGRA, RegularImageFormatConversion::Norm))
    } else if format == 1_000_340_000 {
        // A4R4G4B4_UNORM_PACK16
        Some(layout(4, 4, 4, 4, 0, 0, false, true, RegularImageFormatOrder::ARGB, RegularImageFormatConversion::Norm))
    } else if format == 1_000_340_001 {
        // A4B4G4R4_UNORM_PACK16
        Some(layout(4, 4, 4, 4, 0, 0, false, true, RegularImageFormatOrder::ABGR, RegularImageFormatConversion::Norm))
    } else if format == 4 {
        // R5G6B5_UNORM_PACK16
        Some(layout(5, 6, 5, 0, 0, 0, false, true, RegularImageFormatOrder::RGB, RegularImageFormatConversion::Norm))
    } else if format == 5 {
        // B5G6R5_UNORM_PACK16
        Some(layout(5, 6, 5, 0, 0, 0, false, true, RegularImageFormatOrder::BGR, RegularImageFormatConversion::Norm))
    } else if format == 6 {
        // R5G5B5A1_UNORM_PACK16
        Some(layout(5, 5, 5, 1, 0, 0, false, true, RegularImageFormatOrder::RGBA, RegularImageFormatConversion::Norm))
    } else if format == 7 {
        // B5G5R5A1_UNORM_PACK16
        Some(layout(5, 5, 5, 1, 0, 0, false, true, RegularImageFormatOrder::BGRA, RegularImageFormatConversion::Norm))
    } else if format == 8 {
        // A1R5G5B5_UNORM_PACK16
        Some(layout(5, 5, 5, 1, 0, 0, false, true, RegularImageFormatOrder::ARGB, RegularImageFormatConversion::Norm))
    } else if format == 9 {
        // R8_UNORM
        Some(layout(8, 0, 0, 0, 0, 0, false, false, RegularImageFormatOrder::R, RegularImageFormatConversion::Norm))
    } else if format == 10 {
        // R8_SNORM
        Some(layout(8, 0, 0, 0, 0, 0, true, false, RegularImageFormatOrder::R, RegularImageFormatConversion::Norm))
    } else if format == 11 {
        // R8_USCALED
        Some(layout(8, 0, 0, 0, 0, 0, false, false, RegularImageFormatOrder::R, RegularImageFormatConversion::Scaled))
    } else if format == 12 {
        // R8_SSCALED
        Some(layout(8, 0, 0, 0, 0, 0, true, false, RegularImageFormatOrder::R, RegularImageFormatConversion::Scaled))
    } else if format == 13 {
        // R8_UINT
        Some(layout(8, 0, 0, 0, 0, 0, false, false, RegularImageFormatOrder::R, RegularImageFormatConversion::Int))
    } else if format == 14 {
        // R8_SINT
        Some(layout(8, 0, 0, 0, 0, 0, true, false, RegularImageFormatOrder::R, RegularImageFormatConversion::Int))
    } else if format == 15 {
        // R8_SRGB
        Some(layout(8, 0, 0, 0, 0, 0, false, false, RegularImageFormatOrder::R, RegularImageFormatConversion::SRGB))
    } else if format == 16 {
        // R8G8_UNORM
        Some(layout(8, 8, 0, 0, 0, 0, false, false, RegularImageFormatOrder::RG, RegularImageFormatConversion::Norm))
    } else if format == 17 {
        // R8G8_SNORM
        Some(layout(8, 8, 0, 0, 0, 0, true, false, RegularImageFormatOrder::RG, RegularImageFormatConversion::Norm))
    } else if format == 18 {
        // R8G8_USCALED
        Some(layout(8, 8, 0, 0, 0, 0, false, false, RegularImageFormatOrder::RG, RegularImageFormatConversion::Scaled))
    } else if format == 19 {
        // R8G8_SSCALED
        Some(layout(8, 8, 0, 0, 0, 0, true, false, RegularImageFormatOrder::RG, RegularImageFormatConversion::Scaled))
    } else if format == 20 {
        // R8G8_UINT
        Some(layout(8, 8, 0, 0, 0, 0, false, false, RegularImageFormatOrder::RG, RegularImageFormatConversion::Int))
    } else {
        None
    }
}

/// The entries of the table numbered 22 to 43, in the order the table lists them.
pub open spec fn regular_format_group_1(format: i32) -> Option<RegularImageFormat> {
    if format == 21 {
        // R8G8_SINT
        Some(layout(8, 8, 0, 0, 0, 0, true, false, RegularImageFormatOrder::RG, RegularImageFormatConversion::Int))
    } else if format == 22 {
        // R8G8_SRGB
        Some(layout(8, 8, 0, 0, 0, 0, false, false, RegularImageFormatOrder::RG, RegularImageFormatConversion::SRGB))
    } else if format == 23 {
        // R8G8B8_UNORM
        Some(layout(8, 8, 8, 0, 0, 0, false, false, RegularImageFormatOrder::RGB, RegularImageFormatConversion::Norm))
    } else if format == 24 {
        // R8G8B8_SNORM
        Some(layout(8, 8, 8, 0, 0, 0, true, false, RegularImageFormatOrder::RGB, RegularImageFormatConversion::Norm))
    } else if format == 25 {
        // R8G8B8_USCALED
        Some(layout(8, 8, 8, 0, 0, 0, false, false, RegularImageFormatOrder::RGB, RegularImageFormatConversion::Scaled))
    } else if format == 26 {
        // R8G8B8_SSCALED
        Some(layout(8, 8, 8, 0, 0, 0, true, false, RegularImageFormatOrder::RGB, RegularImageFormatConversion::Scaled))
    } else if format == 27 {
        // R8G8B8_UINT
        Some(layout(8, 8, 8, 0, 0, 0, false, false, RegularImageFormatOrder::RGB, RegularImageFormatConversion::Int))
    } else if format == 28 {
        // R8G8B8_SINT
        Some(layout(8, 8, 8, 0, 0, 0, true, false, RegularImageFormatOrder::RGB, RegularImageFormatConversion::Int))
    } else if format == 29 {
        // R8G8B8_SRGB
        Some(layout(8, 8, 8, 0, 0, 0, false, false, RegularImageFormatOrder::RGB, RegularImageFormatConversion::SRGB))
    } else if format == 30 {
        // B8G8R8_UNORM
        Some(layout(8, 8, 8, 0, 0, 0, false, false, RegularImageFormatOrder::BGR, RegularImageFormatConversion::Norm))
    } else if format == 31 {
        // B8G8R8_SNORM
        Some(layout(8, 8, 8, 0, 0, 0, true, false, RegularImageFormatOrder::BGR, RegularImageFormatConversion::Norm))
    } else if format == 32 {
        // B8G8R8_USCALED
        Some(layout(8, 8, 8, 0, 0, 0, false, false, RegularImageFormatOrder::BGR, RegularImageFormatConversion::Scaled))
    } else if format == 33 {
        // B8G8R8_SSCALED
        Some(layout(8, 8, 8, 0, 0, 0, true, false, RegularImageFormatOrder::BGR, RegularImageFormatConversion::Scaled))
    } else if format == 34 {
        // B8G8R8_UINT
        Some(layout(8, 8, 8, 0, 0, 0, false, false, RegularImageFormatOrder::BGR, RegularImageFormatConversion::Int))
    } else if format == 35 {
        // B8G8R8_SINT
        Some(layout(8, 8, 8, 0, 0, 0, true, false, RegularImageFormatOrder::BGR, RegularImageFormatConversion::Int))
    } else if format == 36 {
        // B8G8R8_SRGB
        Some(layout(8, 8, 8, 0, 0, 0, false, false, RegularImageFormatOrder::BGR, RegularImageFormatConversion::SRGB))
    } else if format == 37 {
        // R8G8B8A8_UNORM
        Some(layout(8, 8, 8, 8, 0, 0, false, false, RegularImageFormatOrder::RGBA, RegularImageFormatConversion::Norm))
    } else if format == 38 {
        // R8G8B8A8_SNORM
        Some(layout(8, 8, 8, 8, 0, 0, true, false, RegularImageFormatOrder::RGBA, RegularImageFormatConversion::Norm))
    } else if format == 39 {
        // R8G8B8A8_USCALED
        Some(layout(8, 8, 8, 8, 0, 0, false, false, RegularImageFormatOrder::RGBA, RegularImageFormatConversion::Scaled))
    } else if format == 40 {
        // R8G8B8A8_SSCALED
        Some(layout(8, 8, 8, 8, 0, 0, true, false, RegularImageFormatOrder::RGBA, RegularImageFormatConversion::Scaled))
    } else if format == 41 {
        // R8G8B8A8_UINT
        Some(layout(8, 8, 8, 8, 0, 0, false, false, RegularImageFormatOrder::RGBA, RegularImageFormatConversion::Int))
    } else if format == 42 {
        // R8G8B8A8_SINT
        Some(layout(8, 8, 8, 8, 0, 0, true, false, RegularImageFormatOrder::RGBA, RegularImageFormatConversion::Int))
    } else {
        None
    }
}

/// The entries of the table numbered 44 to 65, in the order the table lists them.
pub open spec fn regular_format_group_2(format: i32) -> Option<RegularImageFormat> {
    if format == 43 {
        // R8G8B8A8_SRGB
        Some(layout(8, 8, 8, 8, 0, 0, false, false, RegularImageFormatOrder::RGBA, RegularImageFormatConversion::SRGB))
    } else if format == 44 {
        // B8G8R8A8_UNORM
        Some(layout(8, 8, 8, 8, 0, 0, false, false, RegularImageFormatOrder::BGRA, RegularImageFormatConversion::Norm))
    } else if format == 45 {
        // B8G8R8A8_SNORM
        Some(layout(8, 8, 8, 8, 0, 0, true, false, RegularImageFormatOrder::BGRA, RegularImageFormatConversion::Norm))
    } else if format == 46 {
        // B8G8R8A8_USCALED
        Some(layout(8, 8, 8, 8, 0, 0, false, false, RegularImageFormatOrder::BGRA, RegularImageFormatConversion::Scaled))
    } else if format == 47 {
        // B8G8R8A8_SSCALED
        Some(layout(8, 8, 8, 8, 0, 0, true, false, RegularImageFormatOrder::BGRA, RegularImageFormatConversion::Scaled))
    } else if format == 48 {
        // B8G8R8A8_UINT
        Some(layout(8, 8, 8, 8, 0, 0, false, false, RegularImageFormatOrder::BGRA, RegularImageFormatConversion::Int))
    } else if format == 49 {
        // B8G8R8A8_SINT
        Some(layout(8, 8, 8, 8, 0, 0, true, false, RegularImageFormatOrder::BGRA, RegularImageFormatConversion::Int))
    } else if format == 50 {
        // B8G8R8A8_SRGB
        Some(layout(8, 8, 8, 8, 0, 0, false, false, RegularImageFormatOrder::BGRA, RegularImageFormatConversion::SRGB))
    } else if format == 51 {
        // A8B8G8R8_UNORM_PACK32
        Some(layout(8, 8, 8, 8, 0, 0, false, true, RegularImageFormatOrder::ABGR, RegularImageFormatConversion::Norm))
    } else if format == 52 {
        // A8B8G8R8_SNORM_PACK32
        Some(layout(8, 8, 8, 8, 0, 0, true, true, RegularImageFormatOrder::ABGR, RegularImageFormatConversion::Norm))
    } else if format == 53 {
        // A8B8G8R8_USCALED_PACK32
        Some(layout(8, 8, 8, 8, 0, 0, false, true, RegularImageFormatOrder::ABGR, RegularImageFormatConversion::Scaled))
    } else if format == 54 {
        // A8B8G8R8_SSCALED_PACK32
        Some(layout(8, 8, 8, 8, 0, 0, true, true, RegularImageFormatOrder::ABGR, RegularImageFormatConversion::Scaled))
    } else if format == 55 {
        // A8B8G8R8_UINT_PACK32
        Some(layout(8, 8, 8, 8, 0, 0, false, true, RegularImageFormatOrder::ABGR, RegularImageFormatConversion::Int))
    } else if format == 56 {
        // A8B8G8R8_SINT_PACK32
        Some(layout(8, 8, 8, 8, 0, 0, true, true, RegularImageFormatOrder::ABGR, RegularImageFormatConversion::Int))
    } else if format == 57 {
        // A8B8G8R8_SRGB_PACK32
        Some(layout(8, 8, 8, 8, 0, 0, false, true, RegularImageFormatOrder::ABGR, RegularImageFormatConversion::SRGB))
    } else if format == 58 {
        // A2R10G10B10_UNORM_PACK32
        Some(layout(10, 10, 10, 2, 0, 0, false, true, RegularImageFormatOrder::ARGB, RegularImageFormatConversion::Norm))
    } else if format == 59 {
        // A2R10G10B10_SNORM_PACK32
        Some(layout(10, 10, 10, 2, 0, 0, true, true, RegularImageFormatOrder::ARGB, RegularImageFormatConversion::Norm))
    } else if format == 60 {
        // A2R10G10B10_USCALED_PACK32
        Some(layout(10, 10, 10, 2, 0, 0, false, true, RegularImageFormatOrder::ARGB, RegularImageFormatConversion::Scaled))
    } else if format == 61 {
        // A2R10G10B10_SSCALED_PACK32
        Some(layout(10, 10, 10, 2, 0, 0, true, true, RegularImageFormatOrder::ARGB, RegularImageFormatConversion::Scaled))
    } else if format == 62 {
        // A2R10G10B10_UINT_PACK32
        Some(layout(10, 10, 10, 2, 0, 0, false, true, RegularImageFormatOrder::ARGB, RegularImageFormatConversion::Int))
    } else if format == 63 {
        // A2R10G10B10_SINT_PACK32
        Some(layout(10, 10, 10, 2, 0, 0, true, true, RegularImageFormatOrder::ARGB, RegularImageFormatConversion::Int))
    } else if format == 64 {
        // A2B10G10R10_UNORM_PACK32
        Some(layout(10, 10, 10, 2, 0, 0, false, true, RegularImageFormatOrder::ABGR, RegularImageFormatConversion::Norm))
    } else {
        None
    }
}

/// The entries of the table numbered 66 to 87, in the order the table lists them.
pub open spec fn regular_format_group_3(format: i32) -> Option<RegularImageFormat> {
    if format == 65 {
        // A2B10G10R10_SNORM_PACK32
        Some(layout(10, 10, 10, 2, 0, 0, true, true, RegularImageFormatOrder::ABGR, RegularImageFormatConversion::Norm))
    } else if format == 66 {
        // A2B10G10R10_USCALED_PACK32
        Some(layout(10, 10, 10, 2, 0, 0, false, true, RegularImageFormatOrder::ABGR, RegularImageFormatConversion::Scaled))
    } else if format == 67 {
        // A2B10G10R10_SSCALED_PACK32
        Some(layout(10, 10, 10, 2, 0, 0, true, true, RegularImageFormatOrder::ABGR, RegularImageFormatConversion::Scaled))
    } else if format == 68 {
        // A2B10G10R10_UINT_PACK32
        Some(layout(10, 10, 10, 2, 0, 0, false, true, RegularImageFormatOrder::ABGR, RegularImageFormatConversion::Int))
    } else if format == 69 {
        // A2B10G10R10_SINT_PACK32
        Some(layout(10, 10, 10, 2, 0, 0, true, true, RegularImageFormatOrder::ABGR, RegularImageFormatConversion::Int))
    } else if format == 70 {
        // R16_UNORM
        Some(layout(16, 0, 0, 0, 0, 0, false, false, RegularImageFormatOrder::R, RegularImageFormatConversion::Norm))
    } else if format == 71 {
        // R16_SNORM
        Some(layout(16, 0, 0, 0, 0, 0, true, false, RegularImageFormatOrder::R, RegularImageFormatConversion::Norm))
    } else if format == 72 {
        // R16_USCALED
        Some(layout(16, 0, 0, 0, 0, 0, false, false, RegularImageFormatOrder::R, RegularImageFormatConversion::Scaled))
    } else if format == 73 {
        // R16_SSCALED
        Some(layout(16, 0, 0, 0, 0, 0, true, false, RegularImageFormatOrder::R, RegularImageFormatConversion::Scaled))
    } else if format == 74 {
        // R16_UINT
        Some(layout(16, 0, 0, 0, 0, 0, false, false, RegularImageFormatOrder::R, RegularImageFormatConversion::Int))
    } else if format == 75 {
        // R16_SINT
        Some(layout(16, 0, 0, 0, 0, 0, true, false, RegularImageFormatOrder::R, RegularImageFormatConversion::Int))
    } else if format == 76 {
        // R16_SFLOAT
        Some(layout(16, 0, 0, 0, 0, 0, true, false, RegularImageFormatOrder::R, RegularImageFormatConversion::Float))
    } else if format == 77 {
        // R16G16_UNORM
        Some(layout(16, 16, 0, 0, 0, 0, false, false, RegularImageFormatOrder::RG, RegularImageFormatConversion::Norm))
    } else if format == 78 {
        // R16G16_SNORM
        Some(layout(16, 16, 0, 0, 0, 0, true, false, RegularImageFormatOrder::RG, RegularImageFormatConversion::Norm))
    } else if format == 79 {
        // R16G16_USCALED
        Some(layout(16, 16, 0, 0, 0, 0, false, false, RegularImageFormatOrder::RG, RegularImageFormatConversion::Scaled))
    } else if format == 80 {
        // R16G16_SSCALED
        Some(layout(16, 16, 0, 0, 0, 0, true, false, RegularImageFormatOrder::RG, RegularImageFormatConversion::Scaled))
    } else if format == 81 {
        // R16G16_UINT
        Some(layout(16, 16, 0, 0, 0, 0, false, false, RegularImageFormatOrder::RG, RegularImageFormatConversion::Int))
    } else if format == 82 {
        // R16G16_SINT
        Some(layout(16, 16, 0, 0, 0, 0, true, false, RegularImageFormatOrder::RG, RegularImageFormatConversion::Int))
    } else if format == 83 {
        // R16G16_SFLOAT
        Some(layout(16, 16, 0, 0, 0, 0, true, false, RegularImageFormatOrder::RG, RegularImageFormatConversion::Float))
    } else if format == 84 {
        // R16G16B16_UNORM
        Some(layout(16, 16, 16, 0, 0, 0, false, false, RegularImageFormatOrder::RGB, RegularImageFormatConversion::Norm))
    } else if format == 85 {
        // R16G16B16_SNORM
        Some(layout(16, 16, 16, 0, 0, 0, true, false, RegularImageFormatOrder::RGB, RegularImageFormatConversion::Norm))
    } else if format == 86 {
        // R16G16B16_USCALED
        Some(layout(16, 16, 16, 0, 0, 0, false, false, RegularImageFormatOrder::RGB, RegularImageFormatConversion::Scaled))
    } else {
        None
    }
}

/// The entries of the table numbered 88 to 109, in the order the table lists them.
pub open spec fn regular_format_group_4(format: i32) -> Option<RegularImageFormat> {
    if format == 87 {
        // R16G16B16_SSCALED
        Some(layout(16, 16, 16, 0, 0, 0, true, false, RegularImageFormatOrder::RGB, RegularImageFormatConversion::Scaled))
    } else if format == 88 {
        // R16G16B16_UINT
        Some(layout(16, 16, 16, 0, 0, 0, false, false, RegularImageFormatOrder::RGB, RegularImageFormatConversion::Int))
    } else if format == 89 {
        // R16G16B16_SINT
        Some(layout(16, 16, 16, 0, 0, 0, true, false, RegularImageFormatOrder::RGB, RegularImageFormatConversion::Int))
    } else if format == 90 {
        // R16G16B16_SFLOAT
        Some(layout(16, 16, 16, 0, 0, 0, true, false, RegularImageFormatOrder::RGB, RegularImageFormatConversion::Float))
    } else if format == 91 {
        // R16G16B16A16_UNORM
        Some(layout(16, 16, 16, 16, 0, 0, false, false, RegularImageFormatOrder::RGBA, RegularImageFormatConversion::Norm))
    } else if format == 92 {
        // R16G16B16A16_SNORM
        Some(layout(16, 16, 16, 16, 0, 0, true, false, RegularImageFormatOrder::RGBA, RegularImageFormatConversion::Norm))
    } else if format == 93 {
        // R16G16B16A16_USCALED
        Some(layout(16, 16, 16, 16, 0, 0, false, false, RegularImageFormatOrder::RGBA, RegularImageFormatConversion::Scaled))
    } else if format == 94 {
        // R16G16B16A16_SSCALED
        Some(layout(16, 16, 16, 16, 0, 0, true, false, RegularImageFormatOrder::RGBA, RegularImageFormatConversion::Scaled))
    } else if format == 95 {
        // R16G16B16A16_UINT
        Some(layout(16, 16, 16, 16, 0, 0, false, false, RegularImageFormatOrder::RGBA, RegularImageFormatConversion::Int))
    } else if format == 96 {
        // R16G16B16A16_SINT
        Some(layout(16, 16, 16, 16, 0, 0, true, false, RegularImageFormatOrder::RGBA, RegularImageFormatConversion::Int))
    } else if format == 97 {
        // R16G16B16A16_SFLOAT
        Some(layout(16, 16, 16, 16, 0, 0, true, false, RegularImageFormatOrder::RGBA, RegularImageFormatConversion::Float))
    } else if format == 98 {
        // R32_UINT
        Some(layout(32, 0, 0, 0, 0, 0, false, false, RegularImageFormatOrder::R, RegularImageFormatConversion::Int))
    } else if format == 99 {
        // R32_SINT
        Some(layout(32, 0, 0, 0, 0, 0, true, false, RegularImageFormatOrder::R, RegularImageFormatConversion::Int))
    } else if format == 100 {
        // R32_SFLOAT
        Some(layout(32, 0, 0, 0, 0, 0, true, false, RegularImageFormatOrder::R, RegularImageFormatConversion::Float))
    } else if format == 101 {
        // R32G32_UINT
        Some(layout(32, 32, 0, 0, 0, 0, false, false, RegularImageFormatOrder::RG, RegularImageFormatConversion::Int))
    } else if format == 102 {
        // R32G32_SINT
        Some(layout(32, 32, 0, 0, 0, 0, true, false, RegularImageFormatOrder::RG, RegularImageFormatConversion::Int))
    } else if format == 103 {
        // R32G32_SFLOAT
        Some(layout(32, 32, 0, 0, 0, 0, true, false, RegularImageFormatOrder::RG, RegularImageFormatConversion::Float))
    } else if format == 104 {
        // R32G32B32_UINT
        Some(layout(32, 32, 32, 0, 0, 0, false, false, RegularImageFormatOrder::RGB, RegularImageFormatConversion::Int))
    } else if format == 105 {
        // R32G32B32_SINT
        Some(layout(32, 32, 32, 0, 0, 0, true, false, RegularImageFormatOrder::RGB, RegularImageFormatConversion::Int))
    } else if format == 106 {
        // R32G32B32_SFLOAT
        Some(layout(32, 32, 32, 0, 0, 0, true, false, RegularImageFormatOrder::RGB, RegularImageFormatConversion::Float))
    } else if format == 107 {
        // R32G32B32A32_UINT
        Some(layout(32, 32, 32, 32, 0, 0, false, false, RegularImageFormatOrder::RGBA, RegularImageFormatConversion::Int))
    } else if format == 108 {
        // R32G32B32A32_SINT
        Some(layout(32, 32, 32, 32, 0, 0, true, false, RegularImageFormatOrder::RGBA, RegularImageFormatConversion::Int))
    } else {
        None
    }
}

/// The entries of the table numbered 110 to 131, in the order the table lists them.
pub open spec fn regular_format_group_5(format: i32) -> Option<RegularImageFormat> {
    if format == 109 {
        // R32G32B32A32_SFLOAT
        Some(layout(32, 32, 32, 32, 0, 0, true, false, RegularImageFormatOrder::RGBA, RegularImageFormatConversion::Float))
    } else if format == 110 {
        // R64_UINT
        Some(layout(64, 0, 0, 0, 0, 0, false, false, RegularImageFormatOrder::R, RegularImageFormatConversion::Int))
    } else if format == 111 {
        // R64_SINT
        Some(layout(64, 0, 0, 0, 0, 0, true, false, RegularImageFormatOrder::R, RegularImageFormatConversion::Int))
    } else if format == 112 {
        // R64_SFLOAT
        Some(layout(64, 0, 0, 0, 0, 0, true, false, RegularImageFormatOrder::R, RegularImageFormatConversion::Float))
    } else if format == 113 {
        // R64G64_UINT
        Some(layout(64, 64, 0, 0, 0, 0, false, false, RegularImageFormatOrder::RG, RegularImageFormatConversion::Int))
    } else if format == 114 {
        // R64G64_SINT
        Some(layout(64, 64, 0, 0, 0, 0, true, false, RegularImageFormatOrder::RG, RegularImageFormatConversion::Int))
    } else if format == 115 {
        // R64G64_SFLOAT
        Some(layout(64, 64, 0, 0, 0, 0, true, false, RegularImageFormatOrder::RG, RegularImageFormatConversion::Float))
    } else if format == 116 {
        // R64G64B64_UINT
        Some(layout(64, 64, 64, 0, 0, 0, false, false, RegularImageFormatOrder::RGB, RegularImageFormatConversion::Int))
    } else if format == 117 {
        // R64G64B64_SINT
        Some(layout(64, 64, 64, 0, 0, 0, true, false, RegularImageFormatOrder::RGB, RegularImageFormatConversion::Int))
    } else if format == 118 {
        // R64G64B64_SFLOAT
        Some(layout(64, 64, 64, 0, 0, 0, true, false, RegularImageFormatOrder::RGB, RegularImageFormatConversion::Float))
    } else if format == 119 {
        // R64G64B64A64_UINT
        Some(layout(64, 64, 64, 64, 0, 0, false, false, RegularImageFormatOrder::RGBA, RegularImageFormatConversion::Int))
    } else if format == 120 {
        // R64G64B64A64_SINT
        Some(layout(64, 64, 64, 64, 0, 0, true, false, RegularImageFormatOrder::RGBA, RegularImageFormatConversion::Int))
    } else if format == 121 {
        // R64G64B64A64_SFLOAT
        Some(layout(64, 64, 64, 64, 0, 0, true, false, RegularImageFormatOrder::RGBA, RegularImageFormatConversion::Float))
    } else if format == 122 {
        // B10G11R11_UFLOAT_PACK32
        Some(layout(11, 11, 10, 0, 0, 0, false, true, RegularImageFormatOrder::BGR, RegularImageFormatConversion::Float))
    } else if format == 124 {
        // D16_UNORM
        Some(layout(0, 0, 0, 0, 16, 0, false, false, RegularImageFormatOrder::D, RegularImageFormatConversion::Norm))
    } else if format == 126 {
        // D32_SFLOAT
        Some(layout(0, 0, 0, 0, 32, 0, true, false, RegularImageFormatOrder::D, RegularImageFormatConversion::Float))
    } else if format == 1_000_156_007 {
        // R10X6_UNORM_PACK16
        Some(layout(10, 0, 0, 0, 0, 6, false, true, RegularImageFormatOrder::RX, RegularImageFormatConversion::Norm))
    } else if format == 1_000_156_008 {
        // R10X6G10X6_UNORM_2PACK16
        Some(layout(10, 10, 0, 0, 0, 12, false, true, RegularImageFormatOrder::RXGX, RegularImageFormatConversion::Norm))
    } else if format == 1_000_156_009 {
        // R10X6G10X6B10X6A10X6_UNORM_4PACK16
        Some(layout(10, 10, 10, 10, 0, 24, false, true, RegularImageFormatOrder::RXGXBXAX, RegularImageFormatConversion::Norm))
    } else if format == 1_000_156_017 {
        // R12X4_UNORM_PACK16
        Some(layout(12, 0, 0, 0, 0, 4, false, true, RegularImageFormatOrder::RX, RegularImageFormatConversion::Norm))
    } else if format == 1_000_156_018 {
        // R12X4G12X4_UNORM_2PACK16
        Some(layout(12, 12, 0, 0, 0, 8, false, true, RegularImageFormatOrder::RXGX, RegularImageFormatConversion::Norm))
    } else if format == 1_000_156_019 {
        // R12X4G12X4B12X4A12X4_UNORM_4PACK16
        Some(layout(12, 12, 12, 12, 0, 16, false, true, RegularImageFormatOrder::RXGXBXAX, RegularImageFormatConversion::Norm))
    } else {
        None
    }
}

/// The layout of a Vulkan image format (given by its code), if it is one of the regular formats
/// this library understands. Each entry notes the Vulkan name of the format.
pub open spec fn regular_image_format_data(format: i32) -> Option<RegularImageFormat> {
    if regular_format_group_0(format) is Some {
        regular_format_group_0(format)
    } else if regular_format_group_1(format) is Some {
        regular_format_group_1(format)
    } else if regular_format_group_2(format) is Some {
        regular_format_group_2(format)
    } else if regular_format_group_3(format) is Some {
        regular_format_group_3(format)
    } else if regular_format_group_4(format) is Some {
        regular_format_group_4(format)
    } else {
        regular_format_group_5(format)
    }
}

fn lookup_group_0(format: i32) -> (r: Option<RegularImageFormat>)
    ensures
        r == regular_format_group_0(format),
{
    if format == 1 {
        Some(make_layout(4, 4, 0, 0, 0, 0, false, true, RegularImageFormatOrder::RG, RegularImageFormatConversion::Norm))
    } else if format == 2 {
        Some(make_layout(4, 4, 4, 4, 0, 0, false, true, RegularImageFormatOrder::RGBA, RegularImageFormatConversion::Norm))
    } else if format == 3 {
        Some(make_layout(4, 4, 4, 4, 0, 0, false, true, RegularImageFormatOrder::BGRA, RegularImageFormatConversion::Norm))
    } else if format == 1_000_340_000 {
        Some(make_layout(4, 4, 4, 4, 0, 0, false, true, RegularImageFormatOrder::ARGB, RegularImageFormatConversion::Norm))
    } else if format == 1_000_340_001 {
        Some(make_layout(4, 4, 4, 4, 0, 0, false, true, RegularImageFormatOrder::ABGR, RegularImageFormatConversion::Norm))
    } else if format == 4 {
        Some(make_layout(5, 6, 5, 0, 0, 0, false, true, RegularImageFormatOrder::RGB, RegularImageFormatConversion::Norm))
    } else if format == 5 {
        Some(make_layout(5, 6, 5, 0, 0, 0, false, true, RegularImageFormatOrder::BGR, RegularImageFormatConversion::Norm))
    } else if format == 6 {
        Some(make_layout(5, 5, 5, 1, 0, 0, false, true, RegularImageFormatOrder::RGBA, RegularImageFormatConversion::Norm))
    } else if format == 7 {
        Some(make_layout(5, 5, 5, 1, 0, 0, false, true, RegularImageFormatOrder::BGRA, RegularImageFormatConversion::Norm))
    } else if format == 8 {
        Some(make_layout(5, 5, 5, 1, 0, 0, false, true, RegularImageFormatOrder::ARGB, RegularImageFormatConversion::Norm))
    } else if format == 9 {
        Some(make_layout(8, 0, 0, 0, 0, 0, false, false, RegularImageFormatOrder::R, RegularImageFormatConversion::Norm))
    } else if format == 10 {
        Some(make_layout(8, 0, 0, 0, 0, 0, true, false, RegularImageFormatOrder::R, RegularImageFormatConversion::Norm))
    } else if format == 11 {
        Some(make_layout(8, 0, 0, 0, 0, 0, false, false, RegularImageFormatOrder::R, RegularImageFormatConversion::Scaled))
    } else if format == 12 {
        Some(make_layout(8, 0, 0, 0, 0, 0, true, false, RegularImageFormatOrder::R, RegularImageFormatConversion::Scaled))
    } else if format == 13 {
        Some(make_layout(8, 0, 0, 0, 0, 0, false, false, RegularImageFormatOrder::R, RegularImageFormatConversion::Int))
    } else if format == 14 {
        Some(make_layout(8, 0, 0, 0, 0, 0, true, false, RegularImageFormatOrder::R, RegularImageFormatConversion::Int))
    } else if format == 15 {
        Some(make_layout(8, 0, 0, 0, 0, 0, false, false, RegularImageFormatOrder::R, RegularImageFormatConversion::SRGB))
    } else if format == 16 {
        Some(make_layout(8, 8, 0, 0, 0, 0, false, false, RegularImageFormatOrder::RG, RegularImageFormatConversion::Norm))
    } else if format == 17 {
        Some(make_layout(8, 8, 0, 0, 0, 0, true, false, RegularImageFormatOrder::RG, RegularImageFormatConversion::Norm))
    } else if format == 18 {
        Some(make_layout(8, 8, 0, 0, 0, 0, false, false, RegularImageFormatOrder::RG, RegularImageFormatConversion::Scaled))
    } else if format == 19 {
        Some(make_layout(8, 8, 0, 0, 0, 0, true, false, RegularImageFormatOrder::RG, RegularImageFormatConversion::Scaled))
    } else if format == 20 {
        Some(make_layout(8, 8, 0, 0, 0, 0, false, false, RegularImageFormatOrder::RG, RegularImageFormatConversion::Int))
    } else {
        None
    }
}

fn lookup_group_1(format: i32) -> (r: Option<RegularImageFormat>)
    ensures
        r == regular_format_group_1(format),
{
    if format == 21 {
        Some(make_layout(8, 8, 0, 0, 0, 0, true, false, RegularImageFormatOrder::RG, RegularImageFormatConversion::Int))
    } else if format == 22 {
        Some(make_layout(8, 8, 0, 0, 0, 0, false, false, RegularImageFormatOrder::RG, RegularImageFormatConversion::SRGB))
    } else if format == 23 {
        Some(make_layout(8, 8, 8, 0, 0, 0, false, false, RegularImageFormatOrder::RGB, RegularImageFormatConversion::Norm))
    } else if format == 24 {
        Some(make_layout(8, 8, 8, 0, 0, 0, true, false, RegularImageFormatOrder::RGB, RegularImageFormatConversion::Norm))
    } else if format == 25 {
        Some(make_layout(8, 8, 8, 0, 0, 0, false, false, RegularImageFormatOrder::RGB, RegularImageFormatConversion::Scaled))
    } else if format == 26 {
        Some(make_layout(8, 8, 8, 0, 0, 0, true, false, RegularImageFormatOrder::RGB, RegularImageFormatConversion::Scaled))
    } else if format == 27 {
        Some(make_layout(8, 8, 8, 0, 0, 0, false, false, RegularImageFormatOrder::RGB, RegularImageFormatConversion::Int))
    } else if format == 28 {
        Some(make_layout(8, 8, 8, 0, 0, 0, true, false, RegularImageFormatOrder::RGB, RegularImageFormatConversion::Int))
    } else if format == 29 {
        Some(make_layout(8, 8, 8, 0, 0, 0, false, false, RegularImageFormatOrder::RGB, RegularImageFormatConversion::SRGB))
    } else if format == 30 {
        Some(make_layout(8, 8, 8, 0, 0, 0, false, false, RegularImageFormatOrder::BGR, RegularImageFormatConversion::Norm))
    } else if format == 31 {
        Some(make_layout(8, 8, 8, 0, 0, 0, true, false, RegularImageFormatOrder::BGR, RegularImageFormatConversion::Norm))
    } else if format == 32 {
        Some(make_layout(8, 8, 8, 0, 0, 0, false, false, RegularImageFormatOrder::BGR, RegularImageFormatConversion::Scaled))
    } else if format == 33 {
        Some(make_layout(8, 8, 8, 0, 0, 0, true, false, RegularImageFormatOrder::BGR, RegularImageFormatConversion::Scaled))
    } else if format == 34 {
        Some(make_layout(8, 8, 8, 0, 0, 0, false, false, RegularImageFormatOrder::BGR, RegularImageFormatConversion::Int))
    } else if format == 35 {
        Some(make_layout(8, 8, 8, 0, 0, 0, true, false, RegularImageFormatOrder::BGR, RegularImageFormatConversion::Int))
    } else if format == 36 {
        Some(make_layout(8, 8, 8, 0, 0, 0, false, false, RegularImageFormatOrder::BGR, RegularImageFormatConversion::SRGB))
    } else if format == 37 {
        Some(make_layout(8, 8, 8, 8, 0, 0, false, false, RegularImageFormatOrder::RGBA, RegularImageFormatConversion::Norm))
    } else if format == 38 {
        Some(make_layout(8, 8, 8, 8, 0, 0, true, false, RegularImageFormatOrder::RGBA, RegularImageFormatConversion::Norm))
    } else if format == 39 {
        Some(make_layout(8, 8, 8, 8, 0, 0, false, false, RegularImageFormatOrder::RGBA, RegularImageFormatConversion::Scaled))
    } else if format == 40 {
        Some(make_layout(8, 8, 8, 8, 0, 0, true, false, RegularImageFormatOrder::RGBA, RegularImageFormatConversion::Scaled))
    } else if format == 41 {
        Some(make_layout(8, 8, 8, 8, 0, 0, false, false, RegularImageFormatOrder::RGBA, RegularImageFormatConversion::Int))
    } else if format == 42 {
        Some(make_layout(8, 8, 8, 8, 0, 0, true, false, RegularImageFormatOrder::RGBA, RegularImageFormatConversion::Int))
    } else {
        None
    }
}

fn lookup_group_2(format: i32) -> (r: Option<RegularImageFormat>)
    ensures
        r == regular_format_group_2(format),
{
    if format == 43 {
        Some(make_layout(8, 8, 8, 8, 0, 0, false, false, RegularImageFormatOrder::RGBA, RegularImageFormatConversion::SRGB))
    } else if format == 44 {
        Some(make_layout(8, 8, 8, 8, 0, 0, false, false, RegularImageFormatOrder::BGRA, RegularImageFormatConversion::Norm))
    } else if format == 45 {
        Some(make_layout(8, 8, 8, 8, 0, 0, true, false, RegularImageFormatOrder::BGRA, RegularImageFormatConversion::Norm))
    } else if format == 46 {
        Some(make_layout(8, 8, 8, 8, 0, 0, false, false, RegularImageFormatOrder::BGRA, RegularImageFormatConversion::Scaled))
    } else if format == 47 {
        Some(make_layout(8, 8, 8, 8, 0, 0, true, false, RegularImageFormatOrder::BGRA, RegularImageFormatConversion::Scaled))
    } else if format == 48 {
        Some(make_layout(8, 8, 8, 8, 0, 0, false, false, RegularImageFormatOrder::BGRA, RegularImageFormatConversion::Int))
    } else if format == 49 {
        Some(make_layout(8, 8, 8, 8, 0, 0, true, false, RegularImageFormatOrder::BGRA, RegularImageFormatConversion::Int))
    } else if format == 50 {
        Some(make_layout(8, 8, 8, 8, 0, 0, false, false, RegularImageFormatOrder::BGRA, RegularImageFormatConversion::SRGB))
    } else if format == 51 {
        Some(make_layout(8, 8, 8, 8, 0, 0, false, true, RegularImageFormatOrder::ABGR, RegularImageFormatConversion::Norm))
    } else if format == 52 {
        Some(make_layout(8, 8, 8, 8, 0, 0, true, true, RegularImageFormatOrder::ABGR, RegularImageFormatConversion::Norm))
    } else if format == 53 {
        Some(make_layout(8, 8, 8, 8, 0, 0, false, true, RegularImageFormatOrder::ABGR, RegularImageFormatConversion::Scaled))
    } else if format == 54 {
        Some(make_layout(8, 8, 8, 8, 0, 0, true, true, RegularImageFormatOrder::ABGR, RegularImageFormatConversion::Scaled))
    } else if format == 55 {
        Some(make_layout(8, 8, 8, 8, 0, 0, false, true, RegularImageFormatOrder::ABGR, RegularImageFormatConversion::Int))
    } else if format == 56 {
        Some(make_layout(8, 8, 8, 8, 0, 0, true, true, RegularImageFormatOrder::ABGR, RegularImageFormatConversion::Int))
    } else if format == 57 {
        Some(make_layout(8, 8, 8, 8, 0, 0, false, true, RegularImageFormatOrder::ABGR, RegularImageFormatConversion::SRGB))
    } else if format == 58 {
        Some(make_layout(10, 10, 10, 2, 0, 0, false, true, RegularImageFormatOrder::ARGB, RegularImageFormatConversion::Norm))
    } else if format == 59 {
        Some(make_layout(10, 10, 10, 2, 0, 0, true, true, RegularImageFormatOrder::ARGB, RegularImageFormatConversion::Norm))
    } else if format == 60 {
        Some(make_layout(10, 10, 10, 2, 0, 0, false, true, RegularImageFormatOrder::ARGB, RegularImageFormatConversion::Scaled))
    } else if format == 61 {
        Some(make_layout(10, 10, 10, 2, 0, 0, true, true, RegularImageFormatOrder::ARGB, RegularImageFormatConversion::Scaled))
    } else if format == 62 {
        Some(make_layout(10, 10, 10, 2, 0, 0, false, true, RegularImageFormatOrder::ARGB, RegularImageFormatConversion::Int))
    } else if format == 63 {
        Some(make_layout(10, 10, 10, 2, 0, 0, true, true, RegularImageFormatOrder::ARGB, RegularImageFormatConversion::Int))
    } else if format == 64 {
        Some(make_layout(10, 10, 10, 2, 0, 0, false, true, RegularImageFormatOrder::ABGR, RegularImageFormatConversion::Norm))
    } else {
        None
    }
}

fn lookup_group_3(format: i32) -> (r: Option<RegularImageFormat>)
    ensures
        r == regular_format_group_3(format),
{
    if format == 65 {
        Some(make_layout(10, 10, 10, 2, 0, 0, true, true, RegularImageFormatOrder::ABGR, RegularImageFormatConversion::Norm))
    } else if format == 66 {
        Some(make_layout(10, 10, 10, 2, 0, 0, false, true, RegularImageFormatOrder::ABGR, RegularImageFormatConversion::Scaled))
    } else if format == 67 {
        Some(make_layout(10, 10, 10, 2, 0, 0, true, true, RegularImageFormatOrder::ABGR, RegularImageFormatConversion::Scaled))
    } else if format == 68 {
        Some(make_layout(10, 10, 10, 2, 0, 0, false, true, RegularImageFormatOrder::ABGR, RegularImageFormatConversion::Int))
    } else if format == 69 {
        Some(make_layout(10, 10, 10, 2, 0, 0, true, true, RegularImageFormatOrder::ABGR, RegularImageFormatConversion::Int))
    } else if format == 70 {
        Some(make_layout(16, 0, 0, 0, 0, 0, false, false, RegularImageFormatOrder::R, RegularImageFormatConversion::Norm))
    } else if format == 71 {
        Some(make_layout(16, 0, 0, 0, 0, 0, true, false, RegularImageFormatOrder::R, RegularImageFormatConversion::Norm))
    } else if format == 72 {
        Some(make_layout(16, 0, 0, 0, 0, 0, false, false, RegularImageFormatOrder::R, RegularImageFormatConversion::Scaled))
    } else if format == 73 {
        Some(make_layout(16, 0, 0, 0, 0, 0, true, false, RegularImageFormatOrder::R, RegularImageFormatConversion::Scaled))
    } else if format == 74 {
        Some(make_layout(16, 0, 0, 0, 0, 0, false, false, RegularImageFormatOrder::R, RegularImageFormatConversion::Int))
    } else if format == 75 {
        Some(make_layout(16, 0, 0, 0, 0, 0, true, false, RegularImageFormatOrder::R, RegularImageFormatConversion::Int))
    } else if format == 76 {
        Some(make_layout(16, 0, 0, 0, 0, 0, true, false, RegularImageFormatOrder::R, RegularImageFormatConversion::Float))
    } else if format == 77 {
        Some(make_layout(16, 16, 0, 0, 0, 0, false, false, RegularImageFormatOrder::RG, RegularImageFormatConversion::Norm))
    } else if format == 78 {
        Some(make_layout(16, 16, 0, 0, 0, 0, true, false, RegularImageFormatOrder::RG, RegularImageFormatConversion::Norm))
    } else if format == 79 {
        Some(make_layout(16, 16, 0, 0, 0, 0, false, false, RegularImageFormatOrder::RG, RegularImageFormatConversion::Scaled))
    } else if format == 80 {
        Some(make_layout(16, 16, 0, 0, 0, 0, true, false, RegularImageFormatOrder::RG, RegularImageFormatConversion::Scaled))
    } else if format == 81 {
        Some(make_layout(16, 16, 0, 0, 0, 0, false, false, RegularImageFormatOrder::RG, RegularImageFormatConversion::Int))
    } else if format == 82 {
        Some(make_layout(16, 16, 0, 0, 0, 0, true, false, RegularImageFormatOrder::RG, RegularImageFormatConversion::Int))
    } else if format == 83 {
        Some(make_layout(16, 16, 0, 0, 0, 0, true, false, RegularImageFormatOrder::RG, RegularImageFormatConversion::Float))
    } else if format == 84 {
        Some(make_layout(16, 16, 16, 0, 0, 0, false, false, RegularImageFormatOrder::RGB, RegularImageFormatConversion::Norm))
    } else if format == 85 {
        Some(make_layout(16, 16, 16, 0, 0, 0, true, false, RegularImageFormatOrder::RGB, RegularImageFormatConversion::Norm))
    } else if format == 86 {
        Some(make_layout(16, 16, 16, 0, 0, 0, false, false, RegularImageFormatOrder::RGB, RegularImageFormatConversion::Scaled))
    } else {
        None
    }
}

fn lookup_group_4(format: i32) -> (r: Option<RegularImageFormat>)
    ensures
        r == regular_format_group_4(format),
{
    if format == 87 {
        Some(make_layout(16, 16, 16, 0, 0, 0, true, false, RegularImageFormatOrder::RGB, RegularImageFormatConversion::Scaled))
    } else if format == 88 {
        Some(make_layout(16, 16, 16, 0, 0, 0, false, false, RegularImageFormatOrder::RGB, RegularImageFormatConversion::Int))
    } else if format == 89 {
        Some(make_layout(16, 16, 16, 0, 0, 0, true, false, RegularImageFormatOrder::RGB, RegularImageFormatConversion::Int))
    } else if format == 90 {
        Some(make_layout(16, 16, 16, 0, 0, 0, true, false, RegularImageFormatOrder::RGB, RegularImageFormatConversion::Float))
    } else if format == 91 {
        Some(make_layout(16, 16, 16, 16, 0, 0, false, false, RegularImageFormatOrder::RGBA, RegularImageFormatConversion::Norm))
    } else if format == 92 {
        Some(make_layout(16, 16, 16, 16, 0, 0, true, false, RegularImageFormatOrder::RGBA, RegularImageFormatConversion::Norm))
    } else if format == 93 {
        Some(make_layout(16, 16, 16, 16, 0, 0, false, false, RegularImageFormatOrder::RGBA, RegularImageFormatConversion::Scaled))
    } else if format == 94 {
        Some(make_layout(16, 16, 16, 16, 0, 0, true, false, RegularImageFormatOrder::RGBA, RegularImageFormatConversion::Scaled))
    } else if format == 95 {
        Some(make_layout(16, 16, 16, 16, 0, 0, false, false, RegularImageFormatOrder::RGBA, RegularImageFormatConversion::Int))
    } else if format == 96 {
        Some(make_layout(16, 16, 16, 16, 0, 0, true, false, RegularImageFormatOrder::RGBA, RegularImageFormatConversion::Int))
    } else if format == 97 {
        Some(make_layout(16, 16, 16, 16, 0, 0, true, false, RegularImageFormatOrder::RGBA, RegularImageFormatConversion::Float))
    } else if format == 98 {
        Some(make_layout(32, 0, 0, 0, 0, 0, false, false, RegularImageFormatOrder::R, RegularImageFormatConversion::Int))
    } else if format == 99 {
        Some(make_layout(32, 0, 0, 0, 0, 0, true, false, RegularImageFormatOrder::R, RegularImageFormatConversion::Int))
    } else if format == 100 {
        Some(make_layout(32, 0, 0, 0, 0, 0, true, false, RegularImageFormatOrder::R, RegularImageFormatConversion::Float))
    } else if format == 101 {
        Some(make_layout(32, 32, 0, 0, 0, 0, false, false, RegularImageFormatOrder::RG, RegularImageFormatConversion::Int))
    } else if format == 102 {
        Some(make_layout(32, 32, 0, 0, 0, 0, true, false, RegularImageFormatOrder::RG, RegularImageFormatConversion::Int))
    } else if format == 103 {
        Some(make_layout(32, 32, 0, 0, 0, 0, true, false, RegularImageFormatOrder::RG, RegularImageFormatConversion::Float))
    } else if format == 104 {
        Some(make_layout(32, 32, 32, 0, 0, 0, false, false, RegularImageFormatOrder::RGB, RegularImageFormatConversion::Int))
    } else if format == 105 {
        Some(make_layout(32, 32, 32, 0, 0, 0, true, false, RegularImageFormatOrder::RGB, RegularImageFormatConversion::Int))
    } else if format == 106 {
        Some(make_layout(32, 32, 32, 0, 0, 0, true, false, RegularImageFormatOrder::RGB, RegularImageFormatConversion::Float))
    } else if format == 107 {
        Some(make_layout(32, 32, 32, 32, 0, 0, false, false, RegularImageFormatOrder::RGBA, RegularImageFormatConversion::Int))
    } else if format == 108 {
        Some(make_layout(32, 32, 32, 32, 0, 0, true, false, RegularImageFormatOrder::RGBA, RegularImageFormatConversion::Int))
    } else {
        None
    }
}

fn lookup_group_5(format: i32) -> (r: Option<RegularImageFormat>)
    ensures
        r == regular_format_group_5(format),
{
    if format == 109 {
        Some(make_layout(32, 32, 32, 32, 0, 0, true, false, RegularImageFormatOrder::RGBA, RegularImageFormatConversion::Float))
    } else if format == 110 {
        Some(make_layout(64, 0, 0, 0, 0, 0, false, false, RegularImageFormatOrder::R, RegularImageFormatConversion::Int))
    } else if format == 111 {
        Some(make_layout(64, 0, 0, 0, 0, 0, true, false, RegularImageFormatOrder::R, RegularImageFormatConversion::Int))
    } else if format == 112 {
        Some(make_layout(64, 0, 0, 0, 0, 0, true, false, RegularImageFormatOrder::R, RegularImageFormatConversion::Float))
    } else if format == 113 {
        Some(make_layout(64, 64, 0, 0, 0, 0, false, false, RegularImageFormatOrder::RG, RegularImageFormatConversion::Int))
    } else if format == 114 {
        Some(make_layout(64, 64, 0, 0, 0, 0, true, false, RegularImageFormatOrder::RG, RegularImageFormatConversion::Int))
    } else if format == 115 {
        Some(make_layout(64, 64, 0, 0, 0, 0, true, false, RegularImageFormatOrder::RG, RegularImageFormatConversion::Float))
    } else if format == 116 {
        Some(make_layout(64, 64, 64, 0, 0, 0, false, false, RegularImageFormatOrder::RGB, RegularImageFormatConversion::Int))
    } else if format == 117 {
        Some(make_layout(64, 64, 64, 0, 0, 0, true, false, RegularImageFormatOrder::RGB, RegularImageFormatConversion::Int))
    } else if format == 118 {
        Some(make_layout(64, 64, 64, 0, 0, 0, true, false, RegularImageFormatOrder::RGB, RegularImageFormatConversion::Float))
    } else if format == 119 {
        Some(make_layout(64, 64, 64, 64, 0, 0, false, false, RegularImageFormatOrder::RGBA, RegularImageFormatConversion::Int))
    } else if format == 120 {
        Some(make_layout(64, 64, 64, 64, 0, 0, true, false, RegularImageFormatOrder::RGBA, RegularImageFormatConversion::Int))
    } else if format == 121 {
        Some(make_layout(64, 64, 64, 64, 0, 0, true, false, RegularImageFormatOrder::RGBA, RegularImageFormatConversion::Float))
    } else if format == 122 {
        Some(make_layout(11, 11, 10, 0, 0, 0, false, true, RegularImageFormatOrder::BGR, RegularImageFormatConversion::Float))
    } else if format == 124 {
        Some(make_layout(0, 0, 0, 0, 16, 0, false, false, RegularImageFormatOrder::D, RegularImageFormatConversion::Norm))
    } else if format == 126 {
        Some(make_layout(0, 0, 0, 0, 32, 0, true, false, RegularImageFormatOrder::D, RegularImageFormatConversion::Float))
    } else if format == 1_000_156_007 {
        Some(make_layout(10, 0, 0, 0, 0, 6, false, true, RegularImageFormatOrder::RX, RegularImageFormatConversion::Norm))
    } else if format == 1_000_156_008 {
        Some(make_layout(10, 10, 0, 0, 0, 12, false, true, RegularImageFormatOrder::RXGX, RegularImageFormatConversion::Norm))
    } else if format == 1_000_156_009 {
        Some(make_layout(10, 10, 10, 10, 0, 24, false, true, RegularImageFormatOrder::RXGXBXAX, RegularImageFormatConversion::Norm))
    } else if format == 1_000_156_017 {
        Some(make_layout(12, 0, 0, 0, 0, 4, false, true, RegularImageFormatOrder::RX, RegularImageFormatConversion::Norm))
    } else if format == 1_000_156_018 {
        Some(make_layout(12, 12, 0, 0, 0, 8, false, true, RegularImageFormatOrder::RXGX, RegularImageFormatConversion::Norm))
    } else if format == 1_000_156_019 {
        Some(make_layout(12, 12, 12, 12, 0, 16, false, true, RegularImageFormatOrder::RXGXBXAX, RegularImageFormatConversion::Norm))
    } else {
        None
    }
}

/// Looks up the layout of a Vulkan image format (given by its code) in the table of regular
/// formats.
pub fn lookup_regular_image_format(format: i32) -> (r: Option<RegularImageFormat>)
    ensures
        r == regular_image_format_data(format),
{
    let found = lookup_group_0(format);
    if found.is_some() {
        return found;
    }
    let found = lookup_group_1(format);
    if found.is_some() {
        return found;
    }
    let found = lookup_group_2(format);
    if found.is_some() {
        return found;
    }
    let found = lookup_group_3(format);
    if found.is_some() {
        return found;
    }
    let found = lookup_group_4(format);
    if found.is_some() {
        return found;
    }
    let found = lookup_group_5(format);
    found
}

} // verus!
