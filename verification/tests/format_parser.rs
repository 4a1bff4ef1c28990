use rendering_project::format_parser::{
    get_format_attribute_info, to_block_extent, FormatAttributeInfo, Generator,
    ImageFormatClass,
    ImageFormatCompressionScheme,
};

fn attributes(pairs: &[(&str, &str)]) -> Vec<(String, String)> {
    pairs.iter().map(|(k, v)| (String::from(*k), String::from(*v))).collect()
}

#[test]
fn block_extent_has_three_parts() {
    assert_eq!(
        to_block_extent(String::from("4,4,1")),
        (String::from("4"), String::from("4"), String::from("1"))
    );
    assert_eq!(
        to_block_extent(String::from(",12,")),
        (String::new(), String::from("12"), String::new())
    );
}

#[test]
fn attribute_info_is_read() {
    let info = get_format_attribute_info(attributes(&[
        ("name", "VK_FORMAT_BC1_RGB_UNORM_BLOCK"),
        ("class", "test"),
        ("blockSize", "8"),
        ("texels_per_block", "16"),
        ("block_extent", "4,4,1"),
        ("compressed", "test"),
    ]));
    assert_eq!(
        info,
        FormatAttributeInfo {
            name: String::from("VK_FORMAT_BC1_RGB_UNORM_BLOCK"),
            class: ImageFormatClass::TestElement,
            block_size: String::from("8"),
            texels_per_block: String::from("16"),
            block_extent: (String::from("4"), String::from("4"), String::from("1")),
            packed: None,
            compressed: Some(ImageFormatCompressionScheme::TestElement),
        }
    );
}

/// Without a block extent it is one by one by one, and a value given twice keeps the last.
#[test]
fn attribute_defaults_and_repeats() {
    let info = get_format_attribute_info(attributes(&[
        ("name", "first"),
        ("class", "test"),
        ("blockSize", "4"),
        ("texels_per_block", "1"),
        ("packed", "32"),
        ("name", "second"),
    ]));
    assert_eq!(info.name, String::from("second"));
    assert_eq!(info.block_extent, (String::from("1"), String::from("1"), String::from("1")));
    assert_eq!(info.packed, Some(String::from("32")));
    assert_eq!(info.compressed, None);
    assert_eq!(info.clone(), info);
}

#[test]
fn enum_values_are_read() {
    assert_eq!(ImageFormatClass::try_from("test"), Ok(ImageFormatClass::TestElement));
    assert_eq!(
        ImageFormatClass::try_from("8-bit"),
        Err(String::from("invalid ImageFormatClassvalue: 8-bit"))
    );
    assert_eq!(
        ImageFormatCompressionScheme::try_from("BC"),
        Err(String::from("invalid ImageFormatCompressionSchemevalue: BC"))
    );
}

#[test]
fn enum_text_is_generated() {
    assert_eq!(
        ImageFormatClass::generate_text(),
        "/// The class of the image format.\n/// Similar formats may share a class.\n#[non_exhaustive]\n#[derive(Debug, Copy, Clone, PartialEq, Eq)]\npub enum ImageFormatClass {\n\tImageFormatClass,\n}\n"
    );
    assert_eq!(
        ImageFormatCompressionScheme::generate_text(),
        "/// The compression scheme used in the format.\n#[non_exhaustive]\n#[derive(Debug, Copy, Clone, PartialEq, Eq)]\npub enum ImageFormatCompressionScheme {\n\tImageFormatCompressionScheme,\n}\n"
    );
}
