use rendering_project::renderer::RendererError;
use rendering_project::string_handler::convert_to_cstring;

#[test]
fn convert_empty_str_to_cstring() {
    assert_eq!(convert_to_cstring("").unwrap(), Vec::<u8>::new());
}

#[test]
fn convert_valid_str_to_cstring() {
    assert_eq!(convert_to_cstring("Hello World!").unwrap(), b"Hello World!".to_vec());
}

#[test]
fn convert_invalid_str_to_cstring() {
    assert!(convert_to_cstring("Hello\0World!").is_err());
}

#[test]
fn convert_empty_string_to_cstring() {
    assert_eq!(convert_to_cstring(String::from("").as_str()).unwrap(), Vec::<u8>::new());
}

#[test]
fn convert_valid_string_to_cstring() {
    assert_eq!(
        convert_to_cstring(String::from("Hello World!").as_str()).unwrap(),
        b"Hello World!".to_vec()
    );
}

#[test]
fn convert_invalid_string_to_cstring() {
    assert!(convert_to_cstring(String::from("Hello\0World!").as_str()).is_err());
}

/// The error gives the position of the first nul byte and the bytes of the whole text.
#[test]
fn nul_error_names_the_first_nul() {
    assert_eq!(
        convert_to_cstring("猫\0a\0"),
        Err(RendererError::StringContainingNullCharError(3, "猫\0a\0".as_bytes().to_vec()))
    );
}
