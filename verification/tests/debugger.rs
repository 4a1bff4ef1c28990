use rendering_project::renderer::debugger::{
    get_setup_extension_names, get_setup_layer_names, validate_setup_layers_exist,
};
use rendering_project::renderer::RendererError;

/// The name arrays of the layers available on a machine with the Khronos validation and profiles
/// layers installed, as Vulkan reports them: each name padded with nul bytes.
fn available_layers() -> Vec<Vec<u8>> {
    let mut layers = Vec::new();
    for name in ["VK_LAYER_KHRONOS_profiles", "VK_LAYER_KHRONOS_validation", "VK_LAYER_MESA_overlay"] {
        let mut bytes = name.as_bytes().to_vec();
        bytes.resize(256, 0);
        layers.push(bytes);
    }
    layers
}

fn test_layer_support(layers_string: &Vec<String>) -> bool {
    match validate_setup_layers_exist(layers_string, &available_layers()) {
        Ok(()) => true,
        Err(RendererError::LayerRequiredNotSupportedError) => false,
        Err(_) => panic!("Should not happen!"),
    }
}

#[test]
fn can_get_setup_layer_names() {
    get_setup_layer_names(true);
}

#[test]
fn setup_layer_names_not_empty() {
    assert_ne!(get_setup_layer_names(true).len(), 0);
}

#[test]
fn layer_support_no_layers() {
    let layers = vec![];
    assert_eq!(test_layer_support(&layers), true)
}

#[test]
fn layer_support_valid_layers() {
    let layers = vec![String::from("VK_LAYER_KHRONOS_validation")];
    assert_eq!(test_layer_support(&layers), true)
}

#[test]
fn layer_support_invalid_layers() {
    let layers = vec![String::from("random name")];
    assert_eq!(test_layer_support(&layers), false)
}

#[test]
fn layer_support_valid_collection() {
    let layers = vec![
        String::from("VK_LAYER_KHRONOS_profiles"),
        String::from("VK_LAYER_KHRONOS_validation"),
    ];
    assert_eq!(test_layer_support(&layers), true)
}

#[test]
fn layer_support_invalid_collection() {
    let layers = vec![String::from("random name"), String::from("VK_LAYER_KHRONOS_validation")];
    assert_eq!(test_layer_support(&layers), false)
}

fn glfw_extensions() -> Option<Vec<String>> {
    Some(vec![String::from("VK_KHR_surface"), String::from("VK_KHR_xcb_surface")])
}

#[test]
fn can_get_setup_extension_names() {
    match get_setup_extension_names(glfw_extensions(), true) {
        Ok(_) => (),
        Err(e) => panic!("{e:?}"),
    }
}

#[test]
fn setup_extension_names_not_empty() {
    assert_ne!(get_setup_extension_names(glfw_extensions(), true).unwrap().len(), 0);
}

/// In a release build no validation layer is asked for.
#[test]
fn release_build_asks_for_no_layers() {
    assert!(get_setup_layer_names(false).is_empty());
    assert_eq!(get_setup_layer_names(true), vec![String::from("VK_LAYER_KHRONOS_validation")]);
}

/// The debugging extension follows the windowing library's extensions in a debug build.
#[test]
fn extension_names_keep_their_order() {
    assert_eq!(
        get_setup_extension_names(glfw_extensions(), true).unwrap(),
        vec![
            String::from("VK_KHR_surface"),
            String::from("VK_KHR_xcb_surface"),
            String::from("VK_EXT_debug_utils"),
        ]
    );
    assert_eq!(get_setup_extension_names(glfw_extensions(), false).unwrap(), glfw_extensions().unwrap());
}

/// Without the windowing library's answer the call is reported as failed.
#[test]
fn missing_window_extensions_are_an_error() {
    assert_eq!(
        get_setup_extension_names(None, true),
        Err(RendererError::GlfwCallFailed(String::from("get_required_instance_extensions")))
    );
}

/// A layer name holding a nul byte cannot be handed to Vulkan; an available layer name without a
/// nul byte cannot be read.
#[test]
fn layer_names_must_be_c_strings() {
    let bad_name = vec![String::from("bad\0name")];
    assert_eq!(
        validate_setup_layers_exist(&bad_name, &available_layers()),
        Err(RendererError::StringContainingNullCharError(3, b"bad\0name".to_vec()))
    );
    assert_eq!(validate_setup_layers_exist(&bad_name, &Vec::new()), Err(RendererError::LayerRequiredNotSupportedError));
    let unterminated = vec![b"VK_LAYER_KHRONOS_validation".to_vec()];
    assert_eq!(
        validate_setup_layers_exist(&vec![String::from("VK_LAYER_KHRONOS_validation")], &unterminated),
        Err(RendererError::CStringDidNotContainTerminatingNullButeError)
    );
}
