//! A rendering project's verified core: an XML reader for the Vulkan registry, the reading of
//! the registry's image formats, and the translation of Vulkan device information into plain
//! values.

pub mod format_parser;
pub mod registry;
pub mod renderer;
pub mod string_handler;
pub mod xml_parser;

use renderer::{RendererError, RendererRequest, SpecRendererError};
use string_handler::{c_string_of, convert_to_cstring};
use vstd::prelude::*;

verus! {

/// What asking for a renderer with the given name and number of frames gives: the error for a
/// name that is not a C string; for zero frames, the error that the image count is not
/// available, with the least image count that any device offers (one) and a maximum of zero,
/// which Vulkan uses for "no maximum"; and otherwise the checked request.
pub open spec fn renderer_request(name: Seq<char>, num_frames: u8) -> Result<
    (Seq<u8>, u8),
    SpecRendererError,
> {
    match c_string_of(name) {
        Err(e) => Err(e),
        Ok(bytes) => if num_frames == 0 {
            Err(SpecRendererError::ImageCountNotAvailableError(1, 0))
        } else {
            Ok((bytes, num_frames))
        },
    }
}

/// Checks a request for a renderer with the given application name and number of swapchain
/// frames; the renderer is then built from the checked request.
pub fn get_renderer(name: &str, num_frames: u8) -> (r: Result<RendererRequest, RendererError>)
    ensures
        match r {
            Ok(request) => renderer_request(name@, num_frames) == Ok::<
                (Seq<u8>, u8),
                SpecRendererError,
            >((request.app_name@, request.num_frames)),
            Err(e) => renderer_request(name@, num_frames) == Err::<(Seq<u8>, u8), SpecRendererError>(
                e@,
            ),
        },
{
    let app_name = match convert_to_cstring(name) {
        Ok(bytes) => bytes,
        Err(e) => {
            return Err(e);
        },
    };
    if num_frames == 0 {
        return Err(RendererError::ImageCountNotAvailableError(1, 0));
    }
    Ok(RendererRequest { app_name, num_frames })
}

} // verus!
