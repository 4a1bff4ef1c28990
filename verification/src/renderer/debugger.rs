//! The names of the layers and extensions that the Vulkan instance is set up with, including
//! those used for debugging, and the check that the layers needed are available.

use super::{result_view, RendererError, SpecRendererError};
use crate::string_handler::{find_nul, first_nul, is_first_nul, no_nul_before, nul_error};
use vstd::prelude::*;

verus! {

/// The layers that validate the use of Vulkan, enabled in debug builds.
pub open spec fn validation_layer_names() -> Seq<Seq<char>> {
    seq!["VK_LAYER_KHRONOS_validation"@]
}

/// The extensions used for debugging, enabled in debug builds.
pub open spec fn validation_extension_names() -> Seq<Seq<char>> {
    seq!["VK_EXT_debug_utils"@]
}

/// Gets the names of the layers needed to set up the vulkan instance including debugging: the
/// validation layers in a debug build, and none otherwise.
pub fn get_setup_layer_names(debug_build: bool) -> (names: Vec<String>)
    ensures
        names.deep_view() == if debug_build {
            validation_layer_names()
        } else {
            Seq::empty()
        },
{
    let mut layers: Vec<String> = Vec::new();
    if debug_build {
        layers.push("VK_LAYER_KHRONOS_validation".to_owned());
    }
    proof {
        reveal_strlit("VK_LAYER_KHRONOS_validation");
    }
    assert(layers.deep_view() =~= if debug_build {
        validation_layer_names()
    } else {
        Seq::empty()
    });
    layers
}

/// Gets the names of the extensions needed to set up the vulkan instance including debugging:
/// the extensions that the windowing library asks for, followed in a debug build by the
/// debugging extensions. When the windowing library could not say which extensions it needs,
/// that call is reported as failed.
pub fn get_setup_extension_names(
    glfw_extensions: Option<Vec<String>>,
    debug_build: bool,
) -> (r: Result<Vec<String>, RendererError>)
    ensures
        match glfw_extensions {
            None => r matches Err(e) && e@ == SpecRendererError::GlfwCallFailed(
                "get_required_instance_extensions"@,
            ),
            Some(needed) => r matches Ok(names) && names.deep_view() == needed.deep_view() + if debug_build {
                validation_extension_names()
            } else {
                Seq::empty()
            },
        },
{
    let mut extension_names = match glfw_extensions {
        Some(needed) => needed,
        None => {
            return Err(RendererError::GlfwCallFailed("get_required_instance_extensions".to_owned()));
        },
    };
    let ghost needed = extension_names.deep_view();
    if debug_build {
        extension_names.push("VK_EXT_debug_utils".to_owned());
    }
    proof {
        reveal_strlit("VK_EXT_debug_utils");
    }
    assert(extension_names.deep_view() =~= needed + if debug_build {
        validation_extension_names()
    } else {
        Seq::empty()
    });
    Ok(extension_names)
}

/// The result of searching the available layers from position `j` on for one named `name`
/// (given by its bytes): whether it was found, or the error that stopped the search. The name
/// and each available layer are turned into C strings as they are compared: a name holding a
/// nul byte cannot be one, and an available layer name must end at a nul byte.
pub open spec fn layer_search(name: Seq<u8>, available: Seq<Seq<u8>>, j: int) -> Result<
    bool,
    SpecRendererError,
>
    decreases available.len() - j,
{
    if j < 0 || j >= available.len() {
        Ok(false)
    } else {
        match first_nul(name) {
            Some(p) => Err(SpecRendererError::StringContainingNullCharError(p as usize, name)),
            None => match first_nul(available[j]) {
                None => Err(SpecRendererError::CStringDidNotContainTerminatingNullButeError),
                Some(q) => if name == available[j].take(q) {
                    Ok(true)
                } else {
                    layer_search(name, available, j + 1)
                },
            },
        }
    }
}

/// The result of checking the layers from position `i` on, in order, against the available
/// layers: the first error met, a missing layer, or success.
pub open spec fn layers_exist_from(names: Seq<Seq<u8>>, available: Seq<Seq<u8>>, i: int) -> Result<
    (),
    SpecRendererError,
>
    decreases names.len() - i,
{
    if i < 0 || i >= names.len() {
        Ok(())
    } else {
        match layer_search(names[i], available, 0) {
            Err(e) => Err(e),
            Ok(false) => Err(SpecRendererError::LayerRequiredNotSupportedError),
            Ok(true) => layers_exist_from(names, available, i + 1),
        }
    }
}

/// The UTF-8 bytes of each name.
pub open spec fn names_as_bytes(names: Seq<String>) -> Seq<Seq<u8>> {
    names.map_values(|s: String| vstd::utf8::encode_utf8(s@))
}

/// Whether the bytes of `name` are the first `end` bytes of `available`.
pub(crate) fn names_match(name: &[u8], available: &Vec<u8>, end: usize) -> (r: bool)
    requires
        end <= available@.len(),
    ensures
        r == (name@ == available@.take(end as int)),
{
    if name.len() != end {
        return false;
    }
    let mut i: usize = 0;
    while i < end
        invariant
            i <= end <= available@.len(),
            name@.len() == end,
            name@.take(i as int) == available@.take(i as int),
        decreases end - i,
    {
        if name[i] != available[i] {
            assert(name@[i as int] != available@.take(end as int)[i as int]);
            return false;
        }
        assert(name@.take(i + 1) == name@.take(i as int).push(name@[i as int]));
        assert(available@.take(i + 1) == available@.take(i as int).push(available@[i as int]));
        i = i + 1;
    }
    assert(name@.take(end as int) == name@);
    true
}

/// Searches the available layers for one named by the given bytes.
fn search_layer(name: &[u8], available_layers: &Vec<Vec<u8>>) -> (r: Result<bool, RendererError>)
    ensures
        result_view(r) == layer_search(name@, available_layers.deep_view(), 0),
{
    let ghost available = available_layers.deep_view();
    let mut j: usize = 0;
    while j < available_layers.len()
        invariant
            j <= available_layers@.len(),
            available == available_layers.deep_view(),
            layer_search(name@, available, 0) == layer_search(name@, available, j as int),
        decreases available_layers@.len() - j,
    {
        assert(available[j as int] == available_layers@[j as int]@);
        match find_nul(name) {
            Some(p) => {
                return Err(nul_error(p, name));
            },
            None => {},
        }
        let candidate = &available_layers[j];
        let end = match find_nul(candidate.as_slice()) {
            Some(q) => q,
            None => {
                return Err(RendererError::CStringDidNotContainTerminatingNullButeError);
            },
        };
        if names_match(name, candidate, end) {
            return Ok(true);
        }
        j = j + 1;
    }
    Ok(false)
}

/// Validates that the layers that are passed to it are available to use, given the names of the
/// available layers as the bytes Vulkan reports for them. The layers are checked in order, and the
/// first error met, or the first missing layer, is reported.
pub fn validate_setup_layers_exist(
    layer_names: &Vec<String>,
    available_layers: &Vec<Vec<u8>>,
) -> (r: Result<(), RendererError>)
    ensures
        result_view(r) == layers_exist_from(
            names_as_bytes(layer_names@),
            available_layers.deep_view(),
            0,
        ),
{
    let ghost names = names_as_bytes(layer_names@);
    let mut i: usize = 0;
    while i < layer_names.len()
        invariant
            i <= layer_names@.len(),
            names == names_as_bytes(layer_names@),
            layers_exist_from(names, available_layers.deep_view(), 0) == layers_exist_from(
                names,
                available_layers.deep_view(),
                i as int,
            ),
        decreases layer_names@.len() - i,
    {
        let name = layer_names[i].as_str().as_bytes();
        assert(name@ == names[i as int]);
        match search_layer(name, available_layers) {
            Err(e) => {
                return Err(e);
            },
            Ok(false) => {
                return Err(RendererError::LayerRequiredNotSupportedError);
            },
            Ok(true) => {},
        }
        i = i + 1;
    }
    Ok(())
}

/// Whether `name` is the name that an available layer's bytes hold before their first nul byte.
pub open spec fn names_available_layer(name: Seq<u8>, available: Seq<Seq<u8>>) -> bool {
    exists|k: int, q: int|
        0 <= k < available.len() && 0 <= q < available[k].len() && available[k][q] == 0
            && (forall|b: int| 0 <= b < q ==> available[k][b] != 0) && name
            == #[trigger] available[k].take(q)
}

proof fn lemma_layer_search_found(name: Seq<u8>, available: Seq<Seq<u8>>, j: int)
    requires
        0 <= j,
    ensures
        layer_search(name, available, j) == Ok::<bool, SpecRendererError>(true) ==> {
            &&& forall|b: int| 0 <= b < name.len() ==> name[b] != 0
            &&& names_available_layer(name, available)
        },
    decreases available.len() - j,
{
    if j < available.len() {
        if first_nul(name) is None && first_nul(available[j]) is Some {
            let q = first_nul(available[j])->0;
            if name == available[j].take(q) {
                assert(is_first_nul(available[j], q));
                assert forall|b: int| 0 <= b < name.len() implies name[b] != 0 by {
                    if name[b] == 0 {
                        assert(is_first_nul(name, b) || exists|c: int| is_first_nul(name, c)) by {
                            lemma_some_first_nul(name, b);
                        }
                    }
                }
                assert(available[j].take(q) == name);
            } else {
                lemma_layer_search_found(name, available, j + 1);
            }
        }
    }
}

/// A byte sequence holding a nul byte has a first one.
proof fn lemma_some_first_nul(bytes: Seq<u8>, b: int)
    requires
        0 <= b < bytes.len(),
        bytes[b] == 0,
    ensures
        exists|c: int| is_first_nul(bytes, c),
    decreases b,
{
    if no_nul_before(bytes, b) {
        assert(is_first_nul(bytes, b));
    } else {
        let c = choose|c: int| 0 <= c < b && bytes[c] == 0;
        lemma_some_first_nul(bytes, c);
    }
}

proof fn lemma_layers_exist(names: Seq<Seq<u8>>, available: Seq<Seq<u8>>, i: int)
    requires
        0 <= i,
    ensures
        layers_exist_from(names, available, i) == Ok::<(), SpecRendererError>(()) ==> forall|m: int|
            i <= m < names.len() ==> names_available_layer(#[trigger] names[m], available),
    decreases names.len() - i,
{
    if i < names.len() {
        lemma_layer_search_found(names[i], available, 0);
        lemma_layers_exist(names, available, i + 1);
    }
}

/// When the check succeeds, every layer asked for is available: its name's bytes are the bytes
/// before the first nul byte of some available layer's name.
pub proof fn law_validated_layers_are_available(names: Seq<Seq<u8>>, available: Seq<Seq<u8>>)
    requires
        layers_exist_from(names, available, 0) == Ok::<(), SpecRendererError>(()),
    ensures
        forall|m: int|
            0 <= m < names.len() ==> names_available_layer(#[trigger] names[m], available),
{
    lemma_layers_exist(names, available, 0);
}

/// When some layer asked for has a name that no available layer has, the check fails.
pub proof fn law_missing_layer_fails(names: Seq<Seq<u8>>, available: Seq<Seq<u8>>, m: int)
    requires
        0 <= m < names.len(),
        !names_available_layer(names[m], available),
    ensures
        layers_exist_from(names, available, 0) is Err,
{
    lemma_layers_exist(names, available, 0);
    if let Ok(u) = layers_exist_from(names, available, 0) {
        assert(u == ());
        assert(names_available_layer(names[m], available));
    }
}

} // verus!
