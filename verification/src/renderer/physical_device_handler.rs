//! Chooses the physical device to render with, from what each device reports about itself: its
//! queue families, its extensions, its display capabilities and its type.

use super::debugger::names_match;
use crate::string_handler::{find_nul, first_nul};
use super::device_info_handler::{has_flag, VulkanDisplayInfo};
use super::{result_view, spec_error_from_vk_result, RendererError, SpecRendererError};
use vstd::prelude::*;
use vstd::utf8::encode_utf8;

verus! {

/// The number of queue families that are looked for.
pub const NUM_QUEUE_FAMILIES: usize = 2;

/// The position of the graphics queue family: this queue is for graphics commands.
pub const GRAPHICS_QUEUE: usize = 0;

/// The position of the presentation queue family: this queue is for presenting the final image
/// to the surface.
pub const PRESENTATION_QUEUE: usize = 1;

/// The queue flag that marks a family able to run graphics commands.
pub const GRAPHICS_QUEUE_FLAG: u32 = 0x1;

/// The Vulkan code of a discrete GPU.
pub const DISCRETE_GPU: i32 = 2;

/// The largest queue family index that can be handled.
pub const MAX_QUEUE_FAMILY_INDEX: usize = 0xFFFF;

/// The queue family chosen for each role, indexed by [`GRAPHICS_QUEUE`] and
/// [`PRESENTATION_QUEUE`].
#[derive(Copy, Clone, Debug, PartialEq, Eq)]
pub struct QueueFamilyIndices {
    /// This stores all the queue families.
    pub queue_family_indices: [Option<u32>; 2],
}

/// What a device reports about one of its queue families.
#[derive(Copy, Clone, Debug, PartialEq, Eq)]
pub struct QueueFamilyReport {
    /// The queue flags of the family, as a bit mask.
    pub queue_flags: u32,
    /// Whether the family can present to the surface, or the Vulkan result code of the failed
    /// query.
    pub presentation_support: Result<bool, i32>,
}

/// What a physical device reports about itself.
#[derive(Debug, PartialEq, Eq)]
pub struct DeviceReport {
    /// Its queue families, in order.
    pub queue_families: Vec<QueueFamilyReport>,
    /// The names of its extensions, each as the bytes of its fixed-size name array, or the Vulkan
    /// result code of the failed query.
    pub extensions: Result<Vec<Vec<u8>>, i32>,
    /// What it supports of the surface, or the Vulkan result code of the failed query.
    pub display_info: Result<VulkanDisplayInfo, i32>,
    /// The Vulkan code of its device type.
    pub device_type: i32,
}

/// The search for queue families from family `i` on, with the graphics and presentation
/// families found so far: the first family with the graphics flag becomes the graphics family,
/// and the first that can present becomes the presentation family. Whether a family can present
/// is only looked at while no presentation family has been found. A family at a position above
/// [`MAX_QUEUE_FAMILY_INDEX`] is an error.
pub open spec fn queue_search(
    families: Seq<QueueFamilyReport>,
    i: int,
    graphics: Option<u32>,
    presentation: Option<u32>,
) -> Result<(Option<u32>, Option<u32>), SpecRendererError>
    decreases families.len() - i,
{
    if i < 0 || i >= families.len() {
        Ok((graphics, presentation))
    } else if i > MAX_QUEUE_FAMILY_INDEX {
        Err(SpecRendererError::TooManyQueuesAvailableToHandleError)
    } else {
        let g = if graphics is None && has_flag(families[i].queue_flags, GRAPHICS_QUEUE_FLAG) {
            Some(i as u32)
        } else {
            graphics
        };
        if presentation is None {
            match families[i].presentation_support {
                Err(code) => Err(spec_error_from_vk_result(code)),
                Ok(true) => queue_search(families, i + 1, g, Some(i as u32)),
                Ok(false) => queue_search(families, i + 1, g, presentation),
            }
        } else {
            queue_search(families, i + 1, g, presentation)
        }
    }
}

/// The queue families chosen from the reports of a device's queue families.
pub open spec fn queue_family_choice(families: Seq<QueueFamilyReport>) -> Result<
    QueueFamilyIndices,
    SpecRendererError,
> {
    match queue_search(families, 0, None, None) {
        Err(e) => Err(e),
        Ok((g, p)) => Ok(QueueFamilyIndices { queue_family_indices: [g, p] }),
    }
}

/// Finds the index for all the queue families we need.
pub fn get_queue_family_indices(families: &Vec<QueueFamilyReport>) -> (r: Result<
    QueueFamilyIndices,
    RendererError,
>)
    ensures
        result_view(r) == queue_family_choice(families@),
{
    let mut graphics: Option<u32> = None;
    let mut presentation: Option<u32> = None;
    let mut i: usize = 0;
    while i < families.len()
        invariant
            i <= families@.len(),
            queue_search(families@, 0, None, None) == queue_search(
                families@,
                i as int,
                graphics,
                presentation,
            ),
        decreases families@.len() - i,
    {
        if i > MAX_QUEUE_FAMILY_INDEX {
            return Err(RendererError::TooManyQueuesAvailableToHandleError);
        }
        let family = &families[i];
        if graphics.is_none() && family.queue_flags & GRAPHICS_QUEUE_FLAG == GRAPHICS_QUEUE_FLAG {
            graphics = Some(i as u32);
        }
        if presentation.is_none() {
            match &family.presentation_support {
                Err(code) => {
                    return Err(RendererError::from_vk_result(*code));
                },
                Ok(supported) => {
                    if *supported {
                        presentation = Some(i as u32);
                    }
                },
            }
        }
        i = i + 1;
    }
    Ok(QueueFamilyIndices { queue_family_indices: [graphics, presentation] })
}

/// The device extensions that are needed.
pub open spec fn device_extension_names() -> Seq<Seq<char>> {
    seq!["VK_KHR_swapchain"@]
}

/// The name held in a fixed-size name array: its bytes before the first nul byte, or all of them
/// when it holds none.
pub open spec fn name_in_array(bytes: Seq<u8>) -> Seq<u8> {
    match first_nul(bytes) {
        Some(end) => bytes.take(end),
        None => bytes,
    }
}

/// Whether some available extension has the given name.
pub open spec fn extension_available(available: Seq<Seq<u8>>, name: Seq<char>) -> bool {
    exists|j: int| 0 <= j < available.len() && name_in_array(#[trigger] available[j]) == encode_utf8(name)
}

/// Whether every needed device extension is available.
pub open spec fn extensions_supported(available: Seq<Seq<u8>>) -> bool {
    forall|k: int| 0 <= k < device_extension_names().len() ==> extension_available(
        available,
        #[trigger] device_extension_names()[k],
    )
}

/// Whether the name in a fixed-size name array is the given name.
fn name_is(array: &Vec<u8>, name: &[u8]) -> (r: bool)
    ensures
        r == (name_in_array(array@) == name@),
{
    let end = match find_nul(array.as_slice()) {
        Some(end) => end,
        None => array.len(),
    };
    assert(array@.take(array@.len() as int) == array@);
    names_match(name, array, end)
}

/// Whether an extension with the given name is among the available ones.
fn has_extension(available: &Vec<Vec<u8>>, name: &str) -> (r: bool)
    ensures
        r == extension_available(available.deep_view(), name@),
{
    let bytes = name.as_bytes();
    let mut j: usize = 0;
    while j < available.len()
        invariant
            j <= available@.len(),
            bytes@ == encode_utf8(name@),
            forall|k: int| 0 <= k < j ==> name_in_array(#[trigger] available.deep_view()[k]) != encode_utf8(name@),
        decreases available@.len() - j,
    {
        assert(available.deep_view()[j as int] == available@[j as int]@);
        if name_is(&available[j], bytes) {
            return true;
        }
        j = j + 1;
    }
    false
}

/// A function to check that the physical device supports the required device extensions,
/// given the names of its extensions or the code of the failed query.
pub fn check_device_extension_support(available: &Result<Vec<Vec<u8>>, i32>) -> (r: Result<
    bool,
    RendererError,
>)
    ensures
        result_view(r) == match available {
            Err(code) => Err(spec_error_from_vk_result(*code)),
            Ok(names) => Ok(extensions_supported(names.deep_view())),
        },
{
    let names = match available {
        Err(code) => {
            return Err(RendererError::from_vk_result(*code));
        },
        Ok(names) => names,
    };
    proof {
        reveal_strlit("VK_KHR_swapchain");
    }
    let supported = has_extension(names, "VK_KHR_swapchain");
    assert(device_extension_names()[0] == "VK_KHR_swapchain"@);
    Ok(supported)
}

/// Whether the display of a device can hold an adequate swapchain: it has at least one format
/// and at least one presentation mode.
pub open spec fn display_adequate(info: VulkanDisplayInfo) -> bool {
    info.formats@.len() > 0 && info.presentation_modes@.len() > 0
}

/// This function checks that the physical device and surface can handle an adequate swapchain,
/// given what the device reports of the surface or the code of the failed query.
pub fn check_device_display_capabilities(display_info: &Result<VulkanDisplayInfo, i32>) -> (r:
    Result<bool, RendererError>)
    ensures
        result_view(r) == match display_info {
            Err(code) => Err(spec_error_from_vk_result(*code)),
            Ok(info) => Ok(display_adequate(*info)),
        },
{
    match display_info {
        Err(code) => Err(RendererError::from_vk_result(*code)),
        Ok(info) => Ok(!info.formats.is_empty() && !info.presentation_modes.is_empty()),
    }
}

/// Whether a device is suitable, or the first error met while finding out: it needs a queue
/// family for every role, the needed extensions, and an adequate display.
pub open spec fn device_suitability(device: DeviceReport) -> Result<bool, SpecRendererError> {
    match queue_family_choice(device.queue_families@) {
        Err(e) => Err(e),
        Ok(indices) => if indices.queue_family_indices[GRAPHICS_QUEUE as int] is None
            || indices.queue_family_indices[PRESENTATION_QUEUE as int] is None {
            Ok(false)
        } else {
            match device.extensions {
                Err(code) => Err(spec_error_from_vk_result(code)),
                Ok(names) => if !extensions_supported(names.deep_view()) {
                    Ok(false)
                } else {
                    match device.display_info {
                        Err(code) => Err(spec_error_from_vk_result(code)),
                        Ok(info) => Ok(display_adequate(info)),
                    }
                },
            }
        },
    }
}

/// Returns true if a physical device is suitable for our needs, and false if not.
/// If any later part of the code requires support for a certain feature to be checked, do that
/// check here.
pub fn is_physical_device_suitable(device: &DeviceReport) -> (r: Result<bool, RendererError>)
    ensures
        result_view(r) == device_suitability(*device),
{
    let indices = match get_queue_family_indices(&device.queue_families) {
        Err(e) => {
            return Err(e);
        },
        Ok(indices) => indices,
    };
    let mut k: usize = 0;
    while k < NUM_QUEUE_FAMILIES
        invariant
            k <= NUM_QUEUE_FAMILIES,
            queue_family_choice(device.queue_families@) == Ok::<
                QueueFamilyIndices,
                SpecRendererError,
            >(indices),
            forall|m: int| 0 <= m < k ==> indices.queue_family_indices[m] is Some,
        decreases NUM_QUEUE_FAMILIES - k,
    {
        if indices.queue_family_indices[k].is_none() {
            assert(k == GRAPHICS_QUEUE || k == PRESENTATION_QUEUE);
            return Ok(false);
        }
        k = k + 1;
    }
    match check_device_extension_support(&device.extensions) {
        Ok(true) => {},
        other => {
            return other;
        },
    }
    check_device_display_capabilities(&device.display_info)
}

/// A function to rank the physical devices available: dedicated GPUs get a score of 1 and other
/// GPUs a score of 0.
pub fn rank_device(device_type: i32) -> (score: i32)
    ensures
        score == if device_type == DISCRETE_GPU { 1int } else { 0int },
{
    if device_type == DISCRETE_GPU {
        1
    } else {
        0
    }
}

/// The rank of a device type.
pub open spec fn device_rank(device_type: i32) -> int {
    if device_type == DISCRETE_GPU { 1 } else { 0 }
}

/// Going through the devices from position `i` on, with the best suitable device found so far
/// (its position and score): a suitable device replaces it only with a higher score, so the
/// first of the best-scored devices is kept. The first error met stops the search.
pub open spec fn device_search(devices: Seq<DeviceReport>, i: int, best: Option<(int, int)>) -> Result<
    Option<(int, int)>,
    SpecRendererError,
>
    decreases devices.len() - i,
{
    if i < 0 || i >= devices.len() {
        Ok(best)
    } else {
        match device_suitability(devices[i]) {
            Err(e) => Err(e),
            Ok(false) => device_search(devices, i + 1, best),
            Ok(true) => {
                let score = device_rank(devices[i].device_type);
                match best {
                    Some((_, best_score)) => if score > best_score {
                        device_search(devices, i + 1, Some((i, score)))
                    } else {
                        device_search(devices, i + 1, best)
                    },
                    None => device_search(devices, i + 1, Some((i, score))),
                }
            },
        }
    }
}

/// The position of the device to use among the reports, or why there is none.
pub open spec fn device_choice(devices: Seq<DeviceReport>) -> Result<int, SpecRendererError> {
    match device_search(devices, 0, None) {
        Err(e) => Err(e),
        Ok(None) => Err(SpecRendererError::UnableToFindSuitablePhysicalDeviceError),
        Ok(Some((position, _))) => Ok(position),
    }
}

/// This function will return the position of the most appropriate physical device for use among
/// the reports of the available devices, or an error if there is not an appropriate physical
/// device. Among the suitable devices with the highest rank, the first is chosen.
pub fn get_physical_device(devices: &Vec<DeviceReport>) -> (r: Result<usize, RendererError>)
    ensures
        match r {
            Ok(position) => device_choice(devices@) == Ok::<int, SpecRendererError>(position as int),
            Err(e) => device_choice(devices@) == Err::<int, SpecRendererError>(e@),
        },
{
    let mut best: Option<(usize, i32)> = None;
    let ghost best_view: Option<(int, int)> = None;
    let mut i: usize = 0;
    while i < devices.len()
        invariant
            i <= devices@.len(),
            best_view == match best {
                Some((p, s)) => Some((p as int, s as int)),
                None => None::<(int, int)>,
            },
            match best {
                Some((p, s)) => p < i && (s == 0 || s == 1),
                None => true,
            },
            device_search(devices@, 0, None) == device_search(devices@, i as int, best_view),
        decreases devices@.len() - i,
    {
        let suitable = match is_physical_device_suitable(&devices[i]) {
            Err(e) => {
                return Err(e);
            },
            Ok(suitable) => suitable,
        };
        if suitable {
            let score = rank_device(devices[i].device_type);
            match best {
                Some((_, best_score)) => {
                    if score > best_score {
                        best = Some((i, score));
                    }
                },
                None => {
                    best = Some((i, score));
                },
            }
            proof {
                best_view = match best {
                    Some((p, s)) => Some((p as int, s as int)),
                    None => None::<(int, int)>,
                };
            }
        }
        i = i + 1;
    }
    match best {
        Some((position, _)) => Ok(position),
        None => Err(RendererError::UnableToFindSuitablePhysicalDeviceError),
    }
}

/// Whether the device at position `j` is suitable.
pub open spec fn suitable_at(devices: Seq<DeviceReport>, j: int) -> bool {
    device_suitability(devices[j]) == Ok::<bool, SpecRendererError>(true)
}

/// What holds of the best device found among the first `i`: it is suitable and scored by its
/// rank, no suitable device among them ranks higher, and every suitable device before it ranks
/// lower. With no best device, none of them is suitable.
pub open spec fn best_so_far(devices: Seq<DeviceReport>, i: int, best: Option<(int, int)>) -> bool {
    match best {
        None => forall|j: int| 0 <= j < i ==> !suitable_at(devices, j),
        Some((p, score)) => {
            &&& 0 <= p < i
            &&& suitable_at(devices, p)
            &&& score == device_rank(devices[p].device_type)
            &&& forall|j: int|
                0 <= j < i && suitable_at(devices, j) ==> device_rank(devices[j].device_type)
                    <= score
            &&& forall|j: int|
                0 <= j < p && suitable_at(devices, j) ==> device_rank(devices[j].device_type)
                    < score
        },
    }
}

proof fn lemma_device_search(devices: Seq<DeviceReport>, i: int, best: Option<(int, int)>)
    requires
        0 <= i <= devices.len(),
        best_so_far(devices, i, best),
    ensures
        device_search(devices, i, best) matches Ok(found) ==> best_so_far(
            devices,
            devices.len() as int,
            found,
        ),
    decreases devices.len() - i,
{
    if i < devices.len() {
        match device_suitability(devices[i]) {
            Err(_) => {},
            Ok(false) => {
                assert(!suitable_at(devices, i));
                lemma_device_search(devices, i + 1, best);
            },
            Ok(true) => {
                assert(suitable_at(devices, i));
                let score = device_rank(devices[i].device_type);
                match best {
                    Some((p, best_score)) => if score > best_score {
                        lemma_device_search(devices, i + 1, Some((i, score)));
                    } else {
                        lemma_device_search(devices, i + 1, best);
                    },
                    None => {
                        lemma_device_search(devices, i + 1, Some((i, score)));
                    },
                }
            },
        }
    }
}

/// The device chosen is suitable, no suitable device has a higher rank, and every suitable
/// device before it has a lower rank: it is the first of the best-ranked suitable devices.
pub proof fn law_chosen_device_is_first_best(devices: Seq<DeviceReport>, position: int)
    requires
        device_choice(devices) == Ok::<int, SpecRendererError>(position),
    ensures
        0 <= position < devices.len(),
        suitable_at(devices, position),
        forall|j: int|
            0 <= j < devices.len() && suitable_at(devices, j) ==> device_rank(
                devices[j].device_type,
            ) <= device_rank(devices[position].device_type),
        forall|j: int|
            0 <= j < position && suitable_at(devices, j) ==> device_rank(devices[j].device_type)
                < device_rank(devices[position].device_type),
{
    lemma_device_search(devices, 0, None);
}

/// Whether the family at position `j` has the graphics flag.
pub open spec fn graphics_at(families: Seq<QueueFamilyReport>, j: int) -> bool {
    has_flag(families[j].queue_flags, GRAPHICS_QUEUE_FLAG)
}

/// Whether the family at position `j` was reported able to present.
pub open spec fn presents_at(families: Seq<QueueFamilyReport>, j: int) -> bool {
    families[j].presentation_support == Ok::<bool, i32>(true)
}

/// What holds of the families chosen among the first `i`: each is the first family for its role,
/// and with none chosen, no family among them fits the role (every one of them was reported unable
/// to present, for the presentation role).
pub open spec fn first_families(
    families: Seq<QueueFamilyReport>,
    i: int,
    graphics: Option<u32>,
    presentation: Option<u32>,
) -> bool {
    &&& match graphics {
        None => forall|j: int| 0 <= j < i ==> !graphics_at(families, j),
        Some(g) => g < i && graphics_at(families, g as int) && forall|j: int|
            0 <= j < g ==> !graphics_at(families, j),
    }
    &&& match presentation {
        None => forall|j: int|
            0 <= j < i ==> families[j].presentation_support == Ok::<bool, i32>(false),
        Some(p) => p < i && presents_at(families, p as int) && forall|j: int|
            0 <= j < p ==> families[j].presentation_support == Ok::<bool, i32>(false),
    }
}

proof fn lemma_queue_search(
    families: Seq<QueueFamilyReport>,
    i: int,
    graphics: Option<u32>,
    presentation: Option<u32>,
)
    requires
        0 <= i <= families.len(),
        first_families(families, i, graphics, presentation),
    ensures
        queue_search(families, i, graphics, presentation) matches Ok((g, p)) ==> first_families(
            families,
            families.len() as int,
            g,
            p,
        ),
    decreases families.len() - i,
{
    if i < families.len() && i <= MAX_QUEUE_FAMILY_INDEX {
        let g = if graphics is None && graphics_at(families, i) {
            Some(i as u32)
        } else {
            graphics
        };
        if presentation is None {
            match families[i].presentation_support {
                Err(_) => {},
                Ok(true) => lemma_queue_search(families, i + 1, g, Some(i as u32)),
                Ok(false) => lemma_queue_search(families, i + 1, g, presentation),
            }
        } else {
            lemma_queue_search(families, i + 1, g, presentation);
        }
    }
}

/// The graphics family chosen is the first family with the graphics flag, and none is chosen
/// only when no family has it; the presentation family chosen is the first reported able to
/// present, and none is chosen only when every family was reported unable to.
pub proof fn law_first_fitting_families(families: Seq<QueueFamilyReport>, indices: QueueFamilyIndices)
    requires
        queue_family_choice(families) == Ok::<QueueFamilyIndices, SpecRendererError>(indices),
    ensures
        first_families(
            families,
            families.len() as int,
            indices.queue_family_indices[GRAPHICS_QUEUE as int],
            indices.queue_family_indices[PRESENTATION_QUEUE as int],
        ),
{
    lemma_queue_search(families, 0, None, None);
}

/// A device judged suitable has a queue family with the graphics flag and a queue family
/// reported able to present to the surface, lists the swapchain extension among its
/// extensions, and offers at least one surface format and one presentation mode.
pub proof fn law_suitable_device_fits(device: DeviceReport)
    requires
        device_suitability(device) == Ok::<bool, SpecRendererError>(true),
    ensures
        exists|j: int|
            0 <= j < device.queue_families@.len() && #[trigger] device.queue_families@[j].queue_flags
                & 0x1 == 0x1,
        exists|j: int|
            0 <= j < device.queue_families@.len()
                && #[trigger] device.queue_families@[j].presentation_support == Ok::<bool, i32>(
                true,
            ),
        device.extensions matches Ok(names) && exists|j: int|
            0 <= j < names@.len() && name_in_array(#[trigger] names.deep_view()[j]) == encode_utf8(
                "VK_KHR_swapchain"@,
            ),
        device.display_info matches Ok(info) && info.formats@.len() > 0
            && info.presentation_modes@.len() > 0,
{
    let families = device.queue_families@;
    let indices = queue_family_choice(families)->Ok_0;
    law_first_fitting_families(families, indices);
    let g = indices.queue_family_indices[GRAPHICS_QUEUE as int]->0;
    let p = indices.queue_family_indices[PRESENTATION_QUEUE as int]->0;
    assert(graphics_at(families, g as int));
    assert(families[g as int].queue_flags & 0x1 == 0x1);
    assert(presents_at(families, p as int));
    let names = device.extensions->Ok_0;
    assert(extension_available(names.deep_view(), device_extension_names()[0]));
    assert(device_extension_names()[0] == "VK_KHR_swapchain"@);
}

/// The device chosen among the reports has a graphics family, a family able to present, the
/// swapchain extension, and at least one surface format and one presentation mode.
pub proof fn law_chosen_device_fits(devices: Seq<DeviceReport>, position: int)
    requires
        device_choice(devices) == Ok::<int, SpecRendererError>(position),
    ensures
        0 <= position < devices.len(),
        exists|j: int|
            0 <= j < devices[position].queue_families@.len()
                && #[trigger] devices[position].queue_families@[j].presentation_support == Ok::<
                bool,
                i32,
            >(true),
        exists|j: int|
            0 <= j < devices[position].queue_families@.len()
                && #[trigger] devices[position].queue_families@[j].queue_flags & 0x1 == 0x1,
{
    law_chosen_device_is_first_best(devices, position);
    law_suitable_device_fits(devices[position]);
}

} // verus!
