//! Chooses the settings of the swapchain from what the device supports.

use super::device_info_handler::VulkanSurfaceFormat;
use vstd::prelude::*;

verus! {

/// The code of the image format preferred for the swapchain: `R8G8B8A8_SRGB`.
pub const PREFERRED_FORMAT: i32 = 43;

/// The code of the presentation mode preferred for the swapchain: mailbox.
pub const PREFERRED_PRESENT_MODE: i32 = 1;

/// The code of the presentation mode that every device supports: FIFO.
pub const FIFO_PRESENT_MODE: i32 = 2;

/// The last of the formats with the preferred image format, if there is one.
pub open spec fn last_preferred_format(formats: Seq<VulkanSurfaceFormat>) -> Option<
    VulkanSurfaceFormat,
>
    decreases formats.len(),
{
    if formats.len() == 0 {
        None
    } else if formats.last().format == PREFERRED_FORMAT {
        Some(formats.last())
    } else {
        last_preferred_format(formats.drop_last())
    }
}

/// The format chosen for the swapchain: the last with the preferred image format, or else the
/// first format, or none when there are no formats.
pub open spec fn format_choice(formats: Seq<VulkanSurfaceFormat>) -> Option<VulkanSurfaceFormat> {
    match last_preferred_format(formats) {
        Some(f) => Some(f),
        None => if formats.len() > 0 {
            Some(formats[0])
        } else {
            None
        },
    }
}

/// Chooses the surface format of the swapchain among those the device supports.
pub fn desired_format(formats: &Vec<VulkanSurfaceFormat>) -> (r: Option<VulkanSurfaceFormat>)
    ensures
        r == format_choice(formats@),
{
    let mut desired: Option<VulkanSurfaceFormat> = None;
    let mut i: usize = 0;
    while i < formats.len()
        invariant
            i <= formats@.len(),
            desired == last_preferred_format(formats@.take(i as int)),
        decreases formats@.len() - i,
    {
        assert(formats@.take(i + 1).drop_last() == formats@.take(i as int));
        if formats[i].format == PREFERRED_FORMAT {
            desired = Some(formats[i]);
        }
        i = i + 1;
    }
    assert(formats@.take(formats@.len() as int) == formats@);
    if desired.is_none() && formats.len() > 0 {
        desired = Some(formats[0]);
    }
    desired
}

/// Chooses the presentation mode of the swapchain among the codes of those the device supports:
/// mailbox when it is supported, and FIFO otherwise.
pub fn desired_present_mode(modes: &Vec<i32>) -> (mode: i32)
    ensures
        mode == if modes@.contains(PREFERRED_PRESENT_MODE) {
            PREFERRED_PRESENT_MODE
        } else {
            FIFO_PRESENT_MODE
        },
{
    let mut desired = FIFO_PRESENT_MODE;
    let mut i: usize = 0;
    while i < modes.len()
        invariant
            i <= modes@.len(),
            desired == if modes@.take(i as int).contains(PREFERRED_PRESENT_MODE) {
                PREFERRED_PRESENT_MODE
            } else {
                FIFO_PRESENT_MODE
            },
        decreases modes@.len() - i,
    {
        let ghost before = modes@.take(i as int);
        let ghost after = modes@.take(i + 1);
        assert(after == before.push(modes@[i as int]));
        assert(after.contains(PREFERRED_PRESENT_MODE) <==> (before.contains(PREFERRED_PRESENT_MODE)
            || modes@[i as int] == PREFERRED_PRESENT_MODE)) by {
            if before.contains(PREFERRED_PRESENT_MODE) {
                let j = choose|j: int| 0 <= j < before.len() && before[j] == PREFERRED_PRESENT_MODE;
                assert(after[j] == PREFERRED_PRESENT_MODE);
            }
            if modes@[i as int] == PREFERRED_PRESENT_MODE {
                assert(after[i as int] == PREFERRED_PRESENT_MODE);
            }
            if after.contains(PREFERRED_PRESENT_MODE) && modes@[i as int] != PREFERRED_PRESENT_MODE {
                let j = choose|j: int| 0 <= j < after.len() && after[j] == PREFERRED_PRESENT_MODE;
                assert(before[j] == PREFERRED_PRESENT_MODE);
            }
        }
        if modes[i] == PREFERRED_PRESENT_MODE {
            desired = modes[i];
        }
        i = i + 1;
    }
    assert(modes@.take(modes@.len() as int) == modes@);
    desired
}

proof fn lemma_last_preferred(formats: Seq<VulkanSurfaceFormat>)
    ensures
        last_preferred_format(formats) matches Some(f) ==> exists|k: int|
            0 <= k < formats.len() && formats[k] == f && f.format == PREFERRED_FORMAT && forall|j: int|
                k < j < formats.len() ==> formats[j].format != PREFERRED_FORMAT,
        last_preferred_format(formats) is None ==> forall|j: int|
            0 <= j < formats.len() ==> formats[j].format != PREFERRED_FORMAT,
    decreases formats.len(),
{
    if formats.len() > 0 {
        let rest = formats.drop_last();
        lemma_last_preferred(rest);
        if formats.last().format == PREFERRED_FORMAT {
            assert(formats[formats.len() - 1] == formats.last());
        } else {
            if let Some(f) = last_preferred_format(rest) {
                let k = choose|k: int|
                    0 <= k < rest.len() && rest[k] == f && f.format == PREFERRED_FORMAT && forall|
                        j: int,
                    |
                        k < j < rest.len() ==> rest[j].format != PREFERRED_FORMAT;
                assert(formats[k] == f);
                assert forall|j: int| k < j < formats.len() implies formats[j].format
                    != PREFERRED_FORMAT by {
                    if j < rest.len() {
                        assert(formats[j] == rest[j]);
                    } else {
                        assert(formats[j] == formats.last());
                    }
                }
            } else {
                assert forall|j: int| 0 <= j < formats.len() implies formats[j].format
                    != PREFERRED_FORMAT by {
                    if j < rest.len() {
                        assert(formats[j] == rest[j]);
                    } else {
                        assert(formats[j] == formats.last());
                    }
                }
            }
        }
    }
}

/// When some supported format has the preferred image format, the chosen format is the last
/// such format in the list; when none has it, the first format is chosen; and with no formats,
/// none is.
pub proof fn law_format_choice(formats: Seq<VulkanSurfaceFormat>)
    ensures
        (exists|j: int| 0 <= j < formats.len() && formats[j].format == PREFERRED_FORMAT) ==> exists|
            k: int,
        |
            0 <= k < formats.len() && format_choice(formats) == Some(formats[k])
                && formats[k].format == PREFERRED_FORMAT && forall|j: int|
                k < j < formats.len() ==> formats[j].format != PREFERRED_FORMAT,
        (forall|j: int| 0 <= j < formats.len() ==> formats[j].format != PREFERRED_FORMAT) ==> (
        format_choice(formats) == if formats.len() > 0 {
            Some(formats[0])
        } else {
            None
        }),
{
    lemma_last_preferred(formats);
    if let Some(f) = last_preferred_format(formats) {
        let k = choose|k: int|
            0 <= k < formats.len() && formats[k] == f && f.format == PREFERRED_FORMAT && forall|
                j: int,
            |
                k < j < formats.len() ==> formats[j].format != PREFERRED_FORMAT;
        assert(format_choice(formats) == Some(formats[k]));
    }
}

} // verus!
