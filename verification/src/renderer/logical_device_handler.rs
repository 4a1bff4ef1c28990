//! Works out which queues the logical device is created with.

use super::physical_device_handler::{QueueFamilyIndices, NUM_QUEUE_FAMILIES};
use super::{RendererError, SpecRendererError};
use vstd::prelude::*;

verus! {

/// Going through the chosen queue families from role `k` on, with the families already given a
/// queue: a family gets one queue, however many roles it serves. A role with no family is a logic
/// error.
pub open spec fn queue_families_from(
    indices: QueueFamilyIndices,
    k: int,
    created: Seq<u32>,
) -> Result<Seq<u32>, SpecRendererError>
    decreases NUM_QUEUE_FAMILIES - k,
{
    if k < 0 || k >= NUM_QUEUE_FAMILIES {
        Ok(created)
    } else {
        match indices.queue_family_indices[k] {
            None => Err(SpecRendererError::LogicError("get_queue_create_info"@)),
            Some(index) => if created.contains(index) {
                queue_families_from(indices, k + 1, created)
            } else {
                queue_families_from(indices, k + 1, created.push(index))
            },
        }
    }
}

/// Whether `value` is in `values`.
fn contains_index(values: &Vec<u32>, value: u32) -> (r: bool)
    ensures
        r == values@.contains(value),
{
    let mut i: usize = 0;
    while i < values.len()
        invariant
            i <= values@.len(),
            forall|j: int| 0 <= j < i ==> values@[j] != value,
        decreases values@.len() - i,
    {
        if values[i] == value {
            assert(values@[i as int] == value);
            return true;
        }
        i = i + 1;
    }
    false
}

/// The queue families that the logical device is created with a queue of, in the order of the
/// roles they serve, each once. Each queue is created with no flags and a priority of one.
pub fn get_queue_create_infos(queue_indices: QueueFamilyIndices) -> (r: Result<
    Vec<u32>,
    RendererError,
>)
    ensures
        match r {
            Ok(families) => queue_families_from(queue_indices, 0, Seq::empty()) == Ok::<
                Seq<u32>,
                SpecRendererError,
            >(families@),
            Err(e) => queue_families_from(queue_indices, 0, Seq::empty()) == Err::<
                Seq<u32>,
                SpecRendererError,
            >(e@),
        },
{
    let mut created: Vec<u32> = Vec::new();
    let mut k: usize = 0;
    while k < NUM_QUEUE_FAMILIES
        invariant
            k <= NUM_QUEUE_FAMILIES,
            queue_families_from(queue_indices, 0, Seq::empty()) == queue_families_from(
                queue_indices,
                k as int,
                created@,
            ),
        decreases NUM_QUEUE_FAMILIES - k,
    {
        let index = match queue_indices.queue_family_indices[k] {
            Some(index) => index,
            None => {
                proof {
                    reveal_strlit("get_queue_create_info");
                }
                return Err(RendererError::LogicError("get_queue_create_info".to_owned()));
            },
        };
        if !contains_index(&created, index) {
            created.push(index);
        }
        k = k + 1;
    }
    Ok(created)
}

/// Whether the role at position `k` has a family, and that family is among `families`.
pub open spec fn role_served(indices: QueueFamilyIndices, k: int, families: Seq<u32>) -> bool {
    indices.queue_family_indices[k] matches Some(index) && families.contains(index)
}

/// The families given a queue: each at most once, and every role's family among them.
pub proof fn law_queue_families_distinct(indices: QueueFamilyIndices, families: Seq<u32>)
    requires
        queue_families_from(indices, 0, Seq::empty()) == Ok::<Seq<u32>, SpecRendererError>(
            families,
        ),
    ensures
        families.no_duplicates(),
        forall|k: int|
            0 <= k < NUM_QUEUE_FAMILIES ==> #[trigger] role_served(indices, k, families),
{
    lemma_queue_families(indices, 0, Seq::empty());
}

proof fn lemma_queue_families(indices: QueueFamilyIndices, k: int, created: Seq<u32>)
    requires
        0 <= k <= NUM_QUEUE_FAMILIES,
        created.no_duplicates(),
        forall|m: int|
            0 <= m < k ==> #[trigger] role_served(indices, m, created),
    ensures
        queue_families_from(indices, k, created) matches Ok(families) ==> {
            &&& families.no_duplicates()
            &&& forall|m: int|
                0 <= m < NUM_QUEUE_FAMILIES ==> #[trigger] role_served(indices, m, families)
        },
    decreases NUM_QUEUE_FAMILIES - k,
{
    if k < NUM_QUEUE_FAMILIES {
        match indices.queue_family_indices[k] {
            None => {},
            Some(index) => if created.contains(index) {
                lemma_queue_families(indices, k + 1, created);
            } else {
                let next = created.push(index);
                assert forall|m: int|
                    0 <= m < k + 1 implies #[trigger] role_served(indices, m, next) by {
                    if m < k {
                        assert(role_served(indices, m, created));
                        let i = indices.queue_family_indices[m]->0;
                        let w = choose|w: int| 0 <= w < created.len() && created[w] == i;
                        assert(next[w] == i);
                    } else {
                        assert(next[created.len() as int] == index);
                    }
                }
                lemma_queue_families(indices, k + 1, next);
            },
        }
    }
}

} // verus!
