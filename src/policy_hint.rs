//! The policy-hint backend: the host cannot report a thread's affinity, so
//! every logical CPU is listed, and pinning sets an advisory affinity tag
//! that the scheduler may ignore. The tag call itself is made by the caller;
//! this module lists the cores and builds the tag.
use vstd::prelude::*;

use crate::{strictly_ascending, CoreId};

verus! {

/// Relies on `num_cpus::get`: the number of logical CPUs, which it promises
/// is at least 1. Its value is up to the host.
#[verifier::external_body]
fn logical_cpu_count() -> (r: usize)
    ensures
        r >= 1,
{
    num_cpus::get()
}

/// The cores `0..count`, in order.
pub fn core_ids_up_to(count: usize) -> (r: Vec<CoreId>)
    ensures
        r@.len() == count,
        forall|i: int| 0 <= i < count ==> #[trigger] r@[i] == (CoreId { id: i as usize }),
        strictly_ascending(r@),
{
    let mut core_ids: Vec<CoreId> = Vec::new();
    let mut n: usize = 0;
    while n < count
        invariant
            n <= count,
            core_ids@.len() == n,
            forall|i: int| 0 <= i < n ==> #[trigger] core_ids@[i] == (CoreId { id: i as usize }),
        decreases count - n,
    {
        core_ids.push(CoreId { id: n });
        n = n + 1;
    }
    core_ids
}

/// Every logical CPU of the host, numbered from 0, whatever affinity is in
/// effect. Never `None`.
pub fn get_core_ids() -> (r: Option<Vec<CoreId>>)
    ensures
        r is Some,
        r matches Some(ids) ==> ids@.len() >= 1 && strictly_ascending(ids@),
        r matches Some(ids) ==> (forall|i: int|
            0 <= i < ids@.len() ==> #[trigger] ids@[i] == (CoreId { id: i as usize })),
{
    Some(core_ids_up_to(logical_cpu_count()))
}

/// The affinity tag that asks for `core_id`: the core number itself, or
/// `None` when it does not fit in a tag.
pub fn affinity_tag(core_id: CoreId) -> (r: Option<i32>)
    ensures
        r is Some <==> core_id.id <= i32::MAX,
        r matches Some(tag) ==> tag == core_id.id,
{
    if core_id.id <= i32::MAX as usize {
        Some(core_id.id as i32)
    } else {
        None
    }
}

} // verus!
