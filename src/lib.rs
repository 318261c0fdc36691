//! Enumerate the logical cores the calling thread may run on, and pin the
//! calling thread to one of them.
//!
//! Four host models are covered, one module each: a kernel CPU set read and
//! written per thread (`bitmask`), a 64-bit processor mask (`mask_register`),
//! an advisory affinity tag (`policy_hint`), and no support at all (`stub`).
//! The functions at the top level use the thread-scoped CPU set calls.
use nix::sched::CpuSet;
use vstd::prelude::*;
use vstd::set_lib::{lemma_int_range, lemma_len_subset, set_int_range};

use crate::bitmask::{cpu_set_capacity, cpu_set_members};

pub mod bitmask;
pub mod mask_register;
pub mod policy_hint;
pub mod stub;

verus! {

/// The cores the calling thread may run on, in ascending order, or `None`
/// when the host refuses to report them.
pub fn get_core_ids() -> (r: Option<Vec<CoreId>>)
    ensures
        r matches Some(ids) ==> strictly_ascending(ids@),
        r matches Some(ids) ==> exists|s: CpuSet|
            ids@ == ids_below(#[trigger] cpu_set_members(s), cpu_set_capacity(s)),
{
    bitmask::get_core_ids()
}

/// Pins the calling thread to `core_id` alone; true when the host accepted.
/// A core number too large for any CPU set is never accepted.
pub fn set_for_current(core_id: CoreId) -> (r: bool)
    ensures
        (forall|s: CpuSet| core_id.id >= cpu_set_capacity(s)) ==> !r,
{
    bitmask::set_for_current(core_id)
}

/// One logical processor core, by the number the operating system gives it.
#[derive(Copy, Clone, Debug, PartialEq, Eq, PartialOrd, Ord, Hash, Structural)]
pub struct CoreId {
    pub id: usize,
}

/// The cores of `members` numbered below `limit`, one entry each, in ascending order.
pub open spec fn ids_below(members: Set<int>, limit: nat) -> Seq<CoreId>
    decreases limit,
{
    if limit == 0 {
        Seq::empty()
    } else {
        let n = (limit - 1) as nat;
        if members.contains(n as int) {
            ids_below(members, n).push(CoreId { id: n as usize })
        } else {
            ids_below(members, n)
        }
    }
}

/// The cores of `members` numbered below `limit`.
pub open spec fn members_below(members: Set<int>, limit: nat) -> Set<int> {
    members.filter(|c: int| 0 <= c < limit)
}

/// Each core number is smaller than the next one: ascending, with no repeats.
pub open spec fn strictly_ascending(ids: Seq<CoreId>) -> bool {
    forall|i: int, j: int| 0 <= i < j < ids.len() ==> ids[i].id < ids[j].id
}

/// Decoding a set of cores yields a strictly ascending sequence, and a core
/// appears in it exactly when the set holds it and it is below the limit.
pub proof fn lemma_ids_below(members: Set<int>, limit: nat)
    requires
        limit <= usize::MAX + 1,
    ensures
        strictly_ascending(ids_below(members, limit)),
        forall|i: int|
            0 <= i < ids_below(members, limit).len() ==> {
                let c = #[trigger] ids_below(members, limit)[i].id as int;
                0 <= c < limit && members.contains(c)
            },
        forall|c: int|
            0 <= c < limit && members.contains(c) ==> ids_below(members, limit).contains(
                CoreId { id: c as usize },
            ),
    decreases limit,
{
    if limit > 0 {
        let n = (limit - 1) as nat;
        lemma_ids_below(members, n);
        let rest = ids_below(members, n);
        if members.contains(n as int) {
            let all = rest.push(CoreId { id: n as usize });
            assert(all[rest.len() as int] == CoreId { id: n as usize });
            assert forall|c: int| 0 <= c < limit && members.contains(c) implies all.contains(
                CoreId { id: c as usize },
            ) by {
                if c < n {
                    let k = choose|k: int| 0 <= k < rest.len() && rest[k] == CoreId { id: c as usize };
                    assert(all[k] == rest[k]);
                } else {
                    assert(all[rest.len() as int] == CoreId { id: c as usize });
                }
            }
        }
    }
}

/// A set that holds a single core below the limit decodes to that core alone.
pub proof fn lemma_single_core_read_back(core: int, limit: nat)
    requires
        0 <= core <= usize::MAX,
        core < limit,
    ensures
        ids_below(set![core], limit) == seq![CoreId { id: core as usize }],
    decreases limit,
{
    if limit > core + 1 {
        lemma_single_core_read_back(core, (limit - 1) as nat);
    } else {
        lemma_no_ids_below(set![core], core as nat);
        assert(ids_below(set![core], core as nat).push(CoreId { id: core as usize }) =~= seq![
            CoreId { id: core as usize },
        ]);
    }
}

/// Decoding lists each core of the set below the limit exactly once: the
/// length of the result is the number of such cores.
pub proof fn lemma_ids_below_len(members: Set<int>, limit: nat)
    ensures
        members_below(members, limit).finite(),
        ids_below(members, limit).len() == members_below(members, limit).len(),
    decreases limit,
{
    lemma_int_range(0, limit as int);
    assert(members_below(members, limit).subset_of(set_int_range(0, limit as int)));
    lemma_len_subset(members_below(members, limit), set_int_range(0, limit as int));
    if limit > 0 {
        let n = (limit - 1) as nat;
        lemma_ids_below_len(members, n);
        if members.contains(n as int) {
            assert(members_below(members, limit) =~= members_below(members, n).insert(n as int));
        } else {
            assert(members_below(members, limit) =~= members_below(members, n));
        }
    } else {
        assert(members_below(members, limit) =~= Set::<int>::empty());
    }
}

/// A set with no core below the limit decodes to nothing.
proof fn lemma_no_ids_below(members: Set<int>, limit: nat)
    requires
        forall|c: int| 0 <= c < limit ==> !members.contains(c),
    ensures
        ids_below(members, limit) == Seq::<CoreId>::empty(),
    decreases limit,
{
    if limit > 0 {
        lemma_no_ids_below(members, (limit - 1) as nat);
    }
}

} // verus!
