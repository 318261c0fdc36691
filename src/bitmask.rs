//! The bitmask backend: the calling thread's affinity as a kernel CPU set,
//! read and written with the thread-scoped `sched_getaffinity` and
//! `sched_setaffinity` calls.
use nix::errno::Errno;
use nix::sched::CpuSet;
use nix::unistd::Pid;
use vstd::prelude::*;

use crate::{
    ids_below, lemma_ids_below, lemma_ids_below_len, lemma_single_core_read_back, members_below,
    strictly_ascending, CoreId,
};

verus! {

#[verifier::external_type_specification]
#[verifier::external_body]
pub struct ExCpuSet(CpuSet);

#[verifier::external_type_specification]
#[verifier::external_body]
pub struct ExErrno(Errno);

/// The cores that a CPU set holds.
pub uninterp spec fn cpu_set_members(s: CpuSet) -> Set<int>;

/// How many core numbers a CPU set can hold: it holds cores `0..capacity` at most.
pub uninterp spec fn cpu_set_capacity(s: CpuSet) -> nat;

/// Relies on `CpuSet::count`: every CPU set has room for the same number of
/// cores, the number this returns; `is_set` and `set` refuse any core from it on.
#[verifier::external_body]
fn cpu_set_count() -> (r: usize)
    ensures
        forall|s: CpuSet| cpu_set_capacity(s) == r,
{
    CpuSet::count()
}

/// Relies on `CpuSet::new`: a set that holds no core.
#[verifier::external_body]
fn new_cpu_set() -> (r: CpuSet)
    ensures
        cpu_set_members(r) == Set::<int>::empty(),
{
    CpuSet::new()
}

/// Relies on `CpuSet::set`: adds core `field`, or fails with nothing changed
/// when `field` is not below the capacity.
#[verifier::external_body]
fn insert_core(s: &mut CpuSet, field: usize) -> (r: Result<(), Errno>)
    ensures
        r is Ok <==> field < cpu_set_capacity(*old(s)),
        r is Ok ==> cpu_set_members(*final(s)) == cpu_set_members(*old(s)).insert(field as int),
        r is Err ==> cpu_set_members(*final(s)) == cpu_set_members(*old(s)),
{
    s.set(field)
}

/// Relies on `CpuSet::is_set`: whether the set holds core `field`, or a
/// failure when `field` is not below the capacity.
#[verifier::external_body]
fn holds_core(s: &CpuSet, field: usize) -> (r: Result<bool, Errno>)
    ensures
        r is Ok <==> field < cpu_set_capacity(*s),
        r matches Ok(b) ==> b == cpu_set_members(*s).contains(field as int),
{
    s.is_set(field)
}

/// Relies on `nix::sched::sched_getaffinity` with pid 0: the calling thread's
/// affinity set, or the kernel's error. What it holds is up to the kernel.
#[verifier::external_body]
fn read_thread_affinity() -> (r: Result<CpuSet, Errno>) {
    nix::sched::sched_getaffinity(Pid::from_raw(0))
}

/// Relies on `nix::sched::sched_setaffinity` with pid 0: asks the kernel to
/// restrict the calling thread to `s`. Whether it agrees is up to the kernel.
#[verifier::external_body]
fn write_thread_affinity(s: &CpuSet) -> (r: Result<(), Errno>) {
    nix::sched::sched_setaffinity(Pid::from_raw(0), s)
}

/// The cores that `set` holds, in ascending order.
pub fn core_ids_in_set(set: &CpuSet) -> (r: Vec<CoreId>)
    ensures
        r@ == ids_below(cpu_set_members(*set), cpu_set_capacity(*set)),
        strictly_ascending(r@),
        r@.len() == members_below(cpu_set_members(*set), cpu_set_capacity(*set)).len(),
{
    let count = cpu_set_count();
    let mut core_ids: Vec<CoreId> = Vec::new();
    let mut i: usize = 0;
    while i < count
        invariant
            i <= count,
            count == cpu_set_capacity(*set),
            core_ids@ == ids_below(cpu_set_members(*set), i as nat),
        decreases count - i,
    {
        match holds_core(set, i) {
            Ok(true) => {
                core_ids.push(CoreId { id: i });
            },
            _ => {},
        }
        i = i + 1;
    }
    proof {
        lemma_ids_below(cpu_set_members(*set), count as nat);
        lemma_ids_below_len(cpu_set_members(*set), count as nat);
    }
    core_ids
}

/// A CPU set that holds `core_id` alone; `None` when the core number does
/// not fit in a CPU set.
pub fn single_core_set(core_id: CoreId) -> (r: Option<CpuSet>)
    ensures
        r matches Some(s) ==> cpu_set_members(s) == set![core_id.id as int] && core_id.id
            < cpu_set_capacity(s),
        r is None ==> forall|s: CpuSet| core_id.id >= cpu_set_capacity(s),
{
    let count = cpu_set_count();
    if core_id.id >= count {
        return None;
    }
    let mut set = new_cpu_set();
    match insert_core(&mut set, core_id.id) {
        Ok(()) => {
            assert(cpu_set_members(set) =~= set![core_id.id as int]);
            Some(set)
        },
        Err(_) => None,
    }
}

/// The calling thread's current affinity set, or `None` when the kernel
/// refuses to report it.
pub fn get_affinity_mask() -> Option<CpuSet> {
    match read_thread_affinity() {
        Ok(set) => Some(set),
        Err(_) => None,
    }
}

/// The cores the calling thread may run on, in ascending order, or `None`
/// when the kernel refuses to report them. They are the cores of the set
/// the kernel reported.
pub fn get_core_ids() -> (r: Option<Vec<CoreId>>)
    ensures
        r matches Some(ids) ==> strictly_ascending(ids@),
        r matches Some(ids) ==> exists|s: CpuSet|
            ids@ == ids_below(#[trigger] cpu_set_members(s), cpu_set_capacity(s)),
{
    match get_affinity_mask() {
        Some(full_set) => {
            let ids = core_ids_in_set(&full_set);
            assert(ids@ == ids_below(cpu_set_members(full_set), cpu_set_capacity(full_set)));
            Some(ids)
        },
        None => None,
    }
}

/// Pins the calling thread to `core_id` alone. True when the kernel accepted
/// the set; false when the core number does not fit in a CPU set or the
/// kernel refused.
pub fn set_for_current(core_id: CoreId) -> (r: bool)
    ensures
        (forall|s: CpuSet| core_id.id >= cpu_set_capacity(s)) ==> !r,
{
    match single_core_set(core_id) {
        Some(set) => write_thread_affinity(&set).is_ok(),
        None => false,
    }
}

/// A CPU set that holds one core alone reads back as that core alone.
pub proof fn lemma_cpu_set_read_back(s: CpuSet, core_id: CoreId)
    requires
        cpu_set_members(s) == set![core_id.id as int],
        core_id.id < cpu_set_capacity(s),
    ensures
        ids_below(cpu_set_members(s), cpu_set_capacity(s)) == seq![core_id],
{
    lemma_single_core_read_back(core_id.id as int, cpu_set_capacity(s));
}

} // verus!
