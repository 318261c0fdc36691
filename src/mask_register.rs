//! The mask-register backend: affinity as one 64-bit processor mask, read
//! for the whole process and written for the calling thread. The host calls
//! themselves are made by the caller; this module decodes the mask it read
//! and builds the mask it writes.
use vstd::prelude::*;

use crate::{
    ids_below, lemma_ids_below, lemma_ids_below_len, lemma_single_core_read_back, members_below,
    strictly_ascending, CoreId,
};

verus! {

/// Number of cores a processor mask can describe.
pub const MASK_BITS: u64 = 64;

/// The cores whose bit is set in `mask`.
pub open spec fn mask_members(mask: u64) -> Set<int> {
    Set::new(|i: int| 0 <= i < 64 && (mask >> (i as u64)) & 1u64 == 1u64)
}

proof fn lemma_bit_test(mask: u64, i: u64)
    requires
        i < 64,
    ensures
        (mask & (1u64 << i) == 1u64 << i) == ((mask >> i) & 1u64 == 1u64),
{
    assert((mask & (1u64 << i) == 1u64 << i) == ((mask >> i) & 1u64 == 1u64)) by (bit_vector)
        requires
            i < 64,
    ;
}

proof fn lemma_single_bit(id: u64)
    requires
        id < 64,
    ensures
        mask_members(1u64 << id) == set![id as int],
{
    assert forall|j: u64| j < 64 implies ((((1u64 << id) >> j) & 1u64 == 1u64) == (j == id)) by {
        assert(((((1u64 << id) >> j) & 1u64 == 1u64) == (j == id))) by (bit_vector)
            requires
                id < 64,
                j < 64,
        ;
    }
    assert forall|i: int| mask_members(1u64 << id).contains(i) <==> set![id as int].contains(i) by {
        if 0 <= i < 64 {
            assert((((1u64 << id) >> (i as u64)) & 1u64 == 1u64) == ((i as u64) == id));
        }
    }
    assert(mask_members(1u64 << id) =~= set![id as int]);
}

/// The cores whose bit is set in a processor mask, in ascending order.
pub fn core_ids_from_mask(mask: u64) -> (r: Vec<CoreId>)
    ensures
        r@ == ids_below(mask_members(mask), 64),
        strictly_ascending(r@),
        r@.len() == mask_members(mask).len(),
{
    let mut core_ids: Vec<CoreId> = Vec::new();
    let mut i: u64 = 0;
    while i < MASK_BITS
        invariant
            i <= 64,
            core_ids@ == ids_below(mask_members(mask), i as nat),
        decreases 64 - i,
    {
        let test_mask: u64 = 1u64 << i;
        proof {
            lemma_bit_test(mask, i);
        }
        if mask & test_mask == test_mask {
            core_ids.push(CoreId { id: i as usize });
        }
        i = i + 1;
    }
    proof {
        lemma_ids_below(mask_members(mask), 64);
        lemma_mask_core_count(mask);
    }
    core_ids
}

/// The processor mask with only the bit of `core_id` set; `None` when the
/// core number does not fit in a mask.
pub fn thread_mask(core_id: CoreId) -> (r: Option<u64>)
    ensures
        r is Some <==> core_id.id < 64,
        r matches Some(m) ==> m == 1u64 << (core_id.id as u64) && mask_members(m) == set![
            core_id.id as int,
        ],
{
    if core_id.id >= 64 {
        return None;
    }
    let id = core_id.id as u64;
    proof {
        lemma_single_bit(id);
    }
    Some(1u64 << id)
}

/// A mask decodes to as many cores as it has bits set.
pub proof fn lemma_mask_core_count(mask: u64)
    ensures
        mask_members(mask).finite(),
        ids_below(mask_members(mask), 64).len() == mask_members(mask).len(),
{
    lemma_ids_below_len(mask_members(mask), 64);
    assert(members_below(mask_members(mask), 64) =~= mask_members(mask));
}

/// A mask built for one core reads back as that core alone.
pub proof fn lemma_thread_mask_read_back(core_id: CoreId)
    requires
        core_id.id < 64,
    ensures
        ids_below(mask_members(1u64 << (core_id.id as u64)), 64) == seq![core_id],
{
    lemma_single_bit(core_id.id as u64);
    lemma_single_core_read_back(core_id.id as int, 64);
}

} // verus!
