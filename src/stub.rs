//! The backend for hosts with no affinity support: nothing is listed and no
//! pin succeeds.
use vstd::prelude::*;

use crate::CoreId;

verus! {

/// Always `None`: the host's cores cannot be listed, which differs from a
/// host with no cores.
pub fn get_core_ids() -> (r: Option<Vec<CoreId>>)
    ensures
        r is None,
{
    None
}

/// Always false: no call is made.
pub fn set_for_current(core_id: CoreId) -> (r: bool)
    ensures
        !r,
{
    false
}

} // verus!
