//! Data attached to single drawn items.

use vstd::prelude::*;

verus! {

/// When an item was last redrawn, in nanoseconds since the session began.
#[derive(Clone, Copy, Debug, PartialEq, Eq, Structural)]
pub struct LastUpdate {
    pub value: u64,
}

impl Default for LastUpdate {
    fn default() -> (stamp: LastUpdate)
        ensures
            stamp == (LastUpdate { value: 0 }),
    {
        LastUpdate { value: 0 }
    }
}

} // verus!
