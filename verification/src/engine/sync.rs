use vstd::prelude::*;

verus! {

/// Frame pacing state.
pub struct Sync {
    last_time: u64,
}

impl Sync {
    /// The time of the last synchronisation, in milliseconds.
    pub closed spec fn spec_last_time(&self) -> u64 {
        self.last_time
    }

    /// A fresh pacer that has not synchronised yet.
    pub fn new() -> (s: Self)
        ensures
            s.spec_last_time() == 0,
    {
        Sync { last_time: 0 }
    }
}

} // verus!
