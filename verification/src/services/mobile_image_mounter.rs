//! The image mounter, a feature client built on top of a service
//! descriptor: the deepest level of the chain.

use vstd::prelude::*;

use crate::memory_lock::{spec_check, spec_invalidate, Invalidated, MobileImageMounterLock, ValidityChain};

verus! {

/// An image mounter for a device.  Its cell is wired to the cell of the
/// service descriptor it was built on, so it relies on the descriptor,
/// the protocol client and the device all being live.
#[derive(Debug)]
pub struct MobileImageMounter {
    pub lock: MobileImageMounterLock,
}

impl MobileImageMounter {
    /// Returns the mounter's snapshot while its whole chain, up to the
    /// device, is live.
    pub fn check(&self, chain: &ValidityChain<u64>) -> (r: Result<u64, Invalidated>)
        ensures
            r == spec_check(chain@, self.lock.cell as int),
    {
        self.lock.check(chain)
    }

    /// Clears only the mounter's own cell, as the teardown path does.
    pub fn invalidate(&self, chain: &mut ValidityChain<u64>)
        ensures
            final(chain)@ == spec_invalidate(old(chain)@, self.lock.cell as int),
    {
        self.lock.invalidate(chain)
    }
}

} // verus!
