//! The installation proxy client, derived directly from a device.

use vstd::prelude::*;

use crate::idevice::Device;
use crate::memory_lock::{chain_live, spec_check, spec_invalidate, CellModel, Invalidated, ValidityChain};

verus! {

/// An installation proxy client, used to look apps up on the device.  It
/// relies on its device: its cell is wired to the device's cell.
#[derive(Debug)]
pub struct InstProxyClient {
    pub label: String,
    pub cell: usize,
}

impl InstProxyClient {
    /// Wraps a freshly started installation proxy client: validates the
    /// device first, and wires the client's cell to the device's cell.
    /// `handle` is the client's descriptor as the native library returned
    /// it.
    pub fn new(
        chain: &mut ValidityChain<u64>,
        device: &Device,
        label: String,
        handle: u64,
    ) -> (r: Result<InstProxyClient, Invalidated>)
        ensures
            r is Err <==> !chain_live(old(chain)@, device.lock.cell as int),
            r is Err ==> final(chain)@ == old(chain)@,
            r matches Ok(c) ==> {
                &&& c.label@ == label@
                &&& c.cell == old(chain)@.len()
                &&& final(chain)@ == old(chain)@.push(
                    (CellModel { slot: Some(handle), parent: Some(device.lock.cell as int) }),
                )
            },
    {
        match device.lock.check(chain) {
            Ok(_) => {
                let cell = chain.new_child(handle, device.lock.cell);
                Ok(InstProxyClient { label, cell })
            },
            Err(e) => Err(e),
        }
    }

    /// Returns the client's snapshot while the client and its device are
    /// both live.
    pub fn check(&self, chain: &ValidityChain<u64>) -> (r: Result<u64, Invalidated>)
        ensures
            r == spec_check(chain@, self.cell as int),
    {
        chain.check(self.cell)
    }

    /// Clears only the client's own cell, as the teardown path does.
    pub fn invalidate(&self, chain: &mut ValidityChain<u64>)
        ensures
            final(chain)@ == spec_invalidate(old(chain)@, self.cell as int),
    {
        chain.invalidate(self.cell)
    }
}

} // verus!
