//! The companion proxy client, for devices paired with the device.

use vstd::prelude::*;

use crate::idevice::Device;
use crate::memory_lock::{chain_live, spec_check, spec_invalidate, CellModel, Invalidated, ValidityChain};
use crate::services::lockdownd::LockdowndService;

verus! {

/// A proxy for talking to devices paired with the device, such as a watch.
#[derive(Debug)]
pub struct CompanionProxy {
    pub cell: usize,
}

impl CompanionProxy {
    /// Wraps a companion proxy created over a service descriptor:
    /// validates the device and the descriptor first, and wires the
    /// proxy's cell to the descriptor's cell.  `handle` is the proxy's
    /// descriptor as the native library returned it.
    pub fn new(
        chain: &mut ValidityChain<u64>,
        device: &Device,
        descriptor: &LockdowndService,
        handle: u64,
    ) -> (r: Result<CompanionProxy, Invalidated>)
        ensures
            r is Err <==> !(chain_live(old(chain)@, device.lock.cell as int) && chain_live(
                old(chain)@,
                descriptor.lock.cell as int,
            )),
            r is Err ==> final(chain)@ == old(chain)@,
            r matches Ok(c) ==> {
                &&& c.cell == old(chain)@.len()
                &&& final(chain)@ == old(chain)@.push(
                    (CellModel { slot: Some(handle), parent: Some(descriptor.lock.cell as int) }),
                )
            },
    {
        match device.lock.check(chain) {
            Ok(_) => {},
            Err(e) => {
                return Err(e);
            },
        }
        match descriptor.lock.check(chain) {
            Ok(_) => {},
            Err(e) => {
                return Err(e);
            },
        }
        let cell = chain.new_child(handle, descriptor.lock.cell);
        Ok(CompanionProxy { cell })
    }

    /// Wraps a companion proxy started directly over the device: validates
    /// the device first, and wires the proxy's cell to the device's cell.
    pub fn start_service(
        chain: &mut ValidityChain<u64>,
        device: &Device,
        handle: u64,
    ) -> (r: Result<CompanionProxy, Invalidated>)
        ensures
            r is Err <==> !chain_live(old(chain)@, device.lock.cell as int),
            r is Err ==> final(chain)@ == old(chain)@,
            r matches Ok(c) ==> {
                &&& c.cell == old(chain)@.len()
                &&& final(chain)@ == old(chain)@.push(
                    (CellModel { slot: Some(handle), parent: Some(device.lock.cell as int) }),
                )
            },
    {
        match device.lock.check(chain) {
            Ok(_) => {
                let cell = chain.new_child(handle, device.lock.cell);
                Ok(CompanionProxy { cell })
            },
            Err(e) => Err(e),
        }
    }

    /// Returns the proxy's snapshot while its whole chain is live.  Every
    /// send, receive and registry operation obtains its handle through
    /// this call before it touches the native library.
    pub fn check(&self, chain: &ValidityChain<u64>) -> (r: Result<u64, Invalidated>)
        ensures
            r == spec_check(chain@, self.cell as int),
    {
        chain.check(self.cell)
    }

    /// Clears only the proxy's own cell, as the teardown path does.
    pub fn invalidate(&self, chain: &mut ValidityChain<u64>)
        ensures
            final(chain)@ == spec_invalidate(old(chain)@, self.cell as int),
    {
        chain.invalidate(self.cell)
    }
}

} // verus!
