//! The protocol client and the service descriptors derived from it.
//!
//! A lockdownd client is negotiated over a device connection and relies on
//! it; a service descriptor is started over a lockdownd client and relies
//! on the whole chain below it.

use vstd::prelude::*;

use crate::idevice::Device;
use crate::memory_lock::{
    chain_live, CellModel, Invalidated, LockdowndClientLock, LockdowndServiceLock, ValidityChain,
};

verus! {

/// A protocol client negotiated over a device connection.
#[derive(Debug)]
pub struct LockdowndClient {
    pub label: String,
    pub lock: LockdowndClientLock,
}

/// A service started over a protocol client: the port the service listens
/// on, and the descriptor's validity cell.
#[derive(Debug)]
pub struct LockdowndService {
    pub port: u32,
    pub lock: LockdowndServiceLock,
}

impl LockdowndClient {
    /// Wraps a freshly negotiated protocol client: validates the device
    /// first, and wires the client's cell to the device's cell, so that
    /// tearing the device down breaks this client.  `handle` is the
    /// client's descriptor as the native library returned it.
    pub fn new(
        chain: &mut ValidityChain<u64>,
        device: &Device,
        label: String,
        handle: u64,
    ) -> (r: Result<LockdowndClient, Invalidated>)
        ensures
            r is Err <==> !chain_live(old(chain)@, device.lock.cell as int),
            r is Err ==> final(chain)@ == old(chain)@,
            r matches Ok(c) ==> {
                &&& c.label@ == label@
                &&& c.lock.cell == old(chain)@.len()
                &&& final(chain)@ == old(chain)@.push(
                    (CellModel { slot: Some(handle), parent: Some(device.lock.cell as int) }),
                )
            },
    {
        match device.lock.check(chain) {
            Ok(_) => Ok(
                LockdowndClient { label, lock: LockdowndClientLock::new(chain, handle, &device.lock) },
            ),
            Err(e) => Err(e),
        }
    }

    /// Wraps a service started over this client: validates the client's
    /// whole chain first, and wires the descriptor's cell to the client's
    /// cell.  `handle` is the descriptor as the native library returned
    /// it, and `port` the port it listens on.
    pub fn start_service(
        &self,
        chain: &mut ValidityChain<u64>,
        port: u32,
        handle: u64,
    ) -> (r: Result<LockdowndService, Invalidated>)
        ensures
            r is Err <==> !chain_live(old(chain)@, self.lock.cell as int),
            r is Err ==> final(chain)@ == old(chain)@,
            r matches Ok(s) ==> {
                &&& s.port == port
                &&& s.lock.cell == old(chain)@.len()
                &&& final(chain)@ == old(chain)@.push(
                    (CellModel { slot: Some(handle), parent: Some(self.lock.cell as int) }),
                )
            },
    {
        match self.lock.check(chain) {
            Ok(_) => Ok(
                LockdowndService { port, lock: LockdowndServiceLock::new(chain, handle, &self.lock) },
            ),
            Err(e) => Err(e),
        }
    }
}

} // verus!
