//! The springboard client, for icon state and wallpaper, and the device
//! orientations it reports.

use vstd::prelude::*;

use crate::idevice::Device;
use crate::memory_lock::{chain_live, spec_check, spec_invalidate, CellModel, Invalidated, ValidityChain};
use crate::services::lockdownd::LockdowndService;

verus! {

/// A client of the springboard service, which manages the home screen.
#[derive(Debug)]
pub struct SpringboardServicesClient {
    pub cell: usize,
}

impl SpringboardServicesClient {
    /// Wraps a springboard client created over a service descriptor:
    /// validates the device and the descriptor first, and wires the
    /// client's cell to the descriptor's cell.  `handle` is the client's
    /// descriptor as the native library returned it.
    pub fn new(
        chain: &mut ValidityChain<u64>,
        device: &Device,
        descriptor: &LockdowndService,
        handle: u64,
    ) -> (r: Result<SpringboardServicesClient, Invalidated>)
        ensures
            r is Err <==> !(chain_live(old(chain)@, device.lock.cell as int) && chain_live(
                old(chain)@,
                descriptor.lock.cell as int,
            )),
            r is Err ==> final(chain)@ == old(chain)@,
            r matches Ok(c) ==> {
                &&& c.cell == old(chain)@.len()
                &&& final(chain)@ == old(chain)@.push(
                    (CellModel { slot: Some(handle), parent: Some(descriptor.lock.cell as int) }),
                )
            },
    {
        match device.lock.check(chain) {
            Ok(_) => {},
            Err(e) => {
                return Err(e);
            },
        }
        match descriptor.lock.check(chain) {
            Ok(_) => {},
            Err(e) => {
                return Err(e);
            },
        }
        let cell = chain.new_child(handle, descriptor.lock.cell);
        Ok(SpringboardServicesClient { cell })
    }

    /// Wraps a springboard client started directly over the device:
    /// validates the device first, and wires the client's cell to the
    /// device's cell.
    pub fn start_service(
        chain: &mut ValidityChain<u64>,
        device: &Device,
        handle: u64,
    ) -> (r: Result<SpringboardServicesClient, Invalidated>)
        ensures
            r is Err <==> !chain_live(old(chain)@, device.lock.cell as int),
            r is Err ==> final(chain)@ == old(chain)@,
            r matches Ok(c) ==> {
                &&& c.cell == old(chain)@.len()
                &&& final(chain)@ == old(chain)@.push(
                    (CellModel { slot: Some(handle), parent: Some(device.lock.cell as int) }),
                )
            },
    {
        match device.lock.check(chain) {
            Ok(_) => {
                let cell = chain.new_child(handle, device.lock.cell);
                Ok(SpringboardServicesClient { cell })
            },
            Err(e) => Err(e),
        }
    }

    /// Returns the client's snapshot while its whole chain is live.  Every
    /// icon and wallpaper operation obtains its handle through this call
    /// before it touches the native library.
    pub fn check(&self, chain: &ValidityChain<u64>) -> (r: Result<u64, Invalidated>)
        ensures
            r == spec_check(chain@, self.cell as int),
    {
        chain.check(self.cell)
    }

    /// Clears only the client's own cell, as the teardown path does.
    pub fn invalidate(&self, chain: &mut ValidityChain<u64>)
        ensures
            final(chain)@ == spec_invalidate(old(chain)@, self.cell as int),
    {
        chain.invalidate(self.cell)
    }
}

/// The orientations the device can report for its interface.
#[derive(Clone, Copy, Debug, PartialEq, Eq, Structural)]
pub enum Orientation {
    Unknown,
    Portrait,
    PortraitUpsideDown,
    LandscapeRight,
    LandscapeLeft,
}

impl Orientation {
    /// The orientation a native orientation code names.  Codes outside
    /// the native library's range name no orientation.
    pub fn from_code(code: u32) -> (orientation: Orientation)
        requires
            code <= 4,
        ensures
            code == 0 ==> orientation is Unknown,
            code == 1 ==> orientation is Portrait,
            code == 2 ==> orientation is PortraitUpsideDown,
            code == 3 ==> orientation is LandscapeRight,
            code == 4 ==> orientation is LandscapeLeft,
    {
        match code {
            0 => Orientation::Unknown,
            1 => Orientation::Portrait,
            2 => Orientation::PortraitUpsideDown,
            3 => Orientation::LandscapeRight,
            _ => Orientation::LandscapeLeft,
        }
    }

    /// The native code of this orientation.
    pub fn code(&self) -> (code: u32)
        ensures
            code == (match *self {
                Orientation::Unknown => 0u32,
                Orientation::Portrait => 1u32,
                Orientation::PortraitUpsideDown => 2u32,
                Orientation::LandscapeRight => 3u32,
                Orientation::LandscapeLeft => 4u32,
            }),
    {
        match *self {
            Orientation::Unknown => 0,
            Orientation::Portrait => 1,
            Orientation::PortraitUpsideDown => 2,
            Orientation::LandscapeRight => 3,
            Orientation::LandscapeLeft => 4,
        }
    }
}

} // verus!
