//! The file transfer client and the plain codes its operations use.

use vstd::prelude::*;

use crate::idevice::Device;
use crate::memory_lock::{
    chain_live, spec_check, spec_invalidate, CellModel, Invalidated, LockdowndServiceLock,
    ValidityChain,
};
use crate::services::lockdownd::LockdowndService;

verus! {

/// A file transfer client for a device.  It relies on its device: its cell
/// is wired to the device's cell.
#[derive(Debug)]
pub struct AfcClient {
    pub cell: usize,
}

impl AfcClient {
    /// Wraps a freshly created file transfer connection, which the native
    /// library hands out together with a service descriptor: validates the
    /// device first, and wires both cells to the device's cell.
    /// `client_handle` and `service_handle` are the two descriptors as the
    /// native library returned them, and `port` the service's port.
    pub fn new(
        chain: &mut ValidityChain<u64>,
        device: &Device,
        client_handle: u64,
        service_handle: u64,
        port: u32,
    ) -> (r: Result<(AfcClient, LockdowndService), Invalidated>)
        ensures
            r is Err <==> !chain_live(old(chain)@, device.lock.cell as int),
            r is Err ==> final(chain)@ == old(chain)@,
            r matches Ok(pair) ==> {
                &&& pair.0.cell == old(chain)@.len()
                &&& pair.1.port == port
                &&& pair.1.lock.cell == old(chain)@.len() + 1
                &&& final(chain)@ == old(chain)@.push(
                    (CellModel { slot: Some(client_handle), parent: Some(device.lock.cell as int) }),
                ).push(
                    (CellModel { slot: Some(service_handle), parent: Some(device.lock.cell as int) }),
                )
            },
    {
        match device.lock.check(chain) {
            Ok(_) => {
                let cell = chain.new_child(client_handle, device.lock.cell);
                let service_cell = chain.new_child(service_handle, device.lock.cell);
                let service = LockdowndService {
                    port,
                    lock: LockdowndServiceLock { cell: service_cell },
                };
                Ok((AfcClient { cell }, service))
            },
            Err(e) => Err(e),
        }
    }

    /// Wraps a freshly started file transfer client: validates the device
    /// first, and wires the client's cell to the device's cell.  `handle`
    /// is the client's descriptor as the native library returned it.
    pub fn start_service(
        chain: &mut ValidityChain<u64>,
        device: &Device,
        handle: u64,
    ) -> (r: Result<AfcClient, Invalidated>)
        ensures
            r is Err <==> !chain_live(old(chain)@, device.lock.cell as int),
            r is Err ==> final(chain)@ == old(chain)@,
            r matches Ok(c) ==> {
                &&& c.cell == old(chain)@.len()
                &&& final(chain)@ == old(chain)@.push(
                    (CellModel { slot: Some(handle), parent: Some(device.lock.cell as int) }),
                )
            },
    {
        match device.lock.check(chain) {
            Ok(_) => {
                let cell = chain.new_child(handle, device.lock.cell);
                Ok(AfcClient { cell })
            },
            Err(e) => Err(e),
        }
    }

    /// Returns the client's snapshot while the client and its device are
    /// both live.  Every file operation obtains its handle through this
    /// call before it touches the native library.
    pub fn check(&self, chain: &ValidityChain<u64>) -> (r: Result<u64, Invalidated>)
        ensures
            r == spec_check(chain@, self.cell as int),
    {
        chain.check(self.cell)
    }

    /// Clears only the client's own cell, as the teardown path does.
    pub fn invalidate(&self, chain: &mut ValidityChain<u64>)
        ensures
            final(chain)@ == spec_invalidate(old(chain)@, self.cell as int),
    {
        chain.invalidate(self.cell)
    }
}

/// The modes a file on the device can be opened in.
#[derive(Clone, Copy, Debug, PartialEq, Eq, Structural)]
pub enum AfcFileMode {
    ReadOnly,
    ReadWrite,
    WriteOnly,
    WriteRead,
    Append,
    ReadAppend,
}

impl AfcFileMode {
    /// The mode a native mode code names.  Codes outside the native
    /// library's range name no mode.
    pub fn from_code(code: i8) -> (mode: AfcFileMode)
        requires
            1 <= code <= 6,
        ensures
            code == 1 ==> mode is ReadOnly,
            code == 2 ==> mode is ReadWrite,
            code == 3 ==> mode is WriteOnly,
            code == 4 ==> mode is WriteRead,
            code == 5 ==> mode is Append,
            code == 6 ==> mode is ReadAppend,
    {
        match code {
            1 => AfcFileMode::ReadOnly,
            2 => AfcFileMode::ReadWrite,
            3 => AfcFileMode::WriteOnly,
            4 => AfcFileMode::WriteRead,
            5 => AfcFileMode::Append,
            _ => AfcFileMode::ReadAppend,
        }
    }

    /// The native code of this mode, as a file open call takes it.
    pub fn code(&self) -> (code: u32)
        ensures
            code == (match *self {
                AfcFileMode::ReadOnly => 1u32,
                AfcFileMode::ReadWrite => 2u32,
                AfcFileMode::WriteOnly => 3u32,
                AfcFileMode::WriteRead => 4u32,
                AfcFileMode::Append => 5u32,
                AfcFileMode::ReadAppend => 6u32,
            }),
    {
        match *self {
            AfcFileMode::ReadOnly => 1,
            AfcFileMode::ReadWrite => 2,
            AfcFileMode::WriteOnly => 3,
            AfcFileMode::WriteRead => 4,
            AfcFileMode::Append => 5,
            AfcFileMode::ReadAppend => 6,
        }
    }
}

/// The ways a file on the device can be locked.
#[derive(Clone, Copy, Debug, PartialEq, Eq, Structural)]
pub enum AfcLockOp {
    Sh,
    Ex,
    Un,
}

impl AfcLockOp {
    /// The native code of this lock operation.
    pub fn code(&self) -> (code: u32)
        ensures
            code == (match *self {
                AfcLockOp::Sh => 5u32,
                AfcLockOp::Ex => 6u32,
                AfcLockOp::Un => 12u32,
            }),
    {
        match *self {
            AfcLockOp::Sh => 5,
            AfcLockOp::Ex => 6,
            AfcLockOp::Un => 12,
        }
    }
}

/// The kinds of links a file transfer client can create.
#[derive(Clone, Copy, Debug, PartialEq, Eq, Structural)]
pub enum LinkType {
    HardLink,
    SymbolicLink,
}

impl LinkType {
    /// The native code of this link kind.
    pub fn code(&self) -> (code: u32)
        ensures
            code == (match *self {
                LinkType::HardLink => 1u32,
                LinkType::SymbolicLink => 2u32,
            }),
    {
        match *self {
            LinkType::HardLink => 1,
            LinkType::SymbolicLink => 2,
        }
    }
}

} // verus!
