//! The file relay client and the sources it can request.

use vstd::prelude::*;
use vstd::string::StringExecFns;

use crate::idevice::Device;
use crate::memory_lock::{chain_live, spec_check, spec_invalidate, CellModel, Invalidated, ValidityChain};
use crate::services::lockdownd::LockdowndService;

verus! {

/// A client that relays diagnostic files from the device to the host.
#[derive(Debug)]
pub struct FileRelay {
    pub cell: usize,
}

impl FileRelay {
    /// Wraps a file relay created over a service descriptor: validates the
    /// device and the descriptor first, and wires the relay's cell to the
    /// descriptor's cell.  `handle` is the relay's descriptor as the
    /// native library returned it.
    pub fn new(
        chain: &mut ValidityChain<u64>,
        device: &Device,
        service: &LockdowndService,
        handle: u64,
    ) -> (r: Result<FileRelay, Invalidated>)
        ensures
            r is Err <==> !(chain_live(old(chain)@, device.lock.cell as int) && chain_live(
                old(chain)@,
                service.lock.cell as int,
            )),
            r is Err ==> final(chain)@ == old(chain)@,
            r matches Ok(c) ==> {
                &&& c.cell == old(chain)@.len()
                &&& final(chain)@ == old(chain)@.push(
                    (CellModel { slot: Some(handle), parent: Some(service.lock.cell as int) }),
                )
            },
    {
        match device.lock.check(chain) {
            Ok(_) => {},
            Err(e) => {
                return Err(e);
            },
        }
        match service.lock.check(chain) {
            Ok(_) => {},
            Err(e) => {
                return Err(e);
            },
        }
        let cell = chain.new_child(handle, service.lock.cell);
        Ok(FileRelay { cell })
    }

    /// Wraps a file relay started directly over the device: validates the
    /// device first, and wires the relay's cell to the device's cell.
    pub fn start_service(
        chain: &mut ValidityChain<u64>,
        device: &Device,
        handle: u64,
    ) -> (r: Result<FileRelay, Invalidated>)
        ensures
            r is Err <==> !chain_live(old(chain)@, device.lock.cell as int),
            r is Err ==> final(chain)@ == old(chain)@,
            r matches Ok(c) ==> {
                &&& c.cell == old(chain)@.len()
                &&& final(chain)@ == old(chain)@.push(
                    (CellModel { slot: Some(handle), parent: Some(device.lock.cell as int) }),
                )
            },
    {
        match device.lock.check(chain) {
            Ok(_) => {
                let cell = chain.new_child(handle, device.lock.cell);
                Ok(FileRelay { cell })
            },
            Err(e) => Err(e),
        }
    }

    /// Returns the relay's snapshot while its whole chain is live.  A
    /// request for sources obtains its handle through this call before it
    /// touches the native library.
    pub fn check(&self, chain: &ValidityChain<u64>) -> (r: Result<u64, Invalidated>)
        ensures
            r == spec_check(chain@, self.cell as int),
    {
        chain.check(self.cell)
    }

    /// Clears only the relay's own cell, as the teardown path does.
    pub fn invalidate(&self, chain: &mut ValidityChain<u64>)
        ensures
            final(chain)@ == spec_invalidate(old(chain)@, self.cell as int),
    {
        chain.invalidate(self.cell)
    }
}

/// The sources a file relay can request data for.
#[derive(Clone, Copy, Debug, PartialEq, Eq, Structural)]
pub enum FileRelaySources {
    AppleSupport,
    Network,
    VPN,
    WiFi,
    UserDatabases,
    CrashReporter,
    Tmp,
    SystemConfiguration,
}

/// The name under which the native library knows a source.
pub open spec fn spec_source_name(source: FileRelaySources) -> Seq<char> {
    match source {
        FileRelaySources::AppleSupport => "AppleSupport"@,
        FileRelaySources::Network => "Network"@,
        FileRelaySources::VPN => "VPN"@,
        FileRelaySources::WiFi => "WiFi"@,
        FileRelaySources::UserDatabases => "UserDatabases"@,
        FileRelaySources::CrashReporter => "CrashReporter"@,
        FileRelaySources::Tmp => "Tmp"@,
        FileRelaySources::SystemConfiguration => "SystemConfiguration"@,
    }
}

impl FileRelaySources {
    /// The name under which a request passes this source to the native
    /// library.
    pub fn name(&self) -> (name: &'static str)
        ensures
            name@ == spec_source_name(*self),
    {
        match *self {
            FileRelaySources::AppleSupport => "AppleSupport",
            FileRelaySources::Network => "Network",
            FileRelaySources::VPN => "VPN",
            FileRelaySources::WiFi => "WiFi",
            FileRelaySources::UserDatabases => "UserDatabases",
            FileRelaySources::CrashReporter => "CrashReporter",
            FileRelaySources::Tmp => "Tmp",
            FileRelaySources::SystemConfiguration => "SystemConfiguration",
        }
    }
}

/// The names of the given sources, in order: the list a request for
/// sources marshals before it hands them to the native library.
pub fn source_names(sources: &Vec<FileRelaySources>) -> (names: Vec<String>)
    ensures
        names@.len() == sources@.len(),
        forall|i: int|
            0 <= i < sources@.len() ==> (#[trigger] names@[i])@ == spec_source_name(sources@[i]),
{
    let mut names: Vec<String> = Vec::new();
    let mut i: usize = 0;
    while i < sources.len()
        invariant
            i <= sources@.len(),
            names@.len() == i,
            forall|j: int|
                0 <= j < i ==> (#[trigger] names@[j])@ == spec_source_name(sources@[j]),
        decreases sources@.len() - i,
    {
        names.push(String::from_str(sources[i].name()));
        i = i + 1;
    }
    names
}

} // verus!
