//! The device record and the operations on a roster of devices.
//!
//! A device is described by plain values: its udid, its muxer id, the way it
//! is connected, and, for a network device, the encoded address the native
//! library keeps behind the record.  The record carries the root cell of its
//! validity chain; every resource derived from the device wires its own cell
//! to that root.

use vstd::prelude::*;

use crate::memory_lock::{
    chain_live, spec_check, CellModel, IdeviceMemoryLock, Invalidated, MobileImageMounterLock,
    ValidityChain,
};
use crate::services::debug_server::DebugServer;
use crate::services::heartbeat::HeartbeatClient;
use crate::services::instproxy::InstProxyClient;
use crate::services::lockdownd::{LockdowndClient, LockdowndService};
use crate::services::mobile_image_mounter::MobileImageMounter;

verus! {

/// The errors of device discovery.  Selecting from a roster can fail only
/// because no device carries the requested udid.
#[derive(Clone, Copy, Debug, PartialEq, Eq, Structural)]
pub enum IdeviceError {
    NoDevice,
}

/// An address of a network-reachable device, as plain octets.
#[derive(Clone, Copy, Debug, PartialEq, Eq)]
pub enum IpAddress {
    V4([u8; 4]),
    V6([u8; 16]),
}

/// The bytes kept behind a device record for an address of the first
/// family: a length byte covering the 16-byte block, the family byte, two
/// bytes of padding, the four octets, and eight bytes of padding.
pub open spec fn v4_conn_data(octets: Seq<u8>) -> Seq<u8> {
    seq![0x10u8, 0x02u8, 0u8, 0u8] + octets + seq![0u8, 0u8, 0u8, 0u8, 0u8, 0u8, 0u8, 0u8]
}

/// The bytes kept behind a device record for an address of the second
/// family: a length byte covering a 28-byte block, the family byte, six
/// bytes of padding, the sixteen octets, and five bytes of padding.
pub open spec fn v6_conn_data(octets: Seq<u8>) -> Seq<u8> {
    seq![0x1Cu8, 0x1Eu8, 0u8, 0u8, 0u8, 0u8, 0u8, 0u8] + octets + seq![0u8, 0u8, 0u8, 0u8, 0u8]
}

/// Whether connection data carries an address of the first family that the
/// decoder will accept: the family byte, and a length byte that covers the
/// octets and does not overrun the data.
pub open spec fn is_v4_conn_data(data: Seq<u8>) -> bool {
    data.len() >= 2 && data[1] == 0x02 && 8 <= data[0] && data[0] <= data.len()
}

/// Whether connection data carries an address of the second family that the
/// decoder will accept.
pub open spec fn is_v6_conn_data(data: Seq<u8>) -> bool {
    data.len() >= 2 && data[1] == 0x1E && 23 <= data[0] && data[0] <= data.len()
}

/// Encodes a network address in the byte layout the native library keeps
/// behind a device record.
fn encode_conn_data(addr: &IpAddress) -> (data: Vec<u8>)
    ensures
        addr matches IpAddress::V4(o) ==> data@ == v4_conn_data(o@),
        addr matches IpAddress::V6(o) ==> data@ == v6_conn_data(o@),
{
    match addr {
        IpAddress::V4(o) => {
            let mut data: Vec<u8> = Vec::new();
            data.push(0x10);
            data.push(0x02);
            data.push(0);
            data.push(0);
            data.push(o[0]);
            data.push(o[1]);
            data.push(o[2]);
            data.push(o[3]);
            let mut k: usize = 0;
            while k < 8
                invariant
                    k <= 8,
                    data@.len() == 8 + k,
                    data@[0] == 0x10u8,
                    data@[1] == 0x02u8,
                    data@[2] == 0u8,
                    data@[3] == 0u8,
                    forall|j: int| 0 <= j < 4 ==> data@[4 + j] == o@[j],
                    forall|j: int| 8 <= j < data@.len() ==> data@[j] == 0u8,
                decreases 8 - k,
            {
                data.push(0);
                k = k + 1;
            }
            proof {
                assert(data@ =~= v4_conn_data(o@));
            }
            data
        },
        IpAddress::V6(o) => {
            let mut data: Vec<u8> = Vec::new();
            data.push(0x1C);
            data.push(0x1E);
            let mut k: usize = 0;
            while k < 6
                invariant
                    k <= 6,
                    data@.len() == 2 + k,
                    data@[0] == 0x1Cu8,
                    data@[1] == 0x1Eu8,
                    forall|j: int| 2 <= j < data@.len() ==> data@[j] == 0u8,
                decreases 6 - k,
            {
                data.push(0);
                k = k + 1;
            }
            let mut k: usize = 0;
            while k < 16
                invariant
                    k <= 16,
                    data@.len() == 8 + k,
                    data@[0] == 0x1Cu8,
                    data@[1] == 0x1Eu8,
                    forall|j: int| 2 <= j < 8 ==> data@[j] == 0u8,
                    forall|j: int| 0 <= j < k ==> data@[8 + j] == o@[j],
                decreases 16 - k,
            {
                data.push(o[k]);
                k = k + 1;
            }
            let mut k: usize = 0;
            while k < 5
                invariant
                    k <= 5,
                    data@.len() == 24 + k,
                    data@[0] == 0x1Cu8,
                    data@[1] == 0x1Eu8,
                    forall|j: int| 2 <= j < 8 ==> data@[j] == 0u8,
                    forall|j: int| 0 <= j < 16 ==> data@[8 + j] == o@[j],
                    forall|j: int| 24 <= j < data@.len() ==> data@[j] == 0u8,
                decreases 5 - k,
            {
                data.push(0);
                k = k + 1;
            }
            proof {
                assert(data@ =~= v6_conn_data(o@));
            }
            data
        },
    }
}

/// A connected device, as the plain values of its record, together with the
/// root cell of its validity chain.  The cell holds the device's muxer id
/// as its snapshot; every resource derived from the device wires its own
/// cell to this one.
#[derive(Debug)]
pub struct Device {
    pub udid: String,
    pub mux_id: u32,
    pub conn_type: u32,
    pub conn_data: Vec<u8>,
    pub version: i32,
    pub device_class: i32,
    pub lock: IdeviceMemoryLock,
}

impl Device {
    /// Builds a device record from plain values, sidestepping discovery,
    /// and registers it as the root of a fresh cell in the chain.  Fails
    /// exactly when a network connection is requested without an address.
    pub fn new(
        chain: &mut ValidityChain<u64>,
        udid: String,
        network: bool,
        ip_addr: Option<IpAddress>,
        mux_id: u32,
    ) -> (r: Result<Device, ()>)
        ensures
            r is Err <==> (network && ip_addr is None),
            r is Err ==> final(chain)@ == old(chain)@,
            r matches Ok(d) ==> {
                &&& d.udid@ == udid@
                &&& d.mux_id == mux_id
                &&& d.conn_type == (if network { 2u32 } else { 1u32 })
                &&& d.version == 0
                &&& d.device_class == 0
                &&& d.lock.cell == old(chain)@.len()
                &&& final(chain)@ == old(chain)@.push(
                    (CellModel { slot: Some(mux_id as u64), parent: None }),
                )
                &&& network ==> (ip_addr matches Some(IpAddress::V4(o)) ==> d.conn_data@
                    == v4_conn_data(o@))
                &&& network ==> (ip_addr matches Some(IpAddress::V6(o)) ==> d.conn_data@
                    == v6_conn_data(o@))
                &&& !network ==> d.conn_data@ == Seq::<u8>::empty()
            },
    {
        if network && ip_addr.is_none() {
            return Err(());
        }
        let conn_data: Vec<u8> = if network {
            match &ip_addr {
                Some(addr) => encode_conn_data(addr),
                None => Vec::new(),
            }
        } else {
            Vec::new()
        };
        let lock = IdeviceMemoryLock::new(chain, mux_id as u64);
        Ok(
            Device {
                udid,
                mux_id,
                conn_type: if network {
                    2
                } else {
                    1
                },
                conn_data,
                version: 0,
                device_class: 0,
                lock,
            },
        )
    }

    /// The udid of the device.
    pub fn get_udid(&self) -> (udid: String)
        ensures
            udid@ == self.udid@,
    {
        self.udid.clone()
    }

    /// Whether the device is connected over the network rather than over
    /// usb.
    pub fn get_network(&self) -> (network: bool)
        ensures
            network == (self.conn_type != 1),
    {
        self.conn_type != 1
    }

    /// The muxer handle of the device, read through its validity cell: it
    /// is available only while the device is live.
    pub fn get_handle(&self, chain: &ValidityChain<u64>) -> (r: Result<u64, Invalidated>)
        ensures
            r == spec_check(chain@, self.lock.cell as int),
    {
        self.lock.check(chain)
    }

    /// The class of the device.
    pub fn get_device_class(&self) -> (class: i32)
        ensures
            class == self.device_class,
    {
        self.device_class
    }

    /// The version of the device.
    pub fn get_version(&self) -> (version: i32)
        ensures
            version == self.version,
    {
        self.version
    }

    /// A copy of the bytes of the connection data: for a network device,
    /// the encoded address.
    pub fn get_conn_data(&self) -> (data: Vec<u8>)
        ensures
            data@ == self.conn_data@,
    {
        let mut out: Vec<u8> = Vec::new();
        let mut i: usize = 0;
        while i < self.conn_data.len()
            invariant
                i <= self.conn_data@.len(),
                out@ == self.conn_data@.subrange(0, i as int),
            decreases self.conn_data@.len() - i,
        {
            out.push(self.conn_data[i]);
            proof {
                assert(out@ =~= self.conn_data@.subrange(0, i + 1));
            }
            i = i + 1;
        }
        proof {
            assert(out@ =~= self.conn_data@);
        }
        out
    }

    /// Decodes the address of a network device from its connection data:
    /// the family byte picks the family, and the octets are read from that
    /// family's fixed offset.  A usb device, and data whose length byte or
    /// family byte the decoder does not accept, yield nothing.
    pub fn get_ip_address(&self) -> (r: Option<IpAddress>)
        ensures
            self.conn_type == 1 ==> r is None,
            self.conn_type != 1 ==> {
                &&& r is Some <==> (is_v4_conn_data(self.conn_data@) || is_v6_conn_data(
                    self.conn_data@,
                ))
                &&& is_v4_conn_data(self.conn_data@) ==> (r matches Some(IpAddress::V4(o))
                    && o@ == self.conn_data@.subrange(4, 8))
                &&& is_v6_conn_data(self.conn_data@) ==> (r matches Some(IpAddress::V6(o))
                    && o@ == self.conn_data@.subrange(7, 23))
            },
    {
        if self.conn_type == 1 {
            return None;
        }
        let d = &self.conn_data;
        if d.len() < 2 {
            return None;
        }
        let n = d[0] as usize;
        if n > d.len() {
            return None;
        }
        if d[1] == 0x02 {
            if n < 8 {
                return None;
            }
            let a = [d[4], d[5], d[6], d[7]];
            proof {
                assert(a@ =~= self.conn_data@.subrange(4, 8));
            }
            Some(IpAddress::V4(a))
        } else if d[1] == 0x1E {
            if n < 23 {
                return None;
            }
            let a = [
                d[7],
                d[8],
                d[9],
                d[10],
                d[11],
                d[12],
                d[13],
                d[14],
                d[15],
                d[16],
                d[17],
                d[18],
                d[19],
                d[20],
                d[21],
                d[22],
            ];
            proof {
                assert(a@ =~= self.conn_data@.subrange(7, 23));
            }
            Some(IpAddress::V6(a))
        } else {
            None
        }
    }

    /// Starts the protocol client for the device, through which services
    /// are negotiated: validates the device first, and wires the client's
    /// cell to the device's cell.  `handle` is the client's descriptor as
    /// the native library returned it.
    pub fn new_lockdownd_client(
        &self,
        chain: &mut ValidityChain<u64>,
        label: String,
        handle: u64,
    ) -> (r: Result<LockdowndClient, Invalidated>)
        ensures
            r is Err <==> !chain_live(old(chain)@, self.lock.cell as int),
            r is Err ==> final(chain)@ == old(chain)@,
            r matches Ok(c) ==> {
                &&& c.label@ == label@
                &&& c.lock.cell == old(chain)@.len()
                &&& final(chain)@ == old(chain)@.push(
                    (CellModel { slot: Some(handle), parent: Some(self.lock.cell as int) }),
                )
            },
    {
        LockdowndClient::new(chain, self, label, handle)
    }

    /// Starts the heartbeat service for the device: validates the device
    /// first, and wires the client's cell to the device's cell.
    pub fn new_heartbeat_client(
        &self,
        chain: &mut ValidityChain<u64>,
        label: String,
        handle: u64,
    ) -> (r: Result<HeartbeatClient, Invalidated>)
        ensures
            r is Err <==> !chain_live(old(chain)@, self.lock.cell as int),
            r is Err ==> final(chain)@ == old(chain)@,
            r matches Ok(c) ==> {
                &&& c.label@ == label@
                &&& c.cell == old(chain)@.len()
                &&& final(chain)@ == old(chain)@.push(
                    (CellModel { slot: Some(handle), parent: Some(self.lock.cell as int) }),
                )
            },
    {
        HeartbeatClient::new(chain, self, label, handle)
    }

    /// Creates an image mounter on top of a service descriptor: validates
    /// the device and the descriptor first, and wires the mounter's cell
    /// to the descriptor's cell, so that tearing down any level of the
    /// chain breaks the mounter.
    pub fn new_mobile_image_mounter(
        &self,
        chain: &mut ValidityChain<u64>,
        service: &LockdowndService,
        handle: u64,
    ) -> (r: Result<MobileImageMounter, Invalidated>)
        ensures
            r is Err <==> !(chain_live(old(chain)@, self.lock.cell as int) && chain_live(
                old(chain)@,
                service.lock.cell as int,
            )),
            r is Err ==> final(chain)@ == old(chain)@,
            r matches Ok(m) ==> {
                &&& m.lock.cell == old(chain)@.len()
                &&& final(chain)@ == old(chain)@.push(
                    (CellModel { slot: Some(handle), parent: Some(service.lock.cell as int) }),
                )
            },
    {
        match self.lock.check(chain) {
            Ok(_) => {},
            Err(e) => {
                return Err(e);
            },
        }
        match service.lock.check(chain) {
            Ok(_) => {},
            Err(e) => {
                return Err(e);
            },
        }
        Ok(MobileImageMounter { lock: MobileImageMounterLock::new(chain, handle, &service.lock) })
    }

    /// Creates an installation proxy client for the device: validates the
    /// device first, and wires the client's cell to the device's cell.
    pub fn new_instproxy_client(
        &self,
        chain: &mut ValidityChain<u64>,
        label: String,
        handle: u64,
    ) -> (r: Result<InstProxyClient, Invalidated>)
        ensures
            r is Err <==> !chain_live(old(chain)@, self.lock.cell as int),
            r is Err ==> final(chain)@ == old(chain)@,
            r matches Ok(c) ==> {
                &&& c.label@ == label@
                &&& c.cell == old(chain)@.len()
                &&& final(chain)@ == old(chain)@.push(
                    (CellModel { slot: Some(handle), parent: Some(self.lock.cell as int) }),
                )
            },
    {
        InstProxyClient::new(chain, self, label, handle)
    }

    /// Creates a debug server for the device: validates the device first,
    /// and wires the server's cell to the device's cell.
    pub fn new_debug_server(
        &self,
        chain: &mut ValidityChain<u64>,
        label: String,
        handle: u64,
    ) -> (r: Result<DebugServer, Invalidated>)
        ensures
            r is Err <==> !chain_live(old(chain)@, self.lock.cell as int),
            r is Err ==> final(chain)@ == old(chain)@,
            r matches Ok(c) ==> {
                &&& c.label@ == label@
                &&& c.cell == old(chain)@.len()
                &&& final(chain)@ == old(chain)@.push(
                    (CellModel { slot: Some(handle), parent: Some(self.lock.cell as int) }),
                )
            },
    {
        DebugServer::new(chain, self, label, handle)
    }
}

/// Picks from an already fetched roster the device with the given udid:
/// takes the first device whose udid matches out of the roster, or fails
/// with `NoDevice`, leaving the roster untouched, when none matches.
pub fn get_device(devices: &mut Vec<Device>, udid: String) -> (r: Result<Device, IdeviceError>)
    ensures
        r is Ok <==> (exists|i: int|
            0 <= i < old(devices)@.len() && (#[trigger] old(devices)@[i]).udid@ == udid@),
        r matches Ok(d) ==> (exists|i: int|
            0 <= i < old(devices)@.len() && d == (#[trigger] old(devices)@[i]) && old(
                devices,
            )@[i].udid@ == udid@ && final(devices)@ == old(devices)@.remove(i) && (forall|j: int|
                0 <= j < i ==> (#[trigger] old(devices)@[j]).udid@ != udid@)),
        r is Err ==> final(devices)@ == old(devices)@ && r == Err::<Device, IdeviceError>(
            IdeviceError::NoDevice,
        ),
{
    let ghost roster = devices@;
    let mut i: usize = 0;
    while i < devices.len()
        invariant
            i <= devices@.len(),
            devices@ == roster,
            old(devices)@ == roster,
            forall|j: int| 0 <= j < i ==> (#[trigger] roster[j]).udid@ != udid@,
        decreases devices@.len() - i,
    {
        if devices[i].udid == udid {
            proof {
                assert((#[trigger] old(devices)@[i as int]).udid@ == udid@);
            }
            let d = devices.remove(i);
            return Ok(d);
        }
        i = i + 1;
    }
    Err(IdeviceError::NoDevice)
}

/// The udids of an already fetched roster, in roster order.
pub fn get_udid_list(devices: &Vec<Device>) -> (udids: Vec<String>)
    ensures
        udids@.len() == devices@.len(),
        forall|i: int| 0 <= i < devices@.len() ==> (#[trigger] udids@[i])@ == devices@[i].udid@,
{
    let mut udids: Vec<String> = Vec::new();
    let mut i: usize = 0;
    while i < devices.len()
        invariant
            i <= devices@.len(),
            udids@.len() == i,
            forall|j: int| 0 <= j < i ==> (#[trigger] udids@[j])@ == devices@[j].udid@,
        decreases devices@.len() - i,
    {
        udids.push(devices[i].get_udid());
        i = i + 1;
    }
    udids
}

/// The kinds of events the muxer reports about devices.
#[derive(Clone, Copy, Debug, PartialEq, Eq, Structural)]
pub enum EventType {
    Add,
    Remove,
    Pair,
}

/// An event reported by the muxer about a device, as plain values.
#[derive(Debug)]
pub struct IDeviceEvent {
    pub event: EventType,
    pub udid: String,
    pub conn_type: u32,
}

} // verus!
