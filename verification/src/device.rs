//! Byte-level device primitives: endpoints, write/read commands, and the
//! events a transport driver reports.

use vstd::prelude::*;
use crate::errors::ButtplugDeviceError;

verus! {

/// Symbolic name for a transport channel on a device. A device declares the
/// finite set of endpoints it supports; writes or reads addressed to any
/// other endpoint fail with `UnsupportedEndpoint`.
#[derive(Clone, Copy, PartialEq, Eq, Structural, Debug)]
pub enum Endpoint {
    Command,
    Firmware,
    Rx,
    Tx,
    Whitelist,
}

/// A byte write addressed to one endpoint of a device.
#[derive(Clone, PartialEq, Debug)]
pub struct DeviceWriteCmd {
    pub endpoint: Endpoint,
    pub data: Vec<u8>,
    pub write_with_response: bool,
}

impl DeviceWriteCmd {
    pub fn new(endpoint: Endpoint, data: Vec<u8>, write_with_response: bool) -> (r: Self)
        ensures
            r.endpoint == endpoint,
            r.data@ == data@,
            r.write_with_response == write_with_response,
    {
        DeviceWriteCmd { endpoint, data, write_with_response }
    }
}

/// A read request: at most `length` bytes from one endpoint, bounded by a
/// timeout in milliseconds.
#[derive(Clone, Debug)]
pub struct DeviceReadCmd {
    pub endpoint: Endpoint,
    pub length: u32,
    pub timeout_ms: u32,
}

/// A subscription toggle for notifications on one endpoint.
#[derive(Clone, Copy, Debug)]
pub struct DeviceSubscribeCmd {
    pub endpoint: Endpoint,
}

/// The inverse of `DeviceSubscribeCmd`.
#[derive(Clone, Copy, Debug)]
pub struct DeviceUnsubscribeCmd {
    pub endpoint: Endpoint,
}

/// What a transport driver reports upward: bytes that arrived on a
/// subscribed endpoint, or the loss of the connection. A `Disconnected`
/// event is authoritative: on seeing it the registry drops the device.
#[derive(Clone, Debug)]
pub enum ButtplugDeviceEvent {
    Notification { endpoint: Endpoint, data: Vec<u8> },
    Disconnected,
}

/// Identity half of a device handle: the name and address a communication
/// manager discovered, the endpoints the transport declared, and the
/// connection flag. The I/O half of the handle lives outside this crate;
/// command handlers here produce the writes it must perform.
#[derive(Clone, Debug)]
pub struct DeviceHandle {
    pub name: String,
    pub address: String,
    pub endpoints: Vec<Endpoint>,
    pub connected: bool,
}

impl DeviceHandle {
    pub fn new(name: String, address: String, endpoints: Vec<Endpoint>) -> (r: Self)
        ensures
            r.name@ == name@,
            r.address@ == address@,
            r.endpoints@ == endpoints@,
            r.connected,
    {
        DeviceHandle { name, address, endpoints, connected: true }
    }

    /// Whether the transport declared `endpoint` when the device was created.
    pub fn supports_endpoint(&self, endpoint: Endpoint) -> (r: bool)
        ensures
            r == self.endpoints@.contains(endpoint),
    {
        let mut i: usize = 0;
        while i < self.endpoints.len()
            invariant
                i <= self.endpoints@.len(),
                forall|j: int| 0 <= j < i ==> self.endpoints@[j] != endpoint,
            decreases self.endpoints@.len() - i,
        {
            if self.endpoints[i] == endpoint {
                return true;
            }
            i = i + 1;
        }
        false
    }

    /// Admits a write: it must address a declared endpoint of a handle
    /// that is still connected, and then passes through for the transport
    /// driver to perform.
    pub fn write_value(&self, cmd: DeviceWriteCmd) -> (r: Result<DeviceWriteCmd, ButtplugDeviceError>)
        ensures
            !self.connected ==> r == Err::<DeviceWriteCmd, _>(
                ButtplugDeviceError::DeviceNotConnected,
            ),
            self.connected && !self.endpoints@.contains(cmd.endpoint) ==> r == Err::<
                DeviceWriteCmd,
                _,
            >(ButtplugDeviceError::UnsupportedEndpoint(cmd.endpoint)),
            self.connected && self.endpoints@.contains(cmd.endpoint) ==> r == Ok::<
                _,
                ButtplugDeviceError,
            >(cmd),
    {
        if !self.connected {
            return Err(ButtplugDeviceError::DeviceNotConnected);
        }
        if !self.supports_endpoint(cmd.endpoint) {
            return Err(ButtplugDeviceError::UnsupportedEndpoint(cmd.endpoint));
        }
        Ok(cmd)
    }

    /// Marks the handle disconnected. The flag is monotone: nothing in this
    /// crate sets it back to true on an existing handle.
    pub fn disconnect(&mut self)
        ensures
            !final(self).connected,
            final(self).name@ == old(self).name@,
            final(self).address@ == old(self).address@,
            final(self).endpoints@ == old(self).endpoints@,
    {
        self.connected = false;
    }
}

} // verus!
