//! The Bluetooth LE device behind its driver task. The task owns the
//! peripheral and answers commands over a channel; this module holds the
//! identity record the rest of the pipeline sees and the decisions around
//! the channel's answers.

use vstd::prelude::*;
use super::DeviceSpecifier;
use crate::device::{DeviceWriteCmd, Endpoint};
use crate::errors::{ButtplugDeviceError, ButtplugError};

verus! {

/// What the device task can be asked over its channel.
#[derive(Clone, PartialEq, Debug)]
pub enum ButtplugDeviceCommand {
    Connect,
    Message(DeviceWriteCmd),
    Disconnect,
}

/// What the device task answers. A connect answers with the endpoints it
/// found; anything else answers plainly or with an account of failure.
#[derive(Clone, PartialEq, Debug)]
pub enum ButtplugDeviceReturn {
    Connected { endpoints: Vec<Endpoint> },
    Done,
    DeviceError(String),
}

/// Creator for one BLE device: it owns the peripheral's advertised name
/// and address until the device is built.
#[derive(Clone, PartialEq, Debug)]
pub struct RumbleBLEDeviceImplCreator {
    pub name: String,
    pub address: String,
}

impl RumbleBLEDeviceImplCreator {
    pub fn new(name: String, address: String) -> (r: Self)
        ensures
            r.name@ == name@,
            r.address@ == address@,
    {
        RumbleBLEDeviceImplCreator { name, address }
    }

    /// Devices are recognized by advertised name: most peripherals send
    /// no services while advertising.
    pub fn get_specifier(&self) -> (r: DeviceSpecifier)
        ensures
            r matches DeviceSpecifier::BluetoothLE(n) && n@ == self.name@,
    {
        DeviceSpecifier::BluetoothLE(self.name.clone())
    }

    /// Judges the task's answer to the connect command: only a connected
    /// answer yields a device, carrying the endpoints the task found; any
    /// other answer is the "Cannot connect" device error. The caller must
    /// hold a protocol definition with a Bluetooth block before asking.
    pub fn try_create_device_impl(&self, connect_result: ButtplugDeviceReturn) -> (r: Result<
        RumbleBLEDeviceImpl,
        ButtplugError,
    >)
        ensures
            connect_result matches ButtplugDeviceReturn::Connected { endpoints } ==> r matches Ok(
                d,
            ) && d.name@ == self.name@ && d.address@ == self.address@ && d.endpoints@
                == endpoints@,
            !(connect_result matches ButtplugDeviceReturn::Connected { .. }) ==> (r matches Err(
                ButtplugError::ButtplugDeviceError(
                    ButtplugDeviceError::DeviceCommunicationError(m),
                ),
            ) && m@ == "Cannot connect"@),
    {
        match connect_result {
            ButtplugDeviceReturn::Connected { endpoints } => Ok(
                RumbleBLEDeviceImpl::new(&self.name, &self.address, endpoints),
            ),
            _ => Err(
                ButtplugError::ButtplugDeviceError(
                    ButtplugDeviceError::DeviceCommunicationError("Cannot connect".to_owned()),
                ),
            ),
        }
    }
}

/// The identity record of a connected BLE device. Writes, reads and
/// subscriptions travel as commands to the driver task; this crate judges
/// the answers.
#[derive(Clone, PartialEq, Debug)]
pub struct RumbleBLEDeviceImpl {
    pub name: String,
    pub address: String,
    pub endpoints: Vec<Endpoint>,
}

impl RumbleBLEDeviceImpl {
    pub fn new(name: &String, address: &String, endpoints: Vec<Endpoint>) -> (r: Self)
        ensures
            r.name@ == name@,
            r.address@ == address@,
            r.endpoints@ == endpoints@,
    {
        RumbleBLEDeviceImpl {
            name: name.clone(),
            address: address.clone(),
            endpoints,
        }
    }

    /// Judges the task's answer to any non-connect command: done means
    /// done, anything else surfaces as a device error carrying the
    /// caller's account.
    pub fn interpret_device_return(result: &ButtplugDeviceReturn, err_msg: &str) -> (r: Result<
        (),
        ButtplugError,
    >)
        ensures
            result matches ButtplugDeviceReturn::Done ==> r is Ok,
            !(result matches ButtplugDeviceReturn::Done) ==> (r matches Err(
                ButtplugError::ButtplugDeviceError(
                    ButtplugDeviceError::DeviceCommunicationError(m),
                ),
            ) && m@ == err_msg@),
    {
        match result {
            ButtplugDeviceReturn::Done => Ok(()),
            _ => Err(
                ButtplugError::ButtplugDeviceError(
                    ButtplugDeviceError::DeviceCommunicationError(err_msg.to_owned()),
                ),
            ),
        }
    }

    /// The command the driver task gets for one write.
    pub fn write_value(&self, msg: DeviceWriteCmd) -> (r: ButtplugDeviceCommand)
        ensures
            r == ButtplugDeviceCommand::Message(msg),
    {
        ButtplugDeviceCommand::Message(msg)
    }

    /// The command the driver task gets for a disconnect.
    pub fn disconnect(&self) -> (r: ButtplugDeviceCommand)
        ensures
            r == ButtplugDeviceCommand::Disconnect,
    {
        ButtplugDeviceCommand::Disconnect
    }
}

} // verus!
