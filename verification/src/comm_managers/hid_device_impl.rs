//! The HID device: a write-only transport addressed by vendor and product
//! id. Opening the platform handle and writing the report are the
//! runtime's; this model carries the identity, the output report bytes,
//! and the volatile connection flag.

use vstd::prelude::*;
use super::hid_comm_manager::HidDeviceInfo;
use super::DeviceSpecifier;
use crate::device::{DeviceHandle, DeviceWriteCmd, Endpoint};

verus! {

/// Creator for one enumerated HID device.
#[derive(Clone, PartialEq, Debug)]
pub struct HIDDeviceImplCreator {
    device_info: HidDeviceInfo,
}

impl HIDDeviceImplCreator {
    pub closed spec fn spec_device_info(&self) -> HidDeviceInfo {
        self.device_info
    }

    pub fn new(device_info: HidDeviceInfo) -> (r: Self)
        ensures
            r.spec_device_info() == device_info,
    {
        HIDDeviceImplCreator { device_info }
    }

    /// HID devices are matched by their vendor and product ids.
    pub fn get_specifier(&self) -> (r: DeviceSpecifier)
        ensures
            r == (DeviceSpecifier::HID {
                vendor_id: self.spec_device_info().vendor_id,
                product_id: self.spec_device_info().product_id,
            }),
    {
        DeviceSpecifier::HID {
            vendor_id: self.device_info.vendor_id,
            product_id: self.device_info.product_id,
        }
    }

    /// Builds the device handle and transport model: named by the product
    /// string, addressed by the serial number, reading and writing. The
    /// platform handle is opened by the caller; devices without a serial
    /// or product string never reach this point, since the scan skips
    /// them.
    pub fn try_create_device_impl(&self) -> (r: (DeviceHandle, HIDDeviceImpl))
        requires
            self.spec_device_info().serial_number is Some,
            self.spec_device_info().product_string is Some,
        ensures
            r.0.name@ == self.spec_device_info().product_string->0@,
            r.0.address@ == self.spec_device_info().serial_number->0@,
            r.0.endpoints@ =~= seq![Endpoint::Rx, Endpoint::Tx],
            r.0.connected,
            r.1.spec_connected(),
    {
        let name = match &self.device_info.product_string {
            Some(product) => product.clone(),
            None => String::new(),
        };
        let address = match &self.device_info.serial_number {
            Some(serial) => serial.clone(),
            None => String::new(),
        };
        let mut endpoints: Vec<Endpoint> = Vec::new();
        endpoints.push(Endpoint::Rx);
        endpoints.push(Endpoint::Tx);
        (DeviceHandle::new(name, address, endpoints), HIDDeviceImpl::new())
    }
}

/// The transport model of one open HID device.
#[derive(Clone, PartialEq, Debug)]
pub struct HIDDeviceImpl {
    connected: bool,
}

impl HIDDeviceImpl {
    pub closed spec fn spec_connected(&self) -> bool {
        self.connected
    }

    /// A device starts connected: it was just opened.
    pub fn new() -> (r: Self)
        ensures
            r.spec_connected(),
    {
        HIDDeviceImpl { connected: true }
    }

    pub fn connected(&self) -> (r: bool)
        ensures
            r == self.spec_connected(),
    {
        self.connected
    }

    /// Marks the device disconnected; the flag never rises again.
    pub fn disconnect(&mut self)
        ensures
            !final(self).spec_connected(),
    {
        self.connected = false;
    }

    /// The output report the platform write receives: exactly the write's
    /// bytes. A platform failure surfaces as the device-communication
    /// error the caller forms.
    pub fn write_value(&self, msg: &DeviceWriteCmd) -> (r: Vec<u8>)
        ensures
            r@ == msg.data@,
    {
        let mut report: Vec<u8> = Vec::new();
        let mut i: usize = 0;
        while i < msg.data.len()
            invariant
                i <= msg.data@.len(),
                report@.len() == i,
                forall|j: int| 0 <= j < i ==> report@[j] == msg.data@[j],
            decreases msg.data@.len() - i,
        {
            report.push(msg.data[i]);
            i = i + 1;
        }
        proof {
            assert(report@ =~= msg.data@);
        }
        report
    }
}

} // verus!
