//! Communication managers: discovery of devices per transport family and
//! the byte-level device models behind them. Each manager's I/O loop runs
//! outside this crate and feeds plain values (names, addresses, bytes)
//! through the decision functions here.

use vstd::prelude::*;

pub mod btleplug_adapter_task;
pub mod hid_comm_manager;
pub mod hid_device_impl;
pub mod http_endpoint_comm_manager;
pub mod http_endpoint_device_impl;
pub mod rumble_device_impl;
pub mod xinput_device_impl;

verus! {

/// What a communication manager reports upward while scanning. A found
/// device carries the identity the device manager needs to pick a
/// protocol handler and build the registry row.
#[derive(Clone, PartialEq, Debug)]
pub enum DeviceCommunicationEvent {
    DeviceFound { name: String, address: String },
    ScanningFinished,
}

/// The fingerprint used to match a discovered device against the
/// configuration database and pick its protocol handler.
#[derive(Clone, PartialEq, Debug)]
pub enum DeviceSpecifier {
    BluetoothLE(String),
    HID { vendor_id: u16, product_id: u16 },
    XInput,
    HTTP,
}

} // verus!
