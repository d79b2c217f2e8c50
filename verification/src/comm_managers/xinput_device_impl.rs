//! The XInput gamepad as a haptic device. A write carries two 16-bit
//! motor speeds, little-endian, left then right; the native call that
//! sets the controller state happens outside this crate and receives the
//! decoded pair. The little-endian layout is a stable contract.

use vstd::prelude::*;
use vstd::string::StringExecFns;
use super::DeviceSpecifier;
use crate::device::{DeviceWriteCmd, Endpoint};
use crate::util::{dec_chars, push_dec, read_u16_le, u16_from_le};

verus! {

/// Which of the four controller slots the device sits in.
#[derive(Clone, Copy, PartialEq, Eq, Structural, Debug)]
pub enum XInputControllerIndex {
    XInputController0,
    XInputController1,
    XInputController2,
    XInputController3,
}

impl XInputControllerIndex {
    /// The slot as the number the native API takes.
    pub open spec fn spec_number(&self) -> u32 {
        match *self {
            XInputControllerIndex::XInputController0 => 0,
            XInputControllerIndex::XInputController1 => 1,
            XInputControllerIndex::XInputController2 => 2,
            XInputControllerIndex::XInputController3 => 3,
        }
    }

    pub fn number(&self) -> (r: u32)
        ensures
            r == self.spec_number(),
    {
        match self {
            XInputControllerIndex::XInputController0 => 0,
            XInputControllerIndex::XInputController1 => 1,
            XInputControllerIndex::XInputController2 => 2,
            XInputControllerIndex::XInputController3 => 3,
        }
    }
}

/// Creator for one XInput controller device.
#[derive(Clone, Copy, PartialEq, Eq, Structural, Debug)]
pub struct XInputDeviceImplCreator {
    pub index: XInputControllerIndex,
}

impl XInputDeviceImplCreator {
    pub fn new(index: XInputControllerIndex) -> (r: Self)
        ensures
            r.index == index,
    {
        XInputDeviceImplCreator { index }
    }

    pub fn get_specifier(&self) -> (r: DeviceSpecifier)
        ensures
            r == DeviceSpecifier::XInput,
    {
        DeviceSpecifier::XInput
    }

    pub fn try_create_device_impl(&self) -> (r: XInputDeviceImpl)
        ensures
            r.spec_index() == self.index,
    {
        XInputDeviceImpl::new(self.index)
    }
}

/// The transport model of one XInput controller.
#[derive(Clone, PartialEq, Debug)]
pub struct XInputDeviceImpl {
    index: XInputControllerIndex,
    address: String,
}

impl XInputDeviceImpl {
    pub closed spec fn spec_index(&self) -> XInputControllerIndex {
        self.index
    }

    pub closed spec fn spec_address(&self) -> Seq<char> {
        self.address@
    }

    pub fn new(index: XInputControllerIndex) -> (r: Self)
        ensures
            r.spec_index() == index,
            r.spec_address() == "XInput Controller "@ + dec_chars(index.spec_number() as int),
    {
        let mut address = String::new();
        address.append("XInput Controller ");
        push_dec(&mut address, index.number() as u64);
        XInputDeviceImpl { index, address }
    }

    /// The name must match the XInput identifier entry in the
    /// configuration database.
    pub fn name(&self) -> (r: &'static str)
        ensures
            r@ == "XInput Gamepad"@,
    {
        "XInput Gamepad"
    }

    pub fn address(&self) -> (r: &String)
        ensures
            r@ == self.spec_address(),
    {
        &self.address
    }

    /// The native handle reports per call, not per connection.
    pub fn connected(&self) -> (r: bool)
        ensures
            r,
    {
        true
    }

    pub fn endpoints(&self) -> (r: Vec<Endpoint>)
        ensures
            r@ =~= seq![Endpoint::Tx],
    {
        let mut endpoints: Vec<Endpoint> = Vec::new();
        endpoints.push(Endpoint::Tx);
        endpoints
    }

    /// Decodes one write into the two motor speeds the native call
    /// takes: bytes 0..2 are the left speed, bytes 2..4 the right, both
    /// little-endian.
    pub fn write_value(&self, msg: &DeviceWriteCmd) -> (r: (u16, u16))
        requires
            msg.data@.len() >= 4,
        ensures
            r.0 == u16_from_le(msg.data@[0], msg.data@[1]),
            r.1 == u16_from_le(msg.data@[2], msg.data@[3]),
    {
        let left_motor_speed = read_u16_le(&msg.data, 0);
        let right_motor_speed = read_u16_le(&msg.data, 2);
        (left_motor_speed, right_motor_speed)
    }
}

} // verus!
