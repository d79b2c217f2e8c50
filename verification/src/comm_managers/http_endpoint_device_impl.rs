//! The HTTP fan-out device: a write becomes one GET request whose query
//! string carries the first data byte as the speed and the device's own
//! number as the index. The request itself is performed outside this
//! crate; this module forms the exact URL.

use vstd::prelude::*;
use vstd::string::StringExecFns;
use super::DeviceSpecifier;
use crate::device::{DeviceHandle, DeviceWriteCmd, Endpoint};
use crate::util::{dec_chars, push_dec};

verus! {

/// The full GET URL for one write: scheme, the configured host, then the
/// speed byte and device number in the query string.
pub open spec fn http_write_url(host: Seq<char>, speed: u8, index: u8) -> Seq<char> {
    "http://"@ + host + "/?speed="@ + dec_chars(speed as int) + "&index="@ + dec_chars(index as int)
}

/// Creator for one HTTP endpoint device, identified by its number in the
/// configured endpoint list.
#[derive(Clone, PartialEq, Debug)]
pub struct HTTPEndpointDeviceImplCreator {
    index: u8,
}

impl HTTPEndpointDeviceImplCreator {
    pub closed spec fn spec_index(&self) -> u8 {
        self.index
    }

    pub fn new(index: u8) -> (r: Self)
        ensures
            r.spec_index() == index,
    {
        HTTPEndpointDeviceImplCreator { index }
    }

    pub fn get_specifier(&self) -> (r: DeviceSpecifier)
        ensures
            r == DeviceSpecifier::HTTP,
    {
        DeviceSpecifier::HTTP
    }

    /// Builds the device handle and its transport model. The device is
    /// named "Ear" followed by its number, addressed as "HTTP Device"
    /// with the number, and only writes.
    pub fn try_create_device_impl(&self) -> (r: (DeviceHandle, HTTPEndpointDeviceImpl))
        ensures
            r.0.name@ == "Ear"@ + dec_chars(self.spec_index() as int),
            r.0.address@ == "HTTP Device "@ + dec_chars(self.spec_index() as int),
            r.0.endpoints@ =~= seq![Endpoint::Tx],
            r.0.connected,
            r.1.spec_index() == self.spec_index(),
    {
        let mut name = String::new();
        name.append("Ear");
        push_dec(&mut name, self.index as u64);
        let mut address = String::new();
        address.append("HTTP Device ");
        push_dec(&mut address, self.index as u64);
        let mut endpoints: Vec<Endpoint> = Vec::new();
        endpoints.push(Endpoint::Tx);
        let handle = DeviceHandle::new(name, address, endpoints);
        (handle, HTTPEndpointDeviceImpl::new(self.index))
    }
}

/// The write-only transport model of one HTTP endpoint device.
#[derive(Clone, PartialEq, Debug)]
pub struct HTTPEndpointDeviceImpl {
    index: u8,
}

impl HTTPEndpointDeviceImpl {
    pub closed spec fn spec_index(&self) -> u8 {
        self.index
    }

    pub fn new(index: u8) -> (r: Self)
        ensures
            r.spec_index() == index,
    {
        HTTPEndpointDeviceImpl { index }
    }

    /// The endpoint shim has no connection state to lose.
    pub fn connected(&self) -> (r: bool)
        ensures
            r,
    {
        true
    }

    /// Forms the GET URL for one write: the first data byte is the speed.
    /// The caller performs the request against the configured host and
    /// swallows transport failures, as befits a best-effort fan-out.
    pub fn write_value(&self, host: &str, msg: &DeviceWriteCmd) -> (r: String)
        requires
            msg.data@.len() >= 1,
        ensures
            r@ == http_write_url(host@, msg.data@[0], self.spec_index()),
    {
        let mut url = String::new();
        url.append("http://");
        url.append(host);
        url.append("/?speed=");
        push_dec(&mut url, msg.data[0] as u64);
        url.append("&index=");
        push_dec(&mut url, self.index as u64);
        url
    }
}

} // verus!
