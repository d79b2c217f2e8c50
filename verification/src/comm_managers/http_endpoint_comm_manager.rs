//! The HTTP fan-out communication manager: its "scan" is the one-time
//! announcement of the configured endpoint devices, numbered from 1.

use vstd::prelude::*;
use super::http_endpoint_device_impl::HTTPEndpointDeviceImplCreator;
use super::DeviceCommunicationEvent;

verus! {

/// Discovery for the HTTP endpoint list: the devices exist by
/// configuration, so the first scan announces them all and later scans
/// announce nothing new.
pub struct HTTPEndpointCommManager {
    has_emitted_device: bool,
    endpoint_count: u8,
}

impl HTTPEndpointCommManager {
    pub closed spec fn spec_has_emitted(&self) -> bool {
        self.has_emitted_device
    }

    pub closed spec fn spec_endpoint_count(&self) -> u8 {
        self.endpoint_count
    }

    /// A manager over `endpoint_count` configured endpoint devices.
    pub fn new(endpoint_count: u8) -> (r: Self)
        ensures
            !r.spec_has_emitted(),
            r.spec_endpoint_count() == endpoint_count,
    {
        HTTPEndpointCommManager { has_emitted_device: false, endpoint_count }
    }

    pub fn name(&self) -> (r: &'static str)
        ensures
            r@ == "HTTPEndpointCommunicationManager"@,
    {
        "HTTPEndpointCommunicationManager"
    }

    /// The first scan hands out one creator per configured endpoint,
    /// numbered from 1; any further scan hands out none.
    pub fn start_scanning(&mut self) -> (r: Vec<HTTPEndpointDeviceImplCreator>)
        ensures
            final(self).spec_has_emitted(),
            final(self).spec_endpoint_count() == old(self).spec_endpoint_count(),
            old(self).spec_has_emitted() ==> r@.len() == 0,
            !old(self).spec_has_emitted() ==> r@.len() == old(self).spec_endpoint_count() && (
            forall|j: int| 0 <= j < r@.len() ==> (#[trigger] r@[j]).spec_index() == j + 1),
    {
        let mut creators: Vec<HTTPEndpointDeviceImplCreator> = Vec::new();
        if !self.has_emitted_device {
            self.has_emitted_device = true;
            let mut i: u8 = 0;
            while i < self.endpoint_count
                invariant
                    i <= self.endpoint_count,
                    creators@.len() == i,
                    forall|j: int| 0 <= j < i ==> (#[trigger] creators@[j]).spec_index() == j + 1,
                decreases self.endpoint_count - i,
            {
                creators.push(HTTPEndpointDeviceImplCreator::new(i + 1));
                i = i + 1;
            }
        } else {
            self.has_emitted_device = true;
        }
        creators
    }

    /// Stopping only reports that scanning is over.
    pub fn stop_scanning(&self) -> (r: DeviceCommunicationEvent)
        ensures
            r == DeviceCommunicationEvent::ScanningFinished,
    {
        DeviceCommunicationEvent::ScanningFinished
    }
}

} // verus!
