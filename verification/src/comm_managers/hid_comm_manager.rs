//! The HID communication manager's scanning plan. The manager walks the
//! HID device list the platform API hands it; devices without a serial
//! number cannot be addressed and are skipped, and a serial number seen
//! earlier in the same walk is not reported twice.

use vstd::prelude::*;
use super::DeviceCommunicationEvent;

verus! {

/// What the platform's HID enumeration reports about one device, as the
/// plain values this crate needs.
#[derive(Clone, PartialEq, Debug)]
pub struct HidDeviceInfo {
    pub vendor_id: u16,
    pub product_id: u16,
    pub serial_number: Option<String>,
    pub product_string: Option<String>,
}

/// Whether some entry of `events` is a `DeviceFound` under `address`.
pub open spec fn reports_address(events: Seq<DeviceCommunicationEvent>, address: Seq<char>) -> bool {
    exists|i: int|
        0 <= i < events.len() && ((#[trigger] events[i]) matches
            DeviceCommunicationEvent::DeviceFound { address: a, .. } && a@ == address)
}

/// Whether the event announces exactly this enumerated device: its
/// address is the device's serial number and its name the device's
/// product string.
pub open spec fn event_from_device(event: DeviceCommunicationEvent, device: HidDeviceInfo) -> bool {
    &&& device.serial_number matches Some(serial) && (event matches
        DeviceCommunicationEvent::DeviceFound { address, .. } && address@ == serial@)
    &&& device.product_string matches Some(product) && (event matches
        DeviceCommunicationEvent::DeviceFound { name, .. } && name@ == product@)
}

/// Whether every event announces some device of the enumeration.
pub open spec fn all_events_sourced(
    events: Seq<DeviceCommunicationEvent>,
    devices: Seq<HidDeviceInfo>,
    bound: int,
) -> bool {
    forall|i: int|
        0 <= i < events.len() ==> exists|q: int|
            0 <= q < bound && event_from_device(#[trigger] events[i], devices[q])
}

/// The HID discovery manager. Scanning is a single walk over the device
/// list; there is nothing to stop, so stopping reports no event.
pub struct HIDCommunicationManager {
}

impl HIDCommunicationManager {
    pub fn new() -> (r: Self) {
        HIDCommunicationManager {  }
    }

    pub fn name(&self) -> (r: &'static str)
        ensures
            r@ == "HIDCommunicationManager"@,
    {
        "HIDCommunicationManager"
    }

    /// Plans one scan over the enumerated devices: one `DeviceFound` per
    /// first occurrence of a serial number, named by that device's
    /// product string, and nothing else — every event announces an
    /// enumerated device.
    #[verifier::loop_isolation(false)]
    pub fn start_scanning(&self, devices: &Vec<HidDeviceInfo>) -> (r: Vec<
        DeviceCommunicationEvent,
    >)
        requires
            forall|i: int|
                0 <= i < devices@.len() ==> ((#[trigger] devices@[i]).serial_number is Some
                    ==> devices@[i].product_string is Some),
        ensures
            forall|i: int|
                0 <= i < r@.len() ==> (#[trigger] r@[i]) matches
                    DeviceCommunicationEvent::DeviceFound { .. },
            forall|i: int, j: int|
                0 <= i < j < r@.len() ==> !((#[trigger] r@[i]) matches
                    DeviceCommunicationEvent::DeviceFound { address: a1, .. } && (#[trigger] r@[j])
                    matches DeviceCommunicationEvent::DeviceFound { address: a2, .. } && a1@
                    == a2@),
            forall|k: int|
                0 <= k < devices@.len() && (#[trigger] devices@[k]).serial_number is Some
                    ==> reports_address(r@, devices@[k].serial_number->0@),
            all_events_sourced(r@, devices@, devices@.len() as int),
    {
        let mut seen_addresses: Vec<String> = Vec::new();
        let mut events: Vec<DeviceCommunicationEvent> = Vec::new();
        let mut k: usize = 0;
        while k < devices.len()
            invariant
                k <= devices@.len(),
                events@.len() == seen_addresses@.len(),
                forall|i: int|
                    0 <= i < events@.len() ==> ((#[trigger] events@[i]) matches
                        DeviceCommunicationEvent::DeviceFound { address: a, .. } && a@
                        == seen_addresses@[i]@),
                forall|i: int, j: int|
                    0 <= i < j < seen_addresses@.len() ==> (#[trigger] seen_addresses@[i])@ != (
                    #[trigger] seen_addresses@[j])@,
                forall|q: int|
                    0 <= q < k && (#[trigger] devices@[q]).serial_number is Some ==> exists|i: int|
                        0 <= i < seen_addresses@.len() && (#[trigger] seen_addresses@[i])@
                            == devices@[q].serial_number->0@,
                all_events_sourced(events@, devices@, k as int),
            decreases devices@.len() - k,
        {
            let ghost old_seen = seen_addresses@;
            let ghost old_events = events@;
            let device = &devices[k];
            match &device.serial_number {
                None => {},
                Some(serial) => {
                    let mut already: bool = false;
                    let mut i: usize = 0;
                    while i < seen_addresses.len()
                        invariant
                            i <= seen_addresses@.len(),
                            already == exists|j: int|
                                0 <= j < i && (#[trigger] seen_addresses@[j])@ == serial@,
                        decreases seen_addresses@.len() - i,
                    {
                        if seen_addresses[i].eq(serial) {
                            already = true;
                            proof {
                                assert(seen_addresses@[i as int]@ == serial@);
                            }
                        }
                        i = i + 1;
                    }
                    if !already {
                        let product = match &device.product_string {
                            Some(p) => p.clone(),
                            None => String::new(),
                        };
                        seen_addresses.push(serial.clone());
                        events.push(
                            DeviceCommunicationEvent::DeviceFound {
                                name: product,
                                address: serial.clone(),
                            },
                        );
                        proof {
                            assert(seen_addresses@[old_seen.len() as int]@ == serial@);
                            assert(event_from_device(
                                events@[old_events.len() as int],
                                devices@[k as int],
                            ));
                        }
                    }
                },
            }
            proof {
                assert forall|q: int|
                    0 <= q < k + 1 && (#[trigger] devices@[q]).serial_number is Some implies
                    exists|i: int|
                        0 <= i < seen_addresses@.len() && (#[trigger] seen_addresses@[i])@
                            == devices@[q].serial_number->0@ by {
                    if q < k {
                        let w = choose|w: int|
                            0 <= w < old_seen.len() && (#[trigger] old_seen[w])@
                                == devices@[q].serial_number->0@;
                        assert(seen_addresses@[w] == old_seen[w]);
                        assert(seen_addresses@[w]@ == devices@[q].serial_number->0@);
                    }
                }
                assert forall|i: int|
                    0 <= i < events@.len() implies exists|q: int|
                        0 <= q < k + 1 && event_from_device(
                            #[trigger] events@[i],
                            devices@[q],
                        ) by {
                    if i < old_events.len() {
                        let q = choose|q: int|
                            0 <= q < k && event_from_device(#[trigger] old_events[i], devices@[q]);
                        assert(events@[i] == old_events[i]);
                        assert(event_from_device(events@[i], devices@[q]));
                    } else {
                        assert(event_from_device(events@[i], devices@[k as int]));
                    }
                }
            }
            k = k + 1;
        }
        proof {
            assert forall|q: int|
                0 <= q < devices@.len() && (#[trigger] devices@[q]).serial_number is Some implies
                reports_address(events@, devices@[q].serial_number->0@) by {
                let i = choose|i: int|
                    0 <= i < seen_addresses@.len() && (#[trigger] seen_addresses@[i])@
                        == devices@[q].serial_number->0@;
                assert(events@[i] matches DeviceCommunicationEvent::DeviceFound { address: a, .. }
                    && a@ == devices@[q].serial_number->0@);
            }
        }
                events
    }

    /// Nothing scans continuously, so stopping is a no-op with a
    /// successful result and no event.
    pub fn stop_scanning(&self) -> (r: Option<DeviceCommunicationEvent>)
        ensures
            r is None,
    {
        None
    }
}

} // verus!
