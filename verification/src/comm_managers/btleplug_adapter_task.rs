//! The Bluetooth LE adapter task's decisions. The task's own loop selects
//! between adapter events and commands and performs the adapter calls; it
//! consults this state machine for what each input means. Names are the
//! only way to recognize devices at discovery time, so a peripheral that
//! advertises no name is ignored, and an address already reported since
//! the last scan start is not reported again.

use vstd::prelude::*;
use super::DeviceCommunicationEvent;

verus! {

/// What the surrounding loop can ask of the adapter task.
#[derive(Debug, Clone, Copy)]
pub enum BtleplugAdapterCommand {
    StartScanning,
    StopScanning,
}

/// The adapter call a command decision asks for.
#[derive(Clone, Copy, PartialEq, Eq, Structural, Debug)]
pub enum BtleplugAdapterAction {
    StartScan,
    StopScan,
}

/// Whether some tried address equals `address`.
pub open spec fn contains_address(tried: Seq<String>, address: Seq<char>) -> bool {
    exists|i: int| 0 <= i < tried.len() && (#[trigger] tried[i])@ == address
}

/// The discovery half of the BLE communication manager: remembers which
/// addresses were already reported since scanning last started.
pub struct BtleplugAdapterTask {
    tried_addresses: Vec<String>,
}

impl BtleplugAdapterTask {
    /// The addresses reported since the last scan start.
    pub closed spec fn tried(&self) -> Seq<String> {
        self.tried_addresses@
    }

    pub fn new() -> (r: Self)
        ensures
            r.tried() =~= Seq::<String>::empty(),
    {
        BtleplugAdapterTask { tried_addresses: Vec::new() }
    }

    /// Decides what a discovered peripheral means: nothing if it has no
    /// usable name or was already reported, else a `DeviceFound` event,
    /// with the address remembered so a re-advertisement stays silent.
    #[verifier::loop_isolation(false)]
    pub fn on_device_discovered(&mut self, name: &String, address: &String) -> (r: Option<
        DeviceCommunicationEvent,
    >)
        ensures
            name@.len() == 0 || contains_address(old(self).tried(), address@) ==> r is None
                && final(self).tried() =~= old(self).tried(),

            name@.len() > 0 && !contains_address(old(self).tried(), address@) ==> (r == Some(
                DeviceCommunicationEvent::DeviceFound { name: *name, address: *address },
            ) && final(self).tried() =~= old(self).tried().push(*address)),
    {
        if name.as_str().is_empty() {
            return None;
        }
        let mut i: usize = 0;
        while i < self.tried_addresses.len()
            invariant
                i <= self.tried_addresses@.len(),
                forall|j: int| 0 <= j < i ==> (#[trigger] self.tried()[j])@ != address@,
                *self == *old(self),
            decreases self.tried_addresses@.len() - i,
        {
            if self.tried_addresses[i].eq(address) {
                proof {
                    assert(self.tried()[i as int]@ == address@);
                }
                return None;
            }
            i = i + 1;
        }
        self.tried_addresses.push(address.clone());
        proof {
            assert(self.tried() =~= old(self).tried().push(*address));
        }
        Some(
            DeviceCommunicationEvent::DeviceFound { name: name.clone(), address: address.clone() },
        )
    }

    /// Decides what a command means: a scan start forgets every tried
    /// address before the adapter scans again; a stop only stops.
    pub fn handle_command(&mut self, command: BtleplugAdapterCommand) -> (r: BtleplugAdapterAction)
        ensures
            command is StartScanning ==> r == BtleplugAdapterAction::StartScan
                && final(self).tried() =~= Seq::<String>::empty(),
            command is StopScanning ==> r == BtleplugAdapterAction::StopScan && final(self).tried()
                =~= old(self).tried(),
    {
        match command {
            BtleplugAdapterCommand::StartScanning => {
                self.tried_addresses = Vec::new();
                BtleplugAdapterAction::StartScan
            },
            BtleplugAdapterCommand::StopScanning => BtleplugAdapterAction::StopScan,
        }
    }
}

} // verus!
