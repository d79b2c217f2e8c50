//! The registry mapping a device index to its handle, attributes and
//! protocol handler, and the routing of client commands to it. Indices are
//! assigned monotonically and never reused within a server lifetime.

use vstd::prelude::*;
use crate::device::DeviceHandle;
use crate::errors::ButtplugError;
use crate::messages::{
    ButtplugDeviceMessageType, ButtplugServerMessage, DeviceMessageInfo, Error,
    MessageAttributesMap, OkMsg, StopDeviceCmd, VibrateCmd, VibrateSubcommand,
    spec_feature_count, SPEED_SCALE,
};
use crate::protocol::{HandlerAction, ProtocolHandler};
use crate::util::push_dec;
use vstd::string::StringExecFns;

verus! {

/// One registry row: the device's identity, its declared capabilities and
/// the protocol translator driving it.
pub struct DeviceRecord {
    pub index: u32,
    pub handle: DeviceHandle,
    pub attributes: MessageAttributesMap,
    pub handler: ProtocolHandler,
}

/// Whether some row of the registry carries the index.
pub open spec fn contains_index(s: Seq<DeviceRecord>, index: u32) -> bool {
    exists|i: int| 0 <= i < s.len() && (#[trigger] s[i]).index == index
}

/// Whether a vibrate command fits a device declaring `fc` vibration
/// features: every named feature exists and every speed is within scale.
pub open spec fn device_vibrate_valid(speeds: Seq<VibrateSubcommand>, fc: u32) -> bool {
    forall|k: int|
        0 <= k < speeds.len() ==> (#[trigger] speeds[k]).index < fc && speeds[k].speed
            <= SPEED_SCALE
}

/// The registry. It owns every connected device exclusively until the
/// device disconnects; the single-writer server loop is its only caller.
pub struct DeviceManager {
    devices: Vec<DeviceRecord>,
    next_index: u32,
}

impl DeviceManager {
    pub closed spec fn registry(&self) -> Seq<DeviceRecord> {
        self.devices@
    }

    pub closed spec fn spec_next_index(&self) -> u32 {
        self.next_index
    }

    /// Registry sanity: indices are unique, all below the allocation
    /// counter, and every row's handler is sized to its declared vibrate
    /// feature count.
    pub open spec fn wf(&self) -> bool {
        &&& forall|i: int, j: int|
            0 <= i < j < self.registry().len() ==> (#[trigger] self.registry()[i]).index != (
            #[trigger] self.registry()[j]).index
        &&& forall|i: int|
            0 <= i < self.registry().len() ==> (#[trigger] self.registry()[i]).index
                < self.spec_next_index()
        &&& forall|i: int|
            0 <= i < self.registry().len() ==> (#[trigger] self.registry()[i]).handler.manager_wf()
                && self.registry()[i].handler.vibration_state().len() == spec_feature_count(
                self.registry()[i].attributes@,
                ButtplugDeviceMessageType::VibrateCmd,
            )
    }

    pub fn new() -> (r: Self)
        ensures
            r.registry() =~= Seq::<DeviceRecord>::empty(),
            r.spec_next_index() == 0,
            r.wf(),
    {
        DeviceManager { devices: Vec::new(), next_index: 0 }
    }

    /// Whether a row under `index` is registered.
    pub fn contains_device(&self, index: u32) -> (r: bool)
        ensures
            r == contains_index(self.registry(), index),
    {
        let mut i: usize = 0;
        while i < self.devices.len()
            invariant
                i <= self.devices@.len(),
                forall|j: int| 0 <= j < i ==> (#[trigger] self.devices@[j]).index != index,
            decreases self.devices@.len() - i,
        {
            if self.devices[i].index == index {
                return true;
            }
            i = i + 1;
        }
        false
    }

    /// Registers a discovered device under a fresh index and forms the
    /// `DeviceAdded` notification (id 0) to broadcast.
    pub fn add_device(
        &mut self,
        handle: DeviceHandle,
        attributes: MessageAttributesMap,
        handler: ProtocolHandler,
    ) -> (r: (u32, ButtplugServerMessage))
        requires
            old(self).wf(),
            old(self).spec_next_index() < u32::MAX,
            handler.manager_wf(),
            handler.vibration_state().len() == spec_feature_count(
                attributes@,
                ButtplugDeviceMessageType::VibrateCmd,
            ),
        ensures
            final(self).wf(),
            r.0 == old(self).spec_next_index(),
            final(self).spec_next_index() == old(self).spec_next_index() + 1,
            final(self).registry().len() == old(self).registry().len() + 1,
            final(self).registry().drop_last() =~= old(self).registry(),
            final(self).registry().last().index == r.0,
            final(self).registry().last().handle == handle,
            final(self).registry().last().attributes@ == attributes@,
            final(self).registry().last().handler == handler,
            r.1 matches ButtplugServerMessage::DeviceAdded { id, device } && id == 0
                && device.device_index == r.0 && device.device_name@ == handle.name@
                && device.device_messages@ == attributes@,
    {
        let index = self.next_index;
        let info = DeviceMessageInfo {
            device_name: handle.name.clone(),
            device_index: index,
            device_messages: attributes.duplicate(),
        };
        let record = DeviceRecord { index, handle, attributes, handler };
        self.devices.push(record);
        self.next_index = index + 1;
        let message = ButtplugServerMessage::device_added(info);
        proof {
            assert(self.devices@.drop_last() =~= old(self).devices@);
        }
        (index, message)
    }

    /// Drops the row for a disconnected device and forms the
    /// `DeviceRemoved` notification (id 0). The index is never handed out
    /// again: the allocation counter does not move backwards.
    #[verifier::loop_isolation(false)]
    pub fn remove_device(&mut self, index: u32) -> (r: Option<ButtplugServerMessage>)
        requires
            old(self).wf(),
        ensures
            final(self).wf(),
            final(self).spec_next_index() == old(self).spec_next_index(),
            !contains_index(old(self).registry(), index) ==> r is None && final(self).registry()
                =~= old(self).registry(),
            contains_index(old(self).registry(), index) ==> (r == Some(
                ButtplugServerMessage::DeviceRemoved { id: 0u32, device_index: index },
            ) && !contains_index(final(self).registry(), index) && final(self).registry().len()
                == old(self).registry().len() - 1),
    {
        let ghost pre = self.devices@;
        let mut i: usize = 0;
        while i < self.devices.len()
            invariant
                i <= self.devices@.len(),
                forall|j: int| 0 <= j < i ==> (#[trigger] self.devices@[j]).index != index,
                *self == *old(self),
            decreases self.devices@.len() - i,
        {
            if self.devices[i].index == index {
                self.devices.remove(i);
                proof {
                    assert forall|a: int|
                        0 <= a < self.devices@.len() implies #[trigger] self.devices@[a] == (if a
                            < i as int {
                            pre[a]
                        } else {
                            pre[a + 1]
                        }) by {}
                    assert forall|j: int|
                        0 <= j < self.devices@.len() implies (#[trigger] self.devices@[j]).index
                        != index by {
                        if j < i as int {
                        } else {
                            assert(self.devices@[j] == pre[j + 1]);
                            assert(pre[i as int].index == index);
                        }
                    }
                    assert forall|a: int, b: int|
                        0 <= a < b < self.devices@.len() implies (
                        #[trigger] self.devices@[a]).index != (
                        #[trigger] self.devices@[b]).index by {
                        let a0 = if a < i as int { a } else { a + 1 };
                        let b0 = if b < i as int { b } else { b + 1 };
                        assert(self.devices@[a] == pre[a0]);
                        assert(self.devices@[b] == pre[b0]);
                        assert(pre[a0].index != pre[b0].index);
                    }
                }
                return Some(ButtplugServerMessage::device_removed(index));
            }
            i = i + 1;
        }
        None
    }

    /// The `DeviceList` reply: one row per connected device, under the
    /// request's id.
    pub fn device_list(&self, id: u32) -> (r: ButtplugServerMessage)
        ensures
            r matches ButtplugServerMessage::DeviceList { id: reply_id, devices } && reply_id == id
                && devices@.len() == self.registry().len() && (forall|i: int|
                0 <= i < devices@.len() ==> (#[trigger] devices@[i]).device_index
                    == self.registry()[i].index && devices@[i].device_name@
                    == self.registry()[i].handle.name@ && devices@[i].device_messages@
                    == self.registry()[i].attributes@),
    {
        let mut rows: Vec<DeviceMessageInfo> = Vec::new();
        let mut i: usize = 0;
        while i < self.devices.len()
            invariant
                i <= self.devices@.len(),
                rows@.len() == i,
                forall|j: int|
                    0 <= j < i ==> (#[trigger] rows@[j]).device_index == self.devices@[j].index
                        && rows@[j].device_name@ == self.devices@[j].handle.name@
                        && rows@[j].device_messages@ == self.devices@[j].attributes@,
            decreases self.devices@.len() - i,
        {
            let row = DeviceMessageInfo {
                device_name: self.devices[i].handle.name.clone(),
                device_index: self.devices[i].index,
                device_messages: self.devices[i].attributes.duplicate(),
            };
            rows.push(row);
            i = i + 1;
        }
        ButtplugServerMessage::DeviceList { id, devices: rows }
    }

    /// Routes one vibrate command. An index absent from the registry is
    /// answered `DeviceNotFound` and mutates nothing; a command whose
    /// shape does not fit the device's declared features is answered
    /// `InvalidCommand` and causes no transport write; a fitting command
    /// goes to the protocol handler and is answered Ok under its own id.
    /// A command listing no targets asks nothing of the device and is
    /// answered Ok without reaching the handler.
    #[verifier::loop_isolation(false)]
    pub fn handle_vibrate_cmd(&mut self, msg: &VibrateCmd) -> (r: (
        ButtplugServerMessage,
        HandlerAction,
    ))
        requires
            old(self).wf(),
        ensures
            final(self).wf(),
            final(self).spec_next_index() == old(self).spec_next_index(),
            r.0.spec_id() == msg.id,
            !contains_index(old(self).registry(), msg.device_index) ==> (final(self).registry()
                =~= old(self).registry() && (r.0 matches ButtplugServerMessage::Error(e)
                && e.error_code == 4) && (r.1 matches HandlerAction::Writes(w) && w@.len() == 0)),
            ({
                let p = position_of(old(self).registry(), msg.device_index);
                let fc = spec_feature_count(
                    old(self).registry()[p].attributes@,
                    ButtplugDeviceMessageType::VibrateCmd,
                );
                contains_index(old(self).registry(), msg.device_index) && !device_vibrate_valid(
                    msg.speeds@,
                    fc,
                ) ==> (final(self).registry() =~= old(self).registry() && (r.0 matches
                ButtplugServerMessage::Error(e) && e.error_code == 4) && (r.1 matches
                HandlerAction::Writes(w) && w@.len() == 0))
            }),
            ({
                let p = position_of(old(self).registry(), msg.device_index);
                let fc = spec_feature_count(
                    old(self).registry()[p].attributes@,
                    ButtplugDeviceMessageType::VibrateCmd,
                );
                contains_index(old(self).registry(), msg.device_index) && (forall|k: int|
                    0 <= k < msg.speeds@.len() ==> (#[trigger] msg.speeds@[k]).speed
                        <= SPEED_SCALE) && (exists|k: int|
                    0 <= k < msg.speeds@.len() && (#[trigger] msg.speeds@[k]).index >= fc) ==> (r.0
                    matches ButtplugServerMessage::Error(e) && exists|k: int|
                    0 <= k < msg.speeds@.len() && (#[trigger] msg.speeds@[k]).index >= fc
                        && e.error_message@ == crate::errors::max_index_account(
                        "Max vibrator index is "@,
                        fc,
                        msg.speeds@[k].index,
                    ))
            }),
            ({
                let p = position_of(old(self).registry(), msg.device_index);
                let fc = spec_feature_count(
                    old(self).registry()[p].attributes@,
                    ButtplugDeviceMessageType::VibrateCmd,
                );
                contains_index(old(self).registry(), msg.device_index) && (forall|k: int|
                    0 <= k < msg.speeds@.len() ==> (#[trigger] msg.speeds@[k]).index < fc) && (
                exists|k: int|
                    0 <= k < msg.speeds@.len() && (#[trigger] msg.speeds@[k]).speed > SPEED_SCALE)
                    ==> (r.0 matches ButtplugServerMessage::Error(e) && e.error_message@
                    == "Speed must lie between 0 and 1000."@)
            }),
            ({
                let p = position_of(old(self).registry(), msg.device_index);
                let fc = spec_feature_count(
                    old(self).registry()[p].attributes@,
                    ButtplugDeviceMessageType::VibrateCmd,
                );
                contains_index(old(self).registry(), msg.device_index) && device_vibrate_valid(
                    msg.speeds@,
                    fc,
                ) && msg.speeds@.len() == 0 ==> (final(self).registry() =~= old(self).registry()
                    && r.0 == ButtplugServerMessage::OkMsg(OkMsg { id: msg.id }) && (r.1 matches
                HandlerAction::Writes(w) && w@.len() == 0))
            }),
            ({
                let p = position_of(old(self).registry(), msg.device_index);
                let fc = spec_feature_count(
                    old(self).registry()[p].attributes@,
                    ButtplugDeviceMessageType::VibrateCmd,
                );
                contains_index(old(self).registry(), msg.device_index) && device_vibrate_valid(
                    msg.speeds@,
                    fc,
                ) && msg.speeds@.len() > 0 ==> ({
                    &&& r.0 == ButtplugServerMessage::OkMsg(OkMsg { id: msg.id })
                    &&& final(self).registry().len() == old(self).registry().len()
                    &&& forall|j: int|
                        0 <= j < final(self).registry().len() && j != p
                            ==> final(self).registry()[j] == old(self).registry()[j]
                    &&& final(self).registry()[p].index == old(self).registry()[p].index
                    &&& final(self).registry()[p].handle == old(self).registry()[p].handle
                    &&& final(self).registry()[p].attributes@ == old(self).registry()[p].attributes@
                    &&& crate::protocol::vibrate_dispatch_post(
                        old(self).registry()[p].handler,
                        final(self).registry()[p].handler,
                        msg.speeds@,
                        r.1,
                    )
                })
            }),
    {
        let ghost pre = self.devices@;
        let mut i: usize = 0;
        while i < self.devices.len()
            invariant
                i <= self.devices@.len(),
                forall|j: int|
                    0 <= j < i ==> (#[trigger] self.devices@[j]).index != msg.device_index,
                *self == *old(self),
            decreases self.devices@.len() - i,
        {
            if self.devices[i].index == msg.device_index {
                proof {
                    lemma_position_of_found(pre, msg.device_index, i as int);
                }
                let fc = self.devices[i].attributes.feature_count_of(
                    ButtplugDeviceMessageType::VibrateCmd,
                );
                let mut k: usize = 0;
                while k < msg.speeds.len()
                    invariant
                        k <= msg.speeds@.len(),
                        forall|j: int|
                            0 <= j < k ==> (#[trigger] msg.speeds@[j]).index < fc
                                && msg.speeds@[j].speed <= SPEED_SCALE,
                    decreases msg.speeds@.len() - k,
                {
                    let sub = msg.speeds[k];
                    if sub.index >= fc {
                        return (
                            invalid_command_reply(msg.id, "Max vibrator index is ", fc, sub.index),
                            HandlerAction::Writes(Vec::new()),
                        );
                    }
                    if sub.speed > SPEED_SCALE {
                        return (speed_range_reply(msg.id), HandlerAction::Writes(Vec::new()));
                    }
                    k = k + 1;
                }
                if msg.speeds.len() == 0 {
                    return (
                        ButtplugServerMessage::OkMsg(OkMsg::new(msg.id)),
                        HandlerAction::Writes(Vec::new()),
                    );
                }
                let mut record = self.devices.remove(i);
                let action = record.handler.handle_vibrate_cmd(msg);
                self.devices.insert(i, record);
                proof {
                    assert forall|j: int|
                        0 <= j < self.devices@.len() && j != i as int implies self.devices@[j]
                        == pre[j] by {
                        if j < i as int {
                            assert(self.devices@[j] == pre.remove(i as int)[j]);
                        } else {
                            assert(self.devices@[j] == pre.remove(i as int)[j - 1]);
                        }
                    }
                }
                return (ButtplugServerMessage::OkMsg(OkMsg::new(msg.id)), action);
            }
            i = i + 1;
        }
        (device_not_found_reply(msg.id, msg.device_index), HandlerAction::Writes(Vec::new()))
    }

    /// Routes a stop command: the device's vibration features are driven
    /// back to rest through the same filter path an ordinary command
    /// takes, so the recorded state stays the issued state.
    #[verifier::loop_isolation(false)]
    pub fn handle_stop_device_cmd(&mut self, msg: &StopDeviceCmd) -> (r: (
        ButtplugServerMessage,
        HandlerAction,
    ))
        requires
            old(self).wf(),
        ensures
            final(self).wf(),
            final(self).spec_next_index() == old(self).spec_next_index(),
            r.0.spec_id() == msg.id,
            !contains_index(old(self).registry(), msg.device_index) ==> (final(self).registry()
                =~= old(self).registry() && (r.0 matches ButtplugServerMessage::Error(e)
                && e.error_code == 4) && (r.1 matches HandlerAction::Writes(w) && w@.len() == 0)),
            ({
                let p = position_of(old(self).registry(), msg.device_index);
                let fc = spec_feature_count(
                    old(self).registry()[p].attributes@,
                    ButtplugDeviceMessageType::VibrateCmd,
                );
                contains_index(old(self).registry(), msg.device_index) && fc == 0 ==> ({
                    &&& final(self).registry() =~= old(self).registry()
                    &&& r.0 == ButtplugServerMessage::OkMsg(OkMsg { id: msg.id })
                    &&& r.1 matches HandlerAction::Writes(w) && w@.len() == 0
                })
            }),
            ({
                let p = position_of(old(self).registry(), msg.device_index);
                let fc = spec_feature_count(
                    old(self).registry()[p].attributes@,
                    ButtplugDeviceMessageType::VibrateCmd,
                );
                contains_index(old(self).registry(), msg.device_index) && fc > 0 ==> ({
                    &&& r.0 == ButtplugServerMessage::OkMsg(OkMsg { id: msg.id })
                    &&& final(self).registry().len() == old(self).registry().len()
                    &&& forall|j: int|
                        0 <= j < final(self).registry().len() && j != p
                            ==> final(self).registry()[j] == old(self).registry()[j]
                    &&& final(self).registry()[p].index == old(self).registry()[p].index
                    &&& final(self).registry()[p].handle == old(self).registry()[p].handle
                    &&& final(self).registry()[p].attributes@ == old(self).registry()[p].attributes@
                    &&& crate::protocol::vibrate_dispatch_post(
                        old(self).registry()[p].handler,
                        final(self).registry()[p].handler,
                        crate::command_manager::zero_speed_subcommands(fc as nat),
                        r.1,
                    )
                })
            }),
    {
        let ghost pre = self.devices@;
        let mut i: usize = 0;
        while i < self.devices.len()
            invariant
                i <= self.devices@.len(),
                forall|j: int|
                    0 <= j < i ==> (#[trigger] self.devices@[j]).index != msg.device_index,
                *self == *old(self),
            decreases self.devices@.len() - i,
        {
            if self.devices[i].index == msg.device_index {
                proof {
                    lemma_position_of_found(pre, msg.device_index, i as int);
                }
                let fc = self.devices[i].attributes.feature_count_of(
                    ButtplugDeviceMessageType::VibrateCmd,
                );
                if fc == 0 {
                    return (
                        ButtplugServerMessage::OkMsg(OkMsg::new(msg.id)),
                        HandlerAction::Writes(Vec::new()),
                    );
                }
                let speeds = zero_speeds(fc);
                let stop_msg = VibrateCmd::new(msg.device_index, speeds);
                let mut record = self.devices.remove(i);
                let action = record.handler.handle_vibrate_cmd(&stop_msg);
                self.devices.insert(i, record);
                proof {
                    assert forall|j: int|
                        0 <= j < self.devices@.len() && j != i as int implies self.devices@[j]
                        == pre[j] by {
                        if j < i as int {
                            assert(self.devices@[j] == pre.remove(i as int)[j]);
                        } else {
                            assert(self.devices@[j] == pre.remove(i as int)[j - 1]);
                        }
                    }
                }
                return (ButtplugServerMessage::OkMsg(OkMsg::new(msg.id)), action);
            }
            i = i + 1;
        }
        (device_not_found_reply(msg.id, msg.device_index), HandlerAction::Writes(Vec::new()))
    }

    /// Drives every registered device back to rest, returning each
    /// device's index with the stop action its handler produced. Run when
    /// the client goes away, so no device is left moving.
    #[verifier::loop_isolation(false)]
    pub fn stop_all_devices(&mut self) -> (r: Vec<(u32, HandlerAction)>)
        requires
            old(self).wf(),
        ensures
            final(self).wf(),
            final(self).spec_next_index() == old(self).spec_next_index(),
            final(self).registry().len() == old(self).registry().len(),
            r@.len() == old(self).registry().len(),
            forall|j: int|
                0 <= j < r@.len() ==> ({
                    let fc = spec_feature_count(
                        old(self).registry()[j].attributes@,
                        ButtplugDeviceMessageType::VibrateCmd,
                    );
                    &&& (#[trigger] r@[j]).0 == old(self).registry()[j].index
                    &&& final(self).registry()[j].index == old(self).registry()[j].index
                    &&& final(self).registry()[j].handle == old(self).registry()[j].handle
                    &&& final(self).registry()[j].attributes@ == old(self).registry()[j].attributes@
                    &&& fc > 0 ==> crate::protocol::vibrate_dispatch_post(
                        old(self).registry()[j].handler,
                        final(self).registry()[j].handler,
                        crate::command_manager::zero_speed_subcommands(fc as nat),
                        r@[j].1,
                    )
                    &&& fc == 0 ==> final(self).registry()[j] == old(self).registry()[j] && (
                    r@[j].1 matches HandlerAction::Writes(w) && w@.len() == 0)
                }),
    {
        let ghost pre = self.devices@;
        let mut actions: Vec<(u32, HandlerAction)> = Vec::new();
        let mut i: usize = 0;
        while i < self.devices.len()
            invariant
                i <= self.devices@.len(),
                self.devices@.len() == pre.len(),
                self.next_index == old(self).next_index,
                actions@.len() == i,
                forall|j: int| i <= j < pre.len() ==> self.devices@[j] == pre[j],
                forall|j: int|
                    0 <= j < i ==> ({
                        let fc = spec_feature_count(
                            pre[j].attributes@,
                            ButtplugDeviceMessageType::VibrateCmd,
                        );
                        &&& (#[trigger] actions@[j]).0 == pre[j].index
                        &&& self.devices@[j].index == pre[j].index
                        &&& self.devices@[j].handle == pre[j].handle
                        &&& self.devices@[j].attributes@ == pre[j].attributes@
                        &&& self.devices@[j].handler.manager_wf()
                        &&& self.devices@[j].handler.vibration_state().len() == fc
                        &&& fc > 0 ==> crate::protocol::vibrate_dispatch_post(
                            pre[j].handler,
                            self.devices@[j].handler,
                            crate::command_manager::zero_speed_subcommands(fc as nat),
                            actions@[j].1,
                        )
                        &&& fc == 0 ==> self.devices@[j] == pre[j] && (actions@[j].1 matches
                        HandlerAction::Writes(w) && w@.len() == 0)
                    }),
            decreases self.devices@.len() - i,
        {
            let ghost loop_pre = self.devices@;
            let index = self.devices[i].index;
            let fc = self.devices[i].attributes.feature_count_of(
                ButtplugDeviceMessageType::VibrateCmd,
            );
            if fc == 0 {
                actions.push((index, HandlerAction::Writes(Vec::new())));
            } else {
                let speeds = zero_speeds(fc);
                let stop_msg = VibrateCmd::new(index, speeds);
                let mut record = self.devices.remove(i);
                proof {
                    assert(record == pre[i as int]);
                    assert(old(self).registry()[i as int] == pre[i as int]);
                    assert(record.handler.manager_wf());
                    assert(record.handler.vibration_state().len() == fc);
                }
                let action = record.handler.handle_vibrate_cmd(&stop_msg);
                self.devices.insert(i, record);
                proof {
                    assert forall|j: int|
                        0 <= j < self.devices@.len() && j != i as int implies self.devices@[j]
                        == loop_pre[j] by {
                        if j < i as int {
                            assert(self.devices@[j] == loop_pre.remove(i as int)[j]);
                        } else {
                            assert(self.devices@[j] == loop_pre.remove(i as int)[j - 1]);
                        }
                    }
                    let pre_handler = pre[i as int].handler;
                    let post_handler = self.devices@[i as int].handler;
                    assert(post_handler.vibration_state().len() == pre_handler.vibration_state().len()
                        && (pre_handler.manager_wf() ==> post_handler.manager_wf())) by {
                        match pre_handler {
                            ProtocolHandler::EarHaptics(h) => {},
                            ProtocolHandler::SwitchJoycon(h) => {},
                        }
                    }
                }
                actions.push((index, action));
            }
            i = i + 1;
        }
        proof {
            assert forall|a: int|
                0 <= a < self.devices@.len() implies (#[trigger] self.devices@[a]).index
                == pre[a].index && self.devices@[a].handler.manager_wf()
                && self.devices@[a].handler.vibration_state().len() == spec_feature_count(
                self.devices@[a].attributes@,
                ButtplugDeviceMessageType::VibrateCmd,
            ) by {
                assert(actions@[a].0 == pre[a].index);
            }
        }
        actions
    }
}

/// A full vector of rest-speed subcommands for `fc` features.
fn zero_speeds(fc: u32) -> (r: Vec<VibrateSubcommand>)
    ensures
        r@ =~= crate::command_manager::zero_speed_subcommands(fc as nat),
{
    let mut speeds: Vec<VibrateSubcommand> = Vec::new();
    let mut i: u32 = 0;
    while i < fc
        invariant
            i <= fc,
            speeds@.len() == i,
            forall|j: int|
                0 <= j < i ==> speeds@[j] == (VibrateSubcommand { index: j as u32, speed: 0u16 }),
        decreases fc - i,
    {
        speeds.push(VibrateSubcommand::new(i, 0));
        i = i + 1;
    }
    speeds
}

/// The position of the row carrying `index`, searching from the front.
pub open spec fn position_of(s: Seq<DeviceRecord>, index: u32) -> int
    decreases s.len(),
{
    if s.len() == 0 {
        -1
    } else if s[0].index == index {
        0
    } else {
        let p = position_of(s.drop_first(), index);
        if p == -1 {
            -1
        } else {
            p + 1
        }
    }
}

/// Links a forward scan's witness to `position_of`: if nothing before `i`
/// carries the index and row `i` does, the position is `i`.
pub proof fn lemma_position_of_found(s: Seq<DeviceRecord>, index: u32, i: int)
    requires
        0 <= i < s.len(),
        s[i].index == index,
        forall|j: int| 0 <= j < i ==> (#[trigger] s[j]).index != index,
    ensures
        position_of(s, index) == i,
    decreases s.len(),
{
    if i > 0 {
        assert(s[0].index != index);
        assert(s.drop_first()[i - 1] == s[i]);
        assert(forall|j: int|
            0 <= j < i - 1 ==> (#[trigger] s.drop_first()[j]) == s[j + 1]);
        lemma_position_of_found(s.drop_first(), index, i - 1);
    }
}

/// The `DeviceNotFound` error reply for a request under `id`.
fn device_not_found_reply(id: u32, index: u32) -> (r: ButtplugServerMessage)
    ensures
        r matches ButtplugServerMessage::Error(e) && e.id == id && e.error_code == 4
            && e.error_message@ == crate::errors::device_missing_account(index),
{
    let mut account = String::new();
    account.append("Device ");
    push_dec(&mut account, index as u64);
    account.append(" not available.");
    proof {
        assert(account@ =~= crate::errors::device_missing_account(index));
    }
    let error = ButtplugError::ButtplugDeviceError(
        crate::errors::ButtplugDeviceError::DeviceNotFound(index),
    );
    ButtplugServerMessage::Error(Error::from_error(id, &error, account))
}

/// The `InvalidCommand` error reply naming a missing feature index.
fn invalid_command_reply(id: u32, prefix: &str, fc: u32, index: u32) -> (r: ButtplugServerMessage)
    ensures
        r matches ButtplugServerMessage::Error(e) && e.id == id && e.error_code == 4
            && e.error_message@ == crate::errors::max_index_account(prefix@, fc, index),
{
    let mut account = String::new();
    account.append(prefix);
    push_dec(&mut account, fc as u64);
    account.append(", command referenced ");
    push_dec(&mut account, index as u64);
    account.append(".");
    proof {
        assert(account@ =~= crate::errors::max_index_account(prefix@, fc, index));
    }
    let error = ButtplugError::ButtplugDeviceError(
        crate::errors::ButtplugDeviceError::InvalidCommand(account.clone()),
    );
    ButtplugServerMessage::Error(Error::from_error(id, &error, account))
}

/// The `InvalidCommand` error reply for a speed outside the scale.
fn speed_range_reply(id: u32) -> (r: ButtplugServerMessage)
    ensures
        r matches ButtplugServerMessage::Error(e) && e.id == id && e.error_code == 4
            && e.error_message@ == "Speed must lie between 0 and 1000."@,
{
    let account = "Speed must lie between 0 and 1000.".to_owned();
    let error = ButtplugError::ButtplugDeviceError(
        crate::errors::ButtplugDeviceError::InvalidCommand(account.clone()),
    );
    ButtplugServerMessage::Error(Error::from_error(id, &error, account))
}

} // verus!
