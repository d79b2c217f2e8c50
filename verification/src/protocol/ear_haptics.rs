//! The stateless per-motor handler shape: every vibrate command goes
//! through the command filter, and each feature whose speed changed gets a
//! single-byte write on the `Tx` endpoint. Failures of individual writes
//! are the transport's to report; nothing here is rolled back.

use vstd::prelude::*;
use vstd::string::StringSliceAdditionalSpecFns;
use crate::command_manager::{
    filtered_changes, no_change, vibrate_request, zero_rotation_subcommands,
    zero_speed_subcommands, GenericCommandManager, RotationValue,
};
use crate::device::{DeviceWriteCmd, Endpoint};
use crate::messages::{
    ButtplugDeviceCommandMessageUnion, MessageAttributesMap, VibrateCmd, SPEED_SCALE,
};

verus! {

/// One wire byte for a speed scaled by 1000: the linear quantization onto
/// the full byte range, 0 at rest and 255 at full amplitude.
pub open spec fn speed_to_byte(speed: u16) -> u8
    recommends
        speed <= SPEED_SCALE,
{
    ((speed * 255) / 1000) as u8
}

/// The wire byte for one speed.
pub fn speed_byte(speed: u16) -> (r: u8)
    requires
        speed <= SPEED_SCALE,
    ensures
        r == speed_to_byte(speed),
{
    ((speed as u32 * 255) / 1000) as u8
}

/// The bytes an ear-haptics device is sent for a change set: one byte per
/// changed feature, in feature order.
pub open spec fn ear_bytes(changes: Seq<Option<u16>>) -> Seq<u8>
    decreases changes.len(),
{
    if changes.len() == 0 {
        Seq::empty()
    } else {
        ear_bytes(changes.drop_last()) + (match changes.last() {
            Some(v) => seq![speed_to_byte(v)],
            None => Seq::<u8>::empty(),
        })
    }
}

/// The transition `handle_vibrate_cmd` makes: the command runs through the
/// filter without forcing, the filter state advances to the issued values,
/// and the writes are exactly one `Tx` byte per changed feature.
pub open spec fn ear_vibrate_transition(
    pre: Seq<u16>,
    post: Seq<u16>,
    speeds: Seq<crate::messages::VibrateSubcommand>,
    writes: Seq<DeviceWriteCmd>,
) -> bool {
    let request = vibrate_request(speeds, pre.len());
    let changes = filtered_changes(pre, request, false);
    let bytes = ear_bytes(changes);
    &&& post == (if no_change(changes) {
        pre
    } else {
        crate::command_manager::apply_changes(pre, changes)
    })
    &&& writes.len() == bytes.len()
    &&& forall|j: int|
        0 <= j < writes.len() ==> (#[trigger] writes[j]).endpoint == Endpoint::Tx
            && !writes[j].write_with_response && writes[j].data@ =~= seq![bytes[j]]
}

/// Handler for the "ear haptics" device family: one byte per motor on
/// `Tx`, filtered through the generic command manager.
pub struct EarHaptics {
    name: String,
    message_attributes: MessageAttributesMap,
    manager: GenericCommandManager,
}

impl EarHaptics {
    pub closed spec fn spec_name(&self) -> Seq<char> {
        self.name@
    }

    pub closed spec fn vibration_state(&self) -> Seq<u16> {
        self.manager.vibration_state()
    }

    pub closed spec fn rotation_state(&self) -> Seq<RotationValue> {
        self.manager.rotation_state()
    }

    pub closed spec fn spec_attributes(&self) -> Map<
        crate::messages::ButtplugDeviceMessageType,
        crate::messages::MessageAttributes,
    > {
        self.message_attributes@
    }

    pub closed spec fn manager_wf(&self) -> bool {
        self.manager.wf()
    }

    /// Builds the handler with a freshly sized command filter, every
    /// feature starting at rest.
    pub fn new_protocol(name: &str, message_attributes: MessageAttributesMap) -> (r: Self)
        ensures
            r.spec_name() == name@,
            r.vibration_state() =~= Seq::new(
                crate::messages::spec_feature_count(
                    message_attributes@,
                    crate::messages::ButtplugDeviceMessageType::VibrateCmd,
                ) as nat,
                |i: int| 0u16,
            ),
            r.rotation_state() =~= Seq::new(
                crate::messages::spec_feature_count(
                    message_attributes@,
                    crate::messages::ButtplugDeviceMessageType::RotateCmd,
                ) as nat,
                |i: int| RotationValue { speed: 0u16, clockwise: true },
            ),
            r.spec_attributes() == message_attributes@,
            r.manager_wf(),
    {
        let manager = GenericCommandManager::new(&message_attributes);
        EarHaptics { name: name.to_owned(), message_attributes, manager }
    }

    /// The handler's one-shot handshake: it only picks the display name.
    /// A device whose advertised name carries the byte `1` becomes "Ear1",
    /// any other becomes "Ear2".
    pub fn initialize(device_name: &str) -> (r: Option<String>)
        ensures
            r matches Some(s) && s@ == (if device_name.spec_bytes().contains(49u8) {
                "Ear1"@
            } else {
                "Ear2"@
            }),
    {
        let bytes = device_name.as_bytes();
        let mut has_one = false;
        let mut i: usize = 0;
        while i < bytes.len()
            invariant
                i <= bytes@.len(),
                has_one == exists|j: int| 0 <= j < i && bytes@[j] == 49u8,
            decreases bytes@.len() - i,
        {
            if bytes[i] == 49u8 {
                has_one = true;
            }
            i = i + 1;
        }
        proof {
            assert(has_one == device_name.spec_bytes().contains(49u8));
        }
        if has_one {
            Some("Ear1".to_owned())
        } else {
            Some("Ear2".to_owned())
        }
    }

    /// Runs the command through the filter and forms one single-byte `Tx`
    /// write per feature whose speed changed.
    #[verifier::loop_isolation(false)]
    pub fn handle_vibrate_cmd(&mut self, msg: &VibrateCmd) -> (writes: Vec<DeviceWriteCmd>)
        requires
            forall|k: int|
                0 <= k < msg.speeds@.len() ==> (msg.speeds@[k].index < old(
                    self,
                ).vibration_state().len() && msg.speeds@[k].speed <= SPEED_SCALE),
        ensures
            ear_vibrate_transition(
                old(self).vibration_state(),
                final(self).vibration_state(),
                msg.speeds@,
                writes@,
            ),
            final(self).spec_name() == old(self).spec_name(),
            final(self).rotation_state() == old(self).rotation_state(),
            final(self).spec_attributes() == old(self).spec_attributes(),
            old(self).manager_wf() ==> final(self).manager_wf(),
    {
        let ghost pre = self.manager.vibration_state();
        let ghost request = vibrate_request(msg.speeds@, pre.len());
        let ghost changes = filtered_changes(pre, request, false);
        proof {
            lemma_vibrate_request_len(msg.speeds@, pre.len());
        }
        let result = self.manager.update_vibration(msg, false);
        let mut writes: Vec<DeviceWriteCmd> = Vec::new();
        match result {
            Some(commands) => {
                let mut i: usize = 0;
                while i < commands.len()
                    invariant
                        i <= commands@.len(),
                        commands@ == changes,
                        forall|k: int|
                            0 <= k < msg.speeds@.len() ==> msg.speeds@[k].speed <= SPEED_SCALE,
                        writes@.len() == ear_bytes(changes.take(i as int)).len(),
                        forall|j: int|
                            0 <= j < writes@.len() ==> (#[trigger] writes@[j]).endpoint
                                == Endpoint::Tx && !writes@[j].write_with_response
                                && writes@[j].data@ =~= seq![
                                ear_bytes(changes.take(i as int))[j],
                            ],
                    decreases commands@.len() - i,
                {
                    proof {
                        assert(changes.take(i as int + 1).drop_last() =~= changes.take(i as int));
                        lemma_changes_within_scale(pre, request, i as int);
                        lemma_request_within_scale(msg.speeds@, pre.len(), i as int);
                    }
                    match commands[i] {
                        Some(speed) => {
                            let mut data: Vec<u8> = Vec::new();
                            data.push(speed_byte(speed));
                            writes.push(DeviceWriteCmd::new(Endpoint::Tx, data, false));
                        },
                        None => {},
                    }
                    i = i + 1;
                }
                proof {
                    assert(changes.take(changes.len() as int) =~= changes);
                }
            },
            None => {
                proof {
                    assert(ear_bytes(changes) =~= Seq::<u8>::empty()) by {
                        lemma_no_change_no_bytes(changes);
                    }
                }
            },
        }
        writes
    }

    /// The attributes table the handler was created with.
    pub fn message_attributes(&self) -> (r: &MessageAttributesMap)
        ensures
            r@ == self.spec_attributes(),
    {
        &self.message_attributes
    }

    /// The canonical stop set of this handler's command filter: one
    /// zero-speed vibrate command when the device vibrates, one zero
    /// rotate command when it rotates.
    pub fn get_stop_commands(&self) -> (r: Vec<ButtplugDeviceCommandMessageUnion>)
        requires
            self.manager_wf(),
        ensures
            r@.len() == (if self.vibration_state().len() > 0 {
                1int
            } else {
                0int
            }) + (if self.rotation_state().len() > 0 {
                1int
            } else {
                0int
            }),
            self.vibration_state().len() > 0 ==> (r@[0] matches
                ButtplugDeviceCommandMessageUnion::VibrateCmd(m) && m.device_index == 0 && m.speeds@
                =~= zero_speed_subcommands(self.vibration_state().len())),
            self.rotation_state().len() > 0 ==> (r@[r@.len() - 1] matches
                ButtplugDeviceCommandMessageUnion::RotateCmd(m) && m.device_index == 0
                && m.rotations@ =~= zero_rotation_subcommands(self.rotation_state().len())),
    {
        self.manager.get_stop_commands()
    }
}

/// A changed value always comes from the request.
proof fn lemma_changes_within_scale(pre: Seq<u16>, request: Seq<Option<u16>>, i: int)
    requires
        0 <= i < pre.len(),
        request.len() == pre.len(),
    ensures
        filtered_changes(pre, request, false)[i] matches Some(v) ==> request[i] == Some(v),
{
}

/// Every speed a dense request carries came from some subcommand, so the
/// request stays within the speed scale whenever the subcommands do.
proof fn lemma_request_within_scale(subs: Seq<crate::messages::VibrateSubcommand>, n: nat, i: int)
    requires
        0 <= i < n,
        forall|k: int| 0 <= k < subs.len() ==> (#[trigger] subs[k]).speed <= SPEED_SCALE,
    ensures
        vibrate_request(subs, n)[i] matches Some(v) ==> v <= SPEED_SCALE,
    decreases subs.len(),
{
    if subs.len() > 0 {
        assert(subs.last() == subs[subs.len() - 1]);
        assert(subs[subs.len() - 1].speed <= SPEED_SCALE);
        assert(forall|k: int|
            0 <= k < subs.drop_last().len() ==> (#[trigger] subs.drop_last()[k]).speed
                <= SPEED_SCALE);
        lemma_vibrate_request_len(subs.drop_last(), n);
        lemma_request_within_scale(subs.drop_last(), n, i);
    }
}

/// A dense request always covers exactly the device's features.
proof fn lemma_vibrate_request_len(subs: Seq<crate::messages::VibrateSubcommand>, n: nat)
    ensures
        vibrate_request(subs, n).len() == n,
    decreases subs.len(),
{
    if subs.len() > 0 {
        lemma_vibrate_request_len(subs.drop_last(), n);
    }
}

/// An all-`None` change set produces no bytes.
proof fn lemma_no_change_no_bytes(changes: Seq<Option<u16>>)
    requires
        no_change(changes),
    ensures
        ear_bytes(changes).len() == 0,
    decreases changes.len(),
{
    if changes.len() > 0 {
        assert(changes.drop_last().len() < changes.len());
        assert(no_change(changes.drop_last()));
        lemma_no_change_no_bytes(changes.drop_last());
        assert(changes.last() is None);
    }
}

} // verus!
