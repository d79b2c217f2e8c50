//! The per-device command filter. It remembers the value last issued to
//! every actuator and collapses writes that would repeat it, so a stream of
//! identical commands reaches the transport only once.

use vstd::prelude::*;
use crate::messages::{
    ButtplugDeviceCommandMessageUnion, ButtplugDeviceMessageType, MessageAttributesMap, RotateCmd,
    RotationSubcommand, VibrateCmd, VibrateSubcommand, LinearCmd, VectorSubcommand,
};

verus! {

/// The rotation state of one actuator: speed (scaled by 1000) and direction.
#[derive(Clone, Copy, PartialEq, Eq, Structural, Debug)]
pub struct RotationValue {
    pub speed: u16,
    pub clockwise: bool,
}

/// The linear state of one actuator: last commanded move duration and
/// position (scaled by 1000).
#[derive(Clone, Copy, PartialEq, Eq, Structural, Debug)]
pub struct LinearValue {
    pub duration_ms: u32,
    pub position: u16,
}

/// The dense per-feature request a vibrate command makes: feature `i` is
/// `Some(speed)` if some subcommand addresses it (the last one wins), and
/// `None`, meaning "leave unchanged", otherwise.
pub open spec fn vibrate_request(subs: Seq<VibrateSubcommand>, n: nat) -> Seq<Option<u16>>
    decreases subs.len(),
{
    if subs.len() == 0 {
        Seq::new(n, |i: int| None)
    } else {
        let prev = vibrate_request(subs.drop_last(), n);
        let last = subs.last();
        if last.index < n {
            prev.update(last.index as int, Some(last.speed))
        } else {
            prev
        }
    }
}

/// The dense per-feature request of a rotate command.
pub open spec fn rotate_request(subs: Seq<RotationSubcommand>, n: nat) -> Seq<Option<RotationValue>>
    decreases subs.len(),
{
    if subs.len() == 0 {
        Seq::new(n, |i: int| None)
    } else {
        let prev = rotate_request(subs.drop_last(), n);
        let last = subs.last();
        if last.index < n {
            prev.update(
                last.index as int,
                Some(RotationValue { speed: last.speed, clockwise: last.clockwise }),
            )
        } else {
            prev
        }
    }
}

/// The dense per-feature request of a linear command.
pub open spec fn linear_request(subs: Seq<VectorSubcommand>, n: nat) -> Seq<Option<LinearValue>>
    decreases subs.len(),
{
    if subs.len() == 0 {
        Seq::new(n, |i: int| None)
    } else {
        let prev = linear_request(subs.drop_last(), n);
        let last = subs.last();
        if last.index < n {
            prev.update(
                last.index as int,
                Some(LinearValue { duration_ms: last.duration_ms, position: last.position }),
            )
        } else {
            prev
        }
    }
}

/// What of a dense request actually goes to the transport: a requested
/// value passes if it differs from the value last issued to that feature,
/// or if the handler forces a send.
pub open spec fn filtered_changes<T>(last: Seq<T>, request: Seq<Option<T>>, force_send: bool) -> Seq<
    Option<T>,
>
    recommends
        request.len() == last.len(),
{
    Seq::new(
        last.len(),
        |i: int| match request[i] {
            Some(v) => if force_send || v != last[i] {
                Some(v)
            } else {
                None
            },
            None => None,
        },
    )
}

/// The stored state after a change set is issued: exactly the values handed
/// to the transport, and the old values where nothing was sent.
pub open spec fn apply_changes<T>(last: Seq<T>, changes: Seq<Option<T>>) -> Seq<T>
    recommends
        changes.len() == last.len(),
{
    Seq::new(
        last.len(),
        |i: int| match changes[i] {
            Some(v) => v,
            None => last[i],
        },
    )
}

/// A change set that requires no transport write at all.
pub open spec fn no_change<T>(changes: Seq<Option<T>>) -> bool {
    forall|i: int| 0 <= i < changes.len() ==> changes[i] is None
}

/// Law: once a command has gone through the filter and the issued values
/// were recorded, running the very same request through the filter again
/// (without forcing) produces no write at all. Only the first of a run of
/// identical commands reaches the transport.
pub proof fn lemma_repeated_command_filtered<T>(last: Seq<T>, request: Seq<Option<T>>)
    requires
        request.len() == last.len(),
    ensures
        no_change(
            filtered_changes(
                apply_changes(last, filtered_changes(last, request, false)),
                request,
                false,
            ),
        ),
{
    let changes = filtered_changes(last, request, false);
    let last2 = apply_changes(last, changes);
    assert forall|i: int|
        0 <= i < request.len() implies filtered_changes(last2, request, false)[i] is None by {
        match request[i] {
            Some(v) => {
                assert(last2[i] == v);
            },
            None => {},
        }
    }
}

/// The all-rest vibrate targets for `n` features.
pub open spec fn zero_speed_subcommands(n: nat) -> Seq<VibrateSubcommand> {
    Seq::new(n, |i: int| VibrateSubcommand { index: i as u32, speed: 0u16 })
}

/// The all-rest rotate targets for `n` features.
pub open spec fn zero_rotation_subcommands(n: nat) -> Seq<RotationSubcommand> {
    Seq::new(n, |i: int| RotationSubcommand { index: i as u32, speed: 0u16, clockwise: true })
}

/// Per-device filter over the three actuation families. Its state is the
/// value last issued to each feature, never the value last requested.
pub struct GenericCommandManager {
    vibrations: Vec<u16>,
    rotations: Vec<RotationValue>,
    linears: Vec<LinearValue>,
}

impl GenericCommandManager {
    /// Feature counts come from `u32` declarations, so the stored vectors
    /// never outgrow that range.
    pub closed spec fn wf(&self) -> bool {
        self.vibrations@.len() <= u32::MAX && self.rotations@.len() <= u32::MAX
            && self.linears@.len() <= u32::MAX
    }

    pub closed spec fn vibration_state(&self) -> Seq<u16> {
        self.vibrations@
    }

    pub closed spec fn rotation_state(&self) -> Seq<RotationValue> {
        self.rotations@
    }

    pub closed spec fn linear_state(&self) -> Seq<LinearValue> {
        self.linears@
    }

    /// Builds the filter sized to the feature counts the attributes table
    /// declares, every feature starting at rest.
    pub fn new(attributes: &MessageAttributesMap) -> (r: Self)
        ensures
            r.vibration_state() =~= Seq::new(
                crate::messages::spec_feature_count(
                    attributes@,
                    ButtplugDeviceMessageType::VibrateCmd,
                ) as nat,
                |i: int| 0u16,
            ),
            r.rotation_state() =~= Seq::new(
                crate::messages::spec_feature_count(
                    attributes@,
                    ButtplugDeviceMessageType::RotateCmd,
                ) as nat,
                |i: int| RotationValue { speed: 0u16, clockwise: true },
            ),
            r.linear_state() =~= Seq::new(
                crate::messages::spec_feature_count(
                    attributes@,
                    ButtplugDeviceMessageType::LinearCmd,
                ) as nat,
                |i: int| LinearValue { duration_ms: 0u32, position: 0u16 },
            ),
            r.wf(),
    {
        let vibrate_count = attributes.feature_count_of(ButtplugDeviceMessageType::VibrateCmd);
        let rotate_count = attributes.feature_count_of(ButtplugDeviceMessageType::RotateCmd);
        let linear_count = attributes.feature_count_of(ButtplugDeviceMessageType::LinearCmd);
        let mut vibrations: Vec<u16> = Vec::new();
        let mut rotations: Vec<RotationValue> = Vec::new();
        let mut linears: Vec<LinearValue> = Vec::new();
        let mut i: u32 = 0;
        while i < vibrate_count
            invariant
                i <= vibrate_count,
                vibrations@.len() == i,
                forall|j: int| 0 <= j < i ==> vibrations@[j] == 0u16,
            decreases vibrate_count - i,
        {
            vibrations.push(0);
            i = i + 1;
        }
        let mut i: u32 = 0;
        while i < rotate_count
            invariant
                i <= rotate_count,
                rotations@.len() == i,
                forall|j: int|
                    0 <= j < i ==> rotations@[j] == (RotationValue {
                        speed: 0u16,
                        clockwise: true,
                    }),
            decreases rotate_count - i,
        {
            rotations.push(RotationValue { speed: 0, clockwise: true });
            i = i + 1;
        }
        let mut i: u32 = 0;
        while i < linear_count
            invariant
                i <= linear_count,
                linears@.len() == i,
                forall|j: int|
                    0 <= j < i ==> linears@[j] == (LinearValue { duration_ms: 0u32, position: 0u16 }),
            decreases linear_count - i,
        {
            linears.push(LinearValue { duration_ms: 0, position: 0 });
            i = i + 1;
        }
        GenericCommandManager { vibrations, rotations, linears }
    }

    /// Filters a vibrate command. Returns `None` when nothing changed and
    /// no write is owed; otherwise returns the per-feature change set and
    /// records the issued values.
    pub fn update_vibration(&mut self, msg: &VibrateCmd, force_send: bool) -> (r: Option<
        Vec<Option<u16>>,
    >)
        requires
            forall|k: int|
                0 <= k < msg.speeds@.len() ==> msg.speeds@[k].index < old(self).vibration_state().len(),
        ensures
            ({
                let request = vibrate_request(msg.speeds@, old(self).vibration_state().len());
                let changes = filtered_changes(old(self).vibration_state(), request, force_send);
                &&& old(self).wf() ==> final(self).wf()
                &&& final(self).rotation_state() == old(self).rotation_state()
                &&& final(self).linear_state() == old(self).linear_state()
                &&& if no_change(changes) {
                    r is None && final(self).vibration_state() == old(self).vibration_state()
                } else {
                    (r matches Some(v) && v@ == changes) && final(self).vibration_state()
                        == apply_changes(old(self).vibration_state(), changes)
                }
            }),
    {
        let n = self.vibrations.len();
        let mut request: Vec<Option<u16>> = Vec::new();
        while request.len() < n
            invariant
                request@.len() <= n,
                forall|j: int| 0 <= j < request@.len() ==> request@[j] is None,
            decreases n - request@.len(),
        {
            request.push(None);
        }
        proof {
            assert(request@ =~= vibrate_request(
                msg.speeds@.take(0),
                old(self).vibration_state().len(),
            ));
        }
        let mut k: usize = 0;
        while k < msg.speeds.len()
            invariant
                k <= msg.speeds@.len(),
                *self == *old(self),
                n == old(self).vibration_state().len(),
                forall|j: int|
                    0 <= j < msg.speeds@.len() ==> msg.speeds@[j].index < old(
                        self,
                    ).vibration_state().len(),
                request@.len() == n,
                request@ == vibrate_request(msg.speeds@.take(k as int), n as nat),
            decreases msg.speeds@.len() - k,
        {
            let sub = msg.speeds[k];
            request.set(sub.index as usize, Some(sub.speed));
            proof {
                assert(msg.speeds@.take(k as int + 1).drop_last() =~= msg.speeds@.take(k as int));
                assert(msg.speeds@.take(k as int + 1).last() == msg.speeds@[k as int]);
            }
            k = k + 1;
        }
        proof {
            assert(msg.speeds@.take(msg.speeds@.len() as int) =~= msg.speeds@);
        }
        let ghost spec_request = vibrate_request(msg.speeds@, old(self).vibration_state().len());
        let ghost spec_changes = filtered_changes(old(self).vibration_state(), spec_request, force_send);
        let mut changed_values: Vec<Option<u16>> = Vec::new();
        let mut issued: Vec<u16> = Vec::new();
        let mut any_change: bool = false;
        let mut i: usize = 0;
        while i < n
            invariant
                i <= n,
                *self == *old(self),
                n == old(self).vibration_state().len(),
                request@.len() == n,
                request@ == spec_request,
                spec_changes == filtered_changes(old(self).vibration_state(), spec_request, force_send),
                spec_request.len() == n,
                changed_values@.len() == i,
                issued@.len() == i,
                forall|j: int| 0 <= j < i ==> changed_values@[j] == spec_changes[j],
                forall|j: int|
                    0 <= j < i ==> issued@[j] == apply_changes(
                        old(self).vibration_state(),
                        spec_changes,
                    )[j],
                any_change ==> !no_change(spec_changes),
                !any_change ==> (forall|j: int| 0 <= j < i ==> spec_changes[j] is None),
            decreases n - i,
        {
            let last_value = self.vibrations[i];
            match request[i] {
                Some(v) => {
                    if force_send || v != last_value {
                        changed_values.push(Some(v));
                        issued.push(v);
                        any_change = true;
                        proof {
                            assert(spec_changes[i as int] == Some(v));
                        }
                    } else {
                        changed_values.push(None);
                        issued.push(last_value);
                        proof {
                            assert(spec_changes[i as int] is None);
                        }
                    }
                },
                None => {
                    changed_values.push(None);
                    issued.push(last_value);
                    proof {
                        assert(spec_changes[i as int] is None);
                    }
                },
            }
            i = i + 1;
        }
        if any_change {
            proof {
                assert(changed_values@ =~= spec_changes);
                assert(issued@ =~= apply_changes(old(self).vibration_state(), spec_changes));
            }
            self.vibrations = issued;
            Some(changed_values)
        } else {
            None
        }
    }

    /// Filters a rotate command, as `update_vibration` does for vibration.
    pub fn update_rotation(&mut self, msg: &RotateCmd, force_send: bool) -> (r: Option<
        Vec<Option<RotationValue>>,
    >)
        requires
            forall|k: int|
                0 <= k < msg.rotations@.len() ==> msg.rotations@[k].index < old(
                    self,
                ).rotation_state().len(),
        ensures
            ({
                let request = rotate_request(msg.rotations@, old(self).rotation_state().len());
                let changes = filtered_changes(old(self).rotation_state(), request, force_send);
                &&& old(self).wf() ==> final(self).wf()
                &&& final(self).vibration_state() == old(self).vibration_state()
                &&& final(self).linear_state() == old(self).linear_state()
                &&& if no_change(changes) {
                    r is None && final(self).rotation_state() == old(self).rotation_state()
                } else {
                    (r matches Some(v) && v@ == changes) && final(self).rotation_state()
                        == apply_changes(old(self).rotation_state(), changes)
                }
            }),
    {
        let n = self.rotations.len();
        let mut request: Vec<Option<RotationValue>> = Vec::new();
        while request.len() < n
            invariant
                request@.len() <= n,
                forall|j: int| 0 <= j < request@.len() ==> request@[j] is None,
            decreases n - request@.len(),
        {
            request.push(None);
        }
        proof {
            assert(request@ =~= rotate_request(msg.rotations@.take(0), old(self).rotation_state().len()));
        }
        let mut k: usize = 0;
        while k < msg.rotations.len()
            invariant
                k <= msg.rotations@.len(),
                *self == *old(self),
                n == old(self).rotation_state().len(),
                forall|j: int|
                    0 <= j < msg.rotations@.len() ==> msg.rotations@[j].index < old(
                        self,
                    ).rotation_state().len(),
                request@.len() == n,
                request@ == rotate_request(msg.rotations@.take(k as int), n as nat),
            decreases msg.rotations@.len() - k,
        {
            let sub = msg.rotations[k];
            request.set(
                sub.index as usize,
                Some(RotationValue { speed: sub.speed, clockwise: sub.clockwise }),
            );
            proof {
                assert(msg.rotations@.take(k as int + 1).drop_last() =~= msg.rotations@.take(
                    k as int,
                ));
                assert(msg.rotations@.take(k as int + 1).last() == msg.rotations@[k as int]);
            }
            k = k + 1;
        }
        proof {
            assert(msg.rotations@.take(msg.rotations@.len() as int) =~= msg.rotations@);
        }
        let ghost spec_request = rotate_request(msg.rotations@, old(self).rotation_state().len());
        let ghost spec_changes = filtered_changes(old(self).rotation_state(), spec_request, force_send);
        let mut changed_values: Vec<Option<RotationValue>> = Vec::new();
        let mut issued: Vec<RotationValue> = Vec::new();
        let mut any_change: bool = false;
        let mut i: usize = 0;
        while i < n
            invariant
                i <= n,
                *self == *old(self),
                n == old(self).rotation_state().len(),
                request@.len() == n,
                request@ == spec_request,
                spec_changes == filtered_changes(old(self).rotation_state(), spec_request, force_send),
                spec_request.len() == n,
                changed_values@.len() == i,
                issued@.len() == i,
                forall|j: int| 0 <= j < i ==> changed_values@[j] == spec_changes[j],
                forall|j: int|
                    0 <= j < i ==> issued@[j] == apply_changes(
                        old(self).rotation_state(),
                        spec_changes,
                    )[j],
                any_change ==> !no_change(spec_changes),
                !any_change ==> (forall|j: int| 0 <= j < i ==> spec_changes[j] is None),
            decreases n - i,
        {
            let last_value = self.rotations[i];
            match request[i] {
                Some(v) => {
                    if force_send || v != last_value {
                        changed_values.push(Some(v));
                        issued.push(v);
                        any_change = true;
                        proof {
                            assert(spec_changes[i as int] == Some(v));
                        }
                    } else {
                        changed_values.push(None);
                        issued.push(last_value);
                        proof {
                            assert(spec_changes[i as int] is None);
                        }
                    }
                },
                None => {
                    changed_values.push(None);
                    issued.push(last_value);
                    proof {
                        assert(spec_changes[i as int] is None);
                    }
                },
            }
            i = i + 1;
        }
        if any_change {
            proof {
                assert(changed_values@ =~= spec_changes);
                assert(issued@ =~= apply_changes(old(self).rotation_state(), spec_changes));
            }
            self.rotations = issued;
            Some(changed_values)
        } else {
            None
        }
    }

    /// Filters a linear command, as `update_vibration` does for vibration.
    pub fn update_linear(&mut self, msg: &LinearCmd, force_send: bool) -> (r: Option<
        Vec<Option<LinearValue>>,
    >)
        requires
            forall|k: int|
                0 <= k < msg.vectors@.len() ==> msg.vectors@[k].index < old(self).linear_state().len(),
        ensures
            ({
                let request = linear_request(msg.vectors@, old(self).linear_state().len());
                let changes = filtered_changes(old(self).linear_state(), request, force_send);
                &&& old(self).wf() ==> final(self).wf()
                &&& final(self).vibration_state() == old(self).vibration_state()
                &&& final(self).rotation_state() == old(self).rotation_state()
                &&& if no_change(changes) {
                    r is None && final(self).linear_state() == old(self).linear_state()
                } else {
                    (r matches Some(v) && v@ == changes) && final(self).linear_state() == apply_changes(
                        old(self).linear_state(),
                        changes,
                    )
                }
            }),
    {
        let n = self.linears.len();
        let mut request: Vec<Option<LinearValue>> = Vec::new();
        while request.len() < n
            invariant
                request@.len() <= n,
                forall|j: int| 0 <= j < request@.len() ==> request@[j] is None,
            decreases n - request@.len(),
        {
            request.push(None);
        }
        proof {
            assert(request@ =~= linear_request(msg.vectors@.take(0), old(self).linear_state().len()));
        }
        let mut k: usize = 0;
        while k < msg.vectors.len()
            invariant
                k <= msg.vectors@.len(),
                *self == *old(self),
                n == old(self).linear_state().len(),
                forall|j: int|
                    0 <= j < msg.vectors@.len() ==> msg.vectors@[j].index < old(
                        self,
                    ).linear_state().len(),
                request@.len() == n,
                request@ == linear_request(msg.vectors@.take(k as int), n as nat),
            decreases msg.vectors@.len() - k,
        {
            let sub = msg.vectors[k];
            request.set(
                sub.index as usize,
                Some(LinearValue { duration_ms: sub.duration_ms, position: sub.position }),
            );
            proof {
                assert(msg.vectors@.take(k as int + 1).drop_last() =~= msg.vectors@.take(k as int));
                assert(msg.vectors@.take(k as int + 1).last() == msg.vectors@[k as int]);
            }
            k = k + 1;
        }
        proof {
            assert(msg.vectors@.take(msg.vectors@.len() as int) =~= msg.vectors@);
        }
        let ghost spec_request = linear_request(msg.vectors@, old(self).linear_state().len());
        let ghost spec_changes = filtered_changes(old(self).linear_state(), spec_request, force_send);
        let mut changed_values: Vec<Option<LinearValue>> = Vec::new();
        let mut issued: Vec<LinearValue> = Vec::new();
        let mut any_change: bool = false;
        let mut i: usize = 0;
        while i < n
            invariant
                i <= n,
                *self == *old(self),
                n == old(self).linear_state().len(),
                request@.len() == n,
                request@ == spec_request,
                spec_changes == filtered_changes(old(self).linear_state(), spec_request, force_send),
                spec_request.len() == n,
                changed_values@.len() == i,
                issued@.len() == i,
                forall|j: int| 0 <= j < i ==> changed_values@[j] == spec_changes[j],
                forall|j: int|
                    0 <= j < i ==> issued@[j] == apply_changes(old(self).linear_state(), spec_changes)[j],
                any_change ==> !no_change(spec_changes),
                !any_change ==> (forall|j: int| 0 <= j < i ==> spec_changes[j] is None),
            decreases n - i,
        {
            let last_value = self.linears[i];
            match request[i] {
                Some(v) => {
                    if force_send || v != last_value {
                        changed_values.push(Some(v));
                        issued.push(v);
                        any_change = true;
                        proof {
                            assert(spec_changes[i as int] == Some(v));
                        }
                    } else {
                        changed_values.push(None);
                        issued.push(last_value);
                        proof {
                            assert(spec_changes[i as int] is None);
                        }
                    }
                },
                None => {
                    changed_values.push(None);
                    issued.push(last_value);
                    proof {
                        assert(spec_changes[i as int] is None);
                    }
                },
            }
            i = i + 1;
        }
        if any_change {
            proof {
                assert(changed_values@ =~= spec_changes);
                assert(issued@ =~= apply_changes(old(self).linear_state(), spec_changes));
            }
            self.linears = issued;
            Some(changed_values)
        } else {
            None
        }
    }

    /// The canonical stop set: the commands that, issued once, return every
    /// feature of the device to rest. Used at client disconnect to
    /// guarantee quiescence.
    pub fn get_stop_commands(&self) -> (r: Vec<ButtplugDeviceCommandMessageUnion>)
        requires
            self.wf(),
        ensures
            r@.len() == (if self.vibration_state().len() > 0 {
                1int
            } else {
                0int
            }) + (if self.rotation_state().len() > 0 {
                1int
            } else {
                0int
            }),
            self.vibration_state().len() > 0 ==> (r@[0] matches
                ButtplugDeviceCommandMessageUnion::VibrateCmd(m) && m.device_index == 0 && m.speeds@
                =~= zero_speed_subcommands(self.vibration_state().len())),
            self.rotation_state().len() > 0 ==> (r@[r@.len() - 1] matches
                ButtplugDeviceCommandMessageUnion::RotateCmd(m) && m.device_index == 0
                && m.rotations@ =~= zero_rotation_subcommands(self.rotation_state().len())),
    {
        let mut commands: Vec<ButtplugDeviceCommandMessageUnion> = Vec::new();
        if self.vibrations.len() > 0 {
            let n = self.vibrations.len();
            let mut speeds: Vec<VibrateSubcommand> = Vec::new();
            let mut i: usize = 0;
            while i < n
                invariant
                    i <= n,
                    n <= u32::MAX,
                    speeds@.len() == i,
                    forall|j: int|
                        0 <= j < i ==> speeds@[j] == (VibrateSubcommand {
                            index: j as u32,
                            speed: 0u16,
                        }),
                decreases n - i,
            {
                speeds.push(VibrateSubcommand { index: i as u32, speed: 0 });
                i = i + 1;
            }
            commands.push(
                ButtplugDeviceCommandMessageUnion::VibrateCmd(VibrateCmd::new(0, speeds)),
            );
        }
        if self.rotations.len() > 0 {
            let n = self.rotations.len();
            let mut rotations: Vec<RotationSubcommand> = Vec::new();
            let mut i: usize = 0;
            while i < n
                invariant
                    i <= n,
                    n <= u32::MAX,
                    rotations@.len() == i,
                    forall|j: int|
                        0 <= j < i ==> rotations@[j] == (RotationSubcommand {
                            index: j as u32,
                            speed: 0u16,
                            clockwise: true,
                        }),
                decreases n - i,
            {
                rotations.push(RotationSubcommand { index: i as u32, speed: 0, clockwise: true });
                i = i + 1;
            }
            commands.push(
                ButtplugDeviceCommandMessageUnion::RotateCmd(RotateCmd::new(0, rotations)),
            );
        }
        commands
    }
}

} // verus!
