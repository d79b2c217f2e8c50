//! The keep-alive handler shape. The transport forgets vibration after a
//! short window, so a persistent loop re-issues the last intended
//! amplitude four times a second. The handler itself only decides: stop
//! and send one explicit stop frame, spawn the loop, or update the shared
//! amplitude cell the loop reads. The loop body is `keepalive_tick`, run
//! by a background task outside this crate.

use vstd::prelude::*;
use crate::command_manager::{
    zero_rotation_subcommands, zero_speed_subcommands, GenericCommandManager, RotationValue,
};
use crate::device::{DeviceWriteCmd, Endpoint};
use crate::messages::{ButtplugDeviceCommandMessageUnion, MessageAttributesMap, VibrateCmd};

verus! {

/// A four-byte rumble payload for one side of the controller.
#[derive(Clone, Copy, PartialEq, Eq, Debug)]
pub struct Rumble {
    pub data: [u8; 4],
}

/// The payload encoding an amplitude scaled by 1000: a fixed frequency
/// marker followed by the big-endian amplitude.
pub open spec fn rumble_amplitude_bytes(amplitude: u16) -> Seq<u8> {
    seq![0u8, 1u8, (amplitude / 256) as u8, (amplitude % 256) as u8]
}

/// The neutral payload that silences one side.
pub open spec fn rumble_stop_bytes() -> Seq<u8> {
    seq![0u8, 1u8, 0x40u8, 0x40u8]
}

/// The four zero bytes an absent rumble leaves in the frame.
pub open spec fn rumble_absent_bytes() -> Seq<u8> {
    seq![0u8, 0u8, 0u8, 0u8]
}

/// The payload of an optional rumble as it lands in the frame.
pub open spec fn rumble_option_bytes(rumble: Option<Rumble>) -> Seq<u8> {
    match rumble {
        Some(r) => r.data@,
        None => rumble_absent_bytes(),
    }
}

impl Rumble {
    /// A payload vibrating at the given amplitude (scaled by 1000).
    pub fn new(amplitude: u16) -> (r: Self)
        ensures
            r.data@ =~= rumble_amplitude_bytes(amplitude),
    {
        Rumble { data: [0, 1, (amplitude / 256) as u8, (amplitude % 256) as u8] }
    }

    /// The neutral payload.
    pub fn stop() -> (r: Self)
        ensures
            r.data@ =~= rumble_stop_bytes(),
    {
        Rumble { data: [0, 1, 0x40, 0x40] }
    }
}

/// The 64-byte output report: command, packet number, left rumble, right
/// rumble, sub-command, then the sub-command's data, zero-padded.
pub open spec fn joycon_frame(
    packet_number: u8,
    command: u8,
    sub_command: u8,
    data: Seq<u8>,
    rumble_l: Seq<u8>,
    rumble_r: Seq<u8>,
) -> Seq<u8>
    recommends
        data.len() <= 53,
        rumble_l.len() == 4,
        rumble_r.len() == 4,
{
    Seq::new(
        64,
        |i: int|
            if i == 0 {
                command
            } else if i == 1 {
                packet_number
            } else if 2 <= i < 6 {
                rumble_l[i - 2]
            } else if 6 <= i < 10 {
                rumble_r[i - 6]
            } else if i == 10 {
                sub_command
            } else if 11 <= i < 11 + data.len() {
                data[i - 11]
            } else {
                0u8
            },
    )
}

/// Builds the raw 64-byte command frame: byte 0 the command, byte 1 the
/// packet number, bytes 2..6 the left rumble, bytes 6..10 the right
/// rumble, byte 10 the sub-command, the data from byte 11 on, zeros after.
#[verifier::loop_isolation(false)]
pub fn send_command_raw(
    packet_number: u8,
    command: u8,
    sub_command: u8,
    data: &Vec<u8>,
    rumble_r: Option<Rumble>,
    rumble_l: Option<Rumble>,
) -> (r: Vec<u8>)
    requires
        data@.len() <= 53,
    ensures
        r@ =~= joycon_frame(
            packet_number,
            command,
            sub_command,
            data@,
            rumble_option_bytes(rumble_l),
            rumble_option_bytes(rumble_r),
        ),
{
    let mut buf: Vec<u8> = Vec::new();
    while buf.len() < 64
        invariant
            buf@.len() <= 64,
            forall|j: int| 0 <= j < buf@.len() ==> buf@[j] == 0u8,
        decreases 64 - buf@.len(),
    {
        buf.push(0);
    }
    buf.set(0, command);
    buf.set(1, packet_number);
    if let Some(rumble) = rumble_l {
        buf.set(2, rumble.data[0]);
        buf.set(3, rumble.data[1]);
        buf.set(4, rumble.data[2]);
        buf.set(5, rumble.data[3]);
    }
    if let Some(rumble) = rumble_r {
        buf.set(6, rumble.data[0]);
        buf.set(7, rumble.data[1]);
        buf.set(8, rumble.data[2]);
        buf.set(9, rumble.data[3]);
    }
    buf.set(10, sub_command);
    let mut k: usize = 0;
    while k < data.len()
        invariant
            k <= data@.len(),
            buf@.len() == 64,
            buf@[0] == command,
            buf@[1] == packet_number,
            buf@.subrange(2, 6) =~= rumble_option_bytes(rumble_l),
            buf@.subrange(6, 10) =~= rumble_option_bytes(rumble_r),
            buf@[10] == sub_command,
            forall|j: int| 11 <= j < 11 + k ==> buf@[j] == data@[j - 11],
            forall|j: int| 11 + k <= j < 64 ==> buf@[j] == 0u8,
        decreases data@.len() - k,
    {
        buf.set(11 + k, data[k]);
        k = k + 1;
    }
    buf
}

/// Sends a sub-command alone: a raw command frame with command byte 1 and
/// no rumble.
pub fn send_sub_command_raw(packet_number: u8, sub_command: u8, data: &Vec<u8>) -> (r: Vec<u8>)
    requires
        data@.len() <= 53,
    ensures
        r@ =~= joycon_frame(
            packet_number,
            1u8,
            sub_command,
            data@,
            rumble_absent_bytes(),
            rumble_absent_bytes(),
        ),
{
    send_command_raw(packet_number, 1, sub_command, data, None, None)
}

/// As `send_command_raw`, without rumble.
pub fn send_command(packet_number: u8, command: u8, sub_command: u8, data: &Vec<u8>) -> (r: Vec<
    u8,
>)
    requires
        data@.len() <= 53,
    ensures
        r@ =~= joycon_frame(
            packet_number,
            command,
            sub_command,
            data@,
            rumble_absent_bytes(),
            rumble_absent_bytes(),
        ),
{
    send_command_raw(packet_number, command, sub_command, data, None, None)
}

/// As `send_sub_command_raw`.
pub fn send_sub_command(packet_number: u8, sub_command: u8, data: &Vec<u8>) -> (r: Vec<u8>)
    requires
        data@.len() <= 53,
    ensures
        r@ =~= joycon_frame(
            packet_number,
            1u8,
            sub_command,
            data@,
            rumble_absent_bytes(),
            rumble_absent_bytes(),
        ),
{
    send_sub_command_raw(packet_number, sub_command, data)
}

/// What one vibrate command asks of the runtime around a keep-alive
/// handler.
pub enum JoyconVibrateAction {
    /// The loop is marked stopped; write this one explicit stop frame.
    WriteStop(DeviceWriteCmd),
    /// No loop was running: spawn one that calls `keepalive_tick`.
    SpawnLoop,
    /// A loop is already running; only the amplitude cell changed.
    UpdateSpeed,
}

/// Handler for the Joycon family: rumble frames on `Tx`, kept alive by a
/// background loop because the controller forgets vibration quickly.
pub struct SwitchJoycon {
    name: String,
    message_attributes: MessageAttributesMap,
    manager: GenericCommandManager,
    /// Wrapping counter stamped into byte 1 and advanced on each write.
    packet_number: u8,
    /// Whether the keep-alive loop is (to be) running.
    is_running: bool,
    /// The shared amplitude cell the loop reads, scaled by 1000.
    speed_val: u16,
}

impl SwitchJoycon {
    pub closed spec fn spec_name(&self) -> Seq<char> {
        self.name@
    }

    pub closed spec fn vibration_state(&self) -> Seq<u16> {
        self.manager.vibration_state()
    }

    pub closed spec fn rotation_state(&self) -> Seq<RotationValue> {
        self.manager.rotation_state()
    }

    pub closed spec fn spec_attributes(&self) -> Map<
        crate::messages::ButtplugDeviceMessageType,
        crate::messages::MessageAttributes,
    > {
        self.message_attributes@
    }

    pub closed spec fn manager_wf(&self) -> bool {
        self.manager.wf()
    }

    pub closed spec fn spec_packet_number(&self) -> u8 {
        self.packet_number
    }

    pub closed spec fn spec_is_running(&self) -> bool {
        self.is_running
    }

    pub closed spec fn spec_speed_val(&self) -> u16 {
        self.speed_val
    }

    pub fn new_protocol(name: &str, message_attributes: MessageAttributesMap) -> (r: Self)
        ensures
            r.spec_name() == name@,
            r.spec_packet_number() == 0,
            !r.spec_is_running(),
            r.spec_speed_val() == 0,
            r.vibration_state() =~= Seq::new(
                crate::messages::spec_feature_count(
                    message_attributes@,
                    crate::messages::ButtplugDeviceMessageType::VibrateCmd,
                ) as nat,
                |i: int| 0u16,
            ),
            r.rotation_state() =~= Seq::new(
                crate::messages::spec_feature_count(
                    message_attributes@,
                    crate::messages::ButtplugDeviceMessageType::RotateCmd,
                ) as nat,
                |i: int| RotationValue { speed: 0u16, clockwise: true },
            ),
            r.spec_attributes() == message_attributes@,
            r.manager_wf(),
    {
        let manager = GenericCommandManager::new(&message_attributes);
        SwitchJoycon {
            name: name.to_owned(),
            message_attributes,
            manager,
            packet_number: 0,
            is_running: false,
            speed_val: 0,
        }
    }

    /// The one-shot handshake frame: sub-command 72 with argument 1 turns
    /// vibration on. The caller writes it to `Tx` and maps a transport
    /// failure to its own connection error.
    pub fn initialize(&self) -> (r: DeviceWriteCmd)
        ensures
            r.endpoint == Endpoint::Tx,
            !r.write_with_response,
            r.data@ =~= joycon_frame(
                0u8,
                1u8,
                72u8,
                seq![1u8],
                rumble_absent_bytes(),
                rumble_absent_bytes(),
            ),
    {
        let mut data: Vec<u8> = Vec::new();
        data.push(0x01);
        let frame = send_sub_command(0, 72, &data);
        DeviceWriteCmd::new(Endpoint::Tx, frame, false)
    }

    /// Decides what one vibrate command means for the keep-alive loop. An
    /// amplitude at most 1 (of 1000) is essentially zero: the loop is
    /// stopped and one explicit stop frame goes out, advancing the packet
    /// counter. Otherwise, if no loop runs, one must be spawned with the
    /// cell set to the requested amplitude; if one runs already, only the
    /// cell changes.
    pub fn handle_vibrate_cmd(&mut self, msg: &VibrateCmd) -> (r: JoyconVibrateAction)
        requires
            msg.speeds@.len() > 0,
        ensures
            final(self).spec_name() == old(self).spec_name(),
            final(self).vibration_state() == old(self).vibration_state(),
            final(self).rotation_state() == old(self).rotation_state(),
            final(self).spec_attributes() == old(self).spec_attributes(),
            old(self).manager_wf() ==> final(self).manager_wf(),
            ({
                let amplitude = msg.speeds@[0].speed;
                if amplitude <= 1 {
                    &&& !final(self).spec_is_running()
                    &&& final(self).spec_speed_val() == old(self).spec_speed_val()
                    &&& final(self).spec_packet_number() == crate::util::wrapping_inc(
                        old(self).spec_packet_number(),
                    )
                    &&& (r matches JoyconVibrateAction::WriteStop(w) && w.endpoint == Endpoint::Tx
                        && !w.write_with_response && w.data@ =~= joycon_frame(
                        old(self).spec_packet_number(),
                        16u8,
                        0u8,
                        Seq::<u8>::empty(),
                        rumble_stop_bytes(),
                        rumble_stop_bytes(),
                    ))
                } else if !old(self).spec_is_running() {
                    &&& final(self).spec_is_running()
                    &&& final(self).spec_speed_val() == amplitude
                    &&& final(self).spec_packet_number() == old(self).spec_packet_number()
                    &&& r is SpawnLoop
                } else {
                    &&& final(self).spec_is_running()
                    &&& final(self).spec_speed_val() == amplitude
                    &&& final(self).spec_packet_number() == old(self).spec_packet_number()
                    &&& r is UpdateSpeed
                }
            }),
    {
        let amplitude = msg.speeds[0].speed;
        if amplitude <= 1 {
            self.is_running = false;
            let data: Vec<u8> = Vec::new();
            let frame = send_command_raw(
                self.packet_number,
                16,
                0,
                &data,
                Some(Rumble::stop()),
                Some(Rumble::stop()),
            );
            self.packet_number = crate::util::wrapping_inc_u8(self.packet_number);
            JoyconVibrateAction::WriteStop(DeviceWriteCmd::new(Endpoint::Tx, frame, false))
        } else if !self.is_running {
            self.is_running = true;
            self.speed_val = amplitude;
            JoyconVibrateAction::SpawnLoop
        } else {
            self.speed_val = amplitude;
            JoyconVibrateAction::UpdateSpeed
        }
    }

    /// One iteration of the keep-alive loop: nothing when the loop was
    /// stopped (the task exits), else a rumble frame at the amplitude the
    /// cell holds, advancing the packet counter. The task performing the
    /// write sleeps 250 ms between ticks and exits when the transport
    /// fails.
    pub fn keepalive_tick(&mut self) -> (r: Option<DeviceWriteCmd>)
        ensures
            final(self).spec_name() == old(self).spec_name(),
            final(self).vibration_state() == old(self).vibration_state(),
            final(self).rotation_state() == old(self).rotation_state(),
            final(self).spec_attributes() == old(self).spec_attributes(),
            old(self).manager_wf() ==> final(self).manager_wf(),
            final(self).spec_is_running() == old(self).spec_is_running(),
            final(self).spec_speed_val() == old(self).spec_speed_val(),
            !old(self).spec_is_running() ==> r is None && final(self).spec_packet_number() == old(
                self,
            ).spec_packet_number(),
            old(self).spec_is_running() ==> (r matches Some(w) && w.endpoint == Endpoint::Tx
                && !w.write_with_response && w.data@ =~= joycon_frame(
                old(self).spec_packet_number(),
                16u8,
                0u8,
                Seq::<u8>::empty(),
                rumble_amplitude_bytes(old(self).spec_speed_val()),
                rumble_amplitude_bytes(old(self).spec_speed_val()),
            )) && final(self).spec_packet_number() == crate::util::wrapping_inc(
                old(self).spec_packet_number(),
            ),
    {
        if !self.is_running {
            return None;
        }
        let data: Vec<u8> = Vec::new();
        let amplitude = self.speed_val;
        let frame = send_command_raw(
            self.packet_number,
            16,
            0,
            &data,
            Some(Rumble::new(amplitude)),
            Some(Rumble::new(amplitude)),
        );
        self.packet_number = crate::util::wrapping_inc_u8(self.packet_number);
        Some(DeviceWriteCmd::new(Endpoint::Tx, frame, false))
    }

    /// The attributes table the handler was created with.
    pub fn message_attributes(&self) -> (r: &MessageAttributesMap)
        ensures
            r@ == self.spec_attributes(),
    {
        &self.message_attributes
    }

    /// The canonical stop set of this handler's command filter: one
    /// zero-speed vibrate command when the device vibrates, one zero
    /// rotate command when it rotates.
    pub fn get_stop_commands(&self) -> (r: Vec<ButtplugDeviceCommandMessageUnion>)
        requires
            self.manager_wf(),
        ensures
            r@.len() == (if self.vibration_state().len() > 0 {
                1int
            } else {
                0int
            }) + (if self.rotation_state().len() > 0 {
                1int
            } else {
                0int
            }),
            self.vibration_state().len() > 0 ==> (r@[0] matches
                ButtplugDeviceCommandMessageUnion::VibrateCmd(m) && m.device_index == 0 && m.speeds@
                =~= zero_speed_subcommands(self.vibration_state().len())),
            self.rotation_state().len() > 0 ==> (r@[r@.len() - 1] matches
                ButtplugDeviceCommandMessageUnion::RotateCmd(m) && m.device_index == 0
                && m.rotations@ =~= zero_rotation_subcommands(self.rotation_state().len())),
    {
        self.manager.get_stop_commands()
    }
}

} // verus!
