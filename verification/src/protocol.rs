//! Per-device protocol translators: each turns generic actuation commands
//! into the byte writes its device family understands, keeping any
//! device-specific state (packet counter, keep-alive flag, cached speed).

use vstd::prelude::*;
use crate::device::DeviceWriteCmd;
use crate::messages::VibrateCmd;

pub mod ear_haptics;
pub mod switch_joycon;

use ear_haptics::EarHaptics;
use switch_joycon::{JoyconVibrateAction, SwitchJoycon};

verus! {

/// The protocol translators this crate knows, as a tagged dispatch over
/// the handler kinds.
pub enum ProtocolHandler {
    EarHaptics(EarHaptics),
    SwitchJoycon(SwitchJoycon),
}

/// What handling one device command asks of the surrounding runtime:
/// perform plain writes, or drive the keep-alive machinery of a handler
/// that owns a background loop.
pub enum HandlerAction {
    /// Write each listed command to the transport, in order.
    Writes(Vec<DeviceWriteCmd>),
    /// Mark the keep-alive loop stopped and write one explicit stop frame.
    StopKeepAlive(DeviceWriteCmd),
    /// Launch the keep-alive loop; it polls the handler with
    /// `keepalive_tick` until the tick says to stop.
    SpawnKeepAlive,
    /// The shared amplitude cell was updated; the running loop picks the
    /// new value up by itself, so nothing is written now.
    KeepAliveUpdated,
}

/// What dispatching one vibrate command does, by handler kind: an
/// ear-haptics handler filters and writes one byte per changed feature; a
/// Joycon handler steers its keep-alive loop.
pub open spec fn vibrate_dispatch_post(
    pre: ProtocolHandler,
    post: ProtocolHandler,
    speeds: Seq<crate::messages::VibrateSubcommand>,
    action: HandlerAction,
) -> bool {
    match pre {
        ProtocolHandler::EarHaptics(h) => {
            &&& post matches ProtocolHandler::EarHaptics(h2) && (action matches
            HandlerAction::Writes(w) && ear_haptics::ear_vibrate_transition(
                h.vibration_state(),
                h2.vibration_state(),
                speeds,
                w@,
            )) && h2.spec_name() == h.spec_name() && (h.manager_wf() ==> h2.manager_wf())
        },
        ProtocolHandler::SwitchJoycon(h) => {
            &&& post matches ProtocolHandler::SwitchJoycon(h2) && h2.vibration_state()
                == h.vibration_state() && h2.spec_name() == h.spec_name() && (h.manager_wf()
                ==> h2.manager_wf()) && joycon_dispatch_post(h, h2, speeds, action)
        },
    }
}

/// The Joycon keep-alive decision, phrased over the dispatched action. An
/// amplitude at most 1 of 1000 stops the loop with one explicit stop
/// frame; otherwise the loop is spawned or merely fed the new amplitude.
pub open spec fn joycon_dispatch_post(
    pre: SwitchJoycon,
    post: SwitchJoycon,
    speeds: Seq<crate::messages::VibrateSubcommand>,
    action: HandlerAction,
) -> bool {
    let amplitude = speeds[0].speed;
    if amplitude <= 1 {
        &&& !post.spec_is_running()
        &&& post.spec_speed_val() == pre.spec_speed_val()
        &&& post.spec_packet_number() == crate::util::wrapping_inc(pre.spec_packet_number())
        &&& action matches HandlerAction::StopKeepAlive(w) && w.endpoint
            == crate::device::Endpoint::Tx && !w.write_with_response && w.data@
            =~= switch_joycon::joycon_frame(
            pre.spec_packet_number(),
            16u8,
            0u8,
            Seq::<u8>::empty(),
            switch_joycon::rumble_stop_bytes(),
            switch_joycon::rumble_stop_bytes(),
        )
    } else if !pre.spec_is_running() {
        &&& post.spec_is_running()
        &&& post.spec_speed_val() == amplitude
        &&& post.spec_packet_number() == pre.spec_packet_number()
        &&& action is SpawnKeepAlive
    } else {
        &&& post.spec_is_running()
        &&& post.spec_speed_val() == amplitude
        &&& post.spec_packet_number() == pre.spec_packet_number()
        &&& action is KeepAliveUpdated
    }
}

impl ProtocolHandler {
    /// The vibration filter state of the handler's command manager.
    pub open spec fn vibration_state(&self) -> Seq<u16> {
        match self {
            ProtocolHandler::EarHaptics(h) => h.vibration_state(),
            ProtocolHandler::SwitchJoycon(h) => h.vibration_state(),
        }
    }

    /// The rotation filter state of the handler's command manager.
    pub open spec fn rotation_state(&self) -> Seq<crate::command_manager::RotationValue> {
        match self {
            ProtocolHandler::EarHaptics(h) => h.rotation_state(),
            ProtocolHandler::SwitchJoycon(h) => h.rotation_state(),
        }
    }

    /// Routes a vibrate command to the concrete handler.
    pub fn handle_vibrate_cmd(&mut self, msg: &VibrateCmd) -> (r: HandlerAction)
        requires
            forall|k: int|
                0 <= k < msg.speeds@.len() ==> (msg.speeds@[k].index < old(
                    self,
                ).vibration_state().len() && msg.speeds@[k].speed
                    <= crate::messages::SPEED_SCALE),
            *old(self) matches ProtocolHandler::SwitchJoycon(_) ==> msg.speeds@.len() > 0,
        ensures
            vibrate_dispatch_post(*old(self), *final(self), msg.speeds@, r),
    {
        match self {
            ProtocolHandler::EarHaptics(h) => HandlerAction::Writes(h.handle_vibrate_cmd(msg)),
            ProtocolHandler::SwitchJoycon(h) => match h.handle_vibrate_cmd(msg) {
                JoyconVibrateAction::WriteStop(w) => HandlerAction::StopKeepAlive(w),
                JoyconVibrateAction::SpawnLoop => HandlerAction::SpawnKeepAlive,
                JoyconVibrateAction::UpdateSpeed => HandlerAction::KeepAliveUpdated,
            },
        }
    }

    /// The canonical stop set of the handler's command manager: the
    /// commands that, issued once, return the device to rest. One
    /// zero-speed vibrate command when the device vibrates, one zero
    /// rotate command when it rotates.
    pub fn get_stop_commands(&self) -> (r: Vec<crate::messages::ButtplugDeviceCommandMessageUnion>)
        requires
            self.manager_wf(),
        ensures
            r@.len() == (if self.vibration_state().len() > 0 {
                1int
            } else {
                0int
            }) + (if self.rotation_state().len() > 0 {
                1int
            } else {
                0int
            }),
            self.vibration_state().len() > 0 ==> (r@[0] matches
                crate::messages::ButtplugDeviceCommandMessageUnion::VibrateCmd(m) && m.device_index
                == 0 && m.speeds@ =~= crate::command_manager::zero_speed_subcommands(
                self.vibration_state().len(),
            )),
            self.rotation_state().len() > 0 ==> (r@[r@.len() - 1] matches
                crate::messages::ButtplugDeviceCommandMessageUnion::RotateCmd(m) && m.device_index
                == 0 && m.rotations@ =~= crate::command_manager::zero_rotation_subcommands(
                self.rotation_state().len(),
            )),
    {
        match self {
            ProtocolHandler::EarHaptics(h) => h.get_stop_commands(),
            ProtocolHandler::SwitchJoycon(h) => h.get_stop_commands(),
        }
    }

    /// Whether the handler's command manager keeps its sizes within the
    /// declared feature-count range.
    pub open spec fn manager_wf(&self) -> bool {
        match self {
            ProtocolHandler::EarHaptics(h) => h.manager_wf(),
            ProtocolHandler::SwitchJoycon(h) => h.manager_wf(),
        }
    }
}

} // verus!
