//! The client-side device facade: validates command shape against the
//! device's declared capabilities, forms the protocol message to send, and
//! tracks the two connection flags. The channel that carries the formed
//! message to the server loop, and the task that feeds events back in, live
//! outside this crate; they hand every event to `handle_event`.

use vstd::prelude::*;
use vstd::string::StringExecFns;
use crate::errors::{
    ButtplugClientError, ButtplugConnectorError, ButtplugDeviceError, ButtplugError,
    ButtplugMessageError,
};
use crate::messages::{
    ButtplugDeviceMessageType, ButtplugServerMessage, Error, LinearCmd, MessageAttributesMap,
    RotateCmd, RotationSubcommand, StopDeviceCmd, VectorSubcommand, VibrateCmd, VibrateSubcommand,
    spec_feature_count, SPEED_SCALE,
};
use crate::util::push_dec;

verus! {

/// Convenience shapes for forming a `VibrateCmd`. Speeds are scaled by
/// 1000.
#[derive(Clone, PartialEq, Debug)]
pub enum VibrateCommand {
    /// Sets every vibration feature of the device to the same speed.
    Speed(u16),
    /// Sets features by position: feature `i` takes the `i`-th entry.
    SpeedVec(Vec<u16>),
    /// Sets the features named by the first element of each pair.
    SpeedMap(Vec<(u32, u16)>),
}

/// Convenience shapes for forming a `RotateCmd`. Speeds are scaled by
/// 1000; the flag picks the clockwise direction.
#[derive(Clone, PartialEq, Debug)]
pub enum RotateCommand {
    Rotate(u16, bool),
    RotateVec(Vec<(u16, bool)>),
    RotateMap(Vec<(u32, (u16, bool))>),
}

/// Convenience shapes for forming a `LinearCmd`: move duration in
/// milliseconds and target position scaled by 1000.
#[derive(Clone, PartialEq, Debug)]
pub enum LinearCommand {
    Linear(u32, u16),
    LinearVec(Vec<(u32, u16)>),
    LinearMap(Vec<(u32, (u32, u16))>),
}

/// What the facade's event subscription can deliver.
#[derive(Clone, PartialEq, Debug)]
pub enum ButtplugClientDeviceEvent {
    /// The client itself lost its server connection.
    ClientDisconnect,
    /// Only this device disconnected from the server.
    DeviceDisconnect,
    /// A message concerning this device.
    Message(ButtplugServerMessage),
}

/// The connection flags after one event is observed. `ClientDisconnect`
/// clears both flags; `DeviceDisconnect` clears only the device flag; a
/// plain message changes nothing. The pair is (device, client).
pub open spec fn flags_after_event(
    device_connected: bool,
    client_connected: bool,
    event: ButtplugClientDeviceEvent,
) -> (bool, bool) {
    match event {
        ButtplugClientDeviceEvent::ClientDisconnect => (false, false),
        ButtplugClientDeviceEvent::DeviceDisconnect => (false, client_connected),
        ButtplugClientDeviceEvent::Message(_) => (device_connected, client_connected),
    }
}

/// The connection flags after a whole sequence of events is observed.
pub open spec fn flags_after_events(
    device_connected: bool,
    client_connected: bool,
    events: Seq<ButtplugClientDeviceEvent>,
) -> (bool, bool)
    decreases events.len(),
{
    if events.len() == 0 {
        (device_connected, client_connected)
    } else {
        let first = flags_after_event(device_connected, client_connected, events[0]);
        flags_after_events(first.0, first.1, events.drop_first())
    }
}

/// Law: disconnection is monotone. Whatever events follow, a facade whose
/// device flag is down never sees it rise again, and likewise for the
/// client flag.
pub proof fn lemma_monotone_disconnect(
    device_connected: bool,
    client_connected: bool,
    events: Seq<ButtplugClientDeviceEvent>,
)
    ensures
        !device_connected ==> !flags_after_events(device_connected, client_connected, events).0,
        !client_connected ==> !flags_after_events(device_connected, client_connected, events).1,
    decreases events.len(),
{
    if events.len() > 0 {
        let first = flags_after_event(device_connected, client_connected, events[0]);
        lemma_monotone_disconnect(first.0, first.1, events.drop_first());
    }
}

/// Whether a vibrate convenience command fits a device with `n` vibration
/// features: every speed within scale, every named feature existing, and
/// no more entries than features.
pub open spec fn vibrate_command_valid(cmd: VibrateCommand, n: u32) -> bool {
    match cmd {
        VibrateCommand::Speed(s) => s <= SPEED_SCALE,
        VibrateCommand::SpeedVec(v) => v@.len() <= n && (forall|i: int|
            0 <= i < v@.len() ==> v@[i] <= SPEED_SCALE),
        VibrateCommand::SpeedMap(m) => m@.len() <= n && (forall|i: int|
            0 <= i < m@.len() ==> m@[i].0 < n && m@[i].1 <= SPEED_SCALE),
    }
}

/// The full subcommand vector a valid vibrate convenience command
/// normalizes to, for a device with `n` vibration features.
pub open spec fn vibrate_targets(cmd: VibrateCommand, n: u32) -> Seq<VibrateSubcommand> {
    match cmd {
        VibrateCommand::Speed(s) => Seq::new(
            n as nat,
            |i: int| VibrateSubcommand { index: i as u32, speed: s },
        ),
        VibrateCommand::SpeedVec(v) => Seq::new(
            v@.len(),
            |i: int| VibrateSubcommand { index: i as u32, speed: v@[i] },
        ),
        VibrateCommand::SpeedMap(m) => Seq::new(
            m@.len(),
            |i: int| VibrateSubcommand { index: m@[i].0, speed: m@[i].1 },
        ),
    }
}

/// As `vibrate_command_valid`, for rotation.
pub open spec fn rotate_command_valid(cmd: RotateCommand, n: u32) -> bool {
    match cmd {
        RotateCommand::Rotate(s, _) => s <= SPEED_SCALE,
        RotateCommand::RotateVec(v) => v@.len() <= n && (forall|i: int|
            0 <= i < v@.len() ==> v@[i].0 <= SPEED_SCALE),
        RotateCommand::RotateMap(m) => m@.len() <= n && (forall|i: int|
            0 <= i < m@.len() ==> m@[i].0 < n && m@[i].1.0 <= SPEED_SCALE),
    }
}

/// As `vibrate_targets`, for rotation.
pub open spec fn rotate_targets(cmd: RotateCommand, n: u32) -> Seq<RotationSubcommand> {
    match cmd {
        RotateCommand::Rotate(s, clockwise) => Seq::new(
            n as nat,
            |i: int| RotationSubcommand { index: i as u32, speed: s, clockwise },
        ),
        RotateCommand::RotateVec(v) => Seq::new(
            v@.len(),
            |i: int| RotationSubcommand { index: i as u32, speed: v@[i].0, clockwise: v@[i].1 },
        ),
        RotateCommand::RotateMap(m) => Seq::new(
            m@.len(),
            |i: int| RotationSubcommand { index: m@[i].0, speed: m@[i].1.0, clockwise: m@[i].1.1 },
        ),
    }
}

/// As `vibrate_command_valid`, for linear movement. Durations carry no
/// range restriction; positions are scaled by 1000.
pub open spec fn linear_command_valid(cmd: LinearCommand, n: u32) -> bool {
    match cmd {
        LinearCommand::Linear(_, p) => p <= SPEED_SCALE,
        LinearCommand::LinearVec(v) => v@.len() <= n && (forall|i: int|
            0 <= i < v@.len() ==> v@[i].1 <= SPEED_SCALE),
        LinearCommand::LinearMap(m) => m@.len() <= n && (forall|i: int|
            0 <= i < m@.len() ==> m@[i].0 < n && m@[i].1.1 <= SPEED_SCALE),
    }
}

/// As `vibrate_targets`, for linear movement.
pub open spec fn linear_targets(cmd: LinearCommand, n: u32) -> Seq<VectorSubcommand> {
    match cmd {
        LinearCommand::Linear(d, p) => Seq::new(
            n as nat,
            |i: int| VectorSubcommand { index: i as u32, duration_ms: d, position: p },
        ),
        LinearCommand::LinearVec(v) => Seq::new(
            v@.len(),
            |i: int|
                VectorSubcommand { index: i as u32, duration_ms: v@[i].0, position: v@[i].1 },
        ),
        LinearCommand::LinearMap(m) => Seq::new(
            m@.len(),
            |i: int|
                VectorSubcommand { index: m@[i].0, duration_ms: m@[i].1.0, position: m@[i].1.1 },
        ),
    }
}

/// Client-usable representation of one device connected to the server.
/// It validates commands locally against the attributes snapshot and fails
/// without touching the network when the shape is wrong or a connection
/// flag is down.
#[derive(Clone, Debug)]
pub struct ButtplugClientDevice {
    /// Name of the device.
    name: String,
    /// Index of the device in the server's registry.
    index: u32,
    /// Snapshot of the messages the device accepts, with their attributes.
    allowed_messages: MessageAttributesMap,
    /// True while the device is connected to the server.
    device_connected: bool,
    /// True while the owning client is connected to the server.
    client_connected: bool,
}

impl ButtplugClientDevice {
    pub closed spec fn spec_name(&self) -> Seq<char> {
        self.name@
    }

    pub closed spec fn spec_allowed(&self) -> Map<ButtplugDeviceMessageType, crate::messages::MessageAttributes> {
        self.allowed_messages@
    }

    pub closed spec fn spec_index(&self) -> u32 {
        self.index
    }

    pub closed spec fn spec_device_connected(&self) -> bool {
        self.device_connected
    }

    pub closed spec fn spec_client_connected(&self) -> bool {
        self.client_connected
    }

    /// Both flags start true: a facade is only ever built for a device
    /// that is connected at that moment.
    pub fn new(name: &str, index: u32, allowed_messages: MessageAttributesMap) -> (r: Self)
        ensures
            r.spec_name() == name@,
            r.spec_index() == index,
            r.spec_allowed() == allowed_messages@,
            r.spec_device_connected(),
            r.spec_client_connected(),
    {
        ButtplugClientDevice {
            name: name.to_owned(),
            index,
            allowed_messages,
            device_connected: true,
            client_connected: true,
        }
    }

    /// Builds the facade for a device the server announced, from the row
    /// of a `DeviceList` or `DeviceAdded` message.
    pub fn from_info(info: &crate::messages::DeviceMessageInfo) -> (r: Self)
        ensures
            r.spec_name() == info.device_name@,
            r.spec_index() == info.device_index,
            r.spec_allowed() == info.device_messages@,
            r.spec_device_connected(),
            r.spec_client_connected(),
    {
        ButtplugClientDevice::new(
            info.device_name.as_str(),
            info.device_index,
            info.device_messages.duplicate(),
        )
    }

    pub fn index(&self) -> (r: u32)
        ensures
            r == self.spec_index(),
    {
        self.index
    }

    pub fn name(&self) -> (r: &String)
        ensures
            r@ == self.spec_name(),
    {
        &self.name
    }

    pub fn allowed_messages(&self) -> (r: &MessageAttributesMap)
        ensures
            r@ == self.spec_allowed(),
    {
        &self.allowed_messages
    }

    pub fn device_connected(&self) -> (r: bool)
        ensures
            r == self.spec_device_connected(),
    {
        self.device_connected
    }

    pub fn client_connected(&self) -> (r: bool)
        ensures
            r == self.spec_client_connected(),
    {
        self.client_connected
    }

    /// Folds one observed event into the connection flags.
    pub fn handle_event(&mut self, event: &ButtplugClientDeviceEvent)
        ensures
            final(self).spec_name() == old(self).spec_name(),
            final(self).spec_index() == old(self).spec_index(),
            final(self).spec_allowed() == old(self).spec_allowed(),
            (final(self).spec_device_connected(), final(self).spec_client_connected())
                == flags_after_event(
                old(self).spec_device_connected(),
                old(self).spec_client_connected(),
                *event,
            ),
    {
        match event {
            ButtplugClientDeviceEvent::ClientDisconnect => {
                self.device_connected = false;
                self.client_connected = false;
            },
            ButtplugClientDeviceEvent::DeviceDisconnect => {
                self.device_connected = false;
            },
            ButtplugClientDeviceEvent::Message(_) => {},
        }
    }

    /// Fails fast when a connection flag is down: a connector error when
    /// the client is gone, a device error when only the device is.
    pub fn check_connection(&self) -> (r: Result<(), ButtplugClientError>)
        ensures
            !self.spec_client_connected() ==> (r matches Err(
                ButtplugClientError::ButtplugConnectorError(e),
            ) && e.message@ == "Client not Connected"@),
            self.spec_client_connected() && !self.spec_device_connected() ==> r == Err::<
                (),
                _,
            >(
                ButtplugClientError::ButtplugError(
                    ButtplugError::ButtplugDeviceError(ButtplugDeviceError::DeviceNotConnected),
                ),
            ),
            self.spec_client_connected() && self.spec_device_connected() ==> r is Ok,
    {
        if !self.client_connected {
            Err(
                ButtplugClientError::ButtplugConnectorError(
                    ButtplugConnectorError::new("Client not Connected"),
                ),
            )
        } else if !self.device_connected {
            Err(
                ButtplugClientError::ButtplugError(
                    ButtplugError::ButtplugDeviceError(ButtplugDeviceError::DeviceNotConnected),
                ),
            )
        } else {
            Ok(())
        }
    }

    /// Commands the device to vibrate. On success the formed `VibrateCmd`
    /// carries the full normalized subcommand vector; on a shape violation
    /// nothing is formed and no partial command ever leaves the facade.
    #[verifier::loop_isolation(false)]
    pub fn vibrate(&self, speed_cmd: VibrateCommand) -> (r: Result<VibrateCmd, ButtplugClientError>)
        ensures
            ({
                let n = spec_feature_count(
                    self.spec_allowed(),
                    ButtplugDeviceMessageType::VibrateCmd,
                );
                let allowed = self.spec_allowed().contains_key(
                    ButtplugDeviceMessageType::VibrateCmd,
                );
                let connected = self.spec_client_connected() && self.spec_device_connected();
                &&& !self.spec_client_connected() ==> (r matches Err(
                    ButtplugClientError::ButtplugConnectorError(_),
                ))
                &&& self.spec_client_connected() && !self.spec_device_connected() ==> r == Err::<
                    VibrateCmd,
                    ButtplugClientError,
                >(
                    ButtplugClientError::ButtplugError(
                        ButtplugError::ButtplugDeviceError(ButtplugDeviceError::DeviceNotConnected),
                    ),
                )
                &&& connected && !allowed ==> r == Err::<VibrateCmd, ButtplugClientError>(
                    ButtplugClientError::ButtplugError(
                        ButtplugError::ButtplugDeviceError(ButtplugDeviceError::UnsupportedCommand),
                    ),
                )
                &&& connected && allowed && !vibrate_command_valid(speed_cmd, n) ==> (r matches Err(
                    ButtplugClientError::ButtplugError(
                        ButtplugError::ButtplugDeviceError(ButtplugDeviceError::InvalidCommand(_)),
                    ),
                ))
                &&& connected && allowed && vibrate_command_valid(speed_cmd, n) ==> (r matches Ok(m)
                    && m.id == 1 && m.device_index == self.spec_index() && m.speeds@
                    == vibrate_targets(speed_cmd, n))
                &&& connected && allowed && speed_cmd is Speed && speed_cmd->Speed_0
                    > SPEED_SCALE ==> (r matches Err(
                    ButtplugClientError::ButtplugError(
                        ButtplugError::ButtplugDeviceError(ButtplugDeviceError::InvalidCommand(m)),
                    ),
                ) && m@ == "Speed must lie between 0 and 1000."@)
                &&& connected && allowed && speed_cmd is SpeedVec && speed_cmd->SpeedVec_0@.len()
                    > n ==> (r matches Err(
                    ButtplugClientError::ButtplugError(
                        ButtplugError::ButtplugDeviceError(ButtplugDeviceError::InvalidCommand(m)),
                    ),
                ) && m@ == crate::errors::command_count_account(
                    n,
                    " vibrators, but "@,
                    speed_cmd->SpeedVec_0@.len() as int,
                ))
                &&& connected && allowed && speed_cmd is SpeedVec && speed_cmd->SpeedVec_0@.len()
                    <= n && (exists|k: int|
                    0 <= k < speed_cmd->SpeedVec_0@.len() && speed_cmd->SpeedVec_0@[k]
                        > SPEED_SCALE) ==> (r matches Err(
                    ButtplugClientError::ButtplugError(
                        ButtplugError::ButtplugDeviceError(ButtplugDeviceError::InvalidCommand(m)),
                    ),
                ) && m@
                    == "Speed must lie between 0 and 1000."@)
                &&& connected && allowed && speed_cmd is SpeedMap && speed_cmd->SpeedMap_0@.len()
                    > n ==> (r matches Err(
                    ButtplugClientError::ButtplugError(
                        ButtplugError::ButtplugDeviceError(ButtplugDeviceError::InvalidCommand(m)),
                    ),
                ) && m@ == crate::errors::command_count_account(
                    n,
                    " vibrators, but "@,
                    speed_cmd->SpeedMap_0@.len() as int,
                ))
                &&& connected && allowed && speed_cmd is SpeedMap && speed_cmd->SpeedMap_0@.len()
                    <= n && (forall|k: int|
                    0 <= k < speed_cmd->SpeedMap_0@.len() ==> (
                    #[trigger] speed_cmd->SpeedMap_0@[k]).1 <= SPEED_SCALE) && (exists|k: int|
                    0 <= k < speed_cmd->SpeedMap_0@.len() && (#[trigger] speed_cmd->SpeedMap_0@[k]).0
                        >= n) ==> (r matches Err(
                    ButtplugClientError::ButtplugError(
                        ButtplugError::ButtplugDeviceError(ButtplugDeviceError::InvalidCommand(m)),
                    ),
                ) && exists|k: int|
                    0 <= k < speed_cmd->SpeedMap_0@.len() && (#[trigger] speed_cmd->SpeedMap_0@[k]).0
                        >= n && m@ == crate::errors::max_index_account(
                        "Max vibrator index is "@,
                        n,
                        speed_cmd->SpeedMap_0@[k].0,
                    ))
                &&& connected && allowed && speed_cmd is SpeedMap && speed_cmd->SpeedMap_0@.len()
                    <= n && (forall|k: int|
                    0 <= k < speed_cmd->SpeedMap_0@.len() ==> (
                    #[trigger] speed_cmd->SpeedMap_0@[k]).0 < n) && (exists|k: int|
                    0 <= k < speed_cmd->SpeedMap_0@.len() && (#[trigger] speed_cmd->SpeedMap_0@[k]).1
                        > SPEED_SCALE) ==> (r matches Err(
                    ButtplugClientError::ButtplugError(
                        ButtplugError::ButtplugDeviceError(ButtplugDeviceError::InvalidCommand(m)),
                    ),
                ) && m@
                    == "Speed must lie between 0 and 1000."@)
            }),
    {
        if let Err(e) = self.check_connection() {
            return Err(e);
        }
        if !self.allowed_messages.contains_key(ButtplugDeviceMessageType::VibrateCmd) {
            return Err(
                ButtplugClientError::ButtplugError(
                    ButtplugError::ButtplugDeviceError(ButtplugDeviceError::UnsupportedCommand),
                ),
            );
        }
        let vibrator_count = self.allowed_messages.feature_count_of(
            ButtplugDeviceMessageType::VibrateCmd,
        );
        let ghost n = spec_feature_count(
            self.spec_allowed(),
            ButtplugDeviceMessageType::VibrateCmd,
        );
        let mut speed_vec: Vec<VibrateSubcommand> = Vec::new();
        match &speed_cmd {
            VibrateCommand::Speed(speed) => {
                let speed = *speed;
                if speed > SPEED_SCALE {
                    return Err(invalid_value_error("Speed must lie between 0 and 1000."));
                }
                let mut i: u32 = 0;
                while i < vibrator_count
                    invariant
                        i <= vibrator_count,
                        speed_vec@.len() == i,
                        forall|j: int|
                            0 <= j < i ==> speed_vec@[j] == (VibrateSubcommand {
                                index: j as u32,
                                speed: speed,
                            }),
                    decreases vibrator_count - i,
                {
                    speed_vec.push(VibrateSubcommand::new(i, speed));
                    i = i + 1;
                }
            },
            VibrateCommand::SpeedVec(vec) => {
                if vec.len() > vibrator_count as usize {
                    return Err(
                        command_count_error(vibrator_count, " vibrators, but ", vec.len()),
                    );
                }
                let mut k: usize = 0;
                while k < vec.len()
                    invariant
                        k <= vec@.len(),
                        vec@.len() <= vibrator_count,
                        speed_vec@.len() == k,
                        forall|j: int| 0 <= j < k ==> vec@[j] <= SPEED_SCALE,
                        forall|j: int|
                            0 <= j < k ==> speed_vec@[j] == (VibrateSubcommand {
                                index: j as u32,
                                speed: vec@[j],
                            }),
                    decreases vec@.len() - k,
                {
                    let s = vec[k];
                    if s > SPEED_SCALE {
                        return Err(invalid_value_error("Speed must lie between 0 and 1000."));
                    }
                    speed_vec.push(VibrateSubcommand::new(k as u32, s));
                    k = k + 1;
                }
            },
            VibrateCommand::SpeedMap(map) => {
                if map.len() > vibrator_count as usize {
                    return Err(
                        command_count_error(vibrator_count, " vibrators, but ", map.len()),
                    );
                }
                let mut k: usize = 0;
                while k < map.len()
                    invariant
                        k <= map@.len(),
                        speed_vec@.len() == k,
                        forall|j: int|
                            0 <= j < k ==> map@[j].0 < vibrator_count && map@[j].1 <= SPEED_SCALE,
                        forall|j: int|
                            0 <= j < k ==> speed_vec@[j] == (VibrateSubcommand {
                                index: map@[j].0,
                                speed: map@[j].1,
                            }),
                    decreases map@.len() - k,
                {
                    let (idx, s) = map[k];
                    if idx >= vibrator_count {
                        return Err(
                            invalid_index_error("Max vibrator index is ", vibrator_count, idx),
                        );
                    }
                    if s > SPEED_SCALE {
                        return Err(invalid_value_error("Speed must lie between 0 and 1000."));
                    }
                    speed_vec.push(VibrateSubcommand::new(idx, s));
                    k = k + 1;
                }
            },
        }
        proof {
            assert(speed_vec@ =~= vibrate_targets(speed_cmd, n));
        }
        Ok(VibrateCmd::new(self.index, speed_vec))
    }

    /// Commands linear movement, with the same validation discipline as
    /// `vibrate`.
    #[verifier::loop_isolation(false)]
    pub fn linear(&self, linear_cmd: LinearCommand) -> (r: Result<LinearCmd, ButtplugClientError>)
        ensures
            ({
                let n = spec_feature_count(
                    self.spec_allowed(),
                    ButtplugDeviceMessageType::LinearCmd,
                );
                let allowed = self.spec_allowed().contains_key(
                    ButtplugDeviceMessageType::LinearCmd,
                );
                let connected = self.spec_client_connected() && self.spec_device_connected();
                &&& !self.spec_client_connected() ==> (r matches Err(
                    ButtplugClientError::ButtplugConnectorError(_),
                ))
                &&& self.spec_client_connected() && !self.spec_device_connected() ==> r == Err::<
                    LinearCmd,
                    ButtplugClientError,
                >(
                    ButtplugClientError::ButtplugError(
                        ButtplugError::ButtplugDeviceError(ButtplugDeviceError::DeviceNotConnected),
                    ),
                )
                &&& connected && !allowed ==> r == Err::<LinearCmd, ButtplugClientError>(
                    ButtplugClientError::ButtplugError(
                        ButtplugError::ButtplugDeviceError(ButtplugDeviceError::UnsupportedCommand),
                    ),
                )
                &&& connected && allowed && !linear_command_valid(linear_cmd, n) ==> (r matches Err(
                    ButtplugClientError::ButtplugError(
                        ButtplugError::ButtplugDeviceError(ButtplugDeviceError::InvalidCommand(_)),
                    ),
                ))
                &&& connected && allowed && linear_command_valid(linear_cmd, n) ==> (r matches Ok(m)
                    && m.id == 1 && m.device_index == self.spec_index() && m.vectors@
                    == linear_targets(linear_cmd, n))
                &&& connected && allowed && linear_cmd is Linear && linear_cmd->Linear_1
                    > SPEED_SCALE ==> (r matches Err(
                    ButtplugClientError::ButtplugError(
                        ButtplugError::ButtplugDeviceError(ButtplugDeviceError::InvalidCommand(m)),
                    ),
                ) && m@ == "Position must lie between 0 and 1000."@)
                &&& connected && allowed && linear_cmd is LinearVec && linear_cmd->LinearVec_0@.len()
                    > n ==> (r matches Err(
                    ButtplugClientError::ButtplugError(
                        ButtplugError::ButtplugDeviceError(ButtplugDeviceError::InvalidCommand(m)),
                    ),
                ) && m@ == crate::errors::command_count_account(
                    n,
                    " linear actuators, but "@,
                    linear_cmd->LinearVec_0@.len() as int,
                ))
                &&& connected && allowed && linear_cmd is LinearVec && linear_cmd->LinearVec_0@.len()
                    <= n && (exists|k: int|
                    0 <= k < linear_cmd->LinearVec_0@.len() && (
                    #[trigger] linear_cmd->LinearVec_0@[k]).1 > SPEED_SCALE) ==> (r matches Err(
                    ButtplugClientError::ButtplugError(
                        ButtplugError::ButtplugDeviceError(ButtplugDeviceError::InvalidCommand(m)),
                    ),
                ) && m@
                    == "Position must lie between 0 and 1000."@)
                &&& connected && allowed && linear_cmd is LinearMap && linear_cmd->LinearMap_0@.len()
                    > n ==> (r matches Err(
                    ButtplugClientError::ButtplugError(
                        ButtplugError::ButtplugDeviceError(ButtplugDeviceError::InvalidCommand(m)),
                    ),
                ) && m@ == crate::errors::command_count_account(
                    n,
                    " linear actuators, but "@,
                    linear_cmd->LinearMap_0@.len() as int,
                ))
                &&& connected && allowed && linear_cmd is LinearMap && linear_cmd->LinearMap_0@.len()
                    <= n && (forall|k: int|
                    0 <= k < linear_cmd->LinearMap_0@.len() ==> (
                    #[trigger] linear_cmd->LinearMap_0@[k]).1.1 <= SPEED_SCALE) && (exists|k: int|
                    0 <= k < linear_cmd->LinearMap_0@.len() && (
                    #[trigger] linear_cmd->LinearMap_0@[k]).0 >= n) ==> (r matches Err(
                    ButtplugClientError::ButtplugError(
                        ButtplugError::ButtplugDeviceError(ButtplugDeviceError::InvalidCommand(m)),
                    ),
                ) && exists|k: int|
                    0 <= k < linear_cmd->LinearMap_0@.len() && (
                    #[trigger] linear_cmd->LinearMap_0@[k]).0 >= n && m@
                        == crate::errors::max_index_account(
                        "Max linear index is "@,
                        n,
                        linear_cmd->LinearMap_0@[k].0,
                    ))
                &&& connected && allowed && linear_cmd is LinearMap && linear_cmd->LinearMap_0@.len()
                    <= n && (forall|k: int|
                    0 <= k < linear_cmd->LinearMap_0@.len() ==> (
                    #[trigger] linear_cmd->LinearMap_0@[k]).0 < n) && (exists|k: int|
                    0 <= k < linear_cmd->LinearMap_0@.len() && (
                    #[trigger] linear_cmd->LinearMap_0@[k]).1.1 > SPEED_SCALE) ==> (r matches Err(
                    ButtplugClientError::ButtplugError(
                        ButtplugError::ButtplugDeviceError(ButtplugDeviceError::InvalidCommand(m)),
                    ),
                ) && m@
                    == "Position must lie between 0 and 1000."@)
            }),
    {
        if let Err(e) = self.check_connection() {
            return Err(e);
        }
        if !self.allowed_messages.contains_key(ButtplugDeviceMessageType::LinearCmd) {
            return Err(
                ButtplugClientError::ButtplugError(
                    ButtplugError::ButtplugDeviceError(ButtplugDeviceError::UnsupportedCommand),
                ),
            );
        }
        let linear_count = self.allowed_messages.feature_count_of(
            ButtplugDeviceMessageType::LinearCmd,
        );
        let ghost n = spec_feature_count(
            self.spec_allowed(),
            ButtplugDeviceMessageType::LinearCmd,
        );
        let mut linear_vec: Vec<VectorSubcommand> = Vec::new();
        match &linear_cmd {
            LinearCommand::Linear(dur, pos) => {
                let dur = *dur;
                let pos = *pos;
                if pos > SPEED_SCALE {
                    return Err(invalid_value_error("Position must lie between 0 and 1000."));
                }
                let mut i: u32 = 0;
                while i < linear_count
                    invariant
                        i <= linear_count,
                        linear_vec@.len() == i,
                        forall|j: int|
                            0 <= j < i ==> linear_vec@[j] == (VectorSubcommand {
                                index: j as u32,
                                duration_ms: dur,
                                position: pos,
                            }),
                    decreases linear_count - i,
                {
                    linear_vec.push(VectorSubcommand::new(i, dur, pos));
                    i = i + 1;
                }
            },
            LinearCommand::LinearVec(vec) => {
                if vec.len() > linear_count as usize {
                    return Err(
                        command_count_error(linear_count, " linear actuators, but ", vec.len()),
                    );
                }
                let mut k: usize = 0;
                while k < vec.len()
                    invariant
                        k <= vec@.len(),
                        vec@.len() <= linear_count,
                        linear_vec@.len() == k,
                        forall|j: int| 0 <= j < k ==> vec@[j].1 <= SPEED_SCALE,
                        forall|j: int|
                            0 <= j < k ==> linear_vec@[j] == (VectorSubcommand {
                                index: j as u32,
                                duration_ms: vec@[j].0,
                                position: vec@[j].1,
                            }),
                    decreases vec@.len() - k,
                {
                    let (dur, pos) = vec[k];
                    if pos > SPEED_SCALE {
                        return Err(invalid_value_error("Position must lie between 0 and 1000."));
                    }
                    linear_vec.push(VectorSubcommand::new(k as u32, dur, pos));
                    k = k + 1;
                }
            },
            LinearCommand::LinearMap(map) => {
                if map.len() > linear_count as usize {
                    return Err(
                        command_count_error(linear_count, " linear actuators, but ", map.len()),
                    );
                }
                let mut k: usize = 0;
                while k < map.len()
                    invariant
                        k <= map@.len(),
                        linear_vec@.len() == k,
                        forall|j: int|
                            0 <= j < k ==> map@[j].0 < linear_count && map@[j].1.1 <= SPEED_SCALE,
                        forall|j: int|
                            0 <= j < k ==> linear_vec@[j] == (VectorSubcommand {
                                index: map@[j].0,
                                duration_ms: map@[j].1.0,
                                position: map@[j].1.1,
                            }),
                    decreases map@.len() - k,
                {
                    let (idx, dur_pos) = map[k];
                    if idx >= linear_count {
                        return Err(
                            invalid_index_error("Max linear index is ", linear_count, idx),
                        );
                    }
                    if dur_pos.1 > SPEED_SCALE {
                        return Err(invalid_value_error("Position must lie between 0 and 1000."));
                    }
                    linear_vec.push(VectorSubcommand::new(idx, dur_pos.0, dur_pos.1));
                    k = k + 1;
                }
            },
        }
        proof {
            assert(linear_vec@ =~= linear_targets(linear_cmd, n));
        }
        Ok(LinearCmd::new(self.index, linear_vec))
    }

    /// Commands rotation, with the same validation discipline as `vibrate`.
    #[verifier::loop_isolation(false)]
    pub fn rotate(&self, rotate_cmd: RotateCommand) -> (r: Result<RotateCmd, ButtplugClientError>)
        ensures
            ({
                let n = spec_feature_count(
                    self.spec_allowed(),
                    ButtplugDeviceMessageType::RotateCmd,
                );
                let allowed = self.spec_allowed().contains_key(
                    ButtplugDeviceMessageType::RotateCmd,
                );
                let connected = self.spec_client_connected() && self.spec_device_connected();
                &&& !self.spec_client_connected() ==> (r matches Err(
                    ButtplugClientError::ButtplugConnectorError(_),
                ))
                &&& self.spec_client_connected() && !self.spec_device_connected() ==> r == Err::<
                    RotateCmd,
                    ButtplugClientError,
                >(
                    ButtplugClientError::ButtplugError(
                        ButtplugError::ButtplugDeviceError(ButtplugDeviceError::DeviceNotConnected),
                    ),
                )
                &&& connected && !allowed ==> r == Err::<RotateCmd, ButtplugClientError>(
                    ButtplugClientError::ButtplugError(
                        ButtplugError::ButtplugDeviceError(ButtplugDeviceError::UnsupportedCommand),
                    ),
                )
                &&& connected && allowed && !rotate_command_valid(rotate_cmd, n) ==> (r matches Err(
                    ButtplugClientError::ButtplugError(
                        ButtplugError::ButtplugDeviceError(ButtplugDeviceError::InvalidCommand(_)),
                    ),
                ))
                &&& connected && allowed && rotate_command_valid(rotate_cmd, n) ==> (r matches Ok(m)
                    && m.id == 1 && m.device_index == self.spec_index() && m.rotations@
                    == rotate_targets(rotate_cmd, n))
                &&& connected && allowed && rotate_cmd is Rotate && rotate_cmd->Rotate_0
                    > SPEED_SCALE ==> (r matches Err(
                    ButtplugClientError::ButtplugError(
                        ButtplugError::ButtplugDeviceError(ButtplugDeviceError::InvalidCommand(m)),
                    ),
                ) && m@ == "Speed must lie between 0 and 1000."@)
                &&& connected && allowed && rotate_cmd is RotateVec && rotate_cmd->RotateVec_0@.len()
                    > n ==> (r matches Err(
                    ButtplugClientError::ButtplugError(
                        ButtplugError::ButtplugDeviceError(ButtplugDeviceError::InvalidCommand(m)),
                    ),
                ) && m@ == crate::errors::command_count_account(
                    n,
                    " rotators, but "@,
                    rotate_cmd->RotateVec_0@.len() as int,
                ))
                &&& connected && allowed && rotate_cmd is RotateVec && rotate_cmd->RotateVec_0@.len()
                    <= n && (exists|k: int|
                    0 <= k < rotate_cmd->RotateVec_0@.len() && (
                    #[trigger] rotate_cmd->RotateVec_0@[k]).0 > SPEED_SCALE) ==> (r matches Err(
                    ButtplugClientError::ButtplugError(
                        ButtplugError::ButtplugDeviceError(ButtplugDeviceError::InvalidCommand(m)),
                    ),
                ) && m@
                    == "Speed must lie between 0 and 1000."@)
                &&& connected && allowed && rotate_cmd is RotateMap && rotate_cmd->RotateMap_0@.len()
                    > n ==> (r matches Err(
                    ButtplugClientError::ButtplugError(
                        ButtplugError::ButtplugDeviceError(ButtplugDeviceError::InvalidCommand(m)),
                    ),
                ) && m@ == crate::errors::command_count_account(
                    n,
                    " rotators, but "@,
                    rotate_cmd->RotateMap_0@.len() as int,
                ))
                &&& connected && allowed && rotate_cmd is RotateMap && rotate_cmd->RotateMap_0@.len()
                    <= n && (forall|k: int|
                    0 <= k < rotate_cmd->RotateMap_0@.len() ==> (
                    #[trigger] rotate_cmd->RotateMap_0@[k]).1.0 <= SPEED_SCALE) && (exists|k: int|
                    0 <= k < rotate_cmd->RotateMap_0@.len() && (
                    #[trigger] rotate_cmd->RotateMap_0@[k]).0 >= n) ==> (r matches Err(
                    ButtplugClientError::ButtplugError(
                        ButtplugError::ButtplugDeviceError(ButtplugDeviceError::InvalidCommand(m)),
                    ),
                ) && exists|k: int|
                    0 <= k < rotate_cmd->RotateMap_0@.len() && (
                    #[trigger] rotate_cmd->RotateMap_0@[k]).0 >= n && m@
                        == crate::errors::max_index_account(
                        "Max rotate index is "@,
                        n,
                        rotate_cmd->RotateMap_0@[k].0,
                    ))
                &&& connected && allowed && rotate_cmd is RotateMap && rotate_cmd->RotateMap_0@.len()
                    <= n && (forall|k: int|
                    0 <= k < rotate_cmd->RotateMap_0@.len() ==> (
                    #[trigger] rotate_cmd->RotateMap_0@[k]).0 < n) && (exists|k: int|
                    0 <= k < rotate_cmd->RotateMap_0@.len() && (
                    #[trigger] rotate_cmd->RotateMap_0@[k]).1.0 > SPEED_SCALE) ==> (r matches Err(
                    ButtplugClientError::ButtplugError(
                        ButtplugError::ButtplugDeviceError(ButtplugDeviceError::InvalidCommand(m)),
                    ),
                ) && m@
                    == "Speed must lie between 0 and 1000."@)
            }),
    {
        if let Err(e) = self.check_connection() {
            return Err(e);
        }
        if !self.allowed_messages.contains_key(ButtplugDeviceMessageType::RotateCmd) {
            return Err(
                ButtplugClientError::ButtplugError(
                    ButtplugError::ButtplugDeviceError(ButtplugDeviceError::UnsupportedCommand),
                ),
            );
        }
        let rotate_count = self.allowed_messages.feature_count_of(
            ButtplugDeviceMessageType::RotateCmd,
        );
        let ghost n = spec_feature_count(
            self.spec_allowed(),
            ButtplugDeviceMessageType::RotateCmd,
        );
        let mut rotate_vec: Vec<RotationSubcommand> = Vec::new();
        match &rotate_cmd {
            RotateCommand::Rotate(speed, clockwise) => {
                let speed = *speed;
                let clockwise = *clockwise;
                if speed > SPEED_SCALE {
                    return Err(invalid_value_error("Speed must lie between 0 and 1000."));
                }
                let mut i: u32 = 0;
                while i < rotate_count
                    invariant
                        i <= rotate_count,
                        rotate_vec@.len() == i,
                        forall|j: int|
                            0 <= j < i ==> rotate_vec@[j] == (RotationSubcommand {
                                index: j as u32,
                                speed: speed,
                                clockwise: clockwise,
                            }),
                    decreases rotate_count - i,
                {
                    rotate_vec.push(RotationSubcommand::new(i, speed, clockwise));
                    i = i + 1;
                }
            },
            RotateCommand::RotateVec(vec) => {
                if vec.len() > rotate_count as usize {
                    return Err(command_count_error(rotate_count, " rotators, but ", vec.len()));
                }
                let mut k: usize = 0;
                while k < vec.len()
                    invariant
                        k <= vec@.len(),
                        vec@.len() <= rotate_count,
                        rotate_vec@.len() == k,
                        forall|j: int| 0 <= j < k ==> vec@[j].0 <= SPEED_SCALE,
                        forall|j: int|
                            0 <= j < k ==> rotate_vec@[j] == (RotationSubcommand {
                                index: j as u32,
                                speed: vec@[j].0,
                                clockwise: vec@[j].1,
                            }),
                    decreases vec@.len() - k,
                {
                    let (s, clockwise) = vec[k];
                    if s > SPEED_SCALE {
                        return Err(invalid_value_error("Speed must lie between 0 and 1000."));
                    }
                    rotate_vec.push(RotationSubcommand::new(k as u32, s, clockwise));
                    k = k + 1;
                }
            },
            RotateCommand::RotateMap(map) => {
                if map.len() > rotate_count as usize {
                    return Err(command_count_error(rotate_count, " rotators, but ", map.len()));
                }
                let mut k: usize = 0;
                while k < map.len()
                    invariant
                        k <= map@.len(),
                        rotate_vec@.len() == k,
                        forall|j: int|
                            0 <= j < k ==> map@[j].0 < rotate_count && map@[j].1.0 <= SPEED_SCALE,
                        forall|j: int|
                            0 <= j < k ==> rotate_vec@[j] == (RotationSubcommand {
                                index: map@[j].0,
                                speed: map@[j].1.0,
                                clockwise: map@[j].1.1,
                            }),
                    decreases map@.len() - k,
                {
                    let (idx, pair) = map[k];
                    if idx >= rotate_count {
                        return Err(
                            invalid_index_error("Max rotate index is ", rotate_count, idx),
                        );
                    }
                    if pair.0 > SPEED_SCALE {
                        return Err(invalid_value_error("Speed must lie between 0 and 1000."));
                    }
                    rotate_vec.push(RotationSubcommand::new(idx, pair.0, pair.1));
                    k = k + 1;
                }
            },
        }
        proof {
            assert(rotate_vec@ =~= rotate_targets(rotate_cmd, n));
        }
        Ok(RotateCmd::new(self.index, rotate_vec))
    }

    /// Commands the device to stop all movement. Every device accepts a
    /// stop command, so only the connection flags can refuse it.
    pub fn stop(&self) -> (r: Result<StopDeviceCmd, ButtplugClientError>)
        ensures
            !self.spec_client_connected() ==> (r matches Err(
                ButtplugClientError::ButtplugConnectorError(_),
            )),
            self.spec_client_connected() && !self.spec_device_connected() ==> r == Err::<
                StopDeviceCmd,
                ButtplugClientError,
            >(
                ButtplugClientError::ButtplugError(
                    ButtplugError::ButtplugDeviceError(ButtplugDeviceError::DeviceNotConnected),
                ),
            ),
            self.spec_client_connected() && self.spec_device_connected() ==> r == Ok::<
                StopDeviceCmd,
                ButtplugClientError,
            >(StopDeviceCmd { id: 1, device_index: self.spec_index() }),
    {
        if let Err(e) = self.check_connection() {
            return Err(e);
        }
        Ok(StopDeviceCmd::new(self.index))
    }
}

/// Whether a protocol-level error value carries the same kind and account
/// as a wire `Error` envelope.
pub open spec fn wire_error_matches(e: Error, b: ButtplugError) -> bool {
    if e.error_code == 1 {
        b matches ButtplugError::ButtplugHandshakeError(h) && h.message@ == e.error_message@
    } else if e.error_code == 2 {
        b matches ButtplugError::ButtplugPingError(p) && p.message@ == e.error_message@
    } else if e.error_code == 4 {
        b matches ButtplugError::ButtplugDeviceError(
            ButtplugDeviceError::DeviceCommunicationError(m),
        ) && m@ == e.error_message@
    } else {
        b matches ButtplugError::ButtplugMessageError(m) && m.message@ == e.error_message@
    }
}

/// Rebuilds a protocol error from a wire `Error` envelope. The wire
/// carries only the kind code and the account, so a device error comes
/// back as the generic device-communication kind.
pub fn error_from_wire(e: &Error) -> (r: ButtplugError)
    ensures
        wire_error_matches(*e, r),
{
    if e.error_code == 1 {
        ButtplugError::ButtplugHandshakeError(
            crate::errors::ButtplugHandshakeError { message: e.error_message.clone() },
        )
    } else if e.error_code == 2 {
        ButtplugError::ButtplugPingError(
            crate::errors::ButtplugPingError { message: e.error_message.clone() },
        )
    } else if e.error_code == 4 {
        ButtplugError::ButtplugDeviceError(
            ButtplugDeviceError::DeviceCommunicationError(e.error_message.clone()),
        )
    } else {
        ButtplugError::ButtplugMessageError(
            ButtplugMessageError { message: e.error_message.clone() },
        )
    }
}

/// Classifies the reply to a command that expects a plain Ok: an Ok
/// envelope succeeds, an Error envelope carries the server's error back,
/// and any other message type is itself an error.
pub fn expect_ok_reply(reply: &ButtplugServerMessage) -> (r: Result<(), ButtplugClientError>)
    ensures
        (reply matches ButtplugServerMessage::OkMsg(_)) ==> r is Ok,
        reply matches ButtplugServerMessage::Error(e) ==> r matches Err(
            ButtplugClientError::ButtplugError(b),
        ) && wire_error_matches(*e, b),
        !(reply matches ButtplugServerMessage::OkMsg(_)) && !(reply
            matches ButtplugServerMessage::Error(_)) ==> (r matches Err(
            ButtplugClientError::ButtplugError(ButtplugError::ButtplugMessageError(m)),
        ) && m.message@ == "Got unexpected message type."@),
    {
    match reply {
        ButtplugServerMessage::OkMsg(_) => Ok(()),
        ButtplugServerMessage::Error(e) => Err(
            ButtplugClientError::ButtplugError(error_from_wire(e)),
        ),
        _ => Err(
            ButtplugClientError::ButtplugError(
                ButtplugError::ButtplugMessageError(
                    ButtplugMessageError { message: "Got unexpected message type.".to_owned() },
                ),
            ),
        ),
    }
}

/// An `InvalidCommand` error whose account is the fixed sentence given.
fn invalid_value_error(message: &str) -> (r: ButtplugClientError)
    ensures
        r matches ButtplugClientError::ButtplugError(
            ButtplugError::ButtplugDeviceError(ButtplugDeviceError::InvalidCommand(m)),
        ) && m@ == message@,
{
    ButtplugClientError::ButtplugError(
        ButtplugError::ButtplugDeviceError(
            ButtplugDeviceError::InvalidCommand(message.to_owned()),
        ),
    )
}

/// An `InvalidCommand` error telling how many features exist against how
/// many entries the command carried.
fn command_count_error(count: u32, middle: &str, sent: usize) -> (r: ButtplugClientError)
    ensures
        r matches ButtplugClientError::ButtplugError(
            ButtplugError::ButtplugDeviceError(ButtplugDeviceError::InvalidCommand(m)),
        ) && m@ == crate::errors::command_count_account(count, middle@, sent as int),
{
    let mut msg = String::new();
    msg.append("Device only has ");
    push_dec(&mut msg, count as u64);
    msg.append(middle);
    push_dec(&mut msg, sent as u64);
    msg.append(" commands were sent.");
    proof {
        assert(msg@ =~= crate::errors::command_count_account(count, middle@, sent as int));
    }
    ButtplugClientError::ButtplugError(
        ButtplugError::ButtplugDeviceError(ButtplugDeviceError::InvalidCommand(msg)),
    )
}

/// An `InvalidCommand` error naming a feature index the device lacks.
fn invalid_index_error(prefix: &str, count: u32, index: u32) -> (r: ButtplugClientError)
    ensures
        r matches ButtplugClientError::ButtplugError(
            ButtplugError::ButtplugDeviceError(ButtplugDeviceError::InvalidCommand(m)),
        ) && m@ == crate::errors::max_index_account(prefix@, count, index),
{
    let mut msg = String::new();
    msg.append(prefix);
    push_dec(&mut msg, count as u64);
    msg.append(", command referenced ");
    push_dec(&mut msg, index as u64);
    msg.append(".");
    proof {
        assert(msg@ =~= crate::errors::max_index_account(prefix@, count, index));
    }
    ButtplugClientError::ButtplugError(
        ButtplugError::ButtplugDeviceError(ButtplugDeviceError::InvalidCommand(msg)),
    )
}

} // verus!
