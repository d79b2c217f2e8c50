//! Protocol messages and the per-device attributes table.
//!
//! Every message carries a `u32` id. Replies repeat the id of the request
//! they answer; messages the server originates on its own (device lifecycle
//! and scanning notifications) carry id 0, which never appears on a request.
//! Speeds and positions are integers scaled by 1000: 0 is rest, 1000 is the
//! full range of the actuator.

use vstd::prelude::*;
use crate::errors::ButtplugError;

verus! {

/// Full amplitude on the scaled integer encoding of speeds and positions.
pub const SPEED_SCALE: u16 = 1000;

/// The message types a device can accept, used as keys of the attributes
/// table.
#[derive(Clone, Copy, PartialEq, Eq, Structural, Debug)]
pub enum ButtplugDeviceMessageType {
    VibrateCmd,
    LinearCmd,
    RotateCmd,
    StopDeviceCmd,
    RawReadCmd,
    RawWriteCmd,
    RawSubscribeCmd,
    RawUnsubscribeCmd,
}

/// What a device declares about one message type: how many independent
/// actuators answer to it.
#[derive(Clone, Copy, PartialEq, Eq, Debug)]
pub struct MessageAttributes {
    pub feature_count: Option<u32>,
}

impl MessageAttributes {
    pub fn new_with_features(feature_count: u32) -> (r: Self)
        ensures
            r.feature_count == Some(feature_count),
    {
        MessageAttributes { feature_count: Some(feature_count) }
    }
}

/// The mathematical contents of an attributes table: the map a sequence of
/// insertions builds, later entries shadowing earlier ones.
pub open spec fn attributes_as_map(
    s: Seq<(ButtplugDeviceMessageType, MessageAttributes)>,
) -> Map<ButtplugDeviceMessageType, MessageAttributes>
    decreases s.len(),
{
    if s.len() == 0 {
        Map::empty()
    } else {
        attributes_as_map(s.drop_last()).insert(s.last().0, s.last().1)
    }
}

/// Mapping from message type to attributes record. A device's table says
/// which commands it accepts and with how many features.
#[derive(Clone, PartialEq, Debug)]
pub struct MessageAttributesMap {
    entries: Vec<(ButtplugDeviceMessageType, MessageAttributes)>,
}

impl View for MessageAttributesMap {
    type V = Map<ButtplugDeviceMessageType, MessageAttributes>;

    closed spec fn view(&self) -> Map<ButtplugDeviceMessageType, MessageAttributes> {
        attributes_as_map(self.entries@)
    }
}

impl MessageAttributesMap {
    pub fn new() -> (r: Self)
        ensures
            r@ == Map::<ButtplugDeviceMessageType, MessageAttributes>::empty(),
    {
        MessageAttributesMap { entries: Vec::new() }
    }

    /// Adds or replaces the attributes record under `message_type`.
    pub fn insert(&mut self, message_type: ButtplugDeviceMessageType, attributes: MessageAttributes)
        ensures
            final(self)@ == old(self)@.insert(message_type, attributes),
    {
        self.entries.push((message_type, attributes));
        proof {
            assert(self.entries@.drop_last() =~= old(self).entries@);
            assert(self.entries@.last() == (message_type, attributes));
        }
    }

    /// Looks the record up; the latest insertion under the key wins.
    pub fn get(&self, message_type: ButtplugDeviceMessageType) -> (r: Option<&MessageAttributes>)
        ensures
            match r {
                Some(a) => self@.contains_key(message_type) && *a == self@[message_type],
                None => !self@.contains_key(message_type),
            },
    {
        let mut i: usize = self.entries.len();
        proof {
            assert(self.entries@.take(self.entries@.len() as int) =~= self.entries@);
        }
        while i > 0
            invariant
                i <= self.entries@.len(),
                attributes_entry(self.entries@, message_type) == attributes_entry(
                    self.entries@.take(i as int),
                    message_type,
                ),
            decreases i,
        {
            i = i - 1;
            proof {
                assert(self.entries@.take(i as int + 1).drop_last() =~= self.entries@.take(
                    i as int,
                ));
                assert(self.entries@.take(i as int + 1).last() == self.entries@[i as int]);
            }
            if self.entries[i].0 == message_type {
                return Some(&self.entries[i].1);
            }
        }
        proof {
            assert(self.entries@.take(0) =~= Seq::<
                (ButtplugDeviceMessageType, MessageAttributes),
            >::empty());
        }
        None
    }

    /// A copy whose contents provably equal this table's. The derived
    /// clone carries no such guarantee, so device rows are built with this.
    pub fn duplicate(&self) -> (r: Self)
        ensures
            r@ == self@,
    {
        let mut entries: Vec<(ButtplugDeviceMessageType, MessageAttributes)> = Vec::new();
        let mut i: usize = 0;
        while i < self.entries.len()
            invariant
                i <= self.entries@.len(),
                entries@.len() == i,
                forall|j: int| 0 <= j < i ==> entries@[j] == self.entries@[j],
            decreases self.entries@.len() - i,
        {
            entries.push(self.entries[i]);
            i = i + 1;
        }
        proof {
            assert(entries@ =~= self.entries@);
        }
        MessageAttributesMap { entries }
    }

    /// Checks the data-model invariant: every actuator command key
    /// declares at least one feature.
    pub fn validate(&self) -> (r: bool)
        ensures
            r == valid_attributes(self@),
    {
        let vibrate_ok = match self.get(ButtplugDeviceMessageType::VibrateCmd) {
            Some(a) => match a.feature_count {
                Some(c) => c >= 1,
                None => false,
            },
            None => true,
        };
        let linear_ok = match self.get(ButtplugDeviceMessageType::LinearCmd) {
            Some(a) => match a.feature_count {
                Some(c) => c >= 1,
                None => false,
            },
            None => true,
        };
        let rotate_ok = match self.get(ButtplugDeviceMessageType::RotateCmd) {
            Some(a) => match a.feature_count {
                Some(c) => c >= 1,
                None => false,
            },
            None => true,
        };
        vibrate_ok && linear_ok && rotate_ok
    }

    pub fn contains_key(&self, message_type: ButtplugDeviceMessageType) -> (r: bool)
        ensures
            r == self@.contains_key(message_type),
    {
        self.get(message_type).is_some()
    }

    /// The declared feature count under `message_type`, taking absence of
    /// the key or of the count as zero features.
    pub fn feature_count_of(&self, message_type: ButtplugDeviceMessageType) -> (r: u32)
        ensures
            r == spec_feature_count(self@, message_type),
    {
        match self.get(message_type) {
            Some(attributes) => match attributes.feature_count {
                Some(count) => count,
                None => 0,
            },
            None => 0,
        }
    }
}

/// The data-model invariant of an attributes table: an actuator command
/// key (vibrate, linear, rotate) always declares at least one feature.
pub open spec fn valid_attributes(m: Map<ButtplugDeviceMessageType, MessageAttributes>) -> bool {
    &&& actuator_key_valid(m, ButtplugDeviceMessageType::VibrateCmd)
    &&& actuator_key_valid(m, ButtplugDeviceMessageType::LinearCmd)
    &&& actuator_key_valid(m, ButtplugDeviceMessageType::RotateCmd)
}

/// One actuator key of the table, if present, declares a feature count of
/// at least one.
pub open spec fn actuator_key_valid(
    m: Map<ButtplugDeviceMessageType, MessageAttributes>,
    t: ButtplugDeviceMessageType,
) -> bool {
    m.contains_key(t) ==> (m[t].feature_count matches Some(c) && c >= 1)
}

/// The feature count an attributes table declares for a message type, with
/// zero standing for "none declared".
pub open spec fn spec_feature_count(
    m: Map<ButtplugDeviceMessageType, MessageAttributes>,
    t: ButtplugDeviceMessageType,
) -> u32 {
    if m.contains_key(t) {
        match m[t].feature_count {
            Some(c) => c,
            None => 0,
        }
    } else {
        0
    }
}

/// The record an attributes table holds under `t`, if any.
spec fn attributes_entry(
    s: Seq<(ButtplugDeviceMessageType, MessageAttributes)>,
    t: ButtplugDeviceMessageType,
) -> Option<MessageAttributes> {
    if attributes_as_map(s).contains_key(t) {
        Some(attributes_as_map(s)[t])
    } else {
        None
    }
}

/// One vibration target: the actuator at `index` set to `speed` (scaled by
/// 1000).
#[derive(Clone, Copy, PartialEq, Eq, Structural, Debug)]
pub struct VibrateSubcommand {
    pub index: u32,
    pub speed: u16,
}

impl VibrateSubcommand {
    pub fn new(index: u32, speed: u16) -> (r: Self)
        ensures
            r.index == index,
            r.speed == speed,
    {
        VibrateSubcommand { index, speed }
    }
}

/// One linear target: move the actuator at `index` to `position` (scaled by
/// 1000) over `duration_ms` milliseconds.
#[derive(Clone, Copy, PartialEq, Eq, Structural, Debug)]
pub struct VectorSubcommand {
    pub index: u32,
    pub duration_ms: u32,
    pub position: u16,
}

impl VectorSubcommand {
    pub fn new(index: u32, duration_ms: u32, position: u16) -> (r: Self)
        ensures
            r.index == index,
            r.duration_ms == duration_ms,
            r.position == position,
    {
        VectorSubcommand { index, duration_ms, position }
    }
}

/// One rotation target: the actuator at `index` turning at `speed` (scaled
/// by 1000), clockwise or not.
#[derive(Clone, Copy, PartialEq, Eq, Structural, Debug)]
pub struct RotationSubcommand {
    pub index: u32,
    pub speed: u16,
    pub clockwise: bool,
}

impl RotationSubcommand {
    pub fn new(index: u32, speed: u16, clockwise: bool) -> (r: Self)
        ensures
            r.index == index,
            r.speed == speed,
            r.clockwise == clockwise,
    {
        RotationSubcommand { index, speed, clockwise }
    }
}

/// Commands device vibration: one target per listed actuator.
#[derive(Clone, PartialEq, Debug)]
pub struct VibrateCmd {
    pub id: u32,
    pub device_index: u32,
    pub speeds: Vec<VibrateSubcommand>,
}

impl VibrateCmd {
    pub fn new(device_index: u32, speeds: Vec<VibrateSubcommand>) -> (r: Self)
        ensures
            r.id == 1,
            r.device_index == device_index,
            r.speeds@ == speeds@,
    {
        VibrateCmd { id: 1, device_index, speeds }
    }
}

/// Commands linear movement: one vector per listed actuator.
#[derive(Clone, PartialEq, Debug)]
pub struct LinearCmd {
    pub id: u32,
    pub device_index: u32,
    pub vectors: Vec<VectorSubcommand>,
}

impl LinearCmd {
    pub fn new(device_index: u32, vectors: Vec<VectorSubcommand>) -> (r: Self)
        ensures
            r.id == 1,
            r.device_index == device_index,
            r.vectors@ == vectors@,
    {
        LinearCmd { id: 1, device_index, vectors }
    }
}

/// Commands rotation: one target per listed actuator.
#[derive(Clone, PartialEq, Debug)]
pub struct RotateCmd {
    pub id: u32,
    pub device_index: u32,
    pub rotations: Vec<RotationSubcommand>,
}

impl RotateCmd {
    pub fn new(device_index: u32, rotations: Vec<RotationSubcommand>) -> (r: Self)
        ensures
            r.id == 1,
            r.device_index == device_index,
            r.rotations@ == rotations@,
    {
        RotateCmd { id: 1, device_index, rotations }
    }
}

/// Commands a single device back to rest.
#[derive(Clone, Copy, PartialEq, Eq, Structural, Debug)]
pub struct StopDeviceCmd {
    pub id: u32,
    pub device_index: u32,
}

impl StopDeviceCmd {
    pub fn new(device_index: u32) -> (r: Self)
        ensures
            r.id == 1,
            r.device_index == device_index,
    {
        StopDeviceCmd { id: 1, device_index }
    }
}

impl Default for StopDeviceCmd {
    fn default() -> (r: Self)
        ensures
            r.id == 1,
            r.device_index == 0,
    {
        StopDeviceCmd { id: 1, device_index: 0 }
    }
}

/// The device-addressed commands a protocol handler can receive.
#[derive(Clone, PartialEq, Debug)]
pub enum ButtplugDeviceCommandMessageUnion {
    VibrateCmd(VibrateCmd),
    LinearCmd(LinearCmd),
    RotateCmd(RotateCmd),
    StopDeviceCmd(StopDeviceCmd),
}

/// The Ok status message: the positive reply to a request, carrying the
/// request's id.
#[derive(Clone, Copy, PartialEq, Eq, Structural, Debug)]
pub struct OkMsg {
    pub id: u32,
}

impl OkMsg {
    /// Creates a new Ok message with the given id.
    pub fn new(id: u32) -> (r: Self)
        ensures
            r.id == id,
    {
        OkMsg { id }
    }
}

impl Default for OkMsg {
    fn default() -> (r: Self)
        ensures
            r.id == 1,
    {
        OkMsg { id: 1 }
    }
}

/// The Error status message: the negative reply, carrying the request's id,
/// the code of the error kind and a human-readable account.
#[derive(Clone, PartialEq, Debug)]
pub struct Error {
    pub id: u32,
    pub error_code: u32,
    pub error_message: String,
}

impl Error {
    pub fn from_error(id: u32, error: &ButtplugError, error_message: String) -> (r: Self)
        ensures
            r.id == id,
            r.error_code == error.spec_error_code(),
            r.error_message@ == error_message@,
    {
        Error { id, error_code: error.error_code(), error_message }
    }
}

/// One row of a `DeviceList` or `DeviceAdded` message: the public identity
/// of a connected device.
#[derive(Clone, PartialEq, Debug)]
pub struct DeviceMessageInfo {
    pub device_name: String,
    pub device_index: u32,
    pub device_messages: MessageAttributesMap,
}

/// A client-to-server message.
#[derive(Clone, PartialEq, Debug)]
pub enum ButtplugClientMessage {
    RequestDeviceList { id: u32 },
    StartScanning { id: u32 },
    StopScanning { id: u32 },
    VibrateCmd(VibrateCmd),
    LinearCmd(LinearCmd),
    RotateCmd(RotateCmd),
    StopDeviceCmd(StopDeviceCmd),
    StopAllDevices { id: u32 },
    Ping { id: u32 },
}

impl ButtplugClientMessage {
    /// The message id carried in the envelope.
    pub open spec fn spec_id(&self) -> u32 {
        match *self {
            ButtplugClientMessage::RequestDeviceList { id } => id,
            ButtplugClientMessage::StartScanning { id } => id,
            ButtplugClientMessage::StopScanning { id } => id,
            ButtplugClientMessage::VibrateCmd(ref m) => m.id,
            ButtplugClientMessage::LinearCmd(ref m) => m.id,
            ButtplugClientMessage::RotateCmd(ref m) => m.id,
            ButtplugClientMessage::StopDeviceCmd(m) => m.id,
            ButtplugClientMessage::StopAllDevices { id } => id,
            ButtplugClientMessage::Ping { id } => id,
        }
    }

    /// The same message under another id.
    pub open spec fn spec_with_id(&self, new_id: u32) -> ButtplugClientMessage {
        match *self {
            ButtplugClientMessage::RequestDeviceList { id } => ButtplugClientMessage::RequestDeviceList { id: new_id },
            ButtplugClientMessage::StartScanning { id } => ButtplugClientMessage::StartScanning { id: new_id },
            ButtplugClientMessage::StopScanning { id } => ButtplugClientMessage::StopScanning { id: new_id },
            ButtplugClientMessage::VibrateCmd(ref m) => ButtplugClientMessage::VibrateCmd(
                VibrateCmd { id: new_id, device_index: m.device_index, speeds: m.speeds },
            ),
            ButtplugClientMessage::LinearCmd(ref m) => ButtplugClientMessage::LinearCmd(
                LinearCmd { id: new_id, device_index: m.device_index, vectors: m.vectors },
            ),
            ButtplugClientMessage::RotateCmd(ref m) => ButtplugClientMessage::RotateCmd(
                RotateCmd { id: new_id, device_index: m.device_index, rotations: m.rotations },
            ),
            ButtplugClientMessage::StopDeviceCmd(m) => ButtplugClientMessage::StopDeviceCmd(
                StopDeviceCmd { id: new_id, device_index: m.device_index },
            ),
            ButtplugClientMessage::StopAllDevices { id } => ButtplugClientMessage::StopAllDevices { id: new_id },
            ButtplugClientMessage::Ping { id } => ButtplugClientMessage::Ping { id: new_id },
        }
    }

    pub fn id(&self) -> (r: u32)
        ensures
            r == self.spec_id(),
    {
        match self {
            ButtplugClientMessage::RequestDeviceList { id } => *id,
            ButtplugClientMessage::StartScanning { id } => *id,
            ButtplugClientMessage::StopScanning { id } => *id,
            ButtplugClientMessage::VibrateCmd(m) => m.id,
            ButtplugClientMessage::LinearCmd(m) => m.id,
            ButtplugClientMessage::RotateCmd(m) => m.id,
            ButtplugClientMessage::StopDeviceCmd(m) => m.id,
            ButtplugClientMessage::StopAllDevices { id } => *id,
            ButtplugClientMessage::Ping { id } => *id,
        }
    }

    /// Stamps the envelope with `new_id`, leaving the payload as it was.
    pub fn set_id(&mut self, new_id: u32)
        ensures
            *final(self) == old(self).spec_with_id(new_id),
    {
        match self {
            ButtplugClientMessage::RequestDeviceList { id } => *id = new_id,
            ButtplugClientMessage::StartScanning { id } => *id = new_id,
            ButtplugClientMessage::StopScanning { id } => *id = new_id,
            ButtplugClientMessage::VibrateCmd(m) => m.id = new_id,
            ButtplugClientMessage::LinearCmd(m) => m.id = new_id,
            ButtplugClientMessage::RotateCmd(m) => m.id = new_id,
            ButtplugClientMessage::StopDeviceCmd(m) => m.id = new_id,
            ButtplugClientMessage::StopAllDevices { id } => *id = new_id,
            ButtplugClientMessage::Ping { id } => *id = new_id,
        }
    }
}

/// A server-to-client message: either a reply repeating a request's id, or
/// a notification carrying id 0.
#[derive(Clone, PartialEq, Debug)]
pub enum ButtplugServerMessage {
    OkMsg(OkMsg),
    Error(Error),
    DeviceList { id: u32, devices: Vec<DeviceMessageInfo> },
    DeviceAdded { id: u32, device: DeviceMessageInfo },
    DeviceRemoved { id: u32, device_index: u32 },
    ScanningFinished { id: u32 },
}

impl ButtplugServerMessage {
    /// The message id carried in the envelope.
    pub open spec fn spec_id(&self) -> u32 {
        match *self {
            ButtplugServerMessage::OkMsg(m) => m.id,
            ButtplugServerMessage::Error(ref m) => m.id,
            ButtplugServerMessage::DeviceList { id, .. } => id,
            ButtplugServerMessage::DeviceAdded { id, .. } => id,
            ButtplugServerMessage::DeviceRemoved { id, .. } => id,
            ButtplugServerMessage::ScanningFinished { id } => id,
        }
    }

    pub fn id(&self) -> (r: u32)
        ensures
            r == self.spec_id(),
    {
        match self {
            ButtplugServerMessage::OkMsg(m) => m.id,
            ButtplugServerMessage::Error(m) => m.id,
            ButtplugServerMessage::DeviceList { id, .. } => *id,
            ButtplugServerMessage::DeviceAdded { id, .. } => *id,
            ButtplugServerMessage::DeviceRemoved { id, .. } => *id,
            ButtplugServerMessage::ScanningFinished { id } => *id,
        }
    }

    /// A device joined: a notification, so its id is 0.
    pub fn device_added(device: DeviceMessageInfo) -> (r: Self)
        ensures
            r == (ButtplugServerMessage::DeviceAdded { id: 0u32, device }),
            r.spec_id() == 0,
    {
        ButtplugServerMessage::DeviceAdded { id: 0, device }
    }

    /// A device left: a notification, so its id is 0.
    pub fn device_removed(device_index: u32) -> (r: Self)
        ensures
            r == (ButtplugServerMessage::DeviceRemoved { id: 0u32, device_index }),
            r.spec_id() == 0,
    {
        ButtplugServerMessage::DeviceRemoved { id: 0, device_index }
    }

    /// Scanning ended: a notification, so its id is 0.
    pub fn scanning_finished() -> (r: Self)
        ensures
            r == (ButtplugServerMessage::ScanningFinished { id: 0u32 }),
            r.spec_id() == 0,
    {
        ButtplugServerMessage::ScanningFinished { id: 0 }
    }
}

} // verus!
