//! The error taxonomy of the protocol. Each top-level kind carries its own
//! code on the wire; device-level errors never close the connection, while a
//! connector error always does.

use vstd::prelude::*;
use crate::device::Endpoint;
use crate::util::dec_chars;

verus! {

/// The account of a command that names a feature the device lacks: the
/// kind-specific prefix, the declared feature count, and the index the
/// command referenced.
pub open spec fn max_index_account(prefix: Seq<char>, feature_count: u32, index: u32) -> Seq<
    char,
> {
    prefix + dec_chars(feature_count as int) + ", command referenced "@ + dec_chars(index as int)
        + "."@
}

/// The account of a command carrying more entries than the device has
/// features; the middle names the feature kind.
pub open spec fn command_count_account(feature_count: u32, middle: Seq<char>, sent: int) -> Seq<
    char,
> {
    "Device only has "@ + dec_chars(feature_count as int) + middle + dec_chars(sent)
        + " commands were sent."@
}

/// The account of a device index absent from the registry.
pub open spec fn device_missing_account(index: u32) -> Seq<char> {
    "Device "@ + dec_chars(index as int) + " not available."@
}

/// Errors raised by or about a single device.
#[derive(Clone, PartialEq, Debug)]
pub enum ButtplugDeviceError {
    /// The facade or registry no longer considers the device connected.
    DeviceNotConnected,
    /// No registry entry exists for the given device index.
    DeviceNotFound(u32),
    /// The device does not accept this message type at all.
    UnsupportedCommand,
    /// The write or read named an endpoint the device never declared.
    UnsupportedEndpoint(Endpoint),
    /// The command shape is wrong for the device (index or value range).
    InvalidCommand(String),
    /// The underlying transport reported a failure.
    DeviceCommunicationError(String),
}

/// A reply of a type the sender of the request cannot accept.
#[derive(Clone, PartialEq, Debug)]
pub struct ButtplugMessageError {
    pub message: String,
}

/// The negotiated ping interval elapsed without a ping.
#[derive(Clone, PartialEq, Debug)]
pub struct ButtplugPingError {
    pub message: String,
}

/// The two ends do not speak compatible protocol spec versions.
#[derive(Clone, PartialEq, Debug)]
pub struct ButtplugHandshakeError {
    pub message: String,
}

/// Any server-side error that can travel in an `Error` envelope.
#[derive(Clone, PartialEq, Debug)]
pub enum ButtplugError {
    ButtplugDeviceError(ButtplugDeviceError),
    ButtplugMessageError(ButtplugMessageError),
    ButtplugPingError(ButtplugPingError),
    ButtplugHandshakeError(ButtplugHandshakeError),
}

impl ButtplugError {
    /// The spec fn mirror of `error_code`.
    pub open spec fn spec_error_code(&self) -> u32 {
        match self {
            ButtplugError::ButtplugHandshakeError(_) => 1,
            ButtplugError::ButtplugPingError(_) => 2,
            ButtplugError::ButtplugMessageError(_) => 3,
            ButtplugError::ButtplugDeviceError(_) => 4,
        }
    }

    /// The integer `ErrorCode` this error kind carries on the wire.
    pub fn error_code(&self) -> (r: u32)
        ensures
            r == self.spec_error_code(),
    {
        match self {
            ButtplugError::ButtplugHandshakeError(_) => 1,
            ButtplugError::ButtplugPingError(_) => 2,
            ButtplugError::ButtplugMessageError(_) => 3,
            ButtplugError::ButtplugDeviceError(_) => 4,
        }
    }
}

/// The transport between client and server broke, the peer went away, or a
/// channel closed.
#[derive(Clone, PartialEq, Debug)]
pub struct ButtplugConnectorError {
    pub message: String,
}

impl ButtplugConnectorError {
    pub fn new(message: &str) -> (r: Self)
        ensures
            r.message@ == message@,
    {
        ButtplugConnectorError { message: message.to_owned() }
    }
}

/// What a client-side call can fail with: a connector failure of its own,
/// or a server error carried back in an envelope.
#[derive(Clone, PartialEq, Debug)]
pub enum ButtplugClientError {
    ButtplugConnectorError(ButtplugConnectorError),
    ButtplugError(ButtplugError),
}

} // verus!
