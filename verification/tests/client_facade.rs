//! The client device facade: shape validation, message forming, the two
//! connection flags and reply classification.

use buttplug::client_device::{
    expect_ok_reply, ButtplugClientDevice, ButtplugClientDeviceEvent, LinearCommand,
    RotateCommand, VibrateCommand,
};
use buttplug::errors::{ButtplugClientError, ButtplugDeviceError, ButtplugError};
use buttplug::messages::{
    ButtplugDeviceMessageType, ButtplugServerMessage, Error, MessageAttributes,
    MessageAttributesMap, OkMsg,
};

fn facade(feature_count: u32) -> ButtplugClientDevice {
    let mut attributes = MessageAttributesMap::new();
    attributes.insert(
        ButtplugDeviceMessageType::VibrateCmd,
        MessageAttributes::new_with_features(feature_count),
    );
    attributes.insert(
        ButtplugDeviceMessageType::LinearCmd,
        MessageAttributes::new_with_features(feature_count),
    );
    attributes.insert(
        ButtplugDeviceMessageType::RotateCmd,
        MessageAttributes::new_with_features(feature_count),
    );
    ButtplugClientDevice::new("Test Device", 3, attributes)
}

fn invalid_command_message(err: ButtplugClientError) -> String {
    match err {
        ButtplugClientError::ButtplugError(ButtplugError::ButtplugDeviceError(
            ButtplugDeviceError::InvalidCommand(message),
        )) => message,
        other => panic!("expected InvalidCommand, got {:?}", other),
    }
}

#[test]
fn scalar_speed_expands_to_every_feature() {
    let device = facade(2);
    let cmd = device.vibrate(VibrateCommand::Speed(500)).unwrap();
    assert_eq!(cmd.id, 1);
    assert_eq!(cmd.device_index, 3);
    assert_eq!(cmd.speeds.len(), 2);
    assert_eq!(cmd.speeds[0].index, 0);
    assert_eq!(cmd.speeds[0].speed, 500);
    assert_eq!(cmd.speeds[1].index, 1);
    assert_eq!(cmd.speeds[1].speed, 500);
}

#[test]
fn dense_vector_assigns_by_position() {
    let device = facade(2);
    let cmd = device.vibrate(VibrateCommand::SpeedVec(vec![250, 1000])).unwrap();
    assert_eq!(cmd.speeds.len(), 2);
    assert_eq!(cmd.speeds[1].index, 1);
    assert_eq!(cmd.speeds[1].speed, 1000);
}

#[test]
fn too_many_vector_entries_are_rejected_whole() {
    let device = facade(2);
    let err = device
        .vibrate(VibrateCommand::SpeedVec(vec![1, 2, 3]))
        .unwrap_err();
    let message = invalid_command_message(err);
    assert_eq!(message, "Device only has 2 vibrators, but 3 commands were sent.");
}

#[test]
fn sparse_map_with_bad_index_is_rejected_whole() {
    let device = facade(2);
    let err = device
        .vibrate(VibrateCommand::SpeedMap(vec![(0, 400), (9, 500)]))
        .unwrap_err();
    let message = invalid_command_message(err);
    assert_eq!(message, "Max vibrator index is 2, command referenced 9.");
}

#[test]
fn speed_above_scale_is_rejected() {
    let device = facade(2);
    let err = device.vibrate(VibrateCommand::Speed(1001)).unwrap_err();
    let message = invalid_command_message(err);
    assert_eq!(message, "Speed must lie between 0 and 1000.");
}

#[test]
fn unsupported_message_type_fails_locally() {
    let attributes = MessageAttributesMap::new();
    let device = ButtplugClientDevice::new("Bare Device", 0, attributes);
    let err = device.vibrate(VibrateCommand::Speed(100)).unwrap_err();
    assert!(matches!(
        err,
        ButtplugClientError::ButtplugError(ButtplugError::ButtplugDeviceError(
            ButtplugDeviceError::UnsupportedCommand
        ))
    ));
}

#[test]
fn linear_map_forms_vectors() {
    let device = facade(2);
    let cmd = device
        .linear(LinearCommand::LinearMap(vec![(1, (500, 750))]))
        .unwrap();
    assert_eq!(cmd.vectors.len(), 1);
    assert_eq!(cmd.vectors[0].index, 1);
    assert_eq!(cmd.vectors[0].duration_ms, 500);
    assert_eq!(cmd.vectors[0].position, 750);
}

#[test]
fn rotate_scalar_keeps_direction() {
    let device = facade(2);
    let cmd = device.rotate(RotateCommand::Rotate(600, false)).unwrap();
    assert_eq!(cmd.rotations.len(), 2);
    assert!(!cmd.rotations[0].clockwise);
    assert_eq!(cmd.rotations[1].speed, 600);
}

#[test]
fn rotate_position_above_scale_is_rejected() {
    let device = facade(2);
    let err = device
        .rotate(RotateCommand::RotateMap(vec![(0, (2000, true))]))
        .unwrap_err();
    invalid_command_message(err);
}

#[test]
fn stop_needs_only_a_connection() {
    let device = facade(2);
    let cmd = device.stop().unwrap();
    assert_eq!(cmd.device_index, 3);
}

#[test]
fn client_disconnect_downs_both_flags_for_good() {
    let mut device = facade(2);
    assert!(device.device_connected());
    assert!(device.client_connected());
    device.handle_event(&ButtplugClientDeviceEvent::ClientDisconnect);
    assert!(!device.device_connected());
    assert!(!device.client_connected());
    // No later event raises a flag again.
    device.handle_event(&ButtplugClientDeviceEvent::Message(
        ButtplugServerMessage::OkMsg(OkMsg::new(1)),
    ));
    device.handle_event(&ButtplugClientDeviceEvent::DeviceDisconnect);
    assert!(!device.device_connected());
    assert!(!device.client_connected());
    match device.vibrate(VibrateCommand::Speed(100)) {
        Err(ButtplugClientError::ButtplugConnectorError(e)) => {
            assert_eq!(e.message, "Client not Connected");
        }
        other => panic!("expected a connector error, got {:?}", other),
    }
}

#[test]
fn device_disconnect_downs_only_the_device_flag() {
    let mut device = facade(2);
    device.handle_event(&ButtplugClientDeviceEvent::DeviceDisconnect);
    assert!(!device.device_connected());
    assert!(device.client_connected());
    let err = device.vibrate(VibrateCommand::Speed(100)).unwrap_err();
    assert!(matches!(
        err,
        ButtplugClientError::ButtplugError(ButtplugError::ButtplugDeviceError(
            ButtplugDeviceError::DeviceNotConnected
        ))
    ));
}

#[test]
fn plain_messages_leave_the_flags_alone() {
    let mut device = facade(2);
    device.handle_event(&ButtplugClientDeviceEvent::Message(
        ButtplugServerMessage::ScanningFinished { id: 0 },
    ));
    assert!(device.device_connected());
    assert!(device.client_connected());
}

#[test]
fn ok_reply_passes_and_unexpected_reply_fails() {
    assert!(expect_ok_reply(&ButtplugServerMessage::OkMsg(OkMsg::new(4))).is_ok());
    let err = expect_ok_reply(&ButtplugServerMessage::ScanningFinished { id: 0 }).unwrap_err();
    match err {
        ButtplugClientError::ButtplugError(ButtplugError::ButtplugMessageError(m)) => {
            assert_eq!(m.message, "Got unexpected message type.");
        }
        other => panic!("expected a message error, got {:?}", other),
    }
}

#[test]
fn wire_errors_come_back_as_their_kind() {
    let wire = Error {
        id: 9,
        error_code: 2,
        error_message: "ping window elapsed".to_string(),
    };
    let err = expect_ok_reply(&ButtplugServerMessage::Error(wire)).unwrap_err();
    match err {
        ButtplugClientError::ButtplugError(ButtplugError::ButtplugPingError(p)) => {
            assert_eq!(p.message, "ping window elapsed");
        }
        other => panic!("expected a ping error, got {:?}", other),
    }

    let wire = Error {
        id: 9,
        error_code: 4,
        error_message: "gone".to_string(),
    };
    let err = expect_ok_reply(&ButtplugServerMessage::Error(wire)).unwrap_err();
    assert!(matches!(
        err,
        ButtplugClientError::ButtplugError(ButtplugError::ButtplugDeviceError(
            ButtplugDeviceError::DeviceCommunicationError(_)
        ))
    ));
}

#[test]
fn facade_exposes_its_identity() {
    let device = facade(2);
    assert_eq!(device.name(), "Test Device");
    assert_eq!(device.index(), 3);
    assert_eq!(
        device
            .allowed_messages()
            .feature_count_of(ButtplugDeviceMessageType::VibrateCmd),
        2
    );
}
