//! Message-id correlation, wire shapes, and the byte formats of the
//! sample transports.

use buttplug::async_manager::{spawn, AndroidAsyncManager, TaskKind};
use buttplug::comm_managers::btleplug_adapter_task::{
    BtleplugAdapterAction, BtleplugAdapterCommand, BtleplugAdapterTask,
};
use buttplug::comm_managers::hid_comm_manager::{HIDCommunicationManager, HidDeviceInfo};
use buttplug::comm_managers::hid_device_impl::HIDDeviceImplCreator;
use buttplug::comm_managers::http_endpoint_comm_manager::HTTPEndpointCommManager;
use buttplug::comm_managers::http_endpoint_device_impl::{
    HTTPEndpointDeviceImpl, HTTPEndpointDeviceImplCreator,
};
use buttplug::comm_managers::rumble_device_impl::{
    ButtplugDeviceReturn, RumbleBLEDeviceImpl, RumbleBLEDeviceImplCreator,
};
use buttplug::comm_managers::xinput_device_impl::{
    XInputControllerIndex, XInputDeviceImpl, XInputDeviceImplCreator,
};
use buttplug::comm_managers::{DeviceCommunicationEvent, DeviceSpecifier};
use buttplug::device::{DeviceHandle, DeviceWriteCmd, Endpoint};
use buttplug::errors::{
    ButtplugDeviceError, ButtplugError, ButtplugHandshakeError, ButtplugMessageError,
    ButtplugPingError,
};
use buttplug::client_device::ButtplugClientDevice;
use buttplug::messages::{
    ButtplugClientMessage, ButtplugServerMessage, DeviceMessageInfo, MessageAttributes,
    MessageAttributesMap, OkMsg,
};
use buttplug::protocol::ear_haptics::EarHaptics;
use buttplug::protocol::switch_joycon::{send_command_raw, send_sub_command, Rumble};
use buttplug::server_loop::ClientMessageSorter;
use buttplug::util::{dec_string, read_u16_le};

#[test]
fn sorter_assigns_fresh_ids_and_resolves_each_once() {
    let mut sorter = ClientMessageSorter::new();
    let mut first = ButtplugClientMessage::Ping { id: 0 };
    let mut second = ButtplugClientMessage::StartScanning { id: 0 };
    sorter.register_request(&mut first);
    sorter.register_request(&mut second);
    assert_eq!(first.id(), 1);
    assert_eq!(second.id(), 2);

    let reply = ButtplugServerMessage::OkMsg(OkMsg::new(1));
    assert!(sorter.resolve_reply(&reply));
    // The same id resolves exactly once.
    assert!(!sorter.resolve_reply(&reply));
    // Notifications (id 0) never resolve a completer.
    let notification = ButtplugServerMessage::ScanningFinished { id: 0 };
    assert!(!sorter.resolve_reply(&notification));
    // The other request is still pending.
    let reply = ButtplugServerMessage::OkMsg(OkMsg::new(2));
    assert!(sorter.resolve_reply(&reply));
}

#[test]
fn set_id_changes_only_the_envelope() {
    let mut msg = ButtplugClientMessage::StopDeviceCmd(buttplug::messages::StopDeviceCmd {
        id: 1,
        device_index: 7,
    });
    msg.set_id(99);
    match msg {
        ButtplugClientMessage::StopDeviceCmd(m) => {
            assert_eq!(m.id, 99);
            assert_eq!(m.device_index, 7);
        }
        other => panic!("expected StopDeviceCmd, got {:?}", other),
    }
}

#[test]
fn ok_message_carries_its_id_and_defaults_to_one() {
    assert_eq!(OkMsg::new(0).id, 0);
    let default: OkMsg = Default::default();
    assert_eq!(default.id, 1);
}

#[test]
fn decimal_rendering_is_exact() {
    assert_eq!(dec_string(0), "0");
    assert_eq!(dec_string(7), "7");
    assert_eq!(dec_string(255), "255");
    assert_eq!(dec_string(65535), "65535");
    assert_eq!(dec_string(1000), "1000");
}

#[test]
fn little_endian_motor_speeds_decode_exactly() {
    let data = vec![0x10, 0x27, 0xE8, 0x03];
    assert_eq!(read_u16_le(&data, 0), 10000);
    assert_eq!(read_u16_le(&data, 2), 1000);

    let device = XInputDeviceImpl::new(XInputControllerIndex::XInputController0);
    let cmd = DeviceWriteCmd::new(Endpoint::Tx, data, false);
    let (left, right) = device.write_value(&cmd);
    assert_eq!(left, 10000);
    assert_eq!(right, 1000);
}

#[test]
fn xinput_identity_is_stable() {
    let creator = XInputDeviceImplCreator::new(XInputControllerIndex::XInputController2);
    let device = creator.try_create_device_impl();
    assert_eq!(device.name(), "XInput Gamepad");
    assert_eq!(device.address(), "XInput Controller 2");
    assert!(device.connected());
    assert_eq!(device.endpoints(), vec![Endpoint::Tx]);
}

#[test]
fn http_write_forms_the_exact_url() {
    let device = HTTPEndpointDeviceImpl::new(1);
    let cmd = DeviceWriteCmd::new(Endpoint::Tx, vec![127], false);
    let url = device.write_value("192.168.123.191:5000", &cmd);
    assert_eq!(url, "http://192.168.123.191:5000/?speed=127&index=1");
}

#[test]
fn http_creator_names_its_device() {
    let creator = HTTPEndpointDeviceImplCreator::new(2);
    let (handle, device) = creator.try_create_device_impl();
    assert_eq!(handle.name, "Ear2");
    assert_eq!(handle.address, "HTTP Device 2");
    assert_eq!(handle.endpoints, vec![Endpoint::Tx]);
    let cmd = DeviceWriteCmd::new(Endpoint::Tx, vec![0], false);
    assert_eq!(device.write_value("h", &cmd), "http://h/?speed=0&index=2");
}

#[test]
fn http_manager_announces_endpoints_once() {
    let mut manager = HTTPEndpointCommManager::new(2);
    let first = manager.start_scanning();
    assert_eq!(first.len(), 2);
    let again = manager.start_scanning();
    assert!(again.is_empty());
    assert_eq!(
        manager.stop_scanning(),
        DeviceCommunicationEvent::ScanningFinished
    );
}

#[test]
fn joycon_frame_layout_is_bit_exact() {
    let data = vec![0xAA, 0xBB];
    let frame = send_command_raw(
        9,
        16,
        3,
        &data,
        Some(Rumble::new(1000)),
        Some(Rumble::stop()),
    );
    assert_eq!(frame.len(), 64);
    assert_eq!(frame[0], 16);
    assert_eq!(frame[1], 9);
    // Left rumble (the last argument) sits in bytes 2..6.
    assert_eq!(&frame[2..6], &[0, 1, 0x40, 0x40]);
    // Right rumble in bytes 6..10: amplitude 1000 big-endian is 3, 232.
    assert_eq!(&frame[6..10], &[0, 1, 3, 232]);
    assert_eq!(frame[10], 3);
    assert_eq!(frame[11], 0xAA);
    assert_eq!(frame[12], 0xBB);
    for i in 13..64 {
        assert_eq!(frame[i], 0);
    }
}

#[test]
fn sub_command_frames_carry_command_byte_one() {
    let data = vec![0x01];
    let frame = send_sub_command(0, 72, &data);
    assert_eq!(frame[0], 1);
    assert_eq!(frame[1], 0);
    assert_eq!(&frame[2..10], &[0u8; 8]);
    assert_eq!(frame[10], 72);
    assert_eq!(frame[11], 1);
}

#[test]
fn ear_initialize_picks_the_display_name() {
    assert_eq!(EarHaptics::initialize("Device 1").unwrap(), "Ear1");
    assert_eq!(EarHaptics::initialize("Device 2").unwrap(), "Ear2");
    assert_eq!(EarHaptics::initialize("").unwrap(), "Ear2");
}

#[test]
fn ble_discovery_dedups_until_scanning_restarts() {
    let mut task = BtleplugAdapterTask::new();
    let name = "LVS-Test".to_string();
    let address = "AA:BB:CC".to_string();
    let event = task.on_device_discovered(&name, &address);
    assert_eq!(
        event,
        Some(DeviceCommunicationEvent::DeviceFound {
            name: name.clone(),
            address: address.clone()
        })
    );
    // Re-advertisement of the same address stays silent.
    assert!(task.on_device_discovered(&name, &address).is_none());
    // A nameless peripheral is ignored.
    assert!(task
        .on_device_discovered(&String::new(), &"DD:EE:FF".to_string())
        .is_none());
    // A scan restart clears the memory.
    assert_eq!(
        task.handle_command(BtleplugAdapterCommand::StartScanning),
        BtleplugAdapterAction::StartScan
    );
    assert!(task.on_device_discovered(&name, &address).is_some());
    assert_eq!(
        task.handle_command(BtleplugAdapterCommand::StopScanning),
        BtleplugAdapterAction::StopScan
    );
}

#[test]
fn hid_scan_skips_serialless_and_dedups_serials() {
    let manager = HIDCommunicationManager::new();
    assert_eq!(manager.name(), "HIDCommunicationManager");
    let devices = vec![
        HidDeviceInfo {
            vendor_id: 0x057E,
            product_id: 0x2006,
            serial_number: Some("S1".to_string()),
            product_string: Some("Gamepad".to_string()),
        },
        HidDeviceInfo {
            vendor_id: 0,
            product_id: 0,
            serial_number: None,
            product_string: None,
        },
        HidDeviceInfo {
            vendor_id: 0x057E,
            product_id: 0x2006,
            serial_number: Some("S1".to_string()),
            product_string: Some("Gamepad".to_string()),
        },
        HidDeviceInfo {
            vendor_id: 0x057E,
            product_id: 0x2007,
            serial_number: Some("S2".to_string()),
            product_string: Some("Wand".to_string()),
        },
    ];
    let events = manager.start_scanning(&devices);
    assert_eq!(events.len(), 2);
    assert_eq!(
        events[0],
        DeviceCommunicationEvent::DeviceFound {
            name: "Gamepad".to_string(),
            address: "S1".to_string()
        }
    );
    assert_eq!(
        events[1],
        DeviceCommunicationEvent::DeviceFound {
            name: "Wand".to_string(),
            address: "S2".to_string()
        }
    );
    assert!(manager.stop_scanning().is_none());
}

#[test]
fn hid_device_forwards_reports_and_loses_connection_for_good() {
    let info = HidDeviceInfo {
        vendor_id: 0x057E,
        product_id: 0x2006,
        serial_number: Some("S1".to_string()),
        product_string: Some("Gamepad".to_string()),
    };
    let creator = HIDDeviceImplCreator::new(info);
    assert_eq!(
        creator.get_specifier(),
        DeviceSpecifier::HID { vendor_id: 0x057E, product_id: 0x2006 }
    );
    let (handle, mut device) = creator.try_create_device_impl();
    assert_eq!(handle.name, "Gamepad");
    assert_eq!(handle.address, "S1");
    assert_eq!(handle.endpoints, vec![Endpoint::Rx, Endpoint::Tx]);
    let cmd = DeviceWriteCmd::new(Endpoint::Tx, vec![9, 8, 7], false);
    assert_eq!(device.write_value(&cmd), vec![9, 8, 7]);
    assert!(device.connected());
    device.disconnect();
    assert!(!device.connected());
}

#[test]
fn ble_device_creation_judges_the_connect_answer() {
    let creator = RumbleBLEDeviceImplCreator::new("LVS-Z001".to_string(), "11:22".to_string());
    let connected = ButtplugDeviceReturn::Connected {
        endpoints: vec![Endpoint::Tx, Endpoint::Rx],
    };
    let device = creator.try_create_device_impl(connected).unwrap();
    assert_eq!(device.name, "LVS-Z001");
    assert_eq!(device.address, "11:22");
    assert_eq!(device.endpoints, vec![Endpoint::Tx, Endpoint::Rx]);

    let failure = ButtplugDeviceReturn::DeviceError("boom".to_string());
    match creator.try_create_device_impl(failure) {
        Err(ButtplugError::ButtplugDeviceError(
            ButtplugDeviceError::DeviceCommunicationError(m),
        )) => assert_eq!(m, "Cannot connect"),
        other => panic!("expected the connect error, got {:?}", other),
    }
}

#[test]
fn ble_device_judges_task_answers() {
    let ok = RumbleBLEDeviceImpl::interpret_device_return(&ButtplugDeviceReturn::Done, "x");
    assert!(ok.is_ok());
    let err = RumbleBLEDeviceImpl::interpret_device_return(
        &ButtplugDeviceReturn::DeviceError("e".to_string()),
        "Cannot write to endpoint",
    );
    match err {
        Err(ButtplugError::ButtplugDeviceError(
            ButtplugDeviceError::DeviceCommunicationError(m),
        )) => assert_eq!(m, "Cannot write to endpoint"),
        other => panic!("expected the write error, got {:?}", other),
    }
}

#[test]
fn device_handle_checks_declared_endpoints() {
    let mut handle = DeviceHandle::new(
        "D".to_string(),
        "addr".to_string(),
        vec![Endpoint::Tx, Endpoint::Rx],
    );
    assert!(handle.supports_endpoint(Endpoint::Tx));
    assert!(!handle.supports_endpoint(Endpoint::Firmware));
    assert!(handle.connected);
    handle.disconnect();
    assert!(!handle.connected);
}

#[test]
fn task_ledger_hands_out_fresh_ids() {
    let mut manager = AndroidAsyncManager::new();
    let a = spawn(&mut manager, TaskKind::ScanningLoop);
    let b = spawn(&mut manager, TaskKind::KeepAliveLoop { device_index: 0 });
    assert_eq!(a, 0);
    assert_eq!(b, 1);
    assert!(manager.task_finished(a));
    assert!(!manager.task_finished(a));
    // Ids are never reused after a task ends.
    let c = spawn(&mut manager, TaskKind::TransportIoLoop { device_index: 0 });
    assert_eq!(c, 2);
}

#[test]
fn error_codes_follow_the_wire_taxonomy() {
    let device = ButtplugError::ButtplugDeviceError(ButtplugDeviceError::DeviceNotConnected);
    assert_eq!(device.error_code(), 4);
    let message = ButtplugError::ButtplugMessageError(ButtplugMessageError {
        message: String::new(),
    });
    assert_eq!(message.error_code(), 3);
    let ping = ButtplugError::ButtplugPingError(ButtplugPingError {
        message: String::new(),
    });
    assert_eq!(ping.error_code(), 2);
    let handshake = ButtplugError::ButtplugHandshakeError(ButtplugHandshakeError {
        message: String::new(),
    });
    assert_eq!(handshake.error_code(), 1);
}

#[test]
fn attributes_invariant_demands_a_feature_count() {
    let mut attributes = MessageAttributesMap::new();
    assert!(attributes.validate());
    attributes.insert(
        buttplug::messages::ButtplugDeviceMessageType::VibrateCmd,
        MessageAttributes::new_with_features(2),
    );
    assert!(attributes.validate());
    attributes.insert(
        buttplug::messages::ButtplugDeviceMessageType::RotateCmd,
        MessageAttributes { feature_count: None },
    );
    assert!(!attributes.validate());
    // The latest insertion under a key wins.
    attributes.insert(
        buttplug::messages::ButtplugDeviceMessageType::RotateCmd,
        MessageAttributes::new_with_features(1),
    );
    assert!(attributes.validate());
    assert_eq!(
        attributes.feature_count_of(buttplug::messages::ButtplugDeviceMessageType::RotateCmd),
        1
    );
}

#[test]
fn writes_to_undeclared_endpoints_fail() {
    let mut handle = DeviceHandle::new("D".to_string(), "a".to_string(), vec![Endpoint::Tx]);
    let good = DeviceWriteCmd::new(Endpoint::Tx, vec![1], false);
    assert!(handle.write_value(good).is_ok());
    let bad = DeviceWriteCmd::new(Endpoint::Firmware, vec![1], false);
    match handle.write_value(bad) {
        Err(ButtplugDeviceError::UnsupportedEndpoint(Endpoint::Firmware)) => {}
        other => panic!("expected UnsupportedEndpoint, got {:?}", other),
    }
    handle.disconnect();
    let late = DeviceWriteCmd::new(Endpoint::Tx, vec![1], false);
    match handle.write_value(late) {
        Err(ButtplugDeviceError::DeviceNotConnected) => {}
        other => panic!("expected DeviceNotConnected, got {:?}", other),
    }
}

#[test]
fn facade_builds_from_an_announced_device_row() {
    let mut attributes = MessageAttributesMap::new();
    attributes.insert(
        buttplug::messages::ButtplugDeviceMessageType::VibrateCmd,
        MessageAttributes::new_with_features(2),
    );
    let info = DeviceMessageInfo {
        device_name: "Ear1".to_string(),
        device_index: 5,
        device_messages: attributes,
    };
    let facade = ButtplugClientDevice::from_info(&info);
    assert_eq!(facade.name(), "Ear1");
    assert_eq!(facade.index(), 5);
    assert!(facade.device_connected());
}
