//! End-to-end runs of the session pipeline: discovery, registry, command
//! routing, filtering, disconnects and the keep-alive loop.

use buttplug::command_manager::GenericCommandManager;
use buttplug::device::{DeviceHandle, Endpoint};
use buttplug::messages::{
    ButtplugClientMessage, ButtplugDeviceMessageType, ButtplugServerMessage, MessageAttributes,
    MessageAttributesMap, StopDeviceCmd, VibrateCmd, VibrateSubcommand,
};
use buttplug::protocol::ear_haptics::EarHaptics;
use buttplug::protocol::switch_joycon::{JoyconVibrateAction, SwitchJoycon};
use buttplug::protocol::{HandlerAction, ProtocolHandler};
use buttplug::server_loop::{reply_after_write, ButtplugServer, ServerAction};

fn vibrate_attributes(feature_count: u32) -> MessageAttributesMap {
    let mut attributes = MessageAttributesMap::new();
    attributes.insert(
        ButtplugDeviceMessageType::VibrateCmd,
        MessageAttributes::new_with_features(feature_count),
    );
    attributes
}

fn ear_server(feature_count: u32) -> ButtplugServer {
    let mut server = ButtplugServer::new();
    let attributes = vibrate_attributes(feature_count);
    let handler = ProtocolHandler::EarHaptics(EarHaptics::new_protocol(
        "Ear1",
        attributes.duplicate(),
    ));
    let handle = DeviceHandle::new(
        "Ear1".to_string(),
        "HTTP Device 1".to_string(),
        vec![Endpoint::Tx],
    );
    let (index, added) = server.device_manager.add_device(handle, attributes, handler);
    assert_eq!(index, 0);
    match added {
        ButtplugServerMessage::DeviceAdded { id, device } => {
            assert_eq!(id, 0);
            assert_eq!(device.device_index, 0);
            assert_eq!(device.device_name, "Ear1");
        }
        other => panic!("expected DeviceAdded, got {:?}", other),
    }
    server
}

fn vibrate_message(id: u32, device_index: u32, speeds: Vec<(u32, u16)>) -> ButtplugClientMessage {
    let speeds = speeds
        .into_iter()
        .map(|(index, speed)| VibrateSubcommand::new(index, speed))
        .collect();
    ButtplugClientMessage::VibrateCmd(VibrateCmd {
        id,
        device_index,
        speeds,
    })
}

fn expect_writes(action: ServerAction) -> Vec<buttplug::device::DeviceWriteCmd> {
    match action {
        ServerAction::Device(_, HandlerAction::Writes(w)) => w,
        other => panic!("expected plain writes, got another action: {:?}", describe(&other)),
    }
}

fn describe(action: &ServerAction) -> &'static str {
    match action {
        ServerAction::ReplyOnly => "ReplyOnly",
        ServerAction::StartScanning => "StartScanning",
        ServerAction::StopScanning => "StopScanning",
        ServerAction::Device(_, _) => "Device",
        ServerAction::StopAll(_) => "StopAll",
    }
}

#[test]
fn happy_path_vibrate_writes_two_bytes() {
    let mut server = ear_server(2);
    let msg = vibrate_message(5, 0, vec![(0, 500), (1, 750)]);
    let (reply, action) = server.handle_client_message(&msg);
    match reply {
        ButtplugServerMessage::OkMsg(ok) => assert_eq!(ok.id, 5),
        other => panic!("expected Ok, got {:?}", other),
    }
    let writes = expect_writes(action);
    assert_eq!(writes.len(), 2);
    for write in &writes {
        assert_eq!(write.endpoint, Endpoint::Tx);
        assert!(!write.write_with_response);
        assert_eq!(write.data.len(), 1);
    }
    // 500 and 750 of 1000, quantized onto 0..=255.
    assert_eq!(writes[0].data[0], 127);
    assert_eq!(writes[1].data[0], 191);
}

#[test]
fn filtered_repeat_writes_nothing() {
    let mut server = ear_server(2);
    let first = vibrate_message(6, 0, vec![(0, 500), (1, 750)]);
    let (reply, action) = server.handle_client_message(&first);
    assert!(matches!(reply, ButtplugServerMessage::OkMsg(_)));
    assert_eq!(expect_writes(action).len(), 2);

    let again = vibrate_message(6, 0, vec![(0, 500), (1, 750)]);
    let (reply, action) = server.handle_client_message(&again);
    match reply {
        ButtplugServerMessage::OkMsg(ok) => assert_eq!(ok.id, 6),
        other => panic!("expected Ok, got {:?}", other),
    }
    assert_eq!(expect_writes(action).len(), 0);
}

#[test]
fn out_of_range_index_is_rejected_without_writes() {
    let mut server = ear_server(2);
    let msg = vibrate_message(7, 0, vec![(9, 500)]);
    let (reply, action) = server.handle_client_message(&msg);
    match reply {
        ButtplugServerMessage::Error(e) => {
            assert_eq!(e.id, 7);
            assert_eq!(e.error_code, 4);
            assert!(e.error_message.contains("Max vibrator index"));
        }
        other => panic!("expected Error, got {:?}", other),
    }
    assert_eq!(expect_writes(action).len(), 0);
}

#[test]
fn out_of_range_speed_is_rejected_without_writes() {
    let mut server = ear_server(2);
    let msg = vibrate_message(7, 0, vec![(0, 1500)]);
    let (reply, action) = server.handle_client_message(&msg);
    match reply {
        ButtplugServerMessage::Error(e) => {
            assert_eq!(e.id, 7);
            assert_eq!(e.error_code, 4);
        }
        other => panic!("expected Error, got {:?}", other),
    }
    assert_eq!(expect_writes(action).len(), 0);
}

#[test]
fn unknown_index_answers_device_not_found_and_registry_is_untouched() {
    let mut server = ear_server(2);
    let msg = vibrate_message(9, 42, vec![(0, 500)]);
    let (reply, action) = server.handle_client_message(&msg);
    match reply {
        ButtplugServerMessage::Error(e) => {
            assert_eq!(e.id, 9);
            assert_eq!(e.error_code, 4);
            assert!(e.error_message.contains("42"));
        }
        other => panic!("expected Error, got {:?}", other),
    }
    assert_eq!(expect_writes(action).len(), 0);
    // The registered device still answers afterwards.
    let msg = vibrate_message(10, 0, vec![(0, 500)]);
    let (reply, _) = server.handle_client_message(&msg);
    assert!(matches!(reply, ButtplugServerMessage::OkMsg(_)));
}

#[test]
fn disconnect_mid_command_fails_followups_and_removes_device() {
    let mut server = ear_server(2);
    let removed = server.handle_device_disconnected(0);
    match removed {
        Some(ButtplugServerMessage::DeviceRemoved { id, device_index }) => {
            assert_eq!(id, 0);
            assert_eq!(device_index, 0);
        }
        other => panic!("expected DeviceRemoved, got {:?}", other),
    }
    let msg = vibrate_message(8, 0, vec![(0, 500)]);
    let (reply, action) = server.handle_client_message(&msg);
    match reply {
        ButtplugServerMessage::Error(e) => {
            assert_eq!(e.id, 8);
            assert_eq!(e.error_code, 4);
        }
        other => panic!("expected Error, got {:?}", other),
    }
    assert_eq!(expect_writes(action).len(), 0);
    // A second disconnect of the same index reports nothing.
    assert!(server.handle_device_disconnected(0).is_none());
}

#[test]
fn transport_events_route_through_the_server() {
    let mut server = ear_server(1);
    let note = buttplug::device::ButtplugDeviceEvent::Notification {
        endpoint: Endpoint::Rx,
        data: vec![1, 2, 3],
    };
    assert!(server.handle_device_event(0, &note).is_none());
    let gone = buttplug::device::ButtplugDeviceEvent::Disconnected;
    match server.handle_device_event(0, &gone) {
        Some(ButtplugServerMessage::DeviceRemoved { id, device_index }) => {
            assert_eq!(id, 0);
            assert_eq!(device_index, 0);
        }
        other => panic!("expected DeviceRemoved, got {:?}", other),
    }
    assert!(server.handle_device_event(0, &gone).is_none());
}

#[test]
fn stop_all_on_client_disconnect_writes_stop_frame() {
    let mut server = ear_server(1);
    let msg = vibrate_message(3, 0, vec![(0, 500)]);
    let (_, action) = server.handle_client_message(&msg);
    assert_eq!(expect_writes(action).len(), 1);

    let actions = server.handle_client_disconnect();
    assert_eq!(actions.len(), 1);
    assert_eq!(actions[0].0, 0);
    match &actions[0].1 {
        HandlerAction::Writes(writes) => {
            assert_eq!(writes.len(), 1);
            assert_eq!(writes[0].endpoint, Endpoint::Tx);
            assert_eq!(writes[0].data, vec![0u8]);
        }
        _ => panic!("expected a stop write"),
    }
}

#[test]
fn stop_device_cmd_routes_through_the_filter() {
    let mut server = ear_server(2);
    let msg = vibrate_message(11, 0, vec![(0, 500), (1, 750)]);
    let (_, action) = server.handle_client_message(&msg);
    assert_eq!(expect_writes(action).len(), 2);

    let stop = ButtplugClientMessage::StopDeviceCmd(StopDeviceCmd {
        id: 12,
        device_index: 0,
    });
    let (reply, action) = server.handle_client_message(&stop);
    match reply {
        ButtplugServerMessage::OkMsg(ok) => assert_eq!(ok.id, 12),
        other => panic!("expected Ok, got {:?}", other),
    }
    let writes = expect_writes(action);
    assert_eq!(writes.len(), 2);
    assert_eq!(writes[0].data, vec![0u8]);
    assert_eq!(writes[1].data, vec![0u8]);
    // Stopping again changes nothing: the device is already at rest.
    let stop = ButtplugClientMessage::StopDeviceCmd(StopDeviceCmd {
        id: 13,
        device_index: 0,
    });
    let (_, action) = server.handle_client_message(&stop);
    assert_eq!(expect_writes(action).len(), 0);
}

#[test]
fn keep_alive_loop_repeats_amplitude_and_stops_once() {
    let attributes = vibrate_attributes(1);
    let mut joycon = SwitchJoycon::new_protocol("Joy-Con (L)", attributes);

    // Initialization turns vibration on through sub-command 72.
    let init = joycon.initialize();
    assert_eq!(init.endpoint, Endpoint::Tx);
    assert_eq!(init.data.len(), 64);
    assert_eq!(init.data[0], 1);
    assert_eq!(init.data[10], 72);
    assert_eq!(init.data[11], 1);

    // Speed 0.3 (300 of 1000) spawns the loop with the cell set.
    let cmd = VibrateCmd {
        id: 20,
        device_index: 0,
        speeds: vec![VibrateSubcommand::new(0, 300)],
    };
    match joycon.handle_vibrate_cmd(&cmd) {
        JoyconVibrateAction::SpawnLoop => {}
        _ => panic!("expected the loop to be spawned"),
    }

    // Two ticks inside 600 ms: two frames at amplitude 300.
    let mut frames = Vec::new();
    for _ in 0..2 {
        let write = joycon.keepalive_tick().expect("loop should be running");
        assert_eq!(write.endpoint, Endpoint::Tx);
        assert_eq!(write.data.len(), 64);
        frames.push(write);
    }
    assert_eq!(frames[0].data[1], 0);
    assert_eq!(frames[1].data[1], 1);
    for frame in &frames {
        assert_eq!(frame.data[0], 16);
        // Amplitude 300, big-endian, after the frequency marker, on both
        // sides.
        assert_eq!(&frame.data[2..6], &[0, 1, 1, 44]);
        assert_eq!(&frame.data[6..10], &[0, 1, 1, 44]);
    }

    // A running loop only updates the cell.
    let cmd = VibrateCmd {
        id: 21,
        device_index: 0,
        speeds: vec![VibrateSubcommand::new(0, 700)],
    };
    match joycon.handle_vibrate_cmd(&cmd) {
        JoyconVibrateAction::UpdateSpeed => {}
        _ => panic!("expected only the cell to change"),
    }
    let write = joycon.keepalive_tick().expect("loop still running");
    assert_eq!(&write.data[2..6], &[0, 1, 2, 188]);

    // Speed 0 stops: exactly one stop frame, then the loop exits.
    let cmd = VibrateCmd {
        id: 22,
        device_index: 0,
        speeds: vec![VibrateSubcommand::new(0, 0)],
    };
    match joycon.handle_vibrate_cmd(&cmd) {
        JoyconVibrateAction::WriteStop(write) => {
            assert_eq!(write.endpoint, Endpoint::Tx);
            assert_eq!(&write.data[2..6], &[0, 1, 0x40, 0x40]);
            assert_eq!(&write.data[6..10], &[0, 1, 0x40, 0x40]);
        }
        _ => panic!("expected a stop frame"),
    }
    assert!(joycon.keepalive_tick().is_none());
    assert!(joycon.keepalive_tick().is_none());
}

#[test]
fn device_indices_are_never_reused() {
    let mut server = ear_server(1);
    server.handle_device_disconnected(0);
    let attributes = vibrate_attributes(1);
    let handler =
        ProtocolHandler::EarHaptics(EarHaptics::new_protocol("Ear2", attributes.duplicate()));
    let handle = DeviceHandle::new(
        "Ear2".to_string(),
        "HTTP Device 2".to_string(),
        vec![Endpoint::Tx],
    );
    let (index, _) = server.device_manager.add_device(handle, attributes, handler);
    assert_eq!(index, 1);
}

#[test]
fn device_list_reflects_the_registry() {
    let server = ear_server(2);
    let reply = server.device_manager.device_list(17);
    match reply {
        ButtplugServerMessage::DeviceList { id, devices } => {
            assert_eq!(id, 17);
            assert_eq!(devices.len(), 1);
            assert_eq!(devices[0].device_name, "Ear1");
            assert_eq!(devices[0].device_index, 0);
        }
        other => panic!("expected DeviceList, got {:?}", other),
    }
}

#[test]
fn linear_and_rotate_are_unsupported_on_these_devices() {
    let mut server = ear_server(2);
    let msg = ButtplugClientMessage::RotateCmd(buttplug::messages::RotateCmd {
        id: 30,
        device_index: 0,
        rotations: vec![],
    });
    let (reply, _) = server.handle_client_message(&msg);
    match reply {
        ButtplugServerMessage::Error(e) => {
            assert_eq!(e.id, 30);
            assert_eq!(e.error_code, 4);
        }
        other => panic!("expected Error, got {:?}", other),
    }
}

#[test]
fn empty_vibrate_command_is_a_quiet_success() {
    let mut server = ear_server(2);
    let msg = vibrate_message(31, 0, vec![]);
    let (reply, action) = server.handle_client_message(&msg);
    assert!(matches!(reply, ButtplugServerMessage::OkMsg(_)));
    assert_eq!(expect_writes(action).len(), 0);
}

#[test]
fn stop_commands_cover_the_declared_features() {
    let attributes = vibrate_attributes(3);
    let manager = GenericCommandManager::new(&attributes);
    let commands = manager.get_stop_commands();
    assert_eq!(commands.len(), 1);
    match &commands[0] {
        buttplug::messages::ButtplugDeviceCommandMessageUnion::VibrateCmd(cmd) => {
            assert_eq!(cmd.speeds.len(), 3);
            for (i, sub) in cmd.speeds.iter().enumerate() {
                assert_eq!(sub.index, i as u32);
                assert_eq!(sub.speed, 0);
            }
        }
        _ => panic!("expected a vibrate stop command"),
    }
}

#[test]
fn handler_stop_set_covers_the_vibrators() {
    let attributes = vibrate_attributes(2);
    let handler = ProtocolHandler::EarHaptics(EarHaptics::new_protocol(
        "Ear1",
        attributes.duplicate(),
    ));
    let commands = handler.get_stop_commands();
    assert_eq!(commands.len(), 1);
    match &commands[0] {
        buttplug::messages::ButtplugDeviceCommandMessageUnion::VibrateCmd(cmd) => {
            assert_eq!(cmd.speeds.len(), 2);
            assert!(cmd.speeds.iter().all(|s| s.speed == 0));
        }
        _ => panic!("expected a vibrate stop command"),
    }
    let joycon = ProtocolHandler::SwitchJoycon(SwitchJoycon::new_protocol(
        "Joy-Con (R)",
        attributes,
    ));
    let commands = joycon.get_stop_commands();
    assert_eq!(commands.len(), 1);
}

#[test]
fn write_failures_turn_the_reply_into_a_device_error() {
    let ok = ButtplugServerMessage::OkMsg(buttplug::messages::OkMsg::new(14));
    let kept = reply_after_write(ok.clone(), None);
    assert_eq!(kept, ok);
    let failed = reply_after_write(ok, Some("Cannot write to HID Device."));
    match failed {
        ButtplugServerMessage::Error(e) => {
            assert_eq!(e.id, 14);
            assert_eq!(e.error_code, 4);
            assert_eq!(e.error_message, "Cannot write to HID Device.");
        }
        other => panic!("expected Error, got {:?}", other),
    }
}
