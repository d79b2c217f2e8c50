//! The generic command manager: dedup of repeated values, forced sends,
//! and the recorded state tracking what was issued.

use buttplug::command_manager::GenericCommandManager;
use buttplug::messages::{
    ButtplugDeviceMessageType, MessageAttributes, MessageAttributesMap, RotateCmd,
    RotationSubcommand, VibrateCmd, VibrateSubcommand, LinearCmd, VectorSubcommand,
};

fn attributes(vibrate: u32, rotate: u32, linear: u32) -> MessageAttributesMap {
    let mut map = MessageAttributesMap::new();
    if vibrate > 0 {
        map.insert(
            ButtplugDeviceMessageType::VibrateCmd,
            MessageAttributes::new_with_features(vibrate),
        );
    }
    if rotate > 0 {
        map.insert(
            ButtplugDeviceMessageType::RotateCmd,
            MessageAttributes::new_with_features(rotate),
        );
    }
    if linear > 0 {
        map.insert(
            ButtplugDeviceMessageType::LinearCmd,
            MessageAttributes::new_with_features(linear),
        );
    }
    map
}

fn vibrate(speeds: Vec<(u32, u16)>) -> VibrateCmd {
    VibrateCmd::new(
        0,
        speeds
            .into_iter()
            .map(|(i, s)| VibrateSubcommand::new(i, s))
            .collect(),
    )
}

#[test]
fn first_command_passes_second_identical_is_filtered() {
    let mut manager = GenericCommandManager::new(&attributes(2, 0, 0));
    let msg = vibrate(vec![(0, 500), (1, 750)]);
    let first = manager.update_vibration(&msg, false).expect("first must write");
    assert_eq!(first, vec![Some(500), Some(750)]);
    assert!(manager.update_vibration(&msg, false).is_none());
    assert!(manager.update_vibration(&msg, false).is_none());
}

#[test]
fn force_send_overrides_the_filter() {
    let mut manager = GenericCommandManager::new(&attributes(2, 0, 0));
    let msg = vibrate(vec![(0, 500), (1, 750)]);
    assert!(manager.update_vibration(&msg, false).is_some());
    let forced = manager.update_vibration(&msg, true).expect("forced send");
    assert_eq!(forced, vec![Some(500), Some(750)]);
}

#[test]
fn partial_change_writes_only_the_changed_feature() {
    let mut manager = GenericCommandManager::new(&attributes(2, 0, 0));
    assert!(manager
        .update_vibration(&vibrate(vec![(0, 500), (1, 750)]), false)
        .is_some());
    let second = manager
        .update_vibration(&vibrate(vec![(0, 500), (1, 400)]), false)
        .expect("one feature changed");
    assert_eq!(second, vec![None, Some(400)]);
}

#[test]
fn missing_indices_stay_unchanged() {
    let mut manager = GenericCommandManager::new(&attributes(2, 0, 0));
    let first = manager
        .update_vibration(&vibrate(vec![(1, 750)]), false)
        .expect("feature 1 changed");
    assert_eq!(first, vec![None, Some(750)]);
    // Feature 0 was never addressed and stays at rest: setting it to rest
    // explicitly changes nothing.
    assert!(manager
        .update_vibration(&vibrate(vec![(0, 0), (1, 750)]), false)
        .is_none());
}

#[test]
fn zero_is_filtered_at_start_because_rest_is_the_initial_state() {
    let mut manager = GenericCommandManager::new(&attributes(1, 0, 0));
    assert!(manager.update_vibration(&vibrate(vec![(0, 0)]), false).is_none());
}

#[test]
fn rotation_compares_speed_and_direction() {
    let mut manager = GenericCommandManager::new(&attributes(0, 1, 0));
    let clockwise = RotateCmd::new(0, vec![RotationSubcommand::new(0, 500, true)]);
    let counter = RotateCmd::new(0, vec![RotationSubcommand::new(0, 500, false)]);
    assert!(manager.update_rotation(&clockwise, false).is_some());
    assert!(manager.update_rotation(&clockwise, false).is_none());
    // Same speed, flipped direction: that is a change.
    let change = manager.update_rotation(&counter, false).expect("direction change");
    assert_eq!(change.len(), 1);
    let value = change[0].expect("the one feature changed");
    assert_eq!(value.speed, 500);
    assert!(!value.clockwise);
}

#[test]
fn linear_compares_duration_and_position() {
    let mut manager = GenericCommandManager::new(&attributes(0, 0, 1));
    let first = LinearCmd::new(0, vec![VectorSubcommand::new(0, 500, 300)]);
    assert!(manager.update_linear(&first, false).is_some());
    assert!(manager.update_linear(&first, false).is_none());
    // Same position over a different duration is still a new move.
    let second = LinearCmd::new(0, vec![VectorSubcommand::new(0, 900, 300)]);
    assert!(manager.update_linear(&second, false).is_some());
}

#[test]
fn later_duplicate_subcommands_win() {
    let mut manager = GenericCommandManager::new(&attributes(1, 0, 0));
    let msg = vibrate(vec![(0, 300), (0, 800)]);
    let first = manager.update_vibration(&msg, false).expect("must write");
    assert_eq!(first, vec![Some(800)]);
}
