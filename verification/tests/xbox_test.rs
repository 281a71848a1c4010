//! The gamepad report parser and its command mapping.

use robocup_base_station::messages::Team;
use robocup_base_station::xbox::{
    XboxControlCommand, MAX_BODY_VELOCITY, MAX_TURN_VELOCITY, XPAD_PACKET_LENGTH,
};

fn packet_with(offsets: &[usize]) -> Vec<u8> {
    let mut packet = vec![0u8; XPAD_PACKET_LENGTH];
    for &o in offsets {
        packet[o] = 1;
    }
    packet
}

#[test]
fn parser_reads_the_fixed_offsets() {
    let packet = packet_with(&[4, 20, 36, 100]);
    let cmd = XboxControlCommand::from_packet(&packet);
    assert!(cmd.a);
    assert!(!cmd.b);
    assert!(cmd.x);
    assert!(!cmd.y);
    assert!(cmd.left_shoulder);
    assert!(!cmd.right_shoulder);
    assert!(cmd.dpad_right);
    assert!(!cmd.dpad_left && !cmd.dpad_up && !cmd.dpad_down);
    assert!(!cmd.start && !cmd.select && !cmd.xbox_button);
}

#[test]
fn idle_packet_parses_to_no_buttons() {
    let cmd = XboxControlCommand::from_packet(&packet_with(&[]));
    assert!(!cmd.a && !cmd.b && !cmd.x && !cmd.y);
    assert_eq!(cmd.lstick_x, 0);
    assert_eq!(cmd.rstick_y, 0);
}

#[test]
fn dpad_right_commands_full_body_x() {
    let packet = packet_with(&[100]);
    let cmd = XboxControlCommand::from_packet(&packet);
    let frame = cmd.manual_frame(Team::Blue, 0);
    assert_eq!(frame.body_x, MAX_BODY_VELOCITY);
    assert_eq!(frame.body_y, 0);
    assert_eq!(frame.body_w, 0);
    assert_eq!(frame.team, Team::Blue);
    assert_eq!(frame.robot_id, 0);
}

#[test]
fn dpad_and_shoulders_map_to_signed_velocities() {
    let cmd = XboxControlCommand::from_packet(&packet_with(&[92, 116, 44]));
    let frame = cmd.manual_frame(Team::Yellow, 1);
    assert_eq!(frame.body_x, -MAX_BODY_VELOCITY);
    assert_eq!(frame.body_y, -MAX_BODY_VELOCITY);
    assert_eq!(frame.body_w, -MAX_TURN_VELOCITY);
    assert_eq!(frame.robot_id, 1);
}

#[test]
fn buttons_drive_dribbler_and_kicker() {
    let cmd = XboxControlCommand::from_packet(&packet_with(&[4, 20]));
    let frame = cmd.manual_frame(Team::Blue, 0);
    assert_eq!(frame.dribbler_speed, 1);
    assert_eq!(frame.kick_strength, 1);
    // X triggers the kicker immediately.
    assert_eq!(frame.trigger_mode, 1);

    let idle = XboxControlCommand::from_packet(&packet_with(&[]));
    let frame = idle.manual_frame(Team::Blue, 0);
    assert_eq!(frame.dribbler_speed, 0);
    assert_eq!(frame.kick_strength, 0);
    assert_eq!(frame.trigger_mode, 0);
}
