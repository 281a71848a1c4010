//! The round scheduler: arbitration, rounds, and the reply window.

use robocup_base_station::messages::{ControlFrame, StatusFrame, Team};
use robocup_base_station::scheduler::{process_replies, process_reply, RadioScheduler};

fn net_frame(robot_id: u8, body_y: i16) -> ControlFrame {
    ControlFrame {
        team: Team::Blue,
        robot_id,
        shoot_mode: false,
        trigger_mode: 0,
        body_x: 0,
        body_y,
        body_w: 0,
        dribbler_speed: 0,
        kick_strength: 0,
        role: 0,
        mode: 0,
    }
}

fn status(robot_id: u8, battery_voltage: u8) -> StatusFrame {
    StatusFrame {
        team: Team::Blue,
        robot_id,
        ball_sense_status: false,
        kick_status: false,
        kick_healthy: true,
        battery_voltage,
        motor_errors: 0,
        fpga_status: true,
    }
}

#[test]
fn network_command_is_transmitted_at_its_slot() {
    let mut sched = RadioScheduler::new(Team::Blue, 2);
    sched.submit_network(net_frame(0, 1000));

    // Slot 0 carries the command; the cursor then moves on.
    let selected = sched.select_command().expect("slot 0 has a command");
    assert_eq!(selected, net_frame(0, 1000));
    assert!(!sched.advance());

    // Slot 1 has no command and the robot is presumed alive: skip.
    assert!(sched.select_command().is_none());
    assert!(sched.advance());
}

#[test]
fn every_transmitted_frame_carries_the_configured_team() {
    let mut sched = RadioScheduler::new(Team::Yellow, 3);
    // The field computer claims team Blue; the station stamps Yellow.
    sched.submit_network(net_frame(1, 250));
    sched.set_alive_mask(0x0000);
    for (robot, action) in sched.round_actions().iter().enumerate() {
        let frame = action.expect("all-dead fleet: every slot transmits");
        assert_eq!(frame.team, Team::Yellow);
        assert_eq!(frame.robot_id as usize, robot);
    }
}

#[test]
fn one_round_visits_each_robot_once() {
    let mut sched = RadioScheduler::new(Team::Blue, 4);
    sched.set_alive_mask(0x0000);
    let actions = sched.round_actions();
    assert_eq!(actions.len(), 4);
    for (robot, action) in actions.iter().enumerate() {
        assert_eq!(action.unwrap().robot_id as usize, robot);
    }
    // Walking the cursor a full round wraps exactly at the end.
    for slot in 0..4u8 {
        assert_eq!(sched.cursor, slot);
        let wrapped = sched.advance();
        assert_eq!(wrapped, slot == 3);
    }
    assert_eq!(sched.cursor, 0);
}

#[test]
fn manual_command_overrides_network() {
    let mut sched = RadioScheduler::new(Team::Blue, 3);
    let mut manual = net_frame(0, 0);
    manual.body_x = 1000;
    let mut network = net_frame(0, 0);
    network.body_x = 0;
    sched.submit_network(network);
    sched.submit_manual(manual);
    sched.submit_network(net_frame(2, 42));

    let actions = sched.round_actions();
    // Robot 0 gets the manual command, full speed.
    assert_eq!(actions[0].unwrap().body_x, 1000);
    // Robot 2's network command continues to flow unchanged.
    assert_eq!(actions[2].unwrap(), net_frame(2, 42));
}

#[test]
fn replayed_datagram_causes_one_transmission() {
    let mut once = RadioScheduler::new(Team::Blue, 2);
    once.submit_network(net_frame(0, 500));
    let mut twice = RadioScheduler::new(Team::Blue, 2);
    twice.submit_network(net_frame(0, 500));
    twice.submit_network(net_frame(0, 500));

    // The store is overwrite-in-place: the replay leaves it identical, and
    // the round transmits exactly one frame for robot 0.
    assert_eq!(once.round_actions(), twice.round_actions());
    let transmissions: Vec<ControlFrame> = twice.round_actions().into_iter().flatten().collect();
    assert_eq!(transmissions, vec![net_frame(0, 500)]);
}

#[test]
fn newer_command_replaces_older() {
    let mut sched = RadioScheduler::new(Team::Blue, 2);
    sched.submit_network(net_frame(0, 100));
    sched.submit_network(net_frame(0, 200));
    assert_eq!(sched.select_command().unwrap(), net_frame(0, 200));
}

#[test]
fn empty_fleet_idles_without_touching_the_radio() {
    let sched = RadioScheduler::new(Team::Blue, 0);
    assert_eq!(sched.round_actions().len(), 0);
}

#[test]
fn dead_fleet_with_no_commands_gets_keep_alives() {
    let mut sched = RadioScheduler::new(Team::Blue, 3);
    sched.set_alive_mask(0x0000);
    for (robot, action) in sched.round_actions().iter().enumerate() {
        let frame = action.expect("dead robot gets a keep-alive every slot");
        assert_eq!(frame, ControlFrame::keep_alive(Team::Blue, robot as u8));
    }
}

#[test]
fn alive_fleet_with_no_commands_is_skipped() {
    let sched = RadioScheduler::new(Team::Blue, 3);
    // The fresh scheduler presumes everyone alive: nothing to send.
    assert!(sched.round_actions().iter().all(|a| a.is_none()));
}

#[test]
fn commands_for_robots_outside_the_fleet_are_ignored() {
    let mut sched = RadioScheduler::new(Team::Blue, 2);
    sched.submit_network(net_frame(5, 900));
    sched.set_alive_mask(0xFFFF);
    assert!(sched.round_actions().iter().all(|a| a.is_none()));
}

#[test]
fn out_of_order_reply_is_forwarded_and_credited_to_its_sender() {
    // Polling robot 1, a late reply from robot 0 arrives first.
    let arrivals = vec![status(0, 9), status(1, 8)];
    let outcome = process_replies(1, &arrivals);
    assert_eq!(outcome.heard, vec![0, 1]);
    assert!(outcome.matched);

    // The late reply alone does not end the wait for robot 1.
    let only_late = vec![status(0, 9)];
    let outcome = process_replies(1, &only_late);
    assert_eq!(outcome.heard, vec![0]);
    assert!(!outcome.matched);

    assert!(!process_reply(1, &status(0, 9)));
    assert!(process_reply(1, &status(1, 9)));
}

#[test]
fn zero_reply_budget_forwards_nothing() {
    // With a zero reply window no frame arrives: nothing is forwarded and
    // the slot counts as "no reply".
    let outcome = process_replies(0, &Vec::new());
    assert!(outcome.heard.is_empty());
    assert!(!outcome.matched);
}
