//! The liveness aggregator and the aliveness datagram.

use robocup_base_station::timeout_checker::{AliveRobotsMessage, TimeoutChecker};

#[test]
fn heard_robot_is_alive_unheard_robot_is_dead() {
    let mut checker = TimeoutChecker::new(2, 100);
    checker.record_heard(0, 1_000);
    // 100 us later, robot 0 is within the timeout; robot 1 was never heard.
    let mask = checker.tick(1_100);
    assert_eq!(mask, 0x0001);
}

#[test]
fn silent_robot_flips_dead_after_the_timeout() {
    let mut checker = TimeoutChecker::new(1, 100);
    checker.record_heard(0, 1_000);
    assert_eq!(checker.tick(1_100), 0x0001);
    // One more tick period with no news: the bit clears.
    assert_eq!(checker.tick(1_201), 0x0000);
    // Hearing from it again revives the bit.
    checker.record_heard(0, 1_250);
    assert_eq!(checker.tick(1_300), 0x0001);
}

#[test]
fn first_tick_corrects_the_optimistic_start() {
    let mut checker = TimeoutChecker::new(3, 500);
    // Construction presumes everybody alive...
    assert!(checker.alive.iter().all(|a| *a));
    // ...and the first tick marks the never-heard robots dead.
    assert_eq!(checker.tick(10_000), 0x0000);
}

#[test]
fn mask_only_covers_the_fleet() {
    let mut checker = TimeoutChecker::new(2, 100);
    // A status frame claiming a robot outside the fleet is ignored.
    checker.record_heard(7, 1_000);
    assert_eq!(checker.tick(1_050), 0x0000);
}

#[test]
fn alive_datagram_is_two_bytes_little_endian() {
    // Bit i, LSB first, corresponds to robot i: robot 0 sits in the lowest
    // bit of the first byte, robot 8 in the lowest bit of the second.
    assert_eq!(AliveRobotsMessage::len(), 2);
    assert_eq!(AliveRobotsMessage::from_mask(0x0001).pack(), vec![0x01, 0x00]);
    assert_eq!(AliveRobotsMessage::from_mask(0x0100).pack(), vec![0x00, 0x01]);
    assert_eq!(AliveRobotsMessage::from_mask(0x8001).pack(), vec![0x01, 0x80]);
    assert_eq!(AliveRobotsMessage::from_mask(0xA5C3).pack(), vec![0xC3, 0xA5]);
}

#[test]
fn alive_datagram_round_trips() {
    let packed = AliveRobotsMessage::from_mask(0x5AA5).pack();
    let unpacked = AliveRobotsMessage::unpack(&packed).unwrap();
    assert_eq!(unpacked.mask(), 0x5AA5);
}

#[test]
fn alive_datagram_unpack_rejects_short_input() {
    assert!(AliveRobotsMessage::unpack(&vec![0x01]).is_err());
}

#[test]
fn shutdown_publishes_all_dead() {
    let mut checker = TimeoutChecker::new(4, 100);
    checker.record_heard(0, 1_000);
    checker.tick(1_001);
    // Whatever the state, the final publish fails closed: all zero.
    let mask = checker.shutdown();
    assert_eq!(mask, 0x0000);
    assert_eq!(AliveRobotsMessage::from_mask(mask).pack(), vec![0x00, 0x00]);
}
