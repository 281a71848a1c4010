//! The gamepad command source.
//!
//! A connected controller delivers a fixed 120-byte report; the parser
//! reads the button and pad states out of it, and the mapping turns them
//! into a control frame for one of the manually driven robots.  Reading the
//! device is the caller's business: an absent device means "no manual input
//! this tick", not a zero-velocity command.

use vstd::prelude::*;

use crate::messages::{ControlFrame, Team};

verus! {

/// The length of one controller report in bytes
pub const XPAD_PACKET_LENGTH: usize = 120;

/// The largest commanded body velocity, in thousandths (the wire format's
/// unit): one metre per second.
pub const MAX_BODY_VELOCITY: i16 = 1000;

/// The largest commanded turn velocity, in thousandths: four radians per
/// second.
pub const MAX_TURN_VELOCITY: i16 = 4000;

/// The state of one controller, read out of a report.
#[derive(Clone, Copy, Debug, PartialEq, Eq, Structural)]
pub struct XboxControlCommand {
    /// The A button
    pub a: bool,
    /// The B button
    pub b: bool,
    /// The X button
    pub x: bool,
    /// The Y button
    pub y: bool,
    /// The start button
    pub start: bool,
    /// The select button
    pub select: bool,
    /// The central button
    pub xbox_button: bool,
    /// The left shoulder button
    pub left_shoulder: bool,
    /// The right shoulder button
    pub right_shoulder: bool,
    /// The left trigger; the report carries no state for it
    pub left_trigger: bool,
    /// The right trigger; the report carries no state for it
    pub right_trigger: bool,
    /// The left stick, x axis; the report carries no state for it
    pub lstick_x: i8,
    /// The left stick, y axis; the report carries no state for it
    pub lstick_y: i8,
    /// The right stick, x axis; the report carries no state for it
    pub rstick_x: i8,
    /// The right stick, y axis; the report carries no state for it
    pub rstick_y: i8,
    /// The pad, up
    pub dpad_up: bool,
    /// The pad, right
    pub dpad_right: bool,
    /// The pad, down
    pub dpad_down: bool,
    /// The pad, left
    pub dpad_left: bool,
}

impl XboxControlCommand {
    /// Read the button and pad states out of one 120-byte controller
    /// report: each control sits at a fixed offset and is pressed when the
    /// byte there is one.
    pub fn from_packet(packet: &Vec<u8>) -> (r: XboxControlCommand)
        requires
            packet@.len() == XPAD_PACKET_LENGTH,
        ensures
            r.a == (packet@[4] == 1),
            r.b == (packet@[12] == 1),
            r.x == (packet@[20] == 1),
            r.y == (packet@[28] == 1),
            r.start == (packet@[60] == 1),
            r.select == (packet@[52] == 1),
            r.xbox_button == (packet@[68] == 1),
            r.left_shoulder == (packet@[36] == 1),
            r.right_shoulder == (packet@[44] == 1),
            r.left_trigger == false,
            r.right_trigger == false,
            r.lstick_x == 0 && r.lstick_y == 0 && r.rstick_x == 0 && r.rstick_y == 0,
            r.dpad_up == (packet@[108] == 1),
            r.dpad_right == (packet@[100] == 1),
            r.dpad_down == (packet@[116] == 1),
            r.dpad_left == (packet@[92] == 1),
    {
        XboxControlCommand {
            a: packet[4] == 1,
            b: packet[12] == 1,
            x: packet[20] == 1,
            y: packet[28] == 1,
            start: packet[60] == 1,
            select: packet[52] == 1,
            xbox_button: packet[68] == 1,
            left_shoulder: packet[36] == 1,
            right_shoulder: packet[44] == 1,
            left_trigger: false,
            right_trigger: false,
            lstick_x: 0,
            lstick_y: 0,
            rstick_x: 0,
            rstick_y: 0,
            dpad_up: packet[108] == 1,
            dpad_right: packet[100] == 1,
            dpad_down: packet[116] == 1,
            dpad_left: packet[92] == 1,
        }
    }

    /// The control frame this controller state commands for one robot: the
    /// pad drives the body, the shoulders turn, A runs the dribbler, and X
    /// charges and immediately triggers the kicker.
    pub fn manual_frame(&self, team: Team, robot_id: u8) -> (r: ControlFrame)
        requires
            robot_id < 16,
        ensures
            r.wf(),
            r.team == team,
            r.robot_id == robot_id,
            r.body_x as int == if self.dpad_right {
                MAX_BODY_VELOCITY as int
            } else if self.dpad_left {
                -(MAX_BODY_VELOCITY as int)
            } else {
                0
            },
            r.body_y as int == if self.dpad_up {
                MAX_BODY_VELOCITY as int
            } else if self.dpad_down {
                -(MAX_BODY_VELOCITY as int)
            } else {
                0
            },
            r.body_w as int == if self.left_shoulder {
                MAX_TURN_VELOCITY as int
            } else if self.right_shoulder {
                -(MAX_TURN_VELOCITY as int)
            } else {
                0
            },
            r.dribbler_speed == if self.a {
                1i8
            } else {
                0i8
            },
            r.kick_strength == if self.x {
                1u8
            } else {
                0u8
            },
            r.trigger_mode == if self.x {
                1u8
            } else {
                0u8
            },
            r.shoot_mode == false,
            r.role == 0,
            r.mode == 0,
    {
        ControlFrame {
            team,
            robot_id,
            shoot_mode: false,
            trigger_mode: if self.x {
                1
            } else {
                0
            },
            body_x: if self.dpad_right {
                MAX_BODY_VELOCITY
            } else if self.dpad_left {
                -MAX_BODY_VELOCITY
            } else {
                0
            },
            body_y: if self.dpad_up {
                MAX_BODY_VELOCITY
            } else if self.dpad_down {
                -MAX_BODY_VELOCITY
            } else {
                0
            },
            body_w: if self.left_shoulder {
                MAX_TURN_VELOCITY
            } else if self.right_shoulder {
                -MAX_TURN_VELOCITY
            } else {
                0
            },
            dribbler_speed: if self.a {
                1
            } else {
                0
            },
            kick_strength: if self.x {
                1
            } else {
                0
            },
            role: 0,
            mode: 0,
        }
    }
}

} // verus!
