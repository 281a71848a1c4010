//! The two frame types that cross the air, as plain values.
//!
//! A control frame travels from the station to a robot; a status frame comes
//! back.  Velocities are carried as thousandths (the wire format multiplies
//! metres per second by 1000 and truncates to `i16`), so no floating point is
//! needed anywhere in the logic.

use vstd::prelude::*;

verus! {

/// The team the robots are on
#[derive(Clone, Copy, Debug, PartialEq, Eq, Structural)]
pub enum Team {
    /// Blue team (wire bit 0)
    Blue,
    /// Yellow team (wire bit 1)
    Yellow,
}

impl Team {
    /// The single bit that represents the team on the wire.
    pub open spec fn spec_bit(self) -> u8 {
        match self {
            Team::Blue => 0,
            Team::Yellow => 1,
        }
    }
}

/// A control command for one robot: the outbound frame, before encoding.
#[derive(Clone, Copy, Debug, PartialEq, Eq, Structural)]
pub struct ControlFrame {
    /// Team of the robot
    pub team: Team,
    /// Id of the robot; the wire format carries it in four bits
    pub robot_id: u8,
    /// Kicking mode: `false` kicks, `true` chips
    pub shoot_mode: bool,
    /// Trigger mode: 0 stand down, 1 immediate, 2 on break beam
    pub trigger_mode: u8,
    /// Body velocity along x, in thousandths
    pub body_x: i16,
    /// Body velocity along y, in thousandths
    pub body_y: i16,
    /// Body angular velocity, in thousandths
    pub body_w: i16,
    /// Speed of the dribbler
    pub dribbler_speed: i8,
    /// Strength of the kicker on kick
    pub kick_strength: u8,
    /// Role of the robot; the wire format carries it in two bits
    pub role: u8,
    /// Execution mode of the robot; the wire format carries it in six bits,
    /// and only values up to 7 name a mode
    pub mode: u8,
}

impl ControlFrame {
    /// The fields fit the widths the wire format gives them, so that a frame
    /// survives encoding unchanged.
    pub open spec fn wf(self) -> bool {
        &&& self.robot_id < 16
        &&& self.trigger_mode < 3
        &&& self.role < 4
        &&& self.mode < 8
    }

    /// The same frame with the team replaced: the station stamps its own
    /// team on every outbound frame.
    pub open spec fn spec_with_team(self, team: Team) -> ControlFrame {
        ControlFrame { team, ..self }
    }

    /// The same frame with the team replaced: the station stamps its own
    /// team on every outbound frame.
    pub fn with_team(self, team: Team) -> (r: ControlFrame)
        ensures
            r == self.spec_with_team(team),
    {
        ControlFrame { team, ..self }
    }

    /// The neutral frame sent to a robot that is marked dead and has no
    /// fresh command: zero velocities, kicker standing down.
    pub open spec fn spec_keep_alive(team: Team, robot_id: u8) -> ControlFrame {
        ControlFrame {
            team,
            robot_id,
            shoot_mode: false,
            trigger_mode: 0,
            body_x: 0,
            body_y: 0,
            body_w: 0,
            dribbler_speed: 0,
            kick_strength: 0,
            role: 0,
            mode: 0,
        }
    }

    /// The neutral frame sent to a robot that is marked dead and has no
    /// fresh command: zero velocities, kicker standing down.
    pub fn keep_alive(team: Team, robot_id: u8) -> (r: ControlFrame)
        requires
            robot_id < 16,
        ensures
            r == Self::spec_keep_alive(team, robot_id),
            r.wf(),
    {
        ControlFrame {
            team,
            robot_id,
            shoot_mode: false,
            trigger_mode: 0,
            body_x: 0,
            body_y: 0,
            body_w: 0,
            dribbler_speed: 0,
            kick_strength: 0,
            role: 0,
            mode: 0,
        }
    }
}

/// A status report from one robot: the inbound frame, after decoding.
#[derive(Clone, Copy, Debug, PartialEq, Eq, Structural)]
pub struct StatusFrame {
    /// Team of the robot
    pub team: Team,
    /// Id of the robot; the wire format carries it in four bits
    pub robot_id: u8,
    /// True if the robot currently senses the ball
    pub ball_sense_status: bool,
    /// Status of the kicker
    pub kick_status: bool,
    /// Health of the kicker
    pub kick_healthy: bool,
    /// Raw battery reading from the robot's ADC
    pub battery_voltage: u8,
    /// Error mask of the motors; the wire format carries it in five bits
    pub motor_errors: u8,
    /// Status of the FPGA
    pub fpga_status: bool,
}

impl StatusFrame {
    /// The fields fit the widths the wire format gives them.
    pub open spec fn wf(self) -> bool {
        &&& self.robot_id < 16
        &&& self.motor_errors < 32
    }
}

} // verus!
