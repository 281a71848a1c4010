//! Encoding and decoding of the on-wire frames.
//!
//! The byte layout is fixed by the `robojackets-robocup-rtp` crate; the
//! station calls that crate to pack and unpack and does not reimplement the
//! format.  The spec functions below state the layout byte by byte, exactly
//! as that crate's `pack` and `unpack` compute it, so that everything built
//! on top — including the encode/decode round trip — is proved against the
//! stated layout.

use vstd::prelude::*;

use crate::messages::{ControlFrame, StatusFrame, Team};

use ncomm_utils::packing::Packable;
use robojackets_robocup_rtp::control_message::{Mode, ShootMode, TriggerMode};
use robojackets_robocup_rtp::Team as WireTeam;
use robojackets_robocup_rtp::{ControlMessage, RobotStatusMessage};

verus! {

/// The length in bytes of an encoded control frame
pub const CONTROL_FRAME_SIZE: usize = 10;

/// The length in bytes of an encoded status frame
pub const STATUS_FRAME_SIZE: usize = 3;

/// A frame could not be decoded from the bytes at hand.
#[derive(Clone, Copy, Debug, PartialEq, Eq, Structural)]
pub enum CodecError {
    /// The byte slice is shorter than the frame it should hold
    InvalidBufferSize,
}

/// One bit as a byte
pub open spec fn bool_bit(b: bool) -> u8 {
    if b {
        1
    } else {
        0
    }
}

/// The low byte of a little-endian `i16`
pub open spec fn lo_byte(x: i16) -> u8 {
    (x & 0xFF) as u8
}

/// The high byte of a little-endian `i16`
pub open spec fn hi_byte(x: i16) -> u8 {
    ((x >> 8) & 0xFF) as u8
}

/// The `i16` read back from its two little-endian bytes
pub open spec fn i16_from_bytes(lo: u8, hi: u8) -> i16 {
    (((hi as u16) << 8) | (lo as u16)) as i16
}

/// The first byte of an encoded control frame: team bit, robot id,
/// shoot mode and trigger mode packed together
pub open spec fn control_byte0(f: ControlFrame) -> u8 {
    ((f.team.spec_bit() & 1) << 7) | ((f.robot_id & 0xF) << 3) | ((bool_bit(f.shoot_mode) & 1)
        << 2) | (f.trigger_mode & 3)
}

/// The last byte of an encoded control frame: role and mode packed together
pub open spec fn control_byte9(f: ControlFrame) -> u8 {
    ((f.role & 3) << 6) | f.mode
}

/// The ten bytes of an encoded control frame, in wire order
pub open spec fn control_bytes(f: ControlFrame) -> Seq<u8> {
    seq![
        control_byte0(f),
        lo_byte(f.body_x),
        hi_byte(f.body_x),
        lo_byte(f.body_y),
        hi_byte(f.body_y),
        lo_byte(f.body_w),
        hi_byte(f.body_w),
        f.dribbler_speed as u8,
        f.kick_strength,
        control_byte9(f),
    ]
}

/// The control frame read back from at least ten bytes of wire data
pub open spec fn decoded_control(b: Seq<u8>) -> ControlFrame
    recommends
        b.len() >= CONTROL_FRAME_SIZE,
{
    ControlFrame {
        team: if b[0] & (1u8 << 7) == 0 {
            Team::Blue
        } else {
            Team::Yellow
        },
        robot_id: (b[0] & (0xFu8 << 3)) >> 3,
        shoot_mode: b[0] & (1u8 << 2) != 0,
        trigger_mode: if b[0] & 3 == 1 || b[0] & 3 == 2 {
            b[0] & 3
        } else {
            0
        },
        body_x: i16_from_bytes(b[1], b[2]),
        body_y: i16_from_bytes(b[3], b[4]),
        body_w: i16_from_bytes(b[5], b[6]),
        dribbler_speed: b[7] as i8,
        kick_strength: b[8],
        role: (b[9] & (3u8 << 6)) >> 6,
        mode: if b[9] & 0x3F < 8 {
            b[9] & 0x3F
        } else {
            0
        },
    }
}

/// The three bytes of an encoded status frame, in wire order
pub open spec fn status_bytes(s: StatusFrame) -> Seq<u8> {
    seq![
        ((s.team.spec_bit()) << 7) | ((s.robot_id & 0xF) << 3) | (bool_bit(s.ball_sense_status)
            << 2) | (bool_bit(s.kick_status) << 1) | bool_bit(s.kick_healthy),
        s.battery_voltage,
        ((s.motor_errors & 0x1F) << 3) | (bool_bit(s.fpga_status) << 2),
    ]
}

/// The status frame read back from at least three bytes of wire data
pub open spec fn decoded_status(b: Seq<u8>) -> StatusFrame
    recommends
        b.len() >= STATUS_FRAME_SIZE,
{
    StatusFrame {
        team: if b[0] & (1u8 << 7) == 0 {
            Team::Blue
        } else {
            Team::Yellow
        },
        robot_id: (b[0] & (0xFu8 << 3)) >> 3,
        ball_sense_status: b[0] & (1u8 << 2) != 0,
        kick_status: b[0] & (1u8 << 1) != 0,
        kick_healthy: b[0] & 1 != 0,
        battery_voltage: b[1],
        motor_errors: (b[2] & (0x1Fu8 << 3)) >> 3,
        fpga_status: b[2] & (1u8 << 2) != 0,
    }
}

/// Relies on `robojackets_robocup_rtp::ControlMessage::pack`: it writes the
/// ten bytes stated by `control_bytes` (team, id, shoot and trigger in the
/// first byte; the three velocities little-endian; dribbler, kick strength;
/// role and mode in the last byte) and cannot fail on a ten-byte buffer.
#[verifier::external_body]
pub fn encode_control(frame: &ControlFrame) -> (r: Vec<u8>)
    requires
        frame.wf(),
    ensures
        r@ == control_bytes(*frame),
{
    let trigger_mode = match frame.trigger_mode {
        1 => TriggerMode::Immediate, 2 => TriggerMode::OnBreakBeam, _ => TriggerMode::StandDown,
    };
    let msg = ControlMessage {
        team: if matches!(frame.team, Team::Yellow) { WireTeam::Yellow } else { WireTeam::Blue },
        robot_id: frame.robot_id, trigger_mode, mode: Mode::from(frame.mode),
        shoot_mode: if frame.shoot_mode { ShootMode::Chip } else { ShootMode::Kick },
        body_x: frame.body_x, body_y: frame.body_y, body_w: frame.body_w,
        dribbler_speed: frame.dribbler_speed, kick_strength: frame.kick_strength, role: frame.role,
    };
    let mut buffer = vec![0u8; CONTROL_FRAME_SIZE];
    msg.pack(&mut buffer).unwrap();
    buffer
}

/// Relies on `robojackets_robocup_rtp::ControlMessage::unpack`: it reads the
/// fields stated by `decoded_control` from the first ten bytes and fails
/// exactly when fewer bytes are given.
#[verifier::external_body]
pub fn decode_control(data: &Vec<u8>) -> (r: Result<ControlFrame, CodecError>)
    ensures
        data@.len() >= CONTROL_FRAME_SIZE ==> r is Ok && r->Ok_0 == decoded_control(data@),
        data@.len() < CONTROL_FRAME_SIZE ==> r is Err && r->Err_0 == CodecError::InvalidBufferSize,
{
    match ControlMessage::unpack(data) {
        Ok(m) => Ok(ControlFrame {
            team: if matches!(m.team, WireTeam::Yellow) { Team::Yellow } else { Team::Blue },
            robot_id: m.robot_id, shoot_mode: matches!(m.shoot_mode, ShootMode::Chip),
            trigger_mode: m.trigger_mode as u8, body_x: m.body_x, body_y: m.body_y,
            body_w: m.body_w, dribbler_speed: m.dribbler_speed, kick_strength: m.kick_strength,
            role: m.role, mode: m.mode as u8,
        }),
        Err(_) => Err(CodecError::InvalidBufferSize),
    }
}

/// Relies on `robojackets_robocup_rtp::RobotStatusMessage::pack`: it writes
/// the three bytes stated by `status_bytes` and cannot fail on a three-byte
/// buffer.
#[verifier::external_body]
pub fn encode_status(frame: &StatusFrame) -> (r: Vec<u8>)
    requires
        frame.wf(),
    ensures
        r@ == status_bytes(*frame),
{
    let msg = RobotStatusMessage {
        team: if matches!(frame.team, Team::Yellow) { WireTeam::Yellow } else { WireTeam::Blue },
        robot_id: frame.robot_id, ball_sense_status: frame.ball_sense_status,
        kick_status: frame.kick_status, kick_healthy: frame.kick_healthy,
        battery_voltage: frame.battery_voltage, motor_errors: frame.motor_errors,
        fpga_status: frame.fpga_status,
    };
    let mut buffer = vec![0u8; STATUS_FRAME_SIZE];
    msg.pack(&mut buffer).unwrap();
    buffer
}

/// Relies on `robojackets_robocup_rtp::RobotStatusMessage::unpack`: it reads
/// the fields stated by `decoded_status` from the first three bytes and
/// fails exactly when fewer bytes are given.
#[verifier::external_body]
pub fn decode_status(data: &Vec<u8>) -> (r: Result<StatusFrame, CodecError>)
    ensures
        data@.len() >= STATUS_FRAME_SIZE ==> r is Ok && r->Ok_0 == decoded_status(data@),
        data@.len() < STATUS_FRAME_SIZE ==> r is Err && r->Err_0 == CodecError::InvalidBufferSize,
{
    match RobotStatusMessage::unpack(data) {
        Ok(m) => Ok(StatusFrame {
            team: if matches!(m.team, WireTeam::Yellow) { Team::Yellow } else { Team::Blue },
            robot_id: m.robot_id, ball_sense_status: m.ball_sense_status,
            kick_status: m.kick_status, kick_healthy: m.kick_healthy,
            battery_voltage: m.battery_voltage, motor_errors: m.motor_errors,
            fpga_status: m.fpga_status,
        }),
        Err(_) => Err(CodecError::InvalidBufferSize),
    }
}

/// The two little-endian bytes of an `i16` read back as the same `i16`.
proof fn lemma_i16_round_trip(x: i16)
    by (bit_vector)
    ensures
        i16_from_bytes(lo_byte(x), hi_byte(x)) == x,
{
}

/// A byte survives the trip through the two's-complement dribbler field.
proof fn lemma_i8_round_trip(x: i8)
    by (bit_vector)
    ensures
        ((x as u8) as i8) == x,
{
}

/// Law: encoding a well-formed control frame and then decoding the bytes
/// yields the original frame, byte-exact round trip.
pub proof fn lemma_control_round_trip(f: ControlFrame)
    requires
        f.wf(),
    ensures
        control_bytes(f).len() == CONTROL_FRAME_SIZE,
        decoded_control(control_bytes(f)) == f,
{
    let b = control_bytes(f);
    let t = f.team.spec_bit();
    let rid = f.robot_id;
    let sh = bool_bit(f.shoot_mode);
    let tm = f.trigger_mode;
    let b0 = control_byte0(f);
    assert((b0 & (1u8 << 7) == 0) == (t == 0) && ((b0 & (0xFu8 << 3)) >> 3) == rid && (b0 & (1u8
        << 2) != 0) == (sh == 1) && (b0 & 3) == tm) by (bit_vector)
        requires
            b0 == ((t & 1) << 7) | ((rid & 0xF) << 3) | ((sh & 1) << 2) | (tm & 3),
            t <= 1,
            rid < 16,
            sh <= 1,
            tm < 3,
    ;
    let b9 = control_byte9(f);
    let role = f.role;
    let mode = f.mode;
    assert(((b9 & (3u8 << 6)) >> 6) == role && (b9 & 0x3F) == mode) by (bit_vector)
        requires
            b9 == ((role & 3) << 6) | mode,
            role < 4,
            mode < 8,
    ;
    lemma_i16_round_trip(f.body_x);
    lemma_i16_round_trip(f.body_y);
    lemma_i16_round_trip(f.body_w);
    lemma_i8_round_trip(f.dribbler_speed);
    assert(decoded_control(b) == f);
}

/// Law: encoding a well-formed status frame and then decoding the bytes
/// yields the original frame, byte-exact round trip.
pub proof fn lemma_status_round_trip(s: StatusFrame)
    requires
        s.wf(),
    ensures
        status_bytes(s).len() == STATUS_FRAME_SIZE,
        decoded_status(status_bytes(s)) == s,
{
    let b = status_bytes(s);
    let t = s.team.spec_bit();
    let rid = s.robot_id;
    let bs = bool_bit(s.ball_sense_status);
    let ks = bool_bit(s.kick_status);
    let kh = bool_bit(s.kick_healthy);
    let b0 = b[0];
    assert((b0 & (1u8 << 7) == 0) == (t == 0) && ((b0 & (0xFu8 << 3)) >> 3) == rid && (b0 & (1u8
        << 2) != 0) == (bs == 1) && (b0 & (1u8 << 1) != 0) == (ks == 1) && (b0 & 1 != 0) == (kh
        == 1)) by (bit_vector)
        requires
            b0 == (t << 7) | ((rid & 0xF) << 3) | (bs << 2) | (ks << 1) | kh,
            t <= 1,
            rid < 16,
            bs <= 1,
            ks <= 1,
            kh <= 1,
    ;
    let me = s.motor_errors;
    let fp = bool_bit(s.fpga_status);
    let b2 = b[2];
    assert(((b2 & (0x1Fu8 << 3)) >> 3) == me && (b2 & (1u8 << 2) != 0) == (fp == 1))
        by (bit_vector)
        requires
            b2 == ((me & 0x1F) << 3) | (fp << 2),
            me < 32,
            fp <= 1,
    ;
    assert(decoded_status(b) == s);
}

} // verus!
