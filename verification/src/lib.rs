//! Verified core of a radio base station that bridges a field computer and a
//! fleet of up to sixteen mobile robots.
//!
//! The library holds the logic of the station: the control and status frame
//! codecs, the per-robot command stores with overwrite semantics, the radio
//! round scheduler that arbitrates between manual, network and keep-alive
//! commands, the reply-window bookkeeping, and the liveness tracker that
//! produces the 16-bit aliveness mask.  Everything that touches hardware or
//! sockets lives outside the library and drives these state machines.

use vstd::prelude::*;

pub mod codec;
pub mod command_store;
pub mod messages;
pub mod scheduler;
pub mod timeout_checker;
pub mod xbox;

verus! {

/// Chip Select (CSN) pin for the radio
pub const RADIO_CSN: u8 = 8;
/// Chip Enable (CE) pin for the radio
pub const RADIO_CE: u8 = 22;
/// Radio Interrupt (IRQ) pin
pub const RADIO_IRQ: u8 = 25;
/// The radio channel to use (f = 2400 + CHANNEL (MHz))
pub const CHANNEL: u8 = 106;

/// The largest fleet the station can serve: the aliveness mask has one bit
/// per robot and the wire format carries robot ids in four bits.
pub const MAX_ROBOTS: u8 = 16;

/// Identifier for the station's threads ("nodes")
#[derive(Clone, Copy, Debug, PartialEq, Eq, Structural)]
pub enum NodeIdentifier {
    /// The radio round scheduler
    Radio1,
    /// The liveness aggregator keeping track of timeouts
    Timeout,
}

} // verus!
