//! The typed events that interrupt sources hand the dispatch loop.

use vstd::prelude::*;

use crate::proto::Request;

verus! {

/// One event, produced by exactly one interrupt source (or by the dispatch
/// loop itself) and consumed exactly once by the dispatch loop.
#[derive(Clone, Copy, Debug, PartialEq, Eq, Structural)]
pub enum Message {
    /// A raw 11-bit word from PS/2 port 0 (the keyboard).
    Ps2Data0(u16),
    /// A raw 11-bit word from PS/2 port 1 (the mouse).
    Ps2Data1(u16),
    /// A decoded request from the bus.
    SpiRequest(Request),
    /// The power button was given a tap.
    PowerButtonShortPress,
    /// The power button was held down.
    PowerButtonLongPress,
    /// The power button was let go.
    PowerButtonRelease,
    /// The reset button was given a tap.
    ResetButtonShortPress,
    /// The UART received a byte.
    UartByte(u8),
    /// The bus chip-select line was asserted: arm the transport.
    BusEnable,
    /// The bus chip-select line was released: disarm the transport.
    BusDisable,
    /// The transport may hold a complete request frame to collect.
    BusRequestReady,
    /// The speaker's tone duration elapsed; the payload is the timer token
    /// the disable action was scheduled under.
    SpeakerDisable(u64),
}

} // verus!
