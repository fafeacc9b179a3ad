//! The byte transport: the peripheral-bus protocol engine that, under
//! chip-select and clock-edge interrupts, shifts request bytes into a
//! fixed-size frame buffer and shifts the prepared response frame back out.
//!
//! A chip-select assertion arms the engine for one fixed-size request frame
//! (`REQUEST_FRAME_LEN` bytes, integrity code included); every bus byte then
//! delivers one received byte and takes one transmitted byte. Chip-select
//! release aborts a partial reception; a complete frame survives until the
//! dispatch loop collects it, exactly once.

use vstd::prelude::*;

use crate::proto::{spec_response_wire, Response};

verus! {

/// How many bytes one request frame occupies on the wire.
pub const REQUEST_FRAME_LEN: usize = 4;

/// How many bytes the transmit buffer holds at most.
pub const TX_BUFFER_LEN: usize = 64;

/// What the engine shifts out once the prepared response is exhausted, or
/// while it is disabled.
pub const FILLER_BYTE: u8 = 0xFF;

/// Where the engine stands inside one bus transaction.
#[derive(Clone, Copy, Debug, PartialEq, Eq, Structural)]
pub enum TransportState {
    /// Chip-select released, engine off.
    Disabled,
    /// Armed and collecting the fixed-size request frame.
    Receiving,
    /// A full request frame waits to be collected.
    Complete,
}

/// The protocol engine's state, owned by the interrupt side and inspected by
/// the dispatch loop under its critical section.
pub struct SpiPeripheral {
    /// Where the engine stands.
    pub state: TransportState,
    /// The request bytes received so far in this transaction.
    pub rx: Vec<u8>,
    /// The prepared response frame being shifted out.
    pub tx: Vec<u8>,
    /// How many response bytes have been shifted out already.
    pub tx_pos: usize,
}

impl SpiPeripheral {
    /// The engine's invariant: the receive buffer never outgrows the frame,
    /// is exactly one frame when complete, and the transmit cursor stays
    /// inside the prepared response.
    pub open spec fn wf(&self) -> bool {
        &&& match self.state {
            TransportState::Disabled => self.rx@.len() == 0,
            TransportState::Receiving => self.rx@.len() < REQUEST_FRAME_LEN,
            TransportState::Complete => self.rx@.len() == REQUEST_FRAME_LEN,
        }
        &&& self.tx_pos <= self.tx@.len()
        &&& self.tx@.len() <= TX_BUFFER_LEN
    }

    /// A fresh engine: disabled, nothing received, nothing prepared.
    pub fn new() -> (r: SpiPeripheral)
        ensures
            r.wf(),
            r.state == TransportState::Disabled,
            r.rx@ == Seq::<u8>::empty(),
            r.tx@ == Seq::<u8>::empty(),
            r.tx_pos == 0,
    {
        SpiPeripheral { state: TransportState::Disabled, rx: Vec::new(), tx: Vec::new(), tx_pos: 0 }
    }

    /// Chip-select asserted: arm the engine for one request frame and rewind
    /// the prepared response to its first byte. A frame still waiting from
    /// an earlier transaction is discarded.
    pub fn enable(&mut self)
        requires
            old(self).wf(),
        ensures
            final(self).wf(),
            final(self).state == TransportState::Receiving,
            final(self).rx@ == Seq::<u8>::empty(),
            final(self).tx@ == old(self).tx@,
            final(self).tx_pos == 0,
    {
        self.state = TransportState::Receiving;
        self.rx = Vec::new();
        self.tx_pos = 0;
    }

    /// Chip-select released: an in-progress reception is aborted and the
    /// engine disabled; a complete frame stays for the dispatch loop to
    /// collect; a disabled engine is left alone.
    pub fn disable(&mut self)
        requires
            old(self).wf(),
        ensures
            final(self).wf(),
            final(self).tx@ == old(self).tx@,
            final(self).tx_pos == old(self).tx_pos,
            match old(self).state {
                TransportState::Receiving => final(self).state == TransportState::Disabled
                    && final(self).rx@ == Seq::<u8>::empty(),
                TransportState::Disabled => final(self).state == TransportState::Disabled
                    && final(self).rx@ == old(self).rx@,
                TransportState::Complete => final(self).state == TransportState::Complete
                    && final(self).rx@ == old(self).rx@,
            },
    {
        if matches!(self.state, TransportState::Receiving) {
            self.state = TransportState::Disabled;
            self.rx = Vec::new();
        }
    }

    /// One bus byte: while armed, the received byte joins the frame (the one
    /// that fills it completes the frame); bytes beyond a complete frame are
    /// the host clocking the response out and are ignored. The returned byte
    /// is the next one of the prepared response, or the filler once the
    /// response (or the engine) is exhausted.
    pub fn handle_byte(&mut self, rx_byte: u8) -> (tx_byte: u8)
        requires
            old(self).wf(),
        ensures
            final(self).wf(),
            final(self).tx@ == old(self).tx@,
            tx_byte == (if old(self).state != TransportState::Disabled && old(self).tx_pos < old(self).tx@.len() {
                old(self).tx@[old(self).tx_pos as int]
            } else {
                FILLER_BYTE
            }),
            final(self).tx_pos == (if old(self).state != TransportState::Disabled && old(self).tx_pos < old(self).tx@.len() {
                old(self).tx_pos + 1
            } else {
                old(self).tx_pos as int
            }),
            match old(self).state {
                TransportState::Disabled => final(self).state == TransportState::Disabled && final(self).rx@ == old(self).rx@,
                TransportState::Receiving => final(self).rx@ == old(self).rx@.push(rx_byte)
                    && final(self).state == (if old(self).rx@.len() + 1 == REQUEST_FRAME_LEN {
                    TransportState::Complete
                } else {
                    TransportState::Receiving
                }),
                TransportState::Complete => final(self).state == TransportState::Complete && final(self).rx@ == old(self).rx@,
            },
    {
        let tx_byte = if !matches!(self.state, TransportState::Disabled) && self.tx_pos
            < self.tx.len() {
            let b = self.tx[self.tx_pos];
            self.tx_pos = self.tx_pos + 1;
            b
        } else {
            FILLER_BYTE
        };
        if matches!(self.state, TransportState::Receiving) {
            self.rx.push(rx_byte);
            if self.rx.len() == REQUEST_FRAME_LEN {
                self.state = TransportState::Complete;
            }
        }
        tx_byte
    }

    /// Hands the dispatch loop the last complete frame, integrity code
    /// included, exactly once: a repeated call with no new frame returns
    /// nothing.
    pub fn get_received(&mut self) -> (r: Option<Vec<u8>>)
        requires
            old(self).wf(),
        ensures
            final(self).wf(),
            final(self).tx@ == old(self).tx@,
            final(self).tx_pos == old(self).tx_pos,
            match old(self).state {
                TransportState::Complete => {
                    &&& r matches Some(frame) && frame@ == old(self).rx@
                    &&& final(self).state == TransportState::Disabled
                    &&& final(self).rx@ == Seq::<u8>::empty()
                },
                TransportState::Disabled => r is None && final(self).state
                    == TransportState::Disabled && final(self).rx@ == old(self).rx@,
                TransportState::Receiving => r is None && final(self).state
                    == TransportState::Receiving && final(self).rx@ == old(self).rx@,
            },
    {
        if matches!(self.state, TransportState::Complete) {
            let mut frame = Vec::new();
            core::mem::swap(&mut frame, &mut self.rx);
            self.state = TransportState::Disabled;
            Some(frame)
        } else {
            None
        }
    }

    /// Loads an already-serialized response frame into the transmit buffer,
    /// to be shifted out by the next transaction. A frame longer than the
    /// buffer is refused and nothing changes.
    pub fn load_transmit_frame(&mut self, frame: Vec<u8>) -> (r: Result<(), ()>)
        requires
            old(self).wf(),
        ensures
            final(self).wf(),
            final(self).state == old(self).state,
            final(self).rx@ == old(self).rx@,
            r == (if frame@.len() <= TX_BUFFER_LEN {
                Ok::<(), ()>(())
            } else {
                Err::<(), ()>(())
            }),
            r is Ok ==> final(self).tx@ == frame@ && final(self).tx_pos == 0,
            r is Err ==> final(self).tx@ == old(self).tx@ && final(self).tx_pos == old(self).tx_pos,
    {
        if frame.len() <= TX_BUFFER_LEN {
            self.tx = frame;
            self.tx_pos = 0;
            Ok(())
        } else {
            Err(())
        }
    }

    /// Serializes a response and loads it as the frame the next transaction
    /// will shift out. A frame longer than the transmit buffer is refused
    /// and nothing changes.
    pub fn set_transmit_sendable(&mut self, response: &Response) -> (r: Result<(), ()>)
        requires
            old(self).wf(),
        ensures
            final(self).wf(),
            final(self).state == old(self).state,
            final(self).rx@ == old(self).rx@,
            r == (if spec_response_wire(response.result, response.data@).len() <= TX_BUFFER_LEN {
                Ok::<(), ()>(())
            } else {
                Err::<(), ()>(())
            }),
            r is Ok ==> final(self).tx@ == spec_response_wire(response.result, response.data@)
                && final(self).tx_pos == 0,
            r is Err ==> final(self).tx@ == old(self).tx@ && final(self).tx_pos == old(self).tx_pos,
    {
        let frame = response.to_bytes();
        self.load_transmit_frame(frame)
    }

    /// Resets the engine to its power-on state. The outcome does not depend
    /// on where the engine stood, so resetting twice is the same as once.
    pub fn reset(&mut self)
        ensures
            final(self).wf(),
            final(self).state == TransportState::Disabled,
            final(self).rx@ == Seq::<u8>::empty(),
            final(self).tx@ == Seq::<u8>::empty(),
            final(self).tx_pos == 0,
    {
        self.state = TransportState::Disabled;
        self.rx = Vec::new();
        self.tx = Vec::new();
        self.tx_pos = 0;
    }
}

} // verus!
