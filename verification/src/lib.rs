//! Core logic of a board-management controller (BMC) that supervises a host
//! computer: power sequencing driven by debounced buttons, a PS/2 serial-frame
//! decoder, a byte-oriented bus transport with an integrity-checked
//! request/response protocol, a register command processor with retry-safe
//! semantics, and the event queue and dispatch step that tie them together.
//!
//! Everything here is pure logic over plain values. Reading pins, driving
//! outputs and timers, and the interrupt plumbing live outside; they hand
//! bytes, samples and events in, and perform the actions handed back.

pub mod debounce;
pub mod dispatch;
pub mod event;
pub mod power;
pub mod proto;
pub mod ps2;
pub mod queue;
pub mod speaker;
pub mod spi;
pub mod registers;
