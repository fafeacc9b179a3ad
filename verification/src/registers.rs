//! The register command processor: the host-visible register file and the
//! interpretation of one decoded request against it.
//!
//! The processor carries a retry cache. A transport-level integrity failure
//! on a response makes the host resend the same request, and a destructive
//! read (draining the keyboard FIFO) must not happen twice for one logical
//! host-side read: a request equal to the last accepted destructive read is
//! answered with the cached response bytes verbatim, mutating nothing.

use vstd::prelude::*;

use crate::proto::{spec_response_wire, Request, RequestType, Response, ResponseResult};
use crate::spi::TX_BUFFER_LEN;

verus! {

/// Register id: the firmware version string, up to 32 bytes, read-only.
pub const REG_FIRMWARE_VERSION: u8 = 0x00;

/// Register id: the 3-byte protocol version, read-only.
pub const REG_PROTOCOL_VERSION: u8 = 0x01;

/// Register id: the keyboard FIFO; reading it drains the bytes served.
pub const REG_PS2_KB_BUFFER: u8 = 0x10;

/// Register id: the speaker tone duration, in units of 10 ms; writing it
/// starts a tone.
pub const REG_SPEAKER_DURATION: u8 = 0x20;

/// Register id: the high half of the speaker tone period.
pub const REG_SPEAKER_PERIOD_HIGH: u8 = 0x21;

/// Register id: the low half of the speaker tone period.
pub const REG_SPEAKER_PERIOD_LOW: u8 = 0x22;

/// Register id: the speaker duty cycle.
pub const REG_SPEAKER_DUTY_CYCLE: u8 = 0x23;

/// How many bytes the keyboard FIFO holds.
pub const KB_FIFO_CAPACITY: usize = 16;

/// How many bytes the firmware version register holds.
pub const FIRMWARE_VERSION_LEN: usize = 32;

/// The three bytes of the protocol version register.
pub open spec fn spec_protocol_version() -> Seq<u8> {
    seq![0u8, 1u8, 0u8]
}

/// The host-visible register file, owned by the dispatch loop.
#[derive(Clone, Debug)]
pub struct RegisterState {
    /// The build's version string, exactly 32 bytes, fixed after boot.
    pub firmware_version: Vec<u8>,
    /// Bytes decoded from the PS/2 keyboard, oldest first, at most
    /// `KB_FIFO_CAPACITY`.
    pub kb_fifo: Vec<u8>,
    /// How many keyboard bytes were dropped because the FIFO was full.
    pub kb_overflows: u32,
    /// The last accepted destructive read, for duplicate detection.
    pub last_request: Option<Request>,
    /// The serialized response to `last_request`, re-served verbatim on a
    /// duplicate.
    pub cached_response: Vec<u8>,
    /// Speaker tone duration in units of 10 ms.
    pub speaker_duration: u8,
    /// High half of the speaker tone period.
    pub speaker_period_high: u8,
    /// Low half of the speaker tone period.
    pub speaker_period_low: u8,
    /// Speaker duty cycle.
    pub speaker_duty_cycle: u8,
    /// Set by a duration write: the speaker hardware must be resynchronized
    /// to the stored configuration (a tone starts).
    pub speaker_dirty: bool,
}

impl RegisterState {
    /// The register file's invariant. Only the destructive read (a keyboard
    /// FIFO read) is ever cached for retry, so the cache, when occupied,
    /// holds a request of that shape.
    pub open spec fn wf(&self) -> bool {
        &&& self.firmware_version@.len() == FIRMWARE_VERSION_LEN
        &&& self.kb_fifo@.len() <= KB_FIFO_CAPACITY
        &&& self.cached_response@.len() <= TX_BUFFER_LEN
        &&& match self.last_request {
            Some(r) => r.register == REG_PS2_KB_BUFFER && spec_is_read(r.request_type),
            None => true,
        }
    }

    /// A fresh register file around the given 32-byte version string.
    pub fn new(firmware_version: Vec<u8>) -> (r: RegisterState)
        requires
            firmware_version@.len() == FIRMWARE_VERSION_LEN,
        ensures
            r.wf(),
            r.firmware_version@ == firmware_version@,
            r.kb_fifo@ == Seq::<u8>::empty(),
            r.kb_overflows == 0,
            r.last_request is None,
            r.speaker_duration == 0,
            r.speaker_period_high == 0,
            r.speaker_period_low == 0,
            r.speaker_duty_cycle == 0,
            !r.speaker_dirty,
    {
        RegisterState {
            firmware_version,
            kb_fifo: Vec::new(),
            kb_overflows: 0,
            last_request: None,
            cached_response: Vec::new(),
            speaker_duration: 0,
            speaker_period_high: 0,
            speaker_period_low: 0,
            speaker_duty_cycle: 0,
            speaker_dirty: false,
        }
    }
}

/// A counter that sticks at its ceiling instead of wrapping.
pub open spec fn spec_sat_inc(x: u32) -> u32 {
    if x < u32::MAX {
        (x + 1) as u32
    } else {
        x
    }
}

/// The register file after a keyboard byte arrives: appended while there is
/// room, dropped and counted once the FIFO is full; nothing else moves.
pub open spec fn spec_kb_push_post(pre: RegisterState, post: RegisterState, b: u8) -> bool {
    &&& (if pre.kb_fifo@.len() < KB_FIFO_CAPACITY {
        post.kb_fifo@ == pre.kb_fifo@.push(b) && post.kb_overflows == pre.kb_overflows
    } else {
        post.kb_fifo@ == pre.kb_fifo@ && post.kb_overflows == spec_sat_inc(pre.kb_overflows)
    })
    &&& post.firmware_version@ == pre.firmware_version@
    &&& post.last_request == pre.last_request
    &&& post.cached_response@ == pre.cached_response@
    &&& post.speaker_duration == pre.speaker_duration
    &&& post.speaker_period_high == pre.speaker_period_high
    &&& post.speaker_period_low == pre.speaker_period_low
    &&& post.speaker_duty_cycle == pre.speaker_duty_cycle
    &&& post.speaker_dirty == pre.speaker_dirty
}

/// Whether `t` is a read (either read encoding).
pub open spec fn spec_is_read(t: RequestType) -> bool {
    t == RequestType::Read || t == RequestType::ReadAlt
}

/// The result code `req` earns against state `s`: `Success` exactly on the
/// register/type/length combinations the register file supports.
pub open spec fn spec_result_for(req: Request, s: RegisterState) -> ResponseResult {
    if spec_is_read(req.request_type) {
        if req.register == REG_FIRMWARE_VERSION {
            if req.length_or_data <= FIRMWARE_VERSION_LEN {
                ResponseResult::Success
            } else {
                ResponseResult::BadLength
            }
        } else if req.register == REG_PROTOCOL_VERSION {
            if req.length_or_data == 3 {
                ResponseResult::Success
            } else {
                ResponseResult::BadLength
            }
        } else if req.register == REG_PS2_KB_BUFFER {
            if 1 <= req.length_or_data <= KB_FIFO_CAPACITY + 1 {
                ResponseResult::Success
            } else {
                ResponseResult::BadLength
            }
        } else if req.register == REG_SPEAKER_DURATION || req.register == REG_SPEAKER_PERIOD_HIGH
            || req.register == REG_SPEAKER_PERIOD_LOW || req.register
            == REG_SPEAKER_DUTY_CYCLE {
            if req.length_or_data == 1 {
                ResponseResult::Success
            } else {
                ResponseResult::BadLength
            }
        } else {
            ResponseResult::BadRegister
        }
    } else {
        if req.register == REG_SPEAKER_DURATION || req.register == REG_SPEAKER_PERIOD_HIGH
            || req.register == REG_SPEAKER_PERIOD_LOW || req.register
            == REG_SPEAKER_DUTY_CYCLE {
            ResponseResult::Success
        } else {
            ResponseResult::BadRegister
        }
    }
}

/// How many keyboard bytes a FIFO read of requested length `len` serves.
pub open spec fn spec_kb_served(len: u8, s: RegisterState) -> int {
    if s.kb_fifo@.len() <= len - 1 {
        s.kb_fifo@.len() as int
    } else {
        len - 1
    }
}

/// The payload `req` earns against state `s`; empty on every non-`Success`
/// result. A keyboard read serves a count byte, that many FIFO bytes oldest
/// first, and zero padding up to the requested length.
pub open spec fn spec_payload_for(req: Request, s: RegisterState) -> Seq<u8> {
    if spec_result_for(req, s) != ResponseResult::Success || !spec_is_read(req.request_type) {
        Seq::<u8>::empty()
    } else if req.register == REG_FIRMWARE_VERSION {
        s.firmware_version@.take(req.length_or_data as int)
    } else if req.register == REG_PROTOCOL_VERSION {
        spec_protocol_version()
    } else if req.register == REG_PS2_KB_BUFFER {
        let served = spec_kb_served(req.length_or_data, s);
        seq![served as u8] + s.kb_fifo@.take(served) + Seq::<u8>::new(
            (req.length_or_data - 1 - served) as nat,
            |i: int| 0u8,
        )
    } else if req.register == REG_SPEAKER_DURATION {
        seq![s.speaker_duration]
    } else if req.register == REG_SPEAKER_PERIOD_HIGH {
        seq![s.speaker_period_high]
    } else if req.register == REG_SPEAKER_PERIOD_LOW {
        seq![s.speaker_period_low]
    } else {
        seq![s.speaker_duty_cycle]
    }
}

/// Whether `req` is the destructive read: a successful keyboard FIFO read,
/// the one request that is cached for retry.
pub open spec fn spec_is_destructive_read(req: Request, s: RegisterState) -> bool {
    spec_is_read(req.request_type) && req.register == REG_PS2_KB_BUFFER && spec_result_for(req, s)
        == ResponseResult::Success
}

/// Field-by-field equality of two register files.
pub open spec fn spec_registers_unchanged(pre: RegisterState, post: RegisterState) -> bool {
    &&& post.firmware_version@ == pre.firmware_version@
    &&& post.kb_fifo@ == pre.kb_fifo@
    &&& post.kb_overflows == pre.kb_overflows
    &&& post.last_request == pre.last_request
    &&& post.cached_response@ == pre.cached_response@
    &&& post.speaker_duration == pre.speaker_duration
    &&& post.speaker_period_high == pre.speaker_period_high
    &&& post.speaker_period_low == pre.speaker_period_low
    &&& post.speaker_duty_cycle == pre.speaker_duty_cycle
    &&& post.speaker_dirty == pre.speaker_dirty
}

/// The speaker configuration after `req`, written field by field: a short
/// write to a speaker register stores its inline byte, a duration write also
/// marks the configuration dirty (a tone must start), and everything else
/// leaves the speaker alone.
pub open spec fn spec_speaker_post(req: Request, pre: RegisterState, post: RegisterState) -> bool {
    &&& post.speaker_duration == (if req.request_type == RequestType::ShortWrite && req.register
        == REG_SPEAKER_DURATION {
        req.length_or_data
    } else {
        pre.speaker_duration
    })
    &&& post.speaker_period_high == (if req.request_type == RequestType::ShortWrite
        && req.register == REG_SPEAKER_PERIOD_HIGH {
        req.length_or_data
    } else {
        pre.speaker_period_high
    })
    &&& post.speaker_period_low == (if req.request_type == RequestType::ShortWrite && req.register
        == REG_SPEAKER_PERIOD_LOW {
        req.length_or_data
    } else {
        pre.speaker_period_low
    })
    &&& post.speaker_duty_cycle == (if req.request_type == RequestType::ShortWrite && req.register
        == REG_SPEAKER_DUTY_CYCLE {
        req.length_or_data
    } else {
        pre.speaker_duty_cycle
    })
    &&& post.speaker_dirty == (if req.request_type == RequestType::ShortWrite && req.register
        == REG_SPEAKER_DURATION {
        true
    } else {
        pre.speaker_dirty
    })
}

/// Everything `process` promises: on a duplicate of the last accepted
/// destructive read, the cached bytes come back and nothing changes; on any
/// other request, the response is the serialized register semantics, the
/// FIFO is drained exactly when the request is the destructive read (which
/// is then cached), and every other field follows `spec_speaker_post`.
pub open spec fn spec_process_post(
    req: Request,
    pre: RegisterState,
    post: RegisterState,
    rsp: Seq<u8>,
) -> bool {
    if pre.last_request == Some(req) {
        &&& spec_registers_unchanged(pre, post)
        &&& rsp == pre.cached_response@
    } else {
        &&& rsp == spec_response_wire(spec_result_for(req, pre), spec_payload_for(req, pre))
        &&& post.firmware_version@ == pre.firmware_version@
        &&& post.kb_overflows == pre.kb_overflows
        &&& (if spec_is_destructive_read(req, pre) {
            &&& post.kb_fifo@ == pre.kb_fifo@.skip(spec_kb_served(req.length_or_data, pre))
            &&& post.last_request == Some(req)
            &&& post.cached_response@ == rsp
        } else {
            &&& post.kb_fifo@ == pre.kb_fifo@
            &&& post.last_request is None
            &&& post.cached_response@ == Seq::<u8>::empty()
        })
        &&& spec_speaker_post(req, pre, post)
    }
}

impl RegisterState {
    /// Accepts one decoded keyboard byte into the FIFO, oldest first; a full
    /// FIFO drops the byte and counts the overflow — degraded gracefully,
    /// never fatal.
    pub fn kb_push(&mut self, b: u8)
        requires
            old(self).wf(),
        ensures
            final(self).wf(),
            spec_kb_push_post(*old(self), *final(self), b),
    {
        if self.kb_fifo.len() < KB_FIFO_CAPACITY {
            self.kb_fifo.push(b);
        } else {
            if self.kb_overflows < u32::MAX {
                self.kb_overflows = self.kb_overflows + 1;
            }
        }
    }
}

/// The response frame `process` hands back: the cached bytes on a duplicate
/// of the last accepted destructive read, the serialized register semantics
/// otherwise.
pub open spec fn spec_process_bytes(req: Request, pre: RegisterState) -> Seq<u8> {
    if pre.last_request == Some(req) {
        pre.cached_response@
    } else {
        spec_response_wire(spec_result_for(req, pre), spec_payload_for(req, pre))
    }
}

/// `s` with its speaker dirty flag replaced — how the dispatch loop names
/// the register file between processing a request and resynchronizing the
/// speaker hardware.
pub open spec fn spec_with_dirty(s: RegisterState, dirty: bool) -> RegisterState {
    RegisterState { speaker_dirty: dirty, ..s }
}

/// Every response frame fits the transport's transmit buffer: the largest
/// payload (the full firmware version) still leaves room for the result
/// byte and the integrity code.
pub proof fn lemma_process_bytes_fit(req: Request, s: RegisterState)
    requires
        s.wf(),
    ensures
        spec_process_bytes(req, s).len() <= TX_BUFFER_LEN,
{
}

/// Computes the response `req` earns against `state`, mutating nothing.
pub fn evaluate(req: &Request, state: &RegisterState) -> (rsp: Response)
    requires
        state.wf(),
    ensures
        rsp.result == spec_result_for(*req, *state),
        rsp.data@ == spec_payload_for(*req, *state),
{
    let is_read = match req.request_type {
        RequestType::Read | RequestType::ReadAlt => true,
        RequestType::ShortWrite => false,
    };
    if is_read {
        if req.register == REG_FIRMWARE_VERSION {
            let len = req.length_or_data as usize;
            if len <= FIRMWARE_VERSION_LEN {
                let mut data: Vec<u8> = Vec::new();
                let mut i: usize = 0;
                while i < len
                    invariant
                        i <= len,
                        len <= state.firmware_version@.len(),
                        data@ == state.firmware_version@.take(i as int),
                    decreases len - i,
                {
                    data.push(state.firmware_version[i]);
                    proof {
                        assert(state.firmware_version@.take(i + 1) =~= state.firmware_version@.take(
                            i as int,
                        ).push(state.firmware_version@[i as int]));
                    }
                    i = i + 1;
                }
                Response::new_ok_with_data(data)
            } else {
                Response::new_without_data(ResponseResult::BadLength)
            }
        } else if req.register == REG_PROTOCOL_VERSION {
            if req.length_or_data == 3 {
                let mut data: Vec<u8> = Vec::new();
                data.push(0);
                data.push(1);
                data.push(0);
                proof {
                    assert(data@ =~= spec_protocol_version());
                }
                Response::new_ok_with_data(data)
            } else {
                Response::new_without_data(ResponseResult::BadLength)
            }
        } else if req.register == REG_PS2_KB_BUFFER {
            let len = req.length_or_data as usize;
            if 1 <= len && len <= KB_FIFO_CAPACITY + 1 {
                let served = if state.kb_fifo.len() <= len - 1 {
                    state.kb_fifo.len()
                } else {
                    len - 1
                };
                let mut data: Vec<u8> = Vec::new();
                data.push(served as u8);
                let mut i: usize = 0;
                while i < served
                    invariant
                        i <= served,
                        served <= state.kb_fifo@.len(),
                        data@ == seq![served as u8] + state.kb_fifo@.take(i as int),
                    decreases served - i,
                {
                    data.push(state.kb_fifo[i]);
                    proof {
                        assert(seq![served as u8] + state.kb_fifo@.take(i + 1) =~= (seq![
                            served as u8,
                        ] + state.kb_fifo@.take(i as int)).push(state.kb_fifo@[i as int]));
                    }
                    i = i + 1;
                }
                let mut pad: usize = 0;
                let pad_total = len - 1 - served;
                while pad < pad_total
                    invariant
                        pad <= pad_total,
                        served <= state.kb_fifo@.len(),
                        data@ == seq![served as u8] + state.kb_fifo@.take(served as int)
                            + Seq::<u8>::new(pad as nat, |i: int| 0u8),
                    decreases pad_total - pad,
                {
                    data.push(0);
                    proof {
                        assert(seq![served as u8] + state.kb_fifo@.take(served as int)
                            + Seq::<u8>::new((pad + 1) as nat, |i: int| 0u8) =~= (seq![
                            served as u8,
                        ] + state.kb_fifo@.take(served as int) + Seq::<u8>::new(
                            pad as nat,
                            |i: int| 0u8,
                        )).push(0u8));
                    }
                    pad = pad + 1;
                }
                proof {
                    assert(data@ =~= spec_payload_for(*req, *state));
                }
                Response::new_ok_with_data(data)
            } else {
                Response::new_without_data(ResponseResult::BadLength)
            }
        } else if req.register == REG_SPEAKER_DURATION || req.register == REG_SPEAKER_PERIOD_HIGH
            || req.register == REG_SPEAKER_PERIOD_LOW || req.register == REG_SPEAKER_DUTY_CYCLE {
            if req.length_or_data == 1 {
                let mut data: Vec<u8> = Vec::new();
                data.push(
                    if req.register == REG_SPEAKER_DURATION {
                        state.speaker_duration
                    } else if req.register == REG_SPEAKER_PERIOD_HIGH {
                        state.speaker_period_high
                    } else if req.register == REG_SPEAKER_PERIOD_LOW {
                        state.speaker_period_low
                    } else {
                        state.speaker_duty_cycle
                    },
                );
                Response::new_ok_with_data(data)
            } else {
                Response::new_without_data(ResponseResult::BadLength)
            }
        } else {
            Response::new_without_data(ResponseResult::BadRegister)
        }
    } else {
        if req.register == REG_SPEAKER_DURATION || req.register == REG_SPEAKER_PERIOD_HIGH
            || req.register == REG_SPEAKER_PERIOD_LOW || req.register == REG_SPEAKER_DUTY_CYCLE {
            Response::new_without_data(ResponseResult::Success)
        } else {
            Response::new_without_data(ResponseResult::BadRegister)
        }
    }
}

/// Interprets one decoded request against the register file and returns the
/// serialized response frame to transmit.
pub fn process(req: &Request, state: &mut RegisterState) -> (rsp: Vec<u8>)
    requires
        old(state).wf(),
    ensures
        final(state).wf(),
        spec_process_post(*req, *old(state), *final(state), rsp@),
{
    let duplicate = match &state.last_request {
        Some(prev) => *prev == *req,
        None => false,
    };
    if duplicate {
        let mut rsp: Vec<u8> = Vec::new();
        let mut i: usize = 0;
        while i < state.cached_response.len()
            invariant
                i <= state.cached_response@.len(),
                rsp@ == state.cached_response@.take(i as int),
            decreases state.cached_response@.len() - i,
        {
            rsp.push(state.cached_response[i]);
            proof {
                assert(state.cached_response@.take(i + 1) =~= state.cached_response@.take(
                    i as int,
                ).push(state.cached_response@[i as int]));
            }
            i = i + 1;
        }
        proof {
            assert(rsp@ =~= state.cached_response@);
        }
        return rsp;
    }
    let response = evaluate(req, state);
    let rsp = response.to_bytes();
    let is_destructive = match req.request_type {
        RequestType::Read | RequestType::ReadAlt => {
            req.register == REG_PS2_KB_BUFFER && matches!(
                response.result,
                ResponseResult::Success,
            )
        },
        RequestType::ShortWrite => false,
    };
    if is_destructive {
        let len = req.length_or_data as usize;
        let served = if state.kb_fifo.len() <= len - 1 {
            state.kb_fifo.len()
        } else {
            len - 1
        };
        let mut rest: Vec<u8> = Vec::new();
        let mut i: usize = served;
        while i < state.kb_fifo.len()
            invariant
                served <= i <= state.kb_fifo@.len(),
                rest@ == state.kb_fifo@.subrange(served as int, i as int),
            decreases state.kb_fifo@.len() - i,
        {
            rest.push(state.kb_fifo[i]);
            proof {
                assert(state.kb_fifo@.subrange(served as int, i + 1) =~= state.kb_fifo@.subrange(
                    served as int,
                    i as int,
                ).push(state.kb_fifo@[i as int]));
            }
            i = i + 1;
        }
        proof {
            assert(rest@ =~= state.kb_fifo@.skip(served as int));
        }
        state.kb_fifo = rest;
        state.last_request = Some(*req);
        let mut cache: Vec<u8> = Vec::new();
        let mut j: usize = 0;
        while j < rsp.len()
            invariant
                j <= rsp@.len(),
                cache@ == rsp@.take(j as int),
            decreases rsp@.len() - j,
        {
            cache.push(rsp[j]);
            proof {
                assert(rsp@.take(j + 1) =~= rsp@.take(j as int).push(rsp@[j as int]));
            }
            j = j + 1;
        }
        proof {
            assert(cache@ =~= rsp@);
        }
        state.cached_response = cache;
    } else {
        state.last_request = None;
        state.cached_response = Vec::new();
        if matches!(req.request_type, RequestType::ShortWrite) {
            if req.register == REG_SPEAKER_DURATION {
                state.speaker_duration = req.length_or_data;
                state.speaker_dirty = true;
            } else if req.register == REG_SPEAKER_PERIOD_HIGH {
                state.speaker_period_high = req.length_or_data;
            } else if req.register == REG_SPEAKER_PERIOD_LOW {
                state.speaker_period_low = req.length_or_data;
            } else if req.register == REG_SPEAKER_DUTY_CYCLE {
                state.speaker_duty_cycle = req.length_or_data;
            }
        }
    }
    rsp
}

/// Law: processing the same request twice in a row yields byte-identical
/// response frames, and the second call mutates nothing destructive — in
/// particular the keyboard FIFO is exactly what the first call left.
pub proof fn lemma_process_idempotent(
    req: Request,
    s0: RegisterState,
    s1: RegisterState,
    r1: Seq<u8>,
    s2: RegisterState,
    r2: Seq<u8>,
)
    requires
        s0.wf(),
        spec_process_post(req, s0, s1, r1),
        spec_process_post(req, s1, s2, r2),
    ensures
        r2 == r1,
        s2.kb_fifo@ == s1.kb_fifo@,
        spec_registers_unchanged(s1, s2) || !spec_is_destructive_read(req, s0),
{
    if s0.last_request == Some(req) {
    } else if spec_is_destructive_read(req, s0) {
    } else {
        assert(spec_result_for(req, s1) == spec_result_for(req, s0));
        assert(spec_payload_for(req, s1) =~= spec_payload_for(req, s0));
    }
}

/// Law: a short write of any byte to a speaker register, followed by a read
/// of the same register, returns exactly the written byte.
pub proof fn lemma_speaker_write_read_round_trip(
    reg: u8,
    value: u8,
    s0: RegisterState,
    s1: RegisterState,
    rsp: Seq<u8>,
)
    requires
        s0.wf(),
        reg == REG_SPEAKER_DURATION || reg == REG_SPEAKER_PERIOD_HIGH || reg
            == REG_SPEAKER_PERIOD_LOW || reg == REG_SPEAKER_DUTY_CYCLE,
        spec_process_post(
            Request { register: reg, request_type: RequestType::ShortWrite, length_or_data: value },
            s0,
            s1,
            rsp,
        ),
    ensures
        spec_result_for(
            Request { register: reg, request_type: RequestType::Read, length_or_data: 1 },
            s1,
        ) == ResponseResult::Success,
        spec_payload_for(
            Request { register: reg, request_type: RequestType::Read, length_or_data: 1 },
            s1,
        ) == seq![value],
{
    let w = Request { register: reg, request_type: RequestType::ShortWrite, length_or_data: value };
    assert(s0.last_request != Some(w));
}

} // verus!
