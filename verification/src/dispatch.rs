//! The dispatch core: the one consumer of the event queue, and the only
//! place where events are interpreted and cross-component state changes.
//!
//! `handle_message` takes one event and performs every state change it
//! implies — registers, transport, power state, speaker bookkeeping — and
//! hands back the hardware actions the caller must perform (pin levels,
//! timer one-shots, the tone). The caller runs the loop: dequeue, handle,
//! act; the interrupt side enqueues events and feeds the transport and the
//! decoders.

use vstd::prelude::*;

use crate::debounce::{spec_after_update, spec_update_edge, Debouncer, Edge};
use crate::event::Message;
use crate::power::{
    power_step, spec_power_actions, spec_power_next, ButtonEvent, DcPowerState, PowerActions,
};
use crate::proto::{
    spec_parse_request, spec_response_wire, spec_result_of_error, ProtoError, Request,
    RequestType, Response,
};
use crate::ps2::{spec_data_byte, spec_frame_ok, Ps2Decoder};
use crate::queue::{spec_enqueue_step, EventQueue};
use crate::registers::{
    lemma_process_bytes_fit, process, spec_kb_push_post, spec_process_bytes, spec_process_post,
    spec_registers_unchanged, spec_sat_inc, spec_with_dirty, RegisterState, REG_SPEAKER_DURATION,
};
use crate::speaker::SpeakerScheduler;
use crate::spi::{SpiPeripheral, TransportState};

verus! {

/// An internal-invariant fault: the firmware halts rather than run on with a
/// corrupted event pipeline.
#[derive(Clone, Copy, Debug, PartialEq, Eq, Structural)]
pub enum FatalError {
    /// The event queue refused an event; a supervisory event was about to
    /// be lost.
    QueueOverflow,
    /// The transport completed a frame of a length the command processor
    /// was not armed for: the two are desynchronized.
    TransportDesync,
}

/// The tone the speaker hardware should start driving.
#[derive(Clone, Copy, Debug, PartialEq, Eq, Structural)]
pub struct ToneCommand {
    /// High half of the tone period.
    pub period_high: u8,
    /// Low half of the tone period.
    pub period_low: u8,
    /// The duty cycle.
    pub duty_cycle: u8,
    /// How long to drive the tone, in milliseconds.
    pub duration_ms: u16,
}

/// A delayed speaker-stop to schedule on the monotonic timer.
#[derive(Clone, Copy, Debug, PartialEq, Eq, Structural)]
pub struct SpeakerOff {
    /// The cancellation token the one-shot is scheduled under.
    pub token: u64,
    /// How many milliseconds from now it fires.
    pub delay_ms: u16,
}

/// The hardware actions one dispatch step asks of its caller.
#[derive(Clone, Copy, Debug, PartialEq, Eq, Structural)]
pub struct Effects {
    /// Pin and line changes from the power sequencer.
    pub power: PowerActions,
    /// Start driving this tone.
    pub start_tone: Option<ToneCommand>,
    /// Stop driving the tone.
    pub stop_tone: bool,
    /// Cancel the delayed speaker-stop scheduled under this token.
    pub cancel_speaker_timer: Option<u64>,
    /// Schedule a delayed speaker-stop.
    pub schedule_speaker_off: Option<SpeakerOff>,
}

/// No hardware action at all.
pub open spec fn spec_no_effects() -> Effects {
    Effects {
        power: PowerActions::spec_none(),
        start_tone: None,
        stop_tone: false,
        cancel_speaker_timer: None,
        schedule_speaker_off: None,
    }
}

impl Effects {
    /// Builds the empty action set.
    pub fn none() -> (r: Effects)
        ensures
            r == spec_no_effects(),
    {
        Effects {
            power: PowerActions {
                set_sys_reset: None,
                set_dc_on: None,
                set_led_power: None,
                schedule_exit_reset: false,
                set_host_irq_mask: None,
                disable_transport: false,
                restart_led_blink: false,
            },
            start_tone: None,
            stop_tone: false,
            cancel_speaker_timer: None,
            schedule_speaker_off: None,
        }
    }
}

/// The whole device state the dispatch loop owns.
pub struct Dispatcher {
    /// The host-visible register file.
    pub registers: RegisterState,
    /// The bus transport engine.
    pub spi: SpiPeripheral,
    /// The event queue (consumer side).
    pub queue: EventQueue,
    /// The power sequencer's state.
    pub power_state: DcPowerState,
    /// Whether the host service interrupt line is masked.
    pub host_irq_masked: bool,
    /// How many malformed PS/2 words were dropped.
    pub ps2_dropped: u32,
    /// The speaker's delayed-stop bookkeeping.
    pub speaker: SpeakerScheduler,
}

/// The transport engine, untouched.
pub open spec fn spec_spi_unchanged(pre: SpiPeripheral, post: SpiPeripheral) -> bool {
    &&& post.state == pre.state
    &&& post.rx@ == pre.rx@
    &&& post.tx@ == pre.tx@
    &&& post.tx_pos == pre.tx_pos
}

/// Which button edge, if any, an event reports to the power sequencer.
pub open spec fn spec_button_event(msg: Message) -> Option<ButtonEvent> {
    match msg {
        Message::PowerButtonShortPress => Some(ButtonEvent::PowerShortPress),
        Message::PowerButtonLongPress => Some(ButtonEvent::PowerLongPress),
        Message::PowerButtonRelease => Some(ButtonEvent::PowerRelease),
        Message::ResetButtonShortPress => Some(ButtonEvent::ResetShortPress),
        _ => None,
    }
}

/// Whether handling `req` must start a tone: the request is a fresh
/// duration write, or an earlier one left the speaker configuration dirty.
pub open spec fn spec_tone_due(req: Request, regs: RegisterState) -> bool {
    ||| (regs.last_request != Some(req) && req.request_type == RequestType::ShortWrite
        && req.register == REG_SPEAKER_DURATION)
    ||| regs.speaker_dirty
}

/// Everything `handle_message` promises, event by event.
pub open spec fn spec_dispatch_post(
    msg: Message,
    pre: Dispatcher,
    post: Dispatcher,
    r: Result<Effects, FatalError>,
) -> bool {
    match msg {
        Message::Ps2Data0(w) => {
            &&& r == Ok::<Effects, FatalError>(spec_no_effects())
            &&& spec_spi_unchanged(pre.spi, post.spi)
            &&& post.queue@ == pre.queue@
            &&& post.power_state == pre.power_state
            &&& post.host_irq_masked == pre.host_irq_masked
            &&& post.speaker == pre.speaker
            &&& (if spec_frame_ok(w) {
                post.ps2_dropped == pre.ps2_dropped && spec_kb_push_post(
                    pre.registers,
                    post.registers,
                    spec_data_byte(w),
                )
            } else {
                post.ps2_dropped == spec_sat_inc(pre.ps2_dropped) && spec_registers_unchanged(
                    pre.registers,
                    post.registers,
                )
            })
        },
        Message::Ps2Data1(w) => {
            &&& r == Ok::<Effects, FatalError>(spec_no_effects())
            &&& spec_spi_unchanged(pre.spi, post.spi)
            &&& post.queue@ == pre.queue@
            &&& post.power_state == pre.power_state
            &&& post.host_irq_masked == pre.host_irq_masked
            &&& post.speaker == pre.speaker
            &&& spec_registers_unchanged(pre.registers, post.registers)
            &&& post.ps2_dropped == (if spec_frame_ok(w) {
                pre.ps2_dropped
            } else {
                spec_sat_inc(pre.ps2_dropped)
            })
        },
        Message::SpiRequest(req) => {
            let bytes = spec_process_bytes(req, pre.registers);
            let tone_due = spec_tone_due(req, pre.registers);
            &&& spec_process_post(
                req,
                pre.registers,
                spec_with_dirty(post.registers, tone_due),
                bytes,
            )
            &&& !post.registers.speaker_dirty
            &&& post.spi.tx@ == bytes
            &&& post.spi.tx_pos == 0
            &&& post.spi.state == pre.spi.state
            &&& post.spi.rx@ == pre.spi.rx@
            &&& post.queue@ == pre.queue@
            &&& post.power_state == pre.power_state
            &&& post.host_irq_masked == pre.host_irq_masked
            &&& post.ps2_dropped == pre.ps2_dropped
            &&& (if tone_due {
                &&& post.speaker.pending == Some(pre.speaker.next_token)
                &&& post.speaker.next_token == pre.speaker.next_token + 1
                &&& r == Ok::<Effects, FatalError>(
                    Effects {
                        power: PowerActions::spec_none(),
                        start_tone: Some(
                            ToneCommand {
                                period_high: post.registers.speaker_period_high,
                                period_low: post.registers.speaker_period_low,
                                duty_cycle: post.registers.speaker_duty_cycle,
                                duration_ms: (post.registers.speaker_duration * 10) as u16,
                            },
                        ),
                        stop_tone: false,
                        cancel_speaker_timer: pre.speaker.pending,
                        schedule_speaker_off: Some(
                            SpeakerOff {
                                token: pre.speaker.next_token,
                                delay_ms: (post.registers.speaker_duration * 10) as u16,
                            },
                        ),
                    },
                )
            } else {
                post.speaker == pre.speaker && r == Ok::<Effects, FatalError>(spec_no_effects())
            })
        },
        Message::PowerButtonShortPress
        | Message::PowerButtonLongPress
        | Message::PowerButtonRelease
        | Message::ResetButtonShortPress => {
            let ev = spec_button_event(msg)->0;
            let actions = spec_power_actions(pre.power_state, ev);
            &&& post.power_state == spec_power_next(pre.power_state, ev)
            &&& r == Ok::<Effects, FatalError>(
                Effects {
                    power: actions,
                    start_tone: None,
                    stop_tone: false,
                    cancel_speaker_timer: None,
                    schedule_speaker_off: None,
                },
            )
            &&& post.host_irq_masked == (match actions.set_host_irq_mask {
                Some(m) => m,
                None => pre.host_irq_masked,
            })
            &&& (if actions.disable_transport {
                &&& post.spi.state == TransportState::Disabled
                &&& post.spi.rx@ == Seq::<u8>::empty()
                &&& post.spi.tx@ == Seq::<u8>::empty()
                &&& post.spi.tx_pos == 0
            } else {
                spec_spi_unchanged(pre.spi, post.spi)
            })
            &&& spec_registers_unchanged(pre.registers, post.registers)
            &&& post.queue@ == pre.queue@
            &&& post.ps2_dropped == pre.ps2_dropped
            &&& post.speaker == pre.speaker
        },
        Message::UartByte(_) => {
            &&& r == Ok::<Effects, FatalError>(spec_no_effects())
            &&& spec_registers_unchanged(pre.registers, post.registers)
            &&& spec_spi_unchanged(pre.spi, post.spi)
            &&& post.queue@ == pre.queue@
            &&& post.power_state == pre.power_state
            &&& post.host_irq_masked == pre.host_irq_masked
            &&& post.ps2_dropped == pre.ps2_dropped
            &&& post.speaker == pre.speaker
        },
        Message::BusEnable => {
            &&& r == Ok::<Effects, FatalError>(spec_no_effects())
            &&& post.spi.state == TransportState::Receiving
            &&& post.spi.rx@ == Seq::<u8>::empty()
            &&& post.spi.tx@ == pre.spi.tx@
            &&& post.spi.tx_pos == 0
            &&& spec_registers_unchanged(pre.registers, post.registers)
            &&& post.queue@ == pre.queue@
            &&& post.power_state == pre.power_state
            &&& post.host_irq_masked == pre.host_irq_masked
            &&& post.ps2_dropped == pre.ps2_dropped
            &&& post.speaker == pre.speaker
        },
        Message::BusDisable => {
            &&& r == Ok::<Effects, FatalError>(spec_no_effects())
            &&& (match pre.spi.state {
                TransportState::Receiving => post.spi.state == TransportState::Disabled
                    && post.spi.rx@ == Seq::<u8>::empty(),
                TransportState::Disabled => post.spi.state == TransportState::Disabled
                    && post.spi.rx@ == pre.spi.rx@,
                TransportState::Complete => post.spi.state == TransportState::Complete
                    && post.spi.rx@ == pre.spi.rx@,
            })
            &&& post.spi.tx@ == pre.spi.tx@
            &&& post.spi.tx_pos == pre.spi.tx_pos
            &&& spec_registers_unchanged(pre.registers, post.registers)
            &&& post.queue@ == pre.queue@
            &&& post.power_state == pre.power_state
            &&& post.host_irq_masked == pre.host_irq_masked
            &&& post.ps2_dropped == pre.ps2_dropped
            &&& post.speaker == pre.speaker
        },
        Message::BusRequestReady => {
            &&& spec_registers_unchanged(pre.registers, post.registers)
            &&& post.power_state == pre.power_state
            &&& post.host_irq_masked == pre.host_irq_masked
            &&& post.ps2_dropped == pre.ps2_dropped
            &&& post.speaker == pre.speaker
            &&& (match pre.spi.state {
                TransportState::Complete => {
                    match spec_parse_request(pre.spi.rx@) {
                        Ok(req) => {
                            &&& post.queue@ == spec_enqueue_step(
                                pre.queue@,
                                Message::SpiRequest(req),
                            ).0
                            &&& r == (if spec_enqueue_step(
                                pre.queue@,
                                Message::SpiRequest(req),
                            ).1 {
                                Ok::<Effects, FatalError>(spec_no_effects())
                            } else {
                                Err::<Effects, FatalError>(FatalError::QueueOverflow)
                            })
                            &&& post.spi.state == TransportState::Disabled
                            &&& post.spi.rx@ == Seq::<u8>::empty()
                            &&& post.spi.tx@ == pre.spi.tx@
                            &&& post.spi.tx_pos == pre.spi.tx_pos
                        },
                        Err(ProtoError::BadLength) => r == Err::<Effects, FatalError>(
                            FatalError::TransportDesync,
                        ),
                        Err(e) => {
                            &&& r == Ok::<Effects, FatalError>(spec_no_effects())
                            &&& post.queue@ == pre.queue@
                            &&& post.spi.state == TransportState::Disabled
                            &&& post.spi.rx@ == Seq::<u8>::empty()
                            &&& post.spi.tx@ == spec_response_wire(
                                spec_result_of_error(e),
                                Seq::<u8>::empty(),
                            )
                            &&& post.spi.tx_pos == 0
                        },
                    }
                },
                _ => r == Ok::<Effects, FatalError>(spec_no_effects()) && spec_spi_unchanged(
                    pre.spi,
                    post.spi,
                ) && post.queue@ == pre.queue@,
            })
        },
        Message::SpeakerDisable(token) => {
            &&& post.speaker.next_token == pre.speaker.next_token
            &&& post.speaker.pending == (if pre.speaker.pending == Some(token) {
                None::<u64>
            } else {
                pre.speaker.pending
            })
            &&& r == Ok::<Effects, FatalError>(
                Effects {
                    power: PowerActions::spec_none(),
                    start_tone: None,
                    stop_tone: (pre.speaker.pending == Some(token)),
                    cancel_speaker_timer: None,
                    schedule_speaker_off: None,
                },
            )
            &&& spec_registers_unchanged(pre.registers, post.registers)
            &&& spec_spi_unchanged(pre.spi, post.spi)
            &&& post.queue@ == pre.queue@
            &&& post.power_state == pre.power_state
            &&& post.host_irq_masked == pre.host_irq_masked
            &&& post.ps2_dropped == pre.ps2_dropped
        },
    }
}

/// The host service line is active exactly while the keyboard FIFO holds
/// bytes and the line is not masked.
pub open spec fn spec_host_irq_active(d: Dispatcher) -> bool {
    d.registers.kb_fifo@.len() > 0 && !d.host_irq_masked
}

impl Dispatcher {
    /// The dispatcher's invariant.
    pub open spec fn wf(&self) -> bool {
        &&& self.registers.wf()
        &&& self.spi.wf()
        &&& self.speaker.wf()
    }

    /// A fresh device around the given 32-byte version string: powered off,
    /// transport disabled, queue empty, host line masked.
    pub fn new(firmware_version: Vec<u8>) -> (r: Dispatcher)
        requires
            firmware_version@.len() == 32,
        ensures
            r.wf(),
            r.registers.firmware_version@ == firmware_version@,
            r.registers.kb_fifo@ == Seq::<u8>::empty(),
            r.power_state == DcPowerState::Off,
            r.host_irq_masked,
            r.ps2_dropped == 0,
            r.queue@ == Seq::<Message>::empty(),
            r.spi.state == TransportState::Disabled,
            r.speaker.pending is None,
    {
        Dispatcher {
            registers: RegisterState::new(firmware_version),
            spi: SpiPeripheral::new(),
            queue: EventQueue::new(),
            power_state: DcPowerState::Off,
            host_irq_masked: true,
            ps2_dropped: 0,
            speaker: SpeakerScheduler::new(),
        }
    }

    /// The level the host service interrupt line should drive.
    pub fn host_service_level(&self) -> (r: bool)
        ensures
            r == spec_host_irq_active(*self),
    {
        self.registers.kb_fifo.len() > 0 && !self.host_irq_masked
    }

    /// Interprets one event: every state change it implies happens here, and
    /// the hardware actions it asks for come back. A fatal fault (queue
    /// overflow, transport desynchronization) is reported, never papered
    /// over; the caller halts on it as the error-handling policy demands.
    pub fn handle_message(&mut self, msg: Message) -> (r: Result<Effects, FatalError>)
        requires
            old(self).wf(),
            old(self).speaker.next_token < u64::MAX,
        ensures
            final(self).wf(),
            spec_dispatch_post(msg, *old(self), *final(self), r),
    {
        match msg {
            Message::Ps2Data0(word) => {
                match Ps2Decoder::check_word(word) {
                    Some(byte) => {
                        self.registers.kb_push(byte);
                    },
                    None => {
                        if self.ps2_dropped < u32::MAX {
                            self.ps2_dropped = self.ps2_dropped + 1;
                        }
                    },
                }
                Ok(Effects::none())
            },
            Message::Ps2Data1(word) => {
                match Ps2Decoder::check_word(word) {
                    Some(_) => {},
                    None => {
                        if self.ps2_dropped < u32::MAX {
                            self.ps2_dropped = self.ps2_dropped + 1;
                        }
                    },
                }
                Ok(Effects::none())
            },
            Message::SpiRequest(req) => {
                proof {
                    lemma_process_bytes_fit(req, self.registers);
                }
                let bytes = process(&req, &mut self.registers);
                let loaded = self.spi.load_transmit_frame(bytes);
                proof {
                    assert(loaded is Ok);
                }
                let mut effects = Effects::none();
                if self.registers.speaker_dirty {
                    let (cancel, token) = self.speaker.arm();
                    let duration_ms: u16 = (self.registers.speaker_duration as u16) * 10;
                    effects.start_tone = Some(
                        ToneCommand {
                            period_high: self.registers.speaker_period_high,
                            period_low: self.registers.speaker_period_low,
                            duty_cycle: self.registers.speaker_duty_cycle,
                            duration_ms,
                        },
                    );
                    effects.cancel_speaker_timer = cancel;
                    effects.schedule_speaker_off = Some(SpeakerOff { token, delay_ms: duration_ms });
                    self.registers.speaker_dirty = false;
                }
                Ok(effects)
            },
            Message::PowerButtonShortPress
            | Message::PowerButtonLongPress
            | Message::PowerButtonRelease
            | Message::ResetButtonShortPress => {
                let ev = match msg {
                    Message::PowerButtonShortPress => ButtonEvent::PowerShortPress,
                    Message::PowerButtonLongPress => ButtonEvent::PowerLongPress,
                    Message::PowerButtonRelease => ButtonEvent::PowerRelease,
                    _ => ButtonEvent::ResetShortPress,
                };
                let (next, actions) = power_step(self.power_state, ev);
                self.power_state = next;
                if actions.disable_transport {
                    self.spi.reset();
                }
                match actions.set_host_irq_mask {
                    Some(m) => {
                        self.host_irq_masked = m;
                    },
                    None => {},
                }
                let mut effects = Effects::none();
                effects.power = actions;
                Ok(effects)
            },
            Message::UartByte(_) => {
                // The UART relay has no protocol of its own; the byte is
                // left to the caller's pass-through.
                Ok(Effects::none())
            },
            Message::BusEnable => {
                self.spi.enable();
                Ok(Effects::none())
            },
            Message::BusDisable => {
                self.spi.disable();
                Ok(Effects::none())
            },
            Message::BusRequestReady => {
                match self.spi.get_received() {
                    None => Ok(Effects::none()),
                    Some(frame) => {
                        match Request::from_bytes(&frame) {
                            Ok(req) => {
                                match self.queue.enqueue(Message::SpiRequest(req)) {
                                    Ok(()) => Ok(Effects::none()),
                                    Err(_) => Err(FatalError::QueueOverflow),
                                }
                            },
                            Err(ProtoError::BadLength) => Err(FatalError::TransportDesync),
                            Err(e) => {
                                let code = match e {
                                    ProtoError::BadCrc => crate::proto::ResponseResult::BadCrc,
                                    _ => crate::proto::ResponseResult::BadRequestType,
                                };
                                let rsp = Response::new_without_data(code);
                                let loaded = self.spi.set_transmit_sendable(&rsp);
                                proof {
                                    assert(loaded is Ok);
                                }
                                Ok(Effects::none())
                            },
                        }
                    },
                }
            },
            Message::SpeakerDisable(token) => {
                let stop = self.speaker.fired(token);
                let mut effects = Effects::none();
                effects.stop_tone = stop;
                Ok(effects)
            },
        }
    }
}

/// One poll tick of the two buttons: each debounced channel shifts in the
/// raw level, and the edges become at most one power-button event and one
/// reset-button event. A simultaneous long-press edge masks the short-press
/// edge, exactly as the power sequencer expects.
pub open spec fn spec_power_button_message(
    long_edge: Option<Edge>,
    short_edge: Option<Edge>,
) -> Option<Message> {
    match (long_edge, short_edge) {
        (None, Some(Edge::Rising)) => Some(Message::PowerButtonShortPress),
        (None, Some(Edge::Falling)) => Some(Message::PowerButtonRelease),
        (Some(Edge::Rising), None) => Some(Message::PowerButtonLongPress),
        _ => None,
    }
}

/// Polls the raw button levels through the three debounced channels and
/// returns the events to enqueue: at most one for the power button and one
/// for the reset button.
pub fn button_poll_step(
    power_pressed: bool,
    reset_pressed: bool,
    power_short: &mut Debouncer,
    power_long: &mut Debouncer,
    reset_short: &mut Debouncer,
) -> (events: (Option<Message>, Option<Message>))
    requires
        old(power_short).wf(),
        old(power_long).wf(),
        old(reset_short).wf(),
    ensures
        final(power_short).wf(),
        final(power_long).wf(),
        final(reset_short).wf(),
        *final(power_short) == spec_after_update(*old(power_short), power_pressed),
        *final(power_long) == spec_after_update(*old(power_long), power_pressed),
        *final(reset_short) == spec_after_update(*old(reset_short), reset_pressed),
        events.0 == spec_power_button_message(
            spec_update_edge(*old(power_long), power_pressed),
            spec_update_edge(*old(power_short), power_pressed),
        ),
        events.1 == (if spec_update_edge(*old(reset_short), reset_pressed) == Some(
            Edge::Rising,
        ) {
            Some(Message::ResetButtonShortPress)
        } else {
            None::<Message>
        }),
{
    let short_edge = power_short.update(power_pressed);
    let long_edge = power_long.update(power_pressed);
    let reset_edge = reset_short.update(reset_pressed);
    let power_event = match (long_edge, short_edge) {
        (None, Some(Edge::Rising)) => Some(Message::PowerButtonShortPress),
        (None, Some(Edge::Falling)) => Some(Message::PowerButtonRelease),
        (Some(Edge::Rising), None) => Some(Message::PowerButtonLongPress),
        _ => None,
    };
    let reset_event = match reset_edge {
        Some(Edge::Rising) => Some(Message::ResetButtonShortPress),
        _ => None,
    };
    (power_event, reset_event)
}

} // verus!
