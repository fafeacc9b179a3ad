use neotron_bmc::debounce::{Debouncer, DEBOUNCE_LONG_DEPTH, DEBOUNCE_SHORT_DEPTH};
use neotron_bmc::dispatch::{button_poll_step, Dispatcher, FatalError};
use neotron_bmc::event::Message;
use neotron_bmc::power::DcPowerState;
use neotron_bmc::proto::{crc8, Request, RequestType};
use neotron_bmc::ps2::Ps2Decoder;
use neotron_bmc::queue::{EventQueue, EVENT_QUEUE_CAPACITY};
use neotron_bmc::registers::{REG_FIRMWARE_VERSION, REG_PS2_KB_BUFFER, REG_SPEAKER_DURATION};
use neotron_bmc::spi::TransportState;

fn firmware_version() -> Vec<u8> {
    let mut v = b"Neotron BMC v0.3.1".to_vec();
    v.resize(32, 0);
    v
}

fn fresh_core() -> Dispatcher {
    Dispatcher::new(firmware_version())
}

/// The packed 11-bit PS/2 word that carries `byte` with correct framing.
fn kb_word(byte: u8) -> u16 {
    let mut word: u16 = 0;
    for i in 0..8 {
        if (byte >> i) & 1 == 1 {
            word |= 1 << (1 + i);
        }
    }
    if byte.count_ones() % 2 == 0 {
        word |= 1 << 9;
    }
    word |= 1 << 10;
    word
}

/// Runs one bus transaction: chip-select falls, the frame's bytes are
/// clocked in, chip-select rises. Returns the bytes clocked out.
fn run_transaction(core: &mut Dispatcher, frame: &[u8]) -> Vec<u8> {
    core.handle_message(Message::BusEnable).unwrap();
    let mut out = Vec::new();
    for &b in frame {
        out.push(core.spi.handle_byte(b));
    }
    core.handle_message(Message::BusDisable).unwrap();
    core.handle_message(Message::BusRequestReady).unwrap();
    out
}

#[test]
fn queue_accepts_up_to_capacity_and_keeps_order() {
    let mut q = EventQueue::new();
    for i in 0..EVENT_QUEUE_CAPACITY {
        assert!(q.enqueue(Message::UartByte(i as u8)).is_ok());
    }
    assert_eq!(q.len(), EVENT_QUEUE_CAPACITY);
    for i in 0..EVENT_QUEUE_CAPACITY {
        assert_eq!(q.dequeue(), Some(Message::UartByte(i as u8)));
    }
    assert_eq!(q.dequeue(), None);
}

#[test]
fn queue_overflow_is_observable() {
    let mut q = EventQueue::new();
    for _ in 0..EVENT_QUEUE_CAPACITY {
        assert!(q.enqueue(Message::PowerButtonShortPress).is_ok());
    }
    assert_eq!(
        q.enqueue(Message::UartByte(9)),
        Err(Message::UartByte(9))
    );
    assert_eq!(q.len(), EVENT_QUEUE_CAPACITY);
}

#[test]
fn bus_transaction_produces_firmware_version_response() {
    let mut core = fresh_core();
    let req = Request {
        register: REG_FIRMWARE_VERSION,
        request_type: RequestType::Read,
        length_or_data: 32,
    };
    run_transaction(&mut core, &req.to_bytes());
    let queued = core.queue.dequeue().expect("the decoded request is queued");
    assert_eq!(queued, Message::SpiRequest(req));
    core.handle_message(queued).unwrap();
    let mut expected = vec![0x00];
    expected.extend(firmware_version());
    let crc = crc8(&expected);
    expected.push(crc);
    assert_eq!(core.spi.tx, expected);
    // The next transaction clocks that response out.
    let out = run_transaction(&mut core, &[0u8; 4]);
    assert_eq!(out, expected[..4].to_vec());
}

#[test]
fn bad_crc_request_is_answered_with_bad_crc() {
    let mut core = fresh_core();
    let mut frame = Request {
        register: REG_FIRMWARE_VERSION,
        request_type: RequestType::Read,
        length_or_data: 4,
    }
    .to_bytes();
    frame[3] ^= 0xFF;
    run_transaction(&mut core, &frame);
    assert_eq!(core.queue.dequeue(), None);
    assert_eq!(core.spi.tx, vec![1, crc8(&vec![1u8])]);
}

#[test]
fn bad_request_type_is_answered_with_bad_request_type() {
    let mut core = fresh_core();
    let mut body = vec![0x00u8, 0x09, 0x00];
    let crc = crc8(&body);
    body.push(crc);
    run_transaction(&mut core, &body);
    assert_eq!(core.queue.dequeue(), None);
    assert_eq!(core.spi.tx, vec![4, crc8(&vec![4u8])]);
}

#[test]
fn request_on_full_queue_is_fatal_overflow() {
    let mut core = fresh_core();
    for _ in 0..EVENT_QUEUE_CAPACITY {
        core.queue.enqueue(Message::UartByte(0)).unwrap();
    }
    let req = Request {
        register: REG_FIRMWARE_VERSION,
        request_type: RequestType::Read,
        length_or_data: 1,
    };
    core.handle_message(Message::BusEnable).unwrap();
    for &b in req.to_bytes().iter() {
        core.spi.handle_byte(b);
    }
    core.handle_message(Message::BusDisable).unwrap();
    assert_eq!(
        core.handle_message(Message::BusRequestReady),
        Err(FatalError::QueueOverflow)
    );
}

#[test]
fn transport_hands_a_frame_out_exactly_once() {
    let mut core = fresh_core();
    core.spi.enable();
    for b in [1, 2, 3, 4] {
        core.spi.handle_byte(b);
    }
    assert_eq!(core.spi.state, TransportState::Complete);
    assert_eq!(core.spi.get_received(), Some(vec![1, 2, 3, 4]));
    assert_eq!(core.spi.get_received(), None);
}

#[test]
fn chip_select_release_aborts_partial_frames() {
    let mut core = fresh_core();
    core.spi.enable();
    core.spi.handle_byte(0xAA);
    core.handle_message(Message::BusDisable).unwrap();
    assert_eq!(core.spi.state, TransportState::Disabled);
    core.handle_message(Message::BusRequestReady).unwrap();
    assert_eq!(core.queue.dequeue(), None);
}

#[test]
fn keyboard_words_fill_the_fifo_and_raise_the_host_line() {
    let mut core = fresh_core();
    core.handle_message(Message::PowerButtonShortPress).unwrap();
    assert_eq!(core.power_state, DcPowerState::Starting);
    assert!(!core.host_irq_masked);
    assert!(!core.host_service_level());
    core.handle_message(Message::Ps2Data0(kb_word(0x1C))).unwrap();
    core.handle_message(Message::Ps2Data0(kb_word(0xF0))).unwrap();
    assert_eq!(core.registers.kb_fifo, vec![0x1C, 0xF0]);
    assert!(core.host_service_level());
    core.handle_message(Message::SpiRequest(Request {
        register: REG_PS2_KB_BUFFER,
        request_type: RequestType::Read,
        length_or_data: 17,
    }))
    .unwrap();
    assert!(!core.host_service_level());
}

#[test]
fn corrupted_keyboard_word_is_counted_not_queued() {
    let mut core = fresh_core();
    let bad = kb_word(0x1C) ^ (1 << 9);
    assert_eq!(Ps2Decoder::check_word(bad), None);
    core.handle_message(Message::Ps2Data0(bad)).unwrap();
    assert_eq!(core.registers.kb_fifo.len(), 0);
    assert_eq!(core.ps2_dropped, 1);
}

#[test]
fn mouse_words_are_checked_but_discarded() {
    let mut core = fresh_core();
    core.handle_message(Message::Ps2Data1(kb_word(0x08))).unwrap();
    assert_eq!(core.registers.kb_fifo.len(), 0);
    assert_eq!(core.ps2_dropped, 0);
    core.handle_message(Message::Ps2Data1(0)).unwrap();
    assert_eq!(core.ps2_dropped, 1);
}

#[test]
fn uart_byte_is_a_no_op_for_the_core() {
    let mut core = fresh_core();
    let eff = core.handle_message(Message::UartByte(0x41)).unwrap();
    assert_eq!(eff.power.set_dc_on, None);
    assert!(!eff.stop_tone);
    assert_eq!(core.power_state, DcPowerState::Off);
}

#[test]
fn duration_write_starts_and_reschedules_the_tone() {
    let mut core = fresh_core();
    let eff = core
        .handle_message(Message::SpiRequest(Request {
            register: REG_SPEAKER_DURATION,
            request_type: RequestType::ShortWrite,
            length_or_data: 5,
        }))
        .unwrap();
    let tone = eff.start_tone.expect("a duration write starts a tone");
    assert_eq!(tone.duration_ms, 50);
    assert_eq!(eff.cancel_speaker_timer, None);
    let off = eff.schedule_speaker_off.unwrap();
    assert_eq!(off.token, 0);
    assert_eq!(off.delay_ms, 50);
    assert!(!core.registers.speaker_dirty);
    // A second write before expiry cancels the first delayed stop.
    let eff2 = core
        .handle_message(Message::SpiRequest(Request {
            register: REG_SPEAKER_DURATION,
            request_type: RequestType::ShortWrite,
            length_or_data: 7,
        }))
        .unwrap();
    assert_eq!(eff2.cancel_speaker_timer, Some(0));
    assert_eq!(eff2.schedule_speaker_off.unwrap().token, 1);
    // A stale expiry is a no-op; the live one stops the tone.
    assert!(!core.handle_message(Message::SpeakerDisable(0)).unwrap().stop_tone);
    assert!(core.handle_message(Message::SpeakerDisable(1)).unwrap().stop_tone);
}

#[test]
fn power_off_resets_the_transport_and_masks_the_host_line() {
    let mut core = fresh_core();
    core.handle_message(Message::PowerButtonShortPress).unwrap();
    core.handle_message(Message::PowerButtonRelease).unwrap();
    assert_eq!(core.power_state, DcPowerState::On);
    core.spi.enable();
    let eff = core.handle_message(Message::PowerButtonLongPress).unwrap();
    assert_eq!(core.power_state, DcPowerState::Off);
    assert!(eff.power.disable_transport);
    assert_eq!(core.spi.state, TransportState::Disabled);
    assert!(core.spi.tx.is_empty());
    assert!(core.host_irq_masked);
}

#[test]
fn button_poll_reports_press_release_and_long_hold() {
    let mut short = Debouncer::new(DEBOUNCE_SHORT_DEPTH, false);
    let mut long = Debouncer::new(DEBOUNCE_LONG_DEPTH, false);
    let mut reset = Debouncer::new(DEBOUNCE_SHORT_DEPTH, false);
    let mut events = Vec::new();
    for _ in 0..DEBOUNCE_LONG_DEPTH {
        let (p, r) = button_poll_step(true, false, &mut short, &mut long, &mut reset);
        events.extend(p);
        assert_eq!(r, None);
    }
    for _ in 0..DEBOUNCE_SHORT_DEPTH {
        let (p, _) = button_poll_step(false, false, &mut short, &mut long, &mut reset);
        events.extend(p);
    }
    assert_eq!(
        events,
        vec![
            Message::PowerButtonShortPress,
            Message::PowerButtonLongPress,
            Message::PowerButtonRelease,
        ]
    );
}

#[test]
fn reset_button_taps_are_reported_once() {
    let mut short = Debouncer::new(DEBOUNCE_SHORT_DEPTH, false);
    let mut long = Debouncer::new(DEBOUNCE_LONG_DEPTH, false);
    let mut reset = Debouncer::new(DEBOUNCE_SHORT_DEPTH, false);
    let mut taps = 0;
    for _ in 0..5 {
        let (_, r) = button_poll_step(false, true, &mut short, &mut long, &mut reset);
        if r.is_some() {
            assert_eq!(r, Some(Message::ResetButtonShortPress));
            taps += 1;
        }
    }
    assert_eq!(taps, 1);
}
