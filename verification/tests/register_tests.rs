use neotron_bmc::proto::{Request, RequestType, ResponseResult};
use neotron_bmc::registers::{
    evaluate, process, RegisterState, KB_FIFO_CAPACITY, REG_FIRMWARE_VERSION,
    REG_PROTOCOL_VERSION, REG_PS2_KB_BUFFER, REG_SPEAKER_DURATION, REG_SPEAKER_DUTY_CYCLE,
    REG_SPEAKER_PERIOD_HIGH, REG_SPEAKER_PERIOD_LOW,
};

fn firmware_version() -> Vec<u8> {
    let mut v = b"Neotron BMC v0.3.1".to_vec();
    v.resize(32, 0);
    v
}

fn fresh_state() -> RegisterState {
    RegisterState::new(firmware_version())
}

fn read(register: u8, length: u8) -> Request {
    Request { register, request_type: RequestType::Read, length_or_data: length }
}

fn write(register: u8, data: u8) -> Request {
    Request { register, request_type: RequestType::ShortWrite, length_or_data: data }
}

#[test]
fn firmware_version_full_read() {
    let state = fresh_state();
    let rsp = evaluate(&read(REG_FIRMWARE_VERSION, 32), &state);
    assert_eq!(rsp.result, ResponseResult::Success);
    assert_eq!(rsp.data, firmware_version());
}

#[test]
fn firmware_version_partial_read() {
    let state = fresh_state();
    let rsp = evaluate(&read(REG_FIRMWARE_VERSION, 7), &state);
    assert_eq!(rsp.result, ResponseResult::Success);
    assert_eq!(rsp.data, b"Neotron".to_vec());
}

#[test]
fn firmware_version_too_long_is_bad_length() {
    let state = fresh_state();
    let rsp = evaluate(&read(REG_FIRMWARE_VERSION, 40), &state);
    assert_eq!(rsp.result, ResponseResult::BadLength);
    assert!(rsp.data.is_empty());
}

#[test]
fn unknown_register_is_bad_register() {
    let state = fresh_state();
    let rsp = evaluate(&read(0x77, 1), &state);
    assert_eq!(rsp.result, ResponseResult::BadRegister);
    assert!(rsp.data.is_empty());
}

#[test]
fn write_to_read_only_register_is_bad_register() {
    let state = fresh_state();
    assert_eq!(
        evaluate(&write(REG_FIRMWARE_VERSION, 1), &state).result,
        ResponseResult::BadRegister
    );
    assert_eq!(
        evaluate(&write(REG_PS2_KB_BUFFER, 1), &state).result,
        ResponseResult::BadRegister
    );
}

#[test]
fn protocol_version_read() {
    let state = fresh_state();
    let rsp = evaluate(&read(REG_PROTOCOL_VERSION, 3), &state);
    assert_eq!(rsp.result, ResponseResult::Success);
    assert_eq!(rsp.data, vec![0, 1, 0]);
    assert_eq!(
        evaluate(&read(REG_PROTOCOL_VERSION, 2), &state).result,
        ResponseResult::BadLength
    );
}

#[test]
fn speaker_write_read_round_trip() {
    let mut state = fresh_state();
    for (reg, value) in [
        (REG_SPEAKER_DURATION, 7u8),
        (REG_SPEAKER_PERIOD_HIGH, 0x12),
        (REG_SPEAKER_PERIOD_LOW, 0x34),
        (REG_SPEAKER_DUTY_CYCLE, 50),
    ] {
        let wr = process(&write(reg, value), &mut state);
        assert_eq!(wr[0], 0x00);
        let rsp = evaluate(&read(reg, 1), &state);
        assert_eq!(rsp.result, ResponseResult::Success);
        assert_eq!(rsp.data, vec![value]);
    }
}

#[test]
fn speaker_read_wrong_length_is_bad_length() {
    let state = fresh_state();
    let rsp = evaluate(&read(REG_SPEAKER_DURATION, 2), &state);
    assert_eq!(rsp.result, ResponseResult::BadLength);
}

#[test]
fn duration_write_marks_speaker_dirty() {
    let mut state = fresh_state();
    process(&write(REG_SPEAKER_PERIOD_HIGH, 1), &mut state);
    assert!(!state.speaker_dirty);
    process(&write(REG_SPEAKER_DURATION, 20), &mut state);
    assert!(state.speaker_dirty);
    assert_eq!(state.speaker_duration, 20);
}

#[test]
fn kb_buffer_read_serves_count_bytes_and_padding() {
    let mut state = fresh_state();
    for b in [0x1C, 0x32, 0x21] {
        state.kb_push(b);
    }
    let rsp = evaluate(&read(REG_PS2_KB_BUFFER, 6), &state);
    assert_eq!(rsp.result, ResponseResult::Success);
    assert_eq!(rsp.data, vec![3, 0x1C, 0x32, 0x21, 0, 0]);
}

#[test]
fn kb_buffer_read_drains_served_bytes() {
    let mut state = fresh_state();
    for b in [0x1C, 0x32, 0x21] {
        state.kb_push(b);
    }
    process(&read(REG_PS2_KB_BUFFER, 3), &mut state);
    assert_eq!(state.kb_fifo, vec![0x21]);
}

#[test]
fn kb_buffer_bad_lengths() {
    let state = fresh_state();
    assert_eq!(
        evaluate(&read(REG_PS2_KB_BUFFER, 0), &state).result,
        ResponseResult::BadLength
    );
    assert_eq!(
        evaluate(&read(REG_PS2_KB_BUFFER, (KB_FIFO_CAPACITY + 2) as u8), &state).result,
        ResponseResult::BadLength
    );
}

#[test]
fn kb_fifo_overflow_drops_and_counts() {
    let mut state = fresh_state();
    for i in 0..KB_FIFO_CAPACITY {
        state.kb_push(i as u8);
    }
    assert_eq!(state.kb_fifo.len(), KB_FIFO_CAPACITY);
    state.kb_push(0xEE);
    assert_eq!(state.kb_fifo.len(), KB_FIFO_CAPACITY);
    assert_eq!(state.kb_overflows, 1);
    assert!(!state.kb_fifo.contains(&0xEE));
}

#[test]
fn identical_request_twice_is_idempotent() {
    let mut state = fresh_state();
    for b in [0x1C, 0x32, 0x21] {
        state.kb_push(b);
    }
    let req = read(REG_PS2_KB_BUFFER, 4);
    let first = process(&req, &mut state);
    let fifo_after_first = state.kb_fifo.clone();
    let second = process(&req, &mut state);
    assert_eq!(first, second);
    assert_eq!(state.kb_fifo, fifo_after_first);
}

#[test]
fn distinct_request_clears_retry_cache() {
    let mut state = fresh_state();
    state.kb_push(0x55);
    let req = read(REG_PS2_KB_BUFFER, 2);
    process(&req, &mut state);
    assert_eq!(state.last_request, Some(req));
    process(&read(REG_FIRMWARE_VERSION, 1), &mut state);
    assert_eq!(state.last_request, None);
    // The same FIFO read again now really reads (and finds it empty).
    let rsp = evaluate(&req, &state);
    assert_eq!(rsp.data, vec![0, 0]);
}

#[test]
fn non_destructive_request_twice_same_bytes() {
    let mut state = fresh_state();
    let req = read(REG_FIRMWARE_VERSION, 10);
    let first = process(&req, &mut state);
    let second = process(&req, &mut state);
    assert_eq!(first, second);
}
