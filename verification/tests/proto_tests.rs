use neotron_bmc::proto::{crc8, ProtoError, Request, RequestType, Response, ResponseResult};

#[test]
fn crc8_known_values() {
    assert_eq!(crc8(&vec![]), 0x00);
    assert_eq!(crc8(&vec![0x00]), 0x00);
    assert_eq!(crc8(&vec![0x01]), 0x07);
    // The classic check value for this polynomial: the digits "1".."9".
    assert_eq!(crc8(&b"123456789".to_vec()), 0xF4);
}

#[test]
fn request_frame_layout() {
    let req = Request { register: 0x00, request_type: RequestType::Read, length_or_data: 32 };
    let frame = req.to_bytes();
    assert_eq!(frame.len(), 4);
    assert_eq!(frame[0], 0x00);
    assert_eq!(frame[1], 0x00);
    assert_eq!(frame[2], 32);
    assert_eq!(frame[3], crc8(&vec![0x00, 0x00, 32]));
}

#[test]
fn request_round_trip() {
    let req = Request { register: 0x20, request_type: RequestType::ShortWrite, length_or_data: 9 };
    let frame = req.to_bytes();
    assert_eq!(Request::from_bytes(&frame), Ok(req));
}

#[test]
fn request_read_alt_round_trip() {
    let req = Request { register: 0x10, request_type: RequestType::ReadAlt, length_or_data: 17 };
    let frame = req.to_bytes();
    assert_eq!(frame[1], 2);
    assert_eq!(Request::from_bytes(&frame), Ok(req));
}

#[test]
fn request_bad_length() {
    assert_eq!(Request::from_bytes(&vec![0, 0, 0]), Err(ProtoError::BadLength));
    assert_eq!(Request::from_bytes(&vec![0, 0, 0, 0, 0]), Err(ProtoError::BadLength));
    assert_eq!(Request::from_bytes(&vec![]), Err(ProtoError::BadLength));
}

#[test]
fn request_bad_crc() {
    let req = Request { register: 0x01, request_type: RequestType::Read, length_or_data: 3 };
    let mut frame = req.to_bytes();
    let bad = frame[3] ^ 0xFF;
    frame[3] = bad;
    assert_eq!(Request::from_bytes(&frame), Err(ProtoError::BadCrc));
}

#[test]
fn request_bad_request_type() {
    let mut body = vec![0x00u8, 0x03, 0x00];
    let crc = crc8(&body);
    body.push(crc);
    assert_eq!(Request::from_bytes(&body), Err(ProtoError::BadRequestType));
}

#[test]
fn request_implicit_variant_agrees() {
    let req = Request { register: 0x23, request_type: RequestType::ShortWrite, length_or_data: 5 };
    let frame = req.to_bytes();
    let bare = vec![frame[0], frame[1], frame[2]];
    assert_eq!(Request::from_bytes_implicit(&bare), Ok(req));
    assert_eq!(Request::from_bytes_implicit(&vec![0, 0]), Err(ProtoError::BadLength));
    assert_eq!(Request::from_bytes_implicit(&vec![0, 9, 0]), Err(ProtoError::BadRequestType));
}

#[test]
fn response_frame_layout() {
    let rsp = Response::new_ok_with_data(vec![0xAA, 0xBB]);
    assert_eq!(rsp.result, ResponseResult::Success);
    let frame = rsp.to_bytes();
    assert_eq!(frame.len(), 4);
    assert_eq!(frame[0], 0x00);
    assert_eq!(frame[1], 0xAA);
    assert_eq!(frame[2], 0xBB);
    assert_eq!(frame[3], crc8(&vec![0x00, 0xAA, 0xBB]));
}

#[test]
fn response_without_data() {
    let rsp = Response::new_without_data(ResponseResult::BadRegister);
    let frame = rsp.to_bytes();
    assert_eq!(frame.len(), 2);
    assert_eq!(frame[0], 3);
    assert_eq!(frame[1], crc8(&vec![3u8]));
}

#[test]
fn response_result_codes() {
    assert_eq!(Response::new_without_data(ResponseResult::Success).to_bytes()[0], 0);
    assert_eq!(Response::new_without_data(ResponseResult::BadCrc).to_bytes()[0], 1);
    assert_eq!(Response::new_without_data(ResponseResult::BadLength).to_bytes()[0], 2);
    assert_eq!(Response::new_without_data(ResponseResult::BadRegister).to_bytes()[0], 3);
    assert_eq!(Response::new_without_data(ResponseResult::BadRequestType).to_bytes()[0], 4);
}
