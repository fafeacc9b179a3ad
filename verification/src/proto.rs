//! The bus wire protocol: fixed-size request frames, variable-size response
//! frames, and the CRC-8 integrity code both carry.
//!
//! Wire format (this build uses the explicit-integrity variant throughout):
//! a request frame is exactly 4 bytes, `[register, request_type,
//! length_or_data, crc]`, where `request_type` is 0 for `Read`, 1 for
//! `ShortWrite`, 2 for `ReadAlt`, and `crc` is the CRC-8 of the first three
//! bytes. A response frame is `[result, payload.., crc]`, where `crc` is the
//! CRC-8 of everything before it. The CRC-8 uses the polynomial 0x07,
//! most-significant bit first, with initial value 0.

use vstd::prelude::*;

verus! {

/// One step of the CRC-8 bit loop: shift left and, if a one bit fell out,
/// fold in the polynomial 0x07.
pub open spec fn crc8_bit(c: u8) -> u8 {
    if c & 0x80 != 0 {
        (c << 1) ^ 0x07
    } else {
        c << 1
    }
}

/// `crc8_bit` applied `k` times.
pub open spec fn crc8_bits(c: u8, k: nat) -> u8
    decreases k,
{
    if k == 0 {
        c
    } else {
        crc8_bit(crc8_bits(c, (k - 1) as nat))
    }
}

/// Folding one byte into a running CRC-8: xor it in, then run eight bit
/// steps.
pub open spec fn crc8_byte(c: u8, b: u8) -> u8 {
    crc8_bits(c ^ b, 8)
}

/// The CRC-8 of a byte sequence, starting from 0.
pub open spec fn spec_crc8(s: Seq<u8>) -> u8
    decreases s.len(),
{
    if s.len() == 0 {
        0
    } else {
        crc8_byte(spec_crc8(s.drop_last()), s.last())
    }
}

/// Computes the CRC-8 of `data`.
pub fn crc8(data: &Vec<u8>) -> (crc: u8)
    ensures
        crc == spec_crc8(data@),
{
    let mut crc: u8 = 0;
    let mut i: usize = 0;
    while i < data.len()
        invariant
            i <= data.len(),
            crc == spec_crc8(data@.take(i as int)),
        decreases data.len() - i,
    {
        let b = data[i];
        let mut c: u8 = crc ^ b;
        let mut k: usize = 0;
        while k < 8
            invariant
                k <= 8,
                c == crc8_bits(crc ^ b, k as nat),
            decreases 8 - k,
        {
            if c & 0x80 != 0 {
                c = (c << 1) ^ 0x07;
            } else {
                c = c << 1;
            }
            k = k + 1;
        }
        proof {
            assert(data@.take(i + 1).drop_last() =~= data@.take(i as int));
            assert(data@.take(i + 1).last() == data@[i as int]);
        }
        crc = c;
        i = i + 1;
    }
    proof {
        assert(data@.take(data@.len() as int) =~= data@);
    }
    crc
}

/// What the host asks of a register.
#[derive(Clone, Copy, Debug, PartialEq, Eq, Structural)]
pub enum RequestType {
    /// Read a number of bytes from a register.
    Read,
    /// Write one inline byte to a register.
    ShortWrite,
    /// The alternate read encoding; handled exactly as `Read`.
    ReadAlt,
}

/// The wire byte of a request type.
pub open spec fn spec_type_byte(t: RequestType) -> u8 {
    match t {
        RequestType::Read => 0,
        RequestType::ShortWrite => 1,
        RequestType::ReadAlt => 2,
    }
}

/// The request type a wire byte names, if any.
pub open spec fn spec_type_of_byte(b: u8) -> Option<RequestType> {
    if b == 0 {
        Some(RequestType::Read)
    } else if b == 1 {
        Some(RequestType::ShortWrite)
    } else if b == 2 {
        Some(RequestType::ReadAlt)
    } else {
        None
    }
}

/// One decoded host request.
#[derive(Clone, Copy, Debug, PartialEq, Eq, Structural)]
pub struct Request {
    /// Which register the request touches.
    pub register: u8,
    /// What to do with it.
    pub request_type: RequestType,
    /// For a read: how many bytes are asked for. For a short write: the byte
    /// to write.
    pub length_or_data: u8,
}

/// Why a request frame was rejected.
#[derive(Clone, Copy, Debug, PartialEq, Eq, Structural)]
pub enum ProtoError {
    /// The frame does not have the expected length.
    BadLength,
    /// The integrity code does not match the frame.
    BadCrc,
    /// The request type byte names no request type.
    BadRequestType,
}

/// The 4-byte wire form of a request.
pub open spec fn spec_request_wire(req: Request) -> Seq<u8> {
    let body = seq![req.register, spec_type_byte(req.request_type), req.length_or_data];
    body.push(spec_crc8(body))
}

/// Decoding a 4-byte request frame, integrity code included: every error is
/// named, in the order the checks run.
pub open spec fn spec_parse_request(bytes: Seq<u8>) -> Result<Request, ProtoError> {
    if bytes.len() != 4 {
        Err(ProtoError::BadLength)
    } else if bytes[3] != spec_crc8(bytes.take(3)) {
        Err(ProtoError::BadCrc)
    } else if spec_type_of_byte(bytes[1]) is None {
        Err(ProtoError::BadRequestType)
    } else {
        Ok(
            Request {
                register: bytes[0],
                request_type: spec_type_of_byte(bytes[1])->0,
                length_or_data: bytes[2],
            },
        )
    }
}

/// Decoding the implicit-length variant: a bare 3-byte request whose
/// integrity is vouched for by the frame length alone.
pub open spec fn spec_parse_request_implicit(bytes: Seq<u8>) -> Result<Request, ProtoError> {
    if bytes.len() != 3 {
        Err(ProtoError::BadLength)
    } else if spec_type_of_byte(bytes[1]) is None {
        Err(ProtoError::BadRequestType)
    } else {
        Ok(
            Request {
                register: bytes[0],
                request_type: spec_type_of_byte(bytes[1])->0,
                length_or_data: bytes[2],
            },
        )
    }
}

impl Request {
    /// Serializes the request into its 4-byte frame.
    pub fn to_bytes(&self) -> (r: Vec<u8>)
        ensures
            r@ == spec_request_wire(*self),
    {
        let mut v: Vec<u8> = Vec::new();
        v.push(self.register);
        v.push(
            match self.request_type {
                RequestType::Read => 0,
                RequestType::ShortWrite => 1,
                RequestType::ReadAlt => 2,
            },
        );
        v.push(self.length_or_data);
        proof {
            assert(v@ =~= seq![
                self.register,
                spec_type_byte(self.request_type),
                self.length_or_data,
            ]);
        }
        let crc = crc8(&v);
        v.push(crc);
        v
    }

    /// Decodes a 4-byte request frame, checking its integrity code.
    pub fn from_bytes(bytes: &Vec<u8>) -> (r: Result<Request, ProtoError>)
        ensures
            r == spec_parse_request(bytes@),
    {
        if bytes.len() != 4 {
            return Err(ProtoError::BadLength);
        }
        let mut body: Vec<u8> = Vec::new();
        body.push(bytes[0]);
        body.push(bytes[1]);
        body.push(bytes[2]);
        proof {
            assert(body@ =~= bytes@.take(3));
        }
        let crc = crc8(&body);
        if bytes[3] != crc {
            return Err(ProtoError::BadCrc);
        }
        let request_type = if bytes[1] == 0 {
            RequestType::Read
        } else if bytes[1] == 1 {
            RequestType::ShortWrite
        } else if bytes[1] == 2 {
            RequestType::ReadAlt
        } else {
            return Err(ProtoError::BadRequestType);
        };
        Ok(Request { register: bytes[0], request_type, length_or_data: bytes[2] })
    }

    /// Decodes a bare 3-byte request of the implicit-length variant.
    pub fn from_bytes_implicit(bytes: &Vec<u8>) -> (r: Result<Request, ProtoError>)
        ensures
            r == spec_parse_request_implicit(bytes@),
    {
        if bytes.len() != 3 {
            return Err(ProtoError::BadLength);
        }
        let request_type = if bytes[1] == 0 {
            RequestType::Read
        } else if bytes[1] == 1 {
            RequestType::ShortWrite
        } else if bytes[1] == 2 {
            RequestType::ReadAlt
        } else {
            return Err(ProtoError::BadRequestType);
        };
        Ok(Request { register: bytes[0], request_type, length_or_data: bytes[2] })
    }
}

/// Law: serializing a request and decoding the frame gives the request back,
/// so a frame that survives the wire intact is always accepted.
pub proof fn lemma_request_round_trip(req: Request)
    ensures
        spec_parse_request(spec_request_wire(req)) == Ok::<Request, ProtoError>(req),
{
    let w = spec_request_wire(req);
    assert(w.take(3) =~= seq![
        req.register,
        spec_type_byte(req.request_type),
        req.length_or_data,
    ]);
}

/// Law: the two request encodings decode to the same logical fields — the
/// explicit-integrity frame accepts a request exactly when its first three
/// bytes, taken as the implicit variant, decode to the same request.
pub proof fn lemma_request_encodings_agree(bytes: Seq<u8>, req: Request)
    requires
        spec_parse_request(bytes) == Ok::<Request, ProtoError>(req),
    ensures
        spec_parse_request_implicit(bytes.take(3)) == Ok::<Request, ProtoError>(req),
{
}

/// The result code a response carries.
#[derive(Clone, Copy, Debug, PartialEq, Eq, Structural)]
pub enum ResponseResult {
    /// The request was carried out; the payload is the answer. This is the
    /// protocol's "Ok" code.
    Success,
    /// The request's integrity code did not match.
    BadCrc,
    /// The requested length is not one the register supports.
    BadLength,
    /// No such register, or the register does not support the request type.
    BadRegister,
    /// The request type byte names no request type.
    BadRequestType,
}

/// The wire byte of a result code.
pub open spec fn spec_result_byte(r: ResponseResult) -> u8 {
    match r {
        ResponseResult::Success => 0,
        ResponseResult::BadCrc => 1,
        ResponseResult::BadLength => 2,
        ResponseResult::BadRegister => 3,
        ResponseResult::BadRequestType => 4,
    }
}

/// The result code a rejected request is answered with.
pub open spec fn spec_result_of_error(e: ProtoError) -> ResponseResult {
    match e {
        ProtoError::BadLength => ResponseResult::BadLength,
        ProtoError::BadCrc => ResponseResult::BadCrc,
        ProtoError::BadRequestType => ResponseResult::BadRequestType,
    }
}

/// One response to a host request.
#[derive(Clone, Debug, PartialEq, Eq)]
pub struct Response {
    /// The result code.
    pub result: ResponseResult,
    /// The payload; empty on every non-`Success` result.
    pub data: Vec<u8>,
}

/// The wire form of a response: result byte, payload, CRC-8 of both.
pub open spec fn spec_response_wire(result: ResponseResult, data: Seq<u8>) -> Seq<u8> {
    let body = seq![spec_result_byte(result)] + data;
    body.push(spec_crc8(body))
}

impl Response {
    /// A response that carries only a result code.
    pub fn new_without_data(result: ResponseResult) -> (r: Response)
        ensures
            r.result == result,
            r.data@ == Seq::<u8>::empty(),
    {
        Response { result, data: Vec::new() }
    }

    /// A `Success` response carrying `data`.
    pub fn new_ok_with_data(data: Vec<u8>) -> (r: Response)
        ensures
            r.result == ResponseResult::Success,
            r.data@ == data@,
    {
        Response { result: ResponseResult::Success, data }
    }

    /// Serializes the response into its wire frame, integrity code included.
    pub fn to_bytes(&self) -> (r: Vec<u8>)
        ensures
            r@ == spec_response_wire(self.result, self.data@),
    {
        let mut v: Vec<u8> = Vec::new();
        v.push(
            match self.result {
                ResponseResult::Success => 0,
                ResponseResult::BadCrc => 1,
                ResponseResult::BadLength => 2,
                ResponseResult::BadRegister => 3,
                ResponseResult::BadRequestType => 4,
            },
        );
        let mut i: usize = 0;
        while i < self.data.len()
            invariant
                i <= self.data.len(),
                v@ == seq![spec_result_byte(self.result)] + self.data@.take(i as int),
            decreases self.data.len() - i,
        {
            v.push(self.data[i]);
            proof {
                assert(seq![spec_result_byte(self.result)] + self.data@.take(i + 1) =~= (
                seq![spec_result_byte(self.result)] + self.data@.take(i as int)).push(
                    self.data@[i as int],
                ));
            }
            i = i + 1;
        }
        proof {
            assert(self.data@.take(self.data@.len() as int) =~= self.data@);
        }
        let crc = crc8(&v);
        v.push(crc);
        v
    }
}

} // verus!
