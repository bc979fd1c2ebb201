//! The envelope layer: addressing and the tag that says how to read the body.
//!
//! ```text
//! [head][device_type][device_index:u16][group: 8 bytes][payload]
//! head bits: 7 = direction, 6 = needs reply, 5 = code, 4 = flag, 3..0 = body type
//! ```
//!
//! The envelope has no length field of its own: everything after the twelve
//! fixed bytes is payload, as bounded by the frame around it.

use vstd::prelude::*;
use vstd::slice::slice_subrange;
use vstd::slice::slice_to_vec;

use crate::bytes::{lemma_u16_le_roundtrip, push_u16_le, read_u16_le, u16_le, u16_le_at};
use crate::types::decoded_as;
use crate::types::ProtocolError;
pub use crate::types::{DeviceType, ProtocolResult, ReqRsp, RequestBodyType};

verus! {

/// The number of bytes before the payload.
pub const ENVELOPE_HEADER_LEN: usize = 12;

/// The place of the direction bit in the head byte.
pub const HEAD_DIRECTION_SHIFT: u8 = 7;

/// The place of the needs-reply bit in the head byte.
pub const HEAD_NEED_REPLY_SHIFT: u8 = 6;

/// The place of the `code` bit in the head byte.
pub const HEAD_CODE_SHIFT: u8 = 5;

/// The place of the `flag` bit in the head byte.
pub const HEAD_FLAG_SHIFT: u8 = 4;

/// Bit 7 of the head byte: the direction, set for a response.
pub const HEAD_DIRECTION_MASK: u8 = 0x80;

/// Bit 6 of the head byte: set when a reply is wanted.
pub const HEAD_NEED_REPLY_MASK: u8 = 0x40;

/// Bit 5 of the head byte: the `code` flag.
pub const HEAD_CODE_MASK: u8 = 0x20;

/// Bit 4 of the head byte: the `flag` flag.
pub const HEAD_FLAG_MASK: u8 = 0x10;

/// The low nibble of the head byte: the body type.
pub const HEAD_BODY_TYPE_MASK: u8 = 0x0f;

/// An envelope.
#[derive(Debug, Clone, PartialEq, Eq)]
pub struct Layer2Protocol {
    pub req_rsp: ReqRsp,
    pub is_need_reply: bool,
    pub code: bool,
    pub flag: bool,
    pub request_body_type: RequestBodyType,
    pub device_type: DeviceType,
    pub device_index: u16,
    pub group: [u8; 8],
    pub payload: Vec<u8>,
}

/// The mathematical value of an envelope.
pub struct EnvelopeView {
    pub req_rsp: ReqRsp,
    pub is_need_reply: bool,
    pub code: bool,
    pub flag: bool,
    pub request_body_type: RequestBodyType,
    pub device_type: DeviceType,
    pub device_index: u16,
    pub group: Seq<u8>,
    pub payload: Seq<u8>,
}

impl View for Layer2Protocol {
    type V = EnvelopeView;

    open spec fn view(&self) -> EnvelopeView {
        EnvelopeView {
            req_rsp: self.req_rsp,
            is_need_reply: self.is_need_reply,
            code: self.code,
            flag: self.flag,
            request_body_type: self.request_body_type,
            device_type: self.device_type,
            device_index: self.device_index,
            group: self.group@,
            payload: self.payload@,
        }
    }
}

/// A flag as a number: 1 if it is set, 0 if not.
pub open spec fn flag_value(on: bool) -> u8 {
    if on {
        1
    } else {
        0
    }
}

/// The head byte that packs the five small fields of an envelope.
pub open spec fn head_byte(
    req_rsp: ReqRsp,
    is_need_reply: bool,
    code: bool,
    flag: bool,
    request_body_type: RequestBodyType,
) -> u8 {
    (req_rsp.wire_value() << HEAD_DIRECTION_SHIFT) | (flag_value(is_need_reply)
        << HEAD_NEED_REPLY_SHIFT) | (flag_value(code) << HEAD_CODE_SHIFT) | (flag_value(flag)
        << HEAD_FLAG_SHIFT) | (request_body_type.wire_value() & HEAD_BODY_TYPE_MASK)
}

impl EnvelopeView {
    /// Whether the group identifier has its eight bytes.
    pub open spec fn wf(self) -> bool {
        self.group.len() == 8
    }

    /// The envelope on the wire.
    pub open spec fn encode(self) -> Seq<u8> {
        seq![
            head_byte(
                self.req_rsp,
                self.is_need_reply,
                self.code,
                self.flag,
                self.request_body_type,
            ),
            self.device_type.wire_value(),
        ] + u16_le(self.device_index) + self.group + self.payload
    }

    /// What a buffer decodes to. The checks are made in this order, and the
    /// first that fails decides the error.
    pub open spec fn decode(buf: Seq<u8>) -> ProtocolResult<EnvelopeView> {
        if buf.len() < 12 {
            Err(ProtocolError::InvalidLength)
        } else if RequestBodyType::parse(buf[0] & HEAD_BODY_TYPE_MASK) is Err {
            Err(ProtocolError::UnsupportedRequestBodyType)
        } else if DeviceType::parse(buf[1]) is Err {
            Err(ProtocolError::UnsupportedDeviceType)
        } else {
            Ok(
                EnvelopeView {
                    req_rsp: ReqRsp::parse((buf[0] & HEAD_DIRECTION_MASK) >> HEAD_DIRECTION_SHIFT),
                    is_need_reply: (buf[0] & HEAD_NEED_REPLY_MASK) >> HEAD_NEED_REPLY_SHIFT == 1,
                    code: (buf[0] & HEAD_CODE_MASK) >> HEAD_CODE_SHIFT == 1,
                    flag: (buf[0] & HEAD_FLAG_MASK) >> HEAD_FLAG_SHIFT == 1,
                    request_body_type: RequestBodyType::parse(buf[0] & HEAD_BODY_TYPE_MASK)->Ok_0,
                    device_type: DeviceType::parse(buf[1])->Ok_0,
                    device_index: u16_le_at(buf, 2),
                    group: buf.subrange(4, 12),
                    payload: buf.subrange(12, buf.len() as int),
                },
            )
        }
    }
}

/// A flag as a number: 1 if it is set, 0 if not.
fn flag_number(on: bool) -> (b: u8)
    ensures
        b == flag_value(on),
{
    if on {
        1
    } else {
        0
    }
}

impl Layer2Protocol {
    /// Packs the five small fields into the head byte.
    pub fn head(&self) -> (h: u8)
        ensures
            h == head_byte(
                self.req_rsp,
                self.is_need_reply,
                self.code,
                self.flag,
                self.request_body_type,
            ),
    {
        (self.req_rsp.to_byte() << HEAD_DIRECTION_SHIFT) | (flag_number(self.is_need_reply)
            << HEAD_NEED_REPLY_SHIFT) | (flag_number(self.code) << HEAD_CODE_SHIFT) | (flag_number(
            self.flag,
        ) << HEAD_FLAG_SHIFT) | (self.request_body_type.to_byte() & HEAD_BODY_TYPE_MASK)
    }

    /// Encodes the envelope.
    pub fn serialize(&self) -> (out: Vec<u8>)
        ensures
            out@ == self@.encode(),
            out@.len() == self.payload@.len() + 12,
    {
        let mut buf: Vec<u8> = Vec::new();
        buf.push(self.head());
        buf.push(self.device_type.to_byte());
        push_u16_le(&mut buf, self.device_index);
        buf.extend_from_slice(&self.group);
        buf.extend_from_slice(self.payload.as_slice());
        assert(buf@ =~= self@.encode());
        buf
    }

    /// Decodes an envelope, or says why the buffer is not one.
    pub fn deserialize(buf: &[u8]) -> (r: ProtocolResult<Self>)
        ensures
            decoded_as(r, EnvelopeView::decode(buf@)),
    {
        if buf.len() < ENVELOPE_HEADER_LEN {
            return Err(ProtocolError::InvalidLength);
        }
        let request_head = buf[0];
        let req_rsp = ReqRsp::from_byte(
            (request_head & HEAD_DIRECTION_MASK) >> HEAD_DIRECTION_SHIFT,
        );
        let is_need_reply = (request_head & HEAD_NEED_REPLY_MASK) >> HEAD_NEED_REPLY_SHIFT == 1;
        let code = (request_head & HEAD_CODE_MASK) >> HEAD_CODE_SHIFT == 1;
        let flag = (request_head & HEAD_FLAG_MASK) >> HEAD_FLAG_SHIFT == 1;
        let request_body_type = match RequestBodyType::from_byte(
            request_head & HEAD_BODY_TYPE_MASK,
        ) {
            Ok(t) => t,
            Err(e) => {
                return Err(e);
            },
        };
        let device_type = match DeviceType::from_byte(buf[1]) {
            Ok(t) => t,
            Err(e) => {
                return Err(e);
            },
        };
        let device_index = read_u16_le(buf, 2);
        let group: [u8; 8] = [buf[4], buf[5], buf[6], buf[7], buf[8], buf[9], buf[10], buf[11]];
        let payload = slice_to_vec(slice_subrange(buf, ENVELOPE_HEADER_LEN, buf.len()));
        assert(group@ =~= buf@.subrange(4, 12));
        Ok(
            Layer2Protocol {
                req_rsp,
                is_need_reply,
                code,
                flag,
                request_body_type,
                device_type,
                device_index,
                group,
                payload,
            },
        )
    }
}

/// The head byte gives back each of the five fields packed into it.
pub proof fn lemma_head_byte_unpacks(
    req_rsp: ReqRsp,
    is_need_reply: bool,
    code: bool,
    flag: bool,
    request_body_type: RequestBodyType,
)
    ensures
        ({
            let h = head_byte(req_rsp, is_need_reply, code, flag, request_body_type);
            &&& ReqRsp::parse((h & HEAD_DIRECTION_MASK) >> HEAD_DIRECTION_SHIFT) == req_rsp
            &&& ((h & HEAD_NEED_REPLY_MASK) >> HEAD_NEED_REPLY_SHIFT == 1) == is_need_reply
            &&& ((h & HEAD_CODE_MASK) >> HEAD_CODE_SHIFT == 1) == code
            &&& ((h & HEAD_FLAG_MASK) >> HEAD_FLAG_SHIFT == 1) == flag
            &&& h & HEAD_BODY_TYPE_MASK == request_body_type.wire_value()
        }),
{
    let d = req_rsp.wire_value();
    let n = flag_value(is_need_reply);
    let c = flag_value(code);
    let f = flag_value(flag);
    let k = request_body_type.wire_value();
    let h = (d << 7u8) | (n << 6u8) | (c << 5u8) | (f << 4u8) | (k & 0x0f);
    assert(d <= 1 && n <= 1 && c <= 1 && f <= 1 && k <= 1 && h == (d << 7u8) | (n << 6u8) | (c
        << 5u8) | (f << 4u8) | (k & 0x0f) ==> (h & 0x80) >> 7u8 == d && (h & 0x40) >> 6u8 == n && (h
        & 0x20) >> 5u8 == c && (h & 0x10) >> 4u8 == f && h & 0x0f == k) by (bit_vector);
}

/// Decoding an encoded envelope gives the envelope back.
pub proof fn lemma_envelope_roundtrip(envelope: EnvelopeView)
    requires
        envelope.wf(),
    ensures
        envelope.encode().len() == envelope.payload.len() + 12,
        EnvelopeView::decode(envelope.encode()) == Ok::<EnvelopeView, ProtocolError>(envelope),
{
    let wire = envelope.encode();
    let head = head_byte(
        envelope.req_rsp,
        envelope.is_need_reply,
        envelope.code,
        envelope.flag,
        envelope.request_body_type,
    );
    let fixed = seq![head, envelope.device_type.wire_value()];
    lemma_head_byte_unpacks(
        envelope.req_rsp,
        envelope.is_need_reply,
        envelope.code,
        envelope.flag,
        envelope.request_body_type,
    );
    lemma_u16_le_roundtrip(envelope.device_index, fixed, envelope.group + envelope.payload);
    assert(wire =~= fixed + u16_le(envelope.device_index) + (envelope.group + envelope.payload));
    assert(wire[0] == head);
    assert(wire[1] == envelope.device_type.wire_value());
    assert(wire.subrange(4, 12) =~= envelope.group);
    assert(wire.subrange(12, wire.len() as int) =~= envelope.payload);
}

} // verus!
