//! A three-layer binary framing codec for device-control datagrams.
//!
//! A message is a body (a register record or a TLV command record) inside an
//! envelope (direction, addressing, body type) inside a frame (priority,
//! frame type, sequence number, length, checksum). [`encapsulate_data`]
//! builds the three layers around a payload and returns the bytes of the
//! frame; [`decapsulate_data`] takes such bytes apart again.
//!
//! All multi-byte integers are little-endian.

pub mod bytes;
pub mod layer1;
pub mod layer2;
pub mod layer3;
pub mod loadtest;
pub mod types;
pub mod utils;

use vstd::prelude::*;

pub use crate::layer1::{CheckType, FrameType, Layer1Protocol, Priority};
pub use crate::layer2::{DeviceType, Layer2Protocol, ReqRsp, RequestBodyType};
pub use crate::layer3::{Layer3Payload, ProtocolBody, RegisterProtocol, TlvProtocol};

use crate::layer1::{lemma_frame_detects_bit_flip, lemma_frame_roundtrip};
use crate::layer1::{FrameView, FRAME_MAX_PAYLOAD};
use crate::layer2::{lemma_envelope_roundtrip, EnvelopeView, ENVELOPE_HEADER_LEN};
use crate::layer3::{data_length_of, lemma_body_roundtrip, lemma_data_length_of_short};
use crate::layer3::{BodyView, RegisterView, TlvView, BODY_HEADER_LEN};
use crate::types::{decoded_as, ProtocolError};
use crate::utils::with_flipped_bit;

verus! {

/// The first delimiter byte of every frame that `encapsulate_data` builds.
pub const FRAME_DELIMITER_0: u8 = 0x55;

/// The second delimiter byte of every frame that `encapsulate_data` builds.
pub const FRAME_DELIMITER_1: u8 = 0xBB;

/// The version of every frame that `encapsulate_data` builds.
pub const FRAME_VERSION: u8 = 1;

/// The sequence number of every frame that `encapsulate_data` builds.
pub const FRAME_SEQ_NUMBER: u16 = 1;

/// The longest payload that fits a message: what the frame's length field
/// can count, less the twelve bytes of the envelope header and the eight of
/// the body header.
pub const MAX_DATA_LEN: usize = FRAME_MAX_PAYLOAD - ENVELOPE_HEADER_LEN - BODY_HEADER_LEN;

/// The layers of a message, from the outside in.
#[derive(Debug, Clone, Copy, PartialEq, Eq, Structural)]
pub enum Layer {
    Frame,
    Envelope,
    Body,
}

/// Why a message could not be taken apart: the layer that rejected its
/// bytes, and the check of that layer that failed.
#[derive(Debug, Clone, PartialEq, Eq)]
pub struct DecapsulateError {
    pub layer: Layer,
    pub kind: ProtocolError,
}

/// The body that a message carries: a record of the kind that
/// `request_body_type` names, around `payload`.
pub open spec fn body_of(
    request_body_type: RequestBodyType,
    address_or_command: u32,
    error_code: u16,
    payload: Seq<u8>,
) -> BodyView {
    match request_body_type {
        RequestBodyType::RegisterProtocol => BodyView::Register(
            RegisterView {
                register_address: address_or_command,
                error_code,
                data_length: data_length_of(payload),
                data: payload,
            },
        ),
        RequestBodyType::TlvProtocol => BodyView::Tlv(
            TlvView {
                command_code: address_or_command,
                error_code,
                data_length: data_length_of(payload),
                user_data: payload,
            },
        ),
    }
}

/// The envelope that a message carries: the three flags are off, and the
/// payload is the encoded body.
pub open spec fn envelope_of(
    req_rsp: ReqRsp,
    device_type: DeviceType,
    device_index: u16,
    group: Seq<u8>,
    body: BodyView,
) -> EnvelopeView {
    EnvelopeView {
        req_rsp,
        is_need_reply: false,
        code: false,
        flag: false,
        request_body_type: body.kind(),
        device_type,
        device_index,
        group,
        payload: body.encode(),
    }
}

/// The frame that a message travels in: delimiters, version and sequence
/// number are the fixed ones, and the payload is the encoded envelope.
pub open spec fn frame_of(
    frame_type: FrameType,
    priority: Priority,
    check_type: CheckType,
    envelope: EnvelopeView,
) -> FrameView {
    FrameView {
        frame_delimiter_0: FRAME_DELIMITER_0,
        frame_delimiter_1: FRAME_DELIMITER_1,
        version: FRAME_VERSION,
        priority,
        check_type,
        frame_type,
        frame_seq_number: FRAME_SEQ_NUMBER,
        frame_length: 0,
        payload: envelope.encode(),
        checksum: 0,
    }
}

/// The bytes of a message.
pub open spec fn encapsulation(
    frame_type: FrameType,
    priority: Priority,
    check_type: CheckType,
    req_rsp: ReqRsp,
    device_type: DeviceType,
    device_index: u16,
    request_body_type: RequestBodyType,
    group: Seq<u8>,
    address_or_command: u32,
    error_code: u16,
    payload: Seq<u8>,
) -> Seq<u8> {
    frame_of(
        frame_type,
        priority,
        check_type,
        envelope_of(
            req_rsp,
            device_type,
            device_index,
            group,
            body_of(request_body_type, address_or_command, error_code, payload),
        ),
    ).encode()
}

/// The three layers that a buffer holds, or the error of the first layer
/// that rejects it: the frame is decoded from the buffer, the envelope from
/// the frame's payload, and the body from the envelope's payload, as the
/// record that the envelope's body type names.
pub open spec fn decapsulation_result(buf: Seq<u8>) -> Result<
    (FrameView, EnvelopeView, BodyView),
    DecapsulateError,
> {
    match FrameView::decode(buf) {
        Err(kind) => Err(DecapsulateError { layer: Layer::Frame, kind }),
        Ok(frame) => match EnvelopeView::decode(frame.payload) {
            Err(kind) => Err(DecapsulateError { layer: Layer::Envelope, kind }),
            Ok(envelope) => match BodyView::decode(envelope.request_body_type, envelope.payload) {
                Err(kind) => Err(DecapsulateError { layer: Layer::Body, kind }),
                Ok(body) => Ok((frame, envelope, body)),
            },
        },
    }
}

/// The three layers that a buffer holds, if every layer accepts it.
pub open spec fn decapsulation(buf: Seq<u8>) -> Option<(FrameView, EnvelopeView, BodyView)> {
    match decapsulation_result(buf) {
        Ok(layers) => Some(layers),
        Err(_) => None,
    }
}

/// Relates what `decapsulate_data` returns to what its model gives:
/// nothing, or three layers whose views are the specified ones.
pub open spec fn unpacked_as(
    got: Option<(Layer1Protocol, Layer2Protocol, ProtocolBody)>,
    expected: Option<(FrameView, EnvelopeView, BodyView)>,
) -> bool {
    match (got, expected) {
        (Some(layers), Some(models)) => layers@ == models,
        (None, None) => true,
        _ => false,
    }
}

/// Builds a message around `payload` and returns its bytes.
///
/// The body is a register record at address `address_or_command`, or a TLV
/// command record with that command code, as `request_body_type` says. The
/// envelope's three flags are off. The frame has the fixed delimiters,
/// version and sequence number of this crate.
pub fn encapsulate_data(
    frame_type: FrameType,
    priority: Priority,
    check_type: CheckType,
    req_rsp: ReqRsp,
    device_type: DeviceType,
    device_index: u16,
    request_body_type: RequestBodyType,
    group: [u8; 8],
    address_or_command: u32,
    error_code: u16,
    payload: Vec<u8>,
) -> (out: Vec<u8>)
    requires
        payload@.len() <= MAX_DATA_LEN,
    ensures
        out@ == encapsulation(
            frame_type,
            priority,
            check_type,
            req_rsp,
            device_type,
            device_index,
            request_body_type,
            group@,
            address_or_command,
            error_code,
            payload@,
        ),
        out@.len() == payload@.len() + 32,
{
    let layer3_bytes = match request_body_type {
        RequestBodyType::RegisterProtocol => {
            let register_protocol = RegisterProtocol::new(address_or_command, error_code, payload);
            register_protocol.serialize()
        },
        RequestBodyType::TlvProtocol => {
            let tlv_protocol = TlvProtocol::new(address_or_command, error_code, payload);
            tlv_protocol.serialize()
        },
    };
    let layer2 = Layer2Protocol {
        req_rsp,
        is_need_reply: false,
        code: false,
        flag: false,
        request_body_type,
        device_type,
        device_index,
        group,
        payload: layer3_bytes,
    };
    let layer2_serialized = layer2.serialize();
    let layer1 = Layer1Protocol {
        frame_delimiter_0: FRAME_DELIMITER_0,
        frame_delimiter_1: FRAME_DELIMITER_1,
        version: FRAME_VERSION,
        priority,
        check_type,
        frame_type,
        frame_seq_number: FRAME_SEQ_NUMBER,
        frame_length: 0,
        payload: layer2_serialized,
        checksum: 0,
    };
    layer1.serialize()
}

/// Takes a message apart, layer by layer, and says which check of which
/// layer rejected it if one did.
pub fn try_decapsulate_data(buf: &[u8]) -> (r: Result<
    (Layer1Protocol, Layer2Protocol, ProtocolBody),
    DecapsulateError,
>)
    ensures
        decoded_as(r, decapsulation_result(buf@)),
{
    let layer1 = match Layer1Protocol::deserialize(buf) {
        Ok(frame) => frame,
        Err(kind) => {
            return Err(DecapsulateError { layer: Layer::Frame, kind });
        },
    };
    let layer2 = match Layer2Protocol::deserialize(layer1.payload.as_slice()) {
        Ok(envelope) => envelope,
        Err(kind) => {
            return Err(DecapsulateError { layer: Layer::Envelope, kind });
        },
    };
    let layer3 = match ProtocolBody::deserialize(
        layer2.request_body_type,
        layer2.payload.as_slice(),
    ) {
        Ok(body) => body,
        Err(kind) => {
            return Err(DecapsulateError { layer: Layer::Body, kind });
        },
    };
    Ok((layer1, layer2, layer3))
}

/// Takes a message apart, layer by layer. Returns the three layers, or
/// `None` if any of them rejects its bytes.
pub fn decapsulate_data(buf: &[u8]) -> (r: Option<(Layer1Protocol, Layer2Protocol, ProtocolBody)>)
    ensures
        unpacked_as(r, decapsulation(buf@)),
{
    match try_decapsulate_data(buf) {
        Ok(layers) => Some(layers),
        Err(_) => None,
    }
}

/// Taking apart a message that was built from a payload within the size
/// limit gives back what it was built from: the frame with the given
/// priority, check type and frame type, the fixed delimiters, version and
/// sequence number, and its length and checksum filled in; the envelope with
/// the given direction, device and group; and the body of the given kind with
/// the given address or command code, error code and payload.
pub proof fn lemma_encapsulation_roundtrip(
    frame_type: FrameType,
    priority: Priority,
    check_type: CheckType,
    req_rsp: ReqRsp,
    device_type: DeviceType,
    device_index: u16,
    request_body_type: RequestBodyType,
    group: Seq<u8>,
    address_or_command: u32,
    error_code: u16,
    payload: Seq<u8>,
)
    requires
        group.len() == 8,
        payload.len() <= MAX_DATA_LEN,
    ensures
        ({
            let body = body_of(request_body_type, address_or_command, error_code, payload);
            let envelope = envelope_of(req_rsp, device_type, device_index, group, body);
            let frame = frame_of(frame_type, priority, check_type, envelope);
            let wire = encapsulation(
                frame_type,
                priority,
                check_type,
                req_rsp,
                device_type,
                device_index,
                request_body_type,
                group,
                address_or_command,
                error_code,
                payload,
            );
            &&& wire.len() == payload.len() + 32
            &&& decapsulation(wire) == Some((frame.sealed(), envelope, body))
            &&& frame.sealed().frame_length == payload.len() + 22
            &&& envelope.request_body_type == request_body_type
            &&& data_length_of(payload) == payload.len()
        }),
{
    let body = body_of(request_body_type, address_or_command, error_code, payload);
    let envelope = envelope_of(req_rsp, device_type, device_index, group, body);
    let frame = frame_of(frame_type, priority, check_type, envelope);
    assert(body.encode().len() == payload.len() + 8 && BodyView::decode(body.kind(), body.encode())
        == Ok::<BodyView, ProtocolError>(body)) by {
        lemma_body_roundtrip(body);
    }
    assert(envelope.encode().len() == payload.len() + 20 && EnvelopeView::decode(envelope.encode())
        == Ok::<EnvelopeView, ProtocolError>(envelope)) by {
        lemma_envelope_roundtrip(envelope);
    }
    assert(frame.encode().len() == payload.len() + 32 && FrameView::decode(frame.encode()) == Ok::<
        FrameView,
        ProtocolError,
    >(frame.sealed())) by {
        lemma_frame_roundtrip(frame);
    }
    assert(data_length_of(payload) == payload.len()) by {
        lemma_data_length_of_short(payload);
    }
}

/// Inverting a single bit of a message, anywhere before the checksum field,
/// is always detected: the frame layer rejects the tampered bytes, so
/// nothing is taken apart; and it rejects them for their checksum whenever
/// the bit lies behind the frame header.
pub proof fn lemma_message_detects_bit_flip(
    frame_type: FrameType,
    priority: Priority,
    check_type: CheckType,
    req_rsp: ReqRsp,
    device_type: DeviceType,
    device_index: u16,
    request_body_type: RequestBodyType,
    group: Seq<u8>,
    address_or_command: u32,
    error_code: u16,
    payload: Seq<u8>,
    i: int,
    bit: u8,
)
    requires
        group.len() == 8,
        payload.len() <= MAX_DATA_LEN,
        0 <= i < payload.len() + 30,
        bit < 8,
    ensures
        ({
            let tampered = with_flipped_bit(
                encapsulation(
                    frame_type,
                    priority,
                    check_type,
                    req_rsp,
                    device_type,
                    device_index,
                    request_body_type,
                    group,
                    address_or_command,
                    error_code,
                    payload,
                ),
                i,
                bit,
            );
            &&& decapsulation(tampered) is None
            &&& decapsulation_result(tampered) matches Err(e) && e.layer == Layer::Frame && (i
                >= 10 ==> e.kind == ProtocolError::ChecksumMismatch)
        }),
{
    let body = body_of(request_body_type, address_or_command, error_code, payload);
    let envelope = envelope_of(req_rsp, device_type, device_index, group, body);
    let frame = frame_of(frame_type, priority, check_type, envelope);
    assert(body.encode().len() == payload.len() + 8) by {
        lemma_body_roundtrip(body);
    }
    assert(envelope.encode().len() == payload.len() + 20) by {
        lemma_envelope_roundtrip(envelope);
    }
    lemma_frame_detects_bit_flip(frame, i, bit);
}

} // verus!
