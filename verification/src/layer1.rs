//! The frame layer: the outermost unit on the wire.
//!
//! ```text
//! [delim0][delim1][version][priority][check_type][frame_type][seq:u16][length:u16][payload][checksum:u16]
//! ```
//!
//! `length` counts the payload and the checksum, not the ten header bytes.
//! The checksum covers everything before it.

use vstd::prelude::*;
use vstd::slice::slice_subrange;
use vstd::slice::slice_to_vec;

use crate::bytes::{lemma_u16_le_roundtrip, push_u16_le, read_u16_le, u16_le, u16_le_at};
use crate::types::decoded_as;
pub use crate::types::{CheckType, FrameType, Priority, ProtocolError, ProtocolResult};
use crate::utils::{calc_checksum, checksum_matches, checksum_of, verify_checksum};
use crate::utils::{lemma_checksum_detects_bit_flip, with_flipped_bit};

verus! {

/// The number of bytes before the payload.
pub const FRAME_HEADER_LEN: usize = 10;

/// The number of bytes of the trailing checksum.
pub const FRAME_CHECKSUM_LEN: usize = 2;

/// The shortest buffer that can hold a frame.
pub const FRAME_MIN_LEN: usize = 12;

/// The longest payload whose length still fits the 16-bit length field.
pub const FRAME_MAX_PAYLOAD: usize = 65533;

/// A frame.
///
/// `frame_length` and `checksum` are outputs of decoding; encoding computes
/// both afresh and ignores what the fields hold.
#[derive(Debug, Clone, PartialEq, Eq)]
pub struct Layer1Protocol {
    pub frame_delimiter_0: u8,
    pub frame_delimiter_1: u8,
    pub version: u8,
    pub priority: Priority,
    pub check_type: CheckType,
    pub frame_type: FrameType,
    pub frame_seq_number: u16,
    pub frame_length: u16,
    pub payload: Vec<u8>,
    pub checksum: u16,
}

/// The mathematical value of a frame.
pub struct FrameView {
    pub frame_delimiter_0: u8,
    pub frame_delimiter_1: u8,
    pub version: u8,
    pub priority: Priority,
    pub check_type: CheckType,
    pub frame_type: FrameType,
    pub frame_seq_number: u16,
    pub frame_length: u16,
    pub payload: Seq<u8>,
    pub checksum: u16,
}

impl View for Layer1Protocol {
    type V = FrameView;

    open spec fn view(&self) -> FrameView {
        FrameView {
            frame_delimiter_0: self.frame_delimiter_0,
            frame_delimiter_1: self.frame_delimiter_1,
            version: self.version,
            priority: self.priority,
            check_type: self.check_type,
            frame_type: self.frame_type,
            frame_seq_number: self.frame_seq_number,
            frame_length: self.frame_length,
            payload: self.payload@,
            checksum: self.checksum,
        }
    }
}

impl FrameView {
    /// The ten header bytes, with the length field computed from the payload.
    pub open spec fn header(self) -> Seq<u8> {
        seq![
            self.frame_delimiter_0,
            self.frame_delimiter_1,
            self.version,
            self.priority.wire_value(),
            self.check_type.wire_value(),
            self.frame_type.wire_value(),
        ] + u16_le(self.frame_seq_number) + u16_le((self.payload.len() + 2) as u16)
    }

    /// The bytes that the checksum covers: header and payload.
    pub open spec fn covered(self) -> Seq<u8> {
        self.header() + self.payload
    }

    /// The frame on the wire.
    pub open spec fn encode(self) -> Seq<u8> {
        self.covered() + u16_le(checksum_of(self.covered()))
    }

    /// The frame with its two derived fields filled in as encoding computes
    /// them.
    pub open spec fn sealed(self) -> FrameView {
        FrameView {
            frame_length: (self.payload.len() + 2) as u16,
            checksum: checksum_of(self.covered()),
            ..self
        }
    }

    /// The error of the first check on the header and the length that `buf`
    /// fails, if it fails one. The checks are made in this order. The last of
    /// them cannot fail once the one before it has passed.
    pub open spec fn structure_error(buf: Seq<u8>) -> Option<ProtocolError> {
        if buf.len() < 12 {
            Some(ProtocolError::InvalidLength)
        } else if Priority::parse(buf[3]) is Err {
            Some(ProtocolError::UnsupportedPriority)
        } else if CheckType::parse(buf[4]) is Err {
            Some(ProtocolError::UnsupportedCheckType)
        } else if FrameType::parse(buf[5]) is Err {
            Some(ProtocolError::UnsupportedFrameType)
        } else if buf.len() != u16_le_at(buf, 8) + 10 {
            Some(ProtocolError::InvalidLength)
        } else if 10 + (u16_le_at(buf, 8) - 2) > buf.len() {
            Some(ProtocolError::InvalidFrameLength)
        } else {
            None
        }
    }

    /// What a buffer decodes to: the error of the first failed check on its
    /// structure; else a checksum mismatch, if the trailing two bytes are not
    /// the checksum of all bytes before them; else the frame.
    pub open spec fn decode(buf: Seq<u8>) -> ProtocolResult<FrameView> {
        match Self::structure_error(buf) {
            Some(e) => Err(e),
            None => if !checksum_matches(
                buf.subrange(0, buf.len() - 2),
                u16_le_at(buf, buf.len() - 2),
            ) {
                Err(ProtocolError::ChecksumMismatch)
            } else {
                Ok(
                    FrameView {
                        frame_delimiter_0: buf[0],
                        frame_delimiter_1: buf[1],
                        version: buf[2],
                        priority: Priority::parse(buf[3])->Ok_0,
                        check_type: CheckType::parse(buf[4])->Ok_0,
                        frame_type: FrameType::parse(buf[5])->Ok_0,
                        frame_seq_number: u16_le_at(buf, 6),
                        frame_length: u16_le_at(buf, 8),
                        payload: buf.subrange(10, buf.len() - 2),
                        checksum: u16_le_at(buf, buf.len() - 2),
                    },
                )
            },
        }
    }
}

impl Layer1Protocol {
    /// Encodes the frame. The length field and the checksum are computed
    /// here; `self.frame_length` and `self.checksum` are not read.
    pub fn serialize(&self) -> (out: Vec<u8>)
        requires
            self.payload@.len() <= FRAME_MAX_PAYLOAD,
        ensures
            out@ == self@.encode(),
            out@.len() == self.payload@.len() + 12,
    {
        let mut buf: Vec<u8> = Vec::new();
        buf.push(self.frame_delimiter_0);
        buf.push(self.frame_delimiter_1);
        buf.push(self.version);
        buf.push(self.priority.to_byte());
        buf.push(self.check_type.to_byte());
        buf.push(self.frame_type.to_byte());
        push_u16_le(&mut buf, self.frame_seq_number);
        let frame_length: u16 = (self.payload.len() + FRAME_CHECKSUM_LEN) as u16;
        push_u16_le(&mut buf, frame_length);
        assert(buf@ =~= self@.header());
        buf.extend_from_slice(self.payload.as_slice());
        assert(buf@ =~= self@.covered());
        let sum = calc_checksum(buf.as_slice());
        push_u16_le(&mut buf, sum);
        buf
    }

    /// Decodes a frame, or says why the buffer is not one.
    pub fn deserialize(buf: &[u8]) -> (r: ProtocolResult<Self>)
        ensures
            decoded_as(r, FrameView::decode(buf@)),
    {
        if buf.len() < FRAME_MIN_LEN {
            return Err(ProtocolError::InvalidLength);
        }
        let frame_delimiter_0 = buf[0];
        let frame_delimiter_1 = buf[1];
        let version = buf[2];
        let priority = match Priority::from_byte(buf[3]) {
            Ok(p) => p,
            Err(e) => {
                return Err(e);
            },
        };
        let check_type = match CheckType::from_byte(buf[4]) {
            Ok(c) => c,
            Err(e) => {
                return Err(e);
            },
        };
        let frame_type = match FrameType::from_byte(buf[5]) {
            Ok(t) => t,
            Err(e) => {
                return Err(e);
            },
        };
        let frame_seq_number = read_u16_le(buf, 6);
        let frame_length = read_u16_le(buf, 8);
        if buf.len() - FRAME_HEADER_LEN != frame_length as usize {
            return Err(ProtocolError::InvalidLength);
        }
        let payload_end: usize = FRAME_HEADER_LEN + (frame_length as usize - FRAME_CHECKSUM_LEN);
        if payload_end > buf.len() {
            return Err(ProtocolError::InvalidFrameLength);
        }
        let payload = slice_to_vec(slice_subrange(buf, FRAME_HEADER_LEN, payload_end));
        let received_checksum = read_u16_le(buf, payload_end);
        if !verify_checksum(slice_subrange(buf, 0, payload_end), received_checksum) {
            return Err(ProtocolError::ChecksumMismatch);
        }
        Ok(
            Layer1Protocol {
                frame_delimiter_0,
                frame_delimiter_1,
                version,
                priority,
                check_type,
                frame_type,
                frame_seq_number,
                frame_length,
                payload,
                checksum: received_checksum,
            },
        )
    }
}

/// Decoding an encoded frame gives the frame back, with its length and
/// checksum fields filled in.
pub proof fn lemma_frame_roundtrip(frame: FrameView)
    requires
        frame.payload.len() <= FRAME_MAX_PAYLOAD,
    ensures
        frame.encode().len() == frame.payload.len() + 12,
        FrameView::structure_error(frame.encode()) is None,
        FrameView::decode(frame.encode()) == Ok::<FrameView, ProtocolError>(frame.sealed()),
{
    let wire = frame.encode();
    let fixed = seq![
        frame.frame_delimiter_0,
        frame.frame_delimiter_1,
        frame.version,
        frame.priority.wire_value(),
        frame.check_type.wire_value(),
        frame.frame_type.wire_value(),
    ];
    let length = (frame.payload.len() + 2) as u16;
    let sum = checksum_of(frame.covered());
    lemma_u16_le_roundtrip(
        frame.frame_seq_number,
        fixed,
        u16_le(length) + frame.payload + u16_le(sum),
    );
    lemma_u16_le_roundtrip(length, fixed + u16_le(frame.frame_seq_number), frame.payload + u16_le(sum));
    lemma_u16_le_roundtrip(sum, frame.covered(), Seq::empty());
    assert(wire =~= fixed + u16_le(frame.frame_seq_number) + (u16_le(length) + frame.payload
        + u16_le(sum)));
    assert(wire =~= fixed + u16_le(frame.frame_seq_number) + u16_le(length) + (frame.payload
        + u16_le(sum)));
    assert(wire =~= frame.covered() + u16_le(sum) + Seq::empty());
    assert(wire.subrange(0, wire.len() - 2) =~= frame.covered());
    assert(wire.subrange(10, wire.len() - 2) =~= frame.payload);
    assert(wire[0] == frame.frame_delimiter_0);
    assert(wire[1] == frame.frame_delimiter_1);
    assert(wire[2] == frame.version);
    assert(wire[3] == frame.priority.wire_value());
    assert(wire[4] == frame.check_type.wire_value());
    assert(wire[5] == frame.frame_type.wire_value());
}

/// No buffer is rejected for an invalid frame length: a buffer that has
/// passed the length check before it always holds the payload that its length
/// field announces.
pub proof fn lemma_frame_length_check_is_final(buf: Seq<u8>)
    ensures
        FrameView::structure_error(buf) != Some(ProtocolError::InvalidFrameLength),
        FrameView::decode(buf) != Err::<FrameView, ProtocolError>(ProtocolError::InvalidFrameLength),
{
}

/// A buffer shorter than twelve bytes is rejected for its length, and so is
/// a buffer with a well-formed header whose length field is not the number of
/// bytes that follow the header.
pub proof fn lemma_frame_length_boundary(buf: Seq<u8>)
    ensures
        buf.len() < 12 ==> FrameView::decode(buf) == Err::<FrameView, ProtocolError>(
            ProtocolError::InvalidLength,
        ),
        buf.len() >= 12 && Priority::parse(buf[3]) is Ok && CheckType::parse(buf[4]) is Ok
            && FrameType::parse(buf[5]) is Ok && u16_le_at(buf, 8) != buf.len() - 10
            ==> FrameView::decode(buf) == Err::<FrameView, ProtocolError>(
            ProtocolError::InvalidLength,
        ),
{
}

/// Inverting a single bit of an encoded frame, anywhere before the checksum
/// field, is always detected. The tampered buffer is rejected with the error
/// of the structure check that the changed byte now fails, and with a
/// checksum mismatch if it still passes them all; it passes them all
/// whenever the bit lies outside the priority, check type, frame type and
/// length fields.
pub proof fn lemma_frame_detects_bit_flip(frame: FrameView, i: int, bit: u8)
    requires
        frame.payload.len() <= FRAME_MAX_PAYLOAD,
        0 <= i < 10 + frame.payload.len(),
        bit < 8,
    ensures
        ({
            let tampered = with_flipped_bit(frame.encode(), i, bit);
            &&& FrameView::decode(tampered) == Err::<FrameView, ProtocolError>(
                match FrameView::structure_error(tampered) {
                    Some(e) => e,
                    None => ProtocolError::ChecksumMismatch,
                },
            )
            &&& (i < 3 || i == 6 || i == 7 || i >= 10) ==> FrameView::decode(tampered) == Err::<
                FrameView,
                ProtocolError,
            >(ProtocolError::ChecksumMismatch)
        }),
{
    let wire = frame.encode();
    let tampered = with_flipped_bit(wire, i, bit);
    let end = wire.len() - 2;
    lemma_frame_roundtrip(frame);
    lemma_u16_le_roundtrip(checksum_of(frame.covered()), frame.covered(), Seq::empty());
    assert(wire =~= frame.covered() + u16_le(checksum_of(frame.covered())) + Seq::empty());
    assert(wire.subrange(0, end) =~= frame.covered());
    assert(tampered.subrange(0, end) =~= with_flipped_bit(frame.covered(), i, bit));
    lemma_checksum_detects_bit_flip(frame.covered(), i, bit);
    assert(u16_le_at(tampered, end) == u16_le_at(wire, end));
}

} // verus!
