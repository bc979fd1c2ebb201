//! The body layer: a register record or a TLV command record.
//!
//! ```text
//! [field0:u32][error_code:u16][data_length:u16][data]
//! ```
//!
//! Both records have this one layout; `field0` is a register address in the
//! one and a command code in the other. Nothing in the bytes says which
//! record they hold: only the body type carried by the envelope does.
//! `data_length` is written by the sender and not checked on decoding; the
//! data is whatever follows the eight fixed bytes.

use std::marker::PhantomData;

use vstd::prelude::*;
use vstd::slice::slice_subrange;
use vstd::slice::slice_to_vec;

use crate::bytes::{lemma_u16_le_roundtrip, lemma_u32_le_roundtrip};
use crate::bytes::{push_u16_le, push_u32_le, read_u16_le, read_u32_le};
use crate::bytes::{u16_le, u16_le_at, u32_le, u32_le_at};
use crate::types::decoded_as;
use crate::types::{ProtocolError, ProtocolResult, RequestBodyType};

verus! {

/// The number of bytes before the data.
pub const BODY_HEADER_LEN: usize = 8;

/// The layout that both records share.
pub open spec fn body_bytes(field0: u32, error_code: u16, data_length: u16, data: Seq<u8>) -> Seq<
    u8,
> {
    u32_le(field0) + u16_le(error_code) + u16_le(data_length) + data
}

/// The `data_length` that a record is given when it is built from its data:
/// the number of data bytes, as far as sixteen bits hold it.
pub open spec fn data_length_of(data: Seq<u8>) -> u16 {
    (data.len() % 0x1_0000) as u16
}

/// A kind of body, with its wire encoding.
pub trait ProtocolType: Sized + View {
    /// The body type value that announces this kind of body in an envelope.
    const TYPE_ID: u8;

    /// The bytes that stand for a value.
    spec fn encoding(value: Self::V) -> Seq<u8>;

    /// What a buffer decodes to.
    spec fn decoding(data: Seq<u8>) -> ProtocolResult<Self::V>;

    fn serialize(&self) -> (out: Vec<u8>)
        ensures
            out@ == Self::encoding(self@),
    ;

    fn deserialize(data: &[u8]) -> (r: ProtocolResult<Self>)
        ensures
            decoded_as(r, Self::decoding(data@)),
    ;
}

/// A register record.
#[derive(Debug, Clone, PartialEq, Eq)]
pub struct RegisterProtocol {
    pub register_address: u32,
    pub error_code: u16,
    pub data_length: u16,
    pub data: Vec<u8>,
}

/// The mathematical value of a register record.
pub struct RegisterView {
    pub register_address: u32,
    pub error_code: u16,
    pub data_length: u16,
    pub data: Seq<u8>,
}

impl View for RegisterProtocol {
    type V = RegisterView;

    open spec fn view(&self) -> RegisterView {
        RegisterView {
            register_address: self.register_address,
            error_code: self.error_code,
            data_length: self.data_length,
            data: self.data@,
        }
    }
}

impl RegisterView {
    /// The record on the wire.
    pub open spec fn encode(self) -> Seq<u8> {
        body_bytes(self.register_address, self.error_code, self.data_length, self.data)
    }

    /// What a buffer decodes to when it is read as a register record.
    pub open spec fn decode(buf: Seq<u8>) -> ProtocolResult<RegisterView> {
        if buf.len() < 8 {
            Err(ProtocolError::InvalidLength)
        } else {
            Ok(
                RegisterView {
                    register_address: u32_le_at(buf, 0),
                    error_code: u16_le_at(buf, 4),
                    data_length: u16_le_at(buf, 6),
                    data: buf.subrange(8, buf.len() as int),
                },
            )
        }
    }
}

/// A TLV command record.
#[derive(Debug, Clone, PartialEq, Eq)]
pub struct TlvProtocol {
    pub command_code: u32,
    pub error_code: u16,
    pub data_length: u16,
    pub user_data: Vec<u8>,
}

/// The mathematical value of a TLV command record.
pub struct TlvView {
    pub command_code: u32,
    pub error_code: u16,
    pub data_length: u16,
    pub user_data: Seq<u8>,
}

impl View for TlvProtocol {
    type V = TlvView;

    open spec fn view(&self) -> TlvView {
        TlvView {
            command_code: self.command_code,
            error_code: self.error_code,
            data_length: self.data_length,
            user_data: self.user_data@,
        }
    }
}

impl TlvView {
    /// The record on the wire.
    pub open spec fn encode(self) -> Seq<u8> {
        body_bytes(self.command_code, self.error_code, self.data_length, self.user_data)
    }

    /// What a buffer decodes to when it is read as a TLV command record.
    pub open spec fn decode(buf: Seq<u8>) -> ProtocolResult<TlvView> {
        if buf.len() < 8 {
            Err(ProtocolError::InvalidLength)
        } else {
            Ok(
                TlvView {
                    command_code: u32_le_at(buf, 0),
                    error_code: u16_le_at(buf, 4),
                    data_length: u16_le_at(buf, 6),
                    user_data: buf.subrange(8, buf.len() as int),
                },
            )
        }
    }
}

/// Writes the shared layout.
fn write_body(field0: u32, error_code: u16, data_length: u16, data: &Vec<u8>) -> (out: Vec<u8>)
    ensures
        out@ == body_bytes(field0, error_code, data_length, data@),
{
    let mut buf: Vec<u8> = Vec::new();
    push_u32_le(&mut buf, field0);
    push_u16_le(&mut buf, error_code);
    push_u16_le(&mut buf, data_length);
    buf.extend_from_slice(data.as_slice());
    assert(buf@ =~= body_bytes(field0, error_code, data_length, data@));
    buf
}

/// The `data_length` of a record built from `data`.
fn length_field(data: &Vec<u8>) -> (n: u16)
    ensures
        n == data_length_of(data@),
{
    (data.len() % 0x1_0000) as u16
}

impl RegisterProtocol {
    /// Builds a record around `data`, with `data_length` set from it.
    pub fn new(register_address: u32, error_code: u16, data: Vec<u8>) -> (r: Self)
        ensures
            r@ == (RegisterView {
                register_address,
                error_code,
                data_length: data_length_of(data@),
                data: data@,
            }),
            data@.len() <= u16::MAX ==> r.data_length == data@.len(),
    {
        Self { register_address, error_code, data_length: length_field(&data), data }
    }

    /// Encodes the record. `data_length` is written as the field holds it.
    pub fn serialize(&self) -> (out: Vec<u8>)
        ensures
            out@ == self@.encode(),
            out@.len() == self.data@.len() + 8,
    {
        write_body(self.register_address, self.error_code, self.data_length, &self.data)
    }

    /// Reads a buffer as a register record. Any buffer of eight bytes or
    /// more is accepted, whatever record its sender wrote.
    pub fn deserialize(buf: &[u8]) -> (r: ProtocolResult<Self>)
        ensures
            decoded_as(r, RegisterView::decode(buf@)),
    {
        if buf.len() < BODY_HEADER_LEN {
            return Err(ProtocolError::InvalidLength);
        }
        let register_address = read_u32_le(buf, 0);
        let error_code = read_u16_le(buf, 4);
        let data_length = read_u16_le(buf, 6);
        let data = slice_to_vec(slice_subrange(buf, BODY_HEADER_LEN, buf.len()));
        Ok(Self { register_address, error_code, data_length, data })
    }
}

impl TlvProtocol {
    /// Builds a record around `user_data`, with `data_length` set from it.
    pub fn new(command_code: u32, error_code: u16, user_data: Vec<u8>) -> (r: Self)
        ensures
            r@ == (TlvView {
                command_code,
                error_code,
                data_length: data_length_of(user_data@),
                user_data: user_data@,
            }),
            user_data@.len() <= u16::MAX ==> r.data_length == user_data@.len(),
    {
        Self { command_code, error_code, data_length: length_field(&user_data), user_data }
    }

    /// Encodes the record. `data_length` is written as the field holds it.
    pub fn serialize(&self) -> (out: Vec<u8>)
        ensures
            out@ == self@.encode(),
            out@.len() == self.user_data@.len() + 8,
    {
        write_body(self.command_code, self.error_code, self.data_length, &self.user_data)
    }

    /// Reads a buffer as a TLV command record. Any buffer of eight bytes or
    /// more is accepted, whatever record its sender wrote.
    pub fn deserialize(buf: &[u8]) -> (r: ProtocolResult<Self>)
        ensures
            decoded_as(r, TlvView::decode(buf@)),
    {
        if buf.len() < BODY_HEADER_LEN {
            return Err(ProtocolError::InvalidLength);
        }
        let command_code = read_u32_le(buf, 0);
        let error_code = read_u16_le(buf, 4);
        let data_length = read_u16_le(buf, 6);
        let user_data = slice_to_vec(slice_subrange(buf, BODY_HEADER_LEN, buf.len()));
        Ok(Self { command_code, error_code, data_length, user_data })
    }
}

impl ProtocolType for RegisterProtocol {
    const TYPE_ID: u8 = 0;

    open spec fn encoding(value: RegisterView) -> Seq<u8> {
        value.encode()
    }

    open spec fn decoding(data: Seq<u8>) -> ProtocolResult<RegisterView> {
        RegisterView::decode(data)
    }

    fn serialize(&self) -> (out: Vec<u8>) {
        write_body(self.register_address, self.error_code, self.data_length, &self.data)
    }

    fn deserialize(data: &[u8]) -> (r: ProtocolResult<Self>) {
        RegisterProtocol::deserialize(data)
    }
}

impl ProtocolType for TlvProtocol {
    const TYPE_ID: u8 = 1;

    open spec fn encoding(value: TlvView) -> Seq<u8> {
        value.encode()
    }

    open spec fn decoding(data: Seq<u8>) -> ProtocolResult<TlvView> {
        TlvView::decode(data)
    }

    fn serialize(&self) -> (out: Vec<u8>) {
        write_body(self.command_code, self.error_code, self.data_length, &self.user_data)
    }

    fn deserialize(data: &[u8]) -> (r: ProtocolResult<Self>) {
        TlvProtocol::deserialize(data)
    }
}

/// The empty body: it encodes to nothing and no buffer decodes to it.
impl ProtocolType for () {
    const TYPE_ID: u8 = 255;

    open spec fn encoding(value: ()) -> Seq<u8> {
        Seq::empty()
    }

    open spec fn decoding(data: Seq<u8>) -> ProtocolResult<()> {
        Err(ProtocolError::InvalidLength)
    }

    fn serialize(&self) -> (out: Vec<u8>) {
        Vec::new()
    }

    fn deserialize(_buf: &[u8]) -> (r: ProtocolResult<Self>) {
        Err(ProtocolError::InvalidLength)
    }
}

/// A body of either kind.
#[derive(Debug, Clone, PartialEq, Eq)]
pub enum ProtocolBody {
    Register(RegisterProtocol),
    Tlv(TlvProtocol),
}

/// The mathematical value of a body.
pub enum BodyView {
    Register(RegisterView),
    Tlv(TlvView),
}

impl View for ProtocolBody {
    type V = BodyView;

    open spec fn view(&self) -> BodyView {
        match self {
            ProtocolBody::Register(reg) => BodyView::Register(reg@),
            ProtocolBody::Tlv(tlv) => BodyView::Tlv(tlv@),
        }
    }
}

impl BodyView {
    /// The body type that announces this body in an envelope.
    pub open spec fn kind(self) -> RequestBodyType {
        match self {
            BodyView::Register(_) => RequestBodyType::RegisterProtocol,
            BodyView::Tlv(_) => RequestBodyType::TlvProtocol,
        }
    }

    /// The data that the body carries.
    pub open spec fn data(self) -> Seq<u8> {
        match self {
            BodyView::Register(reg) => reg.data,
            BodyView::Tlv(tlv) => tlv.user_data,
        }
    }

    /// The body on the wire.
    pub open spec fn encode(self) -> Seq<u8> {
        match self {
            BodyView::Register(reg) => reg.encode(),
            BodyView::Tlv(tlv) => tlv.encode(),
        }
    }

    /// What a buffer decodes to when the envelope announces a body of type
    /// `kind`.
    pub open spec fn decode(kind: RequestBodyType, buf: Seq<u8>) -> ProtocolResult<BodyView> {
        match kind {
            RequestBodyType::RegisterProtocol => match RegisterView::decode(buf) {
                Ok(reg) => Ok(BodyView::Register(reg)),
                Err(e) => Err(e),
            },
            RequestBodyType::TlvProtocol => match TlvView::decode(buf) {
                Ok(tlv) => Ok(BodyView::Tlv(tlv)),
                Err(e) => Err(e),
            },
        }
    }

    /// What a buffer is taken for when no body type is at hand: a register
    /// record if it can be read as one, else a TLV command record if it can
    /// be read as one.
    pub open spec fn sniff(buf: Seq<u8>) -> ProtocolResult<BodyView> {
        match RegisterView::decode(buf) {
            Ok(reg) => Ok(BodyView::Register(reg)),
            Err(_) => match TlvView::decode(buf) {
                Ok(tlv) => Ok(BodyView::Tlv(tlv)),
                Err(_) => Err(ProtocolError::UnknownCommandType),
            },
        }
    }
}

impl ProtocolBody {
    /// The body type that announces this body in an envelope.
    pub fn kind(&self) -> (k: RequestBodyType)
        ensures
            k == self@.kind(),
    {
        match self {
            ProtocolBody::Register(_) => RequestBodyType::RegisterProtocol,
            ProtocolBody::Tlv(_) => RequestBodyType::TlvProtocol,
        }
    }

    /// Encodes the body.
    pub fn serialize(&self) -> (out: Vec<u8>)
        ensures
            out@ == self@.encode(),
    {
        match self {
            ProtocolBody::Register(reg) => reg.serialize(),
            ProtocolBody::Tlv(tlv) => tlv.serialize(),
        }
    }

    /// Decodes the body that an envelope announces as one of type `kind`.
    pub fn deserialize(kind: RequestBodyType, buf: &[u8]) -> (r: ProtocolResult<Self>)
        ensures
            decoded_as(r, BodyView::decode(kind, buf@)),
    {
        match kind {
            RequestBodyType::RegisterProtocol => {
                match Layer3Payload::<RegisterProtocol>::deserialize(buf) {
                    Ok(p) => Ok(ProtocolBody::Register(p.into_body())),
                    Err(e) => Err(e),
                }
            },
            RequestBodyType::TlvProtocol => {
                match Layer3Payload::<TlvProtocol>::deserialize(buf) {
                    Ok(p) => Ok(ProtocolBody::Tlv(p.into_body())),
                    Err(e) => Err(e),
                }
            },
        }
    }
}

/// A body of a kind fixed by its type.
#[derive(Debug, PartialEq, Eq)]
pub struct Layer3Payload<P: ProtocolType> {
    pub body: P,
    _phantom: PhantomData<P>,
}

impl<P: ProtocolType + Clone> Clone for Layer3Payload<P> {
    fn clone(&self) -> Self {
        Self { body: self.body.clone(), _phantom: PhantomData }
    }
}

impl<P: ProtocolType> View for Layer3Payload<P> {
    type V = P::V;

    open spec fn view(&self) -> P::V {
        self.inner()@
    }
}

impl<P: ProtocolType> Layer3Payload<P> {
    /// The body held.
    pub closed spec fn inner(self) -> P {
        self.body
    }

    /// Wraps a body.
    pub fn new(body: P) -> (r: Self)
        ensures
            r.inner() == body,
    {
        Self { body, _phantom: PhantomData }
    }

    /// Unwraps the body.
    pub fn into_body(self) -> (body: P)
        ensures
            body == self.inner(),
    {
        self.body
    }

    /// Encodes the body. This never fails.
    pub fn serialize(&self) -> (r: ProtocolResult<Vec<u8>>)
        ensures
            r matches Ok(out) && out@ == P::encoding(self@),
    {
        Ok(self.body.serialize())
    }

    /// Decodes a body of kind `P`.
    pub fn deserialize(buf: &[u8]) -> (r: ProtocolResult<Self>)
        ensures
            decoded_as(r, P::decoding(buf@)),
    {
        match P::deserialize(buf) {
            Ok(body) => Ok(Self { body, _phantom: PhantomData }),
            Err(e) => Err(e),
        }
    }

    /// Guesses the kind of a body from its bytes, for diagnostics only.
    ///
    /// The guess is not to be relied on. The two records share one layout, so
    /// every buffer that can be read at all is taken for a register record,
    /// also when its sender wrote a TLV command record; `Tlv` is never
    /// returned. To decode a body, take the body type from the envelope.
    pub fn deserialize_any(buf: &[u8]) -> (r: ProtocolResult<ProtocolBody>)
        ensures
            decoded_as(r, BodyView::sniff(buf@)),
    {
        if let Ok(reg_body) = RegisterProtocol::deserialize(buf) {
            return Ok(ProtocolBody::Register(reg_body));
        }
        if let Ok(tlv_body) = TlvProtocol::deserialize(buf) {
            return Ok(ProtocolBody::Tlv(tlv_body));
        }
        Err(ProtocolError::UnknownCommandType)
    }
}

/// A record built from data that sixteen bits can count announces the true
/// length of its data.
pub proof fn lemma_data_length_of_short(data: Seq<u8>)
    requires
        data.len() <= u16::MAX,
    ensures
        data_length_of(data) == data.len(),
{
}

/// What the shared layout gives back when read: the four parts written.
pub proof fn lemma_body_bytes_read_back(
    field0: u32,
    error_code: u16,
    data_length: u16,
    data: Seq<u8>,
)
    ensures
        ({
            let wire = body_bytes(field0, error_code, data_length, data);
            &&& wire.len() == data.len() + 8
            &&& u32_le_at(wire, 0) == field0
            &&& u16_le_at(wire, 4) == error_code
            &&& u16_le_at(wire, 6) == data_length
            &&& wire.subrange(8, wire.len() as int) == data
        }),
{
    let wire = body_bytes(field0, error_code, data_length, data);
    lemma_u32_le_roundtrip(field0, Seq::empty(), u16_le(error_code) + u16_le(data_length) + data);
    lemma_u16_le_roundtrip(error_code, u32_le(field0), u16_le(data_length) + data);
    lemma_u16_le_roundtrip(data_length, u32_le(field0) + u16_le(error_code), data);
    assert(wire =~= Seq::<u8>::empty() + u32_le(field0) + (u16_le(error_code) + u16_le(data_length)
        + data));
    assert(wire =~= u32_le(field0) + u16_le(error_code) + (u16_le(data_length) + data));
    assert(wire.subrange(8, wire.len() as int) =~= data);
}

/// Decoding an encoded register record gives the record back.
pub proof fn lemma_register_roundtrip(reg: RegisterView)
    ensures
        RegisterView::decode(reg.encode()) == Ok::<RegisterView, ProtocolError>(reg),
{
    lemma_body_bytes_read_back(reg.register_address, reg.error_code, reg.data_length, reg.data);
}

/// Decoding an encoded TLV command record gives the record back.
pub proof fn lemma_tlv_roundtrip(tlv: TlvView)
    ensures
        TlvView::decode(tlv.encode()) == Ok::<TlvView, ProtocolError>(tlv),
{
    lemma_body_bytes_read_back(tlv.command_code, tlv.error_code, tlv.data_length, tlv.user_data);
}

/// Decoding an encoded body under its own body type gives the body back.
pub proof fn lemma_body_roundtrip(body: BodyView)
    ensures
        BodyView::decode(body.kind(), body.encode()) == Ok::<BodyView, ProtocolError>(body),
        body.encode().len() == body.data().len() + 8,
{
    match body {
        BodyView::Register(reg) => {
            lemma_register_roundtrip(reg);
            lemma_body_bytes_read_back(
                reg.register_address,
                reg.error_code,
                reg.data_length,
                reg.data,
            );
        },
        BodyView::Tlv(tlv) => {
            lemma_tlv_roundtrip(tlv);
            lemma_body_bytes_read_back(
                tlv.command_code,
                tlv.error_code,
                tlv.data_length,
                tlv.user_data,
            );
        },
    }
}

/// The bytes of a body do not tell its kind. Read as a register record, an
/// encoded TLV command record is accepted without complaint, its command code
/// taken for a register address; and a guess from the bytes alone takes every
/// readable buffer for a register record. Decoding a body under another type
/// than the one it was encoded with is therefore a misuse that no decoder can
/// detect.
pub proof fn lemma_body_bytes_do_not_tell_kind(tlv: TlvView, buf: Seq<u8>)
    ensures
        RegisterView::decode(tlv.encode()) == Ok::<RegisterView, ProtocolError>(
            RegisterView {
                register_address: tlv.command_code,
                error_code: tlv.error_code,
                data_length: tlv.data_length,
                data: tlv.user_data,
            },
        ),
        BodyView::sniff(tlv.encode()) is Ok,
        BodyView::sniff(tlv.encode())->Ok_0 is Register,
        BodyView::sniff(buf) == (if buf.len() >= 8 {
            BodyView::decode(RequestBodyType::RegisterProtocol, buf)
        } else {
            Err(ProtocolError::UnknownCommandType)
        }),
{
    lemma_body_bytes_read_back(tlv.command_code, tlv.error_code, tlv.data_length, tlv.user_data);
}

/// The type identifiers of the two records are the wire values of their body
/// types.
pub proof fn lemma_type_ids_match_body_types()
    ensures
        RegisterProtocol::TYPE_ID == RequestBodyType::RegisterProtocol.wire_value(),
        TlvProtocol::TYPE_ID == RequestBodyType::TlvProtocol.wire_value(),
{
}

} // verus!
