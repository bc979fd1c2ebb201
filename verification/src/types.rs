//! Error kinds and the small enumerations carried in the frame and envelope
//! headers, each with its one-byte wire value.

use vstd::prelude::*;
use vstd::string::StringExecFns;

verus! {

/// The result of a decoding step.
pub type ProtocolResult<T> = Result<T, ProtocolError>;

/// Why a buffer or a header field was rejected.
#[derive(Debug, Clone, PartialEq, Eq)]
pub enum ProtocolError {
    InvalidHeader,
    InvalidLength,
    UnknownCommandType,
    InvalidPayload,
    ChecksumMismatch,
    UnsupportedPriority,
    UnsupportedCheckType,
    UnsupportedFrameType,
    InvalidFrameLength,
    UnsupportedRequestBodyType,
    UnsupportedDeviceType,
    Other(String),
}

impl ProtocolError {
    /// The human-readable text of an error.
    pub open spec fn text(self) -> Seq<char> {
        match self {
            ProtocolError::InvalidHeader => "Invalid header"@,
            ProtocolError::InvalidLength => "Invalid length"@,
            ProtocolError::UnknownCommandType => "Unknown command type"@,
            ProtocolError::InvalidPayload => "Invalid payload"@,
            ProtocolError::ChecksumMismatch => "Checksum mismatch"@,
            ProtocolError::UnsupportedPriority => "Unsupported priority"@,
            ProtocolError::UnsupportedCheckType => "Unsupported check type"@,
            ProtocolError::UnsupportedFrameType => "Unsupported frame type"@,
            ProtocolError::InvalidFrameLength => "Invalid frame length"@,
            ProtocolError::UnsupportedRequestBodyType => "Unsupported request body type"@,
            ProtocolError::UnsupportedDeviceType => "Unsupported device type"@,
            ProtocolError::Other(msg) => "Other error: "@ + msg@,
        }
    }

    /// Renders the error as text.
    pub fn message(&self) -> (s: String)
        ensures
            s@ == self.text(),
    {
        match self {
            ProtocolError::InvalidHeader => String::from_str("Invalid header"),
            ProtocolError::InvalidLength => String::from_str("Invalid length"),
            ProtocolError::UnknownCommandType => String::from_str("Unknown command type"),
            ProtocolError::InvalidPayload => String::from_str("Invalid payload"),
            ProtocolError::ChecksumMismatch => String::from_str("Checksum mismatch"),
            ProtocolError::UnsupportedPriority => String::from_str("Unsupported priority"),
            ProtocolError::UnsupportedCheckType => String::from_str("Unsupported check type"),
            ProtocolError::UnsupportedFrameType => String::from_str("Unsupported frame type"),
            ProtocolError::InvalidFrameLength => String::from_str("Invalid frame length"),
            ProtocolError::UnsupportedRequestBodyType => String::from_str(
                "Unsupported request body type",
            ),
            ProtocolError::UnsupportedDeviceType => String::from_str("Unsupported device type"),
            ProtocolError::Other(msg) => String::from_str("Other error: ").concat(msg.as_str()),
        }
    }
}

/// Relates what a decoder returns to what its model gives for the same
/// bytes: the same error, or a value whose view is the model's value.
pub open spec fn decoded_as<T: View, E>(got: Result<T, E>, expected: Result<T::V, E>) -> bool {
    match (got, expected) {
        (Ok(value), Ok(model)) => value@ == model,
        (Err(e), Err(x)) => e == x,
        _ => false,
    }
}

/// The kind of device a message is addressed to.
#[derive(Debug, Clone, Copy, PartialEq, Eq, Structural)]
pub enum DeviceType {
    FPGA,
    MCU,
    NetworkPort,
    OpticalPort,
}

impl DeviceType {
    /// The byte that stands for this device type on the wire.
    pub open spec fn wire_value(self) -> u8 {
        match self {
            DeviceType::FPGA => 0x00,
            DeviceType::MCU => 0x01,
            DeviceType::NetworkPort => 0x02,
            DeviceType::OpticalPort => 0x03,
        }
    }

    /// The device type that a wire byte stands for, if any.
    pub open spec fn parse(b: u8) -> ProtocolResult<DeviceType> {
        if b == 0x00 {
            Ok(DeviceType::FPGA)
        } else if b == 0x01 {
            Ok(DeviceType::MCU)
        } else if b == 0x02 {
            Ok(DeviceType::NetworkPort)
        } else if b == 0x03 {
            Ok(DeviceType::OpticalPort)
        } else {
            Err(ProtocolError::UnsupportedDeviceType)
        }
    }

    pub fn to_byte(self) -> (b: u8)
        ensures
            b == self.wire_value(),
    {
        match self {
            DeviceType::FPGA => 0x00,
            DeviceType::MCU => 0x01,
            DeviceType::NetworkPort => 0x02,
            DeviceType::OpticalPort => 0x03,
        }
    }

    pub fn from_byte(b: u8) -> (r: ProtocolResult<DeviceType>)
        ensures
            r == Self::parse(b),
    {
        match b {
            0x00 => Ok(DeviceType::FPGA),
            0x01 => Ok(DeviceType::MCU),
            0x02 => Ok(DeviceType::NetworkPort),
            0x03 => Ok(DeviceType::OpticalPort),
            _ => Err(ProtocolError::UnsupportedDeviceType),
        }
    }
}

/// Whether a message is a request or the response to one.
#[derive(Debug, Clone, Copy, PartialEq, Eq, Structural)]
pub enum ReqRsp {
    Request,
    Response,
}

impl ReqRsp {
    /// The value of the direction bit: 0 for a request, 1 for a response.
    pub open spec fn wire_value(self) -> u8 {
        match self {
            ReqRsp::Request => 0,
            ReqRsp::Response => 1,
        }
    }

    /// The direction that a direction bit stands for.
    pub open spec fn parse(bit: u8) -> ReqRsp {
        if bit == 0 {
            ReqRsp::Request
        } else {
            ReqRsp::Response
        }
    }

    pub fn to_byte(self) -> (b: u8)
        ensures
            b == self.wire_value(),
    {
        match self {
            ReqRsp::Request => 0,
            ReqRsp::Response => 1,
        }
    }

    pub fn from_byte(bit: u8) -> (r: ReqRsp)
        ensures
            r == Self::parse(bit),
    {
        if bit == 0 {
            ReqRsp::Request
        } else {
            ReqRsp::Response
        }
    }
}

/// Which of the two body layouts an envelope carries. The two layouts are
/// byte-identical, so this tag is the only thing that tells them apart.
#[derive(Debug, Clone, Copy, PartialEq, Eq, Structural)]
pub enum RequestBodyType {
    RegisterProtocol,
    TlvProtocol,
}

impl RequestBodyType {
    /// The value held in the low nibble of the envelope's header byte.
    pub open spec fn wire_value(self) -> u8 {
        match self {
            RequestBodyType::RegisterProtocol => 0,
            RequestBodyType::TlvProtocol => 1,
        }
    }

    /// The body type that a nibble stands for, if any.
    pub open spec fn parse(nibble: u8) -> ProtocolResult<RequestBodyType> {
        if nibble == 0 {
            Ok(RequestBodyType::RegisterProtocol)
        } else if nibble == 1 {
            Ok(RequestBodyType::TlvProtocol)
        } else {
            Err(ProtocolError::UnsupportedRequestBodyType)
        }
    }

    pub fn to_byte(self) -> (b: u8)
        ensures
            b == self.wire_value(),
    {
        match self {
            RequestBodyType::RegisterProtocol => 0,
            RequestBodyType::TlvProtocol => 1,
        }
    }

    pub fn from_byte(nibble: u8) -> (r: ProtocolResult<RequestBodyType>)
        ensures
            r == Self::parse(nibble),
    {
        match nibble {
            0 => Ok(RequestBodyType::RegisterProtocol),
            1 => Ok(RequestBodyType::TlvProtocol),
            _ => Err(ProtocolError::UnsupportedRequestBodyType),
        }
    }
}

/// The integrity check that closes a frame.
#[derive(Debug, Clone, Copy, PartialEq, Eq, Structural)]
pub enum CheckType {
    CheckSum,
}

impl CheckType {
    /// The byte that stands for this check type on the wire.
    pub open spec fn wire_value(self) -> u8 {
        match self {
            CheckType::CheckSum => 0x00,
        }
    }

    /// The check type that a wire byte stands for, if any.
    pub open spec fn parse(b: u8) -> ProtocolResult<CheckType> {
        if b == 0x00 {
            Ok(CheckType::CheckSum)
        } else {
            Err(ProtocolError::UnsupportedCheckType)
        }
    }

    pub fn to_byte(self) -> (b: u8)
        ensures
            b == self.wire_value(),
    {
        match self {
            CheckType::CheckSum => 0x00,
        }
    }

    pub fn from_byte(b: u8) -> (r: ProtocolResult<CheckType>)
        ensures
            r == Self::parse(b),
    {
        match b {
            0x00 => Ok(CheckType::CheckSum),
            _ => Err(ProtocolError::UnsupportedCheckType),
        }
    }
}

/// The priority of a frame.
#[derive(Debug, Clone, Copy, PartialEq, Eq, Structural)]
pub enum Priority {
    Low,
    Medium,
    High,
}

impl Priority {
    /// The byte that stands for this priority on the wire.
    pub open spec fn wire_value(self) -> u8 {
        match self {
            Priority::Low => 0,
            Priority::Medium => 1,
            Priority::High => 2,
        }
    }

    /// The priority that a wire byte stands for, if any.
    pub open spec fn parse(b: u8) -> ProtocolResult<Priority> {
        if b == 0 {
            Ok(Priority::Low)
        } else if b == 1 {
            Ok(Priority::Medium)
        } else if b == 2 {
            Ok(Priority::High)
        } else {
            Err(ProtocolError::UnsupportedPriority)
        }
    }

    pub fn to_byte(self) -> (b: u8)
        ensures
            b == self.wire_value(),
    {
        match self {
            Priority::Low => 0,
            Priority::Medium => 1,
            Priority::High => 2,
        }
    }

    pub fn from_byte(b: u8) -> (r: ProtocolResult<Priority>)
        ensures
            r == Self::parse(b),
    {
        match b {
            0 => Ok(Priority::Low),
            1 => Ok(Priority::Medium),
            2 => Ok(Priority::High),
            _ => Err(ProtocolError::UnsupportedPriority),
        }
    }
}

/// The type of a frame.
#[derive(Debug, Clone, Copy, PartialEq, Eq, Structural)]
pub enum FrameType {
    Type0,
    Type1,
}

impl FrameType {
    /// The byte that stands for this frame type on the wire.
    pub open spec fn wire_value(self) -> u8 {
        match self {
            FrameType::Type0 => 0,
            FrameType::Type1 => 1,
        }
    }

    /// The frame type that a wire byte stands for, if any.
    pub open spec fn parse(b: u8) -> ProtocolResult<FrameType> {
        if b == 0 {
            Ok(FrameType::Type0)
        } else if b == 1 {
            Ok(FrameType::Type1)
        } else {
            Err(ProtocolError::UnsupportedFrameType)
        }
    }

    pub fn to_byte(self) -> (b: u8)
        ensures
            b == self.wire_value(),
    {
        match self {
            FrameType::Type0 => 0,
            FrameType::Type1 => 1,
        }
    }

    pub fn from_byte(b: u8) -> (r: ProtocolResult<FrameType>)
        ensures
            r == Self::parse(b),
    {
        match b {
            0 => Ok(FrameType::Type0),
            1 => Ok(FrameType::Type1),
            _ => Err(ProtocolError::UnsupportedFrameType),
        }
    }
}

} // verus!
