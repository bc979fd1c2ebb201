use udp_protocol::types::{
    CheckType, DeviceType, FrameType, Priority, ProtocolError, ReqRsp, RequestBodyType,
};

#[test]
fn error_messages() {
    assert_eq!(ProtocolError::InvalidHeader.message(), "Invalid header");
    assert_eq!(ProtocolError::InvalidLength.message(), "Invalid length");
    assert_eq!(ProtocolError::UnknownCommandType.message(), "Unknown command type");
    assert_eq!(ProtocolError::InvalidPayload.message(), "Invalid payload");
    assert_eq!(ProtocolError::ChecksumMismatch.message(), "Checksum mismatch");
    assert_eq!(ProtocolError::UnsupportedPriority.message(), "Unsupported priority");
    assert_eq!(ProtocolError::UnsupportedCheckType.message(), "Unsupported check type");
    assert_eq!(ProtocolError::UnsupportedFrameType.message(), "Unsupported frame type");
    assert_eq!(ProtocolError::InvalidFrameLength.message(), "Invalid frame length");
    assert_eq!(
        ProtocolError::UnsupportedRequestBodyType.message(),
        "Unsupported request body type"
    );
    assert_eq!(ProtocolError::UnsupportedDeviceType.message(), "Unsupported device type");
    assert_eq!(
        ProtocolError::Other(String::from("socket closed")).message(),
        "Other error: socket closed"
    );
    assert_eq!(ProtocolError::Other(String::new()).message(), "Other error: ");
}

#[test]
fn priority_wire_values() {
    assert_eq!(Priority::Low.to_byte(), 0);
    assert_eq!(Priority::Medium.to_byte(), 1);
    assert_eq!(Priority::High.to_byte(), 2);
    assert_eq!(Priority::from_byte(0), Ok(Priority::Low));
    assert_eq!(Priority::from_byte(1), Ok(Priority::Medium));
    assert_eq!(Priority::from_byte(2), Ok(Priority::High));
    for b in 3..=255u8 {
        assert_eq!(Priority::from_byte(b), Err(ProtocolError::UnsupportedPriority));
    }
}

#[test]
fn check_type_wire_values() {
    assert_eq!(CheckType::CheckSum.to_byte(), 0);
    assert_eq!(CheckType::from_byte(0), Ok(CheckType::CheckSum));
    for b in 1..=255u8 {
        assert_eq!(CheckType::from_byte(b), Err(ProtocolError::UnsupportedCheckType));
    }
}

#[test]
fn frame_type_wire_values() {
    assert_eq!(FrameType::Type0.to_byte(), 0);
    assert_eq!(FrameType::Type1.to_byte(), 1);
    assert_eq!(FrameType::from_byte(0), Ok(FrameType::Type0));
    assert_eq!(FrameType::from_byte(1), Ok(FrameType::Type1));
    for b in 2..=255u8 {
        assert_eq!(FrameType::from_byte(b), Err(ProtocolError::UnsupportedFrameType));
    }
}

#[test]
fn direction_wire_values() {
    assert_eq!(ReqRsp::Request.to_byte(), 0);
    assert_eq!(ReqRsp::Response.to_byte(), 1);
    assert_eq!(ReqRsp::from_byte(0), ReqRsp::Request);
    assert_eq!(ReqRsp::from_byte(1), ReqRsp::Response);
}

#[test]
fn body_type_wire_values() {
    assert_eq!(RequestBodyType::RegisterProtocol.to_byte(), 0);
    assert_eq!(RequestBodyType::TlvProtocol.to_byte(), 1);
    assert_eq!(RequestBodyType::from_byte(0), Ok(RequestBodyType::RegisterProtocol));
    assert_eq!(RequestBodyType::from_byte(1), Ok(RequestBodyType::TlvProtocol));
    for b in 2..=255u8 {
        assert_eq!(
            RequestBodyType::from_byte(b),
            Err(ProtocolError::UnsupportedRequestBodyType)
        );
    }
}

#[test]
fn device_type_wire_values() {
    assert_eq!(DeviceType::FPGA.to_byte(), 0);
    assert_eq!(DeviceType::MCU.to_byte(), 1);
    assert_eq!(DeviceType::NetworkPort.to_byte(), 2);
    assert_eq!(DeviceType::OpticalPort.to_byte(), 3);
    assert_eq!(DeviceType::from_byte(0), Ok(DeviceType::FPGA));
    assert_eq!(DeviceType::from_byte(1), Ok(DeviceType::MCU));
    assert_eq!(DeviceType::from_byte(2), Ok(DeviceType::NetworkPort));
    assert_eq!(DeviceType::from_byte(3), Ok(DeviceType::OpticalPort));
    for b in 4..=255u8 {
        assert_eq!(DeviceType::from_byte(b), Err(ProtocolError::UnsupportedDeviceType));
    }
}
