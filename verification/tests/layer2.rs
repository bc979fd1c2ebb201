use udp_protocol::layer2::{DeviceType, Layer2Protocol, ReqRsp, RequestBodyType};
use udp_protocol::types::ProtocolError;

fn sample_envelope() -> Layer2Protocol {
    Layer2Protocol {
        req_rsp: ReqRsp::Request,
        is_need_reply: false,
        code: false,
        flag: false,
        request_body_type: RequestBodyType::RegisterProtocol,
        device_type: DeviceType::FPGA,
        device_index: 0,
        group: [0; 8],
        payload: Vec::new(),
    }
}

#[test]
fn test_layer2_protocol_serialize_and_deserialize() {
    let layer2 = Layer2Protocol {
        req_rsp: ReqRsp::Request,
        is_need_reply: true,
        code: false,
        flag: true,
        request_body_type: RequestBodyType::TlvProtocol,
        device_type: DeviceType::MCU,
        device_index: 10,
        group: [0x01; 8],
        payload: vec![0x01, 0x02, 0x03],
    };

    let serialized = layer2.serialize();
    let deserialized = Layer2Protocol::deserialize(&serialized).unwrap();

    assert_eq!(deserialized.req_rsp, layer2.req_rsp);
    assert_eq!(deserialized.is_need_reply, layer2.is_need_reply);
    assert_eq!(deserialized.code, layer2.code);
    assert_eq!(deserialized.flag, layer2.flag);
    assert_eq!(deserialized.request_body_type, layer2.request_body_type);
    assert_eq!(deserialized.device_type, layer2.device_type);
    assert_eq!(deserialized.device_index, layer2.device_index);
    assert_eq!(deserialized.group, layer2.group);
    assert_eq!(deserialized.payload, layer2.payload);
}

#[test]
fn envelope_wire_bytes_are_exact() {
    let envelope = Layer2Protocol {
        req_rsp: ReqRsp::Response,
        is_need_reply: true,
        code: false,
        flag: true,
        request_body_type: RequestBodyType::TlvProtocol,
        device_type: DeviceType::OpticalPort,
        device_index: 0x0A0B,
        group: [1, 2, 3, 4, 5, 6, 7, 8],
        payload: vec![0xDE, 0xAD],
    };
    assert_eq!(envelope.head(), 0xD1);
    assert_eq!(
        envelope.serialize(),
        vec![0xD1, 0x03, 0x0B, 0x0A, 1, 2, 3, 4, 5, 6, 7, 8, 0xDE, 0xAD]
    );
}

#[test]
fn envelope_head_byte_packs_each_field_in_its_bit() {
    let mut e = sample_envelope();
    assert_eq!(e.head(), 0x00);
    e.req_rsp = ReqRsp::Response;
    assert_eq!(e.head(), 0x80);
    e = sample_envelope();
    e.is_need_reply = true;
    assert_eq!(e.head(), 0x40);
    e = sample_envelope();
    e.code = true;
    assert_eq!(e.head(), 0x20);
    e = sample_envelope();
    e.flag = true;
    assert_eq!(e.head(), 0x10);
    e = sample_envelope();
    e.request_body_type = RequestBodyType::TlvProtocol;
    assert_eq!(e.head(), 0x01);
    e.req_rsp = ReqRsp::Response;
    e.is_need_reply = true;
    e.code = true;
    e.flag = true;
    assert_eq!(e.head(), 0xF1);
}

#[test]
fn envelope_round_trips_for_every_header_combination() {
    for bits in 0..32u8 {
        for device_type in
            [DeviceType::FPGA, DeviceType::MCU, DeviceType::NetworkPort, DeviceType::OpticalPort]
        {
            let envelope = Layer2Protocol {
                req_rsp: if bits & 1 != 0 { ReqRsp::Response } else { ReqRsp::Request },
                is_need_reply: bits & 2 != 0,
                code: bits & 4 != 0,
                flag: bits & 8 != 0,
                request_body_type: if bits & 16 != 0 {
                    RequestBodyType::TlvProtocol
                } else {
                    RequestBodyType::RegisterProtocol
                },
                device_type,
                device_index: 0xFFFE,
                group: [0xF0, 0xE1, 0xD2, 0xC3, 0xB4, 0xA5, 0x96, 0x87],
                payload: vec![bits, 0, 0xFF],
            };
            let back = Layer2Protocol::deserialize(&envelope.serialize()).unwrap();
            assert_eq!(back, envelope);
        }
    }
}

#[test]
fn envelope_shorter_than_twelve_bytes_is_invalid_length() {
    for len in 0..12 {
        let buf = vec![0u8; len];
        assert_eq!(Layer2Protocol::deserialize(&buf).unwrap_err(), ProtocolError::InvalidLength);
    }
    let buf = vec![0xFFu8; 11];
    assert_eq!(Layer2Protocol::deserialize(&buf).unwrap_err(), ProtocolError::InvalidLength);
}

#[test]
fn envelope_of_exactly_twelve_bytes_has_empty_payload() {
    let buf = [0x81, 0x02, 0x34, 0x12, 9, 8, 7, 6, 5, 4, 3, 2];
    let e = Layer2Protocol::deserialize(&buf).unwrap();
    assert_eq!(e.req_rsp, ReqRsp::Response);
    assert!(!e.is_need_reply);
    assert!(!e.code);
    assert!(!e.flag);
    assert_eq!(e.request_body_type, RequestBodyType::TlvProtocol);
    assert_eq!(e.device_type, DeviceType::NetworkPort);
    assert_eq!(e.device_index, 0x1234);
    assert_eq!(e.group, [9, 8, 7, 6, 5, 4, 3, 2]);
    assert!(e.payload.is_empty());
}

#[test]
fn envelope_body_type_above_one_is_unsupported() {
    for nibble in 2..16u8 {
        for high in [0x00u8, 0x80, 0x40, 0x20, 0x10, 0xF0] {
            let mut buf = vec![0u8; 12];
            buf[0] = high | nibble;
            assert_eq!(
                Layer2Protocol::deserialize(&buf).unwrap_err(),
                ProtocolError::UnsupportedRequestBodyType
            );
        }
    }
}

#[test]
fn envelope_device_type_above_three_is_unsupported() {
    for device in [4u8, 5, 0x10, 0x80, 0xFF] {
        let mut buf = vec![0u8; 12];
        buf[1] = device;
        assert_eq!(
            Layer2Protocol::deserialize(&buf).unwrap_err(),
            ProtocolError::UnsupportedDeviceType
        );
    }
    // the body type is looked at first
    let mut buf = vec![0u8; 12];
    buf[0] = 0x02;
    buf[1] = 0xFF;
    assert_eq!(
        Layer2Protocol::deserialize(&buf).unwrap_err(),
        ProtocolError::UnsupportedRequestBodyType
    );
}
