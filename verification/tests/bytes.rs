use udp_protocol::bytes::{push_u16_le, push_u32_le, read_u16_le, read_u32_le};

#[test]
fn integers_are_written_least_significant_byte_first() {
    let mut buf = vec![0xEE];
    push_u16_le(&mut buf, 0x1234);
    assert_eq!(buf, vec![0xEE, 0x34, 0x12]);
    push_u32_le(&mut buf, 0x89ABCDEF);
    assert_eq!(buf, vec![0xEE, 0x34, 0x12, 0xEF, 0xCD, 0xAB, 0x89]);
    push_u16_le(&mut buf, 0);
    push_u16_le(&mut buf, 0xFFFF);
    push_u32_le(&mut buf, 0xFFFFFFFF);
    push_u32_le(&mut buf, 1);
    assert_eq!(
        &buf[7..],
        &[0, 0, 0xFF, 0xFF, 0xFF, 0xFF, 0xFF, 0xFF, 1, 0, 0, 0]
    );
}

#[test]
fn integers_are_read_least_significant_byte_first() {
    let buf = [0xEE, 0x34, 0x12, 0xEF, 0xCD, 0xAB, 0x89, 0xFF, 0xFF];
    assert_eq!(read_u16_le(&buf, 1), 0x1234);
    assert_eq!(read_u16_le(&buf, 0), 0x34EE);
    assert_eq!(read_u16_le(&buf, 7), 0xFFFF);
    assert_eq!(read_u32_le(&buf, 3), 0x89ABCDEF);
    assert_eq!(read_u32_le(&buf, 5), 0xFFFF89AB);
}

#[test]
fn integers_agree_with_the_standard_encoding() {
    for x in [0u16, 1, 0xFF, 0x100, 0x1234, 0x8000, 0xFFFF] {
        let mut buf = Vec::new();
        push_u16_le(&mut buf, x);
        assert_eq!(buf, x.to_le_bytes().to_vec());
        assert_eq!(read_u16_le(&buf, 0), x);
    }
    for x in [0u32, 1, 0xFF, 0x100, 0xFFFF, 0x10000, 0x12345678, 0x80000000, 0xFFFFFFFF] {
        let mut buf = Vec::new();
        push_u32_le(&mut buf, x);
        assert_eq!(buf, x.to_le_bytes().to_vec());
        assert_eq!(read_u32_le(&buf, 0), x);
    }
}
