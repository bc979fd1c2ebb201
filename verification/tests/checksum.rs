use udp_protocol::utils::{calc_checksum, verify_checksum};

#[test]
fn test_checksum() {
    let data = [0x01, 0x02, 0x03];
    let checksum = calc_checksum(&data);
    assert!(verify_checksum(&data, checksum));
}

#[test]
fn test_invalid_checksum() {
    let data = [0x10, 0x20, 0x30];
    let checksum = 0x00;
    assert!(!verify_checksum(&data, checksum));
}

#[test]
fn checksum_of_empty_is_zero() {
    assert_eq!(calc_checksum(&[]), 0);
    assert!(verify_checksum(&[], 0));
    assert!(!verify_checksum(&[], 1));
    assert!(!verify_checksum(&[], 0xFFFF));
}

#[test]
fn checksum_is_negated_sum() {
    assert_eq!(calc_checksum(&[0x01, 0x02, 0x03]), 0xFFFA);
    assert_eq!(calc_checksum(&[0x01]), 0xFFFF);
    assert_eq!(calc_checksum(&[0xFF, 0xFF]), 0xFE02);
    assert_eq!(calc_checksum(&[0x00, 0x00, 0x00]), 0);
}

#[test]
fn checksum_sum_wraps_at_sixteen_bits() {
    // 257 * 255 = 65535
    let data = vec![0xFFu8; 257];
    assert_eq!(calc_checksum(&data), 1);
    // 258 * 255 = 65790 = 65536 + 254
    let data = vec![0xFFu8; 258];
    assert_eq!(calc_checksum(&data), 65282);
    // 256 * 256 = 65536: the sum wraps to zero
    let data = vec![0x80u8; 512];
    assert_eq!(calc_checksum(&data), 0);
}

#[test]
fn checksum_plus_sum_is_zero_mod_65536() {
    let data: Vec<u8> = (0..1000u32).map(|i| (i * 7 + 3) as u8).collect();
    let sum: u32 = data.iter().map(|&b| b as u32).sum();
    let c = calc_checksum(&data) as u32;
    assert_eq!((sum + c) % 65536, 0);
}

#[test]
fn verify_accepts_own_checksum() {
    for len in [0usize, 1, 2, 17, 300, 4096] {
        let data: Vec<u8> = (0..len).map(|i| (i * 31 + 5) as u8).collect();
        let c = calc_checksum(&data);
        assert!(verify_checksum(&data, c));
        assert!(!verify_checksum(&data, c.wrapping_add(1)));
    }
}

#[test]
fn checksum_changes_with_any_flipped_bit() {
    let data: Vec<u8> = vec![0x00, 0xFF, 0x55, 0xAA, 0x01, 0x80];
    let c = calc_checksum(&data);
    for i in 0..data.len() {
        for bit in 0..8 {
            let mut changed = data.clone();
            changed[i] ^= 1 << bit;
            assert_ne!(calc_checksum(&changed), c);
            assert!(!verify_checksum(&changed, c));
        }
    }
}
