use xpressnet_decoder::checksum::compute_checksum;
use xpressnet_decoder::checksum::validate_checksum;

#[test]
fn computed_checksum_round_trips() {
    let frames: Vec<Vec<u8>> = vec![
        vec![],
        vec![0x43],
        vec![0x43, 0x10, 0x20, 0x31],
        vec![0xE3, 0x50, 0x12, 0x34],
        vec![0xFF, 0xFF, 0xFF, 0xFF, 0xFF, 0xFF, 0xFF],
    ];
    for frame in frames {
        let checksum = compute_checksum(&frame);
        assert!(validate_checksum(&frame, checksum));
    }
}

#[test]
fn known_checksum_value() {
    let frame = vec![0x43, 0x10, 0x20, 0x31];
    assert_eq!(compute_checksum(&frame), 0x42);
}

#[test]
fn any_single_bit_flip_is_detected() {
    let frame = vec![0x43, 0x10, 0x20, 0x31];
    let checksum = compute_checksum(&frame);
    for position in 0..frame.len() {
        for bit in 0..8 {
            let mut corrupted = frame.clone();
            corrupted[position] ^= 1u8 << bit;
            assert!(!validate_checksum(&corrupted, checksum));
        }
    }
}

#[test]
fn wrong_checksum_byte_is_rejected() {
    let frame = vec![0x61, 0x01];
    let checksum = compute_checksum(&frame);
    assert!(!validate_checksum(&frame, checksum ^ 0x01));
}
