use dsu_motion::packet::{crc32, encode_packet, sample_payload, to_dsu_packet, MESSAGE_TYPE_DATA};
use dsu_motion::provider::MotionSample;

#[test]
fn test_crc32_check_value() {
    // The classic check input of CRC-32.
    let data = b"123456789".to_vec();
    assert_eq!(crc32(&data), 0xCBF43926);
}

#[test]
fn test_crc32_corner_cases() {
    assert_eq!(crc32(&Vec::new()), 0);
    assert_eq!(crc32(&vec![0u8]), 0xD202EF8D);
}

#[test]
fn test_packet_layout() {
    let payload = vec![0xAAu8, 0xBB, 0xCC];
    let p = encode_packet(0x11223344, 0x100002, &payload);
    assert_eq!(p.len(), 23);
    // Magic bytes.
    assert_eq!(&p[0..4], b"DSUS");
    // Protocol version 1001, little-endian.
    assert_eq!((p[4], p[5]), (0xE9, 0x03));
    // Length of everything after the header: message type plus payload.
    assert_eq!((p[6], p[7]), (7, 0));
    // The checksum field holds the CRC-32 of everything after it.
    let tail = p[12..].to_vec();
    let crc = crc32(&tail);
    assert_eq!(
        (p[8], p[9], p[10], p[11]),
        (
            (crc & 0xFF) as u8,
            ((crc >> 8) & 0xFF) as u8,
            ((crc >> 16) & 0xFF) as u8,
            ((crc >> 24) & 0xFF) as u8,
        ),
    );
    // Server id, message type, then the payload, all little-endian.
    assert_eq!(&p[12..16], &[0x44, 0x33, 0x22, 0x11]);
    assert_eq!(&p[16..20], &[0x02, 0x00, 0x10, 0x00]);
    assert_eq!(&p[20..], &[0xAA, 0xBB, 0xCC]);
}

#[test]
fn test_sample_payload_encoding() {
    let sample = MotionSample { accel: (1, -1, 0x0102030405060708), gyro: (0, 256, -2) };
    let payload = sample_payload(&sample);
    assert_eq!(payload.len(), 48);
    assert_eq!(&payload[0..8], &[1, 0, 0, 0, 0, 0, 0, 0]);
    // Two's complement, little-endian.
    assert_eq!(&payload[8..16], &[0xFF; 8]);
    assert_eq!(&payload[16..24], &[8, 7, 6, 5, 4, 3, 2, 1]);
    assert_eq!(&payload[24..32], &[0; 8]);
    assert_eq!(&payload[32..40], &[0, 1, 0, 0, 0, 0, 0, 0]);
    assert_eq!(&payload[40..48], &[0xFE, 0xFF, 0xFF, 0xFF, 0xFF, 0xFF, 0xFF, 0xFF]);
}

#[test]
fn test_to_dsu_packet() {
    let sample = MotionSample { accel: (720896, 1504051, 1057488896), gyro: (0, 0, 144) };
    let p = to_dsu_packet(&sample, 7);
    assert_eq!(p.len(), 68);
    assert_eq!(&p[0..4], b"DSUS");
    // Length field: message type plus the 48-byte motion payload.
    assert_eq!((p[6], p[7]), (52, 0));
    assert_eq!(&p[12..16], &[7, 0, 0, 0]);
    assert_eq!(MESSAGE_TYPE_DATA, 0x100002);
    assert_eq!(&p[16..20], &MESSAGE_TYPE_DATA.to_le_bytes());
    assert_eq!(&p[20..], &sample_payload(&sample)[..]);
}
