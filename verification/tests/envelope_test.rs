use speconn::envelope::{decode_envelope, encode_envelope, FLAG_COMPRESSED, FLAG_END_STREAM};

#[test]
fn encode_puts_flags_length_then_payload() {
    let frame = encode_envelope(FLAG_END_STREAM, b"hello");
    assert_eq!(frame, vec![0x02, 0, 0, 0, 5, b'h', b'e', b'l', b'l', b'o']);
}

#[test]
fn encode_empty_payload() {
    assert_eq!(encode_envelope(0, &[]), vec![0, 0, 0, 0, 0]);
}

#[test]
fn encode_length_is_big_endian() {
    let payload = vec![7u8; 0x0102];
    let frame = encode_envelope(FLAG_COMPRESSED, &payload);
    assert_eq!(&frame[..5], &[0x01, 0x00, 0x00, 0x01, 0x02]);
    assert_eq!(frame.len(), 5 + 0x0102);
}

#[test]
fn decode_round_trips_encode() {
    let payload = b"{\"a\":1}".to_vec();
    let frame = encode_envelope(FLAG_COMPRESSED, &payload);
    let (flags, p) = decode_envelope(&frame).unwrap();
    assert_eq!(flags, FLAG_COMPRESSED);
    assert_eq!(p, &payload[..]);
}

#[test]
fn decode_ignores_bytes_after_payload() {
    let mut frame = encode_envelope(0, b"ab");
    frame.extend_from_slice(b"rest");
    let (flags, p) = decode_envelope(&frame).unwrap();
    assert_eq!(flags, 0);
    assert_eq!(p, b"ab");
}

#[test]
fn decode_rejects_short_frame() {
    assert_eq!(
        decode_envelope(&[0, 0, 0]),
        Err("envelope: frame too short (3 bytes)".to_string())
    );
    assert_eq!(decode_envelope(&[]), Err("envelope: frame too short (0 bytes)".to_string()));
}

#[test]
fn decode_rejects_truncated_payload() {
    assert_eq!(
        decode_envelope(&[0, 0, 0, 0, 10, 1, 2, 3]),
        Err("envelope: expected 10 payload bytes, got 3".to_string())
    );
    assert_eq!(
        decode_envelope(&[0, 1, 0, 0, 0]),
        Err("envelope: expected 16777216 payload bytes, got 0".to_string())
    );
}
