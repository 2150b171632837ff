use hitch::codec::{decode, encode, CodecError, Envelope, Payload};

fn target(sync: u64, x: i32, roll: i32) -> Envelope {
    Envelope { sync, payload: Payload::Target { x, roll } }
}

#[test]
fn round_trip_target() {
    let e = target(1, 400, 395);
    assert_eq!(decode(&encode(&e)), Ok(e));
}

#[test]
fn round_trip_ack() {
    let e = Envelope { sync: 7, payload: Payload::Ack };
    assert_eq!(decode(&encode(&e)), Ok(e));
}

#[test]
fn round_trip_negative_fields() {
    let e = target(3, -1, -255);
    assert_eq!(decode(&encode(&e)), Ok(e));
}

#[test]
fn round_trip_extreme_values() {
    let e = target(u64::MAX, i32::MIN, i32::MAX);
    assert_eq!(decode(&encode(&e)), Ok(e));
}

#[test]
fn round_trip_zero_sync() {
    let e = target(0, 0, 0);
    assert_eq!(decode(&encode(&e)), Ok(e));
}

#[test]
fn target_wire_layout() {
    // sync 1; target with x 1, roll 2: each field one tagged single-byte varint.
    let e = target(1, 1, 2);
    assert_eq!(encode(&e), vec![0x08, 1, 0x12, 4, 0x08, 1, 0x10, 2]);
}

#[test]
fn ack_wire_layout() {
    let e = Envelope { sync: 1, payload: Payload::Ack };
    assert_eq!(encode(&e), vec![0x08, 1, 0x1a, 0]);
}

#[test]
fn multi_byte_varint_layout() {
    // sync 300 = 0b10_0101100: low seven bits first with the high bit set.
    let e = Envelope { sync: 300, payload: Payload::Ack };
    assert_eq!(encode(&e), vec![0x08, 0xac, 0x02, 0x1a, 0]);
}

#[test]
fn decode_empty_is_malformed() {
    assert_eq!(decode(&vec![]), Err(CodecError::MalformedEnvelope));
}

#[test]
fn decode_missing_sync_is_malformed() {
    // Starts with the target tag instead of the sync tag.
    assert_eq!(decode(&vec![0x12, 0]), Err(CodecError::MalformedEnvelope));
}

#[test]
fn decode_truncated_varint_is_malformed() {
    // Continuation bit set but no next byte.
    assert_eq!(decode(&vec![0x08, 0x80]), Err(CodecError::MalformedEnvelope));
}

#[test]
fn decode_missing_payload_is_malformed() {
    assert_eq!(decode(&vec![0x08, 1]), Err(CodecError::MalformedEnvelope));
}

#[test]
fn decode_unknown_payload_tag_is_malformed() {
    // Field 4 is beyond the two defined payload fields.
    assert_eq!(decode(&vec![0x08, 1, 0x22, 0]), Err(CodecError::MalformedEnvelope));
}

#[test]
fn decode_bad_length_is_malformed() {
    // Target length says two bytes but three follow.
    assert_eq!(
        decode(&vec![0x08, 1, 0x12, 2, 0x08, 1, 0x10]),
        Err(CodecError::MalformedEnvelope)
    );
}

#[test]
fn decode_truncated_target_body_is_malformed() {
    // Length consistent, but the body stops after the throttle field.
    assert_eq!(decode(&vec![0x08, 1, 0x12, 2, 0x08, 1]), Err(CodecError::MalformedEnvelope));
}

#[test]
fn decode_nonempty_ack_is_malformed() {
    assert_eq!(decode(&vec![0x08, 1, 0x1a, 1, 0x00]), Err(CodecError::MalformedEnvelope));
}

#[test]
fn decode_trailing_bytes_are_malformed() {
    let mut bytes = encode(&Envelope { sync: 1, payload: Payload::Ack });
    bytes.push(0x00);
    assert_eq!(decode(&bytes), Err(CodecError::MalformedEnvelope));
}

#[test]
fn decode_oversized_varint_is_malformed() {
    // An eleven-byte varint holds more than 64 bits.
    let mut bytes = vec![0x08];
    for _ in 0..10 {
        bytes.push(0xff);
    }
    bytes.push(0x01);
    bytes.push(0x1a);
    bytes.push(0x00);
    assert_eq!(decode(&bytes), Err(CodecError::MalformedEnvelope));
}

#[test]
fn decode_random_noise_is_malformed() {
    assert_eq!(
        decode(&vec![0xde, 0xad, 0xbe, 0xef, 0x00, 0x01]),
        Err(CodecError::MalformedEnvelope)
    );
}
