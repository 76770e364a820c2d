use vtuber_core::protocol::{decode_motion, encode_motion, MotionData, PAYLOAD_LEN};

#[test]
fn round_trip_is_bit_exact() {
    let rec = MotionData {
        pitch_bits: 0.5f32.to_bits(),
        yaw_bits: (-1.25f32).to_bits(),
        roll_bits: 3.14159f32.to_bits(),
    };
    let payload = encode_motion(&rec);
    assert_eq!(payload.len(), PAYLOAD_LEN);
    let back = decode_motion(&payload).expect("a 12-byte payload must decode");
    assert_eq!(back, rec);
    assert_eq!(f32::from_bits(back.pitch_bits), 0.5f32);
    assert_eq!(f32::from_bits(back.yaw_bits), -1.25f32);
    assert_eq!(f32::from_bits(back.roll_bits), 3.14159f32);
}

#[test]
fn payload_is_little_endian_field_order() {
    let rec = MotionData {
        pitch_bits: 0x3f00_0000,
        yaw_bits: 0x0102_0304,
        roll_bits: 0xdead_beef,
    };
    let payload = encode_motion(&rec);
    assert_eq!(
        payload,
        vec![
            0x00, 0x00, 0x00, 0x3f, 0x04, 0x03, 0x02, 0x01, 0xef, 0xbe, 0xad, 0xde,
        ]
    );
}

#[test]
fn wrong_length_is_rejected() {
    assert!(decode_motion(&[]).is_none());
    assert!(decode_motion(&[0u8; 11]).is_none());
    assert!(decode_motion(&[0u8; 13]).is_none());
    assert!(decode_motion(&[0u8; 12]).is_some());
}

#[test]
fn zero_record_decodes_to_zero() {
    let rec = decode_motion(&[0u8; 12]).unwrap();
    assert_eq!(rec.pitch_bits, 0);
    assert_eq!(rec.yaw_bits, 0);
    assert_eq!(rec.roll_bits, 0);
    assert_eq!(f32::from_bits(rec.pitch_bits), 0.0f32);
}
