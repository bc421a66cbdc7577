use mavlink_signing::clock::ticks_from_unix_micros;
use mavlink_signing::clock::SIGNING_EPOCH_UNIX_MICROS;
use mavlink_signing::message::TIMESTAMP_MODULUS;
use mavlink_signing::MAVLinkV2MessageRaw;
use mavlink_signing::MAVLINK_IFLAG_SIGNED;
use mavlink_signing::SigningConfig;
use mavlink_signing::SigningData;

fn frame_bytes(payload_len: u8, incompat_flags: u8, system_id: u8, component_id: u8) -> Vec<u8> {
    let mut v = vec![0u8; 25 + payload_len as usize];
    v[0] = 0xFD;
    v[1] = payload_len;
    v[2] = incompat_flags;
    v[5] = system_id;
    v[6] = component_id;
    v
}

#[test]
fn test_from_bytes_checks_length() {
    assert!(MAVLinkV2MessageRaw::from_bytes(vec![]).is_none());
    assert!(MAVLinkV2MessageRaw::from_bytes(vec![0u8; 24]).is_none());
    // 25 bytes but a recorded payload length of 3: inconsistent.
    let mut short = vec![0u8; 25];
    short[1] = 3;
    assert!(MAVLinkV2MessageRaw::from_bytes(short).is_none());
    // Consistent empty payload.
    assert!(MAVLinkV2MessageRaw::from_bytes(vec![0u8; 25]).is_some());
    // Consistent 255-byte payload.
    let mut large = vec![0u8; 280];
    large[1] = 255;
    assert!(MAVLinkV2MessageRaw::from_bytes(large).is_some());
}

#[test]
fn test_header_accessors() {
    let msg =
        MAVLinkV2MessageRaw::from_bytes(frame_bytes(3, MAVLINK_IFLAG_SIGNED, 42, 200)).unwrap();
    assert_eq!(msg.incompatibility_flags(), MAVLINK_IFLAG_SIGNED);
    assert!(msg.is_signed());
    assert_eq!(msg.system_id(), 42);
    assert_eq!(msg.component_id(), 200);
    let unsigned = MAVLinkV2MessageRaw::from_bytes(frame_bytes(3, 0xFE, 1, 1)).unwrap();
    assert!(!unsigned.is_signed());
}

#[test]
fn test_signature_field_round_trip() {
    let mut msg = MAVLinkV2MessageRaw::from_bytes(frame_bytes(0, MAVLINK_IFLAG_SIGNED, 1, 1))
        .unwrap();
    msg.set_signature_link_id(99);
    assert_eq!(msg.signature_link_id(), 99);
    msg.set_signature_timestamp(0x0102_0304_0506);
    assert_eq!(msg.signature_timestamp(), 0x0102_0304_0506);
    let bytes = msg.as_bytes();
    let so = bytes.len() - 13;
    assert_eq!(bytes[so + 1], 0x06);
    assert_eq!(bytes[so + 6], 0x01);
}

#[test]
fn test_signature_timestamp_keeps_low_48_bits() {
    let mut msg = MAVLinkV2MessageRaw::from_bytes(frame_bytes(0, MAVLINK_IFLAG_SIGNED, 1, 1))
        .unwrap();
    // Only the low 48 bits of the timestamp fit the wire field.
    msg.set_signature_timestamp(0xABCD_0102_0304_0506);
    assert_eq!(msg.signature_timestamp(), 0x0102_0304_0506);
}

#[test]
fn test_signature_value_matches_written_mac() {
    let mut msg = MAVLinkV2MessageRaw::from_bytes(frame_bytes(0, MAVLINK_IFLAG_SIGNED, 1, 1))
        .unwrap();
    msg.set_signature_value(&[1, 2, 3, 4, 5, 6]);
    assert_eq!(msg.signature_value(), vec![1, 2, 3, 4, 5, 6]);
    assert!(msg.signature_matches(&[1, 2, 3, 4, 5, 6]));
    assert!(!msg.signature_matches(&[1, 2, 3, 4, 5, 7]));
}

#[test]
fn test_calculate_signature_depends_on_key_and_bytes() {
    let msg = MAVLinkV2MessageRaw::from_bytes(frame_bytes(2, MAVLINK_IFLAG_SIGNED, 1, 1)).unwrap();
    let mac_a = msg.calculate_signature(&[7u8; 32]);
    let mac_b = msg.calculate_signature(&[8u8; 32]);
    assert_ne!(mac_a, mac_b);
    // Deterministic for equal inputs.
    assert_eq!(mac_a, msg.calculate_signature(&[7u8; 32]));
    // And sensitive to the message bytes.
    let other = MAVLinkV2MessageRaw::from_bytes(frame_bytes(2, MAVLINK_IFLAG_SIGNED, 1, 2))
        .unwrap();
    assert_ne!(mac_a, other.calculate_signature(&[7u8; 32]));
}

#[test]
fn test_ticks_from_unix_micros() {
    // Before the 2015 reference epoch the derivation degrades to zero.
    assert_eq!(ticks_from_unix_micros(0), 0);
    assert_eq!(ticks_from_unix_micros(SIGNING_EPOCH_UNIX_MICROS - 1), 0);
    // At the epoch the count starts, one tick per ten microseconds.
    assert_eq!(ticks_from_unix_micros(SIGNING_EPOCH_UNIX_MICROS), 0);
    assert_eq!(ticks_from_unix_micros(SIGNING_EPOCH_UNIX_MICROS + 9), 0);
    assert_eq!(ticks_from_unix_micros(SIGNING_EPOCH_UNIX_MICROS + 10), 1);
    assert_eq!(ticks_from_unix_micros(SIGNING_EPOCH_UNIX_MICROS + 25), 2);
    // 2017-01-01T00:00:00Z lies 63_158_400 seconds past the epoch.
    assert_eq!(
        ticks_from_unix_micros(SIGNING_EPOCH_UNIX_MICROS + 63_158_400_000_000),
        6_315_840_000_000
    );
    // The counter wraps at the 48-bit range.
    let modulus = TIMESTAMP_MODULUS as u128;
    assert_eq!(ticks_from_unix_micros(SIGNING_EPOCH_UNIX_MICROS + 10 * modulus), 0);
    assert_eq!(ticks_from_unix_micros(SIGNING_EPOCH_UNIX_MICROS + 10 * modulus + 10), 1);
}

#[test]
fn test_get_current_timestamp_in_range() {
    let now = SigningData::get_current_timestamp();
    // The wall clock reads later than the 2015 reference epoch.
    assert!(now > 0);
    assert!(now < TIMESTAMP_MODULUS);
    let _ = SigningData::from_config(SigningConfig::new([0u8; 32], 0, true, false));
}
