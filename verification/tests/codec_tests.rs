use omnichain_controller::codec::{
    MessageCodec, MessageValidator, COMMAND_EMERGENCY_PAUSE, COMMAND_EMERGENCY_UNPAUSE,
    COMMAND_TRANSFER_AUTHORITY, COMMAND_UPDATE_COLLECTION_METADATA, MSG_TYPE_COMPOSE,
    MSG_TYPE_REGULAR,
};
use omnichain_controller::errors::ErrorCode;

#[test]
fn encode_message_layout() {
    let payload = vec![0xaa, 0xbb, 0xcc];
    let encoded = MessageCodec::encode_message(2, 7, 1_700_000_000, &payload).unwrap();
    assert_eq!(encoded.len(), 22 + 3);
    assert_eq!(encoded[0], 1); // version
    assert_eq!(encoded[1], 2); // command
    assert_eq!(&encoded[2..10], &7u64.to_le_bytes());
    assert_eq!(&encoded[10..18], &1_700_000_000i64.to_le_bytes());
    assert_eq!(&encoded[18..22], &3u32.to_le_bytes());
    assert_eq!(&encoded[22..], &payload[..]);
}

#[test]
fn decode_encode_roundtrip() {
    let payload = vec![1, 2, 3, 4, 5];
    let encoded = MessageCodec::encode_message(3, 42, -12345, &payload).unwrap();
    let decoded = MessageCodec::decode_message(&encoded).unwrap();
    assert_eq!(decoded.version, 1);
    assert_eq!(decoded.command, 3);
    assert_eq!(decoded.nonce, 42);
    assert_eq!(decoded.timestamp, -12345);
    assert_eq!(decoded.payload, payload);
}

#[test]
fn decode_empty_payload_roundtrip() {
    let encoded = MessageCodec::encode_message(0, 1, 0, &[]).unwrap();
    let decoded = MessageCodec::decode_message(&encoded).unwrap();
    assert_eq!(decoded.command, 0);
    assert_eq!(decoded.nonce, 1);
    assert_eq!(decoded.timestamp, 0);
    assert!(decoded.payload.is_empty());
}

#[test]
fn decode_short_header_rejected() {
    let data = vec![1u8; 21];
    assert_eq!(
        MessageCodec::decode_message(&data).unwrap_err(),
        ErrorCode::InvalidLzMessage
    );
}

#[test]
fn decode_unsupported_version_rejected() {
    let mut encoded = MessageCodec::encode_message(0, 1, 0, &[]).unwrap();
    encoded[0] = 2;
    assert_eq!(
        MessageCodec::decode_message(&encoded).unwrap_err(),
        ErrorCode::UnsupportedVersion
    );
}

#[test]
fn decode_truncated_payload_rejected() {
    let mut encoded = MessageCodec::encode_message(0, 1, 0, &[9, 9, 9]).unwrap();
    encoded.truncate(23); // header says 3 payload bytes, only 1 present
    assert_eq!(
        MessageCodec::decode_message(&encoded).unwrap_err(),
        ErrorCode::InvalidLzMessage
    );
}

#[test]
fn metadata_payload_roundtrip() {
    let payload =
        MessageCodec::encode_update_metadata_payload("https://x/1.json", "My Name", "SYM")
            .unwrap();
    let decoded = MessageCodec::decode_update_metadata_payload(&payload).unwrap();
    assert_eq!(decoded.uri, "https://x/1.json");
    assert_eq!(decoded.name, "My Name");
    assert_eq!(decoded.symbol, "SYM");
}

#[test]
fn metadata_payload_invalid_utf8_rejected() {
    // a single 3-byte string segment holding an invalid UTF-8 byte, then two
    // empty segments
    let mut payload = Vec::new();
    payload.extend_from_slice(&3u32.to_le_bytes());
    payload.extend_from_slice(&[0xff, 0xfe, 0xfd]);
    payload.extend_from_slice(&0u32.to_le_bytes());
    payload.extend_from_slice(&0u32.to_le_bytes());
    assert_eq!(
        MessageCodec::decode_update_metadata_payload(&payload).unwrap_err(),
        ErrorCode::InvalidLzMessage
    );
}

#[test]
fn metadata_payload_truncation_rejected() {
    let payload = MessageCodec::encode_update_metadata_payload("uri", "name", "sym").unwrap();
    for cut in [0, 3, 6, 10, payload.len() - 1] {
        assert_eq!(
            MessageCodec::decode_update_metadata_payload(&payload[..cut]).unwrap_err(),
            ErrorCode::InvalidLzMessage
        );
    }
}

#[test]
fn message_type_detection() {
    assert_eq!(
        MessageCodec::get_message_type(&[]).unwrap_err(),
        ErrorCode::InvalidLzMessage
    );
    assert_eq!(MessageCodec::get_message_type(&[0xff]).unwrap(), MSG_TYPE_REGULAR);
    assert_eq!(MessageCodec::get_message_type(&[0xff, 0]).unwrap(), MSG_TYPE_COMPOSE);
    assert_eq!(MessageCodec::get_message_type(&[1, 2, 3]).unwrap(), MSG_TYPE_REGULAR);
}

#[test]
fn command_validation() {
    assert!(MessageCodec::validate_command(COMMAND_UPDATE_COLLECTION_METADATA));
    assert!(MessageCodec::validate_command(COMMAND_TRANSFER_AUTHORITY));
    assert!(MessageCodec::validate_command(COMMAND_EMERGENCY_PAUSE));
    assert!(MessageCodec::validate_command(COMMAND_EMERGENCY_UNPAUSE));
    assert!(!MessageCodec::validate_command(5));
    assert!(!MessageCodec::validate_command(255));
}

#[test]
fn message_size_bound() {
    assert!(MessageValidator::validate_message_size(&vec![0u8; 65536]));
    assert!(!MessageValidator::validate_message_size(&vec![0u8; 65537]));
}

#[test]
fn nonce_and_timestamp_validation() {
    assert!(MessageValidator::validate_nonce(4, 5));
    assert!(!MessageValidator::validate_nonce(5, 5));
    assert!(!MessageValidator::validate_nonce(6, 5));
    let now = 1_700_000_000;
    assert!(MessageValidator::validate_timestamp(now - 3600, now));
    assert!(!MessageValidator::validate_timestamp(now - 3601, now));
    assert!(MessageValidator::validate_timestamp(now + 3600, now));
    assert!(!MessageValidator::validate_timestamp(now + 3601, now));
}
