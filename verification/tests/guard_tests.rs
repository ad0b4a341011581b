use omnichain_controller::errors::ErrorCode;
use omnichain_controller::guard::Guard;
use omnichain_controller::message_types::{CrossChainMessage, MessageCommand};

const NOW: i64 = 1_700_000_000;

#[test]
fn stale_nonce_rejected_whatever_the_timing() {
    assert_eq!(Guard::accept(5, 5, NOW, NOW).unwrap_err(), ErrorCode::InvalidNonce);
    assert_eq!(Guard::accept(5, 4, NOW, NOW).unwrap_err(), ErrorCode::InvalidNonce);
    assert_eq!(Guard::accept(5, 0, NOW, NOW).unwrap_err(), ErrorCode::InvalidNonce);
    // the nonce check comes first, even when the timestamp is also bad
    assert_eq!(
        Guard::accept(5, 5, NOW - 100_000, NOW).unwrap_err(),
        ErrorCode::InvalidNonce
    );
}

#[test]
fn fresh_nonce_within_tolerance_accepted() {
    assert_eq!(Guard::accept(5, 6, NOW, NOW), Ok(()));
    assert_eq!(Guard::accept(5, 100, NOW - 3600, NOW), Ok(()));
    assert_eq!(Guard::accept(0, 1, NOW + 3600, NOW), Ok(()));
    // gaps are permitted: any strictly larger nonce passes
    assert_eq!(Guard::accept(5, u64::MAX, NOW, NOW), Ok(()));
}

#[test]
fn skewed_timestamps_rejected_by_sign() {
    assert_eq!(
        Guard::accept(5, 6, NOW - 3601, NOW).unwrap_err(),
        ErrorCode::MessageTooOld
    );
    assert_eq!(
        Guard::accept(5, 6, NOW + 3601, NOW).unwrap_err(),
        ErrorCode::MessageFromFuture
    );
    assert_eq!(Guard::accept(5, 6, i64::MIN, NOW).unwrap_err(), ErrorCode::MessageTooOld);
    assert_eq!(
        Guard::accept(5, 6, i64::MAX, NOW).unwrap_err(),
        ErrorCode::MessageFromFuture
    );
}

#[test]
fn typed_message_timing_bounds() {
    let msg = CrossChainMessage::new(
        1,
        [0u8; 20],
        MessageCommand::SetPaused { paused: true },
        NOW,
    );
    assert_eq!(msg.timestamp, NOW);
    assert!(msg.validate_timing(NOW).is_ok());
    // the single tolerance window applies on both sides
    assert!(msg.validate_timing(NOW + 3600).is_ok());
    assert_eq!(
        msg.validate_timing(NOW + 3601).unwrap_err(),
        ErrorCode::MessageTooOld
    );
    assert!(msg.validate_timing(NOW - 3600).is_ok());
    assert_eq!(
        msg.validate_timing(NOW - 3601).unwrap_err(),
        ErrorCode::MessageFromFuture
    );
}
