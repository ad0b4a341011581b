use vstd::prelude::*;
use crate::constants::MESSAGE_TIMEOUT_SECONDS;
use crate::errors::ErrorCode;

verus! {

/// Replay and timing guard for inbound messages.
///
/// Replay protection is a single cursor, the last accepted nonce: a nonce is
/// accepted only when strictly greater, so nonces must arrive in increasing
/// order and out-of-order delivery is rejected, not queued. Gaps are
/// permitted on purpose: any strictly larger nonce passes.
pub struct Guard;

impl Guard {
    /// Accept a message exactly when its nonce is strictly beyond the cursor
    /// and its timestamp lies within the drift tolerance of `now`. The nonce
    /// is checked first; a stale nonce is `InvalidNonce` whatever the
    /// timestamps say. A timestamp more than the tolerance behind `now` is
    /// `MessageTooOld`, more than the tolerance ahead `MessageFromFuture`.
    pub fn accept(current_cursor: u64, nonce: u64, timestamp: i64, now: i64) -> (r: Result<
        (),
        ErrorCode,
    >)
        ensures
            nonce <= current_cursor ==> r == Err::<(), ErrorCode>(ErrorCode::InvalidNonce),
            nonce > current_cursor && timestamp < now - (MESSAGE_TIMEOUT_SECONDS as int) ==> r
                == Err::<(), ErrorCode>(ErrorCode::MessageTooOld),
            nonce > current_cursor && timestamp > now + (MESSAGE_TIMEOUT_SECONDS as int) ==> r
                == Err::<(), ErrorCode>(ErrorCode::MessageFromFuture),
            nonce > current_cursor && now - (MESSAGE_TIMEOUT_SECONDS as int) <= timestamp <= now
                + (MESSAGE_TIMEOUT_SECONDS as int) ==> r == Ok::<(), ErrorCode>(()),
            r is Ok <==> nonce > current_cursor && now - (MESSAGE_TIMEOUT_SECONDS as int)
                <= timestamp <= now + (MESSAGE_TIMEOUT_SECONDS as int),
    {
        if nonce <= current_cursor {
            return Err(ErrorCode::InvalidNonce);
        }
        let diff: i128 = (now as i128) - (timestamp as i128);
        if diff > (MESSAGE_TIMEOUT_SECONDS as i128) {
            return Err(ErrorCode::MessageTooOld);
        }
        if diff < -(MESSAGE_TIMEOUT_SECONDS as i128) {
            return Err(ErrorCode::MessageFromFuture);
        }
        Ok(())
    }
}

} // verus!
