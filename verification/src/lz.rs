use vstd::prelude::*;
use vstd::bytes::{
    spec_u16_to_le_bytes, spec_u32_to_le_bytes, spec_u64_to_le_bytes, u16_to_le_bytes,
    u32_to_le_bytes, u64_to_le_bytes,
};
use vstd::utf8::{decode_utf8, encode_utf8, is_ascii_chars, is_ascii_chars_encode_utf8};
use crate::codec::{
    spec_command_supported, spec_decode_error, spec_decoded_message, spec_encode_message,
    spec_meta_payload_ok, spec_meta_segments, MessageCodec, COMMAND_UPDATE_COLLECTION_METADATA,
    MAX_MESSAGE_SIZE,
};
use crate::constants::MESSAGE_TIMEOUT_SECONDS;
use crate::errors::ErrorCode;
use crate::keys::keys_equal;
use crate::oapp_store::{CollectionMetadataV, OAppStore, OAppStoreV, PeerConfig};
use crate::strfmt::{bytes_range, str_to_bytes};

verus! {

/// Parameters of the transport-level clear operation, which marks a message
/// consumed at the transport layer before its payload is interpreted.
#[derive(Debug)]
pub struct ClearParams {
    pub receiver: [u8; 32],
    pub src_eid: u32,
    pub sender: [u8; 32],
    pub nonce: u64,
    pub guid: [u8; 32],
    pub message: Vec<u8>,
}

/// Append the bytes of a fixed 32-byte array.
fn extend_from_array32(v: &mut Vec<u8>, a: &[u8; 32])
    ensures
        final(v)@ == old(v)@ + a@,
{
    let mut i: usize = 0;
    while i < 32
        invariant
            i <= 32,
            v@ == old(v)@ + a@.take(i as int),
        decreases 32 - i,
    {
        v.push(a[i]);
        proof {
            assert(v@ =~= old(v)@ + a@.take(i as int + 1));
        }
        i = i + 1;
    }
    proof {
        assert(v@ =~= old(v)@ + a@);
    }
}

/// The instruction data of the endpoint's clear operation.
pub open spec fn spec_clear_data(
    receiver: Seq<u8>,
    src_eid: u32,
    sender: Seq<u8>,
    nonce: u64,
    guid: Seq<u8>,
    message: Seq<u8>,
) -> Seq<u8> {
    seq![0u8] + receiver + spec_u32_to_le_bytes(src_eid) + sender + spec_u64_to_le_bytes(nonce)
        + guid + spec_u32_to_le_bytes(message.len() as u32) + message
}

/// Build the instruction data of the endpoint's clear operation. The call
/// itself is the host's: it sends these bytes to the endpoint program
/// before any payload interpretation.
pub fn clear_instruction_data(params: &ClearParams) -> (r: Vec<u8>)
    requires
        params.message@.len() <= u32::MAX,
    ensures
        r@ == spec_clear_data(
            params.receiver@,
            params.src_eid,
            params.sender@,
            params.nonce,
            params.guid@,
            params.message@,
        ),
{
    let mut data: Vec<u8> = Vec::new();
    data.push(0u8);
    extend_from_array32(&mut data, &params.receiver);
    let mut eid_bytes = u32_to_le_bytes(params.src_eid);
    data.append(&mut eid_bytes);
    extend_from_array32(&mut data, &params.sender);
    let mut nonce_bytes = u64_to_le_bytes(params.nonce);
    data.append(&mut nonce_bytes);
    extend_from_array32(&mut data, &params.guid);
    let mut len_bytes = u32_to_le_bytes(params.message.len() as u32);
    data.append(&mut len_bytes);
    let mut message_copy = bytes_range(params.message.as_slice(), 0, params.message.len());
    data.append(&mut message_copy);
    proof {
        assert(params.message@.subrange(0, params.message@.len() as int) =~= params.message@);
        assert(data@ =~= spec_clear_data(
            params.receiver@,
            params.src_eid,
            params.sender@,
            params.nonce,
            params.guid@,
            params.message@,
        ));
    }
    data
}

/// The instruction data of the endpoint's registration operation.
pub open spec fn spec_register_oapp_data(oapp: Seq<u8>, delegate: Seq<u8>) -> Seq<u8> {
    seq![3u8] + oapp + delegate
}

/// Build the instruction data that registers this program with the
/// endpoint, as required once during initialization.
pub fn register_oapp_instruction_data(oapp_address: &[u8; 32], delegate: &[u8; 32]) -> (r: Vec<
    u8,
>)
    ensures
        r@ == spec_register_oapp_data(oapp_address@, delegate@),
{
    let mut data: Vec<u8> = Vec::new();
    data.push(3u8);
    extend_from_array32(&mut data, oapp_address);
    extend_from_array32(&mut data, delegate);
    proof {
        assert(data@ =~= spec_register_oapp_data(oapp_address@, delegate@));
    }
    data
}

/// The instruction data of the endpoint's compose-send operation.
pub open spec fn spec_send_compose_data(
    to: Seq<u8>,
    guid: Seq<u8>,
    index: u16,
    message: Seq<u8>,
) -> Seq<u8> {
    seq![1u8] + to + guid + spec_u16_to_le_bytes(index) + spec_u32_to_le_bytes(
        message.len() as u32,
    ) + message
}

/// Build the instruction data that sends a composed message through the
/// endpoint.
pub fn send_compose_instruction_data(
    to: &[u8; 32],
    guid: &[u8; 32],
    index: u16,
    message: &[u8],
) -> (r: Vec<u8>)
    requires
        message@.len() <= u32::MAX,
    ensures
        r@ == spec_send_compose_data(to@, guid@, index, message@),
{
    let mut data: Vec<u8> = Vec::new();
    data.push(1u8);
    extend_from_array32(&mut data, to);
    extend_from_array32(&mut data, guid);
    let mut index_bytes = u16_to_le_bytes(index);
    data.append(&mut index_bytes);
    let mut len_bytes = u32_to_le_bytes(message.len() as u32);
    data.append(&mut len_bytes);
    let mut message_copy = bytes_range(message, 0, message.len());
    data.append(&mut message_copy);
    proof {
        assert(message@.subrange(0, message@.len() as int) =~= message@);
        assert(data@ =~= spec_send_compose_data(to@, guid@, index, message@));
    }
    data
}

/// The instruction data of the endpoint's fee-quoting operation.
pub open spec fn spec_quote_send_data(dst_eid: u32, message: Seq<u8>, options: Seq<u8>) -> Seq<
    u8,
> {
    seq![2u8] + spec_u32_to_le_bytes(dst_eid) + spec_u32_to_le_bytes(message.len() as u32)
        + message + spec_u32_to_le_bytes(options.len() as u32) + options
}

/// Build the instruction data that asks the endpoint for a message fee
/// quote.
pub fn quote_send_instruction_data(dst_eid: u32, message: &[u8], options: &[u8]) -> (r: Vec<u8>)
    requires
        message@.len() <= u32::MAX,
        options@.len() <= u32::MAX,
    ensures
        r@ == spec_quote_send_data(dst_eid, message@, options@),
{
    let mut data: Vec<u8> = Vec::new();
    data.push(2u8);
    let mut eid_bytes = u32_to_le_bytes(dst_eid);
    data.append(&mut eid_bytes);
    let mut len_bytes = u32_to_le_bytes(message.len() as u32);
    data.append(&mut len_bytes);
    let mut message_copy = bytes_range(message, 0, message.len());
    data.append(&mut message_copy);
    let mut opt_len_bytes = u32_to_le_bytes(options.len() as u32);
    data.append(&mut opt_len_bytes);
    let mut options_copy = bytes_range(options, 0, options.len());
    data.append(&mut options_copy);
    proof {
        assert(message@.subrange(0, message@.len() as int) =~= message@);
        assert(options@.subrange(0, options@.len() as int) =~= options@);
        assert(data@ =~= spec_quote_send_data(dst_eid, message@, options@));
    }
    data
}

/// The first guard that fails on an inbound message, if any: an untrusted
/// peer, an oversized message, a malformed envelope, an unknown command, a
/// replayed nonce, clock skew beyond tolerance, a sender other than the
/// peer's address, and for a metadata update a malformed payload.
pub open spec fn spec_lz_guard_error(
    store: OAppStoreV,
    trusted: bool,
    peer_address: Seq<u8>,
    sender: Seq<u8>,
    data: Seq<u8>,
    now: i64,
) -> Option<ErrorCode> {
    if !trusted {
        Some(ErrorCode::UntrustedPeer)
    } else if data.len() > MAX_MESSAGE_SIZE {
        Some(ErrorCode::MessageTooLarge)
    } else if spec_decode_error(data) is Some {
        spec_decode_error(data)
    } else {
        let m = spec_decoded_message(data);
        if !spec_command_supported(m.command) {
            Some(ErrorCode::InvalidCommand)
        } else if m.nonce <= store.nonce {
            Some(ErrorCode::InvalidNonce)
        } else if !(-(MESSAGE_TIMEOUT_SECONDS as int) <= now - m.timestamp <= (
        MESSAGE_TIMEOUT_SECONDS as int)) {
            Some(ErrorCode::InvalidTimestamp)
        } else if sender != peer_address {
            Some(ErrorCode::UnauthorizedSender)
        } else if m.command == COMMAND_UPDATE_COLLECTION_METADATA && !spec_meta_payload_ok(
            m.payload,
        ) {
            Some(ErrorCode::InvalidLzMessage)
        } else {
            None
        }
    }
}

/// The store after an inbound message commits: the replay cursor advanced
/// to the message nonce, the processed count up by one, and for a metadata
/// update the stored collection name, symbol and URI replaced from the
/// payload. The emergency pause, authority transfer and batched-update
/// commands act on external state only.
pub open spec fn spec_lz_ok_state(store: OAppStoreV, data: Seq<u8>, now: i64) -> OAppStoreV {
    let m = spec_decoded_message(data);
    let advanced = OAppStoreV {
        nonce: m.nonce,
        processed_messages: (store.processed_messages + 1) as u64,
        ..store
    };
    if m.command == COMMAND_UPDATE_COLLECTION_METADATA {
        let (u, n, s) = spec_meta_segments(m.payload).unwrap();
        OAppStoreV {
            collection_metadata: CollectionMetadataV {
                uri: decode_utf8(u),
                name: decode_utf8(n),
                symbol: decode_utf8(s),
                ..store.collection_metadata
            },
            ..advanced
        }
    } else {
        advanced
    }
}

/// Receive one inbound message against the store.
///
/// The host performs the transport-level clear before calling this, and the
/// trust constraint on the peer record is re-checked here. The guard order
/// is fixed; a rejected message leaves the store untouched, and a committed
/// one advances the replay cursor to the message nonce, so redelivery of
/// the same message is rejected with `InvalidNonce`.
pub fn lz_receive_handler(
    store: &mut OAppStore,
    peer_config: &PeerConfig,
    src_eid: u32,
    sender: [u8; 32],
    nonce: u64,
    guid: [u8; 32],
    message: &[u8],
    now: i64,
) -> (r: Result<(), ErrorCode>)
    requires
        old(store)@.processed_messages < u64::MAX,
    ensures
        match r {
            Ok(()) => spec_lz_guard_error(
                old(store)@,
                peer_config@.trusted,
                peer_config@.peer_address,
                sender@,
                message@,
                now,
            ) is None && final(store)@ == spec_lz_ok_state(old(store)@, message@, now),
            Err(e) => spec_lz_guard_error(
                old(store)@,
                peer_config@.trusted,
                peer_config@.peer_address,
                sender@,
                message@,
                now,
            ) == Some(e) && final(store)@ == old(store)@,
        },
{
    broadcast use vstd::utf8::encode_utf8_decode_utf8;

    if !peer_config.trusted {
        return Err(ErrorCode::UntrustedPeer);
    }
    if message.len() > MAX_MESSAGE_SIZE {
        return Err(ErrorCode::MessageTooLarge);
    }
    let decoded = match MessageCodec::decode_message(message) {
        Ok(m) => m,
        Err(e) => {
            return Err(e);
        },
    };
    if !MessageCodec::validate_command(decoded.command) {
        return Err(ErrorCode::InvalidCommand);
    }
    if decoded.nonce <= store.nonce {
        return Err(ErrorCode::InvalidNonce);
    }
    let diff: i128 = (now as i128) - (decoded.timestamp as i128);
    if diff < -(MESSAGE_TIMEOUT_SECONDS as i128) || diff > (MESSAGE_TIMEOUT_SECONDS as i128) {
        return Err(ErrorCode::InvalidTimestamp);
    }
    if !keys_equal(&peer_config.peer_address, &sender) {
        return Err(ErrorCode::UnauthorizedSender);
    }

    if decoded.command == COMMAND_UPDATE_COLLECTION_METADATA {
        let metadata_payload = match MessageCodec::decode_update_metadata_payload(
            decoded.payload.as_slice(),
        ) {
            Ok(p) => p,
            Err(e) => {
                return Err(e);
            },
        };
        store.collection_metadata.uri = metadata_payload.uri;
        store.collection_metadata.name = metadata_payload.name;
        store.collection_metadata.symbol = metadata_payload.symbol;
    }
    // the emergency pause, unpause, authority transfer and batched-update
    // commands act on external state only; the store itself is unchanged
    // beyond the cursor

    store.nonce = decoded.nonce;
    store.processed_messages = store.processed_messages + 1;
    Ok(())
}

/// The first guard that fails on a compose message, if any: an oversized
/// message, a malformed envelope, or a sender other than the peer's
/// address.
pub open spec fn spec_lz_compose_error(
    peer_address: Seq<u8>,
    sender: Seq<u8>,
    data: Seq<u8>,
) -> Option<ErrorCode> {
    if data.len() > MAX_MESSAGE_SIZE {
        Some(ErrorCode::MessageTooLarge)
    } else if spec_decode_error(data) is Some {
        spec_decode_error(data)
    } else if sender != peer_address {
        Some(ErrorCode::UnauthorizedSender)
    } else {
        None
    }
}

/// Process one compose message: validate it, advance the cursor by one, and
/// return the response envelope for the host to send back through the
/// endpoint (echoing the command, under the advanced cursor, stamped with
/// `now`, with a fixed acknowledgment payload).
pub fn lz_compose_handler(
    store: &mut OAppStore,
    peer_config: &PeerConfig,
    src_eid: u32,
    sender: [u8; 32],
    guid: [u8; 32],
    message: &[u8],
    now: i64,
) -> (r: Result<Vec<u8>, ErrorCode>)
    requires
        old(store)@.nonce < u64::MAX,
    ensures
        match r {
            Ok(response) => {
                &&& spec_lz_compose_error(peer_config@.peer_address, sender@, message@) is None
                &&& response@ == spec_encode_message(
                    spec_decoded_message(message@).command,
                    (old(store)@.nonce + 1) as u64,
                    now,
                    encode_utf8("compose_response"@),
                )
                &&& final(store)@ == (OAppStoreV {
                    nonce: (old(store)@.nonce + 1) as u64,
                    ..old(store)@
                })
            },
            Err(e) => spec_lz_compose_error(peer_config@.peer_address, sender@, message@) == Some(
                e,
            ) && final(store)@ == old(store)@,
        },
{
    if message.len() > MAX_MESSAGE_SIZE {
        return Err(ErrorCode::MessageTooLarge);
    }
    let decoded = match MessageCodec::decode_message(message) {
        Ok(m) => m,
        Err(e) => {
            return Err(e);
        },
    };
    if !keys_equal(&peer_config.peer_address, &sender) {
        return Err(ErrorCode::UnauthorizedSender);
    }

    proof {
        reveal_strlit("compose_response");
        assert(is_ascii_chars("compose_response"@));
        is_ascii_chars_encode_utf8("compose_response"@);
    }
    let payload = str_to_bytes("compose_response");
    let response = match MessageCodec::encode_message(
        decoded.command,
        store.nonce + 1,
        now,
        payload.as_slice(),
    ) {
        Ok(bytes) => bytes,
        Err(e) => {
            return Err(e);
        },
    };
    store.nonce = store.nonce + 1;
    Ok(response)
}

} // verus!
