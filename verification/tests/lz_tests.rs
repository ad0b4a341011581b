use omnichain_controller::codec::MessageCodec;
use omnichain_controller::errors::ErrorCode;
use omnichain_controller::lz::{
    clear_instruction_data, lz_compose_handler, lz_receive_handler, quote_send_instruction_data,
    register_oapp_instruction_data, send_compose_instruction_data, ClearParams,
};
use omnichain_controller::lz_receive_types::{
    get_accounts_for_clear, get_accounts_for_send_compose, is_compose_message,
    lz_receive_types_handler, LzReceiveParams,
};
use omnichain_controller::oapp_store::{
    init_lz_compose_types_handler, init_lz_receive_types_handler, init_oapp_store_handler,
    set_peer_handler, CollectionMetadata, DaoConfig, LzComposeTypes, LzReceiveTypes, OAppStore,
    PeerConfig, TreeConfig,
};

const NOW: i64 = 1_700_000_000;
const EID: u32 = 101;
const SENDER: [u8; 32] = [7u8; 32];

fn test_store() -> OAppStore {
    init_oapp_store_handler(
        [1u8; 32],
        [2u8; 32],
        [3u8; 32],
        CollectionMetadata {
            name: "Coll".to_string(),
            symbol: "C".to_string(),
            uri: "https://initial".to_string(),
            mint_authority: [4u8; 32],
            update_authority: [5u8; 32],
            tree_config: TreeConfig {
                max_depth: 20,
                max_buffer_size: 256,
                tree_creator: [6u8; 32],
                tree_delegate: [6u8; 32],
                merkle_tree: [6u8; 32],
            },
        },
        DaoConfig {
            authorized_dao: [8u8; 20],
            ethereum_eid: EID,
            voting_period: 86400,
            quorum: 10,
        },
        255,
    )
}

fn trusted_peer() -> PeerConfig {
    set_peer_handler(EID, SENDER, true, 250)
}

fn metadata_update_message(nonce: u64, uri: &str) -> Vec<u8> {
    let payload = MessageCodec::encode_update_metadata_payload(uri, "New Name", "NN").unwrap();
    MessageCodec::encode_message(0, nonce, NOW, &payload).unwrap()
}

#[test]
fn store_starts_at_cursor_zero() {
    let store = test_store();
    assert_eq!(store.nonce, 0);
    assert_eq!(store.processed_messages, 0);
}

#[test]
fn commit_then_redelivery_is_rejected_without_mutation() {
    let mut store = test_store();
    store.nonce = 4;
    let peer = trusted_peer();
    let message = metadata_update_message(5, "https://x/1.json");

    // first delivery commits: the cursor advances and the URI is stored
    lz_receive_handler(&mut store, &peer, EID, SENDER, 5, [0u8; 32], &message, NOW).unwrap();
    assert_eq!(store.nonce, 5);
    assert_eq!(store.processed_messages, 1);
    assert_eq!(store.collection_metadata.uri, "https://x/1.json");
    assert_eq!(store.collection_metadata.name, "New Name");
    assert_eq!(store.collection_metadata.symbol, "NN");

    // the same message redelivered is a replay: rejected, nothing changes
    let r = lz_receive_handler(&mut store, &peer, EID, SENDER, 5, [0u8; 32], &message, NOW);
    assert_eq!(r.unwrap_err(), ErrorCode::InvalidNonce);
    assert_eq!(store.nonce, 5);
    assert_eq!(store.processed_messages, 1);
    assert_eq!(store.collection_metadata.uri, "https://x/1.json");
}

#[test]
fn guard_cascade() {
    let mut store = test_store();
    let peer = trusted_peer();
    let message = metadata_update_message(1, "https://x");

    // untrusted peer
    let untrusted = set_peer_handler(EID, SENDER, false, 250);
    let r = lz_receive_handler(&mut store, &untrusted, EID, SENDER, 1, [0u8; 32], &message, NOW);
    assert_eq!(r.unwrap_err(), ErrorCode::UntrustedPeer);

    // oversized message
    let big = vec![0u8; 65537];
    let r = lz_receive_handler(&mut store, &peer, EID, SENDER, 1, [0u8; 32], &big, NOW);
    assert_eq!(r.unwrap_err(), ErrorCode::MessageTooLarge);

    // malformed envelope
    let r = lz_receive_handler(&mut store, &peer, EID, SENDER, 1, [0u8; 32], &[1, 2, 3], NOW);
    assert_eq!(r.unwrap_err(), ErrorCode::InvalidLzMessage);

    // unknown command tag
    let unknown = MessageCodec::encode_message(5, 1, NOW, &[]).unwrap();
    let r = lz_receive_handler(&mut store, &peer, EID, SENDER, 1, [0u8; 32], &unknown, NOW);
    assert_eq!(r.unwrap_err(), ErrorCode::InvalidCommand);

    // stale timestamp
    let stale = MessageCodec::encode_message(3, 1, NOW - 3601, &[]).unwrap();
    let r = lz_receive_handler(&mut store, &peer, EID, SENDER, 1, [0u8; 32], &stale, NOW);
    assert_eq!(r.unwrap_err(), ErrorCode::InvalidTimestamp);

    // sender not the peer's address
    let r = lz_receive_handler(&mut store, &peer, EID, [9u8; 32], 1, [0u8; 32], &message, NOW);
    assert_eq!(r.unwrap_err(), ErrorCode::UnauthorizedSender);

    // nothing committed along the way
    assert_eq!(store.nonce, 0);
    assert_eq!(store.processed_messages, 0);
    assert_eq!(store.collection_metadata.uri, "https://initial");
}

#[test]
fn boundary_sized_message_accepted() {
    // exactly the maximum size passes the size guard (and then fails on the
    // envelope, which only proves the size check let it through)
    let mut store = test_store();
    let peer = trusted_peer();
    let boundary = vec![0u8; 65536];
    let r = lz_receive_handler(&mut store, &peer, EID, SENDER, 1, [0u8; 32], &boundary, NOW);
    assert_eq!(r.unwrap_err(), ErrorCode::UnsupportedVersion);
}

#[test]
fn pause_commands_advance_only_the_cursor() {
    let mut store = test_store();
    let peer = trusted_peer();
    let pause = MessageCodec::encode_message(3, 1, NOW, &[]).unwrap();
    lz_receive_handler(&mut store, &peer, EID, SENDER, 1, [0u8; 32], &pause, NOW).unwrap();
    assert_eq!(store.nonce, 1);
    assert_eq!(store.processed_messages, 1);
    assert_eq!(store.collection_metadata.uri, "https://initial");
}

#[test]
fn compose_produces_a_response_envelope() {
    let mut store = test_store();
    store.nonce = 9;
    let peer = trusted_peer();
    let message = MessageCodec::encode_message(2, 50, NOW, &[1, 2]).unwrap();
    let response =
        lz_compose_handler(&mut store, &peer, EID, SENDER, [0u8; 32], &message, NOW).unwrap();
    assert_eq!(store.nonce, 10);
    let decoded = MessageCodec::decode_message(&response).unwrap();
    assert_eq!(decoded.command, 2);
    assert_eq!(decoded.nonce, 10);
    assert_eq!(decoded.timestamp, NOW);
    assert_eq!(decoded.payload, b"compose_response");
}

#[test]
fn compose_rejects_wrong_sender() {
    let mut store = test_store();
    let peer = trusted_peer();
    let message = MessageCodec::encode_message(2, 50, NOW, &[]).unwrap();
    let r = lz_compose_handler(&mut store, &peer, EID, [9u8; 32], [0u8; 32], &message, NOW);
    assert_eq!(r.unwrap_err(), ErrorCode::UnauthorizedSender);
    assert_eq!(store.nonce, 0);
}

#[test]
fn clear_instruction_layout() {
    let params = ClearParams {
        receiver: [1u8; 32],
        src_eid: EID,
        sender: SENDER,
        nonce: 5,
        guid: [2u8; 32],
        message: vec![0xaa, 0xbb],
    };
    let data = clear_instruction_data(&params);
    assert_eq!(data[0], 0);
    assert_eq!(&data[1..33], &[1u8; 32]);
    assert_eq!(&data[33..37], &EID.to_le_bytes());
    assert_eq!(&data[37..69], &SENDER);
    assert_eq!(&data[69..77], &5u64.to_le_bytes());
    assert_eq!(&data[77..109], &[2u8; 32]);
    assert_eq!(&data[109..113], &2u32.to_le_bytes());
    assert_eq!(&data[113..], &[0xaa, 0xbb]);
}

#[test]
fn other_instruction_layouts() {
    let reg = register_oapp_instruction_data(&[1u8; 32], &[2u8; 32]);
    assert_eq!(reg[0], 3);
    assert_eq!(reg.len(), 65);

    let send = send_compose_instruction_data(&[1u8; 32], &[2u8; 32], 7, &[9]);
    assert_eq!(send[0], 1);
    assert_eq!(&send[65..67], &7u16.to_le_bytes());
    assert_eq!(&send[67..71], &1u32.to_le_bytes());
    assert_eq!(send[71], 9);

    let quote = quote_send_instruction_data(EID, &[1, 2, 3], &[4]);
    assert_eq!(quote[0], 2);
    assert_eq!(&quote[1..5], &EID.to_le_bytes());
    assert_eq!(&quote[5..9], &3u32.to_le_bytes());
    assert_eq!(&quote[9..12], &[1, 2, 3]);
    assert_eq!(&quote[12..16], &1u32.to_le_bytes());
    assert_eq!(quote[16], 4);
}

#[test]
fn compose_marker_detection() {
    assert!(!is_compose_message(&[]));
    assert!(is_compose_message(&[0xff]));
    assert!(is_compose_message(&[0xff, 1, 2]));
    assert!(!is_compose_message(&[1, 2]));
}

#[test]
fn account_discovery_reports_underivable_endpoint_records() {
    // the per-message nonce seed (origin id, sender hex, nonce) is far
    // longer than the 32-byte seed bound, so the endpoint's nonce record
    // can never be derived: discovery surfaces that instead of panicking
    let store = test_store();
    let store_key = OAppStore::find_pda().unwrap().0;
    let types_key = LzReceiveTypes::find_pda(&store_key).unwrap().0;
    let params = LzReceiveParams {
        src_eid: EID,
        sender: SENDER,
        nonce: 5,
        guid: [2u8; 32],
        message: vec![1, 2, 3],
    };
    let r = lz_receive_types_handler(&store, &store_key, &types_key, &params);
    assert_eq!(r.unwrap_err(), ErrorCode::EndpointCpiFailed);

    let r = get_accounts_for_clear(&store.endpoint, &store_key, EID, &SENDER, 5, &[2u8; 32]);
    assert_eq!(r.unwrap_err(), ErrorCode::EndpointCpiFailed);
}

#[test]
fn compose_accounts_resolve() {
    let store = test_store();
    let store_key = OAppStore::find_pda().unwrap().0;
    let compose =
        get_accounts_for_send_compose(&store.endpoint, &store_key, &store_key, &[2u8; 32], &[])
            .unwrap();
    assert_eq!(compose.len(), 2);
    // the compose queue is writable; the system program (the all-zero
    // address) closes the list
    assert!(compose[0].is_writable);
    assert!(!compose[0].is_signer);
    assert_eq!(compose[1].pubkey, [0u8; 32]);
    assert!(!compose[1].is_writable);

    // resolution is deterministic, and distinct messages get distinct queues
    let again =
        get_accounts_for_send_compose(&store.endpoint, &store_key, &store_key, &[2u8; 32], &[])
            .unwrap();
    assert_eq!(compose[0].pubkey, again[0].pubkey);
    let other =
        get_accounts_for_send_compose(&store.endpoint, &store_key, &store_key, &[3u8; 32], &[])
            .unwrap();
    assert_ne!(compose[0].pubkey, other[0].pubkey);
}

#[test]
fn pda_derivations_are_distinct_and_stable() {
    let store_key = OAppStore::find_pda().unwrap().0;
    assert_eq!(OAppStore::find_pda().unwrap().0, store_key);
    let peer_a = PeerConfig::find_pda(&store_key, 101).unwrap().0;
    let peer_b = PeerConfig::find_pda(&store_key, 102).unwrap().0;
    assert_ne!(peer_a, peer_b);
    let recv = LzReceiveTypes::find_pda(&store_key).unwrap().0;
    let comp = LzComposeTypes::find_pda(&store_key).unwrap().0;
    assert_ne!(recv, comp);
    assert_ne!(recv, store_key);
}

#[test]
fn receive_and_compose_types_records() {
    let r = init_lz_receive_types_handler([1u8; 32], vec![1, 2, 3, 4, 5], 9);
    assert_eq!(r.store, [1u8; 32]);
    assert_eq!(r.message_types, vec![1, 2, 3, 4, 5]);
    assert_eq!(r.bump, 9);
    let c = init_lz_compose_types_handler([1u8; 32], vec![1], 8);
    assert_eq!(c.compose_types, vec![1]);
}
