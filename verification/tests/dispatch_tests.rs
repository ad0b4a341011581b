use omnichain_controller::constants::MAX_URI_LENGTH;
use omnichain_controller::controller_config::{update_metadata_handler, ControllerConfig};
use omnichain_controller::dispatch::{
    receive_message_handler, validate_cnft_metadata, validate_fee_config,
};
use omnichain_controller::errors::ErrorCode;
use omnichain_controller::message_types::{
    Attribute, BurnRequest, CnftMetadata, CrossChainMessage, FeeConfig, File, MessageCommand,
    MintRequest, Properties, TransferRequest, TreeConfig, TreeStateProof,
};

const NOW: i64 = 1_700_000_000;
const EID: u32 = 101;

fn test_config() -> ControllerConfig {
    omnichain_controller::controller_config::initialize_handler(
        [1u8; 32],
        [2u8; 32],
        [3u8; 32],
        EID,
        [4u8; 20],
        "https://initial/collection.json".to_string(),
        NOW - 100,
        254,
    )
    .unwrap()
}

fn message(command: MessageCommand, nonce: u64) -> CrossChainMessage {
    CrossChainMessage::new(nonce, [4u8; 20], command, NOW)
}

fn metadata() -> CnftMetadata {
    CnftMetadata {
        name: "Pass".to_string(),
        symbol: "P".to_string(),
        uri: "https://x/p.json".to_string(),
        description: None,
        seller_fee_basis_points: 100,
        image: None,
        animation_url: None,
        external_url: None,
        attributes: None,
        properties: None,
    }
}

fn config_fields_unchanged(a: &ControllerConfig, b: &ControllerConfig) -> bool {
    a.authority == b.authority
        && a.collection_uri == b.collection_uri
        && a.message_nonce == b.message_nonce
        && a.paused == b.paused
        && a.last_update == b.last_update
        && a.total_updates == b.total_updates
}

#[test]
fn initialize_rejects_long_uri() {
    let r = omnichain_controller::controller_config::initialize_handler(
        [1u8; 32],
        [2u8; 32],
        [3u8; 32],
        EID,
        [4u8; 20],
        "u".repeat(MAX_URI_LENGTH + 1),
        NOW,
        0,
    );
    assert_eq!(r.unwrap_err(), ErrorCode::UriTooLong);
}

#[test]
fn space_is_stable() {
    assert_eq!(ControllerConfig::space(), 595);
}

#[test]
fn update_uri_commits_and_advances_cursor() {
    let mut config = test_config();
    let cmd = MessageCommand::UpdateCollectionMetadata { new_uri: "https://x/2.json".to_string() };
    receive_message_handler(&mut config, EID, &message(cmd, 5), NOW).unwrap();
    assert_eq!(config.collection_uri, "https://x/2.json");
    assert_eq!(config.message_nonce, 5);
    assert_eq!(config.last_update, NOW);
}

#[test]
fn rejected_message_leaves_state_unchanged() {
    let mut config = test_config();
    let before = test_config();

    // wrong endpoint
    let cmd = MessageCommand::SetPaused { paused: true };
    let r = receive_message_handler(&mut config, EID + 1, &message(cmd, 5), NOW);
    assert_eq!(r.unwrap_err(), ErrorCode::InvalidEndpoint);
    assert!(config_fields_unchanged(&config, &before));

    // stale nonce
    let cmd = MessageCommand::SetPaused { paused: true };
    let r = receive_message_handler(&mut config, EID, &message(cmd, 0), NOW);
    assert_eq!(r.unwrap_err(), ErrorCode::InvalidNonce);
    assert!(config_fields_unchanged(&config, &before));

    // skewed timestamp
    let cmd = MessageCommand::SetPaused { paused: true };
    let mut msg = message(cmd, 5);
    msg.timestamp = NOW - 3601;
    let r = receive_message_handler(&mut config, EID, &msg, NOW);
    assert_eq!(r.unwrap_err(), ErrorCode::InvalidTimestamp);
    assert!(config_fields_unchanged(&config, &before));

    // over-long URI in the command
    let cmd = MessageCommand::UpdateCollectionMetadata { new_uri: "u".repeat(201) };
    let r = receive_message_handler(&mut config, EID, &message(cmd, 5), NOW);
    assert_eq!(r.unwrap_err(), ErrorCode::UriTooLong);
    assert!(config_fields_unchanged(&config, &before));
}

#[test]
fn paused_controller_rejects_everything() {
    let mut config = test_config();
    config.paused = true;
    let cmd = MessageCommand::SetPaused { paused: false };
    let r = receive_message_handler(&mut config, EID, &message(cmd, 5), NOW);
    assert_eq!(r.unwrap_err(), ErrorCode::ControllerPaused);
    assert!(config.paused);
}

#[test]
fn transfer_authority_replaces_authority() {
    let mut config = test_config();
    let cmd = MessageCommand::TransferAuthority { new_authority: [9u8; 32] };
    receive_message_handler(&mut config, EID, &message(cmd, 1), NOW).unwrap();
    assert_eq!(config.authority, [9u8; 32]);
}

#[test]
fn set_paused_sets_only_the_flag() {
    let mut config = test_config();
    let uri_before = config.collection_uri.clone();
    let cmd = MessageCommand::SetPaused { paused: true };
    receive_message_handler(&mut config, EID, &message(cmd, 1), NOW).unwrap();
    assert!(config.paused);
    assert_eq!(config.collection_uri, uri_before);
}

#[test]
fn batch_bounds_enforced() {
    let mut config = test_config();

    let updates = (0..101)
        .map(|i| omnichain_controller::message_types::MetadataUpdate {
            leaf_index: i,
            new_uri: "u".to_string(),
            proof: vec![[0u8; 32]],
        })
        .collect();
    let cmd = MessageCommand::BatchUpdateMetadata { updates };
    let r = receive_message_handler(&mut config, EID, &message(cmd, 1), NOW);
    assert_eq!(r.unwrap_err(), ErrorCode::BatchTooLarge);

    let mint_requests = (0..51)
        .map(|_| MintRequest {
            to: [0u8; 32],
            metadata: metadata(),
            creators: None,
            is_mutable: true,
            collection: None,
        })
        .collect();
    let cmd = MessageCommand::MintCnfts { mint_requests };
    let r = receive_message_handler(&mut config, EID, &message(cmd, 1), NOW);
    assert_eq!(r.unwrap_err(), ErrorCode::MintBatchTooLarge);

    let burn_requests = (0..101)
        .map(|i| BurnRequest { leaf_index: i, current_owner: [0u8; 32], proof: vec![[0u8; 32]] })
        .collect();
    let cmd = MessageCommand::BurnCnfts { burn_requests };
    let r = receive_message_handler(&mut config, EID, &message(cmd, 1), NOW);
    assert_eq!(r.unwrap_err(), ErrorCode::BurnBatchTooLarge);

    let transfer_requests = (0..101)
        .map(|i| TransferRequest {
            leaf_index: i,
            from: [1u8; 32],
            to: [2u8; 32],
            proof: vec![[0u8; 32]],
        })
        .collect();
    let cmd = MessageCommand::TransferCnfts { transfer_requests };
    let r = receive_message_handler(&mut config, EID, &message(cmd, 1), NOW);
    assert_eq!(r.unwrap_err(), ErrorCode::TransferBatchTooLarge);
}

#[test]
fn per_item_request_checks() {
    let mut config = test_config();

    let burn_requests = vec![BurnRequest {
        leaf_index: 0,
        current_owner: [0u8; 32],
        proof: vec![],
    }];
    let cmd = MessageCommand::BurnCnfts { burn_requests };
    let r = receive_message_handler(&mut config, EID, &message(cmd, 1), NOW);
    assert_eq!(r.unwrap_err(), ErrorCode::InvalidProof);

    let transfer_requests = vec![TransferRequest {
        leaf_index: 0,
        from: [1u8; 32],
        to: [1u8; 32],
        proof: vec![[0u8; 32]],
    }];
    let cmd = MessageCommand::TransferCnfts { transfer_requests };
    let r = receive_message_handler(&mut config, EID, &message(cmd, 1), NOW);
    assert_eq!(r.unwrap_err(), ErrorCode::OperationNotAllowed);

    let tree_state = TreeStateProof { root: [0u8; 32], item_count: 0, sequence: 0, proof: vec![] };
    let cmd = MessageCommand::VerifyTreeState { tree_state };
    let r = receive_message_handler(&mut config, EID, &message(cmd, 1), NOW);
    assert_eq!(r.unwrap_err(), ErrorCode::InvalidProof);
}

#[test]
fn tree_config_bounds() {
    let mut config = test_config();
    let bad_depth = TreeConfig { max_depth: 31, max_buffer_size: 64, public: false, fee_config: None };
    let cmd = MessageCommand::UpdateTreeConfig { new_config: bad_depth };
    let r = receive_message_handler(&mut config, EID, &message(cmd, 1), NOW);
    assert_eq!(r.unwrap_err(), ErrorCode::InvalidTreeConfig);

    let bad_fee = TreeConfig {
        max_depth: 14,
        max_buffer_size: 64,
        public: false,
        fee_config: Some(FeeConfig {
            mint_fee: 1_000_000_001,
            transfer_fee: 0,
            burn_fee: 0,
            fee_recipient: [7u8; 32],
        }),
    };
    let cmd = MessageCommand::UpdateTreeConfig { new_config: bad_fee };
    let r = receive_message_handler(&mut config, EID, &message(cmd, 1), NOW);
    assert_eq!(r.unwrap_err(), ErrorCode::InvalidFeeConfig);

    let good = TreeConfig { max_depth: 14, max_buffer_size: 64, public: false, fee_config: None };
    let cmd = MessageCommand::UpdateTreeConfig { new_config: good };
    assert!(receive_message_handler(&mut config, EID, &message(cmd, 1), NOW).is_ok());
}

#[test]
fn cnft_metadata_validation_errors() {
    let good = metadata();
    assert!(validate_cnft_metadata(&good).is_ok());

    let mut m = metadata();
    m.name = String::new();
    assert_eq!(validate_cnft_metadata(&m).unwrap_err(), ErrorCode::InvalidMetadata);

    let mut m = metadata();
    m.seller_fee_basis_points = 10001;
    assert_eq!(validate_cnft_metadata(&m).unwrap_err(), ErrorCode::InvalidRoyalty);

    let mut m = metadata();
    m.attributes = Some(vec![Attribute {
        trait_type: String::new(),
        value: "v".to_string(),
        display_type: None,
    }]);
    assert_eq!(validate_cnft_metadata(&m).unwrap_err(), ErrorCode::InvalidAttributes);

    let mut m = metadata();
    m.properties = Some(Properties {
        files: Some(vec![File { uri: String::new(), file_type: None }]),
        category: None,
    });
    assert_eq!(validate_cnft_metadata(&m).unwrap_err(), ErrorCode::InvalidFiles);
}

#[test]
fn fee_config_validation() {
    let good = FeeConfig { mint_fee: 1, transfer_fee: 2, burn_fee: 3, fee_recipient: [9u8; 32] };
    assert!(validate_fee_config(&good).is_ok());

    let zero_recipient =
        FeeConfig { mint_fee: 1, transfer_fee: 2, burn_fee: 3, fee_recipient: [0u8; 32] };
    assert_eq!(
        validate_fee_config(&zero_recipient).unwrap_err(),
        ErrorCode::InvalidFeeConfig
    );
}

#[test]
fn update_metadata_handler_stores_uri() {
    let mut config = test_config();
    let ev = update_metadata_handler(
        &mut config,
        "https://x/3.json".to_string(),
        "N".to_string(),
        "S".to_string(),
        NOW,
    )
    .unwrap();
    assert_eq!(config.collection_uri, "https://x/3.json");
    assert_eq!(ev.new_name, "N");
    assert_eq!(ev.new_symbol, "S");
    assert_eq!(ev.timestamp, NOW);

    let r = update_metadata_handler(
        &mut config,
        "u".repeat(201),
        String::new(),
        String::new(),
        NOW,
    );
    assert_eq!(r.unwrap_err(), ErrorCode::UriTooLong);
    assert_eq!(config.collection_uri, "https://x/3.json");
}
