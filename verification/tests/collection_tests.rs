use omnichain_controller::collection_manager::{CollectionManager, ThemeConfig};
use omnichain_controller::errors::ErrorCode;
use omnichain_controller::initialize_massive_collection::{
    calculate_optimal_config, initialize_massive_collection_handler,
};

const NOW: i64 = 1_700_000_000;

fn test_manager() -> CollectionManager {
    let config = calculate_optimal_config(1_000_000);
    initialize_massive_collection_handler(
        [1u8; 32],
        [2u8; 32],
        [3u8; 32],
        config,
        "Standard".to_string(),
        NOW,
        255,
    )
    .unwrap()
}

#[test]
fn test_optimal_config_calculation() {
    // Test 1M capacity
    let config = calculate_optimal_config(1_000_000);
    assert_eq!(config.max_depth, 20);
    assert_eq!(config.max_buffer_size, 256);
    assert_eq!(config.batch_size, 1000);
    assert_eq!(config.chunk_size, 100);

    // Test 100K capacity
    let config = calculate_optimal_config(100_000);
    assert_eq!(config.max_depth, 18);
    assert_eq!(config.max_buffer_size, 64);
    assert_eq!(config.batch_size, 500);
    assert_eq!(config.chunk_size, 50);
}

#[test]
fn test_capacity_calculation() {
    let config = omnichain_controller::collection_manager::MassiveTreeConfig {
        max_depth: 20,
        max_buffer_size: 256,
        batch_size: 1000,
        chunk_size: 100,
        fee_config: None,
    };

    let capacity = 2u64.pow(config.max_depth);
    assert_eq!(capacity, 1_048_576); // ~1M items
}

#[test]
fn initialize_validates_bounds() {
    let mut config = calculate_optimal_config(1_000_000);
    config.max_depth = 19;
    let r = initialize_massive_collection_handler(
        [1u8; 32],
        [2u8; 32],
        [3u8; 32],
        config,
        "T".to_string(),
        NOW,
        0,
    );
    assert_eq!(r.unwrap_err(), ErrorCode::InvalidTreeDepth);

    let mut config = calculate_optimal_config(1_000_000);
    config.max_buffer_size = 513;
    let r = initialize_massive_collection_handler(
        [1u8; 32],
        [2u8; 32],
        [3u8; 32],
        config,
        "T".to_string(),
        NOW,
        0,
    );
    assert_eq!(r.unwrap_err(), ErrorCode::InvalidBufferSize);

    let mut config = calculate_optimal_config(1_000_000);
    config.batch_size = 99;
    let r = initialize_massive_collection_handler(
        [1u8; 32],
        [2u8; 32],
        [3u8; 32],
        config,
        "T".to_string(),
        NOW,
        0,
    );
    assert_eq!(r.unwrap_err(), ErrorCode::InvalidBatchSize);
}

#[test]
fn initialize_sets_theme_from_name() {
    let manager = test_manager();
    assert_eq!(manager.total_minted, 0);
    assert!(manager.is_active);
    assert_eq!(manager.current_theme.name, "Standard");
    assert_eq!(
        manager.current_theme.base_uri,
        "https://api.loyaltypass.com/metadata/standard"
    );
    assert_eq!(manager.current_theme.attributes.len(), 3);
    assert_eq!(manager.current_theme.attributes[2].0, "Max Capacity");
    assert_eq!(manager.current_theme.attributes[2].1, "1048576");
}

#[test]
fn capacity_and_can_mint() {
    let mut manager = test_manager();
    assert_eq!(manager.capacity(), 1_048_576);
    assert!(manager.can_mint(1_048_576));
    assert!(!manager.can_mint(1_048_577));
    manager.total_minted = 1_048_570;
    assert!(manager.can_mint(6));
    assert!(!manager.can_mint(7));
}

#[test]
fn increment_minted_is_atomic_at_the_capacity_bound() {
    let mut manager = test_manager();
    manager.total_minted = 1_048_570;

    // exactly up to capacity succeeds
    manager.increment_minted(6, NOW + 5).unwrap();
    assert_eq!(manager.total_minted, 1_048_576);
    assert_eq!(manager.last_update, NOW + 5);

    // one past capacity fails and nothing changes
    let r = manager.increment_minted(1, NOW + 6);
    assert_eq!(r.unwrap_err(), ErrorCode::CollectionFull);
    assert_eq!(manager.total_minted, 1_048_576);
    assert_eq!(manager.last_update, NOW + 5);
}

#[test]
fn increment_minted_never_partially_updates() {
    let mut manager = test_manager();
    manager.total_minted = 1_000_000;
    let r = manager.increment_minted(100_000, NOW + 1);
    assert_eq!(r.unwrap_err(), ErrorCode::CollectionFull);
    assert_eq!(manager.total_minted, 1_000_000);
}

#[test]
fn theme_list_rules() {
    let mut manager = test_manager();
    for i in 0..5 {
        let theme = ThemeConfig::new(format!("Theme{}", i), "https://b".to_string(), NOW);
        manager.add_theme(theme, NOW).unwrap();
    }
    let sixth = ThemeConfig::new("Theme5".to_string(), "https://b".to_string(), NOW);
    assert_eq!(manager.add_theme(sixth, NOW).unwrap_err(), ErrorCode::TooManyThemes);

    let mut manager = test_manager();
    let a = ThemeConfig::new("Golden".to_string(), "https://b".to_string(), NOW);
    manager.add_theme(a, NOW).unwrap();
    let dup = ThemeConfig::new("Golden".to_string(), "https://c".to_string(), NOW);
    assert_eq!(manager.add_theme(dup, NOW).unwrap_err(), ErrorCode::DuplicateTheme);
}

#[test]
fn switch_theme_finds_by_name() {
    let mut manager = test_manager();
    let golden = ThemeConfig::new("Golden".to_string(), "https://g".to_string(), NOW);
    manager.add_theme(golden, NOW).unwrap();

    assert_eq!(
        manager.switch_theme("Cosmic", NOW).unwrap_err(),
        ErrorCode::ThemeNotFound
    );
    assert_eq!(manager.current_theme.name, "Standard");

    manager.switch_theme("Golden", NOW + 1).unwrap();
    assert_eq!(manager.current_theme.name, "Golden");
    assert_eq!(manager.current_theme.base_uri, "https://g");
    assert_eq!(manager.last_update, NOW + 1);
}

#[test]
fn theme_attributes_bounded() {
    let mut theme = ThemeConfig::new("T".to_string(), "https://b".to_string(), NOW);
    for i in 0..5 {
        theme.add_attribute(format!("k{}", i), "v".to_string()).unwrap();
    }
    let r = theme.add_attribute("k5".to_string(), "v".to_string());
    assert_eq!(r.unwrap_err(), ErrorCode::TooManyAttributes);
    assert_eq!(theme.attributes.len(), 5);
}

#[test]
fn metadata_uri_generation() {
    let theme = ThemeConfig::new(
        "Golden".to_string(),
        "https://api.loyaltypass.com/metadata/golden".to_string(),
        NOW,
    );
    assert_eq!(
        theme.generate_metadata_uri(7, None),
        "https://api.loyaltypass.com/metadata/golden/7.json"
    );
    assert_eq!(
        theme.generate_metadata_uri(123456, Some("Gold")),
        "https://api.loyaltypass.com/metadata/golden/gold/123456.json"
    );
}
