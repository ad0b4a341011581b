use omnichain_controller::batch_theme_update::{
    batch_theme_update_handler, run_chunked_update, update_cnft_metadata, BatchThemeUpdateRequest,
};
use omnichain_controller::collection_manager::{CollectionManager, ThemeConfig};
use omnichain_controller::errors::ErrorCode;
use omnichain_controller::initialize_massive_collection::{
    calculate_optimal_config, initialize_massive_collection_handler,
};
use omnichain_controller::mass_mint::{generate_dynamic_metadata, mass_mint_handler, MassMintRequest};
use omnichain_controller::tier_promotion::{
    find_eligible_cnfts, get_tier_config, tier_promotion_handler, TierPromotionRequest,
};
use omnichain_controller::collection_manager::Status;

const NOW: i64 = 1_700_000_000;

fn test_manager() -> CollectionManager {
    let config = calculate_optimal_config(1_000_000);
    let mut manager = initialize_massive_collection_handler(
        [1u8; 32],
        [2u8; 32],
        [3u8; 32],
        config,
        "Standard".to_string(),
        NOW,
        255,
    )
    .unwrap();
    let golden = ThemeConfig::new(
        "Golden".to_string(),
        "https://api.loyaltypass.com/metadata/golden".to_string(),
        NOW,
    );
    manager.add_theme(golden, NOW).unwrap();
    manager
}

fn theme_request(theme: &str, range: Option<(u32, u32)>) -> BatchThemeUpdateRequest {
    BatchThemeUpdateRequest {
        operation_id: "op-1".to_string(),
        new_theme: theme.to_string(),
        tier: None,
        target_range: range,
        progressive_update: true,
        custom_attributes: vec![],
    }
}

#[test]
fn theme_update_over_a_million_items() {
    let mut manager = test_manager();
    manager.total_minted = 1_000_000;
    manager.config.chunk_size = 1000;

    let cps = batch_theme_update_handler(&mut manager, &theme_request("Golden", None), NOW + 9)
        .unwrap();

    // exactly one checkpoint per chunk
    assert_eq!(cps.len(), 1000);
    // the running count ends at the full total
    assert_eq!(cps[999].items_processed, 1_000_000);
    assert_eq!(cps[999].items_total, 1_000_000);
    assert_eq!(cps[0].items_processed, 1000);
    assert_eq!(cps[0].current_chunk_start, 0);
    assert_eq!(cps[0].current_chunk_end, 1000);
    assert_eq!(cps[999].current_chunk_start, 999_000);
    assert_eq!(cps[999].current_chunk_end, 1_000_000);
    // the theme commits only after the final chunk
    assert_eq!(manager.current_theme.name, "Golden");
    assert_eq!(manager.last_update, NOW + 9);
}

#[test]
fn theme_update_rejections_leave_state_alone() {
    let mut manager = test_manager();
    manager.total_minted = 100;

    let r = batch_theme_update_handler(&mut manager, &theme_request("Cosmic", None), NOW);
    assert_eq!(r.unwrap_err(), ErrorCode::ThemeNotFound);
    assert_eq!(manager.current_theme.name, "Standard");

    let r = batch_theme_update_handler(&mut manager, &theme_request("Golden", Some((5, 5))), NOW);
    assert_eq!(r.unwrap_err(), ErrorCode::InvalidRange);
    assert_eq!(manager.current_theme.name, "Standard");

    let r =
        batch_theme_update_handler(&mut manager, &theme_request("Golden", Some((0, 101))), NOW);
    assert_eq!(r.unwrap_err(), ErrorCode::RangeOutOfBounds);
    assert_eq!(manager.current_theme.name, "Standard");
}

#[test]
fn theme_update_partial_final_chunk() {
    let mut manager = test_manager();
    manager.total_minted = 250;
    manager.config.chunk_size = 100;
    let cps = batch_theme_update_handler(&mut manager, &theme_request("Golden", None), NOW)
        .unwrap();
    assert_eq!(cps.len(), 3);
    assert_eq!(cps[2].current_chunk_start, 200);
    assert_eq!(cps[2].current_chunk_end, 250);
    assert_eq!(cps[2].items_processed, 250);
}

#[test]
fn resumed_run_never_revisits_committed_chunks() {
    // after 3 committed chunks of 100, the resumed run covers exactly the
    // remaining 150 items
    let cps = run_chunked_update(&"op".to_string(), 300, 450, 100, NOW);
    assert_eq!(cps.len(), 2);
    assert!(cps.iter().all(|c| c.current_chunk_start >= 300));
    assert_eq!(cps[0].current_chunk_start, 300);
    assert_eq!(cps[0].current_chunk_end, 400);
    assert_eq!(cps[1].current_chunk_end, 450);
    assert_eq!(cps[1].items_processed, 150);
}

#[test]
fn empty_collection_theme_update_completes_immediately() {
    // nothing minted yet: zero checkpoints, but the theme still commits
    let mut manager = test_manager();
    let cps = batch_theme_update_handler(&mut manager, &theme_request("Golden", None), NOW + 1)
        .unwrap();
    assert!(cps.is_empty());
    assert_eq!(manager.current_theme.name, "Golden");
    assert_eq!(manager.last_update, NOW + 1);
}

#[test]
fn empty_range_is_a_valid_completed_run() {
    let cps = run_chunked_update(&"op".to_string(), 42, 42, 100, NOW);
    assert!(cps.is_empty());
}

#[test]
fn per_item_update_values() {
    let theme = ThemeConfig::new(
        "Golden".to_string(),
        "https://api.loyaltypass.com/metadata/golden".to_string(),
        NOW,
    );
    let mut request = theme_request("Golden", None);
    request.tier = Some("Gold".to_string());
    let (uri, attrs) = update_cnft_metadata(17, &theme, &request, NOW);
    assert_eq!(uri, "https://api.loyaltypass.com/metadata/golden/gold/17.json");
    assert_eq!(attrs[0], ("Updated At".to_string(), NOW.to_string()));
    assert_eq!(attrs[1], ("Update Count".to_string(), "1".to_string()));
    assert_eq!(attrs[2], ("Tier".to_string(), "Gold".to_string()));
}

fn mint_request(n: usize, tier: Option<&str>) -> MassMintRequest {
    MassMintRequest {
        recipients: vec![[5u8; 32]; n],
        theme: "Golden".to_string(),
        tier: tier.map(|t| t.to_string()),
        base_metadata: None,
        verify_collection: false,
    }
}

#[test]
fn oversized_mint_batch_rejected_before_any_mint() {
    let mut manager = test_manager();
    manager.config.batch_size = 100;
    let r = mass_mint_handler(&mut manager, &mint_request(150, None), &[0u8; 32], NOW);
    assert_eq!(r.unwrap_err(), ErrorCode::BatchTooLarge);
    assert_eq!(manager.total_minted, 0);
    assert_eq!(manager.last_update, NOW);
}

#[test]
fn empty_mint_rejected() {
    let mut manager = test_manager();
    let r = mass_mint_handler(&mut manager, &mint_request(0, None), &[0u8; 32], NOW);
    assert_eq!(r.unwrap_err(), ErrorCode::EmptyMintRequest);
}

#[test]
fn full_collection_rejects_whole_batch_atomically() {
    let mut manager = test_manager();
    manager.total_minted = 1_048_570;
    let r = mass_mint_handler(&mut manager, &mint_request(7, None), &[0u8; 32], NOW);
    assert_eq!(r.unwrap_err(), ErrorCode::CollectionFull);
    assert_eq!(manager.total_minted, 1_048_570);
}

#[test]
fn mass_mint_issues_sequential_token_ids() {
    let mut manager = test_manager();
    manager.total_minted = 10;
    let minted =
        mass_mint_handler(&mut manager, &mint_request(3, Some("Gold")), &[0u8; 32], NOW).unwrap();
    assert_eq!(minted.len(), 3);
    assert_eq!(manager.total_minted, 13);
    assert_eq!(minted[0].name, "Dynamic Loyalty Pass #10");
    assert_eq!(minted[2].name, "Dynamic Loyalty Pass #12");
    assert_eq!(
        minted[0].uri,
        "https://api.loyaltypass.com/metadata/golden/gold/10.json"
    );
    assert_eq!(
        minted[0].image.as_deref(),
        Some("https://api.loyaltypass.com/images/golden/gold/10.png")
    );
}

#[test]
fn dynamic_metadata_values() {
    let request = mint_request(1, Some("Silver"));
    let metadata = generate_dynamic_metadata(&request, 42, &[5u8; 32], &[0u8; 32], NOW).unwrap();
    assert_eq!(metadata.symbol, "DLP");
    assert_eq!(metadata.seller_fee_basis_points, 250);
    assert_eq!(
        metadata.description.as_deref(),
        Some("A Silver tier Golden loyalty pass controlled by cross-chain DAO governance")
    );
    assert_eq!(metadata.external_url.as_deref(), Some("https://loyaltypass.com"));
    let attrs = metadata.attributes.unwrap();
    let find = |k: &str| {
        attrs
            .iter()
            .find(|a| a.trait_type == k)
            .map(|a| a.value.clone())
            .unwrap()
    };
    assert_eq!(find("Theme"), "Golden");
    assert_eq!(find("Tier"), "Silver");
    assert_eq!(find("Token ID"), "42");
    assert_eq!(find("Mint Date"), NOW.to_string());
    // the all-zero authority key renders as thirty-two ones in base58
    assert_eq!(find("Controlled By"), "1".repeat(32));
    assert_eq!(find("Level"), "2");
    assert_eq!(find("Boost"), "15%");
    assert_eq!(find("Special"), "Golden Event");
    let props = metadata.properties.unwrap();
    assert_eq!(props.category.as_deref(), Some("utility"));
}

#[test]
fn default_tier_is_standard() {
    let request = mint_request(1, None);
    let metadata = generate_dynamic_metadata(&request, 0, &[5u8; 32], &[1u8; 32], NOW).unwrap();
    assert_eq!(
        metadata.uri,
        "https://api.loyaltypass.com/metadata/golden/standard/0.json"
    );
    let attrs = metadata.attributes.unwrap();
    assert!(attrs.iter().any(|a| a.trait_type == "Level" && a.value == "0"));
}

#[test]
fn tier_table() {
    let bronze = get_tier_config("Bronze").unwrap();
    assert_eq!(bronze.level, 1);
    assert_eq!(bronze.requirements, vec!["Hold for 30 days".to_string()]);
    let platinum = get_tier_config("Platinum").unwrap();
    assert_eq!(platinum.level, 4);
    assert_eq!(get_tier_config("Diamond").unwrap_err(), ErrorCode::InvalidTier);
}

fn promotion_request(criteria: &str, maxp: Option<u32>) -> TierPromotionRequest {
    TierPromotionRequest {
        operation_id: "promo-1".to_string(),
        from_tier: "Bronze".to_string(),
        to_tier: "Silver".to_string(),
        criteria: criteria.to_string(),
        max_promotions: maxp,
        require_consent: false,
    }
}

#[test]
fn promotion_requires_a_higher_tier() {
    let manager = test_manager();
    let mut request = promotion_request("top_holders", None);
    request.from_tier = "Gold".to_string();
    request.to_tier = "Bronze".to_string();
    let r = tier_promotion_handler(&manager, &request, NOW, 0);
    assert_eq!(r.unwrap_err(), ErrorCode::InvalidTierPromotion);

    let mut request = promotion_request("top_holders", None);
    request.to_tier = "Diamond".to_string();
    let r = tier_promotion_handler(&manager, &request, NOW, 0);
    assert_eq!(r.unwrap_err(), ErrorCode::InvalidTier);
}

#[test]
fn unknown_criteria_surfaced() {
    let mut manager = test_manager();
    manager.total_minted = 100;
    let r = tier_promotion_handler(&manager, &promotion_request("by_vibes", None), NOW, 0);
    assert_eq!(r.unwrap_err(), ErrorCode::InvalidPromotionCriteria);
}

#[test]
fn empty_selection_completes_immediately() {
    let manager = test_manager(); // nothing minted yet
    let (status, events) =
        tier_promotion_handler(&manager, &promotion_request("top_holders", None), NOW, 7)
            .unwrap();
    assert!(matches!(status.status.status, Status::Completed));
    assert_eq!(status.status.items_processed, 0);
    assert_eq!(status.status.items_total, 0);
    assert_eq!(status.status.completed_at, Some(NOW));
    assert!(events.is_empty());
}

#[test]
fn promotion_processes_in_chunks() {
    let mut manager = test_manager();
    manager.total_minted = 1000;
    manager.config.chunk_size = 100;
    let (status, events) =
        tier_promotion_handler(&manager, &promotion_request("all_current_tier", None), NOW, 7)
            .unwrap();
    assert_eq!(status.status.items_total, 1000);
    assert_eq!(status.status.items_processed, 1000);
    assert!(matches!(status.status.status, Status::Completed));
    assert_eq!(events.len(), 10);
    assert_eq!(events[0].items_processed, 100);
    assert_eq!(events[9].items_processed, 1000);
    assert_eq!(events[9].items_total, 1000);
}

#[test]
fn eligibility_criteria() {
    let mut manager = test_manager();
    manager.total_minted = 50;

    // top holders caps at the default of one hundred, or the supply
    let infos = find_eligible_cnfts(&promotion_request("top_holders", None), &manager).unwrap();
    assert_eq!(infos.len(), 50);
    assert_eq!(infos[49].leaf_index, 49);
    assert_eq!(infos[0].current_tier, "Bronze");

    // explicit cap wins when smaller
    let infos =
        find_eligible_cnfts(&promotion_request("top_holders", Some(10)), &manager).unwrap();
    assert_eq!(infos.len(), 10);

    // the deterministic sample walks a fixed stride
    let infos =
        find_eligible_cnfts(&promotion_request("random_selection", Some(10)), &manager).unwrap();
    assert_eq!(infos.len(), 10);
    assert_eq!(infos[0].leaf_index, 0);
    assert_eq!(infos[1].leaf_index, 5); // stride = 50 / 10
    assert_eq!(infos[9].leaf_index, 45);

    // an empty collection yields an empty sample, not an error
    manager.total_minted = 0;
    let infos =
        find_eligible_cnfts(&promotion_request("random_selection", None), &manager).unwrap();
    assert!(infos.is_empty());
}

#[test]
fn date_cohort_respects_the_cutoff() {
    let mut manager = test_manager();
    // created two hours before the cutoff: items at one-hour spacing, so
    // exactly the first two fall before it
    manager.created_at = 1704067200 - 7200;
    manager.total_minted = 50;
    let infos =
        find_eligible_cnfts(&promotion_request("mint_date_before_2024", None), &manager).unwrap();
    assert_eq!(infos.len(), 2);
    assert_eq!(infos[0].leaf_index, 0);
    assert_eq!(infos[0].mint_date, 1704067200 - 7200);
    assert_eq!(infos[1].leaf_index, 1);
    assert_eq!(infos[1].mint_date, 1704067200 - 3600);
}
