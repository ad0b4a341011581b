use vstd::prelude::*;
use vstd::bits::{lemma_u64_pow2_no_overflow, lemma_u64_shl_is_mul};
use crate::collection_manager::{
    spec_capacity, CollectionManager, MassiveTreeConfig, ThemeConfig, MAX_CREATED_AT,
};
use crate::errors::ErrorCode;
use crate::strfmt::{lower_of, spec_dec_u64, to_lowercase_string, u64_to_dec};

verus! {

/// The base URI of a theme named at collection setup: the metadata root
/// followed by the lower-cased theme name.
pub open spec fn spec_initial_theme_base_uri(theme: Seq<char>) -> Seq<char> {
    "https://api.loyaltypass.com/metadata/"@ + lower_of(theme)
}

/// The first configuration bound a massive-scale setup breaks, if any:
/// the depth, buffer and batch ranges are each reported distinctly.
pub open spec fn spec_massive_config_error(config: &MassiveTreeConfig) -> Option<ErrorCode> {
    if !(20 <= config.max_depth <= 24) {
        Some(ErrorCode::InvalidTreeDepth)
    } else if !(64 <= config.max_buffer_size <= 512) {
        Some(ErrorCode::InvalidBufferSize)
    } else if !(100 <= config.batch_size <= 2000) {
        Some(ErrorCode::InvalidBatchSize)
    } else {
        None
    }
}

/// Set up a collection manager for a massive-scale collection.
///
/// The configuration must fit the massive-scale bounds (a tree depth giving
/// a capacity of a million items or more, buffer and batch sizes in range);
/// each violation is rejected distinctly. On success the manager starts
/// empty and active, with the named theme as the current theme and its base
/// URI derived from the theme name.
#[verifier::loop_isolation(false)]
pub fn initialize_massive_collection_handler(
    authority: [u8; 32],
    merkle_tree: [u8; 32],
    tree_authority: [u8; 32],
    config: MassiveTreeConfig,
    initial_theme: String,
    now: i64,
    bump: u8,
) -> (r: Result<CollectionManager, ErrorCode>)
    requires
        config.chunk_size >= 1,
        0 <= now < MAX_CREATED_AT,
    ensures
        match r {
            Err(e) => spec_massive_config_error(&config) == Some(e),
            Ok(m) => {
                &&& spec_massive_config_error(&config) is None
                &&& m.wf()
                &&& m@.authority == authority@
                &&& m@.merkle_tree == merkle_tree@
                &&& m@.tree_authority == tree_authority@
                &&& m@.config == config@
                &&& m@.total_minted == 0
                &&& m@.created_at == now
                &&& m@.last_update == now
                &&& m@.is_active
                &&& m@.bump == bump
                &&& m@.available_themes == Seq::<
                    crate::collection_manager::ThemeConfigV,
                >::empty()
                &&& m@.current_theme.name == initial_theme@
                &&& m@.current_theme.base_uri == spec_initial_theme_base_uri(initial_theme@)
                &&& m@.current_theme.attributes == seq![
                    ("Theme"@, initial_theme@),
                    ("Collection Type"@, "Massive Scale"@),
                    ("Max Capacity"@, spec_dec_u64((spec_capacity(config.max_depth) as u64))),
                ]
                &&& m@.current_theme.created_at == now
            },
        },
{
    if !(20 <= config.max_depth && config.max_depth <= 24) {
        return Err(ErrorCode::InvalidTreeDepth);
    }
    if !(64 <= config.max_buffer_size && config.max_buffer_size <= 512) {
        return Err(ErrorCode::InvalidBufferSize);
    }
    if !(100 <= config.batch_size && config.batch_size <= 2000) {
        return Err(ErrorCode::InvalidBatchSize);
    }

    proof {
        lemma_u64_pow2_no_overflow(config.max_depth as nat);
        lemma_u64_shl_is_mul(1u64, config.max_depth as u64);
    }
    let capacity: u64 = 1u64 << (config.max_depth as u64);

    let mut base_uri = String::from_str("https://api.loyaltypass.com/metadata/");
    let lowered = to_lowercase_string(initial_theme.as_str());
    base_uri.append(lowered.as_str());

    let mut attributes: Vec<(String, String)> = Vec::new();
    attributes.push((String::from_str("Theme"), initial_theme.clone()));
    attributes.push((String::from_str("Collection Type"), String::from_str("Massive Scale")));
    attributes.push((String::from_str("Max Capacity"), u64_to_dec(capacity)));

    let current_theme = ThemeConfig {
        name: initial_theme,
        base_uri,
        attributes,
        created_at: now,
    };

    let manager = CollectionManager {
        authority,
        merkle_tree,
        tree_authority,
        config,
        current_theme,
        available_themes: Vec::new(),
        total_minted: 0,
        created_at: now,
        last_update: now,
        is_active: true,
        bump,
        reserved: [0; 64],
    };
    proof {
        assert(manager@.available_themes =~= Seq::<
            crate::collection_manager::ThemeConfigV,
        >::empty());
        assert(manager@.current_theme.attributes =~= seq![
            ("Theme"@, manager@.current_theme.name),
            ("Collection Type"@, "Massive Scale"@),
            ("Max Capacity"@, spec_dec_u64(capacity)),
        ]);
    }
    Ok(manager)
}

/// Record of a newly set up massive collection, for monitoring.
#[derive(Debug)]
pub struct MassiveCollectionInitialized {
    pub collection_manager: [u8; 32],
    pub merkle_tree: [u8; 32],
    pub capacity: u64,
    pub initial_theme: String,
    pub authority: [u8; 32],
    pub created_at: i64,
}

/// The tree depth best fitting a target capacity.
pub open spec fn spec_optimal_depth(target_capacity: u64) -> u32 {
    if target_capacity <= 65536 {
        16u32
    } else if target_capacity <= 262144 {
        18u32
    } else if target_capacity <= 1048576 {
        20u32
    } else if target_capacity <= 4194304 {
        22u32
    } else {
        24u32
    }
}

/// The buffer size best fitting a target capacity.
pub open spec fn spec_optimal_buffer_size(target_capacity: u64) -> u32 {
    if target_capacity <= 100000 {
        64u32
    } else if target_capacity <= 500000 {
        128u32
    } else if target_capacity <= 1000000 {
        256u32
    } else {
        512u32
    }
}

/// The batch size best fitting a target capacity.
pub open spec fn spec_optimal_batch_size(target_capacity: u64) -> u32 {
    if target_capacity <= 10000 {
        100u32
    } else if target_capacity <= 100000 {
        500u32
    } else if target_capacity <= 1000000 {
        1000u32
    } else {
        2000u32
    }
}

/// The tree configuration best fitting a target capacity: depth, buffer and
/// batch size stepped by capacity bands, the chunk size a tenth of the
/// batch, and no fees.
pub fn calculate_optimal_config(target_capacity: u64) -> (r: MassiveTreeConfig)
    ensures
        r.max_depth == spec_optimal_depth(target_capacity),
        r.max_buffer_size == spec_optimal_buffer_size(target_capacity),
        r.batch_size == spec_optimal_batch_size(target_capacity),
        r.chunk_size == spec_optimal_batch_size(target_capacity) / 10,
        r.fee_config is None,
{
    let max_depth: u32 = if target_capacity <= 65536 {
        16
    } else if target_capacity <= 262144 {
        18
    } else if target_capacity <= 1048576 {
        20
    } else if target_capacity <= 4194304 {
        22
    } else {
        24
    };

    let max_buffer_size: u32 = if target_capacity <= 100000 {
        64
    } else if target_capacity <= 500000 {
        128
    } else if target_capacity <= 1000000 {
        256
    } else {
        512
    };

    let batch_size: u32 = if target_capacity <= 10000 {
        100
    } else if target_capacity <= 100000 {
        500
    } else if target_capacity <= 1000000 {
        1000
    } else {
        2000
    };

    MassiveTreeConfig {
        max_depth,
        max_buffer_size,
        batch_size,
        chunk_size: batch_size / 10,
        fee_config: None,
    }
}

} // verus!
