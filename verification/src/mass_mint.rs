use vstd::prelude::*;
use crate::collection_manager::{spec_capacity, CollectionManager, CollectionManagerV};
use crate::errors::ErrorCode;
use crate::message_types::{Attribute, AttributeV, CnftMetadata, CnftMetadataV, Properties};
use crate::strfmt::{
    lower_of, spec_dec_i64, spec_dec_u64, i64_to_dec, to_lowercase_string, u64_to_dec,
};
use crate::keys::{base58_of, key_to_base58};

verus! {

// Royalty on minted items, in basis points
pub const MINT_ROYALTY_BASIS_POINTS: u16 = 250;

/// A mass mint request: one new item per recipient, under a theme and an
/// optional tier.
#[derive(Debug)]
pub struct MassMintRequest {
    /// Recipients of the new items (up to the configured batch size)
    pub recipients: Vec<[u8; 32]>,
    /// Theme for the minted items
    pub theme: String,
    /// Tier for the minted items; the default tier when absent
    pub tier: Option<String>,
    /// Base metadata template
    pub base_metadata: Option<CnftMetadata>,
    /// Whether to verify as part of the collection
    pub verify_collection: bool,
}

/// The tier a mint request names, or the default tier.
pub open spec fn spec_request_tier(req: &MassMintRequest) -> Seq<char> {
    match req.tier {
        Some(ref t) => t@,
        None => "Standard"@,
    }
}

/// The metadata URI of a minted item.
pub open spec fn spec_mint_uri(theme: Seq<char>, tier: Seq<char>, token_id: u64) -> Seq<char> {
    "https://api.loyaltypass.com/metadata/"@ + lower_of(theme) + seq!['/'] + lower_of(tier)
        + seq!['/'] + spec_dec_u64(token_id) + ".json"@
}

/// The image URI of a minted item.
pub open spec fn spec_mint_image(theme: Seq<char>, tier: Seq<char>, token_id: u64) -> Seq<char> {
    "https://api.loyaltypass.com/images/"@ + lower_of(theme) + seq!['/'] + lower_of(tier)
        + seq!['/'] + spec_dec_u64(token_id) + ".png"@
}

/// The display name of a minted item.
pub open spec fn spec_mint_name(token_id: u64) -> Seq<char> {
    "Dynamic Loyalty Pass #"@ + spec_dec_u64(token_id)
}

/// The description of a minted item.
pub open spec fn spec_mint_description(theme: Seq<char>, tier: Seq<char>) -> Seq<char> {
    "A "@ + tier + " tier "@ + theme
        + " loyalty pass controlled by cross-chain DAO governance"@
}

/// One attribute with no display type.
pub open spec fn spec_attr(trait_type: Seq<char>, value: Seq<char>) -> AttributeV {
    AttributeV { trait_type: trait_type, value: value, display_type: None }
}

/// The attributes every minted item carries.
pub open spec fn spec_base_attributes(
    theme: Seq<char>,
    tier: Seq<char>,
    token_id: u64,
    authority: Seq<u8>,
    timestamp: i64,
) -> Seq<AttributeV> {
    seq![
        spec_attr("Theme"@, theme),
        spec_attr("Tier"@, tier),
        spec_attr("Token ID"@, spec_dec_u64(token_id)),
        spec_attr("Mint Date"@, spec_dec_i64(timestamp)),
        spec_attr("Controlled By"@, base58_of(authority)),
        spec_attr("Chain"@, "Solana"@),
        spec_attr("Type"@, "Dynamic Loyalty Pass"@),
    ]
}

/// The tier-specific attributes of a minted item.
pub open spec fn spec_tier_attributes(tier: Seq<char>) -> Seq<AttributeV> {
    if tier == "Bronze"@ {
        seq![spec_attr("Level"@, "1"@), spec_attr("Boost"@, "5%"@)]
    } else if tier == "Silver"@ {
        seq![spec_attr("Level"@, "2"@), spec_attr("Boost"@, "15%"@)]
    } else if tier == "Gold"@ {
        seq![spec_attr("Level"@, "3"@), spec_attr("Boost"@, "30%"@)]
    } else if tier == "Platinum"@ {
        seq![spec_attr("Level"@, "4"@), spec_attr("Boost"@, "50%"@)]
    } else {
        seq![spec_attr("Level"@, "0"@)]
    }
}

/// The theme-specific attributes of a minted item.
pub open spec fn spec_theme_attributes(theme: Seq<char>) -> Seq<AttributeV> {
    if theme == "Golden"@ {
        seq![spec_attr("Special"@, "Golden Event"@), spec_attr("Rarity"@, "Limited Edition"@)]
    } else if theme == "Cosmic"@ {
        seq![spec_attr("Special"@, "Cosmic Collection"@), spec_attr("Effect"@, "Stellar Glow"@)]
    } else if theme == "Premium"@ {
        seq![spec_attr("Special"@, "Premium Access"@), spec_attr("Benefits"@, "VIP Status"@)]
    } else {
        Seq::<AttributeV>::empty()
    }
}

/// The full metadata of one minted item: a function of the theme, the tier,
/// the token id, the minting authority and the mint time alone.
pub open spec fn spec_dynamic_metadata(
    theme: Seq<char>,
    tier: Seq<char>,
    token_id: u64,
    authority: Seq<u8>,
    timestamp: i64,
) -> CnftMetadataV {
    CnftMetadataV {
        name: spec_mint_name(token_id),
        symbol: "DLP"@,
        uri: spec_mint_uri(theme, tier, token_id),
        description: Some(spec_mint_description(theme, tier)),
        seller_fee_basis_points: MINT_ROYALTY_BASIS_POINTS,
        image: Some(spec_mint_image(theme, tier, token_id)),
        animation_url: None,
        external_url: Some("https://loyaltypass.com"@),
        attributes: Some(
            spec_base_attributes(theme, tier, token_id, authority, timestamp)
                + spec_tier_attributes(tier) + spec_theme_attributes(theme),
        ),
        properties: Some(
            crate::message_types::PropertiesV { files: None, category: Some("utility"@) },
        ),
    }
}

fn attr(trait_type: &str, value: String) -> (r: Attribute)
    ensures
        r@ == spec_attr(trait_type@, value@),
{
    Attribute { trait_type: String::from_str(trait_type), value, display_type: None }
}

#[verifier::loop_isolation(false)]
fn tier_attributes(tier: &String) -> (r: Vec<Attribute>)
    ensures
        r@.map_values(|a: Attribute| a@) == spec_tier_attributes(tier@),
{
    let mut attrs: Vec<Attribute> = Vec::new();
    if *tier == String::from_str("Bronze") {
        attrs.push(attr("Level", String::from_str("1")));
        attrs.push(attr("Boost", String::from_str("5%")));
    } else if *tier == String::from_str("Silver") {
        attrs.push(attr("Level", String::from_str("2")));
        attrs.push(attr("Boost", String::from_str("15%")));
    } else if *tier == String::from_str("Gold") {
        attrs.push(attr("Level", String::from_str("3")));
        attrs.push(attr("Boost", String::from_str("30%")));
    } else if *tier == String::from_str("Platinum") {
        attrs.push(attr("Level", String::from_str("4")));
        attrs.push(attr("Boost", String::from_str("50%")));
    } else {
        attrs.push(attr("Level", String::from_str("0")));
    }
    proof {
        assert(attrs@.map_values(|a: Attribute| a@) =~= spec_tier_attributes(tier@));
    }
    attrs
}

#[verifier::loop_isolation(false)]
fn theme_attributes(theme: &String) -> (r: Vec<Attribute>)
    ensures
        r@.map_values(|a: Attribute| a@) == spec_theme_attributes(theme@),
{
    let mut attrs: Vec<Attribute> = Vec::new();
    if *theme == String::from_str("Golden") {
        attrs.push(attr("Special", String::from_str("Golden Event")));
        attrs.push(attr("Rarity", String::from_str("Limited Edition")));
    } else if *theme == String::from_str("Cosmic") {
        attrs.push(attr("Special", String::from_str("Cosmic Collection")));
        attrs.push(attr("Effect", String::from_str("Stellar Glow")));
    } else if *theme == String::from_str("Premium") {
        attrs.push(attr("Special", String::from_str("Premium Access")));
        attrs.push(attr("Benefits", String::from_str("VIP Status")));
    }
    proof {
        assert(attrs@.map_values(|a: Attribute| a@) =~= spec_theme_attributes(theme@));
    }
    attrs
}

fn mint_path_uri(prefix: &str, theme: &String, tier: &String, token_id: u64, suffix: &str) -> (r:
    String)
    ensures
        r@ == prefix@ + lower_of(theme@) + seq!['/'] + lower_of(tier@) + seq!['/'] + spec_dec_u64(
            token_id,
        ) + suffix@,
{
    proof {
        reveal_strlit("/");
    }
    let mut s = String::from_str(prefix);
    let lowered_theme = to_lowercase_string(theme.as_str());
    s.append(lowered_theme.as_str());
    s.append("/");
    let lowered_tier = to_lowercase_string(tier.as_str());
    s.append(lowered_tier.as_str());
    s.append("/");
    let id = u64_to_dec(token_id);
    s.append(id.as_str());
    s.append(suffix);
    proof {
        assert(s@ =~= prefix@ + lower_of(theme@) + seq!['/'] + lower_of(tier@) + seq!['/']
            + spec_dec_u64(token_id) + suffix@);
    }
    s
}

/// Generate the metadata of one item to mint, from the request's theme and
/// tier, the token id, the minting authority and the mint time. The
/// recipient does not influence the metadata.
pub fn generate_dynamic_metadata(
    mint_request: &MassMintRequest,
    token_id: u64,
    recipient: &[u8; 32],
    authority: &[u8; 32],
    timestamp: i64,
) -> (r: Result<CnftMetadata, ErrorCode>)
    ensures
        r is Ok,
        r.unwrap()@ == spec_dynamic_metadata(
            mint_request.theme@,
            spec_request_tier(mint_request),
            token_id,
            authority@,
            timestamp,
        ),
{
    let tier: String = match &mint_request.tier {
        Some(t) => t.clone(),
        None => String::from_str("Standard"),
    };
    let theme = &mint_request.theme;

    let uri = mint_path_uri(
        "https://api.loyaltypass.com/metadata/",
        theme,
        &tier,
        token_id,
        ".json",
    );
    let image = mint_path_uri(
        "https://api.loyaltypass.com/images/",
        theme,
        &tier,
        token_id,
        ".png",
    );

    let mut attributes: Vec<Attribute> = Vec::new();
    attributes.push(attr("Theme", theme.clone()));
    attributes.push(attr("Tier", tier.clone()));
    attributes.push(attr("Token ID", u64_to_dec(token_id)));
    attributes.push(attr("Mint Date", i64_to_dec(timestamp)));
    attributes.push(attr("Controlled By", key_to_base58(authority)));
    attributes.push(attr("Chain", String::from_str("Solana")));
    attributes.push(attr("Type", String::from_str("Dynamic Loyalty Pass")));
    let ghost base = attributes@.map_values(|a: Attribute| a@);
    proof {
        assert(base =~= spec_base_attributes(
            theme@,
            tier@,
            token_id,
            authority@,
            timestamp,
        ));
    }

    let mut tier_attrs = tier_attributes(&tier);
    attributes.append(&mut tier_attrs);
    let mut theme_attrs = theme_attributes(theme);
    attributes.append(&mut theme_attrs);

    let mut name = String::from_str("Dynamic Loyalty Pass #");
    let id_str = u64_to_dec(token_id);
    name.append(id_str.as_str());

    let mut description = String::from_str("A ");
    description.append(tier.as_str());
    description.append(" tier ");
    description.append(theme.as_str());
    description.append(" loyalty pass controlled by cross-chain DAO governance");

    let metadata = CnftMetadata {
        name,
        symbol: String::from_str("DLP"),
        uri,
        description: Some(description),
        seller_fee_basis_points: MINT_ROYALTY_BASIS_POINTS,
        image: Some(image),
        animation_url: None,
        external_url: Some(String::from_str("https://loyaltypass.com")),
        attributes: Some(attributes),
        properties: Some(
            Properties { files: None, category: Some(String::from_str("utility")) },
        ),
    };
    proof {
        let goal = spec_dynamic_metadata(
            theme@,
            spec_request_tier(mint_request),
            token_id,
            authority@,
            timestamp,
        );
        assert(metadata@.name =~= goal.name);
        assert(metadata@.description.unwrap() =~= goal.description.unwrap());
        assert(metadata@.attributes.unwrap() =~= goal.attributes.unwrap());
        assert(metadata@ =~= goal);
    }
    Ok(metadata)
}

/// Record of a completed mass mint, for monitoring.
#[derive(Debug)]
pub struct MassMintCompleted {
    pub collection_manager: [u8; 32],
    pub authority: [u8; 32],
    pub count: u64,
    pub theme: String,
    pub tier: Option<String>,
    pub timestamp: i64,
    pub total_supply: u64,
}

/// The first check of a mass mint request that fails, if any: it must name
/// at least one recipient, fit in the configured batch size, and fit under
/// the logical capacity.
pub open spec fn spec_mass_mint_error(
    m: CollectionManagerV,
    req: &MassMintRequest,
) -> Option<ErrorCode> {
    if req.recipients@.len() == 0 {
        Some(ErrorCode::EmptyMintRequest)
    } else if req.recipients@.len() > m.config.batch_size {
        Some(ErrorCode::BatchTooLarge)
    } else if m.total_minted + req.recipients@.len() > spec_capacity(m.config.max_depth) {
        Some(ErrorCode::CollectionFull)
    } else {
        None
    }
}

/// Mint one item per recipient, in token-id order starting at the current
/// issued total.
///
/// A rejected request (empty, over the batch size, or past capacity) leaves
/// the manager untouched and mints nothing; the whole batch is rejected
/// atomically. An accepted one returns the metadata of each minted item and
/// advances the issued total by exactly the number of recipients.
#[verifier::loop_isolation(false)]
pub fn mass_mint_handler(
    manager: &mut CollectionManager,
    mint_request: &MassMintRequest,
    authority: &[u8; 32],
    now: i64,
) -> (r: Result<Vec<CnftMetadata>, ErrorCode>)
    requires
        old(manager).wf(),
    ensures
        final(manager).wf(),
        match spec_mass_mint_error(old(manager)@, mint_request) {
            Some(e) => r == Err::<Vec<CnftMetadata>, ErrorCode>(e) && final(manager)@ == old(
                manager,
            )@,
            None => {
                &&& r is Ok
                &&& r.unwrap()@.len() == mint_request.recipients@.len()
                &&& forall|i: int|
                    0 <= i < r.unwrap()@.len() ==> #[trigger] r.unwrap()@[i]@
                        == spec_dynamic_metadata(
                        mint_request.theme@,
                        spec_request_tier(mint_request),
                        (old(manager)@.total_minted + i) as u64,
                        authority@,
                        now,
                    )
                &&& final(manager)@ == (CollectionManagerV {
                    total_minted: (old(manager)@.total_minted
                        + mint_request.recipients@.len()) as u64,
                    last_update: now,
                    ..old(manager)@
                })
            },
        },
{
    proof {
        vstd::arithmetic::power2::lemma2_to64();
    }
    if mint_request.recipients.len() == 0 {
        return Err(ErrorCode::EmptyMintRequest);
    }
    if mint_request.recipients.len() > manager.config.batch_size as usize {
        return Err(ErrorCode::BatchTooLarge);
    }
    let count = mint_request.recipients.len() as u64;
    if !manager.can_mint(count) {
        return Err(ErrorCode::CollectionFull);
    }

    let initial_minted = manager.total_minted;
    let mut minted: Vec<CnftMetadata> = Vec::new();
    let mut i: usize = 0;
    while i < mint_request.recipients.len()
        invariant
            i <= mint_request.recipients@.len(),
            minted@.len() == i,
            forall|j: int|
                0 <= j < i ==> #[trigger] minted@[j]@ == spec_dynamic_metadata(
                    mint_request.theme@,
                    spec_request_tier(mint_request),
                    (initial_minted + j) as u64,
                    authority@,
                    now,
                ),
        decreases mint_request.recipients@.len() - i,
    {
        let token_id = initial_minted + i as u64;
        let metadata = match generate_dynamic_metadata(
            mint_request,
            token_id,
            &mint_request.recipients[i],
            authority,
            now,
        ) {
            Ok(m) => m,
            Err(e) => {
                return Err(e);
            },
        };
        minted.push(metadata);
        i = i + 1;
    }

    match manager.increment_minted(count, now) {
        Ok(()) => {},
        Err(e) => {
            return Err(e);
        },
    }
    Ok(minted)
}

} // verus!
