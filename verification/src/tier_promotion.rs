use vstd::prelude::*;
use crate::collection_manager::{
    CollectionManager, CollectionManagerV, OperationStatus, OperationStatusV, OperationType,
    Status, TierConfig, TierConfigV,
};
use crate::errors::ErrorCode;
use crate::batch_theme_update::{lemma_ceil_div_exact, spec_num_chunks};

verus! {

// Items minted before this moment count as minted before the calendar
// cutoff used by the date-based cohort criterion
pub const MINT_DATE_CUTOFF: i64 = 1704067200;

// Simulated spacing between consecutive mint dates, in seconds
pub const SIMULATED_MINT_INTERVAL: i64 = 3600;

// Default promotion caps per criterion, when the request gives none
pub const DEFAULT_DATE_PROMOTIONS: u32 = 1000;
pub const DEFAULT_TOP_HOLDER_PROMOTIONS: u32 = 100;
pub const DEFAULT_RANDOM_PROMOTIONS: u32 = 1000;

/// A tier promotion request: move items matching a selection criterion from
/// one tier to a higher one.
#[derive(Debug)]
pub struct TierPromotionRequest {
    /// Unique operation id
    pub operation_id: String,
    /// Current tier to promote from
    pub from_tier: String,
    /// Target tier to promote to
    pub to_tier: String,
    /// Criterion selecting the items to promote
    pub criteria: String,
    /// Maximum number of promotions
    pub max_promotions: Option<u32>,
    /// Whether to require owner consent
    pub require_consent: bool,
}

/// Information about one item selected for promotion.
#[derive(Debug)]
pub struct CnftInfo {
    pub leaf_index: u32,
    pub current_tier: String,
    pub mint_date: i64,
    pub owner: [u8; 32],
}

#[verifier::ext_equal]
pub struct CnftInfoV {
    pub leaf_index: u32,
    pub current_tier: Seq<char>,
    pub mint_date: i64,
    pub owner: Seq<u8>,
}

impl View for CnftInfo {
    type V = CnftInfoV;

    open spec fn view(&self) -> CnftInfoV {
        CnftInfoV {
            leaf_index: self.leaf_index,
            current_tier: self.current_tier@,
            mint_date: self.mint_date,
            owner: self.owner@,
        }
    }
}

/// The built-in tier table: name, level, and the attributes and
/// requirements of each tier.
pub open spec fn spec_tier_config(name: Seq<char>) -> Option<TierConfigV> {
    if name == "Bronze"@ {
        Some(
            TierConfigV {
                name: "Bronze"@,
                level: 1,
                attributes: seq![("Boost"@, "5%"@), ("Benefits"@, "Basic Access"@)],
                requirements: seq!["Hold for 30 days"@],
            },
        )
    } else if name == "Silver"@ {
        Some(
            TierConfigV {
                name: "Silver"@,
                level: 2,
                attributes: seq![("Boost"@, "15%"@), ("Benefits"@, "Priority Support"@)],
                requirements: seq!["Hold for 90 days"@, "Active participation"@],
            },
        )
    } else if name == "Gold"@ {
        Some(
            TierConfigV {
                name: "Gold"@,
                level: 3,
                attributes: seq![("Boost"@, "30%"@), ("Benefits"@, "VIP Access"@)],
                requirements: seq!["Hold for 180 days"@, "Community contributor"@],
            },
        )
    } else if name == "Platinum"@ {
        Some(
            TierConfigV {
                name: "Platinum"@,
                level: 4,
                attributes: seq![("Boost"@, "50%"@), ("Benefits"@, "Exclusive Events"@)],
                requirements: seq!["Hold for 365 days"@, "Top 1% holder"@],
            },
        )
    } else {
        None
    }
}

fn tier_entry(
    name: &str,
    level: u8,
    boost: &str,
    benefit: &str,
    requirements: Vec<String>,
) -> (r: TierConfig)
    ensures
        r@.name == name@,
        r@.level == level,
        r@.attributes =~= seq![("Boost"@, boost@), ("Benefits"@, benefit@)],
        r@.requirements =~= requirements@.map_values(|s: String| s@),
{
    let mut attributes: Vec<(String, String)> = Vec::new();
    attributes.push((String::from_str("Boost"), String::from_str(boost)));
    attributes.push((String::from_str("Benefits"), String::from_str(benefit)));
    let r = TierConfig { name: String::from_str(name), level, attributes, requirements };
    proof {
        assert(r@.attributes =~= seq![("Boost"@, boost@), ("Benefits"@, benefit@)]);
    }
    r
}

/// The configuration of a named tier; `InvalidTier` for an unknown name.
pub fn get_tier_config(tier_name: &str) -> (r: Result<TierConfig, ErrorCode>)
    ensures
        match r {
            Ok(cfg) => spec_tier_config(tier_name@) == Some(cfg@),
            Err(e) => spec_tier_config(tier_name@) is None && e == ErrorCode::InvalidTier,
        },
{
    let name = String::from_str(tier_name);
    if name == String::from_str("Bronze") {
        let mut requirements: Vec<String> = Vec::new();
        requirements.push(String::from_str("Hold for 30 days"));
        let r = tier_entry("Bronze", 1, "5%", "Basic Access", requirements);
        proof {
            assert(r@ =~= spec_tier_config(tier_name@).unwrap());
        }
        Ok(r)
    } else if name == String::from_str("Silver") {
        let mut requirements: Vec<String> = Vec::new();
        requirements.push(String::from_str("Hold for 90 days"));
        requirements.push(String::from_str("Active participation"));
        let r = tier_entry("Silver", 2, "15%", "Priority Support", requirements);
        proof {
            assert(r@ =~= spec_tier_config(tier_name@).unwrap());
        }
        Ok(r)
    } else if name == String::from_str("Gold") {
        let mut requirements: Vec<String> = Vec::new();
        requirements.push(String::from_str("Hold for 180 days"));
        requirements.push(String::from_str("Community contributor"));
        let r = tier_entry("Gold", 3, "30%", "VIP Access", requirements);
        proof {
            assert(r@ =~= spec_tier_config(tier_name@).unwrap());
        }
        Ok(r)
    } else if name == String::from_str("Platinum") {
        let mut requirements: Vec<String> = Vec::new();
        requirements.push(String::from_str("Hold for 365 days"));
        requirements.push(String::from_str("Top 1% holder"));
        let r = tier_entry("Platinum", 4, "50%", "Exclusive Events", requirements);
        proof {
            assert(r@ =~= spec_tier_config(tier_name@).unwrap());
        }
        Ok(r)
    } else {
        Err(ErrorCode::InvalidTier)
    }
}

/// The date-based cohort: the items among the first `limit` whose simulated
/// mint date (the collection's creation time plus one interval per index)
/// lies before the cutoff, in index order.
pub open spec fn spec_date_eligible(
    created_at: i64,
    limit: int,
    from_tier: Seq<char>,
) -> Seq<CnftInfoV>
    decreases limit,
{
    if limit <= 0 {
        Seq::empty()
    } else {
        let prefix = spec_date_eligible(created_at, limit - 1, from_tier);
        let date = created_at + (limit - 1) * (SIMULATED_MINT_INTERVAL as int);
        if date < MINT_DATE_CUTOFF {
            prefix.push(
                CnftInfoV {
                    leaf_index: (limit - 1) as u32,
                    current_tier: from_tier,
                    mint_date: date as i64,
                    owner: Seq::new(32, |i: int| 0u8),
                },
            )
        } else {
            prefix
        }
    }
}

/// One selected item at a fixed index with the collection's creation time
/// as its mint date.
pub open spec fn spec_plain_info(
    leaf_index: int,
    created_at: i64,
    from_tier: Seq<char>,
) -> CnftInfoV {
    CnftInfoV {
        leaf_index: leaf_index as u32,
        current_tier: from_tier,
        mint_date: created_at,
        owner: Seq::new(32, |i: int| 0u8),
    }
}

/// The number a request caps promotions at, or the given default.
pub open spec fn spec_max_promotions(req: &TierPromotionRequest, default: u32) -> u32 {
    match req.max_promotions {
        Some(m) => m,
        None => default,
    }
}

/// The items a criterion selects, as a function of the request and the
/// collection state alone. Selection is simulated deterministically from
/// the collection's counters; per-item state is owned by the external
/// tree-compression collaborator and is not consulted here.
pub open spec fn spec_eligible_cnfts(
    m: CollectionManagerV,
    req: &TierPromotionRequest,
) -> Option<Seq<CnftInfoV>> {
    let total = m.total_minted as int;
    if req.criteria@ == "mint_date_before_2024"@ {
        let limit = vstd::math::min(
            total,
            spec_max_promotions(req, DEFAULT_DATE_PROMOTIONS) as int,
        );
        Some(spec_date_eligible(m.created_at, limit, req.from_tier@))
    } else if req.criteria@ == "top_holders"@ {
        let limit = vstd::math::min(
            total,
            spec_max_promotions(req, DEFAULT_TOP_HOLDER_PROMOTIONS) as int,
        );
        Some(Seq::new(limit as nat, |j: int| spec_plain_info(j, m.created_at, req.from_tier@)))
    } else if req.criteria@ == "random_selection"@ {
        let maxp = spec_max_promotions(req, DEFAULT_RANDOM_PROMOTIONS) as int;
        let count = vstd::math::min(maxp, total);
        if count == 0 {
            Some(Seq::empty())
        } else {
            let step = total / count;
            Some(
                Seq::new(
                    count as nat,
                    |j: int| spec_plain_info(j * step, m.created_at, req.from_tier@),
                ),
            )
        }
    } else if req.criteria@ == "all_current_tier"@ {
        let limit = vstd::math::min(
            total,
            spec_max_promotions(req, m.total_minted as u32) as int,
        );
        Some(Seq::new(limit as nat, |j: int| spec_plain_info(j, m.created_at, req.from_tier@)))
    } else {
        None
    }
}

fn zero_owner() -> (r: [u8; 32])
    ensures
        r@ == Seq::new(32, |i: int| 0u8),
{
    let r = [0u8; 32];
    proof {
        assert(r@ =~= Seq::new(32, |i: int| 0u8));
    }
    r
}

/// Find the items eligible for promotion under the request's criterion.
/// An unknown criterion is surfaced, never defaulted; an empty selection
/// (including an empty collection) is a valid outcome.
#[verifier::loop_isolation(false)]
pub fn find_eligible_cnfts(
    promotion_request: &TierPromotionRequest,
    collection_manager: &CollectionManager,
) -> (r: Result<Vec<CnftInfo>, ErrorCode>)
    requires
        collection_manager.wf(),
    ensures
        match r {
            Ok(infos) => spec_eligible_cnfts(collection_manager@, promotion_request) == Some(
                infos@.map_values(|c: CnftInfo| c@),
            ) && infos@.len() <= collection_manager@.total_minted,
            Err(e) => spec_eligible_cnfts(collection_manager@, promotion_request) is None && e
                == ErrorCode::InvalidPromotionCriteria,
        },
{
    proof {
        vstd::arithmetic::power2::lemma2_to64();
    }
    let total64 = collection_manager.total_minted;
    let total = total64 as u32;
    let mut eligible: Vec<CnftInfo> = Vec::new();

    if promotion_request.criteria == String::from_str("mint_date_before_2024") {
        let maxp = match promotion_request.max_promotions {
            Some(m) => m,
            None => DEFAULT_DATE_PROMOTIONS,
        };
        let limit: u32 = if total < maxp {
            total
        } else {
            maxp
        };
        let mut leaf: u32 = 0;
        while leaf < limit
            invariant
                leaf <= limit,
                eligible@.len() <= leaf,
                eligible@.map_values(|c: CnftInfo| c@) == spec_date_eligible(
                    collection_manager@.created_at,
                    leaf as int,
                    promotion_request.from_tier@,
                ),
            decreases limit - leaf,
        {
            let date: i64 = collection_manager.created_at + (leaf as i64)
                * SIMULATED_MINT_INTERVAL;
            if date < MINT_DATE_CUTOFF {
                eligible.push(
                    CnftInfo {
                        leaf_index: leaf,
                        current_tier: promotion_request.from_tier.clone(),
                        mint_date: date,
                        owner: zero_owner(),
                    },
                );
            }
            proof {
                assert(eligible@.map_values(|c: CnftInfo| c@) =~= spec_date_eligible(
                    collection_manager@.created_at,
                    leaf as int + 1,
                    promotion_request.from_tier@,
                ));
            }
            leaf = leaf + 1;
        }
        Ok(eligible)
    } else if promotion_request.criteria == String::from_str("top_holders") {
        let maxp = match promotion_request.max_promotions {
            Some(m) => m,
            None => DEFAULT_TOP_HOLDER_PROMOTIONS,
        };
        let limit: u32 = if total < maxp {
            total
        } else {
            maxp
        };
        let mut leaf: u32 = 0;
        while leaf < limit
            invariant
                leaf <= limit,
                eligible@.len() == leaf,
                forall|j: int|
                    0 <= j < leaf ==> #[trigger] eligible@[j]@ == spec_plain_info(
                        j,
                        collection_manager@.created_at,
                        promotion_request.from_tier@,
                    ),
            decreases limit - leaf,
        {
            eligible.push(
                CnftInfo {
                    leaf_index: leaf,
                    current_tier: promotion_request.from_tier.clone(),
                    mint_date: collection_manager.created_at,
                    owner: zero_owner(),
                },
            );
            leaf = leaf + 1;
        }
        proof {
            assert(eligible@.map_values(|c: CnftInfo| c@) =~= spec_eligible_cnfts(
                collection_manager@,
                promotion_request,
            ).unwrap());
        }
        Ok(eligible)
    } else if promotion_request.criteria == String::from_str("random_selection") {
        let maxp = match promotion_request.max_promotions {
            Some(m) => m,
            None => DEFAULT_RANDOM_PROMOTIONS,
        };
        let count: u32 = if maxp < total {
            maxp
        } else {
            total
        };
        if count == 0 {
            proof {
                assert(eligible@.map_values(|c: CnftInfo| c@) =~= Seq::<CnftInfoV>::empty());
            }
            return Ok(eligible);
        }
        let step: u64 = total64 / (count as u64);
        let mut j: u32 = 0;
        while j < count
            invariant
                j <= count,
                eligible@.len() == j,
                step == total64 as int / count as int,
                forall|jj: int|
                    0 <= jj < j ==> #[trigger] eligible@[jj]@ == spec_plain_info(
                        jj * (step as int),
                        collection_manager@.created_at,
                        promotion_request.from_tier@,
                    ),
            decreases count - j,
        {
            proof {
                assert((j as int) * (step as int) <= (count as int - 1) * (step as int))
                    by (nonlinear_arith)
                    requires
                        0 <= j as int <= count as int - 1,
                        step >= 0,
                ;
                assert((count as int - 1) * (step as int) < total64 as int || total64 == 0)
                    by (nonlinear_arith)
                    requires
                        count >= 1,
                        step == total64 as int / count as int,
                        total64 >= 0,
                ;
            }
            let leaf: u32 = ((j as u64) * step) as u32;
            eligible.push(
                CnftInfo {
                    leaf_index: leaf,
                    current_tier: promotion_request.from_tier.clone(),
                    mint_date: collection_manager.created_at,
                    owner: zero_owner(),
                },
            );
            j = j + 1;
        }
        proof {
            assert(eligible@.map_values(|c: CnftInfo| c@) =~= spec_eligible_cnfts(
                collection_manager@,
                promotion_request,
            ).unwrap());
        }
        Ok(eligible)
    } else if promotion_request.criteria == String::from_str("all_current_tier") {
        let maxp = match promotion_request.max_promotions {
            Some(m) => m,
            None => total,
        };
        let limit: u32 = if total < maxp {
            total
        } else {
            maxp
        };
        let mut leaf: u32 = 0;
        while leaf < limit
            invariant
                leaf <= limit,
                eligible@.len() == leaf,
                forall|j: int|
                    0 <= j < leaf ==> #[trigger] eligible@[j]@ == spec_plain_info(
                        j,
                        collection_manager@.created_at,
                        promotion_request.from_tier@,
                    ),
            decreases limit - leaf,
        {
            eligible.push(
                CnftInfo {
                    leaf_index: leaf,
                    current_tier: promotion_request.from_tier.clone(),
                    mint_date: collection_manager.created_at,
                    owner: zero_owner(),
                },
            );
            leaf = leaf + 1;
        }
        proof {
            assert(eligible@.map_values(|c: CnftInfo| c@) =~= spec_eligible_cnfts(
                collection_manager@,
                promotion_request,
            ).unwrap());
        }
        Ok(eligible)
    } else {
        Err(ErrorCode::InvalidPromotionCriteria)
    }
}

/// One progress event of a tier promotion, emitted after each chunk.
#[derive(Debug)]
pub struct TierPromotionProgress {
    pub operation_id: String,
    pub from_tier: String,
    pub to_tier: String,
    pub items_processed: u32,
    pub items_total: u32,
    pub timestamp: i64,
}

#[verifier::ext_equal]
pub struct TierPromotionProgressV {
    pub operation_id: Seq<char>,
    pub from_tier: Seq<char>,
    pub to_tier: Seq<char>,
    pub items_processed: u32,
    pub items_total: u32,
    pub timestamp: i64,
}

impl View for TierPromotionProgress {
    type V = TierPromotionProgressV;

    open spec fn view(&self) -> TierPromotionProgressV {
        TierPromotionProgressV {
            operation_id: self.operation_id@,
            from_tier: self.from_tier@,
            to_tier: self.to_tier@,
            items_processed: self.items_processed,
            items_total: self.items_total,
            timestamp: self.timestamp,
        }
    }
}

/// Record of a completed tier promotion, for monitoring.
#[derive(Debug)]
pub struct TierPromotionCompleted {
    pub collection_manager: [u8; 32],
    pub operation_id: String,
    pub from_tier: String,
    pub to_tier: String,
    pub items_promoted: u32,
    pub criteria: String,
    pub duration_seconds: i64,
    pub timestamp: i64,
}

/// The stored status record of one bulk operation, with its bump seed.
#[derive(Debug)]
pub struct OperationStatusAccount {
    pub status: OperationStatus,
    pub bump: u8,
}

#[verifier::ext_equal]
pub struct OperationStatusAccountV {
    pub status: OperationStatusV,
    pub bump: u8,
}

impl View for OperationStatusAccount {
    type V = OperationStatusAccountV;

    open spec fn view(&self) -> OperationStatusAccountV {
        OperationStatusAccountV { status: self.status@, bump: self.bump }
    }
}

pub const OPERATION_STATUS_ACCOUNT_SIZE: usize = 8
    + crate::collection_manager::OPERATION_STATUS_SIZE + 1;

/// The first check of a promotion request that fails, if any: both tiers
/// must exist, the target tier must be strictly higher, and the criterion
/// must be a known one.
pub open spec fn spec_promotion_error(
    m: CollectionManagerV,
    req: &TierPromotionRequest,
) -> Option<ErrorCode> {
    if spec_tier_config(req.from_tier@) is None || spec_tier_config(req.to_tier@) is None {
        Some(ErrorCode::InvalidTier)
    } else if spec_tier_config(req.to_tier@).unwrap().level <= spec_tier_config(
        req.from_tier@,
    ).unwrap().level {
        Some(ErrorCode::InvalidTierPromotion)
    } else if spec_eligible_cnfts(m, req) is None {
        Some(ErrorCode::InvalidPromotionCriteria)
    } else {
        None
    }
}

/// The progress events of a completed promotion over `total` items in
/// chunks of `chunk`: one per chunk, with the running count of items
/// processed.
pub open spec fn spec_promotion_events_ok(
    events: Seq<TierPromotionProgressV>,
    req: &TierPromotionRequest,
    total: int,
    chunk: int,
    now: i64,
) -> bool {
    &&& events.len() == spec_num_chunks(total, chunk)
    &&& forall|k: int|
        0 <= k < events.len() ==> {
            let processed = if (k + 1) * chunk <= total {
                (k + 1) * chunk
            } else {
                total
            };
            #[trigger] events[k] == (TierPromotionProgressV {
                operation_id: req.operation_id@,
                from_tier: req.from_tier@,
                to_tier: req.to_tier@,
                items_processed: processed as u32,
                items_total: total as u32,
                timestamp: now,
            })
        }
}

/// Run a tier promotion: validate the tiers and the criterion, resolve the
/// eligible items, then process them in chunks, emitting one progress event
/// per chunk.
///
/// A rejected request produces no status record and no events. An accepted
/// one returns a `Completed` status record whose processed and total counts
/// both equal the number of eligible items, stamped with the start and
/// completion time; an empty selection completes immediately with no
/// events. The collection state itself is read, never written: per-item
/// tier state lives with the external tree-compression collaborator.
#[verifier::loop_isolation(false)]
pub fn tier_promotion_handler(
    collection_manager: &CollectionManager,
    promotion_request: &TierPromotionRequest,
    now: i64,
    bump: u8,
) -> (r: Result<(OperationStatusAccount, Vec<TierPromotionProgress>), ErrorCode>)
    requires
        collection_manager.wf(),
    ensures
        match r {
            Err(e) => spec_promotion_error(collection_manager@, promotion_request) == Some(e),
            Ok((status, events)) => {
                let eligible = spec_eligible_cnfts(
                    collection_manager@,
                    promotion_request,
                ).unwrap();
                &&& spec_promotion_error(collection_manager@, promotion_request) is None
                &&& status@.status == (OperationStatusV {
                    operation_id: promotion_request.operation_id@,
                    operation_type: OperationType::TierPromotion,
                    status: Status::Completed,
                    items_processed: eligible.len() as u32,
                    items_total: eligible.len() as u32,
                    started_at: now,
                    completed_at: Some(now),
                    error_message: None,
                })
                &&& status@.bump == bump
                &&& spec_promotion_events_ok(
                    events@.map_values(|e: TierPromotionProgress| e@),
                    promotion_request,
                    eligible.len() as int,
                    collection_manager@.config.chunk_size as int,
                    now,
                )
            },
        },
{
    let from_tier_config = match get_tier_config(promotion_request.from_tier.as_str()) {
        Ok(c) => c,
        Err(e) => {
            return Err(e);
        },
    };
    let to_tier_config = match get_tier_config(promotion_request.to_tier.as_str()) {
        Ok(c) => c,
        Err(e) => {
            return Err(e);
        },
    };
    if to_tier_config.level <= from_tier_config.level {
        return Err(ErrorCode::InvalidTierPromotion);
    }

    let eligible = match find_eligible_cnfts(promotion_request, collection_manager) {
        Ok(infos) => infos,
        Err(e) => {
            return Err(e);
        },
    };
    proof {
        vstd::arithmetic::power2::lemma2_to64();
        assert(eligible@.map_values(|c: CnftInfo| c@).len() == eligible@.len());
    }
    let total: u32 = eligible.len() as u32;

    let mut events: Vec<TierPromotionProgress> = Vec::new();

    if eligible.len() == 0 {
        let status = OperationStatusAccount {
            status: OperationStatus {
                operation_id: promotion_request.operation_id.clone(),
                operation_type: OperationType::TierPromotion,
                status: Status::Completed,
                items_processed: 0,
                items_total: 0,
                started_at: now,
                completed_at: Some(now),
                error_message: None,
            },
            bump,
        };
        proof {
            assert((collection_manager@.config.chunk_size as int - 1)
                / collection_manager@.config.chunk_size as int == 0) by (nonlinear_arith)
                requires
                    collection_manager@.config.chunk_size >= 1,
            ;
            assert(events@.map_values(|e: TierPromotionProgress| e@) =~= Seq::<
                TierPromotionProgressV,
            >::empty());
        }
        return Ok((status, events));
    }

    let chunk_size: u32 = collection_manager.config.chunk_size;
    let ghost chunk = chunk_size as int;
    let mut items_processed: u32 = 0;
    let ghost mut k: int = 0;

    while items_processed < total
        invariant
            events@.len() == k,
            k >= 0,
            items_processed <= total,
            items_processed as int == if k * chunk <= total as int {
                k * chunk
            } else {
                total as int
            },
            k == 0 || (k - 1) * chunk < total as int,
            forall|j: int|
                0 <= j < k ==> {
                    let processed = if (j + 1) * chunk <= total as int {
                        (j + 1) * chunk
                    } else {
                        total as int
                    };
                    #[trigger] events@[j]@ == (TierPromotionProgressV {
                        operation_id: promotion_request.operation_id@,
                        from_tier: promotion_request.from_tier@,
                        to_tier: promotion_request.to_tier@,
                        items_processed: processed as u32,
                        items_total: total,
                        timestamp: now,
                    })
                },
        decreases total - items_processed,
    {
        let next: u32 = if total - items_processed < chunk_size {
            total
        } else {
            items_processed + chunk_size
        };
        proof {
            assert(k * chunk < total as int);
            assert((k + 1) * chunk == k * chunk + chunk) by (nonlinear_arith);
        }
        items_processed = next;
        events.push(
            TierPromotionProgress {
                operation_id: promotion_request.operation_id.clone(),
                from_tier: promotion_request.from_tier.clone(),
                to_tier: promotion_request.to_tier.clone(),
                items_processed,
                items_total: total,
                timestamp: now,
            },
        );
        proof {
            k = k + 1;
        }
    }

    proof {
        assert(k * chunk >= total as int);
        lemma_ceil_div_exact(total as int, chunk, k);
        let mapped = events@.map_values(|e: TierPromotionProgress| e@);
        assert forall|j: int| 0 <= j < mapped.len() implies mapped[j] == events@[j]@ by {}
    }

    let status = OperationStatusAccount {
        status: OperationStatus {
            operation_id: promotion_request.operation_id.clone(),
            operation_type: OperationType::TierPromotion,
            status: Status::Completed,
            items_processed: total,
            items_total: total,
            started_at: now,
            completed_at: Some(now),
            error_message: None,
        },
        bump,
    };
    Ok((status, events))
}

} // verus!
