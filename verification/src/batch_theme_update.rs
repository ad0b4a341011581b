use vstd::prelude::*;
use crate::collection_manager::{
    spec_find_theme, CollectionManager, CollectionManagerV, ThemeConfigV,
};
use crate::errors::ErrorCode;

verus! {

/// A batch theme update request: apply a named theme across a range of the
/// collection, or across all of it.
#[derive(Debug)]
pub struct BatchThemeUpdateRequest {
    /// Unique operation id for tracking
    pub operation_id: String,
    /// New theme name to apply
    pub new_theme: String,
    /// Optional tier (for tier-specific theming)
    pub tier: Option<String>,
    /// Target range [start, end); `None` means the entire collection
    pub target_range: Option<(u32, u32)>,
    /// Whether to update progressively (for very large collections)
    pub progressive_update: bool,
    /// Custom attributes to add or update
    pub custom_attributes: Vec<(String, String)>,
}

impl BatchThemeUpdateRequest {
    /// A request to re-theme the entire collection.
    pub fn update_entire_collection(operation_id: String, new_theme: String) -> (r:
        BatchThemeUpdateRequest)
        ensures
            r.operation_id@ == operation_id@,
            r.new_theme@ == new_theme@,
            r.tier is None,
            r.target_range is None,
            r.progressive_update,
            r.custom_attributes@.len() == 2,
    {
        let mut custom_attributes: Vec<(String, String)> = Vec::new();
        custom_attributes.push(
            (String::from_str("Mass Update"), String::from_str("True")),
        );
        custom_attributes.push(
            (String::from_str("Update Type"), String::from_str("Global Theme Change")),
        );
        BatchThemeUpdateRequest {
            operation_id,
            new_theme,
            tier: None,
            target_range: None,
            progressive_update: true,
            custom_attributes,
        }
    }

    /// A request for a tier-specific update over an explicit range.
    pub fn update_tier(
        operation_id: String,
        new_theme: String,
        tier: String,
        start_index: u32,
        end_index: u32,
    ) -> (r: BatchThemeUpdateRequest)
        ensures
            r.operation_id@ == operation_id@,
            r.new_theme@ == new_theme@,
            r.tier matches Some(t) && t@ == tier@,
            r.target_range == Some((start_index, end_index)),
            r.progressive_update,
            r.custom_attributes@.len() == 2,
    {
        let mut custom_attributes: Vec<(String, String)> = Vec::new();
        custom_attributes.push((String::from_str("Tier Update"), tier.clone()));
        custom_attributes.push(
            (String::from_str("Update Type"), String::from_str("Tier-Specific Theme Change")),
        );
        BatchThemeUpdateRequest {
            operation_id,
            new_theme,
            tier: Some(tier),
            target_range: Some((start_index, end_index)),
            progressive_update: true,
            custom_attributes,
        }
    }
}

/// One progress checkpoint, emitted after each committed chunk.
#[derive(Debug)]
pub struct BatchUpdateProgress {
    pub operation_id: String,
    pub items_processed: u32,
    pub items_total: u32,
    pub current_chunk_start: u32,
    pub current_chunk_end: u32,
    pub timestamp: i64,
}

#[verifier::ext_equal]
pub struct BatchUpdateProgressV {
    pub operation_id: Seq<char>,
    pub items_processed: u32,
    pub items_total: u32,
    pub current_chunk_start: u32,
    pub current_chunk_end: u32,
    pub timestamp: i64,
}

impl View for BatchUpdateProgress {
    type V = BatchUpdateProgressV;

    open spec fn view(&self) -> BatchUpdateProgressV {
        BatchUpdateProgressV {
            operation_id: self.operation_id@,
            items_processed: self.items_processed,
            items_total: self.items_total,
            current_chunk_start: self.current_chunk_start,
            current_chunk_end: self.current_chunk_end,
            timestamp: self.timestamp,
        }
    }
}

/// Record of a completed collection-wide theme update, for monitoring.
#[derive(Debug)]
pub struct MassiveThemeUpdateCompleted {
    pub collection_manager: [u8; 32],
    pub operation_id: String,
    pub old_theme: String,
    pub new_theme: String,
    pub items_updated: u32,
    pub total_supply: u64,
    pub duration_seconds: i64,
    pub timestamp: i64,
}

/// How many chunks a run over `total` items takes, at `chunk` items per
/// chunk (the last chunk may be partial).
pub open spec fn spec_num_chunks(total: int, chunk: int) -> int {
    (total + chunk - 1) / chunk
}

/// The checkpoints of one chunked run from `start` to `end`: one per chunk,
/// strictly in index order, each recording its chunk's bounds, the running
/// count of items processed since `start`, the run's total and the time.
pub open spec fn spec_checkpoints_ok(
    cps: Seq<BatchUpdateProgressV>,
    op_id: Seq<char>,
    start: int,
    end: int,
    chunk: int,
    now: i64,
) -> bool {
    &&& cps.len() == spec_num_chunks(end - start, chunk)
    &&& forall|k: int|
        0 <= k < cps.len() ==> {
            let cs = start + k * chunk;
            let ce = if cs + chunk <= end {
                cs + chunk
            } else {
                end
            };
            #[trigger] cps[k] == (BatchUpdateProgressV {
                operation_id: op_id,
                items_processed: (ce - start) as u32,
                items_total: (end - start) as u32,
                current_chunk_start: cs as u32,
                current_chunk_end: ce as u32,
                timestamp: now,
            })
        }
}

/// A run that stops at the `k`-th chunk boundary, having passed the
/// previous one, took exactly the ceiling number of chunks.
pub proof fn lemma_ceil_div_exact(total: int, chunk: int, k: int)
    by (nonlinear_arith)
    requires
        chunk >= 1,
        k >= 1,
        (k - 1) * chunk < total,
        total <= k * chunk,
    ensures
        (total + chunk - 1) / chunk == k,
{
}

/// Run one chunked pass over the index range [start_index, end_index),
/// committing whole chunks in strictly increasing index order and emitting
/// one checkpoint per chunk. Resumable at chunk granularity: the next chunk
/// is always derived from the items processed so far, never by revisiting a
/// committed one.
#[verifier::loop_isolation(false)]
pub fn run_chunked_update(
    operation_id: &String,
    start_index: u32,
    end_index: u32,
    chunk_size: u32,
    now: i64,
) -> (cps: Vec<BatchUpdateProgress>)
    requires
        start_index <= end_index,
        chunk_size >= 1,
    ensures
        spec_checkpoints_ok(
            cps@.map_values(|c: BatchUpdateProgress| c@),
            operation_id@,
            start_index as int,
            end_index as int,
            chunk_size as int,
            now,
        ),
{
    let ghost start = start_index as int;
    let ghost end = end_index as int;
    let ghost chunk = chunk_size as int;
    let total_items: u32 = end_index - start_index;
    let mut cps: Vec<BatchUpdateProgress> = Vec::new();
    let mut current_index: u32 = start_index;
    let ghost mut k: int = 0;

    while current_index < end_index
        invariant
            cps@.len() == k,
            k >= 0,
            start_index <= current_index <= end_index,
            current_index as int == if start + k * chunk <= end {
                start + k * chunk
            } else {
                end
            },
            k == 0 || start + (k - 1) * chunk < end,
            forall|j: int|
                0 <= j < k ==> {
                    let cs = start + j * chunk;
                    let ce = if cs + chunk <= end {
                        cs + chunk
                    } else {
                        end
                    };
                    #[trigger] cps@[j]@ == (BatchUpdateProgressV {
                        operation_id: operation_id@,
                        items_processed: (ce - start) as u32,
                        items_total: (end - start) as u32,
                        current_chunk_start: cs as u32,
                        current_chunk_end: ce as u32,
                        timestamp: now,
                    })
                },
        decreases end_index - current_index,
    {
        let chunk_end: u32 = if end_index - current_index < chunk_size {
            end_index
        } else {
            current_index + chunk_size
        };
        let items_processed: u32 = chunk_end - start_index;
        cps.push(
            BatchUpdateProgress {
                operation_id: operation_id.clone(),
                items_processed,
                items_total: total_items,
                current_chunk_start: current_index,
                current_chunk_end: chunk_end,
                timestamp: now,
            },
        );
        proof {
            assert(start + k * chunk < end);
            assert((k + 1) * chunk == k * chunk + chunk) by (nonlinear_arith);
        }
        current_index = chunk_end;
        proof {
            k = k + 1;
        }
    }
    proof {
        if k == 0 {
            assert(end == start);
            assert((chunk - 1) / chunk == 0) by (nonlinear_arith)
                requires
                    chunk >= 1,
            ;
        } else {
            assert(start + k * chunk >= end);
            lemma_ceil_div_exact(end - start, chunk, k);
        }
        let mapped = cps@.map_values(|c: BatchUpdateProgress| c@);
        assert forall|j: int| 0 <= j < mapped.len() implies mapped[j] == cps@[j]@ by {}
    }
    cps
}

/// The first check of a theme update request that fails, if any: the theme
/// must exist; an explicit range must be non-empty and lie within the items
/// issued so far.
pub open spec fn spec_theme_update_error(
    m: CollectionManagerV,
    req: &BatchThemeUpdateRequest,
) -> Option<ErrorCode> {
    if spec_find_theme(m.available_themes, req.new_theme@, 0) is None {
        Some(ErrorCode::ThemeNotFound)
    } else {
        match req.target_range {
            Some((s, e)) => {
                if s >= e {
                    Some(ErrorCode::InvalidRange)
                } else if e > m.total_minted {
                    Some(ErrorCode::RangeOutOfBounds)
                } else {
                    None
                }
            },
            None => None,
        }
    }
}

/// The index range a theme update covers: the explicit range when one is
/// given, the entire collection otherwise.
pub open spec fn spec_theme_update_range(
    m: CollectionManagerV,
    req: &BatchThemeUpdateRequest,
) -> (int, int) {
    match req.target_range {
        Some((s, e)) => (s as int, e as int),
        None => (0, m.total_minted as int),
    }
}

/// Apply a theme across the collection, in fixed-size chunks.
///
/// A rejected request (unknown theme, empty or out-of-bounds range) leaves
/// the manager untouched. An accepted one emits one checkpoint per chunk in
/// strictly increasing index order, and commits the theme switch only after
/// the final chunk: the checkpoints end with exactly `end - start` items
/// processed, and the stored theme and update time change only on success.
#[verifier::loop_isolation(false)]
pub fn batch_theme_update_handler(
    manager: &mut CollectionManager,
    request: &BatchThemeUpdateRequest,
    now: i64,
) -> (r: Result<Vec<BatchUpdateProgress>, ErrorCode>)
    requires
        old(manager).wf(),
    ensures
        final(manager).wf(),
        match spec_theme_update_error(old(manager)@, request) {
            Some(e) => r == Err::<Vec<BatchUpdateProgress>, ErrorCode>(e) && final(manager)@
                == old(manager)@,
            None => {
                let (start, end) = spec_theme_update_range(old(manager)@, request);
                let found = spec_find_theme(
                    old(manager)@.available_themes,
                    request.new_theme@,
                    0,
                ).unwrap();
                &&& r is Ok
                &&& spec_checkpoints_ok(
                    r.unwrap()@.map_values(|c: BatchUpdateProgress| c@),
                    request.operation_id@,
                    start,
                    end,
                    old(manager)@.config.chunk_size as int,
                    now,
                )
                &&& final(manager)@ == (CollectionManagerV {
                    current_theme: old(manager)@.available_themes[found],
                    last_update: now,
                    ..old(manager)@
                })
            },
        },
{
    proof {
        vstd::arithmetic::power2::lemma2_to64();
    }
    let theme_index = match find_theme_index(&manager.available_themes, &request.new_theme) {
        Some(i) => i,
        None => {
            return Err(ErrorCode::ThemeNotFound);
        },
    };

    let total_minted_u32: u32 = manager.total_minted as u32;
    let (start_index, end_index) = match &request.target_range {
        Some(range) => {
            let (s, e) = (range.0, range.1);
            if s >= e {
                return Err(ErrorCode::InvalidRange);
            }
            if e > total_minted_u32 {
                return Err(ErrorCode::RangeOutOfBounds);
            }
            (s, e)
        },
        None => (0u32, total_minted_u32),
    };

    let cps = run_chunked_update(
        &request.operation_id,
        start_index,
        end_index,
        manager.config.chunk_size,
        now,
    );

    // the theme switch commits only after the final chunk
    let new_theme = manager.available_themes[theme_index].clone_theme();
    manager.current_theme = new_theme;
    manager.last_update = now;
    Ok(cps)
}

/// The per-item update a theme change computes: the item's new metadata URI
/// under the theme (and the request's tier, when one is given), and the
/// theme's attributes extended with the update time, an update counter, and
/// the tier.
pub open spec fn spec_cnft_update_attributes(
    theme: crate::collection_manager::ThemeConfigV,
    tier: Option<Seq<char>>,
    now: i64,
) -> Seq<(Seq<char>, Seq<char>)> {
    let base = theme.attributes + seq![
        ("Updated At"@, crate::strfmt::spec_dec_i64(now)),
        ("Update Count"@, "1"@),
    ];
    match tier {
        Some(t) => base.push(("Tier"@, t)),
        None => base,
    }
}

/// Compute the metadata update of one item under a new theme: its new URI
/// and its new attribute list.
#[verifier::loop_isolation(false)]
pub fn update_cnft_metadata(
    leaf_index: u32,
    new_theme_config: &crate::collection_manager::ThemeConfig,
    update_request: &BatchThemeUpdateRequest,
    now: i64,
) -> (r: (String, Vec<(String, String)>))
    ensures
        r.0@ == crate::collection_manager::spec_metadata_uri(
            new_theme_config@.base_uri,
            match update_request.tier {
                Some(ref t) => Some(t@),
                None => None,
            },
            leaf_index as u64,
        ),
        r.1@.map_values(|p: (String, String)| (p.0@, p.1@)) == spec_cnft_update_attributes(
            new_theme_config@,
            match update_request.tier {
                Some(ref t) => Some(t@),
                None => None,
            },
            now,
        ),
{
    let new_uri = match &update_request.tier {
        Some(t) => new_theme_config.generate_metadata_uri(leaf_index as u64, Some(t.as_str())),
        None => new_theme_config.generate_metadata_uri(leaf_index as u64, None),
    };

    let cloned = new_theme_config.clone_theme();
    let mut new_attributes = cloned.attributes;
    new_attributes.push(
        (String::from_str("Updated At"), crate::strfmt::i64_to_dec(now)),
    );
    new_attributes.push((String::from_str("Update Count"), String::from_str("1")));
    match &update_request.tier {
        Some(t) => {
            new_attributes.push((String::from_str("Tier"), t.clone()));
        },
        None => {},
    }
    proof {
        assert(new_attributes@.map_values(|p: (String, String)| (p.0@, p.1@))
            =~= spec_cnft_update_attributes(
            new_theme_config@,
            match update_request.tier {
                Some(ref t) => Some(t@),
                None => None,
            },
            now,
        ));
    }
    (new_uri, new_attributes)
}

/// The index of the first available theme with the given name, if any.
#[verifier::loop_isolation(false)]
pub fn find_theme_index(themes: &Vec<crate::collection_manager::ThemeConfig>, name: &String) -> (r:
    Option<usize>)
    ensures
        match r {
            Some(i) => spec_find_theme(
                themes@.map_values(|t: crate::collection_manager::ThemeConfig| t@),
                name@,
                0,
            ) == Some(i as int) && i < themes@.len(),
            None => spec_find_theme(
                themes@.map_values(|t: crate::collection_manager::ThemeConfig| t@),
                name@,
                0,
            ) is None,
        },
{
    let ghost tv = themes@.map_values(|t: crate::collection_manager::ThemeConfig| t@);
    let mut i: usize = 0;
    while i < themes.len()
        invariant
            i <= themes@.len(),
            forall|j: int| 0 <= j < i ==> tv[j].name != name@,
        decreases themes@.len() - i,
    {
        if themes[i].name == *name {
            proof {
                crate::collection_manager::lemma_find_theme_skip(tv, name@, i as int);
            }
            return Some(i);
        }
        i = i + 1;
    }
    proof {
        crate::collection_manager::lemma_find_theme_skip(tv, name@, tv.len() as int);
    }
    None
}

/// Resuming after `k` committed chunks processes exactly the remaining
/// items: a run whose start is the committed point `k * chunk` covers every
/// remaining index exactly once, never touches an index below the committed
/// point, and its final checkpoint reports exactly `end - k * chunk` items.
pub proof fn lemma_resume_processes_exactly_remaining(
    cps: Seq<BatchUpdateProgressV>,
    op_id: Seq<char>,
    k: int,
    end: int,
    chunk: int,
    now: i64,
)
    requires
        chunk >= 1,
        k >= 0,
        0 <= k * chunk <= end <= u32::MAX,
        spec_checkpoints_ok(cps, op_id, k * chunk, end, chunk, now),
    ensures
        cps.len() == spec_num_chunks(end - k * chunk, chunk),
        forall|j: int| 0 <= j < cps.len() ==> cps[j].current_chunk_start >= k * chunk,
        cps.len() > 0 ==> cps.last().items_processed == end - k * chunk,
        cps.len() == 0 ==> end == k * chunk,
{
    let start = k * chunk;
    let total = end - start;
    let n = cps.len() as int;
    lemma_num_chunks_covers(total, chunk);
    assert(n > 0 ==> total > 0) by {
        if total == 0 {
            assert((chunk - 1) / chunk == 0) by (nonlinear_arith)
                requires
                    chunk >= 1,
            ;
        }
    }
    assert forall|j: int| 0 <= j < cps.len() implies cps[j].current_chunk_start >= start by {
        assert(j * chunk >= 0) by (nonlinear_arith)
            requires
                j >= 0,
                chunk >= 1,
        ;
        let cs = start + j * chunk;
        assert(j * chunk <= (n - 1) * chunk) by (nonlinear_arith)
            requires
                j <= n - 1,
                chunk >= 1,
        ;
        assert(cs < end);
        assert(cps[j].current_chunk_start == cs as u32);
    }
    if cps.len() > 0 {
        assert((n - 1) * chunk == n * chunk - chunk) by (nonlinear_arith);
        let cs = start + (n - 1) * chunk;
        assert(n * chunk >= total);
        assert(cs + chunk >= end);
        assert(cps[n - 1].items_processed == (end - start) as u32);
        assert(cps.last() == cps[n - 1]);
    } else {
        assert(spec_num_chunks(total, chunk) == 0);
        assert(total == 0) by (nonlinear_arith)
            requires
                chunk >= 1,
                total >= 0,
                (total + chunk - 1) / chunk == 0,
        ;
    }
}

pub proof fn lemma_num_chunks_covers(total: int, chunk: int)
    by (nonlinear_arith)
    requires
        chunk >= 1,
        total >= 0,
    ensures
        spec_num_chunks(total, chunk) * chunk >= total,
        total > 0 ==> (spec_num_chunks(total, chunk) - 1) * chunk < total,
        spec_num_chunks(total, chunk) >= 0,
{
}

} // verus!
