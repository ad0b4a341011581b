use vstd::prelude::*;
use vstd::arithmetic::power2::pow2;
use vstd::bits::{lemma_u64_pow2_no_overflow, lemma_u64_shl_is_mul};
use crate::errors::ErrorCode;
use crate::strfmt::{lower_of, spec_dec_u64, to_lowercase_string, u64_to_dec};

verus! {

// Stored sizes of the records, string and list fields at their maximums,
// the manager with its 8-byte account discriminator.
pub const MASS_OPERATION_FEES_SIZE: usize = 8 + 8 + 8 + 32;
pub const MASSIVE_TREE_CONFIG_SIZE: usize = 4 + 4 + 4 + 4 + (1 + MASS_OPERATION_FEES_SIZE);
pub const THEME_CONFIG_SIZE: usize = (4 + 32) + (4 + 128) + (4 + 5 * (4 + 32 + 4 + 64)) + 8;
pub const TIER_CONFIG_SIZE: usize = (4 + 32) + 1 + (4 + 3 * (4 + 32 + 4 + 64)) + (4 + 3 * (4
    + 128));
pub const COLLECTION_MANAGER_SIZE: usize = 8 + 32 + 32 + 32 + MASSIVE_TREE_CONFIG_SIZE
    + THEME_CONFIG_SIZE + (4 + 5 * THEME_CONFIG_SIZE) + 8 + 8 + 8 + 1 + 1 + 64;
pub const OPERATION_STATUS_SIZE: usize = 4 + 32 + 1 + 1 + 4 + 4 + 8 + 1 + 8 + 1 + 4 + 200;

// Most themes a collection can hold
pub const MAX_THEMES: usize = 5;

// Most attributes a theme can hold
pub const MAX_THEME_ATTRIBUTES: usize = 5;

// Upper bound on creation timestamps the manager accepts, so that
// per-item date arithmetic over the whole logical capacity stays in range
pub const MAX_CREATED_AT: i64 = 0x4000_0000_0000_0000;

/// Fee structure for massive operations.
#[derive(Debug)]
pub struct MassOperationFees {
    pub mint_fee: u64,
    pub batch_update_fee: u64,
    pub theme_change_fee: u64,
    pub fee_recipient: [u8; 32],
}

#[verifier::ext_equal]
pub struct MassOperationFeesV {
    pub mint_fee: u64,
    pub batch_update_fee: u64,
    pub theme_change_fee: u64,
    pub fee_recipient: Seq<u8>,
}

impl View for MassOperationFees {
    type V = MassOperationFeesV;

    open spec fn view(&self) -> MassOperationFeesV {
        MassOperationFeesV {
            mint_fee: self.mint_fee,
            batch_update_fee: self.batch_update_fee,
            theme_change_fee: self.theme_change_fee,
            fee_recipient: self.fee_recipient@,
        }
    }
}

/// Configuration for massive-scale operations.
#[derive(Debug)]
pub struct MassiveTreeConfig {
    /// Maximum tree depth; the logical capacity is two to this power
    pub max_depth: u32,
    /// Maximum buffer size for efficient operations
    pub max_buffer_size: u32,
    /// Optimal batch size for this collection
    pub batch_size: u32,
    /// Chunk size for processing large batches
    pub chunk_size: u32,
    /// Fee configuration
    pub fee_config: Option<MassOperationFees>,
}

#[verifier::ext_equal]
pub struct MassiveTreeConfigV {
    pub max_depth: u32,
    pub max_buffer_size: u32,
    pub batch_size: u32,
    pub chunk_size: u32,
    pub fee_config: Option<MassOperationFeesV>,
}

impl View for MassiveTreeConfig {
    type V = MassiveTreeConfigV;

    open spec fn view(&self) -> MassiveTreeConfigV {
        MassiveTreeConfigV {
            max_depth: self.max_depth,
            max_buffer_size: self.max_buffer_size,
            batch_size: self.batch_size,
            chunk_size: self.chunk_size,
            fee_config: match self.fee_config {
                Some(f) => Some(f@),
                None => None,
            },
        }
    }
}

/// Theme configuration for dynamic metadata.
#[derive(Debug)]
pub struct ThemeConfig {
    /// Theme name
    pub name: String,
    /// Base URI for this theme's metadata
    pub base_uri: String,
    /// Additional attributes of this theme
    pub attributes: Vec<(String, String)>,
    /// Theme creation timestamp
    pub created_at: i64,
}

#[verifier::ext_equal]
pub struct ThemeConfigV {
    pub name: Seq<char>,
    pub base_uri: Seq<char>,
    pub attributes: Seq<(Seq<char>, Seq<char>)>,
    pub created_at: i64,
}

impl View for ThemeConfig {
    type V = ThemeConfigV;

    open spec fn view(&self) -> ThemeConfigV {
        ThemeConfigV {
            name: self.name@,
            base_uri: self.base_uri@,
            attributes: self.attributes@.map_values(|p: (String, String)| (p.0@, p.1@)),
            created_at: self.created_at,
        }
    }
}

/// The metadata URI of one item under a theme: the base URI, then the
/// lower-cased tier as a path segment when one is given, then the token id
/// as the file name.
pub open spec fn spec_metadata_uri(
    base_uri: Seq<char>,
    tier: Option<Seq<char>>,
    token_id: u64,
) -> Seq<char> {
    let tier_path = match tier {
        Some(t) => seq!['/'] + lower_of(t),
        None => Seq::<char>::empty(),
    };
    base_uri + tier_path + seq!['/'] + spec_dec_u64(token_id) + ".json"@
}

impl ThemeConfig {
    /// A new theme, stamped with the given creation time and no attributes.
    pub fn new(name: String, base_uri: String, now: i64) -> (r: ThemeConfig)
        ensures
            r@.name == name@,
            r@.base_uri == base_uri@,
            r@.attributes == Seq::<(Seq<char>, Seq<char>)>::empty(),
            r@.created_at == now,
    {
        let r = ThemeConfig { name, base_uri, attributes: Vec::new(), created_at: now };
        proof {
            assert(r@.attributes =~= Seq::<(Seq<char>, Seq<char>)>::empty());
        }
        r
    }

    /// Add one attribute, up to the attribute bound.
    pub fn add_attribute(&mut self, key: String, value: String) -> (r: Result<(), ErrorCode>)
        ensures
            old(self)@.attributes.len() >= MAX_THEME_ATTRIBUTES ==> r == Err::<(), ErrorCode>(
                ErrorCode::TooManyAttributes,
            ) && final(self)@ == old(self)@,
            old(self)@.attributes.len() < MAX_THEME_ATTRIBUTES ==> r == Ok::<(), ErrorCode>(())
                && final(self)@ == (ThemeConfigV {
                attributes: old(self)@.attributes.push((key@, value@)),
                ..old(self)@
            }),
    {
        if self.attributes.len() >= MAX_THEME_ATTRIBUTES {
            return Err(ErrorCode::TooManyAttributes);
        }
        self.attributes.push((key, value));
        proof {
            assert(self@.attributes =~= old(self)@.attributes.push(
                (self.attributes@.last().0@, self.attributes@.last().1@),
            ));
        }
        Ok(())
    }

    /// A deep copy with the same contents.
    #[verifier::loop_isolation(false)]
    pub fn clone_theme(&self) -> (r: ThemeConfig)
        ensures
            r@ == self@,
    {
        let mut attributes: Vec<(String, String)> = Vec::new();
        let mut i: usize = 0;
        while i < self.attributes.len()
            invariant
                i <= self.attributes@.len(),
                attributes@.len() == i,
                forall|j: int|
                    0 <= j < i ==> attributes@[j].0@ == self.attributes@[j].0@
                        && attributes@[j].1@ == self.attributes@[j].1@,
            decreases self.attributes@.len() - i,
        {
            let pair = (self.attributes[i].0.clone(), self.attributes[i].1.clone());
            attributes.push(pair);
            i = i + 1;
        }
        let r = ThemeConfig {
            name: self.name.clone(),
            base_uri: self.base_uri.clone(),
            attributes,
            created_at: self.created_at,
        };
        proof {
            assert(r@.attributes =~= self@.attributes);
            assert(r@ =~= self@);
        }
        r
    }

    /// The metadata URI for one item, under this theme and an optional tier.
    pub fn generate_metadata_uri(&self, token_id: u64, tier: Option<&str>) -> (r: String)
        ensures
            r@ == spec_metadata_uri(
                self@.base_uri,
                match tier {
                    Some(t) => Some(t@),
                    None => None,
                },
                token_id,
            ),
    {
        proof {
            reveal_strlit("/");
            reveal_strlit(".json");
        }
        let mut s = self.base_uri.clone();
        match tier {
            Some(t) => {
                s.append("/");
                let lowered = to_lowercase_string(t);
                s.append(lowered.as_str());
            },
            None => {},
        }
        s.append("/");
        let id = u64_to_dec(token_id);
        s.append(id.as_str());
        s.append(".json");
        proof {
            assert(s@ =~= spec_metadata_uri(
                self@.base_uri,
                match tier {
                    Some(t) => Some(t@),
                    None => None,
                },
                token_id,
            ));
        }
        s
    }
}

/// Tier information for items.
#[derive(Debug)]
pub struct TierConfig {
    /// Tier name
    pub name: String,
    /// Tier level (higher is better)
    pub level: u8,
    /// Additional attributes of this tier
    pub attributes: Vec<(String, String)>,
    /// Requirements to achieve this tier
    pub requirements: Vec<String>,
}

#[verifier::ext_equal]
pub struct TierConfigV {
    pub name: Seq<char>,
    pub level: u8,
    pub attributes: Seq<(Seq<char>, Seq<char>)>,
    pub requirements: Seq<Seq<char>>,
}

impl View for TierConfig {
    type V = TierConfigV;

    open spec fn view(&self) -> TierConfigV {
        TierConfigV {
            name: self.name@,
            level: self.level,
            attributes: self.attributes@.map_values(|p: (String, String)| (p.0@, p.1@)),
            requirements: self.requirements@.map_values(|s: String| s@),
        }
    }
}

/// The logical capacity of a collection with the given tree depth.
pub open spec fn spec_capacity(max_depth: u32) -> int {
    pow2(max_depth as nat) as int
}

/// Collection manager for massive-scale collections: millions of items,
/// dynamic themes, batch operations.
#[derive(Debug)]
pub struct CollectionManager {
    /// Authority who can manage the collection
    pub authority: [u8; 32],
    /// Merkle tree storing the items
    pub merkle_tree: [u8; 32],
    /// Tree authority derived address
    pub tree_authority: [u8; 32],
    /// Configuration for massive operations
    pub config: MassiveTreeConfig,
    /// Current theme configuration
    pub current_theme: ThemeConfig,
    /// Alternative themes available
    pub available_themes: Vec<ThemeConfig>,
    /// Total number of items minted
    pub total_minted: u64,
    /// Collection creation timestamp
    pub created_at: i64,
    /// Last update timestamp
    pub last_update: i64,
    /// Whether the collection is active
    pub is_active: bool,
    /// Bump seed of the derived account address
    pub bump: u8,
    /// Reserved space for future upgrades
    pub reserved: [u8; 64],
}

#[verifier::ext_equal]
pub struct CollectionManagerV {
    pub authority: Seq<u8>,
    pub merkle_tree: Seq<u8>,
    pub tree_authority: Seq<u8>,
    pub config: MassiveTreeConfigV,
    pub current_theme: ThemeConfigV,
    pub available_themes: Seq<ThemeConfigV>,
    pub total_minted: u64,
    pub created_at: i64,
    pub last_update: i64,
    pub is_active: bool,
    pub bump: u8,
    pub reserved: Seq<u8>,
}

impl View for CollectionManager {
    type V = CollectionManagerV;

    open spec fn view(&self) -> CollectionManagerV {
        CollectionManagerV {
            authority: self.authority@,
            merkle_tree: self.merkle_tree@,
            tree_authority: self.tree_authority@,
            config: self.config@,
            current_theme: self.current_theme@,
            available_themes: self.available_themes@.map_values(|t: ThemeConfig| t@),
            total_minted: self.total_minted,
            created_at: self.created_at,
            last_update: self.last_update,
            is_active: self.is_active,
            bump: self.bump,
            reserved: self.reserved@,
        }
    }
}

/// Well-formedness of a collection manager, established by initialization
/// and preserved by every mutation: the tree configuration within the
/// massive-scale bounds, a positive chunk size, never more items issued
/// than the logical capacity, the theme list within its bound, and a sane
/// creation time.
pub open spec fn spec_manager_wf(m: CollectionManagerV) -> bool {
    &&& 20 <= m.config.max_depth <= 24
    &&& 64 <= m.config.max_buffer_size <= 512
    &&& 100 <= m.config.batch_size <= 2000
    &&& m.config.chunk_size >= 1
    &&& m.total_minted <= spec_capacity(m.config.max_depth)
    &&& m.available_themes.len() <= MAX_THEMES
    &&& 0 <= m.created_at < MAX_CREATED_AT
}

/// The first available theme with the given name, scanning in order.
pub open spec fn spec_find_theme(themes: Seq<ThemeConfigV>, name: Seq<char>, i: int) -> Option<int>
    decreases themes.len() - i,
{
    if i < 0 || i >= themes.len() {
        None
    } else if themes[i].name == name {
        Some(i)
    } else {
        spec_find_theme(themes, name, i + 1)
    }
}

pub proof fn lemma_find_theme_skip(themes: Seq<ThemeConfigV>, name: Seq<char>, i: int)
    requires
        0 <= i <= themes.len(),
        forall|j: int| 0 <= j < i ==> themes[j].name != name,
    ensures
        spec_find_theme(themes, name, 0) == spec_find_theme(themes, name, i),
    decreases i,
{
    if i > 0 {
        lemma_find_theme_skip(themes, name, i - 1);
    }
}

impl CollectionManager {
    /// Well-formedness of this manager.
    pub open spec fn wf(&self) -> bool {
        spec_manager_wf(self@)
    }

    /// The logical capacity: two to the configured depth.
    pub fn capacity(&self) -> (r: u64)
        requires
            self.wf(),
        ensures
            r == spec_capacity(self@.config.max_depth),
    {
        proof {
            lemma_u64_pow2_no_overflow(self.config.max_depth as nat);
            lemma_u64_shl_is_mul(1u64, self.config.max_depth as u64);
        }
        1u64 << (self.config.max_depth as u64)
    }

    /// Whether the collection can issue `count` more items without passing
    /// its logical capacity.
    pub fn can_mint(&self, count: u64) -> (r: bool)
        requires
            self.wf(),
        ensures
            r == (self@.total_minted + count <= spec_capacity(self@.config.max_depth)),
    {
        let cap = self.capacity();
        count <= cap - self.total_minted
    }

    /// Issue `count` more items. Fails with `CollectionFull` exactly when
    /// the count would pass the logical capacity, and then changes nothing:
    /// the issued total is never partially updated.
    pub fn increment_minted(&mut self, count: u64, now: i64) -> (r: Result<(), ErrorCode>)
        requires
            old(self).wf(),
        ensures
            final(self).wf(),
            old(self)@.total_minted + count > spec_capacity(old(self)@.config.max_depth) ==> r
                == Err::<(), ErrorCode>(ErrorCode::CollectionFull) && final(self)@ == old(self)@,
            old(self)@.total_minted + count <= spec_capacity(old(self)@.config.max_depth) ==> r
                == Ok::<(), ErrorCode>(()) && final(self)@ == (CollectionManagerV {
                total_minted: (old(self)@.total_minted + count) as u64,
                last_update: now,
                ..old(self)@
            }),
    {
        if !self.can_mint(count) {
            return Err(ErrorCode::CollectionFull);
        }
        proof {
            lemma_u64_pow2_no_overflow(self.config.max_depth as nat);
        }
        self.total_minted = self.total_minted + count;
        self.last_update = now;
        Ok(())
    }

    /// Add a theme to the available themes: rejected beyond the theme bound
    /// or when a theme of that name already exists, with no effect.
    #[verifier::loop_isolation(false)]
    pub fn add_theme(&mut self, theme: ThemeConfig, now: i64) -> (r: Result<(), ErrorCode>)
        requires
            old(self).wf(),
        ensures
            final(self).wf(),
            old(self)@.available_themes.len() >= MAX_THEMES ==> r == Err::<(), ErrorCode>(
                ErrorCode::TooManyThemes,
            ) && final(self)@ == old(self)@,
            old(self)@.available_themes.len() < MAX_THEMES && (exists|i: int|
                0 <= i < old(self)@.available_themes.len() && old(self)@.available_themes[i].name
                    == theme@.name) ==> r == Err::<(), ErrorCode>(ErrorCode::DuplicateTheme)
                && final(self)@ == old(self)@,
            old(self)@.available_themes.len() < MAX_THEMES && (forall|i: int|
                0 <= i < old(self)@.available_themes.len()
                    ==> old(self)@.available_themes[i].name != theme@.name) ==> r == Ok::<
                (),
                ErrorCode,
            >(()) && final(self)@ == (CollectionManagerV {
                available_themes: old(self)@.available_themes.push(theme@),
                last_update: now,
                ..old(self)@
            }),
    {
        if self.available_themes.len() >= MAX_THEMES {
            return Err(ErrorCode::TooManyThemes);
        }
        let mut i: usize = 0;
        while i < self.available_themes.len()
            invariant
                i <= self.available_themes@.len(),
                forall|j: int| 0 <= j < i ==> self@.available_themes[j].name != theme@.name,
            decreases self.available_themes@.len() - i,
        {
            if self.available_themes[i].name == theme.name {
                proof {
                    let wi = i as int;
                    assert(self@.available_themes[wi].name == theme@.name);
                }
                return Err(ErrorCode::DuplicateTheme);
            }
            i = i + 1;
        }
        self.available_themes.push(theme);
        self.last_update = now;
        proof {
            let f = |t: ThemeConfig| t@;
            assert(self@.available_themes =~= old(self)@.available_themes.push(
                self.available_themes@.last()@,
            ));
        }
        Ok(())
    }

    /// Switch the current theme to the first available theme with the given
    /// name; `ThemeNotFound` with no effect when none has it.
    #[verifier::loop_isolation(false)]
    pub fn switch_theme(&mut self, theme_name: &str, now: i64) -> (r: Result<(), ErrorCode>)
        requires
            old(self).wf(),
        ensures
            final(self).wf(),
            match spec_find_theme(old(self)@.available_themes, theme_name@, 0) {
                None => r == Err::<(), ErrorCode>(ErrorCode::ThemeNotFound) && final(self)@ == old(
                    self,
                )@,
                Some(i) => r == Ok::<(), ErrorCode>(()) && final(self)@ == (CollectionManagerV {
                    current_theme: old(self)@.available_themes[i],
                    last_update: now,
                    ..old(self)@
                }),
            },
    {
        let ghost themes0 = self@.available_themes;
        let wanted = String::from_str(theme_name);
        let mut i: usize = 0;
        while i < self.available_themes.len()
            invariant
                i <= self.available_themes@.len(),
                self@ == old(self)@,
                self@.available_themes == themes0,
                forall|j: int| 0 <= j < i ==> themes0[j].name != theme_name@,
            decreases self.available_themes@.len() - i,
        {
            if self.available_themes[i].name == wanted {
                proof {
                    lemma_find_theme_skip(themes0, theme_name@, i as int);
                }
                let found = self.available_themes[i].clone_theme();
                self.current_theme = found;
                self.last_update = now;
                return Ok(());
            }
            i = i + 1;
        }
        proof {
            lemma_find_theme_skip(themes0, theme_name@, themes0.len() as int);
        }
        Err(ErrorCode::ThemeNotFound)
    }
}

/// Operation kinds tracked by the status ledger.
#[derive(Clone, Copy, Debug, PartialEq, Eq, Structural)]
pub enum OperationType {
    MassMint,
    BatchThemeUpdate,
    TierPromotion,
    CollectionMigration,
}

/// The lifecycle states of a bulk operation. `Completed` and `Failed` are
/// terminal.
#[derive(Clone, Copy, Debug, PartialEq, Eq, Structural)]
pub enum Status {
    Pending,
    InProgress,
    Completed,
    Failed,
    Paused,
}

/// Persisted progress and status record of one bulk operation. Only the
/// owning engine invocation writes it.
#[derive(Debug)]
pub struct OperationStatus {
    /// Unique operation id
    pub operation_id: String,
    /// Operation kind
    pub operation_type: OperationType,
    /// Current status
    pub status: Status,
    /// Items processed so far
    pub items_processed: u32,
    /// Total items to process
    pub items_total: u32,
    /// Start timestamp
    pub started_at: i64,
    /// Completion timestamp
    pub completed_at: Option<i64>,
    /// Error message if failed
    pub error_message: Option<String>,
}

#[verifier::ext_equal]
pub struct OperationStatusV {
    pub operation_id: Seq<char>,
    pub operation_type: OperationType,
    pub status: Status,
    pub items_processed: u32,
    pub items_total: u32,
    pub started_at: i64,
    pub completed_at: Option<i64>,
    pub error_message: Option<Seq<char>>,
}

impl View for OperationStatus {
    type V = OperationStatusV;

    open spec fn view(&self) -> OperationStatusV {
        OperationStatusV {
            operation_id: self.operation_id@,
            operation_type: self.operation_type,
            status: self.status,
            items_processed: self.items_processed,
            items_total: self.items_total,
            started_at: self.started_at,
            completed_at: self.completed_at,
            error_message: match self.error_message {
                Some(ref m) => Some(m@),
                None => None,
            },
        }
    }
}

} // verus!
