use vstd::prelude::*;
use vstd::utf8::encode_utf8;
use vstd::bytes::{spec_u32_to_le_bytes, u32_to_le_bytes};
use crate::keys::{derive_program_address, pda_of, PROGRAM_ID};
use crate::strfmt::str_to_bytes;

verus! {

// Stored sizes of the records (string and list fields at their maximums);
// the account records carry an 8-byte discriminator.
pub const TREE_CONFIG_LEN: usize = 4 + 4 + 32 + 32 + 32;
pub const COLLECTION_METADATA_LEN: usize = (4 + 32) + (4 + 16) + (4 + 200) + 32 + 32
    + TREE_CONFIG_LEN;
pub const DAO_CONFIG_LEN: usize = 20 + 4 + 8 + 1;
pub const OAPP_STORE_LEN: usize = 8 + 32 + 32 + 32 + 1 + COLLECTION_METADATA_LEN + DAO_CONFIG_LEN
    + 8 + 8;
pub const PEER_CONFIG_LEN: usize = 8 + 4 + 32 + 1 + 1;
pub const LZ_RECEIVE_TYPES_LEN: usize = 8 + 32 + 4 + 32 + 1;
pub const LZ_COMPOSE_TYPES_LEN: usize = 8 + 32 + 4 + 32 + 1;

/// The derived-address seed of the store record.
pub open spec fn spec_store_seed() -> Seq<u8> {
    encode_utf8("Store"@)
}

/// The derived-address seed prefix of a peer record.
pub open spec fn spec_peer_seed() -> Seq<u8> {
    encode_utf8("Peer"@)
}

/// The derived-address seed prefix of the receive-types record.
pub open spec fn spec_lz_receive_types_seed() -> Seq<u8> {
    encode_utf8("LzReceiveTypes"@)
}

/// The derived-address seed prefix of the compose-types record.
pub open spec fn spec_lz_compose_types_seed() -> Seq<u8> {
    encode_utf8("LzComposeTypes"@)
}

/// Tree configuration of the compressed collection.
#[derive(Debug)]
pub struct TreeConfig {
    pub max_depth: u32,
    pub max_buffer_size: u32,
    pub tree_creator: [u8; 32],
    pub tree_delegate: [u8; 32],
    pub merkle_tree: [u8; 32],
}

#[verifier::ext_equal]
pub struct TreeConfigV {
    pub max_depth: u32,
    pub max_buffer_size: u32,
    pub tree_creator: Seq<u8>,
    pub tree_delegate: Seq<u8>,
    pub merkle_tree: Seq<u8>,
}

impl View for TreeConfig {
    type V = TreeConfigV;

    open spec fn view(&self) -> TreeConfigV {
        TreeConfigV {
            max_depth: self.max_depth,
            max_buffer_size: self.max_buffer_size,
            tree_creator: self.tree_creator@,
            tree_delegate: self.tree_delegate@,
            merkle_tree: self.merkle_tree@,
        }
    }
}

/// Collection metadata held in the store.
#[derive(Debug)]
pub struct CollectionMetadata {
    pub name: String,
    pub symbol: String,
    pub uri: String,
    pub mint_authority: [u8; 32],
    pub update_authority: [u8; 32],
    pub tree_config: TreeConfig,
}

#[verifier::ext_equal]
pub struct CollectionMetadataV {
    pub name: Seq<char>,
    pub symbol: Seq<char>,
    pub uri: Seq<char>,
    pub mint_authority: Seq<u8>,
    pub update_authority: Seq<u8>,
    pub tree_config: TreeConfigV,
}

impl View for CollectionMetadata {
    type V = CollectionMetadataV;

    open spec fn view(&self) -> CollectionMetadataV {
        CollectionMetadataV {
            name: self.name@,
            symbol: self.symbol@,
            uri: self.uri@,
            mint_authority: self.mint_authority@,
            update_authority: self.update_authority@,
            tree_config: self.tree_config@,
        }
    }
}

/// Governance configuration: the remote governing address and endpoint.
#[derive(Debug)]
pub struct DaoConfig {
    pub authorized_dao: [u8; 20],
    pub ethereum_eid: u32,
    pub voting_period: u64,
    pub quorum: u8,
}

#[verifier::ext_equal]
pub struct DaoConfigV {
    pub authorized_dao: Seq<u8>,
    pub ethereum_eid: u32,
    pub voting_period: u64,
    pub quorum: u8,
}

impl View for DaoConfig {
    type V = DaoConfigV;

    open spec fn view(&self) -> DaoConfigV {
        DaoConfigV {
            authorized_dao: self.authorized_dao@,
            ethereum_eid: self.ethereum_eid,
            voting_period: self.voting_period,
            quorum: self.quorum,
        }
    }
}

/// The main store record: admin settings, collection metadata, governance
/// configuration, and the replay cursor. The cursor (`nonce`) only ever
/// advances, and only after a message has passed every guard.
#[derive(Debug)]
pub struct OAppStore {
    /// Program admin authority
    pub admin: [u8; 32],
    /// The messaging endpoint program
    pub endpoint: [u8; 32],
    /// Delegate for endpoint operations
    pub delegate: [u8; 32],
    /// Bump seed of the derived account address
    pub bump: u8,
    /// Collection metadata state
    pub collection_metadata: CollectionMetadata,
    /// Governance configuration
    pub dao_config: DaoConfig,
    /// Replay cursor: the last accepted message nonce
    pub nonce: u64,
    /// Count of messages processed
    pub processed_messages: u64,
}

#[verifier::ext_equal]
pub struct OAppStoreV {
    pub admin: Seq<u8>,
    pub endpoint: Seq<u8>,
    pub delegate: Seq<u8>,
    pub bump: u8,
    pub collection_metadata: CollectionMetadataV,
    pub dao_config: DaoConfigV,
    pub nonce: u64,
    pub processed_messages: u64,
}

impl View for OAppStore {
    type V = OAppStoreV;

    open spec fn view(&self) -> OAppStoreV {
        OAppStoreV {
            admin: self.admin@,
            endpoint: self.endpoint@,
            delegate: self.delegate@,
            bump: self.bump,
            collection_metadata: self.collection_metadata@,
            dao_config: self.dao_config@,
            nonce: self.nonce,
            processed_messages: self.processed_messages,
        }
    }
}

impl OAppStore {
    /// The store record's derived address and bump under this program.
    pub fn find_pda() -> (r: Option<([u8; 32], u8)>)
        ensures
            match r {
                Some((key, bump)) => pda_of(seq![spec_store_seed()], PROGRAM_ID@) == Some(
                    (key@, bump),
                ),
                None => pda_of(seq![spec_store_seed()], PROGRAM_ID@) is None,
            },
    {
        let mut seeds: Vec<Vec<u8>> = Vec::new();
        seeds.push(str_to_bytes("Store"));
        proof {
            assert(seeds@.map_values(|s: Vec<u8>| s@) =~= seq![spec_store_seed()]);
        }
        derive_program_address(&seeds, &PROGRAM_ID)
    }
}

/// Per-origin trust record: one per (store, origin endpoint id) pair,
/// written by an administrative action and consulted read-only by the
/// dispatcher.
#[derive(Debug)]
pub struct PeerConfig {
    /// Source endpoint id
    pub src_eid: u32,
    /// Peer address (32 bytes, padded for non-EVM compatibility)
    pub peer_address: [u8; 32],
    /// Whether this peer is trusted
    pub trusted: bool,
    /// Bump seed of the derived account address
    pub bump: u8,
}

#[verifier::ext_equal]
pub struct PeerConfigV {
    pub src_eid: u32,
    pub peer_address: Seq<u8>,
    pub trusted: bool,
    pub bump: u8,
}

impl View for PeerConfig {
    type V = PeerConfigV;

    open spec fn view(&self) -> PeerConfigV {
        PeerConfigV {
            src_eid: self.src_eid,
            peer_address: self.peer_address@,
            trusted: self.trusted,
            bump: self.bump,
        }
    }
}

impl PeerConfig {
    /// The peer record's derived address and bump for one origin.
    pub fn find_pda(store: &[u8; 32], src_eid: u32) -> (r: Option<([u8; 32], u8)>)
        ensures
            match r {
                Some((key, bump)) => pda_of(
                    seq![spec_peer_seed(), store@, spec_u32_to_le_bytes(src_eid)],
                    PROGRAM_ID@,
                ) == Some((key@, bump)),
                None => pda_of(
                    seq![spec_peer_seed(), store@, spec_u32_to_le_bytes(src_eid)],
                    PROGRAM_ID@,
                ) is None,
            },
    {
        let mut seeds: Vec<Vec<u8>> = Vec::new();
        seeds.push(str_to_bytes("Peer"));
        seeds.push(crate::strfmt::bytes_range(store, 0, 32));
        seeds.push(u32_to_le_bytes(src_eid));
        proof {
            assert(store@.subrange(0, 32) =~= store@);
            assert(seeds@.map_values(|s: Vec<u8>| s@) =~= seq![
                spec_peer_seed(),
                store@,
                spec_u32_to_le_bytes(src_eid),
            ]);
        }
        derive_program_address(&seeds, &PROGRAM_ID)
    }
}

/// Registry of message types the receive path supports.
#[derive(Debug)]
pub struct LzReceiveTypes {
    /// The store this record belongs to
    pub store: [u8; 32],
    /// Supported message types
    pub message_types: Vec<u8>,
    /// Bump seed of the derived account address
    pub bump: u8,
}

#[verifier::ext_equal]
pub struct LzReceiveTypesV {
    pub store: Seq<u8>,
    pub message_types: Seq<u8>,
    pub bump: u8,
}

impl View for LzReceiveTypes {
    type V = LzReceiveTypesV;

    open spec fn view(&self) -> LzReceiveTypesV {
        LzReceiveTypesV {
            store: self.store@,
            message_types: self.message_types@,
            bump: self.bump,
        }
    }
}

impl LzReceiveTypes {
    /// The receive-types record's derived address and bump.
    pub fn find_pda(store: &[u8; 32]) -> (r: Option<([u8; 32], u8)>)
        ensures
            match r {
                Some((key, bump)) => pda_of(
                    seq![spec_lz_receive_types_seed(), store@],
                    PROGRAM_ID@,
                ) == Some((key@, bump)),
                None => pda_of(seq![spec_lz_receive_types_seed(), store@], PROGRAM_ID@) is None,
            },
    {
        let mut seeds: Vec<Vec<u8>> = Vec::new();
        seeds.push(str_to_bytes("LzReceiveTypes"));
        seeds.push(crate::strfmt::bytes_range(store, 0, 32));
        proof {
            assert(store@.subrange(0, 32) =~= store@);
            assert(seeds@.map_values(|s: Vec<u8>| s@) =~= seq![
                spec_lz_receive_types_seed(),
                store@,
            ]);
        }
        derive_program_address(&seeds, &PROGRAM_ID)
    }
}

/// Registry of compose message types the compose path supports.
#[derive(Debug)]
pub struct LzComposeTypes {
    /// The store this record belongs to
    pub store: [u8; 32],
    /// Supported compose message types
    pub compose_types: Vec<u8>,
    /// Bump seed of the derived account address
    pub bump: u8,
}

#[verifier::ext_equal]
pub struct LzComposeTypesV {
    pub store: Seq<u8>,
    pub compose_types: Seq<u8>,
    pub bump: u8,
}

impl View for LzComposeTypes {
    type V = LzComposeTypesV;

    open spec fn view(&self) -> LzComposeTypesV {
        LzComposeTypesV {
            store: self.store@,
            compose_types: self.compose_types@,
            bump: self.bump,
        }
    }
}

impl LzComposeTypes {
    /// The compose-types record's derived address and bump.
    pub fn find_pda(store: &[u8; 32]) -> (r: Option<([u8; 32], u8)>)
        ensures
            match r {
                Some((key, bump)) => pda_of(
                    seq![spec_lz_compose_types_seed(), store@],
                    PROGRAM_ID@,
                ) == Some((key@, bump)),
                None => pda_of(seq![spec_lz_compose_types_seed(), store@], PROGRAM_ID@) is None,
            },
    {
        let mut seeds: Vec<Vec<u8>> = Vec::new();
        seeds.push(str_to_bytes("LzComposeTypes"));
        seeds.push(crate::strfmt::bytes_range(store, 0, 32));
        proof {
            assert(store@.subrange(0, 32) =~= store@);
            assert(seeds@.map_values(|s: Vec<u8>| s@) =~= seq![
                spec_lz_compose_types_seed(),
                store@,
            ]);
        }
        derive_program_address(&seeds, &PROGRAM_ID)
    }
}

/// A fresh store record: the cursor starts at zero with no messages
/// processed.
pub fn init_oapp_store_handler(
    admin: [u8; 32],
    endpoint: [u8; 32],
    delegate: [u8; 32],
    collection_metadata: CollectionMetadata,
    dao_config: DaoConfig,
    bump: u8,
) -> (r: OAppStore)
    ensures
        r@ == (OAppStoreV {
            admin: admin@,
            endpoint: endpoint@,
            delegate: delegate@,
            bump: bump,
            collection_metadata: collection_metadata@,
            dao_config: dao_config@,
            nonce: 0,
            processed_messages: 0,
        }),
{
    OAppStore {
        admin,
        endpoint,
        delegate,
        bump,
        collection_metadata,
        dao_config,
        nonce: 0,
        processed_messages: 0,
    }
}

/// A fresh receive-types record for a store.
pub fn init_lz_receive_types_handler(store: [u8; 32], message_types: Vec<u8>, bump: u8) -> (r:
    LzReceiveTypes)
    ensures
        r@.store == store@,
        r@.message_types == message_types@,
        r@.bump == bump,
{
    LzReceiveTypes { store, message_types, bump }
}

/// A fresh compose-types record for a store.
pub fn init_lz_compose_types_handler(store: [u8; 32], compose_types: Vec<u8>, bump: u8) -> (r:
    LzComposeTypes)
    ensures
        r@.store == store@,
        r@.compose_types == compose_types@,
        r@.bump == bump,
{
    LzComposeTypes { store, compose_types, bump }
}

/// A peer trust record for one origin: administrative data, written outside
/// the message-processing path.
pub fn set_peer_handler(src_eid: u32, peer_address: [u8; 32], trusted: bool, bump: u8) -> (r:
    PeerConfig)
    ensures
        r@ == (PeerConfigV {
            src_eid: src_eid,
            peer_address: peer_address@,
            trusted: trusted,
            bump: bump,
        }),
{
    PeerConfig { src_eid, peer_address, trusted, bump }
}

} // verus!
