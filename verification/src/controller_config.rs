use vstd::prelude::*;
use vstd::utf8::encode_utf8;
use crate::constants::MAX_URI_LENGTH;
use crate::errors::ErrorCode;

verus! {

/// Main configuration record of the controller: authority settings, the
/// trusted remote endpoint, collection metadata, and the replay cursor.
///
/// The replay cursor (`message_nonce`) is monotonically non-decreasing
/// across the record's lifetime: only the dispatcher advances it, and only
/// after every guard has passed.
#[derive(Debug)]
pub struct ControllerConfig {
    /// The program authority (can update configuration)
    pub authority: [u8; 32],
    /// The remote-chain address that may send cross-chain messages
    pub authorized_dao: [u8; 20],
    /// Endpoint id messages must originate from
    pub trusted_ethereum_eid: u32,
    /// Legacy field name for backward compatibility
    pub ethereum_eid: u32,
    /// The Merkle tree address of the compressed collection
    pub merkle_tree: [u8; 32],
    /// Tree authority (this program's derived address)
    pub tree_authority: [u8; 32],
    /// Collection mint address
    pub collection_mint: [u8; 32],
    /// Collection authority (for metadata updates)
    pub collection_authority: [u8; 32],
    /// Metadata authority (for individual item updates)
    pub metadata_authority: [u8; 32],
    /// Current collection metadata URI
    pub collection_uri: String,
    /// Collection name
    pub collection_name: String,
    /// Collection symbol
    pub collection_symbol: String,
    /// Last processed message nonce, to prevent replay attacks
    pub last_processed_nonce: u64,
    /// Legacy field name for backward compatibility
    pub message_nonce: u64,
    /// Whether the controller is paused (emergency stop)
    pub is_paused: bool,
    /// Legacy field name for backward compatibility
    pub paused: bool,
    /// Total number of updates processed
    pub total_updates: u64,
    /// Last update timestamp
    pub last_update: i64,
    /// Bump seed of the derived account address
    pub bump: u8,
}

#[verifier::ext_equal]
pub struct ControllerConfigV {
    pub authority: Seq<u8>,
    pub authorized_dao: Seq<u8>,
    pub trusted_ethereum_eid: u32,
    pub ethereum_eid: u32,
    pub merkle_tree: Seq<u8>,
    pub tree_authority: Seq<u8>,
    pub collection_mint: Seq<u8>,
    pub collection_authority: Seq<u8>,
    pub metadata_authority: Seq<u8>,
    pub collection_uri: Seq<char>,
    pub collection_name: Seq<char>,
    pub collection_symbol: Seq<char>,
    pub last_processed_nonce: u64,
    pub message_nonce: u64,
    pub is_paused: bool,
    pub paused: bool,
    pub total_updates: u64,
    pub last_update: i64,
    pub bump: u8,
}

impl View for ControllerConfig {
    type V = ControllerConfigV;

    open spec fn view(&self) -> ControllerConfigV {
        ControllerConfigV {
            authority: self.authority@,
            authorized_dao: self.authorized_dao@,
            trusted_ethereum_eid: self.trusted_ethereum_eid,
            ethereum_eid: self.ethereum_eid,
            merkle_tree: self.merkle_tree@,
            tree_authority: self.tree_authority@,
            collection_mint: self.collection_mint@,
            collection_authority: self.collection_authority@,
            metadata_authority: self.metadata_authority@,
            collection_uri: self.collection_uri@,
            collection_name: self.collection_name@,
            collection_symbol: self.collection_symbol@,
            last_processed_nonce: self.last_processed_nonce,
            message_nonce: self.message_nonce,
            is_paused: self.is_paused,
            paused: self.paused,
            total_updates: self.total_updates,
            last_update: self.last_update,
            bump: self.bump,
        }
    }
}

impl ControllerConfig {
    /// Bytes of storage the record needs, string fields at their maximum
    /// lengths, plus the 8-byte account discriminator.
    pub fn space() -> (r: usize)
        ensures
            r == 595,
    {
        8 + 32 + 20 + 4 + 4 + 32 + 32 + 32 + 32 + 32 + (4 + 200) + (4 + 100) + (4 + 20) + 8 + 8
            + 1 + 1 + 8 + 8 + 1
    }

}

/// A fresh controller configuration. Rejects an over-long initial URI;
/// every field not given here starts zeroed, the cursor at zero and the
/// controller unpaused.
pub fn initialize_handler(
    authority: [u8; 32],
    merkle_tree: [u8; 32],
    tree_authority: [u8; 32],
    ethereum_eid: u32,
    authorized_dao: [u8; 20],
    initial_collection_uri: String,
    now: i64,
    bump: u8,
) -> (r: Result<ControllerConfig, ErrorCode>)
        ensures
            r is Ok <==> encode_utf8(initial_collection_uri@).len() <= MAX_URI_LENGTH,
            r is Err ==> r == Err::<ControllerConfig, ErrorCode>(ErrorCode::UriTooLong),
            r matches Ok(c) ==> {
                &&& c@.authority == authority@
                &&& c@.authorized_dao == authorized_dao@
                &&& c@.ethereum_eid == ethereum_eid
                &&& c@.merkle_tree == merkle_tree@
                &&& c@.tree_authority == tree_authority@
                &&& c@.collection_uri == initial_collection_uri@
                &&& c@.message_nonce == 0
                &&& c@.last_processed_nonce == 0
                &&& !c@.paused
                &&& !c@.is_paused
                &&& c@.total_updates == 0
                &&& c@.last_update == now
                &&& c@.bump == bump
            },
    {
        if initial_collection_uri.as_str().as_bytes().len() > MAX_URI_LENGTH {
            return Err(ErrorCode::UriTooLong);
        }
        Ok(
            ControllerConfig {
                authority,
                authorized_dao,
                trusted_ethereum_eid: 0,
                ethereum_eid,
                merkle_tree,
                tree_authority,
                collection_mint: [0; 32],
                collection_authority: [0; 32],
                metadata_authority: [0; 32],
                collection_uri: initial_collection_uri,
                collection_name: String::new(),
                collection_symbol: String::new(),
                last_processed_nonce: 0,
                message_nonce: 0,
                is_paused: false,
                paused: false,
                total_updates: 0,
                last_update: now,
                bump,
            },
        )
    }

/// Record of a collection-level metadata update, for monitoring.
#[derive(Debug)]
pub struct CollectionMetadataUpdated {
    pub merkle_tree: [u8; 32],
    pub new_uri: String,
    pub new_name: String,
    pub new_symbol: String,
    pub timestamp: i64,
}

/// Update the collection-level metadata URI. Rejects an over-long URI with
/// no effect; on success stores the URI, stamps the update time, and reports
/// what changed.
pub fn update_metadata_handler(
    config: &mut ControllerConfig,
    new_uri: String,
    new_name: String,
    new_symbol: String,
    now: i64,
) -> (r: Result<CollectionMetadataUpdated, ErrorCode>)
    ensures
        r is Ok <==> encode_utf8(new_uri@).len() <= MAX_URI_LENGTH,
        r is Err ==> r == Err::<CollectionMetadataUpdated, ErrorCode>(ErrorCode::UriTooLong)
            && final(config)@ == old(config)@,
        r matches Ok(ev) ==> {
            &&& final(config)@ == (ControllerConfigV {
                collection_uri: new_uri@,
                last_update: now,
                ..old(config)@
            })
            &&& ev.merkle_tree@ == old(config)@.merkle_tree
            &&& ev.new_uri@ == new_uri@
            &&& ev.new_name@ == new_name@
            &&& ev.new_symbol@ == new_symbol@
            &&& ev.timestamp == now
        },
{
    if new_uri.as_str().as_bytes().len() > MAX_URI_LENGTH {
        return Err(ErrorCode::UriTooLong);
    }
    let merkle_tree = config.merkle_tree;
    config.collection_uri = new_uri.clone();
    config.last_update = now;
    Ok(
        CollectionMetadataUpdated {
            merkle_tree,
            new_uri,
            new_name,
            new_symbol,
            timestamp: now,
        },
    )
}

} // verus!
