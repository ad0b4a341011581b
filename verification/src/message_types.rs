use vstd::prelude::*;
use crate::constants::MESSAGE_TIMEOUT_SECONDS;
use crate::errors::ErrorCode;

verus! {

/// A typed cross-chain message, as delivered from the remote chain.
#[derive(Debug)]
pub struct CrossChainMessage {
    /// Message command
    pub command: MessageCommand,
    /// Optional additional data
    pub payload: Vec<u8>,
    /// Nonce for replay protection
    pub nonce: u64,
    /// When the message was created on the remote chain
    pub timestamp: i64,
    /// The sender's address on the source chain (20 bytes)
    pub sender: [u8; 20],
}

impl CrossChainMessage {
    /// A new message, stamped with the given creation time.
    pub fn new(nonce: u64, sender: [u8; 20], command: MessageCommand, now: i64) -> (r:
        CrossChainMessage)
        ensures
            r.nonce == nonce,
            r.sender@ == sender@,
            r.command == command,
            r.payload@ == Seq::<u8>::empty(),
            r.timestamp == now,
    {
        CrossChainMessage { command, payload: Vec::new(), nonce, timestamp: now, sender }
    }

    /// The message's timestamp lies within the drift tolerance of `now`:
    /// more than the tolerance behind is `MessageTooOld`, more than the
    /// tolerance ahead `MessageFromFuture`.
    pub fn validate_timing(&self, now: i64) -> (r: Result<(), ErrorCode>)
        ensures
            self.timestamp < now - (MESSAGE_TIMEOUT_SECONDS as int) ==> r == Err::<
                (),
                ErrorCode,
            >(ErrorCode::MessageTooOld),
            self.timestamp > now + (MESSAGE_TIMEOUT_SECONDS as int) ==> r == Err::<
                (),
                ErrorCode,
            >(ErrorCode::MessageFromFuture),
            r is Ok <==> now - (MESSAGE_TIMEOUT_SECONDS as int) <= self.timestamp <= now + (
            MESSAGE_TIMEOUT_SECONDS as int),
    {
        let ts: i128 = self.timestamp as i128;
        if ts < (now as i128) - (MESSAGE_TIMEOUT_SECONDS as i128) {
            return Err(ErrorCode::MessageTooOld);
        }
        if ts > (now as i128) + (MESSAGE_TIMEOUT_SECONDS as i128) {
            return Err(ErrorCode::MessageFromFuture);
        }
        Ok(())
    }
}

/// The commands the dispatcher routes. Routing is an exhaustive match: a
/// command without a handler is a build-time error.
#[derive(Debug)]
pub enum MessageCommand {
    /// Update the entire collection metadata URI
    UpdateCollectionMetadata { new_uri: String },
    /// Batch update individual item metadata
    BatchUpdateMetadata { updates: Vec<MetadataUpdate> },
    /// Transfer tree authority to a new address
    TransferAuthority { new_authority: [u8; 32] },
    /// Pause or unpause the controller
    SetPaused { paused: bool },
    /// Mint new items to specified recipients
    MintCnfts { mint_requests: Vec<MintRequest> },
    /// Burn specific items
    BurnCnfts { burn_requests: Vec<BurnRequest> },
    /// Transfer item ownership
    TransferCnfts { transfer_requests: Vec<TransferRequest> },
    /// Update tree configuration
    UpdateTreeConfig { new_config: TreeConfig },
    /// Verify and update tree state
    VerifyTreeState { tree_state: TreeStateProof },
}

/// Update metadata for one item.
#[derive(Debug)]
pub struct MetadataUpdate {
    pub leaf_index: u32,
    pub new_uri: String,
    pub proof: Vec<[u8; 32]>,
}

/// Request to mint one new item.
#[derive(Debug)]
pub struct MintRequest {
    pub to: [u8; 32],
    pub metadata: CnftMetadata,
    pub creators: Option<Vec<Creator>>,
    pub is_mutable: bool,
    pub collection: Option<Collection>,
}

/// Request to burn one item.
#[derive(Debug)]
pub struct BurnRequest {
    pub leaf_index: u32,
    pub current_owner: [u8; 32],
    pub proof: Vec<[u8; 32]>,
}

/// Request to transfer one item.
#[derive(Debug)]
pub struct TransferRequest {
    pub leaf_index: u32,
    pub from: [u8; 32],
    pub to: [u8; 32],
    pub proof: Vec<[u8; 32]>,
}

/// Configuration for the Merkle tree.
#[derive(Debug)]
pub struct TreeConfig {
    pub max_depth: u32,
    pub max_buffer_size: u32,
    pub public: bool,
    pub fee_config: Option<FeeConfig>,
}

/// Proof of tree state for verification. Full proof verification is
/// delegated to the external tree-compression collaborator; this core checks
/// only non-emptiness.
#[derive(Debug)]
pub struct TreeStateProof {
    pub root: [u8; 32],
    pub item_count: u64,
    pub sequence: u64,
    pub proof: Vec<[u8; 32]>,
}

/// Compressed item metadata.
#[derive(Debug)]
pub struct CnftMetadata {
    pub name: String,
    pub symbol: String,
    pub uri: String,
    pub description: Option<String>,
    pub seller_fee_basis_points: u16,
    pub image: Option<String>,
    pub animation_url: Option<String>,
    pub external_url: Option<String>,
    pub attributes: Option<Vec<Attribute>>,
    pub properties: Option<Properties>,
}

/// Creator information.
#[derive(Debug)]
pub struct Creator {
    pub address: [u8; 32],
    pub verified: bool,
    pub share: u8,
}

/// Collection membership information.
#[derive(Debug)]
pub struct Collection {
    pub key: [u8; 32],
    pub verified: bool,
}

/// Fee configuration for tree operations (amounts in lamports).
#[derive(Debug)]
pub struct FeeConfig {
    pub mint_fee: u64,
    pub transfer_fee: u64,
    pub burn_fee: u64,
    pub fee_recipient: [u8; 32],
}

/// One attribute (trait) of an item.
#[derive(Debug)]
pub struct Attribute {
    pub trait_type: String,
    pub value: String,
    pub display_type: Option<String>,
}

/// Properties of an item.
#[derive(Debug)]
pub struct Properties {
    pub files: Option<Vec<File>>,
    pub category: Option<String>,
}

/// A file associated with an item.
#[derive(Debug)]
pub struct File {
    pub uri: String,
    pub file_type: Option<String>,
}

/// Record of one processed cross-chain message, for monitoring.
#[derive(Debug)]
pub struct CrossChainMessageProcessed {
    pub nonce: u64,
    pub sender: [u8; 20],
    pub command_type: String,
    pub timestamp: i64,
    pub success: bool,
}

#[verifier::ext_equal]
pub struct AttributeV {
    pub trait_type: Seq<char>,
    pub value: Seq<char>,
    pub display_type: Option<Seq<char>>,
}

impl View for Attribute {
    type V = AttributeV;

    open spec fn view(&self) -> AttributeV {
        AttributeV {
            trait_type: self.trait_type@,
            value: self.value@,
            display_type: match self.display_type {
                Some(ref d) => Some(d@),
                None => None,
            },
        }
    }
}

#[verifier::ext_equal]
pub struct FileV {
    pub uri: Seq<char>,
    pub file_type: Option<Seq<char>>,
}

impl View for File {
    type V = FileV;

    open spec fn view(&self) -> FileV {
        FileV {
            uri: self.uri@,
            file_type: match self.file_type {
                Some(ref t) => Some(t@),
                None => None,
            },
        }
    }
}

#[verifier::ext_equal]
pub struct PropertiesV {
    pub files: Option<Seq<FileV>>,
    pub category: Option<Seq<char>>,
}

impl View for Properties {
    type V = PropertiesV;

    open spec fn view(&self) -> PropertiesV {
        PropertiesV {
            files: match self.files {
                Some(ref fs) => Some(fs@.map_values(|f: File| f@)),
                None => None,
            },
            category: match self.category {
                Some(ref c) => Some(c@),
                None => None,
            },
        }
    }
}

#[verifier::ext_equal]
pub struct CnftMetadataV {
    pub name: Seq<char>,
    pub symbol: Seq<char>,
    pub uri: Seq<char>,
    pub description: Option<Seq<char>>,
    pub seller_fee_basis_points: u16,
    pub image: Option<Seq<char>>,
    pub animation_url: Option<Seq<char>>,
    pub external_url: Option<Seq<char>>,
    pub attributes: Option<Seq<AttributeV>>,
    pub properties: Option<PropertiesV>,
}

impl View for CnftMetadata {
    type V = CnftMetadataV;

    open spec fn view(&self) -> CnftMetadataV {
        CnftMetadataV {
            name: self.name@,
            symbol: self.symbol@,
            uri: self.uri@,
            description: match self.description {
                Some(ref d) => Some(d@),
                None => None,
            },
            seller_fee_basis_points: self.seller_fee_basis_points,
            image: match self.image {
                Some(ref s) => Some(s@),
                None => None,
            },
            animation_url: match self.animation_url {
                Some(ref s) => Some(s@),
                None => None,
            },
            external_url: match self.external_url {
                Some(ref s) => Some(s@),
                None => None,
            },
            attributes: match self.attributes {
                Some(ref attrs) => Some(attrs@.map_values(|a: Attribute| a@)),
                None => None,
            },
            properties: match self.properties {
                Some(ref p) => Some(p@),
                None => None,
            },
        }
    }
}

} // verus!
