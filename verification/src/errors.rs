use vstd::prelude::*;

verus! {

/// Error taxonomy of the controller.
///
/// Malformed input, trust failures, replay/timing violations, bounds
/// violations and unsupported operations are all distinct variants, so a
/// caller can correct and resubmit; none is ever silently defaulted.
#[derive(Clone, Copy, Debug, PartialEq, Eq, Structural)]
pub enum ErrorCode {
    UnauthorizedDao,
    InvalidEndpoint,
    InvalidNonce,
    ControllerPaused,
    InvalidMessageFormat,
    MerkleTreeError,
    UriTooLong,
    InsufficientAuthority,
    InvalidTimestamp,
    BatchTooLarge,
    MintBatchTooLarge,
    BurnBatchTooLarge,
    TransferBatchTooLarge,
    InvalidMetadata,
    InvalidCreators,
    InvalidLzMessage,
    UnsupportedVersion,
    InvalidCommand,
    UnsupportedCommand,
    UntrustedPeer,
    UnauthorizedSender,
    MessageTooLarge,
    EndpointCpiFailed,
    InvalidPeerAddress,
    PeerNotFound,
    StoreNotInitialized,
    InvalidRoyalty,
    InvalidTreeConfig,
    InvalidProof,
    LeafNotFound,
    OwnerMismatch,
    CollectionNotVerified,
    InsufficientFunds,
    InvalidFeeConfig,
    TreeStateMismatch,
    OperationNotAllowed,
    InvalidAttributes,
    InvalidFiles,
    MessageTooOld,
    MessageFromFuture,
    InvalidMerkleTree,
    InvalidTreeAuthority,
    InvalidCollectionMint,
    UnauthorizedSource,
    SystemPaused,
    UnknownCommand,
    InvalidMessage,
    UnsupportedMessageVersion,
    MessageExpired,
    InvalidTreeDepth,
    InvalidBufferSize,
    InvalidBatchSize,
    EmptyMintRequest,
    CollectionFull,
    ThemeNotFound,
    InvalidRange,
    RangeOutOfBounds,
    InvalidTierPromotion,
    InvalidPromotionCriteria,
    InvalidTier,
    TooManyThemes,
    DuplicateTheme,
    TooManyAttributes,
}

} // verus!
