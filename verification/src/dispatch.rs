use vstd::prelude::*;
use vstd::utf8::encode_utf8;
use crate::constants::{
    MAX_ATTRIBUTES_COUNT, MAX_BATCH_SIZE, MAX_BUFFER_SIZE, MAX_BURN_BATCH_SIZE,
    MAX_DESCRIPTION_LENGTH, MAX_FILES_COUNT, MAX_MINT_BATCH_SIZE, MAX_NAME_LENGTH,
    MAX_ROYALTY_BASIS_POINTS, MAX_SYMBOL_LENGTH, MAX_TRANSFER_BATCH_SIZE, MAX_TREE_DEPTH,
    MAX_URI_LENGTH, MESSAGE_TIMEOUT_SECONDS, MIN_BUFFER_SIZE, MIN_TREE_DEPTH,
};
use crate::controller_config::{ControllerConfig, ControllerConfigV};
use crate::errors::ErrorCode;
use crate::keys::{is_zero_key, keys_equal, spec_is_zero_key};
use crate::message_types::{
    CnftMetadata, CrossChainMessage, FeeConfig, MessageCommand, MintRequest, TransferRequest,
};

verus! {

// Largest accepted fee per operation, in lamports
pub const MAX_OPERATION_FEE: u64 = 1_000_000_000;

/// The number of bytes of a string (its UTF-8 encoding).
pub open spec fn str_bytes_len(s: Seq<char>) -> int {
    encode_utf8(s).len() as int
}

/// The first check of item metadata that fails, if any: name, symbol and
/// URI must be non-empty and within bounds, royalties within the cap,
/// description within bounds, attributes within count and each non-empty,
/// files within count and each with a URI.
pub open spec fn spec_cnft_metadata_error(m: &CnftMetadata) -> Option<ErrorCode> {
    if str_bytes_len(m.name@) == 0 || str_bytes_len(m.name@) > MAX_NAME_LENGTH {
        Some(ErrorCode::InvalidMetadata)
    } else if str_bytes_len(m.symbol@) == 0 || str_bytes_len(m.symbol@) > MAX_SYMBOL_LENGTH {
        Some(ErrorCode::InvalidMetadata)
    } else if str_bytes_len(m.uri@) == 0 || str_bytes_len(m.uri@) > MAX_URI_LENGTH {
        Some(ErrorCode::InvalidMetadata)
    } else if m.seller_fee_basis_points > MAX_ROYALTY_BASIS_POINTS {
        Some(ErrorCode::InvalidRoyalty)
    } else if m.description matches Some(d) && str_bytes_len(d@) > MAX_DESCRIPTION_LENGTH {
        Some(ErrorCode::InvalidMetadata)
    } else if m.attributes matches Some(attrs) && attrs@.len() > MAX_ATTRIBUTES_COUNT {
        Some(ErrorCode::InvalidAttributes)
    } else if m.attributes matches Some(attrs) && exists|i: int|
        0 <= i < attrs@.len() && (str_bytes_len(attrs@[i].trait_type@) == 0 || str_bytes_len(
            attrs@[i].value@,
        ) == 0) {
        Some(ErrorCode::InvalidAttributes)
    } else if m.properties matches Some(p) && p.files matches Some(files) && files@.len()
        > MAX_FILES_COUNT {
        Some(ErrorCode::InvalidFiles)
    } else if m.properties matches Some(p) && p.files matches Some(files) && exists|i: int|
        0 <= i < files@.len() && str_bytes_len(files@[i].uri@) == 0 {
        Some(ErrorCode::InvalidFiles)
    } else {
        None
    }
}

/// A fee configuration is valid: a real recipient and every fee within the
/// per-operation cap.
pub open spec fn spec_fee_config_valid(fc: &FeeConfig) -> bool {
    &&& !spec_is_zero_key(fc.fee_recipient@)
    &&& fc.mint_fee <= MAX_OPERATION_FEE
    &&& fc.transfer_fee <= MAX_OPERATION_FEE
    &&& fc.burn_fee <= MAX_OPERATION_FEE
}

/// The first mint request whose metadata fails validation, scanning in
/// order.
pub open spec fn spec_first_mint_error(reqs: Seq<MintRequest>, i: int) -> Option<ErrorCode>
    decreases reqs.len() - i,
{
    if i < 0 || i >= reqs.len() {
        None
    } else {
        match spec_cnft_metadata_error(&reqs[i].metadata) {
            Some(e) => Some(e),
            None => spec_first_mint_error(reqs, i + 1),
        }
    }
}

/// The first failing transfer request, scanning in order: an empty proof,
/// then a self-transfer, per item.
pub open spec fn spec_first_transfer_error(reqs: Seq<TransferRequest>, i: int) -> Option<ErrorCode>
    decreases reqs.len() - i,
{
    if i < 0 || i >= reqs.len() {
        None
    } else if reqs[i].proof@.len() == 0 {
        Some(ErrorCode::InvalidProof)
    } else if reqs[i].from@ =~= reqs[i].to@ {
        Some(ErrorCode::OperationNotAllowed)
    } else {
        spec_first_transfer_error(reqs, i + 1)
    }
}

/// The first check of a command that fails, if any. Every bound is reported
/// distinctly, so the caller can correct and resubmit.
pub open spec fn spec_command_error(cmd: &MessageCommand) -> Option<ErrorCode> {
    match cmd {
        MessageCommand::UpdateCollectionMetadata { new_uri } => {
            if str_bytes_len(new_uri@) > MAX_URI_LENGTH {
                Some(ErrorCode::UriTooLong)
            } else {
                None
            }
        },
        MessageCommand::BatchUpdateMetadata { updates } => {
            if updates@.len() > MAX_BATCH_SIZE {
                Some(ErrorCode::BatchTooLarge)
            } else {
                None
            }
        },
        MessageCommand::TransferAuthority { .. } => None,
        MessageCommand::SetPaused { .. } => None,
        MessageCommand::MintCnfts { mint_requests } => {
            if mint_requests@.len() > MAX_MINT_BATCH_SIZE {
                Some(ErrorCode::MintBatchTooLarge)
            } else {
                spec_first_mint_error(mint_requests@, 0)
            }
        },
        MessageCommand::BurnCnfts { burn_requests } => {
            if burn_requests@.len() > MAX_BURN_BATCH_SIZE {
                Some(ErrorCode::BurnBatchTooLarge)
            } else if exists|i: int|
                0 <= i < burn_requests@.len() && burn_requests@[i].proof@.len() == 0 {
                Some(ErrorCode::InvalidProof)
            } else {
                None
            }
        },
        MessageCommand::TransferCnfts { transfer_requests } => {
            if transfer_requests@.len() > MAX_TRANSFER_BATCH_SIZE {
                Some(ErrorCode::TransferBatchTooLarge)
            } else {
                spec_first_transfer_error(transfer_requests@, 0)
            }
        },
        MessageCommand::UpdateTreeConfig { new_config } => {
            if !(MIN_TREE_DEPTH <= new_config.max_depth <= MAX_TREE_DEPTH) {
                Some(ErrorCode::InvalidTreeConfig)
            } else if !(MIN_BUFFER_SIZE <= new_config.max_buffer_size <= MAX_BUFFER_SIZE) {
                Some(ErrorCode::InvalidTreeConfig)
            } else if new_config.fee_config matches Some(fc) && !spec_fee_config_valid(&fc) {
                Some(ErrorCode::InvalidFeeConfig)
            } else {
                None
            }
        },
        MessageCommand::VerifyTreeState { tree_state } => {
            if tree_state.proof@.len() == 0 {
                Some(ErrorCode::InvalidProof)
            } else {
                None
            }
        },
    }
}

/// The first guard of the dispatcher that fails on a message, if any:
/// paused controller, wrong origin endpoint, replayed nonce, clock skew
/// beyond tolerance, then the command's own bounds.
pub open spec fn spec_receive_error(
    config: ControllerConfigV,
    src_eid: u32,
    msg: &CrossChainMessage,
    now: i64,
) -> Option<ErrorCode> {
    if config.paused {
        Some(ErrorCode::ControllerPaused)
    } else if src_eid != config.ethereum_eid {
        Some(ErrorCode::InvalidEndpoint)
    } else if msg.nonce <= config.message_nonce {
        Some(ErrorCode::InvalidNonce)
    } else if !(-(MESSAGE_TIMEOUT_SECONDS as int) <= now - msg.timestamp <= (
    MESSAGE_TIMEOUT_SECONDS as int)) {
        Some(ErrorCode::InvalidTimestamp)
    } else {
        spec_command_error(&msg.command)
    }
}

/// The controller state after a message commits: the replay cursor advanced
/// to the message nonce, the update time stamped, and the command's own
/// effect applied (URI replaced, authority replaced, or the pause flag set;
/// batched and tree commands mutate only external state).
pub open spec fn spec_receive_ok_state(
    config: ControllerConfigV,
    msg: &CrossChainMessage,
    now: i64,
) -> ControllerConfigV {
    let advanced = ControllerConfigV { message_nonce: msg.nonce, last_update: now, ..config };
    match msg.command {
        MessageCommand::UpdateCollectionMetadata { new_uri } => ControllerConfigV {
            collection_uri: new_uri@,
            ..advanced
        },
        MessageCommand::TransferAuthority { new_authority } => ControllerConfigV {
            authority: new_authority@,
            ..advanced
        },
        MessageCommand::SetPaused { paused } => ControllerConfigV { paused: paused, ..advanced },
        _ => advanced,
    }
}

/// Validate item metadata against the metadata bounds.
#[verifier::loop_isolation(false)]
pub fn validate_cnft_metadata(metadata: &CnftMetadata) -> (r: Result<(), ErrorCode>)
    ensures
        match r {
            Ok(()) => spec_cnft_metadata_error(metadata) is None,
            Err(e) => spec_cnft_metadata_error(metadata) == Some(e),
        },
{
    let name_len = metadata.name.as_str().as_bytes().len();
    if name_len == 0 || name_len > MAX_NAME_LENGTH {
        return Err(ErrorCode::InvalidMetadata);
    }
    let symbol_len = metadata.symbol.as_str().as_bytes().len();
    if symbol_len == 0 || symbol_len > MAX_SYMBOL_LENGTH {
        return Err(ErrorCode::InvalidMetadata);
    }
    let uri_len = metadata.uri.as_str().as_bytes().len();
    if uri_len == 0 || uri_len > MAX_URI_LENGTH {
        return Err(ErrorCode::InvalidMetadata);
    }
    if metadata.seller_fee_basis_points > MAX_ROYALTY_BASIS_POINTS {
        return Err(ErrorCode::InvalidRoyalty);
    }
    match &metadata.description {
        Some(d) => {
            if d.as_str().as_bytes().len() > MAX_DESCRIPTION_LENGTH {
                return Err(ErrorCode::InvalidMetadata);
            }
        },
        None => {},
    }
    match &metadata.attributes {
        Some(attrs) => {
            if attrs.len() > MAX_ATTRIBUTES_COUNT {
                return Err(ErrorCode::InvalidAttributes);
            }
            let mut i: usize = 0;
            while i < attrs.len()
                invariant
                    i <= attrs@.len(),
                    forall|j: int|
                        0 <= j < i ==> str_bytes_len(attrs@[j].trait_type@) != 0 && str_bytes_len(
                            attrs@[j].value@,
                        ) != 0,
                decreases attrs@.len() - i,
            {
                let attr = &attrs[i];
                if attr.trait_type.as_str().as_bytes().len() == 0
                    || attr.value.as_str().as_bytes().len() == 0 {
                    proof {
                        let wi = i as int;
                        assert(str_bytes_len(attrs@[wi].trait_type@) == 0 || str_bytes_len(
                            attrs@[wi].value@,
                        ) == 0);
                    }
                    return Err(ErrorCode::InvalidAttributes);
                }
                i = i + 1;
            }
        },
        None => {},
    }
    match &metadata.properties {
        Some(p) => {
            match &p.files {
                Some(files) => {
                    if files.len() > MAX_FILES_COUNT {
                        return Err(ErrorCode::InvalidFiles);
                    }
                    let mut i: usize = 0;
                    while i < files.len()
                        invariant
                            i <= files@.len(),
                            forall|j: int| 0 <= j < i ==> str_bytes_len(files@[j].uri@) != 0,
                        decreases files@.len() - i,
                    {
                        if files[i].uri.as_str().as_bytes().len() == 0 {
                            proof {
                                let wi = i as int;
                                assert(str_bytes_len(files@[wi].uri@) == 0);
                            }
                            return Err(ErrorCode::InvalidFiles);
                        }
                        i = i + 1;
                    }
                },
                None => {},
            }
        },
        None => {},
    }
    Ok(())
}

/// Validate a fee configuration: a real recipient and bounded fees.
pub fn validate_fee_config(fee_config: &FeeConfig) -> (r: Result<(), ErrorCode>)
    ensures
        r is Ok <==> spec_fee_config_valid(fee_config),
        r is Err ==> r == Err::<(), ErrorCode>(ErrorCode::InvalidFeeConfig),
{
    if is_zero_key(&fee_config.fee_recipient) {
        return Err(ErrorCode::InvalidFeeConfig);
    }
    if !(fee_config.mint_fee <= MAX_OPERATION_FEE && fee_config.transfer_fee <= MAX_OPERATION_FEE
        && fee_config.burn_fee <= MAX_OPERATION_FEE) {
        return Err(ErrorCode::InvalidFeeConfig);
    }
    Ok(())
}

proof fn lemma_first_mint_error_skip(reqs: Seq<MintRequest>, i: int)
    requires
        0 <= i <= reqs.len(),
        forall|j: int| 0 <= j < i ==> spec_cnft_metadata_error(&reqs[j].metadata) is None,
    ensures
        spec_first_mint_error(reqs, 0) == spec_first_mint_error(reqs, i),
    decreases i,
{
    if i > 0 {
        lemma_first_mint_error_skip(reqs, i - 1);
    }
}

proof fn lemma_first_transfer_error_skip(reqs: Seq<TransferRequest>, i: int)
    requires
        0 <= i <= reqs.len(),
        forall|j: int|
            0 <= j < i ==> reqs[j].proof@.len() != 0 && !(reqs[j].from@ =~= reqs[j].to@),
    ensures
        spec_first_transfer_error(reqs, 0) == spec_first_transfer_error(reqs, i),
    decreases i,
{
    if i > 0 {
        lemma_first_transfer_error_skip(reqs, i - 1);
    }
}

/// Validate a command's own bounds, without touching any state.
#[verifier::loop_isolation(false)]
fn validate_command_effect(cmd: &MessageCommand) -> (r: Result<(), ErrorCode>)
    ensures
        match r {
            Ok(()) => spec_command_error(cmd) is None,
            Err(e) => spec_command_error(cmd) == Some(e),
        },
{
    match cmd {
        MessageCommand::UpdateCollectionMetadata { new_uri } => {
            if new_uri.as_str().as_bytes().len() > MAX_URI_LENGTH {
                return Err(ErrorCode::UriTooLong);
            }
        },
        MessageCommand::BatchUpdateMetadata { updates } => {
            if updates.len() > MAX_BATCH_SIZE {
                return Err(ErrorCode::BatchTooLarge);
            }
        },
        MessageCommand::TransferAuthority { .. } => {},
        MessageCommand::SetPaused { .. } => {},
        MessageCommand::MintCnfts { mint_requests } => {
            if mint_requests.len() > MAX_MINT_BATCH_SIZE {
                return Err(ErrorCode::MintBatchTooLarge);
            }
            let mut i: usize = 0;
            while i < mint_requests.len()
                invariant
                    i <= mint_requests@.len(),
                    forall|j: int|
                        0 <= j < i ==> spec_cnft_metadata_error(
                            &mint_requests@[j].metadata,
                        ) is None,
                decreases mint_requests@.len() - i,
            {
                match validate_cnft_metadata(&mint_requests[i].metadata) {
                    Ok(()) => {},
                    Err(e) => {
                        proof {
                            lemma_first_mint_error_skip(mint_requests@, i as int);
                        }
                        return Err(e);
                    },
                }
                i = i + 1;
            }
            proof {
                lemma_first_mint_error_skip(mint_requests@, mint_requests@.len() as int);
            }
        },
        MessageCommand::BurnCnfts { burn_requests } => {
            if burn_requests.len() > MAX_BURN_BATCH_SIZE {
                return Err(ErrorCode::BurnBatchTooLarge);
            }
            let mut i: usize = 0;
            while i < burn_requests.len()
                invariant
                    i <= burn_requests@.len(),
                    forall|j: int| 0 <= j < i ==> burn_requests@[j].proof@.len() != 0,
                decreases burn_requests@.len() - i,
            {
                if burn_requests[i].proof.len() == 0 {
                    return Err(ErrorCode::InvalidProof);
                }
                i = i + 1;
            }
        },
        MessageCommand::TransferCnfts { transfer_requests } => {
            if transfer_requests.len() > MAX_TRANSFER_BATCH_SIZE {
                return Err(ErrorCode::TransferBatchTooLarge);
            }
            let mut i: usize = 0;
            while i < transfer_requests.len()
                invariant
                    i <= transfer_requests@.len(),
                    forall|j: int|
                        0 <= j < i ==> transfer_requests@[j].proof@.len() != 0 && !(
                        transfer_requests@[j].from@ =~= transfer_requests@[j].to@),
                decreases transfer_requests@.len() - i,
            {
                let req = &transfer_requests[i];
                if req.proof.len() == 0 {
                    proof {
                        lemma_first_transfer_error_skip(transfer_requests@, i as int);
                    }
                    return Err(ErrorCode::InvalidProof);
                }
                if keys_equal(&req.from, &req.to) {
                    proof {
                        lemma_first_transfer_error_skip(transfer_requests@, i as int);
                    }
                    return Err(ErrorCode::OperationNotAllowed);
                }
                i = i + 1;
            }
            proof {
                lemma_first_transfer_error_skip(
                    transfer_requests@,
                    transfer_requests@.len() as int,
                );
            }
        },
        MessageCommand::UpdateTreeConfig { new_config } => {
            if !(MIN_TREE_DEPTH <= new_config.max_depth && new_config.max_depth
                <= MAX_TREE_DEPTH) {
                return Err(ErrorCode::InvalidTreeConfig);
            }
            if !(MIN_BUFFER_SIZE <= new_config.max_buffer_size && new_config.max_buffer_size
                <= MAX_BUFFER_SIZE) {
                return Err(ErrorCode::InvalidTreeConfig);
            }
            match &new_config.fee_config {
                Some(fc) => {
                    match validate_fee_config(fc) {
                        Ok(()) => {},
                        Err(e) => {
                            return Err(e);
                        },
                    }
                },
                None => {},
            }
        },
        MessageCommand::VerifyTreeState { tree_state } => {
            if tree_state.proof.len() == 0 {
                return Err(ErrorCode::InvalidProof);
            }
        },
    }
    Ok(())
}

/// Dispatch one inbound cross-chain message against the controller state.
///
/// The transition order is fixed: pause check, origin check, replay check,
/// timing check, command bounds, and only then any state commit. A rejected
/// message leaves the state untouched; a committed one advances the replay
/// cursor to the message nonce, so the same message can never commit twice.
pub fn receive_message_handler(
    config: &mut ControllerConfig,
    src_eid: u32,
    msg: &CrossChainMessage,
    now: i64,
) -> (r: Result<(), ErrorCode>)
    ensures
        match r {
            Ok(()) => spec_receive_error(old(config)@, src_eid, msg, now) is None
                && final(config)@ == spec_receive_ok_state(old(config)@, msg, now),
            Err(e) => spec_receive_error(old(config)@, src_eid, msg, now) == Some(e)
                && final(config)@ == old(config)@,
        },
{
    if config.paused {
        return Err(ErrorCode::ControllerPaused);
    }
    if src_eid != config.ethereum_eid {
        return Err(ErrorCode::InvalidEndpoint);
    }
    if msg.nonce <= config.message_nonce {
        return Err(ErrorCode::InvalidNonce);
    }
    let diff: i128 = (now as i128) - (msg.timestamp as i128);
    if diff < -(MESSAGE_TIMEOUT_SECONDS as i128) || diff > (MESSAGE_TIMEOUT_SECONDS as i128) {
        return Err(ErrorCode::InvalidTimestamp);
    }
    match validate_command_effect(&msg.command) {
        Ok(()) => {},
        Err(e) => {
            return Err(e);
        },
    }

    config.message_nonce = msg.nonce;
    config.last_update = now;
    match &msg.command {
        MessageCommand::UpdateCollectionMetadata { new_uri } => {
            config.collection_uri = new_uri.clone();
        },
        MessageCommand::TransferAuthority { new_authority } => {
            config.authority = *new_authority;
        },
        MessageCommand::SetPaused { paused } => {
            config.paused = *paused;
        },
        _ => {},
    }
    Ok(())
}

} // verus!
