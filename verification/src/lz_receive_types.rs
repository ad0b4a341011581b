use vstd::prelude::*;
use vstd::bytes::{spec_u32_to_le_bytes, u32_to_le_bytes};
use vstd::utf8::encode_utf8;
use crate::errors::ErrorCode;
use crate::keys::{derive_program_address, pda_of, PROGRAM_ID};
use crate::oapp_store::{spec_peer_seed, OAppStore};
use crate::strfmt::{
    bytes_range, spec_dec_u64, spec_hex_bytes, bytes_to_hex, str_to_bytes, u32_to_dec, u64_to_dec,
};

verus! {

/// One account the delivery call will need, in executor form.
#[derive(Debug)]
pub struct LzAccount {
    pub pubkey: [u8; 32],
    pub is_signer: bool,
    pub is_writable: bool,
}

#[verifier::ext_equal]
pub struct LzAccountV {
    pub pubkey: Seq<u8>,
    pub is_signer: bool,
    pub is_writable: bool,
}

impl View for LzAccount {
    type V = LzAccountV;

    open spec fn view(&self) -> LzAccountV {
        LzAccountV {
            pubkey: self.pubkey@,
            is_signer: self.is_signer,
            is_writable: self.is_writable,
        }
    }
}

/// Parameters of an inbound message, as handed to account discovery.
#[derive(Debug)]
pub struct LzReceiveParams {
    pub src_eid: u32,
    pub sender: [u8; 32],
    pub nonce: u64,
    pub guid: [u8; 32],
    pub message: Vec<u8>,
}

/// A message is a compose message: it starts with the compose marker byte.
pub fn is_compose_message(message: &[u8]) -> (r: bool)
    ensures
        r == (message@.len() >= 1 && message@[0] == 0xffu8),
{
    if message.len() < 1 {
        return false;
    }
    message[0] == 0xff
}

/// The transport-layer identity of a message as a seed string:
/// `src_eid:sender_hex:nonce`.
pub open spec fn spec_nonce_seed_chars(src_eid: u32, sender: Seq<u8>, nonce: u64) -> Seq<char> {
    spec_dec_u64(src_eid as u64) + seq![':'] + spec_hex_bytes(sender) + seq![':'] + spec_dec_u64(
        nonce,
    )
}

/// The accounts the endpoint's clear operation needs: its configuration
/// record and this app's receive library (both read-only), then the per-
/// message nonce record and payload hash (both writable), each derived
/// under the endpoint program.
pub open spec fn spec_accounts_for_clear(
    endpoint_program: Seq<u8>,
    oapp_address: Seq<u8>,
    src_eid: u32,
    sender: Seq<u8>,
    nonce: u64,
    guid: Seq<u8>,
) -> Option<Seq<LzAccountV>> {
    let endpoint_config = pda_of(seq![encode_utf8("EndpointConfig"@)], endpoint_program);
    let receive_library = pda_of(
        seq![encode_utf8("ReceiveLibrary"@), oapp_address],
        endpoint_program,
    );
    let nonce_account = pda_of(
        seq![
            encode_utf8("Nonce"@),
            encode_utf8(spec_nonce_seed_chars(src_eid, sender, nonce)),
        ],
        endpoint_program,
    );
    let payload_hash = pda_of(seq![encode_utf8("PayloadHash"@), guid], endpoint_program);
    if endpoint_config is Some && receive_library is Some && nonce_account is Some
        && payload_hash is Some {
        Some(
            seq![
                LzAccountV {
                    pubkey: endpoint_config.unwrap().0,
                    is_signer: false,
                    is_writable: false,
                },
                LzAccountV {
                    pubkey: receive_library.unwrap().0,
                    is_signer: false,
                    is_writable: false,
                },
                LzAccountV { pubkey: nonce_account.unwrap().0, is_signer: false, is_writable: true },
                LzAccountV { pubkey: payload_hash.unwrap().0, is_signer: false, is_writable: true },
            ],
        )
    } else {
        None
    }
}

fn pda_key(seeds: &Vec<Vec<u8>>, program_id: &[u8; 32]) -> (r: Option<[u8; 32]>)
    ensures
        match r {
            Some(key) => pda_of(seeds@.map_values(|s: Vec<u8>| s@), program_id@) matches Some(p)
                && p.0 == key@,
            None => pda_of(seeds@.map_values(|s: Vec<u8>| s@), program_id@) is None,
        },
{
    match derive_program_address(seeds, program_id) {
        Some((key, _bump)) => Some(key),
        None => None,
    }
}

/// Resolve the accounts the endpoint's clear operation needs. Fails with
/// `EndpointCpiFailed` when one of the endpoint's derived addresses cannot
/// be found (the per-message seed string is longer than the seed bound
/// allows, or no bump is viable).
#[verifier::loop_isolation(false)]
pub fn get_accounts_for_clear(
    endpoint_program: &[u8; 32],
    oapp_address: &[u8; 32],
    src_eid: u32,
    sender: &[u8; 32],
    nonce: u64,
    guid: &[u8; 32],
) -> (r: Result<Vec<LzAccount>, ErrorCode>)
    ensures
        match r {
            Ok(accounts) => spec_accounts_for_clear(
                endpoint_program@,
                oapp_address@,
                src_eid,
                sender@,
                nonce,
                guid@,
            ) == Some(accounts@.map_values(|a: LzAccount| a@)),
            Err(e) => spec_accounts_for_clear(
                endpoint_program@,
                oapp_address@,
                src_eid,
                sender@,
                nonce,
                guid@,
            ) is None && e == ErrorCode::EndpointCpiFailed,
        },
{
    let mut accounts: Vec<LzAccount> = Vec::new();

    let mut seeds: Vec<Vec<u8>> = Vec::new();
    seeds.push(str_to_bytes("EndpointConfig"));
    proof {
        assert(seeds@.map_values(|s: Vec<u8>| s@) =~= seq![encode_utf8("EndpointConfig"@)]);
    }
    let endpoint_config = match pda_key(&seeds, endpoint_program) {
        Some(key) => key,
        None => {
            return Err(ErrorCode::EndpointCpiFailed);
        },
    };

    let mut seeds: Vec<Vec<u8>> = Vec::new();
    seeds.push(str_to_bytes("ReceiveLibrary"));
    seeds.push(bytes_range(oapp_address, 0, 32));
    proof {
        assert(oapp_address@.subrange(0, 32) =~= oapp_address@);
        assert(seeds@.map_values(|s: Vec<u8>| s@) =~= seq![
            encode_utf8("ReceiveLibrary"@),
            oapp_address@,
        ]);
    }
    let receive_library = match pda_key(&seeds, endpoint_program) {
        Some(key) => key,
        None => {
            return Err(ErrorCode::EndpointCpiFailed);
        },
    };

    proof {
        reveal_strlit(":");
    }
    let mut nonce_seed = u32_to_dec(src_eid);
    nonce_seed.append(":");
    let sender_hex = bytes_to_hex(sender);
    nonce_seed.append(sender_hex.as_str());
    nonce_seed.append(":");
    let nonce_dec = u64_to_dec(nonce);
    nonce_seed.append(nonce_dec.as_str());
    proof {
        assert(nonce_seed@ =~= spec_nonce_seed_chars(src_eid, sender@, nonce));
    }

    let mut seeds: Vec<Vec<u8>> = Vec::new();
    seeds.push(str_to_bytes("Nonce"));
    seeds.push(str_to_bytes(nonce_seed.as_str()));
    proof {
        assert(seeds@.map_values(|s: Vec<u8>| s@) =~= seq![
            encode_utf8("Nonce"@),
            encode_utf8(spec_nonce_seed_chars(src_eid, sender@, nonce)),
        ]);
    }
    let nonce_account = match pda_key(&seeds, endpoint_program) {
        Some(key) => key,
        None => {
            return Err(ErrorCode::EndpointCpiFailed);
        },
    };

    let mut seeds: Vec<Vec<u8>> = Vec::new();
    seeds.push(str_to_bytes("PayloadHash"));
    seeds.push(bytes_range(guid, 0, 32));
    proof {
        assert(guid@.subrange(0, 32) =~= guid@);
        assert(seeds@.map_values(|s: Vec<u8>| s@) =~= seq![
            encode_utf8("PayloadHash"@),
            guid@,
        ]);
    }
    let payload_hash = match pda_key(&seeds, endpoint_program) {
        Some(key) => key,
        None => {
            return Err(ErrorCode::EndpointCpiFailed);
        },
    };

    accounts.push(LzAccount { pubkey: endpoint_config, is_signer: false, is_writable: false });
    accounts.push(LzAccount { pubkey: receive_library, is_signer: false, is_writable: false });
    accounts.push(LzAccount { pubkey: nonce_account, is_signer: false, is_writable: true });
    accounts.push(LzAccount { pubkey: payload_hash, is_signer: false, is_writable: true });
    proof {
        assert(accounts@.map_values(|a: LzAccount| a@) =~= spec_accounts_for_clear(
            endpoint_program@,
            oapp_address@,
            src_eid,
            sender@,
            nonce,
            guid@,
        ).unwrap());
    }
    Ok(accounts)
}

/// The accounts the endpoint's compose-send operation needs: the compose
/// queue record for this receiver and message (writable), then the system
/// program (the all-zero address, read-only) for account creation.
pub open spec fn spec_accounts_for_send_compose(
    endpoint_program: Seq<u8>,
    receiver: Seq<u8>,
    guid: Seq<u8>,
) -> Option<Seq<LzAccountV>> {
    let compose_queue = pda_of(
        seq![encode_utf8("ComposeQueue"@), receiver, guid],
        endpoint_program,
    );
    match compose_queue {
        Some((key, _)) => Some(
            seq![
                LzAccountV { pubkey: key, is_signer: false, is_writable: true },
                LzAccountV {
                    pubkey: Seq::new(32, |i: int| 0u8),
                    is_signer: false,
                    is_writable: false,
                },
            ],
        ),
        None => None,
    }
}

/// Resolve the accounts the endpoint's compose-send operation needs.
#[verifier::loop_isolation(false)]
pub fn get_accounts_for_send_compose(
    endpoint_program: &[u8; 32],
    payer: &[u8; 32],
    receiver: &[u8; 32],
    guid: &[u8; 32],
    message: &[u8],
) -> (r: Result<Vec<LzAccount>, ErrorCode>)
    ensures
        match r {
            Ok(accounts) => spec_accounts_for_send_compose(endpoint_program@, receiver@, guid@)
                == Some(accounts@.map_values(|a: LzAccount| a@)),
            Err(e) => spec_accounts_for_send_compose(endpoint_program@, receiver@, guid@) is None
                && e == ErrorCode::EndpointCpiFailed,
        },
{
    let mut seeds: Vec<Vec<u8>> = Vec::new();
    seeds.push(str_to_bytes("ComposeQueue"));
    seeds.push(bytes_range(receiver, 0, 32));
    seeds.push(bytes_range(guid, 0, 32));
    proof {
        assert(receiver@.subrange(0, 32) =~= receiver@);
        assert(guid@.subrange(0, 32) =~= guid@);
        assert(seeds@.map_values(|s: Vec<u8>| s@) =~= seq![
            encode_utf8("ComposeQueue"@),
            receiver@,
            guid@,
        ]);
    }
    let compose_queue = match pda_key(&seeds, endpoint_program) {
        Some(key) => key,
        None => {
            return Err(ErrorCode::EndpointCpiFailed);
        },
    };

    let mut accounts: Vec<LzAccount> = Vec::new();
    accounts.push(LzAccount { pubkey: compose_queue, is_signer: false, is_writable: true });
    accounts.push(LzAccount { pubkey: [0; 32], is_signer: false, is_writable: false });
    proof {
        assert(accounts@[1]@.pubkey =~= Seq::new(32, |i: int| 0u8));
        assert(accounts@.map_values(|a: LzAccount| a@) =~= spec_accounts_for_send_compose(
            endpoint_program@,
            receiver@,
            guid@,
        ).unwrap());
    }
    Ok(accounts)
}

/// The exact account list an executor must pass to the delivery call: first
/// the writable store record, then the read-only peer record for the
/// message's origin, then the read-only type-registry record, then the
/// endpoint program, in that fixed order; after them the accounts the
/// endpoint's clear operation needs, and, for a compose message, those its
/// compose-send operation needs.
pub open spec fn spec_receive_types_accounts(
    store: crate::oapp_store::OAppStoreV,
    store_key: Seq<u8>,
    lz_receive_types_key: Seq<u8>,
    params_src_eid: u32,
    params_sender: Seq<u8>,
    params_nonce: u64,
    params_guid: Seq<u8>,
    params_message: Seq<u8>,
) -> Option<Seq<LzAccountV>> {
    let peer = pda_of(
        seq![spec_peer_seed(), store_key, spec_u32_to_le_bytes(params_src_eid)],
        PROGRAM_ID@,
    );
    if peer is None {
        None
    } else {
        let head = seq![
            LzAccountV { pubkey: store_key, is_signer: false, is_writable: true },
            LzAccountV { pubkey: peer.unwrap().0, is_signer: false, is_writable: false },
            LzAccountV { pubkey: lz_receive_types_key, is_signer: false, is_writable: false },
            LzAccountV { pubkey: store.endpoint, is_signer: false, is_writable: false },
        ];
        match spec_accounts_for_clear(
            store.endpoint,
            store_key,
            params_src_eid,
            params_sender,
            params_nonce,
            params_guid,
        ) {
            None => None,
            Some(clear_accounts) => {
                if params_message.len() >= 1 && params_message[0] == 0xffu8 {
                    match spec_accounts_for_send_compose(
                        store.endpoint,
                        store_key,
                        params_guid,
                    ) {
                        None => None,
                        Some(compose_accounts) => Some(head + clear_accounts + compose_accounts),
                    }
                } else {
                    Some(head + clear_accounts)
                }
            },
        }
    }
}

/// Resolve the ordered account list the delivery call will need, so a
/// caller can pre-resolve them. Fails with `PeerNotFound` when no peer
/// record address can be derived for the origin, and `EndpointCpiFailed`
/// when one of the endpoint's own records cannot be derived.
#[verifier::loop_isolation(false)]
pub fn lz_receive_types_handler(
    store: &OAppStore,
    store_key: &[u8; 32],
    lz_receive_types_key: &[u8; 32],
    params: &LzReceiveParams,
) -> (r: Result<Vec<LzAccount>, ErrorCode>)
    ensures
        match r {
            Ok(accounts) => spec_receive_types_accounts(
                store@,
                store_key@,
                lz_receive_types_key@,
                params.src_eid,
                params.sender@,
                params.nonce,
                params.guid@,
                params.message@,
            ) == Some(accounts@.map_values(|a: LzAccount| a@)),
            Err(e) => spec_receive_types_accounts(
                store@,
                store_key@,
                lz_receive_types_key@,
                params.src_eid,
                params.sender@,
                params.nonce,
                params.guid@,
                params.message@,
            ) is None && (e == ErrorCode::PeerNotFound || e == ErrorCode::EndpointCpiFailed),
        },
{
    let mut seeds: Vec<Vec<u8>> = Vec::new();
    seeds.push(str_to_bytes("Peer"));
    seeds.push(bytes_range(store_key, 0, 32));
    seeds.push(u32_to_le_bytes(params.src_eid));
    proof {
        assert(store_key@.subrange(0, 32) =~= store_key@);
        assert(seeds@.map_values(|s: Vec<u8>| s@) =~= seq![
            spec_peer_seed(),
            store_key@,
            spec_u32_to_le_bytes(params.src_eid),
        ]);
    }
    let peer_key = match pda_key(&seeds, &PROGRAM_ID) {
        Some(key) => key,
        None => {
            return Err(ErrorCode::PeerNotFound);
        },
    };

    let mut accounts: Vec<LzAccount> = Vec::new();
    accounts.push(LzAccount { pubkey: *store_key, is_signer: false, is_writable: true });
    accounts.push(LzAccount { pubkey: peer_key, is_signer: false, is_writable: false });
    accounts.push(
        LzAccount { pubkey: *lz_receive_types_key, is_signer: false, is_writable: false },
    );
    accounts.push(LzAccount { pubkey: store.endpoint, is_signer: false, is_writable: false });

    let mut clear_accounts = match get_accounts_for_clear(
        &store.endpoint,
        store_key,
        params.src_eid,
        &params.sender,
        params.nonce,
        &params.guid,
    ) {
        Ok(a) => a,
        Err(e) => {
            return Err(e);
        },
    };
    accounts.append(&mut clear_accounts);

    if is_compose_message(params.message.as_slice()) {
        let mut compose_accounts = match get_accounts_for_send_compose(
            &store.endpoint,
            store_key,
            store_key,
            &params.guid,
            params.message.as_slice(),
        ) {
            Ok(a) => a,
            Err(e) => {
                return Err(e);
            },
        };
        accounts.append(&mut compose_accounts);
    }
    proof {
        assert(accounts@.map_values(|a: LzAccount| a@) =~= spec_receive_types_accounts(
            store@,
            store_key@,
            lz_receive_types_key@,
            params.src_eid,
            params.sender@,
            params.nonce,
            params.guid@,
            params.message@,
        ).unwrap());
    }
    Ok(accounts)
}

} // verus!
