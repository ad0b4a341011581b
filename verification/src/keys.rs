use vstd::prelude::*;

verus! {

// This program's own on-chain address (base58
// "GNkuaJZASsQSS1C5eU5x8mB63Lhty3MgpiK6tsg8dchf"), as raw bytes.
pub const PROGRAM_ID: [u8; 32] = [
    228, 114, 37, 100, 195, 133, 161, 248, 199, 198, 84, 240, 142, 197, 237, 40, 145, 129, 2, 16,
    194, 238, 224, 84, 80, 110, 181, 52, 192, 71, 30, 146,
];

/// A 32-byte account key is the default (all-zero) key.
pub open spec fn spec_is_zero_key(k: Seq<u8>) -> bool {
    forall|i: int| 0 <= i < k.len() ==> k[i] == 0u8
}

pub fn keys_equal(a: &[u8; 32], b: &[u8; 32]) -> (r: bool)
    ensures
        r == (a@ =~= b@),
{
    let mut i: usize = 0;
    while i < 32
        invariant
            i <= 32,
            forall|j: int| 0 <= j < i ==> a@[j] == b@[j],
        decreases 32 - i,
    {
        if a[i] != b[i] {
            assert(a@[i as int] != b@[i as int]);
            return false;
        }
        i = i + 1;
    }
    true
}

pub fn is_zero_key(k: &[u8; 32]) -> (r: bool)
    ensures
        r == spec_is_zero_key(k@),
{
    let mut i: usize = 0;
    while i < 32
        invariant
            i <= 32,
            forall|j: int| 0 <= j < i ==> k@[j] == 0u8,
        decreases 32 - i,
    {
        if k[i] != 0 {
            assert(k@[i as int] != 0u8);
            return false;
        }
        i = i + 1;
    }
    true
}

/// What solana's program-derived-address search returns for given seeds and
/// program id: a deterministic derivation, `None` only when no bump seed
/// yields an address off the ed25519 curve or the seeds break its limits.
pub uninterp spec fn pda_of(seeds: Seq<Seq<u8>>, program_id: Seq<u8>) -> Option<(Seq<u8>, u8)>;

/// Relies on Pubkey::try_find_program_address (anchor_lang's re-export of
/// solana-address): the result is a pure function of the seeds and the
/// program id, `None` exactly when no bump seed can be found.
#[verifier::external_body]
pub fn derive_program_address(seeds: &Vec<Vec<u8>>, program_id: &[u8; 32]) -> (r: Option<
    ([u8; 32], u8),
>)
    ensures
        match r {
            Some((key, bump)) => pda_of(seeds@.map_values(|s: Vec<u8>| s@), program_id@) == Some(
                (key@, bump),
            ),
            None => pda_of(seeds@.map_values(|s: Vec<u8>| s@), program_id@) is None,
        },
{
    let seed_slices: Vec<&[u8]> = seeds.iter().map(|s| s.as_slice()).collect();
    let pk = anchor_lang::prelude::Pubkey::new_from_array(*program_id);
    anchor_lang::prelude::Pubkey::try_find_program_address(&seed_slices, &pk)
        .map(|(key, bump)| (key.to_bytes(), bump))
}

/// What solana's base58 rendering of a 32-byte account key returns: a pure
/// function of the key bytes.
pub uninterp spec fn base58_of(key: Seq<u8>) -> Seq<char>;

/// Relies on the Display impl of Pubkey (anchor_lang's re-export of
/// solana-address), which renders the key bytes in base58.
#[verifier::external_body]
pub fn key_to_base58(key: &[u8; 32]) -> (r: String)
    ensures
        r@ == base58_of(key@),
{
    let pk = anchor_lang::prelude::Pubkey::new_from_array(*key);
    pk.to_string()
}

} // verus!
