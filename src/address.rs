//! Deterministic derivation of an escrow's address from its receiver and a
//! secret seed.
use vstd::prelude::*;
use anchor_lang::solana_program::pubkey::Pubkey;
use crate::error::ShadowPayError;
use crate::escrow::{seed_bytes, EscrowAccount, MAX_SEED_BYTES};
use crate::key::PublicKey;

verus! {

/// The program address, and its bump, that the ledger derives from a list of
/// seeds under a program id; `None` where no bump gives one.
pub uninterp spec fn program_address(seeds: Seq<Seq<u8>>, program_id: Seq<u8>) -> Option<(Seq<u8>, u8)>;

/// Relies on `Pubkey::try_find_program_address` of solana-program (as
/// re-exported by anchor-lang): its result is a function of the seeds and the
/// program id alone, and it is `None` where a seed is longer than 32 bytes.
#[verifier::external_body]
fn try_find_program_address(tag: &[u8], key: &PublicKey, seed: &[u8], program_id: &PublicKey) -> (r:
    Option<(PublicKey, u8)>)
    ensures
        r is None <==> program_address(seq![tag@, key@, seed@], program_id@) is None,
        r matches Some((k, b)) ==> program_address(seq![tag@, key@, seed@], program_id@) == Some(
            (k@, b),
        ),
        tag@.len() > 32 || seed@.len() > 32 ==> r is None,
{
    let seeds: [&[u8]; 3] = [tag, key.bytes.as_slice(), seed];
    let program_id = Pubkey::new_from_array(program_id.bytes);
    Pubkey::try_find_program_address(&seeds, &program_id).map(
        |(k, b)| (PublicKey { bytes: k.to_bytes() }, b),
    )
}

/// The id of the program that owns every escrow record.
pub const PROGRAM_ID: [u8; 32] = [
    73, 43, 92, 242, 121, 222, 59, 50, 10, 108, 77, 169, 74, 159, 187, 68, 175, 146, 57, 157, 100,
    153, 249, 65, 52, 152, 111, 28, 32, 17, 228, 172,
];

/// The domain tag that opens an escrow's seeds: the bytes of "escrow".
pub open spec fn escrow_tag() -> Seq<u8> {
    seq![101u8, 115u8, 99u8, 114u8, 111u8, 119u8]
}

/// The seeds of the escrow of `receiver` under the secret seed `seed`.
pub open spec fn escrow_seeds(receiver: Seq<u8>, seed: Seq<char>) -> Seq<Seq<u8>> {
    seq![escrow_tag(), receiver, seed_bytes(seed)]
}

/// What deriving the escrow address gives: the seed is refused where it is
/// too long, else the program address of the escrow's seeds, if there is one.
pub open spec fn derive_spec(program_id: Seq<u8>, receiver: Seq<u8>, seed: Seq<char>) -> Result<
    (Seq<u8>, u8),
    ShadowPayError,
> {
    if seed_bytes(seed).len() > MAX_SEED_BYTES {
        Err(ShadowPayError::InvalidSeedLength)
    } else {
        match program_address(escrow_seeds(receiver, seed), program_id) {
            Some(found) => Ok(found),
            None => Err(ShadowPayError::AddressNotFound),
        }
    }
}

/// The result `r` is what deriving gives on these inputs.
pub open spec fn is_derivation(
    program_id: Seq<u8>,
    receiver: Seq<u8>,
    seed: Seq<char>,
    r: Result<(PublicKey, u8), ShadowPayError>,
) -> bool {
    match r {
        Ok((address, bump)) => derive_spec(program_id, receiver, seed) == Ok::<
            (Seq<u8>, u8),
            ShadowPayError,
        >((address@, bump)),
        Err(e) => derive_spec(program_id, receiver, seed) == Err::<(Seq<u8>, u8), ShadowPayError>(e),
    }
}

/// The escrow tag as a vector.
fn escrow_tag_vec() -> (r: Vec<u8>)
    ensures
        r@ == escrow_tag(),
{
    // "escrow" in ASCII
    let r: Vec<u8> = vec![101u8, 115u8, 99u8, 114u8, 111u8, 119u8];
    assert(r@ =~= escrow_tag());
    r
}

/// Derives the address and bump of the escrow of `receiver` under
/// `secret_seed`, for the program `program_id`.
pub fn derive_escrow_address(program_id: &PublicKey, receiver: &PublicKey, secret_seed: &str) -> (r:
    Result<(PublicKey, u8), ShadowPayError>)
    ensures
        is_derivation(program_id@, receiver@, secret_seed@, r),
{
    let seed: &[u8] = secret_seed.as_bytes();
    if seed.len() > MAX_SEED_BYTES {
        return Err(ShadowPayError::InvalidSeedLength);
    }
    let tag = escrow_tag_vec();
    match try_find_program_address(tag.as_slice(), receiver, seed, program_id) {
        Some(found) => {
            assert(seq![tag@, receiver@, seed@] =~= escrow_seeds(receiver@, secret_seed@));
            Ok(found)
        },
        None => {
            assert(seq![tag@, receiver@, seed@] =~= escrow_seeds(receiver@, secret_seed@));
            Err(ShadowPayError::AddressNotFound)
        },
    }
}

/// Whether `address` is the escrow address of `record`: the one derived from
/// its receiver and secret seed, with the bump it stores.
pub fn is_escrow_address(program_id: &PublicKey, address: &PublicKey, record: &EscrowAccount) -> (r:
    bool)
    ensures
        r == (derive_spec(program_id@, record.receiver@, record.secret_seed@) == Ok::<
            (Seq<u8>, u8),
            ShadowPayError,
        >((address@, record.bump))),
{
    match derive_escrow_address(program_id, &record.receiver, record.secret_seed.as_str()) {
        Ok((derived, bump)) => derived == *address && bump == record.bump,
        Err(_) => false,
    }
}

} // verus!
