//! The escrow record: one per pay request.
use vstd::prelude::*;
use vstd::utf8::encode_utf8;
use crate::key::PublicKey;

verus! {

/// The most bytes a secret seed may take.
pub const MAX_SEED_BYTES: usize = 32;

/// The bytes of a secret seed, as UTF-8.
pub open spec fn seed_bytes(seed: Seq<char>) -> Seq<u8> {
    encode_utf8(seed)
}

/// The state of one pay request.
#[derive(Clone, Debug)]
pub struct EscrowAccount {
    /// The only identity that may sweep the funds.
    pub receiver: PublicKey,
    /// The least amount that settles the escrow.
    pub amount: u64,
    /// The receiver's secret, part of the escrow's address.
    pub secret_seed: String,
    /// The bump that the address derivation produced.
    pub bump: u8,
    /// Whether a payer has funded the escrow.
    pub settled: bool,
    /// Whether the receiver has taken the funds out.
    pub swept: bool,
}

impl EscrowAccount {
    /// The bytes the record's fields take in storage: the receiver, the
    /// amount, the seed with its length prefix, the bump and the two flags.
    pub const LEN: usize = 32 + 8 + 4 + 32 + 1 + 1 + 1;

    /// The seed fits its reserved width, and the lifecycle never sweeps an
    /// escrow that was not settled.
    pub open spec fn wf(&self) -> bool {
        &&& seed_bytes(self.secret_seed@).len() <= MAX_SEED_BYTES
        &&& (self.swept ==> self.settled)
    }

    /// A record just created: neither settled nor swept.
    pub open spec fn is_fresh(&self) -> bool {
        !self.settled && !self.swept
    }
}

} // verus!
