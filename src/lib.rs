//! A privacy-preserving payment escrow.
//!
//! A receiver derives an escrow address from its identity and a secret seed,
//! a payer settles the escrow by funding it, and the receiver sweeps the funds
//! out. Each operation checks its preconditions before it changes anything:
//! an operation that fails leaves every flag and balance as it found it.
pub mod address;
pub mod error;
pub mod escrow;
pub mod instructions;
pub mod key;
pub mod laws;
