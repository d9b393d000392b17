//! The errors that the escrow operations report.
use vstd::prelude::*;

verus! {

/// Why an operation was refused. Every refusal happens before any change.
#[derive(Clone, Copy, Debug, PartialEq, Eq, Structural)]
pub enum ShadowPayError {
    /// The escrow was settled before.
    AlreadySettled,
    /// The escrow has not been settled yet.
    NotSettled,
    /// The escrow's funds were swept before.
    AlreadySwept,
    /// The payer offered less than the escrow asks for.
    InsufficientAmount,
    /// The escrow holds no more than its reserve.
    InsufficientFunds,
    /// The caller is not the escrow's receiver.
    UnauthorizedReceiver,
    /// The secret seed is longer than the 32 bytes the record reserves for it.
    InvalidSeedLength,
    /// No bump turns the seeds into a valid program address.
    AddressNotFound,
    /// The ledger cannot move the value: the source holds too little, or
    /// the destination's balance would exceed the largest balance.
    TransferFailed,
}

/// The message shown for each error.
pub open spec fn error_message(e: ShadowPayError) -> Seq<char> {
    match e {
        ShadowPayError::AlreadySettled => "Payment already settled"@,
        ShadowPayError::NotSettled => "Payment not yet settled"@,
        ShadowPayError::AlreadySwept => "Funds already swept"@,
        ShadowPayError::InsufficientAmount => "Insufficient amount provided"@,
        ShadowPayError::InsufficientFunds => "Insufficient funds in escrow"@,
        ShadowPayError::UnauthorizedReceiver => "Unauthorized receiver"@,
        ShadowPayError::InvalidSeedLength => "Secret seed longer than 32 bytes"@,
        ShadowPayError::AddressNotFound => "No valid escrow address for these seeds"@,
        ShadowPayError::TransferFailed => "Value transfer refused by the ledger"@,
    }
}

impl ShadowPayError {
    /// The human-readable message of this error.
    pub fn message(&self) -> (r: &'static str)
        ensures
            r@ == error_message(*self),
    {
        match self {
            ShadowPayError::AlreadySettled => "Payment already settled",
            ShadowPayError::NotSettled => "Payment not yet settled",
            ShadowPayError::AlreadySwept => "Funds already swept",
            ShadowPayError::InsufficientAmount => "Insufficient amount provided",
            ShadowPayError::InsufficientFunds => "Insufficient funds in escrow",
            ShadowPayError::UnauthorizedReceiver => "Unauthorized receiver",
            ShadowPayError::InvalidSeedLength => "Secret seed longer than 32 bytes",
            ShadowPayError::AddressNotFound => "No valid escrow address for these seeds",
            ShadowPayError::TransferFailed => "Value transfer refused by the ledger",
        }
    }
}

} // verus!
