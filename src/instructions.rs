//! The three operations of a pay request's lifecycle: create, settle, sweep.
//!
//! Each operation receives, as plain values, the accounts it works on and
//! their balances, and either applies all of its effects or none of them.
use vstd::prelude::*;
use crate::address::{derive_escrow_address, derive_spec};
use crate::error::ShadowPayError;
use crate::escrow::EscrowAccount;
use crate::key::PublicKey;

verus! {

/// The accounts of a create: the receiver, who signs and pays, and the
/// program that will own the record.
#[derive(Clone, Copy, Debug)]
pub struct CreatePayRequest {
    pub receiver: PublicKey,
    pub program_id: PublicKey,
}

/// The accounts of a settle: the paying signer and the escrow, with their
/// balances.
#[derive(Clone, Debug)]
pub struct SettlePayment {
    pub payer: PublicKey,
    pub payer_lamports: u64,
    pub escrow: EscrowAccount,
    pub escrow_lamports: u64,
}

/// The accounts of a sweep: the signer that claims the funds and the
/// escrow, with their balances, and the least balance that keeps the escrow
/// alive on the ledger.
#[derive(Clone, Debug)]
pub struct SweepFunds {
    pub receiver: PublicKey,
    pub receiver_lamports: u64,
    pub escrow: EscrowAccount,
    pub escrow_lamports: u64,
    pub reserve: u64,
}

/// The record that a create makes, at `address`, for these inputs.
pub open spec fn is_created(
    ctx: CreatePayRequest,
    secret_seed: Seq<char>,
    amount: u64,
    address: PublicKey,
    record: EscrowAccount,
) -> bool {
    &&& derive_spec(ctx.program_id@, ctx.receiver@, secret_seed) == Ok::<
        (Seq<u8>, u8),
        ShadowPayError,
    >((address@, record.bump))
    &&& record.receiver == ctx.receiver
    &&& record.amount == amount
    &&& record.secret_seed@ == secret_seed
    &&& record.is_fresh()
}

/// Creates the pay request of `ctx.receiver` under `secret_seed`, for at
/// least `amount`: the record and the address it lives at.
pub fn create_pay_request(ctx: &CreatePayRequest, secret_seed: String, amount: u64) -> (r: Result<
    (PublicKey, EscrowAccount),
    ShadowPayError,
>)
    ensures
        r matches Ok((address, record)) ==> is_created(*ctx, secret_seed@, amount, address, record)
            && record.wf(),
        r matches Err(e) ==> derive_spec(ctx.program_id@, ctx.receiver@, secret_seed@) == Err::<
            (Seq<u8>, u8),
            ShadowPayError,
        >(e),
{
    let (address, bump) = derive_escrow_address(
        &ctx.program_id,
        &ctx.receiver,
        secret_seed.as_str(),
    )?;
    let record = EscrowAccount {
        receiver: ctx.receiver,
        amount,
        secret_seed,
        bump,
        settled: false,
        swept: false,
    };
    Ok((address, record))
}

/// Why a settle of `amount` on `ctx` is refused, checked in this order; `None`
/// where it goes through.
pub open spec fn settle_error(ctx: SettlePayment, amount: u64) -> Option<ShadowPayError> {
    if ctx.escrow.settled {
        Some(ShadowPayError::AlreadySettled)
    } else if amount < ctx.escrow.amount {
        Some(ShadowPayError::InsufficientAmount)
    } else if ctx.payer_lamports < amount || ctx.escrow_lamports + amount > u64::MAX {
        Some(ShadowPayError::TransferFailed)
    } else {
        None
    }
}

/// The accounts after a settle of `amount` went through: the amount moved
/// from the payer to the escrow, and the escrow marked settled.
pub open spec fn settled_state(ctx: SettlePayment, amount: u64) -> SettlePayment {
    SettlePayment {
        payer_lamports: (ctx.payer_lamports - amount) as u64,
        escrow_lamports: (ctx.escrow_lamports + amount) as u64,
        escrow: EscrowAccount { settled: true, ..ctx.escrow },
        ..ctx
    }
}

/// What a settle returns.
pub open spec fn settle_result(ctx: SettlePayment, amount: u64) -> Result<(), ShadowPayError> {
    match settle_error(ctx, amount) {
        Some(e) => Err(e),
        None => Ok(()),
    }
}

/// Settles the escrow of `ctx` with `amount` from the payer.
pub fn settle_payment(ctx: &mut SettlePayment, amount: u64) -> (r: Result<(), ShadowPayError>)
    ensures
        r == settle_result(*old(ctx), amount),
        r is Ok ==> *final(ctx) == settled_state(*old(ctx), amount),
        r is Ok ==> final(ctx).escrow_lamports >= final(ctx).escrow.amount,
        r is Err ==> *final(ctx) == *old(ctx),
        old(ctx).escrow.wf() ==> final(ctx).escrow.wf(),
{
    if ctx.escrow.settled {
        return Err(ShadowPayError::AlreadySettled);
    }
    if amount < ctx.escrow.amount {
        return Err(ShadowPayError::InsufficientAmount);
    }
    if ctx.payer_lamports < amount || ctx.escrow_lamports > u64::MAX - amount {
        return Err(ShadowPayError::TransferFailed);
    }
    ctx.payer_lamports = ctx.payer_lamports - amount;
    ctx.escrow_lamports = ctx.escrow_lamports + amount;
    ctx.escrow.settled = true;
    Ok(())
}

/// The amount a sweep moves: all the escrow holds above its reserve.
pub open spec fn sweep_amount(ctx: SweepFunds) -> int {
    ctx.escrow_lamports - ctx.reserve
}

/// Why a sweep of `ctx` is refused, checked in this order; `None` where it
/// goes through.
pub open spec fn sweep_error(ctx: SweepFunds) -> Option<ShadowPayError> {
    if !ctx.escrow.settled {
        Some(ShadowPayError::NotSettled)
    } else if ctx.escrow.swept {
        Some(ShadowPayError::AlreadySwept)
    } else if ctx.receiver@ != ctx.escrow.receiver@ {
        Some(ShadowPayError::UnauthorizedReceiver)
    } else if ctx.escrow_lamports <= ctx.reserve {
        Some(ShadowPayError::InsufficientFunds)
    } else if ctx.receiver_lamports + sweep_amount(ctx) > u64::MAX {
        Some(ShadowPayError::TransferFailed)
    } else {
        None
    }
}

/// The accounts after a sweep went through: the escrow keeps exactly its
/// reserve, the rest goes to the receiver, and the escrow is marked swept.
pub open spec fn swept_state(ctx: SweepFunds) -> SweepFunds {
    SweepFunds {
        receiver_lamports: (ctx.receiver_lamports + sweep_amount(ctx)) as u64,
        escrow_lamports: ctx.reserve,
        escrow: EscrowAccount { swept: true, ..ctx.escrow },
        ..ctx
    }
}

/// What a sweep returns.
pub open spec fn sweep_result(ctx: SweepFunds) -> Result<(), ShadowPayError> {
    match sweep_error(ctx) {
        Some(e) => Err(e),
        None => Ok(()),
    }
}

/// Moves the settled funds of the escrow of `ctx`, all but its reserve, to
/// the signer, who must be the escrow's stored receiver.
pub fn sweep_funds(ctx: &mut SweepFunds) -> (r: Result<(), ShadowPayError>)
    ensures
        r == sweep_result(*old(ctx)),
        r is Ok ==> *final(ctx) == swept_state(*old(ctx)),
        r is Err ==> *final(ctx) == *old(ctx),
        old(ctx).escrow.wf() ==> final(ctx).escrow.wf(),
{
    if !ctx.escrow.settled {
        return Err(ShadowPayError::NotSettled);
    }
    if ctx.escrow.swept {
        return Err(ShadowPayError::AlreadySwept);
    }
    if ctx.receiver != ctx.escrow.receiver {
        return Err(ShadowPayError::UnauthorizedReceiver);
    }
    if ctx.escrow_lamports <= ctx.reserve {
        return Err(ShadowPayError::InsufficientFunds);
    }
    let transfer_amount: u64 = ctx.escrow_lamports - ctx.reserve;
    if ctx.receiver_lamports > u64::MAX - transfer_amount {
        return Err(ShadowPayError::TransferFailed);
    }
    ctx.escrow_lamports = ctx.escrow_lamports - transfer_amount;
    ctx.receiver_lamports = ctx.receiver_lamports + transfer_amount;
    ctx.escrow.swept = true;
    Ok(())
}

} // verus!
