//! Properties of the escrow lifecycle that hold across calls.
use vstd::prelude::*;
use crate::address::is_derivation;
use crate::error::ShadowPayError;
use crate::instructions::{
    settle_error,
    settle_result,
    settled_state,
    sweep_error,
    sweep_result,
    swept_state,
    SettlePayment,
    SweepFunds,
};
use crate::key::{lemma_view_injective, PublicKey};

verus! {

/// Deriving is deterministic: two derivations from the same program id,
/// receiver and secret seed give the same address and bump, or the same error.
pub proof fn lemma_derive_deterministic(
    program_id: Seq<u8>,
    receiver: Seq<u8>,
    secret_seed: Seq<char>,
    r1: Result<(PublicKey, u8), ShadowPayError>,
    r2: Result<(PublicKey, u8), ShadowPayError>,
)
    requires
        is_derivation(program_id, receiver, secret_seed, r1),
        is_derivation(program_id, receiver, secret_seed, r2),
    ensures
        r1 == r2,
{
    if let (Ok((a1, _)), Ok((a2, _))) = (r1, r2) {
        lemma_view_injective(a1, a2);
    }
}

/// Once a settle has gone through, a second settle of any amount, by any
/// payer, is refused with `AlreadySettled` (and, being refused, changes
/// nothing).
pub proof fn lemma_settle_twice(ctx: SettlePayment, first: u64, next: SettlePayment, second: u64)
    requires
        settle_error(ctx, first) is None,
        next.escrow == settled_state(ctx, first).escrow,
    ensures
        settle_result(next, second) == Err::<(), ShadowPayError>(
            ShadowPayError::AlreadySettled,
        ),
{
}

/// A settle of less than the escrow asks for is refused with
/// `InsufficientAmount`, and nothing moves.
pub proof fn lemma_settle_short(ctx: SettlePayment, amount: u64)
    requires
        !ctx.escrow.settled,
        amount < ctx.escrow.amount,
    ensures
        settle_result(ctx, amount) == Err::<(), ShadowPayError>(ShadowPayError::InsufficientAmount),
{
}

/// A sweep before any settle is refused with `NotSettled`.
pub proof fn lemma_sweep_before_settle(ctx: SweepFunds)
    requires
        !ctx.escrow.settled,
    ensures
        sweep_result(ctx) == Err::<(), ShadowPayError>(ShadowPayError::NotSettled),
{
}

/// Once a sweep has gone through, a second sweep is refused with
/// `AlreadySwept`, whoever asks and whatever the balances are.
pub proof fn lemma_sweep_twice(ctx: SweepFunds, next: SweepFunds)
    requires
        sweep_error(ctx) is None,
        next.escrow == swept_state(ctx).escrow,
    ensures
        sweep_result(next) == Err::<(), ShadowPayError>(ShadowPayError::AlreadySwept),
{
}

/// On a settled escrow not yet swept, a sweep by any identity other than the
/// stored receiver is refused with `UnauthorizedReceiver`, whatever the
/// balances are.
pub proof fn lemma_sweep_by_stranger(ctx: SweepFunds)
    requires
        ctx.escrow.settled,
        !ctx.escrow.swept,
        ctx.receiver@ != ctx.escrow.receiver@,
    ensures
        sweep_result(ctx) == Err::<(), ShadowPayError>(ShadowPayError::UnauthorizedReceiver),
{
}

} // verus!
