use shadow_pay::error::ShadowPayError;
use shadow_pay::escrow::EscrowAccount;
use shadow_pay::instructions::{
    create_pay_request, settle_payment, sweep_funds, CreatePayRequest, SettlePayment, SweepFunds,
};
use shadow_pay::key::PublicKey;

fn key(b: u8) -> PublicKey {
    PublicKey::new([b; 32])
}

fn record(amount: u64) -> EscrowAccount {
    EscrowAccount {
        receiver: key(7),
        amount,
        secret_seed: String::from("my-secret"),
        bump: 254,
        settled: false,
        swept: false,
    }
}

fn settle_ctx(escrow: EscrowAccount, payer_lamports: u64, escrow_lamports: u64) -> SettlePayment {
    SettlePayment { payer: key(9), payer_lamports, escrow, escrow_lamports }
}

fn sweep_ctx(escrow: EscrowAccount, signer: PublicKey, escrow_lamports: u64, reserve: u64) -> SweepFunds {
    SweepFunds { receiver: signer, receiver_lamports: 50, escrow, escrow_lamports, reserve }
}

fn settle_state(c: &SettlePayment) -> (bool, bool, u64, u64) {
    (c.escrow.settled, c.escrow.swept, c.payer_lamports, c.escrow_lamports)
}

fn sweep_state(c: &SweepFunds) -> (bool, bool, u64, u64) {
    (c.escrow.settled, c.escrow.swept, c.receiver_lamports, c.escrow_lamports)
}

#[test]
fn create_settle_sweep_round() {
    let program_id = PublicKey::new(shadow_pay::address::PROGRAM_ID);
    let ctx = CreatePayRequest { receiver: key(7), program_id };
    let (_address, rec) = create_pay_request(&ctx, String::from("my-secret"), 1000).unwrap();
    assert!(!rec.settled && !rec.swept);
    assert_eq!(rec.amount, 1000);

    let mut s = settle_ctx(rec, 5000, 0);
    assert_eq!(settle_payment(&mut s, 1000), Ok(()));
    assert!(s.escrow.settled);
    assert_eq!(s.escrow_lamports, 1000);
    assert_eq!(s.payer_lamports, 4000);

    let reserve = 100;
    let mut w = sweep_ctx(s.escrow.clone(), key(7), s.escrow_lamports, reserve);
    assert_eq!(sweep_funds(&mut w), Ok(()));
    assert!(w.escrow.swept);
    assert_eq!(w.receiver_lamports, 50 + (1000 - reserve));
    assert_eq!(w.escrow_lamports, reserve);
}

#[test]
fn settle_twice_is_refused() {
    let mut s = settle_ctx(record(1000), 5000, 0);
    assert_eq!(settle_payment(&mut s, 1000), Ok(()));
    let before = settle_state(&s);
    assert_eq!(settle_payment(&mut s, 1000), Err(ShadowPayError::AlreadySettled));
    assert_eq!(settle_state(&s), before);
    assert_eq!(s.escrow_lamports, 1000);
}

#[test]
fn settle_short_amount_is_refused() {
    let mut s = settle_ctx(record(1000), 5000, 0);
    assert_eq!(settle_payment(&mut s, 500), Err(ShadowPayError::InsufficientAmount));
    assert_eq!(settle_state(&s), (false, false, 5000, 0));
}

#[test]
fn settle_more_than_asked_keeps_excess() {
    let mut s = settle_ctx(record(1000), 5000, 0);
    assert_eq!(settle_payment(&mut s, 1500), Ok(()));
    assert_eq!(s.escrow_lamports, 1500);
    let mut w = sweep_ctx(s.escrow.clone(), key(7), s.escrow_lamports, 100);
    assert_eq!(sweep_funds(&mut w), Ok(()));
    assert_eq!(w.receiver_lamports, 50 + 1400);
}

#[test]
fn settle_beyond_payer_balance_is_refused() {
    let mut s = settle_ctx(record(1000), 999, 0);
    assert_eq!(settle_payment(&mut s, 1000), Err(ShadowPayError::TransferFailed));
    assert_eq!(settle_state(&s), (false, false, 999, 0));
}

#[test]
fn settle_overflowing_escrow_is_refused() {
    let mut s = settle_ctx(record(1000), 5000, u64::MAX - 999);
    assert_eq!(settle_payment(&mut s, 1000), Err(ShadowPayError::TransferFailed));
    assert_eq!(settle_state(&s), (false, false, 5000, u64::MAX - 999));
}

#[test]
fn sweep_before_settle_is_refused() {
    let mut w = sweep_ctx(record(1000), key(7), 2000, 100);
    assert_eq!(sweep_funds(&mut w), Err(ShadowPayError::NotSettled));
    assert_eq!(sweep_state(&w), (false, false, 50, 2000));
}

#[test]
fn sweep_twice_is_refused() {
    let mut rec = record(1000);
    rec.settled = true;
    let mut w = sweep_ctx(rec, key(7), 2000, 100);
    assert_eq!(sweep_funds(&mut w), Ok(()));
    let before = sweep_state(&w);
    assert_eq!(sweep_funds(&mut w), Err(ShadowPayError::AlreadySwept));
    assert_eq!(sweep_state(&w), before);
}

#[test]
fn sweep_by_stranger_is_refused() {
    let mut rec = record(1000);
    rec.settled = true;
    let mut w = sweep_ctx(rec, key(8), 2000, 100);
    assert_eq!(sweep_funds(&mut w), Err(ShadowPayError::UnauthorizedReceiver));
    assert_eq!(sweep_state(&w), (true, false, 50, 2000));
}

#[test]
fn sweep_of_reserve_only_is_refused() {
    let mut rec = record(1000);
    rec.settled = true;
    let mut w = sweep_ctx(rec, key(7), 100, 100);
    assert_eq!(sweep_funds(&mut w), Err(ShadowPayError::InsufficientFunds));
    assert_eq!(sweep_state(&w), (true, false, 50, 100));
}

#[test]
fn sweep_overflowing_receiver_is_refused() {
    let mut rec = record(1000);
    rec.settled = true;
    let mut w = sweep_ctx(rec, key(7), 2000, 100);
    w.receiver_lamports = u64::MAX - 1000;
    assert_eq!(sweep_funds(&mut w), Err(ShadowPayError::TransferFailed));
    assert_eq!(sweep_state(&w), (true, false, u64::MAX - 1000, 2000));
}

#[test]
fn error_messages() {
    assert_eq!(ShadowPayError::AlreadySettled.message(), "Payment already settled");
    assert_eq!(ShadowPayError::NotSettled.message(), "Payment not yet settled");
    assert_eq!(ShadowPayError::AlreadySwept.message(), "Funds already swept");
    assert_eq!(ShadowPayError::InsufficientAmount.message(), "Insufficient amount provided");
    assert_eq!(ShadowPayError::InsufficientFunds.message(), "Insufficient funds in escrow");
    assert_eq!(ShadowPayError::UnauthorizedReceiver.message(), "Unauthorized receiver");
}

#[test]
fn keys_compare_by_bytes() {
    let mut b = [3u8; 32];
    assert!(PublicKey::new(b) == key(3));
    b[31] = 4;
    assert!(PublicKey::new(b) != key(3));
}
