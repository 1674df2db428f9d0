use craftec_settlement::errors::SettlementError;
use craftec_settlement::events::{ChannelClosed, ChannelOpened, ForceCloseFinalised, ForceCloseInitiated};
use craftec_settlement::instructions::close_channel::{self, CloseChannel};
use craftec_settlement::instructions::force_close::{self, ForceClose, ForceCloseOutput, FORCE_CLOSE_TIMEOUT_SLOTS};
use craftec_settlement::instructions::open_channel::{self, OpenChannel};
use craftec_settlement::instructions::update_voucher::{self, UpdateVoucher};
use craftec_settlement::pubkey::Pubkey;
use craftec_settlement::state::{Config, PaymentChannel};
use craftec_settlement::transfer::{AccountClose, TokenTransfer};
use craftec_settlement::voucher::compute_voucher_message;
use ed25519_dalek::{Keypair, PublicKey, SecretKey, Signer};

fn key(b: u8) -> Pubkey {
    Pubkey::new_from_array([b; 32])
}

fn keypair(seed: u8) -> Keypair {
    let secret = SecretKey::from_bytes(&[seed; 32]).unwrap();
    let public = PublicKey::from(&secret);
    Keypair { secret, public }
}

/// The channel sender's address: an Ed25519 public key.
fn sender_key() -> Pubkey {
    Pubkey::new_from_array(keypair(2).public.to_bytes())
}

/// The sender's signature of a voucher on the channel at `key(40)`.
fn sig(amount: u64, seq: u64) -> [u8; 64] {
    let message = compute_voucher_message(&key(40), amount, seq);
    keypair(2).sign(&message).to_bytes()
}

fn config(fee: u16, paused: bool) -> Config {
    Config { admin: key(1), protocol_fee_bps: fee, treasury: key(9), paused, bump: 254 }
}

fn channel(locked: u64, spent: u64, seq: u64, force_close_slot: u64) -> PaymentChannel {
    PaymentChannel {
        sender: sender_key(),
        receiver: key(3),
        nonce: 42,
        locked_amount: locked,
        voucher_amount: spent,
        voucher_seq: seq,
        force_close_slot,
        created_at: 100,
        bump: 253,
    }
}

fn close_accounts(ch: PaymentChannel, fee: u16) -> CloseChannel {
    CloseChannel {
        receiver: key(3),
        config: config(fee, false),
        channel: ch,
        channel_key: key(40),
        channel_token_account: key(41),
        receiver_token_account: key(42),
        sender_token_account: key(43),
        treasury_token_account: key(9),
        sender: sender_key(),
    }
}

fn force_accounts(ch: PaymentChannel, fee: u16) -> ForceClose {
    ForceClose {
        sender: sender_key(),
        config: config(fee, false),
        channel: ch,
        channel_key: key(40),
        channel_token_account: key(41),
        receiver_token_account: key(42),
        sender_token_account: key(43),
        treasury_token_account: key(9),
    }
}

fn open_accounts(paused: bool) -> OpenChannel {
    OpenChannel {
        sender: sender_key(),
        config: config(500, paused),
        channel: channel(0, 0, 0, 0),
        channel_key: key(40),
        channel_bump: 252,
        sender_token_account: key(43),
        channel_token_account: key(41),
    }
}

#[test]
fn open_channel_locks_amount() {
    let mut acc = open_accounts(false);
    let out = open_channel::handler(&mut acc, key(3), 7, 1000, 1_700_000_000).unwrap();
    assert_eq!(
        acc.channel,
        PaymentChannel {
            sender: sender_key(),
            receiver: key(3),
            nonce: 7,
            locked_amount: 1000,
            voucher_amount: 0,
            voucher_seq: 0,
            force_close_slot: 0,
            created_at: 1_700_000_000,
            bump: 252,
        }
    );
    assert_eq!(out.transfers, vec![TokenTransfer { from: key(43), to: key(41), authority: sender_key(), amount: 1000 }]);
    assert_eq!(out.event, ChannelOpened { sender: sender_key(), receiver: key(3), nonce: 7, amount: 1000 });
}

#[test]
fn open_channel_refuses_zero_before_pause() {
    let mut acc = open_accounts(true);
    assert_eq!(open_channel::handler(&mut acc, key(3), 7, 0, 1).unwrap_err(), SettlementError::InvalidAmount);
    assert_eq!(open_channel::handler(&mut acc, key(3), 7, 5, 1).unwrap_err(), SettlementError::Paused);
    assert_eq!(acc, open_accounts(true));
}

#[test]
fn update_voucher_records_newer_voucher() {
    let mut acc = UpdateVoucher { receiver: key(3), channel: channel(1000, 0, 0, 0), channel_key: key(40) };
    update_voucher::handler(&mut acc, 400, 1, sig(400, 1)).unwrap();
    assert_eq!(acc.channel.voucher_amount, 400);
    assert_eq!(acc.channel.voucher_seq, 1);
    update_voucher::handler(&mut acc, 300, 5, sig(300, 5)).unwrap();
    assert_eq!(acc.channel.voucher_amount, 300);
    assert_eq!(acc.channel.voucher_seq, 5);
}

#[test]
fn update_voucher_refuses_replay() {
    let mut acc = UpdateVoucher { receiver: key(3), channel: channel(1000, 0, 0, 0), channel_key: key(40) };
    update_voucher::handler(&mut acc, 400, 1, sig(400, 1)).unwrap();
    let before = acc;
    assert_eq!(update_voucher::handler(&mut acc, 400, 1, sig(400, 1)), Err(SettlementError::StaleVoucher));
    assert_eq!(update_voucher::handler(&mut acc, 500, 0, sig(500, 0)), Err(SettlementError::StaleVoucher));
    assert_eq!(acc, before);
}

#[test]
fn update_voucher_refuses_more_than_locked() {
    let mut acc = UpdateVoucher { receiver: key(3), channel: channel(1000, 0, 0, 0), channel_key: key(40) };
    assert_eq!(update_voucher::handler(&mut acc, 1001, 1, sig(1001, 1)), Err(SettlementError::VoucherExceedsLocked));
    assert!(update_voucher::handler(&mut acc, 1000, 1, sig(1000, 1)).is_ok());
}

#[test]
fn update_voucher_checks_staleness_before_amount() {
    let mut acc = UpdateVoucher { receiver: key(3), channel: channel(1000, 0, 3, 0), channel_key: key(40) };
    assert_eq!(update_voucher::handler(&mut acc, 2000, 2, sig(2000, 2)), Err(SettlementError::StaleVoucher));
}

#[test]
fn update_voucher_refuses_other_signer() {
    let mut acc = UpdateVoucher { receiver: sender_key(), channel: channel(1000, 0, 0, 0), channel_key: key(40) };
    assert_eq!(update_voucher::handler(&mut acc, 10, 1, sig(10, 1)), Err(SettlementError::NotAuthorized));
}

#[test]
fn update_voucher_cancels_force_close() {
    let mut acc = UpdateVoucher { receiver: key(3), channel: channel(1000, 0, 0, 5000), channel_key: key(40) };
    update_voucher::handler(&mut acc, 10, 1, sig(10, 1)).unwrap();
    assert_eq!(acc.channel.force_close_slot, 0);
}

#[test]
fn close_channel_splits_locked_amount() {
    let acc = close_accounts(channel(1000, 0, 0, 0), 500);
    let out = close_channel::handler(&acc, 400, 1, sig(400, 1)).unwrap();
    assert_eq!(
        out.event,
        ChannelClosed { sender: sender_key(), receiver: key(3), nonce: 42, receiver_payout: 380, protocol_fee: 20, sender_refund: 600 }
    );
    assert_eq!(
        out.transfers,
        vec![
            TokenTransfer { from: key(41), to: key(42), authority: key(40), amount: 380 },
            TokenTransfer { from: key(41), to: key(9), authority: key(40), amount: 20 },
            TokenTransfer { from: key(41), to: key(43), authority: key(40), amount: 600 },
        ]
    );
    let total: u64 = out.transfers.iter().map(|t| t.amount).sum();
    assert_eq!(total, 1000);
    assert_eq!(out.closed, Some(AccountClose { account: key(40), rent_to: sender_key() }));
}

#[test]
fn close_channel_fully_spent_has_no_refund() {
    let acc = close_accounts(channel(1000, 0, 0, 0), 0);
    let out = close_channel::handler(&acc, 1000, 1, sig(1000, 1)).unwrap();
    assert_eq!(out.transfers, vec![TokenTransfer { from: key(41), to: key(42), authority: key(40), amount: 1000 }]);
    assert_eq!(out.event.sender_refund, 0);
    assert_eq!(out.event.protocol_fee, 0);
}

#[test]
fn close_channel_unspent_refunds_everything() {
    let acc = close_accounts(channel(1000, 0, 0, 0), 500);
    let out = close_channel::handler(&acc, 0, 1, sig(0, 1)).unwrap();
    assert_eq!(out.transfers, vec![TokenTransfer { from: key(41), to: key(43), authority: key(40), amount: 1000 }]);
}

#[test]
fn close_channel_refuses_recorded_voucher() {
    let acc = close_accounts(channel(1000, 400, 3, 0), 500);
    assert_eq!(close_channel::handler(&acc, 400, 3, sig(400, 3)).unwrap_err(), SettlementError::StaleVoucher);
    assert!(close_channel::handler(&acc, 400, 4, sig(400, 4)).is_ok());
}

#[test]
fn close_channel_checks_amount_before_staleness() {
    let acc = close_accounts(channel(1000, 0, 3, 0), 500);
    assert_eq!(close_channel::handler(&acc, 1001, 1, sig(1001, 1)).unwrap_err(), SettlementError::VoucherExceedsLocked);
}

#[test]
fn close_channel_refuses_wrong_accounts() {
    let mut acc = close_accounts(channel(1000, 0, 0, 0), 500);
    acc.receiver = sender_key();
    assert_eq!(close_channel::handler(&acc, 10, 1, sig(10, 1)).unwrap_err(), SettlementError::NotAuthorized);
    let mut acc = close_accounts(channel(1000, 0, 0, 0), 500);
    acc.treasury_token_account = key(10);
    assert_eq!(close_channel::handler(&acc, 10, 1, sig(10, 1)).unwrap_err(), SettlementError::NotAuthorized);
    let mut acc = close_accounts(channel(1000, 0, 0, 0), 500);
    acc.sender = key(5);
    assert_eq!(close_channel::handler(&acc, 10, 1, sig(10, 1)).unwrap_err(), SettlementError::NotAuthorized);
}

#[test]
fn force_close_initiates_then_waits() {
    let mut acc = force_accounts(channel(1000, 400, 1, 0), 500);
    let out = force_close::handler(&mut acc, 100).unwrap();
    assert_eq!(
        out,
        ForceCloseOutput::Initiated(ForceCloseInitiated {
            sender: sender_key(),
            receiver: key(3),
            nonce: 42,
            initiated_slot: 100,
            claimable_slot: 100 + FORCE_CLOSE_TIMEOUT_SLOTS,
        })
    );
    assert_eq!(acc.channel.force_close_slot, 100);
    let before = acc;
    assert_eq!(force_close::handler(&mut acc, 2979).unwrap_err(), SettlementError::ForceCloseTimeout);
    assert_eq!(acc, before);
    match force_close::handler(&mut acc, 2980).unwrap() {
        ForceCloseOutput::Finalised(out) => {
            assert_eq!(
                out.event,
                ForceCloseFinalised { sender: sender_key(), receiver: key(3), receiver_payout: 380, sender_refund: 600 }
            );
            assert_eq!(
                out.transfers,
                vec![
                    TokenTransfer { from: key(41), to: key(42), authority: key(40), amount: 380 },
                    TokenTransfer { from: key(41), to: key(9), authority: key(40), amount: 20 },
                    TokenTransfer { from: key(41), to: key(43), authority: key(40), amount: 600 },
                ]
            );
        }
        other => panic!("expected a payout, got {:?}", other),
    }
    assert_eq!(acc, before);
}

#[test]
fn force_close_refuses_other_signer() {
    let mut acc = force_accounts(channel(1000, 400, 1, 0), 500);
    acc.sender = key(3);
    assert_eq!(force_close::handler(&mut acc, 100).unwrap_err(), SettlementError::NotAuthorized);
    assert_eq!(acc.channel.force_close_slot, 0);
}

#[test]
fn force_close_after_voucher_update_starts_again() {
    let mut acc = force_accounts(channel(1000, 0, 0, 0), 500);
    force_close::handler(&mut acc, 100).unwrap();
    let mut upd = UpdateVoucher { receiver: key(3), channel: acc.channel, channel_key: key(40) };
    update_voucher::handler(&mut upd, 200, 1, sig(200, 1)).unwrap();
    acc.channel = upd.channel;
    let out = force_close::handler(&mut acc, 5000).unwrap();
    assert!(matches!(out, ForceCloseOutput::Initiated(_)));
    assert_eq!(acc.channel.force_close_slot, 5000);
}

#[test]
fn update_voucher_refuses_unsigned_voucher() {
    let mut acc = UpdateVoucher { receiver: key(3), channel: channel(1000, 0, 0, 0), channel_key: key(40) };
    let before = acc;
    assert_eq!(update_voucher::handler(&mut acc, 400, 1, [0u8; 64]), Err(SettlementError::InvalidVoucherSignature));
    // A signature of another amount does not carry over.
    assert_eq!(update_voucher::handler(&mut acc, 400, 1, sig(401, 1)), Err(SettlementError::InvalidVoucherSignature));
    assert_eq!(acc, before);
}

#[test]
fn update_voucher_refuses_voucher_of_other_channel() {
    let mut acc = UpdateVoucher { receiver: key(3), channel: channel(1000, 0, 0, 0), channel_key: key(41) };
    assert_eq!(update_voucher::handler(&mut acc, 400, 1, sig(400, 1)), Err(SettlementError::InvalidVoucherSignature));
}

#[test]
fn update_voucher_refuses_voucher_signed_by_receiver() {
    let mut acc = UpdateVoucher { receiver: key(3), channel: channel(1000, 0, 0, 0), channel_key: key(40) };
    let message = compute_voucher_message(&key(40), 400, 1);
    let forged = keypair(3).sign(&message).to_bytes();
    assert_eq!(update_voucher::handler(&mut acc, 400, 1, forged), Err(SettlementError::InvalidVoucherSignature));
}

#[test]
fn close_channel_refuses_unsigned_voucher() {
    let acc = close_accounts(channel(1000, 0, 0, 0), 500);
    assert_eq!(close_channel::handler(&acc, 400, 1, [7u8; 64]).unwrap_err(), SettlementError::InvalidVoucherSignature);
    assert_eq!(close_channel::handler(&acc, 400, 1, sig(400, 2)).unwrap_err(), SettlementError::InvalidVoucherSignature);
}

#[test]
fn close_channel_checked_runs_in_range() {
    let acc = close_accounts(channel(1000, 0, 0, 0), 500);
    let out = close_channel::handler_checked(&acc, 400, 1, sig(400, 1)).unwrap().unwrap();
    assert_eq!(out.event.receiver_payout, 380);
}

#[test]
fn close_channel_checked_flags_overflow_only_for_accepted_vouchers() {
    let mut ch = channel(u64::MAX, 0, 0, 0);
    ch.sender = sender_key();
    let acc = close_accounts(ch, 5000);
    // The fee on u64::MAX at 50% does not fit in u64.
    assert!(close_channel::handler_checked(&acc, u64::MAX, 1, sig(u64::MAX, 1)).is_none());
    // Refused vouchers never reach the arithmetic.
    assert_eq!(
        close_channel::handler_checked(&acc, u64::MAX, 1, [0u8; 64]),
        Some(Err(SettlementError::InvalidVoucherSignature))
    );
}
