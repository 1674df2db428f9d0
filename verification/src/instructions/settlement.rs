use vstd::prelude::*;
use crate::fees::{protocol_fee, protocol_fee_spec, lemma_fee_at_most_half, MAX_PROTOCOL_FEE_BPS};
use crate::pubkey::Pubkey;
use crate::transfer::{
    push_if_positive, push_transfer, total_amount, transfer_of, lemma_push_if_positive_total,
    TokenTransfer,
};

verus! {

/// How a channel that locks `locked` and whose vouchers spend `spent` is
/// paid out at `fee_bps`: the receiver's payout, the protocol fee and the
/// sender's refund. The fee is taken out of the spent amount.
pub open spec fn settlement_amounts(locked: u64, spent: u64, fee_bps: u16) -> (u64, u64, u64) {
    let fee = protocol_fee_spec(spent, fee_bps);
    ((spent - fee) as u64, fee as u64, (locked - spent) as u64)
}

/// The three amounts of `settlement_amounts`, computed.
pub fn settle(locked: u64, spent: u64, fee_bps: u16) -> (amounts: (u64, u64, u64))
    requires
        spent <= locked,
        fee_bps <= MAX_PROTOCOL_FEE_BPS,
        spent * fee_bps <= u64::MAX,
    ensures
        amounts == settlement_amounts(locked, spent, fee_bps),
        amounts.0 + amounts.1 == spent,
        amounts.2 == locked - spent,
{
    proof {
        lemma_fee_at_most_half(spent, fee_bps);
    }
    let fee = protocol_fee(spent, fee_bps);
    (spent - fee, fee, locked - spent)
}

/// The transfers that pay a channel out of `vault`, signed by the channel
/// account `channel`: the receiver's payout, then the protocol fee to the
/// treasury, then the sender's refund, each only where it is positive.
pub open spec fn payout_transfers(
    vault: Pubkey,
    receiver_account: Pubkey,
    treasury_account: Pubkey,
    sender_account: Pubkey,
    channel: Pubkey,
    amounts: (u64, u64, u64),
) -> Seq<TokenTransfer> {
    let s0 = Seq::<TokenTransfer>::empty();
    let s1 = push_if_positive(s0, transfer_of(vault, receiver_account, channel, amounts.0));
    let s2 = push_if_positive(s1, transfer_of(vault, treasury_account, channel, amounts.1));
    push_if_positive(s2, transfer_of(vault, sender_account, channel, amounts.2))
}

/// The payout transfers of a channel move, in all, the sum of the three
/// amounts.
pub proof fn lemma_payout_total(
    vault: Pubkey,
    receiver_account: Pubkey,
    treasury_account: Pubkey,
    sender_account: Pubkey,
    channel: Pubkey,
    amounts: (u64, u64, u64),
)
    ensures
        total_amount(
            payout_transfers(
                vault,
                receiver_account,
                treasury_account,
                sender_account,
                channel,
                amounts,
            ),
        ) == amounts.0 + amounts.1 + amounts.2,
{
    let s0 = Seq::<TokenTransfer>::empty();
    let t0 = transfer_of(vault, receiver_account, channel, amounts.0);
    let t1 = transfer_of(vault, treasury_account, channel, amounts.1);
    let t2 = transfer_of(vault, sender_account, channel, amounts.2);
    lemma_push_if_positive_total(s0, t0);
    let s1 = push_if_positive(s0, t0);
    lemma_push_if_positive_total(s1, t1);
    let s2 = push_if_positive(s1, t1);
    lemma_push_if_positive_total(s2, t2);
}

/// The transfers of `payout_transfers`, built.
pub fn build_payout_transfers(
    vault: Pubkey,
    receiver_account: Pubkey,
    treasury_account: Pubkey,
    sender_account: Pubkey,
    channel: Pubkey,
    amounts: (u64, u64, u64),
) -> (transfers: Vec<TokenTransfer>)
    ensures
        transfers@ == payout_transfers(
            vault,
            receiver_account,
            treasury_account,
            sender_account,
            channel,
            amounts,
        ),
{
    let mut transfers: Vec<TokenTransfer> = Vec::new();
    push_transfer(
        &mut transfers,
        TokenTransfer { from: vault, to: receiver_account, authority: channel, amount: amounts.0 },
    );
    push_transfer(
        &mut transfers,
        TokenTransfer { from: vault, to: treasury_account, authority: channel, amount: amounts.1 },
    );
    push_transfer(
        &mut transfers,
        TokenTransfer { from: vault, to: sender_account, authority: channel, amount: amounts.2 },
    );
    transfers
}

/// Whether the fee on `amount` at `fee_bps` can be computed within `u64`.
pub fn fee_fits(amount: u64, fee_bps: u16) -> (ok: bool)
    ensures
        ok == (amount * fee_bps <= u64::MAX),
{
    let a: u128 = amount as u128;
    let b: u128 = fee_bps as u128;
    assert(a * b <= 0xffff_ffff_ffff_ffffu128 * 0xffffu128) by (nonlinear_arith)
        requires
            a <= 0xffff_ffff_ffff_ffffu128,
            b <= 0xffffu128,
    ;
    a * b <= u64::MAX as u128
}

} // verus!
