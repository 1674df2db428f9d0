use vstd::prelude::*;
use crate::pubkey::Pubkey;

verus! {

/// A token transfer that an instruction asks the token program to make.
#[derive(Debug, Clone, Copy, PartialEq, Eq)]
pub struct TokenTransfer {
    /// The token account debited.
    pub from: Pubkey,
    /// The token account credited.
    pub to: Pubkey,
    /// The account that signs for `from`.
    pub authority: Pubkey,
    /// The number of token base units moved.
    pub amount: u64,
}

/// An account that an instruction closes, and the account that receives
/// its rent.
#[derive(Debug, Clone, Copy, PartialEq, Eq)]
pub struct AccountClose {
    pub account: Pubkey,
    pub rent_to: Pubkey,
}

/// What an accepted instruction hands back: the token transfers to make, in
/// order, the event to emit, and the account to close, if any.
#[derive(Debug, PartialEq, Eq)]
pub struct InstructionOutput<E> {
    pub transfers: Vec<TokenTransfer>,
    pub event: E,
    pub closed: Option<AccountClose>,
}

/// The transfer of `amount` from `from` to `to` signed by `authority`.
pub open spec fn transfer_of(from: Pubkey, to: Pubkey, authority: Pubkey, amount: u64) -> TokenTransfer {
    TokenTransfer { from, to, authority, amount }
}

/// `transfers` with `t` appended when `t` moves a positive amount; a
/// transfer of nothing is not made.
pub open spec fn push_if_positive(transfers: Seq<TokenTransfer>, t: TokenTransfer) -> Seq<TokenTransfer> {
    if t.amount > 0 {
        transfers.push(t)
    } else {
        transfers
    }
}

/// The sum of the amounts of `transfers`.
pub open spec fn total_amount(transfers: Seq<TokenTransfer>) -> int
    decreases transfers.len(),
{
    if transfers.len() == 0 {
        0
    } else {
        total_amount(transfers.drop_last()) + transfers.last().amount
    }
}

/// Appending a transfer of `t.amount` adds `t.amount` to the total, and
/// skipping a transfer of nothing changes nothing.
pub proof fn lemma_push_if_positive_total(transfers: Seq<TokenTransfer>, t: TokenTransfer)
    ensures
        total_amount(push_if_positive(transfers, t)) == total_amount(transfers) + t.amount,
{
    if t.amount > 0 {
        assert(transfers.push(t).drop_last() =~= transfers);
    }
}

/// Appends `t` to `transfers` when it moves a positive amount.
pub fn push_transfer(transfers: &mut Vec<TokenTransfer>, t: TokenTransfer)
    ensures
        final(transfers)@ == push_if_positive(old(transfers)@, t),
{
    if t.amount > 0 {
        transfers.push(t);
    }
}

} // verus!
