use vstd::prelude::*;
use crate::errors::SettlementError;
use crate::events::PoolDeposited;
use crate::pubkey::Pubkey;
use crate::state::CreatorPool;
use crate::transfer::{InstructionOutput, TokenTransfer};

verus! {

/// What `deposit` reads and writes.
#[derive(Debug, Clone, Copy, PartialEq, Eq)]
pub struct Deposit {
    /// The signer, who pays the deposit.
    pub depositor: Pubkey,
    /// The pool.
    pub creator_pool: CreatorPool,
    /// The depositor's token account, debited.
    pub depositor_token_account: Pubkey,
    /// The pool's token account, credited.
    pub pool_token_account: Pubkey,
}

/// Why `deposit` refuses, if it does: an amount of zero.
pub open spec fn deposit_rejection(amount: u64) -> Option<SettlementError> {
    if amount == 0 {
        Some(SettlementError::InvalidAmount)
    } else {
        None
    }
}

/// Adds `amount` to a pool, moving it from the depositor's token account to
/// the pool's.
pub fn handler(accounts: &mut Deposit, amount: u64) -> (r: Result<
    InstructionOutput<PoolDeposited>,
    SettlementError,
>)
    requires
        amount > 0 ==> old(accounts).creator_pool.pool_balance + amount <= u64::MAX,
    ensures
        r is Ok <==> deposit_rejection(amount) is None,
        r matches Err(e) ==> deposit_rejection(amount) == Some(e) && *final(accounts) == *old(
            accounts,
        ),
        r matches Ok(out) ==> {
            &&& *final(accounts) == (Deposit {
                creator_pool: CreatorPool {
                    pool_balance: (old(accounts).creator_pool.pool_balance + amount) as u64,
                    ..old(accounts).creator_pool
                },
                ..*old(accounts)
            })
            &&& out.closed is None
            &&& out.transfers@ == seq![
                (TokenTransfer {
                    from: old(accounts).depositor_token_account,
                    to: old(accounts).pool_token_account,
                    authority: old(accounts).depositor,
                    amount,
                }),
            ]
            &&& out.event == (PoolDeposited {
                creator: old(accounts).creator_pool.creator,
                depositor: old(accounts).depositor,
                amount,
                new_balance: final(accounts).creator_pool.pool_balance,
            })
        },
        r is Ok <==> amount > 0,
        r is Ok ==> final(accounts).creator_pool.pool_balance == old(accounts).creator_pool.pool_balance
            + amount,
{
    if amount == 0 {
        return Err(SettlementError::InvalidAmount);
    }
    let mut transfers: Vec<TokenTransfer> = Vec::new();
    transfers.push(
        TokenTransfer {
            from: accounts.depositor_token_account,
            to: accounts.pool_token_account,
            authority: accounts.depositor,
            amount,
        },
    );
    accounts.creator_pool.pool_balance = accounts.creator_pool.pool_balance + amount;
    Ok(
        InstructionOutput {
            transfers,
            closed: None,
            event: PoolDeposited {
                creator: accounts.creator_pool.creator,
                depositor: accounts.depositor,
                amount,
                new_balance: accounts.creator_pool.pool_balance,
            },
        },
    )
}

/// Whether `deposit` of `amount` keeps the pool's balance within `u64`;
/// where it would not, the addition overflows and the instruction aborts.
pub fn arithmetic_in_range(accounts: &Deposit, amount: u64) -> (ok: bool)
    ensures
        ok == (amount > 0 ==> accounts.creator_pool.pool_balance + amount <= u64::MAX),
{
    amount == 0 || amount <= u64::MAX - accounts.creator_pool.pool_balance
}

} // verus!
