use vstd::prelude::*;
use crate::errors::SettlementError;
use crate::events::CreatorPoolCreated;
use crate::pubkey::Pubkey;
use crate::state::CreatorPool;

verus! {

/// The service type of data pools.
pub const SERVICE_DATA: u8 = 1u8;

/// The service type of bundle pools.
pub const SERVICE_BUNDLE: u8 = 4u8;

/// What `create_creator_pool` reads and writes.
#[derive(Debug, Clone, Copy, PartialEq, Eq)]
pub struct CreateCreatorPool {
    /// The signer, whose pool this is.
    pub creator: Pubkey,
    /// The pool account being created.
    pub creator_pool: CreatorPool,
    /// The bump of the pool's program address.
    pub creator_pool_bump: u8,
}

/// Why `create_creator_pool` refuses, if it does: a service type other than
/// data or bundle.
pub open spec fn create_creator_pool_rejection(service: u8) -> Option<SettlementError> {
    if service != SERVICE_DATA && service != SERVICE_BUNDLE {
        Some(SettlementError::InvalidService)
    } else {
        None
    }
}

/// The pool that `create_creator_pool` creates, with distribution root
/// `root`: empty, at epoch zero, with no distribution posted.
pub open spec fn new_creator_pool(
    pre: CreateCreatorPool,
    service: u8,
    unix_timestamp: i64,
    root: [u8; 32],
) -> CreatorPool {
    CreatorPool {
        creator: pre.creator,
        service,
        pool_balance: 0,
        created_at: unix_timestamp,
        current_epoch: 0,
        epoch_balance: 0,
        total_weight: 0,
        distribution_root: root,
        distribution_posted: false,
        last_distribution_at: 0,
        bump: pre.creator_pool_bump,
    }
}

/// Creates the signer's reward pool for a service (Data=1, Bundle=4).
pub fn handler(accounts: &mut CreateCreatorPool, service: u8, unix_timestamp: i64) -> (r: Result<
    CreatorPoolCreated,
    SettlementError,
>)
    ensures
        r is Ok <==> create_creator_pool_rejection(service) is None,
        r matches Err(e) ==> create_creator_pool_rejection(service) == Some(e)
            && *final(accounts) == *old(accounts),
        r matches Ok(event) ==> {
            &&& final(accounts).creator == old(accounts).creator
            &&& final(accounts).creator_pool_bump == old(accounts).creator_pool_bump
            &&& final(accounts).creator_pool == new_creator_pool(
                *old(accounts),
                service,
                unix_timestamp,
                final(accounts).creator_pool.distribution_root,
            )
            &&& final(accounts).creator_pool.distribution_root@ == Seq::new(32, |i: int| 0u8)
            &&& event == (CreatorPoolCreated { creator: old(accounts).creator, service })
        },
        r is Ok <==> (service == 1 || service == 4),
        r is Ok ==> {
            &&& final(accounts).creator_pool.creator == old(accounts).creator
            &&& final(accounts).creator_pool.service == service
            &&& final(accounts).creator_pool.pool_balance == 0
            &&& final(accounts).creator_pool.created_at == unix_timestamp
            &&& final(accounts).creator_pool.current_epoch == 0
            &&& final(accounts).creator_pool.epoch_balance == 0
            &&& final(accounts).creator_pool.total_weight == 0
            &&& !final(accounts).creator_pool.distribution_posted
            &&& final(accounts).creator_pool.last_distribution_at == 0
            &&& final(accounts).creator_pool.bump == old(accounts).creator_pool_bump
        },
{
    // Data=1, Bundle=4
    if service != SERVICE_DATA && service != SERVICE_BUNDLE {
        return Err(SettlementError::InvalidService);
    }
    let root: [u8; 32] = [0u8; 32];
    assert(root@ =~= Seq::new(32, |i: int| 0u8));
    accounts.creator_pool = CreatorPool {
        creator: accounts.creator,
        service,
        pool_balance: 0,
        created_at: unix_timestamp,
        current_epoch: 0,
        epoch_balance: 0,
        total_weight: 0,
        distribution_root: root,
        distribution_posted: false,
        last_distribution_at: 0,
        bump: accounts.creator_pool_bump,
    };
    Ok(CreatorPoolCreated { creator: accounts.creator_pool.creator, service })
}

} // verus!
