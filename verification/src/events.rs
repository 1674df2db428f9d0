use vstd::prelude::*;
use crate::pubkey::Pubkey;

verus! {

/// Emitted when the configuration is created.
#[derive(Debug, Clone, Copy, PartialEq, Eq)]
pub struct ConfigInitialized {
    pub admin: Pubkey,
    pub protocol_fee_bps: u16,
}

/// Emitted when the configuration changes.
#[derive(Debug, Clone, Copy, PartialEq, Eq)]
pub struct ConfigUpdated {
    pub protocol_fee_bps: u16,
    pub admin: Pubkey,
    pub paused: bool,
}

/// Emitted when a creator pool is created.
#[derive(Debug, Clone, Copy, PartialEq, Eq)]
pub struct CreatorPoolCreated {
    pub creator: Pubkey,
    pub service: u8,
}

/// Emitted when tokens are deposited into a creator pool.
#[derive(Debug, Clone, Copy, PartialEq, Eq)]
pub struct PoolDeposited {
    pub creator: Pubkey,
    pub depositor: Pubkey,
    pub amount: u64,
    pub new_balance: u64,
}

/// Emitted when an operator claims its share of a distribution.
#[derive(Debug, Clone, Copy, PartialEq, Eq)]
pub struct RewardsClaimed {
    pub pool: Pubkey,
    pub operator: [u8; 32],
    pub gross_payout: u64,
    pub protocol_fee: u64,
    pub net_payout: u64,
}

/// Emitted when a payment channel is opened.
#[derive(Debug, Clone, Copy, PartialEq, Eq)]
pub struct ChannelOpened {
    pub sender: Pubkey,
    pub receiver: Pubkey,
    pub nonce: u64,
    pub amount: u64,
}

/// Emitted when a payment channel is closed cooperatively.
#[derive(Debug, Clone, Copy, PartialEq, Eq)]
pub struct ChannelClosed {
    pub sender: Pubkey,
    pub receiver: Pubkey,
    pub nonce: u64,
    pub receiver_payout: u64,
    pub protocol_fee: u64,
    pub sender_refund: u64,
}

/// Emitted when the sender starts a force close.
#[derive(Debug, Clone, Copy, PartialEq, Eq)]
pub struct ForceCloseInitiated {
    pub sender: Pubkey,
    pub receiver: Pubkey,
    pub nonce: u64,
    pub initiated_slot: u64,
    pub claimable_slot: u64,
}

/// Emitted when a force close pays out.
#[derive(Debug, Clone, Copy, PartialEq, Eq)]
pub struct ForceCloseFinalised {
    pub sender: Pubkey,
    pub receiver: Pubkey,
    pub receiver_payout: u64,
    pub sender_refund: u64,
}

} // verus!
