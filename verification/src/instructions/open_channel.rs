use vstd::prelude::*;
use crate::errors::SettlementError;
use crate::events::ChannelOpened;
use crate::pubkey::Pubkey;
use crate::state::{Config, PaymentChannel};
use crate::transfer::{InstructionOutput, TokenTransfer};

verus! {

/// What `open_channel` reads and writes.
#[derive(Debug, Clone, Copy, PartialEq, Eq)]
pub struct OpenChannel {
    /// The signer, who becomes the channel's sender.
    pub sender: Pubkey,
    /// The configuration.
    pub config: Config,
    /// The channel account being created.
    pub channel: PaymentChannel,
    /// The address of the channel account.
    pub channel_key: Pubkey,
    /// The bump of the channel's program address.
    pub channel_bump: u8,
    /// The sender's token account, debited with the locked amount.
    pub sender_token_account: Pubkey,
    /// The channel's token account, credited with the locked amount.
    pub channel_token_account: Pubkey,
}

/// Why `open_channel` refuses, if it does: an amount of zero, then a paused
/// program.
pub open spec fn open_channel_rejection(pre: OpenChannel, amount: u64) -> Option<SettlementError> {
    if amount == 0 {
        Some(SettlementError::InvalidAmount)
    } else if pre.config.paused {
        Some(SettlementError::Paused)
    } else {
        None
    }
}

/// The channel that `open_channel` creates: `amount` locked, no voucher yet,
/// no pending force close.
pub open spec fn opened_channel(
    pre: OpenChannel,
    receiver: Pubkey,
    nonce: u64,
    amount: u64,
    unix_timestamp: i64,
) -> PaymentChannel {
    PaymentChannel {
        sender: pre.sender,
        receiver,
        nonce,
        locked_amount: amount,
        voucher_amount: 0,
        voucher_seq: 0,
        force_close_slot: 0,
        created_at: unix_timestamp,
        bump: pre.channel_bump,
    }
}

/// Opens a channel from the signer to `receiver` that locks `amount`,
/// moving it from the sender's token account to the channel's.
pub fn handler(
    accounts: &mut OpenChannel,
    receiver: Pubkey,
    nonce: u64,
    amount: u64,
    unix_timestamp: i64,
) -> (r: Result<InstructionOutput<ChannelOpened>, SettlementError>)
    ensures
        r is Ok <==> open_channel_rejection(*old(accounts), amount) is None,
        r matches Err(e) ==> open_channel_rejection(*old(accounts), amount) == Some(e)
            && *final(accounts) == *old(accounts),
        r matches Ok(out) ==> {
            &&& *final(accounts) == (OpenChannel {
                channel: opened_channel(*old(accounts), receiver, nonce, amount, unix_timestamp),
                ..*old(accounts)
            })
            &&& out.closed is None
            &&& out.transfers@ == seq![
                (TokenTransfer {
                    from: old(accounts).sender_token_account,
                    to: old(accounts).channel_token_account,
                    authority: old(accounts).sender,
                    amount,
                }),
            ]
            &&& out.event == (ChannelOpened { sender: old(accounts).sender, receiver, nonce, amount })
            &&& final(accounts).channel.wf()
        },
        r is Ok <==> (amount > 0 && !old(accounts).config.paused),
        r is Ok ==> {
            &&& final(accounts).channel.sender == old(accounts).sender
            &&& final(accounts).channel.receiver == receiver
            &&& final(accounts).channel.nonce == nonce
            &&& final(accounts).channel.locked_amount == amount
            &&& final(accounts).channel.voucher_amount == 0
            &&& final(accounts).channel.voucher_seq == 0
            &&& final(accounts).channel.force_close_slot == 0
            &&& final(accounts).channel.created_at == unix_timestamp
            &&& final(accounts).channel.bump == old(accounts).channel_bump
        },
{
    if amount == 0 {
        return Err(SettlementError::InvalidAmount);
    }
    if accounts.config.paused {
        return Err(SettlementError::Paused);
    }
    accounts.channel = PaymentChannel {
        sender: accounts.sender,
        receiver,
        nonce,
        locked_amount: amount,
        voucher_amount: 0,
        voucher_seq: 0,
        force_close_slot: 0,
        created_at: unix_timestamp,
        bump: accounts.channel_bump,
    };
    let mut transfers: Vec<TokenTransfer> = Vec::new();
    transfers.push(
        TokenTransfer {
            from: accounts.sender_token_account,
            to: accounts.channel_token_account,
            authority: accounts.sender,
            amount,
        },
    );
    Ok(
        InstructionOutput {
            transfers,
            closed: None,
            event: ChannelOpened { sender: accounts.channel.sender, receiver, nonce, amount },
        },
    )
}

} // verus!
