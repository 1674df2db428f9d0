use vstd::prelude::*;
use crate::errors::SettlementError;
use crate::fees::MAX_PROTOCOL_FEE_BPS;
use crate::events::{ForceCloseFinalised, ForceCloseInitiated};
use crate::instructions::settlement::{
    build_payout_transfers, fee_fits, payout_transfers, settle, settlement_amounts,
};
use crate::pubkey::Pubkey;
use crate::state::{Config, PaymentChannel};
use crate::transfer::{InstructionOutput, TokenTransfer};

verus! {

/// 2880 slots ≈ 20 minutes at 400ms/slot
pub const FORCE_CLOSE_TIMEOUT_SLOTS: u64 = 2880u64;

/// What `force_close` reads and writes.
#[derive(Debug, Clone, Copy, PartialEq, Eq)]
pub struct ForceClose {
    /// The signer, who must be the channel's sender.
    pub sender: Pubkey,
    /// The configuration.
    pub config: Config,
    /// The channel.
    pub channel: PaymentChannel,
    /// The address of the channel account.
    pub channel_key: Pubkey,
    /// The token account that holds the channel's locked tokens.
    pub channel_token_account: Pubkey,
    /// The receiver's token account.
    pub receiver_token_account: Pubkey,
    /// The sender's token account.
    pub sender_token_account: Pubkey,
    /// The treasury's token account, which must be the configured one.
    pub treasury_token_account: Pubkey,
}

/// What an accepted `force_close` did: it started the timeout, or, once the
/// timeout has passed, it paid the channel out on its latest voucher.
#[derive(Debug, PartialEq, Eq)]
pub enum ForceCloseOutput {
    Initiated(ForceCloseInitiated),
    Finalised(InstructionOutput<ForceCloseFinalised>),
}

/// Whether the signer is the channel's sender and the treasury account is
/// the configured one.
pub open spec fn force_close_authorized(pre: ForceClose) -> bool {
    pre.sender@ == pre.channel.sender@ && pre.treasury_token_account@ == pre.config.treasury@
}

/// Why `force_close` refuses at slot `slot`, if it does: a signer other than
/// the sender or a treasury other than the configured one; or, when a force
/// close was started, a slot before the timeout has passed.
pub open spec fn force_close_rejection(pre: ForceClose, slot: u64) -> Option<SettlementError> {
    if pre.sender@ != pre.channel.sender@ {
        Some(SettlementError::NotAuthorized)
    } else if pre.treasury_token_account@ != pre.config.treasury@ {
        Some(SettlementError::NotAuthorized)
    } else if pre.channel.force_close_slot != 0 && slot < pre.channel.force_close_slot
        + FORCE_CLOSE_TIMEOUT_SLOTS {
        Some(SettlementError::ForceCloseTimeout)
    } else {
        None
    }
}

/// The slot arithmetic of `force_close` stays within `u64`, and so does the
/// fee on the latest voucher where the channel is paid out. Outside this
/// range the arithmetic overflows and the instruction aborts.
pub open spec fn force_close_in_range(pre: ForceClose, slot: u64) -> bool {
    if pre.channel.force_close_slot == 0 {
        slot + FORCE_CLOSE_TIMEOUT_SLOTS <= u64::MAX
    } else {
        &&& pre.channel.force_close_slot + FORCE_CLOSE_TIMEOUT_SLOTS <= u64::MAX
        &&& slot >= pre.channel.force_close_slot + FORCE_CLOSE_TIMEOUT_SLOTS
            ==> pre.channel.voucher_amount * pre.config.protocol_fee_bps <= u64::MAX
    }
}

/// The receiver's payout, the protocol fee and the sender's refund when a
/// force close pays out on the latest voucher.
pub open spec fn force_close_amounts(pre: ForceClose) -> (u64, u64, u64) {
    settlement_amounts(
        pre.channel.locked_amount,
        pre.channel.voucher_amount,
        pre.config.protocol_fee_bps,
    )
}

/// The transfers out of the channel's token account when a force close pays
/// out.
pub open spec fn force_close_transfers(pre: ForceClose) -> Seq<TokenTransfer> {
    payout_transfers(
        pre.channel_token_account,
        pre.receiver_token_account,
        pre.treasury_token_account,
        pre.sender_token_account,
        pre.channel_key,
        force_close_amounts(pre),
    )
}

/// The channel after a force close at `slot`: a force close that none
/// pending starts at `slot`; otherwise the channel stays as it is.
pub open spec fn force_close_step(channel: PaymentChannel, slot: u64) -> PaymentChannel {
    if channel.force_close_slot == 0 {
        PaymentChannel { force_close_slot: slot, ..channel }
    } else {
        channel
    }
}

/// Whether a force close at `slot` pays the channel out: one is pending and
/// its timeout has passed.
pub open spec fn force_close_pays_out(channel: PaymentChannel, slot: u64) -> bool {
    channel.force_close_slot != 0 && slot >= channel.force_close_slot + FORCE_CLOSE_TIMEOUT_SLOTS
}

/// What `force_close` at `slot` answers and how it leaves the accounts:
/// the refusal that `force_close_rejection` names with the accounts
/// unchanged, the start of the timeout, or the payout.
pub open spec fn force_close_outcome(
    pre: ForceClose,
    post: ForceClose,
    slot: u64,
    r: Result<ForceCloseOutput, SettlementError>,
) -> bool {
    &&& r is Ok <==> force_close_rejection(pre, slot) is None
    &&& r matches Err(e) ==> force_close_rejection(pre, slot) == Some(e) && post == pre
    &&& r matches Ok(ForceCloseOutput::Initiated(event)) ==> {
        &&& pre.channel.force_close_slot == 0
        &&& post == (ForceClose {
            channel: PaymentChannel { force_close_slot: slot, ..pre.channel },
            ..pre
        })
        &&& event == (ForceCloseInitiated {
            sender: pre.channel.sender,
            receiver: pre.channel.receiver,
            nonce: pre.channel.nonce,
            initiated_slot: slot,
            claimable_slot: (slot + FORCE_CLOSE_TIMEOUT_SLOTS) as u64,
        })
    }
    &&& r matches Ok(ForceCloseOutput::Finalised(out)) ==> {
        &&& pre.channel.force_close_slot != 0
        &&& post == pre
        &&& out.closed is None
        &&& out.transfers@ == force_close_transfers(pre)
        &&& out.event == (ForceCloseFinalised {
            sender: pre.channel.sender,
            receiver: pre.channel.receiver,
            receiver_payout: force_close_amounts(pre).0,
            sender_refund: force_close_amounts(pre).2,
        })
    }
    &&& r is Ok ==> post.channel == force_close_step(pre.channel, slot)
    &&& (r matches Ok(ForceCloseOutput::Finalised(_))) == (force_close_authorized(pre)
        && force_close_pays_out(pre.channel, slot))
}

/// Starts a force close at `slot` when none is pending; once the timeout has
/// passed since it started, pays the channel out on its latest voucher, as a
/// cooperative close would.
pub fn handler(accounts: &mut ForceClose, slot: u64) -> (r: Result<ForceCloseOutput, SettlementError>)
    requires
        old(accounts).config.wf(),
        old(accounts).channel.wf(),
        force_close_authorized(*old(accounts)) ==> force_close_in_range(*old(accounts), slot),
    ensures
        force_close_outcome(*old(accounts), *final(accounts), slot, r),
        final(accounts).channel.wf(),
{
    if !accounts.sender.equals(&accounts.channel.sender) {
        return Err(SettlementError::NotAuthorized);
    }
    if !accounts.treasury_token_account.equals(&accounts.config.treasury) {
        return Err(SettlementError::NotAuthorized);
    }
    if accounts.channel.force_close_slot == 0 {
        // Phase 1: initiate
        accounts.channel.force_close_slot = slot;
        let event = ForceCloseInitiated {
            sender: accounts.channel.sender,
            receiver: accounts.channel.receiver,
            nonce: accounts.channel.nonce,
            initiated_slot: slot,
            claimable_slot: slot + FORCE_CLOSE_TIMEOUT_SLOTS,
        };
        return Ok(ForceCloseOutput::Initiated(event));
    }
    // Phase 2: finalize
    if slot < accounts.channel.force_close_slot + FORCE_CLOSE_TIMEOUT_SLOTS {
        return Err(SettlementError::ForceCloseTimeout);
    }
    let channel = &accounts.channel;
    let amounts = settle(channel.locked_amount, channel.voucher_amount, accounts.config.protocol_fee_bps);
    let transfers = build_payout_transfers(
        accounts.channel_token_account,
        accounts.receiver_token_account,
        accounts.treasury_token_account,
        accounts.sender_token_account,
        accounts.channel_key,
        amounts,
    );
    Ok(
        ForceCloseOutput::Finalised(
            InstructionOutput {
                transfers,
                closed: None,
                event: ForceCloseFinalised {
                    sender: channel.sender,
                    receiver: channel.receiver,
                    receiver_payout: amounts.0,
                    sender_refund: amounts.2,
                },
            },
        ),
    )
}

/// Whether `force_close` can run on these accounts at `slot` without its
/// arithmetic overflowing: the configuration and the channel are valid and,
/// where the signer and treasury are the right ones, the slot arithmetic
/// and the fee stay within `u64`. Outside this range the instruction
/// aborts.
pub fn arithmetic_in_range(accounts: &ForceClose, slot: u64) -> (ok: bool)
    ensures
        ok == (accounts.config.wf() && accounts.channel.wf() && (force_close_authorized(*accounts)
            ==> force_close_in_range(*accounts, slot))),
{
    if accounts.config.protocol_fee_bps > MAX_PROTOCOL_FEE_BPS
        || accounts.channel.voucher_amount > accounts.channel.locked_amount {
        return false;
    }
    if !accounts.sender.equals(&accounts.channel.sender)
        || !accounts.treasury_token_account.equals(&accounts.config.treasury) {
        return true;
    }
    let start = accounts.channel.force_close_slot;
    if start == 0 {
        slot <= u64::MAX - FORCE_CLOSE_TIMEOUT_SLOTS
    } else {
        if start > u64::MAX - FORCE_CLOSE_TIMEOUT_SLOTS {
            return false;
        }
        slot < start + FORCE_CLOSE_TIMEOUT_SLOTS || fee_fits(
            accounts.channel.voucher_amount,
            accounts.config.protocol_fee_bps,
        )
    }
}

} // verus!
