use vstd::prelude::*;
use crate::errors::SettlementError;
use crate::fees::MAX_PROTOCOL_FEE_BPS;
use crate::events::ChannelClosed;
use crate::instructions::settlement::{
    build_payout_transfers, fee_fits, payout_transfers, settle, settlement_amounts,
};
use crate::pubkey::Pubkey;
use crate::state::{Config, PaymentChannel};
use crate::transfer::{AccountClose, InstructionOutput, TokenTransfer};
use crate::voucher::{verify_voucher, voucher_signature_accepted};

verus! {

/// What `close_channel` reads.
#[derive(Debug, Clone, Copy, PartialEq, Eq)]
pub struct CloseChannel {
    /// The signer, who must be the channel's receiver.
    pub receiver: Pubkey,
    /// The configuration.
    pub config: Config,
    /// The channel being closed.
    pub channel: PaymentChannel,
    /// The address of the channel account.
    pub channel_key: Pubkey,
    /// The token account that holds the channel's locked tokens.
    pub channel_token_account: Pubkey,
    /// The receiver's token account.
    pub receiver_token_account: Pubkey,
    /// The sender's token account.
    pub sender_token_account: Pubkey,
    /// The treasury's token account, which must be the configured one.
    pub treasury_token_account: Pubkey,
    /// The sender's account, which must be the channel's sender.
    pub sender: Pubkey,
}

/// Why `close_channel` refuses, if it does, given whether the voucher's
/// signature is accepted: a signer other than the receiver, a treasury
/// other than the configured one or a sender other than the channel's is
/// refused first; then a refused signature, a voucher above the locked
/// amount, and a sequence number not above the stored one, in that order.
pub open spec fn close_channel_rejection(
    pre: CloseChannel,
    voucher_amount: u64,
    voucher_seq: u64,
    signature_accepted: bool,
) -> Option<SettlementError> {
    if pre.receiver@ != pre.channel.receiver@ {
        Some(SettlementError::NotAuthorized)
    } else if pre.treasury_token_account@ != pre.config.treasury@ {
        Some(SettlementError::NotAuthorized)
    } else if pre.sender@ != pre.channel.sender@ {
        Some(SettlementError::NotAuthorized)
    } else if !signature_accepted {
        Some(SettlementError::InvalidVoucherSignature)
    } else if voucher_amount > pre.channel.locked_amount {
        Some(SettlementError::VoucherExceedsLocked)
    } else if voucher_seq <= pre.channel.voucher_seq {
        Some(SettlementError::StaleVoucher)
    } else {
        None
    }
}

/// Whether the voucher carries the channel sender's signature of its
/// message for this channel.
pub open spec fn close_signature_accepted(
    pre: CloseChannel,
    voucher_amount: u64,
    voucher_seq: u64,
    voucher_signature: Seq<u8>,
) -> bool {
    voucher_signature_accepted(
        pre.channel.sender@,
        pre.channel_key@,
        voucher_amount,
        voucher_seq,
        voucher_signature,
    )
}

/// The receiver's payout, the protocol fee and the sender's refund when the
/// channel closes on a voucher for `voucher_amount`.
pub open spec fn close_amounts(pre: CloseChannel, voucher_amount: u64) -> (u64, u64, u64) {
    settlement_amounts(pre.channel.locked_amount, voucher_amount, pre.config.protocol_fee_bps)
}

/// The transfers out of the channel's token account when it closes.
pub open spec fn close_transfers(pre: CloseChannel, voucher_amount: u64) -> Seq<TokenTransfer> {
    payout_transfers(
        pre.channel_token_account,
        pre.receiver_token_account,
        pre.treasury_token_account,
        pre.sender_token_account,
        pre.channel_key,
        close_amounts(pre, voucher_amount),
    )
}

/// The event that reports the close.
pub open spec fn close_event(pre: CloseChannel, voucher_amount: u64) -> ChannelClosed {
    let amounts = close_amounts(pre, voucher_amount);
    ChannelClosed {
        sender: pre.channel.sender,
        receiver: pre.channel.receiver,
        nonce: pre.channel.nonce,
        receiver_payout: amounts.0,
        protocol_fee: amounts.1,
        sender_refund: amounts.2,
    }
}

/// Whether the arithmetic of `close_channel` stays within `u64`: the
/// configuration is valid and, where the voucher is accepted, the fee on its
/// amount fits. Outside this range the multiplication overflows and the
/// instruction aborts.
pub open spec fn close_channel_in_range(
    pre: CloseChannel,
    voucher_amount: u64,
    voucher_seq: u64,
    voucher_signature: Seq<u8>,
) -> bool {
    &&& pre.config.wf()
    &&& close_channel_rejection(
        pre,
        voucher_amount,
        voucher_seq,
        close_signature_accepted(pre, voucher_amount, voucher_seq, voucher_signature),
    ) is None ==> voucher_amount * pre.config.protocol_fee_bps <= u64::MAX
}

/// What `close_channel` answers: the refusal that `close_channel_rejection`
/// names, or the payout transfers, the event, and the closing of the
/// channel account with its rent going to the sender.
pub open spec fn close_channel_outcome(
    pre: CloseChannel,
    voucher_amount: u64,
    voucher_seq: u64,
    voucher_signature: Seq<u8>,
    r: Result<InstructionOutput<ChannelClosed>, SettlementError>,
) -> bool {
    let rejection = close_channel_rejection(
        pre,
        voucher_amount,
        voucher_seq,
        close_signature_accepted(pre, voucher_amount, voucher_seq, voucher_signature),
    );
    &&& r is Ok <==> rejection is None
    &&& r matches Err(e) ==> rejection == Some(e)
    &&& r matches Ok(out) ==> {
        &&& out.transfers@ == close_transfers(pre, voucher_amount)
        &&& out.event == close_event(pre, voucher_amount)
        &&& out.closed == Some(AccountClose { account: pre.channel_key, rent_to: pre.sender })
    }
}

/// Closes a channel on a voucher signed by its sender that is newer than the
/// stored one: the voucher's amount goes to the receiver less the protocol
/// fee, which goes to the treasury, and the rest of the locked amount goes
/// back to the sender. The channel account itself is closed, its rent
/// going to the sender.
pub fn handler(
    accounts: &CloseChannel,
    voucher_amount: u64,
    voucher_seq: u64,
    voucher_signature: [u8; 64],
) -> (r: Result<InstructionOutput<ChannelClosed>, SettlementError>)
    requires
        close_channel_in_range(*accounts, voucher_amount, voucher_seq, voucher_signature@),
    ensures
        close_channel_outcome(*accounts, voucher_amount, voucher_seq, voucher_signature@, r),
{
    let channel = &accounts.channel;
    let config = &accounts.config;
    if !accounts.receiver.equals(&channel.receiver) {
        return Err(SettlementError::NotAuthorized);
    }
    if !accounts.treasury_token_account.equals(&config.treasury) {
        return Err(SettlementError::NotAuthorized);
    }
    if !accounts.sender.equals(&channel.sender) {
        return Err(SettlementError::NotAuthorized);
    }
    if !verify_voucher(
        &channel.sender.to_bytes(),
        &accounts.channel_key,
        voucher_amount,
        voucher_seq,
        &voucher_signature,
    ) {
        return Err(SettlementError::InvalidVoucherSignature);
    }
    if voucher_amount > channel.locked_amount {
        return Err(SettlementError::VoucherExceedsLocked);
    }
    if voucher_seq <= channel.voucher_seq {
        return Err(SettlementError::StaleVoucher);
    }
    let amounts = settle(channel.locked_amount, voucher_amount, config.protocol_fee_bps);
    let transfers = build_payout_transfers(
        accounts.channel_token_account,
        accounts.receiver_token_account,
        accounts.treasury_token_account,
        accounts.sender_token_account,
        accounts.channel_key,
        amounts,
    );
    Ok(
        InstructionOutput {
            transfers,
            event: ChannelClosed {
                sender: channel.sender,
                receiver: channel.receiver,
                nonce: channel.nonce,
                receiver_payout: amounts.0,
                protocol_fee: amounts.1,
                sender_refund: amounts.2,
            },
            closed: Some(AccountClose { account: accounts.channel_key, rent_to: accounts.sender }),
        },
    )
}

/// Whether `close_channel` can run on these accounts and this voucher
/// without its arithmetic overflowing.
fn arithmetic_in_range(
    accounts: &CloseChannel,
    voucher_amount: u64,
    voucher_seq: u64,
    voucher_signature: [u8; 64],
) -> (ok: bool)
    ensures
        ok == close_channel_in_range(*accounts, voucher_amount, voucher_seq, voucher_signature@),
{
    if accounts.config.protocol_fee_bps > MAX_PROTOCOL_FEE_BPS {
        return false;
    }
    let accepted = verify_voucher(
        &accounts.channel.sender.to_bytes(),
        &accounts.channel_key,
        voucher_amount,
        voucher_seq,
        &voucher_signature,
    );
    let refused = !accounts.receiver.equals(&accounts.channel.receiver)
        || !accounts.treasury_token_account.equals(&accounts.config.treasury)
        || !accounts.sender.equals(&accounts.channel.sender) || !accepted || voucher_amount
        > accounts.channel.locked_amount || voucher_seq <= accounts.channel.voucher_seq;
    refused || fee_fits(voucher_amount, accounts.config.protocol_fee_bps)
}

/// Runs `close_channel` where its arithmetic stays within `u64`, and
/// answers `None` where it would overflow, there the instruction aborts.
pub fn handler_checked(
    accounts: &CloseChannel,
    voucher_amount: u64,
    voucher_seq: u64,
    voucher_signature: [u8; 64],
) -> (r: Option<Result<InstructionOutput<ChannelClosed>, SettlementError>>)
    ensures
        r is None <==> !close_channel_in_range(
            *accounts,
            voucher_amount,
            voucher_seq,
            voucher_signature@,
        ),
        r matches Some(res) ==> close_channel_outcome(
            *accounts,
            voucher_amount,
            voucher_seq,
            voucher_signature@,
            res,
        ),
{
    if !arithmetic_in_range(accounts, voucher_amount, voucher_seq, voucher_signature) {
        return None;
    }
    Some(handler(accounts, voucher_amount, voucher_seq, voucher_signature))
}

} // verus!
