use vstd::prelude::*;
use crate::errors::SettlementError;
use crate::pubkey::Pubkey;
use crate::state::PaymentChannel;
use crate::voucher::{verify_voucher, voucher_signature_accepted};

verus! {

/// What `update_voucher` reads and writes.
#[derive(Debug, Clone, Copy, PartialEq, Eq)]
pub struct UpdateVoucher {
    /// The signer, who must be the channel's receiver.
    pub receiver: Pubkey,
    /// The channel.
    pub channel: PaymentChannel,
    /// The address of the channel account.
    pub channel_key: Pubkey,
}

/// Why `update_voucher` refuses, if it does, given whether the voucher's
/// signature is accepted: a signer other than the receiver; then a refused
/// signature, a sequence number not above the stored one, and an amount
/// above the locked amount, in that order.
pub open spec fn update_voucher_rejection(
    pre: UpdateVoucher,
    voucher_amount: u64,
    voucher_seq: u64,
    signature_accepted: bool,
) -> Option<SettlementError> {
    if pre.receiver@ != pre.channel.receiver@ {
        Some(SettlementError::NotAuthorized)
    } else if !signature_accepted {
        Some(SettlementError::InvalidVoucherSignature)
    } else if voucher_seq <= pre.channel.voucher_seq {
        Some(SettlementError::StaleVoucher)
    } else if voucher_amount > pre.channel.locked_amount {
        Some(SettlementError::VoucherExceedsLocked)
    } else {
        None
    }
}

/// Whether the voucher carries the channel sender's signature of its
/// message for this channel.
pub open spec fn update_signature_accepted(
    pre: UpdateVoucher,
    voucher_amount: u64,
    voucher_seq: u64,
    voucher_signature: Seq<u8>,
) -> bool {
    voucher_signature_accepted(
        pre.channel.sender@,
        pre.channel_key@,
        voucher_amount,
        voucher_seq,
        voucher_signature,
    )
}

/// The channel after it records a voucher: the voucher's amount and
/// sequence number, and no pending force close.
pub open spec fn channel_with_voucher(
    channel: PaymentChannel,
    voucher_amount: u64,
    voucher_seq: u64,
) -> PaymentChannel {
    PaymentChannel { voucher_amount, voucher_seq, force_close_slot: 0, ..channel }
}

/// What `update_voucher` answers and how it leaves the accounts: the
/// refusal that `update_voucher_rejection` names with the accounts
/// unchanged, or the channel holding the voucher.
pub open spec fn update_voucher_outcome(
    pre: UpdateVoucher,
    post: UpdateVoucher,
    voucher_amount: u64,
    voucher_seq: u64,
    voucher_signature: Seq<u8>,
    r: Result<(), SettlementError>,
) -> bool {
    let rejection = update_voucher_rejection(
        pre,
        voucher_amount,
        voucher_seq,
        update_signature_accepted(pre, voucher_amount, voucher_seq, voucher_signature),
    );
    &&& r is Ok <==> rejection is None
    &&& r matches Err(e) ==> rejection == Some(e) && post == pre
    &&& r is Ok ==> post == (UpdateVoucher {
        channel: channel_with_voucher(pre.channel, voucher_amount, voucher_seq),
        ..pre
    })
}

/// Records a newer voucher signed by the channel's sender. A pending force
/// close is cancelled, since the receiver has shown it is live.
pub fn handler(
    accounts: &mut UpdateVoucher,
    voucher_amount: u64,
    voucher_seq: u64,
    voucher_signature: [u8; 64],
) -> (r: Result<(), SettlementError>)
    ensures
        update_voucher_outcome(
            *old(accounts),
            *final(accounts),
            voucher_amount,
            voucher_seq,
            voucher_signature@,
            r,
        ),
        old(accounts).channel.wf() ==> final(accounts).channel.wf(),
{
    if !accounts.receiver.equals(&accounts.channel.receiver) {
        return Err(SettlementError::NotAuthorized);
    }
    if !verify_voucher(
        &accounts.channel.sender.to_bytes(),
        &accounts.channel_key,
        voucher_amount,
        voucher_seq,
        &voucher_signature,
    ) {
        return Err(SettlementError::InvalidVoucherSignature);
    }
    if voucher_seq <= accounts.channel.voucher_seq {
        return Err(SettlementError::StaleVoucher);
    }
    if voucher_amount > accounts.channel.locked_amount {
        return Err(SettlementError::VoucherExceedsLocked);
    }
    accounts.channel.voucher_amount = voucher_amount;
    accounts.channel.voucher_seq = voucher_seq;
    // Reset force_close if initiated (receiver proved liveness)
    if accounts.channel.force_close_slot > 0 {
        accounts.channel.force_close_slot = 0;
    }
    Ok(())
}

} // verus!
