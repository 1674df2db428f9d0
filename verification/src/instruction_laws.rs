//! What each instruction does, stated over its inputs and results: when it
//! is accepted, and what it pays and records when it is.

use vstd::prelude::*;
use crate::events::RewardsClaimed;
use crate::fees::lemma_fee_at_most_half;
use crate::hash::sha256_spec;
use crate::instructions::claim::{claim_outcome, merkle_fold, merkle_leaf, proof_nodes, Claim};
use crate::instructions::close_channel::{close_channel_outcome, CloseChannel};
use crate::instructions::force_close::{
    force_close_outcome, ForceClose, ForceCloseOutput, FORCE_CLOSE_TIMEOUT_SLOTS,
};
use crate::instructions::update_config::{update_config_outcome, UpdateConfig};
use crate::instructions::update_voucher::{update_voucher_outcome, UpdateVoucher};
use crate::pubkey::Pubkey;
use crate::errors::SettlementError;
use crate::events::{ChannelClosed, ConfigUpdated};
use crate::transfer::{push_if_positive, AccountClose, InstructionOutput, TokenTransfer};
use crate::voucher::{ed25519_verify_spec, voucher_preimage};

verus! {

/// What a list of transfers puts into `account`.
pub open spec fn total_into(transfers: Seq<TokenTransfer>, account: Seq<u8>) -> int
    decreases transfers.len(),
{
    if transfers.len() == 0 {
        0
    } else {
        total_into(transfers.drop_last(), account) + (if transfers.last().to@ == account {
            transfers.last().amount as int
        } else {
            0
        })
    }
}

proof fn lemma_total_into_push_if_positive(
    transfers: Seq<TokenTransfer>,
    t: TokenTransfer,
    account: Seq<u8>,
)
    ensures
        total_into(push_if_positive(transfers, t), account) == total_into(transfers, account) + (
        if t.to@ == account {
            t.amount as int
        } else {
            0
        }),
{
    if t.amount > 0 {
        assert(transfers.push(t).drop_last() =~= transfers);
    }
}

/// Whether every transfer of a list debits `from` and is signed by
/// `authority`.
pub open spec fn all_debit(transfers: Seq<TokenTransfer>, from: Pubkey, authority: Pubkey) -> bool {
    forall|i: int|
        0 <= i < transfers.len() ==> (#[trigger] transfers[i]).from == from && transfers[i].authority
            == authority
}

proof fn lemma_all_debit_push_if_positive(
    transfers: Seq<TokenTransfer>,
    t: TokenTransfer,
    from: Pubkey,
    authority: Pubkey,
)
    requires
        all_debit(transfers, from, authority),
        t.from == from,
        t.authority == authority,
    ensures
        all_debit(push_if_positive(transfers, t), from, authority),
{
    if t.amount > 0 {
        let s = transfers.push(t);
        assert forall|i: int| 0 <= i < s.len() implies (#[trigger] s[i]).from == from
            && s[i].authority == authority by {
            if i < transfers.len() {
                assert(s[i] == transfers[i]);
            }
        }
    }
}

/// What three transfers, each made only where positive, put into `account`.
proof fn lemma_total_into_three(
    t0: TokenTransfer,
    t1: TokenTransfer,
    t2: TokenTransfer,
    account: Seq<u8>,
)
    ensures
        total_into(
            push_if_positive(push_if_positive(push_if_positive(Seq::empty(), t0), t1), t2),
            account,
        ) == (if t0.to@ == account {
            t0.amount as int
        } else {
            0
        }) + (if t1.to@ == account {
            t1.amount as int
        } else {
            0
        }) + (if t2.to@ == account {
            t2.amount as int
        } else {
            0
        }),
{
    let s0 = Seq::<TokenTransfer>::empty();
    lemma_total_into_push_if_positive(s0, t0, account);
    let s1 = push_if_positive(s0, t0);
    lemma_total_into_push_if_positive(s1, t1, account);
    let s2 = push_if_positive(s1, t1);
    lemma_total_into_push_if_positive(s2, t2, account);
}

/// A claim is accepted, for a pool of any service type, exactly when the
/// treasury is the configured one, a distribution with positive total
/// weight is posted, the proof leads from the operator's leaf at its
/// position to the posted root, and the pool holds the operator's share:
/// its weight's part of the epoch balance, rounded down. The share is then
/// paid, the fee of `protocol_fee_bps` basis points on it, rounded down,
/// to the treasury and the rest to the operator, and the pool's balance
/// goes down by the share; nothing else of the pool changes.
pub proof fn lemma_claim_pays_share(
    pre: Claim,
    post: Claim,
    operator_pubkey: [u8; 32],
    operator_weight: u64,
    leaf_index: u32,
    merkle_proof: Seq<[u8; 32]>,
    r: Result<InstructionOutput<RewardsClaimed>, SettlementError>,
)
    requires
        pre.config.wf(),
        claim_outcome(pre, post, operator_pubkey, operator_weight, leaf_index, merkle_proof, r),
    ensures
        r is Ok <==> {
            &&& pre.treasury_token_account@ == pre.config.treasury@
            &&& pre.creator_pool.distribution_posted
            &&& pre.creator_pool.total_weight > 0
            &&& merkle_fold(
                merkle_leaf(operator_pubkey@, operator_weight),
                proof_nodes(merkle_proof),
                leaf_index as nat,
            ) == pre.creator_pool.distribution_root@
            &&& ((operator_weight * pre.creator_pool.epoch_balance) / (
            pre.creator_pool.total_weight as int)) as u64 <= pre.creator_pool.pool_balance
        },
        r is Err ==> post == pre,
        r matches Ok(out) ==> {
            let gross = ((operator_weight * pre.creator_pool.epoch_balance) / (
            pre.creator_pool.total_weight as int)) as u64;
            let fee = (gross * pre.config.protocol_fee_bps) / 10_000;
            &&& out.event.gross_payout == gross
            &&& out.event.protocol_fee == fee
            &&& out.event.net_payout == gross - fee
            &&& out.event.operator == operator_pubkey
            &&& out.event.pool == pre.creator_pool.creator
            &&& post.creator_pool.pool_balance == pre.creator_pool.pool_balance - gross
            &&& post.creator_pool.service == pre.creator_pool.service
            &&& post.creator_pool.epoch_balance == pre.creator_pool.epoch_balance
            &&& post.creator_pool.total_weight == pre.creator_pool.total_weight
            &&& post.creator_pool.distribution_root == pre.creator_pool.distribution_root
            &&& post.creator_pool.distribution_posted == pre.creator_pool.distribution_posted
            &&& post.config == pre.config
            &&& out.closed is None
            &&& all_debit(out.transfers@, pre.pool_token_account, pre.creator_pool_key)
            &&& pre.treasury_token_account@ != pre.operator_token_account@ ==> {
                &&& total_into(out.transfers@, pre.treasury_token_account@) == fee
                &&& total_into(out.transfers@, pre.operator_token_account@) == gross - fee
            }
        },
{
    if r is Ok {
        let gross = ((operator_weight * pre.creator_pool.epoch_balance) / (
        pre.creator_pool.total_weight as int)) as u64;
        lemma_fee_at_most_half(gross, pre.config.protocol_fee_bps);
        let out = r->Ok_0;
        let fee = (gross * pre.config.protocol_fee_bps) / 10_000;
        let t0 = TokenTransfer {
            from: pre.pool_token_account,
            to: pre.operator_token_account,
            authority: pre.creator_pool_key,
            amount: (gross - fee) as u64,
        };
        let t1 = TokenTransfer {
            from: pre.pool_token_account,
            to: pre.treasury_token_account,
            authority: pre.creator_pool_key,
            amount: fee as u64,
        };
        let s0 = Seq::<TokenTransfer>::empty();
        lemma_total_into_push_if_positive(s0, t0, pre.treasury_token_account@);
        lemma_total_into_push_if_positive(push_if_positive(s0, t0), t1, pre.treasury_token_account@);
        lemma_total_into_push_if_positive(s0, t0, pre.operator_token_account@);
        lemma_total_into_push_if_positive(push_if_positive(s0, t0), t1, pre.operator_token_account@);
        lemma_all_debit_push_if_positive(s0, t0, pre.pool_token_account, pre.creator_pool_key);
        lemma_all_debit_push_if_positive(
            push_if_positive(s0, t0),
            t1,
            pre.pool_token_account,
            pre.creator_pool_key,
        );
    }
}

/// A cooperative close is accepted exactly when the signer is the
/// receiver, the treasury and the sender account are the channel's, the
/// voucher carries the sender's Ed25519 signature of the digest of the
/// channel address, amount and sequence number, the amount is within the
/// locked amount and the sequence number is above the recorded one. Then,
/// whatever voucher was recorded before, the fee is the voucher's amount at
/// `protocol_fee_bps` basis points rounded down and goes to the treasury,
/// the receiver gets the amount less the fee, the sender gets back the rest
/// of the locked amount, and the channel account is closed to the sender.
pub proof fn lemma_close_pays_voucher(
    pre: CloseChannel,
    voucher_amount: u64,
    voucher_seq: u64,
    voucher_signature: Seq<u8>,
    r: Result<InstructionOutput<ChannelClosed>, SettlementError>,
)
    requires
        pre.config.wf(),
        close_channel_outcome(pre, voucher_amount, voucher_seq, voucher_signature, r),
    ensures
        r is Ok <==> {
            &&& pre.receiver@ == pre.channel.receiver@
            &&& pre.treasury_token_account@ == pre.config.treasury@
            &&& pre.sender@ == pre.channel.sender@
            &&& ed25519_verify_spec(
                pre.channel.sender@,
                sha256_spec(voucher_preimage(pre.channel_key@, voucher_amount, voucher_seq)),
                voucher_signature,
            )
            &&& voucher_amount <= pre.channel.locked_amount
            &&& voucher_seq > pre.channel.voucher_seq
        },
        r matches Ok(out) ==> {
            let fee = (voucher_amount * pre.config.protocol_fee_bps) / 10_000;
            &&& out.event.protocol_fee == fee
            &&& out.event.receiver_payout == voucher_amount - fee
            &&& out.event.sender_refund == pre.channel.locked_amount - voucher_amount
            &&& out.event.sender == pre.channel.sender
            &&& out.event.receiver == pre.channel.receiver
            &&& out.event.nonce == pre.channel.nonce
            &&& out.closed == Some(AccountClose { account: pre.channel_key, rent_to: pre.sender })
            &&& all_debit(out.transfers@, pre.channel_token_account, pre.channel_key)
            &&& ({
                &&& pre.treasury_token_account@ != pre.receiver_token_account@
                &&& pre.treasury_token_account@ != pre.sender_token_account@
                &&& pre.receiver_token_account@ != pre.sender_token_account@
            }) ==> {
                &&& total_into(out.transfers@, pre.treasury_token_account@) == fee
                &&& total_into(out.transfers@, pre.receiver_token_account@) == voucher_amount - fee
                &&& total_into(out.transfers@, pre.sender_token_account@)
                    == pre.channel.locked_amount - voucher_amount
            }
        },
{
    lemma_fee_at_most_half(voucher_amount, pre.config.protocol_fee_bps);
    let fee = (voucher_amount * pre.config.protocol_fee_bps) / 10_000;
    let t0 = TokenTransfer {
        from: pre.channel_token_account,
        to: pre.receiver_token_account,
        authority: pre.channel_key,
        amount: (voucher_amount - fee) as u64,
    };
    let t1 = TokenTransfer {
        from: pre.channel_token_account,
        to: pre.treasury_token_account,
        authority: pre.channel_key,
        amount: fee as u64,
    };
    let t2 = TokenTransfer {
        from: pre.channel_token_account,
        to: pre.sender_token_account,
        authority: pre.channel_key,
        amount: (pre.channel.locked_amount - voucher_amount) as u64,
    };
    lemma_total_into_three(t0, t1, t2, pre.treasury_token_account@);
    lemma_total_into_three(t0, t1, t2, pre.receiver_token_account@);
    lemma_total_into_three(t0, t1, t2, pre.sender_token_account@);
    let s0 = Seq::<TokenTransfer>::empty();
    lemma_all_debit_push_if_positive(s0, t0, pre.channel_token_account, pre.channel_key);
    let s1 = push_if_positive(s0, t0);
    lemma_all_debit_push_if_positive(s1, t1, pre.channel_token_account, pre.channel_key);
    let s2 = push_if_positive(s1, t1);
    lemma_all_debit_push_if_positive(s2, t2, pre.channel_token_account, pre.channel_key);
}

/// A force close is accepted exactly when the signer is the sender and the
/// treasury is the configured one, and either no force close is pending or
/// the timeout since it started has passed. With none pending it records
/// `slot` as the start, changing nothing else, and pays nothing. Otherwise
/// it leaves the channel as it is and pays out on the recorded voucher,
/// whatever its amount up to the locked amount: the fee, the recorded
/// amount at `protocol_fee_bps` basis points rounded down, to the treasury,
/// the amount less the fee to the receiver, and the rest of the locked
/// amount back to the sender.
pub proof fn lemma_force_close_pays_recorded_voucher(
    pre: ForceClose,
    post: ForceClose,
    slot: u64,
    r: Result<ForceCloseOutput, SettlementError>,
)
    requires
        pre.config.wf(),
        pre.channel.wf(),
        force_close_outcome(pre, post, slot, r),
    ensures
        r is Ok <==> {
            &&& pre.sender@ == pre.channel.sender@
            &&& pre.treasury_token_account@ == pre.config.treasury@
            &&& (pre.channel.force_close_slot == 0 || slot >= pre.channel.force_close_slot
                + FORCE_CLOSE_TIMEOUT_SLOTS)
        },
        r is Err ==> post == pre,
        r is Ok && pre.channel.force_close_slot == 0 ==> {
            &&& r matches Ok(ForceCloseOutput::Initiated(event))
            &&& post.channel.force_close_slot == slot
            &&& post.channel.voucher_amount == pre.channel.voucher_amount
            &&& post.channel.voucher_seq == pre.channel.voucher_seq
            &&& post.channel.locked_amount == pre.channel.locked_amount
        },
        r matches Ok(ForceCloseOutput::Initiated(event)) ==> {
            &&& event.initiated_slot == slot
            &&& slot + FORCE_CLOSE_TIMEOUT_SLOTS <= u64::MAX ==> event.claimable_slot == slot
                + FORCE_CLOSE_TIMEOUT_SLOTS
        },
        r is Ok && pre.channel.force_close_slot != 0 ==> {
            &&& r matches Ok(ForceCloseOutput::Finalised(out))
            &&& post == pre
        },
        r matches Ok(ForceCloseOutput::Finalised(out)) ==> {
            let spent = pre.channel.voucher_amount;
            let fee = (spent * pre.config.protocol_fee_bps) / 10_000;
            &&& out.event.receiver_payout == spent - fee
            &&& out.event.sender_refund == pre.channel.locked_amount - spent
            &&& out.closed is None
            &&& all_debit(out.transfers@, pre.channel_token_account, pre.channel_key)
            &&& ({
                &&& pre.treasury_token_account@ != pre.receiver_token_account@
                &&& pre.treasury_token_account@ != pre.sender_token_account@
                &&& pre.receiver_token_account@ != pre.sender_token_account@
            }) ==> {
                &&& total_into(out.transfers@, pre.treasury_token_account@) == fee
                &&& total_into(out.transfers@, pre.receiver_token_account@) == spent - fee
                &&& total_into(out.transfers@, pre.sender_token_account@)
                    == pre.channel.locked_amount - spent
            }
        },
{
    let spent = pre.channel.voucher_amount;
    lemma_fee_at_most_half(spent, pre.config.protocol_fee_bps);
    let fee = (spent * pre.config.protocol_fee_bps) / 10_000;
    let t0 = TokenTransfer {
        from: pre.channel_token_account,
        to: pre.receiver_token_account,
        authority: pre.channel_key,
        amount: (spent - fee) as u64,
    };
    let t1 = TokenTransfer {
        from: pre.channel_token_account,
        to: pre.treasury_token_account,
        authority: pre.channel_key,
        amount: fee as u64,
    };
    let t2 = TokenTransfer {
        from: pre.channel_token_account,
        to: pre.sender_token_account,
        authority: pre.channel_key,
        amount: (pre.channel.locked_amount - spent) as u64,
    };
    lemma_total_into_three(t0, t1, t2, pre.treasury_token_account@);
    lemma_total_into_three(t0, t1, t2, pre.receiver_token_account@);
    lemma_total_into_three(t0, t1, t2, pre.sender_token_account@);
    let s0 = Seq::<TokenTransfer>::empty();
    lemma_all_debit_push_if_positive(s0, t0, pre.channel_token_account, pre.channel_key);
    let s1 = push_if_positive(s0, t0);
    lemma_all_debit_push_if_positive(s1, t1, pre.channel_token_account, pre.channel_key);
    let s2 = push_if_positive(s1, t1);
    lemma_all_debit_push_if_positive(s2, t2, pre.channel_token_account, pre.channel_key);
}

/// A voucher update is accepted exactly when the signer is the receiver,
/// the voucher carries the sender's Ed25519 signature of the digest of the
/// channel address, amount and sequence number, the sequence number is
/// above the recorded one and the amount is within the locked amount. The
/// channel then records the voucher's amount and sequence number, whether
/// or not a force close was pending, and no force close is pending after
/// it; nothing else of the channel changes.
pub proof fn lemma_update_voucher_records_voucher(
    pre: UpdateVoucher,
    post: UpdateVoucher,
    voucher_amount: u64,
    voucher_seq: u64,
    voucher_signature: Seq<u8>,
    r: Result<(), SettlementError>,
)
    requires
        update_voucher_outcome(pre, post, voucher_amount, voucher_seq, voucher_signature, r),
    ensures
        r is Ok <==> {
            &&& pre.receiver@ == pre.channel.receiver@
            &&& ed25519_verify_spec(
                pre.channel.sender@,
                sha256_spec(voucher_preimage(pre.channel_key@, voucher_amount, voucher_seq)),
                voucher_signature,
            )
            &&& voucher_seq > pre.channel.voucher_seq
            &&& voucher_amount <= pre.channel.locked_amount
        },
        r is Err ==> post == pre,
        r is Ok ==> {
            &&& post.channel.voucher_amount == voucher_amount
            &&& post.channel.voucher_seq == voucher_seq
            &&& post.channel.force_close_slot == 0
            &&& post.channel.locked_amount == pre.channel.locked_amount
            &&& post.channel.sender == pre.channel.sender
            &&& post.channel.receiver == pre.channel.receiver
            &&& post.channel.nonce == pre.channel.nonce
            &&& post.channel.created_at == pre.channel.created_at
            &&& post.channel.bump == pre.channel.bump
            &&& post.receiver == pre.receiver
            &&& post.channel_key == pre.channel_key
        },
{
}

/// A configuration update is accepted exactly when the signer is the admin
/// and any new fee is at most 50%. Each value that is given is then taken
/// as it is, a pause flag of `false` as well as `true`, each value that is
/// not given is kept, the treasury and bump never change, and the event
/// reports the resulting configuration.
pub proof fn lemma_update_config_takes_given_values(
    pre: UpdateConfig,
    post: UpdateConfig,
    new_fee_bps: Option<u16>,
    new_admin: Option<Pubkey>,
    paused: Option<bool>,
    r: Result<ConfigUpdated, SettlementError>,
)
    requires
        update_config_outcome(pre, post, new_fee_bps, new_admin, paused, r),
    ensures
        r is Ok <==> {
            &&& pre.admin@ == pre.config.admin@
            &&& new_fee_bps matches Some(fee) ==> fee <= 5000
        },
        r is Err ==> post == pre,
        r matches Ok(event) ==> {
            &&& paused matches Some(p) ==> post.config.paused == p
            &&& paused is None ==> post.config.paused == pre.config.paused
            &&& new_fee_bps matches Some(fee) ==> post.config.protocol_fee_bps == fee
            &&& new_fee_bps is None ==> post.config.protocol_fee_bps == pre.config.protocol_fee_bps
            &&& new_admin matches Some(admin) ==> post.config.admin == admin
            &&& new_admin is None ==> post.config.admin == pre.config.admin
            &&& post.config.treasury == pre.config.treasury
            &&& post.config.bump == pre.config.bump
            &&& event.paused == post.config.paused
            &&& event.protocol_fee_bps == post.config.protocol_fee_bps
            &&& event.admin == post.config.admin
        },
{
}

} // verus!
