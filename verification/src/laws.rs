//! Properties that span several instructions or hold of every input.

use vstd::prelude::*;
use vstd::arithmetic::power::pow;
use vstd::arithmetic::div_mod::{lemma_div_is_ordered, lemma_div_multiples_vanish, lemma_fundamental_div_mod, lemma_mod_pos_bound};
use vstd::arithmetic::mul::lemma_mul_inequality;
use vstd::arithmetic::power2::{pow2, lemma_pow2, lemma_pow2_unfold, lemma_pow2_pos};
use crate::errors::SettlementError;
use crate::fees::{lemma_fee_at_most_half, protocol_fee_spec};
use crate::hash::sha256_spec;
use crate::instructions::claim::{
    gross_payout_spec, claim_amounts, claim_proof_valid, claim_reaches_payout, claim_rejection, claim_transfers,
    merkle_fold, merkle_leaf, merkle_parent, merkle_proof_valid, proof_nodes, Claim,
};
use crate::instructions::close_channel::{
    close_amounts, close_channel_rejection, close_signature_accepted, close_transfers, CloseChannel,
};
use crate::instructions::force_close::{
    force_close_authorized, force_close_pays_out, force_close_step, force_close_amounts, force_close_rejection, force_close_transfers, ForceClose,
    FORCE_CLOSE_TIMEOUT_SLOTS,
};
use crate::instructions::settlement::lemma_payout_total;
use crate::instructions::update_config::updated_config;
use crate::instructions::update_voucher::{
    channel_with_voucher, update_signature_accepted, update_voucher_rejection, UpdateVoucher,
};
use crate::state::{Config, PaymentChannel};
use crate::transfer::{
    lemma_push_if_positive_total, push_if_positive, total_amount, transfer_of, TokenTransfer,
};
use crate::voucher::{ed25519_verify_spec, voucher_preimage};

verus! {

/// Closing a channel on an acceptable voucher moves out of the channel's
/// token account exactly what the channel locked: the receiver's payout,
/// the protocol fee and the sender's refund add up to the locked amount,
/// and the payout and the fee add up to the voucher's amount.
pub proof fn lemma_close_pays_out_locked_amount(pre: CloseChannel, voucher_amount: u64)
    requires
        pre.config.wf(),
        voucher_amount <= pre.channel.locked_amount,
    ensures
        total_amount(close_transfers(pre, voucher_amount)) == pre.channel.locked_amount,
        close_amounts(pre, voucher_amount).0 + close_amounts(pre, voucher_amount).1
            == voucher_amount,
        close_amounts(pre, voucher_amount).2 == pre.channel.locked_amount - voucher_amount,
{
    lemma_fee_at_most_half(voucher_amount, pre.config.protocol_fee_bps);
    lemma_payout_total(
        pre.channel_token_account,
        pre.receiver_token_account,
        pre.treasury_token_account,
        pre.sender_token_account,
        pre.channel_key,
        close_amounts(pre, voucher_amount),
    );
}

/// A force close that pays out moves out of the channel's token account
/// exactly what the channel locked, split on the latest recorded voucher.
pub proof fn lemma_force_close_pays_out_locked_amount(pre: ForceClose)
    requires
        pre.config.wf(),
        pre.channel.wf(),
    ensures
        total_amount(force_close_transfers(pre)) == pre.channel.locked_amount,
        force_close_amounts(pre).0 + force_close_amounts(pre).1 == pre.channel.voucher_amount,
        force_close_amounts(pre).2 == pre.channel.locked_amount - pre.channel.voucher_amount,
{
    lemma_fee_at_most_half(pre.channel.voucher_amount, pre.config.protocol_fee_bps);
    lemma_payout_total(
        pre.channel_token_account,
        pre.receiver_token_account,
        pre.treasury_token_account,
        pre.sender_token_account,
        pre.channel_key,
        force_close_amounts(pre),
    );
}

/// A claim moves out of the pool's token account exactly its gross payout,
/// which is what the pool's balance goes down by.
pub proof fn lemma_claim_pays_out_gross(pre: Claim, operator_weight: u64)
    requires
        pre.config.wf(),
    ensures
        total_amount(claim_transfers(pre, operator_weight)) == claim_amounts(
            pre,
            operator_weight,
        ).0,
{
    let amounts = claim_amounts(pre, operator_weight);
    lemma_fee_at_most_half(amounts.0, pre.config.protocol_fee_bps);
    let t0 = transfer_of(pre.pool_token_account, pre.operator_token_account, pre.creator_pool_key, amounts.2);
    let t1 = transfer_of(pre.pool_token_account, pre.treasury_token_account, pre.creator_pool_key, amounts.1);
    lemma_push_if_positive_total(Seq::empty(), t0);
    lemma_push_if_positive_total(push_if_positive(Seq::empty(), t0), t1);
}

/// The protocol fee of a valid configuration never takes more than half of
/// what it is charged on, at a cooperative close, a force close or a claim.
pub proof fn lemma_protocol_fee_at_most_half(config: Config, amount: u64)
    requires
        config.wf(),
    ensures
        2 * protocol_fee_spec(amount, config.protocol_fee_bps) <= amount,
{
    lemma_fee_at_most_half(amount, config.protocol_fee_bps);
}

/// Once a voucher is recorded, the same voucher, and any other with a
/// sequence number no higher, is refused as stale by a later
/// `update_voucher`; a recorded voucher's sequence number is higher than
/// the one it replaced.
pub proof fn lemma_recorded_voucher_cannot_be_replayed(
    pre: UpdateVoucher,
    voucher_amount: u64,
    voucher_seq: u64,
    later_amount: u64,
    later_seq: u64,
)
    requires
        update_voucher_rejection(pre, voucher_amount, voucher_seq, true) is None,
        later_seq <= voucher_seq,
    ensures
        ({
            let post = UpdateVoucher {
                channel: channel_with_voucher(pre.channel, voucher_amount, voucher_seq),
                ..pre
            };
            &&& post.channel.voucher_seq > pre.channel.voucher_seq
            &&& update_voucher_rejection(post, later_amount, later_seq, true) == Some(
                SettlementError::StaleVoucher,
            )
        }),
{
}

/// A voucher no newer than the recorded one cannot close the channel: the
/// cooperative close asks for a sequence number above the recorded one.
pub proof fn lemma_close_needs_newer_voucher(pre: CloseChannel, voucher_amount: u64, voucher_seq: u64)
    requires
        voucher_seq <= pre.channel.voucher_seq,
    ensures
        close_channel_rejection(pre, voucher_amount, voucher_seq, true) is Some,
{
}

/// A force close started at a non-zero slot `start` is refused with
/// `ForceCloseTimeout` at every slot before `start + FORCE_CLOSE_TIMEOUT_SLOTS`
/// and is accepted from that slot on, by the sender, with the configured
/// treasury.
pub proof fn lemma_force_close_waits_for_timeout(pre: ForceClose, start: u64, slot: u64)
    requires
        pre.sender@ == pre.channel.sender@,
        pre.treasury_token_account@ == pre.config.treasury@,
        start > 0,
    ensures
        ({
            let started = ForceClose {
                channel: PaymentChannel { force_close_slot: start, ..pre.channel },
                ..pre
            };
            &&& slot < start + FORCE_CLOSE_TIMEOUT_SLOTS ==> force_close_rejection(started, slot)
                == Some(SettlementError::ForceCloseTimeout)
            &&& slot >= start + FORCE_CLOSE_TIMEOUT_SLOTS ==> force_close_rejection(started, slot)
                is None
        }),
{
}

/// Recording a voucher cancels a pending force close: the sender's next
/// `force_close` starts the timeout again instead of paying out.
pub proof fn lemma_voucher_cancels_force_close(
    channel: PaymentChannel,
    voucher_amount: u64,
    voucher_seq: u64,
)
    ensures
        channel_with_voucher(channel, voucher_amount, voucher_seq).force_close_slot == 0,
{
}

/// An `update_config` that gives no new value leaves the configuration as
/// it was.
pub proof fn lemma_update_config_without_changes(config: Config)
    ensures
        updated_config(config, None, None, None) == config,
{
}

/// Each pair of neighbours on `level` hashed together, left first: the
/// level above `level` in a distribution tree.
pub open spec fn merkle_next_level(level: Seq<Seq<u8>>) -> Seq<Seq<u8>> {
    Seq::new(level.len() / 2, |i: int| sha256_spec(level[2 * i] + level[2 * i + 1]))
}

/// The root of the tree of height `height` whose bottom level is `level`.
pub open spec fn merkle_tree_root(level: Seq<Seq<u8>>, height: nat) -> Seq<u8>
    decreases height,
{
    if height == 0 {
        level[0]
    } else {
        merkle_tree_root(merkle_next_level(level), (height - 1) as nat)
    }
}

/// The neighbour of position `index` on `level`.
pub open spec fn merkle_sibling(level: Seq<Seq<u8>>, index: nat) -> Seq<u8> {
    if index % 2 == 0 {
        level[index + 1int]
    } else {
        level[index - 1]
    }
}

/// The proof of position `index` in the tree of height `height` whose
/// bottom level is `level`: the sibling at each level, from the bottom up.
pub open spec fn merkle_tree_proof(level: Seq<Seq<u8>>, height: nat, index: nat) -> Seq<Seq<u8>>
    decreases height,
{
    if height == 0 {
        Seq::empty()
    } else {
        seq![merkle_sibling(level, index)] + merkle_tree_proof(
            merkle_next_level(level),
            (height - 1) as nat,
            index / 2,
        )
    }
}

/// Folding a node of a tree with its proof gives the tree's root.
pub proof fn lemma_tree_proof_folds_to_root(level: Seq<Seq<u8>>, height: nat, index: nat)
    requires
        level.len() == pow2(height),
        index < level.len(),
    ensures
        merkle_fold(level[index as int], merkle_tree_proof(level, height, index), index)
            == merkle_tree_root(level, height),
    decreases height,
{
    if height == 0 {
        lemma_pow2(0);
        assert(pow(2, 0) == 1) by {
            reveal(pow);
        }
        assert(merkle_tree_proof(level, height, index).len() == 0);
    } else {
        lemma_pow2_unfold(height);
        lemma_pow2_pos((height - 1) as nat);
        let next = merkle_next_level(level);
        let proof = merkle_tree_proof(level, height, index);
        let rest = merkle_tree_proof(next, (height - 1) as nat, index / 2);
        assert(proof.drop_first() =~= rest);
        assert(merkle_parent(level[index as int], proof[0], index) == next[(index / 2) as int]);
        lemma_tree_proof_folds_to_root(next, (height - 1) as nat, index / 2);
        assert(proof.len() > 0);
        assert(merkle_fold(level[index as int], proof, index) == merkle_fold(
            next[(index / 2) as int],
            rest,
            index / 2,
        ));
    }
}

/// Every operator whose leaf is in a distribution tree can prove it: the
/// proof of its position is valid against the tree's root.
pub proof fn lemma_distribution_proof_complete(
    leaves: Seq<Seq<u8>>,
    height: nat,
    index: nat,
    operator: Seq<u8>,
    weight: u64,
)
    requires
        leaves.len() == pow2(height),
        index < leaves.len(),
        leaves[index as int] == merkle_leaf(operator, weight),
    ensures
        merkle_proof_valid(
            operator,
            weight,
            merkle_tree_proof(leaves, height, index),
            index,
            merkle_tree_root(leaves, height),
        ),
{
    lemma_tree_proof_folds_to_root(leaves, height, index);
}

/// An operator listed in the posted distribution tree, with the proof of
/// its position, is not refused by `claim` when the pool holds its share:
/// its proof is valid against the posted root.
pub proof fn lemma_listed_operator_can_claim(
    pre: Claim,
    leaves: Seq<Seq<u8>>,
    height: nat,
    operator_pubkey: [u8; 32],
    operator_weight: u64,
    leaf_index: u32,
    merkle_proof: Seq<[u8; 32]>,
)
    requires
        leaves.len() == pow2(height),
        leaf_index < leaves.len(),
        leaves[leaf_index as int] == merkle_leaf(operator_pubkey@, operator_weight),
        pre.creator_pool.distribution_root@ == merkle_tree_root(leaves, height),
        proof_nodes(merkle_proof) == merkle_tree_proof(leaves, height, leaf_index as nat),
        claim_reaches_payout(pre),
        claim_amounts(pre, operator_weight).0 <= pre.creator_pool.pool_balance,
    ensures
        claim_rejection(
            pre,
            operator_weight,
            claim_proof_valid(pre, operator_pubkey@, operator_weight, leaf_index, merkle_proof),
        ) is None,
{
    lemma_distribution_proof_complete(
        leaves,
        height,
        leaf_index as nat,
        operator_pubkey@,
        operator_weight,
    );
}

/// Only a voucher signed by the channel's sender closes the channel: a
/// close that is not refused carries an Ed25519 signature under the
/// sender's key of the voucher message of this channel, amount and sequence
/// number.
pub proof fn lemma_close_needs_sender_signature(
    pre: CloseChannel,
    voucher_amount: u64,
    voucher_seq: u64,
    voucher_signature: Seq<u8>,
)
    requires
        close_channel_rejection(
            pre,
            voucher_amount,
            voucher_seq,
            close_signature_accepted(pre, voucher_amount, voucher_seq, voucher_signature),
        ) is None,
    ensures
        ed25519_verify_spec(
            pre.channel.sender@,
            sha256_spec(voucher_preimage(pre.channel_key@, voucher_amount, voucher_seq)),
            voucher_signature,
        ),
{
}

/// Only a voucher signed by the channel's sender is recorded: an update
/// that is not refused carries an Ed25519 signature under the sender's key
/// of the voucher message of this channel, amount and sequence number.
pub proof fn lemma_update_needs_sender_signature(
    pre: UpdateVoucher,
    voucher_amount: u64,
    voucher_seq: u64,
    voucher_signature: Seq<u8>,
)
    requires
        update_voucher_rejection(
            pre,
            voucher_amount,
            voucher_seq,
            update_signature_accepted(pre, voucher_amount, voucher_seq, voucher_signature),
        ) is None,
    ensures
        ed25519_verify_spec(
            pre.channel.sender@,
            sha256_spec(voucher_preimage(pre.channel_key@, voucher_amount, voucher_seq)),
            voucher_signature,
        ),
{
}

/// What a list of transfers takes out of `account`, less what it puts in.
pub open spec fn net_outflow(transfers: Seq<TokenTransfer>, account: Seq<u8>) -> int
    decreases transfers.len(),
{
    if transfers.len() == 0 {
        0
    } else {
        let t = transfers.last();
        net_outflow(transfers.drop_last(), account) + (if t.from@ == account {
            t.amount as int
        } else {
            0
        }) - (if t.to@ == account {
            t.amount as int
        } else {
            0
        })
    }
}

proof fn lemma_net_outflow_push_if_positive(
    transfers: Seq<TokenTransfer>,
    t: TokenTransfer,
    account: Seq<u8>,
)
    ensures
        net_outflow(push_if_positive(transfers, t), account) == net_outflow(transfers, account) + (
        if t.from@ == account {
            t.amount as int
        } else {
            0
        }) - (if t.to@ == account {
            t.amount as int
        } else {
            0
        }),
{
    if t.amount > 0 {
        assert(transfers.push(t).drop_last() =~= transfers);
    }
}

/// When the pool's token account is neither the operator's nor the
/// treasury's, a claim takes exactly its gross payout out of the pool's
/// token account, which is what the pool's recorded balance goes down by.
pub proof fn lemma_claim_debits_pool_account_by_gross(pre: Claim, operator_weight: u64)
    requires
        pre.config.wf(),
        pre.pool_token_account@ != pre.operator_token_account@,
        pre.pool_token_account@ != pre.treasury_token_account@,
    ensures
        net_outflow(claim_transfers(pre, operator_weight), pre.pool_token_account@) == claim_amounts(
            pre,
            operator_weight,
        ).0,
{
    let amounts = claim_amounts(pre, operator_weight);
    lemma_fee_at_most_half(amounts.0, pre.config.protocol_fee_bps);
    let t0 = transfer_of(pre.pool_token_account, pre.operator_token_account, pre.creator_pool_key, amounts.2);
    let t1 = transfer_of(pre.pool_token_account, pre.treasury_token_account, pre.creator_pool_key, amounts.1);
    let acct = pre.pool_token_account@;
    lemma_net_outflow_push_if_positive(Seq::empty(), t0, acct);
    lemma_net_outflow_push_if_positive(push_if_positive(Seq::empty(), t0), t1, acct);
}

/// The sum of a list of weights.
pub open spec fn total_of_weights(weights: Seq<u64>) -> int
    decreases weights.len(),
{
    if weights.len() == 0 {
        0
    } else {
        total_of_weights(weights.drop_last()) + weights.last()
    }
}

/// The sum of the gross payouts of claims with these weights on one
/// distribution.
pub open spec fn total_of_shares(weights: Seq<u64>, epoch_balance: u64, total_weight: u64) -> int
    decreases weights.len(),
{
    if weights.len() == 0 {
        0
    } else {
        total_of_shares(weights.drop_last(), epoch_balance, total_weight) + gross_payout_spec(
            weights.last(),
            epoch_balance,
            total_weight,
        )
    }
}

/// The share of one weight, no larger than the total, is its exact share
/// rounded down.
proof fn lemma_share_bounds(weight: u64, epoch_balance: u64, total_weight: u64)
    requires
        0 < total_weight,
        weight <= total_weight,
    ensures
        gross_payout_spec(weight, epoch_balance, total_weight) == (weight * epoch_balance) / (
        total_weight as int),
        total_weight * gross_payout_spec(weight, epoch_balance, total_weight) <= weight
            * epoch_balance,
        weight * epoch_balance < total_weight * (gross_payout_spec(
            weight,
            epoch_balance,
            total_weight,
        ) + 1),
{
    let x = weight * epoch_balance;
    let t = total_weight as int;
    let q = x / t;
    lemma_fundamental_div_mod(x, t);
    assert(0 <= x) by (nonlinear_arith)
        requires
            x == weight * epoch_balance,
    ;
    lemma_mod_pos_bound(x, t);
    lemma_mul_inequality(weight as int, t, epoch_balance as int);
    lemma_div_is_ordered(x, t * epoch_balance, t);
    lemma_div_multiples_vanish(epoch_balance as int, t);
    assert(0 <= q <= epoch_balance) by {
        lemma_div_is_ordered(0, x, t);
    }
    assert(t * (q + 1) == t * q + t) by (nonlinear_arith);
}

/// Claims on one distribution by operators whose weights make up the total
/// weight never pay out more than the epoch balance, and leave less than
/// one unit per claim of it unpaid: the rounding down only ever keeps back
/// less than one unit per claim.
pub proof fn lemma_distribution_never_overpays(
    weights: Seq<u64>,
    epoch_balance: u64,
    total_weight: u64,
)
    requires
        0 < total_weight,
        total_of_weights(weights) == total_weight,
        weights.len() >= 1,
    ensures
        epoch_balance - weights.len() < total_of_shares(weights, epoch_balance, total_weight)
            <= epoch_balance,
{
    lemma_shares_bounds(weights, epoch_balance, total_weight);
    let s = total_of_shares(weights, epoch_balance, total_weight);
    let t = total_weight as int;
    let n = weights.len() as int;
    assert(s <= epoch_balance) by (nonlinear_arith)
        requires
            t * s <= t * epoch_balance,
            0 < t,
    ;
    assert(s + n > epoch_balance) by (nonlinear_arith)
        requires
            t * (s + n) >= t * epoch_balance + n,
            0 < t,
            n >= 1,
    ;
}

proof fn lemma_shares_bounds(weights: Seq<u64>, epoch_balance: u64, total_weight: u64)
    requires
        0 < total_weight,
        total_of_weights(weights) <= total_weight,
    ensures
        0 <= total_of_weights(weights),
        total_weight * total_of_shares(weights, epoch_balance, total_weight) <= total_of_weights(
            weights,
        ) * epoch_balance,
        total_weight * (total_of_shares(weights, epoch_balance, total_weight) + weights.len())
            >= total_of_weights(weights) * epoch_balance + weights.len(),
    decreases weights.len(),
{
    if weights.len() > 0 {
        let rest = weights.drop_last();
        let w = weights.last();
        lemma_total_of_weights_nonnegative(rest);
        lemma_shares_bounds(rest, epoch_balance, total_weight);
        lemma_share_bounds(w, epoch_balance, total_weight);
        let g = gross_payout_spec(w, epoch_balance, total_weight) as int;
        let sr = total_of_shares(rest, epoch_balance, total_weight);
        let wr = total_of_weights(rest);
        let t = total_weight as int;
        let e = epoch_balance as int;
        let n = rest.len() as int;
        assert(t * (sr + g) <= (wr + w) * e) by (nonlinear_arith)
            requires
                t * sr <= wr * e,
                t * g <= w * e,
        ;
        assert(t * (sr + g + n + 1) >= (wr + w) * e + n + 1) by (nonlinear_arith)
            requires
                t * (sr + n) >= wr * e + n,
                w * e < t * (g + 1),
        ;
    }
}

proof fn lemma_total_of_weights_nonnegative(weights: Seq<u64>)
    ensures
        0 <= total_of_weights(weights),
    decreases weights.len(),
{
    if weights.len() > 0 {
        lemma_total_of_weights_nonnegative(weights.drop_last());
    }
}

/// Only the low bits of a position matter to a proof: positions that differ
/// by a multiple of two to the proof's length fold to the same root.
pub proof fn lemma_merkle_fold_low_bits(node: Seq<u8>, proof: Seq<Seq<u8>>, index: nat, k: nat)
    ensures
        merkle_fold(node, proof, index + k * pow2(proof.len())) == merkle_fold(node, proof, index),
    decreases proof.len(),
{
    if proof.len() > 0 {
        let n = proof.len();
        lemma_pow2_unfold(n);
        let m = k * pow2((n - 1) as nat);
        assert(k * pow2(n) == 2 * m) by (nonlinear_arith)
            requires
                pow2(n) == 2 * pow2((n - 1) as nat),
                m == k * pow2((n - 1) as nat),
        ;
        let j = index + k * pow2(n);
        assert(j % 2 == index % 2);
        assert(j / 2 == index / 2 + m);
        assert(proof.drop_first().len() == n - 1);
        lemma_merkle_fold_low_bits(
            merkle_parent(node, proof[0], index),
            proof.drop_first(),
            index / 2,
            k,
        );
    }
}

/// Whether a proof is valid depends only on the low bits of the claimed
/// position: as many as the proof has nodes.
pub proof fn lemma_merkle_proof_low_bits(
    operator: Seq<u8>,
    weight: u64,
    proof: Seq<Seq<u8>>,
    index: nat,
    k: nat,
    root: Seq<u8>,
)
    ensures
        merkle_proof_valid(operator, weight, proof, index + k * pow2(proof.len()), root)
            == merkle_proof_valid(operator, weight, proof, index, root),
{
    lemma_merkle_fold_low_bits(merkle_leaf(operator, weight), proof, index, k);
}

/// A step on a channel that gets through the checks of its instruction: a
/// voucher recorded by `update_voucher`, or a `force_close` at a slot.
pub enum ChannelStep {
    Voucher { amount: u64, seq: u64 },
    ForceClose { slot: u64 },
}

/// The channel after one accepted step.
pub open spec fn apply_step(channel: PaymentChannel, step: ChannelStep) -> PaymentChannel {
    match step {
        ChannelStep::Voucher { amount, seq } => channel_with_voucher(channel, amount, seq),
        ChannelStep::ForceClose { slot } => force_close_step(channel, slot),
    }
}

/// The channel after a list of accepted steps, in order.
pub open spec fn apply_steps(channel: PaymentChannel, steps: Seq<ChannelStep>) -> PaymentChannel
    decreases steps.len(),
{
    if steps.len() == 0 {
        channel
    } else {
        apply_step(apply_steps(channel, steps.drop_last()), steps.last())
    }
}

/// A force close pays out only after it was started: on a channel with no
/// force close pending, after any list of accepted steps, a force close at
/// `slot` that pays out follows a force close at some slot `start > 0` that
/// found none pending and started one, no voucher was recorded since, and
/// `slot` is at least `start + FORCE_CLOSE_TIMEOUT_SLOTS`. The index of that
/// force close is returned.
pub proof fn lemma_force_close_payout_history(
    start_channel: PaymentChannel,
    steps: Seq<ChannelStep>,
    slot: u64,
) -> (j: int)
    requires
        start_channel.force_close_slot == 0,
        force_close_pays_out(apply_steps(start_channel, steps), slot),
    ensures
        0 <= j < steps.len(),
        steps[j] is ForceClose,
        steps[j]->slot > 0,
        apply_steps(start_channel, steps.take(j)).force_close_slot == 0,
        forall|i: int| j < i < steps.len() ==> #[trigger] steps[i] is ForceClose,
        slot >= steps[j]->slot + FORCE_CLOSE_TIMEOUT_SLOTS,
    decreases steps.len(),
{
    if steps.len() == 0 {
        assert(false);
        0
    } else {
        let last = steps.last();
        let rest = steps.drop_last();
        let before = apply_steps(start_channel, rest);
        assert(steps.take(steps.len() - 1) =~= rest);
        match last {
            ChannelStep::Voucher { amount, seq } => {
                assert(false);
                0
            },
            ChannelStep::ForceClose { slot: s } => {
                if before.force_close_slot == 0 {
                    (steps.len() - 1) as int
                } else {
                    let j = lemma_force_close_payout_history(start_channel, rest, slot);
                    assert(steps.take(j) =~= rest.take(j));
                    assert forall|i: int| j < i < steps.len() implies #[trigger] steps[i] is ForceClose by {
                        if i < steps.len() - 1 {
                            assert(steps[i] == rest[i]);
                        }
                    }
                    j
                }
            },
        }
    }
}

/// After a voucher is recorded, the sender's next force close, at a slot
/// after zero and with the configured treasury, is not refused, pays
/// nothing out and starts the timeout again at that slot.
pub proof fn lemma_force_close_after_voucher_restarts(
    pre: ForceClose,
    voucher_amount: u64,
    voucher_seq: u64,
    slot: u64,
)
    requires
        force_close_authorized(pre),
        slot > 0,
    ensures
        ({
            let after = ForceClose {
                channel: channel_with_voucher(pre.channel, voucher_amount, voucher_seq),
                ..pre
            };
            &&& force_close_rejection(after, slot) is None
            &&& !force_close_pays_out(after.channel, slot)
            &&& force_close_step(after.channel, slot).force_close_slot == slot
        }),
{
}

} // verus!
