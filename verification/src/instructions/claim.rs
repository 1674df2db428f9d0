use vstd::prelude::*;
use crate::errors::SettlementError;
use crate::events::RewardsClaimed;
use crate::fees::{lemma_fee_at_most_half, protocol_fee, protocol_fee_spec, MAX_PROTOCOL_FEE_BPS};
use crate::hash::{le_bytes, push_bytes32, push_u64_le, sha256, sha256_spec};
use crate::pubkey::{bytes_equal, Pubkey};
use crate::state::{Config, CreatorPool};
use crate::transfer::{
    push_if_positive, push_transfer, transfer_of, InstructionOutput, TokenTransfer,
};

verus! {

/// What `claim` reads and writes.
#[derive(Debug, Clone, Copy, PartialEq, Eq)]
pub struct Claim {
    /// The signer, the operator claiming its share.
    pub operator: Pubkey,
    /// The pool claimed from.
    pub creator_pool: CreatorPool,
    /// The address of the pool account, which signs for the pool's tokens.
    pub creator_pool_key: Pubkey,
    /// The configuration.
    pub config: Config,
    /// The pool's token account, debited.
    pub pool_token_account: Pubkey,
    /// The operator's token account, credited with the net payout.
    pub operator_token_account: Pubkey,
    /// The treasury's token account, which must be the configured one.
    pub treasury_token_account: Pubkey,
}

/// The leaf of the distribution tree for an operator and its weight: the
/// SHA-256 digest of the operator's key and the weight in eight
/// little-endian bytes.
pub open spec fn merkle_leaf(operator: Seq<u8>, weight: u64) -> Seq<u8> {
    sha256_spec(operator + le_bytes(weight as nat, 8))
}

/// The parent of `node` and its sibling at position `index` of its level:
/// a node at an even position is hashed before its sibling, one at an odd
/// position after it.
pub open spec fn merkle_parent(node: Seq<u8>, sibling: Seq<u8>, index: nat) -> Seq<u8> {
    if index % 2 == 0 {
        sha256_spec(node + sibling)
    } else {
        sha256_spec(sibling + node)
    }
}

/// The root reached from `node` at position `index` by hashing it with the
/// siblings of `proof`, from the bottom level up.
pub open spec fn merkle_fold(node: Seq<u8>, proof: Seq<Seq<u8>>, index: nat) -> Seq<u8>
    decreases proof.len(),
{
    if proof.len() == 0 {
        node
    } else {
        merkle_fold(merkle_parent(node, proof[0], index), proof.drop_first(), index / 2)
    }
}

/// The nodes of a proof as byte strings.
pub open spec fn proof_nodes(proof: Seq<[u8; 32]>) -> Seq<Seq<u8>> {
    Seq::new(proof.len(), |i: int| proof[i]@)
}

/// Whether `proof` shows that the leaf of `operator` and `weight` sits at
/// position `index` of a tree with root `root`.
pub open spec fn merkle_proof_valid(
    operator: Seq<u8>,
    weight: u64,
    proof: Seq<Seq<u8>>,
    index: nat,
    root: Seq<u8>,
) -> bool {
    merkle_fold(merkle_leaf(operator, weight), proof, index) == root
}

/// Verify a Merkle proof for a leaf (operator_pubkey, weight).
pub fn verify_merkle_proof(
    operator_pubkey: &[u8; 32],
    weight: u64,
    proof: &[[u8; 32]],
    index: usize,
    root: &[u8; 32],
) -> (valid: bool)
    ensures
        valid == merkle_proof_valid(
            operator_pubkey@,
            weight,
            proof_nodes(proof@),
            index as nat,
            root@,
        ),
{
    let ghost nodes = proof_nodes(proof@);
    // Leaf = SHA256(operator_pubkey || weight_le)
    let mut leaf_preimage: Vec<u8> = Vec::new();
    push_bytes32(&mut leaf_preimage, operator_pubkey);
    push_u64_le(&mut leaf_preimage, weight);
    let mut computed: [u8; 32] = sha256(leaf_preimage.as_slice());
    let ghost leaf = computed@;
    let mut idx: usize = index;
    let mut i: usize = 0;
    assert(nodes.skip(0) =~= nodes);
    while i < proof.len()
        invariant
            0 <= i <= proof@.len(),
            nodes == proof_nodes(proof@),
            leaf == merkle_leaf(operator_pubkey@, weight),
            merkle_fold(computed@, nodes.skip(i as int), idx as nat) == merkle_fold(
                leaf,
                nodes,
                index as nat,
            ),
        decreases proof@.len() - i,
    {
        let sibling: &[u8; 32] = &proof[i];
        let mut preimage: Vec<u8> = Vec::new();
        if idx % 2 == 0 {
            push_bytes32(&mut preimage, &computed);
            push_bytes32(&mut preimage, sibling);
        } else {
            push_bytes32(&mut preimage, sibling);
            push_bytes32(&mut preimage, &computed);
        }
        let next: [u8; 32] = sha256(preimage.as_slice());
        proof {
            assert(nodes.skip(i as int).drop_first() =~= nodes.skip(i + 1));
            assert(nodes.skip(i as int)[0] == sibling@);
            assert(next@ == merkle_parent(computed@, nodes.skip(i as int)[0], idx as nat));
        }
        computed = next;
        idx = idx / 2;
        i = i + 1;
    }
    assert(nodes.skip(i as int).len() == 0);
    bytes_equal(&computed, root)
}

/// An operator's gross payout: its share of the epoch balance in proportion
/// to its weight, rounded down and taken modulo 2^64.
pub open spec fn gross_payout_spec(weight: u64, epoch_balance: u64, total_weight: u64) -> u64 {
    ((weight * epoch_balance) / (total_weight as int)) as u64
}

/// The gross payout, the protocol fee and the net payout of a claim.
pub open spec fn claim_amounts(pre: Claim, operator_weight: u64) -> (u64, u64, u64) {
    let gross = gross_payout_spec(
        operator_weight,
        pre.creator_pool.epoch_balance,
        pre.creator_pool.total_weight,
    );
    let fee = protocol_fee_spec(gross, pre.config.protocol_fee_bps);
    (gross, fee as u64, (gross - fee) as u64)
}

/// Whether a claim gets as far as computing its payout: the treasury is the
/// configured one and a distribution with receipts is posted.
pub open spec fn claim_reaches_payout(pre: Claim) -> bool {
    &&& pre.treasury_token_account@ == pre.config.treasury@
    &&& pre.creator_pool.distribution_posted
    &&& pre.creator_pool.total_weight > 0
}

/// Why `claim` refuses, if it does, given whether the Merkle proof is
/// valid: a treasury other than the configured one; then no distribution
/// posted, a distribution without receipts, an invalid proof, and a gross
/// payout above the pool's balance, in that order.
pub open spec fn claim_rejection(pre: Claim, operator_weight: u64, proof_valid: bool) -> Option<
    SettlementError,
> {
    if pre.treasury_token_account@ != pre.config.treasury@ {
        Some(SettlementError::NotAuthorized)
    } else if !pre.creator_pool.distribution_posted {
        Some(SettlementError::DistributionNotPosted)
    } else if pre.creator_pool.total_weight == 0 {
        Some(SettlementError::NoReceipts)
    } else if !proof_valid {
        Some(SettlementError::InvalidMerkleProof)
    } else if claim_amounts(pre, operator_weight).0 > pre.creator_pool.pool_balance {
        Some(SettlementError::InsufficientPoolBalance)
    } else {
        None
    }
}

/// Whether the claim's proof is valid against the pool's posted root.
pub open spec fn claim_proof_valid(
    pre: Claim,
    operator_pubkey: Seq<u8>,
    operator_weight: u64,
    leaf_index: u32,
    merkle_proof: Seq<[u8; 32]>,
) -> bool {
    merkle_proof_valid(
        operator_pubkey,
        operator_weight,
        proof_nodes(merkle_proof),
        leaf_index as nat,
        pre.creator_pool.distribution_root@,
    )
}

/// The transfers out of the pool's token account, signed by the pool: the
/// net payout to the operator, then the fee to the treasury, each only
/// where it is positive.
pub open spec fn claim_transfers(pre: Claim, operator_weight: u64) -> Seq<TokenTransfer> {
    let amounts = claim_amounts(pre, operator_weight);
    let s1 = push_if_positive(
        Seq::empty(),
        transfer_of(pre.pool_token_account, pre.operator_token_account, pre.creator_pool_key, amounts.2),
    );
    push_if_positive(
        s1,
        transfer_of(pre.pool_token_account, pre.treasury_token_account, pre.creator_pool_key, amounts.1),
    )
}

/// Whether the arithmetic of `claim` stays within `u64`: the configuration
/// is valid and, where the claim gets as far as its payout with a valid
/// proof, the fee on the gross payout fits. Outside this range the
/// multiplication overflows and the instruction aborts.
pub open spec fn claim_in_range(
    pre: Claim,
    operator_pubkey: Seq<u8>,
    operator_weight: u64,
    leaf_index: u32,
    merkle_proof: Seq<[u8; 32]>,
) -> bool {
    &&& pre.config.wf()
    &&& claim_reaches_payout(pre) && claim_proof_valid(
        pre,
        operator_pubkey,
        operator_weight,
        leaf_index,
        merkle_proof,
    ) ==> claim_amounts(pre, operator_weight).0 * pre.config.protocol_fee_bps <= u64::MAX
}

/// What `claim` answers and how it leaves the accounts: the refusal that
/// `claim_rejection` names with the accounts unchanged, or the pool's
/// balance lowered by the gross payout, the payout transfers and the event.
pub open spec fn claim_outcome(
    pre: Claim,
    post: Claim,
    operator_pubkey: [u8; 32],
    operator_weight: u64,
    leaf_index: u32,
    merkle_proof: Seq<[u8; 32]>,
    r: Result<InstructionOutput<RewardsClaimed>, SettlementError>,
) -> bool {
    let rejection = claim_rejection(
        pre,
        operator_weight,
        claim_proof_valid(pre, operator_pubkey@, operator_weight, leaf_index, merkle_proof),
    );
    let amounts = claim_amounts(pre, operator_weight);
    &&& r is Ok <==> rejection is None
    &&& r matches Err(e) ==> rejection == Some(e) && post == pre
    &&& r matches Ok(out) ==> {
        &&& post == (Claim {
            creator_pool: CreatorPool {
                pool_balance: (pre.creator_pool.pool_balance - amounts.0) as u64,
                ..pre.creator_pool
            },
            ..pre
        })
        &&& out.transfers@ == claim_transfers(pre, operator_weight)
        &&& out.event == (RewardsClaimed {
            pool: pre.creator_pool.creator,
            operator: operator_pubkey,
            gross_payout: amounts.0,
            protocol_fee: amounts.1,
            net_payout: amounts.2,
        })
        &&& out.closed is None
        &&& amounts.1 + amounts.2 == amounts.0
    }
}

/// Pays an operator its share of the posted distribution, as its weight
/// against the total weight, after checking its Merkle proof. The protocol
/// fee is taken out of the share and goes to the treasury; the pool's
/// balance goes down by the whole share.
pub fn handler(
    accounts: &mut Claim,
    operator_pubkey: [u8; 32],
    operator_weight: u64,
    leaf_index: u32,
    merkle_proof: Vec<[u8; 32]>,
) -> (r: Result<InstructionOutput<RewardsClaimed>, SettlementError>)
    requires
        claim_in_range(*old(accounts), operator_pubkey@, operator_weight, leaf_index, merkle_proof@),
    ensures
        claim_outcome(
            *old(accounts),
            *final(accounts),
            operator_pubkey,
            operator_weight,
            leaf_index,
            merkle_proof@,
            r,
        ),
{
    if !accounts.treasury_token_account.equals(&accounts.config.treasury) {
        return Err(SettlementError::NotAuthorized);
    }
    if !accounts.creator_pool.distribution_posted {
        return Err(SettlementError::DistributionNotPosted);
    }
    if accounts.creator_pool.total_weight == 0 {
        return Err(SettlementError::NoReceipts);
    }
    // Verify Merkle proof
    if !verify_merkle_proof(
        &operator_pubkey,
        operator_weight,
        merkle_proof.as_slice(),
        leaf_index as usize,
        &accounts.creator_pool.distribution_root,
    ) {
        return Err(SettlementError::InvalidMerkleProof);
    }
    // Calculate payout
    let weight: u128 = operator_weight as u128;
    let epoch_balance: u128 = accounts.creator_pool.epoch_balance as u128;
    assert(weight * epoch_balance <= 0xffff_ffff_ffff_ffffu128 * 0xffff_ffff_ffff_ffffu128)
        by (nonlinear_arith)
        requires
            weight <= 0xffff_ffff_ffff_ffffu128,
            epoch_balance <= 0xffff_ffff_ffff_ffffu128,
    ;
    let product: u128 = weight * epoch_balance;
    let share: u128 = product / (accounts.creator_pool.total_weight as u128);
    let gross_payout: u64 = #[verifier::truncate] (share as u64);
    proof {
        lemma_fee_at_most_half(gross_payout, accounts.config.protocol_fee_bps);
    }
    let fee: u64 = protocol_fee(gross_payout, accounts.config.protocol_fee_bps);
    let net_payout: u64 = gross_payout - fee;
    if gross_payout > accounts.creator_pool.pool_balance {
        return Err(SettlementError::InsufficientPoolBalance);
    }
    let mut transfers: Vec<TokenTransfer> = Vec::new();
    // Transfer net payout to operator
    push_transfer(
        &mut transfers,
        TokenTransfer {
            from: accounts.pool_token_account,
            to: accounts.operator_token_account,
            authority: accounts.creator_pool_key,
            amount: net_payout,
        },
    );
    // Transfer fee to treasury
    push_transfer(
        &mut transfers,
        TokenTransfer {
            from: accounts.pool_token_account,
            to: accounts.treasury_token_account,
            authority: accounts.creator_pool_key,
            amount: fee,
        },
    );
    accounts.creator_pool.pool_balance = accounts.creator_pool.pool_balance - gross_payout;
    Ok(
        InstructionOutput {
            transfers,
            closed: None,
            event: RewardsClaimed {
                pool: accounts.creator_pool.creator,
                operator: operator_pubkey,
                gross_payout,
                protocol_fee: fee,
                net_payout,
            },
        },
    )
}

/// Whether `claim` can run on these accounts and this proof without its
/// arithmetic overflowing.
fn arithmetic_in_range(
    accounts: &Claim,
    operator_pubkey: &[u8; 32],
    operator_weight: u64,
    leaf_index: u32,
    merkle_proof: &[[u8; 32]],
) -> (ok: bool)
    ensures
        ok == claim_in_range(*accounts, operator_pubkey@, operator_weight, leaf_index, merkle_proof@),
{
    if accounts.config.protocol_fee_bps > MAX_PROTOCOL_FEE_BPS {
        return false;
    }
    if !accounts.treasury_token_account.equals(&accounts.config.treasury)
        || !accounts.creator_pool.distribution_posted || accounts.creator_pool.total_weight == 0 {
        return true;
    }
    if !verify_merkle_proof(
        operator_pubkey,
        operator_weight,
        merkle_proof,
        leaf_index as usize,
        &accounts.creator_pool.distribution_root,
    ) {
        return true;
    }
    let weight: u128 = operator_weight as u128;
    let epoch_balance: u128 = accounts.creator_pool.epoch_balance as u128;
    assert(weight * epoch_balance <= 0xffff_ffff_ffff_ffffu128 * 0xffff_ffff_ffff_ffffu128)
        by (nonlinear_arith)
        requires
            weight <= 0xffff_ffff_ffff_ffffu128,
            epoch_balance <= 0xffff_ffff_ffff_ffffu128,
    ;
    let share: u128 = (weight * epoch_balance) / (accounts.creator_pool.total_weight as u128);
    let gross_payout: u64 = #[verifier::truncate] (share as u64);
    let fee_bps: u128 = accounts.config.protocol_fee_bps as u128;
    assert((gross_payout as u128) * fee_bps <= 0xffff_ffff_ffff_ffffu128 * 5000u128)
        by (nonlinear_arith)
        requires
            gross_payout <= 0xffff_ffff_ffff_ffffu64,
            fee_bps <= 5000u128,
    ;
    (gross_payout as u128) * fee_bps <= u64::MAX as u128
}

/// Runs `claim` where its arithmetic stays within `u64`, and answers `None`,
/// with the accounts unchanged, where it would overflow; there the
/// instruction aborts.
pub fn handler_checked(
    accounts: &mut Claim,
    operator_pubkey: [u8; 32],
    operator_weight: u64,
    leaf_index: u32,
    merkle_proof: Vec<[u8; 32]>,
) -> (r: Option<Result<InstructionOutput<RewardsClaimed>, SettlementError>>)
    ensures
        r is None <==> !claim_in_range(
            *old(accounts),
            operator_pubkey@,
            operator_weight,
            leaf_index,
            merkle_proof@,
        ),
        r is None ==> *final(accounts) == *old(accounts),
        r matches Some(res) ==> claim_outcome(
            *old(accounts),
            *final(accounts),
            operator_pubkey,
            operator_weight,
            leaf_index,
            merkle_proof@,
            res,
        ),
{
    if !arithmetic_in_range(
        accounts,
        &operator_pubkey,
        operator_weight,
        leaf_index,
        merkle_proof.as_slice(),
    ) {
        return None;
    }
    Some(handler(accounts, operator_pubkey, operator_weight, leaf_index, merkle_proof))
}

} // verus!
