use craftec_settlement::errors::SettlementError;
use craftec_settlement::events::{CreatorPoolCreated, PoolDeposited, RewardsClaimed};
use craftec_settlement::instructions::claim::{self, verify_merkle_proof, Claim};
use craftec_settlement::instructions::create_creator_pool::{self, CreateCreatorPool};
use craftec_settlement::instructions::deposit::{self, Deposit};
use craftec_settlement::pubkey::Pubkey;
use craftec_settlement::state::{Config, CreatorPool};
use craftec_settlement::transfer::TokenTransfer;
use sha2::{Digest, Sha256};

fn key(b: u8) -> Pubkey {
    Pubkey::new_from_array([b; 32])
}

fn hash_pair(a: &[u8; 32], b: &[u8; 32]) -> [u8; 32] {
    let mut h = Sha256::new();
    h.update(a);
    h.update(b);
    h.finalize().into()
}

fn leaf(operator: &[u8; 32], weight: u64) -> [u8; 32] {
    let mut h = Sha256::new();
    h.update(operator);
    h.update(weight.to_le_bytes());
    h.finalize().into()
}

fn pool(balance: u64) -> CreatorPool {
    CreatorPool {
        creator: key(7),
        service: 1,
        pool_balance: balance,
        created_at: 10,
        current_epoch: 0,
        epoch_balance: 0,
        total_weight: 0,
        distribution_root: [0u8; 32],
        distribution_posted: false,
        last_distribution_at: 0,
        bump: 250,
    }
}

fn config(fee: u16) -> Config {
    Config { admin: key(1), protocol_fee_bps: fee, treasury: key(9), paused: false, bump: 254 }
}

/// A pool with a posted distribution of two operators: [3; 32] with weight
/// 30 and [4; 32] with weight 70, over an epoch balance of 1000.
fn posted_claim(fee: u16) -> Claim {
    let root = hash_pair(&leaf(&[3u8; 32], 30), &leaf(&[4u8; 32], 70));
    let mut p = pool(1000);
    p.epoch_balance = 1000;
    p.total_weight = 100;
    p.distribution_root = root;
    p.distribution_posted = true;
    Claim {
        operator: key(4),
        creator_pool: p,
        creator_pool_key: key(8),
        config: config(fee),
        pool_token_account: key(20),
        operator_token_account: key(21),
        treasury_token_account: key(9),
    }
}

#[test]
fn create_creator_pool_for_data_and_bundle() {
    for service in [1u8, 4u8] {
        let mut acc = CreateCreatorPool { creator: key(7), creator_pool: pool(55), creator_pool_bump: 249 };
        acc.creator_pool.distribution_root = [5u8; 32];
        acc.creator_pool.distribution_posted = true;
        let ev = create_creator_pool::handler(&mut acc, service, 1_700_000_000).unwrap();
        assert_eq!(ev, CreatorPoolCreated { creator: key(7), service });
        let p = acc.creator_pool;
        assert_eq!(p.creator, key(7));
        assert_eq!(p.service, service);
        assert_eq!(p.pool_balance, 0);
        assert_eq!(p.created_at, 1_700_000_000);
        assert_eq!(p.distribution_root, [0u8; 32]);
        assert!(!p.distribution_posted);
        assert_eq!(p.bump, 249);
    }
}

#[test]
fn create_creator_pool_refuses_other_services() {
    for service in [0u8, 2, 3, 5, 255] {
        let mut acc = CreateCreatorPool { creator: key(7), creator_pool: pool(0), creator_pool_bump: 249 };
        let before = acc;
        assert_eq!(create_creator_pool::handler(&mut acc, service, 1), Err(SettlementError::InvalidService));
        assert_eq!(acc, before);
    }
}

#[test]
fn deposit_adds_to_pool_balance() {
    let mut acc = Deposit { depositor: key(2), creator_pool: pool(5), depositor_token_account: key(30), pool_token_account: key(20) };
    let out = deposit::handler(&mut acc, 10).unwrap();
    assert_eq!(acc.creator_pool.pool_balance, 15);
    assert_eq!(
        out.transfers,
        vec![TokenTransfer { from: key(30), to: key(20), authority: key(2), amount: 10 }]
    );
    assert_eq!(out.event, PoolDeposited { creator: key(7), depositor: key(2), amount: 10, new_balance: 15 });
}

#[test]
fn deposit_refuses_zero() {
    let mut acc = Deposit { depositor: key(2), creator_pool: pool(5), depositor_token_account: key(30), pool_token_account: key(20) };
    assert_eq!(deposit::handler(&mut acc, 0).unwrap_err(), SettlementError::InvalidAmount);
    assert_eq!(acc.creator_pool.pool_balance, 5);
}

#[test]
fn claim_pays_share_less_fee() {
    let mut acc = posted_claim(500);
    let proof = vec![leaf(&[3u8; 32], 30)];
    let out = claim::handler(&mut acc, [4u8; 32], 70, 1, proof).unwrap();
    // 70 / 100 of 1000 is 700; 5% of it is 35.
    assert_eq!(
        out.event,
        RewardsClaimed { pool: key(7), operator: [4u8; 32], gross_payout: 700, protocol_fee: 35, net_payout: 665 }
    );
    assert_eq!(
        out.transfers,
        vec![
            TokenTransfer { from: key(20), to: key(21), authority: key(8), amount: 665 },
            TokenTransfer { from: key(20), to: key(9), authority: key(8), amount: 35 },
        ]
    );
    assert_eq!(acc.creator_pool.pool_balance, 300);
}

#[test]
fn claim_of_left_leaf() {
    let mut acc = posted_claim(0);
    let proof = vec![leaf(&[4u8; 32], 70)];
    let out = claim::handler(&mut acc, [3u8; 32], 30, 0, proof).unwrap();
    assert_eq!(out.event.gross_payout, 300);
    assert_eq!(out.event.protocol_fee, 0);
    // A fee of zero is not transferred.
    assert_eq!(out.transfers, vec![TokenTransfer { from: key(20), to: key(21), authority: key(8), amount: 300 }]);
    assert_eq!(acc.creator_pool.pool_balance, 700);
}

#[test]
fn claim_rounds_share_down() {
    let mut acc = posted_claim(500);
    acc.creator_pool.epoch_balance = 999;
    let proof = vec![leaf(&[3u8; 32], 30)];
    let out = claim::handler(&mut acc, [4u8; 32], 70, 1, proof).unwrap();
    // 70 * 999 / 100 = 699.3, and 5% of 699 is 34.95.
    assert_eq!(out.event.gross_payout, 699);
    assert_eq!(out.event.protocol_fee, 34);
    assert_eq!(out.event.net_payout, 665);
    assert_eq!(acc.creator_pool.pool_balance, 301);
}

#[test]
fn claim_refuses_wrong_weight() {
    let mut acc = posted_claim(500);
    let before = acc;
    let proof = vec![leaf(&[3u8; 32], 30)];
    assert_eq!(claim::handler(&mut acc, [4u8; 32], 71, 1, proof).unwrap_err(), SettlementError::InvalidMerkleProof);
    assert_eq!(acc, before);
}

#[test]
fn claim_refuses_wrong_index() {
    let mut acc = posted_claim(500);
    let proof = vec![leaf(&[3u8; 32], 30)];
    assert_eq!(claim::handler(&mut acc, [4u8; 32], 70, 0, proof).unwrap_err(), SettlementError::InvalidMerkleProof);
}

#[test]
fn claim_refuses_without_distribution() {
    let mut acc = posted_claim(500);
    acc.creator_pool.distribution_posted = false;
    let proof = vec![leaf(&[3u8; 32], 30)];
    assert_eq!(claim::handler(&mut acc, [4u8; 32], 70, 1, proof).unwrap_err(), SettlementError::DistributionNotPosted);
}

#[test]
fn claim_refuses_without_receipts() {
    let mut acc = posted_claim(500);
    acc.creator_pool.total_weight = 0;
    let proof = vec![leaf(&[3u8; 32], 30)];
    assert_eq!(claim::handler(&mut acc, [4u8; 32], 70, 1, proof).unwrap_err(), SettlementError::NoReceipts);
}

#[test]
fn claim_refuses_other_treasury() {
    let mut acc = posted_claim(500);
    acc.treasury_token_account = key(10);
    let proof = vec![leaf(&[3u8; 32], 30)];
    assert_eq!(claim::handler(&mut acc, [4u8; 32], 70, 1, proof).unwrap_err(), SettlementError::NotAuthorized);
}

#[test]
fn claim_refuses_more_than_pool_balance() {
    let mut acc = posted_claim(500);
    acc.creator_pool.pool_balance = 699;
    let before = acc;
    let proof = vec![leaf(&[3u8; 32], 30)];
    assert_eq!(
        claim::handler(&mut acc, [4u8; 32], 70, 1, proof).unwrap_err(),
        SettlementError::InsufficientPoolBalance
    );
    assert_eq!(acc, before);
}

#[test]
fn claim_share_wraps_modulo_two_to_the_64() {
    // A single-leaf tree: the root is the leaf and the proof is empty.
    let mut acc = posted_claim(500);
    acc.creator_pool.distribution_root = leaf(&[4u8; 32], u64::MAX);
    acc.creator_pool.epoch_balance = u64::MAX;
    acc.creator_pool.total_weight = 1;
    acc.creator_pool.pool_balance = 1;
    let out = claim::handler(&mut acc, [4u8; 32], u64::MAX, 0, vec![]).unwrap();
    // (2^64 - 1)^2 is 1 modulo 2^64.
    assert_eq!(out.event.gross_payout, 1);
    assert_eq!(out.event.protocol_fee, 0);
    assert_eq!(acc.creator_pool.pool_balance, 0);
}

#[test]
fn merkle_proof_of_every_leaf_of_four() {
    let leaves: Vec<[u8; 32]> = (0u8..4).map(|i| leaf(&[i; 32], 10 + i as u64)).collect();
    let l01 = hash_pair(&leaves[0], &leaves[1]);
    let l23 = hash_pair(&leaves[2], &leaves[3]);
    let root = hash_pair(&l01, &l23);
    let proofs = [
        vec![leaves[1], l23],
        vec![leaves[0], l23],
        vec![leaves[3], l01],
        vec![leaves[2], l01],
    ];
    for i in 0..4usize {
        let op = [i as u8; 32];
        assert!(verify_merkle_proof(&op, 10 + i as u64, &proofs[i], i, &root));
        assert!(!verify_merkle_proof(&op, 10 + i as u64, &proofs[i], (i + 1) % 4, &root));
        assert!(!verify_merkle_proof(&op, 11 + i as u64, &proofs[i], i, &root));
        // Only the two low bits of the position matter to a two-node proof.
        assert!(verify_merkle_proof(&op, 10 + i as u64, &proofs[i], i + 4, &root));
        assert!(verify_merkle_proof(&op, 10 + i as u64, &proofs[i], i + 12, &root));
    }
}

#[test]
fn merkle_proof_empty_is_leaf_itself() {
    let op = [9u8; 32];
    assert!(verify_merkle_proof(&op, 5, &[], 0, &leaf(&op, 5)));
    // The leaf is a digest, not the key itself.
    assert!(!verify_merkle_proof(&op, 5, &[], 0, &op));
}

#[test]
fn claim_checked_overflow_only_after_valid_proof() {
    // A single-leaf tree paying one operator the whole of u64::MAX at 50%:
    // the fee on the gross payout does not fit in u64.
    let mut acc = posted_claim(5000);
    acc.creator_pool.distribution_root = leaf(&[4u8; 32], 1);
    acc.creator_pool.epoch_balance = u64::MAX;
    acc.creator_pool.total_weight = 1;
    acc.creator_pool.pool_balance = u64::MAX;
    let before = acc;
    assert!(claim::handler_checked(&mut acc, [4u8; 32], 1, 0, vec![]).is_none());
    assert_eq!(acc, before);
    // With an invalid proof the claim is refused before any arithmetic.
    assert_eq!(
        claim::handler_checked(&mut acc, [4u8; 32], 2, 0, vec![]),
        Some(Err(SettlementError::InvalidMerkleProof))
    );
    assert_eq!(acc, before);
}

#[test]
fn claim_checked_runs_in_range() {
    let mut acc = posted_claim(500);
    let proof = vec![leaf(&[3u8; 32], 30)];
    let out = claim::handler_checked(&mut acc, [4u8; 32], 70, 1, proof).unwrap().unwrap();
    assert_eq!(out.event.gross_payout, 700);
    assert_eq!(out.closed, None);
    assert_eq!(acc.creator_pool.pool_balance, 300);
}

#[test]
fn claims_of_a_distribution_never_overpay() {
    // Three operators of weight 1 and a fourth of weight 0 share 100.
    let weights = [1u64, 1, 1, 0];
    let leaves: Vec<[u8; 32]> = (0u8..4).map(|i| leaf(&[i; 32], weights[i as usize])).collect();
    let l01 = hash_pair(&leaves[0], &leaves[1]);
    let l23 = hash_pair(&leaves[2], &leaves[3]);
    let root = hash_pair(&l01, &l23);
    let proofs = [
        vec![leaves[1], l23],
        vec![leaves[0], l23],
        vec![leaves[3], l01],
        vec![leaves[2], l01],
    ];
    let mut acc = posted_claim(0);
    acc.creator_pool.distribution_root = root;
    acc.creator_pool.epoch_balance = 100;
    acc.creator_pool.total_weight = 3;
    acc.creator_pool.pool_balance = 100;
    let mut paid = 0u64;
    for i in 0..4usize {
        let out = claim::handler(&mut acc, [i as u8; 32], weights[i], i as u32, proofs[i].clone()).unwrap();
        paid += out.event.gross_payout;
    }
    assert_eq!(paid, 99);
    assert_eq!(acc.creator_pool.pool_balance, 1);
}
