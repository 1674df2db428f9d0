use craftec_settlement::pubkey::{bytes_equal, Pubkey};
use craftec_settlement::voucher::{compute_voucher_message, verify_voucher};
use ed25519_dalek::{Keypair, PublicKey, SecretKey, Signer};
use sha2::{Digest, Sha256};

#[test]
fn voucher_message_is_digest_of_channel_amount_and_seq() {
    let pda = Pubkey::new_from_array([7u8; 32]);
    let mut expected = Sha256::new();
    expected.update([7u8; 32]);
    expected.update(1234u64.to_le_bytes());
    expected.update(56u64.to_le_bytes());
    let expected: [u8; 32] = expected.finalize().into();
    assert_eq!(compute_voucher_message(&pda, 1234, 56), expected);
    assert_ne!(compute_voucher_message(&pda, 1234, 57), expected);
    assert_ne!(compute_voucher_message(&pda, 1234, 56), [7u8; 32]);
}

#[test]
fn voucher_message_of_zero_voucher() {
    let pda = Pubkey::new_from_array([0u8; 32]);
    let digest: [u8; 32] = Sha256::digest([0u8; 48]).into();
    assert_eq!(compute_voucher_message(&pda, 0, 0), digest);
}

fn keypair(seed: u8) -> Keypair {
    let secret = SecretKey::from_bytes(&[seed; 32]).unwrap();
    let public = PublicKey::from(&secret);
    Keypair { secret, public }
}

#[test]
fn voucher_signature_of_sender_is_accepted() {
    let pda = Pubkey::new_from_array([7u8; 32]);
    let sender = keypair(1);
    let signature = sender.sign(&compute_voucher_message(&pda, 10, 1)).to_bytes();
    assert!(verify_voucher(&sender.public.to_bytes(), &pda, 10, 1, &signature));
}

#[test]
fn voucher_signature_is_bound_to_key_channel_amount_and_seq() {
    let pda = Pubkey::new_from_array([7u8; 32]);
    let other_pda = Pubkey::new_from_array([8u8; 32]);
    let sender = keypair(1);
    let other = keypair(2);
    let signature = sender.sign(&compute_voucher_message(&pda, 10, 1)).to_bytes();
    assert!(!verify_voucher(&other.public.to_bytes(), &pda, 10, 1, &signature));
    assert!(!verify_voucher(&sender.public.to_bytes(), &other_pda, 10, 1, &signature));
    assert!(!verify_voucher(&sender.public.to_bytes(), &pda, 11, 1, &signature));
    assert!(!verify_voucher(&sender.public.to_bytes(), &pda, 10, 2, &signature));
    // A signature of the preimage rather than of its digest is refused.
    let mut preimage = [7u8; 32].to_vec();
    preimage.extend_from_slice(&10u64.to_le_bytes());
    preimage.extend_from_slice(&1u64.to_le_bytes());
    let raw = sender.sign(&preimage).to_bytes();
    assert!(!verify_voucher(&sender.public.to_bytes(), &pda, 10, 1, &raw));
}

#[test]
fn voucher_signature_garbage_is_refused() {
    let pda = Pubkey::new_from_array([7u8; 32]);
    assert!(!verify_voucher(&[1u8; 32], &pda, 10, 1, &[0u8; 64]));
    assert!(!verify_voucher(&[255u8; 32], &pda, u64::MAX, u64::MAX, &[255u8; 64]));
}

#[test]
fn keys_compare_byte_for_byte() {
    let a = Pubkey::new_from_array([1u8; 32]);
    let mut bytes = [1u8; 32];
    assert!(a.equals(&Pubkey::new_from_array(bytes)));
    bytes[31] = 2;
    assert!(!a.equals(&Pubkey::new_from_array(bytes)));
    assert!(bytes_equal(&[3u8; 32], &[3u8; 32]));
    assert_eq!(Pubkey::new_from_array([6u8; 32]).to_bytes(), [6u8; 32]);
}
