use vstd::prelude::*;
use crate::hash::{le_bytes, push_bytes32, push_u64_le, sha256, sha256_spec};
use crate::pubkey::Pubkey;

verus! {

/// The bytes that a voucher's message hashes: the channel address, then the
/// amount and the sequence number, each in eight little-endian bytes.
pub open spec fn voucher_preimage(channel_pda: Seq<u8>, amount: u64, seq: u64) -> Seq<u8> {
    channel_pda + le_bytes(amount as nat, 8) + le_bytes(seq as nat, 8)
}

/// Compute the signable message for a voucher: SHA256(channel_pda || amount_le || seq_le)
pub fn compute_voucher_message(channel_pda: &Pubkey, amount: u64, seq: u64) -> (message: [u8; 32])
    ensures
        message@ == sha256_spec(voucher_preimage(channel_pda@, amount, seq)),
{
    let mut preimage: Vec<u8> = Vec::new();
    push_bytes32(&mut preimage, &channel_pda.bytes);
    push_u64_le(&mut preimage, amount);
    push_u64_le(&mut preimage, seq);
    sha256(preimage.as_slice())
}

/// Whether `signature` is a valid Ed25519 signature of `message` under the
/// public key `pubkey`, as `ed25519_dalek::PublicKey::verify_strict` decides
/// it; a key that is not a point of the curve, or a signature that does not
/// parse, is no valid signature.
pub uninterp spec fn ed25519_verify_spec(pubkey: Seq<u8>, message: Seq<u8>, signature: Seq<u8>) -> bool;

/// Calls `ed25519_dalek::PublicKey::from_bytes`, `ed25519_dalek::Signature::from_bytes`
/// and `PublicKey::verify_strict`. Trusted: the answer is taken to be
/// `ed25519_verify_spec` of the three byte strings, a function of them alone;
/// a key or signature that does not parse gives `false`.
#[verifier::external_body]
fn ed25519_verify(pubkey: &[u8; 32], message: &[u8; 32], signature: &[u8; 64]) -> (valid: bool)
    ensures
        valid == ed25519_verify_spec(pubkey@, message@, signature@),
{
    let key = match ed25519_dalek::PublicKey::from_bytes(pubkey) {
        Ok(key) => key,
        Err(_) => return false,
    };
    let sig = match ed25519_dalek::Signature::from_bytes(signature) {
        Ok(sig) => sig,
        Err(_) => return false,
    };
    key.verify_strict(message, &sig).is_ok()
}

/// Whether a voucher for `amount` and `seq` on the channel at `channel_pda`
/// carries the signature of `sender`: an Ed25519 signature under the
/// sender's key of the voucher message, the SHA-256 digest of the channel
/// address, the amount and the sequence number.
pub open spec fn voucher_signature_accepted(
    sender: Seq<u8>,
    channel_pda: Seq<u8>,
    amount: u64,
    seq: u64,
    signature: Seq<u8>,
) -> bool {
    ed25519_verify_spec(sender, sha256_spec(voucher_preimage(channel_pda, amount, seq)), signature)
}

/// Verify an ed25519 signature on a voucher message.
pub fn verify_voucher(
    sender_pubkey: &[u8; 32],
    channel_pda: &Pubkey,
    amount: u64,
    seq: u64,
    signature: &[u8; 64],
) -> (accepted: bool)
    ensures
        accepted == voucher_signature_accepted(
            sender_pubkey@,
            channel_pda@,
            amount,
            seq,
            signature@,
        ),
{
    let msg = compute_voucher_message(channel_pda, amount, seq);
    match ed25519_dalek_verification(sender_pubkey, &msg, signature) {
        Ok(valid) => valid,
        Err(_) => false,
    }
}

/// Verify an ed25519 signature of `message` under `pubkey` with an
/// ed25519-dalek-compatible check.
fn ed25519_dalek_verification(pubkey: &[u8; 32], message: &[u8; 32], signature: &[u8; 64]) -> (r:
    Result<bool, ()>)
    ensures
        r == Ok::<bool, ()>(ed25519_verify_spec(pubkey@, message@, signature@)),
{
    Ok(ed25519_verify(pubkey, message, signature))
}

} // verus!
