use vstd::prelude::*;

verus! {

/// Why an instruction was refused.
#[derive(Debug, Clone, Copy, PartialEq, Eq, Structural)]
pub enum SettlementError {
    /// Protocol fee exceeds maximum (50%)
    FeeTooHigh,
    /// Program is paused
    Paused,
    /// Not authorized
    NotAuthorized,
    /// Invalid service type
    InvalidService,
    /// Amount must be > 0
    InvalidAmount,
    /// Distribution already posted
    DistributionAlreadyPosted,
    /// Distribution not yet posted
    DistributionNotPosted,
    /// Insufficient pool balance
    InsufficientPoolBalance,
    /// Invalid Merkle proof
    InvalidMerkleProof,
    /// No receipts in distribution
    NoReceipts,
    /// Voucher amount exceeds locked
    VoucherExceedsLocked,
    /// Stale voucher (seq too low)
    StaleVoucher,
    /// Invalid voucher signature
    InvalidVoucherSignature,
    /// Force close timeout not elapsed
    ForceCloseTimeout,
    /// Force close already initiated
    ForceCloseAlreadyInitiated,
}

} // verus!
