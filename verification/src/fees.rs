use vstd::prelude::*;

verus! {

/// Basis points in one whole.
pub const BPS_DENOMINATOR: u64 = 10_000u64;

/// The highest protocol fee a configuration may hold (50%).
pub const MAX_PROTOCOL_FEE_BPS: u16 = 5000u16;

/// The protocol fee on `amount` at `fee_bps` basis points, rounded down.
pub open spec fn protocol_fee_spec(amount: u64, fee_bps: u16) -> int {
    (amount * fee_bps) / 10_000
}

/// The protocol fee on `amount` at `fee_bps` basis points, rounded down.
pub fn protocol_fee(amount: u64, fee_bps: u16) -> (fee: u64)
    requires
        amount * fee_bps <= u64::MAX,
    ensures
        fee == protocol_fee_spec(amount, fee_bps),
{
    let product: u64 = amount * (fee_bps as u64);
    product / BPS_DENOMINATOR
}

/// A fee of at most `MAX_PROTOCOL_FEE_BPS` basis points takes at most half
/// of the amount, and never more than the amount.
pub proof fn lemma_fee_at_most_half(amount: u64, fee_bps: u16)
    requires
        fee_bps <= MAX_PROTOCOL_FEE_BPS,
    ensures
        0 <= protocol_fee_spec(amount, fee_bps),
        2 * protocol_fee_spec(amount, fee_bps) <= amount,
        protocol_fee_spec(amount, fee_bps) <= amount,
{
    let a = amount as int;
    let b = fee_bps as int;
    assert(0 <= a * b) by (nonlinear_arith)
        requires
            0 <= a,
            0 <= b,
    ;
    assert(a * b <= a * 5000) by (nonlinear_arith)
        requires
            0 <= a,
            0 <= b <= 5000,
    ;
    assert(2 * ((a * b) / 10_000) <= a) by (nonlinear_arith)
        requires
            0 <= a * b <= a * 5000,
            0 <= a,
    ;
}

} // verus!
