use vstd::prelude::*;
use crate::fees::MAX_PROTOCOL_FEE_BPS;
use crate::pubkey::Pubkey;

verus! {

/// The program-wide configuration.
#[derive(Debug, Clone, Copy, PartialEq, Eq)]
pub struct Config {
    /// Admin authority
    pub admin: Pubkey,
    /// Protocol fee in basis points (e.g. 500 = 5%)
    pub protocol_fee_bps: u16,
    /// Treasury token account pubkey (for validation)
    pub treasury: Pubkey,
    /// Emergency pause flag
    pub paused: bool,
    /// PDA bump
    pub bump: u8,
}

impl Config {
    /// A configuration is valid when its protocol fee is at most 50%.
    pub open spec fn wf(&self) -> bool {
        self.protocol_fee_bps <= MAX_PROTOCOL_FEE_BPS
    }
}

} // verus!
