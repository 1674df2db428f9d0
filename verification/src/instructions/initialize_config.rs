use vstd::prelude::*;
use crate::errors::SettlementError;
use crate::events::ConfigInitialized;
use crate::fees::MAX_PROTOCOL_FEE_BPS;
use crate::pubkey::Pubkey;
use crate::state::Config;

verus! {

/// What `initialize_config` reads and writes.
#[derive(Debug, Clone, Copy, PartialEq, Eq)]
pub struct InitializeConfig {
    /// The signer, who becomes the admin.
    pub admin: Pubkey,
    /// The configuration account being created.
    pub config: Config,
    /// The treasury token account that protocol fees are paid into.
    pub treasury: Pubkey,
    /// The bump of the configuration's program address.
    pub config_bump: u8,
}

/// Why `initialize_config` refuses, if it does: a fee above 50%.
pub open spec fn initialize_config_rejection(protocol_fee_bps: u16) -> Option<SettlementError> {
    if protocol_fee_bps > MAX_PROTOCOL_FEE_BPS {
        Some(SettlementError::FeeTooHigh)
    } else {
        None
    }
}

/// The configuration that `initialize_config` creates: the signer is the
/// admin, the program is not paused.
pub open spec fn initial_config(pre: InitializeConfig, protocol_fee_bps: u16) -> Config {
    Config {
        admin: pre.admin,
        protocol_fee_bps,
        treasury: pre.treasury,
        paused: false,
        bump: pre.config_bump,
    }
}

/// Creates the configuration with the signer as admin and the given fee,
/// which may not exceed 50%.
pub fn handler(accounts: &mut InitializeConfig, protocol_fee_bps: u16) -> (r: Result<
    ConfigInitialized,
    SettlementError,
>)
    ensures
        r is Ok <==> initialize_config_rejection(protocol_fee_bps) is None,
        r matches Err(e) ==> initialize_config_rejection(protocol_fee_bps) == Some(e)
            && *final(accounts) == *old(accounts),
        r matches Ok(event) ==> {
            &&& *final(accounts) == (InitializeConfig {
                config: initial_config(*old(accounts), protocol_fee_bps),
                ..*old(accounts)
            })
            &&& event == (ConfigInitialized { admin: old(accounts).admin, protocol_fee_bps })
            &&& final(accounts).config.wf()
        },
        r is Ok <==> protocol_fee_bps <= 5000,
        r is Ok ==> {
            &&& final(accounts).config.admin == old(accounts).admin
            &&& final(accounts).config.protocol_fee_bps == protocol_fee_bps
            &&& final(accounts).config.treasury == old(accounts).treasury
            &&& !final(accounts).config.paused
            &&& final(accounts).config.bump == old(accounts).config_bump
        },
{
    if protocol_fee_bps > MAX_PROTOCOL_FEE_BPS {
        return Err(SettlementError::FeeTooHigh);
    }
    accounts.config = Config {
        admin: accounts.admin,
        protocol_fee_bps,
        treasury: accounts.treasury,
        paused: false,
        bump: accounts.config_bump,
    };
    Ok(ConfigInitialized { admin: accounts.admin, protocol_fee_bps })
}

} // verus!
