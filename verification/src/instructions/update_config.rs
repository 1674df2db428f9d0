use vstd::prelude::*;
use crate::errors::SettlementError;
use crate::events::ConfigUpdated;
use crate::fees::MAX_PROTOCOL_FEE_BPS;
use crate::pubkey::Pubkey;
use crate::state::Config;

verus! {

/// What `update_config` reads and writes.
#[derive(Debug, Clone, Copy, PartialEq, Eq)]
pub struct UpdateConfig {
    /// The signer, who must be the configuration's admin.
    pub admin: Pubkey,
    /// The configuration.
    pub config: Config,
}

/// Why `update_config` refuses, if it does: a signer that is not the admin
/// is refused first, then a new fee above 50%.
pub open spec fn update_config_rejection(pre: UpdateConfig, new_fee_bps: Option<u16>) -> Option<
    SettlementError,
> {
    if pre.admin@ != pre.config.admin@ {
        Some(SettlementError::NotAuthorized)
    } else if new_fee_bps matches Some(fee) && fee > MAX_PROTOCOL_FEE_BPS {
        Some(SettlementError::FeeTooHigh)
    } else {
        None
    }
}

/// `config` with each field that is given replaced, the others kept.
pub open spec fn updated_config(
    config: Config,
    new_fee_bps: Option<u16>,
    new_admin: Option<Pubkey>,
    paused: Option<bool>,
) -> Config {
    Config {
        protocol_fee_bps: match new_fee_bps {
            Some(fee) => fee,
            None => config.protocol_fee_bps,
        },
        admin: match new_admin {
            Some(admin) => admin,
            None => config.admin,
        },
        paused: match paused {
            Some(p) => p,
            None => config.paused,
        },
        ..config
    }
}

/// The event that reports configuration `config`.
pub open spec fn config_updated_event(config: Config) -> ConfigUpdated {
    ConfigUpdated { protocol_fee_bps: config.protocol_fee_bps, admin: config.admin, paused: config.paused }
}

/// What `update_config` answers and how it leaves the accounts: the refusal
/// that `update_config_rejection` names with the accounts unchanged, or the
/// updated configuration and the event that reports it.
pub open spec fn update_config_outcome(
    pre: UpdateConfig,
    post: UpdateConfig,
    new_fee_bps: Option<u16>,
    new_admin: Option<Pubkey>,
    paused: Option<bool>,
    r: Result<ConfigUpdated, SettlementError>,
) -> bool {
    &&& r is Ok <==> update_config_rejection(pre, new_fee_bps) is None
    &&& r matches Err(e) ==> update_config_rejection(pre, new_fee_bps) == Some(e) && post == pre
    &&& r matches Ok(event) ==> {
        &&& post.config == updated_config(pre.config, new_fee_bps, new_admin, paused)
        &&& post.admin == pre.admin
        &&& event == config_updated_event(post.config)
    }
}

/// Changes the fee, the admin and the pause flag, each where a new value is
/// given. Only the admin may do so, and the fee may not exceed 50%.
pub fn handler(
    accounts: &mut UpdateConfig,
    new_fee_bps: Option<u16>,
    new_admin: Option<Pubkey>,
    paused: Option<bool>,
) -> (r: Result<ConfigUpdated, SettlementError>)
    ensures
        update_config_outcome(*old(accounts), *final(accounts), new_fee_bps, new_admin, paused, r),
        old(accounts).config.wf() ==> final(accounts).config.wf(),
{
    if !accounts.admin.equals(&accounts.config.admin) {
        return Err(SettlementError::NotAuthorized);
    }
    if let Some(fee) = new_fee_bps {
        if fee > MAX_PROTOCOL_FEE_BPS {
            return Err(SettlementError::FeeTooHigh);
        }
        accounts.config.protocol_fee_bps = fee;
    }
    if let Some(admin) = new_admin {
        accounts.config.admin = admin;
    }
    if let Some(p) = paused {
        accounts.config.paused = p;
    }
    Ok(
        ConfigUpdated {
            protocol_fee_bps: accounts.config.protocol_fee_bps,
            admin: accounts.config.admin,
            paused: accounts.config.paused,
        },
    )
}

} // verus!
