//! The system configuration: one administrative authority and the length of
//! the dispute window.

use vstd::prelude::*;
use crate::error::CrowdfundError;
use crate::identity::Identity;

verus! {

/// The single configuration record of a deployment.
#[derive(Clone, Copy, Debug, PartialEq, Eq)]
pub struct SystemConfig {
    /// Who may change the configuration and lock campaigns; unset until initialized.
    pub authorithy: Identity,
    /// Seconds that must pass between two releases of one campaign.
    pub dispute_seconds: i64,
}

impl SystemConfig {
    /// An authority has been set.
    pub open spec fn is_initialized(&self) -> bool {
        !self.authorithy.is_unset()
    }

    /// The record as it is before initialization.
    pub fn blank() -> (config: SystemConfig)
        ensures
            !config.is_initialized(),
            config.dispute_seconds == 0,
    {
        SystemConfig { authorithy: Identity::unset(), dispute_seconds: 0 }
    }

    /// Tells whether an authority has been set.
    pub fn check_initialized(&self) -> (initialized: bool)
        ensures
            initialized == self.is_initialized(),
    {
        !self.authorithy.check_unset()
    }
}

/// What initialization works on: the signer who becomes the authority, and
/// the configuration record.
#[derive(Clone, Copy, Debug, PartialEq, Eq)]
pub struct InitiateContract {
    pub authority: Identity,
    pub system_config: SystemConfig,
}

/// What a configuration update works on: the signer, and the configuration record.
#[derive(Clone, Copy, Debug, PartialEq, Eq)]
pub struct UpdateSystemConfig {
    pub authority: Identity,
    pub system_config: SystemConfig,
}

/// Why the configuration cannot be initialized, if it cannot: it can be only once.
pub open spec fn initiate_rejection(config: SystemConfig) -> Option<CrowdfundError> {
    if config.is_initialized() {
        Some(CrowdfundError::ConfigInitialized)
    } else {
        None
    }
}

/// Gives the configuration its first authority and dispute window.
///
/// Rejected with `ConfigInitialized` exactly when an authority is already set.
pub fn initiate_contract(ctx: &mut InitiateContract, dispute_seconds: i64) -> (res: Result<
    (),
    CrowdfundError,
>)
    ensures
        res.err() == initiate_rejection(old(ctx).system_config),
        res is Ok ==> *final(ctx) == (InitiateContract {
            authority: old(ctx).authority,
            system_config: SystemConfig { authorithy: old(ctx).authority, dispute_seconds },
        }),
        res is Err ==> *final(ctx) == *old(ctx),
{
    if ctx.system_config.check_initialized() {
        return Err(CrowdfundError::ConfigInitialized);
    }
    ctx.system_config.authorithy = ctx.authority;
    ctx.system_config.dispute_seconds = dispute_seconds;
    Ok(())
}

/// Why `signer` may not act as the authority, if it may not: only the
/// authority on record may.
pub open spec fn authority_rejection(config: SystemConfig, signer: Identity) -> Option<
    CrowdfundError,
> {
    if config.authorithy == signer {
        None
    } else {
        Some(CrowdfundError::UnAuthorized)
    }
}

/// Hands the configuration to a new authority.
///
/// Rejected with `UnAuthorized` exactly when the signer is not the authority on record.
pub fn update_authorithy(ctx: &mut UpdateSystemConfig, authority: Identity) -> (res: Result<
    (),
    CrowdfundError,
>)
    ensures
        res.err() == authority_rejection(old(ctx).system_config, old(ctx).authority),
        res is Ok ==> *final(ctx) == (UpdateSystemConfig {
            authority: old(ctx).authority,
            system_config: SystemConfig {
                authorithy: authority,
                dispute_seconds: old(ctx).system_config.dispute_seconds,
            },
        }),
        res is Err ==> *final(ctx) == *old(ctx),
{
    if ctx.system_config.authorithy != ctx.authority {
        return Err(CrowdfundError::UnAuthorized);
    }
    ctx.system_config.authorithy = authority;
    Ok(())
}

/// Changes the length of the dispute window.
///
/// Rejected with `UnAuthorized` exactly when the signer is not the authority on record.
pub fn update_dispute_seconds(ctx: &mut UpdateSystemConfig, dispute_seconds: i64) -> (res: Result<
    (),
    CrowdfundError,
>)
    ensures
        res.err() == authority_rejection(old(ctx).system_config, old(ctx).authority),
        res is Ok ==> *final(ctx) == (UpdateSystemConfig {
            authority: old(ctx).authority,
            system_config: SystemConfig {
                authorithy: old(ctx).system_config.authorithy,
                dispute_seconds,
            },
        }),
        res is Err ==> *final(ctx) == *old(ctx),
{
    if ctx.system_config.authorithy != ctx.authority {
        return Err(CrowdfundError::UnAuthorized);
    }
    ctx.system_config.dispute_seconds = dispute_seconds;
    Ok(())
}

} // verus!
