//! The administrative lock: the authority's switch that blocks releases.

use vstd::prelude::*;
use crate::campaign::{Campaign, CampaignView};
use crate::config::{authority_rejection, SystemConfig};
use crate::error::CrowdfundError;
use crate::identity::Identity;

verus! {

/// What locking works on: the signer, the campaign, and the configuration.
#[derive(Clone, Debug, PartialEq, Eq)]
pub struct LockCampaign {
    pub authority: Identity,
    pub campaign: Campaign,
    pub system_config: SystemConfig,
}

/// The campaign with its lock set to `status`.
pub open spec fn lock_campaign_to(campaign: CampaignView, status: bool) -> CampaignView {
    CampaignView { locked: status, ..campaign }
}

/// Sets or clears the lock of a campaign.
///
/// Rejected with `UnAuthorized` exactly when the signer is not the authority
/// on record; then nothing changes.
pub fn lock_campaign(ctx: &mut LockCampaign, status: bool) -> (res: Result<(), CrowdfundError>)
    ensures
        res.err() == authority_rejection(old(ctx).system_config, old(ctx).authority),
        res is Err ==> *final(ctx) == *old(ctx),
        res is Ok ==> final(ctx).campaign@ == lock_campaign_to(old(ctx).campaign@, status),
        res is Ok ==> final(ctx).authority == old(ctx).authority && final(ctx).system_config
            == old(ctx).system_config,
        res is Ok && old(ctx).campaign@.wf() ==> final(ctx).campaign@.wf(),
{
    if ctx.system_config.authorithy != ctx.authority {
        return Err(CrowdfundError::UnAuthorized);
    }
    ctx.campaign.locked = status;
    Ok(())
}

} // verus!
