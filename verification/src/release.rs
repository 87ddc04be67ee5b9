//! The milestone release engine: pays the creator stage by stage, once the
//! target is met and the dispute window since the previous payout has passed.

use vstd::prelude::*;
use crate::campaign::{
    lemma_schedule_total_by_amounts, released_in_order, Campaign, CampaignView, MilestoneView,
};
use crate::config::SystemConfig;
use crate::error::CrowdfundError;
use crate::events::{MilestoneReleased, Transfer};
use crate::identity::Identity;

verus! {

/// What a release works on: the signer, the campaign with its key, the
/// balance of its vault, and the configuration.
#[derive(Clone, Debug, PartialEq, Eq)]
pub struct Release {
    pub creator: Identity,
    pub campaign_key: Identity,
    pub campaign: Campaign,
    pub vault_lamports: u64,
    pub system_config: SystemConfig,
}

/// What releasing stage `index` pays out: the whole vault for the stage
/// marked as final, the stage's own amount otherwise.
pub open spec fn release_amount(campaign: CampaignView, vault: u64, index: u8) -> u64 {
    if campaign.milestones[index as int].is_last {
        vault
    } else {
        campaign.milestones[index as int].amount
    }
}

/// Why releasing stage `index` at time `now` is refused, if it is. The rules
/// are tried in this order and the first broken one is reported.
pub open spec fn release_rejection(
    caller: Identity,
    campaign: CampaignView,
    vault: u64,
    config: SystemConfig,
    index: u8,
    now: i64,
) -> Option<CrowdfundError> {
    if campaign.creator != caller {
        Some(CrowdfundError::UnAuthorized)
    } else if campaign.locked {
        Some(CrowdfundError::CampaignLocked)
    } else if index >= campaign.milestones.len() {
        Some(CrowdfundError::InvalidMilestone)
    } else if campaign.total_donated < campaign.target_lamports {
        Some(CrowdfundError::TargetNotReached)
    } else if index > 0 && !campaign.milestones[index - 1].released {
        Some(CrowdfundError::MilestoneNotReady)
    } else if campaign.milestones[index as int].released {
        Some(CrowdfundError::AlreadyReleased)
    } else if now - campaign.dispute_reference() < config.dispute_seconds {
        Some(CrowdfundError::DisputeWindowOpen)
    } else if release_amount(campaign, vault, index) > vault {
        Some(CrowdfundError::InsufficientFunds)
    } else {
        None
    }
}

/// The payout that releasing stage `index` asks for: from the vault to the
/// creator who signed.
pub open spec fn release_transfer(
    caller: Identity,
    campaign: CampaignView,
    vault: u64,
    index: u8,
) -> Transfer {
    Transfer { from: campaign.vault, to: caller, lamports: release_amount(campaign, vault, index) }
}

/// The campaign after stage `index` was released at time `now`.
pub open spec fn release_campaign(campaign: CampaignView, index: u8, now: i64) -> CampaignView {
    CampaignView {
        milestones: campaign.milestones.update(
            index as int,
            MilestoneView { released: true, ..campaign.milestones[index as int] },
        ),
        last_release_ts: now,
        ..campaign
    }
}

/// A release that is not refused keeps a well-formed campaign well-formed; in
/// particular the stages stay released in order.
pub proof fn lemma_release_keeps_wf(
    caller: Identity,
    campaign: CampaignView,
    vault: u64,
    config: SystemConfig,
    index: u8,
    now: i64,
)
    requires
        release_rejection(caller, campaign, vault, config, index, now) is None,
    ensures
        released_in_order(campaign.milestones) ==> released_in_order(
            release_campaign(campaign, index, now).milestones,
        ),
        campaign.wf() ==> release_campaign(campaign, index, now).wf(),
{
    let after = release_campaign(campaign, index, now).milestones;
    if released_in_order(campaign.milestones) {
        assert forall|i: int, j: int|
            0 <= i <= j < after.len() && (#[trigger] after[j]).released implies (
        #[trigger] after[i]).released by {
            if i != index && j == index {
                assert(campaign.milestones[index - 1].released);
            }
        }
    }
    if campaign.wf() {
        lemma_schedule_total_by_amounts(campaign.milestones, after);
    }
}

/// Pays out stage `index` of the campaign to its creator at time `now`.
///
/// The release is refused exactly as `release_rejection` says, and then
/// nothing changes. Otherwise the stage is marked released, the time of the
/// release is recorded, the vault goes down by `release_amount`, the
/// notification names that amount, and the transfer pays it to the signer.
pub fn release(ctx: &mut Release, index: u8, now: i64) -> (res: Result<
    (MilestoneReleased, Transfer),
    CrowdfundError,
>)
    ensures
        res.err() == release_rejection(
            old(ctx).creator,
            old(ctx).campaign@,
            old(ctx).vault_lamports,
            old(ctx).system_config,
            index,
            now,
        ),
        res is Err ==> *final(ctx) == *old(ctx),
        res is Ok ==> final(ctx).campaign@ == release_campaign(old(ctx).campaign@, index, now),
        res is Ok ==> final(ctx).vault_lamports == old(ctx).vault_lamports - release_amount(
            old(ctx).campaign@,
            old(ctx).vault_lamports,
            index,
        ),
        res is Ok ==> final(ctx).creator == old(ctx).creator && final(ctx).campaign_key == old(
            ctx,
        ).campaign_key && final(ctx).system_config == old(ctx).system_config,
        res is Ok ==> res->Ok_0.0 == (MilestoneReleased {
            campaign: old(ctx).campaign_key,
            index,
            amount: release_amount(old(ctx).campaign@, old(ctx).vault_lamports, index),
        }),
        res is Ok ==> res->Ok_0.1 == release_transfer(
            old(ctx).creator,
            old(ctx).campaign@,
            old(ctx).vault_lamports,
            index,
        ),
        res is Ok && old(ctx).campaign@.wf() ==> final(ctx).campaign@.wf(),
{
    if ctx.campaign.creator != ctx.creator {
        return Err(CrowdfundError::UnAuthorized);
    }
    if ctx.campaign.locked {
        return Err(CrowdfundError::CampaignLocked);
    }
    let i = index as usize;
    if i >= ctx.campaign.milestones.len() {
        return Err(CrowdfundError::InvalidMilestone);
    }
    if ctx.campaign.total_donated < ctx.campaign.target_lamports {
        return Err(CrowdfundError::TargetNotReached);
    }
    if i > 0 && !ctx.campaign.milestones[i - 1].released {
        return Err(CrowdfundError::MilestoneNotReady);
    }
    if ctx.campaign.milestones[i].released {
        return Err(CrowdfundError::AlreadyReleased);
    }
    let reference = if ctx.campaign.last_release_ts != 0 {
        ctx.campaign.last_release_ts
    } else {
        ctx.campaign.start_ts
    };
    if (now as i128) - (reference as i128) < ctx.system_config.dispute_seconds as i128 {
        return Err(CrowdfundError::DisputeWindowOpen);
    }
    let amount = if ctx.campaign.milestones[i].is_last {
        ctx.vault_lamports
    } else {
        ctx.campaign.milestones[i].amount
    };
    if amount > ctx.vault_lamports {
        return Err(CrowdfundError::InsufficientFunds);
    }
    ctx.campaign.milestones[i].released = true;
    ctx.campaign.last_release_ts = now;
    ctx.vault_lamports = ctx.vault_lamports - amount;
    proof {
        assert(ctx.campaign@.milestones =~= release_campaign(
            old(ctx).campaign@,
            index,
            now,
        ).milestones);
        lemma_release_keeps_wf(
            old(ctx).creator,
            old(ctx).campaign@,
            old(ctx).vault_lamports,
            old(ctx).system_config,
            index,
            now,
        );
    }
    Ok(
        (
            MilestoneReleased { campaign: ctx.campaign_key, index, amount },
            Transfer { from: ctx.campaign.vault, to: ctx.creator, lamports: amount },
        ),
    )
}

} // verus!
