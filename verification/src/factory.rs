//! The campaign factory: checks a requested schedule and builds the campaign.

use vstd::prelude::*;
use crate::campaign::{
    schedule_total, Campaign, CampaignView, Milestone, MilestoneView, MAX_MILESTONES,
};
use crate::config::SystemConfig;
use crate::error::CrowdfundError;
use crate::events::CampaignCreated;
use crate::identity::Identity;

verus! {

/// What creation works on: the signer, the keys of the new campaign and of
/// its vault, and the configuration.
#[derive(Clone, Copy, Debug, PartialEq, Eq)]
pub struct CreateCampaign {
    pub creator: Identity,
    pub campaign_key: Identity,
    pub vault: Identity,
    pub vault_bump: u8,
    pub system_config: SystemConfig,
}

/// Sum of a list of amounts.
pub open spec fn amounts_total(amounts: Seq<u64>) -> nat
    decreases amounts.len(),
{
    if amounts.len() == 0 {
        0
    } else {
        amounts_total(amounts.drop_last()) + amounts.last() as nat
    }
}

/// The quotient of `a` by a positive `b`, rounded toward zero.
pub open spec fn quotient_toward_zero(a: int, b: int) -> int {
    if a >= 0 {
        a / b
    } else {
        -((-a) / b)
    }
}

/// The advisory release time of stage `i` of `n`: the start plus `i` n-ths
/// of the duration, the fraction rounded toward zero.
pub open spec fn planned_release_ts(now: i64, duration: i64, i: int, n: int) -> int {
    now + quotient_toward_zero(i * duration, n)
}

/// Why a campaign with this schedule cannot be created, if it cannot. The
/// rules are tried in this order and the first broken one is reported.
pub open spec fn create_rejection(
    config: SystemConfig,
    duration: i64,
    amounts: Seq<u64>,
    descriptions: Seq<Seq<char>>,
    now: i64,
) -> Option<CrowdfundError> {
    if !config.is_initialized() {
        Some(CrowdfundError::ConfigNotInitialized)
    } else if amounts.len() == 0 || amounts.len() > MAX_MILESTONES {
        Some(CrowdfundError::BadMilestone)
    } else if amounts.len() != descriptions.len() {
        Some(CrowdfundError::BadMilestone)
    } else if amounts_total(amounts) > u64::MAX || now + duration > i64::MAX || now + duration
        < i64::MIN {
        Some(CrowdfundError::Overflow)
    } else {
        None
    }
}

/// Stage `i` of a new campaign.
pub open spec fn created_milestone(
    duration: i64,
    amounts: Seq<u64>,
    descriptions: Seq<Seq<char>>,
    now: i64,
    i: int,
) -> MilestoneView {
    MilestoneView {
        amount: amounts[i],
        description: descriptions[i],
        release_ts: planned_release_ts(now, duration, i, amounts.len() as int) as i64,
        released: false,
        is_last: i == amounts.len() - 1,
    }
}

/// The campaign that creation yields.
pub open spec fn created_campaign(
    ctx: CreateCampaign,
    duration: i64,
    amounts: Seq<u64>,
    descriptions: Seq<Seq<char>>,
    title: Seq<char>,
    description: Seq<char>,
    image_url: Seq<char>,
    now: i64,
) -> CampaignView {
    CampaignView {
        creator: ctx.creator,
        vault: ctx.vault,
        target_lamports: amounts_total(amounts) as u64,
        start_ts: now,
        end_ts: (now + duration) as i64,
        total_donated: 0,
        milestones: Seq::new(
            amounts.len(),
            |i: int| created_milestone(duration, amounts, descriptions, now, i),
        ),
        last_release_ts: 0,
        bump: ctx.vault_bump,
        title,
        description,
        image_url,
        locked: false,
    }
}

/// A planned release time lies between the start and the end of the campaign.
pub proof fn lemma_planned_release_ts_bounds(now: i64, duration: i64, i: int, n: int)
    requires
        0 <= i < n,
    ensures
        duration >= 0 ==> now <= planned_release_ts(now, duration, i, n) <= now + duration,
        duration < 0 ==> now + duration <= planned_release_ts(now, duration, i, n) <= now,
{
    let d = duration as int;
    if d >= 0 {
        assert(0 <= i * d <= n * d) by (nonlinear_arith)
            requires
                0 <= i < n,
                d >= 0,
        ;
        assert(0 <= (i * d) / n <= d) by (nonlinear_arith)
            requires
                0 <= i * d <= n * d,
                n > 0,
        ;
    } else {
        assert(0 <= -(i * d) <= n * (-d)) by (nonlinear_arith)
            requires
                0 <= i < n,
                d < 0,
        ;
        assert(0 <= (-(i * d)) / n <= -d) by (nonlinear_arith)
            requires
                0 <= -(i * d) <= n * (-d),
                n > 0,
        ;
    }
}

/// The total of the stages of a new campaign is the total of the amounts asked for.
pub proof fn lemma_created_total(
    milestones: Seq<MilestoneView>,
    amounts: Seq<u64>,
)
    requires
        milestones.len() == amounts.len(),
        forall|i: int| 0 <= i < amounts.len() ==> (#[trigger] milestones[i]).amount == amounts[i],
    ensures
        schedule_total(milestones) == amounts_total(amounts),
    decreases amounts.len(),
{
    if amounts.len() > 0 {
        assert(milestones.last().amount == amounts.last());
        assert forall|i: int| 0 <= i < amounts.drop_last().len() implies (
        #[trigger] milestones.drop_last()[i]).amount == amounts.drop_last()[i] by {
            assert(milestones.drop_last()[i] == milestones[i]);
        }
        lemma_created_total(milestones.drop_last(), amounts.drop_last());
    }
}

/// A campaign that creation yields is well-formed.
pub proof fn lemma_created_campaign_wf(
    ctx: CreateCampaign,
    duration: i64,
    amounts: Seq<u64>,
    descriptions: Seq<Seq<char>>,
    title: Seq<char>,
    description: Seq<char>,
    image_url: Seq<char>,
    now: i64,
)
    requires
        create_rejection(ctx.system_config, duration, amounts, descriptions, now) is None,
    ensures
        created_campaign(
            ctx,
            duration,
            amounts,
            descriptions,
            title,
            description,
            image_url,
            now,
        ).wf(),
{
    let campaign = created_campaign(
        ctx,
        duration,
        amounts,
        descriptions,
        title,
        description,
        image_url,
        now,
    );
    lemma_created_total(campaign.milestones, amounts);
}

/// Adds up at most `MAX_MILESTONES` amounts without losing anything.
fn sum_amounts(amounts: &Vec<u64>) -> (total: u128)
    requires
        amounts@.len() <= MAX_MILESTONES,
    ensures
        total == amounts_total(amounts@),
{
    let mut total: u128 = 0;
    let mut i: usize = 0;
    while i < amounts.len()
        invariant
            i <= amounts@.len() <= MAX_MILESTONES,
            total == amounts_total(amounts@.take(i as int)),
            total <= i * u64::MAX,
        decreases amounts@.len() - i,
    {
        assert(amounts@.take(i + 1).drop_last() =~= amounts@.take(i as int));
        total = total + amounts[i] as u128;
        i = i + 1;
    }
    assert(amounts@.take(i as int) =~= amounts@);
    total
}

/// Computes the advisory release time of stage `i` of `n`.
fn plan_release_ts(now: i64, duration: i64, i: usize, n: usize) -> (ts: i64)
    requires
        i < n <= MAX_MILESTONES,
        i64::MIN <= now + duration <= i64::MAX,
    ensures
        ts == planned_release_ts(now, duration, i as int, n as int),
{
    let step: i128 = i as i128;
    let span: i128 = duration as i128;
    let parts: i128 = n as i128;
    assert(-0x2_0000_0000_0000_0000 <= step * span <= 0x2_0000_0000_0000_0000)
        by (nonlinear_arith)
        requires
            0 <= step <= 2,
            -0x8000_0000_0000_0000 <= span < 0x8000_0000_0000_0000,
    ;
    let scaled: i128 = step * span;
    let offset: i128 = if scaled >= 0 {
        scaled / parts
    } else {
        -((-scaled) / parts)
    };
    proof {
        lemma_planned_release_ts_bounds(now, duration, i as int, n as int);
    }
    (now as i128 + offset) as i64
}

/// Creates a campaign that starts at `now` and runs for `duration_seconds`.
///
/// Creation is refused exactly as `create_rejection` says. Otherwise the
/// campaign is the one `created_campaign` describes: its target is the sum of
/// the amounts, each stage has its amount, its description and its planned
/// release time, only the final stage is marked, nothing is released or
/// donated yet, and the campaign is unlocked.
pub fn create_campaign(
    ctx: &CreateCampaign,
    duration_seconds: i64,
    milestone_amounts: Vec<u64>,
    milestone_description: Vec<String>,
    title: String,
    description: String,
    image_url: String,
    now: i64,
) -> (res: Result<(Campaign, CampaignCreated), CrowdfundError>)
    ensures
        res.err() == create_rejection(
            ctx.system_config,
            duration_seconds,
            milestone_amounts@,
            milestone_description@.map_values(|s: String| s@),
            now,
        ),
        res is Ok ==> res->Ok_0.0@ == created_campaign(
            *ctx,
            duration_seconds,
            milestone_amounts@,
            milestone_description@.map_values(|s: String| s@),
            title@,
            description@,
            image_url@,
            now,
        ),
        res is Ok ==> res->Ok_0.0@.wf(),
        res is Ok ==> res->Ok_0.1 == (CampaignCreated {
            campaign: ctx.campaign_key,
            creator: ctx.creator,
        }),
{
    let ghost descriptions = milestone_description@.map_values(|s: String| s@);
    if !ctx.system_config.check_initialized() {
        return Err(CrowdfundError::ConfigNotInitialized);
    }
    let n = milestone_amounts.len();
    if n == 0 || n > MAX_MILESTONES {
        return Err(CrowdfundError::BadMilestone);
    }
    if n != milestone_description.len() {
        return Err(CrowdfundError::BadMilestone);
    }
    let total = sum_amounts(&milestone_amounts);
    let end = now as i128 + duration_seconds as i128;
    if total > u64::MAX as u128 || end > i64::MAX as i128 || end < i64::MIN as i128 {
        return Err(CrowdfundError::Overflow);
    }
    let mut milestones: Vec<Milestone> = Vec::new();
    let mut i: usize = 0;
    while i < n
        invariant
            i <= n <= MAX_MILESTONES,
            n == milestone_amounts@.len(),
            n == milestone_description@.len(),
            descriptions == milestone_description@.map_values(|s: String| s@),
            i64::MIN <= now + duration_seconds <= i64::MAX,
            milestones@.len() == i,
            forall|j: int|
                0 <= j < i ==> (#[trigger] milestones@[j])@ == created_milestone(
                    duration_seconds,
                    milestone_amounts@,
                    descriptions,
                    now,
                    j,
                ),
        decreases n - i,
    {
        let stage = Milestone {
            amount: milestone_amounts[i],
            description: milestone_description[i].clone(),
            release_ts: plan_release_ts(now, duration_seconds, i, n),
            released: false,
            is_last: i == n - 1,
        };
        milestones.push(stage);
        i = i + 1;
    }
    let campaign = Campaign {
        creator: ctx.creator,
        vault: ctx.vault,
        target_lamports: total as u64,
        start_ts: now,
        end_ts: end as i64,
        total_donated: 0,
        milestones,
        last_release_ts: 0,
        bump: ctx.vault_bump,
        title,
        description,
        image_url,
        locked: false,
    };
    proof {
        let expected = created_campaign(
            *ctx,
            duration_seconds,
            milestone_amounts@,
            descriptions,
            title@,
            description@,
            image_url@,
            now,
        );
        assert(campaign@.milestones =~= expected.milestones);
        lemma_created_campaign_wf(
            *ctx,
            duration_seconds,
            milestone_amounts@,
            descriptions,
            title@,
            description@,
            image_url@,
            now,
        );
    }
    Ok((campaign, CampaignCreated { campaign: ctx.campaign_key, creator: ctx.creator }))
}

} // verus!
