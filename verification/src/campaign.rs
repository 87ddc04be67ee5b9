//! Campaigns and their milestone schedules.

use vstd::prelude::*;
use crate::identity::Identity;

verus! {

/// The largest number of milestones a campaign may have.
pub const MAX_MILESTONES: usize = 3;

/// One payout stage of a campaign.
#[derive(Clone, Debug, PartialEq, Eq)]
pub struct Milestone {
    /// What this stage pays out. Advisory for the final stage, which pays out
    /// whatever the vault holds.
    pub amount: u64,
    pub description: String,
    /// Advisory target time; never enforced.
    pub release_ts: i64,
    /// Set once, when the stage is paid out.
    pub released: bool,
    /// Marks the final stage.
    pub is_last: bool,
}

/// A milestone as a mathematical value.
pub struct MilestoneView {
    pub amount: u64,
    pub description: Seq<char>,
    pub release_ts: i64,
    pub released: bool,
    pub is_last: bool,
}

impl View for Milestone {
    type V = MilestoneView;

    open spec fn view(&self) -> MilestoneView {
        MilestoneView {
            amount: self.amount,
            description: self.description@,
            release_ts: self.release_ts,
            released: self.released,
            is_last: self.is_last,
        }
    }
}

/// One funding effort.
#[derive(Clone, Debug, PartialEq, Eq)]
pub struct Campaign {
    pub creator: Identity,
    /// The custody slot that holds the donations.
    pub vault: Identity,
    /// Sum of the milestone amounts.
    pub target_lamports: u64,
    pub start_ts: i64,
    pub end_ts: i64,
    /// Running sum of all donations; never decreases.
    pub total_donated: u64,
    /// The payout stages in order, between one and `MAX_MILESTONES` of them.
    pub milestones: Vec<Milestone>,
    /// Time of the latest release; 0 until the first one.
    pub last_release_ts: i64,
    /// Addressing detail of the vault; carried, never read.
    pub bump: u8,
    pub title: String,
    pub description: String,
    pub image_url: String,
    /// Administrative kill switch: blocks releases while set.
    pub locked: bool,
}

/// A campaign as a mathematical value.
pub struct CampaignView {
    pub creator: Identity,
    pub vault: Identity,
    pub target_lamports: u64,
    pub start_ts: i64,
    pub end_ts: i64,
    pub total_donated: u64,
    pub milestones: Seq<MilestoneView>,
    pub last_release_ts: i64,
    pub bump: u8,
    pub title: Seq<char>,
    pub description: Seq<char>,
    pub image_url: Seq<char>,
    pub locked: bool,
}

impl View for Campaign {
    type V = CampaignView;

    open spec fn view(&self) -> CampaignView {
        CampaignView {
            creator: self.creator,
            vault: self.vault,
            target_lamports: self.target_lamports,
            start_ts: self.start_ts,
            end_ts: self.end_ts,
            total_donated: self.total_donated,
            milestones: self.milestones@.map_values(|m: Milestone| m@),
            last_release_ts: self.last_release_ts,
            bump: self.bump,
            title: self.title@,
            description: self.description@,
            image_url: self.image_url@,
            locked: self.locked,
        }
    }
}

/// Sum of the amounts of a schedule.
pub open spec fn schedule_total(milestones: Seq<MilestoneView>) -> nat
    decreases milestones.len(),
{
    if milestones.len() == 0 {
        0
    } else {
        schedule_total(milestones.drop_last()) + milestones.last().amount as nat
    }
}

/// Exactly the final stage carries the `is_last` mark.
pub open spec fn last_marks_final(milestones: Seq<MilestoneView>) -> bool {
    forall|i: int|
        0 <= i < milestones.len() ==> ((#[trigger] milestones[i]).is_last <==> i
            == milestones.len() - 1)
}

/// Every stage before a released stage is released too.
pub open spec fn released_in_order(milestones: Seq<MilestoneView>) -> bool {
    forall|i: int, j: int|
        0 <= i <= j < milestones.len() && (#[trigger] milestones[j]).released ==> (
        #[trigger] milestones[i]).released
}

/// Sum of the amounts of the stages that are released.
pub open spec fn released_total(milestones: Seq<MilestoneView>) -> nat
    decreases milestones.len(),
{
    if milestones.len() == 0 {
        0
    } else {
        released_total(milestones.drop_last()) + if milestones.last().released {
            milestones.last().amount as nat
        } else {
            0
        }
    }
}

/// Position of the first stage that carries the `is_last` mark, or the
/// schedule's length if none does.
pub open spec fn first_marked(milestones: Seq<MilestoneView>) -> int
    decreases milestones.len(),
{
    if milestones.len() == 0 {
        0
    } else if milestones[0].is_last {
        0
    } else {
        1 + first_marked(milestones.skip(1))
    }
}

impl CampaignView {
    /// The invariant of every campaign that was created here and only changed
    /// by the operations of this library.
    pub open spec fn wf(self) -> bool {
        &&& 1 <= self.milestones.len() <= MAX_MILESTONES
        &&& self.target_lamports == schedule_total(self.milestones)
        &&& last_marks_final(self.milestones)
        &&& released_in_order(self.milestones)
    }

    /// The stage marked as final has been paid out: the campaign is complete.
    pub open spec fn paid_out(self) -> bool {
        let k = first_marked(self.milestones);
        k < self.milestones.len() && self.milestones[k].released
    }

    /// The time from which the dispute window of the next release counts:
    /// the latest release, or the start while nothing was released.
    pub open spec fn dispute_reference(self) -> i64 {
        if self.last_release_ts != 0 {
            self.last_release_ts
        } else {
            self.start_ts
        }
    }
}

/// `first_marked` stays within the schedule, points at a marked stage if it
/// points at one at all, and no stage before it is marked.
pub proof fn lemma_first_marked(milestones: Seq<MilestoneView>)
    ensures
        0 <= first_marked(milestones) <= milestones.len(),
        first_marked(milestones) < milestones.len() ==> milestones[first_marked(
            milestones,
        )].is_last,
        forall|i: int| 0 <= i < first_marked(milestones) ==> !(#[trigger] milestones[i]).is_last,
    decreases milestones.len(),
{
    if milestones.len() > 0 && !milestones[0].is_last {
        let rest = milestones.skip(1);
        lemma_first_marked(rest);
        assert forall|i: int| 0 <= i < first_marked(milestones) implies !(
        #[trigger] milestones[i]).is_last by {
            if i > 0 {
                assert(rest[i - 1] == milestones[i]);
            }
        }
    }
}

/// If stage `k` is marked and no stage before it is, `first_marked` is `k`; if no
/// stage is marked at all, it is the schedule's length.
pub proof fn lemma_first_marked_at(milestones: Seq<MilestoneView>, k: int)
    requires
        0 <= k <= milestones.len(),
        forall|i: int| 0 <= i < k ==> !(#[trigger] milestones[i]).is_last,
        k < milestones.len() ==> milestones[k].is_last,
    ensures
        first_marked(milestones) == k,
    decreases milestones.len(),
{
    if k > 0 {
        let rest = milestones.skip(1);
        assert(!milestones[0].is_last);
        assert forall|i: int| 0 <= i < k - 1 implies !(#[trigger] rest[i]).is_last by {
            assert(rest[i] == milestones[i + 1]);
        }
        lemma_first_marked_at(rest, k - 1);
    }
}

/// In a well-formed campaign the stage that counts as final is the one at the
/// highest index.
pub proof fn lemma_paid_out_is_final_stage(campaign: CampaignView)
    requires
        campaign.wf(),
    ensures
        first_marked(campaign.milestones) == campaign.milestones.len() - 1,
        campaign.paid_out() == campaign.milestones.last().released,
{
    lemma_first_marked(campaign.milestones);
    let k = first_marked(campaign.milestones);
    let n = campaign.milestones.len() as int;
    assert(campaign.milestones[n - 1].is_last);
}

/// Two schedules with the same amounts stage by stage have the same total.
pub proof fn lemma_schedule_total_by_amounts(a: Seq<MilestoneView>, b: Seq<MilestoneView>)
    requires
        a.len() == b.len(),
        forall|i: int| 0 <= i < a.len() ==> (#[trigger] a[i]).amount == (#[trigger] b[i]).amount,
    ensures
        schedule_total(a) == schedule_total(b),
    decreases a.len(),
{
    if a.len() > 0 {
        assert(a.last().amount == b.last().amount);
        assert forall|i: int| 0 <= i < a.drop_last().len() implies (#[trigger] a.drop_last()[
            i
        ]).amount == (#[trigger] b.drop_last()[i]).amount by {
            assert(a.drop_last()[i] == a[i]);
            assert(b.drop_last()[i] == b[i]);
        }
        lemma_schedule_total_by_amounts(a.drop_last(), b.drop_last());
    }
}

/// The released stages never add up to more than the whole schedule, and
/// they leave room for every stage that is not released yet.
pub proof fn lemma_released_total_leaves_room(milestones: Seq<MilestoneView>, i: int)
    ensures
        released_total(milestones) <= schedule_total(milestones),
        0 <= i < milestones.len() && !milestones[i].released ==> released_total(milestones)
            + milestones[i].amount <= schedule_total(milestones),
    decreases milestones.len(),
{
    if milestones.len() > 0 {
        lemma_released_total_leaves_room(milestones.drop_last(), i);
        if 0 <= i < milestones.len() - 1 {
            assert(milestones.drop_last()[i] == milestones[i]);
        }
    }
}

/// While no stage is released, the released total is zero.
pub proof fn lemma_released_total_of_fresh_schedule(milestones: Seq<MilestoneView>)
    requires
        forall|i: int| 0 <= i < milestones.len() ==> !(#[trigger] milestones[i]).released,
    ensures
        released_total(milestones) == 0,
    decreases milestones.len(),
{
    if milestones.len() > 0 {
        assert(!milestones[milestones.len() - 1].released);
        assert forall|i: int| 0 <= i < milestones.drop_last().len() implies !(
        #[trigger] milestones.drop_last()[i]).released by {
            assert(milestones.drop_last()[i] == milestones[i]);
        }
        lemma_released_total_of_fresh_schedule(milestones.drop_last());
    }
}

/// Releasing a stage adds its amount to the released total.
pub proof fn lemma_released_total_grows(milestones: Seq<MilestoneView>, i: int)
    requires
        0 <= i < milestones.len(),
        !milestones[i].released,
    ensures
        released_total(
            milestones.update(i, MilestoneView { released: true, ..milestones[i] }),
        ) == released_total(milestones) + milestones[i].amount,
    decreases milestones.len(),
{
    let after = milestones.update(i, MilestoneView { released: true, ..milestones[i] });
    if i == milestones.len() - 1 {
        assert(after.drop_last() =~= milestones.drop_last());
    } else {
        lemma_released_total_grows(milestones.drop_last(), i);
        assert(after.drop_last() =~= milestones.drop_last().update(
            i,
            MilestoneView { released: true, ..milestones.drop_last()[i] },
        ));
    }
}

impl Campaign {
    /// Number of payout stages.
    pub fn milestone_count(&self) -> (count: usize)
        ensures
            count == self@.milestones.len(),
    {
        self.milestones.len()
    }

    /// Tells whether the stage marked as final has been paid out.
    pub fn check_paid_out(&self) -> (complete: bool)
        ensures
            complete == self@.paid_out(),
    {
        let mut i: usize = 0;
        while i < self.milestones.len()
            invariant
                i <= self.milestones@.len(),
                forall|j: int| 0 <= j < i ==> !(#[trigger] self@.milestones[j]).is_last,
            decreases self.milestones@.len() - i,
        {
            if self.milestones[i].is_last {
                proof {
                    lemma_first_marked_at(self@.milestones, i as int);
                }
                return self.milestones[i].released;
            }
            i = i + 1;
        }
        proof {
            lemma_first_marked_at(self@.milestones, i as int);
        }
        false
    }
}

} // verus!
