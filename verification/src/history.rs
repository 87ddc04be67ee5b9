//! A campaign's history: the state that the operations share, sequences of
//! operations on it, and what holds of every such sequence.

use vstd::prelude::*;
use crate::campaign::{
    lemma_released_total_grows, lemma_released_total_leaves_room,
    lemma_released_total_of_fresh_schedule, released_in_order, released_total, CampaignView,
};
use crate::config::{authority_rejection, SystemConfig};
use crate::donation::{donate_campaign, donate_receipt, donate_rejection, DonationReceipt};
use crate::error::CrowdfundError;
use crate::factory::{
    create_rejection, created_campaign, lemma_created_campaign_wf, CreateCampaign,
};
use crate::identity::Identity;
use crate::lock::lock_campaign_to;
use crate::refund::{campaign_failed, refund_receipt, refund_rejection, refundable};
use crate::release::{
    lemma_release_keeps_wf, release_amount, release_campaign, release_rejection,
};

verus! {

/// Everything the operations on one campaign read and write: the
/// configuration, the campaign, the balance of its vault, and the receipts
/// of its donors.
pub struct Custody {
    pub config: SystemConfig,
    pub campaign_key: Identity,
    pub campaign: CampaignView,
    pub vault: u64,
    pub receipts: Map<Identity, DonationReceipt>,
}

/// One attempted operation with its signer and arguments.
pub enum Operation {
    UpdateAuthority { signer: Identity, authority: Identity },
    UpdateDisputeSeconds { signer: Identity, dispute_seconds: i64 },
    Lock { signer: Identity, status: bool },
    Donate { donor: Identity, amount: u64, now: i64 },
    Release { signer: Identity, index: u8, now: i64 },
    Refund { donor: Identity, now: i64 },
}

impl Custody {
    /// The state right after a campaign was created: an empty vault and no receipts.
    pub open spec fn opened(
        config: SystemConfig,
        campaign_key: Identity,
        campaign: CampaignView,
    ) -> Custody {
        Custody { config, campaign_key, campaign, vault: 0, receipts: Map::empty() }
    }

    /// The receipt on record for `donor`, if there is one.
    pub open spec fn receipt_of(self, donor: Identity) -> Option<DonationReceipt> {
        if self.receipts.dom().contains(donor) {
            Some(self.receipts[donor])
        } else {
            None
        }
    }

    /// Why `op` is refused in this state, if it is.
    pub open spec fn rejection(self, op: Operation) -> Option<CrowdfundError> {
        match op {
            Operation::UpdateAuthority { signer, .. } => authority_rejection(self.config, signer),
            Operation::UpdateDisputeSeconds { signer, .. } => authority_rejection(
                self.config,
                signer,
            ),
            Operation::Lock { signer, .. } => authority_rejection(self.config, signer),
            Operation::Donate { donor, amount, now } => donate_rejection(
                self.campaign,
                self.vault,
                self.receipt_of(donor),
                amount,
                now,
            ),
            Operation::Release { signer, index, now } => release_rejection(
                signer,
                self.campaign,
                self.vault,
                self.config,
                index,
                now,
            ),
            Operation::Refund { donor, now } => refund_rejection(
                self.campaign,
                self.vault,
                self.receipt_of(donor),
                now,
            ),
        }
    }

    /// `op` goes through in this state.
    pub open spec fn accepts(self, op: Operation) -> bool {
        self.rejection(op) is None
    }

    /// The state after `op` was attempted: changed as the operation says if
    /// it went through, the same as before if it was refused.
    pub open spec fn apply(self, op: Operation) -> Custody {
        if !self.accepts(op) {
            self
        } else {
            match op {
                Operation::UpdateAuthority { authority, .. } => Custody {
                    config: SystemConfig { authorithy: authority, ..self.config },
                    ..self
                },
                Operation::UpdateDisputeSeconds { dispute_seconds, .. } => Custody {
                    config: SystemConfig { dispute_seconds, ..self.config },
                    ..self
                },
                Operation::Lock { status, .. } => Custody {
                    campaign: lock_campaign_to(self.campaign, status),
                    ..self
                },
                Operation::Donate { donor, amount, .. } => Custody {
                    campaign: donate_campaign(self.campaign, amount),
                    vault: (self.vault + amount) as u64,
                    receipts: self.receipts.insert(
                        donor,
                        donate_receipt(self.receipt_of(donor), self.campaign_key, donor, amount),
                    ),
                    ..self
                },
                Operation::Release { index, now, .. } => Custody {
                    campaign: release_campaign(self.campaign, index, now),
                    vault: (self.vault - release_amount(self.campaign, self.vault, index)) as u64,
                    ..self
                },
                Operation::Refund { donor, .. } => Custody {
                    vault: (self.vault - self.receipts[donor].lamports) as u64,
                    receipts: self.receipts.insert(donor, refund_receipt(self.receipts[donor])),
                    ..self
                },
            }
        }
    }

    /// The state after all of `ops` were attempted in order.
    pub open spec fn run(self, ops: Seq<Operation>) -> Custody
        decreases ops.len(),
    {
        if ops.len() == 0 {
            self
        } else {
            self.run(ops.drop_last()).apply(ops.last())
        }
    }

    /// What `op` moves into the vault in this state.
    pub open spec fn donated_by(self, op: Operation) -> nat {
        match op {
            Operation::Donate { amount, .. } if self.accepts(op) => amount as nat,
            _ => 0,
        }
    }

    /// What `op` moves from the vault to the creator in this state.
    pub open spec fn released_by(self, op: Operation) -> nat {
        match op {
            Operation::Release { index, .. } if self.accepts(op) => release_amount(
                self.campaign,
                self.vault,
                index,
            ) as nat,
            _ => 0,
        }
    }

    /// What `op` moves from the vault back to a donor in this state.
    pub open spec fn refunded_by(self, op: Operation) -> nat {
        match op {
            Operation::Refund { donor, .. } if self.accepts(op) => self.receipts[donor].lamports
                as nat,
            _ => 0,
        }
    }

    /// Sum of all donations that went through while `ops` ran.
    pub open spec fn donated_over(self, ops: Seq<Operation>) -> nat
        decreases ops.len(),
    {
        if ops.len() == 0 {
            0
        } else {
            self.donated_over(ops.drop_last()) + self.run(ops.drop_last()).donated_by(ops.last())
        }
    }

    /// Sum of all amounts released to the creator while `ops` ran.
    pub open spec fn released_over(self, ops: Seq<Operation>) -> nat
        decreases ops.len(),
    {
        if ops.len() == 0 {
            0
        } else {
            self.released_over(ops.drop_last()) + self.run(ops.drop_last()).released_by(
                ops.last(),
            )
        }
    }

    /// Sum of all amounts refunded to donors while `ops` ran.
    pub open spec fn refunded_over(self, ops: Seq<Operation>) -> nat
        decreases ops.len(),
    {
        if ops.len() == 0 {
            0
        } else {
            self.refunded_over(ops.drop_last()) + self.run(ops.drop_last()).refunded_by(
                ops.last(),
            )
        }
    }

    /// No release goes through while `ops` run.
    pub open spec fn no_release_over(self, ops: Seq<Operation>) -> bool
        decreases ops.len(),
    {
        if ops.len() == 0 {
            true
        } else {
            self.no_release_over(ops.drop_last()) && !(ops.last() is Release && self.run(
                ops.drop_last(),
            ).accepts(ops.last()))
        }
    }

    /// No refund goes through while `ops` run.
    pub open spec fn no_refund_over(self, ops: Seq<Operation>) -> bool
        decreases ops.len(),
    {
        if ops.len() == 0 {
            true
        } else {
            self.no_refund_over(ops.drop_last()) && !(ops.last() is Refund && self.run(
                ops.drop_last(),
            ).accepts(ops.last()))
        }
    }

    /// Sum of the donations of `donor` that went through while `ops` ran.
    pub open spec fn given_over(self, ops: Seq<Operation>, donor: Identity) -> nat
        decreases ops.len(),
    {
        if ops.len() == 0 {
            0
        } else {
            self.given_over(ops.drop_last(), donor) + match ops.last() {
                Operation::Donate { donor: d, .. } if d == donor => self.run(
                    ops.drop_last(),
                ).donated_by(ops.last()),
                _ => 0,
            }
        }
    }

    /// What the receipt of `donor` records, or 0 where there is none.
    pub open spec fn recorded_for(self, donor: Identity) -> nat {
        match self.receipt_of(donor) {
            Some(r) => r.lamports as nat,
            None => 0,
        }
    }

    /// No hand-over of the authority in `ops` names the unset identity.
    pub open spec fn hands_over_to_set_identities(ops: Seq<Operation>) -> bool {
        forall|i: int|
            0 <= i < ops.len() && (#[trigger] ops[i]) is UpdateAuthority
                ==> !ops[i]->authority.is_unset()
    }

    /// Until the final stage is released, the vault holds the donations
    /// minus the amounts of the released stages.
    pub open spec fn covers_schedule(self) -> bool {
        !self.campaign.milestones.last().released ==> self.vault + released_total(
            self.campaign.milestones,
        ) == self.campaign.total_donated
    }
}

/// One step never takes a stage back, never changes the shape of the
/// schedule, and keeps a well-formed campaign well-formed.
pub proof fn lemma_apply_keeps_schedule(state: Custody, op: Operation)
    ensures
        state.apply(op).campaign.milestones.len() == state.campaign.milestones.len(),
        forall|i: int|
            0 <= i < state.campaign.milestones.len() && (
            #[trigger] state.campaign.milestones[i]).released ==> state.apply(
                op,
            ).campaign.milestones[i].released,
        released_in_order(state.campaign.milestones) ==> released_in_order(
            state.apply(op).campaign.milestones,
        ),
        state.campaign.wf() ==> state.apply(op).campaign.wf(),
        state.apply(op).campaign.target_lamports == state.campaign.target_lamports,
        state.apply(op).campaign.total_donated >= state.campaign.total_donated,
        state.apply(op).campaign_key == state.campaign_key,
{
    if state.accepts(op) {
        match op {
            Operation::Release { signer, index, now } => {
                lemma_release_keeps_wf(
                    signer,
                    state.campaign,
                    state.vault,
                    state.config,
                    index,
                    now,
                );
            },
            _ => {},
        }
    }
}

/// Milestones are released in order: if no stage of a campaign is released
/// ahead of an earlier one, then in every state that the campaign reaches a
/// stage is released only if the stage before it is. A campaign that was just
/// created has no released stage at all.
pub proof fn theorem_milestones_release_in_order(start: Custody, ops: Seq<Operation>)
    requires
        released_in_order(start.campaign.milestones),
    ensures
        released_in_order(start.run(ops).campaign.milestones),
        forall|i: int|
            0 < i < start.run(ops).campaign.milestones.len() && (#[trigger] start.run(
                ops,
            ).campaign.milestones[i]).released ==> start.run(ops).campaign.milestones[i
                - 1].released,
    decreases ops.len(),
{
    if ops.len() > 0 {
        theorem_milestones_release_in_order(start, ops.drop_last());
        lemma_apply_keeps_schedule(start.run(ops.drop_last()), ops.last());
    }
}

/// A well-formed campaign stays well-formed, its target stays what it was,
/// and its running total of donations never goes down, whatever is attempted.
pub proof fn theorem_campaign_stays_well_formed(start: Custody, ops: Seq<Operation>)
    ensures
        start.campaign.wf() ==> start.run(ops).campaign.wf(),
        start.run(ops).campaign.target_lamports == start.campaign.target_lamports,
        start.run(ops).campaign.total_donated >= start.campaign.total_donated,
    decreases ops.len(),
{
    if ops.len() > 0 {
        theorem_campaign_stays_well_formed(start, ops.drop_last());
        lemma_apply_keeps_schedule(start.run(ops.drop_last()), ops.last());
    }
}

/// A released stage stays released, whatever is attempted afterwards.
pub proof fn lemma_released_is_final(state: Custody, ops: Seq<Operation>, index: int)
    requires
        0 <= index < state.campaign.milestones.len(),
        state.campaign.milestones[index].released,
    ensures
        index < state.run(ops).campaign.milestones.len(),
        state.run(ops).campaign.milestones[index].released,
    decreases ops.len(),
{
    if ops.len() > 0 {
        lemma_released_is_final(state, ops.drop_last(), index);
        lemma_apply_keeps_schedule(state.run(ops.drop_last()), ops.last());
    }
}

/// No stage is released twice: once a release of stage `index` has gone
/// through, every later attempt to release that stage is refused, whoever
/// makes it, whenever, and whatever happened in between.
pub proof fn theorem_release_at_most_once(
    state: Custody,
    signer: Identity,
    index: u8,
    now: i64,
    between: Seq<Operation>,
    again_signer: Identity,
    again_now: i64,
)
    requires
        state.accepts(Operation::Release { signer, index, now }),
    ensures
        !state.apply(Operation::Release { signer, index, now }).run(between).accepts(
            Operation::Release { signer: again_signer, index, now: again_now },
        ),
{
    let released = state.apply(Operation::Release { signer, index, now });
    lemma_released_is_final(released, between, index as int);
}

/// A receipt that was refunded stays on record as refunded, whatever is
/// attempted afterwards.
pub proof fn lemma_refunded_is_final(state: Custody, ops: Seq<Operation>, donor: Identity)
    requires
        state.receipt_of(donor) is Some,
        state.receipt_of(donor)->Some_0.refunded,
    ensures
        state.run(ops).receipt_of(donor) is Some,
        state.run(ops).receipt_of(donor)->Some_0.refunded,
    decreases ops.len(),
{
    if ops.len() > 0 {
        lemma_refunded_is_final(state, ops.drop_last(), donor);
    }
}

/// No contribution is refunded twice: once a donor's refund has gone
/// through, the receipt is never refundable again, so every later refund
/// for that donor is refused, whenever it is asked for and whatever happened
/// in between.
pub proof fn theorem_refund_at_most_once(
    state: Custody,
    donor: Identity,
    now: i64,
    between: Seq<Operation>,
    again_now: i64,
)
    requires
        state.accepts(Operation::Refund { donor, now }),
    ensures
        !refundable(state.apply(Operation::Refund { donor, now }).run(between).receipt_of(donor)),
        !state.apply(Operation::Refund { donor, now }).run(between).accepts(
            Operation::Refund { donor, now: again_now },
        ),
{
    let refunded = state.apply(Operation::Refund { donor, now });
    lemma_refunded_is_final(refunded, between, donor);
}

/// A refund goes through only for a failed campaign: after the deadline, with
/// the donations under the target.
pub proof fn theorem_refund_needs_failure(state: Custody, donor: Identity, now: i64)
    requires
        state.accepts(Operation::Refund { donor, now }),
    ensures
        now > state.campaign.end_ts,
        state.campaign.total_donated < state.campaign.target_lamports,
        campaign_failed(state.campaign, now),
{
}

/// Releases and refunds exclude each other: once a release has gone through,
/// the campaign has met its target for good, and no refund goes through any
/// more, for any donor at any time.
pub proof fn theorem_release_excludes_refund(
    state: Custody,
    signer: Identity,
    index: u8,
    now: i64,
    between: Seq<Operation>,
    donor: Identity,
    refund_now: i64,
)
    requires
        state.accepts(Operation::Release { signer, index, now }),
    ensures
        !state.apply(Operation::Release { signer, index, now }).run(between).accepts(
            Operation::Refund { donor, now: refund_now },
        ),
{
    let released = state.apply(Operation::Release { signer, index, now });
    theorem_campaign_stays_well_formed(released, between);
}

/// The target gates every release: while the donations are under the target
/// no stage can be released, and a release by the creator of an unlocked
/// campaign, for a stage of the schedule, is refused with `TargetNotReached`.
pub proof fn theorem_target_gates_release(
    signer: Identity,
    campaign: CampaignView,
    vault: u64,
    config: SystemConfig,
    index: u8,
    now: i64,
)
    requires
        campaign.total_donated < campaign.target_lamports,
    ensures
        release_rejection(signer, campaign, vault, config, index, now) is Some,
        signer == campaign.creator && !campaign.locked && index < campaign.milestones.len()
            ==> release_rejection(signer, campaign, vault, config, index, now) == Some(
            CrowdfundError::TargetNotReached,
        ),
{
}

/// While no release goes through, the time of the latest release stays as it is.
pub proof fn lemma_last_release_ts_kept(state: Custody, ops: Seq<Operation>)
    requires
        state.no_release_over(ops),
    ensures
        state.run(ops).campaign.last_release_ts == state.campaign.last_release_ts,
    decreases ops.len(),
{
    if ops.len() > 0 {
        lemma_last_release_ts_kept(state, ops.drop_last());
    }
}

/// Two successive releases are a dispute window apart: if a release goes
/// through at `now`, and the next release that goes through does so at
/// `next_now`, then `next_now - now` is at least the dispute window in force
/// at the second release.
///
/// The time 0 is left out for the first release: a latest release time of 0
/// reads as "nothing released yet", and the window then counts from the start.
pub proof fn theorem_releases_are_spaced(
    state: Custody,
    signer: Identity,
    index: u8,
    now: i64,
    between: Seq<Operation>,
    next_signer: Identity,
    next_index: u8,
    next_now: i64,
)
    requires
        now != 0,
        state.accepts(Operation::Release { signer, index, now }),
        state.apply(Operation::Release { signer, index, now }).no_release_over(between),
        state.apply(Operation::Release { signer, index, now }).run(between).accepts(
            Operation::Release { signer: next_signer, index: next_index, now: next_now },
        ),
    ensures
        next_now - now >= state.apply(Operation::Release { signer, index, now }).run(
            between,
        ).config.dispute_seconds,
{
    let released = state.apply(Operation::Release { signer, index, now });
    lemma_last_release_ts_kept(released, between);
}

/// The vault holds exactly what came in and has not gone out: after any
/// sequence of operations its balance is the balance at the start, plus the
/// donations that went through, minus the amounts released and refunded.
/// From `Custody::opened`, where the vault is empty, the balance is the
/// donations minus the releases minus the refunds. It is never negative.
pub proof fn theorem_vault_is_conserved(start: Custody, ops: Seq<Operation>)
    ensures
        start.run(ops).vault == start.vault + start.donated_over(ops) - start.released_over(ops)
            - start.refunded_over(ops),
        start.run(ops).vault >= 0,
        start.run(ops).campaign.total_donated == start.campaign.total_donated
            + start.donated_over(ops),
    decreases ops.len(),
{
    if ops.len() > 0 {
        theorem_vault_is_conserved(start, ops.drop_last());
    }
}

/// A receipt records what its donor has given: after any sequence of
/// operations it shows what it showed at the start plus every donation of
/// that donor that went through. A refund does not change the amount.
pub proof fn theorem_receipt_totals_contributions(
    start: Custody,
    ops: Seq<Operation>,
    donor: Identity,
)
    ensures
        start.run(ops).recorded_for(donor) == start.recorded_for(donor) + start.given_over(
            ops,
            donor,
        ),
    decreases ops.len(),
{
    if ops.len() > 0 {
        theorem_receipt_totals_contributions(start, ops.drop_last(), donor);
    }
}

/// An initialized configuration stays initialized, as long as the authority
/// is never handed over to the unset identity.
pub proof fn theorem_config_stays_initialized(start: Custody, ops: Seq<Operation>)
    requires
        start.config.is_initialized(),
        Custody::hands_over_to_set_identities(ops),
    ensures
        start.run(ops).config.is_initialized(),
    decreases ops.len(),
{
    if ops.len() > 0 {
        assert forall|i: int|
            0 <= i < ops.drop_last().len() && (#[trigger] ops.drop_last()[i]) is UpdateAuthority
                implies !ops.drop_last()[i]->authority.is_unset() by {
            assert(ops.drop_last()[i] == ops[i]);
        }
        theorem_config_stays_initialized(start, ops.drop_last());
    }
}

/// What the schedule promises is in the vault: in a campaign that never
/// refunded, whose vault started out covering its schedule (as an empty vault
/// does for a campaign without donations), the vault keeps covering it.
pub proof fn lemma_vault_covers_schedule(start: Custody, ops: Seq<Operation>)
    requires
        start.campaign.wf(),
        start.covers_schedule(),
        start.no_refund_over(ops),
    ensures
        start.run(ops).campaign.wf(),
        start.run(ops).covers_schedule(),
    decreases ops.len(),
{
    if ops.len() > 0 {
        lemma_vault_covers_schedule(start, ops.drop_last());
        let before = start.run(ops.drop_last());
        let op = ops.last();
        lemma_apply_keeps_schedule(before, op);
        if before.accepts(op) {
            match op {
                Operation::Release { index, .. } => {
                    if !before.campaign.milestones[index as int].is_last {
                        lemma_released_total_grows(before.campaign.milestones, index as int);
                    }
                },
                _ => {},
            }
        }
    }
}

/// A release never fails for lack of funds: in a campaign that never
/// refunded and whose vault started out covering its schedule, no release is
/// refused with `InsufficientFunds`.
pub proof fn theorem_releases_are_covered(
    start: Custody,
    ops: Seq<Operation>,
    signer: Identity,
    index: u8,
    now: i64,
)
    requires
        start.campaign.wf(),
        start.covers_schedule(),
        start.no_refund_over(ops),
    ensures
        start.run(ops).rejection(Operation::Release { signer, index, now }) != Some(
            CrowdfundError::InsufficientFunds,
        ),
{
    lemma_vault_covers_schedule(start, ops);
    let state = start.run(ops);
    let stages = state.campaign.milestones;
    if state.rejection(Operation::Release { signer, index, now }) == Some(
        CrowdfundError::InsufficientFunds,
    ) {
        assert(!stages.last().released) by {
            assert(stages.last() == stages[stages.len() - 1]);
        }
        lemma_released_total_leaves_room(stages, index as int);
    }
}

/// The whole life of a campaign, from its creation on: whatever is attempted
/// on a campaign that the factory has made, the campaign stays well-formed,
/// no stage is released before the one ahead of it, the vault holds the
/// donations minus what was released and refunded, and, as long as nothing
/// was refunded, no release is refused for lack of funds.
pub proof fn theorem_history_of_created_campaign(
    ctx: CreateCampaign,
    duration: i64,
    amounts: Seq<u64>,
    descriptions: Seq<Seq<char>>,
    title: Seq<char>,
    description: Seq<char>,
    image_url: Seq<char>,
    now: i64,
    ops: Seq<Operation>,
)
    requires
        create_rejection(ctx.system_config, duration, amounts, descriptions, now) is None,
    ensures
        ({
            let campaign = created_campaign(
                ctx,
                duration,
                amounts,
                descriptions,
                title,
                description,
                image_url,
                now,
            );
            let start = Custody::opened(ctx.system_config, ctx.campaign_key, campaign);
            let end = start.run(ops);
            &&& end.campaign.wf()
            &&& forall|i: int|
                0 < i < end.campaign.milestones.len() && (
                #[trigger] end.campaign.milestones[i]).released ==> end.campaign.milestones[i
                    - 1].released
            &&& end.vault == start.donated_over(ops) - start.released_over(ops)
                - start.refunded_over(ops)
            &&& end.campaign.total_donated == start.donated_over(ops)
            &&& start.no_refund_over(ops) ==> forall|signer: Identity, index: u8, at: i64|
                #[trigger] end.rejection(Operation::Release { signer, index, now: at }) != Some(
                    CrowdfundError::InsufficientFunds,
                )
        }),
{
    let campaign = created_campaign(
        ctx,
        duration,
        amounts,
        descriptions,
        title,
        description,
        image_url,
        now,
    );
    let start = Custody::opened(ctx.system_config, ctx.campaign_key, campaign);
    lemma_created_campaign_wf(
        ctx,
        duration,
        amounts,
        descriptions,
        title,
        description,
        image_url,
        now,
    );
    theorem_campaign_stays_well_formed(start, ops);
    theorem_milestones_release_in_order(start, ops);
    theorem_vault_is_conserved(start, ops);
    if start.no_refund_over(ops) {
        lemma_released_total_of_fresh_schedule(campaign.milestones);
        assert forall|signer: Identity, index: u8, at: i64| #[trigger]
            start.run(ops).rejection(Operation::Release { signer, index, now: at }) != Some(
                CrowdfundError::InsufficientFunds,
            ) by {
            theorem_releases_are_covered(start, ops, signer, index, at);
        }
    }
}

} // verus!
