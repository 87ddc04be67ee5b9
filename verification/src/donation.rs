//! The donation ledger: takes deposits into a campaign's vault and keeps one
//! receipt per donor.

use vstd::prelude::*;
use crate::campaign::{Campaign, CampaignView};
use crate::error::CrowdfundError;
use crate::events::{DonationReceived, Transfer};
use crate::identity::Identity;

verus! {

/// What one donor has given to one campaign.
#[derive(Clone, Copy, Debug, PartialEq, Eq)]
pub struct DonationReceipt {
    pub campaign: Identity,
    pub donor: Identity,
    /// Everything the donor has given. A refund leaves it as it is.
    pub lamports: u64,
    /// Set once, when the contribution is paid back.
    pub refunded: bool,
}

impl DonationReceipt {
    /// What a storage slot holds: no receipt while its donor is unset, the
    /// receipt it spells out otherwise.
    pub open spec fn in_slot(slot: DonationReceipt) -> Option<DonationReceipt> {
        if slot.donor.is_unset() {
            None
        } else {
            Some(slot)
        }
    }

    /// A storage slot before any donation: all fields zero, the donor unset.
    pub fn vacant() -> (slot: DonationReceipt)
        ensures
            DonationReceipt::in_slot(slot) is None,
            slot.campaign.is_unset(),
            slot.lamports == 0,
            !slot.refunded,
    {
        DonationReceipt {
            campaign: Identity::unset(),
            donor: Identity::unset(),
            lamports: 0,
            refunded: false,
        }
    }

    /// Reads a storage slot.
    pub fn on_record(slot: DonationReceipt) -> (receipt: Option<DonationReceipt>)
        ensures
            receipt == DonationReceipt::in_slot(slot),
    {
        if slot.donor.check_unset() {
            None
        } else {
            Some(slot)
        }
    }
}

/// What a donation works on: the signer, the campaign with its key, the
/// balance of its vault, and the donor's receipt for this campaign if one
/// exists already.
#[derive(Clone, Debug, PartialEq, Eq)]
pub struct Donate {
    pub donor: Identity,
    pub campaign_key: Identity,
    pub campaign: Campaign,
    pub vault_lamports: u64,
    pub receipt: Option<DonationReceipt>,
}

/// Why the campaign takes no donation at time `now`, if it takes none:
/// donations close at the deadline.
pub open spec fn donate_guard_rejection(campaign: CampaignView, now: i64) -> Option<
    CrowdfundError,
> {
    if now < campaign.end_ts {
        None
    } else {
        Some(CrowdfundError::NotFailed)
    }
}

/// Adding `amount` would push the vault, the campaign's running total or the
/// donor's receipt out of range.
pub open spec fn donation_overflows(
    campaign: CampaignView,
    vault: u64,
    receipt: Option<DonationReceipt>,
    amount: u64,
) -> bool {
    ||| vault + amount > u64::MAX
    ||| campaign.total_donated + amount > u64::MAX
    ||| receipt is Some && receipt->Some_0.lamports + amount > u64::MAX
}

/// Why a donation of `amount` at time `now` is refused, if it is. The rules
/// are tried in this order and the first broken one is reported.
pub open spec fn donate_rejection(
    campaign: CampaignView,
    vault: u64,
    receipt: Option<DonationReceipt>,
    amount: u64,
    now: i64,
) -> Option<CrowdfundError> {
    if donate_guard_rejection(campaign, now) is Some {
        donate_guard_rejection(campaign, now)
    } else if campaign.paid_out() {
        Some(CrowdfundError::BadMilestone)
    } else if donation_overflows(campaign, vault, receipt, amount) {
        Some(CrowdfundError::Overflow)
    } else {
        None
    }
}

/// The campaign after a donation of `amount`.
pub open spec fn donate_campaign(campaign: CampaignView, amount: u64) -> CampaignView {
    CampaignView { total_donated: (campaign.total_donated + amount) as u64, ..campaign }
}

/// The donor's receipt after a donation of `amount`: a new one for a first
/// donation, the old one with the amount added otherwise.
pub open spec fn donate_receipt(
    receipt: Option<DonationReceipt>,
    campaign_key: Identity,
    donor: Identity,
    amount: u64,
) -> DonationReceipt {
    match receipt {
        None => DonationReceipt {
            campaign: campaign_key,
            donor,
            lamports: amount,
            refunded: false,
        },
        Some(r) => DonationReceipt { lamports: (r.lamports + amount) as u64, ..r },
    }
}

/// The payment that a donation of `amount` asks for: from the donor to the vault.
pub open spec fn donate_transfer(campaign: CampaignView, donor: Identity, amount: u64) -> Transfer {
    Transfer { from: donor, to: campaign.vault, lamports: amount }
}

/// Checks that the campaign still takes donations at time `now`.
pub fn donate_guard(ctx: &Donate, now: i64) -> (res: Result<(), CrowdfundError>)
    ensures
        res.err() == donate_guard_rejection(ctx.campaign@, now),
{
    if now < ctx.campaign.end_ts {
        Ok(())
    } else {
        Err(CrowdfundError::NotFailed)
    }
}

/// Takes a donation of `amount` at time `now`.
///
/// The donation is refused exactly as `donate_rejection` says, and then
/// nothing changes. Otherwise the vault and the campaign's running total go
/// up by `amount`, the donor's receipt is created or topped up, and the
/// transfer asks for `amount` from the donor.
pub fn donate(ctx: &mut Donate, amount: u64, now: i64) -> (res: Result<
    (DonationReceived, Transfer),
    CrowdfundError,
>)
    ensures
        res.err() == donate_rejection(
            old(ctx).campaign@,
            old(ctx).vault_lamports,
            old(ctx).receipt,
            amount,
            now,
        ),
        res is Err ==> *final(ctx) == *old(ctx),
        res is Ok ==> final(ctx).campaign@ == donate_campaign(old(ctx).campaign@, amount),
        res is Ok ==> final(ctx).vault_lamports == old(ctx).vault_lamports + amount,
        res is Ok ==> final(ctx).receipt == Some(
            donate_receipt(old(ctx).receipt, old(ctx).campaign_key, old(ctx).donor, amount),
        ),
        res is Ok ==> final(ctx).donor == old(ctx).donor && final(ctx).campaign_key == old(
            ctx,
        ).campaign_key,
        res is Ok ==> res->Ok_0.0 == (DonationReceived {
            campaign: old(ctx).campaign_key,
            donor: old(ctx).donor,
            amount,
        }),
        res is Ok ==> res->Ok_0.1 == donate_transfer(old(ctx).campaign@, old(ctx).donor, amount),
        res is Ok && old(ctx).campaign@.wf() ==> final(ctx).campaign@.wf(),
{
    match donate_guard(ctx, now) {
        Err(e) => {
            return Err(e);
        },
        Ok(_) => {},
    }
    if ctx.campaign.check_paid_out() {
        return Err(CrowdfundError::BadMilestone);
    }
    let vault = match ctx.vault_lamports.checked_add(amount) {
        Some(v) => v,
        None => {
            return Err(CrowdfundError::Overflow);
        },
    };
    let total = match ctx.campaign.total_donated.checked_add(amount) {
        Some(t) => t,
        None => {
            return Err(CrowdfundError::Overflow);
        },
    };
    let receipt = match ctx.receipt {
        None => DonationReceipt {
            campaign: ctx.campaign_key,
            donor: ctx.donor,
            lamports: amount,
            refunded: false,
        },
        Some(r) => match r.lamports.checked_add(amount) {
            Some(sum) => DonationReceipt {
                campaign: r.campaign,
                donor: r.donor,
                lamports: sum,
                refunded: r.refunded,
            },
            None => {
                return Err(CrowdfundError::Overflow);
            },
        },
    };
    ctx.vault_lamports = vault;
    ctx.campaign.total_donated = total;
    ctx.receipt = Some(receipt);
    Ok(
        (
            DonationReceived { campaign: ctx.campaign_key, donor: ctx.donor, amount },
            Transfer { from: ctx.donor, to: ctx.campaign.vault, lamports: amount },
        ),
    )
}

} // verus!
