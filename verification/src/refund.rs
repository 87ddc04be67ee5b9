//! The refund engine: gives donors their contribution back once a campaign
//! has failed.

use vstd::prelude::*;
use crate::campaign::{Campaign, CampaignView};
use crate::donation::DonationReceipt;
use crate::error::CrowdfundError;
use crate::events::{RefundIssued, Transfer};
use crate::identity::Identity;

verus! {

/// What a refund works on: the signer, the campaign with its key, the
/// balance of its vault, and the donor's receipt for this campaign if there
/// is one.
#[derive(Clone, Debug, PartialEq, Eq)]
pub struct Refund {
    pub donor: Identity,
    pub campaign_key: Identity,
    pub campaign: Campaign,
    pub vault_lamports: u64,
    pub receipt: Option<DonationReceipt>,
}

/// The campaign has failed by time `now`: its deadline has passed and the
/// donations have stayed under the target.
pub open spec fn campaign_failed(campaign: CampaignView, now: i64) -> bool {
    now > campaign.end_ts && campaign.total_donated < campaign.target_lamports
}

/// The receipt exists, was not refunded, and records a positive amount.
pub open spec fn refundable(receipt: Option<DonationReceipt>) -> bool {
    receipt is Some && !receipt->Some_0.refunded && receipt->Some_0.lamports > 0
}

/// Why a refund at time `now` is refused, if it is. The rules are tried in
/// this order and the first broken one is reported.
pub open spec fn refund_rejection(
    campaign: CampaignView,
    vault: u64,
    receipt: Option<DonationReceipt>,
    now: i64,
) -> Option<CrowdfundError> {
    if !campaign_failed(campaign, now) {
        Some(CrowdfundError::NotFailed)
    } else if !refundable(receipt) {
        Some(CrowdfundError::NothingToRefund)
    } else if receipt->Some_0.lamports > vault {
        Some(CrowdfundError::InsufficientFunds)
    } else {
        None
    }
}

/// The receipt after its refund: flagged, the amount left in place.
pub open spec fn refund_receipt(receipt: DonationReceipt) -> DonationReceipt {
    DonationReceipt { refunded: true, ..receipt }
}

/// The payout that a refund asks for: what the receipt records, from the
/// vault to the donor who signed.
pub open spec fn refund_transfer(
    campaign: CampaignView,
    signer: Identity,
    receipt: DonationReceipt,
) -> Transfer {
    Transfer { from: campaign.vault, to: signer, lamports: receipt.lamports }
}

/// Pays a donor's contribution back at time `now`.
///
/// The refund is refused exactly as `refund_rejection` says, and then nothing
/// changes. Otherwise the receipt is flagged as refunded, its amount stays on
/// record, the vault goes down by that amount, the transfer pays it to the
/// signer, and the campaign is untouched.
pub fn refund(ctx: &mut Refund, now: i64) -> (res: Result<
    (RefundIssued, Transfer),
    CrowdfundError,
>)
    ensures
        res.err() == refund_rejection(
            old(ctx).campaign@,
            old(ctx).vault_lamports,
            old(ctx).receipt,
            now,
        ),
        res is Err ==> *final(ctx) == *old(ctx),
        res is Ok ==> final(ctx).receipt == Some(refund_receipt(old(ctx).receipt->Some_0)),
        res is Ok ==> final(ctx).vault_lamports == old(ctx).vault_lamports - old(
            ctx,
        ).receipt->Some_0.lamports,
        res is Ok ==> final(ctx).campaign == old(ctx).campaign && final(ctx).donor == old(
            ctx,
        ).donor && final(ctx).campaign_key == old(ctx).campaign_key,
        res is Ok ==> res->Ok_0.0 == (RefundIssued {
            campaign: old(ctx).campaign_key,
            donor: old(ctx).receipt->Some_0.donor,
            amount: old(ctx).receipt->Some_0.lamports,
        }),
        res is Ok ==> res->Ok_0.1 == refund_transfer(
            old(ctx).campaign@,
            old(ctx).donor,
            old(ctx).receipt->Some_0,
        ),
{
    if !(now > ctx.campaign.end_ts && ctx.campaign.total_donated < ctx.campaign.target_lamports) {
        return Err(CrowdfundError::NotFailed);
    }
    let receipt = match ctx.receipt {
        Some(r) => r,
        None => {
            return Err(CrowdfundError::NothingToRefund);
        },
    };
    if receipt.refunded || receipt.lamports == 0 {
        return Err(CrowdfundError::NothingToRefund);
    }
    if receipt.lamports > ctx.vault_lamports {
        return Err(CrowdfundError::InsufficientFunds);
    }
    ctx.receipt = Some(
        DonationReceipt {
            campaign: receipt.campaign,
            donor: receipt.donor,
            lamports: receipt.lamports,
            refunded: true,
        },
    );
    ctx.vault_lamports = ctx.vault_lamports - receipt.lamports;
    Ok(
        (
            RefundIssued {
                campaign: ctx.campaign_key,
                donor: receipt.donor,
                amount: receipt.lamports,
            },
            Transfer { from: ctx.campaign.vault, to: ctx.donor, lamports: receipt.lamports },
        ),
    )
}

} // verus!
