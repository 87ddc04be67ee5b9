//! Reasons for which an operation is rejected.

use vstd::prelude::*;

verus! {

/// Why an operation was rejected. A rejected operation changes nothing.
#[derive(Clone, Copy, Debug, PartialEq, Eq, Structural)]
pub enum CrowdfundError {
    /// The configuration can no longer be changed.
    ConfigLocked,
    /// The campaign has not failed; also reported for a donation at or past the deadline.
    NotFailed,
    /// The campaign is in its dispute period.
    InDispute,
    /// The milestone schedule is malformed, or the final milestone is already paid out.
    BadMilestone,
    /// Every milestone has been paid out.
    MilestoneComplete,
    /// Donations have not reached the target.
    TargetNotReached,
    /// No unrefunded contribution is on record for the donor.
    NothingToRefund,
    /// The milestone index is outside the schedule.
    InvalidMilestone,
    /// Too little time has passed since the previous release, or since the start.
    DisputeWindowOpen,
    /// The milestone was paid out before.
    AlreadyReleased,
    /// The preceding milestone has not been paid out.
    MilestoneNotReady,
    /// The caller is not the identity that may perform the operation.
    UnAuthorized,
    /// The campaign is administratively locked.
    CampaignLocked,
    /// The system configuration has no authority yet.
    ConfigNotInitialized,
    /// The system configuration already has an authority.
    ConfigInitialized,
    /// A running total, a balance or a timestamp would leave its integer range.
    Overflow,
    /// The vault holds less than the amount to pay out.
    InsufficientFunds,
}

impl CrowdfundError {
    /// The text shown for each rejection.
    pub open spec fn message_text(self) -> Seq<char> {
        match self {
            CrowdfundError::ConfigLocked => "Campaign already active - config locked"@,
            CrowdfundError::NotFailed => "Campaign not yet ended or already successful"@,
            CrowdfundError::InDispute => "Campaign still in dispute period"@,
            CrowdfundError::BadMilestone => "Milestone already released or index out of bounds"@,
            CrowdfundError::MilestoneComplete => "All milestones have been completed"@,
            CrowdfundError::TargetNotReached => "Target not reached"@,
            CrowdfundError::NothingToRefund => "Nothing to refund"@,
            CrowdfundError::InvalidMilestone => "Invalid milestone index or already released"@,
            CrowdfundError::DisputeWindowOpen => "Dispute window is still open"@,
            CrowdfundError::AlreadyReleased => "Milestone already released"@,
            CrowdfundError::MilestoneNotReady => "Previous milestone has not been released"@,
            CrowdfundError::UnAuthorized => "Unauthorized to release funds"@,
            CrowdfundError::CampaignLocked => "The funds in the campaign have been locked"@,
            CrowdfundError::ConfigNotInitialized => "System config not initialized"@,
            CrowdfundError::ConfigInitialized => "System config already initialized"@,
            CrowdfundError::Overflow => "Arithmetic overflow"@,
            CrowdfundError::InsufficientFunds => "Vault balance too low"@,
        }
    }

    /// Returns the text shown for this rejection.
    pub fn message(&self) -> (text: &'static str)
        ensures
            text@ == self.message_text(),
    {
        match self {
            CrowdfundError::ConfigLocked => "Campaign already active - config locked",
            CrowdfundError::NotFailed => "Campaign not yet ended or already successful",
            CrowdfundError::InDispute => "Campaign still in dispute period",
            CrowdfundError::BadMilestone => "Milestone already released or index out of bounds",
            CrowdfundError::MilestoneComplete => "All milestones have been completed",
            CrowdfundError::TargetNotReached => "Target not reached",
            CrowdfundError::NothingToRefund => "Nothing to refund",
            CrowdfundError::InvalidMilestone => "Invalid milestone index or already released",
            CrowdfundError::DisputeWindowOpen => "Dispute window is still open",
            CrowdfundError::AlreadyReleased => "Milestone already released",
            CrowdfundError::MilestoneNotReady => "Previous milestone has not been released",
            CrowdfundError::UnAuthorized => "Unauthorized to release funds",
            CrowdfundError::CampaignLocked => "The funds in the campaign have been locked",
            CrowdfundError::ConfigNotInitialized => "System config not initialized",
            CrowdfundError::ConfigInitialized => "System config already initialized",
            CrowdfundError::Overflow => "Arithmetic overflow",
            CrowdfundError::InsufficientFunds => "Vault balance too low",
        }
    }
}

} // verus!
