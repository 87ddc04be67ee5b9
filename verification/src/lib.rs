//! Custody rules for milestone-gated crowdfunding.
//!
//! Donors pay into the vault of a campaign. The creator may draw the money
//! stage by stage, in order, once the donations have reached the target and a
//! dispute window has passed since the previous payout. Donors of a campaign
//! that missed its target by the deadline may take their contribution back.
//!
//! Every operation is a function from the records it touches, its arguments
//! and the current time to the changed records and a notification, or to the
//! reason for which it is refused; a refused operation changes nothing.
//! Moving the money, keeping the records and reading the clock are the
//! caller's part.
//!
//! * [`identity`]: the 32-byte keys that name everyone and everything
//! * [`config`]: the authority and the dispute window
//! * [`campaign`]: campaigns, their schedules and what makes them well-formed
//! * [`factory`]: creating a campaign
//! * [`donation`], [`release`], [`refund`], [`lock`]: the operations on a campaign
//! * [`history`]: sequences of operations, and what holds of all of them

pub mod campaign;
pub mod config;
pub mod donation;
pub mod error;
pub mod events;
pub mod factory;
pub mod history;
pub mod identity;
pub mod lock;
pub mod refund;
pub mod release;

pub use campaign::{Campaign, CampaignView, Milestone, MilestoneView, MAX_MILESTONES};
pub use config::{
    initiate_contract, update_authorithy, update_dispute_seconds, InitiateContract, SystemConfig,
    UpdateSystemConfig,
};
pub use donation::{donate, donate_guard, Donate, DonationReceipt};
pub use error::CrowdfundError;
pub use events::{
    CampaignCreated, DonationReceived, MilestoneReleased, RefundIssued, Transfer,
};
pub use factory::{create_campaign, CreateCampaign};
pub use history::{Custody, Operation};
pub use identity::Identity;
pub use lock::{lock_campaign, LockCampaign};
pub use refund::{refund, Refund};
pub use release::{release, Release};
