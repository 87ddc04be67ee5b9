//! What successful operations hand back: a notification for observers,
//! which carries no control-flow meaning, and the transfer that the caller
//! has to carry out.

use vstd::prelude::*;
use crate::identity::Identity;

verus! {

/// A campaign was created.
#[derive(Clone, Copy, Debug, PartialEq, Eq)]
pub struct CampaignCreated {
    pub campaign: Identity,
    pub creator: Identity,
}

/// A donation entered a campaign's vault.
#[derive(Clone, Copy, Debug, PartialEq, Eq)]
pub struct DonationReceived {
    pub campaign: Identity,
    pub donor: Identity,
    pub amount: u64,
}

/// A milestone was paid out to the creator.
#[derive(Clone, Copy, Debug, PartialEq, Eq)]
pub struct MilestoneReleased {
    pub campaign: Identity,
    pub index: u8,
    pub amount: u64,
}

/// A donor got a contribution back.
#[derive(Clone, Copy, Debug, PartialEq, Eq)]
pub struct RefundIssued {
    pub campaign: Identity,
    pub donor: Identity,
    pub amount: u64,
}

/// A movement of money between two custody slots. The operations work out
/// the vault's side of it; moving the money is the caller's part.
#[derive(Clone, Copy, Debug, PartialEq, Eq)]
pub struct Transfer {
    pub from: Identity,
    pub to: Identity,
    pub lamports: u64,
}

} // verus!
