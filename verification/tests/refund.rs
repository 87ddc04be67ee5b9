use crowdfunding::{
    refund, Campaign, CrowdfundError, DonationReceipt, Identity, Milestone, Refund, RefundIssued,
    Transfer,
};

fn id(tag: u8) -> Identity {
    Identity::new([tag; 32])
}

fn campaign(total_donated: u64) -> Campaign {
    Campaign {
        creator: id(2),
        vault: id(4),
        target_lamports: 100,
        start_ts: 1000,
        end_ts: 2000,
        total_donated,
        milestones: vec![Milestone {
            amount: 100,
            description: String::from("all"),
            release_ts: 1000,
            released: false,
            is_last: true,
        }],
        last_release_ts: 0,
        bump: 254,
        title: String::from("Well"),
        description: String::from("A well for the village"),
        image_url: String::from("https://example.org/well.png"),
        locked: false,
    }
}

fn receipt(lamports: u64, refunded: bool) -> Option<DonationReceipt> {
    Some(DonationReceipt { campaign: id(3), donor: id(9), lamports, refunded })
}

fn ctx(total_donated: u64, vault_lamports: u64, receipt: Option<DonationReceipt>) -> Refund {
    Refund {
        donor: id(9),
        campaign_key: id(3),
        campaign: campaign(total_donated),
        vault_lamports,
        receipt,
    }
}

fn refused(mut ctx: Refund, now: i64) -> CrowdfundError {
    let before = ctx.clone();
    let error = refund(&mut ctx, now).unwrap_err();
    assert_eq!(ctx, before);
    error
}

#[test]
fn refund_waits_for_the_deadline_to_pass() {
    assert_eq!(refused(ctx(40, 40, receipt(40, false)), 1999), CrowdfundError::NotFailed);
    assert_eq!(refused(ctx(40, 40, receipt(40, false)), 2000), CrowdfundError::NotFailed);
    let mut c = ctx(40, 40, receipt(40, false));
    assert!(refund(&mut c, 2001).is_ok());
}

#[test]
fn funded_campaign_refunds_nothing() {
    assert_eq!(refused(ctx(100, 100, receipt(40, false)), 2001), CrowdfundError::NotFailed);
    assert_eq!(refused(ctx(500, 500, receipt(40, false)), 9000), CrowdfundError::NotFailed);
    let mut c = ctx(99, 99, receipt(40, false));
    assert!(refund(&mut c, 2001).is_ok());
}

#[test]
fn campaign_state_is_reported_before_the_receipt() {
    assert_eq!(refused(ctx(100, 100, None), 2001), CrowdfundError::NotFailed);
}

#[test]
fn donor_without_receipt_gets_nothing() {
    assert_eq!(refused(ctx(40, 40, None), 2001), CrowdfundError::NothingToRefund);
}

#[test]
fn refunded_receipt_gets_nothing() {
    assert_eq!(refused(ctx(40, 40, receipt(40, true)), 2001), CrowdfundError::NothingToRefund);
}

#[test]
fn empty_receipt_gets_nothing() {
    assert_eq!(refused(ctx(40, 40, receipt(0, false)), 2001), CrowdfundError::NothingToRefund);
}

#[test]
fn refund_larger_than_the_vault_is_refused() {
    assert_eq!(refused(ctx(40, 39, receipt(40, false)), 2001), CrowdfundError::InsufficientFunds);
}

#[test]
fn refund_pays_the_receipt_and_keeps_its_amount() {
    let before = ctx(60, 60, receipt(40, false));
    let mut after = before.clone();
    assert_eq!(
        refund(&mut after, 2001),
        Ok((
            RefundIssued { campaign: id(3), donor: id(9), amount: 40 },
            Transfer { from: id(4), to: id(9), lamports: 40 }
        ))
    );
    let mut expected = before;
    expected.vault_lamports = 20;
    expected.receipt = receipt(40, true);
    assert_eq!(after, expected);
}

#[test]
fn refund_names_the_receipt_donor_and_pays_the_signer() {
    let mut c = ctx(60, 60, receipt(40, false));
    c.donor = id(77);
    assert_eq!(
        refund(&mut c, 2001),
        Ok((
            RefundIssued { campaign: id(3), donor: id(9), amount: 40 },
            Transfer { from: id(4), to: id(77), lamports: 40 }
        ))
    );
}

#[test]
fn refund_succeeds_once_per_receipt() {
    let mut c = ctx(60, 60, receipt(40, false));
    assert!(refund(&mut c, 2001).is_ok());
    for now in [2001, 2002, 5000, i64::MAX] {
        assert_eq!(refund(&mut c, now), Err(CrowdfundError::NothingToRefund));
    }
    assert_eq!(c.vault_lamports, 20);
}

#[test]
fn locked_campaign_still_refunds() {
    let mut c = ctx(40, 40, receipt(40, false));
    c.campaign.locked = true;
    assert!(refund(&mut c, 2001).is_ok());
}
