use crowdfunding::{
    donate, donate_guard, release, Campaign, CrowdfundError, Donate, DonationReceipt,
    DonationReceived, Identity, Milestone, Release, SystemConfig, Transfer,
};

fn id(tag: u8) -> Identity {
    Identity::new([tag; 32])
}

fn open_campaign() -> Campaign {
    Campaign {
        creator: id(2),
        vault: id(4),
        target_lamports: 100,
        start_ts: 1000,
        end_ts: 2000,
        total_donated: 0,
        milestones: vec![
            Milestone {
                amount: 30,
                description: String::from("first"),
                release_ts: 1000,
                released: false,
                is_last: false,
            },
            Milestone {
                amount: 70,
                description: String::from("second"),
                release_ts: 1500,
                released: false,
                is_last: true,
            },
        ],
        last_release_ts: 0,
        bump: 254,
        title: String::from("Well"),
        description: String::from("A well for the village"),
        image_url: String::from("https://example.org/well.png"),
        locked: false,
    }
}

fn ctx(campaign: Campaign) -> Donate {
    Donate { donor: id(9), campaign_key: id(3), campaign, vault_lamports: 0, receipt: None }
}

fn refused(mut ctx: Donate, amount: u64, now: i64) -> CrowdfundError {
    let before = ctx.clone();
    let error = donate(&mut ctx, amount, now).unwrap_err();
    assert_eq!(ctx, before);
    error
}

#[test]
fn guard_closes_at_the_deadline() {
    let c = ctx(open_campaign());
    assert_eq!(donate_guard(&c, 1999), Ok(()));
    assert_eq!(donate_guard(&c, 2000), Err(CrowdfundError::NotFailed));
    assert_eq!(donate_guard(&c, 2001), Err(CrowdfundError::NotFailed));
    assert_eq!(donate_guard(&c, i64::MIN), Ok(()));
}

#[test]
fn donation_at_the_deadline_is_refused() {
    assert_eq!(refused(ctx(open_campaign()), 10, 2000), CrowdfundError::NotFailed);
    assert_eq!(refused(ctx(open_campaign()), 10, 2500), CrowdfundError::NotFailed);
}

#[test]
fn first_donation_creates_the_receipt() {
    let mut c = ctx(open_campaign());
    assert_eq!(
        donate(&mut c, 25, 1500),
        Ok((
            DonationReceived { campaign: id(3), donor: id(9), amount: 25 },
            Transfer { from: id(9), to: id(4), lamports: 25 }
        ))
    );
    assert_eq!(
        c.receipt,
        Some(DonationReceipt { campaign: id(3), donor: id(9), lamports: 25, refunded: false })
    );
    assert_eq!(c.vault_lamports, 25);
    assert_eq!(c.campaign.total_donated, 25);
}

#[test]
fn later_donations_add_up() {
    let mut c = ctx(open_campaign());
    assert!(donate(&mut c, 25, 1500).is_ok());
    assert!(donate(&mut c, 40, 1600).is_ok());
    assert!(donate(&mut c, 0, 1700).is_ok());
    assert_eq!(
        c.receipt,
        Some(DonationReceipt { campaign: id(3), donor: id(9), lamports: 65, refunded: false })
    );
    assert_eq!(c.vault_lamports, 65);
    assert_eq!(c.campaign.total_donated, 65);
}

#[test]
fn donation_keeps_what_an_existing_receipt_says() {
    let mut c = ctx(open_campaign());
    c.receipt =
        Some(DonationReceipt { campaign: id(30), donor: id(90), lamports: 5, refunded: true });
    assert!(donate(&mut c, 7, 1500).is_ok());
    assert_eq!(
        c.receipt,
        Some(DonationReceipt { campaign: id(30), donor: id(90), lamports: 12, refunded: true })
    );
}

#[test]
fn donation_changes_only_totals_and_receipt() {
    let before = ctx(open_campaign());
    let mut after = before.clone();
    assert!(donate(&mut after, 25, 1500).is_ok());
    let mut expected = before;
    expected.campaign.total_donated = 25;
    expected.vault_lamports = 25;
    expected.receipt =
        Some(DonationReceipt { campaign: id(3), donor: id(9), lamports: 25, refunded: false });
    assert_eq!(after, expected);
}

#[test]
fn donations_may_exceed_the_target() {
    let mut c = ctx(open_campaign());
    assert!(donate(&mut c, 1_000_000, 1500).is_ok());
    assert_eq!(c.campaign.total_donated, 1_000_000);
}

#[test]
fn paid_out_campaign_takes_no_donation() {
    let mut giving = ctx(open_campaign());
    assert!(donate(&mut giving, 100, 1000).is_ok());
    let mut paying = Release {
        creator: id(2),
        campaign_key: id(3),
        campaign: giving.campaign.clone(),
        vault_lamports: giving.vault_lamports,
        system_config: SystemConfig { authorithy: id(1), dispute_seconds: 50 },
    };
    assert!(release(&mut paying, 0, 1100).is_ok());
    giving.campaign = paying.campaign.clone();
    giving.vault_lamports = paying.vault_lamports;
    assert!(donate(&mut giving, 1, 1150).is_ok());

    paying.campaign = giving.campaign.clone();
    paying.vault_lamports = giving.vault_lamports;
    assert!(release(&mut paying, 1, 1200).is_ok());
    giving.campaign = paying.campaign;
    giving.vault_lamports = paying.vault_lamports;
    assert_eq!(refused(giving, 1, 1250), CrowdfundError::BadMilestone);
}

#[test]
fn deadline_is_reported_before_the_payout() {
    let mut campaign = open_campaign();
    campaign.milestones[0].released = true;
    campaign.milestones[1].released = true;
    assert_eq!(refused(ctx(campaign), 1, 2000), CrowdfundError::NotFailed);
}

#[test]
fn locked_campaign_still_takes_donations() {
    let mut campaign = open_campaign();
    campaign.locked = true;
    let mut c = ctx(campaign);
    assert!(donate(&mut c, 10, 1500).is_ok());
}

#[test]
fn running_total_beyond_range_is_refused() {
    let mut campaign = open_campaign();
    campaign.total_donated = u64::MAX - 5;
    assert_eq!(refused(ctx(campaign.clone()), 6, 1500), CrowdfundError::Overflow);
    let mut c = ctx(campaign);
    assert!(donate(&mut c, 5, 1500).is_ok());
    assert_eq!(c.campaign.total_donated, u64::MAX);
}

#[test]
fn vault_beyond_range_is_refused() {
    let mut c = ctx(open_campaign());
    c.vault_lamports = u64::MAX;
    assert_eq!(refused(c, 1, 1500), CrowdfundError::Overflow);
}

#[test]
fn receipt_beyond_range_is_refused() {
    let mut c = ctx(open_campaign());
    c.receipt = Some(DonationReceipt {
        campaign: id(3),
        donor: id(9),
        lamports: u64::MAX,
        refunded: false,
    });
    assert_eq!(refused(c, 1, 1500), CrowdfundError::Overflow);
}
