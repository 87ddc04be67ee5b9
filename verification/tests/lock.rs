use crowdfunding::{
    lock_campaign, release, Campaign, CrowdfundError, Identity, LockCampaign, Milestone, Release,
    SystemConfig,
};

fn id(tag: u8) -> Identity {
    Identity::new([tag; 32])
}

fn campaign() -> Campaign {
    Campaign {
        creator: id(2),
        vault: id(4),
        target_lamports: 100,
        start_ts: 1000,
        end_ts: 2000,
        total_donated: 100,
        milestones: vec![Milestone {
            amount: 100,
            description: String::from("all"),
            release_ts: 1000,
            released: false,
            is_last: true,
        }],
        last_release_ts: 0,
        bump: 254,
        title: String::from("Well"),
        description: String::from("A well for the village"),
        image_url: String::from("https://example.org/well.png"),
        locked: false,
    }
}

fn config() -> SystemConfig {
    SystemConfig { authorithy: id(1), dispute_seconds: 50 }
}

#[test]
fn authority_locks_and_unlocks() {
    let mut ctx = LockCampaign { authority: id(1), campaign: campaign(), system_config: config() };
    assert_eq!(lock_campaign(&mut ctx, true), Ok(()));
    assert!(ctx.campaign.locked);
    assert_eq!(lock_campaign(&mut ctx, true), Ok(()));
    assert!(ctx.campaign.locked);
    assert_eq!(lock_campaign(&mut ctx, false), Ok(()));
    assert!(!ctx.campaign.locked);
}

#[test]
fn lock_changes_the_flag_only() {
    let before = LockCampaign { authority: id(1), campaign: campaign(), system_config: config() };
    let mut after = before.clone();
    assert_eq!(lock_campaign(&mut after, true), Ok(()));
    let mut expected = before;
    expected.campaign.locked = true;
    assert_eq!(after, expected);
}

#[test]
fn creator_cannot_lock() {
    let before = LockCampaign { authority: id(2), campaign: campaign(), system_config: config() };
    let mut after = before.clone();
    assert_eq!(lock_campaign(&mut after, true), Err(CrowdfundError::UnAuthorized));
    assert_eq!(after, before);
}

#[test]
fn lock_blocks_release_until_lifted() {
    let mut locking =
        LockCampaign { authority: id(1), campaign: campaign(), system_config: config() };
    assert_eq!(lock_campaign(&mut locking, true), Ok(()));
    let mut paying = Release {
        creator: id(2),
        campaign_key: id(3),
        campaign: locking.campaign.clone(),
        vault_lamports: 100,
        system_config: config(),
    };
    assert_eq!(release(&mut paying, 0, 1500), Err(CrowdfundError::CampaignLocked));
    assert_eq!(lock_campaign(&mut locking, false), Ok(()));
    paying.campaign = locking.campaign;
    assert!(release(&mut paying, 0, 1500).is_ok());
}
