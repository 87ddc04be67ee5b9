use crowdfunding::{
    create_campaign, Campaign, CampaignCreated, CreateCampaign, CrowdfundError, Identity,
    Milestone, SystemConfig,
};

fn id(tag: u8) -> Identity {
    Identity::new([tag; 32])
}

fn ctx() -> CreateCampaign {
    CreateCampaign {
        creator: id(2),
        campaign_key: id(3),
        vault: id(4),
        vault_bump: 254,
        system_config: SystemConfig { authorithy: id(1), dispute_seconds: 50 },
    }
}

fn texts(n: usize) -> Vec<String> {
    (0..n).map(|i| format!("stage {}", i)).collect()
}

fn create(
    ctx: &CreateCampaign,
    duration: i64,
    amounts: Vec<u64>,
    descriptions: Vec<String>,
    now: i64,
) -> Result<(Campaign, CampaignCreated), CrowdfundError> {
    create_campaign(
        ctx,
        duration,
        amounts,
        descriptions,
        String::from("Well"),
        String::from("A well for the village"),
        String::from("https://example.org/well.png"),
        now,
    )
}

#[test]
fn new_campaign_has_every_field_as_asked() {
    let (campaign, event) = create(&ctx(), 1000, vec![30, 70], texts(2), 500).unwrap();
    assert_eq!(
        campaign,
        Campaign {
            creator: id(2),
            vault: id(4),
            target_lamports: 100,
            start_ts: 500,
            end_ts: 1500,
            total_donated: 0,
            milestones: vec![
                Milestone {
                    amount: 30,
                    description: String::from("stage 0"),
                    release_ts: 500,
                    released: false,
                    is_last: false,
                },
                Milestone {
                    amount: 70,
                    description: String::from("stage 1"),
                    release_ts: 1000,
                    released: false,
                    is_last: true,
                },
            ],
            last_release_ts: 0,
            bump: 254,
            title: String::from("Well"),
            description: String::from("A well for the village"),
            image_url: String::from("https://example.org/well.png"),
            locked: false,
        }
    );
    assert_eq!(event, CampaignCreated { campaign: id(3), creator: id(2) });
    assert_eq!(campaign.milestone_count(), 2);
}

#[test]
fn single_stage_is_the_final_one() {
    let (campaign, _) = create(&ctx(), 10, vec![5], texts(1), 0).unwrap();
    assert_eq!(campaign.milestones.len(), 1);
    assert!(campaign.milestones[0].is_last);
    assert_eq!(campaign.milestones[0].release_ts, 0);
    assert_eq!(campaign.target_lamports, 5);
}

#[test]
fn three_stages_are_planned_at_thirds_rounded_toward_zero() {
    let (campaign, _) = create(&ctx(), 1000, vec![1, 2, 3], texts(3), 100).unwrap();
    let planned: Vec<i64> = campaign.milestones.iter().map(|m| m.release_ts).collect();
    assert_eq!(planned, vec![100, 433, 766]);
    let marks: Vec<bool> = campaign.milestones.iter().map(|m| m.is_last).collect();
    assert_eq!(marks, vec![false, false, true]);
    assert_eq!(campaign.target_lamports, 6);
    assert_eq!(campaign.end_ts, 1100);
}

#[test]
fn negative_duration_plans_backwards_rounded_toward_zero() {
    let (campaign, _) = create(&ctx(), -1000, vec![1, 2, 3], texts(3), 100).unwrap();
    let planned: Vec<i64> = campaign.milestones.iter().map(|m| m.release_ts).collect();
    assert_eq!(planned, vec![100, -233, -566]);
    assert_eq!(campaign.end_ts, -900);
}

#[test]
fn longest_duration_is_planned_without_overflow() {
    let (campaign, _) = create(&ctx(), i64::MAX, vec![1, 2, 3], texts(3), 0).unwrap();
    let planned: Vec<i64> = campaign.milestones.iter().map(|m| m.release_ts).collect();
    assert_eq!(planned, vec![0, 3_074_457_345_618_258_602, 6_148_914_691_236_517_204]);
    assert_eq!(campaign.end_ts, i64::MAX);
}

#[test]
fn uninitialized_config_refuses_creation() {
    let mut c = ctx();
    c.system_config = SystemConfig::blank();
    assert_eq!(
        create(&c, 1000, vec![30, 70], texts(2), 0),
        Err(CrowdfundError::ConfigNotInitialized)
    );
}

#[test]
fn uninitialized_config_is_reported_before_a_bad_schedule() {
    let mut c = ctx();
    c.system_config = SystemConfig::blank();
    assert_eq!(create(&c, 1000, vec![], texts(0), 0), Err(CrowdfundError::ConfigNotInitialized));
}

#[test]
fn empty_schedule_is_refused() {
    assert_eq!(create(&ctx(), 1000, vec![], texts(0), 0), Err(CrowdfundError::BadMilestone));
}

#[test]
fn four_stages_are_refused() {
    assert_eq!(
        create(&ctx(), 1000, vec![1, 2, 3, 4], texts(4), 0),
        Err(CrowdfundError::BadMilestone)
    );
}

#[test]
fn descriptions_must_match_amounts_in_number() {
    assert_eq!(create(&ctx(), 1000, vec![1, 2], texts(1), 0), Err(CrowdfundError::BadMilestone));
    assert_eq!(create(&ctx(), 1000, vec![1, 2], texts(3), 0), Err(CrowdfundError::BadMilestone));
}

#[test]
fn target_beyond_range_is_refused() {
    assert_eq!(
        create(&ctx(), 1000, vec![u64::MAX, 1], texts(2), 0),
        Err(CrowdfundError::Overflow)
    );
    let (campaign, _) = create(&ctx(), 1000, vec![u64::MAX - 1, 1], texts(2), 0).unwrap();
    assert_eq!(campaign.target_lamports, u64::MAX);
}

#[test]
fn deadline_beyond_range_is_refused() {
    assert_eq!(create(&ctx(), i64::MAX, vec![1], texts(1), 1), Err(CrowdfundError::Overflow));
    assert_eq!(create(&ctx(), i64::MIN, vec![1], texts(1), -1), Err(CrowdfundError::Overflow));
    assert!(create(&ctx(), i64::MIN, vec![1], texts(1), 0).is_ok());
}
