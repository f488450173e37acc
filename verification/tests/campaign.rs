use shade::campaign::{
    calculate_campaign_discounted_amount, configure_campaign_fee_policy, create_campaign,
    get_campaign, get_campaign_affiliate, get_campaign_leaderboard, get_campaign_participant,
    pay_affiliate_commission, record_campaign_contribution, register_affiliate,
    slash_campaign_stake, stake_campaign,
};
use shade::errors::ContractError;
use shade::events::ShadeEvent;
use shade::shade::Shade;
use shade::types::{Address, CampaignAffiliate, CampaignParticipant};

const NOW: u64 = 1_000;
const ADMIN: Address = Address(1);
const OWNER: Address = Address(10);
const OTHER: Address = Address(11);

fn setup() -> Shade {
    let mut env = Shade::new();
    env.initialize(ADMIN, NOW).unwrap();
    env
}

fn setup_with_campaign(fee_waiver_bps: u32, discount_bps: u32) -> Shade {
    let mut env = setup();
    create_campaign(&mut env, OWNER, b"Seed Round".to_vec(), false, fee_waiver_bps, discount_bps, 0, NOW)
        .unwrap();
    env
}

#[test]
fn create_campaign_stores_fields_and_emits_event() {
    let mut env = setup();
    let (id, event) =
        create_campaign(&mut env, OWNER, b"Seed Round".to_vec(), true, 500, 250, 1_000, NOW).unwrap();
    assert_eq!(id, 1);
    assert_eq!(
        event,
        ShadeEvent::CampaignCreated {
            campaign_id: 1,
            owner: OWNER,
            name: b"Seed Round".to_vec(),
            charity: true,
            fee_waiver_bps: 500,
            discount_bps: 250,
            timestamp: NOW,
        }
    );
    let c = get_campaign(&env, 1).unwrap();
    assert_eq!(c.id, 1);
    assert_eq!(c.owner, OWNER);
    assert_eq!(c.name, b"Seed Round".to_vec());
    assert!(c.charity);
    assert_eq!(c.fee_waiver_bps, 500);
    assert_eq!(c.discount_bps, 250);
    assert_eq!(c.stake_required, 1_000);
    assert_eq!(c.total_raised, 0);
    assert_eq!(c.total_staked, 0);
    assert_eq!(c.total_slashed, 0);
    assert_eq!(c.total_commissions_paid, 0);
    assert!(c.active);
    assert_eq!(c.created_at, NOW);
}

#[test]
fn create_campaign_ids_count_up() {
    let mut env = setup();
    let (a, _) = create_campaign(&mut env, OWNER, b"A".to_vec(), false, 0, 0, 0, NOW).unwrap();
    let (b, _) = create_campaign(&mut env, OTHER, b"B".to_vec(), false, 0, 0, 0, NOW).unwrap();
    assert_eq!((a, b), (1, 2));
    assert_eq!(get_campaign(&env, 2).unwrap().owner, OTHER);
}

#[test]
fn create_campaign_rejects_invalid_inputs() {
    let mut env = setup();
    assert_eq!(
        create_campaign(&mut env, OWNER, b"x".to_vec(), false, 10_001, 0, 0, NOW),
        Err(ContractError::InvalidAmount)
    );
    assert_eq!(
        create_campaign(&mut env, OWNER, b"x".to_vec(), false, 0, 10_001, 0, NOW),
        Err(ContractError::InvalidAmount)
    );
    assert_eq!(
        create_campaign(&mut env, OWNER, b"x".to_vec(), false, 0, 0, -1, NOW),
        Err(ContractError::InvalidAmount)
    );
    assert_eq!(get_campaign(&env, 1), Err(ContractError::CampaignNotFound));
    assert!(create_campaign(&mut env, OWNER, b"x".to_vec(), false, 10_000, 10_000, 0, NOW).is_ok());
}

#[test]
fn get_campaign_unknown_id() {
    let env = setup_with_campaign(0, 0);
    assert_eq!(get_campaign(&env, 999), Err(ContractError::CampaignNotFound));
    assert_eq!(get_campaign(&env, 0), Err(ContractError::CampaignNotFound));
}

#[test]
fn configure_fee_policy_by_owner_admin_and_stranger() {
    let mut env = setup_with_campaign(0, 0);
    let event = configure_campaign_fee_policy(&mut env, OWNER, 1, 300, 200, NOW).unwrap();
    assert_eq!(
        event,
        ShadeEvent::CampaignFeePolicyConfigured {
            campaign_id: 1,
            caller: OWNER,
            fee_waiver_bps: 300,
            discount_bps: 200,
            timestamp: NOW,
        }
    );
    assert_eq!(get_campaign(&env, 1).unwrap().fee_waiver_bps, 300);
    assert!(configure_campaign_fee_policy(&mut env, ADMIN, 1, 100, 100, NOW).is_ok());
    assert_eq!(get_campaign(&env, 1).unwrap().discount_bps, 100);
    assert_eq!(
        configure_campaign_fee_policy(&mut env, OTHER, 1, 0, 0, NOW),
        Err(ContractError::NotAuthorized)
    );
    assert_eq!(
        configure_campaign_fee_policy(&mut env, OWNER, 1, 10_001, 0, NOW),
        Err(ContractError::InvalidAmount)
    );
    assert_eq!(
        configure_campaign_fee_policy(&mut env, OWNER, 2, 0, 0, NOW),
        Err(ContractError::CampaignNotFound)
    );
    assert_eq!(get_campaign(&env, 1).unwrap().fee_waiver_bps, 100);
}

#[test]
fn campaign_management_needs_an_admin() {
    let mut env = Shade::new();
    create_campaign(&mut env, OWNER, b"x".to_vec(), false, 0, 0, 0, NOW).unwrap();
    assert_eq!(
        configure_campaign_fee_policy(&mut env, OWNER, 1, 0, 0, NOW),
        Err(ContractError::NotInitialized)
    );
}

#[test]
fn discounted_amount_formula() {
    let env = setup_with_campaign(500, 250);
    assert_eq!(calculate_campaign_discounted_amount(&env, 1, 10_000), Ok(9_250));
    assert_eq!(calculate_campaign_discounted_amount(&env, 1, 1), Ok(1));
    assert_eq!(calculate_campaign_discounted_amount(&env, 1, 0), Ok(0));
    assert_eq!(calculate_campaign_discounted_amount(&env, 1, -5), Ok(0));
    assert_eq!(calculate_campaign_discounted_amount(&env, 7, -5), Ok(0));
    assert_eq!(calculate_campaign_discounted_amount(&env, 7, 5), Err(ContractError::CampaignNotFound));
    let env = setup_with_campaign(100, 250);
    assert_eq!(calculate_campaign_discounted_amount(&env, 1, 199), Ok(194));
    let env = setup_with_campaign(10_000, 10_000);
    assert_eq!(calculate_campaign_discounted_amount(&env, 1, 100), Ok(-100));
}

#[test]
fn contributions_accumulate_and_totals_match_participants() {
    let mut env = setup_with_campaign(0, 0);
    let event = record_campaign_contribution(&mut env, Address(20), 1, 300, NOW).unwrap();
    assert_eq!(
        event,
        ShadeEvent::CampaignContributionRecorded {
            campaign_id: 1,
            contributor: Address(20),
            amount: 300,
            total_raised: 300,
            timestamp: NOW,
        }
    );
    record_campaign_contribution(&mut env, Address(21), 1, 200, NOW).unwrap();
    record_campaign_contribution(&mut env, Address(20), 1, 50, NOW).unwrap();
    let p = get_campaign_participant(&env, 1, Address(20));
    assert_eq!(p.contributed, 350);
    assert_eq!(p.score, 350);
    let q = get_campaign_participant(&env, 1, Address(21));
    assert_eq!(get_campaign(&env, 1).unwrap().total_raised, p.contributed + q.contributed);
    assert_eq!(get_campaign(&env, 1).unwrap().total_raised, 550);
}

#[test]
fn contribution_errors() {
    let mut env = setup_with_campaign(0, 0);
    assert_eq!(record_campaign_contribution(&mut env, Address(20), 1, 0, NOW), Err(ContractError::InvalidAmount));
    assert_eq!(record_campaign_contribution(&mut env, Address(20), 1, -3, NOW), Err(ContractError::InvalidAmount));
    assert_eq!(
        record_campaign_contribution(&mut env, Address(20), 5, 10, NOW),
        Err(ContractError::CampaignNotFound)
    );
    assert_eq!(get_campaign(&env, 1).unwrap().total_raised, 0);
}

#[test]
fn unknown_participant_is_fresh() {
    let env = setup_with_campaign(0, 0);
    assert_eq!(
        get_campaign_participant(&env, 1, Address(44)),
        CampaignParticipant {
            campaign_id: 1,
            participant: Address(44),
            contributed: 0,
            staked: 0,
            slashed: 0,
            commissions_paid: 0,
            score: 0,
        }
    );
    assert_eq!(get_campaign_participant(&env, 9, Address(44)).campaign_id, 9);
}

#[test]
fn stake_and_slash_move_amounts() {
    let mut env = setup_with_campaign(0, 0);
    record_campaign_contribution(&mut env, Address(20), 1, 300, NOW).unwrap();
    let event = stake_campaign(&mut env, Address(20), 1, 50, NOW).unwrap();
    assert_eq!(
        event,
        ShadeEvent::CampaignStaked {
            campaign_id: 1,
            participant: Address(20),
            amount: 50,
            total_staked: 50,
            timestamp: NOW,
        }
    );
    assert_eq!(get_campaign_participant(&env, 1, Address(20)).score, 350);
    assert_eq!(get_campaign(&env, 1).unwrap().total_staked, 50);

    let event = slash_campaign_stake(&mut env, OWNER, 1, Address(20), 30, NOW).unwrap();
    assert_eq!(
        event,
        ShadeEvent::CampaignSlashed {
            campaign_id: 1,
            participant: Address(20),
            amount: 30,
            remaining_stake: 20,
            timestamp: NOW,
        }
    );
    let p = get_campaign_participant(&env, 1, Address(20));
    assert_eq!((p.staked, p.slashed, p.score), (20, 30, 320));
    assert_eq!(p.staked + p.slashed, 50);
    let c = get_campaign(&env, 1).unwrap();
    assert_eq!((c.total_staked, c.total_slashed), (20, 30));
    assert_eq!(p.score, p.contributed + p.staked);
}

#[test]
fn slash_errors() {
    let mut env = setup_with_campaign(0, 0);
    stake_campaign(&mut env, Address(20), 1, 50, NOW).unwrap();
    assert_eq!(stake_campaign(&mut env, Address(20), 1, 0, NOW), Err(ContractError::InvalidAmount));
    assert_eq!(stake_campaign(&mut env, Address(20), 2, 5, NOW), Err(ContractError::CampaignNotFound));
    assert_eq!(slash_campaign_stake(&mut env, OWNER, 1, Address(20), 0, NOW), Err(ContractError::InvalidAmount));
    assert_eq!(slash_campaign_stake(&mut env, OWNER, 3, Address(20), 5, NOW), Err(ContractError::CampaignNotFound));
    assert_eq!(slash_campaign_stake(&mut env, OTHER, 1, Address(20), 5, NOW), Err(ContractError::NotAuthorized));
    assert_eq!(slash_campaign_stake(&mut env, OWNER, 1, Address(20), 51, NOW), Err(ContractError::InvalidAmount));
    assert_eq!(slash_campaign_stake(&mut env, OWNER, 1, Address(99), 1, NOW), Err(ContractError::InvalidAmount));
    assert!(slash_campaign_stake(&mut env, ADMIN, 1, Address(20), 50, NOW).is_ok());
    assert_eq!(get_campaign_participant(&env, 1, Address(20)).staked, 0);
}

#[test]
fn affiliates_register_and_get_paid() {
    let mut env = setup_with_campaign(0, 0);
    let event = register_affiliate(&mut env, OWNER, 1, Address(30), 500, NOW).unwrap();
    assert_eq!(
        event,
        ShadeEvent::AffiliateRegistered { campaign_id: 1, affiliate: Address(30), commission_bps: 500, timestamp: NOW }
    );
    assert_eq!(
        get_campaign_affiliate(&env, 1, Address(30)),
        Ok(CampaignAffiliate { campaign_id: 1, affiliate: Address(30), commission_bps: 500, total_paid: 0, active: true })
    );
    let event = pay_affiliate_commission(&mut env, OWNER, 1, Address(30), 100, NOW).unwrap();
    assert_eq!(
        event,
        ShadeEvent::AffiliateCommissionPaid {
            campaign_id: 1,
            affiliate: Address(30),
            amount: 100,
            total_paid: 100,
            timestamp: NOW,
        }
    );
    pay_affiliate_commission(&mut env, ADMIN, 1, Address(30), 25, NOW).unwrap();
    assert_eq!(get_campaign_affiliate(&env, 1, Address(30)).unwrap().total_paid, 125);
    assert_eq!(get_campaign(&env, 1).unwrap().total_commissions_paid, 125);

    register_affiliate(&mut env, OWNER, 1, Address(30), 700, NOW).unwrap();
    let a = get_campaign_affiliate(&env, 1, Address(30)).unwrap();
    assert_eq!((a.commission_bps, a.total_paid), (700, 0));
    assert_eq!(get_campaign(&env, 1).unwrap().total_commissions_paid, 125);
}

#[test]
fn affiliate_errors() {
    let mut env = setup_with_campaign(0, 0);
    assert_eq!(register_affiliate(&mut env, OWNER, 1, Address(30), 10_001, NOW), Err(ContractError::InvalidAmount));
    assert_eq!(register_affiliate(&mut env, OWNER, 2, Address(30), 1, NOW), Err(ContractError::CampaignNotFound));
    assert_eq!(register_affiliate(&mut env, OTHER, 1, Address(30), 1, NOW), Err(ContractError::NotAuthorized));
    assert_eq!(get_campaign_affiliate(&env, 1, Address(30)), Err(ContractError::AffiliateNotFound));
    assert_eq!(get_campaign_affiliate(&env, 8, Address(30)), Err(ContractError::AffiliateNotFound));
    assert_eq!(pay_affiliate_commission(&mut env, OWNER, 1, Address(30), 0, NOW), Err(ContractError::InvalidAmount));
    assert_eq!(pay_affiliate_commission(&mut env, OWNER, 1, Address(30), 5, NOW), Err(ContractError::AffiliateNotFound));
    register_affiliate(&mut env, OWNER, 1, Address(30), 10_000, NOW).unwrap();
    assert_eq!(pay_affiliate_commission(&mut env, OTHER, 1, Address(30), 5, NOW), Err(ContractError::NotAuthorized));
    assert_eq!(pay_affiliate_commission(&mut env, OWNER, 4, Address(30), 5, NOW), Err(ContractError::CampaignNotFound));
}

#[test]
fn leaderboard_ranks_by_score_and_keeps_ties_in_order() {
    let mut env = setup_with_campaign(0, 0);
    record_campaign_contribution(&mut env, Address(20), 1, 300, NOW).unwrap();
    record_campaign_contribution(&mut env, Address(21), 1, 200, NOW).unwrap();
    record_campaign_contribution(&mut env, Address(22), 1, 320, NOW).unwrap();
    stake_campaign(&mut env, Address(20), 1, 50, NOW).unwrap();
    slash_campaign_stake(&mut env, OWNER, 1, Address(20), 30, NOW).unwrap();
    stake_campaign(&mut env, Address(23), 1, 500, NOW).unwrap();

    assert_eq!(
        get_campaign_leaderboard(&env, 1, 10),
        vec![(Address(23), 500), (Address(20), 320), (Address(22), 320), (Address(21), 200)]
    );
    assert_eq!(get_campaign_leaderboard(&env, 1, 2), vec![(Address(23), 500), (Address(20), 320)]);
    assert_eq!(get_campaign_leaderboard(&env, 1, 0), vec![]);
    assert_eq!(get_campaign_leaderboard(&env, 9, 10), vec![]);
}

#[test]
fn leaderboard_of_new_campaign_is_empty() {
    let env = setup_with_campaign(0, 0);
    assert!(get_campaign_leaderboard(&env, 1, 5).is_empty());
}
