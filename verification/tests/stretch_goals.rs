use shade::errors::ContractError;
use shade::events::ShadeEvent;
use shade::shade::Shade;
use shade::stretch_goals::{
    claim_stretch_goal_reward, create_stretch_goal, distribute_stretch_goal_reward,
    get_crowdfund_stretch_goals, get_stretch_goal, get_stretch_goal_reward, unlock_stretch_goal,
};
use shade::types::{Address, StretchGoalReward, StretchGoalStatus};

const NOW: u64 = 5_000;
const ADMIN: Address = Address(1);
const MERCHANT: Address = Address(2);
const BACKER: Address = Address(3);

fn setup() -> Shade {
    let mut env = Shade::new();
    env.initialize(ADMIN, NOW).unwrap();
    env
}

fn goal(env: &mut Shade, crowdfund_id: u64, target: i128) -> u64 {
    create_stretch_goal(env, MERCHANT, crowdfund_id, target, b"Extra colours".to_vec(), b"Sticker pack".to_vec(), NOW)
        .unwrap()
        .0
}

#[test]
fn create_stretch_goal_is_pending_and_numbered() {
    let mut env = setup();
    let (id, event) =
        create_stretch_goal(&mut env, MERCHANT, 7, 1_000, b"Extra colours".to_vec(), b"Sticker pack".to_vec(), NOW)
            .unwrap();
    assert_eq!(id, 1);
    assert_eq!(
        event,
        ShadeEvent::StretchGoalCreated {
            goal_id: 1,
            crowdfund_id: 7,
            target_amount: 1_000,
            description_len: 13,
            timestamp: NOW,
        }
    );
    let g = get_stretch_goal(&env, 1).unwrap();
    assert_eq!(g.status, StretchGoalStatus::Pending);
    assert_eq!((g.crowdfund_id, g.target_amount, g.created_at, g.unlocked_at), (7, 1_000, NOW, 0));
    assert_eq!(g.reward_description, b"Sticker pack".to_vec());
    assert_eq!(goal(&mut env, 7, 5), 2);
}

#[test]
fn create_stretch_goal_errors() {
    let mut env = setup();
    assert_eq!(
        create_stretch_goal(&mut env, MERCHANT, 7, 0, b"a".to_vec(), b"b".to_vec(), NOW),
        Err(ContractError::InvalidAmount)
    );
    assert_eq!(
        create_stretch_goal(&mut env, MERCHANT, 7, 10, b"".to_vec(), b"b".to_vec(), NOW),
        Err(ContractError::InvalidDescription)
    );
    assert_eq!(
        create_stretch_goal(&mut env, MERCHANT, 7, 10, b"a".to_vec(), b"".to_vec(), NOW),
        Err(ContractError::InvalidDescription)
    );
    assert_eq!(get_stretch_goal(&env, 1), Err(ContractError::StretchGoalNotFound));
}

#[test]
fn crowdfund_goals_listed_in_creation_order() {
    let mut env = setup();
    goal(&mut env, 7, 10);
    goal(&mut env, 8, 10);
    goal(&mut env, 7, 20);
    assert_eq!(get_crowdfund_stretch_goals(&env, 7), vec![1, 3]);
    assert_eq!(get_crowdfund_stretch_goals(&env, 8), vec![2]);
    assert_eq!(get_crowdfund_stretch_goals(&env, 9), Vec::<u64>::new());
}

#[test]
fn unlock_distribute_claim_cycle() {
    let mut env = setup();
    goal(&mut env, 7, 1_000);
    assert_eq!(unlock_stretch_goal(&mut env, ADMIN, 1, 999, NOW), Err(ContractError::InvalidAmount));
    assert_eq!(
        distribute_stretch_goal_reward(&mut env, ADMIN, 1, BACKER, 10, NOW),
        Err(ContractError::StretchGoalNotUnlocked)
    );
    let event = unlock_stretch_goal(&mut env, ADMIN, 1, 1_000, NOW + 1).unwrap();
    assert_eq!(
        event,
        ShadeEvent::StretchGoalUnlocked { goal_id: 1, crowdfund_id: 7, current_amount: 1_000, timestamp: NOW + 1 }
    );
    let g = get_stretch_goal(&env, 1).unwrap();
    assert_eq!((g.status, g.unlocked_at), (StretchGoalStatus::Unlocked, NOW + 1));
    assert_eq!(unlock_stretch_goal(&mut env, ADMIN, 1, 5_000, NOW), Err(ContractError::GoalAlreadyUnlocked));

    assert_eq!(get_stretch_goal_reward(&env, 1), Err(ContractError::StretchGoalNotFound));
    assert_eq!(
        distribute_stretch_goal_reward(&mut env, ADMIN, 1, BACKER, 0, NOW),
        Err(ContractError::InvalidAmount)
    );
    let event = distribute_stretch_goal_reward(&mut env, ADMIN, 1, BACKER, 40, NOW).unwrap();
    assert_eq!(
        event,
        ShadeEvent::StretchGoalRewardDistributed { goal_id: 1, backer: BACKER, reward_amount: 40, timestamp: NOW }
    );
    assert_eq!(
        get_stretch_goal_reward(&env, 1),
        Ok(StretchGoalReward { goal_id: 1, backer: BACKER, reward_amount: 40, claimed: false, created_at: NOW })
    );

    assert_eq!(claim_stretch_goal_reward(&mut env, Address(9), 1, NOW), Err(ContractError::NotAuthorized));
    let event = claim_stretch_goal_reward(&mut env, BACKER, 1, NOW).unwrap();
    assert_eq!(
        event,
        ShadeEvent::StretchGoalRewardClaimed { goal_id: 1, backer: BACKER, reward_amount: 40, timestamp: NOW }
    );
    assert!(get_stretch_goal_reward(&env, 1).unwrap().claimed);
    assert_eq!(claim_stretch_goal_reward(&mut env, BACKER, 1, NOW), Err(ContractError::RewardAlreadyClaimed));
}

#[test]
fn stretch_goal_admin_checks() {
    let mut env = setup();
    goal(&mut env, 7, 10);
    assert_eq!(unlock_stretch_goal(&mut env, MERCHANT, 1, 10, NOW), Err(ContractError::NotAuthorized));
    assert_eq!(unlock_stretch_goal(&mut env, ADMIN, 2, 10, NOW), Err(ContractError::StretchGoalNotFound));
    assert_eq!(
        distribute_stretch_goal_reward(&mut env, MERCHANT, 1, BACKER, 1, NOW),
        Err(ContractError::NotAuthorized)
    );
    assert_eq!(
        distribute_stretch_goal_reward(&mut env, ADMIN, 2, BACKER, 1, NOW),
        Err(ContractError::StretchGoalNotFound)
    );
    assert_eq!(claim_stretch_goal_reward(&mut env, BACKER, 1, NOW), Err(ContractError::StretchGoalNotFound));
    let mut bare = Shade::new();
    goal(&mut bare, 7, 10);
    assert_eq!(unlock_stretch_goal(&mut bare, ADMIN, 1, 10, NOW), Err(ContractError::NotInitialized));
}
