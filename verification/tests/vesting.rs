use shade::errors::ContractError;
use shade::events::ShadeEvent;
use shade::shade::Shade;
use shade::types::{Address, CrowdfundVestingConfig};
use shade::vesting::{
    add_vesting_schedule, configure_crowdfund_vesting, create_vesting_timeline,
    get_crowdfund_vesting_config, get_vesting_timeline, release_vesting_schedule,
    update_vesting_timeline,
};

const NOW: u64 = 10_000;
const ADMIN: Address = Address(1);
const STRANGER: Address = Address(2);

fn setup() -> Shade {
    let mut env = Shade::new();
    env.initialize(ADMIN, NOW).unwrap();
    env
}

#[test]
fn create_and_update_timeline() {
    let mut env = setup();
    let (id, event) = create_vesting_timeline(&mut env, ADMIN, b"Team".to_vec(), 30, 365, 2_500, NOW).unwrap();
    assert_eq!(id, 1);
    assert_eq!(
        event,
        ShadeEvent::VestingTimelineCreated {
            timeline_id: 1,
            name: b"Team".to_vec(),
            cliff_duration: 30,
            vesting_duration: 365,
            admin: ADMIN,
            timestamp: NOW,
        }
    );
    let t = get_vesting_timeline(&env, 1).unwrap();
    assert_eq!((t.cliff_duration, t.vesting_duration, t.unlock_percentage, t.admin), (30, 365, 2_500, ADMIN));
    let event = update_vesting_timeline(&mut env, ADMIN, 1, 60, 730, NOW + 1).unwrap();
    assert_eq!(
        event,
        ShadeEvent::VestingTimelineUpdated {
            timeline_id: 1,
            cliff_duration: 60,
            vesting_duration: 730,
            admin: ADMIN,
            timestamp: NOW + 1,
        }
    );
    let t = get_vesting_timeline(&env, 1).unwrap();
    assert_eq!((t.cliff_duration, t.vesting_duration, t.name.clone()), (60, 730, b"Team".to_vec()));
    let (id2, _) = create_vesting_timeline(&mut env, ADMIN, b"Advisors".to_vec(), 1, 1, 10_000, NOW).unwrap();
    assert_eq!(id2, 2);
}

#[test]
fn timeline_errors() {
    let mut env = setup();
    assert_eq!(
        create_vesting_timeline(&mut env, STRANGER, b"x".to_vec(), 1, 1, 1, NOW),
        Err(ContractError::NotAuthorized)
    );
    assert_eq!(create_vesting_timeline(&mut env, ADMIN, b"x".to_vec(), 0, 1, 1, NOW), Err(ContractError::InvalidInterval));
    assert_eq!(create_vesting_timeline(&mut env, ADMIN, b"x".to_vec(), 1, 0, 1, NOW), Err(ContractError::InvalidInterval));
    assert_eq!(create_vesting_timeline(&mut env, ADMIN, b"x".to_vec(), 1, 1, 0, NOW), Err(ContractError::InvalidAmount));
    assert_eq!(
        create_vesting_timeline(&mut env, ADMIN, b"x".to_vec(), 1, 1, 10_001, NOW),
        Err(ContractError::InvalidAmount)
    );
    assert_eq!(get_vesting_timeline(&env, 1), Err(ContractError::InvalidInterval));
    assert_eq!(update_vesting_timeline(&mut env, ADMIN, 1, 1, 1, NOW), Err(ContractError::InvalidInterval));
    assert_eq!(update_vesting_timeline(&mut env, STRANGER, 1, 1, 1, NOW), Err(ContractError::NotAuthorized));
    let mut bare = Shade::new();
    assert_eq!(
        create_vesting_timeline(&mut bare, ADMIN, b"x".to_vec(), 1, 1, 1, NOW),
        Err(ContractError::NotInitialized)
    );
}

#[test]
fn crowdfund_vesting_configuration() {
    let mut env = setup();
    assert_eq!(configure_crowdfund_vesting(&mut env, ADMIN, 9, 1, 100, NOW), Err(ContractError::InvalidInterval));
    create_vesting_timeline(&mut env, ADMIN, b"Team".to_vec(), 30, 365, 2_500, NOW).unwrap();
    assert_eq!(configure_crowdfund_vesting(&mut env, ADMIN, 9, 1, 0, NOW), Err(ContractError::InvalidAmount));
    assert_eq!(configure_crowdfund_vesting(&mut env, STRANGER, 9, 1, 100, NOW), Err(ContractError::NotAuthorized));
    assert_eq!(get_crowdfund_vesting_config(&env, 9), Err(ContractError::InvoiceNotFound));
    let event = configure_crowdfund_vesting(&mut env, ADMIN, 9, 1, 100, NOW).unwrap();
    assert_eq!(
        event,
        ShadeEvent::CrowdfundVestingConfigured {
            crowdfund_id: 9,
            timeline_id: 1,
            total_vesting_amount: 100,
            admin: ADMIN,
            timestamp: NOW,
        }
    );
    assert_eq!(
        get_crowdfund_vesting_config(&env, 9),
        Ok(CrowdfundVestingConfig { crowdfund_id: 9, timeline_id: 1, total_vesting_amount: 100, configured_at: NOW })
    );
}

#[test]
fn tranches_release_once_after_unlock_time() {
    let mut env = setup();
    create_vesting_timeline(&mut env, ADMIN, b"Team".to_vec(), 30, 365, 2_500, NOW).unwrap();
    assert_eq!(add_vesting_schedule(&mut env, ADMIN, 1, 0, 0, NOW + 100), Err(ContractError::InvalidAmount));
    assert_eq!(add_vesting_schedule(&mut env, ADMIN, 2, 0, 10, NOW + 100), Err(ContractError::InvalidInterval));
    assert_eq!(add_vesting_schedule(&mut env, STRANGER, 1, 0, 10, NOW + 100), Err(ContractError::NotAuthorized));
    assert_eq!(add_vesting_schedule(&mut env, ADMIN, 1, 0, 10, NOW + 100), Ok(()));

    assert_eq!(release_vesting_schedule(&mut env, ADMIN, 1, 1, NOW + 200), Err(ContractError::InvoiceNotFound));
    assert_eq!(release_vesting_schedule(&mut env, ADMIN, 2, 0, NOW + 200), Err(ContractError::InvoiceNotFound));
    assert_eq!(release_vesting_schedule(&mut env, ADMIN, 1, 0, NOW + 99), Err(ContractError::InvoiceExpired));
    assert_eq!(release_vesting_schedule(&mut env, STRANGER, 1, 0, NOW + 100), Err(ContractError::NotAuthorized));
    let event = release_vesting_schedule(&mut env, ADMIN, 1, 0, NOW + 100).unwrap();
    assert_eq!(
        event,
        ShadeEvent::VestingScheduleReleased { timeline_id: 1, tranche_index: 0, unlock_amount: 10, timestamp: NOW + 100 }
    );
    assert_eq!(
        release_vesting_schedule(&mut env, ADMIN, 1, 0, NOW + 300),
        Err(ContractError::InvalidInvoiceStatus)
    );
    add_vesting_schedule(&mut env, ADMIN, 1, 0, 20, NOW + 100).unwrap();
    assert!(release_vesting_schedule(&mut env, ADMIN, 1, 0, NOW + 300).is_ok());
}
