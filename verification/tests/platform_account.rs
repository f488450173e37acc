use shade::errors::ContractError;
use shade::events::ShadeEvent;
use shade::shade::Shade;
use shade::types::Address;

const NOW: u64 = 1_700_000_000;

fn setup() -> (Shade, Address) {
    let mut env = Shade::new();
    let admin = Address(1);
    env.initialize(admin, NOW).unwrap();
    (env, admin)
}

#[test]
fn test_get_platform_account_defaults_to_admin() {
    let (env, admin) = setup();
    assert_eq!(env.get_platform_account(), Ok(admin));
}

#[test]
fn test_set_platform_account_success_and_event() {
    let (mut env, admin) = setup();
    let platform = Address(2);
    let expected_timestamp = NOW;

    let event = env.set_platform_account(admin, platform, expected_timestamp).unwrap();

    assert_eq!(env.get_platform_account(), Ok(platform));
    assert_eq!(
        event,
        ShadeEvent::PlatformAccountSet { admin, account: platform, timestamp: expected_timestamp }
    );
}

#[test]
fn test_set_platform_account_unauthorized() {
    let (mut env, admin) = setup();
    let platform = Address(2);
    let attacker = Address(3);

    let result = env.set_platform_account(attacker, platform, NOW);
    assert_eq!(result, Err(ContractError::NotAuthorized));
    assert_eq!(env.get_platform_account(), Ok(admin));
}

#[test]
fn test_update_platform_account() {
    let (mut env, admin) = setup();
    let platform_a = Address(2);
    let platform_b = Address(3);

    env.set_platform_account(admin, platform_a, NOW).unwrap();
    assert_eq!(env.get_platform_account(), Ok(platform_a));

    env.set_platform_account(admin, platform_b, NOW).unwrap();
    assert_eq!(env.get_platform_account(), Ok(platform_b));
}

#[test]
fn initialize_emits_event_and_sets_admin() {
    let mut env = Shade::new();
    assert_eq!(env.get_admin(), Err(ContractError::NotInitialized));
    assert_eq!(env.get_platform_account(), Err(ContractError::NotInitialized));
    let event = env.initialize(Address(7), 42).unwrap();
    assert_eq!(event, ShadeEvent::Initialized { admin: Address(7), timestamp: 42 });
    assert_eq!(env.get_admin(), Ok(Address(7)));
}

#[test]
fn initialize_twice_is_refused() {
    let (mut env, admin) = setup();
    assert_eq!(env.initialize(Address(9), NOW), Err(ContractError::AlreadyInitialized));
    assert_eq!(env.get_admin(), Ok(admin));
}

#[test]
fn set_platform_account_refused_while_paused() {
    let (mut env, admin) = setup();
    env.pause(admin, NOW).unwrap();
    assert!(env.is_paused());
    assert_eq!(env.set_platform_account(admin, Address(2), NOW), Err(ContractError::ContractPaused));
    assert_eq!(env.get_platform_account(), Ok(admin));
    env.unpause(admin, NOW).unwrap();
    assert!(!env.is_paused());
    assert!(env.set_platform_account(admin, Address(2), NOW).is_ok());
}

#[test]
fn pause_and_unpause_errors() {
    let (mut env, admin) = setup();
    assert_eq!(env.unpause(admin, NOW), Err(ContractError::ContractNotPaused));
    assert_eq!(env.pause(Address(5), NOW), Err(ContractError::NotAuthorized));
    assert_eq!(env.pause(admin, NOW), Ok(ShadeEvent::ContractPaused { admin, timestamp: NOW }));
    assert_eq!(env.pause(admin, NOW), Err(ContractError::ContractPaused));
    assert_eq!(env.unpause(admin, NOW), Ok(ShadeEvent::ContractUnpaused { admin, timestamp: NOW }));
    let mut fresh = Shade::new();
    assert_eq!(fresh.pause(admin, NOW), Err(ContractError::NotInitialized));
}
