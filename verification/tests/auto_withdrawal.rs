use shade::auto_withdrawal::{
    check_and_trigger_auto_withdrawal, get_auto_withdrawal_recipient, get_auto_withdrawal_threshold,
    set_auto_withdrawal_recipient, set_auto_withdrawal_threshold,
};
use shade::errors::ContractError;
use shade::events::ShadeEvent;
use shade::shade::Shade;
use shade::types::{Address, AutoWithdrawalThreshold, Merchant};

const TOKEN_A: Address = Address(100);
const TOKEN_B: Address = Address(101);

fn merchant(active: bool) -> Merchant {
    Merchant {
        id: 4,
        address: Address(40),
        active,
        auto_withdrawal_thresholds: Vec::new(),
        auto_withdrawal_recipient: None,
    }
}

#[test]
fn set_threshold_appends_then_replaces() {
    let mut m = merchant(true);
    assert_eq!(
        set_auto_withdrawal_threshold(&mut m, TOKEN_A, 500),
        Ok(ShadeEvent::AutoWithdrawalThresholdSet { merchant_id: 4, token: TOKEN_A, threshold: 500 })
    );
    set_auto_withdrawal_threshold(&mut m, TOKEN_B, 70).unwrap();
    set_auto_withdrawal_threshold(&mut m, TOKEN_A, 900).unwrap();
    assert_eq!(
        m.auto_withdrawal_thresholds,
        vec![
            AutoWithdrawalThreshold { token: TOKEN_A, threshold: 900 },
            AutoWithdrawalThreshold { token: TOKEN_B, threshold: 70 },
        ]
    );
    assert_eq!(get_auto_withdrawal_threshold(&m, TOKEN_A), Some(900));
    assert_eq!(get_auto_withdrawal_threshold(&m, TOKEN_B), Some(70));
    assert_eq!(get_auto_withdrawal_threshold(&m, Address(102)), None);
}

#[test]
fn set_threshold_errors() {
    let mut m = merchant(true);
    assert_eq!(set_auto_withdrawal_threshold(&mut m, TOKEN_A, -1), Err(ContractError::InvalidAmount));
    let mut inactive = merchant(false);
    assert_eq!(set_auto_withdrawal_threshold(&mut inactive, TOKEN_A, 1), Err(ContractError::MerchantNotActive));
    assert!(inactive.auto_withdrawal_thresholds.is_empty());
    assert_eq!(set_auto_withdrawal_recipient(&mut inactive, Address(9)), Err(ContractError::MerchantNotActive));
    assert_eq!(get_auto_withdrawal_recipient(&inactive), None);
}

#[test]
fn trigger_decision() {
    let mut m = merchant(true);
    assert_eq!(check_and_trigger_auto_withdrawal(&m, TOKEN_A, 1_000), None);
    set_auto_withdrawal_threshold(&mut m, TOKEN_A, 0).unwrap();
    assert_eq!(check_and_trigger_auto_withdrawal(&m, TOKEN_A, 1_000), None);
    set_auto_withdrawal_threshold(&mut m, TOKEN_A, 500).unwrap();
    assert_eq!(check_and_trigger_auto_withdrawal(&m, TOKEN_A, 499), None);
    assert_eq!(check_and_trigger_auto_withdrawal(&m, TOKEN_A, 500), None);
    assert_eq!(
        check_and_trigger_auto_withdrawal(&m, TOKEN_A, 501),
        Some(ShadeEvent::AutoWithdrawalTriggered { merchant_id: 4, token: TOKEN_A, amount: 501, recipient: Address(40) })
    );
    assert_eq!(
        set_auto_withdrawal_recipient(&mut m, Address(41)),
        Ok(ShadeEvent::AutoWithdrawalRecipientSet { merchant_id: 4, recipient: Address(41) })
    );
    assert_eq!(get_auto_withdrawal_recipient(&m), Some(Address(41)));
    assert_eq!(
        check_and_trigger_auto_withdrawal(&m, TOKEN_A, 800),
        Some(ShadeEvent::AutoWithdrawalTriggered { merchant_id: 4, token: TOKEN_A, amount: 800, recipient: Address(41) })
    );
}

#[test]
fn contract_level_setters_respect_pause() {
    let mut env = Shade::new();
    env.initialize(Address(1), 0).unwrap();
    let mut m = merchant(true);
    env.set_auto_withdrawal_threshold(&mut m, TOKEN_A, 10).unwrap();
    assert_eq!(env.get_auto_withdrawal_threshold(&m, TOKEN_A), Some(10));
    env.pause(Address(1), 0).unwrap();
    assert_eq!(env.set_auto_withdrawal_threshold(&mut m, TOKEN_A, 20), Err(ContractError::ContractPaused));
    assert_eq!(env.set_auto_withdrawal_recipient(&mut m, Address(5)), Err(ContractError::ContractPaused));
    assert_eq!(env.get_auto_withdrawal_threshold(&m, TOKEN_A), Some(10));
    assert_eq!(env.get_auto_withdrawal_recipient(&m), None);
}
