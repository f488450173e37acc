use shade::errors::{ContractError, EscrowError, FactoryError, GovernanceError};

#[test]
fn contract_error_codes() {
    assert_eq!(ContractError::NotAuthorized.code(), 1);
    assert_eq!(ContractError::InvalidAmount.code(), 7);
    assert_eq!(ContractError::CampaignNotFound.code(), 55);
    assert_eq!(ContractError::AffiliateNotFound.code(), 56);
    assert_eq!(ContractError::BridgeDepositProcessed.code(), 68);
}

#[test]
fn factory_error_codes_round_trip() {
    for c in 1..=23u32 {
        let e = FactoryError::from_code(c).unwrap();
        assert_eq!(e.code(), c);
    }
    assert_eq!(FactoryError::from_code(0), None);
    assert_eq!(FactoryError::from_code(24), None);
    assert_eq!(FactoryError::from_code(17), Some(FactoryError::InvalidQuorum));
}

#[test]
fn governance_and_escrow_error_codes() {
    assert_eq!(GovernanceError::NotGovMember.code(), 100);
    assert_eq!(GovernanceError::from_code(107), Some(GovernanceError::AlreadyVoted));
    assert_eq!(GovernanceError::from_code(99), None);
    assert_eq!(EscrowError::EscrowNotExpired.code(), 44);
    assert_eq!(EscrowError::from_code(45), Some(EscrowError::EscrowAlreadyRefunded));
    assert_eq!(EscrowError::from_code(46), None);
}
