use vstd::prelude::*;

verus! {

/// Errors of the crowdfund factory contract.
#[derive(Clone, Copy, Debug, PartialEq, Eq, Structural)]
pub enum FactoryError {
    NotInitialized,
    AlreadyInitialized,
    WasmHashNotSet,
    CampaignNotFound,
    /// Governance has not been initialised.
    GovernanceNotInitialized,
    /// Caller holds neither the governance admin role nor an approver grant.
    NotReviewer,
    InvalidGoal,
    InvalidDeadline,
    ProposalNotFound,
    /// Proposal is not in `Pending` status.
    ProposalNotPending,
    /// Proposal is not in `Approved` status.
    ProposalNotApproved,
    /// DAO governance has not been initialised.
    DaoNotInitialized,
    DaoAlreadyInitialized,
    NotDaoAdmin,
    AlreadyDaoMember,
    NotDaoMember,
    /// Quorum must be above zero and at most 10_000 basis points.
    InvalidQuorum,
    InvalidVotingPeriod,
    DaoProposalNotFound,
    /// Voting window has closed, or the proposal is no longer voting.
    VotingClosed,
    /// Voting window has not yet closed.
    VotingNotClosed,
    AlreadyVoted,
    DaoProposalAlreadyExecuted,
}

impl FactoryError {
    /// The numeric code the contract reports for this error.
    pub open spec fn spec_code(self) -> u32 {
        match self {
            FactoryError::NotInitialized => 1,
            FactoryError::AlreadyInitialized => 2,
            FactoryError::WasmHashNotSet => 3,
            FactoryError::CampaignNotFound => 4,
            FactoryError::GovernanceNotInitialized => 5,
            FactoryError::NotReviewer => 6,
            FactoryError::InvalidGoal => 7,
            FactoryError::InvalidDeadline => 8,
            FactoryError::ProposalNotFound => 9,
            FactoryError::ProposalNotPending => 10,
            FactoryError::ProposalNotApproved => 11,
            FactoryError::DaoNotInitialized => 12,
            FactoryError::DaoAlreadyInitialized => 13,
            FactoryError::NotDaoAdmin => 14,
            FactoryError::AlreadyDaoMember => 15,
            FactoryError::NotDaoMember => 16,
            FactoryError::InvalidQuorum => 17,
            FactoryError::InvalidVotingPeriod => 18,
            FactoryError::DaoProposalNotFound => 19,
            FactoryError::VotingClosed => 20,
            FactoryError::VotingNotClosed => 21,
            FactoryError::AlreadyVoted => 22,
            FactoryError::DaoProposalAlreadyExecuted => 23,
        }
    }

    /// The numeric code the contract reports for this error.
    pub fn code(&self) -> (c: u32)
        ensures
            c == self.spec_code(),
    {
        match self {
            FactoryError::NotInitialized => 1,
            FactoryError::AlreadyInitialized => 2,
            FactoryError::WasmHashNotSet => 3,
            FactoryError::CampaignNotFound => 4,
            FactoryError::GovernanceNotInitialized => 5,
            FactoryError::NotReviewer => 6,
            FactoryError::InvalidGoal => 7,
            FactoryError::InvalidDeadline => 8,
            FactoryError::ProposalNotFound => 9,
            FactoryError::ProposalNotPending => 10,
            FactoryError::ProposalNotApproved => 11,
            FactoryError::DaoNotInitialized => 12,
            FactoryError::DaoAlreadyInitialized => 13,
            FactoryError::NotDaoAdmin => 14,
            FactoryError::AlreadyDaoMember => 15,
            FactoryError::NotDaoMember => 16,
            FactoryError::InvalidQuorum => 17,
            FactoryError::InvalidVotingPeriod => 18,
            FactoryError::DaoProposalNotFound => 19,
            FactoryError::VotingClosed => 20,
            FactoryError::VotingNotClosed => 21,
            FactoryError::AlreadyVoted => 22,
            FactoryError::DaoProposalAlreadyExecuted => 23,
        }
    }

    /// The error that carries the numeric code `c`, if any.
    pub fn from_code(c: u32) -> (r: Option<FactoryError>)
        ensures
            match r {
                Some(e) => e.spec_code() == c,
                None => forall|e: FactoryError| e.spec_code() != c,
            },
    {
        match c {
            1 => Some(FactoryError::NotInitialized),
            2 => Some(FactoryError::AlreadyInitialized),
            3 => Some(FactoryError::WasmHashNotSet),
            4 => Some(FactoryError::CampaignNotFound),
            5 => Some(FactoryError::GovernanceNotInitialized),
            6 => Some(FactoryError::NotReviewer),
            7 => Some(FactoryError::InvalidGoal),
            8 => Some(FactoryError::InvalidDeadline),
            9 => Some(FactoryError::ProposalNotFound),
            10 => Some(FactoryError::ProposalNotPending),
            11 => Some(FactoryError::ProposalNotApproved),
            12 => Some(FactoryError::DaoNotInitialized),
            13 => Some(FactoryError::DaoAlreadyInitialized),
            14 => Some(FactoryError::NotDaoAdmin),
            15 => Some(FactoryError::AlreadyDaoMember),
            16 => Some(FactoryError::NotDaoMember),
            17 => Some(FactoryError::InvalidQuorum),
            18 => Some(FactoryError::InvalidVotingPeriod),
            19 => Some(FactoryError::DaoProposalNotFound),
            20 => Some(FactoryError::VotingClosed),
            21 => Some(FactoryError::VotingNotClosed),
            22 => Some(FactoryError::AlreadyVoted),
            23 => Some(FactoryError::DaoProposalAlreadyExecuted),
            _ => None,
        }
    }
}

/// Errors of the Shade contract. Several variants share a code, as the contract's error table does;
/// the stretch-goal variants carry the codes that follow the last listed one.
#[derive(Clone, Copy, Debug, PartialEq, Eq, Structural)]
pub enum ContractError {
    NotAuthorized,
    AlreadyInitialized,
    NotInitialized,
    Reentrancy,
    MerchantAlreadyRegistered,
    MerchantNotFound,
    InvalidAmount,
    InvoiceNotFound,
    ContractPaused,
    ContractNotPaused,
    MerchantKeyNotFound,
    TokenNotAccepted,
    NonceAlreadyUsed,
    InvalidInvoiceStatus,
    RefundPeriodExpired,
    WasmHashNotSet,
    MerchantAccountNotSet,
    InvalidInterval,
    PlanNotFound,
    PlanNotActive,
    SubscriptionNotFound,
    SubscriptionNotActive,
    ChargeTooEarly,
    InvoiceExpired,
    InvoiceNotPaid,
    PayerNotAvailable,
    InsufficientBalance,
    MerchantNotActive,
    InvalidDescription,
    OracleNotConfigured,
    OraclePriceUnavailable,
    TokenNotAcceptedByMerchant,
    FeeUpdateTooEarly,
    NoPendingFeeUpdate,
    InvalidSwapPath,
    InvalidSlippage,
    EventNotFound,
    EventSoldOut,
    InvalidCapacity,
    InvalidEventDate,
    InvalidRoyaltyBps,
    TicketNotFound,
    NotTicketOwner,
    InvalidResalePrice,
    /// Referenced campaign does not exist.
    CampaignNotFound,
    CampaignCategoryNotFound,
    CampaignCategoryAlreadyExists,
    CampaignCategoryInactive,
    CampaignTagNotFound,
    CampaignTagAlreadyExists,
    InvalidCampaignGoal,
    InvalidCampaignDeadline,
    CampaignInactive,
    NotCampaignMerchant,
    CampaignExpired,
    NotFound,
    BelowMultiSigThreshold,
    MultiSigSignersNotSet,
    InvalidQuorum,
    NotASigner,
    AlreadyApproved,
    ProposalNotFound,
    ProposalNotPending,
    QuorumNotReached,
    NotProposer,
    ThresholdNotSet,
    EscrowNotFound,
    InvalidEscrowStatus,
    /// No affiliate is registered for the campaign under that address.
    AffiliateNotFound,
    NftError,
    InvalidRewardTier,
    PledgeBelowTierMinimum,
    RewardTierAtCapacity,
    BackerRewardAlreadyFulfilled,
    NotBacker,
    CampaignEnded,
    PerkNotFound,
    PerkAlreadyClaimed,
    BackerRewardNotFulfilled,
    InvalidTierOrdering,
    CampaignNotActive,
    BridgeDepositProcessed,
    /// No stretch goal (or no reward for it) is stored under the given id.
    StretchGoalNotFound,
    /// The stretch goal is no longer pending.
    GoalAlreadyUnlocked,
    /// The stretch goal has not been unlocked yet.
    StretchGoalNotUnlocked,
    /// The stretch-goal reward has already been claimed.
    RewardAlreadyClaimed,
}

impl ContractError {
    /// The numeric code the contract reports for this error.
    pub open spec fn spec_code(self) -> u32 {
        match self {
            ContractError::NotAuthorized => 1,
            ContractError::AlreadyInitialized => 2,
            ContractError::NotInitialized => 3,
            ContractError::Reentrancy => 4,
            ContractError::MerchantAlreadyRegistered => 5,
            ContractError::MerchantNotFound => 6,
            ContractError::InvalidAmount => 7,
            ContractError::InvoiceNotFound => 8,
            ContractError::ContractPaused => 9,
            ContractError::ContractNotPaused => 10,
            ContractError::MerchantKeyNotFound => 11,
            ContractError::TokenNotAccepted => 12,
            ContractError::NonceAlreadyUsed => 14,
            ContractError::InvalidInvoiceStatus => 16,
            ContractError::RefundPeriodExpired => 17,
            ContractError::WasmHashNotSet => 18,
            ContractError::MerchantAccountNotSet => 20,
            ContractError::InvalidInterval => 21,
            ContractError::PlanNotFound => 22,
            ContractError::PlanNotActive => 23,
            ContractError::SubscriptionNotFound => 24,
            ContractError::SubscriptionNotActive => 25,
            ContractError::ChargeTooEarly => 26,
            ContractError::InvoiceExpired => 27,
            ContractError::InvoiceNotPaid => 28,
            ContractError::PayerNotAvailable => 29,
            ContractError::InsufficientBalance => 30,
            ContractError::MerchantNotActive => 32,
            ContractError::InvalidDescription => 33,
            ContractError::OracleNotConfigured => 34,
            ContractError::OraclePriceUnavailable => 35,
            ContractError::TokenNotAcceptedByMerchant => 41,
            ContractError::FeeUpdateTooEarly => 42,
            ContractError::NoPendingFeeUpdate => 43,
            ContractError::InvalidSwapPath => 44,
            ContractError::InvalidSlippage => 45,
            ContractError::EventNotFound => 46,
            ContractError::EventSoldOut => 47,
            ContractError::InvalidCapacity => 48,
            ContractError::InvalidEventDate => 49,
            ContractError::InvalidRoyaltyBps => 50,
            ContractError::TicketNotFound => 51,
            ContractError::NotTicketOwner => 52,
            ContractError::InvalidResalePrice => 54,
            ContractError::CampaignNotFound => 55,
            ContractError::CampaignCategoryNotFound => 55,
            ContractError::CampaignCategoryAlreadyExists => 56,
            ContractError::CampaignCategoryInactive => 57,
            ContractError::CampaignTagNotFound => 58,
            ContractError::CampaignTagAlreadyExists => 59,
            ContractError::InvalidCampaignGoal => 61,
            ContractError::InvalidCampaignDeadline => 62,
            ContractError::CampaignInactive => 63,
            ContractError::NotCampaignMerchant => 64,
            ContractError::CampaignExpired => 65,
            ContractError::NotFound => 55,
            ContractError::BelowMultiSigThreshold => 55,
            ContractError::MultiSigSignersNotSet => 56,
            ContractError::InvalidQuorum => 57,
            ContractError::NotASigner => 58,
            ContractError::AlreadyApproved => 59,
            ContractError::ProposalNotFound => 60,
            ContractError::ProposalNotPending => 61,
            ContractError::QuorumNotReached => 62,
            ContractError::NotProposer => 63,
            ContractError::ThresholdNotSet => 64,
            ContractError::EscrowNotFound => 55,
            ContractError::InvalidEscrowStatus => 56,
            ContractError::AffiliateNotFound => 56,
            ContractError::NftError => 55,
            ContractError::InvalidRewardTier => 56,
            ContractError::PledgeBelowTierMinimum => 57,
            ContractError::RewardTierAtCapacity => 58,
            ContractError::BackerRewardAlreadyFulfilled => 59,
            ContractError::NotBacker => 60,
            ContractError::CampaignEnded => 61,
            ContractError::PerkNotFound => 63,
            ContractError::PerkAlreadyClaimed => 64,
            ContractError::BackerRewardNotFulfilled => 65,
            ContractError::InvalidTierOrdering => 66,
            ContractError::CampaignNotActive => 67,
            ContractError::BridgeDepositProcessed => 68,
            ContractError::StretchGoalNotFound => 69,
            ContractError::GoalAlreadyUnlocked => 70,
            ContractError::StretchGoalNotUnlocked => 71,
            ContractError::RewardAlreadyClaimed => 72,
        }
    }

    /// The numeric code the contract reports for this error.
    pub fn code(&self) -> (c: u32)
        ensures
            c == self.spec_code(),
    {
        match self {
            ContractError::NotAuthorized => 1,
            ContractError::AlreadyInitialized => 2,
            ContractError::NotInitialized => 3,
            ContractError::Reentrancy => 4,
            ContractError::MerchantAlreadyRegistered => 5,
            ContractError::MerchantNotFound => 6,
            ContractError::InvalidAmount => 7,
            ContractError::InvoiceNotFound => 8,
            ContractError::ContractPaused => 9,
            ContractError::ContractNotPaused => 10,
            ContractError::MerchantKeyNotFound => 11,
            ContractError::TokenNotAccepted => 12,
            ContractError::NonceAlreadyUsed => 14,
            ContractError::InvalidInvoiceStatus => 16,
            ContractError::RefundPeriodExpired => 17,
            ContractError::WasmHashNotSet => 18,
            ContractError::MerchantAccountNotSet => 20,
            ContractError::InvalidInterval => 21,
            ContractError::PlanNotFound => 22,
            ContractError::PlanNotActive => 23,
            ContractError::SubscriptionNotFound => 24,
            ContractError::SubscriptionNotActive => 25,
            ContractError::ChargeTooEarly => 26,
            ContractError::InvoiceExpired => 27,
            ContractError::InvoiceNotPaid => 28,
            ContractError::PayerNotAvailable => 29,
            ContractError::InsufficientBalance => 30,
            ContractError::MerchantNotActive => 32,
            ContractError::InvalidDescription => 33,
            ContractError::OracleNotConfigured => 34,
            ContractError::OraclePriceUnavailable => 35,
            ContractError::TokenNotAcceptedByMerchant => 41,
            ContractError::FeeUpdateTooEarly => 42,
            ContractError::NoPendingFeeUpdate => 43,
            ContractError::InvalidSwapPath => 44,
            ContractError::InvalidSlippage => 45,
            ContractError::EventNotFound => 46,
            ContractError::EventSoldOut => 47,
            ContractError::InvalidCapacity => 48,
            ContractError::InvalidEventDate => 49,
            ContractError::InvalidRoyaltyBps => 50,
            ContractError::TicketNotFound => 51,
            ContractError::NotTicketOwner => 52,
            ContractError::InvalidResalePrice => 54,
            ContractError::CampaignNotFound => 55,
            ContractError::CampaignCategoryNotFound => 55,
            ContractError::CampaignCategoryAlreadyExists => 56,
            ContractError::CampaignCategoryInactive => 57,
            ContractError::CampaignTagNotFound => 58,
            ContractError::CampaignTagAlreadyExists => 59,
            ContractError::InvalidCampaignGoal => 61,
            ContractError::InvalidCampaignDeadline => 62,
            ContractError::CampaignInactive => 63,
            ContractError::NotCampaignMerchant => 64,
            ContractError::CampaignExpired => 65,
            ContractError::NotFound => 55,
            ContractError::BelowMultiSigThreshold => 55,
            ContractError::MultiSigSignersNotSet => 56,
            ContractError::InvalidQuorum => 57,
            ContractError::NotASigner => 58,
            ContractError::AlreadyApproved => 59,
            ContractError::ProposalNotFound => 60,
            ContractError::ProposalNotPending => 61,
            ContractError::QuorumNotReached => 62,
            ContractError::NotProposer => 63,
            ContractError::ThresholdNotSet => 64,
            ContractError::EscrowNotFound => 55,
            ContractError::InvalidEscrowStatus => 56,
            ContractError::AffiliateNotFound => 56,
            ContractError::NftError => 55,
            ContractError::InvalidRewardTier => 56,
            ContractError::PledgeBelowTierMinimum => 57,
            ContractError::RewardTierAtCapacity => 58,
            ContractError::BackerRewardAlreadyFulfilled => 59,
            ContractError::NotBacker => 60,
            ContractError::CampaignEnded => 61,
            ContractError::PerkNotFound => 63,
            ContractError::PerkAlreadyClaimed => 64,
            ContractError::BackerRewardNotFulfilled => 65,
            ContractError::InvalidTierOrdering => 66,
            ContractError::CampaignNotActive => 67,
            ContractError::BridgeDepositProcessed => 68,
            ContractError::StretchGoalNotFound => 69,
            ContractError::GoalAlreadyUnlocked => 70,
            ContractError::StretchGoalNotUnlocked => 71,
            ContractError::RewardAlreadyClaimed => 72,
        }
    }
}

/// DAO governance errors, with codes offset past those of `ContractError`.
#[derive(Clone, Copy, Debug, PartialEq, Eq, Structural)]
pub enum GovernanceError {
    /// Caller is not a registered governance council member.
    NotGovMember,
    /// Governance voting parameters have not been configured.
    GovNotConfigured,
    /// Supplied governance config is invalid (zero period or quorum above 100%).
    InvalidGovConfig,
    /// No proposal exists for the supplied id.
    ProposalNotFound,
    /// The proposal is no longer open (already executed or defeated).
    ProposalNotActive,
    /// The voting window for this proposal has closed.
    VotingClosed,
    /// The voting window is still open; the proposal cannot be finalized yet.
    VotingStillOpen,
    /// This member has already voted on the proposal.
    AlreadyVoted,
}

impl GovernanceError {
    /// The numeric code the contract reports for this error.
    pub open spec fn spec_code(self) -> u32 {
        match self {
            GovernanceError::NotGovMember => 100,
            GovernanceError::GovNotConfigured => 101,
            GovernanceError::InvalidGovConfig => 102,
            GovernanceError::ProposalNotFound => 103,
            GovernanceError::ProposalNotActive => 104,
            GovernanceError::VotingClosed => 105,
            GovernanceError::VotingStillOpen => 106,
            GovernanceError::AlreadyVoted => 107,
        }
    }

    /// The numeric code the contract reports for this error.
    pub fn code(&self) -> (c: u32)
        ensures
            c == self.spec_code(),
    {
        match self {
            GovernanceError::NotGovMember => 100,
            GovernanceError::GovNotConfigured => 101,
            GovernanceError::InvalidGovConfig => 102,
            GovernanceError::ProposalNotFound => 103,
            GovernanceError::ProposalNotActive => 104,
            GovernanceError::VotingClosed => 105,
            GovernanceError::VotingStillOpen => 106,
            GovernanceError::AlreadyVoted => 107,
        }
    }

    /// The error that carries the numeric code `c`, if any.
    pub fn from_code(c: u32) -> (r: Option<GovernanceError>)
        ensures
            match r {
                Some(e) => e.spec_code() == c,
                None => forall|e: GovernanceError| e.spec_code() != c,
            },
    {
        match c {
            100 => Some(GovernanceError::NotGovMember),
            101 => Some(GovernanceError::GovNotConfigured),
            102 => Some(GovernanceError::InvalidGovConfig),
            103 => Some(GovernanceError::ProposalNotFound),
            104 => Some(GovernanceError::ProposalNotActive),
            105 => Some(GovernanceError::VotingClosed),
            106 => Some(GovernanceError::VotingStillOpen),
            107 => Some(GovernanceError::AlreadyVoted),
            _ => None,
        }
    }
}

/// Escrow and expired-refund errors; their codes are scoped to this enum.
#[derive(Clone, Copy, Debug, PartialEq, Eq, Structural)]
pub enum EscrowError {
    /// The escrow invoice has not yet reached its expiration timestamp.
    EscrowNotExpired,
    /// The escrow invoice has already been fully refunded.
    EscrowAlreadyRefunded,
}

impl EscrowError {
    /// The numeric code the contract reports for this error.
    pub open spec fn spec_code(self) -> u32 {
        match self {
            EscrowError::EscrowNotExpired => 44,
            EscrowError::EscrowAlreadyRefunded => 45,
        }
    }

    /// The numeric code the contract reports for this error.
    pub fn code(&self) -> (c: u32)
        ensures
            c == self.spec_code(),
    {
        match self {
            EscrowError::EscrowNotExpired => 44,
            EscrowError::EscrowAlreadyRefunded => 45,
        }
    }

    /// The error that carries the numeric code `c`, if any.
    pub fn from_code(c: u32) -> (r: Option<EscrowError>)
        ensures
            match r {
                Some(e) => e.spec_code() == c,
                None => forall|e: EscrowError| e.spec_code() != c,
            },
    {
        match c {
            44 => Some(EscrowError::EscrowNotExpired),
            45 => Some(EscrowError::EscrowAlreadyRefunded),
            _ => None,
        }
    }
}

} // verus!
