use vstd::prelude::*;
use crate::types::Address;

verus! {

/// An event the contract publishes when an operation succeeds.
#[derive(Clone, Debug, PartialEq, Eq)]
pub enum ShadeEvent {
    Initialized { admin: Address, timestamp: u64 },
    PlatformAccountSet { admin: Address, account: Address, timestamp: u64 },
    ContractPaused { admin: Address, timestamp: u64 },
    ContractUnpaused { admin: Address, timestamp: u64 },
    CampaignCreated {
        campaign_id: u64,
        owner: Address,
        name: Vec<u8>,
        charity: bool,
        fee_waiver_bps: u32,
        discount_bps: u32,
        timestamp: u64,
    },
    CampaignFeePolicyConfigured {
        campaign_id: u64,
        caller: Address,
        fee_waiver_bps: u32,
        discount_bps: u32,
        timestamp: u64,
    },
    CampaignContributionRecorded {
        campaign_id: u64,
        contributor: Address,
        amount: i128,
        total_raised: i128,
        timestamp: u64,
    },
    CampaignStaked {
        campaign_id: u64,
        participant: Address,
        amount: i128,
        total_staked: i128,
        timestamp: u64,
    },
    CampaignSlashed {
        campaign_id: u64,
        participant: Address,
        amount: i128,
        remaining_stake: i128,
        timestamp: u64,
    },
    AffiliateRegistered { campaign_id: u64, affiliate: Address, commission_bps: u32, timestamp: u64 },
    AffiliateCommissionPaid {
        campaign_id: u64,
        affiliate: Address,
        amount: i128,
        total_paid: i128,
        timestamp: u64,
    },
    StretchGoalCreated {
        goal_id: u64,
        crowdfund_id: u64,
        target_amount: i128,
        description_len: u64,
        timestamp: u64,
    },
    StretchGoalUnlocked { goal_id: u64, crowdfund_id: u64, current_amount: i128, timestamp: u64 },
    StretchGoalRewardDistributed {
        goal_id: u64,
        backer: Address,
        reward_amount: i128,
        timestamp: u64,
    },
    StretchGoalRewardClaimed { goal_id: u64, backer: Address, reward_amount: i128, timestamp: u64 },
    VestingTimelineCreated {
        timeline_id: u64,
        name: Vec<u8>,
        cliff_duration: u64,
        vesting_duration: u64,
        admin: Address,
        timestamp: u64,
    },
    VestingTimelineUpdated {
        timeline_id: u64,
        cliff_duration: u64,
        vesting_duration: u64,
        admin: Address,
        timestamp: u64,
    },
    CrowdfundVestingConfigured {
        crowdfund_id: u64,
        timeline_id: u64,
        total_vesting_amount: i128,
        admin: Address,
        timestamp: u64,
    },
    VestingScheduleReleased {
        timeline_id: u64,
        tranche_index: u64,
        unlock_amount: i128,
        timestamp: u64,
    },
    AutoWithdrawalThresholdSet { merchant_id: u64, token: Address, threshold: i128 },
    AutoWithdrawalRecipientSet { merchant_id: u64, recipient: Address },
    AutoWithdrawalTriggered { merchant_id: u64, token: Address, amount: i128, recipient: Address },
}

} // verus!
