use vstd::prelude::*;

verus! {

/// An account, known to the library by a stable numeric identifier.
#[derive(Clone, Copy, Debug, PartialEq, Eq, Structural)]
pub struct Address(pub u64);

/// A fundraising campaign with a fee policy, staking and affiliate totals.
#[derive(Clone, Debug, PartialEq, Eq)]
pub struct Campaign {
    pub id: u64,
    pub owner: Address,
    pub name: Vec<u8>,
    pub charity: bool,
    pub fee_waiver_bps: u32,
    pub discount_bps: u32,
    pub stake_required: i128,
    pub total_raised: i128,
    pub total_staked: i128,
    pub total_slashed: i128,
    pub total_commissions_paid: i128,
    pub active: bool,
    pub created_at: u64,
}

/// The value of a [`Campaign`], with its name as a byte sequence.
#[verifier::ext_equal]
pub struct CampaignModel {
    pub id: u64,
    pub owner: Address,
    pub name: Seq<u8>,
    pub charity: bool,
    pub fee_waiver_bps: u32,
    pub discount_bps: u32,
    pub stake_required: i128,
    pub total_raised: i128,
    pub total_staked: i128,
    pub total_slashed: i128,
    pub total_commissions_paid: i128,
    pub active: bool,
    pub created_at: u64,
}

impl View for Campaign {
    type V = CampaignModel;

    open spec fn view(&self) -> CampaignModel {
        CampaignModel {
            id: self.id,
            owner: self.owner,
            name: self.name@,
            charity: self.charity,
            fee_waiver_bps: self.fee_waiver_bps,
            discount_bps: self.discount_bps,
            stake_required: self.stake_required,
            total_raised: self.total_raised,
            total_staked: self.total_staked,
            total_slashed: self.total_slashed,
            total_commissions_paid: self.total_commissions_paid,
            active: self.active,
            created_at: self.created_at,
        }
    }
}

/// What one account has contributed to, staked on and lost in a campaign.
#[derive(Clone, Copy, Debug, PartialEq, Eq, Structural)]
pub struct CampaignParticipant {
    pub campaign_id: u64,
    pub participant: Address,
    pub contributed: i128,
    pub staked: i128,
    pub slashed: i128,
    pub commissions_paid: i128,
    pub score: i128,
}

/// An affiliate registered on a campaign, with its commission rate and payouts.
#[derive(Clone, Copy, Debug, PartialEq, Eq, Structural)]
pub struct CampaignAffiliate {
    pub campaign_id: u64,
    pub affiliate: Address,
    pub commission_bps: u32,
    pub total_paid: i128,
    pub active: bool,
}

/// Whether a stretch goal has been reached.
#[derive(Clone, Copy, Debug, PartialEq, Eq, Structural)]
pub enum StretchGoalStatus {
    Pending,
    Unlocked,
}

/// An extra funding target of a crowdfund, with the reward it unlocks.
#[derive(Clone, Debug, PartialEq, Eq)]
pub struct StretchGoal {
    pub id: u64,
    pub crowdfund_id: u64,
    pub target_amount: i128,
    pub description: Vec<u8>,
    pub reward_description: Vec<u8>,
    pub status: StretchGoalStatus,
    pub created_at: u64,
    pub unlocked_at: u64,
}

/// The value of a [`StretchGoal`], with its texts as byte sequences.
#[verifier::ext_equal]
pub struct StretchGoalModel {
    pub id: u64,
    pub crowdfund_id: u64,
    pub target_amount: i128,
    pub description: Seq<u8>,
    pub reward_description: Seq<u8>,
    pub status: StretchGoalStatus,
    pub created_at: u64,
    pub unlocked_at: u64,
}

impl View for StretchGoal {
    type V = StretchGoalModel;

    open spec fn view(&self) -> StretchGoalModel {
        StretchGoalModel {
            id: self.id,
            crowdfund_id: self.crowdfund_id,
            target_amount: self.target_amount,
            description: self.description@,
            reward_description: self.reward_description@,
            status: self.status,
            created_at: self.created_at,
            unlocked_at: self.unlocked_at,
        }
    }
}

/// The reward a backer is owed for an unlocked stretch goal.
#[derive(Clone, Copy, Debug, PartialEq, Eq, Structural)]
pub struct StretchGoalReward {
    pub goal_id: u64,
    pub backer: Address,
    pub reward_amount: i128,
    pub claimed: bool,
    pub created_at: u64,
}

/// A named vesting timeline: a cliff, a vesting period and the share unlocked.
#[derive(Clone, Debug, PartialEq, Eq)]
pub struct VestingTimeline {
    pub id: u64,
    pub name: Vec<u8>,
    pub cliff_duration: u64,
    pub vesting_duration: u64,
    pub unlock_percentage: i128,
    pub admin: Address,
    pub created_at: u64,
}

/// The value of a [`VestingTimeline`], with its name as a byte sequence.
#[verifier::ext_equal]
pub struct VestingTimelineModel {
    pub id: u64,
    pub name: Seq<u8>,
    pub cliff_duration: u64,
    pub vesting_duration: u64,
    pub unlock_percentage: i128,
    pub admin: Address,
    pub created_at: u64,
}

impl View for VestingTimeline {
    type V = VestingTimelineModel;

    open spec fn view(&self) -> VestingTimelineModel {
        VestingTimelineModel {
            id: self.id,
            name: self.name@,
            cliff_duration: self.cliff_duration,
            vesting_duration: self.vesting_duration,
            unlock_percentage: self.unlock_percentage,
            admin: self.admin,
            created_at: self.created_at,
        }
    }
}

/// Ties a crowdfund to a vesting timeline and the amount that vests.
#[derive(Clone, Copy, Debug, PartialEq, Eq, Structural)]
pub struct CrowdfundVestingConfig {
    pub crowdfund_id: u64,
    pub timeline_id: u64,
    pub total_vesting_amount: i128,
    pub configured_at: u64,
}

/// One tranche of a vesting timeline.
#[derive(Clone, Copy, Debug, PartialEq, Eq, Structural)]
pub struct VestingSchedule {
    pub timeline_id: u64,
    pub tranche_index: u64,
    pub unlock_amount: i128,
    pub unlock_timestamp: u64,
    pub released: bool,
}

/// A merchant's auto-withdrawal threshold for one token.
#[derive(Clone, Copy, Debug, PartialEq, Eq, Structural)]
pub struct AutoWithdrawalThreshold {
    pub token: Address,
    pub threshold: i128,
}

/// The part of a merchant record that auto-withdrawal reads and writes.
#[derive(Clone, Debug, PartialEq, Eq)]
pub struct Merchant {
    pub id: u64,
    pub address: Address,
    pub active: bool,
    pub auto_withdrawal_thresholds: Vec<AutoWithdrawalThreshold>,
    pub auto_withdrawal_recipient: Option<Address>,
}

/// Who initialised the contract, and when.
#[derive(Clone, Copy, Debug, PartialEq, Eq, Structural)]
pub struct ContractInfo {
    pub admin: Address,
    pub timestamp: u64,
}

/// A copy of the bytes of `v`.
pub fn copy_bytes(v: &Vec<u8>) -> (r: Vec<u8>)
    ensures
        r@ == v@,
{
    let mut r: Vec<u8> = Vec::new();
    let mut i: usize = 0;
    while i < v.len()
        invariant
            i <= v.len(),
            r@ == v@.take(i as int),
        decreases v.len() - i,
    {
        r.push(v[i]);
        assert(v@.take(i as int).push(v@[i as int]) =~= v@.take(i as int + 1));
        i = i + 1;
    }
    assert(v@.take(v.len() as int) =~= v@);
    r
}

} // verus!
