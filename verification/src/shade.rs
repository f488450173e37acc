use vstd::prelude::*;
use std::collections::HashMap;
use crate::errors::ContractError;
use crate::events::ShadeEvent;
use crate::totals::{ParticipantAmount, sum_over};
use crate::auto_withdrawal::{self, threshold_for, thresholds_with};
use crate::types::{
    Merchant,
    Address, Campaign, CampaignAffiliate, CampaignModel, CampaignParticipant, ContractInfo,
    CrowdfundVestingConfig, StretchGoal, StretchGoalModel, StretchGoalReward, StretchGoalStatus,
    VestingSchedule, VestingTimeline, VestingTimelineModel,
};

verus! {

broadcast use vstd::std_specs::hash::group_hash_axioms;

/// A campaign together with its participants (in the order they first appeared) and affiliates.
pub struct CampaignEntry {
    pub campaign: Campaign,
    pub participant_ids: Vec<Address>,
    pub participants: HashMap<u64, CampaignParticipant>,
    pub affiliates: HashMap<u64, CampaignAffiliate>,
}

/// The value of a [`CampaignEntry`]; participants and affiliates are keyed by their address.
#[verifier::ext_equal]
pub struct CampaignEntryModel {
    pub campaign: CampaignModel,
    pub participant_ids: Seq<Address>,
    pub participants: Map<u64, CampaignParticipant>,
    pub affiliates: Map<u64, CampaignAffiliate>,
}

impl View for CampaignEntry {
    type V = CampaignEntryModel;

    open spec fn view(&self) -> CampaignEntryModel {
        CampaignEntryModel {
            campaign: self.campaign@,
            participant_ids: self.participant_ids@,
            participants: self.participants@,
            affiliates: self.affiliates@,
        }
    }
}

/// A stretch goal and the reward distributed for it, if any.
pub struct StretchGoalEntry {
    pub goal: StretchGoal,
    pub reward: Option<StretchGoalReward>,
}

/// The value of a [`StretchGoalEntry`].
#[verifier::ext_equal]
pub struct StretchGoalEntryModel {
    pub goal: StretchGoalModel,
    pub reward: Option<StretchGoalReward>,
}

impl View for StretchGoalEntry {
    type V = StretchGoalEntryModel;

    open spec fn view(&self) -> StretchGoalEntryModel {
        StretchGoalEntryModel { goal: self.goal@, reward: self.reward }
    }
}

/// A vesting timeline and its tranches, keyed by tranche index.
pub struct TimelineEntry {
    pub timeline: VestingTimeline,
    pub schedules: HashMap<u64, VestingSchedule>,
}

/// The value of a [`TimelineEntry`].
#[verifier::ext_equal]
pub struct TimelineEntryModel {
    pub timeline: VestingTimelineModel,
    pub schedules: Map<u64, VestingSchedule>,
}

impl View for TimelineEntry {
    type V = TimelineEntryModel;

    open spec fn view(&self) -> TimelineEntryModel {
        TimelineEntryModel { timeline: self.timeline@, schedules: self.schedules@ }
    }
}

/// The contract's state. Campaigns, stretch goals and vesting timelines are numbered
/// from 1 in creation order: the record with id `i` is at position `i - 1`.
pub struct Shade {
    pub admin: Option<Address>,
    pub platform_account: Option<Address>,
    pub info: Option<ContractInfo>,
    pub paused: bool,
    pub campaigns: Vec<CampaignEntry>,
    pub stretch_goals: Vec<StretchGoalEntry>,
    pub timelines: Vec<TimelineEntry>,
    pub vesting_configs: HashMap<u64, CrowdfundVestingConfig>,
}

/// The value of the contract's state.
#[verifier::ext_equal]
pub struct ShadeModel {
    pub admin: Option<Address>,
    pub platform_account: Option<Address>,
    pub info: Option<ContractInfo>,
    pub paused: bool,
    pub campaigns: Seq<CampaignEntryModel>,
    pub stretch_goals: Seq<StretchGoalEntryModel>,
    pub timelines: Seq<TimelineEntryModel>,
    pub vesting_configs: Map<u64, CrowdfundVestingConfig>,
}

impl View for Shade {
    type V = ShadeModel;

    open spec fn view(&self) -> ShadeModel {
        ShadeModel {
            admin: self.admin,
            platform_account: self.platform_account,
            info: self.info,
            paused: self.paused,
            campaigns: campaign_entries_view(self.campaigns@),
            stretch_goals: stretch_goal_entries_view(self.stretch_goals@),
            timelines: timeline_entries_view(self.timelines@),
            vesting_configs: self.vesting_configs@,
        }
    }
}

/// The values of a sequence of campaign entries.
pub open spec fn campaign_entries_view(s: Seq<CampaignEntry>) -> Seq<CampaignEntryModel> {
    s.map_values(|e: CampaignEntry| e@)
}

/// The values of a sequence of stretch-goal entries.
pub open spec fn stretch_goal_entries_view(s: Seq<StretchGoalEntry>) -> Seq<StretchGoalEntryModel> {
    s.map_values(|e: StretchGoalEntry| e@)
}

/// The values of a sequence of timeline entries.
pub open spec fn timeline_entries_view(s: Seq<TimelineEntry>) -> Seq<TimelineEntryModel> {
    s.map_values(|e: TimelineEntry| e@)
}

/// The value of a sequence of campaign entries has one value per entry.
pub proof fn lemma_campaign_entries_view_len(s: Seq<CampaignEntry>)
    ensures
        campaign_entries_view(s).len() == s.len(),
{
}

/// Changing one campaign entry changes only its value.
pub proof fn lemma_campaign_entries_view_update(s: Seq<CampaignEntry>, t: Seq<CampaignEntry>, i: int)
    requires
        0 <= i < s.len(),
        t.len() == s.len(),
        forall|j: int| 0 <= j < s.len() && j != i ==> t[j] == s[j],
    ensures
        campaign_entries_view(t) == campaign_entries_view(s).update(i, t[i]@),
        campaign_entries_view(s)[i] == s[i]@,
        campaign_entries_view(s).len() == s.len(),
        campaign_entries_view(t).len() == t.len(),
{
    assert(campaign_entries_view(t) =~= campaign_entries_view(s).update(i, t[i]@));
}

/// The value of a sequence of stretch-goal entries has one value per entry.
pub proof fn lemma_stretch_goal_entries_view_len(s: Seq<StretchGoalEntry>)
    ensures
        stretch_goal_entries_view(s).len() == s.len(),
{
}

/// Changing one stretch-goal entry changes only its value.
pub proof fn lemma_stretch_goal_entries_view_update(
    s: Seq<StretchGoalEntry>,
    t: Seq<StretchGoalEntry>,
    i: int,
)
    requires
        0 <= i < s.len(),
        t.len() == s.len(),
        forall|j: int| 0 <= j < s.len() && j != i ==> t[j] == s[j],
    ensures
        stretch_goal_entries_view(t) == stretch_goal_entries_view(s).update(i, t[i]@),
        stretch_goal_entries_view(s)[i] == s[i]@,
        stretch_goal_entries_view(s).len() == s.len(),
        stretch_goal_entries_view(t).len() == t.len(),
{
    assert(stretch_goal_entries_view(t) =~= stretch_goal_entries_view(s).update(i, t[i]@));
}

/// The value of a sequence of timeline entries has one value per entry.
pub proof fn lemma_timeline_entries_view_len(s: Seq<TimelineEntry>)
    ensures
        timeline_entries_view(s).len() == s.len(),
{
}

/// Changing one timeline entry changes only its value.
pub proof fn lemma_timeline_entries_view_update(s: Seq<TimelineEntry>, t: Seq<TimelineEntry>, i: int)
    requires
        0 <= i < s.len(),
        t.len() == s.len(),
        forall|j: int| 0 <= j < s.len() && j != i ==> t[j] == s[j],
    ensures
        timeline_entries_view(t) == timeline_entries_view(s).update(i, t[i]@),
        timeline_entries_view(s)[i] == s[i]@,
        timeline_entries_view(s).len() == s.len(),
        timeline_entries_view(t).len() == t.len(),
{
    assert(timeline_entries_view(t) =~= timeline_entries_view(s).update(i, t[i]@));
}

/// A participant record as it stands before its first contribution or stake.
pub open spec fn fresh_participant(campaign_id: u64, a: Address) -> CampaignParticipant {
    CampaignParticipant {
        campaign_id,
        participant: a,
        contributed: 0,
        staked: 0,
        slashed: 0,
        commissions_paid: 0,
        score: 0,
    }
}

/// A participant's record is consistent: its amounts are nonnegative and its score is
/// what it has contributed plus what it has at stake.
pub open spec fn participant_wf(p: CampaignParticipant, campaign_id: u64, key: u64) -> bool {
    &&& p.campaign_id == campaign_id
    &&& p.participant.0 == key
    &&& p.contributed >= 0
    &&& p.staked >= 0
    &&& p.slashed >= 0
    &&& p.score == p.contributed + p.staked
}

/// An affiliate record is consistent with its campaign.
pub open spec fn affiliate_wf(a: CampaignAffiliate, campaign_id: u64, key: u64, paid_total: i128) -> bool {
    &&& a.campaign_id == campaign_id
    &&& a.affiliate.0 == key
    &&& a.commission_bps <= 10_000
    &&& 0 <= a.total_paid <= paid_total
}

impl CampaignEntryModel {
    /// The campaign with id `id` is consistent: its participant list and records agree, and
    /// its raised, staked and slashed totals are the sums over its participants.
    pub open spec fn wf(self, id: u64) -> bool {
        &&& self.campaign.id == id
        &&& self.campaign.fee_waiver_bps <= 10_000
        &&& self.campaign.discount_bps <= 10_000
        &&& self.participant_ids.no_duplicates()
        &&& forall|i: int|
            0 <= i < self.participant_ids.len() ==> self.participants.contains_key(
                #[trigger] self.participant_ids[i].0,
            )
        &&& forall|k: u64| #[trigger]
            self.participants.contains_key(k) ==> self.participant_ids.contains(Address(k))
        &&& forall|k: u64| #[trigger]
            self.participants.contains_key(k) ==> participant_wf(self.participants[k], id, k)
        &&& self.campaign.total_raised == sum_over(
            self.participant_ids,
            self.participants,
            ParticipantAmount::Contributed,
        )
        &&& self.campaign.total_staked == sum_over(
            self.participant_ids,
            self.participants,
            ParticipantAmount::Staked,
        )
        &&& self.campaign.total_slashed == sum_over(
            self.participant_ids,
            self.participants,
            ParticipantAmount::Slashed,
        )
        &&& self.campaign.total_commissions_paid >= 0
        &&& forall|k: u64| #[trigger]
            self.affiliates.contains_key(k) ==> affiliate_wf(
                self.affiliates[k],
                id,
                k,
                self.campaign.total_commissions_paid,
            )
    }

    /// The record of participant `a`, or a fresh one if `a` has none yet.
    pub open spec fn participant_of(self, campaign_id: u64, a: Address) -> CampaignParticipant {
        if self.participants.contains_key(a.0) {
            self.participants[a.0]
        } else {
            fresh_participant(campaign_id, a)
        }
    }

    /// Stores participant record `p`, listing `p`'s address if it is not listed yet.
    pub open spec fn store_participant(self, p: CampaignParticipant) -> CampaignEntryModel {
        CampaignEntryModel {
            participant_ids: if self.participant_ids.contains(p.participant) {
                self.participant_ids
            } else {
                self.participant_ids.push(p.participant)
            },
            participants: self.participants.insert(p.participant.0, p),
            ..self
        }
    }
}

impl StretchGoalEntryModel {
    /// The stretch goal with id `id` is consistent: a reward exists only for an unlocked goal.
    pub open spec fn wf(self, id: u64) -> bool {
        &&& self.goal.id == id
        &&& self.goal.target_amount > 0
        &&& self.reward matches Some(r) ==> {
            &&& r.goal_id == id
            &&& r.reward_amount > 0
            &&& self.goal.status == StretchGoalStatus::Unlocked
        }
    }
}

impl TimelineEntryModel {
    /// The vesting timeline with id `id` is consistent, and so are its tranches.
    pub open spec fn wf(self, id: u64) -> bool {
        &&& self.timeline.id == id
        &&& self.timeline.cliff_duration > 0
        &&& self.timeline.vesting_duration > 0
        &&& 0 < self.timeline.unlock_percentage <= 10_000
        &&& forall|k: u64| #[trigger]
            self.schedules.contains_key(k) ==> {
                &&& self.schedules[k].timeline_id == id
                &&& self.schedules[k].tranche_index == k
                &&& self.schedules[k].unlock_amount > 0
            }
    }
}

impl ShadeModel {
    /// The whole state is consistent.
    pub open spec fn wf(self) -> bool {
        &&& self.admin.is_some() == self.info.is_some()
        &&& self.info matches Some(i) ==> self.admin == Some(i.admin)
        &&& forall|i: int|
            0 <= i < self.campaigns.len() ==> (#[trigger] self.campaigns[i]).wf((i + 1) as u64)
        &&& forall|i: int|
            0 <= i < self.stretch_goals.len() ==> (#[trigger] self.stretch_goals[i]).wf(
                (i + 1) as u64,
            )
        &&& forall|i: int|
            0 <= i < self.timelines.len() ==> (#[trigger] self.timelines[i]).wf((i + 1) as u64)
        &&& forall|k: u64| #[trigger]
            self.vesting_configs.contains_key(k) ==> {
                &&& self.vesting_configs[k].crowdfund_id == k
                &&& 1 <= self.vesting_configs[k].timeline_id <= self.timelines.len()
                &&& self.vesting_configs[k].total_vesting_amount > 0
            }
    }

    /// Campaign `id` exists.
    pub open spec fn has_campaign(self, id: u64) -> bool {
        1 <= id <= self.campaigns.len()
    }

    /// The entry of campaign `id`.
    pub open spec fn campaign_entry(self, id: u64) -> CampaignEntryModel {
        self.campaigns[id - 1]
    }

    /// The state with the entry of campaign `id` replaced by `e`.
    pub open spec fn with_campaign_entry(self, id: u64, e: CampaignEntryModel) -> ShadeModel {
        ShadeModel { campaigns: self.campaigns.update(id - 1, e), ..self }
    }

    /// Stretch goal `id` exists.
    pub open spec fn has_stretch_goal(self, id: u64) -> bool {
        1 <= id <= self.stretch_goals.len()
    }

    /// The entry of stretch goal `id`.
    pub open spec fn stretch_goal_entry(self, id: u64) -> StretchGoalEntryModel {
        self.stretch_goals[id - 1]
    }

    /// The state with the entry of stretch goal `id` replaced by `e`.
    pub open spec fn with_stretch_goal_entry(self, id: u64, e: StretchGoalEntryModel) -> ShadeModel {
        ShadeModel { stretch_goals: self.stretch_goals.update(id - 1, e), ..self }
    }

    /// Vesting timeline `id` exists.
    pub open spec fn has_timeline(self, id: u64) -> bool {
        1 <= id <= self.timelines.len()
    }

    /// The entry of vesting timeline `id`.
    pub open spec fn timeline_entry(self, id: u64) -> TimelineEntryModel {
        self.timelines[id - 1]
    }

    /// The state with the entry of vesting timeline `id` replaced by `e`.
    pub open spec fn with_timeline_entry(self, id: u64, e: TimelineEntryModel) -> ShadeModel {
        ShadeModel { timelines: self.timelines.update(id - 1, e), ..self }
    }

    /// The error with which initialising the contract is refused, or `None` when it may be.
    pub open spec fn initialize_refusal(self) -> Option<ContractError> {
        if self.admin is Some {
            Some(ContractError::AlreadyInitialized)
        } else {
            None
        }
    }

    /// The state after initialising with `admin` at time `now`: `admin` is both the admin and
    /// the platform account.
    pub open spec fn initialized(self, admin: Address, now: u64) -> ShadeModel {
        ShadeModel {
            admin: Some(admin),
            platform_account: Some(admin),
            info: Some(ContractInfo { admin, timestamp: now }),
            ..self
        }
    }

    /// The outcome of an admin-only operation's authorisation: `NotInitialized` when no admin
    /// is set, `NotAuthorized` when `caller` is not the admin, and `None` when it may proceed.
    pub open spec fn admin_check(self, caller: Address) -> Option<ContractError> {
        match self.admin {
            None => Some(ContractError::NotInitialized),
            Some(a) => if a == caller {
                None
            } else {
                Some(ContractError::NotAuthorized)
            },
        }
    }
}

/// Replacing a consistent campaign entry keeps the state consistent.
pub proof fn lemma_campaign_entry_update_wf(m: ShadeModel, id: u64, e: CampaignEntryModel)
    requires
        m.wf(),
        m.has_campaign(id),
        e.wf(id),
    ensures
        m.with_campaign_entry(id, e).wf(),
{
    let m2 = m.with_campaign_entry(id, e);
    assert forall|i: int| 0 <= i < m2.campaigns.len() implies (#[trigger] m2.campaigns[i]).wf(
        (i + 1) as u64,
    ) by {
        if i != id - 1 {
            assert(m2.campaigns[i] == m.campaigns[i]);
        }
    }
}

/// Appending a consistent campaign entry keeps the state consistent.
pub proof fn lemma_campaign_entry_push_wf(m: ShadeModel, e: CampaignEntryModel)
    requires
        m.wf(),
        e.wf((m.campaigns.len() + 1) as u64),
    ensures
        (ShadeModel { campaigns: m.campaigns.push(e), ..m }).wf(),
{
    let m2 = ShadeModel { campaigns: m.campaigns.push(e), ..m };
    assert forall|i: int| 0 <= i < m2.campaigns.len() implies (#[trigger] m2.campaigns[i]).wf(
        (i + 1) as u64,
    ) by {
        if i < m.campaigns.len() {
            assert(m2.campaigns[i] == m.campaigns[i]);
        }
    }
}

/// Replacing a consistent stretch-goal entry keeps the state consistent.
pub proof fn lemma_stretch_goal_entry_update_wf(m: ShadeModel, id: u64, e: StretchGoalEntryModel)
    requires
        m.wf(),
        m.has_stretch_goal(id),
        e.wf(id),
    ensures
        m.with_stretch_goal_entry(id, e).wf(),
{
    let m2 = m.with_stretch_goal_entry(id, e);
    assert forall|i: int| 0 <= i < m2.stretch_goals.len() implies (
    #[trigger] m2.stretch_goals[i]).wf((i + 1) as u64) by {
        if i != id - 1 {
            assert(m2.stretch_goals[i] == m.stretch_goals[i]);
        }
    }
}

/// Replacing a consistent timeline entry keeps the state consistent.
pub proof fn lemma_timeline_entry_update_wf(m: ShadeModel, id: u64, e: TimelineEntryModel)
    requires
        m.wf(),
        m.has_timeline(id),
        e.wf(id),
    ensures
        m.with_timeline_entry(id, e).wf(),
{
    let m2 = m.with_timeline_entry(id, e);
    assert forall|i: int| 0 <= i < m2.timelines.len() implies (#[trigger] m2.timelines[i]).wf(
        (i + 1) as u64,
    ) by {
        if i != id - 1 {
            assert(m2.timelines[i] == m.timelines[i]);
        }
    }
}

impl Shade {
    /// The state is consistent.
    pub open spec fn wf(&self) -> bool {
        self@.wf()
    }

    /// A contract with nothing stored yet.
    pub fn new() -> (s: Shade)
        ensures
            s.wf(),
            s@.admin.is_none(),
            s@.platform_account.is_none(),
            s@.info.is_none(),
            !s@.paused,
            s@.campaigns.len() == 0,
            s@.stretch_goals.len() == 0,
            s@.timelines.len() == 0,
            s@.vesting_configs == Map::<u64, CrowdfundVestingConfig>::empty(),
    {
        Shade {
            admin: None,
            platform_account: None,
            info: None,
            paused: false,
            campaigns: Vec::new(),
            stretch_goals: Vec::new(),
            timelines: Vec::new(),
            vesting_configs: HashMap::new(),
        }
    }

    /// The admin, which `NotInitialized` reports missing.
    pub fn get_admin(&self) -> (r: Result<Address, ContractError>)
        ensures
            r == match self@.admin {
                Some(a) => Ok(a),
                None => Err(ContractError::NotInitialized),
            },
    {
        match self.admin {
            Some(a) => Ok(a),
            None => Err(ContractError::NotInitialized),
        }
    }

    /// Checks that `caller` is the admin, as admin-only operations do first.
    pub fn check_admin(&self, caller: Address) -> (r: Result<(), ContractError>)
        ensures
            r == match self@.admin_check(caller) {
                Some(e) => Err(e),
                None => Ok(()),
            },
    {
        let admin = self.get_admin()?;
        if admin != caller {
            return Err(ContractError::NotAuthorized);
        }
        Ok(())
    }

    /// Checks that the contract is not paused, as guarded operations do first.
    pub fn assert_not_paused(&self) -> (r: Result<(), ContractError>)
        ensures
            r == if self@.paused {
                Err(ContractError::ContractPaused)
            } else {
                Ok(())
            },
    {
        if self.paused {
            Err(ContractError::ContractPaused)
        } else {
            Ok(())
        }
    }

    /// Makes `admin` the contract's admin and platform account, at time `now`. A contract can
    /// be initialised only once.
    pub fn initialize(&mut self, admin: Address, now: u64) -> (r: Result<ShadeEvent, ContractError>)
        requires
            old(self).wf(),
        ensures
            final(self).wf(),
            match old(self)@.initialize_refusal() {
                Some(e) => r == Err::<ShadeEvent, ContractError>(e) && final(self)@ == old(self)@,
                None => r == Ok::<ShadeEvent, ContractError>(
                    ShadeEvent::Initialized { admin, timestamp: now },
                ) && final(self)@ == old(self)@.initialized(admin, now),
            },
    {
        if self.admin.is_some() {
            return Err(ContractError::AlreadyInitialized);
        }
        self.admin = Some(admin);
        self.platform_account = Some(admin);
        self.info = Some(ContractInfo { admin, timestamp: now });
        Ok(ShadeEvent::Initialized { admin, timestamp: now })
    }

    /// The account that receives platform fees, which `NotInitialized` reports missing.
    pub fn get_platform_account(&self) -> (r: Result<Address, ContractError>)
        ensures
            r == match self@.platform_account {
                Some(a) => Ok(a),
                None => Err(ContractError::NotInitialized),
            },
    {
        match self.platform_account {
            Some(a) => Ok(a),
            None => Err(ContractError::NotInitialized),
        }
    }

    /// Sets the account that receives platform fees; only the admin may, and not while paused.
    pub fn set_platform_account(&mut self, admin: Address, account: Address, now: u64) -> (r:
        Result<ShadeEvent, ContractError>)
        requires
            old(self).wf(),
        ensures
            final(self).wf(),
            old(self)@.paused ==> r == Err::<ShadeEvent, ContractError>(
                ContractError::ContractPaused,
            ),
            !old(self)@.paused ==> match old(self)@.admin_check(admin) {
                Some(e) => r == Err::<ShadeEvent, ContractError>(e),
                None => r == Ok::<ShadeEvent, ContractError>(
                    ShadeEvent::PlatformAccountSet { admin, account, timestamp: now },
                ) && final(self)@ == (ShadeModel { platform_account: Some(account), ..old(self)@ }),
            },
            r is Err ==> final(self)@ == old(self)@,
    {
        self.assert_not_paused()?;
        self.check_admin(admin)?;
        self.platform_account = Some(account);
        Ok(ShadeEvent::PlatformAccountSet { admin, account, timestamp: now })
    }

    /// Whether the contract is paused.
    pub fn is_paused(&self) -> (r: bool)
        ensures
            r == self@.paused,
    {
        self.paused
    }

    /// Pauses the contract; only the admin may, and only when it is not paused already.
    pub fn pause(&mut self, admin: Address, now: u64) -> (r: Result<ShadeEvent, ContractError>)
        requires
            old(self).wf(),
        ensures
            final(self).wf(),
            match old(self)@.admin_check(admin) {
                Some(e) => r == Err::<ShadeEvent, ContractError>(e),
                None => if old(self)@.paused {
                    r == Err::<ShadeEvent, ContractError>(ContractError::ContractPaused)
                } else {
                    r == Ok::<ShadeEvent, ContractError>(
                        ShadeEvent::ContractPaused { admin, timestamp: now },
                    ) && final(self)@ == (ShadeModel { paused: true, ..old(self)@ })
                },
            },
            r is Err ==> final(self)@ == old(self)@,
    {
        self.check_admin(admin)?;
        if self.paused {
            return Err(ContractError::ContractPaused);
        }
        self.paused = true;
        Ok(ShadeEvent::ContractPaused { admin, timestamp: now })
    }

    /// Unpauses the contract; only the admin may, and only when it is paused.
    pub fn unpause(&mut self, admin: Address, now: u64) -> (r: Result<ShadeEvent, ContractError>)
        requires
            old(self).wf(),
        ensures
            final(self).wf(),
            match old(self)@.admin_check(admin) {
                Some(e) => r == Err::<ShadeEvent, ContractError>(e),
                None => if !old(self)@.paused {
                    r == Err::<ShadeEvent, ContractError>(ContractError::ContractNotPaused)
                } else {
                    r == Ok::<ShadeEvent, ContractError>(
                        ShadeEvent::ContractUnpaused { admin, timestamp: now },
                    ) && final(self)@ == (ShadeModel { paused: false, ..old(self)@ })
                },
            },
            r is Err ==> final(self)@ == old(self)@,
    {
        self.check_admin(admin)?;
        if !self.paused {
            return Err(ContractError::ContractNotPaused);
        }
        self.paused = false;
        Ok(ShadeEvent::ContractUnpaused { admin, timestamp: now })
    }

    /// Sets `merchant`'s auto-withdrawal threshold for `token`, unless the contract is paused.
    pub fn set_auto_withdrawal_threshold(
        &self,
        merchant: &mut Merchant,
        token: Address,
        threshold: i128,
    ) -> (r: Result<ShadeEvent, ContractError>)
        ensures
            self@.paused ==> r == Err::<ShadeEvent, ContractError>(ContractError::ContractPaused),
            self@.paused ==> final(merchant).auto_withdrawal_thresholds@ == old(
                merchant,
            ).auto_withdrawal_thresholds@,
            !self@.paused ==> threshold < 0 ==> r == Err::<ShadeEvent, ContractError>(
                ContractError::InvalidAmount,
            ),
            !self@.paused && threshold >= 0 && !old(merchant).active ==> r == Err::<
                ShadeEvent,
                ContractError,
            >(ContractError::MerchantNotActive),
            !self@.paused && threshold >= 0 && old(merchant).active ==> r == Ok::<
                ShadeEvent,
                ContractError,
            >(
                ShadeEvent::AutoWithdrawalThresholdSet {
                    merchant_id: old(merchant).id,
                    token,
                    threshold,
                },
            ),
            final(merchant).auto_withdrawal_thresholds@ == if r is Ok {
                thresholds_with(old(merchant).auto_withdrawal_thresholds@, token, threshold)
            } else {
                old(merchant).auto_withdrawal_thresholds@
            },
            final(merchant).id == old(merchant).id,
            final(merchant).address == old(merchant).address,
            final(merchant).active == old(merchant).active,
            final(merchant).auto_withdrawal_recipient == old(merchant).auto_withdrawal_recipient,
    {
        self.assert_not_paused()?;
        auto_withdrawal::set_auto_withdrawal_threshold(merchant, token, threshold)
    }

    /// `merchant`'s auto-withdrawal threshold for `token`, if one is set.
    pub fn get_auto_withdrawal_threshold(&self, merchant: &Merchant, token: Address) -> (r: Option<
        i128,
    >)
        ensures
            r == threshold_for(merchant.auto_withdrawal_thresholds@, token),
    {
        auto_withdrawal::get_auto_withdrawal_threshold(merchant, token)
    }

    /// Sets the account `merchant`'s auto-withdrawals go to, unless the contract is paused.
    pub fn set_auto_withdrawal_recipient(&self, merchant: &mut Merchant, recipient: Address) -> (r:
        Result<ShadeEvent, ContractError>)
        ensures
            self@.paused ==> r == Err::<ShadeEvent, ContractError>(ContractError::ContractPaused),
            !self@.paused && !old(merchant).active ==> r == Err::<ShadeEvent, ContractError>(
                ContractError::MerchantNotActive,
            ),
            !self@.paused && old(merchant).active ==> r == Ok::<ShadeEvent, ContractError>(
                ShadeEvent::AutoWithdrawalRecipientSet { merchant_id: old(merchant).id, recipient },
            ),
            final(merchant).auto_withdrawal_recipient == if r is Ok {
                Some(recipient)
            } else {
                old(merchant).auto_withdrawal_recipient
            },
            final(merchant).id == old(merchant).id,
            final(merchant).address == old(merchant).address,
            final(merchant).active == old(merchant).active,
            final(merchant).auto_withdrawal_thresholds@ == old(merchant).auto_withdrawal_thresholds@,
    {
        self.assert_not_paused()?;
        auto_withdrawal::set_auto_withdrawal_recipient(merchant, recipient)
    }

    /// The account `merchant`'s auto-withdrawals go to, if one is set.
    pub fn get_auto_withdrawal_recipient(&self, merchant: &Merchant) -> (r: Option<Address>)
        ensures
            r == merchant.auto_withdrawal_recipient,
    {
        auto_withdrawal::get_auto_withdrawal_recipient(merchant)
    }
}

} // verus!
