use vstd::prelude::*;
use crate::errors::ContractError;
use crate::events::ShadeEvent;
use crate::shade::{
    Shade, ShadeModel, StretchGoalEntry, StretchGoalEntryModel,
    lemma_stretch_goal_entries_view_update, lemma_stretch_goal_entry_update_wf,
    lemma_stretch_goal_entries_view_len,
};
use crate::types::{
    Address, StretchGoal, StretchGoalModel, StretchGoalReward, StretchGoalStatus, copy_bytes,
};

verus! {

/// The entry of a newly created stretch goal.
pub open spec fn new_stretch_goal_entry(
    id: u64,
    crowdfund_id: u64,
    target_amount: i128,
    description: Seq<u8>,
    reward_description: Seq<u8>,
    now: u64,
) -> StretchGoalEntryModel {
    StretchGoalEntryModel {
        goal: StretchGoalModel {
            id,
            crowdfund_id,
            target_amount,
            description,
            reward_description,
            status: StretchGoalStatus::Pending,
            created_at: now,
            unlocked_at: 0,
        },
        reward: None,
    }
}

/// The position of stretch goal `goal_id`, if it exists.
fn stretch_goal_index(env: &Shade, goal_id: u64) -> (r: Option<usize>)
    ensures
        match r {
            Some(i) => env@.has_stretch_goal(goal_id) && i == goal_id - 1 && i
                < env.stretch_goals@.len() && env@.stretch_goals[i as int]
                == env.stretch_goals@[i as int]@,
            None => !env@.has_stretch_goal(goal_id),
        },
{
    if goal_id >= 1 && goal_id <= env.stretch_goals.len() as u64 {
        let i = (goal_id - 1) as usize;
        proof {
            lemma_stretch_goal_entries_view_update(env.stretch_goals@, env.stretch_goals@, i as int);
        }
        Some(i)
    } else {
        proof {
            lemma_stretch_goal_entries_view_len(env.stretch_goals@);
        }
        None
    }
}

/// The number of stretch goals created so far, which is also the id of the latest.
fn get_stretch_goal_count(env: &Shade) -> (n: u64)
    ensures
        n == env@.stretch_goals.len(),
{
    proof {
        lemma_stretch_goal_entries_view_len(env.stretch_goals@);
    }
    env.stretch_goals.len() as u64
}

/// Creates a pending stretch goal of crowdfund `crowdfund_id`, numbered one past the last.
/// The target must be positive and both texts non-empty. `merchant` is the account that
/// authorised the call.
pub fn create_stretch_goal(
    env: &mut Shade,
    merchant: Address,
    crowdfund_id: u64,
    target_amount: i128,
    description: Vec<u8>,
    reward_description: Vec<u8>,
    now: u64,
) -> (r: Result<(u64, ShadeEvent), ContractError>)
    requires
        old(env).wf(),
        old(env)@.stretch_goals.len() < u64::MAX,
    ensures
        final(env).wf(),
        target_amount <= 0 ==> r matches Err(ContractError::InvalidAmount),
        target_amount > 0 && (description@.len() == 0 || reward_description@.len() == 0)
            ==> r matches Err(ContractError::InvalidDescription),
        r is Err ==> final(env)@ == old(env)@,
        r matches Ok((gid, _)) ==> {
            let g = final(env)@.stretch_goal_entry(gid);
            &&& final(env)@.has_stretch_goal(gid)
            &&& g.goal.id == gid
            &&& g.goal.crowdfund_id == crowdfund_id
            &&& g.goal.target_amount == target_amount
            &&& g.goal.description == description@
            &&& g.goal.reward_description == reward_description@
            &&& g.goal.status == StretchGoalStatus::Pending
            &&& g.goal.created_at == now
            &&& g.reward is None
        },
        target_amount > 0 && description@.len() > 0 && reward_description@.len() > 0 ==> {
            let id = (old(env)@.stretch_goals.len() + 1) as u64;
            &&& r matches Ok((gid, ev)) && gid == id && ev == (ShadeEvent::StretchGoalCreated {
                goal_id: id,
                crowdfund_id,
                target_amount,
                description_len: description@.len() as u64,
                timestamp: now,
            })
            &&& final(env)@ == ShadeModel {
                stretch_goals: old(env)@.stretch_goals.push(
                    new_stretch_goal_entry(
                        id,
                        crowdfund_id,
                        target_amount,
                        description@,
                        reward_description@,
                        now,
                    ),
                ),
                ..old(env)@
            }
        },
{
    if target_amount <= 0 {
        return Err(ContractError::InvalidAmount);
    }
    if description.len() == 0 || reward_description.len() == 0 {
        return Err(ContractError::InvalidDescription);
    }
    let goal_id = get_stretch_goal_count(env) + 1;
    let description_len = description.len() as u64;
    let ghost d = description@;
    let ghost rd = reward_description@;
    let ghost m0 = env@;
    let entry = StretchGoalEntry {
        goal: StretchGoal {
            id: goal_id,
            crowdfund_id,
            target_amount,
            description,
            reward_description,
            status: StretchGoalStatus::Pending,
            created_at: now,
            unlocked_at: 0,
        },
        reward: None,
    };
    let ghost ev = entry@;
    env.stretch_goals.push(entry);
    proof {
        let e = new_stretch_goal_entry(goal_id, crowdfund_id, target_amount, d, rd, now);
        assert(ev =~= e);
        lemma_stretch_goal_entries_view_len(old(env).stretch_goals@);
        lemma_stretch_goal_entries_view_len(env.stretch_goals@);
        assert(env@.stretch_goals =~= m0.stretch_goals.push(e));
        let m2 = env@;
        assert forall|i: int| 0 <= i < m2.stretch_goals.len() implies (
        #[trigger] m2.stretch_goals[i]).wf((i + 1) as u64) by {
            if i < m0.stretch_goals.len() {
                assert(m2.stretch_goals[i] == m0.stretch_goals[i]);
            }
        }
    }
    Ok(
        (
            goal_id,
            ShadeEvent::StretchGoalCreated {
                goal_id,
                crowdfund_id,
                target_amount,
                description_len,
                timestamp: now,
            },
        ),
    )
}

/// Stretch goal `goal_id`, or `StretchGoalNotFound`.
pub fn get_stretch_goal(env: &Shade, goal_id: u64) -> (r: Result<&StretchGoal, ContractError>)
    ensures
        env@.has_stretch_goal(goal_id) ==> (r matches Ok(g) && g@ == env@.stretch_goal_entry(
            goal_id,
        ).goal),
        !env@.has_stretch_goal(goal_id) ==> r matches Err(ContractError::StretchGoalNotFound),
{
    match stretch_goal_index(env, goal_id) {
        Some(idx) => Ok(&env.stretch_goals[idx].goal),
        None => Err(ContractError::StretchGoalNotFound),
    }
}


/// Stretch-goal entry `e` unlocked at time `now`.
pub open spec fn unlocked_entry(e: StretchGoalEntryModel, now: u64) -> StretchGoalEntryModel {
    StretchGoalEntryModel {
        goal: StretchGoalModel { status: StretchGoalStatus::Unlocked, unlocked_at: now, ..e.goal },
        ..e
    }
}

/// The error with which unlocking stretch goal `goal_id` at `current_amount` is refused, or
/// `None` when `admin` may unlock it.
pub open spec fn unlock_refusal(m: ShadeModel, admin: Address, goal_id: u64, current_amount: i128)
    -> Option<ContractError> {
    match m.admin_check(admin) {
        Some(e) => Some(e),
        None => if !m.has_stretch_goal(goal_id) {
            Some(ContractError::StretchGoalNotFound)
        } else if m.stretch_goal_entry(goal_id).goal.status != StretchGoalStatus::Pending {
            Some(ContractError::GoalAlreadyUnlocked)
        } else if current_amount < m.stretch_goal_entry(goal_id).goal.target_amount {
            Some(ContractError::InvalidAmount)
        } else {
            None
        },
    }
}

/// Unlocks pending stretch goal `goal_id` once `current_amount` reaches its target; only the
/// admin may.
pub fn unlock_stretch_goal(
    env: &mut Shade,
    admin: Address,
    goal_id: u64,
    current_amount: i128,
    now: u64,
) -> (r: Result<ShadeEvent, ContractError>)
    requires
        old(env).wf(),
    ensures
        final(env).wf(),
        r is Err ==> final(env)@ == old(env)@,
        match unlock_refusal(old(env)@, admin, goal_id, current_amount) {
            Some(e) => r == Err::<ShadeEvent, ContractError>(e),
            None => r is Ok,
        },
        match old(env)@.admin_check(admin) {
            Some(e) => r == Err::<ShadeEvent, ContractError>(e),
            None => {
                let g = old(env)@.stretch_goal_entry(goal_id).goal;
                &&& !old(env)@.has_stretch_goal(goal_id) ==> r == Err::<ShadeEvent, ContractError>(
                    ContractError::StretchGoalNotFound,
                )
                &&& old(env)@.has_stretch_goal(goal_id) && g.status != StretchGoalStatus::Pending
                    ==> r == Err::<ShadeEvent, ContractError>(ContractError::GoalAlreadyUnlocked)
                &&& old(env)@.has_stretch_goal(goal_id) && g.status == StretchGoalStatus::Pending
                    && current_amount < g.target_amount ==> r == Err::<ShadeEvent, ContractError>(
                    ContractError::InvalidAmount,
                )
                &&& old(env)@.has_stretch_goal(goal_id) && g.status == StretchGoalStatus::Pending
                    && current_amount >= g.target_amount ==> {
                    &&& final(env)@ == old(env)@.with_stretch_goal_entry(
                        goal_id,
                        unlocked_entry(old(env)@.stretch_goal_entry(goal_id), now),
                    )
                    &&& r == Ok::<ShadeEvent, ContractError>(
                        ShadeEvent::StretchGoalUnlocked {
                            goal_id,
                            crowdfund_id: g.crowdfund_id,
                            current_amount,
                            timestamp: now,
                        },
                    )
                }
            },
        },
{
    env.check_admin(admin)?;
    let idx = match stretch_goal_index(env, goal_id) {
        Some(i) => i,
        None => return Err(ContractError::StretchGoalNotFound),
    };
    if env.stretch_goals[idx].goal.status != StretchGoalStatus::Pending {
        return Err(ContractError::GoalAlreadyUnlocked);
    }
    if current_amount < env.stretch_goals[idx].goal.target_amount {
        return Err(ContractError::InvalidAmount);
    }
    let crowdfund_id = env.stretch_goals[idx].goal.crowdfund_id;
    let ghost m0 = env@;
    let ghost before = env.stretch_goals@;
    env.stretch_goals[idx].goal.status = StretchGoalStatus::Unlocked;
    env.stretch_goals[idx].goal.unlocked_at = now;
    proof {
        assert(env.stretch_goals@ =~= before.update(idx as int, env.stretch_goals@[idx as int]));
        lemma_stretch_goal_entries_view_update(before, env.stretch_goals@, idx as int);
        let e2 = unlocked_entry(m0.stretch_goal_entry(goal_id), now);
        assert(env@ =~= m0.with_stretch_goal_entry(goal_id, e2));
        assert(m0.stretch_goals[idx as int].wf(goal_id));
        lemma_stretch_goal_entry_update_wf(m0, goal_id, e2);
    }
    Ok(ShadeEvent::StretchGoalUnlocked { goal_id, crowdfund_id, current_amount, timestamp: now })
}

/// Stretch-goal entry `e` (of goal `id`) with a fresh, unclaimed reward for `backer`.
pub open spec fn rewarded_entry(
    e: StretchGoalEntryModel,
    id: u64,
    backer: Address,
    reward_amount: i128,
    now: u64,
) -> StretchGoalEntryModel {
    StretchGoalEntryModel {
        reward: Some(
            StretchGoalReward { goal_id: id, backer, reward_amount, claimed: false, created_at: now },
        ),
        ..e
    }
}

/// Records a reward of `reward_amount` for `backer` on unlocked stretch goal `goal_id`,
/// replacing any reward recorded before; only the admin may.
pub fn distribute_stretch_goal_reward(
    env: &mut Shade,
    admin: Address,
    goal_id: u64,
    backer: Address,
    reward_amount: i128,
    now: u64,
) -> (r: Result<ShadeEvent, ContractError>)
    requires
        old(env).wf(),
    ensures
        final(env).wf(),
        r is Err ==> final(env)@ == old(env)@,
        r is Ok ==> reward_of(final(env)@, goal_id) == Some(
            StretchGoalReward { goal_id, backer, reward_amount, claimed: false, created_at: now },
        ),
        match old(env)@.admin_check(admin) {
            Some(e) => r == Err::<ShadeEvent, ContractError>(e),
            None => {
                let g = old(env)@.stretch_goal_entry(goal_id).goal;
                &&& !old(env)@.has_stretch_goal(goal_id) ==> r == Err::<ShadeEvent, ContractError>(
                    ContractError::StretchGoalNotFound,
                )
                &&& old(env)@.has_stretch_goal(goal_id) && g.status != StretchGoalStatus::Unlocked
                    ==> r == Err::<ShadeEvent, ContractError>(ContractError::StretchGoalNotUnlocked)
                &&& old(env)@.has_stretch_goal(goal_id) && g.status == StretchGoalStatus::Unlocked
                    && reward_amount <= 0 ==> r == Err::<ShadeEvent, ContractError>(
                    ContractError::InvalidAmount,
                )
                &&& old(env)@.has_stretch_goal(goal_id) && g.status == StretchGoalStatus::Unlocked
                    && reward_amount > 0 ==> {
                    &&& final(env)@ == old(env)@.with_stretch_goal_entry(
                        goal_id,
                        rewarded_entry(
                            old(env)@.stretch_goal_entry(goal_id),
                            goal_id,
                            backer,
                            reward_amount,
                            now,
                        ),
                    )
                    &&& r == Ok::<ShadeEvent, ContractError>(
                        ShadeEvent::StretchGoalRewardDistributed {
                            goal_id,
                            backer,
                            reward_amount,
                            timestamp: now,
                        },
                    )
                }
            },
        },
{
    env.check_admin(admin)?;
    let idx = match stretch_goal_index(env, goal_id) {
        Some(i) => i,
        None => return Err(ContractError::StretchGoalNotFound),
    };
    if env.stretch_goals[idx].goal.status != StretchGoalStatus::Unlocked {
        return Err(ContractError::StretchGoalNotUnlocked);
    }
    if reward_amount <= 0 {
        return Err(ContractError::InvalidAmount);
    }
    let ghost m0 = env@;
    let ghost before = env.stretch_goals@;
    env.stretch_goals[idx].reward = Some(
        StretchGoalReward { goal_id, backer, reward_amount, claimed: false, created_at: now },
    );
    proof {
        assert(env.stretch_goals@ =~= before.update(idx as int, env.stretch_goals@[idx as int]));
        lemma_stretch_goal_entries_view_update(before, env.stretch_goals@, idx as int);
        let e2 = rewarded_entry(m0.stretch_goal_entry(goal_id), goal_id, backer, reward_amount, now);
        assert(env@ =~= m0.with_stretch_goal_entry(goal_id, e2));
        assert(m0.stretch_goals[idx as int].wf(goal_id));
        lemma_stretch_goal_entry_update_wf(m0, goal_id, e2);
    }
    Ok(ShadeEvent::StretchGoalRewardDistributed { goal_id, backer, reward_amount, timestamp: now })
}

/// The reward recorded for stretch goal `goal_id`, if there is one.
pub open spec fn reward_of(m: ShadeModel, goal_id: u64) -> Option<StretchGoalReward> {
    if m.has_stretch_goal(goal_id) {
        m.stretch_goal_entry(goal_id).reward
    } else {
        None
    }
}

/// Stretch-goal entry `e` with its reward marked claimed.
pub open spec fn claimed_entry(e: StretchGoalEntryModel) -> StretchGoalEntryModel {
    StretchGoalEntryModel { reward: Some(StretchGoalReward { claimed: true, ..e.reward->Some_0 }), ..e }
}

/// The error with which `backer`'s claim of the reward of stretch goal `goal_id` is refused,
/// or `None` when the claim goes through.
pub open spec fn claim_refusal(m: ShadeModel, backer: Address, goal_id: u64) -> Option<ContractError> {
    match reward_of(m, goal_id) {
        None => Some(ContractError::StretchGoalNotFound),
        Some(w) => if w.backer != backer {
            Some(ContractError::NotAuthorized)
        } else if w.claimed {
            Some(ContractError::RewardAlreadyClaimed)
        } else {
            None
        },
    }
}

/// Marks the reward of stretch goal `goal_id` claimed; only the backer it was recorded for
/// may claim it, and only once.
pub fn claim_stretch_goal_reward(env: &mut Shade, backer: Address, goal_id: u64, now: u64) -> (r:
    Result<ShadeEvent, ContractError>)
    requires
        old(env).wf(),
    ensures
        final(env).wf(),
        r is Err ==> final(env)@ == old(env)@,
        match claim_refusal(old(env)@, backer, goal_id) {
            Some(e) => r == Err::<ShadeEvent, ContractError>(e),
            None => r is Ok,
        },
        match reward_of(old(env)@, goal_id) {
            None => r == Err::<ShadeEvent, ContractError>(ContractError::StretchGoalNotFound),
            Some(w) => {
                &&& w.backer != backer ==> r == Err::<ShadeEvent, ContractError>(
                    ContractError::NotAuthorized,
                )
                &&& w.backer == backer && w.claimed ==> r == Err::<ShadeEvent, ContractError>(
                    ContractError::RewardAlreadyClaimed,
                )
                &&& w.backer == backer && !w.claimed ==> {
                    &&& final(env)@ == old(env)@.with_stretch_goal_entry(
                        goal_id,
                        claimed_entry(old(env)@.stretch_goal_entry(goal_id)),
                    )
                    &&& r == Ok::<ShadeEvent, ContractError>(
                        ShadeEvent::StretchGoalRewardClaimed {
                            goal_id,
                            backer,
                            reward_amount: w.reward_amount,
                            timestamp: now,
                        },
                    )
                }
            },
        },
{
    let idx = match stretch_goal_index(env, goal_id) {
        Some(i) => i,
        None => return Err(ContractError::StretchGoalNotFound),
    };
    let mut reward = match env.stretch_goals[idx].reward {
        Some(w) => w,
        None => return Err(ContractError::StretchGoalNotFound),
    };
    if reward.backer != backer {
        return Err(ContractError::NotAuthorized);
    }
    if reward.claimed {
        return Err(ContractError::RewardAlreadyClaimed);
    }
    reward.claimed = true;
    let ghost m0 = env@;
    let ghost before = env.stretch_goals@;
    env.stretch_goals[idx].reward = Some(reward);
    proof {
        assert(env.stretch_goals@ =~= before.update(idx as int, env.stretch_goals@[idx as int]));
        lemma_stretch_goal_entries_view_update(before, env.stretch_goals@, idx as int);
        let e2 = claimed_entry(m0.stretch_goal_entry(goal_id));
        assert(env@ =~= m0.with_stretch_goal_entry(goal_id, e2));
        assert(m0.stretch_goals[idx as int].wf(goal_id));
        lemma_stretch_goal_entry_update_wf(m0, goal_id, e2);
    }
    Ok(
        ShadeEvent::StretchGoalRewardClaimed {
            goal_id,
            backer,
            reward_amount: reward.reward_amount,
            timestamp: now,
        },
    )
}

/// The ids, in creation order, of the stretch goals in `s` that belong to crowdfund
/// `crowdfund_id`.
pub open spec fn goal_ids_of(s: Seq<StretchGoalEntryModel>, crowdfund_id: u64) -> Seq<u64>
    decreases s.len(),
{
    if s.len() == 0 {
        Seq::empty()
    } else if s.last().goal.crowdfund_id == crowdfund_id {
        goal_ids_of(s.drop_last(), crowdfund_id).push(s.last().goal.id)
    } else {
        goal_ids_of(s.drop_last(), crowdfund_id)
    }
}

/// Whether a stretch-goal entry belongs to crowdfund `crowdfund_id`, whatever its status.
pub open spec fn of_crowdfund(crowdfund_id: u64) -> spec_fn(StretchGoalEntryModel) -> bool {
    |e: StretchGoalEntryModel| e.goal.crowdfund_id == crowdfund_id
}

/// The ids of the stretch goals in `s`, in order.
pub open spec fn ids_of(s: Seq<StretchGoalEntryModel>) -> Seq<u64> {
    s.map_values(|e: StretchGoalEntryModel| e.goal.id)
}

/// The ids listed for a crowdfund are those of its goals, kept in order, whatever their status.
pub proof fn lemma_goal_ids_filter(s: Seq<StretchGoalEntryModel>, crowdfund_id: u64)
    ensures
        goal_ids_of(s, crowdfund_id) == ids_of(s.filter(of_crowdfund(crowdfund_id))),
    decreases s.len(),
{
    reveal(Seq::filter);
    let p = of_crowdfund(crowdfund_id);
    if s.len() == 0 {
        assert(ids_of(s.filter(p)) =~= Seq::<u64>::empty());
    } else {
        lemma_goal_ids_filter(s.drop_last(), crowdfund_id);
        let f = s.drop_last().filter(p);
        if s.last().goal.crowdfund_id == crowdfund_id {
            assert(s.filter(p) == f.push(s.last()));
            assert(ids_of(f.push(s.last())) =~= ids_of(f).push(s.last().goal.id));
        } else {
            assert(s.filter(p) == f);
        }
    }
}

/// Every goal of crowdfund `crowdfund_id` in `s` is listed for it.
pub proof fn lemma_goal_listed(s: Seq<StretchGoalEntryModel>, crowdfund_id: u64, i: int)
    requires
        0 <= i < s.len(),
        s[i].goal.crowdfund_id == crowdfund_id,
    ensures
        goal_ids_of(s, crowdfund_id).contains(s[i].goal.id),
    decreases s.len(),
{
    if i == s.len() - 1 {
        let l = goal_ids_of(s, crowdfund_id);
        assert(l[l.len() - 1] == s[i].goal.id);
    } else {
        lemma_goal_listed(s.drop_last(), crowdfund_id, i);
        let l0 = goal_ids_of(s.drop_last(), crowdfund_id);
        let k = choose|k: int| 0 <= k < l0.len() && l0[k] == s[i].goal.id;
        if s.last().goal.crowdfund_id == crowdfund_id {
            assert(goal_ids_of(s, crowdfund_id)[k] == s[i].goal.id);
        }
    }
}

/// The list for a crowdfund depends only on each goal's id and crowdfund, so a change of
/// status or reward leaves it as it was.
pub proof fn lemma_goal_ids_frame(
    s1: Seq<StretchGoalEntryModel>,
    s2: Seq<StretchGoalEntryModel>,
    crowdfund_id: u64,
)
    requires
        s1.len() == s2.len(),
        forall|i: int|
            0 <= i < s1.len() ==> (#[trigger] s1[i]).goal.id == s2[i].goal.id
                && s1[i].goal.crowdfund_id == s2[i].goal.crowdfund_id,
    ensures
        goal_ids_of(s1, crowdfund_id) == goal_ids_of(s2, crowdfund_id),
    decreases s1.len(),
{
    if s1.len() > 0 {
        let d1 = s1.drop_last();
        let d2 = s2.drop_last();
        assert forall|i: int| 0 <= i < d1.len() implies (#[trigger] d1[i]).goal.id == d2[i].goal.id
            && d1[i].goal.crowdfund_id == d2[i].goal.crowdfund_id by {
            assert(d1[i] == s1[i] && d2[i] == s2[i]);
        }
        lemma_goal_ids_frame(d1, d2, crowdfund_id);
        assert(s1.last() == s1[s1.len() - 1] && s2.last() == s2[s2.len() - 1]);
    }
}

/// The ids of crowdfund `crowdfund_id`'s stretch goals, in the order they were created,
/// whatever their status.
pub fn get_crowdfund_stretch_goals(env: &Shade, crowdfund_id: u64) -> (r: Vec<u64>)
    ensures
        r@ == goal_ids_of(env@.stretch_goals, crowdfund_id),
        r@ == ids_of(env@.stretch_goals.filter(of_crowdfund(crowdfund_id))),
        forall|i: int|
            0 <= i < env@.stretch_goals.len() && (#[trigger] env@.stretch_goals[i]).goal.crowdfund_id
                == crowdfund_id ==> r@.contains(env@.stretch_goals[i].goal.id),
{
    let ghost s = env@.stretch_goals;
    let mut r: Vec<u64> = Vec::new();
    let n = env.stretch_goals.len();
    proof {
        lemma_stretch_goal_entries_view_len(env.stretch_goals@);
        assert(s.take(0) =~= Seq::<StretchGoalEntryModel>::empty());
    }
    let mut i: usize = 0;
    while i < n
        invariant
            i <= n,
            n == s.len(),
            n == env.stretch_goals@.len(),
            s == env@.stretch_goals,
            r@ == goal_ids_of(s.take(i as int), crowdfund_id),
        decreases n - i,
    {
        proof {
            lemma_stretch_goal_entries_view_update(env.stretch_goals@, env.stretch_goals@, i as int);
            assert(s.take(i as int + 1).drop_last() =~= s.take(i as int));
            assert(s.take(i as int + 1).last() == s[i as int]);
        }
        if env.stretch_goals[i].goal.crowdfund_id == crowdfund_id {
            r.push(env.stretch_goals[i].goal.id);
        }
        i = i + 1;
    }
    assert(s.take(n as int) =~= s);
    proof {
        lemma_goal_ids_filter(s, crowdfund_id);
        assert forall|i: int|
            0 <= i < s.len() && (#[trigger] s[i]).goal.crowdfund_id == crowdfund_id implies r@.contains(
            s[i].goal.id,
        ) by {
            lemma_goal_listed(s, crowdfund_id, i);
        }
    }
    r
}

/// The reward recorded for stretch goal `goal_id`, or `StretchGoalNotFound`.
pub fn get_stretch_goal_reward(env: &Shade, goal_id: u64) -> (r: Result<
    StretchGoalReward,
    ContractError,
>)
    ensures
        r == match reward_of(env@, goal_id) {
            Some(w) => Ok(w),
            None => Err(ContractError::StretchGoalNotFound),
        },
{
    match stretch_goal_index(env, goal_id) {
        Some(idx) => match env.stretch_goals[idx].reward {
            Some(w) => Ok(w),
            None => Err(ContractError::StretchGoalNotFound),
        },
        None => Err(ContractError::StretchGoalNotFound),
    }
}

} // verus!
