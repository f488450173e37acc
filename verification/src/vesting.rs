use vstd::prelude::*;
use std::collections::HashMap;
use crate::errors::ContractError;
use crate::events::ShadeEvent;
use crate::shade::{
    Shade, ShadeModel, TimelineEntry, TimelineEntryModel, lemma_timeline_entries_view_len,
    lemma_timeline_entries_view_update, lemma_timeline_entry_update_wf,
};
use crate::types::{
    Address, CrowdfundVestingConfig, VestingSchedule, VestingTimeline, VestingTimelineModel,
    copy_bytes,
};

verus! {

broadcast use vstd::std_specs::hash::group_hash_axioms;

/// The position of vesting timeline `timeline_id`, if it exists.
fn timeline_index(env: &Shade, timeline_id: u64) -> (r: Option<usize>)
    ensures
        match r {
            Some(i) => env@.has_timeline(timeline_id) && i == timeline_id - 1 && i
                < env.timelines@.len() && env@.timelines[i as int] == env.timelines@[i as int]@,
            None => !env@.has_timeline(timeline_id),
        },
{
    proof {
        lemma_timeline_entries_view_len(env.timelines@);
    }
    if timeline_id >= 1 && timeline_id <= env.timelines.len() as u64 {
        let i = (timeline_id - 1) as usize;
        proof {
            lemma_timeline_entries_view_update(env.timelines@, env.timelines@, i as int);
        }
        Some(i)
    } else {
        None
    }
}

/// The entry of a newly created vesting timeline.
pub open spec fn new_timeline_entry(
    id: u64,
    name: Seq<u8>,
    cliff_duration: u64,
    vesting_duration: u64,
    unlock_percentage: i128,
    admin: Address,
    now: u64,
) -> TimelineEntryModel {
    TimelineEntryModel {
        timeline: VestingTimelineModel {
            id,
            name,
            cliff_duration,
            vesting_duration,
            unlock_percentage,
            admin,
            created_at: now,
        },
        schedules: Map::empty(),
    }
}

/// The number of vesting timelines created so far, which is also the id of the latest.
fn get_vesting_timeline_count(env: &Shade) -> (n: u64)
    ensures
        n == env@.timelines.len(),
{
    proof {
        lemma_timeline_entries_view_len(env.timelines@);
    }
    env.timelines.len() as u64
}

/// Creates a vesting timeline numbered one past the last; only the admin may. Both durations
/// must be positive and the unlock percentage in basis points, above 0 and at most 10_000.
pub fn create_vesting_timeline(
    env: &mut Shade,
    admin: Address,
    name: Vec<u8>,
    cliff_duration: u64,
    vesting_duration: u64,
    unlock_percentage: i128,
    now: u64,
) -> (r: Result<(u64, ShadeEvent), ContractError>)
    requires
        old(env).wf(),
        old(env)@.timelines.len() < u64::MAX,
    ensures
        final(env).wf(),
        r is Err ==> final(env)@ == old(env)@,
        r matches Ok((tid, _)) ==> {
            let t = final(env)@.timeline_entry(tid);
            &&& final(env)@.has_timeline(tid)
            &&& t.timeline.id == tid
            &&& t.timeline.name == name@
            &&& t.timeline.cliff_duration == cliff_duration
            &&& t.timeline.vesting_duration == vesting_duration
            &&& t.timeline.unlock_percentage == unlock_percentage
            &&& t.timeline.admin == admin
            &&& t.timeline.created_at == now
            &&& t.schedules.dom().is_empty()
        },
        match old(env)@.admin_check(admin) {
            Some(e) => (r matches Err(x) && x == e),
            None => {
                &&& cliff_duration == 0 || vesting_duration == 0 ==> (r matches Err(
                    ContractError::InvalidInterval,
                ))
                &&& cliff_duration > 0 && vesting_duration > 0 && (unlock_percentage <= 0
                    || unlock_percentage > 10_000) ==> (r matches Err(ContractError::InvalidAmount))
                &&& cliff_duration > 0 && vesting_duration > 0 && 0 < unlock_percentage <= 10_000
                    ==> {
                    let id = (old(env)@.timelines.len() + 1) as u64;
                    &&& r matches Ok((tid, ev)) && tid == id && (
                    ev matches ShadeEvent::VestingTimelineCreated {
                        timeline_id,
                        name: n,
                        cliff_duration: c,
                        vesting_duration: v,
                        admin: a,
                        timestamp,
                    } && timeline_id == id && n@ == name@ && c == cliff_duration && v
                        == vesting_duration && a == admin && timestamp == now)
                    &&& final(env)@ == ShadeModel {
                        timelines: old(env)@.timelines.push(
                            new_timeline_entry(
                                id,
                                name@,
                                cliff_duration,
                                vesting_duration,
                                unlock_percentage,
                                admin,
                                now,
                            ),
                        ),
                        ..old(env)@
                    }
                }
            },
        },
{
    env.check_admin(admin)?;
    if cliff_duration == 0 || vesting_duration == 0 {
        return Err(ContractError::InvalidInterval);
    }
    if unlock_percentage <= 0 || unlock_percentage > 10000 {
        return Err(ContractError::InvalidAmount);
    }
    let timeline_id = get_vesting_timeline_count(env) + 1;
    let event_name = copy_bytes(&name);
    let ghost name_v = name@;
    let ghost m0 = env@;
    let entry = TimelineEntry {
        timeline: VestingTimeline {
            id: timeline_id,
            name,
            cliff_duration,
            vesting_duration,
            unlock_percentage,
            admin,
            created_at: now,
        },
        schedules: HashMap::new(),
    };
    let ghost ev = entry@;
    env.timelines.push(entry);
    proof {
        let e = new_timeline_entry(
            timeline_id,
            name_v,
            cliff_duration,
            vesting_duration,
            unlock_percentage,
            admin,
            now,
        );
        assert(ev =~= e);
        lemma_timeline_entries_view_len(old(env).timelines@);
        lemma_timeline_entries_view_len(env.timelines@);
        assert(env@.timelines =~= m0.timelines.push(e));
        let m2 = env@;
        assert forall|i: int| 0 <= i < m2.timelines.len() implies (
        #[trigger] m2.timelines[i]).wf((i + 1) as u64) by {
            if i < m0.timelines.len() {
                assert(m2.timelines[i] == m0.timelines[i]);
            }
        }
    }
    Ok(
        (
            timeline_id,
            ShadeEvent::VestingTimelineCreated {
                timeline_id,
                name: event_name,
                cliff_duration,
                vesting_duration,
                admin,
                timestamp: now,
            },
        ),
    )
}

/// Vesting timeline `timeline_id`, or `InvalidInterval`.
pub fn get_vesting_timeline(env: &Shade, timeline_id: u64) -> (r: Result<
    &VestingTimeline,
    ContractError,
>)
    ensures
        env@.has_timeline(timeline_id) ==> (r matches Ok(t) && t@ == env@.timeline_entry(
            timeline_id,
        ).timeline),
        !env@.has_timeline(timeline_id) ==> r matches Err(ContractError::InvalidInterval),
{
    match timeline_index(env, timeline_id) {
        Some(idx) => Ok(&env.timelines[idx].timeline),
        None => Err(ContractError::InvalidInterval),
    }
}

/// Timeline entry `e` with new cliff and vesting durations.
pub open spec fn updated_timeline_entry(
    e: TimelineEntryModel,
    cliff_duration: u64,
    vesting_duration: u64,
) -> TimelineEntryModel {
    TimelineEntryModel {
        timeline: VestingTimelineModel { cliff_duration, vesting_duration, ..e.timeline },
        ..e
    }
}

/// Sets new (positive) cliff and vesting durations on timeline `timeline_id`; only the admin may.
pub fn update_vesting_timeline(
    env: &mut Shade,
    admin: Address,
    timeline_id: u64,
    cliff_duration: u64,
    vesting_duration: u64,
    now: u64,
) -> (r: Result<ShadeEvent, ContractError>)
    requires
        old(env).wf(),
    ensures
        final(env).wf(),
        r is Err ==> final(env)@ == old(env)@,
        r is Ok ==> {
            let t = final(env)@.timeline_entry(timeline_id);
            let t0 = old(env)@.timeline_entry(timeline_id);
            &&& final(env)@.has_timeline(timeline_id)
            &&& t.timeline.cliff_duration == cliff_duration
            &&& t.timeline.vesting_duration == vesting_duration
            &&& t.timeline.name == t0.timeline.name
            &&& t.timeline.unlock_percentage == t0.timeline.unlock_percentage
            &&& t.timeline.admin == t0.timeline.admin
            &&& t.schedules == t0.schedules
        },
        match old(env)@.admin_check(admin) {
            Some(e) => r == Err::<ShadeEvent, ContractError>(e),
            None => {
                &&& cliff_duration == 0 || vesting_duration == 0 ==> r == Err::<
                    ShadeEvent,
                    ContractError,
                >(ContractError::InvalidInterval)
                &&& cliff_duration > 0 && vesting_duration > 0 && !old(env)@.has_timeline(
                    timeline_id,
                ) ==> r == Err::<ShadeEvent, ContractError>(ContractError::InvalidInterval)
                &&& cliff_duration > 0 && vesting_duration > 0 && old(env)@.has_timeline(
                    timeline_id,
                ) ==> {
                    &&& final(env)@ == old(env)@.with_timeline_entry(
                        timeline_id,
                        updated_timeline_entry(
                            old(env)@.timeline_entry(timeline_id),
                            cliff_duration,
                            vesting_duration,
                        ),
                    )
                    &&& r == Ok::<ShadeEvent, ContractError>(
                        ShadeEvent::VestingTimelineUpdated {
                            timeline_id,
                            cliff_duration,
                            vesting_duration,
                            admin,
                            timestamp: now,
                        },
                    )
                }
            },
        },
{
    env.check_admin(admin)?;
    if cliff_duration == 0 || vesting_duration == 0 {
        return Err(ContractError::InvalidInterval);
    }
    let idx = match timeline_index(env, timeline_id) {
        Some(i) => i,
        None => return Err(ContractError::InvalidInterval),
    };
    let ghost m0 = env@;
    let ghost before = env.timelines@;
    env.timelines[idx].timeline.cliff_duration = cliff_duration;
    env.timelines[idx].timeline.vesting_duration = vesting_duration;
    proof {
        assert(env.timelines@ =~= before.update(idx as int, env.timelines@[idx as int]));
        lemma_timeline_entries_view_update(before, env.timelines@, idx as int);
        let e2 = updated_timeline_entry(m0.timeline_entry(timeline_id), cliff_duration, vesting_duration);
        assert(env@ =~= m0.with_timeline_entry(timeline_id, e2));
        assert(m0.timelines[idx as int].wf(timeline_id));
        lemma_timeline_entry_update_wf(m0, timeline_id, e2);
    }
    Ok(
        ShadeEvent::VestingTimelineUpdated {
            timeline_id,
            cliff_duration,
            vesting_duration,
            admin,
            timestamp: now,
        },
    )
}

/// Ties crowdfund `crowdfund_id` to timeline `timeline_id` with `total_vesting_amount` (positive)
/// to vest, replacing any earlier configuration; only the admin may.
pub fn configure_crowdfund_vesting(
    env: &mut Shade,
    admin: Address,
    crowdfund_id: u64,
    timeline_id: u64,
    total_vesting_amount: i128,
    now: u64,
) -> (r: Result<ShadeEvent, ContractError>)
    requires
        old(env).wf(),
    ensures
        final(env).wf(),
        r is Err ==> final(env)@ == old(env)@,
        match old(env)@.admin_check(admin) {
            Some(e) => r == Err::<ShadeEvent, ContractError>(e),
            None => {
                &&& total_vesting_amount <= 0 ==> r == Err::<ShadeEvent, ContractError>(
                    ContractError::InvalidAmount,
                )
                &&& total_vesting_amount > 0 && !old(env)@.has_timeline(timeline_id) ==> r
                    == Err::<ShadeEvent, ContractError>(ContractError::InvalidInterval)
                &&& total_vesting_amount > 0 && old(env)@.has_timeline(timeline_id) ==> {
                    &&& final(env)@ == ShadeModel {
                        vesting_configs: old(env)@.vesting_configs.insert(
                            crowdfund_id,
                            CrowdfundVestingConfig {
                                crowdfund_id,
                                timeline_id,
                                total_vesting_amount,
                                configured_at: now,
                            },
                        ),
                        ..old(env)@
                    }
                    &&& r == Ok::<ShadeEvent, ContractError>(
                        ShadeEvent::CrowdfundVestingConfigured {
                            crowdfund_id,
                            timeline_id,
                            total_vesting_amount,
                            admin,
                            timestamp: now,
                        },
                    )
                }
            },
        },
{
    env.check_admin(admin)?;
    if total_vesting_amount <= 0 {
        return Err(ContractError::InvalidAmount);
    }
    let _ = match timeline_index(env, timeline_id) {
        Some(i) => i,
        None => return Err(ContractError::InvalidInterval),
    };
    let ghost m0 = env@;
    env.vesting_configs.insert(
        crowdfund_id,
        CrowdfundVestingConfig { crowdfund_id, timeline_id, total_vesting_amount, configured_at: now },
    );
    proof {
        let m2 = ShadeModel {
            vesting_configs: m0.vesting_configs.insert(
                crowdfund_id,
                CrowdfundVestingConfig {
                    crowdfund_id,
                    timeline_id,
                    total_vesting_amount,
                    configured_at: now,
                },
            ),
            ..m0
        };
        assert(env@ =~= m2);
    }
    Ok(
        ShadeEvent::CrowdfundVestingConfigured {
            crowdfund_id,
            timeline_id,
            total_vesting_amount,
            admin,
            timestamp: now,
        },
    )
}

/// The vesting configuration of crowdfund `crowdfund_id`, or `InvoiceNotFound`.
pub fn get_crowdfund_vesting_config(env: &Shade, crowdfund_id: u64) -> (r: Result<
    CrowdfundVestingConfig,
    ContractError,
>)
    ensures
        env@.vesting_configs.contains_key(crowdfund_id) ==> r == Ok::<
            CrowdfundVestingConfig,
            ContractError,
        >(env@.vesting_configs[crowdfund_id]),
        !env@.vesting_configs.contains_key(crowdfund_id) ==> r == Err::<
            CrowdfundVestingConfig,
            ContractError,
        >(ContractError::InvoiceNotFound),
{
    match env.vesting_configs.get(&crowdfund_id) {
        Some(c) => Ok(*c),
        None => Err(ContractError::InvoiceNotFound),
    }
}

/// Timeline entry `e` with tranche `s` stored under its index.
pub open spec fn scheduled_entry(e: TimelineEntryModel, s: VestingSchedule) -> TimelineEntryModel {
    TimelineEntryModel { schedules: e.schedules.insert(s.tranche_index, s), ..e }
}

/// Adds tranche `tranche_index` of timeline `timeline_id`, unreleased, unlocking
/// `unlock_amount` (positive) at `unlock_timestamp`; a tranche stored under the same index is
/// replaced. Only the admin may.
pub fn add_vesting_schedule(
    env: &mut Shade,
    admin: Address,
    timeline_id: u64,
    tranche_index: u64,
    unlock_amount: i128,
    unlock_timestamp: u64,
) -> (r: Result<(), ContractError>)
    requires
        old(env).wf(),
    ensures
        final(env).wf(),
        r is Err ==> final(env)@ == old(env)@,
        r is Ok ==> schedule_of(final(env)@, timeline_id, tranche_index) == Some(
            VestingSchedule {
                timeline_id,
                tranche_index,
                unlock_amount,
                unlock_timestamp,
                released: false,
            },
        ),
        match old(env)@.admin_check(admin) {
            Some(e) => r == Err::<(), ContractError>(e),
            None => {
                &&& unlock_amount <= 0 ==> r == Err::<(), ContractError>(ContractError::InvalidAmount)
                &&& unlock_amount > 0 && !old(env)@.has_timeline(timeline_id) ==> r == Err::<
                    (),
                    ContractError,
                >(ContractError::InvalidInterval)
                &&& unlock_amount > 0 && old(env)@.has_timeline(timeline_id) ==> {
                    &&& r == Ok::<(), ContractError>(())
                    &&& final(env)@ == old(env)@.with_timeline_entry(
                        timeline_id,
                        scheduled_entry(
                            old(env)@.timeline_entry(timeline_id),
                            VestingSchedule {
                                timeline_id,
                                tranche_index,
                                unlock_amount,
                                unlock_timestamp,
                                released: false,
                            },
                        ),
                    )
                }
            },
        },
{
    env.check_admin(admin)?;
    if unlock_amount <= 0 {
        return Err(ContractError::InvalidAmount);
    }
    let idx = match timeline_index(env, timeline_id) {
        Some(i) => i,
        None => return Err(ContractError::InvalidInterval),
    };
    let schedule = VestingSchedule {
        timeline_id,
        tranche_index,
        unlock_amount,
        unlock_timestamp,
        released: false,
    };
    let ghost m0 = env@;
    let ghost before = env.timelines@;
    env.timelines[idx].schedules.insert(tranche_index, schedule);
    proof {
        assert(env.timelines@ =~= before.update(idx as int, env.timelines@[idx as int]));
        lemma_timeline_entries_view_update(before, env.timelines@, idx as int);
        let e2 = scheduled_entry(m0.timeline_entry(timeline_id), schedule);
        assert(env@ =~= m0.with_timeline_entry(timeline_id, e2));
        assert(m0.timelines[idx as int].wf(timeline_id));
        lemma_timeline_entry_update_wf(m0, timeline_id, e2);
    }
    Ok(())
}

/// Tranche `tranche_index` of timeline `timeline_id`, if it has been added.
pub open spec fn schedule_of(m: ShadeModel, timeline_id: u64, tranche_index: u64) -> Option<
    VestingSchedule,
> {
    if m.has_timeline(timeline_id) && m.timeline_entry(timeline_id).schedules.contains_key(
        tranche_index,
    ) {
        Some(m.timeline_entry(timeline_id).schedules[tranche_index])
    } else {
        None
    }
}

/// The error with which releasing tranche `tranche_index` of timeline `timeline_id` at time
/// `now` is refused, or `None` when `admin` may release it.
pub open spec fn release_refusal(
    m: ShadeModel,
    admin: Address,
    timeline_id: u64,
    tranche_index: u64,
    now: u64,
) -> Option<ContractError> {
    match m.admin_check(admin) {
        Some(e) => Some(e),
        None => match schedule_of(m, timeline_id, tranche_index) {
            None => Some(ContractError::InvoiceNotFound),
            Some(s) => if s.released {
                Some(ContractError::InvalidInvoiceStatus)
            } else if now < s.unlock_timestamp {
                Some(ContractError::InvoiceExpired)
            } else {
                None
            },
        },
    }
}

/// Releases tranche `tranche_index` of timeline `timeline_id` at time `now`; only the admin
/// may, only once, and not before the tranche's unlock time.
pub fn release_vesting_schedule(
    env: &mut Shade,
    admin: Address,
    timeline_id: u64,
    tranche_index: u64,
    now: u64,
) -> (r: Result<ShadeEvent, ContractError>)
    requires
        old(env).wf(),
    ensures
        final(env).wf(),
        r is Err ==> final(env)@ == old(env)@,
        match release_refusal(old(env)@, admin, timeline_id, tranche_index, now) {
            Some(e) => r == Err::<ShadeEvent, ContractError>(e),
            None => r is Ok,
        },
        match old(env)@.admin_check(admin) {
            Some(e) => r == Err::<ShadeEvent, ContractError>(e),
            None => match schedule_of(old(env)@, timeline_id, tranche_index) {
                None => r == Err::<ShadeEvent, ContractError>(ContractError::InvoiceNotFound),
                Some(s) => {
                    &&& s.released ==> r == Err::<ShadeEvent, ContractError>(
                        ContractError::InvalidInvoiceStatus,
                    )
                    &&& !s.released && now < s.unlock_timestamp ==> r == Err::<
                        ShadeEvent,
                        ContractError,
                    >(ContractError::InvoiceExpired)
                    &&& !s.released && now >= s.unlock_timestamp ==> {
                        &&& final(env)@ == old(env)@.with_timeline_entry(
                            timeline_id,
                            scheduled_entry(
                                old(env)@.timeline_entry(timeline_id),
                                VestingSchedule { released: true, ..s },
                            ),
                        )
                        &&& r == Ok::<ShadeEvent, ContractError>(
                            ShadeEvent::VestingScheduleReleased {
                                timeline_id,
                                tranche_index,
                                unlock_amount: s.unlock_amount,
                                timestamp: now,
                            },
                        )
                    }
                },
            },
        },
{
    env.check_admin(admin)?;
    let idx = match timeline_index(env, timeline_id) {
        Some(i) => i,
        None => return Err(ContractError::InvoiceNotFound),
    };
    let mut schedule = match env.timelines[idx].schedules.get(&tranche_index) {
        Some(s) => *s,
        None => return Err(ContractError::InvoiceNotFound),
    };
    if schedule.released {
        return Err(ContractError::InvalidInvoiceStatus);
    }
    if now < schedule.unlock_timestamp {
        return Err(ContractError::InvoiceExpired);
    }
    schedule.released = true;
    let ghost m0 = env@;
    let ghost before = env.timelines@;
    env.timelines[idx].schedules.insert(tranche_index, schedule);
    proof {
        assert(env.timelines@ =~= before.update(idx as int, env.timelines@[idx as int]));
        lemma_timeline_entries_view_update(before, env.timelines@, idx as int);
        let e2 = scheduled_entry(m0.timeline_entry(timeline_id), schedule);
        assert(env@ =~= m0.with_timeline_entry(timeline_id, e2));
        assert(m0.timelines[idx as int].wf(timeline_id));
        lemma_timeline_entry_update_wf(m0, timeline_id, e2);
    }
    Ok(
        ShadeEvent::VestingScheduleReleased {
            timeline_id,
            tranche_index,
            unlock_amount: schedule.unlock_amount,
            timestamp: now,
        },
    )
}

} // verus!
