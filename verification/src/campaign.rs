use vstd::prelude::*;
use crate::errors::ContractError;
use crate::leaderboard::{
    ScoreRow, rank_by_score, sort_rows_by_score, lemma_rank_len, lemma_rank_multiset,
};
use crate::events::ShadeEvent;
use crate::shade::{
    CampaignEntry, CampaignEntryModel, Shade, ShadeModel, fresh_participant,
    lemma_campaign_entries_view_update, lemma_campaign_entries_view_len,
    lemma_campaign_entry_update_wf, lemma_campaign_entry_push_wf,
};
use std::collections::HashMap;
use crate::types::{
    Address, Campaign, CampaignAffiliate, CampaignModel, CampaignParticipant, copy_bytes,
};
use crate::totals::{
    ParticipantAmount, amount_of, lemma_sum_bounds, lemma_sum_frame, lemma_sum_push,
    lemma_sum_update, sum_over,
};

verus! {

broadcast use vstd::std_specs::hash::group_hash_axioms;

/// Campaign entry `e` (of campaign `id`) after participant `a`'s contribution grows by `dc`,
/// stake by `ds` and slashed amount by `dsl`: the participant's score moves with its
/// contribution and stake, and the campaign's totals move with the participant's amounts.
pub open spec fn apply_participant_delta(
    e: CampaignEntryModel,
    id: u64,
    a: Address,
    dc: int,
    ds: int,
    dsl: int,
) -> CampaignEntryModel {
    let p = e.participant_of(id, a);
    let c = e.campaign;
    let p2 = CampaignParticipant {
        contributed: (p.contributed + dc) as i128,
        staked: (p.staked + ds) as i128,
        slashed: (p.slashed + dsl) as i128,
        score: (p.score + dc + ds) as i128,
        ..p
    };
    let c2 = CampaignModel {
        total_raised: (c.total_raised + dc) as i128,
        total_staked: (c.total_staked + ds) as i128,
        total_slashed: (c.total_slashed + dsl) as i128,
        ..c
    };
    CampaignEntryModel { campaign: c2, ..e }.store_participant(p2)
}


/// The participant and campaign amounts that `apply_participant_delta` produces all fit
/// in an `i128`, and the participant's amounts stay nonnegative.
pub open spec fn participant_delta_fits(
    e: CampaignEntryModel,
    id: u64,
    a: Address,
    dc: int,
    ds: int,
    dsl: int,
) -> bool {
    let p = e.participant_of(id, a);
    let c = e.campaign;
    &&& 0 <= p.contributed + dc <= i128::MAX
    &&& 0 <= p.staked + ds <= i128::MAX
    &&& 0 <= p.slashed + dsl <= i128::MAX
    &&& p.score + dc + ds <= i128::MAX
    &&& c.total_raised + dc <= i128::MAX
    &&& c.total_staked + ds <= i128::MAX
    &&& c.total_slashed + dsl <= i128::MAX
}

/// Applying participant deltas moves exactly those amounts: the participant's contribution,
/// stake and slashed amount change by `dc`, `ds` and `dsl`, its score by `dc + ds`, the
/// campaign's matching totals by the same amounts, and nothing else changes.
pub proof fn lemma_participant_delta_effect(
    e: CampaignEntryModel,
    id: u64,
    a: Address,
    dc: int,
    ds: int,
    dsl: int,
    b: Address,
)
    requires
        e.wf(id),
        participant_delta_fits(e, id, a, dc, ds, dsl),
        dc >= 0,
        dsl >= 0,
    ensures
        ({
            let n = apply_participant_delta(e, id, a, dc, ds, dsl);
            let p = e.participant_of(id, a);
            let q = n.participant_of(id, a);
            &&& q.contributed == p.contributed + dc
            &&& q.staked == p.staked + ds
            &&& q.slashed == p.slashed + dsl
            &&& q.score == p.score + dc + ds
            &&& n.campaign.total_raised == e.campaign.total_raised + dc
            &&& n.campaign.total_staked == e.campaign.total_staked + ds
            &&& n.campaign.total_slashed == e.campaign.total_slashed + dsl
            &&& n.campaign.total_commissions_paid == e.campaign.total_commissions_paid
            &&& n.affiliates == e.affiliates
            &&& b != a ==> n.participant_of(id, b) == e.participant_of(id, b)
        }),
{
    lemma_participant_within_totals(e, id, a);
    assert(b != a ==> b.0 != a.0);
}

/// Each participant's amounts are at most the campaign's matching totals.
pub proof fn lemma_participant_within_totals(e: CampaignEntryModel, id: u64, a: Address)
    requires
        e.wf(id),
    ensures
        0 <= e.participant_of(id, a).contributed <= e.campaign.total_raised,
        0 <= e.participant_of(id, a).staked <= e.campaign.total_staked,
        0 <= e.participant_of(id, a).slashed <= e.campaign.total_slashed,
        e.participant_of(id, a).score == e.participant_of(id, a).contributed + e.participant_of(
            id,
            a,
        ).staked,
{
    let ids = e.participant_ids;
    let m = e.participants;
    assert forall|i: int| 0 <= i < ids.len() implies amount_of(
        m[#[trigger] ids[i].0],
        ParticipantAmount::Contributed,
    ) >= 0 && amount_of(m[ids[i].0], ParticipantAmount::Staked) >= 0 && amount_of(
        m[ids[i].0],
        ParticipantAmount::Slashed,
    ) >= 0 by {
        assert(m.contains_key(ids[i].0));
    }
    lemma_sum_bounds(ids, m, ParticipantAmount::Contributed);
    lemma_sum_bounds(ids, m, ParticipantAmount::Staked);
    lemma_sum_bounds(ids, m, ParticipantAmount::Slashed);
    if m.contains_key(a.0) {
        assert(ids.contains(Address(a.0)));
        let i = choose|i: int| 0 <= i < ids.len() && ids[i] == Address(a.0);
        assert(ids[i].0 == a.0);
    }
}

/// Moving a participant's amounts (see `apply_participant_delta`) keeps its campaign consistent.
pub proof fn lemma_participant_delta_wf(
    e: CampaignEntryModel,
    id: u64,
    a: Address,
    dc: int,
    ds: int,
    dsl: int,
)
    requires
        e.wf(id),
        participant_delta_fits(e, id, a, dc, ds, dsl),
    ensures
        apply_participant_delta(e, id, a, dc, ds, dsl).wf(id),
{
    lemma_participant_within_totals(e, id, a);
    let ids = e.participant_ids;
    let m = e.participants;
    let p = e.participant_of(id, a);
    let p2 = CampaignParticipant {
        contributed: (p.contributed + dc) as i128,
        staked: (p.staked + ds) as i128,
        slashed: (p.slashed + dsl) as i128,
        score: (p.score + dc + ds) as i128,
        ..p
    };
    let e2 = apply_participant_delta(e, id, a, dc, ds, dsl);
    let m2 = m.insert(a.0, p2);
    assert(e2.participants == m2);
    assert(p2.participant == a);
    if ids.contains(a) {
        assert(e2.participant_ids == ids);
        let i = choose|i: int| 0 <= i < ids.len() && ids[i] == a;
        assert(m.contains_key(ids[i].0));
        lemma_sum_update(ids, m, a, p2, ParticipantAmount::Contributed);
        lemma_sum_update(ids, m, a, p2, ParticipantAmount::Staked);
        lemma_sum_update(ids, m, a, p2, ParticipantAmount::Slashed);
    } else {
        if m.contains_key(a.0) {
            assert(ids.contains(Address(a.0)));
        }
        assert(p == fresh_participant(id, a));
        let ids2 = ids.push(a);
        assert(e2.participant_ids == ids2);
        assert forall|i: int| 0 <= i < ids.len() implies amount_of(
            m2[#[trigger] ids[i].0],
            ParticipantAmount::Contributed,
        ) == amount_of(m[ids[i].0], ParticipantAmount::Contributed) && amount_of(
            m2[ids[i].0],
            ParticipantAmount::Staked,
        ) == amount_of(m[ids[i].0], ParticipantAmount::Staked) && amount_of(
            m2[ids[i].0],
            ParticipantAmount::Slashed,
        ) == amount_of(m[ids[i].0], ParticipantAmount::Slashed) by {
            assert(ids[i] != a);
            assert(ids[i].0 != a.0);
        }
        lemma_sum_frame(ids, m2, m, ParticipantAmount::Contributed);
        lemma_sum_frame(ids, m2, m, ParticipantAmount::Staked);
        lemma_sum_frame(ids, m2, m, ParticipantAmount::Slashed);
        lemma_sum_push(ids, m2, a, ParticipantAmount::Contributed);
        lemma_sum_push(ids, m2, a, ParticipantAmount::Staked);
        lemma_sum_push(ids, m2, a, ParticipantAmount::Slashed);
        assert(ids2.no_duplicates()) by {
            assert forall|i: int, j: int| 0 <= i < ids2.len() && 0 <= j < ids2.len() && i != j
                implies ids2[i] != ids2[j] by {
                if i < ids.len() && j < ids.len() {
                    assert(ids2[i] == ids[i] && ids2[j] == ids[j]);
                } else if i < ids.len() {
                    assert(ids2[i] == ids[i]);
                } else if j < ids.len() {
                    assert(ids2[j] == ids[j]);
                }
            }
        }
        assert forall|i: int| 0 <= i < ids2.len() implies m2.contains_key(#[trigger] ids2[i].0) by {
            if i < ids.len() {
                assert(ids2[i] == ids[i]);
            }
        }
        assert forall|k: u64| #[trigger] m2.contains_key(k) implies ids2.contains(Address(k)) by {
            if k == a.0 {
                assert(ids2[ids.len() as int] == a);
            } else {
                assert(ids.contains(Address(k)));
                let j = choose|j: int| 0 <= j < ids.len() && ids[j] == Address(k);
                assert(ids2[j] == ids[j]);
            }
        }
    }
}


/// Who may manage campaign `id`: its owner or the admin. `NotInitialized` when no admin is
/// set, `NotAuthorized` when `caller` is neither, `None` when the caller may proceed.
pub open spec fn campaign_manager_check(m: ShadeModel, id: u64, caller: Address) -> Option<
    ContractError,
> {
    match m.admin {
        None => Some(ContractError::NotInitialized),
        Some(a) => if caller == m.campaign_entry(id).campaign.owner || caller == a {
            None
        } else {
            Some(ContractError::NotAuthorized)
        },
    }
}

/// The position of campaign `campaign_id`, if it exists.
fn campaign_index(env: &Shade, campaign_id: u64) -> (r: Option<usize>)
    ensures
        match r {
            Some(i) => env@.has_campaign(campaign_id) && i == campaign_id - 1 && i
                < env.campaigns@.len(),
            None => !env@.has_campaign(campaign_id),
        },
{
    if campaign_id >= 1 && campaign_id <= env.campaigns.len() as u64 {
        Some((campaign_id - 1) as usize)
    } else {
        None
    }
}

/// Checks that `caller` owns campaign `campaign_id` (at position `idx`) or is the admin.
fn check_campaign_manager(env: &Shade, campaign_id: u64, idx: usize, caller: Address) -> (r: Result<
    (),
    ContractError,
>)
    requires
        env@.has_campaign(campaign_id),
        idx == campaign_id - 1,
    ensures
        r == match campaign_manager_check(env@, campaign_id, caller) {
            Some(e) => Err(e),
            None => Ok(()),
        },
{
    proof {
        lemma_campaign_entries_view_update(env.campaigns@, env.campaigns@, idx as int);
    }
    let admin = env.get_admin()?;
    if caller != env.campaigns[idx].campaign.owner && caller != admin {
        return Err(ContractError::NotAuthorized);
    }
    Ok(())
}

/// The record of participant `a` in campaign `campaign_id` (at position `idx`), or a fresh one.
fn get_participant(env: &Shade, campaign_id: u64, idx: usize, a: Address) -> (p: CampaignParticipant)
    requires
        env@.has_campaign(campaign_id),
        idx == campaign_id - 1,
    ensures
        p == env@.campaign_entry(campaign_id).participant_of(campaign_id, a),
{
    proof {
        lemma_campaign_entries_view_update(env.campaigns@, env.campaigns@, idx as int);
    }
    match env.campaigns[idx].participants.get(&a.0) {
        Some(p) => *p,
        None => CampaignParticipant {
            campaign_id,
            participant: a,
            contributed: 0,
            staked: 0,
            slashed: 0,
            commissions_paid: 0,
            score: 0,
        },
    }
}

/// Stores participant record `p` in campaign `campaign_id` (at position `idx`), listing it if
/// it is new.
fn store_participant(env: &mut Shade, campaign_id: u64, idx: usize, p: CampaignParticipant)
    requires
        old(env)@.has_campaign(campaign_id),
        idx == campaign_id - 1,
    ensures
        final(env)@ == old(env)@.with_campaign_entry(
            campaign_id,
            old(env)@.campaign_entry(campaign_id).store_participant(p),
        ),
{
    proof {
        lemma_campaign_entries_view_update(env.campaigns@, env.campaigns@, idx as int);
    }
    let ghost ids = env.campaigns@[idx as int].participant_ids@;
    let n = env.campaigns[idx].participant_ids.len();
    let mut exists = false;
    let mut i: usize = 0;
    while i < n
        invariant_except_break
            i <= n,
            !exists,
            forall|j: int| 0 <= j < i ==> ids[j] != p.participant,
        invariant
            idx < env.campaigns@.len(),
            n == ids.len(),
            ids == env.campaigns@[idx as int].participant_ids@,
            env@ == old(env)@,
        ensures
            exists <==> ids.contains(p.participant),
        decreases n - i,
    {
        if env.campaigns[idx].participant_ids[i] == p.participant {
            exists = true;
            assert(ids[i as int] == p.participant);
            break;
        }
        i = i + 1;
    }
    let ghost before = env.campaigns@;
    if !exists {
        env.campaigns[idx].participant_ids.push(p.participant);
    }
    env.campaigns[idx].participants.insert(p.participant.0, p);
    proof {
        assert(env.campaigns@ =~= before.update(idx as int, env.campaigns@[idx as int]));
        lemma_campaign_entries_view_update(before, env.campaigns@, idx as int);
        assert(env.campaigns@[idx as int]@ =~= before[idx as int]@.store_participant(p));
        assert(final(env)@ =~= old(env)@.with_campaign_entry(
            campaign_id,
            old(env)@.campaign_entry(campaign_id).store_participant(p),
        ));
    }
}


/// Applies `apply_participant_delta` to campaign `campaign_id` (at position `idx`) and returns
/// the participant's new record.
fn apply_participant_delta_exec(
    env: &mut Shade,
    campaign_id: u64,
    idx: usize,
    a: Address,
    dc: i128,
    ds: i128,
    dsl: i128,
) -> (p2: CampaignParticipant)
    requires
        old(env).wf(),
        old(env)@.has_campaign(campaign_id),
        idx == campaign_id - 1,
        dc >= 0,
        dc == 0 || ds == 0,
        participant_delta_fits(
            old(env)@.campaign_entry(campaign_id),
            campaign_id,
            a,
            dc as int,
            ds as int,
            dsl as int,
        ),
    ensures
        final(env).wf(),
        final(env).campaigns@.len() == old(env).campaigns@.len(),
        final(env)@ == old(env)@.with_campaign_entry(
            campaign_id,
            apply_participant_delta(
                old(env)@.campaign_entry(campaign_id),
                campaign_id,
                a,
                dc as int,
                ds as int,
                dsl as int,
            ),
        ),
        p2 == final(env)@.campaign_entry(campaign_id).participants[a.0],
        p2.staked == old(env)@.campaign_entry(campaign_id).participant_of(campaign_id, a).staked
            + ds,
        final(env)@.campaign_entry(campaign_id).campaign.total_raised == old(env)@.campaign_entry(
            campaign_id,
        ).campaign.total_raised + dc,
{
    let ghost m0 = env@;
    let ghost e0 = env@.campaign_entry(campaign_id);
    proof {
        assert(m0.campaigns[idx as int].wf(campaign_id));
        lemma_participant_within_totals(e0, campaign_id, a);
        lemma_campaign_entries_view_update(env.campaigns@, env.campaigns@, idx as int);
    }
    let mut p = get_participant(env, campaign_id, idx, a);
    let total_raised = env.campaigns[idx].campaign.total_raised + dc;
    let total_staked = env.campaigns[idx].campaign.total_staked + ds;
    let total_slashed = env.campaigns[idx].campaign.total_slashed + dsl;
    let ghost before = env.campaigns@;
    env.campaigns[idx].campaign.total_raised = total_raised;
    env.campaigns[idx].campaign.total_staked = total_staked;
    env.campaigns[idx].campaign.total_slashed = total_slashed;
    proof {
        assert(env.campaigns@ =~= before.update(idx as int, env.campaigns@[idx as int]));
        lemma_campaign_entries_view_update(before, env.campaigns@, idx as int);
    }
    p.contributed = p.contributed + dc;
    p.staked = p.staked + ds;
    p.slashed = p.slashed + dsl;
    p.score = p.score + dc;
    p.score = p.score + ds;
    store_participant(env, campaign_id, idx, p);
    proof {
        let e2 = apply_participant_delta(e0, campaign_id, a, dc as int, ds as int, dsl as int);
        assert(env@ =~= m0.with_campaign_entry(campaign_id, e2));
        lemma_participant_delta_wf(e0, campaign_id, a, dc as int, ds as int, dsl as int);
        lemma_campaign_entry_update_wf(m0, campaign_id, e2);
        lemma_campaign_entries_view_len(env.campaigns@);
        lemma_campaign_entries_view_len(old(env).campaigns@);
    }
    p
}

/// The entry of a newly created campaign.
pub open spec fn new_campaign_entry(
    id: u64,
    owner: Address,
    name: Seq<u8>,
    charity: bool,
    fee_waiver_bps: u32,
    discount_bps: u32,
    stake_required: i128,
    now: u64,
) -> CampaignEntryModel {
    CampaignEntryModel {
        campaign: CampaignModel {
            id,
            owner,
            name,
            charity,
            fee_waiver_bps,
            discount_bps,
            stake_required,
            total_raised: 0,
            total_staked: 0,
            total_slashed: 0,
            total_commissions_paid: 0,
            active: true,
            created_at: now,
        },
        participant_ids: Seq::empty(),
        participants: Map::empty(),
        affiliates: Map::empty(),
    }
}

/// Creates a campaign owned by `caller`, numbered one past the last, with nothing raised,
/// staked, slashed or paid yet. Both fee rates are in basis points, at most 10_000.
pub fn create_campaign(
    env: &mut Shade,
    caller: Address,
    name: Vec<u8>,
    charity: bool,
    fee_waiver_bps: u32,
    discount_bps: u32,
    stake_required: i128,
    now: u64,
) -> (r: Result<(u64, ShadeEvent), ContractError>)
    requires
        old(env).wf(),
        old(env)@.campaigns.len() < u64::MAX,
    ensures
        final(env).wf(),
        fee_waiver_bps > 10_000 || discount_bps > 10_000 || stake_required < 0 ==> r matches Err(
            ContractError::InvalidAmount,
        ),
        r is Err ==> final(env)@ == old(env)@,
        r matches Ok((cid, _)) ==> {
            let e = final(env)@.campaign_entry(cid);
            &&& final(env)@.has_campaign(cid)
            &&& e.campaign.id == cid
            &&& e.campaign.owner == caller
            &&& e.campaign.name == name@
            &&& e.campaign.charity == charity
            &&& e.campaign.fee_waiver_bps == fee_waiver_bps
            &&& e.campaign.discount_bps == discount_bps
            &&& e.campaign.stake_required == stake_required
            &&& e.campaign.total_raised == 0
            &&& e.campaign.total_staked == 0
            &&& e.campaign.total_slashed == 0
            &&& e.campaign.total_commissions_paid == 0
            &&& e.campaign.active
            &&& e.campaign.created_at == now
            &&& e.participant_ids.len() == 0
            &&& e.affiliates.dom().is_empty()
        },
        fee_waiver_bps <= 10_000 && discount_bps <= 10_000 && stake_required >= 0 ==> {
            let id = (old(env)@.campaigns.len() + 1) as u64;
            &&& r matches Ok((cid, ev)) && cid == id && (ev matches ShadeEvent::CampaignCreated {
                campaign_id,
                owner,
                name: n,
                charity: ch,
                fee_waiver_bps: f,
                discount_bps: d,
                timestamp,
            } && campaign_id == id && owner == caller && n@ == name@ && ch == charity && f
                == fee_waiver_bps && d == discount_bps && timestamp == now)
            &&& final(env)@ == ShadeModel {
                campaigns: old(env)@.campaigns.push(
                    new_campaign_entry(
                        id,
                        caller,
                        name@,
                        charity,
                        fee_waiver_bps,
                        discount_bps,
                        stake_required,
                        now,
                    ),
                ),
                ..old(env)@
            }
        },
{
    if fee_waiver_bps > 10_000 || discount_bps > 10_000 {
        return Err(ContractError::InvalidAmount);
    }
    if stake_required < 0 {
        return Err(ContractError::InvalidAmount);
    }
    let campaign_id = get_campaign_count(env) + 1;
    let event_name = copy_bytes(&name);
    let ghost name_v = name@;
    let campaign = Campaign {
        id: campaign_id,
        owner: caller,
        name,
        charity,
        fee_waiver_bps,
        discount_bps,
        stake_required,
        total_raised: 0,
        total_staked: 0,
        total_slashed: 0,
        total_commissions_paid: 0,
        active: true,
        created_at: now,
    };
    let ghost m0 = env@;
    let entry = CampaignEntry {
        campaign,
        participant_ids: Vec::new(),
        participants: HashMap::new(),
        affiliates: HashMap::new(),
    };
    let ghost ev = entry@;
    env.campaigns.push(entry);
    proof {
        let e = new_campaign_entry(
            campaign_id,
            caller,
            name_v,
            charity,
            fee_waiver_bps,
            discount_bps,
            stake_required,
            now,
        );
        assert(ev =~= e);
        assert(env@.campaigns =~= m0.campaigns.push(e));
        assert(e.wf(campaign_id)) by {
            assert(e.participant_ids.no_duplicates());
        }
        lemma_campaign_entry_push_wf(m0, e);
    }
    Ok(
        (
            campaign_id,
            ShadeEvent::CampaignCreated {
                campaign_id,
                owner: caller,
                name: event_name,
                charity,
                fee_waiver_bps,
                discount_bps,
                timestamp: now,
            },
        ),
    )
}

/// The number of campaigns created so far, which is also the id of the latest.
fn get_campaign_count(env: &Shade) -> (n: u64)
    ensures
        n == env@.campaigns.len(),
{
    env.campaigns.len() as u64
}

/// Records a contribution of `amount` by `caller` to campaign `campaign_id`: the campaign's
/// raised total and the caller's contribution and score all grow by `amount`.
pub fn record_campaign_contribution(
    env: &mut Shade,
    caller: Address,
    campaign_id: u64,
    amount: i128,
    now: u64,
) -> (r: Result<ShadeEvent, ContractError>)
    requires
        old(env).wf(),
        amount > 0 && old(env)@.has_campaign(campaign_id) ==> participant_delta_fits(
            old(env)@.campaign_entry(campaign_id),
            campaign_id,
            caller,
            amount as int,
            0,
            0,
        ),
    ensures
        final(env).wf(),
        amount <= 0 ==> r == Err::<ShadeEvent, ContractError>(ContractError::InvalidAmount),
        amount > 0 && !old(env)@.has_campaign(campaign_id) ==> r == Err::<
            ShadeEvent,
            ContractError,
        >(ContractError::CampaignNotFound),
        r is Err ==> final(env)@ == old(env)@,
        amount > 0 && old(env)@.has_campaign(campaign_id) ==> {
            let o = old(env)@.campaign_entry(campaign_id);
            let n = final(env)@.campaign_entry(campaign_id);
            &&& n.participant_of(campaign_id, caller).contributed == o.participant_of(
                campaign_id,
                caller,
            ).contributed + amount
            &&& n.participant_of(campaign_id, caller).staked == o.participant_of(
                campaign_id,
                caller,
            ).staked
            &&& n.participant_of(campaign_id, caller).score == o.participant_of(
                campaign_id,
                caller,
            ).score + amount
            &&& n.campaign.total_raised == o.campaign.total_raised + amount
            &&& n.campaign.total_staked == o.campaign.total_staked
        },
        amount > 0 && old(env)@.has_campaign(campaign_id) ==> {
            &&& final(env)@ == old(env)@.with_campaign_entry(
                campaign_id,
                apply_participant_delta(
                    old(env)@.campaign_entry(campaign_id),
                    campaign_id,
                    caller,
                    amount as int,
                    0,
                    0,
                ),
            )
            &&& r == Ok::<ShadeEvent, ContractError>(
                ShadeEvent::CampaignContributionRecorded {
                    campaign_id,
                    contributor: caller,
                    amount,
                    total_raised: (old(env)@.campaign_entry(campaign_id).campaign.total_raised
                        + amount) as i128,
                    timestamp: now,
                },
            )
        },
{
    proof {
        if amount > 0 && old(env)@.has_campaign(campaign_id) {
            let e = old(env)@.campaign_entry(campaign_id);
            assert(old(env)@.campaigns[campaign_id - 1].wf(campaign_id));
            lemma_participant_delta_effect(e, campaign_id, caller, amount as int, 0, 0, caller);
        }
    }
    if amount <= 0 {
        return Err(ContractError::InvalidAmount);
    }
    let idx = match campaign_index(env, campaign_id) {
        Some(i) => i,
        None => return Err(ContractError::CampaignNotFound),
    };
    apply_participant_delta_exec(env, campaign_id, idx, caller, amount, 0, 0);
    proof {
        lemma_campaign_entries_view_update(env.campaigns@, env.campaigns@, idx as int);
    }
    let total_raised = env.campaigns[idx].campaign.total_raised;
    Ok(
        ShadeEvent::CampaignContributionRecorded {
            campaign_id,
            contributor: caller,
            amount,
            total_raised,
            timestamp: now,
        },
    )
}


/// Campaign entry `e` with its fee waiver and discount rates replaced.
pub open spec fn fee_policy_entry(
    e: CampaignEntryModel,
    fee_waiver_bps: u32,
    discount_bps: u32,
) -> CampaignEntryModel {
    CampaignEntryModel { campaign: CampaignModel { fee_waiver_bps, discount_bps, ..e.campaign }, ..e }
}

/// Sets the fee waiver and discount rates (basis points, at most 10_000 each) of campaign
/// `campaign_id`; only its owner or the admin may.
pub fn configure_campaign_fee_policy(
    env: &mut Shade,
    caller: Address,
    campaign_id: u64,
    fee_waiver_bps: u32,
    discount_bps: u32,
    now: u64,
) -> (r: Result<ShadeEvent, ContractError>)
    requires
        old(env).wf(),
    ensures
        final(env).wf(),
        r is Ok ==> {
            &&& final(env)@.has_campaign(campaign_id)
            &&& final(env)@.campaign_entry(campaign_id).campaign.fee_waiver_bps == fee_waiver_bps
            &&& final(env)@.campaign_entry(campaign_id).campaign.discount_bps == discount_bps
        },
        fee_waiver_bps > 10_000 || discount_bps > 10_000 ==> r == Err::<ShadeEvent, ContractError>(
            ContractError::InvalidAmount,
        ),
        fee_waiver_bps <= 10_000 && discount_bps <= 10_000 && !old(env)@.has_campaign(campaign_id)
            ==> r == Err::<ShadeEvent, ContractError>(ContractError::CampaignNotFound),
        fee_waiver_bps <= 10_000 && discount_bps <= 10_000 && old(env)@.has_campaign(campaign_id)
            ==> match campaign_manager_check(old(env)@, campaign_id, caller) {
            Some(e) => r == Err::<ShadeEvent, ContractError>(e),
            None => {
                &&& final(env)@ == old(env)@.with_campaign_entry(
                    campaign_id,
                    fee_policy_entry(
                        old(env)@.campaign_entry(campaign_id),
                        fee_waiver_bps,
                        discount_bps,
                    ),
                )
                &&& r == Ok::<ShadeEvent, ContractError>(
                    ShadeEvent::CampaignFeePolicyConfigured {
                        campaign_id,
                        caller,
                        fee_waiver_bps,
                        discount_bps,
                        timestamp: now,
                    },
                )
            },
        },
        r is Err ==> final(env)@ == old(env)@,
{
    if fee_waiver_bps > 10_000 || discount_bps > 10_000 {
        return Err(ContractError::InvalidAmount);
    }
    let idx = match campaign_index(env, campaign_id) {
        Some(i) => i,
        None => return Err(ContractError::CampaignNotFound),
    };
    check_campaign_manager(env, campaign_id, idx, caller)?;
    let ghost m0 = env@;
    let ghost before = env.campaigns@;
    proof {
        lemma_campaign_entries_view_update(before, before, idx as int);
    }
    env.campaigns[idx].campaign.fee_waiver_bps = fee_waiver_bps;
    env.campaigns[idx].campaign.discount_bps = discount_bps;
    proof {
        assert(env.campaigns@ =~= before.update(idx as int, env.campaigns@[idx as int]));
        lemma_campaign_entries_view_update(before, env.campaigns@, idx as int);
        let e2 = fee_policy_entry(m0.campaign_entry(campaign_id), fee_waiver_bps, discount_bps);
        assert(env@ =~= m0.with_campaign_entry(campaign_id, e2));
        assert(m0.campaigns[idx as int].wf(campaign_id));
        lemma_campaign_entry_update_wf(m0, campaign_id, e2);
    }
    Ok(
        ShadeEvent::CampaignFeePolicyConfigured {
            campaign_id,
            caller,
            fee_waiver_bps,
            discount_bps,
            timestamp: now,
        },
    )
}

/// What remains of `amount` once campaign `e`'s fee waiver and discount, each a rounded-down
/// share of `amount` in basis points, are taken off.
pub open spec fn discounted_amount(e: CampaignEntryModel, amount: i128) -> int {
    amount - (amount * e.campaign.fee_waiver_bps) / 10_000 - (amount * e.campaign.discount_bps)
        / 10_000
}

/// The amount due on `amount` under campaign `campaign_id`'s fee policy; 0 when `amount` is
/// not positive, whatever the campaign.
pub fn calculate_campaign_discounted_amount(env: &Shade, campaign_id: u64, amount: i128) -> (r:
    Result<i128, ContractError>)
    requires
        env.wf(),
        amount > 0 && env@.has_campaign(campaign_id) ==> {
            &&& amount * env@.campaign_entry(campaign_id).campaign.fee_waiver_bps <= i128::MAX
            &&& amount * env@.campaign_entry(campaign_id).campaign.discount_bps <= i128::MAX
        },
    ensures
        amount <= 0 ==> r == Ok::<i128, ContractError>(0),
        amount > 0 && !env@.has_campaign(campaign_id) ==> r == Err::<i128, ContractError>(
            ContractError::CampaignNotFound,
        ),
        amount > 0 && env@.has_campaign(campaign_id) ==> r == Ok::<i128, ContractError>(
            discounted_amount(env@.campaign_entry(campaign_id), amount) as i128,
        ),
{
    if amount <= 0 {
        return Ok(0);
    }
    let idx = match campaign_index(env, campaign_id) {
        Some(i) => i,
        None => return Err(ContractError::CampaignNotFound),
    };
    proof {
        lemma_campaign_entries_view_update(env.campaigns@, env.campaigns@, idx as int);
        assert(env@.campaigns[idx as int].wf(campaign_id));
    }
    let fee_waiver_bps = env.campaigns[idx].campaign.fee_waiver_bps as i128;
    let discount_bps = env.campaigns[idx].campaign.discount_bps as i128;
    let waiver = (amount * fee_waiver_bps) / 10_000i128;
    let discount = (amount * discount_bps) / 10_000i128;
    proof {
        assert(0 <= amount * fee_waiver_bps <= amount * 10_000) by (nonlinear_arith)
            requires
                amount > 0,
                0 <= fee_waiver_bps <= 10_000,
        ;
        assert(0 <= amount * discount_bps <= amount * 10_000) by (nonlinear_arith)
            requires
                amount > 0,
                0 <= discount_bps <= 10_000,
        ;
    }
    Ok(amount - waiver - discount)
}


/// Stakes `amount` from `caller` on campaign `campaign_id`: the caller's stake and score and
/// the campaign's staked total all grow by `amount`.
pub fn stake_campaign(
    env: &mut Shade,
    caller: Address,
    campaign_id: u64,
    amount: i128,
    now: u64,
) -> (r: Result<ShadeEvent, ContractError>)
    requires
        old(env).wf(),
        amount > 0 && old(env)@.has_campaign(campaign_id) ==> participant_delta_fits(
            old(env)@.campaign_entry(campaign_id),
            campaign_id,
            caller,
            0,
            amount as int,
            0,
        ),
    ensures
        final(env).wf(),
        amount <= 0 ==> r == Err::<ShadeEvent, ContractError>(ContractError::InvalidAmount),
        amount > 0 && !old(env)@.has_campaign(campaign_id) ==> r == Err::<
            ShadeEvent,
            ContractError,
        >(ContractError::CampaignNotFound),
        r is Err ==> final(env)@ == old(env)@,
        amount > 0 && old(env)@.has_campaign(campaign_id) ==> {
            let o = old(env)@.campaign_entry(campaign_id);
            let n = final(env)@.campaign_entry(campaign_id);
            &&& n.participant_of(campaign_id, caller).staked == o.participant_of(
                campaign_id,
                caller,
            ).staked + amount
            &&& n.participant_of(campaign_id, caller).contributed == o.participant_of(
                campaign_id,
                caller,
            ).contributed
            &&& n.participant_of(campaign_id, caller).score == o.participant_of(
                campaign_id,
                caller,
            ).score + amount
            &&& n.campaign.total_staked == o.campaign.total_staked + amount
            &&& n.campaign.total_raised == o.campaign.total_raised
        },
        amount > 0 && old(env)@.has_campaign(campaign_id) ==> {
            &&& final(env)@ == old(env)@.with_campaign_entry(
                campaign_id,
                apply_participant_delta(
                    old(env)@.campaign_entry(campaign_id),
                    campaign_id,
                    caller,
                    0,
                    amount as int,
                    0,
                ),
            )
            &&& r == Ok::<ShadeEvent, ContractError>(
                ShadeEvent::CampaignStaked {
                    campaign_id,
                    participant: caller,
                    amount,
                    total_staked: (old(env)@.campaign_entry(campaign_id).participant_of(
                        campaign_id,
                        caller,
                    ).staked + amount) as i128,
                    timestamp: now,
                },
            )
        },
{
    proof {
        if amount > 0 && old(env)@.has_campaign(campaign_id) {
            let e = old(env)@.campaign_entry(campaign_id);
            assert(old(env)@.campaigns[campaign_id - 1].wf(campaign_id));
            lemma_participant_delta_effect(e, campaign_id, caller, 0, amount as int, 0, caller);
        }
    }
    if amount <= 0 {
        return Err(ContractError::InvalidAmount);
    }
    let idx = match campaign_index(env, campaign_id) {
        Some(i) => i,
        None => return Err(ContractError::CampaignNotFound),
    };
    let p = apply_participant_delta_exec(env, campaign_id, idx, caller, 0, amount, 0);
    Ok(
        ShadeEvent::CampaignStaked {
            campaign_id,
            participant: caller,
            amount,
            total_staked: p.staked,
            timestamp: now,
        },
    )
}

/// Slashing `amount` of `participant`'s stake in campaign `campaign_id` reaches its update:
/// the amount is positive, the campaign exists, `caller` may manage it and the stake covers
/// the amount.
pub open spec fn slash_reaches_update(
    m: ShadeModel,
    caller: Address,
    campaign_id: u64,
    participant: Address,
    amount: i128,
) -> bool {
    &&& amount > 0
    &&& m.has_campaign(campaign_id)
    &&& campaign_manager_check(m, campaign_id, caller).is_none()
    &&& m.campaign_entry(campaign_id).participant_of(campaign_id, participant).staked >= amount
}

/// Slashes `amount` of `participant`'s stake in campaign `campaign_id`; only the campaign's
/// owner or the admin may. The amount moves from the participant's stake (and score) to its
/// slashed amount, and likewise between the campaign's totals.
pub fn slash_campaign_stake(
    env: &mut Shade,
    caller: Address,
    campaign_id: u64,
    participant: Address,
    amount: i128,
    now: u64,
) -> (r: Result<ShadeEvent, ContractError>)
    requires
        old(env).wf(),
        slash_reaches_update(old(env)@, caller, campaign_id, participant, amount)
            ==> old(env)@.campaign_entry(campaign_id).campaign.total_slashed + amount
            <= i128::MAX,
    ensures
        final(env).wf(),
        amount <= 0 ==> r == Err::<ShadeEvent, ContractError>(ContractError::InvalidAmount),
        amount > 0 && !old(env)@.has_campaign(campaign_id) ==> r == Err::<
            ShadeEvent,
            ContractError,
        >(ContractError::CampaignNotFound),
        amount > 0 && old(env)@.has_campaign(campaign_id) ==> match campaign_manager_check(
            old(env)@,
            campaign_id,
            caller,
        ) {
            Some(e) => r == Err::<ShadeEvent, ContractError>(e),
            None => old(env)@.campaign_entry(campaign_id).participant_of(
                campaign_id,
                participant,
            ).staked < amount ==> r == Err::<ShadeEvent, ContractError>(
                ContractError::InvalidAmount,
            ),
        },
        r is Err ==> final(env)@ == old(env)@,
        slash_reaches_update(old(env)@, caller, campaign_id, participant, amount) ==> {
            let o = old(env)@.campaign_entry(campaign_id);
            let n = final(env)@.campaign_entry(campaign_id);
            &&& n.participant_of(campaign_id, participant).staked == o.participant_of(
                campaign_id,
                participant,
            ).staked - amount
            &&& n.participant_of(campaign_id, participant).slashed == o.participant_of(
                campaign_id,
                participant,
            ).slashed + amount
            &&& n.participant_of(campaign_id, participant).score == o.participant_of(
                campaign_id,
                participant,
            ).score - amount
            &&& n.campaign.total_staked == o.campaign.total_staked - amount
            &&& n.campaign.total_slashed == o.campaign.total_slashed + amount
        },
        slash_reaches_update(old(env)@, caller, campaign_id, participant, amount) ==> {
            &&& final(env)@ == old(env)@.with_campaign_entry(
                campaign_id,
                apply_participant_delta(
                    old(env)@.campaign_entry(campaign_id),
                    campaign_id,
                    participant,
                    0,
                    -amount,
                    amount as int,
                ),
            )
            &&& r == Ok::<ShadeEvent, ContractError>(
                ShadeEvent::CampaignSlashed {
                    campaign_id,
                    participant,
                    amount,
                    remaining_stake: (old(env)@.campaign_entry(campaign_id).participant_of(
                        campaign_id,
                        participant,
                    ).staked - amount) as i128,
                    timestamp: now,
                },
            )
        },
{
    proof {
        if slash_reaches_update(old(env)@, caller, campaign_id, participant, amount) {
            let e = old(env)@.campaign_entry(campaign_id);
            assert(old(env)@.campaigns[campaign_id - 1].wf(campaign_id));
            lemma_participant_within_totals(e, campaign_id, participant);
            lemma_participant_delta_effect(
                e,
                campaign_id,
                participant,
                0,
                -amount,
                amount as int,
                participant,
            );
        }
    }
    if amount <= 0 {
        return Err(ContractError::InvalidAmount);
    }
    let idx = match campaign_index(env, campaign_id) {
        Some(i) => i,
        None => return Err(ContractError::CampaignNotFound),
    };
    check_campaign_manager(env, campaign_id, idx, caller)?;
    let current = get_participant(env, campaign_id, idx, participant);
    if current.staked < amount {
        return Err(ContractError::InvalidAmount);
    }
    proof {
        lemma_campaign_entries_view_update(env.campaigns@, env.campaigns@, idx as int);
        assert(env@.campaigns[idx as int].wf(campaign_id));
        lemma_participant_within_totals(env@.campaign_entry(campaign_id), campaign_id, participant);
    }
    let p = apply_participant_delta_exec(env, campaign_id, idx, participant, 0, -amount, amount);
    Ok(
        ShadeEvent::CampaignSlashed {
            campaign_id,
            participant,
            amount,
            remaining_stake: p.staked,
            timestamp: now,
        },
    )
}

/// Campaign entry `e` (of campaign `id`) with `affiliate` registered afresh at `commission_bps`.
pub open spec fn affiliate_entry(
    e: CampaignEntryModel,
    id: u64,
    affiliate: Address,
    commission_bps: u32,
) -> CampaignEntryModel {
    CampaignEntryModel {
        affiliates: e.affiliates.insert(
            affiliate.0,
            CampaignAffiliate {
                campaign_id: id,
                affiliate,
                commission_bps,
                total_paid: 0,
                active: true,
            },
        ),
        ..e
    }
}

/// Registers `affiliate` on campaign `campaign_id` at `commission_bps` (at most 10_000), with
/// nothing paid yet; a registration already there is replaced. Only the campaign's owner or
/// the admin may.
pub fn register_affiliate(
    env: &mut Shade,
    caller: Address,
    campaign_id: u64,
    affiliate: Address,
    commission_bps: u32,
    now: u64,
) -> (r: Result<ShadeEvent, ContractError>)
    requires
        old(env).wf(),
    ensures
        final(env).wf(),
        r is Ok ==> {
            let e = final(env)@.campaign_entry(campaign_id);
            &&& final(env)@.has_campaign(campaign_id)
            &&& e.affiliates.contains_key(affiliate.0)
            &&& e.affiliates[affiliate.0] == CampaignAffiliate {
                campaign_id,
                affiliate,
                commission_bps,
                total_paid: 0,
                active: true,
            }
            &&& e.campaign == old(env)@.campaign_entry(campaign_id).campaign
        },
        commission_bps > 10_000 ==> r == Err::<ShadeEvent, ContractError>(
            ContractError::InvalidAmount,
        ),
        commission_bps <= 10_000 && !old(env)@.has_campaign(campaign_id) ==> r == Err::<
            ShadeEvent,
            ContractError,
        >(ContractError::CampaignNotFound),
        commission_bps <= 10_000 && old(env)@.has_campaign(campaign_id) ==> match campaign_manager_check(
            old(env)@,
            campaign_id,
            caller,
        ) {
            Some(e) => r == Err::<ShadeEvent, ContractError>(e),
            None => {
                &&& final(env)@ == old(env)@.with_campaign_entry(
                    campaign_id,
                    affiliate_entry(
                        old(env)@.campaign_entry(campaign_id),
                        campaign_id,
                        affiliate,
                        commission_bps,
                    ),
                )
                &&& r == Ok::<ShadeEvent, ContractError>(
                    ShadeEvent::AffiliateRegistered {
                        campaign_id,
                        affiliate,
                        commission_bps,
                        timestamp: now,
                    },
                )
            },
        },
        r is Err ==> final(env)@ == old(env)@,
{
    if commission_bps > 10_000 {
        return Err(ContractError::InvalidAmount);
    }
    let idx = match campaign_index(env, campaign_id) {
        Some(i) => i,
        None => return Err(ContractError::CampaignNotFound),
    };
    check_campaign_manager(env, campaign_id, idx, caller)?;
    let ghost m0 = env@;
    let ghost before = env.campaigns@;
    proof {
        lemma_campaign_entries_view_update(before, before, idx as int);
    }
    let record = CampaignAffiliate {
        campaign_id,
        affiliate,
        commission_bps,
        total_paid: 0,
        active: true,
    };
    env.campaigns[idx].affiliates.insert(affiliate.0, record);
    proof {
        assert(env.campaigns@ =~= before.update(idx as int, env.campaigns@[idx as int]));
        lemma_campaign_entries_view_update(before, env.campaigns@, idx as int);
        let e2 = affiliate_entry(m0.campaign_entry(campaign_id), campaign_id, affiliate, commission_bps);
        assert(env@ =~= m0.with_campaign_entry(campaign_id, e2));
        assert(m0.campaigns[idx as int].wf(campaign_id));
        lemma_campaign_entry_update_wf(m0, campaign_id, e2);
    }
    Ok(ShadeEvent::AffiliateRegistered { campaign_id, affiliate, commission_bps, timestamp: now })
}

/// Campaign entry `e` after paying `affiliate` a commission of `amount`: both the affiliate's
/// paid total and the campaign's commission total grow by `amount`.
pub open spec fn commission_entry(
    e: CampaignEntryModel,
    affiliate: Address,
    amount: i128,
) -> CampaignEntryModel {
    CampaignEntryModel {
        campaign: CampaignModel {
            total_commissions_paid: (e.campaign.total_commissions_paid + amount) as i128,
            ..e.campaign
        },
        affiliates: e.affiliates.insert(
            affiliate.0,
            CampaignAffiliate {
                total_paid: (e.affiliates[affiliate.0].total_paid + amount) as i128,
                ..e.affiliates[affiliate.0]
            },
        ),
        ..e
    }
}

/// Paying a commission reaches its update: the amount is positive, the campaign exists,
/// `caller` may manage it and `affiliate` is registered on it.
pub open spec fn commission_reaches_update(
    m: ShadeModel,
    caller: Address,
    campaign_id: u64,
    affiliate: Address,
    amount: i128,
) -> bool {
    &&& amount > 0
    &&& m.has_campaign(campaign_id)
    &&& campaign_manager_check(m, campaign_id, caller).is_none()
    &&& m.campaign_entry(campaign_id).affiliates.contains_key(affiliate.0)
}

/// Pays `affiliate` a commission of `amount` on campaign `campaign_id`; only the campaign's
/// owner or the admin may, and the affiliate must be registered.
pub fn pay_affiliate_commission(
    env: &mut Shade,
    caller: Address,
    campaign_id: u64,
    affiliate: Address,
    amount: i128,
    now: u64,
) -> (r: Result<ShadeEvent, ContractError>)
    requires
        old(env).wf(),
        commission_reaches_update(old(env)@, caller, campaign_id, affiliate, amount)
            ==> old(env)@.campaign_entry(campaign_id).campaign.total_commissions_paid + amount
            <= i128::MAX,
    ensures
        final(env).wf(),
        amount <= 0 ==> r == Err::<ShadeEvent, ContractError>(ContractError::InvalidAmount),
        amount > 0 && !old(env)@.has_campaign(campaign_id) ==> r == Err::<
            ShadeEvent,
            ContractError,
        >(ContractError::CampaignNotFound),
        amount > 0 && old(env)@.has_campaign(campaign_id) ==> match campaign_manager_check(
            old(env)@,
            campaign_id,
            caller,
        ) {
            Some(e) => r == Err::<ShadeEvent, ContractError>(e),
            None => !old(env)@.campaign_entry(campaign_id).affiliates.contains_key(affiliate.0)
                ==> r == Err::<ShadeEvent, ContractError>(ContractError::AffiliateNotFound),
        },
        r is Err ==> final(env)@ == old(env)@,
        commission_reaches_update(old(env)@, caller, campaign_id, affiliate, amount) ==> {
            &&& r is Ok
            &&& final(env)@.campaign_entry(campaign_id).campaign.total_commissions_paid == old(
                env,
            )@.campaign_entry(campaign_id).campaign.total_commissions_paid + amount
            &&& final(env)@.campaign_entry(campaign_id).affiliates[affiliate.0].total_paid == old(
                env,
            )@.campaign_entry(campaign_id).affiliates[affiliate.0].total_paid + amount
        },
        commission_reaches_update(old(env)@, caller, campaign_id, affiliate, amount) ==> {
            &&& final(env)@ == old(env)@.with_campaign_entry(
                campaign_id,
                commission_entry(old(env)@.campaign_entry(campaign_id), affiliate, amount),
            )
            &&& r == Ok::<ShadeEvent, ContractError>(
                ShadeEvent::AffiliateCommissionPaid {
                    campaign_id,
                    affiliate,
                    amount,
                    total_paid: (old(env)@.campaign_entry(campaign_id).affiliates[affiliate.0].total_paid
                        + amount) as i128,
                    timestamp: now,
                },
            )
        },
{
    if amount <= 0 {
        return Err(ContractError::InvalidAmount);
    }
    let idx = match campaign_index(env, campaign_id) {
        Some(i) => i,
        None => return Err(ContractError::CampaignNotFound),
    };
    check_campaign_manager(env, campaign_id, idx, caller)?;
    let ghost m0 = env@;
    let ghost before = env.campaigns@;
    proof {
        lemma_campaign_entries_view_update(before, before, idx as int);
        assert(m0.campaigns[idx as int].wf(campaign_id));
    }
    let mut record = match env.campaigns[idx].affiliates.get(&affiliate.0) {
        Some(a) => *a,
        None => return Err(ContractError::AffiliateNotFound),
    };
    record.total_paid = record.total_paid + amount;
    let total_paid = record.total_paid;
    env.campaigns[idx].campaign.total_commissions_paid = env.campaigns[idx].campaign.total_commissions_paid
        + amount;
    env.campaigns[idx].affiliates.insert(affiliate.0, record);
    proof {
        assert(env.campaigns@ =~= before.update(idx as int, env.campaigns@[idx as int]));
        lemma_campaign_entries_view_update(before, env.campaigns@, idx as int);
        let e0 = m0.campaign_entry(campaign_id);
        let e2 = commission_entry(e0, affiliate, amount);
        assert(env@ =~= m0.with_campaign_entry(campaign_id, e2));
        assert(e2.wf(campaign_id)) by {
            assert forall|k: u64| #[trigger] e2.affiliates.contains_key(k) implies
                crate::shade::affiliate_wf(
                e2.affiliates[k],
                campaign_id,
                k,
                e2.campaign.total_commissions_paid,
            ) by {
                assert(e0.affiliates.contains_key(k));
            }
        }
        lemma_campaign_entry_update_wf(m0, campaign_id, e2);
    }
    Ok(ShadeEvent::AffiliateCommissionPaid { campaign_id, affiliate, amount, total_paid, timestamp: now })
}


/// Campaign `campaign_id`, or `CampaignNotFound`.
pub fn get_campaign(env: &Shade, campaign_id: u64) -> (r: Result<&Campaign, ContractError>)
    ensures
        env@.has_campaign(campaign_id) ==> (r matches Ok(c) && c@ == env@.campaign_entry(
            campaign_id,
        ).campaign),
        !env@.has_campaign(campaign_id) ==> r matches Err(ContractError::CampaignNotFound),
{
    match campaign_index(env, campaign_id) {
        Some(idx) => {
            proof {
                lemma_campaign_entries_view_update(env.campaigns@, env.campaigns@, idx as int);
            }
            Ok(&env.campaigns[idx].campaign)
        },
        None => Err(ContractError::CampaignNotFound),
    }
}

/// The record of `participant` in campaign `campaign_id`; a fresh record (all amounts zero)
/// for an account that has not taken part, or a campaign that does not exist.
pub fn get_campaign_participant(env: &Shade, campaign_id: u64, participant: Address) -> (r:
    CampaignParticipant)
    ensures
        r == if env@.has_campaign(campaign_id) {
            env@.campaign_entry(campaign_id).participant_of(campaign_id, participant)
        } else {
            fresh_participant(campaign_id, participant)
        },
{
    match campaign_index(env, campaign_id) {
        Some(idx) => get_participant(env, campaign_id, idx, participant),
        None => CampaignParticipant {
            campaign_id,
            participant,
            contributed: 0,
            staked: 0,
            slashed: 0,
            commissions_paid: 0,
            score: 0,
        },
    }
}

/// The registration of `affiliate` on campaign `campaign_id`, or `AffiliateNotFound`.
pub fn get_campaign_affiliate(env: &Shade, campaign_id: u64, affiliate: Address) -> (r: Result<
    CampaignAffiliate,
    ContractError,
>)
    ensures
        env@.has_campaign(campaign_id) && env@.campaign_entry(campaign_id).affiliates.contains_key(
            affiliate.0,
        ) ==> r == Ok::<CampaignAffiliate, ContractError>(
            env@.campaign_entry(campaign_id).affiliates[affiliate.0],
        ),
        !(env@.has_campaign(campaign_id) && env@.campaign_entry(
            campaign_id,
        ).affiliates.contains_key(affiliate.0)) ==> r == Err::<CampaignAffiliate, ContractError>(
            ContractError::AffiliateNotFound,
        ),
{
    match campaign_index(env, campaign_id) {
        Some(idx) => {
            proof {
                lemma_campaign_entries_view_update(env.campaigns@, env.campaigns@, idx as int);
            }
            match env.campaigns[idx].affiliates.get(&affiliate.0) {
                Some(a) => Ok(*a),
                None => Err(ContractError::AffiliateNotFound),
            }
        },
        None => Err(ContractError::AffiliateNotFound),
    }
}

/// The rows of campaign `campaign_id`'s leaderboard before ranking: each participant, in the
/// order they first took part, with its score. Empty for a campaign that does not exist.
pub open spec fn leaderboard_rows(m: ShadeModel, campaign_id: u64) -> Seq<ScoreRow> {
    if m.has_campaign(campaign_id) {
        let e = m.campaign_entry(campaign_id);
        e.participant_ids.map_values(|a: Address| (a, e.participant_of(campaign_id, a).score))
    } else {
        Seq::empty()
    }
}

/// The first `limit` rows of `s`, or all of them if there are fewer.
pub open spec fn top_rows(s: Seq<ScoreRow>, limit: u32) -> Seq<ScoreRow> {
    if s.len() > limit {
        s.take(limit as int)
    } else {
        s
    }
}

/// A leaderboard has one row per listed participant of the campaign, up to `limit`; with no
/// limit in the way, every participant appears with its score, whatever that score is.
pub proof fn lemma_leaderboard_per_participant(m: ShadeModel, campaign_id: u64, limit: u32)
    ensures
        ({
            let board = top_rows(rank_by_score(leaderboard_rows(m, campaign_id)), limit);
            let e = m.campaign_entry(campaign_id);
            &&& !m.has_campaign(campaign_id) ==> board.len() == 0
            &&& m.has_campaign(campaign_id) ==> board.len() == if e.participant_ids.len() <= limit {
                e.participant_ids.len()
            } else {
                limit as nat
            }
            &&& m.has_campaign(campaign_id) && e.participant_ids.len() <= limit ==> forall|i: int|
                0 <= i < e.participant_ids.len() ==> board.contains(
                    (
                        #[trigger] e.participant_ids[i],
                        e.participant_of(campaign_id, e.participant_ids[i]).score,
                    ),
                )
        }),
{
    broadcast use vstd::seq_lib::group_to_multiset_ensures;

    let rows = leaderboard_rows(m, campaign_id);
    let ranked = rank_by_score(rows);
    lemma_rank_len(rows);
    lemma_rank_multiset(rows);
    let e = m.campaign_entry(campaign_id);
    if m.has_campaign(campaign_id) && e.participant_ids.len() <= limit {
        assert forall|i: int| 0 <= i < e.participant_ids.len() implies top_rows(ranked, limit).contains(
            (
                #[trigger] e.participant_ids[i],
                e.participant_of(campaign_id, e.participant_ids[i]).score,
            ),
        ) by {
            assert(rows[i] == (e.participant_ids[i], e.participant_of(campaign_id, e.participant_ids[i]).score));
            assert(rows.to_multiset().count(rows[i]) > 0);
            assert(ranked.to_multiset().count(rows[i]) > 0);
        }
    }
}

/// Campaign `campaign_id`'s participants with their scores, highest score first (equal scores
/// in the order the participants first took part), at most `limit` of them.
pub fn get_campaign_leaderboard(env: &Shade, campaign_id: u64, limit: u32) -> (r: Vec<ScoreRow>)
    ensures
        r@ == top_rows(rank_by_score(leaderboard_rows(env@, campaign_id)), limit),
        !env@.has_campaign(campaign_id) ==> r@.len() == 0,
        env@.has_campaign(campaign_id) ==> r@.len() == if env@.campaign_entry(
            campaign_id,
        ).participant_ids.len() <= limit {
            env@.campaign_entry(campaign_id).participant_ids.len()
        } else {
            limit as nat
        },
        env@.has_campaign(campaign_id) && env@.campaign_entry(campaign_id).participant_ids.len()
            <= limit ==> forall|i: int|
            0 <= i < env@.campaign_entry(campaign_id).participant_ids.len() ==> r@.contains(
                (
                    #[trigger] env@.campaign_entry(campaign_id).participant_ids[i],
                    env@.campaign_entry(campaign_id).participant_of(
                        campaign_id,
                        env@.campaign_entry(campaign_id).participant_ids[i],
                    ).score,
                ),
            ),
{
    proof {
        lemma_leaderboard_per_participant(env@, campaign_id, limit);
    }
    let mut rows: Vec<ScoreRow> = Vec::new();
    match campaign_index(env, campaign_id) {
        Some(idx) => {
            proof {
                lemma_campaign_entries_view_update(env.campaigns@, env.campaigns@, idx as int);
            }
            let ghost want = leaderboard_rows(env@, campaign_id);
            let ghost ids = env.campaigns@[idx as int].participant_ids@;
            let n = env.campaigns[idx].participant_ids.len();
            let mut i: usize = 0;
            while i < n
                invariant
                    i <= n,
                    n == ids.len(),
                    idx < env.campaigns@.len(),
                    idx == campaign_id - 1,
                    env@.has_campaign(campaign_id),
                    ids == env.campaigns@[idx as int].participant_ids@,
                    ids == env@.campaign_entry(campaign_id).participant_ids,
                    want.len() == n,
                    want == leaderboard_rows(env@, campaign_id),
                    rows@ == want.take(i as int),
                decreases n - i,
            {
                let a = env.campaigns[idx].participant_ids[i];
                let p = get_participant(env, campaign_id, idx, a);
                rows.push((a, p.score));
                assert(rows@ =~= want.take(i as int + 1));
                i = i + 1;
            }
            assert(want.take(n as int) =~= want);
        },
        None => {
            assert(rows@ =~= leaderboard_rows(env@, campaign_id));
        },
    }
    let ghost unranked = rows@;
    sort_rows_by_score(&mut rows);
    proof {
        lemma_rank_len(unranked);
    }
    let ghost ranked = rows@;
    while rows.len() > limit as usize
        invariant
            limit < rows@.len() ==> rows@ == ranked.take(rows@.len() as int),
            limit >= rows@.len() ==> rows@ == top_rows(ranked, limit),
            rows@.len() <= ranked.len(),
        decreases rows@.len(),
    {
        rows.pop();
        assert(rows@ =~= ranked.take(rows@.len() as int));
    }
    assert(rows@ =~= top_rows(ranked, limit));
    rows
}

} // verus!