use vstd::prelude::*;
use crate::auto_withdrawal::{
    lemma_threshold_for_first, lemma_threshold_for_none, replaced_threshold, threshold_for,
    thresholds_with,
};
use crate::campaign::{
    apply_participant_delta, commission_entry, discounted_amount, fee_policy_entry,
    leaderboard_rows, lemma_leaderboard_per_participant, lemma_participant_within_totals,
    participant_delta_fits, top_rows,
};
use crate::errors::{ContractError, EscrowError, FactoryError, GovernanceError};
use crate::leaderboard::{
    is_ranked, lemma_rank_len, lemma_rank_multiset, lemma_rank_ranked, lemma_rank_stable,
    rank_by_score, rows_scoring,
};
use crate::shade::ShadeModel;
use crate::stretch_goals::{
    claim_refusal, claimed_entry, goal_ids_of, ids_of, lemma_goal_ids_filter, lemma_goal_ids_frame,
    lemma_goal_listed, new_stretch_goal_entry, of_crowdfund, reward_of,
    unlock_refusal, unlocked_entry,
};
use crate::types::{CampaignModel, StretchGoalReward, StretchGoalStatus, VestingSchedule};
use crate::vesting::{release_refusal, schedule_of, scheduled_entry};
use crate::totals::{ParticipantAmount, sum_over};
use crate::types::{Address, AutoWithdrawalThreshold};

verus! {

/// A campaign leaderboard is ordered by score, highest first; it holds at most `limit` rows,
/// each of them a participant of the campaign with its score.
pub proof fn law_leaderboard_ranked(m: ShadeModel, campaign_id: u64, limit: u32)
    ensures
        is_ranked(top_rows(rank_by_score(leaderboard_rows(m, campaign_id)), limit)),
        top_rows(rank_by_score(leaderboard_rows(m, campaign_id)), limit).len() <= limit,
        forall|i: int|
            0 <= i < top_rows(rank_by_score(leaderboard_rows(m, campaign_id)), limit).len()
                ==> leaderboard_rows(m, campaign_id).contains(
                #[trigger] top_rows(rank_by_score(leaderboard_rows(m, campaign_id)), limit)[i],
            ),
{
    broadcast use vstd::seq_lib::group_to_multiset_ensures;

    let rows = leaderboard_rows(m, campaign_id);
    let ranked = rank_by_score(rows);
    let top = top_rows(ranked, limit);
    lemma_rank_ranked(rows);
    lemma_rank_multiset(rows);
    assert forall|i: int, j: int| 0 <= i <= j < top.len() implies top[i].1 >= top[j].1 by {
        assert(top[i] == ranked[i] && top[j] == ranked[j]);
    }
    assert forall|i: int| 0 <= i < top.len() implies rows.contains(#[trigger] top[i]) by {
        assert(top[i] == ranked[i]);
        assert(ranked.to_multiset().count(ranked[i]) > 0);
    }
}

/// With no limit in the way, a campaign leaderboard lists every participant exactly once.
pub proof fn law_leaderboard_complete(m: ShadeModel, campaign_id: u64, limit: u32)
    requires
        leaderboard_rows(m, campaign_id).len() <= limit,
    ensures
        top_rows(rank_by_score(leaderboard_rows(m, campaign_id)), limit).to_multiset()
            == leaderboard_rows(m, campaign_id).to_multiset(),
{
    lemma_rank_len(leaderboard_rows(m, campaign_id));
    lemma_rank_multiset(leaderboard_rows(m, campaign_id));
}

/// Participants with equal scores appear on a campaign leaderboard in the order in which
/// they first took part.
pub proof fn law_leaderboard_ties_keep_order(m: ShadeModel, campaign_id: u64, score: i128)
    ensures
        rows_scoring(rank_by_score(leaderboard_rows(m, campaign_id)), score) == rows_scoring(
            leaderboard_rows(m, campaign_id),
            score,
        ),
{
    lemma_rank_stable(leaderboard_rows(m, campaign_id), score);
}

/// In a consistent state, a campaign's raised, staked and slashed totals are the sums of its
/// participants' contributions, stakes and slashed amounts; each participant's score is its
/// contribution plus its stake, and no participant holds more than the campaign's totals.
pub proof fn law_campaign_totals(m: ShadeModel, campaign_id: u64, a: Address)
    requires
        m.wf(),
        m.has_campaign(campaign_id),
    ensures
        m.campaign_entry(campaign_id).campaign.total_raised == sum_over(
            m.campaign_entry(campaign_id).participant_ids,
            m.campaign_entry(campaign_id).participants,
            ParticipantAmount::Contributed,
        ),
        m.campaign_entry(campaign_id).campaign.total_staked == sum_over(
            m.campaign_entry(campaign_id).participant_ids,
            m.campaign_entry(campaign_id).participants,
            ParticipantAmount::Staked,
        ),
        m.campaign_entry(campaign_id).campaign.total_slashed == sum_over(
            m.campaign_entry(campaign_id).participant_ids,
            m.campaign_entry(campaign_id).participants,
            ParticipantAmount::Slashed,
        ),
        m.campaign_entry(campaign_id).participant_of(campaign_id, a).score == m.campaign_entry(
            campaign_id,
        ).participant_of(campaign_id, a).contributed + m.campaign_entry(
            campaign_id,
        ).participant_of(campaign_id, a).staked,
        0 <= m.campaign_entry(campaign_id).participant_of(campaign_id, a).contributed
            <= m.campaign_entry(campaign_id).campaign.total_raised,
        0 <= m.campaign_entry(campaign_id).participant_of(campaign_id, a).staked
            <= m.campaign_entry(campaign_id).campaign.total_staked,
        0 <= m.campaign_entry(campaign_id).participant_of(campaign_id, a).slashed
            <= m.campaign_entry(campaign_id).campaign.total_slashed,
{
    assert(m.campaigns[campaign_id - 1].wf(campaign_id));
    lemma_participant_within_totals(m.campaign_entry(campaign_id), campaign_id, a);
}

/// Slashing moves stake into the slashed amount: a participant's stake plus slashed amount,
/// and the campaign's staked plus slashed totals, stay the same, while the participant's
/// score falls by the amount slashed.
pub proof fn law_slash_moves_stake(m: ShadeModel, campaign_id: u64, participant: Address, amount: i128)
    requires
        m.wf(),
        m.has_campaign(campaign_id),
        amount > 0,
        participant_delta_fits(
            m.campaign_entry(campaign_id),
            campaign_id,
            participant,
            0,
            -amount,
            amount as int,
        ),
    ensures
        ({
            let e = m.campaign_entry(campaign_id);
            let e2 = apply_participant_delta(e, campaign_id, participant, 0, -amount, amount as int);
            &&& e2.participant_of(campaign_id, participant).staked + e2.participant_of(
                campaign_id,
                participant,
            ).slashed == e.participant_of(campaign_id, participant).staked + e.participant_of(
                campaign_id,
                participant,
            ).slashed
            &&& e2.participant_of(campaign_id, participant).score == e.participant_of(
                campaign_id,
                participant,
            ).score - amount
            &&& e2.campaign.total_staked + e2.campaign.total_slashed == e.campaign.total_staked
                + e.campaign.total_slashed
            &&& e2.campaign.total_raised == e.campaign.total_raised
        }),
{
    assert(m.campaigns[campaign_id - 1].wf(campaign_id));
    lemma_participant_within_totals(m.campaign_entry(campaign_id), campaign_id, participant);
}

/// After a threshold is set for `token`, reading it back gives that threshold, and the
/// thresholds of every other token are unchanged.
pub proof fn law_threshold_read_after_write(
    s: Seq<AutoWithdrawalThreshold>,
    token: Address,
    threshold: i128,
    other: Address,
)
    requires
        other != token,
    ensures
        threshold_for(thresholds_with(s, token, threshold), token) == Some(threshold),
        threshold_for(thresholds_with(s, token, threshold), other) == threshold_for(s, other),
{
    let t = thresholds_with(s, token, threshold);
    if exists|i: int| 0 <= i < s.len() && s[i].token == token {
        let k0 = choose|i: int| 0 <= i < s.len() && s[i].token == token;
        let k = first_index(s, token, k0);
        assert(t[k] == replaced_threshold(s[k], token, threshold));
        assert forall|j: int| 0 <= j < k implies t[j].token != token by {
            assert(t[j] == replaced_threshold(s[j], token, threshold));
        }
        lemma_threshold_for_first(t, token, k);
        if exists|i: int| 0 <= i < s.len() && s[i].token == other {
            let q0 = choose|i: int| 0 <= i < s.len() && s[i].token == other;
            let q = first_index(s, other, q0);
            assert(t[q] == replaced_threshold(s[q], token, threshold));
            assert forall|j: int| 0 <= j < q implies t[j].token != other by {
                assert(t[j] == replaced_threshold(s[j], token, threshold));
            }
            lemma_threshold_for_first(t, other, q);
            lemma_threshold_for_first(s, other, q);
        } else {
            assert forall|j: int| 0 <= j < t.len() implies t[j].token != other by {
                assert(t[j] == replaced_threshold(s[j], token, threshold));
            }
            lemma_threshold_for_none(t, other);
            lemma_threshold_for_none(s, other);
        }
    } else {
        lemma_threshold_for_none(s, token);
        assert(t.drop_last() =~= s);
    }
}

/// The first position at or before `k` where `s` holds an entry for `token`.
proof fn first_index(s: Seq<AutoWithdrawalThreshold>, token: Address, k: int) -> (f: int)
    requires
        0 <= k < s.len(),
        s[k].token == token,
    ensures
        0 <= f <= k,
        s[f].token == token,
        forall|j: int| 0 <= j < f ==> s[j].token != token,
    decreases k,
{
    if exists|j: int| 0 <= j < k && s[j].token == token {
        let j = choose|j: int| 0 <= j < k && s[j].token == token;
        first_index(s, token, j)
    } else {
        k
    }
}

/// A stretch-goal reward is claimed at most once: after the recorded backer's claim goes
/// through, the reward stays recorded for the same backer and amount, and every further claim
/// is refused, with `RewardAlreadyClaimed` when it comes from that backer.
pub proof fn law_reward_claimed_once(m: ShadeModel, goal_id: u64, backer: Address, other: Address)
    requires
        claim_refusal(m, backer, goal_id) is None,
    ensures
        ({
            let m2 = m.with_stretch_goal_entry(goal_id, claimed_entry(m.stretch_goal_entry(goal_id)));
            &&& reward_of(m2, goal_id) == Some(
                StretchGoalReward { claimed: true, ..reward_of(m, goal_id)->Some_0 },
            )
            &&& claim_refusal(m2, backer, goal_id) == Some(ContractError::RewardAlreadyClaimed)
            &&& claim_refusal(m2, other, goal_id) is Some
        }),
{
}

/// A stretch goal is unlocked at most once: after an unlock goes through, the goal is unlocked
/// at that time, and every further unlock is refused, with `GoalAlreadyUnlocked` when the
/// caller is the admin.
pub proof fn law_goal_unlocked_once(
    m: ShadeModel,
    admin: Address,
    goal_id: u64,
    current_amount: i128,
    now: u64,
    caller: Address,
    amount: i128,
)
    requires
        unlock_refusal(m, admin, goal_id, current_amount) is None,
    ensures
        ({
            let m2 = m.with_stretch_goal_entry(goal_id, unlocked_entry(m.stretch_goal_entry(goal_id), now));
            &&& m2.has_stretch_goal(goal_id)
            &&& m2.stretch_goal_entry(goal_id).goal.status == StretchGoalStatus::Unlocked
            &&& m2.stretch_goal_entry(goal_id).goal.unlocked_at == now
            &&& unlock_refusal(m2, admin, goal_id, amount) == Some(ContractError::GoalAlreadyUnlocked)
            &&& unlock_refusal(m2, caller, goal_id, amount) is Some
        }),
{
}

/// A vesting tranche is released at most once: after a release goes through, the tranche is
/// marked released, and every further release is refused, with `InvalidInvoiceStatus` when the
/// caller is the admin.
pub proof fn law_tranche_released_once(
    m: ShadeModel,
    admin: Address,
    timeline_id: u64,
    tranche_index: u64,
    now: u64,
    caller: Address,
    later: u64,
)
    requires
        m.wf(),
        release_refusal(m, admin, timeline_id, tranche_index, now) is None,
    ensures
        ({
            let s = schedule_of(m, timeline_id, tranche_index)->Some_0;
            let m2 = m.with_timeline_entry(
                timeline_id,
                scheduled_entry(m.timeline_entry(timeline_id), VestingSchedule { released: true, ..s }),
            );
            &&& schedule_of(m2, timeline_id, tranche_index) == Some(
                VestingSchedule { released: true, ..s },
            )
            &&& release_refusal(m2, admin, timeline_id, tranche_index, later) == Some(
                ContractError::InvalidInvoiceStatus,
            )
            &&& release_refusal(m2, caller, timeline_id, tranche_index, later) is Some
        }),
{
    assert(m.timelines[timeline_id - 1].wf(timeline_id));
    assert(m.timeline_entry(timeline_id).schedules.contains_key(tranche_index));
}

/// A contract is initialised at most once: after an initialisation goes through, `admin` is
/// both the admin and the platform account, and any further initialisation is refused with
/// `AlreadyInitialized`.
pub proof fn law_initialize_once(m: ShadeModel, admin: Address, now: u64)
    requires
        m.initialize_refusal() is None,
    ensures
        ({
            let m2 = m.initialized(admin, now);
            &&& m2.admin == Some(admin)
            &&& m2.platform_account == Some(admin)
            &&& m2.initialize_refusal() == Some(ContractError::AlreadyInitialized)
        }),
{
}

/// Configuring a campaign's fee policy with rates `fee_waiver_bps` and `discount_bps` stores
/// exactly those rates, the fee waiver as the fee waiver and the discount as the discount,
/// changes nothing else of the campaign or of any other campaign, and the amount then due on
/// `amount` is `amount` less both rates' shares of it.
pub proof fn law_fee_policy_sets_rates(
    m: ShadeModel,
    campaign_id: u64,
    fee_waiver_bps: u32,
    discount_bps: u32,
    amount: i128,
    other: u64,
)
    requires
        m.has_campaign(campaign_id),
    ensures
        ({
            let m2 = m.with_campaign_entry(
                campaign_id,
                fee_policy_entry(m.campaign_entry(campaign_id), fee_waiver_bps, discount_bps),
            );
            let c = m.campaign_entry(campaign_id).campaign;
            let c2 = m2.campaign_entry(campaign_id).campaign;
            &&& m2.has_campaign(campaign_id)
            &&& c2.fee_waiver_bps == fee_waiver_bps
            &&& c2.discount_bps == discount_bps
            &&& c2 == CampaignModel { fee_waiver_bps: c2.fee_waiver_bps, discount_bps: c2.discount_bps, ..c }
            &&& m2.campaign_entry(campaign_id).participants == m.campaign_entry(campaign_id).participants
            &&& m2.campaign_entry(campaign_id).affiliates == m.campaign_entry(campaign_id).affiliates
            &&& discounted_amount(m2.campaign_entry(campaign_id), amount) == amount - (amount
                * fee_waiver_bps) / 10_000 - (amount * discount_bps) / 10_000
            &&& other != campaign_id && m.has_campaign(other) ==> m2.campaign_entry(other)
                == m.campaign_entry(other)
        }),
{
}

/// Paying an affiliate a commission of `amount` raises both the affiliate's paid total and
/// the campaign's commissions total by exactly `amount`, and leaves every other affiliate and
/// every participant as they were.
pub proof fn law_commission_adds_amount(
    m: ShadeModel,
    campaign_id: u64,
    affiliate: Address,
    amount: i128,
    other: Address,
)
    requires
        m.has_campaign(campaign_id),
        m.campaign_entry(campaign_id).affiliates.contains_key(affiliate.0),
    ensures
        ({
            let e = m.campaign_entry(campaign_id);
            let e2 = commission_entry(e, affiliate, amount);
            &&& e2.campaign.total_commissions_paid == (e.campaign.total_commissions_paid
                + amount) as i128
            &&& e2.affiliates.contains_key(affiliate.0)
            &&& e2.affiliates[affiliate.0].total_paid == (e.affiliates[affiliate.0].total_paid
                + amount) as i128
            &&& e2.affiliates[affiliate.0].commission_bps == e.affiliates[affiliate.0].commission_bps
            &&& e2.affiliates.dom() == e.affiliates.dom()
            &&& other != affiliate && e.affiliates.contains_key(other.0) ==> e2.affiliates[other.0]
                == e.affiliates[other.0]
            &&& e2.participants == e.participants
            &&& e2.participant_ids == e.participant_ids
        }),
{
    assert(other != affiliate ==> other.0 != affiliate.0);
}

/// Commissions accumulate: paying `first` a commission of `x` and then `second` one of `y`
/// raises the campaign's commissions total by `x + y`, whichever affiliates they are.
pub proof fn law_commissions_accumulate(
    m: ShadeModel,
    campaign_id: u64,
    first: Address,
    x: i128,
    second: Address,
    y: i128,
)
    requires
        m.has_campaign(campaign_id),
        m.campaign_entry(campaign_id).affiliates.contains_key(first.0),
        m.campaign_entry(campaign_id).affiliates.contains_key(second.0),
        i128::MIN <= m.campaign_entry(campaign_id).campaign.total_commissions_paid + x <= i128::MAX,
        i128::MIN <= m.campaign_entry(campaign_id).campaign.total_commissions_paid + x + y
            <= i128::MAX,
    ensures
        commission_entry(
            commission_entry(m.campaign_entry(campaign_id), first, x),
            second,
            y,
        ).campaign.total_commissions_paid == m.campaign_entry(campaign_id).campaign.total_commissions_paid
            + x + y,
{
}

/// Creating a stretch goal stores exactly what was asked: the goal, numbered one past the
/// last, belongs to `crowdfund_id` with `target_amount`, `description` as its description and
/// `reward_description` as its reward description, pending and without a reward; its id is
/// added at the end of that crowdfund's list, and every other crowdfund's list is unchanged.
pub proof fn law_stretch_goal_created(
    m: ShadeModel,
    crowdfund_id: u64,
    target_amount: i128,
    description: Seq<u8>,
    reward_description: Seq<u8>,
    now: u64,
    other: u64,
)
    requires
        m.stretch_goals.len() < u64::MAX,
    ensures
        ({
            let id = (m.stretch_goals.len() + 1) as u64;
            let m2 = ShadeModel {
                stretch_goals: m.stretch_goals.push(
                    new_stretch_goal_entry(
                        id,
                        crowdfund_id,
                        target_amount,
                        description,
                        reward_description,
                        now,
                    ),
                ),
                ..m
            };
            let g = m2.stretch_goal_entry(id);
            &&& m2.has_stretch_goal(id)
            &&& g.goal.id == id
            &&& g.goal.crowdfund_id == crowdfund_id
            &&& g.goal.target_amount == target_amount
            &&& g.goal.description == description
            &&& g.goal.reward_description == reward_description
            &&& g.goal.status == StretchGoalStatus::Pending
            &&& g.goal.created_at == now
            &&& g.reward is None
            &&& goal_ids_of(m2.stretch_goals, crowdfund_id) == goal_ids_of(
                m.stretch_goals,
                crowdfund_id,
            ).push(id)
            &&& other != crowdfund_id ==> goal_ids_of(m2.stretch_goals, other) == goal_ids_of(
                m.stretch_goals,
                other,
            )
        }),
{
    let id = (m.stretch_goals.len() + 1) as u64;
    let e = new_stretch_goal_entry(id, crowdfund_id, target_amount, description, reward_description, now);
    assert(m.stretch_goals.push(e).drop_last() =~= m.stretch_goals);
}

/// A crowdfund's stretch-goal list holds exactly the ids of the goals created for it, in
/// creation order and whatever their status; in particular every goal of the crowdfund is
/// listed.
pub proof fn law_crowdfund_goals_listed(m: ShadeModel, crowdfund_id: u64)
    ensures
        goal_ids_of(m.stretch_goals, crowdfund_id) == ids_of(
            m.stretch_goals.filter(of_crowdfund(crowdfund_id)),
        ),
        forall|i: int|
            0 <= i < m.stretch_goals.len() && (#[trigger] m.stretch_goals[i]).goal.crowdfund_id
                == crowdfund_id ==> goal_ids_of(m.stretch_goals, crowdfund_id).contains(
                m.stretch_goals[i].goal.id,
            ),
{
    let s = m.stretch_goals;
    lemma_goal_ids_filter(s, crowdfund_id);
    assert forall|i: int|
        0 <= i < s.len() && (#[trigger] s[i]).goal.crowdfund_id == crowdfund_id implies goal_ids_of(
        s,
        crowdfund_id,
    ).contains(s[i].goal.id) by {
        lemma_goal_listed(s, crowdfund_id, i);
    }
}

/// Unlocking a stretch goal leaves every crowdfund's stretch-goal list as it was: an unlocked
/// goal stays listed.
pub proof fn law_unlock_keeps_crowdfund_goals(m: ShadeModel, goal_id: u64, now: u64, crowdfund_id: u64)
    requires
        m.has_stretch_goal(goal_id),
    ensures
        goal_ids_of(
            m.with_stretch_goal_entry(goal_id, unlocked_entry(m.stretch_goal_entry(goal_id), now)).stretch_goals,
            crowdfund_id,
        ) == goal_ids_of(m.stretch_goals, crowdfund_id),
{
    let s1 = m.stretch_goals;
    let s2 = m.with_stretch_goal_entry(goal_id, unlocked_entry(m.stretch_goal_entry(goal_id), now)).stretch_goals;
    lemma_goal_ids_frame(s1, s2, crowdfund_id);
}

/// A campaign leaderboard has one row per listed participant, up to `limit`: its length is
/// the smaller of `limit` and the number of participants, and with no limit in the way every
/// participant appears with its score, a score of 0 included.
pub proof fn law_leaderboard_one_row_per_participant(m: ShadeModel, campaign_id: u64, limit: u32)
    ensures
        ({
            let board = top_rows(rank_by_score(leaderboard_rows(m, campaign_id)), limit);
            let e = m.campaign_entry(campaign_id);
            &&& !m.has_campaign(campaign_id) ==> board.len() == 0
            &&& m.has_campaign(campaign_id) ==> board.len() == if e.participant_ids.len() <= limit {
                e.participant_ids.len()
            } else {
                limit as nat
            }
            &&& m.has_campaign(campaign_id) && e.participant_ids.len() <= limit ==> forall|i: int|
                0 <= i < e.participant_ids.len() ==> board.contains(
                    (
                        #[trigger] e.participant_ids[i],
                        e.participant_of(campaign_id, e.participant_ids[i]).score,
                    ),
                )
        }),
{
    lemma_leaderboard_per_participant(m, campaign_id, limit);
}

/// Every crowdfund-factory error is found again from its code.
pub proof fn law_factory_error_codes(e: FactoryError, f: FactoryError)
    ensures
        e.spec_code() == f.spec_code() ==> e == f,
{
}

/// Every governance error is found again from its code.
pub proof fn law_governance_error_codes(e: GovernanceError, f: GovernanceError)
    ensures
        e.spec_code() == f.spec_code() ==> e == f,
{
}

/// Every escrow error is found again from its code.
pub proof fn law_escrow_error_codes(e: EscrowError, f: EscrowError)
    ensures
        e.spec_code() == f.spec_code() ==> e == f,
{
}

} // verus!
