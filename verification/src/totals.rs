use vstd::prelude::*;
use crate::types::{Address, CampaignParticipant};

verus! {

/// A per-participant amount that a campaign keeps a running total of.
pub enum ParticipantAmount {
    Contributed,
    Staked,
    Slashed,
}

/// The amount `which` of participant `p`.
pub open spec fn amount_of(p: CampaignParticipant, which: ParticipantAmount) -> int {
    match which {
        ParticipantAmount::Contributed => p.contributed as int,
        ParticipantAmount::Staked => p.staked as int,
        ParticipantAmount::Slashed => p.slashed as int,
    }
}

/// The sum of amount `which` over the participants listed in `ids`, whose records are in `m`.
pub open spec fn sum_over(
    ids: Seq<Address>,
    m: Map<u64, CampaignParticipant>,
    which: ParticipantAmount,
) -> int
    decreases ids.len(),
{
    if ids.len() == 0 {
        0
    } else {
        sum_over(ids.drop_last(), m, which) + amount_of(m[ids.last().0], which)
    }
}

/// Appending one participant adds its amount.
pub proof fn lemma_sum_push(
    ids: Seq<Address>,
    m: Map<u64, CampaignParticipant>,
    a: Address,
    which: ParticipantAmount,
)
    ensures
        sum_over(ids.push(a), m, which) == sum_over(ids, m, which) + amount_of(m[a.0], which),
{
    assert(ids.push(a).drop_last() =~= ids);
}

/// The sum only reads the records of the listed participants.
pub proof fn lemma_sum_frame(
    ids: Seq<Address>,
    m1: Map<u64, CampaignParticipant>,
    m2: Map<u64, CampaignParticipant>,
    which: ParticipantAmount,
)
    requires
        forall|i: int|
            0 <= i < ids.len() ==> amount_of(m1[#[trigger] ids[i].0], which) == amount_of(
                m2[ids[i].0],
                which,
            ),
    ensures
        sum_over(ids, m1, which) == sum_over(ids, m2, which),
    decreases ids.len(),
{
    if ids.len() > 0 {
        let rest = ids.drop_last();
        assert forall|i: int| 0 <= i < rest.len() implies amount_of(m1[#[trigger] rest[i].0], which)
            == amount_of(m2[rest[i].0], which) by {
            assert(rest[i] == ids[i]);
        }
        lemma_sum_frame(rest, m1, m2, which);
        assert(ids.last() == ids[ids.len() - 1]);
    }
}

/// Replacing the record of a listed participant changes the sum by the difference.
pub proof fn lemma_sum_update(
    ids: Seq<Address>,
    m: Map<u64, CampaignParticipant>,
    a: Address,
    p: CampaignParticipant,
    which: ParticipantAmount,
)
    requires
        ids.no_duplicates(),
        ids.contains(a),
    ensures
        sum_over(ids, m.insert(a.0, p), which) == sum_over(ids, m, which) - amount_of(
            m[a.0],
            which,
        ) + amount_of(p, which),
    decreases ids.len(),
{
    let rest = ids.drop_last();
    let m2 = m.insert(a.0, p);
    if ids.last() == a {
        assert forall|i: int| 0 <= i < rest.len() implies amount_of(m2[#[trigger] rest[i].0], which)
            == amount_of(m[rest[i].0], which) by {
            assert(rest[i] == ids[i]);
            assert(ids[i] != ids[ids.len() - 1]);
        }
        lemma_sum_frame(rest, m2, m, which);
    } else {
        let k = choose|k: int| 0 <= k < ids.len() && ids[k] == a;
        assert(k != ids.len() - 1);
        assert(rest[k] == a);
        assert(rest.no_duplicates()) by {
            assert forall|i: int, j: int| 0 <= i < rest.len() && 0 <= j < rest.len() && i != j
                implies rest[i] != rest[j] by {
                assert(rest[i] == ids[i] && rest[j] == ids[j]);
            }
        }
        lemma_sum_update(rest, m, a, p, which);
    }
}

/// With nonnegative amounts, each listed amount is at most the sum, and the sum is nonnegative.
pub proof fn lemma_sum_bounds(
    ids: Seq<Address>,
    m: Map<u64, CampaignParticipant>,
    which: ParticipantAmount,
)
    requires
        forall|i: int| 0 <= i < ids.len() ==> amount_of(m[#[trigger] ids[i].0], which) >= 0,
    ensures
        sum_over(ids, m, which) >= 0,
        forall|i: int|
            0 <= i < ids.len() ==> amount_of(m[#[trigger] ids[i].0], which) <= sum_over(
                ids,
                m,
                which,
            ),
    decreases ids.len(),
{
    if ids.len() > 0 {
        let rest = ids.drop_last();
        assert forall|i: int| 0 <= i < rest.len() implies amount_of(m[#[trigger] rest[i].0], which)
            >= 0 by {
            assert(rest[i] == ids[i]);
        }
        lemma_sum_bounds(rest, m, which);
        assert forall|i: int| 0 <= i < ids.len() implies amount_of(m[#[trigger] ids[i].0], which)
            <= sum_over(ids, m, which) by {
            if i < ids.len() - 1 {
                assert(rest[i] == ids[i]);
            }
        }
    }
}

} // verus!
