use vstd::prelude::*;
use crate::types::Address;

verus! {

/// One leaderboard row: a participant and its score.
pub type ScoreRow = (Address, i128);

/// Inserts `x` into `s` the way one pass of insertion sort does: `x` moves
/// towards the front past every row whose score is strictly lower.
pub open spec fn insert_by_score(s: Seq<ScoreRow>, x: ScoreRow) -> Seq<ScoreRow>
    decreases s.len(),
{
    if s.len() == 0 {
        seq![x]
    } else if x.1 > s.last().1 {
        insert_by_score(s.drop_last(), x).push(s.last())
    } else {
        s.push(x)
    }
}

/// Rows ranked by score, highest first; rows with equal scores keep their order.
pub open spec fn rank_by_score(s: Seq<ScoreRow>) -> Seq<ScoreRow>
    decreases s.len(),
{
    if s.len() == 0 {
        seq![]
    } else {
        insert_by_score(rank_by_score(s.drop_last()), s.last())
    }
}

/// Scores never increase along the sequence.
pub open spec fn is_ranked(s: Seq<ScoreRow>) -> bool {
    forall|i: int, j: int| 0 <= i <= j < s.len() ==> s[i].1 >= s[j].1
}

/// Inserting into `p + t`, where every row of `t` scores below `x`, is inserting
/// into `p` and then appending `t`.
proof fn lemma_insert_past_lower(p: Seq<ScoreRow>, t: Seq<ScoreRow>, x: ScoreRow)
    requires
        forall|k: int| 0 <= k < t.len() ==> #[trigger] t[k].1 < x.1,
    ensures
        insert_by_score(p + t, x) == insert_by_score(p, x) + t,
    decreases t.len(),
{
    if t.len() == 0 {
        assert(p + t =~= p);
        assert(insert_by_score(p, x) + t =~= insert_by_score(p, x));
    } else {
        let t0 = t.drop_last();
        assert((p + t).drop_last() =~= p + t0);
        assert((p + t).last() == t.last());
        assert(t0.len() < t.len());
        assert forall|k: int| 0 <= k < t0.len() implies #[trigger] t0[k].1 < x.1 by {
            assert(t0[k] == t[k]);
        }
        lemma_insert_past_lower(p, t0, x);
        assert(insert_by_score(p, x) + t =~= (insert_by_score(p, x) + t0).push(t.last()));
    }
}

/// Sorts `rows` in place by score, highest first, by insertion sort with adjacent swaps.
#[verifier::rlimit(40)]
pub(crate) fn sort_rows_by_score(rows: &mut Vec<ScoreRow>)
    ensures
        final(rows)@ == rank_by_score(old(rows)@),
{
    let ghost orig = rows@;
    let n = rows.len();
    if n == 0 {
        assert(orig =~= seq![]);
        return;
    }
    let mut i: usize = 1;
    assert(orig.take(1).drop_last() =~= seq![]);
    assert(rank_by_score(orig.take(1).drop_last()) =~= seq![]);
    assert(insert_by_score(seq![], orig[0]) =~= seq![orig[0]]);
    assert(rank_by_score(orig.take(1)) =~= seq![orig[0]]);
    assert(rows@ =~= rank_by_score(orig.take(1)) + orig.skip(1));
    while i < n
        invariant
            1 <= i <= n,
            n == orig.len(),
            rows@.len() == n,
            rows@ == rank_by_score(orig.take(i as int)) + orig.skip(i as int),
        decreases n - i,
    {
        let ghost sorted = rank_by_score(orig.take(i as int));
        let ghost x = orig[i as int];
        proof {
            lemma_rank_len(orig.take(i as int));
        }
        let mut j: usize = i;
        loop
            invariant
                1 <= i < n,
                n == orig.len(),
                rows@.len() == n,
                sorted.len() == i,
                j <= i,
                rows@.subrange(0, j as int) == sorted.subrange(0, j as int),
                rows@[j as int] == x,
                rows@.subrange(j as int + 1, i as int + 1) == sorted.subrange(j as int, i as int),
                rows@.skip(i as int + 1) == orig.skip(i as int + 1),
                forall|k: int| j <= k < i ==> #[trigger] sorted[k].1 < x.1,
            ensures
                rows@.subrange(0, i as int + 1) == insert_by_score(sorted, x),
                rows@.skip(i as int + 1) == orig.skip(i as int + 1),
            decreases j,
        {
            let ghost p = sorted.subrange(0, j as int);
            let ghost t = sorted.subrange(j as int, i as int);
            assert(sorted =~= p + t);
            proof {
                assert forall|k: int| 0 <= k < t.len() implies #[trigger] t[k].1 < x.1 by {
                    assert(t[k] == sorted[j + k]);
                }
                lemma_insert_past_lower(p, t, x);
            }
            if j == 0 {
                assert(p =~= seq![]);
                assert(rows@.subrange(0, i as int + 1) =~= seq![x] + t);
                break;
            }
            let prev = rows[j - 1];
            let curr = rows[j];
            assert(curr == x);
            if curr.1 > prev.1 {
                let ghost before = rows@;
                rows.set(j - 1, curr);
                rows.set(j, prev);
                assert(rows@[j - 1] == x);
                proof {
                    let p1 = sorted.subrange(0, j - 1);
                    assert(p =~= p1.push(prev));
                    assert(rows@.subrange(0, j - 1) =~= before.subrange(0, j - 1));
                    assert(before.subrange(0, j - 1) =~= before.subrange(0, j as int).subrange(0, j - 1));
                    assert(rows@.subrange(0, j - 1) =~= sorted.subrange(0, j - 1));
                    assert(rows@.subrange(j as int, i as int + 1) =~= sorted.subrange(j - 1, i as int)) by {
                        assert forall|k: int| 0 <= k < i + 1 - j implies
                            #[trigger] rows@.subrange(j as int, i as int + 1)[k] == sorted.subrange(j - 1, i as int)[k] by {
                            if k == 0 {
                                assert(before.subrange(0, j as int)[j - 1] == sorted.subrange(0, j as int)[j - 1]);
                            } else {
                                assert(before.subrange(j as int + 1, i as int + 1)[k - 1]
                                    == sorted.subrange(j as int, i as int)[k - 1]);
                            }
                        }
                    }
                    assert(rows@.skip(i as int + 1) =~= before.skip(i as int + 1));
                    assert(prev == sorted[j - 1]) by {
                        assert(before.subrange(0, j as int)[j - 1] == sorted.subrange(0, j as int)[j - 1]);
                    }
                }
                j = j - 1;
            } else {
                proof {
                    assert(prev == sorted[j - 1]) by {
                        assert(rows@.subrange(0, j as int)[j - 1] == sorted.subrange(0, j as int)[j - 1]);
                    }
                    assert(p.last() == prev);
                    assert(insert_by_score(p, x) == p.push(x));
                    assert(rows@.subrange(0, i as int + 1) =~= p.push(x) + t) by {
                        assert forall|k: int| 0 <= k < i + 1 implies
                            #[trigger] rows@.subrange(0, i as int + 1)[k] == (p.push(x) + t)[k] by {
                            if k < j {
                                assert(rows@.subrange(0, j as int)[k] == p[k]);
                            } else if k > j {
                                assert(rows@.subrange(j as int + 1, i as int + 1)[k - j - 1] == t[k - j - 1]);
                            }
                        }
                    }
                }
                break;
            }
        }
        proof {
            let o = orig.take(i as int + 1);
            assert(o.drop_last() =~= orig.take(i as int));
            assert(o.last() == x);
            assert(rank_by_score(o) == insert_by_score(sorted, x));
            assert(orig.skip(i as int) =~= seq![x] + orig.skip(i as int + 1));
            assert(rows@ =~= rows@.subrange(0, i as int + 1) + rows@.skip(i as int + 1));
        }
        i = i + 1;
    }
    assert(orig.take(n as int) =~= orig);
    assert(orig.skip(n as int) =~= seq![]);
    assert(rows@ =~= rank_by_score(orig));
}

/// Ranking keeps the number of rows.
pub proof fn lemma_rank_len(s: Seq<ScoreRow>)
    ensures
        rank_by_score(s).len() == s.len(),
    decreases s.len(),
{
    if s.len() > 0 {
        lemma_rank_len(s.drop_last());
        lemma_insert_len(rank_by_score(s.drop_last()), s.last());
    }
}

proof fn lemma_insert_len(s: Seq<ScoreRow>, x: ScoreRow)
    ensures
        insert_by_score(s, x).len() == s.len() + 1,
    decreases s.len(),
{
    if s.len() > 0 && x.1 > s.last().1 {
        lemma_insert_len(s.drop_last(), x);
    }
}


/// Inserting `x` adds exactly `x` to the rows.
pub proof fn lemma_insert_multiset(s: Seq<ScoreRow>, x: ScoreRow)
    ensures
        insert_by_score(s, x).to_multiset() =~= s.to_multiset().insert(x),
    decreases s.len(),
{
    broadcast use vstd::seq_lib::group_to_multiset_ensures;

    if s.len() == 0 {
        assert(seq![x] =~= Seq::<ScoreRow>::empty().push(x));
        assert(s =~= Seq::<ScoreRow>::empty());
    } else if x.1 > s.last().1 {
        lemma_insert_multiset(s.drop_last(), x);
        assert(s.drop_last().push(s.last()) =~= s);
    }
}

/// Ranking keeps exactly the rows it is given.
pub proof fn lemma_rank_multiset(s: Seq<ScoreRow>)
    ensures
        rank_by_score(s).to_multiset() =~= s.to_multiset(),
    decreases s.len(),
{
    broadcast use vstd::seq_lib::group_to_multiset_ensures;

    if s.len() == 0 {
    } else {
        lemma_rank_multiset(s.drop_last());
        lemma_insert_multiset(rank_by_score(s.drop_last()), s.last());
        assert(s.drop_last().push(s.last()) =~= s);
    }
}

/// Inserting into ranked rows keeps them ranked.
pub proof fn lemma_insert_ranked(s: Seq<ScoreRow>, x: ScoreRow)
    requires
        is_ranked(s),
    ensures
        is_ranked(insert_by_score(s, x)),
    decreases s.len(),
{
    broadcast use vstd::seq_lib::group_to_multiset_ensures;

    if s.len() == 0 {
    } else if x.1 > s.last().1 {
        let d = s.drop_last();
        let t = insert_by_score(d, x);
        lemma_insert_ranked(d, x);
        lemma_insert_multiset(d, x);
        assert forall|i: int| 0 <= i < t.len() implies #[trigger] t[i].1 >= s.last().1 by {
            assert(t.to_multiset().count(t[i]) > 0);
            if t[i] != x {
                assert(d.to_multiset().count(t[i]) > 0);
                assert(d.contains(t[i]));
                let k = choose|k: int| 0 <= k < d.len() && d[k] == t[i];
                assert(s[k] == d[k]);
            }
        }
        let u = t.push(s.last());
        assert forall|i: int, j: int| 0 <= i <= j < u.len() implies u[i].1 >= u[j].1 by {
            if j < t.len() {
                assert(u[i] == t[i] && u[j] == t[j]);
            } else if i < t.len() {
                assert(u[i] == t[i]);
            }
        }
    } else {
        let u = s.push(x);
        assert forall|i: int, j: int| 0 <= i <= j < u.len() implies u[i].1 >= u[j].1 by {
            if j < s.len() {
                assert(u[i] == s[i] && u[j] == s[j]);
            } else if i < s.len() {
                assert(u[i] == s[i]);
                assert(s[i].1 >= s[s.len() - 1].1);
            }
        }
    }
}

/// Ranked rows are in order of score, highest first.
pub proof fn lemma_rank_ranked(s: Seq<ScoreRow>)
    ensures
        is_ranked(rank_by_score(s)),
    decreases s.len(),
{
    if s.len() > 0 {
        lemma_rank_ranked(s.drop_last());
        lemma_insert_ranked(rank_by_score(s.drop_last()), s.last());
    }
}


/// The rows of `s` that score exactly `v`, in their order in `s`.
pub open spec fn rows_scoring(s: Seq<ScoreRow>, v: i128) -> Seq<ScoreRow>
    decreases s.len(),
{
    if s.len() == 0 {
        Seq::empty()
    } else if s.last().1 == v {
        rows_scoring(s.drop_last(), v).push(s.last())
    } else {
        rows_scoring(s.drop_last(), v)
    }
}

/// Inserting `x` keeps rows of equal score in order, with `x` after those already there.
proof fn lemma_insert_stable(s: Seq<ScoreRow>, x: ScoreRow, v: i128)
    ensures
        rows_scoring(insert_by_score(s, x), v) == rows_scoring(s.push(x), v),
    decreases s.len(),
{
    assert(s.push(x).drop_last() =~= s);
    if s.len() == 0 {
        assert(seq![x] =~= s.push(x));
    } else if x.1 > s.last().1 {
        let d = s.drop_last();
        lemma_insert_stable(d, x, v);
        let t = insert_by_score(d, x);
        assert(t.push(s.last()).drop_last() =~= t);
        assert(d.push(x).drop_last() =~= d);
        assert(insert_by_score(s, x) == t.push(s.last()));
        assert(rows_scoring(d.push(x), v) == if x.1 == v {
            rows_scoring(d, v).push(x)
        } else {
            rows_scoring(d, v)
        });
        assert(rows_scoring(t.push(s.last()), v) == if s.last().1 == v {
            rows_scoring(t, v).push(s.last())
        } else {
            rows_scoring(t, v)
        });
        assert(rows_scoring(s, v) == if s.last().1 == v {
            rows_scoring(d, v).push(s.last())
        } else {
            rows_scoring(d, v)
        });
        assert(rows_scoring(s.push(x), v) == if x.1 == v {
            rows_scoring(s, v).push(x)
        } else {
            rows_scoring(s, v)
        });
    } else {
        assert(insert_by_score(s, x) == s.push(x));
    }
}

/// Ranking keeps rows of equal score in the order they came in.
pub proof fn lemma_rank_stable(s: Seq<ScoreRow>, v: i128)
    ensures
        rows_scoring(rank_by_score(s), v) == rows_scoring(s, v),
    decreases s.len(),
{
    if s.len() > 0 {
        let d = s.drop_last();
        lemma_rank_stable(d, v);
        lemma_insert_stable(rank_by_score(d), s.last(), v);
        let r = rank_by_score(d);
        assert(r.push(s.last()).drop_last() =~= r);
    }
}

} // verus!
