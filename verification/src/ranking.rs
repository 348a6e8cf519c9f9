//! The order in which corrections are offered: by priority, the higher first,
//! and among equal priorities in the order in which they were proposed.

use crate::types::{Correction, CorrectionView};
use vstd::prelude::*;

verus! {

/// No correction stands before one of higher priority.
pub open spec fn ranked(corrections: Seq<CorrectionView>) -> bool {
    forall|i: int, j: int|
        0 <= i < j < corrections.len() ==> corrections[i].priority >= corrections[j].priority
}

/// The corrections of priority `priority` among `corrections`, in their order.
pub open spec fn with_priority(corrections: Seq<CorrectionView>, priority: usize) -> Seq<
    CorrectionView,
>
    decreases corrections.len(),
{
    if corrections.len() == 0 {
        corrections
    } else if corrections.last().priority == priority {
        with_priority(corrections.drop_last(), priority).push(corrections.last())
    } else {
        with_priority(corrections.drop_last(), priority)
    }
}

/// `ordered` holds the corrections of `proposed`, by descending priority, and
/// those of one priority in the order that they have in `proposed`.
pub open spec fn is_ranking_of(
    ordered: Seq<CorrectionView>,
    proposed: Seq<CorrectionView>,
) -> bool {
    &&& ordered.len() == proposed.len()
    &&& ranked(ordered)
    &&& forall|priority: usize|
        with_priority(ordered, priority) == with_priority(proposed, priority)
}

/// Selecting one priority from two sequences in a row selects from each.
pub proof fn lemma_with_priority_add(
    first: Seq<CorrectionView>,
    second: Seq<CorrectionView>,
    priority: usize,
)
    ensures
        with_priority(first + second, priority) == with_priority(first, priority)
            + with_priority(second, priority),
    decreases second.len(),
{
    if second.len() == 0 {
        assert(first + second == first);
    } else {
        assert((first + second).drop_last() == first + second.drop_last());
        lemma_with_priority_add(first, second.drop_last(), priority);
    }
}

/// Selecting from a single correction gives it where it has the priority, and
/// nothing where it has not.
pub proof fn lemma_with_priority_one(correction: CorrectionView, priority: usize)
    ensures
        with_priority(seq![correction], priority) == if correction.priority == priority {
            seq![correction]
        } else {
            Seq::<CorrectionView>::empty()
        },
{
    let one = seq![correction];
    assert(one.drop_last() == Seq::<CorrectionView>::empty());
    assert(with_priority(one.drop_last(), priority) == Seq::<CorrectionView>::empty());
    assert(Seq::<CorrectionView>::empty().push(correction) == one);
}

/// Where no correction has the priority, selecting it gives nothing.
pub proof fn lemma_with_priority_none(corrections: Seq<CorrectionView>, priority: usize)
    requires
        forall|i: int| 0 <= i < corrections.len() ==> corrections[i].priority != priority,
    ensures
        with_priority(corrections, priority).len() == 0,
    decreases corrections.len(),
{
    if corrections.len() > 0 {
        lemma_with_priority_none(corrections.drop_last(), priority);
    }
}

/// A ranked sequence begins with the first correction of its highest
/// priority.
proof fn lemma_ranked_first(ordered: Seq<CorrectionView>)
    requires
        ranked(ordered),
        ordered.len() > 0,
    ensures
        with_priority(ordered, ordered[0].priority).len() > 0,
        with_priority(ordered, ordered[0].priority)[0] == ordered[0],
        forall|priority: usize|
            priority > ordered[0].priority ==> with_priority(ordered, priority).len() == 0,
        forall|priority: usize|
            with_priority(ordered.drop_first(), priority) == if priority == ordered[0].priority {
                with_priority(ordered, priority).drop_first()
            } else {
                with_priority(ordered, priority)
            },
{
    let head = seq![ordered[0]];
    let tail = ordered.drop_first();
    assert(head + tail == ordered);
    assert forall|priority: usize|
        with_priority(tail, priority) == if priority == ordered[0].priority {
            with_priority(ordered, priority).drop_first()
        } else {
            with_priority(ordered, priority)
        } by {
        lemma_with_priority_add(head, tail, priority);
        lemma_with_priority_one(ordered[0], priority);
        if priority == ordered[0].priority {
            assert((head + with_priority(tail, priority)).drop_first() == with_priority(
                tail,
                priority,
            ));
        } else {
            assert(Seq::<CorrectionView>::empty() + with_priority(tail, priority)
                == with_priority(tail, priority));
        }
    }
    lemma_with_priority_add(head, tail, ordered[0].priority);
    lemma_with_priority_one(ordered[0], ordered[0].priority);
    assert forall|priority: usize| priority > ordered[0].priority implies with_priority(
        ordered,
        priority,
    ).len() == 0 by {
        lemma_with_priority_none(ordered, priority);
    }
}

/// The order of the corrections is determined: two rankings of the same
/// proposals are equal.
pub proof fn lemma_ranking_unique(
    first: Seq<CorrectionView>,
    second: Seq<CorrectionView>,
    proposed: Seq<CorrectionView>,
)
    requires
        is_ranking_of(first, proposed),
        is_ranking_of(second, proposed),
    ensures
        first == second,
    decreases first.len(),
{
    if first.len() == 0 {
        assert(first == second);
    } else {
        lemma_ranked_first(first);
        lemma_ranked_first(second);
        let p = first[0].priority;
        let q = second[0].priority;
        assert(with_priority(first, p) == with_priority(second, p));
        assert(with_priority(first, q) == with_priority(second, q));
        assert(p == q);
        assert(first[0] == second[0]);
        let rest = first.drop_first();
        assert(ranked(rest)) by {
            assert forall|i: int, j: int| 0 <= i < j < rest.len() implies rest[i].priority
                >= rest[j].priority by {
                assert(rest[i] == first[i + 1] && rest[j] == first[j + 1]);
            }
        }
        assert(ranked(second.drop_first())) by {
            let other = second.drop_first();
            assert forall|i: int, j: int| 0 <= i < j < other.len() implies other[i].priority
                >= other[j].priority by {
                assert(other[i] == second[i + 1] && other[j] == second[j + 1]);
            }
        }
        assert forall|priority: usize|
            with_priority(second.drop_first(), priority) == with_priority(rest, priority) by {
            assert(with_priority(first, priority) == with_priority(second, priority));
        }
        lemma_ranking_unique(rest, second.drop_first(), rest);
        assert(first == seq![first[0]] + rest);
        assert(second == seq![second[0]] + second.drop_first());
    }
}

/// `ordered` with `correction` put behind the last of its corrections whose
/// priority is not lower.
pub open spec fn inserted(
    ordered: Seq<CorrectionView>,
    correction: CorrectionView,
) -> Seq<CorrectionView>
    decreases ordered.len(),
{
    if ordered.len() > 0 && ordered.last().priority < correction.priority {
        inserted(ordered.drop_last(), correction).push(ordered.last())
    } else {
        ordered.push(correction)
    }
}

/// The ranking of `proposed`, built by taking the corrections one by one in
/// the order in which they were proposed.
pub open spec fn ranking(proposed: Seq<CorrectionView>) -> Seq<CorrectionView>
    decreases proposed.len(),
{
    if proposed.len() == 0 {
        proposed
    } else {
        inserted(ranking(proposed.drop_last()), proposed.last())
    }
}

/// Putting a correction into a sequence keeps every priority at or above a
/// bound that held before and holds for the correction.
proof fn lemma_inserted_bound(ordered: Seq<CorrectionView>, correction: CorrectionView, bound: int)
    requires
        correction.priority >= bound,
        forall|i: int| 0 <= i < ordered.len() ==> ordered[i].priority >= bound,
    ensures
        inserted(ordered, correction).len() == ordered.len() + 1,
        forall|i: int|
            0 <= i < inserted(ordered, correction).len() ==> inserted(
                ordered,
                correction,
            )[i].priority >= bound,
    decreases ordered.len(),
{
    if ordered.len() > 0 && ordered.last().priority < correction.priority {
        lemma_inserted_bound(ordered.drop_last(), correction, bound);
    }
}

/// Putting a correction into a ranked sequence gives a ranking of the
/// sequence with the correction behind it.
pub proof fn lemma_inserted_ranks(ordered: Seq<CorrectionView>, correction: CorrectionView)
    requires
        ranked(ordered),
    ensures
        is_ranking_of(inserted(ordered, correction), ordered.push(correction)),
    decreases ordered.len(),
{
    let after = inserted(ordered, correction);
    let all = ordered.push(correction);
    assert(all.drop_last() == ordered);
    if ordered.len() > 0 && ordered.last().priority < correction.priority {
        let front = ordered.drop_last();
        let last = ordered.last();
        let inner = inserted(front, correction);
        assert(ranked(front));
        lemma_inserted_ranks(front, correction);
        lemma_inserted_bound(front, correction, last.priority as int);
        assert(after == inner.push(last));
        assert(after.drop_last() == inner);
        assert(front.push(correction).drop_last() == front);
        assert(ranked(after)) by {
            assert forall|i: int, j: int| 0 <= i < j < after.len() implies after[i].priority
                >= after[j].priority by {
                if j < inner.len() {
                    assert(after[i] == inner[i] && after[j] == inner[j]);
                } else {
                    assert(after[i] == inner[i]);
                }
            }
        }
        assert forall|priority: usize|
            with_priority(after, priority) == with_priority(all, priority) by {
            assert(with_priority(inner, priority) == with_priority(
                front.push(correction),
                priority,
            ));
            assert(after.last() == last);
            assert(front.push(correction).last() == correction);
            assert(all.last() == correction);
            assert(with_priority(front.push(correction), priority) == if correction.priority
                == priority {
                with_priority(front, priority).push(correction)
            } else {
                with_priority(front, priority)
            });
            assert(with_priority(ordered, priority) == if last.priority == priority {
                with_priority(front, priority).push(last)
            } else {
                with_priority(front, priority)
            });
        }
    } else {
        assert(ranked(after)) by {
            assert forall|i: int, j: int| 0 <= i < j < after.len() implies after[i].priority
                >= after[j].priority by {
                if j < ordered.len() {
                    assert(after[i] == ordered[i] && after[j] == ordered[j]);
                } else if ordered.len() > 0 {
                    assert(after[i] == ordered[i]);
                    assert(ordered[i].priority >= ordered.last().priority);
                }
            }
        }
    }
}

/// The ranking that is built one by one is the ranking: it holds the
/// proposals by descending priority, and those of one priority in the order
/// in which they were proposed.
pub proof fn lemma_ranking_ranks(proposed: Seq<CorrectionView>)
    ensures
        is_ranking_of(ranking(proposed), proposed),
    decreases proposed.len(),
{
    if proposed.len() > 0 {
        let front = proposed.drop_last();
        lemma_ranking_ranks(front);
        lemma_inserted_ranks(ranking(front), proposed.last());
        assert(front.push(proposed.last()) == proposed);
        let step = ranking(front).push(proposed.last());
        assert(step.drop_last() == ranking(front));
        assert forall|priority: usize|
            with_priority(ranking(proposed), priority) == with_priority(proposed, priority) by {
            assert(with_priority(ranking(front), priority) == with_priority(front, priority));
            assert(with_priority(ranking(proposed), priority) == with_priority(step, priority));
        }
    }
}

/// The corrections of `proposed` in the order in which they are offered: by
/// descending priority, and those of one priority in the order in which they
/// were proposed.
pub fn rank(proposed: Vec<Correction>) -> (ordered: Vec<Correction>)
    ensures
        is_ranking_of(ordered.deep_view(), proposed.deep_view()),
        ordered.deep_view() == ranking(proposed.deep_view()),
{
    let ghost all = proposed.deep_view();
    let mut pending = proposed;
    let mut ordered: Vec<Correction> = Vec::new();
    let mut done: usize = 0;
    let total: usize = pending.len();
    assert(all.take(0) == Seq::<CorrectionView>::empty());
    assert(ordered.deep_view() == Seq::<CorrectionView>::empty());
    while pending.len() > 0
        invariant
            all.len() == total,
            done + pending.len() == total,
            pending.deep_view() == all.skip(done as int),
            is_ranking_of(ordered.deep_view(), all.take(done as int)),
        decreases pending.len(),
    {
        let ghost before = ordered.deep_view();
        let ghost old_pending = pending.deep_view();
        let next = pending.remove(0);
        assert(old_pending[0] == next@);
        assert(pending.deep_view() == old_pending.remove(0));
        assert(next@ == all[done as int]);
        let mut at: usize = ordered.len();
        while at > 0 && ordered[at - 1].priority < next.priority
            invariant
                at <= ordered.len(),
                forall|i: int| at <= i < ordered.len() ==> ordered@[i].priority < next.priority,
            decreases at,
        {
            at = at - 1;
        }
        ordered.insert(at, next);
        proof {
            let after = ordered.deep_view();
            let front = before.take(at as int);
            let back = before.skip(at as int);
            assert(after == front + seq![next@] + back);
            assert(before == front + back);
            assert(ranked(after)) by {
                assert forall|i: int, j: int| 0 <= i < j < after.len() implies after[i].priority
                    >= after[j].priority by {
                    if j < at {
                        assert(after[i] == before[i] && after[j] == before[j]);
                    } else if j == at {
                        assert(after[i] == before[i]);
                        assert(before[at - 1].priority >= next.priority);
                        if i < at - 1 {
                            assert(before[i].priority >= before[at - 1].priority);
                        }
                    } else if i < at {
                        assert(after[i] == before[i] && after[j] == before[j - 1]);
                    } else if i == at {
                        assert(after[j] == before[j - 1]);
                    } else {
                        assert(after[i] == before[i - 1] && after[j] == before[j - 1]);
                    }
                }
            }
            assert(all.take(done + 1) == all.take(done as int).push(next@));
            assert((all.take(done as int).push(next@)).drop_last() == all.take(done as int));
            assert forall|priority: usize|
                with_priority(after, priority) == with_priority(
                    all.take(done + 1),
                    priority,
                ) by {
                lemma_with_priority_add(front + seq![next@], back, priority);
                lemma_with_priority_add(front, seq![next@], priority);
                lemma_with_priority_add(front, back, priority);
                assert(with_priority(before, priority) == with_priority(
                    all.take(done as int),
                    priority,
                ));
                lemma_with_priority_one(next@, priority);
                if priority == next.priority {
                    lemma_with_priority_none(back, priority);
                    assert(with_priority(front, priority) + with_priority(back, priority)
                        == with_priority(front, priority));
                    assert(with_priority(front, priority) + seq![next@] + with_priority(
                        back,
                        priority,
                    ) == with_priority(front, priority).push(next@));
                } else {
                    assert(with_priority(front, priority) + with_priority(
                        seq![next@],
                        priority,
                    ) == with_priority(front, priority));
                }
            }
            assert(all.skip(done as int).remove(0) == all.skip(done + 1));
        }
        done = done + 1;
    }
    assert(all.take(done as int) == all);
    proof {
        lemma_ranking_ranks(all);
        lemma_ranking_unique(ordered.deep_view(), ranking(all), all);
    }
    ordered
}

} // verus!
