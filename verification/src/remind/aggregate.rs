//! After the scan: which reminders are kept, in what order they come out,
//! and which of them are due.

use super::{views, Remind, RemindView};
use vstd::prelude::*;

verus! {

/// The reminders that carry a date.
pub open spec fn has_date() -> spec_fn(RemindView) -> bool {
    |remind: RemindView| remind.datetime != 0
}

/// The reminders whose date is `deadline`.
pub open spec fn with_deadline(deadline: int) -> spec_fn(RemindView) -> bool {
    |remind: RemindView| remind.datetime == deadline
}

/// The reminders that are due at `now`: their date lies before it.
pub open spec fn is_expired(now: int) -> spec_fn(RemindView) -> bool {
    |remind: RemindView| remind.datetime < now
}

/// The reminders that are not yet due at `now`.
pub open spec fn is_upcoming(now: int) -> spec_fn(RemindView) -> bool {
    |remind: RemindView| remind.datetime >= now
}

/// Whether the dates of `reminds` never decrease.
pub open spec fn ordered(reminds: Seq<RemindView>) -> bool {
    forall|i: int, j: int|
        0 <= i < j < reminds.len() ==> (#[trigger] reminds[i]).datetime <= (
        #[trigger] reminds[j]).datetime
}

/// How many reminders at the head of `reminds` have a date of `deadline`
/// or earlier.
pub open spec fn rank(reminds: Seq<RemindView>, deadline: int) -> nat
    decreases reminds.len(),
{
    if reminds.len() > 0 && reminds[0].datetime <= deadline {
        1 + rank(reminds.skip(1), deadline)
    } else {
        0
    }
}

/// `reminds` in the order of their dates, those of one date in the order in
/// which they stand in `reminds`: each reminder in turn goes behind those
/// that are not later than it.
pub open spec fn sorted_by_deadline(reminds: Seq<RemindView>) -> Seq<RemindView>
    decreases reminds.len(),
{
    if reminds.len() == 0 {
        reminds
    } else {
        let before = sorted_by_deadline(reminds.drop_last());
        before.insert(rank(before, reminds.last().datetime) as int, reminds.last())
    }
}

/// What a run reports of the reminders `found`: without the undated ones
/// unless they are to be kept, and by date where that is asked for.
pub open spec fn aggregated(found: Seq<RemindView>, keep_undated: bool, by_deadline: bool) -> Seq<
    RemindView,
> {
    let kept = if keep_undated {
        found
    } else {
        found.filter(has_date())
    };
    if by_deadline {
        sorted_by_deadline(kept)
    } else {
        kept
    }
}

/// The reminders of a run by whether they are due.
#[derive(Debug)]
pub struct RemindList {
    pub expired: Vec<Remind>,
    pub upcoming: Vec<Remind>,
}

/// The rank is a place in the sequence; what stands before it is not later
/// than `deadline`, and in an ordered sequence what stands from it on is.
pub proof fn lemma_rank(reminds: Seq<RemindView>, deadline: int)
    ensures
        rank(reminds, deadline) <= reminds.len(),
        forall|i: int| 0 <= i < rank(reminds, deadline) ==> (#[trigger] reminds[i]).datetime <= deadline,
        rank(reminds, deadline) < reminds.len() ==> reminds[rank(reminds, deadline) as int].datetime
            > deadline,
        ordered(reminds) ==> forall|i: int|
            rank(reminds, deadline) <= i < reminds.len() ==> (#[trigger] reminds[i]).datetime
                > deadline,
    decreases reminds.len(),
{
    if reminds.len() > 0 && reminds[0].datetime <= deadline {
        let rest = reminds.skip(1);
        lemma_rank(rest, deadline);
        assert forall|i: int| 0 <= i < rank(reminds, deadline) implies (
        #[trigger] reminds[i]).datetime <= deadline by {
            if i > 0 {
                assert(rest[i - 1] == reminds[i]);
            }
        }
        if rank(reminds, deadline) < reminds.len() {
            assert(rest[rank(rest, deadline) as int] == reminds[rank(reminds, deadline) as int]);
        }
        if ordered(reminds) {
            assert(ordered(rest)) by {
                assert forall|i: int, j: int| 0 <= i < j < rest.len() implies (
                #[trigger] rest[i]).datetime <= (#[trigger] rest[j]).datetime by {
                    assert(rest[i] == reminds[i + 1]);
                    assert(rest[j] == reminds[j + 1]);
                }
            }
            assert forall|i: int| rank(reminds, deadline) <= i < reminds.len() implies (
            #[trigger] reminds[i]).datetime > deadline by {
                assert(rest[i - 1] == reminds[i]);
            }
        }
    } else if reminds.len() > 0 {
        if ordered(reminds) {
            assert forall|i: int| 0 <= i < reminds.len() implies (#[trigger] reminds[i]).datetime
                > deadline by {
                if i > 0 {
                    assert(reminds[0].datetime <= reminds[i].datetime);
                }
            }
        }
    }
}

/// In an ordered sequence, the rank is the one place with nothing later
/// than `deadline` before it and nothing else from it on.
pub proof fn lemma_rank_unique(reminds: Seq<RemindView>, deadline: int, place: int)
    requires
        0 <= place <= reminds.len(),
        forall|i: int| 0 <= i < place ==> (#[trigger] reminds[i]).datetime <= deadline,
        forall|i: int| place <= i < reminds.len() ==> (#[trigger] reminds[i]).datetime > deadline,
    ensures
        rank(reminds, deadline) == place,
    decreases reminds.len(),
{
    if reminds.len() > 0 && reminds[0].datetime <= deadline {
        let rest = reminds.skip(1);
        assert(place > 0);
        assert forall|i: int| 0 <= i < place - 1 implies (#[trigger] rest[i]).datetime
            <= deadline by {
            assert(rest[i] == reminds[i + 1]);
        }
        assert forall|i: int| place - 1 <= i < rest.len() implies (#[trigger] rest[i]).datetime
            > deadline by {
            assert(rest[i] == reminds[i + 1]);
        }
        lemma_rank_unique(rest, deadline, place - 1);
    } else if reminds.len() > 0 {
        if place > 0 {
            assert(reminds[0].datetime <= deadline);
        }
    }
}

/// Putting a reminder at its rank keeps an ordered sequence ordered.
pub proof fn lemma_insert_keeps_order(reminds: Seq<RemindView>, remind: RemindView)
    requires
        ordered(reminds),
    ensures
        ordered(reminds.insert(rank(reminds, remind.datetime) as int, remind)),
{
    lemma_rank(reminds, remind.datetime);
    let place = rank(reminds, remind.datetime) as int;
    let after = reminds.insert(place, remind);
    assert forall|i: int, j: int| 0 <= i < j < after.len() implies (#[trigger] after[i]).datetime
        <= (#[trigger] after[j]).datetime by {
        if i < place {
            assert(after[i] == reminds[i]);
        } else if i > place {
            assert(after[i] == reminds[i - 1]);
        }
        if j < place {
            assert(after[j] == reminds[j]);
        } else if j > place {
            assert(after[j] == reminds[j - 1]);
        }
    }
}

/// Sorting by date gives dates that never decrease.
pub proof fn lemma_sorted_is_ordered(reminds: Seq<RemindView>)
    ensures
        ordered(sorted_by_deadline(reminds)),
        sorted_by_deadline(reminds).len() == reminds.len(),
    decreases reminds.len(),
{
    if reminds.len() > 0 {
        lemma_sorted_is_ordered(reminds.drop_last());
        lemma_rank(sorted_by_deadline(reminds.drop_last()), reminds.last().datetime);
        lemma_insert_keeps_order(sorted_by_deadline(reminds.drop_last()), reminds.last());
    }
}

/// Sorting by date keeps every reminder, as often as it occurs.
pub proof fn lemma_sorted_is_permutation(reminds: Seq<RemindView>)
    ensures
        sorted_by_deadline(reminds).to_multiset() == reminds.to_multiset(),
    decreases reminds.len(),
{
    if reminds.len() > 0 {
        let front = reminds.drop_last();
        let before = sorted_by_deadline(front);
        lemma_sorted_is_permutation(front);
        lemma_rank(before, reminds.last().datetime);
        vstd::seq_lib::to_multiset_insert(
            before,
            rank(before, reminds.last().datetime) as int,
            reminds.last(),
        );
        vstd::seq_lib::to_multiset_build(front, reminds.last());
        assert(front.push(reminds.last()) == reminds);
    }
}

/// A filter sees an insertion as an insertion between what it keeps of
/// the two sides.
pub proof fn lemma_filter_insert(
    reminds: Seq<RemindView>,
    place: int,
    remind: RemindView,
    pred: spec_fn(RemindView) -> bool,
)
    requires
        0 <= place <= reminds.len(),
    ensures
        reminds.filter(pred) == reminds.take(place).filter(pred) + reminds.skip(place).filter(pred),
        reminds.insert(place, remind).filter(pred) == reminds.take(place).filter(pred) + if pred(
            remind,
        ) {
            seq![remind]
        } else {
            Seq::empty()
        } + reminds.skip(place).filter(pred),
{
    let head = reminds.take(place);
    let tail = reminds.skip(place);
    assert(reminds == head + tail);
    Seq::filter_distributes_over_add(head, tail, pred);
    assert(reminds.insert(place, remind) == head.push(remind) + tail);
    Seq::filter_distributes_over_add(head.push(remind), tail, pred);
    head.lemma_filter_push(remind, pred);
    if pred(remind) {
        assert(head.filter(pred).push(remind) == head.filter(pred) + seq![remind]);
    } else {
        assert(head.filter(pred) == head.filter(pred) + Seq::<RemindView>::empty());
    }
}

/// A filter keeps nothing of a sequence in which nothing meets it.
pub proof fn lemma_filter_nothing(reminds: Seq<RemindView>, pred: spec_fn(RemindView) -> bool)
    requires
        forall|i: int| 0 <= i < reminds.len() ==> !pred(#[trigger] reminds[i]),
    ensures
        reminds.filter(pred) == Seq::<RemindView>::empty(),
    decreases reminds.len(),
{
    reveal(Seq::filter);
    if reminds.len() > 0 {
        let front = reminds.drop_last();
        assert forall|i: int| 0 <= i < front.len() implies !pred(#[trigger] front[i]) by {
            assert(front[i] == reminds[i]);
        }
        lemma_filter_nothing(front, pred);
    }
}

/// Sorting by date is stable: the reminders of any one date stand in the
/// order in which they were found.
pub proof fn lemma_sorted_is_stable(reminds: Seq<RemindView>, deadline: int)
    ensures
        sorted_by_deadline(reminds).filter(with_deadline(deadline)) == reminds.filter(
            with_deadline(deadline),
        ),
    decreases reminds.len(),
{
    let pred = with_deadline(deadline);
    if reminds.len() > 0 {
        let front = reminds.drop_last();
        let last = reminds.last();
        let before = sorted_by_deadline(front);
        let place = rank(before, last.datetime) as int;
        lemma_sorted_is_stable(front, deadline);
        lemma_sorted_is_ordered(front);
        lemma_rank(before, last.datetime);
        lemma_filter_insert(before, place, last, pred);
        assert(front.push(last) == reminds);
        front.lemma_filter_push(last, pred);
        if pred(last) {
            let tail = before.skip(place);
            assert forall|i: int| 0 <= i < tail.len() implies !pred(#[trigger] tail[i]) by {
                assert(tail[i] == before[place + i]);
            }
            lemma_filter_nothing(tail, pred);
            assert(before.take(place).filter(pred) + seq![last] + Seq::<RemindView>::empty()
                == (before.take(place).filter(pred) + Seq::<RemindView>::empty()).push(last));
        } else {
            assert(before.take(place).filter(pred) + Seq::<RemindView>::empty() + before.skip(
                place,
            ).filter(pred) == before.take(place).filter(pred) + before.skip(place).filter(pred));
        }
    }
}

/// Whatever sorting does, it does to the reminders that are there: one
/// that stands in the result stands in what was sorted.
pub proof fn lemma_sorted_holds_no_other(reminds: Seq<RemindView>, i: int)
    requires
        0 <= i < sorted_by_deadline(reminds).len(),
    ensures
        reminds.contains(sorted_by_deadline(reminds)[i]),
{
    let sorted = sorted_by_deadline(reminds);
    lemma_sorted_is_permutation(reminds);
    assert(sorted.contains(sorted[i]));
    vstd::seq_lib::to_multiset_contains(sorted, sorted[i]);
    vstd::seq_lib::to_multiset_contains(reminds, sorted[i]);
}

/// A run reports no reminder that was not found.
pub proof fn lemma_reported_were_found(
    found: Seq<RemindView>,
    keep_undated: bool,
    by_deadline: bool,
    i: int,
)
    requires
        0 <= i < aggregated(found, keep_undated, by_deadline).len(),
    ensures
        found.contains(aggregated(found, keep_undated, by_deadline)[i]),
{
    let kept = aggregated(found, keep_undated, false);
    let reported = aggregated(found, keep_undated, by_deadline);
    if by_deadline {
        lemma_sorted_holds_no_other(kept, i);
    }
    assert(kept.contains(reported[i]));
    if !keep_undated {
        found.lemma_filter_contains_rev(has_date(), reported[i]);
    }
}

/// A run that does not keep undated reminders reports none, whether it
/// sorts or not.
pub proof fn lemma_undated_are_dropped(found: Seq<RemindView>, by_deadline: bool, i: int)
    requires
        0 <= i < aggregated(found, false, by_deadline).len(),
    ensures
        aggregated(found, false, by_deadline)[i].datetime != 0,
{
    let kept = found.filter(has_date());
    let reported = aggregated(found, false, by_deadline);
    if by_deadline {
        lemma_sorted_holds_no_other(kept, i);
    }
    assert(kept.contains(reported[i]));
    let at = choose|at: int| 0 <= at < kept.len() && kept[at] == reported[i];
    found.lemma_filter_pred(has_date(), at);
}

/// A run that sorts reports dates that never decrease, and the reminders
/// of any one date in the order in which they were found.
pub proof fn lemma_sorted_report(found: Seq<RemindView>, keep_undated: bool, deadline: int)
    ensures
        ordered(aggregated(found, keep_undated, true)),
        aggregated(found, keep_undated, true).filter(with_deadline(deadline)) == aggregated(
            found,
            keep_undated,
            false,
        ).filter(with_deadline(deadline)),
{
    let kept = aggregated(found, keep_undated, false);
    lemma_sorted_is_ordered(kept);
    lemma_sorted_is_stable(kept, deadline);
}

/// The due and the not yet due part the reminders between them: every
/// reminder is in exactly one of the two, and none is in both.
pub proof fn lemma_classes_part(reminds: Seq<RemindView>, now: int)
    ensures
        reminds.filter(is_expired(now)).to_multiset().add(
            reminds.filter(is_upcoming(now)).to_multiset(),
        ) == reminds.to_multiset(),
        forall|i: int, j: int|
            0 <= i < reminds.filter(is_expired(now)).len() && 0 <= j < reminds.filter(
                is_upcoming(now),
            ).len() ==> reminds.filter(is_expired(now))[i] != reminds.filter(is_upcoming(now))[j],
        forall|i: int|
            0 <= i < reminds.filter(is_expired(now)).len() ==> (#[trigger] reminds.filter(
                is_expired(now),
            )[i]).datetime < now,
        forall|j: int|
            0 <= j < reminds.filter(is_upcoming(now)).len() ==> (#[trigger] reminds.filter(
                is_upcoming(now),
            )[j]).datetime >= now,
    decreases reminds.len(),
{
    let due = reminds.filter(is_expired(now));
    let later = reminds.filter(is_upcoming(now));
    assert forall|i: int| 0 <= i < due.len() implies (#[trigger] due[i]).datetime < now by {
        reminds.lemma_filter_pred(is_expired(now), i);
    }
    assert forall|j: int| 0 <= j < later.len() implies (#[trigger] later[j]).datetime >= now by {
        reminds.lemma_filter_pred(is_upcoming(now), j);
    }
    if reminds.len() == 0 {
        reveal(Seq::filter);
        assert(due == reminds);
        assert(later == reminds);
        vstd::seq_lib::to_multiset_len(reminds);
        assert(reminds.to_multiset() =~= vstd::multiset::Multiset::<RemindView>::empty());
        assert(due.to_multiset().add(later.to_multiset()) =~= reminds.to_multiset());
    } else {
        let front = reminds.drop_last();
        let last = reminds.last();
        lemma_classes_part(front, now);
        assert(front.push(last) == reminds);
        front.lemma_filter_push(last, is_expired(now));
        front.lemma_filter_push(last, is_upcoming(now));
        vstd::seq_lib::to_multiset_build(front, last);
        vstd::seq_lib::to_multiset_build(front.filter(is_expired(now)), last);
        vstd::seq_lib::to_multiset_build(front.filter(is_upcoming(now)), last);
        assert(due.to_multiset().add(later.to_multiset()) =~= reminds.to_multiset());
    }
}

/// Drops the reminders without a date.
pub fn retain_dated(reminds: Vec<Remind>) -> (kept: Vec<Remind>)
    ensures
        views(kept@) == views(reminds@).filter(has_date()),
{
    let mut kept: Vec<Remind> = Vec::new();
    let ghost all = reminds@;
    proof {
        reveal(Seq::filter);
        assert(views(all.take(0)) =~= Seq::<RemindView>::empty());
        assert(views(kept@) =~= Seq::<RemindView>::empty());
    }
    for remind in it: reminds
        invariant
            it.seq() == all,
            views(kept@) == views(all.take(it.index() as int)).filter(has_date()),
    {
        proof {
            let seen = all.take(it.index() as int);
            assert(all.take(it.index() + 1) == seen.push(remind));
            assert(views(seen.push(remind)) =~= views(seen).push(remind@));
            views(seen).lemma_filter_push(remind@, has_date());
            assert(views(kept@.push(remind)) =~= views(kept@).push(remind@));
        }
        if remind.datetime != 0 {
            kept.push(remind);
        }
    }
    proof {
        assert(all.take(all.len() as int) == all);
    }
    kept
}

/// Orders the reminders by their dates, earliest first; those of one date
/// stay in the order in which they stand.
pub fn sort_by_deadline(reminds: Vec<Remind>) -> (sorted: Vec<Remind>)
    ensures
        views(sorted@) == sorted_by_deadline(views(reminds@)),
        ordered(views(sorted@)),
        forall|deadline: int|
            views(sorted@).filter(with_deadline(deadline)) == #[trigger] views(reminds@).filter(
                with_deadline(deadline),
            ),
{
    let mut sorted: Vec<Remind> = Vec::new();
    let ghost all = reminds@;
    proof {
        assert(views(all.take(0)) =~= Seq::<RemindView>::empty());
        assert(views(sorted@) =~= Seq::<RemindView>::empty());
    }
    for remind in it: reminds
        invariant
            it.seq() == all,
            views(sorted@) == sorted_by_deadline(views(all.take(it.index() as int))),
            ordered(views(sorted@)),
    {
        let ghost seen = all.take(it.index() as int);
        let ghost before = views(sorted@);
        let mut place: usize = 0;
        while place < sorted.len() && sorted[place].datetime <= remind.datetime
            invariant
                place <= sorted.len(),
                before == views(sorted@),
                forall|i: int| 0 <= i < place ==> (#[trigger] before[i]).datetime <= remind.datetime,
            decreases sorted.len() - place,
        {
            place += 1;
        }
        proof {
            assert forall|i: int| place <= i < before.len() implies (#[trigger] before[i]).datetime
                > remind.datetime by {
                assert(before[place as int].datetime <= before[i].datetime);
            }
            lemma_rank_unique(before, remind.datetime as int, place as int);
            lemma_insert_keeps_order(before, remind@);
            assert(all.take(it.index() + 1) == seen.push(remind));
            assert(views(seen.push(remind)) =~= views(seen).push(remind@));
            assert(views(seen).push(remind@).drop_last() == views(seen));
            assert(views(sorted@.insert(place as int, remind)) =~= before.insert(
                place as int,
                remind@,
            ));
        }
        sorted.insert(place, remind);
    }
    proof {
        assert(all.take(all.len() as int) == all);
        assert forall|deadline: int|
            views(sorted@).filter(with_deadline(deadline)) == #[trigger] views(reminds@).filter(
                with_deadline(deadline),
            ) by {
            lemma_sorted_is_stable(views(reminds@), deadline);
        }
    }
    sorted
}

/// What a run reports of the reminders it found: the undated ones dropped
/// unless `remind_if_no_date`, and all of them by date where
/// `sort_by_deadline`.
pub fn aggregate(reminds: Vec<Remind>, remind_if_no_date: bool, sort_by_deadline: bool) -> (reported:
    Vec<Remind>)
    ensures
        views(reported@) == aggregated(views(reminds@), remind_if_no_date, sort_by_deadline),
{
    let kept = if remind_if_no_date {
        reminds
    } else {
        retain_dated(reminds)
    };
    if sort_by_deadline {
        self::sort_by_deadline(kept)
    } else {
        kept
    }
}

/// Parts the reminders by whether they are due at `now`: due is what is
/// dated before it. Each part keeps the order of `reminds`.
pub fn classify(reminds: Vec<Remind>, now: i64) -> (list: RemindList)
    ensures
        views(list.expired@) == views(reminds@).filter(is_expired(now as int)),
        views(list.upcoming@) == views(reminds@).filter(is_upcoming(now as int)),
{
    let mut expired: Vec<Remind> = Vec::new();
    let mut upcoming: Vec<Remind> = Vec::new();
    let ghost all = reminds@;
    proof {
        reveal(Seq::filter);
        assert(views(all.take(0)) =~= Seq::<RemindView>::empty());
        assert(views(expired@) =~= Seq::<RemindView>::empty());
        assert(views(upcoming@) =~= Seq::<RemindView>::empty());
    }
    for remind in it: reminds
        invariant
            it.seq() == all,
            views(expired@) == views(all.take(it.index() as int)).filter(is_expired(now as int)),
            views(upcoming@) == views(all.take(it.index() as int)).filter(is_upcoming(now as int)),
    {
        proof {
            let seen = all.take(it.index() as int);
            assert(all.take(it.index() + 1) == seen.push(remind));
            assert(views(seen.push(remind)) =~= views(seen).push(remind@));
            views(seen).lemma_filter_push(remind@, is_expired(now as int));
            views(seen).lemma_filter_push(remind@, is_upcoming(now as int));
            assert(views(expired@.push(remind)) =~= views(expired@).push(remind@));
            assert(views(upcoming@.push(remind)) =~= views(upcoming@).push(remind@));
        }
        if remind.datetime < now {
            expired.push(remind);
        } else {
            upcoming.push(remind);
        }
    }
    proof {
        assert(all.take(all.len() as int) == all);
    }
    RemindList { expired, upcoming }
}

} // verus!
