//! Reading the log: which records count, and the answer to a query.

use crate::audit::event::{events_view, AuditEvent, AuditEventType, AuditEventView};
use crate::time::{instant_lt, Instant, Timestamp};
use vstd::prelude::*;

verus! {

/// The events among `records`, in order: a record that could not be read
/// stands in them as `None` and is left out, so that one bad record hides no
/// other.
pub open spec fn readable(records: Seq<Option<AuditEvent>>) -> Seq<AuditEventView>
    decreases records.len(),
{
    if records.len() == 0 {
        Seq::empty()
    } else {
        let before = readable(records.drop_last());
        match records.last() {
            Some(e) => before.push(e@),
            None => before,
        }
    }
}

/// Keeps the records that could be read, in their order.
pub fn keep_readable(records: Vec<Option<AuditEvent>>) -> (events: Vec<AuditEvent>)
    ensures
        events_view(events@) == readable(records@),
{
    let ghost all = records@;
    let mut events: Vec<AuditEvent> = Vec::new();
    assert(all.take(0) =~= Seq::empty());
    for record in it: records
        invariant
            it.seq() == all,
            events_view(events@) == readable(all.take(it.index() as int)),
    {
        let ghost n = it.index() as int;
        assert(all.take(n + 1).drop_last() =~= all.take(n));
        assert(all.take(n + 1).last() == record);
        match record {
            Some(event) => {
                let ghost before = events@;
                events.push(event);
                assert(events_view(events@) =~= events_view(before).push(event@));
            },
            None => {},
        }
    }
    assert(all.take(all.len() as int) =~= all);
    events
}

/// The instant that an optional timestamp holds.
pub open spec fn opt_instant(t: Option<Timestamp>) -> Option<Instant> {
    match t {
        Some(t) => Some(t@),
        None => None,
    }
}

/// Whether an event passes the filters of a query: its kind is the one asked
/// for, and its time lies within the bounds, which both count as inside.
pub open spec fn in_query(
    e: AuditEventView,
    event_type: Option<AuditEventType>,
    start: Option<Instant>,
    end: Option<Instant>,
) -> bool {
    &&& (event_type matches Some(kind) ==> e.event_type == kind)
    &&& (start matches Some(first) ==> !instant_lt(e.timestamp, first))
    &&& (end matches Some(last) ==> !instant_lt(last, e.timestamp))
}

/// The events of `log` that pass the filters, in the order of the log.
pub open spec fn selected(
    log: Seq<AuditEventView>,
    event_type: Option<AuditEventType>,
    start: Option<Instant>,
    end: Option<Instant>,
) -> Seq<AuditEventView>
    decreases log.len(),
{
    if log.len() == 0 {
        Seq::empty()
    } else {
        let before = selected(log.drop_last(), event_type, start, end);
        if in_query(log.last(), event_type, start, end) {
            before.push(log.last())
        } else {
            before
        }
    }
}

/// Where `e` goes into a list that is ordered newest first: behind every event
/// that is as new as `e` or newer, before the first that is older.
pub open spec fn newer_slot(sorted: Seq<AuditEventView>, e: AuditEventView) -> int
    decreases sorted.len(),
{
    if sorted.len() == 0 {
        0
    } else if instant_lt(sorted[0].timestamp, e.timestamp) {
        0
    } else {
        1 + newer_slot(sorted.drop_first(), e)
    }
}

/// The events of `events` ordered newest first. Events of the same instant keep
/// the order that they have in `events`.
pub open spec fn newest_first(events: Seq<AuditEventView>) -> Seq<AuditEventView>
    decreases events.len(),
{
    if events.len() == 0 {
        Seq::empty()
    } else {
        let before = newest_first(events.drop_last());
        before.insert(newer_slot(before, events.last()), events.last())
    }
}

/// The first `limit` events of `events`, or all of them where there are fewer
/// or no limit is set.
pub open spec fn limited(events: Seq<AuditEventView>, limit: Option<usize>) -> Seq<
    AuditEventView,
> {
    match limit {
        Some(n) => if n < events.len() {
            events.take(n as int)
        } else {
            events
        },
        None => events,
    }
}

/// The answer to a query on `log`: the events that pass the filters, newest
/// first, cut to the limit.
pub open spec fn query_result(
    log: Seq<AuditEventView>,
    limit: Option<usize>,
    event_type: Option<AuditEventType>,
    start: Option<Instant>,
    end: Option<Instant>,
) -> Seq<AuditEventView> {
    limited(newest_first(selected(log, event_type, start, end)), limit)
}

/// Whether a list of events is ordered newest first.
pub open spec fn is_newest_first(events: Seq<AuditEventView>) -> bool {
    forall|i: int, j: int|
        0 <= i < j < events.len() ==> !instant_lt(
            (#[trigger] events[i]).timestamp,
            (#[trigger] events[j]).timestamp,
        )
}

/// What `newer_slot` finds: a position within the list, with no older event
/// before it and an older event at it unless the list has run out.
pub proof fn lemma_newer_slot(sorted: Seq<AuditEventView>, e: AuditEventView)
    ensures
        0 <= newer_slot(sorted, e) <= sorted.len(),
        forall|i: int|
            0 <= i < newer_slot(sorted, e) ==> !instant_lt(
                (#[trigger] sorted[i]).timestamp,
                e.timestamp,
            ),
        newer_slot(sorted, e) < sorted.len() ==> instant_lt(
            sorted[newer_slot(sorted, e)].timestamp,
            e.timestamp,
        ),
    decreases sorted.len(),
{
    if sorted.len() > 0 && !instant_lt(sorted[0].timestamp, e.timestamp) {
        let rest = sorted.drop_first();
        lemma_newer_slot(rest, e);
        assert forall|i: int| 0 <= i < newer_slot(sorted, e) implies !instant_lt(
            (#[trigger] sorted[i]).timestamp,
            e.timestamp,
        ) by {
            if i > 0 {
                assert(sorted[i] == rest[i - 1]);
            }
        }
        if newer_slot(sorted, e) < sorted.len() {
            assert(sorted[newer_slot(sorted, e)] == rest[newer_slot(rest, e)]);
        }
    }
}

/// A position with no older event before it, and an older event at it or the
/// list's end, is what `newer_slot` finds.
pub proof fn lemma_newer_slot_is(sorted: Seq<AuditEventView>, e: AuditEventView, p: int)
    requires
        0 <= p <= sorted.len(),
        forall|i: int| 0 <= i < p ==> !instant_lt((#[trigger] sorted[i]).timestamp, e.timestamp),
        p < sorted.len() ==> instant_lt(sorted[p].timestamp, e.timestamp),
    ensures
        newer_slot(sorted, e) == p,
    decreases sorted.len(),
{
    if sorted.len() > 0 && p > 0 {
        let rest = sorted.drop_first();
        assert(!instant_lt(sorted[0].timestamp, e.timestamp));
        assert forall|i: int| 0 <= i < p - 1 implies !instant_lt(
            (#[trigger] rest[i]).timestamp,
            e.timestamp,
        ) by {
            assert(rest[i] == sorted[i + 1]);
        }
        lemma_newer_slot_is(rest, e, p - 1);
    }
}

/// Ordering newest first keeps every event, each as often as it occurred, and
/// the result is ordered newest first.
pub proof fn lemma_newest_first(events: Seq<AuditEventView>)
    ensures
        newest_first(events).len() == events.len(),
        newest_first(events).to_multiset() == events.to_multiset(),
        is_newest_first(newest_first(events)),
    decreases events.len(),
{
    broadcast use vstd::seq_lib::group_to_multiset_ensures;

    if events.len() == 0 {
        assert(newest_first(events) =~= Seq::empty());
        assert(events =~= Seq::empty());
    } else {
        let e = events.last();
        let rest = events.drop_last();
        let before = newest_first(rest);
        lemma_newest_first(rest);
        lemma_newer_slot(before, e);
        let p = newer_slot(before, e);
        let after = before.insert(p, e);
        assert(events =~= rest.push(e));
        vstd::seq_lib::to_multiset_insert(before, p, e);
        assert(after.to_multiset() == before.to_multiset().insert(e));
        assert(events.to_multiset() == rest.to_multiset().insert(e));
        assert forall|i: int, j: int| 0 <= i < j < after.len() implies !instant_lt(
            (#[trigger] after[i]).timestamp,
            (#[trigger] after[j]).timestamp,
        ) by {
            if j < p {
                assert(after[i] == before[i] && after[j] == before[j]);
            } else if j == p {
                assert(after[i] == before[i]);
            } else if i == p {
                assert(after[j] == before[j - 1]);
                assert(!instant_lt(before[p].timestamp, before[j - 1].timestamp) || j - 1 == p);
            } else if i > p {
                assert(after[i] == before[i - 1] && after[j] == before[j - 1]);
            } else {
                assert(after[i] == before[i] && after[j] == before[j - 1]);
            }
        }
    }
}

fn passes(
    event: &AuditEvent,
    event_type: &Option<AuditEventType>,
    start: &Option<Timestamp>,
    end: &Option<Timestamp>,
) -> (pass: bool)
    ensures
        pass == in_query(event@, *event_type, opt_instant(*start), opt_instant(*end)),
{
    let kind_ok = match event_type {
        Some(kind) => event.event_type == *kind,
        None => true,
    };
    let start_ok = match start {
        Some(first) => !event.timestamp.is_before(first),
        None => true,
    };
    let end_ok = match end {
        Some(last) => !last.is_before(&event.timestamp),
        None => true,
    };
    kind_ok && start_ok && end_ok
}

/// Answers a query on the events of a log: those of the kind `event_type`, if
/// one is given, from `start` to `end`, both counted in, as far as they are
/// given; newest first; no more than `limit`, if one is given.
pub fn get_events(
    events: &Vec<AuditEvent>,
    limit: Option<usize>,
    event_type: Option<AuditEventType>,
    start: Option<Timestamp>,
    end: Option<Timestamp>,
) -> (found: Vec<AuditEvent>)
    ensures
        events_view(found@) == query_result(
            events_view(events@),
            limit,
            event_type,
            opt_instant(start),
            opt_instant(end),
        ),
{
    let ghost log = events_view(events@);
    let ghost from = opt_instant(start);
    let ghost to = opt_instant(end);
    // `order` holds the positions of the events chosen so far, oldest first:
    // read from its end it is the answer.
    let mut order: Vec<usize> = Vec::new();
    let mut i: usize = 0;
    assert(log.take(0) =~= Seq::empty());
    while i < events.len()
        invariant
            i <= events.len(),
            log == events_view(events@),
            log.len() == events.len(),
            from == opt_instant(start),
            to == opt_instant(end),
            order@.len() == selected(log.take(i as int), event_type, from, to).len(),
            order@.len() == newest_first(selected(log.take(i as int), event_type, from, to)).len(),
            forall|t: int| 0 <= t < order@.len() ==> (#[trigger] order@[t]) < events.len(),
            forall|t: int|
                0 <= t < order@.len() ==> log[(#[trigger] order@[t]) as int] == newest_first(
                    selected(log.take(i as int), event_type, from, to),
                )[order@.len() - 1 - t],
        decreases events.len() - i,
    {
        let ghost chosen = selected(log.take(i as int), event_type, from, to);
        let ghost sorted = newest_first(chosen);
        let ghost e = log[i as int];
        assert(log.take(i + 1).drop_last() =~= log.take(i as int));
        assert(log.take(i + 1).last() == e);
        assert(e == events@[i as int]@);
        if passes(&events[i], &event_type, &start, &end) {
            let n = order.len();
            let mut q: usize = n;
            while q > 0 && !events[order[q - 1]].timestamp.is_before(&events[i].timestamp)
                invariant
                    q <= n,
                    n == order@.len(),
                    n == sorted.len(),
                    i < events.len(),
                    log == events_view(events@),
                    log.len() == events.len(),
                    e == log[i as int],
                    forall|t: int| 0 <= t < n ==> (#[trigger] order@[t]) < events.len(),
                    forall|t: int|
                        0 <= t < n ==> log[(#[trigger] order@[t]) as int] == sorted[n - 1 - t],
                    forall|k: int|
                        0 <= k < n - q ==> !instant_lt((#[trigger] sorted[k]).timestamp, e.timestamp),
                decreases q,
            {
                proof {
                    let t = q - 1;
                    assert(log[order@[t] as int] == sorted[n - 1 - t]);
                    assert(log[order@[t] as int] == events@[order@[t] as int]@);
                }
                q -= 1;
            }
            proof {
                let slot = n - q;
                if q > 0 {
                    let t = q - 1;
                    assert(log[order@[t] as int] == sorted[n - 1 - t]);
                    assert(log[order@[t] as int] == events@[order@[t] as int]@);
                }
                lemma_newer_slot_is(sorted, e, slot);
                assert(chosen.push(e).drop_last() =~= chosen);
                assert(newest_first(chosen.push(e)) == sorted.insert(slot, e));
            }
            let ghost earlier = order@;
            order.insert(q, i);
            proof {
                let after = sorted.insert(n - q, e);
                assert forall|t: int| 0 <= t < order@.len() implies log[(#[trigger] order@[t]) as int]
                    == after[order@.len() - 1 - t] by {
                    if t < q {
                        assert(order@[t] == earlier[t]);
                    } else if t > q {
                        assert(order@[t] == earlier[t - 1]);
                    }
                }
            }
        }
        i += 1;
    }
    assert(log.take(events.len() as int) =~= log);
    let ghost sorted = newest_first(selected(log, event_type, from, to));
    let total = order.len();
    let count = match limit {
        Some(n) => if n < total {
            n
        } else {
            total
        },
        None => total,
    };
    let mut found: Vec<AuditEvent> = Vec::new();
    let mut t: usize = 0;
    while t < count
        invariant
            t <= count <= total,
            total == order@.len(),
            total == sorted.len(),
            log == events_view(events@),
            log.len() == events.len(),
            forall|k: int| 0 <= k < total ==> (#[trigger] order@[k]) < events.len(),
            forall|k: int|
                0 <= k < total ==> log[(#[trigger] order@[k]) as int] == sorted[total - 1 - k],
            events_view(found@) =~= sorted.take(t as int),
        decreases count - t,
    {
        let at = order[total - 1 - t];
        let event = events[at].copy();
        proof {
            assert(log[order@[total - 1 - t] as int] == sorted[t as int]);
            assert(events_view(found@.push(event)) =~= events_view(found@).push(event@));
            assert(sorted.take(t + 1) =~= sorted.take(t as int).push(sorted[t as int]));
        }
        found.push(event);
        t += 1;
    }
    assert(sorted.take(total as int) =~= sorted);
    found
}

/// The bound of a query that `text` gives: the instant that it denotes as
/// RFC 3339 text, and no bound where none is given or it cannot be read.
pub fn query_bound(text: Option<&str>) -> (bound: Option<Timestamp>)
    ensures
        match text {
            Some(t) => opt_instant(bound) == (match crate::time::parsed_rfc3339(t@) {
                Some(p) => Some((p.0 as int, p.1 as int)),
                None => None,
            }),
            None => bound is None,
        },
{
    match text {
        Some(t) => Timestamp::parse_rfc3339(t),
        None => None,
    }
}

/// A query without filters selects every event.
pub proof fn lemma_unfiltered(log: Seq<AuditEventView>)
    ensures
        selected(log, None, None, None) == log,
    decreases log.len(),
{
    if log.len() > 0 {
        lemma_unfiltered(log.drop_last());
        assert(log.drop_last().push(log.last()) =~= log);
    } else {
        assert(log =~= Seq::empty());
    }
}

/// What a query selects passes its filters and stands in the log.
pub proof fn lemma_selected(
    log: Seq<AuditEventView>,
    event_type: Option<AuditEventType>,
    start: Option<Instant>,
    end: Option<Instant>,
)
    ensures
        selected(log, event_type, start, end).len() <= log.len(),
        forall|e: AuditEventView| #[trigger]
            selected(log, event_type, start, end).contains(e) <==> (log.contains(e) && in_query(
                e,
                event_type,
                start,
                end,
            )),
    decreases log.len(),
{
    let chosen = selected(log, event_type, start, end);
    if log.len() > 0 {
        let rest = log.drop_last();
        let before = selected(rest, event_type, start, end);
        lemma_selected(rest, event_type, start, end);
        assert(rest.push(log.last()) =~= log);
        assert forall|e: AuditEventView| #[trigger]
            chosen.contains(e) <==> (log.contains(e) && in_query(e, event_type, start, end)) by {
            if chosen.contains(e) {
                let i = choose|i: int| 0 <= i < chosen.len() && chosen[i] == e;
                if i < before.len() {
                    assert(before[i] == e);
                    assert(before.contains(e));
                    let j = choose|j: int| 0 <= j < rest.len() && rest[j] == e;
                    assert(log[j] == e);
                } else {
                    assert(e == log.last());
                    assert(log[log.len() - 1] == e);
                }
            }
            if log.contains(e) && in_query(e, event_type, start, end) {
                let j = choose|j: int| 0 <= j < log.len() && log[j] == e;
                if j < rest.len() {
                    assert(rest[j] == e);
                    assert(rest.contains(e));
                    assert(before.contains(e));
                    let i = choose|i: int| 0 <= i < before.len() && before[i] == e;
                    assert(chosen[i] == e);
                } else {
                    assert(chosen[chosen.len() - 1] == e);
                }
            }
        }
    }
}

/// The answer to a query holds only events of the log that pass the filters,
/// is ordered newest first, and is no longer than the limit.
pub proof fn lemma_query_result(
    log: Seq<AuditEventView>,
    limit: Option<usize>,
    event_type: Option<AuditEventType>,
    start: Option<Instant>,
    end: Option<Instant>,
)
    ensures
        is_newest_first(query_result(log, limit, event_type, start, end)),
        limit matches Some(n) ==> query_result(log, limit, event_type, start, end).len() <= n,
        limit is None ==> query_result(log, limit, event_type, start, end).to_multiset()
            == selected(log, event_type, start, end).to_multiset(),
        forall|i: int|
            0 <= i < query_result(log, limit, event_type, start, end).len() ==> {
                let e = #[trigger] query_result(log, limit, event_type, start, end)[i];
                log.contains(e) && in_query(e, event_type, start, end)
            },
{
    broadcast use vstd::seq_lib::group_to_multiset_ensures;

    let chosen = selected(log, event_type, start, end);
    let sorted = newest_first(chosen);
    let answer = query_result(log, limit, event_type, start, end);
    lemma_selected(log, event_type, start, end);
    lemma_newest_first(chosen);
    assert forall|i: int| 0 <= i < answer.len() implies {
        let e = #[trigger] answer[i];
        log.contains(e) && in_query(e, event_type, start, end)
    } by {
        let e = answer[i];
        assert(sorted[i] == e);
        assert(sorted.contains(e));
        assert(sorted.to_multiset().count(e) > 0);
        assert(chosen.to_multiset().count(e) > 0);
        assert(chosen.contains(e));
    }
    assert forall|i: int, j: int| 0 <= i < j < answer.len() implies !instant_lt(
        (#[trigger] answer[i]).timestamp,
        (#[trigger] answer[j]).timestamp,
    ) by {
        assert(answer[i] == sorted[i] && answer[j] == sorted[j]);
    }
}

} // verus!
