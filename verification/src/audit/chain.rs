//! The hash chain: each event holds the digest of its own fields and of the
//! hash of the event before it.

use crate::audit::event::{events_view, AuditEvent, AuditEventView};
use crate::digest::{sha256_hex, sha256_hex_of};
use crate::text::{push_utf8, utf8};
use crate::time::{instant_lt, rfc3339_text};
use vstd::prelude::*;

verus! {

/// What the first event of a log is chained to.
pub open spec fn genesis() -> Seq<char> {
    "genesis"@
}

/// The bytes that an event's hash is the digest of: the hash of the event
/// before it, then the event's identifier, its time as RFC 3339 text, the name
/// of its kind, the action and the result.
pub open spec fn chain_input(previous: Seq<char>, e: AuditEventView) -> Seq<u8> {
    utf8(previous) + utf8(e.id) + utf8(rfc3339_text(e.timestamp.0, e.timestamp.1)) + utf8(
        e.event_type.name(),
    ) + utf8(e.user_action) + utf8(e.result)
}

/// The hash that chains the event `e` to the hash `previous`.
pub open spec fn chain_hash(previous: Seq<char>, e: AuditEventView) -> Seq<char> {
    sha256_hex(chain_input(previous, e))
}

/// The hash that the next event of `log` is chained to.
pub open spec fn last_hash(log: Seq<AuditEventView>) -> Seq<char> {
    if log.len() == 0 {
        genesis()
    } else {
        log.last().hash
    }
}

/// The hash that the event at position `k` of `log` is chained to.
pub open spec fn previous_hash(log: Seq<AuditEventView>, k: int) -> Seq<char> {
    if k <= 0 {
        genesis()
    } else {
        log[k - 1].hash
    }
}

/// Whether the event at position `k` of `log` holds the hash that chains it to
/// the event before it.
pub open spec fn link_holds(log: Seq<AuditEventView>, k: int) -> bool {
    log[k].hash == chain_hash(previous_hash(log, k), log[k])
}

/// Whether every event of `log` is chained to the one before it.
pub open spec fn intact(log: Seq<AuditEventView>) -> bool {
    forall|k: int| 0 <= k < log.len() ==> link_holds(log, k)
}

/// Whether position `k` is where the chain of `log` first breaks.
pub open spec fn first_break(log: Seq<AuditEventView>, k: int) -> bool {
    &&& 0 <= k < log.len()
    &&& !link_holds(log, k)
    &&& forall|j: int| 0 <= j < k ==> link_holds(log, j)
}

/// Where the chain of a log first breaks.
#[derive(Debug)]
pub struct IntegrityViolation {
    /// The position of the event, counted from zero.
    pub index: usize,
    /// The identifier of the event.
    pub event_id: String,
}

/// Computes the hash that chains `event` to the hash `previous_hash`.
pub fn calculate_hash(event: &AuditEvent, previous_hash: &str) -> (hash: String)
    ensures
        hash@ == chain_hash(previous_hash@, event@),
        hash@.len() == 64,
{
    let mut input: Vec<u8> = Vec::new();
    push_utf8(&mut input, previous_hash);
    push_utf8(&mut input, event.id.as_str());
    let time = event.timestamp.to_rfc3339();
    push_utf8(&mut input, time.as_str());
    push_utf8(&mut input, event.event_type.as_str());
    push_utf8(&mut input, event.user_action.as_str());
    push_utf8(&mut input, event.result.as_str());
    assert(input@ =~= chain_input(previous_hash@, event@));
    sha256_hex_of(input.as_slice())
}

/// Walks `events` in the order of appending and finds where the chain first
/// breaks, if it does.
pub fn find_violation(events: &Vec<AuditEvent>) -> (found: Option<IntegrityViolation>)
    ensures
        match found {
            None => intact(events_view(events@)),
            Some(v) => first_break(events_view(events@), v.index as int) && v.event_id@
                == events_view(events@)[v.index as int].id,
        },
{
    let ghost log = events_view(events@);
    let mut previous = String::from_str("genesis");
    let mut k: usize = 0;
    while k < events.len()
        invariant
            k <= events.len(),
            log == events_view(events@),
            log.len() == events.len(),
            previous@ == previous_hash(log, k as int),
            forall|j: int| 0 <= j < k ==> link_holds(log, j),
        decreases events.len() - k,
    {
        let event = &events[k];
        assert(log[k as int] == event@);
        let expected = calculate_hash(event, previous.as_str());
        if expected != event.hash {
            return Some(IntegrityViolation { index: k, event_id: event.id.clone() });
        }
        previous = event.hash.clone();
        k += 1;
    }
    None
}

/// Whether every event of `events` is chained to the one before it. Where the
/// answer is `false` the chain has a first break, which `find_violation` names.
pub fn verify_chain(events: &Vec<AuditEvent>) -> (ok: bool)
    ensures
        ok == intact(events_view(events@)),
        !ok ==> exists|k: int| first_break(events_view(events@), k),
{
    let found = find_violation(events);
    assert(found matches Some(v) ==> first_break(events_view(events@), v.index as int));
    found.is_none()
}

/// The hash that the next event of `events` is chained to: that of the last
/// event, or the genesis text where there is none.
pub fn get_last_hash(events: &Vec<AuditEvent>) -> (hash: String)
    ensures
        hash@ == last_hash(events_view(events@)),
{
    if events.len() == 0 {
        String::from_str("genesis")
    } else {
        events[events.len() - 1].hash.clone()
    }
}

/// Whether a log came about by appending alone: it is empty, or it is such a
/// log with one more event, chained to its end.
pub open spec fn built_by_appending(log: Seq<AuditEventView>) -> bool
    decreases log.len(),
{
    log.len() == 0 || (built_by_appending(log.drop_last()) && log.last().hash == chain_hash(
        last_hash(log.drop_last()),
        log.last(),
    ))
}

/// A log of any number of appended events is intact, and an intact log is one
/// that appending alone gives.
pub proof fn lemma_appended_logs_are_intact(log: Seq<AuditEventView>)
    ensures
        built_by_appending(log) <==> intact(log),
    decreases log.len(),
{
    if log.len() > 0 {
        let rest = log.drop_last();
        let e = log.last();
        lemma_appended_logs_are_intact(rest);
        assert(rest.push(e) =~= log);
        if built_by_appending(log) {
            lemma_append_keeps_intact(rest, e);
        }
        if intact(log) {
            assert forall|k: int| 0 <= k < rest.len() implies link_holds(rest, k) by {
                assert(link_holds(log, k));
                assert(previous_hash(rest, k) == previous_hash(log, k));
            }
            assert(link_holds(log, log.len() - 1));
            assert(previous_hash(log, log.len() - 1) == last_hash(rest));
        }
    }
}

/// An event that is chained to the end of an intact log leaves the log intact.
pub proof fn lemma_append_keeps_intact(log: Seq<AuditEventView>, e: AuditEventView)
    requires
        intact(log),
        e.hash == chain_hash(last_hash(log), e),
    ensures
        intact(log.push(e)),
        last_hash(log.push(e)) == e.hash,
{
    let longer = log.push(e);
    assert forall|k: int| 0 <= k < longer.len() implies link_holds(longer, k) by {
        if k < log.len() {
            assert(link_holds(log, k));
            assert(longer[k] == log[k]);
            assert(previous_hash(longer, k) == previous_hash(log, k));
        } else {
            assert(previous_hash(longer, k) == last_hash(log));
        }
    }
}

/// Tampering shows: where the event at position `k` of an intact log is
/// replaced by one whose stored hash is not the hash of its fields, the chain
/// first breaks at `k`.
pub proof fn lemma_tamper_detected(log: Seq<AuditEventView>, k: int, forged: AuditEventView)
    requires
        intact(log),
        0 <= k < log.len(),
        forged.hash != chain_hash(previous_hash(log, k), forged),
    ensures
        first_break(log.update(k, forged), k),
        !intact(log.update(k, forged)),
{
    let tampered = log.update(k, forged);
    assert(previous_hash(tampered, k) == previous_hash(log, k));
    assert(tampered[k] == forged);
    assert(!link_holds(tampered, k));
    assert forall|j: int| 0 <= j < k implies link_holds(tampered, j) by {
        assert(link_holds(log, j));
        assert(tampered[j] == log[j]);
        assert(previous_hash(tampered, j) == previous_hash(log, j));
    }
}

/// A change to the stored hash of an event alone always shows at that event.
pub proof fn lemma_forged_hash_detected(log: Seq<AuditEventView>, k: int, hash: Seq<char>)
    requires
        intact(log),
        0 <= k < log.len(),
        hash != log[k].hash,
    ensures
        first_break(log.update(k, AuditEventView { hash: hash, ..log[k] }), k),
{
    let forged = AuditEventView { hash: hash, ..log[k] };
    assert(link_holds(log, k));
    assert(chain_input(previous_hash(log, k), forged) == chain_input(previous_hash(log, k), log[k]));
    lemma_tamper_detected(log, k, forged);
}

/// Whether the events of a log do not go back in time.
pub open spec fn time_ordered(log: Seq<AuditEventView>) -> bool {
    forall|i: int, j: int|
        0 <= i <= j < log.len() ==> !instant_lt(
            (#[trigger] log[j]).timestamp,
            (#[trigger] log[i]).timestamp,
        )
}

/// An event that is not older than the last one keeps a log ordered in time.
pub proof fn lemma_append_keeps_time_order(log: Seq<AuditEventView>, e: AuditEventView)
    requires
        time_ordered(log),
        log.len() > 0 ==> !instant_lt(e.timestamp, log.last().timestamp),
    ensures
        time_ordered(log.push(e)),
{
    let longer = log.push(e);
    assert forall|i: int, j: int| 0 <= i <= j < longer.len() implies !instant_lt(
        (#[trigger] longer[j]).timestamp,
        (#[trigger] longer[i]).timestamp,
    ) by {
        if j < log.len() {
            assert(longer[i] == log[i] && longer[j] == log[j]);
        } else if i < log.len() {
            assert(longer[i] == log[i]);
            assert(!instant_lt(log.last().timestamp, log[i].timestamp));
        }
    }
}

} // verus!
