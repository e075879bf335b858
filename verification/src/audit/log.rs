//! Appending to the log, and rotating it when it has grown too large.

use crate::audit::chain::{
    calculate_hash, chain_hash, chain_input, first_break, genesis, get_last_hash, intact, last_hash,
    lemma_append_keeps_intact, lemma_append_keeps_time_order, link_holds, time_ordered,
    verify_chain,
};
use crate::audit::event::{events_view, AuditEvent, AuditEventType, AuditEventView, Severity};
use crate::audit::query::{get_events, opt_instant, query_result};
use crate::time::{compact_stamp, instant_lt, later_of, Instant, Timestamp};
use uuid::Uuid;
use vstd::prelude::*;

verus! {

/// A log that was closed by rotation, under the name it was given.
#[derive(Debug)]
pub struct ArchivedLog {
    pub name: String,
    pub events: Vec<AuditEvent>,
}

/// The audit log: the events of the current log, in the order of appending,
/// and the logs that rotation has closed, oldest first.
#[derive(Debug)]
pub struct AuditLog {
    pub current: Vec<AuditEvent>,
    pub archives: Vec<ArchivedLog>,
}

/// What an `ArchivedLog` holds.
pub struct ArchivedLogView {
    pub name: Seq<char>,
    pub events: Seq<AuditEventView>,
}

/// What an `AuditLog` holds.
pub struct AuditLogView {
    pub current: Seq<AuditEventView>,
    pub archives: Seq<ArchivedLogView>,
}

impl View for ArchivedLog {
    type V = ArchivedLogView;

    open spec fn view(&self) -> ArchivedLogView {
        ArchivedLogView { name: self.name@, events: events_view(self.events@) }
    }
}

impl View for AuditLog {
    type V = AuditLogView;

    open spec fn view(&self) -> AuditLogView {
        AuditLogView {
            current: events_view(self.current@),
            archives: self.archives@.map_values(|a: ArchivedLog| a@),
        }
    }
}

/// Whether the current log has outgrown the threshold: its size is known and
/// greater than `max_file_size`.
pub open spec fn rotation_due(size: Option<u64>, max_file_size: u64) -> bool {
    match size {
        Some(bytes) => bytes > max_file_size,
        None => false,
    }
}

/// The name under which a log is archived at the instant `at`.
pub open spec fn archive_name(at: Instant) -> Seq<char> {
    "audit_"@ + compact_stamp(at.0, at.1) + ".log"@
}

/// The log after rotation at the instant `at`: the current log is archived as
/// it is, and a new, empty one begins.
pub open spec fn rotated(log: AuditLogView, at: Instant) -> AuditLogView {
    AuditLogView {
        current: Seq::empty(),
        archives: log.archives.push(
            ArchivedLogView { name: archive_name(at), events: log.current },
        ),
    }
}

/// The log that an event is appended to: the rotated one where rotation is
/// due, the log as it is otherwise.
pub open spec fn log_before_append(log: AuditLogView, rotate: bool, at: Instant) -> AuditLogView {
    if rotate {
        rotated(log, at)
    } else {
        log
    }
}

/// The log after the event `e` was appended: rotation, where it is due, comes
/// first, so that `e` is the first event of the new log.
pub open spec fn appended(log: AuditLogView, rotate: bool, e: AuditEventView) -> AuditLogView {
    let before = log_before_append(log, rotate, e.timestamp);
    AuditLogView { current: before.current.push(e), archives: before.archives }
}

/// The time that an event gets which is appended at the instant `at`: that
/// instant, unless the log it is appended to already holds a later event, whose
/// time it then takes, so that the events of a log never go back in time.
pub open spec fn append_time(log: AuditLogView, rotate: bool, at: Instant) -> Instant {
    if rotate || log.current.len() == 0 {
        at
    } else {
        later_of(at, log.current.last().timestamp)
    }
}

/// Whether `e` holds the hash that chains it to the log it is appended to.
pub open spec fn chained_to(log: AuditLogView, rotate: bool, e: AuditEventView) -> bool {
    e.hash == chain_hash(last_hash(log_before_append(log, rotate, e.timestamp).current), e)
}

/// Calls `uuid::Uuid::new_v4` and writes the identifier as text. It is random:
/// nothing is claimed of it.
#[verifier::external_body]
fn fresh_event_id() -> (id: String) {
    Uuid::new_v4().to_string()
}

/// Appends audit events and decides when the log is rotated.
#[derive(Clone, Copy, Debug)]
pub struct AuditLogger {
    /// The size in bytes beyond which the current log is archived.
    pub max_file_size: u64,
}

/// The rotation threshold of a logger that was given none: ten mebibytes.
pub const DEFAULT_MAX_FILE_SIZE: u64 = 10_485_760;

impl AuditLog {
    /// A log without events and without archives.
    pub fn new() -> (log: AuditLog)
        ensures
            log@.current.len() == 0,
            log@.archives.len() == 0,
            intact(log@.current),
    {
        AuditLog { current: Vec::new(), archives: Vec::new() }
    }

    /// The log whose current file holds `events`.
    pub fn from_events(events: Vec<AuditEvent>) -> (log: AuditLog)
        ensures
            log@.current == events_view(events@),
            log@.archives.len() == 0,
    {
        AuditLog { current: events, archives: Vec::new() }
    }
}

impl AuditLogger {
    /// A logger with the rotation threshold of ten mebibytes.
    pub fn new() -> (logger: AuditLogger)
        ensures
            logger.max_file_size == DEFAULT_MAX_FILE_SIZE,
    {
        AuditLogger { max_file_size: DEFAULT_MAX_FILE_SIZE }
    }

    /// A logger with the rotation threshold `max_file_size`.
    pub fn with_max_file_size(max_file_size: u64) -> (logger: AuditLogger)
        ensures
            logger.max_file_size == max_file_size,
    {
        AuditLogger { max_file_size }
    }

    /// Whether a current log of `size` bytes is to be archived before the next
    /// event is written. A log whose size is not known is not.
    pub fn needs_rotation(&self, size: Option<u64>) -> (due: bool)
        ensures
            due == rotation_due(size, self.max_file_size),
    {
        match size {
            Some(bytes) => bytes > self.max_file_size,
            None => false,
        }
    }

    /// Archives the current log under the name that the instant `at` gives, and
    /// begins a new one. The archived events stay as they are.
    pub fn rotate_logs(&self, log: &mut AuditLog, at: &Timestamp)
        ensures
            final(log)@ == rotated(old(log)@, at@),
    {
        let mut name = String::from_str("audit_");
        let stamp = at.to_compact();
        name.append(stamp.as_str());
        name.append(".log");
        let mut events: Vec<AuditEvent> = Vec::new();
        core::mem::swap(&mut log.current, &mut events);
        let ghost earlier = log.archives@;
        let archived = ArchivedLog { name, events };
        log.archives.push(archived);
        assert(log.archives@.map_values(|a: ArchivedLog| a@) =~= earlier.map_values(
            |a: ArchivedLog| a@,
        ).push(archived@));
        assert(events_view(log.current@) =~= Seq::empty());
    }

    /// Computes the hash that chains `event` to the hash `previous_hash`.
    pub fn calculate_hash(&self, event: &AuditEvent, previous_hash: &str) -> (hash: String)
        ensures
            hash@ == chain_hash(previous_hash@, event@),
            hash@.len() == 64,
    {
        calculate_hash(event, previous_hash)
    }

    /// The hash that the next event of `events` is chained to.
    pub fn get_last_hash(&self, events: &Vec<AuditEvent>) -> (hash: String)
        ensures
            hash@ == last_hash(events_view(events@)),
    {
        get_last_hash(events)
    }

    /// Appends an event with the identifier `id` at the instant `timestamp` to
    /// `log`, whose current file is `size` bytes long, and returns a copy of the
    /// event. Where that size is beyond the threshold the log is rotated first,
    /// and the event begins the new log, chained to the genesis text. The event
    /// is never older than the event before it: where `timestamp` is, the event
    /// takes that event's time.
    pub fn append(
        &self,
        log: &mut AuditLog,
        size: Option<u64>,
        id: String,
        timestamp: Timestamp,
        event_type: AuditEventType,
        severity: Severity,
        user_action: String,
        result: String,
        metadata: String,
    ) -> (event: AuditEvent)
        ensures
            event@.id == id@,
            event@.timestamp == append_time(
                old(log)@,
                rotation_due(size, self.max_file_size),
                timestamp@,
            ),
            event@.event_type == event_type,
            event@.severity == severity,
            event@.user_action == user_action@,
            event@.result == result@,
            event@.metadata == metadata@,
            chained_to(old(log)@, rotation_due(size, self.max_file_size), event@),
            final(log)@ == appended(old(log)@, rotation_due(size, self.max_file_size), event@),
            intact(old(log)@.current) ==> intact(final(log)@.current),
            time_ordered(old(log)@.current) ==> time_ordered(final(log)@.current),
    {
        if self.needs_rotation(size) {
            self.rotate_logs(log, &timestamp);
        }
        let ghost before = events_view(log.current@);
        let stamped = if log.current.len() > 0 {
            assert(before.last() == log.current@[log.current@.len() - 1]@);
            timestamp.later_of(&log.current[log.current.len() - 1].timestamp)
        } else {
            timestamp
        };
        let previous = get_last_hash(&log.current);
        let mut event = AuditEvent {
            id,
            timestamp: stamped,
            event_type,
            severity,
            user_action,
            result,
            metadata,
            hash: String::new(),
        };
        let hash = calculate_hash(&event, previous.as_str());
        assert(chain_input(previous@, event@) == chain_input(
            previous@,
            AuditEventView { hash: hash@, ..event@ },
        ));
        event.hash = hash;
        let copy = event.copy();
        let ghost earlier = log.current@;
        log.current.push(event);
        assert(events_view(log.current@) =~= events_view(earlier).push(event@));
        proof {
            if intact(old(log)@.current) {
                lemma_appended_intact(
                    old(log)@,
                    rotation_due(size, self.max_file_size),
                    copy@,
                );
            }
            if time_ordered(old(log)@.current) {
                if rotation_due(size, self.max_file_size) {
                    assert(before =~= Seq::empty());
                }
                lemma_append_keeps_time_order(before, copy@);
            }
        }
        copy
    }

    /// Records an event now, under a new random identifier. What `append` says
    /// of the event and of the log holds of them, whatever the identifier and
    /// the clock's instant came out as: the event takes the later of that
    /// instant and the time of the event before it.
    pub fn log_event(
        &self,
        log: &mut AuditLog,
        size: Option<u64>,
        event_type: AuditEventType,
        severity: Severity,
        user_action: String,
        result: String,
        metadata: String,
    ) -> (event: AuditEvent)
        ensures
            event@.event_type == event_type,
            event@.severity == severity,
            event@.user_action == user_action@,
            event@.result == result@,
            event@.metadata == metadata@,
            chained_to(old(log)@, rotation_due(size, self.max_file_size), event@),
            final(log)@ == appended(old(log)@, rotation_due(size, self.max_file_size), event@),
            intact(old(log)@.current) ==> intact(final(log)@.current),
            time_ordered(old(log)@.current) ==> time_ordered(final(log)@.current),
            !rotation_due(size, self.max_file_size) && old(log)@.current.len() > 0 ==> !instant_lt(
                event@.timestamp,
                old(log)@.current.last().timestamp,
            ),
    {
        let id = fresh_event_id();
        let timestamp = Timestamp::now();
        self.append(log, size, id, timestamp, event_type, severity, user_action, result, metadata)
    }

    /// Answers a query on the events of a log.
    pub fn get_events(
        &self,
        events: &Vec<AuditEvent>,
        limit: Option<usize>,
        event_type: Option<AuditEventType>,
        start_date: Option<Timestamp>,
        end_date: Option<Timestamp>,
    ) -> (found: Vec<AuditEvent>)
        ensures
            events_view(found@) == query_result(
                events_view(events@),
                limit,
                event_type,
                opt_instant(start_date),
                opt_instant(end_date),
            ),
    {
        get_events(events, limit, event_type, start_date, end_date)
    }

    /// Whether every event of `events` is chained to the one before it, from
    /// the genesis text on. Where the answer is `false` the chain has a first
    /// break, which `find_violation` names with the event's identifier.
    pub fn verify_integrity(&self, events: &Vec<AuditEvent>) -> (ok: bool)
        ensures
            ok == intact(events_view(events@)),
            !ok ==> exists|k: int| first_break(events_view(events@), k),
    {
        verify_chain(events)
    }
}

/// Appending to a log whose current file is intact leaves it intact, with or
/// without rotation.
pub proof fn lemma_appended_intact(log: AuditLogView, rotate: bool, e: AuditEventView)
    requires
        intact(log.current),
        chained_to(log, rotate, e),
    ensures
        intact(appended(log, rotate, e).current),
{
    lemma_append_keeps_intact(log_before_append(log, rotate, e.timestamp).current, e);
}

/// Rotation: where the current log has outgrown the threshold, the next append
/// archives it as it is, under the name of the instant, and the event that
/// caused the rotation is the only one of the new log, chained to the genesis
/// text.
pub proof fn lemma_rotation_starts_fresh(
    log: AuditLogView,
    size: Option<u64>,
    max_file_size: u64,
    e: AuditEventView,
)
    requires
        size matches Some(bytes) && bytes > max_file_size,
        chained_to(log, rotation_due(size, max_file_size), e),
    ensures
        rotation_due(size, max_file_size),
        appended(log, true, e).current == seq![e],
        e.hash == chain_hash(genesis(), e),
        intact(appended(log, true, e).current),
        appended(log, true, e).archives.len() == log.archives.len() + 1,
        appended(log, true, e).archives.last().events == log.current,
        appended(log, true, e).archives.last().name == archive_name(e.timestamp),
        appended(log, true, e).archives.drop_last() == log.archives,
{
    let after = appended(log, true, e);
    assert(after.current =~= seq![e]);
    assert(after.archives.drop_last() =~= log.archives);
    assert forall|k: int| 0 <= k < after.current.len() implies link_holds(after.current, k) by {
        assert(after.current[0] == e);
    }
}

/// An append without rotation adds the event to the end of the current log and
/// leaves the archives alone.
pub proof fn lemma_append_without_rotation(
    log: AuditLogView,
    size: Option<u64>,
    max_file_size: u64,
    e: AuditEventView,
)
    requires
        !rotation_due(size, max_file_size),
    ensures
        appended(log, rotation_due(size, max_file_size), e).current == log.current.push(e),
        appended(log, rotation_due(size, max_file_size), e).archives == log.archives,
{
}

} // verus!
