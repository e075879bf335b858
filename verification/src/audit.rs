//! The audit log: events chained by their hashes, so that a change to what was
//! recorded shows.

pub mod chain;
pub mod event;
pub mod log;
pub mod query;
pub mod table;

pub use chain::{
    calculate_hash, find_violation, get_last_hash, verify_chain, IntegrityViolation,
};
pub use event::{AuditEvent, AuditEventType, Severity};
pub use log::{ArchivedLog, AuditLog, AuditLogger, DEFAULT_MAX_FILE_SIZE};
pub use query::{get_events, keep_readable, query_bound};
pub use table::{csv_rows, parse_format, AuditError, Export, ExportFormat};
