//! Exporting the log: as the events themselves, or as a table of texts.

use crate::audit::event::{events_view, AuditEvent, AuditEventView};
use crate::audit::log::AuditLogger;
use crate::audit::query::{get_events, lemma_unfiltered, newest_first};
use crate::text::{same_text, table_view, texts};
use crate::time::rfc3339_text;
use vstd::prelude::*;

verus! {

/// The forms in which the log is exported.
#[derive(Clone, Copy, Debug, PartialEq, Eq, Structural)]
pub enum ExportFormat {
    Json,
    Csv,
}

/// Why an operation on the audit log failed.
#[derive(Clone, Copy, Debug, PartialEq, Eq, Structural)]
pub enum AuditError {
    /// The export format is neither `json` nor `csv`.
    UnsupportedFormat,
}

/// The export format that a name stands for.
pub open spec fn format_named(name: Seq<char>) -> Option<ExportFormat> {
    if name == "json"@ {
        Some(ExportFormat::Json)
    } else if name == "csv"@ {
        Some(ExportFormat::Csv)
    } else {
        None
    }
}

/// The first row of the table that the log is exported as.
pub open spec fn csv_header() -> Seq<Seq<char>> {
    seq!["ID"@, "Timestamp"@, "Event Type"@, "Severity"@, "User Action"@, "Result"@, "Metadata"@]
}

/// The row of an event: its fields but the hash, each as text. The metadata
/// stands in it as its JSON text.
pub open spec fn csv_row(e: AuditEventView) -> Seq<Seq<char>> {
    seq![
        e.id,
        rfc3339_text(e.timestamp.0, e.timestamp.1),
        e.event_type.name(),
        e.severity.name(),
        e.user_action,
        e.result,
        e.metadata,
    ]
}

/// The table of a list of events: the header, then one row for each event.
pub open spec fn csv_table(events: Seq<AuditEventView>) -> Seq<Seq<Seq<char>>> {
    seq![csv_header()] + events.map_values(|e: AuditEventView| csv_row(e))
}

/// What is handed out for export: the events themselves for JSON, the rows of
/// the table for CSV.
#[derive(Debug)]
pub enum Export {
    Json(Vec<AuditEvent>),
    Csv(Vec<Vec<String>>),
}

/// The export format that `name` stands for.
pub fn parse_format(name: &str) -> (format: Result<ExportFormat, AuditError>)
    ensures
        match format {
            Ok(f) => format_named(name@) == Some(f),
            Err(_) => format_named(name@) is None,
        },
{
    if same_text(name, "json") {
        Ok(ExportFormat::Json)
    } else if same_text(name, "csv") {
        Ok(ExportFormat::Csv)
    } else {
        Err(AuditError::UnsupportedFormat)
    }
}

/// The rows of the table that `events` are exported as.
pub fn csv_rows(events: &Vec<AuditEvent>) -> (rows: Vec<Vec<String>>)
    ensures
        table_view(rows@) == csv_table(events_view(events@)),
{
    let ghost log = events_view(events@);
    let mut header: Vec<String> = Vec::new();
    header.push(String::from_str("ID"));
    header.push(String::from_str("Timestamp"));
    header.push(String::from_str("Event Type"));
    header.push(String::from_str("Severity"));
    header.push(String::from_str("User Action"));
    header.push(String::from_str("Result"));
    header.push(String::from_str("Metadata"));
    assert(texts(header@) =~= csv_header());
    let mut rows: Vec<Vec<String>> = Vec::new();
    rows.push(header);
    assert(table_view(rows@) =~= csv_table(log.take(0)));
    let mut i: usize = 0;
    while i < events.len()
        invariant
            i <= events.len(),
            log == events_view(events@),
            log.len() == events.len(),
            table_view(rows@) =~= csv_table(log.take(i as int)),
        decreases events.len() - i,
    {
        let event = &events[i];
        let mut row: Vec<String> = Vec::new();
        row.push(event.id.clone());
        row.push(event.timestamp.to_rfc3339());
        row.push(String::from_str(event.event_type.as_str()));
        row.push(String::from_str(event.severity.as_str()));
        row.push(event.user_action.clone());
        row.push(event.result.clone());
        row.push(event.metadata.clone());
        proof {
            assert(log[i as int] == event@);
            assert(texts(row@) =~= csv_row(log[i as int]));
            assert(table_view(rows@.push(row)) =~= table_view(rows@).push(texts(row@)));
            assert(log.take(i + 1) =~= log.take(i as int).push(log[i as int]));
            assert(csv_table(log.take(i + 1)) =~= csv_table(log.take(i as int)).push(
                csv_row(log[i as int]),
            ));
        }
        rows.push(row);
        i += 1;
    }
    assert(log.take(events.len() as int) =~= log);
    rows
}

impl AuditLogger {
    /// Prepares the export of `events` in the format that `format` names, newest
    /// event first. A name other than `json` and `csv` is refused.
    pub fn export_logs(&self, events: &Vec<AuditEvent>, format: &str) -> (export: Result<
        Export,
        AuditError,
    >)
        ensures
            match export {
                Ok(Export::Json(list)) => format_named(format@) == Some(ExportFormat::Json)
                    && events_view(list@) == newest_first(events_view(events@)),
                Ok(Export::Csv(rows)) => format_named(format@) == Some(ExportFormat::Csv)
                    && table_view(rows@) == csv_table(newest_first(events_view(events@))),
                Err(e) => format_named(format@) is None && e == AuditError::UnsupportedFormat,
            },
    {
        let chosen = match parse_format(format) {
            Ok(f) => f,
            Err(e) => { return Err(e); },
        };
        let list = get_events(events, None, None, None, None);
        proof {
            lemma_unfiltered(events_view(events@));
        }
        match chosen {
            ExportFormat::Json => Ok(Export::Json(list)),
            ExportFormat::Csv => Ok(Export::Csv(csv_rows(&list))),
        }
    }
}

} // verus!
