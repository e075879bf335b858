//! What the license lifecycle leaves in the audit log. The record is made
//! after the operation has ended and says how it ended: it does not change it.

use crate::audit::event::{AuditEventType, Severity};
use crate::license::LicenseInfo;
use crate::lifecycle::{license_error_text, LicenseError};
use crate::transport::{note_text, DeactivationNote};
use vstd::prelude::*;

verus! {

/// An audit event before it is appended: what the logger is given.
#[derive(Debug)]
pub struct AuditDraft {
    pub event_type: AuditEventType,
    pub severity: Severity,
    pub user_action: String,
    pub result: String,
}

/// The record of an activation: `success`, or the reason of the failure as a
/// warning.
pub fn activation_record(outcome: &Result<LicenseInfo, LicenseError>) -> (draft: AuditDraft)
    ensures
        draft.event_type == AuditEventType::LicenseActivated,
        draft.user_action@ == "Activate license"@,
        match *outcome {
            Ok(_) => draft.severity == Severity::Info && draft.result@ == "success"@,
            Err(e) => draft.severity == Severity::Warning && draft.result@ == license_error_text(
                e@,
            ),
        },
{
    match outcome {
        Ok(_) => AuditDraft {
            event_type: AuditEventType::LicenseActivated,
            severity: Severity::Info,
            user_action: String::from_str("Activate license"),
            result: String::from_str("success"),
        },
        Err(e) => AuditDraft {
            event_type: AuditEventType::LicenseActivated,
            severity: Severity::Warning,
            user_action: String::from_str("Activate license"),
            result: e.message(),
        },
    }
}

/// The record of a validation: `valid`, or `invalid` as a warning.
pub fn validation_record(valid: bool) -> (draft: AuditDraft)
    ensures
        draft.event_type == AuditEventType::LicenseValidated,
        draft.user_action@ == "Validate license"@,
        valid ==> draft.severity == Severity::Info && draft.result@ == "valid"@,
        !valid ==> draft.severity == Severity::Warning && draft.result@ == "invalid"@,
{
    if valid {
        AuditDraft {
            event_type: AuditEventType::LicenseValidated,
            severity: Severity::Info,
            user_action: String::from_str("Validate license"),
            result: String::from_str("valid"),
        }
    } else {
        AuditDraft {
            event_type: AuditEventType::LicenseValidated,
            severity: Severity::Warning,
            user_action: String::from_str("Validate license"),
            result: String::from_str("invalid"),
        }
    }
}

/// The record of a deactivation: what became of the request to the server, as
/// a warning where the server was asked and did not confirm.
pub fn deactivation_record(note: DeactivationNote) -> (draft: AuditDraft)
    ensures
        draft.event_type == AuditEventType::LicenseDeactivated,
        draft.user_action@ == "Deactivate license"@,
        draft.result@ == note_text(note),
        draft.severity == (if note is Refused || note is Unreachable {
            Severity::Warning
        } else {
            Severity::Info
        }),
{
    AuditDraft {
        event_type: AuditEventType::LicenseDeactivated,
        severity: if note.is_warning() {
            Severity::Warning
        } else {
            Severity::Info
        },
        user_action: String::from_str("Deactivate license"),
        result: note.message(),
    }
}

} // verus!
