//! Audit events, their kinds and severities.

use crate::text::same_text;
use crate::time::{Instant, Timestamp};
use vstd::prelude::*;

verus! {

/// What kind of action an audit event records.
#[derive(Clone, Copy, Debug, PartialEq, Eq, Structural)]
pub enum AuditEventType {
    /// A license was activated.
    LicenseActivated,
    /// A license was deactivated.
    LicenseDeactivated,
    /// A license was validated.
    LicenseValidated,
    /// An API key was stored or removed.
    ApiKeyChanged,
    /// A record was created.
    DorkCreated,
    /// A record was modified.
    DorkModified,
    /// A record was deleted.
    DorkDeleted,
    /// A query was run.
    DorkExecuted,
    /// Data was exported.
    ExportPerformed,
    /// A setting was changed.
    SettingsChanged,
    /// An authentication attempt failed.
    AuthenticationFailed,
    /// The secret store was accessed.
    VaultAccessed,
    /// A conversation was saved.
    ConversationSaved,
}

/// How grave an audit event is.
#[derive(Clone, Copy, Debug, PartialEq, Eq, Structural)]
pub enum Severity {
    Info,
    Warning,
    Error,
    Critical,
}

impl AuditEventType {
    /// The name of the kind, as it is written into the log and hashed.
    pub open spec fn name(self) -> Seq<char> {
        match self {
            AuditEventType::LicenseActivated => "LicenseActivated"@,
            AuditEventType::LicenseDeactivated => "LicenseDeactivated"@,
            AuditEventType::LicenseValidated => "LicenseValidated"@,
            AuditEventType::ApiKeyChanged => "ApiKeyChanged"@,
            AuditEventType::DorkCreated => "DorkCreated"@,
            AuditEventType::DorkModified => "DorkModified"@,
            AuditEventType::DorkDeleted => "DorkDeleted"@,
            AuditEventType::DorkExecuted => "DorkExecuted"@,
            AuditEventType::ExportPerformed => "ExportPerformed"@,
            AuditEventType::SettingsChanged => "SettingsChanged"@,
            AuditEventType::AuthenticationFailed => "AuthenticationFailed"@,
            AuditEventType::VaultAccessed => "VaultAccessed"@,
            AuditEventType::ConversationSaved => "ConversationSaved"@,
        }
    }

    /// The name of the kind.
    pub fn as_str(&self) -> (name: &'static str)
        ensures
            name@ == self.name(),
    {
        match self {
            AuditEventType::LicenseActivated => "LicenseActivated",
            AuditEventType::LicenseDeactivated => "LicenseDeactivated",
            AuditEventType::LicenseValidated => "LicenseValidated",
            AuditEventType::ApiKeyChanged => "ApiKeyChanged",
            AuditEventType::DorkCreated => "DorkCreated",
            AuditEventType::DorkModified => "DorkModified",
            AuditEventType::DorkDeleted => "DorkDeleted",
            AuditEventType::DorkExecuted => "DorkExecuted",
            AuditEventType::ExportPerformed => "ExportPerformed",
            AuditEventType::SettingsChanged => "SettingsChanged",
            AuditEventType::AuthenticationFailed => "AuthenticationFailed",
            AuditEventType::VaultAccessed => "VaultAccessed",
            AuditEventType::ConversationSaved => "ConversationSaved",
        }
    }
}

impl Severity {
    /// The name of the severity, as it is written into the log.
    pub open spec fn name(self) -> Seq<char> {
        match self {
            Severity::Info => "Info"@,
            Severity::Warning => "Warning"@,
            Severity::Error => "Error"@,
            Severity::Critical => "Critical"@,
        }
    }

    /// The name of the severity.
    pub fn as_str(&self) -> (name: &'static str)
        ensures
            name@ == self.name(),
    {
        match self {
            Severity::Info => "Info",
            Severity::Warning => "Warning",
            Severity::Error => "Error",
            Severity::Critical => "Critical",
        }
    }
}

/// One record of the audit log. Once appended it is never changed.
#[derive(Debug)]
pub struct AuditEvent {
    /// The event's unique identifier.
    pub id: String,
    /// When the event was recorded.
    pub timestamp: Timestamp,
    pub event_type: AuditEventType,
    pub severity: Severity,
    /// What was done, in free words.
    pub user_action: String,
    /// How it ended, in free words.
    pub result: String,
    /// Structured detail, as JSON text.
    pub metadata: String,
    /// The hash that chains this event to the one before it.
    pub hash: String,
}

/// What an `AuditEvent` holds, as texts and an instant.
pub struct AuditEventView {
    pub id: Seq<char>,
    pub timestamp: Instant,
    pub event_type: AuditEventType,
    pub severity: Severity,
    pub user_action: Seq<char>,
    pub result: Seq<char>,
    pub metadata: Seq<char>,
    pub hash: Seq<char>,
}

impl View for AuditEvent {
    type V = AuditEventView;

    open spec fn view(&self) -> AuditEventView {
        AuditEventView {
            id: self.id@,
            timestamp: self.timestamp@,
            event_type: self.event_type,
            severity: self.severity,
            user_action: self.user_action@,
            result: self.result@,
            metadata: self.metadata@,
            hash: self.hash@,
        }
    }
}

/// What the events of a list hold, in order.
pub open spec fn events_view(events: Seq<AuditEvent>) -> Seq<AuditEventView> {
    events.map_values(|e: AuditEvent| e@)
}

impl AuditEvent {
    /// A copy that holds the same texts.
    pub fn copy(&self) -> (copy: AuditEvent)
        ensures
            copy@ == self@,
    {
        AuditEvent {
            id: self.id.clone(),
            timestamp: self.timestamp,
            event_type: self.event_type,
            severity: self.severity,
            user_action: self.user_action.clone(),
            result: self.result.clone(),
            metadata: self.metadata.clone(),
            hash: self.hash.clone(),
        }
    }
}

impl AuditEventType {
    /// The kind that `name` is the name of.
    pub fn from_name(name: &str) -> (kind: Option<AuditEventType>)
        ensures
            match kind {
                Some(k) => k.name() == name@,
                None => forall|k: AuditEventType| k.name() != name@,
            },
    {
        if same_text(name, "LicenseActivated") {
            Some(AuditEventType::LicenseActivated)
        } else if same_text(name, "LicenseDeactivated") {
            Some(AuditEventType::LicenseDeactivated)
        } else if same_text(name, "LicenseValidated") {
            Some(AuditEventType::LicenseValidated)
        } else if same_text(name, "ApiKeyChanged") {
            Some(AuditEventType::ApiKeyChanged)
        } else if same_text(name, "DorkCreated") {
            Some(AuditEventType::DorkCreated)
        } else if same_text(name, "DorkModified") {
            Some(AuditEventType::DorkModified)
        } else if same_text(name, "DorkDeleted") {
            Some(AuditEventType::DorkDeleted)
        } else if same_text(name, "DorkExecuted") {
            Some(AuditEventType::DorkExecuted)
        } else if same_text(name, "ExportPerformed") {
            Some(AuditEventType::ExportPerformed)
        } else if same_text(name, "SettingsChanged") {
            Some(AuditEventType::SettingsChanged)
        } else if same_text(name, "AuthenticationFailed") {
            Some(AuditEventType::AuthenticationFailed)
        } else if same_text(name, "VaultAccessed") {
            Some(AuditEventType::VaultAccessed)
        } else if same_text(name, "ConversationSaved") {
            Some(AuditEventType::ConversationSaved)
        } else {
            None
        }
    }
}

impl Severity {
    /// The severity that `name` is the name of.
    pub fn from_name(name: &str) -> (severity: Option<Severity>)
        ensures
            match severity {
                Some(s) => s.name() == name@,
                None => forall|s: Severity| s.name() != name@,
            },
    {
        if same_text(name, "Info") {
            Some(Severity::Info)
        } else if same_text(name, "Warning") {
            Some(Severity::Warning)
        } else if same_text(name, "Error") {
            Some(Severity::Error)
        } else if same_text(name, "Critical") {
            Some(Severity::Critical)
        } else {
            None
        }
    }
}

/// No two kinds have the same name: the name of a kind is read back as that
/// kind.
pub proof fn lemma_kind_names_differ(a: AuditEventType, b: AuditEventType)
    requires
        a.name() == b.name(),
    ensures
        a == b,
{
    reveal_strlit("LicenseActivated");
    reveal_strlit("LicenseDeactivated");
    reveal_strlit("LicenseValidated");
    reveal_strlit("ApiKeyChanged");
    reveal_strlit("DorkCreated");
    reveal_strlit("DorkModified");
    reveal_strlit("DorkDeleted");
    reveal_strlit("DorkExecuted");
    reveal_strlit("ExportPerformed");
    reveal_strlit("SettingsChanged");
    reveal_strlit("AuthenticationFailed");
    reveal_strlit("VaultAccessed");
    reveal_strlit("ConversationSaved");
    assert("LicenseActivated"@.len() == 16);
    assert("LicenseDeactivated"@.len() == 18);
    assert("LicenseValidated"@.len() == 16);
    assert("ApiKeyChanged"@.len() == 13);
    assert("DorkCreated"@.len() == 11);
    assert("DorkModified"@.len() == 12);
    assert("DorkDeleted"@.len() == 11);
    assert("DorkExecuted"@.len() == 12);
    assert("ExportPerformed"@.len() == 15);
    assert("SettingsChanged"@.len() == 15);
    assert("AuthenticationFailed"@.len() == 20);
    assert("VaultAccessed"@.len() == 13);
    assert("ConversationSaved"@.len() == 17);
    assert("LicenseActivated"@[7] != "LicenseValidated"@[7]);
    assert("ApiKeyChanged"@[0] != "VaultAccessed"@[0]);
    assert("DorkCreated"@[4] != "DorkDeleted"@[4]);
    assert("DorkModified"@[4] != "DorkExecuted"@[4]);
    assert("ExportPerformed"@[0] != "SettingsChanged"@[0]);
}

} // verus!
