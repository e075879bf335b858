use parallax::audit::{query_bound, AuditEventType};
use parallax::lifecycle::{
    ActivationReply, ActivationResponse, ValidationReply, ValidationResponse,
};
use parallax::time::Timestamp;
use parallax::transport::{
    activation_reply, deactivation_note, is_success_status, validation_reply, DeactivationNote,
    Exchange, HttpAnswer,
};

fn activation_response() -> ActivationResponse {
    ActivationResponse {
        success: false,
        message: "license already in use".to_string(),
        activation_token: None,
        tier: "free".to_string(),
        features: vec![],
        expires_at: None,
    }
}

fn validation_response(valid: bool) -> ValidationResponse {
    ValidationResponse { valid, tier: None, features: None, expires_at: None }
}

fn response<R>(status: u16, body: &str, parsed: Option<R>) -> Exchange<R> {
    Exchange::Response(HttpAnswer { status, body: body.to_string(), parsed })
}

#[test]
fn success_statuses() {
    assert!(!is_success_status(199));
    assert!(is_success_status(200));
    assert!(is_success_status(204));
    assert!(is_success_status(299));
    assert!(!is_success_status(300));
    assert!(!is_success_status(404));
    assert!(!is_success_status(500));
    assert!(!is_success_status(0));
}

#[test]
fn activation_three_outcomes() {
    // An answer, even a negative one, is an answer.
    match activation_reply(response(200, "", Some(activation_response()))) {
        ActivationReply::Answered(r) => {
            assert!(!r.success);
            assert_eq!(r.message, "license already in use");
        }
        other => panic!("{:?}", other),
    }
    match activation_reply(response::<ActivationResponse>(403, "forbidden", None)) {
        ActivationReply::Failed(m) => assert_eq!(m, "Activation failed: forbidden"),
        other => panic!("{:?}", other),
    }
    // The status decides before the body does.
    match activation_reply(response(500, "oops", Some(activation_response()))) {
        ActivationReply::Failed(m) => assert_eq!(m, "Activation failed: oops"),
        other => panic!("{:?}", other),
    }
    match activation_reply(response::<ActivationResponse>(200, "<html>", None)) {
        ActivationReply::Failed(m) => assert_eq!(m, "Failed to parse activation response"),
        other => panic!("{:?}", other),
    }
    match activation_reply(Exchange::<ActivationResponse>::NoResponse("timed out".to_string())) {
        ActivationReply::Failed(m) => assert_eq!(m, "Failed to contact license server"),
        other => panic!("{:?}", other),
    }
}

#[test]
fn validation_three_outcomes() {
    match validation_reply(response(200, "", Some(validation_response(true)))) {
        ValidationReply::Answered(r) => assert!(r.valid),
        other => panic!("{:?}", other),
    }
    match validation_reply(response(201, "", Some(validation_response(false)))) {
        ValidationReply::Answered(r) => assert!(!r.valid),
        other => panic!("{:?}", other),
    }
    match validation_reply(response::<ValidationResponse>(503, "busy", None)) {
        ValidationReply::Failed(m) => assert_eq!(m, "Validation failed: busy"),
        other => panic!("{:?}", other),
    }
    match validation_reply(response::<ValidationResponse>(200, "", None)) {
        ValidationReply::Failed(m) => assert_eq!(m, "Failed to parse validation response"),
        other => panic!("{:?}", other),
    }
    match validation_reply(Exchange::<ValidationResponse>::NoResponse("dns".to_string())) {
        ValidationReply::Failed(m) => assert_eq!(m, "Failed to contact license server"),
        other => panic!("{:?}", other),
    }
}

#[test]
fn deactivation_notes() {
    assert_eq!(deactivation_note::<()>(&None), DeactivationNote::NotAsked);
    assert_eq!(deactivation_note(&Some(response(200, "", Some(())))), DeactivationNote::Confirmed);
    assert_eq!(deactivation_note(&Some(response::<()>(204, "", None))), DeactivationNote::Confirmed);
    assert_eq!(
        deactivation_note(&Some(response::<()>(404, "gone", None))),
        DeactivationNote::Refused(404)
    );
    assert_eq!(
        deactivation_note(&Some(Exchange::<()>::NoResponse("timed out".to_string()))),
        DeactivationNote::Unreachable
    );
    assert!(!DeactivationNote::NotAsked.is_warning());
    assert!(!DeactivationNote::Confirmed.is_warning());
    assert!(DeactivationNote::Refused(500).is_warning());
    assert!(DeactivationNote::Unreachable.is_warning());
    assert_eq!(DeactivationNote::Confirmed.message(), "License deactivated on server");
    assert_eq!(DeactivationNote::Refused(404).message(), "Server deactivation failed: 404");
    assert_eq!(DeactivationNote::Refused(0).message(), "Server deactivation failed: 0");
    assert_eq!(
        DeactivationNote::Unreachable.message(),
        "Failed to contact server for deactivation"
    );
    assert_eq!(
        DeactivationNote::NotAsked.message(),
        "No activation token stored, server not contacted"
    );
}

#[test]
fn kinds_are_read_back_from_their_names() {
    let kinds = [
        AuditEventType::LicenseActivated,
        AuditEventType::LicenseDeactivated,
        AuditEventType::LicenseValidated,
        AuditEventType::ApiKeyChanged,
        AuditEventType::DorkCreated,
        AuditEventType::DorkModified,
        AuditEventType::DorkDeleted,
        AuditEventType::DorkExecuted,
        AuditEventType::ExportPerformed,
        AuditEventType::SettingsChanged,
        AuditEventType::AuthenticationFailed,
        AuditEventType::VaultAccessed,
        AuditEventType::ConversationSaved,
    ];
    for kind in kinds {
        assert_eq!(AuditEventType::from_name(kind.as_str()), Some(kind));
        assert_eq!(format!("{:?}", kind), kind.as_str());
    }
    assert_eq!(AuditEventType::from_name("licenseactivated"), None);
    assert_eq!(AuditEventType::from_name("Unknown"), None);
    assert_eq!(AuditEventType::from_name(""), None);
}

#[test]
fn query_bounds_are_strict_rfc3339() {
    assert_eq!(query_bound(None), None);
    assert_eq!(
        query_bound(Some("2024-01-01T00:00:00Z")),
        Timestamp::from_unix(1_704_067_200, 0)
    );
    assert_eq!(
        query_bound(Some("2024-01-01T02:00:00.25+02:00")),
        Timestamp::from_unix(1_704_067_200, 250_000_000)
    );
    assert_eq!(query_bound(Some("2024-01-01")), None);
    assert_eq!(query_bound(Some("yesterday")), None);
    assert_eq!(
        Timestamp::parse_rfc3339("2024-01-01T00:00:00+00:00"),
        Timestamp::from_unix(1_704_067_200, 0)
    );
    assert_eq!(Timestamp::parse_rfc3339("2024-01-01T00:00:00"), None);
}
