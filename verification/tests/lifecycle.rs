use base64::Engine;
use ed25519_dalek::Signer;
use parallax::fingerprint::MachineSignals;
use parallax::key::KeyFormatError;
use parallax::license::{LicenseInfo, LicenseStore};
use parallax::lifecycle::{
    ActivationReply, ActivationResponse, LicenseError, LicenseService, LicenseState,
    ValidationReply, ValidationResponse,
};
use parallax::signature::SignatureError;
use parallax::audit::{AuditEventType, Severity};
use parallax::time::Timestamp;
use parallax::trail::{activation_record, deactivation_record, validation_record};
use parallax::transport::DeactivationNote;

const LICENSE: &str = "PRLX-ABCD-1234-EFGH-5678";
const DAY: i64 = 86_400;
const HOUR: i64 = 3_600;
// 2024-01-01T00:00:00Z
const T: i64 = 1_704_067_200;

fn signing_key() -> ed25519_dalek::SigningKey {
    ed25519_dalek::SigningKey::from_bytes(&[7u8; 32])
}

fn public_key() -> String {
    base64::engine::general_purpose::STANDARD.encode(signing_key().verifying_key().to_bytes())
}

/// The signature of `key` under the service's verification key.
fn signature_of(key: &str) -> Vec<u8> {
    let message = parallax::signature::signed_message(key).unwrap();
    signing_key().sign(&message).to_bytes().to_vec()
}

fn service() -> LicenseService {
    LicenseService::new(
        "https://license.example/api".to_string(),
        public_key(),
        "1.2.3".to_string(),
    )
}

fn signals() -> MachineSignals {
    MachineSignals {
        machine_uid: Some("machine-123".to_string()),
        cpu_brand: Some("CPU X".to_string()),
        os: "linux".to_string(),
        arch: "x86_64".to_string(),
    }
}

fn at(secs: i64) -> Timestamp {
    Timestamp::from_unix(secs, 0).unwrap()
}

fn success_response() -> ActivationResponse {
    ActivationResponse {
        success: true,
        message: "ok".to_string(),
        activation_token: Some("token-1".to_string()),
        tier: "professional".to_string(),
        features: vec!["builder".to_string(), "ai".to_string()],
        expires_at: Some("2025-01-01T00:00:00+00:00".to_string()),
    }
}

fn active_store() -> LicenseStore {
    let mut store = LicenseStore::new();
    let info = service()
        .activate(
            &mut store,
            LICENSE,
            Some(&signature_of(LICENSE)),
            ActivationReply::Answered(success_response()),
            &at(T),
        )
        .unwrap();
    assert_eq!(info.status, "active");
    store
}

fn confirmed() -> ValidationReply {
    ValidationReply::Answered(ValidationResponse {
        valid: true,
        tier: None,
        features: None,
        expires_at: None,
    })
}

fn refused() -> ValidationReply {
    ValidationReply::Answered(ValidationResponse {
        valid: false,
        tier: Some("team".to_string()),
        features: Some(vec![]),
        expires_at: None,
    })
}

fn unreachable() -> ValidationReply {
    ValidationReply::Failed("timed out".to_string())
}

fn same_store(a: &LicenseStore, b: &LicenseStore) -> bool {
    format!("{:?}", a) == format!("{:?}", b)
}

#[test]
fn service_defaults() {
    let s = service();
    assert_eq!(s.grace_days, 7);
    assert_eq!(s.request_timeout_secs, 30);
    assert_eq!(s.validation_timeout_secs, 10);
    assert_eq!(s.activate_url(), "https://license.example/api/activations/activate");
    assert_eq!(s.validate_url(), "https://license.example/api/activations/validate");
    assert_eq!(s.deactivate_url(), "https://license.example/api/activations/deactivate");
}

#[test]
fn free_tier_is_the_default() {
    let store = LicenseStore::new();
    let info = service().get_license_info(&store);
    assert_eq!(info.status, "free");
    assert_eq!(info.tier, "free");
    assert_eq!(info.expires_at, None);
    assert_eq!(info.features, vec!["builder", "library", "local_vault"]);
    assert!(!info.activated);
    assert_eq!(info.last_validation, None);
    assert_eq!(info.effective_tier(), "free");
    assert!(!info.has_feature("builder"));
}

#[test]
fn activation_request_carries_key_fingerprint_and_version() {
    let request = service()
        .activation_request(LICENSE, Some(&signature_of(LICENSE)), &signals())
        .unwrap();
    assert_eq!(request.license_key, LICENSE);
    assert_eq!(
        request.machine_fingerprint,
        "3d5ccf716d1b65ca8b0ea7f8c804aa83236fc8fc522b40557ef31c101c1b2019"
    );
    assert_eq!(request.app_version, "1.2.3");
}

#[test]
fn activation_request_refuses_bad_keys() {
    match service().activation_request("PRLX-ABC", None, &signals()) {
        Err(LicenseError::InvalidFormat(KeyFormatError::SegmentCount)) => {}
        other => panic!("{:?}", other),
    }
    let dev = LicenseService::new(
        "u".to_string(),
        "DEV_MODE_INSECURE_KEY_REPLACE_IN_PRODUCTION".to_string(),
        "1".to_string(),
    );
    match dev.activation_request(LICENSE, None, &signals()) {
        Err(LicenseError::SignatureInvalid(SignatureError::PublicKeyEncoding)) => {}
        other => panic!("{:?}", other),
    }
    // The format is checked before the verification key.
    match dev.activation_request("nope", None, &signals()) {
        Err(LicenseError::InvalidFormat(KeyFormatError::MissingPrefix)) => {}
        other => panic!("{:?}", other),
    }
}

#[test]
fn activation_stores_token_and_entitlement() {
    let mut store = LicenseStore::new();
    let info = service()
        .activate(
            &mut store,
            LICENSE,
            Some(&signature_of(LICENSE)),
            ActivationReply::Answered(success_response()),
            &at(T),
        )
        .unwrap();
    assert_eq!(info.status, "active");
    assert_eq!(info.tier, "professional");
    assert_eq!(info.features, vec!["builder", "ai"]);
    assert_eq!(info.expires_at.as_deref(), Some("2025-01-01T00:00:00+00:00"));
    assert!(info.activated);
    assert_eq!(info.last_validation.as_deref(), Some("2024-01-01T00:00:00+00:00"));
    assert_eq!(store.token.as_deref(), Some("token-1"));
    let stored = store.info.as_ref().unwrap();
    assert_eq!(format!("{:?}", stored), format!("{:?}", info));
    assert_eq!(store.last_validation, None);
    assert_eq!(stored.effective_tier(), "professional");
    assert!(stored.has_feature("ai"));
    assert!(!stored.has_feature("export"));
}

#[test]
fn activation_rejected_by_server_stores_nothing() {
    let mut store = LicenseStore::new();
    let mut response = success_response();
    response.success = false;
    response.message = "license already in use".to_string();
    match service().activate(
        &mut store,
        LICENSE,
        Some(&signature_of(LICENSE)),
        ActivationReply::Answered(response),
        &at(T),
    ) {
        Err(LicenseError::ServerRejected(message)) => assert_eq!(message, "license already in use"),
        other => panic!("{:?}", other),
    }
    assert!(same_store(&store, &LicenseStore::new()));
}

#[test]
fn activation_without_token_is_a_rejection() {
    let mut store = LicenseStore::new();
    let mut response = success_response();
    response.activation_token = None;
    response.message = "no slot".to_string();
    match service().activate(
        &mut store,
        LICENSE,
        Some(&signature_of(LICENSE)),
        ActivationReply::Answered(response),
        &at(T),
    ) {
        Err(LicenseError::ServerRejected(message)) => assert_eq!(message, "no slot"),
        other => panic!("{:?}", other),
    }
    assert!(same_store(&store, &LicenseStore::new()));
}

#[test]
fn activation_needs_the_server() {
    let mut store = active_store();
    let before = format!("{:?}", store);
    let reply = ActivationReply::Failed("Failed to contact license server".to_string());
    match service().activate(&mut store, LICENSE, Some(&signature_of(LICENSE)), reply, &at(T + DAY)) {
        Err(LicenseError::TransportFailure(message)) => {
            assert_eq!(message, "Failed to contact license server")
        }
        other => panic!("{:?}", other),
    }
    assert_eq!(format!("{:?}", store), before);
}

#[test]
fn activation_checks_the_key_before_the_reply() {
    let mut store = LicenseStore::new();
    let reply = ActivationReply::Answered(success_response());
    match service().activate(&mut store, "PRLX-ABCD-1234-EFGH-567", None, reply, &at(T)) {
        Err(LicenseError::InvalidFormat(KeyFormatError::SegmentLength(4))) => {}
        other => panic!("{:?}", other),
    }
    assert!(same_store(&store, &LicenseStore::new()));
}

#[test]
fn activation_without_signature_is_refused_before_the_server() {
    let s = service();
    match s.activation_request(LICENSE, None, &signals()) {
        Err(LicenseError::SignatureInvalid(SignatureError::SignatureMissing)) => {}
        other => panic!("{:?}", other),
    }
    // Whatever the server would say, nothing is stored.
    let mut store = LicenseStore::new();
    let reply = ActivationReply::Answered(success_response());
    match s.activate(&mut store, LICENSE, None, reply, &at(T)) {
        Err(LicenseError::SignatureInvalid(SignatureError::SignatureMissing)) => {}
        other => panic!("{:?}", other),
    }
    assert!(same_store(&store, &LicenseStore::new()));
    // The signature of another key does not do.
    let other = signature_of("PRLX-ABCD-1234-EFGH-5679");
    match s.activation_request(LICENSE, Some(&other), &signals()) {
        Err(LicenseError::SignatureInvalid(SignatureError::Mismatch)) => {}
        other => panic!("{:?}", other),
    }
    let reply = ActivationReply::Answered(success_response());
    match s.activate(&mut store, LICENSE, Some(&other), reply, &at(T)) {
        Err(LicenseError::SignatureInvalid(SignatureError::Mismatch)) => {}
        other => panic!("{:?}", other),
    }
    assert!(same_store(&store, &LicenseStore::new()));
}

#[test]
fn activation_with_signature_material() {
    let key = ed25519_dalek::SigningKey::from_bytes(&[9u8; 32]);
    let public = base64::engine::general_purpose::STANDARD.encode(key.verifying_key().to_bytes());
    let s = LicenseService::new("u".to_string(), public, "1".to_string());
    let message = parallax::signature::signed_message(LICENSE).unwrap();
    let good = key.sign(&message).to_bytes();
    let mut bad = good;
    bad[0] ^= 1;

    assert!(s.activation_request(LICENSE, Some(&good), &signals()).is_ok());
    match s.activation_request(LICENSE, Some(&bad), &signals()) {
        Err(LicenseError::SignatureInvalid(SignatureError::Mismatch)) => {}
        other => panic!("{:?}", other),
    }
    match s.activation_request(LICENSE, Some(&good[..10]), &signals()) {
        Err(LicenseError::SignatureInvalid(SignatureError::SignatureLength)) => {}
        other => panic!("{:?}", other),
    }

    let mut store = LicenseStore::new();
    let reply = ActivationReply::Answered(success_response());
    match s.activate(&mut store, LICENSE, Some(&bad), reply, &at(T)) {
        Err(LicenseError::SignatureInvalid(SignatureError::Mismatch)) => {}
        other => panic!("{:?}", other),
    }
    assert!(same_store(&store, &LicenseStore::new()));
    let reply = ActivationReply::Answered(success_response());
    assert!(s.activate(&mut store, LICENSE, Some(&good), reply, &at(T)).is_ok());
    assert_eq!(store.token.as_deref(), Some("token-1"));
}

#[test]
fn license_error_messages() {
    assert_eq!(
        LicenseError::InvalidFormat(KeyFormatError::SegmentCount).message(),
        "Invalid license key format: must have 5 segments"
    );
    assert_eq!(
        LicenseError::SignatureInvalid(SignatureError::PublicKeyLength).message(),
        "Invalid public key length"
    );
    assert_eq!(LicenseError::ServerRejected("no".to_string()).message(), "no");
    assert_eq!(LicenseError::TransportFailure("down".to_string()).message(), "down");
}

#[test]
fn validation_without_entitlement_is_false() {
    let mut store = LicenseStore::new();
    assert!(service().validation_request(&store, &signals(), &at(T)).is_none());
    assert!(!service().validate(&mut store, confirmed(), &at(T)));
    assert!(same_store(&store, &LicenseStore::new()));
}

#[test]
fn validation_of_inactive_entitlement_is_false() {
    let mut store = active_store();
    store.info.as_mut().unwrap().status = "expired".to_string();
    assert!(service().validation_request(&store, &signals(), &at(T)).is_none());
    assert!(!service().validate(&mut store, confirmed(), &at(T)));

    let mut store = active_store();
    store.info.as_mut().unwrap().activated = false;
    assert!(service().validation_request(&store, &signals(), &at(T)).is_none());
    assert!(!service().validate(&mut store, confirmed(), &at(T)));
}

#[test]
fn validation_without_token_is_false() {
    let mut store = active_store();
    store.token = None;
    assert!(service().validation_request(&store, &signals(), &at(T)).is_none());
    assert!(!service().validate(&mut store, confirmed(), &at(T)));
}

#[test]
fn validation_at_the_instant_of_expiry_is_false() {
    // The entitlement ends at 2025-01-01T00:00:00Z.
    let end = 1_735_689_600;
    let mut store = active_store();
    assert!(service().validation_request(&store, &signals(), &at(end - 1)).is_some());
    assert!(service().validation_request(&store, &signals(), &at(end)).is_none());
    assert!(service().validation_request(&store, &signals(), &at(end + 1)).is_none());
    assert!(service().validate(&mut store, confirmed(), &at(end - 1)));
    assert!(!service().validate(&mut store, confirmed(), &at(end)));
    assert_eq!(service().is_expired("2025-01-01T00:00:00+00:00", &at(end)), Some(true));
    assert_eq!(service().is_expired("2025-01-01T00:00:00+00:00", &at(end - 1)), Some(false));
    assert_eq!(service().is_expired("soon", &at(end)), None);
}

#[test]
fn validation_with_unreadable_expiry_is_false() {
    let mut store = active_store();
    store.info.as_mut().unwrap().expires_at = Some("next year".to_string());
    assert!(service().validation_request(&store, &signals(), &at(T)).is_none());
    assert!(!service().validate(&mut store, confirmed(), &at(T)));
}

#[test]
fn validation_request_carries_token_and_fingerprint() {
    let store = active_store();
    let request = service().validation_request(&store, &signals(), &at(T + DAY)).unwrap();
    assert_eq!(request.activation_token, "token-1");
    assert_eq!(
        request.machine_fingerprint,
        "3d5ccf716d1b65ca8b0ea7f8c804aa83236fc8fc522b40557ef31c101c1b2019"
    );
}

#[test]
fn confirmed_validation_refreshes_the_entitlement() {
    let mut store = active_store();
    let reply = ValidationReply::Answered(ValidationResponse {
        valid: true,
        tier: Some("team".to_string()),
        features: Some(vec!["sso".to_string()]),
        expires_at: Some("2026-01-01T00:00:00+00:00".to_string()),
    });
    assert!(service().validate(&mut store, reply, &at(T + DAY)));
    let info = store.info.as_ref().unwrap();
    assert_eq!(info.status, "active");
    assert!(info.activated);
    assert_eq!(info.tier, "team");
    assert_eq!(info.features, vec!["sso"]);
    assert_eq!(info.expires_at.as_deref(), Some("2026-01-01T00:00:00+00:00"));
    assert_eq!(info.last_validation.as_deref(), Some("2024-01-02T00:00:00+00:00"));
    assert_eq!(store.last_validation.as_deref(), Some("2024-01-02T00:00:00+00:00"));
    assert_eq!(store.token.as_deref(), Some("token-1"));
}

#[test]
fn confirmed_validation_keeps_what_the_server_left_out() {
    let mut store = active_store();
    assert!(service().validate(&mut store, confirmed(), &at(T + 2 * DAY)));
    let info = store.info.as_ref().unwrap();
    assert_eq!(info.tier, "professional");
    assert_eq!(info.features, vec!["builder", "ai"]);
    assert_eq!(info.expires_at.as_deref(), Some("2025-01-01T00:00:00+00:00"));
    assert_eq!(info.last_validation.as_deref(), Some("2024-01-03T00:00:00+00:00"));
}

#[test]
fn refused_validation_is_false_and_changes_nothing() {
    let mut store = active_store();
    let before = format!("{:?}", store);
    assert!(!service().validate(&mut store, refused(), &at(T + DAY)));
    assert_eq!(format!("{:?}", store), before);
}

#[test]
fn grace_period_boundary() {
    // last_validation = T, grace window = 7 days
    let mut store = active_store();
    let before = format!("{:?}", store);
    assert!(service().validate(&mut store, unreachable(), &at(T + 6 * DAY + 23 * HOUR)));
    assert!(!service().validate(&mut store, unreachable(), &at(T + 7 * DAY + HOUR)));
    assert!(service().validate(&mut store, unreachable(), &at(T + 7 * DAY - 1)));
    assert!(!service().validate(&mut store, unreachable(), &at(T + 7 * DAY)));
    assert!(service().validate(&mut store, unreachable(), &at(T)));
    assert_eq!(format!("{:?}", store), before);
}

#[test]
fn grace_period_needs_a_readable_last_validation() {
    let mut store = active_store();
    store.info.as_mut().unwrap().last_validation = None;
    assert!(!service().validate(&mut store, unreachable(), &at(T + HOUR)));
    store.info.as_mut().unwrap().last_validation = Some("yesterday".to_string());
    assert!(!service().validate(&mut store, unreachable(), &at(T + HOUR)));
}

#[test]
fn grace_period_follows_the_setting() {
    let mut s = service();
    s.grace_days = 1;
    let mut store = active_store();
    assert!(s.validate(&mut store, unreachable(), &at(T + DAY - 1)));
    assert!(!s.validate(&mut store, unreachable(), &at(T + DAY)));
    assert_eq!(
        s.check_grace_period("2024-01-01T00:00:00Z", 7, &at(T + 6 * DAY + 23 * HOUR)),
        Some(true)
    );
    assert_eq!(
        s.check_grace_period("2024-01-01T00:00:00Z", 7, &at(T + 7 * DAY + HOUR)),
        Some(false)
    );
    assert_eq!(s.check_grace_period("?", 7, &at(T)), None);
}

#[test]
fn grace_does_not_outlive_the_entitlement() {
    let end = 1_735_689_600;
    let mut store = active_store();
    store.info.as_mut().unwrap().last_validation = Some("2024-12-31T00:00:00+00:00".to_string());
    assert!(service().validate(&mut store, unreachable(), &at(end - 1)));
    assert!(!service().validate(&mut store, unreachable(), &at(end)));
}

#[test]
fn deactivation_is_idempotent() {
    let s = service();
    let mut store = active_store();
    assert!(s.deactivation_request(&store, &signals()).is_some());
    s.deactivate(&mut store);
    assert!(same_store(&store, &LicenseStore::new()));
    assert!(store.token.is_none() && store.info.is_none() && store.last_validation.is_none());
    // Again, on a machine that holds nothing: no request, no failure, nothing left.
    assert!(s.deactivation_request(&store, &signals()).is_none());
    s.deactivate(&mut store);
    assert!(store.token.is_none() && store.info.is_none() && store.last_validation.is_none());
    assert!(!s.validate(&mut store, confirmed(), &at(T)));
}

#[test]
fn deactivation_request_carries_token_and_fingerprint() {
    let store = active_store();
    let request = service().deactivation_request(&store, &signals()).unwrap();
    assert_eq!(request.activation_token, "token-1");
    assert_eq!(
        request.machine_fingerprint,
        "3d5ccf716d1b65ca8b0ea7f8c804aa83236fc8fc522b40557ef31c101c1b2019"
    );
}

#[test]
fn deactivation_clears_a_partial_store() {
    let mut store = LicenseStore::new();
    store.last_validation = Some("2024-01-01T00:00:00+00:00".to_string());
    store.info = Some(LicenseInfo::free());
    service().deactivate(&mut store);
    assert!(same_store(&store, &LicenseStore::new()));
}

#[test]
fn license_info_copy_holds_the_same() {
    let store = active_store();
    let info = store.info.as_ref().unwrap();
    assert_eq!(format!("{:?}", info.copy()), format!("{:?}", info));
    assert_eq!(format!("{:?}", store.license_info()), format!("{:?}", info));
}

#[test]
fn stores_are_checked_for_consistency() {
    assert!(LicenseStore::new().is_consistent());
    assert!(active_store().is_consistent());
    let mut store = active_store();
    store.token = None;
    assert!(!store.is_consistent());
    let mut store = active_store();
    store.info.as_mut().unwrap().activated = false;
    assert!(!store.is_consistent());
    store.info.as_mut().unwrap().status = "expired".to_string();
    assert!(store.is_consistent());
    let mut store = LicenseStore::new();
    store.info = Some(LicenseInfo::free());
    assert!(store.is_consistent());
}

#[test]
fn validation_keeps_the_store_consistent() {
    let mut store = active_store();
    assert!(service().validate(&mut store, confirmed(), &at(T + DAY)));
    assert!(store.is_consistent());
    assert!(!service().validate(&mut store, refused(), &at(T + DAY)));
    assert!(store.is_consistent());
    service().deactivate(&mut store);
    assert!(store.is_consistent());
}

#[test]
fn lifecycle_records() {
    let mut store = LicenseStore::new();
    let ok = service().activate(
        &mut store,
        LICENSE,
        Some(&signature_of(LICENSE)),
        ActivationReply::Answered(success_response()),
        &at(T),
    );
    let draft = activation_record(&ok);
    assert_eq!(draft.event_type, AuditEventType::LicenseActivated);
    assert_eq!(draft.severity, Severity::Info);
    assert_eq!(draft.user_action, "Activate license");
    assert_eq!(draft.result, "success");

    let failed = service().activate(
        &mut store,
        "PRLX",
        None,
        ActivationReply::Answered(success_response()),
        &at(T),
    );
    let draft = activation_record(&failed);
    assert_eq!(draft.event_type, AuditEventType::LicenseActivated);
    assert_eq!(draft.severity, Severity::Warning);
    assert_eq!(draft.user_action, "Activate license");
    assert_eq!(draft.result, "Invalid license key format: must start with PRLX-");

    let draft = validation_record(true);
    assert_eq!(draft.event_type, AuditEventType::LicenseValidated);
    assert_eq!(draft.severity, Severity::Info);
    assert_eq!(draft.user_action, "Validate license");
    assert_eq!(draft.result, "valid");
    let draft = validation_record(false);
    assert_eq!(draft.severity, Severity::Warning);
    assert_eq!(draft.result, "invalid");

    let draft = deactivation_record(DeactivationNote::Confirmed);
    assert_eq!(draft.event_type, AuditEventType::LicenseDeactivated);
    assert_eq!(draft.severity, Severity::Info);
    assert_eq!(draft.user_action, "Deactivate license");
    assert_eq!(draft.result, "License deactivated on server");
    let draft = deactivation_record(DeactivationNote::Refused(503));
    assert_eq!(draft.severity, Severity::Warning);
    assert_eq!(draft.result, "Server deactivation failed: 503");
    assert_eq!(deactivation_record(DeactivationNote::Unreachable).severity, Severity::Warning);
    assert_eq!(deactivation_record(DeactivationNote::NotAsked).severity, Severity::Info);
}

#[test]
fn states_of_the_lifecycle() {
    let s = service();
    let end = 1_735_689_600;

    let store = LicenseStore::new();
    assert_eq!(s.state(&store, &confirmed(), &at(T)), LicenseState::Free);
    let mut store = LicenseStore::new();
    store.info = Some(LicenseInfo::free());
    assert_eq!(s.state(&store, &unreachable(), &at(T)), LicenseState::Free);

    let store = active_store();
    assert_eq!(s.state(&store, &confirmed(), &at(T + DAY)), LicenseState::Active);
    assert_eq!(s.state(&store, &refused(), &at(T + DAY)), LicenseState::Denied);
    assert_eq!(s.state(&store, &unreachable(), &at(T + DAY)), LicenseState::GracePeriod);
    assert_eq!(s.state(&store, &unreachable(), &at(T + 7 * DAY - 1)), LicenseState::GracePeriod);
    assert_eq!(s.state(&store, &unreachable(), &at(T + 7 * DAY)), LicenseState::Denied);
    assert_eq!(s.state(&store, &confirmed(), &at(end)), LicenseState::Denied);

    let mut store = active_store();
    store.token = None;
    assert_eq!(s.state(&store, &confirmed(), &at(T)), LicenseState::Denied);
    let mut store = active_store();
    store.info.as_mut().unwrap().status = "invalid".to_string();
    assert_eq!(s.state(&store, &confirmed(), &at(T)), LicenseState::Denied);

    // The answer of a validation is `true` in the states Active and GracePeriod only.
    for (reply, now) in [
        (confirmed(), T + DAY),
        (refused(), T + DAY),
        (unreachable(), T + DAY),
        (unreachable(), T + 8 * DAY),
        (confirmed(), end),
    ] {
        let mut store = active_store();
        let state = s.state(&store, &reply, &at(now));
        let valid = s.validate(&mut store, reply, &at(now));
        assert_eq!(valid, state == LicenseState::Active || state == LicenseState::GracePeriod);
    }
}
