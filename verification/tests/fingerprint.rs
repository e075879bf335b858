use parallax::fingerprint::{machine_fingerprint, MachineSignals};
use parallax::lifecycle::LicenseService;

fn service() -> LicenseService {
    LicenseService::new(
        "https://license.example".to_string(),
        "11qYAYKxCrfVS/7TyWQHOg7hcvPapiMlrwIaaPcHURo=".to_string(),
        "1.0.0".to_string(),
    )
}

fn signals() -> MachineSignals {
    MachineSignals {
        machine_uid: Some("machine-123".to_string()),
        cpu_brand: Some("CPU X".to_string()),
        os: "linux".to_string(),
        arch: "x86_64".to_string(),
    }
}

#[test]
fn test_machine_fingerprint_consistency() {
    let service = service();
    let fp1 = service.generate_machine_fingerprint(&signals());
    let fp2 = service.generate_machine_fingerprint(&signals());

    // Fingerprint should be consistent
    assert_eq!(fp1, fp2);

    // Should be a valid hex string of correct length
    assert_eq!(fp1.len(), 64); // SHA256 = 32 bytes = 64 hex chars
    assert!(fp1.chars().all(|c| c.is_ascii_hexdigit()));
}

#[test]
fn fingerprint_exact_value() {
    assert_eq!(
        machine_fingerprint(&signals()),
        "3d5ccf716d1b65ca8b0ea7f8c804aa83236fc8fc522b40557ef31c101c1b2019"
    );
}

#[test]
fn fingerprint_is_lowercase_hex() {
    let fp = machine_fingerprint(&signals());
    assert!(fp.chars().all(|c| c.is_ascii_digit() || ('a'..='f').contains(&c)));
}

#[test]
fn fingerprint_without_uid_uses_fallback() {
    let signals = MachineSignals {
        machine_uid: None,
        cpu_brand: None,
        os: "linux".to_string(),
        arch: "x86_64".to_string(),
    };
    assert_eq!(
        machine_fingerprint(&signals),
        "52a0412f2f843229119c30e08680f2ed63fd71d6aa6bc925d630adf240f79306"
    );
}

#[test]
fn fingerprint_depends_on_every_signal() {
    let base = machine_fingerprint(&signals());
    let mut other = signals();
    other.cpu_brand = None;
    assert_ne!(machine_fingerprint(&other), base);
    let mut other = signals();
    other.os = "macos".to_string();
    assert_ne!(machine_fingerprint(&other), base);
    let mut other = signals();
    other.arch = "aarch64".to_string();
    assert_ne!(machine_fingerprint(&other), base);
    let mut other = signals();
    other.machine_uid = Some("machine-124".to_string());
    assert_ne!(machine_fingerprint(&other), base);
}
