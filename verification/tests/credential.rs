//! Credentials of virtual TPMs, and the node's own measured state.
use citadel::commands::vtpm::{
    open_hw_backend, provision, provision_identity, provision_identity_at, provision_unavailable,
    show, verify, HwTarget, SwtpmEnv,
};
use citadel::sys::{
    firmware_event_log_at, ima_runtime_list_at, read_firmware_event_log, read_ima_runtime_list,
    ReadFailure,
};
use citadel::vtpm_bridge::keep_object;
use citadel::vtpm_credential::{
    default_credential_path, deserialize, serialize, VtpmCredential, VtpmIdentity,
};

fn statement() -> VtpmIdentity {
    VtpmIdentity::new(
        "abc-123".to_string(),
        "2026-04-23T00:00:00Z".to_string(),
        "vtpm-wasm".to_string(),
    )
}

/// A credential as it comes out of its file.
fn through_file(c: &VtpmCredential) -> VtpmCredential {
    VtpmCredential {
        version: c.version,
        identity: c.identity.copy(),
        hw_backend_label: c.hw_backend_label.clone(),
        signed_data: deserialize(&serialize(&c.signed_data)).unwrap(),
        hw_ak_pub: deserialize(&serialize(&c.hw_ak_pub)).unwrap(),
        signature: deserialize(&serialize(&c.signature)).unwrap(),
    }
}

#[test]
fn round_trip_credential() {
    let cred = VtpmCredential::new(
        statement(),
        "swtpm".to_string(),
        vec![1, 2, 3, 4],
        vec![5, 6, 7, 8],
    )
    .unwrap();
    let loaded = through_file(&cred).load().unwrap();
    assert_eq!(loaded.identity.instance_id, "abc-123");
    assert_eq!(loaded.signed_data, cred.signed_data);
    assert_eq!(loaded.hw_ak_pub, vec![1, 2, 3, 4]);
    assert_eq!(loaded.signature, vec![5, 6, 7, 8]);
}

#[test]
fn rejects_tampered_signed_data() {
    let mut cred =
        VtpmCredential::new(statement(), "swtpm".to_string(), vec![1], vec![2]).unwrap();
    cred.identity.instance_id = "different".to_string();
    let err = through_file(&cred).load().unwrap_err();
    assert!(err.message().contains("signed_data"));
}

#[test]
fn ak_binding_is_covered_by_signed_data() {
    let base = statement();
    let bound = base.copy().with_ak(vec![0xAB, 0xCD, 0xEF]);
    assert_ne!(
        base.to_signed_bytes().unwrap(),
        bound.to_signed_bytes().unwrap(),
        "binding the AK must change what the hardware signs"
    );
    let cred = VtpmCredential::new(bound, "swtpm".to_string(), vec![1], vec![2]).unwrap();
    let loaded = through_file(&cred).load().unwrap();
    assert_eq!(loaded.identity.ak_public, Some(vec![0xAB, 0xCD, 0xEF]));
    assert_eq!(loaded.signed_data, cred.signed_data);
}

#[test]
fn signed_bytes_are_a_cbor_map() {
    let mut want: Vec<u8> = vec![0xa3];
    for (name, value) in [
        ("instance_id", "abc-123"),
        ("created_at", "2026-04-23T00:00:00Z"),
        ("vtpm_label", "vtpm-wasm"),
    ] {
        want.push(0x60 + name.len() as u8);
        want.extend_from_slice(name.as_bytes());
        want.push(0x60 + value.len() as u8);
        want.extend_from_slice(value.as_bytes());
    }
    assert_eq!(statement().to_signed_bytes().unwrap(), want);

    want[0] = 0xa4;
    want.push(0x69);
    want.extend_from_slice(b"ak_public");
    want.extend_from_slice(&[0x83, 0x01, 0x18, 0xAB, 0x18, 0xFF]);
    let bound = statement().with_ak(vec![0x01, 0xAB, 0xFF]);
    assert_eq!(bound.to_signed_bytes().unwrap(), want);
}

#[test]
fn other_versions_are_refused() {
    let mut cred =
        VtpmCredential::new(statement(), "swtpm".to_string(), vec![1], vec![2]).unwrap();
    cred.version = 2;
    assert_eq!(
        cred.load().unwrap_err().message(),
        "unsupported vTPM credential version 2 (expected 1)"
    );
}

#[test]
fn bytes_in_a_credential_file() {
    assert_eq!(serialize(&vec![0x00, 0xff, 0x1a]), "00ff1a");
    assert_eq!(deserialize("00ff1A").unwrap(), vec![0x00, 0xff, 0x1a]);
    assert_eq!(deserialize("0").unwrap_err().message(), "odd hex length");
    assert_eq!(
        deserialize("0g").unwrap_err().message(),
        "bad hex: invalid digit found in string"
    );
}

#[test]
fn credential_lies_where_the_environment_says() {
    assert_eq!(
        default_credential_path(Some("/data"), Some("/home/u")),
        vec!["/data", "tpm", "vtpm-credential.json"]
    );
    assert_eq!(
        default_credential_path(None, Some("/home/u")),
        vec!["/home/u", ".local", "share", "tpm", "vtpm-credential.json"]
    );
    assert_eq!(default_credential_path(None, None), vec!["vtpm-credential.json"]);
}

#[test]
fn absent_file_is_none_not_error() {
    assert!(firmware_event_log_at(Err(ReadFailure::NotFound)).unwrap().is_none());
    assert!(ima_runtime_list_at(Err(ReadFailure::NotFound)).unwrap().is_none());
}

#[test]
fn empty_file_holds_nothing() {
    assert!(firmware_event_log_at(Ok(vec![])).unwrap().is_none());
    assert!(ima_runtime_list_at(Ok(vec![])).unwrap().is_none());
}

#[test]
fn present_file_is_handed_on() {
    assert_eq!(firmware_event_log_at(Ok(vec![1, 2])).unwrap(), Some(vec![1, 2]));
    assert_eq!(
        ima_runtime_list_at(Ok(b"10 a ima b c\n".to_vec())).unwrap(),
        Some("10 a ima b c\n".to_string())
    );
    assert_eq!(
        ima_runtime_list_at(Ok(vec![b'a', 0xff, b'b'])).unwrap(),
        Some("a\u{FFFD}b".to_string())
    );
}

#[test]
fn other_read_failures_are_handed_on() {
    let denied = || Err(ReadFailure::Other("permission denied".to_string()));
    assert!(matches!(
        firmware_event_log_at(denied()),
        Err(ReadFailure::Other(m)) if m == "permission denied"
    ));
    assert!(matches!(
        ima_runtime_list_at(denied()),
        Err(ReadFailure::Other(m)) if m == "permission denied"
    ));
}

#[test]
fn measured_state_is_read_from_the_usual_places() {
    assert_eq!(
        read_firmware_event_log(None),
        "/sys/kernel/security/tpm0/binary_bios_measurements"
    );
    assert_eq!(
        read_ima_runtime_list(None),
        "/sys/kernel/security/ima/ascii_runtime_measurements"
    );
    assert_eq!(read_firmware_event_log(Some("/tmp/log.bin")), "/tmp/log.bin");
    assert_eq!(read_ima_runtime_list(Some("/tmp/list")), "/tmp/list");
}

fn env(tcti: Option<&str>, socket: Option<&str>, host: Option<&str>, port: Option<&str>) -> SwtpmEnv {
    SwtpmEnv {
        tcti: tcti.map(|s| s.to_string()),
        socket: socket.map(|s| s.to_string()),
        host: host.map(|s| s.to_string()),
        port: port.map(|s| s.to_string()),
    }
}

#[test]
fn hardware_is_found_by_name_and_environment() {
    let none = || env(None, None, None, None);
    assert!(matches!(open_hw_backend("device", none()), Ok(HwTarget::Device)));
    assert!(matches!(
        open_hw_backend("swtpm", env(Some("swtpm:x"), Some("/s"), None, None)),
        Ok(HwTarget::Tcti(t)) if t == "swtpm:x"
    ));
    assert!(matches!(
        open_hw_backend("swtpm", env(None, Some("/s"), Some("h"), None)),
        Ok(HwTarget::Socket(p)) if p == "/s"
    ));
    assert!(matches!(
        open_hw_backend("swtpm", env(None, None, Some("h"), Some("99"))),
        Ok(HwTarget::Tcp { host, port: 99 }) if host == "h"
    ));
    assert!(matches!(
        open_hw_backend("swtpm", env(None, None, None, Some("70000"))),
        Ok(HwTarget::Tcp { host, port: 2321 }) if host == "localhost"
    ));
    assert_eq!(
        open_hw_backend("vtpm", none()).unwrap_err().message(),
        "unsupported hw backend 'vtpm': use 'device' or 'swtpm'"
    );
    assert!(provision_unavailable().message().contains("--features tpm-hw"));
}

#[test]
fn provisioned_credential_is_shown_and_verified() {
    let id = provision_identity_at(Some("edge"), 7, "2026-04-23T00:00:00+00:00");
    let blob = keep_object(&[1, 2, 3], &[4]);
    let (cred, text) = provision("swtpm", "/c.json", id, &blob, vec![9, 9]).unwrap();
    assert_eq!(cred.hw_ak_pub, vec![1, 2, 3]);
    assert_eq!(
        text,
        "vTPM credential provisioned\n  path:        /c.json\n  instance:    00000000-0000-0000-0000-000000000007\n  created:     2026-04-23T00:00:00+00:00\n  vtpm-label:  edge\n  hw-backend:  swtpm\n"
    );
    assert_eq!(
        show("/c.json", &cred),
        "vTPM credential\n  path:         /c.json\n  version:      1\n  instance:     00000000-0000-0000-0000-000000000007\n  created:      2026-04-23T00:00:00+00:00\n  vtpm-label:   edge\n  hw-backend:   swtpm\n  ak-pub-bytes: 3\n  sig-bytes:    2\n"
    );
    let (text, outcome) = verify("swtpm", "/c.json", &cred, false);
    assert!(text.ends_with("  signature:   INVALID\n"));
    assert_eq!(outcome.unwrap_err().message(), "credential signature did not verify");
    let (text, outcome) = verify("swtpm", "/c.json", &cred, true);
    assert!(text.ends_with("  signature:   valid\n"));
    assert!(outcome.is_ok());
    let id = provision_identity_at(None, 7, "t");
    assert_eq!(
        provision("swtpm", "/c.json", id, &vec![b'x'], vec![]).unwrap_err().message(),
        "expected value at line 1 column 1"
    );
}

#[test]
fn every_instance_has_its_own_identity() {
    let a = provision_identity(None);
    let b = provision_identity(None);
    assert_ne!(a.instance_id, b.instance_id);
    assert_eq!(a.instance_id.len(), 36);
    assert_eq!(a.vtpm_label, "vtpm-wasm");
}
