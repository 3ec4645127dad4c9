//! Commands to the TPM, rows of the database and texts.
use citadel::hex::{hex32, hex_decode, hex_encode, hex_to_bytes, HexError};
use citadel::ids::{read_id, show_id};
use citadel::json::{number_field, object2, text_field, text_member};
use citadel::model::{
    Algorithm, ApprovalRequest, ApprovalStatus, Identity, IdentityUsage, ObjectKind, ObjectPath,
    PcrValue, Profile, TpmObject,
};
use citadel::rows::{
    migrate, RawApprovalRow, RawIdentityRow, RawObjectRow, RawProfileRow,
};
use citadel::text::{begins_with, has, in_order, split, trim, Separator};
use citadel::tpm2::{
    build_flush_context_cmd, build_get_random_cmd, build_hash_cmd, build_pcr_read_cmd,
    build_selftest_cmd, build_startup_cmd, build_unseal_cmd,
};
use citadel::vtpm_bridge::{
    accept, create_key_next, create_key_start, handle_of, keep_object, nv_read, pcr_extend,
    pcr_read_command, pcr_read_value, public_of, quote, quote_digest, seal_next, seal_start,
    sha256_digest, sign_next, sign_start, status, unseal_next, unseal_start, verify_quote,
    verify_signature_next, verify_signature_start, BridgeError, CreateNext, CreateStage,
    Exchange, SealNext, SealStage, SignNext, SignStage, UnsealNext, UnsealStage, VerifyNext,
    VerifyStage,
};

#[test]
fn commands_have_their_header() {
    assert_eq!(build_startup_cmd(), vec![0x80, 1, 0, 0, 0, 12, 0, 0, 1, 0x44, 0, 0]);
    assert_eq!(build_selftest_cmd(), vec![0x80, 1, 0, 0, 0, 11, 0, 0, 1, 0x43, 1]);
    assert_eq!(
        build_get_random_cmd(32),
        vec![0x80, 1, 0, 0, 0, 12, 0, 0, 1, 0x7b, 0, 32]
    );
    assert_eq!(
        build_flush_context_cmd(0x8000_0001),
        vec![0x80, 1, 0, 0, 0, 14, 0, 0, 1, 0x65, 0x80, 0, 0, 1]
    );
    assert_eq!(
        build_pcr_read_cmd(0x000B, 9),
        vec![0x80, 1, 0, 0, 0, 20, 0, 0, 1, 0x7e, 0, 0, 0, 1, 0, 0x0B, 3, 0, 2, 0]
    );
    let unseal = build_unseal_cmd(0x8000_0002);
    assert_eq!(&unseal[0..2], &[0x80, 2]);
    assert_eq!(unseal[5] as usize, unseal.len());
    let hash = build_hash_cmd(b"ab");
    assert_eq!(&hash[10..14], &[0, 2, b'a', b'b']);
}

fn reply(code: u32, rest: &[u8]) -> Vec<u8> {
    let mut v = vec![0x80, 1];
    v.extend_from_slice(&((10 + rest.len()) as u32).to_be_bytes());
    v.extend_from_slice(&code.to_be_bytes());
    v.extend_from_slice(rest);
    v
}

#[test]
fn replies_are_accepted_or_refused() {
    assert_eq!(accept(Ok(reply(0, &[1]))).unwrap(), reply(0, &[1]));
    let e = accept(Ok(reply(0x101, &[]))).unwrap_err();
    assert_eq!(e.message(), "TPM error 0x00000101");
    let e = accept(Err("down".to_string())).unwrap_err();
    assert_eq!(e.message(), "down");
    assert_eq!(handle_of(Exchange::Load, Ok(reply(0, &[0x80, 0, 0, 7]))).unwrap(), 0x8000_0007);
    let e = handle_of(Exchange::Load, Ok(reply(0, &[]))).unwrap_err();
    assert_eq!(e.message(), "Load response too short: 10 bytes");
}

#[test]
fn a_key_is_created_step_by_step() {
    let CreateNext::Send(stage, command) = create_key_start() else { panic!("no command") };
    assert_eq!(&command[6..10], &[0, 0, 1, 0x31]);
    let n = create_key_next(Algorithm::EccP256, stage, Ok(reply(0, &[0x80, 0, 0, 1])));
    let CreateNext::Send(stage, command) = n else { panic!("no command") };
    assert!(matches!(stage, CreateStage::Create { srk: 0x8000_0001 }));
    assert_eq!(&command[6..10], &[0, 0, 1, 0x53]);
    let made = reply(0, &[0, 0, 0, 7, 0, 1, 0xAA, 0, 2, 0xBB, 0xCC]);
    let n = create_key_next(Algorithm::EccP256, stage, Ok(made));
    let CreateNext::Send(stage, command) = n else { panic!("no flush") };
    assert_eq!(command, build_flush_context_cmd(0x8000_0001));
    let CreateNext::Done(Ok(blob)) = create_key_next(Algorithm::EccP256, stage, Ok(reply(0, &[])))
    else {
        panic!("not done")
    };
    assert_eq!(public_of(&blob).unwrap(), vec![0, 2, 0xBB, 0xCC]);
    let CreateNext::Done(Err(e)) =
        create_key_next(Algorithm::EccP256, CreateStage::Primary, Err("x".to_string()))
    else {
        panic!("not refused")
    };
    assert_eq!(e.message(), "x");
}

#[test]
fn kept_objects_hold_both_halves() {
    let blob = keep_object(&[1, 2], &[3]);
    assert_eq!(String::from_utf8(blob.clone()).unwrap(), "{\"private\":[3],\"public\":[1,2]}");
    assert_eq!(public_of(&blob).unwrap(), vec![1, 2]);
    let missing = "invalid type: null, expected a sequence".to_string();
    assert_eq!(public_of(b"{}"), Err((true, missing)));
    let nonsense = "expected ident at line 1 column 2".to_string();
    assert_eq!(public_of(b"nonsense"), Err((false, nonsense)));
}

#[test]
fn a_signing_run_flushes_what_it_loaded() {
    let blob = keep_object(&[0, 1, 9], &[0, 1, 8]);
    let SignNext::Send(stage, _) = sign_start() else { panic!("no command") };
    let n = sign_next(&blob, b"msg", stage, Ok(reply(0, &[0x80, 0, 0, 1])));
    let SignNext::Send(stage, command) = n else { panic!("no load") };
    assert!(matches!(stage, SignStage::Load { srk: 0x8000_0001 }));
    assert_eq!(&command[6..10], &[0, 0, 1, 0x57]);
    let n = sign_next(&blob, b"msg", stage, Ok(reply(0x101, &[])));
    let SignNext::Send(stage, command) = n else { panic!("no flush") };
    assert!(matches!(stage, SignStage::FlushPrimary { outcome: None }));
    assert_eq!(command, build_flush_context_cmd(0x8000_0001));
}

#[test]
fn signatures_are_verified_step_by_step() {
    let blob = keep_object(&[0, 1, 9], &[0, 1, 8]);
    let VerifyNext::Send(stage, _) = verify_signature_start(&blob) else { panic!("no command") };
    let n = verify_signature_next(&[1], &[2], stage, Ok(reply(0, &[0x80, 0, 0, 1])));
    let VerifyNext::Send(stage, _) = n else { panic!("no verify") };
    assert!(matches!(stage, VerifyStage::Verify { key: 0x8000_0001 }));
    let n = verify_signature_next(&[1], &[2], stage, Ok(reply(0x2db, &[])));
    let VerifyNext::Send(stage, command) = n else { panic!("no flush") };
    assert_eq!(command, build_flush_context_cmd(0x8000_0001));
    let VerifyNext::Done(Ok(valid)) =
        verify_signature_next(&[1], &[2], stage, Ok(reply(0, &[])))
    else {
        panic!("not done")
    };
    assert!(!valid);
    assert!(matches!(
        verify_signature_start(b"nonsense"),
        VerifyNext::Done(Err(BridgeError::BadBlob(m))) if m == "expected ident at line 1 column 2"
    ));
}

#[test]
fn secrets_are_sealed_and_unsealed_step_by_step() {
    let SealNext::Send(stage, _) = seal_start() else { panic!("no command") };
    let n = seal_next(b"hush", Some(vec![7]), stage, Ok(reply(0, &[0x80, 0, 0, 1])));
    let SealNext::Send(stage, _) = n else { panic!("no create") };
    assert!(matches!(stage, SealStage::Create { .. }));
    let made = reply(0, &[0, 0, 0, 7, 0, 1, 0xAA, 0, 2, 0xBB, 0xCC]);
    let n = seal_next(b"hush", Some(vec![7]), stage, Ok(made));
    let SealNext::Send(stage, _) = n else { panic!("no flush") };
    let SealNext::Done(Ok(sealed)) = seal_next(b"hush", Some(vec![7]), stage, Ok(reply(0, &[])))
    else {
        panic!("not done")
    };
    assert_eq!(sealed.policy_digest, Some(vec![7]));
    let UnsealNext::Send(stage, _) = unseal_start() else { panic!("no command") };
    let n = unseal_next(&sealed.blob, stage, Ok(reply(0, &[0x80, 0, 0, 1])));
    let UnsealNext::Send(stage, _) = n else { panic!("no load") };
    let n = unseal_next(&sealed.blob, stage, Ok(reply(0, &[0x80, 0, 0, 2])));
    let UnsealNext::Send(stage, command) = n else { panic!("no unseal") };
    assert!(matches!(stage, UnsealStage::Unseal { .. }));
    assert_eq!(command, build_unseal_cmd(0x8000_0002));
    let opened = reply(0, &[0, 0, 0, 6, 0, 4, b'h', b'u', b's', b'h', 0]);
    let n = unseal_next(&sealed.blob, stage, Ok(opened));
    let UnsealNext::Send(stage, _) = n else { panic!("no flush") };
    let n = unseal_next(&sealed.blob, stage, Ok(reply(0, &[])));
    let UnsealNext::Send(stage, _) = n else { panic!("no second flush") };
    let UnsealNext::Done(Ok(data)) = unseal_next(&sealed.blob, stage, Ok(reply(0, &[]))) else {
        panic!("not done")
    };
    assert_eq!(data, b"hush");
}

#[test]
fn registers_are_extended_and_read() {
    assert!(pcr_extend("sha256".to_string(), 7, &[0; 32]).is_ok());
    assert_eq!(
        pcr_extend("sha256".to_string(), 7, &[0; 3]).unwrap_err().message(),
        "pcr_extend: digest is 3 bytes, expected 32 for bank 'sha256'"
    );
    assert_eq!(
        pcr_extend("md5".to_string(), 7, &[]).unwrap_err().message(),
        "unsupported bank: md5"
    );
    assert!(pcr_read_command("sha384".to_string(), 7).is_ok());
    assert!(pcr_read_command("md5".to_string(), 7).is_err());
    assert!(pcr_read_value("sha256".to_string(), 7, Err("x".to_string())).is_err());
    assert_eq!(nv_read().unwrap_err().message(), "NV reads go through the store");
    assert!(status(true).available);
    assert!(!status(false).available);
}

fn values() -> Vec<PcrValue> {
    vec![PcrValue { bank: "sha256".to_string(), index: 7, digest: vec![5; 32] }]
}

#[test]
fn attestation_wrong_nonce_fails() {
    assert_eq!(sha256_digest(b"").len(), 32);
    assert_ne!(sha256_digest(b"a"), sha256_digest(b"b"));
    assert_ne!(quote_digest(&values(), b"a"), quote_digest(&values(), b"b"));
    let q = quote(values(), b"correct-nonce", vec![1], &keep_object(&[9], &[8]));
    let v = verify_quote(&q, b"wrong-nonce", &values());
    assert!(!v.nonce_matches);
    assert!(!v.verified);
}

#[test]
fn attestation_quote_verify_roundtrip() {
    let q = quote(values(), b"challenge-12345", vec![1], &keep_object(&[9], &[8]));
    assert_eq!(q.nonce, b"challenge-12345");
    assert_eq!(q.pcr_values.len(), 1);
    assert!(!q.signature.is_empty());
    assert!(!q.attestation.is_empty());
    let v = verify_quote(&q, b"challenge-12345", &values());
    assert!(v.signature_valid);
    assert!(v.nonce_matches);
    assert!(v.verified);
    assert!(v.pcr_matches.iter().all(|m| m.matches));
    let changed = vec![PcrValue { bank: "sha256".to_string(), index: 7, digest: vec![6; 32] }];
    assert!(!verify_quote(&q, b"challenge-12345", &changed).verified);
}

// -- rows --

#[test]
fn objects_read_back_from_their_rows() {
    let o = TpmObject {
        id: 9,
        path: ObjectPath::new("a/b").unwrap(),
        kind: ObjectKind::AttestationKey,
        algorithm: Algorithm::EccP384,
        policy_id: Some(4),
        handle_blob: Some(vec![1]),
        created_at: "2026-04-23T10:11:12+00:00".to_string(),
        metadata: "{\"a\":1}".to_string(),
    };
    let row = RawObjectRow::from_object(o);
    assert_eq!(row.id, "00000000-0000-0000-0000-000000000009");
    assert_eq!(row.kind, "attestation-key");
    assert_eq!(row.algorithm, "ecc_p384");
    let o = row.into_object().unwrap();
    assert_eq!((o.id, o.policy_id), (9, Some(4)));
    assert_eq!(o.kind, ObjectKind::AttestationKey);
    assert_eq!(o.algorithm, Algorithm::EccP384);
    assert_eq!(o.metadata, "{\"a\":1}");
}

fn raw() -> RawObjectRow {
    RawObjectRow {
        id: "00000000-0000-0000-0000-000000000009".to_string(),
        path: "a".to_string(),
        kind: "signing-key".to_string(),
        algorithm: "rsa2048".to_string(),
        policy_id: None,
        handle_blob: None,
        created_at: "2026-04-23T12:11:12+02:00".to_string(),
        metadata: "{ \"b\" : 2 }".to_string(),
    }
}

#[test]
fn rows_are_put_in_order_as_they_are_read() {
    let o = raw().into_object().unwrap();
    assert_eq!(o.created_at, "2026-04-23T10:11:12+00:00");
    assert_eq!(o.metadata, "{\"b\":2}");
}

#[test]
fn rows_that_cannot_be_read_are_refused() {
    let time = chrono::DateTime::parse_from_rfc3339("x").unwrap_err().to_string();
    let broken: Vec<(&str, Box<dyn Fn(&mut RawObjectRow)>)> = vec![
        ("invalid character: found `x` at 0", Box::new(|r| r.id = "x".to_string())),
        ("invalid object path: x y", Box::new(|r| r.path = "x y".to_string())),
        ("unknown variant `x`, expected one of `signing-key`, `storage-key`, `attestation-key`, `sealed-blob`, `nv-index`", Box::new(|r| r.kind = "x".to_string())),
        ("unknown variant `x`, expected one of `ecc_p256`, `ecc_p384`, `rsa2048`, `rsa3072`", Box::new(|r| r.algorithm = "x".to_string())),
        ("invalid character: found `x` at 0", Box::new(|r| r.policy_id = Some("x".to_string()))),
        (time.as_str(), Box::new(|r| r.created_at = "x".to_string())),
        ("EOF while parsing an object at line 1 column 1", Box::new(|r| r.metadata = "{".to_string())),
    ];
    for (message, spoil) in broken {
        let mut row = raw();
        spoil(&mut row);
        assert_eq!(row.into_object().unwrap_err().message(), message);
    }
}

#[test]
fn identities_approvals_and_profiles_read_back() {
    let row = RawIdentityRow::from_identity(Identity {
        id: 1,
        name: "n".to_string(),
        key_object_id: 2,
        policy_id: None,
        usage: IdentityUsage::Ssh,
        subject: None,
        certificate_pem: None,
        created_at: "2026-04-23T10:11:12+00:00".to_string(),
        rotated_from: Some(3),
    });
    assert_eq!(row.usage, "ssh");
    let i = row.into_identity().unwrap();
    assert_eq!((i.id, i.key_object_id, i.rotated_from), (1, 2, Some(3)));
    assert_eq!(i.usage, IdentityUsage::Ssh);

    let row = RawApprovalRow::from_approval(ApprovalRequest {
        id: 1,
        operation: "o".to_string(),
        target: None,
        requester: "r".to_string(),
        reason: None,
        status: ApprovalStatus::Expired,
        created_at: "2026-04-23T10:11:12+00:00".to_string(),
        resolved_at: None,
        resolved_by: None,
    });
    assert_eq!(row.status, "expired");
    assert_eq!(row.into_approval().unwrap().status, ApprovalStatus::Expired);

    let row = RawProfileRow::from_profile(Profile::builtin_default());
    assert_eq!((row.default_algorithm.as_str(), row.is_active), ("ecc_p256", 1));
    assert!(row.into_profile().unwrap().is_active);
    let odd = RawProfileRow {
        name: "n".to_string(),
        default_algorithm: "ecc-p256".to_string(),
        default_policy: None,
        is_active: 0,
    };
    assert_eq!(odd.into_profile().unwrap_err().message(), "unknown variant `ecc-p256`, expected one of `ecc_p256`, `ecc_p384`, `rsa2048`, `rsa3072`");
}

#[test]
fn an_unknown_status_counts_as_pending() {
    let row = RawApprovalRow {
        id: show_id(1),
        operation: "o".to_string(),
        target: None,
        requester: "r".to_string(),
        reason: None,
        status: "lost".to_string(),
        created_at: "2026-04-23T10:11:12Z".to_string(),
        resolved_at: Some("2026-04-24T10:11:12Z".to_string()),
        resolved_by: None,
    };
    let a = row.into_approval().unwrap();
    assert_eq!(a.status, ApprovalStatus::Pending);
    assert_eq!(a.resolved_at, Some("2026-04-24T10:11:12+00:00".to_string()));
}

#[test]
fn only_missing_migrations_are_applied() {
    assert_eq!(migrate(0), vec![1, 2, 3, 4, 5, 6]);
    assert_eq!(migrate(4), vec![5, 6]);
    assert!(migrate(6).is_empty());
    assert!(migrate(9).is_empty());
}

// -- texts --

#[test]
fn hexadecimal_texts_are_read_and_written() {
    assert_eq!(hex_encode(&[0, 255, 16]), "00ff10");
    assert_eq!(hex_to_bytes("00fF10").unwrap(), vec![0, 255, 16]);
    assert_eq!(hex_to_bytes("+f").unwrap(), vec![15]);
    assert_eq!(hex_to_bytes("0").unwrap_err(), HexError::OddLength);
    assert_eq!(hex_to_bytes("zz").unwrap_err(), HexError::InvalidDigit);
    assert_eq!(hex_to_bytes("é").unwrap_err(), HexError::InvalidDigit);
    assert_eq!(hex_decode(" 0a\n").unwrap(), vec![10]);
    assert_eq!(hex32(0xAB, true), "0x000000AB");
    assert_eq!(hex32(0xAB, false), "0x000000ab");
}

#[test]
fn identifiers_are_read_and_written() {
    let text = show_id(0x1234_5678_9abc_def0_1234_5678_9abc_def0);
    assert_eq!(text, "12345678-9abc-def0-1234-56789abcdef0");
    assert_eq!(read_id(&text), Some(0x1234_5678_9abc_def0_1234_5678_9abc_def0));
    assert_eq!(read_id("{12345678-9abc-def0-1234-56789abcdef0}"), read_id(&text));
    assert_eq!(read_id("x"), None);
}

#[test]
fn texts_are_searched_and_split() {
    assert!(has("key.create", "create") && has("x", "") && !has("key", "keys"));
    assert!(begins_with("0x1", "0x") && !begins_with("x", "0x"));
    assert_eq!(trim(" \t a b \u{3000}\n"), "a b");
    assert_eq!(split(" a  b\tc ", Separator::White), vec!["a", "b", "c"]);
    assert_eq!(split("a\n\nb\n", Separator::NewLine), vec!["a", "b"]);
    assert!(in_order("a", "ab") && in_order("a", "a") && !in_order("b", "a"));
}

#[test]
fn plain_fields_read_back() {
    let text = object2(text_field("a", "x\"y"), number_field("b", 3));
    assert_eq!(text, "{\"a\":\"x\\\"y\",\"b\":3}");
    assert_eq!(text_member(&text, "a", "-"), "x\"y");
    assert_eq!(text_member(&text, "b", "-"), "-");
    assert_eq!(text_member(&text, "c", "-"), "-");
}
