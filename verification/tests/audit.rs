//! The secure log, attestation, measurements, identities and repairs.
use citadel::clock::Moment;
use citadel::commands::attest::{
    ak_create_at, ak_create_check, approval_logged, policy_of_metadata, quote_at,
    quote_checkpoint, quote_key, quote_nonce, signing_approval_policy,
    signing_approval_provenance, verify as verify_report, verify_complaint, verify_nonce,
    AgentProvenance, AuthorizedPolicy, LoggedEvent, MeasurementVerify,
};
use citadel::commands::audit::receipts::{witness_gc, witness_gc_at, witness_record_at};
use citadel::commands::audit::streams::{
    streams_create, streams_create_at, streams_delete, streams_delete_at, streams_set_tier,
    streams_show, StreamTable,
};
use citadel::commands::audit::{
    accept_unsealed_key, append_value, audit_key_name, audit_key_path_for_store, chain_end,
    chain_verify, count_gc_candidates, effective_encryption, gc_details, head, key_init,
    key_init_check, key_init_path, key_show, payload_source, publish, record_details,
    rollback_check as head_check, seal_key_file, segments_list, show, sign as sign_report,
    streams_list, to_witness_row, try_load_master_key, try_load_master_key_with_backend,
    verify as verify_chain, witness_gc_report, witness_gc_scope, witness_latest, witness_list, AppendCall, AppendOutput,
    EntryFields, GcScope, HeadRecord, InclusionProof, KeyFile, KeySource, PayloadSource,
    ProofStep, SealedKeyFile, SegmentInfo, StreamRow, WitnessLogRow, WitnessSubmission,
};
use citadel::commands::identity;
use citadel::commands::identity::{authority_key, init_check, init_identity_at, Binding};
use citadel::commands::measure;
use citadel::commands::measure::{
    anchor_counter, checkpoint, checkpoint_warning, counter_index, enroll, enroll_payload,
    enroll_warning, ensure_stream, file_payload, ima, ima_payload, ima_report,
    parse_ima_line, pcr_persists, rollback_check, ANCHOR_COUNTER_NV_INDEX,
};
use citadel::commands::repair::{
    apply, detect_issues, fix_at, plan, scan, scan_warning, FixAction, IssueSeverity,
};
use citadel::model::{
    Algorithm, BackendStatus, Identity, IdentityUsage, ObjectKind, ObjectPath, PcrMatchResult,
    Policy, Profile, QuoteData, QuoteVerification, SealedData, TpmObject,
};
use citadel::store::MemoryStore;
use citadel::witness::WitnessLog;

fn at() -> Moment {
    Moment {
        rfc3339: "2026-04-23T10:11:12+00:00".to_string(),
        stamp: "2026-04-23 10:11:12".to_string(),
    }
}

fn object(id: u128, path: &str, kind: ObjectKind, handle: Option<Vec<u8>>) -> TpmObject {
    TpmObject {
        id,
        path: ObjectPath::new(path).unwrap(),
        kind,
        algorithm: Algorithm::EccP256,
        policy_id: None,
        handle_blob: handle,
        created_at: "2026-04-23T10:11:12+00:00".to_string(),
        metadata: "{}".to_string(),
    }
}

fn some_identity(name: &str, key: u128) -> Identity {
    Identity {
        id: 70,
        name: name.to_string(),
        key_object_id: key,
        policy_id: None,
        usage: IdentityUsage::Generic,
        subject: None,
        certificate_pem: None,
        created_at: "2026-04-23T10:11:12+00:00".to_string(),
        rotated_from: None,
    }
}

// -- measurements --

#[test]
fn parses_ima_ng_line() {
    let line = "10 a1b2c3 ima-ng sha256:deadbeef /usr/bin/bash";
    let e = parse_ima_line(line).expect("should parse");
    assert_eq!(e.pcr, "10");
    assert_eq!(e.template, "ima-ng");
    assert_eq!(e.digest_alg, "sha256");
    assert_eq!(e.file_digest, "deadbeef");
    assert_eq!(e.filename, "/usr/bin/bash");
}

#[test]
fn parses_legacy_ima_line_without_alg_prefix() {
    let line = "10 a1b2c3 ima 0011223344 /sbin/init";
    let e = parse_ima_line(line).expect("should parse");
    assert_eq!(e.digest_alg, "unknown");
    assert_eq!(e.file_digest, "0011223344");
    assert_eq!(e.filename, "/sbin/init");
}

#[test]
fn rejects_short_line() {
    assert!(parse_ima_line("10 abc ima-ng").is_none());
    assert!(parse_ima_line("").is_none());
}

#[test]
fn pcr_save_set_boundary() {
    assert!(pcr_persists(0));
    assert!(pcr_persists(14));
    assert!(pcr_persists(15));
    assert!(!pcr_persists(16));
    assert!(!pcr_persists(23));
}

#[test]
fn a_list_of_measurements_is_read() {
    let list = "10 aa ima-ng sha256:01 /a\n\nnonsense\n10 bb ima 02 /b c\n";
    let entries = ima(list);
    assert_eq!(entries.len(), 2);
    assert_eq!(entries[1].filename, "/b c");
    let payload: serde_json::Value = serde_json::from_str(&ima_payload(&entries[0])).unwrap();
    assert!(payload.to_string().contains("/a"));
    assert!(ima_report("/list", 2, 9).contains("ingested 2 IMA measurement(s) from /list\n"));
}

#[test]
fn anti_rollback_detects_truncation() {
    assert_eq!(counter_index(None), ANCHOR_COUNTER_NV_INDEX);
    assert_eq!(counter_index(Some(7)), 7);
    let (text, ok) = rollback_check(ANCHOR_COUNTER_NV_INDEX, Some(1), Some(1));
    assert!(ok.is_ok());
    assert!(text.contains("  result: OK\n"));
    let (text, err) = rollback_check(ANCHOR_COUNTER_NV_INDEX, Some(2), Some(1));
    assert_eq!(err.unwrap_err().message(), "rollback detected");
    assert_eq!(
        text,
        "anti-rollback check\n  nv_index:           0x01800001\n  live counter:       2\n  latest checkpoint:  1\n  result: ROLLBACK DETECTED\n  live NV counter 2 exceeds the latest checkpoint counter 1: 1 checkpoint(s) appear to have been removed\n"
    );
    assert!(rollback_check(1, None, Some(4)).1.is_ok());
    assert!(rollback_check(1, Some(4), None).1.is_ok());
    assert_eq!(
        anchor_counter(1, 5),
        "anti-rollback counter\n  nv_index: 0x00000001\n  value:    5\n"
    );
}

#[test]
fn registers_that_reset_are_warned_of() {
    assert!(enroll_warning(15).is_none());
    assert!(enroll_warning(16).unwrap().contains("16"));
    assert!(checkpoint_warning(0).is_none());
    assert!(checkpoint_warning(23).is_some());
}

#[test]
fn measured_files_are_logged_and_printed() {
    let payload: serde_json::Value =
        serde_json::from_str(&file_payload("/app", "binary", "sha256", &[0xab], 7, Some(10)))
            .unwrap();
    assert_eq!(payload["digest"], "ab");
    assert_eq!(payload["kind"], "binary");
    let text = measure::file("/app", "binary", 3, "sha256", &[0xab], Some(10));
    assert!(text.contains("/app") && text.contains("ab") && text.contains("10"));
    let payload: serde_json::Value =
        serde_json::from_str(&enroll_payload("sha256", &[1], "/bin/c", "1.0", None)).unwrap();
    assert!(payload.to_string().contains("1.0"));
    assert!(enroll(3, "sha256", &[1], "/bin/c", "1.0", None).contains("/bin/c"));
    assert!(ensure_stream(None, "t").unwrap().tier == "public");
}

// -- key files --

#[test]
fn the_key_lies_beside_the_store() {
    assert_eq!(audit_key_name(Some("tpm.db")), "tpm.db.auditkey");
    assert_eq!(audit_key_name(None), "tpm.db.auditkey");
    assert_eq!(audit_key_path_for_store("/data/tpm/my.db"), "/data/tpm/my.db.auditkey");
}

#[test]
fn key_files_are_raw_or_sealed() {
    assert_eq!(try_load_master_key("/k", vec![7; 32], &None).unwrap(), vec![7; 32]);
    assert_eq!(
        try_load_master_key("/k", vec![7; 3], &None).unwrap_err().message(),
        "audit key file has wrong length: expected 32 bytes, got 3"
    );
    let sealed = SealedData { blob: vec![1, 2], policy_digest: Some(vec![3]) };
    let envelope = seal_key_file(&sealed);
    assert_eq!(envelope.sealed_hex, "0102");
    assert!(try_load_master_key("/k", vec![7; 3], &Some(seal_key_file(&sealed)))
        .unwrap_err()
        .message()
        .starts_with("audit key at /k is sealed under a TPM key"));
    match try_load_master_key_with_backend("/k", vec![7; 3], Ok(envelope)).unwrap() {
        KeySource::Sealed(s) => {
            assert_eq!(s.blob, vec![1, 2]);
            assert_eq!(s.policy_digest, Some(vec![3]));
        }
        KeySource::Raw(_) => panic!("raw"),
    }
    assert!(matches!(
        try_load_master_key_with_backend("/k", vec![7; 32], Err(String::new())),
        Ok(KeySource::Raw(k)) if k.len() == 32
    ));
    assert_eq!(
        try_load_master_key_with_backend("/k", vec![7; 3], Err("eof".to_string()))
            .unwrap_err()
            .message(),
        "audit key at /k is not valid (length 3, parse eof)"
    );
    let odd = SealedKeyFile { version: 1, sealed_hex: "0".to_string(), policy_digest_hex: None };
    assert_eq!(
        try_load_master_key_with_backend("/k", vec![], Ok(odd)).unwrap_err().message(),
        "odd-length hex string"
    );
    assert!(accept_unsealed_key(vec![1; 32]).is_ok());
    assert!(accept_unsealed_key(vec![1; 31]).is_err());
}

#[test]
fn key_files_are_spoken_of() {
    assert!(key_init_check("/k", false).is_ok());
    assert!(key_init_check("/k", true).is_err());
    assert_eq!(key_init_path("/data/my.db", Some("/k")), "/k");
    assert_eq!(key_init_path("/data/my.db", None), "/data/my.db.auditkey");
    let (file, said) = key_init("/k", vec![7; 32], None);
    assert!(matches!(file, KeyFile::Raw(k) if k == vec![7; 32]));
    assert!(said.starts_with("audit key written to: /k (plaintext, 0600)\nKeep this file"));
    let sealed = SealedData { blob: vec![1, 2], policy_digest: None };
    let (file, said) = key_init("/k", vec![7; 32], Some(&sealed));
    assert!(matches!(file, KeyFile::Sealed(f) if f.sealed_hex == "0102" && f.version == 1));
    assert!(said.starts_with("audit key written to: /k (sealed, 0600)\nKeep this file"));
    assert_eq!(key_show("/k", &None, false), "audit key path: /k\n  present: no\n");
    assert_eq!(
        key_show("/k", &Some(vec![0; 32]), false),
        "audit key path: /k\n  present: yes\n  format:  plaintext\n"
    );
    assert!(key_show("/k", &Some(vec![0; 3]), true).ends_with("  format:  sealed\n"));
    assert!(key_show("/k", &Some(vec![0; 3]), false).ends_with("  format:  unknown\n"));
}

// -- streams --

fn stream(tier: &str) -> StreamRow {
    StreamRow {
        name: "app".to_string(),
        tier: tier.to_string(),
        description: None,
        created_at: "t".to_string(),
        deprecated_at: None,
    }
}

#[test]
fn strict_streams_are_always_encrypted() {
    let e = effective_encryption(Some(&stream("public")), "app", false).unwrap();
    assert!(!e.encrypt && e.notice.is_none());
    let e = effective_encryption(Some(&stream("protected")), "app", false).unwrap();
    assert!(e.encrypt);
    assert!(e.notice.unwrap().starts_with("note: stream 'app' is protected"));
    let e = effective_encryption(Some(&stream("highly-restricted")), "app", true).unwrap();
    assert!(e.encrypt && e.notice.is_none());
    assert_eq!(
        effective_encryption(Some(&stream("odd")), "app", true).unwrap_err().message(),
        "stream 'app' has unknown tier 'odd'"
    );
    let (call, notice) = append_value(None, "app", true).unwrap();
    assert_eq!(call, AppendCall::Encrypted);
    assert!(notice.unwrap().starts_with("warning: stream 'app' is not declared"));
    let (call, _) = append_value(Some(&stream("public")), "app", false).unwrap();
    assert_eq!(call, AppendCall::Plain);
}

#[test]
fn streams_are_declared_changed_and_ended() {
    let mut store = MemoryStore::new();
    let mut t = StreamTable::new();
    let text =
        streams_create_at(&mut store, &mut t, "app", "protected", Some("d"), &at()).unwrap();
    assert_eq!(
        text,
        "name:        app\ntier:        protected\ndescription: d\ncreated_at:  2026-04-23T10:11:12+00:00\n"
    );
    assert_eq!(t.secure_log_stream_get("app").unwrap().tier, "protected");
    assert_eq!(
        streams_create(&mut store, &mut t, "b", "odd", None).unwrap_err().message(),
        "unknown confidentiality tier: odd"
    );
    assert_eq!(
        streams_create(&mut store, &mut t, "app", "public", None).unwrap_err().message(),
        "stream already exists: app"
    );
    assert!(streams_set_tier(&mut store, &mut t, "app", "public").is_ok());
    assert_eq!(
        streams_set_tier(&mut store, &mut t, "app", "odd").unwrap_err().message(),
        "unknown confidentiality tier: odd"
    );
    let text = streams_delete_at(&mut store, &mut t, "app", &at()).unwrap();
    assert!(text.ends_with("deprecated:  2026-04-23T10:11:12+00:00\n"));
    assert_eq!(
        streams_list(&t.rows),
        "  app                  [public] (deprecated) — d\n"
    );
    assert_eq!(streams_list(&vec![]), "no streams\n");
    assert_eq!(streams_show(&t, "x").unwrap_err().message(), "stream not found: x");
    assert_eq!(
        streams_set_tier(&mut store, &mut t, "x", "public").unwrap_err().message(),
        "stream not found: x"
    );
    assert!(streams_delete(&mut store, &mut t, "x").is_err());
    let logged: Vec<(String, String)> = store
        .list_audit_log(None, None, 9)
        .iter()
        .map(|e| (e.action.clone(), e.details.clone()))
        .collect();
    assert_eq!(logged.len(), 3);
    assert_eq!(
        logged[0],
        (
            "audit.stream.deprecate".to_string(),
            "{\"deprecated_at\":\"2026-04-23T10:11:12+00:00\"}".to_string()
        )
    );
    assert_eq!(
        logged[1],
        ("audit.stream.set_tier".to_string(), "{\"tier\":\"public\"}".to_string())
    );
    assert_eq!(
        logged[2],
        ("audit.stream.create".to_string(), "{\"tier\":\"protected\"}".to_string())
    );
}

#[test]
fn writing_a_stream_replaces_the_one_of_its_name() {
    let mut t = StreamTable::new();
    t.secure_log_stream_upsert(stream("public"));
    t.secure_log_stream_upsert(stream("protected"));
    assert_eq!(t.rows.len(), 1);
    assert_eq!(t.rows[0].tier, "protected");
}

// -- entries and segments --

#[test]
fn entries_are_printed() {
    assert_eq!(payload_source(Some("x"), Some("-")), PayloadSource::Inline);
    assert_eq!(payload_source(None, Some("-")), PayloadSource::Stdin);
    assert_eq!(payload_source(None, Some("/f")), PayloadSource::File);
    assert_eq!(payload_source(None, None), PayloadSource::Empty);
    let out = AppendOutput {
        seqno: 4,
        stream: "app".to_string(),
        entry_hash: "ab".to_string(),
        payload_bytes: 9,
        encrypted: true,
    };
    assert_eq!(
        out.render_text(),
        "appended entry\n  seqno:      4\n  stream:     app\n  entry_hash: ab\n  payload:    9 bytes (encrypted)\n"
    );
    let e = EntryFields {
        seqno: 4,
        stream_id: "app".to_string(),
        session_id: "s".to_string(),
        boot_id: "b".to_string(),
        timestamp: "t".to_string(),
        event_type: "e".to_string(),
        severity: "info".to_string(),
        producer: "cli".to_string(),
        payload_encoding: "raw".to_string(),
        payload: vec![0xff],
        prev_entry_hash: vec![0x01],
    };
    let text = show(&e, Some("clear"));
    assert!(text.ends_with("prev_hash:     01\npayload (hex): ff\nplaintext:     clear\n"));
    assert_eq!(head("app", Some(3)), "stream app: head = 3\n");
    assert_eq!(head("app", None), "stream app: empty\n");
}

#[test]
fn chains_are_judged() {
    assert_eq!(chain_end("app", Some(3), None).unwrap(), 3);
    assert_eq!(chain_end("app", None, Some(9)).unwrap(), 9);
    assert_eq!(chain_end("app", None, None).unwrap_err().message(), "stream 'app' is empty");
    let (text, ok) = chain_verify("app", 1, 9, None);
    assert!(ok.is_ok());
    assert_eq!(text, "verify chain: stream=app range=[1,9]\n  result: ok (all links verified)\n");
    let (_, err) = chain_verify("app", 1, 9, Some("broken"));
    assert_eq!(err.unwrap_err().message(), "chain verification failed: broken");
    let (text, ok) = verify_chain("app", &Ok(2));
    assert!(ok.is_ok() && text.ends_with("  result: ok (2 segment(s) verified)\n"));
    let (_, err) = verify_chain("app", &Err("bad".to_string()));
    assert_eq!(err.unwrap_err().message(), "checkpoint chain verification failed: bad");
}

fn segment() -> SegmentInfo {
    SegmentInfo {
        segment_id: 2,
        stream_id: "measurement".to_string(),
        seq_start: 5,
        seq_end: 9,
        merkle_root: [0xab; 32],
        last_entry_hash: [1; 32],
        prev_checkpoint_hash: [2; 32],
        closed_at: "t".to_string(),
        signature: vec![1],
        signer_identity: Some("auditor".to_string()),
    }
}

#[test]
fn segments_are_printed() {
    let text = segment().render_text();
    assert!(text.contains("range:          [5, 9] (5 entries)\n"));
    assert!(text.contains("signed:         yes\nsigner:         auditor\n"));
    assert_eq!(
        segments_list("app", &vec![segment()]),
        "stream app:\n  segment 2: seqs [5, 9] root=abababab...abababab signed=true\n"
    );
    assert_eq!(segments_list("app", &vec![]), "stream app: no segments\n");
    assert!(sign_report(2, "auditor", &[1], &[2, 3]).ends_with("2 bytes (0203)\n"));
    assert!(checkpoint(&segment(), "sha256", Some(14)).contains("14"));
    let proof = InclusionProof {
        seqno: 5,
        segment_id: 2,
        entry_hash: [3; 32],
        merkle_root: [4; 32],
        path: vec![ProofStep { sibling_hash: [5; 32], right: true }],
    };
    let text = proof.render_text();
    assert!(text.contains(&format!("    0. [R] {}\n", "05".repeat(32))));
    assert!(text.ends_with("\nproof verified locally.\n"));
}

#[test]
fn publication_and_heads_are_printed() {
    assert_eq!(publish("app", "{}", false), "{}\n");
    assert!(publish("app", "{}", true).starts_with("witness submission for stream=app:\n{}\n"));
    let record = HeadRecord { segment_id: 1, seq_end: 2, checkpoint_hash_hex: "ab".to_string() };
    let (text, ok) = head_check("app", &Ok(Some(record)));
    assert!(ok.is_ok() && text.contains("segment=1 seq_end=2\n  head_hash:  ab\n"));
    let (_, err) = head_check("app", &Err("older".to_string()));
    assert_eq!(err.unwrap_err().message(), "rollback detected: older");
}

// -- witnesses --

fn row(id: i64, received: &str) -> WitnessLogRow {
    let sub = WitnessSubmission {
        stream_id: "app".to_string(),
        segment_id: id as u64,
        seq_start: 1,
        seq_end: 2,
        checkpoint_hash_hex: "ab".to_string(),
        signature_hex: "cd".to_string(),
        signer_identity: "w".to_string(),
    };
    let mut row = to_witness_row(sub, received);
    assert_eq!(row.id, None);
    row.id = Some(id);
    row
}

#[test]
fn the_latest_receipts_are_never_forgotten() {
    let rows = || vec![vec![row(1, "2026-01-01"), row(2, "2026-02-01"), row(3, "2026-03-01")]];
    assert_eq!(count_of(&rows(), Some(1), None), Some(2));
    assert_eq!(count_of(&rows(), Some(2), Some("2026-02-15")), Some(1));
    assert_eq!(count_of(&rows(), None, Some("2026-02-15")), Some(2));
    assert_eq!(count_of(&rows(), Some(9), None), Some(0));
    assert_eq!(witness_gc_scope("all", Some(1), None).unwrap(), GcScope::AllStreams);
    assert_eq!(witness_gc_scope("app", None, Some("t")).unwrap(), GcScope::OneStream);
    assert_eq!(
        witness_gc_scope("all", None, None).unwrap_err().message(),
        "at least one of --keep-latest or --older-than must be specified"
    );
    assert_eq!(witness_gc_report(2, 5, true), "dry-run: would delete 5 receipt(s) across 2 stream(s)\n");
    assert_eq!(witness_gc_report(2, 5, false), "deleted 5 receipt(s) across 2 stream(s)\n");
}

fn count_of(
    streams: &Vec<Vec<WitnessLogRow>>,
    keep_latest: Option<usize>,
    older_than: Option<&str>,
) -> Option<usize> {
    let lists: Vec<Vec<&WitnessLogRow>> = streams.iter().map(|s| s.iter().collect()).collect();
    count_gc_candidates(&lists, keep_latest, older_than)
}

#[test]
fn receipts_are_recorded_by_hand() {
    let mut store = MemoryStore::new();
    let mut log = log_of(vec![row(1, "t")]);
    let sub = WitnessSubmission {
        stream_id: "app".to_string(),
        segment_id: 1,
        seq_start: 1,
        seq_end: 2,
        checkpoint_hash_hex: "cc".to_string(),
        signature_hex: "dd".to_string(),
        signer_identity: "w".to_string(),
    };
    let text = witness_record_at(&mut store, &mut log, sub, 5, &at());
    assert_eq!(
        text,
        "id=5 stream=app seg=1 seqs=1-2 signer=w received=2026-04-23T10:11:12+00:00\n"
    );
    assert_eq!(log.rows.len(), 2);
    let entry = &store.list_audit_log(Some("app"), None, 1)[0];
    assert_eq!(entry.action, "audit.witness.record");
    assert_eq!(entry.details, "{\"row_id\":5,\"segment_id\":1}");
}

#[test]
fn clean_ups_tell_what_they_remove() {
    let mut store = MemoryStore::new();
    let mut log = log_of(two_streams());
    let dry = witness_gc(&mut store, &mut log, "all", Some(1), None, true).unwrap();
    assert_eq!(dry, "dry-run: would delete 2 receipt(s) across 2 stream(s)\n");
    assert_eq!(log.rows.len(), 4);
    assert!(store.list_audit_log(None, None, 9).is_empty());
    let done = witness_gc_at(&mut store, &mut log, "all", Some(1), None, false, "s").unwrap();
    assert_eq!(done, "deleted 2 receipt(s) across 2 stream(s)\n");
    assert_eq!(log.rows.len(), 2);
    let entry = &store.list_audit_log(None, None, 1)[0];
    assert_eq!((entry.action.as_str(), entry.object_path.clone()), ("audit.witness.gc", None));
    let one = witness_gc(&mut store, &mut log, "app", None, Some("2027"), true).unwrap();
    assert_eq!(one, "dry-run: would delete 1 receipt(s) across 1 stream(s)\n");
    assert_eq!(
        witness_gc(&mut store, &mut log, "all", None, None, true).unwrap_err().message(),
        "at least one of --keep-latest or --older-than must be specified"
    );
}

fn log_of(rows: Vec<WitnessLogRow>) -> WitnessLog {
    let mut log = WitnessLog::new();
    log.rows = rows;
    log
}

fn two_streams() -> Vec<WitnessLogRow> {
    let mut other = row(9, "2026-01-05");
    other.stream_id = "sys".to_string();
    vec![row(1, "2026-01-01"), other, row(2, "2026-02-01"), row(3, "2026-03-01")]
}

#[test]
fn cleaning_removes_what_a_dry_run_counts() {
    let mut log = log_of(two_streams());
    assert_eq!(log.witness_log_stream_ids(), vec!["app".to_string(), "sys".to_string()]);
    let streams: Vec<Vec<WitnessLogRow>> = log
        .witness_log_stream_ids()
        .iter()
        .map(|s| log.witness_log_list(s).into_iter().cloned().collect())
        .collect();
    assert_eq!(count_of(&streams, Some(1), None), Some(2));
    assert_eq!(log.witness_log_gc(None, Some(1), None), 2);
    let left: Vec<Option<i64>> = log.rows.iter().map(|r| r.id).collect();
    assert_eq!(left, vec![Some(9), Some(3)]);

    let mut log = log_of(two_streams());
    assert_eq!(log.witness_log_gc(Some("app"), None, Some("2026-02-15")), 2);
    let left: Vec<Option<i64>> = log.rows.iter().map(|r| r.id).collect();
    assert_eq!(left, vec![Some(9), Some(3)]);
    assert_eq!(log.witness_log_gc(Some("ghost"), Some(1), None), 0);
}

#[test]
fn cleaning_leaves_the_latest_of_each_stream() {
    let mut log = log_of(two_streams());
    log.witness_log_gc(None, Some(1), Some("2027-01-01"));
    assert_eq!(log.witness_log_latest("app").unwrap().id, Some(3));
    assert_eq!(log.witness_log_latest("sys").unwrap().id, Some(9));
}

#[test]
fn clean_ups_are_logged_with_their_limits() {
    assert_eq!(
        gc_details(2, Some(1), None),
        "{\"deleted\":2,\"keep_latest\":1,\"older_than\":null}"
    );
    assert_eq!(
        gc_details(0, None, Some("2026")),
        "{\"deleted\":0,\"keep_latest\":null,\"older_than\":\"2026\"}"
    );
}

#[test]
fn receipts_are_printed() {
    let line = "id=1 stream=app seg=1 seqs=1-2 signer=w received=t\n";
    assert!(witness_list(&vec![row(1, "t")]).contains(line));
    assert_eq!(witness_latest("app", None), "no witness receipts for stream 'app'\n");
    assert!(witness_latest("app", Some(&row(1, "t"))).contains("seg=1"));
    assert_eq!(record_details(3, 4), "{\"row_id\":4,\"segment_id\":3}");
}

// -- attestation --

#[test]
fn attestation_keys_are_created_and_found() {
    let mut store = MemoryStore::new();
    let (path, alg) = ak_create_check(&store, "attest/main", "ecc-p256").unwrap();
    let text = ak_create_at(&mut store, path, alg, vec![5], 3, &at()).unwrap();
    assert_eq!(
        text,
        "attestation key created: attest/main\n  id: 00000000-0000-0000-0000-000000000003\n  algorithm: ecc-p256\n"
    );
    assert_eq!(store.list_objects()[0].metadata, "{\"type\":\"attestation_key\"}");
    assert_eq!(quote_key(&store, "attest/main").unwrap().id, vec![5]);
    assert!(ak_create_check(&store, "attest/main", "ecc-p256").is_err());
    store.insert_object(object(4, "k", ObjectKind::SigningKey, Some(vec![1]))).unwrap();
    assert!(quote_key(&store, "k").is_err());
    assert!(quote_key(&store, "ghost").is_err());
}

fn quote() -> QuoteData {
    QuoteData {
        attestation: vec![0xaa],
        signature: vec![0xbb],
        pcr_values: vec![],
        nonce: vec![1, 2],
        ak_public: vec![3],
    }
}

#[test]
fn quotes_are_logged_and_printed() {
    let nonce = quote_nonce(None);
    assert_eq!(nonce.len(), 32);
    assert_eq!(&nonce[..3], &[0xAB, 0xE2, 0x19]);
    assert_eq!(quote_nonce(Some("hi")), b"hi".to_vec());
    assert_eq!(verify_nonce(Some("hi"), &quote()), b"hi".to_vec());
    assert_eq!(verify_nonce(None, &quote()), vec![1, 2]);
    let mut store = MemoryStore::new();
    let c = quote_checkpoint("measurement", Some(&segment()), None, None).unwrap();
    assert_eq!(c.merkle_root, "ab".repeat(32));
    let text = quote_at(
        &mut store,
        "attest/main",
        "sha256",
        &vec![0, 7],
        &[9],
        &quote(),
        &Some(c),
        Some("/q.json"),
        "s",
    );
    assert!(text.starts_with("quote generated\n  ak:          attest/main\n"));
    assert!(text.contains("  nonce:       09\n  attestation: aa\n  signature:   bb\n"));
    assert!(text.ends_with("  written to:  /q.json\n"));
    assert_eq!(
        store.list_audit_log(None, None, 1)[0].details,
        "{\"pcr_bank\":\"sha256\",\"pcr_indices\":[0,7]}"
    );
    assert!(quote_checkpoint("measurement", None, None, None)
        .unwrap_err()
        .message()
        .starts_with("no signed measurement segment on stream 'measurement'"));
}

#[test]
fn verdicts_on_quotes_are_printed() {
    let v = QuoteVerification {
        signature_valid: true,
        nonce_matches: false,
        pcr_matches: vec![PcrMatchResult {
            index: 7,
            bank: "sha256".to_string(),
            expected: "aa".to_string(),
            actual: "bb".to_string(),
            matches: false,
        }],
        verified: false,
    };
    let mut c = quote_checkpoint("measurement", Some(&segment()), None, None).unwrap();
    c.agent = Some(AgentProvenance {
        version: None,
        digest: Some("0123456789abcdef0123".to_string()),
        ima_corroborated: Some(true),
    });
    let m = MeasurementVerify { checkpoint: c, error: Some("bad".to_string()) };
    let text = verify_report(&v, &Some(m));
    assert!(text.starts_with(
        "quote verification\n  signature: valid\n  nonce:     MISMATCH\n  PCR sha256:7  MISMATCH\n"
    ));
    assert!(text.contains("    checkpoint signature: FAILED\n    error:     bad\n"));
    assert!(text.contains("    agent:     Citadel ? [0123456789abcdef] — IMA-corroborated\n"));
    assert!(text.ends_with("\n  result: FAILED\n"));
    let complaint = verify_complaint(&v);
    assert!(complaint.contains("PCR sha256:7 — expected aa got bb"));
}

#[test]
fn approvals_behind_a_key_are_found() {
    let metadata = "{\"policy_authorize\":{\"authority\":\"boss\",\"bank\":\"sha256\",\"indices\":[0,7]}}";
    let found = policy_of_metadata(metadata).unwrap();
    assert_eq!((found.authority.as_str(), found.bank.as_str()), ("boss", "sha256"));
    assert_eq!(found.indices, vec![0, 7]);
    assert!(policy_of_metadata("{}").is_none());
    let mut store = MemoryStore::new();
    assert!(signing_approval_policy(&store, None).is_none());
    let binding = Binding::Authorized { authority: "boss".to_string(), indices: vec![0, 7] };
    let plan = init_check(&store, &binding, "rel", "generic", "ecc-p256", None).unwrap();
    init_identity_at(
        &mut store,
        &binding,
        "rel",
        plan,
        Some(9),
        None,
        vec![1],
        2,
        "t",
        3,
        &at(),
    )
    .unwrap();
    let stored = policy_of_metadata(&store.list_objects()[0].metadata).unwrap();
    assert_eq!(stored.authority, "boss");
    assert_eq!(stored.indices, vec![0, 7]);
    assert_eq!(store.list_objects()[0].policy_id, None);
    assert_eq!(store.get_identity("rel").unwrap().policy_id, None);
    assert_eq!(
        init_check(&store, &binding, "rel", "odd", "ecc-p256", None).unwrap_err().message(),
        "identity already exists: rel"
    );
    assert_eq!(
        init_check(&store, &Binding::Free, "rel", "odd", "ecc-p256", None).unwrap_err().message(),
        "unknown identity usage: odd"
    );
    let event = LoggedEvent {
        event_type: "policy.approve".to_string(),
        payload: b"{\"approved_policy\":\"beef\"}".to_vec(),
    };
    assert!(approval_logged(&vec![event], "beef"));
    assert!(!approval_logged(&vec![], "beef"));
    let event = LoggedEvent {
        event_type: "policy.approve".to_string(),
        payload: b"{\"approved_policy\":\"beef\"}".to_vec(),
    };
    let p = AuthorizedPolicy {
        authority: "boss".to_string(),
        bank: "sha256".to_string(),
        indices: vec![0],
    };
    let a = signing_approval_provenance(Some(p), &[0xbe, 0xef], &vec![event]).unwrap();
    assert!(a.logged_approved);
    assert!(signing_approval_provenance(None, &[], &vec![]).is_none());
}

// -- identities --

#[test]
fn identity_options_must_agree() {
    assert!(matches!(identity::init(false, None, None), Ok(Binding::Free)));
    assert!(matches!(identity::init(true, None, None), Ok(Binding::Authority)));
    assert!(matches!(identity::init(false, None, Some(vec![7])), Ok(Binding::Registers(_))));
    assert_eq!(
        identity::init(true, Some("a"), None).unwrap_err().message(),
        "--authority cannot be combined with --authorized-by or --pcr-bind"
    );
    assert_eq!(
        identity::init(false, Some("a"), None).unwrap_err().message(),
        "--authorized-by requires --pcr-bind to name the PCRs the approval covers"
    );
}

#[test]
fn identities_are_kept_shown_and_listed() {
    let mut store = MemoryStore::new();
    let plan =
        init_check(&store, &Binding::Free, "rel", "code-signing", "ecc-p256", None).unwrap();
    assert_eq!(plan.path.as_str(), "signing/rel");
    let text = init_identity_at(
        &mut store,
        &Binding::Free,
        "rel",
        plan,
        None,
        Some("CN=R"),
        vec![1],
        2,
        "t",
        3,
        &at(),
    )
    .unwrap();
    assert_eq!(
        text,
        "identity created: rel\n  id:      00000000-0000-0000-0000-000000000003\n  usage:   code-signing\n  key id:  00000000-0000-0000-0000-000000000002\n  subject: CN=R\n"
    );
    assert!(identity::show(&store, "rel").unwrap().contains("signing/rel"));
    assert!(identity::show(&store, "ghost").is_err());
    assert!(identity::list(&store).contains("rel"));
    assert!(identity::rotate(store.get_identity("rel").unwrap()).contains("rel"));
    assert!(identity::delete("rel", true).contains("rel"));
    assert_eq!(
        init_check(&store, &Binding::Free, "rel", "generic", "ecc-p256", None)
            .unwrap_err()
            .message(),
        "identity already exists: rel"
    );
    assert_eq!(authority_key(&store, "new", "rel").unwrap().id, vec![1]);
    assert_eq!(
        authority_key(&store, "new", "ghost").unwrap_err().message(),
        "authority identity not found: ghost"
    );
}

// -- repairs --

fn status(available: bool) -> BackendStatus {
    BackendStatus {
        backend_type: "mock".to_string(),
        manufacturer: "acme".to_string(),
        firmware_version: "1".to_string(),
        available,
    }
}

#[test]
fn a_sound_workspace_needs_no_repair() {
    let store = MemoryStore::new();
    let issues = detect_issues(&store, &Ok(status(true)), &vec![]);
    assert!(issues.is_empty());
    assert!(!scan(&issues).is_empty());
}

#[test]
fn issues_are_found_and_fixed() {
    let mut store = MemoryStore::new();
    store.insert_object(object(1, "lost", ObjectKind::SigningKey, None)).unwrap();
    let mut hanging = object(2, "hanging", ObjectKind::SealedBlob, Some(vec![1]));
    hanging.policy_id = Some(99);
    store.insert_object(hanging).unwrap();
    store.insert_nv_index("empty", 1, 4);
    store.insert_profile(Profile { is_active: false, ..Profile::builtin_default() });
    store.insert_identity(some_identity("orphan", 1234)).unwrap();
    store.insert_policy(Policy { id: 5, name: "frail".to_string(), rules: vec![] });
    let issues = detect_issues(&store, &Err("gone".to_string()), &vec![true]);
    let codes: Vec<&str> = issues.iter().map(|i| i.code).collect();
    assert_eq!(
        codes,
        vec![
            "REPAIR001",
            "REPAIR002",
            "REPAIR003",
            "REPAIR004",
            "REPAIR005",
            "REPAIR006",
            "REPAIR007",
        ]
    );
    assert_eq!(issues[0].severity, IssueSeverity::Error);
    assert_eq!(issues[0].message, "cannot reach TPM backend: gone");
    assert!(scan(&issues).contains("REPAIR002"));
    assert!(plan(&issues).contains(
        "  2. recreate the key or remove stale metadata\n     target: lost\n     reversible: yes\n"
    ));
    assert!(!scan_warning(3).is_empty());
    apply(&mut store, &issues);
    assert!(store.get_object(&ObjectPath::new("lost").unwrap()).is_none());
    assert!(store.get_object(&ObjectPath::new("hanging").unwrap()).is_some());
}

#[test]
fn a_single_issue_is_fixed() {
    let mut store = MemoryStore::new();
    store.insert_object(object(1, "lost", ObjectKind::SigningKey, None)).unwrap();
    let issues = detect_issues(&store, &Ok(status(true)), &vec![]);
    assert_eq!(issues.len(), 1);
    assert!(matches!(issues[0].fix_action, FixAction::RemoveOrphanMetadata { .. }));
    assert!(fix_at(&mut store, &issues[0], "s"));
    assert_eq!(store.object_count(), 0);
}
