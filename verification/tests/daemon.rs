//! What the daemon answers, and what the witness remembers.
use citadel::clock::Moment;
use citadel::commands::apply::ApplyOutput;
use citadel::commands::audit::WitnessSubmission;
use citadel::commands::identity::{init_identity, init_identity_at, Binding};
use citadel::daemon::requests::{
    graph_format, handle_apply, handle_apply_check, handle_approve, handle_audit_witness,
    handle_audit_witness_at, handle_audit_witness_get, handle_audit_witness_list,
    handle_create_identity, handle_create_identity_check, handle_create_key,
    handle_create_key_at, handle_create_key_check, handle_create_policy_at, handle_delete_key,
    handle_deny, handle_get_identity, handle_get_key, handle_graph, handle_list_approvals,
    handle_list_identities, handle_policy_fragility, handle_policy_fragility_check,
    handle_request_approval, handle_request_approval_at, handle_rotate_identity,
    handle_sign_at, handle_sign_check, ApprovalReq, CreatePolicyRequest, FragilityReport,
    GraphFormat, GraphTexts, RegisterRating,
};
use citadel::daemon::{
    check_api_key, default_store_path, handle_audit_log, handle_health, handle_list_keys,
    handle_list_objects, handle_list_policies, handle_list_secrets, handle_status,
    resolve_tls_cert, tls_mode, Answer, CertSource, TlsMode,
};
use citadel::model::{Algorithm, BackendStatus, Profile};
use citadel::store::MemoryStore;
use citadel::witness::{Verdict, WitnessLog};

fn body(a: &Answer) -> serde_json::Value {
    serde_json::from_str(&a.body).expect("a JSON body")
}

fn at() -> Moment {
    Moment {
        rfc3339: "2026-04-23T10:11:12+00:00".to_string(),
        stamp: "2026-04-23 10:11:12".to_string(),
    }
}

fn mock() -> BackendStatus {
    BackendStatus {
        backend_type: "mock".to_string(),
        manufacturer: "none".to_string(),
        firmware_version: "1".to_string(),
        available: true,
    }
}

fn create_identity(store: &mut MemoryStore, name: &str) {
    let plan = handle_create_identity_check(store, name, None, None).unwrap();
    init_identity(store, &Binding::Free, name, plan, None, None, vec![1]).unwrap();
}

#[test]
fn identities_list_empty_initially() {
    let store = MemoryStore::new();
    let a = handle_list_identities(&store);
    assert_eq!(a.status, 200);
    assert_eq!(body(&a)["identities"].as_array().unwrap().len(), 0);
}

#[test]
fn identities_create_and_get() {
    let mut store = MemoryStore::new();
    let plan =
        handle_create_identity_check(&store, "release", Some("code-signing"), Some("ecc-p256"))
            .unwrap();
    let kept = init_identity(
        &mut store,
        &Binding::Free,
        "release",
        plan,
        None,
        Some("CN=Release"),
        vec![1, 2],
    );
    let a = handle_create_identity(&store, "release", &kept);
    assert_eq!(a.status, 200, "body={}", a.body);
    assert_eq!(body(&a)["name"], "release");
    assert_eq!(body(&a)["usage"], "code-signing");
    assert!(body(&a)["key_object_id"].is_string());

    let a = handle_get_identity(&store, "release");
    assert_eq!(a.status, 200);
    assert_eq!(body(&a)["name"], "release");
    assert_eq!(body(&a)["subject"], "CN=Release");
}

#[test]
fn identities_get_missing_returns_404() {
    let store = MemoryStore::new();
    assert_eq!(handle_get_identity(&store, "ghost").status, 404);
}

#[test]
fn identities_rotate_sets_rotated_from() {
    let mut store = MemoryStore::new();
    create_identity(&mut store, "rot");
    let old = store.get_identity("rot").unwrap().key_object_id;
    store.update_identity_key("rot", 99, old).unwrap();
    let a = handle_rotate_identity(store.get_identity("rot").unwrap());
    assert_eq!(a.status, 200);
    assert!(body(&a)["new_key_object_id"].is_string());
    assert!(
        body(&a)["rotated_from"].as_str().is_some(),
        "rotated_from should be set after rotation"
    );
}

#[test]
fn identity_requests_are_checked() {
    let mut store = MemoryStore::new();
    let a = handle_create_identity_check(&store, "x", Some("magic"), None).unwrap_err();
    assert_eq!((a.status, a.body.as_str()), (400, "unknown identity usage: magic"));
    let a = handle_create_identity_check(&store, "x", None, Some("des")).unwrap_err();
    assert_eq!((a.status, a.body.as_str()), (500, "unknown algorithm: des"));
    create_identity(&mut store, "x");
    let a = handle_create_identity_check(&store, "x", None, None).unwrap_err();
    assert_eq!((a.status, a.body.as_str()), (500, "identity already exists: x"));
}

#[test]
fn policy_fragility_unknown_returns_404() {
    let store = MemoryStore::new();
    let a = handle_policy_fragility_check(&store, "ghost").unwrap_err();
    assert_eq!(a.status, 404);
}

#[test]
fn policy_fragility_is_told() {
    let report = FragilityReport {
        overall: "high".to_string(),
        per_pcr: vec![RegisterRating {
            bank: "sha256".to_string(),
            index: 0,
            rating: "high".to_string(),
            reason: "firmware".to_string(),
        }],
        notes: vec!["n".to_string()],
    };
    let a = handle_policy_fragility("fragile", &report);
    assert_eq!(body(&a)["policy"], "fragile");
    assert_eq!(body(&a)["overall"], "high");
    assert_eq!(body(&a)["per_pcr"][0]["index"], 0);
    assert_eq!(body(&a)["notes"][0], "n");
}

#[test]
fn the_graph_is_told_in_the_form_asked_for() {
    let graph = || {
        Ok(GraphTexts { dot: "digraph tpm {}".to_string(), json: "{\"nodes\":[]}".to_string() })
    };
    let a = handle_graph(&graph(), Some("dot"));
    assert_eq!((a.status, a.body.as_str()), (200, "digraph tpm {}"));
    assert_eq!(handle_graph(&graph(), None).body, "{\"nodes\":[]}");
    assert_eq!(handle_graph(&graph(), Some("svg")).body, "{\"nodes\":[]}");
    let a = handle_graph(&Err("no store".to_string()), Some("dot"));
    assert_eq!((a.status, a.body.as_str()), (500, "no store"));
    assert_eq!(graph_format(Some("dot")).content_type(), "text/vnd.graphviz");
    assert_eq!(graph_format(Some("DOT")), GraphFormat::Json);
}

#[test]
fn manifest_errors_are_told_together() {
    assert!(handle_apply_check(&Ok(vec![])).is_ok());
    let a = handle_apply_check(&Ok(vec!["a".to_string(), "b".to_string()])).unwrap_err();
    assert_eq!((a.status, a.body.as_str()), (400, "a; b"));
    let a = handle_apply_check(&Err("line 1".to_string())).unwrap_err();
    assert_eq!((a.status, a.body.as_str()), (400, "manifest parse: line 1"));
    let a = handle_apply(&ApplyOutput {
        correlation_id: "c".to_string(),
        created: vec!["policy:boot".to_string()],
        updated: vec![],
        warnings: vec![],
        errors: vec![],
    });
    assert_eq!(body(&a)["correlation_id"], "c");
    assert_eq!(body(&a)["created"][0], "policy:boot");
    assert_eq!(body(&a)["errors"].as_array().unwrap().len(), 0);
}

fn submission(segment: u64, hash: &str) -> WitnessSubmission {
    signed(segment, (1, 10), hash, "bb".repeat(16), "abc")
}

fn signed(
    segment: u64,
    range: (u64, u64),
    hash: &str,
    signature_hex: String,
    signer: &str,
) -> WitnessSubmission {
    WitnessSubmission {
        stream_id: "default".to_string(),
        segment_id: segment,
        seq_start: range.0,
        seq_end: range.1,
        checkpoint_hash_hex: hash.repeat(32),
        signature_hex,
        signer_identity: signer.to_string(),
    }
}

#[test]
fn witness_accepts_new_submission() {
    let mut store = MemoryStore::new();
    let mut log = WitnessLog::new();
    let a = handle_audit_witness(&mut store, &mut log, submission(1, "aa"));
    assert_eq!(a.status, 200, "body={}", a.body);
    assert_eq!(body(&a)["accepted"], true);
    assert_eq!(store.list_audit_log(None, Some("audit.witness.accept"), 5).len(), 1);
}

#[test]
fn witness_rejects_equivocating_submission() {
    let mut store = MemoryStore::new();
    let mut log = WitnessLog::new();
    handle_audit_witness(&mut store, &mut log, submission(1, "aa"));
    let a = handle_audit_witness(&mut store, &mut log, submission(1, "cc"));
    assert_eq!(a.status, 409);
    assert_eq!(
        a.body,
        format!(
            "equivocation: segment 1 for stream default previously witnessed with hash {}, now {}",
            "aa".repeat(32),
            "cc".repeat(32)
        )
    );
    assert_eq!(log.rows.len(), 1);
    assert_eq!(store.list_audit_log(None, None, 5).len(), 1);
}

#[test]
fn witness_rejects_older_segment() {
    let mut store = MemoryStore::new();
    let mut log = WitnessLog::new();
    handle_audit_witness(&mut store, &mut log, submission(5, "aa"));
    let a = handle_audit_witness(&mut store, &mut log, submission(4, "bb"));
    assert_eq!(
        (a.status, a.body.as_str()),
        (409, "rejected: previously witnessed segment 5 for stream default, got 4")
    );
    assert_eq!(log.rows.len(), 1);
}

#[test]
fn witness_get_returns_latest_record() {
    let mut store = MemoryStore::new();
    let mut log = WitnessLog::new();
    let sub = signed(1, (1, 5), "aa", "bb".repeat(8), "id1");
    handle_audit_witness_at(&mut store, &mut log, sub, &at());
    let a = handle_audit_witness_get(&log, "default");
    assert_eq!(a.status, 200);
    assert_eq!(body(&a)["segment_id"], 1);
    assert_eq!(body(&a)["checkpoint_hash_hex"], "aa".repeat(32));
    assert_eq!(body(&a)["received_at_rfc3339"], "2026-04-23T10:11:12+00:00");
}

#[test]
fn witness_get_missing_stream_404() {
    let a = handle_audit_witness_get(&WitnessLog::new(), "ghost");
    assert_eq!((a.status, a.body.as_str()), (404, "no witness record for stream 'ghost'"));
}

#[test]
fn witness_idempotent_republish_is_accepted() {
    let mut store = MemoryStore::new();
    let mut log = WitnessLog::new();
    let sub = || signed(3, (10, 20), "cd", "ef".repeat(16), "idrepeat");
    let a = handle_audit_witness(&mut store, &mut log, sub());
    assert_eq!(a.status, 200);
    assert_eq!(body(&a)["idempotent"], false);
    let a = handle_audit_witness(&mut store, &mut log, sub());
    assert_eq!(a.status, 200);
    assert_eq!(body(&a)["idempotent"], true);
    assert_eq!(log.rows.len(), 1);
}

#[test]
fn witness_list_returns_full_history() {
    let mut store = MemoryStore::new();
    let mut log = WitnessLog::new();
    for seg in 1..=3u64 {
        let range = ((seg - 1) * 10 + 1, seg * 10);
        let sub = signed(seg, range, &format!("{:02x}", seg), "ab".repeat(16), "sid");
        handle_audit_witness(&mut store, &mut log, sub);
    }
    let mut other = submission(9, "ee");
    other.stream_id = "other".to_string();
    assert_eq!(log.receive(other, "t"), Verdict::Recorded);
    let a = handle_audit_witness_list(&log, "default");
    assert_eq!(a.status, 200);
    assert_eq!(body(&a)["count"], 3);
    let records = body(&a);
    let records = records["records"].as_array().unwrap();
    assert_eq!(records.len(), 3);
    assert_eq!(records[0]["segment_id"], 1);
    assert_eq!(records[2]["segment_id"], 3);
    assert_eq!(records[0]["signature_hex"], "ab".repeat(16));
    assert!(records[0]["id"].is_null());
    log.rows[0].id = Some(7);
    assert_eq!(body(&handle_audit_witness_list(&log, "default"))["records"][0]["id"], 7);
}

#[test]
fn keys_are_created_over_the_api() {
    let mut store = MemoryStore::new();
    let (p, alg) = handle_create_key_check(&store, "signing/a", None).unwrap();
    assert_eq!(alg, Algorithm::EccP256);
    let a = handle_create_key_at(&mut store, p, alg, None, vec![1], 6, &at());
    assert_eq!(a.status, 200);
    assert_eq!(body(&a)["id"], "00000000-0000-0000-0000-000000000006");
    assert_eq!(body(&a)["algorithm"], "ecc-p256");
    let entry = store.list_audit_log(None, None, 1);
    assert_eq!(entry[0].details, "{\"algorithm\":\"ecc-p256\",\"via\":\"api\"}");

    let a = handle_create_key_check(&store, "signing/a", None).unwrap_err();
    assert_eq!((a.status, a.body.as_str()), (409, "object already exists: signing/a"));
    let a = handle_create_key_check(&store, "not a path", None).unwrap_err();
    assert_eq!((a.status, a.body.as_str()), (400, "invalid path: invalid object path: not a path"));
    let a = handle_create_key_check(&store, "b", Some("des")).unwrap_err();
    assert_eq!((a.status, a.body.as_str()), (400, "unknown algorithm: des"));

    let a = handle_get_key(&store, "signing/a");
    assert_eq!(body(&a)["kind"], "signing-key");
    assert_eq!(body(&a)["has_policy"], false);
    assert_eq!(handle_get_key(&store, "ghost").status, 404);
    assert_eq!(handle_get_key(&store, "?").status, 400);
}

#[test]
fn fresh_keys_have_different_identifiers() {
    let mut store = MemoryStore::new();
    for name in ["a", "b"] {
        let (p, alg) = handle_create_key_check(&store, name, Some("rsa2048")).unwrap();
        handle_create_key(&mut store, p, alg, Some("rsa2048"), vec![1]);
    }
    let list = store.list_objects();
    assert_ne!(list[0].id, list[1].id);
    assert_eq!(list[0].algorithm, Algorithm::Rsa2048);
    assert!(list[0].created_at.ends_with("+00:00"));
}

#[test]
fn signatures_are_handed_out_over_the_api() {
    let mut store = MemoryStore::new();
    let (p, alg) = handle_create_key_check(&store, "k", None).unwrap();
    handle_create_key(&mut store, p, alg, None, vec![4, 5]);
    let (handle, data) = handle_sign_check(&store, "k", "00fF").unwrap();
    assert_eq!(handle.id, vec![4, 5]);
    assert_eq!(data, vec![0, 255]);
    let a = handle_sign_at(&mut store, "k", 2, &vec![0xde, 0xad], "s");
    assert_eq!(body(&a)["signature_hex"], "dead");
    assert_eq!(store.list_audit_log(None, None, 1)[0].details, "{\"data_len\":2,\"via\":\"api\"}");
    assert_eq!(handle_sign_check(&store, "k", "zz").unwrap_err().body, "invalid hex: invalid digit found in string");
    assert_eq!(
        handle_sign_check(&store, "k", "zz0").unwrap_err().body,
        "invalid hex: invalid digit found in string"
    );
    assert_eq!(handle_sign_check(&store, "g", "0").unwrap_err().status, 404);
    assert_eq!(handle_sign_check(&store, "g", "00").unwrap_err().status, 404);
    assert_eq!(handle_sign_check(&store, "g g", "00").unwrap_err().status, 400);
}

#[test]
fn keys_are_deleted_over_the_api() {
    let mut store = MemoryStore::new();
    assert_eq!(handle_delete_key(&mut store, "k").status, 404);
    assert_eq!(handle_delete_key(&mut store, "k k").status, 400);
    let (p, alg) = handle_create_key_check(&store, "k", None).unwrap();
    handle_create_key(&mut store, p, alg, None, vec![]);
    let a = handle_delete_key(&mut store, "k");
    assert_eq!((a.status, a.body.as_str()), (200, "{\"deleted\":\"k\"}"));
    assert_eq!(store.object_count(), 0);
}

#[test]
fn policies_are_created_over_the_api() {
    let mut store = MemoryStore::new();
    let req = CreatePolicyRequest {
        name: "boot".to_string(),
        pcr_indices: Some(vec![0, 4]),
        pcr_bank: None,
        require_password: Some(true),
    };
    let a = handle_create_policy_at(&mut store, &req, 1, "s");
    assert_eq!(body(&a)["rule_count"], 2);
    assert_eq!(handle_create_policy_at(&mut store, &req, 2, "s").status, 409);
    let a = handle_list_policies(&store);
    assert_eq!(a.body, "{\"policies\":[{\"name\":\"boot\",\"rule_count\":2}]}");
}

#[test]
fn lists_are_answered() {
    let mut store = MemoryStore::new();
    let (p, alg) = handle_create_key_check(&store, "k", None).unwrap();
    handle_create_key_at(&mut store, p, alg, None, vec![1], 6, &at());
    assert_eq!(
        handle_list_keys(&store).body,
        "{\"keys\":[{\"algorithm\":\"ecc-p256\",\"created_at\":\"2026-04-23T10:11:12+00:00\",\"kind\":\"signing-key\",\"path\":\"k\"}]}"
    );
    assert_eq!(
        handle_list_objects(&store).body,
        "{\"objects\":[{\"algorithm\":\"ecc-p256\",\"kind\":\"signing-key\",\"path\":\"k\"}]}"
    );
    assert_eq!(handle_list_secrets(&store).body, "{\"secrets\":[]}");
    assert_eq!(
        handle_audit_log(&store).body,
        "{\"entries\":[{\"action\":\"key.create\",\"details\":\"{\\\"algorithm\\\":\\\"ecc-p256\\\",\\\"via\\\":\\\"api\\\"}\",\"id\":1,\"object_path\":\"k\",\"timestamp\":\"2026-04-23 10:11:12\"}]}"
    );
}

#[test]
fn status_and_health_are_told() {
    let mut store = MemoryStore::new();
    let a = handle_status(&Ok(mock()), "1.2.3");
    assert_eq!(body(&a)["backend"]["backend_type"], "mock");
    assert_eq!(body(&a)["backend"]["available"], true);
    assert_eq!(body(&a)["version"], "1.2.3");
    assert_eq!(handle_status(&Err("x".to_string()), "1").status, 500);

    let a = handle_health(&store, &Ok(mock()));
    assert_eq!(body(&a)["score"], 90);
    assert_eq!(body(&a)["posture"], "healthy");
    assert_eq!(body(&a)["issues"][0], "no active profile");
    store.insert_profile(Profile::builtin_default());
    let mut down = mock();
    down.available = false;
    let a = handle_health(&store, &Ok(down));
    assert_eq!(body(&a)["score"], 60);
    assert_eq!(body(&a)["posture"], "warning");
    assert_eq!(body(&a)["issues"][0], "backend unavailable");
    assert_eq!(handle_health(&store, &Err("x".to_string())).status, 500);
}

fn ask(store: &mut MemoryStore, id: u128) -> Answer {
    let req = ApprovalReq {
        operation: "key.delete".to_string(),
        target: Some("k".to_string()),
        requester: "ana".to_string(),
        reason: None,
    };
    handle_request_approval_at(store, &req, id, &at())
}

#[test]
fn approvals_are_resolved_once() {
    let mut store = MemoryStore::new();
    let a = ask(&mut store, 11);
    let id = body(&a)["id"].as_str().unwrap().to_string();
    assert_eq!(body(&a)["status"], "pending");
    let a = handle_approve(&mut store, &id);
    assert_eq!(body(&a)["status"], "approved");
    let a = handle_deny(&mut store, &id);
    assert_eq!((a.status, a.body.as_str()), (409, "approval already approved"));
    let a = handle_list_approvals(&store);
    assert_eq!(body(&a)["approvals"][0]["status"], "approved");
    assert_eq!(body(&a)["approvals"][0]["target"], "k");
}

#[test]
fn approvals_can_be_denied() {
    let mut store = MemoryStore::new();
    ask(&mut store, 11);
    let id = citadel::ids::show_id(11);
    let a = handle_deny(&mut store, &id);
    assert_eq!(body(&a)["status"], "denied");
    let a = handle_approve(&mut store, &id);
    assert_eq!(a.body, "approval already denied");
    assert_eq!(store.list_audit_log(None, Some("approval."), 9).len(), 2);
}

#[test]
fn unknown_approvals_are_refused() {
    let mut store = MemoryStore::new();
    let a = handle_approve(&mut store, "nonsense");
    assert_eq!((a.status, a.body.as_str()), (400, "invalid UUID"));
    let a = handle_approve(&mut store, "00000000-0000-0000-0000-00000000000b");
    assert_eq!((a.status, a.body.as_str()), (404, "approval not found"));
    let req = ApprovalReq {
        operation: "o".to_string(),
        target: None,
        requester: "r".to_string(),
        reason: Some("why".to_string()),
    };
    let a = handle_request_approval(&mut store, &req);
    assert_eq!(body(&a)["id"].as_str().unwrap().len(), 36);
}

#[test]
fn requests_need_the_key_where_one_is_required() {
    assert!(check_api_key(None, None).is_ok());
    assert!(check_api_key(None, Some("x")).is_ok());
    assert!(check_api_key(Some("k"), Some("k")).is_ok());
    assert_eq!(check_api_key(Some("k"), Some("x")), Err(401));
    assert_eq!(check_api_key(Some("k"), None), Err(401));
}

#[test]
fn tls_is_chosen_by_preference() {
    let some = |s: &str| Some(s.to_string());
    assert!(matches!(
        tls_mode(some("id"), some("c"), some("k")),
        TlsMode::Identity(n) if n == "id"
    ));
    assert!(matches!(
        tls_mode(None, some("c"), some("k")),
        TlsMode::Files { cert, key } if cert == "c" && key == "k"
    ));
    assert!(matches!(tls_mode(None, some("c"), None), TlsMode::Plain));
    assert!(matches!(tls_mode(None, None, None), TlsMode::Plain));
}

#[test]
fn certificate_comes_from_the_identity_first() {
    let mut store = MemoryStore::new();
    let plan = handle_create_identity_check(&store, "web", Some("tls"), None).unwrap();
    init_identity_at(
        &mut store,
        &Binding::Free,
        "web",
        plan,
        None,
        None,
        vec![1],
        2,
        "t",
        3,
        &at(),
    )
    .unwrap();
    assert!(matches!(
        resolve_tls_cert(&store, "web", Some("/f.pem")),
        Ok(CertSource::File(p)) if p == "/f.pem"
    ));
    assert!(resolve_tls_cert(&store, "web", None)
        .unwrap_err()
        .message()
        .starts_with("TLS identity 'web' has no certificate; store one"));
    store.set_identity_cert("web", "PEM").unwrap();
    assert!(matches!(
        resolve_tls_cert(&store, "web", Some("/f.pem")),
        Ok(CertSource::Stored(p)) if p == "PEM"
    ));
}

#[test]
fn daemon_keeps_its_own_store() {
    assert_eq!(default_store_path(Some("/d"), None), vec!["/d", "tpm", "tpmd.db"]);
    assert_eq!(
        default_store_path(None, Some("/h")),
        vec!["/h", ".local", "share", "tpm", "tpmd.db"]
    );
    assert_eq!(default_store_path(None, None), vec!["tpmd.db"]);
}
