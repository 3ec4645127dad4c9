//! The store, diagnoses and object paths.
use citadel::clock::Moment;
use citadel::commands::{key, nv, pcr, policy};
use citadel::diag::{DiagCode, Diagnostic, TpmError};
use citadel::model::{
    Algorithm, ApprovalRequest, ApprovalStatus, Identity, IdentityUsage, ObjectKind, ObjectPath,
    PcrValue, Policy, PolicyRule, Profile, TpmObject,
};
use citadel::store::MemoryStore;

fn path(text: &str) -> ObjectPath {
    ObjectPath::new(text).expect("a path")
}

fn object(id: u128, text: &str, algorithm: Algorithm) -> TpmObject {
    TpmObject {
        id,
        path: path(text),
        kind: ObjectKind::SigningKey,
        algorithm,
        policy_id: None,
        handle_blob: Some(vec![1, 2, 3]),
        created_at: "2026-04-23T10:11:12.5+00:00".to_string(),
        metadata: "{}".to_string(),
    }
}

fn moment() -> Moment {
    Moment {
        rfc3339: "2026-04-23T10:11:12+00:00".to_string(),
        stamp: "2026-04-23 10:11:12".to_string(),
    }
}

#[test]
fn key_with_policy() {
    let mut store = MemoryStore::new();
    store.insert_policy(Policy {
        id: 77,
        name: "test-policy".to_string(),
        rules: vec![PolicyRule::PcrMatch { bank: "sha256".to_string(), indices: vec![7, 11] }],
    });
    let mut obj = object(1, "signing/with-policy", Algorithm::EccP256);
    obj.policy_id = Some(77);
    obj.handle_blob = None;
    store.insert_object(obj).unwrap();

    let fetched = store.get_object(&path("signing/with-policy")).unwrap();
    assert_eq!(fetched.policy_id, Some(77));
    let fetched_policy = store.get_policy_by_id(77).unwrap();
    assert_eq!(fetched_policy.name, "test-policy");
}

#[test]
fn key_create_sign_delete() {
    let mut store = MemoryStore::new();
    let (p, alg) = key::create_check(&store, "signing/test", "ecc-p256").unwrap();
    key::create_at(&mut store, p, alg, vec![9, 8, 7], 5, &moment()).unwrap();

    let handle = key::sign_key(&store, "signing/test").unwrap();
    assert_eq!(handle.id, vec![9, 8, 7]);
    assert_eq!(handle.path, "signing/test");
    let text = key::sign_at(
        &mut store,
        "signing/test",
        "hello world",
        &vec![0xab, 0xcd],
        Some("out.sig"),
        "2026-04-23 10:11:12",
    );
    assert_eq!(
        text,
        "signed with: signing/test\ninput:       hello world\nsignature:   abcd\nwritten to:  out.sig\n"
    );

    key::delete_at(&mut store, "signing/test", "2026-04-23 10:11:13").unwrap();
    assert!(store.get_object(&path("signing/test")).is_none());
    let actions: Vec<String> =
        store.list_audit_log(None, None, 10).iter().map(|e| e.action.clone()).collect();
    assert_eq!(actions, vec!["key.delete", "key.sign", "key.create"]);
}

#[test]
fn nv_lifecycle() {
    let mut store = MemoryStore::new();
    store.insert_nv_index("config/test", 0x01000001, 64);
    store.nv_write_data("config/test", b"hello nv".to_vec()).unwrap();
    let data = store.nv_read_data("config/test").unwrap();
    assert_eq!(data, b"hello nv");
    let indices = store.list_nv_indices();
    assert_eq!(indices.len(), 1);
    assert_eq!(indices[0].0, "config/test");
    assert!(store.delete_nv_index("config/test"));
    assert!(store.get_nv_index("config/test").is_none());
}

#[test]
fn nv_write_to_nothing_is_refused() {
    let mut store = MemoryStore::new();
    let err = store.nv_write_data("ghost", vec![1]).unwrap_err();
    assert_eq!(err.message(), "NV index not found: ghost");
    assert!(!store.delete_nv_index("ghost"));
}

#[test]
fn pcr_baseline_save_and_diff() {
    let mut store = MemoryStore::new();
    let values = vec![
        PcrValue { bank: "sha256".to_string(), index: 0, digest: vec![0xaa; 32] },
        PcrValue { bank: "sha256".to_string(), index: 7, digest: vec![0xbb; 32] },
    ];
    pcr::baseline_save_at(&mut store, "test-baseline", "sha256", &values, "2026-04-23 10:11:12");

    let (bank, saved) = store.get_pcr_baseline("test-baseline").unwrap();
    assert_eq!(bank, "sha256");
    let parsed: serde_json::Value = serde_json::from_str(&saved).unwrap();
    assert!(parsed.is_array());
    assert_eq!(parsed[1]["index"], 7);
    assert_eq!(parsed[1]["digest"], "bb".repeat(32));
    let baselines = store.list_pcr_baselines();
    assert!(baselines.contains(&"test-baseline".to_string()));

    let query = pcr::baseline_query(&store, "test-baseline").unwrap();
    assert_eq!(query.indices, vec![0, 7]);
    let (_, unchanged) = pcr::baseline_diff("test-baseline", &query, &values);
    assert!(unchanged);
    let changed = vec![
        PcrValue { bank: "sha256".to_string(), index: 0, digest: vec![0xaa; 32] },
        PcrValue { bank: "sha256".to_string(), index: 7, digest: vec![0xcc; 2] },
    ];
    let (text, same) = pcr::baseline_diff("test-baseline", &query, &changed);
    assert!(!same);
    assert_eq!(
        text,
        format!(
            "baseline: test-baseline (bank: sha256)\n\n     PCR  0\n  !! PCR  7\n       saved:   {}\n       current: cccc\n\nresult: PCR MISMATCH detected\n",
            "bb".repeat(32)
        )
    );
}

#[test]
fn registers_are_extended_from_a_file_or_a_digest() {
    match pcr::extend_source(Some("/boot/vmlinuz"), None).unwrap() {
        pcr::ExtendSource::File(path) => assert_eq!(path, "/boot/vmlinuz"),
        pcr::ExtendSource::Digest(_) => panic!("a file was named"),
    }
    match pcr::extend_source(None, Some(" 0aFF\n")).unwrap() {
        pcr::ExtendSource::File(_) => panic!("a digest was given"),
        pcr::ExtendSource::Digest(d) => assert_eq!(d, vec![0x0a, 0xff]),
    }
    assert_eq!(
        pcr::extend_source(None, Some("abc")).unwrap_err().message(),
        "hex string has odd length"
    );
    assert_eq!(
        pcr::extend_source(None, Some("zz")).unwrap_err().message(),
        "invalid hex: invalid digit found in string"
    );
    let both = "provide exactly one of --input <file> or --value <hex>";
    assert_eq!(pcr::extend_source(None, None).unwrap_err().message(), both);
    assert_eq!(pcr::extend_source(Some("f"), Some("00")).unwrap_err().message(), both);
    let after = vec![PcrValue { bank: "sha1".to_string(), index: 3, digest: vec![1, 2] }];
    assert_eq!(
        pcr::extend("sha1", 3, &vec![0xab], &after),
        "extended PCR sha1[3]\n  with:      ab\n  new value: 0102\n"
    );
}

#[test]
fn baselines_are_listed_by_name() {
    let mut store = MemoryStore::new();
    assert_eq!(pcr::baseline_list(&store), "No PCR baselines saved.\n");
    store.save_pcr_baseline("b", "sha256", "[]");
    pcr::baseline_save(&mut store, "a", "sha256", &vec![]);
    assert_eq!(pcr::baseline_list(&store), "  a\n  b\n");
}

#[test]
fn states_and_correlations_are_taken_without_a_trace() {
    let mut store = MemoryStore::new();
    let ghost = ObjectPath::new("ghost").unwrap();
    assert_eq!(
        store.set_object_state(&ghost, "retired").unwrap_err().message(),
        "object not found: ghost"
    );
    assert!(store.touch_object(&ObjectPath::new("ghost").unwrap()).is_ok());
    store.log_action_with_correlation("apply", Some("k"), "{}", "corr-1");
    let entry = &store.list_audit_log(None, None, 1)[0];
    assert_eq!((entry.id, entry.action.as_str(), entry.details.as_str()), (1, "apply", "{}"));
}

#[test]
fn saving_a_baseline_again_replaces_it() {
    let mut store = MemoryStore::new();
    store.save_pcr_baseline("b", "sha1", "[]");
    store.save_pcr_baseline("b", "sha256", "[1]");
    assert_eq!(store.list_pcr_baselines().len(), 1);
    assert_eq!(store.get_pcr_baseline("b"), Some(("sha256".to_string(), "[1]".to_string())));
}

#[test]
fn baseline_that_is_no_list_is_refused() {
    let mut store = MemoryStore::new();
    store.save_pcr_baseline("odd", "sha256", "{}");
    assert_eq!(
        pcr::baseline_query(&store, "odd").unwrap_err().message(),
        "invalid type: map, expected a sequence"
    );
    assert_eq!(
        pcr::baseline_query(&store, "ghost").unwrap_err().message(),
        "baseline not found: ghost"
    );
}

#[test]
fn profile_switch() {
    let mut store = MemoryStore::new();
    store.insert_profile(Profile::builtin_default());
    store.insert_profile(Profile {
        name: "ci".to_string(),
        default_algorithm: Algorithm::Rsa2048,
        default_policy: None,
        is_active: false,
    });
    assert_eq!(store.get_active_profile().unwrap().name, "default");
    store.set_active_profile("ci").unwrap();
    let active = store.get_active_profile().unwrap();
    assert_eq!(active.name, "ci");
    assert_eq!(active.default_algorithm, Algorithm::Rsa2048);
}

#[test]
fn profile_set_nonexistent_fails() {
    let mut store = MemoryStore::new();
    store.insert_profile(Profile::builtin_default());
    assert!(store.set_active_profile("nonexistent").is_err());
    assert_eq!(store.get_active_profile().unwrap().name, "default");
}

#[test]
fn audit_log_filtering() {
    let mut store = MemoryStore::new();
    store.log_action("key.create", Some("signing/a"), "{}");
    store.log_action("key.create", Some("signing/b"), "{}");
    store.log_action("policy.create", None, "{}");
    store.log_action("key.sign", Some("signing/a"), "{}");

    let key_entries = store.list_audit_log(None, Some("key"), 100);
    assert_eq!(key_entries.len(), 3);
    let obj_entries = store.list_audit_log(Some("signing/a"), None, 100);
    assert_eq!(obj_entries.len(), 2);
    let limited = store.list_audit_log(None, None, 2);
    assert_eq!(limited.len(), 2);
    assert_eq!(limited[0].action, "key.sign");
    assert!(limited[0].id > limited[1].id);
    assert_eq!(limited[0].timestamp.len(), 19);
}

#[test]
fn tpm_error_convenience_constructors() {
    let err = TpmError::object_not_found("signing/missing");
    assert_eq!(err.diagnostic.code, DiagCode::E0004);
    assert!(err.diagnostic.message.contains("signing/missing"));
    assert!(!err.diagnostic.suggestions.is_empty());

    let err = TpmError::policy_not_found("boot-policy");
    assert_eq!(err.diagnostic.code, DiagCode::E0400);

    let err = TpmError::type_mismatch("obj", "signing key", "sealed blob");
    assert_eq!(err.diagnostic.code, DiagCode::E0100);
    assert!(err.diagnostic.message.contains("sealed blob"));
}

#[test]
fn diagnostic_render_all_formats() {
    let diag = Diagnostic::error(DiagCode::E0004, "test error")
        .with_cause("cause 1")
        .with_suggestion("fix it")
        .with_context("key", "value");

    let text = diag.render_text();
    assert!(text.contains("error[TPM0004]"));
    assert!(text.contains("cause 1"));
    assert!(text.contains("fix it"));

    let json: serde_json::Value = serde_json::from_str(&diag.render_json()).unwrap();
    assert_eq!(json["code"], "TPM0004");
    assert_eq!(json["causes"][0], "cause 1");
}

#[test]
fn diagnostic_rendering() {
    let diag = Diagnostic::error(DiagCode::E0004, "object not found: signing/missing")
        .with_cause("no object with path 'signing/missing' in store")
        .with_suggestion("run `tpm key list` to see available keys")
        .with_context("path", "signing/missing")
        .with_context("store", "/tmp/test.db");

    let text = diag.render_text();
    assert!(text.contains("error[TPM0004]"));
    assert!(text.contains("object not found"));
    assert!(text.contains("signing/missing"));
    assert!(text.contains("tpm key list"));

    let json: serde_json::Value = serde_json::from_str(&diag.render_json()).unwrap();
    assert_eq!(json["code"], "TPM0004");
    assert_eq!(json["suggestions"][0], "run `tpm key list` to see available keys");
}

#[test]
fn object_path_edge_cases() {
    // Single segment
    assert!(ObjectPath::new("key").is_some());

    // Deep nesting
    assert!(ObjectPath::new("a/b/c/d/e").is_some());

    // Hyphens and underscores
    assert!(ObjectPath::new("my-key_v2/sub-key").is_some());

    // Numeric
    assert!(ObjectPath::new("key123/456").is_some());

    // Dots rejected
    assert!(ObjectPath::new("key.old").is_none());

    // Unicode rejected
    assert!(ObjectPath::new("clé").is_none());
}

#[test]
fn object_paths_need_segments() {
    assert!(ObjectPath::new("").is_none());
    assert!(ObjectPath::new("/a").is_none());
    assert!(ObjectPath::new("a/").is_none());
    assert!(ObjectPath::new("a//b").is_none());
}

#[test]
fn store_migration_v2_creates_tables() {
    assert_eq!(citadel::rows::migrate(1), vec![2, 3, 4, 5, 6]);
    let mut store = MemoryStore::new();
    store.insert_nv_index("test", 0x01000001, 64);
    store.save_pcr_baseline("test", "sha256", "[]");
    assert_eq!(store.list_nv_indices().len(), 1);
    assert_eq!(store.list_pcr_baselines().len(), 1);
}

#[test]
fn duplicate_object_detection() {
    let mut store = MemoryStore::new();
    store.insert_object(object(1, "signing/dup", Algorithm::EccP256)).unwrap();
    let err = store.insert_object(object(2, "signing/dup", Algorithm::Rsa2048)).unwrap_err();
    assert_eq!(err.message(), "UNIQUE constraint failed: objects.path");
    assert_eq!(store.get_object(&path("signing/dup")).unwrap().id, 1);
}

#[test]
fn full_pipeline_key_lifecycle() {
    let mut store = MemoryStore::new();
    store.insert_profile(Profile::builtin_default());
    assert_eq!(store.get_active_profile().unwrap().name, "default");
    let mut obj = object(3, "signing/release", Algorithm::EccP256);
    obj.metadata = "{\"purpose\":\"release signing\"}".to_string();
    store.insert_object(obj).unwrap();
    store.log_action("key.create", Some("signing/release"), "{\"algorithm\":\"ecc_p256\"}");
    let fetched = store.get_object(&path("signing/release")).unwrap();
    assert_eq!(fetched.path.as_str(), "signing/release");
    assert_eq!(fetched.algorithm, Algorithm::EccP256);
    assert_eq!(fetched.kind, ObjectKind::SigningKey);
    assert_eq!(store.list_objects().len(), 1);
}

#[test]
fn renamed_object_keeps_everything_else() {
    let mut store = MemoryStore::new();
    store.insert_object(object(1, "a", Algorithm::EccP256)).unwrap();
    store.insert_object(object(2, "b", Algorithm::Rsa3072)).unwrap();
    store.rename_object(&path("a"), path("c")).unwrap();
    assert!(store.get_object(&path("a")).is_none());
    assert_eq!(store.get_object(&path("c")).unwrap().id, 1);
    assert!(store.rename_object(&path("ghost"), path("d")).is_err());
    assert!(store.get_object(&path("d")).is_none());
}

#[test]
fn lists_are_ordered_by_name() {
    let mut store = MemoryStore::new();
    for (i, name) in ["z/1", "a/2", "m"].iter().enumerate() {
        store.insert_object(object(i as u128, name, Algorithm::EccP256)).unwrap();
    }
    let names: Vec<&str> = store.list_objects().iter().map(|o| o.path.as_str()).collect();
    assert_eq!(names, vec!["a/2", "m", "z/1"]);
}

#[test]
fn identities_are_found_by_key_and_changed() {
    let mut store = MemoryStore::new();
    let identity = Identity {
        id: 10,
        name: "release".to_string(),
        key_object_id: 20,
        policy_id: None,
        usage: IdentityUsage::CodeSigning,
        subject: None,
        certificate_pem: None,
        created_at: "2026-04-23T10:11:12+00:00".to_string(),
        rotated_from: None,
    };
    store.insert_identity(identity).unwrap();
    assert_eq!(store.get_identity_by_key(20).len(), 1);
    store.update_identity_key("release", 21, 20).unwrap();
    store.set_identity_cert("release", "PEM").unwrap();
    let now = store.get_identity("release").unwrap();
    assert_eq!(now.key_object_id, 21);
    assert_eq!(now.rotated_from, Some(20));
    assert_eq!(now.certificate_pem, Some("PEM".to_string()));
    assert!(store.set_identity_cert("ghost", "PEM").is_err());
    assert!(store.delete_identity("release"));
    assert!(!store.delete_identity("release"));
}

#[test]
fn checkpoint_counters_are_kept() {
    let mut store = MemoryStore::new();
    assert_eq!(store.max_checkpoint_counter(), None);
    store.set_checkpoint_counter("aa", 3);
    store.set_checkpoint_counter("bb", 9);
    store.set_checkpoint_counter("aa", 4);
    assert_eq!(store.get_checkpoint_counter("aa"), Some(4));
    assert_eq!(store.get_checkpoint_counter("cc"), None);
    assert_eq!(store.max_checkpoint_counter(), Some(9));
}

#[test]
fn approvals_are_found_by_identifier() {
    let mut store = MemoryStore::new();
    store.insert_approval(ApprovalRequest {
        id: 4,
        operation: "key.delete".to_string(),
        target: None,
        requester: "ana".to_string(),
        reason: None,
        status: ApprovalStatus::Pending,
        created_at: "2026-04-23T10:11:12+00:00".to_string(),
        resolved_at: None,
        resolved_by: None,
    });
    store
        .update_approval_status_at(4, ApprovalStatus::Denied, "2026-04-24T00:00:00+00:00")
        .unwrap();
    assert_eq!(store.get_approval(4).unwrap().status, ApprovalStatus::Denied);
    assert_eq!(
        store.get_approval(4).unwrap().resolved_at,
        Some("2026-04-24T00:00:00+00:00".to_string())
    );
    store.update_approval_status(4, ApprovalStatus::Approved, Some("eva")).unwrap();
    assert_eq!(store.get_approval(4).unwrap().status, ApprovalStatus::Approved);
    assert!(store.get_approval(4).unwrap().resolved_at.is_some());
    assert_eq!(store.get_approval(4).unwrap().resolved_by, None);
    assert_eq!(
        store.update_approval_status(5, ApprovalStatus::Denied, None).unwrap_err().message(),
        "approval not found"
    );
}

#[test]
fn new_nv_index_gets_the_next_number() {
    let mut store = MemoryStore::new();
    assert_eq!(nv::define_check(&store, "a").unwrap(), 0x01000001);
    nv::define_at(&mut store, "a", 0x01000001, 16, "2026-04-23 10:11:12");
    store.insert_nv_index("z", 0x01000005, 8);
    assert_eq!(nv::define_check(&store, "b").unwrap(), 0x01000006);
    assert_eq!(
        nv::define_check(&store, "a").unwrap_err().message(),
        "NV index already defined: a"
    );
}

#[test]
fn policies_are_created_once() {
    let mut store = MemoryStore::new();
    let text = policy::create_at(&mut store, "boot", &vec![0, 7], "sha256", true, 1, "s").unwrap();
    assert_eq!(
        text,
        "policy created: boot\n  id: 00000000-0000-0000-0000-000000000001\n  rules: 2\n"
    );
    let err = policy::create_at(&mut store, "boot", &vec![], "sha256", false, 2, "s").unwrap_err();
    assert_eq!(err.message(), "policy already exists: boot");
    assert_eq!(
        policy::list(&store),
        "  boot\n    - pcr sha256:0,7\n    - password\n"
    );
    assert_eq!(
        policy::show(&store, "boot").unwrap(),
        "name:  boot\nid:    00000000-0000-0000-0000-000000000001\nrules:\n  - [pcr_match] PCR bank sha256 indices 0, 7\n  - [password] requires auth value\n"
    );
    assert!(policy::explain(&store, "boot").unwrap().starts_with(
        "policy 'boot' requires 2 condition(s) to be satisfied\n\nrequirements:\n  1. Platform state"
    ));
    assert_eq!(policy::delete(&mut store, "boot").unwrap(), "policy deleted: boot\n");
    assert_eq!(
        policy::delete(&mut store, "boot").unwrap_err().message(),
        "policy not found: boot"
    );
    assert_eq!(policy::list(&store), "No policies defined.\n");
}
