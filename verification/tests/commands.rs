//! The commands on a workspace.
use citadel::clock::Moment;
use citadel::cli::{
    auto_detect_backend, check_constraints, create_backend, daemon_run, daemon_status,
    default_store_path, detect_vtpm, effective_format, generate_completions, hold_to_constraints,
    should_probe, vtpm_component, BackendChoice, Command, ComponentPlace, Found, KeyCommand,
    SecretCommand, ShellName,
};
use citadel::commands::apply::{diff_cmd, load_manifest, ApplyOutput};
use citadel::commands::cluster::{answer, ClusterQuery};
use citadel::commands::workspace::phases::{import_next, import_start, ImportNext};
use citadel::commands::workspace::{
    export, export_report, import, import_finish_at, import_key_at, import_key_check,
    parse_nv_index, parse_object_kind, ImportReport, KeyDecision, WorkspaceSnapshot,
};
use citadel::commands::{
    capabilities, cluster, doctor, explain, init, key, log, nv, object, recover, secret,
    simulator, status, template, workspace,
};
use citadel::model::{
    Algorithm, BackendStatus, Identity, IdentityUsage, ObjectKind, ObjectPath, Policy,
    PolicyRule, Profile, TpmObject,
};
use citadel::output::{parse_output_format, OutputFormat};
use citadel::plan::{show_plan, Detail, PlannedAction, Risk};
use citadel::store::MemoryStore;

fn path(text: &str) -> ObjectPath {
    ObjectPath::new(text).expect("a path")
}

fn object(id: u128, text: &str, kind: ObjectKind) -> TpmObject {
    TpmObject {
        id,
        path: path(text),
        kind,
        algorithm: Algorithm::EccP256,
        policy_id: None,
        handle_blob: Some(vec![0xab, 0x01]),
        created_at: "2026-04-23T10:11:12.5+00:00".to_string(),
        metadata: "{}".to_string(),
    }
}

fn at() -> Moment {
    Moment {
        rfc3339: "2026-04-23T10:11:12+00:00".to_string(),
        stamp: "2026-04-23 10:11:12".to_string(),
    }
}

fn backend(available: bool) -> BackendStatus {
    BackendStatus {
        backend_type: "mock".to_string(),
        manufacturer: "acme".to_string(),
        firmware_version: "1.0".to_string(),
        available,
    }
}

// -- keys --

#[test]
fn keys_are_listed_in_columns() {
    let mut store = MemoryStore::new();
    assert_eq!(key::list(&store), "No keys found.\n");
    store.insert_object(object(1, "signing/long-name", ObjectKind::SigningKey)).unwrap();
    store.insert_object(object(2, "ak", ObjectKind::AttestationKey)).unwrap();
    store.insert_object(object(3, "secret/x", ObjectKind::SealedBlob)).unwrap();
    assert_eq!(
        key::list(&store),
        "PATH               ALGORITHM        CREATED\nak                 ecc-p256         2026-04-23T10:11:12\nsigning/long-name  ecc-p256         2026-04-23T10:11:12\n"
    );
}

#[test]
fn a_key_is_shown_and_exported() {
    let mut store = MemoryStore::new();
    store.insert_object(object(1, "k", ObjectKind::SigningKey)).unwrap();
    assert_eq!(
        key::show(&store, "k").unwrap(),
        "path:       k\nid:         00000000-0000-0000-0000-000000000001\nkind:       signing-key\nalgorithm:  ecc-p256\ncreated:    2026-04-23T10:11:12.5+00:00\nhandle:     present\n"
    );
    assert!(key::export_pub(&store, "k", "pem")
        .unwrap()
        .ends_with("\n\n-----BEGIN PUBLIC KEY-----\n(mock ecc-p256 public key for k)\n-----END PUBLIC KEY-----\n"));
    assert!(key::export_pub(&store, "k", "der").unwrap().ends_with("\n\n(mock DER for k)\n"));
    assert_eq!(
        key::export_pub(&store, "k", "raw").unwrap(),
        "path:       k\nalgorithm:  ecc-p256\nformat:     raw\n\nab01\n"
    );
    assert_eq!(
        key::export_pub(&store, "k", "xml").unwrap_err().message(),
        "unsupported key format: xml (use pem, der, raw)"
    );
    assert_eq!(
        key::export_pub(&store, "g", "pem").unwrap_err().message(),
        "object not found: g"
    );
}

#[test]
fn refused_keys_come_with_a_diagnosis() {
    let mut store = MemoryStore::new();
    store.insert_object(object(1, "k", ObjectKind::SigningKey)).unwrap();
    let e = key::create_check(&store, "k", "ecc-p256").unwrap_err();
    assert_eq!(e.message(), "object already exists: k");
    assert!(e.diagnosis().contains("run `tpm key show k` to inspect it"));
    assert!(e.diagnosis().contains("use a different name or delete the existing object first"));
    let e = key::create_check(&store, "k k", "ecc-p256").unwrap_err();
    assert!(e.diagnosis().contains("error[TPM0003]"));
    let e = key::create_check(&store, "n", "des").unwrap_err();
    assert_eq!(e.message(), "unknown algorithm: des");
    let e = key::show(&store, "g").unwrap_err();
    assert!(e.diagnosis().contains("run `tpm key list` to see available keys"));
    let e = key::delete(&mut store, "g").unwrap_err();
    assert_eq!(e.message(), "object not found: g");
    let mut bare = object(2, "bare", ObjectKind::SigningKey);
    bare.handle_blob = None;
    store.insert_object(bare).unwrap();
    assert_eq!(key::sign_key(&store, "bare").unwrap_err().message(), "key has no handle: bare");
    assert_eq!(key::sign_key(&store, "g").unwrap_err().message(), "object not found: g");
}

#[test]
fn created_keys_are_logged_and_printed() {
    let mut store = MemoryStore::new();
    let text = key::create_at(&mut store, path("k"), Algorithm::Rsa3072, vec![1], 9, &at()).unwrap();
    assert_eq!(
        text,
        "key created: k\n  algorithm: rsa3072\n  id: 00000000-0000-0000-0000-000000000009\n"
    );
    let entry = store.list_audit_log(None, None, 1);
    assert_eq!(entry[0].details, "{\"algorithm\":\"rsa3072\"}");
    assert_eq!(entry[0].object_path, Some("k".to_string()));
    let again = key::create(&mut store, path("k"), Algorithm::EccP256, vec![]).unwrap_err();
    assert_eq!(again.message(), "UNIQUE constraint failed: objects.path");
}

// -- objects --

#[test]
fn objects_are_listed_and_drawn() {
    let mut store = MemoryStore::new();
    assert_eq!(object::list(&store), "No objects in workspace.\n");
    assert_eq!(object::tree(&store), "workspace\n  (empty)\n");
    store.insert_object(object(1, "k1", ObjectKind::SigningKey)).unwrap();
    store.insert_object(object(2, "k2", ObjectKind::StorageKey)).unwrap();
    let mut sealed = object(3, "s", ObjectKind::SealedBlob);
    sealed.policy_id = Some(4);
    store.insert_object(sealed).unwrap();
    store.insert_policy(Policy { id: 4, name: "boot".to_string(), rules: vec![] });
    assert_eq!(
        object::list(&store),
        "PATH  KIND         ALGORITHM        POLICY    CREATED\nk1  signing-key  ecc-p256         no        2026-04-23T10:11:12\nk2  storage-key  ecc-p256         no        2026-04-23T10:11:12\ns   sealed-blob  ecc-p256         yes       2026-04-23T10:11:12\n"
    );
    assert_eq!(
        object::tree(&store),
        "workspace\n  keys/\n    ├── k1\n    └── k2\n  secrets/\n    └── s\n  policies/\n    └── boot\n"
    );
}

// -- secrets --

#[test]
fn secrets_are_sealed_and_listed() {
    let mut store = MemoryStore::new();
    store.insert_policy(Policy { id: 0x0102, name: "boot".to_string(), rules: vec![] });
    let p = secret::seal_check(&store, "db/password").unwrap();
    let policy = secret::seal_policy(&store, Some("boot")).unwrap();
    assert_eq!(policy, Some(0x0102));
    assert_eq!(
        secret::seal_digest(policy).unwrap(),
        vec![0, 0, 0, 0, 0, 0, 0, 0, 0, 0, 0, 0, 0, 0, 1, 2]
    );
    assert_eq!(secret::seal_digest(None), None);
    let text =
        secret::seal_at(&mut store, p, policy, b"{}".to_vec(), 30, "pw.txt", 5, &at()).unwrap();
    assert_eq!(
        text,
        "secret sealed: db/password\n  id: 00000000-0000-0000-0000-000000000005\n  size: 30 bytes\n  policy: yes\n"
    );
    assert_eq!(
        store.list_objects()[0].metadata,
        "{\"input\":\"pw.txt\",\"original_size\":30}"
    );
    store.insert_object(object(6, "odd", ObjectKind::SealedBlob)).unwrap();
    assert_eq!(
        secret::list(&store),
        "PATH         SIZE        POLICY    CREATED\ndb/password  30 B        yes       2026-04-23T10:11:12\nodd          ?           no        2026-04-23T10:11:12\n"
    );
    assert_eq!(
        secret::seal_check(&store, "odd").unwrap_err().message(),
        "object already exists: odd"
    );
    assert_eq!(
        secret::seal_policy(&store, Some("g")).unwrap_err().message(),
        "policy not found: g"
    );
}

#[test]
fn secrets_are_unsealed() {
    let mut store = MemoryStore::new();
    store.insert_object(object(1, "s", ObjectKind::SealedBlob)).unwrap();
    store.insert_object(object(2, "k", ObjectKind::SigningKey)).unwrap();
    assert_eq!(secret::unseal_check(&store, "s").unwrap(), vec![0xab, 0x01]);
    assert_eq!(
        secret::unseal_check(&store, "k").unwrap_err().message(),
        "object 'k' is not a sealed secret (it is a signing-key)"
    );
    let e = secret::unseal_check(&store, "g").unwrap_err();
    assert_eq!(e.message(), "secret not found: g");
    assert!(e.diagnosis().contains("tpm secret list"));
    assert_eq!(
        secret::unseal_at(&mut store, "s", &b"hush".to_vec(), None, "t"),
        "unsealed: s\n  size: 4 bytes\n  content: hush\n"
    );
    assert_eq!(
        secret::unseal_at(&mut store, "s", &vec![0xff, 0xfe], None, "t"),
        "unsealed: s\n  size: 2 bytes\n"
    );
    assert_eq!(
        secret::unseal(&mut store, "s", &b"hush".to_vec(), Some("/out")),
        "unsealed: s\n  size: 4 bytes\n  written to: /out\n"
    );
    let long = vec![b'a'; 201];
    assert_eq!(
        secret::unseal_at(&mut store, "s", &long, None, "t"),
        format!("unsealed: s\n  size: 201 bytes\n  content: {}...\n", "a".repeat(200))
    );
    let exact = vec![b'a'; 200];
    assert!(secret::unseal_at(&mut store, "s", &exact, None, "t").ends_with("aa\n"));
}

// -- NV indices --

#[test]
fn nv_data_is_written_read_and_printed() {
    let mut store = MemoryStore::new();
    assert_eq!(nv::list(&store), "No NV indices defined.\n");
    assert_eq!(
        nv::define_at(&mut store, "cfg", 0x0100_00AB, 8, "t"),
        "NV index defined: cfg\n  index: 0x010000AB\n  size:  8 bytes\n"
    );
    assert_eq!(
        store.list_audit_log(None, None, 1)[0].details,
        "{\"index\":\"0x010000AB\",\"name\":\"cfg\",\"size\":8}"
    );
    assert_eq!(
        nv::read(&store, "cfg").unwrap_err().message(),
        "NV index 'cfg' has not been written"
    );
    assert_eq!(
        nv::write_at(&mut store, "cfg", vec![0; 9], "t").unwrap_err().message(),
        "data (9 bytes) exceeds NV index size (8 bytes)"
    );
    assert_eq!(
        nv::write_at(&mut store, "cfg", b"hi".to_vec(), "t").unwrap(),
        "written 2 bytes to NV index: cfg\n"
    );
    let (index, data) = nv::read(&store, "cfg").unwrap();
    assert_eq!(
        nv::read_report("cfg", index, &data),
        "NV index: cfg (0x010000AB)\n  size: 2 bytes\n  text: hi\n  hex:  6869\n"
    );
    assert_eq!(
        nv::read_report("cfg", index, &vec![0xff]),
        "NV index: cfg (0x010000AB)\n  size: 1 bytes\n  hex:  ff\n"
    );
    assert_eq!(
        nv::read_to_file("cfg", 2, "/o"),
        "read 2 bytes from NV index 'cfg' to /o\n"
    );
    assert_eq!(nv::list(&store), "NAME  INDEX           SIZE\ncfg  0x010000AB      8 B\n");
    assert_eq!(nv::delete_check(&store, "cfg").unwrap(), 0x0100_00AB);
    assert_eq!(nv::delete(&mut store, "cfg"), "NV index deleted: cfg\n");
    assert_eq!(nv::delete_check(&store, "cfg").unwrap_err().message(), "NV index not found: cfg");
    assert_eq!(nv::write_check(&store, "cfg").unwrap_err().message(), "NV index not found: cfg");
}

// -- the state at a glance --

#[test]
fn health_is_scored() {
    let mut store = MemoryStore::new();
    let (_, h) = status::run(&store, &backend(true));
    assert_eq!((h.score, h.posture.as_str()), (90, "healthy"));
    assert_eq!(h.issues, vec!["no active profile set"]);
    let mut bare = object(1, "k", ObjectKind::SigningKey);
    bare.handle_blob = None;
    bare.policy_id = Some(77);
    store.insert_object(bare).unwrap();
    let (_, h) = status::run(&store, &backend(false));
    assert_eq!((h.score, h.posture.as_str()), (25, "critical"));
    assert_eq!(
        h.issues,
        vec![
            "TPM backend unavailable",
            "no active profile set",
            "1 key(s) missing handle blobs",
            "1 object(s) reference deleted policies",
        ]
    );
    store.insert_profile(Profile::builtin_default());
    let (text, h) = status::run(&store, &backend(true));
    assert_eq!((h.score, h.posture.as_str()), (75, "degraded"));
    assert_eq!(
        text,
        "TPM Status\n  backend:      mock\n  manufacturer: acme\n  firmware:     1.0\n  available:    yes\n\nWorkspace\n  objects:  1\n  keys:     1\n  secrets:  0\n  policies: 0\n  profile:  default\n\nHealth: degraded (75/100)\n  - 1 key(s) missing handle blobs\n  - 1 object(s) reference deleted policies\n"
    );
}

#[test]
fn a_workspace_is_set_up_once() {
    let mut store = MemoryStore::new();
    assert_eq!(
        init::run(&mut store, &backend(true), "/s.db", Some("ci")),
        "workspace initialized\n  store:   /s.db\n  backend: mock\n  profile: ci\n"
    );
    assert_eq!(store.list_audit_log(None, None, 1)[0].details, "{\"profile\":\"ci\"}");
    assert_eq!(
        init::run_at(&mut store, &backend(true), "/s.db", None, "t"),
        "workspace already initialized\n  store:   /s.db\n  backend: mock\n  profile: ci\n"
    );
    assert_eq!(store.list_profiles().len(), 1);
}

#[test]
fn the_doctor_reports() {
    let (text, diagnosis) = doctor::run(&Ok(backend(true)), &Ok(3), &Ok(None));
    assert_eq!(
        text,
        "Doctor Report\n\n  [ok] TPM backend reachable - mock (acme)\n  [ok] Metadata store accessible - 3 objects\n  [ok] Active profile - (none set)\n\nOverall: healthy\n"
    );
    assert!(diagnosis.is_none());
    let (text, diagnosis) =
        doctor::run(&Ok(backend(false)), &Err("locked".to_string()), &Ok(Some("ci".to_string())));
    assert!(text.contains("[FAIL] TPM backend reachable - backend reports unavailable"));
    assert!(text.contains("[FAIL] Metadata store accessible - locked"));
    assert!(text.ends_with("Overall: issues found\n"));
    assert!(diagnosis.unwrap().contains("tpm repair scan"));
    let (text, _) = doctor::run(&Err("gone".to_string()), &Ok(0), &Err("odd".to_string()));
    assert!(text.contains("[FAIL] TPM backend reachable - gone"));
    assert!(text.contains("[FAIL] Active profile - odd"));
}

#[test]
fn capabilities_are_printed() {
    let text = capabilities::run(&backend(false));
    assert!(text.starts_with("TPM Capabilities\n\n  backend:     mock\n"));
    assert!(text.contains("  available:    no\n\n  algorithms:\n    - ecc-p256\n    - ecc-p384\n"));
    assert!(text.ends_with("  max NV size:          2048 bytes\n  max persistent handles: 7\n"));
}

#[test]
fn the_bundle_tells_no_secret() {
    let mut store = MemoryStore::new();
    store.insert_object(object(1, "k", ObjectKind::SigningKey)).unwrap();
    store.insert_policy(Policy {
        id: 2,
        name: "p".to_string(),
        rules: vec![PolicyRule::Password],
    });
    store.insert_profile(Profile::builtin_default());
    for _ in 0..60 {
        store.log_action("x", None, "{}");
    }
    let b = capabilities::debug_bundle(&store);
    assert_eq!(b.objects[0].path, "k");
    assert!(b.objects[0].has_handle && !b.objects[0].has_policy);
    assert_eq!(b.policies[0].rule_count, 1);
    assert!(b.profiles[0].active);
    assert_eq!(b.recent_log.len(), 50);
    assert_eq!(b.recent_log[0].id, 60);
    assert_eq!(
        capabilities::bundle_report("/b.json", &b),
        "debug bundle written to: /b.json\n  objects:  1\n  policies: 1\n  log:      50 entries\n"
    );
}

#[test]
fn the_log_is_printed() {
    let mut store = MemoryStore::new();
    assert_eq!(log::list(&store, None, None, 5), "No audit log entries.\n");
    store.log_action_at("key.create", Some("k"), "{}", "2026-04-23 10:11:12");
    store.log_action_at("x", None, "{}", "2026-04-23T10:11:13Z");
    assert_eq!(
        log::list(&store, None, None, 5),
        "  2026-04-23T10:11:13    2  x                   \n  2026-04-23 10:11:12    1  key.create            k\n"
    );
    assert_eq!(
        log::list(&store, Some("k"), None, 5),
        "  2026-04-23 10:11:12    1  key.create            k\n"
    );
}

// -- help --

#[test]
fn concepts_are_explained_in_any_case() {
    assert!(explain::run("PCRs").unwrap().starts_with("Platform Configuration Registers (PCRs)\n"));
    assert!(explain::run("Lockout").unwrap().starts_with("Dictionary Attack Protection"));
    assert!(explain::run("quote").unwrap().contains("a signed statement of PCR values."));
    assert!(explain::run("dance")
        .unwrap_err()
        .starts_with("unknown concept: 'dance'\n\navailable topics:\n  pcr,"));
}

#[test]
fn templates_are_listed_and_shown() {
    let text = template::list();
    assert!(text.starts_with("NAME             KIND     DESCRIPTION\nsigning-key      key      General"));
    assert_eq!(text.lines().count(), 9);
    assert_eq!(
        template::show("boot-policy").unwrap(),
        "template: boot-policy\n  kind:        policy\n  description: PCR policy for boot integrity (PCR 0, 7)\n\n  example:\n    $ tpm policy create boot-policy --pcr 0,7\n"
    );
    assert!(template::show("ci-signer").unwrap().contains("  algorithm:   ecc-p256\n"));
    assert_eq!(
        template::show("x").unwrap_err().message(),
        "template not found: x\nrun `tpm template list` to see available templates"
    );
}

#[test]
fn playbooks_are_listed_and_shown() {
    let text = recover::list();
    assert!(text.starts_with("Recovery playbooks:\n\n  tpm-cleared          Recover after TPM clear/reset\n"));
    assert!(text.ends_with("\nrun `tpm recover show <name>` for detailed steps\n"));
    let text = recover::show("handle-mismatch").unwrap();
    assert!(text.contains("steps:\n  1. run `tpm repair scan` to identify mismatched handles\n  2."));
    assert!(!text.contains("warning:"));
    assert!(recover::show("boot-change").unwrap().contains("\nwarning: If you cannot unseal"));
    assert_eq!(
        recover::show("x").unwrap_err().message(),
        "playbook not found: 'x'\nrun `tpm recover list` to see available playbooks"
    );
}

#[test]
fn plans_are_shown() {
    let actions = vec![PlannedAction {
        action: "key.create".to_string(),
        target: Some("k".to_string()),
        details: vec![Detail { key: "alg".to_string(), value: "ecc-p256".to_string() }],
        risk: Risk::Low,
        reversible: true,
    }];
    assert_eq!(
        show_plan(&actions),
        "plan: 1 action(s) would be performed\n\n  1. key.create\n     target:     k\n     alg:       ecc-p256\n     risk:       low\n     reversible: yes\n\nno changes made (--plan mode)\n"
    );
    assert_eq!(
        diff_cmd("m.yaml", &actions),
        "diff: 1 action(s) required to match m.yaml\n\n  - key.create\n    target: k\n    risk: low  reversible: yes\n"
    );
    assert_eq!(
        diff_cmd("m.yaml", &vec![]),
        "no drift (workspace matches manifest m.yaml)\n"
    );
}

#[test]
fn manifests_are_checked_and_reported() {
    assert!(load_manifest("m.yaml", &Ok(vec![])).is_ok());
    let e = load_manifest("m.yaml", &Err("line 1".to_string())).unwrap_err();
    assert_eq!(e.message(), "manifest parse error in m.yaml: line 1");
    let e = load_manifest("m.yaml", &Ok(vec!["bad".to_string()])).unwrap_err();
    assert_eq!(e.message(), "1 validation error(s)");
    assert_eq!(e.diagnosis(), "manifest validation errors in m.yaml:\n  bad\n");
    let mut out = ApplyOutput {
        correlation_id: "c".to_string(),
        created: vec![],
        updated: vec![],
        warnings: vec![],
        errors: vec![],
    };
    assert_eq!(
        out.render_text(),
        "apply complete (correlation_id: c)\n\nno changes (workspace matches manifest)\n"
    );
    out.created.push("a".to_string());
    out.errors.push("e".to_string());
    assert_eq!(
        out.render_text(),
        "apply complete (correlation_id: c)\n\ncreated:\n  + a\n\nerrors:\n  x e\n"
    );
}

#[test]
fn the_simulator_is_described() {
    assert!(simulator::start_check(false, false)
        .unwrap_err()
        .message()
        .starts_with("swtpm is not installed.\nInstall it"));
    let step = simulator::start_check(true, true).unwrap();
    assert_eq!(simulator::start(step, "/s", "/d"), "swtpm already running at /s\n");
    let step = simulator::start_check(true, false).unwrap();
    assert_eq!(
        simulator::start(step, "/s", "/d"),
        "swtpm simulator started\n  socket: /s\n  state:  /d\n\nuse with: tpm --backend swtpm <command>\n"
    );
    assert_eq!(simulator::stop(true), "swtpm stopped\n");
    assert_eq!(simulator::stop(false), "swtpm is not running\n");
    assert_eq!(
        simulator::status(true, false, "/s", "/d"),
        "swtpm simulator\n  installed: yes\n  running:   no\n  socket:    /s\n  state:     /d\n"
    );
}

#[test]
fn the_control_plane_is_asked() {
    assert_eq!(
        cluster::run(ClusterQuery::Nodes, "http://h:1//"),
        "http://h:1/v1/nodes"
    );
    assert_eq!(cluster::run(ClusterQuery::Metrics, "http://h"), "http://h/metrics");
    assert_eq!(cluster::run(ClusterQuery::Status, ""), "/v1/mesh/health");
    assert_eq!(answer("x"), "x\n");
    assert_eq!(answer("x\n"), "x\n");
    assert_eq!(answer(""), "\n");
}

// -- the command line --

#[test]
fn commands_are_constrained() {
    let c = check_constraints(&Command::Key(KeyCommand::Create {
        path: "k".to_string(),
        algorithm: "ecc-p256".to_string(),
        policy: None,
    }))
    .unwrap();
    assert_eq!((c.operation, c.path.as_str()), ("key.create", "k"));
    let refused = |o, p, a| hold_to_constraints(&c, o, p, a).map_err(|e| e.message().to_string());
    assert_eq!(refused(Some("o"), Some("p"), Some("a")), Err("o".to_string()));
    assert_eq!(refused(None, Some("p"), Some("a")), Err("p".to_string()));
    assert_eq!(refused(None, None, Some("a")), Err("a".to_string()));
    assert_eq!(refused(None, None, None), Ok(()));
    assert_eq!(c.algorithm, Some("ecc-p256".to_string()));
    let c = check_constraints(&Command::Secret(SecretCommand::Seal {
        name: "s".to_string(),
        input: "i".to_string(),
        policy: None,
    }))
    .unwrap();
    assert!(hold_to_constraints(&c, None, None, Some("a")).is_ok());
    assert_eq!((c.operation, c.path.as_str(), c.algorithm), ("secret.seal", "s", None));
    assert!(check_constraints(&Command::Status).is_none());
    assert!(check_constraints(&Command::Key(KeyCommand::List)).is_none());
}

#[test]
fn backends_are_named() {
    assert_eq!(create_backend("auto", false, false).unwrap(), BackendChoice::Auto);
    assert_eq!(create_backend("mock", false, false).unwrap(), BackendChoice::Mock);
    assert_eq!(create_backend("device", true, false).unwrap(), BackendChoice::Device);
    assert_eq!(create_backend("vtpm", false, true).unwrap(), BackendChoice::Vtpm);
    assert!(create_backend("device", false, true)
        .unwrap_err()
        .message()
        .starts_with("hardware TPM backend not available: rebuild with --features tpm-hw\n"));
    assert!(create_backend("swtpm", false, true)
        .unwrap_err()
        .message()
        .starts_with("swtpm backend not available"));
    assert!(create_backend("vtpm", true, false)
        .unwrap_err()
        .message()
        .starts_with("vTPM backend not available"));
    assert_eq!(
        create_backend("x", true, true).unwrap_err().message(),
        "unknown backend: 'x'\navailable backends: auto, mock, device, swtpm, vtpm"
    );
}

#[test]
fn the_best_backend_that_works_is_used() {
    let status = |available| BackendStatus {
        backend_type: "t".to_string(),
        manufacturer: "m".to_string(),
        firmware_version: "1".to_string(),
        available,
    };
    let (up, down) = (status(true), status(false));
    let here = Some(ComponentPlace::Here);
    let best = auto_detect_backend;
    assert_eq!(best(true, Some(&up), true, Some(&up), here), BackendChoice::Device);
    assert_eq!(best(false, Some(&up), true, Some(&up), here), BackendChoice::Swtpm);
    assert_eq!(best(true, Some(&down), true, Some(&up), here), BackendChoice::Swtpm);
    assert_eq!(best(true, None, false, Some(&up), here), BackendChoice::Vtpm);
    assert_eq!(best(true, None, true, Some(&down), None), BackendChoice::Mock);
    assert!(!should_probe(false, false, false, false, false));
    assert!(should_probe(false, false, true, false, false));
    assert!(should_probe(false, false, false, false, true));
}

#[test]
fn the_component_of_the_virtual_tpm_is_found() {
    let named = vtpm_component(Some("/x.wasm"), Some("/home/a"), true, true).unwrap();
    assert_eq!(named, vec!["/x.wasm"]);
    let here = vtpm_component(None, Some("/home/a"), true, true).unwrap();
    assert_eq!(here, vec!["tpm-ephemeral.component.wasm"]);
    let below = vtpm_component(None, Some("/home/a"), false, true).unwrap();
    assert_eq!(below, vec!["/home/a", ".local/share/tpm/tpm-ephemeral.component.wasm"]);
    assert_eq!(vtpm_component(None, None, false, true).unwrap()[0], ".");
    assert_eq!(
        vtpm_component(None, Some("/home/a"), false, false).unwrap_err().message(),
        "vTPM WASM component not found.\nSet TPM_VTPM_COMPONENT to the path of tpm-ephemeral.component.wasm\nor place it in ~/.local/share/tpm/"
    );
    let found = |exists, starts| Found { exists, starts };
    assert_eq!(
        detect_vtpm(true, &vec![found(true, false), found(true, true), found(true, true)]),
        Some(ComponentPlace::Home)
    );
    assert_eq!(
        detect_vtpm(false, &vec![found(false, true), found(true, true)]),
        Some(ComponentPlace::Here)
    );
    assert_eq!(detect_vtpm(false, &vec![found(false, false), found(true, false)]), None);
}

#[test]
fn shells_and_formats_are_named() {
    assert_eq!(generate_completions("PwSh").unwrap(), ShellName::PowerShell);
    assert_eq!(generate_completions("bash").unwrap(), ShellName::Bash);
    assert_eq!(
        generate_completions("TCSH").unwrap_err().message(),
        "unknown shell: 'tcsh'\navailable: bash, zsh, fish, elvish, powershell"
    );
    assert_eq!(parse_output_format("yaml").unwrap(), OutputFormat::Yaml);
    assert_eq!(
        parse_output_format("xml").unwrap_err().message(),
        "unknown output format: xml"
    );
    assert_eq!(effective_format(true, OutputFormat::Text), OutputFormat::Json);
    assert_eq!(effective_format(false, OutputFormat::Yaml), OutputFormat::Yaml);
}

#[test]
fn the_daemon_is_spoken_of() {
    assert_eq!(
        daemon_run("h:1"),
        "starting tpmd on h:1...\nuse the tpmd binary directly for the daemon process:\n  TPMD_LISTEN=h:1 tpmd\n"
    );
    assert_eq!(daemon_status("h:1", true), "daemon reachable at h:1\n");
    assert_eq!(daemon_status("h:1", false), "daemon not reachable at h:1\n");
    assert_eq!(default_store_path(None, Some("/h")).last().unwrap(), "tpm.db");
}

// -- snapshots --

fn full_store() -> MemoryStore {
    let mut store = MemoryStore::new();
    store.insert_profile(Profile {
        name: "ci".to_string(),
        default_algorithm: Algorithm::Rsa2048,
        default_policy: None,
        is_active: true,
    });
    store.insert_policy(Policy {
        id: 50,
        name: "boot".to_string(),
        rules: vec![PolicyRule::PcrMatch { bank: "sha256".to_string(), indices: vec![7] }],
    });
    let mut k = object(60, "signing/release", ObjectKind::SigningKey);
    k.policy_id = Some(50);
    store.insert_object(k).unwrap();
    store.insert_object(object(61, "secret/x", ObjectKind::SealedBlob)).unwrap();
    store.insert_nv_index("cfg", 0x0100_00AB, 16);
    store.save_pcr_baseline("base", "sha256", "[]");
    store
        .insert_identity(Identity {
            id: 70,
            name: "release".to_string(),
            key_object_id: 60,
            policy_id: Some(50),
            usage: IdentityUsage::CodeSigning,
            subject: Some("CN=R".to_string()),
            certificate_pem: None,
            created_at: "2026-04-23T10:11:12+00:00".to_string(),
            rotated_from: Some(59),
        })
        .unwrap();
    store
}

fn import_all(store: &mut MemoryStore, w: &WorkspaceSnapshot) -> ImportReport {
    let (mut report, mut next) = import_start(store, "/snap.json", w).unwrap();
    while let ImportNext::Create { index, path, kind, algorithm } = next {
        next = import_next(store, &mut report, w, index, path, kind, algorithm, vec![42]);
    }
    report
}

#[test]
fn an_import_asks_for_one_key_at_a_time() {
    let mut w = export(&full_store());
    let mut store = MemoryStore::new();
    let (mut report, next) = import_start(&mut store, "/s", &w).unwrap();
    assert_eq!((report.profiles_imported, report.policies_imported), (1, 1));
    assert_eq!((report.keys_imported, report.nv_imported), (0, 0));
    let ImportNext::Create { index, path, kind, algorithm } = next else { panic!("no key") };
    assert_eq!(path.as_str(), "signing/release");
    let next = import_next(&mut store, &mut report, &w, index, path, kind, algorithm, vec![42]);
    assert!(matches!(next, ImportNext::Finish));
    assert_eq!((report.keys_imported, report.nv_imported, report.identities_imported), (1, 1, 1));
    let (_, next) = import_start(&mut store, "/s", &w).unwrap();
    assert!(matches!(next, ImportNext::Finish));
    w.version = 3;
    assert_eq!(
        import_start(&mut store, "/s", &w).unwrap_err().message(),
        "[TPM0803] unsupported workspace snapshot version: 3 (expected 1 or 2)"
    );
}

#[test]
fn an_export_is_restored_by_an_import() {
    let original = full_store();
    let w = export(&original);
    assert_eq!(w.version, 2);
    assert_eq!(w.pcr_baselines, vec!["base"]);
    assert_eq!(w.nv_indices[0].index, "0x010000AB");
    assert_eq!(
        export_report("/snap.json", &w),
        "workspace exported to: /snap.json\n  objects:    2\n  policies:   1\n  profiles:   1\n  identities: 1\n"
    );
    let mut store = MemoryStore::new();
    let report = import_all(&mut store, &w);
    assert_eq!(report.keys_imported, 1);
    assert!(report.warnings.is_empty());
    let k = store.get_object(&path("signing/release")).unwrap();
    assert_eq!((k.id, k.policy_id), (60, Some(50)));
    assert_eq!(k.handle_blob, Some(vec![42]));
    let p = store.get_policy("boot").unwrap();
    assert_eq!(p.id, 50);
    assert!(matches!(&p.rules[0], PolicyRule::PcrMatch { indices, .. } if indices == &vec![7]));
    assert_eq!(store.get_nv_index("cfg"), Some((0x0100_00AB, 16)));
    let i = store.get_identity("release").unwrap();
    assert_eq!((i.id, i.key_object_id, i.policy_id, i.rotated_from), (70, 60, Some(50), Some(59)));
    let active = store.get_active_profile().unwrap();
    assert_eq!(active.default_algorithm, Algorithm::Rsa2048);
}

#[test]
fn importing_twice_imports_nothing_more() {
    let w = export(&full_store());
    let mut store = MemoryStore::new();
    import_all(&mut store, &w);
    let report = import_all(&mut store, &w);
    assert_eq!(
        (report.profiles_imported, report.policies_imported, report.keys_imported),
        (0, 0, 0)
    );
    assert_eq!((report.nv_imported, report.identities_imported), (0, 0));
    assert_eq!(
        report.warnings,
        vec![
            "[TPM0804] profile 'ci' already exists; skipped",
            "[TPM0804] policy 'boot' already exists; skipped",
            "[TPM0804] key 'signing/release' already exists; skipped",
            "[TPM0804] NV index 'cfg' already exists; skipped",
            "[TPM0804] identity 'release' already exists; skipped",
        ]
    );
    assert_eq!(store.object_count(), 1);
    let text = import_finish_at(&mut store, &report, "t");
    assert!(text.starts_with("workspace imported from: /snap.json\n  snapshot version: 2\n"));
    assert!(text.contains("\n  warnings (5):\n    - [TPM0804] profile 'ci'"));
    assert!(store.list_audit_log(None, None, 1)[0].details.contains("\"warnings\":5"));
}

#[test]
fn early_snapshots_restore_less() {
    let mut w = export(&full_store());
    w.version = 1;
    let mut store = MemoryStore::new();
    let report = import_all(&mut store, &w);
    assert_eq!(
        report.warnings,
        vec![
            "policy 'boot' present in v1 snapshot without rules; skipped",
            "identity 'release' in v1 snapshot cannot be restored (no stored UUIDs)",
        ]
    );
    assert_eq!(
        import("/s", 3).unwrap_err().message(),
        "[TPM0803] unsupported workspace snapshot version: 3 (expected 1 or 2)"
    );
}

#[test]
fn what_cannot_be_imported_is_told() {
    let mut w = export(&full_store());
    w.objects[0].kind = "SigningKey".to_string();
    w.objects[0].path = "signing/release".to_string();
    w.objects[0].algorithm = "des".to_string();
    w.nv_indices[0].index = "0xZZ".to_string();
    w.identities[0].key_object_id = "odd".to_string();
    let mut store = MemoryStore::new();
    let report = import_all(&mut store, &w);
    assert_eq!(
        report.warnings,
        vec![
            "key 'signing/release' has invalid algorithm: unknown algorithm: des",
            "NV 'cfg' has unparseable index '0xZZ'",
            "identity 'release' has unparseable key_object_id",
        ]
    );
    w.objects[0].path = "a b".to_string();
    w.identities[0].key_object_id = citadel::ids::show_id(1);
    let report = import_all(&mut store, &w);
    assert!(report.warnings.contains(&"invalid object path 'a b': invalid object path: a b".to_string()));
    assert!(report.warnings.contains(
        &"identity 'release' references missing key 00000000-0000-0000-0000-000000000001; skipped"
            .to_string()
    ));
}

#[test]
fn a_record_without_identifier_gets_a_fresh_one() {
    let mut w = export(&full_store());
    w.objects.truncate(2);
    let eo = w.objects.iter_mut().find(|o| o.kind == "signing-key").unwrap();
    eo.id = String::new();
    let mut store = MemoryStore::new();
    import_all(&mut store, &w);
    assert_ne!(store.list_objects()[0].id, 60);
    let mut other = MemoryStore::new();
    let mut report = import("/s", 2).unwrap();
    let eo = w.objects.iter().find(|o| o.kind == "signing-key").unwrap();
    match import_key_check(&other, eo) {
        KeyDecision::Create { path, kind, algorithm } => {
            import_key_at(
                &mut other,
                &mut report,
                eo,
                path,
                kind,
                algorithm,
                vec![1],
                5,
                &at(),
            );
        }
        _ => panic!("not created"),
    }
    assert_eq!(other.list_objects()[0].id, 5);
}

#[test]
fn numbers_and_kinds_in_snapshots() {
    assert_eq!(parse_nv_index("0x1F"), Some(31));
    assert_eq!(parse_nv_index("0X1f"), Some(31));
    assert_eq!(parse_nv_index("31"), Some(31));
    assert_eq!(parse_nv_index("+31"), Some(31));
    assert_eq!(parse_nv_index("0xFFFFFFFF"), Some(u32::MAX));
    assert_eq!(parse_nv_index("0x100000000"), None);
    assert_eq!(parse_nv_index("4294967296"), None);
    assert_eq!(parse_nv_index(""), None);
    assert_eq!(parse_nv_index("0x"), None);
    assert_eq!(parse_object_kind("nv-index"), Some(ObjectKind::NvIndex));
    assert_eq!(parse_object_kind("AttestationKey"), Some(ObjectKind::AttestationKey));
    assert_eq!(parse_object_kind("key"), None);
}

#[test]
fn a_workspace_is_summed_up() {
    assert_eq!(
        workspace::info(&full_store(), "/s.db"),
        "store:      /s.db\nobjects:    2\npolicies:   1\nprofiles:   1\nactive:     ci\nbaselines:  1\nNV indices: 1\n"
    );
}
