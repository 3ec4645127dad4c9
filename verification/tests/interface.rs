//! The terminal interface and the small command line.
use citadel::clock::Moment;
use citadel::model::{
    Algorithm, BackendStatus, ObjectKind, ObjectPath, Policy, PolicyRule, Profile, TpmObject,
};
use citadel::output::OutputFormat;
use citadel::store::MemoryStore;
use citadel::tui::event::{
    key_to_action, key_to_confirm_action, key_to_modal_action, Action, ConfirmAction, Key,
    ModalAction, Step,
};
use citadel::tui::views::{
    dashboard, entry_row, modal, object_detail, object_row, policy_row, Tone,
};
use citadel::tui::{App, Modal, Screen};
use citadel::wasi;
use citadel::wasi::WasiCommand;

fn status(available: bool) -> BackendStatus {
    BackendStatus {
        backend_type: "mock".to_string(),
        manufacturer: "acme".to_string(),
        firmware_version: "1.0".to_string(),
        available,
    }
}

fn object(id: u128, path: &str) -> TpmObject {
    TpmObject {
        id,
        path: ObjectPath::new(path).unwrap(),
        kind: ObjectKind::SigningKey,
        algorithm: Algorithm::EccP256,
        policy_id: None,
        handle_blob: Some(vec![1]),
        created_at: "2026-04-23T12:11:12.250+02:00".to_string(),
        metadata: "{}".to_string(),
    }
}

fn at() -> Moment {
    Moment {
        rfc3339: "2026-04-23T10:11:12+00:00".to_string(),
        stamp: "2026-04-23 10:11:12".to_string(),
    }
}

fn store_with(paths: &[&str]) -> MemoryStore {
    let mut store = MemoryStore::new();
    for (i, p) in paths.iter().enumerate() {
        store.insert_object(object(i as u128, p)).unwrap();
    }
    store
}

#[test]
fn screens_follow_one_another() {
    let mut app = App::new();
    assert_eq!(app.screen, Screen::Dashboard);
    for want in [Screen::ObjectList, Screen::PolicyList, Screen::AuditLog, Screen::Dashboard] {
        app.next_screen();
        assert_eq!(app.screen, want);
    }
    assert_eq!(app.command_preview, Some("tpm status".to_string()));
}

#[test]
fn refreshing_reads_everything() {
    let mut store = store_with(&["b", "a"]);
    store.insert_policy(Policy { id: 1, name: "boot".to_string(), rules: vec![] });
    store.insert_profile(Profile::builtin_default());
    store.log_action("x", None, "{}");
    let mut app = App::new();
    assert_eq!(app.health_posture, "unknown");
    app.refresh(&store, Some(status(true)));
    assert_eq!(app.objects[0].path.as_str(), "a");
    assert_eq!(app.policies.len(), 1);
    assert_eq!(app.audit_entries.len(), 1);
    assert_eq!(app.active_profile, Some("default".to_string()));
    assert_eq!((app.health_score, app.health_posture.as_str()), (100, "healthy"));
    app.refresh(&store, None);
    assert_eq!((app.health_score, app.health_posture.as_str()), (60, "warning"));
}

#[test]
fn a_key_without_handle_lowers_the_score() {
    let mut store = MemoryStore::new();
    let mut o = object(1, "a");
    o.handle_blob = None;
    store.insert_object(o).unwrap();
    let mut app = App::new();
    app.refresh(&store, Some(status(true)));
    assert_eq!((app.health_score, app.health_posture.as_str()), (75, "degraded"));
    app.refresh(&store, None);
    assert_eq!((app.health_score, app.health_posture.as_str()), (35, "critical"));
}

#[test]
fn selection_moves_within_the_list() {
    let store = store_with(&["a", "b"]);
    let mut app = App::default();
    app.refresh(&store, None);
    app.next_screen();
    assert_eq!(app.command_preview, Some("tpm key show a".to_string()));
    app.move_up();
    assert_eq!(app.selected_index, 0);
    app.move_down();
    app.move_down();
    assert_eq!(app.selected_index, 1);
    assert_eq!(app.selected_object().unwrap().path.as_str(), "b");
    app.enter_detail();
    assert_eq!(app.screen, Screen::ObjectDetail);
    assert_eq!(app.command_preview, Some("tpm key show b --format json".to_string()));
    app.go_back();
    assert_eq!(app.screen, Screen::ObjectList);
    app.move_up();
    assert_eq!(app.selected_index, 0);
}

#[test]
fn a_path_is_typed() {
    let mut app = App::new();
    app.modal_input_char('x');
    assert!(matches!(app.modal, Modal::Closed));
    app.start_create_key();
    for c in "ab".chars() {
        app.modal_input_char(c);
    }
    app.modal_input_backspace();
    assert!(matches!(&app.modal, Modal::CreateKey { input } if input == "a"));
    app.modal_input_backspace();
    app.modal_input_backspace();
    assert!(matches!(&app.modal, Modal::CreateKey { input } if input.is_empty()));
    app.go_back();
    assert!(matches!(app.modal, Modal::Closed));
}

fn type_path(app: &mut App, text: &str) {
    app.start_create_key();
    for c in text.chars() {
        app.modal_input_char(c);
    }
}

fn message(app: &App) -> String {
    match &app.modal {
        Modal::Message { text } => text.clone(),
        other => panic!("no message: {:?}", other),
    }
}

#[test]
fn a_key_is_created_from_the_interface() {
    let mut store = MemoryStore::new();
    let mut app = App::new();
    type_path(&mut app, "  signing/x ");
    let path = app.execute_create_key_check(&store).unwrap();
    assert_eq!(path.as_str(), "signing/x");
    app.execute_create_key_at(&mut store, path, Ok(vec![3]), Some(status(true)), 4, &at());
    assert_eq!(message(&app), "key created: signing/x");
    assert_eq!(app.objects.len(), 1);
    assert_eq!(store.list_objects()[0].metadata, "{\"created_via\":\"tui\"}");
    assert_eq!(store.list_audit_log(None, None, 1)[0].action, "key.create");
}

#[test]
fn bad_paths_are_refused_in_the_interface() {
    let mut store = store_with(&["a"]);
    let mut app = App::new();
    assert!(app.execute_create_key_check(&store).is_none());
    for (typed, said) in [
        ("   ", "path cannot be empty"),
        ("a b", "invalid path: invalid object path: a b"),
        ("a", "already exists: a"),
    ] {
        type_path(&mut app, typed);
        assert!(app.execute_create_key_check(&store).is_none());
        assert_eq!(message(&app), said);
    }
    type_path(&mut app, "b");
    let path = app.execute_create_key_check(&store).unwrap();
    app.execute_create_key(&mut store, path, Err("down".to_string()), None);
    assert_eq!(message(&app), "backend error: down");
    let path = ObjectPath::new("a").unwrap();
    app.execute_create_key(&mut store, path, Ok(vec![]), None);
    assert_eq!(message(&app), "failed to store key");
    assert_eq!(store.object_count(), 1);
}

#[test]
fn deleting_keeps_the_selection_in_the_list() {
    let mut store = store_with(&["a", "b"]);
    let mut app = App::new();
    app.refresh(&store, None);
    app.next_screen();
    app.move_down();
    app.start_delete();
    assert!(matches!(&app.modal, Modal::ConfirmDelete { path } if path == "b"));
    app.execute_delete(&mut store, None);
    assert_eq!(message(&app), "deleted: b");
    assert_eq!(app.selected_index, 0);
    assert_eq!(app.objects.len(), 1);
    app.modal = Modal::ConfirmDelete { path: "b".to_string() };
    app.execute_delete(&mut store, None);
    assert_eq!(message(&app), "not found: b");
    app.modal = Modal::ConfirmDelete { path: "b b".to_string() };
    app.execute_delete_at(&mut store, None, "s");
    assert_eq!(message(&app), "error: invalid object path: b b");
}

#[test]
fn keys_ask_for_actions() {
    assert_eq!(key_to_action(Key::Char('q'), false), Action::Back);
    assert_eq!(key_to_action(Key::Char('c'), true), Action::Quit);
    assert_eq!(key_to_action(Key::Char('c'), false), Action::Nothing);
    assert_eq!(key_to_action(Key::Char('4'), false), Action::GoToAuditLog);
    assert_eq!(key_to_action(Key::Delete, false), Action::DeleteSelected);
    assert_eq!(key_to_action(Key::Backspace, false), Action::Nothing);
    assert_eq!(key_to_modal_action(Key::Char('c')), ModalAction::Input('c'));
    assert_eq!(key_to_modal_action(Key::Esc), ModalAction::Cancel);
    assert_eq!(key_to_modal_action(Key::Tab), ModalAction::Nothing);
    assert_eq!(key_to_confirm_action(Key::Char('Y')), ConfirmAction::Yes);
    assert_eq!(key_to_confirm_action(Key::Esc), ConfirmAction::No);
    assert_eq!(key_to_confirm_action(Key::Enter), ConfirmAction::Nothing);
}

#[test]
fn actions_change_the_interface() {
    let store = store_with(&["a"]);
    let mut app = App::new();
    app.refresh(&store, None);
    assert_eq!(app.run_loop(Action::GoToObjects), Step::Continue);
    assert_eq!(app.screen, Screen::ObjectList);
    assert_eq!(app.run_loop(Action::Enter), Step::Continue);
    assert_eq!(app.screen, Screen::ObjectDetail);
    assert_eq!(app.run_loop(Action::Back), Step::Continue);
    assert_eq!(app.run_loop(Action::DeleteSelected), Step::Continue);
    assert!(matches!(app.modal, Modal::ConfirmDelete { .. }));
    assert_eq!(app.run_loop(Action::Refresh), Step::Refresh);
    assert_eq!(app.run_loop(Action::Quit), Step::Quit);
    assert!(app.should_quit);
}

#[test]
fn screens_hold_what_is_known() {
    let store = store_with(&["a"]);
    let mut app = App::new();
    let (backend, _) = dashboard(&app);
    assert_eq!(backend[0][0].text, "  (unable to query backend)");
    assert_eq!(backend[0][0].tone, Tone::Bad);
    app.refresh(&store, Some(status(false)));
    let (backend, workspace) = dashboard(&app);
    assert_eq!(backend.len(), 4);
    assert_eq!((backend[3][1].text.as_str(), backend[3][1].tone), ("no", Tone::Bad));
    assert_eq!(workspace[0][1].text, "warning (50/100)");
    assert_eq!(workspace[0][1].tone, Tone::Notice);
    assert_eq!(workspace[3][1].text, "(none)");
    let detail = object_detail(&app);
    assert_eq!(detail[6][1].text, "2026-04-23 10:11:12 UTC");
    assert_eq!(detail[7][1].tone, Tone::Good);
    assert_eq!(
        object_row(&app.objects[0]),
        vec!["a", "signing-key", "ecc-p256", "2026-04-23 10:11"]
    );
}

#[test]
fn rows_and_windows_hold_what_is_known() {
    let mut store = MemoryStore::new();
    store.log_action_at("key.create", Some("a"), "{}", "2026-04-23 10:11:12");
    store.log_action_at("x", None, "{}", "short");
    let log = store.list_audit_log(None, None, 9);
    assert_eq!(entry_row(log[1]), vec!["2026-04-23 10:11:12", "key.create", "a"]);
    assert_eq!(entry_row(log[0]), vec!["short", "x", ""]);
    let policy = Policy {
        id: 1,
        name: "boot".to_string(),
        rules: vec![
            PolicyRule::PcrMatch { bank: "sha256".to_string(), indices: vec![0, 7] },
            PolicyRule::Password,
        ],
    };
    assert_eq!(policy_row(&policy), vec!["boot", "2", "pcr sha256:0,7, password"]);
    let mut app = App::new();
    assert!(modal(&app).is_none());
    type_path(&mut app, "k");
    let window = modal(&app).unwrap();
    assert_eq!((window.title, window.height), (" Create Key (ecc-p256) ", 7));
    assert_eq!(window.lines[1][1].text, "k_");
    app.modal = Modal::Message { text: "m".to_string() };
    let window = modal(&app).unwrap();
    assert_eq!((window.title, window.height), (" Info ", 5));
    assert_eq!(window.lines[1][0].text, "  m");
    assert_eq!(object_detail(&app)[0][0].text, "  (no object selected)");
}

fn words(text: &str) -> Vec<String> {
    text.split_whitespace().map(|s| s.to_string()).collect()
}

#[test]
fn flags_are_read_wherever_they_stand() {
    match wasi::parse_args(&words("key --format json list")) {
        wasi::Parsed::Run { format, words } => {
            assert_eq!(format, OutputFormat::Json);
            assert_eq!(words, vec!["key", "list"]);
        }
        other => panic!("{:?}", other),
    }
    assert!(matches!(wasi::parse_args(&words("key -h")), wasi::Parsed::Help));
    assert!(matches!(wasi::parse_args(&words("-V")), wasi::Parsed::Version));
    assert!(matches!(
        wasi::parse_args(&words("status --format odd")),
        wasi::Parsed::Run { format: OutputFormat::Text, words } if words.len() == 1
    ));
    assert!(matches!(
        wasi::parse_args(&words("status --format")),
        wasi::Parsed::Run { format: OutputFormat::Text, words } if words.len() == 1
    ));
}

#[test]
fn words_name_commands() {
    assert!(matches!(wasi::run(&words("")), WasiCommand::Help));
    assert!(matches!(wasi::run(&words("status")), WasiCommand::Status));
    assert!(matches!(wasi::run(&words("key create a/b")), WasiCommand::KeyCreate(p) if p == "a/b"));
    assert!(matches!(
        wasi::run(&words("key create")),
        WasiCommand::Usage("usage: tpm key <create|list|show|delete> [args]")
    ));
    assert!(matches!(wasi::run(&words("key")), WasiCommand::Unknown(w) if w == "key"));
    assert!(matches!(wasi::run(&words("policy create p")), WasiCommand::PolicyCreate(p) if p == "p"));
    assert!(matches!(wasi::run(&words("object tree")), WasiCommand::ObjectTree));
    assert!(matches!(wasi::run(&words("pcr show")), WasiCommand::PcrShow));
    assert!(matches!(wasi::run(&words("explain pcr")), WasiCommand::Explain(c) if c == "pcr"));
    assert!(matches!(wasi::run(&words("dance now")), WasiCommand::Unknown(w) if w == "dance"));
}

#[test]
fn small_commands_do_their_work() {
    let mut store = MemoryStore::new();
    assert_eq!(wasi::cmd_init(&mut store), "workspace initialized (in-memory)\n");
    assert_eq!(wasi::cmd_init_at(&mut store, "s"), "workspace already initialized\n");
    assert_eq!(wasi::cmd_profile_list(&store), "  default *\n");
    assert_eq!(wasi::cmd_key_list(&store), "No keys found.\n");
    let path = wasi::cmd_key_create_check(&store, "a/b").unwrap();
    assert_eq!(
        wasi::cmd_key_create_at(&mut store, path, vec![1], 1, "t").unwrap(),
        "key created: a/b\n"
    );
    assert_eq!(
        wasi::cmd_key_create_check(&store, "a/b").unwrap_err().message(),
        "object already exists: a/b"
    );
    assert_eq!(wasi::cmd_key_list(&store), "  a/b  ecc-p256  signing-key\n");
    assert_eq!(wasi::cmd_object_list(&store), "  a/b  signing-key  ecc-p256\n");
    assert_eq!(
        wasi::cmd_key_show(&store, "a/b").unwrap(),
        "path:      a/b\nid:        00000000-0000-0000-0000-000000000001\nkind:      signing-key\nalgorithm: ecc-p256\nhandle:    present\n"
    );
    assert_eq!(wasi::cmd_policy_create(&mut store, "p").unwrap(), "policy created: p\n");
    assert_eq!(
        wasi::cmd_policy_create(&mut store, "p").unwrap_err().message(),
        "policy already exists: p"
    );
    assert_eq!(wasi::cmd_policy_list(&store), "  p (0 rules)\n");
    assert_eq!(wasi::cmd_secret_list(&store), "No sealed secrets.\n");
    assert_eq!(
        wasi::cmd_object_tree(&store),
        "workspace\n  keys/\n    a/b\n  policies/\n    p\n"
    );
    assert_eq!(
        wasi::cmd_status(&store, &status(true)),
        "TPM Status\n  backend:  mock\n  available: yes\n  objects:  1\n  profile:  default\n"
    );
    assert_eq!(
        wasi::cmd_doctor(&store, &status(true)),
        "Doctor Report\n\n  [ok] TPM backend reachable (mock)\n  [ok] Store accessible (1 objects)\n\nOverall: healthy\n"
    );
    assert!(wasi::cmd_capabilities(&status(true)).ends_with("    - rsa3072\n"));
    assert!(wasi::cmd_explain("seal").starts_with("Sealing/Unsealing\n\n"));
    assert!(wasi::cmd_explain("x").starts_with("Unknown concept: x\n"));
    assert_eq!(wasi::cmd_key_delete(&mut store, "a/b").unwrap(), "key deleted: a/b\n");
    assert_eq!(
        wasi::cmd_key_delete(&mut store, "a/b").unwrap_err().message(),
        "not found: a/b"
    );
    assert_eq!(wasi::cmd_object_list(&store), "No objects in workspace.\n");
}
