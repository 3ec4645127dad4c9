//! The small command line: its arguments, and what its commands do and print.
//! It keeps its workspace in memory.
use vstd::prelude::*;
use vstd::string::*;

use crate::clock::{fresh_id, now_rfc3339, now_stamp};
use crate::commands::common::{class_list, objects_of, user_path, ObjectClass};
use crate::commands::object::{class_paths, names_of, paths_of, policy_names};
use crate::failure::Failure;
use crate::ids::{id_text, uuid_form};
use crate::json::{json_object, object0};
use crate::model::{
    valid_path, Algorithm, BackendStatus, ObjectKind, ObjectPath, ObjectView, Policy, PolicyView,
    Profile, ProfileView, TpmObject,
};
use crate::output::OutputFormat;
use crate::store::{active_profile, MemoryStore, StoreState};
use crate::table::{lookup, present, ref_rows, sorted, sorted_is_ordered, without, without_absent};
use crate::text::{
    decimal, field, framed, push_choice, push_decimal, push_field, push_number, same, views,
    yes_no,
};

verus! {

// ---------------------------------------------------------------------------
// Arguments
// ---------------------------------------------------------------------------

/// What the arguments ask for, as far as the flags tell.
#[derive(Debug)]
pub enum Parsed {
    Help,
    Version,
    Run { format: OutputFormat, words: Vec<String> },
}

pub ghost enum ParsedView {
    Help,
    Version,
    Run { format: OutputFormat, words: Seq<Seq<char>> },
}

impl View for Parsed {
    type V = ParsedView;

    open spec fn view(&self) -> ParsedView {
        match self {
            Parsed::Help => ParsedView::Help,
            Parsed::Version => ParsedView::Version,
            Parsed::Run { format, words } => ParsedView::Run {
                format: *format,
                words: views(words@),
            },
        }
    }
}

/// The format of a name, or text.
pub open spec fn format_or_text(s: Seq<char>) -> OutputFormat {
    match OutputFormat::named(s) {
        Some(f) => f,
        None => OutputFormat::Text,
    }
}

/// Reads the arguments from `i` on, after `format` and `words` were read.
pub open spec fn scanned(
    args: Seq<Seq<char>>,
    i: int,
    format: OutputFormat,
    words: Seq<Seq<char>>,
) -> ParsedView
    decreases args.len() - i,
{
    if i >= args.len() {
        ParsedView::Run { format, words }
    } else if args[i] == "--format"@ {
        if i + 1 < args.len() {
            scanned(args, i + 2, format_or_text(args[i + 1]), words)
        } else {
            ParsedView::Run { format, words }
        }
    } else if args[i] == "--help"@ || args[i] == "-h"@ {
        ParsedView::Help
    } else if args[i] == "--version"@ || args[i] == "-V"@ {
        ParsedView::Version
    } else {
        scanned(args, i + 1, format, words.push(args[i]))
    }
}

/// Reads the flags out of the arguments.
pub fn parse_args(args: &Vec<String>) -> (p: Parsed)
    ensures
        p@ == scanned(views(args@), 0, OutputFormat::Text, Seq::empty()),
{
    let ghost all = views(args@);
    let mut format = OutputFormat::Text;
    let mut words: Vec<String> = Vec::new();
    let mut i: usize = 0;
    assert(views(words@) =~= Seq::<Seq<char>>::empty());
    while i < args.len()
        invariant
            i <= args@.len() + 1,
            all == views(args@),
            scanned(all, 0, OutputFormat::Text, Seq::empty()) == scanned(
                all,
                i as int,
                format,
                views(words@),
            ),
        decreases args@.len() + 1 - i,
    {
        assert(all[i as int] == args@[i as int]@);
        let a = args[i].as_str();
        if same(a, "--format") {
            if i + 1 < args.len() {
                assert(all[i + 1] == args@[i + 1]@);
                format = match OutputFormat::parse(args[i + 1].as_str()) {
                    Some(f) => f,
                    None => OutputFormat::Text,
                };
                i += 2;
            } else {
                return Parsed::Run { format, words };
            }
        } else if same(a, "--help") || same(a, "-h") {
            return Parsed::Help;
        } else if same(a, "--version") || same(a, "-V") {
            return Parsed::Version;
        } else {
            let ghost before = views(words@);
            words.push(args[i].clone());
            assert(views(words@) =~= before.push(all[i as int]));
            i += 1;
        }
    }
    Parsed::Run { format, words }
}

/// A command.
#[derive(Debug)]
pub enum WasiCommand {
    Help,
    Status,
    Init,
    KeyCreate(String),
    KeyList,
    KeyShow(String),
    KeyDelete(String),
    SecretList,
    PolicyList,
    PolicyCreate(String),
    ObjectList,
    ObjectTree,
    ProfileList,
    PcrShow,
    Explain(String),
    Doctor,
    Capabilities,
    Usage(&'static str),
    Unknown(String),
}

pub ghost enum CommandView {
    Help,
    Status,
    Init,
    KeyCreate(Seq<char>),
    KeyList,
    KeyShow(Seq<char>),
    KeyDelete(Seq<char>),
    SecretList,
    PolicyList,
    PolicyCreate(Seq<char>),
    ObjectList,
    ObjectTree,
    ProfileList,
    PcrShow,
    Explain(Seq<char>),
    Doctor,
    Capabilities,
    Usage(Seq<char>),
    Unknown(Seq<char>),
}

impl View for WasiCommand {
    type V = CommandView;

    open spec fn view(&self) -> CommandView {
        match self {
            WasiCommand::Help => CommandView::Help,
            WasiCommand::Status => CommandView::Status,
            WasiCommand::Init => CommandView::Init,
            WasiCommand::KeyCreate(s) => CommandView::KeyCreate(s@),
            WasiCommand::KeyList => CommandView::KeyList,
            WasiCommand::KeyShow(s) => CommandView::KeyShow(s@),
            WasiCommand::KeyDelete(s) => CommandView::KeyDelete(s@),
            WasiCommand::SecretList => CommandView::SecretList,
            WasiCommand::PolicyList => CommandView::PolicyList,
            WasiCommand::PolicyCreate(s) => CommandView::PolicyCreate(s@),
            WasiCommand::ObjectList => CommandView::ObjectList,
            WasiCommand::ObjectTree => CommandView::ObjectTree,
            WasiCommand::ProfileList => CommandView::ProfileList,
            WasiCommand::PcrShow => CommandView::PcrShow,
            WasiCommand::Explain(s) => CommandView::Explain(s@),
            WasiCommand::Doctor => CommandView::Doctor,
            WasiCommand::Capabilities => CommandView::Capabilities,
            WasiCommand::Usage(s) => CommandView::Usage(s@),
            WasiCommand::Unknown(s) => CommandView::Unknown(s@),
        }
    }
}

/// The command under `key`.
pub open spec fn key_command(words: Seq<Seq<char>>) -> CommandView {
    if words[1] == "create"@ && words.len() > 2 {
        CommandView::KeyCreate(words[2])
    } else if words[1] == "list"@ {
        CommandView::KeyList
    } else if words[1] == "show"@ && words.len() > 2 {
        CommandView::KeyShow(words[2])
    } else if words[1] == "delete"@ && words.len() > 2 {
        CommandView::KeyDelete(words[2])
    } else {
        CommandView::Usage("usage: tpm key <create|list|show|delete> [args]"@)
    }
}

/// The command that the words name.
pub open spec fn command_of(words: Seq<Seq<char>>) -> CommandView {
    if words.len() == 0 {
        CommandView::Help
    } else if words[0] == "status"@ {
        CommandView::Status
    } else if words[0] == "init"@ {
        CommandView::Init
    } else if words[0] == "doctor"@ {
        CommandView::Doctor
    } else if words[0] == "capabilities"@ {
        CommandView::Capabilities
    } else if words.len() == 1 {
        CommandView::Unknown(words[0])
    } else if words[0] == "key"@ {
        key_command(words)
    } else if words[0] == "secret"@ {
        if words[1] == "list"@ {
            CommandView::SecretList
        } else {
            CommandView::Usage("usage: tpm secret <seal|unseal|list>"@)
        }
    } else if words[0] == "policy"@ {
        if words[1] == "list"@ {
            CommandView::PolicyList
        } else if words[1] == "create"@ && words.len() > 2 {
            CommandView::PolicyCreate(words[2])
        } else {
            CommandView::Usage("usage: tpm policy <create|list|show|delete>"@)
        }
    } else if words[0] == "object"@ {
        if words[1] == "list"@ {
            CommandView::ObjectList
        } else if words[1] == "tree"@ {
            CommandView::ObjectTree
        } else {
            CommandView::Usage("usage: tpm object <list|tree>"@)
        }
    } else if words[0] == "profile"@ {
        if words[1] == "list"@ {
            CommandView::ProfileList
        } else {
            CommandView::Usage("usage: tpm profile <list|show|set>"@)
        }
    } else if words[0] == "pcr"@ {
        if words[1] == "show"@ {
            CommandView::PcrShow
        } else {
            CommandView::Usage("usage: tpm pcr <show|baseline>"@)
        }
    } else if words[0] == "explain"@ {
        CommandView::Explain(words[1])
    } else {
        CommandView::Unknown(words[0])
    }
}

fn read_key_command(words: &Vec<String>) -> (c: WasiCommand)
    requires
        words@.len() > 1,
    ensures
        c@ == key_command(views(words@)),
{
    let n: usize = words.len();
    assert(views(words@).len() == n);
    assert(views(words@)[1] == words@[1]@);
    assert(n > 2 ==> views(words@)[2] == words@[2]@);
    let w = words[1].as_str();
    if same(w, "create") && n > 2 {
        WasiCommand::KeyCreate(words[2].clone())
    } else if same(w, "list") {
        WasiCommand::KeyList
    } else if same(w, "show") && n > 2 {
        WasiCommand::KeyShow(words[2].clone())
    } else if same(w, "delete") && n > 2 {
        WasiCommand::KeyDelete(words[2].clone())
    } else {
        WasiCommand::Usage("usage: tpm key <create|list|show|delete> [args]")
    }
}

/// Finds the command that the words name.
pub fn run(words: &Vec<String>) -> (c: WasiCommand)
    ensures
        c@ == command_of(views(words@)),
{
    let n: usize = words.len();
    assert(views(words@).len() == n);
    if n == 0 {
        return WasiCommand::Help;
    }
    assert(views(words@)[0] == words@[0]@);
    let w = words[0].as_str();
    if same(w, "status") {
        return WasiCommand::Status;
    }
    if same(w, "init") {
        return WasiCommand::Init;
    }
    if same(w, "doctor") {
        return WasiCommand::Doctor;
    }
    if same(w, "capabilities") {
        return WasiCommand::Capabilities;
    }
    if n == 1 {
        return WasiCommand::Unknown(words[0].clone());
    }
    assert(views(words@)[1] == words@[1]@);
    assert(n > 2 ==> views(words@)[2] == words@[2]@);
    let v = words[1].as_str();
    if same(w, "key") {
        read_key_command(words)
    } else if same(w, "secret") {
        if same(v, "list") {
            WasiCommand::SecretList
        } else {
            WasiCommand::Usage("usage: tpm secret <seal|unseal|list>")
        }
    } else if same(w, "policy") {
        if same(v, "list") {
            WasiCommand::PolicyList
        } else if same(v, "create") && n > 2 {
            WasiCommand::PolicyCreate(words[2].clone())
        } else {
            WasiCommand::Usage("usage: tpm policy <create|list|show|delete>")
        }
    } else if same(w, "object") {
        if same(v, "list") {
            WasiCommand::ObjectList
        } else if same(v, "tree") {
            WasiCommand::ObjectTree
        } else {
            WasiCommand::Usage("usage: tpm object <list|tree>")
        }
    } else if same(w, "profile") {
        if same(v, "list") {
            WasiCommand::ProfileList
        } else {
            WasiCommand::Usage("usage: tpm profile <list|show|set>")
        }
    } else if same(w, "pcr") {
        if same(v, "show") {
            WasiCommand::PcrShow
        } else {
            WasiCommand::Usage("usage: tpm pcr <show|baseline>")
        }
    } else if same(w, "explain") {
        WasiCommand::Explain(words[1].clone())
    } else {
        WasiCommand::Unknown(words[0].clone())
    }
}

// ---------------------------------------------------------------------------
// Commands
// ---------------------------------------------------------------------------

/// What is printed where help is asked for.
pub const HELP: &'static str = "tpm-wasi - TPM operator platform (WebAssembly)

Usage: tpm-wasi [OPTIONS] <COMMAND>

Commands:
  status        Show TPM and workspace status
  init          Initialize workspace
  doctor        Run diagnostic health checks
  capabilities  Show TPM capabilities
  key           Key management (create, list, show, delete)
  secret        Secret management (list)
  policy        Policy management (create, list)
  object        Object inspection (list, tree)
  profile       Profile management (list)
  pcr           PCR operations (show)
  explain       Explain a TPM concept

Options:
  --format <text|json|yaml>   Output format (default: text)
  -h, --help                  Show help
  -V, --version               Show version

Note: This is the WASM build. State is in-memory only.
For persistent storage, use the native build.";

/// The state as it is printed.
pub open spec fn status_text(b: BackendStatus, s: StoreState) -> Seq<char> {
    "TPM Status\n"@ + field("  backend:  "@, b.backend_type@) + field(
        "  available: "@,
        yes_no(b.available),
    ) + field("  objects:  "@, decimal(s.objects.len())) + field(
        "  profile:  "@,
        match active_profile(s.profiles) {
            Some(p) => p.name,
            None => "(none)"@,
        },
    )
}

/// Prints the state.
pub fn cmd_status(store: &MemoryStore, status: &BackendStatus) -> (s: String)
    ensures
        s@ == status_text(*status, store@),
{
    let n: usize = store.object_count();
    let mut s = String::new();
    s.append("TPM Status\n");
    push_field(&mut s, "  backend:  ", status.backend_type.as_str());
    push_choice(&mut s, "  available: ", status.available);
    push_number(&mut s, "  objects:  ", n as u64);
    push_field(
        &mut s,
        "  profile:  ",
        match store.get_active_profile() {
            Some(p) => p.name.as_str(),
            None => "(none)",
        },
    );
    assert(s@ =~= status_text(*status, store@));
    s
}

/// The store after a workspace was set up.
pub open spec fn initialized(before: StoreState, stamp: Seq<char>) -> StoreState {
    if before.profiles.len() > 0 {
        before
    } else {
        StoreState {
            profiles: before.profiles.push(ProfileView::builtin_default()),
            ..before
        }.logged("workspace.init"@, None, json_object(Seq::empty()), stamp)
    }
}

/// Sets up a workspace at the given time.
pub fn cmd_init_at(store: &mut MemoryStore, stamp: &str) -> (s: String)
    requires
        old(store)@.wf(),
        old(store)@.can_log(),
    ensures
        final(store)@.wf(),
        final(store)@ == initialized(old(store)@, stamp@),
        s@ == if old(store)@.profiles.len() == 0 {
            "workspace initialized (in-memory)\n"@
        } else {
            "workspace already initialized\n"@
        },
{
    let none = {
        let profiles = store.list_profiles();
        proof {
            sorted_is_ordered::<Profile>(store@.profiles);
            assert(ref_rows(profiles@).len() == profiles@.len());
        }
        profiles.len() == 0
    };
    if none {
        store.insert_profile(Profile::builtin_default());
        let details = object0();
        store.log_action_at("workspace.init", None, details.as_str(), stamp);
        "workspace initialized (in-memory)\n".to_owned()
    } else {
        "workspace already initialized\n".to_owned()
    }
}

/// Sets up a workspace.
pub fn cmd_init(store: &mut MemoryStore) -> (s: String)
    requires
        old(store)@.wf(),
        old(store)@.can_log(),
    ensures
        final(store)@.wf(),
        exists|stamp: Seq<char>| final(store)@ == #[trigger] initialized(old(store)@, stamp),
        s@ == if old(store)@.profiles.len() == 0 {
            "workspace initialized (in-memory)\n"@
        } else {
            "workspace already initialized\n"@
        },
{
    let stamp = now_stamp();
    cmd_init_at(store, stamp.as_str())
}

/// Checks that a key can be created.
pub fn cmd_key_create_check(store: &MemoryStore, path: &str) -> (r: Result<ObjectPath, Failure>)
    ensures
        match r {
            Ok(p) => valid_path(path@) && p@ == path@ && !present::<TpmObject>(
                store@.objects,
                path@,
            ),
            Err(e) => if !valid_path(path@) {
                e@ == "invalid object path: "@ + path@
            } else {
                present::<TpmObject>(store@.objects, path@) && e@ == "object already exists: "@
                    + path@
            },
        },
{
    let p = user_path(path)?;
    if store.get_object(&p).is_some() {
        return Err(Failure::about("object already exists: ", path));
    }
    Ok(p)
}

/// The store with a new key.
pub open spec fn with_key(
    before: StoreState,
    path: Seq<char>,
    handle: Seq<u8>,
    id: u128,
    created_at: Seq<char>,
) -> StoreState {
    StoreState {
        objects: before.objects.push(
            ObjectView {
                id,
                path,
                kind: ObjectKind::SigningKey,
                algorithm: Algorithm::EccP256,
                policy_id: None,
                handle_blob: Some(handle),
                created_at,
                metadata: json_object(Seq::empty()),
            },
        ),
        ..before
    }
}

/// What the creation of a key does to the store and prints.
pub open spec fn key_created(
    before: StoreState,
    after: StoreState,
    r: Result<String, Failure>,
    path: Seq<char>,
    handle: Seq<u8>,
    id: u128,
    created_at: Seq<char>,
) -> bool {
    match r {
        Ok(s) => !present::<TpmObject>(before.objects, path) && after == with_key(
            before,
            path,
            handle,
            id,
            created_at,
        ) && s@ == field("key created: "@, path),
        Err(e) => present::<TpmObject>(before.objects, path) && after == before && e@
            == "UNIQUE constraint failed: objects.path"@,
    }
}

/// Keeps a key that the TPM has created, under a given identifier and time.
pub fn cmd_key_create_at(
    store: &mut MemoryStore,
    path: ObjectPath,
    handle: Vec<u8>,
    id: u128,
    created_at: &str,
) -> (r: Result<String, Failure>)
    requires
        old(store)@.wf(),
    ensures
        final(store)@.wf(),
        key_created(old(store)@, final(store)@, r, path@, handle@, id, created_at@),
{
    let name = path.copy();
    let obj = TpmObject {
        id,
        path,
        kind: ObjectKind::SigningKey,
        algorithm: Algorithm::EccP256,
        policy_id: None,
        handle_blob: Some(handle),
        created_at: created_at.to_owned(),
        metadata: object0(),
    };
    store.insert_object(obj)?;
    let mut s = String::new();
    push_field(&mut s, "key created: ", name.as_str());
    assert(s@ =~= field("key created: "@, path@));
    Ok(s)
}

/// Keeps a key that the TPM has created, under a fresh identifier.
pub fn cmd_key_create(store: &mut MemoryStore, path: ObjectPath, handle: Vec<u8>) -> (r: Result<
    String,
    Failure,
>)
    requires
        old(store)@.wf(),
    ensures
        final(store)@.wf(),
        exists|id: u128, created_at: Seq<char>|
            #[trigger] key_created(old(store)@, final(store)@, r, path@, handle@, id, created_at),
{
    let id: u128 = fresh_id();
    let created_at = now_rfc3339();
    cmd_key_create_at(store, path, handle, id, created_at.as_str())
}

/// How an object is listed.
pub open spec fn object_line(o: ObjectView, key: bool) -> Seq<char> {
    "  "@ + o.path + "  "@ + (if key {
        o.algorithm.text() + "  "@ + o.kind.text()
    } else {
        o.kind.text() + "  "@ + o.algorithm.text()
    }) + "\n"@
}

/// How the first `n` objects are listed.
pub open spec fn object_lines(s: Seq<ObjectView>, key: bool, n: nat) -> Seq<char>
    decreases n,
{
    if n == 0 {
        Seq::empty()
    } else {
        object_lines(s, key, (n - 1) as nat) + object_line(s[n - 1], key)
    }
}

fn line_of(o: &TpmObject, key: bool) -> (s: String)
    ensures
        s@ == object_line(o@, key),
{
    let mut s = String::new();
    s.append("  ");
    s.append(o.path.as_str());
    s.append("  ");
    if key {
        s.append(o.algorithm.name());
        s.append("  ");
        s.append(o.kind.name());
    } else {
        s.append(o.kind.name());
        s.append("  ");
        s.append(o.algorithm.name());
    }
    s.append("\n");
    assert(s@ =~= object_line(o@, key));
    s
}

fn lines_of(list: &Vec<&TpmObject>, key: bool) -> (s: String)
    ensures
        s@ == object_lines(ref_rows(list@), key, list@.len()),
{
    let ghost all = ref_rows(list@);
    let mut s = String::new();
    let mut i: usize = 0;
    assert(s@ =~= object_lines(all, key, 0));
    while i < list.len()
        invariant
            i <= list@.len(),
            all == ref_rows(list@),
            s@ == object_lines(all, key, i as nat),
        decreases list@.len() - i,
    {
        let o: &TpmObject = list[i];
        assert(all[i as int] == o@);
        let line = line_of(o, key);
        s.append(line.as_str());
        i += 1;
        assert(s@ =~= object_lines(all, key, i as nat));
    }
    s
}

/// Lists the keys.
pub fn cmd_key_list(store: &MemoryStore) -> (s: String)
    ensures
        ({
            let keys = class_list(store@, ObjectClass::Key);
            s@ == if keys.len() == 0 {
                "No keys found.\n"@
            } else {
                object_lines(keys, true, keys.len())
            }
        }),
{
    let keys = objects_of(store, ObjectClass::Key);
    assert(ref_rows(keys@).len() == keys@.len());
    if keys.len() == 0 {
        return "No keys found.\n".to_owned();
    }
    lines_of(&keys, true)
}

/// Lists the objects.
pub fn cmd_object_list(store: &MemoryStore) -> (s: String)
    ensures
        ({
            let all = sorted::<TpmObject>(store@.objects);
            s@ == if all.len() == 0 {
                "No objects in workspace.\n"@
            } else {
                object_lines(all, false, all.len())
            }
        }),
{
    let list = store.list_objects();
    assert(ref_rows(list@).len() == list@.len());
    if list.len() == 0 {
        return "No objects in workspace.\n".to_owned();
    }
    lines_of(&list, false)
}

/// A key as it is shown.
pub open spec fn detail_text(o: ObjectView) -> Seq<char> {
    field("path:      "@, o.path) + field("id:        "@, uuid_form(o.id)) + field(
        "kind:      "@,
        o.kind.text(),
    ) + field("algorithm: "@, o.algorithm.text()) + field(
        "handle:    "@,
        if o.handle_blob is Some {
            "present"@
        } else {
            "none"@
        },
    )
}

/// Shows a key.
pub fn cmd_key_show(store: &MemoryStore, path: &str) -> (r: Result<String, Failure>)
    ensures
        match r {
            Ok(s) => valid_path(path@) && (lookup::<TpmObject>(store@.objects, path@) matches Some(
                o,
            ) && s@ == detail_text(o)),
            Err(e) => if !valid_path(path@) {
                e@ == "invalid object path: "@ + path@
            } else {
                !present::<TpmObject>(store@.objects, path@) && e@ == "not found: "@ + path@
            },
        },
{
    let p = user_path(path)?;
    match store.get_object(&p) {
        None => Err(Failure::about("not found: ", path)),
        Some(o) => {
            let mut s = String::new();
            push_field(&mut s, "path:      ", o.path.as_str());
            push_field(&mut s, "id:        ", id_text(o.id).as_str());
            push_field(&mut s, "kind:      ", o.kind.name());
            push_field(&mut s, "algorithm: ", o.algorithm.name());
            push_field(
                &mut s,
                "handle:    ",
                if o.handle_blob.is_some() {
                    "present"
                } else {
                    "none"
                },
            );
            assert(s@ =~= detail_text(o@));
            Ok(s)
        },
    }
}

/// Deletes a key.
pub fn cmd_key_delete(store: &mut MemoryStore, path: &str) -> (r: Result<String, Failure>)
    requires
        old(store)@.wf(),
    ensures
        final(store)@.wf(),
        match r {
            Ok(s) => valid_path(path@) && present::<TpmObject>(old(store)@.objects, path@)
                && final(store)@ == (StoreState {
                objects: without::<TpmObject>(old(store)@.objects, path@),
                ..old(store)@
            }) && s@ == field("key deleted: "@, path@),
            Err(e) => final(store)@ == old(store)@ && if !valid_path(path@) {
                e@ == "invalid object path: "@ + path@
            } else {
                !present::<TpmObject>(old(store)@.objects, path@) && e@ == "not found: "@ + path@
            },
        },
{
    let p = user_path(path)?;
    if store.delete_object(&p) {
        let mut s = String::new();
        push_field(&mut s, "key deleted: ", path);
        assert(s@ =~= field("key deleted: "@, path@));
        Ok(s)
    } else {
        proof {
            without_absent::<TpmObject>(old(store)@.objects, path@);
        }
        assert(store@ =~= old(store)@);
        Err(Failure::about("not found: ", path))
    }
}

/// The first `n` names, each on a line.
pub open spec fn name_lines(before: Seq<char>, names: Seq<Seq<char>>, n: nat) -> Seq<char>
    decreases n,
{
    if n == 0 {
        Seq::empty()
    } else {
        name_lines(before, names, (n - 1) as nat) + field(before, names[n - 1])
    }
}

fn push_names(out: &mut String, before: &str, names: &Vec<String>)
    ensures
        final(out)@ == old(out)@ + name_lines(before@, views(names@), names@.len()),
{
    let ghost start = out@;
    let ghost all = views(names@);
    let mut i: usize = 0;
    assert(out@ =~= start + name_lines(before@, all, 0));
    while i < names.len()
        invariant
            i <= names@.len(),
            all == views(names@),
            out@ == start + name_lines(before@, all, i as nat),
        decreases names@.len() - i,
    {
        assert(all[i as int] == names@[i as int]@);
        push_field(out, before, names[i].as_str());
        i += 1;
        assert(out@ =~= start + name_lines(before@, all, i as nat));
    }
}

/// Lists the secrets.
pub fn cmd_secret_list(store: &MemoryStore) -> (s: String)
    ensures
        ({
            let paths = paths_of(class_list(store@, ObjectClass::Secret));
            s@ == if paths.len() == 0 {
                "No sealed secrets.\n"@
            } else {
                name_lines("  "@, paths, paths.len())
            }
        }),
{
    let paths = class_paths(store, ObjectClass::Secret);
    assert(views(paths@).len() == paths@.len());
    if paths.len() == 0 {
        return "No sealed secrets.\n".to_owned();
    }
    let mut s = String::new();
    push_names(&mut s, "  ", &paths);
    assert(s@ =~= name_lines("  "@, views(paths@), paths@.len()));
    s
}

/// How the first `n` policies are listed.
pub open spec fn policy_lines(s: Seq<PolicyView>, n: nat) -> Seq<char>
    decreases n,
{
    if n == 0 {
        Seq::empty()
    } else {
        policy_lines(s, (n - 1) as nat) + ("  "@ + s[n - 1].name + " ("@ + decimal(
            s[n - 1].rules.len(),
        ) + " rules)\n"@)
    }
}

fn policy_line(p: &Policy) -> (s: String)
    ensures
        s@ == "  "@ + p@.name + " ("@ + decimal(p@.rules.len()) + " rules)\n"@,
{
    assert(p@.rules.len() == p.rules@.len());
    let mut s = String::new();
    s.append("  ");
    s.append(p.name.as_str());
    s.append(" (");
    push_decimal(&mut s, p.rules.len() as u64);
    s.append(" rules)\n");
    assert(s@ =~= "  "@ + p@.name + " ("@ + decimal(p@.rules.len()) + " rules)\n"@);
    s
}

/// Lists the policies.
pub fn cmd_policy_list(store: &MemoryStore) -> (s: String)
    ensures
        ({
            let all = sorted::<Policy>(store@.policies);
            s@ == if all.len() == 0 {
                "No policies defined.\n"@
            } else {
                policy_lines(all, all.len())
            }
        }),
{
    let list = store.list_policies();
    let ghost all = ref_rows(list@);
    if list.len() == 0 {
        return "No policies defined.\n".to_owned();
    }
    let mut s = String::new();
    let mut i: usize = 0;
    assert(s@ =~= policy_lines(all, 0));
    while i < list.len()
        invariant
            i <= list@.len(),
            all == ref_rows(list@),
            s@ == policy_lines(all, i as nat),
        decreases list@.len() - i,
    {
        let p: &Policy = list[i];
        assert(all[i as int] == p@);
        let line = policy_line(p);
        s.append(line.as_str());
        i += 1;
        assert(s@ =~= policy_lines(all, i as nat));
    }
    s
}

/// What the creation of a policy without rules does to the store and prints.
pub open spec fn policy_created(
    before: StoreState,
    after: StoreState,
    r: Result<String, Failure>,
    name: Seq<char>,
    id: u128,
) -> bool {
    match r {
        Ok(s) => !present::<Policy>(before.policies, name) && after == (StoreState {
            policies: before.policies.push(PolicyView { id, name, rules: Seq::empty() }),
            ..before
        }) && s@ == field("policy created: "@, name),
        Err(e) => present::<Policy>(before.policies, name) && after == before && e@
            == "policy already exists: "@ + name,
    }
}

/// Creates a policy without rules under a given identifier.
pub fn cmd_policy_create_with(store: &mut MemoryStore, name: &str, id: u128) -> (r: Result<
    String,
    Failure,
>)
    requires
        old(store)@.wf(),
    ensures
        final(store)@.wf(),
        policy_created(old(store)@, final(store)@, r, name@, id),
{
    if store.get_policy(name).is_some() {
        return Err(Failure::about("policy already exists: ", name));
    }
    let p = Policy { id, name: name.to_owned(), rules: Vec::new() };
    assert(p@.rules =~= Seq::empty());
    store.insert_policy(p);
    let mut s = String::new();
    push_field(&mut s, "policy created: ", name);
    assert(s@ =~= field("policy created: "@, name@));
    Ok(s)
}

/// Creates a policy without rules under a fresh identifier.
pub fn cmd_policy_create(store: &mut MemoryStore, name: &str) -> (r: Result<String, Failure>)
    requires
        old(store)@.wf(),
    ensures
        final(store)@.wf(),
        exists|id: u128| #[trigger] policy_created(old(store)@, final(store)@, r, name@, id),
{
    let id: u128 = fresh_id();
    cmd_policy_create_with(store, name, id)
}

/// A branch with its leaves; nothing where it has none.
pub open spec fn branch(label: Seq<char>, names: Seq<Seq<char>>) -> Seq<char> {
    if names.len() == 0 {
        Seq::empty()
    } else {
        label + name_lines("    "@, names, names.len())
    }
}

fn push_branch(out: &mut String, label: &str, names: &Vec<String>)
    ensures
        final(out)@ == old(out)@ + branch(label@, views(names@)),
{
    let ghost start = out@;
    assert(views(names@).len() == names@.len());
    if names.len() > 0 {
        out.append(label);
        push_names(out, "    ", names);
    }
    assert(out@ =~= start + branch(label@, views(names@)));
}

/// Prints the tree of the workspace.
pub fn cmd_object_tree(store: &MemoryStore) -> (s: String)
    ensures
        s@ == "workspace\n"@ + branch(
            "  keys/\n"@,
            paths_of(class_list(store@, ObjectClass::Key)),
        ) + branch("  secrets/\n"@, paths_of(class_list(store@, ObjectClass::Secret))) + branch(
            "  policies/\n"@,
            names_of(sorted::<Policy>(store@.policies)),
        ),
{
    let keys = class_paths(store, ObjectClass::Key);
    let secrets = class_paths(store, ObjectClass::Secret);
    let policies = policy_names(store);
    let mut s = String::new();
    s.append("workspace\n");
    push_branch(&mut s, "  keys/\n", &keys);
    push_branch(&mut s, "  secrets/\n", &secrets);
    push_branch(&mut s, "  policies/\n", &policies);
    assert(s@ =~= "workspace\n"@ + branch("  keys/\n"@, views(keys@)) + branch(
        "  secrets/\n"@,
        views(secrets@),
    ) + branch("  policies/\n"@, views(policies@)));
    s
}

/// How the first `n` profiles are listed. The active one is marked.
pub open spec fn profile_lines(s: Seq<ProfileView>, n: nat) -> Seq<char>
    decreases n,
{
    if n == 0 {
        Seq::empty()
    } else {
        profile_lines(s, (n - 1) as nat) + ("  "@ + s[n - 1].name + (if s[n - 1].is_active {
            " *"@
        } else {
            ""@
        }) + "\n"@)
    }
}

/// Lists the profiles.
pub fn cmd_profile_list(store: &MemoryStore) -> (s: String)
    ensures
        ({
            let all = sorted::<Profile>(store@.profiles);
            s@ == if all.len() == 0 {
                "No profiles configured.\n"@
            } else {
                profile_lines(all, all.len())
            }
        }),
{
    let list = store.list_profiles();
    let ghost all = ref_rows(list@);
    if list.len() == 0 {
        return "No profiles configured.\n".to_owned();
    }
    let mut s = String::new();
    let mut i: usize = 0;
    assert(s@ =~= profile_lines(all, 0));
    while i < list.len()
        invariant
            i <= list@.len(),
            all == ref_rows(list@),
            s@ == profile_lines(all, i as nat),
        decreases list@.len() - i,
    {
        let p: &Profile = list[i];
        assert(all[i as int] == p@);
        s.append("  ");
        s.append(p.name.as_str());
        s.append(
            if p.is_active {
                " *"
            } else {
                ""
            },
        );
        s.append("\n");
        i += 1;
        assert(s@ =~= profile_lines(all, i as nat));
    }
    s
}

/// Prints the health checks.
pub fn cmd_doctor(store: &MemoryStore, status: &BackendStatus) -> (s: String)
    ensures
        s@ == "Doctor Report\n\n"@ + (if status.available {
            "  [ok] TPM backend reachable ("@ + status.backend_type@ + ")\n"@
        } else {
            "  [FAIL] TPM backend unreachable\n"@
        }) + "  [ok] Store accessible ("@ + decimal(store@.objects.len())
            + " objects)\n\nOverall: healthy\n"@,
{
    let n: usize = store.object_count();
    let mut s = String::new();
    s.append("Doctor Report\n\n");
    if status.available {
        s.append(
            framed(
                "  [ok] TPM backend reachable (",
                status.backend_type.as_str(),
                ")\n",
            ).as_str(),
        );
    } else {
        s.append("  [FAIL] TPM backend unreachable\n");
    }
    s.append("  [ok] Store accessible (");
    push_decimal(&mut s, n as u64);
    s.append(" objects)\n\nOverall: healthy\n");
    assert(s@ =~= "Doctor Report\n\n"@ + (if status.available {
        "  [ok] TPM backend reachable ("@ + status.backend_type@ + ")\n"@
    } else {
        "  [FAIL] TPM backend unreachable\n"@
    }) + "  [ok] Store accessible ("@ + decimal(store@.objects.len())
        + " objects)\n\nOverall: healthy\n"@);
    s
}

/// What the TPM can do, as it is printed.
pub open spec fn capabilities_text(b: BackendStatus) -> Seq<char> {
    "TPM Capabilities\n\n"@ + field("  backend:     "@, b.backend_type@) + field(
        "  manufacturer: "@,
        b.manufacturer@,
    ) + field("  available:    "@, yes_no(b.available)) + "\n  algorithms:\n"@ + field(
        "    - "@,
        Algorithm::EccP256.text(),
    ) + field("    - "@, Algorithm::EccP384.text()) + field("    - "@, Algorithm::Rsa2048.text())
        + field("    - "@, Algorithm::Rsa3072.text())
}

/// Prints what the TPM can do.
pub fn cmd_capabilities(status: &BackendStatus) -> (s: String)
    ensures
        s@ == capabilities_text(*status),
{
    let all = Algorithm::all();
    let mut s = String::new();
    s.append("TPM Capabilities\n\n");
    push_field(&mut s, "  backend:     ", status.backend_type.as_str());
    push_field(&mut s, "  manufacturer: ", status.manufacturer.as_str());
    push_choice(&mut s, "  available:    ", status.available);
    s.append("\n  algorithms:\n");
    push_field(&mut s, "    - ", all[0].name());
    push_field(&mut s, "    - ", all[1].name());
    push_field(&mut s, "    - ", all[2].name());
    push_field(&mut s, "    - ", all[3].name());
    assert(s@ =~= capabilities_text(*status));
    s
}

/// Of registers.
pub const PCR_TEXT: &'static str = "Platform Configuration Registers (PCRs)\n\nPCRs record measurements of the system's boot and runtime state.\nEach PCR holds a hash that is extended as the system boots.";

/// Of policies.
pub const POLICY_TEXT: &'static str = "TPM Policies\n\nPolicies define conditions that must be satisfied before the TPM\nwill perform an operation (sign, unseal, etc.).";

/// Of keys.
pub const KEY_TEXT: &'static str = "TPM Keys\n\nKeys are generated inside the TPM. Their private material never\nleaves the hardware.";

/// Of sealing.
pub const SEAL_TEXT: &'static str = "Sealing/Unsealing\n\nSealing encrypts data so it can only be decrypted when specific\nconditions are met, typically matching PCR values.";

/// Of attestation.
pub const ATTESTATION_TEXT: &'static str = "Remote Attestation\n\nAttestation allows a remote party to verify the state of a machine\nby requesting a TPM quote.";

/// The explanation of a concept.
pub open spec fn explanation(concept: Seq<char>) -> Seq<char> {
    if concept == "pcr"@ {
        PCR_TEXT@
    } else if concept == "policy"@ {
        POLICY_TEXT@
    } else if concept == "key"@ {
        KEY_TEXT@
    } else if concept == "seal"@ {
        SEAL_TEXT@
    } else if concept == "attestation"@ {
        ATTESTATION_TEXT@
    } else {
        "Unknown concept: "@ + concept + "\nAvailable: pcr, policy, key, seal, attestation"@
    }
}

/// Explains a concept.
pub fn cmd_explain(concept: &str) -> (s: String)
    ensures
        s@ == explanation(concept@),
{
    if same(concept, "pcr") {
        PCR_TEXT.to_owned()
    } else if same(concept, "policy") {
        POLICY_TEXT.to_owned()
    } else if same(concept, "key") {
        KEY_TEXT.to_owned()
    } else if same(concept, "seal") {
        SEAL_TEXT.to_owned()
    } else if same(concept, "attestation") {
        ATTESTATION_TEXT.to_owned()
    } else {
        framed(
            "Unknown concept: ",
            concept,
            "\nAvailable: pcr, policy, key, seal, attestation",
        )
    }
}

} // verus!
