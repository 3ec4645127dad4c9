//! The commands of the embedded build: what its arguments ask for and what they
//! do to the store.
use vstd::prelude::*;

use crate::failure::Failure;
use crate::model::{Algorithm, ObjectKind, ObjectPath, Policy, TpmObject};
use crate::output::OutputFormat;
use crate::promises::keys::{others_stay, push_keeps_others, removal_keeps_others};
use crate::promises::policies::other_policies_stay;
use crate::store::MemoryStore;
use crate::table::{lookup, lookup_of_push, position_is_first, present, without_removes};
use crate::text::views;
use crate::wasi::{
    cmd_init_at, cmd_key_create_at, cmd_key_create_check, cmd_key_delete, cmd_key_show,
    cmd_policy_create_with, parse_args, run, scanned, Parsed, ParsedView, WasiCommand,
};

verus! {

proof fn plain_words_are_kept(
    args: Seq<Seq<char>>,
    i: int,
    format: OutputFormat,
    words: Seq<Seq<char>>,
)
    requires
        0 <= i <= args.len(),
        words == args.take(i),
        forall|k: int|
            0 <= k < args.len() ==> (#[trigger] args[k]) != "--format"@ && args[k] != "--help"@
                && args[k] != "-h"@ && args[k] != "--version"@ && args[k] != "-V"@,
    ensures
        scanned(args, i, format, words) == (ParsedView::Run { format, words: args }),
    decreases args.len() - i,
{
    if i < args.len() {
        assert(words.push(args[i]) =~= args.take(i + 1));
        plain_words_are_kept(args, i + 1, format, words.push(args[i]));
    } else {
        assert(args.take(i) =~= args);
    }
}

/// Arguments without a flag are the words of the command, all of them and in
/// their order, and the output is text.
pub proof fn words_without_flags_are_the_command(args: &Vec<String>, p: Parsed)
    requires
        call_ensures(parse_args, (args,), p),
        forall|k: int|
            0 <= k < args@.len() ==> (#[trigger] views(args@)[k]) != "--format"@ && views(
                args@,
            )[k] != "--help"@ && views(args@)[k] != "-h"@ && views(args@)[k] != "--version"@
                && views(args@)[k] != "-V"@,
    ensures
        p matches Parsed::Run { format, words } && format == OutputFormat::Text && views(words@)
            == views(args@),
{
    assert(views(args@).take(0) =~= Seq::empty());
    plain_words_are_kept(views(args@), 0, OutputFormat::Text, Seq::empty());
}

/// A flag for help or for the version that comes first decides.
pub proof fn leading_flag_decides(args: &Vec<String>, p: Parsed)
    requires
        call_ensures(parse_args, (args,), p),
        args@.len() > 0,
    ensures
        args@[0]@ == "--help"@ || args@[0]@ == "-h"@ ==> p is Help,
        args@[0]@ == "--version"@ || args@[0]@ == "-V"@ ==> p is Version,
{
    assert(views(args@)[0] == args@[0]@);
    reveal_strlit("--help");
    reveal_strlit("-h");
    reveal_strlit("--version");
    reveal_strlit("-V");
    reveal_strlit("--format");
    assert("-V"@[1] != "-h"@[1]);
    assert("--help"@.len() == 6 && "-h"@.len() == 2 && "--version"@.len() == 9 && "-V"@.len() == 2
        && "--format"@.len() == 8);
}

/// A command that takes a name gets the third word; without it the usage is
/// shown, and nothing is created or deleted.
pub proof fn third_word_is_the_name(words: &Vec<String>, c: WasiCommand)
    requires
        call_ensures(run, (words,), c),
    ensures
        c matches WasiCommand::KeyCreate(s) ==> words@.len() > 2 && s@ == words@[2]@ && words@[0]@
            == "key"@ && words@[1]@ == "create"@,
        c matches WasiCommand::KeyDelete(s) ==> words@.len() > 2 && s@ == words@[2]@ && words@[0]@
            == "key"@ && words@[1]@ == "delete"@,
        c matches WasiCommand::KeyShow(s) ==> words@.len() > 2 && s@ == words@[2]@ && words@[0]@
            == "key"@ && words@[1]@ == "show"@,
        c matches WasiCommand::PolicyCreate(s) ==> words@.len() > 2 && s@ == words@[2]@
            && words@[0]@ == "policy"@ && words@[1]@ == "create"@,
        c matches WasiCommand::Explain(s) ==> words@.len() > 1 && s@ == words@[1]@ && words@[0]@
            == "explain"@,
        c is Help <==> words@.len() == 0,
        c is Init ==> words@[0]@ == "init"@,
        c is Status ==> words@[0]@ == "status"@,
        c matches WasiCommand::Unknown(s) ==> words@.len() > 0 && s@ == words@[0]@,
{
    if words@.len() > 0 {
        assert(views(words@)[0] == words@[0]@);
    }
    if words@.len() > 1 {
        assert(views(words@)[1] == words@[1]@);
    }
    if words@.len() > 2 {
        assert(views(words@)[2] == words@[2]@);
    }
}

/// A key that may be created and was created is found, shown and can be
/// deleted again; no other object is touched by either.
pub proof fn created_key_is_found(
    store: &mut MemoryStore,
    name: &str,
    check: Result<ObjectPath, Failure>,
    path: ObjectPath,
    handle: Vec<u8>,
    id: u128,
    created_at: &str,
    r: Result<String, Failure>,
    shown: Result<String, Failure>,
)
    requires
        call_ensures(cmd_key_create_check, (&*old(store), name), check),
        check == Ok::<ObjectPath, Failure>(path),
        call_ensures(cmd_key_create_at, (store, path, handle, id, created_at), r),
        call_ensures(cmd_key_show, (&*final(store), name), shown),
    ensures
        r is Ok,
        shown is Ok,
        lookup::<TpmObject>(final(store)@.objects, name@) matches Some(o) && o.id == id
            && o.handle_blob == Some(handle@) && o.kind == ObjectKind::SigningKey && o.algorithm
            == Algorithm::EccP256 && o.policy_id is None && o.created_at == created_at@,
        others_stay(old(store)@, final(store)@, name@),
        final(store)@.objects.len() == old(store)@.objects.len() + 1,
        final(store)@.policies == old(store)@.policies
            && final(store)@.profiles == old(store)@.profiles
            && final(store)@.audit_log == old(store)@.audit_log,
{
    let key = final(store)@.objects.last();
    assert(key.path == name@);
    push_keeps_others(old(store)@.objects, key);
}

/// A key that was deleted is not shown any more; every other stays. What is not
/// there cannot be deleted.
pub proof fn deleted_key_is_gone(
    store: &mut MemoryStore,
    name: &str,
    r: Result<String, Failure>,
    shown: Result<String, Failure>,
)
    requires
        call_ensures(cmd_key_delete, (store, name), r),
        call_ensures(cmd_key_show, (&*final(store), name), shown),
    ensures
        shown is Err,
        others_stay(old(store)@, final(store)@, name@),
        r is Ok ==> lookup::<TpmObject>(old(store)@.objects, name@) is Some,
        r is Err ==> final(store)@ == old(store)@,
{
    without_removes::<TpmObject>(old(store)@.objects, name@);
    removal_keeps_others(old(store)@.objects, name@);
}

/// A policy that was created is found by its name, with its identifier and
/// without rules; a name is given once.
pub proof fn created_policy_is_found(
    store: &mut MemoryStore,
    name: &str,
    id: u128,
    r: Result<String, Failure>,
)
    requires
        call_ensures(cmd_policy_create_with, (store, name, id), r),
    ensures
        r is Ok <==> lookup::<Policy>(old(store)@.policies, name@) is None,
        r is Ok ==> (lookup::<Policy>(final(store)@.policies, name@) matches Some(p) && p.id == id
            && p.rules.len() == 0),
        r is Err ==> final(store)@ == old(store)@,
        other_policies_stay(old(store)@, final(store)@, name@),
{
    position_is_first::<Policy>(old(store)@.policies, name@);
    if r is Ok {
        let p = final(store)@.policies.last();
        assert forall|key: Seq<char>| true implies #[trigger] lookup::<Policy>(
            old(store)@.policies.push(p),
            key,
        ) == (if present::<Policy>(old(store)@.policies, key) {
            lookup::<Policy>(old(store)@.policies, key)
        } else if key == p.name {
            Some(p)
        } else {
            None
        }) by {
            lookup_of_push::<Policy>(old(store)@.policies, p, key);
        }
        assert forall|other: Seq<char>| other != name@ implies #[trigger] lookup::<Policy>(
            final(store)@.policies,
            other,
        ) == lookup::<Policy>(old(store)@.policies, other) by {
            position_is_first::<Policy>(old(store)@.policies, other);
            lookup_of_push::<Policy>(old(store)@.policies, p, other);
        }
    }
}

/// A workspace is set up once: afterwards it has a profile, and setting it up
/// again changes nothing.
pub proof fn workspace_is_set_up_once(
    store: &mut MemoryStore,
    stamp: &str,
    s: String,
    again: &mut MemoryStore,
    later: &str,
    t: String,
)
    requires
        call_ensures(cmd_init_at, (store, stamp), s),
        old(again)@ == final(store)@,
        call_ensures(cmd_init_at, (again, later), t),
    ensures
        final(store)@.profiles.len() > 0,
        final(again)@ == final(store)@,
        old(store)@.profiles.len() > 0 ==> final(store)@ == old(store)@,
        final(store)@.objects == old(store)@.objects
            && final(store)@.policies == old(store)@.policies,
        t@ == "workspace already initialized\n"@,
{
}

} // verus!
