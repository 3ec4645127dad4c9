//! The first profile of a workspace.
use vstd::prelude::*;
use vstd::string::*;

use crate::clock::now_stamp;
use crate::json::{json_object, object1, text_field, text_view};
use crate::model::{BackendStatus, Profile, ProfileView};
use crate::store::{active_profile, MemoryStore, StoreState};
use crate::table::{ref_rows, sorted_is_ordered};
use crate::text::{field, opt_str, push_field};

verus! {

/// The profile that a new workspace gets.
pub open spec fn first_profile(name: Option<Seq<char>>) -> ProfileView {
    match name {
        Some(n) => ProfileView { name: n, ..ProfileView::builtin_default() },
        None => ProfileView::builtin_default(),
    }
}

/// The store after a workspace was set up. One that has a profile stays as it is.
pub open spec fn initialized(before: StoreState, name: Option<Seq<char>>, stamp: Seq<char>) -> StoreState {
    if before.profiles.len() > 0 {
        before
    } else {
        StoreState {
            profiles: before.profiles.push(first_profile(name)),
            ..before
        }.logged(
            "workspace.init"@,
            None,
            json_object(seq![text_view("profile"@, first_profile(name).name)]),
            stamp,
        )
    }
}

/// What is printed when a workspace is set up.
pub open spec fn init_text(
    store_path: Seq<char>,
    backend: Seq<char>,
    already: bool,
    after: StoreState,
) -> Seq<char> {
    (if already {
        "workspace already initialized\n"@
    } else {
        "workspace initialized\n"@
    }) + field("  store:   "@, store_path) + field("  backend: "@, backend) + field(
        "  profile: "@,
        match active_profile(after.profiles) {
            Some(p) => p.name,
            None => "(none)"@,
        },
    )
}

/// Sets up a workspace at the given time.
pub fn run_at(
    store: &mut MemoryStore,
    status: &BackendStatus,
    store_path: &str,
    profile_name: Option<&str>,
    stamp: &str,
) -> (s: String)
    requires
        old(store)@.wf(),
        old(store)@.can_log(),
    ensures
        final(store)@.wf(),
        final(store)@ == initialized(old(store)@, opt_str(profile_name), stamp@),
        s@ == init_text(
            store_path@,
            status.backend_type@,
            old(store)@.profiles.len() > 0,
            final(store)@,
        ),
{
    let count: usize = {
        let profiles = store.list_profiles();
        proof {
            sorted_is_ordered::<Profile>(store@.profiles);
            assert(ref_rows(profiles@).len() == profiles@.len());
        }
        profiles.len()
    };
    if count == 0 {
        let mut profile = Profile::builtin_default();
        match profile_name {
            Some(n) => {
                profile.name = n.to_owned();
            },
            None => {},
        }
        assert(profile@ == first_profile(opt_str(profile_name)));
        let details = object1(text_field("profile", profile.name.as_str()));
        store.insert_profile(profile);
        store.log_action_at("workspace.init", None, details.as_str(), stamp);
    }
    let mut s = String::new();
    if count == 0 {
        s.append("workspace initialized\n");
    } else {
        s.append("workspace already initialized\n");
    }
    push_field(&mut s, "  store:   ", store_path);
    push_field(&mut s, "  backend: ", status.backend_type.as_str());
    push_field(
        &mut s,
        "  profile: ",
        match store.get_active_profile() {
            Some(p) => p.name.as_str(),
            None => "(none)",
        },
    );
    assert(s@ =~= init_text(
        store_path@,
        status.backend_type@,
        old(store)@.profiles.len() > 0,
        store@,
    ));
    s
}

/// Sets up a workspace.
pub fn run(
    store: &mut MemoryStore,
    status: &BackendStatus,
    store_path: &str,
    profile_name: Option<&str>,
) -> (s: String)
    requires
        old(store)@.wf(),
        old(store)@.can_log(),
    ensures
        final(store)@.wf(),
        exists|stamp: Seq<char>|
            final(store)@ == #[trigger] initialized(old(store)@, opt_str(profile_name), stamp),
        s@ == init_text(
            store_path@,
            status.backend_type@,
            old(store)@.profiles.len() > 0,
            final(store)@,
        ),
{
    let stamp = now_stamp();
    run_at(store, status, store_path, profile_name, stamp.as_str())
}

/// Setting up a workspace that is set up changes nothing.
pub proof fn second_init_changes_nothing(
    s: StoreState,
    name: Option<Seq<char>>,
    stamp: Seq<char>,
    again: Option<Seq<char>>,
    later: Seq<char>,
)
    ensures
        initialized(initialized(s, name, stamp), again, later) == initialized(s, name, stamp),
{
}

/// A workspace that was set up from nothing has an active profile of the name asked for.
pub proof fn new_workspace_is_active(s: StoreState, name: Option<Seq<char>>, stamp: Seq<char>)
    requires
        s.profiles.len() == 0,
    ensures
        active_profile(initialized(s, name, stamp).profiles) == Some(first_profile(name)),
{
    let p = initialized(s, name, stamp).profiles;
    assert(p =~= seq![first_profile(name)]);
    reveal_with_fuel(active_profile, 3);
}

} // verus!
