//! The terminal interface: where keys lead, and what creating and deleting do to
//! the store behind it.
use vstd::prelude::*;

use crate::clock::Moment;
use crate::model::{valid_path, Algorithm, BackendStatus, ObjectKind, ObjectPath, Policy, TpmObject};
use crate::promises::keys::{logs_once, others_stay, push_keeps_others, removal_keeps_others};
use crate::store::MemoryStore;
use crate::table::{lookup, lookup_of_push, present, sorted, sorted_is_ordered, without_removes};
use crate::tui::actions::typed_key;
use crate::tui::event::{
    key_to_action, key_to_confirm_action, key_to_modal_action, Action, ConfirmAction, Key,
    ModalAction, Step,
};
use crate::tui::{App, ModalView, Screen};

verus! {

/// Deleting asks about the selected object, and nothing is touched by asking.
pub proof fn deletion_is_asked_of_the_selected(app: &mut App, done: (), chosen: Option<&TpmObject>)
    requires
        call_ensures(App::selected_object, (&*old(app),), chosen),
        call_ensures(App::start_delete, (app,), done),
    ensures
        chosen matches Some(o) ==> final(app)@.modal == ModalView::ConfirmDelete(o@.path),
        chosen is None ==> final(app)@ == old(app)@,
        final(app)@.objects == old(app)@.objects && final(app)@.screen == old(app)@.screen
            && final(app)@.selected_index == old(app)@.selected_index,
{
}

/// The object whose deletion was confirmed, and no other, is gone from the
/// store and from the screen. Without a confirmation nothing happens.
pub proof fn confirmed_object_is_deleted(
    app: &mut App,
    store: &mut MemoryStore,
    status: Option<BackendStatus>,
    stamp: &str,
    done: (),
)
    requires
        old(store)@.wf(),
        call_ensures(App::execute_delete_at, (app, store, status, stamp), done),
    ensures
        old(app)@.modal matches ModalView::ConfirmDelete(path) ==> (if valid_path(path)
            && present::<TpmObject>(old(store)@.objects, path) {
            !present::<TpmObject>(final(store)@.objects, path) && others_stay(
                old(store)@,
                final(store)@,
                path,
            ) && logs_once(
                old(store)@,
                final(store)@,
                "object.delete"@,
                Some(path),
                stamp@,
            ) && final(app)@.objects == sorted::<TpmObject>(final(store)@.objects)
                && final(app)@.modal is Message
        } else {
            final(store)@ == old(store)@ && final(app)@.modal is Message
        }),
        !(old(app)@.modal is ConfirmDelete) ==> final(store)@ == old(store)@
            && final(app)@ == old(app)@,
{
    if let ModalView::ConfirmDelete(path) = old(app)@.modal {
        without_removes::<TpmObject>(old(store)@.objects, path);
        removal_keeps_others(old(store)@.objects, path);
        if valid_path(path) && present::<TpmObject>(old(store)@.objects, path) {
            assert(final(store)@.audit_log.drop_last() =~= old(store)@.audit_log);
        }
    }
}

/// A key that was typed in is found under its path, with the handle that the
/// TPM gave; where the TPM gave none, the store stays as it is.
pub proof fn typed_key_is_created(
    app: &mut App,
    store: &mut MemoryStore,
    path: ObjectPath,
    handle: Result<Vec<u8>, String>,
    status: Option<BackendStatus>,
    id: u128,
    at: &Moment,
    done: (),
)
    requires
        old(store)@.wf(),
        call_ensures(App::execute_create_key_at, (app, store, path, handle, status, id, at), done),
    ensures
        handle is Err || present::<TpmObject>(old(store)@.objects, path@)
            ==> final(store)@ == old(store)@ && final(app)@.objects == old(app)@.objects,
        handle matches Ok(h) ==> !present::<TpmObject>(old(store)@.objects, path@) ==> (lookup::<
            TpmObject,
        >(final(store)@.objects, path@) matches Some(o) && o.id == id && o.kind
            == ObjectKind::SigningKey && o.algorithm == Algorithm::EccP256 && o.handle_blob == Some(
            h@,
        ) && o.policy_id is None) && others_stay(old(store)@, final(store)@, path@) && logs_once(
            old(store)@,
            final(store)@,
            "key.create"@,
            Some(path@),
            at.stamp@,
        ) && final(app)@.objects == sorted::<TpmObject>(final(store)@.objects),
        final(app)@.modal is Message,
{
    if handle is Ok && !present::<TpmObject>(old(store)@.objects, path@) {
        let key = typed_key(path@, handle->Ok_0@, id, at.rfc3339@);
        lookup_of_push::<TpmObject>(old(store)@.objects, key, path@);
        push_keeps_others(old(store)@.objects, key);
        assert(final(store)@.audit_log.drop_last() =~= old(store)@.audit_log);
    }
}

/// What is typed and taken back again leaves the text as it was.
pub proof fn typing_is_taken_back(app: &mut App, c: char, done: (), again: &mut App, undone: ())
    requires
        call_ensures(App::modal_input_char, (app, c), done),
        old(again)@ == final(app)@,
        call_ensures(App::modal_input_backspace, (again,), undone),
    ensures
        final(again)@ == old(app)@,
        old(app)@.modal matches ModalView::CreateKey(t) ==> final(app)@.modal
            == ModalView::CreateKey(t.push(c)),
        !(old(app)@.modal is CreateKey) ==> final(app)@ == old(app)@,
{
    if let ModalView::CreateKey(t) = old(app)@.modal {
        assert(t.push(c).drop_last() =~= t);
    }
}

/// Moving goes one entry at a time and stays within the list.
pub proof fn moving_goes_one_entry(
    up: &mut App,
    down: &mut App,
    a: (),
    b: (),
)
    requires
        call_ensures(App::move_up, (up,), a),
        call_ensures(App::move_down, (down,), b),
        old(down)@.selected_index < old(down)@.list_len() <= usize::MAX,
    ensures
        old(up)@.selected_index > 0 ==> final(up)@.selected_index == old(up)@.selected_index - 1,
        old(up)@.selected_index == 0 ==> final(up)@.selected_index == 0,
        final(up)@.screen == old(up)@.screen && final(up)@.objects == old(up)@.objects,
        final(down)@.selected_index == old(down)@.selected_index + 1
            || (final(down)@.selected_index == old(down)@.selected_index
            && old(down)@.selected_index + 1 == old(down)@.list_len()),
        final(down)@.selected_index < old(down)@.list_len(),
        final(down)@.screen == old(down)@.screen && final(down)@.objects == old(down)@.objects,
{
}

/// Going back closes what lies over the screen first and leaves the screen
/// alone then; else it leads from an object's detail to where one came from.
pub proof fn back_closes_first(app: &mut App, done: ())
    requires
        call_ensures(App::go_back, (app,), done),
    ensures
        final(app)@.modal is Closed,
        !(old(app)@.modal is Closed) ==> final(app)@.screen == old(app)@.screen,
        old(app)@.modal is Closed && old(app)@.screen == Screen::ObjectDetail ==> final(app)@.screen
            == old(app)@.previous_screen,
        old(app)@.modal is Closed && old(app)@.screen != Screen::ObjectDetail
            ==> final(app)@.screen == old(app)@.screen,
        final(app)@.selected_index == old(app)@.selected_index,
{
}

/// After reading anew, the screen holds what the store holds, each list in
/// order, and the newest entries of the log.
pub proof fn refreshed_screen_shows_the_store(
    app: &mut App,
    store: &MemoryStore,
    status: Option<BackendStatus>,
    done: (),
)
    requires
        store@.wf(),
        call_ensures(App::refresh, (app, store, status), done),
    ensures
        final(app)@.objects.len() == store@.objects.len(),
        final(app)@.objects.to_multiset() == store@.objects.to_multiset(),
        final(app)@.policies.to_multiset() == store@.policies.to_multiset(),
        final(app)@.audit_entries.len() <= 100,
        final(app)@.screen == old(app)@.screen && final(app)@.modal == old(app)@.modal
            && final(app)@.selected_index == old(app)@.selected_index,
        status is Some <==> final(app)@.status is Some,
{
    sorted_is_ordered::<TpmObject>(store@.objects);
    sorted_is_ordered::<Policy>(store@.policies);
}

/// Only control and C leave the interface; a deletion is confirmed by a Y alone;
/// and every character that is typed goes into the path.
pub proof fn keys_mean_what_they_say(
    key: Key,
    control: bool,
    a: Action,
    m: ModalAction,
    c: ConfirmAction,
)
    requires
        call_ensures(key_to_action, (key, control), a),
        call_ensures(key_to_modal_action, (key,), m),
        call_ensures(key_to_confirm_action, (key,), c),
    ensures
        a == Action::Quit <==> key == Key::Char('c') && control,
        a == Action::DeleteSelected <==> key == Key::Delete || key == Key::Char('d'),
        a == Action::CreateKey <==> key == Key::Char('n'),
        a == Action::Refresh <==> key == Key::Char('r'),
        a == Action::Up <==> key == Key::Up || key == Key::Char('k'),
        a == Action::Down <==> key == Key::Down || key == Key::Char('j'),
        a == Action::Back <==> key == Key::Esc || key == Key::Char('q'),
        a == Action::GoToDashboard <==> key == Key::Char('1'),
        a == Action::GoToObjects <==> key == Key::Char('2'),
        a == Action::GoToPolicies <==> key == Key::Char('3'),
        a == Action::GoToAuditLog <==> key == Key::Char('4'),
        c == ConfirmAction::Yes <==> key == Key::Char('y') || key == Key::Char('Y'),
        c == ConfirmAction::No <==> key == Key::Char('n') || key == Key::Char('N') || key
            == Key::Esc,
        key matches Key::Char(x) ==> m == ModalAction::Input(x),
        m matches ModalAction::Input(x) ==> key == Key::Char(x),
        m == ModalAction::Confirm <==> key == Key::Enter,
        m == ModalAction::Cancel <==> key == Key::Esc,
{
}

/// The interface is left just where that was asked for, and no other action
/// touches the lists on the screen.
pub proof fn only_quitting_leaves(app: &mut App, action: Action, step: Step)
    requires
        call_ensures(App::run_loop, (app, action), step),
    ensures
        step == Step::Quit <==> action == Action::Quit,
        step == Step::Refresh <==> action == Action::Refresh,
        final(app)@.should_quit == (old(app)@.should_quit || action == Action::Quit),
        final(app)@.objects == old(app)@.objects && final(app)@.policies == old(app)@.policies
            && final(app)@.audit_entries == old(app)@.audit_entries,
        action == Action::GoToDashboard ==> final(app)@.screen == Screen::Dashboard,
        action == Action::GoToObjects ==> final(app)@.screen == Screen::ObjectList,
        action == Action::GoToPolicies ==> final(app)@.screen == Screen::PolicyList,
        action == Action::GoToAuditLog ==> final(app)@.screen == Screen::AuditLog,
{
}

} // verus!
