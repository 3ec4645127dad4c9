//! Actions of the terminal interface that change the workspace.
use vstd::prelude::*;
use vstd::string::*;

use crate::clock::{fresh_id, now, now_stamp, Moment};
use crate::json::{json_object, object1, text_field, text_view};
use crate::model::{
    valid_path, Algorithm, BackendStatus, ObjectKind, ObjectPath, ObjectView, TpmObject,
};
use crate::store::{MemoryStore, StoreState};
use crate::table::{present, without, without_absent};
use crate::text::{glue, trim, trimmed};
use crate::tui::{status_view, App, AppView, Modal, ModalView, StatusView};

verus! {

// ---------------------------------------------------------------------------
// Creating a key
// ---------------------------------------------------------------------------

/// What becomes of a typed path before the TPM is asked: it is refused with a
/// message, or a key is to be created there.
pub open spec fn path_refusal(s: StoreState, path: Seq<char>) -> Option<Seq<char>> {
    if path.len() == 0 {
        Some("path cannot be empty"@)
    } else if !valid_path(path) {
        Some("invalid path: invalid object path: "@ + path)
    } else if present::<TpmObject>(s.objects, path) {
        Some("already exists: "@ + path)
    } else {
        None
    }
}

/// The key as the store keeps it.
pub open spec fn typed_key(path: Seq<char>, handle: Seq<u8>, id: u128, created_at: Seq<char>) -> ObjectView {
    ObjectView {
        id,
        path,
        kind: ObjectKind::SigningKey,
        algorithm: Algorithm::EccP256,
        policy_id: None,
        handle_blob: Some(handle),
        created_at,
        metadata: json_object(seq![text_view("created_via"@, "tui"@)]),
    }
}

/// What the creation of a key does to the store and to the interface, given
/// what the TPM answered.
pub open spec fn creation(
    before: (StoreState, AppView),
    after: (StoreState, AppView),
    path: Seq<char>,
    handle: Result<Vec<u8>, String>,
    status: Option<StatusView>,
    id: u128,
    created_at: Seq<char>,
    stamp: Seq<char>,
) -> bool {
    match handle {
        Err(e) => after == (before.0, before.1.saying("backend error: "@ + e@)),
        Ok(h) => if present::<TpmObject>(before.0.objects, path) {
            after == (before.0, before.1.saying("failed to store key"@))
        } else {
            let kept = (StoreState {
                objects: before.0.objects.push(typed_key(path, h@, id, created_at)),
                ..before.0
            }).logged(
                "key.create"@,
                Some(path),
                json_object(seq![text_view("via"@, "tui"@)]),
                stamp,
            );
            &&& after.0 == kept
            &&& after.1 == before.1.saying("key created: "@ + path).refreshed(kept, status)
        },
    }
}

impl App {
    /// Takes the path that was typed. Where a key is to be created, gives the
    /// place; else shows why not. Does nothing where no path was typed.
    pub fn execute_create_key_check(&mut self, store: &MemoryStore) -> (r: Option<ObjectPath>)
        ensures
            match old(self)@.modal {
                ModalView::CreateKey(input) => match path_refusal(store@, trimmed(input)) {
                    Some(m) => r is None && final(self)@ == old(self)@.saying(m),
                    None => (r matches Some(p) && p@ == trimmed(input)) && final(self)@ == old(
                        self,
                    )@,
                },
                _ => r is None && final(self)@ == old(self)@,
            },
    {
        let path = match &self.modal {
            Modal::CreateKey { input } => trim(input.as_str()),
            _ => {
                return None;
            },
        };
        if path.as_str().unicode_len() == 0 {
            self.say("path cannot be empty".to_owned());
            return None;
        }
        match ObjectPath::new(path.as_str()) {
            None => {
                self.say(glue("invalid path: invalid object path: ", path.as_str()));
                None
            },
            Some(p) => {
                if store.get_object(&p).is_some() {
                    self.say(glue("already exists: ", path.as_str()));
                    return None;
                }
                Some(p)
            },
        }
    }

    fn say(&mut self, text: String)
        ensures
            final(self)@ == old(self)@.saying(text@),
    {
        self.modal = Modal::Message { text };
        assert(self@ =~= old(self)@.saying(text@));
    }

    /// Keeps the key that the TPM created, under a given identifier and time.
    pub fn execute_create_key_at(
        &mut self,
        store: &mut MemoryStore,
        path: ObjectPath,
        handle: Result<Vec<u8>, String>,
        status: Option<BackendStatus>,
        id: u128,
        at: &Moment,
    )
        requires
            old(store)@.wf(),
            old(store)@.can_log(),
        ensures
            final(store)@.wf(),
            creation(
                (old(store)@, old(self)@),
                (final(store)@, final(self)@),
                path@,
                handle,
                status_view(status),
                id,
                at.rfc3339@,
                at.stamp@,
            ),
    {
        let blob = match handle {
            Err(e) => {
                self.say(glue("backend error: ", e.as_str()));
                return;
            },
            Ok(h) => h,
        };
        let name = path.copy();
        let obj = TpmObject {
            id,
            path,
            kind: ObjectKind::SigningKey,
            algorithm: Algorithm::EccP256,
            policy_id: None,
            handle_blob: Some(blob),
            created_at: at.rfc3339.clone(),
            metadata: object1(text_field("created_via", "tui")),
        };
        match store.insert_object(obj) {
            Err(_) => {
                self.say("failed to store key".to_owned());
            },
            Ok(_) => {
                let details = object1(text_field("via", "tui"));
                store.log_action_at(
                    "key.create",
                    Some(name.as_str()),
                    details.as_str(),
                    at.stamp.as_str(),
                );
                self.say(glue("key created: ", name.as_str()));
                self.refresh(store, status);
            },
        }
    }

    /// Keeps the key that the TPM created, under a fresh identifier.
    pub fn execute_create_key(
        &mut self,
        store: &mut MemoryStore,
        path: ObjectPath,
        handle: Result<Vec<u8>, String>,
        status: Option<BackendStatus>,
    )
        requires
            old(store)@.wf(),
            old(store)@.can_log(),
        ensures
            final(store)@.wf(),
            exists|id: u128, created_at: Seq<char>, stamp: Seq<char>|
                #[trigger] creation(
                    (old(store)@, old(self)@),
                    (final(store)@, final(self)@),
                    path@,
                    handle,
                    status_view(status),
                    id,
                    created_at,
                    stamp,
                ),
    {
        let id: u128 = fresh_id();
        let at = now();
        self.execute_create_key_at(store, path, handle, status, id, &at);
    }
}

// ---------------------------------------------------------------------------
// Deleting an object
// ---------------------------------------------------------------------------

/// The selection after the list has become shorter.
pub open spec fn selection_in(v: AppView) -> AppView {
    if v.selected_index > 0 && v.selected_index >= v.objects.len() {
        AppView {
            selected_index: if v.objects.len() == 0 {
                0
            } else {
                (v.objects.len() - 1) as usize
            },
            ..v
        }
    } else {
        v
    }
}

/// What the deletion that was confirmed does to the store and to the interface.
pub open spec fn deletion(
    before: (StoreState, AppView),
    after: (StoreState, AppView),
    status: Option<StatusView>,
    stamp: Seq<char>,
) -> bool {
    match before.1.modal {
        ModalView::ConfirmDelete(path) => if !valid_path(path) {
            after == (before.0, before.1.saying("error: invalid object path: "@ + path))
        } else if !present::<TpmObject>(before.0.objects, path) {
            after == (before.0, before.1.saying("not found: "@ + path))
        } else {
            let gone = (StoreState {
                objects: without::<TpmObject>(before.0.objects, path),
                ..before.0
            }).logged(
                "object.delete"@,
                Some(path),
                json_object(seq![text_view("via"@, "tui"@)]),
                stamp,
            );
            &&& after.0 == gone
            &&& after.1 == selection_in(
                before.1.saying("deleted: "@ + path).refreshed(gone, status),
            )
        },
        _ => after == before,
    }
}

impl App {
    /// Deletes the object whose deletion was confirmed at the given time.
    pub fn execute_delete_at(
        &mut self,
        store: &mut MemoryStore,
        status: Option<BackendStatus>,
        stamp: &str,
    )
        requires
            old(store)@.wf(),
            old(store)@.can_log(),
        ensures
            final(store)@.wf(),
            deletion(
                (old(store)@, old(self)@),
                (final(store)@, final(self)@),
                status_view(status),
                stamp@,
            ),
    {
        let path = match &self.modal {
            Modal::ConfirmDelete { path } => path.clone(),
            _ => {
                return;
            },
        };
        let p = match ObjectPath::new(path.as_str()) {
            None => {
                self.say(glue("error: invalid object path: ", path.as_str()));
                return;
            },
            Some(p) => p,
        };
        if !store.delete_object(&p) {
            proof {
                without_absent::<TpmObject>(old(store)@.objects, path@);
            }
            assert(store@ =~= old(store)@);
            self.say(glue("not found: ", path.as_str()));
            return;
        }
        let details = object1(text_field("via", "tui"));
        store.log_action_at("object.delete", Some(path.as_str()), details.as_str(), stamp);
        self.say(glue("deleted: ", path.as_str()));
        self.refresh(store, status);
        let ghost shown = self@;
        assert(self@.objects.len() == self.objects@.len());
        if self.selected_index > 0 && self.selected_index >= self.objects.len() {
            self.selected_index = if self.objects.len() > 0 {
                self.objects.len() - 1
            } else {
                0
            };
        }
        assert(self@ =~= selection_in(shown));
    }

    /// Deletes the object whose deletion was confirmed.
    pub fn execute_delete(&mut self, store: &mut MemoryStore, status: Option<BackendStatus>)
        requires
            old(store)@.wf(),
            old(store)@.can_log(),
        ensures
            final(store)@.wf(),
            exists|stamp: Seq<char>|
                #[trigger] deletion(
                    (old(store)@, old(self)@),
                    (final(store)@, final(self)@),
                    status_view(status),
                    stamp,
                ),
    {
        let stamp = now_stamp();
        self.execute_delete_at(store, status, stamp.as_str());
    }
}

/// After a deletion, either the list is empty or the selection is in it, if it
/// was before.
pub proof fn deletion_keeps_selection(
    before: (StoreState, AppView),
    after: (StoreState, AppView),
    status: Option<StatusView>,
    stamp: Seq<char>,
    path: Seq<char>,
)
    requires
        deletion(before, after, status, stamp),
        before.1.modal == ModalView::ConfirmDelete(path),
        valid_path(path),
        present::<TpmObject>(before.0.objects, path),
        before.0.objects.len() <= usize::MAX,
    ensures
        after.1.objects.len() == 0 || after.1.selected_index < after.1.objects.len(),
{
    crate::table::sorted_is_ordered::<TpmObject>(after.0.objects);
    crate::table::without_removes::<TpmObject>(before.0.objects, path);
    without_is_shorter(before.0.objects, path);
}

proof fn without_is_shorter(s: Seq<ObjectView>, path: Seq<char>)
    ensures
        without::<TpmObject>(s, path).len() <= s.len(),
    decreases s.len(),
{
    if s.len() > 0 {
        without_is_shorter(s.drop_last(), path);
    }
}

} // verus!
