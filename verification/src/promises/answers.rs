//! The lists that the daemon answers with: every record is in its list, once and
//! in order, with what identifies it.
use vstd::prelude::*;

use crate::commands::common::{objects_of, ObjectClass};
use crate::daemon::requests::{
    approval_fields, handle_list_approvals, handle_list_identities, identity_fields,
};
use crate::daemon::{
    entry_fields, handle_audit_log, handle_list_keys, handle_list_objects, handle_list_policies,
    handle_list_secrets, object_fields, object_items, policy_fields, Answer, ListShape,
};
use crate::ids::uuid_form;
use crate::json::{json_array, json_object, json_view, number_view, signed_view, text_view};
use crate::model::{AuditEntry, Identity, ObjectView, Policy, TpmObject};
use crate::promises::measurements::says;
use crate::store::MemoryStore;
use crate::table::ref_rows;

verus! {

/// The answer is a list under a name and nothing else.
pub open spec fn lists(a: Answer, name: Seq<char>, items: Seq<Seq<char>>) -> bool {
    &&& a.status == 200
    &&& a.body@ == json_object(seq![json_view(name, json_array(items))])
}

proof fn item_tells(all: Seq<ObjectView>, shape: ListShape, i: int)
    requires
        0 <= i < all.len(),
    ensures
        object_items(all, shape).len() == all.len(),
        says(object_items(all, shape)[i], seq![text_view("path"@, all[i].path)]),
        shape != ListShape::Secrets ==> says(
            object_items(all, shape)[i],
            seq![
                text_view("path"@, all[i].path),
                text_view("kind"@, all[i].kind.text()),
                text_view("algorithm"@, all[i].algorithm.text()),
            ],
        ),
{
    let f = object_fields(all[i], shape);
    assert(object_items(all, shape)[i] == json_object(f));
    assert(f[0] == text_view("path"@, all[i].path));
    if shape != ListShape::Secrets {
        assert(f[1] == text_view("kind"@, all[i].kind.text()));
        assert(f[2] == text_view("algorithm"@, all[i].algorithm.text()));
    }
}

/// The list of keys has an item for every key, with its path and algorithm.
pub proof fn keys_are_told(store: &MemoryStore, keys: Vec<&TpmObject>, a: Answer, i: int) -> (items:
    Seq<Seq<char>>)
    requires
        call_ensures(objects_of, (store, ObjectClass::Key), keys),
        call_ensures(handle_list_keys, (store,), a),
        0 <= i < keys@.len(),
    ensures
        lists(a, "keys"@, items),
        items.len() == keys@.len(),
        says(
            items[i],
            seq![
                text_view("path"@, keys@[i]@.path),
                text_view("kind"@, keys@[i]@.kind.text()),
                text_view("algorithm"@, keys@[i]@.algorithm.text()),
            ],
        ),
{
    let all = ref_rows(keys@);
    assert(all[i] == keys@[i]@);
    item_tells(all, ListShape::Keys, i);
    object_items(all, ListShape::Keys)
}

/// The list of secrets has an item for every secret, with its path.
pub proof fn secrets_are_told(
    store: &MemoryStore,
    secrets: Vec<&TpmObject>,
    a: Answer,
    i: int,
) -> (items: Seq<Seq<char>>)
    requires
        call_ensures(objects_of, (store, ObjectClass::Secret), secrets),
        call_ensures(handle_list_secrets, (store,), a),
        0 <= i < secrets@.len(),
    ensures
        lists(a, "secrets"@, items),
        items.len() == secrets@.len(),
        says(items[i], seq![text_view("path"@, secrets@[i]@.path)]),
{
    let all = ref_rows(secrets@);
    assert(all[i] == secrets@[i]@);
    item_tells(all, ListShape::Secrets, i);
    object_items(all, ListShape::Secrets)
}

/// The list of objects has an item for every object.
pub proof fn objects_are_told(store: &MemoryStore, all: Vec<&TpmObject>, a: Answer, i: int) -> (items:
    Seq<Seq<char>>)
    requires
        call_ensures(MemoryStore::list_objects, (store,), all),
        call_ensures(handle_list_objects, (store,), a),
        0 <= i < all@.len(),
    ensures
        lists(a, "objects"@, items),
        items.len() == all@.len(),
        says(
            items[i],
            seq![
                text_view("path"@, all@[i]@.path),
                text_view("kind"@, all@[i]@.kind.text()),
                text_view("algorithm"@, all@[i]@.algorithm.text()),
            ],
        ),
{
    let rows = ref_rows(all@);
    assert(rows[i] == all@[i]@);
    item_tells(rows, ListShape::Objects, i);
    object_items(rows, ListShape::Objects)
}

/// The list of policies has an item for every policy, with the number of its
/// rules.
pub proof fn policies_are_told(store: &MemoryStore, all: Vec<&Policy>, a: Answer, i: int) -> (items:
    Seq<Seq<char>>)
    requires
        call_ensures(MemoryStore::list_policies, (store,), all),
        call_ensures(handle_list_policies, (store,), a),
        0 <= i < all@.len(),
    ensures
        lists(a, "policies"@, items),
        items.len() == all@.len(),
        says(
            items[i],
            seq![
                text_view("name"@, all@[i]@.name),
                number_view("rule_count"@, all@[i]@.rules.len() as u64),
            ],
        ),
{
    let rows = ref_rows(all@);
    assert(rows[i] == all@[i]@);
    let items = Seq::new(rows.len(), |k: int| json_object(policy_fields(rows[k])));
    let f = policy_fields(rows[i]);
    assert(items[i] == json_object(f));
    assert(f[0] == text_view("name"@, rows[i].name));
    assert(f[1] == number_view("rule_count"@, rows[i].rules.len() as u64));
    items
}

/// The list of identities has an item for every identity.
pub proof fn identities_are_told(
    store: &MemoryStore,
    all: Vec<&Identity>,
    a: Answer,
    i: int,
) -> (items: Seq<Seq<char>>)
    requires
        call_ensures(MemoryStore::list_identities, (store,), all),
        call_ensures(handle_list_identities, (store,), a),
        0 <= i < all@.len(),
    ensures
        lists(a, "identities"@, items),
        items.len() == all@.len(),
        says(
            items[i],
            seq![
                text_view("name"@, all@[i]@.name),
                text_view("id"@, uuid_form(all@[i]@.id)),
                text_view("usage"@, all@[i]@.usage.text()),
                text_view("key_object_id"@, uuid_form(all@[i]@.key_object_id)),
            ],
        ),
{
    let rows = ref_rows(all@);
    assert(rows[i] == all@[i]@);
    let items = Seq::new(rows.len(), |k: int| json_object(identity_fields(rows[k])));
    let f = identity_fields(rows[i]);
    assert(items[i] == json_object(f));
    assert(f[0] == text_view("name"@, rows[i].name));
    assert(f[1] == text_view("id"@, uuid_form(rows[i].id)));
    assert(f[2] == text_view("usage"@, rows[i].usage.text()));
    assert(f[3] == text_view("key_object_id"@, uuid_form(rows[i].key_object_id)));
    items
}

/// The list of approvals has an item for every request, with its identifier.
pub proof fn approvals_are_told(store: &MemoryStore, a: Answer, i: int) -> (items: Seq<Seq<char>>)
    requires
        call_ensures(handle_list_approvals, (store,), a),
        0 <= i < store@.approvals.len(),
    ensures
        lists(a, "approvals"@, items),
        items.len() == store@.approvals.len(),
        says(
            items[i],
            seq![
                text_view("id"@, uuid_form(store@.approvals[i].id)),
                text_view("operation"@, store@.approvals[i].operation),
                text_view("requester"@, store@.approvals[i].requester),
                text_view("status"@, store@.approvals[i].status.text()),
            ],
        ),
{
    let all = store@.approvals;
    let items = Seq::new(all.len(), |k: int| json_object(approval_fields(all[k])));
    let f = approval_fields(all[i]);
    assert(items[i] == json_object(f));
    assert(f[0] == text_view("id"@, uuid_form(all[i].id)));
    assert(f[1] == text_view("operation"@, all[i].operation));
    assert(f[3] == text_view("requester"@, all[i].requester));
    assert(f[4] == text_view("status"@, all[i].status.text()));
    items
}

/// The answer about the log has an item for each of the fifty newest entries,
/// with its number and its action.
pub proof fn entries_are_told(
    store: &MemoryStore,
    entries: Vec<&AuditEntry>,
    a: Answer,
    i: int,
) -> (items: Seq<Seq<char>>)
    requires
        call_ensures(
            MemoryStore::list_audit_log,
            (store, None::<&str>, None::<&str>, 50usize),
            entries,
        ),
        call_ensures(handle_audit_log, (store,), a),
        0 <= i < entries@.len(),
    ensures
        lists(a, "entries"@, items),
        items.len() == entries@.len(),
        says(
            items[i],
            seq![
                signed_view("id"@, entries@[i]@.id),
                text_view("timestamp"@, entries@[i]@.timestamp),
                text_view("action"@, entries@[i]@.action),
                text_view("details"@, entries@[i]@.details),
            ],
        ),
{
    let all = ref_rows(entries@);
    assert(all[i] == entries@[i]@);
    let items = Seq::new(all.len(), |k: int| json_object(entry_fields(all[k])));
    let f = entry_fields(all[i]);
    assert(items[i] == json_object(f));
    assert(f[0] == signed_view("id"@, all[i].id));
    assert(f[1] == text_view("timestamp"@, all[i].timestamp));
    assert(f[2] == text_view("action"@, all[i].action));
    assert(f[4] == text_view("details"@, all[i].details));
    items
}

} // verus!
