//! Requests that change the workspace or ask for one thing.
use vstd::prelude::*;
use vstd::string::*;
use vstd::utf8::*;

use crate::clock::{fresh_id, now, now_stamp, Moment};
use crate::commands::apply::ApplyOutput;
use crate::commands::audit::{receipts_of, records, WitnessLogRow, WitnessSubmission};
use crate::commands::common::copy_bytes;
use crate::commands::identity::{default_key_path, init_check, Binding, BindingView, InitPlan};
use crate::commands::policy::{make_rules, rules_asked};
use crate::daemon::{list_body, ok, refuse, says, told, Answer};
use crate::failure::Failure;
use crate::hex::{hex_bytes, hex_encode, hex_text, hex_to_bytes, HexError};
use crate::ids::{id_text, parse_id, uuid_form, uuid_value};
use crate::json::{
    array_text, field_views, flag_field, flag_view, json_array, json_field, json_object, json_view,
    number_field, number_view, object0, object1, object2, object3, object_of, object_text,
    opt_field, opt_view, plain, text_field, text_view, FieldView, JsonField, JsonLeaf, LeafView,
};
use crate::model::{
    rule_views, valid_path, Algorithm, ApprovalRequest, ApprovalStatus, ApprovalView, Identity,
    IdentityUsage, IdentityView, KeyHandle, ObjectKind, ObjectPath, ObjectView, Policy, PolicyView,
    TpmObject,
};
use crate::store::{MemoryStore, StoreState, with_status};
use crate::table::{
    Ided, lookup, lookup_id, position_id, position_id_is_first, present, ref_rows, rows, sorted, without,
};
use crate::text::{
    copy_opt, decimal, framed, join, joined, opt_str, opt_text, push_decimal, same, views,
};
use crate::witness::{
    judge, latest, latest_row, receipt, received, rows_of, submitted, verdict, Verdict, WitnessLog,
};

verus! {

// ---------------------------------------------------------------------------
// Keys
// ---------------------------------------------------------------------------

/// The algorithm that a request names, or the usual one.
pub open spec fn algorithm_asked(algorithm: Option<Seq<char>>) -> Seq<char> {
    match algorithm {
        Some(a) => a,
        None => "ecc-p256"@,
    }
}

fn asked(algorithm: Option<&str>) -> (s: String)
    ensures
        s@ == algorithm_asked(opt_str(algorithm)),
{
    match algorithm {
        Some(a) => a.to_owned(),
        None => "ecc-p256".to_owned(),
    }
}

/// Checks a request for a new key.
pub fn handle_create_key_check(store: &MemoryStore, path: &str, algorithm: Option<&str>) -> (r:
    Result<(ObjectPath, Algorithm), Answer>)
    ensures
        match r {
            Ok((p, alg)) => valid_path(path@) && p@ == path@ && !present::<TpmObject>(
                store@.objects,
                path@,
            ) && Algorithm::named(algorithm_asked(opt_str(algorithm))) == Some(alg),
            Err(a) => if !valid_path(path@) {
                says(a, 400, "invalid path: invalid object path: "@ + path@)
            } else if present::<TpmObject>(store@.objects, path@) {
                says(a, 409, "object already exists: "@ + path@)
            } else {
                Algorithm::named(algorithm_asked(opt_str(algorithm))) is None && says(
                    a,
                    400,
                    "unknown algorithm: "@ + algorithm_asked(opt_str(algorithm)),
                )
            },
        },
{
    let p = match ObjectPath::new(path) {
        None => {
            return Err(refuse(400, "invalid path: invalid object path: ", path));
        },
        Some(p) => p,
    };
    if store.get_object(&p).is_some() {
        return Err(refuse(409, "object already exists: ", path));
    }
    let name = asked(algorithm);
    match Algorithm::parse(name.as_str()) {
        None => Err(refuse(400, "unknown algorithm: ", name.as_str())),
        Some(alg) => Ok((p, alg)),
    }
}

/// The key as the store keeps it.
pub open spec fn new_key(
    path: Seq<char>,
    algorithm: Algorithm,
    handle: Seq<u8>,
    id: u128,
    created_at: Seq<char>,
) -> ObjectView {
    ObjectView {
        id,
        path,
        kind: ObjectKind::SigningKey,
        algorithm,
        policy_id: None,
        handle_blob: Some(handle),
        created_at,
        metadata: json_object(Seq::empty()),
    }
}

/// What a request for a new key does to the store and is answered.
pub open spec fn key_made(
    before: StoreState,
    after: StoreState,
    a: Answer,
    path: Seq<char>,
    algorithm: Algorithm,
    named: Seq<char>,
    handle: Seq<u8>,
    id: u128,
    created_at: Seq<char>,
    stamp: Seq<char>,
) -> bool {
    if present::<TpmObject>(before.objects, path) {
        after == before && says(a, 500, "UNIQUE constraint failed: objects.path"@)
    } else {
        &&& after == (StoreState {
            objects: before.objects.push(new_key(path, algorithm, handle, id, created_at)),
            ..before
        }).logged(
            "key.create"@,
            Some(path),
            json_object(seq![text_view("algorithm"@, named), text_view("via"@, "api"@)]),
            stamp,
        )
        &&& says(
            a,
            200,
            json_object(
                seq![
                    text_view("path"@, path),
                    text_view("id"@, uuid_form(id)),
                    text_view("algorithm"@, algorithm.text()),
                ],
            ),
        )
    }
}

/// Keeps a key that the TPM has created, under a given identifier and time.
pub fn handle_create_key_at(
    store: &mut MemoryStore,
    path: ObjectPath,
    algorithm: Algorithm,
    named: Option<&str>,
    handle: Vec<u8>,
    id: u128,
    at: &Moment,
) -> (a: Answer)
    requires
        old(store)@.wf(),
        old(store)@.can_log(),
    ensures
        final(store)@.wf(),
        key_made(
            old(store)@,
            final(store)@,
            a,
            path@,
            algorithm,
            algorithm_asked(opt_str(named)),
            handle@,
            id,
            at.rfc3339@,
            at.stamp@,
        ),
{
    let name = path.copy();
    let obj = TpmObject {
        id,
        path,
        kind: ObjectKind::SigningKey,
        algorithm,
        policy_id: None,
        handle_blob: Some(handle),
        created_at: at.rfc3339.clone(),
        metadata: object0(),
    };
    match store.insert_object(obj) {
        Err(e) => {
            return told(500, e.message());
        },
        Ok(_) => {},
    }
    let word = asked(named);
    let details = object2(text_field("algorithm", word.as_str()), text_field("via", "api"));
    store.log_action_at("key.create", Some(name.as_str()), details.as_str(), at.stamp.as_str());
    ok(
        object3(
            text_field("path", name.as_str()),
            text_field("id", id_text(id).as_str()),
            text_field("algorithm", algorithm.name()),
        ),
    )
}

/// Keeps a key that the TPM has created, under a fresh identifier.
pub fn handle_create_key(
    store: &mut MemoryStore,
    path: ObjectPath,
    algorithm: Algorithm,
    named: Option<&str>,
    handle: Vec<u8>,
) -> (a: Answer)
    requires
        old(store)@.wf(),
        old(store)@.can_log(),
    ensures
        final(store)@.wf(),
        exists|id: u128, created_at: Seq<char>, stamp: Seq<char>|
            #[trigger] key_made(
                old(store)@,
                final(store)@,
                a,
                path@,
                algorithm,
                algorithm_asked(opt_str(named)),
                handle@,
                id,
                created_at,
                stamp,
            ),
{
    let id: u128 = fresh_id();
    let at = now();
    handle_create_key_at(store, path, algorithm, named, handle, id, &at)
}

/// What is told of a key.
pub open spec fn key_fields(o: ObjectView) -> Seq<FieldView> {
    seq![
        text_view("path"@, o.path),
        text_view("id"@, uuid_form(o.id)),
        text_view("kind"@, o.kind.text()),
        text_view("algorithm"@, o.algorithm.text()),
        flag_view("has_policy"@, o.policy_id is Some),
        text_view("created_at"@, o.created_at),
    ]
}

/// Tells of a key.
pub fn handle_get_key(store: &MemoryStore, path: &str) -> (a: Answer)
    ensures
        if !valid_path(path@) {
            says(a, 400, "invalid path: invalid object path: "@ + path@)
        } else {
            match lookup::<TpmObject>(store@.objects, path@) {
                None => says(a, 404, "not found: "@ + path@),
                Some(o) => says(a, 200, json_object(key_fields(o))),
            }
        },
{
    let p = match ObjectPath::new(path) {
        None => {
            return refuse(400, "invalid path: invalid object path: ", path);
        },
        Some(p) => p,
    };
    match store.get_object(&p) {
        None => refuse(404, "not found: ", path),
        Some(o) => {
            let mut v: Vec<JsonField> = Vec::new();
            v.push(text_field("path", o.path.as_str()));
            v.push(text_field("id", id_text(o.id).as_str()));
            v.push(text_field("kind", o.kind.name()));
            v.push(text_field("algorithm", o.algorithm.name()));
            v.push(flag_field("has_policy", o.policy_id.is_some()));
            v.push(text_field("created_at", o.created_at.as_str()));
            assert(field_views(v@) =~= key_fields(o@));
            ok(object_of(&v))
        },
    }
}

/// Checks a request for a signature: the key and the data to sign. A digit
/// without its pair is refused like any other pair that is no number.
pub fn handle_sign_check(store: &MemoryStore, path: &str, data_hex: &str) -> (r: Result<
    (KeyHandle, Vec<u8>),
    Answer,
>)
    ensures
        match r {
            Ok((h, data)) => valid_path(path@) && h.path@ == path@ && (lookup::<TpmObject>(
                store@.objects,
                path@,
            ) matches Some(o) && o.handle_blob == Some(h.id@)) && hex_bytes(encode_utf8(data_hex@))
                == Ok::<Seq<u8>, HexError>(data@),
            Err(a) => if !valid_path(path@) {
                says(a, 400, "invalid object path: "@ + path@)
            } else {
                match lookup::<TpmObject>(store@.objects, path@) {
                    None => says(a, 404, "not found: "@ + path@),
                    Some(o) => if o.handle_blob is None {
                        says(a, 400, "key has no handle"@)
                    } else {
                        hex_bytes(encode_utf8(data_hex@)) is Err && says(
                            a,
                            400,
                            "invalid hex: invalid digit found in string"@,
                        )
                    },
                }
            },
        },
{
    let p = match ObjectPath::new(path) {
        None => {
            return Err(refuse(400, "invalid object path: ", path));
        },
        Some(p) => p,
    };
    let o = match store.get_object(&p) {
        None => {
            return Err(refuse(404, "not found: ", path));
        },
        Some(o) => o,
    };
    let blob = match &o.handle_blob {
        None => {
            return Err(told(400, "key has no handle"));
        },
        Some(b) => b,
    };
    match hex_to_bytes(data_hex) {
        Err(_) => Err(told(400, "invalid hex: invalid digit found in string")),
        Ok(data) => Ok((KeyHandle { id: copy_bytes(blob), path: path.to_owned() }, data)),
    }
}

/// The store after a signature was made.
pub open spec fn sign_logged(before: StoreState, path: Seq<char>, len: usize, stamp: Seq<char>) -> StoreState {
    before.logged(
        "key.sign"@,
        Some(path),
        json_object(seq![text_view("via"@, "api"@), number_view("data_len"@, len as u64)]),
        stamp,
    )
}

/// What is told of a signature.
pub open spec fn sign_body(path: Seq<char>, signature: Seq<u8>) -> Seq<char> {
    json_object(
        seq![text_view("key"@, path), text_view("signature_hex"@, hex_text(signature))],
    )
}

/// Logs a signature that was made at the given time and hands it out.
pub fn handle_sign_at(
    store: &mut MemoryStore,
    path: &str,
    data_len: usize,
    signature: &Vec<u8>,
    stamp: &str,
) -> (a: Answer)
    requires
        old(store)@.wf(),
        old(store)@.can_log(),
    ensures
        final(store)@.wf(),
        final(store)@ == sign_logged(old(store)@, path@, data_len, stamp@),
        says(a, 200, sign_body(path@, signature@)),
{
    let details = object2(text_field("via", "api"), number_field("data_len", data_len as u64));
    store.log_action_at("key.sign", Some(path), details.as_str(), stamp);
    let hex = hex_encode(signature.as_slice());
    ok(object2(text_field("key", path), text_field("signature_hex", hex.as_str())))
}

/// Logs a signature that was made just now and hands it out.
pub fn handle_sign(
    store: &mut MemoryStore,
    path: &str,
    data_len: usize,
    signature: &Vec<u8>,
) -> (a: Answer)
    requires
        old(store)@.wf(),
        old(store)@.can_log(),
    ensures
        final(store)@.wf(),
        exists|stamp: Seq<char>|
            final(store)@ == #[trigger] sign_logged(old(store)@, path@, data_len, stamp),
        says(a, 200, sign_body(path@, signature@)),
{
    let stamp = now_stamp();
    handle_sign_at(store, path, data_len, signature, stamp.as_str())
}

/// What a request to delete a key does to the store and is answered.
pub open spec fn key_gone(
    before: StoreState,
    after: StoreState,
    a: Answer,
    path: Seq<char>,
    stamp: Seq<char>,
) -> bool {
    if !valid_path(path) {
        after == before && says(a, 400, "invalid object path: "@ + path)
    } else if !present::<TpmObject>(before.objects, path) {
        after == before && says(a, 404, "not found: "@ + path)
    } else {
        &&& after == (StoreState {
            objects: without::<TpmObject>(before.objects, path),
            ..before
        }).logged(
            "key.delete"@,
            Some(path),
            json_object(seq![text_view("via"@, "api"@)]),
            stamp,
        )
        &&& says(a, 200, json_object(seq![text_view("deleted"@, path)]))
    }
}

/// Deletes a key at the given time.
pub fn handle_delete_key_at(store: &mut MemoryStore, path: &str, stamp: &str) -> (a: Answer)
    requires
        old(store)@.wf(),
        old(store)@.can_log(),
    ensures
        final(store)@.wf(),
        key_gone(old(store)@, final(store)@, a, path@, stamp@),
{
    let p = match ObjectPath::new(path) {
        None => {
            return refuse(400, "invalid object path: ", path);
        },
        Some(p) => p,
    };
    if !store.delete_object(&p) {
        proof {
            crate::table::without_absent::<TpmObject>(old(store)@.objects, path@);
        }
        assert(store@ =~= old(store)@);
        return refuse(404, "not found: ", path);
    }
    let details = object1(text_field("via", "api"));
    store.log_action_at("key.delete", Some(path), details.as_str(), stamp);
    ok(object1(text_field("deleted", path)))
}

/// Deletes a key.
pub fn handle_delete_key(store: &mut MemoryStore, path: &str) -> (a: Answer)
    requires
        old(store)@.wf(),
        old(store)@.can_log(),
    ensures
        final(store)@.wf(),
        exists|stamp: Seq<char>|
            #[trigger] key_gone(old(store)@, final(store)@, a, path@, stamp),
{
    let stamp = now_stamp();
    handle_delete_key_at(store, path, stamp.as_str())
}

// ---------------------------------------------------------------------------
// Policies
// ---------------------------------------------------------------------------

/// A request for a new policy.
#[derive(Debug)]
pub struct CreatePolicyRequest {
    pub name: String,
    pub pcr_indices: Option<Vec<u32>>,
    pub pcr_bank: Option<String>,
    pub require_password: Option<bool>,
}

impl CreatePolicyRequest {
    /// The rules that are asked for.
    pub open spec fn rules(self) -> Seq<crate::model::RuleView> {
        rules_asked(
            match self.pcr_indices {
                Some(v) => v@,
                None => Seq::empty(),
            },
            match self.pcr_bank {
                Some(b) => b@,
                None => "sha256"@,
            },
            self.require_password == Some(true),
        )
    }
}

/// What a request for a new policy does to the store and is answered.
pub open spec fn policy_made(
    before: StoreState,
    after: StoreState,
    a: Answer,
    req: CreatePolicyRequest,
    id: u128,
    stamp: Seq<char>,
) -> bool {
    if present::<Policy>(before.policies, req.name@) {
        after == before && says(a, 409, "policy already exists: "@ + req.name@)
    } else {
        &&& after == (StoreState {
            policies: before.policies.push(
                PolicyView { id, name: req.name@, rules: req.rules() },
            ),
            ..before
        }).logged(
            "policy.create"@,
            None,
            json_object(seq![text_view("name"@, req.name@), text_view("via"@, "api"@)]),
            stamp,
        )
        &&& says(
            a,
            200,
            json_object(
                seq![
                    text_view("name"@, req.name@),
                    text_view("id"@, uuid_form(id)),
                    number_view("rule_count"@, req.rules().len() as u64),
                ],
            ),
        )
    }
}

/// Creates a policy under a given identifier and time.
pub fn handle_create_policy_at(
    store: &mut MemoryStore,
    req: &CreatePolicyRequest,
    id: u128,
    stamp: &str,
) -> (a: Answer)
    requires
        old(store)@.wf(),
        old(store)@.can_log(),
    ensures
        final(store)@.wf(),
        policy_made(old(store)@, final(store)@, a, *req, id, stamp@),
{
    let name = req.name.as_str();
    if store.get_policy(name).is_some() {
        return refuse(409, "policy already exists: ", name);
    }
    let nothing: Vec<u32> = Vec::new();
    assert(nothing@ =~= Seq::<u32>::empty());
    let indices = match &req.pcr_indices {
        Some(v) => v,
        None => &nothing,
    };
    let bank = match &req.pcr_bank {
        Some(b) => b.as_str(),
        None => "sha256",
    };
    let password = match req.require_password {
        Some(b) => b,
        None => false,
    };
    let rules = make_rules(indices, bank, password);
    let count: usize = rules.len();
    assert(rule_views(rules@).len() == count);
    store.insert_policy(Policy { id, name: req.name.clone(), rules });
    let details = object2(text_field("name", name), text_field("via", "api"));
    store.log_action_at("policy.create", None, details.as_str(), stamp);
    ok(
        object3(
            text_field("name", name),
            text_field("id", id_text(id).as_str()),
            number_field("rule_count", count as u64),
        ),
    )
}

/// Creates a policy under a fresh identifier.
pub fn handle_create_policy(store: &mut MemoryStore, req: &CreatePolicyRequest) -> (a: Answer)
    requires
        old(store)@.wf(),
        old(store)@.can_log(),
    ensures
        final(store)@.wf(),
        exists|id: u128, stamp: Seq<char>|
            #[trigger] policy_made(old(store)@, final(store)@, a, *req, id, stamp),
{
    let id: u128 = fresh_id();
    let stamp = now_stamp();
    handle_create_policy_at(store, req, id, stamp.as_str())
}

// ---------------------------------------------------------------------------
// Approvals
// ---------------------------------------------------------------------------

/// What is told of a request for approval in the list.
pub open spec fn approval_fields(a: ApprovalView) -> Seq<FieldView> {
    seq![
        text_view("id"@, uuid_form(a.id)),
        text_view("operation"@, a.operation),
        opt_view("target"@, a.target),
        text_view("requester"@, a.requester),
        text_view("status"@, a.status.text()),
        text_view("created_at"@, a.created_at),
    ]
}

fn approval_item(a: &ApprovalRequest) -> (s: String)
    ensures
        s@ == json_object(approval_fields(a@)),
        object_text(s@),
{
    let mut v: Vec<JsonField> = Vec::new();
    v.push(text_field("id", id_text(a.id).as_str()));
    v.push(text_field("operation", a.operation.as_str()));
    v.push(opt_field("target", &a.target));
    v.push(text_field("requester", a.requester.as_str()));
    v.push(text_field("status", a.status.name()));
    v.push(text_field("created_at", a.created_at.as_str()));
    assert(field_views(v@) =~= approval_fields(a@));
    proof {
        reveal_strlit("id");
        reveal_strlit("operation");
        reveal_strlit("target");
        reveal_strlit("requester");
        reveal_strlit("status");
        reveal_strlit("created_at");
        assert(plain(field_views(v@)));
    }
    object_of(&v)
}

/// Lists the requests for approval.
pub fn handle_list_approvals(store: &MemoryStore) -> (a: Answer)
    ensures
        says(
            a,
            200,
            list_body(
                "approvals"@,
                Seq::new(
                    store@.approvals.len(),
                    |i: int| json_object(approval_fields(store@.approvals[i])),
                ),
            ),
        ),
{
    let list = store.list_approvals();
    let ghost all = rows(list@);
    let mut v: Vec<String> = Vec::new();
    let mut n: usize = 0;
    while n < list.len()
        invariant
            n <= list@.len(),
            all == rows(list@),
            v@.len() == n,
            forall|i: int| 0 <= i < v@.len() ==> object_text((#[trigger] v@[i])@),
            forall|i: int|
                0 <= i < v@.len() ==> (#[trigger] v@[i])@ == json_object(approval_fields(all[i])),
        decreases list@.len() - n,
    {
        assert(all[n as int] == list@[n as int]@);
        v.push(approval_item(&list[n]));
        n += 1;
    }
    assert(views(v@) =~= Seq::new(all.len(), |i: int| json_object(approval_fields(all[i]))));
    ok(object1(json_field("approvals", array_text(&v))))
}

/// A request for approval.
#[derive(Debug)]
pub struct ApprovalReq {
    pub operation: String,
    pub target: Option<String>,
    pub requester: String,
    pub reason: Option<String>,
}

/// The request as the store keeps it.
pub open spec fn pending(req: ApprovalReq, id: u128, created_at: Seq<char>) -> ApprovalView {
    ApprovalView {
        id,
        operation: req.operation@,
        target: opt_text(req.target),
        requester: req.requester@,
        reason: opt_text(req.reason),
        status: ApprovalStatus::Pending,
        created_at,
        resolved_at: None,
        resolved_by: None,
    }
}

/// The store after a request for approval.
pub open spec fn approval_asked(
    before: StoreState,
    req: ApprovalReq,
    id: u128,
    created_at: Seq<char>,
    stamp: Seq<char>,
) -> StoreState {
    StoreState { approvals: before.approvals.push(pending(req, id, created_at)), ..before }.logged(
        "approval.request"@,
        opt_text(req.target),
        json_object(
            seq![
                text_view("id"@, uuid_form(id)),
                text_view("operation"@, req.operation@),
                text_view("requester"@, req.requester@),
            ],
        ),
        stamp,
    )
}

/// What is told of a request for approval.
pub open spec fn approval_body(id: Seq<char>, status: Seq<char>) -> Seq<char> {
    json_object(seq![text_view("id"@, id), text_view("status"@, status)])
}

/// Takes a request for approval under a given identifier and time.
pub fn handle_request_approval_at(
    store: &mut MemoryStore,
    req: &ApprovalReq,
    id: u128,
    at: &Moment,
) -> (a: Answer)
    requires
        old(store)@.wf(),
        old(store)@.can_log(),
    ensures
        final(store)@.wf(),
        final(store)@ == approval_asked(old(store)@, *req, id, at.rfc3339@, at.stamp@),
        says(a, 200, approval_body(uuid_form(id), "pending"@)),
{
    store.insert_approval(
        ApprovalRequest {
            id,
            operation: req.operation.clone(),
            target: copy_opt(&req.target),
            requester: req.requester.clone(),
            reason: copy_opt(&req.reason),
            status: ApprovalStatus::Pending,
            created_at: at.rfc3339.clone(),
            resolved_at: None,
            resolved_by: None,
        },
    );
    let text = id_text(id);
    let details = object3(
        text_field("id", text.as_str()),
        text_field("operation", req.operation.as_str()),
        text_field("requester", req.requester.as_str()),
    );
    let target = match &req.target {
        Some(t) => Some(t.as_str()),
        None => None,
    };
    store.log_action_at("approval.request", target, details.as_str(), at.stamp.as_str());
    ok(object2(text_field("id", text.as_str()), text_field("status", "pending")))
}

/// Takes a request for approval under a fresh identifier.
pub fn handle_request_approval(store: &mut MemoryStore, req: &ApprovalReq) -> (a: Answer)
    requires
        old(store)@.wf(),
        old(store)@.can_log(),
    ensures
        final(store)@.wf(),
        exists|id: u128, created_at: Seq<char>, stamp: Seq<char>|
            final(store)@ == #[trigger] approval_asked(old(store)@, *req, id, created_at, stamp)
                && says(a, 200, approval_body(uuid_form(id), "pending"@)),
{
    let id: u128 = fresh_id();
    let at = now();
    handle_request_approval_at(store, req, id, &at)
}

/// The two ways to resolve a request.
#[derive(Debug, Clone, Copy, PartialEq, Eq, Structural)]
pub enum Resolution {
    Approve,
    Deny,
}

impl Resolution {
    /// The status that the request gets.
    pub open spec fn status(self) -> ApprovalStatus {
        match self {
            Resolution::Approve => ApprovalStatus::Approved,
            Resolution::Deny => ApprovalStatus::Denied,
        }
    }

    /// What is logged.
    pub open spec fn action(self) -> Seq<char> {
        match self {
            Resolution::Approve => "approval.approve"@,
            Resolution::Deny => "approval.deny"@,
        }
    }
}

/// What resolving a request does to the store and is answered. Only a pending
/// request can be resolved.
pub open spec fn resolved(
    before: StoreState,
    after: StoreState,
    a: Answer,
    id: Seq<char>,
    how: Resolution,
    resolved_at: Seq<char>,
    stamp: Seq<char>,
) -> bool {
    match uuid_value(id) {
        None => after == before && says(a, 400, "invalid UUID"@),
        Some(u) => match lookup_id::<ApprovalRequest>(before.approvals, u) {
            None => after == before && says(a, 404, "approval not found"@),
            Some(req) => if req.status != ApprovalStatus::Pending {
                after == before && says(a, 409, "approval already "@ + req.status.text())
            } else {
                let at = position_id::<ApprovalRequest>(before.approvals, u);
                &&& after == (StoreState {
                    approvals: with_status(before.approvals, at, how.status(), resolved_at),
                    ..before
                }).logged(
                    how.action(),
                    None,
                    json_object(seq![text_view("id"@, id)]),
                    stamp,
                )
                &&& says(a, 200, approval_body(id, how.status().text()))
            },
        },
    }
}

/// Resolves a request at the given time.
pub fn resolve_at(
    store: &mut MemoryStore,
    id: &str,
    how: Resolution,
    resolved_at: &str,
    stamp: &str,
) -> (a: Answer)
    requires
        old(store)@.wf(),
        old(store)@.can_log(),
    ensures
        final(store)@.wf(),
        resolved(old(store)@, final(store)@, a, id@, how, resolved_at@, stamp@),
{
    let u: u128 = match parse_id(id) {
        None => {
            return told(400, "invalid UUID");
        },
        Some(u) => u,
    };
    let status = match store.get_approval(u) {
        None => {
            return told(404, "approval not found");
        },
        Some(req) => req.status,
    };
    match status {
        ApprovalStatus::Pending => {},
        _ => {
            return refuse(409, "approval already ", status.name());
        },
    }
    let next = match how {
        Resolution::Approve => ApprovalStatus::Approved,
        Resolution::Deny => ApprovalStatus::Denied,
    };
    match store.update_approval_status_at(u, next, resolved_at) {
        Err(e) => {
            return told(500, e.message());
        },
        Ok(_) => {},
    }
    let details = object1(text_field("id", id));
    let action = match how {
        Resolution::Approve => "approval.approve",
        Resolution::Deny => "approval.deny",
    };
    store.log_action_at(action, None, details.as_str(), stamp);
    ok(object2(text_field("id", id), text_field("status", next.name())))
}

/// Approves a request.
pub fn handle_approve(store: &mut MemoryStore, id: &str) -> (a: Answer)
    requires
        old(store)@.wf(),
        old(store)@.can_log(),
    ensures
        final(store)@.wf(),
        exists|at: Seq<char>, stamp: Seq<char>|
            #[trigger] resolved(
                old(store)@,
                final(store)@,
                a,
                id@,
                Resolution::Approve,
                at,
                stamp,
            ),
{
    let at = now();
    resolve_at(store, id, Resolution::Approve, at.rfc3339.as_str(), at.stamp.as_str())
}

/// Denies a request.
pub fn handle_deny(store: &mut MemoryStore, id: &str) -> (a: Answer)
    requires
        old(store)@.wf(),
        old(store)@.can_log(),
    ensures
        final(store)@.wf(),
        exists|at: Seq<char>, stamp: Seq<char>|
            #[trigger] resolved(old(store)@, final(store)@, a, id@, Resolution::Deny, at, stamp),
{
    let at = now();
    resolve_at(store, id, Resolution::Deny, at.rfc3339.as_str(), at.stamp.as_str())
}

/// A request is resolved at most once: whoever tries again is told how it was
/// resolved, and nothing changes.
pub proof fn approval_is_resolved_once(
    before: StoreState,
    between: StoreState,
    after: StoreState,
    first: Answer,
    second: Answer,
    id: Seq<char>,
    how: Resolution,
    again: Resolution,
    times: (Seq<char>, Seq<char>),
    later: (Seq<char>, Seq<char>),
)
    requires
        resolved(before, between, first, id, how, times.0, times.1),
        first.status == 200,
        resolved(between, after, second, id, again, later.0, later.1),
    ensures
        after == between,
        says(second, 409, "approval already "@ + how.status().text()),
{
    let u = uuid_value(id)->0;
    let s = before.approvals;
    let at = position_id::<ApprovalRequest>(s, u);
    position_id_is_first::<ApprovalRequest>(s, u);
    let t = between.approvals;
    assert forall|i: int| 0 <= i < at implies ApprovalRequest::id_of(#[trigger] t[i]) != u by {
        assert(t[i] == s[i]);
    }
    crate::table::position_id_is::<ApprovalRequest>(t, u, at);
}

// ---------------------------------------------------------------------------
// Identities
// ---------------------------------------------------------------------------

/// What is told of an identity in the list.
pub open spec fn identity_fields(i: IdentityView) -> Seq<FieldView> {
    seq![
        text_view("name"@, i.name),
        text_view("id"@, uuid_form(i.id)),
        text_view("usage"@, i.usage.text()),
        text_view("key_object_id"@, uuid_form(i.key_object_id)),
        opt_view("subject"@, i.subject),
        flag_view("certificate_present"@, i.certificate_pem is Some),
        text_view("created_at"@, i.created_at),
    ]
}

fn identity_item(i: &Identity) -> (s: String)
    ensures
        s@ == json_object(identity_fields(i@)),
        object_text(s@),
{
    let mut v: Vec<JsonField> = Vec::new();
    v.push(text_field("name", i.name.as_str()));
    v.push(text_field("id", id_text(i.id).as_str()));
    v.push(text_field("usage", i.usage.name()));
    v.push(text_field("key_object_id", id_text(i.key_object_id).as_str()));
    v.push(opt_field("subject", &i.subject));
    v.push(flag_field("certificate_present", i.certificate_pem.is_some()));
    v.push(text_field("created_at", i.created_at.as_str()));
    assert(field_views(v@) =~= identity_fields(i@));
    proof {
        reveal_strlit("name");
        reveal_strlit("id");
        reveal_strlit("usage");
        reveal_strlit("key_object_id");
        reveal_strlit("subject");
        reveal_strlit("certificate_present");
        reveal_strlit("created_at");
        assert(plain(field_views(v@)));
    }
    object_of(&v)
}

/// Lists the identities.
pub fn handle_list_identities(store: &MemoryStore) -> (a: Answer)
    ensures
        ({
            let all = sorted::<Identity>(store@.identities);
            says(
                a,
                200,
                list_body(
                    "identities"@,
                    Seq::new(all.len(), |i: int| json_object(identity_fields(all[i]))),
                ),
            )
        }),
{
    let list = store.list_identities();
    let ghost all = ref_rows(list@);
    let mut v: Vec<String> = Vec::new();
    let mut n: usize = 0;
    while n < list.len()
        invariant
            n <= list@.len(),
            all == ref_rows(list@),
            v@.len() == n,
            forall|i: int| 0 <= i < v@.len() ==> object_text((#[trigger] v@[i])@),
            forall|i: int|
                0 <= i < v@.len() ==> (#[trigger] v@[i])@ == json_object(identity_fields(all[i])),
        decreases list@.len() - n,
    {
        let i: &Identity = list[n];
        assert(all[n as int] == i@);
        v.push(identity_item(i));
        n += 1;
    }
    assert(views(v@) =~= Seq::new(all.len(), |i: int| json_object(identity_fields(all[i]))));
    ok(object1(json_field("identities", array_text(&v))))
}

/// An optional identifier as text.
pub open spec fn opt_form(id: Option<u128>) -> Option<Seq<char>> {
    match id {
        Some(i) => Some(uuid_form(i)),
        None => None,
    }
}

fn opt_id(id: Option<u128>) -> (r: Option<String>)
    ensures
        opt_text(r) == opt_form(id),
{
    match id {
        Some(i) => Some(id_text(i)),
        None => None,
    }
}

/// What is told of one identity.
pub open spec fn identity_detail(i: IdentityView) -> Seq<FieldView> {
    seq![
        text_view("name"@, i.name),
        text_view("id"@, uuid_form(i.id)),
        text_view("usage"@, i.usage.text()),
        text_view("key_object_id"@, uuid_form(i.key_object_id)),
        opt_view("policy_id"@, opt_form(i.policy_id)),
        opt_view("subject"@, i.subject),
        flag_view("certificate_present"@, i.certificate_pem is Some),
        text_view("created_at"@, i.created_at),
        opt_view("rotated_from"@, opt_form(i.rotated_from)),
    ]
}

/// Tells of one identity.
pub fn handle_get_identity(store: &MemoryStore, name: &str) -> (a: Answer)
    ensures
        match lookup::<Identity>(store@.identities, name@) {
            None => says(a, 404, "identity not found: "@ + name@),
            Some(i) => says(a, 200, json_object(identity_detail(i))),
        },
{
    match store.get_identity(name) {
        None => refuse(404, "identity not found: ", name),
        Some(i) => {
            let mut v: Vec<JsonField> = Vec::new();
            v.push(text_field("name", i.name.as_str()));
            v.push(text_field("id", id_text(i.id).as_str()));
            v.push(text_field("usage", i.usage.name()));
            v.push(text_field("key_object_id", id_text(i.key_object_id).as_str()));
            v.push(opt_field("policy_id", &opt_id(i.policy_id)));
            v.push(opt_field("subject", &i.subject));
            v.push(flag_field("certificate_present", i.certificate_pem.is_some()));
            v.push(text_field("created_at", i.created_at.as_str()));
            v.push(opt_field("rotated_from", &opt_id(i.rotated_from)));
            assert(field_views(v@) =~= identity_detail(i@));
            ok(object_of(&v))
        },
    }
}

/// The usage that a request names, or the usual one.
pub open spec fn usage_asked(usage: Option<Seq<char>>) -> Seq<char> {
    match usage {
        Some(u) => u,
        None => "generic"@,
    }
}

/// Checks a request for a new identity.
pub fn handle_create_identity_check(
    store: &MemoryStore,
    name: &str,
    usage: Option<&str>,
    algorithm: Option<&str>,
) -> (r: Result<InitPlan, Answer>)
    ensures
        ({
            let u = usage_asked(opt_str(usage));
            let alg = algorithm_asked(opt_str(algorithm));
            let path = default_key_path(BindingView::Free, name@);
            match r {
                Ok(plan) => IdentityUsage::named(u) == Some(plan.usage) && !present::<Identity>(
                    store@.identities,
                    name@,
                ) && Algorithm::named(alg) == Some(plan.algorithm) && valid_path(path)
                    && plan.path@ == path && !present::<TpmObject>(store@.objects, path),
                Err(a) => if IdentityUsage::named(u) is None {
                    says(a, 400, "unknown identity usage: "@ + u)
                } else if present::<Identity>(store@.identities, name@) {
                    says(a, 500, "identity already exists: "@ + name@)
                } else if Algorithm::named(alg) is None {
                    says(a, 500, "unknown algorithm: "@ + alg)
                } else if !valid_path(path) {
                    says(a, 500, "invalid object path: "@ + path)
                } else {
                    present::<TpmObject>(store@.objects, path) && says(
                        a,
                        500,
                        "object already exists: "@ + path,
                    )
                },
            }
        }),
{
    let u = match usage {
        Some(u) => u,
        None => "generic",
    };
    if IdentityUsage::parse(u).is_none() {
        return Err(refuse(400, "unknown identity usage: ", u));
    }
    let alg = asked(algorithm);
    match init_check(store, &Binding::Free, name, u, alg.as_str(), None) {
        Ok(plan) => Ok(plan),
        Err(e) => Err(told(500, e.message())),
    }
}

/// What is told of a new identity.
pub open spec fn created_fields(i: IdentityView) -> Seq<FieldView> {
    seq![
        text_view("name"@, i.name),
        text_view("id"@, uuid_form(i.id)),
        text_view("usage"@, i.usage.text()),
        text_view("key_object_id"@, uuid_form(i.key_object_id)),
    ]
}

/// Tells of a new identity, or why it could not be kept.
pub fn handle_create_identity(store: &MemoryStore, name: &str, kept: &Result<String, Failure>) -> (a:
    Answer)
    ensures
        match kept {
            Err(e) => says(a, 500, e@),
            Ok(_) => match lookup::<Identity>(store@.identities, name@) {
                Some(i) => says(a, 200, json_object(created_fields(i))),
                None => says(a, 500, "identity not found: "@ + name@),
            },
        },
{
    match kept {
        Err(e) => told(500, e.message()),
        Ok(_) => match store.get_identity(name) {
            None => refuse(500, "identity not found: ", name),
            Some(i) => {
                let mut v: Vec<JsonField> = Vec::new();
                v.push(text_field("name", i.name.as_str()));
                v.push(text_field("id", id_text(i.id).as_str()));
                v.push(text_field("usage", i.usage.name()));
                v.push(text_field("key_object_id", id_text(i.key_object_id).as_str()));
                assert(field_views(v@) =~= created_fields(i@));
                ok(object_of(&v))
            },
        },
    }
}

/// Tells of an identity whose key was replaced.
pub fn handle_rotate_identity(i: &Identity) -> (a: Answer)
    ensures
        says(
            a,
            200,
            json_object(
                seq![
                    text_view("name"@, i@.name),
                    text_view("new_key_object_id"@, uuid_form(i@.key_object_id)),
                    opt_view("rotated_from"@, opt_form(i@.rotated_from)),
                ],
            ),
        ),
{
    ok(
        object3(
            text_field("name", i.name.as_str()),
            text_field("new_key_object_id", id_text(i.key_object_id).as_str()),
            opt_field("rotated_from", &opt_id(i.rotated_from)),
        ),
    )
}

// ---------------------------------------------------------------------------
// Manifests
// ---------------------------------------------------------------------------

/// Refuses a manifest that could not be parsed, or that has errors. `read` is
/// what is wrong with a manifest that was parsed, or else why it was not.
pub fn handle_apply_check(read: &Result<Vec<String>, String>) -> (r: Result<(), Answer>)
    ensures
        match (read, r) {
            (Err(p), Err(a)) => says(a, 400, "manifest parse: "@ + p@),
            (Ok(issues), Err(a)) => issues@.len() > 0 && says(
                a,
                400,
                joined(views(issues@), "; "@),
            ),
            (Ok(issues), Ok(_)) => issues@.len() == 0,
            (Err(_), Ok(_)) => false,
        },
{
    match read {
        Err(p) => Err(refuse(400, "manifest parse: ", p.as_str())),
        Ok(issues) => {
            if issues.len() == 0 {
                return Ok(());
            }
            Err(Answer { status: 400, body: join(issues, "; ") })
        },
    }
}

// ---------------------------------------------------------------------------
// The dependency graph
// ---------------------------------------------------------------------------

/// The forms in which the dependency graph is handed out.
#[derive(Clone, Copy, PartialEq, Eq, Debug, Structural)]
pub enum GraphFormat {
    Dot,
    Json,
}

impl GraphFormat {
    /// The content type that goes with the form.
    pub open spec fn media(self) -> Seq<char> {
        match self {
            GraphFormat::Dot => "text/vnd.graphviz"@,
            GraphFormat::Json => "application/json"@,
        }
    }

    /// The content type that goes with the form.
    pub fn content_type(self) -> (s: &'static str)
        ensures
            s@ == self.media(),
    {
        match self {
            GraphFormat::Dot => "text/vnd.graphviz",
            GraphFormat::Json => "application/json",
        }
    }
}

/// The form that a request names: JSON where it names none or another.
pub open spec fn graph_asked(format: Option<Seq<char>>) -> GraphFormat {
    if format == Some("dot"@) {
        GraphFormat::Dot
    } else {
        GraphFormat::Json
    }
}

/// The form that a request names.
pub fn graph_format(format: Option<&str>) -> (g: GraphFormat)
    ensures
        g == graph_asked(opt_str(format)),
{
    match format {
        Some(f) => if same(f, "dot") {
            GraphFormat::Dot
        } else {
            GraphFormat::Json
        },
        None => GraphFormat::Json,
    }
}

/// A dependency graph in both forms.
#[derive(Debug)]
pub struct GraphTexts {
    pub dot: String,
    pub json: String,
}

/// Hands out the dependency graph in the form that was asked for, or tells why
/// there is none.
pub fn handle_graph(graph: &Result<GraphTexts, String>, format: Option<&str>) -> (a: Answer)
    ensures
        match graph {
            Err(e) => says(a, 500, e@),
            Ok(g) => says(
                a,
                200,
                match graph_asked(opt_str(format)) {
                    GraphFormat::Dot => g.dot@,
                    GraphFormat::Json => g.json@,
                },
            ),
        },
{
    match graph {
        Err(e) => told(500, e.as_str()),
        Ok(g) => ok(
            match graph_format(format) {
                GraphFormat::Dot => g.dot.clone(),
                GraphFormat::Json => g.json.clone(),
            },
        ),
    }
}

// ---------------------------------------------------------------------------
// Applied manifests
// ---------------------------------------------------------------------------

/// A list of texts in an object.
pub open spec fn texts_view(name: Seq<char>, v: Seq<String>) -> FieldView {
    FieldView { group: None, name, value: crate::json::LeafView::Texts(views(v)) }
}

fn texts(name: &str, v: &Vec<String>) -> (f: JsonField)
    ensures
        f@ == texts_view(name@, v@),
{
    JsonField {
        group: None,
        name: name.to_owned(),
        value: crate::json::JsonLeaf::Texts(crate::diag::copy_texts(v)),
    }
}

/// What is told of an applied manifest.
pub open spec fn apply_fields(r: ApplyOutput) -> Seq<FieldView> {
    seq![
        text_view("correlation_id"@, r.correlation_id@),
        texts_view("created"@, r.created@),
        texts_view("updated"@, r.updated@),
        texts_view("warnings"@, r.warnings@),
        texts_view("errors"@, r.errors@),
    ]
}

/// Tells what applying a manifest did.
pub fn handle_apply(report: &ApplyOutput) -> (a: Answer)
    ensures
        says(a, 200, json_object(apply_fields(*report))),
{
    let mut v: Vec<JsonField> = Vec::new();
    v.push(text_field("correlation_id", report.correlation_id.as_str()));
    v.push(texts("created", &report.created));
    v.push(texts("updated", &report.updated));
    v.push(texts("warnings", &report.warnings));
    v.push(texts("errors", &report.errors));
    assert(field_views(v@) =~= apply_fields(*report));
    ok(object_of(&v))
}

// ---------------------------------------------------------------------------
// Fragility
// ---------------------------------------------------------------------------

/// How likely one register is to break a policy.
#[derive(Debug)]
pub struct RegisterRating {
    pub bank: String,
    pub index: u32,
    pub rating: String,
    pub reason: String,
}

/// How likely a policy is to break.
#[derive(Debug)]
pub struct FragilityReport {
    pub overall: String,
    pub per_pcr: Vec<RegisterRating>,
    pub notes: Vec<String>,
}

/// Finds the policy that is to be rated.
pub fn handle_policy_fragility_check<'a>(store: &'a MemoryStore, name: &str) -> (r: Result<
    &'a Policy,
    Answer,
>)
    ensures
        match r {
            Ok(p) => lookup::<Policy>(store@.policies, name@) == Some(p@),
            Err(a) => !present::<Policy>(store@.policies, name@) && says(
                a,
                404,
                "policy not found: "@ + name@,
            ),
        },
{
    match store.get_policy(name) {
        Some(p) => Ok(p),
        None => Err(refuse(404, "policy not found: ", name)),
    }
}

/// What is told of a register.
pub open spec fn rating_fields(r: RegisterRating) -> Seq<FieldView> {
    seq![
        text_view("bank"@, r.bank@),
        number_view("index"@, r.index as u64),
        text_view("rating"@, r.rating@),
        text_view("reason"@, r.reason@),
    ]
}

fn rating_item(r: &RegisterRating) -> (s: String)
    ensures
        s@ == json_object(rating_fields(*r)),
        object_text(s@),
{
    let mut v: Vec<JsonField> = Vec::new();
    v.push(text_field("bank", r.bank.as_str()));
    v.push(number_field("index", r.index as u64));
    v.push(text_field("rating", r.rating.as_str()));
    v.push(text_field("reason", r.reason.as_str()));
    assert(field_views(v@) =~= rating_fields(*r));
    proof {
        reveal_strlit("bank");
        reveal_strlit("index");
        reveal_strlit("rating");
        reveal_strlit("reason");
        assert(plain(field_views(v@)));
    }
    object_of(&v)
}

/// What is told of a rating.
pub open spec fn fragility_fields(name: Seq<char>, r: FragilityReport) -> Seq<FieldView> {
    seq![
        text_view("policy"@, name),
        text_view("overall"@, r.overall@),
        json_view(
            "per_pcr"@,
            json_array(
                Seq::new(r.per_pcr@.len(), |i: int| json_object(rating_fields(r.per_pcr@[i]))),
            ),
        ),
        texts_view("notes"@, r.notes@),
    ]
}

/// Tells how likely a policy is to break.
pub fn handle_policy_fragility(name: &str, report: &FragilityReport) -> (a: Answer)
    ensures
        says(a, 200, json_object(fragility_fields(name@, *report))),
{
    let list = &report.per_pcr;
    let mut items: Vec<String> = Vec::new();
    let mut n: usize = 0;
    while n < list.len()
        invariant
            n <= list@.len(),
            items@.len() == n,
            forall|i: int| 0 <= i < items@.len() ==> object_text((#[trigger] items@[i])@),
            forall|i: int|
                0 <= i < items@.len() ==> (#[trigger] items@[i])@ == json_object(
                    rating_fields(list@[i]),
                ),
        decreases list@.len() - n,
    {
        items.push(rating_item(&list[n]));
        n += 1;
    }
    assert(views(items@) =~= Seq::new(
        list@.len(),
        |i: int| json_object(rating_fields(list@[i])),
    ));
    let mut v: Vec<JsonField> = Vec::new();
    v.push(text_field("policy", name));
    v.push(text_field("overall", report.overall.as_str()));
    v.push(json_field("per_pcr", array_text(&items)));
    v.push(texts("notes", &report.notes));
    assert(field_views(v@) =~= fragility_fields(name@, *report));
    ok(object_of(&v))
}

// ---------------------------------------------------------------------------
// The witness
// ---------------------------------------------------------------------------

/// What is told of an accepted submission.
pub open spec fn accepted_fields(
    sub: WitnessSubmission,
    idempotent: bool,
    received_at: Seq<char>,
) -> Seq<FieldView> {
    seq![
        text_view("stream_id"@, sub.stream_id@),
        number_view("segment_id"@, sub.segment_id),
        text_view("checkpoint_hash_hex"@, sub.checkpoint_hash_hex@),
        flag_view("accepted"@, true),
        flag_view("idempotent"@, idempotent),
        text_view("received_at_rfc3339"@, received_at),
    ]
}

/// The store after a submission was recorded.
pub open spec fn acceptance_logged(before: StoreState, sub: WitnessSubmission, stamp: Seq<char>) -> StoreState {
    before.logged(
        "audit.witness.accept"@,
        Some(sub.stream_id@),
        json_object(
            seq![
                number_view("segment_id"@, sub.segment_id),
                text_view("checkpoint_hash_hex"@, sub.checkpoint_hash_hex@),
                text_view("signer_identity"@, sub.signer_identity@),
            ],
        ),
        stamp,
    )
}

/// What a submission is answered, given the latest row for its stream.
pub open spec fn witness_answer(
    prev: Option<WitnessLogRow>,
    sub: WitnessSubmission,
    received_at: Seq<char>,
) -> (u16, Seq<char>) {
    match prev {
        None => (200, json_object(accepted_fields(sub, false, received_at))),
        Some(p) => match verdict(Some(receipt(p)), submitted(sub)) {
            Verdict::Stale => (
                409,
                "rejected: previously witnessed segment "@ + decimal(p.segment_id as nat)
                    + " for stream "@ + sub.stream_id@ + ", got "@ + decimal(
                    sub.segment_id as nat,
                ),
            ),
            Verdict::Equivocation => (
                409,
                "equivocation: segment "@ + decimal(sub.segment_id as nat) + " for stream "@
                    + sub.stream_id@ + " previously witnessed with hash "@
                    + p.checkpoint_hash_hex@ + ", now "@ + sub.checkpoint_hash_hex@,
            ),
            Verdict::Repeated => (
                200,
                json_object(accepted_fields(sub, true, p.received_at@)),
            ),
            Verdict::Recorded => (
                200,
                json_object(accepted_fields(sub, false, received_at)),
            ),
        },
    }
}

fn stale(prev: &WitnessLogRow, sub: &WitnessSubmission) -> (s: String)
    ensures
        s@ == "rejected: previously witnessed segment "@ + decimal(prev.segment_id as nat)
            + " for stream "@ + sub.stream_id@ + ", got "@ + decimal(sub.segment_id as nat),
{
    let mut s = String::new();
    s.append("rejected: previously witnessed segment ");
    push_decimal(&mut s, prev.segment_id);
    s.append(" for stream ");
    s.append(sub.stream_id.as_str());
    s.append(", got ");
    push_decimal(&mut s, sub.segment_id);
    assert(s@ =~= "rejected: previously witnessed segment "@ + decimal(prev.segment_id as nat)
        + " for stream "@ + sub.stream_id@ + ", got "@ + decimal(sub.segment_id as nat));
    s
}

fn equivocation(prev: &WitnessLogRow, sub: &WitnessSubmission) -> (s: String)
    ensures
        s@ == "equivocation: segment "@ + decimal(sub.segment_id as nat) + " for stream "@
            + sub.stream_id@ + " previously witnessed with hash "@ + prev.checkpoint_hash_hex@
            + ", now "@ + sub.checkpoint_hash_hex@,
{
    let mut s = String::new();
    s.append("equivocation: segment ");
    push_decimal(&mut s, sub.segment_id);
    s.append(" for stream ");
    s.append(sub.stream_id.as_str());
    s.append(" previously witnessed with hash ");
    s.append(prev.checkpoint_hash_hex.as_str());
    s.append(", now ");
    s.append(sub.checkpoint_hash_hex.as_str());
    assert(s@ =~= "equivocation: segment "@ + decimal(sub.segment_id as nat) + " for stream "@
        + sub.stream_id@ + " previously witnessed with hash "@ + prev.checkpoint_hash_hex@
        + ", now "@ + sub.checkpoint_hash_hex@);
    s
}

fn accepted(sub: &WitnessSubmission, idempotent: bool, received_at: &str) -> (s: String)
    ensures
        s@ == json_object(accepted_fields(*sub, idempotent, received_at@)),
{
    let mut v: Vec<JsonField> = Vec::new();
    v.push(text_field("stream_id", sub.stream_id.as_str()));
    v.push(number_field("segment_id", sub.segment_id));
    v.push(text_field("checkpoint_hash_hex", sub.checkpoint_hash_hex.as_str()));
    v.push(flag_field("accepted", true));
    v.push(flag_field("idempotent", idempotent));
    v.push(text_field("received_at_rfc3339", received_at));
    assert(field_views(v@) =~= accepted_fields(*sub, idempotent, received_at@));
    object_of(&v)
}

/// What a submission is answered.
pub fn answer_submission(prev: Option<&WitnessLogRow>, sub: &WitnessSubmission, received_at: &str) -> (a:
    Answer)
    ensures
        ({
            let want = witness_answer(
                match prev {
                    Some(p) => Some(*p),
                    None => None,
                },
                *sub,
                received_at@,
            );
            says(a, want.0, want.1)
        }),
{
    let v = judge(prev, sub);
    match prev {
        None => ok(accepted(sub, false, received_at)),
        Some(p) => match v {
            Verdict::Stale => Answer { status: 409, body: stale(p, sub) },
            Verdict::Equivocation => Answer { status: 409, body: equivocation(p, sub) },
            Verdict::Repeated => ok(accepted(sub, true, p.received_at.as_str())),
            Verdict::Recorded => ok(accepted(sub, false, received_at)),
        },
    }
}

/// How a submission changes the rows of a log: a new one is recorded at the
/// end, and nothing else changes.
pub open spec fn recorded(
    before: WitnessLog,
    after: WitnessLog,
    sub: WitnessSubmission,
    received_at: Seq<char>,
) -> bool {
    if verdict(latest(before@, sub.stream_id@), submitted(sub)) == Verdict::Recorded {
        after.rows@.len() == before.rows@.len() + 1 && after.rows@.drop_last() == before.rows@
            && records(after.rows@.last(), sub, received_at)
    } else {
        after.rows@ == before.rows@
    }
}

/// Receives a submission at the given time: it is recorded and logged where it
/// is new, and refused where it contradicts what was seen before.
pub fn handle_audit_witness_at(
    store: &mut MemoryStore,
    log: &mut WitnessLog,
    sub: WitnessSubmission,
    at: &Moment,
) -> (a: Answer)
    requires
        old(store)@.wf(),
        old(store)@.can_log(),
    ensures
        final(store)@.wf(),
        final(log)@ == received(old(log)@, submitted(sub)),
        final(store)@ == (if verdict(latest(old(log)@, sub.stream_id@), submitted(sub))
            == Verdict::Recorded {
            acceptance_logged(old(store)@, sub, at.stamp@)
        } else {
            old(store)@
        }),
        recorded(*old(log), *final(log), sub, at.rfc3339@),
        ({
            let want = witness_answer(
                latest_row(old(log).rows@, sub.stream_id@),
                sub,
                at.rfc3339@,
            );
            says(a, want.0, want.1)
        }),
{
    let a = {
        let prev = log.witness_log_latest(sub.stream_id.as_str());
        answer_submission(prev, &sub, at.rfc3339.as_str())
    };
    let stream = sub.stream_id.clone();
    let details = object3(
        number_field("segment_id", sub.segment_id),
        text_field("checkpoint_hash_hex", sub.checkpoint_hash_hex.as_str()),
        text_field("signer_identity", sub.signer_identity.as_str()),
    );
    let v = log.receive(sub, at.rfc3339.as_str());
    match v {
        Verdict::Recorded => {
            store.log_action_at(
                "audit.witness.accept",
                Some(stream.as_str()),
                details.as_str(),
                at.stamp.as_str(),
            );
        },
        _ => {},
    }
    a
}

/// Receives a submission now.
pub fn handle_audit_witness(
    store: &mut MemoryStore,
    log: &mut WitnessLog,
    sub: WitnessSubmission,
) -> (a: Answer)
    requires
        old(store)@.wf(),
        old(store)@.can_log(),
    ensures
        final(store)@.wf(),
        final(log)@ == received(old(log)@, submitted(sub)),
        verdict(latest(old(log)@, sub.stream_id@), submitted(sub)) == Verdict::Recorded
            ==> exists|stamp: Seq<char>|
            final(store)@ == #[trigger] acceptance_logged(old(store)@, sub, stamp),
        verdict(latest(old(log)@, sub.stream_id@), submitted(sub)) != Verdict::Recorded
            ==> final(store)@ == old(store)@,
        exists|received_at: Seq<char>|
            #[trigger] recorded(*old(log), *final(log), sub, received_at) && ({
                let want = witness_answer(
                    latest_row(old(log).rows@, sub.stream_id@),
                    sub,
                    received_at,
                );
                says(a, want.0, want.1)
            }),
{
    let at = now();
    handle_audit_witness_at(store, log, sub, &at)
}

/// What is told of a receipt.
pub open spec fn receipt_fields(row: WitnessLogRow) -> Seq<FieldView> {
    seq![
        text_view("stream_id"@, row.stream_id@),
        number_view("segment_id"@, row.segment_id),
        number_view("seq_start"@, row.seq_start),
        number_view("seq_end"@, row.seq_end),
        text_view("checkpoint_hash_hex"@, row.checkpoint_hash_hex@),
        text_view("signature_hex"@, row.signature_hex@),
        text_view("signer_identity"@, row.signer_identity@),
        text_view("received_at_rfc3339"@, row.received_at@),
    ]
}

fn receipt_entries(row: &WitnessLogRow) -> (v: Vec<JsonField>)
    ensures
        field_views(v@) == receipt_fields(*row),
{
    let mut v: Vec<JsonField> = Vec::new();
    v.push(text_field("stream_id", row.stream_id.as_str()));
    v.push(number_field("segment_id", row.segment_id));
    v.push(number_field("seq_start", row.seq_start));
    v.push(number_field("seq_end", row.seq_end));
    v.push(text_field("checkpoint_hash_hex", row.checkpoint_hash_hex.as_str()));
    v.push(text_field("signature_hex", row.signature_hex.as_str()));
    v.push(text_field("signer_identity", row.signer_identity.as_str()));
    v.push(text_field("received_at_rfc3339", row.received_at.as_str()));
    assert(field_views(v@) =~= receipt_fields(*row));
    v
}

/// Tells of the latest receipt for a stream.
pub fn handle_audit_witness_get(log: &WitnessLog, stream_id: &str) -> (a: Answer)
    ensures
        match latest_row(log.rows@, stream_id@) {
            None => says(a, 404, "no witness record for stream '"@ + stream_id@ + "'"@),
            Some(row) => says(a, 200, json_object(receipt_fields(row))),
        },
{
    match log.witness_log_latest(stream_id) {
        None => Answer {
            status: 404,
            body: framed("no witness record for stream '", stream_id, "'"),
        },
        Some(row) => ok(object_of(&receipt_entries(row))),
    }
}

/// What is told of a receipt in a listing: its number in the log besides.
pub open spec fn listed_fields(row: WitnessLogRow) -> Seq<FieldView> {
    receipt_fields(row).push(
        FieldView {
            group: None,
            name: "id"@,
            value: match row.id {
                Some(n) => LeafView::Signed(n),
                None => LeafView::Nothing,
            },
        },
    )
}

fn listed_item(row: &WitnessLogRow) -> (s: String)
    ensures
        s@ == json_object(listed_fields(*row)),
        object_text(s@),
{
    let mut v = receipt_entries(row);
    v.push(
        JsonField {
            group: None,
            name: "id".to_owned(),
            value: match row.id {
                Some(n) => JsonLeaf::Signed(n),
                None => JsonLeaf::Nothing,
            },
        },
    );
    assert(field_views(v@) =~= listed_fields(*row));
    proof {
        reveal_strlit("stream_id");
        reveal_strlit("segment_id");
        reveal_strlit("seq_start");
        reveal_strlit("seq_end");
        reveal_strlit("checkpoint_hash_hex");
        reveal_strlit("signature_hex");
        reveal_strlit("signer_identity");
        reveal_strlit("received_at_rfc3339");
        reveal_strlit("id");
        assert(plain(field_views(v@)));
    }
    object_of(&v)
}

/// What is told of each receipt.
pub open spec fn receipt_items(list: Seq<WitnessLogRow>) -> Seq<Seq<char>> {
    list.map_values(|row: WitnessLogRow| json_object(listed_fields(row)))
}

/// What is told of the receipts for a stream.
pub open spec fn receipts_body(stream_id: Seq<char>, items: Seq<Seq<char>>) -> Seq<char> {
    json_object(
        seq![
            text_view("stream_id"@, stream_id),
            number_view("count"@, items.len() as u64),
            json_view("records"@, json_array(items)),
        ],
    )
}

/// Tells of every receipt for a stream, the oldest first.
pub fn handle_audit_witness_list(log: &WitnessLog, stream_id: &str) -> (a: Answer)
    ensures
        says(
            a,
            200,
            receipts_body(stream_id@, receipt_items(rows_of(log.rows@, stream_id@))),
        ),
{
    let list = log.witness_log_list(stream_id);
    let ghost all = rows_of(log.rows@, stream_id@);
    let mut v: Vec<String> = Vec::new();
    let mut n: usize = 0;
    while n < list.len()
        invariant
            n <= list@.len(),
            all == receipts_of(list@),
            v@.len() == n,
            forall|i: int| 0 <= i < v@.len() ==> object_text((#[trigger] v@[i])@),
            forall|i: int|
                0 <= i < v@.len() ==> (#[trigger] v@[i])@ == json_object(listed_fields(all[i])),
        decreases list@.len() - n,
    {
        v.push(listed_item(list[n]));
        n += 1;
    }
    assert(views(v@) =~= receipt_items(all));
    ok(
        object3(
            text_field("stream_id", stream_id),
            number_field("count", v.len() as u64),
            json_field("records", array_text(&v)),
        ),
    )
}

} // verus!
