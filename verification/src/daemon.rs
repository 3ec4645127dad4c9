//! What the daemon answers.
//!
//! Each handler takes a request in plain values and gives the answer: a status
//! and a body. Where the TPM has work to do in between, a handler is split: a
//! check before, and the answer after.
use vstd::prelude::*;
use vstd::string::*;

use crate::commands::capabilities::recent_entries;
use crate::commands::common::{class_list, objects_of, ObjectClass};
use crate::commands::status::{finding, posture_of, score_of};
use crate::failure::Failure;
use crate::json::{
    array_text, field_views, flag_field, flag_view, json_array, json_field, json_object, json_text,
    json_view, number_field, number_view, object1, object2, object_of, object_text, opt_field,
    opt_view, plain, signed_field, signed_view, text_field, text_view, FieldView, JsonField, JsonLeaf,
    LeafView,
};
use crate::model::{
    rule_views, AuditEntry, BackendStatus, EntryView, Identity, ObjectView, Policy, PolicyView,
    TpmObject,
};
use crate::store::{active_profile, at_most, newest, MemoryStore, StoreState};
use crate::table::{lookup, ref_rows, rows, sorted, sorted_is_ordered};
use crate::text::{glue, opt_str, same, views};

pub mod requests;

verus! {

// ---------------------------------------------------------------------------
// Answers
// ---------------------------------------------------------------------------

/// An answer to a request.
#[derive(Debug)]
pub struct Answer {
    pub status: u16,
    pub body: String,
}

/// The answer has this status and body.
pub open spec fn says(a: Answer, status: u16, body: Seq<char>) -> bool {
    a.status == status && a.body@ == body
}

pub(crate) fn ok(body: String) -> (a: Answer)
    ensures
        says(a, 200, body@),
{
    Answer { status: 200, body }
}

pub(crate) fn refuse(status: u16, before: &str, name: &str) -> (a: Answer)
    ensures
        says(a, status, before@ + name@),
{
    Answer { status, body: glue(before, name) }
}

pub(crate) fn told(status: u16, text: &str) -> (a: Answer)
    ensures
        says(a, status, text@),
{
    Answer { status, body: text.to_owned() }
}

/// Lets a request pass, or gives the status with which it is refused. Without
/// a required key every request passes.
pub fn check_api_key(required: Option<&str>, provided: Option<&str>) -> (r: Result<(), u16>)
    ensures
        match r {
            Ok(_) => required matches Some(k) ==> k@ == (match provided {
                Some(p) => p@,
                None => ""@,
            }),
            Err(status) => status == 401 && (required matches Some(k) && k@ != (match provided {
                Some(p) => p@,
                None => ""@,
            })),
        },
{
    match required {
        None => Ok(()),
        Some(k) => {
            let given = match provided {
                Some(p) => p,
                None => "",
            };
            if same(given, k) {
                Ok(())
            } else {
                Err(401)
            }
        },
    }
}

// ---------------------------------------------------------------------------
// Setting up
// ---------------------------------------------------------------------------

/// The parts of the path at which the daemon's store lies if no place is named.
pub open spec fn default_place(data: Option<Seq<char>>, home: Option<Seq<char>>) -> Seq<Seq<char>> {
    match (data, home) {
        (Some(d), _) => seq![d, "tpm"@, "tpmd.db"@],
        (None, Some(h)) => seq![h, ".local"@, "share"@, "tpm"@, "tpmd.db"@],
        (None, None) => seq!["tpmd.db"@],
    }
}

/// The parts of the path at which the daemon's store lies if no place is named,
/// given the data directory and the home directory of the environment.
pub fn default_store_path(data: Option<&str>, home: Option<&str>) -> (v: Vec<String>)
    ensures
        views(v@) == default_place(opt_str(data), opt_str(home)),
{
    let mut v: Vec<String> = Vec::new();
    match data {
        Some(d) => {
            v.push(d.to_owned());
            v.push("tpm".to_owned());
        },
        None => match home {
            Some(h) => {
                v.push(h.to_owned());
                v.push(".local".to_owned());
                v.push("share".to_owned());
                v.push("tpm".to_owned());
            },
            None => {},
        },
    }
    v.push("tpmd.db".to_owned());
    assert(views(v@) =~= default_place(opt_str(data), opt_str(home)));
    v
}

/// How the daemon listens.
#[derive(Debug)]
pub enum TlsMode {
    /// With a key in the TPM.
    Identity(String),
    /// With a key in a file.
    Files { cert: String, key: String },
    /// In the open.
    Plain,
}

/// Decides how the daemon listens. A key in the TPM goes before one in a file.
pub fn tls_mode(identity: Option<String>, cert: Option<String>, key: Option<String>) -> (m: TlsMode)
    ensures
        match identity {
            Some(i) => m matches TlsMode::Identity(n) && n@ == i@,
            None => match (cert, key) {
                (Some(c), Some(k)) => m matches TlsMode::Files { cert: x, key: y } && x@ == c@
                    && y@ == k@,
                _ => m is Plain,
            },
        },
{
    match identity {
        Some(i) => TlsMode::Identity(i),
        None => match (cert, key) {
            (Some(c), Some(k)) => TlsMode::Files { cert: c, key: k },
            _ => TlsMode::Plain,
        },
    }
}

/// Where the certificate of a TPM-backed identity comes from.
#[derive(Debug)]
pub enum CertSource {
    /// It is kept with the identity.
    Stored(String),
    /// It is in a file.
    File(String),
}

/// The certificate that is kept with an identity.
pub open spec fn stored_cert(s: StoreState, name: Seq<char>) -> Option<Seq<char>> {
    match lookup::<Identity>(s.identities, name) {
        Some(i) => i.certificate_pem,
        None => None,
    }
}

/// Finds the certificate that is presented for a TPM-backed identity: the one
/// kept with it, else the file that was named.
pub fn resolve_tls_cert(store: &MemoryStore, identity_name: &str, file: Option<&str>) -> (r: Result<
    CertSource,
    Failure,
>)
    ensures
        match stored_cert(store@, identity_name@) {
            Some(pem) => r matches Ok(CertSource::Stored(p)) && p@ == pem,
            None => match file {
                Some(f) => r matches Ok(CertSource::File(p)) && p@ == f@,
                None => r matches Err(e) && e@ == "TLS identity '"@ + identity_name@
                    + "' has no certificate; store one with `tpm identity` certificate import, or set TPMD_TLS_CERT to a PEM file"@,
            },
        },
{
    match store.get_identity(identity_name) {
        Some(i) => match &i.certificate_pem {
            Some(pem) => {
                return Ok(CertSource::Stored(pem.clone()));
            },
            None => {},
        },
        None => {},
    }
    match file {
        Some(f) => Ok(CertSource::File(f.to_owned())),
        None => Err(
            Failure::around(
                "TLS identity '",
                identity_name,
                "' has no certificate; store one with `tpm identity` certificate import, or set TPMD_TLS_CERT to a PEM file",
            ),
        ),
    }
}

// ---------------------------------------------------------------------------
// Status and health
// ---------------------------------------------------------------------------

/// A text in an inner object.
pub open spec fn inner_text(group: Seq<char>, name: Seq<char>, value: Seq<char>) -> FieldView {
    FieldView { group: Some(group), name, value: LeafView::Text(value) }
}

fn inner(group: &str, name: &str, value: &str) -> (f: JsonField)
    ensures
        f@ == inner_text(group@, name@, value@),
{
    JsonField {
        group: Some(group.to_owned()),
        name: name.to_owned(),
        value: JsonLeaf::Text(value.to_owned()),
    }
}

/// What is told of the backend.
pub open spec fn status_fields(b: BackendStatus, version: Seq<char>) -> Seq<FieldView> {
    seq![
        inner_text("backend"@, "backend_type"@, b.backend_type@),
        inner_text("backend"@, "manufacturer"@, b.manufacturer@),
        inner_text("backend"@, "firmware_version"@, b.firmware_version@),
        FieldView {
            group: Some("backend"@),
            name: "available"@,
            value: LeafView::Flag(b.available),
        },
        text_view("version"@, version),
    ]
}

/// Tells of the backend.
pub fn handle_status(status: &Result<BackendStatus, String>, version: &str) -> (a: Answer)
    ensures
        match status {
            Ok(b) => says(a, 200, json_object(status_fields(*b, version@))),
            Err(_) => says(a, 500, ""@),
        },
{
    match status {
        Err(_) => told(500, ""),
        Ok(b) => {
            let mut v: Vec<JsonField> = Vec::new();
            v.push(inner("backend", "backend_type", b.backend_type.as_str()));
            v.push(inner("backend", "manufacturer", b.manufacturer.as_str()));
            v.push(inner("backend", "firmware_version", b.firmware_version.as_str()));
            v.push(
                JsonField {
                    group: Some("backend".to_owned()),
                    name: "available".to_owned(),
                    value: JsonLeaf::Flag(b.available),
                },
            );
            v.push(text_field("version", version));
            assert(field_views(v@) =~= status_fields(*b, version@));
            proof {
                reveal_strlit("backend");
                reveal_strlit("version");
                assert("backend"@[0] != "version"@[0]);
            }
            ok(json_text(&v))
        },
    }
}

/// What is found wrong.
pub open spec fn health_issues(available: bool, has_profile: bool) -> Seq<Seq<char>> {
    finding(!available, "backend unavailable"@) + finding(!has_profile, "no active profile"@)
}

/// What is told of the health.
pub open spec fn health_fields(available: bool, s: StoreState) -> Seq<FieldView> {
    let has_profile = active_profile(s.profiles) is Some;
    let score = score_of(available, has_profile, 0, 0);
    seq![
        text_view("posture"@, posture_of(score)),
        number_view("score"@, score as u64),
        FieldView {
            group: None,
            name: "issues"@,
            value: LeafView::Texts(health_issues(available, has_profile)),
        },
        number_view("objects"@, s.objects.len() as u64),
        number_view("policies"@, s.policies.len() as u64),
    ]
}

/// Tells how well backend and workspace are.
pub fn handle_health(store: &MemoryStore, status: &Result<BackendStatus, String>) -> (a: Answer)
    ensures
        match status {
            Ok(b) => says(a, 200, json_object(health_fields(b.available, store@))),
            Err(_) => says(a, 500, ""@),
        },
{
    let available = match status {
        Err(_) => {
            return told(500, "");
        },
        Ok(b) => b.available,
    };
    let objects = store.list_objects();
    let policies = store.list_policies();
    proof {
        sorted_is_ordered::<TpmObject>(store@.objects);
        sorted_is_ordered::<Policy>(store@.policies);
        assert(ref_rows(objects@).len() == objects@.len());
        assert(ref_rows(policies@).len() == policies@.len());
    }
    let has_profile = store.get_active_profile().is_some();
    let mut score: u64 = 100;
    let mut issues: Vec<String> = Vec::new();
    if !available {
        score -= 40;
        issues.push("backend unavailable".to_owned());
    }
    if !has_profile {
        score -= 10;
        issues.push("no active profile".to_owned());
    }
    let posture = if score >= 90 {
        "healthy"
    } else if score >= 70 {
        "degraded"
    } else if score >= 40 {
        "warning"
    } else {
        "critical"
    };
    assert(views(issues@) =~= health_issues(available, has_profile));
    let mut v: Vec<JsonField> = Vec::new();
    v.push(text_field("posture", posture));
    v.push(number_field("score", score));
    v.push(JsonField { group: None, name: "issues".to_owned(), value: JsonLeaf::Texts(issues) });
    v.push(number_field("objects", objects.len() as u64));
    v.push(number_field("policies", policies.len() as u64));
    assert(field_views(v@) =~= health_fields(available, store@));
    ok(object_of(&v))
}

// ---------------------------------------------------------------------------
// Lists
// ---------------------------------------------------------------------------

/// An answer with one list.
pub open spec fn list_body(name: Seq<char>, items: Seq<Seq<char>>) -> Seq<char> {
    json_object(seq![json_view(name, json_array(items))])
}

fn list_answer(name: &str, items: &Vec<String>) -> (a: Answer)
    requires
        forall|i: int| 0 <= i < items@.len() ==> object_text((#[trigger] items@[i])@),
    ensures
        says(a, 200, list_body(name@, views(items@))),
{
    let list = array_text(items);
    ok(object1(json_field(name, list)))
}

/// In which of the lists an object is told of.
#[derive(Debug, Clone, Copy, PartialEq, Eq, Structural)]
pub enum ListShape {
    Keys,
    Objects,
    Secrets,
}

/// What is told of an object in a list.
pub open spec fn object_fields(o: ObjectView, shape: ListShape) -> Seq<FieldView> {
    match shape {
        ListShape::Keys => seq![
            text_view("path"@, o.path),
            text_view("kind"@, o.kind.text()),
            text_view("algorithm"@, o.algorithm.text()),
            text_view("created_at"@, o.created_at),
        ],
        ListShape::Objects => seq![
            text_view("path"@, o.path),
            text_view("kind"@, o.kind.text()),
            text_view("algorithm"@, o.algorithm.text()),
        ],
        ListShape::Secrets => seq![
            text_view("path"@, o.path),
            flag_view("has_policy"@, o.policy_id is Some),
            text_view("created_at"@, o.created_at),
        ],
    }
}

/// What is told of objects in a list.
pub open spec fn object_items(s: Seq<ObjectView>, shape: ListShape) -> Seq<Seq<char>> {
    Seq::new(s.len(), |i: int| json_object(object_fields(s[i], shape)))
}

fn object_item(o: &TpmObject, shape: ListShape) -> (s: String)
    ensures
        s@ == json_object(object_fields(o@, shape)),
        object_text(s@),
{
    let mut v: Vec<JsonField> = Vec::new();
    v.push(text_field("path", o.path.as_str()));
    match shape {
        ListShape::Keys => {
            v.push(text_field("kind", o.kind.name()));
            v.push(text_field("algorithm", o.algorithm.name()));
            v.push(text_field("created_at", o.created_at.as_str()));
        },
        ListShape::Objects => {
            v.push(text_field("kind", o.kind.name()));
            v.push(text_field("algorithm", o.algorithm.name()));
        },
        ListShape::Secrets => {
            v.push(flag_field("has_policy", o.policy_id.is_some()));
            v.push(text_field("created_at", o.created_at.as_str()));
        },
    }
    assert(field_views(v@) =~= object_fields(o@, shape));
    proof {
        reveal_strlit("path");
        reveal_strlit("kind");
        reveal_strlit("algorithm");
        reveal_strlit("created_at");
        reveal_strlit("has_policy");
        assert(plain(field_views(v@)));
    }
    object_of(&v)
}

fn objects_list(list: &Vec<&TpmObject>, shape: ListShape) -> (v: Vec<String>)
    ensures
        views(v@) == object_items(ref_rows(list@), shape),
        forall|i: int| 0 <= i < v@.len() ==> object_text((#[trigger] v@[i])@),
{
    let ghost all = ref_rows(list@);
    let mut v: Vec<String> = Vec::new();
    let mut n: usize = 0;
    while n < list.len()
        invariant
            n <= list@.len(),
            all == ref_rows(list@),
            v@.len() == n,
            forall|i: int| 0 <= i < v@.len() ==> object_text((#[trigger] v@[i])@),
            forall|i: int|
                0 <= i < v@.len() ==> (#[trigger] v@[i])@ == json_object(
                    object_fields(all[i], shape),
                ),
        decreases list@.len() - n,
    {
        let o: &TpmObject = list[n];
        assert(all[n as int] == o@);
        v.push(object_item(o, shape));
        n += 1;
    }
    assert(views(v@) =~= object_items(all, shape));
    v
}

/// Lists the keys.
pub fn handle_list_keys(store: &MemoryStore) -> (a: Answer)
    ensures
        says(
            a,
            200,
            list_body("keys"@, object_items(class_list(store@, ObjectClass::Key), ListShape::Keys)),
        ),
{
    let list = objects_of(store, ObjectClass::Key);
    list_answer("keys", &objects_list(&list, ListShape::Keys))
}

/// Lists the objects.
pub fn handle_list_objects(store: &MemoryStore) -> (a: Answer)
    ensures
        says(
            a,
            200,
            list_body(
                "objects"@,
                object_items(sorted::<TpmObject>(store@.objects), ListShape::Objects),
            ),
        ),
{
    let list = store.list_objects();
    list_answer("objects", &objects_list(&list, ListShape::Objects))
}

/// Lists the secrets.
pub fn handle_list_secrets(store: &MemoryStore) -> (a: Answer)
    ensures
        says(
            a,
            200,
            list_body(
                "secrets"@,
                object_items(class_list(store@, ObjectClass::Secret), ListShape::Secrets),
            ),
        ),
{
    let list = objects_of(store, ObjectClass::Secret);
    list_answer("secrets", &objects_list(&list, ListShape::Secrets))
}

/// What is told of a policy in the list.
pub open spec fn policy_fields(p: PolicyView) -> Seq<FieldView> {
    seq![text_view("name"@, p.name), number_view("rule_count"@, p.rules.len() as u64)]
}

/// Lists the policies.
pub fn handle_list_policies(store: &MemoryStore) -> (a: Answer)
    ensures
        ({
            let all = sorted::<Policy>(store@.policies);
            says(
                a,
                200,
                list_body(
                    "policies"@,
                    Seq::new(all.len(), |i: int| json_object(policy_fields(all[i]))),
                ),
            )
        }),
{
    let list = store.list_policies();
    let ghost all = ref_rows(list@);
    let mut v: Vec<String> = Vec::new();
    let mut n: usize = 0;
    while n < list.len()
        invariant
            n <= list@.len(),
            all == ref_rows(list@),
            v@.len() == n,
            forall|i: int| 0 <= i < v@.len() ==> object_text((#[trigger] v@[i])@),
            forall|i: int|
                0 <= i < v@.len() ==> (#[trigger] v@[i])@ == json_object(policy_fields(all[i])),
        decreases list@.len() - n,
    {
        let p: &Policy = list[n];
        assert(all[n as int] == p@);
        assert(rule_views(p.rules@).len() == p.rules@.len());
        proof {
            reveal_strlit("name");
            reveal_strlit("rule_count");
        }
        v.push(
            object2(
                text_field("name", p.name.as_str()),
                number_field("rule_count", p.rules.len() as u64),
            ),
        );
        n += 1;
    }
    assert(views(v@) =~= Seq::new(all.len(), |i: int| json_object(policy_fields(all[i]))));
    list_answer("policies", &v)
}

/// What is told of an entry of the log.
pub open spec fn entry_fields(e: EntryView) -> Seq<FieldView> {
    seq![
        signed_view("id"@, e.id),
        text_view("timestamp"@, e.timestamp),
        text_view("action"@, e.action),
        opt_view("object_path"@, e.object_path),
        text_view("details"@, e.details),
    ]
}

fn entry_item(e: &AuditEntry) -> (s: String)
    ensures
        s@ == json_object(entry_fields(e@)),
        object_text(s@),
{
    let mut v: Vec<JsonField> = Vec::new();
    v.push(signed_field("id", e.id));
    v.push(text_field("timestamp", e.timestamp.as_str()));
    v.push(text_field("action", e.action.as_str()));
    v.push(opt_field("object_path", &e.object_path));
    v.push(text_field("details", e.details.as_str()));
    assert(field_views(v@) =~= entry_fields(e@));
    proof {
        reveal_strlit("id");
        reveal_strlit("timestamp");
        reveal_strlit("action");
        reveal_strlit("object_path");
        reveal_strlit("details");
        assert(plain(field_views(v@)));
    }
    object_of(&v)
}

/// Lists the fifty newest entries of the log.
pub fn handle_audit_log(store: &MemoryStore) -> (a: Answer)
    ensures
        ({
            let all = at_most(newest(store@.audit_log, None, None), 50);
            says(
                a,
                200,
                list_body(
                    "entries"@,
                    Seq::new(all.len(), |i: int| json_object(entry_fields(all[i]))),
                ),
            )
        }),
{
    let list = recent_entries(store, None, None, 50);
    let ghost all = rows(list@);
    let mut v: Vec<String> = Vec::new();
    let mut n: usize = 0;
    while n < list.len()
        invariant
            n <= list@.len(),
            all == rows(list@),
            v@.len() == n,
            forall|i: int| 0 <= i < v@.len() ==> object_text((#[trigger] v@[i])@),
            forall|i: int|
                0 <= i < v@.len() ==> (#[trigger] v@[i])@ == json_object(entry_fields(all[i])),
        decreases list@.len() - n,
    {
        assert(all[n as int] == list@[n as int]@);
        v.push(entry_item(&list[n]));
        n += 1;
    }
    assert(views(v@) =~= Seq::new(all.len(), |i: int| json_object(entry_fields(all[i]))));
    list_answer("entries", &v)
}

} // verus!
