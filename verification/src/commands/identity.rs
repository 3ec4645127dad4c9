//! Identities: a key with a purpose, perhaps bound to a measured state.
use vstd::prelude::*;
use vstd::string::*;

use crate::clock::{fresh_id, now, Moment};
use crate::commands::attest::{metadata_policy, numbers_among, AuthorizedView};
use crate::commands::common::{copy_bytes, copy_numbers, user_algorithm, user_path};
use crate::failure::Failure;
use crate::ids::{id_text, uuid_form};
use crate::json::{
    distinct_fields, field_reads, field_views, json_elements, json_member, json_number,
    json_object, json_text, plain, text_field, text_view, FieldView, JsonField, JsonLeaf, LeafView,
};
use crate::model::{
    valid_path, Algorithm, Identity, IdentityUsage, IdentityView, KeyHandle, ObjectKind, ObjectPath,
    ObjectView, Policy, TpmObject,
};
use crate::store::{MemoryStore, StoreState};
use crate::table::{
    get_ref_id, lookup, lookup_id, lookup_of_push, present, ref_rows, sorted, sorted_is_ordered,
};
use crate::text::{field, opt_str, own_opt, push_field};

verus! {

// ---------------------------------------------------------------------------
// Creation
// ---------------------------------------------------------------------------

/// What the key of a new identity is bound to.
#[derive(Debug)]
pub enum Binding {
    /// Nothing.
    Free,
    /// The present state of some registers.
    Registers(Vec<u32>),
    /// It is itself an authority that approves states.
    Authority,
    /// Whatever states of some registers an authority approves.
    Authorized { authority: String, indices: Vec<u32> },
}

pub ghost enum BindingView {
    Free,
    Registers(Seq<u32>),
    Authority,
    Authorized { authority: Seq<char>, indices: Seq<u32> },
}

impl View for Binding {
    type V = BindingView;

    open spec fn view(&self) -> BindingView {
        match self {
            Binding::Free => BindingView::Free,
            Binding::Registers(v) => BindingView::Registers(v@),
            Binding::Authority => BindingView::Authority,
            Binding::Authorized { authority, indices } => BindingView::Authorized {
                authority: authority@,
                indices: indices@,
            },
        }
    }
}

/// The binding that the options ask for, unless they contradict one another.
pub fn init(
    authority: bool,
    authorized_by: Option<&str>,
    pcr_bind: Option<Vec<u32>>,
) -> (r: Result<Binding, Failure>)
    ensures
        match r {
            Ok(b) => b@ == (if authority {
                BindingView::Authority
            } else {
                match (authorized_by, pcr_bind) {
                    (Some(a), Some(p)) => BindingView::Authorized { authority: a@, indices: p@ },
                    (None, Some(p)) => BindingView::Registers(p@),
                    _ => BindingView::Free,
                }
            }) && (authority ==> authorized_by is None && pcr_bind is None) && (authorized_by
                is Some ==> pcr_bind is Some),
            Err(e) => if authority {
                (authorized_by is Some || pcr_bind is Some) && e@
                    == "--authority cannot be combined with --authorized-by or --pcr-bind"@
            } else {
                authorized_by is Some && pcr_bind is None && e@
                    == "--authorized-by requires --pcr-bind to name the PCRs the approval covers"@
            },
        },
{
    if authority {
        if authorized_by.is_some() || pcr_bind.is_some() {
            return Err(
                Failure::new("--authority cannot be combined with --authorized-by or --pcr-bind"),
            );
        }
        return Ok(Binding::Authority);
    }
    match (authorized_by, pcr_bind) {
        (Some(a), Some(p)) => Ok(Binding::Authorized { authority: a.to_owned(), indices: p }),
        (Some(_), None) => Err(
            Failure::new(
                "--authorized-by requires --pcr-bind to name the PCRs the approval covers",
            ),
        ),
        (None, Some(p)) => Ok(Binding::Registers(p)),
        (None, None) => Ok(Binding::Free),
    }
}

/// Where the key of an identity goes if no place is named.
pub open spec fn default_key_path(b: BindingView, name: Seq<char>) -> Seq<char> {
    (if b is Authority {
        "authority/"@
    } else {
        "signing/"@
    }) + name
}

/// The key path of an identity.
pub open spec fn key_path_of(b: BindingView, name: Seq<char>, key_path: Option<Seq<char>>) -> Seq<
    char,
> {
    match key_path {
        Some(p) => p,
        None => default_key_path(b, name),
    }
}

/// A new identity that has passed every check.
#[derive(Debug)]
pub struct InitPlan {
    pub usage: IdentityUsage,
    pub algorithm: Algorithm,
    pub path: ObjectPath,
}

/// Checks a new identity: the name is free, usage, algorithm and path are
/// good, and nothing stands at the path. Of a key that is bound to nothing the
/// usage is looked at first.
pub fn init_check(
    store: &MemoryStore,
    binding: &Binding,
    name: &str,
    usage: &str,
    algorithm: &str,
    key_path: Option<&str>,
) -> (r: Result<InitPlan, Failure>)
    ensures
        ({
            let path = key_path_of(binding@, name@, opt_str(key_path));
            match r {
                Ok(plan) => !present::<Identity>(store@.identities, name@) && IdentityUsage::named(
                    usage@,
                ) == Some(plan.usage) && Algorithm::named(algorithm@) == Some(plan.algorithm)
                    && valid_path(path) && plan.path@ == path && !present::<TpmObject>(
                    store@.objects,
                    path,
                ),
                Err(e) => if binding@ is Free && IdentityUsage::named(usage@) is None {
                    e@ == "unknown identity usage: "@ + usage@
                } else if present::<Identity>(store@.identities, name@) {
                    e@ == "identity already exists: "@ + name@
                } else if IdentityUsage::named(usage@) is None {
                    e@ == "unknown identity usage: "@ + usage@
                } else if Algorithm::named(algorithm@) is None {
                    e@ == "unknown algorithm: "@ + algorithm@
                } else if !valid_path(path) {
                    e@ == "invalid object path: "@ + path
                } else {
                    present::<TpmObject>(store@.objects, path) && e@ == "object already exists: "@
                        + path
                },
            }
        }),
{
    let free = match binding {
        Binding::Free => true,
        _ => false,
    };
    let taken = store.get_identity(name).is_some();
    let usage_parsed = match IdentityUsage::parse(usage) {
        Some(u) => u,
        None => {
            return Err(
                if taken && !free {
                    Failure::about("identity already exists: ", name)
                } else {
                    Failure::about("unknown identity usage: ", usage)
                },
            );
        },
    };
    if taken {
        return Err(Failure::about("identity already exists: ", name));
    }
    let alg = user_algorithm(algorithm)?;
    let mut path_text = String::new();
    match key_path {
        Some(p) => {
            path_text.append(p);
        },
        None => {
            path_text.append(
                match binding {
                    Binding::Authority => "authority/",
                    _ => "signing/",
                },
            );
            path_text.append(name);
        },
    }
    assert(path_text@ =~= key_path_of(binding@, name@, opt_str(key_path)));
    let path = user_path(path_text.as_str())?;
    if store.get_object(&path).is_some() {
        return Err(Failure::about("object already exists: ", path_text.as_str()));
    }
    Ok(InitPlan { usage: usage_parsed, algorithm: alg, path })
}

/// The key of the authority that a new identity is to be bound to.
pub fn authority_key(store: &MemoryStore, name: &str, authority_name: &str) -> (r: Result<
    KeyHandle,
    Failure,
>)
    ensures
        match r {
            Ok(h) => !present::<Identity>(store@.identities, name@) && (lookup::<Identity>(
                store@.identities,
                authority_name@,
            ) matches Some(a) && (lookup_id::<TpmObject>(
                store@.objects,
                a.key_object_id,
            ) matches Some(k) && h.path@ == k.path && k.handle_blob == Some(h.id@))),
            Err(e) => if present::<Identity>(store@.identities, name@) {
                e@ == "identity already exists: "@ + name@
            } else {
                match lookup::<Identity>(store@.identities, authority_name@) {
                    None => e@ == "authority identity not found: "@ + authority_name@,
                    Some(a) => match lookup_id::<TpmObject>(store@.objects, a.key_object_id) {
                        None => e@ == "authority '"@ + authority_name@
                            + "' references missing key"@,
                        Some(k) => k.handle_blob is None && e@ == "authority '"@ + authority_name@
                            + "' key has no handle blob"@,
                    },
                }
            },
        },
{
    if store.get_identity(name).is_some() {
        return Err(Failure::about("identity already exists: ", name));
    }
    match store.get_identity(authority_name) {
        None => Err(Failure::about("authority identity not found: ", authority_name)),
        Some(a) => match store.get_object_by_id(a.key_object_id) {
            None => Err(
                Failure::around("authority '", authority_name, "' references missing key"),
            ),
            Some(k) => match &k.handle_blob {
                None => Err(
                    Failure::around("authority '", authority_name, "' key has no handle blob"),
                ),
                Some(b) => Ok(
                    KeyHandle { id: copy_bytes(b), path: k.path.as_str().to_owned() },
                ),
            },
        },
    }
}

/// A flag that is set.
pub open spec fn flag_view(name: Seq<char>) -> FieldView {
    FieldView { group: None, name, value: LeafView::Flag(true) }
}

/// A list of registers.
pub open spec fn registers_view(group: Option<Seq<char>>, name: Seq<char>, v: Seq<u32>) -> FieldView {
    FieldView { group, name, value: LeafView::Numbers(v) }
}

/// What the key's metadata says of the binding.
pub open spec fn binding_metadata(b: BindingView) -> Seq<FieldView> {
    match b {
        BindingView::Free => Seq::empty(),
        BindingView::Registers(v) => seq![
            FieldView {
                group: Some("pcr_policy"@),
                name: "bank"@,
                value: LeafView::Text("sha256"@),
            },
            registers_view(Some("pcr_policy"@), "indices"@, v),
        ],
        BindingView::Authority => seq![flag_view("policy_authority"@)],
        BindingView::Authorized { authority, indices } => seq![
            FieldView {
                group: Some("policy_authorize"@),
                name: "authority"@,
                value: LeafView::Text(authority),
            },
            FieldView {
                group: Some("policy_authorize"@),
                name: "bank"@,
                value: LeafView::Text("sha256"@),
            },
            registers_view(Some("policy_authorize"@), "indices"@, indices),
        ],
    }
}

/// What is logged of a new identity.
pub open spec fn init_details(b: BindingView, usage: IdentityUsage, key: Seq<char>) -> Seq<
    FieldView,
> {
    seq![text_view("usage"@, usage.text()), text_view("key"@, key)] + (match b {
        BindingView::Free => Seq::empty(),
        BindingView::Registers(v) => seq![registers_view(None, "pcr_bind"@, v)],
        BindingView::Authority => seq![flag_view("authority"@)],
        BindingView::Authorized { authority, indices } => seq![
            text_view("authorized_by"@, authority),
            registers_view(None, "pcr_bind"@, indices),
        ],
    })
}

fn grouped_text(group: &str, name: &str, value: &str) -> (f: JsonField)
    ensures
        f@ == (FieldView { group: Some(group@), name: name@, value: LeafView::Text(value@) }),
{
    JsonField {
        group: Some(group.to_owned()),
        name: name.to_owned(),
        value: JsonLeaf::Text(value.to_owned()),
    }
}

fn registers_field(group: Option<&str>, name: &str, v: &Vec<u32>) -> (f: JsonField)
    ensures
        f@ == registers_view(opt_str(group), name@, v@),
{
    JsonField {
        group: own_opt(group),
        name: name.to_owned(),
        value: JsonLeaf::Numbers(copy_numbers(v)),
    }
}

fn flag_field(name: &str) -> (f: JsonField)
    ensures
        f@ == flag_view(name@),
{
    JsonField { group: None, name: name.to_owned(), value: JsonLeaf::Flag(true) }
}

/// Reading the numbers of an array gives the numbers that were written.
proof fn numbers_read_back(e: Seq<Seq<char>>, ns: Seq<u32>, n: nat)
    requires
        n <= ns.len() == e.len(),
        forall|k: int| 0 <= k < ns.len() ==> json_number(#[trigger] e[k]) == Some(ns[k] as u64),
    ensures
        numbers_among(e, n) == ns.take(n as int),
    decreases n,
{
    if n > 0 {
        numbers_read_back(e, ns, (n - 1) as nat);
        assert(json_number(e[n - 1]) == Some(ns[n - 1] as u64));
        assert((ns[n - 1] as u64) % 0x1_0000_0000 == ns[n - 1]);
        assert(ns.take(n as int) =~= ns.take(n - 1).push(ns[n - 1]));
    } else {
        assert(ns.take(0) =~= Seq::<u32>::empty());
    }
}

/// The metadata of a key. What is written of an authority reads back.
fn metadata_for(b: &Binding) -> (s: String)
    ensures
        s@ == json_object(binding_metadata(b@)),
        b@ matches BindingView::Authorized { authority, indices } ==> metadata_policy(s@) == Some(
            AuthorizedView { authority, bank: "sha256"@, indices },
        ),
{
    let mut v: Vec<JsonField> = Vec::new();
    match b {
        Binding::Free => {},
        Binding::Registers(indices) => {
            v.push(grouped_text("pcr_policy", "bank", "sha256"));
            v.push(registers_field(Some("pcr_policy"), "indices", indices));
        },
        Binding::Authority => {
            v.push(flag_field("policy_authority"));
        },
        Binding::Authorized { authority, indices } => {
            v.push(grouped_text("policy_authorize", "authority", authority.as_str()));
            v.push(grouped_text("policy_authorize", "bank", "sha256"));
            v.push(registers_field(Some("policy_authorize"), "indices", indices));
        },
    }
    assert(field_views(v@) =~= binding_metadata(b@));
    let s = json_text(&v);
    proof {
        if let BindingView::Authorized { authority, indices } = b@ {
            let f = binding_metadata(b@);
            reveal_strlit("authority");
            reveal_strlit("bank");
            reveal_strlit("indices");
            reveal_strlit("policy_authorize");
            assert("authority"@.len() == 9 && "bank"@.len() == 4 && "indices"@.len() == 7);
            assert(plain(f) && distinct_fields(f));
            assert(field_reads(s@, field_views(v@)[0]));
            assert(field_reads(s@, field_views(v@)[1]));
            assert(field_reads(s@, field_views(v@)[2]));
            let inner = json_member(s@, "policy_authorize"@)->0;
            let e = json_elements(json_member(inner, "indices"@)->0)->0;
            numbers_read_back(e, indices, indices.len());
            assert(indices.take(indices.len() as int) =~= indices);
        }
    }
    s
}

fn details_for(b: &Binding, usage: IdentityUsage, key: &str) -> (s: String)
    ensures
        s@ == json_object(init_details(b@, usage, key@)),
{
    let mut v: Vec<JsonField> = Vec::new();
    v.push(text_field("usage", usage.name()));
    v.push(text_field("key", key));
    match b {
        Binding::Free => {},
        Binding::Registers(indices) => {
            v.push(registers_field(None, "pcr_bind", indices));
        },
        Binding::Authority => {
            v.push(flag_field("authority"));
        },
        Binding::Authorized { authority, indices } => {
            v.push(text_field("authorized_by", authority.as_str()));
            v.push(registers_field(None, "pcr_bind", indices));
        },
    }
    assert(field_views(v@) =~= init_details(b@, usage, key@));
    json_text(&v)
}

/// The policy that is kept with an identity: one whose key is bound to
/// registers or to an authority, or that is an authority, has none.
pub open spec fn kept_policy(b: BindingView, policy_id: Option<u128>) -> Option<u128> {
    if b is Free {
        policy_id
    } else {
        None
    }
}

/// The key of a new identity as the store keeps it.
pub open spec fn key_object(
    b: BindingView,
    path: Seq<char>,
    algorithm: Algorithm,
    policy_id: Option<u128>,
    handle: Seq<u8>,
    id: u128,
    created_at: Seq<char>,
) -> ObjectView {
    ObjectView {
        id,
        path,
        kind: ObjectKind::SigningKey,
        algorithm,
        policy_id,
        handle_blob: Some(handle),
        created_at,
        metadata: json_object(binding_metadata(b)),
    }
}

/// A new identity as the store keeps it.
pub open spec fn new_identity(
    name: Seq<char>,
    usage: IdentityUsage,
    subject: Option<Seq<char>>,
    key_id: u128,
    policy_id: Option<u128>,
    id: u128,
    created_at: Seq<char>,
) -> IdentityView {
    IdentityView {
        id,
        name,
        key_object_id: key_id,
        policy_id,
        usage,
        subject,
        certificate_pem: None,
        created_at,
        rotated_from: None,
    }
}

/// A new identity as it is printed.
pub open spec fn init_text(
    name: Seq<char>,
    id: u128,
    usage: IdentityUsage,
    key_id: u128,
    subject: Option<Seq<char>>,
) -> Seq<char> {
    field("identity created: "@, name) + field("  id:      "@, uuid_form(id)) + field(
        "  usage:   "@,
        usage.text(),
    ) + field("  key id:  "@, uuid_form(key_id)) + (match subject {
        Some(s) => field("  subject: "@, s),
        None => Seq::empty(),
    })
}

/// What keeping a new identity does to the store and prints: the key goes in
/// first, then the identity, then the log entry.
pub open spec fn identity_kept(
    before: StoreState,
    after: StoreState,
    r: Result<String, Failure>,
    b: BindingView,
    name: Seq<char>,
    usage: IdentityUsage,
    subject: Option<Seq<char>>,
    key: ObjectView,
    identity: IdentityView,
    stamp: Seq<char>,
) -> bool {
    let with_key = StoreState { objects: before.objects.push(key), ..before };
    match r {
        Ok(s) => !present::<TpmObject>(before.objects, key.path) && !present::<Identity>(
            before.identities,
            name,
        ) && after == (StoreState {
            identities: before.identities.push(identity),
            ..with_key
        }).logged(
            "identity.init"@,
            Some(name),
            json_object(init_details(b, usage, key.path)),
            stamp,
        ) && s@ == init_text(name, identity.id, usage, key.id, subject),
        Err(e) => if present::<TpmObject>(before.objects, key.path) {
            e@ == "UNIQUE constraint failed: objects.path"@ && after == before
        } else {
            present::<Identity>(before.identities, name) && e@
                == "UNIQUE constraint failed: identities.name"@ && after == with_key
        },
    }
}

/// Keeps a new identity and its key, under given identifiers and times.
pub fn init_identity_at(
    store: &mut MemoryStore,
    binding: &Binding,
    name: &str,
    plan: InitPlan,
    policy_id: Option<u128>,
    subject: Option<&str>,
    handle: Vec<u8>,
    key_id: u128,
    key_created_at: &str,
    id: u128,
    at: &Moment,
) -> (r: Result<String, Failure>)
    requires
        old(store)@.wf(),
        old(store)@.can_log(),
    ensures
        final(store)@.wf(),
        identity_kept(
            old(store)@,
            final(store)@,
            r,
            binding@,
            name@,
            plan.usage,
            opt_str(subject),
            key_object(
                binding@,
                plan.path@,
                plan.algorithm,
                kept_policy(binding@, policy_id),
                handle@,
                key_id,
                key_created_at@,
            ),
            new_identity(
                name@,
                plan.usage,
                opt_str(subject),
                key_id,
                kept_policy(binding@, policy_id),
                id,
                at.rfc3339@,
            ),
            at.stamp@,
        ),
        r is Ok ==> (binding@ matches BindingView::Authorized { authority, indices }
            ==> metadata_policy(json_object(binding_metadata(binding@))) == Some(
            AuthorizedView { authority, bank: "sha256"@, indices },
        )),
{
    let kept = match binding {
        Binding::Free => policy_id,
        _ => None,
    };
    let key_path = plan.path.copy();
    let details = details_for(binding, plan.usage, key_path.as_str());
    let obj = TpmObject {
        id: key_id,
        path: plan.path,
        kind: ObjectKind::SigningKey,
        algorithm: plan.algorithm,
        policy_id: kept,
        handle_blob: Some(handle),
        created_at: key_created_at.to_owned(),
        metadata: metadata_for(binding),
    };
    store.insert_object(obj)?;
    let identity = Identity {
        id,
        name: name.to_owned(),
        key_object_id: key_id,
        policy_id: kept,
        usage: plan.usage,
        subject: own_opt(subject),
        certificate_pem: None,
        created_at: at.rfc3339.clone(),
        rotated_from: None,
    };
    store.insert_identity(identity)?;
    store.log_action_at("identity.init", Some(name), details.as_str(), at.stamp.as_str());
    let mut s = String::new();
    push_field(&mut s, "identity created: ", name);
    push_field(&mut s, "  id:      ", id_text(id).as_str());
    push_field(&mut s, "  usage:   ", plan.usage.name());
    push_field(&mut s, "  key id:  ", id_text(key_id).as_str());
    match subject {
        Some(t) => push_field(&mut s, "  subject: ", t),
        None => {},
    }
    assert(s@ =~= init_text(name@, id, plan.usage, key_id, opt_str(subject)));
    Ok(s)
}

/// Keeps a new identity and its key, under fresh identifiers.
pub fn init_identity(
    store: &mut MemoryStore,
    binding: &Binding,
    name: &str,
    plan: InitPlan,
    policy_id: Option<u128>,
    subject: Option<&str>,
    handle: Vec<u8>,
) -> (r: Result<String, Failure>)
    requires
        old(store)@.wf(),
        old(store)@.can_log(),
    ensures
        final(store)@.wf(),
        exists|
            key_id: u128,
            key_created_at: Seq<char>,
            id: u128,
            created_at: Seq<char>,
            stamp: Seq<char>,
        |
            #[trigger] identity_kept(
                old(store)@,
                final(store)@,
                r,
                binding@,
                name@,
                plan.usage,
                opt_str(subject),
                key_object(
                    binding@,
                    plan.path@,
                    plan.algorithm,
                    kept_policy(binding@, policy_id),
                    handle@,
                    key_id,
                    key_created_at,
                ),
                new_identity(
                    name@,
                    plan.usage,
                    opt_str(subject),
                    key_id,
                    kept_policy(binding@, policy_id),
                    id,
                    created_at,
                ),
                stamp,
            ),
{
    let key_id: u128 = fresh_id();
    let key_at = crate::clock::now_rfc3339();
    let id: u128 = fresh_id();
    let at = now();
    init_identity_at(
        store,
        binding,
        name,
        plan,
        policy_id,
        subject,
        handle,
        key_id,
        key_at.as_str(),
        id,
        &at,
    )
}

/// An identity that was kept is found by its name and points at its key,
/// which is found by its path.
pub proof fn kept_identity_is_found(
    before: StoreState,
    after: StoreState,
    s: String,
    b: BindingView,
    name: Seq<char>,
    usage: IdentityUsage,
    subject: Option<Seq<char>>,
    key: ObjectView,
    identity: IdentityView,
    stamp: Seq<char>,
)
    requires
        identity_kept(before, after, Ok(s), b, name, usage, subject, key, identity, stamp),
        identity.name == name,
        identity.key_object_id == key.id,
    ensures
        lookup::<Identity>(after.identities, name) == Some(identity),
        lookup::<TpmObject>(after.objects, key.path) == Some(key),
        lookup::<Identity>(after.identities, name)->0.key_object_id == lookup::<TpmObject>(
            after.objects,
            key.path,
        )->0.id,
{
    lookup_of_push::<Identity>(before.identities, identity, name);
    lookup_of_push::<TpmObject>(before.objects, key, key.path);
}

// ---------------------------------------------------------------------------
// Showing
// ---------------------------------------------------------------------------

/// An identity as it is printed.
pub open spec fn detail_text(s: StoreState, i: IdentityView) -> Seq<char> {
    field("name:         "@, i.name) + field("id:           "@, uuid_form(i.id)) + field(
        "usage:        "@,
        i.usage.text(),
    ) + field(
        "key:          "@,
        match lookup_id::<TpmObject>(sorted::<TpmObject>(s.objects), i.key_object_id) {
            Some(o) => o.path,
            None => "(missing)"@,
        },
    ) + field("key id:       "@, uuid_form(i.key_object_id)) + field(
        "policy:       "@,
        match i.policy_id {
            None => "(none)"@,
            Some(p) => match lookup_id::<Policy>(s.policies, p) {
                Some(pol) => pol.name,
                None => "(none)"@,
            },
        },
    ) + field(
        "subject:      "@,
        match i.subject {
            Some(t) => t,
            None => "(none)"@,
        },
    ) + field(
        "certificate:  "@,
        if i.certificate_pem is Some {
            "present"@
        } else {
            "(none)"@
        },
    ) + field("created:      "@, i.created_at) + (match i.rotated_from {
        Some(r) => field("rotated from: "@, uuid_form(r)),
        None => Seq::empty(),
    })
}

/// Prints an identity.
pub fn show(store: &MemoryStore, name: &str) -> (r: Result<String, Failure>)
    ensures
        match r {
            Ok(s) => lookup::<Identity>(store@.identities, name@) matches Some(i) && s@
                == detail_text(store@, i),
            Err(e) => lookup::<Identity>(store@.identities, name@) is None && e@
                == "identity not found: "@ + name@,
        },
{
    let i = match store.get_identity(name) {
        Some(i) => i,
        None => {
            return Err(Failure::about("identity not found: ", name));
        },
    };
    let objects = store.list_objects();
    let mut s = String::new();
    push_field(&mut s, "name:         ", i.name.as_str());
    push_field(&mut s, "id:           ", id_text(i.id).as_str());
    push_field(&mut s, "usage:        ", i.usage.name());
    push_field(
        &mut s,
        "key:          ",
        match get_ref_id(&objects, i.key_object_id) {
            Some(o) => o.path.as_str(),
            None => "(missing)",
        },
    );
    push_field(&mut s, "key id:       ", id_text(i.key_object_id).as_str());
    push_field(
        &mut s,
        "policy:       ",
        match i.policy_id {
            None => "(none)",
            Some(p) => match store.get_policy_by_id(p) {
                Some(pol) => pol.name.as_str(),
                None => "(none)",
            },
        },
    );
    push_field(
        &mut s,
        "subject:      ",
        match &i.subject {
            Some(t) => t.as_str(),
            None => "(none)",
        },
    );
    push_field(
        &mut s,
        "certificate:  ",
        if i.certificate_pem.is_some() {
            "present"
        } else {
            "(none)"
        },
    );
    push_field(&mut s, "created:      ", i.created_at.as_str());
    match i.rotated_from {
        Some(r) => push_field(&mut s, "rotated from: ", id_text(r).as_str()),
        None => {},
    }
    assert(s@ =~= detail_text(store@, i@));
    Ok(s)
}

/// An identity in a listing.
pub open spec fn summary(i: IdentityView) -> Seq<char> {
    "  "@ + i.name + " ["@ + i.usage.text() + "]\n"@ + (match i.subject {
        Some(t) => field("    subject: "@, t),
        None => Seq::empty(),
    })
}

/// The first `n` identities of a listing.
pub open spec fn summaries(s: Seq<IdentityView>, n: nat) -> Seq<char>
    decreases n,
{
    if n == 0 {
        Seq::empty()
    } else {
        summaries(s, (n - 1) as nat) + summary(s[n - 1])
    }
}

/// A listing of identities.
pub open spec fn listing(s: Seq<IdentityView>) -> Seq<char> {
    if s.len() == 0 {
        "No identities defined.\n"@
    } else {
        summaries(sorted::<Identity>(s), s.len())
    }
}

/// Prints every identity.
pub fn list(store: &MemoryStore) -> (s: String)
    ensures
        s@ == listing(store@.identities),
{
    let rows = store.list_identities();
    let ghost all = sorted::<Identity>(store@.identities);
    proof {
        sorted_is_ordered::<Identity>(store@.identities);
        assert(ref_rows(rows@).len() == rows@.len());
    }
    if rows.len() == 0 {
        return "No identities defined.\n".to_owned();
    }
    let mut s = String::new();
    let mut n: usize = 0;
    while n < rows.len()
        invariant
            n <= rows@.len(),
            ref_rows(rows@) == all,
            s@ == summaries(all, n as nat),
        decreases rows@.len() - n,
    {
        let i: &Identity = rows[n];
        assert(all[n as int] == i@);
        let ghost before = s@;
        s.append("  ");
        s.append(i.name.as_str());
        s.append(" [");
        s.append(i.usage.name());
        s.append("]\n");
        match &i.subject {
            Some(t) => push_field(&mut s, "    subject: ", t.as_str()),
            None => {},
        }
        assert(s@ =~= before + summary(i@));
        n += 1;
    }
    s
}

/// A rotated identity as it is printed.
pub open spec fn rotated_text(i: IdentityView) -> Seq<char> {
    field("identity rotated: "@, i.name) + field("  new key id:    "@, uuid_form(i.key_object_id))
        + field(
        "  rotated from:  "@,
        match i.rotated_from {
            Some(r) => uuid_form(r),
            None => Seq::empty(),
        },
    )
}

/// Prints a rotated identity.
pub fn rotate(i: &Identity) -> (s: String)
    ensures
        s@ == rotated_text(i@),
{
    let mut s = String::new();
    push_field(&mut s, "identity rotated: ", i.name.as_str());
    push_field(&mut s, "  new key id:    ", id_text(i.key_object_id).as_str());
    match i.rotated_from {
        Some(r) => push_field(&mut s, "  rotated from:  ", id_text(r).as_str()),
        None => push_field(&mut s, "  rotated from:  ", ""),
    }
    proof {
        reveal_strlit("");
        assert(""@ =~= Seq::<char>::empty());
    }
    assert(s@ =~= rotated_text(i@));
    s
}

/// Says that an identity is gone.
pub fn delete(name: &str, cascade: bool) -> (s: String)
    ensures
        s@ == "identity deleted: "@ + name@ + (if cascade {
            " (including backing key)\n"@
        } else {
            " (key preserved)\n"@
        }),
{
    let mut s = String::new();
    s.append("identity deleted: ");
    s.append(name);
    s.append(
        if cascade {
            " (including backing key)\n"
        } else {
            " (key preserved)\n"
        },
    );
    assert(s@ =~= "identity deleted: "@ + name@ + (if cascade {
        " (including backing key)\n"@
    } else {
        " (key preserved)\n"@
    }));
    s
}

} // verus!
