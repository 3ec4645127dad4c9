//! Snapshots: an export leaves nothing out, an import only adds, counts what it
//! adds, and touches nothing that is there.
use vstd::prelude::*;

use crate::commands::workspace::restore::{
    exported_kind_reads_back, exported_number_reads_back, imported, Outside,
};
use crate::commands::workspace::{
    export, fresh_report, identities_done, import, import_key_check, import_policy_with, keys_done,
    nv_done, parse_nv_index, parse_object_kind, policies_done, profiles_done, ExportedIdentity,
    ExportedNv, ExportedObject, ExportedPolicy, ExportedProfile, IdentityMade, ImportReport,
    KeyDecision, KeyMade, ReportView, WorkspaceSnapshot,
};
use crate::failure::Failure;
use crate::hex::hex32_text;
use crate::ids::uuid_value;
use crate::model::{rule_views, Identity, ObjectKind, Policy, PolicyView, ProfileView, TpmObject};
use crate::store::{MemoryStore, StoreState};
use crate::table::{lookup, lookup_of_push, position_is_first, present, sorted, sorted_is_ordered};
use crate::text::opt_text;

verus! {

/// A list that has kept everything and gained `n` entries at its end.
pub open spec fn gained<T>(before: Seq<T>, after: Seq<T>, n: nat) -> bool {
    &&& after.len() == before.len() + n
    &&& forall|i: int| 0 <= i < before.len() ==> #[trigger] after[i] == before[i]
}

/// A snapshot of the current version can be imported again, and so can one of
/// the version before; no other can.
pub proof fn known_versions_are_imported(
    store: &MemoryStore,
    w: WorkspaceSnapshot,
    source: &str,
    version: u32,
    own: Result<ImportReport, Failure>,
    r: Result<ImportReport, Failure>,
)
    requires
        call_ensures(export, (store,), w),
        call_ensures(import, (source, w.version), own),
        call_ensures(import, (source, version), r),
    ensures
        own is Ok,
        r is Ok <==> 1 <= version <= 2,
        r matches Ok(report) ==> report.warnings@.len() == 0 && report.profiles_imported == 0
            && report.policies_imported == 0 && report.keys_imported == 0 && report.nv_imported
            == 0 && report.identities_imported == 0 && report.source@ == source@ && report.version
            == version,
{
    if let Ok(report) = r {
        assert(report@.warnings.len() == 0);
    }
}

/// Every object of a store is in its snapshot, once, with its path, kind,
/// algorithm, policy and metadata.
pub proof fn every_object_is_exported(store: &MemoryStore, w: WorkspaceSnapshot, k: int) -> (i: int)
    requires
        call_ensures(export, (store,), w),
        0 <= k < store@.objects.len(),
    ensures
        w.objects@.len() == store@.objects.len(),
        0 <= i < w.objects@.len(),
        ({
            let o = store@.objects[k];
            let e = w.objects@[i];
            &&& uuid_value(e.id@) == Some(o.id)
            &&& e.path@ == o.path
            &&& e.kind@ == o.kind.text()
            &&& e.algorithm@ == o.algorithm.text()
            &&& e.has_policy <==> o.policy_id is Some
            &&& e.policy_id is Some <==> o.policy_id is Some
            &&& e.policy_id matches Some(t) ==> uuid_value(t@) == o.policy_id
            &&& e.metadata@ == o.metadata
            &&& e.created_at@ == o.created_at
        }),
{
    sorted_is_ordered::<TpmObject>(store@.objects);
    let all = sorted::<TpmObject>(store@.objects);
    let o = store@.objects[k];
    assert(store@.objects.to_multiset().contains(o)) by {
        store@.objects.to_multiset_ensures();
    }
    all.to_multiset_ensures();
    assert(all.contains(o));
    let i = choose|i: int| 0 <= i < all.len() && all[i] == o;
    assert(w.objects@[i].path@ == o.path);
    i
}

/// Every policy of a store is in its snapshot with all its rules.
pub proof fn every_policy_is_exported(store: &MemoryStore, w: WorkspaceSnapshot, k: int) -> (i: int)
    requires
        call_ensures(export, (store,), w),
        0 <= k < store@.policies.len(),
    ensures
        w.policies@.len() == store@.policies.len(),
        0 <= i < w.policies@.len(),
        ({
            let p = store@.policies[k];
            let e = w.policies@[i];
            &&& uuid_value(e.id@) == Some(p.id)
            &&& e.name@ == p.name
            &&& e.rule_count == e.rules@.len()
            &&& rule_views(e.rules@) == p.rules
        }),
{
    sorted_is_ordered::<Policy>(store@.policies);
    let all = sorted::<Policy>(store@.policies);
    let p = store@.policies[k];
    assert(store@.policies.to_multiset().contains(p)) by {
        store@.policies.to_multiset_ensures();
    }
    all.to_multiset_ensures();
    assert(all.contains(p));
    let i = choose|i: int| 0 <= i < all.len() && all[i] == p;
    assert(w.policies@[i].name@ == p.name);
    i
}

/// Every identity of a store is in its snapshot with the key it stands on and
/// its certificate.
pub proof fn every_identity_is_exported(
    store: &MemoryStore,
    w: WorkspaceSnapshot,
    k: int,
) -> (i: int)
    requires
        call_ensures(export, (store,), w),
        0 <= k < store@.identities.len(),
    ensures
        w.identities@.len() == store@.identities.len(),
        0 <= i < w.identities@.len(),
        ({
            let d = store@.identities[k];
            let e = w.identities@[i];
            &&& uuid_value(e.id@) == Some(d.id)
            &&& e.name@ == d.name
            &&& e.usage@ == d.usage.text()
            &&& uuid_value(e.key_object_id@) == Some(d.key_object_id)
            &&& opt_text(e.subject) == d.subject
            &&& opt_text(e.certificate_pem) == d.certificate_pem
            &&& e.certificate_present <==> e.certificate_pem is Some
            &&& e.policy_id matches Some(t) ==> uuid_value(t@) == d.policy_id
            &&& e.rotated_from matches Some(t) ==> uuid_value(t@) == d.rotated_from
            &&& e.policy_id is Some <==> d.policy_id is Some
            &&& e.rotated_from is Some <==> d.rotated_from is Some
        }),
{
    sorted_is_ordered::<Identity>(store@.identities);
    let all = sorted::<Identity>(store@.identities);
    let d = store@.identities[k];
    assert(store@.identities.to_multiset().contains(d)) by {
        store@.identities.to_multiset_ensures();
    }
    all.to_multiset_ensures();
    assert(all.contains(d));
    let i = choose|i: int| 0 <= i < all.len() && all[i] == d;
    assert(w.identities@[i].name@ == d.name);
    i
}

proof fn profiles_gain(
    s: StoreState,
    r: ReportView,
    existing: Seq<ProfileView>,
    eps: Seq<ExportedProfile>,
    n: nat,
)
    ensures
        ({
            let (t, q) = profiles_done(s, r, existing, eps, n);
            &&& q.profiles >= r.profiles
            &&& gained(s.profiles, t.profiles, (q.profiles - r.profiles) as nat)
            &&& t == (StoreState { profiles: t.profiles, ..s })
            &&& q == (ReportView { profiles: q.profiles, warnings: q.warnings, ..r })
            &&& (q.profiles - r.profiles) + (q.warnings.len() - r.warnings.len()) == n
        }),
    decreases n,
{
    if n > 0 {
        profiles_gain(s, r, existing, eps, (n - 1) as nat);
    }
}

proof fn policies_gain(
    s: StoreState,
    r: ReportView,
    version: u32,
    eps: Seq<ExportedPolicy>,
    ids: Seq<u128>,
    n: nat,
)
    ensures
        ({
            let (t, q) = policies_done(s, r, version, eps, ids, n);
            &&& q.policies >= r.policies
            &&& gained(s.policies, t.policies, (q.policies - r.policies) as nat)
            &&& t == (StoreState { policies: t.policies, ..s })
            &&& q == (ReportView { policies: q.policies, warnings: q.warnings, ..r })
            &&& (q.policies - r.policies) + (q.warnings.len() - r.warnings.len()) == n
        }),
    decreases n,
{
    if n > 0 {
        policies_gain(s, r, version, eps, ids, (n - 1) as nat);
    }
}

proof fn keys_gain(
    s: StoreState,
    r: ReportView,
    eos: Seq<ExportedObject>,
    made: Seq<KeyMade>,
    n: nat,
)
    ensures
        ({
            let (t, q) = keys_done(s, r, eos, made, n);
            &&& q.keys >= r.keys
            &&& gained(s.objects, t.objects, (q.keys - r.keys) as nat)
            &&& t.audit_log.len() == s.audit_log.len() + (q.keys - r.keys)
            &&& t == (StoreState {
                objects: t.objects,
                audit_log: t.audit_log,
                next_audit_id: t.next_audit_id,
                ..s
            })
            &&& q == (ReportView { keys: q.keys, warnings: q.warnings, ..r })
            &&& q.warnings.len() >= r.warnings.len()
            &&& (q.keys - r.keys) + (q.warnings.len() - r.warnings.len()) <= n
        }),
    decreases n,
{
    if n > 0 {
        keys_gain(s, r, eos, made, (n - 1) as nat);
    }
}

proof fn nv_gain(s: StoreState, r: ReportView, ens: Seq<ExportedNv>, n: nat)
    ensures
        ({
            let (t, q) = nv_done(s, r, ens, n);
            &&& q.nv >= r.nv
            &&& gained(s.nv_indices, t.nv_indices, (q.nv - r.nv) as nat)
            &&& t == (StoreState { nv_indices: t.nv_indices, ..s })
            &&& q == (ReportView { nv: q.nv, warnings: q.warnings, ..r })
            &&& (q.nv - r.nv) + (q.warnings.len() - r.warnings.len()) == n
        }),
    decreases n,
{
    if n > 0 {
        nv_gain(s, r, ens, (n - 1) as nat);
    }
}

proof fn identities_gain(
    s: StoreState,
    r: ReportView,
    version: u32,
    eis: Seq<ExportedIdentity>,
    made: Seq<IdentityMade>,
    n: nat,
)
    ensures
        ({
            let (t, q) = identities_done(s, r, version, eis, made, n);
            &&& q.identities >= r.identities
            &&& gained(s.identities, t.identities, (q.identities - r.identities) as nat)
            &&& t == (StoreState { identities: t.identities, ..s })
            &&& q == (ReportView { identities: q.identities, warnings: q.warnings, ..r })
            &&& (q.identities - r.identities) + (q.warnings.len() - r.warnings.len()) == n
        }),
    decreases n,
{
    if n > 0 {
        identities_gain(s, r, version, eis, made, (n - 1) as nat);
    }
}

/// An import only adds. Every record that was there stays as it was and where it
/// was; the report counts what each list has gained; and every record of the
/// snapshot but the objects that are no keys is either added or warned of.
pub proof fn import_only_adds(s: StoreState, source: Seq<char>, w: WorkspaceSnapshot, o: Outside)
    ensures
        ({
            let (t, r) = imported(s, source, w, o);
            &&& gained(s.profiles, t.profiles, r.profiles)
            &&& gained(s.policies, t.policies, r.policies)
            &&& gained(s.objects, t.objects, r.keys)
            &&& gained(s.nv_indices, t.nv_indices, r.nv)
            &&& gained(s.identities, t.identities, r.identities)
            &&& t.audit_log.len() == s.audit_log.len() + r.keys
            &&& t.pcr_baselines == s.pcr_baselines
            &&& t.approvals == s.approvals
            &&& t.checkpoint_counters == s.checkpoint_counters
            &&& r.source == source
            &&& r.version == w.version
            &&& r.profiles + r.policies + r.keys + r.nv + r.identities + r.warnings.len()
                <= w.profiles@.len() + w.policies@.len() + w.objects@.len() + w.nv_indices@.len()
                + w.identities@.len()
            &&& r.profiles + r.policies + r.nv + r.identities + r.warnings.len()
                >= w.profiles@.len() + w.policies@.len() + w.nv_indices@.len()
                + w.identities@.len()
        }),
{
    let r = fresh_report(source, w.version);
    profiles_gain(s, r, s.profiles, w.profiles@, w.profiles@.len());
    let (s1, r1) = profiles_done(s, r, s.profiles, w.profiles@, w.profiles@.len());
    policies_gain(s1, r1, w.version, w.policies@, o.policy_ids, w.policies@.len());
    let (s2, r2) = policies_done(s1, r1, w.version, w.policies@, o.policy_ids, w.policies@.len());
    keys_gain(s2, r2, w.objects@, o.keys, w.objects@.len());
    let (s3, r3) = keys_done(s2, r2, w.objects@, o.keys, w.objects@.len());
    nv_gain(s3, r3, w.nv_indices@, w.nv_indices@.len());
    let (s4, r4) = nv_done(s3, r3, w.nv_indices@, w.nv_indices@.len());
    identities_gain(s4, r4, w.version, w.identities@, o.identities, w.identities@.len());
}

/// A policy of a snapshot that is not there yet is found afterwards with its
/// rules; one that is there stays as it is. Either is noted once.
pub proof fn imported_policy_is_found(
    store: &mut MemoryStore,
    report: &mut ImportReport,
    version: u32,
    ep: &ExportedPolicy,
    id: u128,
    done: (),
)
    requires
        call_ensures(import_policy_with, (store, report, version, ep, id), done),
        version == 2,
    ensures
        ({
            let before = old(store)@;
            let after = final(store)@;
            let found = lookup::<Policy>(after.policies, ep.name@);
            if lookup::<Policy>(before.policies, ep.name@) is Some {
                after == before && final(report)@.warnings.len() == old(report)@.warnings.len() + 1
                    && final(report)@.policies == old(report)@.policies
            } else {
                found matches Some(p) && p.id == id && p.rules == rule_views(ep.rules@)
                    && final(report)@.warnings == old(report)@.warnings && final(report)@.policies
                    == old(report)@.policies + 1
            }
        }),
        forall|other: Seq<char>|
            other != ep.name@ ==> #[trigger] lookup::<Policy>(final(store)@.policies, other)
                == lookup::<Policy>(old(store)@.policies, other),
{
    position_is_first::<Policy>(old(store)@.policies, ep.name@);
    if lookup::<Policy>(old(store)@.policies, ep.name@) is None {
        let p = PolicyView { id, name: ep.name@, rules: rule_views(ep.rules@) };
        assert forall|key: Seq<char>| true implies #[trigger] lookup::<Policy>(
            old(store)@.policies.push(p),
            key,
        ) == (if lookup::<Policy>(old(store)@.policies, key) is Some {
            lookup::<Policy>(old(store)@.policies, key)
        } else if key == ep.name@ {
            Some(p)
        } else {
            None
        }) by {
            lookup_of_push::<Policy>(old(store)@.policies, p, key);
        }
    }
}

/// Of the objects of a snapshot just the keys are created, and just those whose
/// path is free and whose algorithm is known; they are created as they were.
pub proof fn only_free_keys_are_created(
    store: &MemoryStore,
    eo: &ExportedObject,
    name: &str,
    kind: Option<ObjectKind>,
    d: KeyDecision,
)
    requires
        name@ == eo.kind@,
        call_ensures(parse_object_kind, (name,), kind),
        call_ensures(import_key_check, (store, eo), d),
    ensures
        d matches KeyDecision::Create { path, kind: made, algorithm } ==> path@ == eo.path@ && kind
            == Some(made) && eo.algorithm@ == algorithm.text() && !present::<TpmObject>(
            store@.objects,
            eo.path@,
        ) && !(made is SealedBlob) && !(made is NvIndex),
        kind is None || kind == Some(ObjectKind::SealedBlob) || kind == Some(ObjectKind::NvIndex)
            <==> d is Ignore,
        present::<TpmObject>(store@.objects, eo.path@) ==> !(d is Create),
{
}

/// The name under which a kind is exported is read as that kind, and so is the
/// number of an NV index.
pub proof fn exported_names_are_read(
    kind: ObjectKind,
    name: &str,
    read: Option<ObjectKind>,
    number: u32,
    text: &str,
    n: Option<u32>,
)
    requires
        name@ == kind.text(),
        call_ensures(parse_object_kind, (name,), read),
        text@ == hex32_text(number as int, true),
        call_ensures(parse_nv_index, (text,), n),
    ensures
        read == Some(kind),
        n == Some(number),
{
    exported_kind_reads_back(kind);
    exported_number_reads_back(number);
}

} // verus!
