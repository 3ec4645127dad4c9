//! What the TPM can do, and a bundle for those who look into a problem.
use vstd::prelude::*;
use vstd::string::*;

use crate::model::{
    Algorithm, AuditEntry, BackendStatus, ObjectView, Policy, PolicyView, Profile, ProfileView,
    TpmObject,
};
use crate::store::{at_most, newest, MemoryStore, StoreState};
use crate::table::{ref_rows, sorted, sorted_is_ordered};
use crate::text::{
    copy_opt, decimal, field, opt_str, push_choice, push_decimal, push_field, yes_no,
};

verus! {

/// What the TPM can do, as it is printed.
pub open spec fn capabilities_text(b: BackendStatus) -> Seq<char> {
    "TPM Capabilities\n\n"@ + field("  backend:     "@, b.backend_type@) + field(
        "  manufacturer: "@,
        b.manufacturer@,
    ) + field("  firmware:     "@, b.firmware_version@) + field(
        "  available:    "@,
        yes_no(b.available),
    ) + "\n  algorithms:\n"@ + field("    - "@, Algorithm::EccP256.text()) + field(
        "    - "@,
        Algorithm::EccP384.text(),
    ) + field("    - "@, Algorithm::Rsa2048.text()) + field("    - "@, Algorithm::Rsa3072.text())
        + "\n  PCR banks:\n    - sha256\n    - sha384\n    - sha1\n"@
        + "\n  max NV size:          2048 bytes\n  max persistent handles: 7\n"@
}

/// Prints what the TPM can do.
pub fn run(status: &BackendStatus) -> (s: String)
    ensures
        s@ == capabilities_text(*status),
{
    let mut s = String::new();
    s.append("TPM Capabilities\n\n");
    push_field(&mut s, "  backend:     ", status.backend_type.as_str());
    push_field(&mut s, "  manufacturer: ", status.manufacturer.as_str());
    push_field(&mut s, "  firmware:     ", status.firmware_version.as_str());
    push_choice(&mut s, "  available:    ", status.available);
    s.append("\n  algorithms:\n");
    let all = Algorithm::all();
    push_field(&mut s, "    - ", all[0].name());
    push_field(&mut s, "    - ", all[1].name());
    push_field(&mut s, "    - ", all[2].name());
    push_field(&mut s, "    - ", all[3].name());
    s.append("\n  PCR banks:\n    - sha256\n    - sha384\n    - sha1\n");
    s.append("\n  max NV size:          2048 bytes\n  max persistent handles: 7\n");
    assert(s@ =~= capabilities_text(*status));
    s
}

// ---------------------------------------------------------------------------
// The bundle
// ---------------------------------------------------------------------------

/// An object in the bundle: nothing secret.
#[derive(Debug)]
pub struct BundledObject {
    pub path: String,
    pub kind: String,
    pub algorithm: String,
    pub has_handle: bool,
    pub has_policy: bool,
}

/// A policy in the bundle.
#[derive(Debug)]
pub struct BundledPolicy {
    pub name: String,
    pub rule_count: usize,
}

/// A profile in the bundle.
#[derive(Debug)]
pub struct BundledProfile {
    pub name: String,
    pub active: bool,
}

/// What is told of a workspace to those who look into a problem.
#[derive(Debug)]
pub struct DebugBundle {
    pub objects: Vec<BundledObject>,
    pub policies: Vec<BundledPolicy>,
    pub profiles: Vec<BundledProfile>,
    pub recent_log: Vec<AuditEntry>,
}

/// What is told of an object.
pub open spec fn bundles_object(b: BundledObject, o: ObjectView) -> bool {
    &&& b.path@ == o.path
    &&& b.kind@ == o.kind.text()
    &&& b.algorithm@ == o.algorithm.text()
    &&& b.has_handle == (o.handle_blob is Some)
    &&& b.has_policy == (o.policy_id is Some)
}

/// What is told of a policy.
pub open spec fn bundles_policy(b: BundledPolicy, p: PolicyView) -> bool {
    b.name@ == p.name && b.rule_count == p.rules.len()
}

/// What is told of a profile.
pub open spec fn bundles_profile(b: BundledProfile, p: ProfileView) -> bool {
    b.name@ == p.name && b.active == p.is_active
}

/// The bundle tells of every object, policy and profile, and of the fifty
/// newest entries of the log.
pub open spec fn bundle_of(b: DebugBundle, s: StoreState) -> bool {
    &&& b.objects@.len() == s.objects.len()
    &&& forall|i: int|
        0 <= i < b.objects@.len() ==> bundles_object(
            #[trigger] b.objects@[i],
            sorted::<TpmObject>(s.objects)[i],
        )
    &&& b.policies@.len() == s.policies.len()
    &&& forall|i: int|
        0 <= i < b.policies@.len() ==> bundles_policy(
            #[trigger] b.policies@[i],
            sorted::<Policy>(s.policies)[i],
        )
    &&& b.profiles@.len() == s.profiles.len()
    &&& forall|i: int|
        0 <= i < b.profiles@.len() ==> bundles_profile(
            #[trigger] b.profiles@[i],
            sorted::<Profile>(s.profiles)[i],
        )
    &&& crate::table::rows(b.recent_log@) == at_most(newest(s.audit_log, None, None), 50)
}

fn bundle_objects(store: &MemoryStore) -> (v: Vec<BundledObject>)
    ensures
        v@.len() == store@.objects.len(),
        forall|i: int|
            0 <= i < v@.len() ==> bundles_object(
                #[trigger] v@[i],
                sorted::<TpmObject>(store@.objects)[i],
            ),
{
    let list = store.list_objects();
    let ghost all = sorted::<TpmObject>(store@.objects);
    proof {
        sorted_is_ordered::<TpmObject>(store@.objects);
        assert(ref_rows(list@).len() == list@.len());
    }
    let mut v: Vec<BundledObject> = Vec::new();
    let mut n: usize = 0;
    while n < list.len()
        invariant
            n <= list@.len(),
            all == ref_rows(list@),
            v@.len() == n,
            forall|i: int| 0 <= i < n ==> bundles_object(#[trigger] v@[i], all[i]),
        decreases list@.len() - n,
    {
        let o: &TpmObject = list[n];
        assert(all[n as int] == o@);
        v.push(
            BundledObject {
                path: o.path.as_str().to_owned(),
                kind: o.kind.name().to_owned(),
                algorithm: o.algorithm.name().to_owned(),
                has_handle: o.handle_blob.is_some(),
                has_policy: o.policy_id.is_some(),
            },
        );
        n += 1;
    }
    v
}

fn bundle_policies(store: &MemoryStore) -> (v: Vec<BundledPolicy>)
    ensures
        v@.len() == store@.policies.len(),
        forall|i: int|
            0 <= i < v@.len() ==> bundles_policy(
                #[trigger] v@[i],
                sorted::<Policy>(store@.policies)[i],
            ),
{
    let list = store.list_policies();
    let ghost all = sorted::<Policy>(store@.policies);
    proof {
        sorted_is_ordered::<Policy>(store@.policies);
        assert(ref_rows(list@).len() == list@.len());
    }
    let mut v: Vec<BundledPolicy> = Vec::new();
    let mut n: usize = 0;
    while n < list.len()
        invariant
            n <= list@.len(),
            all == ref_rows(list@),
            v@.len() == n,
            forall|i: int| 0 <= i < n ==> bundles_policy(#[trigger] v@[i], all[i]),
        decreases list@.len() - n,
    {
        let p: &Policy = list[n];
        assert(all[n as int] == p@);
        v.push(BundledPolicy { name: p.name.clone(), rule_count: p.rules.len() });
        n += 1;
    }
    v
}

fn bundle_profiles(store: &MemoryStore) -> (v: Vec<BundledProfile>)
    ensures
        v@.len() == store@.profiles.len(),
        forall|i: int|
            0 <= i < v@.len() ==> bundles_profile(
                #[trigger] v@[i],
                sorted::<Profile>(store@.profiles)[i],
            ),
{
    let list = store.list_profiles();
    let ghost all = sorted::<Profile>(store@.profiles);
    proof {
        sorted_is_ordered::<Profile>(store@.profiles);
        assert(ref_rows(list@).len() == list@.len());
    }
    let mut v: Vec<BundledProfile> = Vec::new();
    let mut n: usize = 0;
    while n < list.len()
        invariant
            n <= list@.len(),
            all == ref_rows(list@),
            v@.len() == n,
            forall|i: int| 0 <= i < n ==> bundles_profile(#[trigger] v@[i], all[i]),
        decreases list@.len() - n,
    {
        let p: &Profile = list[n];
        assert(all[n as int] == p@);
        v.push(BundledProfile { name: p.name.clone(), active: p.is_active });
        n += 1;
    }
    v
}

/// A copy of the newest entries of the log that pass the filters, at most `limit`.
pub fn recent_entries(
    store: &MemoryStore,
    filter_object: Option<&str>,
    filter_action: Option<&str>,
    limit: usize,
) -> (v: Vec<AuditEntry>)
    ensures
        crate::table::rows(v@) == at_most(
            newest(store@.audit_log, opt_str(filter_object), opt_str(filter_action)),
            limit as int,
        ),
{
    let list = store.list_audit_log(filter_object, filter_action, limit);
    let ghost all = ref_rows(list@);
    let mut v: Vec<AuditEntry> = Vec::new();
    let mut n: usize = 0;
    while n < list.len()
        invariant
            n <= list@.len(),
            all == ref_rows(list@),
            v@.len() == n,
            forall|i: int| 0 <= i < n ==> (#[trigger] v@[i])@ == all[i],
        decreases list@.len() - n,
    {
        let e: &AuditEntry = list[n];
        assert(all[n as int] == e@);
        v.push(
            AuditEntry {
                id: e.id,
                timestamp: e.timestamp.clone(),
                action: e.action.clone(),
                object_path: copy_opt(&e.object_path),
                details: e.details.clone(),
            },
        );
        n += 1;
    }
    assert(crate::table::rows(v@) =~= all);
    v
}

/// Puts the bundle together.
pub fn debug_bundle(store: &MemoryStore) -> (b: DebugBundle)
    ensures
        bundle_of(b, store@),
{
    let recent_log = recent_entries(store, None, None, 50);
    DebugBundle {
        objects: bundle_objects(store),
        policies: bundle_policies(store),
        profiles: bundle_profiles(store),
        recent_log,
    }
}

/// What is printed when the bundle was written.
pub open spec fn bundle_text(output: Seq<char>, b: DebugBundle) -> Seq<char> {
    field("debug bundle written to: "@, output) + field(
        "  objects:  "@,
        decimal(b.objects@.len()),
    ) + field("  policies: "@, decimal(b.policies@.len())) + ("  log:      "@ + decimal(
        b.recent_log@.len(),
    ) + " entries\n"@)
}

/// Says where the bundle was written to.
pub fn bundle_report(output: &str, b: &DebugBundle) -> (s: String)
    ensures
        s@ == bundle_text(output@, *b),
{
    let mut s = String::new();
    push_field(&mut s, "debug bundle written to: ", output);
    crate::text::push_number(&mut s, "  objects:  ", b.objects.len() as u64);
    crate::text::push_number(&mut s, "  policies: ", b.policies.len() as u64);
    s.append("  log:      ");
    push_decimal(&mut s, b.recent_log.len() as u64);
    s.append(" entries\n");
    assert(s@ =~= bundle_text(output@, *b));
    s
}

} // verus!
