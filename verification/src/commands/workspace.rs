//! Snapshots of a workspace: export, import and a summary.
use vstd::prelude::*;
use vstd::string::*;

use crate::clock::{fresh_id, now_rfc3339, now_stamp, Moment};
use crate::commands::common::{add_object, added_and_logged, copy_numbers};
use crate::failure::Failure;
use crate::hex::{hex32, hex32_text};
use crate::ids::{id_text, parse_id, uuid_form, uuid_value};
use crate::json::{
    field_views, json_object, json_text, number_field, number_view, object2, text_field, text_view,
    FieldView, JsonField,
};
use crate::model::{
    rule_views, valid_path, Algorithm, Identity, IdentityUsage, IdentityView, NvSlot, NvView,
    ObjectKind, ObjectPath, ObjectView, PcrBaseline, Policy, PolicyRule, PolicyView, Profile,
    ProfileView, TpmObject,
};
use crate::store::{active_profile, baseline_names, nv_listing, nv_triples, MemoryStore, StoreState};
use crate::table::{lookup_id, present, ref_rows, sorted, sorted_is_ordered};
use crate::text::{
    chars_of, copy_opt, decimal, field, number32, occurs_at, opt_text, parse_number, push_decimal,
    push_field, push_lines, push_number, same, views,
};

pub mod phases;
pub mod restore;

verus! {

// ---------------------------------------------------------------------------
// Snapshots
// ---------------------------------------------------------------------------

/// An object in a snapshot.
#[derive(Debug)]
pub struct ExportedObject {
    pub id: String,
    pub path: String,
    pub kind: String,
    pub algorithm: String,
    pub policy_id: Option<String>,
    pub has_policy: bool,
    pub created_at: String,
    pub metadata: String,
}

/// A policy in a snapshot.
#[derive(Debug)]
pub struct ExportedPolicy {
    pub id: String,
    pub name: String,
    pub rule_count: usize,
    pub rules: Vec<PolicyRule>,
}

/// A profile in a snapshot.
#[derive(Debug)]
pub struct ExportedProfile {
    pub name: String,
    pub default_algorithm: String,
    pub active: bool,
}

/// An NV index in a snapshot.
#[derive(Debug)]
pub struct ExportedNv {
    pub name: String,
    pub index: String,
    pub size: usize,
}

/// An identity in a snapshot.
#[derive(Debug)]
pub struct ExportedIdentity {
    pub id: String,
    pub name: String,
    pub usage: String,
    pub key_object_id: String,
    pub policy_id: Option<String>,
    pub subject: Option<String>,
    pub certificate_pem: Option<String>,
    pub certificate_present: bool,
    pub created_at: String,
    pub rotated_from: Option<String>,
}

/// A snapshot of a workspace.
#[derive(Debug)]
pub struct WorkspaceSnapshot {
    pub version: u32,
    pub objects: Vec<ExportedObject>,
    pub policies: Vec<ExportedPolicy>,
    pub profiles: Vec<ExportedProfile>,
    pub pcr_baselines: Vec<String>,
    pub nv_indices: Vec<ExportedNv>,
    pub identities: Vec<ExportedIdentity>,
}

/// An optional identifier, as text.
pub open spec fn opt_uuid(id: Option<u128>) -> Option<Seq<char>> {
    match id {
        Some(i) => Some(uuid_form(i)),
        None => None,
    }
}

fn opt_id_text(id: Option<u128>) -> (r: Option<String>)
    ensures
        opt_text(r) == opt_uuid(id),
        opt_value(r) == id,
{
    match id {
        Some(i) => Some(id_text(i)),
        None => None,
    }
}

// ---------------------------------------------------------------------------
// Export
// ---------------------------------------------------------------------------

/// The exported form of an object. The identifiers read back.
pub open spec fn exports_object(e: ExportedObject, o: ObjectView) -> bool {
    &&& e.id@ == uuid_form(o.id)
    &&& uuid_value(e.id@) == Some(o.id)
    &&& e.path@ == o.path
    &&& e.kind@ == o.kind.text()
    &&& e.algorithm@ == o.algorithm.text()
    &&& opt_text(e.policy_id) == opt_uuid(o.policy_id)
    &&& opt_value(e.policy_id) == o.policy_id
    &&& e.has_policy == (o.policy_id is Some)
    &&& e.created_at@ == o.created_at
    &&& e.metadata@ == o.metadata
}

/// The exported form of a policy. The identifier reads back.
pub open spec fn exports_policy(e: ExportedPolicy, p: PolicyView) -> bool {
    &&& e.id@ == uuid_form(p.id)
    &&& uuid_value(e.id@) == Some(p.id)
    &&& e.name@ == p.name
    &&& e.rule_count == p.rules.len()
    &&& rule_views(e.rules@) == p.rules
}

/// The exported form of a profile.
pub open spec fn exports_profile(e: ExportedProfile, p: ProfileView) -> bool {
    &&& e.name@ == p.name
    &&& e.default_algorithm@ == p.default_algorithm.text()
    &&& e.active == p.is_active
}

/// The exported form of an NV index.
pub open spec fn exports_nv(e: ExportedNv, n: (Seq<char>, u32, usize)) -> bool {
    &&& e.name@ == n.0
    &&& e.index@ == hex32_text(n.1 as int, true)
    &&& e.size == n.2
}

/// The exported form of an identity. The identifiers read back.
pub open spec fn exports_identity(e: ExportedIdentity, i: IdentityView) -> bool {
    &&& e.id@ == uuid_form(i.id)
    &&& uuid_value(e.id@) == Some(i.id)
    &&& e.name@ == i.name
    &&& e.usage@ == i.usage.text()
    &&& e.key_object_id@ == uuid_form(i.key_object_id)
    &&& uuid_value(e.key_object_id@) == Some(i.key_object_id)
    &&& opt_text(e.policy_id) == opt_uuid(i.policy_id)
    &&& opt_value(e.policy_id) == i.policy_id
    &&& opt_text(e.subject) == i.subject
    &&& opt_text(e.certificate_pem) == i.certificate_pem
    &&& e.certificate_present == (i.certificate_pem is Some)
    &&& e.created_at@ == i.created_at
    &&& opt_text(e.rotated_from) == opt_uuid(i.rotated_from)
    &&& opt_value(e.rotated_from) == i.rotated_from
}

/// A copy of a policy's rules.
pub fn copy_rules(rules: &Vec<PolicyRule>) -> (r: Vec<PolicyRule>)
    ensures
        rule_views(r@) == rule_views(rules@),
{
    let mut r: Vec<PolicyRule> = Vec::new();
    let mut i: usize = 0;
    while i < rules.len()
        invariant
            i <= rules@.len(),
            rule_views(r@) == rule_views(rules@).take(i as int),
        decreases rules@.len() - i,
    {
        let ghost before = rule_views(r@);
        let copy = match &rules[i] {
            PolicyRule::PcrMatch { bank, indices } => PolicyRule::PcrMatch {
                bank: bank.clone(),
                indices: copy_numbers(indices),
            },
            PolicyRule::Password => PolicyRule::Password,
        };
        assert(copy@ == rules@[i as int]@);
        r.push(copy);
        assert(rule_views(r@) =~= before.push(rule_views(rules@)[i as int]));
        i += 1;
        assert(rule_views(r@) =~= rule_views(rules@).take(i as int));
    }
    assert(rule_views(r@) =~= rule_views(rules@));
    r
}

fn export_objects(store: &MemoryStore) -> (v: Vec<ExportedObject>)
    ensures
        v@.len() == store@.objects.len(),
        forall|i: int|
            0 <= i < v@.len() ==> exports_object(
                #[trigger] v@[i],
                sorted::<TpmObject>(store@.objects)[i],
            ),
{
    let list = store.list_objects();
    let ghost all = sorted::<TpmObject>(store@.objects);
    proof {
        sorted_is_ordered::<TpmObject>(store@.objects);
        assert(ref_rows(list@).len() == list@.len());
    }
    let mut v: Vec<ExportedObject> = Vec::new();
    let mut n: usize = 0;
    while n < list.len()
        invariant
            n <= list@.len(),
            all == ref_rows(list@),
            v@.len() == n,
            forall|i: int| 0 <= i < n ==> exports_object(#[trigger] v@[i], all[i]),
        decreases list@.len() - n,
    {
        let o: &TpmObject = list[n];
        assert(all[n as int] == o@);
        v.push(
            ExportedObject {
                id: id_text(o.id),
                path: o.path.as_str().to_owned(),
                kind: o.kind.name().to_owned(),
                algorithm: o.algorithm.name().to_owned(),
                policy_id: opt_id_text(o.policy_id),
                has_policy: o.policy_id.is_some(),
                created_at: o.created_at.clone(),
                metadata: o.metadata.clone(),
            },
        );
        n += 1;
    }
    v
}

fn export_policies(store: &MemoryStore) -> (v: Vec<ExportedPolicy>)
    ensures
        v@.len() == store@.policies.len(),
        forall|i: int|
            0 <= i < v@.len() ==> exports_policy(
                #[trigger] v@[i],
                sorted::<Policy>(store@.policies)[i],
            ),
{
    let list = store.list_policies();
    let ghost all = sorted::<Policy>(store@.policies);
    proof {
        sorted_is_ordered::<Policy>(store@.policies);
        assert(ref_rows(list@).len() == list@.len());
    }
    let mut v: Vec<ExportedPolicy> = Vec::new();
    let mut n: usize = 0;
    while n < list.len()
        invariant
            n <= list@.len(),
            all == ref_rows(list@),
            v@.len() == n,
            forall|i: int| 0 <= i < n ==> exports_policy(#[trigger] v@[i], all[i]),
        decreases list@.len() - n,
    {
        let p: &Policy = list[n];
        assert(all[n as int] == p@);
        v.push(
            ExportedPolicy {
                id: id_text(p.id),
                name: p.name.clone(),
                rule_count: p.rules.len(),
                rules: copy_rules(&p.rules),
            },
        );
        n += 1;
    }
    v
}

fn export_profiles(store: &MemoryStore) -> (v: Vec<ExportedProfile>)
    ensures
        v@.len() == store@.profiles.len(),
        forall|i: int|
            0 <= i < v@.len() ==> exports_profile(
                #[trigger] v@[i],
                sorted::<Profile>(store@.profiles)[i],
            ),
{
    let list = store.list_profiles();
    let ghost all = sorted::<Profile>(store@.profiles);
    proof {
        sorted_is_ordered::<Profile>(store@.profiles);
        assert(ref_rows(list@).len() == list@.len());
    }
    let mut v: Vec<ExportedProfile> = Vec::new();
    let mut n: usize = 0;
    while n < list.len()
        invariant
            n <= list@.len(),
            all == ref_rows(list@),
            v@.len() == n,
            forall|i: int| 0 <= i < n ==> exports_profile(#[trigger] v@[i], all[i]),
        decreases list@.len() - n,
    {
        let p: &Profile = list[n];
        assert(all[n as int] == p@);
        v.push(
            ExportedProfile {
                name: p.name.clone(),
                default_algorithm: p.default_algorithm.name().to_owned(),
                active: p.is_active,
            },
        );
        n += 1;
    }
    v
}

fn export_nv(store: &MemoryStore) -> (v: Vec<ExportedNv>)
    ensures
        v@.len() == store@.nv_indices.len(),
        forall|i: int|
            0 <= i < v@.len() ==> exports_nv(
                #[trigger] v@[i],
                nv_listing(store@.nv_indices)[i],
            ),
{
    let list = store.list_nv_indices();
    let ghost all = nv_listing(store@.nv_indices);
    proof {
        sorted_is_ordered::<NvSlot>(store@.nv_indices);
        assert(nv_triples(list@).len() == list@.len());
    }
    let mut v: Vec<ExportedNv> = Vec::new();
    let mut n: usize = 0;
    while n < list.len()
        invariant
            n <= list@.len(),
            all == nv_triples(list@),
            v@.len() == n,
            forall|i: int| 0 <= i < n ==> exports_nv(#[trigger] v@[i], all[i]),
        decreases list@.len() - n,
    {
        let e = &list[n];
        assert(all[n as int] == (e.0@, e.1, e.2));
        v.push(ExportedNv { name: e.0.clone(), index: hex32(e.1, true), size: e.2 });
        n += 1;
    }
    v
}

fn export_identities(store: &MemoryStore) -> (v: Vec<ExportedIdentity>)
    ensures
        v@.len() == store@.identities.len(),
        forall|i: int|
            0 <= i < v@.len() ==> exports_identity(
                #[trigger] v@[i],
                sorted::<Identity>(store@.identities)[i],
            ),
{
    let list = store.list_identities();
    let ghost all = sorted::<Identity>(store@.identities);
    proof {
        sorted_is_ordered::<Identity>(store@.identities);
        assert(ref_rows(list@).len() == list@.len());
    }
    let mut v: Vec<ExportedIdentity> = Vec::new();
    let mut n: usize = 0;
    while n < list.len()
        invariant
            n <= list@.len(),
            all == ref_rows(list@),
            v@.len() == n,
            forall|i: int| 0 <= i < n ==> exports_identity(#[trigger] v@[i], all[i]),
        decreases list@.len() - n,
    {
        let x: &Identity = list[n];
        assert(all[n as int] == x@);
        v.push(
            ExportedIdentity {
                id: id_text(x.id),
                name: x.name.clone(),
                usage: x.usage.name().to_owned(),
                key_object_id: id_text(x.key_object_id),
                policy_id: opt_id_text(x.policy_id),
                subject: copy_opt(&x.subject),
                certificate_pem: copy_opt(&x.certificate_pem),
                certificate_present: x.certificate_pem.is_some(),
                created_at: x.created_at.clone(),
                rotated_from: opt_id_text(x.rotated_from),
            },
        );
        n += 1;
    }
    v
}

/// The snapshot holds every record of the store, each kind in order of name.
pub open spec fn snapshot_of(w: WorkspaceSnapshot, s: StoreState) -> bool {
    &&& w.version == 2
    &&& w.objects@.len() == s.objects.len()
    &&& forall|i: int|
        0 <= i < w.objects@.len() ==> exports_object(
            #[trigger] w.objects@[i],
            sorted::<TpmObject>(s.objects)[i],
        )
    &&& w.policies@.len() == s.policies.len()
    &&& forall|i: int|
        0 <= i < w.policies@.len() ==> exports_policy(
            #[trigger] w.policies@[i],
            sorted::<Policy>(s.policies)[i],
        )
    &&& w.profiles@.len() == s.profiles.len()
    &&& forall|i: int|
        0 <= i < w.profiles@.len() ==> exports_profile(
            #[trigger] w.profiles@[i],
            sorted::<Profile>(s.profiles)[i],
        )
    &&& views(w.pcr_baselines@) == baseline_names(s.pcr_baselines)
    &&& w.nv_indices@.len() == s.nv_indices.len()
    &&& forall|i: int|
        0 <= i < w.nv_indices@.len() ==> exports_nv(
            #[trigger] w.nv_indices@[i],
            nv_listing(s.nv_indices)[i],
        )
    &&& w.identities@.len() == s.identities.len()
    &&& forall|i: int|
        0 <= i < w.identities@.len() ==> exports_identity(
            #[trigger] w.identities@[i],
            sorted::<Identity>(s.identities)[i],
        )
}

/// Takes a snapshot of a workspace.
pub fn export(store: &MemoryStore) -> (w: WorkspaceSnapshot)
    ensures
        snapshot_of(w, store@),
{
    WorkspaceSnapshot {
        version: 2,
        objects: export_objects(store),
        policies: export_policies(store),
        profiles: export_profiles(store),
        pcr_baselines: store.list_pcr_baselines(),
        nv_indices: export_nv(store),
        identities: export_identities(store),
    }
}

/// The outcome of an export as it is printed.
pub open spec fn export_text(path: Seq<char>, w: WorkspaceSnapshot) -> Seq<char> {
    field("workspace exported to: "@, path) + field(
        "  objects:    "@,
        decimal(w.objects@.len()),
    ) + field("  policies:   "@, decimal(w.policies@.len())) + field(
        "  profiles:   "@,
        decimal(w.profiles@.len()),
    ) + field("  identities: "@, decimal(w.identities@.len()))
}

/// Prints the outcome of an export.
pub fn export_report(path: &str, w: &WorkspaceSnapshot) -> (s: String)
    ensures
        s@ == export_text(path@, *w),
{
    let mut s = String::new();
    push_field(&mut s, "workspace exported to: ", path);
    push_number(&mut s, "  objects:    ", w.objects.len() as u64);
    push_number(&mut s, "  policies:   ", w.policies.len() as u64);
    push_number(&mut s, "  profiles:   ", w.profiles.len() as u64);
    push_number(&mut s, "  identities: ", w.identities.len() as u64);
    assert(s@ =~= export_text(path@, *w));
    s
}

/// A workspace in a few lines.
pub open spec fn info_text(path: Seq<char>, s: StoreState) -> Seq<char> {
    field("store:      "@, path) + field("objects:    "@, decimal(s.objects.len())) + field(
        "policies:   "@,
        decimal(s.policies.len()),
    ) + field("profiles:   "@, decimal(s.profiles.len())) + field(
        "active:     "@,
        match active_profile(s.profiles) {
            Some(p) => p.name,
            None => "(none)"@,
        },
    ) + field("baselines:  "@, decimal(s.pcr_baselines.len())) + field(
        "NV indices: "@,
        decimal(s.nv_indices.len()),
    )
}

/// Prints a workspace in a few lines.
pub fn info(store: &MemoryStore, path: &str) -> (s: String)
    ensures
        s@ == info_text(path@, store@),
{
    let objects = store.list_objects();
    let policies = store.list_policies();
    let profiles = store.list_profiles();
    let baselines = store.list_pcr_baselines();
    let nv = store.list_nv_indices();
    proof {
        sorted_is_ordered::<TpmObject>(store@.objects);
        sorted_is_ordered::<Policy>(store@.policies);
        sorted_is_ordered::<Profile>(store@.profiles);
        sorted_is_ordered::<PcrBaseline>(store@.pcr_baselines);
        sorted_is_ordered::<NvSlot>(store@.nv_indices);
        assert(ref_rows(objects@).len() == objects@.len());
        assert(ref_rows(policies@).len() == policies@.len());
        assert(ref_rows(profiles@).len() == profiles@.len());
        assert(views(baselines@).len() == baselines@.len());
        assert(nv_triples(nv@).len() == nv@.len());
    }
    let mut s = String::new();
    push_field(&mut s, "store:      ", path);
    push_number(&mut s, "objects:    ", objects.len() as u64);
    push_number(&mut s, "policies:   ", policies.len() as u64);
    push_number(&mut s, "profiles:   ", profiles.len() as u64);
    push_field(
        &mut s,
        "active:     ",
        match store.get_active_profile() {
            Some(p) => p.name.as_str(),
            None => "(none)",
        },
    );
    push_number(&mut s, "baselines:  ", baselines.len() as u64);
    push_number(&mut s, "NV indices: ", nv.len() as u64);
    assert(s@ =~= info_text(path@, store@));
    s
}

// ---------------------------------------------------------------------------
// Import: the report
// ---------------------------------------------------------------------------

/// What an import did.
#[derive(Debug)]
pub struct ImportReport {
    pub source: String,
    pub version: u32,
    pub profiles_imported: usize,
    pub policies_imported: usize,
    pub keys_imported: usize,
    pub nv_imported: usize,
    pub identities_imported: usize,
    pub warnings: Vec<String>,
}

#[verifier::ext_equal]
pub ghost struct ReportView {
    pub source: Seq<char>,
    pub version: u32,
    pub profiles: nat,
    pub policies: nat,
    pub keys: nat,
    pub nv: nat,
    pub identities: nat,
    pub warnings: Seq<Seq<char>>,
}

impl View for ImportReport {
    type V = ReportView;

    open spec fn view(&self) -> ReportView {
        ReportView {
            source: self.source@,
            version: self.version,
            profiles: self.profiles_imported as nat,
            policies: self.policies_imported as nat,
            keys: self.keys_imported as nat,
            nv: self.nv_imported as nat,
            identities: self.identities_imported as nat,
            warnings: views(self.warnings@),
        }
    }
}

/// A report with one more warning.
pub open spec fn warned(r: ReportView, w: Seq<char>) -> ReportView {
    ReportView { warnings: r.warnings.push(w), ..r }
}

/// The report before anything was imported.
pub open spec fn fresh_report(source: Seq<char>, version: u32) -> ReportView {
    ReportView {
        source,
        version,
        profiles: 0,
        policies: 0,
        keys: 0,
        nv: 0,
        identities: 0,
        warnings: Seq::empty(),
    }
}

/// Begins an import, if the version of the snapshot is known.
pub fn import(source: &str, version: u32) -> (r: Result<ImportReport, Failure>)
    ensures
        match r {
            Ok(report) => (version == 1 || version == 2) && report@ == fresh_report(
                source@,
                version,
            ),
            Err(e) => version != 1 && version != 2 && e@
                == "[TPM0803] unsupported workspace snapshot version: "@ + decimal(version as nat)
                + " (expected 1 or 2)"@,
        },
{
    if version != 1 && version != 2 {
        let mut n = String::new();
        push_decimal(&mut n, version as u64);
        assert(n@ =~= decimal(version as nat));
        return Err(
            Failure::around(
                "[TPM0803] unsupported workspace snapshot version: ",
                n.as_str(),
                " (expected 1 or 2)",
            ),
        );
    }
    let report = ImportReport {
        source: source.to_owned(),
        version,
        profiles_imported: 0,
        policies_imported: 0,
        keys_imported: 0,
        nv_imported: 0,
        identities_imported: 0,
        warnings: Vec::new(),
    };
    assert(report@ =~= fresh_report(source@, version));
    Ok(report)
}

fn warn(report: &mut ImportReport, before: &str, name: &str, after: &str)
    ensures
        final(report)@ == warned(old(report)@, before@ + name@ + after@),
{
    let mut w = String::new();
    w.append(before);
    w.append(name);
    w.append(after);
    assert(w@ =~= before@ + name@ + after@);
    report.warnings.push(w);
    assert(views(report.warnings@) =~= views(old(report).warnings@).push(w@));
    assert(report@ =~= warned(old(report)@, w@));
}

// ---------------------------------------------------------------------------
// Import: profiles
// ---------------------------------------------------------------------------

/// What importing one profile does. It is made active only where the snapshot
/// says so and it is the first profile that the workspace gets.
pub open spec fn profile_step(
    s: StoreState,
    r: ReportView,
    existing: Seq<ProfileView>,
    ep: ExportedProfile,
) -> (StoreState, ReportView) {
    if present::<Profile>(existing, ep.name@) {
        (s, warned(r, "[TPM0804] profile '"@ + ep.name@ + "' already exists; skipped"@))
    } else {
        (
            StoreState {
                profiles: s.profiles.push(
                    ProfileView {
                        name: ep.name@,
                        default_algorithm: match Algorithm::named(ep.default_algorithm@) {
                            Some(a) => a,
                            None => Algorithm::EccP256,
                        },
                        default_policy: None,
                        is_active: ep.active && existing.len() == 0 && r.profiles == 0,
                    },
                ),
                ..s
            },
            ReportView { profiles: r.profiles + 1, ..r },
        )
    }
}

/// What importing the first `n` profiles does.
pub open spec fn profiles_done(
    s: StoreState,
    r: ReportView,
    existing: Seq<ProfileView>,
    eps: Seq<ExportedProfile>,
    n: nat,
) -> (StoreState, ReportView)
    decreases n,
{
    if n == 0 {
        (s, r)
    } else {
        let (s1, r1) = profiles_done(s, r, existing, eps, (n - 1) as nat);
        profile_step(s1, r1, existing, eps[n - 1])
    }
}

/// Imports the profiles of a snapshot.
pub fn import_profiles(
    store: &mut MemoryStore,
    report: &mut ImportReport,
    eps: &Vec<ExportedProfile>,
)
    requires
        old(store)@.wf(),
        old(report)@.profiles == 0,
    ensures
        final(store)@.wf(),
        (final(store)@, final(report)@) == profiles_done(
            old(store)@,
            old(report)@,
            old(store)@.profiles,
            eps@,
            eps@.len(),
        ),
{
    let ghost existing = store@.profiles;
    let before = store.list_profiles();
    let ghost was = sorted::<Profile>(existing);
    proof {
        sorted_is_ordered::<Profile>(existing);
        assert(ref_rows(before@).len() == before@.len());
    }
    let none_before = before.len() == 0;
    // Which of the snapshot's profiles the workspace had at the start.
    let mut taken: Vec<bool> = Vec::new();
    let mut k: usize = 0;
    while k < eps.len()
        invariant
            k <= eps@.len(),
            taken@.len() == k,
            existing == store@.profiles,
            store@ == old(store)@,
            forall|i: int|
                0 <= i < k ==> #[trigger] taken@[i] == present::<Profile>(
                    existing,
                    eps@[i].name@,
                ),
        decreases eps@.len() - k,
    {
        taken.push(store.has_profile(eps[k].name.as_str()));
        k += 1;
    }
    let mut n: usize = 0;
    while n < eps.len()
        invariant
            n <= eps@.len() == taken@.len(),
            store@.wf(),
            none_before == (existing.len() == 0),
            forall|i: int|
                0 <= i < eps@.len() ==> #[trigger] taken@[i] == present::<Profile>(
                    existing,
                    eps@[i].name@,
                ),
            report@.profiles <= n,
            (store@, report@) == profiles_done(
                old(store)@,
                old(report)@,
                existing,
                eps@,
                n as nat,
            ),
        decreases eps@.len() - n,
    {
        let ep = &eps[n];
        assert(taken@[n as int] == present::<Profile>(existing, ep.name@));
        if taken[n] {
            warn(report, "[TPM0804] profile '", ep.name.as_str(), "' already exists; skipped");
        } else {
            let alg = match Algorithm::parse(ep.default_algorithm.as_str()) {
                Some(a) => a,
                None => Algorithm::EccP256,
            };
            let is_active = ep.active && none_before && report.profiles_imported == 0;
            store.insert_profile(
                Profile {
                    name: ep.name.clone(),
                    default_algorithm: alg,
                    default_policy: None,
                    is_active,
                },
            );
            report.profiles_imported += 1;
        }
        n += 1;
    }
}

// ---------------------------------------------------------------------------
// Import: policies
// ---------------------------------------------------------------------------

/// The identifier that an imported record gets: its own where it can be read.
pub open spec fn chosen(text: Seq<char>, id: u128) -> bool {
    uuid_value(text) matches Some(own) ==> id == own
}

/// What importing one policy does.
pub open spec fn policy_step(
    s: StoreState,
    r: ReportView,
    version: u32,
    ep: ExportedPolicy,
    id: u128,
) -> (StoreState, ReportView) {
    if present::<Policy>(s.policies, ep.name@) {
        (s, warned(r, "[TPM0804] policy '"@ + ep.name@ + "' already exists; skipped"@))
    } else if version < 2 {
        (
            s,
            warned(
                r,
                "policy '"@ + ep.name@ + "' present in v1 snapshot without rules; skipped"@,
            ),
        )
    } else {
        (
            StoreState {
                policies: s.policies.push(
                    PolicyView { id, name: ep.name@, rules: rule_views(ep.rules@) },
                ),
                ..s
            },
            ReportView { policies: r.policies + 1, ..r },
        )
    }
}

/// What importing the first `n` policies does.
pub open spec fn policies_done(
    s: StoreState,
    r: ReportView,
    version: u32,
    eps: Seq<ExportedPolicy>,
    ids: Seq<u128>,
    n: nat,
) -> (StoreState, ReportView)
    decreases n,
{
    if n == 0 {
        (s, r)
    } else {
        let (s1, r1) = policies_done(s, r, version, eps, ids, (n - 1) as nat);
        policy_step(s1, r1, version, eps[n - 1], ids[n - 1])
    }
}

/// Imports one policy under a given identifier.
pub fn import_policy_with(
    store: &mut MemoryStore,
    report: &mut ImportReport,
    version: u32,
    ep: &ExportedPolicy,
    id: u128,
)
    requires
        old(store)@.wf(),
        old(report)@.policies < usize::MAX,
    ensures
        final(store)@.wf(),
        (final(store)@, final(report)@) == policy_step(old(store)@, old(report)@, version, *ep, id),
{
    if store.get_policy(ep.name.as_str()).is_some() {
        warn(report, "[TPM0804] policy '", ep.name.as_str(), "' already exists; skipped");
        return;
    }
    if version < 2 {
        warn(
            report,
            "policy '",
            ep.name.as_str(),
            "' present in v1 snapshot without rules; skipped",
        );
        return;
    }
    store.insert_policy(Policy { id, name: ep.name.clone(), rules: copy_rules(&ep.rules) });
    report.policies_imported += 1;
}

/// The identifier in a text, or a fresh one.
fn id_or_fresh(text: &str) -> (id: u128)
    ensures
        chosen(text@, id),
{
    match parse_id(text) {
        Some(i) => i,
        None => fresh_id(),
    }
}

proof fn policies_agree(
    s: StoreState,
    r: ReportView,
    version: u32,
    eps: Seq<ExportedPolicy>,
    a: Seq<u128>,
    b: Seq<u128>,
    n: nat,
)
    requires
        n <= a.len(),
        n <= b.len(),
        forall|i: int| 0 <= i < n ==> a[i] == b[i],
    ensures
        policies_done(s, r, version, eps, a, n) == policies_done(s, r, version, eps, b, n),
    decreases n,
{
    if n > 0 {
        policies_agree(s, r, version, eps, a, b, (n - 1) as nat);
    }
}

/// Imports the policies of a snapshot. Each keeps its identifier where the
/// snapshot has a readable one.
pub fn import_policies(
    store: &mut MemoryStore,
    report: &mut ImportReport,
    version: u32,
    eps: &Vec<ExportedPolicy>,
)
    requires
        old(store)@.wf(),
        old(report)@.policies == 0,
    ensures
        final(store)@.wf(),
        exists|ids: Seq<u128>|
            ids.len() == eps@.len() && (forall|i: int|
                0 <= i < ids.len() ==> chosen(eps@[i].id@, #[trigger] ids[i])) && (
            final(store)@,
            final(report)@,
            ) == #[trigger] policies_done(
                old(store)@,
                old(report)@,
                version,
                eps@,
                ids,
                eps@.len(),
            ),
{
    let ghost mut ids: Seq<u128> = Seq::empty();
    let mut n: usize = 0;
    while n < eps.len()
        invariant
            n <= eps@.len(),
            store@.wf(),
            ids.len() == n,
            report@.policies <= n,
            forall|i: int| 0 <= i < n ==> chosen(eps@[i].id@, #[trigger] ids[i]),
            (store@, report@) == policies_done(
                old(store)@,
                old(report)@,
                version,
                eps@,
                ids,
                n as nat,
            ),
        decreases eps@.len() - n,
    {
        let id: u128 = id_or_fresh(eps[n].id.as_str());
        import_policy_with(store, report, version, &eps[n], id);
        proof {
            let longer = ids.push(id);
            policies_agree(old(store)@, old(report)@, version, eps@, ids, longer, n as nat);
            ids = longer;
        }
        n += 1;
    }
}

// ---------------------------------------------------------------------------
// Import: keys
// ---------------------------------------------------------------------------

/// The kind that a snapshot names, in either of the two forms that were written.
pub open spec fn kind_named(s: Seq<char>) -> Option<ObjectKind> {
    if s == "signing-key"@ || s == "SigningKey"@ {
        Some(ObjectKind::SigningKey)
    } else if s == "storage-key"@ || s == "StorageKey"@ {
        Some(ObjectKind::StorageKey)
    } else if s == "attestation-key"@ || s == "AttestationKey"@ {
        Some(ObjectKind::AttestationKey)
    } else if s == "sealed-blob"@ || s == "SealedBlob"@ {
        Some(ObjectKind::SealedBlob)
    } else if s == "nv-index"@ || s == "NvIndex"@ {
        Some(ObjectKind::NvIndex)
    } else {
        None
    }
}

/// Reads the kind of an object in a snapshot.
pub fn parse_object_kind(s: &str) -> (r: Option<ObjectKind>)
    ensures
        r == kind_named(s@),
{
    if same(s, "signing-key") || same(s, "SigningKey") {
        Some(ObjectKind::SigningKey)
    } else if same(s, "storage-key") || same(s, "StorageKey") {
        Some(ObjectKind::StorageKey)
    } else if same(s, "attestation-key") || same(s, "AttestationKey") {
        Some(ObjectKind::AttestationKey)
    } else if same(s, "sealed-blob") || same(s, "SealedBlob") {
        Some(ObjectKind::SealedBlob)
    } else if same(s, "nv-index") || same(s, "NvIndex") {
        Some(ObjectKind::NvIndex)
    } else {
        None
    }
}

/// What is to be done with an object of a snapshot.
#[derive(Debug)]
pub enum KeyDecision {
    /// It is no key: its content is not in the snapshot.
    Ignore,
    /// It cannot be imported, for the reason given.
    Warn(String),
    /// The TPM has to create a key for it.
    Create { path: ObjectPath, kind: ObjectKind, algorithm: Algorithm },
}

pub ghost enum KeyDecisionView {
    Ignore,
    Warn(Seq<char>),
    Create { path: Seq<char>, kind: ObjectKind, algorithm: Algorithm },
}

impl View for KeyDecision {
    type V = KeyDecisionView;

    open spec fn view(&self) -> KeyDecisionView {
        match self {
            KeyDecision::Ignore => KeyDecisionView::Ignore,
            KeyDecision::Warn(w) => KeyDecisionView::Warn(w@),
            KeyDecision::Create { path, kind, algorithm } => KeyDecisionView::Create {
                path: path@,
                kind: *kind,
                algorithm: *algorithm,
            },
        }
    }
}

/// What is to be done with an object of a snapshot.
pub open spec fn key_decision(s: StoreState, eo: ExportedObject) -> KeyDecisionView {
    match kind_named(eo.kind@) {
        None => KeyDecisionView::Ignore,
        Some(kind) => if !kind.is_key() {
            KeyDecisionView::Ignore
        } else if !valid_path(eo.path@) {
            KeyDecisionView::Warn(
                "invalid object path '"@ + eo.path@ + "': invalid object path: "@ + eo.path@,
            )
        } else if present::<TpmObject>(s.objects, eo.path@) {
            KeyDecisionView::Warn("[TPM0804] key '"@ + eo.path@ + "' already exists; skipped"@)
        } else {
            match Algorithm::named(eo.algorithm@) {
                None => KeyDecisionView::Warn(
                    "key '"@ + eo.path@ + "' has invalid algorithm: unknown algorithm: "@ + eo.algorithm@,
                ),
                Some(algorithm) => KeyDecisionView::Create { path: eo.path@, kind, algorithm },
            }
        },
    }
}

/// Decides what is to be done with an object of a snapshot.
pub fn import_key_check(store: &MemoryStore, eo: &ExportedObject) -> (d: KeyDecision)
    ensures
        d@ == key_decision(store@, *eo),
{
    let kind = match parse_object_kind(eo.kind.as_str()) {
        None => {
            return KeyDecision::Ignore;
        },
        Some(k) => k,
    };
    if !kind.key() {
        return KeyDecision::Ignore;
    }
    let path = match ObjectPath::new(eo.path.as_str()) {
        None => {
            let mut w = String::new();
            w.append("invalid object path '");
            w.append(eo.path.as_str());
            w.append("': invalid object path: ");
            w.append(eo.path.as_str());
            assert(w@ =~= "invalid object path '"@ + eo.path@ + "': invalid object path: "@
                + eo.path@);
            return KeyDecision::Warn(w);
        },
        Some(p) => p,
    };
    if store.get_object(&path).is_some() {
        let mut w = String::new();
        w.append("[TPM0804] key '");
        w.append(eo.path.as_str());
        w.append("' already exists; skipped");
        assert(w@ =~= "[TPM0804] key '"@ + eo.path@ + "' already exists; skipped"@);
        return KeyDecision::Warn(w);
    }
    match Algorithm::parse(eo.algorithm.as_str()) {
        None => {
            let mut w = String::new();
            w.append("key '");
            w.append(eo.path.as_str());
            w.append("' has invalid algorithm: unknown algorithm: ");
            w.append(eo.algorithm.as_str());
            assert(w@ =~= "key '"@ + eo.path@ + "' has invalid algorithm: unknown algorithm: "@
                + eo.algorithm@);
            KeyDecision::Warn(w)
        },
        Some(algorithm) => KeyDecision::Create { path, kind, algorithm },
    }
}

/// An optional identifier that an optional text denotes.
pub open spec fn opt_value(t: Option<String>) -> Option<u128> {
    match t {
        Some(s) => uuid_value(s@),
        None => None,
    }
}

fn opt_parse(t: &Option<String>) -> (r: Option<u128>)
    ensures
        r == opt_value(*t),
{
    match t {
        Some(s) => parse_id(s.as_str()),
        None => None,
    }
}

/// What importing one object does, given what the TPM created for it.
pub open spec fn key_step(
    s: StoreState,
    r: ReportView,
    eo: ExportedObject,
    handle: Seq<u8>,
    id: u128,
    created_at: Seq<char>,
    stamp: Seq<char>,
) -> (StoreState, ReportView) {
    match key_decision(s, eo) {
        KeyDecisionView::Ignore => (s, r),
        KeyDecisionView::Warn(w) => (s, warned(r, w)),
        KeyDecisionView::Create { path, kind, algorithm } => (
            added_and_logged(
                s,
                ObjectView {
                    id,
                    path,
                    kind,
                    algorithm,
                    policy_id: opt_value(eo.policy_id),
                    handle_blob: Some(handle),
                    created_at,
                    metadata: eo.metadata@,
                },
                "workspace.import.key"@,
                json_object(
                    seq![text_view("source"@, r.source), text_view("algorithm"@, eo.algorithm@)],
                ),
                stamp,
            ),
            ReportView { keys: r.keys + 1, ..r },
        ),
    }
}

/// Notes an object that gets no key.
pub fn import_key_skip(report: &mut ImportReport, d: KeyDecision)
    requires
        !(d is Create),
    ensures
        final(report)@ == (match d@ {
            KeyDecisionView::Warn(w) => warned(old(report)@, w),
            _ => old(report)@,
        }),
{
    match d {
        KeyDecision::Warn(w) => {
            report.warnings.push(w);
            assert(views(report.warnings@) =~= views(old(report).warnings@).push(w@));
            assert(report@ =~= warned(old(report)@, w@));
        },
        _ => {},
    }
}

/// Keeps the key that the TPM created for an object of the snapshot, under a
/// given identifier and time.
pub fn import_key_at(
    store: &mut MemoryStore,
    report: &mut ImportReport,
    eo: &ExportedObject,
    path: ObjectPath,
    kind: ObjectKind,
    algorithm: Algorithm,
    handle: Vec<u8>,
    id: u128,
    at: &Moment,
)
    requires
        old(store)@.wf(),
        old(store)@.can_log(),
        old(report)@.keys < usize::MAX,
        key_decision(old(store)@, *eo) == (KeyDecisionView::Create { path: path@, kind, algorithm }),
    ensures
        final(store)@.wf(),
        (final(store)@, final(report)@) == key_step(
            old(store)@,
            old(report)@,
            *eo,
            handle@,
            id,
            at.rfc3339@,
            at.stamp@,
        ),
{
    let details = object2(
        text_field("source", report.source.as_str()),
        text_field("algorithm", eo.algorithm.as_str()),
    );
    let obj = TpmObject {
        id,
        path,
        kind,
        algorithm,
        policy_id: opt_parse(&eo.policy_id),
        handle_blob: Some(handle),
        created_at: at.rfc3339.clone(),
        metadata: eo.metadata.clone(),
    };
    let kept = add_object(
        store,
        obj,
        "workspace.import.key",
        details.as_str(),
        at.stamp.as_str(),
    );
    assert(kept is Ok);
    report.keys_imported += 1;
}

/// Keeps the key that the TPM created just now for an object of the snapshot.
/// The object keeps its identifier where the snapshot has a readable one.
pub fn import_key(
    store: &mut MemoryStore,
    report: &mut ImportReport,
    eo: &ExportedObject,
    path: ObjectPath,
    kind: ObjectKind,
    algorithm: Algorithm,
    handle: Vec<u8>,
)
    requires
        old(store)@.wf(),
        old(store)@.can_log(),
        old(report)@.keys < usize::MAX,
        key_decision(old(store)@, *eo) == (KeyDecisionView::Create { path: path@, kind, algorithm }),
    ensures
        final(store)@.wf(),
        exists|id: u128, created_at: Seq<char>, stamp: Seq<char>|
            chosen(eo.id@, id) && (final(store)@, final(report)@) == #[trigger] key_step(
                old(store)@,
                old(report)@,
                *eo,
                handle@,
                id,
                created_at,
                stamp,
            ),
{
    let id: u128 = id_or_fresh(eo.id.as_str());
    let at = Moment { rfc3339: now_rfc3339(), stamp: now_stamp() };
    import_key_at(store, report, eo, path, kind, algorithm, handle, id, &at);
}

/// What importing the first `n` objects does.
pub open spec fn keys_done(
    s: StoreState,
    r: ReportView,
    eos: Seq<ExportedObject>,
    made: Seq<KeyMade>,
    n: nat,
) -> (StoreState, ReportView)
    decreases n,
{
    if n == 0 {
        (s, r)
    } else {
        let (s1, r1) = keys_done(s, r, eos, made, (n - 1) as nat);
        let m = made[n - 1];
        key_step(s1, r1, eos[n - 1], m.handle, m.id, m.created_at, m.stamp)
    }
}

/// What came from outside when a key was imported.
pub ghost struct KeyMade {
    pub handle: Seq<u8>,
    pub id: u128,
    pub created_at: Seq<char>,
    pub stamp: Seq<char>,
}

// ---------------------------------------------------------------------------
// Import: NV indices
// ---------------------------------------------------------------------------

/// The number of an NV index: hexadecimal after `0x` or `0X`, else decimal.
pub open spec fn nv_number(s: Seq<char>) -> Option<u32> {
    let stripped = if occurs_at(s, "0x"@, 0) || occurs_at(s, "0X"@, 0) {
        number32(s.subrange(2, s.len() as int), 16)
    } else {
        None
    };
    match stripped {
        Some(n) => Some(n),
        None => number32(s, 10),
    }
}

/// Reads the number of an NV index.
pub fn parse_nv_index(s: &str) -> (r: Option<u32>)
    ensures
        r == nv_number(s@),
{
    let v = chars_of(s);
    if crate::text::begins_with(s, "0x") || crate::text::begins_with(s, "0X") {
        proof {
            reveal_strlit("0x");
            reveal_strlit("0X");
        }
        match parse_number(&v, 2, 16) {
            Some(n) => {
                return Some(n);
            },
            None => {},
        }
    }
    assert(v@.subrange(0, v@.len() as int) =~= s@);
    parse_number(&v, 0, 10)
}

/// What importing one NV index does: it is reserved, with nothing written to it.
pub open spec fn nv_step(s: StoreState, r: ReportView, en: ExportedNv) -> (StoreState, ReportView) {
    if present::<NvSlot>(s.nv_indices, en.name@) {
        (s, warned(r, "[TPM0804] NV index '"@ + en.name@ + "' already exists; skipped"@))
    } else {
        match nv_number(en.index@) {
            None => (
                s,
                warned(
                    r,
                    "NV '"@ + en.name@ + "' has unparseable index '"@ + en.index@ + "'"@,
                ),
            ),
            Some(nv_index) => (
                StoreState {
                    nv_indices: s.nv_indices.push(
                        NvView { name: en.name@, nv_index, size: en.size, data: None },
                    ),
                    ..s
                },
                ReportView { nv: r.nv + 1, ..r },
            ),
        }
    }
}

/// What importing the first `n` NV indices does.
pub open spec fn nv_done(s: StoreState, r: ReportView, ens: Seq<ExportedNv>, n: nat) -> (
    StoreState,
    ReportView,
)
    decreases n,
{
    if n == 0 {
        (s, r)
    } else {
        let (s1, r1) = nv_done(s, r, ens, (n - 1) as nat);
        nv_step(s1, r1, ens[n - 1])
    }
}

/// Imports the NV indices of a snapshot.
pub fn import_nv(store: &mut MemoryStore, report: &mut ImportReport, ens: &Vec<ExportedNv>)
    requires
        old(store)@.wf(),
        old(report)@.nv == 0,
    ensures
        final(store)@.wf(),
        (final(store)@, final(report)@) == nv_done(
            old(store)@,
            old(report)@,
            ens@,
            ens@.len(),
        ),
{
    let mut n: usize = 0;
    while n < ens.len()
        invariant
            n <= ens@.len(),
            store@.wf(),
            report@.nv <= n,
            (store@, report@) == nv_done(old(store)@, old(report)@, ens@, n as nat),
        decreases ens@.len() - n,
    {
        let en = &ens[n];
        if store.get_nv_index(en.name.as_str()).is_some() {
            warn(report, "[TPM0804] NV index '", en.name.as_str(), "' already exists; skipped");
        } else {
            match parse_nv_index(en.index.as_str()) {
                None => {
                    let mut tail = String::new();
                    tail.append("' has unparseable index '");
                    tail.append(en.index.as_str());
                    tail.append("'");
                    assert("NV '"@ + en.name@ + ("' has unparseable index '"@ + en.index@ + "'"@)
                        =~= "NV '"@ + en.name@ + "' has unparseable index '"@ + en.index@ + "'"@);
                    assert(tail@ =~= "' has unparseable index '"@ + en.index@ + "'"@);
                    warn(report, "NV '", en.name.as_str(), tail.as_str());
                },
                Some(idx) => {
                    store.insert_nv_index(en.name.as_str(), idx, en.size);
                    report.nv_imported += 1;
                },
            }
        }
        n += 1;
    }
}

// ---------------------------------------------------------------------------
// Import: identities
// ---------------------------------------------------------------------------

/// What importing one identity does.
pub open spec fn identity_step(
    s: StoreState,
    r: ReportView,
    version: u32,
    ei: ExportedIdentity,
    id: u128,
    created_at: Seq<char>,
) -> (StoreState, ReportView) {
    if present::<Identity>(s.identities, ei.name@) {
        (s, warned(r, "[TPM0804] identity '"@ + ei.name@ + "' already exists; skipped"@))
    } else if version < 2 {
        (
            s,
            warned(
                r,
                "identity '"@ + ei.name@
                    + "' in v1 snapshot cannot be restored (no stored UUIDs)"@,
            ),
        )
    } else {
        match uuid_value(ei.key_object_id@) {
            None => (
                s,
                warned(r, "identity '"@ + ei.name@ + "' has unparseable key_object_id"@),
            ),
            Some(key) => if lookup_id::<TpmObject>(s.objects, key) is None {
                (
                    s,
                    warned(
                        r,
                        "identity '"@ + ei.name@ + ("' references missing key "@ + uuid_form(key)
                            + "; skipped"@),
                    ),
                )
            } else {
                match IdentityUsage::named(ei.usage@) {
                    None => (
                        s,
                        warned(
                            r,
                            "identity '"@ + ei.name@ + ("' has invalid usage: unknown identity usage: "@
                                + ei.usage@),
                        ),
                    ),
                    Some(usage) => (
                        StoreState {
                            identities: s.identities.push(
                                IdentityView {
                                    id,
                                    name: ei.name@,
                                    key_object_id: key,
                                    policy_id: opt_value(ei.policy_id),
                                    usage,
                                    subject: opt_text(ei.subject),
                                    certificate_pem: opt_text(ei.certificate_pem),
                                    created_at,
                                    rotated_from: opt_value(ei.rotated_from),
                                },
                            ),
                            ..s
                        },
                        ReportView { identities: r.identities + 1, ..r },
                    ),
                }
            },
        }
    }
}

/// What came from outside when an identity was imported.
pub ghost struct IdentityMade {
    pub id: u128,
    pub created_at: Seq<char>,
}

/// What importing the first `n` identities does.
pub open spec fn identities_done(
    s: StoreState,
    r: ReportView,
    version: u32,
    eis: Seq<ExportedIdentity>,
    made: Seq<IdentityMade>,
    n: nat,
) -> (StoreState, ReportView)
    decreases n,
{
    if n == 0 {
        (s, r)
    } else {
        let (s1, r1) = identities_done(s, r, version, eis, made, (n - 1) as nat);
        identity_step(s1, r1, version, eis[n - 1], made[n - 1].id, made[n - 1].created_at)
    }
}

/// Imports one identity under a given identifier and time.
pub fn import_identity_with(
    store: &mut MemoryStore,
    report: &mut ImportReport,
    version: u32,
    ei: &ExportedIdentity,
    id: u128,
    created_at: &str,
)
    requires
        old(store)@.wf(),
        old(report)@.identities < usize::MAX,
    ensures
        final(store)@.wf(),
        (final(store)@, final(report)@) == identity_step(
            old(store)@,
            old(report)@,
            version,
            *ei,
            id,
            created_at@,
        ),
{
    let name = ei.name.as_str();
    if store.get_identity(name).is_some() {
        warn(report, "[TPM0804] identity '", name, "' already exists; skipped");
        return;
    }
    if version < 2 {
        warn(
            report,
            "identity '",
            name,
            "' in v1 snapshot cannot be restored (no stored UUIDs)",
        );
        return;
    }
    let key: u128 = match parse_id(ei.key_object_id.as_str()) {
        None => {
            warn(report, "identity '", name, "' has unparseable key_object_id");
            return;
        },
        Some(k) => k,
    };
    if store.get_object_by_id(key).is_none() {
        let mut tail = String::new();
        tail.append("' references missing key ");
        tail.append(id_text(key).as_str());
        tail.append("; skipped");
        assert(tail@ =~= "' references missing key "@ + uuid_form(key) + "; skipped"@);
        warn(report, "identity '", name, tail.as_str());
        return;
    }
    let usage = match IdentityUsage::parse(ei.usage.as_str()) {
        None => {
            let mut tail = String::new();
            tail.append("' has invalid usage: unknown identity usage: ");
            tail.append(ei.usage.as_str());
            assert(tail@ =~= "' has invalid usage: unknown identity usage: "@ + ei.usage@);
            warn(report, "identity '", name, tail.as_str());
            return;
        },
        Some(u) => u,
    };
    let identity = Identity {
        id,
        name: ei.name.clone(),
        key_object_id: key,
        policy_id: opt_parse(&ei.policy_id),
        usage,
        subject: copy_opt(&ei.subject),
        certificate_pem: copy_opt(&ei.certificate_pem),
        created_at: created_at.to_owned(),
        rotated_from: opt_parse(&ei.rotated_from),
    };
    let kept = store.insert_identity(identity);
    assert(kept is Ok);
    report.identities_imported += 1;
}

proof fn identities_agree(
    s: StoreState,
    r: ReportView,
    version: u32,
    eis: Seq<ExportedIdentity>,
    a: Seq<IdentityMade>,
    b: Seq<IdentityMade>,
    n: nat,
)
    requires
        n <= a.len(),
        n <= b.len(),
        forall|i: int| 0 <= i < n ==> a[i] == b[i],
    ensures
        identities_done(s, r, version, eis, a, n) == identities_done(s, r, version, eis, b, n),
    decreases n,
{
    if n > 0 {
        identities_agree(s, r, version, eis, a, b, (n - 1) as nat);
    }
}

/// Imports the identities of a snapshot. Each keeps its identifier where the
/// snapshot has a readable one.
pub fn import_identities(
    store: &mut MemoryStore,
    report: &mut ImportReport,
    version: u32,
    eis: &Vec<ExportedIdentity>,
)
    requires
        old(store)@.wf(),
        old(report)@.identities == 0,
    ensures
        final(store)@.wf(),
        exists|made: Seq<IdentityMade>|
            made.len() == eis@.len() && (forall|i: int|
                0 <= i < made.len() ==> chosen(eis@[i].id@, (#[trigger] made[i]).id)) && (
            final(store)@,
            final(report)@,
            ) == #[trigger] identities_done(
                old(store)@,
                old(report)@,
                version,
                eis@,
                made,
                eis@.len(),
            ),
{
    let ghost mut made: Seq<IdentityMade> = Seq::empty();
    let mut n: usize = 0;
    while n < eis.len()
        invariant
            n <= eis@.len(),
            store@.wf(),
            made.len() == n,
            report@.identities <= n,
            forall|i: int| 0 <= i < n ==> chosen(eis@[i].id@, (#[trigger] made[i]).id),
            (store@, report@) == identities_done(
                old(store)@,
                old(report)@,
                version,
                eis@,
                made,
                n as nat,
            ),
        decreases eis@.len() - n,
    {
        let id: u128 = id_or_fresh(eis[n].id.as_str());
        let created_at = now_rfc3339();
        import_identity_with(store, report, version, &eis[n], id, created_at.as_str());
        proof {
            let longer = made.push(IdentityMade { id, created_at: created_at@ });
            identities_agree(old(store)@, old(report)@, version, eis@, made, longer, n as nat);
            made = longer;
        }
        n += 1;
    }
}

// ---------------------------------------------------------------------------
// Import: the end
// ---------------------------------------------------------------------------

/// What is logged of an import.
pub open spec fn import_fields(r: ReportView) -> Seq<FieldView> {
    seq![
        text_view("source"@, r.source),
        number_view("version"@, r.version as u64),
        number_view("profiles_imported"@, r.profiles as u64),
        number_view("policies_imported"@, r.policies as u64),
        number_view("keys_imported"@, r.keys as u64),
        number_view("nv_imported"@, r.nv as u64),
        number_view("identities_imported"@, r.identities as u64),
        number_view("warnings"@, r.warnings.len() as u64),
    ]
}

/// The outcome of an import as it is printed.
pub open spec fn import_text(r: ImportReport) -> Seq<char> {
    field("workspace imported from: "@, r.source@) + field(
        "  snapshot version: "@,
        decimal(r.version as nat),
    ) + field("  profiles:   "@, decimal(r.profiles_imported as nat)) + field(
        "  policies:   "@,
        decimal(r.policies_imported as nat),
    ) + field("  keys:       "@, decimal(r.keys_imported as nat)) + field(
        "  nv indices: "@,
        decimal(r.nv_imported as nat),
    ) + field("  identities: "@, decimal(r.identities_imported as nat)) + (
    if r.warnings@.len() == 0 {
        Seq::empty()
    } else {
        "\n  warnings ("@ + decimal(r.warnings@.len()) + "):\n"@ + crate::text::lines(
            "    - "@,
            r.warnings@,
        )
    })
}

fn report_text(r: &ImportReport) -> (s: String)
    ensures
        s@ == import_text(*r),
{
    let mut s = String::new();
    push_field(&mut s, "workspace imported from: ", r.source.as_str());
    push_number(&mut s, "  snapshot version: ", r.version as u64);
    push_number(&mut s, "  profiles:   ", r.profiles_imported as u64);
    push_number(&mut s, "  policies:   ", r.policies_imported as u64);
    push_number(&mut s, "  keys:       ", r.keys_imported as u64);
    push_number(&mut s, "  nv indices: ", r.nv_imported as u64);
    push_number(&mut s, "  identities: ", r.identities_imported as u64);
    if r.warnings.len() > 0 {
        s.append("\n  warnings (");
        push_decimal(&mut s, r.warnings.len() as u64);
        s.append("):\n");
        push_lines(&mut s, "    - ", &r.warnings);
    }
    assert(s@ =~= import_text(*r));
    s
}

/// Logs an import that took place at the given time and prints its outcome.
pub fn import_finish_at(store: &mut MemoryStore, report: &ImportReport, stamp: &str) -> (s: String)
    requires
        old(store)@.wf(),
        old(store)@.can_log(),
    ensures
        final(store)@.wf(),
        final(store)@ == old(store)@.logged(
            "workspace.import"@,
            None,
            json_object(import_fields(report@)),
            stamp@,
        ),
        s@ == import_text(*report),
{
    let mut v: Vec<JsonField> = Vec::new();
    v.push(text_field("source", report.source.as_str()));
    v.push(number_field("version", report.version as u64));
    v.push(number_field("profiles_imported", report.profiles_imported as u64));
    v.push(number_field("policies_imported", report.policies_imported as u64));
    v.push(number_field("keys_imported", report.keys_imported as u64));
    v.push(number_field("nv_imported", report.nv_imported as u64));
    v.push(number_field("identities_imported", report.identities_imported as u64));
    v.push(number_field("warnings", report.warnings.len() as u64));
    assert(views(report.warnings@).len() == report.warnings@.len());
    assert(field_views(v@) =~= import_fields(report@));
    let details = json_text(&v);
    store.log_action_at("workspace.import", None, details.as_str(), stamp);
    report_text(report)
}

/// Logs an import that ends now and prints its outcome.
pub fn import_finish(store: &mut MemoryStore, report: &ImportReport) -> (s: String)
    requires
        old(store)@.wf(),
        old(store)@.can_log(),
    ensures
        final(store)@.wf(),
        exists|stamp: Seq<char>|
            final(store)@ == #[trigger] old(store)@.logged(
                "workspace.import"@,
                None,
                json_object(import_fields(report@)),
                stamp,
            ),
        s@ == import_text(*report),
{
    let stamp = now_stamp();
    import_finish_at(store, report, stamp.as_str())
}

} // verus!
