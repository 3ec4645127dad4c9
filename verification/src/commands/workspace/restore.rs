//! What holds of imports: importing twice is importing once, and an import into
//! an empty workspace restores what was exported.
use vstd::prelude::*;

use crate::commands::common::{class_list, of_class, ObjectClass};
use crate::commands::workspace::{
    chosen, exports_identity, exports_nv, exports_object, exports_policy, exports_profile,
    fresh_report, identities_done, identity_step, key_decision, key_step, keys_done, kind_named,
    nv_done, nv_number, nv_step, policies_done, policy_step, profile_step, profiles_done,
    snapshot_of, ExportedIdentity, ExportedNv, ExportedObject, ExportedPolicy, ExportedProfile,
    warned, IdentityMade, KeyDecisionView, KeyMade, ReportView, WorkspaceSnapshot,
};
use crate::hex::{hex32_digit, hex32_text};
use crate::ids::uuid_value;
use crate::model::{
    algorithm_names_read_back, rule_views, usage_names_read_back, valid_path, Identity,
    IdentityUsage, IdentityView, NvSlot, NvView, ObjectKind, ObjectView, Policy, PolicyView,
    Profile, ProfileView, TpmObject,
};
use crate::store::{nv_listing, StoreState};
use crate::table::{
    distinct, lookup, lookup_id, lookup_of_push, position_id_is_first, position_is_first, present,
    sorted, sorted_is_distinct, sorted_is_ordered, Ided, Keyed,
};
use crate::text::{digit_in, digits_value, unsigned};

verus! {

// ---------------------------------------------------------------------------
// Importing again
// ---------------------------------------------------------------------------

/// Everything that comes from outside during an import.
pub ghost struct Outside {
    pub policy_ids: Seq<u128>,
    pub keys: Seq<KeyMade>,
    pub identities: Seq<IdentityMade>,
}

/// What the import of a whole snapshot does, up to its final log entry.
pub open spec fn imported(
    s: StoreState,
    source: Seq<char>,
    w: WorkspaceSnapshot,
    o: Outside,
) -> (StoreState, ReportView) {
    let r = fresh_report(source, w.version);
    let (s1, r1) = profiles_done(s, r, s.profiles, w.profiles@, w.profiles@.len());
    let (s2, r2) = policies_done(s1, r1, w.version, w.policies@, o.policy_ids, w.policies@.len());
    let (s3, r3) = keys_done(s2, r2, w.objects@, o.keys, w.objects@.len());
    let (s4, r4) = nv_done(s3, r3, w.nv_indices@, w.nv_indices@.len());
    identities_done(s4, r4, w.version, w.identities@, o.identities, w.identities@.len())
}

/// A policy of a snapshot would not be added.
pub open spec fn policy_settled(s: StoreState, version: u32, ep: ExportedPolicy) -> bool {
    present::<Policy>(s.policies, ep.name@) || version < 2
}

/// An object of a snapshot would not be added.
pub open spec fn key_settled(s: StoreState, eo: ExportedObject) -> bool {
    !(key_decision(s, eo) is Create)
}

/// An NV index of a snapshot would not be added.
pub open spec fn nv_settled(s: StoreState, en: ExportedNv) -> bool {
    present::<NvSlot>(s.nv_indices, en.name@) || nv_number(en.index@) is None
}

/// An identity of a snapshot would not be added.
pub open spec fn identity_settled(s: StoreState, version: u32, ei: ExportedIdentity) -> bool {
    ||| present::<Identity>(s.identities, ei.name@)
    ||| version < 2
    ||| uuid_value(ei.key_object_id@) is None
    ||| lookup_id::<TpmObject>(s.objects, uuid_value(ei.key_object_id@)->0) is None
    ||| IdentityUsage::named(ei.usage@) is None
}

proof fn profiles_settle(
    s: StoreState,
    r: ReportView,
    existing: Seq<ProfileView>,
    eps: Seq<ExportedProfile>,
    n: nat,
    name: Seq<char>,
)
    requires
        n <= eps.len(),
        present::<Profile>(s.profiles, name) || exists|i: int|
            0 <= i < n && #[trigger] eps[i].name@ == name,
        forall|k: Seq<char>| present::<Profile>(existing, k) ==> #[trigger] present::<Profile>(
            s.profiles,
            k,
        ),
    ensures
        present::<Profile>(profiles_done(s, r, existing, eps, n).0.profiles, name),
    decreases n,
{
    if n > 0 {
        let (s1, r1) = profiles_done(s, r, existing, eps, (n - 1) as nat);
        let ep = eps[n - 1];
        if ep.name@ == name && !present::<Profile>(existing, name) {
            let (s2, _) = profile_step(s1, r1, existing, ep);
            lookup_of_push::<Profile>(s1.profiles, s2.profiles.last(), name);
            assert(s2.profiles =~= s1.profiles.push(s2.profiles.last()));
        } else {
            assert(present::<Profile>(s.profiles, name) || exists|i: int|
                0 <= i < n - 1 && #[trigger] eps[i].name@ == name) by {
                if !present::<Profile>(s.profiles, name) {
                    let i = choose|i: int| 0 <= i < n && #[trigger] eps[i].name@ == name;
                    assert(i != n - 1);
                    assert(eps[i].name@ == name);
                }
            }
            profiles_settle(s, r, existing, eps, (n - 1) as nat, name);
            let (s2, _) = profile_step(s1, r1, existing, ep);
            if !present::<Profile>(existing, ep.name@) {
                lookup_of_push::<Profile>(s1.profiles, s2.profiles.last(), name);
                assert(s2.profiles =~= s1.profiles.push(s2.profiles.last()));
            }
        }
    }
}

proof fn profiles_rest(
    s: StoreState,
    r: ReportView,
    existing: Seq<ProfileView>,
    eps: Seq<ExportedProfile>,
    n: nat,
)
    requires
        n <= eps.len(),
        forall|i: int| 0 <= i < n ==> present::<Profile>(existing, #[trigger] eps[i].name@),
    ensures
        profiles_done(s, r, existing, eps, n).0 == s,
        profiles_done(s, r, existing, eps, n).1.profiles == r.profiles,
        others_unchanged(profiles_done(s, r, existing, eps, n).1, r),
    decreases n,
{
    if n > 0 {
        profiles_rest(s, r, existing, eps, (n - 1) as nat);
        assert(present::<Profile>(existing, eps[n - 1].name@));
    }
}

/// Two reports count the same.
pub open spec fn others_unchanged(a: ReportView, b: ReportView) -> bool {
    &&& a.source == b.source
    &&& a.version == b.version
    &&& a.profiles == b.profiles
    &&& a.policies == b.policies
    &&& a.keys == b.keys
    &&& a.nv == b.nv
    &&& a.identities == b.identities
}

proof fn policies_settle(
    s: StoreState,
    r: ReportView,
    version: u32,
    eps: Seq<ExportedPolicy>,
    ids: Seq<u128>,
    n: nat,
    i: int,
)
    requires
        0 <= i < n <= eps.len(),
    ensures
        policy_settled(policies_done(s, r, version, eps, ids, n).0, version, eps[i]),
    decreases n,
{
    let (s1, r1) = policies_done(s, r, version, eps, ids, (n - 1) as nat);
    let (s2, _) = policy_step(s1, r1, version, eps[n - 1], ids[n - 1]);
    if i < n - 1 {
        policies_settle(s, r, version, eps, ids, (n - 1) as nat, i);
    }
    if s2.policies.len() > s1.policies.len() {
        lookup_of_push::<Policy>(s1.policies, s2.policies.last(), eps[i].name@);
        assert(s2.policies =~= s1.policies.push(s2.policies.last()));
    }
}

proof fn policies_rest(
    s: StoreState,
    r: ReportView,
    version: u32,
    eps: Seq<ExportedPolicy>,
    ids: Seq<u128>,
    n: nat,
)
    requires
        n <= eps.len(),
        forall|i: int| 0 <= i < n ==> policy_settled(s, version, #[trigger] eps[i]),
    ensures
        policies_done(s, r, version, eps, ids, n).0 == s,
        others_unchanged(policies_done(s, r, version, eps, ids, n).1, r),
    decreases n,
{
    if n > 0 {
        policies_rest(s, r, version, eps, ids, (n - 1) as nat);
        assert(policy_settled(s, version, eps[n - 1]));
    }
}

proof fn keys_settle(
    s: StoreState,
    r: ReportView,
    eos: Seq<ExportedObject>,
    made: Seq<KeyMade>,
    n: nat,
    i: int,
)
    requires
        0 <= i < n <= eos.len(),
    ensures
        key_settled(keys_done(s, r, eos, made, n).0, eos[i]),
    decreases n,
{
    let (s1, r1) = keys_done(s, r, eos, made, (n - 1) as nat);
    let m = made[n - 1];
    let (s2, _) = key_step(s1, r1, eos[n - 1], m.handle, m.id, m.created_at, m.stamp);
    if i < n - 1 {
        keys_settle(s, r, eos, made, (n - 1) as nat, i);
    }
    if key_decision(s1, eos[n - 1]) is Create {
        lookup_of_push::<TpmObject>(s1.objects, s2.objects.last(), eos[i].path@);
        assert(s2.objects =~= s1.objects.push(s2.objects.last()));
    }
}

proof fn keys_rest(
    s: StoreState,
    r: ReportView,
    eos: Seq<ExportedObject>,
    made: Seq<KeyMade>,
    n: nat,
)
    requires
        n <= eos.len(),
        forall|i: int| 0 <= i < n ==> key_settled(s, #[trigger] eos[i]),
    ensures
        keys_done(s, r, eos, made, n).0 == s,
        others_unchanged(keys_done(s, r, eos, made, n).1, r),
    decreases n,
{
    if n > 0 {
        keys_rest(s, r, eos, made, (n - 1) as nat);
        assert(key_settled(s, eos[n - 1]));
    }
}

proof fn nv_settle(s: StoreState, r: ReportView, ens: Seq<ExportedNv>, n: nat, i: int)
    requires
        0 <= i < n <= ens.len(),
    ensures
        nv_settled(nv_done(s, r, ens, n).0, ens[i]),
    decreases n,
{
    let (s1, r1) = nv_done(s, r, ens, (n - 1) as nat);
    let (s2, _) = nv_step(s1, r1, ens[n - 1]);
    if i < n - 1 {
        nv_settle(s, r, ens, (n - 1) as nat, i);
    }
    if s2.nv_indices.len() > s1.nv_indices.len() {
        lookup_of_push::<NvSlot>(s1.nv_indices, s2.nv_indices.last(), ens[i].name@);
        assert(s2.nv_indices =~= s1.nv_indices.push(s2.nv_indices.last()));
    }
}

proof fn nv_rest(s: StoreState, r: ReportView, ens: Seq<ExportedNv>, n: nat)
    requires
        n <= ens.len(),
        forall|i: int| 0 <= i < n ==> nv_settled(s, #[trigger] ens[i]),
    ensures
        nv_done(s, r, ens, n).0 == s,
        others_unchanged(nv_done(s, r, ens, n).1, r),
    decreases n,
{
    if n > 0 {
        nv_rest(s, r, ens, (n - 1) as nat);
        assert(nv_settled(s, ens[n - 1]));
    }
}

proof fn identities_settle(
    s: StoreState,
    r: ReportView,
    version: u32,
    eis: Seq<ExportedIdentity>,
    made: Seq<IdentityMade>,
    n: nat,
    i: int,
)
    requires
        0 <= i < n <= eis.len(),
    ensures
        identity_settled(identities_done(s, r, version, eis, made, n).0, version, eis[i]),
    decreases n,
{
    let (s1, r1) = identities_done(s, r, version, eis, made, (n - 1) as nat);
    let m = made[n - 1];
    let (s2, _) = identity_step(s1, r1, version, eis[n - 1], m.id, m.created_at);
    if i < n - 1 {
        identities_settle(s, r, version, eis, made, (n - 1) as nat, i);
    }
    if s2.identities.len() > s1.identities.len() {
        lookup_of_push::<Identity>(s1.identities, s2.identities.last(), eis[i].name@);
        assert(s2.identities =~= s1.identities.push(s2.identities.last()));
    }
}

proof fn identities_rest(
    s: StoreState,
    r: ReportView,
    version: u32,
    eis: Seq<ExportedIdentity>,
    made: Seq<IdentityMade>,
    n: nat,
)
    requires
        n <= eis.len(),
        forall|i: int| 0 <= i < n ==> identity_settled(s, version, #[trigger] eis[i]),
    ensures
        identities_done(s, r, version, eis, made, n).0 == s,
        others_unchanged(identities_done(s, r, version, eis, made, n).1, r),
    decreases n,
{
    if n > 0 {
        identities_rest(s, r, version, eis, made, (n - 1) as nat);
        assert(identity_settled(s, version, eis[n - 1]));
    }
}

/// Each phase of an import leaves the records of the others alone.
proof fn phases_are_separate(s: StoreState, source: Seq<char>, w: WorkspaceSnapshot, o: Outside)
    ensures
        ({
            let r = fresh_report(source, w.version);
            let (s1, r1) = profiles_done(s, r, s.profiles, w.profiles@, w.profiles@.len());
            let (s2, r2) = policies_done(
                s1,
                r1,
                w.version,
                w.policies@,
                o.policy_ids,
                w.policies@.len(),
            );
            let (s3, r3) = keys_done(s2, r2, w.objects@, o.keys, w.objects@.len());
            let (s4, r4) = nv_done(s3, r3, w.nv_indices@, w.nv_indices@.len());
            let (s5, _) = imported(s, source, w, o);
            &&& s5.profiles == s1.profiles
            &&& s5.policies == s2.policies
            &&& s5.objects == s3.objects
            &&& s5.nv_indices == s4.nv_indices
        }),
{
    let r = fresh_report(source, w.version);
    let (s1, r1) = profiles_done(s, r, s.profiles, w.profiles@, w.profiles@.len());
    policies_touch(s1, r1, w.version, w.policies@, o.policy_ids, w.policies@.len());
    let (s2, r2) = policies_done(s1, r1, w.version, w.policies@, o.policy_ids, w.policies@.len());
    keys_touch(s2, r2, w.objects@, o.keys, w.objects@.len());
    let (s3, r3) = keys_done(s2, r2, w.objects@, o.keys, w.objects@.len());
    nv_touch(s3, r3, w.nv_indices@, w.nv_indices@.len());
    let (s4, r4) = nv_done(s3, r3, w.nv_indices@, w.nv_indices@.len());
    identities_touch(s4, r4, w.version, w.identities@, o.identities, w.identities@.len());
}

proof fn profiles_touch(
    s: StoreState,
    r: ReportView,
    existing: Seq<ProfileView>,
    eps: Seq<ExportedProfile>,
    n: nat,
)
    ensures
        ({
            let t = profiles_done(s, r, existing, eps, n).0;
            &&& t.policies == s.policies
            &&& t.objects == s.objects
            &&& t.nv_indices == s.nv_indices
            &&& t.identities == s.identities
        }),
    decreases n,
{
    if n > 0 {
        profiles_touch(s, r, existing, eps, (n - 1) as nat);
    }
}

proof fn policies_touch(
    s: StoreState,
    r: ReportView,
    version: u32,
    eps: Seq<ExportedPolicy>,
    ids: Seq<u128>,
    n: nat,
)
    ensures
        ({
            let t = policies_done(s, r, version, eps, ids, n).0;
            &&& t.profiles == s.profiles
            &&& t.objects == s.objects
            &&& t.nv_indices == s.nv_indices
            &&& t.identities == s.identities
        }),
    decreases n,
{
    if n > 0 {
        policies_touch(s, r, version, eps, ids, (n - 1) as nat);
    }
}

proof fn keys_touch(
    s: StoreState,
    r: ReportView,
    eos: Seq<ExportedObject>,
    made: Seq<KeyMade>,
    n: nat,
)
    ensures
        ({
            let t = keys_done(s, r, eos, made, n).0;
            &&& t.profiles == s.profiles
            &&& t.policies == s.policies
            &&& t.nv_indices == s.nv_indices
            &&& t.identities == s.identities
        }),
    decreases n,
{
    if n > 0 {
        keys_touch(s, r, eos, made, (n - 1) as nat);
    }
}

proof fn nv_touch(s: StoreState, r: ReportView, ens: Seq<ExportedNv>, n: nat)
    ensures
        ({
            let t = nv_done(s, r, ens, n).0;
            &&& t.profiles == s.profiles
            &&& t.policies == s.policies
            &&& t.objects == s.objects
            &&& t.identities == s.identities
        }),
    decreases n,
{
    if n > 0 {
        nv_touch(s, r, ens, (n - 1) as nat);
    }
}

proof fn identities_touch(
    s: StoreState,
    r: ReportView,
    version: u32,
    eis: Seq<ExportedIdentity>,
    made: Seq<IdentityMade>,
    n: nat,
)
    ensures
        ({
            let t = identities_done(s, r, version, eis, made, n).0;
            &&& t.profiles == s.profiles
            &&& t.policies == s.policies
            &&& t.objects == s.objects
            &&& t.nv_indices == s.nv_indices
        }),
    decreases n,
{
    if n > 0 {
        identities_touch(s, r, version, eis, made, (n - 1) as nat);
    }
}

/// The warning about something that is there already.
pub open spec fn there_already(what: Seq<char>, name: Seq<char>) -> Seq<char> {
    what + name + "' already exists; skipped"@
}

/// Every warning of the first report is in the second.
pub open spec fn keeps_warnings(a: ReportView, b: ReportView) -> bool {
    forall|m: Seq<char>| #[trigger] a.warnings.contains(m) ==> b.warnings.contains(m)
}

proof fn warning_is_kept(r: ReportView, m: Seq<char>)
    ensures
        keeps_warnings(r, warned(r, m)),
        warned(r, m).warnings.contains(m),
{
    let t = r.warnings.push(m);
    assert(t[r.warnings.len() as int] == m);
    assert forall|x: Seq<char>| #[trigger] r.warnings.contains(x) implies t.contains(x) by {
        let i = choose|i: int| 0 <= i < r.warnings.len() && r.warnings[i] == x;
        assert(t[i] == x);
    }
}

proof fn profiles_warn(
    s: StoreState,
    r: ReportView,
    existing: Seq<ProfileView>,
    eps: Seq<ExportedProfile>,
    n: nat,
)
    requires
        n <= eps.len(),
        forall|i: int| 0 <= i < n ==> present::<Profile>(existing, #[trigger] eps[i].name@),
    ensures
        keeps_warnings(r, profiles_done(s, r, existing, eps, n).1),
        forall|i: int|
            0 <= i < n ==> profiles_done(s, r, existing, eps, n).1.warnings.contains(
                there_already("[TPM0804] profile '"@, #[trigger] eps[i].name@),
            ),
    decreases n,
{
    if n > 0 {
        profiles_warn(s, r, existing, eps, (n - 1) as nat);
        let before = profiles_done(s, r, existing, eps, (n - 1) as nat).1;
        assert(present::<Profile>(existing, eps[n - 1].name@));
        warning_is_kept(before, there_already("[TPM0804] profile '"@, eps[n - 1].name@));
        assert forall|i: int| 0 <= i < n implies profiles_done(
            s,
            r,
            existing,
            eps,
            n,
        ).1.warnings.contains(
            there_already("[TPM0804] profile '"@, #[trigger] eps[i].name@),
        ) by {
            if i < n - 1 {
                assert(before.warnings.contains(
                    there_already("[TPM0804] profile '"@, eps[i].name@),
                ));
            }
        }
    }
}

proof fn policies_warn(
    s: StoreState,
    r: ReportView,
    version: u32,
    eps: Seq<ExportedPolicy>,
    ids: Seq<u128>,
    n: nat,
)
    requires
        n <= eps.len(),
        forall|i: int| 0 <= i < n ==> policy_settled(s, version, #[trigger] eps[i]),
    ensures
        policies_done(s, r, version, eps, ids, n).0 == s,
        keeps_warnings(r, policies_done(s, r, version, eps, ids, n).1),
        forall|i: int|
            0 <= i < n && present::<Policy>(s.policies, eps[i].name@) ==> policies_done(
                s,
                r,
                version,
                eps,
                ids,
                n,
            ).1.warnings.contains(
                there_already("[TPM0804] policy '"@, (#[trigger] eps[i]).name@),
            ),
    decreases n,
{
    if n > 0 {
        policies_warn(s, r, version, eps, ids, (n - 1) as nat);
        let before = policies_done(s, r, version, eps, ids, (n - 1) as nat).1;
        let after = policies_done(s, r, version, eps, ids, n).1;
        let ep = eps[n - 1];
        assert(policy_settled(s, version, ep));
        warning_is_kept(before, after.warnings.last());
        assert(after == warned(before, after.warnings.last()));
        assert forall|i: int|
            0 <= i < n && present::<Policy>(
                s.policies,
                eps[i].name@,
            ) implies after.warnings.contains(
            there_already("[TPM0804] policy '"@, (#[trigger] eps[i]).name@),
        ) by {
            if i < n - 1 {
                assert(before.warnings.contains(
                    there_already("[TPM0804] policy '"@, eps[i].name@),
                ));
            }
        }
    }
}

proof fn keys_warn(
    s: StoreState,
    r: ReportView,
    eos: Seq<ExportedObject>,
    made: Seq<KeyMade>,
    n: nat,
)
    requires
        n <= eos.len(),
        forall|i: int| 0 <= i < n ==> key_settled(s, #[trigger] eos[i]),
    ensures
        keys_done(s, r, eos, made, n).0 == s,
        keeps_warnings(r, keys_done(s, r, eos, made, n).1),
        forall|i: int|
            0 <= i < n ==> (key_decision(s, #[trigger] eos[i]) matches KeyDecisionView::Warn(m)
                ==> keys_done(s, r, eos, made, n).1.warnings.contains(m)),
    decreases n,
{
    if n > 0 {
        keys_warn(s, r, eos, made, (n - 1) as nat);
        let before = keys_done(s, r, eos, made, (n - 1) as nat).1;
        let after = keys_done(s, r, eos, made, n).1;
        assert(key_settled(s, eos[n - 1]));
        if let KeyDecisionView::Warn(m) = key_decision(s, eos[n - 1]) {
            warning_is_kept(before, m);
        }
        assert forall|i: int| 0 <= i < n implies (key_decision(
            s,
            #[trigger] eos[i],
        ) matches KeyDecisionView::Warn(m) ==> after.warnings.contains(m)) by {
            if i < n - 1 {
                if let KeyDecisionView::Warn(m) = key_decision(s, eos[i]) {
                    assert(before.warnings.contains(m));
                }
            }
        }
    }
}

proof fn nv_warn(s: StoreState, r: ReportView, ens: Seq<ExportedNv>, n: nat)
    requires
        n <= ens.len(),
        forall|i: int| 0 <= i < n ==> nv_settled(s, #[trigger] ens[i]),
    ensures
        nv_done(s, r, ens, n).0 == s,
        keeps_warnings(r, nv_done(s, r, ens, n).1),
        forall|i: int|
            0 <= i < n && present::<NvSlot>(s.nv_indices, ens[i].name@) ==> nv_done(
                s,
                r,
                ens,
                n,
            ).1.warnings.contains(
                there_already("[TPM0804] NV index '"@, (#[trigger] ens[i]).name@),
            ),
    decreases n,
{
    if n > 0 {
        nv_warn(s, r, ens, (n - 1) as nat);
        let before = nv_done(s, r, ens, (n - 1) as nat).1;
        let after = nv_done(s, r, ens, n).1;
        assert(nv_settled(s, ens[n - 1]));
        warning_is_kept(before, after.warnings.last());
        assert(after == warned(before, after.warnings.last()));
        assert forall|i: int|
            0 <= i < n && present::<NvSlot>(
                s.nv_indices,
                ens[i].name@,
            ) implies after.warnings.contains(
            there_already("[TPM0804] NV index '"@, (#[trigger] ens[i]).name@),
        ) by {
            if i < n - 1 {
                assert(before.warnings.contains(
                    there_already("[TPM0804] NV index '"@, ens[i].name@),
                ));
            }
        }
    }
}

proof fn identities_warn(
    s: StoreState,
    r: ReportView,
    version: u32,
    eis: Seq<ExportedIdentity>,
    made: Seq<IdentityMade>,
    n: nat,
)
    requires
        n <= eis.len(),
        forall|i: int| 0 <= i < n ==> identity_settled(s, version, #[trigger] eis[i]),
    ensures
        identities_done(s, r, version, eis, made, n).0 == s,
        keeps_warnings(r, identities_done(s, r, version, eis, made, n).1),
        forall|i: int|
            0 <= i < n && present::<Identity>(s.identities, eis[i].name@) ==> identities_done(
                s,
                r,
                version,
                eis,
                made,
                n,
            ).1.warnings.contains(
                there_already("[TPM0804] identity '"@, (#[trigger] eis[i]).name@),
            ),
    decreases n,
{
    if n > 0 {
        identities_warn(s, r, version, eis, made, (n - 1) as nat);
        let before = identities_done(s, r, version, eis, made, (n - 1) as nat).1;
        let after = identities_done(s, r, version, eis, made, n).1;
        assert(identity_settled(s, version, eis[n - 1]));
        warning_is_kept(before, after.warnings.last());
        assert(after == warned(before, after.warnings.last()));
        assert forall|i: int|
            0 <= i < n && present::<Identity>(
                s.identities,
                eis[i].name@,
            ) implies after.warnings.contains(
            there_already("[TPM0804] identity '"@, (#[trigger] eis[i]).name@),
        ) by {
            if i < n - 1 {
                assert(before.warnings.contains(
                    there_already("[TPM0804] identity '"@, eis[i].name@),
                ));
            }
        }
    }
}

/// The report warns of everything in the snapshot that the store holds already.
pub open spec fn warns_of_present(s: StoreState, w: WorkspaceSnapshot, r: ReportView) -> bool {
    &&& forall|i: int|
        0 <= i < w.profiles@.len() && present::<Profile>(s.profiles, w.profiles@[i].name@)
            ==> r.warnings.contains(
            there_already("[TPM0804] profile '"@, (#[trigger] w.profiles@[i]).name@),
        )
    &&& forall|i: int|
        0 <= i < w.policies@.len() && present::<Policy>(s.policies, w.policies@[i].name@)
            ==> r.warnings.contains(
            there_already("[TPM0804] policy '"@, (#[trigger] w.policies@[i]).name@),
        )
    &&& forall|i: int|
        0 <= i < w.objects@.len() ==> (key_decision(
            s,
            #[trigger] w.objects@[i],
        ) matches KeyDecisionView::Warn(m) ==> r.warnings.contains(m))
    &&& forall|i: int|
        0 <= i < w.nv_indices@.len() && present::<NvSlot>(s.nv_indices, w.nv_indices@[i].name@)
            ==> r.warnings.contains(
            there_already("[TPM0804] NV index '"@, (#[trigger] w.nv_indices@[i]).name@),
        )
    &&& forall|i: int|
        0 <= i < w.identities@.len() && present::<Identity>(s.identities, w.identities@[i].name@)
            ==> r.warnings.contains(
            there_already("[TPM0804] identity '"@, (#[trigger] w.identities@[i]).name@),
        )
}

/// Importing a snapshot a second time changes nothing and imports nothing,
/// whatever the workspace held before the first time: no object needs a key, and
/// the report warns of everything that is there already.
pub proof fn import_is_idempotent(
    s: StoreState,
    source: Seq<char>,
    w: WorkspaceSnapshot,
    first: Outside,
    second: Outside,
)
    ensures
        ({
            let (once, _) = imported(s, source, w, first);
            let (twice, report) = imported(once, source, w, second);
            &&& twice == once
            &&& report.profiles == 0
            &&& report.policies == 0
            &&& report.keys == 0
            &&& report.nv == 0
            &&& report.identities == 0
            &&& forall|i: int| 0 <= i < w.objects@.len() ==> key_settled(once, #[trigger] w.objects@[i])
            &&& warns_of_present(once, w, report)
        }),
{
    let r = fresh_report(source, w.version);
    let (s1, r1) = profiles_done(s, r, s.profiles, w.profiles@, w.profiles@.len());
    let (s2, r2) = policies_done(
        s1,
        r1,
        w.version,
        w.policies@,
        first.policy_ids,
        w.policies@.len(),
    );
    let (s3, r3) = keys_done(s2, r2, w.objects@, first.keys, w.objects@.len());
    let (s4, r4) = nv_done(s3, r3, w.nv_indices@, w.nv_indices@.len());
    let (once, _) = imported(s, source, w, first);
    phases_are_separate(s, source, w, first);

    assert forall|i: int| 0 <= i < w.profiles@.len() implies present::<Profile>(
        once.profiles,
        #[trigger] w.profiles@[i].name@,
    ) by {
        profiles_settle(
            s,
            r,
            s.profiles,
            w.profiles@,
            w.profiles@.len(),
            w.profiles@[i].name@,
        );
    }
    profiles_rest(once, r, once.profiles, w.profiles@, w.profiles@.len());
    profiles_warn(once, r, once.profiles, w.profiles@, w.profiles@.len());
    let (_, q1) = profiles_done(once, r, once.profiles, w.profiles@, w.profiles@.len());

    assert forall|i: int| 0 <= i < w.policies@.len() implies policy_settled(
        once,
        w.version,
        #[trigger] w.policies@[i],
    ) by {
        policies_settle(
            s1,
            r1,
            w.version,
            w.policies@,
            first.policy_ids,
            w.policies@.len(),
            i,
        );
    }
    policies_rest(once, q1, w.version, w.policies@, second.policy_ids, w.policies@.len());
    policies_warn(once, q1, w.version, w.policies@, second.policy_ids, w.policies@.len());
    let (_, q2) = policies_done(
        once,
        q1,
        w.version,
        w.policies@,
        second.policy_ids,
        w.policies@.len(),
    );

    assert forall|i: int| 0 <= i < w.objects@.len() implies key_settled(
        once,
        #[trigger] w.objects@[i],
    ) by {
        keys_settle(s2, r2, w.objects@, first.keys, w.objects@.len(), i);
    }
    keys_rest(once, q2, w.objects@, second.keys, w.objects@.len());
    keys_warn(once, q2, w.objects@, second.keys, w.objects@.len());
    let (_, q3) = keys_done(once, q2, w.objects@, second.keys, w.objects@.len());

    assert forall|i: int| 0 <= i < w.nv_indices@.len() implies nv_settled(
        once,
        #[trigger] w.nv_indices@[i],
    ) by {
        nv_settle(s3, r3, w.nv_indices@, w.nv_indices@.len(), i);
    }
    nv_rest(once, q3, w.nv_indices@, w.nv_indices@.len());
    nv_warn(once, q3, w.nv_indices@, w.nv_indices@.len());
    let (_, q4) = nv_done(once, q3, w.nv_indices@, w.nv_indices@.len());

    assert forall|i: int| 0 <= i < w.identities@.len() implies identity_settled(
        once,
        w.version,
        #[trigger] w.identities@[i],
    ) by {
        identities_settle(
            s4,
            r4,
            w.version,
            w.identities@,
            first.identities,
            w.identities@.len(),
            i,
        );
    }
    identities_rest(once, q4, w.version, w.identities@, second.identities, w.identities@.len());
    identities_warn(once, q4, w.version, w.identities@, second.identities, w.identities@.len());
    let (_, q5) = identities_done(
        once,
        q4,
        w.version,
        w.identities@,
        second.identities,
        w.identities@.len(),
    );
    assert(keeps_warnings(q1, q5) && keeps_warnings(q2, q5) && keeps_warnings(q3, q5));
    assert(warns_of_present(once, w, q5)) by {
        assert forall|i: int|
            0 <= i < w.profiles@.len() implies q5.warnings.contains(
            there_already("[TPM0804] profile '"@, (#[trigger] w.profiles@[i]).name@),
        ) by {
            assert(q1.warnings.contains(
                there_already("[TPM0804] profile '"@, w.profiles@[i].name@),
            ));
        }
    }
}

// ---------------------------------------------------------------------------
// Restoring
// ---------------------------------------------------------------------------

/// What came from outside fits the snapshot: every record whose identifier can
/// be read keeps it.
pub open spec fn fits(o: Outside, w: WorkspaceSnapshot) -> bool {
    &&& o.policy_ids.len() == w.policies@.len()
    &&& forall|i: int|
        0 <= i < o.policy_ids.len() ==> chosen(w.policies@[i].id@, #[trigger] o.policy_ids[i])
    &&& o.keys.len() == w.objects@.len()
    &&& forall|i: int|
        0 <= i < o.keys.len() ==> chosen(w.objects@[i].id@, (#[trigger] o.keys[i]).id)
    &&& o.identities.len() == w.identities@.len()
    &&& forall|i: int|
        0 <= i < o.identities.len() ==> chosen(
            w.identities@[i].id@,
            (#[trigger] o.identities[i]).id,
        )
}

proof fn policies_restored(
    s: StoreState,
    r: ReportView,
    eps: Seq<ExportedPolicy>,
    ids: Seq<u128>,
    all: Seq<PolicyView>,
    n: nat,
)
    requires
        s.policies.len() == 0,
        n <= eps.len() == all.len() == ids.len(),
        distinct::<Policy>(all),
        forall|i: int| 0 <= i < all.len() ==> exports_policy(#[trigger] eps[i], all[i]),
        forall|i: int| 0 <= i < ids.len() ==> chosen(eps[i].id@, #[trigger] ids[i]),
    ensures
        policies_done(s, r, 2, eps, ids, n).0.policies == all.take(n as int),
    decreases n,
{
    if n == 0 {
        assert(s.policies =~= all.take(0));
    } else {
        policies_restored(s, r, eps, ids, all, (n - 1) as nat);
        let before = all.take(n - 1);
        assert(exports_policy(eps[n - 1], all[n - 1]));
        assert(chosen(eps[n - 1].id@, ids[n - 1]));
        absent_before::<Policy>(all, n - 1);
        assert(all.take(n as int) =~= before.push(all[n - 1]));
        assert(PolicyView { id: ids[n - 1], name: eps[n - 1].name@, rules: rule_views(
            eps[n - 1].rules@,
        ) } == all[n - 1]);
    }
}

/// The name of a record is not among those before it, where names are distinct.
proof fn absent_before<T: Keyed>(all: Seq<T::V>, n: int)
    requires
        0 <= n < all.len(),
        distinct::<T>(all),
    ensures
        !present::<T>(all.take(n), T::key_of(all[n])),
{
    let before = all.take(n);
    let key = T::key_of(all[n]);
    position_is_first::<T>(before, key);
    if present::<T>(before, key) {
        let p = crate::table::position::<T>(before, key);
        assert(before[p] == all[p]);
    }
}

/// An import into an empty workspace restores every policy that was exported,
/// with its identifier, name and rules.
pub proof fn import_restores_policies(
    s: StoreState,
    w: WorkspaceSnapshot,
    source: Seq<char>,
    o: Outside,
)
    requires
        snapshot_of(w, s),
        fits(o, w),
        distinct::<Policy>(s.policies),
    ensures
        imported(StoreState::empty(), source, w, o).0.policies == sorted::<Policy>(s.policies),
{
    let e = StoreState::empty();
    let r = fresh_report(source, w.version);
    phases_are_separate(e, source, w, o);
    profiles_touch(e, r, e.profiles, w.profiles@, w.profiles@.len());
    let (s1, r1) = profiles_done(e, r, e.profiles, w.profiles@, w.profiles@.len());
    let all = sorted::<Policy>(s.policies);
    sorted_is_ordered::<Policy>(s.policies);
    sorted_is_distinct::<Policy>(s.policies);
    policies_restored(s1, r1, w.policies@, o.policy_ids, all, w.policies@.len());
    assert(all.take(all.len() as int) =~= all);
}

/// A key is restored: all but its handle and its time of creation is as it was.
pub open spec fn restored_key(t: ObjectView, o: ObjectView) -> bool {
    &&& t.id == o.id
    &&& t.path == o.path
    &&& t.kind == o.kind
    &&& t.algorithm == o.algorithm
    &&& t.policy_id == o.policy_id
    &&& t.metadata == o.metadata
    &&& t.handle_blob is Some
}

/// Keys are restored, one for one.
pub open spec fn restored_keys(t: Seq<ObjectView>, keys: Seq<ObjectView>) -> bool {
    t.len() == keys.len() && forall|i: int|
        0 <= i < keys.len() ==> restored_key(#[trigger] t[i], keys[i])
}

/// The name of a kind is read as that kind.
pub proof fn exported_kind_reads_back(k: ObjectKind)
    ensures
        kind_named(k.text()) == Some(k),
{
    reveal_strlit("signing-key");
    reveal_strlit("storage-key");
    reveal_strlit("attestation-key");
    reveal_strlit("sealed-blob");
    reveal_strlit("nv-index");
    reveal_strlit("SigningKey");
    reveal_strlit("StorageKey");
    reveal_strlit("AttestationKey");
    reveal_strlit("SealedBlob");
    reveal_strlit("NvIndex");
    assert("signing-key"@[1] != "storage-key"@[1]);
    assert("signing-key"@[1] != "sealed-blob"@[1]);
    assert("storage-key"@[1] != "sealed-blob"@[1]);
    assert("attestation-key"@.len() == 15 && "nv-index"@.len() == 8);
    assert("signing-key"@.len() == 11 && "storage-key"@.len() == 11 && "sealed-blob"@.len() == 11);
    assert("SigningKey"@.len() == 10 && "StorageKey"@.len() == 10 && "SealedBlob"@.len() == 10);
    assert("AttestationKey"@.len() == 14 && "NvIndex"@.len() == 7);
}

/// The keys among the first objects have paths of those objects.
proof fn keys_come_from(all: Seq<ObjectView>, n: nat, k: int) -> (i: int)
    requires
        n <= all.len(),
        0 <= k < of_class(all, ObjectClass::Key, n).len(),
    ensures
        0 <= i < n,
        all[i] == of_class(all, ObjectClass::Key, n)[k],
    decreases n,
{
    let before = of_class(all, ObjectClass::Key, (n - 1) as nat);
    if k < before.len() {
        keys_come_from(all, (n - 1) as nat, k)
    } else {
        n - 1
    }
}

proof fn keys_restored(
    s: StoreState,
    r: ReportView,
    eos: Seq<ExportedObject>,
    made: Seq<KeyMade>,
    all: Seq<ObjectView>,
    n: nat,
)
    requires
        s.objects.len() == 0,
        n <= eos.len() == all.len() == made.len(),
        distinct::<TpmObject>(all),
        forall|i: int| 0 <= i < all.len() ==> valid_path((#[trigger] all[i]).path),
        forall|i: int| 0 <= i < all.len() ==> exports_object(#[trigger] eos[i], all[i]),
        forall|i: int| 0 <= i < made.len() ==> chosen(eos[i].id@, (#[trigger] made[i]).id),
    ensures
        restored_keys(
            keys_done(s, r, eos, made, n).0.objects,
            of_class(all, ObjectClass::Key, n),
        ),
    decreases n,
{
    if n > 0 {
        keys_restored(s, r, eos, made, all, (n - 1) as nat);
        let (s1, r1) = keys_done(s, r, eos, made, (n - 1) as nat);
        let keys = of_class(all, ObjectClass::Key, (n - 1) as nat);
        let o = all[n - 1];
        assert(exports_object(eos[n - 1], o));
        assert(chosen(eos[n - 1].id@, made[n - 1].id));
        assert(valid_path(o.path));
        exported_kind_reads_back(o.kind);
        algorithm_names_read_back(o.algorithm);
        if o.kind.is_key() {
            position_is_first::<TpmObject>(s1.objects, o.path);
            if present::<TpmObject>(s1.objects, o.path) {
                let p = crate::table::position::<TpmObject>(s1.objects, o.path);
                assert(restored_key(s1.objects[p], keys[p]));
                let i = keys_come_from(all, (n - 1) as nat, p);
                assert(TpmObject::key_of(all[i]) == TpmObject::key_of(all[n - 1]));
            }
            let t = keys_done(s, r, eos, made, n).0.objects;
            assert(t =~= s1.objects.push(t.last()));
            assert(restored_key(t.last(), o));
            assert forall|i: int| 0 <= i < keys.push(o).len() implies restored_key(
                #[trigger] t[i],
                keys.push(o)[i],
            ) by {
                if i < keys.len() {
                    assert(t[i] == s1.objects[i]);
                }
            }
        }
    }
}

/// An import into an empty workspace restores every key that was exported: its
/// identifier, path, kind, algorithm, policy and metadata. The handle is new.
pub proof fn import_restores_keys(
    s: StoreState,
    w: WorkspaceSnapshot,
    source: Seq<char>,
    o: Outside,
)
    requires
        snapshot_of(w, s),
        fits(o, w),
        distinct::<TpmObject>(s.objects),
        forall|i: int| 0 <= i < s.objects.len() ==> valid_path((#[trigger] s.objects[i]).path),
    ensures
        restored_keys(
            imported(StoreState::empty(), source, w, o).0.objects,
            class_list(s, ObjectClass::Key),
        ),
{
    broadcast use vstd::seq_lib::group_to_multiset_ensures;

    let e = StoreState::empty();
    let r = fresh_report(source, w.version);
    phases_are_separate(e, source, w, o);
    profiles_touch(e, r, e.profiles, w.profiles@, w.profiles@.len());
    let (s1, r1) = profiles_done(e, r, e.profiles, w.profiles@, w.profiles@.len());
    policies_touch(s1, r1, w.version, w.policies@, o.policy_ids, w.policies@.len());
    let (s2, r2) = policies_done(s1, r1, w.version, w.policies@, o.policy_ids, w.policies@.len());
    let all = sorted::<TpmObject>(s.objects);
    sorted_is_ordered::<TpmObject>(s.objects);
    sorted_is_distinct::<TpmObject>(s.objects);
    assert forall|i: int| 0 <= i < all.len() implies valid_path((#[trigger] all[i]).path) by {
        assert(all.to_multiset().count(all[i]) > 0);
        assert(s.objects.contains(all[i]));
    }
    keys_restored(s2, r2, w.objects@, o.keys, all, w.objects@.len());
}

// ---------------------------------------------------------------------------
// NV indices
// ---------------------------------------------------------------------------

/// The number of an index, as it is exported, is read as that number.
pub proof fn exported_number_reads_back(n: u32)
    ensures
        nv_number(hex32_text(n as int, true)) == Some(n),
{
    let text = hex32_text(n as int, true);
    let d = Seq::new(8, |i: int| hex32_digit(n as int, i, true));
    reveal_strlit("0x");
    assert(text.subrange(0, 2) =~= "0x"@);
    assert(text.subrange(2, text.len() as int) =~= d);
    assert forall|i: int| 0 <= i < 8 implies digit_in(#[trigger] d[i], 16) is Some by {}
    assert(d[0] != '+') by {
        assert(digit_in(d[0], 16) is Some);
    }
    assert(unsigned(d) == d);
    let x = n as int;
    assert(d.take(1).drop_last() =~= d.take(0));
    assert(d.take(2).drop_last() =~= d.take(1));
    assert(d.take(3).drop_last() =~= d.take(2));
    assert(d.take(4).drop_last() =~= d.take(3));
    assert(d.take(5).drop_last() =~= d.take(4));
    assert(d.take(6).drop_last() =~= d.take(5));
    assert(d.take(7).drop_last() =~= d.take(6));
    assert(d.drop_last() =~= d.take(7));
    assert(digits_value(d.take(0), 16) == 0);
    assert(digits_value(d.take(1), 16) == x / 0x10000000);
    assert(digits_value(d.take(2), 16) == x / 0x1000000);
    assert(digits_value(d.take(3), 16) == x / 0x100000);
    assert(digits_value(d.take(4), 16) == x / 0x10000);
    assert(digits_value(d.take(5), 16) == x / 0x1000);
    assert(digits_value(d.take(6), 16) == x / 0x100);
    assert(digits_value(d.take(7), 16) == x / 0x10);
    assert(digits_value(d, 16) == x);
}

/// The index as an import reserves it.
pub open spec fn reserved(e: (Seq<char>, u32, usize)) -> NvView {
    NvView { name: e.0, nv_index: e.1, size: e.2, data: None }
}

proof fn nv_restored(
    s: StoreState,
    r: ReportView,
    ens: Seq<ExportedNv>,
    all: Seq<(Seq<char>, u32, usize)>,
    n: nat,
)
    requires
        s.nv_indices.len() == 0,
        n <= ens.len() == all.len(),
        forall|i: int, j: int|
            #![trigger all[i], all[j]]
            0 <= i < j < all.len() ==> all[i].0 != all[j].0,
        forall|i: int| 0 <= i < all.len() ==> exports_nv(#[trigger] ens[i], all[i]),
    ensures
        nv_done(s, r, ens, n).0.nv_indices == Seq::new(n, |i: int| reserved(all[i])),
    decreases n,
{
    if n == 0 {
        assert(s.nv_indices =~= Seq::new(0, |i: int| reserved(all[i])));
    } else {
        nv_restored(s, r, ens, all, (n - 1) as nat);
        let before = nv_done(s, r, ens, (n - 1) as nat).0.nv_indices;
        assert(exports_nv(ens[n - 1], all[n - 1]));
        exported_number_reads_back(all[n - 1].1);
        position_is_first::<NvSlot>(before, all[n - 1].0);
        if present::<NvSlot>(before, all[n - 1].0) {
            let p = crate::table::position::<NvSlot>(before, all[n - 1].0);
            assert(before[p] == reserved(all[p]));
            assert(all[p].0 == all[n - 1].0);
        }
        assert(nv_done(s, r, ens, n).0.nv_indices =~= Seq::new(n, |i: int| reserved(all[i])));
    }
}

/// An import into an empty workspace restores every NV index that was exported:
/// its name, number and size. Nothing is written to it.
pub proof fn import_restores_nv(
    s: StoreState,
    w: WorkspaceSnapshot,
    source: Seq<char>,
    o: Outside,
)
    requires
        snapshot_of(w, s),
        distinct::<NvSlot>(s.nv_indices),
    ensures
        imported(StoreState::empty(), source, w, o).0.nv_indices == Seq::new(
            s.nv_indices.len(),
            |i: int| reserved(nv_listing(s.nv_indices)[i]),
        ),
{
    let e = StoreState::empty();
    let r = fresh_report(source, w.version);
    phases_are_separate(e, source, w, o);
    profiles_touch(e, r, e.profiles, w.profiles@, w.profiles@.len());
    let (s1, r1) = profiles_done(e, r, e.profiles, w.profiles@, w.profiles@.len());
    policies_touch(s1, r1, w.version, w.policies@, o.policy_ids, w.policies@.len());
    let (s2, r2) = policies_done(s1, r1, w.version, w.policies@, o.policy_ids, w.policies@.len());
    keys_touch(s2, r2, w.objects@, o.keys, w.objects@.len());
    let (s3, r3) = keys_done(s2, r2, w.objects@, o.keys, w.objects@.len());
    let all = nv_listing(s.nv_indices);
    let list = sorted::<NvSlot>(s.nv_indices);
    sorted_is_ordered::<NvSlot>(s.nv_indices);
    sorted_is_distinct::<NvSlot>(s.nv_indices);
    assert forall|i: int, j: int|
        #![trigger all[i], all[j]]
        0 <= i < j < all.len() implies all[i].0 != all[j].0 by {
        assert(NvSlot::key_of(list[i]) != NvSlot::key_of(list[j]));
    }
    nv_restored(s3, r3, w.nv_indices@, all, w.nv_indices@.len());
}

// ---------------------------------------------------------------------------
// Identities
// ---------------------------------------------------------------------------

/// An identity is restored: all but its time of creation is as it was.
pub open spec fn restored_identity(t: IdentityView, i: IdentityView) -> bool {
    t == IdentityView { created_at: t.created_at, ..i }
}

/// The key of an identity is among keys.
pub open spec fn key_among(keys: Seq<ObjectView>, id: u128) -> bool {
    exists|k: int| 0 <= k < keys.len() && (#[trigger] keys[k]).id == id
}

proof fn identities_restored(
    s: StoreState,
    r: ReportView,
    eis: Seq<ExportedIdentity>,
    made: Seq<IdentityMade>,
    all: Seq<IdentityView>,
    n: nat,
    i: int,
)
    requires
        s.identities.len() == 0,
        0 <= i < n <= eis.len() == all.len() == made.len(),
        distinct::<Identity>(all),
        lookup_id::<TpmObject>(s.objects, all[i].key_object_id) is Some,
        forall|k: int| 0 <= k < all.len() ==> exports_identity(#[trigger] eis[k], all[k]),
        forall|k: int| 0 <= k < made.len() ==> chosen(eis[k].id@, (#[trigger] made[k]).id),
    ensures
        lookup::<Identity>(
            identities_done(s, r, 2, eis, made, n).0.identities,
            all[i].name,
        ) matches Some(t) && restored_identity(t, all[i]),
    decreases n,
{
    identities_touch(s, r, 2, eis, made, (n - 1) as nat);
    let (s1, r1) = identities_done(s, r, 2, eis, made, (n - 1) as nat);
    let (s2, _) = identity_step(s1, r1, 2, eis[n - 1], made[n - 1].id, made[n - 1].created_at);
    assert(exports_identity(eis[n - 1], all[n - 1]));
    assert(chosen(eis[n - 1].id@, made[n - 1].id));
    if i < n - 1 {
        identities_restored(s, r, eis, made, all, (n - 1) as nat, i);
        if s2.identities.len() > s1.identities.len() {
            lookup_of_push::<Identity>(s1.identities, s2.identities.last(), all[i].name);
            assert(s2.identities =~= s1.identities.push(s2.identities.last()));
            assert(Identity::key_of(all[i]) != Identity::key_of(all[n - 1]));
        }
    } else {
        identities_come_from(s, r, eis, made, (n - 1) as nat);
        usage_names_read_back(all[i].usage);
        position_is_first::<Identity>(s1.identities, all[i].name);
        if present::<Identity>(s1.identities, all[i].name) {
            let p = crate::table::position::<Identity>(s1.identities, all[i].name);
            let k = choose|k: int|
                0 <= k < n - 1 && (#[trigger] eis[k]).name@ == s1.identities[p].name;
            assert(exports_identity(eis[k], all[k]));
            assert(Identity::key_of(all[k]) == Identity::key_of(all[n - 1]));
        }
        lookup_of_push::<Identity>(s1.identities, s2.identities.last(), all[i].name);
        assert(s2.identities =~= s1.identities.push(s2.identities.last()));
    }
}

/// Every identity that was imported has the name of one in the snapshot.
proof fn identities_come_from(
    s: StoreState,
    r: ReportView,
    eis: Seq<ExportedIdentity>,
    made: Seq<IdentityMade>,
    n: nat,
)
    requires
        s.identities.len() == 0,
        n <= eis.len(),
    ensures
        forall|p: int|
            #![trigger identities_done(s, r, 2, eis, made, n).0.identities[p]]
            0 <= p < identities_done(s, r, 2, eis, made, n).0.identities.len() ==> exists|k: int|
                0 <= k < n && (#[trigger] eis[k]).name@ == identities_done(
                    s,
                    r,
                    2,
                    eis,
                    made,
                    n,
                ).0.identities[p].name,
    decreases n,
{
    if n > 0 {
        identities_come_from(s, r, eis, made, (n - 1) as nat);
        let before = identities_done(s, r, 2, eis, made, (n - 1) as nat).0.identities;
        let after = identities_done(s, r, 2, eis, made, n).0.identities;
        assert forall|p: int| 0 <= p < after.len() implies exists|k: int|
            0 <= k < n && (#[trigger] eis[k]).name@ == (#[trigger] after[p]).name by {
            if p < before.len() {
                assert(after[p] == before[p]);
                let k = choose|k: int|
                    0 <= k < n - 1 && (#[trigger] eis[k]).name@ == before[p].name;
                assert(eis[k].name@ == after[p].name);
            } else {
                assert(eis[n - 1].name@ == after[p].name);
            }
        }
    }
}

/// An import into an empty workspace restores every identity that was exported
/// and whose key was a key of the workspace, and the identity still points at
/// that key.
pub proof fn import_restores_identities(
    s: StoreState,
    w: WorkspaceSnapshot,
    source: Seq<char>,
    o: Outside,
    i: int,
)
    requires
        snapshot_of(w, s),
        fits(o, w),
        distinct::<Identity>(s.identities),
        distinct::<TpmObject>(s.objects),
        forall|k: int| 0 <= k < s.objects.len() ==> valid_path((#[trigger] s.objects[k]).path),
        0 <= i < s.identities.len(),
        key_among(
            class_list(s, ObjectClass::Key),
            sorted::<Identity>(s.identities)[i].key_object_id,
        ),
    ensures
        ({
            let t = imported(StoreState::empty(), source, w, o).0;
            let was = sorted::<Identity>(s.identities)[i];
            &&& lookup::<Identity>(t.identities, was.name) matches Some(now)
                && restored_identity(now, was)
            &&& lookup_id::<TpmObject>(t.objects, was.key_object_id) is Some
        }),
{
    import_restores_keys(s, w, source, o);
    let e = StoreState::empty();
    let r = fresh_report(source, w.version);
    phases_are_separate(e, source, w, o);
    profiles_touch(e, r, e.profiles, w.profiles@, w.profiles@.len());
    let (s1, r1) = profiles_done(e, r, e.profiles, w.profiles@, w.profiles@.len());
    policies_touch(s1, r1, w.version, w.policies@, o.policy_ids, w.policies@.len());
    let (s2, r2) = policies_done(s1, r1, w.version, w.policies@, o.policy_ids, w.policies@.len());
    keys_touch(s2, r2, w.objects@, o.keys, w.objects@.len());
    let (s3, r3) = keys_done(s2, r2, w.objects@, o.keys, w.objects@.len());
    nv_touch(s3, r3, w.nv_indices@, w.nv_indices@.len());
    let (s4, r4) = nv_done(s3, r3, w.nv_indices@, w.nv_indices@.len());
    let all = sorted::<Identity>(s.identities);
    sorted_is_ordered::<Identity>(s.identities);
    sorted_is_distinct::<Identity>(s.identities);
    let keys = class_list(s, ObjectClass::Key);
    let id = all[i].key_object_id;
    let k = choose|k: int| 0 <= k < keys.len() && (#[trigger] keys[k]).id == id;
    let t = imported(e, source, w, o).0;
    assert(restored_key(t.objects[k], keys[k]));
    position_id_is_first::<TpmObject>(t.objects, id);
    assert(TpmObject::id_of(t.objects[k]) == id);
    identities_restored(s4, r4, w.identities@, o.identities, all, w.identities@.len(), i);
}

// ---------------------------------------------------------------------------
// Profiles
// ---------------------------------------------------------------------------

/// A profile as an import into an empty workspace makes it: only the first can
/// be active, and it has no default policy.
pub open spec fn restored_profile(p: ProfileView, first: bool) -> ProfileView {
    ProfileView {
        name: p.name,
        default_algorithm: p.default_algorithm,
        default_policy: None,
        is_active: p.is_active && first,
    }
}

proof fn profiles_restored(
    s: StoreState,
    r: ReportView,
    eps: Seq<ExportedProfile>,
    all: Seq<ProfileView>,
    n: nat,
)
    requires
        s.profiles.len() == 0,
        r.profiles == 0,
        n <= eps.len() == all.len(),
        forall|i: int| 0 <= i < all.len() ==> exports_profile(#[trigger] eps[i], all[i]),
    ensures
        profiles_done(s, r, s.profiles, eps, n).0.profiles == Seq::new(
            n,
            |i: int| restored_profile(all[i], i == 0),
        ),
        profiles_done(s, r, s.profiles, eps, n).1.profiles == n,
    decreases n,
{
    if n == 0 {
        assert(s.profiles =~= Seq::new(0, |i: int| restored_profile(all[i], i == 0)));
    } else {
        profiles_restored(s, r, eps, all, (n - 1) as nat);
        assert(exports_profile(eps[n - 1], all[n - 1]));
        algorithm_names_read_back(all[n - 1].default_algorithm);
        position_is_first::<Profile>(s.profiles, all[n - 1].name);
        assert(profiles_done(s, r, s.profiles, eps, n).0.profiles =~= Seq::new(
            n,
            |i: int| restored_profile(all[i], i == 0),
        ));
    }
}

/// An import into an empty workspace restores every profile that was exported,
/// with its name and algorithm. Only the first by name stays active, if it was.
pub proof fn import_restores_profiles(
    s: StoreState,
    w: WorkspaceSnapshot,
    source: Seq<char>,
    o: Outside,
)
    requires
        snapshot_of(w, s),
    ensures
        imported(StoreState::empty(), source, w, o).0.profiles == Seq::new(
            s.profiles.len(),
            |i: int| restored_profile(sorted::<Profile>(s.profiles)[i], i == 0),
        ),
{
    let e = StoreState::empty();
    let r = fresh_report(source, w.version);
    phases_are_separate(e, source, w, o);
    sorted_is_ordered::<Profile>(s.profiles);
    profiles_restored(e, r, w.profiles@, sorted::<Profile>(s.profiles), w.profiles@.len());
}

} // verus!
