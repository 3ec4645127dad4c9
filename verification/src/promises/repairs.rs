//! Repair: what is wrong is found, what is found is wrong, and what is right is
//! left alone.
use vstd::prelude::*;

use crate::commands::repair::{
    all_fixed, apply, backend_issues, dangling, dangling_issue, dangling_issues, detect_issues,
    fix_at, fragile_issue, fragile_issues, handle_issue, handle_issues, issue_views, issues_of,
    lost_handle, nv_issue, nv_issues, orphan_issue, orphan_issues, profile_issues,
    repair_removes_lost_keys, status_view, unwritten, FixView, Issue, IssueSeverity, IssueView,
};
use crate::model::{
    BackendStatus, Identity, IdentityView, NvSlot, NvView, ObjectView, Policy, PolicyView,
    TpmObject,
};
use crate::store::{nv_listing, MemoryStore, StoreState};
use crate::table::{lookup, lookup_id, sorted, sorted_is_ordered, without_removes, Keyed};

verus! {

proof fn handle_family(s: Seq<ObjectView>, n: nat)
    requires
        n <= s.len(),
    ensures
        forall|i: int|
            #![trigger handle_issues(s, n)[i]]
            0 <= i < handle_issues(s, n).len() ==> exists|k: int|
                #![trigger s[k]]
                0 <= k < n && lost_handle(s[k]) && handle_issues(s, n)[i] == handle_issue(s[k]),
        forall|k: int|
            #![trigger s[k]]
            0 <= k < n && lost_handle(s[k]) ==> handle_issues(s, n).contains(handle_issue(s[k])),
    decreases n,
{
    if n > 0 {
        handle_family(s, (n - 1) as nat);
        let before = handle_issues(s, (n - 1) as nat);
        let all_found = handle_issues(s, n);
        assert forall|i: int|
            #![trigger all_found[i]]
            0 <= i < all_found.len() implies exists|k: int|
            #![trigger s[k]]
            0 <= k < n && lost_handle(s[k]) && all_found[i] == handle_issue(s[k]) by {
            if i < before.len() {
                assert(all_found[i] == before[i]);
                let k = choose|k: int|
                    #![trigger s[k]]
                    0 <= k < n - 1 && lost_handle(s[k]) && before[i] == handle_issue(s[k]);
                assert(0 <= k < n && lost_handle(s[k]) && all_found[i] == handle_issue(s[k]));
            } else {
                let k = n - 1;
                assert(0 <= k < n && lost_handle(s[k]) && all_found[i] == handle_issue(s[k]));
            }
        }
        assert forall|k: int|
            #![trigger s[k]]
            0 <= k < n && lost_handle(s[k]) implies all_found.contains(handle_issue(s[k])) by {
            if k < n - 1 {
                assert(before.contains(handle_issue(s[k])));
                let j = choose|j: int| 0 <= j < before.len() && before[j] == handle_issue(s[k]);
                assert(all_found[j] == handle_issue(s[k]));
            } else {
                assert(all_found[all_found.len() - 1] == handle_issue(s[k]));
            }
        }
    }
}

proof fn dangling_family(s: Seq<ObjectView>, policies: Seq<PolicyView>, n: nat)
    requires
        n <= s.len(),
    ensures
        forall|i: int|
            #![trigger dangling_issues(s, policies, n)[i]]
            0 <= i < dangling_issues(s, policies, n).len() ==> exists|k: int|
                #![trigger s[k]]
                0 <= k < n && dangling(s[k], policies)
                    && dangling_issues(s, policies, n)[i] == dangling_issue(s[k]),
        forall|k: int|
            #![trigger s[k]]
            0 <= k < n && dangling(s[k], policies)
                ==> dangling_issues(s, policies, n).contains(dangling_issue(s[k])),
    decreases n,
{
    if n > 0 {
        dangling_family(s, policies, (n - 1) as nat);
        let before = dangling_issues(s, policies, (n - 1) as nat);
        let all_found = dangling_issues(s, policies, n);
        assert forall|i: int|
            #![trigger all_found[i]]
            0 <= i < all_found.len() implies exists|k: int|
            #![trigger s[k]]
            0 <= k < n && dangling(s[k], policies) && all_found[i] == dangling_issue(s[k]) by {
            if i < before.len() {
                assert(all_found[i] == before[i]);
                let k = choose|k: int|
                    #![trigger s[k]]
                    0 <= k < n - 1 && dangling(s[k], policies) && before[i] == dangling_issue(s[k]);
                assert(0 <= k < n && dangling(s[k], policies)
                    && all_found[i] == dangling_issue(s[k]));
            } else {
                let k = n - 1;
                assert(0 <= k < n && dangling(s[k], policies)
                    && all_found[i] == dangling_issue(s[k]));
            }
        }
        assert forall|k: int|
            #![trigger s[k]]
            0 <= k < n
                && dangling(s[k], policies) implies all_found.contains(dangling_issue(s[k])) by {
            if k < n - 1 {
                assert(before.contains(dangling_issue(s[k])));
                let j = choose|j: int| 0 <= j < before.len() && before[j] == dangling_issue(s[k]);
                assert(all_found[j] == dangling_issue(s[k]));
            } else {
                assert(all_found[all_found.len() - 1] == dangling_issue(s[k]));
            }
        }
    }
}

proof fn nv_family(s: Seq<(Seq<char>, u32, usize)>, all: Seq<NvView>, n: nat)
    requires
        n <= s.len(),
    ensures
        forall|i: int|
            #![trigger nv_issues(s, all, n)[i]]
            0 <= i < nv_issues(s, all, n).len() ==> exists|k: int|
                #![trigger s[k]]
                0 <= k < n && unwritten(all, s[k].0) && nv_issues(s, all, n)[i] == nv_issue(s[k].0),
        forall|k: int|
            #![trigger s[k]]
            0 <= k < n && unwritten(all, s[k].0)
                ==> nv_issues(s, all, n).contains(nv_issue(s[k].0)),
    decreases n,
{
    if n > 0 {
        nv_family(s, all, (n - 1) as nat);
        let before = nv_issues(s, all, (n - 1) as nat);
        let all_found = nv_issues(s, all, n);
        assert forall|i: int|
            #![trigger all_found[i]]
            0 <= i < all_found.len() implies exists|k: int|
            #![trigger s[k]]
            0 <= k < n && unwritten(all, s[k].0) && all_found[i] == nv_issue(s[k].0) by {
            if i < before.len() {
                assert(all_found[i] == before[i]);
                let k = choose|k: int|
                    #![trigger s[k]]
                    0 <= k < n - 1 && unwritten(all, s[k].0) && before[i] == nv_issue(s[k].0);
                assert(0 <= k < n && unwritten(all, s[k].0) && all_found[i] == nv_issue(s[k].0));
            } else {
                let k = n - 1;
                assert(0 <= k < n && unwritten(all, s[k].0) && all_found[i] == nv_issue(s[k].0));
            }
        }
        assert forall|k: int|
            #![trigger s[k]]
            0 <= k < n && unwritten(all, s[k].0) implies all_found.contains(nv_issue(s[k].0)) by {
            if k < n - 1 {
                assert(before.contains(nv_issue(s[k].0)));
                let j = choose|j: int| 0 <= j < before.len() && before[j] == nv_issue(s[k].0);
                assert(all_found[j] == nv_issue(s[k].0));
            } else {
                assert(all_found[all_found.len() - 1] == nv_issue(s[k].0));
            }
        }
    }
}

proof fn orphan_family(s: Seq<IdentityView>, objects: Seq<ObjectView>, n: nat)
    requires
        n <= s.len(),
    ensures
        forall|i: int|
            #![trigger orphan_issues(s, objects, n)[i]]
            0 <= i < orphan_issues(s, objects, n).len() ==> exists|k: int|
                #![trigger s[k]]
                0 <= k < n && lookup_id::<TpmObject>(objects, s[k].key_object_id) is None
                    && orphan_issues(s, objects, n)[i] == orphan_issue(s[k]),
        forall|k: int|
            #![trigger s[k]]
            0 <= k < n && lookup_id::<TpmObject>(objects, s[k].key_object_id) is None
                ==> orphan_issues(s, objects, n).contains(orphan_issue(s[k])),
    decreases n,
{
    if n > 0 {
        orphan_family(s, objects, (n - 1) as nat);
        let before = orphan_issues(s, objects, (n - 1) as nat);
        let all_found = orphan_issues(s, objects, n);
        assert forall|i: int|
            #![trigger all_found[i]]
            0 <= i < all_found.len() implies exists|k: int|
            #![trigger s[k]]
            0 <= k < n && lookup_id::<TpmObject>(objects, s[k].key_object_id) is None
                && all_found[i] == orphan_issue(s[k]) by {
            if i < before.len() {
                assert(all_found[i] == before[i]);
                let k = choose|k: int|
                    #![trigger s[k]]
                    0 <= k < n - 1
                        && lookup_id::<TpmObject>(objects, s[k].key_object_id) is None
                        && before[i] == orphan_issue(s[k]);
                assert(0 <= k < n
                    && lookup_id::<TpmObject>(objects, s[k].key_object_id) is None
                    && all_found[i] == orphan_issue(s[k]));
            } else {
                let k = n - 1;
                assert(0 <= k < n
                    && lookup_id::<TpmObject>(objects, s[k].key_object_id) is None
                    && all_found[i] == orphan_issue(s[k]));
            }
        }
        assert forall|k: int|
            #![trigger s[k]]
            0 <= k < n
                && lookup_id::<TpmObject>(objects, s[k].key_object_id) is None implies all_found.contains(orphan_issue(s[k])) by {
            if k < n - 1 {
                assert(before.contains(orphan_issue(s[k])));
                let j = choose|j: int| 0 <= j < before.len() && before[j] == orphan_issue(s[k]);
                assert(all_found[j] == orphan_issue(s[k]));
            } else {
                assert(all_found[all_found.len() - 1] == orphan_issue(s[k]));
            }
        }
    }
}

proof fn fragile_family(s: Seq<PolicyView>, fragile: Seq<bool>, n: nat)
    requires
        n <= s.len(),
    ensures
        forall|i: int|
            #![trigger fragile_issues(s, fragile, n)[i]]
            0 <= i < fragile_issues(s, fragile, n).len() ==> exists|k: int|
                #![trigger s[k]]
                0 <= k < n && fragile[k] && fragile_issues(s, fragile, n)[i] == fragile_issue(s[k]),
        forall|k: int|
            #![trigger s[k]]
            0 <= k < n && fragile[k]
                ==> fragile_issues(s, fragile, n).contains(fragile_issue(s[k])),
    decreases n,
{
    if n > 0 {
        fragile_family(s, fragile, (n - 1) as nat);
        let before = fragile_issues(s, fragile, (n - 1) as nat);
        let all_found = fragile_issues(s, fragile, n);
        assert forall|i: int|
            #![trigger all_found[i]]
            0 <= i < all_found.len() implies exists|k: int|
            #![trigger s[k]]
            0 <= k < n && fragile[k] && all_found[i] == fragile_issue(s[k]) by {
            if i < before.len() {
                assert(all_found[i] == before[i]);
                let k = choose|k: int|
                    #![trigger s[k]]
                    0 <= k < n - 1 && fragile[k] && before[i] == fragile_issue(s[k]);
                assert(0 <= k < n && fragile[k] && all_found[i] == fragile_issue(s[k]));
            } else {
                let k = n - 1;
                assert(0 <= k < n && fragile[k] && all_found[i] == fragile_issue(s[k]));
            }
        }
        assert forall|k: int|
            #![trigger s[k]]
            0 <= k < n && fragile[k] implies all_found.contains(fragile_issue(s[k])) by {
            if k < n - 1 {
                assert(before.contains(fragile_issue(s[k])));
                let j = choose|j: int| 0 <= j < before.len() && before[j] == fragile_issue(s[k]);
                assert(all_found[j] == fragile_issue(s[k]));
            } else {
                assert(all_found[all_found.len() - 1] == fragile_issue(s[k]));
            }
        }
    }
}

/// A list and its sorted form hold the same records.
proof fn sorting_keeps_records<T: Keyed>(s: Seq<T::V>)
    ensures
        sorted::<T>(s).len() == s.len(),
        forall|i: int| 0 <= i < s.len() ==> sorted::<T>(s).contains(#[trigger] s[i]),
        forall|i: int|
            0 <= i < s.len() ==> s.contains(#[trigger] sorted::<T>(s)[i]),
{
    let all = sorted::<T>(s);
    sorted_is_ordered::<T>(s);
    s.to_multiset_ensures();
    all.to_multiset_ensures();
    assert forall|i: int| 0 <= i < s.len() implies all.contains(#[trigger] s[i]) by {
        assert(s.contains(s[i]));
        assert(s.to_multiset().count(s[i]) > 0);
        assert(all.to_multiset().count(s[i]) > 0);
    }
    assert forall|i: int| 0 <= i < s.len() implies s.contains(#[trigger] all[i]) by {
        assert(all.contains(all[i]));
        assert(all.to_multiset().count(all[i]) > 0);
        assert(s.to_multiset().count(all[i]) > 0);
    }
}

/// Some issue that was found is this one.
pub open spec fn finds(issues: Seq<Issue>, v: IssueView) -> bool {
    issue_views(issues).contains(v)
}

/// The parts of a scan, one check after another.
spec fn parts_of(s: StoreState, status: Result<bool, Seq<char>>, fragile: Seq<bool>) -> Seq<
    Seq<IssueView>,
> {
    let objects = sorted::<TpmObject>(s.objects);
    let identities = sorted::<Identity>(s.identities);
    let policies = sorted::<Policy>(s.policies);
    let nv = nv_listing(s.nv_indices);
    seq![
        backend_issues(status),
        handle_issues(objects, objects.len()),
        dangling_issues(objects, s.policies, objects.len()),
        profile_issues(s),
        nv_issues(nv, s.nv_indices, nv.len()),
        orphan_issues(identities, objects, identities.len()),
        fragile_issues(policies, fragile, policies.len()),
    ]
}

proof fn found_in_a_part(
    s: StoreState,
    status: Result<bool, Seq<char>>,
    fragile: Seq<bool>,
    v: IssueView,
)
    ensures
        issues_of(s, status, fragile).contains(v) <==> exists|p: int|
            0 <= p < 7 && (#[trigger] parts_of(s, status, fragile)[p]).contains(v),
{
    let parts = parts_of(s, status, fragile);
    let a = parts[0];
    let b = parts[1];
    let c = parts[2];
    let d = parts[3];
    let e = parts[4];
    let f = parts[5];
    let g = parts[6];
    in_either(a, b, v);
    in_either(a + b, c, v);
    in_either(a + b + c, d, v);
    in_either(a + b + c + d, e, v);
    in_either(a + b + c + d + e, f, v);
    in_either(a + b + c + d + e + f, g, v);
    assert(issues_of(s, status, fragile) == a + b + c + d + e + f + g);
    if issues_of(s, status, fragile).contains(v) {
        assert(parts[0].contains(v) || parts[1].contains(v) || parts[2].contains(v)
            || parts[3].contains(v) || parts[4].contains(v) || parts[5].contains(v)
            || parts[6].contains(v));
    }
}

proof fn in_either(a: Seq<IssueView>, b: Seq<IssueView>, v: IssueView)
    ensures
        (a + b).contains(v) <==> a.contains(v) || b.contains(v),
{
    if a.contains(v) {
        let k = choose|k: int| 0 <= k < a.len() && a[k] == v;
        assert((a + b)[k] == v);
    }
    if b.contains(v) {
        let k = choose|k: int| 0 <= k < b.len() && b[k] == v;
        assert((a + b)[a.len() + k] == v);
    }
    if (a + b).contains(v) {
        let k = choose|k: int| 0 <= k < (a + b).len() && (a + b)[k] == v;
        if k < a.len() {
            assert(a[k] == v);
        } else {
            assert(b[k - a.len()] == v);
        }
    }
}

/// Every key without a handle is found, and so is every object whose policy is
/// gone, every identity whose key is gone, and every index that was never
/// written; a backend that is not available is found as well.
pub proof fn what_is_wrong_is_found(
    store: &MemoryStore,
    status: &Result<BackendStatus, String>,
    fragile: &Vec<bool>,
    issues: Vec<Issue>,
)
    requires
        fragile@.len() == store@.policies.len(),
        call_ensures(detect_issues, (store, status, fragile), issues),
    ensures
        forall|i: int|
            #![trigger store@.objects[i]]
            0 <= i < store@.objects.len() && store@.objects[i].handle_blob is None
                && store@.objects[i].kind.is_key() ==> finds(
                issues@,
                handle_issue(store@.objects[i]),
            ),
        forall|i: int|
            #![trigger store@.objects[i]]
            0 <= i < store@.objects.len() && store@.objects[i].policy_id is Some && lookup_id::<
                Policy,
            >(store@.policies, store@.objects[i].policy_id->0) is None ==> finds(
                issues@,
                dangling_issue(store@.objects[i]),
            ),
        forall|i: int|
            #![trigger store@.identities[i]]
            0 <= i < store@.identities.len() && lookup_id::<TpmObject>(
                sorted::<TpmObject>(store@.objects),
                store@.identities[i].key_object_id,
            ) is None ==> finds(issues@, orphan_issue(store@.identities[i])),
        status is Err || !status->Ok_0.available ==> issues@.len() > 0 && issues@[0].severity
            == IssueSeverity::Error,
{
    let s = store@;
    let st = status_view(*status);
    let objects = sorted::<TpmObject>(s.objects);
    let identities = sorted::<Identity>(s.identities);
    let parts = parts_of(s, st, fragile@);
    handle_family(objects, objects.len());
    dangling_family(objects, s.policies, objects.len());
    orphan_family(identities, objects, identities.len());
    sorting_keeps_records::<TpmObject>(s.objects);
    sorting_keeps_records::<Identity>(s.identities);
    assert forall|i: int|
        #![trigger s.objects[i]]
        0 <= i < s.objects.len() && s.objects[i].handle_blob is None
            && s.objects[i].kind.is_key() implies finds(issues@, handle_issue(s.objects[i])) by {
        let o = s.objects[i];
        assert(objects.contains(o));
        let k = choose|k: int| 0 <= k < objects.len() && objects[k] == o;
        assert(lost_handle(objects[k]));
        assert(parts[1].contains(handle_issue(o)));
        found_in_a_part(s, st, fragile@, handle_issue(o));
    }
    assert forall|i: int|
        #![trigger s.objects[i]]
        0 <= i < s.objects.len() && s.objects[i].policy_id is Some && lookup_id::<Policy>(
            s.policies,
            s.objects[i].policy_id->0,
        ) is None implies finds(issues@, dangling_issue(s.objects[i])) by {
        let o = s.objects[i];
        assert(objects.contains(o));
        let k = choose|k: int| 0 <= k < objects.len() && objects[k] == o;
        assert(dangling(objects[k], s.policies));
        assert(parts[2].contains(dangling_issue(o)));
        found_in_a_part(s, st, fragile@, dangling_issue(o));
    }
    assert forall|i: int|
        #![trigger s.identities[i]]
        0 <= i < s.identities.len() && lookup_id::<TpmObject>(
            objects,
            s.identities[i].key_object_id,
        ) is None implies finds(issues@, orphan_issue(s.identities[i])) by {
        let o = s.identities[i];
        assert(identities.contains(o));
        let k = choose|k: int| 0 <= k < identities.len() && identities[k] == o;
        assert(lookup_id::<TpmObject>(objects, identities[k].key_object_id) is None);
        assert(parts[5].contains(orphan_issue(o)));
        found_in_a_part(s, st, fragile@, orphan_issue(o));
    }
    if status is Err || !status->Ok_0.available {
        assert(backend_issues(st).len() == 1);
        assert(issue_views(issues@)[0] == backend_issues(st)[0]);
        assert(issue_views(issues@).len() == issues@.len());
        assert(issues@[0]@ == backend_issues(st)[0]);
    }
}

/// An object is to be removed only where a key without a handle stands at its
/// path: what may be removed was found for that reason.
pub proof fn only_lost_keys_are_to_be_removed(
    store: &MemoryStore,
    status: &Result<BackendStatus, String>,
    fragile: &Vec<bool>,
    issues: Vec<Issue>,
    i: int,
    path: Seq<char>,
)
    requires
        fragile@.len() == store@.policies.len(),
        call_ensures(detect_issues, (store, status, fragile), issues),
        0 <= i < issues@.len(),
        issues@[i]@.fix_action == (FixView::RemoveOrphanMetadata { path }),
    ensures
        exists|k: int|
            0 <= k < store@.objects.len() && (#[trigger] store@.objects[k]).path == path
                && store@.objects[k].handle_blob is None && store@.objects[k].kind.is_key(),
{
    let s = store@;
    let v = issue_views(issues@)[i];
    assert(issues_of(s, status_view(*status), fragile@).contains(v));
    removal_has_its_reason(s, status_view(*status), fragile@, v, path);
}

proof fn removal_has_its_reason(
    s: StoreState,
    st: Result<bool, Seq<char>>,
    fragile: Seq<bool>,
    v: IssueView,
    path: Seq<char>,
)
    requires
        fragile.len() == s.policies.len(),
        issues_of(s, st, fragile).contains(v),
        v.fix_action == (FixView::RemoveOrphanMetadata { path }),
    ensures
        exists|k: int|
            0 <= k < s.objects.len() && (#[trigger] s.objects[k]).path == path
                && s.objects[k].handle_blob is None && s.objects[k].kind.is_key(),
{
    let objects = sorted::<TpmObject>(s.objects);
    let identities = sorted::<Identity>(s.identities);
    let policies = sorted::<Policy>(s.policies);
    let nv = nv_listing(s.nv_indices);
    let parts = parts_of(s, st, fragile);
    found_in_a_part(s, st, fragile, v);
    sorting_keeps_records::<TpmObject>(s.objects);
    sorting_keeps_records::<Policy>(s.policies);
    handle_family(objects, objects.len());
    dangling_family(objects, s.policies, objects.len());
    nv_family(nv, s.nv_indices, nv.len());
    orphan_family(identities, objects, identities.len());
    fragile_family(policies, fragile, policies.len());
    let p = choose|p: int| 0 <= p < 7 && (#[trigger] parts[p]).contains(v);
    let j = choose|j: int| 0 <= j < parts[p].len() && parts[p][j] == v;
    if p == 1 {
        let k = choose|k: int|
            #![trigger objects[k]]
            0 <= k < objects.len() && lost_handle(objects[k]) && parts[1][j] == handle_issue(
                objects[k],
            );
        assert(s.objects.contains(objects[k]));
        let m = choose|m: int| 0 <= m < s.objects.len() && s.objects[m] == objects[k];
        assert(s.objects[m].path == path);
    } else if p == 2 {
        let k = choose|k: int|
            #![trigger objects[k]]
            0 <= k < objects.len() && dangling(objects[k], s.policies) && parts[2][j]
                == dangling_issue(objects[k]);
        assert(dangling_issue(objects[k]).fix_action is MarkDrifted);
    } else if p == 4 {
        let k = choose|k: int|
            #![trigger nv[k]]
            0 <= k < nv.len() && unwritten(s.nv_indices, nv[k].0) && parts[4][j] == nv_issue(
                nv[k].0,
            );
        assert(nv_issue(nv[k].0).fix_action is NoAutoFix);
    } else if p == 5 {
        let k = choose|k: int|
            #![trigger identities[k]]
            0 <= k < identities.len() && lookup_id::<TpmObject>(
                objects,
                identities[k].key_object_id,
            ) is None && parts[5][j] == orphan_issue(identities[k]);
        assert(orphan_issue(identities[k]).fix_action is NoAutoFix);
    } else if p == 6 {
        let k = choose|k: int|
            #![trigger policies[k]]
            0 <= k < policies.len() && fragile[k] && parts[6][j] == fragile_issue(policies[k]);
        assert(fragile_issue(policies[k]).fix_action is NoAutoFix);
    }
}

/// A workspace that is repaired keeps every object that can be used: one at
/// whose path no key without a handle stands. It keeps all of its policies,
/// identities, profiles and NV indices as well, and loses every key without a
/// handle.
pub proof fn repair_keeps_what_is_right(
    store: &mut MemoryStore,
    status: &Result<BackendStatus, String>,
    fragile: &Vec<bool>,
    issues: &Vec<Issue>,
    s: String,
    o: ObjectView,
)
    requires
        fragile@.len() == old(store)@.policies.len(),
        call_ensures(detect_issues, (&*old(store), status, fragile), *issues),
        call_ensures(apply, (store, issues), s),
        old(store)@.objects.contains(o),
    ensures
        (forall|k: int|
            0 <= k < old(store)@.objects.len() && (#[trigger] old(store)@.objects[k]).path == o.path
                ==> !lost_handle(old(store)@.objects[k])) ==> final(store)@.objects.contains(o),
        o.handle_blob is None && o.kind.is_key() ==> !final(store)@.objects.contains(o),
        final(store)@.policies == old(store)@.policies,
        final(store)@.identities == old(store)@.identities,
        final(store)@.profiles == old(store)@.profiles,
        final(store)@.pcr_baselines == old(store)@.pcr_baselines,
{
    let before = old(store)@;
    let st = status_view(*status);
    let found = issues_of(before, st, fragile@);
    let n = issues@.len();
    assert(issue_views(issues@) == found);
    assert(found.len() == n);
    let stamps = choose|stamps: Seq<Seq<char>>|
        stamps.len() == n && final(store)@ == #[trigger] all_fixed(before, found, stamps, n);
    only_objects_are_mended(before, found, stamps, n);
    if o.handle_blob is None && o.kind.is_key() && final(store)@.objects.contains(o) {
        repair_removes_lost_keys(before, st, fragile@, stamps, o);
    }
    if forall|k: int|
        0 <= k < before.objects.len() && (#[trigger] before.objects[k]).path == o.path
            ==> !lost_handle(before.objects[k]) {
        assert forall|i: int| 0 <= i < n implies (#[trigger] found[i]).fix_action != (
        FixView::RemoveOrphanMetadata { path: o.path }) by {
            if found[i].fix_action == (FixView::RemoveOrphanMetadata { path: o.path }) {
                assert(found.contains(found[i]));
                removal_has_its_reason(before, st, fragile@, found[i], o.path);
            }
        }
        untouched_object_stays(before, found, stamps, n, o);
    }
}

proof fn only_objects_are_mended(
    s: StoreState,
    issues: Seq<IssueView>,
    stamps: Seq<Seq<char>>,
    n: nat,
)
    ensures
        all_fixed(s, issues, stamps, n).policies == s.policies,
        all_fixed(s, issues, stamps, n).identities == s.identities,
        all_fixed(s, issues, stamps, n).profiles == s.profiles,
        all_fixed(s, issues, stamps, n).pcr_baselines == s.pcr_baselines,
    decreases n,
{
    if n > 0 {
        only_objects_are_mended(s, issues, stamps, (n - 1) as nat);
    }
}

proof fn untouched_object_stays(
    s: StoreState,
    issues: Seq<IssueView>,
    stamps: Seq<Seq<char>>,
    n: nat,
    o: ObjectView,
)
    requires
        s.objects.contains(o),
        n <= issues.len(),
        forall|i: int|
            0 <= i < n ==> (#[trigger] issues[i]).fix_action != (FixView::RemoveOrphanMetadata {
                path: o.path,
            }),
    ensures
        all_fixed(s, issues, stamps, n).objects.contains(o),
    decreases n,
{
    if n > 0 {
        let m = (n - 1) as nat;
        untouched_object_stays(s, issues, stamps, m, o);
        let t = all_fixed(s, issues, stamps, m);
        if let FixView::RemoveOrphanMetadata { path } = issues[m as int].fix_action {
            without_removes::<TpmObject>(t.objects, path);
            let k = choose|k: int| 0 <= k < t.objects.len() && t.objects[k] == o;
            assert(TpmObject::key_of(t.objects[k]) != path);
        }
    }
}

/// An issue that calls for nothing changes nothing, and any other is logged once.
pub proof fn mending_is_logged(
    store: &mut MemoryStore,
    issue: &Issue,
    stamp: &str,
    done: bool,
)
    requires
        call_ensures(fix_at, (store, issue, stamp), done),
    ensures
        done <==> !(issue@.fix_action is NoAutoFix),
        !done ==> final(store)@ == old(store)@,
        done ==> final(store)@.audit_log.len() == old(store)@.audit_log.len() + 1,
        issue@.fix_action matches FixView::RemoveOrphanMetadata { path } ==> lookup::<TpmObject>(
            final(store)@.objects,
            path,
        ) is None,
        issue@.fix_action matches FixView::RemoveOrphanNv { name } ==> lookup::<NvSlot>(
            final(store)@.nv_indices,
            name,
        ) is None,
        issue@.fix_action is MarkDrifted ==> final(store)@.objects == old(store)@.objects,
{
    if let FixView::RemoveOrphanMetadata { path } = issue@.fix_action {
        without_removes::<TpmObject>(old(store)@.objects, path);
    }
    if let FixView::RemoveOrphanNv { name } = issue@.fix_action {
        without_removes::<NvSlot>(old(store)@.nv_indices, name);
    }
}

} // verus!
