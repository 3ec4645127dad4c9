//! The health of a workspace, its first profile and its log in print.
use vstd::prelude::*;

use crate::commands::init::run_at;
use crate::commands::repair::{dangling, lost_handle};
use crate::commands::status::{compute_health, dangling_count, findings, lost_count, HealthScore};
use crate::model::{BackendStatus, ObjectView, Policy, PolicyView, Profile, TpmObject};
use crate::store::MemoryStore;
use crate::table::ref_rows;
use crate::text::views;

verus! {

proof fn lost_count_tells(s: Seq<ObjectView>, n: nat)
    requires
        n <= s.len(),
    ensures
        lost_count(s, n) > 0 <==> exists|i: int| 0 <= i < n && lost_handle(#[trigger] s[i]),
    decreases n,
{
    if n > 0 {
        lost_count_tells(s, (n - 1) as nat);
        assert(lost_handle(s[n - 1]) ==> lost_count(s, n) > 0);
    }
}

proof fn dangling_count_tells(s: Seq<ObjectView>, policies: Seq<PolicyView>, n: nat)
    requires
        n <= s.len(),
    ensures
        dangling_count(s, policies, n) > 0 <==> exists|i: int|
            0 <= i < n && dangling(#[trigger] s[i], policies),
    decreases n,
{
    if n > 0 {
        dangling_count_tells(s, policies, (n - 1) as nat);
        assert(dangling(s[n - 1], policies) ==> dangling_count(s, policies, n) > 0);
    }
}

/// A workspace scores a hundred just where its TPM is available, a profile is
/// active, every key has its handle and every object's policy is there; then
/// nothing is found wrong with it.
pub proof fn full_score_means_nothing_is_wrong(
    available: bool,
    objects: &Vec<&TpmObject>,
    policies: &Vec<&Policy>,
    profile: Option<&Profile>,
    h: HealthScore,
)
    requires
        call_ensures(compute_health, (available, objects, policies, profile), h),
    ensures
        ({
            let all = ref_rows(objects@);
            let known = ref_rows(policies@);
            h.score == 100 <==> available && profile is Some && (forall|i: int|
                0 <= i < all.len() ==> ((#[trigger] all[i]).kind.is_key() ==> all[i].handle_blob
                    is Some)) && (forall|i: int|
                0 <= i < all.len() ==> !dangling(#[trigger] all[i], known))
        }),
        h.issues@.len() == 0 <==> h.score == 100,
        h.score <= 100,
{
    let all = ref_rows(objects@);
    let known = ref_rows(policies@);
    lost_count_tells(all, all.len());
    dangling_count_tells(all, known, all.len());
    let lost = lost_count(all, all.len());
    let hanging = dangling_count(all, known, all.len());
    assert(views(h.issues@).len() == h.issues@.len());
    assert(findings(available, profile is Some, lost, hanging).len() == (if available {
        0int
    } else {
        1
    }) + (if profile is Some {
        0int
    } else {
        1
    }) + (if lost > 0 {
        1int
    } else {
        0
    }) + (if hanging > 0 {
        1int
    } else {
        0
    }));
    if h.score == 100 {
        assert forall|i: int| 0 <= i < all.len() implies ((#[trigger] all[i]).kind.is_key()
            ==> all[i].handle_blob is Some) by {
            assert(!lost_handle(all[i]));
        }
    }
}

/// An unavailable TPM costs forty points and a missing profile ten, whatever
/// else is the matter; and each is one finding more.
pub proof fn each_fault_costs_its_points(
    objects: &Vec<&TpmObject>,
    policies: &Vec<&Policy>,
    profile: Option<&Profile>,
    available: bool,
    up: HealthScore,
    down: HealthScore,
    with: HealthScore,
    without: HealthScore,
)
    requires
        call_ensures(compute_health, (true, objects, policies, profile), up),
        call_ensures(compute_health, (false, objects, policies, profile), down),
        call_ensures(compute_health, (available, objects, policies, profile), with),
        call_ensures(compute_health, (available, objects, policies, None::<&Profile>), without),
    ensures
        up.score == down.score + 40,
        down.issues@.len() == up.issues@.len() + 1,
        profile is Some ==> with.score == without.score + 10 && without.issues@.len()
            == with.issues@.len() + 1,
{
    assert(views(up.issues@).len() == up.issues@.len());
    assert(views(down.issues@).len() == down.issues@.len());
    assert(views(with.issues@).len() == with.issues@.len());
    assert(views(without.issues@).len() == without.issues@.len());
}

/// The posture follows the score: healthy from ninety points, degraded from
/// seventy, a warning from forty, and critical below.
pub proof fn posture_follows_the_score(
    available: bool,
    objects: &Vec<&TpmObject>,
    policies: &Vec<&Policy>,
    profile: Option<&Profile>,
    h: HealthScore,
)
    requires
        call_ensures(compute_health, (available, objects, policies, profile), h),
    ensures
        h.posture@ == "healthy"@ <==> h.score >= 90,
        h.posture@ == "degraded"@ <==> 70 <= h.score < 90,
        h.posture@ == "warning"@ <==> 40 <= h.score < 70,
        h.posture@ == "critical"@ <==> h.score < 40,
        !available ==> h.posture@ != "healthy"@ && h.posture@ != "degraded"@,
{
    reveal_strlit("healthy");
    reveal_strlit("degraded");
    reveal_strlit("warning");
    reveal_strlit("critical");
    assert("healthy"@[0] != "warning"@[0]);
    assert("degraded"@[0] != "critical"@[0]);
    assert("healthy"@.len() == 7 && "warning"@.len() == 7 && "degraded"@.len() == 8
        && "critical"@.len() == 8);
}

/// A workspace that had no profile has the one that was asked for afterwards,
/// and it is active; one that had a profile stays as it was.
pub proof fn first_profile_is_active(
    store: &mut MemoryStore,
    status: &BackendStatus,
    store_path: &str,
    name: &str,
    stamp: &str,
    s: String,
    active: Option<&Profile>,
)
    requires
        call_ensures(run_at, (store, status, store_path, Some(name), stamp), s),
        call_ensures(MemoryStore::get_active_profile, (&*final(store),), active),
    ensures
        old(store)@.profiles.len() == 0 ==> (active matches Some(p) && p@.name == name@
            && p@.is_active) && final(store)@.profiles.len() == 1 && final(store)@.audit_log.len()
            == old(store)@.audit_log.len() + 1,
        old(store)@.profiles.len() > 0 ==> final(store)@ == old(store)@,
        final(store)@.objects == old(store)@.objects
            && final(store)@.policies == old(store)@.policies
            && final(store)@.identities == old(store)@.identities,
{
    if old(store)@.profiles.len() == 0 {
        crate::commands::init::new_workspace_is_active(old(store)@, Some(name@), stamp@);
    }
}

} // verus!
