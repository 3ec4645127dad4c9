//! The state of the TPM and of the workspace at a glance.
use vstd::prelude::*;
use vstd::string::*;

use crate::commands::common::{class_list, objects_of, ObjectClass};
use crate::commands::repair::{dangling, lost_handle};
use crate::model::{BackendStatus, ObjectView, Policy, PolicyView, Profile, TpmObject};
use crate::store::{active_profile, MemoryStore, StoreState};
use crate::table::{get_ref_id, ref_rows, sorted};
use crate::text::{
    decimal, field, lines, push_choice, push_decimal, push_field, push_lines, push_number, views,
    yes_no,
};

verus! {

// ---------------------------------------------------------------------------
// Health
// ---------------------------------------------------------------------------

/// How well a workspace is.
#[derive(Debug)]
pub struct HealthScore {
    pub posture: String,
    pub score: u8,
    pub issues: Vec<String>,
}

/// How many of the first `n` objects are keys without a handle.
pub open spec fn lost_count(s: Seq<ObjectView>, n: nat) -> nat
    decreases n,
{
    if n == 0 {
        0
    } else {
        lost_count(s, (n - 1) as nat) + if lost_handle(s[n - 1]) {
            1nat
        } else {
            0
        }
    }
}

/// How many of the first `n` objects refer to a policy that is gone.
pub open spec fn dangling_count(s: Seq<ObjectView>, policies: Seq<PolicyView>, n: nat) -> nat
    decreases n,
{
    if n == 0 {
        0
    } else {
        dangling_count(s, policies, (n - 1) as nat) + if dangling(s[n - 1], policies) {
            1nat
        } else {
            0
        }
    }
}

/// What a finding takes off the score.
pub open spec fn penalty(found: bool, points: int) -> int {
    if found {
        points
    } else {
        0
    }
}

/// The score, out of a hundred.
pub open spec fn score_of(available: bool, has_profile: bool, lost: nat, hanging: nat) -> int {
    100 - penalty(!available, 40) - penalty(!has_profile, 10) - penalty(lost > 0, 15) - penalty(
        hanging > 0,
        10,
    )
}

/// What a score amounts to.
pub open spec fn posture_of(score: int) -> Seq<char> {
    if score >= 90 {
        "healthy"@
    } else if score >= 70 {
        "degraded"@
    } else if score >= 40 {
        "warning"@
    } else {
        "critical"@
    }
}

/// One finding, if it was made.
pub open spec fn finding(found: bool, text: Seq<char>) -> Seq<Seq<char>> {
    if found {
        seq![text]
    } else {
        Seq::empty()
    }
}

/// The findings.
pub open spec fn findings(available: bool, has_profile: bool, lost: nat, hanging: nat) -> Seq<
    Seq<char>,
> {
    finding(!available, "TPM backend unavailable"@) + finding(
        !has_profile,
        "no active profile set"@,
    ) + finding(lost > 0, decimal(lost) + " key(s) missing handle blobs"@) + finding(
        hanging > 0,
        decimal(hanging) + " object(s) reference deleted policies"@,
    )
}

/// The health of a workspace with these objects and policies.
pub open spec fn healthy_as(
    h: HealthScore,
    available: bool,
    has_profile: bool,
    objects: Seq<ObjectView>,
    policies: Seq<PolicyView>,
) -> bool {
    let lost = lost_count(objects, objects.len());
    let hanging = dangling_count(objects, policies, objects.len());
    &&& h.score == score_of(available, has_profile, lost, hanging)
    &&& h.posture@ == posture_of(h.score as int)
    &&& views(h.issues@) == findings(available, has_profile, lost, hanging)
}

fn count_lost(objects: &Vec<&TpmObject>) -> (c: usize)
    ensures
        c == lost_count(ref_rows(objects@), objects@.len()),
{
    let ghost all = ref_rows(objects@);
    let mut c: usize = 0;
    let mut i: usize = 0;
    while i < objects.len()
        invariant
            c <= i <= objects@.len(),
            all == ref_rows(objects@),
            c == lost_count(all, i as nat),
        decreases objects@.len() - i,
    {
        let o: &TpmObject = objects[i];
        assert(all[i as int] == o@);
        if o.kind.key() && o.handle_blob.is_none() {
            c += 1;
        }
        i += 1;
    }
    c
}

fn count_dangling(objects: &Vec<&TpmObject>, policies: &Vec<&Policy>) -> (c: usize)
    ensures
        c == dangling_count(ref_rows(objects@), ref_rows(policies@), objects@.len()),
{
    let ghost all = ref_rows(objects@);
    let ghost rules = ref_rows(policies@);
    let mut c: usize = 0;
    let mut i: usize = 0;
    while i < objects.len()
        invariant
            c <= i <= objects@.len(),
            all == ref_rows(objects@),
            rules == ref_rows(policies@),
            c == dangling_count(all, rules, i as nat),
        decreases objects@.len() - i,
    {
        let o: &TpmObject = objects[i];
        assert(all[i as int] == o@);
        match o.policy_id {
            Some(id) => {
                if get_ref_id(policies, id).is_none() {
                    c += 1;
                }
            },
            None => {},
        }
        i += 1;
    }
    c
}

fn counted(n: usize, text: &str) -> (s: String)
    ensures
        s@ == decimal(n as nat) + text@,
{
    let mut s = String::new();
    push_decimal(&mut s, n as u64);
    s.append(text);
    assert(s@ =~= decimal(n as nat) + text@);
    s
}

/// Computes how well a workspace is.
pub fn compute_health(
    backend_available: bool,
    objects: &Vec<&TpmObject>,
    policies: &Vec<&Policy>,
    active_profile: Option<&Profile>,
) -> (h: HealthScore)
    ensures
        healthy_as(
            h,
            backend_available,
            active_profile is Some,
            ref_rows(objects@),
            ref_rows(policies@),
        ),
{
    let mut score: i32 = 100;
    let mut issues: Vec<String> = Vec::new();
    if !backend_available {
        score -= 40;
        issues.push("TPM backend unavailable".to_owned());
    }
    if active_profile.is_none() {
        score -= 10;
        issues.push("no active profile set".to_owned());
    }
    let orphan_keys: usize = count_lost(objects);
    if orphan_keys > 0 {
        score -= 15;
        issues.push(counted(orphan_keys, " key(s) missing handle blobs"));
    }
    let hanging: usize = count_dangling(objects, policies);
    if hanging > 0 {
        score -= 10;
        issues.push(counted(hanging, " object(s) reference deleted policies"));
    }
    assert(views(issues@) =~= findings(
        backend_available,
        active_profile is Some,
        orphan_keys as nat,
        hanging as nat,
    ));
    let posture = if score >= 90 {
        "healthy"
    } else if score >= 70 {
        "degraded"
    } else if score >= 40 {
        "warning"
    } else {
        "critical"
    };
    HealthScore { posture: posture.to_owned(), score: score as u8, issues }
}

/// A score stays within a hundred points and tells whether anything was found.
pub proof fn score_tells_findings(available: bool, has_profile: bool, lost: nat, hanging: nat)
    ensures
        25 <= score_of(available, has_profile, lost, hanging) <= 100,
        score_of(available, has_profile, lost, hanging) == 100 <==> findings(
            available,
            has_profile,
            lost,
            hanging,
        ).len() == 0,
{
}

/// A workspace without an available TPM is never healthy.
pub proof fn unavailable_is_not_healthy(has_profile: bool, lost: nat, hanging: nat)
    ensures
        posture_of(score_of(false, has_profile, lost, hanging)) != "healthy"@,
{
    reveal_strlit("healthy");
    reveal_strlit("warning");
    reveal_strlit("critical");
    assert("warning"@[0] != "healthy"@[0]);
    assert("critical"@[0] != "healthy"@[0]);
}

// ---------------------------------------------------------------------------
// The report
// ---------------------------------------------------------------------------

/// The state of the TPM and of the workspace as it is printed.
pub open spec fn status_text(b: BackendStatus, s: StoreState, h: HealthScore) -> Seq<char> {
    "TPM Status\n"@ + field("  backend:      "@, b.backend_type@) + field(
        "  manufacturer: "@,
        b.manufacturer@,
    ) + field("  firmware:     "@, b.firmware_version@) + field(
        "  available:    "@,
        yes_no(b.available),
    ) + "\nWorkspace\n"@ + field("  objects:  "@, decimal(s.objects.len())) + field(
        "  keys:     "@,
        decimal(class_list(s, ObjectClass::Key).len()),
    ) + field("  secrets:  "@, decimal(class_list(s, ObjectClass::Secret).len())) + field(
        "  policies: "@,
        decimal(s.policies.len()),
    ) + field(
        "  profile:  "@,
        match active_profile(s.profiles) {
            Some(p) => p.name,
            None => "(none)"@,
        },
    ) + "\nHealth: "@ + h.posture@ + " ("@ + decimal(h.score as nat) + "/100)\n"@ + lines(
        "  - "@,
        h.issues@,
    )
}

/// Prints the state of the TPM and of the workspace.
pub fn run(store: &MemoryStore, status: &BackendStatus) -> (r: (String, HealthScore))
    ensures
        healthy_as(
            r.1,
            status.available,
            active_profile(store@.profiles) is Some,
            sorted::<TpmObject>(store@.objects),
            sorted::<Policy>(store@.policies),
        ),
        r.0@ == status_text(*status, store@, r.1),
{
    let objects = store.list_objects();
    let policies = store.list_policies();
    let keys = objects_of(store, ObjectClass::Key);
    let secrets = objects_of(store, ObjectClass::Secret);
    proof {
        crate::table::sorted_is_ordered::<TpmObject>(store@.objects);
        crate::table::sorted_is_ordered::<Policy>(store@.policies);
        assert(ref_rows(objects@).len() == objects@.len());
        assert(ref_rows(policies@).len() == policies@.len());
        assert(ref_rows(keys@).len() == keys@.len());
        assert(ref_rows(secrets@).len() == secrets@.len());
    }
    let active = store.get_active_profile();
    let h = compute_health(status.available, &objects, &policies, active);
    let mut s = String::new();
    s.append("TPM Status\n");
    push_field(&mut s, "  backend:      ", status.backend_type.as_str());
    push_field(&mut s, "  manufacturer: ", status.manufacturer.as_str());
    push_field(&mut s, "  firmware:     ", status.firmware_version.as_str());
    push_choice(&mut s, "  available:    ", status.available);
    s.append("\nWorkspace\n");
    push_number(&mut s, "  objects:  ", objects.len() as u64);
    push_number(&mut s, "  keys:     ", keys.len() as u64);
    push_number(&mut s, "  secrets:  ", secrets.len() as u64);
    push_number(&mut s, "  policies: ", policies.len() as u64);
    push_field(
        &mut s,
        "  profile:  ",
        match active {
            Some(p) => p.name.as_str(),
            None => "(none)",
        },
    );
    s.append("\nHealth: ");
    s.append(h.posture.as_str());
    s.append(" (");
    push_decimal(&mut s, h.score as u64);
    s.append("/100)\n");
    push_lines(&mut s, "  - ", &h.issues);
    assert(s@ =~= status_text(*status, store@, h));
    (s, h)
}

} // verus!
