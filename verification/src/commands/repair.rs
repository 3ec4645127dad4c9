//! Repair: finding what is wrong with a workspace and mending it.
use vstd::prelude::*;
use vstd::string::*;

use crate::clock::now_stamp;
use crate::diag::{DiagCode, DiagView, Diagnostic, Severity};
use crate::ids::{id_text, uuid_form};
use crate::json::{json_object, object1, text_field, text_view};
use crate::model::{
    BackendStatus, Identity, IdentityView, NvSlot, NvView, ObjectPath, ObjectView, Policy,
    PolicyView, Profile, TpmObject,
};
use crate::store::{active_profile, nv_listing, nv_triples, MemoryStore, StoreState};
use crate::table::{
    get_ref_id, lookup, lookup_id, position_is_first, ref_rows, sorted, sorted_is_ordered, without,
    without_removes,
};
use crate::text::{decimal, field, opt_text, push_choice, push_decimal, push_field, push_number, yes_no};

verus! {

// ---------------------------------------------------------------------------
// Issues
// ---------------------------------------------------------------------------

/// How bad an issue is.
#[derive(Clone, Copy, PartialEq, Eq, Debug, Structural)]
pub enum IssueSeverity {
    Error,
    Warning,
    Info,
}

/// What can be done about an issue without asking.
#[derive(Debug)]
pub enum FixAction {
    RemoveOrphanMetadata { path: ObjectPath },
    RemoveOrphanNv { name: String },
    MarkDrifted { path: ObjectPath },
    NoAutoFix,
}

pub ghost enum FixView {
    RemoveOrphanMetadata { path: Seq<char> },
    RemoveOrphanNv { name: Seq<char> },
    MarkDrifted { path: Seq<char> },
    NoAutoFix,
}

impl View for FixAction {
    type V = FixView;

    open spec fn view(&self) -> FixView {
        match self {
            FixAction::RemoveOrphanMetadata { path } => FixView::RemoveOrphanMetadata {
                path: path@,
            },
            FixAction::RemoveOrphanNv { name } => FixView::RemoveOrphanNv { name: name@ },
            FixAction::MarkDrifted { path } => FixView::MarkDrifted { path: path@ },
            FixAction::NoAutoFix => FixView::NoAutoFix,
        }
    }
}

/// Something that is wrong with a workspace.
#[derive(Debug)]
pub struct Issue {
    pub severity: IssueSeverity,
    pub code: &'static str,
    pub message: String,
    pub object: Option<String>,
    pub remediation: String,
    pub reversible: bool,
    pub fix_action: FixAction,
}

pub ghost struct IssueView {
    pub severity: IssueSeverity,
    pub code: Seq<char>,
    pub message: Seq<char>,
    pub object: Option<Seq<char>>,
    pub remediation: Seq<char>,
    pub reversible: bool,
    pub fix_action: FixView,
}

impl View for Issue {
    type V = IssueView;

    open spec fn view(&self) -> IssueView {
        IssueView {
            severity: self.severity,
            code: self.code@,
            message: self.message@,
            object: opt_text(self.object),
            remediation: self.remediation@,
            reversible: self.reversible,
            fix_action: self.fix_action@,
        }
    }
}

/// The views of a list of issues.
pub open spec fn issue_views(s: Seq<Issue>) -> Seq<IssueView> {
    s.map_values(|i: Issue| i@)
}

fn push_issue(v: &mut Vec<Issue>, i: Issue)
    ensures
        issue_views(final(v)@) == issue_views(old(v)@).push(i@),
{
    v.push(i);
    assert(issue_views(v@) =~= issue_views(old(v)@).push(i@));
}

/// Pieces of text after one another.
fn cat2(a: &str, b: &str) -> (s: String)
    ensures
        s@ == a@ + b@,
{
    let mut s = String::new();
    s.append(a);
    s.append(b);
    assert(s@ =~= a@ + b@);
    s
}

fn cat3(a: &str, b: &str, c: &str) -> (s: String)
    ensures
        s@ == a@ + b@ + c@,
{
    let mut s = String::new();
    s.append(a);
    s.append(b);
    s.append(c);
    assert(s@ =~= a@ + b@ + c@);
    s
}

fn cat5(a: &str, b: &str, c: &str, d: &str, e: &str) -> (s: String)
    ensures
        s@ == a@ + b@ + c@ + d@ + e@,
{
    let mut s = String::new();
    s.append(a);
    s.append(b);
    s.append(c);
    s.append(d);
    s.append(e);
    assert(s@ =~= a@ + b@ + c@ + d@ + e@);
    s
}

/// The backend cannot be used.
pub open spec fn backend_issue(message: Seq<char>) -> IssueView {
    IssueView {
        severity: IssueSeverity::Error,
        code: "REPAIR001"@,
        message,
        object: None,
        remediation: "check TPM device and TCTI configuration"@,
        reversible: false,
        fix_action: FixView::NoAutoFix,
    }
}

/// The issues of the backend.
pub open spec fn backend_issues(status: Result<bool, Seq<char>>) -> Seq<IssueView> {
    match status {
        Ok(available) => if available {
            Seq::empty()
        } else {
            seq![backend_issue("TPM backend is not available"@)]
        },
        Err(e) => seq![backend_issue("cannot reach TPM backend: "@ + e)],
    }
}

/// A key has lost its handle.
pub open spec fn lost_handle(o: ObjectView) -> bool {
    o.handle_blob is None && o.kind.is_key()
}

pub open spec fn handle_issue(o: ObjectView) -> IssueView {
    IssueView {
        severity: IssueSeverity::Warning,
        code: "REPAIR002"@,
        message: "key '"@ + o.path + "' has no handle blob"@,
        object: Some(o.path),
        remediation: "recreate the key or remove stale metadata"@,
        reversible: true,
        fix_action: FixView::RemoveOrphanMetadata { path: o.path },
    }
}

/// The issues of the first `n` objects' handles.
pub open spec fn handle_issues(s: Seq<ObjectView>, n: nat) -> Seq<IssueView>
    decreases n,
{
    if n == 0 {
        Seq::empty()
    } else {
        let before = handle_issues(s, (n - 1) as nat);
        if lost_handle(s[n - 1]) {
            before.push(handle_issue(s[n - 1]))
        } else {
            before
        }
    }
}

/// An object refers to a policy that is gone.
pub open spec fn dangling(o: ObjectView, policies: Seq<PolicyView>) -> bool {
    o.policy_id matches Some(id) && lookup_id::<Policy>(policies, id) is None
}

pub open spec fn dangling_issue(o: ObjectView) -> IssueView {
    IssueView {
        severity: IssueSeverity::Warning,
        code: "REPAIR003"@,
        message: "object '"@ + o.path + "' references policy "@ + uuid_form(o.policy_id->0)
            + " which no longer exists"@,
        object: Some(o.path),
        remediation: "detach the policy reference or recreate the policy"@,
        reversible: false,
        fix_action: FixView::MarkDrifted { path: o.path },
    }
}

/// The issues of the first `n` objects' policies.
pub open spec fn dangling_issues(s: Seq<ObjectView>, policies: Seq<PolicyView>, n: nat) -> Seq<
    IssueView,
>
    decreases n,
{
    if n == 0 {
        Seq::empty()
    } else {
        let before = dangling_issues(s, policies, (n - 1) as nat);
        if dangling(s[n - 1], policies) {
            before.push(dangling_issue(s[n - 1]))
        } else {
            before
        }
    }
}

pub open spec fn profile_issue() -> IssueView {
    IssueView {
        severity: IssueSeverity::Info,
        code: "REPAIR004"@,
        message: "no active profile set despite profiles existing"@,
        object: None,
        remediation: "run `tpm profile set <name>` to activate a profile"@,
        reversible: true,
        fix_action: FixView::NoAutoFix,
    }
}

/// The issues of the profiles.
pub open spec fn profile_issues(s: StoreState) -> Seq<IssueView> {
    if active_profile(s.profiles) is None && s.profiles.len() > 0 {
        seq![profile_issue()]
    } else {
        Seq::empty()
    }
}

/// Nothing was ever written to the NV index of a name.
pub open spec fn unwritten(s: Seq<NvView>, name: Seq<char>) -> bool {
    lookup::<NvSlot>(s, name) matches Some(n) ==> n.data is None
}

pub open spec fn nv_issue(name: Seq<char>) -> IssueView {
    IssueView {
        severity: IssueSeverity::Info,
        code: "REPAIR005"@,
        message: "NV index '"@ + name + "' is defined but has never been written"@,
        object: None,
        remediation: "write data with `tpm nv write "@ + name + " --input <file>`"@,
        reversible: true,
        fix_action: FixView::NoAutoFix,
    }
}

/// The issues of the first `n` NV indices of a listing.
pub open spec fn nv_issues(
    listing: Seq<(Seq<char>, u32, usize)>,
    s: Seq<NvView>,
    n: nat,
) -> Seq<IssueView>
    decreases n,
{
    if n == 0 {
        Seq::empty()
    } else {
        let before = nv_issues(listing, s, (n - 1) as nat);
        if unwritten(s, listing[n - 1].0) {
            before.push(nv_issue(listing[n - 1].0))
        } else {
            before
        }
    }
}

pub open spec fn orphan_issue(i: IdentityView) -> IssueView {
    IssueView {
        severity: IssueSeverity::Error,
        code: "REPAIR006"@,
        message: "identity '"@ + i.name + "' references missing key (id="@ + uuid_form(
            i.key_object_id,
        ) + ")"@,
        object: Some("identity:"@ + i.name),
        remediation: "rotate with `tpm identity rotate "@ + i.name
            + "` or delete with `tpm identity delete "@ + i.name + "`"@,
        reversible: false,
        fix_action: FixView::NoAutoFix,
    }
}

/// The issues of the first `n` identities.
pub open spec fn orphan_issues(
    identities: Seq<IdentityView>,
    objects: Seq<ObjectView>,
    n: nat,
) -> Seq<IssueView>
    decreases n,
{
    if n == 0 {
        Seq::empty()
    } else {
        let before = orphan_issues(identities, objects, (n - 1) as nat);
        let i = identities[n - 1];
        if lookup_id::<TpmObject>(objects, i.key_object_id) is None {
            before.push(orphan_issue(i))
        } else {
            before
        }
    }
}

pub open spec fn fragile_issue(p: PolicyView) -> IssueView {
    IssueView {
        severity: IssueSeverity::Warning,
        code: "REPAIR007"@,
        message: "policy '"@ + p.name + "' is fragile under expected boot events"@,
        object: Some("policy:"@ + p.name),
        remediation: "run `tpm policy fragility "@ + p.name
            + "` for details; consider using higher PCR indices"@,
        reversible: true,
        fix_action: FixView::NoAutoFix,
    }
}

/// The issues of the first `n` policies.
pub open spec fn fragile_issues(policies: Seq<PolicyView>, fragile: Seq<bool>, n: nat) -> Seq<
    IssueView,
>
    decreases n,
{
    if n == 0 {
        Seq::empty()
    } else {
        let before = fragile_issues(policies, fragile, (n - 1) as nat);
        if fragile[n - 1] {
            before.push(fragile_issue(policies[n - 1]))
        } else {
            before
        }
    }
}

/// Everything that is wrong with a workspace, check by check. `fragile` says
/// of each policy, in order of name, whether its rating is high.
pub open spec fn issues_of(
    s: StoreState,
    status: Result<bool, Seq<char>>,
    fragile: Seq<bool>,
) -> Seq<IssueView> {
    let objects = sorted::<TpmObject>(s.objects);
    let identities = sorted::<Identity>(s.identities);
    let policies = sorted::<Policy>(s.policies);
    let nv = nv_listing(s.nv_indices);
    backend_issues(status) + handle_issues(objects, objects.len()) + dangling_issues(
        objects,
        s.policies,
        objects.len(),
    ) + profile_issues(s) + nv_issues(nv, s.nv_indices, nv.len()) + orphan_issues(
        identities,
        objects,
        identities.len(),
    ) + fragile_issues(policies, fragile, policies.len())
}

/// The backend's answer, in plain terms.
pub open spec fn status_view(status: Result<BackendStatus, String>) -> Result<bool, Seq<char>> {
    match status {
        Ok(b) => Ok(b.available),
        Err(e) => Err(e@),
    }
}

fn check_backend(issues: &mut Vec<Issue>, status: &Result<BackendStatus, String>)
    ensures
        issue_views(final(issues)@) == issue_views(old(issues)@) + backend_issues(
            status_view(*status),
        ),
{
    let ghost start = issue_views(issues@);
    let message = match status {
        Ok(b) => if b.available {
            None
        } else {
            Some("TPM backend is not available".to_owned())
        },
        Err(e) => Some(cat2("cannot reach TPM backend: ", e.as_str())),
    };
    match message {
        None => {},
        Some(message) => push_issue(
            issues,
            Issue {
                severity: IssueSeverity::Error,
                code: "REPAIR001",
                message,
                object: None,
                remediation: "check TPM device and TCTI configuration".to_owned(),
                reversible: false,
                fix_action: FixAction::NoAutoFix,
            },
        ),
    }
    assert(issue_views(issues@) =~= start + backend_issues(status_view(*status)));
}

fn check_handles(issues: &mut Vec<Issue>, objects: &Vec<&TpmObject>)
    ensures
        issue_views(final(issues)@) == issue_views(old(issues)@) + handle_issues(
            ref_rows(objects@),
            objects@.len(),
        ),
{
    let ghost start = issue_views(issues@);
    let ghost all = ref_rows(objects@);
    let mut n: usize = 0;
    assert(issue_views(issues@) =~= start + handle_issues(all, 0));
    while n < objects.len()
        invariant
            n <= objects@.len(),
            all == ref_rows(objects@),
            issue_views(issues@) == start + handle_issues(all, n as nat),
        decreases objects@.len() - n,
    {
        let o: &TpmObject = objects[n];
        assert(all[n as int] == o@);
        if o.handle_blob.is_none() && o.kind.key() {
            push_issue(
                issues,
                Issue {
                    severity: IssueSeverity::Warning,
                    code: "REPAIR002",
                    message: cat3("key '", o.path.as_str(), "' has no handle blob"),
                    object: Some(o.path.as_str().to_owned()),
                    remediation: "recreate the key or remove stale metadata".to_owned(),
                    reversible: true,
                    fix_action: FixAction::RemoveOrphanMetadata { path: o.path.copy() },
                },
            );
        }
        n += 1;
        assert(issue_views(issues@) =~= start + handle_issues(all, n as nat));
    }
}

fn check_policies(issues: &mut Vec<Issue>, objects: &Vec<&TpmObject>, store: &MemoryStore)
    ensures
        issue_views(final(issues)@) == issue_views(old(issues)@) + dangling_issues(
            ref_rows(objects@),
            store@.policies,
            objects@.len(),
        ),
{
    let ghost start = issue_views(issues@);
    let ghost all = ref_rows(objects@);
    let mut n: usize = 0;
    assert(issue_views(issues@) =~= start + dangling_issues(all, store@.policies, 0));
    while n < objects.len()
        invariant
            n <= objects@.len(),
            all == ref_rows(objects@),
            issue_views(issues@) == start + dangling_issues(all, store@.policies, n as nat),
        decreases objects@.len() - n,
    {
        let o: &TpmObject = objects[n];
        assert(all[n as int] == o@);
        match o.policy_id {
            Some(id) => {
                if store.get_policy_by_id(id).is_none() {
                    push_issue(
                        issues,
                        Issue {
                            severity: IssueSeverity::Warning,
                            code: "REPAIR003",
                            message: cat5(
                                "object '",
                                o.path.as_str(),
                                "' references policy ",
                                id_text(id).as_str(),
                                " which no longer exists",
                            ),
                            object: Some(o.path.as_str().to_owned()),
                            remediation:
                                "detach the policy reference or recreate the policy".to_owned(),
                            reversible: false,
                            fix_action: FixAction::MarkDrifted { path: o.path.copy() },
                        },
                    );
                }
            },
            None => {},
        }
        n += 1;
        assert(issue_views(issues@) =~= start + dangling_issues(all, store@.policies, n as nat));
    }
}

fn check_profiles(issues: &mut Vec<Issue>, store: &MemoryStore)
    ensures
        issue_views(final(issues)@) == issue_views(old(issues)@) + profile_issues(store@),
{
    let ghost start = issue_views(issues@);
    let profiles = store.list_profiles();
    proof {
        sorted_is_ordered::<Profile>(store@.profiles);
        assert(ref_rows(profiles@).len() == profiles@.len());
    }
    if store.get_active_profile().is_none() && profiles.len() > 0 {
        push_issue(
            issues,
            Issue {
                severity: IssueSeverity::Info,
                code: "REPAIR004",
                message: "no active profile set despite profiles existing".to_owned(),
                object: None,
                remediation: "run `tpm profile set <name>` to activate a profile".to_owned(),
                reversible: true,
                fix_action: FixAction::NoAutoFix,
            },
        );
    }
    assert(issue_views(issues@) =~= start + profile_issues(store@));
}

fn check_nv(issues: &mut Vec<Issue>, store: &MemoryStore)
    ensures
        issue_views(final(issues)@) == issue_views(old(issues)@) + nv_issues(
            nv_listing(store@.nv_indices),
            store@.nv_indices,
            nv_listing(store@.nv_indices).len(),
        ),
{
    let ghost start = issue_views(issues@);
    let ghost all = nv_listing(store@.nv_indices);
    let list = store.list_nv_indices();
    assert(nv_triples(list@).len() == list@.len());
    let mut n: usize = 0;
    assert(issue_views(issues@) =~= start + nv_issues(all, store@.nv_indices, 0));
    while n < list.len()
        invariant
            n <= list@.len(),
            all == nv_triples(list@),
            issue_views(issues@) == start + nv_issues(all, store@.nv_indices, n as nat),
        decreases list@.len() - n,
    {
        let entry = &list[n];
        let name = entry.0.as_str();
        assert(all[n as int].0 == name@);
        if store.nv_read_data(name).is_none() {
            push_issue(
                issues,
                Issue {
                    severity: IssueSeverity::Info,
                    code: "REPAIR005",
                    message: cat3(
                        "NV index '",
                        name,
                        "' is defined but has never been written",
                    ),
                    object: None,
                    remediation: cat3(
                        "write data with `tpm nv write ",
                        name,
                        " --input <file>`",
                    ),
                    reversible: true,
                    fix_action: FixAction::NoAutoFix,
                },
            );
        }
        n += 1;
        assert(issue_views(issues@) =~= start + nv_issues(all, store@.nv_indices, n as nat));
    }
}

fn check_identities(issues: &mut Vec<Issue>, objects: &Vec<&TpmObject>, store: &MemoryStore)
    ensures
        issue_views(final(issues)@) == issue_views(old(issues)@) + orphan_issues(
            sorted::<Identity>(store@.identities),
            ref_rows(objects@),
            sorted::<Identity>(store@.identities).len(),
        ),
{
    let ghost start = issue_views(issues@);
    let list = store.list_identities();
    let ghost all = sorted::<Identity>(store@.identities);
    let ghost objs = ref_rows(objects@);
    assert(ref_rows(list@).len() == list@.len());
    let mut n: usize = 0;
    assert(issue_views(issues@) =~= start + orphan_issues(all, objs, 0));
    while n < list.len()
        invariant
            n <= list@.len(),
            all == ref_rows(list@),
            objs == ref_rows(objects@),
            issue_views(issues@) == start + orphan_issues(all, objs, n as nat),
        decreases list@.len() - n,
    {
        let i: &Identity = list[n];
        assert(all[n as int] == i@);
        if get_ref_id(objects, i.key_object_id).is_none() {
            push_issue(
                issues,
                Issue {
                    severity: IssueSeverity::Error,
                    code: "REPAIR006",
                    message: cat5(
                        "identity '",
                        i.name.as_str(),
                        "' references missing key (id=",
                        id_text(i.key_object_id).as_str(),
                        ")",
                    ),
                    object: Some(cat2("identity:", i.name.as_str())),
                    remediation: cat5(
                        "rotate with `tpm identity rotate ",
                        i.name.as_str(),
                        "` or delete with `tpm identity delete ",
                        i.name.as_str(),
                        "`",
                    ),
                    reversible: false,
                    fix_action: FixAction::NoAutoFix,
                },
            );
        }
        n += 1;
        assert(issue_views(issues@) =~= start + orphan_issues(all, objs, n as nat));
    }
}

fn check_fragility(issues: &mut Vec<Issue>, store: &MemoryStore, fragile: &Vec<bool>)
    requires
        fragile@.len() == store@.policies.len(),
    ensures
        issue_views(final(issues)@) == issue_views(old(issues)@) + fragile_issues(
            sorted::<Policy>(store@.policies),
            fragile@,
            sorted::<Policy>(store@.policies).len(),
        ),
{
    let ghost start = issue_views(issues@);
    let list = store.list_policies();
    let ghost all = sorted::<Policy>(store@.policies);
    proof {
        sorted_is_ordered::<Policy>(store@.policies);
        assert(ref_rows(list@).len() == list@.len());
    }
    let mut n: usize = 0;
    assert(issue_views(issues@) =~= start + fragile_issues(all, fragile@, 0));
    while n < list.len()
        invariant
            n <= list@.len() == fragile@.len(),
            all == ref_rows(list@),
            issue_views(issues@) == start + fragile_issues(all, fragile@, n as nat),
        decreases list@.len() - n,
    {
        let p: &Policy = list[n];
        assert(all[n as int] == p@);
        if fragile[n] {
            push_issue(
                issues,
                Issue {
                    severity: IssueSeverity::Warning,
                    code: "REPAIR007",
                    message: cat3(
                        "policy '",
                        p.name.as_str(),
                        "' is fragile under expected boot events",
                    ),
                    object: Some(cat2("policy:", p.name.as_str())),
                    remediation: cat3(
                        "run `tpm policy fragility ",
                        p.name.as_str(),
                        "` for details; consider using higher PCR indices",
                    ),
                    reversible: true,
                    fix_action: FixAction::NoAutoFix,
                },
            );
        }
        n += 1;
        assert(issue_views(issues@) =~= start + fragile_issues(all, fragile@, n as nat));
    }
}

/// Finds everything that is wrong with a workspace.
pub fn detect_issues(
    store: &MemoryStore,
    status: &Result<BackendStatus, String>,
    fragile: &Vec<bool>,
) -> (issues: Vec<Issue>)
    requires
        fragile@.len() == store@.policies.len(),
    ensures
        issue_views(issues@) == issues_of(store@, status_view(*status), fragile@),
{
    let mut issues: Vec<Issue> = Vec::new();
    assert(issue_views(issues@) =~= Seq::<IssueView>::empty());
    check_backend(&mut issues, status);
    let objects = store.list_objects();
    assert(ref_rows(objects@).len() == objects@.len());
    check_handles(&mut issues, &objects);
    check_policies(&mut issues, &objects, store);
    check_profiles(&mut issues, store);
    check_nv(&mut issues, store);
    check_identities(&mut issues, &objects, store);
    check_fragility(&mut issues, store, fragile);
    assert(issue_views(issues@) =~= issues_of(store@, status_view(*status), fragile@));
    issues
}

// ---------------------------------------------------------------------------
// Mending
// ---------------------------------------------------------------------------

/// The state after an issue was dealt with.
pub open spec fn fixed(s: StoreState, i: IssueView, stamp: Seq<char>) -> StoreState {
    match i.fix_action {
        FixView::RemoveOrphanMetadata { path } => StoreState {
            objects: without::<TpmObject>(s.objects, path),
            ..s
        }.logged(
            "repair.remove_orphan"@,
            Some(path),
            json_object(seq![text_view("reason"@, i.message)]),
            stamp,
        ),
        FixView::RemoveOrphanNv { name } => StoreState {
            nv_indices: without::<NvSlot>(s.nv_indices, name),
            ..s
        }.logged(
            "repair.remove_orphan_nv"@,
            None,
            json_object(seq![text_view("name"@, name)]),
            stamp,
        ),
        FixView::MarkDrifted { path } => s.logged(
            "repair.mark_drifted"@,
            Some(path),
            json_object(seq![text_view("reason"@, i.message)]),
            stamp,
        ),
        FixView::NoAutoFix => s,
    }
}

/// The state after the first `n` issues were dealt with.
pub open spec fn all_fixed(
    s: StoreState,
    issues: Seq<IssueView>,
    stamps: Seq<Seq<char>>,
    n: nat,
) -> StoreState
    decreases n,
{
    if n == 0 {
        s
    } else {
        fixed(all_fixed(s, issues, stamps, (n - 1) as nat), issues[n - 1], stamps[n - 1])
    }
}

/// How many of the first `n` issues could be dealt with.
pub open spec fn fixable(issues: Seq<IssueView>, n: nat) -> nat
    decreases n,
{
    if n == 0 {
        0
    } else {
        fixable(issues, (n - 1) as nat) + (if issues[n - 1].fix_action is NoAutoFix {
            0nat
        } else {
            1
        })
    }
}

/// Deals with one issue; says whether there was anything to do.
pub fn fix_at(store: &mut MemoryStore, issue: &Issue, stamp: &str) -> (done: bool)
    requires
        old(store)@.wf(),
        old(store)@.can_log(),
    ensures
        final(store)@.wf(),
        final(store)@ == fixed(old(store)@, issue@, stamp@),
        done == !(issue@.fix_action is NoAutoFix),
{
    match &issue.fix_action {
        FixAction::RemoveOrphanMetadata { path } => {
            store.delete_object(path);
            let details = object1(text_field("reason", issue.message.as_str()));
            store.log_action_at(
                "repair.remove_orphan",
                Some(path.as_str()),
                details.as_str(),
                stamp,
            );
            true
        },
        FixAction::RemoveOrphanNv { name } => {
            store.delete_nv_index(name.as_str());
            let details = object1(text_field("name", name.as_str()));
            store.log_action_at("repair.remove_orphan_nv", None, details.as_str(), stamp);
            true
        },
        FixAction::MarkDrifted { path } => {
            let details = object1(text_field("reason", issue.message.as_str()));
            store.log_action_at(
                "repair.mark_drifted",
                Some(path.as_str()),
                details.as_str(),
                stamp,
            );
            true
        },
        FixAction::NoAutoFix => false,
    }
}

proof fn fixes_log_little(s: StoreState, issues: Seq<IssueView>, stamps: Seq<Seq<char>>, n: nat)
    requires
        s.next_audit_id + n < i64::MAX,
    ensures
        s.next_audit_id <= all_fixed(s, issues, stamps, n).next_audit_id <= s.next_audit_id + n,
    decreases n,
{
    if n > 0 {
        fixes_log_little(s, issues, stamps, (n - 1) as nat);
    }
}

/// The outcome as it is printed.
pub open spec fn result_text(total: nat, fixed_count: nat) -> Seq<char> {
    "Repair complete.\n"@ + field("  total:   "@, decimal(total)) + field(
        "  fixed:   "@,
        decimal(fixed_count),
    ) + field("  skipped: "@, decimal((total - fixed_count) as nat))
}

proof fn fixes_agree(s: StoreState, issues: Seq<IssueView>, a: Seq<Seq<char>>, b: Seq<Seq<char>>, n: nat)
    requires
        n <= a.len(),
        n <= b.len(),
        forall|i: int| 0 <= i < n ==> a[i] == b[i],
    ensures
        all_fixed(s, issues, a, n) == all_fixed(s, issues, b, n),
    decreases n,
{
    if n > 0 {
        fixes_agree(s, issues, a, b, (n - 1) as nat);
    }
}

/// Deals with every issue that can be dealt with, and prints the outcome.
pub fn apply(store: &mut MemoryStore, issues: &Vec<Issue>) -> (s: String)
    requires
        old(store)@.wf(),
        old(store)@.next_audit_id + issues@.len() < i64::MAX,
    ensures
        final(store)@.wf(),
        issues@.len() == 0 ==> s@ == "No issues found. Nothing to repair.\n"@,
        issues@.len() > 0 ==> s@ == result_text(
            issues@.len(),
            fixable(issue_views(issues@), issues@.len()),
        ),
        exists|stamps: Seq<Seq<char>>|
            stamps.len() == issues@.len() && final(store)@ == #[trigger] all_fixed(
                old(store)@,
                issue_views(issues@),
                stamps,
                issues@.len(),
            ),
{
    let ghost all = issue_views(issues@);
    let ghost mut stamps: Seq<Seq<char>> = Seq::empty();
    if issues.len() == 0 {
        assert(store@ == all_fixed(old(store)@, all, stamps, 0));
        return "No issues found. Nothing to repair.\n".to_owned();
    }
    let mut done: u64 = 0;
    let mut n: usize = 0;
    while n < issues.len()
        invariant
            n <= issues@.len(),
            all == issue_views(issues@),
            stamps.len() == n,
            store@.wf(),
            old(store)@.next_audit_id + issues@.len() < i64::MAX,
            store@ == all_fixed(old(store)@, all, stamps, n as nat),
            done <= n,
            done == fixable(all, n as nat),
        decreases issues@.len() - n,
    {
        proof {
            fixes_log_little(old(store)@, all, stamps, n as nat);
        }
        let stamp = now_stamp();
        assert(all[n as int] == issues@[n as int]@);
        let ghost before = store@;
        if fix_at(store, &issues[n], stamp.as_str()) {
            done += 1;
        }
        proof {
            let longer = stamps.push(stamp@);
            fixes_agree(old(store)@, all, stamps, longer, n as nat);
            stamps = longer;
        }
        n += 1;
    }
    let total: u64 = issues.len() as u64;
    let mut s = String::new();
    s.append("Repair complete.\n");
    push_number(&mut s, "  total:   ", total);
    push_number(&mut s, "  fixed:   ", done);
    push_number(&mut s, "  skipped: ", total - done);
    assert(s@ =~= result_text(issues@.len(), fixable(all, issues@.len())));
    s
}

/// Mending only ever takes objects away.
proof fn fixing_adds_nothing(
    s: StoreState,
    issues: Seq<IssueView>,
    stamps: Seq<Seq<char>>,
    n: nat,
    o: ObjectView,
)
    requires
        all_fixed(s, issues, stamps, n).objects.contains(o),
    ensures
        s.objects.contains(o),
    decreases n,
{
    if n > 0 {
        let before = all_fixed(s, issues, stamps, (n - 1) as nat);
        if let FixView::RemoveOrphanMetadata { path } = issues[n - 1].fix_action {
            without_removes::<TpmObject>(before.objects, path);
            let w = without::<TpmObject>(before.objects, path);
            let k = choose|k: int| 0 <= k < w.len() && w[k] == o;
            assert(before.objects.contains(w[k]));
        }
        fixing_adds_nothing(s, issues, stamps, (n - 1) as nat, o);
    }
}

/// Once an orphan was removed nothing is left at its path.
proof fn fixed_path_stays_empty(
    s: StoreState,
    issues: Seq<IssueView>,
    stamps: Seq<Seq<char>>,
    n: nat,
    i: int,
    o: ObjectView,
)
    requires
        0 <= i < n,
        issues[i].fix_action == (FixView::RemoveOrphanMetadata { path: o.path }),
    ensures
        !all_fixed(s, issues, stamps, n).objects.contains(o),
    decreases n,
{
    let before = all_fixed(s, issues, stamps, (n - 1) as nat);
    if i == n - 1 {
        without_removes::<TpmObject>(before.objects, o.path);
        let w = without::<TpmObject>(before.objects, o.path);
        position_is_first::<TpmObject>(w, o.path);
        if w.contains(o) {
            let k = choose|k: int| 0 <= k < w.len() && w[k] == o;
            assert(w[k].path == o.path);
        }
    } else {
        fixed_path_stays_empty(s, issues, stamps, (n - 1) as nat, i, o);
        if let FixView::RemoveOrphanMetadata { path } = issues[n - 1].fix_action {
            without_removes::<TpmObject>(before.objects, path);
            let w = without::<TpmObject>(before.objects, path);
            if w.contains(o) {
                let k = choose|k: int| 0 <= k < w.len() && w[k] == o;
                assert(before.objects.contains(w[k]));
            }
        }
    }
}

/// Every key without a handle among the first `n` objects has its issue.
proof fn lost_handles_are_found(s: Seq<ObjectView>, n: nat, at: int)
    requires
        0 <= at < n <= s.len(),
        lost_handle(s[at]),
    ensures
        exists|i: int|
            0 <= i < handle_issues(s, n).len() && #[trigger] handle_issues(s, n)[i]
                == handle_issue(s[at]),
    decreases n,
{
    let before = handle_issues(s, (n - 1) as nat);
    if at == n - 1 {
        assert(handle_issues(s, n)[before.len() as int] == handle_issue(s[at]));
    } else {
        lost_handles_are_found(s, (n - 1) as nat, at);
        let i = choose|i: int| 0 <= i < before.len() && #[trigger] before[i] == handle_issue(s[at]);
        assert(handle_issues(s, n)[i] == handle_issue(s[at]));
    }
}

/// After every issue of a workspace was dealt with, no key without a handle is
/// left in it.
pub proof fn repair_removes_lost_keys(
    s: StoreState,
    status: Result<bool, Seq<char>>,
    fragile: Seq<bool>,
    stamps: Seq<Seq<char>>,
    o: ObjectView,
)
    requires
        all_fixed(
            s,
            issues_of(s, status, fragile),
            stamps,
            issues_of(s, status, fragile).len(),
        ).objects.contains(o),
    ensures
        !lost_handle(o),
{
    let issues = issues_of(s, status, fragile);
    if lost_handle(o) {
        fixing_adds_nothing(s, issues, stamps, issues.len(), o);
        let objects = sorted::<TpmObject>(s.objects);
        sorted_is_ordered::<TpmObject>(s.objects);
        broadcast use vstd::seq_lib::group_to_multiset_ensures;

        assert(s.objects.to_multiset().contains(o));
        assert(objects.to_multiset().contains(o));
        assert(objects.contains(o));
        let at = choose|k: int| 0 <= k < objects.len() && objects[k] == o;
        lost_handles_are_found(objects, objects.len(), at);
        let part = handle_issues(objects, objects.len());
        let i = choose|i: int| 0 <= i < part.len() && #[trigger] part[i] == handle_issue(o);
        let shift = backend_issues(status).len();
        assert(issues[shift + i] == part[i]);
        fixed_path_stays_empty(s, issues, stamps, issues.len(), shift + i, o);
    }
}

// ---------------------------------------------------------------------------
// Printing
// ---------------------------------------------------------------------------

pub open spec fn icon(s: IssueSeverity) -> Seq<char> {
    match s {
        IssueSeverity::Error => "ERR "@,
        IssueSeverity::Warning => "WARN"@,
        IssueSeverity::Info => "INFO"@,
    }
}

/// An issue as it is printed.
pub open spec fn issue_text(i: IssueView) -> Seq<char> {
    "  ["@ + icon(i.severity) + "] ["@ + i.code + "] "@ + i.message + "\n"@ + (match i.object {
        Some(o) => field("         object: "@, o),
        None => Seq::empty(),
    }) + field("         fix: "@, i.remediation) + "\n"@
}

pub open spec fn issue_texts(s: Seq<IssueView>, n: nat) -> Seq<char>
    decreases n,
{
    if n == 0 {
        Seq::empty()
    } else {
        issue_texts(s, (n - 1) as nat) + issue_text(s[n - 1])
    }
}

/// A scan as it is printed.
pub open spec fn scan_text(s: Seq<IssueView>) -> Seq<char> {
    if s.len() == 0 {
        "Scan complete. No issues found.\n"@
    } else {
        "Scan complete. "@ + decimal(s.len()) + " issue(s) found:\n\n"@ + issue_texts(s, s.len())
    }
}

fn one_issue(i: &Issue) -> (s: String)
    ensures
        s@ == issue_text(i@),
{
    let mut s = String::new();
    s.append("  [");
    s.append(
        match i.severity {
            IssueSeverity::Error => "ERR ",
            IssueSeverity::Warning => "WARN",
            IssueSeverity::Info => "INFO",
        },
    );
    s.append("] [");
    s.append(i.code);
    s.append("] ");
    s.append(i.message.as_str());
    s.append("\n");
    match &i.object {
        Some(o) => push_field(&mut s, "         object: ", o.as_str()),
        None => {},
    }
    push_field(&mut s, "         fix: ", i.remediation.as_str());
    s.append("\n");
    assert(s@ =~= issue_text(i@));
    s
}

/// Prints the issues that were found.
pub fn scan(issues: &Vec<Issue>) -> (s: String)
    ensures
        s@ == scan_text(issue_views(issues@)),
{
    if issues.len() == 0 {
        return "Scan complete. No issues found.\n".to_owned();
    }
    let ghost all = issue_views(issues@);
    let mut s = String::new();
    s.append("Scan complete. ");
    push_decimal(&mut s, issues.len() as u64);
    s.append(" issue(s) found:\n\n");
    let ghost start = s@;
    assert(start =~= "Scan complete. "@ + decimal(all.len()) + " issue(s) found:\n\n"@);
    let mut n: usize = 0;
    assert(s@ =~= start + issue_texts(all, 0));
    while n < issues.len()
        invariant
            n <= issues@.len(),
            all == issue_views(issues@),
            s@ == start + issue_texts(all, n as nat),
        decreases issues@.len() - n,
    {
        s.append(one_issue(&issues[n]).as_str());
        n += 1;
        assert(s@ =~= start + issue_texts(all, n as nat));
    }
    s
}

/// What is said besides, where a scan found something.
pub fn scan_warning(count: usize) -> (s: String)
    ensures
        count == 0 ==> s@ == Seq::<char>::empty(),
        count > 0 ==> s@ == "\n"@ + (DiagView {
            suggestions: seq![
                "run `tpm repair plan` to see proposed fixes"@,
                "run `tpm repair apply` to fix automatically"@,
            ],
            ..DiagView::plain(
                Severity::Warning,
                DiagCode::E0006,
                decimal(count as nat) + " issue(s) detected"@,
            )
        }).text() + "\n"@,
{
    let mut s = String::new();
    if count == 0 {
        return s;
    }
    let mut m = String::new();
    push_decimal(&mut m, count as u64);
    m.append(" issue(s) detected");
    assert(m@ =~= decimal(count as nat) + " issue(s) detected"@);
    let d = Diagnostic::warning(DiagCode::E0006, m.as_str()).with_suggestion(
        "run `tpm repair plan` to see proposed fixes",
    ).with_suggestion("run `tpm repair apply` to fix automatically");
    assert(d@.suggestions =~= seq![
        "run `tpm repair plan` to see proposed fixes"@,
        "run `tpm repair apply` to fix automatically"@,
    ]);
    s.append("\n");
    s.append(d.render_text().as_str());
    s.append("\n");
    assert(s@ =~= "\n"@ + d@.text() + "\n"@);
    s
}

/// A step of a plan as it is printed.
pub open spec fn step_text(n: nat, i: IssueView) -> Seq<char> {
    "  "@ + decimal(n) + ". "@ + i.remediation + "\n"@ + (match i.object {
        Some(o) => field("     target: "@, o),
        None => Seq::empty(),
    }) + field("     reversible: "@, yes_no(i.reversible)) + "\n"@
}

pub open spec fn step_texts(s: Seq<IssueView>, n: nat) -> Seq<char>
    decreases n,
{
    if n == 0 {
        Seq::empty()
    } else {
        step_texts(s, (n - 1) as nat) + step_text(n, s[n - 1])
    }
}

/// A plan as it is printed.
pub open spec fn plan_text(s: Seq<IssueView>) -> Seq<char> {
    if s.len() == 0 {
        "No issues found. Workspace is healthy.\n"@
    } else {
        "Repair plan ("@ + decimal(s.len()) + " step(s)):\n\n"@ + step_texts(s, s.len())
    }
}

fn one_step(n: u64, i: &Issue) -> (s: String)
    ensures
        s@ == step_text(n as nat, i@),
{
    let mut s = String::new();
    s.append("  ");
    push_decimal(&mut s, n);
    s.append(". ");
    s.append(i.remediation.as_str());
    s.append("\n");
    match &i.object {
        Some(o) => push_field(&mut s, "     target: ", o.as_str()),
        None => {},
    }
    push_choice(&mut s, "     reversible: ", i.reversible);
    s.append("\n");
    assert(s@ =~= step_text(n as nat, i@));
    s
}

/// Prints the steps that would mend the workspace.
pub fn plan(issues: &Vec<Issue>) -> (s: String)
    ensures
        s@ == plan_text(issue_views(issues@)),
{
    if issues.len() == 0 {
        return "No issues found. Workspace is healthy.\n".to_owned();
    }
    let ghost all = issue_views(issues@);
    let mut s = String::new();
    s.append("Repair plan (");
    push_decimal(&mut s, issues.len() as u64);
    s.append(" step(s)):\n\n");
    let ghost start = s@;
    assert(start =~= "Repair plan ("@ + decimal(all.len()) + " step(s)):\n\n"@);
    let mut n: usize = 0;
    assert(s@ =~= start + step_texts(all, 0));
    while n < issues.len()
        invariant
            n <= issues@.len(),
            all == issue_views(issues@),
            s@ == start + step_texts(all, n as nat),
        decreases issues@.len() - n,
    {
        let number: u64 = n as u64 + 1;
        s.append(one_step(number, &issues[n]).as_str());
        n += 1;
        assert(s@ =~= start + step_texts(all, n as nat));
    }
    s
}

} // verus!
