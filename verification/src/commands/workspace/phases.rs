//! The order of an import: profiles, policies, keys, NV indices, identities.
//!
//! Who runs an import has the TPM create the keys that it asks for and hands
//! their handles back; everything else happens here.
use vstd::prelude::*;
use vstd::string::*;

use crate::commands::workspace::restore::{imported, Outside};
use crate::commands::workspace::{
    chosen, fresh_report, identities_done, import, import_identities, import_key,
    import_key_check, import_key_skip, import_nv, import_policies, import_profiles, key_decision,
    key_step, keys_done, nv_done, policies_done, profiles_done, warned, ExportedNv,
    ExportedObject, ExportedPolicy, ExportedProfile, IdentityMade, ImportReport, KeyDecision,
    KeyDecisionView, KeyMade, ReportView, WorkspaceSnapshot,
};
use crate::failure::Failure;
use crate::ids::uuid_value;
use crate::model::{Algorithm, ObjectKind, ObjectPath, ProfileView};
use crate::store::{MemoryStore, StoreState};
use crate::text::decimal;

verus! {

/// What an import does next.
#[derive(Debug)]
pub enum ImportNext {
    /// The TPM has to create the key of the object with this number.
    Create { index: usize, path: ObjectPath, kind: ObjectKind, algorithm: Algorithm },
    /// Everything was imported.
    Finish,
}

/// The report after an object that gets no key.
pub open spec fn skipped(r: ReportView, d: KeyDecisionView) -> ReportView {
    match d {
        KeyDecisionView::Warn(w) => warned(r, w),
        _ => r,
    }
}

/// The report after the objects from number `from` on that get no key, up to
/// the first that needs one, and the number of that one.
pub open spec fn passed_over(
    s: StoreState,
    r: ReportView,
    eos: Seq<ExportedObject>,
    from: nat,
) -> (ReportView, nat)
    decreases eos.len() - from,
{
    if from >= eos.len() || key_decision(s, eos[from as int]) is Create {
        (r, from)
    } else {
        passed_over(s, skipped(r, key_decision(s, eos[from as int])), eos, from + 1)
    }
}

/// What an import does from object `from` on, until it needs a key or is done.
pub open spec fn goes_on(
    at: (StoreState, ReportView),
    w: WorkspaceSnapshot,
    from: nat,
    made: Seq<IdentityMade>,
    after: StoreState,
    report: ReportView,
    next: ImportNext,
) -> bool {
    let (s, r) = at;
    let (r1, k) = passed_over(s, r, w.objects@, from);
    if k < w.objects@.len() {
        &&& after == s
        &&& report == r1
        &&& next matches ImportNext::Create { index, path, kind, algorithm } && index == k
            && key_decision(s, w.objects@[k as int]) == (KeyDecisionView::Create {
            path: path@,
            kind,
            algorithm,
        })
    } else {
        let (s2, r2) = nv_done(s, r1, w.nv_indices@, w.nv_indices@.len());
        &&& (after, report) == identities_done(
            s2,
            r2,
            w.version,
            w.identities@,
            made,
            w.identities@.len(),
        )
        &&& next is Finish
    }
}

/// What came from outside for the identities fits the snapshot.
pub open spec fn identities_fit(made: Seq<IdentityMade>, w: WorkspaceSnapshot) -> bool {
    &&& made.len() == w.identities@.len()
    &&& forall|i: int|
        0 <= i < made.len() ==> chosen(w.identities@[i].id@, (#[trigger] made[i]).id)
}

/// A report in which nothing is counted beyond object `n`.
pub open spec fn counts_up_to(r: ReportView, n: nat) -> bool {
    r.keys <= n && r.nv == 0 && r.identities == 0
}

proof fn passing_over_counts_nothing(
    s: StoreState,
    r: ReportView,
    eos: Seq<ExportedObject>,
    from: nat,
)
    requires
        from <= eos.len(),
    ensures
        ({
            let (r1, k) = passed_over(s, r, eos, from);
            &&& from <= k <= eos.len()
            &&& r1.keys == r.keys && r1.nv == r.nv && r1.identities == r.identities
            &&& k < eos.len() ==> key_decision(s, eos[k as int]) is Create
        }),
    decreases eos.len() - from,
{
    if from < eos.len() && !(key_decision(s, eos[from as int]) is Create) {
        passing_over_counts_nothing(
            s,
            skipped(r, key_decision(s, eos[from as int])),
            eos,
            from + 1,
        );
    }
}

fn advance(
    store: &mut MemoryStore,
    report: &mut ImportReport,
    w: &WorkspaceSnapshot,
    from: usize,
) -> (next: ImportNext)
    requires
        old(store)@.wf(),
        from <= w.objects@.len(),
        counts_up_to(old(report)@, from as nat),
    ensures
        final(store)@.wf(),
        exists|made: Seq<IdentityMade>|
            identities_fit(made, *w) && #[trigger] goes_on(
                (old(store)@, old(report)@),
                *w,
                from as nat,
                made,
                final(store)@,
                final(report)@,
                next,
            ),
        next matches ImportNext::Create { index, .. } ==> counts_up_to(
            final(report)@,
            index as nat,
        ),
{
    let ghost s = store@;
    let ghost r = report@;
    let mut i: usize = from;
    while i < w.objects.len()
        invariant
            from <= i <= w.objects@.len(),
            store@ == s,
            s == old(store)@,
            s.wf(),
            r == old(report)@,
            counts_up_to(report@, i as nat),
            passed_over(s, r, w.objects@, from as nat) == passed_over(
                s,
                report@,
                w.objects@,
                i as nat,
            ),
        decreases w.objects@.len() - i,
    {
        let ghost before = report@;
        match import_key_check(store, &w.objects[i]) {
            KeyDecision::Create { path, kind, algorithm } => {
                let next = ImportNext::Create { index: i, path, kind, algorithm };
                proof {
                    let made = Seq::new(
                        w.identities@.len(),
                        |n: int|
                            IdentityMade {
                                id: fitting(w.identities@[n].id@),
                                created_at: Seq::empty(),
                            },
                    );
                    assert(identities_fit(made, *w));
                    assert(goes_on((s, r), *w, from as nat, made, store@, report@, next));
                }
                return next;
            },
            d => {
                import_key_skip(report, d);
                assert(report@ == skipped(before, key_decision(s, w.objects@[i as int])));
            },
        }
        i += 1;
    }
    let ghost passed = report@;
    import_nv(store, report, &w.nv_indices);
    proof {
        nv_counts_only_nv(s, passed, w.nv_indices@, w.nv_indices@.len());
    }
    let ghost s2 = store@;
    let ghost r2 = report@;
    import_identities(store, report, w.version, &w.identities);
    let next = ImportNext::Finish;
    proof {
        let made = choose|made: Seq<IdentityMade>|
            made.len() == w.identities@.len() && (forall|i: int|
                0 <= i < made.len() ==> chosen(w.identities@[i].id@, (#[trigger] made[i]).id))
                && (store@, report@) == #[trigger] identities_done(
                s2,
                r2,
                w.version,
                w.identities@,
                made,
                w.identities@.len(),
            );
        assert(identities_fit(made, *w));
        assert(goes_on((s, r), *w, from as nat, made, store@, report@, next));
    }
    next
}

/// An identifier that a record of a snapshot could get.
spec fn fitting(text: Seq<char>) -> u128 {
    match uuid_value(text) {
        Some(id) => id,
        None => 0,
    }
}

proof fn nv_counts_only_nv(
    s: StoreState,
    r: ReportView,
    ens: Seq<ExportedNv>,
    n: nat,
)
    ensures
        nv_done(s, r, ens, n).1.identities == r.identities,
    decreases n,
{
    if n > 0 {
        nv_counts_only_nv(s, r, ens, (n - 1) as nat);
    }
}

/// What the first phases do: profiles and policies.
pub open spec fn prepared(
    s: StoreState,
    source: Seq<char>,
    w: WorkspaceSnapshot,
    policy_ids: Seq<u128>,
) -> (StoreState, ReportView) {
    let r = fresh_report(source, w.version);
    let (s1, r1) = profiles_done(s, r, s.profiles, w.profiles@, w.profiles@.len());
    policies_done(s1, r1, w.version, w.policies@, policy_ids, w.policies@.len())
}

/// The identifiers of imported policies fit the snapshot.
pub open spec fn policies_fit(ids: Seq<u128>, w: WorkspaceSnapshot) -> bool {
    &&& ids.len() == w.policies@.len()
    &&& forall|i: int| 0 <= i < ids.len() ==> chosen(w.policies@[i].id@, #[trigger] ids[i])
}

/// How far an import gets until it needs its first key or is done.
pub open spec fn started(
    s: StoreState,
    source: Seq<char>,
    w: WorkspaceSnapshot,
    after: StoreState,
    report: ReportView,
    next: ImportNext,
) -> bool {
    &&& exists|ids: Seq<u128>, made: Seq<IdentityMade>|
        policies_fit(ids, w) && identities_fit(made, w) && #[trigger] goes_on(
            prepared(s, source, w, ids),
            w,
            0,
            made,
            after,
            report,
            next,
        )
    &&& next matches ImportNext::Create { index, .. } ==> counts_up_to(report, index as nat)
}

/// Begins an import and goes on until it needs a key or is done.
pub fn import_start(store: &mut MemoryStore, source: &str, w: &WorkspaceSnapshot) -> (r: Result<
    (ImportReport, ImportNext),
    Failure,
>)
    requires
        old(store)@.wf(),
    ensures
        final(store)@.wf(),
        match r {
            Ok((report, next)) => (w.version == 1 || w.version == 2) && started(
                old(store)@,
                source@,
                *w,
                final(store)@,
                report@,
                next,
            ),
            Err(e) => w.version != 1 && w.version != 2 && final(store)@ == old(store)@ && e@
                == "[TPM0803] unsupported workspace snapshot version: "@ + decimal(
                w.version as nat,
            ) + " (expected 1 or 2)"@,
        },
{
    let mut report = import(source, w.version)?;
    let ghost s = store@;
    let ghost r = report@;
    import_profiles(store, &mut report, &w.profiles);
    proof {
        profiles_count_only_profiles(s, r, s.profiles, w.profiles@, w.profiles@.len());
    }
    let ghost s1 = store@;
    let ghost r1 = report@;
    import_policies(store, &mut report, w.version, &w.policies);
    let ghost ids = choose|ids: Seq<u128>|
        ids.len() == w.policies@.len() && (forall|i: int|
            0 <= i < ids.len() ==> chosen(w.policies@[i].id@, #[trigger] ids[i])) && (
        store@,
        report@,
        ) == #[trigger] policies_done(s1, r1, w.version, w.policies@, ids, w.policies@.len());
    proof {
        policies_count_only_policies(s1, r1, w.version, w.policies@, ids, w.policies@.len());
        assert(policies_fit(ids, *w));
        assert((store@, report@) == prepared(s, source@, *w, ids));
    }
    let ghost at = (store@, report@);
    let next = advance(store, &mut report, w, 0);
    proof {
        let made = choose|made: Seq<IdentityMade>|
            identities_fit(made, *w) && #[trigger] goes_on(
                at,
                *w,
                0,
                made,
                store@,
                report@,
                next,
            );
        assert(goes_on(prepared(s, source@, *w, ids), *w, 0, made, store@, report@, next));
        assert(started(s, source@, *w, store@, report@, next));
    }
    Ok((report, next))
}

proof fn profiles_count_only_profiles(
    s: StoreState,
    r: ReportView,
    existing: Seq<ProfileView>,
    eps: Seq<ExportedProfile>,
    n: nat,
)
    ensures
        ({
            let t = profiles_done(s, r, existing, eps, n).1;
            t.policies == r.policies && t.keys == r.keys && t.nv == r.nv && t.identities
                == r.identities
        }),
    decreases n,
{
    if n > 0 {
        profiles_count_only_profiles(s, r, existing, eps, (n - 1) as nat);
    }
}

proof fn policies_count_only_policies(
    s: StoreState,
    r: ReportView,
    version: u32,
    eps: Seq<ExportedPolicy>,
    ids: Seq<u128>,
    n: nat,
)
    ensures
        ({
            let t = policies_done(s, r, version, eps, ids, n).1;
            t.keys == r.keys && t.nv == r.nv && t.identities == r.identities
        }),
    decreases n,
{
    if n > 0 {
        policies_count_only_policies(s, r, version, eps, ids, (n - 1) as nat);
    }
}

/// Keeps the key that the TPM created for an object and goes on until the next
/// key is needed or everything is done.
pub fn import_next(
    store: &mut MemoryStore,
    report: &mut ImportReport,
    w: &WorkspaceSnapshot,
    index: usize,
    path: ObjectPath,
    kind: ObjectKind,
    algorithm: Algorithm,
    handle: Vec<u8>,
) -> (next: ImportNext)
    requires
        old(store)@.wf(),
        old(store)@.can_log(),
        index < w.objects@.len(),
        counts_up_to(old(report)@, index as nat),
        key_decision(old(store)@, w.objects@[index as int]) == (KeyDecisionView::Create {
            path: path@,
            kind,
            algorithm,
        }),
    ensures
        final(store)@.wf(),
        exists|key: KeyMade, made: Seq<IdentityMade>|
            key.handle == handle@ && chosen(w.objects@[index as int].id@, key.id)
                && identities_fit(made, *w) && #[trigger] goes_on(
                key_kept(old(store)@, old(report)@, w.objects@[index as int], key),
                *w,
                (index + 1) as nat,
                made,
                final(store)@,
                final(report)@,
                next,
            ),
        next matches ImportNext::Create { index, .. } ==> counts_up_to(
            final(report)@,
            index as nat,
        ),
{
    let ghost s = store@;
    let ghost r = report@;
    let total: usize = w.objects.len();
    assert(index < total);
    let eo = &w.objects[index];
    import_key(store, report, eo, path, kind, algorithm, handle);
    let ghost key = {
        let (id, created_at, stamp) = choose|id: u128, created_at: Seq<char>, stamp: Seq<char>|
            chosen(eo.id@, id) && (store@, report@) == #[trigger] key_step(
                s,
                r,
                *eo,
                handle@,
                id,
                created_at,
                stamp,
            );
        KeyMade { handle: handle@, id, created_at, stamp }
    };
    assert((store@, report@) == key_kept(s, r, *eo, key));
    let ghost at = (store@, report@);
    let next = advance(store, report, w, index + 1);
    proof {
        let made = choose|made: Seq<IdentityMade>|
            identities_fit(made, *w) && #[trigger] goes_on(
                at,
                *w,
                (index + 1) as nat,
                made,
                store@,
                report@,
                next,
            );
        assert(goes_on(
            key_kept(s, r, w.objects@[index as int], key),
            *w,
            (index + 1) as nat,
            made,
            store@,
            report@,
            next,
        ));
    }
    next
}

/// What keeping a key does.
pub open spec fn key_kept(s: StoreState, r: ReportView, eo: ExportedObject, key: KeyMade) -> (
    StoreState,
    ReportView,
) {
    key_step(s, r, eo, key.handle, key.id, key.created_at, key.stamp)
}

proof fn passing_over_is_importing(
    s: StoreState,
    r: ReportView,
    eos: Seq<ExportedObject>,
    keys: Seq<KeyMade>,
    from: nat,
)
    requires
        from <= eos.len(),
    ensures
        ({
            let (s1, r1) = keys_done(s, r, eos, keys, from);
            let (r2, k) = passed_over(s1, r1, eos, from);
            keys_done(s, r, eos, keys, k) == (s1, r2)
        }),
    decreases eos.len() - from,
{
    let (s1, r1) = keys_done(s, r, eos, keys, from);
    if from < eos.len() && !(key_decision(s1, eos[from as int]) is Create) {
        assert(keys_done(s, r, eos, keys, from + 1) == (
            s1,
            skipped(r1, key_decision(s1, eos[from as int])),
        ));
        passing_over_is_importing(s, r, eos, keys, from + 1);
    }
}

/// The phases make up the import. Where the keys of the first `from` objects
/// are in, going on leads to the point where the next key is needed, or to the
/// end of the whole import; keeping that key leads on from there.
pub proof fn phases_make_the_import(
    s: StoreState,
    source: Seq<char>,
    w: WorkspaceSnapshot,
    o: Outside,
    from: nat,
    after: StoreState,
    report: ReportView,
    next: ImportNext,
)
    requires
        from <= w.objects@.len(),
        ({
            let (s2, r2) = prepared(s, source, w, o.policy_ids);
            let at = keys_done(s2, r2, w.objects@, o.keys, from);
            goes_on(at, w, from, o.identities, after, report, next)
        }),
    ensures
        ({
            let (s2, r2) = prepared(s, source, w, o.policy_ids);
            match next {
                ImportNext::Create { index, .. } => {
                    &&& from <= index < w.objects@.len()
                    &&& (after, report) == keys_done(s2, r2, w.objects@, o.keys, index as nat)
                    &&& key_kept(after, report, w.objects@[index as int], o.keys[index as int])
                        == keys_done(s2, r2, w.objects@, o.keys, (index + 1) as nat)
                },
                ImportNext::Finish => (after, report) == imported(s, source, w, o),
            }
        }),
{
    let (s2, r2) = prepared(s, source, w, o.policy_ids);
    let (s3, r3) = keys_done(s2, r2, w.objects@, o.keys, from);
    passing_over_is_importing(s2, r2, w.objects@, o.keys, from);
    passing_over_counts_nothing(s3, r3, w.objects@, from);
}

/// Where every object of a snapshot is settled, no key is asked for.
pub proof fn settled_objects_need_no_key(
    s: StoreState,
    r: ReportView,
    w: WorkspaceSnapshot,
    from: nat,
    made: Seq<IdentityMade>,
    after: StoreState,
    report: ReportView,
    next: ImportNext,
)
    requires
        from <= w.objects@.len(),
        forall|i: int|
            0 <= i < w.objects@.len() ==> !(key_decision(s, #[trigger] w.objects@[i]) is Create),
        goes_on((s, r), w, from, made, after, report, next),
    ensures
        next is Finish,
{
    passing_over_counts_nothing(s, r, w.objects@, from);
}

} // verus!
