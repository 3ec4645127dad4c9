//! What is in a store, listed whole and in order, and what is read out of a
//! snapshot into it.
use vstd::prelude::*;

use crate::clock::Moment;
use crate::commands::identity::InitPlan;
use crate::commands::workspace::{
    import_identity_with, import_key_at, import_key_check, ExportedIdentity, ExportedObject,
    ImportReport, KeyDecision,
};
use crate::daemon::requests::handle_create_identity_check;
use crate::daemon::Answer;
use crate::failure::Failure;
use crate::ids::uuid_value;
use crate::model::{
    algorithm_names_read_back, usage_names_read_back, Algorithm, AuditEntry, EntryView, Identity,
    IdentityUsage, ObjectKind, ObjectPath, Policy, Profile, TpmObject,
};
use crate::output::{parse_output_format, OutputFormat};
use crate::promises::keys::{others_stay, push_keeps_others};
use crate::store::{at_most, newest, MemoryStore};
use crate::table::{
    lookup, lookup_id, lookup_of_push, position_is_first, ref_rows, sorted_is_ordered,
};
use crate::text::{contains, opt_str, opt_text, text_le, views};
use crate::vtpm_bridge::extract_response_data;
use crate::vtpm_credential::default_credential_path;

verus! {

/// The lists of a store leave nothing out and add nothing, and each is in the
/// order of names.
pub proof fn lists_are_whole_and_in_order(
    store: &MemoryStore,
    objects: Vec<&TpmObject>,
    policies: Vec<&Policy>,
    profiles: Vec<&Profile>,
    identities: Vec<&Identity>,
)
    requires
        call_ensures(MemoryStore::list_objects, (store,), objects),
        call_ensures(MemoryStore::list_policies, (store,), policies),
        call_ensures(MemoryStore::list_profiles, (store,), profiles),
        call_ensures(MemoryStore::list_identities, (store,), identities),
    ensures
        ref_rows(objects@).to_multiset() == store@.objects.to_multiset(),
        ref_rows(policies@).to_multiset() == store@.policies.to_multiset(),
        ref_rows(profiles@).to_multiset() == store@.profiles.to_multiset(),
        ref_rows(identities@).to_multiset() == store@.identities.to_multiset(),
        objects@.len() == store@.objects.len(),
        forall|i: int, j: int|
            0 <= i < j < objects@.len() ==> text_le(
                (#[trigger] objects@[i])@.path,
                (#[trigger] objects@[j])@.path,
            ),
        forall|i: int, j: int|
            0 <= i < j < policies@.len() ==> text_le(
                (#[trigger] policies@[i])@.name,
                (#[trigger] policies@[j])@.name,
            ),
        forall|i: int, j: int|
            0 <= i < j < identities@.len() ==> text_le(
                (#[trigger] identities@[i])@.name,
                (#[trigger] identities@[j])@.name,
            ),
{
    sorted_is_ordered::<TpmObject>(store@.objects);
    sorted_is_ordered::<Policy>(store@.policies);
    sorted_is_ordered::<Profile>(store@.profiles);
    sorted_is_ordered::<Identity>(store@.identities);
    assert forall|i: int, j: int| 0 <= i < j < objects@.len() implies text_le(
        (#[trigger] objects@[i])@.path,
        (#[trigger] objects@[j])@.path,
    ) by {
        assert(ref_rows(objects@)[i] == objects@[i]@ && ref_rows(objects@)[j] == objects@[j]@);
    }
    assert forall|i: int, j: int| 0 <= i < j < policies@.len() implies text_le(
        (#[trigger] policies@[i])@.name,
        (#[trigger] policies@[j])@.name,
    ) by {
        assert(ref_rows(policies@)[i] == policies@[i]@ && ref_rows(policies@)[j] == policies@[j]@);
    }
    assert forall|i: int, j: int| 0 <= i < j < identities@.len() implies text_le(
        (#[trigger] identities@[i])@.name,
        (#[trigger] identities@[j])@.name,
    ) by {
        assert(ref_rows(identities@)[i] == identities@[i]@ && ref_rows(identities@)[j]
            == identities@[j]@);
    }
}

proof fn newest_are_what_passes(
    s: Seq<EntryView>,
    object: Option<Seq<char>>,
    action: Option<Seq<char>>,
)
    requires
        forall|i: int, j: int|
            #![trigger s[i], s[j]]
            0 <= i < j < s.len() ==> s[i].id < s[j].id,
    ensures
        ({
            let r = newest(s, object, action);
            &&& forall|i: int|
                0 <= i < r.len() ==> s.contains(#[trigger] r[i]) && (object is Some
                    ==> r[i].object_path == object) && (action matches Some(a) ==> contains(
                    r[i].action,
                    a,
                ))
            &&& forall|k: int|
                0 <= k < s.len() && (object is Some ==> (#[trigger] s[k]).object_path == object)
                    && (action matches Some(a) ==> contains(s[k].action, a)) ==> r.contains(s[k])
            &&& forall|i: int, j: int|
                #![trigger r[i], r[j]]
                0 <= i < j < r.len() ==> r[i].id > r[j].id
        }),
    decreases s.len(),
{
    if s.len() > 0 {
        let before = s.drop_last();
        let last = s.last();
        let old_ones = newest(before, object, action);
        let r = newest(s, object, action);
        assert forall|i: int, j: int|
            #![trigger before[i], before[j]]
            0 <= i < j < before.len() implies before[i].id < before[j].id by {
            assert(s[i].id < s[j].id);
        }
        newest_are_what_passes(before, object, action);
        let shift: int = r.len() - old_ones.len();
        assert(shift == 0 || (shift == 1 && r[0] == last));
        assert forall|i: int| shift <= i < r.len() implies #[trigger] r[i] == old_ones[i
            - shift] by {}
        assert forall|i: int| 0 <= i < old_ones.len() implies s.contains(#[trigger] old_ones[i])
            && old_ones[i].id < last.id by {
            assert(before.contains(old_ones[i]));
            let k = choose|k: int| 0 <= k < before.len() && before[k] == old_ones[i];
            assert(s[k] == old_ones[i]);
            assert(s[k].id < s[s.len() - 1].id);
        }
        assert(s.contains(last)) by {
            assert(s[s.len() - 1] == last);
        }
        assert forall|i: int| 0 <= i < r.len() implies s.contains(#[trigger] r[i]) && (object
            is Some ==> r[i].object_path == object) && (action matches Some(a) ==> contains(
            r[i].action,
            a,
        )) by {
            if i >= shift {
                assert(r[i] == old_ones[i - shift]);
            }
        }
        assert forall|k: int|
            0 <= k < s.len() && (object is Some ==> (#[trigger] s[k]).object_path == object) && (
            action matches Some(a) ==> contains(s[k].action, a)) implies r.contains(s[k]) by {
            if k < before.len() {
                assert(before[k] == s[k]);
                assert(old_ones.contains(s[k]));
                let i = choose|i: int| 0 <= i < old_ones.len() && old_ones[i] == s[k];
                assert(r[i + shift] == old_ones[i]);
            } else {
                assert(shift == 1 && r[0] == s[k]);
            }
        }
        assert forall|i: int, j: int|
            #![trigger r[i], r[j]]
            0 <= i < j < r.len() implies r[i].id > r[j].id by {
            if i >= shift {
                assert(r[i] == old_ones[i - shift] && r[j] == old_ones[j - shift]);
            } else {
                assert(r[j] == old_ones[j - shift]);
            }
        }
    }
}

/// The log is listed newest first. Just the entries about the object that was
/// asked for are listed, and just those whose action holds the text that was
/// asked for; where the limit leaves room, all of them are.
pub proof fn log_is_listed_newest_first(
    store: &MemoryStore,
    object: Option<&str>,
    action: Option<&str>,
    limit: usize,
    r: Vec<&AuditEntry>,
)
    requires
        store@.wf(),
        call_ensures(MemoryStore::list_audit_log, (store, object, action, limit), r),
    ensures
        r@.len() <= limit,
        forall|i: int|
            0 <= i < r@.len() ==> store@.audit_log.contains((#[trigger] r@[i])@) && (object
                matches Some(o) ==> r@[i]@.object_path == Some(o@)) && (action matches Some(a)
                ==> contains(r@[i]@.action, a@)),
        forall|i: int, j: int|
            #![trigger r@[i], r@[j]]
            0 <= i < j < r@.len() ==> r@[i]@.id > r@[j]@.id,
        forall|k: int|
            r@.len() < limit && 0 <= k < store@.audit_log.len() && (object matches Some(o)
                ==> (#[trigger] store@.audit_log[k]).object_path == Some(o@)) && (action
                matches Some(a) ==> contains(store@.audit_log[k].action, a@)) ==> ref_rows(
                r@,
            ).contains(store@.audit_log[k]),
{
    let s = store@.audit_log;
    let all = newest(s, opt_str(object), opt_str(action));
    newest_are_what_passes(s, opt_str(object), opt_str(action));
    let rows = ref_rows(r@);
    assert(rows.len() == r@.len());
    assert(rows == at_most(all, limit as int));
    assert forall|i: int| 0 <= i < r@.len() implies (#[trigger] r@[i])@ == all[i] by {
        assert(rows[i] == r@[i]@);
    }
    assert forall|k: int|
        r@.len() < limit && 0 <= k < s.len() && (object matches Some(o)
            ==> (#[trigger] s[k]).object_path == Some(o@)) && (action matches Some(a)
            ==> contains(s[k].action, a@)) implies rows.contains(s[k]) by {
        assert(all.contains(s[k]));
        assert(rows =~= all);
    }
}

/// A key of a snapshot that was to be created is found under its path with the
/// handle that the TPM gave it and with the policy and the metadata that the
/// snapshot has; no other object is touched, and it is counted once.
pub proof fn imported_key_is_found(
    store: &mut MemoryStore,
    report: &mut ImportReport,
    eo: &ExportedObject,
    d: KeyDecision,
    path: ObjectPath,
    kind: ObjectKind,
    algorithm: Algorithm,
    handle: Vec<u8>,
    id: u128,
    at: &Moment,
    done: (),
)
    requires
        call_ensures(import_key_check, (&*old(store), eo), d),
        d == (KeyDecision::Create { path, kind, algorithm }),
        call_ensures(
            import_key_at,
            (store, report, eo, path, kind, algorithm, handle, id, at),
            done,
        ),
    ensures
        lookup::<TpmObject>(final(store)@.objects, eo.path@) matches Some(o) && o.id == id
            && o.kind.text() == kind.text() && o.algorithm.text() == eo.algorithm@ && o.handle_blob
            == Some(handle@) && o.metadata == eo.metadata@ && o.created_at == at.rfc3339@ && (
        eo.policy_id matches Some(p) ==> o.policy_id == uuid_value(p@)) && (eo.policy_id is None
            ==> o.policy_id is None),
        others_stay(old(store)@, final(store)@, eo.path@),
        final(report)@.keys == old(report)@.keys + 1,
        final(report)@.warnings == old(report)@.warnings,
{
    let key = final(store)@.objects.last();
    assert(final(store)@.objects == old(store)@.objects.push(key));
    push_keeps_others(old(store)@.objects, key);
}

/// An identity of a snapshot is taken only where its key is in the store; it
/// then stands on that key and keeps its certificate. One that is there stays.
pub proof fn imported_identity_stands_on_its_key(
    store: &mut MemoryStore,
    report: &mut ImportReport,
    ei: &ExportedIdentity,
    id: u128,
    created_at: &str,
    done: (),
)
    requires
        call_ensures(import_identity_with, (store, report, 2u32, ei, id, created_at), done),
    ensures
        final(report)@.identities == old(report)@.identities + 1 || (final(report)@.identities
            == old(report)@.identities && final(store)@ == old(store)@
            && final(report)@.warnings.len() == old(report)@.warnings.len() + 1),
        final(report)@.identities == old(report)@.identities + 1 ==> (lookup::<Identity>(
            final(store)@.identities,
            ei.name@,
        ) matches Some(d) && d.id == id && d.usage.text() == ei.usage@ && uuid_value(
            ei.key_object_id@,
        ) == Some(d.key_object_id) && lookup_id::<TpmObject>(
            final(store)@.objects,
            d.key_object_id,
        ) is Some && d.certificate_pem == opt_text(ei.certificate_pem) && d.subject == opt_text(
            ei.subject,
        )),
        lookup::<Identity>(old(store)@.identities, ei.name@) is Some ==> final(store)@ == old(store)@,
        final(store)@.objects == old(store)@.objects,
{
    position_is_first::<Identity>(old(store)@.identities, ei.name@);
    if final(report)@.identities == old(report)@.identities + 1 {
        let d = final(store)@.identities.last();
        lookup_of_push::<Identity>(old(store)@.identities, d, ei.name@);
        assert(final(store)@.identities == old(store)@.identities.push(d));
    }
}

/// An identity that is requested needs a free name, a known usage, a known
/// algorithm and a free place for its key, which is below the signing keys.
pub proof fn requested_identity_needs_room(
    store: &MemoryStore,
    name: &str,
    usage: Option<&str>,
    algorithm: Option<&str>,
    r: Result<InitPlan, Answer>,
)
    requires
        call_ensures(handle_create_identity_check, (store, name, usage, algorithm), r),
    ensures
        r matches Ok(plan) ==> plan.path@ == "signing/"@ + name@ && lookup::<Identity>(
            store@.identities,
            name@,
        ) is None && lookup::<TpmObject>(store@.objects, plan.path@) is None,
        r matches Ok(plan) ==> (usage matches Some(u) ==> plan.usage.text() == u@),
        r matches Ok(plan) ==> (algorithm matches Some(a) ==> plan.algorithm.text() == a@),
        r matches Ok(plan) ==> (usage is None ==> plan.usage == IdentityUsage::Generic),
        r matches Ok(plan) ==> (algorithm is None ==> plan.algorithm == Algorithm::EccP256),
        lookup::<Identity>(store@.identities, name@) is Some ==> r is Err,
        r matches Err(a) ==> a.status == 400 || a.status == 500,
{
    position_is_first::<Identity>(store@.identities, name@);
    position_is_first::<TpmObject>(store@.objects, "signing/"@ + name@);
    usage_names_read_back(IdentityUsage::Generic);
    algorithm_names_read_back(Algorithm::EccP256);
}

/// Behind its header a reply holds the rest of its bytes, and nothing where it
/// is no longer than the header.
pub proof fn header_and_data_make_the_reply(resp: &[u8], header_size: usize, d: Vec<u8>)
    requires
        call_ensures(extract_response_data, (resp, header_size), d),
    ensures
        header_size <= resp@.len() ==> resp@.take(header_size as int) + d@ == resp@,
        header_size >= resp@.len() ==> d@.len() == 0,
{
    if header_size < resp@.len() {
        assert(resp@.take(header_size as int) + d@ =~= resp@);
    } else if header_size == resp@.len() {
        assert(resp@.take(header_size as int) + d@ =~= resp@);
    }
}

/// A format is known by its name, and each name is of one format.
pub proof fn formats_are_known_by_name(s: &str, r: Result<OutputFormat, Failure>)
    requires
        call_ensures(parse_output_format, (s,), r),
    ensures
        s@ == "text"@ ==> r == Ok::<OutputFormat, Failure>(OutputFormat::Text),
        s@ == "json"@ ==> r == Ok::<OutputFormat, Failure>(OutputFormat::Json),
        s@ == "yaml"@ ==> r == Ok::<OutputFormat, Failure>(OutputFormat::Yaml),
        s@ != "text"@ && s@ != "json"@ && s@ != "yaml"@ ==> r is Err,
{
    reveal_strlit("text");
    reveal_strlit("json");
    reveal_strlit("yaml");
    assert("text"@[0] != "json"@[0] && "text"@[0] != "yaml"@[0] && "json"@[0] != "yaml"@[0]);
}

/// A credential lies in the data directory where there is one, else below the
/// home directory, and is always one file.
pub proof fn credential_lies_with_the_data(
    data: Option<&str>,
    home: Option<&str>,
    v: Vec<String>,
)
    requires
        call_ensures(default_credential_path, (data, home), v),
    ensures
        v@.len() > 0 && v@.last()@ == "vtpm-credential.json"@,
        data matches Some(d) ==> v@[0]@ == d@ && v@.len() == 3,
        data is None && home is Some ==> opt_str(home) == Some(v@[0]@) && v@.len() == 5,
        data is None && home is None ==> v@.len() == 1,
{
    assert(views(v@).len() == v@.len());
    assert(views(v@)[0] == v@[0]@);
    assert(views(v@)[v@.len() - 1] == v@[v@.len() - 1]@);
}

} // verus!
