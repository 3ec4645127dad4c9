//! What the store gives back of what it was given: each law speaks of a call
//! that changes the store and of a later call that reads it.
use vstd::prelude::*;

use crate::failure::Failure;
use crate::model::{
    ApprovalRequest, ApprovalStatus, AuditEntry, Identity, NvSlot, ObjectPath, PcrBaseline, Policy,
    Profile, TpmObject,
};
use crate::store::{
    activated_profile_is_active, at_most, newest, nv_reads_what_was_written,
    recorded_counter_is_found, renamed_object_is_found, resolved_approval_is_found,
    saved_baseline_is_found, Counter, MemoryStore,
};
use crate::table::{
    lookup, lookup_id_of_push, lookup_of_push, position, position_id_is_first, position_is,
    position_is_first, ref_rows, rows, without_keeps_others, without_removes, Keyed,
};
use crate::text::opt_str;

verus! {

/// The view of what a lookup gave.
pub open spec fn seen<T: View>(r: Option<&T>) -> Option<T::V> {
    match r {
        Some(x) => Some(x@),
        None => None,
    }
}

// ---------------------------------------------------------------------------
// Objects
// ---------------------------------------------------------------------------

/// An object that was stored is what its path finds, and every other path finds
/// what it found before. Nothing but the objects changes.
pub proof fn stored_object_is_got(
    store: &mut MemoryStore,
    obj: TpmObject,
    r: Result<(), Failure>,
    path: &ObjectPath,
    before: Option<&TpmObject>,
    after: Option<&TpmObject>,
)
    requires
        call_ensures(MemoryStore::insert_object, (store, obj), r),
        call_ensures(MemoryStore::get_object, (&*old(store), path), before),
        call_ensures(MemoryStore::get_object, (&*final(store), path), after),
    ensures
        r is Ok && path@ == obj@.path ==> before is None && seen(after) == Some(obj@),
        path@ != obj@.path ==> seen(after) == seen(before),
        r is Err ==> seen(after) == seen(before),
        r is Err && path@ == obj@.path ==> before is Some,
        r is Ok ==> final(store)@.objects.len() == old(store)@.objects.len() + 1,
        final(store)@.audit_log == old(store)@.audit_log,
        final(store)@.identities == old(store)@.identities,
        final(store)@.policies == old(store)@.policies,
        final(store)@.nv_indices == old(store)@.nv_indices,
{
    lookup_of_push::<TpmObject>(old(store)@.objects, obj@, path@);
}

/// A stored object is also found by its identifier, where that is new.
pub proof fn stored_object_is_got_by_id(
    store: &mut MemoryStore,
    obj: TpmObject,
    r: Result<(), Failure>,
    id: u128,
    before: Option<&TpmObject>,
    after: Option<&TpmObject>,
)
    requires
        call_ensures(MemoryStore::insert_object, (store, obj), r),
        call_ensures(MemoryStore::get_object_by_id, (&*old(store), id), before),
        call_ensures(MemoryStore::get_object_by_id, (&*final(store), id), after),
    ensures
        r is Ok && before is None && id == obj@.id ==> seen(after) == Some(obj@),
        before is Some || id != obj@.id ==> seen(after) == seen(before),
{
    lookup_id_of_push::<TpmObject>(old(store)@.objects, obj@, id);
}

/// An object that was deleted is not found any more, and every other path finds
/// what it found before. The answer says whether there was one.
pub proof fn deleted_object_is_gone(
    store: &mut MemoryStore,
    deleted: &ObjectPath,
    r: bool,
    path: &ObjectPath,
    before: Option<&TpmObject>,
    after: Option<&TpmObject>,
)
    requires
        call_ensures(MemoryStore::delete_object, (store, deleted), r),
        call_ensures(MemoryStore::get_object, (&*old(store), path), before),
        call_ensures(MemoryStore::get_object, (&*final(store), path), after),
    ensures
        path@ == deleted@ ==> after is None && (r <==> before is Some),
        path@ != deleted@ ==> seen(after) == seen(before),
{
    without_removes::<TpmObject>(old(store)@.objects, deleted@);
    if path@ != deleted@ {
        without_keeps_others::<TpmObject>(old(store)@.objects, deleted@, path@);
    }
}

/// A renamed object is found under its new path with everything else as it was,
/// where nothing stood there.
pub proof fn renamed_object_is_got(
    store: &mut MemoryStore,
    from: &ObjectPath,
    to: ObjectPath,
    r: Result<(), Failure>,
    before: Option<&TpmObject>,
    taken: Option<&TpmObject>,
    after: Option<&TpmObject>,
)
    requires
        call_ensures(MemoryStore::rename_object, (store, from, to), r),
        call_ensures(MemoryStore::get_object, (&*old(store), from), before),
        call_ensures(MemoryStore::get_object, (&*old(store), &to), taken),
        taken is None,
        call_ensures(MemoryStore::get_object, (&*final(store), &to), after),
    ensures
        r is Ok <==> before is Some,
        before is Some ==> (seen(after) matches Some(a) && seen(before) matches Some(b) && a.path
            == to@ && a.id == b.id && a.kind == b.kind && a.algorithm == b.algorithm
            && a.handle_blob == b.handle_blob && a.policy_id == b.policy_id && a.created_at
            == b.created_at && a.metadata == b.metadata),
        before is None ==> after is None,
{
    if before is Some {
        renamed_object_is_found(old(store)@.objects, from@, to@);
    }
}

/// Objects are counted one by one.
pub proof fn objects_are_counted(
    store: &mut MemoryStore,
    obj: TpmObject,
    r: Result<(), Failure>,
    before: usize,
    after: usize,
)
    requires
        call_ensures(MemoryStore::insert_object, (store, obj), r),
        call_ensures(MemoryStore::object_count, (&*old(store),), before),
        call_ensures(MemoryStore::object_count, (&*final(store),), after),
    ensures
        r is Ok ==> after == before + 1,
        r is Err ==> after == before,
{
}

// ---------------------------------------------------------------------------
// Profiles
// ---------------------------------------------------------------------------

/// A profile that was made active is the active one; a name that no profile has
/// is refused and changes nothing.
pub proof fn chosen_profile_is_active(
    store: &mut MemoryStore,
    name: &str,
    r: Result<(), Failure>,
    known: bool,
    active: Option<&Profile>,
)
    requires
        call_ensures(MemoryStore::has_profile, (&*old(store), name), known),
        call_ensures(MemoryStore::set_active_profile, (store, name), r),
        call_ensures(MemoryStore::get_active_profile, (&*final(store),), active),
    ensures
        r is Ok <==> known,
        known ==> (seen(active) matches Some(p) && p.name == name@),
        !known ==> final(store)@ == old(store)@,
{
    if known {
        activated_profile_is_active(old(store)@.profiles, name@);
    }
}

/// A profile that was added is known by its name, and no other name becomes
/// known.
pub proof fn added_profile_is_known(
    store: &mut MemoryStore,
    profile: Profile,
    name: &str,
    before: bool,
    after: bool,
)
    requires
        call_ensures(MemoryStore::insert_profile, (store, profile), ()),
        call_ensures(MemoryStore::has_profile, (&*old(store), name), before),
        call_ensures(MemoryStore::has_profile, (&*final(store), name), after),
    ensures
        after <==> before || name@ == profile@.name,
{
    lookup_of_push::<Profile>(old(store)@.profiles, profile@, name@);
}

// ---------------------------------------------------------------------------
// Policies
// ---------------------------------------------------------------------------

/// A policy that was added is found by its name and by its identifier, where
/// these are new; every other name finds what it found before.
pub proof fn added_policy_is_got(
    store: &mut MemoryStore,
    policy: Policy,
    name: &str,
    before: Option<&Policy>,
    after: Option<&Policy>,
    id: u128,
    before_id: Option<&Policy>,
    after_id: Option<&Policy>,
)
    requires
        call_ensures(MemoryStore::insert_policy, (store, policy), ()),
        call_ensures(MemoryStore::get_policy, (&*old(store), name), before),
        call_ensures(MemoryStore::get_policy, (&*final(store), name), after),
        call_ensures(MemoryStore::get_policy_by_id, (&*old(store), id), before_id),
        call_ensures(MemoryStore::get_policy_by_id, (&*final(store), id), after_id),
    ensures
        before is None && name@ == policy@.name ==> seen(after) == Some(policy@),
        before is Some || name@ != policy@.name ==> seen(after) == seen(before),
        before_id is None && id == policy@.id ==> seen(after_id) == Some(policy@),
        before_id is Some || id != policy@.id ==> seen(after_id) == seen(before_id),
{
    lookup_of_push::<Policy>(old(store)@.policies, policy@, name@);
    lookup_id_of_push::<Policy>(old(store)@.policies, policy@, id);
}

/// A policy that was deleted is not found any more, and every other name finds
/// what it found before.
pub proof fn deleted_policy_is_gone(
    store: &mut MemoryStore,
    deleted: &str,
    r: bool,
    name: &str,
    before: Option<&Policy>,
    after: Option<&Policy>,
)
    requires
        call_ensures(MemoryStore::delete_policy, (store, deleted), r),
        call_ensures(MemoryStore::get_policy, (&*old(store), name), before),
        call_ensures(MemoryStore::get_policy, (&*final(store), name), after),
    ensures
        name@ == deleted@ ==> after is None && (r <==> before is Some),
        name@ != deleted@ ==> seen(after) == seen(before),
{
    without_removes::<Policy>(old(store)@.policies, deleted@);
    if name@ != deleted@ {
        without_keeps_others::<Policy>(old(store)@.policies, deleted@, name@);
    }
}

// ---------------------------------------------------------------------------
// NV indices
// ---------------------------------------------------------------------------

/// A new NV index has the number and the size that it was given and holds
/// nothing; every other name keeps its own.
pub proof fn added_nv_index_is_got(
    store: &mut MemoryStore,
    name: &str,
    nv_index: u32,
    size: usize,
    other: &str,
    before: Option<(u32, usize)>,
    after: Option<(u32, usize)>,
    data: Option<&Vec<u8>>,
)
    requires
        call_ensures(MemoryStore::insert_nv_index, (store, name, nv_index, size), ()),
        call_ensures(MemoryStore::get_nv_index, (&*old(store), other), before),
        call_ensures(MemoryStore::get_nv_index, (&*final(store), other), after),
        call_ensures(MemoryStore::nv_read_data, (&*final(store), other), data),
    ensures
        before is None && other@ == name@ ==> after == Some((nv_index, size)) && data is None,
        before is Some || other@ != name@ ==> after == before,
{
    let n = final(store)@.nv_indices.last();
    lookup_of_push::<NvSlot>(old(store)@.nv_indices, n, other@);
}

/// What is read from an NV index is what was last written to it; its number and
/// its size stay, and so does what every other index holds.
pub proof fn written_nv_data_are_read(
    store: &mut MemoryStore,
    name: &str,
    data: Vec<u8>,
    r: Result<(), Failure>,
    before: Option<(u32, usize)>,
    after: Option<(u32, usize)>,
    read: Option<&Vec<u8>>,
)
    requires
        call_ensures(MemoryStore::nv_write_data, (store, name, data), r),
        call_ensures(MemoryStore::get_nv_index, (&*old(store), name), before),
        call_ensures(MemoryStore::get_nv_index, (&*final(store), name), after),
        call_ensures(MemoryStore::nv_read_data, (&*final(store), name), read),
    ensures
        r is Ok <==> before is Some,
        r is Ok ==> (read matches Some(d) && d@ == data@),
        after == before,
{
    if r is Ok {
        nv_reads_what_was_written(old(store)@.nv_indices, name@, data@);
    }
}

/// Writing to one NV index leaves what another one holds.
pub proof fn other_nv_data_stay(
    store: &mut MemoryStore,
    name: &str,
    data: Vec<u8>,
    r: Result<(), Failure>,
    other: &str,
    before: Option<&Vec<u8>>,
    after: Option<&Vec<u8>>,
)
    requires
        other@ != name@,
        call_ensures(MemoryStore::nv_write_data, (store, name, data), r),
        call_ensures(MemoryStore::nv_read_data, (&*old(store), other), before),
        call_ensures(MemoryStore::nv_read_data, (&*final(store), other), after),
    ensures
        seen(after) == seen(before),
{
    let s = old(store)@.nv_indices;
    let t = final(store)@.nv_indices;
    if r is Ok {
        let at = position::<NvSlot>(s, name@);
        let there = position::<NvSlot>(s, other@);
        position_is_first::<NvSlot>(s, name@);
        position_is_first::<NvSlot>(s, other@);
        assert forall|i: int| 0 <= i < there implies NvSlot::key_of(#[trigger] t[i]) != other@ by {
            assert(NvSlot::key_of(s[i]) != other@);
        }
        position_is::<NvSlot>(t, other@, there);
    }
}

/// An NV index that was deleted is not found any more, and every other name
/// keeps its own.
pub proof fn deleted_nv_index_is_gone(
    store: &mut MemoryStore,
    deleted: &str,
    r: bool,
    name: &str,
    before: Option<(u32, usize)>,
    after: Option<(u32, usize)>,
)
    requires
        call_ensures(MemoryStore::delete_nv_index, (store, deleted), r),
        call_ensures(MemoryStore::get_nv_index, (&*old(store), name), before),
        call_ensures(MemoryStore::get_nv_index, (&*final(store), name), after),
    ensures
        name@ == deleted@ ==> after is None && (r <==> before is Some),
        name@ != deleted@ ==> after == before,
{
    without_removes::<NvSlot>(old(store)@.nv_indices, deleted@);
    if name@ != deleted@ {
        without_keeps_others::<NvSlot>(old(store)@.nv_indices, deleted@, name@);
    }
}

// ---------------------------------------------------------------------------
// Register baselines
// ---------------------------------------------------------------------------

/// The view of a saved baseline.
pub open spec fn baseline_seen(r: Option<(String, String)>) -> Option<(Seq<char>, Seq<char>)> {
    match r {
        Some(p) => Some((p.0@, p.1@)),
        None => None,
    }
}

/// Register values that were saved are what their name finds, whatever had the
/// name before; every other name finds what it found before.
pub proof fn saved_baseline_is_got(
    store: &mut MemoryStore,
    name: &str,
    bank: &str,
    values: &str,
    other: &str,
    before: Option<(String, String)>,
    after: Option<(String, String)>,
)
    requires
        call_ensures(MemoryStore::save_pcr_baseline, (store, name, bank, values), ()),
        call_ensures(MemoryStore::get_pcr_baseline, (&*old(store), other), before),
        call_ensures(MemoryStore::get_pcr_baseline, (&*final(store), other), after),
    ensures
        other@ == name@ ==> baseline_seen(after) == Some((bank@, values@)),
        other@ != name@ ==> baseline_seen(after) == baseline_seen(before),
{
    let s = old(store)@.pcr_baselines;
    let b = final(store)@.pcr_baselines.last();
    if other@ != name@ {
        saved_baseline_is_found(s, b, other@);
    } else {
        without_removes::<PcrBaseline>(s, name@);
        lookup_of_push::<PcrBaseline>(crate::table::without::<PcrBaseline>(s, name@), b, name@);
    }
}

// ---------------------------------------------------------------------------
// The log
// ---------------------------------------------------------------------------

/// What was logged last comes first in the listing of the log, with its action,
/// its object, its details and its time, and behind it comes what was listed
/// before.
pub proof fn logged_action_is_listed_first(
    store: &mut MemoryStore,
    action: &str,
    object: Option<&str>,
    details: &str,
    timestamp: &str,
    limit: usize,
    before: Vec<&AuditEntry>,
    after: Vec<&AuditEntry>,
)
    requires
        call_ensures(MemoryStore::log_action_at, (store, action, object, details, timestamp), ()),
        limit < usize::MAX,
        call_ensures(MemoryStore::list_audit_log, (&*old(store), None, None, limit), before),
        call_ensures(
            MemoryStore::list_audit_log,
            (&*final(store), None, None, (limit + 1) as usize),
            after,
        ),
    ensures
        after@.len() == before@.len() + 1,
        after@[0]@.action == action@,
        after@[0]@.object_path == opt_str(object),
        after@[0]@.details == details@,
        after@[0]@.timestamp == timestamp@,
        after@[0]@.id == old(store)@.next_audit_id,
        ref_rows(after@).skip(1) == ref_rows(before@),
{
    let s = old(store)@.audit_log;
    let t = final(store)@.audit_log;
    assert(t.drop_last() =~= s);
    assert(newest(t, None, None) =~= seq![t.last()] + newest(s, None, None));
    assert(ref_rows(after@)[0] == t.last());
    assert(ref_rows(after@).skip(1) =~= ref_rows(before@));
}

/// The listing of the log keeps to its filters and its limit: every entry that
/// is listed has the object that was asked for.
pub proof fn log_listing_keeps_to_the_object(
    store: &MemoryStore,
    object: &str,
    limit: usize,
    r: Vec<&AuditEntry>,
)
    requires
        call_ensures(MemoryStore::list_audit_log, (store, Some(object), None, limit), r),
    ensures
        r@.len() <= limit,
        forall|i: int| 0 <= i < r@.len() ==> (#[trigger] r@[i])@.object_path == Some(object@),
{
    newest_pass(store@.audit_log, Some(object@));
    let all = newest(store@.audit_log, Some(object@), None);
    assert(opt_str(Some(object)) == Some(object@));
    assert(opt_str(None) == None::<Seq<char>>);
    assert(ref_rows(r@) == at_most(all, limit as int));
    assert(r@.len() == ref_rows(r@).len());
    assert forall|i: int| 0 <= i < r@.len() implies (#[trigger] r@[i])@.object_path == Some(
        object@,
    ) by {
        assert(ref_rows(r@)[i] == all[i]);
    }
}

proof fn newest_pass(s: Seq<crate::model::EntryView>, object: Option<Seq<char>>)
    requires
        object is Some,
    ensures
        forall|i: int|
            0 <= i < newest(s, object, None).len()
                ==> (#[trigger] newest(s, object, None)[i]).object_path
                == object,
    decreases s.len(),
{
    if s.len() > 0 {
        newest_pass(s.drop_last(), object);
    }
}

// ---------------------------------------------------------------------------
// Approvals
// ---------------------------------------------------------------------------

/// A request that was added is found by its identifier, where that is new, and
/// comes last in the list.
pub proof fn added_approval_is_got(
    store: &mut MemoryStore,
    approval: ApprovalRequest,
    id: u128,
    before: Option<&ApprovalRequest>,
    after: Option<&ApprovalRequest>,
    listed: &Vec<ApprovalRequest>,
)
    requires
        call_ensures(MemoryStore::insert_approval, (store, approval), ()),
        call_ensures(MemoryStore::get_approval, (&*old(store), id), before),
        call_ensures(MemoryStore::get_approval, (&*final(store), id), after),
        call_ensures(MemoryStore::list_approvals, (&*final(store),), listed),
    ensures
        before is None && id == approval@.id ==> seen(after) == Some(approval@),
        before is Some || id != approval@.id ==> seen(after) == seen(before),
        listed@.len() == old(store)@.approvals.len() + 1,
        listed@.last()@ == approval@,
{
    lookup_id_of_push::<ApprovalRequest>(old(store)@.approvals, approval@, id);
    assert(rows(listed@).last() == approval@);
}

/// A request that was resolved has the status and the time that it was given,
/// and is otherwise as it was; an unknown one is refused.
pub proof fn resolved_approval_is_got(
    store: &mut MemoryStore,
    id: u128,
    status: ApprovalStatus,
    at: &str,
    r: Result<(), Failure>,
    before: Option<&ApprovalRequest>,
    after: Option<&ApprovalRequest>,
)
    requires
        call_ensures(MemoryStore::update_approval_status_at, (store, id, status, at), r),
        call_ensures(MemoryStore::get_approval, (&*old(store), id), before),
        call_ensures(MemoryStore::get_approval, (&*final(store), id), after),
    ensures
        r is Ok <==> before is Some,
        before is Some ==> (seen(after) matches Some(a) && seen(before) matches Some(b) && a.status
            == status && a.resolved_at == Some(at@) && a.id == id && a.operation == b.operation
            && a.target == b.target && a.requester == b.requester && a.reason == b.reason
            && a.created_at == b.created_at),
        before is None ==> after is None && final(store)@ == old(store)@,
{
    position_id_is_first::<ApprovalRequest>(old(store)@.approvals, id);
    if before is Some {
        resolved_approval_is_found(old(store)@.approvals, id, status, at@);
    }
}

// ---------------------------------------------------------------------------
// Identities
// ---------------------------------------------------------------------------

/// An identity that was added is found by its name; a taken name is refused and
/// keeps what it has.
pub proof fn added_identity_is_got(
    store: &mut MemoryStore,
    identity: Identity,
    r: Result<(), Failure>,
    name: &str,
    before: Option<&Identity>,
    after: Option<&Identity>,
)
    requires
        call_ensures(MemoryStore::insert_identity, (store, identity), r),
        call_ensures(MemoryStore::get_identity, (&*old(store), name), before),
        call_ensures(MemoryStore::get_identity, (&*final(store), name), after),
    ensures
        name@ == identity@.name ==> (r is Ok <==> before is None),
        r is Ok && name@ == identity@.name ==> seen(after) == Some(identity@),
        r is Err || name@ != identity@.name ==> seen(after) == seen(before),
{
    lookup_of_push::<Identity>(old(store)@.identities, identity@, name@);
}

/// An identity whose key was changed has the new key, remembers the old one,
/// and is otherwise as it was.
pub proof fn rotated_identity_is_got(
    store: &mut MemoryStore,
    name: &str,
    new_key: u128,
    old_key: u128,
    r: Result<(), Failure>,
    before: Option<&Identity>,
    after: Option<&Identity>,
)
    requires
        call_ensures(MemoryStore::update_identity_key, (store, name, new_key, old_key), r),
        call_ensures(MemoryStore::get_identity, (&*old(store), name), before),
        call_ensures(MemoryStore::get_identity, (&*final(store), name), after),
    ensures
        r is Ok <==> before is Some,
        before is Some ==> (seen(after) matches Some(a) && seen(before) matches Some(b)
            && a.key_object_id == new_key && a.rotated_from == Some(old_key) && a.id == b.id
            && a.name == b.name && a.policy_id == b.policy_id && a.usage == b.usage && a.subject
            == b.subject && a.certificate_pem == b.certificate_pem && a.created_at
            == b.created_at),
        before is None ==> after is None,
{
    position_is_first::<Identity>(old(store)@.identities, name@);
    identity_stays_in_place(old(store)@.identities, final(store)@.identities, name@);
}

/// An identity that was given a certificate has it, and is otherwise as it was.
pub proof fn certified_identity_is_got(
    store: &mut MemoryStore,
    name: &str,
    pem: &str,
    r: Result<(), Failure>,
    before: Option<&Identity>,
    after: Option<&Identity>,
)
    requires
        call_ensures(MemoryStore::set_identity_cert, (store, name, pem), r),
        call_ensures(MemoryStore::get_identity, (&*old(store), name), before),
        call_ensures(MemoryStore::get_identity, (&*final(store), name), after),
    ensures
        r is Ok <==> before is Some,
        before is Some ==> (seen(after) matches Some(a) && seen(before) matches Some(b)
            && a.certificate_pem == Some(pem@) && a.key_object_id == b.key_object_id
            && a.rotated_from == b.rotated_from && a.id == b.id && a.name == b.name && a.policy_id
            == b.policy_id && a.usage == b.usage && a.subject == b.subject && a.created_at
            == b.created_at),
        before is None ==> after is None,
{
    position_is_first::<Identity>(old(store)@.identities, name@);
    identity_stays_in_place(old(store)@.identities, final(store)@.identities, name@);
}

/// Where the identities keep their names, a name finds the same place.
proof fn identity_stays_in_place(
    s: Seq<crate::model::IdentityView>,
    t: Seq<crate::model::IdentityView>,
    name: Seq<char>,
)
    requires
        s.len() == t.len(),
        forall|i: int| 0 <= i < s.len() ==> (#[trigger] t[i]).name == s[i].name,
    ensures
        position::<Identity>(t, name) == position::<Identity>(s, name),
{
    let at = position::<Identity>(s, name);
    position_is_first::<Identity>(s, name);
    assert forall|i: int| 0 <= i < at implies Identity::key_of(#[trigger] t[i]) != name by {
        assert(Identity::key_of(s[i]) != name);
    }
    position_is::<Identity>(t, name, at);
}

/// An identity that was deleted is not found any more, and every other name
/// finds what it found before.
pub proof fn deleted_identity_is_gone(
    store: &mut MemoryStore,
    deleted: &str,
    r: bool,
    name: &str,
    before: Option<&Identity>,
    after: Option<&Identity>,
)
    requires
        call_ensures(MemoryStore::delete_identity, (store, deleted), r),
        call_ensures(MemoryStore::get_identity, (&*old(store), name), before),
        call_ensures(MemoryStore::get_identity, (&*final(store), name), after),
    ensures
        name@ == deleted@ ==> after is None && (r <==> before is Some),
        name@ != deleted@ ==> seen(after) == seen(before),
{
    without_removes::<Identity>(old(store)@.identities, deleted@);
    if name@ != deleted@ {
        without_keeps_others::<Identity>(old(store)@.identities, deleted@, name@);
    }
}

/// The identities that use a key are just those whose key it is.
pub proof fn identities_by_key_use_the_key(store: &MemoryStore, key: u128, r: Vec<&Identity>)
    requires
        call_ensures(MemoryStore::get_identity_by_key, (store, key), r),
    ensures
        forall|i: int|
            0 <= i < r@.len() ==> (#[trigger] r@[i])@.key_object_id == key
                && store@.identities.contains(r@[i]@),
        forall|i: int|
            0 <= i < store@.identities.len() && (#[trigger] store@.identities[i]).key_object_id
                == key ==> exists|k: int|
                0 <= k < r@.len() && (#[trigger] r@[k])@ == store@.identities[i],
{
    let s = store@.identities;
    users_of_key(s, key);
    let found = crate::store::identities_of(s, key);
    assert forall|i: int| 0 <= i < r@.len() implies (#[trigger] r@[i])@.key_object_id == key
        && s.contains(r@[i]@) by {
        assert(ref_rows(r@)[i] == found[i]);
    }
    assert forall|i: int| 0 <= i < s.len() && (#[trigger] s[i]).key_object_id
        == key implies exists|k: int| 0 <= k < r@.len() && (#[trigger] r@[k])@ == s[i] by {
        assert(found.contains(s[i]));
        let k = choose|k: int| 0 <= k < found.len() && found[k] == s[i];
        assert(ref_rows(r@)[k] == found[k]);
        assert(r@[k]@ == s[i]);
    }
}

proof fn users_of_key(s: Seq<crate::model::IdentityView>, key: u128)
    ensures
        forall|i: int|
            0 <= i < crate::store::identities_of(s, key).len() ==> (
            #[trigger] crate::store::identities_of(s, key)[i]).key_object_id == key && s.contains(
                crate::store::identities_of(s, key)[i],
            ),
        forall|i: int|
            0 <= i < s.len() && (#[trigger] s[i]).key_object_id == key
                ==> crate::store::identities_of(s, key).contains(s[i]),
    decreases s.len(),
{
    if s.len() > 0 {
        let rest = s.drop_last();
        users_of_key(rest, key);
        let before = crate::store::identities_of(rest, key);
        let found = crate::store::identities_of(s, key);
        assert forall|i: int| 0 <= i < found.len() implies (#[trigger] found[i]).key_object_id
            == key && s.contains(found[i]) by {
            if i < before.len() {
                assert(found[i] == before[i]);
                let k = choose|k: int| 0 <= k < rest.len() && rest[k] == before[i];
                assert(s[k] == found[i]);
            } else {
                assert(s[s.len() - 1] == found[i]);
            }
        }
        assert forall|i: int| 0 <= i < s.len() && (#[trigger] s[i]).key_object_id
            == key implies found.contains(s[i]) by {
            if i < rest.len() {
                assert(rest[i] == s[i]);
                assert(before.contains(rest[i]));
                let k = choose|k: int| 0 <= k < before.len() && before[k] == rest[i];
                assert(found[k] == s[i]);
            } else {
                assert(found[found.len() - 1] == s[i]);
            }
        }
    }
}

// ---------------------------------------------------------------------------
// Checkpoint counters
// ---------------------------------------------------------------------------

/// The counter value of a checkpoint is the one that was last recorded for it,
/// and no other checkpoint is affected. The greatest value covers both.
pub proof fn recorded_counter_is_got(
    store: &mut MemoryStore,
    hash: &str,
    value: u64,
    other: &str,
    before: Option<u64>,
    after: Option<u64>,
    greatest: Option<u64>,
)
    requires
        call_ensures(MemoryStore::set_checkpoint_counter, (store, hash, value), ()),
        call_ensures(MemoryStore::get_checkpoint_counter, (&*old(store), other), before),
        call_ensures(MemoryStore::get_checkpoint_counter, (&*final(store), other), after),
        call_ensures(MemoryStore::max_checkpoint_counter, (&*final(store),), greatest),
    ensures
        other@ == hash@ ==> after == Some(value),
        other@ != hash@ ==> after == before,
        after matches Some(n) ==> (greatest matches Some(m) && n <= m),
        greatest matches Some(m) && value <= m,
{
    let s = old(store)@.checkpoint_counters;
    let t = final(store)@.checkpoint_counters;
    let away = hash@.push('x');
    assert(away != hash@) by {
        assert(away.len() != hash@.len());
    }
    recorded_counter_is_found(s, hash@, value, away);
    if other@ != hash@ {
        recorded_counter_is_found(s, hash@, value, other@);
    }
    position_is_first::<Counter>(t, hash@);
    position_is_first::<Counter>(t, other@);
    assert(t[position::<Counter>(t, hash@)].value == value);
}

} // verus!
