//! Keys and attestation keys: what is created can be used, and what is deleted
//! cannot.
use vstd::prelude::*;

use crate::clock::Moment;
use crate::commands::attest::{ak_create_at, ak_create_check, quote_key};
use crate::commands::common::{class_list, objects_of, of_class, ObjectClass};
use crate::commands::key::{create_at, create_check, delete_at, sign_at, sign_key};
use crate::failure::Failure;
use crate::model::{valid_path, Algorithm, KeyHandle, ObjectKind, ObjectPath, ObjectView, TpmObject};
use crate::store::{MemoryStore, StoreState};
use crate::table::{
    lookup, lookup_of_push, present, ref_rows, sorted, sorted_is_ordered, without_keeps_others,
    without_removes,
};

verus! {

/// Just one action was logged, about this object, and nothing that was logged
/// before has changed.
pub open spec fn logs_once(
    before: StoreState,
    after: StoreState,
    action: Seq<char>,
    object: Option<Seq<char>>,
    stamp: Seq<char>,
) -> bool {
    &&& after.audit_log.len() == before.audit_log.len() + 1
    &&& after.audit_log.drop_last() == before.audit_log
    &&& after.audit_log.last().action == action
    &&& after.audit_log.last().object_path == object
    &&& after.audit_log.last().timestamp == stamp
    &&& after.audit_log.last().id == before.next_audit_id
}

/// Every path but one finds what it found before.
pub open spec fn others_stay(before: StoreState, after: StoreState, path: Seq<char>) -> bool {
    forall|other: Seq<char>|
        other != path ==> #[trigger] lookup::<TpmObject>(after.objects, other) == lookup::<
            TpmObject,
        >(before.objects, other)
}

/// Nothing but the objects and the log differs.
pub open spec fn only_objects_change(before: StoreState, after: StoreState) -> bool {
    &&& after.profiles == before.profiles
    &&& after.policies == before.policies
    &&& after.nv_indices == before.nv_indices
    &&& after.pcr_baselines == before.pcr_baselines
    &&& after.approvals == before.approvals
    &&& after.identities == before.identities
    &&& after.checkpoint_counters == before.checkpoint_counters
}

pub(crate) proof fn push_keeps_others(s: Seq<ObjectView>, o: ObjectView)
    requires
        !present::<TpmObject>(s, o.path),
    ensures
        lookup::<TpmObject>(s.push(o), o.path) == Some(o),
        forall|other: Seq<char>|
            other != o.path ==> #[trigger] lookup::<TpmObject>(s.push(o), other) == lookup::<
                TpmObject,
            >(s, other),
{
    lookup_of_push::<TpmObject>(s, o, o.path);
    assert forall|other: Seq<char>| other != o.path implies #[trigger] lookup::<TpmObject>(
        s.push(o),
        other,
    ) == lookup::<TpmObject>(s, other) by {
        lookup_of_push::<TpmObject>(s, o, other);
    }
}

pub(crate) proof fn removal_keeps_others(s: Seq<ObjectView>, path: Seq<char>)
    ensures
        lookup::<TpmObject>(crate::table::without::<TpmObject>(s, path), path) is None,
        forall|other: Seq<char>|
            other != path ==> #[trigger] lookup::<TpmObject>(
                crate::table::without::<TpmObject>(s, path),
                other,
            ) == lookup::<TpmObject>(s, other),
{
    without_removes::<TpmObject>(s, path);
    assert forall|other: Seq<char>| other != path implies #[trigger] lookup::<TpmObject>(
        crate::table::without::<TpmObject>(s, path),
        other,
    ) == lookup::<TpmObject>(s, other) by {
        without_keeps_others::<TpmObject>(s, path, other);
    }
}

/// A key that was created signs with the handle that the TPM gave it. It is a
/// signing key of the algorithm, the identifier and the time that it was given;
/// every other path finds what it found before, and the creation is logged once.
pub proof fn created_key_signs(
    store: &mut MemoryStore,
    path: ObjectPath,
    algorithm: Algorithm,
    handle: Vec<u8>,
    id: u128,
    at: &Moment,
    r: Result<String, Failure>,
    name: &str,
    h: Result<KeyHandle, Failure>,
)
    requires
        call_ensures(create_at, (store, path, algorithm, handle, id, at), r),
        r is Ok,
        name@ == path@,
        valid_path(path@),
        call_ensures(sign_key, (&*final(store), name), h),
    ensures
        h matches Ok(k) && k.id@ == handle@ && k.path@ == path@,
        lookup::<TpmObject>(final(store)@.objects, path@) matches Some(o) && o.kind
            == ObjectKind::SigningKey && o.algorithm == algorithm && o.id == id && o.created_at
            == at.rfc3339@ && o.handle_blob == Some(handle@) && o.policy_id is None,
        !present::<TpmObject>(old(store)@.objects, path@),
        others_stay(old(store)@, final(store)@, path@),
        only_objects_change(old(store)@, final(store)@),
        logs_once(old(store)@, final(store)@, "key.create"@, Some(path@), at.stamp@),
{
    push_keeps_others(old(store)@.objects, final(store)@.objects.last());
    assert(final(store)@.audit_log.drop_last() =~= old(store)@.audit_log);
}

/// A path that is taken is refused, and the store stays as it was; a path that
/// is free is not.
pub proof fn key_is_created_once(
    store: &mut MemoryStore,
    path: ObjectPath,
    algorithm: Algorithm,
    handle: Vec<u8>,
    id: u128,
    at: &Moment,
    r: Result<String, Failure>,
)
    requires
        call_ensures(create_at, (store, path, algorithm, handle, id, at), r),
    ensures
        r is Ok <==> lookup::<TpmObject>(old(store)@.objects, path@) is None,
        r is Err ==> final(store)@ == old(store)@,
{
}

/// What passes the check is created: the check is for a valid path where nothing
/// stands and for an algorithm by its name.
pub proof fn checked_key_is_created(
    store: &mut MemoryStore,
    path: &str,
    algorithm: &str,
    checked: Result<(ObjectPath, Algorithm), Failure>,
    handle: Vec<u8>,
    id: u128,
    at: &Moment,
    r: Result<String, Failure>,
)
    requires
        call_ensures(create_check, (&*old(store), path, algorithm), checked),
        checked matches Ok((p, a)) ==> call_ensures(create_at, (store, p, a, handle, id, at), r),
    ensures
        checked is Ok ==> r is Ok && checked->Ok_0.0@ == path@ && Algorithm::named(algorithm@)
            == Some(checked->Ok_0.1),
        checked is Err <==> !valid_path(path@) || present::<TpmObject>(old(store)@.objects, path@)
            || Algorithm::named(algorithm@) is None,
{
}

/// A key that was deleted cannot sign any more; every other path finds what it
/// found before, and the deletion is logged once. A path where nothing stands
/// is refused, and the store stays as it was.
pub proof fn deleted_key_does_not_sign(
    store: &mut MemoryStore,
    path: &str,
    stamp: &str,
    r: Result<String, Failure>,
    h: Result<KeyHandle, Failure>,
)
    requires
        call_ensures(delete_at, (store, path, stamp), r),
        call_ensures(sign_key, (&*final(store), path), h),
    ensures
        h is Err,
        r is Ok <==> valid_path(path@) && lookup::<TpmObject>(old(store)@.objects, path@) is Some,
        r is Ok ==> lookup::<TpmObject>(final(store)@.objects, path@) is None && others_stay(
            old(store)@,
            final(store)@,
            path@,
        ) && only_objects_change(old(store)@, final(store)@) && logs_once(
            old(store)@,
            final(store)@,
            "key.delete"@,
            Some(path@),
            stamp@,
        ),
        r is Err ==> final(store)@ == old(store)@,
{
    removal_keeps_others(old(store)@.objects, path@);
    if r is Ok {
        assert(final(store)@.audit_log.drop_last() =~= old(store)@.audit_log);
    }
}

/// Signing changes nothing but the log, which gains one entry about the key.
pub proof fn signing_is_only_logged(
    store: &mut MemoryStore,
    key: &str,
    input: &str,
    signature: &Vec<u8>,
    output: Option<&str>,
    stamp: &str,
    s: String,
)
    requires
        call_ensures(sign_at, (store, key, input, signature, output, stamp), s),
    ensures
        final(store)@.objects == old(store)@.objects,
        only_objects_change(old(store)@, final(store)@),
        logs_once(old(store)@, final(store)@, "key.sign"@, Some(key@), stamp@),
{
    assert(final(store)@.audit_log.drop_last() =~= old(store)@.audit_log);
}

/// An attestation key that was created can be asked for a quote, with the handle
/// that the TPM gave it; every other path finds what it found before, and the
/// creation is logged once.
pub proof fn created_attestation_key_quotes(
    store: &mut MemoryStore,
    path: ObjectPath,
    algorithm: Algorithm,
    handle: Vec<u8>,
    id: u128,
    at: &Moment,
    r: Result<String, Failure>,
    name: &str,
    h: Result<KeyHandle, Failure>,
)
    requires
        call_ensures(ak_create_at, (store, path, algorithm, handle, id, at), r),
        r is Ok,
        name@ == path@,
        valid_path(path@),
        call_ensures(quote_key, (&*final(store), name), h),
    ensures
        h matches Ok(k) && k.id@ == handle@ && k.path@ == path@,
        lookup::<TpmObject>(final(store)@.objects, path@) matches Some(o) && o.algorithm
            == algorithm && o.id == id && o.created_at == at.rfc3339@,
        others_stay(old(store)@, final(store)@, path@),
        only_objects_change(old(store)@, final(store)@),
        logs_once(old(store)@, final(store)@, "ak.create"@, Some(path@), at.stamp@),
{
    push_keeps_others(old(store)@.objects, final(store)@.objects.last());
    assert(final(store)@.audit_log.drop_last() =~= old(store)@.audit_log);
}

/// A key that was made for signing is not asked for a quote.
pub proof fn signing_key_does_not_quote(
    store: &mut MemoryStore,
    path: ObjectPath,
    algorithm: Algorithm,
    handle: Vec<u8>,
    id: u128,
    at: &Moment,
    r: Result<String, Failure>,
    name: &str,
    h: Result<KeyHandle, Failure>,
)
    requires
        call_ensures(create_at, (store, path, algorithm, handle, id, at), r),
        r is Ok,
        name@ == path@,
        call_ensures(quote_key, (&*final(store), name), h),
    ensures
        h is Err,
{
    push_keeps_others(old(store)@.objects, final(store)@.objects.last());
}

/// What passes the check for an attestation key is created.
pub proof fn checked_attestation_key_is_created(
    store: &mut MemoryStore,
    path: &str,
    algorithm: &str,
    checked: Result<(ObjectPath, Algorithm), Failure>,
    handle: Vec<u8>,
    id: u128,
    at: &Moment,
    r: Result<String, Failure>,
)
    requires
        call_ensures(ak_create_check, (&*old(store), path, algorithm), checked),
        checked matches Ok((p, a)) ==> call_ensures(
            ak_create_at,
            (store, p, a, handle, id, at),
            r,
        ),
    ensures
        checked is Ok ==> r is Ok && checked->Ok_0.0@ == path@ && Algorithm::named(algorithm@)
            == Some(checked->Ok_0.1),
        checked is Err <==> !valid_path(path@) || present::<TpmObject>(old(store)@.objects, path@)
            || Algorithm::named(algorithm@) is None,
{
}

/// The objects of a class are just those of the store that belong to it, in the
/// order of their paths.
pub proof fn class_lists_its_objects(store: &MemoryStore, c: ObjectClass, r: Vec<&TpmObject>)
    requires
        call_ensures(objects_of, (store, c), r),
    ensures
        forall|i: int|
            0 <= i < r@.len() ==> store@.objects.contains((#[trigger] r@[i])@) && c.has(
                r@[i]@.kind,
            ),
        forall|i: int|
            0 <= i < store@.objects.len() && c.has((#[trigger] store@.objects[i]).kind)
                ==> ref_rows(r@).contains(store@.objects[i]),
        forall|i: int, j: int|
            0 <= i < j < r@.len() ==> crate::text::text_le(
                (#[trigger] r@[i])@.path,
                (#[trigger] r@[j])@.path,
            ),
{
    let s = store@.objects;
    let all = sorted::<TpmObject>(s);
    sorted_is_ordered::<TpmObject>(s);
    class_members(all, c, all.len());
    let list = class_list(store@, c);
    assert forall|i: int| 0 <= i < r@.len() implies s.contains((#[trigger] r@[i])@) && c.has(
        r@[i]@.kind,
    ) by {
        assert(ref_rows(r@)[i] == list[i]);
        let k = choose|k: int| 0 <= k < all.len() && all[k] == list[i];
        assert(all.to_multiset().count(all[k]) > 0) by {
            all.to_multiset_ensures();
            assert(all.contains(all[k]));
        }
        s.to_multiset_ensures();
    }
    assert forall|i: int| 0 <= i < s.len() && c.has((#[trigger] s[i]).kind) implies ref_rows(
        r@,
    ).contains(s[i]) by {
        s.to_multiset_ensures();
        all.to_multiset_ensures();
        assert(s.contains(s[i]));
        assert(s.to_multiset().count(s[i]) > 0);
        assert(all.to_multiset().count(s[i]) > 0);
        assert(all.contains(s[i]));
        let k = choose|k: int| 0 <= k < all.len() && all[k] == s[i];
        assert(list.contains(all[k]));
    }
    assert forall|i: int, j: int| 0 <= i < j < r@.len() implies crate::text::text_le(
        (#[trigger] r@[i])@.path,
        (#[trigger] r@[j])@.path,
    ) by {
        assert(ref_rows(r@)[i] == list[i]);
        assert(ref_rows(r@)[j] == list[j]);
    }
}

proof fn class_members(s: Seq<ObjectView>, c: ObjectClass, n: nat)
    requires
        n <= s.len(),
        crate::table::ordered::<TpmObject>(s),
    ensures
        forall|i: int|
            0 <= i < of_class(s, c, n).len() ==> s.contains(#[trigger] of_class(s, c, n)[i])
                && c.has(of_class(s, c, n)[i].kind),
        forall|i: int|
            0 <= i < n && c.has((#[trigger] s[i]).kind) ==> of_class(s, c, n).contains(s[i]),
        forall|i: int, j: int|
            0 <= i < j < of_class(s, c, n).len() ==> crate::text::text_le(
                (#[trigger] of_class(s, c, n)[i]).path,
                (#[trigger] of_class(s, c, n)[j]).path,
            ),
        of_class(s, c, n).len() > 0 ==> exists|k: int|
            0 <= k < n && #[trigger] s[k] == of_class(s, c, n).last(),
    decreases n,
{
    if n > 0 {
        let m = (n - 1) as nat;
        class_members(s, c, m);
        let before = of_class(s, c, m);
        let list = of_class(s, c, n);
        assert forall|i: int| 0 <= i < list.len() implies s.contains(#[trigger] list[i]) && c.has(
            list[i].kind,
        ) by {
            if i < before.len() {
                assert(list[i] == before[i]);
            } else {
                assert(s[m as int] == list[i]);
            }
        }
        assert forall|i: int| 0 <= i < n && c.has((#[trigger] s[i]).kind) implies list.contains(
            s[i],
        ) by {
            if i < m {
                assert(before.contains(s[i]));
                let k = choose|k: int| 0 <= k < before.len() && before[k] == s[i];
                assert(list[k] == s[i]);
            } else {
                assert(list[list.len() - 1] == s[i]);
            }
        }
        assert forall|i: int, j: int| 0 <= i < j < list.len() implies crate::text::text_le(
            (#[trigger] list[i]).path,
            (#[trigger] list[j]).path,
        ) by {
            if j < before.len() {
                assert(list[i] == before[i] && list[j] == before[j]);
            } else {
                assert(list[j] == s[m as int]);
                assert(list[i] == before[i]);
                let k = choose|k: int| 0 <= k < m && #[trigger] s[k] == before.last();
                assert(crate::text::text_le(s[k].path, s[m as int].path));
                if i < before.len() - 1 {
                    assert(before[before.len() - 1] == before.last());
                    crate::text::text_le_transitive(before[i].path, before.last().path, s[m as int].path);
                }
            }
        }
        if c.has(s[m as int].kind) {
            assert(s[m as int] == list.last());
        } else if list.len() > 0 {
            let k = choose|k: int| 0 <= k < m && #[trigger] s[k] == before.last();
            assert(s[k] == list.last());
        }
    }
}

} // verus!
