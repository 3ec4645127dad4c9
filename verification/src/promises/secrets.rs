//! Secrets: what is sealed can be unsealed, and what is shown of it.
use vstd::prelude::*;

use crate::clock::Moment;
use crate::commands::secret::{
    big_endian, seal_at, seal_check, seal_digest, seal_policy, sealed_size, unseal_at, unseal_check,
};
use crate::failure::Failure;
use crate::model::{valid_path, ObjectKind, ObjectPath, Policy, TpmObject};
use crate::promises::keys::{logs_once, only_objects_change, others_stay, push_keeps_others};
use crate::store::MemoryStore;
use crate::table::lookup;

verus! {

/// A secret that was sealed is what the TPM is asked to open: the same sealed
/// data, under the same policy. Its size can be read off the object; every other
/// path finds what it found before, and the sealing is logged once.
pub proof fn sealed_secret_is_unsealed(
    store: &mut MemoryStore,
    path: ObjectPath,
    policy_id: Option<u128>,
    blob: Vec<u8>,
    size: usize,
    input: &str,
    id: u128,
    at: &Moment,
    r: Result<String, Failure>,
    name: &str,
    opened: Result<Vec<u8>, Failure>,
)
    requires
        call_ensures(seal_at, (store, path, policy_id, blob, size, input, id, at), r),
        r is Ok,
        name@ == path@,
        valid_path(path@),
        call_ensures(unseal_check, (&*final(store), name), opened),
    ensures
        opened matches Ok(b) && b@ == blob@,
        lookup::<TpmObject>(final(store)@.objects, path@) matches Some(o) && o.kind
            == ObjectKind::SealedBlob && o.policy_id == policy_id && o.id == id && o.created_at
            == at.rfc3339@ && sealed_size(o) == Some(size as u64),
        others_stay(old(store)@, final(store)@, path@),
        only_objects_change(old(store)@, final(store)@),
        logs_once(old(store)@, final(store)@, "secret.seal"@, Some(path@), at.stamp@),
{
    push_keeps_others(old(store)@.objects, final(store)@.objects.last());
    assert(final(store)@.audit_log.drop_last() =~= old(store)@.audit_log);
}

/// A name that passes the check is free, and sealing under a free name succeeds;
/// under a taken one it changes nothing.
pub proof fn secret_is_sealed_once(
    store: &mut MemoryStore,
    name: &str,
    checked: Result<ObjectPath, Failure>,
    path: ObjectPath,
    policy_id: Option<u128>,
    blob: Vec<u8>,
    size: usize,
    input: &str,
    id: u128,
    at: &Moment,
    r: Result<String, Failure>,
)
    requires
        call_ensures(seal_check, (&*old(store), name), checked),
        path@ == name@,
        call_ensures(seal_at, (store, path, policy_id, blob, size, input, id, at), r),
    ensures
        checked is Ok <==> valid_path(name@) && r is Ok,
        checked matches Ok(p) ==> p@ == name@,
        r is Ok <==> lookup::<TpmObject>(old(store)@.objects, name@) is None,
        r is Err ==> final(store)@ == old(store)@,
{
}

/// A key is no secret: only a sealed object is handed to the TPM to be opened.
pub proof fn only_secrets_are_unsealed(
    store: &MemoryStore,
    name: &str,
    opened: Result<Vec<u8>, Failure>,
)
    requires
        call_ensures(unseal_check, (store, name), opened),
    ensures
        opened is Ok <==> valid_path(name@) && (lookup::<TpmObject>(
            store@.objects,
            name@,
        ) matches Some(o) && o.kind == ObjectKind::SealedBlob && o.handle_blob is Some),
{
}

/// A policy that is named for sealing is the one that the store has under that
/// name; without a name there is none.
pub proof fn named_policy_guards_the_secret(
    store: &MemoryStore,
    name: &str,
    r: Result<Option<u128>, Failure>,
    none: Result<Option<u128>, Failure>,
)
    requires
        call_ensures(seal_policy, (store, Some(name)), r),
        call_ensures(seal_policy, (store, None), none),
    ensures
        match lookup::<Policy>(store@.policies, name@) {
            Some(p) => r == Ok::<Option<u128>, Failure>(Some(p.id)),
            None => r is Err,
        },
        none == Ok::<Option<u128>, Failure>(None),
{
}

/// The value of bytes, the most significant first.
pub open spec fn bytes_value(s: Seq<u8>) -> int
    decreases s.len(),
{
    if s.len() == 0 {
        0
    } else {
        bytes_value(s.drop_last()) * 256 + s.last()
    }
}

/// Two to the eighth, `k` times.
spec fn byte_range(k: nat) -> int
    decreases k,
{
    if k == 0 {
        1
    } else {
        byte_range((k - 1) as nat) * 256
    }
}

proof fn big_endian_value(n: int, k: nat)
    requires
        0 <= n < byte_range(k),
    ensures
        big_endian(n, k).len() == k,
        bytes_value(big_endian(n, k)) == n,
    decreases k,
{
    if k > 0 {
        let m = (k - 1) as nat;
        assert(n / 256 < byte_range(m)) by (nonlinear_arith)
            requires
                0 <= n < byte_range(m) * 256,
        ;
        big_endian_value(n / 256, m);
        assert(big_endian(n, k).drop_last() =~= big_endian(n / 256, m));
    }
}

/// The digest for a policy has sixteen bytes whose value is the policy's
/// identifier, so that different policies have different digests; without a
/// policy there is none.
pub proof fn policy_digest_is_the_identifier(
    a: u128,
    b: u128,
    da: Option<Vec<u8>>,
    db: Option<Vec<u8>>,
    none: Option<Vec<u8>>,
)
    requires
        call_ensures(seal_digest, (Some(a),), da),
        call_ensures(seal_digest, (Some(b),), db),
        call_ensures(seal_digest, (None,), none),
    ensures
        da matches Some(d) && d@.len() == 16 && bytes_value(d@) == a,
        a != b ==> da is Some && db is Some && da->0@ != db->0@,
        none is None,
{
    reveal_with_fuel(byte_range, 17);
    assert(byte_range(16) == 0x100000000000000000000000000000000);
    big_endian_value(a as int, 16);
    big_endian_value(b as int, 16);
}

/// Unsealing changes nothing but the log, which gains one entry about the
/// secret. What went to a file is not shown: two secrets of the same length then
/// print alike.
pub proof fn unsealing_to_a_file_shows_nothing(
    store: &mut MemoryStore,
    other: &mut MemoryStore,
    path: &str,
    a: &Vec<u8>,
    b: &Vec<u8>,
    file: &str,
    stamp: &str,
    s: String,
    t: String,
)
    requires
        a@.len() == b@.len(),
        call_ensures(unseal_at, (store, path, a, Some(file), stamp), s),
        call_ensures(unseal_at, (other, path, b, Some(file), stamp), t),
    ensures
        s@ == t@,
        final(store)@.objects == old(store)@.objects,
        only_objects_change(old(store)@, final(store)@),
        logs_once(old(store)@, final(store)@, "secret.unseal"@, Some(path@), stamp@),
{
    assert(final(store)@.audit_log.drop_last() =~= old(store)@.audit_log);
}

} // verus!
