//! Policies and identities: what is created is found and asks for what it was
//! created to ask for.
use vstd::prelude::*;

use crate::clock::Moment;
use crate::commands::attest::{policy_of_metadata, AuthorizedPolicy};
use crate::commands::identity::{
    authority_key, init, init_check, init_identity_at, Binding, BindingView, InitPlan,
};
use crate::commands::key::sign_key;
use crate::commands::policy::{create_at, delete, explain, show};
use crate::commands::secret::seal_policy;
use crate::failure::Failure;
use crate::model::{
    Algorithm, Identity, IdentityUsage, KeyHandle, ObjectKind, Policy, RuleView, TpmObject,
};
use crate::promises::keys::{logs_once, others_stay, push_keeps_others};
use crate::store::{MemoryStore, StoreState};
use crate::table::{
    lookup, lookup_id, lookup_id_of_push, lookup_of_push, position_id_is_first,
    without_keeps_others, without_removes,
};
use crate::text::opt_str;

verus! {

/// Every name but one finds the policy that it found before.
pub open spec fn other_policies_stay(before: StoreState, after: StoreState, name: Seq<char>) -> bool {
    forall|other: Seq<char>|
        other != name ==> #[trigger] lookup::<Policy>(after.policies, other) == lookup::<Policy>(
            before.policies,
            other,
        )
}

/// A policy that was created is found under its name with its identifier. It
/// asks for the registers just where some were named, in their bank and their
/// order, and for a password just where one was asked for; it asks for nothing
/// else.
pub proof fn created_policy_asks_for_what_was_named(
    store: &mut MemoryStore,
    name: &str,
    indices: &Vec<u32>,
    bank: &str,
    password: bool,
    id: u128,
    stamp: &str,
    r: Result<String, Failure>,
    guard: Result<Option<u128>, Failure>,
)
    requires
        call_ensures(create_at, (store, name, indices, bank, password, id, stamp), r),
        call_ensures(seal_policy, (&*final(store), Some(name)), guard),
    ensures
        r is Ok <==> lookup::<Policy>(old(store)@.policies, name@) is None,
        r is Ok ==> guard == Ok::<Option<u128>, Failure>(Some(id)),
        r is Ok ==> (lookup::<Policy>(final(store)@.policies, name@) matches Some(p) && p.id == id
            && (p.rules.contains(RuleView::PcrMatch { bank: bank@, indices: indices@ })
            <==> indices@.len() > 0) && (p.rules.contains(RuleView::Password) <==> password)
            && p.rules.len() == (if indices@.len() > 0 {
            1int
        } else {
            0
        }) + (if password {
            1int
        } else {
            0
        })),
        r is Ok ==> other_policies_stay(old(store)@, final(store)@, name@),
        r is Ok ==> logs_once(old(store)@, final(store)@, "policy.create"@, None, stamp@),
        r is Err ==> final(store)@ == old(store)@,
{
    if r is Ok {
        let s = old(store)@.policies;
        let p = final(store)@.policies.last();
        lookup_of_push::<Policy>(s, p, name@);
        assert forall|other: Seq<char>| other != name@ implies #[trigger] lookup::<Policy>(
            final(store)@.policies,
            other,
        ) == lookup::<Policy>(s, other) by {
            lookup_of_push::<Policy>(s, p, other);
        }
        let registers = RuleView::PcrMatch { bank: bank@, indices: indices@ };
        if indices@.len() > 0 {
            assert(p.rules[0] == registers);
        }
        if password {
            assert(p.rules[p.rules.len() - 1] == RuleView::Password);
        }
        assert(final(store)@.audit_log.drop_last() =~= old(store)@.audit_log);
    }
}

/// A policy that was deleted can be neither shown nor explained nor sealed under;
/// every other name finds what it found before.
pub proof fn deleted_policy_guards_nothing(
    store: &mut MemoryStore,
    name: &str,
    r: Result<String, Failure>,
    shown: Result<String, Failure>,
    explained: Result<String, Failure>,
    guard: Result<Option<u128>, Failure>,
)
    requires
        call_ensures(delete, (store, name), r),
        call_ensures(show, (&*final(store), name), shown),
        call_ensures(explain, (&*final(store), name), explained),
        call_ensures(seal_policy, (&*final(store), Some(name)), guard),
    ensures
        r is Ok <==> lookup::<Policy>(old(store)@.policies, name@) is Some,
        shown is Err,
        explained is Err,
        guard is Err,
        other_policies_stay(old(store)@, final(store)@, name@),
        final(store)@.objects == old(store)@.objects,
{
    let s = old(store)@.policies;
    without_removes::<Policy>(s, name@);
    assert forall|other: Seq<char>| other != name@ implies #[trigger] lookup::<Policy>(
        final(store)@.policies,
        other,
    ) == lookup::<Policy>(s, other) by {
        without_keeps_others::<Policy>(s, name@, other);
    }
}

/// A policy is shown and explained just where it is there.
pub proof fn known_policy_is_shown(
    store: &MemoryStore,
    name: &str,
    shown: Result<String, Failure>,
    explained: Result<String, Failure>,
)
    requires
        call_ensures(show, (store, name), shown),
        call_ensures(explain, (store, name), explained),
    ensures
        shown is Ok <==> lookup::<Policy>(store@.policies, name@) is Some,
        explained is Ok <==> shown is Ok,
{
}

// ---------------------------------------------------------------------------
// Identities
// ---------------------------------------------------------------------------

/// The options ask for one binding: an authority is bound to nothing, an
/// authority's approval needs registers, and registers alone bind to their
/// present state.
pub proof fn options_ask_for_one_binding(
    authority: bool,
    by: Option<&str>,
    bind: Option<Vec<u32>>,
    r: Result<Binding, Failure>,
)
    requires
        call_ensures(init, (authority, by, bind), r),
    ensures
        r is Ok <==> (if authority {
            by is None && bind is None
        } else {
            by is Some ==> bind is Some
        }),
        r matches Ok(b) ==> (b@ is Authority <==> authority),
        r matches Ok(b) ==> (b@ is Authorized <==> by is Some),
        r matches Ok(b) ==> (b@ is Free <==> !authority && bind is None),
        r matches Ok(b) ==> (b@ matches BindingView::Authorized { authority: a, indices } ==> a
            == by->0@ && indices == bind->0@),
        r matches Ok(b) ==> (b@ matches BindingView::Registers(v) ==> v == bind->0@),
{
}

/// What passes the check is kept. The identity is then found by its name with
/// its usage and its subject; its key signs with the handle that the TPM gave,
/// and is the key by which the identity can itself be an authority. Every other
/// path finds what it found before.
pub proof fn checked_identity_is_kept(
    store: &mut MemoryStore,
    binding: &Binding,
    name: &str,
    usage: &str,
    algorithm: &str,
    key_path: Option<&str>,
    plan: InitPlan,
    policy_id: Option<u128>,
    subject: Option<&str>,
    handle: Vec<u8>,
    key_id: u128,
    key_created_at: &str,
    id: u128,
    at: &Moment,
    r: Result<String, Failure>,
    path: &str,
    h: Result<KeyHandle, Failure>,
    fresh: &str,
    approver: Result<KeyHandle, Failure>,
)
    requires
        call_ensures(
            init_check,
            (&*old(store), binding, name, usage, algorithm, key_path),
            Ok::<InitPlan, Failure>(plan),
        ),
        call_ensures(
            init_identity_at,
            (
                store,
                binding,
                name,
                plan,
                policy_id,
                subject,
                handle,
                key_id,
                key_created_at,
                id,
                at,
            ),
            r,
        ),
        lookup_id::<TpmObject>(old(store)@.objects, key_id) is None,
        path@ == plan.path@,
        call_ensures(sign_key, (&*final(store), path), h),
        lookup::<Identity>(final(store)@.identities, fresh@) is None,
        call_ensures(authority_key, (&*final(store), fresh, name), approver),
    ensures
        r is Ok,
        h matches Ok(k) && k.id@ == handle@,
        approver matches Ok(k) && k.id@ == handle@ && k.path@ == plan.path@,
        lookup::<Identity>(final(store)@.identities, name@) matches Some(i) && i.usage == plan.usage
            && i.subject == opt_str(subject) && i.key_object_id == key_id && i.id == id
            && i.certificate_pem is None && i.rotated_from is None && i.policy_id == (
        if binding@ is Free {
            policy_id
        } else {
            None
        }),
        lookup::<TpmObject>(final(store)@.objects, plan.path@) matches Some(o) && o.kind
            == ObjectKind::SigningKey && o.algorithm == plan.algorithm && o.id == key_id,
        others_stay(old(store)@, final(store)@, plan.path@),
        logs_once(old(store)@, final(store)@, "identity.init"@, Some(name@), at.stamp@),
        Algorithm::named(algorithm@) == Some(plan.algorithm),
        IdentityUsage::named(usage@) == Some(plan.usage),
        key_path matches Some(p) ==> plan.path@ == p@,
        key_path is None && !(binding@ is Authority) ==> plan.path@ == "signing/"@ + name@,
        key_path is None && binding@ is Authority ==> plan.path@ == "authority/"@ + name@,
{
    let key = final(store)@.objects.last();
    let identity = final(store)@.identities.last();
    push_keeps_others(old(store)@.objects, key);
    lookup_of_push::<Identity>(old(store)@.identities, identity, name@);
    position_id_is_first::<TpmObject>(old(store)@.objects, key_id);
    lookup_id_of_push::<TpmObject>(old(store)@.objects, key, key_id);
    assert(final(store)@.audit_log.drop_last() =~= old(store)@.audit_log);
}

/// The key of an identity that an authority approves says so: its metadata read
/// as that authority's approval of those registers.
pub proof fn authorized_key_names_its_authority(
    store: &mut MemoryStore,
    binding: &Binding,
    name: &str,
    plan: InitPlan,
    policy_id: Option<u128>,
    subject: Option<&str>,
    handle: Vec<u8>,
    key_id: u128,
    key_created_at: &str,
    id: u128,
    at: &Moment,
    s: String,
    metadata: &str,
    p: Option<AuthorizedPolicy>,
)
    requires
        call_ensures(
            init_identity_at,
            (
                store,
                binding,
                name,
                plan,
                policy_id,
                subject,
                handle,
                key_id,
                key_created_at,
                id,
                at,
            ),
            Ok::<String, Failure>(s),
        ),
        binding@ is Authorized,
        lookup::<TpmObject>(final(store)@.objects, plan.path@) matches Some(o) && o.metadata
            == metadata@,
        call_ensures(policy_of_metadata, (metadata,), p),
    ensures
        p matches Some(a) && a.authority@ == binding@->authority && a.bank@ == "sha256"@
            && a.indices@ == binding@->Authorized_indices,
{
    push_keeps_others(old(store)@.objects, final(store)@.objects.last());
}

} // verus!
