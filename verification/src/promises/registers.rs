//! NV indices and register baselines: what is written is read, and what was
//! saved is what the registers are compared with.
use vstd::prelude::*;

use crate::commands::nv::{
    define_at, define_check, delete_at, delete_check, last_index, last_is_largest, read, write_at,
    write_check,
};
use crate::commands::pcr::{
    agrees, baseline_diff, baseline_query, baseline_save_at, changed_register_disagrees,
    extend_source, saved_registers_are_read, unchanged_registers_agree, BaselineQuery, ExtendSource,
};
use crate::failure::Failure;
use crate::model::{NvSlot, PcrBaseline, PcrValue};
use crate::promises::keys::logs_once;
use crate::store::{nv_listing, nv_reads_what_was_written, MemoryStore, StoreState};
use crate::table::{
    lookup, lookup_of_push, position, position_is, position_is_first, sorted, sorted_is_ordered,
    without, without_keeps_others, without_removes, Keyed,
};
use crate::text::views;

verus! {

// ---------------------------------------------------------------------------
// NV indices
// ---------------------------------------------------------------------------

/// Every name but one keeps its NV index.
pub open spec fn other_indices_stay(before: StoreState, after: StoreState, name: Seq<char>) -> bool {
    forall|other: Seq<char>|
        other != name ==> #[trigger] lookup::<NvSlot>(after.nv_indices, other) == lookup::<NvSlot>(
            before.nv_indices,
            other,
        )
}

/// A number that is given out is larger than every number in use, so that no two
/// indices share one.
pub proof fn index_number_is_new(store: &MemoryStore, name: &str, r: Result<u32, Failure>, i: int)
    requires
        call_ensures(define_check, (store, name), r),
        0 <= i < store@.nv_indices.len(),
    ensures
        r is Ok <==> lookup::<NvSlot>(store@.nv_indices, name@) is None,
        r matches Ok(n) ==> store@.nv_indices[i].nv_index < n,
{
    let s = store@.nv_indices;
    let all = sorted::<NvSlot>(s);
    sorted_is_ordered::<NvSlot>(s);
    s.to_multiset_ensures();
    all.to_multiset_ensures();
    assert(s.contains(s[i]));
    assert(s.to_multiset().count(s[i]) > 0);
    assert(all.to_multiset().count(s[i]) > 0);
    assert(all.contains(s[i]));
    let k = choose|k: int| 0 <= k < all.len() && all[k] == s[i];
    let list = nv_listing(s);
    assert(list[k].1 == s[i].nv_index);
    last_is_largest(list, list.len(), k);
}

proof fn last_is_in_use(s: Seq<(Seq<char>, u32, usize)>, n: nat) -> (i: int)
    requires
        0 < n <= s.len(),
    ensures
        0 <= i < n,
        s[i].1 == last_index(s, n),
    decreases n,
{
    if n == 1 {
        0
    } else {
        let i = last_is_in_use(s, (n - 1) as nat);
        if s[n - 1].1 > last_index(s, (n - 1) as nat) {
            n - 1
        } else {
            i
        }
    }
}

/// The first index of a store is number one of its range; every later one comes
/// right after the largest in use.
pub proof fn index_number_is_the_next(store: &MemoryStore, name: &str, r: Result<u32, Failure>)
    requires
        call_ensures(define_check, (store, name), r),
    ensures
        store@.nv_indices.len() == 0 ==> r == Ok::<u32, Failure>(0x01000001),
        r matches Ok(n) ==> store@.nv_indices.len() > 0 ==> exists|i: int|
            0 <= i < store@.nv_indices.len() && (#[trigger] store@.nv_indices[i]).nv_index + 1
                == n,
{
    let s = store@.nv_indices;
    let all = sorted::<NvSlot>(s);
    sorted_is_ordered::<NvSlot>(s);
    position_is_first::<NvSlot>(s, name@);
    if s.len() > 0 {
        let list = nv_listing(s);
        let k = last_is_in_use(list, list.len());
        assert(list[k].1 == all[k].nv_index);
        s.to_multiset_ensures();
        all.to_multiset_ensures();
        assert(all.contains(all[k]));
        assert(all.to_multiset().count(all[k]) > 0);
        assert(s.to_multiset().count(all[k]) > 0);
        assert(s.contains(all[k]));
        let i = choose|i: int| 0 <= i < s.len() && s[i] == all[k];
        assert(r matches Ok(n) ==> s[i].nv_index + 1 == n);
    }
}

/// An index that was defined has the number and the size that it was given and
/// nothing to read yet; every other name keeps its own.
pub proof fn defined_index_is_empty(
    store: &mut MemoryStore,
    name: &str,
    index: u32,
    size: usize,
    stamp: &str,
    s: String,
    got: Result<(u32, Vec<u8>), Failure>,
    number: Result<u32, Failure>,
)
    requires
        lookup::<NvSlot>(old(store)@.nv_indices, name@) is None,
        call_ensures(define_at, (store, name, index, size, stamp), s),
        call_ensures(read, (&*final(store), name), got),
        call_ensures(delete_check, (&*final(store), name), number),
    ensures
        got is Err,
        number == Ok::<u32, Failure>(index),
        lookup::<NvSlot>(final(store)@.nv_indices, name@) matches Some(n) && n.size == size,
        other_indices_stay(old(store)@, final(store)@, name@),
        final(store)@.objects == old(store)@.objects,
        logs_once(old(store)@, final(store)@, "nv.define"@, None, stamp@),
{
    let t = old(store)@.nv_indices;
    let n = final(store)@.nv_indices.last();
    lookup_of_push::<NvSlot>(t, n, name@);
    assert forall|other: Seq<char>| other != name@ implies #[trigger] lookup::<NvSlot>(
        final(store)@.nv_indices,
        other,
    ) == lookup::<NvSlot>(t, other) by {
        lookup_of_push::<NvSlot>(t, n, other);
    }
    assert(final(store)@.audit_log.drop_last() =~= old(store)@.audit_log);
}

/// What was written to an index is what is read from it, under the same number;
/// every other name keeps its own. Data that do not fit are refused, and the
/// store stays as it was.
pub proof fn written_index_is_read(
    store: &mut MemoryStore,
    name: &str,
    data: Vec<u8>,
    stamp: &str,
    r: Result<String, Failure>,
    got: Result<(u32, Vec<u8>), Failure>,
)
    requires
        call_ensures(write_at, (store, name, data, stamp), r),
        call_ensures(read, (&*final(store), name), got),
    ensures
        r is Ok <==> (lookup::<NvSlot>(old(store)@.nv_indices, name@) matches Some(n)
            && data@.len() <= n.size),
        r is Ok ==> (got matches Ok((index, d)) && d@ == data@ && index == lookup::<NvSlot>(
            old(store)@.nv_indices,
            name@,
        )->0.nv_index),
        r is Ok ==> other_indices_stay(old(store)@, final(store)@, name@),
        r is Ok ==> logs_once(old(store)@, final(store)@, "nv.write"@, None, stamp@),
        r is Err ==> final(store)@ == old(store)@,
{
    let s = old(store)@.nv_indices;
    let t = final(store)@.nv_indices;
    if r is Ok {
        nv_reads_what_was_written(s, name@, data@);
        position_is_first::<NvSlot>(s, name@);
        assert forall|other: Seq<char>| other != name@ implies #[trigger] lookup::<NvSlot>(t, other)
            == lookup::<NvSlot>(s, other) by {
            let there = position::<NvSlot>(s, other);
            position_is_first::<NvSlot>(s, other);
            assert forall|i: int| 0 <= i < there implies NvSlot::key_of(#[trigger] t[i])
                != other by {
                assert(NvSlot::key_of(s[i]) != other);
            }
            position_is::<NvSlot>(t, other, there);
        }
        assert(final(store)@.audit_log.drop_last() =~= old(store)@.audit_log);
    }
}

/// A write is let through just where the index is there.
pub proof fn write_needs_the_index(store: &MemoryStore, name: &str, r: Result<(), Failure>)
    requires
        call_ensures(write_check, (store, name), r),
    ensures
        r is Ok <==> lookup::<NvSlot>(store@.nv_indices, name@) is Some,
{
}

/// An index that was deleted can neither be read nor be deleted again; every
/// other name keeps its own.
pub proof fn deleted_index_is_gone(
    store: &mut MemoryStore,
    name: &str,
    stamp: &str,
    s: String,
    got: Result<(u32, Vec<u8>), Failure>,
    number: Result<u32, Failure>,
)
    requires
        call_ensures(delete_at, (store, name, stamp), s),
        call_ensures(read, (&*final(store), name), got),
        call_ensures(delete_check, (&*final(store), name), number),
    ensures
        got is Err,
        number is Err,
        other_indices_stay(old(store)@, final(store)@, name@),
        final(store)@.objects == old(store)@.objects,
        logs_once(old(store)@, final(store)@, "nv.delete"@, None, stamp@),
{
    let t = old(store)@.nv_indices;
    without_removes::<NvSlot>(t, name@);
    assert forall|other: Seq<char>| other != name@ implies #[trigger] lookup::<NvSlot>(
        final(store)@.nv_indices,
        other,
    ) == lookup::<NvSlot>(t, other) by {
        without_keeps_others::<NvSlot>(t, name@, other);
    }
    assert(final(store)@.audit_log.drop_last() =~= old(store)@.audit_log);
}

// ---------------------------------------------------------------------------
// Register baselines
// ---------------------------------------------------------------------------

/// To compare with a baseline that was saved, its own bank and its own registers
/// are read, in the order in which they were saved.
pub proof fn saved_baseline_is_queried(
    store: &mut MemoryStore,
    name: &str,
    bank: &str,
    values: &Vec<PcrValue>,
    stamp: &str,
    s: String,
    q: Result<BaselineQuery, Failure>,
)
    requires
        call_ensures(baseline_save_at, (store, name, bank, values, stamp), s),
        call_ensures(baseline_query, (&*final(store), name), q),
    ensures
        q matches Ok(b) && b.bank@ == bank@ && b.indices@ == Seq::new(
            values@.len(),
            |i: int| values@[i].index,
        ) && b.entries@.len() == values@.len(),
        logs_once(old(store)@, final(store)@, "pcr.baseline.save"@, None, stamp@),
{
    baseline_found(old(store)@, final(store)@, name@);
    let text = final(store)@.pcr_baselines.last().values;
    saved_registers_are_read(text, values@, values@.len());
    assert(final(store)@.audit_log.drop_last() =~= old(store)@.audit_log);
}

proof fn baseline_found(before: StoreState, after: StoreState, name: Seq<char>)
    requires
        after.pcr_baselines.len() > 0,
        after.pcr_baselines.last().name == name,
        after.pcr_baselines == without::<PcrBaseline>(before.pcr_baselines, name).push(
            after.pcr_baselines.last(),
        ),
    ensures
        lookup::<PcrBaseline>(after.pcr_baselines, name) == Some(after.pcr_baselines.last()),
{
    without_removes::<PcrBaseline>(before.pcr_baselines, name);
    lookup_of_push::<PcrBaseline>(
        without::<PcrBaseline>(before.pcr_baselines, name),
        after.pcr_baselines.last(),
        name,
    );
}

/// Registers are judged to agree with a baseline just where every one of them
/// holds the digest that it held when the baseline was saved.
pub proof fn baseline_detects_every_change(
    store: &mut MemoryStore,
    name: &str,
    bank: &str,
    values: &Vec<PcrValue>,
    stamp: &str,
    s: String,
    q: BaselineQuery,
    current: &Vec<PcrValue>,
    r: (String, bool),
)
    requires
        call_ensures(baseline_save_at, (store, name, bank, values, stamp), s),
        call_ensures(baseline_query, (&*final(store), name), Ok::<BaselineQuery, Failure>(q)),
        current@.len() == values@.len(),
        call_ensures(baseline_diff, (name, &q, current), r),
    ensures
        r.1 <==> forall|i: int|
            0 <= i < values@.len() ==> #[trigger] values@[i].digest@ == current@[i].digest@,
{
    baseline_found(old(store)@, final(store)@, name@);
    let text = final(store)@.pcr_baselines.last().values;
    let es = views(q.entries@);
    assert(crate::json::json_list(text) == Ok::<Seq<Seq<char>>, Seq<char>>(es));
    if forall|i: int|
        0 <= i < values@.len() ==> #[trigger] values@[i].digest@ == current@[i].digest@ {
        unchanged_registers_agree(text, values@);
        assert forall|i: int| 0 <= i < values@.len() implies agrees(
            es[i],
            #[trigger] current@[i],
        ) by {
            assert(agrees(es[i], values@[i]));
            assert(values@[i].digest@ == current@[i].digest@);
        }
    } else {
        let i = choose|i: int|
            0 <= i < values@.len() && #[trigger] values@[i].digest@ != current@[i].digest@;
        changed_register_disagrees(text, values@, current@, i);
    }
}

/// An extension takes its digest from a file or from the command line, and from
/// just one of them.
pub proof fn extension_has_one_source(
    input: Option<&str>,
    value: Option<&str>,
    r: Result<ExtendSource, Failure>,
)
    requires
        call_ensures(extend_source, (input, value), r),
    ensures
        input is Some == value is Some ==> r is Err,
        input is Some && value is None ==> (r matches Ok(ExtendSource::File(p)) && p@
            == input->0@),
        input is None && r is Ok ==> r->Ok_0 is Digest,
{
}

} // verus!
