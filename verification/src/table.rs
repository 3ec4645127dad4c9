//! Lists of records that are found by a name or by an identifier.
//!
//! The store keeps each kind of record in insertion order. The spec functions
//! here say what looking up, removing and sorting mean on such lists; the
//! executable functions do it.
use vstd::prelude::*;

use crate::text::{in_order, same, text_le, text_le_total, text_le_transitive};

verus! {

/// A record with a name.
pub trait Keyed: View {
    /// The name in the record's view.
    spec fn key_of(v: <Self as View>::V) -> Seq<char>;

    /// The name.
    fn key(&self) -> (k: &str)
        ensures
            k@ == Self::key_of(self@),
    ;
}

/// A record with an identifier.
pub trait Ided: View {
    /// The identifier in the record's view.
    spec fn id_of(v: <Self as View>::V) -> u128;

    /// The identifier.
    fn id(&self) -> (k: u128)
        ensures
            k == Self::id_of(self@),
    ;
}

/// The views of a list of records.
pub open spec fn rows<T: View>(s: Seq<T>) -> Seq<T::V> {
    s.map_values(|x: T| x@)
}

/// The views of a list of references to records.
pub open spec fn ref_rows<T: View>(s: Seq<&T>) -> Seq<T::V> {
    s.map_values(|x: &T| x@)
}

// ---------------------------------------------------------------------------
// Looking up
// ---------------------------------------------------------------------------

/// The position of the first record of that name; the length where there is none.
pub open spec fn position<T: Keyed>(s: Seq<T::V>, key: Seq<char>) -> int
    decreases s.len(),
{
    if s.len() == 0 {
        0
    } else if T::key_of(s[0]) == key {
        0
    } else {
        1 + position::<T>(s.subrange(1, s.len() as int), key)
    }
}

/// Some record has that name.
pub open spec fn present<T: Keyed>(s: Seq<T::V>, key: Seq<char>) -> bool {
    position::<T>(s, key) < s.len()
}

/// The first record of that name.
pub open spec fn lookup<T: Keyed>(s: Seq<T::V>, key: Seq<char>) -> Option<T::V> {
    if present::<T>(s, key) {
        Some(s[position::<T>(s, key)])
    } else {
        None
    }
}

/// The position of the first record with that identifier; the length where there is none.
pub open spec fn position_id<T: Ided>(s: Seq<T::V>, id: u128) -> int
    decreases s.len(),
{
    if s.len() == 0 {
        0
    } else if T::id_of(s[0]) == id {
        0
    } else {
        1 + position_id::<T>(s.subrange(1, s.len() as int), id)
    }
}

/// The first record with that identifier.
pub open spec fn lookup_id<T: Ided>(s: Seq<T::V>, id: u128) -> Option<T::V> {
    if position_id::<T>(s, id) < s.len() {
        Some(s[position_id::<T>(s, id)])
    } else {
        None
    }
}

/// What a position is: the record there has the name, and none before it does.
pub proof fn position_is_first<T: Keyed>(s: Seq<T::V>, key: Seq<char>)
    ensures
        0 <= position::<T>(s, key) <= s.len(),
        position::<T>(s, key) < s.len() ==> T::key_of(s[position::<T>(s, key)]) == key,
        forall|i: int|
            #![trigger s[i]]
            0 <= i < position::<T>(s, key) ==> T::key_of(s[i]) != key,
    decreases s.len(),
{
    if s.len() > 0 && T::key_of(s[0]) != key {
        let rest = s.subrange(1, s.len() as int);
        position_is_first::<T>(rest, key);
        assert forall|i: int| 0 <= i < position::<T>(s, key) implies T::key_of(#[trigger] s[i])
            != key by {
            if i > 0 {
                assert(rest[i - 1] == s[i]);
            }
        }
    }
}

/// A record that is the first with its name stands at the position.
pub proof fn position_is<T: Keyed>(s: Seq<T::V>, key: Seq<char>, at: int)
    requires
        0 <= at <= s.len(),
        at < s.len() ==> T::key_of(s[at]) == key,
        forall|i: int| #![trigger s[i]] 0 <= i < at ==> T::key_of(s[i]) != key,
    ensures
        position::<T>(s, key) == at,
{
    position_is_first::<T>(s, key);
    let p = position::<T>(s, key);
    if p < at {
        assert(T::key_of(s[p]) != key);
    }
    if at < p {
        assert(T::key_of(s[at]) != key);
    }
}

/// What a position by identifier is.
pub proof fn position_id_is_first<T: Ided>(s: Seq<T::V>, id: u128)
    ensures
        0 <= position_id::<T>(s, id) <= s.len(),
        position_id::<T>(s, id) < s.len() ==> T::id_of(s[position_id::<T>(s, id)]) == id,
        forall|i: int|
            #![trigger s[i]]
            0 <= i < position_id::<T>(s, id) ==> T::id_of(s[i]) != id,
    decreases s.len(),
{
    if s.len() > 0 && T::id_of(s[0]) != id {
        let rest = s.subrange(1, s.len() as int);
        position_id_is_first::<T>(rest, id);
        assert forall|i: int| 0 <= i < position_id::<T>(s, id) implies T::id_of(#[trigger] s[i])
            != id by {
            if i > 0 {
                assert(rest[i - 1] == s[i]);
            }
        }
    }
}

/// A record that is the first with its identifier stands at the position.
pub proof fn position_id_is<T: Ided>(s: Seq<T::V>, id: u128, at: int)
    requires
        0 <= at <= s.len(),
        at < s.len() ==> T::id_of(s[at]) == id,
        forall|i: int| #![trigger s[i]] 0 <= i < at ==> T::id_of(s[i]) != id,
    ensures
        position_id::<T>(s, id) == at,
{
    position_id_is_first::<T>(s, id);
    let p = position_id::<T>(s, id);
    if p < at {
        assert(T::id_of(s[p]) != id);
    }
    if at < p {
        assert(T::id_of(s[at]) != id);
    }
}

/// The position of the first record of that name; the length where there is none.
pub fn find<T: Keyed>(v: &Vec<T>, key: &str) -> (at: usize)
    ensures
        at == position::<T>(rows(v@), key@),
        at <= v@.len(),
{
    let mut i: usize = 0;
    while i < v.len()
        invariant
            i <= v@.len(),
            forall|k: int| #![trigger rows(v@)[k]] 0 <= k < i ==> T::key_of(rows(v@)[k]) != key@,
        decreases v@.len() - i,
    {
        if same(v[i].key(), key) {
            proof {
                position_is::<T>(rows(v@), key@, i as int);
            }
            return i;
        }
        i += 1;
    }
    proof {
        position_is::<T>(rows(v@), key@, i as int);
    }
    i
}

/// The first record of that name.
pub fn get<'a, T: Keyed>(v: &'a Vec<T>, key: &str) -> (r: Option<&'a T>)
    ensures
        match r {
            Some(x) => lookup::<T>(rows(v@), key@) == Some(x@),
            None => lookup::<T>(rows(v@), key@) is None,
        },
{
    let at: usize = find(v, key);
    if at < v.len() {
        Some(&v[at])
    } else {
        None
    }
}

/// The position of the first record with that identifier; the length where there is none.
pub fn find_id<T: Ided>(v: &Vec<T>, id: u128) -> (at: usize)
    ensures
        at == position_id::<T>(rows(v@), id),
        at <= v@.len(),
{
    let mut i: usize = 0;
    while i < v.len()
        invariant
            i <= v@.len(),
            forall|k: int| #![trigger rows(v@)[k]] 0 <= k < i ==> T::id_of(rows(v@)[k]) != id,
        decreases v@.len() - i,
    {
        if v[i].id() == id {
            proof {
                position_id_is::<T>(rows(v@), id, i as int);
            }
            return i;
        }
        i += 1;
    }
    proof {
        position_id_is::<T>(rows(v@), id, i as int);
    }
    i
}

/// The first record with that identifier.
pub fn get_id<'a, T: Ided>(v: &'a Vec<T>, id: u128) -> (r: Option<&'a T>)
    ensures
        match r {
            Some(x) => lookup_id::<T>(rows(v@), id) == Some(x@),
            None => lookup_id::<T>(rows(v@), id) is None,
        },
{
    let at: usize = find_id(v, id);
    if at < v.len() {
        Some(&v[at])
    } else {
        None
    }
}

/// The first record of a list of references with that identifier.
pub fn get_ref_id<'a, T: Ided>(v: &Vec<&'a T>, id: u128) -> (r: Option<&'a T>)
    ensures
        match r {
            Some(x) => lookup_id::<T>(ref_rows(v@), id) == Some(x@),
            None => lookup_id::<T>(ref_rows(v@), id) is None,
        },
{
    let mut i: usize = 0;
    while i < v.len()
        invariant
            i <= v@.len(),
            forall|k: int|
                #![trigger ref_rows(v@)[k]]
                0 <= k < i ==> T::id_of(ref_rows(v@)[k]) != id,
        decreases v@.len() - i,
    {
        let x: &'a T = v[i];
        if x.id() == id {
            proof {
                position_id_is::<T>(ref_rows(v@), id, i as int);
            }
            return Some(x);
        }
        i += 1;
    }
    proof {
        position_id_is::<T>(ref_rows(v@), id, i as int);
    }
    None
}

// ---------------------------------------------------------------------------
// Adding and removing
// ---------------------------------------------------------------------------

/// The records of any other name, in order.
pub open spec fn without<T: Keyed>(s: Seq<T::V>, key: Seq<char>) -> Seq<T::V>
    decreases s.len(),
{
    if s.len() == 0 {
        Seq::empty()
    } else {
        let before = without::<T>(s.drop_last(), key);
        if T::key_of(s.last()) == key {
            before
        } else {
            before.push(s.last())
        }
    }
}

/// Removes every record of that name; says whether there was one.
pub fn remove_all<T: Keyed>(v: &mut Vec<T>, key: &str) -> (removed: bool)
    ensures
        rows(final(v)@) == without::<T>(rows(old(v)@), key@),
        removed == present::<T>(rows(old(v)@), key@),
{
    let ghost all = rows(v@);
    let mut i: usize = 0;
    let ghost mut done: int = 0;
    let mut removed = false;
    assert(all.take(0) =~= Seq::<T::V>::empty());
    assert(all =~= Seq::<T::V>::empty() + all.skip(0));
    while i < v.len()
        invariant
            0 <= done <= all.len(),
            i == without::<T>(all.take(done), key@).len(),
            i <= v@.len(),
            v@.len() - i == all.len() - done,
            rows(v@) == without::<T>(all.take(done), key@) + all.skip(done),
            removed == exists|k: int| 0 <= k < done && T::key_of(#[trigger] all[k]) == key@,
        decreases v@.len() - i,
    {
        let ghost kept = without::<T>(all.take(done), key@);
        let ghost before = rows(v@);
        assert(all.take(done + 1).drop_last() =~= all.take(done));
        assert(all.take(done + 1).last() == all[done]);
        assert(before[i as int] == all.skip(done)[0]);
        assert(all.skip(done)[0] == all[done]);
        if same(v[i].key(), key) {
            let ghost rest = all.skip(done);
            v.remove(i);
            removed = true;
            assert(T::key_of(all[done]) == key@);
            assert(rows(v@) =~= before.remove(i as int));
            assert(before.remove(i as int) =~= kept + rest.skip(1));
            assert(rest.skip(1) =~= all.skip(done + 1));
        } else {
            i += 1;
            assert(rows(v@) =~= kept.push(all[done]) + all.skip(done + 1));
        }
        proof {
            done = done + 1;
        }
    }
    assert(done == all.len());
    assert(all.take(done) =~= all);
    assert(rows(v@) =~= without::<T>(all, key@));
    proof {
        position_is_first::<T>(all, key@);
        if removed {
            let k = choose|k: int| 0 <= k < done && T::key_of(#[trigger] all[k]) == key@;
            assert(position::<T>(all, key@) <= k);
        }
    }
    removed
}

/// What remains after a removal: no record of that name, and every other
/// record as it was.
pub proof fn without_removes<T: Keyed>(s: Seq<T::V>, key: Seq<char>)
    ensures
        !present::<T>(without::<T>(s, key), key),
        forall|i: int|
            #![trigger without::<T>(s, key)[i]]
            0 <= i < without::<T>(s, key).len() ==> s.contains(without::<T>(s, key)[i]),
        forall|i: int|
            0 <= i < s.len() && T::key_of(#[trigger] s[i]) != key ==> without::<T>(s, key).contains(
                s[i],
            ),
    decreases s.len(),
{
    let w = without::<T>(s, key);
    if s.len() > 0 {
        let before = s.drop_last();
        without_removes::<T>(before, key);
        let wb = without::<T>(before, key);
        position_is_first::<T>(wb, key);
        assert forall|i: int| 0 <= i < w.len() implies T::key_of(#[trigger] w[i]) != key by {
            if i < wb.len() {
                assert(wb[i] == w[i]);
            }
        }
        assert forall|i: int| 0 <= i < w.len() implies s.contains(#[trigger] w[i]) by {
            if i < wb.len() {
                assert(wb[i] == w[i]);
                let k = choose|k: int| 0 <= k < before.len() && before[k] == wb[i];
                assert(s[k] == w[i]);
            } else {
                assert(s[s.len() - 1] == w[i]);
            }
        }
        assert forall|i: int| 0 <= i < s.len() && T::key_of(#[trigger] s[i]) != key implies w.contains(
            s[i],
        ) by {
            if i < before.len() {
                assert(before[i] == s[i]);
                let k = choose|k: int| 0 <= k < wb.len() && wb[k] == before[i];
                assert(w[k] == s[i]);
            } else {
                assert(w[w.len() - 1] == s[i]);
            }
        }
        position_is_first::<T>(w, key);
    }
}

/// Removing one name does not change what another name finds.
pub proof fn without_keeps_others<T: Keyed>(s: Seq<T::V>, key: Seq<char>, other: Seq<char>)
    requires
        key != other,
    ensures
        lookup::<T>(without::<T>(s, key), other) == lookup::<T>(s, other),
    decreases s.len(),
{
    if s.len() > 0 {
        let before = s.drop_last();
        let v = s.last();
        without_keeps_others::<T>(before, key, other);
        assert(before.push(v) =~= s);
        lookup_of_push::<T>(before, v, other);
        if T::key_of(v) != key {
            lookup_of_push::<T>(without::<T>(before, key), v, other);
        }
    }
}

/// Removing a name that is not there changes nothing.
pub proof fn without_absent<T: Keyed>(s: Seq<T::V>, key: Seq<char>)
    requires
        !present::<T>(s, key),
    ensures
        without::<T>(s, key) == s,
    decreases s.len(),
{
    position_is_first::<T>(s, key);
    if s.len() > 0 {
        let before = s.drop_last();
        assert(T::key_of(s[s.len() - 1]) != key);
        assert forall|i: int| 0 <= i < before.len() implies T::key_of(#[trigger] before[i])
            != key by {
            assert(before[i] == s[i]);
        }
        position_is::<T>(before, key, before.len() as int);
        without_absent::<T>(before, key);
        assert(before.push(s.last()) =~= s);
    }
}

/// Looking a name up after adding a record at the end.
pub proof fn lookup_of_push<T: Keyed>(s: Seq<T::V>, v: T::V, key: Seq<char>)
    ensures
        lookup::<T>(s.push(v), key) == (if present::<T>(s, key) {
            lookup::<T>(s, key)
        } else if T::key_of(v) == key {
            Some(v)
        } else {
            None
        }),
{
    position_is_first::<T>(s, key);
    let p = position::<T>(s, key);
    let t = s.push(v);
    assert forall|i: int| 0 <= i < p implies T::key_of(#[trigger] t[i]) != key by {
        assert(t[i] == s[i]);
    }
    if p < s.len() {
        assert(t[p] == s[p]);
        position_is::<T>(t, key, p);
    } else if T::key_of(v) == key {
        position_is::<T>(t, key, s.len() as int);
    } else {
        assert(T::key_of(t[s.len() as int]) != key);
        position_is::<T>(t, key, t.len() as int);
    }
}

/// Looking an identifier up after adding a record at the end.
pub proof fn lookup_id_of_push<T: Ided>(s: Seq<T::V>, v: T::V, id: u128)
    ensures
        lookup_id::<T>(s.push(v), id) == (if position_id::<T>(s, id) < s.len() {
            lookup_id::<T>(s, id)
        } else if T::id_of(v) == id {
            Some(v)
        } else {
            None
        }),
{
    position_id_is_first::<T>(s, id);
    let p = position_id::<T>(s, id);
    let t = s.push(v);
    assert forall|i: int| 0 <= i < p implies T::id_of(#[trigger] t[i]) != id by {
        assert(t[i] == s[i]);
    }
    if p < s.len() {
        assert(t[p] == s[p]);
        position_id_is::<T>(t, id, p);
    } else if T::id_of(v) == id {
        position_id_is::<T>(t, id, s.len() as int);
    } else {
        assert(T::id_of(t[s.len() as int]) != id);
        position_id_is::<T>(t, id, t.len() as int);
    }
}

/// No two records have the same name.
pub open spec fn distinct<T: Keyed>(s: Seq<T::V>) -> bool {
    forall|i: int, j: int|
        #![trigger s[i], s[j]]
        0 <= i < j < s.len() ==> T::key_of(s[i]) != T::key_of(s[j])
}

/// Adding a record under a name that is not taken keeps names distinct.
pub proof fn distinct_push<T: Keyed>(s: Seq<T::V>, v: T::V)
    requires
        distinct::<T>(s),
        !present::<T>(s, T::key_of(v)),
    ensures
        distinct::<T>(s.push(v)),
{
    position_is_first::<T>(s, T::key_of(v));
    let t = s.push(v);
    assert forall|i: int, j: int| 0 <= i < j < t.len() implies T::key_of(#[trigger] t[i])
        != T::key_of(#[trigger] t[j]) by {
        assert(t[i] == s[i]);
        if j < s.len() {
            assert(t[j] == s[j]);
        }
    }
}

/// Removing records keeps names distinct.
pub proof fn distinct_without<T: Keyed>(s: Seq<T::V>, key: Seq<char>)
    requires
        distinct::<T>(s),
    ensures
        distinct::<T>(without::<T>(s, key)),
    decreases s.len(),
{
    if s.len() > 0 {
        let before = s.drop_last();
        let v = s.last();
        assert(distinct::<T>(before)) by {
            assert forall|i: int, j: int| 0 <= i < j < before.len() implies T::key_of(
                #[trigger] before[i],
            ) != T::key_of(#[trigger] before[j]) by {
                assert(before[i] == s[i] && before[j] == s[j]);
            }
        }
        distinct_without::<T>(before, key);
        let w = without::<T>(before, key);
        if T::key_of(v) != key {
            without_removes::<T>(before, key);
            assert forall|i: int| 0 <= i < w.len() implies T::key_of(#[trigger] w[i])
                != T::key_of(v) by {
                let k = choose|k: int| 0 <= k < before.len() && before[k] == w[i];
                assert(before[k] == s[k]);
                assert(s[s.len() - 1] == v);
            }
            position_is::<T>(w, T::key_of(v), w.len() as int);
            distinct_push::<T>(w, v);
        }
    }
}

// ---------------------------------------------------------------------------
// Sorting
// ---------------------------------------------------------------------------

/// `v` put into an ordered list, behind every record whose name does not come after its own.
pub open spec fn inserted<T: Keyed>(s: Seq<T::V>, v: T::V) -> Seq<T::V>
    decreases s.len(),
{
    if s.len() == 0 || text_le(T::key_of(s.last()), T::key_of(v)) {
        s.push(v)
    } else {
        inserted::<T>(s.drop_last(), v).push(s.last())
    }
}

/// The records ordered by name; records of one name keep their order.
pub open spec fn sorted<T: Keyed>(s: Seq<T::V>) -> Seq<T::V>
    decreases s.len(),
{
    if s.len() == 0 {
        Seq::empty()
    } else {
        inserted::<T>(sorted::<T>(s.drop_last()), s.last())
    }
}

/// No record stands before one whose name comes earlier.
pub open spec fn ordered<T: Keyed>(s: Seq<T::V>) -> bool {
    forall|i: int, j: int|
        #![trigger s[i], s[j]]
        0 <= i < j < s.len() ==> text_le(T::key_of(s[i]), T::key_of(s[j]))
}

/// Where an insertion ends up.
proof fn inserted_at<T: Keyed>(s: Seq<T::V>, v: T::V, at: int)
    requires
        0 <= at <= s.len(),
        at > 0 ==> text_le(T::key_of(s[at - 1]), T::key_of(v)),
        forall|k: int|
            #![trigger s[k]]
            at <= k < s.len() ==> !text_le(T::key_of(s[k]), T::key_of(v)),
    ensures
        inserted::<T>(s, v) == s.insert(at, v),
    decreases s.len(),
{
    if at == s.len() {
        assert(s.insert(at, v) =~= s.push(v));
    } else {
        let before = s.drop_last();
        assert(s.last() == s[s.len() - 1]);
        assert forall|k: int| at <= k < before.len() implies !text_le(
            T::key_of(#[trigger] before[k]),
            T::key_of(v),
        ) by {
            assert(before[k] == s[k]);
        }
        inserted_at::<T>(before, v, at);
        assert(before.insert(at, v).push(s.last()) =~= s.insert(at, v));
    }
}

/// An insertion into an ordered list keeps it ordered and adds just the one record.
proof fn inserted_ordered<T: Keyed>(s: Seq<T::V>, v: T::V)
    requires
        ordered::<T>(s),
    ensures
        ordered::<T>(inserted::<T>(s, v)),
        inserted::<T>(s, v).to_multiset() == s.to_multiset().insert(v),
        forall|i: int|
            #![trigger inserted::<T>(s, v)[i]]
            0 <= i < inserted::<T>(s, v).len() ==> inserted::<T>(s, v)[i] == v || s.contains(
                inserted::<T>(s, v)[i],
            ),
    decreases s.len(),
{
    broadcast use vstd::seq_lib::group_to_multiset_ensures;

    let t = inserted::<T>(s, v);
    if s.len() == 0 {
        assert(t =~= s.push(v));
    } else {
        let last = s.last();
        if text_le(T::key_of(last), T::key_of(v)) {
            assert forall|i: int, j: int| 0 <= i < j < t.len() implies text_le(
                T::key_of(#[trigger] t[i]),
                T::key_of(#[trigger] t[j]),
            ) by {
                assert(t[i] == s[i]);
                if j < s.len() {
                    assert(t[j] == s[j]);
                } else if i < s.len() - 1 {
                    assert(s[s.len() - 1] == last);
                    text_le_transitive(T::key_of(s[i]), T::key_of(last), T::key_of(v));
                }
            }
            assert forall|i: int| 0 <= i < t.len() implies t[i] == v || s.contains(
                #[trigger] t[i],
            ) by {
                if i < s.len() {
                    assert(s[i] == t[i]);
                }
            }
        } else {
            text_le_total(T::key_of(last), T::key_of(v));
            let before = s.drop_last();
            assert(ordered::<T>(before)) by {
                assert forall|i: int, j: int| 0 <= i < j < before.len() implies text_le(
                    T::key_of(#[trigger] before[i]),
                    T::key_of(#[trigger] before[j]),
                ) by {
                    assert(before[i] == s[i] && before[j] == s[j]);
                }
            }
            inserted_ordered::<T>(before, v);
            let u = inserted::<T>(before, v);
            assert forall|i: int, j: int| 0 <= i < j < t.len() implies text_le(
                T::key_of(#[trigger] t[i]),
                T::key_of(#[trigger] t[j]),
            ) by {
                assert(t[i] == u[i]);
                if j < u.len() {
                    assert(t[j] == u[j]);
                } else if u[i] != v {
                    let k = choose|k: int| 0 <= k < before.len() && before[k] == u[i];
                    assert(before[k] == s[k]);
                    assert(s[s.len() - 1] == last);
                }
            }
            assert forall|i: int| 0 <= i < t.len() implies t[i] == v || s.contains(
                #[trigger] t[i],
            ) by {
                if i < u.len() {
                    assert(t[i] == u[i]);
                    if u[i] != v {
                        let k = choose|k: int| 0 <= k < before.len() && before[k] == u[i];
                        assert(s[k] == t[i]);
                    }
                } else {
                    assert(s[s.len() - 1] == t[i]);
                }
            }
            assert(before.push(last) =~= s);
            assert(t.to_multiset() =~= s.to_multiset().insert(v));
        }
    }
}

/// A sorted list is in order and holds exactly the records of the list it came from.
pub proof fn sorted_is_ordered<T: Keyed>(s: Seq<T::V>)
    ensures
        ordered::<T>(sorted::<T>(s)),
        sorted::<T>(s).to_multiset() == s.to_multiset(),
        sorted::<T>(s).len() == s.len(),
    decreases s.len(),
{
    broadcast use vstd::seq_lib::group_to_multiset_ensures;

    if s.len() > 0 {
        let before = s.drop_last();
        sorted_is_ordered::<T>(before);
        inserted_ordered::<T>(sorted::<T>(before), s.last());
        assert(before.push(s.last()) =~= s);
        assert(sorted::<T>(s).to_multiset().len() == sorted::<T>(s).len());
        assert(s.to_multiset().len() == s.len());
    } else {
        assert(sorted::<T>(s) =~= s);
    }
}

/// Sorting keeps names distinct.
pub proof fn sorted_is_distinct<T: Keyed>(s: Seq<T::V>)
    requires
        distinct::<T>(s),
    ensures
        distinct::<T>(sorted::<T>(s)),
    decreases s.len(),
{
    broadcast use vstd::seq_lib::group_to_multiset_ensures;

    if s.len() > 0 {
        let before = s.drop_last();
        assert(distinct::<T>(before)) by {
            assert forall|i: int, j: int| 0 <= i < j < before.len() implies T::key_of(
                #[trigger] before[i],
            ) != T::key_of(#[trigger] before[j]) by {
                assert(before[i] == s[i] && before[j] == s[j]);
            }
        }
        sorted_is_distinct::<T>(before);
        sorted_is_ordered::<T>(before);
        let t = sorted::<T>(before);
        assert forall|i: int| 0 <= i < t.len() implies T::key_of(#[trigger] t[i]) != T::key_of(
            s.last(),
        ) by {
            assert(t.to_multiset().count(t[i]) > 0);
            assert(before.contains(t[i]));
            let k = choose|k: int| 0 <= k < before.len() && before[k] == t[i];
            assert(s[k] == before[k]);
            assert(s[s.len() - 1] == s.last());
        }
        inserted_is_distinct::<T>(t, s.last());
    }
}

proof fn inserted_is_distinct<T: Keyed>(s: Seq<T::V>, v: T::V)
    requires
        distinct::<T>(s),
        forall|i: int| 0 <= i < s.len() ==> T::key_of(#[trigger] s[i]) != T::key_of(v),
    ensures
        distinct::<T>(inserted::<T>(s, v)),
        inserted::<T>(s, v).len() == s.len() + 1,
        forall|i: int|
            0 <= i < inserted::<T>(s, v).len() ==> (#[trigger] inserted::<T>(s, v)[i]) == v
                || s.contains(inserted::<T>(s, v)[i]),
    decreases s.len(),
{
    let t = inserted::<T>(s, v);
    if s.len() == 0 || text_le(T::key_of(s.last()), T::key_of(v)) {
        assert forall|i: int, j: int| 0 <= i < j < t.len() implies T::key_of(#[trigger] t[i])
            != T::key_of(#[trigger] t[j]) by {
            assert(t[i] == s[i]);
            if j < s.len() {
                assert(t[j] == s[j]);
            }
        }
        assert forall|i: int| 0 <= i < t.len() implies (#[trigger] t[i]) == v || s.contains(
            t[i],
        ) by {
            if i < s.len() {
                assert(t[i] == s[i]);
            }
        }
    } else {
        let rest = s.drop_last();
        assert forall|i: int| 0 <= i < rest.len() implies T::key_of(#[trigger] rest[i])
            != T::key_of(v) by {
            assert(rest[i] == s[i]);
        }
        assert(distinct::<T>(rest)) by {
            assert forall|i: int, j: int| 0 <= i < j < rest.len() implies T::key_of(
                #[trigger] rest[i],
            ) != T::key_of(#[trigger] rest[j]) by {
                assert(rest[i] == s[i] && rest[j] == s[j]);
            }
        }
        inserted_is_distinct::<T>(rest, v);
        let u = inserted::<T>(rest, v);
        let last = s.len() - 1;
        assert forall|i: int| 0 <= i < u.len() implies T::key_of(#[trigger] u[i]) != T::key_of(
            s.last(),
        ) by {
            if u[i] != v {
                let k = choose|k: int| 0 <= k < rest.len() && rest[k] == u[i];
                assert(rest[k] == s[k]);
                assert(s[last] == s.last());
            } else {
                assert(s[last] == s.last());
            }
        }
        assert forall|i: int, j: int| 0 <= i < j < t.len() implies T::key_of(#[trigger] t[i])
            != T::key_of(#[trigger] t[j]) by {
            assert(t[i] == u[i]);
            if j < u.len() {
                assert(t[j] == u[j]);
            }
        }
        assert forall|i: int| 0 <= i < t.len() implies (#[trigger] t[i]) == v || s.contains(
            t[i],
        ) by {
            if i < u.len() {
                assert(t[i] == u[i]);
                if u[i] != v {
                    let k = choose|k: int| 0 <= k < rest.len() && rest[k] == u[i];
                    assert(rest[k] == s[k]);
                }
            } else {
                assert(s[last] == t[i]);
            }
        }
    }
}

/// References to the records, ordered by name.
pub fn sorted_refs<'a, T: Keyed>(v: &'a Vec<T>) -> (r: Vec<&'a T>)
    ensures
        ref_rows(r@) == sorted::<T>(rows(v@)),
{
    let mut r: Vec<&'a T> = Vec::new();
    let mut i: usize = 0;
    assert(rows(v@).take(0) =~= Seq::<T::V>::empty());
    assert(ref_rows(r@) =~= sorted::<T>(rows(v@).take(0)));
    while i < v.len()
        invariant
            i <= v@.len(),
            r@.len() == i,
            ref_rows(r@) == sorted::<T>(rows(v@).take(i as int)),
        decreases v@.len() - i,
    {
        let x: &'a T = &v[i];
        let ghost cur = ref_rows(r@);
        let mut at: usize = r.len();
        while at > 0 && !in_order(r[at - 1].key(), x.key())
            invariant
                at <= r@.len(),
                cur == ref_rows(r@),
                forall|k: int|
                    #![trigger cur[k]]
                    at <= k < cur.len() ==> !text_le(T::key_of(cur[k]), T::key_of(x@)),
            decreases at,
        {
            assert(cur[at - 1] == r@[at - 1]@);
            at -= 1;
        }
        assert(at > 0 ==> cur[at - 1] == r@[at - 1]@);
        proof {
            inserted_at::<T>(cur, x@, at as int);
            assert(rows(v@).take(i + 1).drop_last() =~= rows(v@).take(i as int));
            assert(rows(v@).take(i + 1).last() == x@);
        }
        r.insert(at, x);
        assert(ref_rows(r@) =~= cur.insert(at as int, x@));
        i += 1;
    }
    assert(rows(v@).take(i as int) =~= rows(v@));
    r
}

} // verus!
