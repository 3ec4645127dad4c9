//! What several commands share.
use vstd::prelude::*;
use vstd::string::*;

use crate::failure::Failure;
use crate::model::{Algorithm, ObjectKind, ObjectPath, ObjectView, TpmObject};
use crate::store::{MemoryStore, StoreState};
use crate::table::{present, ref_rows, sorted};
use crate::text::{decimal, push_decimal};

verus! {

/// The state after an object was added and logged under its path.
pub open spec fn added_and_logged(
    s: StoreState,
    o: ObjectView,
    action: Seq<char>,
    details: Seq<char>,
    stamp: Seq<char>,
) -> StoreState {
    StoreState { objects: s.objects.push(o), ..s }.logged(action, Some(o.path), details, stamp)
}

/// Adds an object and logs that, unless its path is taken.
pub fn add_object(
    store: &mut MemoryStore,
    obj: TpmObject,
    action: &str,
    details: &str,
    stamp: &str,
) -> (r: Result<(), Failure>)
    requires
        old(store)@.wf(),
        old(store)@.can_log(),
    ensures
        final(store)@.wf(),
        match r {
            Ok(_) => !present::<TpmObject>(old(store)@.objects, obj@.path) && final(store)@
                == added_and_logged(old(store)@, obj@, action@, details@, stamp@),
            Err(e) => present::<TpmObject>(old(store)@.objects, obj@.path) && e@
                == "UNIQUE constraint failed: objects.path"@ && final(store)@ == old(store)@,
        },
{
    let path = obj.path.copy();
    match store.insert_object(obj) {
        Err(e) => Err(e),
        Ok(_) => {
            store.log_action_at(action, Some(path.as_str()), details, stamp);
            Ok(())
        },
    }
}

/// Checks a path that the user gave.
pub fn user_path(path: &str) -> (r: Result<ObjectPath, Failure>)
    ensures
        match r {
            Ok(p) => crate::model::valid_path(path@) && p@ == path@,
            Err(e) => !crate::model::valid_path(path@) && e@ == "invalid object path: "@ + path@,
        },
{
    match ObjectPath::new(path) {
        Some(p) => Ok(p),
        None => Err(Failure::about("invalid object path: ", path)),
    }
}

/// Reads an algorithm that the user gave.
pub fn user_algorithm(name: &str) -> (r: Result<Algorithm, Failure>)
    ensures
        match r {
            Ok(a) => Algorithm::named(name@) == Some(a),
            Err(e) => Algorithm::named(name@) is None && e@ == "unknown algorithm: "@ + name@,
        },
{
    match Algorithm::parse(name) {
        Some(a) => Ok(a),
        None => Err(Failure::about("unknown algorithm: ", name)),
    }
}

/// The first `n` numbers, with commas and spaces between them.
pub open spec fn numbers_prefix(v: Seq<u32>, sep: Seq<char>, n: nat) -> Seq<char>
    decreases n,
{
    if n == 0 {
        Seq::empty()
    } else if n == 1 {
        decimal(v[0] as nat)
    } else {
        numbers_prefix(v, sep, (n - 1) as nat) + sep + decimal(v[n - 1] as nat)
    }
}

/// Numbers with a separator between neighbours.
pub open spec fn numbers(v: Seq<u32>, sep: Seq<char>) -> Seq<char> {
    numbers_prefix(v, sep, v.len())
}

/// Appends numbers with a separator between neighbours.
pub fn push_numbers(out: &mut String, v: &Vec<u32>, sep: &str)
    ensures
        final(out)@ == old(out)@ + numbers(v@, sep@),
{
    let ghost start = out@;
    let mut i: usize = 0;
    assert(out@ =~= start + numbers_prefix(v@, sep@, 0));
    while i < v.len()
        invariant
            i <= v@.len(),
            out@ == start + numbers_prefix(v@, sep@, i as nat),
        decreases v@.len() - i,
    {
        if i > 0 {
            out.append(sep);
        }
        push_decimal(out, v[i] as u64);
        i += 1;
        assert(out@ =~= start + numbers_prefix(v@, sep@, i as nat));
    }
}

/// A copy of numbers.
pub fn copy_numbers(v: &Vec<u32>) -> (r: Vec<u32>)
    ensures
        r@ == v@,
{
    let mut r: Vec<u32> = Vec::new();
    let mut i: usize = 0;
    while i < v.len()
        invariant
            i <= v@.len(),
            r@ == v@.take(i as int),
        decreases v@.len() - i,
    {
        r.push(v[i]);
        i += 1;
        assert(r@ =~= v@.take(i as int));
    }
    assert(r@ =~= v@);
    r
}

/// A copy of bytes.
pub fn copy_bytes(v: &Vec<u8>) -> (r: Vec<u8>)
    ensures
        r@ == v@,
{
    vstd::slice::slice_to_vec(v.as_slice())
}

// ---------------------------------------------------------------------------
// Objects by what they are
// ---------------------------------------------------------------------------

/// What an object is for its user.
#[derive(Debug, Clone, Copy, PartialEq, Eq, Structural)]
pub enum ObjectClass {
    Key,
    Secret,
    Nv,
}

impl ObjectClass {
    /// The kind belongs to the class.
    pub open spec fn has(self, kind: ObjectKind) -> bool {
        match self {
            ObjectClass::Key => kind.is_key(),
            ObjectClass::Secret => kind == ObjectKind::SealedBlob,
            ObjectClass::Nv => kind == ObjectKind::NvIndex,
        }
    }

    /// The kind belongs to the class.
    pub fn holds(self, kind: ObjectKind) -> (r: bool)
        ensures
            r == self.has(kind),
    {
        match self {
            ObjectClass::Key => kind.key(),
            ObjectClass::Secret => match kind {
                ObjectKind::SealedBlob => true,
                _ => false,
            },
            ObjectClass::Nv => match kind {
                ObjectKind::NvIndex => true,
                _ => false,
            },
        }
    }
}

/// Those of the first `n` objects that belong to a class.
pub open spec fn of_class(s: Seq<ObjectView>, c: ObjectClass, n: nat) -> Seq<ObjectView>
    decreases n,
{
    if n == 0 {
        Seq::empty()
    } else if c.has(s[n - 1].kind) {
        of_class(s, c, (n - 1) as nat).push(s[n - 1])
    } else {
        of_class(s, c, (n - 1) as nat)
    }
}

/// The objects of a class, ordered by path.
pub open spec fn class_list(s: StoreState, c: ObjectClass) -> Seq<ObjectView> {
    let all = sorted::<TpmObject>(s.objects);
    of_class(all, c, all.len())
}

/// The objects of a class, ordered by path.
pub fn objects_of<'a>(store: &'a MemoryStore, c: ObjectClass) -> (r: Vec<&'a TpmObject>)
    ensures
        ref_rows(r@) == class_list(store@, c),
{
    let list = store.list_objects();
    let ghost all = ref_rows(list@);
    let mut r: Vec<&'a TpmObject> = Vec::new();
    let mut i: usize = 0;
    assert(ref_rows(r@) =~= of_class(all, c, 0));
    while i < list.len()
        invariant
            i <= list@.len(),
            all == ref_rows(list@),
            ref_rows(r@) == of_class(all, c, i as nat),
        decreases list@.len() - i,
    {
        let o: &'a TpmObject = list[i];
        assert(all[i as int] == o@);
        let ghost before = ref_rows(r@);
        if c.holds(o.kind) {
            r.push(o);
            assert(ref_rows(r@) =~= before.push(o@));
        }
        i += 1;
    }
    r
}

} // verus!
