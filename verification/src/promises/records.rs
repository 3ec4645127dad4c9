//! Names, paths and database rows: what is written reads back.
use vstd::prelude::*;

use crate::failure::Failure;
use crate::model::{
    algorithm_names_read_back, approval_status_reads_back, stored_algorithm_reads_back,
    stored_kind_reads_back, usage_names_read_back, valid_path, Algorithm, ApprovalRequest,
    ApprovalStatus, Identity, IdentityUsage, ObjectKind, ObjectPath, Profile, TpmObject,
};
use crate::rows::{
    migrate, opt_time, proper_object, utc_time, RawApprovalRow, RawIdentityRow, RawObjectRow,
    RawProfileRow,
};

verus! {

// ---------------------------------------------------------------------------
// Names
// ---------------------------------------------------------------------------

/// An algorithm reads back from the name under which it is shown and from the
/// name under which it is stored; no two algorithms share either.
pub proof fn algorithm_reads_back_from_its_names(
    a: Algorithm,
    shown: &str,
    parsed: Option<Algorithm>,
    stored: &str,
    loaded: Option<Algorithm>,
)
    requires
        call_ensures(Algorithm::name, (a,), shown),
        call_ensures(Algorithm::parse, (shown,), parsed),
        call_ensures(Algorithm::stored_name, (a,), stored),
        call_ensures(Algorithm::from_stored, (stored,), loaded),
    ensures
        parsed == Some(a),
        loaded == Some(a),
{
    algorithm_names_read_back(a);
    stored_algorithm_reads_back(a);
}

/// Kinds, usages and states read back from their names.
pub proof fn names_read_back(
    k: ObjectKind,
    kind: &str,
    k2: Option<ObjectKind>,
    u: IdentityUsage,
    usage: &str,
    u2: Option<IdentityUsage>,
    s: ApprovalStatus,
    status: &str,
    s2: ApprovalStatus,
)
    requires
        call_ensures(ObjectKind::name, (k,), kind),
        call_ensures(ObjectKind::from_stored, (kind,), k2),
        call_ensures(IdentityUsage::name, (u,), usage),
        call_ensures(IdentityUsage::parse, (usage,), u2),
        call_ensures(ApprovalStatus::name, (s,), status),
        call_ensures(ApprovalStatus::from_stored, (status,), s2),
    ensures
        k2 == Some(k),
        u2 == Some(u),
        s2 == s,
{
    stored_kind_reads_back(k);
    usage_names_read_back(u);
    approval_status_reads_back(s);
}

/// Keys are the three kinds of key, and neither sealed data nor NV indices.
pub proof fn keys_are_keys(k: ObjectKind, r: bool)
    requires
        call_ensures(ObjectKind::key, (k,), r),
    ensures
        r <==> k != ObjectKind::SealedBlob && k != ObjectKind::NvIndex,
{
}

// ---------------------------------------------------------------------------
// Paths
// ---------------------------------------------------------------------------

/// A letter, a digit, a hyphen or an underscore.
pub open spec fn segment_char(c: char) -> bool {
    ('a' <= c <= 'z') || ('A' <= c <= 'Z') || ('0' <= c <= '9') || c == '-' || c == '_'
}

/// A text without a slash is a path just where it is not empty and has nothing
/// but letters, digits, hyphens and underscores.
pub proof fn segment_is_a_path(s: &str, r: Option<ObjectPath>)
    requires
        forall|i: int| 0 <= i < s@.len() ==> s@[i] != '/',
        call_ensures(ObjectPath::new, (s,), r),
    ensures
        r is Some <==> s@.len() > 0 && forall|i: int|
            0 <= i < s@.len() ==> segment_char(#[trigger] s@[i]),
        r matches Some(p) ==> p@ == s@,
{
}

/// Two texts with a slash between them are a path just where both of them are,
/// so that a path is made of segments, none of them empty.
pub proof fn path_is_made_of_paths(
    a: &str,
    b: &str,
    ab: &str,
    ra: Option<ObjectPath>,
    rb: Option<ObjectPath>,
    r: Option<ObjectPath>,
)
    requires
        ab@ == a@ + seq!['/'] + b@,
        call_ensures(ObjectPath::new, (a,), ra),
        call_ensures(ObjectPath::new, (b,), rb),
        call_ensures(ObjectPath::new, (ab,), r),
    ensures
        r is Some <==> ra is Some && rb is Some,
{
    let s = a@;
    let t = b@;
    let n = s.len() as int;
    let u = ab@;
    assert(u[n] == '/');
    if r is Some {
        if s.len() == 0 {
            assert(u[0] == '/');
        } else {
            assert(u[0] == s[0]);
            assert(u[n - 1] == s[n - 1]);
            assert(!(u[n - 1] == '/' && u[n - 1 + 1] == '/'));
        }
        if t.len() == 0 {
            assert(u.last() == '/');
        } else {
            assert(u[n + 1] == t[0]);
            assert(!(u[n] == '/' && u[n + 1] == '/'));
            assert(u.last() == t.last());
        }
        assert forall|i: int| 0 <= i < s.len() implies crate::model::path_char(#[trigger] s[i])
            || s[i] == '/' by {
            assert(u[i] == s[i]);
        }
        assert forall|i: int| 0 <= i < t.len() implies crate::model::path_char(#[trigger] t[i])
            || t[i] == '/' by {
            assert(u[n + 1 + i] == t[i]);
        }
        assert forall|i: int| 0 <= i < s.len() - 1 implies !(#[trigger] s[i] == '/' && s[i + 1]
            == '/') by {
            assert(u[i] == s[i] && u[i + 1] == s[i + 1]);
        }
        assert forall|i: int| 0 <= i < t.len() - 1 implies !(#[trigger] t[i] == '/' && t[i + 1]
            == '/') by {
            assert(u[n + 1 + i] == t[i] && u[n + 1 + i + 1] == t[i + 1]);
        }
        assert(valid_path(s));
        assert(valid_path(t));
    }
    if ra is Some && rb is Some {
        assert(u[0] == s[0]);
        assert(u.last() == t.last());
        assert forall|i: int| 0 <= i < u.len() implies crate::model::path_char(#[trigger] u[i])
            || u[i] == '/' by {
            if i < n {
                assert(u[i] == s[i]);
            } else if i > n {
                assert(u[i] == t[i - n - 1]);
            }
        }
        assert forall|i: int| 0 <= i < u.len() - 1 implies !(#[trigger] u[i] == '/' && u[i + 1]
            == '/') by {
            if i < n - 1 {
                assert(u[i] == s[i] && u[i + 1] == s[i + 1]);
            } else if i == n - 1 {
                assert(u[i] == s.last());
            } else if i == n {
                assert(u[i + 1] == t[0]);
            } else {
                assert(u[i] == t[i - n - 1] && u[i + 1] == t[i - n - 1 + 1]);
            }
        }
        assert(valid_path(u));
    }
}

// ---------------------------------------------------------------------------
// Database rows
// ---------------------------------------------------------------------------

/// An object reads back from its row as it was.
pub proof fn object_reads_back_from_its_row(
    o: TpmObject,
    row: RawObjectRow,
    r: Result<TpmObject, Failure>,
)
    requires
        proper_object(o@),
        call_ensures(RawObjectRow::from_object, (o,), row),
        call_ensures(RawObjectRow::into_object, (row,), r),
    ensures
        r matches Ok(b) && b@ == o@,
{
}

/// An identity reads back from its row as it was.
pub proof fn identity_reads_back_from_its_row(
    i: Identity,
    row: RawIdentityRow,
    r: Result<Identity, Failure>,
)
    requires
        utc_time(i@.created_at) == Some(i@.created_at),
        call_ensures(RawIdentityRow::from_identity, (i,), row),
        call_ensures(RawIdentityRow::into_identity, (row,), r),
    ensures
        r matches Ok(b) && b@ == i@,
{
}

/// A request for approval reads back from its row as it was.
pub proof fn approval_reads_back_from_its_row(
    a: ApprovalRequest,
    row: RawApprovalRow,
    r: Result<ApprovalRequest, Failure>,
)
    requires
        utc_time(a@.created_at) == Some(a@.created_at),
        opt_time(a@.resolved_at) == Ok::<Option<Seq<char>>, Seq<char>>(a@.resolved_at),
        call_ensures(RawApprovalRow::from_approval, (a,), row),
        call_ensures(RawApprovalRow::into_approval, (row,), r),
    ensures
        r matches Ok(b) && b@ == a@,
{
}

/// A profile reads back from its row as it was; in the row, one stands for an
/// active one and zero for any other.
pub proof fn profile_reads_back_from_its_row(
    p: Profile,
    row: RawProfileRow,
    r: Result<Profile, Failure>,
)
    requires
        call_ensures(RawProfileRow::from_profile, (p,), row),
        call_ensures(RawProfileRow::into_profile, (row,), r),
    ensures
        r matches Ok(b) && b@ == p@,
        row.is_active == 1 <==> p.is_active,
        row.is_active == 0 <==> !p.is_active,
{
}

/// A row with a path, a kind or an algorithm that is none holds no object.
pub proof fn broken_row_holds_no_object(row: RawObjectRow, r: Result<TpmObject, Failure>)
    requires
        !valid_path(row.path@) || ObjectKind::stored(row.kind@) is None || Algorithm::stored(
            row.algorithm@,
        ) is None,
        call_ensures(RawObjectRow::into_object, (row,), r),
    ensures
        r is Err,
{
}

/// A new database needs all six migrations, in their order; one that has some
/// needs just the rest, and none of them twice.
pub proof fn migrations_complete_each_other(current: i64, v: Vec<i64>, i: int)
    requires
        0 <= current <= 6,
        call_ensures(migrate, (current,), v),
        0 <= i < v@.len(),
    ensures
        v@[i] == current + 1 + i,
        v@.len() == 6 - current,
{
    migration_places(v@, current as int, v@.len() as int);
}

/// An ascending list of all numbers behind `current`, up to six, counts them.
proof fn migration_places(v: Seq<i64>, current: int, n: int)
    requires
        0 <= current <= 6,
        0 <= n <= v.len(),
        forall|i: int| 0 <= i < v.len() ==> current < #[trigger] v[i] && v[i] <= 6,
        forall|m: int| 1 <= m <= 6 && m > current ==> #[trigger] v.contains(m as i64),
        forall|i: int, j: int| 0 <= i < j < v.len() ==> v[i] < v[j],
    ensures
        forall|i: int| 0 <= i < n ==> #[trigger] v[i] == current + 1 + i,
        v.len() == 6 - current,
    decreases n,
{
    assert forall|i: int| 0 <= i < v.len() implies #[trigger] v[i] == current + 1 + i by {
        place_of_migration(v, current, i);
    }
    if v.len() < 6 - current {
        let m = current + 1 + v.len();
        assert(v.contains(m as i64));
        let k = choose|k: int| 0 <= k < v.len() && v[k] == m as i64;
        assert(v[k] == current + 1 + k);
    }
    if v.len() > 6 - current {
        assert(v[6 - current] == 7);
    }
}

proof fn place_of_migration(v: Seq<i64>, current: int, i: int)
    requires
        0 <= current <= 6,
        0 <= i < v.len(),
        forall|k: int| 0 <= k < v.len() ==> current < #[trigger] v[k] && v[k] <= 6,
        forall|m: int| 1 <= m <= 6 && m > current ==> #[trigger] v.contains(m as i64),
        forall|k: int, j: int| 0 <= k < j < v.len() ==> v[k] < v[j],
    ensures
        v[i] == current + 1 + i,
    decreases i,
{
    if i > 0 {
        place_of_migration(v, current, i - 1);
        assert(v[i - 1] < v[i]);
    }
    if v[i] > current + 1 + i {
        let m = current + 1 + i;
        assert(v.contains(m as i64));
        let k = choose|k: int| 0 <= k < v.len() && v[k] == m as i64;
        if k < i {
            assert(k <= i - 1);
            if k < i - 1 {
                assert(v[k] < v[i - 1]);
            }
        }
        if k > i {
            assert(v[i] < v[k]);
        }
    }
}

} // verus!
