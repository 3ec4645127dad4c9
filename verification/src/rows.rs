//! Records as the database keeps them.
//!
//! The database keeps text: identifiers, times and names of kinds are read out
//! of it, and what cannot be read is refused.
use vstd::prelude::*;
use vstd::string::*;

use crate::commands::common::user_path;
use crate::failure::Failure;
use crate::ids::{check_id, id_text, uuid_form, uuid_parsed};
use crate::model::{
    approval_status_reads_back, stored_algorithm_reads_back, stored_kind_reads_back,
    usage_names_read_back, valid_path, Algorithm, ApprovalRequest, ApprovalStatus, ApprovalView,
    Identity, IdentityUsage, IdentityView, ObjectKind, ObjectView, Profile,
    ProfileView, TpmObject,
};
use crate::text::{opt_bytes, opt_text};

verus! {

// ---------------------------------------------------------------------------
// Times and JSON
// ---------------------------------------------------------------------------

/// A time in RFC 3339 form, moved to UTC, or what is wrong with the text.
pub uninterp spec fn time_parsed(text: Seq<char>) -> Result<Seq<char>, Seq<char>>;

/// A JSON text in its compact form, or what is wrong with the text.
pub uninterp spec fn json_parsed(text: Seq<char>) -> Result<Seq<char>, Seq<char>>;

/// A time in RFC 3339 form, moved to UTC.
pub open spec fn utc_time(text: Seq<char>) -> Option<Seq<char>> {
    match time_parsed(text) {
        Ok(t) => Some(t),
        Err(_) => None,
    }
}

/// A JSON text in its compact form.
pub open spec fn json_compact(text: Seq<char>) -> Option<Seq<char>> {
    match json_parsed(text) {
        Ok(t) => Some(t),
        Err(_) => None,
    }
}

/// The views of both outcomes.
pub open spec fn outcome(r: Result<String, String>) -> Result<Seq<char>, Seq<char>> {
    match r {
        Ok(t) => Ok(t@),
        Err(e) => Err(e@),
    }
}

/// `chrono::DateTime::parse_from_rfc3339`, then `to_utc` and `to_rfc3339`: the
/// time that a text denotes, in UTC, or the text of the error.
#[verifier::external_body]
fn read_time(text: &str) -> (r: Result<String, String>)
    ensures
        outcome(r) == time_parsed(text@),
{
    let time = chrono::DateTime::parse_from_rfc3339(text).map_err(|e| e.to_string())?;
    Ok(time.to_utc().to_rfc3339())
}

/// `serde_json::from_str` into a value and `Value::to_string`: the value that a
/// JSON text denotes, in compact form, or the text of the error.
#[verifier::external_body]
fn read_json(text: &str) -> (r: Result<String, String>)
    ensures
        outcome(r) == json_parsed(text@),
{
    let value: serde_json::Value = serde_json::from_str(text).map_err(|e| e.to_string())?;
    Ok(value.to_string())
}

/// An optional identifier, or what is wrong with its text.
pub open spec fn opt_id(t: Option<Seq<char>>) -> Result<Option<u128>, Seq<char>> {
    match t {
        None => Ok(None),
        Some(s) => match uuid_parsed(s) {
            Ok(id) => Ok(Some(id)),
            Err(e) => Err(e),
        },
    }
}

/// An optional time, or what is wrong with its text.
pub open spec fn opt_time(t: Option<Seq<char>>) -> Result<Option<Seq<char>>, Seq<char>> {
    match t {
        None => Ok(None),
        Some(s) => match time_parsed(s) {
            Ok(at) => Ok(Some(at)),
            Err(e) => Err(e),
        },
    }
}

/// What is said of a kind that is none of those stored.
pub open spec fn no_kind(name: Seq<char>) -> Seq<char> {
    "unknown variant `"@ + name
        + "`, expected one of `signing-key`, `storage-key`, `attestation-key`, `sealed-blob`, `nv-index`"@
}

/// What is said of an algorithm that is none of those stored.
pub open spec fn no_algorithm(name: Seq<char>) -> Seq<char> {
    "unknown variant `"@ + name
        + "`, expected one of `ecc_p256`, `ecc_p384`, `rsa2048`, `rsa3072`"@
}

fn take_kind(name: &str) -> (r: Result<ObjectKind, Failure>)
    ensures
        match r {
            Ok(k) => ObjectKind::stored(name@) == Some(k),
            Err(e) => ObjectKind::stored(name@) is None && e@ == no_kind(name@),
        },
{
    match ObjectKind::from_stored(name) {
        Some(k) => Ok(k),
        None => Err(
            Failure::around(
                "unknown variant `",
                name,
                "`, expected one of `signing-key`, `storage-key`, `attestation-key`, `sealed-blob`, `nv-index`",
            ),
        ),
    }
}

fn take_algorithm(name: &str) -> (r: Result<Algorithm, Failure>)
    ensures
        match r {
            Ok(a) => Algorithm::stored(name@) == Some(a),
            Err(e) => Algorithm::stored(name@) is None && e@ == no_algorithm(name@),
        },
{
    match Algorithm::from_stored(name) {
        Some(a) => Ok(a),
        None => Err(
            Failure::around(
                "unknown variant `",
                name,
                "`, expected one of `ecc_p256`, `ecc_p384`, `rsa2048`, `rsa3072`",
            ),
        ),
    }
}

fn take_id(text: &str) -> (r: Result<u128, Failure>)
    ensures
        match r {
            Ok(id) => uuid_parsed(text@) == Ok::<u128, Seq<char>>(id),
            Err(f) => uuid_parsed(text@) == Err::<u128, Seq<char>>(f@),
        },
{
    match check_id(text) {
        Ok(id) => Ok(id),
        Err(e) => Err(Failure::new(e.as_str())),
    }
}

fn take_opt_id(t: &Option<String>) -> (r: Result<Option<u128>, Failure>)
    ensures
        match r {
            Ok(id) => opt_id(opt_text(*t)) == Ok::<Option<u128>, Seq<char>>(id),
            Err(f) => opt_id(opt_text(*t)) == Err::<Option<u128>, Seq<char>>(f@),
        },
{
    match t {
        None => Ok(None),
        Some(s) => match take_id(s.as_str()) {
            Ok(id) => Ok(Some(id)),
            Err(f) => Err(f),
        },
    }
}

fn take_time(text: &str) -> (r: Result<String, Failure>)
    ensures
        match r {
            Ok(at) => time_parsed(text@) == Ok::<Seq<char>, Seq<char>>(at@),
            Err(f) => time_parsed(text@) == Err::<Seq<char>, Seq<char>>(f@),
        },
{
    match read_time(text) {
        Ok(at) => Ok(at),
        Err(e) => Err(Failure::new(e.as_str())),
    }
}

fn take_opt_time(t: &Option<String>) -> (r: Result<Option<String>, Failure>)
    ensures
        match r {
            Ok(at) => opt_time(opt_text(*t)) == Ok::<Option<Seq<char>>, Seq<char>>(opt_text(at)),
            Err(f) => opt_time(opt_text(*t)) == Err::<Option<Seq<char>>, Seq<char>>(f@),
        },
{
    match t {
        None => Ok(None),
        Some(s) => match take_time(s.as_str()) {
            Ok(at) => Ok(Some(at)),
            Err(f) => Err(f),
        },
    }
}

fn take_json(text: &str) -> (r: Result<String, Failure>)
    ensures
        match r {
            Ok(j) => json_parsed(text@) == Ok::<Seq<char>, Seq<char>>(j@),
            Err(f) => json_parsed(text@) == Err::<Seq<char>, Seq<char>>(f@),
        },
{
    match read_json(text) {
        Ok(j) => Ok(j),
        Err(e) => Err(Failure::new(e.as_str())),
    }
}

fn write_opt_id(id: Option<u128>) -> (t: Option<String>)
    ensures
        opt_id(opt_text(t)) == Ok::<Option<u128>, Seq<char>>(id),
        match id {
            Some(i) => opt_text(t) == Some(uuid_form(i)),
            None => t is None,
        },
{
    match id {
        Some(i) => Some(id_text(i)),
        None => None,
    }
}

// ---------------------------------------------------------------------------
// Objects
// ---------------------------------------------------------------------------

/// An object as the database keeps it.
#[derive(Debug)]
pub struct RawObjectRow {
    pub id: String,
    pub path: String,
    pub kind: String,
    pub algorithm: String,
    pub policy_id: Option<String>,
    pub handle_blob: Option<Vec<u8>>,
    pub created_at: String,
    pub metadata: String,
}

/// The object that a row holds, or what is wrong with the first part that
/// cannot be read.
pub open spec fn row_object(row: RawObjectRow) -> Result<ObjectView, Seq<char>> {
    match uuid_parsed(row.id@) {
        Err(e) => Err(e),
        Ok(id) => if !valid_path(row.path@) {
            Err("invalid object path: "@ + row.path@)
        } else {
            match (ObjectKind::stored(row.kind@), Algorithm::stored(row.algorithm@)) {
                (None, _) => Err(no_kind(row.kind@)),
                (_, None) => Err(no_algorithm(row.algorithm@)),
                (Some(kind), Some(algorithm)) => match opt_id(opt_text(row.policy_id)) {
                    Err(e) => Err(e),
                    Ok(policy_id) => match (
                        time_parsed(row.created_at@),
                        json_parsed(row.metadata@),
                    ) {
                        (Err(e), _) => Err(e),
                        (_, Err(e)) => Err(e),
                        (Ok(created_at), Ok(metadata)) => Ok(
                            ObjectView {
                                id,
                                path: row.path@,
                                kind,
                                algorithm,
                                policy_id,
                                handle_blob: opt_bytes(row.handle_blob),
                                created_at,
                                metadata,
                            },
                        ),
                    },
                },
            }
        },
    }
}

/// An object whose path, time and metadata are what they should be.
pub open spec fn proper_object(o: ObjectView) -> bool {
    &&& valid_path(o.path)
    &&& utc_time(o.created_at) == Some(o.created_at)
    &&& json_compact(o.metadata) == Some(o.metadata)
}

impl RawObjectRow {
    /// Reads the object out of a row.
    pub fn into_object(self) -> (r: Result<TpmObject, Failure>)
        ensures
            match r {
                Ok(o) => row_object(self) == Ok::<ObjectView, Seq<char>>(o@),
                Err(e) => row_object(self) == Err::<ObjectView, Seq<char>>(e@),
            },
    {
        let id: u128 = take_id(self.id.as_str())?;
        let path = user_path(self.path.as_str())?;
        let kind = take_kind(self.kind.as_str())?;
        let algorithm = take_algorithm(self.algorithm.as_str())?;
        let policy_id = take_opt_id(&self.policy_id)?;
        let created_at = take_time(self.created_at.as_str())?;
        let metadata = take_json(self.metadata.as_str())?;
        Ok(
            TpmObject {
                id,
                path,
                kind,
                algorithm,
                policy_id,
                handle_blob: self.handle_blob,
                created_at,
                metadata,
            },
        )
    }

    /// Writes an object as a row. A proper object reads back as it was.
    pub fn from_object(o: TpmObject) -> (row: RawObjectRow)
        ensures
            row.id@ == uuid_form(o@.id),
            row.path@ == o@.path,
            row.kind@ == o@.kind.text(),
            row.algorithm@ == o@.algorithm.stored_text(),
            match o@.policy_id {
                Some(p) => opt_text(row.policy_id) == Some(uuid_form(p)),
                None => row.policy_id is None,
            },
            opt_bytes(row.handle_blob) == o@.handle_blob,
            row.created_at@ == o@.created_at,
            row.metadata@ == o@.metadata,
            proper_object(o@) ==> row_object(row) == Ok::<ObjectView, Seq<char>>(o@),
    {
        proof {
            stored_kind_reads_back(o.kind);
            stored_algorithm_reads_back(o.algorithm);
        }
        RawObjectRow {
            id: id_text(o.id),
            path: o.path.as_str().to_owned(),
            kind: o.kind.name().to_owned(),
            algorithm: o.algorithm.stored_name().to_owned(),
            policy_id: write_opt_id(o.policy_id),
            handle_blob: o.handle_blob,
            created_at: o.created_at,
            metadata: o.metadata,
        }
    }
}

// ---------------------------------------------------------------------------
// Identities
// ---------------------------------------------------------------------------

/// An identity as the database keeps it.
#[derive(Debug)]
pub struct RawIdentityRow {
    pub id: String,
    pub name: String,
    pub key_object_id: String,
    pub policy_id: Option<String>,
    pub usage: String,
    pub subject: Option<String>,
    pub certificate_pem: Option<String>,
    pub created_at: String,
    pub rotated_from: Option<String>,
}

/// The identity that a row holds, or what is wrong with the first part that
/// cannot be read.
pub open spec fn row_identity(row: RawIdentityRow) -> Result<IdentityView, Seq<char>> {
    match IdentityUsage::named(row.usage@) {
        None => Err("unknown identity usage: "@ + row.usage@),
        Some(usage) => match (uuid_parsed(row.id@), uuid_parsed(row.key_object_id@)) {
            (Err(e), _) => Err(e),
            (_, Err(e)) => Err(e),
            (Ok(id), Ok(key_object_id)) => match (
                opt_id(opt_text(row.policy_id)),
                time_parsed(row.created_at@),
                opt_id(opt_text(row.rotated_from)),
            ) {
                (Err(e), _, _) => Err(e),
                (_, Err(e), _) => Err(e),
                (_, _, Err(e)) => Err(e),
                (Ok(policy_id), Ok(created_at), Ok(rotated_from)) => Ok(
                    IdentityView {
                        id,
                        name: row.name@,
                        key_object_id,
                        policy_id,
                        usage,
                        subject: opt_text(row.subject),
                        certificate_pem: opt_text(row.certificate_pem),
                        created_at,
                        rotated_from,
                    },
                ),
            },
        },
    }
}

impl RawIdentityRow {
    /// Reads the identity out of a row.
    pub fn into_identity(self) -> (r: Result<Identity, Failure>)
        ensures
            match r {
                Ok(i) => row_identity(self) == Ok::<IdentityView, Seq<char>>(i@),
                Err(e) => row_identity(self) == Err::<IdentityView, Seq<char>>(e@),
            },
    {
        let usage = match IdentityUsage::parse(self.usage.as_str()) {
            Some(u) => u,
            None => {
                return Err(Failure::about("unknown identity usage: ", self.usage.as_str()));
            },
        };
        let id: u128 = take_id(self.id.as_str())?;
        let key_object_id: u128 = take_id(self.key_object_id.as_str())?;
        let policy_id = take_opt_id(&self.policy_id)?;
        let created_at = take_time(self.created_at.as_str())?;
        let rotated_from = take_opt_id(&self.rotated_from)?;
        Ok(
            Identity {
                id,
                name: self.name,
                key_object_id,
                policy_id,
                usage,
                subject: self.subject,
                certificate_pem: self.certificate_pem,
                created_at,
                rotated_from,
            },
        )
    }

    /// Writes an identity as a row. One with a proper time reads back as it was.
    pub fn from_identity(i: Identity) -> (row: RawIdentityRow)
        ensures
            row.id@ == uuid_form(i@.id),
            row.name@ == i@.name,
            row.key_object_id@ == uuid_form(i@.key_object_id),
            row.usage@ == i@.usage.text(),
            opt_text(row.subject) == i@.subject,
            opt_text(row.certificate_pem) == i@.certificate_pem,
            row.created_at@ == i@.created_at,
            opt_id(opt_text(row.policy_id)) == Ok::<Option<u128>, Seq<char>>(i@.policy_id),
            opt_id(opt_text(row.rotated_from)) == Ok::<Option<u128>, Seq<char>>(i@.rotated_from),
            utc_time(i@.created_at) == Some(i@.created_at) ==> row_identity(row) == Ok::<
                IdentityView,
                Seq<char>,
            >(i@),
    {
        proof {
            usage_names_read_back(i.usage);
        }
        RawIdentityRow {
            id: id_text(i.id),
            name: i.name,
            key_object_id: id_text(i.key_object_id),
            policy_id: write_opt_id(i.policy_id),
            usage: i.usage.name().to_owned(),
            subject: i.subject,
            certificate_pem: i.certificate_pem,
            created_at: i.created_at,
            rotated_from: write_opt_id(i.rotated_from),
        }
    }
}

// ---------------------------------------------------------------------------
// Approvals
// ---------------------------------------------------------------------------

/// A request for approval as the database keeps it.
#[derive(Debug)]
pub struct RawApprovalRow {
    pub id: String,
    pub operation: String,
    pub target: Option<String>,
    pub requester: String,
    pub reason: Option<String>,
    pub status: String,
    pub created_at: String,
    pub resolved_at: Option<String>,
    pub resolved_by: Option<String>,
}

/// The request that a row holds, or what is wrong with the first part that
/// cannot be read. An unknown status counts as pending.
pub open spec fn row_approval(row: RawApprovalRow) -> Result<ApprovalView, Seq<char>> {
    match (uuid_parsed(row.id@), time_parsed(row.created_at@), opt_time(opt_text(row.resolved_at))) {
        (Err(e), _, _) => Err(e),
        (_, Err(e), _) => Err(e),
        (_, _, Err(e)) => Err(e),
        (Ok(id), Ok(created_at), Ok(resolved_at)) => Ok(
            ApprovalView {
                id,
                operation: row.operation@,
                target: opt_text(row.target),
                requester: row.requester@,
                reason: opt_text(row.reason),
                status: ApprovalStatus::stored(row.status@),
                created_at,
                resolved_at,
                resolved_by: opt_text(row.resolved_by),
            },
        ),
    }
}

impl RawApprovalRow {
    /// Reads the request out of a row.
    pub fn into_approval(self) -> (r: Result<ApprovalRequest, Failure>)
        ensures
            match r {
                Ok(a) => row_approval(self) == Ok::<ApprovalView, Seq<char>>(a@),
                Err(e) => row_approval(self) == Err::<ApprovalView, Seq<char>>(e@),
            },
    {
        let id: u128 = take_id(self.id.as_str())?;
        let created_at = take_time(self.created_at.as_str())?;
        let resolved_at = take_opt_time(&self.resolved_at)?;
        let status = ApprovalStatus::from_stored(self.status.as_str());
        Ok(
            ApprovalRequest {
                id,
                operation: self.operation,
                target: self.target,
                requester: self.requester,
                reason: self.reason,
                status,
                created_at,
                resolved_at,
                resolved_by: self.resolved_by,
            },
        )
    }

    /// Writes a request as a row. One with proper times reads back as it was.
    pub fn from_approval(a: ApprovalRequest) -> (row: RawApprovalRow)
        ensures
            row.id@ == uuid_form(a@.id),
            row.operation@ == a@.operation,
            opt_text(row.target) == a@.target,
            row.requester@ == a@.requester,
            opt_text(row.reason) == a@.reason,
            row.status@ == a@.status.text(),
            row.created_at@ == a@.created_at,
            opt_text(row.resolved_at) == a@.resolved_at,
            opt_text(row.resolved_by) == a@.resolved_by,
            utc_time(a@.created_at) == Some(a@.created_at) && opt_time(a@.resolved_at) == Ok::<
                Option<Seq<char>>,
                Seq<char>,
            >(a@.resolved_at) ==> row_approval(row) == Ok::<ApprovalView, Seq<char>>(a@),
    {
        proof {
            approval_status_reads_back(a.status);
        }
        RawApprovalRow {
            id: id_text(a.id),
            operation: a.operation,
            target: a.target,
            requester: a.requester,
            reason: a.reason,
            status: a.status.name().to_owned(),
            created_at: a.created_at,
            resolved_at: a.resolved_at,
            resolved_by: a.resolved_by,
        }
    }
}

// ---------------------------------------------------------------------------
// Profiles
// ---------------------------------------------------------------------------

/// A profile as the database keeps it.
#[derive(Debug)]
pub struct RawProfileRow {
    pub name: String,
    pub default_algorithm: String,
    pub default_policy: Option<String>,
    pub is_active: i32,
}

/// The profile that a row holds; `None` where its algorithm is unknown.
pub open spec fn row_profile(row: RawProfileRow) -> Option<ProfileView> {
    match Algorithm::stored(row.default_algorithm@) {
        Some(default_algorithm) => Some(
            ProfileView {
                name: row.name@,
                default_algorithm,
                default_policy: opt_text(row.default_policy),
                is_active: row.is_active != 0,
            },
        ),
        None => None,
    }
}

impl RawProfileRow {
    /// Reads the profile out of a row.
    pub fn into_profile(self) -> (r: Result<Profile, Failure>)
        ensures
            match r {
                Ok(p) => row_profile(self) == Some(p@),
                Err(e) => row_profile(self) is None && e@ == no_algorithm(self.default_algorithm@),
            },
    {
        let default_algorithm = take_algorithm(self.default_algorithm.as_str())?;
        Ok(
            Profile {
                name: self.name,
                default_algorithm,
                default_policy: self.default_policy,
                is_active: self.is_active != 0,
            },
        )
    }

    /// Writes a profile as a row, from which it reads back.
    pub fn from_profile(p: Profile) -> (row: RawProfileRow)
        ensures
            row_profile(row) == Some(p@),
            row.is_active == 0 || row.is_active == 1,
    {
        proof {
            stored_algorithm_reads_back(p.default_algorithm);
        }
        RawProfileRow {
            name: p.name,
            default_algorithm: p.default_algorithm.stored_name().to_owned(),
            default_policy: p.default_policy,
            is_active: if p.is_active {
                1
            } else {
                0
            },
        }
    }
}

// ---------------------------------------------------------------------------
// Migrations
// ---------------------------------------------------------------------------

/// The number of the newest migration.
pub const LATEST_MIGRATION: i64 = 6;

/// The migrations that a database at version `current` still needs, in order.
pub fn migrate(current: i64) -> (v: Vec<i64>)
    ensures
        forall|i: int|
            0 <= i < v@.len() ==> current < #[trigger] v@[i] && 1 <= v@[i] <= LATEST_MIGRATION,
        forall|m: int|
            1 <= m <= LATEST_MIGRATION && m > current ==> #[trigger] v@.contains(m as i64),
        forall|i: int, j: int| 0 <= i < j < v@.len() ==> v@[i] < v@[j],
{
    let mut v: Vec<i64> = Vec::new();
    let mut m: i64 = 1;
    while m <= LATEST_MIGRATION
        invariant
            1 <= m <= LATEST_MIGRATION + 1,
            forall|i: int| 0 <= i < v@.len() ==> current < #[trigger] v@[i] && 1 <= v@[i] < m,
            forall|k: int| 1 <= k < m && k > current ==> #[trigger] v@.contains(k as i64),
            forall|i: int, j: int| 0 <= i < j < v@.len() ==> v@[i] < v@[j],
        decreases LATEST_MIGRATION + 1 - m,
    {
        let ghost before = v@;
        if m > current {
            v.push(m);
            assert(v@.last() == m);
            assert forall|k: int| 1 <= k < m + 1 && k > current implies #[trigger] v@.contains(
                k as i64,
            ) by {
                if k < m {
                    assert(before.contains(k as i64));
                    let i = choose|i: int| 0 <= i < before.len() && before[i] == k as i64;
                    assert(v@[i] == k as i64);
                } else {
                    assert(v@[v@.len() - 1] == k as i64);
                }
            }
        }
        m += 1;
    }
    v
}

} // verus!
