//! The present moment and fresh identifiers.
use vstd::prelude::*;
use vstd::string::*;

verus! {

/// A point in time, in the two forms in which records keep it.
#[derive(Debug)]
pub struct Moment {
    /// RFC 3339.
    pub rfc3339: String,
    /// Year, month, day, hour, minute and second, as the audit log has it.
    pub stamp: String,
}

/// `chrono::Utc::now` in RFC 3339 form. Nothing is promised of the text: it
/// depends on the clock.
#[verifier::external_body]
pub(crate) fn now_rfc3339() -> (s: String) {
    chrono::Utc::now().to_rfc3339()
}

/// `chrono::Utc::now` under the format of the audit log. Nothing is promised
/// of the text: it depends on the clock.
#[verifier::external_body]
pub(crate) fn now_stamp() -> (s: String) {
    chrono::Utc::now().format("%Y-%m-%d %H:%M:%S").to_string()
}

/// `uuid::Uuid::new_v4` as a number. Nothing is promised of it: it is random.
#[verifier::external_body]
pub(crate) fn fresh_id() -> (id: u128) {
    uuid::Uuid::new_v4().as_u128()
}

/// The present moment.
pub(crate) fn now() -> (m: Moment) {
    Moment { rfc3339: now_rfc3339(), stamp: now_stamp() }
}

} // verus!
