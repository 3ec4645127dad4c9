//! Attestation around a quote: the nonce, the checkpoint that goes with it, the
//! approvals behind the signing key, and the verdict.
use vstd::prelude::*;
use vstd::utf8::*;

use crate::commands::attest::{
    approval_logged, approved_in, approves, default_nonce_byte, quote_checkpoint, quote_nonce,
    signing_approval_policy, signing_approval_provenance, verify_complaint, verify_nonce,
    AgentProvenance, ApprovalProvenance, AuthorizedPolicy, LoggedEvent, MeasurementCheckpoint,
};
use crate::commands::audit::SegmentInfo;
use crate::failure::Failure;
use crate::hex::{hex_round_trip, hex_text, hex_to_bytes, HexError};
use crate::json::json_bytes_string;
use crate::model::{QuoteData, QuoteVerification};
use crate::store::MemoryStore;

verus! {

/// The nonce that a verifier gives is, as bytes, what goes into the quote and
/// what the quote is verified against. Where the verifier gives none, the quote
/// is held against its own.
pub proof fn given_nonce_is_verified(
    nonce: &str,
    q: &QuoteData,
    quoted: Vec<u8>,
    expected: Vec<u8>,
    own: Vec<u8>,
)
    requires
        call_ensures(quote_nonce, (Some(nonce),), quoted),
        call_ensures(verify_nonce, (Some(nonce), q), expected),
        call_ensures(verify_nonce, (None::<&str>, q), own),
    ensures
        quoted@ == expected@,
        valid_utf8(quoted@) && decode_utf8(quoted@) == nonce@,
        own@ == q.nonce@,
{
    encode_utf8_valid_utf8(nonce@);
    encode_utf8_decode_utf8(nonce@);
}

/// Two nonces that differ go into quotes as different bytes.
pub proof fn nonces_are_told_apart(a: &str, b: &str, x: Vec<u8>, y: Vec<u8>)
    requires
        call_ensures(quote_nonce, (Some(a),), x),
        call_ensures(quote_nonce, (Some(b),), y),
    ensures
        a@ != b@ ==> x@ != y@,
{
    encode_utf8_decode_utf8(a@);
    encode_utf8_decode_utf8(b@);
}

proof fn nonce_steps(i: int)
    requires
        0 <= i < 31,
    ensures
        default_nonce_byte(i + 1) as int == (default_nonce_byte(i) + 55) % 256,
{
    let a = i * 0x37 + 0xAB;
    assert((i + 1) * 0x37 + 0xAB == a + 55);
    vstd::arithmetic::div_mod::lemma_add_mod_noop(a, 55, 256);
}

/// The nonce that is used where none is given has thirty-two bytes, each
/// fifty-five more than the one before it, the first 171.
pub proof fn default_nonce_is_a_pattern(r: Vec<u8>)
    requires
        call_ensures(quote_nonce, (None::<&str>,), r),
    ensures
        r@.len() == 32,
        r@[0] == 171,
        forall|i: int| 0 <= i < 31 ==> r@[i + 1] as int == (#[trigger] r@[i] + 55) % 256,
{
    assert forall|i: int| 0 <= i < 31 implies r@[i + 1] as int == (#[trigger] r@[i] + 55) % 256 by {
        nonce_steps(i);
        assert(r@[i] == default_nonce_byte(i) && r@[i + 1] == default_nonce_byte(i + 1));
    }
    assert(r@[0] == default_nonce_byte(0));
}

/// The checkpoint that goes with a quote is the signed segment: its root and its
/// signature read back from the text, and its range is the segment's.
pub proof fn checkpoint_carries_the_segment(
    stream: &str,
    segment: &SegmentInfo,
    agent: Option<AgentProvenance>,
    approval: Option<ApprovalProvenance>,
    r: Result<MeasurementCheckpoint, Failure>,
    none: Result<MeasurementCheckpoint, Failure>,
    c: MeasurementCheckpoint,
    root: &str,
    signature: &str,
    root_bytes: Result<Vec<u8>, HexError>,
    signature_bytes: Result<Vec<u8>, HexError>,
)
    requires
        call_ensures(quote_checkpoint, (stream, Some(segment), agent, approval), r),
        call_ensures(quote_checkpoint, (stream, None::<&SegmentInfo>, agent, approval), none),
        r == Ok::<MeasurementCheckpoint, Failure>(c),
        root@ == c.merkle_root@,
        signature@ == c.signature@,
        call_ensures(hex_to_bytes, (root,), root_bytes),
        call_ensures(hex_to_bytes, (signature,), signature_bytes),
    ensures
        none is Err,
        root_bytes matches Ok(b) && b@ == segment.merkle_root@,
        signature_bytes matches Ok(b) && b@ == segment.signature@,
        c.segment_id == segment.segment_id && c.seq_start == segment.seq_start && c.seq_end
            == segment.seq_end && c.stream@ == stream@,
        c.agent == agent && c.approval == approval,
{
    hex_round_trip(segment.merkle_root@);
    hex_round_trip(segment.signature@);
}

/// With a signed segment a quote always gets its checkpoint.
pub proof fn signed_segment_makes_a_checkpoint(
    stream: &str,
    segment: Option<&SegmentInfo>,
    agent: Option<AgentProvenance>,
    approval: Option<ApprovalProvenance>,
    r: Result<MeasurementCheckpoint, Failure>,
)
    requires
        call_ensures(quote_checkpoint, (stream, segment, agent, approval), r),
    ensures
        r is Ok <==> segment is Some,
{
}

/// An approval that was logged stays: entries that come after take nothing
/// back. Without an entry nothing is approved, and what is approved is what an
/// entry of that kind names.
pub proof fn approvals_stay(
    rows: &Vec<LoggedEvent>,
    more: &Vec<LoggedEvent>,
    want: &str,
    before: bool,
    after: bool,
)
    requires
        rows@.len() <= more@.len(),
        forall|i: int| 0 <= i < rows@.len() ==> more@[i] == #[trigger] rows@[i],
        call_ensures(approval_logged, (rows, want), before),
        call_ensures(approval_logged, (more, want), after),
    ensures
        before ==> after,
        rows@.len() == 0 ==> !before,
        forall|i: int|
            0 <= i < rows@.len() && (#[trigger] rows@[i]).event_type@ == "policy.approve"@
                && json_bytes_string(rows@[i].payload@, "approved_policy"@) == Some(want@)
                ==> before,
        before ==> exists|i: int|
            0 <= i < rows@.len() && (#[trigger] rows@[i]).event_type@ == "policy.approve"@
                && json_bytes_string(rows@[i].payload@, "approved_policy"@) == Some(want@),
{
    assert(before == approved_in(rows@, want@) && after == approved_in(more@, want@));
    if before {
        let i = choose|i: int|
            0 <= i < rows@.len() && #[trigger] approves(rows@[i], want@);
        assert(more@[i] == rows@[i]);
        assert(approves(more@[i], want@));
        assert(rows@[i].event_type@ == "policy.approve"@);
    }
    assert forall|i: int|
        0 <= i < rows@.len() && (#[trigger] rows@[i]).event_type@ == "policy.approve"@
            && json_bytes_string(rows@[i].payload@, "approved_policy"@) == Some(
            want@,
        ) implies before by {
        assert(approves(rows@[i], want@));
    }
}

/// The provenance of a signing key is its policy's authority, bank and
/// registers, and says that the live state is approved just where the log says
/// so of that state's digest. A key without a policy has none.
pub proof fn provenance_is_what_was_logged(
    policy: Option<AuthorizedPolicy>,
    live_policy: &[u8],
    rows: &Vec<LoggedEvent>,
    want: &str,
    logged: bool,
    r: Option<ApprovalProvenance>,
)
    requires
        want@ == hex_text(live_policy@),
        call_ensures(approval_logged, (rows, want), logged),
        call_ensures(signing_approval_provenance, (policy, live_policy, rows), r),
    ensures
        r is Some <==> policy is Some,
        policy matches Some(p) ==> (r matches Some(a) && a.logged_approved == logged && a.authority@
            == p.authority@ && a.bank@ == p.bank@ && a.indices@ == p.indices@),
{
}

/// A segment that nobody signed has no policy behind it.
pub proof fn unsigned_segment_has_no_policy(store: &MemoryStore, r: Option<AuthorizedPolicy>)
    requires
        call_ensures(signing_approval_policy, (store, None::<&str>), r),
    ensures
        r is None,
{
}

/// Something is said besides the verdict just where a quote does not verify.
pub proof fn only_failures_are_explained(v: &QuoteVerification, s: String)
    requires
        call_ensures(verify_complaint, (v,), s),
    ensures
        s@.len() == 0 <==> v.verified,
{
    reveal_strlit("\n");
    if !v.verified {
        assert(s@[0] == '\n');
    }
}

} // verus!
