//! The witness: what it remembers of a submission and what it answers to the
//! next one.
use vstd::prelude::*;

use crate::commands::audit::{
    count_gc_candidates, receipts_by_stream, witness_gc_scope, GcScope, WitnessLogRow,
    WitnessSubmission,
};
use crate::failure::Failure;
use crate::text::{opt_str, views};
use crate::witness::{
    dry_run_counts_all_removals, latest_row, rows_of, stream_ids, Verdict, WitnessLog,
};

verus! {

/// A submission is judged by the latest receipt of its stream: without one it is
/// recorded; so it is for a later segment; an earlier segment is stale; and for
/// the same segment the checkpoint has to be the same.
pub proof fn latest_receipt_judges(
    log: &mut WitnessLog,
    sub: WitnessSubmission,
    received_at: &str,
    stream: &str,
    before: Option<&WitnessLogRow>,
    v: Verdict,
)
    requires
        stream@ == sub.stream_id@,
        call_ensures(WitnessLog::witness_log_latest, (&*old(log), stream), before),
        call_ensures(WitnessLog::receive, (log, sub, received_at), v),
    ensures
        before is None ==> v == Verdict::Recorded,
        before matches Some(b) ==> {
            &&& v == Verdict::Stale <==> sub.segment_id < b.segment_id
            &&& v == Verdict::Recorded <==> sub.segment_id > b.segment_id
            &&& v == Verdict::Repeated <==> sub.segment_id == b.segment_id
                && sub.checkpoint_hash_hex@ == b.checkpoint_hash_hex@
            &&& v == Verdict::Equivocation <==> sub.segment_id == b.segment_id
                && sub.checkpoint_hash_hex@ != b.checkpoint_hash_hex@
        },
        v != Verdict::Recorded ==> final(log).rows@ == old(log).rows@,
        v == Verdict::Recorded ==> final(log).rows@.len() == old(log).rows@.len() + 1,
{
}

/// What was recorded is what is found as the latest of its stream, with all that
/// was submitted and the time at which it came; what was there before stays.
pub proof fn recorded_submission_is_the_latest(
    log: &mut WitnessLog,
    sub: WitnessSubmission,
    received_at: &str,
    stream: &str,
    v: Verdict,
    after: Option<&WitnessLogRow>,
)
    requires
        stream@ == sub.stream_id@,
        call_ensures(WitnessLog::receive, (log, sub, received_at), v),
        v == Verdict::Recorded,
        call_ensures(WitnessLog::witness_log_latest, (&*final(log), stream), after),
    ensures
        after matches Some(row) && row.stream_id@ == sub.stream_id@ && row.segment_id
            == sub.segment_id && row.seq_start == sub.seq_start && row.seq_end == sub.seq_end
            && row.checkpoint_hash_hex@ == sub.checkpoint_hash_hex@ && row.signature_hex@
            == sub.signature_hex@ && row.signer_identity@ == sub.signer_identity@
            && row.received_at@ == received_at@,
        final(log).rows@.drop_last() == old(log).rows@,
{
}

/// Streams do not meddle: a submission for one stream leaves the latest receipt
/// of every other as it was.
pub proof fn other_streams_stay(
    log: &mut WitnessLog,
    sub: WitnessSubmission,
    received_at: &str,
    other: &str,
    v: Verdict,
    before: Option<&WitnessLogRow>,
    after: Option<&WitnessLogRow>,
)
    requires
        other@ != sub.stream_id@,
        call_ensures(WitnessLog::witness_log_latest, (&*old(log), other), before),
        call_ensures(WitnessLog::receive, (log, sub, received_at), v),
        call_ensures(WitnessLog::witness_log_latest, (&*final(log), other), after),
    ensures
        before is Some <==> after is Some,
        before is Some ==> *before->0 == *after->0,
{
    if v == Verdict::Recorded {
        assert(latest_row(final(log).rows@, other@) == latest_row(
            final(log).rows@.drop_last(),
            other@,
        ));
    }
}

/// A clean-up without a limit is refused, and only the word for all streams
/// means all of them.
pub proof fn cleaning_needs_a_limit(
    stream: &str,
    keep_latest: Option<usize>,
    older_than: Option<&str>,
    r: Result<GcScope, Failure>,
)
    requires
        call_ensures(witness_gc_scope, (stream, keep_latest, older_than), r),
    ensures
        r is Err <==> keep_latest is None && older_than is None,
        r matches Ok(scope) ==> (stream@ == "all"@ <==> scope == GcScope::AllStreams),
        r matches Ok(scope) ==> (stream@ != "all"@ <==> scope == GcScope::OneStream),
{
}

/// A dry run over every stream of a log says how many receipts the clean-up of
/// all then forgets.
pub proof fn dry_run_tells_what_goes(
    log: &mut WitnessLog,
    names: Vec<String>,
    streams: &Vec<Vec<&WitnessLogRow>>,
    keep_latest: Option<usize>,
    older_than: Option<&str>,
    told: Option<usize>,
    gone: usize,
)
    requires
        call_ensures(WitnessLog::witness_log_stream_ids, (&*old(log),), names),
        streams@.len() == names@.len(),
        forall|i: int|
            0 <= i < streams@.len() ==> (#[trigger] receipts_by_stream(streams@)[i]) == rows_of(
                old(log).rows@,
                names@[i]@,
            ),
        call_ensures(count_gc_candidates, (streams, keep_latest, older_than), told),
        call_ensures(WitnessLog::witness_log_gc, (log, None::<&str>, keep_latest, older_than), gone),
    ensures
        told == Some(gone),
{
    let rows = old(log).rows@;
    let all = receipts_by_stream(streams@);
    assert(views(names@).len() == names@.len());
    assert forall|i: int| 0 <= i < all.len() implies (#[trigger] all[i]) == rows_of(
        rows,
        stream_ids(rows)[i],
    ) by {
        assert(views(names@)[i] == names@[i]@);
    }
    dry_run_counts_all_removals(rows, all, keep_latest, opt_str(older_than));
}

} // verus!
