//! The commands on a witness's receipts: recording one by hand and cleaning up.
use vstd::prelude::*;
use vstd::string::*;

use crate::clock::{now, now_stamp, Moment};
use crate::commands::audit::{
    candidates, count_gc_candidates, gc_details, gc_fields, gc_text, receipts_by_stream,
    receipts_of, record_details, records, to_witness_row, witness_gc_report, witness_gc_scope,
    GcScope, WitnessLogRow, WitnessSubmission,
};
use crate::failure::Failure;
use crate::json::{json_object, number_view};
use crate::store::{MemoryStore, StoreState};
use crate::text::{opt_str, views};
use crate::witness::{
    dry_run_counts_all_removals, dry_run_counts_removals, left_over, rows_of, stream_ids,
    WitnessLog,
};

verus! {

// ---------------------------------------------------------------------------
// Recording
// ---------------------------------------------------------------------------

impl WitnessLog {
    /// Puts a row at the end of the log, under a number.
    pub fn witness_log_insert(&mut self, row: WitnessLogRow, id: i64)
        ensures
            final(self).rows@ == old(self).rows@.push((WitnessLogRow { id: Some(id), ..row })),
    {
        self.rows.push(WitnessLogRow { id: Some(id), ..row });
    }
}

/// What recording a submission by hand does to store and log: whatever the log
/// holds, the submission is put at its end.
pub open spec fn hand_recorded(
    before: (StoreState, Seq<WitnessLogRow>),
    after: (StoreState, Seq<WitnessLogRow>),
    sub: WitnessSubmission,
    id: i64,
    received_at: Seq<char>,
    stamp: Seq<char>,
) -> bool {
    &&& after.0 == before.0.logged(
        "audit.witness.record"@,
        Some(sub.stream_id@),
        json_object(
            seq![
                number_view("segment_id"@, sub.segment_id),
                number_view("row_id"@, id as u64),
            ],
        ),
        stamp,
    )
    &&& after.1.len() == before.1.len() + 1
    &&& after.1.drop_last() == before.1
    &&& after.1.last().id == Some(id)
    &&& records((WitnessLogRow { id: None, ..after.1.last() }), sub, received_at)
}

/// Records a submission by hand at the given time, under the number that the
/// log gives it, and prints the row.
pub fn witness_record_at(
    store: &mut MemoryStore,
    log: &mut WitnessLog,
    sub: WitnessSubmission,
    id: i64,
    at: &Moment,
) -> (s: String)
    requires
        old(store)@.wf(),
        old(store)@.can_log(),
        0 <= id,
    ensures
        final(store)@.wf(),
        hand_recorded(
            (old(store)@, old(log).rows@),
            (final(store)@, final(log).rows@),
            sub,
            id,
            at.rfc3339@,
            at.stamp@,
        ),
        s@ == final(log).rows@.last().text(),
{
    let stream = sub.stream_id.clone();
    let details = record_details(sub.segment_id, id as u64);
    let row = to_witness_row(sub, at.rfc3339.as_str());
    log.witness_log_insert(row, id);
    assert(log.rows@.drop_last() =~= old(log).rows@);
    store.log_action_at(
        "audit.witness.record",
        Some(stream.as_str()),
        details.as_str(),
        at.stamp.as_str(),
    );
    log.rows[log.rows.len() - 1].render_text()
}

/// Records a submission by hand now.
pub fn witness_record(
    store: &mut MemoryStore,
    log: &mut WitnessLog,
    sub: WitnessSubmission,
    id: i64,
) -> (s: String)
    requires
        old(store)@.wf(),
        old(store)@.can_log(),
        0 <= id,
    ensures
        final(store)@.wf(),
        exists|received_at: Seq<char>, stamp: Seq<char>|
            #[trigger] hand_recorded(
                (old(store)@, old(log).rows@),
                (final(store)@, final(log).rows@),
                sub,
                id,
                received_at,
                stamp,
            ),
        s@ == final(log).rows@.last().text(),
{
    let at = now();
    witness_record_at(store, log, sub, id, &at)
}

// ---------------------------------------------------------------------------
// Cleaning up
// ---------------------------------------------------------------------------

/// The stream that a clean-up is for; `None` for all of them.
pub open spec fn gc_target(stream: Seq<char>) -> Option<Seq<char>> {
    if stream == "all"@ {
        None
    } else {
        Some(stream)
    }
}

/// How many streams a clean-up looks at.
pub open spec fn gc_scanned(rows: Seq<WitnessLogRow>, stream: Seq<char>) -> nat {
    if stream == "all"@ {
        stream_ids(rows).len()
    } else {
        1
    }
}

/// What a clean-up does to store and log, and says. A dry run says the same and
/// does nothing.
pub open spec fn cleaned(
    before: (StoreState, Seq<WitnessLogRow>),
    after: (StoreState, Seq<WitnessLogRow>),
    r: Result<String, Failure>,
    stream: Seq<char>,
    keep_latest: Option<usize>,
    older_than: Option<Seq<char>>,
    dry_run: bool,
    stamp: Seq<char>,
) -> bool {
    let left = left_over(before.1, gc_target(stream), keep_latest, older_than, 0);
    let count = (before.1.len() - left.len()) as usize;
    match r {
        Ok(s) => {
            &&& keep_latest is Some || older_than is Some
            &&& s@ == gc_text(gc_scanned(before.1, stream) as usize, count, dry_run)
            &&& if dry_run {
                after == before
            } else {
                after.1 == left && after.0 == before.0.logged(
                    "audit.witness.gc"@,
                    gc_target(stream),
                    json_object(gc_fields(count, keep_latest, older_than)),
                    stamp,
                )
            }
        },
        Err(e) => keep_latest is None && older_than is None && after == before && e@
            == "at least one of --keep-latest or --older-than must be specified"@,
    }
}

/// Counts what a clean-up of one stream, or of all of them, would remove.
fn dry_count(
    log: &WitnessLog,
    stream: Option<&str>,
    keep_latest: Option<usize>,
    older_than: Option<&str>,
) -> (count: usize)
    ensures
        count == log.rows@.len() - left_over(
            log.rows@,
            opt_str(stream),
            keep_latest,
            opt_str(older_than),
            0,
        ).len(),
{
    let ghost all = log.rows@;
    let ghost cutoff = opt_str(older_than);
    let ghost gone = all.len() - left_over(all, opt_str(stream), keep_latest, cutoff, 0).len();
    let total: usize = log.rows.len();
    let mut lists: Vec<Vec<&WitnessLogRow>> = Vec::new();
    match stream {
        Some(s) => {
            lists.push(log.witness_log_list(s));
            proof {
                let by = receipts_by_stream(lists@);
                dry_run_counts_removals(all, s@, keep_latest, cutoff);
                assert(by.len() == 1 && by[0] == rows_of(all, s@));
                reveal_with_fuel(candidates, 2);
                assert(candidates(by, keep_latest, cutoff, 1) == gone);
            }
        },
        None => {
            let names = log.witness_log_stream_ids();
            let mut i: usize = 0;
            while i < names.len()
                invariant
                    i <= names@.len(),
                    all == log.rows@,
                    views(names@) == stream_ids(all),
                    lists@.len() == i,
                    forall|k: int|
                        0 <= k < i ==> receipts_of((#[trigger] lists@[k])@) == rows_of(
                            all,
                            stream_ids(all)[k],
                        ),
                decreases names@.len() - i,
            {
                assert(names@[i as int]@ == views(names@)[i as int]);
                lists.push(log.witness_log_list(names[i].as_str()));
                i += 1;
            }
            proof {
                let by = receipts_by_stream(lists@);
                assert(views(names@).len() == names@.len());
                assert forall|k: int| 0 <= k < by.len() implies #[trigger] by[k] == rows_of(
                    all,
                    stream_ids(all)[k],
                ) by {
                    assert(by[k] == receipts_of(lists@[k]@));
                }
                dry_run_counts_all_removals(all, by, keep_latest, cutoff);
                assert(candidates(by, keep_latest, cutoff, lists@.len()) == gone);
            }
        },
    }
    assert(gone <= total);
    match count_gc_candidates(&lists, keep_latest, older_than) {
        Some(n) => n,
        None => 0,
    }
}

/// Cleans up at the given time, or tells what a clean-up would remove.
pub fn witness_gc_at(
    store: &mut MemoryStore,
    log: &mut WitnessLog,
    stream: &str,
    keep_latest: Option<usize>,
    older_than: Option<&str>,
    dry_run: bool,
    stamp: &str,
) -> (r: Result<String, Failure>)
    requires
        old(store)@.wf(),
        old(store)@.can_log(),
    ensures
        final(store)@.wf(),
        cleaned(
            (old(store)@, old(log).rows@),
            (final(store)@, final(log).rows@),
            r,
            stream@,
            keep_latest,
            opt_str(older_than),
            dry_run,
            stamp@,
        ),
{
    let scope = match witness_gc_scope(stream, keep_latest, older_than) {
        Err(e) => {
            return Err(e);
        },
        Ok(scope) => scope,
    };
    let target = match scope {
        GcScope::AllStreams => None,
        GcScope::OneStream => Some(stream),
    };
    let scanned: usize = match scope {
        GcScope::AllStreams => {
            let names = log.witness_log_stream_ids();
            assert(views(names@).len() == names@.len());
            names.len()
        },
        GcScope::OneStream => 1,
    };
    if dry_run {
        let count: usize = dry_count(log, target, keep_latest, older_than);
        return Ok(witness_gc_report(scanned, count, true));
    }
    let count: usize = log.witness_log_gc(target, keep_latest, older_than);
    let details = gc_details(count, keep_latest, older_than);
    store.log_action_at("audit.witness.gc", target, details.as_str(), stamp);
    Ok(witness_gc_report(scanned, count, false))
}

/// Cleans up now, or tells what a clean-up would remove.
pub fn witness_gc(
    store: &mut MemoryStore,
    log: &mut WitnessLog,
    stream: &str,
    keep_latest: Option<usize>,
    older_than: Option<&str>,
    dry_run: bool,
) -> (r: Result<String, Failure>)
    requires
        old(store)@.wf(),
        old(store)@.can_log(),
    ensures
        final(store)@.wf(),
        exists|stamp: Seq<char>|
            #[trigger] cleaned(
                (old(store)@, old(log).rows@),
                (final(store)@, final(log).rows@),
                r,
                stream@,
                keep_latest,
                opt_str(older_than),
                dry_run,
                stamp,
            ),
{
    let stamp = now_stamp();
    witness_gc_at(store, log, stream, keep_latest, older_than, dry_run, stamp.as_str())
}

} // verus!
