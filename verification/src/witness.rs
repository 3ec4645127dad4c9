//! The witness: it remembers which checkpoint it has seen for each segment of a
//! stream, and refuses another one.
use vstd::prelude::*;
use vstd::string::*;

use crate::commands::audit::{
    candidates, forgettable, forgettable_count, may_forget, receipts_of, records, to_witness_row,
    WitnessLogRow, WitnessSubmission,
};
use crate::text::{opt_str, same, views};

verus! {

/// What becomes of a submission.
#[derive(Debug, Clone, Copy, PartialEq, Eq, Structural)]
pub enum Verdict {
    /// The witness has seen a later segment.
    Stale,
    /// The witness has seen another checkpoint for this segment.
    Equivocation,
    /// The witness has seen this checkpoint.
    Repeated,
    /// It is new, and is recorded.
    Recorded,
}

/// What is known of a receipt.
pub ghost struct ReceiptView {
    pub stream_id: Seq<char>,
    pub segment_id: u64,
    pub checkpoint: Seq<char>,
}

/// What is known of a row of the log.
pub open spec fn receipt(row: WitnessLogRow) -> ReceiptView {
    ReceiptView {
        stream_id: row.stream_id@,
        segment_id: row.segment_id,
        checkpoint: row.checkpoint_hash_hex@,
    }
}

/// What is known of a submission.
pub open spec fn submitted(sub: WitnessSubmission) -> ReceiptView {
    ReceiptView {
        stream_id: sub.stream_id@,
        segment_id: sub.segment_id,
        checkpoint: sub.checkpoint_hash_hex@,
    }
}

/// What becomes of a submission, given the latest receipt for its stream.
pub open spec fn verdict(latest: Option<ReceiptView>, sub: ReceiptView) -> Verdict {
    match latest {
        None => Verdict::Recorded,
        Some(prev) => if prev.segment_id > sub.segment_id {
            Verdict::Stale
        } else if prev.segment_id < sub.segment_id {
            Verdict::Recorded
        } else if prev.checkpoint != sub.checkpoint {
            Verdict::Equivocation
        } else {
            Verdict::Repeated
        },
    }
}

/// Decides what becomes of a submission.
pub fn judge(latest: Option<&WitnessLogRow>, sub: &WitnessSubmission) -> (v: Verdict)
    ensures
        v == verdict(
            match latest {
                Some(row) => Some(receipt(*row)),
                None => None,
            },
            submitted(*sub),
        ),
{
    match latest {
        None => Verdict::Recorded,
        Some(prev) => {
            if prev.segment_id > sub.segment_id {
                return Verdict::Stale;
            }
            if prev.segment_id == sub.segment_id {
                if !same(prev.checkpoint_hash_hex.as_str(), sub.checkpoint_hash_hex.as_str()) {
                    return Verdict::Equivocation;
                }
                return Verdict::Repeated;
            }
            Verdict::Recorded
        },
    }
}

/// The latest receipt for a stream.
pub open spec fn latest(log: Seq<ReceiptView>, stream_id: Seq<char>) -> Option<ReceiptView>
    decreases log.len(),
{
    if log.len() == 0 {
        None
    } else if log.last().stream_id == stream_id {
        Some(log.last())
    } else {
        latest(log.drop_last(), stream_id)
    }
}

/// The receipts of a log.
pub open spec fn receipts(rows: Seq<WitnessLogRow>) -> Seq<ReceiptView> {
    Seq::new(rows.len(), |i: int| receipt(rows[i]))
}

/// The latest row for a stream.
pub open spec fn latest_row(rows: Seq<WitnessLogRow>, stream_id: Seq<char>) -> Option<WitnessLogRow>
    decreases rows.len(),
{
    if rows.len() == 0 {
        None
    } else if rows.last().stream_id@ == stream_id {
        Some(rows.last())
    } else {
        latest_row(rows.drop_last(), stream_id)
    }
}

/// The rows for a stream, in the order in which they came.
pub open spec fn rows_of(rows: Seq<WitnessLogRow>, stream_id: Seq<char>) -> Seq<WitnessLogRow>
    decreases rows.len(),
{
    if rows.len() == 0 {
        Seq::empty()
    } else if rows.last().stream_id@ == stream_id {
        rows_of(rows.drop_last(), stream_id).push(rows.last())
    } else {
        rows_of(rows.drop_last(), stream_id)
    }
}

/// The latest row holds the latest receipt.
pub proof fn latest_row_is_latest(rows: Seq<WitnessLogRow>, stream_id: Seq<char>)
    ensures
        latest(receipts(rows), stream_id) == (match latest_row(rows, stream_id) {
            Some(row) => Some(receipt(row)),
            None => None,
        }),
    decreases rows.len(),
{
    if rows.len() > 0 {
        assert(receipts(rows).drop_last() =~= receipts(rows.drop_last()));
        latest_row_is_latest(rows.drop_last(), stream_id);
    }
}

/// The log after a submission.
pub open spec fn received(log: Seq<ReceiptView>, sub: ReceiptView) -> Seq<ReceiptView> {
    if verdict(latest(log, sub.stream_id), sub) == Verdict::Recorded {
        log.push(sub)
    } else {
        log
    }
}

/// Of any two receipts for one stream, the later one is for a later segment.
pub open spec fn advancing(log: Seq<ReceiptView>) -> bool {
    forall|i: int, j: int|
        #![trigger log[i], log[j]]
        0 <= i < j < log.len() && log[i].stream_id == log[j].stream_id ==> log[i].segment_id
            < log[j].segment_id
}

/// The receipts of a witness.
#[derive(Debug)]
pub struct WitnessLog {
    pub rows: Vec<WitnessLogRow>,
}

impl View for WitnessLog {
    type V = Seq<ReceiptView>;

    open spec fn view(&self) -> Seq<ReceiptView> {
        receipts(self.rows@)
    }
}

impl WitnessLog {
    /// A witness that has seen nothing.
    pub fn new() -> (log: WitnessLog)
        ensures
            log@ == Seq::<ReceiptView>::empty(),
            log.rows@.len() == 0,
    {
        let log = WitnessLog { rows: Vec::new() };
        assert(log@ =~= Seq::<ReceiptView>::empty());
        log
    }

    /// The latest receipt for a stream.
    pub fn witness_log_latest(&self, stream_id: &str) -> (r: Option<&WitnessLogRow>)
        ensures
            latest_row(self.rows@, stream_id@) == (match r {
                Some(row) => Some(*row),
                None => None,
            }),
            latest(self@, stream_id@) == (match r {
                Some(row) => Some(receipt(*row)),
                None => None,
            }),
    {
        let ghost all = self.rows@;
        proof {
            latest_row_is_latest(all, stream_id@);
        }
        let mut n: usize = self.rows.len();
        assert(all.take(n as int) =~= all);
        while n > 0
            invariant
                n <= self.rows@.len(),
                all == self.rows@,
                latest_row(all.take(n as int), stream_id@) == latest_row(all, stream_id@),
                latest(self@, stream_id@) == (match latest_row(all, stream_id@) {
                    Some(row) => Some(receipt(row)),
                    None => None,
                }),
            decreases n,
        {
            let row = &self.rows[n - 1];
            assert(all.take(n as int).drop_last() =~= all.take(n - 1));
            if same(row.stream_id.as_str(), stream_id) {
                return Some(row);
            }
            n -= 1;
        }
        None
    }

    /// The receipts for a stream, in the order in which they came.
    pub fn witness_log_list(&self, stream_id: &str) -> (r: Vec<&WitnessLogRow>)
        ensures
            receipts_of(r@) == rows_of(self.rows@, stream_id@),
    {
        let ghost all = self.rows@;
        let mut r: Vec<&WitnessLogRow> = Vec::new();
        let mut n: usize = 0;
        assert(receipts_of(r@) =~= rows_of(all.take(0), stream_id@));
        while n < self.rows.len()
            invariant
                n <= self.rows@.len(),
                all == self.rows@,
                receipts_of(r@) == rows_of(
                    all.take(n as int),
                    stream_id@,
                ),
            decreases self.rows@.len() - n,
        {
            let row = &self.rows[n];
            let ghost before = receipts_of(r@);
            assert(all.take(n + 1).drop_last() =~= all.take(n as int));
            if same(row.stream_id.as_str(), stream_id) {
                r.push(row);
                assert(receipts_of(r@) =~= before.push(*row));
            }
            n += 1;
        }
        assert(all.take(n as int) =~= all);
        r
    }

    /// Receives a submission at the given time.
    pub fn receive(&mut self, sub: WitnessSubmission, received_at: &str) -> (v: Verdict)
        ensures
            v == verdict(latest(old(self)@, sub.stream_id@), submitted(sub)),
            final(self)@ == received(old(self)@, submitted(sub)),
            match v {
                Verdict::Recorded => final(self).rows@.len() == old(self).rows@.len() + 1
                    && final(self).rows@.drop_last() == old(self).rows@ && records(
                    final(self).rows@.last(),
                    sub,
                    received_at@,
                ),
                _ => final(self).rows@ == old(self).rows@,
            },
    {
        let v = {
            let prev = self.witness_log_latest(sub.stream_id.as_str());
            judge(prev, &sub)
        };
        match v {
            Verdict::Recorded => {
                let ghost was = self@;
                let row = to_witness_row(sub, received_at);
                self.rows.push(row);
                assert(self.rows@.drop_last() =~= old(self).rows@);
                assert(self@ =~= was.push(submitted(sub)));
            },
            _ => {},
        }
        v
    }
}

/// The latest receipt for a stream stands in the log, and is for a segment no
/// earlier than any other.
proof fn latest_is_last(log: Seq<ReceiptView>, stream_id: Seq<char>)
    requires
        advancing(log),
    ensures
        match latest(log, stream_id) {
            Some(r) => r.stream_id == stream_id && log.contains(r) && forall|i: int|
                0 <= i < log.len() && (#[trigger] log[i]).stream_id == stream_id
                    ==> log[i].segment_id <= r.segment_id,
            None => forall|i: int|
                0 <= i < log.len() ==> (#[trigger] log[i]).stream_id != stream_id,
        },
    decreases log.len(),
{
    if log.len() > 0 {
        let rest = log.drop_last();
        let n = log.len() - 1;
        assert(log[n] == log.last());
        if log.last().stream_id == stream_id {
            assert forall|i: int| 0 <= i < log.len() && (#[trigger] log[i]).stream_id
                == stream_id implies log[i].segment_id <= log.last().segment_id by {
                if i < n {
                    assert(log[i].segment_id < log[n].segment_id);
                }
            }
        } else {
            assert(advancing(rest)) by {
                assert forall|i: int, j: int|
                    #![trigger rest[i], rest[j]]
                    0 <= i < j < rest.len() && rest[i].stream_id == rest[j].stream_id implies rest[
                i].segment_id < rest[j].segment_id by {
                    assert(rest[i] == log[i] && rest[j] == log[j]);
                }
            }
            latest_is_last(rest, stream_id);
            assert forall|i: int| 0 <= i < n implies rest[i] == #[trigger] log[i] by {}
            match latest(rest, stream_id) {
                Some(r) => {
                    let k = choose|k: int| 0 <= k < rest.len() && rest[k] == r;
                    assert(log[k] == r);
                },
                None => {},
            }
        }
    }
}

/// Receiving keeps the receipts of every stream advancing.
pub proof fn receiving_keeps_advancing(log: Seq<ReceiptView>, sub: ReceiptView)
    requires
        advancing(log),
    ensures
        advancing(received(log, sub)),
{
    latest_is_last(log, sub.stream_id);
    let after = received(log, sub);
    assert forall|i: int, j: int|
        #![trigger after[i], after[j]]
        0 <= i < j < after.len() && after[i].stream_id == after[j].stream_id implies after[
    i].segment_id < after[j].segment_id by {
        if j < log.len() {
            assert(after[i] == log[i] && after[j] == log[j]);
        } else {
            assert(after[i] == log[i]);
            assert(log[i].stream_id == sub.stream_id);
        }
    }
}

/// A witness that has only ever received never holds two different checkpoints
/// for one segment of a stream.
pub proof fn witness_never_equivocates(log: Seq<ReceiptView>, i: int, j: int)
    requires
        advancing(log),
        0 <= i < log.len(),
        0 <= j < log.len(),
        log[i].stream_id == log[j].stream_id,
        log[i].segment_id == log[j].segment_id,
    ensures
        log[i].checkpoint == log[j].checkpoint,
{
    if i < j {
        assert(log[i].segment_id < log[j].segment_id);
    } else if j < i {
        assert(log[j].segment_id < log[i].segment_id);
    }
}

/// What was recorded is the latest of its stream; sent again it is recognised,
/// and with another checkpoint it is refused, without a trace in the log.
pub proof fn second_submission_is_recognised(
    log: Seq<ReceiptView>,
    sub: ReceiptView,
    other: Seq<char>,
)
    requires
        verdict(latest(log, sub.stream_id), sub) == Verdict::Recorded,
        other != sub.checkpoint,
    ensures
        ({
            let after = received(log, sub);
            let changed = ReceiptView { checkpoint: other, ..sub };
            &&& latest(after, sub.stream_id) == Some(sub)
            &&& verdict(latest(after, sub.stream_id), sub) == Verdict::Repeated
            &&& received(after, sub) == after
            &&& verdict(latest(after, sub.stream_id), changed) == Verdict::Equivocation
            &&& received(after, changed) == after
        }),
{
    assert(log.push(sub).last() == sub);
}

// ---------------------------------------------------------------------------
// Cleaning up
// ---------------------------------------------------------------------------

/// The streams of a log, each where it first comes.
pub open spec fn stream_ids(rows: Seq<WitnessLogRow>) -> Seq<Seq<char>>
    decreases rows.len(),
{
    if rows.len() == 0 {
        Seq::empty()
    } else {
        let before = stream_ids(rows.drop_last());
        if before.contains(rows.last().stream_id@) {
            before
        } else {
            before.push(rows.last().stream_id@)
        }
    }
}

/// A clean-up of one stream, or of all of them, removes this row.
pub open spec fn removed(
    rows: Seq<WitnessLogRow>,
    stream: Option<Seq<char>>,
    keep_latest: Option<usize>,
    older_than: Option<Seq<char>>,
    row: WitnessLogRow,
) -> bool {
    (stream matches Some(s) ==> row.stream_id@ == s) && forgettable(
        rows_of(rows, row.stream_id@),
        keep_latest,
        older_than,
        row,
    )
}

/// The rows from `from` on that a clean-up leaves.
pub open spec fn left_over(
    rows: Seq<WitnessLogRow>,
    stream: Option<Seq<char>>,
    keep_latest: Option<usize>,
    older_than: Option<Seq<char>>,
    from: int,
) -> Seq<WitnessLogRow>
    decreases rows.len() - from,
{
    if from >= rows.len() {
        Seq::empty()
    } else {
        let rest = left_over(rows, stream, keep_latest, older_than, from + 1);
        if removed(rows, stream, keep_latest, older_than, rows[from]) {
            rest
        } else {
            seq![rows[from]] + rest
        }
    }
}

impl WitnessLog {
    /// The streams of the log.
    pub fn witness_log_stream_ids(&self) -> (r: Vec<String>)
        ensures
            views(r@) == stream_ids(self.rows@),
    {
        let ghost all = self.rows@;
        let mut r: Vec<String> = Vec::new();
        let mut n: usize = 0;
        assert(views(r@) =~= stream_ids(all.take(0)));
        while n < self.rows.len()
            invariant
                n <= self.rows@.len(),
                all == self.rows@,
                views(r@) == stream_ids(all.take(n as int)),
            decreases self.rows@.len() - n,
        {
            let name = self.rows[n].stream_id.as_str();
            assert(all.take(n + 1).drop_last() =~= all.take(n as int));
            let ghost before = views(r@);
            let mut found = false;
            let mut k: usize = 0;
            while k < r.len()
                invariant
                    k <= r@.len(),
                    found == exists|i: int| 0 <= i < k && (#[trigger] r@[i])@ == name@,
                decreases r@.len() - k,
            {
                if same(r[k].as_str(), name) {
                    found = true;
                }
                k += 1;
            }
            assert(found == before.contains(name@)) by {
                if found {
                    let i = choose|i: int| 0 <= i < r@.len() && (#[trigger] r@[i])@ == name@;
                    assert(before[i] == name@);
                }
                if before.contains(name@) {
                    let i = choose|i: int| 0 <= i < before.len() && before[i] == name@;
                    assert(r@[i]@ == name@);
                }
            }
            if !found {
                r.push(name.to_owned());
                assert(views(r@) =~= before.push(name@));
            }
            n += 1;
        }
        assert(all.take(n as int) =~= all);
        r
    }

    /// Forgets receipts of one stream, or of all of them, and tells how many.
    pub fn witness_log_gc(
        &mut self,
        stream: Option<&str>,
        keep_latest: Option<usize>,
        older_than: Option<&str>,
    ) -> (count: usize)
        ensures
            final(self).rows@ == left_over(
                old(self).rows@,
                opt_str(stream),
                keep_latest,
                opt_str(older_than),
                0,
            ),
            count == old(self).rows@.len() - final(self).rows@.len(),
    {
        let ghost all = self.rows@;
        let ghost scope = opt_str(stream);
        let ghost cutoff = opt_str(older_than);
        let total: usize = self.rows.len();
        let mut doomed: Vec<bool> = Vec::new();
        let mut i: usize = 0;
        while i < total
            invariant
                i <= total == self.rows@.len(),
                all == self.rows@,
                scope == opt_str(stream),
                cutoff == opt_str(older_than),
                doomed@.len() == i,
                forall|k: int|
                    0 <= k < i ==> #[trigger] doomed@[k] == removed(
                        all,
                        scope,
                        keep_latest,
                        cutoff,
                        all[k],
                    ),
            decreases total - i,
        {
            let row = &self.rows[i];
            let asked = match stream {
                Some(s) => same(row.stream_id.as_str(), s),
                None => true,
            };
            let gone = if asked {
                let list = self.witness_log_list(row.stream_id.as_str());
                may_forget(&list, keep_latest, older_than, row)
            } else {
                false
            };
            doomed.push(gone);
            i += 1;
        }
        let mut count: usize = 0;
        let mut n: usize = total;
        assert(all.take(n as int) + left_over(all, scope, keep_latest, cutoff, n as int) =~= all);
        while n > 0
            invariant
                n <= total == all.len(),
                doomed@.len() == total,
                forall|k: int|
                    0 <= k < total ==> #[trigger] doomed@[k] == removed(
                        all,
                        scope,
                        keep_latest,
                        cutoff,
                        all[k],
                    ),
                self.rows@ == all.take(n as int) + left_over(
                    all,
                    scope,
                    keep_latest,
                    cutoff,
                    n as int,
                ),
                count == total - self.rows@.len(),
                count <= total - n,
            decreases n,
        {
            let ghost rest = left_over(all, scope, keep_latest, cutoff, n as int);
            let ghost next = left_over(all, scope, keep_latest, cutoff, n - 1);
            if doomed[n - 1] {
                self.rows.remove(n - 1);
                count += 1;
            }
            n -= 1;
            assert(self.rows@ =~= all.take(n as int) + next);
        }
        count
    }
}

/// How many of the first `n` rows a clean-up removes.
spec fn removals(
    rows: Seq<WitnessLogRow>,
    stream: Option<Seq<char>>,
    keep_latest: Option<usize>,
    older_than: Option<Seq<char>>,
    n: nat,
) -> nat
    decreases n,
{
    if n == 0 {
        0
    } else {
        removals(rows, stream, keep_latest, older_than, (n - 1) as nat) + (if removed(
            rows,
            stream,
            keep_latest,
            older_than,
            rows[n - 1],
        ) {
            1nat
        } else {
            0
        })
    }
}

/// What is not removed is left.
proof fn left_and_removed(
    rows: Seq<WitnessLogRow>,
    stream: Option<Seq<char>>,
    keep_latest: Option<usize>,
    older_than: Option<Seq<char>>,
    from: nat,
)
    requires
        from <= rows.len(),
    ensures
        left_over(rows, stream, keep_latest, older_than, from as int).len() + removals(
            rows,
            stream,
            keep_latest,
            older_than,
            rows.len(),
        ) == rows.len() - from + removals(rows, stream, keep_latest, older_than, from),
    decreases rows.len() - from,
{
    if from < rows.len() {
        left_and_removed(rows, stream, keep_latest, older_than, from + 1);
    }
}

/// The rows for a stream in the first `n` rows come first among its rows.
proof fn rows_grow(rows: Seq<WitnessLogRow>, stream_id: Seq<char>, n: nat, m: nat)
    requires
        n <= m <= rows.len(),
    ensures
        rows_of(rows.take(n as int), stream_id).is_prefix_of(
            rows_of(rows.take(m as int), stream_id),
        ),
    decreases m - n,
{
    if n < m {
        rows_grow(rows, stream_id, n, (m - 1) as nat);
        assert(rows.take(m as int).drop_last() =~= rows.take(m - 1));
    }
}

/// The removals in one stream are its forgettable rows.
proof fn removals_in_stream(
    rows: Seq<WitnessLogRow>,
    stream_id: Seq<char>,
    keep_latest: Option<usize>,
    older_than: Option<Seq<char>>,
    n: nat,
)
    requires
        n <= rows.len(),
    ensures
        removals(rows, Some(stream_id), keep_latest, older_than, n) == forgettable_count(
            rows_of(rows, stream_id),
            keep_latest,
            older_than,
            rows_of(rows.take(n as int), stream_id).len(),
        ),
    decreases n,
{
    if n > 0 {
        removals_in_stream(rows, stream_id, keep_latest, older_than, (n - 1) as nat);
        let row = rows[n - 1];
        assert(rows.take(n as int).drop_last() =~= rows.take(n - 1));
        assert(rows.take(n as int).last() == row);
        if row.stream_id@ == stream_id {
            rows_grow(rows, stream_id, n, rows.len());
            assert(rows.take(rows.len() as int) =~= rows);
            let at = rows_of(rows.take(n - 1), stream_id).len();
            assert(rows_of(rows.take(n as int), stream_id)[at as int] == row);
            assert(rows_of(rows, stream_id)[at as int] == row);
        }
    }
}

/// How many of the first `n` rows are for one of the named streams and go.
spec fn removals_among(
    rows: Seq<WitnessLogRow>,
    names: Seq<Seq<char>>,
    keep_latest: Option<usize>,
    older_than: Option<Seq<char>>,
    n: nat,
) -> nat
    decreases n,
{
    if n == 0 {
        0
    } else {
        removals_among(rows, names, keep_latest, older_than, (n - 1) as nat) + (if names.contains(
            rows[n - 1].stream_id@,
        ) && removed(rows, None, keep_latest, older_than, rows[n - 1]) {
            1nat
        } else {
            0
        })
    }
}

/// One more stream adds its own removals.
proof fn one_more_stream(
    rows: Seq<WitnessLogRow>,
    names: Seq<Seq<char>>,
    name: Seq<char>,
    keep_latest: Option<usize>,
    older_than: Option<Seq<char>>,
    n: nat,
)
    requires
        !names.contains(name),
    ensures
        removals_among(rows, names.push(name), keep_latest, older_than, n) == removals_among(
            rows,
            names,
            keep_latest,
            older_than,
            n,
        ) + removals(rows, Some(name), keep_latest, older_than, n),
    decreases n,
{
    if n > 0 {
        one_more_stream(rows, names, name, keep_latest, older_than, (n - 1) as nat);
        let s = rows[n - 1].stream_id@;
        assert(names.push(name).contains(s) <==> names.contains(s) || s == name) by {
            if names.contains(s) {
                let i = choose|i: int| 0 <= i < names.len() && names[i] == s;
                assert(names.push(name)[i] == s);
            }
            assert(names.push(name)[names.len() as int] == name);
            if names.push(name).contains(s) {
                let i = choose|i: int| 0 <= i < names.push(name).len() && names.push(name)[i] == s;
                if i < names.len() {
                    assert(names[i] == s);
                }
            }
        }
    }
}

/// The removals in the first `n` of the named streams.
proof fn removals_in_streams(
    rows: Seq<WitnessLogRow>,
    names: Seq<Seq<char>>,
    streams: Seq<Seq<WitnessLogRow>>,
    keep_latest: Option<usize>,
    older_than: Option<Seq<char>>,
    n: nat,
)
    requires
        names.no_duplicates(),
        streams.len() == names.len(),
        forall|i: int|
            0 <= i < streams.len() ==> (#[trigger] streams[i]) == rows_of(rows, names[i]),
        n <= names.len(),
    ensures
        removals_among(rows, names.take(n as int), keep_latest, older_than, rows.len())
            == candidates(streams, keep_latest, older_than, n),
    decreases n,
{
    if n == 0 {
        nothing_among_none(rows, names.take(0), keep_latest, older_than, rows.len());
    } else {
        let name = names[n - 1];
        removals_in_streams(rows, names, streams, keep_latest, older_than, (n - 1) as nat);
        assert(names.take(n as int) =~= names.take(n - 1).push(name));
        assert(!names.take(n - 1).contains(name));
        one_more_stream(rows, names.take(n - 1), name, keep_latest, older_than, rows.len());
        removals_in_stream(rows, name, keep_latest, older_than, rows.len());
        assert(rows.take(rows.len() as int) =~= rows);
        assert(streams[n - 1] == rows_of(rows, name));
    }
}

/// Where no stream is named, none of its rows goes.
proof fn nothing_among_none(
    rows: Seq<WitnessLogRow>,
    names: Seq<Seq<char>>,
    keep_latest: Option<usize>,
    older_than: Option<Seq<char>>,
    n: nat,
)
    requires
        names.len() == 0,
    ensures
        removals_among(rows, names, keep_latest, older_than, n) == 0,
    decreases n,
{
    if n > 0 {
        nothing_among_none(rows, names, keep_latest, older_than, (n - 1) as nat);
    }
}

/// Where every stream is named, every removal counts.
proof fn all_among_all(
    rows: Seq<WitnessLogRow>,
    names: Seq<Seq<char>>,
    keep_latest: Option<usize>,
    older_than: Option<Seq<char>>,
    n: nat,
)
    requires
        n <= rows.len(),
        forall|i: int| 0 <= i < rows.len() ==> names.contains((#[trigger] rows[i]).stream_id@),
    ensures
        removals_among(rows, names, keep_latest, older_than, n) == removals(
            rows,
            None,
            keep_latest,
            older_than,
            n,
        ),
    decreases n,
{
    if n > 0 {
        all_among_all(rows, names, keep_latest, older_than, (n - 1) as nat);
        assert(names.contains(rows[n - 1].stream_id@));
    }
}

/// The streams of a log are named once each, and all of them are.
proof fn stream_ids_are_all(rows: Seq<WitnessLogRow>)
    ensures
        stream_ids(rows).no_duplicates(),
        forall|i: int|
            0 <= i < rows.len() ==> stream_ids(rows).contains((#[trigger] rows[i]).stream_id@),
    decreases rows.len(),
{
    if rows.len() > 0 {
        let before = stream_ids(rows.drop_last());
        let name = rows.last().stream_id@;
        stream_ids_are_all(rows.drop_last());
        assert forall|i: int| 0 <= i < rows.len() implies stream_ids(rows).contains(
            (#[trigger] rows[i]).stream_id@,
        ) by {
            if i < rows.len() - 1 {
                assert(rows.drop_last()[i] == rows[i]);
                let k = choose|k: int| 0 <= k < before.len() && before[k] == rows[i].stream_id@;
                assert(stream_ids(rows)[k] == rows[i].stream_id@);
            } else if !before.contains(name) {
                assert(stream_ids(rows)[before.len() as int] == name);
            }
        }
    }
}

/// A dry run over one stream counts exactly what a clean-up of it removes.
pub proof fn dry_run_counts_removals(
    rows: Seq<WitnessLogRow>,
    stream_id: Seq<char>,
    keep_latest: Option<usize>,
    older_than: Option<Seq<char>>,
)
    ensures
        rows.len() - left_over(rows, Some(stream_id), keep_latest, older_than, 0).len()
            == forgettable_count(
            rows_of(rows, stream_id),
            keep_latest,
            older_than,
            rows_of(rows, stream_id).len(),
        ),
{
    left_and_removed(rows, Some(stream_id), keep_latest, older_than, 0);
    removals_in_stream(rows, stream_id, keep_latest, older_than, rows.len());
    assert(rows.take(rows.len() as int) =~= rows);
}

/// A dry run over every stream counts exactly what a clean-up of all removes.
pub proof fn dry_run_counts_all_removals(
    rows: Seq<WitnessLogRow>,
    streams: Seq<Seq<WitnessLogRow>>,
    keep_latest: Option<usize>,
    older_than: Option<Seq<char>>,
)
    requires
        streams.len() == stream_ids(rows).len(),
        forall|i: int|
            0 <= i < streams.len() ==> (#[trigger] streams[i]) == rows_of(
                rows,
                stream_ids(rows)[i],
            ),
    ensures
        rows.len() - left_over(rows, None, keep_latest, older_than, 0).len() == candidates(
            streams,
            keep_latest,
            older_than,
            streams.len(),
        ),
{
    let names = stream_ids(rows);
    stream_ids_are_all(rows);
    left_and_removed(rows, None, keep_latest, older_than, 0);
    all_among_all(rows, names, keep_latest, older_than, rows.len());
    removals_in_streams(rows, names, streams, keep_latest, older_than, names.len());
    assert(names.take(names.len() as int) =~= names);
}

/// The rows for a stream in two parts of a log after one another.
proof fn rows_of_parts(a: Seq<WitnessLogRow>, b: Seq<WitnessLogRow>, stream_id: Seq<char>)
    ensures
        rows_of(a + b, stream_id) == rows_of(a, stream_id) + rows_of(b, stream_id),
    decreases b.len(),
{
    if b.len() == 0 {
        assert(a + b =~= a);
    } else {
        rows_of_parts(a, b.drop_last(), stream_id);
        assert((a + b).drop_last() =~= a + b.drop_last());
    }
}

/// The latest row for a stream is the last of its rows.
proof fn latest_is_last_row(rows: Seq<WitnessLogRow>, stream_id: Seq<char>)
    ensures
        latest_row(rows, stream_id) == (if rows_of(rows, stream_id).len() == 0 {
            None
        } else {
            Some(rows_of(rows, stream_id).last())
        }),
    decreases rows.len(),
{
    if rows.len() > 0 {
        latest_is_last_row(rows.drop_last(), stream_id);
    }
}

/// From `from` on, a clean-up that keeps the latest leaves the last row of a stream.
proof fn last_row_is_left(
    rows: Seq<WitnessLogRow>,
    stream: Option<Seq<char>>,
    keep_latest: usize,
    older_than: Option<Seq<char>>,
    stream_id: Seq<char>,
    from: nat,
)
    requires
        keep_latest > 0,
        from <= rows.len(),
    ensures
        ({
            let there = rows_of(rows.skip(from as int), stream_id);
            let left = rows_of(
                left_over(rows, stream, Some(keep_latest), older_than, from as int),
                stream_id,
            );
            &&& there.len() == 0 ==> left.len() == 0
            &&& there.len() > 0 ==> left.len() > 0 && left.last() == there.last()
        }),
    decreases rows.len() - from,
{
    let keep = Some(keep_latest);
    let left = left_over(rows, stream, keep, older_than, from as int);
    if from == rows.len() {
        assert(rows.skip(from as int) =~= Seq::<WitnessLogRow>::empty());
    } else {
        let x = rows[from as int];
        let rest = left_over(rows, stream, keep, older_than, (from + 1) as int);
        let tail = rows.skip((from + 1) as int);
        last_row_is_left(rows, stream, keep_latest, older_than, stream_id, from + 1);
        assert(rows.skip(from as int) =~= seq![x] + tail);
        rows_of_parts(seq![x], tail, stream_id);
        rows_of_parts(seq![x], rest, stream_id);
        let none = Seq::<WitnessLogRow>::empty();
        assert(seq![x].drop_last() =~= none);
        assert(rows_of(none, stream_id) =~= none);
        assert(rows_of(seq![x], stream_id) =~= (if x.stream_id@ == stream_id {
            seq![x]
        } else {
            none
        }));
        if rows_of(tail, stream_id).len() == 0 && x.stream_id@ == stream_id {
            let own = rows_of(rows, stream_id);
            assert(rows =~= rows.take(from as int) + rows.skip(from as int));
            rows_of_parts(rows.take(from as int), rows.skip(from as int), stream_id);
            assert(own.last() == x);
            assert(own[own.len() - 1].id == x.id);
            assert(!removed(rows, stream, keep, older_than, x));
            assert(left == seq![x] + rest);
            assert(rows_of(left, stream_id) =~= seq![x]);
        }
    }
}

/// A clean-up that keeps at least one receipt of each stream leaves the latest
/// of every stream, so that what is judged next is judged as before.
pub proof fn cleaning_keeps_the_latest(
    rows: Seq<WitnessLogRow>,
    stream: Option<Seq<char>>,
    keep_latest: usize,
    older_than: Option<Seq<char>>,
    stream_id: Seq<char>,
)
    requires
        keep_latest > 0,
    ensures
        latest_row(left_over(rows, stream, Some(keep_latest), older_than, 0), stream_id)
            == latest_row(rows, stream_id),
{
    let left = left_over(rows, stream, Some(keep_latest), older_than, 0);
    last_row_is_left(rows, stream, keep_latest, older_than, stream_id, 0);
    assert(rows.skip(0) =~= rows);
    latest_is_last_row(rows, stream_id);
    latest_is_last_row(left, stream_id);
}

} // verus!
