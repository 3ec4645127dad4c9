//! The secure log: its master key, which entries are encrypted, what its
//! verdicts are, and what a clean-up of receipts takes and leaves.
use vstd::prelude::*;

use crate::clock::Moment;
use crate::commands::audit::receipts::{gc_target, witness_gc_at, witness_record_at};
use crate::commands::audit::streams::{
    changed_tier_is_found, ended_stream_stays, streams_create_at, streams_delete_at,
    streams_set_tier_at, streams_show, StreamTable,
};
use crate::commands::audit::{
    accept_unsealed_key, append_value, chain_end, chain_verify, effective_encryption, forgettable,
    is_known_tier, key_file_reads_back, key_init, key_init_check, may_forget, payload_source,
    receipts_of, rollback_check, seal_key_file, try_load_master_key,
    try_load_master_key_with_backend, verify, AppendCall, Encryption, HeadRecord, KeyFile,
    KeySource, PayloadSource, SealedKeyFile, StreamRow, WitnessLogRow, WitnessSubmission,
};
use crate::failure::Failure;
use crate::model::SealedData;
use crate::promises::keys::logs_once;
use crate::store::MemoryStore;
use crate::table::{lookup, lookup_of_push};
use crate::text::{opt_bytes, opt_str, text_le};
use crate::witness::{judge, latest_row, left_over, removed, rows_of, Verdict, WitnessLog};

verus! {

// ---------------------------------------------------------------------------
// The master key
// ---------------------------------------------------------------------------

/// A key that is written as it is, is read as it was: thirty-two bytes are the
/// key itself, with or without a TPM at hand.
pub proof fn raw_key_reads_back(
    path: &str,
    key: Vec<u8>,
    written: (KeyFile, String),
    envelope: Option<SealedKeyFile>,
    parsed: Result<SealedKeyFile, String>,
    plain: Result<Vec<u8>, Failure>,
    r: Result<KeySource, Failure>,
)
    requires
        key@.len() == 32,
        call_ensures(key_init, (path, key, None), written),
        written.0 is Raw,
        call_ensures(try_load_master_key, (path, written.0->Raw_0, &envelope), plain),
        call_ensures(try_load_master_key_with_backend, (path, written.0->Raw_0, parsed), r),
    ensures
        plain matches Ok(k) && k@ == key@,
        r matches Ok(KeySource::Raw(k)) && k@ == key@,
{
}

/// A key that the TPM has sealed is not written in the open, whatever the key:
/// what is written depends on the sealed data alone, and gives them back to be
/// unsealed.
pub proof fn sealed_key_reads_back(
    path: &str,
    a: Vec<u8>,
    b: Vec<u8>,
    sealed: &SealedData,
    with_a: (KeyFile, String),
    with_b: (KeyFile, String),
    bytes: Vec<u8>,
    r: Result<KeySource, Failure>,
)
    requires
        call_ensures(key_init, (path, a, Some(sealed)), with_a),
        call_ensures(key_init, (path, b, Some(sealed)), with_b),
        bytes@.len() != 32,
        with_a.0 matches KeyFile::Sealed(f) ==> call_ensures(
            try_load_master_key_with_backend,
            (path, bytes, Ok::<SealedKeyFile, String>(f)),
            r,
        ),
    ensures
        with_a.0 is Sealed,
        with_b.0 is Sealed,
        with_a.0->Sealed_0.sealed_hex@ == with_b.0->Sealed_0.sealed_hex@,
        with_a.1@ == with_b.1@,
        r matches Ok(KeySource::Sealed(s)) && s.blob@ == sealed.blob@ && opt_bytes(s.policy_digest)
            == opt_bytes(sealed.policy_digest),
{
    key_file_reads_back(with_a.0->Sealed_0, *sealed);
}

/// Two keys that the TPM sealed to different data have different files.
pub proof fn key_files_tell_sealed_data_apart(
    a: &SealedData,
    b: &SealedData,
    f: SealedKeyFile,
    g: SealedKeyFile,
)
    requires
        call_ensures(seal_key_file, (a,), f),
        call_ensures(seal_key_file, (b,), g),
        a.blob@ != b.blob@,
    ensures
        f.sealed_hex@ != g.sealed_hex@,
        f.version == 1,
{
    if f.sealed_hex@ == g.sealed_hex@ {
        crate::hex::hex_is_injective(a.blob@, b.blob@);
    }
}

/// What the TPM unsealed is the key just where it has thirty-two bytes.
pub proof fn unsealed_key_is_accepted_by_length(plaintext: Vec<u8>, r: Result<Vec<u8>, Failure>)
    requires
        call_ensures(accept_unsealed_key, (plaintext,), r),
    ensures
        r is Ok <==> plaintext@.len() == 32,
        r matches Ok(k) ==> k@ == plaintext@,
{
}

/// No key file is written over another.
pub proof fn key_file_is_not_overwritten(path: &str, exists: bool, r: Result<(), Failure>)
    requires
        call_ensures(key_init_check, (path, exists), r),
    ensures
        r is Ok <==> !exists,
{
}

// ---------------------------------------------------------------------------
// Encryption and streams
// ---------------------------------------------------------------------------

/// A stream of a stricter tier is always encrypted, a public or undeclared one
/// as the user asks, and one of an unknown tier takes nothing. The appending
/// call follows that choice.
pub proof fn tier_decides_encryption(
    row: Option<&StreamRow>,
    stream: &str,
    asked: bool,
    e: Result<Encryption, Failure>,
    call: Result<(AppendCall, Option<String>), Failure>,
)
    requires
        call_ensures(effective_encryption, (row, stream, asked), e),
        call_ensures(append_value, (row, stream, asked), call),
    ensures
        row is None ==> e is Ok && e->Ok_0.encrypt == asked && e->Ok_0.notice is Some,
        row matches Some(s) ==> (s.tier@ == "public"@ ==> e is Ok && e->Ok_0.encrypt == asked
            && e->Ok_0.notice is None),
        row matches Some(s) ==> (s.tier@ == "protected"@ || s.tier@ == "highly-restricted"@ ==> e
            is Ok && e->Ok_0.encrypt && (e->Ok_0.notice is Some <==> !asked)),
        row matches Some(s) ==> (s.tier@ != "public"@ && s.tier@ != "protected"@ && s.tier@
            != "highly-restricted"@ ==> e is Err),
        e is Ok <==> call is Ok,
        e is Ok ==> (call->Ok_0.0 == AppendCall::Encrypted <==> e->Ok_0.encrypt),
{
    tiers_differ();
}

proof fn tiers_differ()
    ensures
        "public"@ != "protected"@,
        "public"@ != "highly-restricted"@,
        "protected"@ != "highly-restricted"@,
{
    reveal_strlit("public");
    reveal_strlit("protected");
    reveal_strlit("highly-restricted");
    assert("public"@.len() == 6);
    assert("protected"@.len() == 9);
    assert("highly-restricted"@.len() == 17);
}

/// Just three tiers are known.
pub proof fn three_tiers_are_known(tier: &str, r: bool)
    requires
        call_ensures(is_known_tier, (tier,), r),
    ensures
        r <==> tier@ == "public"@ || tier@ == "protected"@ || tier@ == "highly-restricted"@,
{
}

/// What is appended to a stream that was declared is encrypted just as its tier
/// asks, until the stream is given another tier.
pub proof fn declared_tier_decides(
    store: &mut MemoryStore,
    t: &mut StreamTable,
    name: &str,
    tier: &str,
    description: Option<&str>,
    at: &Moment,
    s: String,
    row: Option<&StreamRow>,
    asked: bool,
    call: Result<(AppendCall, Option<String>), Failure>,
)
    requires
        call_ensures(
            streams_create_at,
            (store, t, name, tier, description, at),
            Ok::<String, Failure>(s),
        ),
        call_ensures(StreamTable::secure_log_stream_get, (&*final(t), name), row),
        call_ensures(append_value, (row, name, asked), call),
    ensures
        row matches Some(r) && r.tier@ == tier@ && r.deprecated_at is None && r.created_at@
            == at.rfc3339@,
        call is Ok,
        tier@ == "public"@ ==> (call->Ok_0.0 == AppendCall::Encrypted <==> asked),
        tier@ != "public"@ ==> call->Ok_0.0 == AppendCall::Encrypted,
        logs_once(
            old(store)@,
            final(store)@,
            "audit.stream.create"@,
            Some(name@),
            at.stamp@,
        ),
{
    tiers_differ();
    lookup_of_push::<StreamRow>(old(t)@, final(t)@.last(), name@);
    assert(final(store)@.audit_log.drop_last() =~= old(store)@.audit_log);
}

/// A stream is declared once and with a known tier; otherwise nothing changes.
pub proof fn stream_is_declared_once(
    store: &mut MemoryStore,
    t: &mut StreamTable,
    name: &str,
    tier: &str,
    description: Option<&str>,
    at: &Moment,
    r: Result<String, Failure>,
    known: bool,
)
    requires
        call_ensures(streams_create_at, (store, t, name, tier, description, at), r),
        call_ensures(is_known_tier, (tier,), known),
    ensures
        r is Ok <==> known && lookup::<StreamRow>(old(t)@, name@) is None,
        r is Err ==> final(t)@ == old(t)@ && final(store)@ == old(store)@,
{
}

/// A stream that is given another tier has it from then on, and stays ended if
/// it was.
pub proof fn new_tier_takes_effect(
    store: &mut MemoryStore,
    t: &mut StreamTable,
    name: &str,
    tier: &str,
    stamp: &str,
    r: Result<String, Failure>,
    before: Option<&StreamRow>,
    after: Option<&StreamRow>,
)
    requires
        call_ensures(streams_set_tier_at, (store, t, name, tier, stamp), r),
        call_ensures(StreamTable::secure_log_stream_get, (&*old(t), name), before),
        call_ensures(StreamTable::secure_log_stream_get, (&*final(t), name), after),
    ensures
        r is Ok ==> before is Some && after is Some && after->0.tier@ == tier@
            && after->0@.deprecated_at == before->0@.deprecated_at,
        before is None ==> r is Err,
        r is Err ==> final(t)@ == old(t)@ && final(store)@ == old(store)@,
{
    if r is Ok {
        let away = name@.push('x');
        assert(away.len() != name@.len());
        changed_tier_is_found(
            (old(store)@, old(t)@),
            (final(store)@, final(t)@),
            r,
            name@,
            tier@,
            stamp@,
            away,
        );
    }
}

/// A stream that is ended is still shown, with the time at which it ended.
pub proof fn ended_stream_is_shown(
    store: &mut MemoryStore,
    t: &mut StreamTable,
    name: &str,
    at: &Moment,
    r: Result<String, Failure>,
    before: Option<&StreamRow>,
    after: Option<&StreamRow>,
    shown: Result<String, Failure>,
)
    requires
        call_ensures(streams_delete_at, (store, t, name, at), r),
        call_ensures(StreamTable::secure_log_stream_get, (&*old(t), name), before),
        call_ensures(StreamTable::secure_log_stream_get, (&*final(t), name), after),
        call_ensures(streams_show, (&*final(t), name), shown),
    ensures
        r is Ok <==> before is Some,
        shown is Ok <==> before is Some,
        r is Ok ==> after is Some && after->0@.deprecated_at == Some(at.rfc3339@)
            && after->0.tier@ == before->0.tier@,
        r is Err ==> final(t)@ == old(t)@ && final(store)@ == old(store)@,
{
    if r is Ok {
        let away = name@.push('x');
        assert(away.len() != name@.len());
        ended_stream_stays(
            (old(store)@, old(t)@),
            (final(store)@, final(t)@),
            r,
            name@,
            (at.rfc3339@, at.stamp@),
            away,
        );
    }
}

/// Text on the command line goes before a file, of which a dash means standard
/// input.
pub proof fn inline_payload_goes_first(
    inline: Option<&str>,
    file: Option<&str>,
    r: PayloadSource,
)
    requires
        call_ensures(payload_source, (inline, file), r),
    ensures
        r == PayloadSource::Inline <==> inline is Some,
        r == PayloadSource::Empty <==> inline is None && file is None,
        r == PayloadSource::Stdin <==> inline is None && opt_str(file) == Some("-"@),
{
}

// ---------------------------------------------------------------------------
// Verdicts
// ---------------------------------------------------------------------------

/// A chain, a chain of checkpoints and a head are found good just where nothing
/// is wrong with them.
pub proof fn verdicts_follow_the_findings(
    stream: &str,
    from: u64,
    to: u64,
    error: Option<&str>,
    chain: (String, Result<(), Failure>),
    found: &Result<usize, String>,
    checkpoints: (String, Result<(), Failure>),
    head: &Result<Option<HeadRecord>, String>,
    rollback: (String, Result<(), Failure>),
)
    requires
        call_ensures(chain_verify, (stream, from, to, error), chain),
        call_ensures(verify, (stream, found), checkpoints),
        call_ensures(rollback_check, (stream, head), rollback),
    ensures
        chain.1 is Ok <==> error is None,
        checkpoints.1 is Ok <==> found is Ok,
        rollback.1 is Ok <==> head is Ok,
{
}

/// A chain is verified up to the entry that was asked for, or up to the head;
/// an empty stream has neither.
pub proof fn chain_ends_where_asked(
    stream: &str,
    to: Option<u64>,
    head: Option<u64>,
    r: Result<u64, Failure>,
)
    requires
        call_ensures(chain_end, (stream, to, head), r),
    ensures
        to matches Some(n) ==> r == Ok::<u64, Failure>(n),
        to is None && head is Some ==> r == Ok::<u64, Failure>(head->0),
        to is None && head is None ==> r is Err,
{
}

// ---------------------------------------------------------------------------
// Receipts
// ---------------------------------------------------------------------------

/// A submission is judged by the latest receipt of its stream: without one it is
/// recorded; a later segment is recorded and an earlier one is stale; for the
/// same segment the same checkpoint is a repetition and another one an
/// equivocation.
pub proof fn submission_is_judged_by_segment_and_checkpoint(
    row: &WitnessLogRow,
    sub: &WitnessSubmission,
    first: Verdict,
    v: Verdict,
)
    requires
        call_ensures(judge, (None, sub), first),
        call_ensures(judge, (Some(row), sub), v),
    ensures
        first == Verdict::Recorded,
        v == Verdict::Recorded <==> sub.segment_id > row.segment_id,
        v == Verdict::Stale <==> sub.segment_id < row.segment_id,
        v == Verdict::Repeated <==> sub.segment_id == row.segment_id && sub.checkpoint_hash_hex@
            == row.checkpoint_hash_hex@,
        v == Verdict::Equivocation <==> sub.segment_id == row.segment_id
            && sub.checkpoint_hash_hex@ != row.checkpoint_hash_hex@,
{
}

/// A receipt that is not among the latest that are kept may be forgotten where
/// it was received before the cut-off, or where there is no cut-off; the latest
/// ones may not, and neither may one from the cut-off on.
pub proof fn old_receipts_may_be_forgotten(
    rows: &Vec<&WitnessLogRow>,
    keep: usize,
    cutoff: &str,
    i: int,
    by_count: bool,
    by_time: bool,
    by_both: bool,
)
    requires
        0 < keep < rows@.len(),
        0 <= i < rows@.len(),
        forall|a: int, b: int|
            0 <= a < b < rows@.len() ==> (#[trigger] rows@[a]).id != (#[trigger] rows@[b]).id,
        call_ensures(may_forget, (rows, Some(keep), None, rows@[i]), by_count),
        call_ensures(may_forget, (rows, None, Some(cutoff), rows@[i]), by_time),
        call_ensures(may_forget, (rows, Some(keep), Some(cutoff), rows@[i]), by_both),
    ensures
        by_count <==> i < rows@.len() - keep,
        by_time <==> !text_le(cutoff@, rows@[i].received_at@),
        by_both <==> by_count && by_time,
{
    let s = receipts_of(rows@);
    assert(s[i] == *rows@[i]);
    let from = rows@.len() - keep;
    if i < from {
        assert forall|j: int| from <= j < s.len() implies #[trigger] s[j].id != s[i].id by {
            assert(s[j] == *rows@[j]);
            assert(rows@[i].id != rows@[j].id);
        }
    } else {
        assert(s[i].id == s[i].id);
    }
}

/// A clean-up of one stream takes receipts of that stream only: every other
/// stream keeps all of its receipts.
pub proof fn cleaning_one_stream_leaves_the_others(
    log: &mut WitnessLog,
    stream: &str,
    keep: Option<usize>,
    cutoff: Option<&str>,
    count: usize,
    other: Seq<char>,
)
    requires
        other != stream@,
        call_ensures(WitnessLog::witness_log_gc, (log, Some(stream), keep, cutoff), count),
    ensures
        rows_of(final(log).rows@, other) == rows_of(old(log).rows@, other),
        count == old(log).rows@.len() - final(log).rows@.len(),
{
    let rows = old(log).rows@;
    other_rows_are_left(rows, Some(stream@), keep, opt_str(cutoff), other, 0);
    assert(rows.skip(0) =~= rows);
}

proof fn other_rows_are_left(
    rows: Seq<WitnessLogRow>,
    stream: Option<Seq<char>>,
    keep: Option<usize>,
    cutoff: Option<Seq<char>>,
    other: Seq<char>,
    from: nat,
)
    requires
        stream is Some,
        stream != Some(other),
        from <= rows.len(),
    ensures
        rows_of(left_over(rows, stream, keep, cutoff, from as int), other) == rows_of(
            rows.skip(from as int),
            other,
        ),
    decreases rows.len() - from,
{
    if from == rows.len() {
        assert(rows.skip(from as int) =~= Seq::<WitnessLogRow>::empty());
    } else {
        other_rows_are_left(rows, stream, keep, cutoff, other, (from + 1) as nat);
        let rest = left_over(rows, stream, keep, cutoff, from + 1int);
        let first = rows[from as int];
        assert(rows.skip(from as int) =~= seq![first] + rows.skip(from + 1int));
        rows_behind_one(first, rows.skip(from + 1int), other);
        rows_behind_one(first, rest, other);
    }
}

proof fn rows_behind_one(first: WitnessLogRow, rest: Seq<WitnessLogRow>, stream: Seq<char>)
    ensures
        rows_of(seq![first] + rest, stream) == (if first.stream_id@ == stream {
            seq![first] + rows_of(rest, stream)
        } else {
            rows_of(rest, stream)
        }),
    decreases rest.len(),
{
    let all = seq![first] + rest;
    if rest.len() == 0 {
        assert(all =~= seq![first]);
        assert(all.drop_last() =~= Seq::<WitnessLogRow>::empty());
        assert(rows_of(all.drop_last(), stream) =~= Seq::<WitnessLogRow>::empty());
        assert(rows_of(rest, stream) =~= Seq::<WitnessLogRow>::empty());
        assert(rows_of(all, stream) =~= (if first.stream_id@ == stream {
            seq![first]
        } else {
            Seq::<WitnessLogRow>::empty()
        }));
        assert(seq![first] + Seq::<WitnessLogRow>::empty() =~= seq![first]);
    } else {
        rows_behind_one(first, rest.drop_last(), stream);
        assert(all.drop_last() =~= seq![first] + rest.drop_last());
        assert(all.last() == rest.last());
        let before = rows_of(rest.drop_last(), stream);
        if rest.last().stream_id@ == stream && first.stream_id@ == stream {
            assert((seq![first] + before).push(rest.last()) =~= seq![first] + before.push(
                rest.last(),
            ));
        }
    }
}

/// Every receipt that a clean-up leaves was there before, and every receipt that
/// may not be forgotten is left.
pub proof fn cleaning_takes_only_what_may_go(
    log: &mut WitnessLog,
    stream: Option<&str>,
    keep: Option<usize>,
    cutoff: Option<&str>,
    count: usize,
    i: int,
)
    requires
        call_ensures(WitnessLog::witness_log_gc, (log, stream, keep, cutoff), count),
        0 <= i < old(log).rows@.len(),
    ensures
        final(log).rows@.contains(old(log).rows@[i]) || forgettable(
            rows_of(old(log).rows@, old(log).rows@[i].stream_id@),
            keep,
            opt_str(cutoff),
            old(log).rows@[i],
        ),
{
    left_or_removed(old(log).rows@, opt_str(stream), keep, opt_str(cutoff), i, 0);
}

proof fn left_or_removed(
    rows: Seq<WitnessLogRow>,
    stream: Option<Seq<char>>,
    keep: Option<usize>,
    cutoff: Option<Seq<char>>,
    i: int,
    from: int,
)
    requires
        0 <= from <= i < rows.len(),
    ensures
        left_over(rows, stream, keep, cutoff, from).contains(rows[i]) || removed(
            rows,
            stream,
            keep,
            cutoff,
            rows[i],
        ),
    decreases i - from,
{
    let left = left_over(rows, stream, keep, cutoff, from);
    let rest = left_over(rows, stream, keep, cutoff, from + 1int);
    if from == i {
        if !removed(rows, stream, keep, cutoff, rows[i]) {
            assert(left[0] == rows[i]);
        }
    } else {
        left_or_removed(rows, stream, keep, cutoff, i, from + 1);
        if rest.contains(rows[i]) {
            let k = choose|k: int| 0 <= k < rest.len() && rest[k] == rows[i];
            if removed(rows, stream, keep, cutoff, rows[from]) {
                assert(left[k] == rows[i]);
            } else {
                assert(left[k + 1] == rows[i]);
            }
        }
    }
}

/// A dry run changes nothing, and a clean-up without a limit is refused.
pub proof fn dry_run_changes_nothing(
    store: &mut MemoryStore,
    log: &mut WitnessLog,
    stream: &str,
    keep: Option<usize>,
    cutoff: Option<&str>,
    dry: bool,
    stamp: &str,
    r: Result<String, Failure>,
)
    requires
        call_ensures(witness_gc_at, (store, log, stream, keep, cutoff, dry, stamp), r),
    ensures
        r is Ok <==> keep is Some || cutoff is Some,
        dry || r is Err ==> final(store)@ == old(store)@ && final(log).rows@ == old(log).rows@,
        !dry && r is Ok ==> logs_once(
            old(store)@,
            final(store)@,
            "audit.witness.gc"@,
            gc_target(stream@),
            stamp@,
        ),
{
    if !dry && r is Ok {
        assert(final(store)@.audit_log.drop_last() =~= old(store)@.audit_log);
    }
}

/// A submission that is recorded by hand becomes the latest receipt of its
/// stream, under the number that it was given.
pub proof fn hand_recorded_receipt_is_latest(
    store: &mut MemoryStore,
    log: &mut WitnessLog,
    sub: WitnessSubmission,
    id: i64,
    at: &Moment,
    s: String,
)
    requires
        call_ensures(witness_record_at, (store, log, sub, id, at), s),
    ensures
        latest_row(final(log).rows@, sub.stream_id@) matches Some(row) && row.id == Some(id)
            && row.segment_id == sub.segment_id && row.checkpoint_hash_hex@
            == sub.checkpoint_hash_hex@ && row.signature_hex@ == sub.signature_hex@
            && row.signer_identity@ == sub.signer_identity@ && row.received_at@ == at.rfc3339@,
        final(log).rows@.len() == old(log).rows@.len() + 1,
        logs_once(
            old(store)@,
            final(store)@,
            "audit.witness.record"@,
            Some(sub.stream_id@),
            at.stamp@,
        ),
{
    assert(final(store)@.audit_log.drop_last() =~= old(store)@.audit_log);
}

} // verus!
