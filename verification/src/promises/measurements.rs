//! Measurements: what is logged of them, what is warned of, and when the log is
//! said to have been cut.
use vstd::prelude::*;

use crate::commands::audit::{effective_encryption, Encryption, StreamRow};
use crate::commands::measure::{
    checkpoint_warning, counter_index, enroll_payload, enroll_warning, ensure_stream, file_payload,
    ima, ima_entries, ima_line, ima_payload, ima_views, parse_ima_line, pcr_persists,
    rollback_check, ImaEntry,
};
use crate::failure::Failure;
use crate::hex::hex_text;
use crate::json::{json_object, number_view, text_view, FieldView};
use crate::promises::texts::first_is_first;
use crate::text::{first_at, joined, split, views, Separator};

verus! {

/// A JSON object whose fields hold all of these.
pub open spec fn says(s: Seq<char>, wanted: Seq<FieldView>) -> bool {
    exists|fields: Seq<FieldView>|
        s == #[trigger] json_object(fields) && forall|i: int|
            0 <= i < wanted.len() ==> fields.contains(#[trigger] wanted[i])
}

/// Registers up to the fifteenth keep their value when the state is saved, and
/// just for the others there is a warning.
pub proof fn warned_of_registers_that_reset(
    index: u32,
    persists: bool,
    enroll: Option<String>,
    checkpoint: Option<String>,
)
    requires
        call_ensures(pcr_persists, (index,), persists),
        call_ensures(enroll_warning, (index,), enroll),
        call_ensures(checkpoint_warning, (index,), checkpoint),
    ensures
        persists <==> index <= 15,
        enroll is None <==> persists,
        checkpoint is None <==> persists,
{
}

/// The measurement stream is declared once, and nothing that is appended to it
/// has to be encrypted.
pub proof fn measurement_stream_is_public(
    existing: &StreamRow,
    at: &str,
    again: Option<StreamRow>,
    first: Option<StreamRow>,
    stream: &str,
    r: Result<Encryption, Failure>,
)
    requires
        call_ensures(ensure_stream, (Some(existing), at), again),
        call_ensures(ensure_stream, (None, at), first),
        first is Some ==> call_ensures(
            effective_encryption,
            (Some(&first->0), stream, false),
            r,
        ),
    ensures
        again is None,
        first matches Some(row) && row.created_at@ == at@ && row.deprecated_at is None,
        r matches Ok(e) && !e.encrypt && e.notice is None,
{
    reveal_strlit("public");
    reveal_strlit("protected");
    reveal_strlit("highly-restricted");
    assert("public"@.len() != "protected"@.len());
    assert("public"@.len() != "highly-restricted"@.len());
}

/// What is logged of a measured file names the file and holds its digest.
pub proof fn file_is_logged_with_its_digest(
    artifact: &str,
    kind: &str,
    bank: &str,
    digest: &[u8],
    size: usize,
    pcr: Option<u32>,
    s: String,
)
    requires
        call_ensures(file_payload, (artifact, kind, bank, digest, size, pcr), s),
    ensures
        says(
            s@,
            seq![
                text_view("artifact_id"@, artifact@),
                text_view("kind"@, kind@),
                text_view("digest_alg"@, bank@),
                text_view("digest"@, hex_text(digest@)),
                number_view("size"@, size as u64),
            ],
        ),
{
    let f = crate::commands::measure::file_fields(
        artifact@,
        kind@,
        bank@,
        digest@,
        size as u64,
        pcr,
    );
    assert(s@ == json_object(f));
    assert(f[1] == text_view("artifact_id"@, artifact@));
    assert(f[2] == text_view("kind"@, kind@));
    assert(f[3] == text_view("digest_alg"@, bank@));
    assert(f[4] == text_view("digest"@, hex_text(digest@)));
    assert(f[5] == number_view("size"@, size as u64));
}

/// What is logged when the agent measures itself holds its digest, its path and
/// its version.
pub proof fn agent_is_logged_with_its_digest(
    bank: &str,
    digest: &[u8],
    path: &str,
    version: &str,
    pcr: Option<u32>,
    s: String,
)
    requires
        call_ensures(enroll_payload, (bank, digest, path, version, pcr), s),
    ensures
        says(
            s@,
            seq![
                text_view("digest_alg"@, bank@),
                text_view("digest"@, hex_text(digest@)),
                text_view("path"@, path@),
                text_view("version"@, version@),
            ],
        ),
{
    let f = crate::commands::measure::enroll_fields(bank@, digest@, path@, version@, pcr);
    assert(s@ == json_object(f));
    assert(f[3] == text_view("digest_alg"@, bank@));
    assert(f[4] == text_view("digest"@, hex_text(digest@)));
    assert(f[5] == text_view("path"@, path@));
    assert(f[6] == text_view("version"@, version@));
}

/// What is logged of an entry of the kernel's list names the file and holds its
/// digest.
pub proof fn kernel_entry_is_logged_with_its_digest(e: &ImaEntry, s: String)
    requires
        call_ensures(ima_payload, (e,), s),
    ensures
        says(
            s@,
            seq![
                text_view("artifact_id"@, e.filename@),
                text_view("digest_alg"@, e.digest_alg@),
                text_view("digest"@, e.file_digest@),
                text_view("ima_pcr"@, e.pcr@),
                text_view("template"@, e.template@),
                text_view("template_hash"@, e.template_hash@),
            ],
        ),
{
    let f = crate::commands::measure::ima_fields(e@);
    assert(s@ == json_object(f));
    assert(f[1] == text_view("artifact_id"@, e.filename@));
    assert(f[3] == text_view("digest_alg"@, e.digest_alg@));
    assert(f[4] == text_view("digest"@, e.file_digest@));
    assert(f[5] == text_view("ima_pcr"@, e.pcr@));
    assert(f[6] == text_view("template"@, e.template@));
    assert(f[7] == text_view("template_hash"@, e.template_hash@));
}

/// The log is said to have been cut just where the live counter has gone past
/// the greatest recorded one; without both counters nothing is said.
pub proof fn cut_log_is_reported(
    index: u32,
    live: Option<u64>,
    recorded: Option<u64>,
    r: (String, Result<(), Failure>),
)
    requires
        call_ensures(rollback_check, (index, live, recorded), r),
    ensures
        r.1 is Err <==> live is Some && recorded is Some && live->0 > recorded->0,
{
}

/// The counter that was named is the one that is used.
pub proof fn named_counter_is_used(index: u32, r: u32, standing: u32)
    requires
        call_ensures(counter_index, (Some(index),), r),
        call_ensures(counter_index, (None,), standing),
    ensures
        r == index,
        standing == 0x0180_0001,
{
}

/// A line of the kernel's list is an entry just where it has five words or more:
/// the register, the hash of the template, the template and the digest are the
/// first four, and the file name is what follows. A digest that names its
/// algorithm is parted at the first colon.
pub proof fn kernel_line_is_read_word_by_word(line: &str, words: Vec<String>, r: Option<ImaEntry>)
    requires
        call_ensures(split, (line, Separator::White), words),
        call_ensures(parse_ima_line, (line,), r),
    ensures
        r is Some <==> words@.len() >= 5,
        r matches Some(e) ==> {
            &&& e.pcr@ == words@[0]@
            &&& e.template_hash@ == words@[1]@
            &&& e.template@ == words@[2]@
            &&& words@[3]@.contains(':') ==> e.digest_alg@ + seq![':'] + e.file_digest@
                == words@[3]@ && !e.digest_alg@.contains(':')
            &&& !words@[3]@.contains(':') ==> e.file_digest@ == words@[3]@
            &&& words@.len() == 5 ==> e.filename@ == words@[4]@
        },
{
    let f = views(words@);
    assert(f.len() == words@.len());
    if words@.len() >= 5 {
        assert(f[0] == words@[0]@ && f[1] == words@[1]@ && f[2] == words@[2]@ && f[3]
            == words@[3]@ && f[4] == words@[4]@);
        let d = words@[3]@;
        first_is_first(d, ':');
        let at = first_at(d, ':');
        if d.contains(':') {
            let k = choose|k: int| 0 <= k < d.len() && d[k] == ':';
            assert(at < d.len());
            assert(d.subrange(0, at) + seq![':'] + d.subrange(at + 1, d.len() as int) =~= d);
            assert forall|k: int| 0 <= k < at implies d.subrange(0, at)[k] != ':' by {
                assert(d[k] != ':');
            }
        } else {
            if at < d.len() {
                assert(d.contains(d[at]));
            }
        }
        if words@.len() == 5 {
            let rest = f.subrange(4, 5);
            assert(rest.len() == 1 && rest[0] == f[4]);
            assert(f.subrange(4, f.len() as int) =~= rest);
            assert(joined(rest, " "@) == rest[0]);
        }
    }
}

proof fn every_line_counts(lines: Seq<Seq<char>>, n: nat)
    requires
        n <= lines.len(),
        forall|i: int| 0 <= i < lines.len() ==> ima_line(#[trigger] lines[i]) is Some,
    ensures
        ima_entries(lines, n).len() == n,
        forall|i: int|
            0 <= i < n ==> (#[trigger] ima_entries(lines, n)[i]) == ima_line(lines[i])->0,
    decreases n,
{
    if n > 0 {
        every_line_counts(lines, (n - 1) as nat);
        assert(ima_line(lines[n - 1]) is Some);
    }
}

/// Where every line of the kernel's list is an entry, none is lost and their
/// order stays.
pub proof fn kernel_list_is_read_in_order(
    contents: &str,
    lines: Vec<String>,
    r: Vec<ImaEntry>,
    i: int,
    line: &str,
    e: Option<ImaEntry>,
)
    requires
        call_ensures(split, (contents, Separator::NewLine), lines),
        call_ensures(ima, (contents,), r),
        forall|k: int| 0 <= k < lines@.len() ==> ima_line((#[trigger] lines@[k])@) is Some,
        0 <= i < lines@.len(),
        line@ == lines@[i]@,
        call_ensures(parse_ima_line, (line,), e),
    ensures
        r@.len() == lines@.len(),
        e matches Some(x) && x@ == r@[i]@,
{
    let all = views(lines@);
    assert(all.len() == lines@.len());
    assert forall|k: int| 0 <= k < all.len() implies ima_line(#[trigger] all[k]) is Some by {
        assert(all[k] == lines@[k]@);
    }
    every_line_counts(all, all.len());
    assert(ima_views(r@).len() == r@.len());
    assert(ima_views(r@)[i] == r@[i]@);
    assert(all[i] == lines@[i]@);
    assert(ima_entries(all, all.len())[i] == ima_line(all[i])->0);
}

} // verus!
