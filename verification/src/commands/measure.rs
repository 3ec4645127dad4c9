//! Measurements: artifacts and kernel lists that go into the secure log.
use vstd::prelude::*;
use vstd::string::*;

use crate::commands::audit::{
    segments_text, signed_text, InclusionProof, SegmentInfo, StreamRow, StreamView,
};
use crate::failure::Failure;
use crate::hex::{hex32, hex32_text, hex_encode, hex_text};
use crate::json::{
    field_views, json_object, json_text, number_field, number_view, text_field, text_view,
    FieldView, JsonField, JsonLeaf, LeafView,
};
use crate::text::{
    chars_of, decimal, field, find_char, first_at, join, joined, opt_text, pieces, push_decimal,
    push_field, push_number, split, text_of, views, Separator,
};

verus! {

/// The stream that holds measurements.
pub const MEASUREMENT_STREAM: &'static str = "measurement";

/// The NV index of the counter that is used where none is named.
pub const ANCHOR_COUNTER_NV_INDEX: u32 = 0x0180_0001;

/// The name of the stream that holds measurements.
pub open spec fn measurement_stream() -> Seq<char> {
    "measurement"@
}

/// The row that declares the measurement stream, unless it is declared already.
/// Measurements are digests, not secrets: the stream is public.
pub fn ensure_stream(existing: Option<&StreamRow>, created_at: &str) -> (r: Option<StreamRow>)
    ensures
        r is Some <==> existing is None,
        r matches Some(row) ==> row@ == (StreamView {
            name: measurement_stream(),
            tier: "public"@,
            description: Some("application/artifact measurements"@),
            created_at: created_at@,
            deprecated_at: None,
        }),
{
    if existing.is_some() {
        return None;
    }
    let row = StreamRow {
        name: "measurement".to_owned(),
        tier: "public".to_owned(),
        description: Some("application/artifact measurements".to_owned()),
        created_at: created_at.to_owned(),
        deprecated_at: None,
    };
    Some(row)
}

/// Registers that keep their value when the TPM saves its state.
pub fn pcr_persists(index: u32) -> (r: bool)
    ensures
        r == (index < 16),
{
    index < 16
}

/// The JSON value of an optional register.
pub open spec fn pcr_leaf(pcr: Option<u32>) -> LeafView {
    match pcr {
        Some(i) => LeafView::Number(i as u64),
        None => LeafView::Nothing,
    }
}

fn pcr_field(pcr: Option<u32>) -> (f: JsonField)
    ensures
        f@ == (FieldView { group: None, name: "pcr"@, value: pcr_leaf(pcr) }),
{
    JsonField {
        group: None,
        name: "pcr".to_owned(),
        value: match pcr {
            Some(i) => JsonLeaf::Number(i as u64),
            None => JsonLeaf::Nothing,
        },
    }
}

// ---------------------------------------------------------------------------
// Files
// ---------------------------------------------------------------------------

/// The fields that are logged for a measured file.
pub open spec fn file_fields(
    artifact_id: Seq<char>,
    kind: Seq<char>,
    bank: Seq<char>,
    digest: Seq<u8>,
    size: u64,
    pcr: Option<u32>,
) -> Seq<FieldView> {
    seq![
        text_view("source"@, "direct"@),
        text_view("artifact_id"@, artifact_id),
        text_view("kind"@, kind),
        text_view("digest_alg"@, bank),
        text_view("digest"@, hex_text(digest)),
        number_view("size"@, size),
        FieldView { group: None, name: "pcr"@, value: pcr_leaf(pcr) },
    ]
}

/// What is logged for a measured file.
pub fn file_payload(
    artifact_id: &str,
    kind: &str,
    bank: &str,
    digest: &[u8],
    size: usize,
    pcr: Option<u32>,
) -> (s: String)
    ensures
        s@ == json_object(
            file_fields(artifact_id@, kind@, bank@, digest@, size as u64, pcr),
        ),
{
    let mut v: Vec<JsonField> = Vec::new();
    v.push(text_field("source", "direct"));
    v.push(text_field("artifact_id", artifact_id));
    v.push(text_field("kind", kind));
    v.push(text_field("digest_alg", bank));
    v.push(text_field("digest", hex_encode(digest).as_str()));
    v.push(number_field("size", size as u64));
    v.push(pcr_field(pcr));
    assert(field_views(v@) =~= file_fields(
        artifact_id@,
        kind@,
        bank@,
        digest@,
        size as u64,
        pcr,
    ));
    json_text(&v)
}

/// The line about an extended register.
pub open spec fn extended_line(label: Seq<char>, bank: Seq<char>, pcr: Option<u32>) -> Seq<char> {
    match pcr {
        Some(i) => label + "extended "@ + bank + "["@ + decimal(i as nat) + "]\n"@,
        None => label + "(not extended)\n"@,
    }
}

fn push_extended(out: &mut String, label: &str, bank: &str, pcr: Option<u32>)
    ensures
        final(out)@ == old(out)@ + extended_line(label@, bank@, pcr),
{
    let ghost start = out@;
    out.append(label);
    match pcr {
        Some(i) => {
            out.append("extended ");
            out.append(bank);
            out.append("[");
            push_decimal(out, i as u64);
            out.append("]\n");
        },
        None => {
            out.append("(not extended)\n");
        },
    }
    assert(out@ =~= start + extended_line(label@, bank@, pcr));
}

/// A measured file as it is printed.
pub open spec fn measured_text(
    artifact_id: Seq<char>,
    kind: Seq<char>,
    seqno: u64,
    bank: Seq<char>,
    digest: Seq<u8>,
    pcr: Option<u32>,
) -> Seq<char> {
    "measured "@ + artifact_id + " ("@ + kind + ")\n"@ + field(
        "  seqno:  "@,
        decimal(seqno as nat),
    ) + "  "@ + bank + ":  "@ + hex_text(digest) + "\n"@ + extended_line("  pcr:    "@, bank, pcr)
}

/// Prints a measured file.
pub fn file(
    artifact_id: &str,
    kind: &str,
    seqno: u64,
    bank: &str,
    digest: &[u8],
    pcr: Option<u32>,
) -> (s: String)
    ensures
        s@ == measured_text(artifact_id@, kind@, seqno, bank@, digest@, pcr),
{
    let mut s = String::new();
    s.append("measured ");
    s.append(artifact_id);
    s.append(" (");
    s.append(kind);
    s.append(")\n");
    push_number(&mut s, "  seqno:  ", seqno);
    s.append("  ");
    s.append(bank);
    s.append(":  ");
    s.append(hex_encode(digest).as_str());
    s.append("\n");
    push_extended(&mut s, "  pcr:    ", bank, pcr);
    assert(s@ =~= measured_text(artifact_id@, kind@, seqno, bank@, digest@, pcr));
    s
}

// ---------------------------------------------------------------------------
// Enrolment
// ---------------------------------------------------------------------------

/// The fields that are logged when the agent measures itself.
pub open spec fn enroll_fields(
    bank: Seq<char>,
    digest: Seq<u8>,
    path: Seq<char>,
    version: Seq<char>,
    pcr: Option<u32>,
) -> Seq<FieldView> {
    seq![
        text_view("source"@, "self"@),
        text_view("artifact_id"@, "citadel"@),
        text_view("kind"@, "agent"@),
        text_view("digest_alg"@, bank),
        text_view("digest"@, hex_text(digest)),
        text_view("path"@, path),
        text_view("version"@, version),
        FieldView { group: None, name: "pcr"@, value: pcr_leaf(pcr) },
    ]
}

/// What is logged when the agent measures itself.
pub fn enroll_payload(
    bank: &str,
    digest: &[u8],
    path: &str,
    version: &str,
    pcr: Option<u32>,
) -> (s: String)
    ensures
        s@ == json_object(enroll_fields(bank@, digest@, path@, version@, pcr)),
{
    let mut v: Vec<JsonField> = Vec::new();
    v.push(text_field("source", "self"));
    v.push(text_field("artifact_id", "citadel"));
    v.push(text_field("kind", "agent"));
    v.push(text_field("digest_alg", bank));
    v.push(text_field("digest", hex_encode(digest).as_str()));
    v.push(text_field("path", path));
    v.push(text_field("version", version));
    v.push(pcr_field(pcr));
    assert(field_views(v@) =~= enroll_fields(bank@, digest@, path@, version@, pcr));
    json_text(&v)
}

/// The enrolment as it is printed.
pub open spec fn enrolled_text(
    seqno: u64,
    bank: Seq<char>,
    digest: Seq<u8>,
    path: Seq<char>,
    version: Seq<char>,
    pcr: Option<u32>,
) -> Seq<char> {
    "enrolled Citadel into the MMA\n"@ + field("  seqno:    "@, decimal(seqno as nat)) + field(
        "  version:  "@,
        version,
    ) + field("  path:     "@, path) + "  "@ + bank + ":  "@ + hex_text(digest) + "\n"@
        + extended_line("  pcr:      "@, bank, pcr)
}

/// Prints the enrolment.
pub fn enroll(
    seqno: u64,
    bank: &str,
    digest: &[u8],
    path: &str,
    version: &str,
    pcr: Option<u32>,
) -> (s: String)
    ensures
        s@ == enrolled_text(seqno, bank@, digest@, path@, version@, pcr),
{
    let mut s = String::new();
    s.append("enrolled Citadel into the MMA\n");
    push_number(&mut s, "  seqno:    ", seqno);
    push_field(&mut s, "  version:  ", version);
    push_field(&mut s, "  path:     ", path);
    s.append("  ");
    s.append(bank);
    s.append(":  ");
    s.append(hex_encode(digest).as_str());
    s.append("\n");
    push_extended(&mut s, "  pcr:      ", bank, pcr);
    assert(s@ =~= enrolled_text(seqno, bank@, digest@, path@, version@, pcr));
    s
}

/// The warning about a register that does not keep its value.
pub open spec fn reset_warning(index: u32, consequence: Seq<char>) -> Option<Seq<char>> {
    if index < 16 {
        None
    } else {
        Some(
            "warning: PCR "@ + decimal(index as nat)
                + " resets each boot (not in the Startup(STATE) save set); the "@ + consequence,
        )
    }
}

fn warn_reset(index: u32, consequence: &str) -> (r: Option<String>)
    ensures
        opt_text(r) == reset_warning(index, consequence@),
{
    if pcr_persists(index) {
        return None;
    }
    let mut s = String::new();
    s.append("warning: PCR ");
    push_decimal(&mut s, index as u64);
    s.append(" resets each boot (not in the Startup(STATE) save set); the ");
    s.append(consequence);
    assert(s@ =~= reset_warning(index, consequence@)->0);
    Some(s)
}

/// The warning where the agent is measured into a register that does not keep its value.
pub fn enroll_warning(index: u32) -> (r: Option<String>)
    ensures
        opt_text(r) == reset_warning(
            index,
            "agent measurement will not persist across invocations. Use a PCR in 0-15."@,
        ),
{
    warn_reset(
        index,
        "agent measurement will not persist across invocations. Use a PCR in 0-15.",
    )
}

/// The warning where a root is anchored in a register that does not keep its value.
pub fn checkpoint_warning(index: u32) -> (r: Option<String>)
    ensures
        opt_text(r) == reset_warning(
            index,
            "measurement anchor will not persist across invocations. Use a PCR in 0-15 (e.g. the default 14)."@,
        ),
{
    warn_reset(
        index,
        "measurement anchor will not persist across invocations. Use a PCR in 0-15 (e.g. the default 14).",
    )
}

// ---------------------------------------------------------------------------
// Kernel measurement lists
// ---------------------------------------------------------------------------

/// One line of the kernel's runtime measurement list.
#[derive(Debug)]
pub struct ImaEntry {
    pub pcr: String,
    pub template_hash: String,
    pub template: String,
    pub digest_alg: String,
    pub file_digest: String,
    pub filename: String,
}

pub ghost struct ImaView {
    pub pcr: Seq<char>,
    pub template_hash: Seq<char>,
    pub template: Seq<char>,
    pub digest_alg: Seq<char>,
    pub file_digest: Seq<char>,
    pub filename: Seq<char>,
}

impl View for ImaEntry {
    type V = ImaView;

    open spec fn view(&self) -> ImaView {
        ImaView {
            pcr: self.pcr@,
            template_hash: self.template_hash@,
            template: self.template@,
            digest_alg: self.digest_alg@,
            file_digest: self.file_digest@,
            filename: self.filename@,
        }
    }
}

/// The algorithm and the digest of `alg:digest`; of a bare digest the
/// algorithm is not known.
pub open spec fn tagged_digest(s: Seq<char>) -> (Seq<char>, Seq<char>) {
    let at = first_at(s, ':');
    if at < s.len() {
        (s.subrange(0, at), s.subrange(at + 1, s.len() as int))
    } else {
        ("unknown"@, s)
    }
}

/// What a line of the list says: register, template hash, template, digest,
/// and a file name that may hold spaces.
pub open spec fn ima_line(line: Seq<char>) -> Option<ImaView> {
    let f = pieces(line, Separator::White);
    if f.len() < 5 {
        None
    } else {
        Some(
            ImaView {
                pcr: f[0],
                template_hash: f[1],
                template: f[2],
                digest_alg: tagged_digest(f[3]).0,
                file_digest: tagged_digest(f[3]).1,
                filename: joined(f.subrange(4, f.len() as int), " "@),
            },
        )
    }
}

/// Reads one line of the kernel's runtime measurement list.
pub fn parse_ima_line(line: &str) -> (r: Option<ImaEntry>)
    ensures
        match r {
            Some(e) => ima_line(line@) == Some(e@),
            None => ima_line(line@) is None,
        },
{
    let f = split(line, Separator::White);
    assert(views(f@).len() == f@.len());
    if f.len() < 5 {
        return None;
    }
    let third = chars_of(f[3].as_str());
    let at: usize = find_char(&third, ':');
    let (digest_alg, file_digest) = if at < third.len() {
        (text_of(&third, 0, at), text_of(&third, at + 1, third.len()))
    } else {
        ("unknown".to_owned(), f[3].clone())
    };
    let mut rest: Vec<String> = Vec::new();
    let mut i: usize = 4;
    while i < f.len()
        invariant
            4 <= i <= f@.len(),
            views(rest@) == views(f@).subrange(4, i as int),
        decreases f@.len() - i,
    {
        let ghost before = views(rest@);
        rest.push(f[i].clone());
        assert(views(rest@) =~= before.push(views(f@)[i as int]));
        i += 1;
        assert(views(rest@) =~= views(f@).subrange(4, i as int));
    }
    let e = ImaEntry {
        pcr: f[0].clone(),
        template_hash: f[1].clone(),
        template: f[2].clone(),
        digest_alg,
        file_digest,
        filename: join(&rest, " "),
    };
    assert(views(f@)[0] == f@[0]@ && views(f@)[1] == f@[1]@ && views(f@)[2] == f@[2]@ && views(
        f@,
    )[3] == f@[3]@);
    Some(e)
}

/// The entries of the first `n` lines; a line that is no entry is passed over.
pub open spec fn ima_entries(lines: Seq<Seq<char>>, n: nat) -> Seq<ImaView>
    decreases n,
{
    if n == 0 {
        Seq::empty()
    } else {
        let before = ima_entries(lines, (n - 1) as nat);
        match ima_line(lines[n - 1]) {
            Some(e) => before.push(e),
            None => before,
        }
    }
}

/// The views of a list of entries.
pub open spec fn ima_views(s: Seq<ImaEntry>) -> Seq<ImaView> {
    s.map_values(|e: ImaEntry| e@)
}

/// Reads the kernel's runtime measurement list.
pub fn ima(contents: &str) -> (r: Vec<ImaEntry>)
    ensures
        ima_views(r@) == ima_entries(
            pieces(contents@, Separator::NewLine),
            pieces(contents@, Separator::NewLine).len(),
        ),
{
    let lines = split(contents, Separator::NewLine);
    let ghost all = pieces(contents@, Separator::NewLine);
    assert(views(lines@).len() == lines@.len());
    let mut r: Vec<ImaEntry> = Vec::new();
    let mut i: usize = 0;
    assert(ima_views(r@) =~= Seq::<ImaView>::empty());
    while i < lines.len()
        invariant
            i <= lines@.len(),
            views(lines@) == all,
            all.len() == lines@.len(),
            ima_views(r@) == ima_entries(all, i as nat),
        decreases lines@.len() - i,
    {
        let ghost before = ima_views(r@);
        assert(all[i as int] == lines@[i as int]@);
        match parse_ima_line(lines[i].as_str()) {
            Some(e) => {
                r.push(e);
                assert(ima_views(r@) =~= before.push(e@));
            },
            None => {},
        }
        i += 1;
    }
    r
}

/// The fields that are logged for an entry of the list.
pub open spec fn ima_fields(e: ImaView) -> Seq<FieldView> {
    seq![
        text_view("source"@, "ima"@),
        text_view("artifact_id"@, e.filename),
        text_view("kind"@, "ima"@),
        text_view("digest_alg"@, e.digest_alg),
        text_view("digest"@, e.file_digest),
        text_view("ima_pcr"@, e.pcr),
        text_view("template"@, e.template),
        text_view("template_hash"@, e.template_hash),
    ]
}

/// What is logged for an entry of the list.
pub fn ima_payload(e: &ImaEntry) -> (s: String)
    ensures
        s@ == json_object(ima_fields(e@)),
{
    let mut v: Vec<JsonField> = Vec::new();
    v.push(text_field("source", "ima"));
    v.push(text_field("artifact_id", e.filename.as_str()));
    v.push(text_field("kind", "ima"));
    v.push(text_field("digest_alg", e.digest_alg.as_str()));
    v.push(text_field("digest", e.file_digest.as_str()));
    v.push(text_field("ima_pcr", e.pcr.as_str()));
    v.push(text_field("template", e.template.as_str()));
    v.push(text_field("template_hash", e.template_hash.as_str()));
    assert(field_views(v@) =~= ima_fields(e@));
    json_text(&v)
}

/// The outcome of an ingestion as it is printed.
pub open spec fn ima_text(source: Seq<char>, ingested: u64, last_seqno: u64) -> Seq<char> {
    "ingested "@ + decimal(ingested as nat) + " IMA measurement(s) from "@ + source + "\n"@ + field(
        "  stream: "@,
        measurement_stream(),
    ) + field("  last seqno: "@, decimal(last_seqno as nat))
}

/// Prints the outcome of an ingestion.
pub fn ima_report(source: &str, ingested: u64, last_seqno: u64) -> (s: String)
    ensures
        s@ == ima_text(source@, ingested, last_seqno),
{
    let mut s = String::new();
    s.append("ingested ");
    push_decimal(&mut s, ingested);
    s.append(" IMA measurement(s) from ");
    s.append(source);
    s.append("\n");
    push_field(&mut s, "  stream: ", "measurement");
    push_number(&mut s, "  last seqno: ", last_seqno);
    assert(s@ =~= ima_text(source@, ingested, last_seqno));
    s
}

// ---------------------------------------------------------------------------
// Checkpoints
// ---------------------------------------------------------------------------

/// A sealed checkpoint as it is printed.
pub open spec fn checkpoint_text(
    seg: SegmentInfo,
    bank: Seq<char>,
    extended: Option<u32>,
) -> Seq<char> {
    "sealed measurement checkpoint\n"@ + field("  stream:      "@, measurement_stream())
        + "  segment:     "@ + decimal(seg.segment_id as nat) + " ["@ + decimal(
        seg.seq_start as nat,
    ) + ", "@ + decimal(seg.seq_end as nat) + "]\n"@ + field(
        "  merkle_root: "@,
        hex_text(seg.merkle_root@),
    ) + (match extended {
        Some(i) => "  anchored to: PCR "@ + bank + "["@ + decimal(i as nat) + "]\n"@,
        None => "  anchored to: (not extended into a PCR)\n"@,
    })
}

/// Prints a sealed checkpoint.
pub fn checkpoint(seg: &SegmentInfo, bank: &str, extended: Option<u32>) -> (s: String)
    ensures
        s@ == checkpoint_text(*seg, bank@, extended),
{
    let mut s = String::new();
    s.append("sealed measurement checkpoint\n");
    push_field(&mut s, "  stream:      ", "measurement");
    s.append("  segment:     ");
    push_decimal(&mut s, seg.segment_id);
    s.append(" [");
    push_decimal(&mut s, seg.seq_start);
    s.append(", ");
    push_decimal(&mut s, seg.seq_end);
    s.append("]\n");
    push_field(&mut s, "  merkle_root: ", hex_encode(seg.merkle_root.as_slice()).as_str());
    match extended {
        Some(i) => {
            s.append("  anchored to: PCR ");
            s.append(bank);
            s.append("[");
            push_decimal(&mut s, i as u64);
            s.append("]\n");
        },
        None => {
            s.append("  anchored to: (not extended into a PCR)\n");
        },
    }
    assert(s@ =~= checkpoint_text(*seg, bank@, extended));
    s
}

/// Prints a checkpoint that was signed with an identity.
pub fn sign(segment_id: u64, identity: &str, checkpoint_hash: &[u8], signature: &[u8]) -> (s: String)
    ensures
        s@ == signed_text(segment_id, identity@, checkpoint_hash@, signature@),
{
    crate::commands::audit::sign(segment_id, identity, checkpoint_hash, signature)
}

/// Prints the proof that a measurement is included under a sealed root.
pub fn verify(proof_found: &InclusionProof) -> (s: String)
    ensures
        s@ == proof_found.text(),
{
    proof_found.render_text()
}

/// Prints the sealed segments of the measurement stream.
pub fn list(rows: &Vec<SegmentInfo>) -> (s: String)
    ensures
        s@ == segments_text(measurement_stream(), rows@),
{
    crate::commands::audit::segments_list("measurement", rows)
}

// ---------------------------------------------------------------------------
// Rollback
// ---------------------------------------------------------------------------

/// The counter that is used where none is named.
pub fn counter_index(nv_index: Option<u32>) -> (r: u32)
    ensures
        r == (match nv_index {
            Some(i) => i,
            None => ANCHOR_COUNTER_NV_INDEX,
        }),
{
    match nv_index {
        Some(i) => i,
        None => ANCHOR_COUNTER_NV_INDEX,
    }
}

/// The log was cut: the live counter has gone past every recorded one.
pub open spec fn rolled_back(live: Option<u64>, recorded: Option<u64>) -> bool {
    match (live, recorded) {
        (Some(l), Some(m)) => l > m,
        _ => false,
    }
}

/// What is said of the two counters.
pub open spec fn rollback_detail(live: Option<u64>, recorded: Option<u64>) -> Seq<char> {
    match (live, recorded) {
        (Some(l), Some(m)) => if l > m {
            "live NV counter "@ + decimal(l as nat) + " exceeds the latest checkpoint counter "@
                + decimal(m as nat) + ": "@ + decimal((l - m) as nat)
                + " checkpoint(s) appear to have been removed"@
        } else {
            "live NV counter "@ + decimal(l as nat) + " matches the latest checkpoint counter "@
                + decimal(m as nat)
        },
        _ => "no anti-rollback counters recorded (sign with --anti-rollback to enable)"@,
    }
}

/// A counter, or a dash.
pub open spec fn counter_text(c: Option<u64>) -> Seq<char> {
    match c {
        Some(n) => decimal(n as nat),
        None => "-"@,
    }
}

/// The check as it is printed.
pub open spec fn rollback_text(index: u32, live: Option<u64>, recorded: Option<u64>) -> Seq<char> {
    "anti-rollback check\n"@ + field("  nv_index:           "@, hex32_text(index as int, true))
        + field("  live counter:       "@, counter_text(live)) + field(
        "  latest checkpoint:  "@,
        counter_text(recorded),
    ) + field(
        "  result: "@,
        if rolled_back(live, recorded) {
            "ROLLBACK DETECTED"@
        } else {
            "OK"@
        },
    ) + field("  "@, rollback_detail(live, recorded))
}

fn push_counter(out: &mut String, label: &str, c: Option<u64>)
    ensures
        final(out)@ == old(out)@ + field(label@, counter_text(c)),
{
    match c {
        Some(n) => push_number(out, label, n),
        None => push_field(out, label, "-"),
    }
}

/// Compares the live counter with the recorded ones: prints the outcome and
/// says whether the log was cut.
pub fn rollback_check(index: u32, live: Option<u64>, recorded: Option<u64>) -> (r: (
    String,
    Result<(), Failure>,
))
    ensures
        r.0@ == rollback_text(index, live, recorded),
        match r.1 {
            Ok(_) => !rolled_back(live, recorded),
            Err(e) => rolled_back(live, recorded) && e@ == "rollback detected"@,
        },
{
    let mut detail = String::new();
    let mut ok = true;
    match (live, recorded) {
        (Some(l), Some(m)) => {
            detail.append("live NV counter ");
            push_decimal(&mut detail, l);
            if l > m {
                ok = false;
                detail.append(" exceeds the latest checkpoint counter ");
                push_decimal(&mut detail, m);
                detail.append(": ");
                push_decimal(&mut detail, l - m);
                detail.append(" checkpoint(s) appear to have been removed");
            } else {
                detail.append(" matches the latest checkpoint counter ");
                push_decimal(&mut detail, m);
            }
        },
        _ => {
            detail.append(
                "no anti-rollback counters recorded (sign with --anti-rollback to enable)",
            );
        },
    }
    assert(detail@ =~= rollback_detail(live, recorded));
    let mut s = String::new();
    s.append("anti-rollback check\n");
    push_field(&mut s, "  nv_index:           ", hex32(index, true).as_str());
    push_counter(&mut s, "  live counter:       ", live);
    push_counter(&mut s, "  latest checkpoint:  ", recorded);
    push_field(
        &mut s,
        "  result: ",
        if ok {
            "OK"
        } else {
            "ROLLBACK DETECTED"
        },
    );
    push_field(&mut s, "  ", detail.as_str());
    assert(s@ =~= rollback_text(index, live, recorded));
    if ok {
        (s, Ok(()))
    } else {
        (s, Err(Failure::new("rollback detected")))
    }
}

/// While the live counter is the greatest recorded one nothing is reported;
/// once it has gone further without a record, the cut is.
pub proof fn rollback_is_detected(recorded: u64, steps: u64)
    requires
        recorded + steps <= u64::MAX,
    ensures
        rolled_back(Some((recorded + steps) as u64), Some(recorded)) == (steps > 0),
{
}

/// A counter as it is printed.
pub open spec fn anchor_text(index: u32, value: u64) -> Seq<char> {
    "anti-rollback counter\n"@ + field("  nv_index: "@, hex32_text(index as int, true)) + field(
        "  value:    "@,
        decimal(value as nat),
    )
}

/// Prints a counter that was advanced.
pub fn anchor_counter(index: u32, value: u64) -> (s: String)
    ensures
        s@ == anchor_text(index, value),
{
    let mut s = String::new();
    s.append("anti-rollback counter\n");
    push_field(&mut s, "  nv_index: ", hex32(index, true).as_str());
    push_number(&mut s, "  value:    ", value);
    assert(s@ =~= anchor_text(index, value));
    s
}

} // verus!
