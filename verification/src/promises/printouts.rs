//! What is printed of an operation holds the values that the operation is about.
use vstd::prelude::*;

use crate::commands::attest::{checkpoint_root, quote_at, quote_text, MeasurementCheckpoint};
use crate::commands::identity::rotate;
use crate::commands::key::{export_pub, export_text, public_key};
use crate::commands::measure::{extended_line, file};
use crate::commands::pcr::{baseline_lines, baseline_list, extend};
use crate::commands::repair::{
    icon, issue_text, issue_texts, issue_views, plan, scan, step_text, step_texts, Issue, IssueView,
};
use crate::diag::{labelled, Diagnostic};
use crate::failure::Failure;
use crate::hex::hex_text;
use crate::ids::uuid_form;
use crate::model::{Identity, PcrValue, QuoteData, TpmObject};
use crate::promises::keys::logs_once;
use crate::promises::listings::{found_between, found_in_left, found_in_right};
use crate::store::{baseline_names, MemoryStore};
use crate::table::lookup;
use crate::text::{contains, decimal, field, occurs_at, opt_str, yes_no};

verus! {

proof fn field_shows(label: Seq<char>, value: Seq<char>)
    ensures
        contains(field(label, value), value),
{
    found_between(label, value, "\n"@);
}

/// After an extension the digest that went in and the value that came out are
/// printed.
pub proof fn extension_shows_both_values(
    bank: &str,
    index: u32,
    digest: &Vec<u8>,
    after: &Vec<PcrValue>,
    s: String,
)
    requires
        call_ensures(extend, (bank, index, digest, after), s),
        after@.len() > 0,
    ensures
        contains(s@, hex_text(digest@)),
        contains(s@, hex_text(after@[0].digest@)),
        contains(s@, decimal(index as nat)),
        contains(s@, bank@),
{
    let a = "extended PCR "@ + bank@ + "["@;
    let head = a + decimal(index as nat) + "]\n"@;
    let put = field("  with:      "@, hex_text(digest@));
    let out = field("  new value: "@, hex_text(after@[0].digest@));
    found_between("extended PCR "@, bank@, "["@);
    found_in_left(a, decimal(index as nat), bank@);
    found_in_left(a + decimal(index as nat), "]\n"@, bank@);
    found_between(a, decimal(index as nat), "]\n"@);
    field_shows("  with:      "@, hex_text(digest@));
    field_shows("  new value: "@, hex_text(after@[0].digest@));
    found_in_left(head, put, bank@);
    found_in_left(head, put, decimal(index as nat));
    found_in_right(head, put, hex_text(digest@));
    found_in_left(head + put, out, bank@);
    found_in_left(head + put, out, decimal(index as nat));
    found_in_left(head + put, out, hex_text(digest@));
    found_in_right(head + put, out, hex_text(after@[0].digest@));
}

/// A quote in print shows its nonce, what it attests and its signature, and
/// making it is logged once under its key.
pub proof fn quote_shows_what_it_is(
    store: &mut MemoryStore,
    ak: &str,
    bank: &str,
    indices: &Vec<u32>,
    nonce: &[u8],
    q: &QuoteData,
    checkpoint: &Option<MeasurementCheckpoint>,
    output: Option<&str>,
    stamp: &str,
    s: String,
)
    requires
        call_ensures(
            quote_at,
            (store, ak, bank, indices, nonce, q, checkpoint, output, stamp),
            s,
        ),
    ensures
        contains(s@, hex_text(nonce@)),
        contains(s@, hex_text(q.attestation@)),
        contains(s@, hex_text(q.signature@)),
        logs_once(old(store)@, final(store)@, "quote.generate"@, Some(ak@), stamp@),
        final(store)@.objects == old(store)@.objects,
{
    assert(final(store)@.audit_log.drop_last() =~= old(store)@.audit_log);
    let head = "quote generated\n"@ + field("  ak:          "@, ak@) + field(
        "  PCR bank:    "@,
        bank@,
    ) + field("  PCRs:        "@, decimal(indices@.len()));
    let n = field("  nonce:       "@, hex_text(nonce@));
    let a = field("  attestation: "@, hex_text(q.attestation@));
    let g = field("  signature:   "@, hex_text(q.signature@));
    let root = match checkpoint_root(*checkpoint) {
        Some(r) => field("  meas. root:  "@, r),
        None => Seq::empty(),
    };
    let file = match opt_str(output) {
        Some(f) => field("  written to:  "@, f),
        None => Seq::empty(),
    };
    field_shows("  nonce:       "@, hex_text(nonce@));
    field_shows("  attestation: "@, hex_text(q.attestation@));
    field_shows("  signature:   "@, hex_text(q.signature@));
    found_in_right(head, n, hex_text(nonce@));
    found_in_left(head + n, a, hex_text(nonce@));
    found_in_right(head + n, a, hex_text(q.attestation@));
    found_in_left(head + n + a, g, hex_text(nonce@));
    found_in_left(head + n + a, g, hex_text(q.attestation@));
    found_in_right(head + n + a, g, hex_text(q.signature@));
    found_in_left(head + n + a + g, root, hex_text(nonce@));
    found_in_left(head + n + a + g, root, hex_text(q.attestation@));
    found_in_left(head + n + a + g, root, hex_text(q.signature@));
    found_in_left(head + n + a + g + root, file, hex_text(nonce@));
    found_in_left(head + n + a + g + root, file, hex_text(q.attestation@));
    found_in_left(head + n + a + g + root, file, hex_text(q.signature@));
    assert(s@ == quote_text(
        ak@,
        bank@,
        indices@.len(),
        nonce@,
        *q,
        checkpoint_root(*checkpoint),
        opt_str(output),
    ));
}

/// A measured file is printed with its name and its digest.
pub proof fn measurement_shows_the_digest(
    artifact: &str,
    kind: &str,
    seqno: u64,
    bank: &str,
    digest: &[u8],
    pcr: Option<u32>,
    s: String,
)
    requires
        call_ensures(file, (artifact, kind, seqno, bank, digest, pcr), s),
    ensures
        contains(s@, artifact@),
        contains(s@, hex_text(digest@)),
{
    let a = "measured "@ + artifact@ + " ("@;
    let b = a + kind@ + ")\n"@;
    let c = b + field("  seqno:  "@, decimal(seqno as nat)) + "  "@ + bank@ + ":  "@;
    let d = hex_text(digest@);
    let line = extended_line("  pcr:    "@, bank@, pcr);
    found_between("measured "@, artifact@, " ("@);
    found_in_left(a, kind@, artifact@);
    found_in_left(a + kind@, ")\n"@, artifact@);
    found_in_left(b, field("  seqno:  "@, decimal(seqno as nat)), artifact@);
    found_in_left(b + field("  seqno:  "@, decimal(seqno as nat)), "  "@, artifact@);
    found_in_left(b + field("  seqno:  "@, decimal(seqno as nat)) + "  "@, bank@, artifact@);
    found_in_left(
        b + field("  seqno:  "@, decimal(seqno as nat)) + "  "@ + bank@,
        ":  "@,
        artifact@,
    );
    found_in_left(c, d, artifact@);
    found_in_left(c + d, "\n"@, artifact@);
    found_in_left(c + d + "\n"@, line, artifact@);
    found_between(c, d, "\n"@);
    found_in_left(c + d + "\n"@, line, d);
}

/// A rotated identity is printed with its new key.
pub proof fn rotation_shows_the_new_key(i: &Identity, s: String)
    requires
        call_ensures(rotate, (i,), s),
    ensures
        contains(s@, uuid_form(i@.key_object_id)),
        contains(s@, i@.name),
        i@.rotated_from matches Some(r) ==> contains(s@, uuid_form(r)),
{
    let a = field("identity rotated: "@, i@.name);
    let b = field("  new key id:    "@, uuid_form(i@.key_object_id));
    let from = match i@.rotated_from {
        Some(r) => uuid_form(r),
        None => Seq::empty(),
    };
    let c = field("  rotated from:  "@, from);
    field_shows("identity rotated: "@, i@.name);
    field_shows("  new key id:    "@, uuid_form(i@.key_object_id));
    field_shows("  rotated from:  "@, from);
    found_in_left(a, b, i@.name);
    found_in_right(a, b, uuid_form(i@.key_object_id));
    found_in_left(a + b, c, i@.name);
    found_in_left(a + b, c, uuid_form(i@.key_object_id));
    found_in_right(a + b, c, from);
}

/// The raw form of a key's public part is its handle, in hexadecimal; a form
/// that is not known is refused.
pub proof fn raw_export_shows_the_handle(
    store: &MemoryStore,
    path: &str,
    form: &str,
    r: Result<String, Failure>,
)
    requires
        call_ensures(export_pub, (store, path, form), r),
    ensures
        r matches Ok(s) ==> lookup::<TpmObject>(store@.objects, path@) is Some && contains(
            s@,
            path@,
        ),
        form@ == "raw"@ ==> (r matches Ok(s) ==> (lookup::<TpmObject>(store@.objects, path@)
            matches Some(o) && (o.handle_blob matches Some(b) ==> contains(s@, hex_text(b))))),
        form@ != "raw"@ && form@ != "pem"@ && form@ != "der"@ ==> r is Err,
{
    reveal_strlit("raw");
    reveal_strlit("pem");
    reveal_strlit("der");
    assert("raw"@[0] != "pem"@[0] && "raw"@[0] != "der"@[0]);
    if let Ok(s) = r {
        let o = lookup::<TpmObject>(store@.objects, path@)->0;
        let a = field("path:       "@, path@);
        let b = field("algorithm:  "@, o.algorithm.text());
        let c = field("format:     "@, form@);
        let k = public_key(o, form@)->0;
        assert(s@ == export_text(path@, o, form@));
        field_shows("path:       "@, path@);
        found_in_left(a, b, path@);
        found_in_left(a + b, c, path@);
        found_in_left(a + b + c, "\n"@, path@);
        found_in_left(a + b + c + "\n"@, k, path@);
        found_in_left(a + b + c + "\n"@ + k, "\n"@, path@);
        found_between(a + b + c + "\n"@, k, "\n"@);
    }
}

proof fn names_are_shown(names: Seq<Seq<char>>, n: nat, i: int)
    requires
        0 <= i < n <= names.len(),
    ensures
        contains(baseline_lines(names, n), names[i]),
    decreases n,
{
    let before = baseline_lines(names, (n - 1) as nat);
    if i < n - 1 {
        names_are_shown(names, (n - 1) as nat, i);
        found_in_left(before, field("  "@, names[n - 1]), names[i]);
    } else {
        field_shows("  "@, names[i]);
        found_in_right(before, field("  "@, names[i]), names[i]);
    }
}

/// The list of baselines shows the name of each.
pub proof fn every_baseline_is_listed(store: &MemoryStore, s: String, i: int)
    requires
        call_ensures(baseline_list, (store,), s),
        0 <= i < baseline_names(store@.pcr_baselines).len(),
    ensures
        contains(s@, baseline_names(store@.pcr_baselines)[i]),
{
    let all = baseline_names(store@.pcr_baselines);
    names_are_shown(all, all.len(), i);
}

proof fn labelled_part_is_shown(label: Seq<char>, parts: Seq<Seq<char>>, n: nat, i: int)
    requires
        0 <= i < n <= parts.len(),
    ensures
        contains(labelled(label, parts, n), label + parts[i] + "\n"@),
    decreases n,
{
    let before = labelled(label, parts, (n - 1) as nat);
    let line = label + parts[i] + "\n"@;
    if i < n - 1 {
        labelled_part_is_shown(label, parts, (n - 1) as nat, i);
        found_in_left(before, label + parts[n - 1] + "\n"@, line);
    } else {
        found_between(before, line, Seq::empty());
    }
}

/// A diagnosis in print begins with its severity and its code, then says its
/// message; every cause, every piece of context and every suggestion has a line.
pub proof fn diagnosis_says_everything(d: &Diagnostic, s: String, i: int)
    requires
        call_ensures(Diagnostic::render_text, (d,), s),
    ensures
        contains(s@, d@.severity.text() + "["@ + d@.code.text() + "]: "@ + d@.message + "\n"@),
        0 <= i < d@.causes.len() ==> contains(s@, "  cause: "@ + d@.causes[i] + "\n"@),
        0 <= i < d@.context.len() ==> contains(s@, "  "@ + d@.context[i] + "\n"@),
        0 <= i < d@.suggestions.len() ==> contains(
            s@,
            "  suggestion: "@ + d@.suggestions[i] + "\n"@,
        ),
{
    let head = d@.severity.text() + "["@ + d@.code.text() + "]: "@ + d@.message + "\n"@;
    let causes = labelled("  cause: "@, d@.causes, d@.causes.len());
    let context = labelled("  "@, d@.context, d@.context.len());
    let hints = labelled("  suggestion: "@, d@.suggestions, d@.suggestions.len());
    found_between(Seq::empty(), head, causes);
    found_in_left(head + causes, context, head);
    found_in_left(head + causes + context, hints, head);
    if 0 <= i < d@.causes.len() {
        let line = "  cause: "@ + d@.causes[i] + "\n"@;
        labelled_part_is_shown("  cause: "@, d@.causes, d@.causes.len(), i);
        found_in_right(head, causes, line);
        found_in_left(head + causes, context, line);
        found_in_left(head + causes + context, hints, line);
    }
    if 0 <= i < d@.context.len() {
        let line = "  "@ + d@.context[i] + "\n"@;
        labelled_part_is_shown("  "@, d@.context, d@.context.len(), i);
        found_in_right(head + causes, context, line);
        found_in_left(head + causes + context, hints, line);
    }
    if 0 <= i < d@.suggestions.len() {
        let line = "  suggestion: "@ + d@.suggestions[i] + "\n"@;
        labelled_part_is_shown("  suggestion: "@, d@.suggestions, d@.suggestions.len(), i);
        found_in_right(head + causes + context, hints, line);
    }
}

/// What is added to a diagnosis comes last among its kind, and the rest stays.
pub proof fn additions_come_last(
    d: Diagnostic,
    text: &str,
    value: &str,
    caused: Diagnostic,
    hinted: Diagnostic,
    placed: Diagnostic,
)
    requires
        call_ensures(Diagnostic::with_cause, (d, text), caused),
        call_ensures(Diagnostic::with_suggestion, (d, text), hinted),
        call_ensures(Diagnostic::with_context, (d, text, value), placed),
    ensures
        caused@.causes == d@.causes.push(text@) && caused@.suggestions == d@.suggestions
            && caused@.message == d@.message && caused@.code == d@.code,
        hinted@.suggestions == d@.suggestions.push(text@) && hinted@.causes == d@.causes
            && hinted@.message == d@.message && hinted@.code == d@.code,
        placed@.context == d@.context.push(text@ + ": "@ + value@) && placed@.causes == d@.causes
            && placed@.message == d@.message && placed@.code == d@.code,
{
}

proof fn issues_come_with_messages(all: Seq<IssueView>, n: nat, i: int)
    requires
        0 <= i < n <= all.len(),
    ensures
        contains(issue_texts(all, n), issue_text(all[i])),
        contains(step_texts(all, n), step_text((i + 1) as nat, all[i])),
    decreases n,
{
    let before = issue_texts(all, (n - 1) as nat);
    let steps = step_texts(all, (n - 1) as nat);
    if i < n - 1 {
        issues_come_with_messages(all, (n - 1) as nat, i);
        found_in_left(before, issue_text(all[n - 1]), issue_text(all[i]));
        found_in_left(steps, step_text(n, all[n - 1]), step_text((i + 1) as nat, all[i]));
    } else {
        found_between(before, issue_text(all[i]), Seq::empty());
        found_between(steps, step_text(n, all[i]), Seq::empty());
    }
}

proof fn found_within(all: Seq<char>, part: Seq<char>, piece: Seq<char>)
    requires
        contains(all, part),
        contains(part, piece),
    ensures
        contains(all, piece),
{
    let a = choose|at: int| occurs_at(all, part, at);
    let b = choose|at: int| occurs_at(part, piece, at);
    assert(all.subrange(a + b, a + b + piece.len()) =~= part.subrange(b, b + piece.len()));
    assert(occurs_at(all, piece, a + b));
}

/// The report of a scan says of each issue what is wrong and what mends it; the
/// plan says what mends it.
pub proof fn every_issue_is_reported(issues: &Vec<Issue>, s: String, p: String, i: int)
    requires
        call_ensures(scan, (issues,), s),
        call_ensures(plan, (issues,), p),
        0 <= i < issues@.len(),
    ensures
        contains(s@, issues@[i]@.code),
        contains(s@, issues@[i]@.message),
        contains(s@, issues@[i]@.remediation),
        contains(p@, issues@[i]@.remediation),
{
    let all = issue_views(issues@);
    let x = all[i];
    assert(all.len() == issues@.len() && x == issues@[i]@);
    issues_come_with_messages(all, all.len(), i);
    let shown = issue_text(x);
    let mark = "  ["@ + icon(x.severity) + "] ["@;
    let head = mark + x.code + "] "@;
    let said = head + x.message + "\n"@;
    let object = match x.object {
        Some(o) => field("         object: "@, o),
        None => Seq::empty(),
    };
    let fix = field("         fix: "@, x.remediation);
    found_between(mark, x.code, "] "@);
    found_in_left(head, x.message, x.code);
    found_in_left(head + x.message, "\n"@, x.code);
    found_between(head, x.message, "\n"@);
    found_in_left(said, object, x.code);
    found_in_left(said, object, x.message);
    found_in_left(said + object, fix, x.code);
    found_in_left(said + object, fix, x.message);
    field_shows("         fix: "@, x.remediation);
    found_in_right(said + object, fix, x.remediation);
    found_in_left(said + object + fix, "\n"@, x.code);
    found_in_left(said + object + fix, "\n"@, x.message);
    found_in_left(said + object + fix, "\n"@, x.remediation);
    let before = "Scan complete. "@ + decimal(all.len()) + " issue(s) found:\n\n"@;
    found_in_right(before, issue_texts(all, all.len()), shown);
    found_within(s@, shown, x.code);
    found_within(s@, shown, x.message);
    found_within(s@, shown, x.remediation);
    let step = step_text((i + 1) as nat, x);
    let number = "  "@ + decimal((i + 1) as nat) + ". "@;
    let target = match x.object {
        Some(o) => field("     target: "@, o),
        None => Seq::empty(),
    };
    let back = field("     reversible: "@, yes_no(x.reversible));
    found_between(number, x.remediation, "\n"@);
    found_in_left(number + x.remediation + "\n"@, target, x.remediation);
    found_in_left(number + x.remediation + "\n"@ + target, back, x.remediation);
    found_in_left(number + x.remediation + "\n"@ + target + back, "\n"@, x.remediation);
    let start = "Repair plan ("@ + decimal(all.len()) + " step(s)):\n\n"@;
    found_in_right(start, step_texts(all, all.len()), step);
    found_within(p@, step, x.remediation);
}

} // verus!
