//! What is listed: nothing is left out, and each entry says what it is about.
use vstd::prelude::*;

use crate::commands::audit::{
    segment_lines, segments_list, stream_lines, streams_list, witness_latest, witness_lines,
    witness_list, SegmentInfo, StreamRow, WitnessLogRow,
};
use crate::commands::common::{objects_of, ObjectClass};
use crate::commands::identity::{summaries, summary};
use crate::commands::log::{entry_line, entry_lines};
use crate::commands::pcr::{value_line, value_lines};
use crate::commands::policy::{policy_entries, policy_entry, rule_lines, RuleStyle};
use crate::grid::{cells_text, column, row_text, rows_text, table_text, widest};
use crate::hex::hex_text;
use crate::model::{
    AuditEntry, EntryView, Identity, IdentityView, PcrValue, Policy, PolicyView, TpmObject,
};
use crate::store::MemoryStore;
use crate::table::{ref_rows, sorted, sorted_is_ordered};
use crate::text::{
    contains, decimal, field, occurs_at, pad_left, pad_right, signed_decimal, spaces, to_the_second,
};

verus! {

// ---------------------------------------------------------------------------
// Finding a text in a text
// ---------------------------------------------------------------------------

pub(crate) proof fn found_in_left(a: Seq<char>, b: Seq<char>, part: Seq<char>)
    requires
        contains(a, part),
    ensures
        contains(a + b, part),
{
    let at = choose|at: int| occurs_at(a, part, at);
    assert((a + b).subrange(at, at + part.len()) =~= a.subrange(at, at + part.len()));
    assert(occurs_at(a + b, part, at));
}

pub(crate) proof fn found_in_right(a: Seq<char>, b: Seq<char>, part: Seq<char>)
    requires
        contains(b, part),
    ensures
        contains(a + b, part),
{
    let at = choose|at: int| occurs_at(b, part, at);
    assert((a + b).subrange(a.len() + at, a.len() + at + part.len()) =~= b.subrange(
        at,
        at + part.len(),
    ));
    assert(occurs_at(a + b, part, a.len() + at));
}

pub(crate) proof fn found_in_itself(part: Seq<char>)
    ensures
        contains(part, part),
{
    assert(part.subrange(0, part.len() as int) =~= part);
    assert(occurs_at(part, part, 0));
}

/// What stands between two texts is found.
pub(crate) proof fn found_between(a: Seq<char>, part: Seq<char>, b: Seq<char>)
    ensures
        contains(a + part + b, part),
        contains(a + part, part),
        contains(part + b, part),
{
    found_in_itself(part);
    found_in_right(a, part, part);
    found_in_left(a + part, b, part);
    found_in_left(part, b, part);
}

/// Texts put together one after the other are put together in one.
proof fn together(a: Seq<char>, b: Seq<char>, c: Seq<char>, d: Seq<char>, e: Seq<char>)
    ensures
        a + b + c + d + e == a + (b + c + d + e),
{
    assert(a + b + c + d + e =~= a + (b + c + d + e));
}

// ---------------------------------------------------------------------------
// Tables
// ---------------------------------------------------------------------------

proof fn row_shows_its_cells(cells: Seq<Seq<char>>, widths: Seq<usize>, n: nat, i: int)
    requires
        0 <= i < n <= cells.len(),
    ensures
        contains(cells_text(cells, widths, n), cells[i]),
    decreases n,
{
    let before = if n == 1 {
        Seq::empty()
    } else {
        cells_text(cells, widths, (n - 1) as nat) + "  "@
    };
    let cell = if n - 1 < widths.len() {
        pad_right(cells[n - 1], widths[n - 1] as int)
    } else {
        cells[n - 1]
    };
    if i < n - 1 {
        row_shows_its_cells(cells, widths, (n - 1) as nat, i);
        found_in_left(cells_text(cells, widths, (n - 1) as nat), "  "@, cells[i]);
        found_in_left(before, cell, cells[i]);
    } else {
        found_in_itself(cells[i]);
        if n - 1 < widths.len() {
            found_in_left(
                cells[i],
                spaces(widths[n - 1] as int - cells[i].len()),
                cells[i],
            );
        }
        found_in_right(before, cell, cells[i]);
    }
}

proof fn rows_show_their_cells(
    rows: Seq<Seq<Seq<char>>>,
    widths: Seq<usize>,
    n: nat,
    r: int,
    c: int,
)
    requires
        0 <= r < n <= rows.len(),
        0 <= c < rows[r].len(),
    ensures
        contains(rows_text(rows, widths, n), rows[r][c]),
    decreases n,
{
    let before = rows_text(rows, widths, (n - 1) as nat);
    if r < n - 1 {
        rows_show_their_cells(rows, widths, (n - 1) as nat, r, c);
        found_in_left(before, row_text(rows[n - 1], widths), rows[r][c]);
    } else {
        row_shows_its_cells(rows[r], widths, rows[r].len(), c);
        found_in_left(cells_text(rows[r], widths, rows[r].len()), "\n"@, rows[r][c]);
        found_in_right(before, row_text(rows[r], widths), rows[r][c]);
    }
}

proof fn table_shows_its_cells(
    head: Seq<Seq<char>>,
    rows: Seq<Seq<Seq<char>>>,
    widths: Seq<usize>,
    r: int,
    c: int,
)
    requires
        0 <= r < rows.len(),
        0 <= c < rows[r].len(),
    ensures
        contains(table_text(head, rows, widths), rows[r][c]),
{
    rows_show_their_cells(rows, widths, rows.len(), r, c);
    found_in_right(row_text(head, widths), rows_text(rows, widths, rows.len()), rows[r][c]);
}

/// The list of keys shows the path and the algorithm of every key.
pub proof fn every_key_is_listed(store: &MemoryStore, keys: Vec<&TpmObject>, s: String, i: int)
    requires
        call_ensures(objects_of, (store, ObjectClass::Key), keys),
        call_ensures(crate::commands::key::list, (store,), s),
        0 <= i < keys@.len(),
    ensures
        contains(s@, keys@[i]@.path),
        contains(s@, keys@[i]@.algorithm.text()),
{
    let all = ref_rows(keys@);
    let rows = Seq::new(all.len(), |k: int| crate::commands::key::key_cells(all[k]));
    let widths = seq![widest(column(rows, 0), all.len()), 15usize];
    let head = seq!["PATH"@, "ALGORITHM"@, "CREATED"@];
    assert(s@ == table_text(head, rows, widths));
    table_shows_its_cells(head, rows, widths, i, 0);
    table_shows_its_cells(head, rows, widths, i, 1);
    assert(rows[i][0] == all[i].path && rows[i][1] == all[i].algorithm.text());
}

/// The list of secrets shows the path of every secret.
pub proof fn every_secret_is_listed(
    store: &MemoryStore,
    secrets: Vec<&TpmObject>,
    s: String,
    i: int,
)
    requires
        call_ensures(objects_of, (store, ObjectClass::Secret), secrets),
        call_ensures(crate::commands::secret::list, (store,), s),
        0 <= i < secrets@.len(),
    ensures
        contains(s@, secrets@[i]@.path),
{
    let all = ref_rows(secrets@);
    let rows = Seq::new(all.len(), |k: int| crate::commands::secret::secret_cells(all[k]));
    let widths = seq![
        widest(column(rows, 0), all.len()),
        10usize,
        8usize,
    ];
    let head = seq!["PATH"@, "SIZE"@, "POLICY"@, "CREATED"@];
    assert(s@ == table_text(head, rows, widths));
    table_shows_its_cells(head, rows, widths, i, 0);
    assert(rows[i][0] == all[i].path);
}

/// The list of objects shows the path, the kind and the algorithm of every
/// object.
pub proof fn every_object_is_listed(store: &MemoryStore, s: String, i: int)
    requires
        call_ensures(crate::commands::object::list, (store,), s),
        0 <= i < sorted::<TpmObject>(store@.objects).len(),
    ensures
        ({
            let o = sorted::<TpmObject>(store@.objects)[i];
            contains(s@, o.path) && contains(s@, o.kind.text()) && contains(s@, o.algorithm.text())
        }),
{
    let all = sorted::<TpmObject>(store@.objects);
    let rows = Seq::new(all.len(), |k: int| crate::commands::object::object_cells(all[k]));
    let widths = seq![
        widest(column(rows, 0), all.len()),
        widest(column(rows, 1), all.len()),
        15usize,
        8usize,
    ];
    let head = seq!["PATH"@, "KIND"@, "ALGORITHM"@, "POLICY"@, "CREATED"@];
    assert(s@ == table_text(head, rows, widths));
    table_shows_its_cells(head, rows, widths, i, 0);
    table_shows_its_cells(head, rows, widths, i, 1);
    table_shows_its_cells(head, rows, widths, i, 2);
    assert(rows[i][0] == all[i].path && rows[i][1] == all[i].kind.text() && rows[i][2]
        == all[i].algorithm.text());
}

// ---------------------------------------------------------------------------
// Line by line
// ---------------------------------------------------------------------------

proof fn policies_come_with_names(all: Seq<PolicyView>, n: nat, i: int)
    requires
        0 <= i < n <= all.len(),
    ensures
        contains(policy_entries(all, n), all[i].name),
    decreases n,
{
    let before = policy_entries(all, (n - 1) as nat);
    if i < n - 1 {
        policies_come_with_names(all, (n - 1) as nat, i);
        found_in_left(before, policy_entry(all[n - 1]), all[i].name);
    } else {
        let p = all[i];
        found_between("  "@, p.name, "\n"@);
        found_in_left(
            field("  "@, p.name),
            rule_lines("    - "@, p.rules, RuleStyle::Short, p.rules.len()),
            p.name,
        );
        found_in_right(before, policy_entry(p), p.name);
    }
}

/// The list of policies shows every policy.
pub proof fn every_policy_is_listed(store: &MemoryStore, s: String, i: int)
    requires
        call_ensures(crate::commands::policy::list, (store,), s),
        0 <= i < sorted::<Policy>(store@.policies).len(),
    ensures
        contains(s@, sorted::<Policy>(store@.policies)[i].name),
{
    let all = sorted::<Policy>(store@.policies);
    policies_come_with_names(all, all.len(), i);
}

proof fn identities_come_with_names(all: Seq<IdentityView>, n: nat, i: int)
    requires
        0 <= i < n <= all.len(),
    ensures
        contains(summaries(all, n), all[i].name),
        contains(summaries(all, n), all[i].usage.text()),
    decreases n,
{
    let before = summaries(all, (n - 1) as nat);
    let d = all[i];
    if i < n - 1 {
        identities_come_with_names(all, (n - 1) as nat, i);
        found_in_left(before, summary(all[n - 1]), d.name);
        found_in_left(before, summary(all[n - 1]), d.usage.text());
    } else {
        let rest = match d.subject {
            Some(t) => field("    subject: "@, t),
            None => Seq::empty(),
        };
        found_between("  "@, d.name, " ["@);
        found_in_left("  "@ + d.name + " ["@, d.usage.text(), d.name);
        found_in_left("  "@ + d.name + " ["@ + d.usage.text(), "]\n"@, d.name);
        found_in_left("  "@ + d.name + " ["@ + d.usage.text() + "]\n"@, rest, d.name);
        found_between("  "@ + d.name + " ["@, d.usage.text(), "]\n"@);
        found_in_left("  "@ + d.name + " ["@ + d.usage.text() + "]\n"@, rest, d.usage.text());
        found_in_right(before, summary(d), d.name);
        found_in_right(before, summary(d), d.usage.text());
    }
}

/// The list of identities shows every identity and what it is used for.
pub proof fn every_identity_is_listed(store: &MemoryStore, s: String, i: int)
    requires
        call_ensures(crate::commands::identity::list, (store,), s),
        0 <= i < store@.identities.len(),
    ensures
        ({
            let d = sorted::<Identity>(store@.identities)[i];
            contains(s@, d.name) && contains(s@, d.usage.text())
        }),
{
    sorted_is_ordered::<Identity>(store@.identities);
    let all = sorted::<Identity>(store@.identities);
    identities_come_with_names(all, all.len(), i);
}

proof fn registers_come_with_values(all: Seq<PcrValue>, n: nat, i: int)
    requires
        0 <= i < n <= all.len(),
    ensures
        contains(
            value_lines(all, n),
            pad_left(decimal(all[i].index as nat), 2) + "  "@ + hex_text(all[i].digest@) + "\n"@,
        ),
    decreases n,
{
    let before = value_lines(all, (n - 1) as nat);
    let shown = pad_left(decimal(all[i].index as nat), 2) + "  "@ + hex_text(all[i].digest@)
        + "\n"@;
    if i < n - 1 {
        registers_come_with_values(all, (n - 1) as nat, i);
        found_in_left(before, value_line(all[n - 1]), shown);
    } else {
        found_in_itself(shown);
        found_in_right("  "@, shown, shown);
        together(
            "  "@,
            pad_left(decimal(all[i].index as nat), 2),
            "  "@,
            hex_text(all[i].digest@),
            "\n"@,
        );
        assert("  "@ + shown == value_line(all[i]));
        found_in_right(before, value_line(all[i]), shown);
    }
}

/// Every register that was read is shown, its number right before its value.
pub proof fn every_register_is_shown(bank: &str, values: &Vec<PcrValue>, s: String, i: int)
    requires
        call_ensures(crate::commands::pcr::show, (bank, values), s),
        0 <= i < values@.len(),
    ensures
        contains(
            s@,
            pad_left(decimal(values@[i].index as nat), 2) + "  "@ + hex_text(values@[i].digest@)
                + "\n"@,
        ),
        contains(s@, bank@),
{
    registers_come_with_values(values@, values@.len(), i);
    let head = "PCR bank: "@ + bank@ + "\n\n"@;
    found_in_right(
        head,
        value_lines(values@, values@.len()),
        pad_left(decimal(values@[i].index as nat), 2) + "  "@ + hex_text(values@[i].digest@)
            + "\n"@,
    );
    found_between("PCR bank: "@, bank@, "\n\n"@);
    found_in_left(head, value_lines(values@, values@.len()), bank@);
}

proof fn entries_come_with_actions(all: Seq<EntryView>, n: nat, i: int)
    requires
        0 <= i < n <= all.len(),
    ensures
        contains(entry_lines(all, n), all[i].action),
        all[i].object_path matches Some(p) ==> contains(entry_lines(all, n), p),
    decreases n,
{
    let before = entry_lines(all, (n - 1) as nat);
    let e = all[i];
    if i < n - 1 {
        entries_come_with_actions(all, (n - 1) as nat, i);
        found_in_left(before, entry_line(all[n - 1]), e.action);
        if let Some(p) = e.object_path {
            found_in_left(before, entry_line(all[n - 1]), p);
        }
    } else {
        let head = "  "@ + to_the_second(e.timestamp) + " "@ + pad_left(
            signed_decimal(e.id as int),
            4,
        ) + "  "@;
        let act = pad_right(e.action, 20);
        let rest = match e.object_path {
            Some(p) => "  "@ + p,
            None => Seq::empty(),
        };
        found_between(Seq::empty(), e.action, spaces(20 - e.action.len()));
        found_in_right(head, act, e.action);
        found_in_left(head + act, rest, e.action);
        found_in_left(head + act + rest, "\n"@, e.action);
        found_in_right(before, entry_line(e), e.action);
        if let Some(p) = e.object_path {
            found_between("  "@, p, "\n"@);
            found_in_right(head + act, rest, p);
            found_in_left(head + act + rest, "\n"@, p);
            found_in_right(before, entry_line(e), p);
        }
    }
}

/// The log in print shows the action and the object of every entry that the
/// store gives for the same filters and the same limit.
pub proof fn every_entry_is_shown(
    store: &MemoryStore,
    object: Option<&str>,
    action: Option<&str>,
    limit: usize,
    entries: Vec<&AuditEntry>,
    s: String,
    i: int,
)
    requires
        call_ensures(MemoryStore::list_audit_log, (store, object, action, limit), entries),
        call_ensures(crate::commands::log::list, (store, object, action, limit), s),
        0 <= i < entries@.len(),
    ensures
        contains(s@, entries@[i]@.action),
        entries@[i]@.object_path matches Some(p) ==> contains(s@, p),
{
    let all = ref_rows(entries@);
    assert(s@ == crate::commands::log::listing(all));
    entries_come_with_actions(all, all.len(), i);
}

proof fn streams_come_with_tiers(all: Seq<StreamRow>, n: nat, i: int)
    requires
        0 <= i < n <= all.len(),
    ensures
        contains(stream_lines(all, n), all[i].name@),
        contains(stream_lines(all, n), all[i].tier@),
    decreases n,
{
    let before = stream_lines(all, (n - 1) as nat);
    let r = all[i];
    if i < n - 1 {
        streams_come_with_tiers(all, (n - 1) as nat, i);
        found_in_left(before, all[n - 1].line(), r.name@);
        found_in_left(before, all[n - 1].line(), r.tier@);
    } else {
        let name = "  "@ + pad_right(r.name@, 20) + " ["@;
        let tier = name + r.tier@ + "]"@;
        let mark = if r.deprecated_at is Some {
            " (deprecated)"@
        } else {
            ""@
        };
        let text = match r.description {
            Some(d) => " — "@ + d@,
            None => Seq::empty(),
        };
        found_between(Seq::empty(), r.name@, spaces(20 - r.name@.len()));
        found_in_right("  "@, pad_right(r.name@, 20), r.name@);
        found_in_left("  "@ + pad_right(r.name@, 20), " ["@, r.name@);
        found_in_left(name, r.tier@, r.name@);
        found_in_left(name + r.tier@, "]"@, r.name@);
        found_between(name, r.tier@, "]"@);
        found_in_left(tier, mark, r.name@);
        found_in_left(tier, mark, r.tier@);
        found_in_left(tier + mark, text, r.name@);
        found_in_left(tier + mark, text, r.tier@);
        found_in_left(tier + mark + text, "\n"@, r.name@);
        found_in_left(tier + mark + text, "\n"@, r.tier@);
        found_in_right(before, r.line(), r.name@);
        found_in_right(before, r.line(), r.tier@);
    }
}

/// The list of streams shows every stream with its tier.
pub proof fn every_stream_is_listed(rows: &Vec<StreamRow>, s: String, i: int)
    requires
        call_ensures(streams_list, (rows,), s),
        0 <= i < rows@.len(),
    ensures
        contains(s@, rows@[i].name@),
        contains(s@, rows@[i].tier@),
{
    streams_come_with_tiers(rows@, rows@.len(), i);
}

/// The list of a stream's segments shows the number and the range of each.
pub proof fn every_segment_is_listed(stream: &str, rows: &Vec<SegmentInfo>, s: String, i: int)
    requires
        call_ensures(segments_list, (stream, rows), s),
        0 <= i < rows@.len(),
    ensures
        contains(
            s@,
            "  segment "@ + decimal(rows@[i].segment_id as nat) + ": seqs ["@ + decimal(
                rows@[i].seq_start as nat,
            ) + ", "@ + decimal(rows@[i].seq_end as nat) + "] root="@,
        ),
{
    let r = rows@[i];
    let root = hex_text(r.merkle_root@);
    let front = "  segment "@ + decimal(r.segment_id as nat) + ": seqs ["@ + decimal(
        r.seq_start as nat,
    ) + ", "@ + decimal(r.seq_end as nat) + "] root="@;
    let signed = if r.signature@.len() > 0 {
        "true"@
    } else {
        "false"@
    };
    found_between(Seq::empty(), front, root.subrange(0, 8));
    let a = front + root.subrange(0, 8);
    found_in_left(a, "..."@, front);
    found_in_left(a + "..."@, root.subrange(56, 64), front);
    found_in_left(a + "..."@ + root.subrange(56, 64), " signed="@, front);
    found_in_left(a + "..."@ + root.subrange(56, 64) + " signed="@, signed, front);
    found_in_left(a + "..."@ + root.subrange(56, 64) + " signed="@ + signed, "\n"@, front);
    lines_within(rows@, rows@.len(), i, front);
    found_in_right("stream "@ + stream@ + ":\n"@, segment_lines(rows@, rows@.len()), front);
}

proof fn lines_within(all: Seq<SegmentInfo>, n: nat, i: int, part: Seq<char>)
    requires
        0 <= i < n <= all.len(),
        contains(all[i].line(), part),
    ensures
        contains(segment_lines(all, n), part),
    decreases n,
{
    let before = segment_lines(all, (n - 1) as nat);
    if i < n - 1 {
        lines_within(all, (n - 1) as nat, i, part);
        found_in_left(before, all[n - 1].line(), part);
    } else {
        found_in_right(before, all[i].line(), part);
    }
}

proof fn receipts_come_with_streams(all: Seq<WitnessLogRow>, n: nat, i: int)
    requires
        0 <= i < n <= all.len(),
    ensures
        contains(witness_lines(all, n), all[i].text()),
    decreases n,
{
    let before = witness_lines(all, (n - 1) as nat);
    if i < n - 1 {
        receipts_come_with_streams(all, (n - 1) as nat, i);
        found_in_left(before, all[n - 1].text(), all[i].text());
    } else {
        found_between(before, all[i].text(), Seq::empty());
    }
}

/// The list of receipts shows each as it is shown alone.
pub proof fn every_receipt_is_listed(
    rows: &Vec<WitnessLogRow>,
    s: String,
    i: int,
    stream: &str,
    row: &WitnessLogRow,
    alone: String,
)
    requires
        call_ensures(witness_list, (rows,), s),
        0 <= i < rows@.len(),
        *row == rows@[i],
        call_ensures(witness_latest, (stream, Some(row)), alone),
    ensures
        contains(s@, alone@),
{
    receipts_come_with_streams(rows@, rows@.len(), i);
}

} // verus!
