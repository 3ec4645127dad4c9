//! The audit log in print.
use vstd::prelude::*;
use vstd::string::*;

use crate::model::{AuditEntry, EntryView};
use crate::store::{at_most, newest, MemoryStore};
use crate::table::ref_rows;
use crate::text::{
    cut_time, opt_str, pad_left, pad_right, push_padded_left, push_padded_right,
    signed_decimal, signed_decimal_text, to_the_second,
};

verus! {

/// An entry as it is printed.
pub open spec fn entry_line(e: EntryView) -> Seq<char> {
    "  "@ + to_the_second(e.timestamp) + " "@ + pad_left(signed_decimal(e.id as int), 4) + "  "@
        + pad_right(e.action, 20) + (match e.object_path {
        Some(p) => "  "@ + p,
        None => Seq::empty(),
    }) + "\n"@
}

/// The first `n` entries as they are printed.
pub open spec fn entry_lines(s: Seq<EntryView>, n: nat) -> Seq<char>
    decreases n,
{
    if n == 0 {
        Seq::empty()
    } else {
        entry_lines(s, (n - 1) as nat) + entry_line(s[n - 1])
    }
}

/// Entries as they are listed.
pub open spec fn listing(s: Seq<EntryView>) -> Seq<char> {
    if s.len() == 0 {
        "No audit log entries.\n"@
    } else {
        entry_lines(s, s.len())
    }
}

fn entry_text(e: &AuditEntry) -> (s: String)
    ensures
        s@ == entry_line(e@),
{
    let mut s = String::new();
    s.append("  ");
    s.append(cut_time(e.timestamp.as_str()).as_str());
    s.append(" ");
    push_padded_left(&mut s, signed_decimal_text(e.id).as_str(), 4);
    s.append("  ");
    push_padded_right(&mut s, e.action.as_str(), 20);
    match &e.object_path {
        Some(p) => {
            s.append("  ");
            s.append(p.as_str());
        },
        None => {},
    }
    s.append("\n");
    assert(s@ =~= entry_line(e@));
    s
}

/// Prints the newest entries that pass the filters, at most `limit` of them.
pub fn list(
    store: &MemoryStore,
    filter_object: Option<&str>,
    filter_action: Option<&str>,
    limit: usize,
) -> (s: String)
    ensures
        s@ == listing(
            at_most(
                newest(store@.audit_log, opt_str(filter_object), opt_str(filter_action)),
                limit as int,
            ),
        ),
{
    let entries = store.list_audit_log(filter_object, filter_action, limit);
    let ghost all = ref_rows(entries@);
    assert(all.len() == entries@.len());
    if entries.len() == 0 {
        return "No audit log entries.\n".to_owned();
    }
    let mut s = String::new();
    let mut i: usize = 0;
    assert(s@ =~= entry_lines(all, 0));
    while i < entries.len()
        invariant
            i <= entries@.len(),
            all == ref_rows(entries@),
            s@ == entry_lines(all, i as nat),
        decreases entries@.len() - i,
    {
        let e: &AuditEntry = entries[i];
        assert(all[i as int] == e@);
        let line = entry_text(e);
        s.append(line.as_str());
        i += 1;
        assert(s@ =~= entry_lines(all, i as nat));
    }
    s
}

/// Every entry that is listed was logged.
pub proof fn newest_are_logged(
    s: Seq<EntryView>,
    filter_object: Option<Seq<char>>,
    filter_action: Option<Seq<char>>,
)
    ensures
        forall|i: int|
            0 <= i < newest(s, filter_object, filter_action).len() ==> s.contains(
                #[trigger] newest(s, filter_object, filter_action)[i],
            ),
    decreases s.len(),
{
    if s.len() > 0 {
        let rest = s.drop_last();
        newest_are_logged(rest, filter_object, filter_action);
        let n = newest(s, filter_object, filter_action);
        let before = newest(rest, filter_object, filter_action);
        assert forall|i: int| 0 <= i < n.len() implies s.contains(#[trigger] n[i]) by {
            if crate::store::passes(s.last(), filter_object, filter_action) {
                if i == 0 {
                    assert(n[0] == s.last());
                } else {
                    assert(n[i] == before[i - 1]);
                    let k = choose|k: int| 0 <= k < rest.len() && rest[k] == before[i - 1];
                    assert(s[k] == n[i]);
                }
            } else {
                let k = choose|k: int| 0 <= k < rest.len() && rest[k] == before[i];
                assert(s[k] == n[i]);
            }
        }
    }
}

} // verus!
