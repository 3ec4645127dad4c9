//! Platform configuration registers: reading, extending and baselines.
use vstd::prelude::*;
use vstd::string::*;
use vstd::utf8::*;

use crate::clock::now_stamp;
use crate::failure::Failure;
use crate::hex::{hex_bytes, hex_decode, hex_encode, hex_text, HexError};
use crate::json::{
    array_text, as_number, json_array, json_list, json_member, json_number, json_object,
    list_items, member, member_text, number_field, number_view, object2, object3, object_text,
    text_field, text_member, text_view, FieldView,
};
use crate::model::{BaselineView, PcrBaseline, PcrValue};
use crate::store::{baseline_names, MemoryStore, StoreState};
use crate::table::{lookup, without};
use crate::text::{
    decimal, decimal_text, field, pad_left, push_decimal, push_field, push_number,
    push_padded_left, same, trimmed, views,
};

verus! {

// ---------------------------------------------------------------------------
// Reading
// ---------------------------------------------------------------------------

/// A register in the list.
pub open spec fn value_line(v: PcrValue) -> Seq<char> {
    "  "@ + pad_left(decimal(v.index as nat), 2) + "  "@ + hex_text(v.digest@) + "\n"@
}

/// The first `n` registers in the list.
pub open spec fn value_lines(s: Seq<PcrValue>, n: nat) -> Seq<char>
    decreases n,
{
    if n == 0 {
        Seq::empty()
    } else {
        value_lines(s, (n - 1) as nat) + value_line(s[n - 1])
    }
}

fn value_text(v: &PcrValue) -> (s: String)
    ensures
        s@ == value_line(*v),
{
    let mut s = String::new();
    s.append("  ");
    push_padded_left(&mut s, decimal_text(v.index as u64).as_str(), 2);
    s.append("  ");
    s.append(hex_encode(v.digest.as_slice()).as_str());
    s.append("\n");
    assert(s@ =~= value_line(*v));
    s
}

/// Prints the values that the TPM gave.
pub fn show(bank: &str, values: &Vec<PcrValue>) -> (s: String)
    ensures
        s@ == "PCR bank: "@ + bank@ + "\n\n"@ + value_lines(values@, values@.len()),
{
    let mut s = String::new();
    s.append("PCR bank: ");
    s.append(bank);
    s.append("\n\n");
    let ghost start = s@;
    let mut i: usize = 0;
    assert(s@ =~= start + value_lines(values@, 0));
    while i < values.len()
        invariant
            i <= values@.len(),
            s@ == start + value_lines(values@, i as nat),
        decreases values@.len() - i,
    {
        let line = value_text(&values[i]);
        s.append(line.as_str());
        i += 1;
        assert(s@ =~= start + value_lines(values@, i as nat));
    }
    assert(s@ =~= "PCR bank: "@ + bank@ + "\n\n"@ + value_lines(values@, values@.len()));
    s
}

// ---------------------------------------------------------------------------
// Extending
// ---------------------------------------------------------------------------

/// Where the digest for an extension comes from.
#[derive(Debug)]
pub enum ExtendSource {
    /// The content of a file is to be hashed for the bank.
    File(String),
    /// It was given.
    Digest(Vec<u8>),
}

/// The message for a digest that cannot be read.
pub open spec fn digest_error(e: HexError) -> Seq<char> {
    match e {
        HexError::OddLength => "hex string has odd length"@,
        HexError::InvalidDigit => "invalid hex: invalid digit found in string"@,
    }
}

/// Decides where the digest for an extension comes from.
pub fn extend_source(input: Option<&str>, value: Option<&str>) -> (r: Result<ExtendSource, Failure>)
    ensures
        match (input, value) {
            (Some(path), None) => r matches Ok(ExtendSource::File(p)) && p@ == path@,
            (None, Some(hex)) => match hex_bytes(encode_utf8(trimmed(hex@))) {
                Ok(d) => r matches Ok(ExtendSource::Digest(v)) && v@ == d,
                Err(h) => r matches Err(e) && e@ == digest_error(h),
            },
            _ => r matches Err(e) && e@
                == "provide exactly one of --input <file> or --value <hex>"@,
        },
{
    match (input, value) {
        (Some(path), None) => Ok(ExtendSource::File(path.to_owned())),
        (None, Some(hex)) => match hex_decode(hex) {
            Ok(v) => Ok(ExtendSource::Digest(v)),
            Err(HexError::OddLength) => Err(Failure::new("hex string has odd length")),
            Err(HexError::InvalidDigit) => Err(
                Failure::new("invalid hex: invalid digit found in string"),
            ),
        },
        _ => Err(Failure::new("provide exactly one of --input <file> or --value <hex>")),
    }
}

/// The outcome of an extension as it is printed.
pub open spec fn extended_text(
    bank: Seq<char>,
    index: u32,
    digest: Seq<u8>,
    after: Seq<PcrValue>,
) -> Seq<char> {
    "extended PCR "@ + bank + "["@ + decimal(index as nat) + "]\n"@ + field(
        "  with:      "@,
        hex_text(digest),
    ) + field(
        "  new value: "@,
        if after.len() == 0 {
            Seq::empty()
        } else {
            hex_text(after[0].digest@)
        },
    )
}

/// Prints the outcome of an extension. `after` is what the TPM read afterwards.
pub fn extend(bank: &str, index: u32, digest: &Vec<u8>, after: &Vec<PcrValue>) -> (s: String)
    ensures
        s@ == extended_text(bank@, index, digest@, after@),
{
    let mut s = String::new();
    s.append("extended PCR ");
    s.append(bank);
    s.append("[");
    push_decimal(&mut s, index as u64);
    s.append("]\n");
    push_field(&mut s, "  with:      ", hex_encode(digest.as_slice()).as_str());
    if after.len() == 0 {
        push_field(&mut s, "  new value: ", String::new().as_str());
    } else {
        push_field(&mut s, "  new value: ", hex_encode(after[0].digest.as_slice()).as_str());
    }
    assert(s@ =~= extended_text(bank@, index, digest@, after@));
    s
}

// ---------------------------------------------------------------------------
// Saving a baseline
// ---------------------------------------------------------------------------

/// What is kept of a register.
pub open spec fn entry_fields(v: PcrValue) -> Seq<FieldView> {
    seq![number_view("index"@, v.index as u64), text_view("digest"@, hex_text(v.digest@))]
}

/// What is kept of registers.
pub open spec fn entries_text(s: Seq<PcrValue>) -> Seq<char> {
    json_array(Seq::new(s.len(), |i: int| json_object(entry_fields(s[i]))))
}

/// An entry of a baseline reads as the register that was kept.
pub open spec fn entry_reads(e: Seq<char>, v: PcrValue) -> bool {
    &&& saved_digest(e) == hex_text(v.digest@)
    &&& saved_index(e) == Some(v.index)
}

/// A baseline reads as the registers that were kept.
pub open spec fn baseline_reads(text: Seq<char>, s: Seq<PcrValue>) -> bool {
    json_list(text) matches Ok(es) && es.len() == s.len() && forall|i: int|
        0 <= i < s.len() ==> entry_reads(#[trigger] es[i], s[i])
}

fn entry_text(v: &PcrValue) -> (s: String)
    ensures
        s@ == json_object(entry_fields(*v)),
        object_text(s@),
        entry_reads(s@, *v),
{
    proof {
        reveal_strlit("index");
        reveal_strlit("digest");
        assert("index"@.len() != "digest"@.len());
    }
    let digest = hex_encode(v.digest.as_slice());
    let s = object2(number_field("index", v.index as u64), text_field("digest", digest.as_str()));
    s
}

fn entries(values: &Vec<PcrValue>) -> (s: String)
    ensures
        s@ == entries_text(values@),
        baseline_reads(s@, values@),
{
    let mut list: Vec<String> = Vec::new();
    let mut i: usize = 0;
    while i < values.len()
        invariant
            i <= values@.len(),
            list@.len() == i,
            forall|k: int| 0 <= k < i ==> object_text((#[trigger] list@[k])@),
            forall|k: int| 0 <= k < i ==> entry_reads((#[trigger] list@[k])@, values@[k]),
            forall|k: int|
                0 <= k < i ==> (#[trigger] list@[k])@ == json_object(entry_fields(values@[k])),
        decreases values@.len() - i,
    {
        list.push(entry_text(&values[i]));
        i += 1;
    }
    let ghost want = Seq::new(values@.len(), |i: int| json_object(entry_fields(values@[i])));
    assert(views(list@) =~= want);
    let s = array_text(&list);
    assert forall|k: int| 0 <= k < values@.len() implies entry_reads(
        #[trigger] views(list@)[k],
        values@[k],
    ) by {
        assert(views(list@)[k] == list@[k]@);
    }
    s
}

/// What is logged of a saved baseline.
pub open spec fn save_fields(name: Seq<char>, bank: Seq<char>, count: nat) -> Seq<FieldView> {
    seq![
        text_view("name"@, name),
        text_view("bank"@, bank),
        number_view("pcr_count"@, count as u64),
    ]
}

/// The store after a baseline was saved.
pub open spec fn baseline_saved(
    before: StoreState,
    name: Seq<char>,
    bank: Seq<char>,
    values: Seq<PcrValue>,
    stamp: Seq<char>,
) -> StoreState {
    StoreState {
        pcr_baselines: without::<PcrBaseline>(before.pcr_baselines, name).push(
            BaselineView { name, bank, values: entries_text(values) },
        ),
        ..before
    }.logged("pcr.baseline.save"@, None, json_object(save_fields(name, bank, values.len())), stamp)
}

/// A saved baseline as it is printed.
pub open spec fn saved_text(name: Seq<char>, bank: Seq<char>, count: nat) -> Seq<char> {
    field("baseline saved: "@, name) + field("  bank: "@, bank) + field("  PCRs: "@, decimal(count))
}

/// Saves the values that the TPM gave as a baseline at the given time.
pub fn baseline_save_at(
    store: &mut MemoryStore,
    name: &str,
    bank: &str,
    values: &Vec<PcrValue>,
    stamp: &str,
) -> (s: String)
    requires
        old(store)@.wf(),
        old(store)@.can_log(),
    ensures
        final(store)@.wf(),
        final(store)@ == baseline_saved(old(store)@, name@, bank@, values@, stamp@),
        baseline_reads(entries_text(values@), values@),
        s@ == saved_text(name@, bank@, values@.len()),
{
    let text = entries(values);
    store.save_pcr_baseline(name, bank, text.as_str());
    let details = object3(
        text_field("name", name),
        text_field("bank", bank),
        number_field("pcr_count", values.len() as u64),
    );
    store.log_action_at("pcr.baseline.save", None, details.as_str(), stamp);
    let mut s = String::new();
    push_field(&mut s, "baseline saved: ", name);
    push_field(&mut s, "  bank: ", bank);
    push_number(&mut s, "  PCRs: ", values.len() as u64);
    assert(s@ =~= saved_text(name@, bank@, values@.len()));
    s
}

/// Saves the values that the TPM gave just now as a baseline.
pub fn baseline_save(
    store: &mut MemoryStore,
    name: &str,
    bank: &str,
    values: &Vec<PcrValue>,
) -> (s: String)
    requires
        old(store)@.wf(),
        old(store)@.can_log(),
    ensures
        final(store)@.wf(),
        exists|stamp: Seq<char>|
            final(store)@ == #[trigger] baseline_saved(old(store)@, name@, bank@, values@, stamp),
        baseline_reads(entries_text(values@), values@),
        s@ == saved_text(name@, bank@, values@.len()),
{
    let stamp = now_stamp();
    baseline_save_at(store, name, bank, values, stamp.as_str())
}

// ---------------------------------------------------------------------------
// Comparing with a baseline
// ---------------------------------------------------------------------------

/// The digest in an entry of a baseline; nothing where it has none.
pub open spec fn saved_digest(e: Seq<char>) -> Seq<char> {
    member_text(e, "digest"@, ""@)
}

/// The register in an entry of a baseline.
pub open spec fn saved_index(e: Seq<char>) -> Option<u32> {
    match json_member(e, "index"@) {
        None => None,
        Some(m) => match json_number(m) {
            None => None,
            Some(n) => Some((n % 0x1_0000_0000) as u32),
        },
    }
}

/// The registers in the first `n` entries.
pub open spec fn saved_indices(es: Seq<Seq<char>>, n: nat) -> Seq<u32>
    decreases n,
{
    if n == 0 {
        Seq::empty()
    } else {
        let before = saved_indices(es, (n - 1) as nat);
        match saved_index(es[n - 1]) {
            Some(i) => before.push(i),
            None => before,
        }
    }
}

/// What has to be read to compare with a baseline: the bank and the registers.
#[derive(Debug)]
pub struct BaselineQuery {
    pub bank: String,
    pub entries: Vec<String>,
    pub indices: Vec<u32>,
}

/// Finds out what has to be read to compare with a baseline.
pub fn baseline_query(store: &MemoryStore, name: &str) -> (r: Result<BaselineQuery, Failure>)
    ensures
        match r {
            Ok(q) => lookup::<PcrBaseline>(store@.pcr_baselines, name@) matches Some(b) && q.bank@
                == b.bank && json_list(b.values) == Ok::<Seq<Seq<char>>, Seq<char>>(
                views(q.entries@),
            ) && q.indices@
                == saved_indices(views(q.entries@), q.entries@.len()),
            Err(e) => match lookup::<PcrBaseline>(store@.pcr_baselines, name@) {
                None => e@ == "baseline not found: "@ + name@,
                Some(b) => json_list(b.values) == Err::<Seq<Seq<char>>, Seq<char>>(e@),
            },
        },
{
    let (bank, values) = match store.get_pcr_baseline(name) {
        None => {
            return Err(Failure::about("baseline not found: ", name));
        },
        Some(b) => b,
    };
    let entries = match list_items(values.as_str()) {
        Err(e) => {
            return Err(Failure::new(e.as_str()));
        },
        Ok(items) => items,
    };
    let ghost all = views(entries@);
    let mut indices: Vec<u32> = Vec::new();
    let mut i: usize = 0;
    while i < entries.len()
        invariant
            i <= entries@.len(),
            all == views(entries@),
            indices@ == saved_indices(all, i as nat),
        decreases entries@.len() - i,
    {
        assert(all[i as int] == entries@[i as int]@);
        match member(entries[i].as_str(), "index") {
            None => {},
            Some(m) => match as_number(m.as_str()) {
                None => {},
                Some(n) => {
                    indices.push((n % 0x1_0000_0000) as u32);
                },
            },
        }
        i += 1;
    }
    Ok(BaselineQuery { bank, entries, indices })
}

/// Entry and value agree.
pub open spec fn agrees(e: Seq<char>, v: PcrValue) -> bool {
    saved_digest(e) == hex_text(v.digest@)
}

/// How many entries can be compared.
pub open spec fn compared(es: Seq<Seq<char>>, current: Seq<PcrValue>) -> nat {
    if es.len() < current.len() {
        es.len()
    } else {
        current.len()
    }
}

/// Every entry that can be compared agrees.
pub open spec fn all_agree(es: Seq<Seq<char>>, current: Seq<PcrValue>) -> bool {
    forall|i: int| 0 <= i < compared(es, current) ==> agrees(es[i], #[trigger] current[i])
}

/// A compared register as it is printed.
pub open spec fn diff_line(e: Seq<char>, v: PcrValue) -> Seq<char> {
    "  "@ + (if agrees(e, v) {
        "  "@
    } else {
        "!!"@
    }) + " PCR "@ + pad_left(decimal(v.index as nat), 2) + "\n"@ + (if agrees(e, v) {
        Seq::empty()
    } else {
        field("       saved:   "@, saved_digest(e)) + field(
            "       current: "@,
            hex_text(v.digest@),
        )
    })
}

/// The first `n` compared registers.
pub open spec fn diff_lines(es: Seq<Seq<char>>, current: Seq<PcrValue>, n: nat) -> Seq<char>
    decreases n,
{
    if n == 0 {
        Seq::empty()
    } else {
        diff_lines(es, current, (n - 1) as nat) + diff_line(es[n - 1], current[n - 1])
    }
}

/// The comparison with a baseline as it is printed.
pub open spec fn diff_text(
    name: Seq<char>,
    bank: Seq<char>,
    es: Seq<Seq<char>>,
    current: Seq<PcrValue>,
) -> Seq<char> {
    "baseline: "@ + name + " (bank: "@ + bank + ")\n\n"@ + diff_lines(
        es,
        current,
        compared(es, current),
    ) + "\n"@ + (if all_agree(es, current) {
        "result: all PCRs match baseline\n"@
    } else {
        "result: PCR MISMATCH detected\n"@
    })
}

fn diff_entry(e: &str, v: &PcrValue) -> (r: (String, bool))
    ensures
        r.0@ == diff_line(e@, *v),
        r.1 == agrees(e@, *v),
{
    let saved = text_member(e, "digest", "");
    let current = hex_encode(v.digest.as_slice());
    let matches_now = same(saved.as_str(), current.as_str());
    let mut s = String::new();
    s.append("  ");
    if matches_now {
        s.append("  ");
    } else {
        s.append("!!");
    }
    s.append(" PCR ");
    push_padded_left(&mut s, decimal_text(v.index as u64).as_str(), 2);
    s.append("\n");
    if !matches_now {
        push_field(&mut s, "       saved:   ", saved.as_str());
        push_field(&mut s, "       current: ", current.as_str());
    }
    assert(s@ =~= diff_line(e@, *v));
    (s, matches_now)
}

/// Compares the values that the TPM gave with those of a baseline; says
/// whether all agree.
pub fn baseline_diff(name: &str, q: &BaselineQuery, current: &Vec<PcrValue>) -> (r: (String, bool))
    ensures
        r.0@ == diff_text(name@, q.bank@, views(q.entries@), current@),
        r.1 == all_agree(views(q.entries@), current@),
{
    let ghost es = views(q.entries@);
    let n: usize = if q.entries.len() < current.len() {
        q.entries.len()
    } else {
        current.len()
    };
    let mut s = String::new();
    s.append("baseline: ");
    s.append(name);
    s.append(" (bank: ");
    s.append(q.bank.as_str());
    s.append(")\n\n");
    let ghost start = s@;
    let mut all = true;
    let mut i: usize = 0;
    assert(s@ =~= start + diff_lines(es, current@, 0));
    while i < n
        invariant
            i <= n <= q.entries@.len(),
            n <= current@.len(),
            n == compared(es, current@),
            es == views(q.entries@),
            s@ == start + diff_lines(es, current@, i as nat),
            all == (forall|k: int| 0 <= k < i ==> agrees(es[k], #[trigger] current@[k])),
        decreases n - i,
    {
        assert(es[i as int] == q.entries@[i as int]@);
        let (line, ok) = diff_entry(q.entries[i].as_str(), &current[i]);
        s.append(line.as_str());
        all = all && ok;
        assert(agrees(es[i as int], current@[i as int]) == ok);
        i += 1;
        assert(s@ =~= start + diff_lines(es, current@, i as nat));
    }
    s.append("\n");
    if all {
        s.append("result: all PCRs match baseline\n");
    } else {
        s.append("result: PCR MISMATCH detected\n");
    }
    assert(s@ =~= diff_text(name@, q.bank@, es, current@));
    (s, all)
}

/// Registers that have not changed since a baseline was saved all agree with it.
pub proof fn unchanged_registers_agree(text: Seq<char>, values: Seq<PcrValue>)
    requires
        baseline_reads(text, values),
    ensures
        all_agree(json_list(text)->Ok_0, values),
        compared(json_list(text)->Ok_0, values) == values.len(),
{
    let es = json_list(text)->Ok_0;
    assert forall|i: int| 0 <= i < compared(es, values) implies agrees(
        es[i],
        #[trigger] values[i],
    ) by {
        assert(entry_reads(es[i], values[i]));
    }
}

/// A register that has changed since a baseline was saved disagrees with it.
pub proof fn changed_register_disagrees(
    text: Seq<char>,
    values: Seq<PcrValue>,
    current: Seq<PcrValue>,
    i: int,
)
    requires
        baseline_reads(text, values),
        values.len() == current.len(),
        0 <= i < values.len(),
        values[i].digest@ != current[i].digest@,
    ensures
        !all_agree(json_list(text)->Ok_0, current),
{
    let es = json_list(text)->Ok_0;
    assert(entry_reads(es[i], values[i]));
    if agrees(es[i], current[i]) {
        crate::hex::hex_is_injective(values[i].digest@, current[i].digest@);
    }
}

/// To compare with a saved baseline, exactly the registers that were saved are read.
pub proof fn saved_registers_are_read(text: Seq<char>, values: Seq<PcrValue>, n: nat)
    requires
        baseline_reads(text, values),
        n <= values.len(),
    ensures
        saved_indices(json_list(text)->Ok_0, n) == Seq::new(n, |i: int| values[i].index),
    decreases n,
{
    let es = json_list(text)->Ok_0;
    if n > 0 {
        saved_registers_are_read(text, values, (n - 1) as nat);
        assert(entry_reads(es[n - 1], values[n - 1]));
    }
    assert(saved_indices(es, n) =~= Seq::new(n, |i: int| values[i].index));
}

// ---------------------------------------------------------------------------
// Listing
// ---------------------------------------------------------------------------

/// The first `n` baselines in the list.
pub open spec fn baseline_lines(names: Seq<Seq<char>>, n: nat) -> Seq<char>
    decreases n,
{
    if n == 0 {
        Seq::empty()
    } else {
        baseline_lines(names, (n - 1) as nat) + field("  "@, names[n - 1])
    }
}

/// Lists the baselines.
pub fn baseline_list(store: &MemoryStore) -> (s: String)
    ensures
        ({
            let all = baseline_names(store@.pcr_baselines);
            s@ == if all.len() == 0 {
                "No PCR baselines saved.\n"@
            } else {
                baseline_lines(all, all.len())
            }
        }),
{
    let list = store.list_pcr_baselines();
    let ghost all = views(list@);
    if list.len() == 0 {
        return "No PCR baselines saved.\n".to_owned();
    }
    let mut s = String::new();
    let mut i: usize = 0;
    assert(s@ =~= baseline_lines(all, 0));
    while i < list.len()
        invariant
            i <= list@.len(),
            all == views(list@),
            s@ == baseline_lines(all, i as nat),
        decreases list@.len() - i,
    {
        push_field(&mut s, "  ", list[i].as_str());
        i += 1;
        assert(s@ =~= baseline_lines(all, i as nat));
    }
    s
}

} // verus!
