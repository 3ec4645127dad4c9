//! NV indices: definition, writing, reading, listing and deletion.
use vstd::prelude::*;
use vstd::string::*;
use vstd::utf8::*;

use crate::clock::now_stamp;
use crate::commands::common::copy_bytes;
use crate::failure::Failure;
use crate::grid::{cells_of, column, column_width, print_table, table_text, widest};
use crate::hex::{hex32, hex32_text, hex_encode, hex_text};
use crate::json::{
    json_object, number_field, number_view, object1, object2, object3, text_field, text_view,
    FieldView,
};
use crate::model::{NvSlot, NvView};
use crate::store::{nv_listing, nv_triples, MemoryStore, StoreState};
use crate::table::{lookup, position, present, without};
use crate::text::{decimal, decimal_text, field, push_decimal, push_field, utf8_text, views};

verus! {

// ---------------------------------------------------------------------------
// Definition
// ---------------------------------------------------------------------------

/// The largest number among the first `n` indices, or the one before the first
/// that is given out.
pub open spec fn last_index(s: Seq<(Seq<char>, u32, usize)>, n: nat) -> u32
    decreases n,
{
    if n == 0 {
        0x01000000
    } else if n == 1 {
        s[0].1
    } else {
        let rest = last_index(s, (n - 1) as nat);
        if s[n - 1].1 > rest {
            s[n - 1].1
        } else {
            rest
        }
    }
}

/// The number after which the next index is given out.
pub open spec fn last_given(s: StoreState) -> u32 {
    last_index(nv_listing(s.nv_indices), nv_listing(s.nv_indices).len())
}

/// The number that a new index gets: one more than the largest in use, which
/// must not be the last there is.
pub fn define_check(store: &MemoryStore, name: &str) -> (r: Result<u32, Failure>)
    requires
        !present::<NvSlot>(store@.nv_indices, name@) ==> last_given(store@) < u32::MAX,
    ensures
        match r {
            Ok(n) => !present::<NvSlot>(store@.nv_indices, name@) && n == last_given(store@) + 1,
            Err(e) => present::<NvSlot>(store@.nv_indices, name@) && e@
                == "NV index already defined: "@ + name@,
        },
{
    if store.get_nv_index(name).is_some() {
        return Err(Failure::about("NV index already defined: ", name));
    }
    let list = store.list_nv_indices();
    let ghost all = nv_triples(list@);
    let mut last: u32 = 0x01000000;
    let mut i: usize = 0;
    while i < list.len()
        invariant
            i <= list@.len(),
            all == nv_triples(list@),
            last == last_index(all, i as nat),
        decreases list@.len() - i,
    {
        let n: u32 = list[i].1;
        assert(all[i as int].1 == n);
        if i == 0 || n > last {
            last = n;
        }
        i += 1;
    }
    assert(all.len() == list@.len());
    Ok(last + 1)
}

/// A new index has a number that no index in use has.
pub proof fn new_index_is_fresh(s: StoreState, i: int)
    requires
        0 <= i < nv_listing(s.nv_indices).len(),
    ensures
        nv_listing(s.nv_indices)[i].1 != last_given(s) + 1,
{
    last_is_largest(nv_listing(s.nv_indices), nv_listing(s.nv_indices).len(), i);
}

/// No index has a larger number than the last.
pub proof fn last_is_largest(s: Seq<(Seq<char>, u32, usize)>, n: nat, i: int)
    requires
        0 <= i < n <= s.len(),
    ensures
        s[i].1 <= last_index(s, n),
    decreases n,
{
    if i < n - 1 {
        last_is_largest(s, (n - 1) as nat, i);
    }
}

/// What is logged of a definition.
pub open spec fn define_fields(name: Seq<char>, index: u32, size: usize) -> Seq<FieldView> {
    seq![
        text_view("name"@, name),
        text_view("index"@, hex32_text(index as int, true)),
        number_view("size"@, size as u64),
    ]
}

/// A defined index as it is printed.
pub open spec fn defined_text(name: Seq<char>, index: u32, size: usize) -> Seq<char> {
    field("NV index defined: "@, name) + field("  index: "@, hex32_text(index as int, true)) + (
    "  size:  "@ + decimal(size as nat) + " bytes\n"@)
}

/// The store after an index was defined.
pub open spec fn nv_defined(
    before: StoreState,
    name: Seq<char>,
    index: u32,
    size: usize,
    stamp: Seq<char>,
) -> StoreState {
    StoreState {
        nv_indices: before.nv_indices.push(NvView { name, nv_index: index, size, data: None }),
        ..before
    }.logged("nv.define"@, None, json_object(define_fields(name, index, size)), stamp)
}

/// Keeps an index that the TPM has defined at the given time.
pub fn define_at(store: &mut MemoryStore, name: &str, index: u32, size: usize, stamp: &str) -> (s:
    String)
    requires
        old(store)@.wf(),
        old(store)@.can_log(),
    ensures
        final(store)@.wf(),
        final(store)@ == nv_defined(old(store)@, name@, index, size, stamp@),
        s@ == defined_text(name@, index, size),
{
    store.insert_nv_index(name, index, size);
    let shown = hex32(index, true);
    let details = object3(
        text_field("name", name),
        text_field("index", shown.as_str()),
        number_field("size", size as u64),
    );
    store.log_action_at("nv.define", None, details.as_str(), stamp);
    let mut s = String::new();
    push_field(&mut s, "NV index defined: ", name);
    push_field(&mut s, "  index: ", shown.as_str());
    s.append("  size:  ");
    push_decimal(&mut s, size as u64);
    s.append(" bytes\n");
    assert(s@ =~= defined_text(name@, index, size));
    s
}

/// Keeps an index that the TPM has defined just now.
pub fn define(store: &mut MemoryStore, name: &str, index: u32, size: usize) -> (s: String)
    requires
        old(store)@.wf(),
        old(store)@.can_log(),
    ensures
        final(store)@.wf(),
        exists|stamp: Seq<char>|
            final(store)@ == #[trigger] nv_defined(old(store)@, name@, index, size, stamp),
        s@ == defined_text(name@, index, size),
{
    let stamp = now_stamp();
    define_at(store, name, index, size, stamp.as_str())
}

// ---------------------------------------------------------------------------
// Writing
// ---------------------------------------------------------------------------

/// Checks that an index is there before anything is read for it.
pub fn write_check(store: &MemoryStore, name: &str) -> (r: Result<(), Failure>)
    ensures
        match r {
            Ok(_) => present::<NvSlot>(store@.nv_indices, name@),
            Err(e) => !present::<NvSlot>(store@.nv_indices, name@) && e@ == "NV index not found: "@
                + name@,
        },
{
    match store.get_nv_index(name) {
        Some(_) => Ok(()),
        None => Err(Failure::about("NV index not found: ", name)),
    }
}

/// What writing to an index does to the store and prints.
pub open spec fn nv_written(
    before: StoreState,
    after: StoreState,
    r: Result<String, Failure>,
    name: Seq<char>,
    data: Seq<u8>,
    stamp: Seq<char>,
) -> bool {
    match r {
        Ok(s) => (lookup::<NvSlot>(before.nv_indices, name) matches Some(n) && data.len()
            <= n.size) && after == (StoreState {
            nv_indices: before.nv_indices.update(
                position::<NvSlot>(before.nv_indices, name),
                NvView {
                    data: Some(data),
                    ..before.nv_indices[position::<NvSlot>(before.nv_indices, name)]
                },
            ),
            ..before
        }).logged(
            "nv.write"@,
            None,
            json_object(seq![text_view("name"@, name), number_view("bytes"@, data.len() as u64)]),
            stamp,
        ) && s@ == "written "@ + decimal(data.len()) + " bytes to NV index: "@ + name + "\n"@,
        Err(e) => after == before && match lookup::<NvSlot>(before.nv_indices, name) {
            None => e@ == "NV index not found: "@ + name,
            Some(n) => data.len() > n.size && e@ == "data ("@ + decimal(data.len())
                + " bytes) exceeds NV index size ("@ + decimal(n.size as nat) + " bytes)"@,
        },
    }
}

/// Writes data to an index at the given time.
pub fn write_at(store: &mut MemoryStore, name: &str, data: Vec<u8>, stamp: &str) -> (r: Result<
    String,
    Failure,
>)
    requires
        old(store)@.wf(),
        old(store)@.can_log(),
    ensures
        final(store)@.wf(),
        nv_written(old(store)@, final(store)@, r, name@, data@, stamp@),
{
    let size: usize = match store.get_nv_index(name) {
        None => {
            return Err(Failure::about("NV index not found: ", name));
        },
        Some((_, size)) => size,
    };
    let n: usize = data.len();
    if n > size {
        let mut t = String::new();
        t.append("data (");
        push_decimal(&mut t, n as u64);
        t.append(" bytes) exceeds NV index size (");
        push_decimal(&mut t, size as u64);
        t.append(" bytes)");
        assert(t@ =~= "data ("@ + decimal(n as nat) + " bytes) exceeds NV index size ("@ + decimal(
            size as nat,
        ) + " bytes)"@);
        return Err(Failure::new(t.as_str()));
    }
    store.nv_write_data(name, data)?;
    let details = object2(text_field("name", name), number_field("bytes", n as u64));
    store.log_action_at("nv.write", None, details.as_str(), stamp);
    let mut s = String::new();
    s.append("written ");
    push_decimal(&mut s, n as u64);
    s.append(" bytes to NV index: ");
    s.append(name);
    s.append("\n");
    assert(s@ =~= "written "@ + decimal(n as nat) + " bytes to NV index: "@ + name@ + "\n"@);
    Ok(s)
}

/// Writes data to an index.
pub fn write(store: &mut MemoryStore, name: &str, data: Vec<u8>) -> (r: Result<String, Failure>)
    requires
        old(store)@.wf(),
        old(store)@.can_log(),
    ensures
        final(store)@.wf(),
        exists|stamp: Seq<char>|
            #[trigger] nv_written(old(store)@, final(store)@, r, name@, data@, stamp),
{
    let stamp = now_stamp();
    write_at(store, name, data, stamp.as_str())
}

// ---------------------------------------------------------------------------
// Reading
// ---------------------------------------------------------------------------

/// The number of an index and what was written to it.
pub fn read(store: &MemoryStore, name: &str) -> (r: Result<(u32, Vec<u8>), Failure>)
    ensures
        match r {
            Ok((index, data)) => lookup::<NvSlot>(store@.nv_indices, name@) matches Some(n)
                && n.nv_index == index && n.data == Some(data@),
            Err(e) => match lookup::<NvSlot>(store@.nv_indices, name@) {
                None => e@ == "NV index not found: "@ + name@,
                Some(n) => n.data is None && e@ == "NV index '"@ + name@
                    + "' has not been written"@,
            },
        },
{
    let index: u32 = match store.get_nv_index(name) {
        None => {
            return Err(Failure::about("NV index not found: ", name));
        },
        Some((index, _)) => index,
    };
    match store.nv_read_data(name) {
        None => Err(Failure::around("NV index '", name, "' has not been written")),
        Some(d) => Ok((index, copy_bytes(d))),
    }
}

/// What was read, as it is printed.
pub open spec fn read_text(name: Seq<char>, index: u32, data: Seq<u8>) -> Seq<char> {
    "NV index: "@ + name + " ("@ + hex32_text(index as int, true) + ")\n"@ + ("  size: "@ + decimal(
        data.len(),
    ) + " bytes\n"@) + (if valid_utf8(data) {
        field("  text: "@, decode_utf8(data))
    } else {
        Seq::empty()
    }) + field("  hex:  "@, hex_text(data))
}

/// Prints what was read.
pub fn read_report(name: &str, index: u32, data: &Vec<u8>) -> (s: String)
    ensures
        s@ == read_text(name@, index, data@),
{
    let mut s = String::new();
    s.append("NV index: ");
    s.append(name);
    s.append(" (");
    s.append(hex32(index, true).as_str());
    s.append(")\n");
    s.append("  size: ");
    push_decimal(&mut s, data.len() as u64);
    s.append(" bytes\n");
    match utf8_text(copy_bytes(data)) {
        Some(text) => {
            push_field(&mut s, "  text: ", text.as_str());
        },
        None => {},
    }
    push_field(&mut s, "  hex:  ", hex_encode(data.as_slice()).as_str());
    assert(s@ =~= read_text(name@, index, data@));
    s
}

/// Says where what was read was written to.
pub fn read_to_file(name: &str, bytes: usize, path: &str) -> (s: String)
    ensures
        s@ == "read "@ + decimal(bytes as nat) + " bytes from NV index '"@ + name@ + "' to "@ + path@
            + "\n"@,
{
    let mut s = String::new();
    s.append("read ");
    push_decimal(&mut s, bytes as u64);
    s.append(" bytes from NV index '");
    s.append(name);
    s.append("' to ");
    s.append(path);
    s.append("\n");
    assert(s@ =~= "read "@ + decimal(bytes as nat) + " bytes from NV index '"@ + name@ + "' to "@
        + path@ + "\n"@);
    s
}

// ---------------------------------------------------------------------------
// Listing
// ---------------------------------------------------------------------------

/// The cells of an index in the list.
pub open spec fn nv_cells(e: (Seq<char>, u32, usize)) -> Seq<Seq<char>> {
    seq![e.0, hex32_text(e.1 as int, true), decimal(e.2 as nat) + " B"@]
}

/// The indices as they are listed.
pub open spec fn listing(s: Seq<(Seq<char>, u32, usize)>) -> Seq<char> {
    if s.len() == 0 {
        "No NV indices defined.\n"@
    } else {
        let rows = Seq::new(s.len(), |i: int| nv_cells(s[i]));
        table_text(
            seq!["NAME"@, "INDEX"@, "SIZE"@],
            rows,
            seq![widest(column(rows, 0), s.len()), 14usize],
        )
    }
}

fn nv_rows(list: &Vec<(String, u32, usize)>) -> (rows: Vec<Vec<String>>)
    ensures
        cells_of(rows@) == Seq::new(list@.len(), |i: int| nv_cells(nv_triples(list@)[i])),
        forall|i: int| 0 <= i < rows@.len() ==> (#[trigger] rows@[i])@.len() == 3,
{
    let ghost all = nv_triples(list@);
    let mut rows: Vec<Vec<String>> = Vec::new();
    let mut n: usize = 0;
    while n < list.len()
        invariant
            n <= list@.len(),
            rows@.len() == n,
            all == nv_triples(list@),
            forall|i: int| 0 <= i < rows@.len() ==> (#[trigger] rows@[i])@.len() == 3,
            forall|i: int| 0 <= i < rows@.len() ==> views((#[trigger] rows@[i])@) == nv_cells(all[i]),
        decreases list@.len() - n,
    {
        let e = &list[n];
        assert(all[n as int] == (e.0@, e.1, e.2));
        let mut size = decimal_text(e.2 as u64);
        size.append(" B");
        assert(size@ =~= decimal(e.2 as nat) + " B"@);
        let mut row: Vec<String> = Vec::new();
        row.push(e.0.clone());
        row.push(hex32(e.1, true));
        row.push(size);
        assert(views(row@) =~= nv_cells(all[n as int]));
        rows.push(row);
        n += 1;
    }
    assert(cells_of(rows@) =~= Seq::new(list@.len(), |i: int| nv_cells(all[i])));
    rows
}

/// Lists the indices.
pub fn list(store: &MemoryStore) -> (s: String)
    ensures
        s@ == listing(nv_listing(store@.nv_indices)),
{
    let all = store.list_nv_indices();
    let ghost want = nv_triples(all@);
    assert(want.len() == all@.len());
    if all.len() == 0 {
        return "No NV indices defined.\n".to_owned();
    }
    let rows = nv_rows(&all);
    assert(cells_of(rows@) =~= Seq::new(want.len(), |i: int| nv_cells(want[i])));
    assert(rows@.len() == cells_of(rows@).len());
    let mut head: Vec<String> = Vec::new();
    head.push("NAME".to_owned());
    head.push("INDEX".to_owned());
    head.push("SIZE".to_owned());
    assert(views(head@) =~= seq!["NAME"@, "INDEX"@, "SIZE"@]);
    let w: usize = column_width(&rows, 0);
    let mut widths: Vec<usize> = Vec::new();
    widths.push(w);
    widths.push(14);
    assert(widths@ =~= seq![w, 14usize]);
    print_table(&head, &rows, &widths)
}

// ---------------------------------------------------------------------------
// Deletion
// ---------------------------------------------------------------------------

/// The number under which the TPM knows an index that is to be deleted.
pub fn delete_check(store: &MemoryStore, name: &str) -> (r: Result<u32, Failure>)
    ensures
        match r {
            Ok(index) => lookup::<NvSlot>(store@.nv_indices, name@) matches Some(n) && n.nv_index
                == index,
            Err(e) => !present::<NvSlot>(store@.nv_indices, name@) && e@ == "NV index not found: "@
                + name@,
        },
{
    match store.get_nv_index(name) {
        Some((index, _)) => Ok(index),
        None => Err(Failure::about("NV index not found: ", name)),
    }
}

/// The store after an index was deleted.
pub open spec fn nv_deleted(before: StoreState, name: Seq<char>, stamp: Seq<char>) -> StoreState {
    StoreState {
        nv_indices: without::<NvSlot>(before.nv_indices, name),
        ..before
    }.logged("nv.delete"@, None, json_object(seq![text_view("name"@, name)]), stamp)
}

/// Forgets an index that the TPM has given up at the given time.
pub fn delete_at(store: &mut MemoryStore, name: &str, stamp: &str) -> (s: String)
    requires
        old(store)@.wf(),
        old(store)@.can_log(),
    ensures
        final(store)@.wf(),
        final(store)@ == nv_deleted(old(store)@, name@, stamp@),
        s@ == field("NV index deleted: "@, name@),
{
    store.delete_nv_index(name);
    let details = object1(text_field("name", name));
    store.log_action_at("nv.delete", None, details.as_str(), stamp);
    let mut s = String::new();
    push_field(&mut s, "NV index deleted: ", name);
    assert(s@ =~= field("NV index deleted: "@, name@));
    s
}

/// Forgets an index that the TPM has given up just now.
pub fn delete(store: &mut MemoryStore, name: &str) -> (s: String)
    requires
        old(store)@.wf(),
        old(store)@.can_log(),
    ensures
        final(store)@.wf(),
        exists|stamp: Seq<char>|
            final(store)@ == #[trigger] nv_deleted(old(store)@, name@, stamp),
        s@ == field("NV index deleted: "@, name@),
{
    let stamp = now_stamp();
    delete_at(store, name, stamp.as_str())
}

} // verus!
