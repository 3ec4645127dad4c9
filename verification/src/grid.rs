//! Tables with padded columns.
use vstd::prelude::*;
use vstd::string::*;
use vstd::utf8::*;

use crate::text::{pad_right, push_padded_right, views};

verus! {

/// How many bytes a text takes.
pub open spec fn byte_len(s: Seq<char>) -> usize {
    encode_utf8(s).len() as usize
}

/// The largest number of bytes among the first `n` texts.
pub open spec fn widest(texts: Seq<Seq<char>>, n: nat) -> usize
    decreases n,
{
    if n == 0 {
        0
    } else {
        let rest = widest(texts, (n - 1) as nat);
        if byte_len(texts[n - 1]) > rest {
            byte_len(texts[n - 1])
        } else {
            rest
        }
    }
}

/// The cells of a row, padded to the widths of their columns, with two spaces
/// between neighbours. A cell without a width is not padded.
pub open spec fn cells_text(cells: Seq<Seq<char>>, widths: Seq<usize>, n: nat) -> Seq<char>
    decreases n,
{
    if n == 0 {
        Seq::empty()
    } else {
        let before = if n == 1 {
            Seq::empty()
        } else {
            cells_text(cells, widths, (n - 1) as nat) + "  "@
        };
        before + if n - 1 < widths.len() {
            pad_right(cells[n - 1], widths[n - 1] as int)
        } else {
            cells[n - 1]
        }
    }
}

/// A row as it is printed.
pub open spec fn row_text(cells: Seq<Seq<char>>, widths: Seq<usize>) -> Seq<char> {
    cells_text(cells, widths, cells.len()) + "\n"@
}

/// The first `n` rows as they are printed.
pub open spec fn rows_text(rows: Seq<Seq<Seq<char>>>, widths: Seq<usize>, n: nat) -> Seq<char>
    decreases n,
{
    if n == 0 {
        Seq::empty()
    } else {
        rows_text(rows, widths, (n - 1) as nat) + row_text(rows[n - 1], widths)
    }
}

/// The cells of a table.
pub open spec fn cells_of(rows: Seq<Vec<String>>) -> Seq<Seq<Seq<char>>> {
    Seq::new(rows.len(), |i: int| views(rows[i]@))
}

/// Column `c` of a table.
pub open spec fn column(rows: Seq<Seq<Seq<char>>>, c: int) -> Seq<Seq<char>> {
    Seq::new(rows.len(), |i: int| rows[i][c])
}

/// A table with its head.
pub open spec fn table_text(
    head: Seq<Seq<char>>,
    rows: Seq<Seq<Seq<char>>>,
    widths: Seq<usize>,
) -> Seq<char> {
    row_text(head, widths) + rows_text(rows, widths, rows.len())
}

/// The width of column `c`: the largest number of bytes in it.
pub fn column_width(rows: &Vec<Vec<String>>, c: usize) -> (w: usize)
    requires
        forall|i: int| 0 <= i < rows@.len() ==> c < (#[trigger] rows@[i])@.len(),
    ensures
        w == widest(column(cells_of(rows@), c as int), rows@.len()),
{
    let mut w: usize = 0;
    let mut i: usize = 0;
    while i < rows.len()
        invariant
            i <= rows@.len(),
            forall|i: int| 0 <= i < rows@.len() ==> c < (#[trigger] rows@[i])@.len(),
            w == widest(column(cells_of(rows@), c as int), i as nat),
        decreases rows@.len() - i,
    {
        let n: usize = rows[i][c].as_str().len();
        assert(column(cells_of(rows@), c as int)[i as int] == rows@[i as int]@[c as int]@);
        if n > w {
            w = n;
        }
        i += 1;
    }
    w
}

/// Appends a row.
pub fn push_row(out: &mut String, cells: &Vec<String>, widths: &Vec<usize>)
    ensures
        final(out)@ == old(out)@ + row_text(views(cells@), widths@),
{
    let ghost start = out@;
    let ghost all = views(cells@);
    let mut i: usize = 0;
    assert(out@ =~= start + cells_text(all, widths@, 0));
    while i < cells.len()
        invariant
            i <= cells@.len(),
            all == views(cells@),
            out@ == start + cells_text(all, widths@, i as nat),
        decreases cells@.len() - i,
    {
        if i > 0 {
            out.append("  ");
        }
        assert(all[i as int] == cells@[i as int]@);
        if i < widths.len() {
            push_padded_right(out, cells[i].as_str(), widths[i]);
        } else {
            out.append(cells[i].as_str());
        }
        i += 1;
        assert(out@ =~= start + cells_text(all, widths@, i as nat));
    }
    out.append("\n");
    assert(out@ =~= start + row_text(all, widths@));
}

/// Prints a table with its head.
pub fn print_table(head: &Vec<String>, rows: &Vec<Vec<String>>, widths: &Vec<usize>) -> (s: String)
    ensures
        s@ == table_text(views(head@), cells_of(rows@), widths@),
{
    let mut s = String::new();
    push_row(&mut s, head, widths);
    let ghost start = s@;
    let ghost all = cells_of(rows@);
    assert(start =~= row_text(views(head@), widths@));
    let mut i: usize = 0;
    assert(s@ =~= start + rows_text(all, widths@, 0));
    while i < rows.len()
        invariant
            i <= rows@.len(),
            all == cells_of(rows@),
            s@ == start + rows_text(all, widths@, i as nat),
        decreases rows@.len() - i,
    {
        push_row(&mut s, &rows[i], widths);
        assert(all[i as int] == views(rows@[i as int]@));
        i += 1;
        assert(s@ =~= start + rows_text(all, widths@, i as nat));
    }
    s
}

} // verus!
