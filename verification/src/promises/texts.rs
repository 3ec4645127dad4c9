//! Texts: what trimming, splitting, searching, ordering and reading numbers do.
use vstd::prelude::*;

use crate::commands::workspace::restore::exported_number_reads_back;
use crate::commands::workspace::parse_nv_index;
use crate::hex::hex32;
use crate::text::{
    all_digits, chars_of, decimal, decimal_digit, decimal_text, digit_in, digits_value, find_char,
    first_at, has, in_order, is_white, occurs_at, parse_number, scanned, split, text_le, text_of,
    trim, trim_end, trim_start, unsigned, views, Separator,
};

verus! {

// ---------------------------------------------------------------------------
// White space
// ---------------------------------------------------------------------------

proof fn start_is_cut(s: Seq<char>) -> (a: int)
    ensures
        0 <= a <= s.len(),
        trim_start(s) == s.subrange(a, s.len() as int),
        forall|i: int| 0 <= i < a ==> is_white(#[trigger] s[i]),
        a < s.len() ==> !is_white(s[a]),
    decreases s.len(),
{
    if s.len() > 0 && is_white(s[0]) {
        let rest = s.subrange(1, s.len() as int);
        let b = start_is_cut(rest);
        assert(rest.subrange(b, rest.len() as int) =~= s.subrange(b + 1, s.len() as int));
        assert forall|i: int| 0 <= i < b + 1 implies is_white(#[trigger] s[i]) by {
            if i > 0 {
                assert(rest[i - 1] == s[i]);
            }
        }
        b + 1
    } else {
        assert(s.subrange(0, s.len() as int) =~= s);
        0
    }
}

proof fn end_is_cut(s: Seq<char>) -> (b: int)
    ensures
        0 <= b <= s.len(),
        trim_end(s) == s.subrange(0, b),
        forall|i: int| b <= i < s.len() ==> is_white(#[trigger] s[i]),
        b > 0 ==> !is_white(s[b - 1]),
    decreases s.len(),
{
    if s.len() > 0 && is_white(s.last()) {
        let rest = s.drop_last();
        let b = end_is_cut(rest);
        assert(rest.subrange(0, b) =~= s.subrange(0, b));
        assert forall|i: int| b <= i < s.len() implies is_white(#[trigger] s[i]) by {
            if i < rest.len() {
                assert(rest[i] == s[i]);
            }
        }
        b
    } else {
        assert(s.subrange(0, s.len() as int) =~= s);
        s.len() as int
    }
}

/// Trimming cuts white space off both ends and nothing else: what is left is
/// one stretch of the text that neither begins nor ends with white space.
pub proof fn trimming_cuts_only_white_space(s: &str, r: String) -> (cut: (int, int))
    requires
        call_ensures(trim, (s,), r),
    ensures
        0 <= cut.0 <= cut.1 <= s@.len(),
        r@ == s@.subrange(cut.0, cut.1),
        forall|i: int|
            0 <= i < cut.0 || cut.1 <= i < s@.len() ==> is_white(#[trigger] s@[i]),
        r@.len() > 0 ==> !is_white(r@[0]) && !is_white(r@.last()),
{
    let a = start_is_cut(s@);
    let t = trim_start(s@);
    let b = end_is_cut(t);
    assert(t.subrange(0, b) =~= s@.subrange(a, a + b));
    assert forall|i: int| 0 <= i < a || a + b <= i < s@.len() implies is_white(
        #[trigger] s@[i],
    ) by {
        if i >= a {
            assert(t[i - a] == s@[i]);
        }
    }
    if b > 0 {
        assert(t[0] == s@[a]);
    }
    (a, a + b)
}

// ---------------------------------------------------------------------------
// Splitting
// ---------------------------------------------------------------------------

/// The characters of texts, one text after the other.
pub open spec fn run_together(parts: Seq<Seq<char>>) -> Seq<char>
    decreases parts.len(),
{
    if parts.len() == 0 {
        Seq::empty()
    } else {
        run_together(parts.drop_last()) + parts.last()
    }
}

/// The characters of a text that separate nothing.
pub open spec fn without_separators(s: Seq<char>, by: Separator) -> Seq<char>
    decreases s.len(),
{
    if s.len() == 0 {
        Seq::empty()
    } else if by.separates(s.last()) {
        without_separators(s.drop_last(), by)
    } else {
        without_separators(s.drop_last(), by).push(s.last())
    }
}

proof fn scanning_keeps_characters(s: Seq<char>, by: Separator, n: nat)
    requires
        n <= s.len(),
    ensures
        run_together(scanned(s, by, n).0) + scanned(s, by, n).1 == without_separators(
            s.take(n as int),
            by,
        ),
    decreases n,
{
    if n > 0 {
        scanning_keeps_characters(s, by, (n - 1) as nat);
        let (done, cur) = scanned(s, by, (n - 1) as nat);
        let c = s[n - 1];
        assert(s.take(n as int).drop_last() =~= s.take(n - 1));
        assert(s.take(n as int).last() == c);
        if !by.separates(c) {
            assert(run_together(done) + cur.push(c) =~= (run_together(done) + cur).push(c));
        } else if cur.len() > 0 {
            assert(done.push(cur).drop_last() =~= done);
            assert(run_together(done.push(cur)) + Seq::empty() =~= run_together(done) + cur);
        }
    } else {
        assert(s.take(0) =~= Seq::empty());
        assert(run_together(Seq::empty()) + Seq::<char>::empty() =~= Seq::empty());
    }
}

/// Splitting loses nothing but separators: the pieces one after the other are
/// the text's other characters in their order, no piece is empty, and none
/// holds a separator.
pub proof fn splitting_loses_only_separators(s: &str, by: Separator, r: Vec<String>)
    requires
        call_ensures(split, (s, by), r),
    ensures
        run_together(views(r@)) == without_separators(s@, by),
        forall|i: int| 0 <= i < r@.len() ==> (#[trigger] r@[i])@.len() > 0,
        forall|i: int, k: int|
            #![trigger r@[i]@[k]]
            0 <= i < r@.len() && 0 <= k < r@[i]@.len() ==> !by.separates(r@[i]@[k]),
{
    let (done, cur) = scanned(s@, by, s@.len());
    scanning_keeps_characters(s@, by, s@.len());
    crate::text::pieces_are_proper(s@, by, s@.len());
    assert(s@.take(s@.len() as int) =~= s@);
    if cur.len() > 0 {
        assert(done.push(cur).drop_last() =~= done);
    } else {
        assert(run_together(done) + cur =~= run_together(done));
    }
    let all = views(r@);
    assert forall|i: int| 0 <= i < r@.len() implies (#[trigger] r@[i])@.len() > 0 by {
        assert(all[i] == r@[i]@);
        if i < done.len() {
            assert(all[i] == done[i]);
        }
    }
    assert forall|i: int, k: int|
        #![trigger r@[i]@[k]]
        0 <= i < r@.len() && 0 <= k < r@[i]@.len() implies !by.separates(r@[i]@[k]) by {
        assert(all[i] == r@[i]@);
        if i < done.len() {
            assert(all[i] == done[i]);
            assert(!by.separates(done[i][k]));
        } else {
            assert(!by.separates(cur[k]));
        }
    }
}

// ---------------------------------------------------------------------------
// Searching and ordering
// ---------------------------------------------------------------------------

pub(crate) proof fn first_is_first(s: Seq<char>, c: char)
    ensures
        0 <= first_at(s, c) <= s.len(),
        forall|k: int| 0 <= k < first_at(s, c) ==> (#[trigger] s[k]) != c,
        first_at(s, c) < s.len() ==> s[first_at(s, c)] == c,
    decreases s.len(),
{
    if s.len() > 0 && s[0] != c {
        let rest = s.subrange(1, s.len() as int);
        first_is_first(rest, c);
        assert forall|k: int| 0 <= k < first_at(s, c) implies (#[trigger] s[k]) != c by {
            if k > 0 {
                assert(rest[k - 1] == s[k]);
            }
        }
    }
}

/// The position that is found is the first one; past the end means that the
/// character is nowhere.
pub proof fn first_position_is_found(v: &Vec<char>, c: char, at: usize)
    requires
        call_ensures(find_char, (v, c), at),
    ensures
        forall|k: int| 0 <= k < at ==> (#[trigger] v@[k]) != c,
        at < v@.len() ==> v@[at as int] == c,
        v@.contains(c) <==> at < v@.len(),
{
    first_is_first(v@, c);
}

/// A text is found in another just where it stands between two parts of it.
pub proof fn parts_are_found(
    hay: &str,
    needle: &str,
    before: Seq<char>,
    after: Seq<char>,
    r: bool,
)
    requires
        call_ensures(has, (hay, needle), r),
    ensures
        hay@ == before + needle@ + after ==> r,
        r ==> needle@.len() <= hay@.len(),
        r ==> exists|at: int|
            0 <= at <= hay@.len() - needle@.len() && (#[trigger] hay@.subrange(
                at,
                at + needle@.len(),
            )) == needle@,
{
    if hay@ == before + needle@ + after {
        let at = before.len() as int;
        assert(hay@.subrange(at, at + needle@.len()) =~= needle@);
        assert(occurs_at(hay@, needle@, at));
    }
    if r {
        let at = choose|at: int| occurs_at(hay@, needle@, at);
        assert(hay@.subrange(at, at + needle@.len()) == needle@);
    }
}

proof fn order_is_decided_at(a: Seq<char>, b: Seq<char>, n: int)
    requires
        0 <= n <= a.len(),
        n <= b.len(),
        forall|k: int| 0 <= k < n ==> a[k] == b[k],
        n < a.len() && n < b.len() ==> a[n] != b[n],
    ensures
        text_le(a, b) == (n == a.len() || (n < b.len() && a[n] < b[n])),
    decreases n,
{
    if n > 0 {
        let x = a.subrange(1, a.len() as int);
        let y = b.subrange(1, b.len() as int);
        assert(a[0] == b[0]);
        assert forall|k: int| 0 <= k < n - 1 implies x[k] == y[k] by {
            assert(a[k + 1] == b[k + 1]);
        }
        order_is_decided_at(x, y, n - 1);
    }
}

/// Texts are ordered by the first place in which they differ; a text that
/// another begins with comes before it.
pub proof fn first_difference_decides(a: &str, b: &str, n: int, r: bool)
    requires
        call_ensures(in_order, (a, b), r),
        0 <= n <= a@.len(),
        n <= b@.len(),
        forall|k: int| 0 <= k < n ==> a@[k] == b@[k],
        n < a@.len() && n < b@.len() ==> a@[n] != b@[n],
    ensures
        n < a@.len() && n < b@.len() ==> r == (a@[n] < b@[n]),
        n == a@.len() ==> r,
        n < a@.len() && n == b@.len() ==> !r,
{
    order_is_decided_at(a@, b@, n);
}

// ---------------------------------------------------------------------------
// Numbers
// ---------------------------------------------------------------------------

pub(crate) proof fn decimal_is_read(n: nat)
    ensures
        decimal(n).len() > 0,
        all_digits(decimal(n), 10),
        digits_value(decimal(n), 10) == n,
        decimal(n)[0] != '+',
    decreases n,
{
    let d = (n % 10) as int;
    assert(digit_in(decimal_digit(d), 10) == Some(d));
    if n < 10 {
        assert(decimal(n).drop_last() =~= Seq::<char>::empty());
        assert(digits_value(Seq::<char>::empty(), 10) == 0);
    } else {
        decimal_is_read(n / 10);
        assert(decimal(n).drop_last() =~= decimal(n / 10));
        assert forall|i: int| 0 <= i < decimal(n).len() implies digit_in(
            #[trigger] decimal(n)[i],
            10,
        ) is Some by {
            if i < decimal(n / 10).len() {
                assert(decimal(n)[i] == decimal(n / 10)[i]);
            }
        }
        assert(decimal(n)[0] == decimal(n / 10)[0]);
    }
}

/// A number that was printed in decimal is read as that number, where it fits.
pub proof fn printed_number_is_read(n: u64, s: String, v: &Vec<char>, r: Option<u32>)
    requires
        call_ensures(decimal_text, (n,), s),
        v@ == s@,
        call_ensures(parse_number, (v, 0usize, 10u32), r),
    ensures
        n <= u32::MAX ==> r == Some(n as u32),
        n > u32::MAX ==> r is None,
{
    decimal_is_read(n as nat);
    assert(v@.subrange(0, v@.len() as int) =~= v@);
    assert(unsigned(v@) == v@);
}

/// What holds anything but digits behind its sign is no number, and neither is
/// an empty text.
pub proof fn other_characters_are_no_number(v: &Vec<char>, radix: u32, i: int, r: Option<u32>)
    requires
        radix == 10 || radix == 16,
        call_ensures(parse_number, (v, 0usize, radix), r),
    ensures
        v@.len() == 0 ==> r is None,
        1 <= i < v@.len() && digit_in(v@[i], radix as int) is None ==> r is None,
        v@.len() > 0 && v@[0] != '+' && digit_in(v@[0], radix as int) is None ==> r is None,
{
    assert(v@.subrange(0, v@.len() as int) =~= v@);
    let d = unsigned(v@);
    if 1 <= i < v@.len() && digit_in(v@[i], radix as int) is None {
        if v@[0] == '+' {
            assert(d[i - 1] == v@[i]);
        } else {
            assert(d[i] == v@[i]);
        }
        assert(!all_digits(d, radix as int));
    }
    if v@.len() > 0 && v@[0] != '+' && digit_in(v@[0], radix as int) is None {
        assert(d[0] == v@[0]);
        assert(!all_digits(d, radix as int));
    }
}

/// A number that was printed in hexadecimal is read as that number.
pub proof fn printed_index_is_read(n: u32, s: String, text: &str, r: Option<u32>)
    requires
        call_ensures(hex32, (n, true), s),
        text@ == s@,
        call_ensures(parse_nv_index, (text,), r),
    ensures
        r == Some(n),
        s@.len() == 10,
{
    exported_number_reads_back(n);
    reveal_strlit("0x");
}

/// The characters of a text, taken out and put together again, are the text.
pub proof fn characters_make_the_text(s: &str, v: Vec<char>, n: usize, t: String)
    requires
        call_ensures(chars_of, (s,), v),
        n == v@.len(),
        call_ensures(text_of, (&v, 0usize, n), t),
    ensures
        t@ == s@,
{
    assert(v@.subrange(0, v@.len() as int) =~= v@);
}

} // verus!
