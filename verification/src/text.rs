//! Text building blocks: comparison, ordering, numerals, padding, searching.
//!
//! Text is modelled as a sequence of characters. The functions here are the
//! executable counterparts of a handful of spec functions on such sequences,
//! which the rest of the crate uses to state exactly what it prints.
use vstd::prelude::*;
use vstd::string::*;
use vstd::utf8::*;

verus! {

/// `String::push` appends one character.
pub assume_specification[ String::push ](s: &mut String, c: char)
    ensures
        final(s)@ == old(s)@.push(c),
;

/// `String::pop` removes and returns the last character, if there is one.
pub assume_specification[ String::pop ](s: &mut String) -> (c: Option<char>)
    ensures
        old(s)@.len() == 0 ==> c is None && final(s)@ == old(s)@,
        old(s)@.len() > 0 ==> c == Some(old(s)@.last()) && final(s)@ == old(s)@.drop_last(),
;

/// `str == str`: two texts are equal when they hold the same characters.
#[verifier::external_body]
pub(crate) fn same(a: &str, b: &str) -> (r: bool)
    ensures
        r == (a@ == b@),
{
    a == b
}

/// The lower-case form of a text, as `str::to_lowercase` gives it.
pub uninterp spec fn lowercase(s: Seq<char>) -> Seq<char>;

/// `str::to_lowercase`: the Unicode lower-case form, a function of the text alone.
#[verifier::external_body]
pub(crate) fn to_lowercase(s: &str) -> (r: String)
    ensures
        r@ == lowercase(s@),
{
    s.to_lowercase()
}

/// The characters of a text, in order.
pub fn chars_of(s: &str) -> (v: Vec<char>)
    ensures
        v@ == s@,
{
    let mut v: Vec<char> = Vec::new();
    for c in it: s.chars()
        invariant
            v@ == s@.take(it.index() as int),
            it.seq() == s@,
    {
        v.push(c);
        assert(v@ =~= s@.take(it.index() + 1));
    }
    v
}

/// The text made of `v[from..to]`.
pub fn text_of(v: &Vec<char>, from: usize, to: usize) -> (s: String)
    requires
        from <= to <= v@.len(),
    ensures
        s@ == v@.subrange(from as int, to as int),
{
    let mut s = String::new();
    let mut i: usize = from;
    while i < to
        invariant
            from <= i <= to <= v@.len(),
            s@ == v@.subrange(from as int, i as int),
        decreases to - i,
    {
        s.push(v[i]);
        assert(v@.subrange(from as int, i + 1) =~= v@.subrange(from as int, i as int).push(v@[i as int]));
        i += 1;
    }
    s
}

/// An optional text, as characters.
pub open spec fn opt_text(value: Option<String>) -> Option<Seq<char>> {
    match value {
        Some(s) => Some(s@),
        None => None,
    }
}

/// Optional bytes.
pub open spec fn opt_bytes(value: Option<Vec<u8>>) -> Option<Seq<u8>> {
    match value {
        Some(v) => Some(v@),
        None => None,
    }
}

/// An optional text slice, as characters.
pub open spec fn opt_str(value: Option<&str>) -> Option<Seq<char>> {
    match value {
        Some(s) => Some(s@),
        None => None,
    }
}

/// A copy of an optional text.
pub fn copy_opt(value: &Option<String>) -> (r: Option<String>)
    ensures
        opt_text(r) == opt_text(*value),
{
    match value {
        Some(s) => Some(s.clone()),
        None => None,
    }
}

/// An owned copy of an optional text slice.
pub fn own_opt(value: Option<&str>) -> (r: Option<String>)
    ensures
        opt_text(r) == opt_str(value),
{
    match value {
        Some(s) => Some(s.to_owned()),
        None => None,
    }
}

/// The text of an optional value, or a stand-in when it is absent.
pub open spec fn or_text(value: Option<String>, stand_in: Seq<char>) -> Seq<char> {
    match value {
        Some(s) => s@,
        None => stand_in,
    }
}

/// `yes` or `no`.
pub open spec fn yes_no(b: bool) -> Seq<char> {
    if b {
        "yes"@
    } else {
        "no"@
    }
}

/// Appends `yes` or `no`.
pub fn push_yes_no(out: &mut String, b: bool)
    ensures
        final(out)@ == old(out)@ + yes_no(b),
{
    if b {
        out.append("yes");
    } else {
        out.append("no");
    }
}

// ---------------------------------------------------------------------------
// Numerals
// ---------------------------------------------------------------------------

/// The decimal digit `d`.
pub open spec fn decimal_digit(d: int) -> char {
    (48 + d) as char
}

/// A natural number in decimal, without leading zeros.
pub open spec fn decimal(n: nat) -> Seq<char>
    decreases n,
{
    if n < 10 {
        seq![decimal_digit(n as int)]
    } else {
        decimal(n / 10).push(decimal_digit((n % 10) as int))
    }
}

/// Appends a natural number in decimal.
pub fn push_decimal(out: &mut String, n: u64)
    ensures
        final(out)@ == old(out)@ + decimal(n as nat),
    decreases n,
{
    if n >= 10 {
        push_decimal(out, n / 10);
    }
    let d: u8 = (n % 10) as u8;
    out.push((48u8 + d) as char);
    assert(out@ =~= old(out)@ + decimal(n as nat));
}

/// A natural number in decimal.
pub fn decimal_text(n: u64) -> (s: String)
    ensures
        s@ == decimal(n as nat),
{
    let mut s = String::new();
    push_decimal(&mut s, n);
    assert(s@ =~= decimal(n as nat));
    s
}

/// An integer in decimal, with a minus sign when it is negative.
pub open spec fn signed_decimal(n: int) -> Seq<char> {
    if n < 0 {
        "-"@ + decimal((-n) as nat)
    } else {
        decimal(n as nat)
    }
}

/// An integer in decimal.
pub fn signed_decimal_text(n: i64) -> (s: String)
    ensures
        s@ == signed_decimal(n as int),
{
    if n < 0 {
        let mut s = String::new();
        s.append("-");
        let magnitude: u64 = if n == i64::MIN {
            9223372036854775808u64
        } else {
            (-n) as u64
        };
        push_decimal(&mut s, magnitude);
        assert(s@ =~= signed_decimal(n as int));
        s
    } else {
        decimal_text(n as u64)
    }
}

/// The number that a run of decimal digits denotes; only the digits count.
pub open spec fn decimal_value(s: Seq<char>) -> nat
    decreases s.len(),
{
    if s.len() == 0 {
        0
    } else {
        (10 * decimal_value(s.drop_last()) + (s.last() as int - 48)) as nat
    }
}

/// Reading back a printed number gives the number, and every printed character is a digit.
pub proof fn decimal_reads_back(n: nat)
    ensures
        decimal_value(decimal(n)) == n,
        decimal(n).len() >= 1,
        forall|i: int| 0 <= i < decimal(n).len() ==> '0' <= #[trigger] decimal(n)[i] <= '9',
    decreases n,
{
    if n < 10 {
        assert(decimal(n).drop_last() =~= Seq::<char>::empty());
        reveal_with_fuel(decimal_value, 2);
    } else {
        decimal_reads_back(n / 10);
        assert(decimal(n).drop_last() =~= decimal(n / 10));
    }
}

/// Two different numbers print differently.
pub proof fn decimal_is_injective(a: nat, b: nat)
    requires
        decimal(a) == decimal(b),
    ensures
        a == b,
{
    decimal_reads_back(a);
    decimal_reads_back(b);
}

/// The value of a digit in a radix of ten or sixteen.
pub open spec fn digit_in(c: char, radix: int) -> Option<int> {
    let u = c as int;
    if 48 <= u <= 57 {
        Some(u - 48)
    } else if radix == 16 && 97 <= u <= 102 {
        Some(u - 87)
    } else if radix == 16 && 65 <= u <= 70 {
        Some(u - 55)
    } else {
        None
    }
}

/// Every character is a digit.
pub open spec fn all_digits(s: Seq<char>, radix: int) -> bool {
    forall|i: int| 0 <= i < s.len() ==> digit_in(#[trigger] s[i], radix) is Some
}

/// The number that digits denote.
pub open spec fn digits_value(s: Seq<char>, radix: int) -> int
    decreases s.len(),
{
    if s.len() == 0 {
        0
    } else {
        radix * digits_value(s.drop_last(), radix) + digit_in(s.last(), radix)->0
    }
}

/// A text without the one plus sign that may stand before a number.
pub open spec fn unsigned(s: Seq<char>) -> Seq<char> {
    if s.len() > 0 && s[0] == '+' {
        s.subrange(1, s.len() as int)
    } else {
        s
    }
}

/// The thirty-two-bit number that a text denotes.
pub open spec fn number32(s: Seq<char>, radix: int) -> Option<u32> {
    let d = unsigned(s);
    if d.len() > 0 && all_digits(d, radix) && digits_value(d, radix) <= u32::MAX {
        Some(digits_value(d, radix) as u32)
    } else {
        None
    }
}

/// Longer runs of digits denote no smaller numbers.
proof fn digits_value_grows(s: Seq<char>, radix: int, n: int)
    requires
        0 <= n <= s.len(),
        all_digits(s, radix),
        radix == 10 || radix == 16,
    ensures
        0 <= digits_value(s.take(n), radix) <= digits_value(s, radix),
    decreases s.len() - n,
{
    digits_value_nonnegative(s.take(n), radix);
    if n < s.len() {
        digits_value_grows(s, radix, n + 1);
        assert(s.take(n + 1).drop_last() =~= s.take(n));
        assert(digit_in(s[n], radix) is Some);
    } else {
        assert(s.take(n) =~= s);
    }
}

proof fn digits_value_nonnegative(s: Seq<char>, radix: int)
    requires
        all_digits(s, radix),
        radix == 10 || radix == 16,
    ensures
        0 <= digits_value(s, radix),
    decreases s.len(),
{
    if s.len() > 0 {
        assert(all_digits(s.drop_last(), radix)) by {
            assert forall|i: int| 0 <= i < s.drop_last().len() implies digit_in(
                #[trigger] s.drop_last()[i],
                radix,
            ) is Some by {
                assert(s.drop_last()[i] == s[i]);
            }
        }
        digits_value_nonnegative(s.drop_last(), radix);
        assert(digit_in(s[s.len() - 1], radix) is Some);
    }
}

/// The value of a digit.
fn digit_of(c: char, radix: u32) -> (r: Option<u32>)
    ensures
        match r {
            Some(n) => n < 16 && digit_in(c, radix as int) == Some(n as int),
            None => digit_in(c, radix as int) is None,
        },
{
    let u: u32 = c as u32;
    if 48 <= u && u <= 57 {
        Some(u - 48)
    } else if radix == 16 && 97 <= u && u <= 102 {
        Some(u - 87)
    } else if radix == 16 && 65 <= u && u <= 70 {
        Some(u - 55)
    } else {
        None
    }
}

/// Reads the number in `v[from..]`.
pub fn parse_number(v: &Vec<char>, from: usize, radix: u32) -> (r: Option<u32>)
    requires
        from <= v@.len(),
        radix == 10 || radix == 16,
    ensures
        r == number32(v@.subrange(from as int, v@.len() as int), radix as int),
{
    let total: usize = v.len();
    let ghost text = v@.subrange(from as int, total as int);
    let start: usize = if from < total && v[from] == '+' {
        from + 1
    } else {
        from
    };
    let ghost d = unsigned(text);
    assert(d =~= v@.subrange(start as int, total as int));
    if start == total {
        return None;
    }
    let mut value: u64 = 0;
    let mut i: usize = start;
    assert(d.take(0) =~= Seq::<char>::empty());
    while i < total
        invariant
            start <= i <= total == v@.len(),
            d == v@.subrange(start as int, total as int),
            d == unsigned(text),
            text == v@.subrange(from as int, v@.len() as int),
            radix == 10 || radix == 16,
            value <= u32::MAX,
            all_digits(d.take(i - start), radix as int),
            value == digits_value(d.take(i - start), radix as int),
        decreases total - i,
    {
        let ghost k = i - start;
        assert(d[k] == v@[i as int]);
        let digit: u64 = match digit_of(v[i], radix) {
            Some(n) => n as u64,
            None => {
                return None;
            },
        };
        assert(digit_in(d[k], radix as int) == Some(digit as int));
        assert(d.take(k + 1).drop_last() =~= d.take(k));
        assert(d.take(k + 1).last() == d[k]);
        value = if radix == 10 {
            10 * value + digit
        } else {
            16 * value + digit
        };
        assert(all_digits(d.take(k + 1), radix as int)) by {
            assert forall|j: int| 0 <= j < k + 1 implies digit_in(
                #[trigger] d.take(k + 1)[j],
                radix as int,
            ) is Some by {
                if j < k {
                    assert(d.take(k)[j] == d.take(k + 1)[j]);
                }
            }
        }
        if value > 0xFFFF_FFFF {
            proof {
                if all_digits(d, radix as int) {
                    digits_value_grows(d, radix as int, k + 1);
                }
            }
            return None;
        }
        i += 1;
    }
    assert(d.take(total - start) =~= d);
    Some(value as u32)
}

// ---------------------------------------------------------------------------
// Lines
// ---------------------------------------------------------------------------

/// A line with a label and a value.
pub open spec fn field(label: Seq<char>, value: Seq<char>) -> Seq<char> {
    label + value + "\n"@
}

/// Appends a line with a label and a value.
pub fn push_field(out: &mut String, label: &str, value: &str)
    ensures
        final(out)@ == old(out)@ + field(label@, value@),
{
    let ghost start = out@;
    out.append(label);
    out.append(value);
    out.append("\n");
    assert(out@ =~= start + field(label@, value@));
}

/// Appends a line with a label and a number.
pub fn push_number(out: &mut String, label: &str, n: u64)
    ensures
        final(out)@ == old(out)@ + field(label@, decimal(n as nat)),
{
    let value = decimal_text(n);
    push_field(out, label, value.as_str());
}

/// Appends a line with a label and `yes` or `no`.
pub fn push_choice(out: &mut String, label: &str, b: bool)
    ensures
        final(out)@ == old(out)@ + field(label@, yes_no(b)),
{
    push_field(
        out,
        label,
        if b {
            "yes"
        } else {
            "no"
        },
    );
}

/// `String::from_utf8`: the text that bytes encode, where they are UTF-8.
#[verifier::external_body]
pub(crate) fn utf8_text(bytes: Vec<u8>) -> (r: Option<String>)
    ensures
        match r {
            Some(s) => valid_utf8(bytes@) && s@ == decode_utf8(bytes@),
            None => !valid_utf8(bytes@),
        },
{
    String::from_utf8(bytes).ok()
}

/// Two texts after one another.
pub fn glue(a: &str, b: &str) -> (s: String)
    ensures
        s@ == a@ + b@,
{
    let mut s = String::new();
    s.append(a);
    s.append(b);
    assert(s@ =~= a@ + b@);
    s
}

/// A text between two others.
pub fn framed(a: &str, b: &str, c: &str) -> (s: String)
    ensures
        s@ == a@ + b@ + c@,
{
    let mut s = String::new();
    s.append(a);
    s.append(b);
    s.append(c);
    assert(s@ =~= a@ + b@ + c@);
    s
}

/// The first `n` bytes of a text, where they end between two characters.
pub open spec fn byte_prefix(s: Seq<char>, n: int) -> Seq<char> {
    decode_utf8(encode_utf8(s).subrange(0, n))
}

/// The first `n` bytes of a text.
pub fn prefix_bytes(s: &str, n: usize) -> (r: &str)
    requires
        is_char_boundary(encode_utf8(s@), n as int),
    ensures
        r@ == byte_prefix(s@, n as int),
{
    let (r, _) = s.split_at(n);
    proof {
        encode_utf8_decode_utf8(r@);
    }
    r
}

/// A time up to its seconds, or as it is where it cannot be cut there.
pub open spec fn to_the_second(t: Seq<char>) -> Seq<char> {
    if is_char_boundary(encode_utf8(t), 19) {
        byte_prefix(t, 19)
    } else {
        t
    }
}

/// A time up to its seconds, or as it is where it cannot be cut there.
pub fn cut_time(t: &str) -> (r: String)
    ensures
        r@ == to_the_second(t@),
{
    if t.is_char_boundary(19) {
        prefix_bytes(t, 19).to_owned()
    } else {
        t.to_owned()
    }
}

// ---------------------------------------------------------------------------
// Padding
// ---------------------------------------------------------------------------

/// A run of `n` spaces.
pub open spec fn spaces(n: int) -> Seq<char> {
    Seq::new(if n < 0 { 0 } else { n as nat }, |i: int| ' ')
}

/// `s` followed by enough spaces to fill `width` characters.
pub open spec fn pad_right(s: Seq<char>, width: int) -> Seq<char> {
    s + spaces(width - s.len())
}

/// `s` preceded by enough spaces to fill `width` characters.
pub open spec fn pad_left(s: Seq<char>, width: int) -> Seq<char> {
    spaces(width - s.len()) + s
}

/// Appends `n` spaces.
pub fn push_spaces(out: &mut String, n: usize)
    ensures
        final(out)@ == old(out)@ + spaces(n as int),
{
    let mut i: usize = 0;
    let ghost start = out@;
    while i < n
        invariant
            i <= n,
            out@ == start + spaces(i as int),
        decreases n - i,
    {
        out.push(' ');
        i += 1;
        assert(out@ =~= start + spaces(i as int));
    }
    assert(out@ =~= start + spaces(n as int));
}

/// Appends `s` and pads it on the right.
pub fn push_padded_right(out: &mut String, s: &str, width: usize)
    ensures
        final(out)@ == old(out)@ + pad_right(s@, width as int),
{
    let n: usize = s.unicode_len();
    let ghost start = out@;
    out.append(s);
    if n < width {
        push_spaces(out, width - n);
    }
    assert(out@ =~= start + pad_right(s@, width as int));
}

/// Appends `s` padded on the left.
pub fn push_padded_left(out: &mut String, s: &str, width: usize)
    ensures
        final(out)@ == old(out)@ + pad_left(s@, width as int),
{
    let n: usize = s.unicode_len();
    let ghost start = out@;
    if n < width {
        push_spaces(out, width - n);
    }
    out.append(s);
    assert(out@ =~= start + pad_left(s@, width as int));
}

// ---------------------------------------------------------------------------
// Lists
// ---------------------------------------------------------------------------

/// The views of a list of texts.
pub open spec fn views(parts: Seq<String>) -> Seq<Seq<char>> {
    parts.map_values(|s: String| s@)
}

/// The first `n` parts, with `sep` between neighbours.
pub open spec fn joined_prefix(parts: Seq<Seq<char>>, sep: Seq<char>, n: nat) -> Seq<char>
    decreases n,
{
    if n == 0 {
        Seq::empty()
    } else if n == 1 {
        parts[0]
    } else {
        joined_prefix(parts, sep, (n - 1) as nat) + sep + parts[n - 1]
    }
}

/// All parts, with `sep` between neighbours.
pub open spec fn joined(parts: Seq<Seq<char>>, sep: Seq<char>) -> Seq<char> {
    joined_prefix(parts, sep, parts.len())
}

/// Joins texts with a separator.
pub fn join(parts: &Vec<String>, sep: &str) -> (s: String)
    ensures
        s@ == joined(views(parts@), sep@),
{
    let mut s = String::new();
    let mut i: usize = 0;
    while i < parts.len()
        invariant
            i <= parts@.len(),
            s@ == joined_prefix(views(parts@), sep@, i as nat),
        decreases parts@.len() - i,
    {
        if i > 0 {
            s.append(sep);
        }
        s.append(parts[i].as_str());
        i += 1;
        assert(s@ =~= joined_prefix(views(parts@), sep@, i as nat));
    }
    s
}

/// Each of the first `n` texts on a line of its own, after `before`.
pub open spec fn lines_prefix(before: Seq<char>, parts: Seq<String>, n: nat) -> Seq<char>
    decreases n,
{
    if n == 0 {
        Seq::empty()
    } else {
        lines_prefix(before, parts, (n - 1) as nat) + (before + parts[n - 1]@ + "\n"@)
    }
}

/// Each text on a line of its own, after `before`.
pub open spec fn lines(before: Seq<char>, parts: Seq<String>) -> Seq<char> {
    lines_prefix(before, parts, parts.len())
}

/// Appends each text on a line of its own, after `before`.
pub fn push_lines(out: &mut String, before: &str, parts: &Vec<String>)
    ensures
        final(out)@ == old(out)@ + lines(before@, parts@),
{
    let ghost start = out@;
    let mut i: usize = 0;
    assert(out@ =~= start + lines_prefix(before@, parts@, 0));
    while i < parts.len()
        invariant
            i <= parts@.len(),
            out@ == start + lines_prefix(before@, parts@, i as nat),
        decreases parts@.len() - i,
    {
        out.append(before);
        out.append(parts[i].as_str());
        out.append("\n");
        i += 1;
        assert(out@ =~= start + lines_prefix(before@, parts@, i as nat));
    }
}

// ---------------------------------------------------------------------------
// Searching
// ---------------------------------------------------------------------------

/// `needle` stands in `hay` at position `at`.
pub open spec fn occurs_at(hay: Seq<char>, needle: Seq<char>, at: int) -> bool {
    0 <= at && at + needle.len() <= hay.len() && hay.subrange(at, at + needle.len()) == needle
}

/// `needle` stands somewhere in `hay`.
pub open spec fn contains(hay: Seq<char>, needle: Seq<char>) -> bool {
    exists|at: int| occurs_at(hay, needle, at)
}

/// Whether `needle` stands in `hay` at `at`.
fn stands_at(hay: &Vec<char>, needle: &Vec<char>, at: usize) -> (r: bool)
    requires
        at + needle@.len() <= hay@.len(),
    ensures
        r == occurs_at(hay@, needle@, at as int),
{
    let mut i: usize = 0;
    let total: usize = hay.len();
    while i < needle.len()
        invariant
            i <= needle@.len(),
            at + needle@.len() <= hay@.len() == total,
            forall|k: int| 0 <= k < i ==> hay@[at + k] == needle@[k],
        decreases needle@.len() - i,
    {
        if hay[at + i] != needle[i] {
            assert(hay@.subrange(at as int, at + needle@.len())[i as int] != needle@[i as int]);
            return false;
        }
        i += 1;
    }
    assert(hay@.subrange(at as int, at + needle@.len()) =~= needle@);
    true
}

/// Whether `needle` stands somewhere in `hay`.
pub fn has(hay: &str, needle: &str) -> (r: bool)
    ensures
        r == contains(hay@, needle@),
{
    let h = chars_of(hay);
    let n = chars_of(needle);
    if n.len() > h.len() {
        return false;
    }
    let last: usize = h.len() - n.len();
    let mut at: usize = 0;
    loop
        invariant
            at <= last,
            last == h@.len() - n@.len(),
            h@ == hay@,
            n@ == needle@,
            forall|k: int| 0 <= k < at ==> !occurs_at(hay@, needle@, k),
        decreases last - at,
    {
        if stands_at(&h, &n, at) {
            return true;
        }
        if at == last {
            assert forall|k: int| !occurs_at(hay@, needle@, k) by {}
            return false;
        }
        at += 1;
    }
}

/// Whether `s` begins with `prefix`.
pub fn begins_with(s: &str, prefix: &str) -> (r: bool)
    ensures
        r == occurs_at(s@, prefix@, 0),
{
    let h = chars_of(s);
    let n = chars_of(prefix);
    if n.len() > h.len() {
        return false;
    }
    stands_at(&h, &n, 0)
}

// ---------------------------------------------------------------------------
// White space
// ---------------------------------------------------------------------------

/// The characters with the Unicode property White_Space.
pub open spec fn is_white(c: char) -> bool {
    let u = c as int;
    9 <= u <= 13 || u == 32 || u == 0x85 || u == 0xA0 || u == 0x1680 || 0x2000 <= u <= 0x200A || u
        == 0x2028 || u == 0x2029 || u == 0x202F || u == 0x205F || u == 0x3000
}

/// Whether a character is white space.
pub fn white(c: char) -> (r: bool)
    ensures
        r == is_white(c),
{
    let u: u32 = c as u32;
    (9 <= u && u <= 13) || u == 32 || u == 0x85 || u == 0xA0 || u == 0x1680 || (0x2000 <= u && u
        <= 0x200A) || u == 0x2028 || u == 0x2029 || u == 0x202F || u == 0x205F || u == 0x3000
}

/// The text without the white space at its start.
pub open spec fn trim_start(s: Seq<char>) -> Seq<char>
    decreases s.len(),
{
    if s.len() > 0 && is_white(s[0]) {
        trim_start(s.subrange(1, s.len() as int))
    } else {
        s
    }
}

/// The text without the white space at its end.
pub open spec fn trim_end(s: Seq<char>) -> Seq<char>
    decreases s.len(),
{
    if s.len() > 0 && is_white(s.last()) {
        trim_end(s.drop_last())
    } else {
        s
    }
}

/// The text without the white space at either end.
pub open spec fn trimmed(s: Seq<char>) -> Seq<char> {
    trim_end(trim_start(s))
}

/// Removes the white space at either end.
pub fn trim(s: &str) -> (r: String)
    ensures
        r@ == trimmed(s@),
{
    let v = chars_of(s);
    let mut from: usize = 0;
    assert(v@.subrange(0, v@.len() as int) =~= v@);
    while from < v.len() && white(v[from])
        invariant
            from <= v@.len(),
            trim_start(v@.subrange(from as int, v@.len() as int)) == trim_start(v@),
        decreases v@.len() - from,
    {
        let ghost rest = v@.subrange(from as int, v@.len() as int);
        assert(rest.subrange(1, rest.len() as int) =~= v@.subrange(from + 1, v@.len() as int));
        from += 1;
    }
    let ghost rest = v@.subrange(from as int, v@.len() as int);
    assert(trim_start(rest) == rest);
    let mut to: usize = v.len();
    while to > from && white(v[to - 1])
        invariant
            from <= to <= v@.len(),
            rest == v@.subrange(from as int, v@.len() as int),
            trim_end(v@.subrange(from as int, to as int)) == trim_end(rest),
        decreases to,
    {
        let ghost cur = v@.subrange(from as int, to as int);
        assert(cur.drop_last() =~= v@.subrange(from as int, to - 1));
        assert(cur.last() == v@[to - 1]);
        to -= 1;
    }
    let ghost cur = v@.subrange(from as int, to as int);
    assert(cur.len() > 0 ==> cur.last() == v@[to - 1]);
    assert(trim_end(cur) == cur);
    text_of(&v, from, to)
}

// ---------------------------------------------------------------------------
// Splitting
// ---------------------------------------------------------------------------

/// What separates the pieces of a text.
#[derive(Clone, Copy, PartialEq, Eq, Debug, Structural)]
pub enum Separator {
    White,
    NewLine,
}

impl Separator {
    /// The character separates pieces.
    pub open spec fn separates(self, c: char) -> bool {
        match self {
            Separator::White => is_white(c),
            Separator::NewLine => c == '\n',
        }
    }
}

/// The complete pieces among the first `n` characters, and the one begun last.
pub open spec fn scanned(s: Seq<char>, by: Separator, n: nat) -> (Seq<Seq<char>>, Seq<char>)
    decreases n,
{
    if n == 0 {
        (Seq::empty(), Seq::empty())
    } else {
        let (done, cur) = scanned(s, by, (n - 1) as nat);
        let c = s[n - 1];
        if !by.separates(c) {
            (done, cur.push(c))
        } else if cur.len() > 0 {
            (done.push(cur), Seq::empty())
        } else {
            (done, cur)
        }
    }
}

/// The pieces of a text between separators, none of them empty.
pub open spec fn pieces(s: Seq<char>, by: Separator) -> Seq<Seq<char>> {
    let (done, cur) = scanned(s, by, s.len());
    if cur.len() > 0 {
        done.push(cur)
    } else {
        done
    }
}

/// The pieces of a text between separators, none of them empty.
pub fn split(s: &str, by: Separator) -> (r: Vec<String>)
    ensures
        views(r@) == pieces(s@, by),
{
    let mut r: Vec<String> = Vec::new();
    let mut cur = String::new();
    let mut empty = true;
    let v = chars_of(s);
    let mut i: usize = 0;
    assert(views(r@) =~= Seq::<Seq<char>>::empty());
    while i < v.len()
        invariant
            i <= v@.len(),
            v@ == s@,
            (views(r@), cur@) == scanned(s@, by, i as nat),
            empty == (cur@.len() == 0),
        decreases v@.len() - i,
    {
        let c: char = v[i];
        let sep = match by {
            Separator::White => white(c),
            Separator::NewLine => c == '\n',
        };
        let ghost before = views(r@);
        if !sep {
            cur.push(c);
            empty = false;
        } else if !empty {
            let ghost piece = cur@;
            r.push(cur);
            assert(views(r@) =~= before.push(piece));
            cur = String::new();
            empty = true;
        }
        i += 1;
    }
    if !empty {
        let ghost before = views(r@);
        let ghost piece = cur@;
        r.push(cur);
        assert(views(r@) =~= before.push(piece));
    }
    r
}

/// Every piece is there for a reason: it is not empty and holds no separator.
pub proof fn pieces_are_proper(s: Seq<char>, by: Separator, n: nat)
    requires
        n <= s.len(),
    ensures
        forall|i: int|
            #![trigger scanned(s, by, n).0[i]]
            0 <= i < scanned(s, by, n).0.len() ==> scanned(s, by, n).0[i].len() > 0,
        forall|i: int, k: int|
            #![trigger scanned(s, by, n).0[i][k]]
            0 <= i < scanned(s, by, n).0.len() && 0 <= k < scanned(s, by, n).0[i].len()
                ==> !by.separates(scanned(s, by, n).0[i][k]),
        forall|k: int|
            #![trigger scanned(s, by, n).1[k]]
            0 <= k < scanned(s, by, n).1.len() ==> !by.separates(scanned(s, by, n).1[k]),
    decreases n,
{
    if n > 0 {
        pieces_are_proper(s, by, (n - 1) as nat);
        let (done, cur) = scanned(s, by, (n - 1) as nat);
        let (now_done, now_cur) = scanned(s, by, n);
        assert forall|i: int| 0 <= i < now_done.len() implies (#[trigger] now_done[i]).len() > 0 by {
            if i < done.len() {
                assert(now_done[i] == done[i]);
            }
        }
        assert forall|i: int, k: int|
            0 <= i < now_done.len() && 0 <= k < now_done[i].len() implies !by.separates(
            #[trigger] now_done[i][k],
        ) by {
            if i < done.len() {
                assert(now_done[i] == done[i]);
                assert(!by.separates(done[i][k]));
            } else {
                assert(now_done[i] == cur);
                assert(!by.separates(cur[k]));
            }
        }
        assert forall|k: int| 0 <= k < now_cur.len() implies !by.separates(
            #[trigger] now_cur[k],
        ) by {
            if k < cur.len() {
                assert(now_cur[k] == cur[k]);
            }
        }
    }
}

/// The position of the first `c`; the length where there is none.
pub open spec fn first_at(s: Seq<char>, c: char) -> int
    decreases s.len(),
{
    if s.len() == 0 || s[0] == c {
        0
    } else {
        1 + first_at(s.subrange(1, s.len() as int), c)
    }
}

/// The position of the first `c`; the length where there is none.
pub fn find_char(v: &Vec<char>, c: char) -> (at: usize)
    ensures
        at == first_at(v@, c),
        at <= v@.len(),
        at < v@.len() ==> v@[at as int] == c,
{
    let mut i: usize = 0;
    assert(v@.subrange(0, v@.len() as int) =~= v@);
    while i < v.len() && v[i] != c
        invariant
            i <= v@.len(),
            first_at(v@, c) == i + first_at(v@.subrange(i as int, v@.len() as int), c),
        decreases v@.len() - i,
    {
        let ghost rest = v@.subrange(i as int, v@.len() as int);
        assert(rest.subrange(1, rest.len() as int) =~= v@.subrange(i + 1, v@.len() as int));
        i += 1;
    }
    i
}

// ---------------------------------------------------------------------------
// Order
// ---------------------------------------------------------------------------

/// Dictionary order by code point: `a` does not come after `b`.
pub open spec fn text_le(a: Seq<char>, b: Seq<char>) -> bool
    decreases a.len(),
{
    if a.len() == 0 {
        true
    } else if b.len() == 0 {
        false
    } else if a[0] != b[0] {
        a[0] < b[0]
    } else {
        text_le(a.subrange(1, a.len() as int), b.subrange(1, b.len() as int))
    }
}

/// Whether `a` does not come after `b`.
pub fn in_order(a: &str, b: &str) -> (r: bool)
    ensures
        r == text_le(a@, b@),
{
    let x = chars_of(a);
    let y = chars_of(b);
    let mut i: usize = 0;
    assert(x@.subrange(0, x@.len() as int) =~= x@);
    assert(y@.subrange(0, y@.len() as int) =~= y@);
    while i < x.len() && i < y.len() && x[i] == y[i]
        invariant
            i <= x@.len(),
            i <= y@.len(),
            text_le(a@, b@) == text_le(
                x@.subrange(i as int, x@.len() as int),
                y@.subrange(i as int, y@.len() as int),
            ),
        decreases x@.len() - i,
    {
        let ghost p = x@.subrange(i as int, x@.len() as int);
        let ghost q = y@.subrange(i as int, y@.len() as int);
        assert(p.subrange(1, p.len() as int) =~= x@.subrange(i + 1, x@.len() as int));
        assert(q.subrange(1, q.len() as int) =~= y@.subrange(i + 1, y@.len() as int));
        i += 1;
    }
    if i == x.len() {
        true
    } else if i == y.len() {
        false
    } else {
        x[i] < y[i]
    }
}

/// The order compares any two texts.
pub proof fn text_le_total(a: Seq<char>, b: Seq<char>)
    ensures
        text_le(a, b) || text_le(b, a),
    decreases a.len(),
{
    if a.len() > 0 && b.len() > 0 && a[0] == b[0] {
        text_le_total(a.subrange(1, a.len() as int), b.subrange(1, b.len() as int));
    }
}

/// The order is transitive.
pub proof fn text_le_transitive(a: Seq<char>, b: Seq<char>, c: Seq<char>)
    requires
        text_le(a, b),
        text_le(b, c),
    ensures
        text_le(a, c),
    decreases a.len(),
{
    if a.len() > 0 && b.len() > 0 && c.len() > 0 && a[0] == b[0] && b[0] == c[0] {
        text_le_transitive(
            a.subrange(1, a.len() as int),
            b.subrange(1, b.len() as int),
            c.subrange(1, c.len() as int),
        );
    }
}

/// Two texts that do not come after one another are equal.
pub proof fn text_le_antisymmetric(a: Seq<char>, b: Seq<char>)
    requires
        text_le(a, b),
        text_le(b, a),
    ensures
        a == b,
    decreases a.len(),
{
    if a.len() > 0 && b.len() > 0 {
        text_le_antisymmetric(a.subrange(1, a.len() as int), b.subrange(1, b.len() as int));
        assert(a =~= seq![a[0]] + a.subrange(1, a.len() as int));
        assert(b =~= seq![b[0]] + b.subrange(1, b.len() as int));
    } else {
        assert(a =~= b);
    }
}

} // verus!
