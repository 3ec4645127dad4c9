//! Hexadecimal text.
use vstd::prelude::*;
use vstd::string::*;
use vstd::utf8::*;

use crate::text::{trim, trimmed};

verus! {

/// The lower-case hexadecimal digit `d`.
pub open spec fn hex_digit(d: int) -> char {
    if d < 10 {
        (48 + d) as char
    } else {
        (87 + d) as char
    }
}

/// Two lower-case digits for each byte, high half first.
pub open spec fn hex_text(bytes: Seq<u8>) -> Seq<char> {
    Seq::new(
        2 * bytes.len(),
        |i: int|
            if i % 2 == 0 {
                hex_digit(bytes[i / 2] as int / 16)
            } else {
                hex_digit(bytes[i / 2] as int % 16)
            },
    )
}

/// The character for one hexadecimal digit.
fn digit_char(d: u8) -> (c: char)
    requires
        d < 16,
    ensures
        c == hex_digit(d as int),
{
    if d < 10 {
        (48u8 + d) as char
    } else {
        (87u8 + d) as char
    }
}

/// Two lower-case hexadecimal digits for each byte.
pub fn hex_encode(bytes: &[u8]) -> (s: String)
    ensures
        s@ == hex_text(bytes@),
{
    let mut s = String::new();
    let mut i: usize = 0;
    while i < bytes.len()
        invariant
            i <= bytes@.len(),
            s@ == hex_text(bytes@.take(i as int)),
        decreases bytes@.len() - i,
    {
        let b: u8 = bytes[i];
        s.push(digit_char(b / 16));
        s.push(digit_char(b % 16));
        i += 1;
        assert(s@ =~= hex_text(bytes@.take(i as int)));
    }
    assert(bytes@.take(i as int) =~= bytes@);
    s
}

/// The same text, under the name that the audit commands use.
pub fn bytes_to_hex(bytes: &[u8]) -> (s: String)
    ensures
        s@ == hex_text(bytes@),
{
    hex_encode(bytes)
}

/// `0x` and eight digits, of which the letters stand in upper case when `upper` holds.
pub open spec fn hex32_text(n: int, upper: bool) -> Seq<char> {
    "0x"@ + Seq::new(8, |i: int| hex32_digit(n, i, upper))
}

/// Digit `i` of the eight, counted from the left.
pub open spec fn hex32_digit(n: int, i: int, upper: bool) -> char {
    let weight = if i == 0 {
        0x10000000int
    } else if i == 1 {
        0x1000000
    } else if i == 2 {
        0x100000
    } else if i == 3 {
        0x10000
    } else if i == 4 {
        0x1000
    } else if i == 5 {
        0x100
    } else if i == 6 {
        0x10
    } else {
        1
    };
    let d = (n / weight) % 16;
    if upper && d >= 10 {
        (55 + d) as char
    } else {
        hex_digit(d)
    }
}

/// `0x` and eight hexadecimal digits.
pub fn hex32(n: u32, upper: bool) -> (s: String)
    ensures
        s@ == hex32_text(n as int, upper),
{
    let mut s = String::new();
    s.append("0x");
    let mut weight: u32 = 0x10000000;
    let mut i: usize = 0;
    while i < 8
        invariant
            i <= 8,
            i == 0 ==> weight == 0x10000000,
            i == 1 ==> weight == 0x1000000,
            i == 2 ==> weight == 0x100000,
            i == 3 ==> weight == 0x10000,
            i == 4 ==> weight == 0x1000,
            i == 5 ==> weight == 0x100,
            i == 6 ==> weight == 0x10,
            i == 7 ==> weight == 1,
            s@ == "0x"@ + Seq::new(i as nat, |k: int| hex32_digit(n as int, k, upper)),
        decreases 8 - i,
    {
        let d: u8 = ((n / weight) % 16) as u8;
        let ghost before = s@;
        if upper && d >= 10 {
            s.push((55u8 + d) as char);
        } else {
            s.push(digit_char(d));
        }
        weight = weight / 16;
        i += 1;
        assert(s@ =~= "0x"@ + Seq::new(i as nat, |k: int| hex32_digit(n as int, k, upper)));
    }
    s
}

/// What is wrong with a hexadecimal text.
#[derive(Clone, Copy, PartialEq, Eq, Debug, Structural)]
pub enum HexError {
    /// The text has an odd number of bytes.
    OddLength,
    /// Some pair of bytes is no number.
    InvalidDigit,
}

/// The value of a hexadecimal digit, in either case.
pub open spec fn digit_value(b: int) -> Option<int> {
    if 48 <= b <= 57 {
        Some(b - 48)
    } else if 97 <= b <= 102 {
        Some(b - 87)
    } else if 65 <= b <= 70 {
        Some(b - 55)
    } else {
        None
    }
}

/// The value of a pair: two digits, or a plus sign and one digit.
pub open spec fn pair_value(hi: int, lo: int) -> Option<int> {
    match digit_value(lo) {
        None => None,
        Some(l) => if hi == 43 {
            Some(l)
        } else {
            match digit_value(hi) {
                None => None,
                Some(h) => Some(16 * h + l),
            }
        },
    }
}

/// The bytes that a hexadecimal text of UTF-8 bytes `t` denotes.
pub open spec fn hex_bytes(t: Seq<u8>) -> Result<Seq<u8>, HexError> {
    if t.len() % 2 != 0 {
        Err(HexError::OddLength)
    } else if exists|i: int| 0 <= i < t.len() / 2 && #[trigger] pair_at(t, i) is None {
        Err(HexError::InvalidDigit)
    } else {
        Ok(Seq::new(t.len() / 2, |i: int| pair_at(t, i)->0 as u8))
    }
}

/// The value of pair `i`.
pub open spec fn pair_at(t: Seq<u8>, i: int) -> Option<int> {
    pair_value(t[2 * i] as int, t[2 * i + 1] as int)
}

fn digit(b: u8) -> (r: Option<u8>)
    ensures
        r is Some <==> digit_value(b as int) is Some,
        r is Some ==> r->0 == digit_value(b as int)->0 && r->0 < 16,
{
    if 48 <= b && b <= 57 {
        Some(b - 48)
    } else if 97 <= b && b <= 102 {
        Some(b - 87)
    } else if 65 <= b && b <= 70 {
        Some(b - 55)
    } else {
        None
    }
}

fn pair(hi: u8, lo: u8) -> (r: Option<u8>)
    ensures
        r is Some <==> pair_value(hi as int, lo as int) is Some,
        r is Some ==> r->0 == pair_value(hi as int, lo as int)->0,
{
    match digit(lo) {
        None => None,
        Some(l) => if hi == 43 {
            Some(l)
        } else {
            match digit(hi) {
                None => None,
                Some(h) => Some(16 * h + l),
            }
        },
    }
}

/// Reads a hexadecimal text. A pair of bytes that splits a longer character is
/// refused like any other pair that is no number.
pub fn hex_to_bytes(s: &str) -> (r: Result<Vec<u8>, HexError>)
    ensures
        match r {
            Ok(v) => hex_bytes(encode_utf8(s@)) == Ok::<Seq<u8>, HexError>(v@),
            Err(e) => hex_bytes(encode_utf8(s@)) == Err::<Seq<u8>, HexError>(e),
        },
{
    let t = s.as_bytes();
    if t.len() % 2 != 0 {
        return Err(HexError::OddLength);
    }
    let mut v: Vec<u8> = Vec::new();
    let total: usize = t.len();
    let n: usize = total / 2;
    let mut i: usize = 0;
    while i < n
        invariant
            i <= n,
            t@ == encode_utf8(s@),
            t@.len() == 2 * n == total,
            v@.len() == i,
            forall|k: int| 0 <= k < i ==> #[trigger] pair_at(t@, k) == Some(v@[k] as int),
        decreases n - i,
    {
        match pair(t[2 * i], t[2 * i + 1]) {
            None => {
                assert(0 <= i < t@.len() / 2);
                assert(pair_at(t@, i as int) is None);
                return Err(HexError::InvalidDigit);
            },
            Some(b) => {
                v.push(b);
            },
        }
        i += 1;
    }
    assert(v@ =~= Seq::new(t@.len() / 2, |i: int| pair_at(t@, i)->0 as u8));
    Ok(v)
}

/// Reads a hexadecimal text after removing the white space round it.
pub fn hex_decode(s: &str) -> (r: Result<Vec<u8>, HexError>)
    ensures
        match r {
            Ok(v) => hex_bytes(encode_utf8(trimmed(s@))) == Ok::<Seq<u8>, HexError>(v@),
            Err(e) => hex_bytes(encode_utf8(trimmed(s@))) == Err::<Seq<u8>, HexError>(e),
        },
{
    let t = trim(s);
    hex_to_bytes(t.as_str())
}

/// Reading back what was printed gives the bytes, whatever they are.
pub proof fn hex_round_trip(bytes: Seq<u8>)
    ensures
        hex_bytes(encode_utf8(hex_text(bytes))) == Ok::<Seq<u8>, HexError>(bytes),
        hex_text(bytes).len() == 2 * bytes.len(),
{
    let text = hex_text(bytes);
    assert(is_ascii_chars(text)) by {
        assert forall|i: int| 0 <= i < text.len() implies 0 <= (#[trigger] text[i] as u32) < 128 by {
            assert(0 <= bytes[i / 2] as int / 16 < 16);
        }
    }
    is_ascii_chars_encode_utf8(text);
    let t = encode_utf8(text);
    assert(t.len() == text.len());
    assert forall|i: int| 0 <= i < t.len() / 2 implies #[trigger] pair_at(t, i) == Some(bytes[i] as int) by {
        let b = bytes[i] as int;
        assert((2 * i) / 2 == i && (2 * i + 1) / 2 == i && (2 * i) % 2 == 0 && (2 * i + 1) % 2 == 1);
        assert(text[2 * i] == hex_digit(b / 16));
        assert(text[2 * i + 1] == hex_digit(b % 16));
        assert(t[2 * i] == text[2 * i] as u8);
        assert(t[2 * i + 1] == text[2 * i + 1] as u8);
        assert(0 <= b / 16 < 16);
        assert(16 * (b / 16) + b % 16 == b);
    }
    assert(Seq::new(t.len() / 2, |i: int| pair_at(t, i)->0 as u8) =~= bytes);
}

/// Different byte strings print differently.
pub proof fn hex_is_injective(a: Seq<u8>, b: Seq<u8>)
    requires
        hex_text(a) == hex_text(b),
    ensures
        a == b,
{
    hex_round_trip(a);
    hex_round_trip(b);
}

} // verus!
