//! TLS identities whose key stays in the TPM: reading the public point out of a
//! marshalled key, and turning TPM signatures into the form that TLS expects.
use vstd::prelude::*;
use vstd::slice::*;
use vstd::string::*;

use crate::commands::common::copy_bytes;
use crate::failure::Failure;
use crate::model::{Algorithm, Identity, KeyHandle, ObjectView, TpmObject};
use crate::store::{MemoryStore, StoreState};
use crate::table::{lookup, lookup_id};
use crate::tpm2::{
    be16, be16_reads_back, put_bytes, read16, read32, sized, TPM_ALG_ECC, TPM_ALG_ECDSA,
    TPM_ALG_NULL,
};
use crate::vtpm_bridge::bytes_equal;

verus! {

// ---------------------------------------------------------------------------
// The public point
// ---------------------------------------------------------------------------

/// What is wrong with a marshalled public key.
#[derive(Clone, Copy, PartialEq, Eq, Debug, Structural)]
pub enum EccError {
    /// The structure ends inside a field.
    Truncated,
    /// The key is not an elliptic-curve key.
    NotEcc,
}

impl EccError {
    /// The message that is shown for the error.
    pub open spec fn text(self) -> Seq<char> {
        match self {
            EccError::Truncated => "TPM2B_PUBLIC truncated"@,
            EccError::NotEcc => "not an ECC TPM2B_PUBLIC"@,
        }
    }

    /// The message that is shown for the error.
    pub fn message(&self) -> (m: &'static str)
        ensures
            m@ == self.text(),
    {
        match self {
            EccError::Truncated => "TPM2B_PUBLIC truncated",
            EccError::NotEcc => "not an ECC TPM2B_PUBLIC",
        }
    }
}

/// The sixteen-bit word at `p`, if the bytes reach that far.
pub open spec fn word(b: Seq<u8>, p: int) -> Option<int> {
    if p + 2 <= b.len() {
        Some(read16(b, p))
    } else {
        None
    }
}

/// The sized byte string at `p`, if the bytes reach that far.
pub open spec fn sized_at(b: Seq<u8>, p: int) -> Option<Seq<u8>> {
    match word(b, p) {
        None => None,
        Some(n) => if p + 2 + n <= b.len() {
            Some(b.subrange(p + 2, p + 2 + n))
        } else {
            None
        },
    }
}

/// The position behind an algorithm at `p`, which has `words` words of
/// parameters unless it is the null algorithm.
pub open spec fn after_algorithm(b: Seq<u8>, p: int, words: int) -> Option<int> {
    match word(b, p) {
        None => None,
        Some(w) => if w == TPM_ALG_NULL {
            Some(p + 2)
        } else if p + 2 + 2 * words <= b.len() {
            Some(p + 2 + 2 * words)
        } else {
            None
        },
    }
}

/// The position of the two coordinates: behind the policy, the symmetric
/// algorithm, the scheme, the curve and the key derivation.
pub open spec fn coordinates_at(b: Seq<u8>) -> Option<int> {
    match sized_at(b, 10) {
        None => None,
        Some(policy) => match after_algorithm(b, 12 + policy.len() as int, 2) {
            None => None,
            Some(scheme) => match after_algorithm(b, scheme, 1) {
                None => None,
                Some(curve) => after_algorithm(b, curve + 2, 1),
            },
        },
    }
}

/// A coordinate, padded with zeros on the left to `width` bytes.
pub open spec fn fixed(coord: Seq<u8>, width: nat) -> Seq<u8> {
    if coord.len() < width {
        Seq::new((width - coord.len()) as nat, |i: int| 0u8) + coord
    } else {
        coord
    }
}

/// The uncompressed point of two coordinates.
pub open spec fn uncompressed(x: Seq<u8>, y: Seq<u8>) -> Seq<u8> {
    seq![4u8] + fixed(x, 32) + fixed(y, 32)
}

/// The point that a marshalled public key holds.
pub open spec fn ecc_point(b: Seq<u8>) -> Result<Seq<u8>, EccError> {
    if b.len() < 4 {
        Err(EccError::Truncated)
    } else if read16(b, 2) != TPM_ALG_ECC {
        Err(EccError::NotEcc)
    } else {
        match coordinates_at(b) {
            None => Err(EccError::Truncated),
            Some(p) => match sized_at(b, p) {
                None => Err(EccError::Truncated),
                Some(x) => match sized_at(b, p + 2 + x.len()) {
                    None => Err(EccError::Truncated),
                    Some(y) => Ok(uncompressed(x, y)),
                },
            },
        }
    }
}

/// A position in a byte string.
pub struct Reader<'a> {
    b: &'a [u8],
    p: usize,
}

impl<'a> Reader<'a> {
    /// The bytes that are read from.
    pub closed spec fn bytes(&self) -> Seq<u8> {
        self.b@
    }

    /// How far the reading has come.
    pub closed spec fn at(&self) -> int {
        self.p as int
    }

    /// The position lies inside the bytes.
    pub open spec fn wf(&self) -> bool {
        0 <= self.at() <= self.bytes().len()
    }

    /// Starts at the first byte.
    pub fn new(b: &'a [u8]) -> (r: Reader<'a>)
        ensures
            r.wf(),
            r.bytes() == b@,
            r.at() == 0,
    {
        Reader { b, p: 0 }
    }

    /// The next `n` bytes.
    pub fn take(&mut self, n: usize) -> (s: Result<&'a [u8], EccError>)
        requires
            old(self).wf(),
        ensures
            final(self).wf(),
            final(self).bytes() == old(self).bytes(),
            match s {
                Ok(v) => old(self).at() + n <= old(self).bytes().len() && v@
                    == old(self).bytes().subrange(old(self).at(), old(self).at() + n)
                    && final(self).at() == old(self).at() + n,
                Err(e) => old(self).at() + n > old(self).bytes().len() && e == EccError::Truncated
                    && final(self).at() == old(self).at(),
            },
    {
        if self.b.len() - self.p < n {
            return Err(EccError::Truncated);
        }
        let end: usize = self.p + n;
        let s = slice_subrange(self.b, self.p, end);
        self.p = end;
        Ok(s)
    }

    /// The next word.
    pub fn u16(&mut self) -> (w: Result<u16, EccError>)
        requires
            old(self).wf(),
        ensures
            final(self).wf(),
            final(self).bytes() == old(self).bytes(),
            match w {
                Ok(v) => word(old(self).bytes(), old(self).at()) == Some(v as int)
                    && final(self).at() == old(self).at() + 2,
                Err(e) => word(old(self).bytes(), old(self).at()) is None && e
                    == EccError::Truncated && final(self).at() == old(self).at(),
            },
    {
        match self.take(2) {
            Ok(s) => Ok(s[0] as u16 * 256 + s[1] as u16),
            Err(e) => Err(e),
        }
    }

    /// The next double word.
    pub fn u32(&mut self) -> (w: Result<u32, EccError>)
        requires
            old(self).wf(),
        ensures
            final(self).wf(),
            final(self).bytes() == old(self).bytes(),
            match w {
                Ok(v) => old(self).at() + 4 <= old(self).bytes().len() && v == read32(
                    old(self).bytes(),
                    old(self).at(),
                ) && final(self).at() == old(self).at() + 4,
                Err(e) => old(self).at() + 4 > old(self).bytes().len() && e == EccError::Truncated
                    && final(self).at() == old(self).at(),
            },
    {
        match self.take(4) {
            Ok(s) => Ok(
                s[0] as u32 * 0x1000000 + s[1] as u32 * 0x10000 + s[2] as u32 * 0x100 + s[3] as u32,
            ),
            Err(e) => Err(e),
        }
    }

    /// Passes over `n` bytes.
    pub fn skip(&mut self, n: usize) -> (s: Result<(), EccError>)
        requires
            old(self).wf(),
        ensures
            final(self).wf(),
            final(self).bytes() == old(self).bytes(),
            match s {
                Ok(_) => old(self).at() + n <= old(self).bytes().len() && final(self).at()
                    == old(self).at() + n,
                Err(e) => old(self).at() + n > old(self).bytes().len() && e == EccError::Truncated
                    && final(self).at() == old(self).at(),
            },
    {
        match self.take(n) {
            Ok(_) => Ok(()),
            Err(e) => Err(e),
        }
    }

    /// The next sized byte string.
    pub fn tpm2b(&mut self) -> (s: Result<&'a [u8], EccError>)
        requires
            old(self).wf(),
        ensures
            final(self).wf(),
            final(self).bytes() == old(self).bytes(),
            match s {
                Ok(v) => sized_at(old(self).bytes(), old(self).at()) == Some(v@)
                    && final(self).at() == old(self).at() + 2 + v@.len(),
                Err(e) => sized_at(old(self).bytes(), old(self).at()) is None && e
                    == EccError::Truncated,
            },
    {
        match self.u16() {
            Ok(n) => self.take(n as usize),
            Err(e) => Err(e),
        }
    }

    /// Passes over an algorithm with `words` words of parameters.
    fn algorithm(&mut self, words: usize) -> (s: Result<(), EccError>)
        requires
            old(self).wf(),
            words <= 2,
        ensures
            final(self).wf(),
            final(self).bytes() == old(self).bytes(),
            match s {
                Ok(_) => after_algorithm(old(self).bytes(), old(self).at(), words as int) == Some(
                    final(self).at(),
                ),
                Err(e) => after_algorithm(old(self).bytes(), old(self).at(), words as int) is None
                    && e == EccError::Truncated,
            },
    {
        match self.u16() {
            Err(e) => Err(e),
            Ok(alg) => if alg != TPM_ALG_NULL {
                self.skip(2 * words)
            } else {
                Ok(())
            },
        }
    }
}

/// Appends a coordinate, padded on the left to `width` bytes.
fn push_fixed(out: &mut Vec<u8>, coord: &[u8], width: usize)
    ensures
        final(out)@ == old(out)@ + fixed(coord@, width as nat),
{
    let ghost start = out@;
    if coord.len() < width {
        let pad: usize = width - coord.len();
        let mut i: usize = 0;
        while i < pad
            invariant
                i <= pad,
                out@ == start + Seq::new(i as nat, |k: int| 0u8),
            decreases pad - i,
        {
            out.push(0);
            i += 1;
            assert(out@ =~= start + Seq::new(i as nat, |k: int| 0u8));
        }
    }
    put_bytes(out, coord);
    assert(out@ =~= start + fixed(coord@, width as nat));
}

/// The uncompressed point in a marshalled elliptic-curve public key.
pub fn parse_ecc_point(t2b: &[u8]) -> (r: Result<Vec<u8>, EccError>)
    ensures
        match r {
            Ok(v) => ecc_point(t2b@) == Ok::<Seq<u8>, EccError>(v@),
            Err(e) => ecc_point(t2b@) == Err::<Seq<u8>, EccError>(e),
        },
{
    let mut r = Reader::new(t2b);
    r.u16()?;
    if r.u16()? != TPM_ALG_ECC {
        return Err(EccError::NotEcc);
    }
    r.u16()?;
    r.u32()?;
    r.tpm2b()?;
    r.algorithm(2)?;
    r.algorithm(1)?;
    r.u16()?;
    r.algorithm(1)?;
    let x = r.tpm2b()?;
    let y = r.tpm2b()?;
    let mut point: Vec<u8> = Vec::new();
    point.push(4);
    push_fixed(&mut point, x, 32);
    push_fixed(&mut point, y, 32);
    assert(point@ =~= uncompressed(x@, y@));
    Ok(point)
}

/// The marshalled form of an elliptic-curve key without a policy, whose
/// scheme is ECDSA over some hash.
pub open spec fn marshalled_key(
    name_alg: u16,
    attributes: Seq<u8>,
    hash: u16,
    curve: u16,
    x: Seq<u8>,
    y: Seq<u8>,
) -> Seq<u8> {
    sized(
        be16(TPM_ALG_ECC as int) + be16(name_alg as int) + attributes + be16(0) + be16(
            TPM_ALG_NULL as int,
        ) + be16(TPM_ALG_ECDSA as int) + be16(hash as int) + be16(curve as int) + be16(
            TPM_ALG_NULL as int,
        ) + sized(x) + sized(y),
    )
}

/// A part at a known place of a longer byte string reads as itself.
proof fn word_in(b: Seq<u8>, at: int, n: u16)
    requires
        0 <= at,
        at + 2 <= b.len(),
        b.subrange(at, at + 2) == be16(n as int),
    ensures
        word(b, at) == Some(n as int),
{
    be16_reads_back(n, Seq::empty(), Seq::empty());
    assert(Seq::<u8>::empty() + be16(n as int) + Seq::<u8>::empty() =~= be16(n as int));
    assert(b.subrange(at, at + 2)[0] == b[at]);
    assert(b.subrange(at, at + 2)[1] == b[at + 1]);
}

/// The point of a marshalled key is the point that went into it, whatever its
/// coordinates, attributes, hash and curve.
#[verifier::rlimit(60)]
pub proof fn marshalled_key_reads_back(
    name_alg: u16,
    attributes: Seq<u8>,
    hash: u16,
    curve: u16,
    x: Seq<u8>,
    y: Seq<u8>,
)
    requires
        attributes.len() == 4,
        x.len() < 0x10000,
        y.len() < 0x10000,
    ensures
        ecc_point(marshalled_key(name_alg, attributes, hash, curve, x, y)) == Ok::<
            Seq<u8>,
            EccError,
        >(uncompressed(x, y)),
{
    let b = marshalled_key(name_alg, attributes, hash, curve, x, y);
    assert(b.subrange(2, 4) =~= be16(TPM_ALG_ECC as int));
    word_in(b, 2, TPM_ALG_ECC);
    assert(b.subrange(10, 12) =~= be16(0));
    word_in(b, 10, 0);
    assert(b.subrange(12, 14) =~= be16(TPM_ALG_NULL as int));
    word_in(b, 12, TPM_ALG_NULL);
    assert(b.subrange(14, 16) =~= be16(TPM_ALG_ECDSA as int));
    word_in(b, 14, TPM_ALG_ECDSA);
    assert(b.subrange(20, 22) =~= be16(TPM_ALG_NULL as int));
    word_in(b, 20, TPM_ALG_NULL);
    assert(b.subrange(22, 24) =~= be16(x.len() as int));
    word_in(b, 22, x.len() as u16);
    assert(b.subrange(24, 24 + x.len() as int) =~= x);
    let at = 24 + x.len() as int;
    assert(b.subrange(at, at + 2) =~= be16(y.len() as int));
    word_in(b, at, y.len() as u16);
    assert(b.subrange(at + 2, at + 2 + y.len()) =~= y);
}

// ---------------------------------------------------------------------------
// Signatures
// ---------------------------------------------------------------------------

/// The shortest form of a big-endian number: no leading zero byte but for zero itself.
pub open spec fn stripped(b: Seq<u8>) -> Seq<u8>
    decreases b.len(),
{
    if b.len() > 1 && b[0] == 0 {
        stripped(b.subrange(1, b.len() as int))
    } else {
        b
    }
}

/// The contents of the DER integer for a big-endian number: the shortest form
/// that does not read as negative.
pub open spec fn integer_contents(b: Seq<u8>) -> Seq<u8> {
    let s = stripped(b);
    if s.len() > 0 && s[0] >= 0x80 {
        seq![0u8] + s
    } else {
        s
    }
}

/// A DER integer. The length takes one byte.
pub open spec fn der_integer(b: Seq<u8>) -> Seq<u8> {
    let c = integer_contents(b);
    seq![2u8, (c.len() % 256) as u8] + c
}

/// A DER sequence of two integers. The length takes one byte.
pub open spec fn der_signature(r: Seq<u8>, s: Seq<u8>) -> Seq<u8> {
    let body = der_integer(r) + der_integer(s);
    seq![0x30u8, (body.len() % 256) as u8] + body
}

/// A DER integer for a big-endian number.
pub fn der_uint(b: &[u8]) -> (out: Vec<u8>)
    ensures
        out@ == der_integer(b@),
{
    let mut from: usize = 0;
    let total: usize = b.len();
    assert(b@.subrange(0, b@.len() as int) =~= b@);
    while total - from > 1 && b[from] == 0
        invariant
            from <= total == b@.len(),
            stripped(b@.subrange(from as int, total as int)) == stripped(b@),
        decreases total - from,
    {
        let ghost rest = b@.subrange(from as int, total as int);
        assert(rest.subrange(1, rest.len() as int) =~= b@.subrange(from + 1, total as int));
        from += 1;
    }
    let s = slice_subrange(b, from, total);
    assert(stripped(s@) == s@);
    let mut out: Vec<u8> = Vec::new();
    out.push(2);
    if s.len() > 0 && s[0] >= 0x80 {
        let wide: u128 = s.len() as u128 + 1;
        out.push((wide % 256) as u8);
        out.push(0);
    } else {
        out.push((s.len() % 256) as u8);
    }
    put_bytes(&mut out, s);
    assert(out@ =~= der_integer(b@));
    out
}

/// A DER sequence of two integers.
pub fn der_ecdsa_sig(r: &[u8], s: &[u8]) -> (out: Vec<u8>)
    ensures
        out@ == der_signature(r@, s@),
{
    let mut body = der_uint(r);
    let second = der_uint(s);
    put_bytes(&mut body, second.as_slice());
    let mut out: Vec<u8> = Vec::new();
    out.push(0x30);
    out.push((body.len() % 256) as u8);
    put_bytes(&mut out, body.as_slice());
    assert(out@ =~= der_signature(r@, s@));
    out
}

/// The DER form of a TPM signature structure: ECDSA, a hash, and two sized
/// numbers that are not empty.
pub open spec fn tpmt_to_der(sig: Seq<u8>) -> Option<Seq<u8>> {
    if sig.len() < 6 || read16(sig, 0) != TPM_ALG_ECDSA {
        None
    } else {
        match sized_at(sig, 4) {
            None => None,
            Some(r) => match sized_at(sig, 6 + r.len() as int) {
                None => None,
                Some(s) => if r.len() == 0 || s.len() == 0 {
                    None
                } else {
                    Some(der_signature(r, s))
                },
            },
        }
    }
}

/// Turns a TPM signature structure into a DER signature.
pub fn ecdsa_tpmt_to_der(sig: &[u8]) -> (d: Option<Vec<u8>>)
    ensures
        match d {
            Some(v) => tpmt_to_der(sig@) == Some(v@),
            None => tpmt_to_der(sig@) is None,
        },
{
    if sig.len() < 6 {
        return None;
    }
    let mut reader = Reader::new(sig);
    match reader.u16() {
        Err(_) => {
            return None;
        },
        Ok(alg) => {
            if alg != TPM_ALG_ECDSA {
                return None;
            }
        },
    }
    if reader.skip(2).is_err() {
        return None;
    }
    match reader.tpm2b() {
        Err(_) => None,
        Ok(r) => match reader.tpm2b() {
            Err(_) => None,
            Ok(s) => if r.len() == 0 || s.len() == 0 {
                None
            } else {
                Some(der_ecdsa_sig(r, s))
            },
        },
    }
}

/// The structure that a TPM gives out for a signature.
pub open spec fn tpmt(hash: u16, r: Seq<u8>, s: Seq<u8>) -> Seq<u8> {
    be16(TPM_ALG_ECDSA as int) + be16(hash as int) + sized(r) + sized(s)
}

/// Every well-formed TPM signature is turned into the DER signature of its two numbers.
pub proof fn tpmt_converts(hash: u16, r: Seq<u8>, s: Seq<u8>)
    requires
        0 < r.len() < 0x10000,
        0 < s.len() < 0x10000,
    ensures
        tpmt_to_der(tpmt(hash, r, s)) == Some(der_signature(r, s)),
{
    let b = tpmt(hash, r, s);
    assert(b.subrange(0, 2) =~= be16(TPM_ALG_ECDSA as int));
    word_in(b, 0, TPM_ALG_ECDSA);
    assert(b.subrange(4, 6) =~= be16(r.len() as int));
    word_in(b, 4, r.len() as u16);
    assert(b.subrange(6, 6 + r.len() as int) =~= r);
    let at = 6 + r.len() as int;
    assert(b.subrange(at, at + 2) =~= be16(s.len() as int));
    word_in(b, at, s.len() as u16);
    assert(b.subrange(at + 2, at + 2 + s.len()) =~= s);
}

/// The number that big-endian bytes denote.
pub open spec fn big_endian(b: Seq<u8>) -> nat
    decreases b.len(),
{
    if b.len() == 0 {
        0
    } else {
        big_endian(b.drop_last()) * 256 + b.last() as nat
    }
}

/// A leading zero byte does not change the number.
proof fn leading_zero(b: Seq<u8>)
    ensures
        big_endian(seq![0u8] + b) == big_endian(b),
    decreases b.len(),
{
    let z = seq![0u8] + b;
    if b.len() == 0 {
        assert(z.drop_last() =~= Seq::<u8>::empty());
        reveal_with_fuel(big_endian, 2);
    } else {
        leading_zero(b.drop_last());
        assert(z.drop_last() =~= seq![0u8] + b.drop_last());
        assert(z.last() == b.last());
    }
}

/// Leading zero bytes do not change the number.
pub proof fn leading_zeros_keep_the_number(zeros: nat, b: Seq<u8>)
    ensures
        big_endian(Seq::new(zeros, |i: int| 0u8) + b) == big_endian(b),
    decreases zeros,
{
    if zeros == 0 {
        assert(Seq::new(zeros, |i: int| 0u8) + b =~= b);
    } else {
        let fewer = Seq::new((zeros - 1) as nat, |i: int| 0u8) + b;
        leading_zeros_keep_the_number((zeros - 1) as nat, b);
        leading_zero(fewer);
        assert(Seq::new(zeros, |i: int| 0u8) + b =~= seq![0u8] + fewer);
    }
}

proof fn stripping_keeps(b: Seq<u8>)
    ensures
        big_endian(stripped(b)) == big_endian(b),
        stripped(b).len() <= b.len(),
        b.len() > 0 ==> stripped(b).len() > 0,
        stripped(b).len() > 1 ==> stripped(b)[0] != 0,
    decreases b.len(),
{
    if b.len() > 1 && b[0] == 0 {
        let rest = b.subrange(1, b.len() as int);
        stripping_keeps(rest);
        leading_zero(rest);
        assert(seq![0u8] + rest =~= b);
    }
}

/// A DER integer holds the same number as the bytes it was made from, never
/// reads as negative, and spends no byte more than that takes.
pub proof fn der_integer_keeps_the_number(b: Seq<u8>)
    requires
        b.len() > 0,
    ensures
        big_endian(integer_contents(b)) == big_endian(b),
        integer_contents(b).len() > 0,
        integer_contents(b)[0] < 0x80,
        integer_contents(b).len() > 1 && integer_contents(b)[0] == 0 ==> integer_contents(b)[1]
            >= 0x80,
        integer_contents(b).len() <= b.len() + 1,
{
    stripping_keeps(b);
    leading_zero(stripped(b));
}

/// Leading zero bytes never change a DER integer.
pub proof fn leading_zeros_do_not_count(zeros: nat, b: Seq<u8>)
    requires
        b.len() > 0,
    ensures
        der_integer(Seq::new(zeros, |i: int| 0u8) + b) == der_integer(b),
    decreases zeros,
{
    let padded = Seq::new(zeros, |i: int| 0u8) + b;
    if zeros == 0 {
        assert(padded =~= b);
    } else {
        let fewer = Seq::new((zeros - 1) as nat, |i: int| 0u8) + b;
        leading_zeros_do_not_count((zeros - 1) as nat, b);
        assert(padded.subrange(1, padded.len() as int) =~= fewer);
        assert(stripped(padded) == stripped(fewer));
    }
}

/// Any run of zero bytes is the DER integer zero.
pub proof fn zeros_are_zero(zeros: nat)
    requires
        zeros > 0,
    ensures
        der_integer(Seq::new(zeros, |i: int| 0u8)) == seq![2u8, 1u8, 0u8],
{
    let one = seq![0u8];
    leading_zeros_do_not_count((zeros - 1) as nat, one);
    assert(Seq::new((zeros - 1) as nat, |i: int| 0u8) + one =~= Seq::new(zeros, |i: int| 0u8));
    assert(der_integer(one) =~= seq![2u8, 1u8, 0u8]);
}

/// For coordinates of up to thirty-two bytes the one-byte lengths are exact.
pub proof fn p256_signature_lengths(r: Seq<u8>, s: Seq<u8>)
    requires
        0 < r.len() <= 32,
        0 < s.len() <= 32,
    ensures
        der_signature(r, s)[1] == der_signature(r, s).len() - 2,
        der_integer(r)[1] == der_integer(r).len() - 2,
        der_integer(s)[1] == der_integer(s).len() - 2,
{
    der_integer_keeps_the_number(r);
    der_integer_keeps_the_number(s);
}

// ---------------------------------------------------------------------------
// Identities
// ---------------------------------------------------------------------------

/// The signature schemes that a TPM key can serve in a handshake.
#[derive(Clone, Copy, PartialEq, Eq, Debug, Structural)]
pub enum TlsScheme {
    EcdsaNistp256Sha256,
}

/// How an algorithm is called where it is refused.
pub open spec fn algorithm_word(alg: Algorithm) -> Seq<char> {
    match alg {
        Algorithm::EccP256 => "EccP256"@,
        Algorithm::EccP384 => "EccP384"@,
        Algorithm::Rsa2048 => "Rsa2048"@,
        Algorithm::Rsa3072 => "Rsa3072"@,
    }
}

/// The message for an algorithm that TLS is not supported with.
pub open spec fn scheme_refusal(alg: Algorithm) -> Seq<char> {
    "TLS-from-TPM currently supports ecc-p256 identities, not "@ + algorithm_word(alg)
}

/// The scheme of a key algorithm, where TLS is supported with it.
pub fn scheme_for(alg: Algorithm) -> (r: Result<TlsScheme, Failure>)
    ensures
        match r {
            Ok(s) => alg == Algorithm::EccP256 && s == TlsScheme::EcdsaNistp256Sha256,
            Err(e) => alg != Algorithm::EccP256 && e@ == scheme_refusal(alg),
        },
{
    let text = "TLS-from-TPM currently supports ecc-p256 identities, not ";
    match alg {
        Algorithm::EccP256 => Ok(TlsScheme::EcdsaNistp256Sha256),
        Algorithm::EccP384 => Err(Failure::about(text, "EccP384")),
        Algorithm::Rsa2048 => Err(Failure::about(text, "Rsa2048")),
        Algorithm::Rsa3072 => Err(Failure::about(text, "Rsa3072")),
    }
}

/// The certificates in a PEM text, or why it cannot be read.
pub uninterp spec fn pem_certificates(pem: Seq<char>) -> Result<Seq<Seq<u8>>, Seq<char>>;

/// The contents of byte strings.
pub open spec fn byte_views(v: Seq<Vec<u8>>) -> Seq<Seq<u8>> {
    Seq::new(v.len(), |i: int| v[i]@)
}

/// What reading a PEM text gave, in plain terms.
pub open spec fn certs_view(r: Result<Vec<Vec<u8>>, String>) -> Result<Seq<Seq<u8>>, Seq<char>> {
    match r {
        Ok(v) => Ok(byte_views(v@)),
        Err(e) => Err(e@),
    }
}

/// `rustls_pemfile::certs`: the certificates in a PEM text, in order, or the
/// first error. It depends on the text alone.
#[verifier::external_body]
fn parse_certs(pem: &str) -> (r: Result<Vec<Vec<u8>>, String>)
    ensures
        certs_view(r) == pem_certificates(pem@),
{
    let mut rd = std::io::BufReader::new(pem.as_bytes());
    let certs = rustls_pemfile::certs(&mut rd).map(|c| c.map(|der| der.to_vec()));
    certs.collect::<Result<Vec<_>, _>>().map_err(|e| e.to_string())
}

/// What a TLS server needs: the certificates to present, and the key in the TPM
/// that signs its handshakes.
#[derive(Debug)]
pub struct ServerIdentity {
    pub handle: KeyHandle,
    pub scheme: TlsScheme,
    pub certs: Vec<Vec<u8>>,
}

/// The key of an identity, or why it cannot serve.
pub open spec fn identity_key(s: StoreState, name: Seq<char>) -> Result<ObjectView, Seq<char>> {
    match lookup::<Identity>(s.identities, name) {
        None => Err("TLS identity not found: "@ + name),
        Some(i) => match lookup_id::<TpmObject>(s.objects, i.key_object_id) {
            None => Err("TLS identity '"@ + name + "' references a missing key"@),
            Some(k) => if k.handle_blob is None {
                Err("TLS identity '"@ + name + "' key has no TPM handle"@)
            } else if k.algorithm != Algorithm::EccP256 {
                Err(scheme_refusal(k.algorithm))
            } else {
                Ok(k)
            },
        },
    }
}

/// What a server with an identity and certificates gets.
pub open spec fn serves(
    s: StoreState,
    name: Seq<char>,
    certs: Result<Seq<Seq<u8>>, Seq<char>>,
    r: Result<ServerIdentity, Failure>,
) -> bool {
    match identity_key(s, name) {
        Err(m) => r matches Err(e) && e@ == m,
        Ok(k) => match certs {
            Err(m) => r matches Err(e) && e@ == m,
            Ok(list) => if list.len() == 0 {
                r matches Err(e) && e@
                    == "no certificates found in the TLS cert PEM for identity '"@ + name + "'"@
            } else {
                r matches Ok(c) && c.handle.path@ == k.path && k.handle_blob == Some(c.handle.id@)
                    && c.scheme == TlsScheme::EcdsaNistp256Sha256 && byte_views(c.certs@) == list
            },
        },
    }
}

/// Puts together what a TLS server needs, given what reading the PEM text gave.
pub fn server_identity(
    store: &MemoryStore,
    identity_name: &str,
    certs: Result<Vec<Vec<u8>>, String>,
) -> (r: Result<ServerIdentity, Failure>)
    ensures
        serves(store@, identity_name@, certs_view(certs), r),
{
    let identity = match store.get_identity(identity_name) {
        None => {
            return Err(Failure::about("TLS identity not found: ", identity_name));
        },
        Some(i) => i,
    };
    let key = match store.get_object_by_id(identity.key_object_id) {
        None => {
            return Err(
                Failure::around("TLS identity '", identity_name, "' references a missing key"),
            );
        },
        Some(k) => k,
    };
    let blob = match &key.handle_blob {
        None => {
            return Err(
                Failure::around("TLS identity '", identity_name, "' key has no TPM handle"),
            );
        },
        Some(b) => b,
    };
    let scheme = scheme_for(key.algorithm)?;
    let handle = KeyHandle { id: copy_bytes(blob), path: key.path.as_str().to_owned() };
    match certs {
        Err(e) => Err(Failure::new(e.as_str())),
        Ok(certs) => {
            assert(byte_views(certs@).len() == certs@.len());
            if certs.len() == 0 {
                return Err(
                    Failure::around(
                        "no certificates found in the TLS cert PEM for identity '",
                        identity_name,
                        "'",
                    ),
                );
            }
            Ok(ServerIdentity { handle, scheme, certs })
        },
    }
}

/// Puts together what a TLS server needs to present the certificates in
/// `cert_pem` and have its handshakes signed by the key of an identity. The
/// private key stays in the TPM.
pub fn server_config_from_identity(store: &MemoryStore, identity_name: &str, cert_pem: &str) -> (r:
    Result<ServerIdentity, Failure>)
    ensures
        serves(store@, identity_name@, pem_certificates(cert_pem@), r),
{
    let certs = parse_certs(cert_pem);
    server_identity(store, identity_name, certs)
}

/// The certificate is, byte for byte, one of those pinned.
pub open spec fn pins(pinned: Seq<Vec<u8>>, end_entity: Seq<u8>) -> bool {
    exists|i: int| 0 <= i < pinned.len() && #[trigger] pinned[i]@ == end_entity
}

/// Whether the peer's certificate is, byte for byte, one of those pinned.
pub fn is_pinned(pinned: &Vec<Vec<u8>>, end_entity: &[u8]) -> (r: bool)
    ensures
        r == pins(pinned@, end_entity@),
{
    let mut i: usize = 0;
    while i < pinned.len()
        invariant
            i <= pinned@.len(),
            forall|k: int| 0 <= k < i ==> #[trigger] pinned@[k]@ != end_entity@,
        decreases pinned@.len() - i,
    {
        if bytes_equal(pinned[i].as_slice(), end_entity) {
            return true;
        }
        i += 1;
    }
    false
}

} // verus!
