//! What a quote attests to, and what makes a judge of it say no.
use vstd::arithmetic::div_mod::{
    lemma_mod_multiples_vanish, lemma_mul_mod_noop_left, lemma_small_mod,
};
use vstd::arithmetic::mul::lemma_mul_is_associative;
use vstd::prelude::*;

use crate::hex::hex_text;
use crate::model::{PcrValue, QuoteData, QuoteVerification};
use crate::vtpm_bridge::{
    digests, le64, mix_block, mix_state, mixed_digest, quote, quote_digest, quoted, sha256_digest,
    verify_quote,
};

verus! {

/// The lengths of the digests of some values, taken together.
pub open spec fn digest_total(values: Seq<PcrValue>) -> nat
    decreases values.len(),
{
    if values.len() == 0 {
        0
    } else {
        digest_total(values.drop_last()) + values.last().digest@.len()
    }
}

/// The bytes hold every digest in its turn and end in the nonce.
pub open spec fn attests_to(d: Seq<u8>, values: Seq<PcrValue>, nonce: Seq<u8>) -> bool {
    &&& d.len() == digest_total(values) + nonce.len()
    &&& forall|i: int|
        0 <= i < values.len() ==> d.subrange(
            digest_total(values.take(i)) as int,
            digest_total(values.take(i)) as int + (#[trigger] values[i]).digest@.len(),
        ) == values[i].digest@
    &&& d.subrange(digest_total(values) as int, d.len() as int) == nonce
}

/// The digests of the first values come first and take up their own lengths.
proof fn digests_in_turn(values: Seq<PcrValue>, n: nat)
    requires
        n <= values.len(),
    ensures
        digests(values, n).len() == digest_total(values.take(n as int)),
        forall|i: int|
            0 <= i < n ==> digest_total(values.take(i)) + (#[trigger] values[i]).digest@.len()
                <= digests(values, n).len() && digests(values, n).subrange(
                digest_total(values.take(i)) as int,
                digest_total(values.take(i)) as int + values[i].digest@.len(),
            ) == values[i].digest@,
    decreases n,
{
    if n > 0 {
        let m = (n - 1) as nat;
        digests_in_turn(values, m);
        let before = digests(values, m);
        let d = digests(values, n);
        assert(values.take(n as int).drop_last() =~= values.take(m as int));
        assert(values.take(n as int).last() == values[m as int]);
        assert forall|i: int| 0 <= i < n implies digest_total(values.take(i)) + (
        #[trigger] values[i]).digest@.len() <= d.len() && d.subrange(
            digest_total(values.take(i)) as int,
            digest_total(values.take(i)) as int + values[i].digest@.len(),
        ) == values[i].digest@ by {
            let a = digest_total(values.take(i)) as int;
            let b = a + values[i].digest@.len();
            if i < m {
                assert(d.subrange(a, b) =~= before.subrange(a, b));
            } else {
                assert(d.subrange(a, b) =~= values[i].digest@);
            }
        }
    }
}

/// What a quote attests to is every digest in its turn and then the nonce: the
/// bytes are as long as these together, and each is found in its own place.
pub proof fn quote_attests_to_registers_and_nonce(values: Seq<PcrValue>, nonce: Seq<u8>)
    ensures
        attests_to(quoted(values, nonce), values, nonce),
{
    let n = values.len();
    digests_in_turn(values, n);
    assert(values.take(n as int) =~= values);
    let d = quoted(values, nonce);
    let all = digests(values, n);
    assert(d.subrange(digest_total(values) as int, d.len() as int) =~= nonce);
    assert forall|i: int| 0 <= i < n implies d.subrange(
        digest_total(values.take(i)) as int,
        digest_total(values.take(i)) as int + (#[trigger] values[i]).digest@.len(),
    ) == values[i].digest@ by {
        let a = digest_total(values.take(i)) as int;
        let b = a + values[i].digest@.len();
        assert(d.subrange(a, b) =~= all.subrange(a, b));
    }
}

/// Lists whose digests have the same sizes have the same places for them.
proof fn same_sizes_same_places(a: Seq<PcrValue>, b: Seq<PcrValue>)
    requires
        a.len() == b.len(),
        forall|i: int| 0 <= i < a.len() ==> #[trigger] a[i].digest@.len() == b[i].digest@.len(),
    ensures
        digest_total(a) == digest_total(b),
    decreases a.len(),
{
    if a.len() > 0 {
        assert(a.last() == a[a.len() - 1]);
        assert forall|i: int| 0 <= i < a.drop_last().len() implies #[trigger] a.drop_last()[i].digest@.len()
            == b.drop_last()[i].digest@.len() by {
            assert(a.drop_last()[i] == a[i]);
        }
        same_sizes_same_places(a.drop_last(), b.drop_last());
    }
}

/// What a quote attests to determines the registers and the nonce: where it is
/// the same for two lists of the same length, with digests of the same sizes
/// and nonces of the same length, then every digest is the same and so is the
/// nonce.
pub proof fn attested_data_determines_registers(
    a: Seq<PcrValue>,
    b: Seq<PcrValue>,
    m: Seq<u8>,
    n: Seq<u8>,
)
    requires
        a.len() == b.len(),
        forall|i: int| 0 <= i < a.len() ==> #[trigger] a[i].digest@.len() == b[i].digest@.len(),
        m.len() == n.len(),
        quoted(a, m) == quoted(b, n),
    ensures
        forall|i: int| 0 <= i < a.len() ==> #[trigger] a[i].digest@ == b[i].digest@,
        m == n,
{
    quote_attests_to_registers_and_nonce(a, m);
    quote_attests_to_registers_and_nonce(b, n);
    same_sizes_same_places(a, b);
    assert forall|i: int| 0 <= i < a.len() implies #[trigger] a[i].digest@ == b[i].digest@ by {
        assert forall|j: int| 0 <= j < a.take(i).len() implies #[trigger] a.take(i)[j].digest@.len()
            == b.take(i)[j].digest@.len() by {
            assert(a.take(i)[j] == a[j]);
        }
        same_sizes_same_places(a.take(i), b.take(i));
        assert(b[i].digest@.len() == a[i].digest@.len());
    }
}

/// The bytes to be signed are the mixed form of every digest in its turn and
/// then the nonce.
pub proof fn quote_digest_covers_registers_and_nonce(
    values: &Vec<PcrValue>,
    nonce: &[u8],
    h: Vec<u8>,
)
    requires
        call_ensures(quote_digest, (values, nonce), h),
    ensures
        exists|d: Seq<u8>| #[trigger] attests_to(d, values@, nonce@) && h@ == mixed_digest(d),
{
    quote_attests_to_registers_and_nonce(values@, nonce@);
    assert(attests_to(quoted(values@, nonce@), values@, nonce@));
}

/// A quote carries what it was made of: the values, the nonce, the signature
/// and the key, and attests to the values and the nonce.
pub proof fn quote_carries_what_it_was_made_of(
    values: Vec<PcrValue>,
    nonce: &[u8],
    signature: Vec<u8>,
    ak: &[u8],
    q: QuoteData,
)
    requires
        call_ensures(quote, (values, nonce, signature, ak), q),
    ensures
        q.pcr_values == values,
        q.nonce@ == nonce@,
        q.signature == signature,
        q.ak_public@ == ak@,
        exists|d: Seq<u8>| #[trigger] attests_to(d, values@, nonce@) && q.attestation@
            == mixed_digest(d),
{
    quote_attests_to_registers_and_nonce(values@, nonce@);
    assert(attests_to(quoted(values@, nonce@), values@, nonce@));
}

/// A quote is verified for the nonce it was made with just where every register
/// still holds what was quoted; for any other nonce it is not verified.
pub proof fn honest_quote_is_judged_by_the_registers(
    values: Vec<PcrValue>,
    nonce: &[u8],
    signature: Vec<u8>,
    ak: &[u8],
    q: QuoteData,
    asked: &[u8],
    current: &Vec<PcrValue>,
    v: QuoteVerification,
)
    requires
        call_ensures(quote, (values, nonce, signature, ak), q),
        current@.len() == values@.len(),
        call_ensures(verify_quote, (&q, asked, current), v),
    ensures
        v.nonce_matches <==> asked@ == nonce@,
        asked@ == nonce@ ==> v.signature_valid,
        asked@ == nonce@ ==> (v.verified <==> forall|i: int|
            0 <= i < values@.len() ==> #[trigger] values@[i].digest@ == current@[i].digest@),
        asked@ != nonce@ ==> !v.verified,
        v.pcr_matches@.len() == values@.len(),
        forall|i: int|
            #![trigger v.pcr_matches@[i]]
            0 <= i < values@.len() ==> v.pcr_matches@[i].index == values@[i].index
                && v.pcr_matches@[i].bank == values@[i].bank && (v.pcr_matches@[i].matches
                <==> values@[i].digest@ == current@[i].digest@) && v.pcr_matches@[i].expected@
                == hex_text(values@[i].digest@) && v.pcr_matches@[i].actual@ == hex_text(
                current@[i].digest@,
            ),
{
    assert(asked@ == nonce@ ==> q.nonce@ == asked@);
}

/// A verdict is never better than its parts.
pub proof fn verdict_needs_every_part(
    q: &QuoteData,
    asked: &[u8],
    current: &Vec<PcrValue>,
    v: QuoteVerification,
)
    requires
        call_ensures(verify_quote, (q, asked, current), v),
    ensures
        v.verified ==> v.signature_valid && v.nonce_matches,
        v.verified ==> forall|i: int|
            0 <= i < v.pcr_matches@.len() ==> (#[trigger] v.pcr_matches@[i]).matches,
        v.signature_valid && v.nonce_matches && (forall|i: int|
            0 <= i < v.pcr_matches@.len() ==> (#[trigger] v.pcr_matches@[i]).matches)
            ==> v.verified,
{
    if v.signature_valid && v.nonce_matches && (forall|i: int|
        0 <= i < v.pcr_matches@.len() ==> (#[trigger] v.pcr_matches@[i]).matches) {
        assert forall|i: int| 0 <= i < v.pcr_matches@.len() implies #[trigger] q.pcr_values@[i].digest@
            == current@[i].digest@ by {
            assert(v.pcr_matches@[i].matches);
        }
    }
    if v.verified {
        assert forall|i: int| 0 <= i < v.pcr_matches@.len() implies (
        #[trigger] v.pcr_matches@[i]).matches by {
            assert(q.pcr_values@[i].digest@ == current@[i].digest@);
        }
    }
}

/// Multiplication by a factor that has an inverse loses nothing.
proof fn wrapped_product_is_injective(x: u64, y: u64, factor: u64, inverse: int, quotient: int)
    requires
        factor as int * inverse == 0x10000000000000000 * quotient + 1,
        x.wrapping_mul(factor) == y.wrapping_mul(factor),
    ensures
        x == y,
{
    undo_product(x, factor, inverse, quotient);
    undo_product(y, factor, inverse, quotient);
}

proof fn undo_product(x: u64, factor: u64, inverse: int, quotient: int)
    requires
        factor as int * inverse == 0x10000000000000000 * quotient + 1,
    ensures
        (x.wrapping_mul(factor) as int * inverse) % 0x10000000000000000 == x,
{
    let m = 0x10000000000000000int;
    let p = x as int * factor as int;
    lemma_mul_mod_noop_left(p, inverse, m);
    lemma_mul_is_associative(x as int, factor as int, inverse);
    let k = x as int * quotient;
    assert(x as int * (m * quotient + 1) == m * k + x as int) by (nonlinear_arith)
        requires
            k == x as int * quotient,
    ;
    lemma_mod_multiples_vanish(k, x as int, m);
    lemma_small_mod(x as nat, m as nat);
}

/// From two states that differ, the same byte leads to states that differ; and
/// so do two bytes that differ, from the same state.
proof fn mixing_keeps_difference(s: u64, t: u64, a: u8, b: u8)
    requires
        (s != t && a == b) || (s == t && a != b),
    ensures
        (s ^ (a as u64)).wrapping_mul(0x100000001b3) != (t ^ (b as u64)).wrapping_mul(0x100000001b3),
{
    let x = s ^ (a as u64);
    let y = t ^ (b as u64);
    assert(x != y) by {
        assert(((s != t && a == b) || (s == t && a != b)) ==> s ^ (a as u64) != t ^ (b as u64))
            by (bit_vector);
    }
    if x.wrapping_mul(0x100000001b3) == y.wrapping_mul(0x100000001b3) {
        wrapped_product_is_injective(x, y, 0x100000001b3, 0xce965057aff6957b, 887285111055);
    }
}

/// Data that differ in one byte lead to states that differ.
proof fn one_byte_changes_the_state(a: Seq<u8>, b: Seq<u8>, at: int)
    requires
        a.len() == b.len(),
        0 <= at < a.len(),
        a[at] != b[at],
        forall|i: int| 0 <= i < a.len() && i != at ==> a[i] == b[i],
    ensures
        mix_state(a) != mix_state(b),
    decreases a.len(),
{
    if at == a.len() - 1 {
        assert(a.drop_last() =~= b.drop_last());
        mixing_keeps_difference(
            mix_state(a.drop_last()),
            mix_state(b.drop_last()),
            a.last(),
            b.last(),
        );
    } else {
        one_byte_changes_the_state(a.drop_last(), b.drop_last(), at);
        mixing_keeps_difference(
            mix_state(a.drop_last()),
            mix_state(b.drop_last()),
            a.last(),
            b.last(),
        );
    }
}

proof fn le64_is_injective(x: u64, y: u64)
    requires
        le64(x) == le64(y),
    ensures
        x == y,
{
    let a = le64(x);
    let b = le64(y);
    assert(a[0] == b[0] && a[1] == b[1] && a[2] == b[2] && a[3] == b[3]);
    assert(a[4] == b[4] && a[5] == b[5] && a[6] == b[6] && a[7] == b[7]);
    assert(x == y) by (bit_vector)
        requires
            x % 256 == y % 256,
            (x / 0x100) % 256 == (y / 0x100) % 256,
            (x / 0x10000) % 256 == (y / 0x10000) % 256,
            (x / 0x1000000) % 256 == (y / 0x1000000) % 256,
            (x / 0x100000000) % 256 == (y / 0x100000000) % 256,
            (x / 0x10000000000) % 256 == (y / 0x10000000000) % 256,
            (x / 0x1000000000000) % 256 == (y / 0x1000000000000) % 256,
            (x / 0x100000000000000) % 256 == (y / 0x100000000000000) % 256,
    ;
}

/// A mixed digest has thirty-two bytes, and data that differ in one byte have
/// different mixed digests.
pub proof fn one_byte_changes_the_digest(
    a: &[u8],
    b: &[u8],
    at: int,
    h: Vec<u8>,
    k: Vec<u8>,
)
    requires
        a@.len() == b@.len(),
        0 <= at < a@.len(),
        a@[at] != b@[at],
        forall|i: int| 0 <= i < a@.len() && i != at ==> a@[i] == b@[i],
        call_ensures(sha256_digest, (a,), h),
        call_ensures(sha256_digest, (b,), k),
    ensures
        h@.len() == 32,
        k@.len() == 32,
        h@ != k@,
{
    one_byte_changes_the_state(a@, b@, at);
    states_apart(a@, b@);
}

/// The first block of a digest stands at its beginning.
proof fn first_block(a: Seq<u8>)
    ensures
        mixed_digest(a).subrange(0, 8) == le64(mix_block(mix_state(a), 0)),
{
    let first = le64(mix_block(mix_state(a), 0));
    assert(first.len() == 8);
    assert(mixed_digest(a).subrange(0, 8) =~= first);
}

/// Different states give different digests.
proof fn states_apart(a: Seq<u8>, b: Seq<u8>)
    requires
        mix_state(a) != mix_state(b),
    ensures
        mixed_digest(a) != mixed_digest(b),
{
    let s = mix_state(a);
    let t = mix_state(b);
    if mixed_digest(a) == mixed_digest(b) {
        first_block(a);
        first_block(b);
        le64_is_injective(mix_block(s, 0), mix_block(t, 0));
        wrapped_product_is_injective(s, t, 0x517cc1b727220a95, 0x2040003d780970bd, 739706870995725965);
    }
}

/// A quote is not taken for one of a register that was changed in one byte:
/// with the same nonce, the attested bytes differ.
pub proof fn changed_register_changes_the_quote(
    a: &Vec<PcrValue>,
    b: &Vec<PcrValue>,
    nonce: &[u8],
    register: int,
    at: int,
    h: Vec<u8>,
    k: Vec<u8>,
)
    requires
        a@.len() == b@.len(),
        0 <= register < a@.len(),
        forall|i: int|
            0 <= i < a@.len() && i != register ==> #[trigger] a@[i].digest@ == b@[i].digest@,
        a@[register].digest@.len() == b@[register].digest@.len(),
        0 <= at < a@[register].digest@.len(),
        a@[register].digest@[at] != b@[register].digest@[at],
        forall|i: int|
            0 <= i < a@[register].digest@.len() && i != at ==> a@[register].digest@[i]
                == b@[register].digest@[i],
        call_ensures(quote_digest, (a, nonce), h),
        call_ensures(quote_digest, (b, nonce), k),
    ensures
        h@ != k@,
{
    let place = digest_total(a@.take(register)) + at;
    difference_is_in_place(a@, b@, a@.len(), register, at);
    let d = quoted(a@, nonce@);
    let e = quoted(b@, nonce@);
    let da = digests(a@, a@.len());
    let db = digests(b@, a@.len());
    assert forall|i: int| 0 <= i < d.len() && i != place implies d[i] == e[i] by {
        if i < da.len() {
            assert(da[i] == db[i]);
        }
    }
    one_byte_changes_the_state(d, e, place);
    states_apart(d, e);
}

/// The digests of two lists that differ in one byte of one register differ in
/// that byte's place and nowhere else.
proof fn difference_is_in_place(a: Seq<PcrValue>, b: Seq<PcrValue>, n: nat, register: int, at: int)
    requires
        a.len() == b.len(),
        n <= a.len(),
        0 <= register < a.len(),
        forall|i: int| 0 <= i < a.len() && i != register
            ==> #[trigger] a[i].digest@ == b[i].digest@,
        a[register].digest@.len() == b[register].digest@.len(),
        0 <= at < a[register].digest@.len(),
        a[register].digest@[at] != b[register].digest@[at],
        forall|i: int|
            0 <= i < a[register].digest@.len() && i != at ==> a[register].digest@[i]
                == b[register].digest@[i],
    ensures
        digests(a, n).len() == digests(b, n).len(),
        digests(a, n).len() == digest_total(a.take(n as int)),
        n <= register ==> digests(a, n) == digests(b, n),
        n > register ==> {
            let place = digest_total(a.take(register)) + at;
            &&& 0 <= place < digests(a, n).len()
            &&& digests(a, n)[place] != digests(b, n)[place]
            &&& forall|i: int|
                0 <= i < digests(a, n).len() && i != place ==> digests(a, n)[i] == digests(
                    b,
                    n,
                )[i]
        },
    decreases n,
{
    digests_in_turn(a, n);
    if n > 0 {
        let m = (n - 1) as nat;
        difference_is_in_place(a, b, m, register, at);
        assert(m != register ==> a[m as int].digest@ == b[m as int].digest@);
        if m > register {
            let place = digest_total(a.take(register)) + at;
            assert(digests(a, n)[place] == digests(a, m)[place]);
            assert(digests(b, n)[place] == digests(b, m)[place]);
        }
    }
}

} // verus!
