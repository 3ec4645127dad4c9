//! Public keys, signatures and credentials: the numbers and the bytes that go in
//! are those that come out.
use vstd::prelude::*;

use crate::failure::Failure;
use crate::hex::{hex_encode, hex_round_trip, hex_to_bytes, HexError};
use crate::ids::{read_id, show_id};
use crate::model::{Algorithm, Identity, TpmObject};
use crate::store::MemoryStore;
use crate::table::{lookup, lookup_id};
use crate::tls::{
    big_endian, der_integer_keeps_the_number, der_signature, ecdsa_tpmt_to_der, fixed,
    integer_contents, is_pinned, leading_zeros_keep_the_number, p256_signature_lengths,
    parse_ecc_point, pins, scheme_for, server_identity, EccError, ServerIdentity, TlsScheme,
};
use crate::tpm2::read16;
use crate::vtpm_bridge::runs::with_length;
use crate::vtpm_credential::{
    deserialize, serialize, statements_differ, VtpmCredential, VtpmIdentity,
};

verus! {

// ---------------------------------------------------------------------------
// Public points
// ---------------------------------------------------------------------------

/// What stands before the coordinates in the public area of an elliptic key
/// without a policy that signs with ECDSA: twenty-two bytes.
pub open spec fn ecdsa_header(h: Seq<u8>) -> bool {
    &&& h.len() == 22
    &&& read16(h, 2) == 0x0023
    &&& read16(h, 10) == 0
    &&& read16(h, 12) == 0x0010
    &&& read16(h, 14) == 0x0018
    &&& read16(h, 20) == 0x0010
}

/// The point of a public key is the byte four and both coordinates, the first
/// one first, each as the number that it was and in thirty-two bytes.
pub proof fn point_holds_both_coordinates(
    header: Seq<u8>,
    xs: Seq<u8>,
    ys: Seq<u8>,
    key: &[u8],
    r: Result<Vec<u8>, EccError>,
)
    requires
        ecdsa_header(header),
        with_length(xs),
        with_length(ys),
        xs.len() <= 34,
        ys.len() <= 34,
        key@ == header + xs + ys,
        call_ensures(parse_ecc_point, (key,), r),
    ensures
        r matches Ok(p) && p@.len() == 65 && p@[0] == 4 && big_endian(p@.subrange(1, 33))
            == big_endian(xs.skip(2)) && big_endian(p@.subrange(33, 65)) == big_endian(ys.skip(2)),
{
    let b = key@;
    let at = 22 + xs.len() as int;
    assert(b[2] == header[2] && b[3] == header[3]);
    assert(b[10] == header[10] && b[11] == header[11]);
    assert(b[12] == header[12] && b[13] == header[13]);
    assert(b[14] == header[14] && b[15] == header[15]);
    assert(b[20] == header[20] && b[21] == header[21]);
    assert(b[22] == xs[0] && b[23] == xs[1]);
    assert(b[at] == ys[0] && b[at + 1] == ys[1]);
    assert(b.subrange(12, 12).len() == 0);
    assert(crate::tls::sized_at(b, 10) == Some(b.subrange(12, 12)));
    assert(crate::tls::coordinates_at(b) == Some(22int));
    assert(b.subrange(24, at) =~= xs.skip(2));
    assert(b.subrange(at + 2, at + ys.len()) =~= ys.skip(2));
    assert(crate::tls::sized_at(b, 22) == Some(xs.skip(2)));
    assert(crate::tls::sized_at(b, at) == Some(ys.skip(2)));
    let x = fixed(xs.skip(2), 32);
    let y = fixed(ys.skip(2), 32);
    let p = r->Ok_0@;
    assert(p.subrange(1, 33) =~= x);
    assert(p.subrange(33, 65) =~= y);
    padding_keeps_the_number(xs.skip(2));
    padding_keeps_the_number(ys.skip(2));
}

proof fn padding_keeps_the_number(c: Seq<u8>)
    requires
        c.len() <= 32,
    ensures
        fixed(c, 32).len() == 32,
        big_endian(fixed(c, 32)) == big_endian(c),
{
    if c.len() < 32 {
        leading_zeros_keep_the_number((32 - c.len()) as nat, c);
    }
}

/// A key that is not elliptic has no point, and neither has one that is cut off.
pub proof fn other_keys_have_no_point(key: &[u8], r: Result<Vec<u8>, EccError>)
    requires
        key@.len() < 4 || read16(key@, 2) != 0x0023,
        call_ensures(parse_ecc_point, (key,), r),
    ensures
        r is Err,
{
}

// ---------------------------------------------------------------------------
// Signatures
// ---------------------------------------------------------------------------

/// A signature of the TPM is turned into a DER sequence of two integers: the two
/// numbers of the signature, in their order, each with its own length in front,
/// and nothing behind them.
pub proof fn der_holds_both_numbers(
    head: Seq<u8>,
    rs: Seq<u8>,
    ss: Seq<u8>,
    sig: &[u8],
    d: Option<Vec<u8>>,
)
    requires
        head.len() == 4,
        read16(head, 0) == 0x0018,
        with_length(rs),
        with_length(ss),
        2 < rs.len() <= 34,
        2 < ss.len() <= 34,
        sig@ == head + rs + ss,
        call_ensures(ecdsa_tpmt_to_der, (sig,), d),
    ensures
        d matches Some(v) && ({
            let n = v@[3] as int;
            &&& v@[0] == 0x30
            &&& v@[1] == v@.len() - 2
            &&& v@[2] == 2
            &&& big_endian(v@.subrange(4, 4 + n)) == big_endian(rs.skip(2))
            &&& v@[4] < 0x80
            &&& v@[4 + n] == 2
            &&& 6 + n + v@[5 + n] == v@.len()
            &&& big_endian(v@.subrange(6 + n, v@.len() as int)) == big_endian(ss.skip(2))
            &&& v@[6 + n] < 0x80
        }),
{
    let b = sig@;
    let at = 4 + rs.len() as int;
    let x = rs.skip(2);
    let y = ss.skip(2);
    assert(b[0] == head[0] && b[1] == head[1]);
    assert(b[4] == rs[0] && b[5] == rs[1]);
    assert(b[at] == ss[0] && b[at + 1] == ss[1]);
    assert(b.subrange(6, at) =~= x);
    assert(b.subrange(at + 2, at + ss.len()) =~= y);
    assert(crate::tls::sized_at(b, 4) == Some(x));
    assert(crate::tls::sized_at(b, at) == Some(y));
    let v = d->0@;
    assert(v == der_signature(x, y));
    p256_signature_lengths(x, y);
    der_integer_keeps_the_number(x);
    der_integer_keeps_the_number(y);
    let cx = integer_contents(x);
    let cy = integer_contents(y);
    let n = cx.len() as int;
    assert(v =~= seq![0x30u8, v[1]] + (seq![2u8, n as u8] + cx) + (seq![2u8, cy.len() as u8] + cy));
    assert(v.subrange(4, 4 + n) =~= cx);
    assert(v.subrange(6 + n, v.len() as int) =~= cy);
    assert(v[4] == cx[0]);
    assert(v[6 + n] == cy[0]);
}

/// What is no ECDSA signature is not turned into one.
pub proof fn other_signatures_are_refused(sig: &[u8], d: Option<Vec<u8>>)
    requires
        sig@.len() < 6 || read16(sig@, 0) != 0x0018,
        call_ensures(ecdsa_tpmt_to_der, (sig,), d),
    ensures
        d is None,
{
}

// ---------------------------------------------------------------------------
// Serving
// ---------------------------------------------------------------------------

/// A server signs with the key of its identity: the handle is that key's own,
/// and the certificates are presented as they were read. Only a P-256 key with a
/// handle serves, and not without a certificate.
pub proof fn server_signs_with_the_key_of_its_identity(
    store: &MemoryStore,
    name: &str,
    certs: Vec<Vec<u8>>,
    r: Result<ServerIdentity, Failure>,
)
    requires
        call_ensures(
            server_identity,
            (store, name, Ok::<Vec<Vec<u8>>, String>(certs)),
            r,
        ),
    ensures
        r is Ok <==> certs@.len() > 0 && (lookup::<Identity>(
            store@.identities,
            name@,
        ) matches Some(i) && (lookup_id::<TpmObject>(
            store@.objects,
            i.key_object_id,
        ) matches Some(k) && k.handle_blob is Some && k.algorithm == Algorithm::EccP256)),
        r matches Ok(s) ==> lookup_id::<TpmObject>(
            store@.objects,
            lookup::<Identity>(store@.identities, name@)->0.key_object_id,
        )->0.handle_blob == Some(s.handle.id@),
        r matches Ok(s) ==> s.certs@.len() == certs@.len() && forall|i: int|
            0 <= i < certs@.len() ==> #[trigger] s.certs@[i]@ == certs@[i]@,
{
    if r is Ok {
        let s = r->Ok_0;
        let a = crate::tls::byte_views(s.certs@);
        let b = crate::tls::byte_views(certs@);
        assert(a == b);
        assert(a.len() == b.len());
        assert forall|i: int| 0 <= i < certs@.len() implies #[trigger] s.certs@[i]@ == certs@[i]@ by {
            assert(a[i] == b[i]);
        }
    }
}

/// Only P-256 keys serve in a handshake.
pub proof fn only_p256_serves(alg: Algorithm, r: Result<TlsScheme, Failure>)
    requires
        call_ensures(scheme_for, (alg,), r),
    ensures
        r is Ok <==> alg == Algorithm::EccP256,
{
}

/// A pinned certificate is accepted, and no other.
pub proof fn pinned_certificate_is_accepted(pinned: &Vec<Vec<u8>>, peer: &[u8], i: int, r: bool)
    requires
        call_ensures(is_pinned, (pinned, peer), r),
    ensures
        0 <= i < pinned@.len() && pinned@[i]@ == peer@ ==> r,
        (forall|k: int| 0 <= k < pinned@.len() ==> #[trigger] pinned@[k]@ != peer@) ==> !r,
{
    assert(r == pins(pinned@, peer@));
}

// ---------------------------------------------------------------------------
// Credentials
// ---------------------------------------------------------------------------

/// A credential that was made is accepted as it is, and states what was signed:
/// the instance, its time, its label and its attestation key.
pub proof fn made_credential_is_accepted(
    instance: String,
    created: String,
    label: String,
    i: VtpmIdentity,
    ak: Vec<u8>,
    identity: VtpmIdentity,
    backend: String,
    hw_ak: Vec<u8>,
    signature: Vec<u8>,
    c: VtpmCredential,
    r: Result<VtpmCredential, Failure>,
)
    requires
        call_ensures(VtpmIdentity::new, (instance, created, label), i),
        call_ensures(VtpmIdentity::with_ak, (i, ak), identity),
        call_ensures(
            VtpmCredential::new,
            (identity, backend, hw_ak, signature),
            Ok::<VtpmCredential, Failure>(c),
        ),
        call_ensures(VtpmCredential::load, (c,), r),
    ensures
        i@.ak_public is None,
        r matches Ok(k) && k.identity@.instance_id == instance@ && k.identity@.created_at
            == created@ && k.identity@.vtpm_label == label@ && k.identity@.ak_public == Some(ak@)
            && k.signature@ == signature@ && k.hw_ak_pub@ == hw_ak@ && k.hw_backend_label@
            == backend@ && k.version == 1,
{
}

/// Different statements are signed as different bytes: a signature over one says
/// nothing of the other, not even where only the attestation key differs.
pub proof fn statements_are_signed_apart(
    a: &VtpmIdentity,
    b: &VtpmIdentity,
    x: Result<Vec<u8>, Failure>,
    y: Result<Vec<u8>, Failure>,
)
    requires
        a@ != b@,
        call_ensures(VtpmIdentity::to_signed_bytes, (a,), x),
        call_ensures(VtpmIdentity::to_signed_bytes, (b,), y),
    ensures
        x is Ok,
        y is Ok,
        x->Ok_0@ != y->Ok_0@,
{
    statements_differ(a@, b@);
}

/// A credential whose statement, signed bytes or version were exchanged is
/// refused.
pub proof fn tampered_credential_is_refused(
    identity: VtpmIdentity,
    backend: String,
    hw_ak: Vec<u8>,
    signature: Vec<u8>,
    c: VtpmCredential,
    t: VtpmCredential,
    r: Result<VtpmCredential, Failure>,
)
    requires
        call_ensures(
            VtpmCredential::new,
            (identity, backend, hw_ak, signature),
            Ok::<VtpmCredential, Failure>(c),
        ),
        t.version != 1 || (t.identity@ != c.identity@ && t.signed_data@ == c.signed_data@) || (
        t.identity@ == c.identity@ && t.signed_data@ != c.signed_data@),
        call_ensures(VtpmCredential::load, (t,), r),
    ensures
        r is Err,
{
    if t.version == 1 && t.identity@ != c.identity@ && t.signed_data@ == c.signed_data@ {
        statements_differ(t.identity@, c.identity@);
        assert(crate::vtpm_credential::cbor_map(c.identity@.entries()) == c.signed_data@);
        if r is Ok {
            assert(crate::vtpm_credential::cbor_map(t.identity@.entries()) == c.signed_data@);
        }
    }
}

// ---------------------------------------------------------------------------
// Texts
// ---------------------------------------------------------------------------

/// Bytes that are written as text read back as they were, in a credential file
/// as elsewhere; the text has two digits for each byte.
pub proof fn written_bytes_read_back(
    v: &Vec<u8>,
    bytes: &[u8],
    s: String,
    kept: String,
    text: &str,
    r: Result<Vec<u8>, HexError>,
    loaded: Result<Vec<u8>, Failure>,
)
    requires
        bytes@ == v@,
        call_ensures(hex_encode, (bytes,), s),
        call_ensures(serialize, (v,), kept),
        text@ == s@,
        call_ensures(hex_to_bytes, (text,), r),
        call_ensures(deserialize, (text,), loaded),
    ensures
        kept@ == s@,
        s@.len() == 2 * v@.len(),
        r matches Ok(b) && b@ == v@,
        loaded matches Ok(b) && b@ == v@,
{
    hex_round_trip(v@);
}

/// An identifier that is written as text reads back, so that different
/// identifiers have different texts.
pub proof fn written_identifier_reads_back(a: u128, s: String, text: &str, r: Option<u128>)
    requires
        call_ensures(show_id, (a,), s),
        text@ == s@,
        call_ensures(read_id, (text,), r),
    ensures
        r == Some(a),
        s@.len() == 36,
        s@[8] == '-' && s@[13] == '-' && s@[18] == '-' && s@[23] == '-',
{
}

} // verus!
