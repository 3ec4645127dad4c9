//! TPM 2.0 wire format: the commands that the virtual TPM is sent, and what is
//! read out of its responses.
use vstd::arithmetic::div_mod::{lemma_hoist_over_denominator, lemma_mod_multiples_vanish};
use vstd::prelude::*;

use crate::model::Algorithm;

pub mod readings;

verus! {

pub const TPM_ST_NO_SESSIONS: u16 = 0x8001;
pub const TPM_ST_SESSIONS: u16 = 0x8002;

pub const TPM2_CC_CREATE_PRIMARY: u32 = 0x00000131;
pub const TPM2_CC_SELF_TEST: u32 = 0x00000143;
pub const TPM2_CC_STARTUP: u32 = 0x00000144;
pub const TPM2_CC_CREATE: u32 = 0x00000153;
pub const TPM2_CC_LOAD: u32 = 0x00000157;
pub const TPM2_CC_SIGN: u32 = 0x0000015D;
pub const TPM2_CC_UNSEAL: u32 = 0x0000015E;
pub const TPM2_CC_FLUSH_CONTEXT: u32 = 0x00000165;
pub const TPM2_CC_LOAD_EXTERNAL: u32 = 0x00000167;
pub const TPM2_CC_VERIFY_SIGNATURE: u32 = 0x00000177;
pub const TPM2_CC_GET_RANDOM: u32 = 0x0000017B;
pub const TPM2_CC_HASH: u32 = 0x0000017D;
pub const TPM2_CC_PCR_READ: u32 = 0x0000017E;
pub const TPM2_CC_PCR_EXTEND: u32 = 0x00000182;

pub const TPM_RH_OWNER: u32 = 0x40000001;
pub const TPM_RH_NULL: u32 = 0x40000007;
pub const TPM_RS_PW: u32 = 0x40000009;

pub const TPM_ALG_RSA: u16 = 0x0001;
pub const TPM_ALG_SHA1: u16 = 0x0004;
pub const TPM_ALG_AES: u16 = 0x0006;
pub const TPM_ALG_KEYEDHASH: u16 = 0x0008;
pub const TPM_ALG_SHA256: u16 = 0x000B;
pub const TPM_ALG_SHA384: u16 = 0x000C;
pub const TPM_ALG_NULL: u16 = 0x0010;
pub const TPM_ALG_RSASSA: u16 = 0x0014;
pub const TPM_ALG_ECDSA: u16 = 0x0018;
pub const TPM_ALG_ECC: u16 = 0x0023;
pub const TPM_ALG_CFB: u16 = 0x0043;
pub const TPM_ECC_NIST_P256: u16 = 0x0003;

// ---------------------------------------------------------------------------
// Integers
// ---------------------------------------------------------------------------

/// The low sixteen bits of `n`, big-endian.
pub open spec fn be16(n: int) -> Seq<u8> {
    seq![((n / 256) % 256) as u8, (n % 256) as u8]
}

/// The low thirty-two bits of `n`, big-endian.
pub open spec fn be32(n: int) -> Seq<u8> {
    seq![
        ((n / 0x1000000) % 256) as u8,
        ((n / 0x10000) % 256) as u8,
        ((n / 0x100) % 256) as u8,
        (n % 256) as u8,
    ]
}

/// The big-endian integer in the two bytes at `at`.
pub open spec fn read16(b: Seq<u8>, at: int) -> int {
    b[at] as int * 256 + b[at + 1] as int
}

/// The big-endian integer in the four bytes at `at`.
pub open spec fn read32(b: Seq<u8>, at: int) -> int {
    b[at] as int * 0x1000000 + b[at + 1] as int * 0x10000 + b[at + 2] as int * 0x100 + b[at
        + 3] as int
}

/// Reading a written sixteen-bit integer gives it back.
pub proof fn be16_reads_back(n: u16, before: Seq<u8>, after: Seq<u8>)
    ensures
        read16(before + be16(n as int) + after, before.len() as int) == n,
{
    let all = before + be16(n as int) + after;
    let k = before.len() as int;
    assert(all[k] == be16(n as int)[0]);
    assert(all[k + 1] == be16(n as int)[1]);
}

/// Reading a written thirty-two-bit integer gives it back.
pub proof fn be32_reads_back(n: u32, before: Seq<u8>, after: Seq<u8>)
    ensures
        read32(before + be32(n as int) + after, before.len() as int) == n,
{
    let all = before + be32(n as int) + after;
    let k = before.len() as int;
    assert(all[k] == be32(n as int)[0]);
    assert(all[k + 1] == be32(n as int)[1]);
    assert(all[k + 2] == be32(n as int)[2]);
    assert(all[k + 3] == be32(n as int)[3]);
}

/// Appends a sixteen-bit integer.
pub fn put16(out: &mut Vec<u8>, n: u16)
    ensures
        final(out)@ == old(out)@ + be16(n as int),
{
    let ghost start = out@;
    out.push((n / 256) as u8);
    out.push((n % 256) as u8);
    assert(out@ =~= start + be16(n as int));
}

/// Appends a thirty-two-bit integer.
pub fn put32(out: &mut Vec<u8>, n: u32)
    ensures
        final(out)@ == old(out)@ + be32(n as int),
{
    let ghost start = out@;
    out.push((n / 0x1000000) as u8);
    out.push(((n / 0x10000) % 256) as u8);
    out.push(((n / 0x100) % 256) as u8);
    out.push((n % 256) as u8);
    assert(out@ =~= start + be32(n as int));
}

/// Appends bytes.
pub fn put_bytes(out: &mut Vec<u8>, bytes: &[u8])
    ensures
        final(out)@ == old(out)@ + bytes@,
{
    let ghost start = out@;
    let mut i: usize = 0;
    assert(out@ =~= start + bytes@.take(0));
    while i < bytes.len()
        invariant
            i <= bytes@.len(),
            out@ == start + bytes@.take(i as int),
        decreases bytes@.len() - i,
    {
        out.push(bytes[i]);
        i += 1;
        assert(out@ =~= start + bytes@.take(i as int));
    }
    assert(bytes@.take(i as int) =~= bytes@);
}

/// The low sixteen bits of `n + more`.
pub fn low16(n: usize, more: u8) -> (r: u16)
    ensures
        r as int == (n + more) as int % 0x10000,
{
    let wide: u128 = n as u128 + more as u128;
    (wide % 0x10000) as u16
}

/// The low thirty-two bits of `n + more`.
fn low32(n: usize, more: u8) -> (r: u32)
    ensures
        r as int == (n + more) as int % 0x100000000,
{
    let wide: u128 = n as u128 + more as u128;
    (wide % 0x100000000) as u32
}

/// The low bits of a length are all that its encoding keeps.
proof fn be16_of_low(n: int)
    requires
        0 <= n,
    ensures
        be16(n % 0x10000) == be16(n),
{
    let q = n / 0x10000;
    let r = n % 0x10000;
    assert(n == 0x10000 * q + r);
    lemma_hoist_over_denominator(r, 256 * q, 0x100);
    lemma_mod_multiples_vanish(q, r / 0x100, 256);
    lemma_mod_multiples_vanish(256 * q, r, 256);
    assert(be16(n % 0x10000) =~= be16(n));
}

proof fn be32_of_low(n: int)
    requires
        0 <= n,
    ensures
        be32(n % 0x100000000) == be32(n),
{
    let q = n / 0x100000000;
    let r = n % 0x100000000;
    assert(n == 0x100000000 * q + r);
    lemma_hoist_over_denominator(r, 256 * q, 0x1000000);
    lemma_mod_multiples_vanish(q, r / 0x1000000, 256);
    lemma_hoist_over_denominator(r, 0x10000 * q, 0x10000);
    lemma_mod_multiples_vanish(256 * q, r / 0x10000, 256);
    lemma_hoist_over_denominator(r, 0x1000000 * q, 0x100);
    lemma_mod_multiples_vanish(0x10000 * q, r / 0x100, 256);
    lemma_mod_multiples_vanish(0x1000000 * q, r, 256);
    assert(be32(n % 0x100000000) =~= be32(n));
}

/// Appends the low sixteen bits of a length and then the bytes themselves.
fn put_sized(out: &mut Vec<u8>, bytes: &[u8])
    ensures
        final(out)@ == old(out)@ + sized(bytes@),
{
    let ghost start = out@;
    put16(out, low16(bytes.len(), 0));
    proof {
        be16_of_low(bytes@.len() as int);
    }
    put_bytes(out, bytes);
    assert(out@ =~= start + sized(bytes@));
}

// ---------------------------------------------------------------------------
// Frames
// ---------------------------------------------------------------------------

/// A byte string with its sixteen-bit length in front.
pub open spec fn sized(bytes: Seq<u8>) -> Seq<u8> {
    be16(bytes.len() as int) + bytes
}

/// A whole command: tag, total size, command code, body.
pub open spec fn command(tag: u16, code: u32, body: Seq<u8>) -> Seq<u8> {
    be16(tag as int) + be32(10 + body.len() as int) + be32(code as int) + body
}

/// The authorization area of an empty password session with the given attributes.
pub open spec fn password_auth(attributes: u8) -> Seq<u8> {
    be32(9) + (be32(TPM_RS_PW as int) + be16(0) + seq![attributes] + be16(0))
}

/// Every command carries its tag, its own length and its code where a TPM reads them.
pub proof fn command_header(tag: u16, code: u32, body: Seq<u8>)
    requires
        10 + body.len() < 0x100000000,
    ensures
        read16(command(tag, code, body), 0) == tag,
        read32(command(tag, code, body), 2) == command(tag, code, body).len(),
        read32(command(tag, code, body), 6) == code,
        command(tag, code, body).subrange(10, command(tag, code, body).len() as int) == body,
{
    let c = command(tag, code, body);
    be16_reads_back(tag, Seq::empty(), be32(10 + body.len() as int) + be32(code as int) + body);
    assert(Seq::<u8>::empty() + be16(tag as int) + (be32(10 + body.len() as int) + be32(code as int) + body)
        =~= c);
    be32_reads_back((10 + body.len()) as u32, be16(tag as int), be32(code as int) + body);
    assert(be16(tag as int) + be32(10 + body.len() as int) + (be32(code as int) + body) =~= c);
    be32_reads_back(code, be16(tag as int) + be32(10 + body.len() as int), body);
    assert(c.subrange(10, c.len() as int) =~= body);
}

/// Puts the header in front of a command body.
fn frame(tag: u16, code: u32, body: &Vec<u8>) -> (c: Vec<u8>)
    ensures
        c@ == command(tag, code, body@),
{
    let mut c: Vec<u8> = Vec::new();
    put16(&mut c, tag);
    put32(&mut c, low32(body.len(), 10));
    proof {
        be32_of_low(10 + body@.len() as int);
    }
    put32(&mut c, code);
    put_bytes(&mut c, body.as_slice());
    assert(c@ =~= command(tag, code, body@));
    c
}

fn put_password_auth(out: &mut Vec<u8>, attributes: u8)
    ensures
        final(out)@ == old(out)@ + password_auth(attributes),
{
    let ghost start = out@;
    put32(out, 9);
    put32(out, TPM_RS_PW);
    put16(out, 0);
    out.push(attributes);
    put16(out, 0);
    assert(out@ =~= start + password_auth(attributes));
}

// ---------------------------------------------------------------------------
// Commands
// ---------------------------------------------------------------------------

/// TPM2_Startup(CLEAR).
pub fn build_startup_cmd() -> (c: Vec<u8>)
    ensures
        c@ == command(TPM_ST_NO_SESSIONS, TPM2_CC_STARTUP, be16(0)),
{
    let mut body: Vec<u8> = Vec::new();
    put16(&mut body, 0);
    assert(body@ =~= be16(0));
    frame(TPM_ST_NO_SESSIONS, TPM2_CC_STARTUP, &body)
}

/// TPM2_SelfTest(full).
pub fn build_selftest_cmd() -> (c: Vec<u8>)
    ensures
        c@ == command(TPM_ST_NO_SESSIONS, TPM2_CC_SELF_TEST, seq![1u8]),
{
    let mut body: Vec<u8> = Vec::new();
    body.push(1);
    assert(body@ =~= seq![1u8]);
    frame(TPM_ST_NO_SESSIONS, TPM2_CC_SELF_TEST, &body)
}

/// TPM2_GetRandom.
pub fn build_get_random_cmd(num_bytes: u16) -> (c: Vec<u8>)
    ensures
        c@ == command(TPM_ST_NO_SESSIONS, TPM2_CC_GET_RANDOM, be16(num_bytes as int)),
{
    let mut body: Vec<u8> = Vec::new();
    put16(&mut body, num_bytes);
    assert(body@ =~= be16(num_bytes as int));
    frame(TPM_ST_NO_SESSIONS, TPM2_CC_GET_RANDOM, &body)
}

/// The mask of bit `n` of a byte.
pub open spec fn bit_mask(n: int) -> u8 {
    if n == 0 {
        1
    } else if n == 1 {
        2
    } else if n == 2 {
        4
    } else if n == 3 {
        8
    } else if n == 4 {
        16
    } else if n == 5 {
        32
    } else if n == 6 {
        64
    } else {
        128
    }
}

fn mask(n: u32) -> (m: u8)
    requires
        n < 8,
    ensures
        m == bit_mask(n as int),
{
    if n == 0 {
        1
    } else if n == 1 {
        2
    } else if n == 2 {
        4
    } else if n == 3 {
        8
    } else if n == 4 {
        16
    } else if n == 5 {
        32
    } else if n == 6 {
        64
    } else {
        128
    }
}

/// The three selection bytes of one register; none is set beyond the last register.
pub open spec fn pcr_selection(index: u32) -> Seq<u8> {
    Seq::new(
        3,
        |i: int|
            if index < 24 && i == index as int / 8 {
                bit_mask(index as int % 8)
            } else {
                0
            },
    )
}

/// The body of TPM2_PCR_Read for one register.
pub open spec fn pcr_read_body(hash_alg: u16, index: u32) -> Seq<u8> {
    be32(1) + be16(hash_alg as int) + seq![3u8] + pcr_selection(index)
}

/// TPM2_PCR_Read of one register.
pub fn build_pcr_read_cmd(hash_alg: u16, pcr_index: u32) -> (c: Vec<u8>)
    ensures
        c@ == command(TPM_ST_NO_SESSIONS, TPM2_CC_PCR_READ, pcr_read_body(hash_alg, pcr_index)),
{
    let mut body: Vec<u8> = Vec::new();
    put32(&mut body, 1);
    put16(&mut body, hash_alg);
    body.push(3);
    let m: u8 = mask(pcr_index % 8);
    let ghost start = body@;
    body.push(if pcr_index / 8 == 0 { m } else { 0 });
    body.push(if pcr_index / 8 == 1 { m } else { 0 });
    body.push(if pcr_index / 8 == 2 { m } else { 0 });
    assert(body@ =~= start + pcr_selection(pcr_index));
    assert(body@ =~= pcr_read_body(hash_alg, pcr_index));
    frame(TPM_ST_NO_SESSIONS, TPM2_CC_PCR_READ, &body)
}

/// The body of TPM2_PCR_Extend with one digest.
pub open spec fn pcr_extend_body(hash_alg: u16, index: u32, digest: Seq<u8>) -> Seq<u8> {
    be32(index as int) + password_auth(0) + be32(1) + be16(hash_alg as int) + digest
}

/// TPM2_PCR_Extend of one register with one digest.
pub fn build_pcr_extend_cmd(hash_alg: u16, pcr_index: u32, digest: &[u8]) -> (c: Vec<u8>)
    ensures
        c@ == command(
            TPM_ST_SESSIONS,
            TPM2_CC_PCR_EXTEND,
            pcr_extend_body(hash_alg, pcr_index, digest@),
        ),
{
    let mut body: Vec<u8> = Vec::new();
    put32(&mut body, pcr_index);
    put_password_auth(&mut body, 0);
    put32(&mut body, 1);
    put16(&mut body, hash_alg);
    put_bytes(&mut body, digest);
    assert(body@ =~= pcr_extend_body(hash_alg, pcr_index, digest@));
    frame(TPM_ST_SESSIONS, TPM2_CC_PCR_EXTEND, &body)
}

/// TPM2_LoadExternal of a public area alone.
pub fn build_load_external_cmd(pub_blob: &[u8]) -> (c: Vec<u8>)
    ensures
        c@ == command(
            TPM_ST_NO_SESSIONS,
            TPM2_CC_LOAD_EXTERNAL,
            be16(0) + pub_blob@ + be32(TPM_RH_NULL as int),
        ),
{
    let mut body: Vec<u8> = Vec::new();
    put16(&mut body, 0);
    put_bytes(&mut body, pub_blob);
    put32(&mut body, TPM_RH_NULL);
    assert(body@ =~= be16(0) + pub_blob@ + be32(TPM_RH_NULL as int));
    frame(TPM_ST_NO_SESSIONS, TPM2_CC_LOAD_EXTERNAL, &body)
}

/// TPM2_VerifySignature over a digest.
pub fn build_verify_signature_cmd(key_handle: u32, digest: &[u8], signature: &[u8]) -> (c: Vec<u8>)
    ensures
        c@ == command(
            TPM_ST_NO_SESSIONS,
            TPM2_CC_VERIFY_SIGNATURE,
            be32(key_handle as int) + sized(digest@) + signature@,
        ),
{
    let mut body: Vec<u8> = Vec::new();
    put32(&mut body, key_handle);
    put_sized(&mut body, digest);
    put_bytes(&mut body, signature);
    assert(body@ =~= be32(key_handle as int) + sized(digest@) + signature@);
    frame(TPM_ST_NO_SESSIONS, TPM2_CC_VERIFY_SIGNATURE, &body)
}

/// The public area of the storage root key: a restricted P-256 decryption key.
pub open spec fn storage_root_area() -> Seq<u8> {
    be16(TPM_ALG_ECC as int) + be16(TPM_ALG_SHA256 as int) + be32(0x00030472) + be16(0) + be16(
        TPM_ALG_AES as int,
    ) + be16(128) + be16(TPM_ALG_CFB as int) + be16(TPM_ALG_NULL as int) + be16(
        TPM_ECC_NIST_P256 as int,
    ) + be16(TPM_ALG_NULL as int) + be16(0) + be16(0)
}

/// The sensitive area of an object with neither password nor data.
pub open spec fn empty_sensitive() -> Seq<u8> {
    be16(4) + be16(0) + be16(0)
}

/// The end of a creation command: no outside information, no register selection.
pub open spec fn creation_tail() -> Seq<u8> {
    be16(0) + be32(0)
}

/// The body of TPM2_CreatePrimary and TPM2_Create.
pub open spec fn creation_body(parent: u32, sensitive: Seq<u8>, area: Seq<u8>) -> Seq<u8> {
    be32(parent as int) + password_auth(1) + sensitive + sized(area) + creation_tail()
}

fn build_creation(code: u32, parent: u32, sensitive: &Vec<u8>, area: &Vec<u8>) -> (c: Vec<u8>)
    ensures
        c@ == command(TPM_ST_SESSIONS, code, creation_body(parent, sensitive@, area@)),
{
    let mut body: Vec<u8> = Vec::new();
    put32(&mut body, parent);
    put_password_auth(&mut body, 1);
    put_bytes(&mut body, sensitive.as_slice());
    put_sized(&mut body, area.as_slice());
    put16(&mut body, 0);
    put32(&mut body, 0);
    assert(body@ =~= creation_body(parent, sensitive@, area@));
    frame(TPM_ST_SESSIONS, code, &body)
}

fn no_sensitive() -> (v: Vec<u8>)
    ensures
        v@ == empty_sensitive(),
{
    let mut v: Vec<u8> = Vec::new();
    put16(&mut v, 4);
    put16(&mut v, 0);
    put16(&mut v, 0);
    assert(v@ =~= empty_sensitive());
    v
}

/// TPM2_CreatePrimary of the storage root key under the owner hierarchy.
pub fn build_create_primary_cmd() -> (c: Vec<u8>)
    ensures
        c@ == command(
            TPM_ST_SESSIONS,
            TPM2_CC_CREATE_PRIMARY,
            creation_body(TPM_RH_OWNER, empty_sensitive(), storage_root_area()),
        ),
{
    let mut area: Vec<u8> = Vec::new();
    put16(&mut area, TPM_ALG_ECC);
    put16(&mut area, TPM_ALG_SHA256);
    put32(&mut area, 0x00030472);
    put16(&mut area, 0);
    put16(&mut area, TPM_ALG_AES);
    put16(&mut area, 128);
    put16(&mut area, TPM_ALG_CFB);
    put16(&mut area, TPM_ALG_NULL);
    put16(&mut area, TPM_ECC_NIST_P256);
    put16(&mut area, TPM_ALG_NULL);
    put16(&mut area, 0);
    put16(&mut area, 0);
    assert(area@ =~= storage_root_area());
    build_creation(TPM2_CC_CREATE_PRIMARY, TPM_RH_OWNER, &no_sensitive(), &area)
}

/// The public area of a signing key. Both curves are asked for as P-256.
pub open spec fn signing_area(algorithm: Algorithm) -> Seq<u8> {
    match algorithm {
        Algorithm::EccP256 | Algorithm::EccP384 => be16(TPM_ALG_ECC as int) + be16(
            TPM_ALG_SHA256 as int,
        ) + be32(0x00040072) + be16(0) + be16(TPM_ALG_NULL as int) + be16(TPM_ALG_ECDSA as int)
            + be16(TPM_ALG_SHA256 as int) + be16(TPM_ECC_NIST_P256 as int) + be16(
            TPM_ALG_NULL as int,
        ) + be16(0) + be16(0),
        Algorithm::Rsa2048 | Algorithm::Rsa3072 => be16(TPM_ALG_RSA as int) + be16(
            TPM_ALG_SHA256 as int,
        ) + be32(0x00040072) + be16(0) + be16(TPM_ALG_NULL as int) + be16(TPM_ALG_RSASSA as int)
            + be16(TPM_ALG_SHA256 as int) + be16(
            if algorithm == Algorithm::Rsa3072 {
                3072
            } else {
                2048
            },
        ) + be32(0) + be16(0),
    }
}

/// TPM2_Create of a signing key under a parent.
pub fn build_create_cmd(parent_handle: u32, algorithm: Algorithm) -> (c: Vec<u8>)
    ensures
        c@ == command(
            TPM_ST_SESSIONS,
            TPM2_CC_CREATE,
            creation_body(parent_handle, empty_sensitive(), signing_area(algorithm)),
        ),
{
    let mut area: Vec<u8> = Vec::new();
    match algorithm {
        Algorithm::EccP256 | Algorithm::EccP384 => {
            put16(&mut area, TPM_ALG_ECC);
            put16(&mut area, TPM_ALG_SHA256);
            put32(&mut area, 0x00040072);
            put16(&mut area, 0);
            put16(&mut area, TPM_ALG_NULL);
            put16(&mut area, TPM_ALG_ECDSA);
            put16(&mut area, TPM_ALG_SHA256);
            put16(&mut area, TPM_ECC_NIST_P256);
            put16(&mut area, TPM_ALG_NULL);
            put16(&mut area, 0);
            put16(&mut area, 0);
        },
        Algorithm::Rsa2048 | Algorithm::Rsa3072 => {
            let key_bits: u16 = if algorithm == Algorithm::Rsa3072 {
                3072
            } else {
                2048
            };
            put16(&mut area, TPM_ALG_RSA);
            put16(&mut area, TPM_ALG_SHA256);
            put32(&mut area, 0x00040072);
            put16(&mut area, 0);
            put16(&mut area, TPM_ALG_NULL);
            put16(&mut area, TPM_ALG_RSASSA);
            put16(&mut area, TPM_ALG_SHA256);
            put16(&mut area, key_bits);
            put32(&mut area, 0);
            put16(&mut area, 0);
        },
    }
    assert(area@ =~= signing_area(algorithm));
    build_creation(TPM2_CC_CREATE, parent_handle, &no_sensitive(), &area)
}

/// TPM2_Load of a private and a public blob under a parent.
pub fn build_load_cmd(parent_handle: u32, pub_blob: &[u8], priv_blob: &[u8]) -> (c: Vec<u8>)
    ensures
        c@ == command(
            TPM_ST_SESSIONS,
            TPM2_CC_LOAD,
            be32(parent_handle as int) + password_auth(1) + priv_blob@ + pub_blob@,
        ),
{
    let mut body: Vec<u8> = Vec::new();
    put32(&mut body, parent_handle);
    put_password_auth(&mut body, 1);
    put_bytes(&mut body, priv_blob);
    put_bytes(&mut body, pub_blob);
    assert(body@ =~= be32(parent_handle as int) + password_auth(1) + priv_blob@ + pub_blob@);
    frame(TPM_ST_SESSIONS, TPM2_CC_LOAD, &body)
}

/// TPM2_Hash of data with SHA-256.
pub fn build_hash_cmd(data: &[u8]) -> (c: Vec<u8>)
    ensures
        c@ == command(
            TPM_ST_NO_SESSIONS,
            TPM2_CC_HASH,
            sized(data@) + be16(TPM_ALG_SHA256 as int) + be32(TPM_RH_NULL as int),
        ),
{
    let mut body: Vec<u8> = Vec::new();
    put_sized(&mut body, data);
    put16(&mut body, TPM_ALG_SHA256);
    put32(&mut body, TPM_RH_NULL);
    assert(body@ =~= sized(data@) + be16(TPM_ALG_SHA256 as int) + be32(TPM_RH_NULL as int));
    frame(TPM_ST_NO_SESSIONS, TPM2_CC_HASH, &body)
}

/// The body of TPM2_Sign over a digest with its hash ticket.
pub open spec fn sign_body(key_handle: u32, digest: Seq<u8>, ticket: Seq<u8>) -> Seq<u8> {
    be32(key_handle as int) + password_auth(1) + sized(digest) + be16(TPM_ALG_ECDSA as int) + be16(
        TPM_ALG_SHA256 as int,
    ) + ticket
}

/// TPM2_Sign with ECDSA over SHA-256.
pub fn build_sign_cmd_with_ticket(key_handle: u32, digest: &[u8], ticket: &[u8]) -> (c: Vec<u8>)
    ensures
        c@ == command(TPM_ST_SESSIONS, TPM2_CC_SIGN, sign_body(key_handle, digest@, ticket@)),
{
    let mut body: Vec<u8> = Vec::new();
    put32(&mut body, key_handle);
    put_password_auth(&mut body, 1);
    put_sized(&mut body, digest);
    put16(&mut body, TPM_ALG_ECDSA);
    put16(&mut body, TPM_ALG_SHA256);
    put_bytes(&mut body, ticket);
    assert(body@ =~= sign_body(key_handle, digest@, ticket@));
    frame(TPM_ST_SESSIONS, TPM2_CC_SIGN, &body)
}

/// TPM2_FlushContext of one handle.
pub fn build_flush_context_cmd(handle: u32) -> (c: Vec<u8>)
    ensures
        c@ == command(TPM_ST_NO_SESSIONS, TPM2_CC_FLUSH_CONTEXT, be32(handle as int)),
{
    let mut body: Vec<u8> = Vec::new();
    put32(&mut body, handle);
    assert(body@ =~= be32(handle as int));
    frame(TPM_ST_NO_SESSIONS, TPM2_CC_FLUSH_CONTEXT, &body)
}

/// The public area of a sealed data object.
pub open spec fn sealed_area() -> Seq<u8> {
    be16(TPM_ALG_KEYEDHASH as int) + be16(TPM_ALG_SHA256 as int) + be32(0x00000052) + be16(0) + be16(
        TPM_ALG_NULL as int,
    ) + be16(0)
}

/// The sensitive area that holds data and no password.
pub open spec fn data_sensitive(data: Seq<u8>) -> Seq<u8> {
    be16(4 + data.len() as int) + be16(0) + sized(data)
}

/// TPM2_Create of a sealed data object under a parent.
pub fn build_create_seal_cmd(parent_handle: u32, data: &[u8]) -> (c: Vec<u8>)
    ensures
        c@ == command(
            TPM_ST_SESSIONS,
            TPM2_CC_CREATE,
            creation_body(parent_handle, data_sensitive(data@), sealed_area()),
        ),
{
    let mut sensitive: Vec<u8> = Vec::new();
    put16(&mut sensitive, low16(data.len(), 4));
    proof {
        be16_of_low(4 + data@.len() as int);
    }
    put16(&mut sensitive, 0);
    put_sized(&mut sensitive, data);
    assert(sensitive@ =~= data_sensitive(data@));
    let mut area: Vec<u8> = Vec::new();
    put16(&mut area, TPM_ALG_KEYEDHASH);
    put16(&mut area, TPM_ALG_SHA256);
    put32(&mut area, 0x00000052);
    put16(&mut area, 0);
    put16(&mut area, TPM_ALG_NULL);
    put16(&mut area, 0);
    assert(area@ =~= sealed_area());
    build_creation(TPM2_CC_CREATE, parent_handle, &sensitive, &area)
}

/// TPM2_Unseal of a loaded object.
pub fn build_unseal_cmd(item_handle: u32) -> (c: Vec<u8>)
    ensures
        c@ == command(
            TPM_ST_SESSIONS,
            TPM2_CC_UNSEAL,
            be32(item_handle as int) + password_auth(1),
        ),
{
    let mut body: Vec<u8> = Vec::new();
    put32(&mut body, item_handle);
    put_password_auth(&mut body, 1);
    assert(body@ =~= be32(item_handle as int) + password_auth(1));
    frame(TPM_ST_SESSIONS, TPM2_CC_UNSEAL, &body)
}

} // verus!
