//! What a TPM reads out of the commands: each field stands where the wire
//! format puts it and holds what the caller gave.
use vstd::arithmetic::power2::{lemma2_to64, pow2};
use vstd::prelude::*;

use crate::model::Algorithm;
use crate::tpm2::{
    be16, be16_reads_back, be32, be32_reads_back, build_create_cmd, build_create_primary_cmd,
    build_create_seal_cmd, build_flush_context_cmd, build_get_random_cmd, build_hash_cmd,
    build_load_cmd, build_load_external_cmd, build_pcr_extend_cmd, build_pcr_read_cmd,
    build_selftest_cmd, build_sign_cmd_with_ticket, build_startup_cmd, build_unseal_cmd,
    build_verify_signature_cmd, command, command_header, creation_body, creation_tail,
    data_sensitive, empty_sensitive, password_auth, pcr_extend_body, pcr_read_body, read16, read32,
    sealed_area, sign_body, signing_area, sized, storage_root_area, TPM2_CC_CREATE,
    TPM2_CC_CREATE_PRIMARY, TPM2_CC_FLUSH_CONTEXT, TPM2_CC_GET_RANDOM, TPM2_CC_HASH, TPM2_CC_LOAD,
    TPM2_CC_LOAD_EXTERNAL, TPM2_CC_PCR_EXTEND, TPM2_CC_PCR_READ, TPM2_CC_SIGN, TPM2_CC_UNSEAL,
    TPM2_CC_VERIFY_SIGNATURE, TPM_ALG_SHA256, TPM_RH_NULL, TPM_RH_OWNER, TPM_ST_NO_SESSIONS,
    TPM_ST_SESSIONS,
};

verus! {

/// The header of a command that is whole: its tag, its own length, its code.
pub open spec fn headed(c: Seq<u8>, tag: int, code: int) -> bool {
    &&& c.len() >= 10
    &&& read16(c, 0) == tag
    &&& read32(c, 2) == c.len()
    &&& read32(c, 6) == code
}

/// An authorization with the empty password stands at `at`: nine bytes, with
/// the password session, no nonce, the session's attributes and no password.
pub open spec fn empty_password_at(c: Seq<u8>, at: int, attributes: u8) -> bool {
    &&& read32(c, at) == 9
    &&& read32(c, at + 4) == 0x40000009
    &&& read16(c, at + 8) == 0
    &&& c[at + 10] == attributes
    &&& read16(c, at + 11) == 0
}

/// The bytes `s` stand in `c` at `at`.
#[verifier::opaque]
spec fn piece(c: Seq<u8>, at: int, s: Seq<u8>) -> bool {
    0 <= at && at + s.len() <= c.len() && c.subrange(at, at + s.len()) == s
}

/// Both parts of a piece are pieces.
proof fn parts(c: Seq<u8>, at: int, a: Seq<u8>, b: Seq<u8>)
    requires
        piece(c, at, a + b),
    ensures
        piece(c, at, a),
        piece(c, at + a.len(), b),
{
    reveal(piece);
    let whole = c.subrange(at, at + a.len() + b.len());
    assert(c.subrange(at, at + a.len()) =~= whole.subrange(0, a.len() as int));
    assert(whole.subrange(0, a.len() as int) =~= a);
    assert(c.subrange(at + a.len(), at + a.len() + b.len()) =~= whole.subrange(
        a.len() as int,
        whole.len() as int,
    ));
    assert(whole.subrange(a.len() as int, whole.len() as int) =~= b);
}

/// An integer inside a piece is read at its own place.
proof fn word_in_piece(c: Seq<u8>, at: int, s: Seq<u8>, k: int)
    requires
        piece(c, at, s),
        0 <= k,
        k + 2 <= s.len(),
    ensures
        read16(c, at + k) == read16(s, k),
{
    reveal(piece);
    let part = c.subrange(at, at + s.len());
    assert(part[k] == c[at + k]);
    assert(part[k + 1] == c[at + k + 1]);
}

proof fn long_word_in_piece(c: Seq<u8>, at: int, s: Seq<u8>, k: int)
    requires
        piece(c, at, s),
        0 <= k,
        k + 4 <= s.len(),
    ensures
        read32(c, at + k) == read32(s, k),
{
    reveal(piece);
    let part = c.subrange(at, at + s.len());
    assert(part[k] == c[at + k]);
    assert(part[k + 1] == c[at + k + 1]);
    assert(part[k + 2] == c[at + k + 2]);
    assert(part[k + 3] == c[at + k + 3]);
}

proof fn word_read(c: Seq<u8>, at: int, n: int)
    requires
        piece(c, at, be16(n)),
        0 <= n < 0x10000,
    ensures
        read16(c, at) == n,
{
    let none = Seq::<u8>::empty();
    be16_reads_back(n as u16, none, none);
    assert(none + be16(n) + none =~= be16(n));
    word_in_piece(c, at, be16(n), 0);
}

proof fn long_word_read(c: Seq<u8>, at: int, n: int)
    requires
        piece(c, at, be32(n)),
        0 <= n < 0x100000000,
    ensures
        read32(c, at) == n,
{
    let none = Seq::<u8>::empty();
    be32_reads_back(n as u32, none, none);
    assert(none + be32(n) + none =~= be32(n));
    long_word_in_piece(c, at, be32(n), 0);
}

/// A framed command has its header, and its body behind that.
proof fn framed(c: Seq<u8>, tag: u16, code: u32, body: Seq<u8>)
    requires
        c == command(tag, code, body),
        10 + body.len() < 0x100000000,
    ensures
        c.len() == 10 + body.len(),
        headed(c, tag as int, code as int),
        piece(c, 10, body),
{
    command_header(tag, code, body);
    reveal(piece);
}

#[verifier::rlimit(40)]
proof fn password_read(c: Seq<u8>, at: int, attributes: u8)
    requires
        piece(c, at, password_auth(attributes)),
    ensures
        empty_password_at(c, at, attributes),
{
    let s = password_auth(attributes);
    assert(read32(s, 0) == 9 && read32(s, 4) == 0x40000009 && read16(s, 8) == 0 && s[10]
        == attributes && read16(s, 11) == 0);
    long_word_in_piece(c, at, s, 0);
    long_word_in_piece(c, at, s, 4);
    word_in_piece(c, at, s, 8);
    word_in_piece(c, at, s, 11);
    reveal(piece);
    assert(c.subrange(at, at + s.len())[10] == c[at + 10]);
}

/// The body of a creation command: the parent, the empty password, the
/// sensitive area, the public area with its length, and an empty end.
proof fn creation_read(c: Seq<u8>, parent: u32, sensitive: Seq<u8>, area: Seq<u8>)
    requires
        piece(c, 10, creation_body(parent, sensitive, area)),
        area.len() < 0x10000,
    ensures
        read32(c, 10) == parent,
        empty_password_at(c, 14, 1),
        piece(c, 27, sensitive),
        read16(c, 27int + sensitive.len()) == area.len(),
        piece(c, 29int + sensitive.len(), area),
        read16(c, 29int + sensitive.len() + area.len()) == 0,
        read32(c, 31int + sensitive.len() + area.len()) == 0,
{
    let a = be32(parent as int) + password_auth(1);
    let s = a + sensitive;
    let p = s + sized(area);
    assert(be32(parent as int).len() == 4);
    assert(password_auth(1).len() == 13);
    parts(c, 10, p, creation_tail());
    parts(c, 10, s, sized(area));
    parts(c, 10, a, sensitive);
    parts(c, 10, be32(parent as int), password_auth(1));
    long_word_read(c, 10, parent as int);
    password_read(c, 14, 1);
    let at = 27int + sensitive.len();
    parts(c, at, be16(area.len() as int), area);
    word_read(c, at, area.len() as int);
    let end = at + 2 + area.len();
    parts(c, end, be16(0), be32(0));
    word_read(c, end, 0);
    long_word_read(c, end + 2, 0);
}

/// The command that creates an object.
#[verifier::opaque]
spec fn creates(c: Seq<u8>, code: u32, parent: u32, sensitive: Seq<u8>, area: Seq<u8>) -> bool {
    c == command(TPM_ST_SESSIONS, code, creation_body(parent, sensitive, area))
}

/// A creation command as a whole.
proof fn creation_framed(c: Seq<u8>, code: u32, parent: u32, sensitive: Seq<u8>, area: Seq<u8>)
    requires
        creates(c, code, parent, sensitive, area),
        sensitive.len() < 0x20000,
        area.len() < 0x10000,
    ensures
        c.len() == 35 + sensitive.len() + area.len(),
        headed(c, 0x8002, code as int),
        read32(c, 10) == parent,
        empty_password_at(c, 14, 1),
        piece(c, 27, sensitive),
        read16(c, 27int + sensitive.len()) == area.len(),
        piece(c, 29int + sensitive.len(), area),
        read16(c, 29int + sensitive.len() + area.len()) == 0,
        read32(c, 31int + sensitive.len() + area.len()) == 0,
{
    reveal(creates);
    let body = creation_body(parent, sensitive, area);
    assert(body.len() == 25 + sensitive.len() + area.len());
    framed(c, TPM_ST_SESSIONS, code, body);
    creation_read(c, parent, sensitive, area);
}

/// The sensitive area of a secret: the length of what follows, no password,
/// and the secret with its length.
proof fn secret_read(c: Seq<u8>, at: int, data: Seq<u8>)
    requires
        piece(c, at, data_sensitive(data)),
        data.len() < 0xFFFC,
    ensures
        read16(c, at) == data.len() + 4,
        read16(c, at + 2) == 0,
        read16(c, at + 4) == data.len(),
        c.subrange(at + 6, at + 6 + data.len()) == data,
{
    let n = data.len() as int;
    parts(c, at, be16(4 + n) + be16(0), sized(data));
    parts(c, at, be16(4 + n), be16(0));
    parts(c, at + 4, be16(n), data);
    word_read(c, at, 4 + n);
    word_read(c, at + 2, 0);
    word_read(c, at + 4, n);
    reveal(piece);
}

proof fn empty_sensitive_read(c: Seq<u8>, at: int)
    requires
        piece(c, at, empty_sensitive()),
    ensures
        read16(c, at) == 4,
        read16(c, at + 2) == 0,
        read16(c, at + 4) == 0,
{
    let s = empty_sensitive();
    assert(read16(s, 0) == 4 && read16(s, 2) == 0 && read16(s, 4) == 0);
    word_in_piece(c, at, s, 0);
    word_in_piece(c, at, s, 2);
    word_in_piece(c, at, s, 4);
}

/// The creation command of an object with neither password nor data.
proof fn empty_creation(c: Seq<u8>, code: u32, parent: u32, area: Seq<u8>)
    requires
        creates(c, code, parent, empty_sensitive(), area),
        area.len() < 0x10000,
    ensures
        c.len() == 41 + area.len(),
        headed(c, 0x8002, code as int),
        read32(c, 10) == parent,
        empty_password_at(c, 14, 1),
        read16(c, 27) == 4,
        read16(c, 29) == 0,
        read16(c, 31) == 0,
        read16(c, 33) == area.len(),
        piece(c, 35, area),
        read16(c, 35int + area.len()) == 0,
        read32(c, 37int + area.len()) == 0,
{
    creation_framed(c, code, parent, empty_sensitive(), area);
    empty_sensitive_read(c, 27);
}

proof fn sealed_area_read(c: Seq<u8>, at: int)
    requires
        piece(c, at, sealed_area()),
    ensures
        read16(c, at) == 0x0008,
        read16(c, at + 2) == 0x000B,
        read32(c, at + 4) == 0x52,
        read16(c, at + 8) == 0,
        read16(c, at + 10) == 0x0010,
        read16(c, at + 12) == 0,
{
    let s = sealed_area();
    assert(read16(s, 0) == 0x0008 && read16(s, 2) == 0x000B && read32(s, 4) == 0x52);
    assert(read16(s, 8) == 0 && read16(s, 10) == 0x0010 && read16(s, 12) == 0);
    word_in_piece(c, at, s, 0);
    word_in_piece(c, at, s, 2);
    long_word_in_piece(c, at, s, 4);
    word_in_piece(c, at, s, 8);
    word_in_piece(c, at, s, 10);
    word_in_piece(c, at, s, 12);
}

#[verifier::rlimit(40)]
proof fn signing_area_read(c: Seq<u8>, at: int, algorithm: Algorithm)
    requires
        piece(c, at, signing_area(algorithm)),
    ensures
        read16(c, at + 2) == 0x000B,
        read32(c, at + 4) == 0x40072,
        read16(c, at + 8) == 0,
        read16(c, at + 10) == 0x0010,
        read16(c, at + 14) == 0x000B,
        match algorithm {
            Algorithm::Rsa2048 => read16(c, at) == 1 && read16(c, at + 12) == 0x0014 && read16(
                c,
                at + 16,
            ) == 2048 && read32(c, at + 18) == 0 && read16(c, at + 22) == 0,
            Algorithm::Rsa3072 => read16(c, at) == 1 && read16(c, at + 12) == 0x0014 && read16(
                c,
                at + 16,
            ) == 3072 && read32(c, at + 18) == 0 && read16(c, at + 22) == 0,
            _ => read16(c, at) == 0x0023 && read16(c, at + 12) == 0x0018 && read16(c, at + 16)
                == 3 && read16(c, at + 18) == 0x0010 && read16(c, at + 20) == 0 && read16(
                c,
                at + 22,
            ) == 0,
        },
{
    let s = signing_area(algorithm);
    assert(s.len() == 24);
    assert(read16(s, 2) == 0x000B && read32(s, 4) == 0x40072 && read16(s, 8) == 0);
    assert(read16(s, 10) == 0x0010 && read16(s, 14) == 0x000B);
    word_in_piece(c, at, s, 0);
    word_in_piece(c, at, s, 2);
    long_word_in_piece(c, at, s, 4);
    word_in_piece(c, at, s, 8);
    word_in_piece(c, at, s, 10);
    word_in_piece(c, at, s, 12);
    word_in_piece(c, at, s, 14);
    word_in_piece(c, at, s, 16);
    long_word_in_piece(c, at, s, 18);
    word_in_piece(c, at, s, 18);
    word_in_piece(c, at, s, 20);
    word_in_piece(c, at, s, 22);
}

proof fn root_area_len()
    ensures
        storage_root_area().len() == 26,
{
}

#[verifier::rlimit(40)]
proof fn root_area_read(c: Seq<u8>, at: int)
    requires
        piece(c, at, storage_root_area()),
    ensures
        read16(c, at) == 0x0023,
        read16(c, at + 2) == 0x000B,
        read32(c, at + 4) == 0x30472,
        read16(c, at + 8) == 0,
        read16(c, at + 10) == 0x0006,
        read16(c, at + 12) == 128,
        read16(c, at + 14) == 0x0043,
        read16(c, at + 16) == 0x0010,
        read16(c, at + 18) == 3,
        read16(c, at + 20) == 0x0010,
        read16(c, at + 22) == 0,
        read16(c, at + 24) == 0,
{
    let s = storage_root_area();
    assert(s.len() == 26);
    word_in_piece(c, at, s, 0);
    word_in_piece(c, at, s, 2);
    long_word_in_piece(c, at, s, 4);
    word_in_piece(c, at, s, 8);
    word_in_piece(c, at, s, 10);
    word_in_piece(c, at, s, 12);
    word_in_piece(c, at, s, 14);
    word_in_piece(c, at, s, 16);
    word_in_piece(c, at, s, 18);
    word_in_piece(c, at, s, 20);
    word_in_piece(c, at, s, 22);
    word_in_piece(c, at, s, 24);
}

/// The command asks for the SHA-256 of the data under the null hierarchy.
pub open spec fn asks_hash(c: Seq<u8>, data: Seq<u8>) -> bool {
    &&& headed(c, 0x8001, 0x17D)
    &&& c.len() == data.len() + 18
    &&& read16(c, 10) == data.len()
    &&& c.subrange(12, 12int + data.len()) == data
    &&& read16(c, 12int + data.len()) == 0x000B
    &&& read32(c, 14int + data.len()) == 0x40000007
}

pub(crate) proof fn read_asks_hash(c: Seq<u8>, data: Seq<u8>)
    requires
        c == command(
            TPM_ST_NO_SESSIONS,
            TPM2_CC_HASH,
            sized(data) + be16(TPM_ALG_SHA256 as int) + be32(TPM_RH_NULL as int),
        ),
        data.len() < 0x10000,
    ensures
        asks_hash(c, data),
{
    let body = sized(data) + be16(0x000B) + be32(0x40000007);
    framed(c, 0x8001, 0x17D, body);
    parts(c, 10, sized(data) + be16(0x000B), be32(0x40000007));
    parts(c, 10, sized(data), be16(0x000B));
    parts(c, 10, be16(data.len() as int), data);
    word_read(c, 10, data.len() as int);
    word_read(c, 12int + data.len(), 0x000B);
    long_word_read(c, 14int + data.len(), 0x40000007);
    reveal(piece);
}

/// The hash command carries the data with their length.
pub proof fn hash_command_carries_the_data(data: &[u8], c: Vec<u8>)
    requires
        call_ensures(build_hash_cmd, (data,), c),
        data@.len() < 0x10000,
    ensures
        asks_hash(c@, data@),
{
    read_asks_hash(c@, data@);
}

/// The command asks for an object that holds the secret, under a parent: behind
/// the empty password the sensitive area holds no password of its own and then
/// the data with their length. The object is a keyed hash under SHA-256 without
/// a policy and without a scheme.
pub open spec fn asks_seal(c: Seq<u8>, parent: u32, data: Seq<u8>) -> bool {
    &&& headed(c, 0x8002, 0x153)
    &&& c.len() == data.len() + 55
    &&& read32(c, 10) == parent
    &&& empty_password_at(c, 14, 1)
    &&& read16(c, 27) == data.len() + 4
    &&& read16(c, 29) == 0
    &&& read16(c, 31) == data.len()
    &&& c.subrange(33, 33int + data.len()) == data
    &&& read16(c, 33int + data.len()) == 14
    &&& read16(c, 35int + data.len()) == 0x0008
    &&& read16(c, 37int + data.len()) == 0x000B
    &&& read32(c, 39int + data.len()) == 0x52
    &&& read16(c, 43int + data.len()) == 0
    &&& read16(c, 45int + data.len()) == 0x0010
    &&& read16(c, 47int + data.len()) == 0
    &&& read16(c, 49int + data.len()) == 0
    &&& read32(c, 51int + data.len()) == 0
}

#[verifier::rlimit(40)]
pub(crate) proof fn read_asks_seal(c: Seq<u8>, parent: u32, data: Seq<u8>)
    requires
        c == command(
            TPM_ST_SESSIONS,
            TPM2_CC_CREATE,
            creation_body(parent, data_sensitive(data), sealed_area()),
        ),
        data.len() < 0xFFFC,
    ensures
        asks_seal(c, parent, data),
{
    let s = data_sensitive(data);
    let area = sealed_area();
    assert(creates(c, 0x153, parent, s, area)) by {
        reveal(creates);
    }
    assert(s.len() == 6 + data.len());
    assert(area.len() == 14);
    creation_framed(c, 0x153, parent, s, area);
    secret_read(c, 27, data);
    sealed_area_read(c, 29int + s.len());
}

/// The sealing command carries the secret with its length.
pub proof fn seal_command_carries_the_secret(parent: u32, data: &[u8], c: Vec<u8>)
    requires
        call_ensures(build_create_seal_cmd, (parent, data), c),
        data@.len() < 0xFFFC,
    ensures
        asks_seal(c@, parent, data@),
{
    read_asks_seal(c@, parent, data@);
}

/// The command asks for the key that the algorithm names, under a parent and
/// with neither password nor data. Behind the scheme and its hash stands the
/// key size of an RSA key, or the curve P-256 of an elliptic one.
pub open spec fn asks_key(c: Seq<u8>, parent: u32, algorithm: Algorithm) -> bool {
    &&& headed(c, 0x8002, 0x153)
    &&& c.len() == 65
    &&& read32(c, 10) == parent
    &&& empty_password_at(c, 14, 1)
    &&& read16(c, 27) == 4
    &&& read16(c, 29) == 0
    &&& read16(c, 31) == 0
    &&& read16(c, 33) == 24
    &&& read16(c, 37) == 0x000B
    &&& read32(c, 39) == 0x40072
    &&& read16(c, 43) == 0
    &&& read16(c, 45) == 0x0010
    &&& read16(c, 49) == 0x000B
    &&& match algorithm {
        Algorithm::Rsa2048 => read16(c, 35) == 1 && read16(c, 47) == 0x0014 && read16(c, 51) == 2048
            && read32(c, 53) == 0 && read16(c, 57) == 0,
        Algorithm::Rsa3072 => read16(c, 35) == 1 && read16(c, 47) == 0x0014 && read16(c, 51) == 3072
            && read32(c, 53) == 0 && read16(c, 57) == 0,
        _ => read16(c, 35) == 0x0023 && read16(c, 47) == 0x0018 && read16(c, 51) == 3
            && read16(c, 53) == 0x0010 && read16(c, 55) == 0 && read16(c, 57) == 0,
    }
    &&& read16(c, 59) == 0
    &&& read32(c, 61) == 0
}

#[verifier::rlimit(40)]
pub(crate) proof fn read_asks_key(c: Seq<u8>, parent: u32, algorithm: Algorithm)
    requires
        c == command(
            TPM_ST_SESSIONS,
            TPM2_CC_CREATE,
            creation_body(parent, empty_sensitive(), signing_area(algorithm)),
        ),
    ensures
        asks_key(c, parent, algorithm),
{
    let area = signing_area(algorithm);
    assert(area.len() == 24);
    assert(creates(c, 0x153, parent, empty_sensitive(), area)) by {
        reveal(creates);
    }
    empty_creation(c, 0x153, parent, area);
    signing_area_read(c, 35, algorithm);
}

/// The creation command names the key that the algorithm names.
pub proof fn create_command_names_the_key(parent: u32, algorithm: Algorithm, c: Vec<u8>)
    requires
        call_ensures(build_create_cmd, (parent, algorithm), c),
    ensures
        asks_key(c@, parent, algorithm),
{
    read_asks_key(c@, parent, algorithm);
}

/// The command asks for the storage root key under the owner: a P-256
/// decryption key that wraps with AES-128 in CFB mode, with neither password
/// nor data.
pub open spec fn asks_root_key(c: Seq<u8>) -> bool {
    &&& headed(c, 0x8002, 0x131)
    &&& c.len() == 67
    &&& read32(c, 10) == 0x40000001
    &&& empty_password_at(c, 14, 1)
    &&& read16(c, 27) == 4
    &&& read16(c, 29) == 0
    &&& read16(c, 31) == 0
    &&& read16(c, 33) == 26
    &&& read16(c, 35) == 0x0023
    &&& read16(c, 37) == 0x000B
    &&& read32(c, 39) == 0x30472
    &&& read16(c, 43) == 0
    &&& read16(c, 45) == 0x0006
    &&& read16(c, 47) == 128
    &&& read16(c, 49) == 0x0043
    &&& read16(c, 51) == 0x0010
    &&& read16(c, 53) == 3
    &&& read16(c, 55) == 0x0010
    &&& read16(c, 57) == 0
    &&& read16(c, 59) == 0
    &&& read16(c, 61) == 0
    &&& read32(c, 63) == 0
}

#[verifier::rlimit(40)]
pub(crate) proof fn read_asks_root_key(c: Seq<u8>)
    requires
        c == command(
            TPM_ST_SESSIONS,
            TPM2_CC_CREATE_PRIMARY,
            creation_body(TPM_RH_OWNER, empty_sensitive(), storage_root_area()),
        ),
    ensures
        asks_root_key(c),
{
    root_area_len();
    assert(creates(c, 0x131, TPM_RH_OWNER, empty_sensitive(), storage_root_area())) by {
        reveal(creates);
    }
    empty_creation(c, 0x131, TPM_RH_OWNER, storage_root_area());
    root_area_read(c, 35);
}

/// The first command of a run asks for the storage root key.
pub proof fn root_command_names_the_root_key(c: Vec<u8>)
    requires
        call_ensures(build_create_primary_cmd, (), c),
    ensures
        asks_root_key(c@),
{
    read_asks_root_key(c@);
}

/// The command asks to load an object under a parent: the private half, then
/// the public half, and nothing behind it.
pub open spec fn asks_load(c: Seq<u8>, parent: u32, public: Seq<u8>, private: Seq<u8>) -> bool {
    &&& headed(c, 0x8002, 0x157)
    &&& c.len() == 27 + private.len() + public.len()
    &&& read32(c, 10) == parent
    &&& empty_password_at(c, 14, 1)
    &&& c.subrange(27, 27int + private.len()) == private
    &&& c.subrange(27int + private.len(), c.len() as int) == public
}

pub(crate) proof fn read_asks_load(c: Seq<u8>, parent: u32, public: Seq<u8>, private: Seq<u8>)
    requires
        c == command(
            TPM_ST_SESSIONS,
            TPM2_CC_LOAD,
            be32(parent as int) + password_auth(1) + private + public,
        ),
        public.len() + private.len() + 27 < 0x100000000,
    ensures
        asks_load(c, parent, public, private),
{
    let front = be32(parent as int) + password_auth(1);
    framed(c, 0x8002, 0x157, front + private + public);
    parts(c, 10, front + private, public);
    parts(c, 10, front, private);
    parts(c, 10, be32(parent as int), password_auth(1));
    long_word_read(c, 10, parent as int);
    password_read(c, 14, 1);
    reveal(piece);
}

/// The loading command carries both halves.
pub proof fn load_command_carries_both_halves(parent: u32, public: &[u8], private: &[u8], c: Vec<u8>)
    requires
        call_ensures(build_load_cmd, (parent, public, private), c),
        public@.len() + private@.len() + 27 < 0x100000000,
    ensures
        asks_load(c@, parent, public@, private@),
{
    read_asks_load(c@, parent, public@, private@);
}

/// The command asks to load a public key alone: no private half, the public
/// half, the null hierarchy.
pub open spec fn asks_load_external(c: Seq<u8>, public: Seq<u8>) -> bool {
    &&& headed(c, 0x8001, 0x167)
    &&& c.len() == 16 + public.len()
    &&& read16(c, 10) == 0
    &&& c.subrange(12, 12int + public.len()) == public
    &&& read32(c, 12int + public.len()) == 0x40000007
}

pub(crate) proof fn read_asks_load_external(c: Seq<u8>, public: Seq<u8>)
    requires
        c == command(
            TPM_ST_NO_SESSIONS,
            TPM2_CC_LOAD_EXTERNAL,
            be16(0) + public + be32(TPM_RH_NULL as int),
        ),
        public.len() + 16 < 0x100000000,
    ensures
        asks_load_external(c, public),
{
    framed(c, 0x8001, 0x167, be16(0) + public + be32(0x40000007));
    parts(c, 10, be16(0) + public, be32(0x40000007));
    parts(c, 10, be16(0), public);
    word_read(c, 10, 0);
    long_word_read(c, 12int + public.len(), 0x40000007);
    reveal(piece);
}

/// The command that loads a public key alone carries it.
pub proof fn load_external_command_carries_the_public_half(public: &[u8], c: Vec<u8>)
    requires
        call_ensures(build_load_external_cmd, (public,), c),
        public@.len() + 16 < 0x100000000,
    ensures
        asks_load_external(c@, public@),
{
    read_asks_load_external(c@, public@);
}

/// The command asks whether a signature is the key's over a digest.
pub open spec fn asks_verify(c: Seq<u8>, key: u32, digest: Seq<u8>, signature: Seq<u8>) -> bool {
    &&& headed(c, 0x8001, 0x177)
    &&& c.len() == 16 + digest.len() + signature.len()
    &&& read32(c, 10) == key
    &&& read16(c, 14) == digest.len()
    &&& c.subrange(16, 16int + digest.len()) == digest
    &&& c.subrange(16int + digest.len(), c.len() as int) == signature
}

pub(crate) proof fn read_asks_verify(c: Seq<u8>, key: u32, digest: Seq<u8>, signature: Seq<u8>)
    requires
        c == command(
            TPM_ST_NO_SESSIONS,
            TPM2_CC_VERIFY_SIGNATURE,
            be32(key as int) + sized(digest) + signature,
        ),
        digest.len() < 0x10000,
        digest.len() + signature.len() + 16 < 0x100000000,
    ensures
        asks_verify(c, key, digest, signature),
{
    framed(c, 0x8001, 0x177, be32(key as int) + sized(digest) + signature);
    parts(c, 10, be32(key as int) + sized(digest), signature);
    parts(c, 10, be32(key as int), sized(digest));
    parts(c, 14, be16(digest.len() as int), digest);
    long_word_read(c, 10, key as int);
    word_read(c, 14, digest.len() as int);
    reveal(piece);
}

/// The verification command carries the key, the digest and the signature.
pub proof fn verify_command_carries_digest_and_signature(
    key: u32,
    digest: &[u8],
    signature: &[u8],
    c: Vec<u8>,
)
    requires
        call_ensures(build_verify_signature_cmd, (key, digest, signature), c),
        digest@.len() < 0x10000,
        digest@.len() + signature@.len() + 16 < 0x100000000,
    ensures
        asks_verify(c@, key, digest@, signature@),
{
    read_asks_verify(c@, key, digest@, signature@);
}

/// The command asks for the key's signature over a digest, with ECDSA over
/// SHA-256 and the ticket of the hash.
pub open spec fn asks_sign(c: Seq<u8>, key: u32, digest: Seq<u8>, ticket: Seq<u8>) -> bool {
    &&& headed(c, 0x8002, 0x15D)
    &&& c.len() == 33 + digest.len() + ticket.len()
    &&& read32(c, 10) == key
    &&& empty_password_at(c, 14, 1)
    &&& read16(c, 27) == digest.len()
    &&& c.subrange(29, 29int + digest.len()) == digest
    &&& read16(c, 29int + digest.len()) == 0x0018
    &&& read16(c, 31int + digest.len()) == 0x000B
    &&& c.subrange(33int + digest.len(), c.len() as int) == ticket
}

pub(crate) proof fn read_asks_sign(c: Seq<u8>, key: u32, digest: Seq<u8>, ticket: Seq<u8>)
    requires
        c == command(TPM_ST_SESSIONS, TPM2_CC_SIGN, sign_body(key, digest, ticket)),
        digest.len() < 0x10000,
        digest.len() + ticket.len() + 33 < 0x100000000,
    ensures
        asks_sign(c, key, digest, ticket),
{
    let n = digest.len() as int;
    let front = be32(key as int) + password_auth(1);
    let hashed = front + sized(digest);
    framed(c, 0x8002, 0x15D, sign_body(key, digest, ticket));
    parts(c, 10, hashed + be16(0x0018) + be16(0x000B), ticket);
    parts(c, 10, hashed + be16(0x0018), be16(0x000B));
    parts(c, 10, hashed, be16(0x0018));
    parts(c, 10, front, sized(digest));
    parts(c, 10, be32(key as int), password_auth(1));
    parts(c, 27, be16(n), digest);
    long_word_read(c, 10, key as int);
    password_read(c, 14, 1);
    word_read(c, 27, n);
    word_read(c, 29 + n, 0x0018);
    word_read(c, 31 + n, 0x000B);
    reveal(piece);
}

/// The signing command carries the key, the digest and the ticket.
pub proof fn sign_command_carries_digest_and_ticket(key: u32, digest: &[u8], ticket: &[u8], c: Vec<u8>)
    requires
        call_ensures(build_sign_cmd_with_ticket, (key, digest, ticket), c),
        digest@.len() < 0x10000,
        digest@.len() + ticket@.len() + 33 < 0x100000000,
    ensures
        asks_sign(c@, key, digest@, ticket@),
{
    read_asks_sign(c@, key, digest@, ticket@);
}

/// The command asks for one register of one bank: of the three selection bytes
/// the bit of the register is set and no other.
pub open spec fn asks_register(c: Seq<u8>, hash_alg: u16, index: u32) -> bool {
    &&& headed(c, 0x8001, 0x17E)
    &&& c.len() == 20
    &&& read32(c, 10) == 1
    &&& read16(c, 14) == hash_alg
    &&& c[16] == 3
    &&& c[17int + index / 8] == pow2((index % 8) as nat)
    &&& (forall|i: int| 17 <= i < 20 && i != 17 + index / 8 ==> c[i] == 0)
}

pub(crate) proof fn read_asks_register(c: Seq<u8>, hash_alg: u16, index: u32)
    requires
        c == command(
            TPM_ST_NO_SESSIONS,
            TPM2_CC_PCR_READ,
            pcr_read_body(hash_alg, index),
        ),
        index < 24,
    ensures
        asks_register(c, hash_alg, index),
{
    lemma2_to64();
}

/// The register reading command selects the register.
pub proof fn pcr_read_command_selects_the_register(hash_alg: u16, index: u32, c: Vec<u8>)
    requires
        call_ensures(build_pcr_read_cmd, (hash_alg, index), c),
        index < 24,
    ensures
        asks_register(c@, hash_alg, index),
{
    read_asks_register(c@, hash_alg, index);
}

/// The command asks to extend one register of one bank with one digest.
pub open spec fn asks_extend(c: Seq<u8>, hash_alg: u16, index: u32, digest: Seq<u8>) -> bool {
    &&& headed(c, 0x8002, 0x182)
    &&& c.len() == 33 + digest.len()
    &&& read32(c, 10) == index
    &&& empty_password_at(c, 14, 0)
    &&& read32(c, 27) == 1
    &&& read16(c, 31) == hash_alg
    &&& c.subrange(33, c.len() as int) == digest
}

pub(crate) proof fn read_asks_extend(c: Seq<u8>, hash_alg: u16, index: u32, digest: Seq<u8>)
    requires
        c == command(
            TPM_ST_SESSIONS,
            TPM2_CC_PCR_EXTEND,
            pcr_extend_body(hash_alg, index, digest),
        ),
        digest.len() + 33 < 0x100000000,
    ensures
        asks_extend(c, hash_alg, index, digest),
{
    let front = be32(index as int) + password_auth(0);
    framed(c, 0x8002, 0x182, pcr_extend_body(hash_alg, index, digest));
    parts(c, 10, front + be32(1) + be16(hash_alg as int), digest);
    parts(c, 10, front + be32(1), be16(hash_alg as int));
    parts(c, 10, front, be32(1));
    parts(c, 10, be32(index as int), password_auth(0));
    long_word_read(c, 10, index as int);
    password_read(c, 14, 0);
    long_word_read(c, 27, 1);
    word_read(c, 31, hash_alg as int);
    reveal(piece);
}

/// The extending command carries the register, the algorithm and the digest.
pub proof fn pcr_extend_command_carries_the_digest(hash_alg: u16, index: u32, digest: &[u8], c: Vec<u8>)
    requires
        call_ensures(build_pcr_extend_cmd, (hash_alg, index, digest), c),
        digest@.len() + 33 < 0x100000000,
    ensures
        asks_extend(c@, hash_alg, index, digest@),
{
    read_asks_extend(c@, hash_alg, index, digest@);
}

/// The command asks to flush a handle.
pub open spec fn asks_flush(c: Seq<u8>, handle: u32) -> bool {
    &&& headed(c, 0x8001, 0x165)
    &&& c.len() == 14
    &&& read32(c, 10) == handle
}

/// The command asks to unseal a loaded object.
pub open spec fn asks_unseal(c: Seq<u8>, handle: u32) -> bool {
    &&& headed(c, 0x8002, 0x15E)
    &&& c.len() == 27
    &&& read32(c, 10) == handle
    &&& empty_password_at(c, 14, 1)
}

/// The command asks for random bytes.
pub open spec fn asks_random(c: Seq<u8>, count: u16) -> bool {
    &&& headed(c, 0x8001, 0x17B)
    &&& c.len() == 12
    &&& read16(c, 10) == count
}

pub(crate) proof fn read_asks_flush(c: Seq<u8>, handle: u32)
    requires
        c == command(TPM_ST_NO_SESSIONS, TPM2_CC_FLUSH_CONTEXT, be32(handle as int)),
    ensures
        asks_flush(c, handle),
{
    framed(c, 0x8001, 0x165, be32(handle as int));
    long_word_read(c, 10, handle as int);
}

pub(crate) proof fn read_asks_unseal(c: Seq<u8>, handle: u32)
    requires
        c == command(TPM_ST_SESSIONS, TPM2_CC_UNSEAL, be32(handle as int) + password_auth(1)),
    ensures
        asks_unseal(c, handle),
{
    framed(c, 0x8002, 0x15E, be32(handle as int) + password_auth(1));
    parts(c, 10, be32(handle as int), password_auth(1));
    long_word_read(c, 10, handle as int);
    password_read(c, 14, 1);
}

pub(crate) proof fn read_asks_random(c: Seq<u8>, count: u16)
    requires
        c == command(TPM_ST_NO_SESSIONS, TPM2_CC_GET_RANDOM, be16(count as int)),
    ensures
        asks_random(c, count),
{
    framed(c, 0x8001, 0x17B, be16(count as int));
    word_read(c, 10, count as int);
}

/// The commands that name one handle carry that handle.
pub proof fn handle_commands_carry_the_handle(handle: u32, flush: Vec<u8>, unseal: Vec<u8>)
    requires
        call_ensures(build_flush_context_cmd, (handle,), flush),
        call_ensures(build_unseal_cmd, (handle,), unseal),
    ensures
        asks_flush(flush@, handle),
        asks_unseal(unseal@, handle),
{
    read_asks_flush(flush@, handle);
    read_asks_unseal(unseal@, handle);
}

/// The commands without a handle: a clear start, a full self test, and as many
/// random bytes as were asked for.
pub proof fn plain_commands_read(count: u16, startup: Vec<u8>, selftest: Vec<u8>, random: Vec<u8>)
    requires
        call_ensures(build_startup_cmd, (), startup),
        call_ensures(build_selftest_cmd, (), selftest),
        call_ensures(build_get_random_cmd, (count,), random),
    ensures
        headed(startup@, 0x8001, 0x144),
        startup@.len() == 12,
        read16(startup@, 10) == 0,
        headed(selftest@, 0x8001, 0x143),
        selftest@.len() == 11,
        selftest@[10] == 1,
        asks_random(random@, count),
{
    read_asks_random(random@, count);
}

/// Different data give different hash commands.
pub proof fn hash_commands_tell_data_apart(a: &[u8], b: &[u8], c: Vec<u8>, d: Vec<u8>)
    requires
        call_ensures(build_hash_cmd, (a,), c),
        call_ensures(build_hash_cmd, (b,), d),
        a@.len() < 0x10000,
        b@.len() < 0x10000,
        a@ != b@,
    ensures
        c@ != d@,
{
    hash_command_carries_the_data(a, c);
    hash_command_carries_the_data(b, d);
}

/// Different secrets give different sealing commands, whatever the parents.
pub proof fn seal_commands_tell_secrets_apart(
    p: u32,
    a: &[u8],
    q: u32,
    b: &[u8],
    c: Vec<u8>,
    d: Vec<u8>,
)
    requires
        call_ensures(build_create_seal_cmd, (p, a), c),
        call_ensures(build_create_seal_cmd, (q, b), d),
        a@.len() < 0xFFFC,
        b@.len() < 0xFFFC,
        a@ != b@,
    ensures
        c@ != d@,
{
    seal_command_carries_the_secret(p, a, c);
    seal_command_carries_the_secret(q, b, d);
}

/// Whether the key lies on a curve.
pub open spec fn elliptic(algorithm: Algorithm) -> bool {
    algorithm == Algorithm::EccP256 || algorithm == Algorithm::EccP384
}

proof fn keys_apart(c: Seq<u8>, d: Seq<u8>, p: u32, a: Algorithm, q: u32, b: Algorithm)
    requires
        asks_key(c, p, a),
        asks_key(d, q, b),
        a != b,
        !elliptic(a) || !elliptic(b),
    ensures
        c != d,
{
}

/// Different algorithms give different creation commands, whatever the
/// parents; only the two curves are asked for alike.
pub proof fn create_commands_tell_keys_apart(
    p: u32,
    a: Algorithm,
    q: u32,
    b: Algorithm,
    c: Vec<u8>,
    d: Vec<u8>,
)
    requires
        call_ensures(build_create_cmd, (p, a), c),
        call_ensures(build_create_cmd, (q, b), d),
        a != b,
        !elliptic(a) || !elliptic(b),
    ensures
        c@ != d@,
{
    create_command_names_the_key(p, a, c);
    create_command_names_the_key(q, b, d);
    keys_apart(c@, d@, p, a, q, b);
}

} // verus!
