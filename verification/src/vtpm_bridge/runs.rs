//! What the runs promise as a whole: which of the caller's bytes reach the TPM
//! and which of the TPM's bytes reach the caller.
use vstd::prelude::*;

use crate::model::{Algorithm, PcrValue};
use crate::tpm2::readings::{
    asks_extend, asks_flush, asks_hash, asks_key, asks_load, asks_load_external, asks_random,
    asks_register, asks_root_key, asks_seal, asks_sign, asks_unseal, asks_verify, read_asks_extend,
    read_asks_flush, read_asks_hash, read_asks_key, read_asks_load, read_asks_load_external,
    read_asks_random, read_asks_register, read_asks_root_key, read_asks_seal, read_asks_sign,
    read_asks_unseal, read_asks_verify,
};
use crate::tpm2::{read16, read32};
use crate::vtpm_bridge::{
    accept, blob_field, create_key_next, create_key_start, halves_fit, handle_of, keep_object,
    pcr_extend, pcr_read_command, pcr_read_value, private_half, public_at, public_half, seal_next,
    seal_start, sign_next, sign_start, unseal_next, unseal_start, verify_signature_next,
    verify_signature_start, BridgeError, CreateNext, CreateStage, Exchange, Reply, SealNext,
    SealStage, SignNext, SignStage, UnsealNext, UnsealStage, VerifyNext, VerifyStage,
};

verus! {

// ---------------------------------------------------------------------------
// Replies
// ---------------------------------------------------------------------------

/// The TPM reports success, with these bytes.
pub open spec fn succeeds(reply: Reply, r: Seq<u8>) -> bool {
    reply matches Ok(v) && v@ == r && r.len() >= 10 && read32(r, 6) == 0
}

/// The TPM reports success and hands out a handle.
pub open spec fn gives_handle(reply: Reply, handle: u32) -> bool {
    reply matches Ok(v) && v@.len() >= 14 && read32(v@, 6) == 0 && read32(v@, 10) == handle
}

/// The TPM refuses, with this code; or the engine fails.
pub open spec fn refused(reply: Reply) -> bool {
    match reply {
        Ok(v) => v@.len() >= 10 && read32(v@, 6) != 0,
        Err(_) => true,
    }
}

/// A reply counts as a success just where the engine did not fail and the
/// response code is zero, and is then handed on whole. Otherwise the code, or
/// the engine's words, are the error.
pub proof fn response_code_decides(reply: Reply, r: Result<Vec<u8>, BridgeError>)
    requires
        call_ensures(accept, (reply,), r),
    ensures
        refused(reply) <==> r is Err,
        reply is Ok && !refused(reply) ==> r->Ok_0 == reply->Ok_0,
        reply is Ok && refused(reply) ==> (r->Err_0 matches BridgeError::Tpm(code) && code
            == read32(reply->Ok_0@, 6)),
        reply is Err ==> (r->Err_0 matches BridgeError::Engine(m) && m == reply->Err_0),
{
}

/// The handle that a reply carries is read behind its header; a refusal gives
/// none, nor does a reply without room for it.
pub proof fn handle_is_read(e: Exchange, reply: Reply, handle: u32, h: Result<u32, BridgeError>)
    requires
        call_ensures(handle_of, (e, reply), h),
    ensures
        gives_handle(reply, handle) ==> h == Ok::<u32, BridgeError>(handle),
        refused(reply) ==> h is Err,
        reply is Ok && reply->Ok_0@.len() < 14 ==> h is Err,
{
}

/// Every run under the storage root key begins by asking for that key.
pub proof fn runs_begin_with_the_root_key(
    create: CreateNext,
    sign: SignNext,
    seal: SealNext,
    unseal: UnsealNext,
)
    requires
        call_ensures(create_key_start, (), create),
        call_ensures(sign_start, (), sign),
        call_ensures(seal_start, (), seal),
        call_ensures(unseal_start, (), unseal),
    ensures
        create matches CreateNext::Send(CreateStage::Primary, c) && asks_root_key(c@),
        sign matches SignNext::Send(SignStage::Primary, c) && asks_root_key(c@),
        seal matches SealNext::Send(SealStage::Primary, c) && asks_root_key(c@),
        unseal matches UnsealNext::Send(UnsealStage::Primary, c) && asks_root_key(c@),
{
    read_asks_root_key(create->Send_1@);
    read_asks_root_key(sign->Send_1@);
    read_asks_root_key(seal->Send_1@);
    read_asks_root_key(unseal->Send_1@);
}

// ---------------------------------------------------------------------------
// Creating a key
// ---------------------------------------------------------------------------

/// A byte string with its length in front, in sixteen bits.
pub open spec fn with_length(s: Seq<u8>) -> bool {
    s.len() >= 2 && read16(s, 0) == s.len() - 2
}

/// A key is created under the storage root key with the algorithm that was
/// asked for.
pub proof fn creation_asks_for_the_algorithm(
    algorithm: Algorithm,
    srk: u32,
    reply: Reply,
    n: CreateNext,
)
    requires
        gives_handle(reply, srk),
        call_ensures(create_key_next, (algorithm, CreateStage::Primary, reply), n),
    ensures
        n matches CreateNext::Send(CreateStage::Create { srk: s }, c) && s == srk && asks_key(
            c@,
            srk,
            algorithm,
        ),
{
    read_asks_key(n->Send_1@, srk, algorithm);
}

/// The halves that the TPM hands out, behind fourteen bytes of header and with
/// whatever follows, are the halves that are kept; the storage root key is
/// flushed meanwhile.
pub proof fn created_halves_are_taken(
    algorithm: Algorithm,
    srk: u32,
    header: Seq<u8>,
    private: Seq<u8>,
    public: Seq<u8>,
    rest: Seq<u8>,
    reply: Reply,
    n: CreateNext,
)
    requires
        header.len() == 14,
        with_length(private),
        with_length(public),
        succeeds(reply, header + private + public + rest),
        call_ensures(create_key_next, (algorithm, CreateStage::Create { srk }, reply), n),
    ensures
        n matches CreateNext::Send(CreateStage::Flush { public: p, private: q }, c) && p@ == public
            && q@ == private && asks_flush(c@, srk),
{
    halves_are_found(header, private, public, rest);
    read_asks_flush(n->Send_1@, srk);
}

/// Both halves lie where they are looked for.
proof fn halves_are_found(header: Seq<u8>, private: Seq<u8>, public: Seq<u8>, rest: Seq<u8>)
    requires
        header.len() == 14,
        with_length(private),
        with_length(public),
    ensures
        halves_fit(header + private + public + rest),
        private_half(header + private + public + rest) == private,
        public_half(header + private + public + rest) == public,
{
    let r = header + private + public + rest;
    let at = 14 + private.len() as int;
    assert(r[14] == private[0]);
    assert(r[15] == private[1]);
    assert(public_at(r) == at);
    assert(r[at] == public[0]);
    assert(r[at + 1] == public[1]);
    assert(r.subrange(14, at) =~= private);
    assert(r.subrange(at, at + public.len()) =~= public);
}

/// A created key is kept so that both of its halves read back.
pub proof fn created_key_is_kept(
    algorithm: Algorithm,
    public: Vec<u8>,
    private: Vec<u8>,
    reply: Reply,
    n: CreateNext,
)
    requires
        call_ensures(create_key_next, (algorithm, CreateStage::Flush { public, private }, reply), n),
    ensures
        refused(reply) ==> n matches CreateNext::Done(Err(_)),
        !refused(reply) ==> (n matches CreateNext::Done(Ok(blob)) && blob_field(
            blob@,
            "public"@,
        ) == Some(public@) && blob_field(blob@, "private"@) == Some(private@)),
{
}

// ---------------------------------------------------------------------------
// Signing
// ---------------------------------------------------------------------------

/// The blob is a kept object with these halves.
pub open spec fn holds_object(blob: Seq<u8>, public: Seq<u8>, private: Seq<u8>) -> bool {
    &&& blob_field(blob, "public"@) == Some(public)
    &&& blob_field(blob, "private"@) == Some(private)
}

/// What was kept can be loaded: the halves of an object are those that went in.
pub proof fn kept_object_holds_its_halves(public: &[u8], private: &[u8], blob: Vec<u8>)
    requires
        call_ensures(keep_object, (public, private), blob),
    ensures
        holds_object(blob@, public@, private@),
{
}

/// Signing loads the key that the blob holds, under the storage root key.
pub proof fn signing_loads_the_key(
    blob: &[u8],
    data: &[u8],
    public: Seq<u8>,
    private: Seq<u8>,
    srk: u32,
    reply: Reply,
    n: SignNext,
)
    requires
        holds_object(blob@, public, private),
        public.len() + private.len() + 27 < 0x100000000,
        gives_handle(reply, srk),
        call_ensures(sign_next, (blob, data, SignStage::Primary, reply), n),
    ensures
        n matches SignNext::Send(SignStage::Load { srk: s }, c) && s == srk && asks_load(
            c@,
            srk,
            public,
            private,
        ),
{
    read_asks_load(n->Send_1@, srk, public, private);
}

/// Once the key is loaded, the data to be signed is what the TPM hashes.
pub proof fn signing_hashes_the_data(
    blob: &[u8],
    data: &[u8],
    srk: u32,
    key: u32,
    reply: Reply,
    n: SignNext,
)
    requires
        data@.len() < 0x10000,
        gives_handle(reply, key),
        call_ensures(sign_next, (blob, data, SignStage::Load { srk }, reply), n),
    ensures
        n matches SignNext::Send(SignStage::Hash { srk: s, key: k }, c) && s == srk && k == key
            && read16(c@, 10) == data@.len() && c@.subrange(12, 12int + data@.len()) == data@
            && asks_hash(c@, data@),
{
    read_asks_hash(n->Send_1@, data@);
}

/// Two signing runs with different data have the TPM hash different data,
/// even with the same key.
pub proof fn signing_tells_data_apart(
    blob: &[u8],
    a: &[u8],
    b: &[u8],
    srk: u32,
    key: u32,
    reply: Reply,
    n: SignNext,
    m: SignNext,
)
    requires
        a@.len() < 0x10000,
        b@.len() < 0x10000,
        a@ != b@,
        gives_handle(reply, key),
        call_ensures(sign_next, (blob, a, SignStage::Load { srk }, reply), n),
        call_ensures(sign_next, (blob, b, SignStage::Load { srk }, reply), m),
    ensures
        n is Send,
        m is Send,
        n->Send_1@ != m->Send_1@,
{
    signing_hashes_the_data(blob, a, srk, key, reply, n);
    signing_hashes_the_data(blob, b, srk, key, reply, m);
}

/// The digest that the TPM made, and the ticket behind it, go into the signing
/// command for the loaded key.
pub proof fn signing_signs_the_digest(
    blob: &[u8],
    data: &[u8],
    srk: u32,
    key: u32,
    header: Seq<u8>,
    digest: Seq<u8>,
    ticket: Seq<u8>,
    reply: Reply,
    n: SignNext,
)
    requires
        header.len() == 12,
        read16(header, 10) == digest.len(),
        digest.len() + ticket.len() + 33 < 0x100000000,
        succeeds(reply, header + digest + ticket),
        call_ensures(sign_next, (blob, data, SignStage::Hash { srk, key }, reply), n),
    ensures
        n matches SignNext::Send(SignStage::Sign { srk: s, key: k }, c) && s == srk && k == key
            && asks_sign(c@, key, digest, ticket),
{
    let r = header + digest + ticket;
    let at = 12 + digest.len() as int;
    assert(r[10] == header[10]);
    assert(r[11] == header[11]);
    assert(r.subrange(12, at) =~= digest);
    assert(r.subrange(at, r.len() as int) =~= ticket);
    read_asks_sign(n->Send_1@, key, digest, ticket);
}

/// The signature is the parameter area of the reply, without the session bytes
/// behind it; the key is flushed meanwhile.
pub proof fn signature_is_the_parameter_area(
    blob: &[u8],
    data: &[u8],
    srk: u32,
    key: u32,
    header: Seq<u8>,
    signature: Seq<u8>,
    session: Seq<u8>,
    reply: Reply,
    n: SignNext,
)
    requires
        header.len() == 14,
        read32(header, 10) == signature.len(),
        succeeds(reply, header + signature + session),
        call_ensures(sign_next, (blob, data, SignStage::Sign { srk, key }, reply), n),
    ensures
        n matches SignNext::Send(SignStage::FlushKey { srk: s, signature: sig }, c) && s == srk
            && sig@ == signature && asks_flush(c@, key),
{
    let r = header + signature + session;
    assert(r[10] == header[10]);
    assert(r[11] == header[11]);
    assert(r[12] == header[12]);
    assert(r[13] == header[13]);
    assert(r.subrange(14, 14 + signature.len() as int) =~= signature);
    read_asks_flush(n->Send_1@, key);
}

/// The signature survives both flushes, whatever the TPM answers to them.
pub proof fn signature_is_handed_out(
    blob: &[u8],
    data: &[u8],
    srk: u32,
    signature: Vec<u8>,
    first: Reply,
    second: Reply,
    n: SignNext,
    m: SignNext,
)
    requires
        call_ensures(sign_next, (blob, data, SignStage::FlushKey { srk, signature }, first), n),
        call_ensures(
            sign_next,
            (blob, data, SignStage::FlushPrimary { outcome: Some(signature) }, second),
            m,
        ),
    ensures
        n matches SignNext::Send(SignStage::FlushPrimary { outcome: Some(sig) }, c) && sig
            == signature && asks_flush(c@, srk),
        m == SignNext::Done(Ok(signature)),
{
    read_asks_flush(n->Send_1@, srk);
}

/// A run whose key the TPM refuses flushes the storage root key, asks for
/// sixty-four random bytes, and hands out what the TPM then gives.
pub proof fn refused_key_ends_in_random_bytes(
    blob: &[u8],
    data: &[u8],
    stage: SignStage,
    srk: u32,
    refusal: Reply,
    any: Reply,
    random: Reply,
    header: Seq<u8>,
    bytes: Seq<u8>,
    n: SignNext,
    m: SignNext,
    o: SignNext,
)
    requires
        stage == (SignStage::Load { srk }) || (stage matches SignStage::Hash { srk: s, .. } && s
            == srk) || (stage matches SignStage::Sign { srk: s, .. } && s == srk),
        refused(refusal),
        header.len() == 12,
        succeeds(random, header + bytes),
        call_ensures(sign_next, (blob, data, stage, refusal), n),
        call_ensures(sign_next, (blob, data, SignStage::FlushPrimary { outcome: None }, any), m),
        call_ensures(sign_next, (blob, data, SignStage::Random, random), o),
    ensures
        n matches SignNext::Send(SignStage::FlushPrimary { outcome: None }, c) && asks_flush(
            c@,
            srk,
        ),
        m matches SignNext::Send(SignStage::Random, c) && asks_random(c@, 64),
        o matches SignNext::Done(Ok(sig)) && sig@ == bytes,
{
    read_asks_flush(n->Send_1@, srk);
    read_asks_random(m->Send_1@, 64);
    let r = header + bytes;
    assert(r.subrange(12, r.len() as int) =~= bytes);
    assert(bytes.len() == 0 ==> bytes =~= Seq::<u8>::empty());
}

// ---------------------------------------------------------------------------
// Verifying a signature
// ---------------------------------------------------------------------------

/// A signature check loads the public half of the blob and asks the TPM about
/// the digest and the signature that it was given.
pub proof fn verification_asks_about_the_signature(
    blob: &[u8],
    public: Seq<u8>,
    digest: &[u8],
    signature: &[u8],
    key: u32,
    reply: Reply,
    n: VerifyNext,
    m: VerifyNext,
)
    requires
        blob_field(blob@, "public"@) == Some(public),
        public.len() + 16 < 0x100000000,
        digest@.len() < 0x10000,
        digest@.len() + signature@.len() + 16 < 0x100000000,
        gives_handle(reply, key),
        call_ensures(verify_signature_start, (blob,), n),
        call_ensures(
            verify_signature_next,
            (digest, signature, VerifyStage::LoadExternal, reply),
            m,
        ),
    ensures
        n matches VerifyNext::Send(VerifyStage::LoadExternal, c) && asks_load_external(c@, public),
        m matches VerifyNext::Send(VerifyStage::Verify { key: k }, c) && k == key && asks_verify(
            c@,
            key,
            digest@,
            signature@,
        ),
{
    read_asks_load_external(n->Send_1@, public);
    read_asks_verify(m->Send_1@, key, digest@, signature@);
}

/// A signature is valid just where the TPM answers the check with success;
/// any other response code makes it invalid and is no error. The verdict
/// survives the flush of the key.
pub proof fn response_code_is_the_verdict(
    digest: &[u8],
    signature: &[u8],
    key: u32,
    r: Vec<u8>,
    any: Reply,
    n: VerifyNext,
    m: VerifyNext,
)
    requires
        r@.len() >= 10,
        call_ensures(
            verify_signature_next,
            (digest, signature, VerifyStage::Verify { key }, Ok::<Vec<u8>, String>(r)),
            n,
        ),
        call_ensures(
            verify_signature_next,
            (digest, signature, VerifyStage::Flush { valid: read32(r@, 6) == 0 }, any),
            m,
        ),
    ensures
        n matches VerifyNext::Send(VerifyStage::Flush { valid }, c) && valid == (read32(r@, 6) == 0)
            && asks_flush(c@, key),
        m == VerifyNext::Done(Ok(read32(r@, 6) == 0)),
{
    read_asks_flush(n->Send_1@, key);
}

// ---------------------------------------------------------------------------
// Sealing
// ---------------------------------------------------------------------------

/// The secret is what the sealing command carries, under the storage root key.
pub proof fn sealing_carries_the_secret(
    data: &[u8],
    policy: Option<Vec<u8>>,
    srk: u32,
    reply: Reply,
    n: SealNext,
)
    requires
        data@.len() < 0xFFFC,
        gives_handle(reply, srk),
        call_ensures(seal_next, (data, policy, SealStage::Primary, reply), n),
    ensures
        n matches SealNext::Send(SealStage::Create { srk: s }, c) && s == srk && read16(c@, 31)
            == data@.len() && c@.subrange(33, 33int + data@.len()) == data@ && asks_seal(
            c@,
            srk,
            data@,
        ),
{
    read_asks_seal(n->Send_1@, srk, data@);
}

/// Two sealing runs with different secrets send different commands.
pub proof fn sealing_tells_secrets_apart(
    a: &[u8],
    b: &[u8],
    policy: Option<Vec<u8>>,
    srk: u32,
    reply: Reply,
    n: SealNext,
    m: SealNext,
)
    requires
        a@.len() < 0xFFFC,
        b@.len() < 0xFFFC,
        a@ != b@,
        gives_handle(reply, srk),
        call_ensures(seal_next, (a, policy, SealStage::Primary, reply), n),
        call_ensures(seal_next, (b, policy, SealStage::Primary, reply), m),
    ensures
        n is Send,
        m is Send,
        n->Send_1@ != m->Send_1@,
{
    sealing_carries_the_secret(a, policy, srk, reply, n);
    sealing_carries_the_secret(b, policy, srk, reply, m);
}

/// The halves of the sealed object that the TPM hands out are the halves that
/// are kept.
pub proof fn sealed_halves_are_taken(
    data: &[u8],
    policy: Option<Vec<u8>>,
    srk: u32,
    header: Seq<u8>,
    private: Seq<u8>,
    public: Seq<u8>,
    rest: Seq<u8>,
    reply: Reply,
    n: SealNext,
)
    requires
        header.len() == 14,
        with_length(private),
        with_length(public),
        succeeds(reply, header + private + public + rest),
        call_ensures(seal_next, (data, policy, SealStage::Create { srk }, reply), n),
    ensures
        n matches SealNext::Send(SealStage::Flush { public: p, private: q }, c) && p@ == public
            && q@ == private && asks_flush(c@, srk),
{
    halves_are_found(header, private, public, rest);
    read_asks_flush(n->Send_1@, srk);
}

/// A sealed object is kept so that both of its halves read back, beside the
/// policy that was asked for.
pub proof fn sealed_object_is_kept(
    data: &[u8],
    policy: Option<Vec<u8>>,
    public: Vec<u8>,
    private: Vec<u8>,
    reply: Reply,
    n: SealNext,
)
    requires
        call_ensures(
            seal_next,
            (data, policy, SealStage::Flush { public, private }, reply),
            n,
        ),
    ensures
        refused(reply) ==> n matches SealNext::Done(Err(_)),
        !refused(reply) ==> (n matches SealNext::Done(Ok(sealed)) && holds_object(
            sealed.blob@,
            public@,
            private@,
        ) && sealed.policy_digest == policy),
{
}

/// Unsealing loads the object that the blob holds and then asks for its data.
pub proof fn unsealing_loads_the_object(
    blob: &[u8],
    public: Seq<u8>,
    private: Seq<u8>,
    srk: u32,
    object: u32,
    first: Reply,
    second: Reply,
    n: UnsealNext,
    m: UnsealNext,
)
    requires
        holds_object(blob@, public, private),
        public.len() + private.len() + 27 < 0x100000000,
        gives_handle(first, srk),
        gives_handle(second, object),
        call_ensures(unseal_next, (blob, UnsealStage::Primary, first), n),
        call_ensures(unseal_next, (blob, UnsealStage::Load { srk }, second), m),
    ensures
        n matches UnsealNext::Send(UnsealStage::Load { srk: s }, c) && s == srk && asks_load(
            c@,
            srk,
            public,
            private,
        ),
        m matches UnsealNext::Send(UnsealStage::Unseal { srk: s, object: o }, c) && s == srk && o
            == object && asks_unseal(c@, object),
{
    read_asks_load(n->Send_1@, srk, public, private);
    read_asks_unseal(m->Send_1@, object);
}

/// The data that the TPM unseals, behind fourteen bytes of header and their
/// length, are the outcome; the object and the storage root key are flushed
/// meanwhile.
pub proof fn unsealed_data_are_handed_out(
    blob: &[u8],
    srk: u32,
    object: u32,
    header: Seq<u8>,
    data: Seq<u8>,
    rest: Seq<u8>,
    r: Vec<u8>,
    any: Reply,
    n: UnsealNext,
    m: UnsealNext,
    kept: Vec<u8>,
    o: UnsealNext,
)
    requires
        header.len() == 16,
        read16(header, 14) == data.len(),
        r@ == header + data + rest,
        read32(r@, 6) == 0,
        call_ensures(
            unseal_next,
            (blob, UnsealStage::Unseal { srk, object }, Ok::<Vec<u8>, String>(r)),
            n,
        ),
        call_ensures(unseal_next, (blob, UnsealStage::FlushObject { srk, reply: r }, any), m),
        kept@ == data,
        call_ensures(unseal_next, (blob, UnsealStage::FlushPrimary { data: Some(kept) }, any), o),
    ensures
        n matches UnsealNext::Send(UnsealStage::FlushObject { srk: s, reply: q }, c) && s == srk
            && q == r && asks_flush(c@, object),
        m matches UnsealNext::Send(UnsealStage::FlushPrimary { data: Some(d) }, c) && d@ == data
            && asks_flush(c@, srk),
        o matches UnsealNext::Done(Ok(d)) && d@ == data,
{
    assert(r@[14] == header[14]);
    assert(r@[15] == header[15]);
    assert(r@.subrange(16, 16 + data.len() as int) =~= data);
    assert(data.len() == 0 ==> data =~= Seq::<u8>::empty());
    read_asks_flush(n->Send_1@, object);
    read_asks_flush(m->Send_1@, srk);
}

/// A run whose object the TPM refuses flushes the storage root key and hands
/// out the blob itself.
pub proof fn refused_object_ends_in_the_blob(
    blob: &[u8],
    stage: UnsealStage,
    srk: u32,
    refusal: Reply,
    any: Reply,
    n: UnsealNext,
    m: UnsealNext,
)
    requires
        stage == (UnsealStage::Load { srk }) || (stage matches UnsealStage::Unseal { srk: s, .. }
            && s == srk),
        refused(refusal),
        call_ensures(unseal_next, (blob, stage, refusal), n),
        call_ensures(unseal_next, (blob, UnsealStage::FlushPrimary { data: None }, any), m),
    ensures
        n matches UnsealNext::Send(UnsealStage::FlushPrimary { data: None }, c) && asks_flush(
            c@,
            srk,
        ),
        m matches UnsealNext::Done(Ok(d)) && d@ == blob@,
{
    read_asks_flush(n->Send_1@, srk);
}

// ---------------------------------------------------------------------------
// Registers
// ---------------------------------------------------------------------------

/// The banks that are known, with the number of their hash algorithm and the
/// size of their digests.
pub open spec fn bank_of(name: Seq<char>, hash_alg: u16, size: nat) -> bool {
    ||| name == "sha1"@ && hash_alg == 0x0004 && size == 20
    ||| name == "sha256"@ && hash_alg == 0x000B && size == 32
    ||| name == "sha384"@ && hash_alg == 0x000C && size == 48
}

proof fn bank_names_differ()
    ensures
        "sha1"@ != "sha256"@,
        "sha1"@ != "sha384"@,
        "sha256"@ != "sha384"@,
{
    reveal_strlit("sha1");
    reveal_strlit("sha256");
    reveal_strlit("sha384");
    assert("sha1"@.len() == 4);
    assert("sha256"@.len() == 6);
    assert("sha256"@[3] == '2');
    assert("sha384"@[3] == '3');
}

/// The value of a register is the digest at the end of the reply, whatever
/// stands before it.
pub proof fn digest_is_read_behind_any_header(
    bank: String,
    index: u32,
    hash_alg: u16,
    header: Seq<u8>,
    digest: Seq<u8>,
    r: Vec<u8>,
    v: Result<PcrValue, BridgeError>,
)
    requires
        bank_of(bank@, hash_alg, digest.len()),
        header.len() >= 3,
        r@ == header + digest,
        read32(r@, 6) == 0,
        call_ensures(pcr_read_value, (bank, index, Ok::<Vec<u8>, String>(r)), v),
    ensures
        v matches Ok(value) && value.bank == bank && value.index == index && value.digest@
            == digest,
{
    bank_names_differ();
    assert(r@.subrange(r@.len() - digest.len(), r@.len() as int) =~= digest);
}

/// A register that the TPM refuses to read has no value, and neither has one of
/// an unknown bank.
pub proof fn unread_register_has_no_value(
    bank: String,
    index: u32,
    reply: Reply,
    v: Result<PcrValue, BridgeError>,
)
    requires
        refused(reply) || forall|a: u16, n: nat| !bank_of(bank@, a, n),
        call_ensures(pcr_read_value, (bank, index, reply), v),
    ensures
        v is Err,
{
    bank_names_differ();
    if !refused(reply) {
        assert(!bank_of(bank@, 0x0004, 20));
        assert(!bank_of(bank@, 0x000B, 32));
        assert(!bank_of(bank@, 0x000C, 48));
    }
}

/// A register is extended with a digest of the bank's own size and with no
/// other; the command carries the register, the bank's algorithm and the
/// digest.
pub proof fn extending_carries_the_digest(
    bank: String,
    index: u32,
    digest: &[u8],
    hash_alg: u16,
    size: nat,
    r: Result<Vec<u8>, BridgeError>,
)
    requires
        bank_of(bank@, hash_alg, size),
        call_ensures(pcr_extend, (bank, index, digest), r),
    ensures
        digest@.len() == size ==> (r matches Ok(c) && asks_extend(c@, hash_alg, index, digest@)),
        digest@.len() != size ==> r is Err,
{
    bank_names_differ();
    if digest@.len() == size {
        read_asks_extend(r->Ok_0@, hash_alg, index, digest@);
    }
}

/// A register is read out of the bank that was named.
pub proof fn reading_selects_the_register(
    bank: String,
    index: u32,
    hash_alg: u16,
    size: nat,
    r: Result<Vec<u8>, BridgeError>,
)
    requires
        bank_of(bank@, hash_alg, size),
        index < 24,
        call_ensures(pcr_read_command, (bank, index), r),
    ensures
        r matches Ok(c) && asks_register(c@, hash_alg, index),
{
    bank_names_differ();
    read_asks_register(r->Ok_0@, hash_alg, index);
}

/// An unknown bank is neither extended nor read, and is named in the error.
pub proof fn unknown_bank_is_refused(
    bank: String,
    index: u32,
    digest: &[u8],
    extended: Result<Vec<u8>, BridgeError>,
    read: Result<Vec<u8>, BridgeError>,
)
    requires
        forall|a: u16, n: nat| !bank_of(bank@, a, n),
        call_ensures(pcr_extend, (bank, index, digest), extended),
        call_ensures(pcr_read_command, (bank, index), read),
    ensures
        extended == Err::<Vec<u8>, BridgeError>(BridgeError::UnsupportedBank(bank)),
        read == Err::<Vec<u8>, BridgeError>(BridgeError::UnsupportedBank(bank)),
{
    assert(!bank_of(bank@, 0x0004, 20));
    assert(!bank_of(bank@, 0x000B, 32));
    assert(!bank_of(bank@, 0x000C, 48));
}

} // verus!
