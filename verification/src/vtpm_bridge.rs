//! The dialogue with the virtual TPM.
//!
//! Each operation of the backend is a script: it names the command to send,
//! takes the engine's reply, and names the next command or the outcome. Who
//! runs the script performs the sends.
use vstd::prelude::*;
use vstd::slice::*;
use vstd::string::*;

use crate::hex::{hex32, hex32_text, hex_encode, hex_text};
use crate::json::ordinary;
use crate::model::{
    Algorithm, BackendStatus, PcrMatchResult, PcrValue, QuoteData, QuoteVerification, SealedData,
};
use crate::text::{decimal, push_decimal, same};
use crate::tpm2::{
    be16, be32, build_create_cmd, build_create_primary_cmd, build_create_seal_cmd,
    build_flush_context_cmd, build_get_random_cmd, build_hash_cmd, build_load_cmd,
    build_load_external_cmd, build_pcr_extend_cmd, build_pcr_read_cmd, build_sign_cmd_with_ticket,
    build_unseal_cmd, build_verify_signature_cmd, command, creation_body, data_sensitive,
    empty_sensitive, password_auth, pcr_extend_body, pcr_read_body, put_bytes, read16, read32,
    sealed_area, sign_body, signing_area, sized, storage_root_area, TPM2_CC_CREATE,
    TPM2_CC_CREATE_PRIMARY, TPM2_CC_FLUSH_CONTEXT, TPM2_CC_GET_RANDOM, TPM2_CC_HASH, TPM2_CC_LOAD,
    TPM2_CC_LOAD_EXTERNAL, TPM2_CC_PCR_EXTEND, TPM2_CC_PCR_READ, TPM2_CC_SIGN, TPM2_CC_UNSEAL,
    TPM2_CC_VERIFY_SIGNATURE, TPM_ALG_SHA1, TPM_ALG_SHA256, TPM_ALG_SHA384, TPM_RH_NULL,
    TPM_RH_OWNER, TPM_ST_NO_SESSIONS, TPM_ST_SESSIONS,
};

pub mod quotes;
pub mod runs;

verus! {

// ---------------------------------------------------------------------------
// Key blobs
// ---------------------------------------------------------------------------

/// The bytes that a JSON object holds under a field, as a list of numbers. Where
/// there are none: whether the blob is JSON at all, and the parser's words.
pub uninterp spec fn json_field_bytes(blob: Seq<u8>, field: Seq<char>) -> Result<
    Seq<u8>,
    (bool, Seq<char>),
>;

/// The bytes that a JSON object holds under a field, if it holds any.
pub open spec fn blob_field(blob: Seq<u8>, field: Seq<char>) -> Option<Seq<u8>> {
    match json_field_bytes(blob, field) {
        Ok(v) => Some(v),
        Err(_) => None,
    }
}

/// The JSON object with two fields, each a byte string as a list of numbers.
pub uninterp spec fn byte_fields_json(
    first: Seq<char>,
    a: Seq<u8>,
    second: Seq<char>,
    b: Seq<u8>,
) -> Seq<u8>;

/// `serde_json::from_slice` into a value, the field of that name, and
/// `serde_json::from_value` into bytes; where the first or the second fails,
/// which of them and the text of its error.
#[verifier::external_body]
pub(crate) fn field_bytes(blob: &[u8], field: &str) -> (r: Result<Vec<u8>, (bool, String)>)
    ensures
        match r {
            Ok(v) => json_field_bytes(blob@, field@) == Ok::<Seq<u8>, (bool, Seq<char>)>(v@),
            Err(e) => json_field_bytes(blob@, field@) == Err::<Seq<u8>, (bool, Seq<char>)>(
                (e.0, e.1@),
            ),
        },
{
    let value: serde_json::Value =
        serde_json::from_slice(blob).map_err(|e| (false, e.to_string()))?;
    serde_json::from_value(value[field].clone()).map_err(|e| (true, e.to_string()))
}

/// `serde_json::to_vec` of an object with two byte strings under ordinary
/// names. Under two different names each reads back as it was written.
#[verifier::external_body]
pub(crate) fn two_fields(first: &str, a: &[u8], second: &str, b: &[u8]) -> (r: Vec<u8>)
    requires
        ordinary(first@),
        ordinary(second@),
    ensures
        r@ == byte_fields_json(first@, a@, second@, b@),
        first@ != second@ ==> blob_field(r@, first@) == Some(a@),
        first@ != second@ ==> blob_field(r@, second@) == Some(b@),
{
    let mut object = serde_json::Map::new();
    object.insert(first.to_string(), serde_json::Value::from(a));
    object.insert(second.to_string(), serde_json::Value::from(b));
    serde_json::to_vec(&serde_json::Value::Object(object)).unwrap_or_default()
}

/// The blob under which a created object is kept.
pub open spec fn object_blob(public: Seq<u8>, private: Seq<u8>) -> Seq<u8> {
    byte_fields_json("public"@, public, "private"@, private)
}

/// The blob under which a created object is kept. Both halves read back.
pub fn keep_object(public: &[u8], private: &[u8]) -> (blob: Vec<u8>)
    ensures
        blob@ == object_blob(public@, private@),
        blob_field(blob@, "public"@) == Some(public@),
        blob_field(blob@, "private"@) == Some(private@),
{
    proof {
        reveal_strlit("public");
        reveal_strlit("private");
    }
    assert("public"@ != "private"@) by {
        assert("public"@.len() != "private"@.len());
    }
    two_fields("public", public, "private", private)
}

/// The public half of a kept object; where there is none, whether the blob is
/// JSON at all and what is wrong with it.
pub fn public_of(blob: &[u8]) -> (r: Result<Vec<u8>, (bool, String)>)
    ensures
        match r {
            Ok(v) => json_field_bytes(blob@, "public"@) == Ok::<Seq<u8>, (bool, Seq<char>)>(v@),
            Err(e) => json_field_bytes(blob@, "public"@) == Err::<Seq<u8>, (bool, Seq<char>)>(
                (e.0, e.1@),
            ),
        },
{
    field_bytes(blob, "public")
}

// ---------------------------------------------------------------------------
// Replies
// ---------------------------------------------------------------------------

/// Where a reply was too short.
#[derive(Clone, Copy, PartialEq, Eq, Debug, Structural)]
pub enum Exchange {
    CreatePrimary,
    Create,
    Load,
    LoadExternal,
    Hash,
}

/// Why an operation of the virtual TPM failed.
#[derive(Debug)]
pub enum BridgeError {
    /// The engine itself failed.
    Engine(String),
    /// The TPM answered with a response code other than success.
    Tpm(u32),
    /// The reply ends before the fields that are read from it.
    TooShort { exchange: Exchange, len: usize },
    /// The reply to the sealing command is too short.
    SealTooShort,
    /// A length inside the reply runs past its end.
    Truncated,
    /// The key blob does not hold the parts of a key; the parser's words.
    BadBlob(String),
    /// The bank is none of those supported.
    UnsupportedBank(String),
    /// The digest does not have the size of the bank.
    DigestLength { len: usize, expected: usize, bank: String },
    /// NV data is not kept in the virtual TPM.
    NvThroughStore,
}

pub open spec fn exchange_name(e: Exchange) -> Seq<char> {
    match e {
        Exchange::CreatePrimary => "CreatePrimary"@,
        Exchange::Create => "Create"@,
        Exchange::Load => "Load"@,
        Exchange::LoadExternal => "LoadExternal"@,
        Exchange::Hash => "Hash"@,
    }
}

impl BridgeError {
    /// The message that is shown for the error.
    pub open spec fn text(self) -> Seq<char> {
        match self {
            BridgeError::Engine(m) => m@,
            BridgeError::Tpm(rc) => "TPM error "@ + hex32_text(rc as int, false),
            BridgeError::TooShort { exchange, len } => exchange_name(exchange)
                + " response too short: "@ + decimal(len as nat) + " bytes"@,
            BridgeError::SealTooShort => "seal response too short"@,
            BridgeError::Truncated => "response ends inside a field"@,
            BridgeError::BadBlob(m) => m@,
            BridgeError::UnsupportedBank(bank) => "unsupported bank: "@ + bank@,
            BridgeError::DigestLength { len, expected, bank } => "pcr_extend: digest is "@ + decimal(
                len as nat,
            ) + " bytes, expected "@ + decimal(expected as nat) + " for bank '"@ + bank@ + "'"@,
            BridgeError::NvThroughStore => "NV reads go through the store"@,
        }
    }

    /// The message that is shown for the error.
    pub fn message(&self) -> (m: String)
        ensures
            m@ == self.text(),
    {
        let mut m = String::new();
        match self {
            BridgeError::Engine(t) => {
                m.append(t.as_str());
            },
            BridgeError::Tpm(rc) => {
                m.append("TPM error ");
                m.append(hex32(*rc, false).as_str());
            },
            BridgeError::TooShort { exchange, len } => {
                m.append(
                    match exchange {
                        Exchange::CreatePrimary => "CreatePrimary",
                        Exchange::Create => "Create",
                        Exchange::Load => "Load",
                        Exchange::LoadExternal => "LoadExternal",
                        Exchange::Hash => "Hash",
                    },
                );
                m.append(" response too short: ");
                push_decimal(&mut m, *len as u64);
                m.append(" bytes");
            },
            BridgeError::SealTooShort => {
                m.append("seal response too short");
            },
            BridgeError::Truncated => {
                m.append("response ends inside a field");
            },
            BridgeError::BadBlob(t) => {
                m.append(t.as_str());
            },
            BridgeError::UnsupportedBank(bank) => {
                m.append("unsupported bank: ");
                m.append(bank.as_str());
            },
            BridgeError::DigestLength { len, expected, bank } => {
                m.append("pcr_extend: digest is ");
                push_decimal(&mut m, *len as u64);
                m.append(" bytes, expected ");
                push_decimal(&mut m, *expected as u64);
                m.append(" for bank '");
                m.append(bank.as_str());
                m.append("'");
            },
            BridgeError::NvThroughStore => {
                m.append("NV reads go through the store");
            },
        }
        assert(m@ =~= self.text());
        m
    }
}

/// What the engine gives back for a command: bytes, or its own error.
pub type Reply = Result<Vec<u8>, String>;

/// The reply, unless the engine failed or the response code is not success.
/// A reply without room for a response code counts as a success.
pub open spec fn accepted(reply: Reply) -> Result<Vec<u8>, BridgeError> {
    match reply {
        Err(m) => Err(BridgeError::Engine(m)),
        Ok(r) => if r@.len() >= 10 && read32(r@, 6) != 0 {
            Err(BridgeError::Tpm(read32(r@, 6) as u32))
        } else {
            Ok(r)
        },
    }
}

/// Big-endian sixteen bits at `at`.
fn get16(b: &[u8], at: usize) -> (n: u16)
    requires
        at + 2 <= b@.len(),
    ensures
        n == read16(b@, at as int),
{
    b[at] as u16 * 256 + b[at + 1] as u16
}

/// Big-endian thirty-two bits at `at`.
fn get32(b: &[u8], at: usize) -> (n: u32)
    requires
        at + 4 <= b@.len(),
    ensures
        n == read32(b@, at as int),
{
    b[at] as u32 * 0x1000000 + b[at + 1] as u32 * 0x10000 + b[at + 2] as u32 * 0x100 + b[at
        + 3] as u32
}

/// Checks a reply for an engine error and for its response code.
pub fn accept(reply: Reply) -> (r: Result<Vec<u8>, BridgeError>)
    ensures
        r == accepted(reply),
{
    match reply {
        Err(m) => Err(BridgeError::Engine(m)),
        Ok(r) => {
            if r.len() >= 10 {
                let rc: u32 = get32(r.as_slice(), 6);
                if rc != 0 {
                    return Err(BridgeError::Tpm(rc));
                }
            }
            Ok(r)
        },
    }
}

/// The handle that a reply carries behind its header.
pub open spec fn handle_in(exchange: Exchange, reply: Reply) -> Result<u32, BridgeError> {
    match accepted(reply) {
        Err(e) => Err(e),
        Ok(r) => if r@.len() < 14 {
            Err(BridgeError::TooShort { exchange, len: r@.len() as usize })
        } else {
            Ok(read32(r@, 10) as u32)
        },
    }
}

/// Reads the handle behind the header of a reply.
pub fn handle_of(exchange: Exchange, reply: Reply) -> (h: Result<u32, BridgeError>)
    ensures
        h == handle_in(exchange, reply),
{
    match accept(reply) {
        Err(e) => Err(e),
        Ok(r) => if r.len() < 14 {
            Err(BridgeError::TooShort { exchange, len: r.len() })
        } else {
            Ok(get32(r.as_slice(), 10))
        },
    }
}

/// Where the public half begins in a creation reply.
pub open spec fn public_at(r: Seq<u8>) -> int {
    16 + read16(r, 14)
}

/// Both halves, with their length prefixes, lie inside the reply.
pub open spec fn halves_fit(r: Seq<u8>) -> bool {
    &&& public_at(r) + 2 <= r.len()
    &&& public_at(r) + 2 + read16(r, public_at(r)) <= r.len()
}

/// The private half with its length prefix.
pub open spec fn private_half(r: Seq<u8>) -> Seq<u8> {
    r.subrange(14, public_at(r))
}

/// The public half with its length prefix.
pub open spec fn public_half(r: Seq<u8>) -> Seq<u8> {
    r.subrange(public_at(r), public_at(r) + 2 + read16(r, public_at(r)))
}

/// Reads the public and the private half out of a creation reply of at least
/// sixteen bytes.
fn halves(r: &Vec<u8>) -> (h: Option<(Vec<u8>, Vec<u8>)>)
    requires
        r@.len() >= 16,
    ensures
        h is Some <==> halves_fit(r@),
        h matches Some((public, private)) ==> public@ == public_half(r@) && private@ == private_half(r@),
{
    let total: usize = r.len();
    let priv_size: usize = get16(r.as_slice(), 14) as usize;
    if total - 16 < priv_size {
        return None;
    }
    let at: usize = 16 + priv_size;
    if total - at < 2 {
        return None;
    }
    let pub_size: usize = get16(r.as_slice(), at) as usize;
    if total - at - 2 < pub_size {
        return None;
    }
    let private = slice_to_vec(slice_subrange(r.as_slice(), 14, at));
    let public = slice_to_vec(slice_subrange(r.as_slice(), at, at + 2 + pub_size));
    Some((public, private))
}

/// What a reply holds after a header of `header_size` bytes.
pub open spec fn response_data(resp: Seq<u8>, header_size: int) -> Seq<u8> {
    if resp.len() > header_size {
        resp.subrange(header_size, resp.len() as int)
    } else {
        Seq::empty()
    }
}

/// What a reply holds after its header.
pub fn extract_response_data(resp: &[u8], header_size: usize) -> (d: Vec<u8>)
    ensures
        d@ == response_data(resp@, header_size as int),
{
    if resp.len() > header_size {
        slice_to_vec(slice_subrange(resp, header_size, resp.len()))
    } else {
        Vec::new()
    }
}

// ---------------------------------------------------------------------------
// Key creation
// ---------------------------------------------------------------------------

/// What the key creation waits for.
pub enum CreateStage {
    /// The reply to the creation of the storage root key.
    Primary,
    /// The reply to the creation of the key itself.
    Create { srk: u32 },
    /// The reply to the flush of the storage root key.
    Flush { public: Vec<u8>, private: Vec<u8> },
}

/// What the key creation does next.
pub enum CreateNext {
    Send(CreateStage, Vec<u8>),
    Done(Result<Vec<u8>, BridgeError>),
}

/// The first command of every operation under the storage root key.
pub open spec fn primary_command() -> Seq<u8> {
    command(
        TPM_ST_SESSIONS,
        TPM2_CC_CREATE_PRIMARY,
        creation_body(TPM_RH_OWNER, empty_sensitive(), storage_root_area()),
    )
}

/// The command that flushes a handle.
pub open spec fn flush_command(handle: u32) -> Seq<u8> {
    command(TPM_ST_NO_SESSIONS, TPM2_CC_FLUSH_CONTEXT, be32(handle as int))
}

/// Begins a key creation.
pub fn create_key_start() -> (n: CreateNext)
    ensures
        n matches CreateNext::Send(CreateStage::Primary, c) && c@ == primary_command(),
{
    CreateNext::Send(CreateStage::Primary, build_create_primary_cmd())
}

/// The step of a key creation: which command or outcome follows on a reply.
pub open spec fn create_key_step(
    algorithm: Algorithm,
    stage: CreateStage,
    reply: Reply,
    n: CreateNext,
) -> bool {
    match stage {
        CreateStage::Primary => match handle_in(Exchange::CreatePrimary, reply) {
            Err(e) => n == CreateNext::Done(Err(e)),
            Ok(srk) => n matches CreateNext::Send(CreateStage::Create { srk: s }, c) && s == srk
                && c@ == command(
                TPM_ST_SESSIONS,
                TPM2_CC_CREATE,
                creation_body(srk, empty_sensitive(), signing_area(algorithm)),
            ),
        },
        CreateStage::Create { srk } => match accepted(reply) {
            Err(e) => n == CreateNext::Done(Err(e)),
            Ok(r) => if r@.len() < 16 {
                n == CreateNext::Done(
                    Err(
                        BridgeError::TooShort {
                            exchange: Exchange::Create,
                            len: r@.len() as usize,
                        },
                    ),
                )
            } else if !halves_fit(r@) {
                n == CreateNext::Done(Err(BridgeError::Truncated))
            } else {
                n matches CreateNext::Send(CreateStage::Flush { public, private }, c) && public@
                    == public_half(r@) && private@ == private_half(r@) && c@ == flush_command(srk)
            },
        },
        CreateStage::Flush { public, private } => match accepted(reply) {
            Err(e) => n == CreateNext::Done(Err(e)),
            Ok(_) => n matches CreateNext::Done(Ok(blob)) && blob@ == object_blob(
                public@,
                private@,
            ) && blob_field(blob@, "public"@) == Some(public@) && blob_field(
                blob@,
                "private"@,
            ) == Some(private@),
        },
    }
}

/// Goes on with a key creation.
pub fn create_key_next(algorithm: Algorithm, stage: CreateStage, reply: Reply) -> (n: CreateNext)
    ensures
        create_key_step(algorithm, stage, reply, n),
{
    match stage {
        CreateStage::Primary => match handle_of(Exchange::CreatePrimary, reply) {
            Err(e) => CreateNext::Done(Err(e)),
            Ok(srk) => CreateNext::Send(
                CreateStage::Create { srk },
                build_create_cmd(srk, algorithm),
            ),
        },
        CreateStage::Create { srk } => match accept(reply) {
            Err(e) => CreateNext::Done(Err(e)),
            Ok(r) => {
                if r.len() < 16 {
                    return CreateNext::Done(
                        Err(BridgeError::TooShort { exchange: Exchange::Create, len: r.len() }),
                    );
                }
                match halves(&r) {
                    None => CreateNext::Done(Err(BridgeError::Truncated)),
                    Some((public, private)) => CreateNext::Send(
                        CreateStage::Flush { public, private },
                        build_flush_context_cmd(srk),
                    ),
                }
            },
        },
        CreateStage::Flush { public, private } => match accept(reply) {
            Err(e) => CreateNext::Done(Err(e)),
            Ok(_) => CreateNext::Done(Ok(keep_object(public.as_slice(), private.as_slice()))),
        },
    }
}

// ---------------------------------------------------------------------------
// Signing
// ---------------------------------------------------------------------------

/// What a signing run waits for.
pub enum SignStage {
    /// The reply to the creation of the storage root key.
    Primary,
    /// The reply to the loading of the key.
    Load { srk: u32 },
    /// The reply to the hashing of the data.
    Hash { srk: u32, key: u32 },
    /// The reply to the signing command.
    Sign { srk: u32, key: u32 },
    /// The reply to the flush of the key.
    FlushKey { srk: u32, signature: Vec<u8> },
    /// The reply to the flush of the storage root key.
    FlushPrimary { outcome: Option<Vec<u8>> },
    /// The reply to the request for random bytes.
    Random,
}

/// What a signing run does next.
pub enum SignNext {
    Send(SignStage, Vec<u8>),
    Done(Result<Vec<u8>, BridgeError>),
}

/// The next command flushes the storage root key, with no signature at hand.
pub open spec fn gives_up(srk: u32, n: SignNext) -> bool {
    n matches SignNext::Send(SignStage::FlushPrimary { outcome: None }, c) && c@ == flush_command(
        srk,
    )
}

/// The signature structure in the reply to the signing command: exactly the
/// parameter area, without the session bytes behind it.
pub open spec fn signature_in(r: Seq<u8>) -> Seq<u8> {
    if r.len() >= 14 {
        let end = 14 + read32(r, 10);
        r.subrange(
            14,
            if end < r.len() {
                end
            } else {
                r.len() as int
            },
        )
    } else {
        r.subrange(10, r.len() as int)
    }
}

/// Begins a signing run.
pub fn sign_start() -> (n: SignNext)
    ensures
        n matches SignNext::Send(SignStage::Primary, c) && c@ == primary_command(),
{
    SignNext::Send(SignStage::Primary, build_create_primary_cmd())
}

/// The step of a signing run: which command or outcome follows on a reply.
/// Where the key cannot be used the run ends with random bytes from the TPM.
pub open spec fn sign_step(
    blob: Seq<u8>,
    data: Seq<u8>,
    stage: SignStage,
    reply: Reply,
    n: SignNext,
) -> bool {
    match stage {
        SignStage::Primary => match handle_in(Exchange::CreatePrimary, reply) {
            Err(e) => n == SignNext::Done(Err(e)),
            Ok(srk) => match (
                blob_field(blob, "public"@),
                blob_field(blob, "private"@),
            ) {
                (Some(public), Some(private)) => n matches SignNext::Send(
                    SignStage::Load { srk: s },
                    c,
                ) && s == srk && c@ == command(
                    TPM_ST_SESSIONS,
                    TPM2_CC_LOAD,
                    be32(srk as int) + password_auth(1) + private + public,
                ),
                _ => gives_up(srk, n),
            },
        },
        SignStage::Load { srk } => match handle_in(Exchange::Load, reply) {
            Err(_) => gives_up(srk, n),
            Ok(key) => n matches SignNext::Send(SignStage::Hash { srk: s, key: k }, c) && s == srk
                && k == key && c@ == command(
                TPM_ST_NO_SESSIONS,
                TPM2_CC_HASH,
                sized(data) + be16(TPM_ALG_SHA256 as int) + be32(TPM_RH_NULL as int),
            ),
        },
        SignStage::Hash { srk, key } => match accepted(reply) {
            Err(_) => gives_up(srk, n),
            Ok(r) => if r@.len() < 12 {
                gives_up(srk, n)
            } else if 12 + read16(r@, 10) > r@.len() {
                n == SignNext::Done(Err(BridgeError::Truncated))
            } else {
                let at = 12 + read16(r@, 10);
                n matches SignNext::Send(SignStage::Sign { srk: s, key: k }, c) && s == srk && k
                    == key && c@ == command(
                    TPM_ST_SESSIONS,
                    TPM2_CC_SIGN,
                    sign_body(key, r@.subrange(12, at), r@.subrange(at, r@.len() as int)),
                )
            },
        },
        SignStage::Sign { srk, key } => match accepted(reply) {
            Err(_) => gives_up(srk, n),
            Ok(r) => if r@.len() < 10 {
                n == SignNext::Done(Err(BridgeError::Truncated))
            } else {
                n matches SignNext::Send(SignStage::FlushKey { srk: s, signature }, c) && s == srk
                    && signature@ == signature_in(r@) && c@ == flush_command(key)
            },
        },
        SignStage::FlushKey { srk, signature } => n matches SignNext::Send(
            SignStage::FlushPrimary { outcome: Some(sig) },
            c,
        ) && sig == signature && c@ == flush_command(srk),
        SignStage::FlushPrimary { outcome } => match outcome {
            Some(sig) => n == SignNext::Done(Ok(sig)),
            None => n matches SignNext::Send(SignStage::Random, c) && c@ == command(
                TPM_ST_NO_SESSIONS,
                TPM2_CC_GET_RANDOM,
                be16(64),
            ),
        },
        SignStage::Random => match accepted(reply) {
            Err(e) => n == SignNext::Done(Err(e)),
            Ok(r) => n matches SignNext::Done(Ok(sig)) && sig@ == response_data(r@, 12),
        },
    }
}

fn give_up(srk: u32) -> (n: SignNext)
    ensures
        gives_up(srk, n),
{
    SignNext::Send(SignStage::FlushPrimary { outcome: None }, build_flush_context_cmd(srk))
}

/// Goes on with a signing run.
pub fn sign_next(blob: &[u8], data: &[u8], stage: SignStage, reply: Reply) -> (n: SignNext)
    ensures
        sign_step(blob@, data@, stage, reply, n),
{
    match stage {
        SignStage::Primary => match handle_of(Exchange::CreatePrimary, reply) {
            Err(e) => SignNext::Done(Err(e)),
            Ok(srk) => {
                let public = field_bytes(blob, "public");
                let private = field_bytes(blob, "private");
                match (public, private) {
                    (Ok(p), Ok(q)) => SignNext::Send(
                        SignStage::Load { srk },
                        build_load_cmd(srk, p.as_slice(), q.as_slice()),
                    ),
                    _ => give_up(srk),
                }
            },
        },
        SignStage::Load { srk } => match handle_of(Exchange::Load, reply) {
            Err(_) => give_up(srk),
            Ok(key) => SignNext::Send(SignStage::Hash { srk, key }, build_hash_cmd(data)),
        },
        SignStage::Hash { srk, key } => match accept(reply) {
            Err(_) => give_up(srk),
            Ok(r) => {
                let total: usize = r.len();
                if total < 12 {
                    return give_up(srk);
                }
                let size: usize = get16(r.as_slice(), 10) as usize;
                if total - 12 < size {
                    return SignNext::Done(Err(BridgeError::Truncated));
                }
                let at: usize = 12 + size;
                let c = build_sign_cmd_with_ticket(
                    key,
                    slice_subrange(r.as_slice(), 12, at),
                    slice_subrange(r.as_slice(), at, total),
                );
                SignNext::Send(SignStage::Sign { srk, key }, c)
            },
        },
        SignStage::Sign { srk, key } => match accept(reply) {
            Err(_) => give_up(srk),
            Ok(r) => {
                let total: usize = r.len();
                if total < 10 {
                    return SignNext::Done(Err(BridgeError::Truncated));
                }
                let signature = if total >= 14 {
                    let size: u32 = get32(r.as_slice(), 10);
                    let end: usize = if ((total - 14) as u64) < size as u64 {
                        total
                    } else {
                        14 + size as usize
                    };
                    slice_to_vec(slice_subrange(r.as_slice(), 14, end))
                } else {
                    slice_to_vec(slice_subrange(r.as_slice(), 10, total))
                };
                SignNext::Send(SignStage::FlushKey { srk, signature }, build_flush_context_cmd(key))
            },
        },
        SignStage::FlushKey { srk, signature } => SignNext::Send(
            SignStage::FlushPrimary { outcome: Some(signature) },
            build_flush_context_cmd(srk),
        ),
        SignStage::FlushPrimary { outcome } => match outcome {
            Some(sig) => SignNext::Done(Ok(sig)),
            None => SignNext::Send(SignStage::Random, build_get_random_cmd(64)),
        },
        SignStage::Random => match accept(reply) {
            Err(e) => SignNext::Done(Err(e)),
            Ok(r) => SignNext::Done(Ok(extract_response_data(r.as_slice(), 12))),
        },
    }
}

/// The storage root key that a stage still has to flush.
pub open spec fn sign_holds(stage: SignStage) -> Option<u32> {
    match stage {
        SignStage::Primary => None,
        SignStage::Load { srk } => Some(srk),
        SignStage::Hash { srk, .. } => Some(srk),
        SignStage::Sign { srk, .. } => Some(srk),
        SignStage::FlushKey { srk, .. } => Some(srk),
        SignStage::FlushPrimary { .. } => None,
        SignStage::Random => None,
    }
}

/// Whatever the TPM answers, a signing run that holds the storage root key
/// either keeps holding that key or flushes it; it ends at once only where a
/// reply contradicts its own lengths.
pub proof fn signing_flushes_the_root_key(
    blob: Seq<u8>,
    data: Seq<u8>,
    stage: SignStage,
    reply: Reply,
    n: SignNext,
)
    requires
        sign_step(blob, data, stage, reply, n),
        sign_holds(stage) is Some,
    ensures
        match n {
            SignNext::Send(next, c) => sign_holds(next) == sign_holds(stage) || (
            next is FlushPrimary && c@ == flush_command(sign_holds(stage)->0)),
            SignNext::Done(r) => r == Err::<Vec<u8>, BridgeError>(BridgeError::Truncated),
        },
{
}

// ---------------------------------------------------------------------------
// Verifying a signature
// ---------------------------------------------------------------------------

/// What a signature check waits for.
pub enum VerifyStage {
    /// The reply to the loading of the public key.
    LoadExternal,
    /// The reply to the check itself.
    Verify { key: u32 },
    /// The reply to the flush of the public key.
    Flush { valid: bool },
}

/// What a signature check does next.
pub enum VerifyNext {
    Send(VerifyStage, Vec<u8>),
    Done(Result<bool, BridgeError>),
}

/// Begins a signature check with the public half of a kept key.
pub fn verify_signature_start(blob: &[u8]) -> (n: VerifyNext)
    ensures
        match json_field_bytes(blob@, "public"@) {
            Err(e) => n matches VerifyNext::Done(Err(BridgeError::BadBlob(m))) && m@ == e.1,
            Ok(public) => n matches VerifyNext::Send(VerifyStage::LoadExternal, c) && c@
                == command(
                TPM_ST_NO_SESSIONS,
                TPM2_CC_LOAD_EXTERNAL,
                be16(0) + public + be32(TPM_RH_NULL as int),
            ),
        },
{
    match field_bytes(blob, "public") {
        Err(e) => VerifyNext::Done(Err(BridgeError::BadBlob(e.1))),
        Ok(public) => VerifyNext::Send(
            VerifyStage::LoadExternal,
            build_load_external_cmd(public.as_slice()),
        ),
    }
}

/// The step of a signature check over the digest of the data.
pub open spec fn verify_signature_step(
    digest: Seq<u8>,
    signature: Seq<u8>,
    stage: VerifyStage,
    reply: Reply,
    n: VerifyNext,
) -> bool {
    match stage {
        VerifyStage::LoadExternal => match handle_in(Exchange::LoadExternal, reply) {
            Err(e) => n == VerifyNext::Done(Err(e)),
            Ok(key) => n matches VerifyNext::Send(VerifyStage::Verify { key: k }, c) && k == key
                && c@ == command(
                TPM_ST_NO_SESSIONS,
                TPM2_CC_VERIFY_SIGNATURE,
                be32(key as int) + sized(digest) + signature,
            ),
        },
        VerifyStage::Verify { key } => match reply {
            Err(m) => n == VerifyNext::Done(Err(BridgeError::Engine(m))),
            Ok(r) => n matches VerifyNext::Send(VerifyStage::Flush { valid }, c) && valid == (
            r@.len() >= 10 && read32(r@, 6) == 0) && c@ == flush_command(key),
        },
        VerifyStage::Flush { valid } => n == VerifyNext::Done(Ok(valid)),
    }
}

/// Goes on with a signature check. Any response code but success means that
/// the signature is not valid.
pub fn verify_signature_next(
    digest: &[u8],
    signature: &[u8],
    stage: VerifyStage,
    reply: Reply,
) -> (n: VerifyNext)
    ensures
        verify_signature_step(digest@, signature@, stage, reply, n),
{
    match stage {
        VerifyStage::LoadExternal => match handle_of(Exchange::LoadExternal, reply) {
            Err(e) => VerifyNext::Done(Err(e)),
            Ok(key) => VerifyNext::Send(
                VerifyStage::Verify { key },
                build_verify_signature_cmd(key, digest, signature),
            ),
        },
        VerifyStage::Verify { key } => match reply {
            Err(m) => VerifyNext::Done(Err(BridgeError::Engine(m))),
            Ok(r) => {
                let valid = if r.len() >= 10 {
                    get32(r.as_slice(), 6) == 0
                } else {
                    false
                };
                VerifyNext::Send(VerifyStage::Flush { valid }, build_flush_context_cmd(key))
            },
        },
        VerifyStage::Flush { valid } => VerifyNext::Done(Ok(valid)),
    }
}

// ---------------------------------------------------------------------------
// Sealing
// ---------------------------------------------------------------------------

/// What a sealing run waits for.
pub enum SealStage {
    /// The reply to the creation of the storage root key.
    Primary,
    /// The reply to the creation of the sealed object.
    Create { srk: u32 },
    /// The reply to the flush after a reply that was too short.
    FlushShort,
    /// The reply to the flush of the storage root key.
    Flush { public: Vec<u8>, private: Vec<u8> },
}

/// What a sealing run does next.
pub enum SealNext {
    Send(SealStage, Vec<u8>),
    Done(Result<SealedData, BridgeError>),
}

/// Begins a sealing run.
pub fn seal_start() -> (n: SealNext)
    ensures
        n matches SealNext::Send(SealStage::Primary, c) && c@ == primary_command(),
{
    SealNext::Send(SealStage::Primary, build_create_primary_cmd())
}

/// The step of a sealing run.
pub open spec fn seal_step(
    data: Seq<u8>,
    policy_digest: Option<Vec<u8>>,
    stage: SealStage,
    reply: Reply,
    n: SealNext,
) -> bool {
    match stage {
        SealStage::Primary => match handle_in(Exchange::CreatePrimary, reply) {
            Err(e) => n == SealNext::Done(Err(e)),
            Ok(srk) => n matches SealNext::Send(SealStage::Create { srk: s }, c) && s == srk && c@
                == command(
                TPM_ST_SESSIONS,
                TPM2_CC_CREATE,
                creation_body(srk, data_sensitive(data), sealed_area()),
            ),
        },
        SealStage::Create { srk } => match accepted(reply) {
            Err(e) => n == SealNext::Done(Err(e)),
            Ok(r) => if r@.len() < 16 {
                n matches SealNext::Send(SealStage::FlushShort, c) && c@ == flush_command(srk)
            } else if !halves_fit(r@) {
                n == SealNext::Done(Err(BridgeError::Truncated))
            } else {
                n matches SealNext::Send(SealStage::Flush { public, private }, c) && public@
                    == public_half(r@) && private@ == private_half(r@) && c@ == flush_command(srk)
            },
        },
        SealStage::FlushShort => match accepted(reply) {
            Err(e) => n == SealNext::Done(Err(e)),
            Ok(_) => n == SealNext::Done(Err(BridgeError::SealTooShort)),
        },
        SealStage::Flush { public, private } => match accepted(reply) {
            Err(e) => n == SealNext::Done(Err(e)),
            Ok(_) => n matches SealNext::Done(Ok(sealed)) && sealed.blob@ == object_blob(
                public@,
                private@,
            ) && blob_field(sealed.blob@, "public"@) == Some(public@) && blob_field(
                sealed.blob@,
                "private"@,
            ) == Some(private@) && sealed.policy_digest == policy_digest,
        },
    }
}

/// Goes on with a sealing run.
pub fn seal_next(
    data: &[u8],
    policy_digest: Option<Vec<u8>>,
    stage: SealStage,
    reply: Reply,
) -> (n: SealNext)
    ensures
        seal_step(data@, policy_digest, stage, reply, n),
{
    match stage {
        SealStage::Primary => match handle_of(Exchange::CreatePrimary, reply) {
            Err(e) => SealNext::Done(Err(e)),
            Ok(srk) => SealNext::Send(SealStage::Create { srk }, build_create_seal_cmd(srk, data)),
        },
        SealStage::Create { srk } => match accept(reply) {
            Err(e) => SealNext::Done(Err(e)),
            Ok(r) => {
                if r.len() < 16 {
                    return SealNext::Send(SealStage::FlushShort, build_flush_context_cmd(srk));
                }
                match halves(&r) {
                    None => SealNext::Done(Err(BridgeError::Truncated)),
                    Some((public, private)) => SealNext::Send(
                        SealStage::Flush { public, private },
                        build_flush_context_cmd(srk),
                    ),
                }
            },
        },
        SealStage::FlushShort => match accept(reply) {
            Err(e) => SealNext::Done(Err(e)),
            Ok(_) => SealNext::Done(Err(BridgeError::SealTooShort)),
        },
        SealStage::Flush { public, private } => match accept(reply) {
            Err(e) => SealNext::Done(Err(e)),
            Ok(_) => {
                let blob = keep_object(public.as_slice(), private.as_slice());
                SealNext::Done(Ok(SealedData { blob, policy_digest }))
            },
        },
    }
}

/// What an unsealing run waits for.
pub enum UnsealStage {
    /// The reply to the creation of the storage root key.
    Primary,
    /// The reply to the loading of the sealed object.
    Load { srk: u32 },
    /// The reply to the unsealing command.
    Unseal { srk: u32, object: u32 },
    /// The reply to the flush of the sealed object.
    FlushObject { srk: u32, reply: Vec<u8> },
    /// The reply to the flush of the storage root key.
    FlushPrimary { data: Option<Vec<u8>> },
}

/// What an unsealing run does next.
pub enum UnsealNext {
    Send(UnsealStage, Vec<u8>),
    Done(Result<Vec<u8>, BridgeError>),
}

/// The next command flushes the storage root key, with no data at hand.
pub open spec fn unseal_gives_up(srk: u32, n: UnsealNext) -> bool {
    n matches UnsealNext::Send(UnsealStage::FlushPrimary { data: None }, c) && c@ == flush_command(
        srk,
    )
}

/// The data in the reply to the unsealing command; none where a length runs
/// past the end.
pub open spec fn unsealed_in(r: Seq<u8>) -> Option<Seq<u8>> {
    if r.len() <= 16 {
        Some(Seq::empty())
    } else if 16 + read16(r, 14) > r.len() {
        None
    } else {
        Some(r.subrange(16, 16 + read16(r, 14)))
    }
}

/// Begins an unsealing run.
pub fn unseal_start() -> (n: UnsealNext)
    ensures
        n matches UnsealNext::Send(UnsealStage::Primary, c) && c@ == primary_command(),
{
    UnsealNext::Send(UnsealStage::Primary, build_create_primary_cmd())
}

/// The step of an unsealing run. Where the object cannot be used, the blob
/// itself is the outcome.
pub open spec fn unseal_step(
    blob: Seq<u8>,
    stage: UnsealStage,
    reply: Reply,
    n: UnsealNext,
) -> bool {
    match stage {
        UnsealStage::Primary => match handle_in(Exchange::CreatePrimary, reply) {
            Err(e) => n == UnsealNext::Done(Err(e)),
            Ok(srk) => match (
                blob_field(blob, "public"@),
                blob_field(blob, "private"@),
            ) {
                (Some(public), Some(private)) => n matches UnsealNext::Send(
                    UnsealStage::Load { srk: s },
                    c,
                ) && s == srk && c@ == command(
                    TPM_ST_SESSIONS,
                    TPM2_CC_LOAD,
                    be32(srk as int) + password_auth(1) + private + public,
                ),
                _ => unseal_gives_up(srk, n),
            },
        },
        UnsealStage::Load { srk } => match handle_in(Exchange::Load, reply) {
            Err(_) => unseal_gives_up(srk, n),
            Ok(object) => n matches UnsealNext::Send(UnsealStage::Unseal { srk: s, object: o }, c)
                && s == srk && o == object && c@ == command(
                TPM_ST_SESSIONS,
                TPM2_CC_UNSEAL,
                be32(object as int) + password_auth(1),
            ),
        },
        UnsealStage::Unseal { srk, object } => match accepted(reply) {
            Err(_) => unseal_gives_up(srk, n),
            Ok(r) => n matches UnsealNext::Send(UnsealStage::FlushObject { srk: s, reply: kept }, c)
                && s == srk && kept == r && c@ == flush_command(object),
        },
        UnsealStage::FlushObject { srk, reply: r } => match unsealed_in(r@) {
            None => n == UnsealNext::Done(Err(BridgeError::Truncated)),
            Some(data) => n matches UnsealNext::Send(
                UnsealStage::FlushPrimary { data: Some(d) },
                c,
            ) && d@ == data && c@ == flush_command(srk),
        },
        UnsealStage::FlushPrimary { data } => match data {
            Some(d) => n == UnsealNext::Done(Ok(d)),
            None => n matches UnsealNext::Done(Ok(d)) && d@ == blob,
        },
    }
}

/// Goes on with an unsealing run.
pub fn unseal_next(blob: &[u8], stage: UnsealStage, reply: Reply) -> (n: UnsealNext)
    ensures
        unseal_step(blob@, stage, reply, n),
{
    match stage {
        UnsealStage::Primary => match handle_of(Exchange::CreatePrimary, reply) {
            Err(e) => UnsealNext::Done(Err(e)),
            Ok(srk) => {
                let public = field_bytes(blob, "public");
                let private = field_bytes(blob, "private");
                match (public, private) {
                    (Ok(p), Ok(q)) => UnsealNext::Send(
                        UnsealStage::Load { srk },
                        build_load_cmd(srk, p.as_slice(), q.as_slice()),
                    ),
                    _ => UnsealNext::Send(
                        UnsealStage::FlushPrimary { data: None },
                        build_flush_context_cmd(srk),
                    ),
                }
            },
        },
        UnsealStage::Load { srk } => match handle_of(Exchange::Load, reply) {
            Err(_) => UnsealNext::Send(
                UnsealStage::FlushPrimary { data: None },
                build_flush_context_cmd(srk),
            ),
            Ok(object) => UnsealNext::Send(
                UnsealStage::Unseal { srk, object },
                build_unseal_cmd(object),
            ),
        },
        UnsealStage::Unseal { srk, object } => match accept(reply) {
            Err(_) => UnsealNext::Send(
                UnsealStage::FlushPrimary { data: None },
                build_flush_context_cmd(srk),
            ),
            Ok(r) => UnsealNext::Send(
                UnsealStage::FlushObject { srk, reply: r },
                build_flush_context_cmd(object),
            ),
        },
        UnsealStage::FlushObject { srk, reply: r } => {
            let total: usize = r.len();
            let data = if total > 16 {
                let size: usize = get16(r.as_slice(), 14) as usize;
                if total - 16 < size {
                    return UnsealNext::Done(Err(BridgeError::Truncated));
                }
                slice_to_vec(slice_subrange(r.as_slice(), 16, 16 + size))
            } else {
                Vec::new()
            };
            UnsealNext::Send(
                UnsealStage::FlushPrimary { data: Some(data) },
                build_flush_context_cmd(srk),
            )
        },
        UnsealStage::FlushPrimary { data } => match data {
            Some(d) => UnsealNext::Done(Ok(d)),
            None => UnsealNext::Done(Ok(slice_to_vec(blob))),
        },
    }
}

// ---------------------------------------------------------------------------
// Registers
// ---------------------------------------------------------------------------

/// The hash algorithm and the digest size of a bank.
pub open spec fn bank_parameters(bank: Seq<char>) -> Option<(u16, nat)> {
    if bank == "sha256"@ {
        Some((TPM_ALG_SHA256, 32))
    } else if bank == "sha384"@ {
        Some((TPM_ALG_SHA384, 48))
    } else if bank == "sha1"@ {
        Some((TPM_ALG_SHA1, 20))
    } else {
        None
    }
}

/// Looks a bank up.
fn bank(name: &str) -> (r: Option<(u16, usize)>)
    ensures
        match r {
            Some((alg, size)) => bank_parameters(name@) == Some((alg, size as nat)) && size <= 48,
            None => bank_parameters(name@) is None,
        },
{
    if same(name, "sha256") {
        Some((TPM_ALG_SHA256, 32))
    } else if same(name, "sha384") {
        Some((TPM_ALG_SHA384, 48))
    } else if same(name, "sha1") {
        Some((TPM_ALG_SHA1, 20))
    } else {
        None
    }
}

/// The command that extends a register, or why the bank and the digest do not go together.
pub fn pcr_extend(bank_name: String, index: u32, digest: &[u8]) -> (r: Result<Vec<u8>, BridgeError>)
    ensures
        match bank_parameters(bank_name@) {
            None => r == Err::<Vec<u8>, BridgeError>(BridgeError::UnsupportedBank(bank_name)),
            Some((alg, size)) => if digest@.len() != size {
                r == Err::<Vec<u8>, BridgeError>(
                    BridgeError::DigestLength {
                        len: digest@.len() as usize,
                        expected: size as usize,
                        bank: bank_name,
                    },
                )
            } else {
                r matches Ok(c) && c@ == command(
                    TPM_ST_SESSIONS,
                    TPM2_CC_PCR_EXTEND,
                    pcr_extend_body(alg, index, digest@),
                )
            },
        },
{
    match bank(bank_name.as_str()) {
        None => Err(BridgeError::UnsupportedBank(bank_name)),
        Some((alg, expected)) => {
            if digest.len() != expected {
                Err(BridgeError::DigestLength { len: digest.len(), expected, bank: bank_name })
            } else {
                Ok(build_pcr_extend_cmd(alg, index, digest))
            }
        },
    }
}

/// The command that reads one register of a bank.
pub fn pcr_read_command(bank_name: String, index: u32) -> (r: Result<Vec<u8>, BridgeError>)
    ensures
        match bank_parameters(bank_name@) {
            None => r == Err::<Vec<u8>, BridgeError>(BridgeError::UnsupportedBank(bank_name)),
            Some((alg, _)) => r matches Ok(c) && c@ == command(
                TPM_ST_NO_SESSIONS,
                TPM2_CC_PCR_READ,
                pcr_read_body(alg, index),
            ),
        },
{
    match bank(bank_name.as_str()) {
        None => Err(BridgeError::UnsupportedBank(bank_name)),
        Some((alg, _)) => Ok(build_pcr_read_cmd(alg, index)),
    }
}

/// The digest at the end of a read reply, or zeros where the reply has no room for one.
pub open spec fn digest_in(r: Seq<u8>, size: nat) -> Seq<u8> {
    if r.len() > size + 2 {
        r.subrange(r.len() - size, r.len() as int)
    } else {
        Seq::new(size, |i: int| 0u8)
    }
}

/// The value of a register, out of the reply to its read.
pub fn pcr_read_value(bank_name: String, index: u32, reply: Reply) -> (r: Result<
    PcrValue,
    BridgeError,
>)
    ensures
        match bank_parameters(bank_name@) {
            None => r == Err::<PcrValue, BridgeError>(BridgeError::UnsupportedBank(bank_name)),
            Some((_, size)) => match accepted(reply) {
                Err(e) => r == Err::<PcrValue, BridgeError>(e),
                Ok(bytes) => r matches Ok(v) && v.bank == bank_name && v.index == index
                    && v.digest@ == digest_in(bytes@, size),
            },
        },
{
    match bank(bank_name.as_str()) {
        None => Err(BridgeError::UnsupportedBank(bank_name)),
        Some((_, size)) => match accept(reply) {
            Err(e) => Err(e),
            Ok(bytes) => {
                let total: usize = bytes.len();
                let digest = if total > size + 2 {
                    slice_to_vec(slice_subrange(bytes.as_slice(), total - size, total))
                } else {
                    let mut zeros: Vec<u8> = Vec::new();
                    let mut i: usize = 0;
                    while i < size
                        invariant
                            i <= size,
                            zeros@ == Seq::new(i as nat, |k: int| 0u8),
                        decreases size - i,
                    {
                        zeros.push(0);
                        i += 1;
                        assert(zeros@ =~= Seq::new(i as nat, |k: int| 0u8));
                    }
                    zeros
                };
                Ok(PcrValue { bank: bank_name, index, digest })
            },
        },
    }
}

// ---------------------------------------------------------------------------
// Quotes
// ---------------------------------------------------------------------------

/// The running state of the mixing function after some bytes.
pub open spec fn mix_state(data: Seq<u8>) -> u64
    decreases data.len(),
{
    if data.len() == 0 {
        0xcbf29ce484222325
    } else {
        (mix_state(data.drop_last()) ^ (data.last() as u64)).wrapping_mul(0x100000001b3)
    }
}

/// Block `i` of the mixed digest, as an integer.
pub open spec fn mix_block(state: u64, i: int) -> u64 {
    state.wrapping_add(i as u64).wrapping_mul(0x517cc1b727220a95)
}

/// A sixty-four-bit integer, little-endian.
pub open spec fn le64(n: u64) -> Seq<u8> {
    seq![
        (n % 256) as u8,
        ((n / 0x100) % 256) as u8,
        ((n / 0x10000) % 256) as u8,
        ((n / 0x1000000) % 256) as u8,
        ((n / 0x100000000) % 256) as u8,
        ((n / 0x10000000000) % 256) as u8,
        ((n / 0x1000000000000) % 256) as u8,
        ((n / 0x100000000000000) % 256) as u8,
    ]
}

/// The thirty-two bytes that stand for quoted data.
pub open spec fn mixed_digest(data: Seq<u8>) -> Seq<u8> {
    let s = mix_state(data);
    le64(mix_block(s, 0)) + le64(mix_block(s, 1)) + le64(mix_block(s, 2)) + le64(mix_block(s, 3))
}

fn put_le64(out: &mut Vec<u8>, n: u64)
    ensures
        final(out)@ == old(out)@ + le64(n),
{
    let ghost start = out@;
    out.push((n % 256) as u8);
    out.push(((n / 0x100) % 256) as u8);
    out.push(((n / 0x10000) % 256) as u8);
    out.push(((n / 0x1000000) % 256) as u8);
    out.push(((n / 0x100000000) % 256) as u8);
    out.push(((n / 0x10000000000) % 256) as u8);
    out.push(((n / 0x1000000000000) % 256) as u8);
    out.push(((n / 0x100000000000000) % 256) as u8);
    assert(out@ =~= start + le64(n));
}

/// The thirty-two bytes that stand for quoted data.
pub fn sha256_digest(data: &[u8]) -> (h: Vec<u8>)
    ensures
        h@ == mixed_digest(data@),
        h@.len() == 32,
{
    let mut state: u64 = 0xcbf29ce484222325;
    let mut i: usize = 0;
    assert(data@.take(0) =~= Seq::<u8>::empty());
    while i < data.len()
        invariant
            i <= data@.len(),
            state == mix_state(data@.take(i as int)),
        decreases data@.len() - i,
    {
        assert(data@.take(i + 1).drop_last() =~= data@.take(i as int));
        state = (state ^ (data[i] as u64)).wrapping_mul(0x100000001b3);
        i += 1;
    }
    assert(data@.take(i as int) =~= data@);
    let mut h: Vec<u8> = Vec::new();
    put_le64(&mut h, state.wrapping_add(0).wrapping_mul(0x517cc1b727220a95));
    put_le64(&mut h, state.wrapping_add(1).wrapping_mul(0x517cc1b727220a95));
    put_le64(&mut h, state.wrapping_add(2).wrapping_mul(0x517cc1b727220a95));
    put_le64(&mut h, state.wrapping_add(3).wrapping_mul(0x517cc1b727220a95));
    assert(h@ =~= mixed_digest(data@));
    h
}

/// The digests of the first `n` values, one after the other.
pub open spec fn digests(values: Seq<PcrValue>, n: nat) -> Seq<u8>
    decreases n,
{
    if n == 0 {
        Seq::empty()
    } else {
        digests(values, (n - 1) as nat) + values[n - 1].digest@
    }
}

/// What a quote attests to: every digest, then the nonce.
pub open spec fn quoted(values: Seq<PcrValue>, nonce: Seq<u8>) -> Seq<u8> {
    digests(values, values.len()) + nonce
}

/// What a quote attests to, mixed down to the bytes that are signed.
pub fn quote_digest(values: &Vec<PcrValue>, nonce: &[u8]) -> (h: Vec<u8>)
    ensures
        h@ == mixed_digest(quoted(values@, nonce@)),
{
    let mut all: Vec<u8> = Vec::new();
    let mut i: usize = 0;
    while i < values.len()
        invariant
            i <= values@.len(),
            all@ == digests(values@, i as nat),
        decreases values@.len() - i,
    {
        put_bytes(&mut all, values[i].digest.as_slice());
        i += 1;
    }
    put_bytes(&mut all, nonce);
    sha256_digest(all.as_slice())
}

/// Puts a quote together, once the digest has been signed.
pub fn quote(
    values: Vec<PcrValue>,
    nonce: &[u8],
    signature: Vec<u8>,
    ak_blob: &[u8],
) -> (q: QuoteData)
    ensures
        q.attestation@ == mixed_digest(quoted(values@, nonce@)),
        q.signature == signature,
        q.pcr_values == values,
        q.nonce@ == nonce@,
        q.ak_public@ == ak_blob@,
{
    QuoteData {
        attestation: quote_digest(&values, nonce),
        signature,
        pcr_values: values,
        nonce: slice_to_vec(nonce),
        ak_public: slice_to_vec(ak_blob),
    }
}

/// One register of a quote beside the current value.
pub open spec fn register_match(q: PcrValue, c: PcrValue, m: PcrMatchResult) -> bool {
    &&& m.index == q.index
    &&& m.bank == q.bank
    &&& m.expected@ == hex_text(q.digest@)
    &&& m.actual@ == hex_text(c.digest@)
    &&& m.matches == (q.digest@ == c.digest@)
}

/// How many registers are compared.
pub open spec fn compared(a: Seq<PcrValue>, b: Seq<PcrValue>) -> int {
    if a.len() < b.len() {
        a.len() as int
    } else {
        b.len() as int
    }
}

/// The attested bytes are those of the quoted values under `nonce`.
pub open spec fn attests(q: QuoteData, nonce: Seq<u8>) -> bool {
    q.attestation@ == mixed_digest(quoted(q.pcr_values@, nonce))
}

/// Every compared register holds what was quoted.
pub open spec fn registers_agree(a: Seq<PcrValue>, b: Seq<PcrValue>) -> bool {
    forall|i: int| 0 <= i < compared(a, b) ==> #[trigger] a[i].digest@ == b[i].digest@
}

/// Judges a quote against a nonce and the registers' current values.
pub fn verify_quote(q: &QuoteData, nonce: &[u8], current: &Vec<PcrValue>) -> (v: QuoteVerification)
    ensures
        v.signature_valid == attests(*q, nonce@),
        v.nonce_matches == (q.nonce@ == nonce@),
        v.pcr_matches@.len() == compared(q.pcr_values@, current@),
        forall|i: int|
            0 <= i < v.pcr_matches@.len() ==> register_match(
                q.pcr_values@[i],
                current@[i],
                #[trigger] v.pcr_matches@[i],
            ),
        v.verified == (attests(*q, nonce@) && q.nonce@ == nonce@ && registers_agree(
            q.pcr_values@,
            current@,
        )),
{
    let nonce_matches = bytes_equal(q.nonce.as_slice(), nonce);
    let expected = quote_digest(&q.pcr_values, nonce);
    let signature_valid = bytes_equal(q.attestation.as_slice(), expected.as_slice());
    let mut pcr_matches: Vec<PcrMatchResult> = Vec::new();
    let mut all_match = true;
    let mut i: usize = 0;
    while i < q.pcr_values.len() && i < current.len()
        invariant
            i <= q.pcr_values@.len(),
            i <= current@.len(),
            pcr_matches@.len() == i,
            forall|k: int|
                0 <= k < i ==> register_match(
                    q.pcr_values@[k],
                    current@[k],
                    #[trigger] pcr_matches@[k],
                ),
            all_match == (forall|k: int|
                0 <= k < i ==> #[trigger] q.pcr_values@[k].digest@ == current@[k].digest@),
        decreases q.pcr_values@.len() - i,
    {
        let quoted_value = &q.pcr_values[i];
        let current_value = &current[i];
        let matches = bytes_equal(quoted_value.digest.as_slice(), current_value.digest.as_slice());
        pcr_matches.push(
            PcrMatchResult {
                index: quoted_value.index,
                bank: quoted_value.bank.clone(),
                expected: hex_encode(quoted_value.digest.as_slice()),
                actual: hex_encode(current_value.digest.as_slice()),
                matches,
            },
        );
        all_match = all_match && matches;
        i += 1;
    }
    QuoteVerification {
        signature_valid,
        nonce_matches,
        pcr_matches,
        verified: signature_valid && nonce_matches && all_match,
    }
}

/// A quote put together over some values and a nonce passes the check of its
/// attested bytes for that nonce.
pub proof fn honest_quote_attests(q: QuoteData, values: Vec<PcrValue>, nonce: Seq<u8>)
    requires
        q.attestation@ == mixed_digest(quoted(values@, nonce)),
        q.pcr_values == values,
    ensures
        attests(q, nonce),
        registers_agree(q.pcr_values@, values@),
{
}

/// Whether two byte strings are equal.
pub fn bytes_equal(a: &[u8], b: &[u8]) -> (r: bool)
    ensures
        r == (a@ == b@),
{
    if a.len() != b.len() {
        return false;
    }
    let mut i: usize = 0;
    while i < a.len()
        invariant
            i <= a@.len() == b@.len(),
            forall|k: int| 0 <= k < i ==> a@[k] == b@[k],
        decreases a@.len() - i,
    {
        if a[i] != b[i] {
            return false;
        }
        i += 1;
    }
    assert(a@ =~= b@);
    true
}

// ---------------------------------------------------------------------------
// The rest of the backend
// ---------------------------------------------------------------------------

/// What the virtual TPM says of itself.
pub fn status(initialized: bool) -> (s: BackendStatus)
    ensures
        s.backend_type@ == "vtpm"@,
        s.manufacturer@ == "libtpms"@,
        s.firmware_version@ == "2.0"@,
        s.available == initialized,
{
    BackendStatus {
        backend_type: "vtpm".to_owned(),
        manufacturer: "libtpms".to_owned(),
        firmware_version: "2.0".to_owned(),
        available: initialized,
    }
}

/// NV data is never read from the virtual TPM.
pub fn nv_read() -> (r: Result<Vec<u8>, BridgeError>)
    ensures
        r == Err::<Vec<u8>, BridgeError>(BridgeError::NvThroughStore),
{
    Err(BridgeError::NvThroughStore)
}

} // verus!
