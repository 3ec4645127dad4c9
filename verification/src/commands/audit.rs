//! The secure log: streams, entries, segments, checkpoints and witnesses.
use vstd::prelude::*;
use vstd::string::*;

use crate::failure::Failure;
use crate::hex::{bytes_to_hex, hex_bytes, hex_encode, hex_text, hex_to_bytes, HexError};
use crate::json::{
    json_object, number_field, number_view, object2, object3, opt_field, opt_view, FieldView,
    JsonField, JsonLeaf, LeafView,
};
use crate::model::SealedData;
use crate::text::{
    chars_of, decimal, field, in_order, opt_bytes, opt_str, opt_text, pad_right, push_choice,
    push_decimal, push_field, push_number, push_padded_right, same, signed_decimal,
    signed_decimal_text, text_le, text_of, yes_no,
};
use vstd::utf8::*;

pub mod receipts;
pub mod streams;

verus! {

// ---------------------------------------------------------------------------
// The key file
// ---------------------------------------------------------------------------

/// The last component of a file path, as `std::path::Path::file_name` gives it.
pub uninterp spec fn path_file_name(path: Seq<char>) -> Option<Seq<char>>;

/// A file path with another last component, as `std::path::Path::with_file_name` gives it.
pub uninterp spec fn path_with_file_name(path: Seq<char>, name: Seq<char>) -> Seq<char>;

/// `std::path::Path::file_name`: the last component, a function of the path's text
/// under the path rules of the platform that the crate is built for.
#[verifier::external_body]
fn file_name(path: &str) -> (r: Option<String>)
    ensures
        opt_text(r) == path_file_name(path@),
{
    std::path::Path::new(path).file_name().map(|f| f.to_string_lossy().into_owned())
}

/// `std::path::Path::with_file_name`: the path with another last component, a
/// function of the two texts under those same rules.
#[verifier::external_body]
fn with_file_name(path: &str, name: &str) -> (r: String)
    ensures
        r@ == path_with_file_name(path@, name@),
{
    std::path::Path::new(path).with_file_name(name).to_string_lossy().into_owned()
}

/// The name of the key file beside a store of the given file name.
pub open spec fn key_file_name(store: Option<Seq<char>>) -> Seq<char> {
    (match store {
        Some(s) => s,
        None => "tpm.db"@,
    }) + ".auditkey"@
}

/// The name of the key file beside a store of the given file name.
pub fn audit_key_name(store: Option<&str>) -> (r: String)
    ensures
        r@ == key_file_name(opt_str(store)),
{
    let mut r = String::new();
    r.append(
        match store {
            Some(s) => s,
            None => "tpm.db",
        },
    );
    r.append(".auditkey");
    assert(r@ =~= key_file_name(opt_str(store)));
    r
}

/// Where the master key lies: beside the store.
pub fn audit_key_path_for_store(store_path: &str) -> (r: String)
    ensures
        r@ == path_with_file_name(store_path@, key_file_name(path_file_name(store_path@))),
{
    let stem = file_name(store_path);
    let name = audit_key_name(
        match &stem {
            Some(s) => Some(s.as_str()),
            None => None,
        },
    );
    with_file_name(store_path, name.as_str())
}

/// A master key that was sealed by the TPM, as its file holds it.
#[derive(Debug)]
pub struct SealedKeyFile {
    pub version: u32,
    pub sealed_hex: String,
    pub policy_digest_hex: Option<String>,
}

/// What the key file's bytes are: a raw key has thirty-two of them, anything
/// else must be a sealed envelope.
pub open spec fn is_raw_key(bytes: Seq<u8>) -> bool {
    bytes.len() == 32
}

/// The key in a key file, where no TPM is at hand to unseal it.
pub fn try_load_master_key(
    path: &str,
    bytes: Vec<u8>,
    envelope: &Option<SealedKeyFile>,
) -> (r: Result<Vec<u8>, Failure>)
    ensures
        match r {
            Ok(key) => is_raw_key(bytes@) && key == bytes,
            Err(e) => !is_raw_key(bytes@) && e@ == (if envelope is Some {
                "audit key at "@ + path@
                    + " is sealed under a TPM key; open it with a backend-aware caller"@
            } else {
                "audit key file has wrong length: expected 32 bytes, got "@ + decimal(bytes@.len())
            }),
        },
{
    if bytes.len() == 32 {
        return Ok(bytes);
    }
    match envelope {
        Some(_) => Err(
            Failure::around(
                "audit key at ",
                path,
                " is sealed under a TPM key; open it with a backend-aware caller",
            ),
        ),
        None => {
            let mut n = String::new();
            push_decimal(&mut n, bytes.len() as u64);
            assert(n@ =~= decimal(bytes@.len()));
            Err(
                Failure::about(
                    "audit key file has wrong length: expected 32 bytes, got ",
                    n.as_str(),
                ),
            )
        },
    }
}

/// What has to be done to get at the master key.
#[derive(Debug)]
pub enum KeySource {
    /// The file holds the key itself.
    Raw(Vec<u8>),
    /// The TPM has to unseal it.
    Sealed(SealedData),
}

/// The message for a hexadecimal text that cannot be read.
pub open spec fn hex_error_text(e: HexError) -> Seq<char> {
    match e {
        HexError::OddLength => "odd-length hex string"@,
        HexError::InvalidDigit => "invalid digit found in string"@,
    }
}

fn hex_failure(e: HexError) -> (f: Failure)
    ensures
        f@ == hex_error_text(e),
{
    match e {
        HexError::OddLength => Failure::new("odd-length hex string"),
        HexError::InvalidDigit => Failure::new("invalid digit found in string"),
    }
}

/// The sealed data in an envelope, and the digest of the policy that guards it.
pub open spec fn envelope_content(f: SealedKeyFile) -> Result<
    (Seq<u8>, Option<Seq<u8>>),
    HexError,
> {
    match hex_bytes(encode_utf8(f.sealed_hex@)) {
        Err(h) => Err(h),
        Ok(blob) => match f.policy_digest_hex {
            None => Ok((blob, None)),
            Some(p) => match hex_bytes(encode_utf8(p@)) {
                Err(h) => Err(h),
                Ok(digest) => Ok((blob, Some(digest))),
            },
        },
    }
}

/// The key in a key file, or the sealed data that the TPM has to open. The
/// envelope is the file's content read as JSON; where that failed, the text
/// says why.
pub fn try_load_master_key_with_backend(
    path: &str,
    bytes: Vec<u8>,
    envelope: Result<SealedKeyFile, String>,
) -> (r: Result<KeySource, Failure>)
    ensures
        is_raw_key(bytes@) ==> r == Ok::<KeySource, Failure>(KeySource::Raw(bytes)),
        !is_raw_key(bytes@) ==> match envelope {
            Err(parse_error) => r matches Err(e) && e@ == "audit key at "@ + path@
                + " is not valid (length "@ + decimal(bytes@.len()) + ", parse "@ + parse_error@
                + ")"@,
            Ok(file) => match envelope_content(file) {
                Err(h) => r matches Err(e) && e@ == hex_error_text(h),
                Ok((blob, digest)) => r matches Ok(KeySource::Sealed(s)) && s.blob@ == blob
                    && opt_bytes(s.policy_digest) == digest,
            },
        },
{
    if bytes.len() == 32 {
        return Ok(KeySource::Raw(bytes));
    }
    match envelope {
        Err(parse_error) => {
            let mut t = String::new();
            t.append("audit key at ");
            t.append(path);
            t.append(" is not valid (length ");
            push_decimal(&mut t, bytes.len() as u64);
            t.append(", parse ");
            t.append(parse_error.as_str());
            t.append(")");
            assert(t@ =~= "audit key at "@ + path@ + " is not valid (length "@ + decimal(
                bytes@.len(),
            ) + ", parse "@ + parse_error@ + ")"@);
            Err(Failure::new(t.as_str()))
        },
        Ok(file) => match hex_to_bytes(file.sealed_hex.as_str()) {
            Err(h) => Err(hex_failure(h)),
            Ok(blob) => match &file.policy_digest_hex {
                None => Ok(KeySource::Sealed(SealedData { blob, policy_digest: None })),
                Some(p) => match hex_to_bytes(p.as_str()) {
                    Err(h) => Err(hex_failure(h)),
                    Ok(digest) => Ok(
                        KeySource::Sealed(SealedData { blob, policy_digest: Some(digest) }),
                    ),
                },
            },
        },
    }
}

/// Accepts what the TPM unsealed as the master key, if it has the length of one.
pub fn accept_unsealed_key(plaintext: Vec<u8>) -> (r: Result<Vec<u8>, Failure>)
    ensures
        match r {
            Ok(key) => plaintext@.len() == 32 && key == plaintext,
            Err(e) => plaintext@.len() != 32 && e@
                == "unsealed audit key has wrong length: expected 32 bytes, got "@ + decimal(
                plaintext@.len(),
            ),
        },
{
    if plaintext.len() != 32 {
        let mut n = String::new();
        push_decimal(&mut n, plaintext.len() as u64);
        assert(n@ =~= decimal(plaintext@.len()));
        return Err(
            Failure::about(
                "unsealed audit key has wrong length: expected 32 bytes, got ",
                n.as_str(),
            ),
        );
    }
    Ok(plaintext)
}

/// The file is the envelope of what the TPM has sealed.
pub open spec fn envelopes(f: SealedKeyFile, sealed: SealedData) -> bool {
    &&& f.version == 1
    &&& f.sealed_hex@ == hex_text(sealed.blob@)
    &&& opt_text(f.policy_digest_hex) == (match sealed.policy_digest {
        Some(d) => Some(hex_text(d@)),
        None => None,
    })
}

/// The envelope of a master key that the TPM has sealed.
pub fn seal_key_file(sealed: &SealedData) -> (f: SealedKeyFile)
    ensures
        envelopes(f, *sealed),
{
    SealedKeyFile {
        version: 1,
        sealed_hex: bytes_to_hex(sealed.blob.as_slice()),
        policy_digest_hex: match &sealed.policy_digest {
            Some(d) => Some(bytes_to_hex(d.as_slice())),
            None => None,
        },
    }
}

/// An envelope gives back the sealed data that it was made of.
pub proof fn key_file_reads_back(f: SealedKeyFile, sealed: SealedData)
    requires
        envelopes(f, sealed),
    ensures
        envelope_content(f) == Ok::<(Seq<u8>, Option<Seq<u8>>), HexError>(
            (sealed.blob@, opt_bytes(sealed.policy_digest)),
        ),
{
    crate::hex::hex_round_trip(sealed.blob@);
    match sealed.policy_digest {
        Some(d) => crate::hex::hex_round_trip(d@),
        None => {},
    }
}

/// Where a new master key is written: to the given path, or beside the store.
pub fn key_init_path(store_path: &str, out: Option<&str>) -> (r: String)
    ensures
        r@ == (match out {
            Some(p) => p@,
            None => path_with_file_name(store_path@, key_file_name(path_file_name(store_path@))),
        }),
{
    match out {
        Some(p) => p.to_owned(),
        None => audit_key_path_for_store(store_path),
    }
}

/// Refuses to write a key file over an existing one.
pub fn key_init_check(path: &str, exists: bool) -> (r: Result<(), Failure>)
    ensures
        match r {
            Ok(_) => !exists,
            Err(e) => exists && e@ == "refusing to overwrite existing audit key at "@ + path@,
        },
{
    if exists {
        Err(Failure::about("refusing to overwrite existing audit key at ", path))
    } else {
        Ok(())
    }
}

/// What is said once a key file has been written.
pub open spec fn key_written_text(path: Seq<char>, plaintext: bool) -> Seq<char> {
    "audit key written to: "@ + path + (if plaintext {
        " (plaintext, 0600)\n"@
    } else {
        " (sealed, 0600)\n"@
    }) + key_advice()
}

pub open spec fn key_advice() -> Seq<char> {
    "Keep this file protected. Loss of the key makes protected payloads\nunrecoverable; leak of a plaintext key exposes all historical payloads\n(a sealed key is bound to the TPM and cannot be used elsewhere).\n"@
}

/// What is said once a key file has been written.
fn key_written(path: &str, plaintext: bool) -> (s: String)
    ensures
        s@ == key_written_text(path@, plaintext),
{
    let mut s = String::new();
    s.append("audit key written to: ");
    s.append(path);
    s.append(
        if plaintext {
            " (plaintext, 0600)\n"
        } else {
            " (sealed, 0600)\n"
        },
    );
    s.append(
        "Keep this file protected. Loss of the key makes protected payloads\nunrecoverable; leak of a plaintext key exposes all historical payloads\n(a sealed key is bound to the TPM and cannot be used elsewhere).\n",
    );
    assert(s@ =~= key_written_text(path@, plaintext));
    s
}

/// What is written to a key file.
#[derive(Debug)]
pub enum KeyFile {
    /// The key itself.
    Raw(Vec<u8>),
    /// The envelope of the sealed key.
    Sealed(SealedKeyFile),
}

/// What is written of a new master key, and what is said of it. The key itself
/// is written only where the TPM has not sealed it.
pub fn key_init(path: &str, key: Vec<u8>, sealed: Option<&SealedData>) -> (r: (KeyFile, String))
    ensures
        match sealed {
            None => r.0 == KeyFile::Raw(key),
            Some(s) => r.0 matches KeyFile::Sealed(f) && envelopes(f, *s),
        },
        r.1@ == key_written_text(path@, sealed is None),
{
    match sealed {
        None => (KeyFile::Raw(key), key_written(path, true)),
        Some(s) => (KeyFile::Sealed(seal_key_file(s)), key_written(path, false)),
    }
}

/// What is said of a key file.
pub open spec fn key_shown(
    path: Seq<char>,
    content: Option<Seq<u8>>,
    is_envelope: bool,
) -> Seq<char> {
    field("audit key path: "@, path) + (match content {
        None => field("  present: "@, "no"@),
        Some(bytes) => field("  present: "@, "yes"@) + field(
            "  format:  "@,
            if is_raw_key(bytes) {
                "plaintext"@
            } else if is_envelope {
                "sealed"@
            } else {
                "unknown"@
            },
        ),
    })
}

/// Says where the key file is and what it holds.
pub fn key_show(path: &str, content: &Option<Vec<u8>>, is_envelope: bool) -> (s: String)
    ensures
        s@ == key_shown(path@, opt_bytes(*content), is_envelope),
{
    let mut s = String::new();
    push_field(&mut s, "audit key path: ", path);
    match content {
        None => push_field(&mut s, "  present: ", "no"),
        Some(bytes) => {
            push_field(&mut s, "  present: ", "yes");
            push_field(
                &mut s,
                "  format:  ",
                if bytes.len() == 32 {
                    "plaintext"
                } else if is_envelope {
                    "sealed"
                } else {
                    "unknown"
                },
            );
        },
    }
    assert(s@ =~= key_shown(path@, opt_bytes(*content), is_envelope));
    s
}

// ---------------------------------------------------------------------------
// Streams
// ---------------------------------------------------------------------------

/// A declared stream of the secure log.
#[derive(Debug)]
pub struct StreamRow {
    pub name: String,
    pub tier: String,
    pub description: Option<String>,
    pub created_at: String,
    pub deprecated_at: Option<String>,
}

pub ghost struct StreamView {
    pub name: Seq<char>,
    pub tier: Seq<char>,
    pub description: Option<Seq<char>>,
    pub created_at: Seq<char>,
    pub deprecated_at: Option<Seq<char>>,
}

impl View for StreamRow {
    type V = StreamView;

    open spec fn view(&self) -> StreamView {
        StreamView {
            name: self.name@,
            tier: self.tier@,
            description: opt_text(self.description),
            created_at: self.created_at@,
            deprecated_at: opt_text(self.deprecated_at),
        }
    }
}

/// The confidentiality tiers.
pub open spec fn known_tier(tier: Seq<char>) -> bool {
    tier == "public"@ || encrypting_tier(tier)
}

/// The tiers whose payloads are always encrypted.
pub open spec fn encrypting_tier(tier: Seq<char>) -> bool {
    tier == "protected"@ || tier == "highly-restricted"@
}

/// Whether a tier is one of those known.
pub fn is_known_tier(tier: &str) -> (r: bool)
    ensures
        r == known_tier(tier@),
{
    same(tier, "public") || same(tier, "protected") || same(tier, "highly-restricted")
}

/// Whether an entry is encrypted, and what the user is told about it.
#[derive(Debug)]
pub struct Encryption {
    pub encrypt: bool,
    pub notice: Option<String>,
}

/// What is said where the tier decides against the user's flag.
pub open spec fn encryption_notice(
    row: Option<StreamView>,
    stream: Seq<char>,
    user_encrypt: bool,
) -> Option<Seq<char>> {
    match row {
        None => Some(
            "warning: stream '"@ + stream
                + "' is not declared; treating as public. Create it with `tpm audit streams create "@
                + stream + "`."@,
        ),
        Some(r) => if encrypting_tier(r.tier) && !user_encrypt {
            Some(
                "note: stream '"@ + stream + "' is "@ + r.tier
                    + " — payload will be encrypted even without --encrypt"@,
            )
        } else {
            None
        },
    }
}

/// Decides whether an entry of a stream is encrypted: as the user asks on a
/// public or undeclared stream, always on a stream of a stricter tier.
pub fn effective_encryption(
    row: Option<&StreamRow>,
    stream: &str,
    user_encrypt: bool,
) -> (r: Result<Encryption, Failure>)
    ensures
        match (row, r) {
            (None, Ok(e)) => e.encrypt == user_encrypt && opt_text(e.notice) == encryption_notice(
                None,
                stream@,
                user_encrypt,
            ),
            (None, Err(_)) => false,
            (Some(s), Ok(e)) => known_tier(s@.tier) && e.encrypt == (user_encrypt
                || encrypting_tier(s@.tier)) && opt_text(e.notice) == encryption_notice(
                Some(s@),
                stream@,
                user_encrypt,
            ),
            (Some(s), Err(e)) => !known_tier(s@.tier) && e@ == "stream '"@ + stream@
                + "' has unknown tier '"@ + s@.tier + "'"@,
        },
{
    match row {
        None => {
            let mut n = String::new();
            n.append("warning: stream '");
            n.append(stream);
            n.append(
                "' is not declared; treating as public. Create it with `tpm audit streams create ",
            );
            n.append(stream);
            n.append("`.");
            assert(n@ =~= encryption_notice(None, stream@, user_encrypt)->0);
            Ok(Encryption { encrypt: user_encrypt, notice: Some(n) })
        },
        Some(s) => {
            let tier = s.tier.as_str();
            proof {
                reveal_strlit("public");
                reveal_strlit("protected");
                reveal_strlit("highly-restricted");
                assert("public"@.len() != "protected"@.len());
                assert("public"@.len() != "highly-restricted"@.len());
            }
            if same(tier, "public") {
                Ok(Encryption { encrypt: user_encrypt, notice: None })
            } else if same(tier, "protected") || same(tier, "highly-restricted") {
                if user_encrypt {
                    return Ok(Encryption { encrypt: true, notice: None });
                }
                let mut n = String::new();
                n.append("note: stream '");
                n.append(stream);
                n.append("' is ");
                n.append(tier);
                n.append(" — payload will be encrypted even without --encrypt");
                assert(n@ =~= encryption_notice(Some(s@), stream@, user_encrypt)->0);
                Ok(Encryption { encrypt: true, notice: Some(n) })
            } else {
                let mut t = String::new();
                t.append("stream '");
                t.append(stream);
                t.append("' has unknown tier '");
                t.append(tier);
                t.append("'");
                assert(t@ =~= "stream '"@ + stream@ + "' has unknown tier '"@ + s@.tier + "'"@);
                Err(Failure::new(t.as_str()))
            }
        },
    }
}

/// Which of the log's two appending calls an entry takes.
#[derive(Clone, Copy, PartialEq, Eq, Debug, Structural)]
pub enum AppendCall {
    Plain,
    Encrypted,
}

/// Chooses the appending call for an entry: the sequence number that it gives
/// back is the outcome.
pub fn append_value(row: Option<&StreamRow>, stream: &str, encrypt: bool) -> (r: Result<
    (AppendCall, Option<String>),
    Failure,
>)
    ensures
        match row {
            None => r matches Ok((call, notice)) && (call == AppendCall::Encrypted) == encrypt
                && opt_text(notice) == encryption_notice(None, stream@, encrypt),
            Some(s) => if known_tier(s@.tier) {
                r matches Ok((call, notice)) && (call == AppendCall::Encrypted) == (encrypt
                    || encrypting_tier(s@.tier)) && opt_text(notice) == encryption_notice(
                    Some(s@),
                    stream@,
                    encrypt,
                )
            } else {
                r matches Err(e) && e@ == "stream '"@ + stream@ + "' has unknown tier '"@
                    + s@.tier + "'"@
            },
        },
{
    match effective_encryption(row, stream, encrypt) {
        Err(e) => Err(e),
        Ok(d) => Ok(
            (
                if d.encrypt {
                    AppendCall::Encrypted
                } else {
                    AppendCall::Plain
                },
                d.notice,
            ),
        ),
    }
}

/// A stream as it is printed.
pub open spec fn stream_text(v: StreamView) -> Seq<char> {
    field("name:        "@, v.name) + field("tier:        "@, v.tier) + field(
        "description: "@,
        match v.description {
            Some(d) => d,
            None => "(none)"@,
        },
    ) + field("created_at:  "@, v.created_at) + (match v.deprecated_at {
        Some(d) => field("deprecated:  "@, d),
        None => Seq::empty(),
    })
}

impl StreamRow {
    /// Prints the row.
    pub fn render_text(&self) -> (s: String)
        ensures
            s@ == stream_text(self@),
    {
        let mut s = String::new();
        push_field(&mut s, "name:        ", self.name.as_str());
        push_field(&mut s, "tier:        ", self.tier.as_str());
        push_field(
            &mut s,
            "description: ",
            match &self.description {
                Some(d) => d.as_str(),
                None => "(none)",
            },
        );
        push_field(&mut s, "created_at:  ", self.created_at.as_str());
        match &self.deprecated_at {
            Some(d) => push_field(&mut s, "deprecated:  ", d.as_str()),
            None => {},
        }
        assert(s@ =~= stream_text(self@));
        s
    }

    /// The row in a listing.
    pub open spec fn line(self) -> Seq<char> {
        "  "@ + pad_right(self.name@, 20) + " ["@ + self.tier@ + "]"@ + (
        if self.deprecated_at is Some {
            " (deprecated)"@
        } else {
            ""@
        }) + (match self.description {
            Some(d) => " — "@ + d@,
            None => Seq::empty(),
        }) + "\n"@
    }
}

/// The first `n` rows of a listing.
pub open spec fn stream_lines(rows: Seq<StreamRow>, n: nat) -> Seq<char>
    decreases n,
{
    if n == 0 {
        Seq::empty()
    } else {
        stream_lines(rows, (n - 1) as nat) + rows[n - 1].line()
    }
}

/// A listing of streams.
pub open spec fn streams_text(rows: Seq<StreamRow>) -> Seq<char> {
    if rows.len() == 0 {
        "no streams\n"@
    } else {
        stream_lines(rows, rows.len())
    }
}

/// Prints a listing of streams.
pub fn streams_list(rows: &Vec<StreamRow>) -> (s: String)
    ensures
        s@ == streams_text(rows@),
{
    if rows.len() == 0 {
        return "no streams\n".to_owned();
    }
    let mut s = String::new();
    let mut i: usize = 0;
    while i < rows.len()
        invariant
            i <= rows@.len(),
            s@ == stream_lines(rows@, i as nat),
        decreases rows@.len() - i,
    {
        let r = &rows[i];
        let ghost before = s@;
        s.append("  ");
        push_padded_right(&mut s, r.name.as_str(), 20);
        s.append(" [");
        s.append(r.tier.as_str());
        s.append("]");
        s.append(
            if r.deprecated_at.is_some() {
                " (deprecated)"
            } else {
                ""
            },
        );
        match &r.description {
            Some(d) => {
                s.append(" — ");
                s.append(d.as_str());
            },
            None => {},
        }
        s.append("\n");
        i += 1;
        assert(s@ =~= before + r.line());
    }
    s
}

// ---------------------------------------------------------------------------
// Entries
// ---------------------------------------------------------------------------

/// Where the payload of a new entry comes from.
#[derive(Clone, Copy, PartialEq, Eq, Debug, Structural)]
pub enum PayloadSource {
    Inline,
    Stdin,
    File,
    Empty,
}

/// Chooses the source of a payload: text on the command line goes before a
/// file, of which a dash means standard input.
pub fn payload_source(inline: Option<&str>, file: Option<&str>) -> (r: PayloadSource)
    ensures
        r == (match (inline, file) {
            (Some(_), _) => PayloadSource::Inline,
            (None, Some(p)) => if p@ == "-"@ {
                PayloadSource::Stdin
            } else {
                PayloadSource::File
            },
            (None, None) => PayloadSource::Empty,
        }),
{
    match (inline, file) {
        (Some(_), _) => PayloadSource::Inline,
        (None, Some(p)) => if same(p, "-") {
            PayloadSource::Stdin
        } else {
            PayloadSource::File
        },
        (None, None) => PayloadSource::Empty,
    }
}

/// An entry that was appended.
#[derive(Debug)]
pub struct AppendOutput {
    pub seqno: u64,
    pub stream: String,
    pub entry_hash: String,
    pub payload_bytes: usize,
    pub encrypted: bool,
}

impl AppendOutput {
    pub open spec fn text(self) -> Seq<char> {
        "appended entry\n"@ + field("  seqno:      "@, decimal(self.seqno as nat)) + field(
            "  stream:     "@,
            self.stream@,
        ) + field("  entry_hash: "@, self.entry_hash@) + "  payload:    "@ + decimal(
            self.payload_bytes as nat,
        ) + " bytes"@ + (if self.encrypted {
            " (encrypted)"@
        } else {
            ""@
        }) + "\n"@
    }

    /// Prints the entry.
    pub fn render_text(&self) -> (s: String)
        ensures
            s@ == self.text(),
    {
        let mut s = String::new();
        s.append("appended entry\n");
        push_number(&mut s, "  seqno:      ", self.seqno);
        push_field(&mut s, "  stream:     ", self.stream.as_str());
        push_field(&mut s, "  entry_hash: ", self.entry_hash.as_str());
        s.append("  payload:    ");
        push_decimal(&mut s, self.payload_bytes as u64);
        s.append(" bytes");
        s.append(
            if self.encrypted {
                " (encrypted)"
            } else {
                ""
            },
        );
        s.append("\n");
        assert(s@ =~= self.text());
        s
    }
}

/// An entry as the log keeps it.
#[derive(Debug)]
pub struct EntryFields {
    pub seqno: u64,
    pub stream_id: String,
    pub session_id: String,
    pub boot_id: String,
    pub timestamp: String,
    pub event_type: String,
    pub severity: String,
    pub producer: String,
    pub payload_encoding: String,
    pub payload: Vec<u8>,
    pub prev_entry_hash: Vec<u8>,
}

/// An entry as it is printed, with its payload in hexadecimal.
pub open spec fn entry_text(e: EntryFields, plaintext: Option<Seq<char>>) -> Seq<char> {
    field("seqno:         "@, decimal(e.seqno as nat)) + field("stream:        "@, e.stream_id@)
        + field("session_id:    "@, e.session_id@) + field("boot_id:       "@, e.boot_id@) + field(
        "timestamp:     "@,
        e.timestamp@,
    ) + field("event_type:    "@, e.event_type@) + field("severity:      "@, e.severity@) + field(
        "producer:      "@,
        e.producer@,
    ) + field("encoding:      "@, e.payload_encoding@) + field(
        "prev_hash:     "@,
        hex_text(e.prev_entry_hash@),
    ) + field("payload (hex): "@, hex_text(e.payload@)) + (match plaintext {
        Some(p) => field("plaintext:     "@, p),
        None => Seq::empty(),
    })
}

/// Prints an entry, with the decrypted payload where there is one.
pub fn show(e: &EntryFields, plaintext: Option<&str>) -> (s: String)
    ensures
        s@ == entry_text(*e, opt_str(plaintext)),
{
    let mut s = String::new();
    push_number(&mut s, "seqno:         ", e.seqno);
    push_field(&mut s, "stream:        ", e.stream_id.as_str());
    push_field(&mut s, "session_id:    ", e.session_id.as_str());
    push_field(&mut s, "boot_id:       ", e.boot_id.as_str());
    push_field(&mut s, "timestamp:     ", e.timestamp.as_str());
    push_field(&mut s, "event_type:    ", e.event_type.as_str());
    push_field(&mut s, "severity:      ", e.severity.as_str());
    push_field(&mut s, "producer:      ", e.producer.as_str());
    push_field(&mut s, "encoding:      ", e.payload_encoding.as_str());
    push_field(&mut s, "prev_hash:     ", hex_encode(e.prev_entry_hash.as_slice()).as_str());
    push_field(&mut s, "payload (hex): ", hex_encode(e.payload.as_slice()).as_str());
    match plaintext {
        Some(p) => push_field(&mut s, "plaintext:     ", p),
        None => {},
    }
    assert(s@ =~= entry_text(*e, opt_str(plaintext)));
    s
}

/// The head of a stream as it is printed.
pub open spec fn head_text(stream: Seq<char>, head: Option<u64>) -> Seq<char> {
    match head {
        Some(h) => "stream "@ + stream + ": head = "@ + decimal(h as nat) + "\n"@,
        None => "stream "@ + stream + ": empty\n"@,
    }
}

/// Prints the head of a stream.
pub fn head(stream: &str, seqno: Option<u64>) -> (s: String)
    ensures
        s@ == head_text(stream@, seqno),
{
    let mut s = String::new();
    s.append("stream ");
    s.append(stream);
    match seqno {
        Some(h) => {
            s.append(": head = ");
            push_decimal(&mut s, h);
            s.append("\n");
        },
        None => {
            s.append(": empty\n");
        },
    }
    assert(s@ =~= head_text(stream@, seqno));
    s
}

/// The last entry of a chain that is to be verified: the one asked for, or the head.
pub fn chain_end(stream: &str, to: Option<u64>, head: Option<u64>) -> (r: Result<u64, Failure>)
    ensures
        match r {
            Ok(n) => to == Some(n) || (to is None && head == Some(n)),
            Err(e) => to is None && head is None && e@ == "stream '"@ + stream@ + "' is empty"@,
        },
{
    match to {
        Some(n) => Ok(n),
        None => match head {
            Some(n) => Ok(n),
            None => Err(Failure::around("stream '", stream, "' is empty")),
        },
    }
}

/// The verdict on a chain as it is printed.
pub open spec fn chain_text(
    stream: Seq<char>,
    from: u64,
    to: u64,
    error: Option<Seq<char>>,
) -> Seq<char> {
    "verify chain: stream="@ + stream + " range=["@ + decimal(from as nat) + ","@ + decimal(
        to as nat,
    ) + "]\n"@ + (match error {
        None => "  result: ok (all links verified)\n"@,
        Some(e) => "  result: FAILED\n"@ + field("  error:  "@, e),
    })
}

/// Prints the verdict on a chain and says whether it is a failure.
pub fn chain_verify(stream: &str, from: u64, to: u64, error: Option<&str>) -> (r: (
    String,
    Result<(), Failure>,
))
    ensures
        r.0@ == chain_text(stream@, from, to, opt_str(error)),
        match r.1 {
            Ok(_) => error is None,
            Err(f) => error matches Some(e) && f@ == "chain verification failed: "@ + e@,
        },
{
    let mut s = String::new();
    s.append("verify chain: stream=");
    s.append(stream);
    s.append(" range=[");
    push_decimal(&mut s, from);
    s.append(",");
    push_decimal(&mut s, to);
    s.append("]\n");
    match error {
        None => {
            s.append("  result: ok (all links verified)\n");
            assert(s@ =~= chain_text(stream@, from, to, opt_str(error)));
            (s, Ok(()))
        },
        Some(e) => {
            s.append("  result: FAILED\n");
            push_field(&mut s, "  error:  ", e);
            assert(s@ =~= chain_text(stream@, from, to, opt_str(error)));
            (s, Err(Failure::about("chain verification failed: ", e)))
        },
    }
}

// ---------------------------------------------------------------------------
// Segments
// ---------------------------------------------------------------------------

/// A closed window of the log.
#[derive(Debug)]
pub struct SegmentInfo {
    pub segment_id: u64,
    pub stream_id: String,
    pub seq_start: u64,
    pub seq_end: u64,
    pub merkle_root: [u8; 32],
    pub last_entry_hash: [u8; 32],
    pub prev_checkpoint_hash: [u8; 32],
    pub closed_at: String,
    pub signature: Vec<u8>,
    pub signer_identity: Option<String>,
}

impl SegmentInfo {
    /// The window holds at least one entry, and its size can be counted.
    pub open spec fn wf(self) -> bool {
        self.seq_start <= self.seq_end && self.seq_end - self.seq_start < u64::MAX
    }

    pub open spec fn text(self) -> Seq<char> {
        field("segment_id:     "@, decimal(self.segment_id as nat)) + field(
            "stream:         "@,
            self.stream_id@,
        ) + "range:          ["@ + decimal(self.seq_start as nat) + ", "@ + decimal(
            self.seq_end as nat,
        ) + "] ("@ + decimal((self.seq_end - self.seq_start + 1) as nat) + " entries)\n"@ + field(
            "merkle_root:    "@,
            hex_text(self.merkle_root@),
        ) + field("last_entry:     "@, hex_text(self.last_entry_hash@)) + field(
            "prev_checkpoint:"@,
            hex_text(self.prev_checkpoint_hash@),
        ) + field("closed_at:      "@, self.closed_at@) + field(
            "signed:         "@,
            yes_no(self.signature@.len() > 0),
        ) + (match self.signer_identity {
            Some(i) => field("signer:         "@, i@),
            None => Seq::empty(),
        })
    }

    /// Prints the segment.
    pub fn render_text(&self) -> (s: String)
        requires
            self.wf(),
        ensures
            s@ == self.text(),
    {
        let mut s = String::new();
        push_number(&mut s, "segment_id:     ", self.segment_id);
        push_field(&mut s, "stream:         ", self.stream_id.as_str());
        s.append("range:          [");
        push_decimal(&mut s, self.seq_start);
        s.append(", ");
        push_decimal(&mut s, self.seq_end);
        s.append("] (");
        push_decimal(&mut s, self.seq_end - self.seq_start + 1);
        s.append(" entries)\n");
        push_field(&mut s, "merkle_root:    ", hex_encode(self.merkle_root.as_slice()).as_str());
        push_field(
            &mut s,
            "last_entry:     ",
            hex_encode(self.last_entry_hash.as_slice()).as_str(),
        );
        push_field(
            &mut s,
            "prev_checkpoint:",
            hex_encode(self.prev_checkpoint_hash.as_slice()).as_str(),
        );
        push_field(&mut s, "closed_at:      ", self.closed_at.as_str());
        push_choice(&mut s, "signed:         ", self.signature.len() > 0);
        match &self.signer_identity {
            Some(i) => push_field(&mut s, "signer:         ", i.as_str()),
            None => {},
        }
        assert(s@ =~= self.text());
        s
    }

    /// The segment in a listing: of its root the first and the last eight digits.
    pub open spec fn line(self) -> Seq<char> {
        let root = hex_text(self.merkle_root@);
        "  segment "@ + decimal(self.segment_id as nat) + ": seqs ["@ + decimal(
            self.seq_start as nat,
        ) + ", "@ + decimal(self.seq_end as nat) + "] root="@ + root.subrange(0, 8) + "..."@
            + root.subrange(56, 64) + " signed="@ + (if self.signature@.len() > 0 {
            "true"@
        } else {
            "false"@
        }) + "\n"@
    }

    /// Prints the segment for a listing.
    fn line_text(&self) -> (s: String)
        ensures
            s@ == self.line(),
    {
        let root = hex_encode(self.merkle_root.as_slice());
        let digits = chars_of(root.as_str());
        let mut s = String::new();
        s.append("  segment ");
        push_decimal(&mut s, self.segment_id);
        s.append(": seqs [");
        push_decimal(&mut s, self.seq_start);
        s.append(", ");
        push_decimal(&mut s, self.seq_end);
        s.append("] root=");
        s.append(text_of(&digits, 0, 8).as_str());
        s.append("...");
        s.append(text_of(&digits, 56, 64).as_str());
        s.append(" signed=");
        s.append(
            if self.signature.len() > 0 {
                "true"
            } else {
                "false"
            },
        );
        s.append("\n");
        assert(s@ =~= self.line());
        s
    }
}

/// The first `n` rows of a listing.
pub open spec fn segment_lines(rows: Seq<SegmentInfo>, n: nat) -> Seq<char>
    decreases n,
{
    if n == 0 {
        Seq::empty()
    } else {
        segment_lines(rows, (n - 1) as nat) + rows[n - 1].line()
    }
}

/// A listing of segments.
pub open spec fn segments_text(stream: Seq<char>, rows: Seq<SegmentInfo>) -> Seq<char> {
    if rows.len() == 0 {
        "stream "@ + stream + ": no segments\n"@
    } else {
        "stream "@ + stream + ":\n"@ + segment_lines(rows, rows.len())
    }
}

/// Prints a listing of segments.
pub fn segments_list(stream: &str, rows: &Vec<SegmentInfo>) -> (s: String)
    ensures
        s@ == segments_text(stream@, rows@),
{
    let mut s = String::new();
    s.append("stream ");
    s.append(stream);
    if rows.len() == 0 {
        s.append(": no segments\n");
        assert(s@ =~= segments_text(stream@, rows@));
        return s;
    }
    s.append(":\n");
    let ghost start = s@;
    assert(start =~= "stream "@ + stream@ + ":\n"@);
    let mut i: usize = 0;
    assert(s@ =~= start + segment_lines(rows@, 0));
    while i < rows.len()
        invariant
            i <= rows@.len(),
            s@ == start + segment_lines(rows@, i as nat),
        decreases rows@.len() - i,
    {
        s.append(rows[i].line_text().as_str());
        i += 1;
        assert(s@ =~= start + segment_lines(rows@, i as nat));
    }
    s
}

/// One step of an inclusion proof.
#[derive(Debug)]
pub struct ProofStep {
    pub sibling_hash: [u8; 32],
    pub right: bool,
}

/// That an entry belongs to a segment.
#[derive(Debug)]
pub struct InclusionProof {
    pub seqno: u64,
    pub segment_id: u64,
    pub entry_hash: [u8; 32],
    pub merkle_root: [u8; 32],
    pub path: Vec<ProofStep>,
}

pub open spec fn step_line(i: nat, s: ProofStep) -> Seq<char> {
    "    "@ + decimal(i) + ". ["@ + (if s.right {
        "R"@
    } else {
        "L"@
    }) + "] "@ + hex_text(s.sibling_hash@) + "\n"@
}

pub open spec fn step_lines(path: Seq<ProofStep>, n: nat) -> Seq<char>
    decreases n,
{
    if n == 0 {
        Seq::empty()
    } else {
        step_lines(path, (n - 1) as nat) + step_line((n - 1) as nat, path[n - 1])
    }
}

impl InclusionProof {
    pub open spec fn text(self) -> Seq<char> {
        "inclusion proof: seqno="@ + decimal(self.seqno as nat) + " segment="@ + decimal(
            self.segment_id as nat,
        ) + "\n"@ + field("  entry_hash:   "@, hex_text(self.entry_hash@)) + field(
            "  merkle_root:  "@,
            hex_text(self.merkle_root@),
        ) + field("  path_length:  "@, decimal(self.path@.len())) + step_lines(
            self.path@,
            self.path@.len(),
        ) + "\nproof verified locally.\n"@
    }

    /// Prints a proof that has been verified.
    pub fn render_text(&self) -> (s: String)
        ensures
            s@ == self.text(),
    {
        let mut s = String::new();
        s.append("inclusion proof: seqno=");
        push_decimal(&mut s, self.seqno);
        s.append(" segment=");
        push_decimal(&mut s, self.segment_id);
        s.append("\n");
        push_field(&mut s, "  entry_hash:   ", hex_encode(self.entry_hash.as_slice()).as_str());
        push_field(&mut s, "  merkle_root:  ", hex_encode(self.merkle_root.as_slice()).as_str());
        push_number(&mut s, "  path_length:  ", self.path.len() as u64);
        let ghost start = s@;
        let mut i: usize = 0;
        assert(s@ =~= start + step_lines(self.path@, 0));
        while i < self.path.len()
            invariant
                i <= self.path@.len(),
                s@ == start + step_lines(self.path@, i as nat),
            decreases self.path@.len() - i,
        {
            let p = &self.path[i];
            let ghost before = s@;
            s.append("    ");
            push_decimal(&mut s, i as u64);
            s.append(". [");
            s.append(
                if p.right {
                    "R"
                } else {
                    "L"
                },
            );
            s.append("] ");
            s.append(hex_encode(p.sibling_hash.as_slice()).as_str());
            s.append("\n");
            assert(s@ =~= before + step_line(i as nat, *p));
            i += 1;
            assert(s@ =~= start + step_lines(self.path@, i as nat));
        }
        s.append("\nproof verified locally.\n");
        assert(s@ =~= self.text());
        s
    }
}

/// A signed segment as it is printed.
pub open spec fn signed_text(
    segment_id: u64,
    identity: Seq<char>,
    checkpoint_hash: Seq<u8>,
    signature: Seq<u8>,
) -> Seq<char> {
    "signed segment\n"@ + field("  segment_id:      "@, decimal(segment_id as nat)) + field(
        "  identity:        "@,
        identity,
    ) + field("  checkpoint_hash: "@, hex_text(checkpoint_hash)) + "  signature:       "@ + decimal(
        signature.len(),
    ) + " bytes ("@ + hex_text(signature) + ")\n"@
}

/// Prints a signed segment.
pub fn sign(segment_id: u64, identity: &str, checkpoint_hash: &[u8], signature: &[u8]) -> (s: String)
    ensures
        s@ == signed_text(segment_id, identity@, checkpoint_hash@, signature@),
{
    let mut s = String::new();
    s.append("signed segment\n");
    push_number(&mut s, "  segment_id:      ", segment_id);
    push_field(&mut s, "  identity:        ", identity);
    push_field(&mut s, "  checkpoint_hash: ", hex_encode(checkpoint_hash).as_str());
    s.append("  signature:       ");
    push_decimal(&mut s, signature.len() as u64);
    s.append(" bytes (");
    s.append(hex_encode(signature).as_str());
    s.append(")\n");
    assert(s@ =~= signed_text(segment_id, identity@, checkpoint_hash@, signature@));
    s
}

/// The verdict on a chain of checkpoints as it is printed.
pub open spec fn checkpoints_text(
    stream: Seq<char>,
    verdict: Result<usize, Seq<char>>,
) -> Seq<char> {
    field("verify checkpoint chain: stream="@, stream) + (match verdict {
        Ok(n) => "  result: ok ("@ + decimal(n as nat) + " segment(s) verified)\n"@,
        Err(e) => "  result: FAILED\n"@ + field("  error:  "@, e),
    })
}

/// Prints the verdict on a chain of checkpoints and says whether it is a failure.
pub fn verify(stream: &str, verdict: &Result<usize, String>) -> (r: (String, Result<(), Failure>))
    ensures
        r.0@ == checkpoints_text(
            stream@,
            match *verdict {
                Ok(n) => Ok(n),
                Err(e) => Err(e@),
            },
        ),
        match r.1 {
            Ok(_) => verdict is Ok,
            Err(f) => *verdict matches Err(e) && f@ == "checkpoint chain verification failed: "@
                + e@,
        },
{
    let mut s = String::new();
    push_field(&mut s, "verify checkpoint chain: stream=", stream);
    match verdict {
        Ok(n) => {
            s.append("  result: ok (");
            push_decimal(&mut s, *n as u64);
            s.append(" segment(s) verified)\n");
            assert(s@ =~= checkpoints_text(stream@, Ok(*n)));
            (s, Ok(()))
        },
        Err(e) => {
            s.append("  result: FAILED\n");
            push_field(&mut s, "  error:  ", e.as_str());
            assert(s@ =~= checkpoints_text(stream@, Err(e@)));
            (s, Err(Failure::about("checkpoint chain verification failed: ", e.as_str())))
        },
    }
}

/// What surrounds a witness submission on a terminal.
pub open spec fn publish_text(stream: Seq<char>, submission: Seq<char>) -> Seq<char> {
    "witness submission for stream="@ + stream + ":\n"@ + submission
        + "\n\nPOST this to your witness endpoint, e.g.:\n  curl -X POST -H 'content-type: application/json' \\\n    -d @submission.json \\\n    http://localhost:7701/v1/audit/witness\n"@
}

/// A witness submission as it is printed: bare for a program to read, with
/// instructions for a person.
pub fn publish(stream: &str, submission: &str, for_people: bool) -> (s: String)
    ensures
        for_people ==> s@ == publish_text(stream@, submission@),
        !for_people ==> s@ == submission@ + "\n"@,
{
    let mut s = String::new();
    if for_people {
        s.append("witness submission for stream=");
        s.append(stream);
        s.append(":\n");
        s.append(submission);
        s.append(
            "\n\nPOST this to your witness endpoint, e.g.:\n  curl -X POST -H 'content-type: application/json' \\\n    -d @submission.json \\\n    http://localhost:7701/v1/audit/witness\n",
        );
        assert(s@ =~= publish_text(stream@, submission@));
    } else {
        s.append(submission);
        s.append("\n");
        assert(s@ =~= submission@ + "\n"@);
    }
    s
}

/// What the head file says of a stream.
#[derive(Debug)]
pub struct HeadRecord {
    pub segment_id: u64,
    pub seq_end: u64,
    pub checkpoint_hash_hex: String,
}

/// The outcome of the rollback check as it is printed.
pub open spec fn rollback_text(
    stream: Seq<char>,
    verdict: Result<Option<HeadRecord>, Seq<char>>,
) -> Seq<char> {
    field("rollback check: stream="@, stream) + (match verdict {
        Ok(record) => "  result: ok (no rollback detected)\n"@ + (match record {
            Some(r) => "  head_file:  segment="@ + decimal(r.segment_id as nat) + " seq_end="@
                + decimal(r.seq_end as nat) + "\n"@ + field(
                "  head_hash:  "@,
                r.checkpoint_hash_hex@,
            ),
            None => "  head_file:  (empty or disabled)\n"@,
        }),
        Err(e) => "  result: FAILED\n"@ + field("  error:  "@, e),
    })
}

/// Prints the outcome of the rollback check and says whether it is a failure.
pub fn rollback_check(stream: &str, verdict: &Result<Option<HeadRecord>, String>) -> (r: (
    String,
    Result<(), Failure>,
))
    ensures
        r.0@ == rollback_text(
            stream@,
            match *verdict {
                Ok(h) => Ok(h),
                Err(e) => Err(e@),
            },
        ),
        match r.1 {
            Ok(_) => verdict is Ok,
            Err(f) => *verdict matches Err(e) && f@ == "rollback detected: "@ + e@,
        },
{
    let mut s = String::new();
    push_field(&mut s, "rollback check: stream=", stream);
    match verdict {
        Ok(record) => {
            s.append("  result: ok (no rollback detected)\n");
            match record {
                Some(h) => {
                    s.append("  head_file:  segment=");
                    push_decimal(&mut s, h.segment_id);
                    s.append(" seq_end=");
                    push_decimal(&mut s, h.seq_end);
                    s.append("\n");
                    push_field(&mut s, "  head_hash:  ", h.checkpoint_hash_hex.as_str());
                },
                None => {
                    s.append("  head_file:  (empty or disabled)\n");
                },
            }
            assert(s@ =~= rollback_text(stream@, Ok(*record)));
            (s, Ok(()))
        },
        Err(e) => {
            s.append("  result: FAILED\n");
            push_field(&mut s, "  error:  ", e.as_str());
            assert(s@ =~= rollback_text(stream@, Err(e@)));
            (s, Err(Failure::about("rollback detected: ", e.as_str())))
        },
    }
}

// ---------------------------------------------------------------------------
// Witnesses
// ---------------------------------------------------------------------------

/// A checkpoint that a witness has received.
#[derive(Clone, Debug)]
pub struct WitnessLogRow {
    pub id: Option<i64>,
    pub stream_id: String,
    pub segment_id: u64,
    pub seq_start: u64,
    pub seq_end: u64,
    pub checkpoint_hash_hex: String,
    pub signature_hex: String,
    pub signer_identity: String,
    pub received_at: String,
}

impl WitnessLogRow {
    pub open spec fn text(self) -> Seq<char> {
        "id="@ + (match self.id {
            Some(i) => signed_decimal(i as int),
            None => Seq::empty(),
        }) + " stream="@ + self.stream_id@ + " seg="@ + decimal(self.segment_id as nat) + " seqs="@
            + decimal(self.seq_start as nat) + "-"@ + decimal(self.seq_end as nat) + " signer="@
            + self.signer_identity@ + " received="@ + self.received_at@ + "\n"@
    }

    /// Prints the receipt.
    pub fn render_text(&self) -> (s: String)
        ensures
            s@ == self.text(),
    {
        let mut s = String::new();
        s.append("id=");
        match self.id {
            Some(i) => {
                s.append(signed_decimal_text(i).as_str());
            },
            None => {},
        }
        s.append(" stream=");
        s.append(self.stream_id.as_str());
        s.append(" seg=");
        push_decimal(&mut s, self.segment_id);
        s.append(" seqs=");
        push_decimal(&mut s, self.seq_start);
        s.append("-");
        push_decimal(&mut s, self.seq_end);
        s.append(" signer=");
        s.append(self.signer_identity.as_str());
        s.append(" received=");
        s.append(self.received_at.as_str());
        s.append("\n");
        assert(s@ =~= self.text());
        s
    }
}

/// The first `n` receipts.
pub open spec fn witness_lines(rows: Seq<WitnessLogRow>, n: nat) -> Seq<char>
    decreases n,
{
    if n == 0 {
        Seq::empty()
    } else {
        witness_lines(rows, (n - 1) as nat) + rows[n - 1].text()
    }
}

/// A listing of receipts.
pub open spec fn witnesses_text(rows: Seq<WitnessLogRow>) -> Seq<char> {
    if rows.len() == 0 {
        "no witness receipts\n"@
    } else {
        witness_lines(rows, rows.len())
    }
}

/// Prints a listing of receipts.
pub fn witness_list(rows: &Vec<WitnessLogRow>) -> (s: String)
    ensures
        s@ == witnesses_text(rows@),
{
    if rows.len() == 0 {
        return "no witness receipts\n".to_owned();
    }
    let mut s = String::new();
    let mut i: usize = 0;
    while i < rows.len()
        invariant
            i <= rows@.len(),
            s@ == witness_lines(rows@, i as nat),
        decreases rows@.len() - i,
    {
        s.append(rows[i].render_text().as_str());
        i += 1;
    }
    s
}

/// Prints the latest receipt of a stream.
pub fn witness_latest(stream: &str, latest: Option<&WitnessLogRow>) -> (s: String)
    ensures
        match latest {
            Some(row) => s@ == row.text(),
            None => s@ == "no witness receipts for stream '"@ + stream@ + "'\n"@,
        },
{
    match latest {
        Some(row) => row.render_text(),
        None => {
            let mut s = String::new();
            s.append("no witness receipts for stream '");
            s.append(stream);
            s.append("'\n");
            assert(s@ =~= "no witness receipts for stream '"@ + stream@ + "'\n"@);
            s
        },
    }
}

/// What a witness log is asked to forget.
#[derive(Clone, Copy, PartialEq, Eq, Debug, Structural)]
pub enum GcScope {
    AllStreams,
    OneStream,
}

/// Checks the options of a clean-up: at least one limit has to be given.
pub fn witness_gc_scope(
    stream: &str,
    keep_latest: Option<usize>,
    older_than: Option<&str>,
) -> (r: Result<GcScope, Failure>)
    ensures
        match r {
            Ok(scope) => (keep_latest is Some || older_than is Some) && (scope
                == GcScope::AllStreams) == (stream@ == "all"@),
            Err(e) => keep_latest is None && older_than is None && e@
                == "at least one of --keep-latest or --older-than must be specified"@,
        },
{
    if keep_latest.is_none() && older_than.is_none() {
        return Err(
            Failure::new("at least one of --keep-latest or --older-than must be specified"),
        );
    }
    if same(stream, "all") {
        Ok(GcScope::AllStreams)
    } else {
        Ok(GcScope::OneStream)
    }
}

/// How many rows at the end are kept.
pub open spec fn kept_rows(rows: Seq<WitnessLogRow>, keep_latest: Option<usize>) -> int {
    match keep_latest {
        None => 0,
        Some(k) => if k < rows.len() {
            k as int
        } else {
            rows.len() as int
        },
    }
}

/// A row has the identifier of one of the rows of its stream that are kept.
pub open spec fn is_kept(
    rows: Seq<WitnessLogRow>,
    keep_latest: Option<usize>,
    row: WitnessLogRow,
) -> bool {
    exists|j: int|
        rows.len() - kept_rows(rows, keep_latest) <= j < rows.len() && #[trigger] rows[j].id
            == row.id
}

/// A row may be forgotten: it is not among the latest of its stream that are
/// kept, and it was received before the cut-off, where there is one.
pub open spec fn forgettable(
    rows: Seq<WitnessLogRow>,
    keep_latest: Option<usize>,
    older_than: Option<Seq<char>>,
    row: WitnessLogRow,
) -> bool {
    !is_kept(rows, keep_latest, row) && match older_than {
        Some(cutoff) => !text_le(cutoff, row.received_at@),
        None => kept_rows(rows, keep_latest) > 0,
    }
}

/// How many of the first `n` rows may be forgotten.
pub open spec fn forgettable_count(
    rows: Seq<WitnessLogRow>,
    keep_latest: Option<usize>,
    older_than: Option<Seq<char>>,
    n: nat,
) -> nat
    decreases n,
{
    if n == 0 {
        0
    } else {
        forgettable_count(rows, keep_latest, older_than, (n - 1) as nat) + (if forgettable(
            rows,
            keep_latest,
            older_than,
            rows[n - 1],
        ) {
            1nat
        } else {
            0
        })
    }
}

/// How many rows may be forgotten in the first `n` streams.
pub open spec fn candidates(
    streams: Seq<Seq<WitnessLogRow>>,
    keep_latest: Option<usize>,
    older_than: Option<Seq<char>>,
    n: nat,
) -> nat
    decreases n,
{
    if n == 0 {
        0
    } else {
        candidates(streams, keep_latest, older_than, (n - 1) as nat) + forgettable_count(
            streams[n - 1],
            keep_latest,
            older_than,
            streams[n - 1].len(),
        )
    }
}

/// The latest receipts that were asked to be kept are never forgotten.
pub proof fn latest_receipts_are_kept(
    rows: Seq<WitnessLogRow>,
    keep_latest: usize,
    older_than: Option<Seq<char>>,
    i: int,
)
    requires
        rows.len() - keep_latest <= i < rows.len(),
        0 <= i,
    ensures
        !forgettable(rows, Some(keep_latest), older_than, rows[i]),
{
    assert(rows[i].id == rows[i].id);
    assert(is_kept(rows, Some(keep_latest), rows[i]));
}

/// No receipt that came at the cut-off or later is ever forgotten.
pub proof fn recent_receipts_are_kept(
    rows: Seq<WitnessLogRow>,
    keep_latest: Option<usize>,
    cutoff: Seq<char>,
    i: int,
)
    requires
        0 <= i < rows.len(),
        text_le(cutoff, rows[i].received_at@),
    ensures
        !forgettable(rows, keep_latest, Some(cutoff), rows[i]),
{
}

/// Whether a receipt may be forgotten, given the receipts of its stream.
pub fn may_forget(
    rows: &Vec<&WitnessLogRow>,
    keep_latest: Option<usize>,
    older_than: Option<&str>,
    row: &WitnessLogRow,
) -> (r: bool)
    ensures
        r == forgettable(
            receipts_of(rows@),
            keep_latest,
            opt_str(older_than),
            *row,
        ),
{
    let ghost all = receipts_of(rows@);
    let total: usize = rows.len();
    let kept: usize = match keep_latest {
        None => 0,
        Some(k) => if k < total {
            k
        } else {
            total
        },
    };
    let mut found = false;
    let mut j: usize = total - kept;
    while j < total
        invariant
            total == rows@.len(),
            all == receipts_of(rows@),
            kept == kept_rows(all, keep_latest),
            kept <= total,
            total - kept <= j <= total,
            found == exists|k: int| total - kept <= k < j && #[trigger] all[k].id == row.id,
        decreases total - j,
    {
        let equal = match (rows[j].id, row.id) {
            (Some(a), Some(b)) => a == b,
            (None, None) => true,
            _ => false,
        };
        assert(equal == (all[j as int].id == row.id));
        if equal {
            found = true;
        }
        j += 1;
    }
    assert(found == is_kept(all, keep_latest, *row));
    let old_enough = match older_than {
        Some(cutoff) => !in_order(cutoff, row.received_at.as_str()),
        None => kept > 0,
    };
    !found && old_enough
}

/// The receipts of one stream.
pub open spec fn receipts_of(rows: Seq<&WitnessLogRow>) -> Seq<WitnessLogRow> {
    rows.map_values(|row: &WitnessLogRow| *row)
}

/// The receipts of each stream.
pub open spec fn receipts_by_stream(streams: Seq<Vec<&WitnessLogRow>>) -> Seq<Seq<WitnessLogRow>> {
    streams.map_values(|rows: Vec<&WitnessLogRow>| receipts_of(rows@))
}

/// Counts the receipts of one stream that may be forgotten.
fn count_in_stream(
    rows: &Vec<&WitnessLogRow>,
    keep_latest: Option<usize>,
    older_than: Option<&str>,
) -> (count: usize)
    ensures
        count == forgettable_count(
            receipts_of(rows@),
            keep_latest,
            opt_str(older_than),
            rows@.len(),
        ),
{
    let total: usize = rows.len();
    let mut count: usize = 0;
    let mut n: usize = 0;
    while n < total
        invariant
            n <= total == rows@.len(),
            count <= n,
            count == forgettable_count(
                receipts_of(rows@),
                keep_latest,
                opt_str(older_than),
                n as nat,
            ),
        decreases total - n,
    {
        if may_forget(rows, keep_latest, older_than, rows[n]) {
            count += 1;
        }
        n += 1;
    }
    count
}

/// Counts the receipts that a clean-up would remove, stream by stream. `None`
/// where there are more than can be counted.
pub fn count_gc_candidates(
    streams: &Vec<Vec<&WitnessLogRow>>,
    keep_latest: Option<usize>,
    older_than: Option<&str>,
) -> (r: Option<usize>)
    ensures
        ({
            let all = candidates(
                receipts_by_stream(streams@),
                keep_latest,
                opt_str(older_than),
                streams@.len(),
            );
            match r {
                Some(n) => n == all,
                None => all > usize::MAX,
            }
        }),
{
    let ghost all = receipts_by_stream(streams@);
    let mut count: usize = 0;
    let mut i: usize = 0;
    while i < streams.len()
        invariant
            i <= streams@.len(),
            all == receipts_by_stream(streams@),
            count == candidates(all, keep_latest, opt_str(older_than), i as nat),
        decreases streams@.len() - i,
    {
        let more: usize = count_in_stream(&streams[i], keep_latest, older_than);
        match count.checked_add(more) {
            Some(n) => {
                count = n;
            },
            None => {
                proof {
                    candidates_grow(
                        all,
                        keep_latest,
                        opt_str(older_than),
                        (i + 1) as nat,
                        streams@.len(),
                    );
                }
                return None;
            },
        }
        i += 1;
    }
    Some(count)
}

/// More streams never have fewer candidates.
proof fn candidates_grow(
    streams: Seq<Seq<WitnessLogRow>>,
    keep_latest: Option<usize>,
    older_than: Option<Seq<char>>,
    n: nat,
    m: nat,
)
    requires
        n <= m,
    ensures
        candidates(streams, keep_latest, older_than, n) <= candidates(
            streams,
            keep_latest,
            older_than,
            m,
        ),
    decreases m,
{
    if n < m {
        candidates_grow(streams, keep_latest, older_than, n, (m - 1) as nat);
    }
}

/// The outcome of a clean-up as it is printed.
pub open spec fn gc_text(streams_scanned: usize, receipts: usize, dry_run: bool) -> Seq<char> {
    (if dry_run {
        "dry-run: would delete "@
    } else {
        "deleted "@
    }) + decimal(receipts as nat) + " receipt(s) across "@ + decimal(streams_scanned as nat)
        + " stream(s)\n"@
}

/// Prints the outcome of a clean-up.
pub fn witness_gc_report(streams_scanned: usize, receipts: usize, dry_run: bool) -> (s: String)
    ensures
        s@ == gc_text(streams_scanned, receipts, dry_run),
{
    let mut s = String::new();
    s.append(
        if dry_run {
            "dry-run: would delete "
        } else {
            "deleted "
        },
    );
    push_decimal(&mut s, receipts as u64);
    s.append(" receipt(s) across ");
    push_decimal(&mut s, streams_scanned as u64);
    s.append(" stream(s)\n");
    assert(s@ =~= gc_text(streams_scanned, receipts, dry_run));
    s
}

/// What is logged of a clean-up.
pub open spec fn gc_fields(
    deleted: usize,
    keep_latest: Option<usize>,
    older_than: Option<Seq<char>>,
) -> Seq<FieldView> {
    seq![
        number_view("deleted"@, deleted as u64),
        FieldView {
            group: None,
            name: "keep_latest"@,
            value: match keep_latest {
                Some(k) => LeafView::Number(k as u64),
                None => LeafView::Nothing,
            },
        },
        opt_view("older_than"@, older_than),
    ]
}

/// What is logged of a clean-up.
pub fn gc_details(
    deleted: usize,
    keep_latest: Option<usize>,
    older_than: Option<&str>,
) -> (s: String)
    ensures
        s@ == json_object(gc_fields(deleted, keep_latest, opt_str(older_than))),
{
    let kept = JsonField {
        group: None,
        name: "keep_latest".to_owned(),
        value: match keep_latest {
            Some(k) => JsonLeaf::Number(k as u64),
            None => JsonLeaf::Nothing,
        },
    };
    let cutoff: Option<String> = match older_than {
        Some(t) => Some(t.to_owned()),
        None => None,
    };
    let gone = number_field("deleted", deleted as u64);
    let limit = opt_field("older_than", &cutoff);
    assert(seq![gone@, kept@, limit@] =~= gc_fields(deleted, keep_latest, opt_str(older_than)));
    object3(gone, kept, limit)
}

/// What a witness is given.
#[derive(Debug)]
pub struct WitnessSubmission {
    pub stream_id: String,
    pub segment_id: u64,
    pub seq_start: u64,
    pub seq_end: u64,
    pub checkpoint_hash_hex: String,
    pub signature_hex: String,
    pub signer_identity: String,
}

/// A row records a submission.
pub open spec fn records(row: WitnessLogRow, sub: WitnessSubmission, received_at: Seq<char>) -> bool {
    &&& row.id is None
    &&& row.stream_id@ == sub.stream_id@
    &&& row.segment_id == sub.segment_id
    &&& row.seq_start == sub.seq_start
    &&& row.seq_end == sub.seq_end
    &&& row.checkpoint_hash_hex@ == sub.checkpoint_hash_hex@
    &&& row.signature_hex@ == sub.signature_hex@
    &&& row.signer_identity@ == sub.signer_identity@
    &&& row.received_at@ == received_at
}

/// The row that records a submission, which the log gives its identifier.
pub fn to_witness_row(sub: WitnessSubmission, received_at: &str) -> (row: WitnessLogRow)
    ensures
        records(row, sub, received_at@),
{
    WitnessLogRow {
        id: None,
        stream_id: sub.stream_id,
        segment_id: sub.segment_id,
        seq_start: sub.seq_start,
        seq_end: sub.seq_end,
        checkpoint_hash_hex: sub.checkpoint_hash_hex,
        signature_hex: sub.signature_hex,
        signer_identity: sub.signer_identity,
        received_at: received_at.to_owned(),
    }
}

/// What is logged of a recorded submission.
pub fn record_details(segment_id: u64, row_id: u64) -> (s: String)
    ensures
        s@ == json_object(
            seq![number_view("segment_id"@, segment_id), number_view("row_id"@, row_id)],
        ),
{
    object2(number_field("segment_id", segment_id), number_field("row_id", row_id))
}

} // verus!
