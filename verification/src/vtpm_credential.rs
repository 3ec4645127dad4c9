//! The endorsement of a virtual TPM by a hardware TPM.
//!
//! The attestation key of a hardware TPM signs a small statement of identity.
//! The credential that holds statement and signature travels with the virtual
//! TPM; the hardware is needed again only to verify it.
use vstd::prelude::*;
use vstd::string::*;
use vstd::utf8::*;

use crate::commands::common::copy_bytes;
use crate::failure::Failure;
use crate::hex::{hex_bytes, hex_encode, hex_round_trip, hex_text, hex_to_bytes, HexError};
use crate::text::{decimal, opt_bytes, push_decimal, views};

verus! {

/// The version of the credentials that are written and accepted.
pub const VTPM_CREDENTIAL_VERSION: u8 = 1;

// ---------------------------------------------------------------------------
// CBOR
// ---------------------------------------------------------------------------

/// A value in a CBOR map.
#[derive(Debug)]
pub enum CborValue {
    Text(String),
    /// A list of small numbers.
    Numbers(Vec<u8>),
}

pub ghost enum CborView {
    Text(Seq<char>),
    Numbers(Seq<u8>),
}

impl View for CborValue {
    type V = CborView;

    open spec fn view(&self) -> CborView {
        match self {
            CborValue::Text(s) => CborView::Text(s@),
            CborValue::Numbers(v) => CborView::Numbers(v@),
        }
    }
}

/// An entry of a CBOR map.
#[derive(Debug)]
pub struct CborEntry {
    pub name: String,
    pub value: CborValue,
}

impl View for CborEntry {
    type V = (Seq<char>, CborView);

    open spec fn view(&self) -> (Seq<char>, CborView) {
        (self.name@, self.value@)
    }
}

/// The views of the entries of a CBOR map.
pub open spec fn entry_views(s: Seq<CborEntry>) -> Seq<(Seq<char>, CborView)> {
    Seq::new(s.len(), |i: int| s[i]@)
}

/// The CBOR bytes of a map with these entries.
pub uninterp spec fn cbor_map(entries: Seq<(Seq<char>, CborView)>) -> Seq<u8>;

/// The bytes are those of a map with these entries and of no other.
pub open spec fn bytes_fix(bytes: Seq<u8>, entries: Seq<(Seq<char>, CborView)>) -> bool {
    forall|other: Seq<(Seq<char>, CborView)>|
        #[trigger] cbor_map(other) == bytes ==> other == entries
}

/// `ciborium::into_writer` of a map: bytes that depend on the entries alone and
/// that no other entries give, as every text and list is written after its
/// length. Writing to memory does not fail.
#[verifier::external_body]
fn cbor_bytes(entries: &Vec<CborEntry>) -> (r: Option<Vec<u8>>)
    ensures
        r is Some,
        r->0@ == cbor_map(entry_views(entries@)),
        bytes_fix(r->0@, entry_views(entries@)),
{
    let pairs = entries.iter().map(|e| {
        let value = match &e.value {
            CborValue::Text(s) => ciborium::Value::Text(s.clone()),
            CborValue::Numbers(v) => v.iter().map(|b| ciborium::Value::from(*b)).collect::<Vec<_>>().into(),
        };
        (ciborium::Value::Text(e.name.clone()), value)
    });
    let mut bytes = Vec::new();
    ciborium::into_writer(&ciborium::Value::Map(pairs.collect()), &mut bytes).ok()?;
    Some(bytes)
}

// ---------------------------------------------------------------------------
// The statement of identity
// ---------------------------------------------------------------------------

/// The statement of identity that the hardware TPM signs.
#[derive(Debug)]
pub struct VtpmIdentity {
    pub instance_id: String,
    pub created_at: String,
    pub vtpm_label: String,
    /// The attestation key of the virtual TPM, where the endorsement is to
    /// cover the key that signs quotes. A statement without one reads as if
    /// there were no such field.
    pub ak_public: Option<Vec<u8>>,
}

#[verifier::ext_equal]
pub ghost struct StatementView {
    pub instance_id: Seq<char>,
    pub created_at: Seq<char>,
    pub vtpm_label: Seq<char>,
    pub ak_public: Option<Seq<u8>>,
}

impl View for VtpmIdentity {
    type V = StatementView;

    open spec fn view(&self) -> StatementView {
        StatementView {
            instance_id: self.instance_id@,
            created_at: self.created_at@,
            vtpm_label: self.vtpm_label@,
            ak_public: opt_bytes(self.ak_public),
        }
    }
}

impl StatementView {
    /// The entries that are signed.
    pub open spec fn entries(self) -> Seq<(Seq<char>, CborView)> {
        seq![
            ("instance_id"@, CborView::Text(self.instance_id)),
            ("created_at"@, CborView::Text(self.created_at)),
            ("vtpm_label"@, CborView::Text(self.vtpm_label)),
        ] + match self.ak_public {
            Some(ak) => seq![("ak_public"@, CborView::Numbers(ak))],
            None => Seq::empty(),
        }
    }

    /// The bytes that are signed.
    pub open spec fn signed(self) -> Seq<u8> {
        cbor_map(self.entries())
    }
}

impl VtpmIdentity {
    /// A statement that covers no attestation key.
    pub fn new(instance_id: String, created_at: String, vtpm_label: String) -> (i: VtpmIdentity)
        ensures
            i@ == (StatementView {
                instance_id: instance_id@,
                created_at: created_at@,
                vtpm_label: vtpm_label@,
                ak_public: None,
            }),
    {
        VtpmIdentity { instance_id, created_at, vtpm_label, ak_public: None }
    }

    /// The statement, made to cover an attestation key.
    pub fn with_ak(self, ak_public: Vec<u8>) -> (i: VtpmIdentity)
        ensures
            i@ == (StatementView { ak_public: Some(ak_public@), ..self@ }),
    {
        let mut i = self;
        i.ak_public = Some(ak_public);
        i
    }

    /// A copy.
    pub fn copy(&self) -> (i: VtpmIdentity)
        ensures
            i@ == self@,
    {
        VtpmIdentity {
            instance_id: self.instance_id.clone(),
            created_at: self.created_at.clone(),
            vtpm_label: self.vtpm_label.clone(),
            ak_public: match &self.ak_public {
                Some(ak) => Some(copy_bytes(ak)),
                None => None,
            },
        }
    }

    /// The bytes that are signed. No other statement has them.
    pub fn to_signed_bytes(&self) -> (r: Result<Vec<u8>, Failure>)
        ensures
            r matches Ok(b) && b@ == self@.signed() && bytes_fix(b@, self@.entries()),
    {
        let mut v: Vec<CborEntry> = Vec::new();
        v.push(
            CborEntry {
                name: "instance_id".to_owned(),
                value: CborValue::Text(self.instance_id.clone()),
            },
        );
        v.push(
            CborEntry {
                name: "created_at".to_owned(),
                value: CborValue::Text(self.created_at.clone()),
            },
        );
        v.push(
            CborEntry {
                name: "vtpm_label".to_owned(),
                value: CborValue::Text(self.vtpm_label.clone()),
            },
        );
        match &self.ak_public {
            Some(ak) => {
                v.push(
                    CborEntry {
                        name: "ak_public".to_owned(),
                        value: CborValue::Numbers(copy_bytes(ak)),
                    },
                );
            },
            None => {},
        }
        assert(entry_views(v@) =~= self@.entries());
        match cbor_bytes(&v) {
            Some(b) => Ok(b),
            None => Err(Failure::new("encode identity: out of memory")),
        }
    }
}

/// Different statements have different entries: each field is covered by what
/// is signed, the attestation key among them.
pub proof fn statements_differ(a: StatementView, b: StatementView)
    requires
        a != b,
    ensures
        a.entries() != b.entries(),
{
    let x = a.entries();
    let y = b.entries();
    if x == y {
        assert(x[0] == ("instance_id"@, CborView::Text(a.instance_id)));
        assert(y[0] == ("instance_id"@, CborView::Text(b.instance_id)));
        assert(x[1] == ("created_at"@, CborView::Text(a.created_at)));
        assert(y[1] == ("created_at"@, CborView::Text(b.created_at)));
        assert(x[2] == ("vtpm_label"@, CborView::Text(a.vtpm_label)));
        assert(y[2] == ("vtpm_label"@, CborView::Text(b.vtpm_label)));
        match (a.ak_public, b.ak_public) {
            (Some(p), Some(q)) => {
                assert(x[3] == ("ak_public"@, CborView::Numbers(p)));
                assert(y[3] == ("ak_public"@, CborView::Numbers(q)));
            },
            (None, None) => {},
            (Some(p), None) => {
                assert(x.len() == 4 && y.len() == 3);
            },
            (None, Some(q)) => {
                assert(x.len() == 3 && y.len() == 4);
            },
        }
        assert(a =~= b);
    }
}

// ---------------------------------------------------------------------------
// The credential
// ---------------------------------------------------------------------------

/// The credential as it is kept.
#[derive(Debug)]
pub struct VtpmCredential {
    pub version: u8,
    pub identity: VtpmIdentity,
    pub hw_backend_label: String,
    pub signed_data: Vec<u8>,
    pub hw_ak_pub: Vec<u8>,
    pub signature: Vec<u8>,
}

pub ghost struct CredentialView {
    pub version: u8,
    pub identity: StatementView,
    pub hw_backend_label: Seq<char>,
    pub signed_data: Seq<u8>,
    pub hw_ak_pub: Seq<u8>,
    pub signature: Seq<u8>,
}

impl View for VtpmCredential {
    type V = CredentialView;

    open spec fn view(&self) -> CredentialView {
        CredentialView {
            version: self.version,
            identity: self.identity@,
            hw_backend_label: self.hw_backend_label@,
            signed_data: self.signed_data@,
            hw_ak_pub: self.hw_ak_pub@,
            signature: self.signature@,
        }
    }
}

impl CredentialView {
    /// A credential of the one version, with the bytes that its own statement
    /// is signed as.
    pub open spec fn sound(self) -> bool {
        self.version == VTPM_CREDENTIAL_VERSION && self.signed_data == self.identity.signed()
    }

    /// A credential that was accepted: the bytes that were signed are those of
    /// its statement and of no other.
    pub open spec fn accepted(self) -> bool {
        self.sound() && bytes_fix(self.signed_data, self.identity.entries())
    }
}

/// Two byte strings are equal.
fn equal_bytes(a: &Vec<u8>, b: &Vec<u8>) -> (r: bool)
    ensures
        r == (a@ == b@),
{
    if a.len() != b.len() {
        return false;
    }
    let mut i: usize = 0;
    while i < a.len()
        invariant
            i <= a@.len() == b@.len(),
            forall|k: int| 0 <= k < i ==> a@[k] == b@[k],
        decreases a@.len() - i,
    {
        if a[i] != b[i] {
            return false;
        }
        i += 1;
    }
    assert(a@ =~= b@);
    true
}

impl VtpmCredential {
    /// The credential of a statement that the hardware has signed.
    pub fn new(
        identity: VtpmIdentity,
        hw_backend_label: String,
        hw_ak_pub: Vec<u8>,
        signature: Vec<u8>,
    ) -> (r: Result<VtpmCredential, Failure>)
        ensures
            r matches Ok(c) && c@ == (CredentialView {
                version: VTPM_CREDENTIAL_VERSION,
                identity: identity@,
                hw_backend_label: hw_backend_label@,
                signed_data: identity@.signed(),
                hw_ak_pub: hw_ak_pub@,
                signature: signature@,
            }) && c@.accepted(),
    {
        let signed_data = identity.to_signed_bytes()?;
        Ok(
            VtpmCredential {
                version: VTPM_CREDENTIAL_VERSION,
                identity,
                hw_backend_label,
                signed_data,
                hw_ak_pub,
                signature,
            },
        )
    }

    /// Accepts a credential that was read, if it is sound.
    pub fn load(self) -> (r: Result<VtpmCredential, Failure>)
        ensures
            match r {
                Ok(c) => self@.sound() && c@ == self@ && c@.accepted(),
                Err(e) => if self@.version != VTPM_CREDENTIAL_VERSION {
                    e@ == "unsupported vTPM credential version "@ + decimal(self@.version as nat)
                        + " (expected 1)"@
                } else {
                    self@.signed_data != self@.identity.signed() && e@
                        == "credential signed_data does not match identity fields"@
                },
            },
    {
        if self.version != VTPM_CREDENTIAL_VERSION {
            let mut v = String::new();
            push_decimal(&mut v, self.version as u64);
            assert(v@ =~= decimal(self.version as nat));
            return Err(
                Failure::around(
                    "unsupported vTPM credential version ",
                    v.as_str(),
                    " (expected 1)",
                ),
            );
        }
        let recomputed = self.identity.to_signed_bytes()?;
        if !equal_bytes(&recomputed, &self.signed_data) {
            return Err(Failure::new("credential signed_data does not match identity fields"));
        }
        Ok(self)
    }
}

/// A credential whose statement was changed after it was signed is not accepted.
pub proof fn changed_statement_is_refused(c: CredentialView, other: StatementView)
    requires
        c.accepted(),
        other != c.identity,
    ensures
        !(CredentialView { identity: other, ..c }).accepted(),
{
    statements_differ(c.identity, other);
}

/// The signed bytes of an accepted credential fix its statement.
pub proof fn signed_bytes_fix_statement(c: CredentialView, d: CredentialView)
    requires
        c.accepted(),
        d.accepted(),
        c.signed_data == d.signed_data,
    ensures
        c.identity == d.identity,
{
    if c.identity != d.identity {
        statements_differ(c.identity, d.identity);
    }
}

// ---------------------------------------------------------------------------
// Bytes in a credential file
// ---------------------------------------------------------------------------

/// Bytes as a credential file holds them.
pub fn serialize(v: &Vec<u8>) -> (s: String)
    ensures
        s@ == hex_text(v@),
{
    hex_encode(v.as_slice())
}

/// The bytes that a text in a credential file stands for.
pub fn deserialize(s: &str) -> (r: Result<Vec<u8>, Failure>)
    ensures
        match hex_bytes(encode_utf8(s@)) {
            Ok(b) => r matches Ok(v) && v@ == b,
            Err(HexError::OddLength) => r matches Err(e) && e@ == "odd hex length"@,
            Err(HexError::InvalidDigit) => r matches Err(e) && e@
                == "bad hex: invalid digit found in string"@,
        },
{
    match hex_to_bytes(s) {
        Ok(v) => Ok(v),
        Err(HexError::OddLength) => Err(Failure::new("odd hex length")),
        Err(HexError::InvalidDigit) => Err(Failure::new("bad hex: invalid digit found in string")),
    }
}

/// Bytes in a credential file read back as they were written.
pub proof fn credential_bytes_read_back(v: Seq<u8>)
    ensures
        hex_bytes(encode_utf8(hex_text(v))) == Ok::<Seq<u8>, HexError>(v),
{
    hex_round_trip(v);
}

// ---------------------------------------------------------------------------
// The place
// ---------------------------------------------------------------------------

/// The parts of the path at which a credential lies if no place is named,
/// given the data directory and the home directory of the environment.
pub open spec fn default_place(data: Option<Seq<char>>, home: Option<Seq<char>>) -> Seq<Seq<char>> {
    match (data, home) {
        (Some(d), _) => seq![d, "tpm"@, "vtpm-credential.json"@],
        (None, Some(h)) => seq![h, ".local"@, "share"@, "tpm"@, "vtpm-credential.json"@],
        (None, None) => seq!["vtpm-credential.json"@],
    }
}

/// The parts of the path at which a credential lies if no place is named.
pub fn default_credential_path(data: Option<&str>, home: Option<&str>) -> (v: Vec<String>)
    ensures
        views(v@) == default_place(crate::text::opt_str(data), crate::text::opt_str(home)),
{
    let mut v: Vec<String> = Vec::new();
    match data {
        Some(d) => {
            v.push(d.to_owned());
            v.push("tpm".to_owned());
        },
        None => match home {
            Some(h) => {
                v.push(h.to_owned());
                v.push(".local".to_owned());
                v.push("share".to_owned());
                v.push("tpm".to_owned());
            },
            None => {},
        },
    }
    v.push("vtpm-credential.json".to_owned());
    assert(views(v@) =~= default_place(
        crate::text::opt_str(data),
        crate::text::opt_str(home),
    ));
    v
}

} // verus!
