//! The objects that a workspace keeps, and what a backend hands out.
//!
//! Every entity has a view made of plain mathematical values, in which the
//! contracts of the store and of the commands are written. Identifiers are
//! 128-bit numbers; points in time are RFC 3339 texts; metadata is JSON text.
use vstd::prelude::*;
use vstd::string::*;

use crate::text::{chars_of, opt_bytes, opt_text, same};

verus! {

// ---------------------------------------------------------------------------
// Names
// ---------------------------------------------------------------------------

/// Key algorithms.
#[derive(Clone, Copy, PartialEq, Eq, Debug, Structural)]
pub enum Algorithm {
    EccP256,
    EccP384,
    Rsa2048,
    Rsa3072,
}

impl Algorithm {
    /// The name under which the algorithm is shown and chosen.
    pub open spec fn text(self) -> Seq<char> {
        match self {
            Algorithm::EccP256 => "ecc-p256"@,
            Algorithm::EccP384 => "ecc-p384"@,
            Algorithm::Rsa2048 => "rsa2048"@,
            Algorithm::Rsa3072 => "rsa3072"@,
        }
    }

    /// The name of the algorithm.
    pub fn name(self) -> (s: &'static str)
        ensures
            s@ == self.text(),
    {
        match self {
            Algorithm::EccP256 => "ecc-p256",
            Algorithm::EccP384 => "ecc-p384",
            Algorithm::Rsa2048 => "rsa2048",
            Algorithm::Rsa3072 => "rsa3072",
        }
    }

    /// The algorithm of that name.
    pub open spec fn named(s: Seq<char>) -> Option<Algorithm> {
        if s == "ecc-p256"@ {
            Some(Algorithm::EccP256)
        } else if s == "ecc-p384"@ {
            Some(Algorithm::EccP384)
        } else if s == "rsa2048"@ {
            Some(Algorithm::Rsa2048)
        } else if s == "rsa3072"@ {
            Some(Algorithm::Rsa3072)
        } else {
            None
        }
    }

    /// The algorithm of that name.
    pub fn parse(s: &str) -> (r: Option<Algorithm>)
        ensures
            r == Algorithm::named(s@),
    {
        if same(s, "ecc-p256") {
            Some(Algorithm::EccP256)
        } else if same(s, "ecc-p384") {
            Some(Algorithm::EccP384)
        } else if same(s, "rsa2048") {
            Some(Algorithm::Rsa2048)
        } else if same(s, "rsa3072") {
            Some(Algorithm::Rsa3072)
        } else {
            None
        }
    }

    /// Every algorithm, in the order in which they are listed.
    pub fn all() -> (v: Vec<Algorithm>)
        ensures
            v@ == seq![
                Algorithm::EccP256,
                Algorithm::EccP384,
                Algorithm::Rsa2048,
                Algorithm::Rsa3072,
            ],
    {
        let mut v: Vec<Algorithm> = Vec::new();
        v.push(Algorithm::EccP256);
        v.push(Algorithm::EccP384);
        v.push(Algorithm::Rsa2048);
        v.push(Algorithm::Rsa3072);
        v
    }
}

impl Algorithm {
    /// The name under which the algorithm is stored.
    pub open spec fn stored_text(self) -> Seq<char> {
        match self {
            Algorithm::EccP256 => "ecc_p256"@,
            Algorithm::EccP384 => "ecc_p384"@,
            Algorithm::Rsa2048 => "rsa2048"@,
            Algorithm::Rsa3072 => "rsa3072"@,
        }
    }

    /// The name under which the algorithm is stored.
    pub fn stored_name(self) -> (s: &'static str)
        ensures
            s@ == self.stored_text(),
    {
        match self {
            Algorithm::EccP256 => "ecc_p256",
            Algorithm::EccP384 => "ecc_p384",
            Algorithm::Rsa2048 => "rsa2048",
            Algorithm::Rsa3072 => "rsa3072",
        }
    }

    /// The algorithm that is stored under a name.
    pub open spec fn stored(s: Seq<char>) -> Option<Algorithm> {
        if s == "ecc_p256"@ {
            Some(Algorithm::EccP256)
        } else if s == "ecc_p384"@ {
            Some(Algorithm::EccP384)
        } else if s == "rsa2048"@ {
            Some(Algorithm::Rsa2048)
        } else if s == "rsa3072"@ {
            Some(Algorithm::Rsa3072)
        } else {
            None
        }
    }

    /// Reads the name under which an algorithm is stored.
    pub fn from_stored(s: &str) -> (r: Option<Algorithm>)
        ensures
            r == Algorithm::stored(s@),
    {
        if same(s, "ecc_p256") {
            Some(Algorithm::EccP256)
        } else if same(s, "ecc_p384") {
            Some(Algorithm::EccP384)
        } else if same(s, "rsa2048") {
            Some(Algorithm::Rsa2048)
        } else if same(s, "rsa3072") {
            Some(Algorithm::Rsa3072)
        } else {
            None
        }
    }
}

/// A stored algorithm reads back as itself.
pub proof fn stored_algorithm_reads_back(a: Algorithm)
    ensures
        Algorithm::stored(a.stored_text()) == Some(a),
{
    reveal_strlit("ecc_p256");
    reveal_strlit("ecc_p384");
    reveal_strlit("rsa2048");
    reveal_strlit("rsa3072");
    assert("ecc_p256"@[5] != "ecc_p384"@[5]);
    assert("rsa2048"@[3] != "rsa3072"@[3]);
    assert("rsa2048"@.len() != "ecc_p256"@.len());
    assert("rsa2048"@.len() != "ecc_p384"@.len());
    assert("rsa3072"@.len() != "ecc_p256"@.len());
    assert("rsa3072"@.len() != "ecc_p384"@.len());
}

/// The name of an algorithm chooses that algorithm.
pub proof fn algorithm_names_read_back(a: Algorithm)
    ensures
        Algorithm::named(a.text()) == Some(a),
{
    reveal_strlit("ecc-p256");
    reveal_strlit("ecc-p384");
    reveal_strlit("rsa2048");
    reveal_strlit("rsa3072");
    assert("ecc-p256"@[5] != "ecc-p384"@[5]);
    assert("rsa2048"@[3] != "rsa3072"@[3]);
    assert("rsa2048"@.len() != "ecc-p256"@.len());
    assert("rsa2048"@.len() != "ecc-p384"@.len());
    assert("rsa3072"@.len() != "ecc-p256"@.len());
    assert("rsa3072"@.len() != "ecc-p384"@.len());
}

/// What an object of a workspace is.
#[derive(Clone, Copy, PartialEq, Eq, Debug, Structural)]
pub enum ObjectKind {
    SigningKey,
    StorageKey,
    AttestationKey,
    SealedBlob,
    NvIndex,
}

impl ObjectKind {
    /// The name under which the kind is shown.
    pub open spec fn text(self) -> Seq<char> {
        match self {
            ObjectKind::SigningKey => "signing-key"@,
            ObjectKind::StorageKey => "storage-key"@,
            ObjectKind::AttestationKey => "attestation-key"@,
            ObjectKind::SealedBlob => "sealed-blob"@,
            ObjectKind::NvIndex => "nv-index"@,
        }
    }

    /// The name of the kind.
    pub fn name(self) -> (s: &'static str)
        ensures
            s@ == self.text(),
    {
        match self {
            ObjectKind::SigningKey => "signing-key",
            ObjectKind::StorageKey => "storage-key",
            ObjectKind::AttestationKey => "attestation-key",
            ObjectKind::SealedBlob => "sealed-blob",
            ObjectKind::NvIndex => "nv-index",
        }
    }

    /// The kind that is stored under a name.
    pub open spec fn stored(s: Seq<char>) -> Option<ObjectKind> {
        if s == "signing-key"@ {
            Some(ObjectKind::SigningKey)
        } else if s == "storage-key"@ {
            Some(ObjectKind::StorageKey)
        } else if s == "attestation-key"@ {
            Some(ObjectKind::AttestationKey)
        } else if s == "sealed-blob"@ {
            Some(ObjectKind::SealedBlob)
        } else if s == "nv-index"@ {
            Some(ObjectKind::NvIndex)
        } else {
            None
        }
    }

    /// Reads the name under which a kind is stored.
    pub fn from_stored(s: &str) -> (r: Option<ObjectKind>)
        ensures
            r == ObjectKind::stored(s@),
    {
        if same(s, "signing-key") {
            Some(ObjectKind::SigningKey)
        } else if same(s, "storage-key") {
            Some(ObjectKind::StorageKey)
        } else if same(s, "attestation-key") {
            Some(ObjectKind::AttestationKey)
        } else if same(s, "sealed-blob") {
            Some(ObjectKind::SealedBlob)
        } else if same(s, "nv-index") {
            Some(ObjectKind::NvIndex)
        } else {
            None
        }
    }

    /// Keys of whatever purpose.
    pub open spec fn is_key(self) -> bool {
        self == ObjectKind::SigningKey || self == ObjectKind::StorageKey || self
            == ObjectKind::AttestationKey
    }

    /// Whether the object is a key.
    pub fn key(self) -> (r: bool)
        ensures
            r == self.is_key(),
    {
        match self {
            ObjectKind::SigningKey | ObjectKind::StorageKey | ObjectKind::AttestationKey => true,
            _ => false,
        }
    }
}

/// A stored kind reads back as itself.
pub proof fn stored_kind_reads_back(k: ObjectKind)
    ensures
        ObjectKind::stored(k.text()) == Some(k),
{
    reveal_strlit("signing-key");
    reveal_strlit("storage-key");
    reveal_strlit("attestation-key");
    reveal_strlit("sealed-blob");
    reveal_strlit("nv-index");
    assert("signing-key"@[1] != "storage-key"@[1]);
    assert("signing-key"@[1] != "sealed-blob"@[1]);
    assert("storage-key"@[1] != "sealed-blob"@[1]);
    assert("attestation-key"@.len() == 15 && "nv-index"@.len() == 8);
    assert("signing-key"@.len() == 11 && "storage-key"@.len() == 11 && "sealed-blob"@.len() == 11);
}

/// The name of a usage chooses that usage.
pub proof fn usage_names_read_back(u: IdentityUsage)
    ensures
        IdentityUsage::named(u.text()) == Some(u),
{
    reveal_strlit("code-signing");
    reveal_strlit("tls");
    reveal_strlit("ssh");
    reveal_strlit("attestation");
    reveal_strlit("generic");
    assert("code-signing"@.len() == 12 && "tls"@.len() == 3 && "ssh"@.len() == 3);
    assert("attestation"@.len() == 11 && "generic"@.len() == 7);
    assert("tls"@[0] != "ssh"@[0]);
}

/// What an identity is used for.
#[derive(Clone, Copy, PartialEq, Eq, Debug, Structural)]
pub enum IdentityUsage {
    CodeSigning,
    Tls,
    Ssh,
    Attestation,
    Generic,
}

impl IdentityUsage {
    /// The name under which the usage is shown and chosen.
    pub open spec fn text(self) -> Seq<char> {
        match self {
            IdentityUsage::CodeSigning => "code-signing"@,
            IdentityUsage::Tls => "tls"@,
            IdentityUsage::Ssh => "ssh"@,
            IdentityUsage::Attestation => "attestation"@,
            IdentityUsage::Generic => "generic"@,
        }
    }

    /// The name of the usage.
    pub fn name(self) -> (s: &'static str)
        ensures
            s@ == self.text(),
    {
        match self {
            IdentityUsage::CodeSigning => "code-signing",
            IdentityUsage::Tls => "tls",
            IdentityUsage::Ssh => "ssh",
            IdentityUsage::Attestation => "attestation",
            IdentityUsage::Generic => "generic",
        }
    }

    /// The usage of that name.
    pub open spec fn named(s: Seq<char>) -> Option<IdentityUsage> {
        if s == "code-signing"@ {
            Some(IdentityUsage::CodeSigning)
        } else if s == "tls"@ {
            Some(IdentityUsage::Tls)
        } else if s == "ssh"@ {
            Some(IdentityUsage::Ssh)
        } else if s == "attestation"@ {
            Some(IdentityUsage::Attestation)
        } else if s == "generic"@ {
            Some(IdentityUsage::Generic)
        } else {
            None
        }
    }

    /// The usage of that name.
    pub fn parse(s: &str) -> (r: Option<IdentityUsage>)
        ensures
            r == IdentityUsage::named(s@),
    {
        if same(s, "code-signing") {
            Some(IdentityUsage::CodeSigning)
        } else if same(s, "tls") {
            Some(IdentityUsage::Tls)
        } else if same(s, "ssh") {
            Some(IdentityUsage::Ssh)
        } else if same(s, "attestation") {
            Some(IdentityUsage::Attestation)
        } else if same(s, "generic") {
            Some(IdentityUsage::Generic)
        } else {
            None
        }
    }
}

/// Where a request for approval stands.
#[derive(Clone, Copy, PartialEq, Eq, Debug, Structural)]
pub enum ApprovalStatus {
    Pending,
    Approved,
    Denied,
    Expired,
}

impl ApprovalStatus {
    /// The name under which the status is shown and stored.
    pub open spec fn text(self) -> Seq<char> {
        match self {
            ApprovalStatus::Pending => "pending"@,
            ApprovalStatus::Approved => "approved"@,
            ApprovalStatus::Denied => "denied"@,
            ApprovalStatus::Expired => "expired"@,
        }
    }

    /// The name of the status.
    pub fn name(self) -> (s: &'static str)
        ensures
            s@ == self.text(),
    {
        match self {
            ApprovalStatus::Pending => "pending",
            ApprovalStatus::Approved => "approved",
            ApprovalStatus::Denied => "denied",
            ApprovalStatus::Expired => "expired",
        }
    }

    /// The status of that stored name; an unknown one counts as pending.
    pub open spec fn stored(s: Seq<char>) -> ApprovalStatus {
        if s == "approved"@ {
            ApprovalStatus::Approved
        } else if s == "denied"@ {
            ApprovalStatus::Denied
        } else if s == "expired"@ {
            ApprovalStatus::Expired
        } else {
            ApprovalStatus::Pending
        }
    }

    /// Reads a stored status.
    pub fn from_stored(s: &str) -> (r: ApprovalStatus)
        ensures
            r == ApprovalStatus::stored(s@),
    {
        if same(s, "approved") {
            ApprovalStatus::Approved
        } else if same(s, "denied") {
            ApprovalStatus::Denied
        } else if same(s, "expired") {
            ApprovalStatus::Expired
        } else {
            ApprovalStatus::Pending
        }
    }
}

/// A stored status reads back as itself.
pub proof fn approval_status_reads_back(s: ApprovalStatus)
    ensures
        ApprovalStatus::stored(s.text()) == s,
{
    reveal_strlit("pending");
    reveal_strlit("approved");
    reveal_strlit("denied");
    reveal_strlit("expired");
    assert("approved"@.len() == 8 && "denied"@.len() == 6 && "expired"@.len() == 7);
    assert("pending"@[0] != "expired"@[0]);
    assert("pending"@.len() == 7);
}

/// Characters that a path segment may hold.
pub open spec fn path_char(c: char) -> bool {
    ('a' <= c <= 'z') || ('A' <= c <= 'Z') || ('0' <= c <= '9') || c == '-' || c == '_'
}

/// A path: one or more segments, none empty, separated by slashes.
pub open spec fn valid_path(s: Seq<char>) -> bool {
    &&& s.len() > 0
    &&& forall|i: int| 0 <= i < s.len() ==> path_char(#[trigger] s[i]) || s[i] == '/'
    &&& s[0] != '/'
    &&& s.last() != '/'
    &&& forall|i: int| 0 <= i < s.len() - 1 ==> !(#[trigger] s[i] == '/' && s[i + 1] == '/')
}

/// The name of an object in its workspace.
#[derive(Clone, Debug)]
pub struct ObjectPath {
    text: String,
}

impl View for ObjectPath {
    type V = Seq<char>;

    closed spec fn view(&self) -> Seq<char> {
        self.text@
    }
}

impl ObjectPath {
    /// Checks a path.
    pub fn new(s: &str) -> (r: Option<ObjectPath>)
        ensures
            r is Some <==> valid_path(s@),
            r matches Some(p) ==> p@ == s@,
    {
        let v = chars_of(s);
        if v.len() == 0 {
            return None;
        }
        let mut i: usize = 0;
        while i < v.len()
            invariant
                i <= v@.len(),
                v@ == s@,
                forall|k: int| 0 <= k < i ==> path_char(#[trigger] s@[k]) || s@[k] == '/',
                i > 0 ==> s@[0] != '/',
                forall|k: int|
                    0 <= k < i - 1 ==> !(#[trigger] s@[k] == '/' && s@[k + 1] == '/'),
            decreases v@.len() - i,
        {
            let c: char = v[i];
            if c == '/' {
                if i == 0 || v[i - 1] == '/' {
                    assert(i > 0 ==> s@[i - 1] == '/' && s@[(i - 1) + 1] == '/');
                    return None;
                }
            } else if !(('a' <= c && c <= 'z') || ('A' <= c && c <= 'Z') || ('0' <= c && c <= '9')
                || c == '-' || c == '_') {
                assert(!path_char(s@[i as int]));
                return None;
            }
            i += 1;
        }
        if v[v.len() - 1] == '/' {
            return None;
        }
        Some(ObjectPath { text: s.to_owned() })
    }

    /// The path as text.
    pub fn as_str(&self) -> (s: &str)
        ensures
            s@ == self@,
    {
        self.text.as_str()
    }

    /// A copy of the path.
    pub fn copy(&self) -> (p: ObjectPath)
        ensures
            p@ == self@,
    {
        ObjectPath { text: self.text.clone() }
    }
}

// ---------------------------------------------------------------------------
// Entities
// ---------------------------------------------------------------------------

/// An object of a workspace: a key, a sealed blob or an NV index.
#[derive(Clone, Debug)]
pub struct TpmObject {
    pub id: u128,
    pub path: ObjectPath,
    pub kind: ObjectKind,
    pub algorithm: Algorithm,
    pub policy_id: Option<u128>,
    pub handle_blob: Option<Vec<u8>>,
    pub created_at: String,
    pub metadata: String,
}

pub ghost struct ObjectView {
    pub id: u128,
    pub path: Seq<char>,
    pub kind: ObjectKind,
    pub algorithm: Algorithm,
    pub policy_id: Option<u128>,
    pub handle_blob: Option<Seq<u8>>,
    pub created_at: Seq<char>,
    pub metadata: Seq<char>,
}

impl View for TpmObject {
    type V = ObjectView;

    open spec fn view(&self) -> ObjectView {
        ObjectView {
            id: self.id,
            path: self.path@,
            kind: self.kind,
            algorithm: self.algorithm,
            policy_id: self.policy_id,
            handle_blob: opt_bytes(self.handle_blob),
            created_at: self.created_at@,
            metadata: self.metadata@,
        }
    }
}

/// A set of defaults, of which one is active.
#[derive(Clone, Debug)]
pub struct Profile {
    pub name: String,
    pub default_algorithm: Algorithm,
    pub default_policy: Option<String>,
    pub is_active: bool,
}

pub ghost struct ProfileView {
    pub name: Seq<char>,
    pub default_algorithm: Algorithm,
    pub default_policy: Option<Seq<char>>,
    pub is_active: bool,
}

impl View for Profile {
    type V = ProfileView;

    open spec fn view(&self) -> ProfileView {
        ProfileView {
            name: self.name@,
            default_algorithm: self.default_algorithm,
            default_policy: opt_text(self.default_policy),
            is_active: self.is_active,
        }
    }
}

impl ProfileView {
    /// The profile that a workspace starts with.
    pub open spec fn builtin_default() -> ProfileView {
        ProfileView {
            name: "default"@,
            default_algorithm: Algorithm::EccP256,
            default_policy: None,
            is_active: true,
        }
    }
}

impl Profile {
    /// The profile that a workspace starts with.
    pub fn builtin_default() -> (p: Profile)
        ensures
            p@ == ProfileView::builtin_default(),
    {
        Profile {
            name: "default".to_owned(),
            default_algorithm: Algorithm::EccP256,
            default_policy: None,
            is_active: true,
        }
    }
}

/// One condition of a policy.
#[derive(Debug)]
pub enum PolicyRule {
    /// The registers of a bank hold their expected values.
    PcrMatch { bank: String, indices: Vec<u32> },
    /// The caller knows the password.
    Password,
}

pub ghost enum RuleView {
    PcrMatch { bank: Seq<char>, indices: Seq<u32> },
    Password,
}

impl View for PolicyRule {
    type V = RuleView;

    open spec fn view(&self) -> RuleView {
        match self {
            PolicyRule::PcrMatch { bank, indices } => RuleView::PcrMatch {
                bank: bank@,
                indices: indices@,
            },
            PolicyRule::Password => RuleView::Password,
        }
    }
}

/// A named list of conditions.
#[derive(Debug)]
pub struct Policy {
    pub id: u128,
    pub name: String,
    pub rules: Vec<PolicyRule>,
}

pub ghost struct PolicyView {
    pub id: u128,
    pub name: Seq<char>,
    pub rules: Seq<RuleView>,
}

/// The views of a list of rules.
pub open spec fn rule_views(rules: Seq<PolicyRule>) -> Seq<RuleView> {
    rules.map_values(|r: PolicyRule| r@)
}

impl View for Policy {
    type V = PolicyView;

    open spec fn view(&self) -> PolicyView {
        PolicyView { id: self.id, name: self.name@, rules: rule_views(self.rules@) }
    }
}

/// A reserved piece of NV storage and what was written to it.
#[derive(Debug)]
pub struct NvSlot {
    pub name: String,
    pub nv_index: u32,
    pub size: usize,
    pub data: Option<Vec<u8>>,
}

pub ghost struct NvView {
    pub name: Seq<char>,
    pub nv_index: u32,
    pub size: usize,
    pub data: Option<Seq<u8>>,
}

impl View for NvSlot {
    type V = NvView;

    open spec fn view(&self) -> NvView {
        NvView {
            name: self.name@,
            nv_index: self.nv_index,
            size: self.size,
            data: opt_bytes(self.data),
        }
    }
}

/// Register values that were saved under a name, as JSON text.
#[derive(Debug)]
pub struct PcrBaseline {
    pub name: String,
    pub bank: String,
    pub values: String,
}

pub ghost struct BaselineView {
    pub name: Seq<char>,
    pub bank: Seq<char>,
    pub values: Seq<char>,
}

impl View for PcrBaseline {
    type V = BaselineView;

    open spec fn view(&self) -> BaselineView {
        BaselineView { name: self.name@, bank: self.bank@, values: self.values@ }
    }
}

/// An entry of the audit log.
#[derive(Debug)]
pub struct AuditEntry {
    pub id: i64,
    pub timestamp: String,
    pub action: String,
    pub object_path: Option<String>,
    pub details: String,
}

pub ghost struct EntryView {
    pub id: i64,
    pub timestamp: Seq<char>,
    pub action: Seq<char>,
    pub object_path: Option<Seq<char>>,
    pub details: Seq<char>,
}

impl View for AuditEntry {
    type V = EntryView;

    open spec fn view(&self) -> EntryView {
        EntryView {
            id: self.id,
            timestamp: self.timestamp@,
            action: self.action@,
            object_path: opt_text(self.object_path),
            details: self.details@,
        }
    }
}

/// A request that someone has to approve.
#[derive(Clone, Debug)]
pub struct ApprovalRequest {
    pub id: u128,
    pub operation: String,
    pub target: Option<String>,
    pub requester: String,
    pub reason: Option<String>,
    pub status: ApprovalStatus,
    pub created_at: String,
    pub resolved_at: Option<String>,
    pub resolved_by: Option<String>,
}

pub ghost struct ApprovalView {
    pub id: u128,
    pub operation: Seq<char>,
    pub target: Option<Seq<char>>,
    pub requester: Seq<char>,
    pub reason: Option<Seq<char>>,
    pub status: ApprovalStatus,
    pub created_at: Seq<char>,
    pub resolved_at: Option<Seq<char>>,
    pub resolved_by: Option<Seq<char>>,
}

impl View for ApprovalRequest {
    type V = ApprovalView;

    open spec fn view(&self) -> ApprovalView {
        ApprovalView {
            id: self.id,
            operation: self.operation@,
            target: opt_text(self.target),
            requester: self.requester@,
            reason: opt_text(self.reason),
            status: self.status,
            created_at: self.created_at@,
            resolved_at: opt_text(self.resolved_at),
            resolved_by: opt_text(self.resolved_by),
        }
    }
}

/// A key together with its policy, its purpose and perhaps a certificate.
#[derive(Clone, Debug)]
pub struct Identity {
    pub id: u128,
    pub name: String,
    pub key_object_id: u128,
    pub policy_id: Option<u128>,
    pub usage: IdentityUsage,
    pub subject: Option<String>,
    pub certificate_pem: Option<String>,
    pub created_at: String,
    pub rotated_from: Option<u128>,
}

pub ghost struct IdentityView {
    pub id: u128,
    pub name: Seq<char>,
    pub key_object_id: u128,
    pub policy_id: Option<u128>,
    pub usage: IdentityUsage,
    pub subject: Option<Seq<char>>,
    pub certificate_pem: Option<Seq<char>>,
    pub created_at: Seq<char>,
    pub rotated_from: Option<u128>,
}

impl View for Identity {
    type V = IdentityView;

    open spec fn view(&self) -> IdentityView {
        IdentityView {
            id: self.id,
            name: self.name@,
            key_object_id: self.key_object_id,
            policy_id: self.policy_id,
            usage: self.usage,
            subject: opt_text(self.subject),
            certificate_pem: opt_text(self.certificate_pem),
            created_at: self.created_at@,
            rotated_from: self.rotated_from,
        }
    }
}

// ---------------------------------------------------------------------------
// Backends
// ---------------------------------------------------------------------------

/// What a backend says of itself.
#[derive(Debug)]
pub struct BackendStatus {
    pub backend_type: String,
    pub manufacturer: String,
    pub firmware_version: String,
    pub available: bool,
}

/// A key as the backend knows it.
#[derive(Clone, Debug)]
pub struct KeyHandle {
    pub id: Vec<u8>,
    pub path: String,
}

/// Sealed data as the backend gives it out.
#[derive(Debug)]
pub struct SealedData {
    pub blob: Vec<u8>,
    pub policy_digest: Option<Vec<u8>>,
}

/// The value of one platform configuration register.
#[derive(Debug)]
pub struct PcrValue {
    pub bank: String,
    pub index: u32,
    pub digest: Vec<u8>,
}

/// A signed statement about register values.
#[derive(Debug)]
pub struct QuoteData {
    pub attestation: Vec<u8>,
    pub signature: Vec<u8>,
    pub pcr_values: Vec<PcrValue>,
    pub nonce: Vec<u8>,
    pub ak_public: Vec<u8>,
}

/// One register of a quote beside its current value.
#[derive(Debug)]
pub struct PcrMatchResult {
    pub index: u32,
    pub bank: String,
    pub expected: String,
    pub actual: String,
    pub matches: bool,
}

/// The verdict on a quote.
#[derive(Debug)]
pub struct QuoteVerification {
    pub signature_valid: bool,
    pub nonce_matches: bool,
    pub pcr_matches: Vec<PcrMatchResult>,
    pub verified: bool,
}

} // verus!
