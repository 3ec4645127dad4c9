//! Attestation: keys, quotes and their verification.
use vstd::prelude::*;
use vstd::string::*;
use vstd::utf8::*;

use crate::clock::{fresh_id, now, Moment};
use crate::commands::audit::SegmentInfo;
use crate::commands::common::{
    add_object, added_and_logged, copy_bytes, numbers, push_numbers, user_algorithm, user_path,
};
use crate::diag::{
    object_already_exists_view, object_not_found_view, type_mismatch_view, DiagCode, DiagView,
    Diagnostic, Severity, TpmError,
};
use crate::failure::Failure;
use crate::hex::{hex_encode, hex_text};
use crate::ids::{id_text, parse_id, uuid_form, uuid_value};
use crate::json::{
    as_number, bytes_text, elements, json_bytes_string, json_elements, json_member, json_number,
    json_object, member, member_text, object1, text_field, text_member, text_view, FieldView,
    JsonField, JsonLeaf, LeafView,
};
use crate::model::{
    valid_path, Algorithm, Identity, KeyHandle, ObjectKind, ObjectPath, ObjectView,
    PcrMatchResult, QuoteData, QuoteVerification, TpmObject,
};
use crate::store::{MemoryStore, StoreState};
use crate::table::{get_ref_id, lookup, lookup_id, present, sorted};
use crate::text::{
    byte_prefix, copy_opt, decimal, field, opt_str, opt_text, or_text, prefix_bytes, push_decimal,
    push_field, push_number, same, views,
};

verus! {

// ---------------------------------------------------------------------------
// Approvals behind a signing key
// ---------------------------------------------------------------------------

/// The policy to which a signing key is bound: which authority approves it and
/// which registers it covers.
#[derive(Debug)]
pub struct AuthorizedPolicy {
    pub authority: String,
    pub bank: String,
    pub indices: Vec<u32>,
}

pub ghost struct AuthorizedView {
    pub authority: Seq<char>,
    pub bank: Seq<char>,
    pub indices: Seq<u32>,
}

impl View for AuthorizedPolicy {
    type V = AuthorizedView;

    open spec fn view(&self) -> AuthorizedView {
        AuthorizedView { authority: self.authority@, bank: self.bank@, indices: self.indices@ }
    }
}

/// The numbers among the first `n` JSON texts, each cut to thirty-two bits.
pub open spec fn numbers_among(s: Seq<Seq<char>>, n: nat) -> Seq<u32>
    decreases n,
{
    if n == 0 {
        Seq::empty()
    } else {
        let before = numbers_among(s, (n - 1) as nat);
        match json_number(s[n - 1]) {
            Some(v) => before.push((v % 0x1_0000_0000) as u32),
            None => before,
        }
    }
}

/// The numbers in a member of a JSON object.
pub open spec fn member_numbers(object: Seq<char>, name: Seq<char>) -> Seq<u32> {
    match json_member(object, name) {
        None => Seq::empty(),
        Some(v) => match json_elements(v) {
            None => Seq::empty(),
            Some(s) => numbers_among(s, s.len()),
        },
    }
}

/// The policy in a key's metadata.
pub open spec fn metadata_policy(metadata: Seq<char>) -> Option<AuthorizedView> {
    match json_member(metadata, "policy_authorize"@) {
        None => None,
        Some(p) => Some(
            AuthorizedView {
                authority: member_text(p, "authority"@, "?"@),
                bank: member_text(p, "bank"@, "sha256"@),
                indices: member_numbers(p, "indices"@),
            },
        ),
    }
}

/// The policy to which a signer's key is bound: the signer is an identity of
/// the store, its key an object of the store.
pub open spec fn signer_policy(s: StoreState, signer: Option<Seq<char>>) -> Option<AuthorizedView> {
    match signer {
        None => None,
        Some(text) => match uuid_value(text) {
            None => None,
            Some(id) => match lookup_id::<Identity>(sorted::<Identity>(s.identities), id) {
                None => None,
                Some(i) => match lookup_id::<TpmObject>(s.objects, i.key_object_id) {
                    None => None,
                    Some(key) => metadata_policy(key.metadata),
                },
            },
        },
    }
}

fn number_members(object: &str, name: &str) -> (r: Vec<u32>)
    ensures
        r@ == member_numbers(object@, name@),
{
    match member(object, name) {
        None => Vec::new(),
        Some(v) => match elements(v.as_str()) {
            None => Vec::new(),
            Some(list) => {
                let mut r: Vec<u32> = Vec::new();
                let mut i: usize = 0;
                while i < list.len()
                    invariant
                        i <= list@.len(),
                        r@ == numbers_among(views(list@), i as nat),
                    decreases list@.len() - i,
                {
                    assert(views(list@)[i as int] == list@[i as int]@);
                    match as_number(list[i].as_str()) {
                        Some(n) => {
                            r.push((n % 0x1_0000_0000) as u32);
                        },
                        None => {},
                    }
                    i += 1;
                }
                assert(views(list@).len() == list@.len());
                r
            },
        },
    }
}

/// Reads the policy out of a key's metadata.
pub fn policy_of_metadata(metadata: &str) -> (r: Option<AuthorizedPolicy>)
    ensures
        match r {
            Some(p) => metadata_policy(metadata@) == Some(p@),
            None => metadata_policy(metadata@) is None,
        },
{
    match member(metadata, "policy_authorize") {
        None => None,
        Some(p) => Some(
            AuthorizedPolicy {
                authority: text_member(p.as_str(), "authority", "?"),
                bank: text_member(p.as_str(), "bank", "sha256"),
                indices: number_members(p.as_str(), "indices"),
            },
        ),
    }
}

/// The policy to which the key of a segment's signer is bound.
pub fn signing_approval_policy(store: &MemoryStore, signer_identity: Option<&str>) -> (r: Option<
    AuthorizedPolicy,
>)
    ensures
        match r {
            Some(p) => signer_policy(store@, opt_str(signer_identity)) == Some(p@),
            None => signer_policy(store@, opt_str(signer_identity)) is None,
        },
{
    let text = match signer_identity {
        None => {
            return None;
        },
        Some(t) => t,
    };
    let id: u128 = match parse_id(text) {
        None => {
            return None;
        },
        Some(i) => i,
    };
    let identities = store.list_identities();
    match get_ref_id(&identities, id) {
        None => None,
        Some(x) => match store.get_object_by_id(x.key_object_id) {
            None => None,
            Some(key) => policy_of_metadata(key.metadata.as_str()),
        },
    }
}

/// An entry of the measurement log, as far as approvals go.
#[derive(Debug)]
pub struct LoggedEvent {
    pub event_type: String,
    pub payload: Vec<u8>,
}

/// The entry approves the policy.
pub open spec fn approves(e: LoggedEvent, want: Seq<char>) -> bool {
    e.event_type@ == "policy.approve"@ && json_bytes_string(e.payload@, "approved_policy"@) == Some(
        want,
    )
}

/// Some entry of the log approves the policy.
pub open spec fn approved_in(rows: Seq<LoggedEvent>, want: Seq<char>) -> bool {
    exists|i: int| 0 <= i < rows.len() && #[trigger] approves(rows[i], want)
}

/// Whether some entry of the log approves a policy.
pub fn approval_logged(rows: &Vec<LoggedEvent>, want: &str) -> (r: bool)
    ensures
        r == approved_in(rows@, want@),
{
    let mut i: usize = rows.len();
    while i > 0
        invariant
            i <= rows@.len(),
            forall|k: int| i <= k < rows@.len() ==> !#[trigger] approves(rows@[k], want@),
        decreases i,
    {
        i -= 1;
        let e = &rows[i];
        if same(e.event_type.as_str(), "policy.approve") {
            match bytes_text(e.payload.as_slice(), "approved_policy") {
                Some(p) => {
                    if same(p.as_str(), want) {
                        assert(approves(rows@[i as int], want@));
                        return true;
                    }
                },
                None => {},
            }
        }
        assert(!approves(rows@[i as int], want@));
    }
    false
}

/// Where a signing key's approval comes from.
#[derive(Debug)]
pub struct ApprovalProvenance {
    pub authority: String,
    pub bank: String,
    pub indices: Vec<u32>,
    pub logged_approved: bool,
}

/// Says whether the measured state that a key is bound to was approved.
/// `live_policy` is the digest of the registers' present state, empty where
/// the backend could not compute it.
pub fn signing_approval_provenance(
    policy: Option<AuthorizedPolicy>,
    live_policy: &[u8],
    rows: &Vec<LoggedEvent>,
) -> (r: Option<ApprovalProvenance>)
    ensures
        match (policy, r) {
            (None, None) => true,
            (Some(p), Some(a)) => a.authority == p.authority && a.bank == p.bank && a.indices
                == p.indices && a.logged_approved == approved_in(rows@, hex_text(live_policy@)),
            _ => false,
        },
{
    match policy {
        None => None,
        Some(p) => {
            let want = hex_encode(live_policy);
            let logged_approved = approval_logged(rows, want.as_str());
            Some(
                ApprovalProvenance {
                    authority: p.authority,
                    bank: p.bank,
                    indices: p.indices,
                    logged_approved,
                },
            )
        },
    }
}

// ---------------------------------------------------------------------------
// Attestation keys
// ---------------------------------------------------------------------------

/// Checks that an attestation key can be created.
pub fn ak_create_check(store: &MemoryStore, name: &str, algorithm: &str) -> (r: Result<
    (ObjectPath, Algorithm),
    Failure,
>)
    ensures
        match r {
            Ok((path, alg)) => valid_path(name@) && path@ == name@ && !present::<TpmObject>(
                store@.objects,
                name@,
            ) && Algorithm::named(algorithm@) == Some(alg),
            Err(e) => if !valid_path(name@) {
                e@ == "invalid object path: "@ + name@
            } else if present::<TpmObject>(store@.objects, name@) {
                e@ == "object already exists: "@ + name@ && e.shown() == object_already_exists_view(
                    name@,
                ).text()
            } else {
                Algorithm::named(algorithm@) is None && e@ == "unknown algorithm: "@ + algorithm@
            },
        },
{
    let path = user_path(name)?;
    if store.get_object(&path).is_some() {
        return Err(TpmError::object_already_exists(name).diagnostic.refuse());
    }
    let alg = user_algorithm(algorithm)?;
    Ok((path, alg))
}

/// An attestation key as the store keeps it.
pub open spec fn ak_object(
    path: Seq<char>,
    algorithm: Algorithm,
    handle: Seq<u8>,
    id: u128,
    created_at: Seq<char>,
) -> ObjectView {
    ObjectView {
        id,
        path,
        kind: ObjectKind::AttestationKey,
        algorithm,
        policy_id: None,
        handle_blob: Some(handle),
        created_at,
        metadata: json_object(seq![text_view("type"@, "attestation_key"@)]),
    }
}

/// A created attestation key as it is printed.
pub open spec fn ak_text(path: Seq<char>, id: u128, algorithm: Algorithm) -> Seq<char> {
    field("attestation key created: "@, path) + field("  id: "@, uuid_form(id)) + field(
        "  algorithm: "@,
        algorithm.text(),
    )
}

/// What the creation of an attestation key does to the store and prints.
pub open spec fn ak_created(
    before: StoreState,
    after: StoreState,
    r: Result<String, Failure>,
    path: Seq<char>,
    algorithm: Algorithm,
    handle: Seq<u8>,
    id: u128,
    created_at: Seq<char>,
    stamp: Seq<char>,
) -> bool {
    match r {
        Ok(s) => !present::<TpmObject>(before.objects, path) && after == added_and_logged(
            before,
            ak_object(path, algorithm, handle, id, created_at),
            "ak.create"@,
            json_object(seq![text_view("algorithm"@, algorithm.text())]),
            stamp,
        ) && s@ == ak_text(path, id, algorithm),
        Err(e) => present::<TpmObject>(before.objects, path) && e@
            == "UNIQUE constraint failed: objects.path"@ && after == before,
    }
}

/// Keeps an attestation key that the TPM has created, under a given identifier and time.
pub fn ak_create_at(
    store: &mut MemoryStore,
    path: ObjectPath,
    algorithm: Algorithm,
    handle: Vec<u8>,
    id: u128,
    at: &Moment,
) -> (r: Result<String, Failure>)
    requires
        old(store)@.wf(),
        old(store)@.can_log(),
    ensures
        final(store)@.wf(),
        ak_created(
            old(store)@,
            final(store)@,
            r,
            path@,
            algorithm,
            handle@,
            id,
            at.rfc3339@,
            at.stamp@,
        ),
{
    let name = path.copy();
    let obj = TpmObject {
        id,
        path,
        kind: ObjectKind::AttestationKey,
        algorithm,
        policy_id: None,
        handle_blob: Some(handle),
        created_at: at.rfc3339.clone(),
        metadata: object1(text_field("type", "attestation_key")),
    };
    let details = object1(text_field("algorithm", algorithm.name()));
    add_object(store, obj, "ak.create", details.as_str(), at.stamp.as_str())?;
    let mut s = String::new();
    push_field(&mut s, "attestation key created: ", name.as_str());
    push_field(&mut s, "  id: ", id_text(id).as_str());
    push_field(&mut s, "  algorithm: ", algorithm.name());
    assert(s@ =~= ak_text(path@, id, algorithm));
    Ok(s)
}

/// Keeps an attestation key that the TPM has created, under a fresh identifier.
pub fn ak_create(
    store: &mut MemoryStore,
    path: ObjectPath,
    algorithm: Algorithm,
    handle: Vec<u8>,
) -> (r: Result<String, Failure>)
    requires
        old(store)@.wf(),
        old(store)@.can_log(),
    ensures
        final(store)@.wf(),
        exists|id: u128, created_at: Seq<char>, stamp: Seq<char>|
            #[trigger] ak_created(
                old(store)@,
                final(store)@,
                r,
                path@,
                algorithm,
                handle@,
                id,
                created_at,
                stamp,
            ),
{
    let id: u128 = fresh_id();
    let at = now();
    ak_create_at(store, path, algorithm, handle, id, &at)
}

// ---------------------------------------------------------------------------
// Quotes
// ---------------------------------------------------------------------------

/// The handle of the attestation key that a quote is asked of.
pub fn quote_key(store: &MemoryStore, ak_name: &str) -> (r: Result<KeyHandle, Failure>)
    ensures
        match r {
            Ok(h) => valid_path(ak_name@) && (lookup::<TpmObject>(
                store@.objects,
                ak_name@,
            ) matches Some(o) && o.kind == ObjectKind::AttestationKey && h.path@ == ak_name@
                && h.id@ == (match o.handle_blob {
                Some(b) => b,
                None => Seq::empty(),
            })),
            Err(e) => if !valid_path(ak_name@) {
                e@ == "invalid object path: "@ + ak_name@
            } else {
                match lookup::<TpmObject>(store@.objects, ak_name@) {
                    None => e@ == object_not_found_view(ak_name@).message && e.shown()
                        == object_not_found_view(ak_name@).text(),
                    Some(o) => {
                        let d = type_mismatch_view(ak_name@, "attestation key"@, o.kind.text());
                        o.kind != ObjectKind::AttestationKey && e@ == d.message && e.shown()
                            == d.text()
                    },
                }
            },
        },
{
    let path = user_path(ak_name)?;
    match store.get_object(&path) {
        None => Err(TpmError::object_not_found(ak_name).diagnostic.refuse()),
        Some(o) => {
            if o.kind != ObjectKind::AttestationKey {
                return Err(
                    TpmError::type_mismatch(ak_name, "attestation key", o.kind.name()).diagnostic.refuse(),
                );
            }
            let id = match &o.handle_blob {
                Some(b) => copy_bytes(b),
                None => Vec::new(),
            };
            Ok(KeyHandle { id, path: ak_name.to_owned() })
        },
    }
}

/// Byte `i` of the nonce that is used where none is given.
pub open spec fn default_nonce_byte(i: int) -> u8 {
    ((i * 0x37 + 0xAB) % 256) as u8
}

/// The nonce of a quote: the given text, or a fixed pattern of thirty-two bytes.
pub open spec fn nonce_of(nonce: Option<Seq<char>>) -> Seq<u8> {
    match nonce {
        Some(n) => encode_utf8(n),
        None => Seq::new(32, |i: int| default_nonce_byte(i)),
    }
}

/// The nonce of a quote.
pub fn quote_nonce(nonce: Option<&str>) -> (r: Vec<u8>)
    ensures
        r@ == nonce_of(opt_str(nonce)),
{
    match nonce {
        Some(n) => n.as_bytes_vec(),
        None => {
            let mut r: Vec<u8> = Vec::new();
            let mut i: u8 = 0;
            while i < 32
                invariant
                    i <= 32,
                    r@ == Seq::new(i as nat, |k: int| default_nonce_byte(k)),
                decreases 32 - i,
            {
                let wide: u32 = i as u32 * 0x37 + 0xAB;
                r.push((wide % 256) as u8);
                i += 1;
                assert(r@ =~= Seq::new(i as nat, |k: int| default_nonce_byte(k)));
            }
            r
        },
    }
}

/// What is known of the agent that signed.
#[derive(Debug)]
pub struct AgentProvenance {
    pub version: Option<String>,
    pub digest: Option<String>,
    pub ima_corroborated: Option<bool>,
}

/// A signed checkpoint that goes with a quote.
#[derive(Debug)]
pub struct MeasurementCheckpoint {
    pub stream: String,
    pub segment_id: u64,
    pub seq_start: u64,
    pub seq_end: u64,
    pub merkle_root: String,
    pub signature: String,
    pub signer_identity: Option<String>,
    pub agent: Option<AgentProvenance>,
    pub approval: Option<ApprovalProvenance>,
}

/// The checkpoint describes the segment.
pub open spec fn describes(c: MeasurementCheckpoint, stream: Seq<char>, seg: SegmentInfo) -> bool {
    &&& c.stream@ == stream
    &&& c.segment_id == seg.segment_id
    &&& c.seq_start == seg.seq_start
    &&& c.seq_end == seg.seq_end
    &&& c.merkle_root@ == hex_text(seg.merkle_root@)
    &&& c.signature@ == hex_text(seg.signature@)
    &&& opt_text(c.signer_identity) == opt_text(seg.signer_identity)
}

/// The checkpoint that goes with a quote: the latest signed segment of the stream.
pub fn quote_checkpoint(
    stream: &str,
    segment: Option<&SegmentInfo>,
    agent: Option<AgentProvenance>,
    approval: Option<ApprovalProvenance>,
) -> (r: Result<MeasurementCheckpoint, Failure>)
    ensures
        match (segment, r) {
            (Some(seg), Ok(c)) => describes(c, stream@, *seg) && c.agent == agent && c.approval
                == approval,
            (None, Err(e)) => e@ == "no signed measurement segment on stream '"@ + stream@
                + "'; run `tpm measure checkpoint` then `tpm measure sign`"@,
            _ => false,
        },
{
    match segment {
        None => Err(
            Failure::around(
                "no signed measurement segment on stream '",
                stream,
                "'; run `tpm measure checkpoint` then `tpm measure sign`",
            ),
        ),
        Some(seg) => Ok(
            MeasurementCheckpoint {
                stream: stream.to_owned(),
                segment_id: seg.segment_id,
                seq_start: seg.seq_start,
                seq_end: seg.seq_end,
                merkle_root: hex_encode(seg.merkle_root.as_slice()),
                signature: hex_encode(seg.signature.as_slice()),
                signer_identity: copy_opt(&seg.signer_identity),
                agent,
                approval,
            },
        ),
    }
}

/// What is logged of a quote.
pub open spec fn quote_fields(bank: Seq<char>, indices: Seq<u32>) -> Seq<FieldView> {
    seq![
        text_view("pcr_bank"@, bank),
        FieldView { group: None, name: "pcr_indices"@, value: LeafView::Numbers(indices) },
    ]
}

/// A quote as it is printed.
pub open spec fn quote_text(
    ak: Seq<char>,
    bank: Seq<char>,
    count: nat,
    nonce: Seq<u8>,
    q: QuoteData,
    root: Option<Seq<char>>,
    output: Option<Seq<char>>,
) -> Seq<char> {
    "quote generated\n"@ + field("  ak:          "@, ak) + field("  PCR bank:    "@, bank) + field(
        "  PCRs:        "@,
        decimal(count),
    ) + field("  nonce:       "@, hex_text(nonce)) + field(
        "  attestation: "@,
        hex_text(q.attestation@),
    ) + field("  signature:   "@, hex_text(q.signature@)) + (match root {
        Some(r) => field("  meas. root:  "@, r),
        None => Seq::empty(),
    }) + (match output {
        Some(f) => field("  written to:  "@, f),
        None => Seq::empty(),
    })
}

/// The root in a checkpoint.
pub open spec fn checkpoint_root(c: Option<MeasurementCheckpoint>) -> Option<Seq<char>> {
    match c {
        Some(m) => Some(m.merkle_root@),
        None => None,
    }
}

/// Logs a quote that was made and prints it.
pub fn quote_at(
    store: &mut MemoryStore,
    ak_name: &str,
    bank: &str,
    indices: &Vec<u32>,
    nonce: &[u8],
    q: &QuoteData,
    checkpoint: &Option<MeasurementCheckpoint>,
    output: Option<&str>,
    stamp: &str,
) -> (s: String)
    requires
        old(store)@.wf(),
        old(store)@.can_log(),
    ensures
        final(store)@.wf(),
        final(store)@ == old(store)@.logged(
            "quote.generate"@,
            Some(ak_name@),
            json_object(quote_fields(bank@, indices@)),
            stamp@,
        ),
        s@ == quote_text(
            ak_name@,
            bank@,
            indices@.len(),
            nonce@,
            *q,
            checkpoint_root(*checkpoint),
            opt_str(output),
        ),
{
    let details = crate::json::object2(
        text_field("pcr_bank", bank),
        JsonField {
            group: None,
            name: "pcr_indices".to_owned(),
            value: JsonLeaf::Numbers(crate::commands::common::copy_numbers(indices)),
        },
    );
    store.log_action_at("quote.generate", Some(ak_name), details.as_str(), stamp);
    let mut s = String::new();
    s.append("quote generated\n");
    push_field(&mut s, "  ak:          ", ak_name);
    push_field(&mut s, "  PCR bank:    ", bank);
    push_number(&mut s, "  PCRs:        ", indices.len() as u64);
    push_field(&mut s, "  nonce:       ", hex_encode(nonce).as_str());
    push_field(&mut s, "  attestation: ", hex_encode(q.attestation.as_slice()).as_str());
    push_field(&mut s, "  signature:   ", hex_encode(q.signature.as_slice()).as_str());
    match checkpoint {
        Some(c) => push_field(&mut s, "  meas. root:  ", c.merkle_root.as_str()),
        None => {},
    }
    match output {
        Some(f) => push_field(&mut s, "  written to:  ", f),
        None => {},
    }
    assert(s@ =~= quote_text(
        ak_name@,
        bank@,
        indices@.len(),
        nonce@,
        *q,
        checkpoint_root(*checkpoint),
        opt_str(output),
    ));
    s
}

/// Logs a quote that was made just now and prints it.
pub fn quote(
    store: &mut MemoryStore,
    ak_name: &str,
    bank: &str,
    indices: &Vec<u32>,
    nonce: &[u8],
    q: &QuoteData,
    checkpoint: &Option<MeasurementCheckpoint>,
    output: Option<&str>,
) -> (s: String)
    requires
        old(store)@.wf(),
        old(store)@.can_log(),
    ensures
        final(store)@.wf(),
        exists|stamp: Seq<char>|
            final(store)@ == #[trigger] old(store)@.logged(
                "quote.generate"@,
                Some(ak_name@),
                json_object(quote_fields(bank@, indices@)),
                stamp,
            ),
        s@ == quote_text(
            ak_name@,
            bank@,
            indices@.len(),
            nonce@,
            *q,
            checkpoint_root(*checkpoint),
            opt_str(output),
        ),
{
    let stamp = crate::clock::now_stamp();
    quote_at(store, ak_name, bank, indices, nonce, q, checkpoint, output, stamp.as_str())
}

// ---------------------------------------------------------------------------
// Verification
// ---------------------------------------------------------------------------

/// The nonce that a quote is verified against: the given text, or the quote's own.
pub fn verify_nonce(nonce: Option<&str>, q: &QuoteData) -> (r: Vec<u8>)
    ensures
        r@ == (match nonce {
            Some(n) => encode_utf8(n@),
            None => q.nonce@,
        }),
{
    match nonce {
        Some(n) => n.as_bytes_vec(),
        None => copy_bytes(&q.nonce),
    }
}

/// A checkpoint together with the verdict on its chain.
#[derive(Debug)]
pub struct MeasurementVerify {
    pub checkpoint: MeasurementCheckpoint,
    /// What is wrong with the chain of checkpoints, if anything.
    pub error: Option<String>,
}

/// The first sixteen bytes of a digest, or all of it.
pub open spec fn short_digest_len(d: Seq<char>) -> int {
    if encode_utf8(d).len() < 16 {
        encode_utf8(d).len() as int
    } else {
        16
    }
}

/// A digest can be shortened: its sixteenth byte ends a character.
pub open spec fn digest_cuts(a: Option<AgentProvenance>) -> bool {
    match a {
        Some(p) => match p.digest {
            Some(d) => is_char_boundary(encode_utf8(d@), short_digest_len(d@)),
            None => true,
        },
        None => true,
    }
}

/// What is said of the agent.
pub open spec fn agent_line(a: AgentProvenance) -> Seq<char> {
    "    agent:     Citadel "@ + or_text(a.version, "?"@) + " ["@ + (match a.digest {
        Some(d) => byte_prefix(d@, short_digest_len(d@)),
        None => "?"@,
    }) + "] — "@ + (match a.ima_corroborated {
        Some(true) => "IMA-corroborated"@,
        Some(false) => "self-attested (NOT IMA-corroborated)"@,
        None => "self-attested"@,
    }) + "\n"@
}

/// What is said of the approval.
pub open spec fn approval_line(a: ApprovalProvenance) -> Seq<char> {
    "    approval:  authorized-by "@ + a.authority@ + " ("@ + a.bank@ + " PCR ["@ + numbers(
        a.indices@,
        ", "@,
    ) + "]) — "@ + (if a.logged_approved {
        "witnessed approval present"@
    } else {
        "NO witnessed approval for current state"@
    }) + "\n"@
}

fn push_agent(out: &mut String, a: &AgentProvenance)
    requires
        digest_cuts(Some(*a)),
    ensures
        final(out)@ == old(out)@ + agent_line(*a),
{
    let ghost start = out@;
    out.append("    agent:     Citadel ");
    out.append(
        match &a.version {
            Some(v) => v.as_str(),
            None => "?",
        },
    );
    out.append(" [");
    match &a.digest {
        Some(d) => {
            let total: usize = d.as_str().as_bytes().len();
            let n: usize = if total < 16 {
                total
            } else {
                16
            };
            out.append(prefix_bytes(d.as_str(), n));
        },
        None => {
            out.append("?");
        },
    }
    out.append("] — ");
    out.append(
        match a.ima_corroborated {
            Some(b) => if b {
                "IMA-corroborated"
            } else {
                "self-attested (NOT IMA-corroborated)"
            },
            None => "self-attested",
        },
    );
    out.append("\n");
    assert(out@ =~= start + agent_line(*a));
}

fn push_approval(out: &mut String, a: &ApprovalProvenance)
    ensures
        final(out)@ == old(out)@ + approval_line(*a),
{
    let ghost start = out@;
    out.append("    approval:  authorized-by ");
    out.append(a.authority.as_str());
    out.append(" (");
    out.append(a.bank.as_str());
    out.append(" PCR [");
    push_numbers(out, &a.indices, ", ");
    out.append("]) — ");
    out.append(
        if a.logged_approved {
            "witnessed approval present"
        } else {
            "NO witnessed approval for current state"
        },
    );
    out.append("\n");
    assert(out@ =~= start + approval_line(*a));
}

/// What is said of a checkpoint.
pub open spec fn checkpoint_part(m: MeasurementVerify) -> Seq<char> {
    let c = m.checkpoint;
    "\n  measurement checkpoint:\n"@ + field("    stream:    "@, c.stream@) + "    segment:   "@
        + decimal(c.segment_id as nat) + " ["@ + decimal(c.seq_start as nat) + ", "@ + decimal(
        c.seq_end as nat,
    ) + "]\n"@ + field("    root:      "@, c.merkle_root@) + (match c.signer_identity {
        Some(id) => field("    signer:    "@, id@),
        None => Seq::empty(),
    }) + field(
        "    checkpoint signature: "@,
        if m.error is None {
            "VERIFIED"@
        } else {
            "FAILED"@
        },
    ) + (match m.error {
        Some(e) => field("    error:     "@, e@),
        None => Seq::empty(),
    }) + (match c.agent {
        Some(a) => agent_line(a),
        None => Seq::empty(),
    }) + (match c.approval {
        Some(a) => approval_line(a),
        None => Seq::empty(),
    })
}

fn checkpoint_part_text(m: &MeasurementVerify) -> (s: String)
    requires
        digest_cuts(m.checkpoint.agent),
    ensures
        s@ == checkpoint_part(*m),
{
    let c = &m.checkpoint;
    let mut s = String::new();
    s.append("\n  measurement checkpoint:\n");
    push_field(&mut s, "    stream:    ", c.stream.as_str());
    s.append("    segment:   ");
    push_decimal(&mut s, c.segment_id);
    s.append(" [");
    push_decimal(&mut s, c.seq_start);
    s.append(", ");
    push_decimal(&mut s, c.seq_end);
    s.append("]\n");
    push_field(&mut s, "    root:      ", c.merkle_root.as_str());
    match &c.signer_identity {
        Some(id) => push_field(&mut s, "    signer:    ", id.as_str()),
        None => {},
    }
    push_field(
        &mut s,
        "    checkpoint signature: ",
        if m.error.is_none() {
            "VERIFIED"
        } else {
            "FAILED"
        },
    );
    match &m.error {
        Some(e) => push_field(&mut s, "    error:     ", e.as_str()),
        None => {},
    }
    match &c.agent {
        Some(a) => push_agent(&mut s, a),
        None => {},
    }
    match &c.approval {
        Some(a) => push_approval(&mut s, a),
        None => {},
    }
    assert(s@ =~= checkpoint_part(*m));
    s
}

/// One register of a verified quote.
pub open spec fn register_line(m: PcrMatchResult) -> Seq<char> {
    "  PCR "@ + m.bank@ + ":"@ + decimal(m.index as nat) + "  "@ + (if m.matches {
        "ok"@
    } else {
        "MISMATCH"@
    }) + "\n"@
}

/// The first `n` registers of a verified quote.
pub open spec fn register_lines(s: Seq<PcrMatchResult>, n: nat) -> Seq<char>
    decreases n,
{
    if n == 0 {
        Seq::empty()
    } else {
        register_lines(s, (n - 1) as nat) + register_line(s[n - 1])
    }
}

/// The verdict on a quote as it is printed.
pub open spec fn verify_text(
    v: QuoteVerification,
    measurement: Option<MeasurementVerify>,
) -> Seq<char> {
    "quote verification\n"@ + field(
        "  signature: "@,
        if v.signature_valid {
            "valid"@
        } else {
            "INVALID"@
        },
    ) + field(
        "  nonce:     "@,
        if v.nonce_matches {
            "matches"@
        } else {
            "MISMATCH"@
        },
    ) + register_lines(v.pcr_matches@, v.pcr_matches@.len()) + (match measurement {
        Some(m) => checkpoint_part(m),
        None => Seq::empty(),
    }) + field(
        "\n  result: "@,
        if v.verified {
            "VERIFIED"@
        } else {
            "FAILED"@
        },
    )
}

/// Prints the verdict on a quote.
pub fn verify(v: &QuoteVerification, measurement: &Option<MeasurementVerify>) -> (s: String)
    requires
        *measurement matches Some(m) ==> digest_cuts(m.checkpoint.agent),
    ensures
        s@ == verify_text(*v, *measurement),
{
    let mut s = String::new();
    s.append("quote verification\n");
    push_field(
        &mut s,
        "  signature: ",
        if v.signature_valid {
            "valid"
        } else {
            "INVALID"
        },
    );
    push_field(
        &mut s,
        "  nonce:     ",
        if v.nonce_matches {
            "matches"
        } else {
            "MISMATCH"
        },
    );
    let ghost start = s@;
    let mut i: usize = 0;
    assert(s@ =~= start + register_lines(v.pcr_matches@, 0));
    while i < v.pcr_matches.len()
        invariant
            i <= v.pcr_matches@.len(),
            s@ == start + register_lines(v.pcr_matches@, i as nat),
        decreases v.pcr_matches@.len() - i,
    {
        let m = &v.pcr_matches[i];
        let ghost before = s@;
        s.append("  PCR ");
        s.append(m.bank.as_str());
        s.append(":");
        push_decimal(&mut s, m.index as u64);
        s.append("  ");
        s.append(
            if m.matches {
                "ok"
            } else {
                "MISMATCH"
            },
        );
        s.append("\n");
        assert(s@ =~= before + register_line(*m));
        i += 1;
        assert(s@ =~= start + register_lines(v.pcr_matches@, i as nat));
    }
    match measurement {
        Some(m) => {
            s.append(checkpoint_part_text(m).as_str());
        },
        None => {},
    }
    push_field(
        &mut s,
        "\n  result: ",
        if v.verified {
            "VERIFIED"
        } else {
            "FAILED"
        },
    );
    assert(s@ =~= verify_text(*v, *measurement));
    s
}

/// The line about a register that does not hold what was quoted.
pub open spec fn mismatch_line(m: PcrMatchResult) -> Seq<char> {
    if m.matches {
        Seq::empty()
    } else {
        "  PCR "@ + m.bank@ + ":"@ + decimal(m.index as nat) + " — expected "@ + m.expected@
            + " got "@ + m.actual@ + "\n"@
    }
}

/// The lines about the first `n` registers.
pub open spec fn mismatch_lines(s: Seq<PcrMatchResult>, n: nat) -> Seq<char>
    decreases n,
{
    if n == 0 {
        Seq::empty()
    } else {
        mismatch_lines(s, (n - 1) as nat) + mismatch_line(s[n - 1])
    }
}

/// The diagnosis of a quote that does not verify, with its cause.
pub open spec fn quote_diagnosis(cause: Seq<char>) -> Seq<char> {
    DiagView {
        causes: seq![cause],
        ..DiagView::plain(Severity::Warning, DiagCode::E0600, "quote verification failed"@)
    }.text() + "\n"@
}

/// What is said besides, where a quote does not verify.
pub open spec fn complaint(v: QuoteVerification) -> Seq<char> {
    if v.verified {
        Seq::empty()
    } else {
        "\n"@ + (if v.signature_valid {
            Seq::empty()
        } else {
            quote_diagnosis("signature does not match AK public key"@)
        }) + (if v.nonce_matches {
            Seq::empty()
        } else {
            quote_diagnosis("nonce mismatch — possible replay"@)
        }) + mismatch_lines(v.pcr_matches@, v.pcr_matches@.len())
    }
}

fn push_quote_diagnosis(out: &mut String, cause: &str)
    ensures
        final(out)@ == old(out)@ + quote_diagnosis(cause@),
{
    let d = Diagnostic::warning(DiagCode::E0600, "quote verification failed").with_cause(cause);
    assert(d@.causes =~= seq![cause@]);
    let ghost start = out@;
    out.append(d.render_text().as_str());
    out.append("\n");
    assert(out@ =~= start + quote_diagnosis(cause@));
}

/// What is said besides, where a quote does not verify: one diagnosis for each
/// cause and a line for each register that differs.
pub fn verify_complaint(v: &QuoteVerification) -> (s: String)
    ensures
        s@ == complaint(*v),
{
    let mut s = String::new();
    if v.verified {
        assert(s@ =~= complaint(*v));
        return s;
    }
    s.append("\n");
    if !v.signature_valid {
        push_quote_diagnosis(&mut s, "signature does not match AK public key");
    }
    if !v.nonce_matches {
        push_quote_diagnosis(&mut s, "nonce mismatch — possible replay");
    }
    let ghost start = s@;
    let mut i: usize = 0;
    assert(s@ =~= start + mismatch_lines(v.pcr_matches@, 0));
    while i < v.pcr_matches.len()
        invariant
            i <= v.pcr_matches@.len(),
            s@ == start + mismatch_lines(v.pcr_matches@, i as nat),
        decreases v.pcr_matches@.len() - i,
    {
        let m = &v.pcr_matches[i];
        let ghost before = s@;
        if !m.matches {
            s.append("  PCR ");
            s.append(m.bank.as_str());
            s.append(":");
            push_decimal(&mut s, m.index as u64);
            s.append(" — expected ");
            s.append(m.expected.as_str());
            s.append(" got ");
            s.append(m.actual.as_str());
            s.append("\n");
        }
        assert(s@ =~= before + mismatch_line(*m));
        i += 1;
        assert(s@ =~= start + mismatch_lines(v.pcr_matches@, i as nat));
    }
    assert(s@ =~= complaint(*v));
    s
}

} // verus!
