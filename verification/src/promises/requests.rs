//! Requests to the daemon: who is let in, and what a later request finds of an
//! earlier one.
use vstd::prelude::*;

use crate::clock::Moment;
use crate::commands::audit::WitnessSubmission;
use crate::commands::secret::seal_policy;
use crate::daemon::requests::{
    handle_apply_check, handle_audit_witness_at, handle_audit_witness_get, handle_create_key_at,
    handle_create_key_check, handle_create_policy_at, handle_delete_key_at, handle_get_identity,
    handle_get_key, handle_graph, handle_policy_fragility_check, handle_request_approval_at,
    handle_sign_at, handle_sign_check, resolve_at, ApprovalReq, CreatePolicyRequest, GraphTexts,
    Resolution,
};
use crate::daemon::{
    check_api_key, handle_health, handle_status, resolve_tls_cert, tls_mode, Answer, CertSource,
    TlsMode,
};
use crate::failure::Failure;
use crate::hex::{hex_round_trip, hex_text};
use crate::ids::uuid_value;
use crate::model::{
    valid_path, Algorithm, ApprovalRequest, ApprovalStatus, BackendStatus, Identity, KeyHandle,
    ObjectKind, ObjectPath, Policy, RuleView, TpmObject,
};
use crate::promises::keys::{
    logs_once, only_objects_change, others_stay, push_keeps_others, removal_keeps_others,
};
use crate::store::{resolved_approval_is_found, MemoryStore};
use crate::table::{
    lookup, lookup_id, lookup_id_of_push, lookup_of_push, position_id_is_first, position_is,
    position_is_first, present,
};
use crate::text::opt_str;
use crate::witness::{latest, latest_row, latest_row_is_latest, submitted, WitnessLog};

verus! {

// ---------------------------------------------------------------------------
// Who is let in
// ---------------------------------------------------------------------------

/// Where a key is required, just that key is let in; everyone else is told that
/// they are not authorized. Where none is required, everyone is let in.
pub proof fn only_the_key_is_let_in(
    key: &str,
    given: &str,
    with_key: Result<(), u16>,
    without: Result<(), u16>,
    open: Result<(), u16>,
    open_without: Result<(), u16>,
)
    requires
        key@.len() > 0,
        call_ensures(check_api_key, (Some(key), Some(given)), with_key),
        call_ensures(check_api_key, (Some(key), None), without),
        call_ensures(check_api_key, (None, Some(given)), open),
        call_ensures(check_api_key, (None, None), open_without),
    ensures
        with_key is Ok <==> given@ == key@,
        with_key is Err ==> with_key->Err_0 == 401,
        without == Err::<(), u16>(401),
        open is Ok,
        open_without is Ok,
{
    reveal_strlit("");
}

/// A TPM-backed identity goes before files, both files are needed, and without
/// either the daemon listens in the open.
pub proof fn tpm_identity_goes_first(
    identity: Option<String>,
    cert: Option<String>,
    key: Option<String>,
    m: TlsMode,
)
    requires
        call_ensures(tls_mode, (identity, cert, key), m),
    ensures
        m is Identity <==> identity is Some,
        m is Files <==> identity is None && cert is Some && key is Some,
        m is Plain <==> identity is None && (cert is None || key is None),
        m matches TlsMode::Identity(n) ==> n@ == identity->0@,
        m matches TlsMode::Files { cert: c, key: k } ==> c@ == cert->0@ && k@ == key->0@,
{
}

/// A certificate that was kept with an identity is the one that is presented for
/// it, whatever file was named.
pub proof fn kept_certificate_is_presented(
    store: &mut MemoryStore,
    name: &str,
    pem: &str,
    kept: Result<(), Failure>,
    file: Option<&str>,
    r: Result<CertSource, Failure>,
)
    requires
        call_ensures(MemoryStore::set_identity_cert, (store, name, pem), kept),
        kept is Ok,
        call_ensures(resolve_tls_cert, (&*final(store), name, file), r),
    ensures
        r matches Ok(CertSource::Stored(p)) && p@ == pem@,
{
    let s = old(store)@.identities;
    let t = final(store)@.identities;
    let at = crate::table::position::<Identity>(s, name@);
    position_is_first::<Identity>(s, name@);
    assert forall|i: int| 0 <= i < at implies <Identity as crate::table::Keyed>::key_of(
        #[trigger] t[i],
    ) != name@ by {
        assert(<Identity as crate::table::Keyed>::key_of(s[i]) != name@);
    }
    position_is::<Identity>(t, name@, at);
}

// ---------------------------------------------------------------------------
// Keys
// ---------------------------------------------------------------------------

/// What passes the check is created; a path that is bad, taken or of an unknown
/// algorithm is answered with a client error, and a request that names no
/// algorithm is for the usual one.
pub proof fn checked_key_request_is_kept(
    store: &mut MemoryStore,
    path: &str,
    algorithm: Option<&str>,
    checked: Result<(ObjectPath, Algorithm), Answer>,
    handle: Vec<u8>,
    id: u128,
    at: &Moment,
    a: Answer,
)
    requires
        call_ensures(handle_create_key_check, (&*old(store), path, algorithm), checked),
        checked matches Ok((p, alg)) ==> call_ensures(
            handle_create_key_at,
            (store, p, alg, algorithm, handle, id, at),
            a,
        ),
    ensures
        checked is Ok ==> a.status == 200 && checked->Ok_0.0@ == path@,
        checked matches Ok((_, alg)) ==> Algorithm::named(
            match algorithm {
                Some(n) => n@,
                None => "ecc-p256"@,
            },
        ) == Some(alg),
        checked matches Err(e) ==> e.status == 400 || e.status == 409,
        valid_path(path@) && present::<TpmObject>(old(store)@.objects, path@)
            ==> checked is Err && checked->Err_0.status == 409,
        !valid_path(path@) ==> checked is Err && checked->Err_0.status == 400,
{
}

/// A key that was created by request is told of, and is the key with which a
/// request for a signature has the TPM sign the very data that it names.
pub proof fn requested_key_signs_the_data(
    store: &mut MemoryStore,
    path: ObjectPath,
    algorithm: Algorithm,
    named: Option<&str>,
    handle: Vec<u8>,
    id: u128,
    at: &Moment,
    a: Answer,
    name: &str,
    got: Answer,
    data_hex: &str,
    data: Seq<u8>,
    r: Result<(KeyHandle, Vec<u8>), Answer>,
)
    requires
        valid_path(path@),
        lookup::<TpmObject>(old(store)@.objects, path@) is None,
        call_ensures(handle_create_key_at, (store, path, algorithm, named, handle, id, at), a),
        name@ == path@,
        call_ensures(handle_get_key, (&*final(store), name), got),
        data_hex@ == hex_text(data),
        call_ensures(handle_sign_check, (&*final(store), name, data_hex), r),
    ensures
        a.status == 200,
        got.status == 200,
        r matches Ok((h, d)) && h.id@ == handle@ && h.path@ == path@ && d@ == data,
        lookup::<TpmObject>(final(store)@.objects, path@) matches Some(o) && o.kind
            == ObjectKind::SigningKey && o.algorithm == algorithm && o.id == id,
        others_stay(old(store)@, final(store)@, path@),
        only_objects_change(old(store)@, final(store)@),
        logs_once(old(store)@, final(store)@, "key.create"@, Some(path@), at.stamp@),
{
    hex_round_trip(data);
    push_keeps_others(old(store)@.objects, final(store)@.objects.last());
    assert(final(store)@.audit_log.drop_last() =~= old(store)@.audit_log);
}

/// A key that was deleted by request is not found by a later one; every other
/// path finds what it found before.
pub proof fn deleted_key_is_not_found(
    store: &mut MemoryStore,
    path: &str,
    stamp: &str,
    a: Answer,
    got: Answer,
    data_hex: &str,
    r: Result<(KeyHandle, Vec<u8>), Answer>,
)
    requires
        valid_path(path@),
        call_ensures(handle_delete_key_at, (store, path, stamp), a),
        call_ensures(handle_get_key, (&*final(store), path), got),
        call_ensures(handle_sign_check, (&*final(store), path, data_hex), r),
    ensures
        a.status == 200 <==> lookup::<TpmObject>(old(store)@.objects, path@) is Some,
        a.status == 200 || a.status == 404,
        got.status == 404,
        r matches Err(e) && e.status == 404,
        others_stay(old(store)@, final(store)@, path@),
        a.status == 200 ==> logs_once(
            old(store)@,
            final(store)@,
            "key.delete"@,
            Some(path@),
            stamp@,
        ),
        a.status == 404 ==> final(store)@ == old(store)@,
{
    removal_keeps_others(old(store)@.objects, path@);
    if a.status == 200 {
        assert(final(store)@.audit_log.drop_last() =~= old(store)@.audit_log);
    }
}

/// A signature that is handed out changes nothing but the log.
pub proof fn signature_is_only_logged(
    store: &mut MemoryStore,
    path: &str,
    len: usize,
    signature: &Vec<u8>,
    stamp: &str,
    a: Answer,
)
    requires
        call_ensures(handle_sign_at, (store, path, len, signature, stamp), a),
    ensures
        a.status == 200,
        crate::promises::measurements::says(
            a.body@,
            seq![
                crate::json::text_view("key"@, path@),
                crate::json::text_view("signature_hex"@, hex_text(signature@)),
            ],
        ),
        final(store)@.objects == old(store)@.objects,
        only_objects_change(old(store)@, final(store)@),
        logs_once(old(store)@, final(store)@, "key.sign"@, Some(path@), stamp@),
{
    assert(final(store)@.audit_log.drop_last() =~= old(store)@.audit_log);
    let f = seq![
        crate::json::text_view("key"@, path@),
        crate::json::text_view("signature_hex"@, hex_text(signature@)),
    ];
    assert(a.body@ == crate::json::json_object(f));
    assert(f.contains(f[0]) && f.contains(f[1]));
}

// ---------------------------------------------------------------------------
// Policies and identities
// ---------------------------------------------------------------------------

/// A policy that was created by request guards what is sealed under its name and
/// can be rated; it asks for registers just where some were named, and for a
/// password just where one was asked for. A taken name is a conflict.
pub proof fn requested_policy_guards(
    store: &mut MemoryStore,
    req: &CreatePolicyRequest,
    id: u128,
    stamp: &str,
    a: Answer,
    name: &str,
    guard: Result<Option<u128>, Failure>,
    rated: Result<&Policy, Answer>,
)
    requires
        call_ensures(handle_create_policy_at, (store, req, id, stamp), a),
        name@ == req.name@,
        call_ensures(seal_policy, (&*final(store), Some(name)), guard),
        call_ensures(handle_policy_fragility_check, (&*final(store), name), rated),
    ensures
        a.status == 200 <==> lookup::<Policy>(old(store)@.policies, req.name@) is None,
        a.status != 200 ==> a.status == 409 && final(store)@ == old(store)@,
        a.status == 200 ==> guard == Ok::<Option<u128>, Failure>(Some(id)),
        rated is Ok,
        a.status == 200 ==> rated->Ok_0@.id == id && rated->Ok_0@.name == req.name@,
        a.status == 200 ==> (rated->Ok_0@.rules.contains(RuleView::Password)
            <==> req.require_password == Some(true)),
        a.status == 200 && req.pcr_indices is Some && req.pcr_indices->0@.len() > 0
            ==> rated->Ok_0@.rules.contains(
            RuleView::PcrMatch {
                bank: match req.pcr_bank {
                    Some(b) => b@,
                    None => "sha256"@,
                },
                indices: req.pcr_indices->0@,
            },
        ),
{
    if a.status == 200 {
        let s = old(store)@.policies;
        let p = final(store)@.policies.last();
        lookup_of_push::<Policy>(s, p, req.name@);
        if req.pcr_indices is Some && req.pcr_indices->0@.len() > 0 {
            assert(p.rules[0] is PcrMatch);
        }
        if req.require_password == Some(true) {
            assert(p.rules[p.rules.len() - 1] == RuleView::Password);
        }
    }
}

/// An identity is told of just where it is there.
pub proof fn known_identity_is_told_of(store: &MemoryStore, name: &str, a: Answer)
    requires
        call_ensures(handle_get_identity, (store, name), a),
    ensures
        lookup::<Identity>(store@.identities, name@) is Some ==> a.status == 200,
        lookup::<Identity>(store@.identities, name@) is None ==> a.status == 404,
{
}

// ---------------------------------------------------------------------------
// Approvals
// ---------------------------------------------------------------------------

/// A request for approval is kept as it was made and is pending.
pub proof fn requested_approval_is_pending(
    store: &mut MemoryStore,
    req: &ApprovalReq,
    id: u128,
    at: &Moment,
    a: Answer,
)
    requires
        lookup_id::<ApprovalRequest>(old(store)@.approvals, id) is None,
        call_ensures(handle_request_approval_at, (store, req, id, at), a),
    ensures
        a.status == 200,
        lookup_id::<ApprovalRequest>(final(store)@.approvals, id) matches Some(k) && k.status
            == ApprovalStatus::Pending && k.operation == req.operation@ && k.requester
            == req.requester@ && k.resolved_at is None && k.created_at == at.rfc3339@,
        final(store)@.objects == old(store)@.objects,
        final(store)@.audit_log.len() == old(store)@.audit_log.len() + 1,
{
    let k = final(store)@.approvals.last();
    position_id_is_first::<ApprovalRequest>(old(store)@.approvals, id);
    lookup_id_of_push::<ApprovalRequest>(old(store)@.approvals, k, id);
}

/// A pending request that is approved is approved, and one that is denied is
/// denied; one that was resolved before is a conflict and stays as it is, and an
/// unknown one is not found.
pub proof fn resolution_takes_effect(
    store: &mut MemoryStore,
    id: &str,
    u: u128,
    how: Resolution,
    at: &str,
    stamp: &str,
    a: Answer,
)
    requires
        uuid_value(id@) == Some(u),
        call_ensures(resolve_at, (store, id, how, at, stamp), a),
    ensures
        ({
            let before = lookup_id::<ApprovalRequest>(old(store)@.approvals, u);
            let after = lookup_id::<ApprovalRequest>(final(store)@.approvals, u);
            match before {
                None => a.status == 404 && final(store)@ == old(store)@,
                Some(b) => if b.status == ApprovalStatus::Pending {
                    a.status == 200 && (after matches Some(k) && k.status == (match how {
                        Resolution::Approve => ApprovalStatus::Approved,
                        Resolution::Deny => ApprovalStatus::Denied,
                    }) && k.resolved_at == Some(at@) && k.operation == b.operation && k.requester
                        == b.requester && k.target == b.target)
                } else {
                    a.status == 409 && final(store)@ == old(store)@
                },
            }
        }),
{
    position_id_is_first::<ApprovalRequest>(old(store)@.approvals, u);
    if lookup_id::<ApprovalRequest>(old(store)@.approvals, u) matches Some(b) && b.status
        == ApprovalStatus::Pending {
        resolved_approval_is_found(
            old(store)@.approvals,
            u,
            match how {
                Resolution::Approve => ApprovalStatus::Approved,
                Resolution::Deny => ApprovalStatus::Denied,
            },
            at@,
        );
    }
}

// ---------------------------------------------------------------------------
// Manifests, graphs and health
// ---------------------------------------------------------------------------

/// A manifest goes through just where it was parsed and nothing is wrong with
/// it; otherwise the client is to blame.
pub proof fn sound_manifest_goes_through(read: &Result<Vec<String>, String>, r: Result<(), Answer>)
    requires
        call_ensures(handle_apply_check, (read,), r),
    ensures
        r is Ok <==> (read matches Ok(issues) && issues@.len() == 0),
        r matches Err(a) ==> a.status == 400,
{
}

/// A graph is handed out in the form that was asked for.
pub proof fn graph_has_the_form_asked_for(
    graph: GraphTexts,
    dot: &str,
    other: Option<&str>,
    as_dot: Answer,
    as_other: Answer,
)
    requires
        dot@ == "dot"@,
        opt_str(other) != Some("dot"@),
        call_ensures(handle_graph, (&Ok::<GraphTexts, String>(graph), Some(dot)), as_dot),
        call_ensures(handle_graph, (&Ok::<GraphTexts, String>(graph), other), as_other),
    ensures
        as_dot.status == 200 && as_dot.body@ == graph.dot@,
        as_other.status == 200 && as_other.body@ == graph.json@,
{
}

/// A backend that cannot tell its status is a server error, and otherwise its
/// status and its health are told.
pub proof fn silent_backend_is_an_error(
    store: &MemoryStore,
    status: &Result<BackendStatus, String>,
    version: &str,
    told: Answer,
    health: Answer,
)
    requires
        call_ensures(handle_status, (status, version), told),
        call_ensures(handle_health, (store, status), health),
    ensures
        status is Ok ==> told.status == 200 && health.status == 200,
        status is Err ==> told.status == 500 && health.status == 500,
{
}

// ---------------------------------------------------------------------------
// The witness
// ---------------------------------------------------------------------------

/// The first submission of a stream is accepted and recorded, and so is one for
/// a later segment than the latest. An earlier segment is a conflict, and so is
/// another checkpoint for the latest one; neither leaves a trace. The latest
/// checkpoint itself is accepted again without being recorded again.
pub proof fn witness_judges_by_the_latest(
    store: &mut MemoryStore,
    log: &mut WitnessLog,
    sub: WitnessSubmission,
    at: &Moment,
    a: Answer,
)
    requires
        call_ensures(handle_audit_witness_at, (store, log, sub, at), a),
    ensures
        ({
            let seen = latest(old(log)@, sub.stream_id@);
            let new = seen is None || seen->0.segment_id < sub.segment_id;
            let same = seen is Some && seen->0.segment_id == sub.segment_id && seen->0.checkpoint
                == sub.checkpoint_hash_hex@;
            &&& new ==> a.status == 200 && final(log)@ == old(log)@.push(submitted(sub))
            &&& new ==> logs_once(
                old(store)@,
                final(store)@,
                "audit.witness.accept"@,
                Some(sub.stream_id@),
                at.stamp@,
            )
            &&& same ==> a.status == 200
            &&& !new && !same ==> a.status == 409
            &&& !new ==> final(log)@ == old(log)@ && final(store)@ == old(store)@
        }),
{
    latest_row_is_latest(old(log).rows@, sub.stream_id@);
    let seen = latest(old(log)@, sub.stream_id@);
    if seen is None || seen->0.segment_id < sub.segment_id {
        assert(final(store)@.audit_log.drop_last() =~= old(store)@.audit_log);
    }
}

/// What was recorded is what a later request for the latest receipt is told of:
/// the same segment, checkpoint, signature and signer.
pub proof fn recorded_submission_is_told_of(
    store: &mut MemoryStore,
    log: &mut WitnessLog,
    sub: WitnessSubmission,
    at: &Moment,
    a: Answer,
    stream: &str,
    got: Answer,
)
    requires
        latest(old(log)@, sub.stream_id@) is None,
        call_ensures(handle_audit_witness_at, (store, log, sub, at), a),
        stream@ == sub.stream_id@,
        call_ensures(handle_audit_witness_get, (&*final(log), stream), got),
    ensures
        a.status == 200,
        got.status == 200,
        latest_row(final(log).rows@, stream@) matches Some(row) && row.segment_id == sub.segment_id
            && row.checkpoint_hash_hex@ == sub.checkpoint_hash_hex@ && row.signature_hex@
            == sub.signature_hex@ && row.signer_identity@ == sub.signer_identity@ && row.seq_start
            == sub.seq_start && row.seq_end == sub.seq_end && row.received_at@ == at.rfc3339@,
{
    latest_row_is_latest(old(log).rows@, sub.stream_id@);
}

/// A stream of which nothing was received has no receipt.
pub proof fn unknown_stream_has_no_receipt(log: &WitnessLog, stream: &str, got: Answer)
    requires
        latest_row(log.rows@, stream@) is None,
        call_ensures(handle_audit_witness_get, (log, stream), got),
    ensures
        got.status == 404,
{
}

} // verus!
