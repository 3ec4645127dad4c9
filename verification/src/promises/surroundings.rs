//! What lies around a workspace: manifests, the system's logs, the simulator,
//! the cluster and the hardware behind a virtual TPM.
use vstd::prelude::*;
use vstd::utf8::*;

use crate::commands::apply::load_manifest;
use crate::commands::audit::audit_key_name;
use crate::commands::capabilities::{debug_bundle, DebugBundle};
use crate::commands::cluster::{answer, without_slashes, ClusterQuery};
use crate::commands::simulator::{start_check, StartStep};
use crate::commands::vtpm::{
    open_hw_backend, provision, provision_identity_at, HwTarget, SwtpmEnv,
};
use crate::daemon::requests::{handle_apply_check, handle_rotate_identity, opt_form};
use crate::daemon::Answer;
use crate::diag::Diagnostic;
use crate::failure::Failure;
use crate::ids::{uuid_form, uuid_value};
use crate::json::{json_object, opt_view, text_view, FieldView, LeafView};
use crate::model::{BackendStatus, Identity};
use crate::promises::measurements::says;
use crate::promises::texts::decimal_is_read;
use crate::store::MemoryStore;
use crate::sys::{
    firmware_event_log_at, ima_runtime_list_at, read_firmware_event_log, read_ima_runtime_list,
    ReadFailure,
};
use crate::text::{decimal, opt_text};
use crate::vtpm_credential::{VtpmCredential, VtpmIdentity};

verus! {

/// A manifest is taken just where it could be read and nothing is wrong with it,
/// on the command line as in a request.
pub proof fn only_faultless_manifests_are_taken(
    file: &str,
    read: &Result<Vec<String>, String>,
    r: Result<(), Failure>,
    a: Result<(), Answer>,
)
    requires
        call_ensures(load_manifest, (file, read), r),
        call_ensures(handle_apply_check, (read,), a),
    ensures
        r is Ok <==> read is Ok && read->Ok_0@.len() == 0,
        a is Ok <==> r is Ok,
        a matches Err(x) ==> x.status == 400,
{
}

/// A log that is not there, or is empty, is none, and that is no failure; a log
/// that is there is handed out byte for byte; any other trouble is passed on.
pub proof fn absent_log_is_no_failure(
    read: Result<Vec<u8>, ReadFailure>,
    r: Result<Option<Vec<u8>>, ReadFailure>,
    t: Result<Option<String>, ReadFailure>,
)
    requires
        call_ensures(firmware_event_log_at, (read,), r),
        call_ensures(ima_runtime_list_at, (read,), t),
    ensures
        read matches Ok(b) ==> b@.len() == 0 ==> (r matches Ok(None)) && (t matches Ok(None)),
        read matches Ok(b) ==> b@.len() > 0 ==> (r matches Ok(Some(v)) && v@ == b@),
        read matches Ok(b) ==> b@.len() > 0 && valid_utf8(b@) ==> (t matches Ok(Some(s)) && s@
            == decode_utf8(b@)),
        read matches Err(ReadFailure::NotFound) ==> (r matches Ok(None)) && (t matches Ok(None)),
        read matches Err(ReadFailure::Other(e)) ==> (r matches Err(ReadFailure::Other(m)) && m@
            == e@) && (t matches Err(ReadFailure::Other(m)) && m@ == e@),
{
}

/// Where the environment names a log, that one is read; else each log is read
/// where the system keeps it.
pub proof fn named_log_is_read(
    chosen: &str,
    a: String,
    b: String,
    usual_firmware: String,
    usual_list: String,
)
    requires
        call_ensures(read_firmware_event_log, (Some(chosen),), a),
        call_ensures(read_ima_runtime_list, (Some(chosen),), b),
        call_ensures(read_firmware_event_log, (None::<&str>,), usual_firmware),
        call_ensures(read_ima_runtime_list, (None::<&str>,), usual_list),
    ensures
        a@ == chosen@ && b@ == chosen@,
        usual_firmware@ == "/sys/kernel/security/tpm0/binary_bios_measurements"@,
        usual_list@ == "/sys/kernel/security/ima/ascii_runtime_measurements"@,
{
}

/// A simulator that is not installed cannot be started, and one that runs is
/// not started again.
pub proof fn running_simulator_is_left_alone(
    installed: bool,
    running: bool,
    r: Result<StartStep, Failure>,
)
    requires
        call_ensures(start_check, (installed, running), r),
    ensures
        r is Ok <==> installed,
        r matches Ok(step) ==> (step == StartStep::Launch <==> !running),
{
}

proof fn slashes_fall_away(s: Seq<char>)
    ensures
        without_slashes(s.push('/')) == without_slashes(s),
        s.len() == 0 || s.last() != '/' ==> without_slashes(s) == s,
{
    assert(s.push('/').drop_last() =~= s);
}

/// Slashes at the end of an address make no difference; behind an address
/// without them comes the place of the answer.
pub proof fn trailing_slash_makes_no_difference(
    query: ClusterQuery,
    endpoint: &str,
    slashed: &str,
    a: String,
    b: String,
)
    requires
        slashed@ == endpoint@.push('/'),
        call_ensures(crate::commands::cluster::run, (query, endpoint), a),
        call_ensures(crate::commands::cluster::run, (query, slashed), b),
    ensures
        a@ == b@,
        endpoint@.len() > 0 && endpoint@.last() != '/' ==> a@ == endpoint@ + (match query {
            ClusterQuery::Status => "/v1/mesh/health"@,
            ClusterQuery::Nodes => "/v1/nodes"@,
            ClusterQuery::Metrics => "/metrics"@,
        }),
{
    slashes_fall_away(endpoint@);
}

/// An answer is printed whole and ends with a line end, of which none is added
/// where there is one.
pub proof fn answer_ends_its_line(body: &str, s: String, again: &str, t: String)
    requires
        call_ensures(answer, (body,), s),
        again@ == s@,
        call_ensures(answer, (again,), t),
    ensures
        s@.len() > 0 && s@.last() == '\n',
        body@ == s@ || body@ == s@.drop_last(),
        t@ == s@,
{
    assert(body@.push('\n').drop_last() =~= body@);
}

/// A diagnosis follows the report just where one of the three checks failed.
pub proof fn failed_check_is_diagnosed(
    status: &Result<BackendStatus, String>,
    objects: &Result<usize, String>,
    active: &Result<Option<String>, String>,
    r: (String, Option<String>),
)
    requires
        call_ensures(crate::commands::doctor::run, (status, objects, active), r),
    ensures
        r.1 is None <==> status is Ok && status->Ok_0.available && objects is Ok && active is Ok,
{
    assert(opt_text(r.1) is None <==> r.1 is None);
}

/// Only hardware endorses: any name but the two known ones is refused.
pub proof fn only_hardware_endorses(name: &str, env: SwtpmEnv, r: Result<HwTarget, Failure>)
    requires
        call_ensures(open_hw_backend, (name, env), r),
    ensures
        r is Ok <==> name@ == "device"@ || name@ == "swtpm"@,
        name@ == "device"@ ==> (r matches Ok(HwTarget::Device)),
        name@ == "swtpm"@ && env.tcti is Some ==> (r matches Ok(HwTarget::Tcti(t)) && opt_text(
            env.tcti,
        ) == Some(t@)),
        name@ == "swtpm"@ && env.tcti is None && env.socket is Some ==> (r matches Ok(
            HwTarget::Socket(t),
        ) && opt_text(env.socket) == Some(t@)),
        name@ == "swtpm"@ && env.tcti is None && env.socket is None ==> (r matches Ok(
            HwTarget::Tcp { host, port },
        ) && (env.host is Some ==> opt_text(env.host) == Some(host@)) && (env.host is None
            ==> host@ == "localhost"@) && (env.port is None ==> port == 2321)),
{
    reveal_strlit("device");
    reveal_strlit("swtpm");
    assert("device"@.len() == 6 && "swtpm"@.len() == 5);
}

/// A port that the environment gives as a number is the port that is used, if it
/// is one.
pub proof fn given_port_is_used(env: SwtpmEnv, name: &str, n: u32, r: Result<HwTarget, Failure>)
    requires
        name@ == "swtpm"@,
        env.tcti is None,
        env.socket is None,
        opt_text(env.port) == Some(decimal(n as nat)),
        call_ensures(open_hw_backend, (name, env), r),
    ensures
        r matches Ok(HwTarget::Tcp { host, port }) && port == (if n <= 65535 {
            n as u16
        } else {
            2321
        }),
{
    reveal_strlit("device");
    reveal_strlit("swtpm");
    assert("device"@.len() == 6 && "swtpm"@.len() == 5);
    decimal_is_read(n as nat);
}

/// A credential says what was signed, with what, and by whom; and it is one that
/// is accepted when it is read again.
pub proof fn credential_says_what_was_signed(
    hw: &str,
    path: &str,
    identity: VtpmIdentity,
    ak_blob: &Vec<u8>,
    signature: Vec<u8>,
    r: Result<(VtpmCredential, String), Failure>,
)
    requires
        call_ensures(provision, (hw, path, identity, ak_blob, signature), r),
    ensures
        r matches Ok((c, s)) ==> c@.identity == identity@ && c@.signature == signature@
            && c@.hw_backend_label == hw@ && c@.accepted(),
{
}

/// A credential whose signature the hardware did not accept fails; one that it
/// accepted does not.
pub proof fn invalid_credential_fails(
    hw: &str,
    path: &str,
    c: &VtpmCredential,
    valid: bool,
    r: (String, Result<(), Failure>),
)
    requires
        call_ensures(crate::commands::vtpm::verify, (hw, path, c, valid), r),
    ensures
        r.1 is Ok <==> valid,
{
}

/// A bundle tells of every object, policy and profile, and of no more than fifty
/// entries of the log.
pub proof fn bundle_tells_of_everything(store: &MemoryStore, b: DebugBundle)
    requires
        call_ensures(debug_bundle, (store,), b),
    ensures
        b.objects@.len() == store@.objects.len(),
        b.policies@.len() == store@.policies.len(),
        b.profiles@.len() == store@.profiles.len(),
        b.recent_log@.len() <= 50,
{
    assert(crate::table::rows(b.recent_log@).len() == b.recent_log@.len());
}

/// The master key's file is named after the store's.
pub proof fn key_file_is_named_after_the_store(name: &str, r: String, usual: String)
    requires
        call_ensures(audit_key_name, (Some(name),), r),
        call_ensures(audit_key_name, (None::<&str>,), usual),
    ensures
        r@ == name@ + ".auditkey"@,
        usual@ == "tpm.db"@ + ".auditkey"@,
{
}

/// The statement for an instance names it and its time, and carries the label
/// that was given.
pub proof fn statement_names_the_instance(
    label: Option<&str>,
    id: u128,
    created_at: &str,
    i: VtpmIdentity,
)
    requires
        call_ensures(provision_identity_at, (label, id, created_at), i),
    ensures
        uuid_value(i@.instance_id) == Some(id),
        i@.created_at == created_at@,
        label matches Some(l) ==> i@.vtpm_label == l@,
        label is None ==> i@.vtpm_label == "vtpm-wasm"@,
        i@.ak_public is None,
{
}

/// What is told of a rotated identity is its name and its new key.
pub proof fn rotation_is_told(i: &Identity, a: Answer)
    requires
        call_ensures(handle_rotate_identity, (i,), a),
    ensures
        a.status == 200,
        says(
            a.body@,
            seq![
                text_view("name"@, i@.name),
                text_view("new_key_object_id"@, uuid_form(i@.key_object_id)),
            ],
        ),
{
    let f = seq![
        text_view("name"@, i@.name),
        text_view("new_key_object_id"@, uuid_form(i@.key_object_id)),
        opt_view("rotated_from"@, opt_form(i@.rotated_from)),
    ];
    assert(a.body@ == json_object(f));
    assert(f[0] == text_view("name"@, i@.name));
    assert(f[1] == text_view("new_key_object_id"@, uuid_form(i@.key_object_id)));
}

/// A diagnosis in JSON holds its severity, its code and its message.
pub proof fn diagnosis_is_told(d: &Diagnostic, s: String)
    requires
        call_ensures(Diagnostic::render_json, (d,), s),
    ensures
        says(
            s@,
            seq![
                text_view("severity"@, d@.severity.text()),
                text_view("code"@, d@.code.text()),
                text_view("message"@, d@.message),
            ],
        ),
{
    let f = seq![
        text_view("severity"@, d@.severity.text()),
        text_view("code"@, d@.code.text()),
        text_view("message"@, d@.message),
        FieldView { group: None, name: "causes"@, value: LeafView::Texts(d@.causes) },
        FieldView { group: None, name: "suggestions"@, value: LeafView::Texts(d@.suggestions) },
    ];
    assert(s@ == json_object(f));
    assert(f[0] == text_view("severity"@, d@.severity.text()));
    assert(f[1] == text_view("code"@, d@.code.text()));
    assert(f[2] == text_view("message"@, d@.message));
}

} // verus!
