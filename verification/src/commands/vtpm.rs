//! Provisioning, showing and verifying the endorsement of a virtual TPM.
use vstd::prelude::*;
use vstd::string::*;

use crate::clock::{fresh_id, now_rfc3339};
use crate::failure::Failure;
use crate::ids::{id_text, uuid_form, uuid_value};
use crate::text::{
    chars_of, decimal, field, number32, opt_str, parse_number, push_field, push_number, same,
};
use crate::vtpm_bridge::{blob_field, json_field_bytes, public_of};
use crate::vtpm_credential::{CredentialView, StatementView, VtpmCredential, VtpmIdentity};

verus! {

// ---------------------------------------------------------------------------
// The hardware
// ---------------------------------------------------------------------------

/// What the environment says of the software TPM.
#[derive(Debug)]
pub struct SwtpmEnv {
    pub tcti: Option<String>,
    pub socket: Option<String>,
    pub host: Option<String>,
    pub port: Option<String>,
}

/// Which hardware is to endorse.
#[derive(Debug)]
pub enum HwTarget {
    Device,
    Tcti(String),
    Socket(String),
    Tcp { host: String, port: u16 },
}

/// The port that a text names, or the usual one.
pub open spec fn port_of(text: Option<String>) -> u16 {
    match text {
        Some(t) => match number32(t@, 10) {
            Some(n) => if n <= 65535 {
                n as u16
            } else {
                2321
            },
            None => 2321,
        },
        None => 2321,
    }
}

/// The target that a name and the environment stand for. A connection string
/// goes before a socket, a socket before host and port.
pub open spec fn targets(name: Seq<char>, env: SwtpmEnv, t: HwTarget) -> bool {
    if name == "device"@ {
        t is Device
    } else {
        name == "swtpm"@ && match env.tcti {
            Some(c) => t matches HwTarget::Tcti(x) && x@ == c@,
            None => match env.socket {
                Some(p) => t matches HwTarget::Socket(x) && x@ == p@,
                None => t matches HwTarget::Tcp { host, port } && host@ == (match env.host {
                    Some(h) => h@,
                    None => "localhost"@,
                }) && port == port_of(env.port),
            },
        }
    }
}

fn read_port(text: &Option<String>) -> (p: u16)
    ensures
        p == port_of(*text),
{
    match text {
        None => 2321,
        Some(t) => {
            let v = chars_of(t.as_str());
            assert(v@.subrange(0, v@.len() as int) =~= t@);
            match parse_number(&v, 0, 10) {
                Some(n) => if n <= 65535 {
                    n as u16
                } else {
                    2321
                },
                None => 2321,
            }
        },
    }
}

/// Finds the hardware that is to endorse. A virtual TPM never endorses another.
pub fn open_hw_backend(name: &str, env: SwtpmEnv) -> (r: Result<HwTarget, Failure>)
    ensures
        match r {
            Ok(t) => targets(name@, env, t),
            Err(e) => name@ != "device"@ && name@ != "swtpm"@ && e@ == "unsupported hw backend '"@
                + name@ + "': use 'device' or 'swtpm'"@,
        },
{
    if same(name, "device") {
        return Ok(HwTarget::Device);
    }
    if !same(name, "swtpm") {
        return Err(
            Failure::around("unsupported hw backend '", name, "': use 'device' or 'swtpm'"),
        );
    }
    match env.tcti {
        Some(c) => Ok(HwTarget::Tcti(c)),
        None => match env.socket {
            Some(p) => Ok(HwTarget::Socket(p)),
            None => {
                let port: u16 = read_port(&env.port);
                let host = match env.host {
                    Some(h) => h,
                    None => "localhost".to_owned(),
                };
                Ok(HwTarget::Tcp { host, port })
            },
        },
    }
}

/// Says that there is no hardware backend in this build.
pub fn provision_unavailable() -> (f: Failure)
    ensures
        f@
            == "vtpm provisioning requires the hardware TPM backend; rebuild with --features tpm-hw"@,
{
    Failure::new(
        "vtpm provisioning requires the hardware TPM backend; rebuild with --features tpm-hw",
    )
}

// ---------------------------------------------------------------------------
// Provisioning
// ---------------------------------------------------------------------------

/// The statement for an instance.
pub open spec fn statement(id: u128, created_at: Seq<char>, label: Option<Seq<char>>) -> StatementView {
    StatementView {
        instance_id: uuid_form(id),
        created_at,
        vtpm_label: match label {
            Some(l) => l,
            None => "vtpm-wasm"@,
        },
        ak_public: None,
    }
}

/// The statement for a given instance and time.
pub fn provision_identity_at(label: Option<&str>, id: u128, created_at: &str) -> (i: VtpmIdentity)
    ensures
        i@ == statement(id, created_at@, opt_str(label)),
        uuid_value(i@.instance_id) == Some(id),
{
    let vtpm_label = match label {
        Some(l) => l.to_owned(),
        None => "vtpm-wasm".to_owned(),
    };
    VtpmIdentity::new(id_text(id), created_at.to_owned(), vtpm_label)
}

/// The statement for a new instance.
pub fn provision_identity(label: Option<&str>) -> (i: VtpmIdentity)
    ensures
        exists|id: u128, created_at: Seq<char>|
            i@ == #[trigger] statement(id, created_at, opt_str(label)) && uuid_value(
                i@.instance_id,
            ) == Some(id),
{
    let id: u128 = fresh_id();
    let created_at = now_rfc3339();
    provision_identity_at(label, id, created_at.as_str())
}

/// A provisioned credential as it is printed.
pub open spec fn provisioned_text(path: Seq<char>, c: CredentialView) -> Seq<char> {
    "vTPM credential provisioned\n"@ + field("  path:        "@, path) + field(
        "  instance:    "@,
        c.identity.instance_id,
    ) + field("  created:     "@, c.identity.created_at) + field(
        "  vtpm-label:  "@,
        c.identity.vtpm_label,
    ) + field("  hw-backend:  "@, c.hw_backend_label)
}

/// Makes the credential of a statement. `ak_blob` is the attestation key as the
/// hardware backend keeps it, `signature` its signature over the statement.
pub fn provision(
    hw_backend_name: &str,
    path: &str,
    identity: VtpmIdentity,
    ak_blob: &Vec<u8>,
    signature: Vec<u8>,
) -> (r: Result<(VtpmCredential, String), Failure>)
    ensures
        match r {
            Ok((c, s)) => blob_field(ak_blob@, "public"@) == Some(c@.hw_ak_pub)
                && c@.identity == identity@ && c@.hw_backend_label == hw_backend_name@
                && c@.signature == signature@ && c@.accepted() && s@ == provisioned_text(
                path@,
                c@,
            ),
            Err(e) => json_field_bytes(ak_blob@, "public"@) matches Err(b) && e@ == if b.0 {
                "extract AK public: "@ + b.1
            } else {
                b.1
            },
        },
{
    let ak_pub = match public_of(ak_blob.as_slice()) {
        Err((is_json, message)) => {
            return Err(
                if is_json {
                    Failure::about("extract AK public: ", message.as_str())
                } else {
                    Failure::new(message.as_str())
                },
            );
        },
        Ok(p) => p,
    };
    let c = VtpmCredential::new(identity, hw_backend_name.to_owned(), ak_pub, signature)?;
    let mut s = String::new();
    s.append("vTPM credential provisioned\n");
    push_field(&mut s, "  path:        ", path);
    push_field(&mut s, "  instance:    ", c.identity.instance_id.as_str());
    push_field(&mut s, "  created:     ", c.identity.created_at.as_str());
    push_field(&mut s, "  vtpm-label:  ", c.identity.vtpm_label.as_str());
    push_field(&mut s, "  hw-backend:  ", c.hw_backend_label.as_str());
    assert(s@ =~= provisioned_text(path@, c@));
    Ok((c, s))
}

// ---------------------------------------------------------------------------
// Showing
// ---------------------------------------------------------------------------

/// A credential as it is shown.
pub open spec fn shown_text(path: Seq<char>, c: CredentialView) -> Seq<char> {
    "vTPM credential\n"@ + field("  path:         "@, path) + field(
        "  version:      "@,
        decimal(c.version as nat),
    ) + field("  instance:     "@, c.identity.instance_id) + field(
        "  created:      "@,
        c.identity.created_at,
    ) + field("  vtpm-label:   "@, c.identity.vtpm_label) + field(
        "  hw-backend:   "@,
        c.hw_backend_label,
    ) + field("  ak-pub-bytes: "@, decimal(c.hw_ak_pub.len())) + field(
        "  sig-bytes:    "@,
        decimal(c.signature.len()),
    )
}

/// Shows a credential.
pub fn show(path: &str, c: &VtpmCredential) -> (s: String)
    ensures
        s@ == shown_text(path@, c@),
{
    let mut s = String::new();
    s.append("vTPM credential\n");
    push_field(&mut s, "  path:         ", path);
    push_number(&mut s, "  version:      ", c.version as u64);
    push_field(&mut s, "  instance:     ", c.identity.instance_id.as_str());
    push_field(&mut s, "  created:      ", c.identity.created_at.as_str());
    push_field(&mut s, "  vtpm-label:   ", c.identity.vtpm_label.as_str());
    push_field(&mut s, "  hw-backend:   ", c.hw_backend_label.as_str());
    push_number(&mut s, "  ak-pub-bytes: ", c.hw_ak_pub.len() as u64);
    push_number(&mut s, "  sig-bytes:    ", c.signature.len() as u64);
    assert(s@ =~= shown_text(path@, c@));
    s
}

// ---------------------------------------------------------------------------
// Verification
// ---------------------------------------------------------------------------

/// The outcome of a verification as it is printed.
pub open spec fn verified_text(
    path: Seq<char>,
    instance_id: Seq<char>,
    hw_backend: Seq<char>,
    valid: bool,
) -> Seq<char> {
    "vTPM credential verification\n"@ + field("  path:        "@, path) + field(
        "  instance:    "@,
        instance_id,
    ) + field("  hw-backend:  "@, hw_backend) + field(
        "  signature:   "@,
        if valid {
            "valid"@
        } else {
            "INVALID"@
        },
    )
}

/// Prints the outcome of a verification, and fails where the hardware did not
/// accept the signature.
pub fn verify(hw_backend_name: &str, path: &str, c: &VtpmCredential, valid: bool) -> (r: (
    String,
    Result<(), Failure>,
))
    ensures
        r.0@ == verified_text(path@, c@.identity.instance_id, hw_backend_name@, valid),
        match r.1 {
            Ok(_) => valid,
            Err(e) => !valid && e@ == "credential signature did not verify"@,
        },
{
    let mut s = String::new();
    s.append("vTPM credential verification\n");
    push_field(&mut s, "  path:        ", path);
    push_field(&mut s, "  instance:    ", c.identity.instance_id.as_str());
    push_field(&mut s, "  hw-backend:  ", hw_backend_name);
    push_field(
        &mut s,
        "  signature:   ",
        if valid {
            "valid"
        } else {
            "INVALID"
        },
    );
    assert(s@ =~= verified_text(path@, c@.identity.instance_id, hw_backend_name@, valid));
    if valid {
        (s, Ok(()))
    } else {
        (s, Err(Failure::new("credential signature did not verify")))
    }
}

} // verus!
