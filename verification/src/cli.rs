//! The command line: its commands, and what is decided before one is run.
use vstd::prelude::*;
use vstd::string::*;

use crate::failure::Failure;
use crate::model::BackendStatus;
use crate::output::OutputFormat;
use crate::text::{framed, lowercase, opt_str, opt_text, same, to_lowercase, views};

verus! {

/// The command line.
#[derive(Debug)]
pub struct Cli {
    pub command: Option<Command>,
    /// Output format
    pub format: OutputFormat,
    /// Enable verbose output
    pub verbose: bool,
    /// Path to the metadata store
    pub store_path: Option<String>,
    /// TPM backend to use (auto, mock, device, swtpm, vtpm)
    pub backend: String,
    /// Dry-run: show what would happen without executing
    pub plan: bool,
    /// Shorthand for --format json
    pub json: bool,
}

/// A command.
#[derive(Debug)]
pub enum Command {
    /// Initialize workspace with default profile
    Init {
        /// Profile name to create
        profile: Option<String>,
    },
    /// Show TPM and workspace status
    Status,
    /// Run diagnostic health checks
    Doctor,
    /// Show TPM capabilities
    Capabilities,
    /// Collect debug diagnostic bundle
    Debug {
        /// Output file for the bundle
        output: String,
    },
    /// Apply a workspace manifest (declarative)
    Apply {
        /// Path to manifest YAML file
        file: String,
        /// Force destructive changes (e.g. key rotation on algorithm drift)
        force: bool,
    },
    /// Show drift between manifest and current workspace state
    Diff {
        /// Path to manifest YAML file
        file: String,
    },
    /// Key management
    Key(KeyCommand),
    /// Remote attestation
    Attest(AttestCommand),
    /// Secret sealing and unsealing
    Secret(SecretCommand),
    /// NV (non-volatile) storage management
    Nv(NvCommand),
    /// PCR (Platform Configuration Register) operations
    Pcr(PcrCommand),
    /// Policy management
    Policy(PolicyCommand),
    /// Object inspection
    Object(ObjectCommand),
    /// Profile management
    Profile(ProfileCommand),
    /// Repair workspace issues
    Repair(RepairCommand),
    /// Garbage collect stale objects
    Gc(GcCommand),
    /// Recovery playbooks for common situations
    Recover(RecoverCommand),
    /// View audit log
    Log(LogCommand),
    /// Browse built-in templates
    Template(TemplateCommand),
    /// Workspace management
    Workspace(WorkspaceCommand),
    /// Explain a TPM concept
    Explain {
        /// Concept to explain
        concept: String,
    },
    /// Identity management (composite: key + policy + usage + cert)
    Identity(IdentityCommand),
    /// Tamper-evident secure log (hash-chained, Merkle-sealed, TPM-signed)
    Audit(AuditCommand),
    /// Measure artifacts/applications into the Merkle-anchored log
    Measure(MeasureCommand),
    /// Render the workspace dependency graph
    Graph,
    /// Daemon management
    Daemon(DaemonCommand),
    /// vTPM endorsement (provision a hardware-rooted credential the vTPM can carry offline)
    Vtpm(VtpmCommand),
    /// Generate shell completions
    Completions {
        /// Shell to generate completions for (bash, zsh, fish, elvish, powershell)
        shell: String,
    },
}

/// A command on keys.
#[derive(Debug)]
pub enum KeyCommand {
    /// Create a new key
    Create {
        /// Object path (e.g. signing/release)
        path: String,
        /// Algorithm
        algorithm: String,
        /// Attach a named policy
        policy: Option<String>,
    },
    /// List all keys
    List,
    /// Show key details
    Show {
        /// Object path
        path: String,
    },
    /// Sign data with a key
    Sign {
        /// Key object path
        path: String,
        /// Input file to sign
        input: String,
        /// Output file for signature
        output: Option<String>,
    },
    /// Delete a key
    Delete {
        /// Object path
        path: String,
    },
    /// Export public key material
    ExportPub {
        /// Object path
        path: String,
        /// Export format (pem, der, raw)
        key_format: String,
        /// Integration target (openssl, ssh, cosign, pkcs11)
        target: Option<String>,
    },
    /// Rotate a key (create new, archive old)
    Rotate {
        /// Object path
        path: String,
    },
}

/// A command on attestation.
#[derive(Debug)]
pub enum AttestCommand {
    /// Create an attestation key
    AkCreate {
        /// AK name (e.g. attest/main)
        name: String,
        /// Algorithm
        algorithm: String,
    },
    /// Generate a TPM quote (signed PCR attestation)
    Quote {
        /// Attestation key name
        ak: String,
        /// PCR bank
        bank: String,
        /// PCR indices (comma-separated)
        pcr: Vec<u32>,
        /// Nonce (challenge from verifier)
        nonce: Option<String>,
        /// Output file for quote JSON
        output: Option<String>,
    },
    /// Verify a TPM quote
    Verify {
        /// Path to quote JSON file
        quote: String,
        /// Expected nonce
        nonce: Option<String>,
    },
}

/// A command on policies.
#[derive(Debug)]
pub enum PolicyCommand {
    /// Create a new policy
    Create {
        /// Policy name
        name: String,
        /// PCR indices (comma-separated, e.g. 7,11)
        pcr: Vec<u32>,
        /// PCR bank
        pcr_bank: String,
        /// Require password/auth value
        password: bool,
    },
    /// List all policies
    List,
    /// Show policy details
    Show {
        /// Policy name
        name: String,
    },
    /// Explain what a policy requires
    Explain {
        /// Policy name
        name: String,
    },
    /// Show fragility rating (how likely this policy is to break)
    Fragility {
        /// Policy name
        name: String,
    },
    /// Delete a policy
    Delete {
        /// Policy name
        name: String,
    },
    /// Compile a policy from a YAML file
    Compile {
        /// Path to policy YAML file
        file: String,
    },
    /// Test whether a policy can be satisfied on this system
    Test {
        /// Policy name
        name: String,
    },
}

/// A command on secrets.
#[derive(Debug)]
pub enum SecretCommand {
    /// Seal a secret
    Seal {
        /// Secret name (e.g. db/password)
        name: String,
        /// Input file containing the secret
        input: String,
        /// Attach a named policy
        policy: Option<String>,
    },
    /// Unseal a secret
    Unseal {
        /// Secret name
        name: String,
        /// Output file (if omitted, prints to stdout)
        output: Option<String>,
    },
    /// List sealed secrets
    List,
}

/// A command on NV indices.
#[derive(Debug)]
pub enum NvCommand {
    /// Define an NV index
    Define {
        /// NV index name (e.g. config/build-id)
        name: String,
        /// Size in bytes
        size: usize,
    },
    /// Write data to an NV index
    Write {
        /// NV index name
        name: String,
        /// Input file
        input: String,
    },
    /// Read data from an NV index
    Read {
        /// NV index name
        name: String,
        /// Output file (if omitted, prints to stdout)
        output: Option<String>,
    },
    /// List NV indices
    List,
    /// Delete an NV index
    Delete {
        /// NV index name
        name: String,
    },
}

/// A command on registers.
#[allow(inconsistent_fields)]
#[derive(Debug)]
pub enum PcrCommand {
    /// Show current PCR values
    Show {
        /// PCR bank
        bank: String,
        /// PCR indices (comma-separated)
        index: Vec<u32>,
    },
    /// Extend a PCR with a measurement: PCR = H(PCR || digest)
    Extend {
        /// PCR bank
        bank: String,
        /// PCR index to extend
        index: u32,
        /// Hash a file's contents and extend with the resulting digest
        input: Option<String>,
        /// Extend with this raw digest (hex), must match the bank size
        value: Option<String>,
    },
    /// PCR baseline management
    Baseline(PcrBaselineCommand),
}

/// A command on measurements.
#[derive(Debug)]
pub enum MeasureCommand {
    /// Measure an artifact directly (citadel hashes it)
    File {
        /// Path to the artifact to measure
        artifact: String,
        /// Logical kind of the artifact
        kind: String,
        /// Hash bank
        bank: String,
        /// Also extend this PCR index with the measurement digest
        pcr: Option<u32>,
    },
    /// Ingest the kernel IMA runtime measurement list (delegated source)
    Ima {
        /// Read IMA measurements from this file instead of the default
        /// /sys/kernel/security/ima/ascii_runtime_measurements
        from: Option<String>,
    },
    /// Seal a Merkle segment over pending measurements (the tree root)
    Checkpoint,
    /// Sign a sealed segment's root with a TPM-backed identity
    Sign {
        /// Segment id to sign
        segment_id: u64,
        /// Identity name (see `tpm identity list`)
        identity: String,
    },
    /// Prove a measurement (by seqno) is included under a sealed root
    Verify {
        /// Measurement entry seqno
        seqno: u64,
    },
    /// List sealed measurement segments (Merkle roots)
    List,
}

/// A command on register baselines.
#[derive(Debug)]
pub enum PcrBaselineCommand {
    /// Save current PCR state as a named baseline
    Save {
        /// Baseline name
        name: String,
        /// PCR bank
        bank: String,
        /// PCR indices (comma-separated)
        index: Vec<u32>,
    },
    /// Compare current PCR state against a saved baseline
    Diff {
        /// Baseline name
        name: String,
    },
    /// List saved baselines
    List,
}

/// A command on objects.
#[derive(Debug)]
pub enum ObjectCommand {
    /// List all workspace objects
    List,
    /// Show workspace object tree
    Tree,
    /// Show what depends on an object
    Dependents {
        /// Object path
        path: String,
    },
    /// Rename an object
    Rename {
        /// Current path
        from: String,
        /// New path
        to: String,
    },
    /// Retire an object (mark inactive but keep metadata)
    Retire {
        /// Object path
        path: String,
    },
    /// Reactivate a retired object
    Activate {
        /// Object path
        path: String,
    },
}

/// A command on stale objects.
#[derive(Debug)]
pub enum GcCommand {
    /// Show what would be garbage collected
    Plan,
    /// Remove stale objects
    Apply,
}

/// A command on recovery playbooks.
#[derive(Debug)]
pub enum RecoverCommand {
    /// List available recovery playbooks
    List,
    /// Show a recovery playbook
    Show {
        /// Playbook name
        name: String,
    },
}

/// A command on profiles.
#[allow(inconsistent_fields)]
#[derive(Debug)]
pub enum ProfileCommand {
    /// List all profiles
    List,
    /// Show profile details
    Show {
        /// Profile name (default: active profile)
        name: Option<String>,
    },
    /// Set the active profile
    Activate {
        /// Profile name
        name: String,
    },
}

/// A command on repairs.
#[derive(Debug)]
pub enum RepairCommand {
    /// Scan for workspace issues
    Scan,
    /// Show repair plan without applying
    Plan,
    /// Apply automatic repairs
    Apply,
}

/// A command on the audit log.
#[derive(Debug)]
pub enum LogCommand {
    /// Show recent audit log entries
    Show {
        /// Filter by object path
        object: Option<String>,
        /// Filter by action (substring match)
        action: Option<String>,
        /// Number of entries to show
        limit: usize,
    },
}

/// A command on templates.
#[derive(Debug)]
pub enum TemplateCommand {
    /// List available templates
    List,
    /// Show template details
    Show {
        /// Template name
        name: String,
    },
}

/// A command on the workspace.
#[derive(Debug)]
pub enum WorkspaceCommand {
    /// Show workspace summary
    Info,
    /// Export workspace metadata to JSON
    Export {
        /// Output file path
        output: String,
    },
    /// Import workspace metadata from JSON
    Import {
        /// Input file path
        input: String,
    },
}

/// A command on the secure log.
#[derive(Debug)]
pub enum AuditCommand {
    /// Append a new entry to the secure log.
    Append {
        /// Event type (e.g. "user.login", "key.sign").
        event: String,
        /// Severity label.
        severity: String,
        /// Producer identifier (e.g. component name).
        producer: String,
        /// Payload bytes read from a file (use `-` for stdin).
        payload_file: Option<String>,
        /// Payload as an inline UTF-8 string.
        payload: Option<String>,
        /// Target stream.
        stream: String,
        /// Encrypt the payload under the master KEK (see `audit key`).
        encrypt: bool,
    },
    /// Read a single entry by seqno.
    Show {
        seqno: u64,
        /// Decrypt the payload if it was stored encrypted.
        decrypt: bool,
    },
    /// Master KEK management for envelope encryption (Phase 5).
    Key(AuditKeyCommand),
    /// Secure log stream management (multi-stream).
    Streams(AuditStreamsCommand),
    /// Show the current head (highest seqno) for a stream.
    Head {
        stream: String,
    },
    /// Chain operations.
    Chain(AuditChainCommand),
    /// Segment operations (Merkle-sealed windows).
    Segments(AuditSegmentsCommand),
    /// Build a Merkle inclusion proof for a single entry.
    Prove {
        /// Entry sequence number.
        seqno: u64,
    },
    /// Sign a closed segment's checkpoint with a TPM-backed identity.
    Sign {
        /// Segment id to sign.
        segment_id: u64,
        /// Identity name (see `tpm identity list`).
        identity: String,
    },
    /// Verify the full checkpoint chain from genesis to head.
    Verify {
        stream: String,
    },
    /// Emit the witness submission JSON for a stream's current head.
    /// POST it to a witness service (e.g. `tpmd /v1/audit/witness`).
    Publish {
        stream: String,
    },
    /// Check the anti-rollback head file against the live database.
    Rollback {
        stream: String,
    },
    /// Witness receipt management.
    Witness(AuditWitnessCommand),
}

/// A command on witness receipts.
#[derive(Debug)]
pub enum AuditWitnessCommand {
    /// List all witness receipts for a stream.
    List {
        stream: String,
    },
    /// Show the latest witness receipt for a stream.
    Latest {
        stream: String,
    },
    /// Record a witness receipt from a locally-held submission JSON.
    ///
    /// Accepts the JSON output of `tpm audit publish` (piped or from
    /// a file) and inserts it into the witness log. Useful when
    /// submitting to an air-gapped or manual witness service.
    Record {
        /// Path to the witness submission JSON file (use `-` for stdin).
        input: String,
    },
    /// Garbage-collect old witness receipts, keeping only the most
    /// recent N receipts per stream (and/or those newer than a cutoff).
    ///
    /// At least one of --keep-latest or --older-than must be given.
    Gc {
        /// Stream name to GC (or "all" to GC every stream).
        stream: String,
        /// Keep at most N most-recent receipts per stream.
        keep_latest: Option<usize>,
        /// Delete receipts received before this RFC 3339 timestamp
        /// (e.g. 2026-01-01T00:00:00Z).
        older_than: Option<String>,
        /// Print what would be deleted without actually deleting.
        dry_run: bool,
    },
}

/// A command on streams.
#[derive(Debug)]
pub enum AuditStreamsCommand {
    /// List all declared streams with their confidentiality tiers.
    List,
    /// Create a new stream.
    Create {
        /// Stream name (alphanumeric + dash/underscore recommended).
        name: String,
        /// Confidentiality tier.
        /// One of: public, protected, highly-restricted.
        tier: String,
        /// Optional human-readable description.
        description: Option<String>,
    },
    /// Show a single stream's metadata.
    Show {
        name: String,
    },
    /// Change a stream's confidentiality tier.
    SetTier {
        name: String,
        tier: String,
    },
    /// Deprecate a stream, preventing new entries from being appended.
    ///
    /// Existing entries and segments remain intact and verifiable.
    /// The stream row is preserved so history and witness records stay accessible.
    Delete {
        /// Stream name.
        name: String,
    },
}

/// A command on the master key.
#[derive(Debug)]
pub enum AuditKeyCommand {
    /// Generate a new random master KEK and save it to the given path.
    ///
    /// By default the key is sealed under a TPM-protected key via
    /// `backend.seal`; pass `--plaintext` to store it as raw 32 bytes
    /// with 0600 permissions (useful for mock/test backends).
    Init {
        /// Path to write the KEK file to.
        out: String,
        /// Store the KEK unsealed (raw 32 bytes) instead of wrapped
        /// by the TPM backend.
        plaintext: bool,
    },
    /// Show the path used by subsequent audit commands, plus whether
    /// the on-disk format is sealed or plaintext.
    Show,
}

/// A command on segments.
#[derive(Debug)]
pub enum AuditSegmentsCommand {
    /// Close the currently-open window and build its Merkle root.
    Close {
        stream: String,
    },
    /// List all closed segments.
    List {
        stream: String,
    },
    /// Show a single segment by id.
    Show {
        segment_id: u64,
    },
}

/// A command on the hash chain.
#[derive(Debug)]
pub enum AuditChainCommand {
    /// Walk the hash chain and verify every link.
    Verify {
        /// Start seqno (default 1).
        from: u64,
        /// End seqno (default: current head).
        to: Option<u64>,
        /// Target stream.
        stream: String,
    },
}

/// A command on identities.
#[derive(Debug)]
pub enum IdentityCommand {
    /// Initialize a new identity (creates backing key)
    Init {
        /// Identity name
        name: String,
        /// Intended usage (code-signing, tls, ssh, attestation, generic)
        usage: String,
        /// Key algorithm
        algorithm: String,
        /// Attach a named policy
        policy: Option<String>,
        /// Certificate subject (e.g. "CN=Release Signer")
        subject: Option<String>,
        /// Override backing key path (default: signing/<name>)
        key_path: Option<String>,
    },
    /// Show identity details
    Show {
        /// Identity name
        name: String,
    },
    /// List all identities
    List,
    /// Rotate an identity's backing key
    Rotate {
        /// Identity name
        name: String,
    },
    /// Delete an identity
    Delete {
        /// Identity name
        name: String,
        /// Also delete the underlying key object
        cascade: bool,
    },
}

/// A command on the daemon.
#[derive(Debug)]
pub enum DaemonCommand {
    /// Run the daemon
    Run {
        /// Listen address
        listen: String,
    },
    /// Show daemon status
    Status,
}

/// A command on the virtual TPM.
#[derive(Debug)]
pub enum VtpmCommand {
    /// Provision a credential: hw-TPM signs an endorsement statement for the vTPM
    Provision {
        /// Hardware backend to provision against (`device` or `swtpm`)
        hw_backend: String,
        /// Path to write the credential file (defaults to $XDG_DATA_HOME/tpm/vtpm-credential.json)
        out: Option<String>,
        /// Free-form vTPM label baked into the signed identity
        label: Option<String>,
    },
    /// Inspect or verify an existing credential
    Credential(VtpmCredentialCommand),
}

/// A command on its credential.
#[derive(Debug)]
pub enum VtpmCredentialCommand {
    /// Print credential metadata (offline)
    Show {
        /// Path to the credential file
        path: Option<String>,
    },
    /// Verify the credential signature against the hardware TPM
    Verify {
        /// Hardware backend to verify against (`device` or `swtpm`)
        hw_backend: String,
        /// Path to the credential file
        path: Option<String>,
    },
}

// ---------------------------------------------------------------------------
// Before a command is run
// ---------------------------------------------------------------------------

/// The format in which results are printed.
pub fn effective_format(json: bool, format: OutputFormat) -> (f: OutputFormat)
    ensures
        f == if json {
            OutputFormat::Json
        } else {
            format
        },
{
    if json {
        OutputFormat::Json
    } else {
        format
    }
}

/// What the constraints of a profile are held against.
#[derive(Debug)]
pub struct Constrained {
    pub operation: &'static str,
    pub path: String,
    pub algorithm: Option<String>,
}

/// What the constraints of a profile are held against: the operation, the path
/// and, for a new key, the algorithm. Commands that create, use or remove no
/// key and seal nothing are not constrained.
pub open spec fn constrained(cmd: Command) -> Option<(Seq<char>, Seq<char>, Option<Seq<char>>)> {
    match cmd {
        Command::Key(KeyCommand::Create { path, algorithm, policy }) => Some(
            ("key.create"@, path@, Some(algorithm@)),
        ),
        Command::Key(KeyCommand::Delete { path }) => Some(("key.delete"@, path@, None)),
        Command::Key(KeyCommand::Sign { path, input, output }) => Some(
            ("key.sign"@, path@, None),
        ),
        Command::Key(KeyCommand::Rotate { path }) => Some(("key.rotate"@, path@, None)),
        Command::Secret(SecretCommand::Seal { name, input, policy }) => Some(
            ("secret.seal"@, name@, None),
        ),
        _ => None,
    }
}

/// Finds what the constraints of a profile are held against.
pub fn check_constraints(cmd: &Command) -> (r: Option<Constrained>)
    ensures
        constrained(*cmd) == match r {
            Some(c) => Some((c.operation@, c.path@, opt_text(c.algorithm))),
            None => None,
        },
{
    match cmd {
        Command::Key(KeyCommand::Create { path, algorithm, policy: _ }) => Some(
            Constrained {
                operation: "key.create",
                path: path.clone(),
                algorithm: Some(algorithm.clone()),
            },
        ),
        Command::Key(KeyCommand::Delete { path }) => Some(
            Constrained { operation: "key.delete", path: path.clone(), algorithm: None },
        ),
        Command::Key(KeyCommand::Sign { path, input: _, output: _ }) => Some(
            Constrained { operation: "key.sign", path: path.clone(), algorithm: None },
        ),
        Command::Key(KeyCommand::Rotate { path }) => Some(
            Constrained { operation: "key.rotate", path: path.clone(), algorithm: None },
        ),
        Command::Secret(SecretCommand::Seal { name, input: _, policy: _ }) => Some(
            Constrained { operation: "secret.seal", path: name.clone(), algorithm: None },
        ),
        _ => None,
    }
}

/// The first refusal, in the order operation, path, algorithm. The algorithm
/// counts only where the command names one.
pub open spec fn constraint_refusal(
    names_algorithm: bool,
    operation: Option<Seq<char>>,
    path: Option<Seq<char>>,
    algorithm: Option<Seq<char>>,
) -> Option<Seq<char>> {
    if operation is Some {
        operation
    } else if path is Some {
        path
    } else if names_algorithm {
        algorithm
    } else {
        None
    }
}

/// Refuses a command that a profile does not allow. The three texts say what
/// the profile's constraints have against the operation, the path and the
/// algorithm, if anything.
pub fn hold_to_constraints(
    c: &Constrained,
    operation: Option<&str>,
    path: Option<&str>,
    algorithm: Option<&str>,
) -> (r: Result<(), Failure>)
    ensures
        ({
            let refusal = constraint_refusal(
                c.algorithm is Some,
                opt_str(operation),
                opt_str(path),
                opt_str(algorithm),
            );
            match r {
                Ok(_) => refusal is None,
                Err(e) => refusal == Some(e@),
            }
        }),
{
    match operation {
        Some(e) => {
            return Err(Failure::new(e));
        },
        None => {},
    }
    match path {
        Some(e) => {
            return Err(Failure::new(e));
        },
        None => {},
    }
    if c.algorithm.is_some() {
        match algorithm {
            Some(e) => {
                return Err(Failure::new(e));
            },
            None => {},
        }
    }
    Ok(())
}

/// The parts of the path at which the store lies if no place is named.
pub open spec fn default_place(data: Option<Seq<char>>, home: Option<Seq<char>>) -> Seq<Seq<char>> {
    match (data, home) {
        (Some(d), _) => seq![d, "tpm"@, "tpm.db"@],
        (None, Some(h)) => seq![h, ".local"@, "share"@, "tpm"@, "tpm.db"@],
        (None, None) => seq!["tpm.db"@],
    }
}

/// The parts of the path at which the store lies if no place is named, given
/// the data directory and the home directory of the environment.
pub fn default_store_path(data: Option<&str>, home: Option<&str>) -> (v: Vec<String>)
    ensures
        views(v@) == default_place(opt_str(data), opt_str(home)),
{
    let mut v: Vec<String> = Vec::new();
    match data {
        Some(d) => {
            v.push(d.to_owned());
            v.push("tpm".to_owned());
        },
        None => match home {
            Some(h) => {
                v.push(h.to_owned());
                v.push(".local".to_owned());
                v.push("share".to_owned());
                v.push("tpm".to_owned());
            },
            None => {},
        },
    }
    v.push("tpm.db".to_owned());
    assert(views(v@) =~= default_place(opt_str(data), opt_str(home)));
    v
}

// ---------------------------------------------------------------------------
// Backends
// ---------------------------------------------------------------------------

/// A backend.
#[derive(Debug, Clone, Copy, PartialEq, Eq, Structural)]
pub enum BackendChoice {
    /// Whichever is found.
    Auto,
    Mock,
    Device,
    Swtpm,
    Vtpm,
}

/// Why a hardware backend is not there.
pub const NO_DEVICE: &'static str = "hardware TPM backend not available: rebuild with --features tpm-hw\nThis requires the tpm2-tss development libraries to be installed.";

/// Why the software TPM is not there.
pub const NO_SWTPM: &'static str = "swtpm backend not available: rebuild with --features tpm-hw\nswtpm support uses the same tss-esapi client as the hardware backend.\nSet TPM_SWTPM_TCTI, TPM_SWTPM_SOCKET, or TPM_SWTPM_HOST/PORT to configure.";

/// Why the virtual TPM is not there.
pub const NO_VTPM: &'static str = "vTPM backend not available: rebuild with --features vtpm\nThis embeds a libtpms-based virtual TPM via wasmtime.";

/// The backend of a name. Hardware and virtual TPMs are there only in builds
/// that have them.
pub fn create_backend(name: &str, has_hardware: bool, has_vtpm: bool) -> (r: Result<
    BackendChoice,
    Failure,
>)
    ensures
        match r {
            Ok(b) => match b {
                BackendChoice::Auto => name@ == "auto"@,
                BackendChoice::Mock => name@ == "mock"@,
                BackendChoice::Device => name@ == "device"@ && has_hardware,
                BackendChoice::Swtpm => name@ == "swtpm"@ && has_hardware,
                BackendChoice::Vtpm => name@ == "vtpm"@ && has_vtpm,
            },
            Err(e) => if name@ == "device"@ {
                !has_hardware && e@ == NO_DEVICE@
            } else if name@ == "swtpm"@ {
                !has_hardware && e@ == NO_SWTPM@
            } else if name@ == "vtpm"@ {
                !has_vtpm && e@ == NO_VTPM@
            } else {
                name@ != "auto"@ && name@ != "mock"@ && e@ == "unknown backend: '"@ + name@
                    + "'\navailable backends: auto, mock, device, swtpm, vtpm"@
            },
        },
{
    if same(name, "auto") {
        Ok(BackendChoice::Auto)
    } else if same(name, "mock") {
        Ok(BackendChoice::Mock)
    } else if same(name, "device") {
        if has_hardware {
            Ok(BackendChoice::Device)
        } else {
            Err(Failure::new(NO_DEVICE))
        }
    } else if same(name, "swtpm") {
        if has_hardware {
            Ok(BackendChoice::Swtpm)
        } else {
            Err(Failure::new(NO_SWTPM))
        }
    } else if same(name, "vtpm") {
        if has_vtpm {
            Ok(BackendChoice::Vtpm)
        } else {
            Err(Failure::new(NO_VTPM))
        }
    } else {
        Err(
            Failure::around(
                "unknown backend: '",
                name,
                "'\navailable backends: auto, mock, device, swtpm, vtpm",
            ),
        )
    }
}

/// The file of the virtual TPM's component.
pub const COMPONENT: &'static str = "tpm-ephemeral.component.wasm";

/// Why the virtual TPM cannot be started.
pub const NO_COMPONENT: &'static str = "vTPM WASM component not found.\nSet TPM_VTPM_COMPONENT to the path of tpm-ephemeral.component.wasm\nor place it in ~/.local/share/tpm/";

/// A place at which the component of the virtual TPM may lie.
#[derive(Debug, Clone, Copy, PartialEq, Eq, Structural)]
pub enum ComponentPlace {
    /// Where the environment says.
    Named,
    /// In the working directory.
    Here,
    /// Under the home directory.
    Home,
}

/// The parts of the path of a place, given what the environment says. Without
/// a home directory the working directory stands in for it.
pub open spec fn component_parts(
    place: ComponentPlace,
    named: Option<Seq<char>>,
    home: Option<Seq<char>>,
) -> Seq<Seq<char>> {
    match place {
        ComponentPlace::Named => match named {
            Some(n) => seq![n],
            None => Seq::empty(),
        },
        ComponentPlace::Here => seq![COMPONENT@],
        ComponentPlace::Home => seq![
            match home {
                Some(h) => h,
                None => "."@,
            },
            ".local/share/tpm/tpm-ephemeral.component.wasm"@,
        ],
    }
}

/// The parts of the path of a place.
pub fn component_path(place: ComponentPlace, named: Option<&str>, home: Option<&str>) -> (v: Vec<
    String,
>)
    ensures
        views(v@) == component_parts(place, opt_str(named), opt_str(home)),
{
    let mut v: Vec<String> = Vec::new();
    match place {
        ComponentPlace::Named => match named {
            Some(n) => v.push(n.to_owned()),
            None => {},
        },
        ComponentPlace::Here => v.push(COMPONENT.to_owned()),
        ComponentPlace::Home => {
            v.push(
                match home {
                    Some(h) => h.to_owned(),
                    None => ".".to_owned(),
                },
            );
            v.push(".local/share/tpm/tpm-ephemeral.component.wasm".to_owned());
        },
    }
    assert(views(v@) =~= component_parts(place, opt_str(named), opt_str(home)));
    v
}

/// Where the component is taken from when the virtual TPM is asked for by
/// name: where the environment says, whether or not it is there, else in the
/// working directory, else under the home directory. `here` and `at_home` say
/// where it exists.
pub fn vtpm_component(named: Option<&str>, home: Option<&str>, here: bool, at_home: bool) -> (r:
    Result<Vec<String>, Failure>)
    ensures
        match r {
            Ok(v) => (named is Some || here || at_home) && views(v@) == component_parts(
                if named is Some {
                    ComponentPlace::Named
                } else if here {
                    ComponentPlace::Here
                } else {
                    ComponentPlace::Home
                },
                opt_str(named),
                opt_str(home),
            ),
            Err(e) => named is None && !here && !at_home && e@ == NO_COMPONENT@,
        },
{
    if named.is_some() {
        Ok(component_path(ComponentPlace::Named, named, home))
    } else if here {
        Ok(component_path(ComponentPlace::Here, named, home))
    } else if at_home {
        Ok(component_path(ComponentPlace::Home, named, home))
    } else {
        Err(Failure::new(NO_COMPONENT))
    }
}

/// The places that are tried in turn when the backend is looked for: where the
/// environment says, under the home directory, in the working directory.
pub open spec fn places_tried(named: bool) -> Seq<ComponentPlace> {
    if named {
        seq![ComponentPlace::Named, ComponentPlace::Home, ComponentPlace::Here]
    } else {
        seq![ComponentPlace::Home, ComponentPlace::Here]
    }
}

/// The places that are tried in turn when the backend is looked for.
pub fn vtpm_places(named: bool) -> (v: Vec<ComponentPlace>)
    ensures
        v@ == places_tried(named),
{
    let mut v: Vec<ComponentPlace> = Vec::new();
    if named {
        v.push(ComponentPlace::Named);
    }
    v.push(ComponentPlace::Home);
    v.push(ComponentPlace::Here);
    assert(v@ =~= places_tried(named));
    v
}

/// What was found at a place: whether there is a component, and whether a
/// virtual TPM could be started from it.
#[derive(Debug, Clone, Copy, PartialEq, Eq, Structural)]
pub struct Found {
    pub exists: bool,
    pub starts: bool,
}

/// A virtual TPM can be had at place `i`.
pub open spec fn serves(found: Seq<Found>, i: int) -> bool {
    found[i].exists && found[i].starts
}

/// A virtual TPM can be had at place `i` and at none before it.
pub open spec fn serves_first(found: Seq<Found>, i: int) -> bool {
    0 <= i < found.len() && serves(found, i) && forall|k: int|
        0 <= k < i ==> !#[trigger] serves(found, k)
}

/// A virtual TPM can be had nowhere.
pub open spec fn none_serves(found: Seq<Found>) -> bool {
    forall|i: int| 0 <= i < found.len() ==> !#[trigger] serves(found, i)
}

/// The first place at which a virtual TPM can be had.
pub fn detect_vtpm(named: bool, found: &Vec<Found>) -> (r: Option<ComponentPlace>)
    requires
        found@.len() == places_tried(named).len(),
    ensures
        match r {
            Some(p) => exists|i: int| #[trigger]
                serves_first(found@, i) && p == places_tried(named)[i],
            None => none_serves(found@),
        },
{
    let places = vtpm_places(named);
    let mut i: usize = 0;
    while i < found.len()
        invariant
            i <= found@.len() == places@.len(),
            places@ == places_tried(named),
            forall|k: int| 0 <= k < i ==> !#[trigger] serves(found@, k),
        decreases found@.len() - i,
    {
        if found[i].exists && found[i].starts {
            assert(serves_first(found@, i as int));
            return Some(places[i]);
        }
        i += 1;
    }
    None
}

/// Whether the software TPM is looked for: where one of its four variables is
/// set, or its usual port answers.
pub fn should_probe(tcti: bool, socket: bool, host: bool, port: bool, answers: bool) -> (r: bool)
    ensures
        r == (tcti || socket || host || port || answers),
{
    tcti || socket || host || port || answers
}

/// A backend counts only where it could be asked and says that it is available.
pub open spec fn available(status: Option<&BackendStatus>) -> bool {
    status matches Some(s) && s.available
}

/// Whether a backend counts.
pub fn is_available(status: Option<&BackendStatus>) -> (r: bool)
    ensures
        r == available(status),
{
    match status {
        Some(s) => s.available,
        None => false,
    }
}

/// The backend that is used where none is named: the hardware where its device
/// is there and it is available, else the software TPM where it was looked for
/// and is available, else the virtual one where it could be started, else the
/// mock. A status is missing where the backend could not be opened or asked.
pub fn auto_detect_backend(
    device_exists: bool,
    device: Option<&BackendStatus>,
    probe: bool,
    swtpm: Option<&BackendStatus>,
    vtpm: Option<ComponentPlace>,
) -> (b: BackendChoice)
    ensures
        b == if device_exists && available(device) {
            BackendChoice::Device
        } else if probe && available(swtpm) {
            BackendChoice::Swtpm
        } else if vtpm is Some {
            BackendChoice::Vtpm
        } else {
            BackendChoice::Mock
        },
{
    if device_exists && is_available(device) {
        BackendChoice::Device
    } else if probe && is_available(swtpm) {
        BackendChoice::Swtpm
    } else if vtpm.is_some() {
        BackendChoice::Vtpm
    } else {
        BackendChoice::Mock
    }
}

// ---------------------------------------------------------------------------
// Shells
// ---------------------------------------------------------------------------

/// A shell for which completions can be generated.
#[derive(Debug, Clone, Copy, PartialEq, Eq, Structural)]
pub enum ShellName {
    Bash,
    Zsh,
    Fish,
    Elvish,
    PowerShell,
}

/// The shell of a name in lower case.
pub open spec fn shell_named(s: Seq<char>) -> Option<ShellName> {
    if s == "bash"@ {
        Some(ShellName::Bash)
    } else if s == "zsh"@ {
        Some(ShellName::Zsh)
    } else if s == "fish"@ {
        Some(ShellName::Fish)
    } else if s == "elvish"@ {
        Some(ShellName::Elvish)
    } else if s == "powershell"@ || s == "pwsh"@ {
        Some(ShellName::PowerShell)
    } else {
        None
    }
}

/// The outcome of looking for the shell of a name in lower case.
pub open spec fn shell_found(name: Seq<char>, r: Result<ShellName, Failure>) -> bool {
    match r {
        Ok(s) => shell_named(name) == Some(s),
        Err(e) => shell_named(name) is None && e@ == "unknown shell: '"@ + name
            + "'\navailable: bash, zsh, fish, elvish, powershell"@,
    }
}

/// The shell of a name in lower case.
pub fn shell_in_lower_case(name: &str) -> (r: Result<ShellName, Failure>)
    ensures
        shell_found(name@, r),
{
    if same(name, "bash") {
        Ok(ShellName::Bash)
    } else if same(name, "zsh") {
        Ok(ShellName::Zsh)
    } else if same(name, "fish") {
        Ok(ShellName::Fish)
    } else if same(name, "elvish") {
        Ok(ShellName::Elvish)
    } else if same(name, "powershell") || same(name, "pwsh") {
        Ok(ShellName::PowerShell)
    } else {
        Err(
            Failure::around(
                "unknown shell: '",
                name,
                "'\navailable: bash, zsh, fish, elvish, powershell",
            ),
        )
    }
}

/// The shell of a name, in whatever case it is written.
pub fn generate_completions(shell: &str) -> (r: Result<ShellName, Failure>)
    ensures
        shell_found(lowercase(shell@), r),
{
    let name = to_lowercase(shell);
    shell_in_lower_case(name.as_str())
}

// ---------------------------------------------------------------------------
// The daemon
// ---------------------------------------------------------------------------

/// Says how the daemon is started.
pub fn daemon_run(listen: &str) -> (s: String)
    ensures
        s@ == "starting tpmd on "@ + listen@
            + "...\nuse the tpmd binary directly for the daemon process:\n  TPMD_LISTEN="@ + listen@
            + " tpmd\n"@,
{
    let mut s = String::new();
    s.append("starting tpmd on ");
    s.append(listen);
    s.append("...\nuse the tpmd binary directly for the daemon process:\n  TPMD_LISTEN=");
    s.append(listen);
    s.append(" tpmd\n");
    assert(s@ =~= "starting tpmd on "@ + listen@
        + "...\nuse the tpmd binary directly for the daemon process:\n  TPMD_LISTEN="@ + listen@
        + " tpmd\n"@);
    s
}

/// Says whether the daemon was reached.
pub fn daemon_status(addr: &str, reached: bool) -> (s: String)
    ensures
        s@ == (if reached {
            "daemon reachable at "@
        } else {
            "daemon not reachable at "@
        }) + addr@ + "\n"@,
{
    if reached {
        framed("daemon reachable at ", addr, "\n")
    } else {
        framed("daemon not reachable at ", addr, "\n")
    }
}

} // verus!
