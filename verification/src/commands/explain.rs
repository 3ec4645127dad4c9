//! Explanations of what a TPM has and does.
use vstd::prelude::*;
use vstd::string::*;

use crate::text::{framed, lowercase, same, to_lowercase};

verus! {

/// What can be explained.
#[derive(Debug, Clone, Copy, PartialEq, Eq, Structural)]
pub enum Topic {
    Pcr,
    Policy,
    Hierarchy,
    Key,
    Seal,
    Attestation,
    Nv,
    Ek,
    Ak,
    Handle,
    Session,
    DictionaryAttack,
}

/// The topic of a name in lower case. Most have several names.
pub open spec fn topic_named(s: Seq<char>) -> Option<Topic> {
    if s == "pcr"@ || s == "pcrs"@ {
        Some(Topic::Pcr)
    } else if s == "policy"@ || s == "policies"@ {
        Some(Topic::Policy)
    } else if s == "hierarchy"@ || s == "hierarchies"@ {
        Some(Topic::Hierarchy)
    } else if s == "key"@ || s == "keys"@ {
        Some(Topic::Key)
    } else if s == "seal"@ || s == "sealed"@ || s == "sealing"@ {
        Some(Topic::Seal)
    } else if s == "attestation"@ || s == "attest"@ || s == "quote"@ {
        Some(Topic::Attestation)
    } else if s == "nv"@ || s == "nvram"@ || s == "nv-index"@ {
        Some(Topic::Nv)
    } else if s == "ek"@ || s == "endorsement-key"@ {
        Some(Topic::Ek)
    } else if s == "ak"@ || s == "attestation-key"@ {
        Some(Topic::Ak)
    } else if s == "handle"@ || s == "handles"@ {
        Some(Topic::Handle)
    } else if s == "session"@ || s == "sessions"@ {
        Some(Topic::Session)
    } else if s == "dictionary-attack"@ || s == "da"@ || s == "lockout"@ {
        Some(Topic::DictionaryAttack)
    } else {
        None
    }
}

/// The topic of a name, in whatever case it is written.
pub fn topic_of(concept: &str) -> (r: Option<Topic>)
    ensures
        r == topic_named(lowercase(concept@)),
{
    let name = to_lowercase(concept);
    topic_in_lower_case(name.as_str())
}

/// The topic of a name in lower case.
pub fn topic_in_lower_case(name: &str) -> (r: Option<Topic>)
    ensures
        r == topic_named(name@),
{
    if same(name, "pcr") || same(name, "pcrs") {
        Some(Topic::Pcr)
    } else if same(name, "policy") || same(name, "policies") {
        Some(Topic::Policy)
    } else if same(name, "hierarchy") || same(name, "hierarchies") {
        Some(Topic::Hierarchy)
    } else if same(name, "key") || same(name, "keys") {
        Some(Topic::Key)
    } else if same(name, "seal") || same(name, "sealed") || same(name, "sealing") {
        Some(Topic::Seal)
    } else if same(name, "attestation") || same(name, "attest") || same(name, "quote") {
        Some(Topic::Attestation)
    } else if same(name, "nv") || same(name, "nvram") || same(name, "nv-index") {
        Some(Topic::Nv)
    } else if same(name, "ek") || same(name, "endorsement-key") {
        Some(Topic::Ek)
    } else if same(name, "ak") || same(name, "attestation-key") {
        Some(Topic::Ak)
    } else if same(name, "handle") || same(name, "handles") {
        Some(Topic::Handle)
    } else if same(name, "session") || same(name, "sessions") {
        Some(Topic::Session)
    } else if same(name, "dictionary-attack") || same(name, "da") || same(name, "lockout") {
        Some(Topic::DictionaryAttack)
    } else {
        None
    }
}

impl Topic {
    /// The explanation.
    pub open spec fn explanation(self) -> Seq<char> {
        match self {
            Topic::Pcr => PCR_EXPLANATION@,
            Topic::Policy => POLICY_EXPLANATION@,
            Topic::Hierarchy => HIERARCHY_EXPLANATION@,
            Topic::Key => KEY_EXPLANATION@,
            Topic::Seal => SEAL_EXPLANATION@,
            Topic::Attestation => ATTESTATION_EXPLANATION@,
            Topic::Nv => NV_EXPLANATION@,
            Topic::Ek => EK_EXPLANATION@,
            Topic::Ak => AK_EXPLANATION@,
            Topic::Handle => HANDLE_EXPLANATION@,
            Topic::Session => SESSION_EXPLANATION@,
            Topic::DictionaryAttack => DA_EXPLANATION@,
        }
    }

    /// The explanation.
    pub fn explain(self) -> (s: &'static str)
        ensures
            s@ == self.explanation(),
    {
        match self {
            Topic::Pcr => PCR_EXPLANATION,
            Topic::Policy => POLICY_EXPLANATION,
            Topic::Hierarchy => HIERARCHY_EXPLANATION,
            Topic::Key => KEY_EXPLANATION,
            Topic::Seal => SEAL_EXPLANATION,
            Topic::Attestation => ATTESTATION_EXPLANATION,
            Topic::Nv => NV_EXPLANATION,
            Topic::Ek => EK_EXPLANATION,
            Topic::Ak => AK_EXPLANATION,
            Topic::Handle => HANDLE_EXPLANATION,
            Topic::Session => SESSION_EXPLANATION,
            Topic::DictionaryAttack => DA_EXPLANATION,
        }
    }
}

/// What is said of a concept that cannot be explained.
pub open spec fn unknown_text(concept: Seq<char>) -> Seq<char> {
    "unknown concept: '"@ + concept
        + "'\n\navailable topics:\n  pcr, policy, hierarchy, key, seal, attestation,\n  nv, ek, ak, handle, session, dictionary-attack\n"@
}

/// The explanation of a concept, or what is said where there is none.
pub fn run(concept: &str) -> (r: Result<String, String>)
    ensures
        match topic_named(lowercase(concept@)) {
            Some(t) => r matches Ok(s) && s@ == t.explanation(),
            None => r matches Err(s) && s@ == unknown_text(concept@),
        },
{
    match topic_of(concept) {
        Some(t) => Ok(t.explain().to_owned()),
        None => Err(
            framed(
                "unknown concept: '",
                concept,
                "'\n\navailable topics:\n  pcr, policy, hierarchy, key, seal, attestation,\n  nv, ek, ak, handle, session, dictionary-attack\n",
            ),
        ),
    }
}

/// Registers that record measurements.
pub const PCR_EXPLANATION: &'static str = "\
Platform Configuration Registers (PCRs)

PCRs are a set of registers in the TPM that record measurements of the
system's boot and runtime state. Each PCR holds a hash that is extended
(not overwritten) as the system boots, creating a chain of measurements.

Key properties:
  - PCRs can only be extended, never directly written (except by reset)
  - Each PCR bank uses a specific hash algorithm (sha256, sha384, etc.)
  - Typical PCR indices 0-7 measure firmware and boot components
  - PCR 7 commonly reflects Secure Boot state
  - PCRs 8-15 are often used by the OS and applications

Common uses:
  - Seal secrets to specific boot states (disk encryption keys)
  - Attest machine state to remote verifiers
  - Detect unauthorized boot changes

Commands:
  tpm pcr show                    Show current PCR values
  tpm pcr baseline save <name>    Save current state as baseline
  tpm pcr baseline diff <name>    Compare current state to baseline
";

/// Conditions on operations.
pub const POLICY_EXPLANATION: &'static str = "\
TPM Policies

Policies define conditions that must be satisfied before the TPM will
perform an operation (sign, unseal, etc.). They are attached to objects
at creation time and enforced by the TPM hardware.

Policy types:
  - PCR policy: requires specific PCR values (ties operation to boot state)
  - Password/auth: requires a knowledge factor
  - Locality: requires specific TPM command locality
  - Compound: multiple conditions combined (AND logic)

Key properties:
  - Policies are compiled into a digest that is stored with the object
  - The TPM evaluates policies in a session, not the software
  - Policy changes require recreating the object
  - Policy satisfaction is checked at operation time, not creation time

Commands:
  tpm policy create <name> --pcr sha256:7,11
  tpm policy show <name>
  tpm policy explain <name>
";

/// The four hierarchies.
pub const HIERARCHY_EXPLANATION: &'static str = "\
TPM Hierarchies

The TPM organizes objects into four hierarchies, each with its own
authorization and purpose:

  owner       The primary hierarchy for general-purpose keys and objects.
              Most user keys live here. Controlled by the owner auth.

  endorsement Contains the Endorsement Key (EK), which is a unique
              manufacturer-provisioned identity. Used for attestation
              and privacy-sensitive operations.

  platform    Controlled by the platform firmware (BIOS/UEFI).
              Typically not accessible to the OS directly.

  null        A transient hierarchy cleared on every reboot.
              Objects here do not persist across power cycles.

Most operations use the owner hierarchy. The endorsement hierarchy
is important for attestation workflows.
";

/// Keys.
pub const KEY_EXPLANATION: &'static str = "\
TPM Keys

Keys are the primary objects in a TPM. They are generated inside the
TPM and their private material never leaves the hardware.

Key types:
  - Signing keys: create digital signatures (code signing, attestation)
  - Storage keys: wrap/protect other keys and data
  - Attestation keys (AK): used specifically for TPM quotes

Key properties:
  - Keys exist in a parent-child hierarchy under a primary key
  - Primary keys are derived deterministically from a seed
  - Child keys can be made persistent (survive reboot) or transient
  - Key attributes (fixed-tpm, sign, decrypt) are set at creation

Commands:
  tpm key create <path> --algorithm ecc-p256
  tpm key list
  tpm key show <path>
  tpm key sign <path> --input file.bin
  tpm key export-pub <path>
";

/// Sealing and unsealing.
pub const SEAL_EXPLANATION: &'static str = "\
Sealing and Unsealing

Sealing encrypts data so it can only be decrypted (unsealed) when
specific conditions are met, typically matching PCR values.

How it works:
  1. Data is sealed with a policy (e.g., PCR 7 and 11 must match)
  2. The TPM encrypts the data and stores it as a sealed blob
  3. To unseal, the current system state must satisfy the policy
  4. If PCRs have changed (different boot), unseal fails

Common uses:
  - Disk encryption keys tied to boot state (LUKS + TPM)
  - Application secrets that require specific platform configuration
  - Configuration data that should only be readable in trusted state

Commands:
  tpm secret seal <name> --pcr sha256:7,11 --input secret.txt
  tpm secret unseal <name>
";

/// Remote attestation.
pub const ATTESTATION_EXPLANATION: &'static str = "\
Remote Attestation

Attestation allows a remote party to verify the state of a machine
by requesting a TPM quote — a signed statement of PCR values.

How it works:
  1. Verifier sends a nonce (random challenge)
  2. Machine's TPM signs the current PCR values with an Attestation Key
  3. Verifier checks the signature and PCR values against known-good state
  4. If values match, the machine is in a trusted state

Components:
  - Attestation Key (AK): a restricted signing key for quotes
  - Endorsement Key (EK): proves the AK belongs to a genuine TPM
  - Quote: the signed PCR measurement bundle
  - Event log: detailed record of what was measured into each PCR

Commands:
  tpm quote --pcr sha256:0,7,11 --ak attest/main
";

/// Non-volatile storage.
pub const NV_EXPLANATION: &'static str = "\
NV (Non-Volatile) Storage

NV indices are small, persistent storage locations in the TPM.
Unlike keys, they store arbitrary data (counters, config, certificates).

Properties:
  - Each NV index has a defined size and access policy
  - Data persists across reboots
  - Access can require authorization
  - Some NV indices are read-only after first write (write-once)
  - NV space is limited (typically a few KB total)

Common uses:
  - Monotonic counters (anti-rollback)
  - Platform certificates
  - Small configuration values
  - Endorsement Key certificates

Commands:
  tpm nv define <name> --size 64
  tpm nv write <name> --input data.bin
  tpm nv read <name>
";

/// The endorsement key.
pub const EK_EXPLANATION: &'static str = "\
Endorsement Key (EK)

The EK is a unique key provisioned by the TPM manufacturer. It serves
as the TPM's hardware identity.

Properties:
  - Created from the endorsement hierarchy seed
  - Typically RSA 2048 or ECC P-256
  - Private key never leaves the TPM
  - EK certificate is signed by the manufacturer
  - Used to prove a TPM is genuine

The EK is primarily used in attestation enrollment:
  1. A verifier challenges the TPM using the EK public key
  2. The TPM proves it holds the EK private key
  3. This establishes the TPM's authenticity

The EK itself is usually not used for signing — an Attestation Key (AK)
is created and certified against the EK instead.
";

/// Attestation keys.
pub const AK_EXPLANATION: &'static str = "\
Attestation Key (AK)

An AK is a restricted signing key used specifically for TPM quotes
(remote attestation). It is created under the endorsement or owner
hierarchy and certified against the EK.

Properties:
  - Restricted: can only sign TPM-generated data (quotes, certify)
  - Cannot be used for arbitrary data signing
  - Bound to the TPM — proves quotes come from real hardware
  - Multiple AKs can exist for different purposes

Workflow:
  1. Create an AK
  2. Certify it against the EK (proves it's on a real TPM)
  3. Use the AK to sign quotes for remote verifiers
";

/// Handles.
pub const HANDLE_EXPLANATION: &'static str = "\
TPM Handles

Handles are numeric references to objects loaded in the TPM. This tool
manages handles automatically so you rarely need to think about them.

Handle types:
  - Transient (0x80xxxxxx): temporary, lost on context flush or reboot
  - Persistent (0x81xxxxxx): survive reboot, limited slots available
  - Session (0x03xxxxxx): auth/policy sessions
  - PCR (0x00000000-0x00000017): PCR indices
  - NV (0x01xxxxxx): NV index handles

This tool maps friendly names (e.g., 'signing/release') to handles
internally. Use `tpm key show <path>` to see the underlying handle.

The TPM has limited capacity for loaded objects and sessions.
This tool manages lifecycle automatically.
";

/// Sessions.
pub const SESSION_EXPLANATION: &'static str = "\
TPM Sessions

Sessions are the TPM's mechanism for authorization and policy evaluation.
They are created before operations and carry auth or policy state.

Session types:
  - HMAC session: proves knowledge of an auth value
  - Policy session: evaluates a policy (PCR checks, etc.)
  - Trial session: computes a policy digest without enforcement

Properties:
  - Sessions consume TPM resources (limited slots)
  - Policy sessions accumulate policy assertions
  - Sessions can be saved/loaded to free slots
  - Each command can use up to 3 sessions

This tool manages sessions automatically. You generally don't need
to create or manage them directly.
";

/// Protection against guessing.
pub const DA_EXPLANATION: &'static str = "\
Dictionary Attack Protection (Lockout)

The TPM protects against brute-force auth attempts using a dictionary
attack counter. After too many failed attempts, the TPM locks out.

How it works:
  - Each failed auth attempt increments a counter
  - After a threshold, operations requiring auth are blocked
  - The counter decreases over time (recovery interval)
  - The lockout auth can reset the counter immediately

Key parameters:
  - Max tries: number of failures before lockout
  - Recovery time: seconds between counter decrements
  - Lockout recovery: seconds to wait after full lockout

Commands:
  tpm doctor    Shows current dictionary attack state
  tpm status    Shows if lockout is active

Warning: repeated failed auth attempts can lock the TPM. This tool
tracks failed attempts and warns before approaching the threshold.
";

} // verus!
