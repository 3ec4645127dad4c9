//! Playbooks for recovery.
use vstd::prelude::*;
use vstd::string::*;

use crate::failure::Failure;
use crate::grid::widest;
use crate::text::{decimal, field, pad_right, push_decimal, push_field, push_padded_right, same, views};

verus! {

/// A playbook.
#[derive(Debug, Clone, Copy, PartialEq, Eq, Structural)]
pub enum Playbook {
    /// Recover after TPM clear/reset.
    TpmCleared,
    /// Fix persistent handle mismatches.
    HandleMismatch,
    /// Reconcile objects after profile change.
    ProfileDrift,
    /// Update after expected boot configuration change.
    BootChange,
    /// Recover from corrupted workspace database.
    MetadataCorruption,
    /// Planned key rotation procedure.
    KeyRotation,
}

/// The playbooks, in the order in which they are listed.
pub open spec fn playbooks() -> Seq<Playbook> {
    seq![
        Playbook::TpmCleared,
        Playbook::HandleMismatch,
        Playbook::ProfileDrift,
        Playbook::BootChange,
        Playbook::MetadataCorruption,
        Playbook::KeyRotation,
    ]
}

impl Playbook {
    /// The name.
    pub open spec fn name(self) -> Seq<char> {
        match self {
            Playbook::TpmCleared => "tpm-cleared"@,
            Playbook::HandleMismatch => "handle-mismatch"@,
            Playbook::ProfileDrift => "profile-drift"@,
            Playbook::BootChange => "boot-change"@,
            Playbook::MetadataCorruption => "metadata-corruption"@,
            Playbook::KeyRotation => "key-rotation"@,
        }
    }

    /// The name of a playbook.
    pub fn get_name(self) -> (s: &'static str)
        ensures
            s@ == self.name(),
    {
        match self {
            Playbook::TpmCleared => "tpm-cleared",
            Playbook::HandleMismatch => "handle-mismatch",
            Playbook::ProfileDrift => "profile-drift",
            Playbook::BootChange => "boot-change",
            Playbook::MetadataCorruption => "metadata-corruption",
            Playbook::KeyRotation => "key-rotation",
        }
    }

    /// What it is about.
    pub open spec fn description(self) -> Seq<char> {
        match self {
            Playbook::TpmCleared => "Recover after TPM clear/reset"@,
            Playbook::HandleMismatch => "Fix persistent handle mismatches"@,
            Playbook::ProfileDrift => "Reconcile objects after profile change"@,
            Playbook::BootChange => "Update after expected boot configuration change"@,
            Playbook::MetadataCorruption => "Recover from corrupted workspace database"@,
            Playbook::KeyRotation => "Planned key rotation procedure"@,
        }
    }

    /// What a playbook is for.
    pub fn get_description(self) -> (s: &'static str)
        ensures
            s@ == self.description(),
    {
        match self {
            Playbook::TpmCleared => "Recover after TPM clear/reset",
            Playbook::HandleMismatch => "Fix persistent handle mismatches",
            Playbook::ProfileDrift => "Reconcile objects after profile change",
            Playbook::BootChange => "Update after expected boot configuration change",
            Playbook::MetadataCorruption => "Recover from corrupted workspace database",
            Playbook::KeyRotation => "Planned key rotation procedure",
        }
    }

    /// When it is to be used.
    pub open spec fn when(self) -> Seq<char> {
        match self {
            Playbook::TpmCleared => "The TPM was cleared (owner hierarchy reset), firmware was updated, or the TPM was replaced. Persistent handles and sealed data are lost."@,
            Playbook::HandleMismatch => "Workspace metadata references persistent handles that no longer exist on the TPM, typically after another tool modified TPM state."@,
            Playbook::ProfileDrift => "You switched profiles and some objects were created under old defaults (different algorithms, naming conventions, or policies)."@,
            Playbook::BootChange => "You made intentional changes to boot configuration (kernel update, secure boot key rotation, BIOS update) and sealed secrets or PCR policies no longer match."@,
            Playbook::MetadataCorruption => "The SQLite workspace database is corrupted or inconsistent, commands fail with store errors."@,
            Playbook::KeyRotation => "You need to rotate a key as part of regular security practice or after a potential compromise."@,
        }
    }

    /// When a playbook is to be used.
    pub fn get_when(self) -> (s: &'static str)
        ensures
            s@ == self.when(),
    {
        match self {
            Playbook::TpmCleared => "The TPM was cleared (owner hierarchy reset), firmware was updated, or the TPM was replaced. Persistent handles and sealed data are lost.",
            Playbook::HandleMismatch => "Workspace metadata references persistent handles that no longer exist on the TPM, typically after another tool modified TPM state.",
            Playbook::ProfileDrift => "You switched profiles and some objects were created under old defaults (different algorithms, naming conventions, or policies).",
            Playbook::BootChange => "You made intentional changes to boot configuration (kernel update, secure boot key rotation, BIOS update) and sealed secrets or PCR policies no longer match.",
            Playbook::MetadataCorruption => "The SQLite workspace database is corrupted or inconsistent, commands fail with store errors.",
            Playbook::KeyRotation => "You need to rotate a key as part of regular security practice or after a potential compromise.",
        }
    }

    /// What to beware of.
    pub open spec fn warning(self) -> Option<Seq<char>> {
        match self {
            Playbook::TpmCleared => Some("All previously sealed secrets are unrecoverable if the TPM was cleared. Ensure you have backup copies of critical secrets."@),
            Playbook::HandleMismatch => None,
            Playbook::ProfileDrift => None,
            Playbook::BootChange => Some("If you cannot unseal secrets with the current boot state, you may need to boot back into the previous configuration first."@),
            Playbook::MetadataCorruption => Some("Back up the store file before attempting repair. The file location is shown by `tpm workspace info`."@),
            Playbook::KeyRotation => None,
        }
    }

    /// What is to be heeded before a playbook is followed.
    pub fn get_warning(self) -> (s: Option<&'static str>)
        ensures
            crate::text::opt_str(s) == self.warning(),
    {
        match self {
            Playbook::TpmCleared => Some("All previously sealed secrets are unrecoverable if the TPM was cleared. Ensure you have backup copies of critical secrets."),
            Playbook::HandleMismatch => None,
            Playbook::ProfileDrift => None,
            Playbook::BootChange => Some("If you cannot unseal secrets with the current boot state, you may need to boot back into the previous configuration first."),
            Playbook::MetadataCorruption => Some("Back up the store file before attempting repair. The file location is shown by `tpm workspace info`."),
            Playbook::KeyRotation => None,
        }
    }

    /// The steps.
    pub open spec fn steps(self) -> Seq<Seq<char>> {
        match self {
            Playbook::TpmCleared => seq![
                "run `tpm repair scan` to identify orphaned workspace objects"@,
                "run `tpm repair plan` to review proposed fixes"@,
                "run `tpm repair apply` to remove stale metadata"@,
                "run `tpm init` to re-establish workspace if needed"@,
                "recreate keys: `tpm key create <path>` for each needed key"@,
                "reseal secrets: `tpm secret seal <name> --input <file>` for each secret"@,
                "update PCR baselines: `tpm pcr baseline save <name> --index 0,7,11`"@,
            ],
            Playbook::HandleMismatch => seq![
                "run `tpm repair scan` to identify mismatched handles"@,
                "run `tpm object list` to see affected objects"@,
                "for each affected key: `tpm key delete <path>` then `tpm key create <path>`"@,
                "or run `tpm repair apply` for automatic cleanup"@,
            ],
            Playbook::ProfileDrift => seq![
                "run `tpm repair scan` to detect drifted objects"@,
                "run `tpm object list` to see all objects with their creation context"@,
                "decide whether to keep, rotate, or recreate each drifted object"@,
                "for rotation: `tpm key rotate <path>` creates new key with current profile defaults"@,
                "run `tpm gc plan` then `tpm gc apply` to clean up rotated predecessors"@,
            ],
            Playbook::BootChange => seq![
                "run `tpm pcr show --index 0,7,11` to see current PCR values"@,
                "run `tpm pcr baseline diff <baseline>` to see what changed"@,
                "if changes are expected, save new baseline: `tpm pcr baseline save <name> --index 0,7,11`"@,
                "reseal secrets that were bound to old PCR state: unseal with old state, then reseal"@,
                "update policies if needed: `tpm policy delete <old>` then `tpm policy create <new> --pcr ...`"@,
            ],
            Playbook::MetadataCorruption => seq![
                "export what you can: `tpm workspace export --output backup.json`"@,
                "check the database: run `sqlite3 <store_path> 'PRAGMA integrity_check'`"@,
                "if repairable: `tpm repair scan` then `tpm repair apply`"@,
                "if unrecoverable: delete the store file and run `tpm init`"@,
                "recreate objects from backup or from the TPM's persistent state"@,
                "run `tpm doctor` to verify workspace health"@,
            ],
            Playbook::KeyRotation => seq![
                "check dependents: `tpm object dependents <path>`"@,
                "notify consumers of the upcoming rotation"@,
                "rotate: `tpm key rotate <path>`"@,
                "export new public key: `tpm key export-pub <path> --export-for <target>`"@,
                "distribute new public key to consumers"@,
                "verify new key works: `tpm key sign <path> --input test.bin`"@,
                "clean up: `tpm gc plan` then `tpm gc apply` to remove archived predecessor"@,
            ],
        }
    }

    /// The steps of a playbook.
    pub fn get_steps(self) -> (v: Vec<String>)
        ensures
            views(v@) == self.steps(),
    {
        let mut v: Vec<String> = Vec::new();
        match self {
            Playbook::TpmCleared => {
                v.push("run `tpm repair scan` to identify orphaned workspace objects".to_owned());
                v.push("run `tpm repair plan` to review proposed fixes".to_owned());
                v.push("run `tpm repair apply` to remove stale metadata".to_owned());
                v.push("run `tpm init` to re-establish workspace if needed".to_owned());
                v.push("recreate keys: `tpm key create <path>` for each needed key".to_owned());
                v.push("reseal secrets: `tpm secret seal <name> --input <file>` for each secret".to_owned());
                v.push("update PCR baselines: `tpm pcr baseline save <name> --index 0,7,11`".to_owned());
            },
            Playbook::HandleMismatch => {
                v.push("run `tpm repair scan` to identify mismatched handles".to_owned());
                v.push("run `tpm object list` to see affected objects".to_owned());
                v.push("for each affected key: `tpm key delete <path>` then `tpm key create <path>`".to_owned());
                v.push("or run `tpm repair apply` for automatic cleanup".to_owned());
            },
            Playbook::ProfileDrift => {
                v.push("run `tpm repair scan` to detect drifted objects".to_owned());
                v.push("run `tpm object list` to see all objects with their creation context".to_owned());
                v.push("decide whether to keep, rotate, or recreate each drifted object".to_owned());
                v.push("for rotation: `tpm key rotate <path>` creates new key with current profile defaults".to_owned());
                v.push("run `tpm gc plan` then `tpm gc apply` to clean up rotated predecessors".to_owned());
            },
            Playbook::BootChange => {
                v.push("run `tpm pcr show --index 0,7,11` to see current PCR values".to_owned());
                v.push("run `tpm pcr baseline diff <baseline>` to see what changed".to_owned());
                v.push("if changes are expected, save new baseline: `tpm pcr baseline save <name> --index 0,7,11`".to_owned());
                v.push("reseal secrets that were bound to old PCR state: unseal with old state, then reseal".to_owned());
                v.push("update policies if needed: `tpm policy delete <old>` then `tpm policy create <new> --pcr ...`".to_owned());
            },
            Playbook::MetadataCorruption => {
                v.push("export what you can: `tpm workspace export --output backup.json`".to_owned());
                v.push("check the database: run `sqlite3 <store_path> 'PRAGMA integrity_check'`".to_owned());
                v.push("if repairable: `tpm repair scan` then `tpm repair apply`".to_owned());
                v.push("if unrecoverable: delete the store file and run `tpm init`".to_owned());
                v.push("recreate objects from backup or from the TPM's persistent state".to_owned());
                v.push("run `tpm doctor` to verify workspace health".to_owned());
            },
            Playbook::KeyRotation => {
                v.push("check dependents: `tpm object dependents <path>`".to_owned());
                v.push("notify consumers of the upcoming rotation".to_owned());
                v.push("rotate: `tpm key rotate <path>`".to_owned());
                v.push("export new public key: `tpm key export-pub <path> --export-for <target>`".to_owned());
                v.push("distribute new public key to consumers".to_owned());
                v.push("verify new key works: `tpm key sign <path> --input test.bin`".to_owned());
                v.push("clean up: `tpm gc plan` then `tpm gc apply` to remove archived predecessor".to_owned());
            },
        }
        assert(views(v@) =~= self.steps());
        v
    }
}

/// The playbooks, in the order in which they are listed.
pub fn all() -> (v: Vec<Playbook>)
    ensures
        v@ == playbooks(),
{
    let mut v: Vec<Playbook> = Vec::new();
    v.push(Playbook::TpmCleared);
    v.push(Playbook::HandleMismatch);
    v.push(Playbook::ProfileDrift);
    v.push(Playbook::BootChange);
    v.push(Playbook::MetadataCorruption);
    v.push(Playbook::KeyRotation);
    assert(v@ =~= playbooks());
    v
}

/// The names of the playbooks.
pub open spec fn names() -> Seq<Seq<char>> {
    Seq::new(playbooks().len(), |i: int| playbooks()[i].name())
}

/// The first `n` playbooks in the list.
pub open spec fn playbook_lines(width: usize, n: nat) -> Seq<char>
    decreases n,
{
    if n == 0 {
        Seq::empty()
    } else {
        playbook_lines(width, (n - 1) as nat) + ("  "@ + pad_right(
            playbooks()[n - 1].name(),
            width as int,
        ) + "  "@ + playbooks()[n - 1].description() + "\n"@)
    }
}

/// The playbooks as they are listed.
pub open spec fn listing() -> Seq<char> {
    "Recovery playbooks:\n\n"@ + playbook_lines(
        widest(names(), names().len()),
        playbooks().len(),
    ) + "\nrun `tpm recover show <name>` for detailed steps\n"@
}

fn playbook_line(p: Playbook, width: usize) -> (s: String)
    ensures
        s@ == "  "@ + pad_right(p.name(), width as int) + "  "@ + p.description() + "\n"@,
{
    let mut s = String::new();
    s.append("  ");
    push_padded_right(&mut s, p.get_name(), width);
    s.append("  ");
    s.append(p.get_description());
    s.append("\n");
    assert(s@ =~= "  "@ + pad_right(p.name(), width as int) + "  "@ + p.description() + "\n"@);
    s
}

/// Lists the playbooks.
pub fn list() -> (s: String)
    ensures
        s@ == listing(),
{
    let v = all();
    let mut w: usize = 0;
    let mut i: usize = 0;
    while i < v.len()
        invariant
            i <= v@.len(),
            v@ == playbooks(),
            w == widest(names(), i as nat),
        decreases v@.len() - i,
    {
        let n: usize = v[i].get_name().len();
        assert(names()[i as int] == v@[i as int].name());
        if n > w {
            w = n;
        }
        i += 1;
    }
    let mut s = String::new();
    s.append("Recovery playbooks:\n\n");
    let ghost start = s@;
    let mut k: usize = 0;
    assert(s@ =~= start + playbook_lines(w, 0));
    while k < v.len()
        invariant
            k <= v@.len(),
            v@ == playbooks(),
            s@ == start + playbook_lines(w, k as nat),
        decreases v@.len() - k,
    {
        let line = playbook_line(v[k], w);
        s.append(line.as_str());
        k += 1;
        assert(s@ =~= start + playbook_lines(w, k as nat));
    }
    s.append("\nrun `tpm recover show <name>` for detailed steps\n");
    assert(s@ =~= listing());
    s
}

/// The first `n` steps, numbered from one.
pub open spec fn numbered(steps: Seq<Seq<char>>, n: nat) -> Seq<char>
    decreases n,
{
    if n == 0 {
        Seq::empty()
    } else {
        numbered(steps, (n - 1) as nat) + ("  "@ + decimal(n) + ". "@ + steps[n - 1] + "\n"@)
    }
}

/// A playbook as it is shown.
pub open spec fn detail_text(p: Playbook) -> Seq<char> {
    "playbook: "@ + p.name() + "\n\n  "@ + p.description() + "\n\nwhen to use:\n  "@ + p.when()
        + "\n\nsteps:\n"@ + numbered(p.steps(), p.steps().len()) + match p.warning() {
        Some(w) => field("\nwarning: "@, w),
        None => Seq::empty(),
    }
}

fn step_line(n: usize, step: &str) -> (s: String)
    ensures
        s@ == "  "@ + decimal(n as nat) + ". "@ + step@ + "\n"@,
{
    let mut s = String::new();
    s.append("  ");
    push_decimal(&mut s, n as u64);
    s.append(". ");
    s.append(step);
    s.append("\n");
    assert(s@ =~= "  "@ + decimal(n as nat) + ". "@ + step@ + "\n"@);
    s
}

fn detail(p: Playbook) -> (s: String)
    ensures
        s@ == detail_text(p),
{
    let mut s = String::new();
    s.append("playbook: ");
    s.append(p.get_name());
    s.append("\n\n  ");
    s.append(p.get_description());
    s.append("\n\nwhen to use:\n  ");
    s.append(p.get_when());
    s.append("\n\nsteps:\n");
    let steps = p.get_steps();
    let ghost all_steps = views(steps@);
    let ghost start = s@;
    let mut k: usize = 0;
    assert(s@ =~= start + numbered(all_steps, 0));
    while k < steps.len()
        invariant
            k <= steps@.len(),
            all_steps == views(steps@),
            s@ == start + numbered(all_steps, k as nat),
        decreases steps@.len() - k,
    {
        assert(all_steps[k as int] == steps@[k as int]@);
        let line = step_line(k + 1, steps[k].as_str());
        s.append(line.as_str());
        k += 1;
        assert(s@ =~= start + numbered(all_steps, k as nat));
    }
    match p.get_warning() {
        Some(w) => {
            push_field(&mut s, "\nwarning: ", w);
        },
        None => {},
    }
    assert(s@ =~= detail_text(p));
    s
}

/// Shows the playbook of a name.
pub fn show(name: &str) -> (r: Result<String, Failure>)
    ensures
        match r {
            Ok(s) => exists|p: Playbook| #[trigger]
                p.name() == name@ && s@ == detail_text(p),
            Err(e) => (forall|p: Playbook| #[trigger] p.name() != name@) && e@
                == "playbook not found: '"@ + name@
                + "'\nrun `tpm recover list` to see available playbooks"@,
        },
{
    let v = all();
    let mut i: usize = 0;
    while i < v.len()
        invariant
            i <= v@.len(),
            v@ == playbooks(),
            forall|k: int| 0 <= k < i ==> (#[trigger] playbooks()[k]).name() != name@,
        decreases v@.len() - i,
    {
        if same(v[i].get_name(), name) {
            return Ok(detail(v[i]));
        }
        i += 1;
    }
    assert forall|p: Playbook| #[trigger] p.name() != name@ by {
        let k = match p {
            Playbook::TpmCleared => 0int,
            Playbook::HandleMismatch => 1int,
            Playbook::ProfileDrift => 2int,
            Playbook::BootChange => 3int,
            Playbook::MetadataCorruption => 4int,
            Playbook::KeyRotation => 5int,
        };
        assert(playbooks()[k] == p);
    }
    Err(
        Failure::around(
            "playbook not found: '",
            name,
            "'\nrun `tpm recover list` to see available playbooks",
        ),
    )
}

} // verus!
