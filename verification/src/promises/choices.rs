//! What is decided before a command is run: what a profile is asked about, which
//! backend serves, and where things lie.
use vstd::prelude::*;

use crate::cli::{
    auto_detect_backend, check_constraints, create_backend, default_store_path, detect_vtpm,
    generate_completions, hold_to_constraints, places_tried, serves, serves_first, should_probe,
    vtpm_component, vtpm_places, BackendChoice, Command, ComponentPlace, Constrained, Found,
    KeyCommand, SecretCommand, ShellName,
};
use crate::failure::Failure;
use crate::model::BackendStatus;
use crate::text::{lowercase, opt_str, opt_text, views};

verus! {

/// Whatever creates, uses, replaces or removes a key, and whatever seals, is
/// held against the profile's constraints, under the path that the command
/// names.
pub proof fn key_commands_are_constrained(cmd: &Command, r: Option<Constrained>)
    requires
        call_ensures(check_constraints, (cmd,), r),
    ensures
        *cmd matches Command::Key(KeyCommand::Create { path, algorithm, .. }) ==> (r matches Some(c)
            && c.path@ == path@ && c.operation@ == "key.create"@ && opt_text(c.algorithm) == Some(
            algorithm@,
        )),
        *cmd matches Command::Key(KeyCommand::Sign { path, .. }) ==> (r matches Some(c) && c.path@
            == path@ && c.operation@ == "key.sign"@ && c.algorithm is None),
        *cmd matches Command::Key(KeyCommand::Delete { path }) ==> (r matches Some(c) && c.path@
            == path@ && c.operation@ == "key.delete"@ && c.algorithm is None),
        *cmd matches Command::Key(KeyCommand::Rotate { path }) ==> (r matches Some(c) && c.path@
            == path@ && c.operation@ == "key.rotate"@ && c.algorithm is None),
        *cmd matches Command::Secret(SecretCommand::Seal { name, .. }) ==> (r matches Some(c)
            && c.path@ == name@ && c.operation@ == "secret.seal"@ && c.algorithm is None),
        !(*cmd is Key) && !(*cmd is Secret) ==> r is None,
        *cmd matches Command::Key(KeyCommand::List) ==> r is None,
        *cmd matches Command::Key(KeyCommand::Show { .. }) ==> r is None,
        *cmd matches Command::Secret(SecretCommand::Unseal { .. }) ==> r is None,
        *cmd matches Command::Secret(SecretCommand::List) ==> r is None,
{
}

/// A command that a profile objects to in any respect does not run; one that it
/// does not object to runs. What is said is one of the objections.
pub proof fn any_objection_refuses(
    c: &Constrained,
    operation: Option<&str>,
    path: Option<&str>,
    algorithm: Option<&str>,
    r: Result<(), Failure>,
)
    requires
        call_ensures(hold_to_constraints, (c, operation, path, algorithm), r),
    ensures
        operation is Some || path is Some || (algorithm is Some && c.algorithm is Some)
            <==> r is Err,
        r matches Err(e) ==> opt_str(operation) == Some(e@) || opt_str(path) == Some(e@)
            || opt_str(algorithm) == Some(e@),
{
}

/// A backend that is named is the backend that is used, where this build has
/// it; a name that no backend has is refused.
pub proof fn named_backend_is_used(
    name: &str,
    has_hardware: bool,
    has_vtpm: bool,
    r: Result<BackendChoice, Failure>,
)
    requires
        call_ensures(create_backend, (name, has_hardware, has_vtpm), r),
    ensures
        name@ == "auto"@ ==> r == Ok::<BackendChoice, Failure>(BackendChoice::Auto),
        name@ == "mock"@ ==> r == Ok::<BackendChoice, Failure>(BackendChoice::Mock),
        name@ == "device"@ ==> (r is Ok <==> has_hardware),
        name@ == "swtpm"@ ==> (r is Ok <==> has_hardware),
        name@ == "vtpm"@ ==> (r is Ok <==> has_vtpm),
        r == Ok::<BackendChoice, Failure>(BackendChoice::Device) ==> name@ == "device"@,
        r == Ok::<BackendChoice, Failure>(BackendChoice::Swtpm) ==> name@ == "swtpm"@,
        r == Ok::<BackendChoice, Failure>(BackendChoice::Vtpm) ==> name@ == "vtpm"@,
        r is Ok ==> name@ == "auto"@ || name@ == "mock"@ || name@ == "device"@ || name@
            == "swtpm"@ || name@ == "vtpm"@,
{
    reveal_strlit("auto");
    reveal_strlit("mock");
    reveal_strlit("device");
    reveal_strlit("swtpm");
    reveal_strlit("vtpm");
    assert("auto"@[0] != "mock"@[0] && "auto"@[0] != "vtpm"@[0] && "mock"@[0] != "vtpm"@[0]);
    assert("auto"@.len() == 4 && "mock"@.len() == 4 && "vtpm"@.len() == 4);
    assert("device"@.len() == 6 && "swtpm"@.len() == 5);
}

/// A backend that cannot be had is never picked, and a real TPM is preferred to
/// a software one, that to a virtual one, and anything to the mock.
pub proof fn best_backend_is_picked(
    device_exists: bool,
    device: Option<&BackendStatus>,
    probe: bool,
    swtpm: Option<&BackendStatus>,
    vtpm: Option<ComponentPlace>,
    b: BackendChoice,
)
    requires
        call_ensures(auto_detect_backend, (device_exists, device, probe, swtpm, vtpm), b),
    ensures
        b == BackendChoice::Device <==> device_exists && (device matches Some(d) && d.available),
        b == BackendChoice::Swtpm ==> probe && (swtpm matches Some(s) && s.available),
        b == BackendChoice::Vtpm ==> vtpm is Some,
        b == BackendChoice::Mock ==> vtpm is None,
        probe && (swtpm matches Some(s) && s.available) ==> b == BackendChoice::Device || b
            == BackendChoice::Swtpm,
        b != BackendChoice::Auto,
{
}

/// The software TPM is left alone just where nothing points at it.
pub proof fn unmentioned_software_is_left_alone(
    tcti: bool,
    socket: bool,
    host: bool,
    port: bool,
    answers: bool,
    r: bool,
)
    requires
        call_ensures(should_probe, (tcti, socket, host, port, answers), r),
    ensures
        !r <==> !tcti && !socket && !host && !port && !answers,
{
}

/// A virtual TPM is started only from a place that was tried, that has the
/// component and starts it; and it is started if there is any such place.
pub proof fn virtual_tpm_is_found(
    named: bool,
    found: &Vec<Found>,
    places: Vec<ComponentPlace>,
    r: Option<ComponentPlace>,
)
    requires
        call_ensures(vtpm_places, (named,), places),
        found@.len() == places@.len(),
        call_ensures(detect_vtpm, (named, found), r),
    ensures
        r is None <==> forall|i: int|
            0 <= i < found@.len() ==> !((#[trigger] found@[i]).exists && found@[i].starts),
        r matches Some(p) ==> exists|i: int|
            0 <= i < found@.len() && (#[trigger] found@[i]).exists && found@[i].starts && places@[i]
                == p,
        places@.contains(ComponentPlace::Named) <==> named,
        places@.contains(ComponentPlace::Home) && places@.contains(ComponentPlace::Here),
{
    if named {
        assert(places@[0] == ComponentPlace::Named && places@[1] == ComponentPlace::Home
            && places@[2] == ComponentPlace::Here);
    } else {
        assert(places@[0] == ComponentPlace::Home && places@[1] == ComponentPlace::Here);
    }
    match r {
        Some(p) => {
            let i = choose|i: int| #[trigger]
                serves_first(found@, i) && p == places_tried(named)[i];
            assert(found@[i].exists && found@[i].starts && places@[i] == p);
        },
        None => {
            assert forall|i: int| 0 <= i < found@.len() implies !((#[trigger] found@[i]).exists
                && found@[i].starts) by {
                assert(!serves(found@, i));
            }
        },
    }
}

/// The component that the environment names is taken, whatever else is there;
/// without one anywhere the virtual TPM is refused.
pub proof fn named_component_is_taken(
    named: Option<&str>,
    home: Option<&str>,
    here: bool,
    at_home: bool,
    r: Result<Vec<String>, Failure>,
)
    requires
        call_ensures(vtpm_component, (named, home, here, at_home), r),
    ensures
        r is Err <==> named is None && !here && !at_home,
        named matches Some(n) ==> (r matches Ok(v) && v@.len() == 1 && v@[0]@ == n@),
        named is None && here ==> (r matches Ok(v) && v@.len() == 1 && v@[0]@
            == "tpm-ephemeral.component.wasm"@),
        named is None && !here && at_home && home is Some ==> (r matches Ok(v) && v@.len() == 2
            && opt_str(home) == Some(v@[0]@)),
{
    if let Ok(v) = r {
        assert(views(v@).len() == v@.len());
        if v@.len() > 0 {
            assert(views(v@)[0] == v@[0]@);
        }
    }
}

/// The store lies in the data directory where there is one, whatever the home
/// directory is; else below the home directory; and it is always one file.
pub proof fn data_directory_comes_first(
    data: Option<&str>,
    home: Option<&str>,
    other: Option<&str>,
    v: Vec<String>,
    w: Vec<String>,
)
    requires
        call_ensures(default_store_path, (data, home), v),
        call_ensures(default_store_path, (data, other), w),
    ensures
        v@.len() > 0 && v@[v@.len() - 1]@ == "tpm.db"@,
        data matches Some(d) ==> v@[0]@ == d@ && v@.len() == 3 && v@[1]@ == "tpm"@ && views(v@)
            == views(w@),
        data is None && home is Some ==> opt_str(home) == Some(v@[0]@) && v@.len() == 5,
        data is None && home is None ==> v@.len() == 1,
{
    assert(views(v@).len() == v@.len());
    assert forall|i: int| 0 <= i < v@.len() implies #[trigger] views(v@)[i] == v@[i]@ by {}
    assert(views(v@)[0] == v@[0]@);
    assert(views(v@)[v@.len() - 1] == v@[v@.len() - 1]@);
    if data is Some {
        assert(views(v@)[1] == v@[1]@);
    }
}

/// The case in which the name of a shell is written does not matter.
pub proof fn shells_in_any_case(
    a: &str,
    b: &str,
    r: Result<ShellName, Failure>,
    s: Result<ShellName, Failure>,
)
    requires
        lowercase(a@) == lowercase(b@),
        call_ensures(generate_completions, (a,), r),
        call_ensures(generate_completions, (b,), s),
    ensures
        r is Ok <==> s is Ok,
        r is Ok ==> r->Ok_0 == s->Ok_0,
        lowercase(a@) == "bash"@ ==> r is Ok && r->Ok_0 == ShellName::Bash,
        lowercase(a@) == "zsh"@ ==> r is Ok && r->Ok_0 == ShellName::Zsh,
        lowercase(a@) == "fish"@ ==> r is Ok && r->Ok_0 == ShellName::Fish,
        lowercase(a@) == "elvish"@ ==> r is Ok && r->Ok_0 == ShellName::Elvish,
        lowercase(a@) == "powershell"@ || lowercase(a@) == "pwsh"@ ==> r is Ok && r->Ok_0
            == ShellName::PowerShell,
{
    reveal_strlit("bash");
    reveal_strlit("zsh");
    reveal_strlit("fish");
    reveal_strlit("elvish");
    reveal_strlit("powershell");
    reveal_strlit("pwsh");
    assert("bash"@[0] != "fish"@[0] && "bash"@[0] != "pwsh"@[0] && "fish"@[0] != "pwsh"@[0]);
    assert("bash"@.len() == 4 && "fish"@.len() == 4 && "pwsh"@.len() == 4);
    assert("zsh"@.len() == 3 && "elvish"@.len() == 6 && "powershell"@.len() == 10);
}

} // verus!
