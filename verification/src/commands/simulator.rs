//! The software TPM in print.
use vstd::prelude::*;
use vstd::string::*;

use crate::failure::Failure;
use crate::text::{field, push_choice, push_field, yes_no};

verus! {

/// What is to be done when the simulator is to start.
#[derive(Debug, Clone, Copy, PartialEq, Eq, Structural)]
pub enum StartStep {
    /// It runs already.
    AlreadyRunning,
    /// It has to be launched.
    Launch,
}

/// Decides what is to be done when the simulator is to start.
pub fn start_check(installed: bool, running: bool) -> (r: Result<StartStep, Failure>)
    ensures
        match r {
            Ok(step) => installed && step == (if running {
                StartStep::AlreadyRunning
            } else {
                StartStep::Launch
            }),
            Err(e) => !installed && e@
                == "swtpm is not installed.\nInstall it with your package manager:\n- Debian/Ubuntu: apt install swtpm\n- Fedora: dnf install swtpm\n- macOS: brew install swtpm"@,
        },
{
    if !installed {
        return Err(
            Failure::new(
                "swtpm is not installed.\nInstall it with your package manager:\n- Debian/Ubuntu: apt install swtpm\n- Fedora: dnf install swtpm\n- macOS: brew install swtpm",
            ),
        );
    }
    if running {
        Ok(StartStep::AlreadyRunning)
    } else {
        Ok(StartStep::Launch)
    }
}

/// The simulator was launched, as it is printed.
pub open spec fn started_text(socket_path: Seq<char>, state_dir: Seq<char>) -> Seq<char> {
    "swtpm simulator started\n"@ + field("  socket: "@, socket_path) + field(
        "  state:  "@,
        state_dir,
    ) + "\nuse with: tpm --backend swtpm <command>\n"@
}

/// Says that the simulator was launched, or where it runs already.
pub fn start(step: StartStep, socket_path: &str, state_dir: &str) -> (s: String)
    ensures
        s@ == match step {
            StartStep::AlreadyRunning => field("swtpm already running at "@, socket_path@),
            StartStep::Launch => started_text(socket_path@, state_dir@),
        },
{
    let mut s = String::new();
    match step {
        StartStep::AlreadyRunning => {
            push_field(&mut s, "swtpm already running at ", socket_path);
            assert(s@ =~= field("swtpm already running at "@, socket_path@));
        },
        StartStep::Launch => {
            s.append("swtpm simulator started\n");
            push_field(&mut s, "  socket: ", socket_path);
            push_field(&mut s, "  state:  ", state_dir);
            s.append("\nuse with: tpm --backend swtpm <command>\n");
            assert(s@ =~= started_text(socket_path@, state_dir@));
        },
    }
    s
}

/// Says whether the simulator had to be stopped.
pub fn stop(running: bool) -> (s: String)
    ensures
        s@ == if running {
            "swtpm stopped\n"@
        } else {
            "swtpm is not running\n"@
        },
{
    if running {
        "swtpm stopped\n".to_owned()
    } else {
        "swtpm is not running\n".to_owned()
    }
}

/// The state of the simulator as it is printed.
pub open spec fn status_text(
    installed: bool,
    running: bool,
    socket_path: Seq<char>,
    state_dir: Seq<char>,
) -> Seq<char> {
    "swtpm simulator\n"@ + field("  installed: "@, yes_no(installed)) + field(
        "  running:   "@,
        yes_no(running),
    ) + field("  socket:    "@, socket_path) + field("  state:     "@, state_dir)
}

/// Prints the state of the simulator.
pub fn status(installed: bool, running: bool, socket_path: &str, state_dir: &str) -> (s: String)
    ensures
        s@ == status_text(installed, running, socket_path@, state_dir@),
{
    let mut s = String::new();
    s.append("swtpm simulator\n");
    push_choice(&mut s, "  installed: ", installed);
    push_choice(&mut s, "  running:   ", running);
    push_field(&mut s, "  socket:    ", socket_path);
    push_field(&mut s, "  state:     ", state_dir);
    assert(s@ =~= status_text(installed, running, socket_path@, state_dir@));
    s
}

} // verus!
