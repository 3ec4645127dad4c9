//! Health checks.
use vstd::prelude::*;
use vstd::string::*;

use crate::diag::{DiagCode, DiagView, Diagnostic, Severity};
use crate::model::BackendStatus;
use crate::text::{decimal, opt_text, push_decimal};

verus! {

/// A check and its outcome.
#[derive(Debug)]
pub struct Check {
    pub name: &'static str,
    pub ok: bool,
    pub detail: String,
}

pub ghost struct CheckView {
    pub name: Seq<char>,
    pub ok: bool,
    pub detail: Seq<char>,
}

impl View for Check {
    type V = CheckView;

    open spec fn view(&self) -> CheckView {
        CheckView { name: self.name@, ok: self.ok, detail: self.detail@ }
    }
}

/// Whether the backend can be reached.
pub open spec fn backend_check(status: Result<BackendStatus, String>) -> CheckView {
    let name = "TPM backend reachable"@;
    match status {
        Ok(b) => if b.available {
            CheckView {
                name,
                ok: true,
                detail: b.backend_type@ + " ("@ + b.manufacturer@ + ")"@,
            }
        } else {
            CheckView { name, ok: false, detail: "backend reports unavailable"@ }
        },
        Err(e) => CheckView { name, ok: false, detail: e@ },
    }
}

/// Whether the store can be read.
pub open spec fn store_check(objects: Result<usize, String>) -> CheckView {
    let name = "Metadata store accessible"@;
    match objects {
        Ok(n) => CheckView { name, ok: true, detail: decimal(n as nat) + " objects"@ },
        Err(e) => CheckView { name, ok: false, detail: e@ },
    }
}

/// Which profile is active.
pub open spec fn profile_check(active: Result<Option<String>, String>) -> CheckView {
    let name = "Active profile"@;
    match active {
        Ok(Some(p)) => CheckView { name, ok: true, detail: p@ },
        Ok(None) => CheckView { name, ok: true, detail: "(none set)"@ },
        Err(e) => CheckView { name, ok: false, detail: e@ },
    }
}

fn check_backend(status: &Result<BackendStatus, String>) -> (c: Check)
    ensures
        c@ == backend_check(*status),
{
    let name = "TPM backend reachable";
    match status {
        Ok(b) => if b.available {
            let mut d = String::new();
            d.append(b.backend_type.as_str());
            d.append(" (");
            d.append(b.manufacturer.as_str());
            d.append(")");
            assert(d@ =~= b.backend_type@ + " ("@ + b.manufacturer@ + ")"@);
            Check { name, ok: true, detail: d }
        } else {
            Check { name, ok: false, detail: "backend reports unavailable".to_owned() }
        },
        Err(e) => Check { name, ok: false, detail: e.clone() },
    }
}

fn check_store(objects: &Result<usize, String>) -> (c: Check)
    ensures
        c@ == store_check(*objects),
{
    let name = "Metadata store accessible";
    match objects {
        Ok(n) => {
            let mut d = String::new();
            push_decimal(&mut d, *n as u64);
            d.append(" objects");
            assert(d@ =~= decimal(*n as nat) + " objects"@);
            Check { name, ok: true, detail: d }
        },
        Err(e) => Check { name, ok: false, detail: e.clone() },
    }
}

fn check_profile(active: &Result<Option<String>, String>) -> (c: Check)
    ensures
        c@ == profile_check(*active),
{
    let name = "Active profile";
    match active {
        Ok(Some(p)) => Check { name, ok: true, detail: p.clone() },
        Ok(None) => Check { name, ok: true, detail: "(none set)".to_owned() },
        Err(e) => Check { name, ok: false, detail: e.clone() },
    }
}

/// A check as it is printed.
pub open spec fn check_text(c: CheckView) -> Seq<char> {
    "  ["@ + (if c.ok {
        "ok"@
    } else {
        "FAIL"@
    }) + "] "@ + c.name + " - "@ + c.detail + "\n"@
}

/// The report as it is printed.
pub open spec fn report_text(a: CheckView, b: CheckView, c: CheckView) -> Seq<char> {
    "Doctor Report\n\n"@ + check_text(a) + check_text(b) + check_text(c) + "\nOverall: "@ + (
    if a.ok && b.ok && c.ok {
        "healthy\n"@
    } else {
        "issues found\n"@
    })
}

fn push_check(out: &mut String, c: &Check)
    ensures
        final(out)@ == old(out)@ + check_text(c@),
{
    let ghost start = out@;
    out.append("  [");
    if c.ok {
        out.append("ok");
    } else {
        out.append("FAIL");
    }
    out.append("] ");
    out.append(c.name);
    out.append(" - ");
    out.append(c.detail.as_str());
    out.append("\n");
    assert(out@ =~= start + check_text(c@));
}

/// The diagnosis where a check failed.
pub open spec fn unhealthy_view() -> DiagView {
    DiagView {
        suggestions: seq![
            "run `tpm doctor --verbose` for more details"@,
            "run `tpm repair scan` to check for fixable issues"@,
        ],
        ..DiagView::plain(Severity::Warning, DiagCode::E0006, "some health checks failed"@)
    }
}

/// Reports on the backend, the store and the profile. `objects` and `active`
/// are what the store said when it was asked. Where a check failed, a
/// diagnosis follows.
pub fn run(
    status: &Result<BackendStatus, String>,
    objects: &Result<usize, String>,
    active: &Result<Option<String>, String>,
) -> (r: (String, Option<String>))
    ensures
        r.0@ == report_text(backend_check(*status), store_check(*objects), profile_check(*active)),
        opt_text(r.1) == if backend_check(*status).ok && store_check(*objects).ok && profile_check(
            *active,
        ).ok {
            None
        } else {
            Some(unhealthy_view().text())
        },
{
    let a = check_backend(status);
    let b = check_store(objects);
    let c = check_profile(active);
    let healthy = a.ok && b.ok && c.ok;
    let mut s = String::new();
    s.append("Doctor Report\n\n");
    push_check(&mut s, &a);
    push_check(&mut s, &b);
    push_check(&mut s, &c);
    s.append("\nOverall: ");
    if healthy {
        s.append("healthy\n");
    } else {
        s.append("issues found\n");
    }
    assert(s@ =~= report_text(a@, b@, c@));
    if healthy {
        return (s, None);
    }
    let d = Diagnostic::warning(DiagCode::E0006, "some health checks failed").with_suggestion(
        "run `tpm doctor --verbose` for more details",
    ).with_suggestion("run `tpm repair scan` to check for fixable issues");
    assert(d@.suggestions =~= unhealthy_view().suggestions);
    (s, Some(d.render_text()))
}

} // verus!
