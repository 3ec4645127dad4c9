//! Manifests: the outcome of applying one, and how far a workspace is from it.
use vstd::prelude::*;
use vstd::string::*;

use crate::failure::Failure;
use crate::plan::PlannedAction;
use crate::text::{decimal, field, lines, push_decimal, push_field, push_lines, yes_no};

verus! {

/// Refuses a manifest that could not be parsed, or that has errors. `read` is
/// what is wrong with a manifest that was parsed, or else why it was not.
pub fn load_manifest(file: &str, read: &Result<Vec<String>, String>) -> (r: Result<(), Failure>)
    ensures
        match (read, r) {
            (Err(p), Err(e)) => e@ == "manifest parse error in "@ + file@ + ": "@ + p@ && e.shown()
                == Seq::<char>::empty(),
            (Ok(issues), Err(e)) => issues@.len() > 0 && e@ == decimal(issues@.len())
                + " validation error(s)"@ && e.shown() == "manifest validation errors in "@ + file@
                + ":\n"@ + lines("  "@, issues@),
            (Ok(issues), Ok(_)) => issues@.len() == 0,
            (Err(_), Ok(_)) => false,
        },
{
    let issues = match read {
        Err(p) => {
            let mut m = String::new();
            m.append("manifest parse error in ");
            m.append(file);
            m.append(": ");
            m.append(p.as_str());
            assert(m@ =~= "manifest parse error in "@ + file@ + ": "@ + p@);
            return Err(Failure::new(m.as_str()));
        },
        Ok(issues) => issues,
    };
    if issues.len() == 0 {
        return Ok(());
    }
    let mut shown = String::new();
    shown.append("manifest validation errors in ");
    shown.append(file);
    shown.append(":\n");
    push_lines(&mut shown, "  ", issues);
    assert(shown@ =~= "manifest validation errors in "@ + file@ + ":\n"@ + lines("  "@, issues@));
    let mut m = String::new();
    push_decimal(&mut m, issues.len() as u64);
    m.append(" validation error(s)");
    assert(m@ =~= decimal(issues@.len()) + " validation error(s)"@);
    Err(Failure::diagnosed(m.as_str(), shown))
}

/// What applying a manifest did.
#[derive(Debug)]
pub struct ApplyOutput {
    pub correlation_id: String,
    pub created: Vec<String>,
    pub updated: Vec<String>,
    pub warnings: Vec<String>,
    pub errors: Vec<String>,
}

/// A list under its head; nothing where it is empty.
pub open spec fn section(head: Seq<char>, before: Seq<char>, items: Seq<String>) -> Seq<char> {
    if items.len() == 0 {
        Seq::empty()
    } else {
        head + lines(before, items)
    }
}

fn push_section(out: &mut String, head: &str, before: &str, items: &Vec<String>)
    ensures
        final(out)@ == old(out)@ + section(head@, before@, items@),
{
    let ghost start = out@;
    if items.len() > 0 {
        out.append(head);
        push_lines(out, before, items);
    }
    assert(out@ =~= start + section(head@, before@, items@));
}

impl ApplyOutput {
    /// What applying a manifest did, as it is printed.
    pub open spec fn text(self) -> Seq<char> {
        "apply complete (correlation_id: "@ + self.correlation_id@ + ")\n\n"@ + section(
            "created:\n"@,
            "  + "@,
            self.created@,
        ) + section("updated:\n"@, "  ~ "@, self.updated@) + section(
            "\nwarnings:\n"@,
            "  ! "@,
            self.warnings@,
        ) + section("\nerrors:\n"@, "  x "@, self.errors@) + (if self.created@.len() == 0
            && self.updated@.len() == 0 && self.warnings@.len() == 0 && self.errors@.len() == 0 {
            "no changes (workspace matches manifest)\n"@
        } else {
            Seq::empty()
        })
    }

    /// Prints what applying a manifest did.
    pub fn render_text(&self) -> (s: String)
        ensures
            s@ == self.text(),
    {
        let mut s = String::new();
        s.append("apply complete (correlation_id: ");
        s.append(self.correlation_id.as_str());
        s.append(")\n\n");
        push_section(&mut s, "created:\n", "  + ", &self.created);
        push_section(&mut s, "updated:\n", "  ~ ", &self.updated);
        push_section(&mut s, "\nwarnings:\n", "  ! ", &self.warnings);
        push_section(&mut s, "\nerrors:\n", "  x ", &self.errors);
        if self.created.len() == 0 && self.updated.len() == 0 && self.warnings.len() == 0
            && self.errors.len() == 0 {
            s.append("no changes (workspace matches manifest)\n");
        }
        assert(s@ =~= self.text());
        s
    }
}

/// An action that is missing, as it is printed.
pub open spec fn action_text(a: PlannedAction) -> Seq<char> {
    field("  - "@, a.action@) + (match a.target {
        Some(t) => field("    target: "@, t@),
        None => Seq::empty(),
    }) + ("    risk: "@ + a.risk.text() + "  reversible: "@ + yes_no(a.reversible) + "\n"@)
}

/// The first `n` actions that are missing.
pub open spec fn action_texts(s: Seq<PlannedAction>, n: nat) -> Seq<char>
    decreases n,
{
    if n == 0 {
        Seq::empty()
    } else {
        action_texts(s, (n - 1) as nat) + action_text(s[n - 1])
    }
}

/// How far a workspace is from a manifest, as it is printed.
pub open spec fn diff_text(manifest: Seq<char>, s: Seq<PlannedAction>) -> Seq<char> {
    if s.len() == 0 {
        "no drift (workspace matches manifest "@ + manifest + ")\n"@
    } else {
        "diff: "@ + decimal(s.len()) + " action(s) required to match "@ + manifest + "\n\n"@
            + action_texts(s, s.len())
    }
}

fn describe(a: &PlannedAction) -> (s: String)
    ensures
        s@ == action_text(*a),
{
    let mut s = String::new();
    push_field(&mut s, "  - ", a.action.as_str());
    match &a.target {
        Some(t) => {
            push_field(&mut s, "    target: ", t.as_str());
        },
        None => {},
    }
    s.append("    risk: ");
    s.append(a.risk.name());
    s.append("  reversible: ");
    crate::text::push_yes_no(&mut s, a.reversible);
    s.append("\n");
    assert(s@ =~= action_text(*a));
    s
}

/// Prints how far a workspace is from a manifest.
pub fn diff_cmd(manifest: &str, actions: &Vec<PlannedAction>) -> (s: String)
    ensures
        s@ == diff_text(manifest@, actions@),
{
    let mut s = String::new();
    if actions.len() == 0 {
        s.append("no drift (workspace matches manifest ");
        s.append(manifest);
        s.append(")\n");
        assert(s@ =~= diff_text(manifest@, actions@));
        return s;
    }
    s.append("diff: ");
    push_decimal(&mut s, actions.len() as u64);
    s.append(" action(s) required to match ");
    s.append(manifest);
    s.append("\n\n");
    let ghost start = s@;
    let mut i: usize = 0;
    assert(s@ =~= start + action_texts(actions@, 0));
    while i < actions.len()
        invariant
            i <= actions@.len(),
            s@ == start + action_texts(actions@, i as nat),
        decreases actions@.len() - i,
    {
        let text = describe(&actions[i]);
        s.append(text.as_str());
        i += 1;
        assert(s@ =~= start + action_texts(actions@, i as nat));
    }
    s
}

} // verus!
