//! Plans: what would be done, without doing it.
use vstd::prelude::*;
use vstd::string::*;

use crate::text::{
    decimal, field, glue, pad_right, push_choice, push_decimal, push_field, push_padded_right,
    yes_no,
};

verus! {

/// How much harm an action can do.
#[derive(Debug, Clone, Copy, PartialEq, Eq, Structural)]
pub enum Risk {
    Low,
    Medium,
    High,
}

impl Risk {
    /// The name of the risk.
    pub open spec fn text(self) -> Seq<char> {
        match self {
            Risk::Low => "low"@,
            Risk::Medium => "medium"@,
            Risk::High => "high"@,
        }
    }

    /// The name of the risk.
    pub fn name(self) -> (s: &'static str)
        ensures
            s@ == self.text(),
    {
        match self {
            Risk::Low => "low",
            Risk::Medium => "medium",
            Risk::High => "high",
        }
    }
}

/// One detail of an action.
#[derive(Debug)]
pub struct Detail {
    pub key: String,
    pub value: String,
}

/// An action that would be performed.
#[derive(Debug)]
pub struct PlannedAction {
    pub action: String,
    pub target: Option<String>,
    pub details: Vec<Detail>,
    pub risk: Risk,
    pub reversible: bool,
}

/// The first `n` details.
pub open spec fn detail_lines(s: Seq<Detail>, n: nat) -> Seq<char>
    decreases n,
{
    if n == 0 {
        Seq::empty()
    } else {
        detail_lines(s, (n - 1) as nat) + ("     "@ + pad_right(s[n - 1].key@ + ":"@, 11)
            + s[n - 1].value@ + "\n"@)
    }
}

/// Action number `n`.
pub open spec fn action_text(a: PlannedAction, n: nat) -> Seq<char> {
    "  "@ + decimal(n) + ". "@ + a.action@ + "\n"@ + (match a.target {
        Some(t) => field("     target:     "@, t@),
        None => Seq::empty(),
    }) + detail_lines(a.details@, a.details@.len()) + field("     risk:       "@, a.risk.text())
        + field("     reversible: "@, yes_no(a.reversible)) + "\n"@
}

/// The first `n` actions.
pub open spec fn action_texts(s: Seq<PlannedAction>, n: nat) -> Seq<char>
    decreases n,
{
    if n == 0 {
        Seq::empty()
    } else {
        action_texts(s, (n - 1) as nat) + action_text(s[n - 1], n)
    }
}

/// A plan as it is printed.
pub open spec fn plan_text(s: Seq<PlannedAction>) -> Seq<char> {
    "plan: "@ + decimal(s.len()) + " action(s) would be performed\n\n"@ + action_texts(s, s.len())
        + "no changes made (--plan mode)\n"@
}

fn detail_line(d: &Detail) -> (s: String)
    ensures
        s@ == "     "@ + pad_right(d.key@ + ":"@, 11) + d.value@ + "\n"@,
{
    let mut s = String::new();
    s.append("     ");
    let label = glue(d.key.as_str(), ":");
    push_padded_right(&mut s, label.as_str(), 11);
    s.append(d.value.as_str());
    s.append("\n");
    assert(s@ =~= "     "@ + pad_right(d.key@ + ":"@, 11) + d.value@ + "\n"@);
    s
}

fn push_details(out: &mut String, details: &Vec<Detail>)
    ensures
        final(out)@ == old(out)@ + detail_lines(details@, details@.len()),
{
    let ghost start = out@;
    let mut i: usize = 0;
    assert(out@ =~= start + detail_lines(details@, 0));
    while i < details.len()
        invariant
            i <= details@.len(),
            out@ == start + detail_lines(details@, i as nat),
        decreases details@.len() - i,
    {
        let line = detail_line(&details[i]);
        out.append(line.as_str());
        i += 1;
        assert(out@ =~= start + detail_lines(details@, i as nat));
    }
}

fn describe(a: &PlannedAction, n: usize) -> (s: String)
    ensures
        s@ == action_text(*a, n as nat),
{
    let mut s = String::new();
    s.append("  ");
    push_decimal(&mut s, n as u64);
    s.append(". ");
    s.append(a.action.as_str());
    s.append("\n");
    match &a.target {
        Some(t) => {
            push_field(&mut s, "     target:     ", t.as_str());
        },
        None => {},
    }
    push_details(&mut s, &a.details);
    push_field(&mut s, "     risk:       ", a.risk.name());
    push_choice(&mut s, "     reversible: ", a.reversible);
    s.append("\n");
    assert(s@ =~= action_text(*a, n as nat));
    s
}

/// Prints a plan in place of carrying it out.
pub fn show_plan(actions: &Vec<PlannedAction>) -> (s: String)
    ensures
        s@ == plan_text(actions@),
{
    let mut s = String::new();
    s.append("plan: ");
    push_decimal(&mut s, actions.len() as u64);
    s.append(" action(s) would be performed\n\n");
    let ghost start = s@;
    let mut i: usize = 0;
    assert(s@ =~= start + action_texts(actions@, 0));
    while i < actions.len()
        invariant
            i <= actions@.len(),
            s@ == start + action_texts(actions@, i as nat),
        decreases actions@.len() - i,
    {
        let text = describe(&actions[i], i + 1);
        s.append(text.as_str());
        i += 1;
        assert(s@ =~= start + action_texts(actions@, i as nat));
    }
    s.append("no changes made (--plan mode)\n");
    assert(s@ =~= plan_text(actions@));
    s
}

} // verus!
