//! Policies: creation, listing, deletion and explanation.
use vstd::prelude::*;
use vstd::string::*;

use crate::clock::{fresh_id, now_stamp};
use crate::commands::common::{copy_numbers, numbers, push_numbers};
use crate::failure::Failure;
use crate::ids::{id_text, uuid_form};
use crate::json::{json_object, object1, text_field, text_view};
use crate::model::{rule_views, Policy, PolicyRule, PolicyView, RuleView};
use crate::store::{MemoryStore, StoreState};
use crate::table::{lookup, present, ref_rows, sorted, without, without_absent};
use crate::text::{decimal, field, push_decimal, push_field, push_number};

verus! {

// ---------------------------------------------------------------------------
// Creation
// ---------------------------------------------------------------------------

/// The rules that the options ask for.
pub open spec fn rules_asked(
    indices: Seq<u32>,
    bank: Seq<char>,
    require_password: bool,
) -> Seq<RuleView> {
    (if indices.len() == 0 {
        Seq::empty()
    } else {
        seq![RuleView::PcrMatch { bank, indices }]
    }) + (if require_password {
        seq![RuleView::Password]
    } else {
        Seq::empty()
    })
}

/// A created policy as it is printed.
pub open spec fn created_text(name: Seq<char>, id: u128, rules: nat) -> Seq<char> {
    field("policy created: "@, name) + field("  id: "@, uuid_form(id)) + field(
        "  rules: "@,
        decimal(rules),
    )
}

/// What the creation of a policy does to the store and prints.
pub open spec fn policy_created(
    before: StoreState,
    after: StoreState,
    r: Result<String, Failure>,
    name: Seq<char>,
    rules: Seq<RuleView>,
    id: u128,
    stamp: Seq<char>,
) -> bool {
    match r {
        Ok(s) => !present::<Policy>(before.policies, name) && after == (StoreState {
            policies: before.policies.push(PolicyView { id, name, rules }),
            ..before
        }).logged(
            "policy.create"@,
            None,
            json_object(seq![text_view("name"@, name)]),
            stamp,
        ) && s@ == created_text(name, id, rules.len()),
        Err(e) => present::<Policy>(before.policies, name) && after == before && e@
            == "policy already exists: "@ + name,
    }
}

/// The rules that the options ask for.
pub fn make_rules(indices: &Vec<u32>, bank: &str, require_password: bool) -> (v: Vec<PolicyRule>)
    ensures
        rule_views(v@) == rules_asked(indices@, bank@, require_password),
{
    let mut v: Vec<PolicyRule> = Vec::new();
    if indices.len() > 0 {
        v.push(PolicyRule::PcrMatch { bank: bank.to_owned(), indices: copy_numbers(indices) });
    }
    if require_password {
        v.push(PolicyRule::Password);
    }
    assert(rule_views(v@) =~= rules_asked(indices@, bank@, require_password));
    v
}

/// Creates a policy under a given identifier and time.
pub fn create_at(
    store: &mut MemoryStore,
    name: &str,
    pcr_indices: &Vec<u32>,
    pcr_bank: &str,
    require_password: bool,
    id: u128,
    stamp: &str,
) -> (r: Result<String, Failure>)
    requires
        old(store)@.wf(),
        old(store)@.can_log(),
    ensures
        final(store)@.wf(),
        policy_created(
            old(store)@,
            final(store)@,
            r,
            name@,
            rules_asked(pcr_indices@, pcr_bank@, require_password),
            id,
            stamp@,
        ),
{
    if store.get_policy(name).is_some() {
        return Err(Failure::about("policy already exists: ", name));
    }
    let rules = make_rules(pcr_indices, pcr_bank, require_password);
    let count: usize = rules.len();
    assert(rule_views(rules@).len() == rules@.len());
    store.insert_policy(Policy { id, name: name.to_owned(), rules });
    let details = object1(text_field("name", name));
    store.log_action_at("policy.create", None, details.as_str(), stamp);
    let mut s = String::new();
    push_field(&mut s, "policy created: ", name);
    push_field(&mut s, "  id: ", id_text(id).as_str());
    push_number(&mut s, "  rules: ", count as u64);
    assert(s@ =~= created_text(name@, id, count as nat));
    Ok(s)
}

/// Creates a policy under a fresh identifier.
pub fn create(
    store: &mut MemoryStore,
    name: &str,
    pcr_indices: &Vec<u32>,
    pcr_bank: &str,
    require_password: bool,
) -> (r: Result<String, Failure>)
    requires
        old(store)@.wf(),
        old(store)@.can_log(),
    ensures
        final(store)@.wf(),
        exists|id: u128, stamp: Seq<char>|
            #[trigger] policy_created(
                old(store)@,
                final(store)@,
                r,
                name@,
                rules_asked(pcr_indices@, pcr_bank@, require_password),
                id,
                stamp,
            ),
{
    let id: u128 = fresh_id();
    let stamp = now_stamp();
    create_at(store, name, pcr_indices, pcr_bank, require_password, id, stamp.as_str())
}

// ---------------------------------------------------------------------------
// Rules in words
// ---------------------------------------------------------------------------

/// In which of the places a rule is printed.
#[derive(Debug, Clone, Copy, PartialEq, Eq, Structural)]
pub enum RuleStyle {
    /// In the list of all policies.
    Short,
    /// Where one policy is shown.
    Full,
    /// Where one policy is explained.
    Explained,
}

/// A rule in words.
pub open spec fn rule_text(r: RuleView, style: RuleStyle) -> Seq<char> {
    match (r, style) {
        (RuleView::PcrMatch { bank, indices }, RuleStyle::Short) => "pcr "@ + bank + ":"@ + numbers(
            indices,
            ","@,
        ),
        (RuleView::Password, RuleStyle::Short) => "password"@,
        (RuleView::PcrMatch { bank, indices }, RuleStyle::Full) => "[pcr_match] PCR bank "@ + bank
            + " indices "@ + numbers(indices, ", "@),
        (RuleView::Password, RuleStyle::Full) => "[password] requires auth value"@,
        (RuleView::PcrMatch { bank, indices }, RuleStyle::Explained) => {
            "Platform state (PCR) check: the "@ + bank + " PCR bank values at indices "@ + numbers(
                indices,
                ", "@,
            )
                + " must match the expected digest. This ties the operation to a specific boot/platform state."@
        },
        (
            RuleView::Password,
            RuleStyle::Explained,
        ) => "Password/auth value: the caller must provide the correct authorization value. This is a knowledge-based factor separate from platform state."@,
    }
}

/// A rule in words.
pub fn describe_rule(r: &PolicyRule, style: RuleStyle) -> (s: String)
    ensures
        s@ == rule_text(r@, style),
{
    let mut s = String::new();
    match r {
        PolicyRule::Password => {
            s.append(
                match style {
                    RuleStyle::Short => "password",
                    RuleStyle::Full => "[password] requires auth value",
                    RuleStyle::Explained => "Password/auth value: the caller must provide the correct authorization value. This is a knowledge-based factor separate from platform state.",
                },
            );
        },
        PolicyRule::PcrMatch { bank, indices } => match style {
            RuleStyle::Short => {
                s.append("pcr ");
                s.append(bank.as_str());
                s.append(":");
                push_numbers(&mut s, indices, ",");
            },
            RuleStyle::Full => {
                s.append("[pcr_match] PCR bank ");
                s.append(bank.as_str());
                s.append(" indices ");
                push_numbers(&mut s, indices, ", ");
            },
            RuleStyle::Explained => {
                s.append("Platform state (PCR) check: the ");
                s.append(bank.as_str());
                s.append(" PCR bank values at indices ");
                push_numbers(&mut s, indices, ", ");
                s.append(
                    " must match the expected digest. This ties the operation to a specific boot/platform state.",
                );
            },
        },
    }
    assert(s@ =~= rule_text(r@, style));
    s
}

/// The first `n` rules, each on a line of its own.
pub open spec fn rule_lines(
    before: Seq<char>,
    rules: Seq<RuleView>,
    style: RuleStyle,
    n: nat,
) -> Seq<char>
    decreases n,
{
    if n == 0 {
        Seq::empty()
    } else {
        rule_lines(before, rules, style, (n - 1) as nat) + field(
            before,
            rule_text(rules[n - 1], style),
        )
    }
}

fn push_rules(out: &mut String, before: &str, rules: &Vec<PolicyRule>, style: RuleStyle)
    ensures
        final(out)@ == old(out)@ + rule_lines(
            before@,
            rule_views(rules@),
            style,
            rules@.len(),
        ),
{
    let ghost start = out@;
    let ghost all = rule_views(rules@);
    let mut i: usize = 0;
    assert(out@ =~= start + rule_lines(before@, all, style, 0));
    while i < rules.len()
        invariant
            i <= rules@.len(),
            all == rule_views(rules@),
            out@ == start + rule_lines(before@, all, style, i as nat),
        decreases rules@.len() - i,
    {
        let line = describe_rule(&rules[i], style);
        assert(all[i as int] == rules@[i as int]@);
        push_field(out, before, line.as_str());
        i += 1;
        assert(out@ =~= start + rule_lines(before@, all, style, i as nat));
    }
}

// ---------------------------------------------------------------------------
// Listing
// ---------------------------------------------------------------------------

/// A policy in the list.
pub open spec fn policy_entry(p: PolicyView) -> Seq<char> {
    field("  "@, p.name) + rule_lines("    - "@, p.rules, RuleStyle::Short, p.rules.len())
}

/// The first `n` policies in the list.
pub open spec fn policy_entries(s: Seq<PolicyView>, n: nat) -> Seq<char>
    decreases n,
{
    if n == 0 {
        Seq::empty()
    } else {
        policy_entries(s, (n - 1) as nat) + policy_entry(s[n - 1])
    }
}

/// The policies as they are listed.
pub open spec fn listing(s: Seq<PolicyView>) -> Seq<char> {
    if s.len() == 0 {
        "No policies defined.\n"@
    } else {
        policy_entries(s, s.len())
    }
}

fn entry(p: &Policy) -> (s: String)
    ensures
        s@ == policy_entry(p@),
{
    let mut s = String::new();
    push_field(&mut s, "  ", p.name.as_str());
    push_rules(&mut s, "    - ", &p.rules, RuleStyle::Short);
    assert(rule_views(p.rules@).len() == p.rules@.len());
    assert(s@ =~= policy_entry(p@));
    s
}

/// Lists the policies.
pub fn list(store: &MemoryStore) -> (s: String)
    ensures
        s@ == listing(sorted::<Policy>(store@.policies)),
{
    let policies = store.list_policies();
    let ghost all = ref_rows(policies@);
    if policies.len() == 0 {
        return "No policies defined.\n".to_owned();
    }
    let mut s = String::new();
    let mut i: usize = 0;
    assert(s@ =~= policy_entries(all, 0));
    while i < policies.len()
        invariant
            i <= policies@.len(),
            all == ref_rows(policies@),
            s@ == policy_entries(all, i as nat),
        decreases policies@.len() - i,
    {
        let line = entry(policies[i]);
        assert(all[i as int] == policies@[i as int]@);
        s.append(line.as_str());
        i += 1;
        assert(s@ =~= policy_entries(all, i as nat));
    }
    s
}

// ---------------------------------------------------------------------------
// One policy
// ---------------------------------------------------------------------------

/// A policy as it is shown.
pub open spec fn detail_text(p: PolicyView) -> Seq<char> {
    field("name:  "@, p.name) + field("id:    "@, uuid_form(p.id)) + "rules:\n"@ + (
    if p.rules.len() == 0 {
        "  (none)\n"@
    } else {
        Seq::empty()
    }) + rule_lines("  - "@, p.rules, RuleStyle::Full, p.rules.len())
}

/// Shows a policy.
pub fn show(store: &MemoryStore, name: &str) -> (r: Result<String, Failure>)
    ensures
        match r {
            Ok(s) => lookup::<Policy>(store@.policies, name@) matches Some(p) && s@ == detail_text(
                p,
            ),
            Err(e) => !present::<Policy>(store@.policies, name@) && e@ == "policy not found: "@
                + name@,
        },
{
    match store.get_policy(name) {
        None => Err(Failure::about("policy not found: ", name)),
        Some(p) => {
            let mut s = String::new();
            push_field(&mut s, "name:  ", p.name.as_str());
            push_field(&mut s, "id:    ", id_text(p.id).as_str());
            s.append("rules:\n");
            assert(rule_views(p.rules@).len() == p.rules@.len());
            if p.rules.len() == 0 {
                s.append("  (none)\n");
            }
            push_rules(&mut s, "  - ", &p.rules, RuleStyle::Full);
            assert(s@ =~= detail_text(p@));
            Ok(s)
        },
    }
}

/// Deletes a policy.
pub fn delete(store: &mut MemoryStore, name: &str) -> (r: Result<String, Failure>)
    requires
        old(store)@.wf(),
    ensures
        final(store)@.wf(),
        match r {
            Ok(s) => present::<Policy>(old(store)@.policies, name@) && final(store)@ == (
            StoreState {
                policies: without::<Policy>(old(store)@.policies, name@),
                ..old(store)@
            }) && s@ == field("policy deleted: "@, name@),
            Err(e) => !present::<Policy>(old(store)@.policies, name@) && final(store)@ == old(
                store,
            )@ && e@ == "policy not found: "@ + name@,
        },
{
    if store.delete_policy(name) {
        let mut s = String::new();
        push_field(&mut s, "policy deleted: ", name);
        assert(s@ =~= field("policy deleted: "@, name@));
        Ok(s)
    } else {
        proof {
            without_absent::<Policy>(old(store)@.policies, name@);
        }
        assert(store@ =~= old(store)@);
        Err(Failure::about("policy not found: ", name))
    }
}

// ---------------------------------------------------------------------------
// Explanation
// ---------------------------------------------------------------------------

/// The first `n` requirements, numbered from one.
pub open spec fn requirements(rules: Seq<RuleView>, n: nat) -> Seq<char>
    decreases n,
{
    if n == 0 {
        Seq::empty()
    } else {
        requirements(rules, (n - 1) as nat) + ("  "@ + decimal(n) + ". "@ + rule_text(
            rules[n - 1],
            RuleStyle::Explained,
        ) + "\n\n"@)
    }
}

/// The explanation of a policy.
pub open spec fn explanation(p: PolicyView) -> Seq<char> {
    "policy '"@ + p.name + "' requires "@ + decimal(p.rules.len())
        + " condition(s) to be satisfied\n\n"@ + "requirements:\n"@ + requirements(
        p.rules,
        p.rules.len(),
    ) + field("hint: attach this policy to a key: tpm key create <path> --policy "@, p.name)
}

fn requirement(n: usize, r: &PolicyRule) -> (s: String)
    ensures
        s@ == "  "@ + decimal(n as nat) + ". "@ + rule_text(r@, RuleStyle::Explained) + "\n\n"@,
{
    let mut s = String::new();
    s.append("  ");
    push_decimal(&mut s, n as u64);
    s.append(". ");
    s.append(describe_rule(r, RuleStyle::Explained).as_str());
    s.append("\n\n");
    assert(s@ =~= "  "@ + decimal(n as nat) + ". "@ + rule_text(r@, RuleStyle::Explained)
        + "\n\n"@);
    s
}

/// Explains a policy.
pub fn explain(store: &MemoryStore, name: &str) -> (r: Result<String, Failure>)
    ensures
        match r {
            Ok(s) => lookup::<Policy>(store@.policies, name@) matches Some(p) && s@ == explanation(
                p,
            ),
            Err(e) => !present::<Policy>(store@.policies, name@) && e@ == "policy not found: "@
                + name@,
        },
{
    let p = match store.get_policy(name) {
        None => {
            return Err(Failure::about("policy not found: ", name));
        },
        Some(p) => p,
    };
    let mut s = String::new();
    s.append("policy '");
    s.append(p.name.as_str());
    s.append("' requires ");
    push_decimal(&mut s, p.rules.len() as u64);
    s.append(" condition(s) to be satisfied\n\n");
    s.append("requirements:\n");
    let ghost start = s@;
    let ghost all = rule_views(p.rules@);
    let mut i: usize = 0;
    assert(s@ =~= start + requirements(all, 0));
    while i < p.rules.len()
        invariant
            i <= p.rules@.len(),
            all == rule_views(p.rules@),
            s@ == start + requirements(all, i as nat),
        decreases p.rules@.len() - i,
    {
        let line = requirement(i + 1, &p.rules[i]);
        assert(all[i as int] == p.rules@[i as int]@);
        s.append(line.as_str());
        i += 1;
        assert(s@ =~= start + requirements(all, i as nat));
    }
    push_field(
        &mut s,
        "hint: attach this policy to a key: tpm key create <path> --policy ",
        p.name.as_str(),
    );
    assert(s@ =~= explanation(p@));
    Ok(s)
}

} // verus!
