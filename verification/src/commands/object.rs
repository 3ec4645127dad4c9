//! All objects of a workspace, as a list and as a tree.
use vstd::prelude::*;
use vstd::string::*;

use crate::commands::common::{class_list, objects_of, ObjectClass};
use crate::grid::{cells_of, column, column_width, print_table, table_text, widest};
use crate::model::{ObjectView, Policy, PolicyView, TpmObject};
use crate::store::{MemoryStore, StoreState};
use crate::table::{ref_rows, sorted};
use crate::text::{cut_time, to_the_second, views};

verus! {

// ---------------------------------------------------------------------------
// The list
// ---------------------------------------------------------------------------

/// The cells of an object in the list.
pub open spec fn object_cells(o: ObjectView) -> Seq<Seq<char>> {
    seq![
        o.path,
        o.kind.text(),
        o.algorithm.text(),
        if o.policy_id is Some {
            "yes"@
        } else {
            "no"@
        },
        to_the_second(o.created_at),
    ]
}

/// The objects as they are listed.
pub open spec fn listing(objects: Seq<ObjectView>) -> Seq<char> {
    if objects.len() == 0 {
        "No objects in workspace.\n"@
    } else {
        let rows = Seq::new(objects.len(), |i: int| object_cells(objects[i]));
        table_text(
            seq!["PATH"@, "KIND"@, "ALGORITHM"@, "POLICY"@, "CREATED"@],
            rows,
            seq![
                widest(column(rows, 0), objects.len()),
                widest(column(rows, 1), objects.len()),
                15usize,
                8usize,
            ],
        )
    }
}

fn object_rows(objects: &Vec<&TpmObject>) -> (rows: Vec<Vec<String>>)
    ensures
        cells_of(rows@) == Seq::new(objects@.len(), |i: int| object_cells(ref_rows(objects@)[i])),
        forall|i: int| 0 <= i < rows@.len() ==> (#[trigger] rows@[i])@.len() == 5,
{
    let mut rows: Vec<Vec<String>> = Vec::new();
    let mut n: usize = 0;
    while n < objects.len()
        invariant
            n <= objects@.len(),
            rows@.len() == n,
            forall|i: int| 0 <= i < rows@.len() ==> (#[trigger] rows@[i])@.len() == 5,
            forall|i: int|
                0 <= i < rows@.len() ==> views((#[trigger] rows@[i])@) == object_cells(
                    objects@[i]@,
                ),
        decreases objects@.len() - n,
    {
        let o: &TpmObject = objects[n];
        assert(o@ == objects@[n as int]@);
        let mut row: Vec<String> = Vec::new();
        row.push(o.path.as_str().to_owned());
        row.push(o.kind.name().to_owned());
        row.push(o.algorithm.name().to_owned());
        row.push(
            (if o.policy_id.is_some() {
                "yes"
            } else {
                "no"
            }).to_owned(),
        );
        row.push(cut_time(o.created_at.as_str()));
        assert(views(row@) =~= object_cells(o@));
        rows.push(row);
        n += 1;
    }
    assert(cells_of(rows@) =~= Seq::new(
        objects@.len(),
        |i: int| object_cells(ref_rows(objects@)[i]),
    ));
    rows
}

/// Lists the objects.
pub fn list(store: &MemoryStore) -> (s: String)
    ensures
        s@ == listing(sorted::<TpmObject>(store@.objects)),
{
    let objects = store.list_objects();
    let ghost all = ref_rows(objects@);
    if objects.len() == 0 {
        return "No objects in workspace.\n".to_owned();
    }
    let rows = object_rows(&objects);
    assert(cells_of(rows@) =~= Seq::new(all.len(), |i: int| object_cells(all[i])));
    let mut head: Vec<String> = Vec::new();
    head.push("PATH".to_owned());
    head.push("KIND".to_owned());
    head.push("ALGORITHM".to_owned());
    head.push("POLICY".to_owned());
    head.push("CREATED".to_owned());
    assert(views(head@) =~= seq!["PATH"@, "KIND"@, "ALGORITHM"@, "POLICY"@, "CREATED"@]);
    let paths: usize = column_width(&rows, 0);
    let kinds: usize = column_width(&rows, 1);
    let mut widths: Vec<usize> = Vec::new();
    widths.push(paths);
    widths.push(kinds);
    widths.push(15);
    widths.push(8);
    assert(widths@ =~= seq![paths, kinds, 15usize, 8usize]);
    print_table(&head, &rows, &widths)
}

// ---------------------------------------------------------------------------
// The tree
// ---------------------------------------------------------------------------

/// The first `n` leaves of a branch. The last leaf closes it.
pub open spec fn leaves(names: Seq<Seq<char>>, n: nat) -> Seq<char>
    decreases n,
{
    if n == 0 {
        Seq::empty()
    } else {
        leaves(names, (n - 1) as nat) + ("    "@ + (if n == names.len() {
            "└──"@
        } else {
            "├──"@
        }) + " "@ + names[n - 1] + "\n"@)
    }
}

/// A branch with its leaves; nothing where it has none.
pub open spec fn branch(label: Seq<char>, names: Seq<Seq<char>>) -> Seq<char> {
    if names.len() == 0 {
        Seq::empty()
    } else {
        label + leaves(names, names.len())
    }
}

/// The paths of objects.
pub open spec fn paths_of(s: Seq<ObjectView>) -> Seq<Seq<char>> {
    Seq::new(s.len(), |i: int| s[i].path)
}

/// The names of policies.
pub open spec fn names_of(s: Seq<PolicyView>) -> Seq<Seq<char>> {
    Seq::new(s.len(), |i: int| s[i].name)
}

/// The tree of a workspace.
pub open spec fn tree_text(s: StoreState) -> Seq<char> {
    let keys = paths_of(class_list(s, ObjectClass::Key));
    let secrets = paths_of(class_list(s, ObjectClass::Secret));
    let nv = paths_of(class_list(s, ObjectClass::Nv));
    let policies = names_of(sorted::<Policy>(s.policies));
    "workspace\n"@ + branch("  keys/\n"@, keys) + branch("  secrets/\n"@, secrets) + branch(
        "  nv/\n"@,
        nv,
    ) + branch("  policies/\n"@, policies) + (if keys.len() == 0 && secrets.len() == 0 && nv.len()
        == 0 && policies.len() == 0 {
        "  (empty)\n"@
    } else {
        Seq::empty()
    })
}

fn push_branch(out: &mut String, label: &str, names: &Vec<String>)
    ensures
        final(out)@ == old(out)@ + branch(label@, views(names@)),
{
    let ghost start = out@;
    let ghost all = views(names@);
    if names.len() == 0 {
        assert(out@ =~= start + branch(label@, all));
        return;
    }
    out.append(label);
    let mut i: usize = 0;
    assert(out@ =~= start + label@ + leaves(all, 0));
    while i < names.len()
        invariant
            i <= names@.len(),
            all == views(names@),
            out@ == start + label@ + leaves(all, i as nat),
        decreases names@.len() - i,
    {
        assert(all[i as int] == names@[i as int]@);
        out.append("    ");
        if i + 1 == names.len() {
            out.append("└──");
        } else {
            out.append("├──");
        }
        out.append(" ");
        out.append(names[i].as_str());
        out.append("\n");
        i += 1;
        assert(out@ =~= start + label@ + leaves(all, i as nat));
    }
    assert(out@ =~= start + branch(label@, all));
}

/// The paths of the objects of a class, in order.
pub fn class_paths(store: &MemoryStore, c: ObjectClass) -> (v: Vec<String>)
    ensures
        views(v@) == paths_of(class_list(store@, c)),
{
    let list = objects_of(store, c);
    let ghost all = ref_rows(list@);
    let mut v: Vec<String> = Vec::new();
    let mut i: usize = 0;
    while i < list.len()
        invariant
            i <= list@.len(),
            all == ref_rows(list@),
            v@.len() == i,
            forall|k: int| 0 <= k < i ==> #[trigger] v@[k]@ == all[k].path,
        decreases list@.len() - i,
    {
        let o: &TpmObject = list[i];
        assert(all[i as int] == o@);
        v.push(o.path.as_str().to_owned());
        i += 1;
    }
    assert(views(v@) =~= paths_of(all));
    v
}

/// The names of the policies, in order.
pub fn policy_names(store: &MemoryStore) -> (v: Vec<String>)
    ensures
        views(v@) == names_of(sorted::<Policy>(store@.policies)),
{
    let list = store.list_policies();
    let ghost all = ref_rows(list@);
    let mut v: Vec<String> = Vec::new();
    let mut i: usize = 0;
    while i < list.len()
        invariant
            i <= list@.len(),
            all == ref_rows(list@),
            v@.len() == i,
            forall|k: int| 0 <= k < i ==> #[trigger] v@[k]@ == all[k].name,
        decreases list@.len() - i,
    {
        let p: &Policy = list[i];
        assert(all[i as int] == p@);
        v.push(p.name.clone());
        i += 1;
    }
    assert(views(v@) =~= names_of(all));
    v
}

/// Prints the tree of a workspace.
pub fn tree(store: &MemoryStore) -> (s: String)
    ensures
        s@ == tree_text(store@),
{
    let keys = class_paths(store, ObjectClass::Key);
    let secrets = class_paths(store, ObjectClass::Secret);
    let nv = class_paths(store, ObjectClass::Nv);
    let policies = policy_names(store);
    let mut s = String::new();
    s.append("workspace\n");
    push_branch(&mut s, "  keys/\n", &keys);
    push_branch(&mut s, "  secrets/\n", &secrets);
    push_branch(&mut s, "  nv/\n", &nv);
    push_branch(&mut s, "  policies/\n", &policies);
    assert(views(keys@).len() == keys@.len());
    assert(views(secrets@).len() == secrets@.len());
    assert(views(nv@).len() == nv@.len());
    assert(views(policies@).len() == policies@.len());
    if keys.len() == 0 && secrets.len() == 0 && nv.len() == 0 && policies.len() == 0 {
        s.append("  (empty)\n");
    }
    assert(s@ =~= tree_text(store@));
    s
}

} // verus!
