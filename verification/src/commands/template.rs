//! Worked examples of common configurations.
use vstd::prelude::*;
use vstd::string::*;

use crate::failure::Failure;
use crate::grid::{cells_of, column, column_width, print_table, table_text, widest};
use crate::text::{field, push_field, same, views};

verus! {

/// A worked example.
#[derive(Debug)]
pub struct Template {
    pub name: &'static str,
    pub kind: &'static str,
    /// Empty where no algorithm is involved.
    pub algorithm: &'static str,
    pub description: &'static str,
    pub example: &'static str,
}

pub ghost struct TemplateView {
    pub name: Seq<char>,
    pub kind: Seq<char>,
    pub algorithm: Seq<char>,
    pub description: Seq<char>,
    pub example: Seq<char>,
}

impl View for Template {
    type V = TemplateView;

    open spec fn view(&self) -> TemplateView {
        TemplateView {
            name: self.name@,
            kind: self.kind@,
            algorithm: self.algorithm@,
            description: self.description@,
            example: self.example@,
        }
    }
}

/// The worked examples, in the order in which they are listed.
pub open spec fn templates() -> Seq<TemplateView> {
    seq![
        TemplateView {
            name: "signing-key"@,
            kind: "key"@,
            algorithm: "ecc-p256"@,
            description: "General-purpose signing key (ECC P-256)"@,
            example: "tpm key create signing/my-key --algorithm ecc-p256"@,
        },
        TemplateView {
            name: "signing-key-rsa"@,
            kind: "key"@,
            algorithm: "rsa2048"@,
            description: "RSA signing key (RSA 2048)"@,
            example: "tpm key create signing/my-key --algorithm rsa2048"@,
        },
        TemplateView {
            name: "attestation-key"@,
            kind: "ak"@,
            algorithm: "ecc-p256"@,
            description: "Attestation key for remote quote generation"@,
            example: "tpm attest ak-create attest/main"@,
        },
        TemplateView {
            name: "boot-policy"@,
            kind: "policy"@,
            algorithm: ""@,
            description: "PCR policy for boot integrity (PCR 0, 7)"@,
            example: "tpm policy create boot-policy --pcr 0,7"@,
        },
        TemplateView {
            name: "boot-secret"@,
            kind: "secret"@,
            algorithm: ""@,
            description: "Secret sealed to boot state (PCR 7, 11)"@,
            example: "tpm policy create boot-seal --pcr 7,11 && tpm secret seal my-secret --input secret.txt --policy boot-seal"@,
        },
        TemplateView {
            name: "ci-signer"@,
            kind: "profile"@,
            algorithm: "ecc-p256"@,
            description: "CI/CD artifact signing setup"@,
            example: "tpm init --profile ci-signer && tpm key create signing/release"@,
        },
        TemplateView {
            name: "node-identity"@,
            kind: "profile"@,
            algorithm: "ecc-p256"@,
            description: "Machine identity with AK for attestation"@,
            example: "tpm init && tpm attest ak-create attest/node && tpm attest quote --ak attest/node --pcr 0,7,11"@,
        },
        TemplateView {
            name: "disk-unlock"@,
            kind: "secret"@,
            algorithm: ""@,
            description: "PCR-bound secret for disk encryption key"@,
            example: "tpm policy create luks --pcr 7 && tpm secret seal luks/key --input keyfile --policy luks"@,
        },
    ]
}

/// The views of worked examples.
pub open spec fn template_views(v: Seq<Template>) -> Seq<TemplateView> {
    Seq::new(v.len(), |i: int| v[i]@)
}

/// The worked examples, in the order in which they are listed.
pub fn all() -> (v: Vec<Template>)
    ensures
        template_views(v@) == templates(),
{
    let mut v: Vec<Template> = Vec::new();
    v.push(
        Template {
            name: "signing-key",
            kind: "key",
            algorithm: "ecc-p256",
            description: "General-purpose signing key (ECC P-256)",
            example: "tpm key create signing/my-key --algorithm ecc-p256",
        },
    );
    v.push(
        Template {
            name: "signing-key-rsa",
            kind: "key",
            algorithm: "rsa2048",
            description: "RSA signing key (RSA 2048)",
            example: "tpm key create signing/my-key --algorithm rsa2048",
        },
    );
    v.push(
        Template {
            name: "attestation-key",
            kind: "ak",
            algorithm: "ecc-p256",
            description: "Attestation key for remote quote generation",
            example: "tpm attest ak-create attest/main",
        },
    );
    v.push(
        Template {
            name: "boot-policy",
            kind: "policy",
            algorithm: "",
            description: "PCR policy for boot integrity (PCR 0, 7)",
            example: "tpm policy create boot-policy --pcr 0,7",
        },
    );
    v.push(
        Template {
            name: "boot-secret",
            kind: "secret",
            algorithm: "",
            description: "Secret sealed to boot state (PCR 7, 11)",
            example: "tpm policy create boot-seal --pcr 7,11 && tpm secret seal my-secret --input secret.txt --policy boot-seal",
        },
    );
    v.push(
        Template {
            name: "ci-signer",
            kind: "profile",
            algorithm: "ecc-p256",
            description: "CI/CD artifact signing setup",
            example: "tpm init --profile ci-signer && tpm key create signing/release",
        },
    );
    v.push(
        Template {
            name: "node-identity",
            kind: "profile",
            algorithm: "ecc-p256",
            description: "Machine identity with AK for attestation",
            example: "tpm init && tpm attest ak-create attest/node && tpm attest quote --ak attest/node --pcr 0,7,11",
        },
    );
    v.push(
        Template {
            name: "disk-unlock",
            kind: "secret",
            algorithm: "",
            description: "PCR-bound secret for disk encryption key",
            example: "tpm policy create luks --pcr 7 && tpm secret seal luks/key --input keyfile --policy luks",
        },
    );
    assert(template_views(v@) =~= templates());
    v
}

/// The cells of a worked example in the list.
pub open spec fn template_cells(t: TemplateView) -> Seq<Seq<char>> {
    seq![t.name, t.kind, t.description]
}

/// The worked examples as they are listed.
pub open spec fn listing() -> Seq<char> {
    let rows = Seq::new(templates().len(), |i: int| template_cells(templates()[i]));
    table_text(
        seq!["NAME"@, "KIND"@, "DESCRIPTION"@],
        rows,
        seq![widest(column(rows, 0), rows.len()), widest(column(rows, 1), rows.len())],
    )
}

/// Lists the worked examples.
pub fn list() -> (s: String)
    ensures
        s@ == listing(),
{
    let v = all();
    let ghost want = templates();
    let mut rows: Vec<Vec<String>> = Vec::new();
    let mut n: usize = 0;
    while n < v.len()
        invariant
            n <= v@.len(),
            rows@.len() == n,
            want == template_views(v@),
            forall|i: int| 0 <= i < rows@.len() ==> (#[trigger] rows@[i])@.len() == 3,
            forall|i: int|
                0 <= i < rows@.len() ==> views((#[trigger] rows@[i])@) == template_cells(want[i]),
        decreases v@.len() - n,
    {
        assert(want[n as int] == v@[n as int]@);
        let mut row: Vec<String> = Vec::new();
        row.push(v[n].name.to_owned());
        row.push(v[n].kind.to_owned());
        row.push(v[n].description.to_owned());
        assert(views(row@) =~= template_cells(want[n as int]));
        rows.push(row);
        n += 1;
    }
    assert(cells_of(rows@) =~= Seq::new(want.len(), |i: int| template_cells(want[i])));
    let mut head: Vec<String> = Vec::new();
    head.push("NAME".to_owned());
    head.push("KIND".to_owned());
    head.push("DESCRIPTION".to_owned());
    assert(views(head@) =~= seq!["NAME"@, "KIND"@, "DESCRIPTION"@]);
    let names: usize = column_width(&rows, 0);
    let kinds: usize = column_width(&rows, 1);
    let mut widths: Vec<usize> = Vec::new();
    widths.push(names);
    widths.push(kinds);
    assert(widths@ =~= seq![names, kinds]);
    print_table(&head, &rows, &widths)
}

/// A worked example as it is shown.
pub open spec fn detail_text(t: TemplateView) -> Seq<char> {
    field("template: "@, t.name) + field("  kind:        "@, t.kind) + (if t.algorithm.len() == 0 {
        Seq::empty()
    } else {
        field("  algorithm:   "@, t.algorithm)
    }) + field("  description: "@, t.description) + field("\n  example:\n    $ "@, t.example)
}

/// The worked example at a place has the name.
pub open spec fn template_at(name: Seq<char>, i: int) -> bool {
    0 <= i < templates().len() && templates()[i].name == name
}

/// Shows the worked example of a name.
pub fn show(name: &str) -> (r: Result<String, Failure>)
    ensures
        match r {
            Ok(s) => exists|i: int| #[trigger]
                template_at(name@, i) && s@ == detail_text(templates()[i]) && (forall|k: int|
                    k < i ==> !#[trigger] template_at(name@, k)),
            Err(e) => (forall|i: int| !#[trigger] template_at(name@, i)) && e@
                == "template not found: "@ + name@
                + "\nrun `tpm template list` to see available templates"@,
        },
{
    let v = all();
    let ghost want = templates();
    let mut n: usize = 0;
    while n < v.len()
        invariant
            n <= v@.len(),
            want == template_views(v@),
            want == templates(),
            forall|k: int| k < n ==> !#[trigger] template_at(name@, k),
        decreases v@.len() - n,
    {
        let t = &v[n];
        assert(want[n as int] == t@);
        if same(t.name, name) {
            let mut s = String::new();
            push_field(&mut s, "template: ", t.name);
            push_field(&mut s, "  kind:        ", t.kind);
            if t.algorithm.unicode_len() > 0 {
                push_field(&mut s, "  algorithm:   ", t.algorithm);
            }
            push_field(&mut s, "  description: ", t.description);
            push_field(&mut s, "\n  example:\n    $ ", t.example);
            assert(s@ =~= detail_text(t@));
            assert(template_at(name@, n as int));
            return Ok(s);
        }
        n += 1;
    }
    assert(want.len() == v@.len());
    Err(
        Failure::around(
            "template not found: ",
            name,
            "\nrun `tpm template list` to see available templates",
        ),
    )
}

} // verus!
