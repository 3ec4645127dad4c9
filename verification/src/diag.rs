//! Diagnoses: a coded message with causes, suggestions and context.
use vstd::prelude::*;
use vstd::string::*;

use crate::failure::Failure;
use crate::json::{
    field_views, json_object, json_text, text_field, text_view, FieldView, JsonField, JsonLeaf,
    LeafView,
};
use crate::text::{glue, push_lines, views};

verus! {

/// How bad it is.
#[derive(Clone, Copy, PartialEq, Eq, Debug, Structural)]
pub enum Severity {
    Error,
    Warning,
}

impl Severity {
    pub open spec fn text(self) -> Seq<char> {
        match self {
            Severity::Error => "error"@,
            Severity::Warning => "warning"@,
        }
    }

    /// The word for the severity.
    pub fn name(self) -> (s: &'static str)
        ensures
            s@ == self.text(),
    {
        match self {
            Severity::Error => "error",
            Severity::Warning => "warning",
        }
    }
}

/// What a diagnosis is about.
#[derive(Clone, Copy, PartialEq, Eq, Debug, Structural)]
pub enum DiagCode {
    /// A path is not valid.
    E0003,
    /// An object is not there.
    E0004,
    /// The workspace is not healthy.
    E0006,
    /// An object is there already.
    E0007,
    /// An object is of another kind.
    E0100,
    /// A policy is not there.
    E0400,
    /// A quote does not verify.
    E0600,
}

impl DiagCode {
    pub open spec fn text(self) -> Seq<char> {
        match self {
            DiagCode::E0003 => "TPM0003"@,
            DiagCode::E0004 => "TPM0004"@,
            DiagCode::E0006 => "TPM0006"@,
            DiagCode::E0007 => "TPM0007"@,
            DiagCode::E0100 => "TPM0100"@,
            DiagCode::E0400 => "TPM0400"@,
            DiagCode::E0600 => "TPM0600"@,
        }
    }

    /// The code as it is shown.
    pub fn name(self) -> (s: &'static str)
        ensures
            s@ == self.text(),
    {
        match self {
            DiagCode::E0003 => "TPM0003",
            DiagCode::E0004 => "TPM0004",
            DiagCode::E0006 => "TPM0006",
            DiagCode::E0007 => "TPM0007",
            DiagCode::E0100 => "TPM0100",
            DiagCode::E0400 => "TPM0400",
            DiagCode::E0600 => "TPM0600",
        }
    }
}

/// A diagnosis.
#[derive(Debug)]
pub struct Diagnostic {
    pub severity: Severity,
    pub code: DiagCode,
    pub message: String,
    pub causes: Vec<String>,
    pub suggestions: Vec<String>,
    /// Lines of the form `name: value`.
    pub context: Vec<String>,
}

pub ghost struct DiagView {
    pub severity: Severity,
    pub code: DiagCode,
    pub message: Seq<char>,
    pub causes: Seq<Seq<char>>,
    pub suggestions: Seq<Seq<char>>,
    pub context: Seq<Seq<char>>,
}

impl View for Diagnostic {
    type V = DiagView;

    open spec fn view(&self) -> DiagView {
        DiagView {
            severity: self.severity,
            code: self.code,
            message: self.message@,
            causes: views(self.causes@),
            suggestions: views(self.suggestions@),
            context: views(self.context@),
        }
    }
}

/// The first `n` parts, each on a line after a label.
pub open spec fn labelled(label: Seq<char>, parts: Seq<Seq<char>>, n: nat) -> Seq<char>
    decreases n,
{
    if n == 0 {
        Seq::empty()
    } else {
        labelled(label, parts, (n - 1) as nat) + (label + parts[n - 1] + "\n"@)
    }
}

proof fn labelled_is_lines(label: Seq<char>, parts: Seq<String>, n: nat)
    requires
        n <= parts.len(),
    ensures
        labelled(label, views(parts), n) == crate::text::lines_prefix(label, parts, n),
    decreases n,
{
    if n > 0 {
        labelled_is_lines(label, parts, (n - 1) as nat);
    }
}

impl DiagView {
    /// The diagnosis as it is shown.
    pub open spec fn text(self) -> Seq<char> {
        self.severity.text() + "["@ + self.code.text() + "]: "@ + self.message + "\n"@ + labelled(
            "  cause: "@,
            self.causes,
            self.causes.len(),
        ) + labelled("  "@, self.context, self.context.len()) + labelled(
            "  suggestion: "@,
            self.suggestions,
            self.suggestions.len(),
        )
    }

    /// A diagnosis without causes, suggestions or context.
    pub open spec fn plain(severity: Severity, code: DiagCode, message: Seq<char>) -> DiagView {
        DiagView {
            severity,
            code,
            message,
            causes: Seq::empty(),
            suggestions: Seq::empty(),
            context: Seq::empty(),
        }
    }
}

impl Diagnostic {
    /// A diagnosis without causes, suggestions or context.
    pub fn new(severity: Severity, code: DiagCode, message: &str) -> (d: Diagnostic)
        ensures
            d@ == DiagView::plain(severity, code, message@),
    {
        let d = Diagnostic {
            severity,
            code,
            message: message.to_owned(),
            causes: Vec::new(),
            suggestions: Vec::new(),
            context: Vec::new(),
        };
        assert(d@.causes =~= Seq::<Seq<char>>::empty());
        assert(d@.suggestions =~= Seq::<Seq<char>>::empty());
        assert(d@.context =~= Seq::<Seq<char>>::empty());
        d
    }

    /// An error.
    pub fn error(code: DiagCode, message: &str) -> (d: Diagnostic)
        ensures
            d@ == DiagView::plain(Severity::Error, code, message@),
    {
        Diagnostic::new(Severity::Error, code, message)
    }

    /// A warning.
    pub fn warning(code: DiagCode, message: &str) -> (d: Diagnostic)
        ensures
            d@ == DiagView::plain(Severity::Warning, code, message@),
    {
        Diagnostic::new(Severity::Warning, code, message)
    }

    /// Adds a cause.
    pub fn with_cause(self, cause: &str) -> (d: Diagnostic)
        ensures
            d@ == (DiagView { causes: self@.causes.push(cause@), ..self@ }),
    {
        let mut d = self;
        d.causes.push(cause.to_owned());
        assert(d@.causes =~= self@.causes.push(cause@));
        d
    }

    /// Adds a suggestion.
    pub fn with_suggestion(self, suggestion: &str) -> (d: Diagnostic)
        ensures
            d@ == (DiagView { suggestions: self@.suggestions.push(suggestion@), ..self@ }),
    {
        let mut d = self;
        d.suggestions.push(suggestion.to_owned());
        assert(d@.suggestions =~= self@.suggestions.push(suggestion@));
        d
    }

    /// Adds a piece of context.
    pub fn with_context(self, name: &str, value: &str) -> (d: Diagnostic)
        ensures
            d@ == (DiagView { context: self@.context.push(name@ + ": "@ + value@), ..self@ }),
    {
        let mut line = String::new();
        line.append(name);
        line.append(": ");
        line.append(value);
        assert(line@ =~= name@ + ": "@ + value@);
        let mut d = self;
        d.context.push(line);
        assert(d@.context =~= self@.context.push(name@ + ": "@ + value@));
        d
    }

    /// The diagnosis as it is shown.
    pub fn render_text(&self) -> (s: String)
        ensures
            s@ == self@.text(),
    {
        let mut s = String::new();
        s.append(self.severity.name());
        s.append("[");
        s.append(self.code.name());
        s.append("]: ");
        s.append(self.message.as_str());
        s.append("\n");
        push_lines(&mut s, "  cause: ", &self.causes);
        push_lines(&mut s, "  ", &self.context);
        push_lines(&mut s, "  suggestion: ", &self.suggestions);
        proof {
            labelled_is_lines("  cause: "@, self.causes@, self.causes@.len());
            labelled_is_lines("  "@, self.context@, self.context@.len());
            labelled_is_lines("  suggestion: "@, self.suggestions@, self.suggestions@.len());
        }
        assert(s@ =~= self@.text());
        s
    }

    /// The diagnosis as a JSON object.
    pub fn render_json(&self) -> (s: String)
        ensures
            s@ == json_object(
                seq![
                    text_view("severity"@, self@.severity.text()),
                    text_view("code"@, self@.code.text()),
                    text_view("message"@, self@.message),
                    FieldView {
                        group: None,
                        name: "causes"@,
                        value: LeafView::Texts(self@.causes),
                    },
                    FieldView {
                        group: None,
                        name: "suggestions"@,
                        value: LeafView::Texts(self@.suggestions),
                    },
                ],
            ),
    {
        let mut v: Vec<JsonField> = Vec::new();
        v.push(text_field("severity", self.severity.name()));
        v.push(text_field("code", self.code.name()));
        v.push(text_field("message", self.message.as_str()));
        v.push(
            JsonField {
                group: None,
                name: "causes".to_owned(),
                value: JsonLeaf::Texts(copy_texts(&self.causes)),
            },
        );
        v.push(
            JsonField {
                group: None,
                name: "suggestions".to_owned(),
                value: JsonLeaf::Texts(copy_texts(&self.suggestions)),
            },
        );
        assert(field_views(v@) =~= seq![
            text_view("severity"@, self@.severity.text()),
            text_view("code"@, self@.code.text()),
            text_view("message"@, self@.message),
            FieldView { group: None, name: "causes"@, value: LeafView::Texts(self@.causes) },
            FieldView {
                group: None,
                name: "suggestions"@,
                value: LeafView::Texts(self@.suggestions),
            },
        ]);
        json_text(&v)
    }

    /// Refuses with the diagnosis: its message is the refusal's.
    pub fn refuse(&self) -> (f: Failure)
        ensures
            f@ == self@.message,
            f.shown() == self@.text(),
    {
        Failure::diagnosed(self.message.as_str(), self.render_text())
    }
}

/// A copy of a list of texts.
pub fn copy_texts(v: &Vec<String>) -> (r: Vec<String>)
    ensures
        views(r@) == views(v@),
{
    let mut r: Vec<String> = Vec::new();
    let mut i: usize = 0;
    while i < v.len()
        invariant
            i <= v@.len(),
            views(r@) == views(v@).take(i as int),
        decreases v@.len() - i,
    {
        let ghost before = views(r@);
        r.push(v[i].clone());
        assert(views(r@) =~= before.push(views(v@)[i as int]));
        i += 1;
        assert(views(r@) =~= views(v@).take(i as int));
    }
    assert(views(r@) =~= views(v@));
    r
}

/// An error with its diagnosis.
#[derive(Debug)]
pub struct TpmError {
    pub diagnostic: Diagnostic,
}

/// The diagnosis of an object that is not there.
pub open spec fn object_not_found_view(path: Seq<char>) -> DiagView {
    DiagView {
        suggestions: seq!["run `tpm object list` to see available objects"@],
        ..DiagView::plain(Severity::Error, DiagCode::E0004, "object not found: "@ + path)
    }
}

/// The diagnosis of an object that is there already.
pub open spec fn object_already_exists_view(path: Seq<char>) -> DiagView {
    DiagView {
        suggestions: seq!["choose another path or delete the existing object first"@],
        ..DiagView::plain(Severity::Error, DiagCode::E0007, "object already exists: "@ + path)
    }
}

/// The diagnosis of a policy that is not there.
pub open spec fn policy_not_found_view(name: Seq<char>) -> DiagView {
    DiagView {
        suggestions: seq!["run `tpm policy list` to see available policies"@],
        ..DiagView::plain(Severity::Error, DiagCode::E0400, "policy not found: "@ + name)
    }
}

/// The diagnosis of an object of another kind.
pub open spec fn type_mismatch_view(
    object: Seq<char>,
    expected: Seq<char>,
    actual: Seq<char>,
) -> DiagView {
    DiagView::plain(
        Severity::Error,
        DiagCode::E0100,
        "type mismatch: "@ + object + " is a "@ + actual + ", expected a "@ + expected,
    )
}

impl TpmError {
    /// An object is not there.
    pub fn object_not_found(path: &str) -> (e: TpmError)
        ensures
            e.diagnostic@ == object_not_found_view(path@),
    {
        let m = glue("object not found: ", path);
        let d = Diagnostic::error(DiagCode::E0004, m.as_str()).with_suggestion(
            "run `tpm object list` to see available objects",
        );
        assert(d@.suggestions =~= object_not_found_view(path@).suggestions);
        TpmError { diagnostic: d }
    }

    /// An object is there already.
    pub fn object_already_exists(path: &str) -> (e: TpmError)
        ensures
            e.diagnostic@ == object_already_exists_view(path@),
    {
        let m = glue("object already exists: ", path);
        let d = Diagnostic::error(DiagCode::E0007, m.as_str()).with_suggestion(
            "choose another path or delete the existing object first",
        );
        assert(d@.suggestions =~= object_already_exists_view(path@).suggestions);
        TpmError { diagnostic: d }
    }

    /// A policy is not there.
    pub fn policy_not_found(name: &str) -> (e: TpmError)
        ensures
            e.diagnostic@ == policy_not_found_view(name@),
    {
        let m = glue("policy not found: ", name);
        let d = Diagnostic::error(DiagCode::E0400, m.as_str()).with_suggestion(
            "run `tpm policy list` to see available policies",
        );
        assert(d@.suggestions =~= policy_not_found_view(name@).suggestions);
        TpmError { diagnostic: d }
    }

    /// An object is of another kind than was asked for.
    pub fn type_mismatch(object: &str, expected: &str, actual: &str) -> (e: TpmError)
        ensures
            e.diagnostic@ == type_mismatch_view(object@, expected@, actual@),
    {
        let mut m = String::new();
        m.append("type mismatch: ");
        m.append(object);
        m.append(" is a ");
        m.append(actual);
        m.append(", expected a ");
        m.append(expected);
        assert(m@ =~= "type mismatch: "@ + object@ + " is a "@ + actual@ + ", expected a "@
            + expected@);
        TpmError { diagnostic: Diagnostic::error(DiagCode::E0100, m.as_str()) }
    }
}

} // verus!
