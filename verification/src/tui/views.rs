//! What stands on the screens of the terminal interface.
use vstd::prelude::*;
use vstd::string::*;

use crate::ids::{id_text, uuid_form};
use crate::model::{AuditEntry, EntryView, ObjectView, Policy, PolicyView, TpmObject};
use crate::table::rows;
use crate::text::{
    cut_time, decimal, decimal_text, glue, joined, opt_text, push_decimal, same, to_the_second,
    views,
};
use crate::tui::{rule_summary, rule_words, App, AppView, Modal, ModalView, StatusView};

verus! {

/// How a piece of text stands out.
#[derive(Debug, Clone, Copy, PartialEq, Eq, Structural)]
pub enum Tone {
    Plain,
    Dim,
    Strong,
    Good,
    Caution,
    Notice,
    Bad,
    StrongBad,
    Input,
}

/// A piece of text.
#[derive(Debug)]
pub struct Piece {
    pub text: String,
    pub tone: Tone,
}

impl View for Piece {
    type V = (Seq<char>, Tone);

    open spec fn view(&self) -> (Seq<char>, Tone) {
        (self.text@, self.tone)
    }
}

/// A line of pieces.
pub open spec fn pieces(v: Seq<Piece>) -> Seq<(Seq<char>, Tone)> {
    Seq::new(v.len(), |i: int| v[i]@)
}

/// Lines of pieces.
pub open spec fn line_views(v: Seq<Vec<Piece>>) -> Seq<Seq<(Seq<char>, Tone)>> {
    Seq::new(v.len(), |i: int| pieces(v[i]@))
}

/// A label and a value.
pub open spec fn labelled(label: Seq<char>, value: Seq<char>, tone: Tone) -> Seq<(Seq<char>, Tone)> {
    seq![(label, Tone::Dim), (value, tone)]
}

fn label(name: &str, value: &str, tone: Tone) -> (v: Vec<Piece>)
    ensures
        pieces(v@) == labelled(name@, value@, tone),
{
    let mut v: Vec<Piece> = Vec::new();
    v.push(Piece { text: name.to_owned(), tone: Tone::Dim });
    v.push(Piece { text: value.to_owned(), tone });
    assert(pieces(v@) =~= labelled(name@, value@, tone));
    v
}

fn single(text: &str, tone: Tone) -> (v: Vec<Piece>)
    ensures
        pieces(v@) == seq![(text@, tone)],
{
    let mut v: Vec<Piece> = Vec::new();
    v.push(Piece { text: text.to_owned(), tone });
    assert(pieces(v@) =~= seq![(text@, tone)]);
    v
}

// ---------------------------------------------------------------------------
// The dashboard
// ---------------------------------------------------------------------------

/// What is said of the backend.
pub open spec fn status_lines(s: Option<StatusView>) -> Seq<Seq<(Seq<char>, Tone)>> {
    match s {
        None => seq![seq![("  (unable to query backend)"@, Tone::Bad)]],
        Some(b) => seq![
            labelled("  backend:      "@, b.backend_type, Tone::Plain),
            labelled("  manufacturer: "@, b.manufacturer, Tone::Plain),
            labelled("  firmware:     "@, b.firmware_version, Tone::Plain),
            if b.available {
                labelled("  available:    "@, "yes"@, Tone::Good)
            } else {
                labelled("  available:    "@, "no"@, Tone::Bad)
            },
        ],
    }
}

/// The tone of a state of health.
pub open spec fn health_tone(posture: Seq<char>) -> Tone {
    if posture == "healthy"@ {
        Tone::Good
    } else if posture == "degraded"@ {
        Tone::Caution
    } else if posture == "warning"@ {
        Tone::Notice
    } else {
        Tone::Bad
    }
}

/// What is said of the workspace.
pub open spec fn workspace_lines(v: AppView) -> Seq<Seq<(Seq<char>, Tone)>> {
    seq![
        labelled(
            "  health:    "@,
            v.health_posture + " ("@ + decimal(v.health_score as nat) + "/100)"@,
            health_tone(v.health_posture),
        ),
        labelled("  objects:   "@, decimal(v.objects.len()), Tone::Plain),
        labelled("  policies:  "@, decimal(v.policies.len()), Tone::Plain),
        labelled(
            "  profile:   "@,
            match v.active_profile {
                Some(p) => p,
                None => "(none)"@,
            },
            Tone::Plain,
        ),
    ]
}

fn tone_of(posture: &str) -> (t: Tone)
    ensures
        t == health_tone(posture@),
{
    if same(posture, "healthy") {
        Tone::Good
    } else if same(posture, "degraded") {
        Tone::Caution
    } else if same(posture, "warning") {
        Tone::Notice
    } else {
        Tone::Bad
    }
}

fn health_value(app: &App) -> (s: String)
    ensures
        s@ == app@.health_posture + " ("@ + decimal(app@.health_score as nat) + "/100)"@,
{
    let mut s = String::new();
    s.append(app.health_posture.as_str());
    s.append(" (");
    push_decimal(&mut s, app.health_score as u64);
    s.append("/100)");
    assert(s@ =~= app@.health_posture + " ("@ + decimal(app@.health_score as nat) + "/100)"@);
    s
}

/// The two parts of the dashboard: the backend and the workspace.
pub fn dashboard(app: &App) -> (r: (Vec<Vec<Piece>>, Vec<Vec<Piece>>))
    ensures
        line_views(r.0@) == status_lines(app@.status),
        line_views(r.1@) == workspace_lines(app@),
{
    let mut a: Vec<Vec<Piece>> = Vec::new();
    match &app.status {
        None => {
            a.push(single("  (unable to query backend)", Tone::Bad));
        },
        Some(b) => {
            a.push(label("  backend:      ", b.backend_type.as_str(), Tone::Plain));
            a.push(label("  manufacturer: ", b.manufacturer.as_str(), Tone::Plain));
            a.push(label("  firmware:     ", b.firmware_version.as_str(), Tone::Plain));
            a.push(
                if b.available {
                    label("  available:    ", "yes", Tone::Good)
                } else {
                    label("  available:    ", "no", Tone::Bad)
                },
            );
        },
    }
    assert(line_views(a@) =~= status_lines(app@.status));
    let mut b: Vec<Vec<Piece>> = Vec::new();
    b.push(
        label(
            "  health:    ",
            health_value(app).as_str(),
            tone_of(app.health_posture.as_str()),
        ),
    );
    b.push(
        label("  objects:   ", decimal_text(app.objects.len() as u64).as_str(), Tone::Plain),
    );
    b.push(
        label("  policies:  ", decimal_text(app.policies.len() as u64).as_str(), Tone::Plain),
    );
    b.push(
        label(
            "  profile:   ",
            match &app.active_profile {
                Some(p) => p.as_str(),
                None => "(none)",
            },
            Tone::Plain,
        ),
    );
    assert(rows(app.objects@).len() == app.objects@.len());
    assert(rows(app.policies@).len() == app.policies@.len());
    assert(line_views(b@) =~= workspace_lines(app@));
    (a, b)
}

// ---------------------------------------------------------------------------
// Tables
// ---------------------------------------------------------------------------

/// A time in a pattern of `chrono`.
pub uninterp spec fn time_in(text: Seq<char>, pattern: Seq<char>) -> Option<Seq<char>>;

/// `chrono::DateTime::parse_from_rfc3339`, then `to_utc` and `format`: a
/// function of the time's text and of the pattern. Only patterns that the
/// crate knows are to be given; another one does not print.
#[verifier::external_body]
fn format_time(text: &str, pattern: &str) -> (r: Option<String>)
    requires
        pattern@ == "%Y-%m-%d %H:%M"@ || pattern@ == "%Y-%m-%d %H:%M:%S UTC"@,
    ensures
        opt_text(r) == time_in(text@, pattern@),
{
    let time = chrono::DateTime::parse_from_rfc3339(text).ok()?;
    Some(time.to_utc().format(pattern).to_string())
}

/// A time in a pattern, or as it is where it is no time.
pub open spec fn time_or_text(text: Seq<char>, pattern: Seq<char>) -> Seq<char> {
    match time_in(text, pattern) {
        Some(t) => t,
        None => text,
    }
}

/// The cells of an object.
pub open spec fn object_cells(o: ObjectView) -> Seq<Seq<char>> {
    seq![
        o.path,
        o.kind.text(),
        o.algorithm.text(),
        time_or_text(o.created_at, "%Y-%m-%d %H:%M"@),
    ]
}

/// The cells of an object in its row.
pub fn object_row(o: &TpmObject) -> (v: Vec<String>)
    ensures
        views(v@) == object_cells(o@),
{
    let created = match format_time(o.created_at.as_str(), "%Y-%m-%d %H:%M") {
        Some(t) => t,
        None => o.created_at.clone(),
    };
    let mut v: Vec<String> = Vec::new();
    v.push(o.path.as_str().to_owned());
    v.push(o.kind.name().to_owned());
    v.push(o.algorithm.name().to_owned());
    v.push(created);
    assert(views(v@) =~= object_cells(o@));
    v
}

/// The cells of a policy.
pub open spec fn policy_cells(p: PolicyView) -> Seq<Seq<char>> {
    seq![p.name, decimal(p.rules.len()), joined(rule_words(p.rules), ", "@)]
}

/// The cells of a policy in its row.
pub fn policy_row(p: &Policy) -> (v: Vec<String>)
    ensures
        views(v@) == policy_cells(p@),
{
    assert(p@.rules.len() == p.rules@.len());
    let mut v: Vec<String> = Vec::new();
    v.push(p.name.clone());
    v.push(decimal_text(p.rules.len() as u64));
    v.push(rule_summary(p));
    assert(views(v@) =~= policy_cells(p@));
    v
}

/// The cells of an entry of the log.
pub open spec fn entry_cells(e: EntryView) -> Seq<Seq<char>> {
    seq![
        to_the_second(e.timestamp),
        e.action,
        match e.object_path {
            Some(p) => p,
            None => Seq::empty(),
        },
    ]
}

/// The cells of an entry of the log in its row.
pub fn entry_row(e: &AuditEntry) -> (v: Vec<String>)
    ensures
        views(v@) == entry_cells(e@),
{
    let mut v: Vec<String> = Vec::new();
    v.push(cut_time(e.timestamp.as_str()));
    v.push(e.action.clone());
    v.push(
        match &e.object_path {
            Some(p) => p.clone(),
            None => String::new(),
        },
    );
    assert(views(v@) =~= entry_cells(e@));
    v
}

// ---------------------------------------------------------------------------
// One object
// ---------------------------------------------------------------------------

/// What is said of the selected object.
pub open spec fn detail_lines(v: AppView) -> Seq<Seq<(Seq<char>, Tone)>> {
    if v.selected_index >= v.objects.len() {
        seq![seq![("  (no object selected)"@, Tone::Plain)]]
    } else {
        let o = v.objects[v.selected_index as int];
        seq![
            seq![(""@, Tone::Plain)],
            labelled("  path:       "@, o.path, Tone::Strong),
            labelled("  id:         "@, uuid_form(o.id), Tone::Plain),
            labelled("  kind:       "@, o.kind.text(), Tone::Plain),
            labelled("  algorithm:  "@, o.algorithm.text(), Tone::Plain),
            labelled(
                "  policy:     "@,
                if o.policy_id is Some {
                    "attached"@
                } else {
                    "(none)"@
                },
                Tone::Plain,
            ),
            labelled(
                "  created:    "@,
                time_or_text(o.created_at, "%Y-%m-%d %H:%M:%S UTC"@),
                Tone::Plain,
            ),
            if o.handle_blob is Some {
                labelled("  handle:     "@, "present"@, Tone::Good)
            } else {
                labelled("  handle:     "@, "none"@, Tone::Caution)
            },
        ]
    }
}

/// What is said of the selected object.
pub fn object_detail(app: &App) -> (v: Vec<Vec<Piece>>)
    ensures
        line_views(v@) == detail_lines(app@),
{
    let mut v: Vec<Vec<Piece>> = Vec::new();
    match app.selected_object() {
        None => {
            v.push(single("  (no object selected)", Tone::Plain));
        },
        Some(o) => {
            let created = match format_time(o.created_at.as_str(), "%Y-%m-%d %H:%M:%S UTC") {
                Some(t) => t,
                None => o.created_at.clone(),
            };
            v.push(single("", Tone::Plain));
            v.push(label("  path:       ", o.path.as_str(), Tone::Strong));
            v.push(label("  id:         ", id_text(o.id).as_str(), Tone::Plain));
            v.push(label("  kind:       ", o.kind.name(), Tone::Plain));
            v.push(label("  algorithm:  ", o.algorithm.name(), Tone::Plain));
            v.push(
                label(
                    "  policy:     ",
                    if o.policy_id.is_some() {
                        "attached"
                    } else {
                        "(none)"
                    },
                    Tone::Plain,
                ),
            );
            v.push(label("  created:    ", created.as_str(), Tone::Plain));
            v.push(
                if o.handle_blob.is_some() {
                    label("  handle:     ", "present", Tone::Good)
                } else {
                    label("  handle:     ", "none", Tone::Caution)
                },
            );
        },
    }
    assert(line_views(v@) =~= detail_lines(app@));
    v
}

// ---------------------------------------------------------------------------
// Over the screen
// ---------------------------------------------------------------------------

/// A window over the screen.
#[derive(Debug)]
pub struct Popup {
    pub title: &'static str,
    pub height: u16,
    pub lines: Vec<Vec<Piece>>,
}

/// An empty line.
pub open spec fn blank() -> Seq<(Seq<char>, Tone)> {
    seq![(""@, Tone::Plain)]
}

/// What stands in the window.
pub open spec fn popup_lines(m: ModalView) -> Seq<Seq<(Seq<char>, Tone)>> {
    match m {
        ModalView::Closed => Seq::empty(),
        ModalView::CreateKey(input) => seq![
            blank(),
            labelled("  path: "@, input + "_"@, Tone::Input),
            blank(),
            seq![
                ("  Enter"@, Tone::Strong),
                (" create  "@, Tone::Plain),
                ("Esc"@, Tone::Strong),
                (" cancel"@, Tone::Plain),
            ],
        ],
        ModalView::ConfirmDelete(path) => seq![
            blank(),
            seq![("  delete "@, Tone::Plain), (path, Tone::StrongBad), ("?"@, Tone::Plain)],
            blank(),
            seq![
                ("  y"@, Tone::Strong),
                (" yes  "@, Tone::Plain),
                ("n"@, Tone::Strong),
                (" no"@, Tone::Plain),
            ],
        ],
        ModalView::Message(text) => seq![blank(), seq![("  "@ + text, Tone::Plain)], blank()],
    }
}

fn four(a: &str, b: &str, c: &str, d: &str) -> (v: Vec<Piece>)
    ensures
        pieces(v@) == seq![
            (a@, Tone::Strong),
            (b@, Tone::Plain),
            (c@, Tone::Strong),
            (d@, Tone::Plain),
        ],
{
    let mut v: Vec<Piece> = Vec::new();
    v.push(Piece { text: a.to_owned(), tone: Tone::Strong });
    v.push(Piece { text: b.to_owned(), tone: Tone::Plain });
    v.push(Piece { text: c.to_owned(), tone: Tone::Strong });
    v.push(Piece { text: d.to_owned(), tone: Tone::Plain });
    assert(pieces(v@) =~= seq![
        (a@, Tone::Strong),
        (b@, Tone::Plain),
        (c@, Tone::Strong),
        (d@, Tone::Plain),
    ]);
    v
}

/// The window over the screen, if there is one.
pub fn modal(app: &App) -> (r: Option<Popup>)
    ensures
        match r {
            None => app@.modal is Closed,
            Some(p) => !(app@.modal is Closed) && line_views(p.lines@) == popup_lines(app@.modal)
                && p.height == (if app@.modal is Message {
                5u16
            } else {
                7
            }) && p.title@ == match app@.modal {
                ModalView::CreateKey(_) => " Create Key (ecc-p256) "@,
                ModalView::ConfirmDelete(_) => " Confirm Delete "@,
                _ => " Info "@,
            },
        },
{
    let mut lines: Vec<Vec<Piece>> = Vec::new();
    match &app.modal {
        Modal::Closed => None,
        Modal::CreateKey { input } => {
            lines.push(single("", Tone::Plain));
            lines.push(label("  path: ", glue(input.as_str(), "_").as_str(), Tone::Input));
            lines.push(single("", Tone::Plain));
            lines.push(four("  Enter", " create  ", "Esc", " cancel"));
            assert(line_views(lines@) =~= popup_lines(app@.modal));
            Some(Popup { title: " Create Key (ecc-p256) ", height: 7, lines })
        },
        Modal::ConfirmDelete { path } => {
            let mut question: Vec<Piece> = Vec::new();
            question.push(Piece { text: "  delete ".to_owned(), tone: Tone::Plain });
            question.push(Piece { text: path.clone(), tone: Tone::StrongBad });
            question.push(Piece { text: "?".to_owned(), tone: Tone::Plain });
            assert(pieces(question@) =~= seq![
                ("  delete "@, Tone::Plain),
                (path@, Tone::StrongBad),
                ("?"@, Tone::Plain),
            ]);
            lines.push(single("", Tone::Plain));
            lines.push(question);
            lines.push(single("", Tone::Plain));
            lines.push(four("  y", " yes  ", "n", " no"));
            assert(line_views(lines@) =~= popup_lines(app@.modal));
            Some(Popup { title: " Confirm Delete ", height: 7, lines })
        },
        Modal::Message { text } => {
            lines.push(single("", Tone::Plain));
            lines.push(single(glue("  ", text.as_str()).as_str(), Tone::Plain));
            lines.push(single("", Tone::Plain));
            assert(line_views(lines@) =~= popup_lines(app@.modal));
            Some(Popup { title: " Info ", height: 5, lines })
        },
    }
}

} // verus!
