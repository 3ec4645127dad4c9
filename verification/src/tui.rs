//! The terminal interface: which screen is shown, what is selected, and what a
//! key does.
use vstd::prelude::*;
use vstd::string::*;

use crate::commands::capabilities::recent_entries;
use crate::commands::common::copy_bytes;
use crate::commands::policy::{describe_rule, rule_text, RuleStyle};
use crate::commands::status::{lost_count, posture_of, score_of};
use crate::commands::workspace::copy_rules;
use crate::model::{
    rule_views, AuditEntry, BackendStatus, EntryView, ObjectView, Policy, PolicyView, RuleView,
    TpmObject,
};
use crate::store::{active_profile, at_most, newest, MemoryStore, StoreState};
use crate::table::{ref_rows, rows, sorted};
use crate::text::{glue, join, joined, opt_text, views};

pub mod actions;
pub mod event;
pub mod views;

verus! {

// ---------------------------------------------------------------------------
// State
// ---------------------------------------------------------------------------

/// What is shown.
#[derive(Debug, Clone, Copy, PartialEq, Eq, Structural)]
pub enum Screen {
    Dashboard,
    ObjectList,
    ObjectDetail,
    PolicyList,
    AuditLog,
}

/// What is shown over the screen.
#[derive(Debug)]
pub enum Modal {
    Closed,
    /// The path of a key that is to be created is being typed.
    CreateKey { input: String },
    /// The deletion of an object is to be confirmed.
    ConfirmDelete { path: String },
    /// The outcome of an action.
    Message { text: String },
}

pub ghost enum ModalView {
    Closed,
    CreateKey(Seq<char>),
    ConfirmDelete(Seq<char>),
    Message(Seq<char>),
}

impl View for Modal {
    type V = ModalView;

    open spec fn view(&self) -> ModalView {
        match self {
            Modal::Closed => ModalView::Closed,
            Modal::CreateKey { input } => ModalView::CreateKey(input@),
            Modal::ConfirmDelete { path } => ModalView::ConfirmDelete(path@),
            Modal::Message { text } => ModalView::Message(text@),
        }
    }
}

/// The terminal interface.
#[derive(Debug)]
pub struct App {
    pub screen: Screen,
    pub previous_screen: Screen,
    pub should_quit: bool,
    pub modal: Modal,
    pub status: Option<BackendStatus>,
    pub objects: Vec<TpmObject>,
    pub policies: Vec<Policy>,
    pub audit_entries: Vec<AuditEntry>,
    pub active_profile: Option<String>,
    pub health_posture: String,
    pub health_score: u8,
    pub selected_index: usize,
    pub command_preview: Option<String>,
}

pub ghost struct StatusView {
    pub backend_type: Seq<char>,
    pub manufacturer: Seq<char>,
    pub firmware_version: Seq<char>,
    pub available: bool,
}

/// What a backend said of itself.
pub open spec fn status_view(s: Option<BackendStatus>) -> Option<StatusView> {
    match s {
        Some(b) => Some(
            StatusView {
                backend_type: b.backend_type@,
                manufacturer: b.manufacturer@,
                firmware_version: b.firmware_version@,
                available: b.available,
            },
        ),
        None => None,
    }
}

#[verifier::ext_equal]
pub ghost struct AppView {
    pub screen: Screen,
    pub previous_screen: Screen,
    pub should_quit: bool,
    pub modal: ModalView,
    pub status: Option<StatusView>,
    pub objects: Seq<ObjectView>,
    pub policies: Seq<PolicyView>,
    pub audit_entries: Seq<EntryView>,
    pub active_profile: Option<Seq<char>>,
    pub health_posture: Seq<char>,
    pub health_score: u8,
    pub selected_index: usize,
    pub command_preview: Option<Seq<char>>,
}

impl View for App {
    type V = AppView;

    open spec fn view(&self) -> AppView {
        AppView {
            screen: self.screen,
            previous_screen: self.previous_screen,
            should_quit: self.should_quit,
            modal: self.modal@,
            status: status_view(self.status),
            objects: rows(self.objects@),
            policies: rows(self.policies@),
            audit_entries: rows(self.audit_entries@),
            active_profile: opt_text(self.active_profile),
            health_posture: self.health_posture@,
            health_score: self.health_score,
            selected_index: self.selected_index,
            command_preview: opt_text(self.command_preview),
        }
    }
}

impl AppView {
    /// The interface as it starts.
    pub open spec fn fresh() -> AppView {
        AppView {
            screen: Screen::Dashboard,
            previous_screen: Screen::Dashboard,
            should_quit: false,
            modal: ModalView::Closed,
            status: None,
            objects: Seq::empty(),
            policies: Seq::empty(),
            audit_entries: Seq::empty(),
            active_profile: None,
            health_posture: "unknown"@,
            health_score: 0,
            selected_index: 0,
            command_preview: None,
        }
    }

    /// The command that would show the same.
    pub open spec fn preview(self) -> Option<Seq<char>> {
        let i = self.selected_index as int;
        match self.screen {
            Screen::ObjectList => if i < self.objects.len() {
                Some("tpm key show "@ + self.objects[i].path)
            } else {
                None
            },
            Screen::ObjectDetail => if i < self.objects.len() {
                Some("tpm key show "@ + self.objects[i].path + " --format json"@)
            } else {
                None
            },
            Screen::PolicyList => if i < self.policies.len() {
                Some("tpm policy show "@ + self.policies[i].name)
            } else {
                None
            },
            Screen::AuditLog => Some("tpm log show"@),
            Screen::Dashboard => Some("tpm status"@),
        }
    }

    /// The same with the command brought up to date.
    pub open spec fn previewed(self) -> AppView {
        AppView { command_preview: self.preview(), ..self }
    }

    /// How many entries the list on the screen has.
    pub open spec fn list_len(self) -> nat {
        match self.screen {
            Screen::ObjectList => self.objects.len(),
            Screen::ObjectDetail => self.objects.len(),
            Screen::PolicyList => self.policies.len(),
            Screen::AuditLog => self.audit_entries.len(),
            Screen::Dashboard => 0,
        }
    }

    /// The interface on the next screen.
    pub open spec fn on_next_screen(self) -> AppView {
        AppView {
            previous_screen: self.screen,
            screen: match self.screen {
                Screen::Dashboard => Screen::ObjectList,
                Screen::ObjectList => Screen::PolicyList,
                Screen::PolicyList => Screen::AuditLog,
                Screen::AuditLog => Screen::Dashboard,
                Screen::ObjectDetail => Screen::ObjectList,
            },
            selected_index: 0,
            ..self
        }.previewed()
    }

    /// The interface one step back: an overlay is closed first.
    pub open spec fn one_back(self) -> AppView {
        if !(self.modal is Closed) {
            AppView { modal: ModalView::Closed, ..self }
        } else if self.screen == Screen::ObjectDetail {
            AppView { screen: self.previous_screen, ..self }.previewed()
        } else {
            self.previewed()
        }
    }

    /// The interface with the selected object in full.
    pub open spec fn in_detail(self) -> AppView {
        if self.screen == Screen::ObjectList && self.objects.len() > 0 {
            AppView {
                previous_screen: Screen::ObjectList,
                screen: Screen::ObjectDetail,
                ..self
            }.previewed()
        } else {
            self
        }
    }

    /// The interface with the entry above selected.
    pub open spec fn moved_up(self) -> AppView {
        if self.selected_index > 0 {
            AppView { selected_index: (self.selected_index - 1) as usize, ..self }.previewed()
        } else {
            self
        }
    }

    /// The interface with the entry below selected.
    pub open spec fn moved_down(self) -> AppView {
        if self.selected_index + 1 < self.list_len() {
            AppView { selected_index: (self.selected_index + 1) as usize, ..self }.previewed()
        } else {
            self
        }
    }

    /// The health, as far as it can be seen here.
    pub open spec fn score(self) -> int {
        score_of(
            self.status matches Some(s) && s.available,
            self.active_profile is Some,
            lost_count(self.objects, self.objects.len()),
            0,
        )
    }

    /// The interface with everything read anew.
    pub open spec fn refreshed(self, s: StoreState, status: Option<StatusView>) -> AppView {
        let read = AppView {
            status,
            objects: sorted::<TpmObject>(s.objects),
            policies: sorted::<Policy>(s.policies),
            audit_entries: at_most(newest(s.audit_log, None, None), 100),
            active_profile: match active_profile(s.profiles) {
                Some(p) => Some(p.name),
                None => None,
            },
            ..self
        };
        AppView {
            health_score: read.score() as u8,
            health_posture: posture_of(read.score()),
            ..read
        }.previewed()
    }

    /// The interface with a question over it: whether the selected object is to
    /// be deleted.
    pub open spec fn asking_to_delete(self) -> AppView {
        if self.selected_index < self.objects.len() {
            AppView {
                modal: ModalView::ConfirmDelete(self.objects[self.selected_index as int].path),
                ..self
            }
        } else {
            self
        }
    }

    /// The interface with a message over it.
    pub open spec fn saying(self, text: Seq<char>) -> AppView {
        AppView { modal: ModalView::Message(text), ..self }
    }
}

/// Going through the screens leads back to where one was, from every screen but
/// the detail of an object, which leads to the list.
pub proof fn screens_go_round(v: AppView)
    requires
        v.screen != Screen::ObjectDetail,
    ensures
        v.on_next_screen().on_next_screen().on_next_screen().on_next_screen().screen == v.screen,
{
}

/// Moving down and up again selects the same entry.
pub proof fn down_and_up(v: AppView)
    requires
        v.selected_index + 1 < v.list_len(),
        v.list_len() <= usize::MAX,
    ensures
        v.moved_down().moved_up() == v.previewed(),
{
}

/// Leaving the detail of an object leads back to the list it was opened from.
pub proof fn detail_leads_back(v: AppView)
    requires
        v.screen == Screen::ObjectList,
        v.objects.len() > 0,
        v.modal is Closed,
    ensures
        v.in_detail().one_back().screen == Screen::ObjectList,
        v.in_detail().one_back().selected_index == v.selected_index,
{
}

/// A selection within the list stays within it while one moves.
pub proof fn moving_stays_in_list(v: AppView)
    requires
        v.selected_index < v.list_len() <= usize::MAX,
    ensures
        v.moved_down().selected_index < v.list_len(),
        v.moved_up().selected_index < v.list_len(),
{
}

fn copy_object(o: &TpmObject) -> (c: TpmObject)
    ensures
        c@ == o@,
{
    TpmObject {
        id: o.id,
        path: o.path.copy(),
        kind: o.kind,
        algorithm: o.algorithm,
        policy_id: o.policy_id,
        handle_blob: match &o.handle_blob {
            Some(b) => Some(copy_bytes(b)),
            None => None,
        },
        created_at: o.created_at.clone(),
        metadata: o.metadata.clone(),
    }
}

fn all_objects(store: &MemoryStore) -> (v: Vec<TpmObject>)
    ensures
        rows(v@) == sorted::<TpmObject>(store@.objects),
{
    let list = store.list_objects();
    let ghost all = ref_rows(list@);
    let mut v: Vec<TpmObject> = Vec::new();
    let mut n: usize = 0;
    while n < list.len()
        invariant
            n <= list@.len(),
            all == ref_rows(list@),
            v@.len() == n,
            forall|i: int| 0 <= i < n ==> (#[trigger] v@[i])@ == all[i],
        decreases list@.len() - n,
    {
        let o: &TpmObject = list[n];
        assert(all[n as int] == o@);
        v.push(copy_object(o));
        n += 1;
    }
    assert(rows(v@) =~= all);
    v
}

fn all_policies(store: &MemoryStore) -> (v: Vec<Policy>)
    ensures
        rows(v@) == sorted::<Policy>(store@.policies),
{
    let list = store.list_policies();
    let ghost all = ref_rows(list@);
    let mut v: Vec<Policy> = Vec::new();
    let mut n: usize = 0;
    while n < list.len()
        invariant
            n <= list@.len(),
            all == ref_rows(list@),
            v@.len() == n,
            forall|i: int| 0 <= i < n ==> (#[trigger] v@[i])@ == all[i],
        decreases list@.len() - n,
    {
        let p: &Policy = list[n];
        assert(all[n as int] == p@);
        let copy = Policy { id: p.id, name: p.name.clone(), rules: copy_rules(&p.rules) };
        assert(copy@ == p@);
        v.push(copy);
        n += 1;
    }
    assert(rows(v@) =~= all);
    v
}

/// The interface as it starts, ready to be used in place of a default.
impl Default for App {
    fn default() -> (app: App)
        ensures
            app@ == AppView::fresh(),
    {
        App::new()
    }
}

impl App {
    /// The interface as it starts.
    pub fn new() -> (app: App)
        ensures
            app@ == AppView::fresh(),
    {
        let app = App {
            screen: Screen::Dashboard,
            previous_screen: Screen::Dashboard,
            should_quit: false,
            modal: Modal::Closed,
            status: None,
            objects: Vec::new(),
            policies: Vec::new(),
            audit_entries: Vec::new(),
            active_profile: None,
            health_posture: "unknown".to_owned(),
            health_score: 0,
            selected_index: 0,
            command_preview: None,
        };
        assert(app@ =~= AppView::fresh());
        app
    }

    /// Reads everything anew. `status` is what the backend said of itself, if
    /// it could be asked.
    pub fn refresh(&mut self, store: &MemoryStore, status: Option<BackendStatus>)
        ensures
            final(self)@ == old(self)@.refreshed(store@, status_view(status)),
    {
        self.status = status;
        self.objects = all_objects(store);
        self.policies = all_policies(store);
        self.audit_entries = recent_entries(store, None, None, 100);
        self.active_profile = match store.get_active_profile() {
            Some(p) => Some(p.name.clone()),
            None => None,
        };
        self.compute_health();
        self.update_command_preview();
        assert(self@ =~= old(self)@.refreshed(store@, status_view(status)));
    }

    /// Goes to the next screen.
    pub fn next_screen(&mut self)
        ensures
            final(self)@ == old(self)@.on_next_screen(),
    {
        self.previous_screen = self.screen;
        self.screen = match self.screen {
            Screen::Dashboard => Screen::ObjectList,
            Screen::ObjectList => Screen::PolicyList,
            Screen::PolicyList => Screen::AuditLog,
            Screen::AuditLog => Screen::Dashboard,
            Screen::ObjectDetail => Screen::ObjectList,
        };
        self.selected_index = 0;
        self.update_command_preview();
        assert(self@ =~= old(self)@.on_next_screen());
    }

    /// Goes one step back.
    pub fn go_back(&mut self)
        ensures
            final(self)@ == old(self)@.one_back(),
    {
        let open = match &self.modal {
            Modal::Closed => false,
            _ => true,
        };
        if open {
            self.modal = Modal::Closed;
            assert(self@ =~= old(self)@.one_back());
            return;
        }
        if self.screen == Screen::ObjectDetail {
            self.screen = self.previous_screen;
        }
        self.update_command_preview();
        assert(self@ =~= old(self)@.one_back());
    }

    /// Shows the selected object in full.
    pub fn enter_detail(&mut self)
        ensures
            final(self)@ == old(self)@.in_detail(),
    {
        assert(self@.objects.len() == self.objects@.len());
        if self.screen == Screen::ObjectList && self.objects.len() > 0 {
            self.previous_screen = self.screen;
            self.screen = Screen::ObjectDetail;
            self.update_command_preview();
        }
        assert(self@ =~= old(self)@.in_detail());
    }

    /// Selects the entry above.
    pub fn move_up(&mut self)
        ensures
            final(self)@ == old(self)@.moved_up(),
    {
        if self.selected_index > 0 {
            self.selected_index -= 1;
            self.update_command_preview();
        }
        assert(self@ =~= old(self)@.moved_up());
    }

    /// Selects the entry below.
    pub fn move_down(&mut self)
        ensures
            final(self)@ == old(self)@.moved_down(),
    {
        let len: usize = self.current_list_len();
        let max: usize = if len > 0 {
            len - 1
        } else {
            0
        };
        if self.selected_index < max {
            self.selected_index += 1;
            self.update_command_preview();
        }
        assert(self@ =~= old(self)@.moved_down());
    }

    fn current_list_len(&self) -> (n: usize)
        ensures
            n == self@.list_len(),
    {
        match self.screen {
            Screen::ObjectList => self.objects.len(),
            Screen::ObjectDetail => self.objects.len(),
            Screen::PolicyList => self.policies.len(),
            Screen::AuditLog => self.audit_entries.len(),
            Screen::Dashboard => 0,
        }
    }

    /// The selected object.
    pub fn selected_object(&self) -> (r: Option<&TpmObject>)
        ensures
            match r {
                Some(o) => self@.selected_index < self@.objects.len() && o@
                    == self@.objects[self@.selected_index as int],
                None => self@.selected_index >= self@.objects.len(),
            },
    {
        if self.selected_index < self.objects.len() {
            Some(&self.objects[self.selected_index])
        } else {
            None
        }
    }

    /// Begins to create a key.
    pub fn start_create_key(&mut self)
        ensures
            final(self)@ == (AppView { modal: ModalView::CreateKey(Seq::empty()), ..old(self)@ }),
    {
        self.modal = Modal::CreateKey { input: String::new() };
        assert(self@ =~= (AppView { modal: ModalView::CreateKey(Seq::empty()), ..old(self)@ }));
    }

    /// Begins to delete the selected object.
    pub fn start_delete(&mut self)
        ensures
            final(self)@ == old(self)@.asking_to_delete(),
    {
        let path = match self.selected_object() {
            None => {
                return;
            },
            Some(o) => o.path.as_str().to_owned(),
        };
        self.modal = Modal::ConfirmDelete { path };
        assert(self@ =~= old(self)@.asking_to_delete());
    }

    /// Types a character.
    pub fn modal_input_char(&mut self, c: char)
        ensures
            final(self)@ == (match old(self)@.modal {
                ModalView::CreateKey(t) => AppView {
                    modal: ModalView::CreateKey(t.push(c)),
                    ..old(self)@
                },
                _ => old(self)@,
            }),
    {
        match &mut self.modal {
            Modal::CreateKey { input } => {
                input.push(c);
            },
            _ => {},
        }
    }

    /// Takes the last character back.
    pub fn modal_input_backspace(&mut self)
        ensures
            final(self)@ == (match old(self)@.modal {
                ModalView::CreateKey(t) => AppView {
                    modal: ModalView::CreateKey(
                        if t.len() == 0 {
                            t
                        } else {
                            t.drop_last()
                        },
                    ),
                    ..old(self)@
                },
                _ => old(self)@,
            }),
    {
        match &mut self.modal {
            Modal::CreateKey { input } => {
                let _ = input.pop();
            },
            _ => {},
        }
    }

    fn compute_health(&mut self)
        ensures
            final(self)@ == (AppView {
                health_score: old(self)@.score() as u8,
                health_posture: posture_of(old(self)@.score()),
                ..old(self)@
            }),
    {
        let mut score: i32 = 100;
        let available = match &self.status {
            Some(s) => s.available,
            None => false,
        };
        if !available {
            score -= 40;
        }
        if self.active_profile.is_none() {
            score -= 10;
        }
        let orphans: usize = count_orphans(&self.objects);
        if orphans > 0 {
            score -= 15;
        }
        self.health_score = score as u8;
        self.health_posture = (if score >= 90 {
            "healthy"
        } else if score >= 70 {
            "degraded"
        } else if score >= 40 {
            "warning"
        } else {
            "critical"
        }).to_owned();
    }

    fn update_command_preview(&mut self)
        ensures
            final(self)@ == old(self)@.previewed(),
    {
        let preview = self.preview_now();
        self.command_preview = preview;
        assert(self@ =~= old(self)@.previewed());
    }

    fn preview_now(&self) -> (r: Option<String>)
        ensures
            opt_text(r) == self@.preview(),
    {
        let i: usize = self.selected_index;
        match self.screen {
            Screen::ObjectList => if i < self.objects.len() {
                Some(glue("tpm key show ", self.objects[i].path.as_str()))
            } else {
                None
            },
            Screen::ObjectDetail => if i < self.objects.len() {
                Some(
                    crate::text::framed(
                        "tpm key show ",
                        self.objects[i].path.as_str(),
                        " --format json",
                    ),
                )
            } else {
                None
            },
            Screen::PolicyList => if i < self.policies.len() {
                Some(glue("tpm policy show ", self.policies[i].name.as_str()))
            } else {
                None
            },
            Screen::AuditLog => Some("tpm log show".to_owned()),
            Screen::Dashboard => Some("tpm status".to_owned()),
        }
    }
}

fn count_orphans(objects: &Vec<TpmObject>) -> (c: usize)
    ensures
        c == lost_count(rows(objects@), objects@.len()),
{
    let ghost all = rows(objects@);
    let mut c: usize = 0;
    let mut i: usize = 0;
    while i < objects.len()
        invariant
            c <= i <= objects@.len(),
            all == rows(objects@),
            c == lost_count(all, i as nat),
        decreases objects@.len() - i,
    {
        assert(all[i as int] == objects@[i as int]@);
        if objects[i].kind.key() && objects[i].handle_blob.is_none() {
            c += 1;
        }
        i += 1;
    }
    c
}

// ---------------------------------------------------------------------------
// Cells of the tables
// ---------------------------------------------------------------------------

/// Rules in few words.
pub open spec fn rule_words(rules: Seq<RuleView>) -> Seq<Seq<char>> {
    Seq::new(rules.len(), |i: int| rule_text(rules[i], RuleStyle::Short))
}

/// The rules of a policy in few words.
pub fn rule_summary(p: &Policy) -> (s: String)
    ensures
        s@ == joined(rule_words(p@.rules), ", "@),
{
    let ghost all = rule_views(p.rules@);
    let mut v: Vec<String> = Vec::new();
    let mut n: usize = 0;
    while n < p.rules.len()
        invariant
            n <= p.rules@.len(),
            all == rule_views(p.rules@),
            v@.len() == n,
            forall|i: int|
                0 <= i < n ==> (#[trigger] v@[i])@ == rule_text(all[i], RuleStyle::Short),
        decreases p.rules@.len() - n,
    {
        assert(all[n as int] == p.rules@[n as int]@);
        v.push(describe_rule(&p.rules[n], RuleStyle::Short));
        n += 1;
    }
    assert(views(v@) =~= rule_words(all));
    join(&v, ", ")
}

} // verus!
