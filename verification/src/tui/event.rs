//! What a key means.
use vstd::prelude::*;

use crate::tui::{App, AppView, Screen};

verus! {

/// A key, as far as the interface tells keys apart.
#[derive(Debug, Clone, Copy, PartialEq, Eq, Structural)]
pub enum Key {
    Char(char),
    Esc,
    Tab,
    Enter,
    Backspace,
    Delete,
    Up,
    Down,
    Other,
}

/// What a key asks for.
#[derive(Debug, Clone, Copy, PartialEq, Eq, Structural)]
pub enum Action {
    Quit,
    Back,
    NextScreen,
    GoToDashboard,
    GoToObjects,
    GoToPolicies,
    GoToAuditLog,
    Up,
    Down,
    Enter,
    Refresh,
    CreateKey,
    DeleteSelected,
    Nothing,
}

/// What a key asks for while a path is typed.
#[derive(Debug, Clone, Copy, PartialEq, Eq, Structural)]
pub enum ModalAction {
    Cancel,
    Confirm,
    Backspace,
    Input(char),
    Nothing,
}

/// What a key asks for while a deletion is to be confirmed.
#[derive(Debug, Clone, Copy, PartialEq, Eq, Structural)]
pub enum ConfirmAction {
    Yes,
    No,
    Nothing,
}

/// What a key asks for.
pub open spec fn action_of(key: Key, control: bool) -> Action {
    match key {
        Key::Esc => Action::Back,
        Key::Tab => Action::NextScreen,
        Key::Enter => Action::Enter,
        Key::Down => Action::Down,
        Key::Up => Action::Up,
        Key::Delete => Action::DeleteSelected,
        Key::Char(c) => if c == 'q' {
            Action::Back
        } else if c == 'c' && control {
            Action::Quit
        } else if c == '1' {
            Action::GoToDashboard
        } else if c == '2' {
            Action::GoToObjects
        } else if c == '3' {
            Action::GoToPolicies
        } else if c == '4' {
            Action::GoToAuditLog
        } else if c == 'j' {
            Action::Down
        } else if c == 'k' {
            Action::Up
        } else if c == 'r' {
            Action::Refresh
        } else if c == 'n' {
            Action::CreateKey
        } else if c == 'd' {
            Action::DeleteSelected
        } else {
            Action::Nothing
        },
        _ => Action::Nothing,
    }
}

/// What a key asks for.
pub fn key_to_action(key: Key, control: bool) -> (a: Action)
    ensures
        a == action_of(key, control),
{
    match key {
        Key::Esc => Action::Back,
        Key::Tab => Action::NextScreen,
        Key::Enter => Action::Enter,
        Key::Down => Action::Down,
        Key::Up => Action::Up,
        Key::Delete => Action::DeleteSelected,
        Key::Char(c) => if c == 'q' {
            Action::Back
        } else if c == 'c' && control {
            Action::Quit
        } else if c == '1' {
            Action::GoToDashboard
        } else if c == '2' {
            Action::GoToObjects
        } else if c == '3' {
            Action::GoToPolicies
        } else if c == '4' {
            Action::GoToAuditLog
        } else if c == 'j' {
            Action::Down
        } else if c == 'k' {
            Action::Up
        } else if c == 'r' {
            Action::Refresh
        } else if c == 'n' {
            Action::CreateKey
        } else if c == 'd' {
            Action::DeleteSelected
        } else {
            Action::Nothing
        },
        _ => Action::Nothing,
    }
}

/// What a key asks for while a path is typed.
pub fn key_to_modal_action(key: Key) -> (a: ModalAction)
    ensures
        a == match key {
            Key::Esc => ModalAction::Cancel,
            Key::Enter => ModalAction::Confirm,
            Key::Backspace => ModalAction::Backspace,
            Key::Char(c) => ModalAction::Input(c),
            _ => ModalAction::Nothing,
        },
{
    match key {
        Key::Esc => ModalAction::Cancel,
        Key::Enter => ModalAction::Confirm,
        Key::Backspace => ModalAction::Backspace,
        Key::Char(c) => ModalAction::Input(c),
        _ => ModalAction::Nothing,
    }
}

/// What a key asks for while a deletion is to be confirmed.
pub fn key_to_confirm_action(key: Key) -> (a: ConfirmAction)
    ensures
        a == if key == Key::Char('y') || key == Key::Char('Y') {
            ConfirmAction::Yes
        } else if key == Key::Char('n') || key == Key::Char('N') || key == Key::Esc {
            ConfirmAction::No
        } else {
            ConfirmAction::Nothing
        },
{
    match key {
        Key::Char(c) => if c == 'y' || c == 'Y' {
            ConfirmAction::Yes
        } else if c == 'n' || c == 'N' {
            ConfirmAction::No
        } else {
            ConfirmAction::Nothing
        },
        Key::Esc => ConfirmAction::No,
        _ => ConfirmAction::Nothing,
    }
}

/// What is left to do after an action.
#[derive(Debug, Clone, Copy, PartialEq, Eq, Structural)]
pub enum Step {
    /// Nothing.
    Continue,
    /// Everything is to be read anew.
    Refresh,
    /// The interface is left.
    Quit,
}

/// What is left to do after an action.
pub open spec fn step_of(a: Action) -> Step {
    match a {
        Action::Quit => Step::Quit,
        Action::Refresh => Step::Refresh,
        _ => Step::Continue,
    }
}

/// The interface on a screen that was asked for.
pub open spec fn at_screen(v: AppView, screen: Screen) -> AppView {
    AppView { screen, selected_index: 0, ..v }
}

impl App {
    fn go_to(&mut self, screen: Screen)
        ensures
            final(self)@ == at_screen(old(self)@, screen),
    {
        self.screen = screen;
        self.selected_index = 0;
        assert(self@ =~= at_screen(old(self)@, screen));
    }

    /// Does what a key asks for, as far as neither TPM nor store is needed.
    pub fn run_loop(&mut self, action: Action) -> (step: Step)
        ensures
            step == step_of(action),
            match action {
                Action::Quit => final(self)@ == (AppView { should_quit: true, ..old(self)@ }),
                Action::NextScreen => final(self)@ == old(self)@.on_next_screen(),
                Action::GoToDashboard => final(self)@ == at_screen(old(self)@, Screen::Dashboard),
                Action::GoToObjects => final(self)@ == at_screen(old(self)@, Screen::ObjectList),
                Action::GoToPolicies => final(self)@ == at_screen(old(self)@, Screen::PolicyList),
                Action::GoToAuditLog => final(self)@ == at_screen(old(self)@, Screen::AuditLog),
                Action::Up => final(self)@ == old(self)@.moved_up(),
                Action::Down => final(self)@ == old(self)@.moved_down(),
                Action::Enter => final(self)@ == old(self)@.in_detail(),
                Action::Back => final(self)@ == old(self)@.one_back(),
                Action::CreateKey => final(self)@ == (AppView {
                    modal: crate::tui::ModalView::CreateKey(Seq::empty()),
                    ..old(self)@
                }),
                Action::DeleteSelected => final(self)@ == old(self)@.asking_to_delete(),
                Action::Refresh => final(self)@ == old(self)@,
                Action::Nothing => final(self)@ == old(self)@,
            },
    {
        match action {
            Action::Quit => {
                self.should_quit = true;
                assert(self@ =~= (AppView { should_quit: true, ..old(self)@ }));
                return Step::Quit;
            },
            Action::NextScreen => self.next_screen(),
            Action::GoToDashboard => self.go_to(Screen::Dashboard),
            Action::GoToObjects => self.go_to(Screen::ObjectList),
            Action::GoToPolicies => self.go_to(Screen::PolicyList),
            Action::GoToAuditLog => self.go_to(Screen::AuditLog),
            Action::Up => self.move_up(),
            Action::Down => self.move_down(),
            Action::Enter => self.enter_detail(),
            Action::Back => self.go_back(),
            Action::CreateKey => self.start_create_key(),
            Action::DeleteSelected => self.start_delete(),
            Action::Refresh => {
                return Step::Refresh;
            },
            Action::Nothing => {},
        }
        Step::Continue
    }
}

} // verus!
