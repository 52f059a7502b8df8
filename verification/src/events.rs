//! What a key press does: the decisions of the main loop, from state and key
//! to the next state and the outside work to perform.
use vstd::prelude::*;

use crate::app::{
    after_delete, clone_outcome, initial_state, inject_commands, next_field, App, AppView, CloneError,
    CurrentScreen, CurrentlyEditing,
};
use crate::entry::EntryView;
use crate::git::{command_views, config_commands, GitCommand, GitCommandView};
use crate::profiles::{lemma_profiles_round_trip, serialize_profiles, storable};
use crate::text::{pop_char, push_char};

verus! {

/// The key of a key event, as far as the application tells keys apart.
#[derive(Clone, Copy, Debug, PartialEq, Eq, Structural)]
pub enum Key {
    Char(char),
    Enter,
    Backspace,
    Esc,
    Tab,
    Other,
}

/// Whether a key went down, repeats, or came up.
#[derive(Clone, Copy, Debug, PartialEq, Eq, Structural)]
pub enum KeyPhase {
    Press,
    Repeat,
    Release,
}

/// A key event.
#[derive(Clone, Copy, Debug, PartialEq, Eq, Structural)]
pub struct KeyInput {
    pub key: Key,
    pub phase: KeyPhase,
}

/// What the main loop does after a key event.
pub enum Action {
    /// Draw again and wait for the next event.
    Continue,
    /// Write the profile file (see [`App::save_all_data`]) and stop.
    Quit,
    /// Run these commands, in order, then go on.
    Run(Vec<GitCommand>),
    /// The clone url cannot be used: stop with this error.
    Abort(CloneError),
}

/// The mathematical content of an [`Action`].
pub enum ActionView {
    Continue,
    Quit,
    Run(Seq<GitCommandView>),
    Abort(CloneError),
}

impl View for Action {
    type V = ActionView;

    open spec fn view(&self) -> ActionView {
        match self {
            Action::Continue => ActionView::Continue,
            Action::Quit => ActionView::Quit,
            Action::Run(cs) => ActionView::Run(command_views(cs@)),
            Action::Abort(e) => ActionView::Abort(*e),
        }
    }
}

/// A text without its last character; an empty text stays empty.
pub open spec fn pop_last(t: Seq<char>) -> Seq<char> {
    if t.len() > 0 {
        t.drop_last()
    } else {
        t
    }
}

/// The text of a field of the profile form.
pub open spec fn field_text(s: AppView, f: CurrentlyEditing) -> Seq<char> {
    match f {
        CurrentlyEditing::Alias => s.alias_input,
        CurrentlyEditing::Username => s.username_input,
        CurrentlyEditing::Email => s.email_input,
        CurrentlyEditing::Token => s.token_input,
    }
}

/// The state with a field of the profile form set to `t`.
pub open spec fn with_field(s: AppView, f: CurrentlyEditing, t: Seq<char>) -> AppView {
    match f {
        CurrentlyEditing::Alias => AppView { alias_input: t, ..s },
        CurrentlyEditing::Username => AppView { username_input: t, ..s },
        CurrentlyEditing::Email => AppView { email_input: t, ..s },
        CurrentlyEditing::Token => AppView { token_input: t, ..s },
    }
}

/// The state before drawing: on the main screen with no selection, the first
/// profile, if any, is selected.
pub open spec fn frame_ready(s: AppView) -> AppView {
    if s.current_screen == CurrentScreen::Main && s.selected_index is None && s.entries.len() > 0 {
        AppView { selected_index: Some(0), ..s }
    } else {
        s
    }
}

/// The selection after moving down a list of `n` profiles: the next one,
/// the last one at the end, the first one when none was selected.
pub open spec fn select_down(sel: Option<usize>, n: nat) -> Option<usize> {
    match sel {
        None => if n > 0 {
            Some(0)
        } else {
            None
        },
        Some(i) => if i + 1 < n {
            Some((i + 1) as usize)
        } else {
            Some((n - 1) as usize)
        },
    }
}

/// The selection after moving up a list of `n` profiles: the previous one,
/// the first one at the top, the first one when none was selected.
pub open spec fn select_up(sel: Option<usize>, n: nat) -> Option<usize> {
    match sel {
        None => if n > 0 {
            Some(0)
        } else {
            None
        },
        Some(i) => if i > 0 {
            Some((i - 1) as usize)
        } else {
            Some(0)
        },
    }
}

/// The state with another screen shown.
pub open spec fn on_screen(s: AppView, screen: CurrentScreen) -> AppView {
    AppView { current_screen: screen, ..s }
}

/// A key on the list of profiles.
pub open spec fn main_step(s: AppView, key: Key) -> (AppView, ActionView) {
    if key == Key::Char('%') {
        (
            AppView {
                current_screen: CurrentScreen::Editing,
                currently_editing: Some(CurrentlyEditing::Alias),
                ..s
            },
            ActionView::Continue,
        )
    } else if key == Key::Char('d') {
        if s.selected_index is Some {
            (on_screen(s, CurrentScreen::Deleting), ActionView::Continue)
        } else {
            (s, ActionView::Continue)
        }
    } else if key == Key::Enter {
        if s.selected_index is Some {
            (on_screen(s, CurrentScreen::Injecting), ActionView::Continue)
        } else {
            (s, ActionView::Continue)
        }
    } else if key == Key::Char('j') {
        (
            AppView { selected_index: select_down(s.selected_index, s.entries.len()), ..s },
            ActionView::Continue,
        )
    } else if key == Key::Char('k') {
        (
            AppView { selected_index: select_up(s.selected_index, s.entries.len()), ..s },
            ActionView::Continue,
        )
    } else if key == Key::Char('q') {
        (s, ActionView::Quit)
    } else if key == Key::Char('c') {
        (on_screen(s, CurrentScreen::Cloning), ActionView::Continue)
    } else {
        (s, ActionView::Continue)
    }
}

/// A key on the clone prompt.
pub open spec fn cloning_step(s: AppView, key: Key) -> (AppView, ActionView) {
    match key {
        Key::Enter => match clone_outcome(s) {
            Ok(cs) => (on_screen(s.cleared(), CurrentScreen::Main), ActionView::Run(cs)),
            Err(e) => (s, ActionView::Abort(e)),
        },
        Key::Backspace => (
            AppView { clone_url_input: pop_last(s.clone_url_input), ..s },
            ActionView::Continue,
        ),
        Key::Esc => (on_screen(s.cleared(), CurrentScreen::Main), ActionView::Continue),
        Key::Char(c) => (
            AppView { clone_url_input: s.clone_url_input.push(c), ..s },
            ActionView::Continue,
        ),
        _ => (s, ActionView::Continue),
    }
}

/// A key on the prompt that confirms deleting the selected profile.
pub open spec fn deleting_step(s: AppView, key: Key) -> (AppView, ActionView) {
    if key == Key::Char('y') {
        (on_screen(after_delete(s), CurrentScreen::Main), ActionView::Continue)
    } else if key == Key::Char('n') {
        (on_screen(s, CurrentScreen::Main), ActionView::Continue)
    } else {
        (s, ActionView::Continue)
    }
}

/// A key on the prompt that confirms using the selected profile here.
pub open spec fn injecting_step(s: AppView, key: Key) -> (AppView, ActionView) {
    if key == Key::Char('y') {
        (on_screen(s, CurrentScreen::Main), ActionView::Run(inject_commands(s)))
    } else if key == Key::Char('n') {
        (on_screen(s, CurrentScreen::Main), ActionView::Continue)
    } else {
        (s, ActionView::Continue)
    }
}

/// A key pressed on the profile form.
pub open spec fn editing_step(s: AppView, key: Key) -> (AppView, ActionView) {
    match key {
        Key::Enter => {
            let stored = AppView { entries: s.entries.push(s.input_entry()), ..s };
            (on_screen(stored.cleared(), CurrentScreen::Main), ActionView::Continue)
        },
        Key::Backspace => match s.currently_editing {
            Some(f) => (with_field(s, f, pop_last(field_text(s, f))), ActionView::Continue),
            None => (s, ActionView::Continue),
        },
        Key::Esc => (on_screen(s.cleared(), CurrentScreen::Main), ActionView::Continue),
        Key::Tab => (
            AppView { currently_editing: Some(next_field(s.currently_editing)), ..s },
            ActionView::Continue,
        ),
        Key::Char(c) => match s.currently_editing {
            Some(f) => (with_field(s, f, field_text(s, f).push(c)), ActionView::Continue),
            None => (s, ActionView::Continue),
        },
        Key::Other => (s, ActionView::Continue),
    }
}

/// The next state and the outside work after a key event: key releases are
/// ignored, and the profile form takes only key presses.
pub open spec fn step(s: AppView, k: KeyInput) -> (AppView, ActionView) {
    if k.phase == KeyPhase::Release {
        (s, ActionView::Continue)
    } else {
        match s.current_screen {
            CurrentScreen::Main => main_step(s, k.key),
            CurrentScreen::Cloning => cloning_step(s, k.key),
            CurrentScreen::Deleting => deleting_step(s, k.key),
            CurrentScreen::Injecting => injecting_step(s, k.key),
            CurrentScreen::Editing => if k.phase == KeyPhase::Press {
                editing_step(s, k.key)
            } else {
                (s, ActionView::Continue)
            },
        }
    }
}

impl App {
    /// Readies the state for drawing (see [`frame_ready`]).
    pub fn prepare_frame(&mut self)
        ensures
            final(self)@ == frame_ready(old(self)@),
    {
        match self.current_screen {
            CurrentScreen::Main => {
                if self.selected_index.is_none() && self.entries.len() > 0 {
                    self.selected_index = Some(0);
                }
            },
            _ => {},
        }
    }

    fn push_to_field(&mut self, c: char)
        ensures
            final(self)@ == match old(self)@.currently_editing {
                Some(f) => with_field(old(self)@, f, field_text(old(self)@, f).push(c)),
                None => old(self)@,
            },
    {
        if let Some(editing) = &self.currently_editing {
            match editing {
                CurrentlyEditing::Alias => push_char(&mut self.alias_input, c),
                CurrentlyEditing::Username => push_char(&mut self.username_input, c),
                CurrentlyEditing::Email => push_char(&mut self.email_input, c),
                CurrentlyEditing::Token => push_char(&mut self.token_input, c),
            }
        }
    }

    fn pop_from_field(&mut self)
        ensures
            final(self)@ == match old(self)@.currently_editing {
                Some(f) => with_field(old(self)@, f, pop_last(field_text(old(self)@, f))),
                None => old(self)@,
            },
    {
        if let Some(editing) = &self.currently_editing {
            match editing {
                CurrentlyEditing::Alias => {
                    pop_char(&mut self.alias_input);
                },
                CurrentlyEditing::Username => {
                    pop_char(&mut self.username_input);
                },
                CurrentlyEditing::Email => {
                    pop_char(&mut self.email_input);
                },
                CurrentlyEditing::Token => {
                    pop_char(&mut self.token_input);
                },
            }
        }
    }

    /// Handles one key event (see [`step`]) and tells the main loop what to do next.
    /// On the delete prompt, only a `y` that is not a release changes the stored profiles.
    pub fn handle_key(&mut self, k: KeyInput) -> (action: Action)
        requires
            old(self)@.selection_valid(),
        ensures
            (final(self)@, action@) == step(old(self)@, k),
            final(self)@.selection_valid(),
            old(self)@.current_screen == CurrentScreen::Deleting && !(k.phase != KeyPhase::Release
                && k.key == Key::Char('y')) ==> final(self)@.entries == old(self)@.entries,
    {
        proof {
            lemma_step_keeps_selection_valid(self@, k);
            assert(self@.entries.len() == self.entries@.len());
        }
        if k.phase == KeyPhase::Release {
            return Action::Continue;
        }
        match self.current_screen {
            CurrentScreen::Main => match k.key {
                Key::Char('%') => {
                    self.current_screen = CurrentScreen::Editing;
                    self.currently_editing = Some(CurrentlyEditing::Alias);
                },
                Key::Char('d') => match self.selected_index {
                    Some(_) => self.current_screen = CurrentScreen::Deleting,
                    _ => {},
                },
                Key::Enter => match self.selected_index {
                    Some(_) => self.current_screen = CurrentScreen::Injecting,
                    _ => {},
                },
                Key::Char('j') => match self.selected_index {
                    None => {
                        if self.entries.len() > 0 {
                            self.selected_index = Some(0)
                        }
                    },
                    Some(selected_index) => {
                        assert(selected_index < self.entries.len());
                        self.selected_index =
                            if selected_index + 1 < self.entries.len() {
                                Some(selected_index + 1)
                            } else {
                                Some(self.entries.len() - 1)
                            }
                    },
                },
                Key::Char('k') => match self.selected_index {
                    None => {
                        if self.entries.len() > 0 {
                            self.selected_index = Some(0)
                        }
                    },
                    Some(selected_index) => {
                        self.selected_index =
                            if selected_index > 0 {
                                Some(selected_index - 1)
                            } else {
                                Some(0)
                            }
                    },
                },
                Key::Char('q') => {
                    return Action::Quit;
                },
                Key::Char('c') => {
                    self.current_screen = CurrentScreen::Cloning;
                },
                _ => {},
            },
            CurrentScreen::Cloning => match k.key {
                Key::Enter => {
                    if let Err(e) = self.find_clone_target() {
                        return Action::Abort(e);
                    }
                    let cs = self.clone_repo();
                    self.clear();
                    self.current_screen = CurrentScreen::Main;
                    return Action::Run(cs);
                },
                Key::Backspace => {
                    pop_char(&mut self.clone_url_input);
                },
                Key::Esc => {
                    self.clear();
                    self.current_screen = CurrentScreen::Main;
                },
                Key::Char(value) => {
                    push_char(&mut self.clone_url_input, value);
                },
                _ => {},
            },
            CurrentScreen::Deleting => match k.key {
                Key::Char('y') => {
                    self.delete_current_entry();
                    self.current_screen = CurrentScreen::Main;
                },
                Key::Char('n') => {
                    self.current_screen = CurrentScreen::Main;
                },
                _ => {},
            },
            CurrentScreen::Injecting => match k.key {
                Key::Char('y') => {
                    let cs = self.inject_selected_profile();
                    self.current_screen = CurrentScreen::Main;
                    return Action::Run(cs);
                },
                Key::Char('n') => {
                    self.current_screen = CurrentScreen::Main;
                },
                _ => {},
            },
            CurrentScreen::Editing => {
                if k.phase == KeyPhase::Press {
                    match k.key {
                        Key::Enter => {
                            self.store_entries();
                            self.clear();
                            self.current_screen = CurrentScreen::Main;
                        },
                        Key::Backspace => {
                            self.pop_from_field();
                        },
                        Key::Esc => {
                            self.clear();
                            self.current_screen = CurrentScreen::Main;
                            self.currently_editing = None;
                        },
                        Key::Tab => {
                            self.toggle_editing();
                        },
                        Key::Char(value) => {
                            self.push_to_field(value);
                        },
                        Key::Other => {},
                    }
                }
            },
        }
        Action::Continue
    }
}

/// Every key event keeps the selection on a stored profile, if there is one.
pub proof fn lemma_step_keeps_selection_valid(s: AppView, k: KeyInput)
    requires
        s.selection_valid(),
    ensures
        step(s, k).0.selection_valid(),
{
}

/// Key releases change nothing.
pub proof fn lemma_release_ignored(s: AppView, key: Key)
    ensures
        step(s, KeyInput { key, phase: KeyPhase::Release }) == (s, ActionView::Continue),
{
}

/// On the profile form, typing a character and pressing backspace gives back
/// the state before.
pub proof fn lemma_form_type_then_erase(s: AppView, c: char)
    requires
        s.current_screen == CurrentScreen::Editing,
    ensures
        step(
            step(s, KeyInput { key: Key::Char(c), phase: KeyPhase::Press }).0,
            KeyInput { key: Key::Backspace, phase: KeyPhase::Press },
        ).0 == s,
{
    let typed = step(s, KeyInput { key: Key::Char(c), phase: KeyPhase::Press }).0;
    match s.currently_editing {
        Some(f) => {
            assert(field_text(s, f).push(c).drop_last() =~= field_text(s, f));
            assert(field_text(typed, f) == field_text(s, f).push(c));
        },
        None => {},
    }
}

/// On the clone prompt, typing a character and pressing backspace gives back
/// the state before.
pub proof fn lemma_clone_prompt_type_then_erase(s: AppView, c: char, phase: KeyPhase)
    requires
        s.current_screen == CurrentScreen::Cloning,
        phase != KeyPhase::Release,
    ensures
        step(
            step(s, KeyInput { key: Key::Char(c), phase }).0,
            KeyInput { key: Key::Backspace, phase },
        ).0 == s,
{
    assert(s.clone_url_input.push(c).drop_last() =~= s.clone_url_input);
}

/// Escaping the profile form discards it: back on the main screen with every
/// input empty, and the stored profiles and the selection unchanged.
pub proof fn lemma_form_escape_discards(s: AppView)
    requires
        s.current_screen == CurrentScreen::Editing,
    ensures
        ({
            let (t, a) = step(s, KeyInput { key: Key::Esc, phase: KeyPhase::Press });
            &&& a == ActionView::Continue
            &&& t.current_screen == CurrentScreen::Main
            &&& t.entries == s.entries
            &&& t.selected_index == s.selected_index
            &&& t.alias_input.len() == 0 && t.username_input.len() == 0
            &&& t.email_input.len() == 0 && t.token_input.len() == 0
            &&& t.currently_editing is None
        }),
{
}

/// Confirming the profile form stores exactly one profile, made of the typed
/// fields, after the others, and empties the form.
pub proof fn lemma_form_confirm_stores(s: AppView)
    requires
        s.current_screen == CurrentScreen::Editing,
    ensures
        ({
            let (t, a) = step(s, KeyInput { key: Key::Enter, phase: KeyPhase::Press });
            &&& a == ActionView::Continue
            &&& t.current_screen == CurrentScreen::Main
            &&& t.entries == s.entries.push(
                EntryView {
                    alias: s.alias_input,
                    username: s.username_input,
                    email: s.email_input,
                    pa_token: s.token_input,
                },
            )
            &&& t.alias_input.len() == 0 && t.username_input.len() == 0
            &&& t.email_input.len() == 0 && t.token_input.len() == 0
        }),
{
}

/// Before drawing the main screen, a profile is selected whenever one is stored;
/// readying a frame keeps the selection on a stored profile.
pub proof fn lemma_frame_ready_selects(s: AppView)
    requires
        s.selection_valid(),
    ensures
        frame_ready(s).selection_valid(),
        s.current_screen == CurrentScreen::Main && s.entries.len() > 0
            ==> frame_ready(s).selected_index is Some,
{
}

/// Moving down and then up comes back to the same profile, unless the first
/// move was stopped at the end of the list (the list is one a vector can hold).
pub proof fn lemma_down_then_up(s: AppView, i: usize)
    requires
        s.current_screen == CurrentScreen::Main,
        s.selected_index == Some(i),
        i + 1 < s.entries.len(),
        s.entries.len() <= usize::MAX,
    ensures
        step(
            step(s, KeyInput { key: Key::Char('j'), phase: KeyPhase::Press }).0,
            KeyInput { key: Key::Char('k'), phase: KeyPhase::Press },
        ).0 == s,
{
    let down = step(s, KeyInput { key: Key::Char('j'), phase: KeyPhase::Press }).0;
    assert(down.selected_index == Some((i + 1) as usize));
    assert(down.current_screen == CurrentScreen::Main);
    let up = step(down, KeyInput { key: Key::Char('k'), phase: KeyPhase::Press }).0;
    assert(up.selected_index == Some(i));
    assert(up == s);
}

/// Asking to delete and confirming removes exactly the selected profile and
/// keeps the others in order.
pub proof fn lemma_delete_confirm_removes_selected(s: AppView, i: usize)
    requires
        s.current_screen == CurrentScreen::Main,
        s.selected_index == Some(i),
        s.selection_valid(),
    ensures
        ({
            let t = step(
                step(s, KeyInput { key: Key::Char('d'), phase: KeyPhase::Press }).0,
                KeyInput { key: Key::Char('y'), phase: KeyPhase::Press },
            ).0;
            &&& t.entries == s.entries.remove(i as int)
            &&& t.current_screen == CurrentScreen::Main
            &&& t.selection_valid()
        }),
{
}

/// On the prompt that confirms a deletion, only pressing `y` removes a
/// profile, exactly the selected one, and goes back to the list; pressing `n`
/// goes back to the list and keeps every profile and the selection; any other
/// key, and any key release, changes nothing. No key there runs a command or
/// quits.
pub proof fn lemma_delete_prompt_keys(s: AppView, k: KeyInput)
    requires
        s.current_screen == CurrentScreen::Deleting,
    ensures
        ({
            let (t, a) = step(s, k);
            let confirms = k.phase != KeyPhase::Release && k.key == Key::Char('y');
            let aborts = k.phase != KeyPhase::Release && k.key == Key::Char('n');
            &&& a == ActionView::Continue
            &&& !confirms ==> t.entries == s.entries && t.selected_index == s.selected_index
            &&& confirms ==> t.current_screen == CurrentScreen::Main && (s.selected_index matches Some(
                i,
            ) ==> t.entries == s.entries.remove(i as int))
            &&& aborts ==> t == AppView { current_screen: CurrentScreen::Main, ..s }
            &&& !confirms && !aborts ==> t == s
        }),
{
}

/// On the prompt that confirms using the selected profile here, only pressing
/// `y` runs commands, those that set the selected profile's user name and
/// e-mail in the working directory; pressing `n` goes back to the list;
/// any other key, and any key release, changes nothing. The profiles stay
/// as they are whatever the key.
pub proof fn lemma_inject_prompt_keys(s: AppView, k: KeyInput)
    requires
        s.current_screen == CurrentScreen::Injecting,
    ensures
        ({
            let (t, a) = step(s, k);
            let confirms = k.phase != KeyPhase::Release && k.key == Key::Char('y');
            let aborts = k.phase != KeyPhase::Release && k.key == Key::Char('n');
            &&& t.entries == s.entries && t.selected_index == s.selected_index
            &&& confirms ==> t.current_screen == CurrentScreen::Main && a == ActionView::Run(
                inject_commands(s),
            )
            &&& !confirms ==> a == ActionView::Continue
            &&& aborts ==> t == AppView { current_screen: CurrentScreen::Main, ..s }
            &&& !confirms && !aborts ==> t == s
        }),
{
}

/// Choosing a profile for the current repository and confirming runs the
/// commands that set the selected profile's user name and e-mail in the
/// working directory, and nothing else.
pub proof fn lemma_inject_confirm_uses_selected(s: AppView, i: usize)
    requires
        s.current_screen == CurrentScreen::Main,
        s.selected_index == Some(i),
    ensures
        ({
            let (t, a) = step(
                step(s, KeyInput { key: Key::Enter, phase: KeyPhase::Press }).0,
                KeyInput { key: Key::Char('y'), phase: KeyPhase::Press },
            );
            &&& a == ActionView::Run(
                config_commands(s.entries[i as int].username, s.entries[i as int].email, s.workdir),
            )
            &&& t == s
        }),
{
}

/// Quitting asks to store the profiles as they are, and a restart on the
/// stored file has the same profiles, provided no field holds a comma or a
/// line feed and no token ends with a carriage return.
pub proof fn lemma_quit_then_restart(s: AppView, save_file: Seq<char>)
    requires
        s.current_screen == CurrentScreen::Main,
        forall|i: int| 0 <= i < s.entries.len() ==> storable(#[trigger] s.entries[i]),
    ensures
        step(s, KeyInput { key: Key::Char('q'), phase: KeyPhase::Press }) == (s, ActionView::Quit),
        initial_state(save_file, serialize_profiles(s.entries)).entries == s.entries,
{
    lemma_profiles_round_trip(s.entries);
}

} // verus!
