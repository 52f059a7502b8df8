//! The application state: stored profiles, the form being edited and the screen shown.
use vstd::prelude::*;

use crate::entry::{entry_views, Entry, EntryView};
use crate::git::{
    clone_command, clone_url, command_views, names_repository_at, no_line_feed, string_views, config_commands, config_commands_for, named_capture,
    regex_named_capture, GitCommand, GitCommandView,
};
use crate::profiles::{parse_entries, parse_profiles, serialize_entries, serialize_profiles};

verus! {

/// The screen the user is looking at.
#[derive(Clone, Copy, Debug, PartialEq, Eq, Structural)]
pub enum CurrentScreen {
    /// The list of profiles.
    Main,
    /// The form that creates a profile.
    Editing,
    /// The prompt that confirms deleting the selected profile.
    Deleting,
    /// The prompt for the url of a repository to clone.
    Cloning,
    /// The prompt that confirms using the selected profile in the current repository.
    Injecting,
}

/// The field of the profile form that takes the typed characters.
#[derive(Clone, Copy, Debug, PartialEq, Eq, Structural)]
pub enum CurrentlyEditing {
    Alias,
    Username,
    Email,
    Token,
}

/// Why a clone cannot be planned.
#[derive(Clone, Copy, Debug, PartialEq, Eq, Structural)]
pub enum CloneError {
    /// The url is not of the form `https://…` or names no `….git` repository.
    IllegalUrl,
    /// No profile is selected to clone with.
    NoProfileSelected,
}

/// The state of the application.
pub struct App {
    pub alias_input: String,
    pub username_input: String,
    pub email_input: String,
    pub token_input: String,
    pub clone_url_input: String,
    /// The stored profiles, in the order shown.
    pub entries: Vec<Entry>,
    /// The screen the user is looking at.
    pub current_screen: CurrentScreen,
    /// The position of the selected profile in `entries`, if any.
    pub selected_index: Option<usize>,
    /// The field of the form being edited, if any.
    pub currently_editing: Option<CurrentlyEditing>,
    /// The path of the profile file.
    pub save_file: String,
    /// The directory that git commands run in.
    pub workdir: String,
}

/// The mathematical content of an [`App`].
pub struct AppView {
    pub alias_input: Seq<char>,
    pub username_input: Seq<char>,
    pub email_input: Seq<char>,
    pub token_input: Seq<char>,
    pub clone_url_input: Seq<char>,
    pub entries: Seq<EntryView>,
    pub current_screen: CurrentScreen,
    pub selected_index: Option<usize>,
    pub currently_editing: Option<CurrentlyEditing>,
    pub save_file: Seq<char>,
    pub workdir: Seq<char>,
}

impl View for App {
    type V = AppView;

    open spec fn view(&self) -> AppView {
        AppView {
            alias_input: self.alias_input@,
            username_input: self.username_input@,
            email_input: self.email_input@,
            token_input: self.token_input@,
            clone_url_input: self.clone_url_input@,
            entries: entry_views(self.entries@),
            current_screen: self.current_screen,
            selected_index: self.selected_index,
            currently_editing: self.currently_editing,
            save_file: self.save_file@,
            workdir: self.workdir@,
        }
    }
}

impl AppView {
    /// The selection, if any, points at a stored profile.
    pub open spec fn selection_valid(self) -> bool {
        self.selected_index matches Some(i) ==> i < self.entries.len()
    }

    /// The state with every input of the form and the clone prompt emptied
    /// and no field being edited.
    pub open spec fn cleared(self) -> AppView {
        AppView {
            alias_input: Seq::empty(),
            username_input: Seq::empty(),
            email_input: Seq::empty(),
            token_input: Seq::empty(),
            clone_url_input: Seq::empty(),
            currently_editing: None,
            ..self
        }
    }

    /// The profile made of the form's inputs.
    pub open spec fn input_entry(self) -> EntryView {
        EntryView {
            alias: self.alias_input,
            username: self.username_input,
            email: self.email_input,
            pa_token: self.token_input,
        }
    }
}

/// The field that the form moves to from `editing`: the fields in the order
/// alias, username, email, token and round again; alias when none is edited.
pub open spec fn next_field(editing: Option<CurrentlyEditing>) -> CurrentlyEditing {
    match editing {
        None => CurrentlyEditing::Alias,
        Some(CurrentlyEditing::Alias) => CurrentlyEditing::Username,
        Some(CurrentlyEditing::Username) => CurrentlyEditing::Email,
        Some(CurrentlyEditing::Email) => CurrentlyEditing::Token,
        Some(CurrentlyEditing::Token) => CurrentlyEditing::Alias,
    }
}

/// The preview of a profile shown beside the list.
pub open spec fn preview_text(e: EntryView) -> Seq<char> {
    "Username: "@ + e.username + "\n\nEmail: "@ + e.email + "\n\nToken: "@ + e.pa_token
}

/// The commands that apply the selected profile to the repository in the working directory.
pub open spec fn inject_commands(s: AppView) -> Seq<GitCommandView> {
    match s.selected_index {
        None => Seq::empty(),
        Some(i) => config_commands(s.entries[i as int].username, s.entries[i as int].email, s.workdir),
    }
}

/// The pattern that takes the part of a clone url after `https://`.
pub open spec fn url_pattern() -> Seq<char> {
    "^https://(?<url>.+)$"@
}

/// The pattern that takes the repository's directory name from a clone url.
pub open spec fn path_pattern() -> Seq<char> {
    "(?<path>[^/]*).git"@
}

/// The commands that clone `url` with the profile `e` from `workdir`, then
/// apply the profile to the clone in `path`.
pub open spec fn clone_plan(e: EntryView, workdir: Seq<char>, url: Seq<char>, path: Seq<char>) -> Seq<
    GitCommandView,
> {
    seq![clone_command(e, url, workdir)] + config_commands(e.username, e.email, path)
}

/// Where the url typed in the clone prompt leads: the url without its
/// `https://` scheme and the directory of the clone; or why it cannot be cloned.
pub open spec fn clone_target(s: AppView) -> Result<(Seq<char>, Seq<char>), CloneError> {
    match regex_named_capture(url_pattern(), "url"@, s.clone_url_input) {
        None => Err(CloneError::IllegalUrl),
        Some(url) => match s.selected_index {
            None => Err(CloneError::NoProfileSelected),
            Some(_) => match regex_named_capture(path_pattern(), "path"@, url) {
                None => Err(CloneError::IllegalUrl),
                Some(path) => Ok((url, path)),
            },
        },
    }
}

/// The clone prompt holds `https://<url>`, where `<url>` holds no line feed and
/// ends with `/<name>.git`, the name starting at position `n` of `<url>` (see
/// [`names_repository_at`]).
pub open spec fn clone_url_names(input: Seq<char>, n: int) -> bool {
    &&& input.len() > 8
    &&& input.take(8) == "https://"@
    &&& no_line_feed(input.skip(8))
    &&& names_repository_at(input.skip(8), n)
}

/// What cloning the repository at the url typed in the clone prompt comes to.
pub open spec fn clone_outcome(s: AppView) -> Result<Seq<GitCommandView>, CloneError> {
    match clone_target(s) {
        Ok((url, path)) => Ok(
            clone_plan(s.entries[s.selected_index->0 as int], s.workdir, url, path),
        ),
        Err(e) => Err(e),
    }
}

/// The state after deleting the selected profile: the selection stays on the
/// same position unless no profile is left there.
pub open spec fn after_delete(s: AppView) -> AppView {
    match s.selected_index {
        None => s,
        Some(i) => AppView {
            entries: s.entries.remove(i as int),
            selected_index: if s.entries.len() - 1 <= i {
                None
            } else {
                Some(i)
            },
            ..s
        },
    }
}

/// The state of a freshly started application whose profile file is
/// `save_file` and holds `content`.
pub open spec fn initial_state(save_file: Seq<char>, content: Seq<char>) -> AppView {
    AppView {
        alias_input: Seq::empty(),
        username_input: Seq::empty(),
        email_input: Seq::empty(),
        token_input: Seq::empty(),
        clone_url_input: Seq::empty(),
        entries: parse_profiles(content),
        current_screen: CurrentScreen::Main,
        selected_index: None,
        currently_editing: None,
        save_file,
        workdir: seq!['.'],
    }
}

/// The preview of a profile reads `Username: `, the user name, `Email: ` and
/// the e-mail after a blank line, and `Token: ` and the whole token after
/// another: the token ends the preview, and the user name follows the first
/// label directly.
pub proof fn lemma_preview_parts(e: EntryView)
    ensures
        ({
            let p = preview_text(e);
            let u = e.username.len() as int;
            let m = e.email.len() as int;
            let t = e.pa_token.len() as int;
            &&& p.len() == 28 + u + m + t
            &&& p.take(10) == "Username: "@
            &&& p.subrange(10, 10 + u) == e.username
            &&& p.subrange(10 + u, 19 + u) == "\n\nEmail: "@
            &&& p.subrange(19 + u, 19 + u + m) == e.email
            &&& p.subrange(p.len() - t - 9, p.len() - t) == "\n\nToken: "@
            &&& p.skip(p.len() - t) == e.pa_token
        }),
{
    reveal_strlit("Username: ");
    reveal_strlit("\n\nEmail: ");
    reveal_strlit("\n\nToken: ");
    let p = preview_text(e);
    let u = e.username.len() as int;
    let m = e.email.len() as int;
    let t = e.pa_token.len() as int;
    let f = "Username: "@ + e.username + "\n\nEmail: "@ + e.email + "\n\nToken: "@;
    assert(p == f + e.pa_token);
    assert(p.take(10) =~= "Username: "@);
    assert(p.subrange(10, 10 + u) =~= e.username);
    assert(p.subrange(10 + u, 19 + u) =~= "\n\nEmail: "@);
    assert(p.subrange(19 + u, 19 + u + m) =~= e.email);
    assert(p.subrange(p.len() - t - 9, p.len() - t) =~= "\n\nToken: "@);
    assert(p.skip(p.len() - t) =~= e.pa_token);
}

/// Moving through the form visits the four fields in turn and comes back to
/// the first after four moves.
pub proof fn lemma_toggle_cycle(f: CurrentlyEditing)
    ensures
        next_field(Some(next_field(Some(next_field(Some(next_field(Some(f)))))))) == f,
        next_field(Some(f)) != f,
{
}

impl App {
    /// A fresh application on the profile file `save_file`, whose contents are `content`.
    pub fn new(save_file: String, content: &str) -> (app: App)
        ensures
            app@ == initial_state(save_file@, content@),
            app@.selection_valid(),
    {
        let mut workdir = String::new();
        crate::text::push_char(&mut workdir, '.');
        let mut app = App {
            alias_input: String::new(),
            username_input: String::new(),
            email_input: String::new(),
            token_input: String::new(),
            clone_url_input: String::new(),
            entries: Vec::new(),
            current_screen: CurrentScreen::Main,
            selected_index: None,
            currently_editing: None,
            save_file,
            workdir,
        };
        assert(entry_views(app.entries@) =~= Seq::<EntryView>::empty());
        app.load_entries(content);
        assert(Seq::<EntryView>::empty() + parse_profiles(content@) =~= parse_profiles(content@));
        app
    }

    /// Adds the profiles stored in `content`, the contents of a profile file,
    /// after the profiles already held.
    pub fn load_entries(&mut self, content: &str)
        ensures
            old(self)@.selection_valid() ==> final(self)@.selection_valid(),
            final(self)@ == (AppView {
                entries: old(self)@.entries + parse_profiles(content@),
                ..old(self)@
            }),
    {
        let mut parsed = parse_entries(content);
        let ghost before = entry_views(self.entries@);
        let ghost added = entry_views(parsed@);
        self.entries.append(&mut parsed);
        assert(entry_views(self.entries@) =~= before + added);
    }

    /// Moves the form to the next field (see [`next_field`]).
    pub fn toggle_editing(&mut self)
        ensures
            old(self)@.selection_valid() ==> final(self)@.selection_valid(),
            final(self)@ == (AppView {
                currently_editing: Some(next_field(old(self)@.currently_editing)),
                ..old(self)@
            }),
    {
        if let Some(edit_mode) = &self.currently_editing {
            match edit_mode {
                CurrentlyEditing::Alias => {
                    self.currently_editing = Some(CurrentlyEditing::Username)
                },
                CurrentlyEditing::Username => {
                    self.currently_editing = Some(CurrentlyEditing::Email)
                },
                CurrentlyEditing::Email => self.currently_editing = Some(CurrentlyEditing::Token),
                CurrentlyEditing::Token => self.currently_editing = Some(CurrentlyEditing::Alias),
            };
        } else {
            self.currently_editing = Some(CurrentlyEditing::Alias);
        }
    }

    /// Stores the profile made of the form's inputs after the others.
    pub fn store_entries(&mut self)
        ensures
            old(self)@.selection_valid() ==> final(self)@.selection_valid(),
            final(self)@ == (AppView {
                entries: old(self)@.entries.push(old(self)@.input_entry()),
                ..old(self)@
            }),
    {
        let created_entry = Entry {
            alias: self.alias_input.clone(),
            username: self.username_input.clone(),
            email: self.email_input.clone(),
            pa_token: self.token_input.clone(),
        };
        let ghost before = entry_views(self.entries@);
        self.entries.push(created_entry);
        assert(entry_views(self.entries@) =~= before.push(old(self)@.input_entry()));
    }

    /// Empties the form and the clone prompt, and stops editing.
    pub fn clear(&mut self)
        ensures
            old(self)@.selection_valid() ==> final(self)@.selection_valid(),
            final(self)@ == old(self)@.cleared(),
    {
        self.alias_input = String::new();
        self.username_input = String::new();
        self.email_input = String::new();
        self.token_input = String::new();
        self.clone_url_input = String::new();
        self.currently_editing = None;
    }

    /// The preview of the selected profile, ending with its whole token; empty
    /// when none is selected.
    pub fn str_from_entry(&self) -> (text: String)
        requires
            self@.selection_valid(),
        ensures
            text@ == match self@.selected_index {
                None => Seq::empty(),
                Some(i) => preview_text(self@.entries[i as int]),
            },
            self@.selected_index matches Some(i) ==> text@ == "Username: "@
                + self@.entries[i as int].username + "\n\nEmail: "@ + self@.entries[i as int].email
                + "\n\nToken: "@ + self@.entries[i as int].pa_token,
            self@.selected_index matches Some(i) ==> text@.skip(
                text@.len() - self@.entries[i as int].pa_token.len(),
            ) == self@.entries[i as int].pa_token,
    {
        match self.selected_index {
            None => String::new(),
            Some(idx) => {
                let e = &self.entries[idx];
                proof {
                    lemma_preview_parts(e@);
                }
                let mut text = String::from_str("Username: ");
                text.append(e.username.as_str());
                text.append("\n\nEmail: ");
                text.append(e.email.as_str());
                text.append("\n\nToken: ");
                text.append(e.pa_token.as_str());
                text
            },
        }
    }

    /// Deletes the selected profile; the selection stays on the same position
    /// unless no profile is left there.
    pub fn delete_current_entry(&mut self)
        requires
            old(self)@.selection_valid(),
        ensures
            final(self)@.selection_valid(),
            final(self)@ == after_delete(old(self)@),
    {
        match self.selected_index {
            Some(idx) => {
                let ghost before = entry_views(self.entries@);
                self.entries.remove(idx);
                assert(entry_views(self.entries@) =~= before.remove(idx as int));
                if self.entries.len() <= idx {
                    self.selected_index = None;
                }
            },
            None => {},
        }
    }

    /// The git commands that make the repository in the working directory
    /// commit as the selected profile; none when no profile is selected.
    pub fn inject_selected_profile(&self) -> (cs: Vec<GitCommand>)
        requires
            self@.selection_valid(),
        ensures
            command_views(cs@) == inject_commands(self@),
            self@.selected_index is None ==> cs@.len() == 0,
            self@.selected_index matches Some(i) ==> ({
                let e = self@.entries[i as int];
                &&& cs@.len() == 2
                &&& cs@[0]@ == GitCommandView {
                    dir: self@.workdir,
                    args: seq!["config"@, "--local"@, "user.name"@, e.username],
                }
                &&& cs@[1]@ == GitCommandView {
                    dir: self@.workdir,
                    args: seq!["config"@, "--local"@, "user.email"@, e.email],
                }
            }),
    {
        let Some(idx) = self.selected_index else {
            return Vec::new();
        };
        let selected_entry = &self.entries[idx];
        let cs = config_commands_for(&selected_entry.username, &selected_entry.email, &self.workdir);
        proof {
            let views = command_views(cs@);
            assert(views.len() == 2);
            assert(views[0] == cs@[0]@ && views[1] == cs@[1]@);
        }
        cs
    }

    /// The contents of the profile file that stores all profiles.
    pub fn save_all_data(&self) -> (content: String)
        ensures
            content@ == serialize_profiles(self@.entries),
    {
        serialize_entries(&self.entries)
    }

    /// The commands that clone `url` (without its `https://` scheme) with the
    /// selected profile and then apply the profile to the clone in `clone_path`.
    pub fn clone_commands(&self, url: &str, clone_path: &str) -> (cs: Vec<GitCommand>)
        requires
            self@.selected_index is Some,
            self@.selection_valid(),
        ensures
            command_views(cs@) == clone_plan(
                self@.entries[self@.selected_index->0 as int],
                self@.workdir,
                url@,
                clone_path@,
            ),
    {
        let idx = self.selected_index.unwrap();
        let e = &self.entries[idx];
        let mut target = String::from_str("https://");
        target.append(e.username.as_str());
        crate::text::push_char(&mut target, ':');
        target.append(e.pa_token.as_str());
        crate::text::push_char(&mut target, '@');
        target.append(url);
        assert(target@ =~= clone_url(e@, url@));
        let mut args: Vec<String> = Vec::new();
        args.push(String::from_str("clone"));
        args.push(target);
        let clone = GitCommand { dir: self.workdir.clone(), args };
        assert(string_views(clone.args@) =~= seq!["clone"@, clone_url(e@, url@)]);
        assert(clone@ == clone_command(e@, url@, self@.workdir));
        let path = String::from_str(clone_path);
        let mut cs: Vec<GitCommand> = Vec::new();
        cs.push(clone);
        let mut config = config_commands_for(&e.username, &e.email, &path);
        let ghost first = command_views(cs@);
        let ghost rest = command_views(config@);
        cs.append(&mut config);
        assert(command_views(cs@) =~= first + rest);
        assert(first =~= seq![clone_command(e@, url@, self@.workdir)]);
        assert(e@ == self@.entries[idx as int]);
        cs
    }

    /// Where the url typed in the clone prompt leads (see [`clone_target`]).
    /// With a profile selected and `https://<url>` typed, where `<url>` ends
    /// with `/<name>.git` (see [`clone_url_names`]), this is `<url>` and
    /// `<name>`, the directory that `git clone` creates.
    pub fn find_clone_target(&self) -> (r: Result<(String, String), CloneError>)
        ensures
            match r {
                Ok((url, path)) => clone_target(self@) == Ok::<(Seq<char>, Seq<char>), CloneError>(
                    (url@, path@),
                ),
                Err(e) => clone_target(self@) == Err::<(Seq<char>, Seq<char>), CloneError>(e),
            },
            forall|n: int|
                self@.selected_index is Some && #[trigger] clone_url_names(self@.clone_url_input, n)
                    ==> (r matches Ok((url, path)) && url@ == self@.clone_url_input.skip(8) && path@
                    == self@.clone_url_input.skip(8).subrange(n, self@.clone_url_input.len() - 12)),
    {
        let url = match named_capture("^https://(?<url>.+)$", "url", self.clone_url_input.as_str()) {
            Some(u) => u,
            None => {
                return Err(CloneError::IllegalUrl);
            },
        };
        if self.selected_index.is_none() {
            return Err(CloneError::NoProfileSelected);
        }
        let path = match named_capture("(?<path>[^/]*).git", "path", url.as_str()) {
            Some(p) => p,
            None => {
                return Err(CloneError::IllegalUrl);
            },
        };
        Ok((url, path))
    }

    /// The commands that clone the repository whose url is typed in the clone
    /// prompt with the selected profile (see [`clone_outcome`]); the url must
    /// lead somewhere and a profile must be selected. For `https://<url>`
    /// ending with `/<name>.git` (see [`clone_url_names`]), these are `git clone`
    /// of `<url>` with the profile's user name and token, run in the working
    /// directory, then the two `git config --local` commands that set the
    /// profile's user name and e-mail, run in `<name>`, the clone.
    pub fn clone_repo(&self) -> (cs: Vec<GitCommand>)
        requires
            self@.selection_valid(),
            clone_outcome(self@) is Ok,
        ensures
            clone_outcome(self@) == Ok::<Seq<GitCommandView>, CloneError>(command_views(cs@)),
            forall|n: int|
                #[trigger] clone_url_names(self@.clone_url_input, n) ==> ({
                    let e = self@.entries[self@.selected_index->0 as int];
                    let url = self@.clone_url_input.skip(8);
                    let name = url.subrange(n, url.len() - 4);
                    &&& cs@.len() == 3
                    &&& cs@[0]@ == GitCommandView {
                        dir: self@.workdir,
                        args: seq![
                            "clone"@,
                            "https://"@ + e.username + seq![':'] + e.pa_token + seq!['@'] + url,
                        ],
                    }
                    &&& cs@[1]@ == GitCommandView {
                        dir: name,
                        args: seq!["config"@, "--local"@, "user.name"@, e.username],
                    }
                    &&& cs@[2]@ == GitCommandView {
                        dir: name,
                        args: seq!["config"@, "--local"@, "user.email"@, e.email],
                    }
                }),
    {
        match self.find_clone_target() {
            Ok((url, path)) => {
                let cs = self.clone_commands(url.as_str(), path.as_str());
                proof {
                    let views = command_views(cs@);
                    assert(views.len() == 3);
                    assert(views[0] == cs@[0]@ && views[1] == cs@[1]@ && views[2] == cs@[2]@);
                    assert(views[0].dir == self@.workdir);
                    assert(views[1].dir == path@ && views[2].dir == path@);
                }
                cs
            },
            Err(_) => Vec::new(),
        }
    }
}

} // verus!
