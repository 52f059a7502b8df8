//! What the screens show: footer texts and the areas that the layout gives each part.
use vstd::prelude::*;

use crate::app::{next_field, App, AppView, CurrentScreen, CurrentlyEditing};
use crate::events::field_text;

verus! {

/// The colour a text is shown in.
#[derive(Clone, Copy, Debug, PartialEq, Eq, Structural)]
pub enum Tone {
    Green,
    Yellow,
    White,
    DarkGray,
    Red,
}

/// A text and the colour it is shown in.
pub struct StyledText {
    pub text: String,
    pub tone: Tone,
}

/// The mathematical content of a [`StyledText`].
pub struct StyledTextView {
    pub text: Seq<char>,
    pub tone: Tone,
}

impl View for StyledText {
    type V = StyledTextView;

    open spec fn view(&self) -> StyledTextView {
        StyledTextView { text: self.text@, tone: self.tone }
    }
}

/// The views of a sequence of styled texts.
pub open spec fn styled_views(v: Seq<StyledText>) -> Seq<StyledTextView> {
    v.map_values(|t: StyledText| t@)
}

/// The key hints of a screen.
pub open spec fn hint_text(screen: CurrentScreen) -> Seq<char> {
    match screen {
        CurrentScreen::Main => "(q) to quit / (%) to create a new profile / (d) to delete selected profile"@,
        CurrentScreen::Editing => "(ESC) to cancel/(Tab) to switch boxes/(Enter) to complete"@,
        CurrentScreen::Deleting => "(y) confirm/ (n) abort"@,
        CurrentScreen::Cloning => "(Enter) confirm/ (Esc) abort"@,
        CurrentScreen::Injecting => "(y) confirm/ (n) abort"@,
    }
}

/// The footer's description of the mode and of the field being edited.
pub open spec fn navigation_texts(s: AppView) -> Seq<StyledTextView> {
    let mode = if s.current_screen == CurrentScreen::Editing {
        StyledTextView { text: "Editing Mode"@, tone: Tone::Yellow }
    } else {
        StyledTextView { text: "Normal Mode"@, tone: Tone::Green }
    };
    let editing = match s.currently_editing {
        Some(CurrentlyEditing::Username) => StyledTextView {
            text: "Editing username"@,
            tone: Tone::Green,
        },
        Some(CurrentlyEditing::Email) => StyledTextView { text: "Editing email"@, tone: Tone::Green },
        Some(CurrentlyEditing::Alias) => StyledTextView { text: "Editing alias"@, tone: Tone::Green },
        Some(CurrentlyEditing::Token) => StyledTextView { text: "Editing token"@, tone: Tone::Green },
        None => StyledTextView { text: "Not Editing Anything"@, tone: Tone::DarkGray },
    };
    seq![mode, StyledTextView { text: " | "@, tone: Tone::White }, editing]
}

fn styled(text: &str, tone: Tone) -> (r: StyledText)
    ensures
        r@ == (StyledTextView { text: text@, tone }),
{
    StyledText { text: String::from_str(text), tone }
}

/// The key hints shown in the footer of a screen, in red.
pub fn key_hints(current_screen: &CurrentScreen) -> (hint: StyledText)
    ensures
        hint@ == (StyledTextView { text: hint_text(*current_screen), tone: Tone::Red }),
{
    match current_screen {
        CurrentScreen::Main => styled(
            "(q) to quit / (%) to create a new profile / (d) to delete selected profile",
            Tone::Red,
        ),
        CurrentScreen::Editing => styled(
            "(ESC) to cancel/(Tab) to switch boxes/(Enter) to complete",
            Tone::Red,
        ),
        CurrentScreen::Deleting => styled("(y) confirm/ (n) abort", Tone::Red),
        CurrentScreen::Cloning => styled("(Enter) confirm/ (Esc) abort", Tone::Red),
        CurrentScreen::Injecting => styled("(y) confirm/ (n) abort", Tone::Red),
    }
}

/// The footer's description of the mode and of the field being edited.
pub fn current_navigation_text(app: &App) -> (texts: Vec<StyledText>)
    ensures
        styled_views(texts@) == navigation_texts(app@),
{
    let mut texts: Vec<StyledText> = Vec::new();
    texts.push(
        match &app.current_screen {
            CurrentScreen::Editing => styled("Editing Mode", Tone::Yellow),
            _ => styled("Normal Mode", Tone::Green),
        },
    );
    texts.push(styled(" | ", Tone::White));
    texts.push(
        match &app.currently_editing {
            Some(CurrentlyEditing::Username) => styled("Editing username", Tone::Green),
            Some(CurrentlyEditing::Email) => styled("Editing email", Tone::Green),
            Some(CurrentlyEditing::Alias) => styled("Editing alias", Tone::Green),
            Some(CurrentlyEditing::Token) => styled("Editing token", Tone::Green),
            None => styled("Not Editing Anything", Tone::DarkGray),
        },
    );
    assert(styled_views(texts@) =~= navigation_texts(app@));
    texts
}

/// One box of the profile form: its title, the text typed into it, and
/// whether it takes the typed characters.
pub struct FormBox {
    pub title: String,
    pub text: String,
    pub active: bool,
}

/// The mathematical content of a [`FormBox`].
pub struct FormBoxView {
    pub title: Seq<char>,
    pub text: Seq<char>,
    pub active: bool,
}

impl View for FormBox {
    type V = FormBoxView;

    open spec fn view(&self) -> FormBoxView {
        FormBoxView { title: self.title@, text: self.text@, active: self.active }
    }
}

/// The views of a sequence of form boxes.
pub open spec fn form_box_views(v: Seq<FormBox>) -> Seq<FormBoxView> {
    v.map_values(|b: FormBox| b@)
}

/// The boxes of the profile form, in the order alias, username, email, token,
/// with the edited one marked; nothing while no field is edited.
pub open spec fn form_boxes(s: AppView) -> Option<Seq<FormBoxView>> {
    match s.currently_editing {
        None => None,
        Some(f) => Some(
            seq![
                FormBoxView {
                    title: "Profile Alias (not visible in git)"@,
                    text: s.alias_input,
                    active: f == CurrentlyEditing::Alias,
                },
                FormBoxView {
                    title: "Username"@,
                    text: s.username_input,
                    active: f == CurrentlyEditing::Username,
                },
                FormBoxView {
                    title: "Email"@,
                    text: s.email_input,
                    active: f == CurrentlyEditing::Email,
                },
                FormBoxView {
                    title: "PA-Token"@,
                    text: s.token_input,
                    active: f == CurrentlyEditing::Token,
                },
            ],
        ),
    }
}

/// The title of the box in which a field of the profile form is typed.
pub open spec fn field_title(f: CurrentlyEditing) -> Seq<char> {
    match f {
        CurrentlyEditing::Alias => "Profile Alias (not visible in git)"@,
        CurrentlyEditing::Username => "Username"@,
        CurrentlyEditing::Email => "Email"@,
        CurrentlyEditing::Token => "PA-Token"@,
    }
}

/// Where the box of a field stands in the profile form, counted from the top.
pub open spec fn form_position(f: CurrentlyEditing) -> int {
    match f {
        CurrentlyEditing::Alias => 0,
        CurrentlyEditing::Username => 1,
        CurrentlyEditing::Email => 2,
        CurrentlyEditing::Token => 3,
    }
}

/// No two fields of the profile form have boxes with the same title.
pub proof fn lemma_field_titles_distinct(f: CurrentlyEditing, g: CurrentlyEditing)
    ensures
        field_title(f) == field_title(g) ==> f == g,
{
    reveal_strlit("Profile Alias (not visible in git)");
    reveal_strlit("Username");
    reveal_strlit("Email");
    reveal_strlit("PA-Token");
    if f != g && field_title(f) == field_title(g) {
        assert(field_title(f)[0] == field_title(g)[0]);
        assert(field_title(f).len() == field_title(g).len());
    }
}

/// Moving to the next field of the profile form goes to the box just below,
/// and from the last box back to the first; with no field edited yet, it goes
/// to the first box.
pub proof fn lemma_next_field_box_below(f: CurrentlyEditing)
    ensures
        form_position(next_field(Some(f))) == (form_position(f) + 1) % 4,
        form_position(next_field(None)) == 0,
{
}

fn form_box(title: &str, text: &String, active: bool) -> (b: FormBox)
    ensures
        b@ == (FormBoxView { title: title@, text: text@, active }),
{
    FormBox { title: String::from_str(title), text: text.clone(), active }
}

/// The boxes of the profile form (see [`form_boxes`]).
pub fn editing_form(app: &App) -> (boxes: Option<Vec<FormBox>>)
    ensures
        match boxes {
            None => form_boxes(app@) is None,
            Some(bs) => form_boxes(app@) == Some(form_box_views(bs@)),
        },
        boxes is Some <==> app@.currently_editing is Some,
        boxes matches Some(bs) ==> bs@.len() == 4,
        boxes matches Some(bs) ==> forall|f: CurrentlyEditing|
            #![trigger field_title(f)]
            bs@[form_position(f)]@.title == field_title(f) && bs@[form_position(f)]@.text
                == field_text(app@, f) && bs@[form_position(f)]@.active == (app@.currently_editing
                == Some(f)),
        boxes matches Some(bs) ==> forall|k: int, f: CurrentlyEditing|
            #![trigger bs@[k], field_title(f)]
            0 <= k < bs@.len() && bs@[k]@.title == field_title(f) ==> bs@[k]@.text == field_text(
                app@,
                f,
            ) && bs@[k]@.active == (app@.currently_editing == Some(f)),
{
    let editing = match app.currently_editing {
        None => {
            return None;
        },
        Some(f) => f,
    };
    let mut boxes: Vec<FormBox> = Vec::new();
    boxes.push(
        form_box(
            "Profile Alias (not visible in git)",
            &app.alias_input,
            editing == CurrentlyEditing::Alias,
        ),
    );
    boxes.push(form_box("Username", &app.username_input, editing == CurrentlyEditing::Username));
    boxes.push(form_box("Email", &app.email_input, editing == CurrentlyEditing::Email));
    boxes.push(form_box("PA-Token", &app.token_input, editing == CurrentlyEditing::Token));
    assert(form_box_views(boxes@) =~= form_boxes(app@)->0);
    proof {
        assert forall|k: int, f: CurrentlyEditing|
            0 <= k < boxes@.len() && boxes@[k]@.title == field_title(f) implies boxes@[k]@.text
                == field_text(app@, f) && boxes@[k]@.active == (app@.currently_editing == Some(
                f,
            )) by {
            let g = if k == 0 {
                CurrentlyEditing::Alias
            } else if k == 1 {
                CurrentlyEditing::Username
            } else if k == 2 {
                CurrentlyEditing::Email
            } else {
                CurrentlyEditing::Token
            };
            assert(boxes@[k]@.title == field_title(g));
            lemma_field_titles_distinct(f, g);
        }
    }
    Some(boxes)
}

} // verus!
