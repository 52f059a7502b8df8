use gat::{Action, App, CloneError, CurrentScreen, CurrentlyEditing, Key, KeyInput, KeyPhase};

fn press(key: Key) -> KeyInput {
    KeyInput { key, phase: KeyPhase::Press }
}

fn ch(c: char) -> KeyInput {
    press(Key::Char(c))
}

fn is_continue(a: &Action) -> bool {
    matches!(a, Action::Continue)
}

fn three_profiles() -> App {
    App::new(String::new(), "a,1,1,1\nb,2,2,2\nc,3,3,3\n")
}

#[test]
fn prepare_frame_selects_the_first_profile_on_the_main_screen() {
    let mut app = three_profiles();
    app.prepare_frame();
    assert_eq!(app.selected_index, Some(0));
    let mut empty = App::new(String::new(), "");
    empty.prepare_frame();
    assert_eq!(empty.selected_index, None);
    let mut editing = three_profiles();
    editing.current_screen = CurrentScreen::Editing;
    editing.prepare_frame();
    assert_eq!(editing.selected_index, None);
}

#[test]
fn key_releases_are_ignored() {
    let mut app = three_profiles();
    let a = app.handle_key(KeyInput { key: Key::Char('%'), phase: KeyPhase::Release });
    assert!(is_continue(&a));
    assert_eq!(app.current_screen, CurrentScreen::Main);
}

#[test]
fn j_and_k_move_the_selection_within_the_list() {
    let mut app = three_profiles();
    app.handle_key(ch('k'));
    assert_eq!(app.selected_index, Some(0));
    app.handle_key(ch('k'));
    assert_eq!(app.selected_index, Some(0));
    app.handle_key(ch('j'));
    assert_eq!(app.selected_index, Some(1));
    app.handle_key(ch('j'));
    app.handle_key(ch('j'));
    assert_eq!(app.selected_index, Some(2));
    app.handle_key(ch('k'));
    assert_eq!(app.selected_index, Some(1));
    let mut empty = App::new(String::new(), "");
    empty.handle_key(ch('j'));
    assert_eq!(empty.selected_index, None);
}

#[test]
fn the_form_creates_a_profile() {
    let mut app = App::new(String::new(), "");
    app.handle_key(ch('%'));
    assert_eq!(app.current_screen, CurrentScreen::Editing);
    assert_eq!(app.currently_editing, Some(CurrentlyEditing::Alias));
    for c in "home".chars() {
        app.handle_key(ch(c));
    }
    app.handle_key(press(Key::Tab));
    for c in "mee".chars() {
        app.handle_key(ch(c));
    }
    app.handle_key(press(Key::Backspace));
    app.handle_key(press(Key::Tab));
    for c in "m@x".chars() {
        app.handle_key(ch(c));
    }
    app.handle_key(press(Key::Tab));
    app.handle_key(ch('q'));
    // a repeated key does nothing on the form
    app.handle_key(KeyInput { key: Key::Char('z'), phase: KeyPhase::Repeat });
    let a = app.handle_key(press(Key::Enter));
    assert!(is_continue(&a));
    assert_eq!(app.current_screen, CurrentScreen::Main);
    assert_eq!(app.entries.len(), 1);
    assert_eq!(app.entries[0].to_string(), "home,me,m@x,q");
    assert_eq!(app.alias_input, "");
    assert_eq!(app.token_input, "");
    assert_eq!(app.currently_editing, None);
}

#[test]
fn escape_discards_the_form() {
    let mut app = App::new(String::new(), "");
    app.handle_key(ch('%'));
    app.handle_key(ch('x'));
    app.handle_key(press(Key::Esc));
    assert_eq!(app.current_screen, CurrentScreen::Main);
    assert!(app.entries.is_empty());
    assert_eq!(app.alias_input, "");
    assert_eq!(app.currently_editing, None);
}

#[test]
fn delete_asks_for_confirmation() {
    let mut app = three_profiles();
    app.handle_key(ch('d'));
    assert_eq!(app.current_screen, CurrentScreen::Main);
    app.prepare_frame();
    app.handle_key(ch('j'));
    app.handle_key(ch('d'));
    assert_eq!(app.current_screen, CurrentScreen::Deleting);
    app.handle_key(ch('n'));
    assert_eq!(app.current_screen, CurrentScreen::Main);
    assert_eq!(app.entries.len(), 3);
    app.handle_key(ch('d'));
    app.handle_key(ch('y'));
    assert_eq!(app.current_screen, CurrentScreen::Main);
    assert_eq!(app.entries.len(), 2);
    assert_eq!(app.entries[1].alias, "c");
    assert_eq!(app.selected_index, Some(1));
}

#[test]
fn enter_then_y_injects_the_selected_profile() {
    let mut app = three_profiles();
    app.handle_key(press(Key::Enter));
    assert_eq!(app.current_screen, CurrentScreen::Main);
    app.prepare_frame();
    app.handle_key(press(Key::Enter));
    assert_eq!(app.current_screen, CurrentScreen::Injecting);
    match app.handle_key(ch('y')) {
        Action::Run(cs) => {
            assert_eq!(cs.len(), 2);
            assert_eq!(cs[0].args, vec!["config", "--local", "user.name", "1"]);
            assert_eq!(cs[1].args, vec!["config", "--local", "user.email", "1"]);
        }
        _ => panic!("expected commands"),
    }
    assert_eq!(app.current_screen, CurrentScreen::Main);
}

#[test]
fn q_quits() {
    let mut app = three_profiles();
    assert!(matches!(app.handle_key(ch('q')), Action::Quit));
}

#[test]
fn the_clone_prompt_collects_a_url_and_clones() {
    let mut app = three_profiles();
    app.prepare_frame();
    app.handle_key(ch('c'));
    assert_eq!(app.current_screen, CurrentScreen::Cloning);
    for c in "https://h.example/o/repo.gitx".chars() {
        app.handle_key(ch(c));
    }
    app.handle_key(press(Key::Backspace));
    assert_eq!(app.clone_url_input, "https://h.example/o/repo.git");
    match app.handle_key(press(Key::Enter)) {
        Action::Run(cs) => {
            assert_eq!(cs.len(), 3);
            assert_eq!(cs[0].args, vec!["clone", "https://1:1@h.example/o/repo.git"]);
            assert_eq!(cs[0].dir, ".");
            assert_eq!(cs[1].dir, "repo");
        }
        _ => panic!("expected commands"),
    }
    assert_eq!(app.current_screen, CurrentScreen::Main);
    assert_eq!(app.clone_url_input, "");
}

#[test]
fn a_bad_clone_url_aborts_without_changing_the_state() {
    let mut app = three_profiles();
    app.prepare_frame();
    app.handle_key(ch('c'));
    app.handle_key(ch('x'));
    match app.handle_key(press(Key::Enter)) {
        Action::Abort(e) => assert_eq!(e, CloneError::IllegalUrl),
        _ => panic!("expected an abort"),
    }
    assert_eq!(app.current_screen, CurrentScreen::Cloning);
    assert_eq!(app.clone_url_input, "x");
    app.handle_key(press(Key::Esc));
    assert_eq!(app.current_screen, CurrentScreen::Main);
    assert_eq!(app.clone_url_input, "");
}
