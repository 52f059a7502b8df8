use gat::{App, CurrentScreen, CurrentlyEditing, Entry};

fn entry(alias: &str, username: &str, email: &str, token: &str) -> Entry {
    Entry {
        alias: alias.to_string(),
        username: username.to_string(),
        email: email.to_string(),
        pa_token: token.to_string(),
    }
}

fn fields(e: &Entry) -> (String, String, String, String) {
    (e.alias.clone(), e.username.clone(), e.email.clone(), e.pa_token.clone())
}

fn owned(a: &str, b: &str, c: &str, d: &str) -> (String, String, String, String) {
    (a.to_string(), b.to_string(), c.to_string(), d.to_string())
}

#[test]
fn entry_to_string_joins_fields_with_commas() {
    let e = entry("work", "jdoe", "jdoe@corp.example", "ghp_123");
    assert_eq!(e.to_string(), "work,jdoe,jdoe@corp.example,ghp_123");
    assert_eq!(entry("", "", "", "").to_string(), ",,,");
}

#[test]
fn new_app_starts_on_main_screen_with_parsed_profiles() {
    let app = App::new("/home/u/.gat".to_string(), "a,b,c,d\nx,y,z,w\n");
    assert_eq!(app.entries.len(), 2);
    assert_eq!(fields(&app.entries[0]), owned("a", "b", "c", "d"));
    assert_eq!(fields(&app.entries[1]), owned("x", "y", "z", "w"));
    assert_eq!(app.current_screen, CurrentScreen::Main);
    assert_eq!(app.selected_index, None);
    assert_eq!(app.currently_editing, None);
    assert_eq!(app.workdir, ".");
    assert_eq!(app.save_file, "/home/u/.gat");
    assert_eq!(app.alias_input, "");
    assert_eq!(app.clone_url_input, "");
}

#[test]
fn loading_skips_empty_and_malformed_lines() {
    let content = "\na,b,c\nfull,user,mail,tok\n1,2,3,4,5\n\n,,,\n";
    let app = App::new(String::new(), content);
    assert_eq!(app.entries.len(), 2);
    assert_eq!(fields(&app.entries[0]), owned("full", "user", "mail", "tok"));
    assert_eq!(fields(&app.entries[1]), owned("", "", "", ""));
}

#[test]
fn loading_handles_crlf_and_missing_final_newline() {
    let app = App::new(String::new(), "a,b,c,d\r\ne,f,g,h");
    assert_eq!(app.entries.len(), 2);
    assert_eq!(fields(&app.entries[0]), owned("a", "b", "c", "d"));
    assert_eq!(fields(&app.entries[1]), owned("e", "f", "g", "h"));
    // A carriage return not followed by a line feed stays in the last field.
    let app = App::new(String::new(), "a,b,c,d\r");
    assert_eq!(fields(&app.entries[0]), owned("a", "b", "c", "d\r"));
}

#[test]
fn loading_an_empty_file_gives_no_profiles() {
    let app = App::new(String::new(), "");
    assert!(app.entries.is_empty());
    let app = App::new(String::new(), "\n\n");
    assert!(app.entries.is_empty());
}

#[test]
fn load_entries_appends_after_existing_profiles() {
    let mut app = App::new(String::new(), "a,b,c,d\n");
    app.load_entries("e,f,g,h\n");
    assert_eq!(app.entries.len(), 2);
    assert_eq!(fields(&app.entries[1]), owned("e", "f", "g", "h"));
}

#[test]
fn save_all_data_writes_one_line_per_profile() {
    let mut app = App::new(String::new(), "");
    assert_eq!(app.save_all_data(), "");
    app.entries.push(entry("a", "b", "c", "d"));
    app.entries.push(entry("w", "x", "y", "z"));
    assert_eq!(app.save_all_data(), "a,b,c,d\nw,x,y,z\n");
}

#[test]
fn saved_profiles_load_back_unchanged() {
    let mut app = App::new(String::new(), "");
    app.entries.push(entry("home", "me", "me@home.example", "tok1"));
    app.entries.push(entry("", "", "", ""));
    app.entries.push(entry("work", "jdoe", "jdoe@corp.example", "ghp_abc"));
    let saved = app.save_all_data();
    let reloaded = App::new(String::new(), &saved);
    assert_eq!(reloaded.entries.len(), 3);
    for i in 0..3 {
        assert_eq!(fields(&reloaded.entries[i]), fields(&app.entries[i]));
    }
}

#[test]
fn toggle_editing_cycles_through_the_fields() {
    let mut app = App::new(String::new(), "");
    app.toggle_editing();
    assert_eq!(app.currently_editing, Some(CurrentlyEditing::Alias));
    app.toggle_editing();
    assert_eq!(app.currently_editing, Some(CurrentlyEditing::Username));
    app.toggle_editing();
    assert_eq!(app.currently_editing, Some(CurrentlyEditing::Email));
    app.toggle_editing();
    assert_eq!(app.currently_editing, Some(CurrentlyEditing::Token));
    app.toggle_editing();
    assert_eq!(app.currently_editing, Some(CurrentlyEditing::Alias));
}

#[test]
fn store_entries_appends_the_form_and_clear_empties_it() {
    let mut app = App::new(String::new(), "a,b,c,d\n");
    app.alias_input = "new".to_string();
    app.username_input = "u".to_string();
    app.email_input = "e@x".to_string();
    app.token_input = "t".to_string();
    app.clone_url_input = "https://x".to_string();
    app.currently_editing = Some(CurrentlyEditing::Email);
    app.store_entries();
    assert_eq!(app.entries.len(), 2);
    assert_eq!(fields(&app.entries[1]), owned("new", "u", "e@x", "t"));
    app.clear();
    assert_eq!(app.alias_input, "");
    assert_eq!(app.username_input, "");
    assert_eq!(app.email_input, "");
    assert_eq!(app.token_input, "");
    assert_eq!(app.clone_url_input, "");
    assert_eq!(app.currently_editing, None);
    assert_eq!(app.entries.len(), 2);
}

#[test]
fn str_from_entry_previews_the_selected_profile() {
    let mut app = App::new(String::new(), "a,jdoe,j@x.example,tok\n");
    assert_eq!(app.str_from_entry(), "");
    app.selected_index = Some(0);
    assert_eq!(
        app.str_from_entry(),
        "Username: jdoe\n\nEmail: j@x.example\n\nToken: tok"
    );
}

#[test]
fn delete_keeps_position_or_drops_selection_at_the_end() {
    let mut app = App::new(String::new(), "a,1,1,1\nb,2,2,2\nc,3,3,3\n");
    app.selected_index = Some(1);
    app.delete_current_entry();
    assert_eq!(app.entries.len(), 2);
    assert_eq!(app.entries[0].alias, "a");
    assert_eq!(app.entries[1].alias, "c");
    assert_eq!(app.selected_index, Some(1));
    app.delete_current_entry();
    assert_eq!(app.entries.len(), 1);
    assert_eq!(app.selected_index, None);
    app.delete_current_entry();
    assert_eq!(app.entries.len(), 1);
}
