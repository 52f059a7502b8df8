use gat::{
    centered_extents_for, current_navigation_text, editing_form, fixed_size_centered_rect,
    key_hints, split_columns, split_main_frame, App, Area, CurrentScreen, CurrentlyEditing,
    Extent, Tone,
};

fn area(x: u16, y: u16, width: u16, height: u16) -> Area {
    Area { x, y, width, height }
}

#[test]
fn key_hints_name_the_keys_of_each_screen() {
    let h = key_hints(&CurrentScreen::Main);
    assert_eq!(
        h.text,
        "(q) to quit / (%) to create a new profile / (d) to delete selected profile"
    );
    assert_eq!(h.tone, Tone::Red);
    assert_eq!(
        key_hints(&CurrentScreen::Editing).text,
        "(ESC) to cancel/(Tab) to switch boxes/(Enter) to complete"
    );
    assert_eq!(key_hints(&CurrentScreen::Deleting).text, "(y) confirm/ (n) abort");
    assert_eq!(key_hints(&CurrentScreen::Cloning).text, "(Enter) confirm/ (Esc) abort");
    assert_eq!(key_hints(&CurrentScreen::Injecting).text, "(y) confirm/ (n) abort");
}

#[test]
fn navigation_text_describes_mode_and_field() {
    let mut app = App::new(String::new(), "");
    let t = current_navigation_text(&app);
    assert_eq!(t.len(), 3);
    assert_eq!(t[0].text, "Normal Mode");
    assert_eq!(t[0].tone, Tone::Green);
    assert_eq!(t[1].text, " | ");
    assert_eq!(t[1].tone, Tone::White);
    assert_eq!(t[2].text, "Not Editing Anything");
    assert_eq!(t[2].tone, Tone::DarkGray);
    app.current_screen = CurrentScreen::Editing;
    app.currently_editing = Some(CurrentlyEditing::Email);
    let t = current_navigation_text(&app);
    assert_eq!(t[0].text, "Editing Mode");
    assert_eq!(t[0].tone, Tone::Yellow);
    assert_eq!(t[2].text, "Editing email");
}

#[test]
fn main_frame_has_title_body_and_footer() {
    let parts = split_main_frame(area(0, 0, 80, 24));
    assert_eq!(parts, vec![area(0, 0, 80, 3), area(0, 3, 80, 18), area(0, 21, 80, 3)]);
}

#[test]
fn columns_split_in_halves() {
    let parts = split_columns(area(0, 0, 80, 10));
    assert_eq!(parts, vec![area(0, 0, 40, 10), area(40, 0, 40, 10)]);
}

#[test]
fn centered_rect_sits_in_the_middle() {
    assert_eq!(fixed_size_centered_rect(60, 3, area(0, 0, 120, 51)), area(30, 24, 60, 3));
    assert_eq!(fixed_size_centered_rect(50, 5, area(10, 4, 100, 45)), area(35, 24, 50, 5));
}

#[test]
fn centered_extents_leave_equal_margins() {
    assert_eq!(
        centered_extents_for(3, 24),
        vec![Extent::Length(11), Extent::Length(3), Extent::Length(11)]
    );
    assert_eq!(
        centered_extents_for(60, 120),
        vec![Extent::Length(30), Extent::Length(60), Extent::Length(30)]
    );
}

#[test]
fn centered_rect_keeps_its_size_in_any_area() {
    let popup = fixed_size_centered_rect(60, 3, area(0, 0, 80, 24));
    assert_eq!(popup.width, 60);
    assert_eq!(popup.x, 10);
}

#[test]
fn editing_form_marks_the_edited_box() {
    let mut app = App::new(String::new(), "");
    assert!(editing_form(&app).is_none());
    app.currently_editing = Some(CurrentlyEditing::Username);
    app.username_input = "jdoe".to_string();
    let boxes = editing_form(&app).unwrap();
    assert_eq!(boxes.len(), 4);
    assert_eq!(boxes[0].title, "Profile Alias (not visible in git)");
    assert_eq!(boxes[1].title, "Username");
    assert_eq!(boxes[1].text, "jdoe");
    assert_eq!(boxes[2].title, "Email");
    assert_eq!(boxes[3].title, "PA-Token");
    let active: Vec<bool> = boxes.iter().map(|b| b.active).collect();
    assert_eq!(active, vec![false, true, false, false]);
}

#[test]
fn centered_rect_on_an_odd_sized_area_leaves_the_spare_cell_after_it() {
    let popup = fixed_size_centered_rect(50, 5, area(0, 0, 81, 25));
    assert_eq!(popup, area(15, 10, 50, 5));
}

#[test]
fn clone_prompt_rows_lie_inside_the_margin() {
    let rows = gat::clone_popup_rows(area(10, 10, 50, 5));
    assert_eq!(rows.len(), 3);
    for r in &rows {
        assert_eq!(r.x, 11);
        assert_eq!(r.width, 48);
        assert!(r.y >= 11 && r.y + r.height <= 14);
    }
}
