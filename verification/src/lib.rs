//! Git account tracker: profiles of git identities and access tokens, the
//! file that stores them, the commands that apply them to repositories, and
//! the decisions of the terminal interface.
mod app;
mod entry;
mod events;
mod git;
mod layout;
mod profiles;
mod text;
mod ui;

pub use app::{
    after_delete, clone_outcome, clone_plan, clone_target, clone_url_names, initial_state, inject_commands, lemma_preview_parts, lemma_toggle_cycle,
    next_field, path_pattern, preview_text, url_pattern, App, AppView, CloneError, CurrentScreen,
    CurrentlyEditing,
};
pub use entry::{entry_line, entry_views, Entry, EntryView};
pub use events::{
    cloning_step, deleting_step, editing_step, field_text, frame_ready, injecting_step,
    lemma_clone_prompt_type_then_erase, lemma_delete_confirm_removes_selected,
    lemma_delete_prompt_keys, lemma_down_then_up, lemma_inject_prompt_keys,
    lemma_form_confirm_stores, lemma_form_escape_discards, lemma_form_type_then_erase,
    lemma_frame_ready_selects, lemma_inject_confirm_uses_selected, lemma_quit_then_restart,
    lemma_release_ignored, lemma_step_keeps_selection_valid, main_step, on_screen, pop_last,
    select_down, select_up, step, with_field, Action, ActionView, Key, KeyInput, KeyPhase,
};
pub use git::{
    clone_command, clone_url, command_views, config_commands, names_repository_at, no_line_feed,
    regex_named_capture, string_views,
    GitCommand, GitCommandView,
};
pub use layout::{
    all_lengths, centered_extents, centering_fits, ends_in_range, lies_within, centered_extents_for, clone_popup_extents, clone_popup_rows,
    column_extents, edit_popup_extents, edit_popup_rows, fixed_size_centered_rect, inner_area,
    length_of, main_frame_extents, size_along, spans_across, split_columns, split_main_frame,
    start_along, total_length, Area, Axis, Extent,
};
pub use profiles::{
    char_views, entries_from_lines, lemma_profiles_round_trip, line_entry, lines_of,
    parse_profiles, serialize_profiles, split_on, storable, storable_field, strip_cr,
};
pub use ui::{
    current_navigation_text, editing_form, field_title, form_box_views, form_boxes, form_position,
    hint_text, key_hints, lemma_field_titles_distinct, lemma_next_field_box_below,
    navigation_texts, styled_views, FormBox, FormBoxView, StyledText, StyledTextView, Tone,
};
