use blackscript::editor::TextEditorState;
use blackscript::widget::{KeyIntent, TextEditorMessage};

fn chars(s: &str) -> Vec<char> {
    s.chars().collect()
}

fn state_with(lines: &[&str]) -> TextEditorState {
    let mut state = TextEditorState::default();
    for (i, text) in lines.iter().enumerate() {
        if i > 0 {
            state.handle_keyboard_event(KeyIntent::Enter);
        }
        state.handle_keyboard_event(KeyIntent::TextInput(chars(text)));
    }
    state
}

fn contents(state: &TextEditorState) -> Vec<String> {
    state.lines(usize::MAX).iter().map(|l| l.content.iter().collect()).collect()
}

#[test]
fn arrow_left_and_right_within_line() {
    let mut state = state_with(&["abc"]);
    assert_eq!(state.cursor_position(), (3, 0));
    state.handle_keyboard_event(KeyIntent::ArrowLeft);
    assert_eq!(state.cursor_position(), (2, 0));
    state.handle_keyboard_event(KeyIntent::ArrowRight);
    assert_eq!(state.cursor_position(), (3, 0));
}

#[test]
fn arrow_left_wraps_to_previous_line_end() {
    let mut state = state_with(&["ab", "cd"]);
    state.handle_keyboard_event(KeyIntent::ArrowLeft);
    state.handle_keyboard_event(KeyIntent::ArrowLeft);
    assert_eq!(state.cursor_position(), (0, 1));
    state.handle_keyboard_event(KeyIntent::ArrowLeft);
    assert_eq!(state.cursor_position(), (2, 0));
}

#[test]
fn arrow_right_wraps_to_next_line_start() {
    let mut state = state_with(&["ab", "cd"]);
    state.cursor_vpos = 0;
    state.cursor_hpos = 2;
    state.handle_keyboard_event(KeyIntent::ArrowRight);
    assert_eq!(state.cursor_position(), (0, 1));
}

#[test]
fn arrows_are_noops_at_document_edges() {
    let mut state = state_with(&["ab"]);
    state.cursor_hpos = 0;
    let msg = state.handle_keyboard_event(KeyIntent::ArrowLeft);
    assert_eq!(state.cursor_position(), (0, 0));
    assert_eq!(msg, TextEditorMessage::CursorChanged(0, 0, 0));
    state.cursor_hpos = 2;
    state.handle_keyboard_event(KeyIntent::ArrowRight);
    assert_eq!(state.cursor_position(), (2, 0));
    state.handle_keyboard_event(KeyIntent::ArrowDown);
    assert_eq!(state.cursor_position(), (2, 0));
    state.cursor_hpos = 0;
    state.handle_keyboard_event(KeyIntent::ArrowUp);
    assert_eq!(state.cursor_position(), (0, 0));
}

#[test]
fn backspace_removes_previous_char() {
    let mut state = state_with(&["abc"]);
    state.handle_keyboard_event(KeyIntent::Backspace(false));
    assert_eq!(contents(&state), vec!["ab".to_string()]);
    assert_eq!(state.cursor_position(), (2, 0));
    assert_eq!(state.char_count(), 2);
}

#[test]
fn backspace_at_line_start_joins_previous() {
    let mut state = state_with(&["ab", "cd"]);
    state.cursor_hpos = 0;
    state.handle_keyboard_event(KeyIntent::Backspace(false));
    assert_eq!(contents(&state), vec!["abcd".to_string()]);
    assert_eq!(state.cursor_position(), (2, 0));
    assert_eq!(state.line_count(), 1);
}

#[test]
fn backspace_at_document_start_is_noop() {
    let mut state = state_with(&["ab"]);
    state.cursor_hpos = 0;
    state.handle_keyboard_event(KeyIntent::Backspace(false));
    assert_eq!(contents(&state), vec!["ab".to_string()]);
    assert_eq!(state.cursor_position(), (0, 0));
}

#[test]
fn delete_removes_char_at_cursor() {
    let mut state = state_with(&["abc"]);
    state.cursor_hpos = 1;
    state.handle_keyboard_event(KeyIntent::Delete(false));
    assert_eq!(contents(&state), vec!["ac".to_string()]);
    assert_eq!(state.cursor_position(), (1, 0));
}

#[test]
fn delete_at_line_end_joins_next() {
    let mut state = state_with(&["ab", "cd"]);
    state.cursor_vpos = 0;
    state.cursor_hpos = 2;
    state.handle_keyboard_event(KeyIntent::Delete(false));
    assert_eq!(contents(&state), vec!["abcd".to_string()]);
    assert_eq!(state.cursor_position(), (2, 0));
}

#[test]
fn delete_at_document_end_is_noop() {
    let mut state = state_with(&["ab"]);
    state.handle_keyboard_event(KeyIntent::Delete(false));
    assert_eq!(contents(&state), vec!["ab".to_string()]);
}

#[test]
fn ctrl_delete_removes_word_after_cursor() {
    let mut state = state_with(&["foo   bar"]);
    state.cursor_hpos = 0;
    state.handle_keyboard_event(KeyIntent::Delete(true));
    assert_eq!(contents(&state), vec!["   bar".to_string()]);
    assert_eq!(state.cursor_position(), (0, 0));
}

#[test]
fn ctrl_delete_skips_whitespace_then_word() {
    let mut state = state_with(&["foo   bar"]);
    state.cursor_hpos = 3;
    state.handle_keyboard_event(KeyIntent::Delete(true));
    assert_eq!(contents(&state), vec!["foo".to_string()]);
    assert_eq!(state.cursor_position(), (3, 0));
}

#[test]
fn ctrl_backspace_with_single_space_keeps_it() {
    let mut state = state_with(&["foo bar"]);
    state.handle_keyboard_event(KeyIntent::Backspace(true));
    assert_eq!(contents(&state), vec!["foo ".to_string()]);
    assert_eq!(state.cursor_position(), (4, 0));
}

#[test]
fn ctrl_backspace_inside_whitespace_clears_leading_word() {
    let mut state = state_with(&["foo   "]);
    state.handle_keyboard_event(KeyIntent::Backspace(true));
    assert_eq!(contents(&state), vec!["".to_string()]);
    assert_eq!(state.cursor_position(), (0, 0));
}

#[test]
fn enter_in_middle_splits_line() {
    let mut state = state_with(&["hello world"]);
    state.cursor_hpos = 5;
    let msg = state.handle_keyboard_event(KeyIntent::Enter);
    assert_eq!(contents(&state), vec!["hello".to_string(), " world".to_string()]);
    assert_eq!(state.cursor_position(), (0, 1));
    assert_eq!(msg, TextEditorMessage::ContentChanged(0, 1, 1));
}

#[test]
fn enter_above_other_lines_reports_no_scroll() {
    let mut state = state_with(&["ab", "cd"]);
    state.cursor_vpos = 0;
    state.cursor_hpos = 0;
    let msg = state.handle_keyboard_event(KeyIntent::Enter);
    assert_eq!(msg, TextEditorMessage::ContentChanged(0, 1, 0));
    assert_eq!(state.line_count(), 3);
}

#[test]
fn arrow_up_moves_within_wrapped_line() {
    let mut state = state_with(&["hello world"]);
    state.max_chars_per_visual_line = 5;
    state.cursor_hpos = 8;
    state.handle_keyboard_event(KeyIntent::ArrowUp);
    assert_eq!(state.cursor_position(), (5, 0));
}

#[test]
fn arrow_up_moves_to_previous_line_keeping_column() {
    let mut state = state_with(&["abc", "hello"]);
    state.cursor_hpos = 2;
    let msg = state.handle_keyboard_event(KeyIntent::ArrowUp);
    assert_eq!(state.cursor_position(), (2, 0));
    assert_eq!(msg, TextEditorMessage::CursorChanged(2, 0, -1));
}

#[test]
fn arrow_up_clamps_column_to_short_line() {
    let mut state = state_with(&["ab", "hello"]);
    state.cursor_hpos = 5;
    state.handle_keyboard_event(KeyIntent::ArrowUp);
    assert_eq!(state.cursor_position(), (2, 0));
}

#[test]
fn arrow_down_moves_within_wrapped_line() {
    let mut state = state_with(&["hello world"]);
    state.max_chars_per_visual_line = 5;
    state.cursor_hpos = 2;
    state.handle_keyboard_event(KeyIntent::ArrowDown);
    assert_eq!(state.cursor_position(), (5, 0));
}

#[test]
fn arrow_down_moves_to_next_line_keeping_column() {
    let mut state = state_with(&["hello world", "xy"]);
    state.cursor_vpos = 0;
    state.cursor_hpos = 3;
    let msg = state.handle_keyboard_event(KeyIntent::ArrowDown);
    assert_eq!(state.cursor_position(), (2, 1));
    assert_eq!(msg, TextEditorMessage::CursorChanged(2, 1, 1));
}

#[test]
fn text_input_mid_line_inserts() {
    let mut state = state_with(&["held"]);
    state.cursor_hpos = 3;
    state.handle_keyboard_event(KeyIntent::TextInput(chars("LO WORL")));
    assert_eq!(contents(&state), vec!["helLO WORLd".to_string()]);
    assert_eq!(state.cursor_position(), (10, 0));
}

#[test]
fn counts_include_every_character() {
    let mut state = state_with(&[" abc"]);
    assert_eq!(state.char_count(), 4);
    assert_eq!(state.word_count(), 1);
    state.handle_keyboard_event(KeyIntent::Enter);
    state.handle_keyboard_event(KeyIntent::TextInput(chars("de")));
    assert_eq!(state.char_count(), 6);
    assert_eq!(state.word_count(), 2);
}

#[test]
fn enter_refreshes_counts() {
    let mut state = state_with(&["ab"]);
    state.cursor_hpos = 1;
    state.handle_keyboard_event(KeyIntent::Enter);
    // splitting "ab" mid-word makes two one-letter words
    assert_eq!(state.word_count(), 2);
    assert_eq!(state.char_count(), 2);
}

#[test]
fn text_joins_lines_with_newlines() {
    let state = state_with(&["ab", "", "cd"]);
    let joined: String = state.text().iter().collect();
    assert_eq!(joined, "ab\n\ncd");
    assert_eq!(state.estimate_text_capacity(), 6);
}
