use blackscript::editor::TextEditorState;
use blackscript::widget::KeyIntent;

fn chars(s: &str) -> Vec<char> {
    s.chars().collect()
}

#[test]
fn viewport_size_derives_wrap_width() {
    let mut state = TextEditorState::default();
    assert_eq!(state.max_chars_per_visual_line, 120);
    state.set_viewport_size(680, 4000);
    assert_eq!(state.viewport_width, 680);
    assert_eq!(state.viewport_height, 4000);
    assert_eq!(state.max_chars_per_visual_line, 5);
}

#[test]
fn tiny_viewport_keeps_one_char_per_line() {
    let mut state = TextEditorState::default();
    state.set_viewport_size(150, 1000);
    assert_eq!(state.max_chars_per_visual_line, 1);
    state.set_viewport_size(0, 1000);
    assert_eq!(state.max_chars_per_visual_line, 1);
}

#[test]
fn scroll_by_clamps_at_top() {
    let mut state = TextEditorState::default();
    state.scroll_by(-500);
    assert_eq!(state.scroll_offset_y, 500);
    state.scroll_by(300);
    assert_eq!(state.scroll_offset_y, 200);
    state.scroll_by(1000);
    assert_eq!(state.scroll_offset_y, 0);
}

#[test]
fn scroll_by_lines_steps_by_line_height() {
    let mut state = TextEditorState::default();
    assert_eq!(state.line_height, 200);
    state.scroll_by_lines(-2);
    assert_eq!(state.scroll_offset_y, 400);
    state.scroll_by_lines(1);
    assert_eq!(state.scroll_offset_y, 200);
    state.scroll_by_lines(5);
    assert_eq!(state.scroll_offset_y, 0);
}

#[test]
fn cursor_move_scrolls_wrapped_row_into_view() {
    let mut state = TextEditorState::default();
    state.handle_keyboard_event(KeyIntent::TextInput(chars("hello world")));
    state.set_viewport_size(680, 300);
    assert_eq!(state.max_chars_per_visual_line, 5);
    state.handle_keyboard_event(KeyIntent::ArrowLeft);
    assert_eq!(state.cursor_position(), (10, 0));
    assert_eq!(state.scroll_offset_y, 300);
}

#[test]
fn click_maps_pixels_to_cursor() {
    let mut state = TextEditorState::default();
    state.handle_keyboard_event(KeyIntent::TextInput(chars("hello world")));
    state.set_viewport_size(680, 4000);
    state.scroll_by(100000);
    assert_eq!(state.scroll_offset_y, 0);
    state.handle_click(196, 0);
    assert_eq!(state.cursor_position(), (1, 0));
}

#[test]
fn click_on_wrapped_row_offsets_by_row() {
    let mut state = TextEditorState::default();
    state.handle_keyboard_event(KeyIntent::TextInput(chars("hello world")));
    state.set_viewport_size(680, 4000);
    state.scroll_by(100000);
    assert_eq!(state.scroll_offset_y, 0);
    state.handle_click(100, 250);
    assert_eq!(state.cursor_position(), (5, 0));
}

#[test]
fn click_below_content_lands_on_last_row() {
    let mut state = TextEditorState::default();
    state.handle_keyboard_event(KeyIntent::TextInput(chars("hello world")));
    state.set_viewport_size(680, 4000);
    state.scroll_by(100000);
    assert_eq!(state.scroll_offset_y, 0);
    // far below the text: the last visual row ("world", starting at 6)
    state.handle_click(100, 2000);
    assert_eq!(state.cursor_position(), (6, 0));
    assert!(state.cursor_visible);
}

#[test]
fn click_walks_greedy_wrap_chunks() {
    let mut state = TextEditorState::default();
    state.handle_keyboard_event(KeyIntent::TextInput(chars("hello world")));
    state.set_viewport_size(680, 4000);
    state.scroll_by(100000);
    // rows under width 5 are "hello", " ", "world"; row 2 column 2 is
    // offset 6 + 2, not a multiple of the wrap width
    state.handle_click(292, 450);
    assert_eq!(state.cursor_position(), (8, 0));
}

#[test]
fn click_counts_one_row_for_an_empty_line() {
    let mut state = TextEditorState::default();
    state.handle_keyboard_event(KeyIntent::Enter);
    state.handle_keyboard_event(KeyIntent::TextInput(chars("ab")));
    state.set_viewport_size(680, 4000);
    state.scroll_by(100000);
    state.handle_click(100, 0);
    assert_eq!(state.cursor_position(), (0, 0));
    state.handle_click(100, 250);
    assert_eq!(state.cursor_position(), (0, 1));
}

#[test]
fn reveal_uses_document_global_row() {
    let mut state = TextEditorState::default();
    state.handle_keyboard_event(KeyIntent::TextInput(chars("a")));
    state.handle_keyboard_event(KeyIntent::Enter);
    state.handle_keyboard_event(KeyIntent::TextInput(chars("b")));
    state.set_viewport_size(6400, 200);
    state.scroll_by(100000);
    state.scroll_by(-1000);
    assert_eq!(state.scroll_offset_y, 1000);
    // the cursor sits on line 1, global visual row 1: revealing it scrolls
    // up to row 1 (200 tenths), not to the top of the document
    state.handle_keyboard_event(KeyIntent::ArrowLeft);
    assert_eq!(state.cursor_position(), (0, 1));
    assert_eq!(state.scroll_offset_y, 200);
}

#[test]
fn get_visual_line_offset_sums_lines_above() {
    let mut state = TextEditorState::default();
    state.handle_keyboard_event(KeyIntent::TextInput(chars("hello world")));
    state.handle_keyboard_event(KeyIntent::Enter);
    state.handle_keyboard_event(KeyIntent::TextInput(chars("xy")));
    state.max_chars_per_visual_line = 5;
    assert_eq!(state.get_visual_line_offset(0), 0);
    assert_eq!(state.get_visual_line_offset(1), 3);
    assert_eq!(state.get_visual_line_offset(2), 4);
    assert_eq!(state.visual_line_count(), 4);
}

#[test]
fn cursor_visual_position_follows_wrap() {
    let mut state = TextEditorState::default();
    state.handle_keyboard_event(KeyIntent::TextInput(chars("hello world")));
    state.max_chars_per_visual_line = 5;
    state.cursor_hpos = 8;
    assert_eq!(state.cursor_visual_position(), (2, 2));
    state.cursor_hpos = 3;
    assert_eq!(state.cursor_visual_position(), (0, 3));
    assert_eq!(state.scroll_offset(), state.scroll_offset_y);
}

#[test]
fn line_accessor_returns_copy() {
    let mut state = TextEditorState::default();
    state.handle_keyboard_event(KeyIntent::TextInput(chars("ab")));
    let line = state.line(0);
    assert_eq!(line.content, chars("ab"));
    let none = state.lines(0);
    assert!(none.is_empty());
}
