use blackscript::editor::TextEditorState;
use blackscript::widget::{KeyIntent, TextEditorMessage, TextEditorWidget};

fn chars(s: &str) -> Vec<char> {
    s.chars().collect()
}

#[test]
fn empty_document_counts() {
    let state = TextEditorState::default();
    assert_eq!(state.word_count(), 0);
    assert_eq!(state.char_count(), 0);
    assert_eq!(state.line_count(), 1);
    assert_eq!(state.cursor_position(), (0, 0));
}

#[test]
fn typing_hello_world() {
    let mut state = TextEditorState::default();
    let msg = state.handle_keyboard_event(KeyIntent::TextInput(chars("hello world")));
    assert_eq!(state.char_count(), 11);
    assert_eq!(state.word_count(), 2);
    assert_eq!(state.cursor_position(), (11, 0));
    assert_eq!(msg, TextEditorMessage::ContentChanged(11, 0, 0));
}

#[test]
fn enter_after_hello_world() {
    let mut state = TextEditorState::default();
    state.handle_keyboard_event(KeyIntent::TextInput(chars("hello world")));
    let msg = state.handle_keyboard_event(KeyIntent::Enter);
    assert_eq!(state.line_count(), 2);
    assert_eq!(state.cursor_position(), (0, 1));
    let lines = state.lines(10);
    assert_eq!(lines[0].content, chars("hello world"));
    assert!(lines[1].content.is_empty());
    assert_eq!(msg, TextEditorMessage::ContentChanged(0, 1, 1));
    // a split is a content edit: the counts are refreshed (unchanged in
    // total here)
    assert_eq!(state.char_count(), 11);
    assert_eq!(state.word_count(), 2);
}

#[test]
fn word_count_matches_words_of_joined_text() {
    let mut state = TextEditorState::default();
    state.handle_keyboard_event(KeyIntent::TextInput(chars("one two")));
    state.handle_keyboard_event(KeyIntent::Enter);
    state.handle_keyboard_event(KeyIntent::TextInput(chars("three")));
    state.handle_keyboard_event(KeyIntent::Enter);
    state.handle_keyboard_event(KeyIntent::TextInput(chars("  four ")));
    assert_eq!(state.word_count(), 4);
    assert_eq!(blackscript::text::count_words(&state.text()), 4);
}

#[test]
fn wrap_hello_world_at_width_five() {
    let mut line = blackscript::line::Line::new();
    for c in "hello world".chars() {
        let at = line.content.len();
        line.insert_char(at, c, 0, 160);
    }
    assert_eq!(blackscript::wrap::calculate_visual_lines(&line, 5), 3);
}

#[test]
fn ctrl_backspace_foo_bar() {
    let mut state = TextEditorState::default();
    state.handle_keyboard_event(KeyIntent::TextInput(chars("foo   bar")));
    assert_eq!(state.cursor_position(), (9, 0));
    state.handle_keyboard_event(KeyIntent::Backspace(true));
    assert_eq!(state.cursor_position(), (4, 0));
    let lines = state.lines(1);
    assert_eq!(lines[0].content, chars("foo "));
}

#[test]
fn widget_builder_and_queries() {
    let mut widget = TextEditorWidget::new().with_font(5).with_font_size(160);
    assert_eq!(widget.default_font(), 5);
    assert_eq!(widget.default_font_size(), 160);
    assert_eq!(widget.state.line_height, 192);
    assert_eq!(widget.state.char_width, 96);
    let msg = widget.process_keyboard_event(KeyIntent::TextInput(chars("hi")));
    assert_eq!(msg, TextEditorMessage::ContentChanged(2, 0, 0));
    assert_eq!(widget.cursor_position(), (2, 0));
    assert_eq!(widget.char_count(), 2);
    assert_eq!(widget.word_count(), 1);
    assert_eq!(widget.line_count(), 1);
    let lines = widget.lines(5);
    assert_eq!(lines.len(), 1);
    assert_eq!(lines[0].fonts, vec![5, 5]);
    assert_eq!(lines[0].font_sizes, vec![160, 160]);
}

#[test]
fn cursor_toggle_is_cosmetic() {
    let mut widget = TextEditorWidget::new();
    widget.process_keyboard_event(KeyIntent::TextInput(chars("one two")));
    let words = widget.word_count();
    let cursor = widget.cursor_position();
    widget.toggle_cursor_visibility();
    assert!(!widget.state.cursor_visible);
    assert_eq!(widget.word_count(), words);
    assert_eq!(widget.cursor_position(), cursor);
    widget.toggle_cursor_visibility();
    assert!(widget.state.cursor_visible);
}
