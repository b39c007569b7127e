use blackscript::line::Line;

fn line_of(s: &str) -> Line {
    let mut line = Line::new();
    for c in s.chars() {
        let at = line.content.len();
        line.insert_char(at, c, 1, 120);
    }
    line
}

fn chars(s: &str) -> Vec<char> {
    s.chars().collect()
}

#[test]
fn new_line_is_empty_and_aligned() {
    let line = Line::new();
    assert!(line.content.is_empty());
    assert!(line.fonts.is_empty());
    assert!(line.font_sizes.is_empty());
}

#[test]
fn insert_char_shifts_right() {
    let mut line = line_of("ace");
    line.insert_char(1, 'b', 2, 140);
    assert_eq!(line.content, chars("abce"));
    assert_eq!(line.fonts, vec![1, 2, 1, 1]);
    assert_eq!(line.font_sizes, vec![120, 140, 120, 120]);
}

#[test]
fn remove_char_in_range() {
    let mut line = line_of("abc");
    assert_eq!(line.remove_char(1), Some('b'));
    assert_eq!(line.content, chars("ac"));
    assert_eq!(line.fonts.len(), 2);
    assert_eq!(line.font_sizes.len(), 2);
}

#[test]
fn remove_char_out_of_range_is_noop() {
    let mut line = line_of("abc");
    assert_eq!(line.remove_char(3), None);
    assert_eq!(line.content, chars("abc"));
}

#[test]
fn drain_chars_returns_range_and_keeps_rest() {
    let mut line = line_of("abcdef");
    let removed = line.drain_chars(2, 4);
    assert_eq!(removed, chars("cd"));
    assert_eq!(line.content, chars("abef"));
    assert_eq!(line.fonts.len(), 4);
    assert_eq!(line.font_sizes.len(), 4);
}

#[test]
fn drain_empty_range_is_noop() {
    let mut line = line_of("abc");
    let removed = line.drain_chars(1, 1);
    assert!(removed.is_empty());
    assert_eq!(line.content, chars("abc"));
}

#[test]
fn insert_then_drain_round_trips() {
    let mut line = line_of("abcdef");
    let text = chars("XYZ");
    for (i, c) in text.iter().enumerate() {
        line.insert_char(2 + i, *c, 1, 120);
    }
    assert_eq!(line.content, chars("abXYZcdef"));
    let removed = line.drain_chars(2, 2 + text.len());
    assert_eq!(removed, text);
    assert_eq!(line.content, chars("abcdef"));
}

#[test]
fn append_concatenates_content_and_styles() {
    let mut line = line_of("ab");
    let other = line_of("cd");
    line.append(&other);
    assert_eq!(line.content, chars("abcd"));
    assert_eq!(line.fonts, vec![1, 1, 1, 1]);
    assert_eq!(line.font_sizes, vec![120, 120, 120, 120]);
}

#[test]
fn ensure_styles_match_pads_with_fallback() {
    let mut line = line_of("abc");
    line.fonts.truncate(1);
    line.font_sizes.truncate(2);
    line.ensure_styles_match();
    assert_eq!(line.fonts, vec![1, 0, 0]);
    assert_eq!(line.font_sizes, vec![120, 120, 120]);
}

#[test]
fn ensure_styles_match_truncates_excess() {
    let mut line = line_of("ab");
    line.fonts.push(9);
    line.font_sizes.push(999);
    line.ensure_styles_match();
    assert_eq!(line.fonts, vec![1, 1]);
    assert_eq!(line.font_sizes, vec![120, 120]);
}

#[test]
fn split_off_at_carries_styles() {
    let mut line = Line::new();
    for (i, c) in "abcd".chars().enumerate() {
        line.insert_char(i, c, i as u32, 100 + i as u32);
    }
    let rest = line.split_off_at(1);
    assert_eq!(line.content, chars("a"));
    assert_eq!(line.fonts, vec![0]);
    assert_eq!(rest.content, chars("bcd"));
    assert_eq!(rest.fonts, vec![1, 2, 3]);
    assert_eq!(rest.font_sizes, vec![101, 102, 103]);
}

#[test]
fn font_getters() {
    let line = line_of("ab");
    assert_eq!(line.font(0), Some(1));
    assert_eq!(line.font(2), None);
    assert_eq!(line.font_size(1), Some(120));
    assert_eq!(line.font_size(5), None);
}

#[test]
fn clone_copies_everything() {
    let line = line_of("xy");
    let copy = line.clone();
    assert_eq!(copy.content, line.content);
    assert_eq!(copy.fonts, line.fonts);
    assert_eq!(copy.font_sizes, line.font_sizes);
}
