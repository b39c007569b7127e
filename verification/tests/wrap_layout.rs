use blackscript::line::Line;
use blackscript::wrap::{calculate_visual_lines, find_wrap_position, logical_to_visual_position};

fn line_of(s: &str) -> Line {
    let mut line = Line::new();
    for c in s.chars() {
        let at = line.content.len();
        line.insert_char(at, c, 0, 160);
    }
    line
}

#[test]
fn empty_line_occupies_one_visual_line() {
    let line = Line::new();
    assert_eq!(calculate_visual_lines(&line, 5), 1);
    assert_eq!(calculate_visual_lines(&line, 120), 1);
}

#[test]
fn short_line_fits_in_one_visual_line() {
    let line = line_of("hello world");
    assert_eq!(calculate_visual_lines(&line, 120), 1);
    assert_eq!(find_wrap_position(&line, 0, 120), 11);
}

#[test]
fn wrap_breaks_after_whitespace() {
    let line = line_of("hello world");
    assert_eq!(find_wrap_position(&line, 0, 5), 5);
    assert_eq!(find_wrap_position(&line, 5, 5), 6);
    assert_eq!(find_wrap_position(&line, 6, 5), 11);
    assert_eq!(calculate_visual_lines(&line, 5), 3);
}

#[test]
fn wrap_hard_breaks_mid_word() {
    let line = line_of("aaaaaaa");
    assert_eq!(find_wrap_position(&line, 0, 3), 3);
    assert_eq!(find_wrap_position(&line, 3, 3), 6);
    assert_eq!(find_wrap_position(&line, 6, 3), 7);
    assert_eq!(calculate_visual_lines(&line, 3), 3);
}

#[test]
fn wrap_position_past_end_stays_at_end() {
    let line = line_of("abc");
    assert_eq!(find_wrap_position(&line, 3, 5), 3);
    assert_eq!(find_wrap_position(&line, 7, 5), 3);
}

#[test]
fn wrap_makes_progress() {
    let line = line_of("hello world, this is a wrap progress check");
    let len = line.content.len();
    for max_chars in 1..10 {
        let mut start = 0;
        while start < len {
            let next = find_wrap_position(&line, start, max_chars);
            assert!(next > start);
            start = next;
        }
        assert_eq!(start, len);
    }
}

#[test]
fn wrap_is_deterministic_on_repeated_calls() {
    let line = line_of("the quick brown fox jumps over the lazy dog");
    let first = calculate_visual_lines(&line, 7);
    for _ in 0..3 {
        assert_eq!(calculate_visual_lines(&line, 7), first);
    }
    assert_eq!(find_wrap_position(&line, 4, 7), find_wrap_position(&line, 4, 7));
}

#[test]
fn logical_to_visual_maps_rows_and_columns() {
    let line = line_of("hello world");
    assert_eq!(logical_to_visual_position(&line, 0, 5), (0, 0));
    assert_eq!(logical_to_visual_position(&line, 3, 5), (0, 3));
    assert_eq!(logical_to_visual_position(&line, 5, 5), (0, 5));
    assert_eq!(logical_to_visual_position(&line, 6, 5), (1, 1));
    assert_eq!(logical_to_visual_position(&line, 8, 5), (2, 2));
    assert_eq!(logical_to_visual_position(&line, 11, 5), (2, 5));
}

#[test]
fn logical_to_visual_on_empty_line_is_origin() {
    let line = Line::new();
    assert_eq!(logical_to_visual_position(&line, 0, 5), (0, 0));
    assert_eq!(logical_to_visual_position(&line, 3, 5), (0, 0));
}
