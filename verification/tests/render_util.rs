use std::time::Duration;

use qol_cli::draw::{Piece, Tone};
use qol_cli::render_util::{
    cursor_window_start, ellipsize_line, format_duration, list_status, relative_age, wrapped_rows, NavigationOverflow,
};

#[test]
fn cursor_window_keeps_selection_visible() {
    let cases = [
        (10, 4, 0, 0),
        (10, 4, 2, 0),
        (10, 4, 4, 1),
        (10, 4, 9, 6),
        (3, 5, 2, 0),
    ];
    for (total, height, cursor, expected) in cases {
        assert_eq!(
            cursor_window_start(total, height, cursor),
            expected,
            "total={total} height={height} cursor={cursor}"
        );
    }
}

#[test]
fn relative_age_buckets_seconds_minutes_hours_days() {
    let cases = [
        (5_000, "just now"),
        (59_000, "59s ago"),
        (60_000, "1m ago"),
        (3_599_000, "59m ago"),
        (3_600_000, "1h ago"),
        (86_399_000, "23h ago"),
        (86_400_000, "1d ago"),
        (0, "just now"),
    ];
    for (elapsed_ms, expected) in cases {
        assert_eq!(
            relative_age(1_000_000_000 + elapsed_ms, 1_000_000_000),
            expected,
            "elapsed_ms: {elapsed_ms}"
        );
    }
}

#[test]
fn relative_age_gains_a_seconds_bucket() {
    let cases = [
        (5_000, "just now"),
        (10_000, "10s ago"),
        (59_000, "59s ago"),
        (60_000, "1m ago"),
    ];
    for (elapsed_ms, expected) in cases {
        assert_eq!(
            relative_age(1_000_000_000 + elapsed_ms, 1_000_000_000),
            expected,
            "elapsed_ms: {elapsed_ms}"
        );
    }
}

#[test]
fn viewport_detects_content_above_and_below() {
    let cases = [
        (0, 7, 7, false, false),
        (0, 4, 7, false, true),
        (2, 3, 7, true, true),
        (3, 4, 7, true, false),
    ];
    for (start, height, total, above, below) in cases {
        let overflow = NavigationOverflow::from_window(start, height, total);
        assert_eq!(
            (overflow.above, overflow.below),
            (above, below),
            "start={start} height={height} total={total}"
        );
    }
}

#[test]
fn relative_age_of_a_future_stamp_is_just_now() {
    assert_eq!(relative_age(1_000, 9_000_000), "just now");
    assert_eq!(relative_age(1_000_000_000 + 2 * 86_400_000, 1_000_000_000), "2d ago");
}

#[test]
fn durations_and_list_status_read_plainly() {
    assert_eq!(format_duration(Duration::from_secs(83)), "1m23s");
    assert_eq!(list_status(42, 0), "42 lines · follow");
    assert_eq!(list_status(42, 3), "42 lines · scroll");
}

fn plain(text: &str) -> Piece {
    Piece { text: text.to_string(), tone: Tone::Plain, bold: false }
}

fn line_text(pieces: &[Piece]) -> String {
    pieces.iter().map(|p| p.text.as_str()).collect()
}

#[test]
fn ellipsize_line_truncates_by_display_cell() {
    let cases = [
        ("short", 10, "short"),
        ("exactly ten", 11, "exactly ten"),
        ("a longer message", 10, "a longer …"),
        ("日本語テスト", 5, "日本…"),
    ];
    for (input, width, expected) in cases {
        assert_eq!(line_text(&ellipsize_line(vec![plain(input)], width)), expected, "input: {input} width: {width}");
    }
}

#[test]
fn ellipsize_line_keeps_span_styles_on_the_kept_prefix() {
    let line = vec![Piece { text: "head ".to_string(), tone: Tone::Yellow, bold: false }, plain("tail overflowing")];
    let truncated = ellipsize_line(line, 10);
    assert_eq!(line_text(&truncated), "head tail…");
    assert_eq!(truncated[0].tone, Tone::Yellow);
}

#[test]
fn wrapped_rows_wrap_by_word_and_hard_break_long_words() {
    let cases = [
        ("one two three", 8, vec!["one two", "three"]),
        ("word", 10, vec!["word"]),
        ("abcdefghij", 4, vec!["abcd", "efgh", "ij"]),
        ("line1\n\nline2", 10, vec!["line1", "", "line2"]),
        ("", 10, vec![""]),
    ];
    for (input, width, expected) in cases {
        let rows = wrapped_rows(input, width);
        assert_eq!(rows, expected, "input: {input:?} width: {width}");
    }
}

#[test]
fn wrapping_and_ellipsizing_edge_widths() {
    assert!(wrapped_rows("anything", 0).is_empty());
    assert_eq!(wrapped_rows("a  b\r\n   \nc", 3), vec!["a b", "", "c"]);
    assert_eq!(wrapped_rows("日本語", 1), vec!["", "日", "本", "語"]);
    assert_eq!(line_text(&ellipsize_line(vec![plain("abc")], 0)), "abc");
    let cut = ellipsize_line(vec![plain("ab"), plain("cd"), plain("ef")], 4);
    assert_eq!(line_text(&cut), "abc…");
    assert_eq!(cut.len(), 3);
}
