use qol_cli::ansi::strip_ansi;
use qol_cli::trace_rate::{ShapeThrottle, RELAXED_TRACE_INTERVAL_MS};

fn lines(raw: &[&str]) -> Vec<String> {
    raw.iter().map(|l| l.to_string()).collect()
}

#[test]
fn realtime_keeps_every_distinct_line() {
    let raw: Vec<String> = (0..5).map(|n| format!("[10:00:00.00{n}] AMC poll {n}")).collect();
    let mut throttle = ShapeThrottle::new();
    let kept = throttle.rate_lines(raw, true, 1_000, RELAXED_TRACE_INTERVAL_MS);
    assert_eq!(kept.len(), 5, "realtime keeps every distinct line");
}

#[test]
fn relaxed_keeps_one_line_per_distinct_shape() {
    let raw = [
        "[10:00:00.001] [alt-tab] SHOW_LIST: n=8",
        "[10:00:00.002] [launcher] LAUNCHER_OPEN: q=\"\"",
        "[10:00:00.003] [host] FOCUS: wid=44",
        "[10:00:00.004] [cli-sessions] RECON: panes=9",
    ];
    let mut throttle = ShapeThrottle::new();
    let kept = throttle.rate_lines(lines(&raw), false, 1_000, RELAXED_TRACE_INTERVAL_MS);
    assert_eq!(kept.len(), 4, "relaxed keeps one line per distinct source+tag shape");
}

#[test]
fn relaxed_throttles_same_shape_with_varying_payload() {
    let raw = [
        "[10:00:00.001] [alt-tab] CAPTURE: targets=2 total=34ms",
        "[10:00:00.002] [alt-tab] CAPTURE: targets=2 total=27ms",
        "[10:00:00.003] [alt-tab] CAPTURE: targets=2 total=31ms",
    ];
    let mut throttle = ShapeThrottle::new();
    let kept = throttle.rate_lines(lines(&raw), false, 1_000, RELAXED_TRACE_INTERVAL_MS);
    assert_eq!(kept.len(), 1, "same shape whose only difference is a changing number must throttle to one");
}

#[test]
fn relaxed_throttles_a_burst_of_identical_lines() {
    let spam = "[10:00:00.000] [alt-tab] PREVIEW_WARM_SKIP: reason=unknown_monitors wid=44";
    let mut throttle = ShapeThrottle::new();
    let kept = throttle.rate_lines(lines(&[spam, spam, spam, spam, spam]), false, 1_000, RELAXED_TRACE_INTERVAL_MS);
    assert_eq!(kept.len(), 1, "a burst of identical lines throttles to one");
}

#[test]
fn relaxed_preserves_distinct_action_between_spam() {
    let spam = "[12:36:10.081] [alt-tab] PREVIEW_WARM_SKIP: reason=unknown_monitors wid=44";
    let action = "[12:36:10.160] [launcher] SHOW_LIST: items=42 query=\"\"";
    let mut throttle = ShapeThrottle::new();
    let kept = throttle.rate_lines(lines(&[spam, spam, action, spam, spam]), false, 1_000, RELAXED_TRACE_INTERVAL_MS);
    let shown: Vec<String> = kept.iter().map(|l| strip_ansi(l)).collect();
    assert!(shown.iter().any(|l| l.contains("SHOW_LIST")), "distinct launcher action must survive; shown={shown:?}");
}

#[test]
fn a_shape_shows_again_after_the_interval() {
    let line = "[10:00:00.000] [alt-tab] CAPTURE: n=1";
    let mut throttle = ShapeThrottle::new();
    assert_eq!(throttle.rate_lines(lines(&[line]), false, 1_000, 300).len(), 1);
    assert_eq!(throttle.rate_lines(lines(&[line]), false, 1_299, 300).len(), 0);
    assert_eq!(throttle.rate_lines(lines(&[line]), false, 1_300, 300).len(), 1);
}
