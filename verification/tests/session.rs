use std::collections::VecDeque;

use qol_cli::dash::Page;
use qol_cli::filters::{FilterStrategy, LogFilter};
use qol_cli::session::{copy_ring, newest_lines, CopyRing};

fn log_filter(strategy: FilterStrategy, text: &str) -> LogFilter {
    LogFilter { strategy, text: text.to_string() }
}

#[test]
fn newest_lines_takes_filtered_tail_and_strips_ansi() {
    assert_eq!(copy_ring(Page::Trace), CopyRing::Trace);
    let mut ring = VecDeque::new();
    for line in ["alpha", "\u{1b}[31mbeta\u{1b}[0m", "gamma", "delta"] {
        ring.push_back(line.to_string());
    }
    assert_eq!(newest_lines(Some(&ring), &[], 2), "gamma\ndelta", "tail of N newest lines");
    let filters = vec![log_filter(FilterStrategy::Include, "a")];
    assert_eq!(
        newest_lines(Some(&ring), &filters, 2),
        "gamma\ndelta",
        "filter keeps only matching lines before taking the tail"
    );
    let filters = vec![log_filter(FilterStrategy::Include, "beta")];
    assert_eq!(newest_lines(Some(&ring), &filters, 5), "beta", "ansi codes are stripped from the copied text");
}

#[test]
fn copies_come_from_the_page_lines_or_nothing() {
    assert_eq!(copy_ring(Page::EmuDetail), CopyRing::SandboxLog);
    assert_eq!(copy_ring(Page::Doctor), CopyRing::Logs);
    assert_eq!(newest_lines(None, &[], 3), "");
    let ring: VecDeque<String> = ["a", "b", "c"].iter().map(|s| s.to_string()).collect();
    assert_eq!(newest_lines(Some(&ring), &[], 0), "");
    assert_eq!(newest_lines(Some(&ring), &[], 9), "a\nb\nc");
    let drop_b = vec![log_filter(FilterStrategy::Exclude, "b")];
    assert_eq!(newest_lines(Some(&ring), &drop_b, 9), "a\nc");
}
