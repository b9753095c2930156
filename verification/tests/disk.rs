use qol_cli::disk::{
    cleanup_row, disk_scan_activity, disk_status, measured_row, optional_dir_row, target_root_rows, DiskPanel, DiskReport, DiskRow,
};
use qol_cli::draw::{Piece, Tone};
use std::time::Duration;

fn row(label: &str, bytes: Option<u64>, cleanable: bool) -> DiskRow {
    DiskRow { label: label.to_string(), detail: String::new(), bytes, cleanable }
}

#[test]
fn cleanup_row_reports_freed_bytes_and_failure_reasons() {
    let clean = cleanup_row(2 * 1024 * 1024, &vec![]);
    assert_eq!(clean.label, "cleanup · freed");
    assert_eq!(clean.bytes, Some(2 * 1024 * 1024));
    assert!(!clean.detail.contains("could not remove"));

    let reasons = vec!["worktree feat-x: /t/worktrees/main/feat-x/target (Permission denied)".to_string()];
    let partial = cleanup_row(0, &reasons);
    assert!(partial.detail.contains("Permission denied"), "failure reasons must be visible: {}", partial.detail);
    assert!(!partial.detail.contains("could not be removed"), "the bare failure count is replaced by reasons");
}

#[test]
fn cleanup_row_joins_every_failure_reason() {
    let reasons = vec!["a (x)".to_string(), "b (y)".to_string()];
    let r = cleanup_row(7, &reasons);
    assert_eq!(r.detail, "worktree targets removed · stale caches pruned · could not remove: a (x); b (y)");
    assert!(!r.cleanable);
}

#[test]
fn target_root_rows_report_missing_target_without_sizes() {
    let rows = target_root_rows("/tmp/x/does-not-exist", None);
    assert!(rows.iter().all(|row| row.bytes.is_none()));
    assert_eq!(rows[0].label, "target");
    assert_eq!(rows[0].detail, "/tmp/x/does-not-exist");
    assert_eq!(rows.len(), 4);
}

#[test]
fn target_root_rows_bucket_protected_roots_and_sum_the_rest() {
    let rows = target_root_rows("/t/target", Some((3, 5, 7, 24)));
    let cases = [
        ("target", Some(39)),
        ("target · debug", Some(3)),
        ("target · qol-dev", Some(5)),
        ("target · qol-env", Some(7)),
        ("target · other", Some(24)),
    ];
    assert_eq!(rows.len(), cases.len());
    for (label, bytes) in cases {
        let row = rows.iter().find(|row| row.label == label).unwrap_or_else(|| panic!("missing row: {label}"));
        assert_eq!(row.bytes, bytes, "label: {label}");
        assert!(!row.cleanable, "label: {label}");
    }
}

#[test]
fn measured_and_optional_rows_carry_their_location() {
    let r = measured_row("worktree · a".to_string(), "/w/a/target", Some(9), true, " (idle)");
    assert_eq!(r.detail, "/w/a/target (idle)");
    assert!(r.cleanable);
    let unknown = optional_dir_row("cargo registry", None);
    assert_eq!(unknown.detail, "location unknown");
    assert_eq!(unknown.bytes, None);
    let known = optional_dir_row("cargo registry", Some(("/h/.cargo".to_string(), Some(4))));
    assert_eq!(known.detail, "/h/.cargo");
    assert_eq!(known.bytes, Some(4));
}

#[test]
fn report_totals_read_the_target_row_and_the_cleanable_rows() {
    let report = DiskReport {
        rows: vec![
            row("target", Some(3), false),
            row("worktree · big", Some(20), true),
            row("worktree · gone", None, true),
            row("worktree · small", Some(2), true),
        ],
    };
    assert_eq!(report.target_total(), Some(3));
    assert_eq!(report.cleanable_total(), 22);
    let empty = DiskReport { rows: vec![] };
    assert_eq!(empty.target_total(), None);
    assert_eq!(empty.cleanable_total(), 0);
}

#[test]
fn panel_keeps_the_last_report_when_a_scan_fails() {
    let mut panel = DiskPanel::new();
    panel.apply_outcome(Ok(DiskReport { rows: vec![row("target", Some(1), false)] }), 10);
    assert_eq!(panel.last_at_ms, Some(10));
    panel.apply_outcome(Err("boom".to_string()), 20);
    assert_eq!(panel.error.as_deref(), Some("boom"));
    assert_eq!(panel.last_at_ms, Some(10));
    assert_eq!(panel.last.as_ref().map(|r| r.rows.len()), Some(1));
    panel.apply_outcome(Ok(DiskReport { rows: vec![] }), 30);
    assert_eq!(panel.error, None);
    assert_eq!(panel.last_at_ms, Some(30));
}

#[test]
fn live_scans_surface_as_the_disk_activity() {
    let activity = disk_scan_activity("scanning", "target", 1_000, 4_000);
    assert_eq!(activity.title, "disk");
    assert_eq!(activity.phase, "scanning");
    assert_eq!(activity.detail, "target");
    assert_eq!(activity.elapsed, Duration::from_secs(3));
}

fn span_text(pieces: &[Piece]) -> String {
    pieces.iter().map(|p| p.text.as_str()).collect()
}

#[test]
fn disk_status_covers_panel_states() {
    const GIB: u64 = 1024 * 1024 * 1024;
    let now = 1_000_000_000;
    let scanned = DiskPanel {
        last: Some(DiskReport { rows: vec![row("target", Some(3 * GIB), false)] }),
        last_at_ms: Some(now - 15_000),
        scan_phase: None,
        error: None,
    };
    let scanning = DiskPanel { scan_phase: Some("scanning".to_string()), ..DiskPanel::new() };
    let failed = DiskPanel { error: Some("boom".to_string()), ..DiskPanel::new() };
    let cleanable = DiskPanel {
        last: Some(DiskReport { rows: vec![row("target", Some(3 * GIB), false), row("worktree · big", Some(20 * GIB), true)] }),
        last_at_ms: Some(now - 15_000),
        scan_phase: None,
        error: None,
    };
    let cases = [
        (DiskPanel::new(), Tone::Accent, "enter to scan", "0 B"),
        (scanning, Tone::Yellow, "scanning", "0 B"),
        (failed, Tone::Red, "scan failed · boom", "0 B"),
        (scanned, Tone::Accent, "3.0 GiB target · 15s ago", "0 B"),
        (cleanable, Tone::Yellow, "3.0 GiB target · 20.0 GiB cleanable · 15s ago", "20.0 GiB"),
    ];
    for (panel, expected_tone, expected_text, cleanable_text) in cases {
        let (tone, pieces) = disk_status(&panel, now, Some("3.0 GiB"), cleanable_text);
        assert_eq!(tone, expected_tone, "text: {expected_text}");
        assert_eq!(span_text(&pieces), expected_text);
    }
    let bare = DiskPanel { last: Some(DiskReport { rows: vec![] }), ..DiskPanel::new() };
    assert_eq!(span_text(&disk_status(&bare, now, None, "0 B").1), "no target dir target");
}
