use qol_cli::doctor::{
    doctor_detail_text, doctor_line_style, doctor_read_error, doctor_run_of, doctor_status, doctor_view_lines,
    fix_run_of, friendly_doctor_line, humanize_check_id, manual_doctor_activity, outcome_line, quick_check_args,
    report_entries, resolve_manual_doctor_binary,
    styled_doctor_line, DoctorMode, DOCTOR_PREBUILT_ERROR, RESOLVE_DOCTOR_STEP, DoctorPanel, DoctorReport, DoctorRun, DoctorScope, Outcome, OutcomeStatus,
};
use qol_cli::draw::{resolve_tone, Piece, Tone, DEFAULT_ACCENT};
use std::time::Duration;


fn span_text(pieces: &[Piece]) -> String {
    pieces.iter().map(|p| p.text.as_str()).collect()
}

fn outcome(id: &str, status: OutcomeStatus, message: &str, fix_available: bool) -> Outcome {
    Outcome { id: id.to_string(), status, message: message.to_string(), fix_available }
}

fn make_report(ok: usize, warn: usize, error: usize, crash: usize) -> DoctorReport {
    let mut outcomes = Vec::new();
    for (label, status, count) in [
        ("ok", OutcomeStatus::Passed, ok),
        ("warn", OutcomeStatus::Warn, warn),
        ("error", OutcomeStatus::Error, error),
        ("crash", OutcomeStatus::Crash, crash),
    ] {
        outcomes.extend((0..count).map(|index| Outcome {
            id: format!("{label}_{index}"),
            status,
            message: "message".to_string(),
            fix_available: false,
        }));
    }
    DoctorReport { outcomes }
}

fn run_of(report: DoctorReport, scope: DoctorScope) -> DoctorRun {
    DoctorRun { report, lines: Vec::new(), details: Vec::new(), scope }
}

#[test]
fn humanize_check_id_titlecases_first_word_only() {
    let cases = [
        ("plugin_staleness", "Plugin staleness"),
        ("install_identity", "Install identity"),
        ("rust_formatting", "Rust formatting"),
    ];
    for (id, expected) in cases {
        assert_eq!(humanize_check_id(id), expected, "id: {id}");
    }
}

#[test]
fn humanize_check_id_keeps_empty_and_already_capital_ids() {
    assert_eq!(humanize_check_id(""), "");
    assert_eq!(humanize_check_id("Done"), "Done");
    assert_eq!(humanize_check_id("_x"), " x");
}

#[test]
fn background_doctor_uses_quick_scope() {
    assert_eq!(
        quick_check_args(),
        ["check", "--quick", "--json"],
        "the dashboard poller must not run full DevBuild checks in the background"
    );
    assert_eq!(DoctorMode::Check.full_command_args(), ["check", "--json"]);
    assert_eq!(DoctorMode::Fix.full_command_args(), ["fix", "--json"]);
}

#[test]
fn doctor_line_style_colors_by_status() {
    let cases = [
        ("[OK] x: y", Some(("✓", Tone::Green))),
        ("[WARN] x: y", Some(("▲", Tone::Yellow))),
        ("[ERR] x: y", Some(("✗", Tone::Red))),
        ("[CRASH] x: y", Some(("✗", Tone::Magenta))),
        ("Summary: ok=1", None),
    ];
    for (input, expected) in cases {
        let drawn = doctor_line_style(input).map(|(glyph, tone)| (glyph, resolve_tone(tone, DEFAULT_ACCENT)));
        assert_eq!(drawn, expected, "input: {input}");
    }

}

#[test]
fn report_lines_sort_divergences_first() {
    let report = DoctorReport {
        outcomes: vec![
            outcome("a", OutcomeStatus::Passed, "x", false),
            outcome("b", OutcomeStatus::Warn, "y", false),
            outcome("c", OutcomeStatus::Crash, "z", false),
            outcome("d", OutcomeStatus::Error, "w", false),
        ],
    };
    let (lines, details) = report_entries(&report.outcomes);
    assert_eq!(
        lines,
        vec!["[CRASH] c: z", "[ERR] d: w", "[WARN] b: y", "[OK] a: x"],
        "divergences must never hide below the ok lines"
    );
    assert_eq!(details, vec!["z", "w", "y", "x"], "details must stay aligned with their sorted rows");
}

#[test]
fn outcome_line_marks_available_fixes_and_keeps_the_first_line() {
    assert_eq!(outcome_line(&outcome("a", OutcomeStatus::Warn, "x", true)), "[WARN] a: x (fix available)");
    assert_eq!(outcome_line(&outcome("b", OutcomeStatus::Passed, "y\ndetail", false)), "[OK] b: y");
}

#[test]
fn typed_check_output_preserves_outcomes() {
    let report = DoctorReport {
        outcomes: vec![
            outcome("a", OutcomeStatus::Warn, "x", true),
            outcome("b", OutcomeStatus::Passed, "y\ndetail", false),
        ],
    };
    let run = doctor_run_of(report, DoctorScope::Full);
    assert_eq!(run.report.outcomes.len(), 2);
    assert_eq!(run.lines, vec!["[WARN] a: x (fix available)".to_string(), "[OK] b: y".to_string()]);
    assert_eq!(
        run.details,
        vec!["x".to_string(), "y\ndetail".to_string()],
        "details must keep the full multiline message"
    );
}

#[test]
fn typed_fix_output_keeps_failures_and_after_report() {
    let after = DoctorReport { outcomes: vec![outcome("a", OutcomeStatus::Warn, "x", false)] };
    let failures = vec!["a: rebuild failed\nnoise".to_string()];
    let run = fix_run_of(&failures, after, DoctorScope::Full);
    assert_eq!(
        run.lines,
        vec!["[ERR] a: rebuild failed".to_string(), "[WARN] a: x".to_string()],
        "fix failures must stay visible alongside the after block"
    );
    assert_eq!(
        run.details,
        vec!["a: rebuild failed\nnoise".to_string(), "x".to_string()],
        "failure details must keep the full text"
    );
}

#[test]
fn typed_report_counts_and_invalid_output_are_handled() {
    let report = make_report(9, 2, 1, 0);
    assert_eq!(
        (
            report.count(OutcomeStatus::Passed),
            report.count(OutcomeStatus::Warn),
            report.count(OutcomeStatus::Error),
            report.count(OutcomeStatus::Crash),
        ),
        (9, 2, 1, 0)
    );
    assert_eq!(report.divergence_count(), 3);
}

#[test]
fn doctor_read_error_appends_trimmed_stderr() {
    assert_eq!(doctor_read_error("bad json", ""), "could not read doctor report: bad json");
    assert_eq!(
        doctor_read_error("bad json", "  panicked\n"),
        "could not read doctor report: bad json: panicked"
    );
}

#[test]
fn doctor_status_covers_panel_states() {
    let now = 1_000_000_000;
    let cases = [
        (DoctorPanel { last: None, last_at_ms: None, manual: None, error: None }, Tone::Yellow, "waiting for first check"),
        (
            DoctorPanel {
                last: Some(run_of(make_report(11, 0, 0, 0), DoctorScope::Quick)),
                last_at_ms: Some(now - 15_000),
                manual: None,
                error: None,
            },
            Tone::Green,
            "all good · 11 quick checks · 15s ago",
        ),
        (
            DoctorPanel {
                last: Some(run_of(make_report(11, 0, 0, 0), DoctorScope::Full)),
                last_at_ms: Some(now - 15_000),
                manual: None,
                error: None,
            },
            Tone::Green,
            "all good · 11 checks · 15s ago",
        ),
        (
            DoctorPanel {
                last: Some(run_of(make_report(9, 2, 0, 0), DoctorScope::Quick)),
                last_at_ms: Some(now - 5_000),
                manual: None,
                error: None,
            },
            Tone::Yellow,
            "2 divergences · 2 warn · 0 err · just now",
        ),
        (
            DoctorPanel {
                last: Some(run_of(make_report(9, 2, 0, 0), DoctorScope::Full)),
                last_at_ms: Some(now - 5_000),
                manual: None,
                error: None,
            },
            Tone::Yellow,
            "2 divergences · 2 warn · 0 err · just now",
        ),
        (
            DoctorPanel {
                last: Some(run_of(make_report(11, 0, 0, 0), DoctorScope::Quick)),
                last_at_ms: Some(now - 15_000),
                manual: None,
                error: Some("boom".to_string()),
            },
            Tone::Green,
            "all good · 11 quick checks · 15s ago · probe failed",
        ),
        (
            DoctorPanel { last: None, last_at_ms: None, manual: None, error: Some(DOCTOR_PREBUILT_ERROR.to_string()) },
            Tone::Yellow,
            DOCTOR_PREBUILT_ERROR,
        ),
    ];
    for (panel, expected_tone, expected_text) in cases {
        let (tone, pieces) = doctor_status(&panel, now);
        assert_eq!(resolve_tone(tone, DEFAULT_ACCENT), expected_tone, "text: {expected_text}");

        assert_eq!(span_text(&pieces), expected_text);
    }
}

#[test]
fn doctor_status_leaves_the_running_step_to_the_activity_sign() {
    let panel = DoctorPanel { last: None, last_at_ms: None, manual: Some(DoctorMode::Fix), error: None };
    let (tone, pieces) = doctor_status(&panel, 1_000_000_000);
    assert_eq!(tone, Tone::Yellow);
    assert_eq!(span_text(&pieces), "fixing");
}

#[test]
fn manual_doctor_reports_mode_step_and_elapsed_as_an_activity() {
    let cases = [(DoctorMode::Fix, "check rust_clippy", "fixing"), (DoctorMode::Check, "", "checking")];
    for (mode, step, expected_phase) in cases {
        let activity = manual_doctor_activity(mode, step, 1_000_000_000 - 83_000, 1_000_000_000);
        assert_eq!(activity.title, "doctor");
        assert_eq!(activity.phase, expected_phase);
        assert_eq!(activity.detail, step);
        assert_eq!(activity.elapsed, Duration::from_secs(83));
    }
}

#[test]
fn friendly_doctor_line_hides_detail_for_ok_and_keeps_it_for_warn() {
    let ok = friendly_doctor_line("[OK] install_identity: marker and id are aligned (x)", false);
    assert_eq!(span_text(&ok), "  ✓ Install identity", "ok hides the detail");

    let warn = friendly_doctor_line(
        "[WARN] plugin_staleness: plugin staleness detected \u{2014} rebuild required: a, b",
        false,
    );
    assert_eq!(
        span_text(&warn),
        "  ▲ Plugin staleness - rebuild required: a, b",
        "warn humanizes the name and keeps the post-dash detail",
    );
}

#[test]
fn doctor_lines_carry_the_shared_selection_caret() {
    let cases = [
        (friendly_doctor_line("[OK] install_identity: aligned", true), "▸ ✓ Install identity"),
        (styled_doctor_line("[WARN] plugin_staleness: stale", true), "▸ ▲ plugin_staleness: stale"),
        (styled_doctor_line("Summary: ok=1", true), "▸ Summary: ok=1"),
    ];
    for (line, expected) in cases {
        assert_eq!(span_text(&line), expected);
    }
}

fn panel_with_details(details: Vec<&str>, error: Option<&str>) -> DoctorPanel {
    DoctorPanel {
        last: Some(DoctorRun {
            report: make_report(details.len(), 0, 0, 0),
            lines: details.iter().map(|d| format!("[OK] a: {d}")).collect(),
            details: details.iter().map(|d| d.to_string()).collect(),
            scope: DoctorScope::Full,
        }),
        last_at_ms: None,
        manual: None,
        error: error.map(str::to_string),
    }
}

#[test]
fn doctor_detail_text_offsets_past_the_error_row() {
    let cases = [
        (panel_with_details(vec!["x", "y"], None), 0, Some("x")),
        (panel_with_details(vec!["x", "y"], None), 1, Some("y")),
        (panel_with_details(vec!["x", "y"], None), 2, None),
        (panel_with_details(vec!["x"], Some("boom")), 0, Some("boom")),
        (panel_with_details(vec!["x"], Some("boom")), 1, Some("x")),
    ];
    for (index, (panel, cursor, expected)) in cases.into_iter().enumerate() {
        assert_eq!(doctor_detail_text(&panel, cursor).as_deref(), expected, "case: {index}");
    }
}

#[test]
fn doctor_view_lines_put_the_probe_error_first() {
    let panel = panel_with_details(vec!["x"], Some("boom"));
    assert_eq!(doctor_view_lines(&panel), vec!["[ERR] doctor: boom".to_string(), "[OK] a: x".to_string()]);
    let empty = DoctorPanel { last: None, last_at_ms: None, manual: None, error: None };
    assert!(doctor_view_lines(&empty).is_empty());
}

#[test]
fn manual_doctor_resolves_the_prebuilt_dev_binary_path() {
    let root = "/var/tmp/qol-root";
    let progress = String::new();
    let resolved: std::path::PathBuf = qol_cli::workspace::doctor_binary_path(root).iter().collect();
    assert_eq!(resolved, std::path::Path::new("/var/tmp/qol-root/target/debug/qol-tray-doctor"));
    assert_eq!(progress.as_str(), "");
    let mut progress = String::new();
    let through: std::path::PathBuf =
        resolve_manual_doctor_binary(root, true, Ok(()), &mut progress).unwrap().iter().collect();
    assert_eq!(through, resolved);
}

#[test]
fn manual_doctor_reports_when_the_prebuilt_dev_binary_is_missing() {
    let mut progress = String::new();
    let error = resolve_manual_doctor_binary("/var/tmp/qol-root", false, Ok(()), &mut progress).unwrap_err();
    assert_eq!(error, DOCTOR_PREBUILT_ERROR);
    assert_eq!(progress.as_str(), "using prebuilt doctor binary");
    assert_eq!(RESOLVE_DOCTOR_STEP, "using prebuilt doctor binary");
    let mut progress = String::from("earlier step");
    assert_eq!(
        resolve_manual_doctor_binary("/var/tmp/qol-root", true, Err("stale build".to_string()), &mut progress),
        Err("stale build".to_string())
    );
    assert_eq!(progress.as_str(), "using prebuilt doctor binary");
}
