use qol_cli::draw::{Piece, Tone};
use qol_cli::sandbox_list::{attention_run_line, ReportStatus, RunConcern};
use qol_cli::emu_panel::{
    bounded_followup_targets, cancel_detail, cancellation_requests, candidate_down_detail, candidate_stop_keys,
    coordinator_detail, escalation_refused_detail, final_cleanup_detail, lane_escalation_targets, lane_stop_detail,
 emu_run_line, emu_status, flow_report_path, is_regular_image, keep_emu_line,
    state_color, EmuState, EnvironmentSummary, InventorySummary, PathInspection, ReportKind, ResolutionState,
    SandboxLaunch, SandboxStopTarget,
};

fn span_text(pieces: &[Piece]) -> String {
    pieces.iter().map(|p| p.text.as_str()).collect()
}

fn image_import_stop_target(run_id: &str, report_path: &str) -> SandboxStopTarget {
    SandboxStopTarget {
        key: "linux/mint".to_string(),
        launch: SandboxLaunch::ImageImport { run_id: run_id.to_string() },
        report_path: Some(report_path.to_string()),
    }
}

#[test]
fn timed_out_image_import_receives_a_second_bounded_wait() {
    let image_import = image_import_stop_target("image-import-1", "/images/verified/imports/image-import-1/report.json");
    let candidate =
        SandboxStopTarget { key: "manual-candidate".to_string(), launch: SandboxLaunch::Candidate, report_path: None };
    let timed_out = vec!["linux/mint".to_string(), "manual-candidate".to_string()];

    let targets = bounded_followup_targets(&[image_import, candidate], &timed_out);

    assert_eq!(targets.len(), 1);
    assert!(matches!(
        targets[0].launch,
        SandboxLaunch::ImageImport { ref run_id } if run_id == "image-import-1"
    ));
}

#[test]
fn followups_skip_targets_that_did_not_time_out() {
    let flow = SandboxStopTarget {
        key: "flow/a".to_string(),
        launch: SandboxLaunch::Flow { batch_id: "b1".to_string() },
        report_path: None,
    };
    let env = SandboxStopTarget {
        key: "linux/x".to_string(),
        launch: SandboxLaunch::Environment { batch_id: "b2".to_string() },
        report_path: None,
    };
    let targets = bounded_followup_targets(&[flow, env], &vec!["linux/x".to_string()]);
    assert_eq!(targets.len(), 1);
    assert_eq!(targets[0].key, "linux/x");
    assert_eq!(targets[0].report_identity(), Some(("b2", ReportKind::EnvironmentBatch)));
}

#[test]
fn keep_emu_line_drops_noise_lines() {
    let cases = [
        ("qol emu up", false),
        ("  hint: use -v/--verbose for detailed output", false),
        ("", false),
        ("   ", false),
        ("  boot     foo · qmp 127.0.0.1:1234", true),
        ("  verdict  pass · no qol traces survive", true),
    ];
    for (line, kept) in cases {
        assert_eq!(keep_emu_line(line), kept, "line: {line:?}");
    }
}

#[test]
fn emu_run_line_pads_the_verb() {
    assert_eq!(emu_run_line("boot", "foo"), "  boot     foo");
    assert_eq!(emu_run_line("verifying", "x"), "  verifyingx");
}

#[test]
fn flow_reports_live_under_the_flow_batch() {
    assert_eq!(flow_report_path("flow-1"), vec!["flows", "flow-1", "report.json"]);

}

#[test]
fn associated_image_inspection_outcomes() {
    assert_eq!(is_regular_image("/i.qcow2", PathInspection::Found { regular_file: true }), Ok(true));
    assert_eq!(is_regular_image("/i.qcow2", PathInspection::Found { regular_file: false }), Ok(false));
    assert_eq!(is_regular_image("/i.qcow2", PathInspection::Missing), Ok(false));
    assert_eq!(
        is_regular_image("/i.qcow2", PathInspection::Failed("denied".to_string())),
        Err("failed to inspect associated image /i.qcow2: denied".to_string())
    );
}

fn env(state: ResolutionState, live: u64, attention: u64) -> EnvironmentSummary {
    EnvironmentSummary { state, live_lanes: live, attention_runs: attention }
}

fn done(envs: Vec<EnvironmentSummary>) -> EmuState {
    EmuState::Done(InventorySummary { environments: envs, unassigned_runs: 0, unassigned_attention: 0, issues: 0 })
}

#[test]
fn historical_failure_does_not_keep_the_sandbox_summary_red() {
    let (tone, pieces) = emu_status(&done(vec![env(ResolutionState::Ready, 0, 0)]));
    assert_eq!(tone, Tone::Accent);
    assert_eq!(span_text(&pieces), "1 envs · 1 ready · → open");
}

#[test]
fn unresolved_cleanup_uses_a_compact_warning_summary() {
    let line = attention_run_line("run-pass", "pass", ReportStatus::Pass, RunConcern::UnresolvedCleanup);
    let (tone, pieces) = emu_status(&done(vec![env(ResolutionState::Ready, 0, 1)]));
    assert_eq!(tone, Tone::Yellow);
    assert_eq!(span_text(&pieces), "1 flagged · → open");
    assert_eq!(span_text(&line), "  ! run-pass · cleanup unresolved · pass");
    assert_eq!(line[0].tone, Tone::Yellow);
    assert_eq!(line[2].tone, Tone::Yellow);
    assert_eq!(line[4].tone, Tone::Accent);
}

#[test]
fn a_recorded_failure_reads_red_on_its_attention_line() {
    let line = attention_run_line("run-7", "failed", ReportStatus::Failed, RunConcern::HistoricalFailure);
    assert_eq!(span_text(&line), "  ! run-7 · historical failure · failed");
    assert_eq!(line[0].tone, Tone::Red);
    assert!(line[0].bold);
    assert_eq!(line[1].tone, Tone::White);
    assert_eq!(line[2].tone, Tone::Red);
    assert_eq!(line[3].tone, Tone::DarkGray);
    assert_eq!(line[4].tone, Tone::Red);
    assert!(line[4].bold);
}

#[test]
fn active_sandbox_summary_omits_empty_attention_count() {
    let (tone, pieces) = emu_status(&done(vec![env(ResolutionState::Ready, 1, 0)]));
    assert_eq!(tone, Tone::Yellow);
    assert_eq!(span_text(&pieces), "1 active · → open");
}

#[test]
fn emu_status_covers_probe_states() {
    let (tone, pieces) = emu_status(&EmuState::Probing);
    assert_eq!((tone, span_text(&pieces).as_str()), (Tone::Yellow, "scanning · → open"));
    let (tone, pieces) = emu_status(&EmuState::Failed("bad toml".to_string()));
    assert_eq!((tone, span_text(&pieces).as_str()), (Tone::Red, "registry error · bad toml"));
    let (tone, pieces) = emu_status(&done(vec![]));
    assert_eq!((tone, span_text(&pieces).as_str()), (Tone::Yellow, "no sandboxes · → open"));
    let (tone, pieces) = emu_status(&done(vec![env(ResolutionState::Unsupported, 0, 0)]));
    assert_eq!((tone, span_text(&pieces).as_str()), (Tone::Red, "1 envs · 0 missing · 1 unsupported · → open"));
    let (tone, pieces) =
        emu_status(&done(vec![env(ResolutionState::Missing, 0, 0), env(ResolutionState::Unsupported, 0, 0)]));
    assert_eq!((tone, span_text(&pieces).as_str()), (Tone::Yellow, "2 envs · 1 missing · 1 unsupported · → open"));
    let (tone, pieces) = emu_status(&done(vec![env(ResolutionState::Ready, 2, 1), env(ResolutionState::Ready, 1, 0)]));
    assert_eq!((tone, span_text(&pieces).as_str()), (Tone::Yellow, "3 active · 1 flagged · → open"));
}

#[test]
fn state_colors() {
    assert_eq!(state_color(ResolutionState::Ready), Tone::Accent);
    assert_eq!(state_color(ResolutionState::Missing), Tone::Yellow);
    assert_eq!(state_color(ResolutionState::Unsupported), Tone::Red);
}

fn target(key: &str, launch: SandboxLaunch) -> SandboxStopTarget {
    SandboxStopTarget { key: key.to_string(), launch, report_path: None }
}

#[test]
fn stop_plan_selects_cancellations_candidates_and_lane_escalations() {
    let targets = vec![
        target("linux/a", SandboxLaunch::Environment { batch_id: "batch-1".to_string() }),
        target("manual", SandboxLaunch::Candidate),
        target("flow/x", SandboxLaunch::Flow { batch_id: "flow-1".to_string() }),
        target("linux/b", SandboxLaunch::ImageImport { run_id: "image-import-2".to_string() }),
    ];
    assert_eq!(
        cancellation_requests(&targets),
        vec![
            ("linux/a".to_string(), "batch-1".to_string()),
            ("flow/x".to_string(), "flow-1".to_string()),
            ("linux/b".to_string(), "image-import-2".to_string()),
        ]
    );
    assert_eq!(candidate_stop_keys(&targets), vec!["manual".to_string()]);
    let timed_out = vec!["linux/a".to_string(), "manual".to_string(), "linux/b".to_string()];
    let escalations = lane_escalation_targets(&targets, &timed_out);
    assert_eq!(escalations.len(), 1, "only timed-out sessions escalate to their lanes");
    assert_eq!(escalations[0].key, "linux/a");
    assert!(ReportKind::FlowFanout.is_session());
    assert!(!ReportKind::ImageImport.is_session());
}

#[test]
fn stop_lines_report_each_outcome() {
    assert_eq!(cancel_detail("r1", &Ok(())), "requested for r1");
    assert_eq!(cancel_detail("r1", &Err("gone".to_string())), "request failed for r1: gone");
    assert_eq!(candidate_down_detail("c", &Ok(())), "sent to c");
    assert_eq!(candidate_down_detail("c", &Err("busy".to_string())), "could not stop c: busy");
    assert_eq!(lane_stop_detail("lane-a", &Ok(())), "verified stop sent to lane-a");
    assert_eq!(lane_stop_detail("lane-a", &Err("x".to_string())), "lane-a stop failed: x");
    assert_eq!(escalation_refused_detail("bad report"), "lane escalation refused: bad report");
    assert_eq!(coordinator_detail(&Ok("guests exited".to_string())), "owned coordinator stopped because guests exited");
    assert_eq!(coordinator_detail(&Err("alive".to_string())), "coordinator retained: alive");
}

#[test]
fn final_cleanup_line_depends_on_report_and_timeout() {
    let manual = target("manual", SandboxLaunch::Candidate);
    let ok: Result<String, String> = Ok("/r/report.json".to_string());
    assert_eq!(final_cleanup_detail(&manual, false, &ok), None);
    assert_eq!(
        final_cleanup_detail(&manual, true, &ok).as_deref(),
        Some("coordinator remains live and was not killed without guest-exit proof")
    );
    let flow = target("flow/x", SandboxLaunch::Flow { batch_id: "f".to_string() });
    assert_eq!(final_cleanup_detail(&flow, false, &ok).as_deref(), Some("verified by /r/report.json"));
    assert_eq!(
        final_cleanup_detail(&flow, true, &Err("status running".to_string())).as_deref(),
        Some("unverified: status running; durable owner and report remain for recovery")
    );
}
