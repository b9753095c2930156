use qol_cli::draw::Piece;
use qol_cli::emu_panel::{EmuState, InventorySummary, ResolutionState};
use qol_cli::sandbox_list::{
    candidate_line, clamp_emu_cursor, cleanup_warning_summary_line, emu_empty_lines, emu_page_lines, environment_line,
    run_status_tone, sandbox_inventory_lines, CandidateRow, EnvironmentRow, ReportStatus, RunOverview,
};
use qol_cli::sandbox_list::{emu_detail_layout, DetailBody};

fn span_text(pieces: &[Piece]) -> String {
    pieces.iter().map(|p| p.text.as_str()).collect()
}

fn emu_candidate(id: &str) -> CandidateRow {
    CandidateRow { id: id.to_string(), assumed_arch: Some("x86_64".to_string()) }
}

fn known_emu_candidate(id: &str) -> CandidateRow {
    CandidateRow { id: id.to_string(), assumed_arch: None }
}

fn env_row(id: &str, state: ResolutionState) -> EnvironmentRow {
    EnvironmentRow {
        id: id.to_string(),
        state,
        backend: "qemu".to_string(),
        messages: vec![],
        live_lanes: 0,
        last_run: None,
        attention_runs: 0,
    }
}

fn inventory(unassigned_runs: u64, unassigned_attention: u64, issues: u64) -> InventorySummary {
    InventorySummary { environments: vec![], unassigned_runs, unassigned_attention, issues }
}

#[test]
fn candidate_line_uses_plain_ready_label() {
    let line = candidate_line(&known_emu_candidate("plain"), false, &None);
    assert_eq!(span_text(&line), "  ○ plain  ready");
}

#[test]
fn candidate_line_marks_assumed_arch() {
    let line = candidate_line(&emu_candidate("plain"), false, &None);
    assert_eq!(span_text(&line), "  ○ plain  ready · arch assumed x86_64");
}

#[test]
fn candidate_line_marks_live_run_with_log_hint() {
    let line = candidate_line(&emu_candidate("plain"), true, &Some("boot".to_string()));
    assert_eq!(span_text(&line), "▸ ○ plain  boot · → log");
}

#[test]
fn emu_empty_lines_list_config_path() {
    let lines = emu_empty_lines("~/.config/qol-tray/emu.toml");
    assert_eq!(lines.len(), 2, "lines: {lines:?}");
    assert_eq!(span_text(&lines[1]), "  config ~/.config/qol-tray/emu.toml");
}

#[test]
fn environment_line_shows_state_activity_and_flow_lanes() {
    let row = env_row("linux/mint", ResolutionState::Ready);
    assert_eq!(span_text(&environment_line(&row, false, &None, 2, 0)), "  ● linux/mint  ready · qemu");
    assert_eq!(
        span_text(&environment_line(&row, true, &Some("boot".to_string()), 1, 0)),
        "▸ ● linux/mint  ready · qemu · boot · → log · flow 1 lane"
    );
    let mut busy = row.clone();
    busy.live_lanes = 3;
    assert_eq!(
        span_text(&environment_line(&busy, true, &None, 2, 0)),
        "▸ ● linux/mint  ready · qemu · 3 active · flow 2 lanes"
    );
}

#[test]
fn last_run_surfaces_task_and_worktree_identity() {
    let mut row = env_row("linux/mint", ResolutionState::Ready);
    row.last_run = Some(RunOverview {
        status: ReportStatus::Pass,
        status_name: "pass".to_string(),
        observed_at_ms: 1_000,
        task: Some("task-7".to_string()),
        worktree: Some("/w/worktrees/feat-x".to_string()),
    });
    let text = span_text(&environment_line(&row, false, &None, 1, 16_000));
    assert_eq!(text, "  ● linux/mint  ready · qemu · pass 15s ago · task-7 @feat-x");
}

#[test]
fn clean_abandoned_run_is_presented_as_interrupted_history() {
    let mut row = env_row("linux/mint", ResolutionState::Ready);
    row.last_run = Some(RunOverview {
        status: ReportStatus::Abandoned,
        status_name: "abandoned".to_string(),
        observed_at_ms: 0,
        task: None,
        worktree: None,
    });
    let text = span_text(&environment_line(&row, false, &None, 1, 5_000));
    assert!(text.contains("interrupted just now"), "{text}");
    assert!(!text.contains("abandoned"), "{text}");
    assert_eq!(run_status_tone(ReportStatus::Abandoned), qol_cli::draw::Tone::DarkGray);
    assert_eq!(run_status_tone(ReportStatus::CleanupIncomplete), qol_cli::draw::Tone::Red);
}

#[test]
fn cleanup_warning_line_counts_warnings() {
    assert_eq!(span_text(&cleanup_warning_summary_line(1)), "    ! 1 cleanup warning · → details");
    assert_eq!(span_text(&cleanup_warning_summary_line(3)), "    ! 3 cleanup warnings · → details");
}

#[test]
fn inventory_lines_list_blocks_candidates_and_history() {
    let mut missing = env_row("linux/b", ResolutionState::Missing);
    missing.messages = vec!["image not found".to_string()];
    missing.attention_runs = 2;
    let rows = vec![env_row("linux/a", ResolutionState::Ready), missing];
    let cands = vec![known_emu_candidate("c1")];
    let (lines, selected) = sandbox_inventory_lines(
        &rows,
        &vec![None, None],
        &cands,
        &vec![None],
        &inventory(2, 0, 1),
        2,
        1,
        "cfg",
        0,
    );
    let texts: Vec<String> = lines.iter().map(|l| span_text(l)).collect();
    assert_eq!(
        texts,
        vec![
            "  ● linux/a  ready · qemu",
            "  ● linux/b  missing · qemu",
            "    image not found",
            "    ! 2 cleanup warnings · → details",
            "▸ ○ c1  ready",
            "  ○ 2 unassigned history",
            "  ! 1 inventory error",
        ]
    );
    assert_eq!(selected, Some(4));
    let (_, selected) =
        sandbox_inventory_lines(&rows, &vec![None, None], &cands, &vec![None], &inventory(0, 0, 0), 1, 1, "cfg", 0);
    assert_eq!(selected, Some(1));
}

#[test]
fn empty_inventory_lists_config_then_candidates() {
    let (lines, selected) = sandbox_inventory_lines(
        &vec![],
        &vec![],
        &vec![known_emu_candidate("c1")],
        &vec![None],
        &inventory(1, 1, 0),
        0,
        1,
        "cfg",
        0,
    );
    let texts: Vec<String> = lines.iter().map(|l| span_text(l)).collect();
    assert_eq!(
        texts,
        vec!["  no sandbox environments found", "  config cfg", "▸ ○ c1  ready", "  ! 1 unassigned warning"]
    );
    assert_eq!(selected, Some(2));
}

#[test]
fn scanning_and_failed_pages_still_list_candidates() {
    let cands = vec![known_emu_candidate("c1")];
    let (lines, selected) = emu_page_lines(&EmuState::Probing, &vec![], &vec![], &cands, &vec![None], 0, 1, "cfg", 0);
    assert_eq!(span_text(&lines[0]), "  scanning sandboxes");
    assert_eq!(selected, Some(1));
    let (lines, selected) =
        emu_page_lines(&EmuState::Failed("bad toml".to_string()), &vec![], &vec![], &cands, &vec![None], 5, 1, "cfg", 0);
    assert_eq!(span_text(&lines[0]), "  registry error bad toml");
    assert_eq!(lines.len(), 2);
    assert_eq!(selected, None);
    assert_eq!(clamp_emu_cursor(5, 3), 2);
    assert_eq!(clamp_emu_cursor(1, 3), 1);
    assert_eq!(clamp_emu_cursor(4, 0), 4);
}

#[test]
fn emu_detail_layout_puts_the_log_under_the_information() {
    let l = emu_detail_layout(20, 3, 0, false, false);
    assert_eq!((l.info_height, l.body_top, l.body_height, l.body), (5, 6, 14, DetailBody::NoLog));
    assert_eq!(emu_detail_layout(20, 3, 2, false, true).body, DetailBody::Warnings);
    assert_eq!(emu_detail_layout(20, 3, 2, true, true).body, DetailBody::LiveLog);
    assert_eq!(emu_detail_layout(20, 3, 0, false, true).body, DetailBody::Replay);
    let full = emu_detail_layout(6, 10, 0, true, false);
    assert_eq!((full.info_height, full.body), (6, DetailBody::Hidden));
}

#[test]
fn selected_environment_line_shows_configured_flow_lane_count() {
    let environment = env_row("linux/mint", ResolutionState::Ready);
    let line = environment_line(&environment, true, &None, 4, 0);

    assert_eq!(span_text(&line), "▸ ● linux/mint  ready · qemu · flow 4 lanes");
}

#[test]
fn clean_unassigned_reports_are_neutral_history() {
    let rows = vec![env_row("linux/mint", ResolutionState::Ready)];
    let (lines, _) =
        sandbox_inventory_lines(&rows, &vec![None], &vec![], &vec![], &inventory(1, 0, 0), 0, 1, "cfg", 0);
    let rendered: Vec<String> = lines.iter().map(|l| span_text(l)).collect();

    assert!(rendered.iter().any(|line| line == "  ○ 1 unassigned history"));
}

#[test]
fn sandbox_list_collapses_cleanup_history_and_keeps_selection_visible() {
    let mut first = env_row("linux/first", ResolutionState::Ready);
    first.attention_runs = 30;
    let rows = vec![first, env_row("linux/second", ResolutionState::Ready)];

    let (lines, selected) =
        sandbox_inventory_lines(&rows, &vec![None, None], &vec![], &vec![], &inventory(0, 0, 0), 0, 1, "cfg", 0);
    let rendered: Vec<String> = lines.iter().map(|l| span_text(l)).collect();

    assert_eq!(selected, Some(0));
    assert!(
        rendered.iter().any(|row| row.contains("▸ ● linux/first")),
        "the initial sandbox selection must remain visible"
    );
    assert!(
        rendered.iter().any(|row| row.contains("30 cleanup warnings · → details")),
        "cleanup history must collapse into one summary row"
    );
    assert!(!rendered.iter().any(|row| row.contains("run-pass")), "historical report ids belong in the detail view");
}
