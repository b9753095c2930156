use qol_cli::console::{Console, Effect, ViewFacts, DASHBOARD_ROWS, QUIT_CONFIRM_WINDOW_MS};
use qol_cli::dash::{Page, TraceRate};
use qol_cli::doctor::DoctorMode;
use qol_cli::draw::breadcrumb;
use qol_cli::status::{frame_accent, FrameAccent};

use qol_cli::key_bindings::{Action, KeyCode, KeyMods};

fn accent(dash: &Console, now: u64) -> FrameAccent {
    frame_accent(dash.quit_prompt_active(now), false, false, dash.armed, false)
}

const NONE: KeyMods = KeyMods { shift: false, control: false, alt: false, super_key: false, hyper: false, meta: false };
const CTRL: KeyMods = KeyMods { shift: false, control: true, alt: false, super_key: false, hyper: false, meta: false };

fn facts() -> ViewFacts {
    ViewFacts {
        plugin_rows: 0,
        emu_rows: 0,
        doctor_rows: 0,
        doctor_has_detail: false,
        page_filters: 0,
        disk_scanned: false,
        emu_warnings: false,
        logs_len: 0,
        trace_len: 0,
        emu_detail_len: 0,
        disk_len: 0,
        endpoints_len: 0,
        max_flow_lanes: 4,
    }
}

#[test]
fn diving_into_emu_requests_an_emu_poke() {
    let mut dash = Console::new();
    dash.cursor = 3;
    dash.apply_action(facts(), Action::Dive, false);
    assert!(dash.poke_emu, "emu dive marks the emu probe dirty");
    assert_eq!(dash.page, Page::Emu, "dive opened the emu view");
}

#[test]
fn dashboard_cursor_moves_and_clamps() {
    let mut dash = Console::new();
    assert_eq!(dash.cursor, 0);
    dash.apply_action(facts(), Action::ScrollUp, false);
    assert_eq!(dash.cursor, 0, "clamps at top");
    for _ in 0..10 {
        dash.apply_action(facts(), Action::ScrollDown, false);
    }
    assert_eq!(dash.cursor, DASHBOARD_ROWS - 1, "clamps at bottom");
    dash.apply_action(facts(), Action::ScrollUp, false);
    assert_eq!(dash.cursor, DASHBOARD_ROWS - 2);
}

#[test]
fn emu_row_opens_emu_view() {
    let mut dash = Console::new();
    dash.cursor = 3;
    dash.apply_action(facts(), Action::Activate, false);
    assert_eq!(dash.page, Page::Emu);
}

#[test]
fn emu_cursor_moves_and_clamps_without_scrolling() {
    let mut dash = Console::new();
    dash.page = Page::Emu;
    let f = ViewFacts { emu_rows: 2, ..facts() };
    let moves = [(Action::ScrollDown, 1), (Action::ScrollDown, 1), (Action::ScrollUp, 0), (Action::ScrollUp, 0)];
    for (action, expected) in moves {
        dash.apply_action(f, action, false);
        assert_eq!(dash.emu_cursor, expected, "after {action:?}");
        assert_eq!(dash.scroll_offset, 0, "after {action:?}");
    }
}

#[test]
fn emu_cursor_extends_into_candidate_rows_and_clamps() {
    let mut dash = Console::new();
    dash.page = Page::Emu;
    let f = ViewFacts { emu_rows: 4, ..facts() };
    let moves = [(Action::ScrollDown, 1), (Action::ScrollDown, 2), (Action::ScrollDown, 3), (Action::ScrollDown, 3)];
    for (action, expected) in moves {
        dash.apply_action(f, action, false);
        assert_eq!(dash.emu_cursor, expected, "after {action:?}");
    }
}

#[test]
fn doctor_cursor_moves_and_clamps_without_scrolling() {
    let mut dash = Console::new();
    dash.page = Page::Doctor;
    let f = ViewFacts { doctor_rows: 3, ..facts() };
    let moves = [
        (Action::ScrollDown, 1),
        (Action::ScrollDown, 2),
        (Action::ScrollDown, 2),
        (Action::ScrollUp, 1),
        (Action::ScrollUp, 0),
        (Action::ScrollUp, 0),
    ];
    for (action, expected) in moves {
        dash.apply_action(f, action, false);
        assert_eq!(dash.doctor_cursor, expected, "after {action:?}");
        assert_eq!(dash.scroll_offset, 0, "after {action:?}");
    }
}

#[test]
fn enter_opens_detail_panel_and_left_leaves_the_doctor_page() {
    let mut dash = Console::new();
    dash.page = Page::Doctor;
    let f = ViewFacts { doctor_rows: 1, doctor_has_detail: true, ..facts() };
    dash.handle_key(f, KeyCode::Enter, NONE, 0);
    assert!(dash.doctor_detail_open, "enter opens the detail panel");
    let e = dash.handle_key(f, KeyCode::Left, NONE, 0);
    assert!(!dash.doctor_detail_open, "leaving the page clears detail state");
    assert_eq!(dash.page, Page::Dashboard, "left leaves the doctor page");
    assert_eq!(e, Effect::CloseEmuDetail);
}

#[test]
fn armed_ctrl_r_requests_reload_from_dashboard() {
    let mut dash = Console::new();
    assert_eq!(dash.page, Page::Dashboard, "dashboard is the landing view");
    assert_eq!(dash.handle_key(facts(), KeyCode::Char(' '), NONE, 0), Effect::Nothing);
    assert!(dash.armed, "space arms in the dashboard");
    assert_eq!(dash.handle_key(facts(), KeyCode::Char('r'), CTRL, 0), Effect::Reload, "armed ctrl+r reloads");
    assert!(!dash.armed, "reload consumes the armed state");
}

#[test]
fn armed_ctrl_r_requests_reload_from_trace() {
    let mut dash = Console::new();
    dash.page = Page::Trace;
    assert_eq!(dash.handle_key(facts(), KeyCode::Char(' '), NONE, 0), Effect::Nothing);
    assert!(dash.armed, "space arms in the trace view");
    assert_eq!(dash.handle_key(facts(), KeyCode::Char('r'), CTRL, 0), Effect::Reload);
    assert!(!dash.armed, "reload consumes the armed state");
}

#[test]
fn unarmed_ctrl_r_rebuilds() {
    let mut dash = Console::new();
    assert_eq!(dash.handle_key(facts(), KeyCode::Char('r'), CTRL, 0), Effect::Rebuild);
}

#[test]
fn esc_disarms_without_quitting() {
    let mut dash = Console::new();
    dash.armed = true;
    assert_eq!(dash.handle_key(facts(), KeyCode::Esc, NONE, 0), Effect::Nothing);
    assert!(!dash.armed, "esc clears the armed state");
}

#[test]
fn toggle_keys_hides_and_restores_the_hud() {
    let mut dash = Console::new();
    dash.apply_action(facts(), Action::ToggleKeys, false);
    assert!(dash.keys_hidden);
    assert!(dash.state_dirty);
    dash.apply_action(facts(), Action::ToggleKeys, false);
    assert!(!dash.keys_hidden);
}

#[test]
fn ctrl_q_quits_only_on_second_press_within_the_window() {
    let mut dash = Console::new();
    assert_eq!(
        dash.handle_key(facts(), KeyCode::Char('q'), CTRL, 10_000),
        Effect::Nothing,
        "first press must open the confirmation, not quit"
    );
    assert!(dash.quit_prompt_active(10_500));
    assert_eq!(accent(&dash, 10_500), FrameAccent::Red, "confirm window turns red");
    let line = breadcrumb(dash.page, None, false, dash.quit_prompt_active(10_500), false, false, "", dash.armed);
    assert!(line.iter().any(|piece| piece.text.contains("QUIT?")), "breadcrumb must flag the pending quit");
    assert_eq!(
        dash.handle_key(facts(), KeyCode::Char('q'), CTRL, 11_000),
        Effect::Quit,
        "second press inside the window quits"
    );
}

#[test]
fn any_other_key_dismisses_the_quit_prompt() {
    let mut dash = Console::new();
    dash.handle_key(facts(), KeyCode::Char('q'), CTRL, 10_000);
    dash.handle_key(facts(), KeyCode::Down, NONE, 10_100);
    assert!(!dash.quit_prompt_active(10_200));
    assert_eq!(accent(&dash, 10_200), FrameAccent::Base);
}

#[test]
fn quit_prompt_expires_and_a_late_press_reopens_instead_of_quitting() {
    let mut dash = Console::new();
    dash.quit_prompt_at = Some(10_000);
    let later = 10_000 + QUIT_CONFIRM_WINDOW_MS;
    assert!(!dash.quit_prompt_active(later), "window must close after 3s");
    assert_eq!(accent(&dash, later), FrameAccent::Base);
    assert_eq!(dash.handle_key(facts(), KeyCode::Char('q'), CTRL, later), Effect::Nothing);
    assert_eq!(dash.quit_prompt_at, Some(later));
}

#[test]
fn rate_toggle_flips_relaxed_and_realtime_and_persists() {
    let mut dash = Console::new();
    assert_eq!(dash.trace_rate, TraceRate::Relaxed, "relaxed by default");
    dash.apply_action(facts(), Action::ToggleTraceRate, false);
    assert_eq!(dash.trace_rate, TraceRate::Realtime);
    assert!(dash.state_dirty, "rate change must persist");
    dash.apply_action(facts(), Action::ToggleTraceRate, false);
    assert_eq!(dash.trace_rate, TraceRate::Relaxed);
}

#[test]
fn edit_copy_accepts_only_digits_and_cancels() {
    let mut dash = Console::new();
    dash.copying = true;
    for code in [KeyCode::Char('4'), KeyCode::Char('x'), KeyCode::Char('2')] {
        dash.copy_key(code);
    }
    assert_eq!(dash.copy_count, "42", "non-digits are ignored");
    dash.copy_key(KeyCode::Backspace);
    assert_eq!(dash.copy_count, "4", "backspace deletes last digit");
    dash.copy_key(KeyCode::Esc);
    assert!(dash.copy_count.is_empty(), "esc clears the count");
    assert!(!dash.copying, "esc exits copy mode");
}

#[test]
fn enter_copies_the_typed_count_of_newest_lines() {
    let mut dash = Console::new();
    dash.page = Page::Trace;
    assert_eq!(dash.handle_key(facts(), KeyCode::Char('c'), NONE, 0), Effect::Nothing);
    assert!(dash.copying);
    dash.handle_key(facts(), KeyCode::Char('1'), NONE, 0);
    dash.handle_key(facts(), KeyCode::Char('2'), NONE, 0);
    assert_eq!(dash.handle_key(facts(), KeyCode::Enter, NONE, 0), Effect::CopyLines(12));
    assert!(!dash.copying);
    dash.copying = true;
    dash.handle_key(facts(), KeyCode::Char('0'), NONE, 0);
    assert_eq!(dash.handle_key(facts(), KeyCode::Enter, NONE, 0), Effect::Nothing, "zero lines copies nothing");
}

#[test]
fn dashboard_rows_dispatch_their_work() {
    let mut dash = Console::new();
    dash.cursor = 4;
    assert_eq!(dash.apply_action(facts(), Action::Activate, false), Effect::StartDoctor(DoctorMode::Check));
    assert_eq!(dash.apply_action(facts(), Action::Activate, true), Effect::StartDoctor(DoctorMode::Fix));
    dash.cursor = 5;
    assert_eq!(dash.apply_action(facts(), Action::Dive, false), Effect::ScanDisk);
    assert_eq!(dash.page, Page::Disk);
}

#[test]
fn scroll_stays_within_the_page_lines() {
    let mut dash = Console::new();
    dash.page = Page::Logs;
    dash.log_height = 10;
    let f = ViewFacts { logs_len: 25, ..facts() };
    dash.apply_action(f, Action::PageUp, false);
    dash.apply_action(f, Action::PageUp, false);
    assert_eq!(dash.scroll_offset, 15);
    dash.apply_action(f, Action::Follow, false);
    assert_eq!(dash.scroll_offset, 0);
}

#[test]
fn flow_lanes_stay_between_one_and_the_limit() {
    let mut dash = Console::new();
    dash.page = Page::Emu;
    dash.apply_action(facts(), Action::DecreaseSandboxFlowLanes, false);
    assert_eq!(dash.sandbox_flow_lanes, 1);
    for _ in 0..10 {
        dash.apply_action(facts(), Action::IncreaseSandboxFlowLanes, false);
    }
    assert_eq!(dash.sandbox_flow_lanes, 4);
}

#[test]
fn panels_take_keys_until_closed() {
    let mut dash = Console::new();
    dash.armed = true;
    assert_eq!(dash.handle_key(facts(), KeyCode::Char('f'), CTRL, 0), Effect::FeatureFlagsOpened);
    assert!(!dash.armed, "opening the feature flags drops the arm");
    assert_eq!(dash.handle_key(facts(), KeyCode::Down, NONE, 0), Effect::FeatureFlagsKey);
    assert_eq!(dash.handle_key(facts(), KeyCode::Char('w'), CTRL, 0), Effect::WorktreesOpened);
    assert!(!dash.feature_panel_open);
    assert_eq!(dash.handle_key(facts(), KeyCode::Char('w'), CTRL, 0), Effect::Nothing);
    assert!(!dash.worktree_panel_open);
}
