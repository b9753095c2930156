use qol_cli::dash::{Health, Page};
use qol_cli::draw::breadcrumb;
use qol_cli::reload::WorktreeSelection;
use qol_cli::worktrees_panel::{pinned_label, worktree_diverged};
use qol_cli::dev_server::WorkspacePlugin;
use qol_cli::draw::{resolve_tone, Piece, Tone, DEFAULT_ACCENT};
use qol_cli::status::{
    frame_accent, plugins_status, sign_accent, tray_status, web_status, FrameAccent, LinksState, RebuildState,
};

fn span_text(pieces: &[Piece]) -> String {
    pieces.iter().map(|p| p.text.as_str()).collect()
}

fn workspace_plugin(name: &str, linked: bool, needs_rebuild: bool) -> WorkspacePlugin {
    WorkspacePlugin {
        id: name.to_string(),
        name: name.to_string(),
        version: if linked { "1.0.0" } else { "" }.to_string(),
        path: format!("/ws/{name}"),
        linked,
        needs_rebuild,
        rebuild_reason: if needs_rebuild { "Source changed" } else { "" }.to_string(),
    }
}

#[test]
fn plugins_status_counts_only_linked_among_workspace_plugins() {
    let fresh = workspace_plugin("foo", true, false);
    let stale = workspace_plugin("bar", true, true);
    let linkable = workspace_plugin("baz", false, false);
    let cases = [
        (LinksState::Live(vec![fresh.clone(), stale.clone(), linkable.clone()]), Tone::Yellow, "2 linked · 1 stale"),
        (LinksState::Live(vec![fresh.clone(), linkable.clone()]), Tone::Green, "1 linked"),
        (LinksState::Unknown, Tone::Green, "3 linked"),
        (LinksState::Unreachable, Tone::Yellow, "3 linked · api down"),
    ];
    for (links, expected_tone, expected_text) in cases {
        let (tone, pieces) = plugins_status(&RebuildState::Idle, 3, &links, 0);
        assert_eq!(resolve_tone(tone, DEFAULT_ACCENT), expected_tone, "text: {expected_text}");
        assert_eq!(span_text(&pieces), expected_text);
    }
}

#[test]
fn plugins_status_appends_reload_failure() {
    let (tone, pieces) = plugins_status(&RebuildState::Failed("boom".to_string()), 3, &LinksState::Unknown, 0);
    assert_eq!(tone, Tone::Red, "failed reload turns the row red");
    assert!(span_text(&pieces).contains("reload failed · boom"), "spans: {}", span_text(&pieces));
}

#[test]
fn requests_are_acknowledged_for_a_while() {
    let (_, pieces) = plugins_status(&RebuildState::Requested(1_000), 0, &LinksState::Unknown, 6_999);
    assert!(span_text(&pieces).ends_with(" · reload sent"));
    let (_, pieces) = plugins_status(&RebuildState::Requested(1_000), 0, &LinksState::Unknown, 7_000);
    assert_eq!(span_text(&pieces), "0 linked");
    let (tone, pieces) = tray_status(Health::Up, 125, &RebuildState::Requested(0), 10);
    assert_eq!(tone, Tone::Accent);
    assert_eq!(span_text(&pieces), "running · up 2m05s · api ✓ · rebuild sent");
    let (tone, pieces) = tray_status(Health::Down, 3_700, &RebuildState::Failed("no api".to_string()), 10);
    assert_eq!(tone, Tone::Red);
    assert_eq!(span_text(&pieces), "down · up 1h01m · rebuild failed · no api");
}

#[test]
fn web_status_names_the_local_port() {
    assert_eq!(span_text(&web_status(Health::Up, 8787).1), "up · localhost:8787");
    assert_eq!(web_status(Health::Checking, 8787).0, Tone::Yellow);
    assert_eq!(span_text(&web_status(Health::Down, 8787).1), "down");
}

#[test]
fn quit_prompt_outranks_every_other_accent_state() {
    assert_eq!(frame_accent(true, true, true, true, true), FrameAccent::Red);
    assert_eq!(sign_accent(true, false, true, true, false), FrameAccent::Red);
}

#[test]
fn frame_accent_does_not_latch_the_previous_frames_accent() {
    assert_eq!(frame_accent(false, false, false, true, false), FrameAccent::Yellow);
    assert_eq!(frame_accent(false, false, false, false, false), FrameAccent::Base);
}

#[test]
fn accent_states_are_exclusive_reloading_worktree_armed() {
    let armed = true;
    let busy = false;
    let running_branch: Option<String> = None;
    let crumb = |reloading: bool, selection: &WorktreeSelection| {
        let diverged = worktree_diverged(selection, &running_branch);
        let label = pinned_label(selection, &running_branch, "main");
        span_text(&breadcrumb(Page::Dashboard, None, false, false, reloading, diverged, &label, armed))
    };

    let selection = WorktreeSelection::Follow;
    let diverged = worktree_diverged(&selection, &running_branch);
    assert_eq!(frame_accent(false, false, diverged, armed, busy), FrameAccent::Yellow);
    let text = crumb(false, &selection);
    assert!(text.contains("ARMED"), "crumb: {text}");

    let selection = WorktreeSelection::Pin(Some("feat/x".to_string()));
    let diverged = worktree_diverged(&selection, &running_branch);
    assert!(diverged);
    assert_eq!(
        frame_accent(false, false, diverged, armed, busy),
        FrameAccent::Yellow,
        "an armed worktree leaves the frame on the armed colour"
    );
    assert_eq!(
        sign_accent(false, false, diverged, armed, busy),
        FrameAccent::Orange,
        "the pending worktree shows on the sign box alone"
    );
    let text = crumb(false, &selection);
    assert!(text.contains("WORKTREE feat/x"), "crumb: {text}");
    assert!(!text.contains("ARMED"), "single flag only: {text}");

    let reloading = true;
    assert_eq!(
        frame_accent(false, reloading, diverged, armed, busy),
        FrameAccent::Orange,
        "reloading into a pending worktree holds the whole frame orange"
    );
    let text = crumb(reloading, &selection);
    assert!(text.contains("RELOADING"), "crumb: {text}");
    assert!(!text.contains("WORKTREE"), "single flag only: {text}");

    let selection = WorktreeSelection::Follow;
    let diverged = worktree_diverged(&selection, &running_branch);
    assert_eq!(
        frame_accent(false, reloading, diverged, armed, busy),
        FrameAccent::Red,
        "a reload with no pending worktree stays red"
    );
}
