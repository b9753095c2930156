use qol_cli::dash::Page;
use qol_cli::dev_server::{PluginDaemonStatus, WorkspacePlugin};
use qol_cli::draw::{
    breadcrumb, caret, daemon_status_span, filterable_view, filters_visible, keys_rows, page_description, plugin_row_line,
    Piece, Tone,
};
use qol_cli::key_bindings::{context_keys, global_keys, KeyContext, KeysFocus};

fn span_text(pieces: &[Piece]) -> String {
    pieces.iter().map(|p| p.text.as_str()).collect()
}

fn workspace_plugin(name: &str, linked: bool, needs_rebuild: bool) -> WorkspacePlugin {
    WorkspacePlugin {
        id: name.to_string(),
        name: name.to_string(),
        version: if linked { "1.0.0" } else { "" }.to_string(),
        path: format!("/ws/{name}"),
        linked,
        needs_rebuild,
        rebuild_reason: if needs_rebuild { "Source changed" } else { "" }.to_string(),
    }
}

fn ctx(page: Page) -> KeyContext {
    KeyContext { page, trace_realtime: false, emu_warnings: false }
}

fn rows_for(page: Page) -> Vec<String> {
    keys_rows(&global_keys(false), &context_keys(KeysFocus::Page, ctx(page)))
        .into_iter()
        .map(|line| span_text(&line))
        .collect()
}

#[test]
fn plugin_row_line_marks_linked_and_linkable_states() {
    let cases =
        [(workspace_plugin("a", true, false), "● a v1.0.0 · linked"), (workspace_plugin("b", false, false), "○ b · linkable")];
    for (row, expected) in cases {
        let text = span_text(&plugin_row_line(&row, None, false));
        assert!(text.contains(expected), "row line must show {expected:?}, got {text:?}");
    }
}

#[test]
fn plugin_row_line_renders_daemon_status_dimension() {
    let row = workspace_plugin("a", true, false);
    let cases = [
        (None, ""),
        (Some(PluginDaemonStatus::NotExpected), ""),
        (Some(PluginDaemonStatus::AutostartBlocked), "idle (on-demand)"),
        (Some(PluginDaemonStatus::OnDemand { pid: 1 }), "running (on-demand)"),
        (Some(PluginDaemonStatus::Stable { pid: 1 }), "running"),
        (Some(PluginDaemonStatus::Probation { pid: 1, consecutive_failures: 0 }), "starting"),
        (Some(PluginDaemonStatus::Down { consecutive_failures: 1, suppressed: false }), "dead"),
        (Some(PluginDaemonStatus::Down { consecutive_failures: 5, suppressed: true }), "crash-looped"),
    ];
    for (status, expected) in cases {
        let text = span_text(&plugin_row_line(&row, status, false));
        if expected.is_empty() {
            assert!(text.ends_with("· linked"), "no daemon suffix for {status:?}, got {text:?}");
        } else {
            assert!(text.contains(expected), "{status:?} renders {expected}, got: {text}");
        }
    }
}

#[test]
fn plugin_row_line_carets_the_selected_row() {
    let row = workspace_plugin("a", true, false);
    let selected = span_text(&plugin_row_line(&row, None, true));
    let unselected = span_text(&plugin_row_line(&row, None, false));
    assert!(selected.starts_with("▸"), "selected row gets a caret: {selected:?}");
    assert!(!unselected.starts_with("▸"), "unselected row has no caret: {unselected:?}");
}

#[test]
fn daemon_status_span_is_absent_without_a_daemon() {
    assert!(daemon_status_span(None).is_none());
    assert!(daemon_status_span(Some(PluginDaemonStatus::NotExpected)).is_none());
    assert!(daemon_status_span(Some(PluginDaemonStatus::Stable { pid: 3 })).is_some());
    assert_eq!(caret(true).text, "▸ ");
    assert_eq!(caret(false).text, "  ");
}

#[test]
fn keys_rows_space_sections() {
    let rows = rows_for(Page::Dashboard);
    assert_eq!(rows[0], " global");
    assert_eq!(rows[1], "");
    assert_eq!(rows[2], " ctrl+r    rebuild tray+plugins ");
    assert_eq!(rows[3], " ctrl+k    keys ");
    assert_eq!(rows[4], " ctrl+w    worktrees ");
    assert_eq!(rows[5], " ctrl+f    feature flags ");
    assert_eq!(rows[6], " ctrl+q    quit (press twice) ");
    assert_eq!(rows[7], "");
    assert_eq!(rows[8], "");
    assert_eq!(rows[9], " context");
    assert_eq!(rows[10], "");
    assert_eq!(rows[11], " ↑/↓       move ");
}

#[test]
fn trace_keys_include_detail_toggle_not_doctor() {
    let text = rows_for(Page::Trace).join("\n");
    assert!(text.contains(" d         details "), "missing trace detail key");
    assert!(text.contains(" o         open folder "), "missing open folder key");
    assert!(text.contains(" e         open in editor "), "missing editor open key");
    assert!(text.contains(" r         open raw "), "missing raw open key");
    assert!(text.contains(" space     arm: reload "), "missing reload arm key");
    assert!(!text.contains("arm: raw"), "trace context must not show the legacy raw arm key");
    assert!(!text.contains("refresh checks"), "trace context must not show doctor binding");
}

#[test]
fn listed_pages_carry_descriptions_and_only_log_pages_filter() {
    for page in [Page::Endpoints, Page::Plugins, Page::Doctor, Page::Emu] {
        assert!(page_description(page).is_some(), "{page:?}");
    }
    assert!(filterable_view(Page::Logs));
    assert!(filterable_view(Page::Trace));
    assert!(!filterable_view(Page::Dashboard));
    assert!(!filterable_view(Page::Doctor));
}

#[test]
fn every_view_shows_its_page_as_a_breadcrumb_on_the_qol_dev_sign() {
    let cases = [
        (Page::Endpoints, "qol dev · endpoints"),
        (Page::Plugins, "qol dev · plugins"),
        (Page::Doctor, "qol dev · doctor"),
        (Page::Emu, "qol dev · sandboxes"),
    ];
    for (view, crumb) in cases {
        let line = breadcrumb(view, None, false, false, false, false, "", false);
        assert_eq!(span_text(&line), crumb);
        assert_eq!(line.last().unwrap().tone, Tone::Accent, "{crumb}: the page is the accented segment");
        assert!(line.last().unwrap().bold);
        assert_eq!(line[0].tone, Tone::DarkGray);
        assert!(page_description(view).is_some(), "{crumb}: listed views carry a description");
    }
}

#[test]
fn filterable_log_views_mark_saved_filters_in_the_breadcrumb() {
    for view in [Page::Logs, Page::Trace, Page::EmuDetail] {
        let filtered = filters_visible(view, false, 1);
        let detail = if view == Page::EmuDetail { Some("foo") } else { None };
        let text = span_text(&breadcrumb(view, detail, filtered, false, false, false, "", false));
        assert!(text.contains("FILTERED"), "filterable view should mark active filters: {text}");
    }
}

#[test]
fn non_filtering_views_do_not_mark_filters_in_the_breadcrumb() {
    let logs = filters_visible(Page::Logs, false, 0);
    assert!(!span_text(&breadcrumb(Page::Logs, None, logs, false, false, false, "", false)).contains("FILTERED"));

    let dashboard = filters_visible(Page::Dashboard, false, 1);
    assert!(!span_text(&breadcrumb(Page::Dashboard, None, dashboard, false, false, false, "", false))
        .contains("FILTERED"));
}

#[test]
fn breadcrumb_names_the_sandbox_and_ends_with_the_strongest_state() {
    let detail = breadcrumb(Page::EmuDetail, Some("linux/mint"), false, false, false, false, "", true);
    assert_eq!(span_text(&detail), "qol dev · emu · linux/mint · ARMED");
    assert_eq!(detail[2].tone, Tone::DarkGray);
    assert_eq!(detail[4].tone, Tone::Accent);

    let home = breadcrumb(Page::Dashboard, None, false, true, true, true, "feature", true);
    assert_eq!(span_text(&home), "qol dev · QUIT?");
    assert_eq!(home[0].tone, Tone::Accent);
    assert_eq!(home[1].tone, Tone::Red);

    let reloading = breadcrumb(Page::Logs, None, false, false, true, true, "feature", false);
    assert_eq!(span_text(&reloading), "qol dev · logs · RELOADING");
    assert_eq!(reloading.last().unwrap().tone, Tone::Orange);

    let pinned = breadcrumb(Page::Logs, None, false, false, false, true, "feature", true);
    assert_eq!(span_text(&pinned), "qol dev · logs · WORKTREE feature");
    assert_eq!(pinned.last().unwrap().tone, Tone::Orange);

    assert!(!filters_visible(Page::EmuDetail, true, 3), "cleanup warnings replace the filtered log");
}
