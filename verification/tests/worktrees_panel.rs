use qol_cli::console::{Console, Effect, ViewFacts};
use qol_cli::dash::Page;
use qol_cli::feature_flags::FeatureFlagPanel;
use qol_cli::filters::FilterState;
use qol_cli::key_bindings::{KeyCode, KeyMods};
use qol_cli::reload::WorktreeSelection;
use qol_cli::status::{frame_accent, FrameAccent};
use qol_cli::worktrees_panel::{
    effective_target, initial_selection, pinned_label, worktree_diverged, worktree_targets, WorktreePanel,
    WorktreeTarget,
};

const NONE: KeyMods = KeyMods { shift: false, control: false, alt: false, super_key: false, hyper: false, meta: false };
const CTRL: KeyMods = KeyMods { shift: false, control: true, alt: false, super_key: false, hyper: false, meta: false };

fn facts() -> ViewFacts {
    ViewFacts {
        plugin_rows: 0,
        emu_rows: 0,
        doctor_rows: 0,
        doctor_has_detail: false,
        page_filters: 0,
        disk_scanned: false,
        emu_warnings: false,
        logs_len: 0,
        trace_len: 0,
        emu_detail_len: 0,
        disk_len: 0,
        endpoints_len: 0,
        max_flow_lanes: 4,
    }
}

fn panel(targets: Vec<WorktreeTarget>) -> WorktreePanel {
    WorktreePanel { open: true, selected: 0, layout_width: 76, targets }
}

fn base_target() -> WorktreeTarget {
    WorktreeTarget { branch: None, id: "base".to_string() }
}

fn branch_target(name: &str) -> WorktreeTarget {
    WorktreeTarget { branch: Some(name.to_string()), id: name.to_string() }
}

fn accent(console: &Console, running: &Option<String>) -> FrameAccent {
    let diverged = worktree_diverged(&console.worktree_selection, running);
    frame_accent(false, false, diverged, console.armed, false)
}

#[test]
fn worktree_panel_arms_base_without_building() {
    let mut console = Console::new();
    let mut panel = panel(vec![base_target()]);

    panel.edit(&mut console.worktree_selection, &mut console.armed, KeyCode::Enter);

    assert!(matches!(console.worktree_selection, WorktreeSelection::Pin(None)));
    assert!(console.armed, "enter arms the selected target");
    assert!(!panel.is_active(), "enter closes the panel");
}

#[test]
fn worktree_panel_closes_without_changing_target() {
    let mut console = Console::new();
    let mut panel = panel(vec![base_target()]);
    let startup = Some("feat/argv".to_string());

    panel.edit(&mut console.worktree_selection, &mut console.armed, KeyCode::Esc);

    assert!(matches!(console.worktree_selection, WorktreeSelection::Follow));
    assert_eq!(effective_target(&console.worktree_selection, &startup), Some("feat/argv".to_string()));
    assert!(!panel.is_active());
}

#[test]
fn disarming_cancels_pending_worktree_switch() {
    let mut console = Console::new();
    let running = None;
    let mut panel = panel(vec![branch_target("feat/x")]);
    panel.edit(&mut console.worktree_selection, &mut console.armed, KeyCode::Enter);
    assert!(console.armed && worktree_diverged(&console.worktree_selection, &running));

    console.handle_key(facts(), KeyCode::Char(' '), NONE, 0);

    assert!(!console.armed, "space toggles the arm off");
    assert!(!worktree_diverged(&console.worktree_selection, &running), "disarm cancels the pending switch");
    assert!(matches!(console.worktree_selection, WorktreeSelection::Follow));
    assert_eq!(accent(&console, &running), FrameAccent::Base);
}

#[test]
fn plain_arm_disarm_stays_green_when_running_branch_updates() {
    let mut console = Console::new();
    console.handle_key(facts(), KeyCode::Char(' '), NONE, 0);
    assert_eq!(accent(&console, &None), FrameAccent::Yellow);

    let running = Some("feat/x".to_string());
    console.handle_key(facts(), KeyCode::Char(' '), NONE, 0);
    assert_eq!(accent(&console, &running), FrameAccent::Base);

    assert_eq!(
        accent(&console, &None),
        FrameAccent::Base,
        "without an explicit selection the accent must follow the running branch, never diverge"
    );
}

#[test]
fn armed_reload_keeps_the_pending_worktree_target() {
    let mut console = Console::new();
    let mut panel = panel(vec![branch_target("feat/x")]);
    panel.edit(&mut console.worktree_selection, &mut console.armed, KeyCode::Enter);

    let outcome = console.handle_key(facts(), KeyCode::Char('r'), CTRL, 0);

    assert_eq!(outcome, Effect::Reload);
    assert!(
        matches!(&console.worktree_selection, WorktreeSelection::Pin(Some(branch)) if branch == "feat/x"),
        "the reload must still consume the armed target"
    );
}

#[test]
fn feature_flags_panel_reuses_picker_controls() {
    let mut console = Console::new();
    console.page = Page::Logs;
    console.handle_key(facts(), KeyCode::Char('/'), NONE, 0);
    assert!(console.filter_state.is_active());
    let opened = console.handle_key(facts(), KeyCode::Char('f'), CTRL, 0);

    assert_eq!(opened, Effect::FeatureFlagsOpened);
    assert!(console.feature_panel_open);
    assert!(matches!(console.filter_state, FilterState::Closed), "feature flags supersede filter modal");
    assert!(!console.trace_details, "details are not a feature flag");

    let mut flags = FeatureFlagPanel { open: true, selected: 0, layout_width: 76 };
    flags.edit(KeyCode::Enter);
    assert!(!console.trace_details, "renderer flag must not toggle details");
    flags.edit(KeyCode::Char(' '));
    flags.edit(KeyCode::Right);
    assert_eq!(flags.selected, 0, "no flag to move to");
    flags.edit(KeyCode::Esc);
    assert!(!flags.is_active(), "esc closes feature panel");
}

#[test]
fn worktree_panel_opens_on_the_aimed_target_and_moves_over_bricks() {
    let targets = vec![base_target(), branch_target("feat/a"), branch_target("feat/b")];
    assert_eq!(initial_selection(&targets, &Some("feat/b".to_string())), 2);
    assert_eq!(initial_selection(&targets, &None), 0);
    assert_eq!(initial_selection(&targets, &Some("gone".to_string())), 0);

    let mut panel = WorktreePanel { open: false, selected: 9, layout_width: 76, targets: vec![] };
    panel.open_over(targets, &Some("feat/a".to_string()));
    assert!(panel.open);
    assert_eq!(panel.selected, 1);

    let mut selection = WorktreeSelection::Follow;
    let mut armed = false;
    panel.edit(&mut selection, &mut armed, KeyCode::Right);
    assert_eq!(panel.selected, 2);
    panel.edit(&mut selection, &mut armed, KeyCode::Right);
    assert_eq!(panel.selected, 0, "right wraps to the first brick");
    panel.edit(&mut selection, &mut armed, KeyCode::Char('x'));
    assert!(panel.open && !armed);

    let pinned = WorktreeSelection::Pin(Some("feat/a".to_string()));
    assert_eq!(pinned_label(&pinned, &None, "main"), "feat/a");
    assert_eq!(pinned_label(&WorktreeSelection::Follow, &None, "main"), "main");
    assert!(!worktree_diverged(&pinned, &Some("feat/a".to_string())));
    assert!(worktree_diverged(&WorktreeSelection::Pin(None), &Some("feat/a".to_string())));
}

#[test]
fn worktree_targets_put_base_first_then_each_branch_once_in_order() {
    let branches: Vec<String> = ["feat/b", "feat/a", "feat/b", "chore"].iter().map(|s| s.to_string()).collect();
    let targets = worktree_targets("main", &branches);
    assert_eq!(
        targets,
        vec![
            WorktreeTarget { branch: None, id: "main".to_string() },
            branch_target("chore"),
            branch_target("feat/a"),
            branch_target("feat/b"),
        ]
    );
    assert_eq!(worktree_targets("main", &vec![]), vec![base_target_named("main")]);
}

fn base_target_named(label: &str) -> WorktreeTarget {
    WorktreeTarget { branch: None, id: label.to_string() }
}
