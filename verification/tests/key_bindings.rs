use qol_cli::dash::Page;
use qol_cli::key_bindings::{
    action_for, context_action_bindings, context_keys, global_keys, keys_focus, preserves_arm, unique_hints, Action,
    KeyCode, KeyContext, KeyMods, KeysFocus,
};

const NONE: KeyMods = KeyMods { shift: false, control: false, alt: false, super_key: false, hyper: false, meta: false };
const CTRL: KeyMods = KeyMods { shift: false, control: true, alt: false, super_key: false, hyper: false, meta: false };
const SHIFT: KeyMods = KeyMods { shift: true, control: false, alt: false, super_key: false, hyper: false, meta: false };
const ALT: KeyMods = KeyMods { shift: false, control: false, alt: true, super_key: false, hyper: false, meta: false };

fn ctx(page: Page) -> KeyContext {
    KeyContext { page, trace_realtime: false, emu_warnings: false }
}

#[test]
fn action_for_maps_keys() {
    let dash = ctx(Page::Dashboard);
    let cases = [
        (KeyCode::Char('l'), NONE, Action::Ignore),
        (KeyCode::Char('L'), NONE, Action::Ignore),
        (KeyCode::Char('d'), NONE, Action::Doctor),
        (KeyCode::Char('D'), NONE, Action::Doctor),
        (KeyCode::Esc, NONE, Action::Back),
        (KeyCode::Left, NONE, Action::Back),
        (KeyCode::Enter, NONE, Action::Activate),
        (KeyCode::Right, NONE, Action::Dive),
        (KeyCode::Char('r'), CTRL, Action::Rebuild),
        (KeyCode::Char('f'), CTRL, Action::FeatureFlags),
        (KeyCode::Char('p'), CTRL, Action::Ignore),
        (KeyCode::Char('u'), CTRL, Action::Ignore),
        (KeyCode::Char('c'), CTRL, Action::Ignore),
        (KeyCode::Char('q'), CTRL, Action::Quit),
        (KeyCode::Char('q'), NONE, Action::Ignore),
        (KeyCode::Up, NONE, Action::ScrollUp),
        (KeyCode::Down, NONE, Action::ScrollDown),
        (KeyCode::Char('k'), CTRL, Action::ToggleKeys),
        (KeyCode::Char('k'), NONE, Action::Ignore),
        (KeyCode::Char('w'), CTRL, Action::Worktrees),
        (KeyCode::Char('w'), NONE, Action::Ignore),
        (KeyCode::Char(' '), NONE, Action::ToggleArm),
        (KeyCode::Char('r'), NONE, Action::Ignore),
        (KeyCode::Char('p'), NONE, Action::Ignore),
        (KeyCode::Char('x'), NONE, Action::Ignore),
        (KeyCode::Char('u'), NONE, Action::Ignore),
    ];
    for (code, mods, expected) in cases {
        assert_eq!(action_for(dash, false, code, mods), expected, "{code:?} {mods:?}");
    }
    let trace = ctx(Page::Trace);
    assert_eq!(action_for(trace, false, KeyCode::Char('d'), NONE), Action::ToggleTraceDetails);
    assert_eq!(action_for(trace, false, KeyCode::Char('o'), NONE), Action::OpenCurrentLogFolder);
    assert_eq!(action_for(trace, false, KeyCode::Char('e'), NONE), Action::OpenCurrentLogEditor);
    assert_eq!(action_for(trace, false, KeyCode::Char('r'), NONE), Action::OpenCurrentLogRaw);
    assert_eq!(action_for(trace, false, KeyCode::Char(' '), NONE), Action::ToggleArm);
    for (code, expected) in [
        (KeyCode::PageUp, Action::PageUp),
        (KeyCode::PageDown, Action::PageDown),
        (KeyCode::End, Action::Follow),
        (KeyCode::Char('f'), Action::Follow),
        (KeyCode::Char('/'), Action::Filter),
        (KeyCode::Char('c'), Action::Copy),
        (KeyCode::Char('C'), Action::Copy),
    ] {
        assert_eq!(action_for(trace, false, code, NONE), expected, "stream key: {code:?}");
    }
    let logs = ctx(Page::Logs);
    assert_eq!(action_for(logs, false, KeyCode::Char('d'), NONE), Action::Ignore);
    assert_eq!(action_for(logs, false, KeyCode::Char('o'), NONE), Action::OpenCurrentLogFolder);
    assert_eq!(action_for(logs, false, KeyCode::Char('e'), NONE), Action::OpenCurrentLogEditor);
}

#[test]
fn emu_keys_map_flow_lanes_and_verified_import() {
    let emu = ctx(Page::Emu);
    let cases = [
        (KeyCode::Char('o'), Action::OpenEmuDir),
        (KeyCode::Char('r'), Action::RunSandboxFlow),
        (KeyCode::Char('-'), Action::DecreaseSandboxFlowLanes),
        (KeyCode::Char('+'), Action::IncreaseSandboxFlowLanes),
        (KeyCode::Char('='), Action::IncreaseSandboxFlowLanes),
        (KeyCode::Char('a'), Action::VerifySandboxImage),
    ];
    for (code, expected) in cases {
        assert_eq!(action_for(emu, false, code, NONE), expected, "code: {code:?}");
    }
    assert_eq!(action_for(emu, false, KeyCode::Char('+'), SHIFT), Action::IncreaseSandboxFlowLanes);
    let hints = unique_hints(context_action_bindings(emu));
    assert!(hints.iter().any(|hint| hint.key == "-"));
    assert!(hints.iter().any(|hint| hint.key == "+"));
    assert!(hints.iter().any(|hint| hint.key == "a" && hint.desc == "verify image"));
    assert_eq!(action_for(emu, false, KeyCode::Char('t'), NONE), Action::Ignore);
    assert_eq!(action_for(emu, false, KeyCode::Char(' '), NONE), Action::Ignore);
}

#[test]
fn cleanup_history_detail_reuses_scroll_only_bindings() {
    let detail = KeyContext { page: Page::EmuDetail, trace_realtime: false, emu_warnings: true };
    assert_eq!(action_for(detail, false, KeyCode::Up, NONE), Action::ScrollUp);
    assert_eq!(action_for(detail, false, KeyCode::Char('/'), NONE), Action::Ignore);
    assert_eq!(action_for(detail, false, KeyCode::Char('c'), NONE), Action::Ignore);
}

#[test]
fn shift_changes_no_binding_and_other_modifiers_block_them() {
    let dash = ctx(Page::Dashboard);
    assert_eq!(action_for(dash, false, KeyCode::Up, SHIFT), Action::ScrollUp);
    assert_eq!(action_for(dash, false, KeyCode::Up, ALT), Action::Ignore);
    let ctrl_shift = KeyMods { shift: true, ..CTRL };
    assert_eq!(action_for(dash, false, KeyCode::Char('q'), ctrl_shift), Action::Quit);
}

#[test]
fn global_shortcuts_work_on_every_page() {
    for page in [
        Page::Dashboard,
        Page::Logs,
        Page::Doctor,
        Page::Disk,
        Page::Plugins,
        Page::Emu,
        Page::EmuDetail,
        Page::Trace,
        Page::Endpoints,
    ] {
        for armed in [false, true] {
            let c = ctx(page);
            assert_eq!(action_for(c, armed, KeyCode::Char('r'), CTRL), Action::Rebuild, "{page:?}");
            assert_eq!(action_for(c, armed, KeyCode::Char('k'), CTRL), Action::ToggleKeys, "{page:?}");
            assert_eq!(action_for(c, armed, KeyCode::Char('w'), CTRL), Action::Worktrees, "{page:?}");
            assert_eq!(action_for(c, armed, KeyCode::Char('f'), CTRL), Action::FeatureFlags, "{page:?}");
            assert_eq!(action_for(c, armed, KeyCode::Char('q'), CTRL), Action::Quit, "{page:?}");
        }
    }
}

#[test]
fn navigation_preserves_the_arm() {
    assert!(preserves_arm(Action::ScrollDown));
    assert!(preserves_arm(Action::Back));
    assert!(!preserves_arm(Action::Activate));
    assert!(!preserves_arm(Action::Rebuild));
}

#[test]
fn hints_are_unique_by_key_and_globals_are_listed() {
    let hints = unique_hints(context_action_bindings(ctx(Page::Dashboard)));
    let mut keys: Vec<&str> = hints.iter().map(|h| h.key).collect();
    let n = keys.len();
    keys.sort();
    keys.dedup();
    assert_eq!(keys.len(), n);
    assert!(!global_keys(false).is_empty());
}

#[test]
fn keys_focus_follows_open_panels() {
    let filter = qol_cli::filters::FilterState::Closed;
    assert_eq!(keys_focus(true, false, false, &filter), KeysFocus::Copying);
    assert_eq!(keys_focus(false, false, false, &filter), KeysFocus::Page);
    assert_eq!(keys_focus(false, false, false, &qol_cli::filters::FilterState::Managing), KeysFocus::FilterManaging);

    assert!(!context_keys(keys_focus(false, false, false, &filter), ctx(Page::Dashboard)).is_empty());
}
