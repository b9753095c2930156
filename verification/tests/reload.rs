use std::collections::VecDeque;
use std::path::PathBuf;

use qol_cli::dev_shutdown::TrackedDaemonPid;
use qol_cli::workspace::exe_name;

use qol_cli::dash::ReloadProgress;
use qol_cli::reload::{
    append_shadow_logs, desired_marker, drain_forwarder_tail, drain_shadow_logs,
    reload_executable_path, reload_failure_reason, reload_prebuild_args, reload_target_arg,
    shadow_crash_detail, shadow_ready_file, ReloadTargetArg, predecessor_start, predecessor_step,
    PredecessorAction, PredecessorPhase, WorktreeSelection, poll_reload, ReloadPoll,
    CRASH_TAIL,
};

const PROGRESS_PREFIX: &str = "::qol-dev-progress::";

#[test]
fn reload_failure_reason_prefers_the_first_coded_diagnostic() {
    let mut activity = ReloadProgress::new();
    for line in [
        "qol dev: prebuild output",
        "error[E0425]: cannot find value `CURRENT_TIME` in module `xproto`",
        "error[E0601]: `main` function not found",
        "error: could not compile `qol-windowing` (lib) due to 1 previous error",
        "command failed with exit status: 101",
    ] {
        activity.observe_failure(line);
    }
    assert_eq!(
        reload_failure_reason("exit status: 1", &activity),
        "error[E0425]: cannot find value `CURRENT_TIME` in module `xproto`"
    );
}

#[test]
fn reload_failure_reason_falls_back_to_the_compile_summary() {
    let mut activity = ReloadProgress::new();
    activity.observe_failure("qol dev: prebuild output");
    activity.observe_failure("error: could not compile `qol-windowing` (lib) due to 1 previous error");
    assert_eq!(
        reload_failure_reason("exit status: 1", &activity),
        "error: could not compile `qol-windowing` (lib) due to 1 previous error"
    );
}

#[test]
fn reload_failure_reason_falls_back_to_the_exit_status() {
    assert_eq!(
        reload_failure_reason("exit status: 1", &ReloadProgress::new()),
        "exit status: 1"
    );
    let mut activity = ReloadProgress::new();
    activity.observe_failure("ordinary line");
    assert_eq!(reload_failure_reason("exit status: 1", &activity), "exit status: 1");
}

#[test]
fn observe_failure_keeps_the_first_coded_error_across_polls() {
    let mut activity = ReloadProgress::new();
    activity.observe_failure("\x1b[31merror[E0425]: cannot find value `CURRENT_TIME`\x1b[0m");
    activity.observe_failure("warning: unused import");
    activity.observe_failure("error[E0601]: `main` function not found");
    activity.observe_failure("error: could not compile `qol-windowing` (lib)");
    activity.observe_failure("error: later summary");

    assert_eq!(
        activity.coded_error.as_deref(),
        Some("error[E0425]: cannot find value `CURRENT_TIME`"),
        "the first coded diagnostic drives the reason even when a later poll sees another"
    );
    assert_eq!(
        activity.summary_error.as_deref(),
        Some("error: later summary"),
        "the summary tracks the last compile-level error"
    );
}

#[test]
fn reload_activity_accepts_only_structured_worker_progress() {
    let mut activity = ReloadProgress::new();
    let cases = [
        (
            format!("{}plugins\tdev-linked plugins", PROGRESS_PREFIX),
            true,
            "plugins",
            "dev-linked plugins",
        ),
        (
            "[qol dev] ordinary worker output".to_string(),
            false,
            "plugins",
            "dev-linked plugins",
        ),
        (
            PROGRESS_PREFIX.to_string(),
            false,
            "plugins",
            "dev-linked plugins",
        ),
    ];

    for (line, observed, phase, detail) in cases {
        assert_eq!(activity.observe(PROGRESS_PREFIX, &line), observed, "line={line:?}");
        assert_eq!(activity.phase, phase);
        assert_eq!(activity.detail, detail);
    }
}

#[test]
fn desired_marker_commits_pins_and_follows_the_prior_selection() {
    let cases = [
        (WorktreeSelection::Follow, Some("feat/x"), Some("feat/x")),
        (WorktreeSelection::Follow, None, None),
        (
            WorktreeSelection::Pin(Some("feat/y".to_string())),
            Some("feat/x"),
            Some("feat/y"),
        ),
        (WorktreeSelection::Pin(None), Some("feat/x"), None),
    ];
    for (selection, prior, expected) in cases {
        assert_eq!(
            desired_marker(&selection, prior.map(str::to_string)),
            expected.map(str::to_string),
            "selection: {selection:?} prior: {prior:?}"
        );
    }
}

#[test]
fn shadow_crash_detail_includes_recent_logs() {
    let mut recent = VecDeque::new();
    append_shadow_logs(
        &mut recent,
        vec![
            "[qol dev:shadow] first".to_string(),
            "[qol dev:shadow] Error: daemon missing".to_string(),
        ],
    );

    assert_eq!(
        shadow_crash_detail(&recent),
        "\nlast shadow logs:\n[qol dev:shadow] first\n[qol dev:shadow] Error: daemon missing"
    );
}

#[test]
fn shadow_crash_tail_keeps_only_the_newest_lines() {
    let mut recent = VecDeque::new();
    let lines: Vec<String> = (0..CRASH_TAIL + 5).map(|i| format!("line {i}")).collect();
    append_shadow_logs(&mut recent, lines);
    assert_eq!(recent.len(), CRASH_TAIL);
    assert_eq!(recent.front().map(String::as_str), Some("line 5"));
    assert_eq!(recent.back().map(String::as_str), Some("line 44"));
    append_shadow_logs(&mut recent, Vec::new());
    assert_eq!(recent.len(), CRASH_TAIL, "no new line leaves the tail as it was");
    assert_eq!(shadow_crash_detail(&VecDeque::new()), "");
}

#[test]
fn shadow_lines_are_tagged_and_ready_files_named_by_generation() {
    assert_eq!(
        drain_shadow_logs(vec!["booting".to_string()]),
        vec!["[qol dev:shadow] booting".to_string()]
    );
    assert_eq!(
        shadow_ready_file("abc"),
        vec!["target", "qol-dev", "generations", "abc.json"]
    );
}

#[test]
fn forwarder_tail_moves_progress_and_keeps_other_lines() {
    let mut activity = ReloadProgress::new();
    let mut drained = vec!["earlier".to_string()];
    drain_forwarder_tail(
        vec![
            format!("{PROGRESS_PREFIX}link\tplugins"),
            "error[E0001]: boom".to_string(),
            "plain".to_string(),
        ],
        PROGRESS_PREFIX,
        &mut activity,
        &mut drained,
    );
    assert_eq!(activity.phase, "link");
    assert_eq!(activity.detail, "plugins");
    assert_eq!(activity.coded_error.as_deref(), Some("error[E0001]: boom"));
    assert_eq!(drained, ["earlier", "error[E0001]: boom", "plain"]);
}

#[test]
fn armed_reload_uses_selected_worktree_target_over_argv() {
    let args = reload_prebuild_args(true, true, ReloadTargetArg::Branch("panel-branch".to_string()), "--base");
    assert_eq!(args, ["-v", "-n", "panel-branch"]);
}

#[test]
fn armed_reload_can_explicitly_select_base_over_argv() {
    let args = reload_prebuild_args(false, false, ReloadTargetArg::Base, "--base");
    assert_eq!(args, ["--base"]);
    let follow = reload_prebuild_args(true, true, ReloadTargetArg::Passthrough, "--base");
    assert_eq!(follow, ["-v", "-n"], "follow does not forward a branch");
}

#[test]
fn reload_target_follows_the_selection() {
    assert!(matches!(reload_target_arg(&WorktreeSelection::Follow), ReloadTargetArg::Passthrough));
    assert!(matches!(reload_target_arg(&WorktreeSelection::Pin(None)), ReloadTargetArg::Base));
    assert!(matches!(
        reload_target_arg(&WorktreeSelection::Pin(Some("b".to_string()))),
        ReloadTargetArg::Branch(ref b) if b == "b"
    ));
}

#[test]
fn reload_executable_prefers_the_current_binary_when_it_still_exists() {
    let tmp = PathBuf::from("/var/tmp/qol-reload-case");
    let current = tmp.join("target/debug/qol");

    let got: PathBuf = reload_executable_path(current.to_str().unwrap(), true, tmp.to_str())
        .iter()
        .collect();

    assert_eq!(got, current);
}

#[test]
fn reload_executable_falls_back_to_installed_qol_when_current_binary_is_missing() {
    let tmp = PathBuf::from("/var/tmp/qol-reload-case");
    let current = tmp.join("target/debug/qol");
    let expected = tmp.join(".cargo").join("bin").join(exe_name("qol"));

    let got: PathBuf = reload_executable_path(current.to_str().unwrap(), false, tmp.to_str())
        .iter()
        .collect();

    assert_eq!(got, expected);
}

#[test]
fn reload_executable_falls_back_to_path_lookup_without_home() {
    let tmp = PathBuf::from("/var/tmp/qol-reload-case");
    let current = tmp.join("target/debug/qol");

    let got: PathBuf = reload_executable_path(current.to_str().unwrap(), false, None)
        .iter()
        .collect();

    assert_eq!(got, PathBuf::from(exe_name("qol")));
}

fn daemon(plugin: &str, pid: u32) -> TrackedDaemonPid {
    TrackedDaemonPid { plugin_id: plugin.to_string(), pid, executable: None }
}

#[test]
fn predecessor_daemons_are_waited_for_then_terminated_then_reported() {
    let (phase, action, lines) = predecessor_start(vec![]);
    assert_eq!(phase, PredecessorPhase::Done);
    assert!(matches!(action, PredecessorAction::Finished(Ok(()))) && lines.is_empty());

    let (phase, action, lines) = predecessor_start(vec![daemon("plugin-a", 111), daemon("plugin-z", 222)]);
    assert_eq!(phase, PredecessorPhase::FirstWait);
    assert!(matches!(&action, PredecessorAction::Wait(ds) if ds.len() == 2));
    assert_eq!(lines, ["[qol dev] waiting for predecessor daemons to exit: plugin-a=111, plugin-z=222"]);

    let (_, action, lines) = predecessor_step(PredecessorPhase::FirstWait, vec![]);
    assert!(matches!(action, PredecessorAction::Finished(Ok(()))));
    assert_eq!(lines, ["[qol dev] predecessor daemons exited cleanly"]);

    let (phase, action, lines) = predecessor_step(PredecessorPhase::FirstWait, vec![daemon("plugin-z", 222)]);
    assert_eq!(phase, PredecessorPhase::Terminating);
    assert!(matches!(&action, PredecessorAction::Terminate(ds) if ds[0].pid == 222));
    assert_eq!(lines, ["[qol dev] predecessor daemons still alive; terminating groups: plugin-z=222"]);

    let (phase, action, lines) = predecessor_step(PredecessorPhase::Terminating, vec![daemon("plugin-z", 222)]);
    assert_eq!(phase, PredecessorPhase::SecondWait);
    assert!(matches!(&action, PredecessorAction::Wait(ds) if ds.len() == 1) && lines.is_empty());

    let (_, action, lines) = predecessor_step(PredecessorPhase::SecondWait, vec![]);
    assert!(matches!(action, PredecessorAction::Finished(Ok(()))));
    assert_eq!(lines, ["[qol dev] predecessor daemon groups terminated"]);

    let (phase, action, _) = predecessor_step(PredecessorPhase::SecondWait, vec![daemon("plugin-z", 222)]);
    assert_eq!(phase, PredecessorPhase::Done);
    assert!(matches!(action, PredecessorAction::Finished(Err(e)) if e == "predecessor daemon groups did not exit: plugin-z=222"));
}

#[test]
fn successful_prebuild_keeps_elapsed_activity_for_the_handoff() {
    let mut activity = ReloadProgress::new();
    let started = activity.started;
    let (outcome, logged) = poll_reload(
        PROGRESS_PREFIX,
        &mut activity,
        vec![format!("{PROGRESS_PREFIX}build\tqol-tray")],
        Some((true, "exit status: 0".to_string(), Vec::new())),
    );
    assert!(matches!(outcome, ReloadPoll::Ready));
    assert!(logged.is_empty());
    assert_eq!(activity.phase, "handoff");
    assert_eq!(activity.detail, "successor generation");
    assert_eq!(activity.started, started);
}

#[test]
fn failed_prebuild_records_a_visible_reason_and_keeps_the_pending_target() {
    let mut activity = ReloadProgress::new();
    let (outcome, logged) = poll_reload(
        PROGRESS_PREFIX,
        &mut activity,
        vec!["error[E0425]: cannot find value `CURRENT_TIME` in module `xproto`".to_string()],
        Some((
            false,
            "exit status: 1".to_string(),
            vec!["error: could not compile `qol-windowing` (lib) due to 1 previous error".to_string()],
        )),
    );
    match outcome {
        ReloadPoll::Aborted(reason) => {
            assert!(reason.contains("error[E0425]"), "{reason}");
        }
        _ => panic!("a failed prebuild aborts the reload"),
    }
    assert!(logged.iter().any(|line| line.contains("reload aborted")), "the abort must stay in the log");
    assert_eq!(logged.last().map(String::as_str), Some("[qol dev] reload aborted: prebuild exit status: 1"));
    assert_eq!(logged.len(), 3);
}

#[test]
fn a_running_prebuild_stays_pending_and_logs_its_plain_lines() {
    let mut activity = ReloadProgress::new();
    let (outcome, logged) = poll_reload(
        PROGRESS_PREFIX,
        &mut activity,
        vec![format!("{PROGRESS_PREFIX}compile\tplugins"), "Compiling qol-tray".to_string()],
        None,
    );
    assert!(matches!(outcome, ReloadPoll::Pending));
    assert_eq!(logged, ["Compiling qol-tray"]);
    assert_eq!(activity.phase, "compile");
    assert_eq!(activity.detail, "plugins");
}

#[test]
fn a_failed_prebuild_without_diagnostics_gives_its_exit_status() {
    let mut activity = ReloadProgress::new();
    let (outcome, logged) =
        poll_reload(PROGRESS_PREFIX, &mut activity, Vec::new(), Some((false, "exit status: 2".to_string(), Vec::new())));
    assert!(matches!(outcome, ReloadPoll::Aborted(ref reason) if reason == "exit status: 2"));
    assert_eq!(logged, ["[qol dev] reload aborted: prebuild exit status: 2"]);
}
