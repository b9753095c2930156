use qol_cli::dev_shutdown::TrackedDaemonPid;
use qol_cli::handoff::{HandoffAction, HandoffEvent, HandoffPhase, HandoffState, RepairOutcome};

fn daemon(plugin: &str, pid: u32) -> TrackedDaemonPid {
    TrackedDaemonPid { plugin_id: plugin.to_string(), pid, executable: None }
}

fn shown(p: &str, d: &str) -> Option<(String, String)> {
    Some((p.to_string(), d.to_string()))
}

#[test]
fn a_handoff_walks_every_step_to_the_active_successor() {
    let (mut state, action, logs, phase) =
        HandoffState::start(vec![daemon("notes", 41)], Some("[qol dev] target: base".to_string()));
    assert!(matches!(action, HandoffAction::Stage));
    assert_eq!(
        logs,
        [
            "[qol dev] starting successor generation",
            "[qol dev] predecessor daemons tracked for handoff: notes=41",
            "[qol dev] target: base",
        ]
    );
    assert_eq!(phase, shown("stage", "tray executable"));

    let (action, logs, phase) = state.step(HandoffEvent::Staged(Ok(())));
    assert!(matches!(action, HandoffAction::StartSuccessor));
    assert!(logs.is_empty());
    assert_eq!(phase, shown("start", "successor generation"));

    let (action, _, phase) = state.step(HandoffEvent::Started(Ok(())));
    match action {
        HandoffAction::HandOff(daemons) => assert_eq!(daemons.iter().map(|d| d.pid).collect::<Vec<_>>(), [41]),
        _ => panic!("the daemons are handed off next"),
    }
    assert_eq!(phase, shown("handoff", "plugin daemons"));

    let (action, logs, phase) = state.step(HandoffEvent::HandedOff(Vec::new()));
    assert!(matches!(action, HandoffAction::RetirePrevious));
    assert_eq!(logs, ["[qol dev] predecessor daemons handed off for reload"]);
    assert_eq!(phase, shown("stop", "previous generation"));

    let (action, _, phase) = state.step(HandoffEvent::Retired(Ok(())));
    assert!(matches!(action, HandoffAction::WaitPredecessors(ref d) if d.len() == 1));
    assert_eq!(phase, shown("wait", "previous daemons"));

    let (action, _, phase) = state.step(HandoffEvent::PredecessorsGone(Ok(())));
    assert!(matches!(action, HandoffAction::Promote));
    assert_eq!(phase, shown("promote", "successor generation"));

    let (action, _, phase) = state.step(HandoffEvent::Promoted(Ok(())));
    assert!(matches!(action, HandoffAction::AdoptAndPrune));
    assert_eq!(phase, shown("cleanup", "runtime generations"));

    let (action, logs, phase) = state.step(HandoffEvent::Pruned(Err("busy".to_string())));
    assert!(matches!(action, HandoffAction::RepairAutostart));
    assert_eq!(logs, ["[qol dev] runtime prune failed: busy"]);
    assert_eq!(phase, shown("repair", "autostart target"));

    let (action, logs, phase) = state.step(HandoffEvent::Repaired(RepairOutcome::Failed("  no target \n".to_string())));
    assert!(matches!(action, HandoffAction::Finished(Ok(()))));
    assert_eq!(logs, ["[qol dev] autostart repair failed: no target", "[qol dev] successor generation active"]);
    assert_eq!(phase, None);
    assert_eq!(state.phase, HandoffPhase::Done);
}

#[test]
fn a_failed_staging_ends_the_handoff_with_its_reason() {
    let (mut state, _, logs, _) = HandoffState::start(Vec::new(), None);
    assert_eq!(logs, ["[qol dev] starting successor generation"]);
    let (action, logs, phase) = state.step(HandoffEvent::Staged(Err("disk full".to_string())));
    assert!(matches!(action, HandoffAction::Finished(Err(ref e)) if e == "tray runtime staging failed: disk full"));
    assert!(logs.is_empty());
    assert_eq!(phase, None);
}

#[test]
fn a_tray_that_cannot_be_retired_has_the_successor_terminated() {
    let (mut state, _, _, _) = HandoffState::start(Vec::new(), None);
    state.step(HandoffEvent::Staged(Ok(())));
    state.step(HandoffEvent::Started(Ok(())));
    let (_, logs, _) = state.step(HandoffEvent::HandedOff(vec![daemon("notes", 7)]));
    assert_eq!(logs, ["[qol dev] predecessor daemons did not hand off: notes=7"]);
    let (action, _, _) = state.step(HandoffEvent::Retired(Err("tray did not stop".to_string())));
    assert!(matches!(action, HandoffAction::TerminateSuccessor));
    let (action, _, _) = state.step(HandoffEvent::Terminated);
    assert!(matches!(action, HandoffAction::Finished(Err(ref e)) if e == "tray did not stop"));
}

#[test]
fn a_failed_promotion_is_logged_and_abandons_the_successor() {
    let (mut state, _, _, _) = HandoffState::start(Vec::new(), None);
    state.step(HandoffEvent::Staged(Ok(())));
    state.step(HandoffEvent::Started(Ok(())));
    state.step(HandoffEvent::HandedOff(Vec::new()));
    state.step(HandoffEvent::Retired(Ok(())));
    state.step(HandoffEvent::PredecessorsGone(Ok(())));
    let (action, logs, _) = state.step(HandoffEvent::Promoted(Err("port busy".to_string())));
    assert!(matches!(action, HandoffAction::AbandonSuccessor));
    assert_eq!(logs, ["[qol dev] successor promotion failed: port busy"]);
    let (action, _, _) = state.step(HandoffEvent::Abandoned);
    assert!(matches!(action, HandoffAction::Finished(Err(ref e)) if e == "port busy"));
}
