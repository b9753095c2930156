use qol_cli::emu_panel::{SandboxLaunch, SandboxStopTarget};
use qol_cli::stop::{StopAction, StopEvent, StopLine, StopPhase, StopState};

fn flow_target() -> SandboxStopTarget {
    SandboxStopTarget {
        key: "linux/mint".to_string(),
        launch: SandboxLaunch::Flow { batch_id: "flow-1".to_string() },
        report_path: Some("/runs/flow-1/report.json".to_string()),
    }
}

fn candidate_target() -> SandboxStopTarget {
    SandboxStopTarget { key: "cand".to_string(), launch: SandboxLaunch::Candidate, report_path: None }
}

fn line(key: &str, verb: &str, detail: &str) -> StopLine {
    (key.to_string(), verb.to_string(), detail.to_string())
}

fn keys(targets: &[SandboxStopTarget]) -> Vec<&str> {
    targets.iter().map(|t| t.key.as_str()).collect()
}

#[test]
fn a_stop_cancels_waits_escalates_and_verifies_in_order() {
    let (mut state, first) = StopState::start(vec![flow_target(), candidate_target()]);
    assert!(matches!(&first, StopAction::Cancel(reqs) if reqs == &vec![("linux/mint".to_string(), "flow-1".to_string())]));

    let (action, lines) = state.step(StopEvent::Cancelled(vec![Ok(())]));
    assert_eq!(lines, vec![line("linux/mint", "cancel", "requested for flow-1")]);
    assert!(matches!(&action, StopAction::StopCandidates(ids) if ids == &vec!["cand".to_string()]));

    let (action, lines) = state.step(StopEvent::CandidatesStopped(vec![Err("boom".to_string())]));
    assert_eq!(lines, vec![line("cand", "down", "could not stop cand: boom")]);
    assert!(matches!(&action, StopAction::Wait(ids) if ids == &vec!["linux/mint".to_string(), "cand".to_string()]));

    let (action, lines) = state.step(StopEvent::Waited(vec!["linux/mint".to_string(), "cand".to_string()]));
    assert!(lines.is_empty());
    match &action {
        StopAction::StopLanes(sessions) => assert_eq!(keys(sessions), vec!["linux/mint"]),
        _ => panic!("timed-out sessions have their lanes stopped"),
    }

    let lanes = vec![("lane-a".to_string(), Ok(())), ("lane-b".to_string(), Err("gone".to_string()))];
    let (action, lines) = state.step(StopEvent::LanesStopped(vec![("linux/mint".to_string(), Ok(lanes))]));
    assert_eq!(
        lines,
        vec![
            line("linux/mint", "cleanup", "verified stop sent to lane-a"),
            line("linux/mint", "cleanup", "lane-b stop failed: gone"),
        ]
    );
    assert!(matches!(&action, StopAction::Wait(ids) if ids == &vec!["linux/mint".to_string()]));

    let (action, _) = state.step(StopEvent::Waited(vec![]));
    assert!(matches!(&action, StopAction::StopCoordinators(ids) if ids.len() == 2));

    let (action, lines) =
        state.step(StopEvent::CoordinatorsStopped(vec![("linux/mint".to_string(), Ok("guest exit proven".to_string()))]));
    assert_eq!(lines, vec![line("linux/mint", "coordinator", "owned coordinator stopped because guest exit proven")]);
    match &action {
        StopAction::Verify(reported) => assert_eq!(keys(reported), vec!["linux/mint"]),
        _ => panic!("reported runs are verified"),
    }

    let (action, lines) = state.step(StopEvent::Verified(vec![Ok("/runs/flow-1/report.json".to_string())]));
    assert_eq!(
        lines,
        vec![
            line("linux/mint", "cleanup", "verified by /runs/flow-1/report.json"),
            line("cand", "cleanup", "coordinator remains live and was not killed without guest-exit proof"),
        ]
    );
    assert!(matches!(action, StopAction::Finished));
    assert_eq!(state.phase, StopPhase::Done);
}

#[test]
fn quick_exits_skip_the_escalations_and_refusals_are_logged() {
    let (mut state, _) = StopState::start(vec![flow_target()]);
    let (action, _) = state.step(StopEvent::Cancelled(vec![Err("no socket".to_string())]));
    assert!(matches!(&action, StopAction::Wait(ids) if ids.len() == 1), "no candidates: straight to the wait");
    let (action, _) = state.step(StopEvent::Waited(vec![]));
    assert!(matches!(&action, StopAction::StopCoordinators(_)), "nothing outlived the wait");

    let (mut refused, _) = StopState::start(vec![flow_target()]);
    refused.step(StopEvent::Cancelled(vec![Ok(())]));
    refused.step(StopEvent::Waited(vec!["linux/mint".to_string()]));
    let (_, lines) = refused.step(StopEvent::LanesStopped(vec![("linux/mint".to_string(), Err("bad report".to_string()))]));
    assert_eq!(lines, vec![line("linux/mint", "cleanup", "lane escalation refused: bad report")]);
    let (action, lines) = refused.step(StopEvent::Cancelled(vec![]));
    assert!(lines.is_empty() && matches!(action, StopAction::Finished), "an event out of turn changes nothing");
    assert_eq!(refused.phase, StopPhase::SecondWait);
}
