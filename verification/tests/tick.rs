use qol_cli::dash::Page;
use qol_cli::tick::{handoff_outcome, session_end, SessionEnd, TurnEndFacts, tick_plan, DoctorSource, PollerChange, TickFacts};

fn facts(page: Page) -> TickFacts {
    TickFacts {
        page,
        endpoints_polling: false,
        reloading: false,
        manual_doctor: false,
        manual_doctor_done: false,
        quit_prompt_set: false,
        quit_prompt_live: false,
    }
}

#[test]
fn the_endpoints_poller_runs_only_on_the_endpoints_page() {
    assert_eq!(tick_plan(facts(Page::Endpoints)).endpoints, PollerChange::Start);
    assert_eq!(tick_plan(TickFacts { endpoints_polling: true, ..facts(Page::Endpoints) }).endpoints, PollerChange::Keep);
    assert_eq!(tick_plan(TickFacts { endpoints_polling: true, ..facts(Page::Logs) }).endpoints, PollerChange::Stop);
    assert_eq!(tick_plan(facts(Page::Logs)).endpoints, PollerChange::Keep);
}

#[test]
fn a_manual_doctor_run_wins_over_the_background_probe() {
    assert_eq!(tick_plan(facts(Page::Doctor)).doctor, DoctorSource::Probe);
    let running = TickFacts { manual_doctor: true, ..facts(Page::Doctor) };
    assert_eq!(tick_plan(running).doctor, DoctorSource::DiscardProbe);
    assert_eq!(tick_plan(TickFacts { manual_doctor_done: true, ..running }).doctor, DoctorSource::Manual);
}

#[test]
fn expired_quit_prompts_close_and_reloads_keep_plugin_health() {
    let expired = TickFacts { quit_prompt_set: true, ..facts(Page::Dashboard) };
    assert!(tick_plan(expired).clear_quit_prompt);
    assert!(!tick_plan(TickFacts { quit_prompt_live: true, ..expired }).clear_quit_prompt);
    assert!(tick_plan(facts(Page::Dashboard)).links_update_health);
    assert!(!tick_plan(TickFacts { reloading: true, ..facts(Page::Dashboard) }).links_update_health);
}

#[test]
fn a_successful_handoff_ends_the_session_before_anything_else() {
    let all = TurnEndFacts { handed_off: true, child_exited: true, quit_key: true };
    assert_eq!(session_end(all), Some(SessionEnd::SelfRestart));
    let exited = TurnEndFacts { handed_off: false, child_exited: true, quit_key: true };
    assert_eq!(session_end(exited), Some(SessionEnd::ChildExited));
    let quit = TurnEndFacts { handed_off: false, child_exited: false, quit_key: true };
    assert_eq!(session_end(quit), Some(SessionEnd::UserQuit));
    let none = TurnEndFacts { handed_off: false, child_exited: false, quit_key: false };
    assert_eq!(session_end(none), None);
}

#[test]
fn a_failed_handoff_is_logged_and_noticed() {
    assert!(matches!(handoff_outcome(Ok(())), Ok(SessionEnd::SelfRestart)));
    match handoff_outcome(Err("successor never became ready".to_string())) {
        Err(failure) => {
            assert_eq!(failure.log, "[qol dev] handoff failed: successor never became ready");
            assert_eq!(failure.notice, "handoff failed");
        }
        Ok(_) => panic!("a failed handoff does not end the session"),
    }
}
