//! What one turn of the console's loop decides before it draws: whether an
//! expired quit prompt closes, whether the endpoints poller runs, which
//! doctor outcome the page takes, and whether plugin health follows the
//! links probe; and how a turn can end the session.
use vstd::prelude::*;
use crate::dash::Page;
use crate::text::{push_str, to_owned_string};

verus! {

/// What the loop knows at the start of a turn.
#[derive(Clone, Copy, PartialEq, Eq, Structural, Debug)]
pub struct TickFacts {
    /// The page shown.
    pub page: Page,
    /// The endpoints poller runs.
    pub endpoints_polling: bool,
    /// A reload runs.
    pub reloading: bool,
    /// A doctor run started by hand is in progress.
    pub manual_doctor: bool,
    /// That run's outcome has arrived.
    pub manual_doctor_done: bool,
    /// A quit prompt was opened.
    pub quit_prompt_set: bool,
    /// It is still within its window.
    pub quit_prompt_live: bool,
}

/// Whether a poller is started, stopped or left as it is.
#[derive(Clone, Copy, PartialEq, Eq, Structural, Debug)]
pub enum PollerChange {
    Start,
    Stop,
    Keep,
}

/// Which doctor outcome the doctor page takes this turn.
#[derive(Clone, Copy, PartialEq, Eq, Structural, Debug)]
pub enum DoctorSource {
    /// The outcome of the run started by hand; the background probe is then
    /// started afresh.
    Manual,
    /// The background probe's latest outcome.
    Probe,
    /// The background probe's latest outcome is read and dropped, as a run
    /// started by hand is in progress.
    DiscardProbe,
}

/// What a turn does.
#[derive(Clone, Copy, PartialEq, Eq, Structural, Debug)]
pub struct TickPlan {
    /// The quit prompt closes.
    pub clear_quit_prompt: bool,
    /// The endpoints poller.
    pub endpoints: PollerChange,
    /// The doctor outcome taken.
    pub doctor: DoctorSource,
    /// A links probe outcome also replaces the plugin health.
    pub links_update_health: bool,
}

/// A turn's decisions: an expired quit prompt closes; the endpoints poller
/// runs exactly while the endpoints page is shown; a finished run started by
/// hand wins over the background probe, whose outcomes are dropped while such
/// a run is in progress; plugin health follows the links probe except during
/// a reload.
pub open spec fn tick_plan_of(f: TickFacts) -> TickPlan {
    TickPlan {
        clear_quit_prompt: f.quit_prompt_set && !f.quit_prompt_live,
        endpoints: if f.page == Page::Endpoints && !f.endpoints_polling {
            PollerChange::Start
        } else if f.page != Page::Endpoints && f.endpoints_polling {
            PollerChange::Stop
        } else {
            PollerChange::Keep
        },
        doctor: if f.manual_doctor && f.manual_doctor_done {
            DoctorSource::Manual
        } else if !f.manual_doctor {
            DoctorSource::Probe
        } else {
            DoctorSource::DiscardProbe
        },
        links_update_health: !f.reloading,
    }
}

/// A turn's decisions (see `tick_plan_of`).
pub fn tick_plan(f: TickFacts) -> (r: TickPlan)
    ensures
        r == tick_plan_of(f),
{
    let on_endpoints = f.page == Page::Endpoints;
    let endpoints = if on_endpoints && !f.endpoints_polling {
        PollerChange::Start
    } else if !on_endpoints && f.endpoints_polling {
        PollerChange::Stop
    } else {
        PollerChange::Keep
    };
    let doctor = if f.manual_doctor && f.manual_doctor_done {
        DoctorSource::Manual
    } else if !f.manual_doctor {
        DoctorSource::Probe
    } else {
        DoctorSource::DiscardProbe
    };
    TickPlan {
        clear_quit_prompt: f.quit_prompt_set && !f.quit_prompt_live,
        endpoints,
        doctor,
        links_update_health: !f.reloading,
    }
}

/// The endpoints poller runs while the endpoints page is shown and only
/// then: after a turn's change, it runs exactly when the page is shown.
pub proof fn lemma_endpoints_poller_follows_the_page(f: TickFacts)
    ensures
        ({
            let running_after = match tick_plan_of(f).endpoints {
                PollerChange::Start => true,
                PollerChange::Stop => false,
                PollerChange::Keep => f.endpoints_polling,
            };
            running_after == (f.page == Page::Endpoints)
        }),
{
}

/// How a console session ends.
#[derive(Clone, Copy, PartialEq, Eq, Structural, Debug)]
pub enum SessionEnd {
    /// A reload handed the tray over to its successor, which takes the console over.
    SelfRestart,
    /// The tray exited on its own.
    ChildExited,
    /// The user quit.
    UserQuit,
}

/// What a turn's end saw, in the order the loop looks: a reload's handoff
/// that succeeded, the tray having exited, and a quit from the keyboard.
#[derive(Clone, Copy, PartialEq, Eq, Structural, Debug)]
pub struct TurnEndFacts {
    pub handed_off: bool,
    pub child_exited: bool,
    pub quit_key: bool,
}

/// Whether a turn ends the session, and how: a successful handoff first,
/// then the tray's exit, then a quit; else the loop goes on.
pub open spec fn session_end_of(f: TurnEndFacts) -> Option<SessionEnd> {
    if f.handed_off {
        Some(SessionEnd::SelfRestart)
    } else if f.child_exited {
        Some(SessionEnd::ChildExited)
    } else if f.quit_key {
        Some(SessionEnd::UserQuit)
    } else {
        None
    }
}

/// Whether a turn ends the session (see `session_end_of`).
pub fn session_end(f: TurnEndFacts) -> (r: Option<SessionEnd>)
    ensures
        r == session_end_of(f),
{
    if f.handed_off {
        Some(SessionEnd::SelfRestart)
    } else if f.child_exited {
        Some(SessionEnd::ChildExited)
    } else if f.quit_key {
        Some(SessionEnd::UserQuit)
    } else {
        None
    }
}

/// What the console shows of a handoff that failed: a log line with the
/// error and a short notice. The plugin health is cleared with it.
pub struct HandoffFailure {
    pub log: String,
    pub notice: String,
}

/// The outcome of a reload's handoff: a success ends the session with a
/// self restart; a failure is logged as `[qol dev] handoff failed: ` and its
/// error, and noticed as `handoff failed`.
pub fn handoff_outcome(result: Result<(), String>) -> (r: Result<SessionEnd, HandoffFailure>)
    ensures
        match result {
            Ok(_) => r == Ok::<SessionEnd, HandoffFailure>(SessionEnd::SelfRestart),
            Err(e) => r matches Err(f) && f.log@ == "[qol dev] handoff failed: "@ + e@ && f.notice@
                == "handoff failed"@,
        },
{
    match result {
        Ok(()) => Ok(SessionEnd::SelfRestart),
        Err(e) => {
            let mut log = to_owned_string("[qol dev] handoff failed: ");
            push_str(&mut log, e.as_str());
            Err(HandoffFailure { log, notice: to_owned_string("handoff failed") })
        },
    }
}

/// A session ends in a turn exactly when one of the three things happened,
/// and a successful handoff always ends it as a self restart.
pub proof fn lemma_session_end_needs_a_cause(f: TurnEndFacts)
    ensures
        session_end_of(f) is Some <==> (f.handed_off || f.child_exited || f.quit_key),
        f.handed_off ==> session_end_of(f) == Some(SessionEnd::SelfRestart),
{
}

} // verus!
