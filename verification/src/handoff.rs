//! The handoff of a reload to its successor generation: stage the built
//! tray, start the successor, hand the plugin daemons over, retire the
//! running tray, wait for its daemons, promote the successor, prune old
//! generations and repair the autostart target. Each step is outside work;
//! this machine decides the next step from the outcome of the last, what is
//! logged and which phase is shown, and how a failed step is cleaned up.
use vstd::prelude::*;
use crate::dev_shutdown::{copy_daemon, daemon_list_text, daemon_view, daemon_views, format_daemon_pids, DaemonV, TrackedDaemonPid};
use crate::text::{chars_of, push_str, string_of, to_owned_string, trim, trimmed};

verus! {

/// Where the handoff stands: the step whose outcome it waits for.
#[derive(Clone, Copy, PartialEq, Eq, Structural, Debug)]
pub enum HandoffPhase {
    Staging,
    Starting,
    HandingOff,
    Retiring,
    /// The running tray could not be retired; the successor is terminated.
    Terminating,
    Waiting,
    Promoting,
    /// A later step failed; the successor is abandoned.
    Abandoning,
    Pruning,
    Repairing,
    Done,
}

/// The handoff's state.
pub struct HandoffState {
    pub phase: HandoffPhase,
    /// The predecessor's plugin daemons seen when the handoff started.
    pub daemons: Vec<TrackedDaemonPid>,
    /// The error the handoff ends with, once a step failed.
    pub error: Option<String>,
}

/// What the driver does next.
pub enum HandoffAction {
    /// Stage the built tray executable as a runtime generation; answer `Staged`.
    Stage,
    /// Start the successor generation from it; answer `Started`.
    StartSuccessor,
    /// Address the monitor's handoff to the successor and hand these
    /// daemons' groups off; answer `HandedOff` with those that did not go.
    HandOff(Vec<TrackedDaemonPid>),
    /// Retire the running tray; answer `Retired`.
    RetirePrevious,
    /// Terminate the successor and wait for it; answer `Terminated`.
    TerminateSuccessor,
    /// Wait for these predecessor daemons (see `predecessor_start`); answer
    /// `PredecessorsGone`.
    WaitPredecessors(Vec<TrackedDaemonPid>),
    /// Terminate and reap the successor; answer `Abandoned`.
    AbandonSuccessor,
    /// Promote the successor; answer `Promoted`.
    Promote,
    /// Adopt the successor as the running tray and its worktree as the
    /// running one, then prune the older runtime generations; answer `Pruned`.
    AdoptAndPrune,
    /// Repair the autostart target with the base doctor; answer `Repaired`.
    RepairAutostart,
    /// The handoff is over, with this outcome.
    Finished(Result<(), String>),
}

/// How the autostart repair went.
pub enum RepairOutcome {
    /// The base doctor is not built; the repair is skipped.
    NotBuilt,
    /// The doctor re-aligned the autostart target.
    Repaired,
    /// The doctor failed, with this error output.
    Failed(String),
    /// The doctor could not be run.
    Error(String),
}

/// The outcome of the last action.
pub enum HandoffEvent {
    Staged(Result<(), String>),
    Started(Result<(), String>),
    HandedOff(Vec<TrackedDaemonPid>),
    Retired(Result<(), String>),
    Terminated,
    PredecessorsGone(Result<(), String>),
    Abandoned,
    Promoted(Result<(), String>),
    Pruned(Result<(), String>),
    Repaired(RepairOutcome),
}

/// An action as plain values.
pub enum HandoffActionV {
    Stage,
    StartSuccessor,
    HandOff(Seq<DaemonV>),
    RetirePrevious,
    TerminateSuccessor,
    WaitPredecessors(Seq<DaemonV>),
    AbandonSuccessor,
    Promote,
    AdoptAndPrune,
    RepairAutostart,
    Finished(Result<(), Seq<char>>),
}

/// A repair outcome as plain values.
pub enum RepairV {
    NotBuilt,
    Repaired,
    Failed(Seq<char>),
    Error(Seq<char>),
}

/// An event as plain values.
pub enum HandoffEventV {
    Staged(Result<(), Seq<char>>),
    Started(Result<(), Seq<char>>),
    HandedOff(Seq<DaemonV>),
    Retired(Result<(), Seq<char>>),
    Terminated,
    PredecessorsGone(Result<(), Seq<char>>),
    Abandoned,
    Promoted(Result<(), Seq<char>>),
    Pruned(Result<(), Seq<char>>),
    Repaired(RepairV),
}

pub open spec fn unit_result_view(r: Result<(), String>) -> Result<(), Seq<char>> {
    match r {
        Ok(_) => Ok(()),
        Err(e) => Err(e@),
    }
}

pub open spec fn action_view(a: HandoffAction) -> HandoffActionV {
    match a {
        HandoffAction::Stage => HandoffActionV::Stage,
        HandoffAction::StartSuccessor => HandoffActionV::StartSuccessor,
        HandoffAction::HandOff(v) => HandoffActionV::HandOff(daemon_views(v@)),
        HandoffAction::RetirePrevious => HandoffActionV::RetirePrevious,
        HandoffAction::TerminateSuccessor => HandoffActionV::TerminateSuccessor,
        HandoffAction::WaitPredecessors(v) => HandoffActionV::WaitPredecessors(daemon_views(v@)),
        HandoffAction::AbandonSuccessor => HandoffActionV::AbandonSuccessor,
        HandoffAction::Promote => HandoffActionV::Promote,
        HandoffAction::AdoptAndPrune => HandoffActionV::AdoptAndPrune,
        HandoffAction::RepairAutostart => HandoffActionV::RepairAutostart,
        HandoffAction::Finished(r) => HandoffActionV::Finished(unit_result_view(r)),
    }
}

pub open spec fn event_view(e: HandoffEvent) -> HandoffEventV {
    match e {
        HandoffEvent::Staged(r) => HandoffEventV::Staged(unit_result_view(r)),
        HandoffEvent::Started(r) => HandoffEventV::Started(unit_result_view(r)),
        HandoffEvent::HandedOff(v) => HandoffEventV::HandedOff(daemon_views(v@)),
        HandoffEvent::Retired(r) => HandoffEventV::Retired(unit_result_view(r)),
        HandoffEvent::Terminated => HandoffEventV::Terminated,
        HandoffEvent::PredecessorsGone(r) => HandoffEventV::PredecessorsGone(unit_result_view(r)),
        HandoffEvent::Abandoned => HandoffEventV::Abandoned,
        HandoffEvent::Promoted(r) => HandoffEventV::Promoted(unit_result_view(r)),
        HandoffEvent::Pruned(r) => HandoffEventV::Pruned(unit_result_view(r)),
        HandoffEvent::Repaired(o) => HandoffEventV::Repaired(match o {
            RepairOutcome::NotBuilt => RepairV::NotBuilt,
            RepairOutcome::Repaired => RepairV::Repaired,
            RepairOutcome::Failed(s) => RepairV::Failed(s@),
            RepairOutcome::Error(s) => RepairV::Error(s@),
        }),
    }
}

/// The handoff's state as plain values: its phase, the predecessor's
/// daemons and the error it ends with.
pub open spec fn state_view(s: HandoffState) -> (HandoffPhase, Seq<DaemonV>, Option<Seq<char>>) {
    (s.phase, daemon_views(s.daemons@), match s.error {
        Some(e) => Some(e@),
        None => None,
    })
}

/// A step's outcome: the next state, the action, the lines to log and the
/// phase and detail shown next, if they change.
pub type HandoffNext = (
    (HandoffPhase, Seq<DaemonV>, Option<Seq<char>>),
    HandoffActionV,
    Seq<Seq<char>>,
    Option<(Seq<char>, Seq<char>)>,
);

/// The start of a handoff: it is logged, with the predecessor's daemons when
/// there are any and the note on the target when there is one, and the
/// built tray is staged.
pub open spec fn handoff_start_of(daemons: Seq<DaemonV>, note: Option<Seq<char>>) -> HandoffNext {
    (
        (HandoffPhase::Staging, daemons, None),
        HandoffActionV::Stage,
        seq!["[qol dev] starting successor generation"@] + (if daemons.len() > 0 {
            seq!["[qol dev] predecessor daemons tracked for handoff: "@ + daemon_list_text(daemons)]
        } else {
            seq![]
        }) + match note {
            Some(n) => seq![n],
            None => seq![],
        },
        Some(("stage"@, "tray executable"@)),
    )
}

/// Whether an event answers the action of a phase.
pub open spec fn event_fits(phase: HandoffPhase, e: HandoffEventV) -> bool {
    match e {
        HandoffEventV::Staged(_) => phase == HandoffPhase::Staging,
        HandoffEventV::Started(_) => phase == HandoffPhase::Starting,
        HandoffEventV::HandedOff(_) => phase == HandoffPhase::HandingOff,
        HandoffEventV::Retired(_) => phase == HandoffPhase::Retiring,
        HandoffEventV::Terminated => phase == HandoffPhase::Terminating,
        HandoffEventV::PredecessorsGone(_) => phase == HandoffPhase::Waiting,
        HandoffEventV::Abandoned => phase == HandoffPhase::Abandoning,
        HandoffEventV::Promoted(_) => phase == HandoffPhase::Promoting,
        HandoffEventV::Pruned(_) => phase == HandoffPhase::Pruning,
        HandoffEventV::Repaired(_) => phase == HandoffPhase::Repairing,
    }
}

/// The log line of the autostart repair.
pub open spec fn repair_line(o: RepairV) -> Seq<char> {
    match o {
        RepairV::NotBuilt => "[qol dev] autostart repair skipped: base doctor not built"@,
        RepairV::Repaired => "[qol dev] autostart re-aligned to the promoted selection"@,
        RepairV::Failed(s) => "[qol dev] autostart repair failed: "@ + trim(s),
        RepairV::Error(e) => "[qol dev] autostart repair failed: "@ + e,
    }
}

/// One step of the handoff. Staging and starting end it when they fail
/// (staging's error is prefixed with `tray runtime staging failed: `); a
/// tray that cannot be retired has the successor terminated, and a failed
/// wait or promotion (the latter logged) has it abandoned, before the
/// handoff ends with that error; the daemons that did not hand off are
/// logged; a failed prune is only logged; the autostart repair's outcome
/// and the active successor are logged last.
pub open spec fn handoff_next(
    s: (HandoffPhase, Seq<DaemonV>, Option<Seq<char>>),
    e: HandoffEventV,
) -> HandoffNext {
    let (phase, daemons, error) = s;
    let done_with = |r: Result<(), Seq<char>>| ((HandoffPhase::Done, daemons, error), HandoffActionV::Finished(r));
    match e {
        HandoffEventV::Staged(Err(x)) => {
            let (st, a) = done_with(Err("tray runtime staging failed: "@ + x));
            (st, a, seq![], None)
        },
        HandoffEventV::Staged(Ok(_)) => (
            (HandoffPhase::Starting, daemons, error),
            HandoffActionV::StartSuccessor,
            seq![],
            Some(("start"@, "successor generation"@)),
        ),
        HandoffEventV::Started(Err(x)) => {
            let (st, a) = done_with(Err(x));
            (st, a, seq![], None)
        },
        HandoffEventV::Started(Ok(_)) => (
            (HandoffPhase::HandingOff, daemons, error),
            HandoffActionV::HandOff(daemons),
            seq![],
            Some(("handoff"@, "plugin daemons"@)),
        ),
        HandoffEventV::HandedOff(remaining) => (
            (HandoffPhase::Retiring, daemons, error),
            HandoffActionV::RetirePrevious,
            seq![
                if remaining.len() == 0 {
                    "[qol dev] predecessor daemons handed off for reload"@
                } else {
                    "[qol dev] predecessor daemons did not hand off: "@ + daemon_list_text(remaining)
                },
            ],
            Some(("stop"@, "previous generation"@)),
        ),
        HandoffEventV::Retired(Err(x)) => (
            (HandoffPhase::Terminating, daemons, Some(x)),
            HandoffActionV::TerminateSuccessor,
            seq![],
            None,
        ),
        HandoffEventV::Retired(Ok(_)) => (
            (HandoffPhase::Waiting, daemons, error),
            HandoffActionV::WaitPredecessors(daemons),
            seq![],
            Some(("wait"@, "previous daemons"@)),
        ),
        HandoffEventV::PredecessorsGone(Err(x)) => (
            (HandoffPhase::Abandoning, daemons, Some(x)),
            HandoffActionV::AbandonSuccessor,
            seq![],
            None,
        ),
        HandoffEventV::PredecessorsGone(Ok(_)) => (
            (HandoffPhase::Promoting, daemons, error),
            HandoffActionV::Promote,
            seq![],
            Some(("promote"@, "successor generation"@)),
        ),
        HandoffEventV::Promoted(Err(x)) => (
            (HandoffPhase::Abandoning, daemons, Some(x)),
            HandoffActionV::AbandonSuccessor,
            seq!["[qol dev] successor promotion failed: "@ + x],
            None,
        ),
        HandoffEventV::Promoted(Ok(_)) => (
            (HandoffPhase::Pruning, daemons, error),
            HandoffActionV::AdoptAndPrune,
            seq![],
            Some(("cleanup"@, "runtime generations"@)),
        ),
        HandoffEventV::Terminated | HandoffEventV::Abandoned => {
            let (st, a) = done_with(Err(match error {
                Some(x) => x,
                None => seq![],
            }));
            (st, a, seq![], None)
        },
        HandoffEventV::Pruned(r) => (
            (HandoffPhase::Repairing, daemons, error),
            HandoffActionV::RepairAutostart,
            match r {
                Err(x) => seq!["[qol dev] runtime prune failed: "@ + x],
                Ok(_) => seq![],
            },
            Some(("repair"@, "autostart target"@)),
        ),
        HandoffEventV::Repaired(o) => {
            let (st, a) = done_with(Ok(()));
            (st, a, seq![repair_line(o), "[qol dev] successor generation active"@], None)
        },
    }
}

/// The outcome of a step as plain values.
pub open spec fn outcome_view(
    s: HandoffState,
    a: HandoffAction,
    logs: Vec<String>,
    shown: Option<(String, String)>,
) -> HandoffNext {
    (state_view(s), action_view(a), logs@.map_values(|l: String| l@), match shown {
        Some((p, d)) => Some((p@, d@)),
        None => None,
    })
}

fn copy_daemons(v: &Vec<TrackedDaemonPid>) -> (r: Vec<TrackedDaemonPid>)
    ensures
        daemon_views(r@) == daemon_views(v@),
{
    let mut r: Vec<TrackedDaemonPid> = Vec::new();
    let mut i: usize = 0;
    while i < v.len()
        invariant
            i <= v@.len(),
            daemon_views(r@) == daemon_views(v@).take(i as int),
        decreases v@.len() - i,
    {
        let ghost before = daemon_views(r@);
        let d = copy_daemon(&v[i]);
        let ghost dv = daemon_view(d);
        r.push(d);
        assert(daemon_views(r@) =~= before.push(dv));
        assert(daemon_views(v@).take(i + 1) =~= daemon_views(v@).take(i as int).push(daemon_view(v@[i as int])));
        i += 1;
    }
    assert(daemon_views(v@).take(v@.len() as int) =~= daemon_views(v@));
    r
}

fn text(t: &str) -> (r: String)
    ensures
        r@ == t@,
{
    to_owned_string(t)
}

fn joined(a: &str, b: &str) -> (r: String)
    ensures
        r@ == a@ + b@,
{
    let mut r = to_owned_string(a);
    push_str(&mut r, b);
    r
}

fn shown(p: &str, d: &str) -> (r: Option<(String, String)>)
    ensures
        r matches Some((x, y)) && x@ == p@ && y@ == d@,
{
    Some((to_owned_string(p), to_owned_string(d)))
}

impl HandoffState {
    /// The start of a handoff (see `handoff_start_of`): `daemons` are the
    /// predecessor's plugin daemons, `note` what resolving the target said.
    pub fn start(daemons: Vec<TrackedDaemonPid>, note: Option<String>) -> (r: (
        HandoffState,
        HandoffAction,
        Vec<String>,
        Option<(String, String)>,
    ))
        ensures
            outcome_view(r.0, r.1, r.2, r.3) == handoff_start_of(daemon_views(daemons@), match note {
                Some(n) => Some(n@),
                None => None,
            }),
    {
        proof {
            reveal_strlit("[qol dev] starting successor generation");
            reveal_strlit("stage");
            reveal_strlit("tray executable");
        }
        let mut logs: Vec<String> = Vec::new();
        logs.push(text("[qol dev] starting successor generation"));
        let ghost first = logs@.map_values(|l: String| l@);
        if daemons.len() > 0 {
            let list = format_daemon_pids(daemons.as_slice());
            let line = joined("[qol dev] predecessor daemons tracked for handoff: ", list.as_str());
            let ghost lv = line@;
            logs.push(line);
            assert(logs@.map_values(|l: String| l@) =~= first.push(lv));
        }
        let ghost second = logs@.map_values(|l: String| l@);
        match note {
            Some(n) => {
                let ghost nv = n@;
                logs.push(n);
                assert(logs@.map_values(|l: String| l@) =~= second.push(nv));
            },
            None => {},
        }
        let state = HandoffState { phase: HandoffPhase::Staging, daemons, error: None };
        let r = (state, HandoffAction::Stage, logs, shown("stage", "tray executable"));
        assert(outcome_view(r.0, r.1, r.2, r.3).2 =~= handoff_start_of(daemon_views(daemons@), match note {
            Some(n) => Some(n@),
            None => None,
        }).2);
        r
    }

    /// One step of the handoff (see `handoff_next`), on the outcome of the
    /// last action.
    pub fn step(&mut self, event: HandoffEvent) -> (r: (HandoffAction, Vec<String>, Option<(String, String)>))
        requires
            event_fits(old(self).phase, event_view(event)),
        ensures
            outcome_view(*final(self), r.0, r.1, r.2) == handoff_next(state_view(*old(self)), event_view(event)),
    {
        proof {
            reveal_strlit("tray runtime staging failed: ");
            reveal_strlit("start");
            reveal_strlit("successor generation");
            reveal_strlit("handoff");
            reveal_strlit("plugin daemons");
            reveal_strlit("[qol dev] predecessor daemons handed off for reload");
            reveal_strlit("[qol dev] predecessor daemons did not hand off: ");
            reveal_strlit("stop");
            reveal_strlit("previous generation");
            reveal_strlit("wait");
            reveal_strlit("previous daemons");
            reveal_strlit("promote");
            reveal_strlit("[qol dev] successor promotion failed: ");
            reveal_strlit("cleanup");
            reveal_strlit("runtime generations");
            reveal_strlit("[qol dev] runtime prune failed: ");
            reveal_strlit("repair");
            reveal_strlit("autostart target");
            reveal_strlit("[qol dev] autostart repair skipped: base doctor not built");
            reveal_strlit("[qol dev] autostart re-aligned to the promoted selection");
            reveal_strlit("[qol dev] autostart repair failed: ");
            reveal_strlit("[qol dev] successor generation active");
        }
        let mut logs: Vec<String> = Vec::new();
        assert(logs@.map_values(|l: String| l@) =~= Seq::<Seq<char>>::empty());
        match event {
            HandoffEvent::Staged(Err(x)) => {
                self.phase = HandoffPhase::Done;
                (HandoffAction::Finished(Err(joined("tray runtime staging failed: ", x.as_str()))), logs, None)
            },
            HandoffEvent::Staged(Ok(())) => {
                self.phase = HandoffPhase::Starting;
                (HandoffAction::StartSuccessor, logs, shown("start", "successor generation"))
            },
            HandoffEvent::Started(Err(x)) => {
                self.phase = HandoffPhase::Done;
                (HandoffAction::Finished(Err(x)), logs, None)
            },
            HandoffEvent::Started(Ok(())) => {
                self.phase = HandoffPhase::HandingOff;
                (HandoffAction::HandOff(copy_daemons(&self.daemons)), logs, shown("handoff", "plugin daemons"))
            },
            HandoffEvent::HandedOff(remaining) => {
                let line = if remaining.len() == 0 {
                    text("[qol dev] predecessor daemons handed off for reload")
                } else {
                    let list = format_daemon_pids(remaining.as_slice());
                    joined("[qol dev] predecessor daemons did not hand off: ", list.as_str())
                };
                let ghost lv = line@;
                logs.push(line);
                assert(logs@.map_values(|l: String| l@) =~= seq![lv]);
                self.phase = HandoffPhase::Retiring;
                (HandoffAction::RetirePrevious, logs, shown("stop", "previous generation"))
            },
            HandoffEvent::Retired(Err(x)) => {
                self.phase = HandoffPhase::Terminating;
                self.error = Some(x);
                (HandoffAction::TerminateSuccessor, logs, None)
            },
            HandoffEvent::Retired(Ok(())) => {
                self.phase = HandoffPhase::Waiting;
                (HandoffAction::WaitPredecessors(copy_daemons(&self.daemons)), logs, shown("wait", "previous daemons"))
            },
            HandoffEvent::PredecessorsGone(Err(x)) => {
                self.phase = HandoffPhase::Abandoning;
                self.error = Some(x);
                (HandoffAction::AbandonSuccessor, logs, None)
            },
            HandoffEvent::PredecessorsGone(Ok(())) => {
                self.phase = HandoffPhase::Promoting;
                (HandoffAction::Promote, logs, shown("promote", "successor generation"))
            },
            HandoffEvent::Promoted(Err(x)) => {
                let line = joined("[qol dev] successor promotion failed: ", x.as_str());
                let ghost lv = line@;
                logs.push(line);
                assert(logs@.map_values(|l: String| l@) =~= seq![lv]);
                self.phase = HandoffPhase::Abandoning;
                self.error = Some(x);
                (HandoffAction::AbandonSuccessor, logs, None)
            },
            HandoffEvent::Promoted(Ok(())) => {
                self.phase = HandoffPhase::Pruning;
                (HandoffAction::AdoptAndPrune, logs, shown("cleanup", "runtime generations"))
            },
            HandoffEvent::Terminated | HandoffEvent::Abandoned => {
                self.phase = HandoffPhase::Done;
                let e = match &self.error {
                    Some(x) => x.clone(),
                    None => String::new(),
                };
                (HandoffAction::Finished(Err(e)), logs, None)
            },
            HandoffEvent::Pruned(r) => {
                match r {
                    Err(x) => {
                        let line = joined("[qol dev] runtime prune failed: ", x.as_str());
                        let ghost lv = line@;
                        logs.push(line);
                        assert(logs@.map_values(|l: String| l@) =~= seq![lv]);
                    },
                    Ok(()) => {},
                }
                self.phase = HandoffPhase::Repairing;
                (HandoffAction::RepairAutostart, logs, shown("repair", "autostart target"))
            },
            HandoffEvent::Repaired(o) => {
                let line = match o {
                    RepairOutcome::NotBuilt => text("[qol dev] autostart repair skipped: base doctor not built"),
                    RepairOutcome::Repaired => text("[qol dev] autostart re-aligned to the promoted selection"),
                    RepairOutcome::Failed(s) => {
                        let t = string_of(&trimmed(&chars_of(s.as_str())));
                        joined("[qol dev] autostart repair failed: ", t.as_str())
                    },
                    RepairOutcome::Error(x) => joined("[qol dev] autostart repair failed: ", x.as_str()),
                };
                let ghost lv = line@;
                logs.push(line);
                let active = text("[qol dev] successor generation active");
                let ghost av = active@;
                logs.push(active);
                assert(logs@.map_values(|l: String| l@) =~= seq![lv, av]);
                self.phase = HandoffPhase::Done;
                (HandoffAction::Finished(Ok(())), logs, None)
            },
        }
    }
}

/// A handoff ends only after the successor was promoted, unless a step
/// failed: whenever a step finishes it with success, that step took the
/// autostart repair's outcome, which comes after the promotion.
pub proof fn lemma_success_comes_only_after_the_repair(
    s: (HandoffPhase, Seq<DaemonV>, Option<Seq<char>>),
    e: HandoffEventV,
)
    requires
        event_fits(s.0, e),
    ensures
        handoff_next(s, e).1 == HandoffActionV::Finished(Ok(())) ==> s.0 == HandoffPhase::Repairing,
        handoff_next(s, e).1 is Finished ==> handoff_next(s, e).0.0 == HandoffPhase::Done,
{
}

/// Each step of the handoff follows from the success of the one before: the
/// daemons are handed off only once the successor started, and then exactly
/// the daemons seen at the start; the running tray is retired only after the
/// handoff was tried; the predecessor's daemons are waited for only once it
/// was retired; the successor is promoted only once they are gone, and
/// adopted only once it was promoted.
pub proof fn lemma_steps_follow_success(
    s: (HandoffPhase, Seq<DaemonV>, Option<Seq<char>>),
    e: HandoffEventV,
)
    requires
        event_fits(s.0, e),
    ensures
        handoff_next(s, e).1 is HandOff ==> e == HandoffEventV::Started(Ok(())),
        handoff_next(s, e).1 matches HandoffActionV::HandOff(d) ==> d == s.1,
        handoff_next(s, e).1 is RetirePrevious ==> e is HandedOff,
        handoff_next(s, e).1 is WaitPredecessors ==> e == HandoffEventV::Retired(Ok(())),
        handoff_next(s, e).1 matches HandoffActionV::WaitPredecessors(d) ==> d == s.1,
        handoff_next(s, e).1 is Promote ==> e == HandoffEventV::PredecessorsGone(Ok(())),
        handoff_next(s, e).1 is AdoptAndPrune ==> e == HandoffEventV::Promoted(Ok(())),
{
    match e {
        HandoffEventV::Started(Ok(u)) => {
            assert(u == ());
        },
        HandoffEventV::Retired(Ok(u)) => {
            assert(u == ());
        },
        HandoffEventV::PredecessorsGone(Ok(u)) => {
            assert(u == ());
        },
        HandoffEventV::Promoted(Ok(u)) => {
            assert(u == ());
        },
        _ => {},
    }
}

/// A successor that fails to start ends the handoff with its error: nothing
/// is logged, the phase shown stays, and no daemon is handed to it.
pub proof fn lemma_failed_start_ends_the_handoff(s: (HandoffPhase, Seq<DaemonV>, Option<Seq<char>>), x: Seq<char>)
    ensures
        handoff_next(s, HandoffEventV::Started(Err(x))) == (
            (HandoffPhase::Done, s.1, s.2),
            HandoffActionV::Finished(Err(x)),
            Seq::<Seq<char>>::empty(),
            None::<(Seq<char>, Seq<char>)>,
        ),
{
    assert(handoff_next(s, HandoffEventV::Started(Err(x))).2 =~= Seq::<Seq<char>>::empty());
}

/// A staging that fails ends the handoff with its error, named as a staging
/// failure, before any successor exists.
pub proof fn lemma_failed_staging_ends_the_handoff(s: (HandoffPhase, Seq<DaemonV>, Option<Seq<char>>), x: Seq<char>)
    ensures
        handoff_next(s, HandoffEventV::Staged(Err(x))).1 == HandoffActionV::Finished(
            Err("tray runtime staging failed: "@ + x),
        ),
        handoff_next(s, HandoffEventV::Staged(Err(x))).0.0 == HandoffPhase::Done,
        handoff_next(s, HandoffEventV::Staged(Err(x))).2.len() == 0,
{
}

/// A step that fails once the successor runs is cleaned up and then ends
/// the handoff with that step's error: a tray that cannot be retired has the
/// successor terminated, a failed wait or promotion has it abandoned; the
/// handoff then finishes with the failing step's error.
pub proof fn lemma_late_failures_end_with_their_error(
    s: (HandoffPhase, Seq<DaemonV>, Option<Seq<char>>),
    x: Seq<char>,
)
    ensures
        handoff_next(s, HandoffEventV::Retired(Err(x))).1 == HandoffActionV::TerminateSuccessor,
        handoff_next(handoff_next(s, HandoffEventV::Retired(Err(x))).0, HandoffEventV::Terminated).1
            == HandoffActionV::Finished(Err(x)),
        handoff_next(s, HandoffEventV::PredecessorsGone(Err(x))).1 == HandoffActionV::AbandonSuccessor,
        handoff_next(handoff_next(s, HandoffEventV::PredecessorsGone(Err(x))).0, HandoffEventV::Abandoned).1
            == HandoffActionV::Finished(Err(x)),
        handoff_next(s, HandoffEventV::Promoted(Err(x))).1 == HandoffActionV::AbandonSuccessor,
        handoff_next(handoff_next(s, HandoffEventV::Promoted(Err(x))).0, HandoffEventV::Abandoned).1
            == HandoffActionV::Finished(Err(x)),
{
}

} // verus!