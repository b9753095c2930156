//! Stopping the sandbox runs when the console leaves: cancellation requests,
//! candidate shutdowns, a bounded wait, exact lane stops for sessions that
//! outlive it, a second wait, coordinator escalation and a last cleanup
//! check. The decisions are a state machine; whoever drives it performs each
//! action and answers with what came of it.
use vstd::prelude::*;
use crate::emu_panel::{
    bounded_followup_targets, cancel_detail, cancellation_requests, cancellations_of, candidate_down_detail,
    candidate_keys_of, candidate_stop_keys, coordinator_detail, copy_target, escalation_refused_detail,
    escalations_of, final_cleanup_detail, final_cleanup_of, followups_of, identity_of, lane_escalation_targets,
    lane_stop_detail, string_views, target_view, targets_view, SandboxStopTarget,
};
use crate::text::to_owned_string;

verus! {

/// A line for a run's log: the run's key, the verb and the detail.
pub type StopLine = (String, String, String);

/// A line as plain values.
pub type LineV = (Seq<char>, Seq<char>, Seq<char>);

/// The plain values of lines.
pub open spec fn lines_view(ls: Seq<StopLine>) -> Seq<LineV> {
    ls.map_values(|l: StopLine| (l.0@, l.1@, l.2@))
}

/// A result without a value, as plain values.
pub open spec fn unit_view(r: Result<(), String>) -> Result<(), Seq<char>> {
    match r {
        Ok(_) => Ok(()),
        Err(e) => Err(e@),
    }
}

/// A result carrying text, as plain values.
pub open spec fn text_view(r: Result<String, String>) -> Result<Seq<char>, Seq<char>> {
    match r {
        Ok(t) => Ok(t@),
        Err(e) => Err(e@),
    }
}

/// The `cancel` lines: one per request that has an answer, in order.
pub open spec fn cancel_lines(reqs: Seq<(Seq<char>, Seq<char>)>, rs: Seq<Result<(), Seq<char>>>) -> Seq<LineV> {
    let n = if reqs.len() < rs.len() { reqs.len() } else { rs.len() };
    Seq::new(n, |i: int| (reqs[i].0, "cancel"@, match rs[i] {
        Ok(_) => "requested for "@ + reqs[i].1,
        Err(e) => "request failed for "@ + reqs[i].1 + ": "@ + e,
    }))
}

/// The `down` lines: one per candidate that has an answer, in order.
pub open spec fn down_lines(keys: Seq<Seq<char>>, rs: Seq<Result<(), Seq<char>>>) -> Seq<LineV> {
    let n = if keys.len() < rs.len() { keys.len() } else { rs.len() };
    Seq::new(n, |i: int| (keys[i], "down"@, match rs[i] {
        Ok(_) => "sent to "@ + keys[i],
        Err(e) => "could not stop "@ + keys[i] + ": "@ + e,
    }))
}

/// The `coordinator` lines, one per escalated run.
pub open spec fn coordinator_lines(rs: Seq<(Seq<char>, Result<Seq<char>, Seq<char>>)>) -> Seq<LineV> {
    Seq::new(rs.len(), |i: int| (rs[i].0, "coordinator"@, match rs[i].1 {
        Ok(reason) => "owned coordinator stopped because "@ + reason,
        Err(e) => "coordinator retained: "@ + e,
    }))
}

/// A session's lane stops as plain values: its key, and either why its lanes
/// could not be listed or each lane's run id and stop outcome.
pub type LanesV = (Seq<char>, Result<Seq<(Seq<char>, Result<(), Seq<char>>)>, Seq<char>>);

/// The `cleanup` lines of the sessions whose lanes could not be stopped one
/// by one, in order.
pub open spec fn refusal_lines(rs: Seq<LanesV>) -> Seq<LineV>
    decreases rs.len(),
{
    if rs.len() == 0 {
        seq![]
    } else {
        (match rs[0].1 {
            Err(e) => seq![(rs[0].0, "cleanup"@, "lane escalation refused: "@ + e)],
            Ok(_) => seq![],
        }) + refusal_lines(rs.drop_first())
    }
}

/// The `cleanup` lines of one session's lane stops.
pub open spec fn lane_result_lines(key: Seq<char>, lanes: Seq<(Seq<char>, Result<(), Seq<char>>)>) -> Seq<LineV> {
    Seq::new(lanes.len(), |i: int| (key, "cleanup"@, match lanes[i].1 {
        Ok(_) => "verified stop sent to "@ + lanes[i].0,
        Err(e) => lanes[i].0 + " stop failed: "@ + e,
    }))
}

/// The `cleanup` lines of every lane stop, session by session.
pub open spec fn stop_result_lines(rs: Seq<LanesV>) -> Seq<LineV>
    decreases rs.len(),
{
    if rs.len() == 0 {
        seq![]
    } else {
        (match rs[0].1 {
            Ok(lanes) => lane_result_lines(rs[0].0, lanes),
            Err(_) => seq![],
        }) + stop_result_lines(rs.drop_first())
    }
}

/// The last `cleanup` lines: each target in order, a report-less one only
/// when it outlived the first wait, one with a report from the next
/// verification answer (none when the answers ran out).
pub open spec fn verify_lines(
    ts: Seq<SandboxStopTarget>,
    timed_out: Seq<Seq<char>>,
    rs: Seq<Result<Seq<char>, Seq<char>>>,
) -> Seq<LineV>
    decreases ts.len(),
{
    if ts.len() == 0 {
        seq![]
    } else {
        let t = ts[0];
        if identity_of(t.launch) is None {
            (if timed_out.contains(t.key@) {
                seq![(t.key@, "cleanup"@, "coordinator remains live and was not killed without guest-exit proof"@)]
            } else {
                seq![]
            }) + verify_lines(ts.drop_first(), timed_out, rs)
        } else if rs.len() == 0 {
            verify_lines(ts.drop_first(), timed_out, rs)
        } else {
            seq![(t.key@, "cleanup"@, match rs[0] {
                Ok(path) => "verified by "@ + path,
                Err(e) => "unverified: "@ + e + "; durable owner and report remain for recovery"@,
            })] + verify_lines(ts.drop_first(), timed_out, rs.drop_first())
        }
    }
}

/// The targets that own a report, in order.
pub open spec fn reported_of(ts: Seq<SandboxStopTarget>) -> Seq<SandboxStopTarget>
    decreases ts.len(),
{
    if ts.len() == 0 {
        seq![]
    } else {
        let rest = reported_of(ts.drop_last());
        if identity_of(ts.last().launch) is Some { rest.push(ts.last()) } else { rest }
    }
}

/// The keys of targets.
pub open spec fn keys_of(ts: Seq<SandboxStopTarget>) -> Seq<Seq<char>> {
    ts.map_values(|t: SandboxStopTarget| t.key@)
}

fn line(key: &str, verb: &str, detail: String) -> (r: StopLine)
    ensures
        (r.0@, r.1@, r.2@) == (key@, verb@, detail@),
{
    (to_owned_string(key), to_owned_string(verb), detail)
}

fn push_line(lines: &mut Vec<StopLine>, l: StopLine)
    ensures
        lines_view(final(lines)@) == lines_view(old(lines)@).push((l.0@, l.1@, l.2@)),
{
    let ghost before = lines_view(lines@);
    lines.push(l);
    assert(lines_view(lines@) =~= before.push((l.0@, l.1@, l.2@)));
}

fn push_cancel_lines(lines: &mut Vec<StopLine>, reqs: &Vec<(String, String)>, rs: &Vec<Result<(), String>>)
    ensures
        lines_view(final(lines)@) == lines_view(old(lines)@) + cancel_lines(
            reqs@.map_values(|p: (String, String)| (p.0@, p.1@)),
            rs@.map_values(|r: Result<(), String>| unit_view(r)),
        ),
{
    let ghost l0 = lines_view(lines@);
    let ghost qv = reqs@.map_values(|p: (String, String)| (p.0@, p.1@));
    let ghost rv = rs@.map_values(|r: Result<(), String>| unit_view(r));
    let n = if reqs.len() < rs.len() { reqs.len() } else { rs.len() };
    let mut i: usize = 0;
    while i < n
        invariant
            i <= n,
            n <= reqs@.len() && n <= rs@.len(),
            n == (if qv.len() < rv.len() { qv.len() } else { rv.len() }),
            qv == reqs@.map_values(|p: (String, String)| (p.0@, p.1@)),
            rv == rs@.map_values(|r: Result<(), String>| unit_view(r)),
            lines_view(lines@) == l0 + cancel_lines(qv, rv).take(i as int),
        decreases n - i,
    {
        let d = cancel_detail(reqs[i].1.as_str(), &rs[i]);
        push_line(lines, line(reqs[i].0.as_str(), "cancel", d));
        assert(cancel_lines(qv, rv).take(i + 1) =~= cancel_lines(qv, rv).take(i as int).push(cancel_lines(qv, rv)[i as int]));
        i += 1;
    }
    assert(cancel_lines(qv, rv).take(n as int) =~= cancel_lines(qv, rv));
}

fn push_down_lines(lines: &mut Vec<StopLine>, keys: &Vec<String>, rs: &Vec<Result<(), String>>)
    ensures
        lines_view(final(lines)@) == lines_view(old(lines)@) + down_lines(
            string_views(keys@),
            rs@.map_values(|r: Result<(), String>| unit_view(r)),
        ),
{
    let ghost l0 = lines_view(lines@);
    let ghost kv = string_views(keys@);
    let ghost rv = rs@.map_values(|r: Result<(), String>| unit_view(r));
    let n = if keys.len() < rs.len() { keys.len() } else { rs.len() };
    let mut i: usize = 0;
    while i < n
        invariant
            i <= n,
            n <= keys@.len() && n <= rs@.len(),
            n == (if kv.len() < rv.len() { kv.len() } else { rv.len() }),
            kv == string_views(keys@),
            rv == rs@.map_values(|r: Result<(), String>| unit_view(r)),
            lines_view(lines@) == l0 + down_lines(kv, rv).take(i as int),
        decreases n - i,
    {
        let d = candidate_down_detail(keys[i].as_str(), &rs[i]);
        push_line(lines, line(keys[i].as_str(), "down", d));
        assert(down_lines(kv, rv).take(i + 1) =~= down_lines(kv, rv).take(i as int).push(down_lines(kv, rv)[i as int]));
        i += 1;
    }
    assert(down_lines(kv, rv).take(n as int) =~= down_lines(kv, rv));
}

fn push_coordinator_lines(lines: &mut Vec<StopLine>, rs: &Vec<(String, Result<String, String>)>)
    ensures
        lines_view(final(lines)@) == lines_view(old(lines)@) + coordinator_lines(
            rs@.map_values(|p: (String, Result<String, String>)| (p.0@, text_view(p.1))),
        ),
{
    let ghost l0 = lines_view(lines@);
    let ghost rv = rs@.map_values(|p: (String, Result<String, String>)| (p.0@, text_view(p.1)));
    let mut i: usize = 0;
    while i < rs.len()
        invariant
            i <= rs@.len(),
            rv == rs@.map_values(|p: (String, Result<String, String>)| (p.0@, text_view(p.1))),
            lines_view(lines@) == l0 + coordinator_lines(rv).take(i as int),
        decreases rs@.len() - i,
    {
        let d = coordinator_detail(&rs[i].1);
        push_line(lines, line(rs[i].0.as_str(), "coordinator", d));
        assert(coordinator_lines(rv).take(i + 1) =~= coordinator_lines(rv).take(i as int).push(coordinator_lines(rv)[i as int]));
        i += 1;
    }
    assert(coordinator_lines(rv).take(rs@.len() as int) =~= coordinator_lines(rv));
}

/// A session's lane stops: its key, and either why its lanes could not be
/// listed or each lane's run id and stop outcome.
pub type LaneStops = (String, Result<Vec<(String, Result<(), String>)>, String>);

/// The plain values of a session's lane stops.
pub open spec fn lanes_view(l: LaneStops) -> LanesV {
    (l.0@, match l.1 {
        Ok(v) => Ok(v@.map_values(|p: (String, Result<(), String>)| (p.0@, unit_view(p.1)))),
        Err(e) => Err(e@),
    })
}

/// The plain values of every session's lane stops.
pub open spec fn all_lanes_view(rs: Seq<LaneStops>) -> Seq<LanesV> {
    rs.map_values(|l: LaneStops| lanes_view(l))
}

fn push_lane_lines(lines: &mut Vec<StopLine>, rs: &Vec<LaneStops>)
    ensures
        lines_view(final(lines)@) == lines_view(old(lines)@) + refusal_lines(all_lanes_view(rs@))
            + stop_result_lines(all_lanes_view(rs@)),
{
    let ghost l0 = lines_view(lines@);
    let ghost rv = all_lanes_view(rs@);
    let mut i: usize = 0;
    assert(rv.skip(0) =~= rv);
    assert(l0 + seq![] =~= l0);
    while i < rs.len()
        invariant
            i <= rs@.len(),
            rv == all_lanes_view(rs@),
            l0 + refusal_lines(rv) == lines_view(lines@) + refusal_lines(rv.skip(i as int)),
        decreases rs@.len() - i,
    {
        assert(rv.skip(i as int)[0] == lanes_view(rs@[i as int]));
        assert(rv.skip(i as int).drop_first() =~= rv.skip(i + 1));
        let ghost before = lines_view(lines@);
        match &rs[i].1 {
            Err(e) => {
                let d = escalation_refused_detail(e.as_str());
                push_line(lines, line(rs[i].0.as_str(), "cleanup", d));
                assert(before + refusal_lines(rv.skip(i as int)) =~= lines_view(lines@) + refusal_lines(rv.skip(i + 1)));
            },
            Ok(_) => {
                assert(before + refusal_lines(rv.skip(i as int)) =~= lines_view(lines@) + refusal_lines(rv.skip(i + 1)));
            },
        }
        i += 1;
    }
    assert(rv.skip(rs@.len() as int) =~= Seq::<LanesV>::empty());
    assert(lines_view(lines@) + Seq::<LineV>::empty() =~= lines_view(lines@));
    let ghost l1 = lines_view(lines@);
    assert(l1 == l0 + refusal_lines(rv));
    let mut j: usize = 0;
    assert(l1 + seq![] =~= l1);
    while j < rs.len()
        invariant
            j <= rs@.len(),
            rv == all_lanes_view(rs@),
            l1 + stop_result_lines(rv) == lines_view(lines@) + stop_result_lines(rv.skip(j as int)),
        decreases rs@.len() - j,
    {
        assert(rv.skip(j as int)[0] == lanes_view(rs@[j as int]));
        assert(rv.skip(j as int).drop_first() =~= rv.skip(j + 1));
        let ghost before = lines_view(lines@);
        match &rs[j].1 {
            Ok(lanes) => {
                let ghost lv = lanes@.map_values(|p: (String, Result<(), String>)| (p.0@, unit_view(p.1)));
                let ghost key = rs@[j as int].0@;
                let mut k: usize = 0;
                while k < lanes.len()
                    invariant
                        k <= lanes@.len(),
                        j < rs@.len(),
                        lv == lanes@.map_values(|p: (String, Result<(), String>)| (p.0@, unit_view(p.1))),
                        key == rs@[j as int].0@,
                        lines_view(lines@) == before + lane_result_lines(key, lv).take(k as int),
                    decreases lanes@.len() - k,
                {
                    let d = lane_stop_detail(lanes[k].0.as_str(), &lanes[k].1);
                    push_line(lines, line(rs[j].0.as_str(), "cleanup", d));
                    assert(lane_result_lines(key, lv).take(k + 1) =~= lane_result_lines(key, lv).take(k as int).push(
                        lane_result_lines(key, lv)[k as int],
                    ));
                    k += 1;
                }
                assert(lane_result_lines(key, lv).take(lanes@.len() as int) =~= lane_result_lines(key, lv));
                assert(before + stop_result_lines(rv.skip(j as int)) =~= lines_view(lines@) + stop_result_lines(rv.skip(j + 1)));
            },
            Err(_) => {
                assert(before + stop_result_lines(rv.skip(j as int)) =~= lines_view(lines@) + stop_result_lines(rv.skip(j + 1)));
            },
        }
        j += 1;
    }
    assert(rv.skip(rs@.len() as int) =~= Seq::<LanesV>::empty());
    assert(lines_view(lines@) + Seq::<LineV>::empty() =~= lines_view(lines@));
}

fn push_verify_lines(
    lines: &mut Vec<StopLine>,
    targets: &Vec<SandboxStopTarget>,
    timed_out: &Vec<String>,
    rs: &Vec<Result<String, String>>,
)
    ensures
        lines_view(final(lines)@) == lines_view(old(lines)@) + verify_lines(
            targets@,
            string_views(timed_out@),
            rs@.map_values(|r: Result<String, String>| text_view(r)),
        ),
{
    let ghost l0 = lines_view(lines@);
    let ghost tk = string_views(timed_out@);
    let ghost rv = rs@.map_values(|r: Result<String, String>| text_view(r));
    let mut i: usize = 0;
    let mut j: usize = 0;
    assert(targets@.skip(0) =~= targets@);
    assert(rv.skip(0) =~= rv);
    assert(l0 + seq![] =~= l0);
    while i < targets.len()
        invariant
            i <= targets@.len(),
            j <= rs@.len(),
            tk == string_views(timed_out@),
            rv == rs@.map_values(|r: Result<String, String>| text_view(r)),
            l0 + verify_lines(targets@, tk, rv) == lines_view(lines@) + verify_lines(targets@.skip(i as int), tk, rv.skip(j as int)),
        decreases targets@.len() - i,
    {
        let t = &targets[i];
        assert(targets@.skip(i as int)[0] == *t);
        assert(targets@.skip(i as int).drop_first() =~= targets@.skip(i + 1));
        let ghost before = lines_view(lines@);
        let late = crate::emu_panel::contains_key(timed_out.as_slice(), &t.key);
        if t.report_identity().is_none() {
            match final_cleanup_detail(t, late, &Err(String::new())) {
                Some(d) => push_line(lines, line(t.key.as_str(), "cleanup", d)),
                None => {},
            }
            assert(before + verify_lines(targets@.skip(i as int), tk, rv.skip(j as int))
                =~= lines_view(lines@) + verify_lines(targets@.skip(i + 1), tk, rv.skip(j as int)));
        } else if j < rs.len() {
            assert(rv.skip(j as int)[0] == text_view(rs@[j as int]));
            assert(rv.skip(j as int).drop_first() =~= rv.skip(j + 1));
            match final_cleanup_detail(t, late, &rs[j]) {
                Some(d) => push_line(lines, line(t.key.as_str(), "cleanup", d)),
                None => {},
            }
            assert(before + verify_lines(targets@.skip(i as int), tk, rv.skip(j as int))
                =~= lines_view(lines@) + verify_lines(targets@.skip(i + 1), tk, rv.skip(j + 1)));
            j += 1;
        } else {
            assert(rv.skip(j as int).len() == 0);
            assert(before + verify_lines(targets@.skip(i as int), tk, rv.skip(j as int))
                =~= lines_view(lines@) + verify_lines(targets@.skip(i + 1), tk, rv.skip(j as int)));
        }
        i += 1;
    }
    assert(targets@.skip(targets@.len() as int) =~= Seq::<SandboxStopTarget>::empty());
    assert(lines_view(lines@) + Seq::<LineV>::empty() =~= lines_view(lines@));
}

fn reported_targets(targets: &Vec<SandboxStopTarget>) -> (r: Vec<SandboxStopTarget>)
    ensures
        targets_view(r@) == targets_view(reported_of(targets@)),
{
    let mut r: Vec<SandboxStopTarget> = Vec::new();
    let mut i: usize = 0;
    while i < targets.len()
        invariant
            i <= targets@.len(),
            targets_view(r@) == targets_view(reported_of(targets@.take(i as int))),
        decreases targets@.len() - i,
    {
        assert(targets@.take(i + 1).drop_last() =~= targets@.take(i as int));
        assert(targets@.take(i + 1).last() == targets@[i as int]);
        let ghost before = targets_view(r@);
        if targets[i].report_identity().is_some() {
            r.push(copy_target(&targets[i]));
            assert(targets_view(r@) =~= before.push(target_view(targets@[i as int])));
            assert(targets_view(reported_of(targets@.take(i + 1))) =~= targets_view(reported_of(targets@.take(i as int))).push(
                target_view(targets@[i as int]),
            ));
        }
        i += 1;
    }
    assert(targets@.take(targets@.len() as int) =~= targets@);
    r
}

fn target_keys(targets: &Vec<SandboxStopTarget>) -> (r: Vec<String>)
    ensures
        string_views(r@) == keys_of(targets@),
{
    let mut r: Vec<String> = Vec::new();
    let mut i: usize = 0;
    while i < targets.len()
        invariant
            i <= targets@.len(),
            string_views(r@) == keys_of(targets@.take(i as int)),
        decreases targets@.len() - i,
    {
        let ghost before = string_views(r@);
        r.push(targets[i].key.clone());
        assert(string_views(r@) =~= before.push(targets@[i as int].key@));
        assert(keys_of(targets@.take(i + 1)) =~= keys_of(targets@.take(i as int)).push(targets@[i as int].key@));
        i += 1;
    }
    assert(targets@.take(targets@.len() as int) =~= targets@);
    r
}

/// Where a stop stands: the action it last asked for.
#[derive(Clone, Copy, PartialEq, Eq, Structural, Debug)]
pub enum StopPhase {
    Cancelling,
    StoppingCandidates,
    FirstWait,
    StoppingLanes,
    SecondWait,
    Coordinators,
    Verifying,
    Done,
}

/// A stop in progress: its phase, the runs it stops, and the keys of those
/// that outlived the first wait.
pub struct StopState {
    pub phase: StopPhase,
    pub targets: Vec<SandboxStopTarget>,
    pub timed_out: Vec<String>,
}

/// What the driver is asked to do next.
pub enum StopAction {
    /// Ask each run (key, report run id) to cancel; answer `Cancelled`, one
    /// outcome per request.
    Cancel(Vec<(String, String)>),
    /// Stop each candidate run by its key; answer `CandidatesStopped`.
    StopCandidates(Vec<String>),
    /// Wait, up to the grace period, for these runs to exit; answer `Waited`
    /// with the keys of those still running.
    Wait(Vec<String>),
    /// Stop each lane of these sessions exactly; answer `LanesStopped`.
    StopLanes(Vec<SandboxStopTarget>),
    /// Stop the coordinators of those of these runs that are still live and
    /// typed, where that is safe; answer `CoordinatorsStopped`.
    StopCoordinators(Vec<String>),
    /// Verify the cleanup of each of these runs; answer `Verified`, one
    /// outcome per run.
    Verify(Vec<SandboxStopTarget>),
    /// The stop is over.
    Finished,
}

/// What came of an action.
pub enum StopEvent {
    Cancelled(Vec<Result<(), String>>),
    CandidatesStopped(Vec<Result<(), String>>),
    Waited(Vec<String>),
    LanesStopped(Vec<LaneStops>),
    CoordinatorsStopped(Vec<(String, Result<String, String>)>),
    Verified(Vec<Result<String, String>>),
}

/// An action as plain values.
pub enum ActionV {
    Cancel(Seq<(Seq<char>, Seq<char>)>),
    StopCandidates(Seq<Seq<char>>),
    Wait(Seq<Seq<char>>),
    StopLanes(Seq<(Seq<char>, Option<(Seq<char>, crate::emu_panel::ReportKind)>, Option<Seq<char>>)>),
    StopCoordinators(Seq<Seq<char>>),
    Verify(Seq<(Seq<char>, Option<(Seq<char>, crate::emu_panel::ReportKind)>, Option<Seq<char>>)>),
    Finished,
}

/// An event as plain values.
pub enum EventV {
    Cancelled(Seq<Result<(), Seq<char>>>),
    CandidatesStopped(Seq<Result<(), Seq<char>>>),
    Waited(Seq<Seq<char>>),
    LanesStopped(Seq<LanesV>),
    CoordinatorsStopped(Seq<(Seq<char>, Result<Seq<char>, Seq<char>>)>),
    Verified(Seq<Result<Seq<char>, Seq<char>>>),
}

/// The plain values of an action.
pub open spec fn action_view(a: StopAction) -> ActionV {
    match a {
        StopAction::Cancel(v) => ActionV::Cancel(v@.map_values(|p: (String, String)| (p.0@, p.1@))),
        StopAction::StopCandidates(v) => ActionV::StopCandidates(string_views(v@)),
        StopAction::Wait(v) => ActionV::Wait(string_views(v@)),
        StopAction::StopLanes(v) => ActionV::StopLanes(targets_view(v@)),
        StopAction::StopCoordinators(v) => ActionV::StopCoordinators(string_views(v@)),
        StopAction::Verify(v) => ActionV::Verify(targets_view(v@)),
        StopAction::Finished => ActionV::Finished,
    }
}

/// The plain values of an event.
pub open spec fn event_view(e: StopEvent) -> EventV {
    match e {
        StopEvent::Cancelled(v) => EventV::Cancelled(v@.map_values(|r: Result<(), String>| unit_view(r))),
        StopEvent::CandidatesStopped(v) => EventV::CandidatesStopped(v@.map_values(|r: Result<(), String>| unit_view(r))),
        StopEvent::Waited(v) => EventV::Waited(string_views(v@)),
        StopEvent::LanesStopped(v) => EventV::LanesStopped(all_lanes_view(v@)),
        StopEvent::CoordinatorsStopped(v) => EventV::CoordinatorsStopped(
            v@.map_values(|p: (String, Result<String, String>)| (p.0@, text_view(p.1))),
        ),
        StopEvent::Verified(v) => EventV::Verified(v@.map_values(|r: Result<String, String>| text_view(r))),
    }
}

/// After the cancellations: stop the candidates when there are any, else
/// wait for every run.
pub open spec fn after_cancel(ts: Seq<SandboxStopTarget>) -> (StopPhase, ActionV) {
    if candidate_keys_of(ts).len() > 0 {
        (StopPhase::StoppingCandidates, ActionV::StopCandidates(candidate_keys_of(ts)))
    } else {
        (StopPhase::FirstWait, ActionV::Wait(keys_of(ts)))
    }
}

/// After the lane stops: a second wait for the runs with a report that
/// outlived the first, when there are any; else the coordinators.
pub open spec fn after_lanes(ts: Seq<SandboxStopTarget>, timed_out: Seq<Seq<char>>) -> (StopPhase, ActionV) {
    let f = followups_of(ts, timed_out);
    if f.len() > 0 {
        (StopPhase::SecondWait, ActionV::Wait(keys_of(f)))
    } else {
        (StopPhase::Coordinators, ActionV::StopCoordinators(keys_of(ts)))
    }
}

/// After the first wait: stop the lanes of the sessions that outlived it
/// one by one, when there are any; else go on as after the lane stops.
pub open spec fn after_first_wait(ts: Seq<SandboxStopTarget>, timed_out: Seq<Seq<char>>) -> (StopPhase, ActionV) {
    let e = escalations_of(ts, timed_out);
    if e.len() > 0 {
        (StopPhase::StoppingLanes, ActionV::StopLanes(targets_view(e)))
    } else {
        after_lanes(ts, timed_out)
    }
}

/// One step of a stop: the phase, the runs that outlived the first wait,
/// the next action and the lines written, from the phase and what came of
/// its action. An event that does not answer the phase's action changes
/// nothing and asks for nothing more.
pub open spec fn stop_next(
    phase: StopPhase,
    ts: Seq<SandboxStopTarget>,
    timed_out: Seq<Seq<char>>,
    ev: EventV,
) -> (StopPhase, Seq<Seq<char>>, ActionV, Seq<LineV>) {
    match (phase, ev) {
        (StopPhase::Cancelling, EventV::Cancelled(rs)) => {
            let (p, a) = after_cancel(ts);
            (p, timed_out, a, cancel_lines(cancellations_of(ts), rs))
        },
        (StopPhase::StoppingCandidates, EventV::CandidatesStopped(rs)) => {
            (StopPhase::FirstWait, timed_out, ActionV::Wait(keys_of(ts)), down_lines(candidate_keys_of(ts), rs))
        },
        (StopPhase::FirstWait, EventV::Waited(still)) => {
            let (p, a) = after_first_wait(ts, still);
            (p, still, a, seq![])
        },
        (StopPhase::StoppingLanes, EventV::LanesStopped(rs)) => {
            let (p, a) = after_lanes(ts, timed_out);
            (p, timed_out, a, refusal_lines(rs) + stop_result_lines(rs))
        },
        (StopPhase::SecondWait, EventV::Waited(_)) => {
            (StopPhase::Coordinators, timed_out, ActionV::StopCoordinators(keys_of(ts)), seq![])
        },
        (StopPhase::Coordinators, EventV::CoordinatorsStopped(rs)) => {
            (StopPhase::Verifying, timed_out, ActionV::Verify(targets_view(reported_of(ts))), coordinator_lines(rs))
        },
        (StopPhase::Verifying, EventV::Verified(rs)) => {
            (StopPhase::Done, timed_out, ActionV::Finished, verify_lines(ts, timed_out, rs))
        },
        _ => (phase, timed_out, ActionV::Finished, seq![]),
    }
}

proof fn lemma_same_keys(a: Seq<SandboxStopTarget>, b: Seq<SandboxStopTarget>)
    requires
        targets_view(a) == targets_view(b),
    ensures
        keys_of(a) == keys_of(b),
{
    assert(targets_view(a).len() == a.len() && targets_view(b).len() == b.len());
    assert forall|i: int| 0 <= i < a.len() implies keys_of(a)[i] == keys_of(b)[i] by {
        assert(targets_view(a)[i] == target_view(a[i]));
        assert(targets_view(b)[i] == target_view(b[i]));
    }
    assert(keys_of(a) =~= keys_of(b));
}

fn next_after_lanes(targets: &Vec<SandboxStopTarget>, timed_out: &Vec<String>) -> (r: (StopPhase, StopAction))
    ensures
        (r.0, action_view(r.1)) == after_lanes(targets@, string_views(timed_out@)),
{
    let f = bounded_followup_targets(targets.as_slice(), timed_out.as_slice());
    proof {
        let g = followups_of(targets@, string_views(timed_out@));
        assert(targets_view(f@).len() == f@.len() && targets_view(g).len() == g.len());
    }
    if f.len() > 0 {
        let keys = target_keys(&f);
        proof {
            lemma_same_keys(f@, followups_of(targets@, string_views(timed_out@)));
        }
        (StopPhase::SecondWait, StopAction::Wait(keys))
    } else {
        assert(targets_view(f@).len() == 0);
        (StopPhase::Coordinators, StopAction::StopCoordinators(target_keys(targets)))
    }
}

impl StopState {
    /// A stop of `targets`: it asks first for the cancellation of each run
    /// that owns a report.
    pub fn start(targets: Vec<SandboxStopTarget>) -> (r: (StopState, StopAction))
        ensures
            r.0.phase == StopPhase::Cancelling,
            r.0.targets == targets,
            r.0.timed_out@.len() == 0,
            action_view(r.1) == ActionV::Cancel(cancellations_of(targets@)),
    {
        let reqs = cancellation_requests(targets.as_slice());
        (StopState { phase: StopPhase::Cancelling, targets, timed_out: Vec::new() }, StopAction::Cancel(reqs))
    }

    /// Takes what came of the last action (see `stop_next`): returns the next
    /// action and the lines to write to the runs' logs.
    pub fn step(&mut self, ev: StopEvent) -> (r: (StopAction, Vec<StopLine>))
        ensures
            final(self).targets == old(self).targets,
            (final(self).phase, string_views(final(self).timed_out@), action_view(r.0), lines_view(r.1@))
                == stop_next(old(self).phase, old(self).targets@, string_views(old(self).timed_out@), event_view(ev)),
    {
        let mut lines: Vec<StopLine> = Vec::new();
        assert(lines_view(lines@) =~= Seq::<LineV>::empty());
        match (self.phase, ev) {
            (StopPhase::Cancelling, StopEvent::Cancelled(rs)) => {
                let reqs = cancellation_requests(self.targets.as_slice());
                push_cancel_lines(&mut lines, &reqs, &rs);
                let keys = candidate_stop_keys(self.targets.as_slice());
                assert(string_views(keys@).len() == keys@.len());
                if keys.len() > 0 {
                    self.phase = StopPhase::StoppingCandidates;
                    (StopAction::StopCandidates(keys), lines)
                } else {
                    self.phase = StopPhase::FirstWait;
                    (StopAction::Wait(target_keys(&self.targets)), lines)
                }
            },
            (StopPhase::StoppingCandidates, StopEvent::CandidatesStopped(rs)) => {
                let keys = candidate_stop_keys(self.targets.as_slice());
                push_down_lines(&mut lines, &keys, &rs);
                self.phase = StopPhase::FirstWait;
                (StopAction::Wait(target_keys(&self.targets)), lines)
            },
            (StopPhase::FirstWait, StopEvent::Waited(still)) => {
                self.timed_out = still;
                let e = lane_escalation_targets(self.targets.as_slice(), self.timed_out.as_slice());
                proof {
                    let g = escalations_of(self.targets@, string_views(self.timed_out@));
                    assert(targets_view(e@).len() == e@.len() && targets_view(g).len() == g.len());
                }
                if e.len() > 0 {
                    self.phase = StopPhase::StoppingLanes;
                    (StopAction::StopLanes(e), lines)
                } else {
                    assert(targets_view(e@).len() == 0);
                    let (p, a) = next_after_lanes(&self.targets, &self.timed_out);
                    self.phase = p;
                    (a, lines)
                }
            },
            (StopPhase::StoppingLanes, StopEvent::LanesStopped(rs)) => {
                push_lane_lines(&mut lines, &rs);
                let (p, a) = next_after_lanes(&self.targets, &self.timed_out);
                self.phase = p;
                (a, lines)
            },
            (StopPhase::SecondWait, StopEvent::Waited(_)) => {
                self.phase = StopPhase::Coordinators;
                (StopAction::StopCoordinators(target_keys(&self.targets)), lines)
            },
            (StopPhase::Coordinators, StopEvent::CoordinatorsStopped(rs)) => {
                push_coordinator_lines(&mut lines, &rs);
                self.phase = StopPhase::Verifying;
                (StopAction::Verify(reported_targets(&self.targets)), lines)
            },
            (StopPhase::Verifying, StopEvent::Verified(rs)) => {
                push_verify_lines(&mut lines, &self.targets, &self.timed_out, &rs);
                self.phase = StopPhase::Done;
                (StopAction::Finished, lines)
            },
            _ => (StopAction::Finished, lines),
        }
    }
}

} // verus!
