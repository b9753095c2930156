//! The sandboxes page: what stopping sandbox runs waits on, how run output is
//! shown, and the sandboxes' status on the dashboard.
use vstd::prelude::*;
use crate::draw::{piece_view, pieces_view, Piece, PieceV, Tone};
use crate::text::{
    chars_of, dec, push_char, push_str, starts_with, str_eq, to_owned_string, trim, trimmed,
    vec_starts_with,
};

verus! {

/// How a sandbox run was started.
#[derive(Clone, Debug)]
pub enum SandboxLaunch {
    /// An environment batch.
    Environment { batch_id: String },
    /// A flow fan-out.
    Flow { batch_id: String },
    /// A verified image import.
    ImageImport { run_id: String },
    /// A candidate image booted by hand.
    Candidate,
}

/// What kind of report a run writes.
#[derive(Clone, Copy, PartialEq, Eq, Structural, Debug)]
pub enum ReportKind {
    EnvironmentBatch,
    FlowFanout,
    ImageImport,
}

/// A sandbox run that a shutdown stops.
#[derive(Clone, Debug)]
pub struct SandboxStopTarget {
    /// The run's key in the page (its environment or candidate id).
    pub key: String,
    /// How it was started.
    pub launch: SandboxLaunch,
    /// Where its report is, when it writes one.
    pub report_path: Option<String>,
}

/// The id and kind of the report a launch writes; a candidate writes none.
pub open spec fn identity_of(launch: SandboxLaunch) -> Option<(Seq<char>, ReportKind)> {
    match launch {
        SandboxLaunch::Environment { batch_id } => Some((batch_id@, ReportKind::EnvironmentBatch)),
        SandboxLaunch::Flow { batch_id } => Some((batch_id@, ReportKind::FlowFanout)),
        SandboxLaunch::ImageImport { run_id } => Some((run_id@, ReportKind::ImageImport)),
        SandboxLaunch::Candidate => None,
    }
}

impl SandboxStopTarget {
    /// The id and kind of the report the run writes (see `identity_of`).
    pub fn report_identity(&self) -> (r: Option<(&str, ReportKind)>)
        ensures
            match r {
                Some((id, kind)) => identity_of(self.launch) == Some((id@, kind)),
                None => identity_of(self.launch) is None,
            },
    {
        match &self.launch {
            SandboxLaunch::Environment { batch_id } => Some((batch_id.as_str(), ReportKind::EnvironmentBatch)),
            SandboxLaunch::Flow { batch_id } => Some((batch_id.as_str(), ReportKind::FlowFanout)),
            SandboxLaunch::ImageImport { run_id } => Some((run_id.as_str(), ReportKind::ImageImport)),
            SandboxLaunch::Candidate => None,
        }
    }
}

/// The views of a list of strings.
pub open spec fn string_views(v: Seq<String>) -> Seq<Seq<char>> {
    v.map_values(|s: String| s@)
}

/// The targets that get a second, bounded wait: those that timed out and
/// write a report to wait on, in order.
pub open spec fn followups_of(targets: Seq<SandboxStopTarget>, timed_out: Seq<Seq<char>>) -> Seq<SandboxStopTarget>
    decreases targets.len(),
{
    if targets.len() == 0 {
        Seq::empty()
    } else {
        let rest = followups_of(targets.drop_last(), timed_out);
        let t = targets.last();
        if timed_out.contains(t.key@) && identity_of(t.launch) is Some {
            rest.push(t)
        } else {
            rest
        }
    }
}

/// The plain values of a stop target: key, report identity, report path.
pub open spec fn target_view(t: SandboxStopTarget) -> (Seq<char>, Option<(Seq<char>, ReportKind)>, Option<Seq<char>>) {
    (t.key@, identity_of(t.launch), match t.report_path {
        Some(p) => Some(p@),
        None => None,
    })
}

/// The plain values of a list of stop targets.
pub open spec fn targets_view(ts: Seq<SandboxStopTarget>) -> Seq<(Seq<char>, Option<(Seq<char>, ReportKind)>, Option<Seq<char>>)> {
    ts.map_values(|t: SandboxStopTarget| target_view(t))
}

pub(crate) fn copy_target(t: &SandboxStopTarget) -> (r: SandboxStopTarget)
    ensures
        target_view(r) == target_view(*t),
{
    SandboxStopTarget {
        key: t.key.clone(),
        launch: match &t.launch {
            SandboxLaunch::Environment { batch_id } => SandboxLaunch::Environment { batch_id: batch_id.clone() },
            SandboxLaunch::Flow { batch_id } => SandboxLaunch::Flow { batch_id: batch_id.clone() },
            SandboxLaunch::ImageImport { run_id } => SandboxLaunch::ImageImport { run_id: run_id.clone() },
            SandboxLaunch::Candidate => SandboxLaunch::Candidate,
        },
        report_path: match &t.report_path {
            Some(p) => Some(p.clone()),
            None => None,
        },
    }
}

pub(crate) fn contains_key(keys: &[String], key: &String) -> (r: bool)
    ensures
        r == string_views(keys@).contains(key@),
{
    let mut i: usize = 0;
    while i < keys.len()
        invariant
            i <= keys@.len(),
            forall|k: int| 0 <= k < i ==> keys@[k]@ != key@,
        decreases keys.len() - i,
    {
        if str_eq(keys[i].as_str(), key.as_str()) {
            assert(string_views(keys@)[i as int] == key@);
            return true;
        }
        i += 1;
    }
    assert(!string_views(keys@).contains(key@)) by {
        if string_views(keys@).contains(key@) {
            let k = choose|k: int| 0 <= k < string_views(keys@).len() && string_views(keys@)[k] == key@;
            assert(keys@[k]@ == key@);
        }
    }
    false
}

/// The targets that get a second, bounded wait (see `followups_of`).
pub fn bounded_followup_targets(targets: &[SandboxStopTarget], timed_out: &[String]) -> (r: Vec<SandboxStopTarget>)
    ensures
        targets_view(r@) == targets_view(followups_of(targets@, string_views(timed_out@))),
{
    let ghost tk = string_views(timed_out@);
    let mut r: Vec<SandboxStopTarget> = Vec::new();
    let mut i: usize = 0;
    while i < targets.len()
        invariant
            i <= targets@.len(),
            tk == string_views(timed_out@),
            targets_view(r@) == targets_view(followups_of(targets@.take(i as int), tk)),
        decreases targets.len() - i,
    {
        let t = &targets[i];
        let ghost before = targets_view(r@);
        proof {
            let s = targets@.take(i + 1);
            assert(s.drop_last() =~= targets@.take(i as int));
            assert(s.last() == *t);
        }
        if contains_key(timed_out, &t.key) && t.report_identity().is_some() {
            r.push(copy_target(t));
            assert(targets_view(r@) =~= before.push(target_view(*t)));
            assert(targets_view(followups_of(targets@.take(i + 1), tk)) =~= targets_view(followups_of(targets@.take(i as int), tk)).push(target_view(*t)));
        }
        i += 1;
    }
    assert(targets@.take(targets@.len() as int) =~= targets@);
    r
}

impl ReportKind {
    /// Whether the report belongs to a session that coordinates lanes (an
    /// environment batch or a flow fan-out); an image import is itself a lane.
    pub fn is_session(self) -> (r: bool)
        ensures
            r == (self is EnvironmentBatch || self is FlowFanout),
    {
        match self {
            ReportKind::EnvironmentBatch | ReportKind::FlowFanout => true,
            ReportKind::ImageImport => false,
        }
    }
}

/// The targets whose lanes are stopped one by one after the first wait: those
/// that timed out and own a session report, in order.
pub open spec fn escalations_of(targets: Seq<SandboxStopTarget>, timed_out: Seq<Seq<char>>) -> Seq<SandboxStopTarget>
    decreases targets.len(),
{
    if targets.len() == 0 {
        Seq::empty()
    } else {
        let rest = escalations_of(targets.drop_last(), timed_out);
        let t = targets.last();
        if timed_out.contains(t.key@) && (identity_of(t.launch) matches Some((_, kind)) && (kind is EnvironmentBatch
            || kind is FlowFanout)) {
            rest.push(t)
        } else {
            rest
        }
    }
}

/// The targets whose lanes are stopped one by one (see `escalations_of`).
pub fn lane_escalation_targets(targets: &[SandboxStopTarget], timed_out: &[String]) -> (r: Vec<SandboxStopTarget>)
    ensures
        targets_view(r@) == targets_view(escalations_of(targets@, string_views(timed_out@))),
{
    let ghost tk = string_views(timed_out@);
    let mut r: Vec<SandboxStopTarget> = Vec::new();
    let mut i: usize = 0;
    while i < targets.len()
        invariant
            i <= targets@.len(),
            tk == string_views(timed_out@),
            targets_view(r@) == targets_view(escalations_of(targets@.take(i as int), tk)),
        decreases targets.len() - i,
    {
        let t = &targets[i];
        let ghost before = targets_view(r@);
        proof {
            let s = targets@.take(i + 1);
            assert(s.drop_last() =~= targets@.take(i as int));
            assert(s.last() == *t);
        }
        let session = match t.report_identity() {
            Some((_, kind)) => kind.is_session(),
            None => false,
        };
        if contains_key(timed_out, &t.key) && session {
            r.push(copy_target(t));
            assert(targets_view(r@) =~= before.push(target_view(*t)));
            assert(targets_view(escalations_of(targets@.take(i + 1), tk)) =~= targets_view(
                escalations_of(targets@.take(i as int), tk),
            ).push(target_view(*t)));
        }
        i += 1;
    }
    assert(targets@.take(targets@.len() as int) =~= targets@);
    r
}

/// The keys of the targets started by hand from a candidate image, in order.
pub open spec fn candidate_keys_of(targets: Seq<SandboxStopTarget>) -> Seq<Seq<char>>
    decreases targets.len(),
{
    if targets.len() == 0 {
        Seq::empty()
    } else {
        let rest = candidate_keys_of(targets.drop_last());
        if targets.last().launch is Candidate {
            rest.push(targets.last().key@)
        } else {
            rest
        }
    }
}

/// The keys of the candidate runs, which are stopped with `emu down` (see
/// `candidate_keys_of`).
pub fn candidate_stop_keys(targets: &[SandboxStopTarget]) -> (r: Vec<String>)
    ensures
        string_views(r@) == candidate_keys_of(targets@),
{
    let mut r: Vec<String> = Vec::new();
    let mut i: usize = 0;
    while i < targets.len()
        invariant
            i <= targets@.len(),
            string_views(r@) == candidate_keys_of(targets@.take(i as int)),
        decreases targets.len() - i,
    {
        proof {
            let s = targets@.take(i + 1);
            assert(s.drop_last() =~= targets@.take(i as int));
            assert(s.last() == targets@[i as int]);
        }
        let ghost before = string_views(r@);
        if let SandboxLaunch::Candidate = targets[i].launch {
            r.push(targets[i].key.clone());
            assert(string_views(r@) =~= before.push(targets@[i as int].key@));
        }
        i += 1;
    }
    assert(targets@.take(targets@.len() as int) =~= targets@);
    r
}

/// The runs that get a cancellation request: each target that owns a report,
/// with the report's run id, in order.
pub open spec fn cancellations_of(targets: Seq<SandboxStopTarget>) -> Seq<(Seq<char>, Seq<char>)>
    decreases targets.len(),
{
    if targets.len() == 0 {
        Seq::empty()
    } else {
        let rest = cancellations_of(targets.drop_last());
        match identity_of(targets.last().launch) {
            Some((run_id, _)) => rest.push((targets.last().key@, run_id)),
            None => rest,
        }
    }
}

/// The key and run id of each run that gets a cancellation request (see
/// `cancellations_of`).
pub fn cancellation_requests(targets: &[SandboxStopTarget]) -> (r: Vec<(String, String)>)
    ensures
        r@.map_values(|p: (String, String)| (p.0@, p.1@)) == cancellations_of(targets@),
{
    let mut r: Vec<(String, String)> = Vec::new();
    let mut i: usize = 0;
    while i < targets.len()
        invariant
            i <= targets@.len(),
            r@.map_values(|p: (String, String)| (p.0@, p.1@)) == cancellations_of(targets@.take(i as int)),
        decreases targets.len() - i,
    {
        proof {
            let s = targets@.take(i + 1);
            assert(s.drop_last() =~= targets@.take(i as int));
            assert(s.last() == targets@[i as int]);
        }
        let ghost before = r@.map_values(|p: (String, String)| (p.0@, p.1@));
        match targets[i].report_identity() {
            Some((run_id, _)) => {
                r.push((targets[i].key.clone(), to_owned_string(run_id)));
                assert(r@.map_values(|p: (String, String)| (p.0@, p.1@)) =~= before.push(
                    (targets@[i as int].key@, run_id@),
                ));
            },
            None => {},
        }
        i += 1;
    }
    assert(targets@.take(targets@.len() as int) =~= targets@);
    r
}

fn outcome_detail(ok: &str, subject: &str, err_prefix: &str, err_infix: &str, result: &Result<(), String>) -> (r: String)
    ensures
        r@ == match result {
            Ok(_) => ok@ + subject@,
            Err(e) => err_prefix@ + subject@ + err_infix@ + e@,
        },
{
    match result {
        Ok(_) => {
            let mut r = to_owned_string(ok);
            push_str(&mut r, subject);
            r
        },
        Err(e) => {
            let mut r = to_owned_string(err_prefix);
            push_str(&mut r, subject);
            push_str(&mut r, err_infix);
            push_str(&mut r, e.as_str());
            r
        },
    }
}

/// The `cancel` line of a cancellation request.
pub fn cancel_detail(run_id: &str, result: &Result<(), String>) -> (r: String)
    ensures
        r@ == match result {
            Ok(_) => "requested for "@ + run_id@,
            Err(e) => "request failed for "@ + run_id@ + ": "@ + e@,
        },
{
    outcome_detail("requested for ", run_id, "request failed for ", ": ", result)
}

/// The `down` line of a candidate's shutdown.
pub fn candidate_down_detail(id: &str, result: &Result<(), String>) -> (r: String)
    ensures
        r@ == match result {
            Ok(_) => "sent to "@ + id@,
            Err(e) => "could not stop "@ + id@ + ": "@ + e@,
        },
{
    outcome_detail("sent to ", id, "could not stop ", ": ", result)
}

/// The `cleanup` line of one lane's verified stop.
pub fn lane_stop_detail(run_id: &str, result: &Result<(), String>) -> (r: String)
    ensures
        r@ == match result {
            Ok(_) => "verified stop sent to "@ + run_id@,
            Err(e) => run_id@ + " stop failed: "@ + e@,
        },
{
    match result {
        Ok(_) => {
            let mut r = to_owned_string("verified stop sent to ");
            push_str(&mut r, run_id);
            r
        },
        Err(e) => {
            let mut r = to_owned_string(run_id);
            push_str(&mut r, " stop failed: ");
            push_str(&mut r, e.as_str());
            r
        },
    }
}

/// The `cleanup` line when a session's lanes cannot be stopped one by one.
pub fn escalation_refused_detail(error: &str) -> (r: String)
    ensures
        r@ == "lane escalation refused: "@ + error@,
{
    let mut r = to_owned_string("lane escalation refused: ");
    push_str(&mut r, error);
    r
}

/// The `coordinator` line of a coordinator's escalation: why it was stopped,
/// or why it was kept.
pub fn coordinator_detail(result: &Result<String, String>) -> (r: String)
    ensures
        r@ == match result {
            Ok(reason) => "owned coordinator stopped because "@ + reason@,
            Err(e) => "coordinator retained: "@ + e@,
        },
{
    match result {
        Ok(reason) => {
            let mut r = to_owned_string("owned coordinator stopped because ");
            push_str(&mut r, reason.as_str());
            r
        },
        Err(e) => {
            let mut r = to_owned_string("coordinator retained: ");
            push_str(&mut r, e.as_str());
            r
        },
    }
}

/// The last `cleanup` line of a stopped target. A target without a report
/// gets one only when it outlived the waits; one with a report gets the
/// outcome of verifying its cleanup (`verification`: the report's path, or
/// why it could not be verified).
pub open spec fn final_cleanup_of(has_report: bool, timed_out: bool, verification: Result<Seq<char>, Seq<char>>) -> Option<
    Seq<char>,
> {
    if !has_report {
        if timed_out {
            Some("coordinator remains live and was not killed without guest-exit proof"@)
        } else {
            None
        }
    } else {
        match verification {
            Ok(path) => Some("verified by "@ + path),
            Err(e) => Some("unverified: "@ + e + "; durable owner and report remain for recovery"@),
        }
    }
}

/// The last `cleanup` line of a stopped target (see `final_cleanup_of`).
pub fn final_cleanup_detail(target: &SandboxStopTarget, timed_out: bool, verification: &Result<String, String>) -> (r:
    Option<String>)
    ensures
        match r {
            Some(s) => final_cleanup_of(identity_of(target.launch) is Some, timed_out, match verification {
                Ok(p) => Ok(p@),
                Err(e) => Err(e@),
            }) == Some(s@),
            None => final_cleanup_of(identity_of(target.launch) is Some, timed_out, match verification {
                Ok(p) => Ok(p@),
                Err(e) => Err(e@),
            }) is None,
        },
{
    if target.report_identity().is_none() {
        if timed_out {
            return Some(to_owned_string("coordinator remains live and was not killed without guest-exit proof"));
        }
        return None;
    }
    match verification {
        Ok(path) => {
            let mut r = to_owned_string("verified by ");
            push_str(&mut r, path.as_str());
            Some(r)
        },
        Err(e) => {
            let mut r = to_owned_string("unverified: ");
            push_str(&mut r, e.as_str());
            push_str(&mut r, "; durable owner and report remain for recovery");
            Some(r)
        },
    }
}

/// A line of a run's log as the page writes it: two spaces, the verb padded
/// to nine characters, then the detail.
pub open spec fn run_line_of(verb: Seq<char>, detail: Seq<char>) -> Seq<char> {
    "  "@ + crate::draw::pad_to(verb, 9) + detail
}

/// A line of a run's log (see `run_line_of`).
pub fn emu_run_line(verb: &str, detail: &str) -> (r: String)
    ensures
        r@ == run_line_of(verb@, detail@),
{
    let mut r = to_owned_string("  ");
    push_str(&mut r, verb);
    let n = chars_of(verb).len();
    let mut k = n;
    while k < 9
        invariant
            n == verb@.len(),
            n <= k <= 9 || (k == n && n >= 9),
            r@ == "  "@ + verb@ + Seq::new((k - n) as nat, |i: int| ' '),
        decreases 9 - k,
    {
        push_char(&mut r, ' ');
        assert(r@ =~= "  "@ + verb@ + Seq::new((k + 1 - n) as nat, |i: int| ' '));
        k += 1;
    }
    assert(verb@ + Seq::new((k - n) as nat, |i: int| ' ') =~= crate::draw::pad_to(verb@, 9));
    assert(r@ =~= "  "@ + crate::draw::pad_to(verb@, 9));
    push_str(&mut r, detail);
    r
}

/// A line of sandbox output worth keeping: not blank, and not the tools'
/// own banner (`qol emu`, `qol env`, `qol flow`) or a `hint:`.
pub open spec fn kept_line(line: Seq<char>) -> bool {
    let t = trim(line);
    !(t.len() == 0 || starts_with(t, "qol emu"@) || starts_with(t, "qol env"@) || starts_with(t, "qol flow"@)
        || starts_with(t, "hint:"@))
}

/// Whether a line of sandbox output is kept (see `kept_line`).
pub fn keep_emu_line(line: &str) -> (r: bool)
    ensures
        r == kept_line(line@),
{
    let t = trimmed(&chars_of(line));
    !(t.len() == 0 || vec_starts_with(&t, &chars_of("qol emu")) || vec_starts_with(&t, &chars_of("qol env"))
        || vec_starts_with(&t, &chars_of("qol flow")) || vec_starts_with(&t, &chars_of("hint:")))
}

/// Where a flow writes its report, as path components under the run root:
/// `flows/<batch>/report.json`.
pub fn flow_report_path(batch_id: &str) -> (r: Vec<String>)
    ensures
        string_views(r@) == seq!["flows"@, batch_id@, "report.json"@],
{
    let mut r: Vec<String> = Vec::new();
    r.push(to_owned_string("flows"));
    r.push(to_owned_string(batch_id));
    r.push(to_owned_string("report.json"));
    assert(string_views(r@) =~= seq!["flows"@, batch_id@, "report.json"@]);
    r
}

/// What inspecting an associated image's path found.
#[derive(Clone, Debug)]
pub enum PathInspection {
    /// The path exists; whether it is a regular file (not following links).
    Found { regular_file: bool },
    /// Nothing is there.
    Missing,
    /// It could not be inspected, for this reason.
    Failed(String),
}

/// Whether an associated image is a regular file: a missing path is not, and
/// an inspection that failed is reported with the path.
pub fn is_regular_image(path: &str, inspection: PathInspection) -> (r: Result<bool, String>)
    ensures
        match inspection {
            PathInspection::Found { regular_file } => r == Ok::<bool, String>(regular_file),
            PathInspection::Missing => r == Ok::<bool, String>(false),
            PathInspection::Failed(e) => r matches Err(m) && m@ == "failed to inspect associated image "@ + path@ + ": "@ + e@,
        },
{
    match inspection {
        PathInspection::Found { regular_file } => Ok(regular_file),
        PathInspection::Missing => Ok(false),
        PathInspection::Failed(e) => {
            let mut m = to_owned_string("failed to inspect associated image ");
            push_str(&mut m, path);
            push_str(&mut m, ": ");
            push_str(&mut m, e.as_str());
            Err(m)
        },
    }
}

} // verus!

verus! {

/// Whether an environment can run.
#[derive(Clone, Copy, PartialEq, Eq, Structural, Debug)]
pub enum ResolutionState {
    Ready,
    Missing,
    Unsupported,
}

/// The tone of an environment's state: the accent when it can run, yellow
/// when its image is missing, red when it is unsupported.
pub open spec fn state_color_of(state: ResolutionState) -> Tone {
    match state {
        ResolutionState::Ready => Tone::Accent,
        ResolutionState::Missing => Tone::Yellow,
        ResolutionState::Unsupported => Tone::Red,
    }
}

/// The tone of an environment's state (see `state_color_of`).
pub fn state_color(state: ResolutionState) -> (t: Tone)
    ensures
        t == state_color_of(state),
{
    match state {
        ResolutionState::Ready => Tone::Accent,
        ResolutionState::Missing => Tone::Yellow,
        ResolutionState::Unsupported => Tone::Red,
    }
}

/// What the dashboard reads of one environment.
#[derive(Clone, Copy, PartialEq, Eq, Structural, Debug)]
pub struct EnvironmentSummary {
    /// Whether it can run.
    pub state: ResolutionState,
    /// Its lanes running now.
    pub live_lanes: u64,
    /// Its runs that need attention.
    pub attention_runs: u64,
}

/// What the dashboard reads of the sandbox inventory.
#[derive(Clone, Debug)]
pub struct InventorySummary {
    /// One entry per environment.
    pub environments: Vec<EnvironmentSummary>,
    /// Runs of no environment.
    pub unassigned_runs: u64,
    /// Runs of no environment that need attention.
    pub unassigned_attention: u64,

    /// Problems of the registry itself.
    pub issues: u64,
}

/// The sandbox probe's state.
#[derive(Clone, Debug)]
pub enum EmuState {
    /// The first probe is running.
    Probing,
    /// The inventory the last probe read.
    Done(InventorySummary),
    /// Why the probe failed.
    Failed(String),
}

/// How many environments are in state `st`.
pub open spec fn state_count(envs: Seq<EnvironmentSummary>, st: ResolutionState) -> nat
    decreases envs.len(),
{
    if envs.len() == 0 {
        0
    } else {
        state_count(envs.drop_last(), st) + if envs.last().state == st { 1nat } else { 0nat }
    }
}

/// The environments' live lanes, added up.
pub open spec fn live_total(envs: Seq<EnvironmentSummary>) -> nat
    decreases envs.len(),
{
    if envs.len() == 0 {
        0
    } else {
        live_total(envs.drop_last()) + envs.last().live_lanes as nat
    }
}

/// The environments' runs that need attention, added up.
pub open spec fn attention_total(envs: Seq<EnvironmentSummary>) -> nat
    decreases envs.len(),
{
    if envs.len() == 0 {
        0
    } else {
        attention_total(envs.drop_last()) + envs.last().attention_runs as nat
    }
}

/// The dashboard's sandbox status: scanning, a registry error, no sandboxes;
/// else what needs attention (with the active lanes), the active lanes, how
/// many are ready, or how many are missing and unsupported (red when none can
/// run); each but the error followed by ` · → open`.
pub open spec fn emu_status_of(state: EmuState) -> (Tone, Seq<PieceV>) {
    let open = (" · → open"@, Tone::DarkGray, false);
    match state {
        EmuState::Probing => (Tone::Yellow, seq![("scanning"@, Tone::Yellow, true), open]),
        EmuState::Failed(e) => (Tone::Red, seq![("registry error"@, Tone::Red, true), (" · "@ + e@, Tone::DarkGray, false)]),
        EmuState::Done(inv) => {
            let envs = inv.environments@;
            let n = envs.len();
            if n == 0 {
                (Tone::Yellow, seq![("no sandboxes"@, Tone::Yellow, true), open])
            } else {
                let ready = state_count(envs, ResolutionState::Ready);
                let missing = state_count(envs, ResolutionState::Missing);
                let unsupported = state_count(envs, ResolutionState::Unsupported);
                let active = live_total(envs);
                let attention = attention_total(envs) + inv.unassigned_attention as nat + inv.issues as nat;
                if attention > 0 {
                    let summary = if active == 0 {
                        dec(attention) + " flagged"@
                    } else {
                        dec(active) + " active · "@ + dec(attention) + " flagged"@
                    };
                    (Tone::Yellow, seq![(summary, Tone::Yellow, true), open])
                } else if active > 0 {
                    (Tone::Yellow, seq![(dec(active) + " active"@, Tone::Yellow, true), open])
                } else if ready > 0 {
                    (Tone::Accent, seq![(dec(n) + " envs · "@ + dec(ready) + " ready"@, Tone::Accent, true), open])
                } else {
                    let tone = if unsupported == n { Tone::Red } else { Tone::Yellow };
                    (tone, seq![
                        (dec(n) + " envs · "@ + dec(missing) + " missing · "@ + dec(unsupported) + " unsupported"@, tone, true),
                        open,
                    ])
                }
            }
        },
    }
}

proof fn lemma_state_counts(envs: Seq<EnvironmentSummary>)
    ensures
        state_count(envs, ResolutionState::Ready) + state_count(envs, ResolutionState::Missing) + state_count(
            envs,
            ResolutionState::Unsupported,
        ) == envs.len(),
    decreases envs.len(),
{
    if envs.len() > 0 {
        lemma_state_counts(envs.drop_last());
    }
}

fn open_piece() -> (p: Piece)
    ensures
        piece_view(p) == (" · → open"@, Tone::DarkGray, false),
{
    Piece { text: to_owned_string(" · → open"), tone: Tone::DarkGray, bold: false }
}

fn status_pair(summary: String, tone: Tone) -> (r: Vec<Piece>)
    ensures
        pieces_view(r@) == seq![(summary@, tone, true), (" · → open"@, Tone::DarkGray, false)],
{
    let mut r: Vec<Piece> = Vec::new();
    r.push(Piece { text: summary, tone, bold: true });
    r.push(open_piece());
    assert(pieces_view(r@) =~= seq![(summary@, tone, true), (" · → open"@, Tone::DarkGray, false)]);
    r
}

fn num(n: u64) -> (s: String)
    ensures
        s@ == dec(n as nat),
{
    crate::text::u64_to_string(n)
}

/// The dashboard's sandbox status (see `emu_status_of`); the lane and
/// attention totals must fit in a `u64`.
pub fn emu_status(state: &EmuState) -> (r: (Tone, Vec<Piece>))
    requires
        state matches EmuState::Done(inv) ==> live_total(inv.environments@) <= u64::MAX && attention_total(
            inv.environments@,
        ) + inv.unassigned_attention + inv.issues <= u64::MAX,
    ensures
        (r.0, pieces_view(r.1@)) == emu_status_of(*state),
{
    let inv = match state {
        EmuState::Probing => return (Tone::Yellow, status_pair(to_owned_string("scanning"), Tone::Yellow)),
        EmuState::Failed(e) => {
            let mut r: Vec<Piece> = Vec::new();
            r.push(Piece { text: to_owned_string("registry error"), tone: Tone::Red, bold: true });
            let mut t = to_owned_string(" · ");
            push_str(&mut t, e.as_str());
            r.push(Piece { text: t, tone: Tone::DarkGray, bold: false });
            assert(pieces_view(r@) =~= emu_status_of(*state).1);
            return (Tone::Red, r);
        },
        EmuState::Done(inv) => inv,
    };
    let envs = &inv.environments;
    let n = envs.len();
    if n == 0 {
        return (Tone::Yellow, status_pair(to_owned_string("no sandboxes"), Tone::Yellow));
    }
    let ghost ev = envs@;
    let mut ready: u64 = 0;
    let mut missing: u64 = 0;
    let mut unsupported: u64 = 0;
    let mut active: u64 = 0;
    let mut attention: u64 = 0;
    let mut i: usize = 0;
    while i < n
        invariant
            i <= n == ev.len(),
            ev == envs@,
            live_total(ev) <= u64::MAX,
            attention_total(ev) + inv.unassigned_attention + inv.issues <= u64::MAX,
            ready == state_count(ev.take(i as int), ResolutionState::Ready),
            missing == state_count(ev.take(i as int), ResolutionState::Missing),
            unsupported == state_count(ev.take(i as int), ResolutionState::Unsupported),
            active == live_total(ev.take(i as int)),
            attention == attention_total(ev.take(i as int)),
            i <= usize::MAX,
        decreases n - i,
    {
        let e = envs[i];
        proof {
            let t = ev.take(i + 1);
            assert(t.drop_last() =~= ev.take(i as int));
            assert(t.last() == e);
            lemma_prefix_totals(ev, i + 1);
            lemma_state_counts(ev.take(i as int));
        }
        match e.state {
            ResolutionState::Ready => ready = ready + 1,
            ResolutionState::Missing => missing = missing + 1,
            ResolutionState::Unsupported => unsupported = unsupported + 1,
        }
        active = active + e.live_lanes;
        attention = attention + e.attention_runs;
        i += 1;
    }
    assert(ev.take(n as int) =~= ev);
    let attention = attention + inv.unassigned_attention + inv.issues;
    if attention > 0 {
        let summary = if active == 0 {
            let mut s = num(attention);
            push_str(&mut s, " flagged");
            s
        } else {
            let mut s = num(active);
            push_str(&mut s, " active · ");
            let a = num(attention);
            push_str(&mut s, a.as_str());
            push_str(&mut s, " flagged");
            s
        };
        return (Tone::Yellow, status_pair(summary, Tone::Yellow));
    }
    if active > 0 {
        let mut s = num(active);
        push_str(&mut s, " active");
        return (Tone::Yellow, status_pair(s, Tone::Yellow));
    }
    if ready > 0 {
        let mut s = num(n as u64);
        push_str(&mut s, " envs · ");
        let k = num(ready);
        push_str(&mut s, k.as_str());
        push_str(&mut s, " ready");
        return (Tone::Accent, status_pair(s, Tone::Accent));
    }
    let tone = if unsupported == n as u64 { Tone::Red } else { Tone::Yellow };
    let mut s = num(n as u64);
    push_str(&mut s, " envs · ");
    let m = num(missing);
    push_str(&mut s, m.as_str());
    push_str(&mut s, " missing · ");
    let u = num(unsupported);
    push_str(&mut s, u.as_str());
    push_str(&mut s, " unsupported");
    (tone, status_pair(s, tone))
}

proof fn lemma_prefix_totals(envs: Seq<EnvironmentSummary>, k: int)
    requires
        0 <= k <= envs.len(),
    ensures
        live_total(envs.take(k)) <= live_total(envs),
        attention_total(envs.take(k)) <= attention_total(envs),
    decreases envs.len() - k,
{
    if k < envs.len() {
        lemma_prefix_totals(envs, k + 1);
        assert(envs.take(k + 1).drop_last() =~= envs.take(k));
    } else {
        assert(envs.take(k) =~= envs);
    }
}

} // verus!
