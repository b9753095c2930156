//! The decisions of a reload: which worktree the successor runs, the
//! prebuild's arguments, why a failed prebuild failed, and the shadow
//! generation's crash tail.
use std::collections::VecDeque;
use vstd::prelude::*;
use crate::dash::{is_coded_error, is_summary_error, opt_seq, progress_payload, ReloadProgress};
use crate::ansi::ansi_plain;
use crate::workspace::exe_file_name;
use crate::dev_shutdown::{daemon_list_text, daemon_views, format_daemon_pids, DaemonV, TrackedDaemonPid};
use crate::text::{is_ws, push_char, push_str, to_owned_string, trim};

verus! {

/// How many shadow-generation lines a crash report keeps.
pub const CRASH_TAIL: usize = 40;

/// Which worktree the console wants the tray to run.
#[derive(Clone, Debug)]
pub enum WorktreeSelection {
    /// Whatever the active-worktree marker names.
    Follow,
    /// A pinned worktree: a branch, or `None` for the base checkout.
    Pin(Option<String>),
}

/// The marker a handoff commits: a follower keeps the prior marker, a pin
/// writes its own target.
pub fn desired_marker(selection: &WorktreeSelection, prior: Option<String>) -> (r: Option<String>)
    ensures
        opt_seq(r) == match selection {
            WorktreeSelection::Follow => opt_seq(prior),
            WorktreeSelection::Pin(target) => opt_seq(*target),
        },
{
    match selection {
        WorktreeSelection::Follow => prior,
        WorktreeSelection::Pin(target) => target.clone(),
    }
}

/// What the prebuild is told to build.
#[derive(Clone, Debug)]
pub enum ReloadTargetArg {
    /// Nothing: it reads the active-worktree marker.
    Passthrough,
    /// The base checkout, explicitly.
    Base,
    /// This branch's worktree.
    Branch(String),
}

/// The prebuild target for a selection.
pub fn reload_target_arg(selection: &WorktreeSelection) -> (r: ReloadTargetArg)
    ensures
        match selection {
            WorktreeSelection::Follow => r is Passthrough,
            WorktreeSelection::Pin(None) => r is Base,
            WorktreeSelection::Pin(Some(b)) => r matches ReloadTargetArg::Branch(x) && x@ == b@,
        },
{
    match selection {
        WorktreeSelection::Follow => ReloadTargetArg::Passthrough,
        WorktreeSelection::Pin(None) => ReloadTargetArg::Base,
        WorktreeSelection::Pin(Some(branch)) => ReloadTargetArg::Branch(branch.clone()),
    }
}

/// The prebuild's arguments after its command word: `-v` when verbose, `-n`
/// when plugins are skipped, then the target (`base_arg` for the base checkout).
pub open spec fn prebuild_args(verbose: bool, skip_plugins: bool, target: ReloadTargetArg, base_arg: Seq<char>) -> Seq<Seq<char>> {
    let flags = (if verbose { seq!["-v"@] } else { Seq::<Seq<char>>::empty() }) + (if skip_plugins {
        seq!["-n"@]
    } else {
        Seq::<Seq<char>>::empty()
    });
    match target {
        ReloadTargetArg::Passthrough => flags,
        ReloadTargetArg::Base => flags.push(base_arg),
        ReloadTargetArg::Branch(b) => flags.push(b@),
    }
}

/// The views of a vector of strings.
pub open spec fn string_views(v: Seq<String>) -> Seq<Seq<char>> {
    v.map_values(|s: String| s@)
}

/// The prebuild's arguments (see `prebuild_args`); the flags come from the
/// console's own command line, the target from the worktree selection.
pub fn reload_prebuild_args(verbose: bool, skip_plugins: bool, target: ReloadTargetArg, base_arg: &str) -> (r: Vec<String>)
    ensures
        string_views(r@) == prebuild_args(verbose, skip_plugins, target, base_arg@),
{
    let mut args: Vec<String> = Vec::new();
    if verbose {
        args.push(to_owned_string("-v"));
    }
    if skip_plugins {
        args.push(to_owned_string("-n"));
    }
    let ghost flags = string_views(args@);
    match target {
        ReloadTargetArg::Base => args.push(to_owned_string(base_arg)),
        ReloadTargetArg::Branch(branch) => args.push(branch),
        ReloadTargetArg::Passthrough => {},
    }
    proof {
        let f = (if verbose { seq!["-v"@] } else { Seq::<Seq<char>>::empty() }) + (if skip_plugins {
            seq!["-n"@]
        } else {
            Seq::<Seq<char>>::empty()
        });
        assert(flags =~= f);
        assert(string_views(args@) =~= prebuild_args(verbose, skip_plugins, target, base_arg@));
    }
    args
}

/// Why a prebuild failed: its first coded diagnostic, else its last
/// compile-level error, else its exit status.
pub fn reload_failure_reason(status: &str, activity: &ReloadProgress) -> (r: String)
    ensures
        r@ == match opt_seq(activity.coded_error) {
            Some(c) => c,
            None => match opt_seq(activity.summary_error) {
                Some(s) => s,
                None => status@,
            },
        },
{
    match &activity.coded_error {
        Some(c) => c.clone(),
        None => match &activity.summary_error {
            Some(s) => s.clone(),
            None => to_owned_string(status),
        },
    }
}

/// A reload's progress as plain values: phase, detail, coded and summary error.
pub open spec fn progress_model(p: ReloadProgress) -> (Seq<char>, Seq<char>, Option<Seq<char>>, Option<Seq<char>>) {
    (p.phase@, p.detail@, opt_seq(p.coded_error), opt_seq(p.summary_error))
}

/// The progress after one line of worker output: a progress line moves the
/// phase, any other line is checked for errors.
pub open spec fn absorb(
    m: (Seq<char>, Seq<char>, Option<Seq<char>>, Option<Seq<char>>),
    prefix: Seq<char>,
    line: Seq<char>,
) -> (Seq<char>, Seq<char>, Option<Seq<char>>, Option<Seq<char>>) {
    match progress_payload(prefix, line) {
        Some((phase, detail)) => (phase, detail, m.2, m.3),
        None => {
            let t = trim(ansi_plain(line));
            let coded = if m.2 is None && is_coded_error(t) { Some(t) } else { m.2 };
            let summary = if !is_coded_error(t) && is_summary_error(t) { Some(t) } else { m.3 };
            (m.0, m.1, coded, summary)
        },
    }
}

/// The progress after a run of lines.
pub open spec fn absorb_all(
    m: (Seq<char>, Seq<char>, Option<Seq<char>>, Option<Seq<char>>),
    prefix: Seq<char>,
    lines: Seq<Seq<char>>,
) -> (Seq<char>, Seq<char>, Option<Seq<char>>, Option<Seq<char>>)
    decreases lines.len(),
{
    if lines.len() == 0 {
        m
    } else {
        absorb(absorb_all(m, prefix, lines.drop_last()), prefix, lines.last())
    }
}

/// The lines of a run that are not progress lines, in order.
pub open spec fn plain_lines(prefix: Seq<char>, lines: Seq<Seq<char>>) -> Seq<Seq<char>>
    decreases lines.len(),
{
    if lines.len() == 0 {
        Seq::empty()
    } else {
        let rest = plain_lines(prefix, lines.drop_last());
        if progress_payload(prefix, lines.last()) is Some {
            rest
        } else {
            rest.push(lines.last())
        }
    }
}

/// Takes the worker lines that arrived after the prebuild exited: progress
/// lines move the activity, the others are checked for errors and kept for the log.
pub fn drain_forwarder_tail(lines: Vec<String>, prefix: &str, activity: &mut ReloadProgress, drained: &mut Vec<String>)
    ensures
        progress_model(*final(activity)) == absorb_all(progress_model(*old(activity)), prefix@, string_views(lines@)),
        string_views(final(drained)@) == string_views(old(drained)@) + plain_lines(prefix@, string_views(lines@)),
        final(activity).started == old(activity).started,
{
    let ghost m0 = progress_model(*activity);
    let ghost started = activity.started;
    let ghost d0 = string_views(drained@);
    let ghost lv = string_views(lines@);
    let mut i: usize = 0;
    while i < lines.len()
        invariant
            i <= lines@.len(),
            lv == string_views(lines@),
            progress_model(*activity) == absorb_all(m0, prefix@, lv.take(i as int)),
            string_views(drained@) == d0 + plain_lines(prefix@, lv.take(i as int)),
            activity.started == started,
        decreases lines.len() - i,
    {
        let line = &lines[i];
        proof {
            assert(lv.take(i + 1).drop_last() =~= lv.take(i as int));
            assert(lv.take(i + 1).last() == line@);
        }
        let ghost before = string_views(drained@);
        if !activity.observe(prefix, line.as_str()) {
            activity.observe_failure(line.as_str());
            drained.push(line.clone());
            assert(string_views(drained@) =~= before.push(line@));
        }
        i += 1;
    }
    assert(lv.take(lines@.len() as int) =~= lv);
}

/// What a poll of a running reload decides.
pub enum ReloadPoll {
    /// The prebuild still runs.
    Pending,
    /// The prebuild succeeded: the handoff to the successor starts.
    Ready,
    /// The prebuild failed, for this reason (see `reload_failure_reason`).
    Aborted(String),
}

/// Why a prebuild failed, from the errors its output showed and its exit status.
pub open spec fn failure_reason_of(coded: Option<Seq<char>>, summary: Option<Seq<char>>, status: Seq<char>) -> Seq<char> {
    match coded {
        Some(c) => c,
        None => match summary {
            Some(s) => s,
            None => status,
        },
    }
}

/// The log line of a prebuild that failed with `status`.
pub open spec fn aborted_line(status: Seq<char>) -> Seq<char> {
    "[qol dev] reload aborted: prebuild "@ + status
}

/// One poll of a running reload. The worker lines that `arrived` move the
/// progress or are checked for errors and logged. While the prebuild runs
/// (`exited` is `None`) the reload stays pending. Once it has exited (with
/// its success, its status text and the lines that came after), those lines
/// are taken the same way; a success moves the progress to the handoff of
/// the successor generation and makes the reload ready; a failure logs the
/// aborted prebuild and gives its reason. Returns the decision and the lines
/// to log, in order.
pub fn poll_reload(
    prefix: &str,
    activity: &mut ReloadProgress,
    arrived: Vec<String>,
    exited: Option<(bool, String, Vec<String>)>,
) -> (r: (ReloadPoll, Vec<String>))
    ensures
        final(activity).started == old(activity).started,
        ({
            let m1 = absorb_all(progress_model(*old(activity)), prefix@, string_views(arrived@));
            let logged = plain_lines(prefix@, string_views(arrived@));
            match exited {
                None => {
                    &&& r.0 is Pending
                    &&& progress_model(*final(activity)) == m1
                    &&& string_views(r.1@) == logged
                },
                Some((ok, status, tail)) => {
                    let m2 = absorb_all(m1, prefix@, string_views(tail@));
                    let all = logged + plain_lines(prefix@, string_views(tail@));
                    if ok {
                        &&& r.0 is Ready
                        &&& progress_model(*final(activity)) == ("handoff"@, "successor generation"@, m2.2, m2.3)
                        &&& string_views(r.1@) == all
                    } else {
                        &&& r.0 matches ReloadPoll::Aborted(reason) && reason@ == failure_reason_of(m2.2, m2.3, status@)
                        &&& progress_model(*final(activity)) == m2
                        &&& string_views(r.1@) == all.push(aborted_line(status@))
                    }
                },
            }
        }),
{
    let mut logged: Vec<String> = Vec::new();
    assert(string_views(logged@) =~= Seq::<Seq<char>>::empty());
    drain_forwarder_tail(arrived, prefix, activity, &mut logged);
    match exited {
        None => (ReloadPoll::Pending, logged),
        Some((ok, status, tail)) => {
            drain_forwarder_tail(tail, prefix, activity, &mut logged);
            if ok {
                activity.phase = to_owned_string("handoff");
                activity.detail = to_owned_string("successor generation");
                (ReloadPoll::Ready, logged)
            } else {
                let mut line = to_owned_string("[qol dev] reload aborted: prebuild ");
                push_str(&mut line, status.as_str());
                let reason = reload_failure_reason(status.as_str(), activity);
                let ghost before = string_views(logged@);
                let ghost lv = line@;
                logged.push(line);
                assert(string_views(logged@) =~= before.push(lv));
                (ReloadPoll::Aborted(reason), logged)
            }
        },
    }
}

} // verus!

verus! {

/// The crash tail after `lines` arrive: each line is appended and the oldest
/// dropped beyond `CRASH_TAIL`; with no new line the tail is left as it was.
pub open spec fn crash_tail(recent: Seq<Seq<char>>, lines: Seq<Seq<char>>) -> Seq<Seq<char>> {
    let all = recent + lines;
    if lines.len() == 0 {
        recent
    } else if all.len() <= CRASH_TAIL {
        all
    } else {
        all.skip(all.len() - CRASH_TAIL)
    }
}

/// Appends the shadow generation's latest lines to its crash tail (see `crash_tail`).
pub fn append_shadow_logs(recent: &mut VecDeque<String>, lines: Vec<String>)
    ensures
        string_views(final(recent)@) == crash_tail(string_views(old(recent)@), string_views(lines@)),
{
    broadcast use vstd::std_specs::vecdeque::group_vec_dequeue_axioms;
    let ghost r0 = string_views(recent@);
    let ghost lv = string_views(lines@);
    let mut i: usize = 0;
    while i < lines.len()
        invariant
            i <= lines@.len(),
            lv == string_views(lines@),
            string_views(recent@) == crash_tail(r0, lv.take(i as int)),
        decreases lines.len() - i,
    {
        let ghost before = string_views(recent@);
        let ghost x = lv[i as int];
        recent.push_back(lines[i].clone());
        assert(string_views(recent@) =~= before.push(x));
        let ghost mut k: int = 0;
        assert(before.push(x).skip(0) =~= before.push(x));
        while recent.len() > CRASH_TAIL
            invariant
                0 <= k <= before.len() + 1,
                string_views(recent@) == before.push(x).skip(k),
                k > 0 ==> string_views(recent@).len() >= CRASH_TAIL,
            decreases recent@.len(),
        {
            let ghost cur = recent@;
            assert(cur.len() > CRASH_TAIL);
            recent.pop_front();
            assert(recent@ == cur.subrange(1, cur.len() as int));
            assert(string_views(recent@) =~= string_views(cur).drop_first());
            assert(string_views(recent@) =~= before.push(x).skip(k + 1));
            proof {
                k = k + 1;
            }
        }
        proof {
            let all0 = r0 + lv.take(i as int);
            let all1 = r0 + lv.take(i + 1);
            assert(all1 =~= all0.push(lv[i as int]));
            assert(lv.take(i + 1).len() > 0);
            // `before` is the tail after the first `i` lines: a suffix of `all0`.
            assert(exists|j: int| 0 <= j <= all0.len() && before == all0.skip(j)) by {
                if i == 0 {
                    assert(lv.take(0) =~= Seq::<Seq<char>>::empty());
                    assert(all0 =~= r0);
                    assert(before == all0.skip(0));
                } else if all0.len() <= CRASH_TAIL {
                    assert(before == all0.skip(0));
                } else {
                    assert(before == all0.skip(all0.len() - CRASH_TAIL));
                }
            }
            let j = choose|j: int| 0 <= j <= all0.len() && before == all0.skip(j);
            assert(before.len() == all0.len() - j);
            assert(before.push(x) =~= all1.skip(j));
            assert(string_views(recent@) =~= all1.skip(j + k));
            let res = string_views(recent@);
            if all1.len() <= CRASH_TAIL {
                assert(j == 0 && k == 0);
                assert(all1.skip(0) =~= all1);
            } else {
                assert(res.len() == CRASH_TAIL);
            }
        }
        i += 1;
    }
    assert(lv.take(lines@.len() as int) =~= lv);
}

/// The crash tail as an error's detail: nothing when empty, else a header and
/// one line each.
pub open spec fn crash_detail(recent: Seq<Seq<char>>) -> Seq<char>
    decreases recent.len(),
{
    if recent.len() == 0 {
        Seq::empty()
    } else {
        let before = crash_detail(recent.drop_last());
        let head = if recent.len() == 1 { "\nlast shadow logs:"@ } else { before };
        head + seq!['\n'] + recent.last()
    }
}

/// The crash tail as an error's detail (see `crash_detail`).
pub fn shadow_crash_detail(recent: &VecDeque<String>) -> (r: String)
    ensures
        r@ == crash_detail(string_views(recent@)),
{
    let ghost rv = string_views(recent@);
    if recent.len() == 0 {
        return String::new();
    }
    let mut detail = to_owned_string("\nlast shadow logs:");
    let mut i: usize = 0;
    while i < recent.len()
        invariant
            0 < recent@.len(),
            i <= recent@.len(),
            rv == string_views(recent@),
            i > 0 ==> detail@ == crash_detail(rv.take(i as int)),
            i == 0 ==> detail@ == "\nlast shadow logs:"@,
        decreases recent.len() - i,
    {
        push_char(&mut detail, '\n');
        push_str(&mut detail, recent[i].as_str());
        proof {
            let t = rv.take(i + 1);
            assert(t.drop_last() =~= rv.take(i as int));
            assert(t.last() == rv[i as int]);
        }
        i += 1;
    }
    assert(rv.take(recent@.len() as int) =~= rv);
    detail
}

/// The shadow generation's lines as the log shows them, each tagged.
pub fn drain_shadow_logs(received: Vec<String>) -> (r: Vec<String>)
    ensures
        r@.len() == received@.len(),
        forall|i: int| 0 <= i < r@.len() ==> #[trigger] r@[i]@ == "[qol dev:shadow] "@ + received@[i]@,
{
    let mut r: Vec<String> = Vec::new();
    let mut i: usize = 0;
    while i < received.len()
        invariant
            i <= received@.len(),
            r@.len() == i,
            forall|k: int| 0 <= k < i ==> #[trigger] r@[k]@ == "[qol dev:shadow] "@ + received@[k]@,
        decreases received.len() - i,
    {
        let mut line = to_owned_string("[qol dev:shadow] ");
        push_str(&mut line, received[i].as_str());
        r.push(line);
        i += 1;
    }
    r
}

/// The ready file of a shadow generation, as path components under the run
/// root: `target/qol-dev/generations/<id>.json`.
pub fn shadow_ready_file(generation_id: &str) -> (r: Vec<String>)
    ensures
        string_views(r@) == seq!["target"@, "qol-dev"@, "generations"@, generation_id@ + ".json"@],
{
    let mut r: Vec<String> = Vec::new();
    r.push(to_owned_string("target"));
    r.push(to_owned_string("qol-dev"));
    r.push(to_owned_string("generations"));
    let mut name = to_owned_string(generation_id);
    push_str(&mut name, ".json");
    r.push(name);
    assert(string_views(r@) =~= seq!["target"@, "qol-dev"@, "generations"@, generation_id@ + ".json"@]);
    r
}

/// The executable a reload runs, as path components: the running one while
/// it still exists, else `qol` under the home directory's `.cargo/bin`, else
/// the bare name `qol` for the `PATH` to find.
pub open spec fn reload_executable_of(current: Seq<char>, current_exists: bool, home: Option<Seq<char>>) -> Seq<Seq<char>> {
    if current_exists {
        seq![current]
    } else {
        match home {
            Some(h) => seq![h, ".cargo"@, "bin"@, exe_file_name("qol"@)],
            None => seq![exe_file_name("qol"@)],
        }
    }
}

/// The executable a reload runs (see `reload_executable_of`).
pub fn reload_executable_path(current: &str, current_exists: bool, home: Option<&str>) -> (r: Vec<String>)
    ensures
        string_views(r@) == reload_executable_of(current@, current_exists, match home {
            Some(h) => Some(h@),
            None => None,
        }),
{
    let mut r: Vec<String> = Vec::new();
    if current_exists {
        r.push(to_owned_string(current));
    } else {
        match home {
            Some(h) => {
                r.push(to_owned_string(h));
                r.push(to_owned_string(".cargo"));
                r.push(to_owned_string("bin"));
                r.push(crate::workspace::exe_name("qol"));
            },
            None => r.push(crate::workspace::exe_name("qol")),
        }
    }
    assert(string_views(r@) =~= reload_executable_of(current@, current_exists, match home {
        Some(h) => Some(h@),
        None => None,
    }));
    r
}


/// Where the wait for the predecessor's plugin daemons stands.
#[derive(Clone, Copy, PartialEq, Eq, Structural, Debug)]
pub enum PredecessorPhase {
    /// Waiting for the daemons to exit by themselves.
    FirstWait,
    /// Terminating the process groups of those still alive.
    Terminating,
    /// Waiting for the terminated groups to exit.
    SecondWait,
    /// Over.
    Done,
}

/// What the driver does next.
#[derive(Debug)]
pub enum PredecessorAction {
    /// Wait, up to the grace period, for these daemons; answer with those
    /// still alive.
    Wait(Vec<TrackedDaemonPid>),
    /// Terminate these daemons' process groups; answer with those still alive.
    Terminate(Vec<TrackedDaemonPid>),
    /// The wait is over, with this outcome.
    Finished(Result<(), String>),
}

/// An action as plain values.
pub enum PredecessorActionV {
    Wait(Seq<DaemonV>),
    Terminate(Seq<DaemonV>),
    Finished(Result<(), Seq<char>>),
}

/// The plain values of an action.
pub open spec fn predecessor_action_view(a: PredecessorAction) -> PredecessorActionV {
    match a {
        PredecessorAction::Wait(v) => PredecessorActionV::Wait(daemon_views(v@)),
        PredecessorAction::Terminate(v) => PredecessorActionV::Terminate(daemon_views(v@)),
        PredecessorAction::Finished(Ok(_)) => PredecessorActionV::Finished(Ok(())),
        PredecessorAction::Finished(Err(e)) => PredecessorActionV::Finished(Err(e@)),
    }
}

/// The start of the wait: nothing to wait for ends it at once; else the
/// daemons are named in the log and waited for.
pub open spec fn predecessor_start_of(ds: Seq<DaemonV>) -> (PredecessorPhase, PredecessorActionV, Seq<Seq<char>>) {
    if ds.len() == 0 {
        (PredecessorPhase::Done, PredecessorActionV::Finished(Ok(())), seq![])
    } else {
        (
            PredecessorPhase::FirstWait,
            PredecessorActionV::Wait(ds),
            seq!["[qol dev] waiting for predecessor daemons to exit: "@ + daemon_list_text(ds)],
        )
    }
}

/// A step of the wait, from the daemons still alive after the last action:
/// after the first wait, none left ends it well and survivors have their
/// groups terminated; the terminated groups get a second wait, after which
/// survivors make the wait fail.
pub open spec fn predecessor_next(phase: PredecessorPhase, rem: Seq<DaemonV>) -> (
    PredecessorPhase,
    PredecessorActionV,
    Seq<Seq<char>>,
) {
    match phase {
        PredecessorPhase::FirstWait => if rem.len() == 0 {
            (PredecessorPhase::Done, PredecessorActionV::Finished(Ok(())), seq!["[qol dev] predecessor daemons exited cleanly"@])
        } else {
            (
                PredecessorPhase::Terminating,
                PredecessorActionV::Terminate(rem),
                seq!["[qol dev] predecessor daemons still alive; terminating groups: "@ + daemon_list_text(rem)],
            )
        },
        PredecessorPhase::Terminating => (PredecessorPhase::SecondWait, PredecessorActionV::Wait(rem), seq![]),
        PredecessorPhase::SecondWait => if rem.len() == 0 {
            (PredecessorPhase::Done, PredecessorActionV::Finished(Ok(())), seq!["[qol dev] predecessor daemon groups terminated"@])
        } else {
            (
                PredecessorPhase::Done,
                PredecessorActionV::Finished(Err("predecessor daemon groups did not exit: "@ + daemon_list_text(rem))),
                seq![],
            )
        },
        PredecessorPhase::Done => (PredecessorPhase::Done, PredecessorActionV::Finished(Ok(())), seq![]),
    }
}

fn prefixed(prefix: &str, daemons: &[TrackedDaemonPid]) -> (r: String)
    ensures
        r@ == prefix@ + daemon_list_text(daemon_views(daemons@)),
{
    let mut r = to_owned_string(prefix);
    let list = format_daemon_pids(daemons);
    push_str(&mut r, list.as_str());
    r
}

/// Starts the wait for the predecessor's daemons (see `predecessor_start_of`):
/// the phase, the action and the log lines.
pub fn predecessor_start(daemons: Vec<TrackedDaemonPid>) -> (r: (PredecessorPhase, PredecessorAction, Vec<String>))
    ensures
        (r.0, predecessor_action_view(r.1), string_views(r.2@)) == predecessor_start_of(daemon_views(daemons@)),
{
    let mut lines: Vec<String> = Vec::new();
    if daemons.len() == 0 {
        assert(string_views(lines@) =~= Seq::<Seq<char>>::empty());
        return (PredecessorPhase::Done, PredecessorAction::Finished(Ok(())), lines);
    }
    lines.push(prefixed("[qol dev] waiting for predecessor daemons to exit: ", daemons.as_slice()));
    assert(string_views(lines@) =~= predecessor_start_of(daemon_views(daemons@)).2);
    (PredecessorPhase::FirstWait, PredecessorAction::Wait(daemons), lines)
}

/// A step of the wait (see `predecessor_next`), given the daemons still
/// alive after the last action.
pub fn predecessor_step(phase: PredecessorPhase, remaining: Vec<TrackedDaemonPid>) -> (r: (
    PredecessorPhase,
    PredecessorAction,
    Vec<String>,
))
    ensures
        (r.0, predecessor_action_view(r.1), string_views(r.2@)) == predecessor_next(phase, daemon_views(remaining@)),
{
    let mut lines: Vec<String> = Vec::new();
    let ghost spec = predecessor_next(phase, daemon_views(remaining@));
    match phase {
        PredecessorPhase::FirstWait => {
            if remaining.len() == 0 {
                lines.push(to_owned_string("[qol dev] predecessor daemons exited cleanly"));
                assert(string_views(lines@) =~= spec.2);
                (PredecessorPhase::Done, PredecessorAction::Finished(Ok(())), lines)
            } else {
                lines.push(prefixed("[qol dev] predecessor daemons still alive; terminating groups: ", remaining.as_slice()));
                assert(string_views(lines@) =~= spec.2);
                (PredecessorPhase::Terminating, PredecessorAction::Terminate(remaining), lines)
            }
        },
        PredecessorPhase::Terminating => {
            assert(string_views(lines@) =~= spec.2);
            (PredecessorPhase::SecondWait, PredecessorAction::Wait(remaining), lines)
        },
        PredecessorPhase::SecondWait => {
            if remaining.len() == 0 {
                lines.push(to_owned_string("[qol dev] predecessor daemon groups terminated"));
                assert(string_views(lines@) =~= spec.2);
                (PredecessorPhase::Done, PredecessorAction::Finished(Ok(())), lines)
            } else {
                let e = prefixed("predecessor daemon groups did not exit: ", remaining.as_slice());
                assert(string_views(lines@) =~= spec.2);
                (PredecessorPhase::Done, PredecessorAction::Finished(Err(e)), lines)
            }
        },
        PredecessorPhase::Done => {
            assert(string_views(lines@) =~= spec.2);
            (PredecessorPhase::Done, PredecessorAction::Finished(Ok(())), lines)
        },
    }
}

} // verus!
