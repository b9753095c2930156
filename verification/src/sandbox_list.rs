//! The sandboxes page's list: a row per environment (with its messages and
//! cleanup warnings), a row per candidate image, and the inventory's
//! unassigned runs and errors; and which line the cursor's row is on.
use vstd::prelude::*;
use crate::draw::{caret, caret_piece, lines_view, piece, pieces_view, push_line, push_piece, Piece, PieceV, Tone};
use crate::emu_panel::{EmuState, ResolutionState};
use crate::image_import::{file_name, file_name_of, path_parts, state_name, state_str};
use crate::render_util::{age_text, relative_age};
use crate::text::{dec, push_str, to_owned_string, u64_to_string};

verus! {

/// What a sandbox run's report says of it.
#[derive(Clone, Copy, PartialEq, Eq, Structural, Debug)]
pub enum ReportStatus {
    Pass,
    Failed,
    CleanupIncomplete,
    RollbackIncomplete,
    CancellationCleanupIncomplete,
    Preparing,
    Starting,
    Running,
    Stopping,
    Recovering,
    Cancelling,
    Cancelled,
    Skipped,
    Stopped,
    Abandoned,
    /// A status this console does not know.
    Unknown,
}

/// The tone of a run's status: the accent for a pass, red for a failure or
/// an incomplete cleanup, yellow while it runs or was cancelled, grey else.
pub open spec fn status_tone_of(st: ReportStatus) -> Tone {
    match st {
        ReportStatus::Pass => Tone::Accent,
        ReportStatus::Failed | ReportStatus::CleanupIncomplete | ReportStatus::RollbackIncomplete
        | ReportStatus::CancellationCleanupIncomplete => Tone::Red,
        ReportStatus::Preparing | ReportStatus::Starting | ReportStatus::Running | ReportStatus::Stopping
        | ReportStatus::Recovering | ReportStatus::Cancelling | ReportStatus::Cancelled => Tone::Yellow,
        ReportStatus::Skipped | ReportStatus::Stopped | ReportStatus::Abandoned | ReportStatus::Unknown => Tone::DarkGray,
    }
}

/// The tone of a run's status (see `status_tone_of`).
pub fn run_status_tone(st: ReportStatus) -> (t: Tone)
    ensures
        t == status_tone_of(st),
{
    match st {
        ReportStatus::Pass => Tone::Accent,
        ReportStatus::Failed | ReportStatus::CleanupIncomplete | ReportStatus::RollbackIncomplete
        | ReportStatus::CancellationCleanupIncomplete => Tone::Red,
        ReportStatus::Preparing | ReportStatus::Starting | ReportStatus::Running | ReportStatus::Stopping
        | ReportStatus::Recovering | ReportStatus::Cancelling | ReportStatus::Cancelled => Tone::Yellow,
        ReportStatus::Skipped | ReportStatus::Stopped | ReportStatus::Abandoned | ReportStatus::Unknown => Tone::DarkGray,
    }
}

/// What the list shows of a run.
#[derive(Clone, Debug)]
pub struct RunOverview {
    /// Its status.
    pub status: ReportStatus,
    /// The status as the report names it.
    pub status_name: String,
    /// When it finished, else when it started, in Unix milliseconds (0 when neither is known).
    pub observed_at_ms: u64,
    /// The task it ran for.
    pub task: Option<String>,
    /// The worktree it ran from.
    pub worktree: Option<String>,
}

/// A run's status label: an abandoned run reads as interrupted.
pub open spec fn status_label_of(run: RunOverview) -> Seq<char> {
    if run.status == ReportStatus::Abandoned {
        "interrupted"@
    } else {
        run.status_name@
    }
}

/// The pieces after a row that tell of its last run: its status, how long
/// ago, its task and the name of its worktree.
pub open spec fn last_run_of(run: Option<RunOverview>, now_ms: nat) -> Seq<PieceV> {
    match run {
        None => Seq::empty(),
        Some(r) => seq![
            (" · "@, Tone::DarkGray, false),
            (status_label_of(r), status_tone_of(r.status), false),
            (" "@ + age_text(now_ms, r.observed_at_ms as nat), Tone::DarkGray, false),
        ] + (match r.task {
            Some(t) => seq![(" · "@ + t@, Tone::DarkGray, false)],
            None => Seq::empty(),
        }) + (match r.worktree {
            Some(w) => match file_name_of(path_parts(w@)) {
                Some(n) => seq![(" @"@ + n, Tone::DarkGray, false)],
                None => Seq::empty(),
            },
            None => Seq::empty(),
        }),
    }
}

fn append_last_run(line: &mut Vec<Piece>, run: &Option<RunOverview>, now_ms: u64)
    ensures
        pieces_view(final(line)@) == pieces_view(old(line)@) + last_run_of(*run, now_ms as nat),
{
    let ghost start = pieces_view(line@);
    match run {
        None => {
            assert(pieces_view(line@) =~= start + last_run_of(*run, now_ms as nat));
        },
        Some(r) => {
            push_piece(line, piece(" · ", Tone::DarkGray, false));
            let label = if r.status == ReportStatus::Abandoned {
                to_owned_string("interrupted")
            } else {
                r.status_name.clone()
            };
            push_piece(line, Piece { text: label, tone: run_status_tone(r.status), bold: false });
            let mut age = to_owned_string(" ");
            let a = relative_age(now_ms, r.observed_at_ms);
            push_str(&mut age, a.as_str());
            push_piece(line, Piece { text: age, tone: Tone::DarkGray, bold: false });
            let ghost mid = pieces_view(line@);
            match &r.task {
                Some(t) => {
                    let mut s = to_owned_string(" · ");
                    push_str(&mut s, t.as_str());
                    push_piece(line, Piece { text: s, tone: Tone::DarkGray, bold: false });
                },
                None => {},
            }
            let ghost mid2 = pieces_view(line@);
            match &r.worktree {
                Some(w) => match file_name(w.as_str()) {
                    Some(n) => {
                        let mut s = to_owned_string(" @");
                        push_str(&mut s, n.as_str());
                        push_piece(line, Piece { text: s, tone: Tone::DarkGray, bold: false });
                    },
                    None => {},
                },
                None => {},
            }
            assert(pieces_view(line@) =~= start + last_run_of(*run, now_ms as nat));
        },
    }
}

/// What the list shows of an environment.
#[derive(Clone, Debug)]
pub struct EnvironmentRow {
    /// Its id.
    pub id: String,
    /// Whether it can run.
    pub state: ResolutionState,
    /// The backend that runs it.
    pub backend: String,
    /// Why it cannot run, line by line.
    pub messages: Vec<String>,
    /// Its lanes running now.
    pub live_lanes: u64,
    /// Its latest session, else its latest run.
    pub last_run: Option<RunOverview>,
    /// Its runs whose cleanup needs attention.
    pub attention_runs: u64,
}

/// `lane` or `lanes`.
pub open spec fn lane_unit(n: nat) -> Seq<char> {
    if n == 1 {
        "lane"@
    } else {
        "lanes"@
    }
}

/// An environment's row: caret, state dot, id (bold when selected), state
/// and backend; then the verb of its live run (with a hint to its log), or
/// its count of active lanes, or its last run; the selected row also tells
/// how many lanes a flow starts with.
pub open spec fn environment_line_of(
    row: EnvironmentRow,
    selected: bool,
    verb: Option<Seq<char>>,
    flow_lanes: nat,
    now_ms: nat,
) -> Seq<PieceV> {
    let tone = crate::emu_panel::state_color_of(row.state);
    seq![
        caret_piece(selected),
        ("● "@, tone, true),
        (row.id@, Tone::White, selected),
        ("  "@ + state_name(row.state), tone, true),
        (" · "@ + row.backend@, Tone::DarkGray, false),
    ] + (match verb {
        Some(v) => seq![(" · "@ + v, Tone::Yellow, true), (" · → log"@, Tone::DarkGray, false)],
        None => if row.live_lanes > 0 {
            seq![(" · "@ + dec(row.live_lanes as nat) + " active"@, Tone::Yellow, true)]
        } else {
            last_run_of(row.last_run, now_ms)
        },
    }) + (if selected {
        seq![(" · flow "@ + dec(flow_lanes) + " "@ + lane_unit(flow_lanes), Tone::Accent, true)]
    } else {
        Seq::empty()
    })
}

/// An environment's row (see `environment_line_of`).
pub fn environment_line(row: &EnvironmentRow, selected: bool, verb: &Option<String>, flow_lanes: u32, now_ms: u64) -> (r:
    Vec<Piece>)
    ensures
        pieces_view(r@) == environment_line_of(*row, selected, match verb {
            Some(v) => Some(v@),
            None => None,
        }, flow_lanes as nat, now_ms as nat),
{
    let tone = crate::emu_panel::state_color(row.state);
    let mut line: Vec<Piece> = Vec::new();
    push_piece(&mut line, caret(selected));
    push_piece(&mut line, piece("● ", tone, true));
    push_piece(&mut line, Piece { text: row.id.clone(), tone: Tone::White, bold: selected });
    let mut st = to_owned_string("  ");
    push_str(&mut st, state_str(row.state));
    push_piece(&mut line, Piece { text: st, tone, bold: true });
    let mut be = to_owned_string(" · ");
    push_str(&mut be, row.backend.as_str());
    push_piece(&mut line, Piece { text: be, tone: Tone::DarkGray, bold: false });
    let ghost head = pieces_view(line@);
    match verb {
        Some(v) => {
            let mut s = to_owned_string(" · ");
            push_str(&mut s, v.as_str());
            push_piece(&mut line, Piece { text: s, tone: Tone::Yellow, bold: true });
            push_piece(&mut line, piece(" · → log", Tone::DarkGray, false));
        },
        None => {
            if row.live_lanes > 0 {
                let mut s = to_owned_string(" · ");
                let n = u64_to_string(row.live_lanes);
                push_str(&mut s, n.as_str());
                push_str(&mut s, " active");
                push_piece(&mut line, Piece { text: s, tone: Tone::Yellow, bold: true });
            } else {
                append_last_run(&mut line, &row.last_run, now_ms);
            }
        },
    }
    let ghost body = pieces_view(line@);
    let ghost v = match verb {
        Some(v) => Some(v@),
        None => None::<Seq<char>>,
    };
    let ghost tone_s = crate::emu_panel::state_color_of(row.state);
    assert(head =~= seq![
        caret_piece(selected),
        ("● "@, tone_s, true),
        (row.id@, Tone::White, selected),
        ("  "@ + state_name(row.state), tone_s, true),
        (" · "@ + row.backend@, Tone::DarkGray, false),
    ]);
    assert(body =~= head + (match v {
        Some(v) => seq![(" · "@ + v, Tone::Yellow, true), (" · → log"@, Tone::DarkGray, false)],
        None => if row.live_lanes > 0 {
            seq![(" · "@ + dec(row.live_lanes as nat) + " active"@, Tone::Yellow, true)]
        } else {
            last_run_of(row.last_run, now_ms as nat)
        },
    }));
    if selected {
        let mut s = to_owned_string(" · flow ");
        let n = u64_to_string(flow_lanes as u64);
        push_str(&mut s, n.as_str());
        push_str(&mut s, if flow_lanes == 1 { " lane" } else { " lanes" });
        proof {
            reveal_strlit(" lane");
            reveal_strlit(" lanes");
            reveal_strlit(" ");
            reveal_strlit("lane");
            reveal_strlit("lanes");
        }
        assert(s@ =~= " · flow "@ + dec(flow_lanes as nat) + " "@ + lane_unit(flow_lanes as nat));
        push_piece(&mut line, Piece { text: s, tone: Tone::Accent, bold: true });
    }
    assert(pieces_view(line@) =~= environment_line_of(*row, selected, match verb {
        Some(v) => Some(v@),
        None => None,
    }, flow_lanes as nat, now_ms as nat));
    line
}

/// What the list shows of a candidate image.
#[derive(Clone, Debug)]
pub struct CandidateRow {
    /// Its id.
    pub id: String,
    /// The architecture assumed for it, when it was not detected.
    pub assumed_arch: Option<String>,
}

/// A candidate's row: caret, hollow dot, id (bold when selected); then the
/// verb of its live run with a hint to its log, or `ready` and the assumed
/// architecture.
pub open spec fn candidate_line_of(c: CandidateRow, selected: bool, verb: Option<Seq<char>>) -> Seq<PieceV> {
    seq![caret_piece(selected), ("○ "@, Tone::DarkGray, false), (c.id@, Tone::White, selected)] + match verb {
        Some(v) => seq![("  "@ + v, Tone::Yellow, true), (" · → log"@, Tone::DarkGray, false)],
        None => seq![("  ready"@, Tone::Accent, false)] + match c.assumed_arch {
            Some(a) => seq![(" · arch assumed "@ + a@, Tone::DarkGray, false)],
            None => Seq::empty(),
        },
    }
}

/// A candidate's row (see `candidate_line_of`).
pub fn candidate_line(c: &CandidateRow, selected: bool, verb: &Option<String>) -> (r: Vec<Piece>)
    ensures
        pieces_view(r@) == candidate_line_of(*c, selected, match verb {
            Some(v) => Some(v@),
            None => None,
        }),
{
    let mut line: Vec<Piece> = Vec::new();
    push_piece(&mut line, caret(selected));
    push_piece(&mut line, piece("○ ", Tone::DarkGray, false));
    push_piece(&mut line, Piece { text: c.id.clone(), tone: Tone::White, bold: selected });
    match verb {
        Some(v) => {
            let mut s = to_owned_string("  ");
            push_str(&mut s, v.as_str());
            push_piece(&mut line, Piece { text: s, tone: Tone::Yellow, bold: true });
            push_piece(&mut line, piece(" · → log", Tone::DarkGray, false));
        },
        None => {
            push_piece(&mut line, piece("  ready", Tone::Accent, false));
            match &c.assumed_arch {
                Some(a) => {
                    let mut s = to_owned_string(" · arch assumed ");
                    push_str(&mut s, a.as_str());
                    push_piece(&mut line, Piece { text: s, tone: Tone::DarkGray, bold: false });
                },
                None => {},
            }
        },
    }
    assert(pieces_view(line@) =~= candidate_line_of(*c, selected, match verb {
        Some(v) => Some(v@),
        None => None,
    }));
    line
}

/// The lines of an empty inventory: that none was found, and where the
/// environments are configured.
pub open spec fn empty_lines_of(config: Seq<char>) -> Seq<Seq<PieceV>> {
    seq![
        seq![("  no sandbox environments found"@, Tone::DarkGray, false)],
        seq![("  config "@, Tone::DarkGray, false), (config, Tone::White, false)],
    ]
}

/// The lines of an empty inventory (see `empty_lines_of`).
pub fn emu_empty_lines(config: &str) -> (r: Vec<Vec<Piece>>)
    ensures
        lines_view(r@) == empty_lines_of(config@),
{
    let mut a: Vec<Piece> = Vec::new();
    push_piece(&mut a, piece("  no sandbox environments found", Tone::DarkGray, false));
    let mut b: Vec<Piece> = Vec::new();
    push_piece(&mut b, piece("  config ", Tone::DarkGray, false));
    push_piece(&mut b, piece(config, Tone::White, false));
    assert(pieces_view(a@) =~= seq![("  no sandbox environments found"@, Tone::DarkGray, false)]);
    assert(pieces_view(b@) =~= seq![("  config "@, Tone::DarkGray, false), (config@, Tone::White, false)]);
    let mut r: Vec<Vec<Piece>> = Vec::new();
    push_line(&mut r, a);
    push_line(&mut r, b);
    assert(lines_view(r@) =~= empty_lines_of(config@));
    r
}

/// `warning` or `warnings`.
pub open spec fn warning_unit(n: nat) -> Seq<char> {
    if n == 1 {
        "warning"@
    } else {
        "warnings"@
    }
}

/// The line under an environment with runs whose cleanup needs attention.
pub open spec fn warning_summary_of(count: nat) -> Seq<PieceV> {
    seq![
        ("    ! "@, Tone::Yellow, true),
        (dec(count) + " cleanup "@ + warning_unit(count), Tone::Yellow, false),
        (" · → details"@, Tone::DarkGray, false),
    ]
}

fn count_text(n: u64, middle: &str, one: &str, many: &str) -> (r: String)
    ensures
        r@ == dec(n as nat) + middle@ + (if n == 1 { one@ } else { many@ }),
{
    let mut s = u64_to_string(n);
    push_str(&mut s, middle);
    push_str(&mut s, if n == 1 { one } else { many });
    s
}

/// The line under an environment with runs that need attention (see `warning_summary_of`).
pub fn cleanup_warning_summary_line(count: u64) -> (r: Vec<Piece>)
    ensures
        pieces_view(r@) == warning_summary_of(count as nat),
{
    let mut line: Vec<Piece> = Vec::new();
    push_piece(&mut line, piece("    ! ", Tone::Yellow, true));
    let t = count_text(count, " cleanup ", "warning", "warnings");
    push_piece(&mut line, Piece { text: t, tone: Tone::Yellow, bold: false });
    push_piece(&mut line, piece(" · → details", Tone::DarkGray, false));
    assert(pieces_view(line@) =~= warning_summary_of(count as nat));
    line
}

/// Why a run of the inventory needs attention.
#[derive(Clone, Copy, PartialEq, Eq, Structural, Debug)]
pub enum RunConcern {
    /// It failed, and that failure is on record.
    HistoricalFailure,
    /// Its cleanup was not seen through.
    UnresolvedCleanup,
}

/// A concern's label and tone: a recorded failure in red, an unresolved
/// cleanup in yellow.
pub open spec fn concern_label_of(c: RunConcern) -> (Seq<char>, Tone) {
    match c {
        RunConcern::HistoricalFailure => ("historical failure"@, Tone::Red),
        RunConcern::UnresolvedCleanup => ("cleanup unresolved"@, Tone::Yellow),
    }
}

/// The line for a run that needs attention: a bold `!` and the concern's
/// label in the concern's tone around the run's id in white, then the
/// status as the report names it, bold, in the status's tone.
pub open spec fn attention_run_line_of(
    run_id: Seq<char>,
    status_name: Seq<char>,
    status: ReportStatus,
    concern: RunConcern,
) -> Seq<PieceV> {
    let (label, tone) = concern_label_of(concern);
    seq![
        ("  ! "@, tone, true),
        (run_id, Tone::White, false),
        (" · "@ + label, tone, false),
        (" · "@, Tone::DarkGray, false),
        (status_name, status_tone_of(status), true),
    ]
}

/// The line for a run that needs attention (see `attention_run_line_of`).
pub fn attention_run_line(run_id: &str, status_name: &str, status: ReportStatus, concern: RunConcern) -> (r: Vec<
    Piece,
>)
    ensures
        pieces_view(r@) == attention_run_line_of(run_id@, status_name@, status, concern),
{
    let (label, tone) = match concern {
        RunConcern::HistoricalFailure => (" · historical failure", Tone::Red),
        RunConcern::UnresolvedCleanup => (" · cleanup unresolved", Tone::Yellow),
    };
    proof {
        reveal_strlit(" · historical failure");
        reveal_strlit(" · cleanup unresolved");
        reveal_strlit("historical failure");
        reveal_strlit("cleanup unresolved");
        reveal_strlit(" · ");
    }
    assert(label@ == " · "@ + concern_label_of(concern).0);
    let mut line: Vec<Piece> = Vec::new();
    push_piece(&mut line, piece("  ! ", tone, true));
    push_piece(&mut line, piece(run_id, Tone::White, false));
    push_piece(&mut line, piece(label, tone, false));
    push_piece(&mut line, piece(" · ", Tone::DarkGray, false));
    push_piece(&mut line, piece(status_name, run_status_tone(status), true));
    assert(pieces_view(line@) =~= attention_run_line_of(run_id@, status_name@, status, concern));
    line
}

/// An environment's lines: its row, its messages when it cannot run, and
/// the summary of its runs that need attention.
pub open spec fn environment_block_of(
    row: EnvironmentRow,
    selected: bool,
    verb: Option<Seq<char>>,
    flow_lanes: nat,
    now_ms: nat,
) -> Seq<Seq<PieceV>> {
    seq![environment_line_of(row, selected, verb, flow_lanes, now_ms)] + (if row.state != ResolutionState::Ready {
        row.messages@.map_values(|m: String| seq![("    "@, Tone::Plain, false), (m@, Tone::DarkGray, false)])
    } else {
        Seq::empty()
    }) + (if row.attention_runs > 0 {
        seq![warning_summary_of(row.attention_runs as nat)]
    } else {
        Seq::empty()
    })
}

/// The plain values of an optional string.
pub open spec fn opt_view(o: Option<String>) -> Option<Seq<char>> {
    match o {
        Some(s) => Some(s@),
        None => None,
    }
}

fn push_environment_block(
    rows: &mut Vec<Vec<Piece>>,
    row: &EnvironmentRow,
    selected: bool,
    verb: &Option<String>,
    flow_lanes: u32,
    now_ms: u64,
)
    ensures
        lines_view(final(rows)@) == lines_view(old(rows)@) + environment_block_of(
            *row,
            selected,
            opt_view(*verb),
            flow_lanes as nat,
            now_ms as nat,
        ),
{
    let ghost start = lines_view(rows@);
    push_line(rows, environment_line(row, selected, verb, flow_lanes, now_ms));
    let ghost after_row = lines_view(rows@);
    if row.state != ResolutionState::Ready {
        let mut i: usize = 0;
        while i < row.messages.len()
            invariant
                i <= row.messages@.len(),
                lines_view(rows@) == after_row + row.messages@.take(i as int).map_values(
                    |m: String| seq![("    "@, Tone::Plain, false), (m@, Tone::DarkGray, false)],
                ),
            decreases row.messages.len() - i,
        {
            let mut line: Vec<Piece> = Vec::new();
            push_piece(&mut line, piece("    ", Tone::Plain, false));
            push_piece(&mut line, Piece { text: row.messages[i].clone(), tone: Tone::DarkGray, bold: false });
            let ghost before = lines_view(rows@);
            assert(pieces_view(line@) =~= seq![("    "@, Tone::Plain, false), (row.messages@[i as int]@, Tone::DarkGray, false)]);
            push_line(rows, line);
            assert(row.messages@.take(i + 1) =~= row.messages@.take(i as int).push(row.messages@[i as int]));
            assert(lines_view(rows@) =~= after_row + row.messages@.take(i + 1).map_values(
                |m: String| seq![("    "@, Tone::Plain, false), (m@, Tone::DarkGray, false)],
            ));
            i += 1;
        }
        assert(row.messages@.take(row.messages@.len() as int) =~= row.messages@);
    }
    let ghost after_messages = lines_view(rows@);
    if row.attention_runs > 0 {
        push_line(rows, cleanup_warning_summary_line(row.attention_runs));
    }
    assert(lines_view(rows@) =~= start + environment_block_of(
        *row,
        selected,
        opt_view(*verb),
        flow_lanes as nat,
        now_ms as nat,
    ));
}

/// The blocks of the environments in `rows`, the one at `cursor` selected.
pub open spec fn env_blocks_of(
    rows: Seq<EnvironmentRow>,
    verbs: Seq<Option<Seq<char>>>,
    cursor: int,
    flow_lanes: nat,
    now_ms: nat,
) -> Seq<Seq<PieceV>>
    decreases rows.len(),
{
    if rows.len() == 0 {
        Seq::empty()
    } else {
        let k = rows.len() - 1;
        env_blocks_of(rows.drop_last(), verbs, cursor, flow_lanes, now_ms) + environment_block_of(
            rows.last(),
            k == cursor,
            verbs[k],
            flow_lanes,
            now_ms,
        )
    }
}

/// The rows of the candidates in `cands`, which follow `offset` environment
/// rows; the one at `cursor` selected.
pub open spec fn candidate_lines_of(
    cands: Seq<CandidateRow>,
    verbs: Seq<Option<Seq<char>>>,
    offset: int,
    cursor: int,
) -> Seq<Seq<PieceV>>
    decreases cands.len(),
{
    if cands.len() == 0 {
        Seq::empty()
    } else {
        let k = cands.len() - 1;
        candidate_lines_of(cands.drop_last(), verbs, offset, cursor).push(
            candidate_line_of(cands.last(), offset + k == cursor, verbs[k]),
        )
    }
}

/// The line about runs of no environment: how many there are, or how many
/// need attention when any do.
pub open spec fn unassigned_lines_of(count: nat, attention: nat) -> Seq<Seq<PieceV>> {
    if count == 0 {
        Seq::empty()
    } else if attention == 0 {
        seq![seq![("  ○ "@, Tone::DarkGray, false), (dec(count) + " unassigned history"@, Tone::DarkGray, false)]]
    } else {
        seq![seq![("  ! "@, Tone::Yellow, true), (dec(attention) + " unassigned "@ + warning_unit(attention), Tone::Yellow, false)]]
    }
}

/// `error` or `errors`.
pub open spec fn error_unit(n: nat) -> Seq<char> {
    if n == 1 {
        "error"@
    } else {
        "errors"@
    }
}

/// The line about the inventory's own errors, when it has any.
pub open spec fn issue_lines_of(count: nat) -> Seq<Seq<PieceV>> {
    if count == 0 {
        Seq::empty()
    } else {
        seq![seq![("  ! "@, Tone::Red, true), (dec(count) + " inventory "@ + error_unit(count), Tone::Red, false)]]
    }
}

/// The plain values of a list of optional strings.
pub open spec fn opts_view(v: Seq<Option<String>>) -> Seq<Option<Seq<char>>> {
    v.map_values(|o: Option<String>| opt_view(o))
}

/// The page's lines over an inventory: the empty-inventory lines when it has
/// no environment, each environment's block, each candidate's row, then the
/// unassigned runs and the inventory's errors.
pub open spec fn inventory_lines_of(
    rows: Seq<EnvironmentRow>,
    env_verbs: Seq<Option<Seq<char>>>,
    cands: Seq<CandidateRow>,
    cand_verbs: Seq<Option<Seq<char>>>,
    inv: crate::emu_panel::InventorySummary,
    cursor: int,
    flow_lanes: nat,
    config: Seq<char>,
    now_ms: nat,
) -> Seq<Seq<PieceV>> {
    (if rows.len() == 0 {
        empty_lines_of(config)
    } else {
        Seq::empty()
    }) + env_blocks_of(rows, env_verbs, cursor, flow_lanes, now_ms) + candidate_lines_of(
        cands,
        cand_verbs,
        rows.len() as int,
        cursor,
    ) + unassigned_lines_of(inv.unassigned_runs as nat, inv.unassigned_attention as nat) + issue_lines_of(
        inv.issues as nat,
    )
}

/// The line the cursor's row is on: an environment's row, or a candidate's
/// after all the environment blocks (`before` lines precede them all).
pub open spec fn selected_line_of(
    rows: Seq<EnvironmentRow>,
    env_verbs: Seq<Option<Seq<char>>>,
    cands: Seq<CandidateRow>,
    cursor: int,
    flow_lanes: nat,
    now_ms: nat,
    before: int,
) -> Option<int> {
    if 0 <= cursor < rows.len() {
        Some(before + env_blocks_of(rows.take(cursor), env_verbs, cursor, flow_lanes, now_ms).len())
    } else if rows.len() <= cursor < rows.len() + cands.len() {
        Some(before + env_blocks_of(rows, env_verbs, cursor, flow_lanes, now_ms).len() + (cursor - rows.len()))
    } else {
        None
    }
}

fn push_candidate_lines(
    out: &mut Vec<Vec<Piece>>,
    cands: &Vec<CandidateRow>,
    verbs: &Vec<Option<String>>,
    offset: usize,
    cursor: usize,
)
    requires
        verbs@.len() == cands@.len(),
    ensures
        lines_view(final(out)@) == lines_view(old(out)@) + candidate_lines_of(
            cands@,
            opts_view(verbs@),
            offset as int,
            cursor as int,
        ),
{
    let ghost start = lines_view(out@);
    let ghost vv = opts_view(verbs@);
    let mut i: usize = 0;
    assert(cands@.take(0) =~= Seq::<CandidateRow>::empty());
    assert(start + Seq::<Seq<PieceV>>::empty() =~= start);
    while i < cands.len()
        invariant
            i <= cands@.len(),
            verbs@.len() == cands@.len(),
            vv == opts_view(verbs@),
            lines_view(out@) == start + candidate_lines_of(cands@.take(i as int), vv, offset as int, cursor as int),
        decreases cands.len() - i,
    {
        let line = candidate_line(&cands[i], cursor >= offset && cursor - offset == i, &verbs[i]);
        assert(vv[i as int] == opt_view(verbs@[i as int]));
        proof {
            let t = cands@.take(i + 1);
            assert(t.drop_last() =~= cands@.take(i as int));
            assert(t.last() == cands@[i as int]);
        }
        push_line(out, line);
        assert(lines_view(out@) =~= start + candidate_lines_of(cands@.take(i + 1), vv, offset as int, cursor as int));
        i += 1;
    }
    assert(cands@.take(cands@.len() as int) =~= cands@);
}

proof fn lemma_candidate_lines_len(cands: Seq<CandidateRow>, verbs: Seq<Option<Seq<char>>>, offset: int, cursor: int)
    ensures
        candidate_lines_of(cands, verbs, offset, cursor).len() == cands.len(),
    decreases cands.len(),
{
    if cands.len() > 0 {
        lemma_candidate_lines_len(cands.drop_last(), verbs, offset, cursor);
    }
}

proof fn lemma_env_blocks_step(
    rows: Seq<EnvironmentRow>,
    verbs: Seq<Option<Seq<char>>>,
    cursor: int,
    flow_lanes: nat,
    now_ms: nat,
    i: int,
)
    requires
        0 <= i < rows.len(),
    ensures
        env_blocks_of(rows.take(i + 1), verbs, cursor, flow_lanes, now_ms) == env_blocks_of(
            rows.take(i),
            verbs,
            cursor,
            flow_lanes,
            now_ms,
        ) + environment_block_of(rows[i], i == cursor, verbs[i], flow_lanes, now_ms),
{
    let t = rows.take(i + 1);
    assert(t.drop_last() =~= rows.take(i));
    assert(t.last() == rows[i]);
}

/// The page's lines over an inventory and the line of the cursor's row (see
/// `inventory_lines_of` and `selected_line_of`); `env_verbs` and
/// `cand_verbs` hold the verb of each row's live run.
pub fn sandbox_inventory_lines(
    rows: &Vec<EnvironmentRow>,
    env_verbs: &Vec<Option<String>>,
    cands: &Vec<CandidateRow>,
    cand_verbs: &Vec<Option<String>>,
    inv: &crate::emu_panel::InventorySummary,
    cursor: usize,
    flow_lanes: u32,
    config: &str,
    now_ms: u64,
) -> (r: (Vec<Vec<Piece>>, Option<usize>))
    requires
        env_verbs@.len() == rows@.len(),
        cand_verbs@.len() == cands@.len(),
    ensures
        lines_view(r.0@) == inventory_lines_of(
            rows@,
            opts_view(env_verbs@),
            cands@,
            opts_view(cand_verbs@),
            *inv,
            cursor as int,
            flow_lanes as nat,
            config@,
            now_ms as nat,
        ),
        match r.1 {
            Some(k) => selected_line_of(
                rows@,
                opts_view(env_verbs@),
                cands@,
                cursor as int,
                flow_lanes as nat,
                now_ms as nat,
                if rows@.len() == 0 { 2 } else { 0 },
            ) == Some(k as int),
            None => selected_line_of(
                rows@,
                opts_view(env_verbs@),
                cands@,
                cursor as int,
                flow_lanes as nat,
                now_ms as nat,
                if rows@.len() == 0 { 2 } else { 0 },
            ) is None,
        },
{
    let ghost vv = opts_view(env_verbs@);
    let ghost cv = opts_view(cand_verbs@);
    let mut out: Vec<Vec<Piece>> = Vec::new();
    let mut selected: Option<usize> = None;
    if rows.len() == 0 {
        out = emu_empty_lines(config);
    }
    let ghost pre = lines_view(out@);
    let ghost before: int = if rows@.len() == 0 { 2 } else { 0 };
    assert(pre =~= (if rows@.len() == 0 { empty_lines_of(config@) } else { Seq::empty() }));
    assert(rows@.take(0) =~= Seq::<EnvironmentRow>::empty());
    assert(pre + Seq::<Seq<PieceV>>::empty() =~= pre);
    let mut i: usize = 0;
    while i < rows.len()
        invariant
            i <= rows@.len(),
            env_verbs@.len() == rows@.len(),
            vv == opts_view(env_verbs@),
            pre.len() == before,
            lines_view(out@) == pre + env_blocks_of(rows@.take(i as int), vv, cursor as int, flow_lanes as nat, now_ms as nat),
            match selected {
                Some(k) => cursor < i && k == before + env_blocks_of(
                    rows@.take(cursor as int),
                    vv,
                    cursor as int,
                    flow_lanes as nat,
                    now_ms as nat,
                ).len(),
                None => cursor >= i,
            },
        decreases rows.len() - i,
    {
        if i == cursor {
            selected = Some(out.len());
        }
        assert(vv[i as int] == opt_view(env_verbs@[i as int]));
        push_environment_block(&mut out, &rows[i], i == cursor, &env_verbs[i], flow_lanes, now_ms);
        proof {
            lemma_env_blocks_step(rows@, vv, cursor as int, flow_lanes as nat, now_ms as nat, i as int);
        }
        assert(lines_view(out@) =~= pre + env_blocks_of(rows@.take(i + 1), vv, cursor as int, flow_lanes as nat, now_ms as nat));
        i += 1;
    }
    assert(rows@.take(rows@.len() as int) =~= rows@);
    let blocks_end = out.len();
    assert(lines_view(out@).len() == blocks_end);
    push_candidate_lines(&mut out, cands, cand_verbs, rows.len(), cursor);
    proof {
        lemma_candidate_lines_len(cands@, cv, rows@.len() as int, cursor as int);
    }
    let total = out.len();
    assert(lines_view(out@).len() == total);
    assert(total == blocks_end + cands@.len());
    if selected.is_none() && cursor >= rows.len() && cursor - rows.len() < cands.len() {
        selected = Some(blocks_end + (cursor - rows.len()));
    }
    let ghost mid = lines_view(out@);
    let ghost inv_v = *inv;
    if inv.unassigned_runs > 0 {
        let mut line: Vec<Piece> = Vec::new();
        if inv.unassigned_attention == 0 {
            push_piece(&mut line, piece("  ○ ", Tone::DarkGray, false));
            let mut t = u64_to_string(inv.unassigned_runs);
            push_str(&mut t, " unassigned history");
            push_piece(&mut line, Piece { text: t, tone: Tone::DarkGray, bold: false });
            assert(pieces_view(line@) =~= seq![
                ("  ○ "@, Tone::DarkGray, false),
                (dec(inv_v.unassigned_runs as nat) + " unassigned history"@, Tone::DarkGray, false),
            ]);
        } else {
            push_piece(&mut line, piece("  ! ", Tone::Yellow, true));
            let t = count_text(inv.unassigned_attention, " unassigned ", "warning", "warnings");
            push_piece(&mut line, Piece { text: t, tone: Tone::Yellow, bold: false });
            assert(pieces_view(line@) =~= seq![
                ("  ! "@, Tone::Yellow, true),
                (dec(inv_v.unassigned_attention as nat) + " unassigned "@ + warning_unit(inv_v.unassigned_attention as nat), Tone::Yellow, false),
            ]);
        }
        assert(seq![pieces_view(line@)] =~= unassigned_lines_of(inv_v.unassigned_runs as nat, inv_v.unassigned_attention as nat));
        push_line(&mut out, line);
    }
    assert(lines_view(out@) =~= mid + unassigned_lines_of(inv_v.unassigned_runs as nat, inv_v.unassigned_attention as nat));
    let ghost mid2 = lines_view(out@);
    if inv.issues > 0 {
        let mut line: Vec<Piece> = Vec::new();
        push_piece(&mut line, piece("  ! ", Tone::Red, true));
        let t = count_text(inv.issues, " inventory ", "error", "errors");
        push_piece(&mut line, Piece { text: t, tone: Tone::Red, bold: false });
        assert(pieces_view(line@) =~= seq![
            ("  ! "@, Tone::Red, true),
            (dec(inv_v.issues as nat) + " inventory "@ + error_unit(inv_v.issues as nat), Tone::Red, false),
        ]);
        assert(seq![pieces_view(line@)] =~= issue_lines_of(inv_v.issues as nat));
        push_line(&mut out, line);
    }
    assert(lines_view(out@) =~= mid2 + issue_lines_of(inv_v.issues as nat));
    (out, selected)
}

/// The page's lines and the line of the cursor's row for the probe's state:
/// while scanning, or after a registry error, that line and then the
/// candidates' rows; else the inventory's lines (see `inventory_lines_of`).
pub open spec fn page_lines_of(
    state: EmuState,
    rows: Seq<EnvironmentRow>,
    env_verbs: Seq<Option<Seq<char>>>,
    cands: Seq<CandidateRow>,
    cand_verbs: Seq<Option<Seq<char>>>,
    cursor: int,
    flow_lanes: nat,
    config: Seq<char>,
    now_ms: nat,
) -> (Seq<Seq<PieceV>>, Option<int>) {
    let candidate_selected = if 0 <= cursor < cands.len() {
        Some(1 + cursor)
    } else {
        None
    };
    match state {
        EmuState::Probing => (
            seq![seq![("  scanning sandboxes"@, Tone::Yellow, false)]] + candidate_lines_of(cands, cand_verbs, 0, cursor),
            candidate_selected,
        ),
        EmuState::Failed(e) => (
            seq![seq![("  registry error "@, Tone::Red, true), (e@, Tone::DarkGray, false)]] + candidate_lines_of(
                cands,
                cand_verbs,
                0,
                cursor,
            ),
            candidate_selected,
        ),
        EmuState::Done(inv) => (
            inventory_lines_of(rows, env_verbs, cands, cand_verbs, inv, cursor, flow_lanes, config, now_ms),
            selected_line_of(rows, env_verbs, cands, cursor, flow_lanes, now_ms, if rows.len() == 0 { 2 } else { 0 }),
        ),
    }
}

/// The page's lines and the line of the cursor's row (see `page_lines_of`);
/// `rows` and `env_verbs` describe the inventory that `state` holds.
pub fn emu_page_lines(
    state: &EmuState,
    rows: &Vec<EnvironmentRow>,
    env_verbs: &Vec<Option<String>>,
    cands: &Vec<CandidateRow>,
    cand_verbs: &Vec<Option<String>>,
    cursor: usize,
    flow_lanes: u32,
    config: &str,
    now_ms: u64,
) -> (r: (Vec<Vec<Piece>>, Option<usize>))
    requires
        env_verbs@.len() == rows@.len(),
        cand_verbs@.len() == cands@.len(),
    ensures
        lines_view(r.0@) == page_lines_of(
            *state,
            rows@,
            opts_view(env_verbs@),
            cands@,
            opts_view(cand_verbs@),
            cursor as int,
            flow_lanes as nat,
            config@,
            now_ms as nat,
        ).0,
        match r.1 {
            Some(k) => page_lines_of(
                *state,
                rows@,
                opts_view(env_verbs@),
                cands@,
                opts_view(cand_verbs@),
                cursor as int,
                flow_lanes as nat,
                config@,
                now_ms as nat,
            ).1 == Some(k as int),
            None => page_lines_of(
                *state,
                rows@,
                opts_view(env_verbs@),
                cands@,
                opts_view(cand_verbs@),
                cursor as int,
                flow_lanes as nat,
                config@,
                now_ms as nat,
            ).1 is None,
        },
{
    let mut out: Vec<Vec<Piece>> = Vec::new();
    let mut line: Vec<Piece> = Vec::new();
    match state {
        EmuState::Done(inv) => {
            return sandbox_inventory_lines(rows, env_verbs, cands, cand_verbs, inv, cursor, flow_lanes, config, now_ms);
        },
        EmuState::Probing => {
            push_piece(&mut line, piece("  scanning sandboxes", Tone::Yellow, false));
            assert(pieces_view(line@) =~= seq![("  scanning sandboxes"@, Tone::Yellow, false)]);
        },
        EmuState::Failed(e) => {
            push_piece(&mut line, piece("  registry error ", Tone::Red, true));
            push_piece(&mut line, Piece { text: e.clone(), tone: Tone::DarkGray, bold: false });
            assert(pieces_view(line@) =~= seq![("  registry error "@, Tone::Red, true), (e@, Tone::DarkGray, false)]);
        },
    }
    push_line(&mut out, line);
    let ghost first = lines_view(out@);
    push_candidate_lines(&mut out, cands, cand_verbs, 0, cursor);
    proof {
        lemma_candidate_lines_len(cands@, opts_view(cand_verbs@), 0, cursor as int);
    }
    let selected = if cursor < cands.len() {
        Some(1 + cursor)
    } else {
        None
    };
    (out, selected)
}

/// The cursor kept on the page's selectable rows.
pub fn clamp_emu_cursor(cursor: usize, selectable: usize) -> (r: usize)
    ensures
        r == (if selectable > 0 && cursor >= selectable { (selectable - 1) as usize } else { cursor }),
{
    if selectable > 0 && cursor >= selectable {
        selectable - 1
    } else {
        cursor
    }
}

/// What the lower part of a sandbox's detail page shows.
#[derive(Clone, Copy, PartialEq, Eq, Structural, Debug)]
pub enum DetailBody {
    /// No room is left under the information rows.
    Hidden,
    /// The cleanup warnings of a sandbox without a live run.
    Warnings,
    /// The log of its live run.
    LiveLog,
    /// The log of its last run, read back.
    Replay,
    /// A hint that no log exists yet.
    NoLog,
}

/// How a sandbox's detail page splits its height.
#[derive(Clone, Copy, PartialEq, Eq, Structural, Debug)]
pub struct DetailLayout {
    /// Height of the information rows (each row but the last followed by a gap).
    pub info_height: u16,
    /// Where the lower part starts, below the information and one blank line.
    pub body_top: u16,
    /// Height of the lower part.
    pub body_height: u16,
    /// What the lower part shows.
    pub body: DetailBody,
}

/// The height of `rows` rows with a blank line between each two.
pub open spec fn gapped_height(rows: nat) -> nat {
    if rows == 0 { 0 } else { (2 * rows - 1) as nat }
}

/// The detail page's layout in `height` lines: the information rows (cut to
/// the height), a blank line, then the lower part: the warnings when there
/// are some and no live run, else the live run's log, else the last run's
/// log, else the hint; nothing when no line is left for it.
pub open spec fn detail_layout_of(height: u16, info_rows: nat, warnings: nat, live_run: bool, has_replay: bool) -> DetailLayout {
    let info = if gapped_height(info_rows) < height as nat { gapped_height(info_rows) as u16 } else { height };
    let used = info as nat + 1;
    if used >= height as nat {
        DetailLayout { info_height: info, body_top: 0, body_height: 0, body: DetailBody::Hidden }
    } else {
        DetailLayout {
            info_height: info,
            body_top: used as u16,
            body_height: (height - used) as u16,
            body: if warnings > 0 && !live_run {
                DetailBody::Warnings
            } else if live_run {
                DetailBody::LiveLog
            } else if has_replay {
                DetailBody::Replay
            } else {
                DetailBody::NoLog
            },
        }
    }
}

/// The detail page's layout (see `detail_layout_of`).
pub fn emu_detail_layout(height: u16, info_rows: usize, warnings: usize, live_run: bool, has_replay: bool) -> (r: DetailLayout)
    ensures
        r == detail_layout_of(height, info_rows as nat, warnings as nat, live_run, has_replay),
{
    let info: u16 = if info_rows == 0 {
        0
    } else if info_rows >= height as usize {
        height
    } else {
        let h = 2 * info_rows - 1;
        if h < height as usize { h as u16 } else { height }
    };
    let used: u32 = info as u32 + 1;
    if used >= height as u32 {
        return DetailLayout { info_height: info, body_top: 0, body_height: 0, body: DetailBody::Hidden };
    }
    let body = if warnings > 0 && !live_run {
        DetailBody::Warnings
    } else if live_run {
        DetailBody::LiveLog
    } else if has_replay {
        DetailBody::Replay
    } else {
        DetailBody::NoLog
    };
    DetailLayout { info_height: info, body_top: used as u16, body_height: (height as u32 - used) as u16, body }
}

} // verus!
