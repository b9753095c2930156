//! The disk page: the sizes of the dev build roots and worktree targets, and
//! what a cleanup freed.
use vstd::prelude::*;
use crate::draw::{piece, pieces_view, push_piece, Piece, PieceV, Tone};
use crate::render_util::{age_text, relative_age};
use crate::text::{join, push_str, to_owned_string, views};

verus! {

/// One row of the disk report.
#[derive(Clone, Debug)]
pub struct DiskRow {
    /// What is measured.
    pub label: String,
    /// Where it is, or what it holds.
    pub detail: String,
    /// Its size, when it exists.
    pub bytes: Option<u64>,
    /// A cleanup may remove it.
    pub cleanable: bool,
}

/// A row as plain values.
pub type DiskRowV = (Seq<char>, Seq<char>, Option<u64>, bool);

/// The plain values of a row.
pub open spec fn row_view(r: DiskRow) -> DiskRowV {
    (r.label@, r.detail@, r.bytes, r.cleanable)
}

/// The plain values of a list of rows.
pub open spec fn rows_view(rs: Seq<DiskRow>) -> Seq<DiskRowV> {
    rs.map_values(|r: DiskRow| row_view(r))
}

/// The label of the whole `target` directory's row.
pub open spec fn target_total_label() -> Seq<char> {
    "target"@
}

/// The size of the first row labelled `target`, if it has one.
pub open spec fn target_total_of(rows: Seq<DiskRowV>) -> Option<u64>
    decreases rows.len(),
{
    if rows.len() == 0 {
        None
    } else if rows[0].0 == target_total_label() {
        rows[0].2
    } else {
        target_total_of(rows.drop_first())
    }
}

/// The sizes of the cleanable rows that have one, added up.
pub open spec fn cleanable_sum(rows: Seq<DiskRowV>) -> nat
    decreases rows.len(),
{
    if rows.len() == 0 {
        0
    } else {
        cleanable_sum(rows.drop_last()) + match rows.last() {
            (_, _, Some(b), true) => b as nat,
            _ => 0,
        }
    }
}

/// A disk scan's rows.
#[derive(Clone, Debug)]
pub struct DiskReport {
    pub rows: Vec<DiskRow>,
}

impl DiskReport {
    /// The size of the whole `target` directory (see `target_total_of`).
    pub fn target_total(&self) -> (r: Option<u64>)
        ensures
            r == target_total_of(rows_view(self.rows@)),
    {
        let ghost rv = rows_view(self.rows@);
        let mut i: usize = 0;
        assert(rv.skip(0) =~= rv);
        while i < self.rows.len()
            invariant
                i <= self.rows@.len(),
                rv == rows_view(self.rows@),
                target_total_of(rv) == target_total_of(rv.skip(i as int)),
            decreases self.rows.len() - i,
        {
            assert(rv.skip(i as int)[0] == row_view(self.rows@[i as int]));
            assert(rv.skip(i as int).drop_first() =~= rv.skip(i + 1));
            if crate::text::str_eq(self.rows[i].label.as_str(), "target") {
                return self.rows[i].bytes;
            }
            i += 1;
        }
        None
    }

    /// What a cleanup could free: the sizes of the cleanable rows (see
    /// `cleanable_sum`), which must fit in a `u64`.
    pub fn cleanable_total(&self) -> (r: u64)
        requires
            cleanable_sum(rows_view(self.rows@)) <= u64::MAX,
        ensures
            r == cleanable_sum(rows_view(self.rows@)),
    {
        let ghost rv = rows_view(self.rows@);
        let mut total: u64 = 0;
        let mut i: usize = 0;
        while i < self.rows.len()
            invariant
                i <= self.rows@.len(),
                rv == rows_view(self.rows@),
                cleanable_sum(rv) <= u64::MAX,
                total == cleanable_sum(rv.take(i as int)),
            decreases self.rows.len() - i,
        {
            let ghost t = rv.take(i + 1);
            assert(t.drop_last() =~= rv.take(i as int));
            assert(t.last() == row_view(self.rows@[i as int]));
            proof {
                lemma_cleanable_prefix(rv, i + 1);
            }
            if self.rows[i].cleanable {
                match self.rows[i].bytes {
                    Some(b) => total = total + b,
                    None => {},
                }
            }
            i += 1;
        }
        assert(rv.take(self.rows@.len() as int) =~= rv);
        total
    }
}

proof fn lemma_cleanable_prefix(rows: Seq<DiskRowV>, k: int)
    requires
        0 <= k <= rows.len(),
    ensures
        cleanable_sum(rows.take(k)) <= cleanable_sum(rows),
    decreases rows.len() - k,
{
    if k < rows.len() {
        lemma_cleanable_prefix(rows, k + 1);
        assert(rows.take(k + 1).drop_last() =~= rows.take(k));
    } else {
        assert(rows.take(k) =~= rows);
    }
}

/// The views of a list of strings.
pub open spec fn string_views(v: Seq<String>) -> Seq<Seq<char>> {
    v.map_values(|s: String| s@)
}

/// The row a cleanup adds: what it freed, and the reasons of any removal
/// that failed.
pub open spec fn cleanup_row_of(freed: u64, failures: Seq<Seq<char>>) -> DiskRowV {
    ("cleanup · freed"@, "worktree targets removed · stale caches pruned"@ + (if failures.len() > 0 {
        " · could not remove: "@ + join(failures, "; "@)
    } else {
        Seq::empty()
    }), Some(freed), false)

}

/// The row a cleanup adds (see `cleanup_row_of`).
pub fn cleanup_row(freed: u64, failures: &Vec<String>) -> (r: DiskRow)
    ensures
        row_view(r) == cleanup_row_of(freed, views(failures@)),
{
    let mut detail = to_owned_string("worktree targets removed · stale caches pruned");
    if failures.len() > 0 {
        push_str(&mut detail, " · could not remove: ");
        let joined = crate::text::join_strings(failures, "; ");
        push_str(&mut detail, joined.as_str());
    }
    assert(detail@ =~= cleanup_row_of(freed, views(failures@)).1);

    DiskRow { label: to_owned_string("cleanup · freed"), detail, bytes: Some(freed), cleanable: false }
}

/// A measured path's row: its label, the path with a suffix, and its size
/// when it exists.
pub fn measured_row(label: String, path: &str, bytes: Option<u64>, cleanable: bool, suffix: &str) -> (r: DiskRow)
    ensures
        row_view(r) == (label@, path@ + suffix@, bytes, cleanable),
{
    let mut detail = to_owned_string(path);
    push_str(&mut detail, suffix);
    DiskRow { label, detail, bytes, cleanable }
}

/// A row for a directory whose location may be unknown: "location unknown"
/// without one, else the measured directory, never cleanable.
pub fn optional_dir_row(label: &str, location: Option<(String, Option<u64>)>) -> (r: DiskRow)
    ensures
        match location {
            None => row_view(r) == (label@, "location unknown"@, None::<u64>, false),
            Some((path, bytes)) => row_view(r) == (label@, path@, bytes, false),
        },
{
    match location {
        None => plain_row(label, "location unknown", None),
        Some((path, bytes)) => {
            let r = measured_row(to_owned_string(label), path.as_str(), bytes, false, "");
            proof {
                reveal_strlit("");
            }
            assert(path@ + ""@ =~= path@);
            r
        },
    }
}

/// The rows of the `target` directory: its total, the debug cache, the
/// development builds, the sandbox payloads and, when it exists, everything
/// else; without the directory, the same rows but for "other", none sized.
pub open spec fn target_rows_of(target: Seq<char>, sizes: Option<(u64, u64, u64, u64)>) -> Seq<DiskRowV> {
    match sizes {
        None => seq![
            (target_total_label(), target, None, false),
            ("target · debug"@, "live build cache"@, None, false),
            ("target · qol-dev"@, "development builds and runtime generations"@, None, false),
            ("target · qol-env"@, "sandbox guest payloads"@, None, false),
        ],
        Some((debug, dev, env, other)) => seq![
            (target_total_label(), target, Some((debug + dev + env + other) as u64), false),
            ("target · debug"@, "live build cache"@, Some(debug), false),
            ("target · qol-dev"@, "development builds and runtime generations"@, Some(dev), false),
            ("target · qol-env"@, "sandbox guest payloads"@, Some(env), false),
            ("target · other"@, "secondary build roots"@, Some(other), false),
        ],
    }
}

fn plain_row(label: &str, detail: &str, bytes: Option<u64>) -> (r: DiskRow)
    ensures
        row_view(r) == (label@, detail@, bytes, false),
{
    DiskRow { label: to_owned_string(label), detail: to_owned_string(detail), bytes, cleanable: false }
}

/// The rows of the `target` directory from its measured buckets (debug,
/// qol-dev, qol-env, other), `None` when it does not exist; the total must fit
/// in a `u64`.
pub fn target_root_rows(target: &str, sizes: Option<(u64, u64, u64, u64)>) -> (r: Vec<DiskRow>)
    requires
        sizes matches Some((a, b, c, d)) ==> a + b + c + d <= u64::MAX,
    ensures
        rows_view(r@) == target_rows_of(target@, sizes),
{
    let mut rows: Vec<DiskRow> = Vec::new();
    match sizes {
        None => {
            rows.push(plain_row("target", target, None));
            rows.push(plain_row("target · debug", "live build cache", None));
            rows.push(plain_row("target · qol-dev", "development builds and runtime generations", None));
            rows.push(plain_row("target · qol-env", "sandbox guest payloads", None));
        },
        Some((debug, dev, env, other)) => {
            let total = other + debug + dev + env;
            rows.push(plain_row("target", target, Some(total)));
            rows.push(plain_row("target · debug", "live build cache", Some(debug)));
            rows.push(plain_row("target · qol-dev", "development builds and runtime generations", Some(dev)));
            rows.push(plain_row("target · qol-env", "sandbox guest payloads", Some(env)));
            rows.push(plain_row("target · other", "secondary build roots", Some(other)));
        },
    }
    assert(rows_view(rows@) =~= target_rows_of(target@, sizes));
    rows
}

/// The disk page's state.
pub struct DiskPanel {
    /// The last finished scan.
    pub last: Option<DiskReport>,
    /// When it finished, in Unix milliseconds.
    pub last_at_ms: Option<u64>,
    /// What a scan or cleanup in progress is doing.
    pub scan_phase: Option<String>,
    /// Why the last scan failed.
    pub error: Option<String>,
}

impl DiskPanel {
    /// A page that has not scanned.
    pub fn new() -> (r: Self)
        ensures
            r.last is None,
            r.last_at_ms is None,
            r.scan_phase is None,
            r.error is None,
    {
        DiskPanel { last: None, last_at_ms: None, scan_phase: None, error: None }
    }

    /// Takes a finished scan: a report replaces the last one, stamped `now_ms`,
    /// and clears the error; a failure is kept as the error.
    pub fn apply_outcome(&mut self, outcome: Result<DiskReport, String>, now_ms: u64)
        ensures
            match outcome {
                Ok(report) => final(self).last == Some(report) && final(self).last_at_ms == Some(now_ms)
                    && final(self).error is None,
                Err(e) => final(self).error == Some(e) && final(self).last == old(self).last
                    && final(self).last_at_ms == old(self).last_at_ms,
            },
            final(self).scan_phase == old(self).scan_phase,
    {
        match outcome {
            Ok(report) => {
                self.last = Some(report);
                self.last_at_ms = Some(now_ms);
                self.error = None;
            },
            Err(error) => self.error = Some(error),
        }
    }
}

/// A disk scan or cleanup as the activity sign shows it.
pub fn disk_scan_activity(phase: &str, step: &str, started_at_ms: u64, now_ms: u64) -> (a: crate::dash::Activity)
    ensures
        a.title@ == "disk"@,
        a.phase@ == phase@,
        a.detail@ == step@,
        crate::clock::total_nanos(a.elapsed) == (if now_ms >= started_at_ms { (now_ms - started_at_ms) as nat } else { 0 }) * 1_000_000,
{
    let ms = now_ms.saturating_sub(started_at_ms);
    let nanos = (ms as u128) * 1_000_000;
    assert(nanos <= crate::clock::max_duration_nanos());
    crate::dash::Activity {
        title: to_owned_string("disk"),
        phase: to_owned_string(phase),
        detail: to_owned_string(step),
        elapsed: crate::clock::duration_from_nanos(nanos),
    }
}

/// Cleanable bytes from which the disk row asks for attention: 10 GiB.
pub const CLEANABLE_ATTENTION: u64 = 10 * 1024 * 1024 * 1024;

/// The disk row of the dashboard: the phase of a scan in progress (yellow);
/// else a failed scan (red); else an invitation to scan; else the target
/// size, what a cleanup could free (yellow from `CLEANABLE_ATTENTION` on)
/// and how long ago the scan finished. `total_text` and `cleanable_text` are
/// those two sizes as the byte formatter writes them.
pub open spec fn disk_status_of(
    panel: DiskPanel,
    now_ms: nat,
    total_text: Option<Seq<char>>,
    cleanable_text: Seq<char>,
) -> (Tone, Seq<PieceV>) {
    match panel.scan_phase {
        Some(p) => (Tone::Yellow, seq![(p@, Tone::Yellow, false)]),
        None => match panel.error {
            Some(e) => (Tone::Red, seq![("scan failed"@, Tone::Red, true), (" · "@ + e@, Tone::DarkGray, false)]),
            None => match panel.last {
                None => (Tone::Accent, seq![("enter to scan"@, Tone::DarkGray, false)]),
                Some(report) => {
                    let total = match total_text {
                        Some(t) => t,
                        None => "no target dir"@,
                    };
                    let cleanable = cleanable_sum(rows_view(report.rows@));
                    let tone = if cleanable >= CLEANABLE_ATTENTION { Tone::Yellow } else { Tone::Accent };
                    (tone, seq![(total + " target"@, Tone::DarkGray, false)] + (if cleanable > 0 {
                        seq![(" · "@ + cleanable_text + " cleanable"@, tone, false)]
                    } else {
                        seq![]
                    }) + match panel.last_at_ms {
                        Some(at) => seq![(" · "@ + age_text(now_ms, at as nat), Tone::DarkGray, false)],
                        None => seq![],
                    })
                },
            },
        },
    }
}

/// The disk row of the dashboard (see `disk_status_of`).
pub fn disk_status(panel: &DiskPanel, now_ms: u64, total_text: Option<&str>, cleanable_text: &str) -> (r: (Tone, Vec<Piece>))
    requires
        match panel.last {
            Some(report) => cleanable_sum(rows_view(report.rows@)) <= u64::MAX,
            None => true,
        },
    ensures
        (r.0, pieces_view(r.1@)) == disk_status_of(*panel, now_ms as nat, match total_text {
            Some(t) => Some(t@),
            None => None,
        }, cleanable_text@),
{
    let ghost spec = disk_status_of(*panel, now_ms as nat, match total_text {
        Some(t) => Some(t@),
        None => None,
    }, cleanable_text@);
    let mut value: Vec<Piece> = Vec::new();
    if let Some(phase) = &panel.scan_phase {
        push_piece(&mut value, piece(phase.as_str(), Tone::Yellow, false));
        assert(pieces_view(value@) =~= spec.1);
        return (Tone::Yellow, value);
    }
    if let Some(error) = &panel.error {
        push_piece(&mut value, piece("scan failed", Tone::Red, true));
        let mut text = to_owned_string(" · ");
        push_str(&mut text, error.as_str());
        push_piece(&mut value, Piece { text, tone: Tone::DarkGray, bold: false });
        assert(pieces_view(value@) =~= spec.1);
        return (Tone::Red, value);
    }
    let report = match &panel.last {
        Some(report) => report,
        None => {
            push_piece(&mut value, piece("enter to scan", Tone::DarkGray, false));
            assert(pieces_view(value@) =~= spec.1);
            return (Tone::Accent, value);
        },
    };
    let mut total = match total_text {
        Some(t) => to_owned_string(t),
        None => to_owned_string("no target dir"),
    };
    push_str(&mut total, " target");
    push_piece(&mut value, Piece { text: total, tone: Tone::DarkGray, bold: false });
    let cleanable = report.cleanable_total();
    let tone = if cleanable >= CLEANABLE_ATTENTION { Tone::Yellow } else { Tone::Accent };
    if cleanable > 0 {
        let mut text = to_owned_string(" · ");
        push_str(&mut text, cleanable_text);
        push_str(&mut text, " cleanable");
        push_piece(&mut value, Piece { text, tone, bold: false });
    }
    if let Some(at) = panel.last_at_ms {
        let mut text = to_owned_string(" · ");
        let age = relative_age(now_ms, at);
        push_str(&mut text, age.as_str());
        push_piece(&mut value, Piece { text, tone: Tone::DarkGray, bold: false });
    }
    assert(pieces_view(value@) =~= spec.1);
    (tone, value)
}

} // verus!
