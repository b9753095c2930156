//! The console's pages, dashboard rows and trace settings, and the progress
//! of a reload in flight.
use std::time::{Duration, Instant};
use vstd::prelude::*;
use crate::ansi::{ansi_plain, strip_ansi};
use crate::text::{
    chars_of, first_index_of, is_ws, slice_chars, starts_with, string_of, string_of_range, trim,
    trim_bounds, vec_find_char, vec_starts_with,
};

verus! {

/// The console's pages (the original's `View`; that name is Verus's view trait).
#[derive(Clone, Copy, PartialEq, Eq, Structural, Debug)]
pub enum Page {
    /// The overview of every service.
    Dashboard,
    /// The tray's own log.
    Logs,
    /// Install health checks.
    Doctor,
    /// Dev disk usage.
    Disk,
    /// Workspace plugins.
    Plugins,
    /// Sandboxes.
    Emu,
    /// One sandbox's log.
    EmuDetail,
    /// Runtime trace events.
    Trace,
    /// Local service endpoints.
    Endpoints,
}

/// How fast the trace view shows events.
#[derive(Clone, Copy, PartialEq, Eq, Structural, Debug)]
pub enum TraceRate {
    /// One event per kind per interval.
    Relaxed,
    /// Every event.
    Realtime,
}

impl TraceRate {
    /// Whether every event is shown.
    pub fn is_realtime(self) -> (b: bool)
        ensures
            b == (self == TraceRate::Realtime),
    {
        match self {
            TraceRate::Realtime => true,
            TraceRate::Relaxed => false,
        }
    }

    /// The other rate.
    pub fn toggled(self) -> (r: Self)
        ensures
            r != self,
    {
        match self {
            TraceRate::Relaxed => TraceRate::Realtime,
            TraceRate::Realtime => TraceRate::Relaxed,
        }
    }

    /// The rate's legend label.
    pub fn label(self) -> (s: &'static str)
        ensures
            self == TraceRate::Relaxed ==> s@ == "rate: relaxed"@,
            self == TraceRate::Realtime ==> s@ == "rate: realtime"@,
    {
        match self {
            TraceRate::Relaxed => "rate: relaxed",
            TraceRate::Realtime => "rate: realtime",
        }
    }
}

/// Toggling the trace rate twice restores it.
pub proof fn lemma_trace_rate_toggle_involutive(rate: TraceRate)
    ensures
        ({
            let once = if rate == TraceRate::Relaxed { TraceRate::Realtime } else { TraceRate::Relaxed };
            let twice = if once == TraceRate::Relaxed { TraceRate::Realtime } else { TraceRate::Relaxed };
            twice == rate
        }),
{
}

/// The program that renders trace events.
#[derive(Clone, Copy, PartialEq, Eq, Structural, Debug)]
pub enum TraceRenderer {
    /// The renderer built into the qol binary.
    Rust,
}

impl TraceRenderer {
    /// The renderer's display name.
    pub fn name(self) -> (s: &'static str)
        ensures
            s@ == "Rust"@,
    {
        match self {
            TraceRenderer::Rust => "Rust",
        }
    }

    /// The hint shown when the renderer cannot start.
    pub fn missing_hint(self) -> (s: &'static str)
        ensures
            s@ == "could not exec current qol binary"@,
    {
        match self {
            TraceRenderer::Rust => "could not exec current qol binary",
        }
    }
}

/// The dashboard's rows.
#[derive(Clone, Copy, PartialEq, Eq, Structural, Debug)]
pub enum Row {
    /// The tray process.
    Tray,
    /// The website.
    Web,
    /// Workspace plugins.
    Plugins,
    /// Sandboxes.
    Emu,
    /// Health checks.
    Doctor,
    /// Disk usage.
    Disk,
    /// The tray log.
    Logs,
    /// The trace stream.
    Trace,
}

/// The label of each dashboard row.
pub open spec fn row_label(row: Row) -> Seq<char> {
    match row {
        Row::Tray => "tray"@,
        Row::Web => "web"@,
        Row::Plugins => "plugins"@,
        Row::Emu => "sandboxes"@,
        Row::Doctor => "doctor"@,
        Row::Disk => "disk"@,
        Row::Logs => "logs"@,
        Row::Trace => "trace"@,
    }
}

impl Row {
    /// The row's label.
    pub fn label(self) -> (s: &'static str)
        ensures
            s@ == row_label(self),
    {
        match self {
            Row::Tray => "tray",
            Row::Web => "web",
            Row::Plugins => "plugins",
            Row::Emu => "sandboxes",
            Row::Doctor => "doctor",
            Row::Disk => "disk",
            Row::Logs => "logs",
            Row::Trace => "trace",
        }
    }
}

/// The dashboard rows in display order.
pub fn rows() -> (r: Vec<Row>)
    ensures
        r@ == seq![Row::Tray, Row::Web, Row::Plugins, Row::Emu, Row::Doctor, Row::Disk, Row::Logs, Row::Trace],
{
    vec![Row::Tray, Row::Web, Row::Plugins, Row::Emu, Row::Doctor, Row::Disk, Row::Logs, Row::Trace]
}

/// Whether a service answered its last probe.
#[derive(Clone, Copy, PartialEq, Eq, Structural, Debug)]
pub enum Health {
    /// No answer yet.
    Checking,
    /// The service answered.
    Up,
    /// The service did not answer.
    Down,
}

/// The health a probe result stands for.
pub fn health_state(up: bool) -> (h: Health)
    ensures
        h == (if up { Health::Up } else { Health::Down }),
{
    if up {
        Health::Up
    } else {
        Health::Down
    }
}

/// A point in time of the monotonic clock (std's `Instant`), carried opaquely.
#[verifier::external_type_specification]
#[verifier::external_body]
pub struct ExInstant(Instant);

/// The current instant (`Instant::now`).
#[verifier::external_body]
fn instant_now() -> Instant {
    Instant::now()
}

/// The time since `started` (`Instant::elapsed`); it depends on the clock, so
/// nothing is stated of it.
#[verifier::external_body]
fn instant_elapsed(started: &Instant) -> Duration {
    started.elapsed()
}

/// A long-running operation as the activity sign shows it.
pub struct Activity {
    /// What runs.
    pub title: String,
    /// Its current phase.
    pub phase: String,
    /// What the phase works on.
    pub detail: String,
    /// How long it has run.
    pub elapsed: Duration,
}

/// The progress of a reload, as the reload worker reports it, and the errors
/// its output has shown so far.
pub struct ReloadProgress {
    /// When the reload started.
    pub started: Instant,
    /// The worker's current phase.
    pub phase: String,
    /// What the phase works on.
    pub detail: String,
    /// The first coded compiler diagnostic (`error[...]`) seen.
    pub coded_error: Option<String>,
    /// The last compile-level error (`error: ...`) seen.
    pub summary_error: Option<String>,
}

/// What a structured progress line carries after `prefix`: the phase and the
/// detail, split at the first tab, both non-empty.
pub open spec fn progress_payload(prefix: Seq<char>, line: Seq<char>) -> Option<(Seq<char>, Seq<char>)> {
    if starts_with(line, prefix) {
        let payload = line.subrange(prefix.len() as int, line.len() as int);
        match first_index_of(payload, '\t') {
            Some(i) => {
                let phase = payload.subrange(0, i);
                let detail = payload.subrange(i + 1, payload.len() as int);
                if phase.len() > 0 && detail.len() > 0 {
                    Some((phase, detail))
                } else {
                    None
                }
            },
            None => None,
        }
    } else {
        None
    }
}

/// The view of an optional string.
pub open spec fn opt_seq(o: Option<String>) -> Option<Seq<char>> {
    match o {
        Some(s) => Some(s@),
        None => None,
    }
}

/// A coded compiler diagnostic: `error[`.
pub open spec fn is_coded_error(t: Seq<char>) -> bool {
    starts_with(t, "error["@)
}

/// A compile-level error: `error:`.
pub open spec fn is_summary_error(t: Seq<char>) -> bool {
    starts_with(t, "error:"@)
}

impl ReloadProgress {
    /// A reload that is preparing its dev artifacts and has seen no error.
    pub fn new() -> (r: Self)
        ensures
            r.phase@ == "prepare"@,
            r.detail@ == "dev artifacts"@,
            r.coded_error is None,
            r.summary_error is None,
    {
        ReloadProgress {
            started: instant_now(),
            phase: crate::text::to_owned_string("prepare"),
            detail: crate::text::to_owned_string("dev artifacts"),
            coded_error: None,
            summary_error: None,
        }
    }

    /// The reload as an activity: its phase, its detail and how long it has run.
    pub fn activity(&self) -> (a: Activity)
        ensures
            a.title@ == "reload"@,
            a.phase@ == self.phase@,
            a.detail@ == self.detail@,
    {
        Activity {
            title: crate::text::to_owned_string("reload"),
            phase: self.phase.clone(),
            detail: self.detail.clone(),
            elapsed: instant_elapsed(&self.started),
        }
    }

    /// Takes a structured progress line, `prefix` then `phase\tdetail`; returns
    /// whether `line` was one. Other lines leave the progress unchanged.
    pub fn observe(&mut self, prefix: &str, line: &str) -> (accepted: bool)
        ensures
            accepted == (progress_payload(prefix@, line@) is Some),
            match progress_payload(prefix@, line@) {
                Some((phase, detail)) => final(self).phase@ == phase && final(self).detail@ == detail,
                None => final(self).phase@ == old(self).phase@ && final(self).detail@ == old(self).detail@,
            },
            final(self).coded_error == old(self).coded_error,
            final(self).summary_error == old(self).summary_error,
            final(self).started == old(self).started,
    {
        let v = chars_of(line);
        let p = chars_of(prefix);
        if !vec_starts_with(&v, &p) {
            return false;
        }
        let payload = slice_chars(&v, p.len(), v.len());
        match vec_find_char(&payload, '\t') {
            Some(i) => {
                if i == 0 || i + 1 == payload.len() {
                    return false;
                }
                self.phase = string_of_range(&payload, 0, i);
                self.detail = string_of_range(&payload, i + 1, payload.len());
                true
            },
            None => false,
        }
    }

    /// Takes a line of failed build output: the first coded diagnostic and the
    /// last compile-level error are kept, compared on the line's plain, trimmed text.
    pub fn observe_failure(&mut self, line: &str)
        ensures
            ({
                let t = trim(ansi_plain(line@));
                &&& (old(self).coded_error is None && is_coded_error(t)) ==> opt_seq(final(self).coded_error) == Some(t)
                &&& !(old(self).coded_error is None && is_coded_error(t)) ==> final(self).coded_error
                    == old(self).coded_error
                &&& (!is_coded_error(t) && is_summary_error(t)) ==> opt_seq(final(self).summary_error) == Some(t)
                &&& !(!is_coded_error(t) && is_summary_error(t)) ==> final(self).summary_error
                    == old(self).summary_error
            }),
            final(self).phase == old(self).phase,
            final(self).detail == old(self).detail,
            final(self).started == old(self).started,
    {
        let plain = strip_ansi(line);
        let v = chars_of(plain.as_str());
        let (a, b) = trim_bounds(&v);
        let t = slice_chars(&v, a, b);
        let coded = chars_of("error[");
        let summary = chars_of("error:");
        if vec_starts_with(&t, &coded) {
            if self.coded_error.is_none() {
                self.coded_error = Some(string_of(&t));
            }
        } else if vec_starts_with(&t, &summary) {
            self.summary_error = Some(string_of(&t));
        }
    }
}

} // verus!
