//! The doctor page: the checks' report as rows, the status on the
//! dashboard, and the friendly and raw forms of a check line.
use vstd::prelude::*;
use crate::dev_server::first_occurrence;
use crate::dev_server::lemma_first_occurrence;
use crate::draw::{caret, caret_piece, piece_view, pieces_view, Piece, PieceV, Tone};
use crate::text::{
    chars_of, first_index_of, lines, lines_of, push_str, slice_chars, starts_with, string_of,
    string_of_range, to_owned_string, trim, trim_bounds, trim_start, vec_find, vec_find_char,
    vec_starts_with, vviews,
};

verus! {

/// The uppercase mapping of `c`, as `char::to_uppercase` yields it.
pub uninterp spec fn uppercase_of(c: char) -> Seq<char>;

/// The uppercase of `c` (`char::to_uppercase`, collected).
///
/// Trusted: the result is `uppercase_of(c)`, and an ASCII lowercase letter
/// maps to its ASCII uppercase letter.
#[verifier::external_body]
fn char_uppercase(c: char) -> (r: String)
    ensures
        r@ == uppercase_of(c),
        'a' <= c && c <= 'z' ==> r@ == seq![((c as u32) - 32) as char],
{
    c.to_uppercase().collect()
}

/// A check id made readable: underscores become spaces and the first
/// character is uppercased.
pub open spec fn humanized(id: Seq<char>) -> Seq<char> {
    let spaced = id.map_values(|c: char| if c == '_' { ' ' } else { c });
    if spaced.len() == 0 {
        spaced
    } else {
        uppercase_of(spaced[0]) + spaced.drop_first()
    }
}

/// A check id made readable (see `humanized`).
pub fn humanize_check_id(id: &str) -> (r: String)
    ensures
        r@ == humanized(id@),
        id@.len() > 0 && 'a' <= id@[0] && id@[0] <= 'z' ==> r@ == seq![((id@[0] as u32) - 32) as char]
            + id@.drop_first().map_values(|c: char| if c == '_' { ' ' } else { c }),
{
    let v = chars_of(id);
    let ghost spaced = id@.map_values(|c: char| if c == '_' { ' ' } else { c });
    if v.len() == 0 {
        assert(spaced =~= Seq::<char>::empty());
        return String::new();
    }
    let first = if v[0] == '_' { ' ' } else { v[0] };
    let mut r = char_uppercase(first);
    let ghost head = r@;
    let mut i: usize = 1;
    while i < v.len()
        invariant
            1 <= i <= v@.len(),
            v@ == id@,
            spaced == id@.map_values(|c: char| if c == '_' { ' ' } else { c }),
            r@ == head + spaced.subrange(1, i as int),
        decreases v.len() - i,
    {
        let c = if v[i] == '_' { ' ' } else { v[i] };
        crate::text::push_char(&mut r, c);
        assert(spaced.subrange(1, i + 1) =~= spaced.subrange(1, i as int).push(c));
        i += 1;
    }
    assert(spaced.subrange(1, v@.len() as int) =~= spaced.drop_first());
    assert(spaced.drop_first() =~= id@.drop_first().map_values(|c: char| if c == '_' { ' ' } else { c }));
    r
}

/// How a doctor run was started.
#[derive(Clone, Copy, PartialEq, Eq, Structural, Debug)]
pub enum DoctorMode {
    /// Checks only.
    Check,
    /// Checks and fixes.
    Fix,
}

impl DoctorMode {
    /// What the mode is doing, for the activity sign.
    pub fn gerund(self) -> (r: &'static str)
        ensures
            r@ == (if self == DoctorMode::Check { "checking"@ } else { "fixing"@ }),
    {
        match self {
            DoctorMode::Check => "checking",
            DoctorMode::Fix => "fixing",
        }
    }

    /// The doctor's arguments for a full run in this mode.
    pub fn full_command_args(self) -> (r: Vec<&'static str>)
        ensures
            r@.len() == 2,
            r@[0]@ == (if self == DoctorMode::Check { "check"@ } else { "fix"@ }),
            r@[1]@ == "--json"@,
    {
        let mut r = Vec::new();
        match self {
            DoctorMode::Check => r.push("check"),
            DoctorMode::Fix => r.push("fix"),
        }
        r.push("--json");
        r
    }
}

/// The doctor's arguments for the dashboard's background probe: the quick
/// checks only, as JSON.
pub fn quick_check_args() -> (r: Vec<&'static str>)
    ensures
        r@.len() == 3,
        r@[0]@ == "check"@,
        r@[1]@ == "--quick"@,
        r@[2]@ == "--json"@,
{
    let mut r = Vec::new();
    r.push("check");
    r.push("--quick");
    r.push("--json");
    r
}

/// What a check concluded.
#[derive(Clone, Copy, PartialEq, Eq, Structural, Debug)]
pub enum OutcomeStatus {
    /// The check passed (the wire format calls it `ok`).
    Passed,
    Warn,
    Error,
    Crash,
}

/// Where a status sorts: crashes first, then errors, warnings, passes.
pub open spec fn rank_of(status: OutcomeStatus) -> u8 {
    match status {
        OutcomeStatus::Crash => 0,
        OutcomeStatus::Error => 1,
        OutcomeStatus::Warn => 2,
        OutcomeStatus::Passed => 3,
    }
}

/// Where a status sorts (see `rank_of`).
pub fn status_rank(status: OutcomeStatus) -> (r: u8)
    ensures
        r == rank_of(status),
{
    match status {
        OutcomeStatus::Crash => 0,
        OutcomeStatus::Error => 1,
        OutcomeStatus::Warn => 2,
        OutcomeStatus::Passed => 3,
    }
}

/// The tag of a status in a report line.
pub open spec fn label_of(status: OutcomeStatus) -> Seq<char> {
    match status {
        OutcomeStatus::Passed => "OK"@,
        OutcomeStatus::Warn => "WARN"@,
        OutcomeStatus::Error => "ERR"@,
        OutcomeStatus::Crash => "CRASH"@,
    }
}

/// The tag of a status in a report line (see `label_of`).
pub fn outcome_status_label(status: OutcomeStatus) -> (r: &'static str)
    ensures
        r@ == label_of(status),
{
    match status {
        OutcomeStatus::Passed => "OK",
        OutcomeStatus::Warn => "WARN",
        OutcomeStatus::Error => "ERR",
        OutcomeStatus::Crash => "CRASH",
    }
}

/// The first line of `s`, or nothing when it has none.
pub open spec fn first_line_of(s: Seq<char>) -> Seq<char> {
    if lines(s).len() > 0 {
        lines(s)[0]
    } else {
        Seq::empty()
    }
}

/// The first line of `value` (see `first_line_of`).
pub fn first_line(value: &str) -> (r: String)
    ensures
        r@ == first_line_of(value@),
{
    let ls = lines_of(value);
    if ls.len() > 0 {
        assert(vviews(ls@)[0] == ls@[0]@);
        string_of(&ls[0])
    } else {
        String::new()
    }
}

/// One check's outcome.
#[derive(Clone, Debug)]
pub struct Outcome {
    /// The check's id.
    pub id: String,
    /// What it concluded.
    pub status: OutcomeStatus,
    /// Its message.
    pub message: String,
    /// A fix is available.
    pub fix_available: bool,
}

/// An outcome as plain values: id, status, message, fix available.
pub type OutcomeV = (Seq<char>, OutcomeStatus, Seq<char>, bool);

/// The plain values of an outcome.
pub open spec fn outcome_view(o: Outcome) -> OutcomeV {
    (o.id@, o.status, o.message@, o.fix_available)
}

/// The plain values of a list of outcomes.
pub open spec fn outcome_views(s: Seq<Outcome>) -> Seq<OutcomeV> {
    s.map_values(|o: Outcome| outcome_view(o))
}

/// `[<status>] <id>: <first line of the message>`, and ` (fix available)` when one is.
pub open spec fn outcome_line_of(o: OutcomeV) -> Seq<char> {
    "["@ + label_of(o.1) + "] "@ + o.0 + ": "@ + first_line_of(o.2) + (if o.3 {
        " (fix available)"@
    } else {
        ""@
    })
}

/// The report line of an outcome (see `outcome_line_of`).
pub fn outcome_line(o: &Outcome) -> (r: String)
    ensures
        r@ == outcome_line_of(outcome_view(*o)),
{
    let mut r = to_owned_string("[");
    push_str(&mut r, outcome_status_label(o.status));
    push_str(&mut r, "] ");
    push_str(&mut r, o.id.as_str());
    push_str(&mut r, ": ");
    let first = first_line(o.message.as_str());
    push_str(&mut r, first.as_str());
    push_str(&mut r, if o.fix_available { " (fix available)" } else { "" });
    r
}

/// The outcomes of `s` with status `st`, in order.
pub open spec fn with_status(s: Seq<OutcomeV>, st: OutcomeStatus) -> Seq<OutcomeV>
    decreases s.len(),
{
    if s.len() == 0 {
        Seq::empty()
    } else if s.last().1 == st {
        with_status(s.drop_last(), st).push(s.last())
    } else {
        with_status(s.drop_last(), st)
    }
}

/// The outcomes sorted by rank, each status keeping its order: crashes,
/// errors, warnings, passes.
pub open spec fn by_rank(s: Seq<OutcomeV>) -> Seq<OutcomeV> {
    with_status(s, OutcomeStatus::Crash) + with_status(s, OutcomeStatus::Error) + with_status(s, OutcomeStatus::Warn)
        + with_status(s, OutcomeStatus::Passed)
}

/// The report's rows and their details: every outcome, divergences first
/// (see `by_rank`), as its line and its full message.
pub open spec fn entries_of(s: Seq<OutcomeV>) -> (Seq<Seq<char>>, Seq<Seq<char>>) {
    (by_rank(s).map_values(|o: OutcomeV| outcome_line_of(o)), by_rank(s).map_values(|o: OutcomeV| o.2))
}

/// The views of a list of strings.
pub open spec fn string_views(v: Seq<String>) -> Seq<Seq<char>> {
    v.map_values(|s: String| s@)
}

fn push_status_entries(
    outcomes: &Vec<Outcome>,
    st: OutcomeStatus,
    rows: &mut Vec<String>,
    details: &mut Vec<String>,
)
    ensures
        string_views(final(rows)@) == string_views(old(rows)@) + with_status(outcome_views(outcomes@), st).map_values(
            |o: OutcomeV| outcome_line_of(o),
        ),
        string_views(final(details)@) == string_views(old(details)@) + with_status(outcome_views(outcomes@), st).map_values(
            |o: OutcomeV| o.2,
        ),
{
    let ghost ov = outcome_views(outcomes@);
    let ghost r0 = string_views(rows@);
    let ghost d0 = string_views(details@);
    let mut i: usize = 0;
    while i < outcomes.len()
        invariant
            i <= outcomes@.len(),
            ov == outcome_views(outcomes@),
            string_views(rows@) == r0 + with_status(ov.take(i as int), st).map_values(|o: OutcomeV| outcome_line_of(o)),
            string_views(details@) == d0 + with_status(ov.take(i as int), st).map_values(|o: OutcomeV| o.2),
        decreases outcomes.len() - i,
    {
        let ghost t = ov.take(i + 1);
        assert(t.drop_last() =~= ov.take(i as int));
        assert(t.last() == outcome_view(outcomes@[i as int]));
        let ghost rb = string_views(rows@);
        let ghost db = string_views(details@);
        if outcomes[i].status == st {
            rows.push(outcome_line(&outcomes[i]));
            details.push(outcomes[i].message.clone());
            assert(string_views(rows@) =~= rb.push(outcome_line_of(ov[i as int])));
            assert(string_views(details@) =~= db.push(ov[i as int].2));
        }
        i += 1;
    }
    assert(ov.take(outcomes@.len() as int) =~= ov);
}

/// The report's rows and their details (see `entries_of`).
pub fn report_entries(outcomes: &Vec<Outcome>) -> (r: (Vec<String>, Vec<String>))
    ensures
        (string_views(r.0@), string_views(r.1@)) == entries_of(outcome_views(outcomes@)),
{
    let mut rows: Vec<String> = Vec::new();
    let mut details: Vec<String> = Vec::new();
    push_status_entries(outcomes, OutcomeStatus::Crash, &mut rows, &mut details);
    push_status_entries(outcomes, OutcomeStatus::Error, &mut rows, &mut details);
    push_status_entries(outcomes, OutcomeStatus::Warn, &mut rows, &mut details);
    push_status_entries(outcomes, OutcomeStatus::Passed, &mut rows, &mut details);
    proof {
        let s = outcome_views(outcomes@);
        let f = |o: OutcomeV| outcome_line_of(o);
        let g = |o: OutcomeV| o.2;
        let (c, e, w, k) = (
            with_status(s, OutcomeStatus::Crash),
            with_status(s, OutcomeStatus::Error),
            with_status(s, OutcomeStatus::Warn),
            with_status(s, OutcomeStatus::Passed),
        );
        assert((c + e + w + k).map_values(f) =~= c.map_values(f) + e.map_values(f) + w.map_values(f) + k.map_values(f));
        assert((c + e + w + k).map_values(g) =~= c.map_values(g) + e.map_values(g) + w.map_values(g) + k.map_values(g));
        assert(string_views(rows@) =~= Seq::<Seq<char>>::empty() + c.map_values(f) + e.map_values(f) + w.map_values(f)
            + k.map_values(f));
        assert(string_views(details@) =~= Seq::<Seq<char>>::empty() + c.map_values(g) + e.map_values(g) + w.map_values(g)
            + k.map_values(g));
    }
    (rows, details)
}

} // verus!

verus! {

// ------------------------------------------------------------------ lines

/// The symbol and tone of a report line by its tag, if it has one.
pub open spec fn line_style_of(raw: Seq<char>) -> Option<(Seq<char>, Tone)> {
    let t = trim_start(raw);
    if starts_with(t, "[OK]"@) {
        Some(("✓"@, Tone::Accent))
    } else if starts_with(t, "[WARN]"@) {
        Some(("▲"@, Tone::Yellow))
    } else if starts_with(t, "[ERR]"@) {
        Some(("✗"@, Tone::Red))
    } else if starts_with(t, "[CRASH]"@) {
        Some(("✗"@, Tone::Magenta))
    } else {
        None
    }
}

fn trim_start_chars(v: &Vec<char>) -> (r: Vec<char>)
    ensures
        r@ == trim_start(v@),
{
    let mut i: usize = 0;
    assert(v@.skip(0) =~= v@);
    while i < v.len() && crate::text::is_whitespace(v[i])

        invariant
            i <= v@.len(),
            trim_start(v@) == trim_start(v@.skip(i as int)),
        decreases v.len() - i,
    {
        assert(v@.skip(i as int).drop_first() =~= v@.skip(i + 1));
        i += 1;
    }
    proof {
        let s = v@.skip(i as int);
        if s.len() > 0 {
            assert(s[0] == v@[i as int]);
        }
    }
    slice_chars_skip(v, i)

}

fn slice_chars_skip(v: &Vec<char>, i: usize) -> (r: Vec<char>)
    requires
        i <= v@.len(),
    ensures
        r@ == v@.skip(i as int),
{
    let r = slice_chars(v, i, v.len());
    assert(r@ =~= v@.skip(i as int));
    r
}

/// The symbol and tone of a report line (see `line_style_of`).
pub fn doctor_line_style(raw: &str) -> (r: Option<(&'static str, Tone)>)
    ensures
        match r {
            Some((sym, tone)) => line_style_of(raw@) == Some((sym@, tone)),
            None => line_style_of(raw@) is None,
        },
{
    let t = trim_start_chars(&chars_of(raw));
    if vec_starts_with(&t, &chars_of("[OK]")) {
        Some(("✓", Tone::Accent))
    } else if vec_starts_with(&t, &chars_of("[WARN]")) {
        Some(("▲", Tone::Yellow))
    } else if vec_starts_with(&t, &chars_of("[ERR]")) {
        Some(("✗", Tone::Red))
    } else if vec_starts_with(&t, &chars_of("[CRASH]")) {
        Some(("✗", Tone::Magenta))
    } else {
        None
    }
}

/// What follows the first `]` of `t`, or nothing when there is none.
pub open spec fn after_tag(t: Seq<char>) -> Seq<char> {
    match first_index_of(t, ']') {
        Some(i) => t.skip(i + 1),
        None => Seq::empty(),
    }
}

fn after_tag_chars(t: &Vec<char>) -> (r: Vec<char>)
    ensures
        r@ == after_tag(t@),
{
    match vec_find_char(t, ']') {
        Some(i) => slice_chars_skip(t, i + 1),
        None => Vec::new(),
    }
}

/// A raw report line: caret, then the tag's symbol and the rest of the line
/// after the tag; a line without a known tag shows as it is.
pub open spec fn styled_line_spec(raw: Seq<char>, selected: bool) -> Seq<PieceV> {
    match line_style_of(raw) {
        None => seq![caret_piece(selected), (trim_start(raw), Tone::Plain, false)],
        Some((sym, tone)) => seq![
            caret_piece(selected),
            (sym + " "@, tone, true),
            (trim_start(after_tag(trim_start(raw))), Tone::Plain, false),
        ],
    }
}

fn plain_piece(v: &Vec<char>) -> (p: Piece)
    ensures
        piece_view(p) == (v@, Tone::Plain, false),
{
    Piece { text: string_of(v), tone: Tone::Plain, bold: false }
}

fn symbol_piece(sym: &str, tone: Tone, suffix: &str) -> (p: Piece)
    ensures
        piece_view(p) == (sym@ + suffix@, tone, true),
{
    let mut text = to_owned_string(sym);
    push_str(&mut text, suffix);
    Piece { text, tone, bold: true }
}

/// A raw report line (see `styled_line_spec`).
pub fn styled_doctor_line(raw: &str, selected: bool) -> (r: Vec<Piece>)
    ensures
        pieces_view(r@) == styled_line_spec(raw@, selected),
{
    let t = trim_start_chars(&chars_of(raw));
    let mut r: Vec<Piece> = Vec::new();
    r.push(caret(selected));
    match doctor_line_style(raw) {
        None => {
            r.push(plain_piece(&t));
        },
        Some((sym, tone)) => {
            r.push(symbol_piece(sym, tone, " "));
            let rest = trim_start_chars(&after_tag_chars(&t));
            r.push(plain_piece(&rest));
        },
    }
    assert(pieces_view(r@) =~= styled_line_spec(raw@, selected));
    r
}

/// The part of a message after its first em dash, trimmed; the whole message,
/// trimmed, when it has none.
pub open spec fn message_detail(message: Seq<char>) -> Seq<char> {
    match first_index_of(message, '\u{2014}') {
        Some(i) => trim(message.skip(i + 1)),
        None => trim(message),
    }
}

/// A report line for reading: caret, the tag's symbol and the check's
/// humanized name; a passed check shows nothing more, others ` - ` and the
/// message's detail. A line without `id: message` keeps its text after the
/// tag; a line without a known tag shows as it is.
pub open spec fn friendly_line_spec(raw: Seq<char>, selected: bool) -> Seq<PieceV> {
    match line_style_of(raw) {
        None => seq![caret_piece(selected), (trim_start(raw), Tone::Plain, false)],
        Some((sym, tone)) => {
            let rest = trim_start(after_tag(trim_start(raw)));
            match first_occurrence(rest, ": "@) {
                None => seq![caret_piece(selected), (sym + " "@, tone, true), (rest, Tone::Plain, false)],
                Some(i) => {
                    let head = sym + " "@ + humanized(rest.take(i));
                    if sym == "✓"@ {
                        seq![caret_piece(selected), (head, tone, true)]
                    } else {
                        seq![
                            caret_piece(selected),
                            (head + " - "@, tone, true),
                            (message_detail(rest.skip(i + ": "@.len())), Tone::Plain, false),
                        ]
                    }
                },
            }
        },
    }
}

/// A report line for reading (see `friendly_line_spec`).
pub fn friendly_doctor_line(raw: &str, selected: bool) -> (r: Vec<Piece>)
    ensures
        pieces_view(r@) == friendly_line_spec(raw@, selected),
{
    let t = trim_start_chars(&chars_of(raw));
    let mut r: Vec<Piece> = Vec::new();
    r.push(caret(selected));
    let style = doctor_line_style(raw);
    if style.is_none() {
        r.push(plain_piece(&t));
        assert(pieces_view(r@) =~= friendly_line_spec(raw@, selected));
        return r;
    }
    let (sym, tone) = style.unwrap();
    let rest = trim_start_chars(&after_tag_chars(&t));
    let sep = chars_of(": ");
    match vec_find(&rest, &sep) {
        None => {
            r.push(symbol_piece(sym, tone, " "));
            r.push(plain_piece(&rest));
            assert(pieces_view(r@) =~= friendly_line_spec(raw@, selected));
            r
        },
        Some(i) => {
            proof {
                lemma_first_occurrence(rest@, ": "@, i as int);
            }
            let n = rest.len();
            assert(crate::text::occurs_at(rest@, sep@, i as int));
            let id = string_of_range(&rest, 0, i);
            assert(id@ =~= rest@.take(i as int));
            let human = humanize_check_id(id.as_str());
            let mut head = to_owned_string(sym);
            push_str(&mut head, " ");
            push_str(&mut head, human.as_str());
            if crate::text::str_eq(sym, "✓") {
                r.push(Piece { text: head, tone, bold: true });
            } else {
                push_str(&mut head, " - ");
                r.push(Piece { text: head, tone, bold: true });
                let message = slice_chars(&rest, i + sep.len(), n);
                assert(message@ =~= rest@.skip(i + ": "@.len()));
                let detail = match vec_find_char(&message, '\u{2014}') {
                    Some(d) => crate::text::trimmed(&slice_chars_skip(&message, d + 1)),
                    None => crate::text::trimmed(&message),
                };
                r.push(plain_piece(&detail));
            }
            assert(pieces_view(r@) =~= friendly_line_spec(raw@, selected));
            r
        },
    }
}

} // verus!

verus! {

// ------------------------------------------------------------------ report and panel

/// A doctor report: every check's outcome.
#[derive(Clone, Debug)]
pub struct DoctorReport {
    pub outcomes: Vec<Outcome>,
}

/// How many outcomes of `s` have status `st`.
pub open spec fn count_of(s: Seq<OutcomeV>, st: OutcomeStatus) -> nat {
    with_status(s, st).len()
}

proof fn lemma_with_status_len(s: Seq<OutcomeV>, st: OutcomeStatus)
    ensures
        with_status(s, st).len() <= s.len(),
    decreases s.len(),
{
    if s.len() > 0 {
        lemma_with_status_len(s.drop_last(), st);
    }
}

impl DoctorReport {
    /// How many outcomes have status `st`.
    pub fn count(&self, st: OutcomeStatus) -> (n: usize)
        ensures
            n == count_of(outcome_views(self.outcomes@), st),
    {
        let ghost ov = outcome_views(self.outcomes@);
        let mut n: usize = 0;
        let mut i: usize = 0;
        while i < self.outcomes.len()
            invariant
                i <= self.outcomes@.len(),
                ov == outcome_views(self.outcomes@),
                n == count_of(ov.take(i as int), st),
            decreases self.outcomes.len() - i,
        {
            let ghost t = ov.take(i + 1);
            assert(t.drop_last() =~= ov.take(i as int));
            proof {
                lemma_with_status_len(ov.take(i as int), st);
            }
            if self.outcomes[i].status == st {
                n += 1;
            }
            i += 1;
        }
        assert(ov.take(self.outcomes@.len() as int) =~= ov);
        n
    }

    /// Warnings, errors and crashes together.
    pub fn divergence_count(&self) -> (n: usize)
        ensures
            n == count_of(outcome_views(self.outcomes@), OutcomeStatus::Warn) + count_of(
                outcome_views(self.outcomes@),
                OutcomeStatus::Error,
            ) + count_of(outcome_views(self.outcomes@), OutcomeStatus::Crash),
    {
        let _n = self.outcomes.len();
        let w = self.count(OutcomeStatus::Warn);

        let e = self.count(OutcomeStatus::Error);
        let c = self.count(OutcomeStatus::Crash);
        proof {
            lemma_counts_bounded(outcome_views(self.outcomes@));
        }
        w + e + c
    }
}

proof fn lemma_counts_bounded(s: Seq<OutcomeV>)
    ensures
        count_of(s, OutcomeStatus::Warn) + count_of(s, OutcomeStatus::Error) + count_of(s, OutcomeStatus::Crash)
            + count_of(s, OutcomeStatus::Passed) == s.len(),
    decreases s.len(),
{
    if s.len() > 0 {
        lemma_counts_bounded(s.drop_last());
    }
}

/// How much a run checked.
#[derive(Clone, Copy, PartialEq, Eq, Structural, Debug)]
pub enum DoctorScope {
    /// Every check.
    Full,
    /// The quick checks of the background probe.
    Quick,
}

/// A finished doctor run: its report, its rows and their details.
#[derive(Clone, Debug)]
pub struct DoctorRun {
    pub report: DoctorReport,
    pub lines: Vec<String>,
    pub details: Vec<String>,
    pub scope: DoctorScope,
}

/// The run from a parsed report: its rows and details come from the outcomes
/// (see `report_entries`).
pub fn doctor_run_of(report: DoctorReport, scope: DoctorScope) -> (r: DoctorRun)
    ensures
        outcome_views(r.report.outcomes@) == outcome_views(report.outcomes@),
        (string_views(r.lines@), string_views(r.details@)) == entries_of(outcome_views(report.outcomes@)),
        r.scope == scope,
{
    let (lines, details) = report_entries(&report.outcomes);
    DoctorRun { report, lines, details, scope }
}

/// The run of a fix: a row and a detail for each failed fix, then the rows of
/// the report taken after fixing.
pub fn fix_run_of(failures: &Vec<String>, after: DoctorReport, scope: DoctorScope) -> (r: DoctorRun)
    ensures
        outcome_views(r.report.outcomes@) == outcome_views(after.outcomes@),
        string_views(r.lines@) == string_views(failures@).map_values(|f: Seq<char>| "[ERR] "@ + first_line_of(f))
            + entries_of(outcome_views(after.outcomes@)).0,
        string_views(r.details@) == string_views(failures@) + entries_of(outcome_views(after.outcomes@)).1,
        r.scope == scope,
{
    let ghost fv = string_views(failures@);
    let mut lines: Vec<String> = Vec::new();
    let mut details: Vec<String> = Vec::new();
    let mut i: usize = 0;
    while i < failures.len()
        invariant
            i <= failures@.len(),
            fv == string_views(failures@),
            string_views(lines@) == fv.take(i as int).map_values(|f: Seq<char>| "[ERR] "@ + first_line_of(f)),
            string_views(details@) == fv.take(i as int),
        decreases failures.len() - i,
    {
        let mut line = to_owned_string("[ERR] ");
        let first = first_line(failures[i].as_str());
        push_str(&mut line, first.as_str());
        let ghost lb = string_views(lines@);
        let ghost db = string_views(details@);
        lines.push(line);
        details.push(failures[i].clone());
        assert(string_views(lines@) =~= lb.push("[ERR] "@ + first_line_of(fv[i as int])));
        assert(fv.take(i + 1) =~= fv.take(i as int).push(fv[i as int]));
        assert(fv.take(i + 1).map_values(|f: Seq<char>| "[ERR] "@ + first_line_of(f)) =~= fv.take(i as int).map_values(
            |f: Seq<char>| "[ERR] "@ + first_line_of(f),
        ).push("[ERR] "@ + first_line_of(fv[i as int])));
        assert(string_views(lines@) =~= fv.take(i + 1).map_values(|f: Seq<char>| "[ERR] "@ + first_line_of(f)));

        assert(string_views(details@) =~= fv.take(i + 1));
        i += 1;
    }
    assert(fv.take(failures@.len() as int) =~= fv);
    let (after_lines, after_details) = report_entries(&after.outcomes);
    let ghost l0 = string_views(lines@);
    let ghost d0 = string_views(details@);
    let mut after_lines = after_lines;
    let mut after_details = after_details;
    let ghost al = string_views(after_lines@);
    let ghost ad = string_views(after_details@);
    lines.append(&mut after_lines);
    details.append(&mut after_details);
    assert(string_views(lines@) =~= l0 + al);
    assert(string_views(details@) =~= d0 + ad);
    DoctorRun { report: after, lines, details, scope }
}

/// Why a run's output could not be read: the parse error, and the doctor's
/// own error output when it wrote any.
pub fn doctor_read_error(error: &str, stderr: &str) -> (r: String)
    ensures
        trim(stderr@).len() == 0 ==> r@ == "could not read doctor report: "@ + error@,
        trim(stderr@).len() > 0 ==> r@ == "could not read doctor report: "@ + error@ + ": "@ + trim(stderr@),
{
    let mut r = to_owned_string("could not read doctor report: ");
    push_str(&mut r, error);
    let detail = crate::text::trimmed(&chars_of(stderr));
    if detail.len() > 0 {
        push_str(&mut r, ": ");
        let d = string_of(&detail);
        push_str(&mut r, d.as_str());
    }
    r
}

/// The doctor page's state.
pub struct DoctorPanel {
    /// The last finished run.
    pub last: Option<DoctorRun>,
    /// When it finished, in Unix milliseconds.
    pub last_at_ms: Option<u64>,
    /// The mode of a run started by hand and still going.
    pub manual: Option<DoctorMode>,
    /// Why the last probe failed.
    pub error: Option<String>,
}

/// The doctor page's rows: the probe's error first, then the last run's rows.
pub open spec fn view_lines_of(error: Option<Seq<char>>, run_lines: Option<Seq<Seq<char>>>) -> Seq<Seq<char>> {
    (match error {
        Some(e) => seq!["[ERR] doctor: "@ + e],
        None => Seq::empty(),
    }) + match run_lines {
        Some(ls) => ls,
        None => Seq::empty(),
    }
}

/// The doctor page's rows (see `view_lines_of`).
pub fn doctor_view_lines(panel: &DoctorPanel) -> (r: Vec<String>)
    ensures
        string_views(r@) == view_lines_of(crate::dash::opt_seq(panel.error), match panel.last {
            Some(run) => Some(string_views(run.lines@)),
            None => None,
        }),
{
    let mut r: Vec<String> = Vec::new();
    match &panel.error {
        Some(e) => {
            let mut line = to_owned_string("[ERR] doctor: ");
            push_str(&mut line, e.as_str());
            r.push(line);
        },
        None => {},
    }
    let ghost head = string_views(r@);
    match &panel.last {
        Some(run) => {
            let mut i: usize = 0;
            while i < run.lines.len()
                invariant
                    i <= run.lines@.len(),
                    string_views(r@) == head + string_views(run.lines@).take(i as int),
                decreases run.lines.len() - i,
            {
                let ghost before = string_views(r@);
                r.push(run.lines[i].clone());
                assert(string_views(r@) =~= before.push(run.lines@[i as int]@));

                assert(string_views(run.lines@).take(i + 1) =~= string_views(run.lines@).take(i as int).push(run.lines@[i as int]@));
                i += 1;
            }
            assert(string_views(run.lines@).take(run.lines@.len() as int) =~= string_views(run.lines@));
        },
        None => {},
    }
    assert(string_views(r@) =~= view_lines_of(crate::dash::opt_seq(panel.error), match panel.last {
        Some(run) => Some(string_views(run.lines@)),
        None => None,
    }));
    r
}

/// The detail of the row under the cursor: the probe's error on its row,
/// else the detail of the run's row.
pub fn doctor_detail_text(panel: &DoctorPanel, cursor: usize) -> (r: Option<String>)
    ensures
        match panel.error {
            Some(e) => if cursor == 0 {
                r matches Some(t) && t@ == e@
            } else {
                match panel.last {
                    Some(run) => if cursor - 1 < run.details@.len() {
                        r matches Some(t) && t@ == run.details@[cursor - 1]@
                    } else {
                        r is None
                    },
                    None => r is None,
                }
            },
            None => match panel.last {
                Some(run) => if cursor < run.details@.len() {
                    r matches Some(t) && t@ == run.details@[cursor as int]@
                } else {
                    r is None
                },
                None => r is None,
            },
        },
{
    let error_rows: usize = if panel.error.is_some() { 1 } else { 0 };
    if cursor < error_rows {
        return panel.error.clone();
    }
    match &panel.last {
        None => None,
        Some(run) => {
            let k = cursor - error_rows;
            if k < run.details.len() {
                Some(run.details[k].clone())
            } else {
                None
            }
        },
    }
}

} // verus!

verus! {

/// What a mode is doing.
pub open spec fn gerund_of(mode: DoctorMode) -> Seq<char> {
    if mode == DoctorMode::Check { "checking"@ } else { "fixing"@ }
}

/// The doctor's dashboard status: a run by hand shows its mode; before any
/// run, the probe's error or that the first check is awaited; after a run,
/// "all good" with its count of passed checks, or the divergences with their
/// warnings and errors (red when any error or crash), then how long ago it
/// finished and whether the latest probe failed.
pub open spec fn doctor_status_of(panel: DoctorPanel, now_ms: nat) -> (Tone, Seq<PieceV>) {
    match panel.manual {
        Some(mode) => (Tone::Yellow, seq![(gerund_of(mode), Tone::Yellow, false)]),
        None => match panel.last {
            None => (Tone::Yellow, seq![(match panel.error {
                Some(e) => e@,
                None => "waiting for first check"@,
            }, Tone::DarkGray, false)]),
            Some(run) => {
                let s = outcome_views(run.report.outcomes@);
                let ok = count_of(s, OutcomeStatus::Passed);
                let warn = count_of(s, OutcomeStatus::Warn);
                let errors = count_of(s, OutcomeStatus::Error) + count_of(s, OutcomeStatus::Crash);
                let divergences = warn + errors;
                let (tone, value) = if divergences == 0 {
                    (Tone::Accent, seq![
                        ("all good"@, Tone::Accent, true),
                        (" · "@ + crate::text::dec(ok) + (if run.scope == DoctorScope::Full { " checks"@ } else { " quick checks"@ }), Tone::DarkGray, false),
                    ])
                } else {
                    let tone = if errors > 0 { Tone::Red } else { Tone::Yellow };
                    (tone, seq![
                        (crate::text::dec(divergences) + " divergences"@, tone, true),
                        (" · "@ + crate::text::dec(warn) + " warn · "@ + crate::text::dec(errors) + " err"@, Tone::DarkGray, false),
                    ])
                };
                let age = match panel.last_at_ms {
                    Some(at) => seq![(" · "@ + crate::render_util::age_text(now_ms, at as nat), Tone::DarkGray, false)],
                    None => Seq::<PieceV>::empty(),
                };
                let failed = if panel.error is Some {
                    seq![(" · probe failed"@, Tone::DarkGray, false)]
                } else {
                    Seq::<PieceV>::empty()
                };
                (tone, value + age + failed)
            },
        },
    }
}

fn text_piece(text: String, tone: Tone, bold: bool) -> (p: Piece)
    ensures
        piece_view(p) == (text@, tone, bold),
{
    Piece { text, tone, bold }
}

/// The doctor's dashboard status (see `doctor_status_of`).
pub fn doctor_status(panel: &DoctorPanel, now_ms: u64) -> (r: (Tone, Vec<Piece>))
    ensures
        (r.0, pieces_view(r.1@)) == doctor_status_of(*panel, now_ms as nat),
{
    let mut value: Vec<Piece> = Vec::new();
    match panel.manual {
        Some(mode) => {
            value.push(text_piece(to_owned_string(mode.gerund()), Tone::Yellow, false));
            assert(pieces_view(value@) =~= doctor_status_of(*panel, now_ms as nat).1);
            return (Tone::Yellow, value);
        },
        None => {},
    }
    let run = match &panel.last {
        None => {
            let detail = match &panel.error {
                Some(e) => e.clone(),
                None => to_owned_string("waiting for first check"),
            };
            value.push(text_piece(detail, Tone::DarkGray, false));
            assert(pieces_view(value@) =~= doctor_status_of(*panel, now_ms as nat).1);
            return (Tone::Yellow, value);
        },
        Some(run) => run,
    };
    let ok = run.report.count(OutcomeStatus::Passed);
    let warn = run.report.count(OutcomeStatus::Warn);
    let err = run.report.count(OutcomeStatus::Error);
    let crash = run.report.count(OutcomeStatus::Crash);
    let _n = run.report.outcomes.len();
    proof {
        lemma_counts_bounded(outcome_views(run.report.outcomes@));
    }
    let errors = err + crash;
    let divergences = warn + errors;
    let tone = if divergences == 0 {
        value.push(text_piece(to_owned_string("all good"), Tone::Accent, true));
        let mut t = to_owned_string(" · ");
        let n = crate::text::u64_to_string(ok as u64);
        push_str(&mut t, n.as_str());
        push_str(&mut t, if run.scope == DoctorScope::Full { " checks" } else { " quick checks" });
        value.push(text_piece(t, Tone::DarkGray, false));
        Tone::Accent
    } else {
        let tone = if errors > 0 { Tone::Red } else { Tone::Yellow };
        let mut label = crate::text::u64_to_string(divergences as u64);
        push_str(&mut label, " divergences");
        value.push(text_piece(label, tone, true));
        let mut t = to_owned_string(" · ");
        let w = crate::text::u64_to_string(warn as u64);
        push_str(&mut t, w.as_str());
        push_str(&mut t, " warn · ");
        let e = crate::text::u64_to_string(errors as u64);
        push_str(&mut t, e.as_str());
        push_str(&mut t, " err");
        value.push(text_piece(t, Tone::DarkGray, false));
        tone
    };
    let ghost head = pieces_view(value@);
    match panel.last_at_ms {
        Some(at) => {
            let mut t = to_owned_string(" · ");
            let age = crate::render_util::relative_age(now_ms, at);
            push_str(&mut t, age.as_str());
            value.push(text_piece(t, Tone::DarkGray, false));
        },
        None => {},
    }
    let ghost with_age = pieces_view(value@);
    if panel.error.is_some() {
        value.push(text_piece(to_owned_string(" · probe failed"), Tone::DarkGray, false));
    }
    proof {
        let spec = doctor_status_of(*panel, now_ms as nat);
        let age = match panel.last_at_ms {
            Some(at) => seq![(" · "@ + crate::render_util::age_text(now_ms as nat, at as nat), Tone::DarkGray, false)],
            None => Seq::<PieceV>::empty(),
        };
        assert(with_age =~= head + age);
        assert(pieces_view(value@) =~= spec.1);
    }
    (tone, value)
}

} // verus!

verus! {

/// A doctor run started by hand, as the activity sign shows it: its mode, the
/// step it reports and the time since it started.
pub fn manual_doctor_activity(mode: DoctorMode, step: &str, started_at_ms: u64, now_ms: u64) -> (a: crate::dash::Activity)
    ensures
        a.title@ == "doctor"@,
        a.phase@ == gerund_of(mode),
        a.detail@ == step@,
        crate::clock::total_nanos(a.elapsed) == (if now_ms >= started_at_ms { (now_ms - started_at_ms) as nat } else { 0 }) * 1_000_000,
{
    let ms = now_ms.saturating_sub(started_at_ms);
    let nanos = (ms as u128) * 1_000_000;
    assert(nanos <= crate::clock::max_duration_nanos());
    crate::dash::Activity {
        title: to_owned_string("doctor"),
        phase: to_owned_string(mode.gerund()),
        detail: to_owned_string(step),
        elapsed: crate::clock::duration_from_nanos(nanos),
    }
}


/// Why a manual doctor run cannot start: no fresh prebuilt doctor binary.
pub const DOCTOR_PREBUILT_ERROR: &'static str =
    "doctor binary is not prebuilt or is stale · press ctrl+r to compile all dev binaries";

/// The step a manual run shows while it resolves its binary.
pub const RESOLVE_DOCTOR_STEP: &'static str = "using prebuilt doctor binary";

/// The binary a manual doctor run uses: the prebuilt one in the workspace's
/// debug directory, when it is a file and its build identity checks out
/// (`identity`: that check's outcome, made by the caller on that file). The
/// progress step reads `RESOLVE_DOCTOR_STEP` from the start, whatever the
/// outcome.
pub fn resolve_manual_doctor_binary(
    root: &str,
    is_file: bool,
    identity: Result<(), String>,
    progress: &mut String,
) -> (r: Result<Vec<String>, String>)
    ensures
        final(progress)@ == RESOLVE_DOCTOR_STEP@,
        !is_file ==> (r matches Err(e) && e@ == DOCTOR_PREBUILT_ERROR@),
        is_file ==> match identity {
            Ok(_) => r matches Ok(p) && crate::text::views(p@) == seq![
                root@,
                "target"@,
                "debug"@,
                crate::workspace::exe_file_name("qol-tray-doctor"@),
            ],
            Err(e) => r matches Err(f) && f@ == e@,
        },
{
    *progress = to_owned_string(RESOLVE_DOCTOR_STEP);
    if !is_file {
        return Err(to_owned_string(DOCTOR_PREBUILT_ERROR));
    }
    match identity {
        Ok(()) => Ok(crate::workspace::doctor_binary_path(root)),
        Err(e) => Err(e),
    }
}

/// A finished run's dashboard status counts every failing check: with no run
/// going by hand, a run with an error or a crash reads red and is never
/// "all good", its count of errors being its errors and crashes together,
/// and one with no failing or warning check reads "all good" in the accent;
/// warnings alone read yellow.
pub proof fn lemma_failing_checks_are_divergences(panel: DoctorPanel, now_ms: nat)
    requires
        panel.manual is None,
        panel.last is Some,
    ensures
        ({
            let s = outcome_views(panel.last->0.report.outcomes@);
            let warn = count_of(s, OutcomeStatus::Warn);
            let err = count_of(s, OutcomeStatus::Error);
            let crash = count_of(s, OutcomeStatus::Crash);
            let st = doctor_status_of(panel, now_ms);
            &&& (err > 0 || crash > 0) ==> st.0 == Tone::Red && st.1[0].0 != "all good"@
                && st.1[0].0 == crate::text::dec(warn + err + crash) + " divergences"@
                && st.1[1].0 == " · "@ + crate::text::dec(warn) + " warn · "@ + crate::text::dec(err + crash) + " err"@
            &&& (err == 0 && crash == 0 && warn > 0) ==> st.0 == Tone::Yellow && st.1[0].0 != "all good"@
            &&& (err == 0 && crash == 0 && warn == 0) ==> st.0 == Tone::Accent && st.1[0].0 == "all good"@
        }),
{
    reveal_strlit("all good");
    reveal_strlit(" divergences");
    let s = outcome_views(panel.last->0.report.outcomes@);
    let warn = count_of(s, OutcomeStatus::Warn);
    let err = count_of(s, OutcomeStatus::Error);
    let crash = count_of(s, OutcomeStatus::Crash);
    let head = crate::text::dec(warn + err + crash) + " divergences"@;
    assert(head.last() == 's');
    assert("all good"@.last() == 'd');
}

} // verus!
