//! What the console's pages say: page headers, plugin rows and the keys
//! panel, as text with a tone for each piece.
use vstd::prelude::*;
use crate::dash::Page;
use crate::dev_server::{PluginDaemonStatus, WorkspacePlugin};
use crate::filters::scope_of;
use crate::key_bindings::{hint_view, KeyHint};
use crate::text::{chars_of, push_char, push_str, to_owned_string};

verus! {

/// The colour role of a piece of text.
#[derive(Clone, Copy, PartialEq, Eq, Structural, Debug)]
pub enum Tone {
    /// The terminal's own colour.
    Plain,
    /// The frame's accent colour.
    Accent,
    White,
    DarkGray,
    Gray,

    Yellow,
    Red,
    Green,
    Magenta,
    /// The orange of a reload onto another worktree.
    Orange,
}

/// The frame's accent colour until something tints it.
pub const DEFAULT_ACCENT: Tone = Tone::Green;

/// The colour a tone is drawn in when the frame's accent is `accent`: the
/// accent for `Accent`, the tone itself otherwise.
pub fn resolve_tone(tone: Tone, accent: Tone) -> (r: Tone)
    ensures
        r == (if tone is Accent { accent } else { tone }),
{
    match tone {
        Tone::Accent => accent,
        _ => tone,
    }
}

/// A piece of a line: its text, tone and weight.
#[derive(Clone, Debug)]
pub struct Piece {
    pub text: String,
    pub tone: Tone,
    pub bold: bool,
}

/// A piece as plain values.
pub type PieceV = (Seq<char>, Tone, bool);

/// The plain values of a piece.
pub open spec fn piece_view(p: Piece) -> PieceV {
    (p.text@, p.tone, p.bold)
}

/// The plain values of a line's pieces.
pub open spec fn pieces_view(ps: Seq<Piece>) -> Seq<PieceV> {
    ps.map_values(|p: Piece| piece_view(p))
}

impl Piece {
    /// A copy of the piece.
    pub fn clone_piece(&self) -> (r: Piece)
        ensures
            piece_view(r) == piece_view(*self),
    {
        Piece { text: self.text.clone(), tone: self.tone, bold: self.bold }
    }
}

pub(crate) fn piece(text: &str, tone: Tone, bold: bool) -> (r: Piece)
    ensures
        piece_view(r) == (text@, tone, bold),
{
    Piece { text: to_owned_string(text), tone, bold }
}

pub(crate) fn push_piece(line: &mut Vec<Piece>, p: Piece)
    ensures
        pieces_view(final(line)@) == pieces_view(old(line)@).push(piece_view(p)),
{
    line.push(p);
    assert(pieces_view(line@) =~= pieces_view(old(line)@).push(piece_view(p)));
}

/// The selection caret: an accented `▸ ` on the selected row, two spaces elsewhere.
pub open spec fn caret_piece(selected: bool) -> PieceV {
    if selected {
        ("▸ "@, Tone::Accent, true)
    } else {
        ("  "@, Tone::Plain, false)
    }
}

/// The selection caret (see `caret_piece`).
pub fn caret(selected: bool) -> (r: Piece)
    ensures
        piece_view(r) == caret_piece(selected),
{
    if selected {
        piece("▸ ", Tone::Accent, true)
    } else {
        piece("  ", Tone::Plain, false)
    }
}

/// The line under a page's title.
pub open spec fn description_of(page: Page) -> Option<Seq<char>> {
    match page {
        Page::Logs => Some("live daemon logs"@),
        Page::Trace => Some("runtime trace events"@),
        Page::Doctor => Some("install health checks"@),
        Page::Disk => Some("dev disk usage · enter to rescan"@),
        Page::Plugins => Some("workspace plugins · enter to link/unlink"@),
        Page::Emu => Some("isolated guest development · enter runs qol dev"@),
        Page::Endpoints => Some("local service endpoints"@),
        Page::Dashboard | Page::EmuDetail => None,
    }
}

/// The line under a page's title, where the page has one.
pub fn page_description(page: Page) -> (r: Option<&'static str>)
    ensures
        match r {
            Some(s) => description_of(page) == Some(s@),
            None => description_of(page) is None,
        },
{
    match page {
        Page::Logs => Some("live daemon logs"),
        Page::Trace => Some("runtime trace events"),
        Page::Doctor => Some("install health checks"),
        Page::Disk => Some("dev disk usage · enter to rescan"),
        Page::Plugins => Some("workspace plugins · enter to link/unlink"),
        Page::Emu => Some("isolated guest development · enter runs qol dev"),
        Page::Endpoints => Some("local service endpoints"),
        Page::Dashboard | Page::EmuDetail => None,
    }
}

/// Whether the breadcrumb marks saved filters: on a filterable page with
/// filters in force, unless a sandbox's detail shows its cleanup warnings in
/// place of its log.
pub fn filters_visible(page: Page, detail_shows_warnings: bool, active_filters: usize) -> (r: bool)
    ensures
        r == (scope_of(page) is Some && !detail_shows_warnings && active_filters > 0),
{
    filterable_view(page) && !detail_shows_warnings && active_filters > 0
}

/// The segments of a page's breadcrumb after `qol dev`: none on the
/// dashboard, the page's name elsewhere, and `emu` then the sandbox's id on a
/// sandbox's detail.
pub open spec fn trail_of(page: Page, detail_id: Seq<char>) -> Seq<Seq<char>> {
    match page {
        Page::Dashboard => seq![],
        Page::Logs => seq!["logs"@],
        Page::Trace => seq!["trace"@],
        Page::Doctor => seq!["doctor"@],
        Page::Disk => seq!["disk"@],
        Page::Plugins => seq!["plugins"@],
        Page::Emu => seq!["sandboxes"@],
        Page::Endpoints => seq!["endpoints"@],
        Page::EmuDetail => seq!["emu"@, detail_id],
    }
}

/// A trail segment: the last one accented and bold, the others grey.
pub open spec fn segment_piece(trail: Seq<Seq<char>>, i: int) -> PieceV {
    if i == trail.len() - 1 {
        (trail[i], Tone::Accent, true)
    } else {
        (trail[i], Tone::DarkGray, false)
    }
}

/// The pieces of the first `n` segments of a trail, each after a grey ` · `.
pub open spec fn trail_pieces(trail: Seq<Seq<char>>, n: nat) -> Seq<PieceV>
    decreases n,
{
    if n == 0 {
        seq![]
    } else {
        trail_pieces(trail, (n - 1) as nat) + seq![(" · "@, Tone::DarkGray, false), segment_piece(trail, n - 1)]
    }
}

/// The state the breadcrumb ends with: `FILTERED` when filters are shown,
/// then the first of the quit prompt, a running reload (orange when it
/// targets another worktree, red otherwise), a pinned worktree other than
/// the running one, and the armed state.
pub open spec fn crumb_marks(
    filters: bool,
    quit_prompt: bool,
    reloading: bool,
    diverged: bool,
    pinned_label: Seq<char>,
    armed: bool,
) -> Seq<PieceV> {
    (if filters { seq![(" · FILTERED"@, Tone::Yellow, true)] } else { seq![] }) + (if quit_prompt {
        seq![(" · QUIT?"@, Tone::Red, true)]
    } else if reloading {
        seq![(" · RELOADING"@, if diverged { Tone::Orange } else { Tone::Red }, true)]
    } else if diverged {
        seq![(" · WORKTREE "@ + pinned_label, Tone::Orange, true)]
    } else if armed {
        seq![(" · ARMED"@, Tone::Yellow, true)]
    } else {
        seq![]
    })
}

/// The breadcrumb on the `qol dev` sign: `qol dev` accented on the dashboard
/// and grey elsewhere, the trail, then the marks (see `crumb_marks`).
pub open spec fn breadcrumb_of(
    page: Page,
    detail_id: Seq<char>,
    filters: bool,
    quit_prompt: bool,
    reloading: bool,
    diverged: bool,
    pinned_label: Seq<char>,
    armed: bool,
) -> Seq<PieceV> {
    let trail = trail_of(page, detail_id);
    (if trail.len() == 0 {
        seq![("qol dev"@, Tone::Accent, true)]
    } else {
        seq![("qol dev"@, Tone::DarkGray, false)] + trail_pieces(trail, trail.len())
    }) + crumb_marks(filters, quit_prompt, reloading, diverged, pinned_label, armed)
}

fn trail(page: Page, detail_id: Option<&str>) -> (r: Vec<String>)
    ensures
        string_views(r@) == trail_of(page, match detail_id {
            Some(d) => d@,
            None => Seq::empty(),
        }),
{
    let mut r: Vec<String> = Vec::new();
    match page {
        Page::Dashboard => {},
        Page::Logs => r.push(to_owned_string("logs")),
        Page::Trace => r.push(to_owned_string("trace")),
        Page::Doctor => r.push(to_owned_string("doctor")),
        Page::Disk => r.push(to_owned_string("disk")),
        Page::Plugins => r.push(to_owned_string("plugins")),
        Page::Emu => r.push(to_owned_string("sandboxes")),
        Page::Endpoints => r.push(to_owned_string("endpoints")),
        Page::EmuDetail => {
            r.push(to_owned_string("emu"));
            match detail_id {
                Some(d) => r.push(to_owned_string(d)),
                None => r.push(String::new()),
            }
        },
    }
    assert(string_views(r@) =~= trail_of(page, match detail_id {
        Some(d) => d@,
        None => Seq::empty(),
    }));
    r
}

/// The views of a vector of strings.
pub open spec fn string_views(v: Seq<String>) -> Seq<Seq<char>> {
    v.map_values(|s: String| s@)
}

/// The breadcrumb on the `qol dev` sign (see `breadcrumb_of`); a sandbox's
/// detail without a known sandbox shows an empty id.
pub fn breadcrumb(
    page: Page,
    detail_id: Option<&str>,
    filters: bool,
    quit_prompt: bool,
    reloading: bool,
    diverged: bool,
    pinned_label: &str,
    armed: bool,
) -> (r: Vec<Piece>)
    ensures
        pieces_view(r@) == breadcrumb_of(page, match detail_id {
            Some(d) => d@,
            None => Seq::empty(),
        }, filters, quit_prompt, reloading, diverged, pinned_label@, armed),
{
    let ghost id = match detail_id {
        Some(d) => d@,
        None => Seq::<char>::empty(),
    };
    let segments = trail(page, detail_id);
    let ghost tv = string_views(segments@);
    let mut r: Vec<Piece> = Vec::new();
    if segments.len() == 0 {
        push_piece(&mut r, piece("qol dev", Tone::Accent, true));
    } else {
        push_piece(&mut r, piece("qol dev", Tone::DarkGray, false));
        let last = segments.len() - 1;
        let mut i: usize = 0;
        while i < segments.len()
            invariant
                0 <= i <= segments@.len(),
                last == segments@.len() - 1,
                tv == string_views(segments@),
                pieces_view(r@) == seq![("qol dev"@, Tone::DarkGray, false)] + trail_pieces(tv, i as nat),
            decreases segments@.len() - i,
        {
            push_piece(&mut r, piece(" · ", Tone::DarkGray, false));
            let text = segments[i].as_str();
            assert(text@ == tv[i as int]);
            if i == last {
                push_piece(&mut r, piece(text, Tone::Accent, true));
            } else {
                push_piece(&mut r, piece(text, Tone::DarkGray, false));
            }
            i = i + 1;
            assert(pieces_view(r@) =~= seq![("qol dev"@, Tone::DarkGray, false)] + trail_pieces(tv, i as nat));
        }
    }
    let ghost head = pieces_view(r@);
    if filters {
        push_piece(&mut r, piece(" · FILTERED", Tone::Yellow, true));
    }
    if quit_prompt {
        push_piece(&mut r, piece(" · QUIT?", Tone::Red, true));
    } else if reloading {
        let tone = if diverged { Tone::Orange } else { Tone::Red };
        push_piece(&mut r, piece(" · RELOADING", tone, true));
    } else if diverged {
        let mut text = to_owned_string(" · WORKTREE ");
        push_str(&mut text, pinned_label);
        push_piece(&mut r, Piece { text, tone: Tone::Orange, bold: true });
    } else if armed {
        push_piece(&mut r, piece(" · ARMED", Tone::Yellow, true));
    }
    assert(pieces_view(r@) =~= head + crumb_marks(filters, quit_prompt, reloading, diverged, pinned_label@, armed));
    r
}

/// Whether a page's lines can be filtered.
pub fn filterable_view(page: Page) -> (r: bool)
    ensures
        r == (scope_of(page) is Some),
{
    crate::filters::filter_scope(page).is_some()
}

/// What a plugin row says of its daemon.
pub open spec fn daemon_status_of(status: Option<PluginDaemonStatus>) -> Option<PieceV> {
    match status {
        None => None,
        Some(PluginDaemonStatus::NotExpected) => None,
        Some(PluginDaemonStatus::AutostartBlocked) => Some((" · idle (on-demand)"@, Tone::DarkGray, false)),
        Some(PluginDaemonStatus::OnDemand { .. }) => Some((" · running (on-demand)"@, Tone::Accent, false)),
        Some(PluginDaemonStatus::Stable { .. }) => Some((" · running"@, Tone::Accent, false)),
        Some(PluginDaemonStatus::Probation { .. }) => Some((" · starting"@, Tone::Yellow, false)),
        Some(PluginDaemonStatus::Down { suppressed: true, .. }) => Some((" · crash-looped"@, Tone::Red, true)),
        Some(PluginDaemonStatus::Down { suppressed: false, .. }) => Some((" · dead"@, Tone::Red, false)),
    }
}

/// What a plugin row says of its daemon (see `daemon_status_of`).
pub fn daemon_status_span(status: Option<PluginDaemonStatus>) -> (r: Option<Piece>)
    ensures
        match r {
            Some(p) => daemon_status_of(status) == Some(piece_view(p)),
            None => daemon_status_of(status) is None,
        },
{
    match status {
        None => None,
        Some(PluginDaemonStatus::NotExpected) => None,
        Some(PluginDaemonStatus::AutostartBlocked) => Some(piece(" · idle (on-demand)", Tone::DarkGray, false)),
        Some(PluginDaemonStatus::OnDemand { .. }) => Some(piece(" · running (on-demand)", Tone::Accent, false)),
        Some(PluginDaemonStatus::Stable { .. }) => Some(piece(" · running", Tone::Accent, false)),
        Some(PluginDaemonStatus::Probation { .. }) => Some(piece(" · starting", Tone::Yellow, false)),
        Some(PluginDaemonStatus::Down { suppressed, .. }) => {
            if suppressed {
                Some(piece(" · crash-looped", Tone::Red, true))
            } else {
                Some(piece(" · dead", Tone::Red, false))
            }
        },
    }
}

/// A plugin row: caret, a dot and a state word by its link (linkable,
/// stale or linked), the name, the version when known, the staleness reason
/// of a stale linked plugin, then its daemon's status.
pub open spec fn plugin_row_spec(row: WorkspacePlugin, status: Option<PluginDaemonStatus>, selected: bool) -> Seq<PieceV> {
    let dot_state = if !row.linked {
        seq![("○"@, Tone::DarkGray, true)]
    } else if row.needs_rebuild {
        seq![("●"@, Tone::Yellow, true)]
    } else {
        seq![("●"@, Tone::Accent, true)]
    };
    let state = if !row.linked {
        (" · linkable"@, Tone::DarkGray, false)
    } else if row.needs_rebuild {
        (" · stale"@, Tone::Yellow, false)
    } else {
        (" · linked"@, Tone::DarkGray, false)
    };
    let head = seq![caret_piece(selected)] + dot_state + seq![(" "@ + row.name@, Tone::White, selected)];
    let version = if row.version@.len() > 0 {
        seq![(" v"@ + row.version@, Tone::DarkGray, false)]
    } else {
        Seq::<PieceV>::empty()
    };
    let reason = if row.linked && row.needs_rebuild && row.rebuild_reason@.len() > 0 {
        seq![(" · "@, Tone::Yellow, false), (row.rebuild_reason@, Tone::DarkGray, false)]
    } else {
        Seq::<PieceV>::empty()
    };
    let daemon = match daemon_status_of(status) {
        Some(p) => seq![p],
        None => Seq::<PieceV>::empty(),
    };
    head + version + seq![state] + reason + daemon
}

/// A plugin row (see `plugin_row_spec`).
pub fn plugin_row_line(row: &WorkspacePlugin, status: Option<PluginDaemonStatus>, selected: bool) -> (r: Vec<Piece>)
    ensures
        pieces_view(r@) == plugin_row_spec(*row, status, selected),
{
    let mut line: Vec<Piece> = Vec::new();
    push_piece(&mut line, caret(selected));
    let (dot, state) = if !row.linked {
        (piece("○", Tone::DarkGray, true), piece(" · linkable", Tone::DarkGray, false))
    } else if row.needs_rebuild {
        (piece("●", Tone::Yellow, true), piece(" · stale", Tone::Yellow, false))
    } else {
        (piece("●", Tone::Accent, true), piece(" · linked", Tone::DarkGray, false))
    };
    push_piece(&mut line, dot);
    let mut name = to_owned_string(" ");
    push_str(&mut name, row.name.as_str());
    push_piece(&mut line, Piece { text: name, tone: Tone::White, bold: selected });
    let ghost head = pieces_view(line@);
    if chars_of(row.version.as_str()).len() > 0 {
        let mut v = to_owned_string(" v");
        push_str(&mut v, row.version.as_str());
        push_piece(&mut line, Piece { text: v, tone: Tone::DarkGray, bold: false });
    }
    let ghost with_version = pieces_view(line@);
    push_piece(&mut line, state);
    let ghost with_state = pieces_view(line@);
    if row.linked && row.needs_rebuild && chars_of(row.rebuild_reason.as_str()).len() > 0 {
        push_piece(&mut line, piece(" · ", Tone::Yellow, false));
        push_piece(&mut line, Piece { text: row.rebuild_reason.clone(), tone: Tone::DarkGray, bold: false });
    }
    let ghost with_reason = pieces_view(line@);
    match daemon_status_span(status) {
        Some(p) => push_piece(&mut line, p),
        None => {},
    }
    proof {
        let spec = plugin_row_spec(*row, status, selected);
        let version = if row.version@.len() > 0 {
            seq![(" v"@ + row.version@, Tone::DarkGray, false)]
        } else {
            Seq::<PieceV>::empty()
        };
        let reason = if row.linked && row.needs_rebuild && row.rebuild_reason@.len() > 0 {
            seq![(" · "@, Tone::Yellow, false), (row.rebuild_reason@, Tone::DarkGray, false)]
        } else {
            Seq::<PieceV>::empty()
        };
        assert(with_version =~= head + version);
        assert(with_reason =~= with_state + reason);
        assert(pieces_view(line@) =~= spec);
    }
    line
}

/// ` <key, padded to nine characters> ` in white bold, then `<desc> ` in dark gray.
pub open spec fn key_line_spec(h: (Seq<char>, Seq<char>)) -> Seq<PieceV> {
    seq![(" "@ + pad_to(h.0, 9) + " "@, Tone::White, true), (h.1 + " "@, Tone::DarkGray, false)]
}

/// `s` padded with spaces on the right to at least `width` characters (`{:<width}`).
pub open spec fn pad_to(s: Seq<char>, width: nat) -> Seq<char> {
    if s.len() >= width {
        s
    } else {
        s + Seq::new((width - s.len()) as nat, |i: int| ' ')
    }
}

/// The keys panel's line for one hint (see `key_line_spec`).
pub fn key_line(h: KeyHint) -> (r: Vec<Piece>)
    ensures
        pieces_view(r@) == key_line_spec(hint_view(h)),
{
    let mut key = to_owned_string(" ");
    push_str(&mut key, h.key);
    let n = chars_of(h.key).len();
    let mut k = n;
    while k < 9
        invariant
            n == h.key@.len(),
            n <= k <= 9 || (k == n && n >= 9),
            key@ == " "@ + h.key@ + Seq::new((k - n) as nat, |i: int| ' '),
        decreases 9 - k,
    {
        push_char(&mut key, ' ');
        assert(key@ =~= " "@ + h.key@ + Seq::new((k + 1 - n) as nat, |i: int| ' '));
        k += 1;
    }
    assert(" "@ + h.key@ + Seq::new((k - n) as nat, |i: int| ' ') =~= " "@ + pad_to(h.key@, 9));
    push_char(&mut key, ' ');
    proof {
        reveal_strlit(" ");
    }
    assert(key@ =~= " "@ + pad_to(h.key@, 9) + " "@);

    let mut desc = to_owned_string(h.desc);
    push_char(&mut desc, ' ');
    assert(desc@ =~= h.desc@ + " "@);

    let mut r: Vec<Piece> = Vec::new();
    push_piece(&mut r, Piece { text: key, tone: Tone::White, bold: true });
    push_piece(&mut r, Piece { text: desc, tone: Tone::DarkGray, bold: false });
    assert(pieces_view(r@) =~= key_line_spec(hint_view(h)));
    r
}

} // verus!

verus! {

/// The views of a list of lines.
pub open spec fn lines_view(ls: Seq<Vec<Piece>>) -> Seq<Seq<PieceV>> {
    ls.map_values(|l: Vec<Piece>| pieces_view(l@))
}

/// A section title of the keys panel: ` <label>` in accent bold.
pub open spec fn section_spec(label: Seq<char>) -> Seq<PieceV> {
    seq![(" "@ + label, Tone::Accent, true)]
}

/// An empty line.
pub open spec fn blank_spec() -> Seq<PieceV> {
    seq![(""@, Tone::Plain, false)]
}

/// The keys panel: the global section, two blank lines, the context section,
/// each titled and followed by one line per hint.
pub open spec fn keys_rows_spec(global: Seq<(Seq<char>, Seq<char>)>, context: Seq<(Seq<char>, Seq<char>)>) -> Seq<Seq<PieceV>> {
    seq![section_spec("global"@), blank_spec()] + global.map_values(|h: (Seq<char>, Seq<char>)| key_line_spec(h))
        + seq![blank_spec(), blank_spec(), section_spec("context"@), blank_spec()]
        + context.map_values(|h: (Seq<char>, Seq<char>)| key_line_spec(h))
}

fn section(label: &str) -> (r: Vec<Piece>)
    ensures
        pieces_view(r@) == section_spec(label@),
{
    let mut text = to_owned_string(" ");
    push_str(&mut text, label);
    let mut r = Vec::new();
    push_piece(&mut r, Piece { text, tone: Tone::Accent, bold: true });
    assert(pieces_view(r@) =~= section_spec(label@));
    r
}

fn blank() -> (r: Vec<Piece>)
    ensures
        pieces_view(r@) == blank_spec(),
{
    let mut r = Vec::new();
    push_piece(&mut r, piece("", Tone::Plain, false));
    assert(pieces_view(r@) =~= blank_spec());
    r
}

pub(crate) fn push_line(rows: &mut Vec<Vec<Piece>>, line: Vec<Piece>)
    ensures
        lines_view(final(rows)@) == lines_view(old(rows)@).push(pieces_view(line@)),
{
    rows.push(line);
    assert(lines_view(rows@) =~= lines_view(old(rows)@).push(pieces_view(line@)));
}

fn push_key_lines(rows: &mut Vec<Vec<Piece>>, hints: &Vec<KeyHint>)
    ensures
        lines_view(final(rows)@) == lines_view(old(rows)@) + crate::key_bindings::hint_views(hints@).map_values(
            |h: (Seq<char>, Seq<char>)| key_line_spec(h),
        ),
{
    let ghost start = lines_view(rows@);
    let ghost hv = crate::key_bindings::hint_views(hints@).map_values(|h: (Seq<char>, Seq<char>)| key_line_spec(h));
    let mut i: usize = 0;
    while i < hints.len()
        invariant
            i <= hints@.len(),
            hv == crate::key_bindings::hint_views(hints@).map_values(|h: (Seq<char>, Seq<char>)| key_line_spec(h)),
            lines_view(rows@) == start + hv.take(i as int),
        decreases hints.len() - i,
    {
        push_line(rows, key_line(hints[i]));
        assert(hv.take(i + 1) =~= hv.take(i as int).push(hv[i as int]));
        i += 1;
    }
    assert(hv.take(hints@.len() as int) =~= hv);
}

/// The keys panel's rows for the global and context hints (see `keys_rows_spec`).
pub fn keys_rows(global: &Vec<KeyHint>, context: &Vec<KeyHint>) -> (r: Vec<Vec<Piece>>)
    ensures
        lines_view(r@) == keys_rows_spec(crate::key_bindings::hint_views(global@), crate::key_bindings::hint_views(context@)),
{
    let mut rows: Vec<Vec<Piece>> = Vec::new();
    push_line(&mut rows, section("global"));
    push_line(&mut rows, blank());
    let ghost a = lines_view(rows@);
    push_key_lines(&mut rows, global);
    let ghost b = lines_view(rows@);
    push_line(&mut rows, blank());
    push_line(&mut rows, blank());
    push_line(&mut rows, section("context"));
    push_line(&mut rows, blank());
    let ghost c = lines_view(rows@);
    push_key_lines(&mut rows, context);
    proof {
        let gl = crate::key_bindings::hint_views(global@).map_values(|h: (Seq<char>, Seq<char>)| key_line_spec(h));
        let cl = crate::key_bindings::hint_views(context@).map_values(|h: (Seq<char>, Seq<char>)| key_line_spec(h));
        assert(a =~= seq![section_spec("global"@), blank_spec()]);
        assert(c =~= b + seq![blank_spec(), blank_spec(), section_spec("context"@), blank_spec()]);
        assert(lines_view(rows@) =~= keys_rows_spec(crate::key_bindings::hint_views(global@), crate::key_bindings::hint_views(context@)));
    }
    rows
}

} // verus!
