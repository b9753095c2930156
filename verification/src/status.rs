//! The dashboard's status values for the tray, the website and the plugins,
//! and the accent colour of the console's frame.
use vstd::prelude::*;
use crate::clock::{duration_from_nanos, total_nanos};
use crate::dash::Health;
use crate::dev_server::WorkspacePlugin;
use crate::draw::{piece, pieces_view, push_piece, Piece, PieceV, Tone};
use crate::render_util::{duration_text, format_duration};
use crate::text::{dec, push_str, to_owned_string, u64_to_string};

verus! {

/// How long a request stays acknowledged on the dashboard, in milliseconds.
pub const ACK_TTL_MS: u64 = 6000;

/// A rebuild or reload asked of the tray.
#[derive(Clone, Debug)]
pub enum RebuildState {
    /// None was asked.
    Idle,
    /// One was asked at this time (milliseconds of a steady clock).
    Requested(u64),
    /// The request failed, for this reason.
    Failed(String),
}

/// The request was made less than the acknowledgement time ago.
pub open spec fn acknowledged(state: RebuildState, now: u64) -> bool {
    state matches RebuildState::Requested(at) && (if now >= at { now - at } else { 0 }) < ACK_TTL_MS
}

fn is_acknowledged(state: &RebuildState, now: u64) -> (b: bool)
    ensures
        b == acknowledged(*state, now),
{
    match state {
        RebuildState::Requested(at) => now.saturating_sub(*at) < ACK_TTL_MS,
        _ => false,
    }
}

/// The tray's row: its health, how long the console has run, the API mark
/// when it is up, then an acknowledged or failed rebuild.
pub open spec fn tray_status_of(health: Health, uptime_secs: nat, rebuild: RebuildState, now: u64) -> (Tone, Seq<PieceV>) {
    let (text, tone) = match health {
        Health::Checking => ("starting"@, Tone::Yellow),
        Health::Up => ("running"@, Tone::Accent),
        Health::Down => ("down"@, Tone::Red),
    };
    (tone, seq![(text, tone, true), (" · up "@ + duration_text(uptime_secs), Tone::DarkGray, false)] + (if health
        == Health::Up {
        seq![(" · api ✓"@, Tone::Accent, false)]
    } else {
        Seq::empty()
    }) + (if acknowledged(rebuild, now) {
        seq![(" · rebuild sent"@, Tone::Yellow, false)]
    } else {
        match rebuild {
            RebuildState::Failed(e) => seq![
                (" · rebuild "@, Tone::DarkGray, false),
                ("failed"@, Tone::Red, true),
                (" · "@ + e@, Tone::DarkGray, false),
            ],
            _ => Seq::empty(),
        }
    }))
}

/// The tray's row (see `tray_status_of`); `uptime_secs` is how long the
/// console has run.
pub fn tray_status(health: Health, uptime_secs: u64, rebuild: &RebuildState, now: u64) -> (r: (Tone, Vec<Piece>))
    ensures
        (r.0, pieces_view(r.1@)) == tray_status_of(health, uptime_secs as nat, *rebuild, now),
{
    let (text, tone) = match health {
        Health::Checking => ("starting", Tone::Yellow),
        Health::Up => ("running", Tone::Accent),
        Health::Down => ("down", Tone::Red),
    };
    let mut value: Vec<Piece> = Vec::new();
    push_piece(&mut value, piece(text, tone, true));
    let mut up = to_owned_string(" · up ");
    let uptime = duration_from_nanos((uptime_secs as u128) * 1_000_000_000);
    let d = format_duration(uptime);
    assert(total_nanos(uptime) / 1_000_000_000 == uptime_secs as nat) by (nonlinear_arith)
        requires
            total_nanos(uptime) == (uptime_secs as nat) * 1_000_000_000,
    ;
    push_str(&mut up, d.as_str());
    push_piece(&mut value, Piece { text: up, tone: Tone::DarkGray, bold: false });
    if health == Health::Up {
        push_piece(&mut value, piece(" · api ✓", Tone::Accent, false));
    }
    let ghost mid = pieces_view(value@);
    if is_acknowledged(rebuild, now) {
        push_piece(&mut value, piece(" · rebuild sent", Tone::Yellow, false));
    } else {
        match rebuild {
            RebuildState::Failed(e) => {
                push_piece(&mut value, piece(" · rebuild ", Tone::DarkGray, false));
                push_piece(&mut value, piece("failed", Tone::Red, true));
                let mut s = to_owned_string(" · ");
                push_str(&mut s, e.as_str());
                push_piece(&mut value, Piece { text: s, tone: Tone::DarkGray, bold: false });
            },
            _ => {},
        }
    }
    assert(pieces_view(value@) =~= tray_status_of(health, uptime_secs as nat, *rebuild, now).1);
    (tone, value)
}

/// The website's row: checking, up with its local port, or down.
pub open spec fn web_status_of(web: Health, port: u16) -> (Tone, Seq<PieceV>) {
    match web {
        Health::Checking => (Tone::Yellow, seq![("checking"@, Tone::Yellow, false)]),
        Health::Up => (Tone::Accent, seq![("up"@, Tone::Accent, true), (" · localhost:"@ + dec(port as nat), Tone::DarkGray, false)]),
        Health::Down => (Tone::Red, seq![("down"@, Tone::Red, true)]),
    }
}

/// The website's row (see `web_status_of`).
pub fn web_status(web: Health, port: u16) -> (r: (Tone, Vec<Piece>))
    ensures
        (r.0, pieces_view(r.1@)) == web_status_of(web, port),
{
    let mut value: Vec<Piece> = Vec::new();
    let tone = match web {
        Health::Checking => {
            push_piece(&mut value, piece("checking", Tone::Yellow, false));
            Tone::Yellow
        },
        Health::Up => {
            push_piece(&mut value, piece("up", Tone::Accent, true));
            let mut s = to_owned_string(" · localhost:");
            let p = u64_to_string(port as u64);
            push_str(&mut s, p.as_str());
            push_piece(&mut value, Piece { text: s, tone: Tone::DarkGray, bold: false });
            Tone::Accent
        },
        Health::Down => {
            push_piece(&mut value, piece("down", Tone::Red, true));
            Tone::Red
        },
    };
    assert(pieces_view(value@) =~= web_status_of(web, port).1);
    (tone, value)
}

/// What the console knows of the plugin links.
#[derive(Clone, Debug)]
pub enum LinksState {
    /// Not asked yet.
    Unknown,
    /// The workspace plugins as the tray reports them.
    Live(Vec<WorkspacePlugin>),
    /// The tray's API did not answer.
    Unreachable,
}

/// How many rows are linked, and how many of those are stale.
pub open spec fn link_counts(rows: Seq<WorkspacePlugin>) -> (nat, nat)
    decreases rows.len(),
{
    if rows.len() == 0 {
        (0, 0)
    } else {
        let (l, s) = link_counts(rows.drop_last());
        let r = rows.last();
        (l + if r.linked { 1nat } else { 0 }, s + if r.linked && r.needs_rebuild { 1nat } else { 0 })
    }
}

/// The plugins' row: the linked count (with the stale count, yellow, when
/// any are stale), the count known at boot while the links are unknown or
/// the API is down; then an acknowledged reload, or a failed one (red).
pub open spec fn plugins_status_of(state: RebuildState, boot_count: nat, links: LinksState, now: u64) -> (Tone, Seq<PieceV>) {
    let (live, value) = match links {
        LinksState::Live(rows) => {
            let (linked, stale) = link_counts(rows@);
            if stale > 0 {
                (Tone::Yellow, seq![(dec(linked) + " linked"@, Tone::Accent, false), (" · "@ + dec(stale) + " stale"@, Tone::Yellow, true)])
            } else {
                (Tone::Accent, seq![(dec(linked) + " linked"@, Tone::Accent, false)])
            }
        },
        LinksState::Unknown => (Tone::Accent, seq![(dec(boot_count) + " linked"@, Tone::DarkGray, false)]),
        LinksState::Unreachable => (Tone::Yellow, seq![(dec(boot_count) + " linked"@, Tone::DarkGray, false), (" · api down"@, Tone::DarkGray, false)]),
    };
    if acknowledged(state, now) {
        (live, value.push((" · reload sent"@, Tone::Yellow, false)))
    } else {
        match state {
            RebuildState::Failed(e) => (Tone::Red, value + seq![
                (" · reload "@, Tone::DarkGray, false),
                ("failed"@, Tone::Red, true),
                (" · "@ + e@, Tone::DarkGray, false),
            ]),
            _ => (live, value),
        }
    }
}

fn count_links(rows: &Vec<WorkspacePlugin>) -> (r: (u64, u64))
    ensures
        r.0 as nat == link_counts(rows@).0,
        r.1 as nat == link_counts(rows@).1,
{
    let mut linked: u64 = 0;
    let mut stale: u64 = 0;
    let mut i: usize = 0;
    while i < rows.len()
        invariant
            i <= rows@.len(),
            linked as nat == link_counts(rows@.take(i as int)).0,
            stale as nat == link_counts(rows@.take(i as int)).1,
            linked <= i,
            stale <= i,
        decreases rows.len() - i,
    {
        proof {
            assert(rows@.take(i + 1).drop_last() =~= rows@.take(i as int));
            assert(rows@.take(i + 1).last() == rows@[i as int]);
        }
        if rows[i].linked {
            linked = linked + 1;
            if rows[i].needs_rebuild {
                stale = stale + 1;
            }
        }
        i += 1;
    }
    assert(rows@.take(rows@.len() as int) =~= rows@);
    (linked, stale)
}

fn count_piece(n: u64, suffix: &str, tone: Tone, bold: bool) -> (p: Piece)
    ensures
        crate::draw::piece_view(p) == (dec(n as nat) + suffix@, tone, bold),
{
    let mut s = u64_to_string(n);
    push_str(&mut s, suffix);
    Piece { text: s, tone, bold }
}

/// The plugins' row (see `plugins_status_of`); `boot_count` is how many
/// plugins were linked when the console started.
pub fn plugins_status(state: &RebuildState, boot_count: u64, links: &LinksState, now: u64) -> (r: (Tone, Vec<Piece>))
    ensures
        (r.0, pieces_view(r.1@)) == plugins_status_of(*state, boot_count as nat, *links, now),
{
    let mut value: Vec<Piece> = Vec::new();
    let live = match links {
        LinksState::Live(rows) => {
            let (linked, stale) = count_links(rows);
            push_piece(&mut value, count_piece(linked, " linked", Tone::Accent, false));
            if stale > 0 {
                let mut s = to_owned_string(" · ");
                let n = u64_to_string(stale);
                push_str(&mut s, n.as_str());
                push_str(&mut s, " stale");
                push_piece(&mut value, Piece { text: s, tone: Tone::Yellow, bold: true });
                Tone::Yellow
            } else {
                Tone::Accent
            }
        },
        LinksState::Unknown => {
            push_piece(&mut value, count_piece(boot_count, " linked", Tone::DarkGray, false));
            Tone::Accent
        },
        LinksState::Unreachable => {
            push_piece(&mut value, count_piece(boot_count, " linked", Tone::DarkGray, false));
            push_piece(&mut value, piece(" · api down", Tone::DarkGray, false));
            Tone::Yellow
        },
    };
    let ghost base = pieces_view(value@);
    assert((live, base) == ({
        let (l, v) = match *links {
            LinksState::Live(rows) => {
                let (linked, stale) = link_counts(rows@);
                if stale > 0 {
                    (Tone::Yellow, seq![(dec(linked) + " linked"@, Tone::Accent, false), (" · "@ + dec(stale) + " stale"@, Tone::Yellow, true)])
                } else {
                    (Tone::Accent, seq![(dec(linked) + " linked"@, Tone::Accent, false)])
                }
            },
            LinksState::Unknown => (Tone::Accent, seq![(dec(boot_count as nat) + " linked"@, Tone::DarkGray, false)]),
            LinksState::Unreachable => (Tone::Yellow, seq![(dec(boot_count as nat) + " linked"@, Tone::DarkGray, false), (" · api down"@, Tone::DarkGray, false)]),
        };
        (l, v)
    }));
    if is_acknowledged(state, now) {
        push_piece(&mut value, piece(" · reload sent", Tone::Yellow, false));
        return (live, value);
    }
    match state {
        RebuildState::Failed(e) => {
            push_piece(&mut value, piece(" · reload ", Tone::DarkGray, false));
            push_piece(&mut value, piece("failed", Tone::Red, true));
            let mut s = to_owned_string(" · ");
            push_str(&mut s, e.as_str());
            push_piece(&mut value, Piece { text: s, tone: Tone::DarkGray, bold: false });
            assert(pieces_view(value@) =~= base + seq![
                (" · reload "@, Tone::DarkGray, false),
                ("failed"@, Tone::Red, true),
                (" · "@ + e@, Tone::DarkGray, false),
            ]);
            (Tone::Red, value)
        },
        _ => (live, value),
    }
}

/// The frame's accent colour.
#[derive(Clone, Copy, PartialEq, Eq, Structural, Debug)]
pub enum FrameAccent {
    /// The console's own green.
    Base,
    Yellow,
    Red,
    /// A reload onto a worktree other than the running one.
    Orange,
}

/// The frame's accent: red while the quit prompt is open; while a reload
/// runs, orange when it targets another worktree and red otherwise; yellow
/// when armed or busy; else the base colour. It follows the state alone.
pub open spec fn frame_accent_of(quit_prompt: bool, reloading: bool, diverged: bool, armed: bool, busy: bool) -> FrameAccent {
    if quit_prompt {
        FrameAccent::Red
    } else if reloading {
        if diverged { FrameAccent::Orange } else { FrameAccent::Red }
    } else if armed || busy {
        FrameAccent::Yellow
    } else {
        FrameAccent::Base
    }
}

/// The frame's accent (see `frame_accent_of`).
pub fn frame_accent(quit_prompt: bool, reloading: bool, diverged: bool, armed: bool, busy: bool) -> (r: FrameAccent)
    ensures
        r == frame_accent_of(quit_prompt, reloading, diverged, armed, busy),
{
    if quit_prompt {
        FrameAccent::Red
    } else if reloading {
        if diverged { FrameAccent::Orange } else { FrameAccent::Red }
    } else if armed || busy {
        FrameAccent::Yellow
    } else {
        FrameAccent::Base
    }
}

/// The accent of the branch sign: orange whenever the target worktree
/// differs from the running one and no quit prompt is open, else the frame's.
pub fn sign_accent(quit_prompt: bool, reloading: bool, diverged: bool, armed: bool, busy: bool) -> (r: FrameAccent)
    ensures
        r == (if diverged && !quit_prompt {
            FrameAccent::Orange
        } else {
            frame_accent_of(quit_prompt, reloading, diverged, armed, busy)
        }),
{
    if diverged && !quit_prompt {
        FrameAccent::Orange
    } else {
        frame_accent(quit_prompt, reloading, diverged, armed, busy)
    }
}

} // verus!
