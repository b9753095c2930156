//! How the console moves through a page, answers a link toggle and picks
//! the lines to copy.
use std::collections::VecDeque;
use vstd::prelude::*;
use crate::ansi::{ansi_plain, strip_ansi};
use crate::dash::Page;
use crate::filters::{line_matches_filters, passes_filters, LogFilter};
use crate::text::{join, join_strings, views};
use crate::dev_server::LinkToggle;
use crate::text::{chars_of, parse_unsigned, parse_unsigned_chars, push_str, to_owned_string};

verus! {

/// Which way a scroll key moves.
#[derive(Clone, Copy, PartialEq, Eq, Structural, Debug)]
pub enum ScrollDirection {
    Up,
    Down,
}

/// Scrolls a page that starts at its top: up towards the top (never past
/// it), down one line further.
pub fn move_top_anchored(offset: &mut usize, dir: ScrollDirection)
    ensures
        dir == ScrollDirection::Up ==> *final(offset) == (if *old(offset) > 0 { *old(offset) - 1 } else { 0 }),
        dir == ScrollDirection::Down ==> *final(offset) == (if *old(offset) < usize::MAX { *old(offset) + 1 } else { usize::MAX as int }),
{
    match dir {
        ScrollDirection::Up => *offset = offset.saturating_sub(1),
        ScrollDirection::Down => *offset = offset.saturating_add(1),
    }
}

/// Moves a list's cursor: up towards the first row, down towards the last of
/// `total` rows, never past either.
pub fn move_cursor(cursor: &mut usize, total: usize, dir: ScrollDirection)
    requires
        dir == ScrollDirection::Down ==> *old(cursor) < usize::MAX,
    ensures
        dir == ScrollDirection::Up ==> *final(cursor) == (if *old(cursor) > 0 { *old(cursor) - 1 } else { 0 }),
        dir == ScrollDirection::Down ==> *final(cursor) == (if *old(cursor) + 1 <= (if total > 0 { total - 1 } else { 0 }) {
            *old(cursor) + 1
        } else if total > 0 {
            total - 1
        } else {
            0
        }),
{
    match dir {
        ScrollDirection::Up => *cursor = cursor.saturating_sub(1),
        ScrollDirection::Down => {
            let next = *cursor + 1;
            let last = total.saturating_sub(1);
            *cursor = if next <= last { next } else { last };
        },
    }
}

/// Scrolls a stream that follows its tail: up moves one line further from
/// the tail, down back towards it (never past it).
pub fn move_stream(offset: &mut usize, dir: ScrollDirection)
    ensures
        dir == ScrollDirection::Up ==> *final(offset) == (if *old(offset) < usize::MAX { *old(offset) + 1 } else { usize::MAX as int }),
        dir == ScrollDirection::Down ==> *final(offset) == (if *old(offset) > 0 { *old(offset) - 1 } else { 0 }),
{
    match dir {
        ScrollDirection::Up => *offset = offset.saturating_add(1),
        ScrollDirection::Down => *offset = offset.saturating_sub(1),
    }
}

/// The number of lines a copy in progress highlights: the count typed so
/// far, when it reads as a positive number; nothing when no copy is sized.
pub fn copy_highlight(copying: bool, copy_count: &str) -> (r: Option<usize>)
    ensures
        !copying ==> r is None,
        copying ==> match parse_unsigned(copy_count@, usize::MAX as nat) {
            Some(n) => if n > 0 { r == Some(n as usize) } else { r is None },
            None => r is None,
        },
{
    if !copying {
        return None;
    }
    match parse_unsigned_chars(&chars_of(copy_count), usize::MAX as u64) {
        Some(n) => if n > 0 { Some(n as usize) } else { None },
        None => None,
    }
}

/// The notice after toggling a plugin's link: `linked <name>`, `unlinked
/// <name>`, or `link failed · <error>`.
pub fn link_toggle_notice(result: &Result<LinkToggle, String>, name: &str) -> (r: String)
    ensures
        match result {
            Ok(LinkToggle::Linked) => r@ == "linked "@ + name@,
            Ok(LinkToggle::Unlinked) => r@ == "unlinked "@ + name@,
            Err(e) => r@ == "link failed · "@ + e@,
        },
{
    match result {
        Ok(LinkToggle::Linked) => {
            let mut r = to_owned_string("linked ");
            push_str(&mut r, name);
            r
        },
        Ok(LinkToggle::Unlinked) => {
            let mut r = to_owned_string("unlinked ");
            push_str(&mut r, name);
            r
        },
        Err(e) => {
            let mut r = to_owned_string("link failed · ");
            push_str(&mut r, e.as_str());
            r
        },
    }
}

/// Which kept lines a copy takes from.
#[derive(Clone, Copy, PartialEq, Eq, Structural, Debug)]
pub enum CopyRing {
    /// The trace events.
    Trace,
    /// The log of the sandbox whose detail is open.
    SandboxLog,
    /// The tray's log.
    Logs,
}

/// The lines a page copies from: the trace on the trace page, the open
/// sandbox's log on a sandbox's detail, the tray's log everywhere else.
pub fn copy_ring(page: Page) -> (r: CopyRing)
    ensures
        r == (match page {
            Page::Trace => CopyRing::Trace,
            Page::EmuDetail => CopyRing::SandboxLog,
            _ => CopyRing::Logs,
        }),
{
    match page {
        Page::Trace => CopyRing::Trace,
        Page::EmuDetail => CopyRing::SandboxLog,
        Page::Dashboard | Page::Logs | Page::Doctor | Page::Disk | Page::Plugins | Page::Emu | Page::Endpoints => {
            CopyRing::Logs
        },
    }
}

/// The lines that pass the filters, in order.
pub open spec fn matching_lines(lines: Seq<Seq<char>>, filters: Seq<LogFilter>) -> Seq<Seq<char>>
    decreases lines.len(),
{
    if lines.len() == 0 {
        seq![]
    } else {
        let rest = matching_lines(lines.drop_last(), filters);
        if passes_filters(lines.last(), filters) { rest.push(lines.last()) } else { rest }
    }
}

/// The `count` newest lines that pass the filters, oldest first, each
/// without its ANSI styling, joined by line breaks.
pub open spec fn newest_of(lines: Seq<Seq<char>>, filters: Seq<LogFilter>, count: nat) -> Seq<char> {
    let kept = matching_lines(lines, filters);
    let start: int = if kept.len() > count { kept.len() - count } else { 0 };
    join(Seq::new((kept.len() - start) as nat, |i: int| ansi_plain(kept[start + i])), "\n"@)
}

/// The text a copy of `count` lines takes (see `newest_of`); nothing when
/// there are no lines to copy from.
pub fn newest_lines(ring: Option<&VecDeque<String>>, filters: &[LogFilter], count: usize) -> (r: String)
    ensures
        r@ == (match ring {
            Some(lines) => newest_of(views(lines@), filters@, count as nat),
            None => Seq::empty(),
        }),
{
    let lines = match ring {
        Some(lines) => lines,
        None => return String::new(),
    };
    let ghost lv = views(lines@);
    let mut kept: Vec<String> = Vec::new();
    let mut i: usize = 0;
    while i < lines.len()
        invariant
            i <= lines@.len(),
            lv == views(lines@),
            views(kept@) == matching_lines(lv.take(i as int), filters@),
        decreases lines@.len() - i,
    {
        assert(lv.take(i + 1).drop_last() =~= lv.take(i as int));
        let line = &lines[i];
        assert(line@ == lv[i as int]);
        if line_matches_filters(line.as_str(), filters) {
            let ghost before = views(kept@);
            kept.push(line.clone());
            assert(views(kept@) =~= before.push(lv[i as int]));
        }
        i += 1;
    }
    assert(lv.take(lv.len() as int) =~= lv);
    let ghost kv = views(kept@);
    let start: usize = if kept.len() > count { kept.len() - count } else { 0 };
    let mut plain: Vec<String> = Vec::new();
    let mut j: usize = start;
    while j < kept.len()
        invariant
            start <= j <= kept@.len(),
            kv == views(kept@),
            views(plain@) == Seq::new((j - start) as nat, |k: int| ansi_plain(kv[start + k])),
        decreases kept@.len() - j,
    {
        let ghost before = views(plain@);
        let text = strip_ansi(kept[j].as_str());
        assert(text@ == ansi_plain(kv[j as int]));
        plain.push(text);
        assert(views(plain@) =~= before.push(text@));
        assert(views(plain@) =~= Seq::new((j + 1 - start) as nat, |k: int| ansi_plain(kv[start + k])));
        j += 1;
    }
    join_strings(&plain, "\n")
}

} // verus!
