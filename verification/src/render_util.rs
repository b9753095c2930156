//! Scrolling arithmetic and short text renderings shared by the pages.
use std::time::Duration;
use vstd::prelude::*;
use crate::clock::{duration_secs, total_nanos};
use crate::draw::{piece_view, pieces_view, Piece, PieceV, Tone};
use crate::text::{dec, dec2, is_whitespace, trimmed, is_ws, lines, lines_of, push_char, push_str, string_of, trim, u64_to_string, u64_to_string2, to_owned_string, vviews, views};

verus! {

/// The rows between two list items.
pub const ITEM_GAP: u16 = 1;

/// Whether content lies above or below a scrolled window.
#[derive(Clone, Copy, Debug, PartialEq, Eq, Structural)]
pub struct NavigationOverflow {
    /// Lines are hidden above the window.
    pub above: bool,
    /// Lines are hidden below the window.
    pub below: bool,
}

impl NavigationOverflow {
    /// Nothing hidden.
    pub fn none() -> (r: Self)
        ensures
            !r.above && !r.below,
    {
        NavigationOverflow { above: false, below: false }
    }

    /// What a window of `height` lines starting at `start` hides of `total` lines.
    pub fn from_window(start: usize, height: usize, total: usize) -> (r: Self)
        ensures
            r.above == (start > 0),
            r.below == (start + height < total),
    {
        NavigationOverflow { above: start > 0, below: start.saturating_add(height) < total }
    }
}

/// The rows `items` list items take with `gap` rows between them.
pub fn spaced_height(items: usize, gap: u16) -> (h: u16)
    requires
        items + (if items > 0 { items - 1 } else { 0 }) * gap <= u16::MAX,
    ensures
        h == items + (if items > 0 { items - 1 } else { 0 }) * gap,
{
    let gaps: usize = items.saturating_sub(1);
    assert(gaps * gap <= u16::MAX) by (nonlinear_arith)
        requires items + gaps * gap <= u16::MAX;
    (items as u16) + (gaps as u16) * gap
}

/// How many list items fit in `height` rows with one row between items.
pub fn list_capacity(height: u16) -> (n: usize)
    ensures
        n == (height + 1) / 2,
{
    (height as usize + ITEM_GAP as usize) / (1 + ITEM_GAP as usize)
}

/// The first item of a `height`-row window over `total` items that keeps the
/// item at `cursor` visible, scrolling only as far as needed.
pub fn cursor_window_start(total: usize, height: usize, cursor: usize) -> (r: usize)
    ensures
        r == (if height == 0 || total <= height {
            0
        } else if cursor >= height {
            if cursor + 1 - height < total - height { cursor + 1 - height } else { total - height }
        } else {
            0
        }),
{
    if height == 0 || total <= height {
        return 0;
    }
    let max_start = total - height;
    if cursor >= height {
        let s = cursor - height + 1;
        return if s < max_start { s } else { max_start };
    }
    0
}

/// The cursor stays inside the window that `cursor_window_start` picks.
pub proof fn lemma_cursor_window_keeps_cursor_visible(total: nat, height: nat, cursor: nat)
    requires
        height > 0,
        cursor < total,
    ensures
        ({
            let start: int = if total <= height {
                0
            } else if cursor >= height {
                if cursor + 1 - height < total - height { cursor + 1 - height } else { total - height }
            } else {
                0
            };
            start <= cursor < start + height && (total <= height || start + height <= total)
        }),
{
}

/// The list footer: how many lines there are and whether the view follows the tail.
pub fn list_status(total: usize, scroll_offset: usize) -> (r: String)
    ensures
        r@ == dec(total as nat) + " lines \u{b7} "@ + (if scroll_offset == 0 { "follow"@ } else { "scroll"@ }),
{
    let mut r = u64_to_string(total as u64);
    push_str(&mut r, " lines \u{b7} ");
    if scroll_offset == 0 {
        push_str(&mut r, "follow");
    } else {
        push_str(&mut r, "scroll");
    }
    r
}

/// A duration of `total` whole seconds as `{m}m{ss}s`, or `{h}h{mm}m` from an hour on.
pub open spec fn duration_text(total: nat) -> Seq<char> {
    let minutes = total / 60;
    let seconds = total % 60;
    if minutes >= 60 {
        dec(minutes / 60) + seq!['h'] + dec2(minutes % 60) + seq!['m']
    } else {
        dec(minutes) + seq!['m'] + dec2(seconds) + seq!['s']
    }
}

/// `elapsed` as `{m}m{ss}s`, or `{h}h{mm}m` from an hour on.
pub fn format_duration(elapsed: Duration) -> (r: String)
    ensures
        r@ == duration_text(total_nanos(elapsed) / 1_000_000_000),
{
    let total = duration_secs(elapsed);
    let minutes = total / 60;
    let seconds = total % 60;
    if minutes >= 60 {
        let mut r = u64_to_string(minutes / 60);
        push_str(&mut r, "h");
        let mm = u64_to_string2(minutes % 60);
        push_str(&mut r, mm.as_str());
        push_str(&mut r, "m");
        proof { reveal_strlit("h"); reveal_strlit("m"); }
        r
    } else {
        let mut r = u64_to_string(minutes);
        push_str(&mut r, "m");
        let ss = u64_to_string2(seconds);
        push_str(&mut r, ss.as_str());
        push_str(&mut r, "s");
        proof { reveal_strlit("s"); reveal_strlit("m"); }
        r
    }
}

/// How long ago `then_ms` was at `now_ms`, in the largest whole unit.
pub open spec fn age_text(now_ms: nat, then_ms: nat) -> Seq<char> {
    let seconds: nat = if now_ms >= then_ms { ((now_ms - then_ms) / 1000) as nat } else { 0 };
    if seconds <= 9 {
        "just now"@
    } else if seconds <= 59 {
        dec(seconds) + "s ago"@
    } else if seconds <= 3599 {
        dec(seconds / 60) + "m ago"@
    } else if seconds <= 86399 {
        dec(seconds / 3600) + "h ago"@
    } else {
        dec(seconds / 86400) + "d ago"@
    }
}

/// How long ago `then_ms` was at `now_ms` ("just now", "42s ago", "5m ago", ...).
pub fn relative_age(now_ms: u64, then_ms: u64) -> (r: String)
    ensures
        r@ == age_text(now_ms as nat, then_ms as nat),
{
    let seconds = now_ms.saturating_sub(then_ms) / 1000;
    if seconds <= 9 {
        to_owned_string("just now")
    } else if seconds <= 59 {
        let mut r = u64_to_string(seconds);
        push_str(&mut r, "s ago");
        r
    } else if seconds <= 3599 {
        let mut r = u64_to_string(seconds / 60);
        push_str(&mut r, "m ago");
        r
    } else if seconds <= 86399 {
        let mut r = u64_to_string(seconds / 3600);
        push_str(&mut r, "h ago");
        r
    } else {
        let mut r = u64_to_string(seconds / 86400);
        push_str(&mut r, "d ago");
        r
    }
}

/// The terminal cells that `text` takes, as the display toolkit measures a
/// span of it (ratatui's `Span::width`).
pub uninterp spec fn cells(text: Seq<char>) -> nat;

/// The cells a span of `text` takes on screen: ratatui's `Span::width`, which
/// measures the span's content with `unicode-width`.
#[verifier::external_body]
fn span_width(text: &str) -> (w: usize)
    ensures
        w == cells(text@),
{
    ratatui::text::Span::raw(text).width()
}

/// The cells one character takes.
fn char_width(c: char) -> (w: usize)
    ensures
        w == cells(seq![c]),
{
    let mut one = String::new();
    push_char(&mut one, c);
    assert(one@ =~= seq![c]);
    span_width(one.as_str())
}

/// The words of `s` and the word still open after its last character, as a
/// left-to-right scan sees them: whitespace closes an open word.
pub open spec fn scan_words(s: Seq<char>) -> (Seq<Seq<char>>, Seq<char>)
    decreases s.len(),
{
    if s.len() == 0 {
        (seq![], seq![])
    } else {
        let (done, open) = scan_words(s.drop_last());
        if is_ws(s.last()) {
            if open.len() > 0 { (done.push(open), seq![]) } else { (done, seq![]) }
        } else {
            (done, open.push(s.last()))
        }
    }
}

/// The whitespace-separated words of `s` (`str::split_whitespace`).
pub open spec fn words(s: Seq<char>) -> Seq<Seq<char>> {
    let (done, open) = scan_words(s);
    if open.len() > 0 { done.push(open) } else { done }
}

/// The words of `v` (see `words`).
fn words_of(v: &Vec<char>) -> (r: Vec<Vec<char>>)
    ensures
        vviews(r@) == words(v@),
{
    let mut done: Vec<Vec<char>> = Vec::new();
    let mut open: Vec<char> = Vec::new();
    let mut i: usize = 0;
    while i < v.len()
        invariant
            i <= v@.len(),
            (vviews(done@), open@) == scan_words(v@.take(i as int)),
        decreases v@.len() - i,
    {
        assert(v@.take(i + 1).drop_last() =~= v@.take(i as int));
        let c = v[i];
        if is_whitespace(c) {
            if open.len() > 0 {
                let ghost before = vviews(done@);
                let w = open;
                done.push(w);
                assert(vviews(done@) =~= before.push(w@));
                open = Vec::new();
            } else {
                open = Vec::new();
            }
        } else {
            open.push(c);
        }
        i += 1;
    }
    assert(v@.take(v@.len() as int) =~= v@);
    if open.len() > 0 {
        let ghost before = vviews(done@);
        done.push(open);
        assert(vviews(done@) =~= before.push(words(v@).last()));
    }
    done
}


/// The rows made so far, the row being filled and the cells it takes.
pub type WrapState = (Seq<Seq<char>>, Seq<char>, nat);

/// A word too wide for any row, put in character by character: a character
/// that would overflow the row closes it first (even an empty one).
pub open spec fn break_word(st: WrapState, w: Seq<char>, width: nat) -> WrapState
    decreases w.len(),
{
    if w.len() == 0 {
        st
    } else {
        let (rows, cur, used) = break_word(st, w.drop_last(), width);
        let cw = cells(seq![w.last()]);
        if used + cw > width {
            (rows.push(cur), seq![w.last()], cw)
        } else {
            (rows, cur.push(w.last()), used + cw)
        }
    }
}

/// One word placed: after a space on the current row when it fits there;
/// else the row is closed (when it has anything) and the word starts the
/// next one, broken across rows when no row can hold it.
pub open spec fn place_word(st: WrapState, w: Seq<char>, width: nat) -> WrapState {
    let (rows, cur, used) = st;
    let ww = cells(w);
    let gap: nat = if cur.len() > 0 { 1 } else { 0 };
    if used + gap + ww <= width {
        (rows, if gap == 1 { cur.push(' ') + w } else { cur + w }, used + gap + ww)
    } else {
        let st1: WrapState = if cur.len() > 0 { (rows.push(cur), seq![], 0) } else { st };
        if ww <= width {
            (st1.0, st1.1 + w, ww)
        } else {
            break_word(st1, w, width)
        }
    }
}

/// The words placed one after another.
pub open spec fn place_words(st: WrapState, ws: Seq<Seq<char>>, width: nat) -> WrapState
    decreases ws.len(),
{
    if ws.len() == 0 {
        st
    } else {
        place_word(place_words(st, ws.drop_last(), width), ws.last(), width)
    }
}

/// The rows of one source line: one empty row for a blank line, else its
/// words wrapped, the last row closed when it has anything.
pub open spec fn line_rows(source: Seq<char>, width: nat) -> Seq<Seq<char>> {
    if trim(source).len() == 0 {
        seq![seq![]]
    } else {
        let (rows, cur, used) = place_words((seq![], seq![], 0), words(source), width);
        if cur.len() > 0 { rows.push(cur) } else { rows }
    }
}

/// The rows of several source lines, one after another.
pub open spec fn lines_rows(ls: Seq<Seq<char>>, width: nat) -> Seq<Seq<char>>
    decreases ls.len(),
{
    if ls.len() == 0 {
        seq![]
    } else {
        lines_rows(ls.drop_last(), width) + line_rows(ls.last(), width)
    }
}

/// `text` wrapped to rows of `width` cells: nothing for width zero, else the
/// rows of each of its lines, and one empty row when that leaves none.
pub open spec fn wrapped_of(text: Seq<char>, width: nat) -> Seq<Seq<char>> {
    if width == 0 {
        seq![]
    } else {
        let rows = lines_rows(lines(text), width);
        if rows.len() == 0 { seq![seq![]] } else { rows }
    }
}

/// Closes the current row: it joins the rows and a new empty one begins.
fn close_row(rows: &mut Vec<String>, cur: &mut String, used: &mut usize)
    ensures
        views(final(rows)@) == views(old(rows)@).push(old(cur)@),
        final(cur)@ == Seq::<char>::empty(),
        *final(used) == 0,
{
    let ghost before = views(rows@);
    let mut row = String::new();
    std::mem::swap(&mut row, cur);
    rows.push(row);
    assert(views(rows@) =~= before.push(old(cur)@));
    *used = 0;
}

/// Puts a too-wide word in character by character (see `break_word`).
fn break_into(rows: &mut Vec<String>, cur: &mut String, used: &mut usize, w: &Vec<char>, width: usize)
    ensures
        (views(final(rows)@), final(cur)@, *final(used) as nat)
            == break_word((views(old(rows)@), old(cur)@, *old(used) as nat), w@, width as nat),
{
    let ghost st0: WrapState = (views(rows@), cur@, *used as nat);
    let mut i: usize = 0;
    while i < w.len()
        invariant
            i <= w@.len(),
            (views(rows@), cur@, *used as nat) == break_word(st0, w@.take(i as int), width as nat),
        decreases w@.len() - i,
    {
        assert(w@.take(i + 1).drop_last() =~= w@.take(i as int));
        let c = w[i];
        let cw = char_width(c);
        if *used > width || cw > width - *used {
            close_row(rows, cur, used);
        }
        push_char(cur, c);
        *used = *used + cw;
        proof {
            let prev = break_word(st0, w@.take(i as int), width as nat);
            assert(w@.take(i + 1).last() == c);
            if prev.2 + cw > width {
                assert(cur@ =~= seq![c]);
            }
        }
        i += 1;
    }
    assert(w@.take(w@.len() as int) =~= w@);
}

/// Places one word (see `place_word`).
fn place(rows: &mut Vec<String>, cur: &mut String, used: &mut usize, w: &Vec<char>, width: usize)
    ensures
        (views(final(rows)@), final(cur)@, *final(used) as nat)
            == place_word((views(old(rows)@), old(cur)@, *old(used) as nat), w@, width as nat),
{
    let text = string_of(w);
    let ww = span_width(text.as_str());
    let gap: usize = if cur.as_str().is_empty() { 0 } else { 1 };
    if *used <= width && gap <= width - *used && ww <= width - *used - gap {
        if gap == 1 {
            push_char(cur, ' ');
        }
        push_str(cur, text.as_str());
        *used = *used + gap + ww;
        return;
    }
    if !cur.as_str().is_empty() {
        close_row(rows, cur, used);
    }
    if ww <= width {
        push_str(cur, text.as_str());
        *used = ww;
    } else {
        break_into(rows, cur, used, w, width);
    }
}


/// The rows of one source line (see `line_rows`), added to `rows`.
fn push_line_rows(rows: &mut Vec<String>, source: &Vec<char>, width: usize)
    ensures
        views(final(rows)@) == views(old(rows)@) + line_rows(source@, width as nat),
{
    let ghost before = views(rows@);
    if trimmed(source).len() == 0 {
        rows.push(String::new());
        assert(views(rows@) =~= before + line_rows(source@, width as nat));
        return;
    }
    let ws = words_of(source);
    let ghost wv = vviews(ws@);
    let mut line: Vec<String> = Vec::new();
    let mut cur = String::new();
    let mut used: usize = 0;
    let mut k: usize = 0;
    while k < ws.len()
        invariant
            k <= ws@.len(),
            wv == vviews(ws@),
            (views(line@), cur@, used as nat) == place_words((seq![], seq![], 0), wv.take(k as int), width as nat),
        decreases ws@.len() - k,
    {
        assert(wv.take(k + 1).drop_last() =~= wv.take(k as int));
        assert(wv.take(k + 1).last() == ws@[k as int]@);
        place(&mut line, &mut cur, &mut used, &ws[k], width);
        k += 1;
    }
    assert(wv.take(wv.len() as int) =~= wv);
    if !cur.as_str().is_empty() {
        close_row(&mut line, &mut cur, &mut used);
    }
    let ghost mine = views(line@);
    assert(mine == line_rows(source@, width as nat));
    let mut j: usize = 0;
    while j < line.len()
        invariant
            j <= line@.len(),
            mine == views(line@),
            views(rows@) == before + mine.take(j as int),
        decreases line@.len() - j,
    {
        let ghost at = views(rows@);
        let row = line[j].clone();
        rows.push(row);
        assert(views(rows@) =~= at.push(mine[j as int]));
        assert(mine.take(j + 1) =~= mine.take(j as int).push(mine[j as int]));
        j += 1;
    }
    assert(mine.take(mine.len() as int) =~= mine);
}

/// `text` wrapped to rows of `width` cells, by word, breaking words wider
/// than a row (see `wrapped_of`).
pub fn wrapped_rows(text: &str, width: usize) -> (r: Vec<String>)
    ensures
        views(r@) == wrapped_of(text@, width as nat),
{
    let mut rows: Vec<String> = Vec::new();
    if width == 0 {
        assert(views(rows@) =~= Seq::<Seq<char>>::empty());
        return rows;
    }
    let ls = lines_of(text);
    let ghost lv = vviews(ls@);
    let mut i: usize = 0;
    assert(views(rows@) =~= lines_rows(lv.take(0), width as nat));
    while i < ls.len()
        invariant
            i <= ls@.len(),
            lv == vviews(ls@),
            width > 0,
            views(rows@) == lines_rows(lv.take(i as int), width as nat),
        decreases ls@.len() - i,
    {
        assert(lv.take(i + 1).drop_last() =~= lv.take(i as int));
        assert(lv.take(i + 1).last() == ls@[i as int]@);
        push_line_rows(&mut rows, &ls[i], width);
        i += 1;
    }
    assert(lv.take(lv.len() as int) =~= lv);
    if rows.len() == 0 {
        rows.push(String::new());
        assert(views(rows@) =~= seq![Seq::<char>::empty()]);
    }
    rows
}


/// The cells a line's pieces take together.
pub open spec fn line_cells(ps: Seq<PieceV>) -> nat
    decreases ps.len(),
{
    if ps.len() == 0 {
        0
    } else {
        line_cells(ps.drop_last()) + cells(ps.last().0)
    }
}

/// The leading characters of `cs` that fit, one by one, in `budget` cells
/// when `used` are taken already; the first that does not fit ends it.
pub open spec fn fit_prefix(cs: Seq<char>, used: nat, budget: nat) -> Seq<char>
    decreases cs.len(),
{
    if cs.len() == 0 {
        seq![]
    } else {
        let cw = cells(seq![cs[0]]);
        if used + cw > budget {
            seq![]
        } else {
            seq![cs[0]] + fit_prefix(cs.drop_first(), used + cw, budget)
        }
    }
}

/// The pieces kept within `budget` cells: whole pieces while they fit, then
/// what fits of the first one that does not, with its tone and weight.
pub open spec fn keep_pieces(ps: Seq<PieceV>, used: nat, budget: nat) -> Seq<PieceV>
    decreases ps.len(),
{
    if ps.len() == 0 {
        seq![]
    } else {
        let p = ps[0];
        let sw = cells(p.0);
        if used + sw <= budget {
            seq![p] + keep_pieces(ps.drop_first(), used + sw, budget)
        } else {
            seq![(fit_prefix(p.0, used, budget), p.1, p.2)]
        }
    }
}

/// A line cut to `width` cells: unchanged when it fits (or the width is
/// zero), else what fits in one cell less, then a plain `…`.
pub open spec fn ellipsized(ps: Seq<PieceV>, width: nat) -> Seq<PieceV> {
    if width == 0 || line_cells(ps) <= width {
        ps
    } else {
        keep_pieces(ps, 0, (width - 1) as nat).push(("…"@, Tone::Plain, false))
    }
}

proof fn lemma_line_cells_grow(ps: Seq<PieceV>, j: int, k: int)
    requires
        0 <= j <= k <= ps.len(),
    ensures
        line_cells(ps.take(j)) <= line_cells(ps.take(k)),
    decreases k - j,
{
    if j < k {
        lemma_line_cells_grow(ps, j, k - 1);
        assert(ps.take(k).drop_last() =~= ps.take(k - 1));
    }
}

/// Whether the pieces take at most `width` cells.
fn fits_in(line: &Vec<Piece>, width: usize) -> (b: bool)
    ensures
        b == (line_cells(pieces_view(line@)) <= width),
{
    let ghost pv = pieces_view(line@);
    let mut total: usize = 0;
    let mut i: usize = 0;
    while i < line.len()
        invariant
            i <= line@.len(),
            pv == pieces_view(line@),
            total == line_cells(pv.take(i as int)),
            total <= width,
        decreases line@.len() - i,
    {
        let w = span_width(line[i].text.as_str());
        assert(pv.take(i + 1).drop_last() =~= pv.take(i as int));
        if w > width - total {
            proof {
                lemma_line_cells_grow(pv, i + 1, pv.len() as int);
                assert(pv.take(pv.len() as int) =~= pv);
            }
            return false;
        }
        total = total + w;
        i += 1;
    }
    assert(pv.take(pv.len() as int) =~= pv);
    true
}

/// What fits of a piece's text (see `fit_prefix`).
fn fit_text(text: &str, used: usize, budget: usize) -> (r: String)
    requires
        used <= budget,
    ensures
        r@ == fit_prefix(text@, used as nat, budget as nat),
{
    let cs = crate::text::chars_of(text);
    let mut kept = String::new();
    let mut at: usize = used;
    let mut i: usize = 0;
    assert(cs@.skip(0) =~= cs@);
    assert(kept@ + fit_prefix(cs@, used as nat, budget as nat) =~= fit_prefix(cs@, used as nat, budget as nat));
    while i < cs.len()
        invariant
            i <= cs@.len(),
            cs@ == text@,
            at <= budget,
            fit_prefix(text@, used as nat, budget as nat) == kept@ + fit_prefix(cs@.skip(i as int), at as nat, budget as nat),
        decreases cs@.len() - i,
    {
        let c = cs[i];
        let cw = char_width(c);
        assert(cs@.skip(i as int)[0] == c);
        assert(cs@.skip(i as int).drop_first() =~= cs@.skip(i + 1));
        if cw > budget - at {
            assert(kept@ + Seq::<char>::empty() =~= kept@);
            return kept;
        }
        let ghost k0 = kept@;
        push_char(&mut kept, c);
        assert(k0 + (seq![c] + fit_prefix(cs@.skip(i + 1), (at + cw) as nat, budget as nat))
            =~= kept@ + fit_prefix(cs@.skip(i + 1), (at + cw) as nat, budget as nat));
        at = at + cw;
        i += 1;
    }
    assert(kept@ + Seq::<char>::empty() =~= kept@);
    kept
}

/// A line cut to `width` display cells with a trailing `…` (see `ellipsized`);
/// the kept pieces keep their tone and weight.
pub fn ellipsize_line(line: Vec<Piece>, width: usize) -> (r: Vec<Piece>)
    ensures
        pieces_view(r@) == ellipsized(pieces_view(line@), width as nat),
{
    if width == 0 || fits_in(&line, width) {
        return line;
    }
    let ghost pv = pieces_view(line@);
    let budget = width - 1;
    let mut used: usize = 0;
    let mut kept: Vec<Piece> = Vec::new();
    let mut i: usize = 0;
    assert(pv.skip(0) =~= pv);
    assert(pieces_view(kept@) + keep_pieces(pv, 0, budget as nat) =~= keep_pieces(pv, 0, budget as nat));
    while i < line.len()
        invariant
            i <= line@.len(),
            pv == pieces_view(line@),
            budget == width - 1,
            used <= budget,
            keep_pieces(pv, 0, budget as nat) == pieces_view(kept@) + keep_pieces(pv.skip(i as int), used as nat, budget as nat),
        decreases line@.len() - i,
    {
        let p = &line[i];
        let sw = span_width(p.text.as_str());
        assert(pv.skip(i as int)[0] == piece_view(line@[i as int]));
        assert(pv.skip(i as int).drop_first() =~= pv.skip(i + 1));
        let ghost k0 = pieces_view(kept@);
        if sw <= budget - used {
            kept.push(p.clone_piece());
            assert(pieces_view(kept@) =~= k0.push(pv[i as int]));
            assert(k0 + (seq![pv[i as int]] + keep_pieces(pv.skip(i + 1), (used + sw) as nat, budget as nat))
                =~= pieces_view(kept@) + keep_pieces(pv.skip(i + 1), (used + sw) as nat, budget as nat));
            used = used + sw;
            i += 1;
        } else {
            let text = fit_text(p.text.as_str(), used, budget);
            kept.push(Piece { text, tone: p.tone, bold: p.bold });
            assert(pieces_view(kept@) =~= k0 + keep_pieces(pv.skip(i as int), used as nat, budget as nat));
            i = line.len();
            assert(pv.skip(i as int) =~= Seq::<PieceV>::empty());
            assert(pieces_view(kept@) + Seq::<PieceV>::empty() =~= pieces_view(kept@));
        }
    }
    assert(pv.skip(pv.len() as int) =~= Seq::<PieceV>::empty());
    assert(pieces_view(kept@) + Seq::<PieceV>::empty() =~= pieces_view(kept@));
    let ghost before = pieces_view(kept@);
    kept.push(crate::draw::piece("…", Tone::Plain, false));
    assert(pieces_view(kept@) =~= before.push(("…"@, Tone::Plain, false)));
    kept
}


} // verus!
