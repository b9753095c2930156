//! The bounded log ring behind every log view, with optional folding of
//! repeated events, and the keys that identify an event.
use std::collections::VecDeque;
use vstd::prelude::*;
use crate::ansi::{ansi_plain, strip_ansi};
use crate::text::{
    chars_of, dec, first_index_of, first_token, first_two_words, first_two_words_of, push_char,
    push_str, slice_chars, str_eq, string_of, string_of_range, token_at, trim, trim_bounds, trimmed,
    u64_to_string, vec_find_char, CharClass,
};

verus! {

/// How many lines a log ring keeps.
pub const LOG_CAP: usize = 2000;

/// The tail after a leading `[...]` group (a timestamp), if `t` starts with one.
pub open spec fn bracket_tail(t: Seq<char>) -> Option<Seq<char>> {
    if t.len() > 0 && t[0] == '[' {
        match first_index_of(t.drop_first(), ']') {
            Some(i) => Some(t.drop_first().subrange(i + 1, t.len() - 1)),
            None => None,
        }
    } else {
        None
    }
}

/// The key under which repeated events fold: the trimmed plain text without its
/// leading `[timestamp]` group.
pub open spec fn collapse_key_of(plain: Seq<char>) -> Seq<char> {
    let t = trim(plain);
    match bracket_tail(t) {
        Some(tail) => trim(tail),
        None => t,
    }
}

/// `[source] tag` for text holding a bracketed source: the first `[...]`
/// group and the word after it (up to a space, tab or colon).
pub open spec fn source_tag_of(after: Seq<char>) -> Option<Seq<char>> {
    match first_index_of(after, '[') {
        Some(open) => {
            let rest = after.subrange(open + 1, after.len() as int);
            match first_index_of(rest, ']') {
                Some(close) => Some(seq!['['] + rest.subrange(0, close) + seq![']', ' '] + first_token(
                    rest.subrange(close + 1, rest.len() as int),
                    CharClass::TagSeparator,
                )),
                None => None,
            }
        },
        None => None,
    }
}

/// The key that groups events of one kind for throttling: `[source] tag` when
/// the event names a bracketed source after its timestamp, else its first two words.
pub open spec fn shape_key_of(plain: Seq<char>) -> Seq<char> {
    let t = trim(plain);
    let after = match bracket_tail(t) {
        Some(tail) => tail,
        None => t,
    };
    match source_tag_of(after) {
        Some(key) => key,
        None => first_two_words(after),
    }
}

/// The dim `(×n)` badge appended to a folded line.
pub open spec fn badge(n: nat) -> Seq<char> {
    "\u{1b}[2m (\u{d7}"@ + dec(n) + ")\u{1b}[0m"@
}

/// `lines` with `line` appended, the oldest line evicted when the ring is full.
pub open spec fn capped_push(lines: Seq<Seq<char>>, line: Seq<char>) -> Seq<Seq<char>> {
    if lines.len() == LOG_CAP {
        lines.drop_first().push(line)
    } else {
        lines.push(line)
    }
}

/// The views of an optional string.
pub open spec fn opt_view(o: Option<String>) -> Option<Seq<char>> {
    match o {
        Some(s) => Some(s@),
        None => None,
    }
}

/// Where the bracketed tail of `v[a..b]` starts, when `v[a..b]` opens with `[...]`.
fn bracket_tail_start(v: &Vec<char>, a: usize, b: usize) -> (r: Option<usize>)
    requires
        a <= b <= v.len(),
    ensures
        match bracket_tail(v@.subrange(a as int, b as int)) {
            Some(tail) => r matches Some(k) && a < k <= b && tail == v@.subrange(k as int, b as int),
            None => r is None,
        },
{
    let ghost t = v@.subrange(a as int, b as int);
    if a < b && v[a] == '[' {
        let rest = slice_chars(v, a + 1, b);
        assert(rest@ =~= t.drop_first());
        match vec_find_char(&rest, ']') {
            Some(i) => {
                assert(t.drop_first().subrange(i + 1, t.len() - 1) =~= v@.subrange(a + 1 + i + 1, b as int));
                Some(a + 1 + i + 1)
            },
            None => None,
        }
    } else {
        None
    }
}

/// The folding key of a log line: ANSI styling, surrounding whitespace and a
/// leading `[timestamp]` are ignored.
pub fn collapse_key(line: &str) -> (r: String)
    ensures
        r@ == collapse_key_of(ansi_plain(line@)),
{
    let plain = strip_ansi(line);
    let v = chars_of(plain.as_str());
    let (a, b) = trim_bounds(&v);
    match bracket_tail_start(&v, a, b) {
        Some(k) => {
            let tail = slice_chars(&v, k, b);
            let t = trimmed(&tail);
            string_of(&t)
        },
        None => string_of_range(&v, a, b),
    }
}

fn source_tag_key(after: &Vec<char>) -> (r: Option<String>)
    ensures
        match source_tag_of(after@) {
            Some(key) => r matches Some(s) && s@ == key,
            None => r is None,
        },
{
    match vec_find_char(after, '[') {
        Some(open) => {
            let rest = slice_chars(after, open + 1, after.len());
            match vec_find_char(&rest, ']') {
                Some(close) => {
                    let mut r = String::new();
                    push_char(&mut r, '[');
                    let source = string_of_range(&rest, 0, close);
                    push_str(&mut r, source.as_str());
                    push_char(&mut r, ']');
                    push_char(&mut r, ' ');
                    let (t0, t1) = token_at(&rest, close + 1, CharClass::TagSeparator);
                    let tag = string_of_range(&rest, t0, t1);
                    push_str(&mut r, tag.as_str());
                    assert(r@ =~= seq!['['] + rest@.subrange(0, close as int) + seq![']', ' ']
                        + rest@.subrange(t0 as int, t1 as int));
                    Some(r)
                },
                None => None,
            }
        },
        None => None,
    }
}

/// The throttling key of a trace line (see `shape_key_of`).
pub fn shape_key(line: &str) -> (r: String)
    ensures
        r@ == shape_key_of(ansi_plain(line@)),
{
    let plain = strip_ansi(line);
    let v = chars_of(plain.as_str());
    let (a, b) = trim_bounds(&v);
    let start = match bracket_tail_start(&v, a, b) {
        Some(k) => k,
        None => a,
    };
    let after = slice_chars(&v, start, b);
    match source_tag_key(&after) {
        Some(key) => key,
        None => {
            assert(after@.subrange(0, after@.len() as int) =~= after@);
            first_two_words_of(&after, 0)
        },
    }
}

/// The badge that marks a line folded `count` times.
pub fn repeat_badge(count: usize) -> (r: String)
    ensures
        r@ == badge(count as nat),
{
    let mut r = String::new();
    push_str(&mut r, "\u{1b}[2m (\u{d7}");
    let n = u64_to_string(count as u64);
    push_str(&mut r, n.as_str());
    push_str(&mut r, ")\u{1b}[0m");
    r
}

/// The index of the first visible line when `height` lines show the log of
/// `len` lines scrolled `offset` lines up from the tail.
pub fn window_start(len: usize, height: usize, offset: usize) -> (r: usize)
    ensures
        r == (if height + offset >= len { 0 } else { len - height - offset }),
{
    len.saturating_sub(height.saturating_add(offset))
}

/// The scroll offset clamped so the window never runs past the head of the log.
pub fn clamp_offset(len: usize, height: usize, offset: usize) -> (r: usize)
    ensures
        r == (if height >= len { 0 } else if offset <= len - height { offset as int } else { len - height }),
{
    let limit = len.saturating_sub(height);
    if offset < limit { offset } else { limit }
}

/// A ring of the most recent log lines, at most `LOG_CAP` of them. A collapsing
/// ring folds a run of lines with the same `collapse_key` into the first of them,
/// badged with the run's length.
pub struct LogRing {
    /// The kept lines, oldest first.
    pub lines: VecDeque<String>,
    collapse: bool,
    last_key: Option<String>,
    repeat: usize,
}

impl LogRing {
    /// The kept lines as character sequences.
    pub closed spec fn view_lines(&self) -> Seq<Seq<char>> {
        self.lines@.map_values(|s: String| s@)
    }

    /// The ring holds no more than `LOG_CAP` lines.
    pub closed spec fn wf(&self) -> bool {
        self.lines@.len() <= LOG_CAP
    }

    /// Whether the ring folds repeated events.
    pub closed spec fn spec_collapse(&self) -> bool {
        self.collapse
    }

    /// The key of the most recent event, once a collapsing ring has seen one.
    pub closed spec fn spec_last_key(&self) -> Option<Seq<char>> {
        opt_view(self.last_key)
    }

    /// How many times the most recent event has repeated.
    pub closed spec fn spec_repeat(&self) -> nat {
        self.repeat as nat
    }

    /// An empty ring that keeps every line.
    pub fn new() -> (r: Self)
        ensures
            r.wf(),
            r.view_lines() == Seq::<Seq<char>>::empty(),
            !r.spec_collapse(),
            r.spec_last_key() is None,
            r.spec_repeat() == 0,
    {
        LogRing { lines: VecDeque::new(), collapse: false, last_key: None, repeat: 0 }
    }

    /// An empty ring that folds repeated events.
    pub fn collapsing() -> (r: Self)
        ensures
            r.wf(),
            r.view_lines() == Seq::<Seq<char>>::empty(),
            r.spec_collapse(),
            r.spec_last_key() is None,
            r.spec_repeat() == 0,
    {
        LogRing { lines: VecDeque::new(), collapse: true, last_key: None, repeat: 0 }
    }

    /// Records `line`: folds it into the last line when it repeats that line's
    /// event in a collapsing ring, else appends it, evicting the oldest line of a
    /// full ring.
    pub fn push(&mut self, line: String)
        requires
            old(self).wf(),
            old(self).spec_repeat() < usize::MAX,
        ensures
            final(self).wf(),
            final(self).spec_collapse() == old(self).spec_collapse(),
            ({
                let key = collapse_key_of(ansi_plain(line@));
                let folds = old(self).spec_collapse() && old(self).spec_repeat() > 0
                    && old(self).spec_last_key() == Some(key) && old(self).view_lines().len() > 0;
                if folds {
                    &&& final(self).view_lines() == old(self).view_lines().update(
                        old(self).view_lines().len() - 1,
                        line@ + badge(old(self).spec_repeat() + 1),
                    )
                    &&& final(self).spec_repeat() == old(self).spec_repeat() + 1
                    &&& final(self).spec_last_key() == old(self).spec_last_key()
                } else {
                    &&& final(self).view_lines() == capped_push(old(self).view_lines(), line@)
                    &&& old(self).spec_collapse() ==> final(self).spec_last_key() == Some(key)
                        && final(self).spec_repeat() == 1
                    &&& !old(self).spec_collapse() ==> final(self).spec_last_key()
                        == old(self).spec_last_key() && final(self).spec_repeat()
                        == old(self).spec_repeat()
                }
            }),
    {
        if self.collapse && self.try_collapse(&line) {
            return;
        }
        let ghost before = self.lines@;
        if self.lines.len() == LOG_CAP {
            self.lines.pop_front();
        }
        self.lines.push_back(line);
        proof {
            let lv = before.map_values(|s: String| s@);
            if before.len() == LOG_CAP {
                assert(self.lines@.map_values(|s: String| s@) =~= lv.drop_first().push(line@));
            } else {
                assert(self.lines@.map_values(|s: String| s@) =~= lv.push(line@));
            }
        }
    }

    /// Folds `line` into the last line when it repeats the previous event;
    /// otherwise starts a new run keyed by `line`.
    pub fn try_collapse(&mut self, line: &String) -> (folded: bool)
        requires
            old(self).wf(),
            old(self).spec_repeat() < usize::MAX,
        ensures
            final(self).wf(),
            final(self).spec_collapse() == old(self).spec_collapse(),

            ({
                let key = collapse_key_of(ansi_plain(line@));
                let folds = old(self).spec_repeat() > 0 && old(self).spec_last_key() == Some(key)
                    && old(self).view_lines().len() > 0;
                &&& folded == folds
                &&& folds ==> final(self).view_lines() == old(self).view_lines().update(
                    old(self).view_lines().len() - 1,
                    line@ + badge(old(self).spec_repeat() + 1),
                ) && final(self).spec_repeat() == old(self).spec_repeat() + 1
                    && final(self).spec_last_key() == old(self).spec_last_key()
                &&& !folds ==> final(self).view_lines() == old(self).view_lines() && final(self).spec_last_key()

                    == Some(key) && final(self).spec_repeat() == 1
            }),
    {
        let key = collapse_key(line.as_str());
        let same = match &self.last_key {
            Some(k) => str_eq(k.as_str(), key.as_str()),
            None => false,
        };
        if self.repeat > 0 && same && self.lines.len() > 0 {
            let ghost before = self.lines@;
            self.repeat = self.repeat + 1;
            let mut folded = String::new();
            push_str(&mut folded, line.as_str());
            let b = repeat_badge(self.repeat);
            push_str(&mut folded, b.as_str());
            self.lines.pop_back();
            self.lines.push_back(folded);
            proof {
                let lv = before.map_values(|s: String| s@);
                assert(self.lines@.map_values(|s: String| s@) =~= lv.update(lv.len() - 1, line@
                    + badge(self.repeat as nat)));
            }
            return true;
        }
        self.last_key = Some(key);
        self.repeat = 1;
        false
    }

    /// How many lines the ring holds.
    pub fn len(&self) -> (n: usize)
        ensures
            n == self.view_lines().len(),
    {
        self.lines.len()
    }
}

} // verus!
