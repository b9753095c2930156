//! The trace's relaxed rate: a line whose shape (source and tag) was shown
//! less than an interval ago is dropped; in realtime every line is kept.
use vstd::prelude::*;
use crate::ansi::ansi_plain;
use crate::log_pane::{shape_key, shape_key_of};
use crate::text::str_eq;

verus! {

/// How often the relaxed trace shows a line of one shape, in milliseconds.
pub const RELAXED_TRACE_INTERVAL_MS: u64 = 300;

/// When each shape was last shown.
pub struct ShapeThrottle {
    entries: Vec<(String, u64)>,
}

/// The map a list of (shape, time) entries stands for, later entries winning.
pub open spec fn entries_map(es: Seq<(Seq<char>, u64)>) -> Map<Seq<char>, u64>
    decreases es.len(),
{
    if es.len() == 0 {
        Map::empty()
    } else {
        entries_map(es.drop_last()).insert(es.last().0, es.last().1)
    }
}

/// The plain values of the entries.
pub open spec fn entries_view(es: Seq<(String, u64)>) -> Seq<(Seq<char>, u64)> {
    es.map_values(|e: (String, u64)| (e.0@, e.1))
}

/// No shape occurs twice.
pub open spec fn unique_shapes(es: Seq<(Seq<char>, u64)>) -> bool {
    forall|i: int, j: int| 0 <= i < j < es.len() ==> es[i].0 != es[j].0
}

impl View for ShapeThrottle {
    type V = Map<Seq<char>, u64>;

    closed spec fn view(&self) -> Map<Seq<char>, u64> {
        entries_map(entries_view(self.entries@))
    }
}

/// A line of the shape last shown at `last` is dropped at `now` when less
/// than `min_interval` has passed.
pub open spec fn throttled(last: Option<u64>, now: u64, min_interval: u64) -> bool {
    last matches Some(t) && (if now >= t { now - t } else { 0 }) < min_interval
}

/// The last time a shape was shown, when it was.
pub open spec fn last_shown(m: Map<Seq<char>, u64>, shape: Seq<char>) -> Option<u64> {
    if m.dom().contains(shape) {
        Some(m[shape])
    } else {
        None
    }
}

/// The lines a batch keeps, and when each shape was last shown afterwards:
/// in realtime every line, else each line whose shape is not throttled, its
/// shape then stamped `now`.
pub open spec fn rated_of(m: Map<Seq<char>, u64>, lines: Seq<Seq<char>>, realtime: bool, now: u64, min_interval: u64) -> (
    Seq<Seq<char>>,
    Map<Seq<char>, u64>,
)
    decreases lines.len(),
{
    if lines.len() == 0 {
        (Seq::empty(), m)
    } else {
        let (kept, m1) = rated_of(m, lines.drop_last(), realtime, now, min_interval);
        let line = lines.last();
        let shape = shape_key_of(ansi_plain(line));
        if realtime {
            (kept.push(line), m1)
        } else if throttled(last_shown(m1, shape), now, min_interval) {
            (kept, m1)
        } else {
            (kept.push(line), m1.insert(shape, now))
        }
    }
}

proof fn lemma_map_without(es: Seq<(Seq<char>, u64)>, k: Seq<char>)
    requires
        forall|i: int| 0 <= i < es.len() ==> es[i].0 != k,
    ensures
        !entries_map(es).dom().contains(k),
    decreases es.len(),
{
    if es.len() > 0 {
        lemma_map_without(es.drop_last(), k);
    }
}

proof fn lemma_map_at(es: Seq<(Seq<char>, u64)>, i: int)
    requires
        unique_shapes(es),
        0 <= i < es.len(),
    ensures
        entries_map(es).dom().contains(es[i].0),
        entries_map(es)[es[i].0] == es[i].1,
    decreases es.len(),
{
    if i < es.len() - 1 {
        lemma_map_at(es.drop_last(), i);
    }
}

proof fn lemma_map_update(es: Seq<(Seq<char>, u64)>, i: int, t: u64)
    requires
        unique_shapes(es),
        0 <= i < es.len(),
    ensures
        entries_map(es.update(i, (es[i].0, t))) == entries_map(es).insert(es[i].0, t),
        unique_shapes(es.update(i, (es[i].0, t))),
    decreases es.len(),
{
    let u = es.update(i, (es[i].0, t));
    if i == es.len() - 1 {
        assert(u.drop_last() =~= es.drop_last());
        assert(entries_map(u) =~= entries_map(es).insert(es[i].0, t));
    } else {
        lemma_map_update(es.drop_last(), i, t);
        assert(u.drop_last() =~= es.drop_last().update(i, (es[i].0, t)));
        assert(es.last().0 != es[i].0);
        assert(entries_map(u) =~= entries_map(es).insert(es[i].0, t));
    }
}

impl ShapeThrottle {
    /// The shapes' times are kept once each.
    pub closed spec fn wf(&self) -> bool {
        unique_shapes(entries_view(self.entries@))
    }

    /// No shape shown yet.
    pub fn new() -> (r: Self)
        ensures
            r.wf(),
            r@ == Map::<Seq<char>, u64>::empty(),
    {
        let r = ShapeThrottle { entries: Vec::new() };
        assert(entries_view(r.entries@) =~= Seq::<(Seq<char>, u64)>::empty());
        r
    }

    /// Whether a line of `shape` is shown at `now`; when it is, its shape is
    /// stamped `now`.
    pub fn show_shape(&mut self, shape: String, now: u64, min_interval: u64) -> (shown: bool)
        requires
            old(self).wf(),
        ensures
            final(self).wf(),
            shown == !throttled(last_shown(old(self)@, shape@), now, min_interval),
            final(self)@ == (if shown { old(self)@.insert(shape@, now) } else { old(self)@ }),
    {
        let ghost ev = entries_view(self.entries@);
        let ghost m0 = self@;
        assert(m0 == entries_map(ev));
        let mut i: usize = 0;
        while i < self.entries.len()
            invariant
                i <= self.entries@.len(),
                ev == entries_view(self.entries@),
                m0 == entries_map(ev),
                m0 == old(self)@,
                unique_shapes(ev),
                forall|k: int| 0 <= k < i ==> ev[k].0 != shape@,
            decreases self.entries.len() - i,
        {
            if str_eq(self.entries[i].0.as_str(), shape.as_str()) {
                assert(ev[i as int].0 == shape@);
                proof {
                    lemma_map_at(ev, i as int);
                }
                let last = self.entries[i].1;
                assert(last_shown(m0, shape@) == Some(last));
                if now.saturating_sub(last) < min_interval {
                    return false;
                }
                let ghost before = ev;
                self.entries.set(i, (shape, now));
                proof {
                    lemma_map_update(before, i as int, now);
                    assert(entries_view(self.entries@) =~= before.update(i as int, (before[i as int].0, now)));
                }
                return true;
            }
            i += 1;
        }
        proof {
            lemma_map_without(ev, shape@);
            assert(last_shown(m0, shape@) is None);
        }
        let ghost before = ev;
        self.entries.push((shape, now));
        proof {
            assert(entries_view(self.entries@) =~= before.push((shape@, now)));
            assert(entries_view(self.entries@).drop_last() =~= before);
            assert(unique_shapes(entries_view(self.entries@))) by {
                let after = entries_view(self.entries@);
                assert forall|a: int, b: int| 0 <= a < b < after.len() implies after[a].0 != after[b].0 by {
                    if b == after.len() - 1 {
                        assert(after[a] == before[a]);
                    } else {
                        assert(after[a] == before[a] && after[b] == before[b]);
                    }
                }
            }
        }
        true
    }

    /// The lines of a batch the trace shows, in order (see `rated_of`).
    pub fn rate_lines(&mut self, lines: Vec<String>, realtime: bool, now: u64, min_interval: u64) -> (kept: Vec<String>)
        requires
            old(self).wf(),
        ensures
            final(self).wf(),
            (kept@.map_values(|s: String| s@), final(self)@) == rated_of(
                old(self)@,
                lines@.map_values(|s: String| s@),
                realtime,
                now,
                min_interval,
            ),
    {
        let ghost lv = lines@.map_values(|s: String| s@);
        let ghost start = self@;
        let mut kept: Vec<String> = Vec::new();
        let mut i: usize = 0;
        while i < lines.len()
            invariant
                i <= lines@.len(),
                lv == lines@.map_values(|s: String| s@),
                self.wf(),
                (kept@.map_values(|s: String| s@), self@) == rated_of(start, lv.take(i as int), realtime, now, min_interval),
            decreases lines.len() - i,
        {
            proof {
                assert(lv.take(i + 1).drop_last() =~= lv.take(i as int));
                assert(lv.take(i + 1).last() == lines@[i as int]@);
            }
            let line = lines[i].clone();
            let ghost kb = kept@.map_values(|s: String| s@);
            if realtime {
                kept.push(line);
                assert(kept@.map_values(|s: String| s@) =~= kb.push(lines@[i as int]@));
            } else {
                let shape = shape_key(line.as_str());
                if self.show_shape(shape, now, min_interval) {
                    kept.push(line);
                    assert(kept@.map_values(|s: String| s@) =~= kb.push(lines@[i as int]@));
                }
            }
            i += 1;
        }
        assert(lv.take(lines@.len() as int) =~= lv);
        kept
    }
}

} // verus!
