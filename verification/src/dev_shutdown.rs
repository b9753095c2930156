//! The dev tray's plugin daemons as the shutdown tracks them: how they are
//! listed, merged and logged, and which of them the dev workspace owns.
use vstd::prelude::*;
use crate::text::{
    chars_of, dec, join, lemma_str_lt_total, lemma_str_lt_transitive, parse_unsigned,
    parse_unsigned_chars, push_str, slice_chars, str_eq, str_less, str_lt, string_of_range,
    to_owned_string, trim, trimmed, u64_to_string, vec_eq,
};

verus! {

/// A plugin daemon recorded in the runtime pid directory.
#[derive(Debug)]
pub struct TrackedDaemonPid {
    /// The plugin the daemon serves.
    pub plugin_id: String,
    /// Its process id.
    pub pid: u32,
    /// The executable it ran when first seen, where the platform tells.
    pub executable: Option<String>,
}

/// A recorded daemon as plain values: plugin id, pid, executable.
pub type DaemonV = (Seq<char>, u32, Option<Seq<char>>);

/// The plain values of a recorded daemon.
pub open spec fn daemon_view(d: TrackedDaemonPid) -> DaemonV {
    (d.plugin_id@, d.pid, match d.executable {
        Some(e) => Some(e@),
        None => None,
    })
}

/// The plain values of a list of recorded daemons.
pub open spec fn daemon_views(s: Seq<TrackedDaemonPid>) -> Seq<DaemonV> {
    s.map_values(|d: TrackedDaemonPid| daemon_view(d))
}

/// `plugin=pid` for each daemon, joined with `, `; `none` for no daemon.
pub open spec fn daemon_list_text(ds: Seq<DaemonV>) -> Seq<char> {
    if ds.len() == 0 {
        "none"@
    } else {
        join(ds.map_values(|d: DaemonV| d.0 + "="@ + dec(d.1 as nat)), ", "@)
    }
}

/// The daemons as the shutdown logs name them (see `daemon_list_text`).
pub fn format_daemon_pids(daemons: &[TrackedDaemonPid]) -> (r: String)
    ensures
        r@ == daemon_list_text(daemon_views(daemons@)),
{
    let ghost parts = daemon_views(daemons@).map_values(|d: DaemonV| d.0 + "="@ + dec(d.1 as nat));
    if daemons.len() == 0 {
        return to_owned_string("none");
    }
    let mut r = String::new();
    let mut i: usize = 0;
    while i < daemons.len()
        invariant
            0 < daemons@.len(),
            i <= daemons@.len(),
            parts.len() == daemons@.len(),
            parts == daemon_views(daemons@).map_values(|d: DaemonV| d.0 + "="@ + dec(d.1 as nat)),
            r@ == join(parts.take(i as int), ", "@),
        decreases daemons.len() - i,
    {
        if i > 0 {
            push_str(&mut r, ", ");
        }
        push_str(&mut r, daemons[i].plugin_id.as_str());
        push_str(&mut r, "=");
        let n = u64_to_string(daemons[i].pid as u64);
        push_str(&mut r, n.as_str());
        proof {
            let t = parts.take(i + 1);
            assert(t.drop_last() =~= parts.take(i as int));
            assert(t.last() == parts[i as int]);
            if i == 0 {
                assert(t =~= seq![parts[0]]);
            }
        }
        i += 1;
    }
    assert(parts.take(daemons@.len() as int) =~= parts);
    r
}

/// A file name is one of the host's own executables, `qol`, `qol-tray` or
/// `qol-tray-doctor`, possibly marked ` (deleted)` by the kernel.
pub open spec fn is_host_name(name: Seq<char>) -> bool {
    let bare = if crate::text::ends_with(name, " (deleted)"@) {
        name.take(name.len() - " (deleted)"@.len())
    } else {
        name
    };
    bare == "qol"@ || bare == "qol-tray"@ || bare == "qol-tray-doctor"@
}

/// Whether an executable, by its file name, is one of the host's own.
pub fn is_host_executable(file_name: Option<&str>) -> (r: bool)
    ensures
        r == (file_name matches Some(n) && is_host_name(n@)),
{
    match file_name {
        None => false,
        Some(name) => {
            let v = chars_of(name);
            let suffix = chars_of(" (deleted)");
            let bare = if crate::text::vec_ends_with(&v, &suffix) {
                slice_chars(&v, 0, v.len() - suffix.len())
            } else {
                slice_chars(&v, 0, v.len())
            };
            assert(v@.subrange(0, v@.len() as int) =~= v@);
            assert(v@.subrange(0, v@.len() - suffix@.len()) =~= v@.take(v@.len() - suffix@.len()));
            vec_eq(&bare, &chars_of("qol")) || vec_eq(&bare, &chars_of("qol-tray")) || vec_eq(
                &bare,
                &chars_of("qol-tray-doctor"),
            )
        },
    }
}

/// A daemon executable the dev workspace manages: not a host executable, and
/// under one of the managed roots.
pub fn is_managed_executable(file_name: Option<&str>, under_managed_root: bool) -> (r: bool)
    ensures
        r == (!(file_name matches Some(n) && is_host_name(n@)) && under_managed_root),
{
    !is_host_executable(file_name) && under_managed_root
}

/// What the platform shows of a recorded daemon when its ownership is checked.
pub struct DaemonObservation {
    /// Its process group is alive.
    pub group_alive: bool,
    /// Its recorded executable is a managed one.
    pub recorded_managed: bool,
    /// The executable its pid runs now, if readable.
    pub running: Option<String>,
    /// Its pid is alive.
    pub pid_alive: bool,
    /// Its pid is a zombie.
    pub zombie: bool,
}

/// Whether a recorded daemon's group still belongs to the dev workspace: it is
/// alive, recorded a managed executable, and its pid still runs that
/// executable (or is gone or a zombie, when the executable cannot be read).
pub fn daemon_group_is_owned(daemon: &TrackedDaemonPid, seen: &DaemonObservation) -> (r: bool)
    ensures
        r == (seen.group_alive && daemon.executable is Some && seen.recorded_managed && match seen.running {
            Some(current) => daemon.executable matches Some(e) && current@ == e@,
            None => !seen.pid_alive || seen.zombie,
        }),
{
    if !seen.group_alive {
        return false;
    }
    let recorded = match &daemon.executable {
        None => return false,
        Some(e) => e,
    };
    if !seen.recorded_managed {
        return false;
    }
    match &seen.running {
        Some(current) => str_eq(current.as_str(), recorded.as_str()),
        None => !seen.pid_alive || seen.zombie,
    }
}

/// How the previous tray stopped.
#[derive(Clone, Copy, PartialEq, Eq, Structural, Debug)]
pub enum ShutdownMethod {
    /// It shut down on request.
    Graceful,
    /// It had to be killed.
    Forced,
}

/// The outcome of stopping the previous tray: graceful when the requested
/// shutdown finished cleanly; otherwise, after forcing, forced when nothing is
/// left running, else an error that names what is.
pub fn stop_existing_tray(graceful: bool, tray_alive: bool, port_open: bool, remaining: &[TrackedDaemonPid]) -> (r: Result<ShutdownMethod, String>)
    ensures
        graceful ==> r == Ok::<ShutdownMethod, String>(ShutdownMethod::Graceful),
        !graceful && !tray_alive && !port_open && remaining@.len() == 0 ==> r == Ok::<ShutdownMethod, String>(ShutdownMethod::Forced),
        !graceful && (tray_alive || port_open || remaining@.len() > 0) ==> (r matches Err(e) && e@
            == "previous qol-tray did not stop cleanly; tray alive: "@ + (if tray_alive { "true"@ } else { "false"@ })
            + "; remaining daemons: "@ + daemon_list_text(daemon_views(remaining@))),
{
    if graceful {
        return Ok(ShutdownMethod::Graceful);
    }
    if tray_alive || port_open || remaining.len() > 0 {
        let mut msg = to_owned_string("previous qol-tray did not stop cleanly; tray alive: ");
        push_str(&mut msg, if tray_alive { "true" } else { "false" });
        push_str(&mut msg, "; remaining daemons: ");
        let list = format_daemon_pids(remaining);
        push_str(&mut msg, list.as_str());
        return Err(msg);
    }
    Ok(ShutdownMethod::Forced)
}

} // verus!

verus! {

// ------------------------------------------------------------------ merging

/// `a` sorts strictly before `b`: by plugin id, then by pid.
pub open spec fn key_before(a: DaemonV, b: DaemonV) -> bool {
    str_lt(a.0, b.0) || (a.0 == b.0 && a.1 < b.1)
}

/// The daemons whose plugin id and pid are `k`.
pub open spec fn has_key(k: (Seq<char>, u32)) -> spec_fn(DaemonV) -> bool {
    |d: DaemonV| d.0 == k.0 && d.1 == k.1
}

/// No daemon sorts before one that precedes it.
pub open spec fn sorted_by_key(s: Seq<DaemonV>) -> bool {
    forall|i: int, j: int| 0 <= i < j < s.len() ==> !key_before(s[j], s[i])
}

/// `r` is `s` sorted by plugin id and pid, daemons of one key keeping their
/// order (a stable sort).
pub open spec fn stable_sort_of(r: Seq<DaemonV>, s: Seq<DaemonV>) -> bool {
    &&& sorted_by_key(r)
    &&& forall|k: (Seq<char>, u32)| #[trigger] r.filter(has_key(k)) == s.filter(has_key(k))
}

/// `s` without the elements equal to the one before them.
pub open spec fn dedup(s: Seq<DaemonV>) -> Seq<DaemonV>
    decreases s.len(),
{
    if s.len() <= 1 {
        s
    } else if s.last() == s[s.len() - 2] {
        dedup(s.drop_last())
    } else {
        dedup(s.drop_last()).push(s.last())
    }
}

/// The order of keys is a strict weak order.
proof fn lemma_key_order(a: DaemonV, b: DaemonV, c: DaemonV)
    ensures
        !key_before(a, a),
        key_before(a, b) ==> !key_before(b, a),
        key_before(a, b) && key_before(b, c) ==> key_before(a, c),
        key_before(a, b) && !key_before(c, b) ==> key_before(a, c),
        !key_before(a, b) && !key_before(b, a) ==> a.0 == b.0 && a.1 == b.1,
{
    lemma_str_lt_total(a.0, b.0);
    lemma_str_lt_total(b.0, c.0);
    lemma_str_lt_total(a.0, c.0);
    lemma_str_lt_total(c.0, b.0);
    if str_lt(a.0, b.0) && str_lt(b.0, c.0) {
        lemma_str_lt_transitive(a.0, b.0, c.0);
    }
}

proof fn lemma_filter_push(s: Seq<DaemonV>, x: DaemonV, k: (Seq<char>, u32))
    ensures
        s.push(x).filter(has_key(k)) == (if has_key(k)(x) {
            s.filter(has_key(k)).push(x)
        } else {
            s.filter(has_key(k))
        }),
{
    reveal(Seq::filter);
    assert(s.push(x).drop_last() =~= s);
}

proof fn lemma_filter_none(s: Seq<DaemonV>, k: (Seq<char>, u32))
    requires
        forall|i: int| 0 <= i < s.len() ==> !has_key(k)(#[trigger] s[i]),
    ensures
        s.filter(has_key(k)) == Seq::<DaemonV>::empty(),
    decreases s.len(),
{
    reveal(Seq::filter);
    if s.len() > 0 {
        lemma_filter_none(s.drop_last(), k);
    }
}

/// A copy of a recorded daemon.
pub(crate) fn copy_daemon(d: &TrackedDaemonPid) -> (r: TrackedDaemonPid)
    ensures
        daemon_view(r) == daemon_view(*d),
{
    TrackedDaemonPid {
        plugin_id: d.plugin_id.clone(),
        pid: d.pid,
        executable: match &d.executable {
            Some(e) => Some(e.clone()),
            None => None,
        },
    }
}

/// Whether two recorded daemons are the same record.
fn same_daemon(a: &TrackedDaemonPid, b: &TrackedDaemonPid) -> (r: bool)
    ensures
        r == (daemon_view(*a) == daemon_view(*b)),
{
    if !str_eq(a.plugin_id.as_str(), b.plugin_id.as_str()) || a.pid != b.pid {
        return false;
    }
    match (&a.executable, &b.executable) {
        (None, None) => true,
        (Some(x), Some(y)) => str_eq(x.as_str(), y.as_str()),
        _ => false,
    }
}

/// Whether `a` sorts strictly before `b`.
fn daemon_before(a: &TrackedDaemonPid, b: &TrackedDaemonPid) -> (r: bool)
    ensures
        r == key_before(daemon_view(*a), daemon_view(*b)),
{
    str_less(a.plugin_id.as_str(), b.plugin_id.as_str()) || (str_eq(a.plugin_id.as_str(), b.plugin_id.as_str())
        && a.pid < b.pid)
}

/// Inserts `x` after every daemon that does not sort after it.
fn insert_sorted(sorted: &mut Vec<TrackedDaemonPid>, x: TrackedDaemonPid)
    requires
        sorted_by_key(daemon_views(old(sorted)@)),
    ensures
        sorted_by_key(daemon_views(final(sorted)@)),
        forall|k: (Seq<char>, u32)| #[trigger] daemon_views(final(sorted)@).filter(has_key(k)) == (if has_key(k)(daemon_view(x)) {
            daemon_views(old(sorted)@).filter(has_key(k)).push(daemon_view(x))
        } else {
            daemon_views(old(sorted)@).filter(has_key(k))
        }),
{
    let ghost v = daemon_views(sorted@);
    let ghost xv = daemon_view(x);
    let mut p: usize = 0;
    while p < sorted.len() && !daemon_before(&x, &sorted[p])
        invariant
            p <= sorted@.len(),
            v == daemon_views(sorted@),
            xv == daemon_view(x),
            forall|j: int| 0 <= j < p ==> !key_before(xv, #[trigger] v[j]),
        decreases sorted.len() - p,
    {
        p += 1;
    }
    proof {
        assert forall|j: int| p <= j < v.len() implies key_before(xv, #[trigger] v[j]) by {
            if j > p {
                lemma_key_order(xv, v[p as int], v[j]);
            }
        }
    }
    sorted.insert(p, x);
    proof {
        let w = daemon_views(sorted@);
        assert(w =~= v.take(p as int) + seq![xv] + v.skip(p as int));
        assert forall|i: int, j: int| 0 <= i < j < w.len() implies !key_before(w[j], w[i]) by {
            if j < p {
                assert(w[i] == v[i] && w[j] == v[j]);
            } else if j == p {
                assert(w[i] == v[i]);
            } else if i < p {
                assert(w[i] == v[i] && w[j] == v[j - 1]);
            } else if i == p {
                assert(w[j] == v[j - 1]);
                lemma_key_order(xv, v[j - 1], xv);
            } else {
                assert(w[i] == v[i - 1] && w[j] == v[j - 1]);
            }
        }
        assert forall|k: (Seq<char>, u32)| #[trigger] w.filter(has_key(k)) == (if has_key(k)(xv) {
            v.filter(has_key(k)).push(xv)
        } else {
            v.filter(has_key(k))
        }) by {
            let a = v.take(p as int);
            let b = v.skip(p as int);
            assert(v =~= a + b);
            Seq::filter_distributes_over_add(a + seq![xv], b, has_key(k));
            Seq::filter_distributes_over_add(a, seq![xv], has_key(k));
            Seq::filter_distributes_over_add(a, b, has_key(k));
            lemma_filter_push(Seq::<DaemonV>::empty(), xv, k);
            assert(Seq::<DaemonV>::empty().push(xv) =~= seq![xv]);
            reveal(Seq::filter);
            if has_key(k)(xv) {
                assert forall|i: int| 0 <= i < b.len() implies !has_key(k)(#[trigger] b[i]) by {
                    assert(b[i] == v[p + i]);
                    assert(key_before(xv, v[p + i]));
                    lemma_key_order(xv, v[p + i], xv);
                }
                lemma_filter_none(b, k);
                assert(w.filter(has_key(k)) =~= a.filter(has_key(k)).push(xv));
                assert(v.filter(has_key(k)) =~= a.filter(has_key(k)));
            } else {
                assert(w.filter(has_key(k)) =~= a.filter(has_key(k)) + b.filter(has_key(k)));
            }
        }
    }
}

/// `all` sorted by plugin id and pid (stably), with each record equal to the
/// one before it dropped.
pub fn sort_dedup_daemons(all: &Vec<TrackedDaemonPid>) -> (r: Vec<TrackedDaemonPid>)
    ensures
        exists|s: Seq<DaemonV>| stable_sort_of(s, daemon_views(all@)) && daemon_views(r@) == dedup(s),
{
    let ghost av = daemon_views(all@);
    let mut sorted: Vec<TrackedDaemonPid> = Vec::new();
    let mut i: usize = 0;
    while i < all.len()
        invariant
            i <= all@.len(),
            av == daemon_views(all@),
            sorted_by_key(daemon_views(sorted@)),
            forall|k: (Seq<char>, u32)| #[trigger] daemon_views(sorted@).filter(has_key(k)) == av.take(i as int).filter(has_key(k)),
        decreases all.len() - i,
    {
        let x = copy_daemon(&all[i]);
        let ghost before = daemon_views(sorted@);
        insert_sorted(&mut sorted, x);
        proof {
            assert(av.take(i + 1) =~= av.take(i as int).push(av[i as int]));
            assert forall|k: (Seq<char>, u32)| #[trigger] daemon_views(sorted@).filter(has_key(k)) == av.take(i + 1).filter(has_key(k)) by {
                lemma_filter_push(av.take(i as int), av[i as int], k);
                assert(before.filter(has_key(k)) == av.take(i as int).filter(has_key(k)));
            }
        }
        i += 1;
    }
    assert(av.take(all@.len() as int) =~= av);
    let ghost sv = daemon_views(sorted@);
    let mut out: Vec<TrackedDaemonPid> = Vec::new();
    let mut j: usize = 0;
    while j < sorted.len()
        invariant
            j <= sorted@.len(),
            sv == daemon_views(sorted@),
            daemon_views(out@) == dedup(sv.take(j as int)),
        decreases sorted.len() - j,
    {
        let ghost before = daemon_views(out@);
        let keep = j == 0 || !same_daemon(&sorted[j], &sorted[j - 1]);
        if keep {
            out.push(copy_daemon(&sorted[j]));
            assert(daemon_views(out@) =~= before.push(sv[j as int]));
        }
        proof {
            let t = sv.take(j + 1);
            assert(t.drop_last() =~= sv.take(j as int));
            if j == 0 {
                assert(t =~= seq![sv[0]]);
                assert(sv.take(0) =~= Seq::<DaemonV>::empty());
            } else {
                assert(t[t.len() - 2] == sv[j - 1]);
            }
        }
        j += 1;
    }
    assert(sv.take(sorted@.len() as int) =~= sv);
    out
}

/// No element equals the one before it.
pub open spec fn no_adjacent_repeat(s: Seq<DaemonV>) -> bool {
    forall|i: int| 0 < i < s.len() ==> #[trigger] s[i] != s[i - 1]
}

proof fn lemma_filter_has(s: Seq<DaemonV>, k: (Seq<char>, u32), x: DaemonV)
    requires
        s.filter(has_key(k)).contains(x),
    ensures
        s.contains(x),
        has_key(k)(x),
{
    s.lemma_filter_contains_rev(has_key(k), x);
    let i = choose|i: int| 0 <= i < s.filter(has_key(k)).len() && s.filter(has_key(k))[i] == x;
    s.lemma_filter_pred(has_key(k), i);
}

/// Two sorted lists with the same daemons of each key are the same list.
proof fn lemma_sorted_filters_determine(r: Seq<DaemonV>, s: Seq<DaemonV>)
    requires
        sorted_by_key(r),
        sorted_by_key(s),
        forall|k: (Seq<char>, u32)| #[trigger] r.filter(has_key(k)) == s.filter(has_key(k)),
    ensures
        r == s,
    decreases r.len() + s.len(),
{
    reveal(Seq::filter);
    if r.len() == 0 && s.len() == 0 {
        assert(r =~= s);
        return;
    }
    if r.len() > 0 {
        let x = r.last();
        lemma_filter_push(r.drop_last(), x, (x.0, x.1));
        assert(r.drop_last().push(x) =~= r);
        assert(r.filter(has_key((x.0, x.1))).len() > 0);
        if s.len() == 0 {
            assert(s.filter(has_key((x.0, x.1))) =~= Seq::<DaemonV>::empty());
        }
    }
    if s.len() > 0 {
        let y = s.last();
        lemma_filter_push(s.drop_last(), y, (y.0, y.1));
        assert(s.drop_last().push(y) =~= s);
        assert(s.filter(has_key((y.0, y.1))).len() > 0);
        if r.len() == 0 {
            assert(r.filter(has_key((y.0, y.1))) =~= Seq::<DaemonV>::empty());
        }
    }
    let x = r.last();
    let y = s.last();
    let kx = (x.0, x.1);
    let ky = (y.0, y.1);
    let rp = r.drop_last();
    let sp = s.drop_last();
    assert(rp.push(x) =~= r);
    assert(sp.push(y) =~= s);
    // y occurs in r, so it is no later in key order than x; and the other way round.
    lemma_filter_push(sp, y, ky);
    assert(s.filter(has_key(ky)).contains(y)) by {
        assert(s.filter(has_key(ky)).last() == y);
    }
    lemma_filter_has(r, ky, y);
    let i = choose|i: int| 0 <= i < r.len() && r[i] == y;
    if i < r.len() - 1 {
        assert(!key_before(r[r.len() - 1], r[i]));
    }
    lemma_filter_push(rp, x, kx);
    assert(r.filter(has_key(kx)).contains(x)) by {
        assert(r.filter(has_key(kx)).last() == x);
    }
    lemma_filter_has(s, kx, x);
    let j = choose|j: int| 0 <= j < s.len() && s[j] == x;
    if j < s.len() - 1 {
        assert(!key_before(s[s.len() - 1], s[j]));
    }
    lemma_key_order(x, y, x);
    assert(kx == ky);
    assert(x == y) by {
        assert(r.filter(has_key(kx)).last() == x);
        assert(s.filter(has_key(kx)).last() == y);
    }
    assert forall|k: (Seq<char>, u32)| #[trigger] rp.filter(has_key(k)) == sp.filter(has_key(k)) by {
        lemma_filter_push(rp, x, k);
        lemma_filter_push(sp, y, k);
        assert(r.filter(has_key(k)) == s.filter(has_key(k)));
        if has_key(k)(x) {
            assert(rp.filter(has_key(k)) =~= r.filter(has_key(k)).drop_last());
            assert(sp.filter(has_key(k)) =~= s.filter(has_key(k)).drop_last());
        }
    }
    assert(sorted_by_key(rp)) by {
        assert forall|a: int, b: int| 0 <= a < b < rp.len() implies !key_before(rp[b], rp[a]) by {
            assert(rp[a] == r[a] && rp[b] == r[b]);
        }
    }
    assert(sorted_by_key(sp)) by {
        assert forall|a: int, b: int| 0 <= a < b < sp.len() implies !key_before(sp[b], sp[a]) by {
            assert(sp[a] == s[a] && sp[b] == s[b]);
        }
    }
    lemma_sorted_filters_determine(rp, sp);
}

/// What deduplicating keeps: a non-empty list keeps its last element, every
/// element kept comes from the list, and no element kept repeats the one
/// before it.
proof fn lemma_dedup_facts(s: Seq<DaemonV>)
    ensures
        s.len() > 0 ==> dedup(s).len() > 0 && dedup(s).last() == s.last(),
        forall|i: int| 0 <= i < dedup(s).len() ==> exists|j: int| 0 <= j < s.len() && s[j] == #[trigger] dedup(s)[i],
        no_adjacent_repeat(dedup(s)),
    decreases s.len(),
{
    if s.len() <= 1 {
        assert forall|i: int| 0 <= i < dedup(s).len() implies exists|j: int| 0 <= j < s.len() && s[j] == #[trigger] dedup(
            s,
        )[i] by {
            assert(s[i] == dedup(s)[i]);
        }
    } else {
        let p = s.drop_last();
        lemma_dedup_facts(p);
        let d = dedup(p);
        assert(p.last() == s[s.len() - 2]);
        assert forall|i: int| 0 <= i < dedup(s).len() implies exists|j: int| 0 <= j < s.len() && s[j] == #[trigger] dedup(
            s,
        )[i] by {
            if i < d.len() {
                let j = choose|j: int| 0 <= j < p.len() && p[j] == d[i];
                assert(s[j] == p[j]);
            } else {
                assert(s[s.len() - 1] == dedup(s)[i]);
            }
        }
        if s.last() != s[s.len() - 2] {
            assert forall|i: int| 0 < i < dedup(s).len() implies #[trigger] dedup(s)[i] != dedup(s)[i - 1] by {
                if i < d.len() {
                    assert(d[i] != d[i - 1]);
                }
            }
        }
    }
}

/// Deduplicating a sorted list keeps it sorted.
proof fn lemma_dedup_sorted(s: Seq<DaemonV>)
    requires
        sorted_by_key(s),
    ensures
        sorted_by_key(dedup(s)),
    decreases s.len(),
{
    if s.len() > 1 {
        let p = s.drop_last();
        assert(sorted_by_key(p)) by {
            assert forall|a: int, b: int| 0 <= a < b < p.len() implies !key_before(p[b], p[a]) by {
                assert(p[a] == s[a] && p[b] == s[b]);
            }
        }
        lemma_dedup_sorted(p);
        lemma_dedup_facts(p);
        let d = dedup(p);
        if s.last() != s[s.len() - 2] {
            let e = dedup(s);
            assert(e == d.push(s.last()));
            assert forall|a: int, b: int| 0 <= a < b < e.len() implies !key_before(e[b], e[a]) by {
                if b == e.len() - 1 {
                    let j = choose|j: int| 0 <= j < p.len() && p[j] == d[a];
                    assert(s[j] == e[a]);
                    assert(e[b] == s[s.len() - 1]);
                } else {
                    assert(e[a] == d[a] && e[b] == d[b]);
                }
            }
        }
    }
}

/// A list without adjacent repeats is its own deduplication.
proof fn lemma_dedup_identity(s: Seq<DaemonV>)
    requires
        no_adjacent_repeat(s),
    ensures
        dedup(s) == s,
    decreases s.len(),
{
    if s.len() > 1 {
        let p = s.drop_last();
        assert(no_adjacent_repeat(p)) by {
            assert forall|i: int| 0 < i < p.len() implies #[trigger] p[i] != p[i - 1] by {
                assert(p[i] == s[i] && p[i - 1] == s[i - 1]);
            }
        }
        lemma_dedup_identity(p);
        assert(s[s.len() - 1] != s[s.len() - 2]);
        assert(p.push(s.last()) =~= s);
    }
}

/// Sorting and deduplicating recorded daemons a second time changes nothing:
/// whatever a first pass over `all` gives, any second pass over its outcome
/// gives that outcome back.
pub proof fn lemma_sort_dedup_idempotent(all: Seq<DaemonV>, first: Seq<DaemonV>, again: Seq<DaemonV>)
    requires
        stable_sort_of(first, all),
        stable_sort_of(again, dedup(first)),
    ensures
        dedup(again) == dedup(first),
{
    let d = dedup(first);
    lemma_dedup_sorted(first);
    lemma_dedup_facts(first);
    lemma_sorted_filters_determine(again, d);
    lemma_dedup_identity(d);
}

/// Adds the daemons seen now to the recorded ones, then sorts and drops
/// repeated records (see `sort_dedup_daemons`).
pub fn merge_current_daemons(daemons: &mut Vec<TrackedDaemonPid>, current: Vec<TrackedDaemonPid>)
    ensures
        exists|s: Seq<DaemonV>| stable_sort_of(s, daemon_views(old(daemons)@) + daemon_views(current@))
            && daemon_views(final(daemons)@) == dedup(s),
{
    let mut current = current;
    let ghost a = daemon_views(daemons@);
    let ghost b = daemon_views(current@);
    daemons.append(&mut current);
    assert(daemon_views(daemons@) =~= a + b);
    let merged = sort_dedup_daemons(daemons);
    *daemons = merged;
}

} // verus!

verus! {

// ------------------------------------------------------------------ pid files

/// What one file of the pid directory records: a `<plugin>.pid` file whose
/// trimmed content is a `u32` names that plugin's daemon.
pub open spec fn pid_file_entry(name: Seq<char>, content: Seq<char>) -> Option<DaemonV> {
    match crate::dev_server::last_index_of(name, '.') {
        Some(dot) => if dot > 0 && name.skip(dot + 1) == "pid"@ {
            match parse_unsigned(trim(content), 0xffff_ffff) {
                Some(pid) => Some((name.take(dot), pid as u32, None)),
                None => None,
            }
        } else {
            None
        },
        None => None,
    }
}

/// The daemons that a run of pid files records, in order.
pub open spec fn pid_file_daemons(entries: Seq<(Seq<char>, Seq<char>)>) -> Seq<DaemonV>
    decreases entries.len(),
{
    if entries.len() == 0 {
        Seq::empty()
    } else {
        let rest = pid_file_daemons(entries.drop_last());
        match pid_file_entry(entries.last().0, entries.last().1) {
            Some(d) => rest.push(d),
            None => rest,
        }
    }
}

/// The plain values of the pid directory's files: name and content.
pub open spec fn entry_views(entries: Seq<(String, String)>) -> Seq<(Seq<char>, Seq<char>)> {
    entries.map_values(|e: (String, String)| (e.0@, e.1@))
}

fn parse_pid_file(name: &str, content: &str) -> (r: Option<TrackedDaemonPid>)
    ensures
        match pid_file_entry(name@, content@) {
            Some(d) => r matches Some(t) && daemon_view(t) == d,
            None => r is None,
        },
{
    let v = chars_of(name);
    match crate::dev_server::vec_rfind_char(&v, '.') {
        None => None,
        Some(dot) => {
            let ext = slice_chars(&v, dot + 1, v.len());
            assert(ext@ =~= name@.skip(dot + 1));
            if dot == 0 || !vec_eq(&ext, &chars_of("pid")) {
                return None;
            }
            let body = trimmed(&chars_of(content));
            match parse_unsigned_chars(&body, 0xffff_ffff) {
                None => None,
                Some(pid) => {
                    let id = string_of_range(&v, 0, dot);
                    assert(id@ =~= name@.take(dot as int));
                    Some(TrackedDaemonPid { plugin_id: id, pid: pid as u32, executable: None })
                },
            }
        },
    }
}

/// The daemons the pid directory records, from its files' names and contents:
/// sorted by plugin id and pid, repeats dropped.
pub fn tracked_pids_from_dir(entries: &Vec<(String, String)>) -> (r: Vec<TrackedDaemonPid>)
    ensures
        exists|s: Seq<DaemonV>| stable_sort_of(s, pid_file_daemons(entry_views(entries@))) && daemon_views(r@) == dedup(s),
{
    let ghost ev = entry_views(entries@);
    let mut found: Vec<TrackedDaemonPid> = Vec::new();
    let mut i: usize = 0;
    while i < entries.len()
        invariant
            i <= entries@.len(),
            ev == entry_views(entries@),
            daemon_views(found@) == pid_file_daemons(ev.take(i as int)),
        decreases entries.len() - i,
    {
        let ghost before = daemon_views(found@);
        let (name, content) = (&entries[i].0, &entries[i].1);
        let parsed = parse_pid_file(name.as_str(), content.as_str());
        proof {
            let t = ev.take(i + 1);
            assert(t.drop_last() =~= ev.take(i as int));
            assert(t.last() == (name@, content@));
        }
        match parsed {
            Some(d) => {
                found.push(d);
                assert(daemon_views(found@) =~= before.push(daemon_view(d)));
            },
            None => {},
        }
        i += 1;
    }
    assert(ev.take(entries@.len() as int) =~= ev);
    sort_dedup_daemons(&found)
}

} // verus!
