//! Which image a verified image import takes for the selected sandboxes row:
//! a missing environment's associated image or its one exact qcow2
//! candidate, or the one missing environment that a selected candidate fits.
use vstd::prelude::*;
use crate::dev_server::{last_index_of, vec_rfind_char};
use crate::emu_panel::{is_regular_image, EmuState, PathInspection, ResolutionState};
use crate::text::{chars_of, join, join_strings, push_str, str_eq, str_less, str_lt, to_owned_string, views};

verus! {

/// A path part as plain values: its kind (0 a prefix, 1 the root, 2 `.`,
/// 3 `..`, 4 a name) and its text.
pub type PathPart = (u8, Seq<char>);

/// The parts of a path as std's `Path::components` yields them.
pub uninterp spec fn path_parts(path: Seq<char>) -> Seq<PathPart>;

/// The plain values of a list of parts.
pub open spec fn parts_view(v: Seq<(u8, String)>) -> Seq<PathPart> {
    v.map_values(|c: (u8, String)| (c.0, c.1@))
}

/// Splits a path with std's `Path::components`. Each part's kind is its
/// variant (prefix, root, `.`, `..`, name) and its text the part itself; the
/// contract names the result and states nothing more of std's parsing.
#[verifier::external_body]
pub(crate) fn components(path: &str) -> (r: Vec<(u8, String)>)
    ensures
        parts_view(r@) == path_parts(path@),
{
    std::path::Path::new(path).components().map(|c| {
        let kind = match c {
            std::path::Component::Prefix(_) => 0u8,
            std::path::Component::RootDir => 1u8,
            std::path::Component::CurDir => 2u8,
            std::path::Component::ParentDir => 3u8,
            std::path::Component::Normal(_) => 4u8,
        };
        (kind, c.as_os_str().to_string_lossy().into_owned())
    }).collect()
}

/// The last part of a path, when it is a name.
pub open spec fn file_name_of(parts: Seq<PathPart>) -> Option<Seq<char>> {
    if parts.len() > 0 && parts.last().0 == 4 {
        Some(parts.last().1)
    } else {
        None
    }
}

/// The extension of a file name: what follows its last `.`, unless that `.`
/// starts the name.
pub open spec fn extension_of(name: Seq<char>) -> Option<Seq<char>> {
    match last_index_of(name, '.') {
        Some(k) => if k > 0 {
            Some(name.subrange(k + 1, name.len() as int))
        } else {
            None
        },
        None => None,
    }
}

/// `qcow2`, in any ASCII case.
pub open spec fn is_qcow2_extension(e: Seq<char>) -> bool {
    &&& e.len() == 5
    &&& (e[0] == 'q' || e[0] == 'Q')
    &&& (e[1] == 'c' || e[1] == 'C')
    &&& (e[2] == 'o' || e[2] == 'O')
    &&& (e[3] == 'w' || e[3] == 'W')
    &&& e[4] == '2'
}

/// A path's file name when it names a qcow2 image.
pub open spec fn qcow2_name_of(path: Seq<char>) -> Option<Seq<char>> {
    match file_name_of(path_parts(path)) {
        Some(name) => if extension_of(name) matches Some(e) && is_qcow2_extension(e) {
            Some(name)
        } else {
            None
        },
        None => None,
    }
}

/// The file name of a path, when its last part is a name (see `file_name_of`).
pub fn file_name(path: &str) -> (r: Option<String>)
    ensures
        match r {
            Some(n) => file_name_of(path_parts(path@)) == Some(n@),
            None => file_name_of(path_parts(path@)) is None,
        },
{
    let parts = components(path);
    let n = parts.len();
    if n == 0 || parts[n - 1].0 != 4 {
        return None;
    }
    assert(parts_view(parts@)[n - 1] == (parts@[n - 1].0, parts@[n - 1].1@));
    Some(parts[n - 1].1.clone())
}

/// The file name of a qcow2 image path (see `qcow2_name_of`).
pub fn qcow2_name(path: &str) -> (r: Option<String>)
    ensures
        match r {
            Some(n) => qcow2_name_of(path@) == Some(n@),
            None => qcow2_name_of(path@) is None,
        },
{
    let parts = components(path);
    let n = parts.len();
    if n == 0 || parts[n - 1].0 != 4 {
        return None;
    }
    let name = chars_of(parts[n - 1].1.as_str());
    assert(name@ == path_parts(path@).last().1);
    match vec_rfind_char(&name, '.') {
        Some(k) => {
            if k == 0 {
                return None;
            }
            let len = name.len();
            if len - k - 1 != 5 {
                return None;
            }
            let q = name[k + 1] == 'q' || name[k + 1] == 'Q';
            let c = name[k + 2] == 'c' || name[k + 2] == 'C';
            let o = name[k + 3] == 'o' || name[k + 3] == 'O';
            let w = name[k + 4] == 'w' || name[k + 4] == 'W';
            let two = name[k + 5] == '2';
            let ghost e = name@.subrange(k + 1, len as int);
            assert(e[0] == name@[k + 1] && e[1] == name@[k + 2] && e[2] == name@[k + 3] && e[3] == name@[k + 4]
                && e[4] == name@[k + 5]);
            if q && c && o && w && two {
                Some(parts[n - 1].1.clone())
            } else {
                None
            }
        },
        None => None,
    }
}

/// Path `a` comes before path `b`: part by part, by kind and then by text.
pub open spec fn parts_before(a: Seq<PathPart>, b: Seq<PathPart>) -> bool
    decreases a.len(),
{
    if a.len() == 0 {
        b.len() > 0
    } else if b.len() == 0 {
        false
    } else if a[0].0 != b[0].0 {
        a[0].0 < b[0].0
    } else if a[0].1 != b[0].1 {
        str_lt(a[0].1, b[0].1)
    } else {
        parts_before(a.drop_first(), b.drop_first())
    }
}

/// Whether path `a` comes before path `b` (see `parts_before`).
pub fn path_before(a: &str, b: &str) -> (r: bool)
    ensures
        r == parts_before(path_parts(a@), path_parts(b@)),
{
    let x = components(a);
    let y = components(b);
    let ghost xv = parts_view(x@);
    let ghost yv = parts_view(y@);
    let mut i: usize = 0;
    assert(xv.skip(0) =~= xv && yv.skip(0) =~= yv);
    while i < x.len() && i < y.len()
        invariant
            i <= x@.len(),
            i <= y@.len(),
            xv == parts_view(x@),
            yv == parts_view(y@),
            parts_before(path_parts(a@), path_parts(b@)) == parts_before(xv.skip(i as int), yv.skip(i as int)),
        decreases x.len() - i,
    {
        assert(xv.skip(i as int)[0] == xv[i as int]);
        assert(yv.skip(i as int)[0] == yv[i as int]);
        if x[i].0 != y[i].0 {
            return x[i].0 < y[i].0;
        }
        if !crate::text::str_eq(x[i].1.as_str(), y[i].1.as_str()) {
            return str_less(x[i].1.as_str(), y[i].1.as_str());
        }
        assert(xv.skip(i as int).drop_first() =~= xv.skip(i + 1));
        assert(yv.skip(i as int).drop_first() =~= yv.skip(i + 1));
        i += 1;
    }
    assert(xv.skip(i as int).len() == xv.len() - i && yv.skip(i as int).len() == yv.len() - i);
    i == x.len() && i < y.len()
}

/// Whether two paths are the same path, part by part.
pub fn same_path(a: &str, b: &str) -> (r: bool)
    ensures
        r == (path_parts(a@) == path_parts(b@)),
{
    let x = components(a);
    let y = components(b);
    let ghost xv = parts_view(x@);
    let ghost yv = parts_view(y@);
    if x.len() != y.len() {
        assert(xv.len() != yv.len());
        return false;
    }
    let mut i: usize = 0;
    while i < x.len()
        invariant
            i <= x@.len(),
            x@.len() == y@.len(),
            xv == parts_view(x@),
            yv == parts_view(y@),
            xv == path_parts(a@),
            yv == path_parts(b@),

            forall|k: int| 0 <= k < i ==> xv[k] == yv[k],
        decreases x.len() - i,
    {
        if x[i].0 != y[i].0 || !crate::text::str_eq(x[i].1.as_str(), y[i].1.as_str()) {
            assert(xv[i as int] != yv[i as int]);
            return false;
        }
        i += 1;
    }
    assert(xv =~= yv);
    true
}

/// `x` inserted into `s` before the first element it comes before.
pub open spec fn insert_by<A>(s: Seq<A>, x: A, before: spec_fn(A, A) -> bool) -> Seq<A>
    decreases s.len(),
{
    if s.len() == 0 {
        seq![x]
    } else if before(x, s[0]) {
        seq![x] + s
    } else {
        seq![s[0]] + insert_by(s.drop_first(), x, before)
    }
}

/// `s` sorted by `before`, elements that neither precedes keeping their order.
pub open spec fn sort_by<A>(s: Seq<A>, before: spec_fn(A, A) -> bool) -> Seq<A>
    decreases s.len(),
{
    if s.len() == 0 {
        s
    } else {
        insert_by(sort_by(s.drop_last(), before), s.last(), before)
    }
}

proof fn lemma_insert_at<A>(s: Seq<A>, x: A, before: spec_fn(A, A) -> bool, j: int)
    requires
        0 <= j <= s.len(),
        forall|k: int| 0 <= k < j ==> !before(x, #[trigger] s[k]),
        j == s.len() || before(x, s[j]),
    ensures
        insert_by(s, x, before) == s.take(j) + seq![x] + s.skip(j),
    decreases j,
{
    if j == 0 {
        if s.len() == 0 {
            assert(s.take(0) + seq![x] + s.skip(0) =~= seq![x]);
        } else {
            assert(s.take(0) + seq![x] + s.skip(0) =~= seq![x] + s);
        }
    } else {
        let t = s.drop_first();
        assert(!before(x, s[0]));
        assert forall|k: int| 0 <= k < j - 1 implies !before(x, #[trigger] t[k]) by {
            assert(t[k] == s[k + 1]);
        }
        if j - 1 < t.len() {
            assert(t[j - 1] == s[j]);
        }
        lemma_insert_at(t, x, before, j - 1);
        assert(seq![s[0]] + (t.take(j - 1) + seq![x] + t.skip(j - 1)) =~= s.take(j) + seq![x] + s.skip(j));
    }
}

/// Paths sorted in path order.
pub open spec fn sort_paths(paths: Seq<Seq<char>>) -> Seq<Seq<char>> {
    sort_by(paths, |a: Seq<char>, b: Seq<char>| parts_before(path_parts(a), path_parts(b)))
}

/// Strings sorted in character order.
pub open spec fn sort_strings(s: Seq<Seq<char>>) -> Seq<Seq<char>> {
    sort_by(s, |a: Seq<char>, b: Seq<char>| str_lt(a, b))
}

/// Sorts paths in path order (see `sort_paths`).
pub fn sorted_paths(paths: &Vec<String>) -> (r: Vec<String>)
    ensures
        crate::text::views(r@) == sort_paths(crate::text::views(paths@)),
{
    let ghost before = |a: Seq<char>, b: Seq<char>| parts_before(path_parts(a), path_parts(b));
    let ghost pv = crate::text::views(paths@);
    let mut r: Vec<String> = Vec::new();
    let mut i: usize = 0;
    while i < paths.len()
        invariant
            i <= paths@.len(),
            pv == crate::text::views(paths@),
            before == (|a: Seq<char>, b: Seq<char>| parts_before(path_parts(a), path_parts(b))),
            crate::text::views(r@) == sort_by(pv.take(i as int), before),
        decreases paths.len() - i,
    {
        let x = &paths[i];
        let ghost rv = crate::text::views(r@);
        let mut j: usize = 0;
        while j < r.len() && !path_before(x.as_str(), r[j].as_str())
            invariant
                j <= r@.len(),
                rv == crate::text::views(r@),
                before == (|a: Seq<char>, b: Seq<char>| parts_before(path_parts(a), path_parts(b))),
                forall|k: int| 0 <= k < j ==> !before(x@, #[trigger] rv[k]),
            decreases r.len() - j,
        {
            j += 1;
        }
        proof {
            lemma_insert_at(rv, x@, before, j as int);
            assert(pv.take(i + 1).drop_last() =~= pv.take(i as int));
            assert(pv.take(i + 1).last() == x@);
        }
        r.insert(j, x.clone());
        assert(crate::text::views(r@) =~= rv.take(j as int) + seq![x@] + rv.skip(j as int));
        i += 1;
    }
    assert(pv.take(paths@.len() as int) =~= pv);
    r
}

/// Sorts strings in character order (see `sort_strings`).
pub fn sorted_strings(items: &Vec<String>) -> (r: Vec<String>)
    ensures
        crate::text::views(r@) == sort_strings(crate::text::views(items@)),
{
    let ghost before = |a: Seq<char>, b: Seq<char>| str_lt(a, b);
    let ghost pv = crate::text::views(items@);
    let mut r: Vec<String> = Vec::new();
    let mut i: usize = 0;
    while i < items.len()
        invariant
            i <= items@.len(),
            pv == crate::text::views(items@),
            before == (|a: Seq<char>, b: Seq<char>| str_lt(a, b)),
            crate::text::views(r@) == sort_by(pv.take(i as int), before),
        decreases items.len() - i,
    {
        let x = &items[i];
        let ghost rv = crate::text::views(r@);
        let mut j: usize = 0;
        while j < r.len() && !str_less(x.as_str(), r[j].as_str())
            invariant
                j <= r@.len(),
                rv == crate::text::views(r@),
                before == (|a: Seq<char>, b: Seq<char>| str_lt(a, b)),
                forall|k: int| 0 <= k < j ==> !before(x@, #[trigger] rv[k]),
            decreases r.len() - j,
        {
            j += 1;
        }
        proof {
            lemma_insert_at(rv, x@, before, j as int);
            assert(pv.take(i + 1).drop_last() =~= pv.take(i as int));
            assert(pv.take(i + 1).last() == x@);
        }
        r.insert(j, x.clone());
        assert(crate::text::views(r@) =~= rv.take(j as int) + seq![x@] + rv.skip(j as int));
        i += 1;
    }
    assert(pv.take(items@.len() as int) =~= pv);
    r
}

/// What the image mapping reads of one environment.
#[derive(Clone, Debug)]
pub struct EnvironmentImage {
    /// The environment's id.
    pub id: String,
    /// Whether it can run.
    pub state: ResolutionState,
    /// The kind of media it boots (`qcow2`, `iso`, ...).
    pub image_kind: String,
    /// The base image its definition declares.
    pub image_base: String,
    /// Where its image was resolved to, when it was.
    pub image_path: Option<String>,
}

/// A disk image found on the machine.
#[derive(Clone, Debug)]
pub struct ImageCandidate {
    /// The candidate's id.
    pub id: String,
    /// Its path.
    pub path: String,
}

/// What a verified import is started with.
#[derive(Clone, Debug, PartialEq, Eq)]
pub struct ImageImportTarget {
    /// The environment the image is verified for.
    pub environment_id: String,
    /// Its row on the sandboxes page.
    pub environment_index: usize,
    /// The candidate the image is, when it is one.
    pub candidate_id: Option<String>,
    /// The image to verify.
    pub source: String,
}

/// An environment as plain values: id, state, kind, base, resolved path.
pub type EnvV = (Seq<char>, ResolutionState, Seq<char>, Seq<char>, Option<Seq<char>>);

/// The plain values of an environment.
pub open spec fn env_view(e: EnvironmentImage) -> EnvV {
    (e.id@, e.state, e.image_kind@, e.image_base@, match e.image_path {
        Some(p) => Some(p@),
        None => None,
    })
}

/// The plain values of a list of environments.
pub open spec fn envs_view(s: Seq<EnvironmentImage>) -> Seq<EnvV> {
    s.map_values(|e: EnvironmentImage| env_view(e))
}

/// The plain values of a list of candidates: id and path.
pub open spec fn cands_view(s: Seq<ImageCandidate>) -> Seq<(Seq<char>, Seq<char>)> {
    s.map_values(|c: ImageCandidate| (c.id@, c.path@))
}

/// A target as plain values: environment id, row, candidate id, source.
pub type TargetV = (Seq<char>, int, Option<Seq<char>>, Seq<char>);

/// The plain values of a target.
pub open spec fn target_view(t: ImageImportTarget) -> TargetV {
    (t.environment_id@, t.environment_index as int, match t.candidate_id {
        Some(c) => Some(c@),
        None => None,
    }, t.source@)
}

/// The plain values of a result.
pub open spec fn result_view(r: Result<ImageImportTarget, String>) -> Result<TargetV, Seq<char>> {
    match r {
        Ok(t) => Ok(target_view(t)),
        Err(e) => Err(e@),
    }
}

/// How a state is named in messages.
pub open spec fn state_name(st: ResolutionState) -> Seq<char> {
    match st {
        ResolutionState::Ready => "ready"@,
        ResolutionState::Missing => "missing"@,
        ResolutionState::Unsupported => "unsupported"@,
    }
}

pub(crate) fn state_str(st: ResolutionState) -> (r: &'static str)
    ensures
        r@ == state_name(st),
{
    match st {
        ResolutionState::Ready => "ready",
        ResolutionState::Missing => "missing",
        ResolutionState::Unsupported => "unsupported",
    }
}

/// The qcow2 file name an environment expects: it must boot qcow2 media and
/// declare a qcow2 base image.
pub open spec fn expected_name_of(e: EnvV) -> Result<Seq<char>, Seq<char>> {
    if e.2 != "qcow2"@ {
        Err(e.0 + " expects "@ + e.2 + " media, not qcow2"@)
    } else {
        match qcow2_name_of(e.3) {
            Some(n) => Ok(n),
            None => Err(e.0 + " does not declare an exact qcow2 filename"@),
        }
    }
}

/// The qcow2 file name an environment expects (see `expected_name_of`).
pub fn expected_qcow2_name(e: &EnvironmentImage) -> (r: Result<String, String>)
    ensures
        match r {
            Ok(n) => expected_name_of(env_view(*e)) == Ok::<Seq<char>, Seq<char>>(n@),
            Err(m) => expected_name_of(env_view(*e)) == Err::<Seq<char>, Seq<char>>(m@),
        },
{
    proof {
        reveal_strlit("qcow2");
    }
    if !str_eq(e.image_kind.as_str(), "qcow2") {
        let mut m = e.id.clone();
        push_str(&mut m, " expects ");
        push_str(&mut m, e.image_kind.as_str());
        push_str(&mut m, " media, not qcow2");
        return Err(m);
    }
    match qcow2_name(e.image_base.as_str()) {
        Some(n) => Ok(n),
        None => {
            let mut m = e.id.clone();
            push_str(&mut m, " does not declare an exact qcow2 filename");
            Err(m)
        },
    }
}

/// The candidates whose file name is `name`, in order.
pub open spec fn named_candidates(cs: Seq<(Seq<char>, Seq<char>)>, name: Seq<char>) -> Seq<(Seq<char>, Seq<char>)>
    decreases cs.len(),
{
    if cs.len() == 0 {
        cs
    } else {
        let rest = named_candidates(cs.drop_last(), name);
        if qcow2_name_of(cs.last().1) == Some(name) {
            rest.push(cs.last())
        } else {
            rest
        }
    }
}

/// The first candidate at the same path as `path`.
pub open spec fn candidate_at(cs: Seq<(Seq<char>, Seq<char>)>, path: Seq<char>) -> Option<Seq<char>>
    decreases cs.len(),
{
    if cs.len() == 0 {
        None
    } else if path_parts(cs[0].1) == path_parts(path) {
        Some(cs[0].0)
    } else {
        candidate_at(cs.drop_first(), path)
    }
}

/// The target for a selected environment: it must be missing and boot qcow2
/// media; an associated image that is a regular file is taken as it is (with
/// the candidate at its path, if any), else the one candidate whose file name
/// is the expected qcow2 name. `inspection` is what inspecting the associated
/// image's path found.
pub open spec fn for_environment_of(
    e: EnvV,
    index: int,
    cs: Seq<(Seq<char>, Seq<char>)>,
    inspection: PathInspection,
) -> Result<TargetV, Seq<char>> {
    if e.1 != ResolutionState::Missing {
        Err(e.0 + " is "@ + state_name(e.1) + " · image verification requires a missing environment"@)
    } else if e.2 != "qcow2"@ {
        Err(e.0 + " expects "@ + e.2 + " media, not qcow2"@)
    } else if e.4 is Some && inspection is Failed {
        Err("failed to inspect associated image "@ + e.4->0 + ": "@ + inspection->Failed_0@)
    } else if e.4 is Some && inspection matches PathInspection::Found { regular_file: true } {
        Ok((e.0, index, candidate_at(cs, e.4->0), e.4->0))
    } else {
        match expected_name_of(e) {
            Err(m) => Err(m),
            Ok(name) => {
                let ms = named_candidates(cs, name);
                if ms.len() == 0 {
                    Err("no qcow2 candidate exactly matches "@ + e.3)
                } else if ms.len() > 1 {
                    Err("multiple qcow2 candidates match "@ + e.3 + ": "@ + join(
                        sort_paths(ms.map_values(|c: (Seq<char>, Seq<char>)| c.1)),
                        ", "@,
                    ))
                } else {
                    Ok((e.0, index, Some(ms[0].0), ms[0].1))
                }
            },
        }
    }
}

fn find_candidate_at(cs: &[ImageCandidate], path: &str) -> (r: Option<String>)
    ensures
        match r {
            Some(id) => candidate_at(cands_view(cs@), path@) == Some(id@),
            None => candidate_at(cands_view(cs@), path@) is None,
        },
{
    let ghost cv = cands_view(cs@);
    let mut i: usize = 0;
    assert(cv.skip(0) =~= cv);
    while i < cs.len()
        invariant
            i <= cs@.len(),
            cv == cands_view(cs@),
            candidate_at(cv, path@) == candidate_at(cv.skip(i as int), path@),
        decreases cs.len() - i,
    {
        assert(cv.skip(i as int)[0] == (cs@[i as int].id@, cs@[i as int].path@));
        if same_path(cs[i].path.as_str(), path) {
            return Some(cs[i].id.clone());
        }
        assert(cv.skip(i as int).drop_first() =~= cv.skip(i + 1));
        i += 1;
    }
    None
}

fn collect_named(cs: &[ImageCandidate], name: &String) -> (r: Vec<ImageCandidate>)
    ensures
        cands_view(r@) == named_candidates(cands_view(cs@), name@),
{
    let ghost cv = cands_view(cs@);
    let mut r: Vec<ImageCandidate> = Vec::new();
    let mut i: usize = 0;
    while i < cs.len()
        invariant
            i <= cs@.len(),
            cv == cands_view(cs@),
            cands_view(r@) == named_candidates(cv.take(i as int), name@),
        decreases cs.len() - i,
    {
        proof {
            assert(cv.take(i + 1).drop_last() =~= cv.take(i as int));
            assert(cv.take(i + 1).last() == (cs@[i as int].id@, cs@[i as int].path@));
        }
        let ghost before = cands_view(r@);
        let found = qcow2_name(cs[i].path.as_str());
        let hit = match &found {
            Some(n) => str_eq(n.as_str(), name.as_str()),
            None => false,
        };
        if hit {
            r.push(ImageCandidate { id: cs[i].id.clone(), path: cs[i].path.clone() });
            assert(cands_view(r@) =~= before.push((cs@[i as int].id@, cs@[i as int].path@)));
        }
        i += 1;
    }
    assert(cv.take(cs@.len() as int) =~= cv);
    r
}

fn candidate_paths(cs: &Vec<ImageCandidate>) -> (r: Vec<String>)
    ensures
        views(r@) == cands_view(cs@).map_values(|c: (Seq<char>, Seq<char>)| c.1),
{
    let mut r: Vec<String> = Vec::new();
    let mut i: usize = 0;
    while i < cs.len()
        invariant
            i <= cs@.len(),
            views(r@) == cands_view(cs@).take(i as int).map_values(|c: (Seq<char>, Seq<char>)| c.1),
        decreases cs.len() - i,
    {
        let ghost before = views(r@);
        r.push(cs[i].path.clone());
        assert(views(r@) =~= before.push(cs@[i as int].path@));
        assert(cands_view(cs@).take(i + 1) =~= cands_view(cs@).take(i as int).push(cands_view(cs@)[i as int]));
        assert(views(r@) =~= cands_view(cs@).take(i + 1).map_values(|c: (Seq<char>, Seq<char>)| c.1));
        i += 1;
    }
    assert(cands_view(cs@).take(cs@.len() as int) =~= cands_view(cs@));
    r
}

/// The target for a selected environment (see `for_environment_of`).
pub fn image_import_target_for_environment(
    e: &EnvironmentImage,
    index: usize,
    cs: &[ImageCandidate],
    inspection: PathInspection,
) -> (r: Result<ImageImportTarget, String>)
    ensures
        result_view(r) == for_environment_of(env_view(*e), index as int, cands_view(cs@), inspection),
{
    proof {
        reveal_strlit("qcow2");
    }
    if e.state != ResolutionState::Missing {
        let mut m = e.id.clone();
        push_str(&mut m, " is ");
        push_str(&mut m, state_str(e.state));
        push_str(&mut m, " · image verification requires a missing environment");
        return Err(m);
    }
    if !str_eq(e.image_kind.as_str(), "qcow2") {
        let mut m = e.id.clone();
        push_str(&mut m, " expects ");
        push_str(&mut m, e.image_kind.as_str());
        push_str(&mut m, " media, not qcow2");
        return Err(m);
    }
    if let Some(source) = &e.image_path {
        match is_regular_image(source.as_str(), inspection) {
            Err(m) => return Err(m),
            Ok(true) => {
                return Ok(ImageImportTarget {
                    environment_id: e.id.clone(),
                    environment_index: index,
                    candidate_id: find_candidate_at(cs, source.as_str()),
                    source: source.clone(),
                });
            },
            Ok(false) => {},
        }
    }
    let name = match expected_qcow2_name(e) {
        Ok(n) => n,
        Err(m) => return Err(m),
    };
    let ms = collect_named(cs, &name);
    if ms.len() == 0 {
        let mut m = to_owned_string("no qcow2 candidate exactly matches ");
        push_str(&mut m, e.image_base.as_str());
        return Err(m);
    }
    if ms.len() > 1 {
        let paths = sorted_paths(&candidate_paths(&ms));
        let mut m = to_owned_string("multiple qcow2 candidates match ");
        push_str(&mut m, e.image_base.as_str());
        push_str(&mut m, ": ");
        let listed = join_strings(&paths, ", ");
        push_str(&mut m, listed.as_str());
        return Err(m);
    }
    assert(cands_view(ms@)[0] == (ms@[0].id@, ms@[0].path@));
    Ok(ImageImportTarget {
        environment_id: e.id.clone(),
        environment_index: index,
        candidate_id: Some(ms[0].id.clone()),
        source: ms[0].path.clone(),
    })
}

/// The rows of the missing environments that expect the qcow2 file `name`, in order.
pub open spec fn missing_expecting(es: Seq<EnvV>, name: Seq<char>) -> Seq<int>
    decreases es.len(),
{
    if es.len() == 0 {
        Seq::empty()
    } else {
        let rest = missing_expecting(es.drop_last(), name);
        let e = es.last();
        if e.1 == ResolutionState::Missing && expected_name_of(e) == Ok::<Seq<char>, Seq<char>>(name) {
            rest.push(es.len() - 1)
        } else {
            rest
        }
    }
}

/// The target for a selected candidate: it must be a qcow2 image, and exactly
/// one missing environment must expect its file name.
pub open spec fn for_candidate_of(c: (Seq<char>, Seq<char>), es: Seq<EnvV>) -> Result<TargetV, Seq<char>> {
    match qcow2_name_of(c.1) {
        None => Err(c.1 + " is not an exact qcow2 image candidate"@),
        Some(name) => {
            let ms = missing_expecting(es, name);
            if ms.len() == 0 {
                Err("no missing environment exactly expects "@ + c.1)
            } else if ms.len() > 1 {
                Err(c.1 + " matches multiple missing environments: "@ + join(
                    sort_strings(ms.map_values(|k: int| es[k].0)),
                    ", "@,
                ))
            } else {
                Ok((es[ms[0]].0, ms[0], Some(c.0), c.1))
            }
        },
    }
}

/// The target for a selected candidate (see `for_candidate_of`).
pub fn image_import_target_for_candidate(c: &ImageCandidate, es: &[EnvironmentImage]) -> (r: Result<
    ImageImportTarget,
    String,
>)
    ensures
        result_view(r) == for_candidate_of((c.id@, c.path@), envs_view(es@)),
{
    let ghost ev = envs_view(es@);
    let name = match qcow2_name(c.path.as_str()) {
        Some(n) => n,
        None => {
            let mut m = c.path.clone();
            push_str(&mut m, " is not an exact qcow2 image candidate");
            return Err(m);
        },
    };
    let mut rows: Vec<usize> = Vec::new();
    let mut ids: Vec<String> = Vec::new();
    let mut i: usize = 0;
    while i < es.len()
        invariant
            i <= es@.len(),
            ev == envs_view(es@),
            rows@.map_values(|k: usize| k as int) == missing_expecting(ev.take(i as int), name@),
            views(ids@) == missing_expecting(ev.take(i as int), name@).map_values(|k: int| ev[k].0),
            forall|k: int| 0 <= k < rows@.len() ==> rows@[k] < i,
        decreases es.len() - i,
    {
        proof {
            assert(ev.take(i + 1).drop_last() =~= ev.take(i as int));
            assert(ev.take(i + 1).last() == env_view(es@[i as int]));
        }
        let ghost rb = rows@.map_values(|k: usize| k as int);
        let ghost ib = views(ids@);
        let hit = if es[i].state == ResolutionState::Missing {
            match expected_qcow2_name(&es[i]) {
                Ok(n) => str_eq(n.as_str(), name.as_str()),
                Err(_) => false,
            }
        } else {
            false
        };
        if hit {
            rows.push(i);
            ids.push(es[i].id.clone());
            assert(rows@.map_values(|k: usize| k as int) =~= rb.push(i as int));
            assert(views(ids@) =~= ib.push(ev[i as int].0));
            assert(missing_expecting(ev.take(i + 1), name@) == missing_expecting(ev.take(i as int), name@).push(
                i as int,
            ));
            assert(missing_expecting(ev.take(i + 1), name@).map_values(|k: int| ev[k].0) =~= missing_expecting(
                ev.take(i as int),
                name@,
            ).map_values(|k: int| ev[k].0).push(ev[i as int].0));
        }
        i += 1;
    }
    assert(ev.take(es@.len() as int) =~= ev);
    if rows.len() == 0 {
        let mut m = to_owned_string("no missing environment exactly expects ");
        push_str(&mut m, c.path.as_str());
        return Err(m);
    }
    if rows.len() > 1 {
        let sorted = sorted_strings(&ids);
        let mut m = c.path.clone();
        push_str(&mut m, " matches multiple missing environments: ");
        let listed = join_strings(&sorted, ", ");
        push_str(&mut m, listed.as_str());
        return Err(m);
    }
    let k = rows[0];
    assert(rows@.map_values(|k: usize| k as int)[0] == k as int);
    Ok(ImageImportTarget {
        environment_id: es[k].id.clone(),
        environment_index: k,
        candidate_id: Some(c.id.clone()),
        source: c.path.clone(),
    })
}

/// The target for the selected row of the sandboxes page: an environment row,
/// else a candidate row after them, else none.
pub open spec fn selected_target_of(
    es: Seq<EnvV>,
    cs: Seq<(Seq<char>, Seq<char>)>,
    cursor: int,
    inspection: PathInspection,
) -> Result<TargetV, Seq<char>> {
    if cursor < es.len() {
        for_environment_of(es[cursor], cursor, cs, inspection)
    } else if cursor - es.len() < cs.len() {
        for_candidate_of(cs[cursor - es.len()], es)
    } else {
        Err("select a missing environment or qcow2 candidate"@)
    }
}

/// The target for the selected row (see `selected_target_of`); `inspection`
/// is what inspecting the selected environment's associated image found.
pub fn selected_image_import_target(
    es: &[EnvironmentImage],
    cs: &[ImageCandidate],
    cursor: usize,
    inspection: PathInspection,
) -> (r: Result<ImageImportTarget, String>)
    ensures
        result_view(r) == selected_target_of(envs_view(es@), cands_view(cs@), cursor as int, inspection),
{
    if cursor < es.len() {
        return image_import_target_for_environment(&es[cursor], cursor, cs, inspection);
    }
    let k = cursor - es.len();
    if k < cs.len() {
        return image_import_target_for_candidate(&cs[k], es);
    }
    Err(to_owned_string("select a missing environment or qcow2 candidate"))
}

/// The target for a verified import as the sandboxes page asks for it: none
/// while the inventory is being read or could not be read, else the
/// selected row's (see `selected_target_of`).
pub open spec fn import_request_of(
    state: EmuState,
    es: Seq<EnvV>,
    cs: Seq<(Seq<char>, Seq<char>)>,
    cursor: int,
    inspection: PathInspection,
) -> Result<TargetV, Seq<char>> {
    match state {
        EmuState::Probing => Err("sandbox inventory is still scanning"@),
        EmuState::Failed(e) => Err("sandbox inventory unavailable: "@ + e@),
        EmuState::Done(_) => selected_target_of(es, cs, cursor, inspection),
    }
}

/// The target for a verified import (see `import_request_of`); `es` and `cs`
/// are the environments and candidates of the inventory that `state` holds.
pub fn image_import_request(
    state: &EmuState,
    es: &[EnvironmentImage],
    cs: &[ImageCandidate],
    cursor: usize,
    inspection: PathInspection,
) -> (r: Result<ImageImportTarget, String>)
    ensures
        result_view(r) == import_request_of(*state, envs_view(es@), cands_view(cs@), cursor as int, inspection),
{
    match state {
        EmuState::Probing => Err(to_owned_string("sandbox inventory is still scanning")),
        EmuState::Failed(e) => {
            let mut m = to_owned_string("sandbox inventory unavailable: ");
            push_str(&mut m, e.as_str());
            Err(m)
        },
        EmuState::Done(_) => selected_image_import_target(es, cs, cursor, inspection),
    }
}

/// Why an import cannot start now: the environment, or the candidate it
/// takes, already has a run, or the environment has live lanes.
pub open spec fn import_conflict_of(env_id: Seq<char>, run_active: bool, lanes_live: bool) -> Option<Seq<char>> {
    if run_active {
        Some(env_id + " already has an active sandbox run"@)
    } else if lanes_live {
        Some(env_id + " already has active sandbox lanes"@)
    } else {
        None
    }
}

/// Why an import cannot start now (see `import_conflict_of`): `env_running`
/// and `candidate_running` say whether the target's environment and
/// candidate have a live run, `lanes_live` whether the environment has live
/// lanes.
pub fn image_import_conflict(target: &ImageImportTarget, env_running: bool, candidate_running: bool, lanes_live: bool) -> (r:
    Option<String>)
    ensures
        match r {
            Some(m) => import_conflict_of(target.environment_id@, env_running || candidate_running, lanes_live) == Some(
                m@,
            ),
            None => import_conflict_of(target.environment_id@, env_running || candidate_running, lanes_live) is None,
        },
{
    if env_running || candidate_running {
        let mut m = target.environment_id.clone();
        push_str(&mut m, " already has an active sandbox run");
        return Some(m);
    }
    if lanes_live {
        let mut m = target.environment_id.clone();
        push_str(&mut m, " already has active sandbox lanes");
        return Some(m);
    }
    None
}

/// The notice after an import was asked to start: what is verified for which
/// environment, or why it could not start.
pub fn image_import_notice(target: &ImageImportTarget, started: &Result<(), String>) -> (r: String)
    ensures
        r@ == match started {
            Ok(_) => "verifying "@ + target.source@ + " for "@ + target.environment_id@,
            Err(e) => "image verification failed to start: "@ + e@ + " · → opens error log"@,
        },
{
    match started {
        Ok(_) => {
            let mut m = to_owned_string("verifying ");
            push_str(&mut m, target.source.as_str());
            push_str(&mut m, " for ");
            push_str(&mut m, target.environment_id.as_str());
            m
        },
        Err(e) => {
            let mut m = to_owned_string("image verification failed to start: ");
            push_str(&mut m, e.as_str());
            push_str(&mut m, " · → opens error log");
            m
        },
    }
}

} // verus!
