//! The trace stream's options and the file of its pretty snapshot.
use vstd::prelude::*;
use crate::dev_server::{last_index_of, vec_rfind_char};
use crate::image_import::{components, file_name_of, parts_view, path_parts, PathPart};
use crate::text::{chars_of, push_str, string_of, string_of_range, to_owned_string, views};

verus! {

/// The trace tool's arguments: no header, then either the full details or
/// the relaxed stream without ghosts and opacity changes.
pub fn trace_args(details: bool) -> (r: Vec<&'static str>)
    ensures
        details ==> r@.len() == 2 && r@[0]@ == "--no-header"@ && r@[1]@ == "--details"@,
        !details ==> r@.len() == 3 && r@[0]@ == "--no-header"@ && r@[1]@ == "--no-ghosts"@ && r@[2]@
            == "--no-opacity"@,
{
    let mut args: Vec<&'static str> = Vec::new();
    args.push("--no-header");
    if details {
        args.push("--details");
    } else {
        args.push("--no-ghosts");
        args.push("--no-opacity");
    }
    args
}

/// The parts of a path's parent: all but the last part, unless the path is
/// empty or ends in its root or a prefix (std's `Path::parent`, by parts).
pub open spec fn parent_parts(parts: Seq<PathPart>) -> Option<Seq<PathPart>> {
    if parts.len() == 0 || parts.last().0 == 0 || parts.last().0 == 1 {
        None
    } else {
        Some(parts.drop_last())
    }
}

/// A file name's stem: the name before its last `.`, unless that `.` starts
/// the name or there is none (std's `Path::file_stem`).
pub open spec fn stem_of(name: Seq<char>) -> Seq<char> {
    match last_index_of(name, '.') {
        Some(k) => if k > 0 { name.subrange(0, k) } else { name },
        None => name,
    }
}

/// The path of a trace log's pretty snapshot, by parts: the log's parent
/// (`.` when it has none), then the log's stem (`trace` when it has no
/// non-empty one) followed by `.pretty.log`.
pub open spec fn pretty_trace_parts(file: Seq<char>) -> Seq<Seq<char>> {
    let parts = path_parts(file);
    let folder = match parent_parts(parts) {
        Some(p) => p.map_values(|c: PathPart| c.1),
        None => seq!["."@],
    };
    let stem = match file_name_of(parts) {
        Some(n) => if stem_of(n).len() > 0 { stem_of(n) } else { "trace"@ },
        None => "trace"@,
    };
    folder.push(stem + ".pretty.log"@)
}

/// The path of a trace log's pretty snapshot beside the log, as the parts
/// to join (see `pretty_trace_parts`).
pub fn pretty_trace_file(file: &str) -> (r: Vec<String>)
    ensures
        views(r@) == pretty_trace_parts(file@),
{
    let parts = components(file);
    let ghost pv = parts_view(parts@);
    let n = parts.len();
    let mut r: Vec<String> = Vec::new();
    if n == 0 || parts[n - 1].0 == 0 || parts[n - 1].0 == 1 {
        r.push(to_owned_string("."));
        assert(views(r@) =~= seq!["."@]);
    } else {
        let mut i: usize = 0;
        while i < n - 1
            invariant
                i <= n - 1,
                n == parts@.len(),
                pv == parts_view(parts@),
                views(r@) == pv.take(i as int).map_values(|c: PathPart| c.1),
            decreases n - 1 - i,
        {
            let ghost before = views(r@);
            let t = parts[i].1.clone();
            assert(pv[i as int].1 == parts@[i as int].1@);
            assert(t@ == pv[i as int].1);
            r.push(t);
            assert(views(r@) =~= before.push(t@));
            assert(views(r@) =~= pv.take(i + 1).map_values(|c: PathPart| c.1));
            i += 1;
        }
        assert(pv.take((n - 1) as int) =~= pv.drop_last());
    }
    let ghost folder = views(r@);
    let mut name = if n > 0 && parts[n - 1].0 == 4 {
        let cs = chars_of(parts[n - 1].1.as_str());
        assert(cs@ == pv.last().1);
        let stem = match vec_rfind_char(&cs, '.') {
            Some(k) => if k > 0 { string_of_range(&cs, 0, k) } else { string_of(&cs) },
            None => string_of(&cs),
        };
        if stem.as_str().is_empty() { to_owned_string("trace") } else { stem }
    } else {
        to_owned_string("trace")
    };
    push_str(&mut name, ".pretty.log");
    r.push(name);
    assert(views(r@) =~= pretty_trace_parts(file@));
    r
}

} // verus!
