//! Where the dev tools live: which crate a name selects, the default
//! workspace record, and the paths of the installed and prebuilt binaries.
//! Paths are given as their components, joined by the caller.
use vstd::prelude::*;
use crate::text::{join, join_strings, push_str, str_eq, to_owned_string, views};

verus! {

/// A crate's display name answers to `query` as it is, or with a `plugin-`
/// or `qol-` prefix.
pub open spec fn name_matches(display: Seq<char>, query: Seq<char>) -> bool {
    display == query || display == "plugin-"@ + query || display == "qol-"@ + query
}

/// Whether a crate's display name answers to `query` (see `name_matches`).
pub fn crate_name_matches(display: &str, query: &str) -> (r: bool)
    ensures
        r == name_matches(display@, query@),
{
    let mut plugin = to_owned_string("plugin-");
    push_str(&mut plugin, query);
    let mut qol = to_owned_string("qol-");
    push_str(&mut qol, query);
    str_eq(display, query) || str_eq(display, plugin.as_str()) || str_eq(display, qol.as_str())
}

/// The candidates (path, display name) whose name answers to `query`, in order.
pub open spec fn matching_crates(cands: Seq<(Seq<char>, Seq<char>)>, query: Seq<char>) -> Seq<(Seq<char>, Seq<char>)>
    decreases cands.len(),
{
    if cands.len() == 0 {
        cands
    } else {
        let rest = matching_crates(cands.drop_last(), query);
        if name_matches(cands.last().1, query) {
            rest.push(cands.last())
        } else {
            rest
        }
    }
}

/// The crate a name selects among the candidates: the one that answers to
/// it, or why none or several do.
pub open spec fn crate_target_of(cands: Seq<(Seq<char>, Seq<char>)>, query: Seq<char>) -> Result<Seq<char>, Seq<char>> {
    let ms = matching_crates(cands, query);
    if ms.len() == 0 {
        Err("no qol-tray or sibling crate matching `"@ + query + "`"@)
    } else if ms.len() == 1 {
        Ok(ms[0].0)
    } else {
        Err("ambiguous `"@ + query + "` - matches: "@ + join(ms.map_values(|c: (Seq<char>, Seq<char>)| c.1), ", "@))
    }
}

/// The plain values of a candidate list.
pub open spec fn cands_view(v: Seq<(String, String)>) -> Seq<(Seq<char>, Seq<char>)> {
    v.map_values(|c: (String, String)| (c.0@, c.1@))
}

/// The crate a name selects (see `crate_target_of`); the candidates are the
/// workspace root named `qol-tray`, its sibling crates and its plugins.
pub fn resolve_crate_target(cands: &Vec<(String, String)>, query: &str) -> (r: Result<String, String>)
    ensures
        match r {
            Ok(p) => crate_target_of(cands_view(cands@), query@) == Ok::<Seq<char>, Seq<char>>(p@),
            Err(e) => crate_target_of(cands_view(cands@), query@) == Err::<Seq<char>, Seq<char>>(e@),
        },
{
    let ghost cv = cands_view(cands@);
    let mut paths: Vec<String> = Vec::new();
    let mut names: Vec<String> = Vec::new();
    let mut i: usize = 0;
    while i < cands.len()
        invariant
            i <= cands@.len(),
            cv == cands_view(cands@),
            paths@.len() == names@.len(),
            forall|k: int| 0 <= k < paths@.len() ==> (#[trigger] paths@[k])@ == matching_crates(cv.take(i as int), query@)[k].0,
            views(names@) == matching_crates(cv.take(i as int), query@).map_values(|c: (Seq<char>, Seq<char>)| c.1),
            matching_crates(cv.take(i as int), query@).len() == paths@.len(),
        decreases cands.len() - i,
    {
        proof {
            assert(cv.take(i + 1).drop_last() =~= cv.take(i as int));
            assert(cv.take(i + 1).last() == (cands@[i as int].0@, cands@[i as int].1@));
        }
        let ghost nb = views(names@);
        if crate_name_matches(cands[i].1.as_str(), query) {
            paths.push(cands[i].0.clone());
            names.push(cands[i].1.clone());
            assert(views(names@) =~= nb.push(cands@[i as int].1@));
            assert(matching_crates(cv.take(i + 1), query@).map_values(|c: (Seq<char>, Seq<char>)| c.1) =~= matching_crates(
                cv.take(i as int),
                query@,
            ).map_values(|c: (Seq<char>, Seq<char>)| c.1).push(cands@[i as int].1@));
        }
        i += 1;
    }
    assert(cv.take(cands@.len() as int) =~= cv);
    if paths.len() == 0 {
        let mut m = to_owned_string("no qol-tray or sibling crate matching `");
        push_str(&mut m, query);
        push_str(&mut m, "`");
        return Err(m);
    }
    if paths.len() == 1 {
        return Ok(paths[0].clone());
    }
    let mut m = to_owned_string("ambiguous `");
    push_str(&mut m, query);
    push_str(&mut m, "` - matches: ");
    let listed = join_strings(&names, ", ");
    push_str(&mut m, listed.as_str());
    Err(m)
}

/// The text that records `root` as the default workspace: the path and a newline.
pub fn default_workspace_record(root: &str) -> (r: String)
    ensures
        r@ == root@ + "\n"@,
{
    let mut r = to_owned_string(root);
    push_str(&mut r, "\n");
    r
}

/// `s` without the carriage returns and newlines that end it.
pub open spec fn without_line_ends(s: Seq<char>) -> Seq<char>
    decreases s.len(),
{
    if s.len() > 0 && (s.last() == '\n' || s.last() == '\r') {
        without_line_ends(s.drop_last())
    } else {
        s
    }
}

/// The workspace a default-workspace record names: the recorded text
/// without its line ends, which must not be empty.
pub fn default_workspace_value(content: &str) -> (r: Result<String, String>)
    ensures
        match r {
            Ok(p) => without_line_ends(content@).len() > 0 && p@ == without_line_ends(content@),
            Err(e) => without_line_ends(content@).len() == 0
                && e@ == "qol dev default workspace is empty; run `qol setup` from the qol workspace again"@,
        },
{
    let v = crate::text::chars_of(content);
    let mut end = v.len();
    assert(v@.take(end as int) =~= v@);
    while end > 0 && (v[end - 1] == '\n' || v[end - 1] == '\r')
        invariant
            end <= v@.len(),
            without_line_ends(content@) == without_line_ends(v@.take(end as int)),
            v@ == content@,
        decreases end,
    {
        assert(v@.take(end as int).drop_last() =~= v@.take(end - 1));
        end -= 1;
    }
    if end == 0 {
        return Err(to_owned_string("qol dev default workspace is empty; run `qol setup` from the qol workspace again"));
    }
    assert(v@.take(end as int).last() == v@[end - 1]);
    Ok(crate::text::string_of_range(&v, 0, end))
}

/// Where the default workspace is recorded, under the user's config directory.
pub fn default_workspace_path(config_dir: &str) -> (r: Vec<String>)
    ensures
        views(r@) == seq![config_dir@, "dev"@, "default-workspace.txt"@],
{
    let mut r: Vec<String> = Vec::new();
    r.push(to_owned_string(config_dir));
    r.push(to_owned_string("dev"));
    r.push(to_owned_string("default-workspace.txt"));
    assert(views(r@) =~= seq![config_dir@, "dev"@, "default-workspace.txt"@]);
    r
}

/// An executable's file name on the platforms the console runs on, Linux
/// and macOS: the name itself, with no suffix.
pub open spec fn exe_file_name(name: Seq<char>) -> Seq<char> {
    name
}

/// An executable's file name (see `exe_file_name`).
pub fn exe_name(name: &str) -> (r: String)
    ensures
        r@ == exe_file_name(name@),
{
    to_owned_string(name)
}

/// Where the prebuilt doctor binary is in a workspace.
pub fn doctor_binary_path(root: &str) -> (r: Vec<String>)
    ensures
        views(r@) == seq![root@, "target"@, "debug"@, exe_file_name("qol-tray-doctor"@)],
{
    let mut r: Vec<String> = Vec::new();
    r.push(to_owned_string(root));
    r.push(to_owned_string("target"));
    r.push(to_owned_string("debug"));
    r.push(exe_name("qol-tray-doctor"));
    assert(views(r@) =~= seq![root@, "target"@, "debug"@, exe_file_name("qol-tray-doctor"@)]);
    r
}

/// Cargo's home: `CARGO_HOME` when it is set, else `.cargo` in the home
/// directory; neither known is an error.
pub open spec fn cargo_home_of(cargo_home: Option<Seq<char>>, home: Option<Seq<char>>) -> Result<Seq<Seq<char>>, Seq<char>> {
    match cargo_home {
        Some(c) => Ok(seq![c]),
        None => match home {
            Some(h) => Ok(seq![h, ".cargo"@]),
            None => Err("CARGO_HOME is not set and no home directory was found"@),
        },
    }
}

/// Where `qol` is installed: `bin/qol` under cargo's home (see `cargo_home_of`).
pub fn installed_qol_path(cargo_home: Option<String>, home: Option<String>) -> (r: Result<Vec<String>, String>)
    ensures
        match r {
            Ok(p) => cargo_home_of(crate::sandbox_list::opt_view(cargo_home), crate::sandbox_list::opt_view(home))
                matches Ok(h) && views(p@) == h + seq!["bin"@, exe_file_name("qol"@)],
            Err(e) => cargo_home_of(crate::sandbox_list::opt_view(cargo_home), crate::sandbox_list::opt_view(home))
                == Err::<Seq<Seq<char>>, Seq<char>>(e@),
        },
{
    let mut r: Vec<String> = Vec::new();
    match cargo_home {
        Some(c) => r.push(c),
        None => match home {
            Some(h) => {
                r.push(h);
                r.push(to_owned_string(".cargo"));
            },
            None => return Err(to_owned_string("CARGO_HOME is not set and no home directory was found")),
        },
    }
    let ghost base = views(r@);
    r.push(to_owned_string("bin"));
    r.push(exe_name("qol"));
    assert(views(r@) =~= base + seq!["bin"@, exe_file_name("qol"@)]);
    Ok(r)
}


/// A recorded default workspace reads back as itself: recording a non-empty
/// path that does not end in a line break, then reading the record, gives
/// the path.
pub proof fn lemma_default_workspace_round_trip(root: Seq<char>)
    requires
        root.len() > 0,
        root.last() != '\n',
        root.last() != '\r',
    ensures
        without_line_ends(root + "\n"@) == root,
        without_line_ends(root + "\n"@).len() > 0,
{
    reveal_strlit("\n");
    let rec = root + "\n"@;
    assert(rec.last() == '\n');
    assert(rec.drop_last() =~= root);
    assert(without_line_ends(rec) == without_line_ends(rec.drop_last()));
    assert(without_line_ends(root) == root);
}


} // verus!
