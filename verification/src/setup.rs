//! The inputs of an installed build: which path dependencies a package's
//! manifest names (directly or through the workspace), which files and
//! source trees the install depends on, and the newest of their times.
use toml::Value;
use vstd::prelude::*;
use crate::progress::opt_text;
use crate::text::{push_str, str_eq, to_owned_string, views};

verus! {

/// A `[dependencies]` entry as read from TOML: its name, its `path` key
/// (`None` when absent, `Some(None)` when present but not a string) and its
/// `workspace` key where it is a boolean.
pub type DependencyEntry = (String, Option<Option<String>>, Option<bool>);

/// A `[dependencies]` entry as plain values.
pub type DependencyEntryV = (Seq<char>, Option<Option<Seq<char>>>, Option<bool>);

/// A `[workspace.dependencies]` entry: its name and its `path` where that is a string.
pub type WorkspaceEntry = (String, Option<String>);

/// A `[workspace.dependencies]` entry as plain values.
pub type WorkspaceEntryV = (Seq<char>, Option<Seq<char>>);

/// What a manifest says of dependencies: its `[dependencies]` table and its
/// `[workspace.dependencies]` table, each where it is a table.
pub type Manifest = (Option<Vec<DependencyEntry>>, Option<Vec<WorkspaceEntry>>);

/// A manifest's dependency tables as plain values.
pub type ManifestV = (Option<Seq<DependencyEntryV>>, Option<Seq<WorkspaceEntryV>>);

pub open spec fn dependency_view(d: DependencyEntry) -> DependencyEntryV {
    (d.0@, match d.1 {
        Some(p) => Some(opt_text(p)),
        None => None,
    }, d.2)
}

pub open spec fn workspace_entry_view(w: WorkspaceEntry) -> WorkspaceEntryV {
    (w.0@, opt_text(w.1))
}

pub open spec fn manifest_view(m: Manifest) -> ManifestV {
    (match m.0 {
        Some(v) => Some(v@.map_values(|d: DependencyEntry| dependency_view(d))),
        None => None,
    }, match m.1 {
        Some(v) => Some(v@.map_values(|w: WorkspaceEntry| workspace_entry_view(w))),
        None => None,
    })
}

/// What the `toml` crate reads from a manifest's text: `None` when it is not
/// TOML, else its dependency tables.
pub uninterp spec fn manifest_of(text: Seq<char>) -> Option<ManifestV>;

/// Parses a manifest with `toml::from_str` into a `toml::Value` and picks,
/// with `Value::get`, `Value::as_table`, `Value::as_str` and
/// `Value::as_bool`, the entries of its `dependencies` table and of its
/// `workspace.dependencies` table, in the table's order. The contract names
/// the result and states nothing more of the TOML grammar.
#[verifier::external_body]
pub(crate) fn parse_manifest(text: &str) -> (r: Option<Manifest>)
    ensures
        match r {
            Some(m) => manifest_of(text@) == Some(manifest_view(m)),
            None => manifest_of(text@) is None,
        },
{
    let v: Value = toml::from_str(text).ok()?;
    let deps = v.get("dependencies").and_then(Value::as_table).map(|t| {
        t.iter().map(|(n, d)| (n.clone(), d.get("path").map(|p| p.as_str().map(String::from)), d.get("workspace").and_then(Value::as_bool))).collect()
    });
    let members = v.get("workspace").and_then(|w| w.get("dependencies")).and_then(Value::as_table);
    Some((deps, members.map(|t| t.iter().map(|(n, d)| (n.clone(), d.get("path").and_then(Value::as_str).map(String::from))).collect())))
}

/// The entry that `[workspace.dependencies]` holds under `name`: `None`
/// when there is none, else the path it gives, if any.
pub open spec fn workspace_path(ws: Seq<WorkspaceEntryV>, name: Seq<char>) -> Option<Option<Seq<char>>>
    decreases ws.len(),
{
    if ws.len() == 0 {
        None
    } else if ws[0].0 == name {
        Some(ws[0].1)
    } else {
        workspace_path(ws.drop_first(), name)
    }
}

/// Where a dependency's sources are, as a base directory and a path relative
/// to it: a `path` key is relative to the package; `workspace = true` takes
/// the path of the workspace entry of that name, relative to the root; any
/// other entry, and a path that is not a string, gives none.
pub open spec fn dependency_dir(
    d: DependencyEntryV,
    package: Seq<char>,
    root: Seq<char>,
    ws: Option<Seq<WorkspaceEntryV>>,
) -> Option<(Seq<char>, Seq<char>)> {
    match d.1 {
        Some(Some(p)) => Some((package, p)),
        Some(None) => None,
        None => if d.2 == Some(true) {
            match ws {
                Some(w) => match workspace_path(w, d.0) {
                    Some(Some(p)) => Some((root, p)),
                    _ => None,
                },
                None => None,
            }
        } else {
            None
        },
    }
}

/// The directories of the path dependencies, in the order of the entries.
pub open spec fn dependency_dirs(
    deps: Seq<DependencyEntryV>,
    package: Seq<char>,
    root: Seq<char>,
    ws: Option<Seq<WorkspaceEntryV>>,
) -> Seq<(Seq<char>, Seq<char>)>
    decreases deps.len(),
{
    if deps.len() == 0 {
        seq![]
    } else {
        let rest = dependency_dirs(deps.drop_last(), package, root, ws);
        match dependency_dir(deps.last(), package, root, ws) {
            Some(d) => rest.push(d),
            None => rest,
        }
    }
}

/// Pairs of strings as plain values.
pub open spec fn pairs_view(v: Seq<(String, String)>) -> Seq<(Seq<char>, Seq<char>)> {
    v.map_values(|p: (String, String)| (p.0@, p.1@))
}

fn copy_opt(o: &Option<String>) -> (r: Option<String>)
    ensures
        opt_text(r) == opt_text(*o),
{
    match o {
        Some(s) => Some(to_owned_string(s.as_str())),
        None => None,
    }
}

/// The entry of `[workspace.dependencies]` named `name` (see `workspace_path`).
pub fn find_workspace_path(ws: &Vec<WorkspaceEntry>, name: &str) -> (r: Option<Option<String>>)
    ensures
        match r {
            Some(p) => workspace_path(ws@.map_values(|w: WorkspaceEntry| workspace_entry_view(w)), name@)
                == Some(opt_text(p)),
            None => workspace_path(ws@.map_values(|w: WorkspaceEntry| workspace_entry_view(w)), name@) is None,
        },
{
    let ghost wv = ws@.map_values(|w: WorkspaceEntry| workspace_entry_view(w));
    let mut i: usize = 0;
    assert(wv.subrange(0, wv.len() as int) =~= wv);
    while i < ws.len()
        invariant
            i <= ws@.len(),
            wv == ws@.map_values(|w: WorkspaceEntry| workspace_entry_view(w)),
            workspace_path(wv, name@) == workspace_path(wv.subrange(i as int, wv.len() as int), name@),
        decreases ws@.len() - i,
    {
        let ghost rest = wv.subrange(i as int, wv.len() as int);
        assert(rest[0] == workspace_entry_view(ws@[i as int]));
        if str_eq(ws[i].0.as_str(), name) {
            return Some(copy_opt(&ws[i].1));
        }
        assert(rest.drop_first() =~= wv.subrange(i + 1, wv.len() as int));
        i += 1;
    }
    None
}

/// The directories of the path dependencies that `deps` names (see
/// `dependency_dirs`), each as a base directory and a path relative to it.
pub fn dependency_dirs_of(
    package: &str,
    root: &str,
    deps: &Vec<DependencyEntry>,
    ws: &Option<Vec<WorkspaceEntry>>,
) -> (r: Vec<(String, String)>)
    ensures
        pairs_view(r@) == dependency_dirs(
            deps@.map_values(|d: DependencyEntry| dependency_view(d)),
            package@,
            root@,
            match ws {
                Some(w) => Some(w@.map_values(|e: WorkspaceEntry| workspace_entry_view(e))),
                None => None,
            },
        ),
{
    let ghost dv = deps@.map_values(|d: DependencyEntry| dependency_view(d));
    let ghost wsv = match ws {
        Some(w) => Some(w@.map_values(|e: WorkspaceEntry| workspace_entry_view(e))),
        None => None,
    };
    let mut out: Vec<(String, String)> = Vec::new();
    let mut i: usize = 0;
    assert(pairs_view(out@) =~= Seq::<(Seq<char>, Seq<char>)>::empty());
    while i < deps.len()
        invariant
            i <= deps@.len(),
            dv == deps@.map_values(|d: DependencyEntry| dependency_view(d)),
            wsv == match ws {
                Some(w) => Some(w@.map_values(|e: WorkspaceEntry| workspace_entry_view(e))),
                None => None,
            },
            pairs_view(out@) == dependency_dirs(dv.take(i as int), package@, root@, wsv),
        decreases deps@.len() - i,
    {
        assert(dv.take(i + 1).drop_last() =~= dv.take(i as int));
        assert(dv.take(i + 1).last() == dependency_view(deps@[i as int]));
        let ghost before = pairs_view(out@);
        let entry = &deps[i];
        let found: Option<(String, String)> = match &entry.1 {
            Some(Some(p)) => Some((to_owned_string(package), to_owned_string(p.as_str()))),
            Some(None) => None,
            None => {
                if entry.2 == Some(true) {
                    match ws {
                        Some(w) => match find_workspace_path(w, entry.0.as_str()) {
                            Some(Some(p)) => Some((to_owned_string(root), p)),
                            _ => None,
                        },
                        None => None,
                    }
                } else {
                    None
                }
            },
        };
        match found {
            Some(d) => {
                let ghost dview = (d.0@, d.1@);
                out.push(d);
                assert(pairs_view(out@) =~= before.push(dview));
            },
            None => {},
        }
        i += 1;
    }
    assert(dv.take(dv.len() as int) =~= dv);
    out
}

/// The error for a manifest that is not TOML.
pub open spec fn parse_error(manifest: Seq<char>) -> Seq<char> {
    "failed to parse "@ + manifest
}

/// The path dependencies of a package, from what was read of its manifest
/// and of the workspace manifest: the package's manifest must be TOML, the
/// workspace manifest must have been read (else its read error) and be TOML;
/// then the directories of `dependency_dirs`, none where the package has no
/// `[dependencies]` table.
pub open spec fn path_dependencies(
    package: Seq<char>,
    package_manifest: Seq<char>,
    package_parsed: Option<ManifestV>,
    root: Seq<char>,
    root_manifest: Seq<char>,
    root_parsed: Result<Option<ManifestV>, Seq<char>>,
) -> Result<Seq<(Seq<char>, Seq<char>)>, Seq<char>> {
    match package_parsed {
        None => Err(parse_error(package_manifest)),
        Some(pm) => match root_parsed {
            Err(e) => Err(e),
            Ok(None) => Err(parse_error(root_manifest)),
            Ok(Some(rm)) => Ok(match pm.0 {
                Some(deps) => dependency_dirs(deps, package, root, rm.1),
                None => seq![],
            }),
        },
    }
}

/// The outcome as plain values.
pub open spec fn dirs_outcome_view(r: Result<Vec<(String, String)>, String>) -> Result<
    Seq<(Seq<char>, Seq<char>)>,
    Seq<char>,
> {
    match r {
        Ok(v) => Ok(pairs_view(v@)),
        Err(e) => Err(e@),
    }
}

fn error_for(manifest: &str) -> (r: String)
    ensures
        r@ == parse_error(manifest@),
{
    let mut r = to_owned_string("failed to parse ");
    proof {
        reveal_strlit("failed to parse ");
    }
    push_str(&mut r, manifest);
    r
}

/// The path dependencies of a package (see `path_dependencies`), given what
/// `parse_manifest` made of its manifest and, unless reading it failed, of
/// the workspace manifest.
pub fn path_dependencies_from(
    package: &str,
    package_manifest: &str,
    package_parsed: Option<Manifest>,
    root: &str,
    root_manifest: &str,
    root_parsed: Result<Option<Manifest>, String>,
) -> (r: Result<Vec<(String, String)>, String>)
    ensures
        dirs_outcome_view(r) == path_dependencies(
            package@,
            package_manifest@,
            match package_parsed {
                Some(m) => Some(manifest_view(m)),
                None => None,
            },
            root@,
            root_manifest@,
            match root_parsed {
                Ok(Some(m)) => Ok(Some(manifest_view(m))),
                Ok(None) => Ok(None),
                Err(e) => Err(e@),
            },
        ),
{
    let pm = match package_parsed {
        Some(m) => m,
        None => return Err(error_for(package_manifest)),
    };
    let rm = match root_parsed {
        Err(e) => return Err(e),
        Ok(None) => return Err(error_for(root_manifest)),
        Ok(Some(m)) => m,
    };
    match &pm.0 {
        Some(deps) => Ok(dependency_dirs_of(package, root, deps, &rm.1)),
        None => {
            let out: Vec<(String, String)> = Vec::new();
            assert(pairs_view(out@) =~= Seq::<(Seq<char>, Seq<char>)>::empty());
            Ok(out)
        },
    }
}

/// The path dependencies of a package (see `path_dependencies`), from the
/// text of its manifest and, unless reading it failed, of the workspace
/// manifest, both parsed with the `toml` crate.
pub fn workspace_path_dependencies(
    package: &str,
    package_manifest: &str,
    package_text: &str,
    root: &str,
    root_manifest: &str,
    root_text: Result<String, String>,
) -> (r: Result<Vec<(String, String)>, String>)
    ensures
        dirs_outcome_view(r) == path_dependencies(
            package@,
            package_manifest@,
            manifest_of(package_text@),
            root@,
            root_manifest@,
            match root_text {
                Ok(t) => Ok(manifest_of(t@)),
                Err(e) => Err(e@),
            },
        ),
{
    let package_parsed = parse_manifest(package_text);
    if package_parsed.is_none() {
        return Err(error_for(package_manifest));
    }
    let root_parsed = match root_text {
        Ok(t) => Ok(parse_manifest(t.as_str())),
        Err(e) => Err(e),
    };
    path_dependencies_from(package, package_manifest, package_parsed, root, root_manifest, root_parsed)
}

/// One input whose time counts: a file, or (`tree`) every file under a
/// directory, at the path made of `parts` joined in order.
pub struct SetupInput {
    pub tree: bool,
    pub parts: Vec<String>,
}

/// The inputs that the path dependencies add: each one's manifest and its
/// `src` tree.
pub open spec fn dependency_inputs(deps: Seq<(Seq<char>, Seq<char>)>) -> Seq<(bool, Seq<Seq<char>>)>
    decreases deps.len(),
{
    if deps.len() == 0 {
        seq![]
    } else {
        let d = deps.last();
        dependency_inputs(deps.drop_last()) + seq![
            (false, seq![d.0, d.1, "Cargo.toml"@]),
            (true, seq![d.0, d.1, "src"@]),
        ]
    }
}

/// The inputs of an installed build, in order: the package's manifest, the
/// workspace's lock file, the package's `src` tree, then those of each path
/// dependency.
pub open spec fn setup_inputs_spec(package: Seq<char>, root: Seq<char>, deps: Seq<(Seq<char>, Seq<char>)>) -> Seq<
    (bool, Seq<Seq<char>>),
> {
    seq![
        (false, seq![package, "Cargo.toml"@]),
        (false, seq![root, "Cargo.lock"@]),
        (true, seq![package, "src"@]),
    ] + dependency_inputs(deps)
}

pub open spec fn input_view(i: SetupInput) -> (bool, Seq<Seq<char>>) {
    (i.tree, views(i.parts@))
}

fn input_of(tree: bool, a: &str, b: &str, c: Option<&str>) -> (r: SetupInput)
    ensures
        input_view(r) == (tree, match c {
            Some(t) => seq![a@, b@, t@],
            None => seq![a@, b@],
        }),
{
    let mut parts: Vec<String> = Vec::new();
    parts.push(to_owned_string(a));
    parts.push(to_owned_string(b));
    match c {
        Some(t) => {
            parts.push(to_owned_string(t));
        },
        None => {},
    }
    let r = SetupInput { tree, parts };
    assert(views(r.parts@) =~= match c {
        Some(t) => seq![a@, b@, t@],
        None => seq![a@, b@],
    });
    r
}

/// The inputs of an installed build (see `setup_inputs_spec`).
pub fn setup_inputs(package: &str, root: &str, deps: &Vec<(String, String)>) -> (r: Vec<SetupInput>)
    ensures
        r@.map_values(|i: SetupInput| input_view(i)) == setup_inputs_spec(package@, root@, pairs_view(deps@)),
{
    proof {
        reveal_strlit("Cargo.toml");
        reveal_strlit("Cargo.lock");
        reveal_strlit("src");
    }
    let mut out: Vec<SetupInput> = Vec::new();
    out.push(input_of(false, package, "Cargo.toml", None));
    out.push(input_of(false, root, "Cargo.lock", None));
    out.push(input_of(true, package, "src", None));
    let ghost dv = pairs_view(deps@);
    let mut i: usize = 0;
    assert(dv.take(0) =~= Seq::<(Seq<char>, Seq<char>)>::empty());
    assert(out@.map_values(|i: SetupInput| input_view(i)) =~= setup_inputs_spec(package@, root@, dv.take(0)));
    while i < deps.len()
        invariant
            i <= deps@.len(),
            dv == pairs_view(deps@),
            out@.map_values(|i: SetupInput| input_view(i)) == setup_inputs_spec(package@, root@, dv.take(i as int)),
        decreases deps@.len() - i,
    {
        assert(dv.take(i + 1).drop_last() =~= dv.take(i as int));
        assert(dv.take(i + 1).last() == (deps@[i as int].0@, deps@[i as int].1@));
        let ghost before = out@.map_values(|i: SetupInput| input_view(i));
        let manifest = input_of(false, deps[i].0.as_str(), deps[i].1.as_str(), Some("Cargo.toml"));
        let sources = input_of(true, deps[i].0.as_str(), deps[i].1.as_str(), Some("src"));
        let ghost mv = input_view(manifest);
        let ghost sv = input_view(sources);
        out.push(manifest);
        out.push(sources);
        assert(out@.map_values(|i: SetupInput| input_view(i)) =~= before.push(mv).push(sv));
        assert(setup_inputs_spec(package@, root@, dv.take(i + 1)) =~= setup_inputs_spec(
            package@,
            root@,
            dv.take(i as int),
        ).push(mv).push(sv));
        i += 1;
    }
    assert(dv.take(dv.len() as int) =~= dv);
    out
}

/// The newest of some times, counted from the epoch: the epoch itself when
/// there are none.
pub open spec fn newest_of(times: Seq<u128>) -> nat
    decreases times.len(),
{
    if times.len() == 0 {
        0
    } else {
        let rest = newest_of(times.drop_last());
        if times.last() > rest {
            times.last() as nat
        } else {
            rest
        }
    }
}

proof fn lemma_newest_bounds(times: Seq<u128>)
    ensures
        forall|k: int| 0 <= k < times.len() ==> times[k] <= newest_of(times),
        newest_of(times) == 0 || exists|k: int| 0 <= k < times.len() && times[k] == newest_of(times),
    decreases times.len(),
{
    if times.len() > 0 {
        let init = times.drop_last();
        lemma_newest_bounds(init);
        assert forall|k: int| 0 <= k < times.len() implies times[k] <= newest_of(times) by {
            if k < times.len() - 1 {
                assert(times[k] == init[k]);
            }
        }
        if newest_of(times) != 0 {
            if times.last() > newest_of(init) {
                assert(times[times.len() - 1] == newest_of(times));
            } else {
                let k = choose|k: int| 0 <= k < init.len() && init[k] == newest_of(init);
                assert(times[k] == init[k]);
            }
        }
    }
}

/// The newest of the times of the setup inputs (see `newest_of`): no input
/// is newer, and it is the time of one of them unless it is the epoch.
pub fn newest_setup_input(times: &Vec<u128>) -> (r: u128)
    ensures
        r == newest_of(times@),
        forall|k: int| 0 <= k < times@.len() ==> times@[k] <= r,
        r == 0 || exists|k: int| 0 <= k < times@.len() && times@[k] == r,
{
    let mut newest: u128 = 0;
    let mut i: usize = 0;
    while i < times.len()
        invariant
            i <= times@.len(),
            newest == newest_of(times@.take(i as int)),
        decreases times@.len() - i,
    {
        assert(times@.take(i + 1).drop_last() =~= times@.take(i as int));
        if times[i] > newest {
            newest = times[i];
        }
        i += 1;
    }
    assert(times@.take(times@.len() as int) =~= times@);
    proof {
        lemma_newest_bounds(times@);
    }
    newest
}

} // verus!
