//! The dev server's HTTP surface as the console uses it: endpoint URLs, the
//! merged plugin list, and the small parsers of its replies.
use vstd::prelude::*;
use crate::text::{
    chars_of, dec, first_index_of, lemma_str_lt_total, lemma_str_lt_transitive, push_char, push_str,
    slice_chars, str_eq, str_less, str_lt, string_of, string_of_range, to_owned_string, trim,
    trimmed, u64_to_string, vec_eq, vec_find, vec_find_char, vec_starts_with, occurs_at, contains,
    starts_with, parse_unsigned, parse_unsigned_chars, lines, lines_of, first_token, token_at,
    CharClass, vviews, after_first_token,
};

verus! {

// ------------------------------------------------------------------ URLs

/// `base` followed by `path`.
pub fn api_url(base: &str, path: &str) -> (r: String)
    ensures
        r@ == base@ + path@,
{
    let mut r = to_owned_string(base);
    push_str(&mut r, path);
    r
}

/// The website's root.
pub fn web_health_url(base: &str) -> (r: String)
    ensures
        r@ == base@ + "/"@,
{
    api_url(base, "/")
}

/// The dev API's liveness endpoint.
pub fn dev_health_url(base: &str) -> (r: String)
    ensures
        r@ == base@ + "/api/dev/enabled"@,
{
    api_url(base, "/api/dev/enabled")
}

/// The endpoint that rebuilds the tray.
pub fn dev_recompile_url(base: &str) -> (r: String)
    ensures
        r@ == base@ + "/api/dev/recompile-self"@,
{
    api_url(base, "/api/dev/recompile-self")
}

/// The endpoint that reloads plugins.
pub fn dev_reload_url(base: &str) -> (r: String)
    ensures
        r@ == base@ + "/api/dev/reload"@,
{
    api_url(base, "/api/dev/reload")
}

/// The endpoint of dev-linked plugins.
pub fn dev_links_url(base: &str) -> (r: String)
    ensures
        r@ == base@ + "/api/dev/links"@,
{
    api_url(base, "/api/dev/links")
}

/// The endpoint of plugin discovery.
pub fn dev_discovery_url(base: &str) -> (r: String)
    ensures
        r@ == base@ + "/api/dev/discovery-state"@,
{
    api_url(base, "/api/dev/discovery-state")
}

/// The endpoint of plugin daemon health.
pub fn plugin_health_url(base: &str) -> (r: String)
    ensures
        r@ == base@ + "/api/dev/plugin-health"@,
{
    api_url(base, "/api/dev/plugin-health")
}

/// The endpoint of the GitHub auth service.
pub fn auth_health_url(base: &str) -> (r: String)
    ensures
        r@ == base@ + "/api/auth/health"@,
{
    api_url(base, "/api/auth/health")
}

/// The endpoint of the log service.
pub fn logs_health_url(base: &str) -> (r: String)
    ensures
        r@ == base@ + "/api/logs/entries"@,
{
    api_url(base, "/api/logs/entries")
}

/// The URL of one dev link, for removing it.
pub fn dev_link_url(base: &str, id: &str) -> (r: String)
    ensures
        r@ == base@ + "/api/dev/links"@ + "/"@ + id@,
{
    let mut r = dev_links_url(base);
    push_str(&mut r, "/");
    push_str(&mut r, id);
    r
}

// ------------------------------------------------------------------ plugins

/// A dev-linked plugin as the server lists it.
#[derive(Clone, PartialEq, Eq, Debug)]
pub struct DevLink {
    /// The plugin id.
    pub id: String,
    /// The display name.
    pub name: String,
    /// The linked version.
    pub version: String,
    /// The linked source directory (empty when unknown).
    pub source: String,
    /// The link is stale.
    pub needs_rebuild: bool,
    /// Why it is stale.
    pub rebuild_reason: String,
}

/// A plugin that discovery found in the workspace.
#[derive(Clone, PartialEq, Eq, Debug)]
pub struct DiscoveredPlugin {
    /// The plugin id.
    pub id: String,
    /// The display name.
    pub name: String,
    /// Its directory (empty when unknown).
    pub path: String,
}

/// One row of the plugins page.
#[derive(Clone, PartialEq, Eq, Debug)]
pub struct WorkspacePlugin {
    /// The plugin id.
    pub id: String,
    /// The display name.
    pub name: String,
    /// The linked version (empty when not linked).
    pub version: String,
    /// Its source directory.
    pub path: String,
    /// The plugin is dev-linked.
    pub linked: bool,
    /// The link is stale.
    pub needs_rebuild: bool,
    /// Why it is stale.
    pub rebuild_reason: String,
}

/// A plugin row as plain values: id, name, version, path, linked, needs_rebuild, reason.
pub type RowV = (Seq<char>, Seq<char>, Seq<char>, Seq<char>, bool, bool, Seq<char>);

/// The plain values of a row.
pub open spec fn row_view(p: WorkspacePlugin) -> RowV {
    (p.id@, p.name@, p.version@, p.path@, p.linked, p.needs_rebuild, p.rebuild_reason@)
}

/// The rows after discovery: one per id, the last discovered entry of an id winning.
pub open spec fn after_discovered(ds: Seq<DiscoveredPlugin>) -> Map<Seq<char>, RowV>
    decreases ds.len(),
{
    if ds.len() == 0 {
        Map::empty()
    } else {
        let d = ds.last();
        after_discovered(ds.drop_last()).insert(d.id@, (d.id@, d.name@, seq![], d.path@, false, false, seq![]))
    }
}

/// `m` after applying one dev link: an existing row becomes linked and takes
/// the link's version, staleness and (when known) source; an unknown id gets a
/// new linked row.
pub open spec fn apply_link(m: Map<Seq<char>, RowV>, l: DevLink) -> Map<Seq<char>, RowV> {
    if m.contains_key(l.id@) {
        let e = m[l.id@];
        m.insert(l.id@, (e.0, e.1, l.version@, if l.source@.len() > 0 { l.source@ } else { e.3 }, true, l.needs_rebuild, l.rebuild_reason@))
    } else {
        m.insert(l.id@, (l.id@, l.name@, l.version@, l.source@, true, l.needs_rebuild, l.rebuild_reason@))
    }
}

/// `m` after applying the links in order.
pub open spec fn after_links(m: Map<Seq<char>, RowV>, ls: Seq<DevLink>) -> Map<Seq<char>, RowV>
    decreases ls.len(),
{
    if ls.len() == 0 {
        m
    } else {
        apply_link(after_links(m, ls.drop_last()), ls.last())
    }
}

/// The plugin rows by id: discovery first, then the dev links over it.
pub open spec fn merged_rows(links: Seq<DevLink>, discovered: Seq<DiscoveredPlugin>) -> Map<Seq<char>, RowV> {
    after_links(after_discovered(discovered), links)
}

/// Rows sort by name, then by id.
pub open spec fn row_lt(a: RowV, b: RowV) -> bool {
    str_lt(a.1, b.1) || (a.1 == b.1 && str_lt(a.0, b.0))
}

proof fn lemma_row_lt_total(a: RowV, b: RowV)
    requires
        a.0 != b.0,
    ensures
        row_lt(a, b) || row_lt(b, a),
        !(row_lt(a, b) && row_lt(b, a)),
{
    lemma_str_lt_total(a.1, b.1);
    lemma_str_lt_total(a.0, b.0);
}

proof fn lemma_row_lt_transitive(a: RowV, b: RowV, c: RowV)
    requires
        row_lt(a, b),
        row_lt(b, c),
    ensures
        row_lt(a, c),
{
    lemma_str_lt_total(a.1, b.1);
    lemma_str_lt_total(b.1, c.1);
    if str_lt(a.1, b.1) && str_lt(b.1, c.1) {
        lemma_str_lt_transitive(a.1, b.1, c.1);
    } else if str_lt(a.0, b.0) && str_lt(b.0, c.0) {
        lemma_str_lt_transitive(a.0, b.0, c.0);
    }
}

/// `rows` holds exactly the rows of `m`, one per id, each as `m` has it.
pub open spec fn rows_match(rows: Seq<WorkspacePlugin>, m: Map<Seq<char>, RowV>) -> bool {
    &&& forall|i: int, j: int| 0 <= i < j < rows.len() ==> rows[i].id@ != rows[j].id@
    &&& forall|i: int| 0 <= i < rows.len() ==> m.contains_key(#[trigger] rows[i].id@) && m[rows[i].id@] == row_view(rows[i])
    &&& forall|k: Seq<char>| #[trigger] m.contains_key(k) ==> exists|i: int| 0 <= i < rows.len() && rows[i].id@ == k
    &&& forall|k: Seq<char>| #[trigger] m.contains_key(k) ==> m[k].0 == k
}

/// `rows` are the rows of `m`, each once, sorted by name and then id.
pub open spec fn lists_rows(rows: Seq<WorkspacePlugin>, m: Map<Seq<char>, RowV>) -> bool {
    &&& forall|i: int| 0 <= i < rows.len() ==> m.contains_key(#[trigger] rows[i].id@) && m[rows[i].id@] == row_view(rows[i])
    &&& forall|k: Seq<char>| #[trigger] m.contains_key(k) ==> exists|i: int| 0 <= i < rows.len() && rows[i].id@ == k
    &&& forall|i: int, j: int| 0 <= i < j < rows.len() ==> row_lt(row_view(rows[i]), row_view(rows[j]))
}

/// The row whose id is `id`, if any.
fn find_row(rows: &Vec<WorkspacePlugin>, id: &String) -> (r: Option<usize>)
    ensures
        r matches Some(p) ==> p < rows@.len() && rows@[p as int].id@ == id@,
        r is None ==> forall|i: int| 0 <= i < rows@.len() ==> rows@[i].id@ != id@,
{
    let mut i: usize = 0;
    while i < rows.len()
        invariant
            i <= rows@.len(),
            forall|k: int| 0 <= k < i ==> rows@[k].id@ != id@,
        decreases rows.len() - i,
    {
        if str_eq(rows[i].id.as_str(), id.as_str()) {
            return Some(i);
        }
        i += 1;
    }
    None
}

/// The plugins page: every discovered plugin and every dev link, one row per
/// id, sorted by name and then id. A link marks its row linked and brings its
/// version and staleness, and its source when it has one; the last discovered
/// path of an id wins.
pub fn merge_workspace_plugins(links: &[DevLink], discovered: &[DiscoveredPlugin]) -> (r: Vec<WorkspacePlugin>)
    ensures
        lists_rows(r@, merged_rows(links@, discovered@)),
{
    let mut rows: Vec<WorkspacePlugin> = Vec::new();
    let mut i: usize = 0;
    while i < discovered.len()
        invariant
            i <= discovered@.len(),
            rows_match(rows@, after_discovered(discovered@.take(i as int))),
        decreases discovered.len() - i,
    {
        let d = &discovered[i];
        let entry = WorkspacePlugin {
            id: d.id.clone(),
            name: d.name.clone(),
            version: String::new(),
            path: d.path.clone(),
            linked: false,
            needs_rebuild: false,
            rebuild_reason: String::new(),
        };
        let ghost m0 = after_discovered(discovered@.take(i as int));
        let ghost m1 = after_discovered(discovered@.take(i + 1));
        assert(discovered@.take(i + 1).drop_last() =~= discovered@.take(i as int));
        assert(m1 == m0.insert(d.id@, row_view(entry)));
        let ghost before = rows@;
        match find_row(&rows, &d.id) {
            Some(p) => {
                rows.set(p, entry);
                proof {
                    assert forall|k: Seq<char>| #[trigger] m1.contains_key(k) implies exists|q: int| 0 <= q < rows@.len() && rows@[q].id@ == k by {
                        if k != d.id@ {
                            let q = choose|q: int| 0 <= q < before.len() && before[q].id@ == k;
                            assert(rows@[q].id@ == k);
                        } else {
                            assert(rows@[p as int].id@ == k);
                        }
                    }
                }
            },
            None => {
                rows.push(entry);
                proof {
                    assert forall|k: Seq<char>| #[trigger] m1.contains_key(k) implies exists|q: int| 0 <= q < rows@.len() && rows@[q].id@ == k by {
                        if k != d.id@ {
                            let q = choose|q: int| 0 <= q < before.len() && before[q].id@ == k;
                            assert(rows@[q].id@ == k);
                        } else {
                            assert(rows@[before.len() as int].id@ == k);
                        }
                    }
                }
            },
        }
        i += 1;
    }
    assert(discovered@.take(discovered@.len() as int) =~= discovered@);
    let mut j: usize = 0;
    while j < links.len()
        invariant
            j <= links@.len(),
            rows_match(rows@, after_links(after_discovered(discovered@), links@.take(j as int))),
        decreases links.len() - j,
    {
        let l = &links[j];
        let ghost m0 = after_links(after_discovered(discovered@), links@.take(j as int));
        assert(links@.take(j + 1).drop_last() =~= links@.take(j as int));
        let ghost m1 = after_links(after_discovered(discovered@), links@.take(j + 1));
        assert(m1 == apply_link(m0, *l));
        let ghost before = rows@;
        match find_row(&rows, &l.id) {
            Some(p) => {
                let path = if chars_of(l.source.as_str()).len() > 0 { l.source.clone() } else { rows[p].path.clone() };
                let entry = WorkspacePlugin {
                    id: rows[p].id.clone(),
                    name: rows[p].name.clone(),
                    version: l.version.clone(),
                    path,
                    linked: true,
                    needs_rebuild: l.needs_rebuild,
                    rebuild_reason: l.rebuild_reason.clone(),
                };
                assert(m0.contains_key(l.id@));
                assert(row_view(entry) == m1[l.id@]);
                rows.set(p, entry);
                proof {
                    assert forall|k: Seq<char>| #[trigger] m1.contains_key(k) implies exists|q: int| 0 <= q < rows@.len() && rows@[q].id@ == k by {
                        let q = choose|q: int| 0 <= q < before.len() && before[q].id@ == k;
                        assert(rows@[q].id@ == k);
                    }
                }
            },
            None => {
                let entry = WorkspacePlugin {
                    id: l.id.clone(),
                    name: l.name.clone(),
                    version: l.version.clone(),
                    path: l.source.clone(),
                    linked: true,
                    needs_rebuild: l.needs_rebuild,
                    rebuild_reason: l.rebuild_reason.clone(),
                };
                assert(!m0.contains_key(l.id@)) by {
                    if m0.contains_key(l.id@) {
                        let q = choose|q: int| 0 <= q < before.len() && before[q].id@ == l.id@;
                    }
                }
                rows.push(entry);
                proof {
                    assert forall|k: Seq<char>| #[trigger] m1.contains_key(k) implies exists|q: int| 0 <= q < rows@.len() && rows@[q].id@ == k by {
                        if k != l.id@ {
                            let q = choose|q: int| 0 <= q < before.len() && before[q].id@ == k;
                            assert(rows@[q].id@ == k);
                        } else {
                            assert(rows@[before.len() as int].id@ == k);
                        }
                    }
                }
            },
        }
        j += 1;
    }
    assert(links@.take(links@.len() as int) =~= links@);
    let ghost m = merged_rows(links@, discovered@);
    // Insertion sort by (name, id).
    let mut out: Vec<WorkspacePlugin> = Vec::new();
    while rows.len() > 0
        invariant
            forall|a: int, b: int| 0 <= a < b < rows@.len() ==> rows@[a].id@ != rows@[b].id@,
            forall|a: int| 0 <= a < rows@.len() ==> m.contains_key(#[trigger] rows@[a].id@) && m[rows@[a].id@] == row_view(rows@[a]),
            forall|a: int| 0 <= a < out@.len() ==> m.contains_key(#[trigger] out@[a].id@) && m[out@[a].id@] == row_view(out@[a]),
            forall|a: int, b: int| 0 <= a < rows@.len() && 0 <= b < out@.len() ==> rows@[a].id@ != out@[b].id@,
            forall|a: int, b: int| 0 <= a < b < out@.len() ==> row_lt(row_view(out@[a]), row_view(out@[b])),
            forall|k: Seq<char>| #[trigger] m.contains_key(k) ==> (exists|a: int| 0 <= a < rows@.len() && rows@[a].id@ == k)
                || (exists|a: int| 0 <= a < out@.len() && out@[a].id@ == k),
        decreases rows@.len(),
    {
        let ghost rows_before = rows@;
        let e = rows.pop().unwrap();
        let mut p: usize = 0;
        while p < out.len() && !less_row(&e, &out[p])
            invariant
                p <= out@.len(),
                forall|a: int| 0 <= a < p ==> !row_lt(row_view(e), row_view(out@[a])),
            decreases out.len() - p,
        {
            p += 1;
        }
        let ghost out_before = out@;
        proof {
            assert forall|a: int| 0 <= a < p implies row_lt(row_view(out_before[a]), row_view(e)) by {
                assert(rows_before[rows_before.len() - 1] == e);
                lemma_row_lt_total(row_view(out_before[a]), row_view(e));
            }
            assert forall|a: int| p <= a < out_before.len() implies row_lt(row_view(e), row_view(out_before[a])) by {
                if a > p {
                    lemma_row_lt_transitive(row_view(e), row_view(out_before[p as int]), row_view(out_before[a]));
                }
            }
        }
        out.insert(p, e);
        proof {
            assert(rows_before[rows_before.len() - 1] == e);
            assert(rows@ =~= rows_before.drop_last());
            assert forall|a: int, b: int| 0 <= a < b < out@.len() implies row_lt(row_view(out@[a]), row_view(out@[b])) by {
                if b < p {
                    assert(out@[a] == out_before[a] && out@[b] == out_before[b]);
                } else if b == p {
                    assert(out@[a] == out_before[a]);
                } else if a < p {
                    assert(out@[a] == out_before[a] && out@[b] == out_before[b - 1]);
                    assert(row_lt(row_view(out_before[a]), row_view(e)));
                    lemma_row_lt_transitive(row_view(out_before[a]), row_view(e), row_view(out_before[b - 1]));
                } else if a == p {
                    assert(out@[b] == out_before[b - 1]);
                } else {
                    assert(out@[a] == out_before[a - 1] && out@[b] == out_before[b - 1]);
                }
            }
            assert forall|a: int| 0 <= a < out@.len() implies m.contains_key(#[trigger] out@[a].id@) && m[out@[a].id@] == row_view(out@[a]) by {
                if a < p {
                    assert(out@[a] == out_before[a]);
                } else if a > p {
                    assert(out@[a] == out_before[a - 1]);
                }
            }
            assert forall|x: int, y: int| 0 <= x < rows@.len() && 0 <= y < out@.len() implies rows@[x].id@ != out@[y].id@ by {
                assert(rows@[x] == rows_before[x]);
                if y < p {
                    assert(out@[y] == out_before[y]);
                } else if y > p {
                    assert(out@[y] == out_before[y - 1]);
                } else {
                    assert(rows_before[x].id@ != rows_before[rows_before.len() - 1].id@);
                }
            }
            assert forall|k: Seq<char>| #[trigger] m.contains_key(k) implies (exists|a: int| 0 <= a < rows@.len() && rows@[a].id@ == k)
                || (exists|a: int| 0 <= a < out@.len() && out@[a].id@ == k) by {
                if exists|a: int| 0 <= a < rows_before.len() && rows_before[a].id@ == k {
                    let a = choose|a: int| 0 <= a < rows_before.len() && rows_before[a].id@ == k;
                    if a == rows_before.len() - 1 {
                        assert(out@[p as int].id@ == k);
                    } else {
                        assert(rows@[a].id@ == k);
                    }
                } else {
                    let a = choose|a: int| 0 <= a < out_before.len() && out_before[a].id@ == k;
                    if a < p {
                        assert(out@[a].id@ == k);
                    } else {
                        assert(out@[a + 1].id@ == k);
                    }
                }
            }
        }
    }
    out
}

/// Whether row `a` sorts before row `b`.
fn less_row(a: &WorkspacePlugin, b: &WorkspacePlugin) -> (r: bool)
    ensures
        r == row_lt(row_view(*a), row_view(*b)),
{
    if str_less(a.name.as_str(), b.name.as_str()) {
        return true;
    }
    str_eq(a.name.as_str(), b.name.as_str()) && str_less(a.id.as_str(), b.id.as_str())
}

} // verus!

verus! {

// ------------------------------------------------------------------ replies

/// The error side of a reply, by its text.
pub open spec fn err_view<T>(r: Result<T, String>) -> Result<T, Seq<char>> {
    match r {
        Ok(v) => Ok(v),
        Err(e) => Err(e@),
    }
}

/// What a request that expects a 2xx status makes of its reply: the transport
/// error as it came, or `"<what> request failed with HTTP <status>"`.
pub open spec fn status_outcome(what: Seq<char>, reply: Result<u16, Seq<char>>) -> Result<(), Seq<char>> {
    match reply {
        Err(e) => Err(e),
        Ok(status) => if 200 <= status <= 299 {
            Ok(())
        } else {
            Err(what + " request failed with HTTP "@ + dec(status as nat))
        },
    }
}

fn check_status(what: &str, reply: Result<u16, String>) -> (r: Result<(), String>)
    ensures
        err_view(r) == status_outcome(what@, err_view(reply)),
{
    match reply {
        Err(e) => Err(e),
        Ok(status) => {
            if status / 100 == 2 {
                Ok(())
            } else {
                let mut msg = to_owned_string(what);
                push_str(&mut msg, " request failed with HTTP ");
                let n = u64_to_string(status as u64);
                push_str(&mut msg, n.as_str());
                Err(msg)
            }
        },
    }
}

/// What removing a dev link makes of the server's reply.
pub fn delete_dev_link(reply: Result<u16, String>) -> (r: Result<(), String>)
    ensures
        err_view(r) == status_outcome("unlink"@, err_view(reply)),
{
    check_status("unlink", reply)
}

/// What asking the server to reload plugins makes of its reply.
pub fn post_reload_plugins(reply: Result<u16, String>) -> (r: Result<(), String>)
    ensures
        err_view(r) == status_outcome("plugin reload"@, err_view(reply)),
{
    check_status("plugin reload", reply)
}

/// What asking the server to rebuild the tray makes of its reply.
pub fn post_recompile_body(reply: Result<u16, String>) -> (r: Result<(), String>)
    ensures
        err_view(r) == status_outcome("recompile"@, err_view(reply)),
{
    check_status("recompile", reply)
}

/// What asking a shadow generation to take over makes of its reply.
pub fn post_promote_generation(reply: Result<u16, String>) -> (r: Result<(), String>)
    ensures
        err_view(r) == status_outcome("generation promotion"@, err_view(reply)),
{
    check_status("generation promotion", reply)
}

/// How the server answered a request to dev-link a plugin.
#[derive(Clone, Copy, PartialEq, Eq, Structural, Debug)]
pub enum DevLinkOutcome {
    /// The link was made.
    Created,
    /// The plugin was linked already.
    AlreadyLinked,
}

/// A dev-link reply by its status: any 2xx made the link, 409 means it was
/// there already, anything else fails.
pub fn classify_link_status(status: u16) -> (r: Result<DevLinkOutcome, String>)
    ensures
        200 <= status <= 299 ==> r == Ok::<DevLinkOutcome, String>(DevLinkOutcome::Created),
        status == 409 ==> r == Ok::<DevLinkOutcome, String>(DevLinkOutcome::AlreadyLinked),
        !(200 <= status <= 299) && status != 409 ==> (r matches Err(e)
            && e@ == "dev-link request failed with HTTP "@ + dec(status as nat)),
{
    if 200 <= status && status <= 299 {
        Ok(DevLinkOutcome::Created)
    } else if status == 409 {
        Ok(DevLinkOutcome::AlreadyLinked)
    } else {
        let mut msg = to_owned_string("dev-link request failed with HTTP ");
        let n = u64_to_string(status as u64);
        push_str(&mut msg, n.as_str());
        Err(msg)
    }
}

/// A GET succeeded when the server answered 200.
pub fn http_get_ok(reply: Result<u16, String>) -> (r: Result<bool, String>)
    ensures
        err_view(r) == match err_view(reply) {
            Ok(status) => Ok::<bool, Seq<char>>(status == 200),
            Err(e) => Err(e),
        },
{
    match reply {
        Ok(status) => Ok(status == 200),
        Err(e) => Err(e),
    }
}

/// `Some(true)` or `Some(false)` for a body that is the JSON literal `true` or
/// `false` (surrounding whitespace allowed), `None` for anything else.
pub fn parse_json_bool(body: &str) -> (r: Option<bool>)
    ensures
        r == (if trim(body@) == "true"@ {
            Some(true)
        } else if trim(body@) == "false"@ {
            Some(false)
        } else {
            None::<bool>
        }),
{
    let t = trimmed(&chars_of(body));
    if vec_eq(&t, &chars_of("true")) {
        Some(true)
    } else if vec_eq(&t, &chars_of("false")) {
        Some(false)
    } else {
        None
    }
}

/// A GET of a boolean endpoint: true when the server answered 200 with the
/// body `true`.
pub fn http_get_bool(reply: Result<(u16, String), String>) -> (r: Result<bool, String>)
    ensures
        match reply {
            Ok((status, body)) => r == Ok::<bool, String>(status == 200 && trim(body@) == "true"@),
            Err(e) => r matches Err(f) && f@ == e@,
        },
{
    match reply {
        Ok((status, body)) => {
            let parsed = parse_json_bool(body.as_str());
            proof {
                if trim(body@) == "true"@ {
                    assert(parsed == Some(true));
                }
            }
            Ok(status == 200 && match parsed {
                Some(b) => b,
                None => false,
            })
        },
        Err(e) => Err(e),
    }
}

/// The dev API is up: its liveness endpoint answered 200 with `true`.
pub fn health_ok(reply: Result<(u16, String), String>) -> (r: bool)
    ensures
        r == (reply matches Ok((status, body)) && status == 200 && trim(body@) == "true"@),
{
    match http_get_bool(reply) {
        Ok(b) => b,
        Err(_) => false,
    }
}

/// The website is up: its root answered 200.
pub fn web_ok(reply: Result<u16, String>) -> (r: bool)
    ensures
        r == (reply matches Ok(status) && status == 200),
{
    match http_get_ok(reply) {
        Ok(b) => b,
        Err(_) => false,
    }
}

/// The body of a GET that must answer 200: the transport error as it came, or
/// `"GET <url> returned <status>"`.
pub fn checked_get_body(url: &str, reply: Result<(u16, String), String>) -> (r: Result<String, String>)
    ensures
        match reply {
            Err(e) => r matches Err(f) && f@ == e@,
            Ok((status, body)) => if status == 200 {
                r matches Ok(b) && b@ == body@
            } else {
                r matches Err(f) && f@ == "GET "@ + url@ + " returned "@ + dec(status as nat)
            },
        },
{
    match reply {
        Err(e) => Err(e),
        Ok((status, body)) => {
            if status == 200 {
                Ok(body)
            } else {
                let mut msg = to_owned_string("GET ");
                push_str(&mut msg, url);
                push_str(&mut msg, " returned ");
                let n = u64_to_string(status as u64);
                push_str(&mut msg, n.as_str());
                Err(msg)
            }
        },
    }
}

} // verus!

verus! {

// ------------------------------------------------------------------ HTTP text

/// The blank line that ends an HTTP response's headers.
pub open spec fn header_end() -> Seq<char> {
    "\r\n\r\n"@
}

/// The body of a raw HTTP response: what follows the first blank line, or
/// nothing when there is none.
pub fn response_body(response: &str) -> (r: String)
    ensures
        !contains(response@, header_end()) ==> r@ == Seq::<char>::empty(),
        contains(response@, header_end()) ==> exists|i: int|
            occurs_at(response@, header_end(), i)
            && (forall|j: int| 0 <= j < i ==> !occurs_at(response@, header_end(), j))
            && r@ == response@.skip(i + header_end().len()),
{
    let v = chars_of(response);
    let sep = chars_of("\r\n\r\n");
    match vec_find(&v, &sep) {
        Some(i) => {
            let n = v.len();
            assert(occurs_at(v@, sep@, i as int));
            let start = i + sep.len();
            let r = string_of_range(&v, start, n);
            assert(r@ =~= response@.skip(i + header_end().len()));
            r
        },
        None => String::new(),
    }
}

/// The status line's second word, if any (`split_whitespace().nth(1)`).
pub open spec fn second_word(line: Seq<char>) -> Seq<char> {
    first_token(after_first_token(line, CharClass::Whitespace), CharClass::Whitespace)
}

/// The status code of a raw HTTP response: the second word of its first line,
/// read as a `u16`.
pub open spec fn status_of(response: Seq<char>) -> Result<nat, Seq<char>> {
    let ls = lines(response);
    if ls.len() == 0 {
        Err("empty HTTP response"@)
    } else {
        let line = ls[0];
        let word = second_word(line);
        if word.len() == 0 {
            Err("malformed HTTP status line: "@ + line)
        } else {
            match parse_unsigned(word, 65535) {
                Some(n) => Ok(n),
                None => Err("invalid HTTP status in "@ + line),
            }
        }
    }
}

/// The status code of a raw HTTP response (see `status_of`).
pub fn parse_http_status(response: &str) -> (r: Result<u16, String>)
    ensures
        match r {
            Ok(n) => status_of(response@) == Ok::<nat, Seq<char>>(n as nat),
            Err(e) => status_of(response@) == Err::<nat, Seq<char>>(e@),
        },
{
    let ls = lines_of(response);
    if ls.len() == 0 {
        return Err(to_owned_string("empty HTTP response"));
    }
    let line = &ls[0];
    assert(line@ == lines(response@)[0]);
    let (_a0, a1) = token_at(line, 0, CharClass::Whitespace);
    assert(line@.subrange(0, line@.len() as int) =~= line@);
    let (b0, b1) = token_at(line, a1, CharClass::Whitespace);
    if b0 == b1 {
        let mut msg = to_owned_string("malformed HTTP status line: ");
        let l = string_of(line);
        push_str(&mut msg, l.as_str());
        return Err(msg);
    }
    let word = slice_chars(line, b0, b1);
    match parse_unsigned_chars(&word, 65535) {
        Some(n) => Ok(n as u16),
        None => {
            let mut msg = to_owned_string("invalid HTTP status in ");
            let l = string_of(line);
            push_str(&mut msg, l.as_str());
            Err(msg)
        },
    }
}

/// The status and body of a raw HTTP response, the result of an exchange.
pub fn http_exchange(response: &str) -> (r: Result<(u16, String), String>)
    ensures
        match r {
            Ok((status, body)) => status_of(response@) == Ok::<nat, Seq<char>>(status as nat)
                && body@ == response_body_of(response@),
            Err(e) => status_of(response@) == Err::<nat, Seq<char>>(e@),
        },
{
    let status = parse_http_status(response)?;
    let body = response_body(response);
    proof {
        if contains(response@, header_end()) {
            let i = choose|i: int|
                occurs_at(response@, header_end(), i)
                && (forall|j: int| 0 <= j < i ==> !occurs_at(response@, header_end(), j))
                && body@ == response@.skip(i + header_end().len());
            lemma_first_occurrence(response@, header_end(), i);
        }
    }
    Ok((status, body))
}

/// The index of the first occurrence of `p` in `s`, if any.
pub open spec fn first_occurrence(s: Seq<char>, p: Seq<char>) -> Option<int> {
    if contains(s, p) {
        Some(choose|i: int| occurs_at(s, p, i) && forall|j: int| 0 <= j < i ==> !occurs_at(s, p, j))
    } else {
        None
    }
}

/// The body of a raw response as a function of it (see `response_body`).
pub open spec fn response_body_of(s: Seq<char>) -> Seq<char> {
    match first_occurrence(s, header_end()) {
        Some(i) => s.skip(i + header_end().len()),
        None => Seq::empty(),
    }
}

/// An occurrence with none before it is the first one.
pub proof fn lemma_first_occurrence(s: Seq<char>, p: Seq<char>, i: int)
    requires
        occurs_at(s, p, i),
        forall|j: int| 0 <= j < i ==> !occurs_at(s, p, j),
    ensures
        first_occurrence(s, p) == Some(i),
{
    assert(contains(s, p));
    let k = choose|k: int| occurs_at(s, p, k) && forall|j: int| 0 <= j < k ==> !occurs_at(s, p, j);
    assert(k == i) by {
        if k < i {
            assert(!occurs_at(s, p, k));
        }
        if i < k {
            assert(!occurs_at(s, p, i));
        }
    }
}

} // verus!

verus! {

// ------------------------------------------------------------------ targets

/// The index of the last `c` in `s`, if any.
pub open spec fn last_index_of(s: Seq<char>, c: char) -> Option<int>
    decreases s.len(),
{
    if s.len() == 0 {
        None
    } else if s.last() == c {
        Some(s.len() - 1)
    } else {
        last_index_of(s.drop_last(), c)
    }
}

/// The index of the last `c` in `v`, if any.
pub fn vec_rfind_char(v: &Vec<char>, c: char) -> (r: Option<usize>)
    ensures
        r matches Some(i) ==> last_index_of(v@, c) == Some(i as int) && i < v@.len(),
        r is None ==> last_index_of(v@, c) is None,
{
    let mut i = v.len();
    assert(v@.take(i as int) =~= v@);
    while i > 0
        invariant
            i <= v@.len(),
            last_index_of(v@, c) == last_index_of(v@.take(i as int), c),
        decreases i,
    {
        let ghost t = v@.take(i as int);
        assert(t.drop_last() =~= v@.take(i - 1));
        if v[i - 1] == c {
            return Some(i - 1);
        }
        i -= 1;
    }
    None
}

/// Host, port and path of a plain `http://host:port/path` URL.
pub struct HttpTarget {
    /// The host name or address.
    pub host: String,
    /// The TCP port.
    pub port: u16,
    /// The path, from its leading `/`.
    pub path: String,
}

/// What parsing `url` as an `http://host:port/path` URL gives: host, port and
/// path, or the reason it cannot be.
pub open spec fn target_of(url: Seq<char>) -> Result<(Seq<char>, nat, Seq<char>), Seq<char>> {
    if !starts_with(url, "http://"@) {
        Err("only http:// URLs are supported"@)
    } else {
        let rest = url.skip("http://"@.len() as int);
        match first_index_of(rest, '/') {
            None => Err("URL has no path: "@ + url),
            Some(slash) => {
                let authority = rest.take(slash);
                match last_index_of(authority, ':') {
                    None => Err("URL has no port: "@ + url),
                    Some(colon) => match parse_unsigned(authority.skip(colon + 1), 65535) {
                        None => Err("invalid port in "@ + url),
                        Some(port) => Ok((authority.take(colon), port, rest.skip(slash))),
                    },
                }
            },
        }
    }
}

impl HttpTarget {
    /// Splits a plain `http://host:port/path` URL (see `target_of`).
    pub fn parse(url: &str) -> (r: Result<HttpTarget, String>)
        ensures
            match r {
                Ok(t) => target_of(url@) == Ok::<(Seq<char>, nat, Seq<char>), Seq<char>>((t.host@, t.port as nat, t.path@)),
                Err(e) => target_of(url@) == Err::<(Seq<char>, nat, Seq<char>), Seq<char>>(e@),
            },
    {
        let v = chars_of(url);
        let pre = chars_of("http://");
        if !vec_starts_with(&v, &pre) {
            return Err(to_owned_string("only http:// URLs are supported"));
        }
        let rest = slice_chars(&v, pre.len(), v.len());
        assert(rest@ =~= url@.skip("http://"@.len() as int));
        match vec_find_char(&rest, '/') {
            None => {
                let mut msg = to_owned_string("URL has no path: ");
                push_str(&mut msg, url);
                Err(msg)
            },
            Some(slash) => {
                let authority = slice_chars(&rest, 0, slash);
                assert(authority@ =~= rest@.take(slash as int));
                let path = string_of_range(&rest, slash, rest.len());
                assert(path@ =~= rest@.skip(slash as int));
                match vec_rfind_char(&authority, ':') {
                    None => {
                        let mut msg = to_owned_string("URL has no port: ");
                        push_str(&mut msg, url);
                        Err(msg)
                    },
                    Some(colon) => {
                        let host = string_of_range(&authority, 0, colon);
                        assert(host@ =~= authority@.take(colon as int));
                        let digits = slice_chars(&authority, colon + 1, authority.len());
                        assert(digits@ =~= authority@.skip(colon + 1));
                        match parse_unsigned_chars(&digits, 65535) {
                            None => {
                                let mut msg = to_owned_string("invalid port in ");
                                push_str(&mut msg, url);
                                Err(msg)
                            },
                            Some(port) => Ok(HttpTarget { host, port: port as u16, path }),
                        }
                    },
                }
            },
        }
    }
}

/// The request an exchange sends: request line, host, JSON content type, the
/// body's length in bytes, `Connection: close`, a blank line and the body.
pub fn http_request_text(method: &str, target: &HttpTarget, body: &str) -> (r: String)
    ensures
        r@ == method@ + " "@ + target.path@ + " HTTP/1.1\r\nHost: "@ + target.host@ + ":"@
            + dec(target.port as nat) + "\r\nContent-Type: application/json\r\nContent-Length: "@
            + dec(body.len() as nat) + "\r\nConnection: close\r\n\r\n"@ + body@,
{
    let mut r = to_owned_string(method);
    push_str(&mut r, " ");
    push_str(&mut r, target.path.as_str());
    push_str(&mut r, " HTTP/1.1\r\nHost: ");
    push_str(&mut r, target.host.as_str());
    push_str(&mut r, ":");
    let port = u64_to_string(target.port as u64);
    push_str(&mut r, port.as_str());
    push_str(&mut r, "\r\nContent-Type: application/json\r\nContent-Length: ");
    let len = u64_to_string(body.len() as u64);
    push_str(&mut r, len.as_str());
    push_str(&mut r, "\r\nConnection: close\r\n\r\n");
    push_str(&mut r, body);
    r
}

// ------------------------------------------------------------------ JSON bodies

/// The JSON string literal that serde_json writes for `s`.
pub uninterp spec fn json_string(s: Seq<char>) -> Seq<char>;

/// `s` as a JSON string literal (`serde_json::to_string` on a `str`; it writes
/// into memory and so never fails).
#[verifier::external_body]
fn json_quote(s: &str) -> (r: String)
    ensures
        r@ == json_string(s@),
{
    match serde_json::to_string(s) {
        Ok(t) => t,
        Err(_) => String::new(),
    }
}

/// The body that asks the server to rebuild the tray from `branch`.
pub fn recompile_request_body(branch: &str) -> (r: String)
    ensures
        r@ == "{\"worktree_branch\":"@ + json_string(branch@) + "}"@,
{
    let mut r = to_owned_string("{\"worktree_branch\":");
    let q = json_quote(branch);
    push_str(&mut r, q.as_str());
    push_str(&mut r, "}");
    r
}

/// The body that asks the server to dev-link the plugin in `path`.
pub fn dev_link_request_body(path: &str) -> (r: String)
    ensures
        r@ == "{\"path\":"@ + json_string(path@) + "}"@,
{
    let mut r = to_owned_string("{\"path\":");
    let q = json_quote(path);
    push_str(&mut r, q.as_str());
    push_str(&mut r, "}");
    r
}

} // verus!

verus! {

// ------------------------------------------------------------------ plugin health

/// What the server knows of one plugin's daemon.
#[derive(Clone, Copy, PartialEq, Eq, Structural, Debug)]
pub enum PluginDaemonStatus {
    /// The plugin has no daemon.
    NotExpected,
    /// Autostart is held; the daemon starts on demand.
    AutostartBlocked,
    /// Started on demand and running.
    OnDemand { pid: u32 },
    /// Not running.
    Down { consecutive_failures: u32, suppressed: bool },
    /// Started, not yet trusted.
    Probation { pid: u32, consecutive_failures: u32 },
    /// Running and trusted.
    Stable { pid: u32 },
}

/// One plugin's daemon status.
#[derive(Clone, Debug)]
pub struct PluginHealthRow {
    /// The plugin id.
    pub plugin_id: String,
    /// Its daemon's status.
    pub status: PluginDaemonStatus,
}

/// The server's plugin health report.
#[derive(Clone, Debug)]
pub struct PluginHealthSnapshot {
    /// How many supervision rounds have run (0: none yet).
    pub tick: u64,
    /// Daemon autostart is held back.
    pub daemon_autostart_held: bool,
    /// One row per plugin.
    pub plugins: Vec<PluginHealthRow>,
}

/// The daemon rows worth showing: none before the first supervision round or
/// while autostart is held, else the snapshot's rows; a failed fetch passes
/// its error on.
pub fn fetch_plugin_health_rows(snapshot: Result<PluginHealthSnapshot, String>) -> (r: Result<Option<Vec<PluginHealthRow>>, String>)
    ensures
        match snapshot {
            Err(e) => r == Err::<Option<Vec<PluginHealthRow>>, String>(e),
            Ok(s) => if s.tick == 0 || s.daemon_autostart_held {
                r == Ok::<Option<Vec<PluginHealthRow>>, String>(None)
            } else {
                r == Ok::<Option<Vec<PluginHealthRow>>, String>(Some(s.plugins))
            },
        },
{
    match snapshot {
        Err(e) => Err(e),
        Ok(s) => {
            if s.tick == 0 || s.daemon_autostart_held {
                Ok(None)
            } else {
                Ok(Some(s.plugins))
            }
        },
    }
}

/// The plugins page from what the two fetches gave: a failed link fetch fails
/// it, a failed discovery counts as an empty one.
pub fn fetch_workspace_plugins(
    links: Result<Vec<DevLink>, String>,
    discovered: Result<Vec<DiscoveredPlugin>, String>,
) -> (r: Result<Vec<WorkspacePlugin>, String>)
    ensures
        match links {
            Err(e) => r == Err::<Vec<WorkspacePlugin>, String>(e),
            Ok(ls) => r matches Ok(rows) && lists_rows(rows@, merged_rows(ls@, match discovered {
                Ok(ds) => ds@,
                Err(_) => Seq::<DiscoveredPlugin>::empty(),
            })),
        },
{
    match links {
        Err(e) => Err(e),
        Ok(ls) => {
            let ds = match discovered {
                Ok(ds) => ds,
                Err(_) => Vec::new(),
            };
            Ok(merge_workspace_plugins(ls.as_slice(), ds.as_slice()))
        },
    }
}

/// Which way a plugin's dev link is toggled.
#[derive(Clone, Copy, PartialEq, Eq, Structural, Debug)]
pub enum LinkToggle {
    /// The plugin gets linked.
    Linked,
    /// The plugin gets unlinked.
    Unlinked,
}

/// The request a link toggle makes of the server.
#[derive(Clone, Debug)]
pub enum LinkRequest {
    /// Remove the dev link of the plugin with this id.
    Unlink(String),
    /// Dev-link a plugin: the request's body.
    Link(String),
}

/// The request toggling a row's link makes: a linked plugin's link is
/// removed; an unlinked one is linked from its path, which it must have.
pub fn link_request(plugin: &WorkspacePlugin) -> (r: Result<LinkRequest, String>)
    ensures
        plugin.linked ==> (r matches Ok(LinkRequest::Unlink(id)) && id@ == plugin.id@),
        !plugin.linked && plugin.path@.len() > 0 ==> (r matches Ok(LinkRequest::Link(body))
            && body@ == "{\"path\":"@ + json_string(plugin.path@) + "}"@),
        !plugin.linked && plugin.path@.len() == 0 ==> (r matches Err(e) && e@ == "no source path known for "@ + plugin.id@),
{
    if plugin.linked {
        Ok(LinkRequest::Unlink(plugin.id.clone()))
    } else if chars_of(plugin.path.as_str()).len() == 0 {
        let mut msg = to_owned_string("no source path known for ");
        push_str(&mut msg, plugin.id.as_str());
        Err(msg)
    } else {
        Ok(LinkRequest::Link(dev_link_request_body(plugin.path.as_str())))
    }
}

/// A toggle's outcome from the server's reply to its request (see
/// `link_request`): an unlink needs a 2xx; a link needs a 2xx or 409 (linked
/// already); a transport error fails as it came.
pub open spec fn toggle_outcome(plugin: WorkspacePlugin, reply: Result<u16, Seq<char>>) -> Result<LinkToggle, Seq<char>> {
    if plugin.linked {
        match status_outcome("unlink"@, reply) {
            Ok(_) => Ok(LinkToggle::Unlinked),
            Err(e) => Err(e),
        }
    } else if plugin.path@.len() == 0 {
        Err("no source path known for "@ + plugin.id@)
    } else {
        match reply {
            Err(e) => Err(e),
            Ok(status) => if (200 <= status <= 299) || status == 409 {
                Ok(LinkToggle::Linked)
            } else {
                Err("dev-link request failed with HTTP "@ + dec(status as nat))
            },
        }
    }
}

/// Toggling a row's link, given the server's reply to the request that
/// `link_request` made (see `toggle_outcome`); without a path no request is
/// made and the reply is not read.
pub fn toggle_dev_link(plugin: &WorkspacePlugin, reply: Result<u16, String>) -> (r: Result<LinkToggle, String>)
    ensures
        err_view(r) == toggle_outcome(*plugin, err_view(reply)),
{
    if plugin.linked {
        match delete_dev_link(reply) {
            Ok(()) => Ok(LinkToggle::Unlinked),
            Err(e) => Err(e),
        }
    } else if chars_of(plugin.path.as_str()).len() == 0 {
        let mut msg = to_owned_string("no source path known for ");
        push_str(&mut msg, plugin.id.as_str());
        Err(msg)
    } else {
        match reply {
            Err(e) => Err(e),
            Ok(status) => match classify_link_status(status) {
                Ok(_) => Ok(LinkToggle::Linked),
                Err(e) => Err(e),
            },
        }
    }
}

// ------------------------------------------------------------------ endpoints

/// One probed endpoint.
#[derive(Clone, Debug)]
pub struct EndpointStatus {
    /// What it serves.
    pub label: String,
    /// Its URL.
    pub url: String,
    /// It answered 200.
    pub ok: bool,
}

impl EndpointStatus {
    /// Records the reply of a GET of this endpoint.
    pub fn record(&mut self, reply: Result<u16, String>)
        ensures
            final(self).label@ == old(self).label@,
            final(self).url@ == old(self).url@,
            final(self).ok == (reply matches Ok(status) && status == 200),
    {
        self.ok = web_ok(reply);
    }
}

fn endpoint(label: &str, url: String) -> (r: EndpointStatus)
    ensures
        r.label@ == label@,
        r.url@ == url@,
        !r.ok,
{
    EndpointStatus { label: to_owned_string(label), url, ok: false }
}

/// The endpoints the console probes, in order, none yet seen answering:
/// the website, the dev API, GitHub auth and the log service.
pub fn probe_endpoints(base: &str) -> (r: Vec<EndpointStatus>)
    ensures
        r@.len() == 4,
        r@[0].label@ == "website"@ && r@[0].url@ == base@ + "/"@,
        r@[1].label@ == "dev api"@ && r@[1].url@ == base@ + "/api/dev/enabled"@,
        r@[2].label@ == "github"@ && r@[2].url@ == base@ + "/api/auth/health"@,
        r@[3].label@ == "logs"@ && r@[3].url@ == base@ + "/api/logs/entries"@,
        forall|i: int| 0 <= i < 4 ==> !(#[trigger] r@[i]).ok,
{
    let mut r: Vec<EndpointStatus> = Vec::new();
    r.push(endpoint("website", web_health_url(base)));
    r.push(endpoint("dev api", dev_health_url(base)));
    r.push(endpoint("github", auth_health_url(base)));
    r.push(endpoint("logs", logs_health_url(base)));
    r
}

} // verus!
