//! Command progress: the cargo dependency count that sizes the compile bar,
//! and the text of the determinate and pulsing progress bars.
use std::time::Duration;
use vstd::prelude::*;
use crate::clock::{duration_secs, total_nanos};
use crate::text::{
    chars_of, dec, dec2, ends_with, lines, lines_of, push_char, push_str, slice_chars, starts_with,
    str_eq, string_of, to_owned_string, trim, trimmed, u64_to_string, u64_to_string2, vec_ends_with,
    vec_eq, vec_starts_with, views, vviews,
};

verus! {

/// Cells of the progress bar between its brackets.
pub const PROGRESS_BAR_WIDTH: usize = 18;
/// Length of the pulse of the indeterminate bar.
pub const PROGRESS_PULSE_WIDTH: usize = 5;

/// The kind of a step label, which sets its color.
#[derive(Clone, Copy, PartialEq, Eq, Structural, Debug)]
pub enum StepKind {
    /// Work that is starting.
    Pending,
    /// Work that succeeded.
    Success,
    /// Information.
    Info,
}

/// The ANSI color code of a step label.
pub fn step_color(kind: StepKind) -> (s: &'static str)
    ensures
        kind == StepKind::Pending ==> s@ == "33"@,
        kind == StepKind::Success ==> s@ == "32"@,
        kind == StepKind::Info ==> s@ == "36"@,
{
    match kind {
        StepKind::Pending => "33",
        StepKind::Success => "32",
        StepKind::Info => "36",
    }
}

/// Whether a cargo subcommand compiles (and so can show compile progress).
pub fn is_cargo_compile_subcommand(subcommand: &str) -> (b: bool)
    ensures
        b == (subcommand@ == "build"@ || subcommand@ == "check"@ || subcommand@ == "install"@
            || subcommand@ == "test"@),
{
    str_eq(subcommand, "build") || str_eq(subcommand, "check") || str_eq(subcommand, "install")
        || str_eq(subcommand, "test")
}

/// Whether a subcommand's dependency count includes dev-dependencies.
pub fn cargo_progress_includes_dev(subcommand: &str) -> (b: bool)
    ensures
        b == (subcommand@ == "test"@),
{
    str_eq(subcommand, "test")
}

/// A `cargo` flag that `cargo tree` takes with its value as the next argument.
pub open spec fn is_tree_value_arg(a: Seq<char>) -> bool {
    a == "--features"@ || a == "--manifest-path"@ || a == "--target"@
}

/// A `cargo` flag that `cargo tree` takes with its value inline.
pub open spec fn is_tree_inline_arg(a: Seq<char>) -> bool {
    starts_with(a, "--features="@) || starts_with(a, "--manifest-path="@) || starts_with(a, "--target="@)
}

/// A `cargo` switch that `cargo tree` takes too.
pub open spec fn is_tree_bool_arg(a: Seq<char>) -> bool {
    a == "--all-features"@ || a == "--no-default-features"@ || a == "--locked"@ || a == "--offline"@
        || a == "--frozen"@
}

/// Whether `arg` is a flag whose value follows it.
pub fn tree_value_arg(arg: &str) -> (b: bool)
    ensures
        b == is_tree_value_arg(arg@),
{
    str_eq(arg, "--features") || str_eq(arg, "--manifest-path") || str_eq(arg, "--target")
}

/// Whether `arg` carries its value inline.
pub fn tree_inline_arg(arg: &str) -> (b: bool)
    ensures
        b == is_tree_inline_arg(arg@),
{
    let v = chars_of(arg);
    vec_starts_with(&v, &chars_of("--features=")) || vec_starts_with(&v, &chars_of("--manifest-path="))
        || vec_starts_with(&v, &chars_of("--target="))
}

/// Whether `arg` is a switch `cargo tree` shares.
pub fn tree_bool_arg(arg: &str) -> (b: bool)
    ensures
        b == is_tree_bool_arg(arg@),
{
    str_eq(arg, "--all-features") || str_eq(arg, "--no-default-features") || str_eq(arg, "--locked")
        || str_eq(arg, "--offline") || str_eq(arg, "--frozen")
}

/// The arguments `cargo tree` keeps from `cargo[index]`, and the index after them.
pub open spec fn tree_step(cargo: Seq<Seq<char>>, index: int) -> (Seq<Seq<char>>, int) {
    let a = cargo[index];
    if is_tree_value_arg(a) {
        if index + 1 < cargo.len() {
            (seq![a, cargo[index + 1]], index + 2)
        } else {
            (seq![a], index + 1)
        }
    } else if is_tree_inline_arg(a) || is_tree_bool_arg(a) {
        (seq![a], index + 1)
    } else {
        (seq![], index + 1)
    }
}

/// The arguments `cargo tree` keeps from `cargo[index..]`.
pub open spec fn tree_args_from(cargo: Seq<Seq<char>>, index: int) -> Seq<Seq<char>>
    decreases cargo.len() - index,
{
    if index < 0 || index >= cargo.len() {
        seq![]
    } else {
        let step = tree_step(cargo, index);
        step.0 + tree_args_from(cargo, step.1)
    }
}

/// The dependency edges `cargo tree` follows.
pub open spec fn tree_edges(include_dev: bool) -> Seq<char> {
    if include_dev { "normal,build,dev"@ } else { "normal,build"@ }
}

/// The dependency edges `cargo tree` follows.
pub fn cargo_tree_edges(include_dev: bool) -> (r: String)
    ensures
        r@ == tree_edges(include_dev),
{
    if include_dev {
        to_owned_string("normal,build,dev")
    } else {
        to_owned_string("normal,build")
    }
}

/// Copies to `args` what `cargo tree` keeps of `cargo_args[index]` (and its
/// value), and returns the index of the next argument to look at.
pub fn push_tree_arg(cargo_args: &[String], index: usize, args: &mut Vec<String>) -> (next: usize)
    requires
        index < cargo_args@.len(),
    ensures
        views(final(args)@) == views(old(args)@) + tree_step(views(cargo_args@), index as int).0,
        next == tree_step(views(cargo_args@), index as int).1,
{
    let arg = &cargo_args[index];
    if tree_value_arg(arg.as_str()) {
        args.push(arg.clone());
        if index + 1 < cargo_args.len() {
            args.push(cargo_args[index + 1].clone());
            proof {
                let c = views(cargo_args@);
                assert(views(final(args)@) =~= views(old(args)@) + seq![c[index as int], c[index + 1]]);
            }
            return index + 2;
        }
        assert(views(args@) =~= views(old(args)@) + seq![views(cargo_args@)[index as int]]);
        return index + 1;
    }
    if tree_inline_arg(arg.as_str()) || tree_bool_arg(arg.as_str()) {
        args.push(arg.clone());
        assert(views(args@) =~= views(old(args)@) + seq![views(cargo_args@)[index as int]]);
    } else {
        assert(views(args@) =~= views(old(args)@) + Seq::<Seq<char>>::empty());
    }
    index + 1
}

/// The arguments of the `cargo tree` run that counts the packages a cargo
/// command with arguments `cargo_args` (its subcommand first) compiles.
pub fn cargo_tree_args(cargo_args: &[String], include_dev: bool) -> (r: Vec<String>)
    ensures
        views(r@) == seq!["tree"@, "--prefix"@, "none"@, "--edges"@, tree_edges(include_dev)] + tree_args_from(
            views(cargo_args@),
            1,
        ),
{
    let mut args: Vec<String> = Vec::new();
    args.push(to_owned_string("tree"));
    args.push(to_owned_string("--prefix"));
    args.push(to_owned_string("none"));
    args.push(to_owned_string("--edges"));
    args.push(cargo_tree_edges(include_dev));
    let ghost head = seq!["tree"@, "--prefix"@, "none"@, "--edges"@, tree_edges(include_dev)];
    let ghost c = views(cargo_args@);
    assert(views(args@) =~= head);
    let mut index: usize = 1;
    while index < cargo_args.len()
        invariant
            c == views(cargo_args@),
            1 <= index,
            index <= cargo_args@.len() + 1,
            views(args@) + tree_args_from(c, index as int) == head + tree_args_from(c, 1),
        decreases cargo_args.len() - index,
    {
        let ghost before = views(args@);
        let ghost old_index = index as int;
        index = push_tree_arg(cargo_args, index, &mut args);
        proof {
            let step = tree_step(c, old_index);
            assert(tree_args_from(c, old_index) == step.0 + tree_args_from(c, step.1));
            assert(views(args@) + tree_args_from(c, index as int) =~= before + (step.0 + tree_args_from(c, step.1)));
        }
    }
    assert(tree_args_from(c, index as int) =~= Seq::<Seq<char>>::empty());
    assert(views(args@) + Seq::<Seq<char>>::empty() =~= views(args@));
    args
}

/// Over arguments none of which takes the next as its value, what `cargo
/// tree` keeps from `from` is what it keeps of them, then what it keeps from `to`.
proof fn lemma_walk_prefix(c: Seq<Seq<char>>, from: int, to: int) -> (p: Seq<Seq<char>>)
    requires
        0 <= from <= to <= c.len(),
        forall|j: int| from <= j < to ==> !is_tree_value_arg(#[trigger] c[j]),
    ensures
        tree_args_from(c, from) == p + tree_args_from(c, to),
    decreases to - from,
{
    if from == to {
        assert(Seq::<Seq<char>>::empty() + tree_args_from(c, to) =~= tree_args_from(c, to));
        Seq::empty()
    } else {
        assert(!is_tree_value_arg(c[from]));
        let step = tree_step(c, from);
        assert(step.1 == from + 1);
        let rest = lemma_walk_prefix(c, from + 1, to);
        assert(step.0 + (rest + tree_args_from(c, to)) =~= (step.0 + rest) + tree_args_from(c, to));
        step.0 + rest
    }
}

/// `cargo tree` counts the packages of the same crate, features and target
/// as the command: the first `--manifest-path`, `--features` or `--target`
/// flag that takes its value as the next argument is kept in the `cargo
/// tree` arguments (see `cargo_tree_args`) immediately followed by that value.
pub proof fn lemma_tree_args_keep_flag_values(c: Seq<Seq<char>>, include_dev: bool, i: int)
    requires
        1 <= i,
        i + 1 < c.len(),
        c[i] == "--manifest-path"@ || c[i] == "--features"@ || c[i] == "--target"@,
        forall|j: int| 1 <= j < i ==> #[trigger] c[j] != "--manifest-path"@ && c[j] != "--features"@ && c[j] != "--target"@,
    ensures
        ({
            let r = seq!["tree"@, "--prefix"@, "none"@, "--edges"@, tree_edges(include_dev)] + tree_args_from(c, 1);
            exists|k: int| 0 <= k && k + 1 < r.len() && #[trigger] r[k] == c[i] && r[k + 1] == c[i + 1]
        }),
{
    let head = seq!["tree"@, "--prefix"@, "none"@, "--edges"@, tree_edges(include_dev)];
    let p = lemma_walk_prefix(c, 1, i);
    let tail = tree_args_from(c, i + 2);
    assert(tree_args_from(c, i) == seq![c[i], c[i + 1]] + tail);
    let r = head + tree_args_from(c, 1);
    assert(r =~= head + p + seq![c[i], c[i + 1]] + tail);
    let k: int = 5 + p.len() as int;
    assert(r[k] == c[i]);
    assert(r[k + 1] == c[i + 1]);
}

/// The switches and inline flags that `cargo tree` shares with the command
/// (`--locked`, `--offline`, `--frozen`, `--all-features`,
/// `--no-default-features`, and `--features=`, `--manifest-path=`,
/// `--target=` with their value) are kept in the `cargo tree` arguments, when
/// no flag before them takes them as its value.
pub proof fn lemma_tree_args_keep_shared_switches(c: Seq<Seq<char>>, include_dev: bool, i: int)
    requires
        1 <= i < c.len(),
        c[i] == "--locked"@ || c[i] == "--offline"@ || c[i] == "--frozen"@ || c[i] == "--all-features"@
            || c[i] == "--no-default-features"@ || starts_with(c[i], "--features="@) || starts_with(
            c[i],
            "--manifest-path="@,
        ) || starts_with(c[i], "--target="@),
        forall|j: int| 1 <= j < i ==> #[trigger] c[j] != "--manifest-path"@ && c[j] != "--features"@ && c[j] != "--target"@,
    ensures
        ({
            let r = seq!["tree"@, "--prefix"@, "none"@, "--edges"@, tree_edges(include_dev)] + tree_args_from(c, 1);
            exists|k: int| 5 <= k < r.len() && #[trigger] r[k] == c[i]
        }),
{
    let head = seq!["tree"@, "--prefix"@, "none"@, "--edges"@, tree_edges(include_dev)];
    let p = lemma_walk_prefix(c, 1, i);
    let step = tree_step(c, i);
    assert(step.0.len() >= 1 && step.0[0] == c[i]);
    let tail = tree_args_from(c, step.1);
    assert(tree_args_from(c, i) == step.0 + tail);
    let r = head + tree_args_from(c, 1);
    assert(r =~= head + p + step.0 + tail);
    let k: int = 5 + p.len() as int;
    assert(r[k] == c[i]);
}

/// What `cargo tree` keeps of the command's arguments from `index` on is
/// made of those arguments only: it adds none of its own.
pub proof fn lemma_tree_args_come_from_the_command(c: Seq<Seq<char>>, index: int)
    ensures
        forall|k: int| 0 <= k < tree_args_from(c, index).len() ==> exists|j: int| index <= j < c.len() && c[j]
            == #[trigger] tree_args_from(c, index)[k],
    decreases c.len() - index,
{
    if 0 <= index < c.len() {
        let step = tree_step(c, index);
        lemma_tree_args_come_from_the_command(c, step.1);
        let rest = tree_args_from(c, step.1);
        assert(tree_args_from(c, index) == step.0 + rest);
        assert forall|k: int| 0 <= k < tree_args_from(c, index).len() implies exists|j: int| index <= j < c.len()
            && c[j] == #[trigger] tree_args_from(c, index)[k] by {
            if k < step.0.len() {
                if k == 0 {
                    assert(c[index] == tree_args_from(c, index)[k]);
                } else {
                    assert(c[index + 1] == tree_args_from(c, index)[k]);
                }
            } else {
                assert(tree_args_from(c, index)[k] == rest[k - step.0.len()]);
                let j = choose|j: int| step.1 <= j < c.len() && c[j] == #[trigger] rest[k - step.0.len()];
                assert(c[j] == tree_args_from(c, index)[k]);
            }
        }
    }
}

/// The dev dependencies' edges are followed exactly when asked for: on top
/// of the normal and build edges.
pub proof fn lemma_tree_edges_add_dev(include_dev: bool)
    ensures
        tree_edges(false) == "normal,build"@,
        tree_edges(true) == "normal,build"@ + ",dev"@,
{
    reveal_strlit("normal,build");
    reveal_strlit(",dev");
    reveal_strlit("normal,build,dev");
}

/// The value given to the flag `name` in `args`: the argument after an exact
/// `name`, or what follows `name=`; the first occurrence counts.
pub open spec fn arg_value_from(args: Seq<Seq<char>>, name: Seq<char>, index: int) -> Option<Seq<char>>
    decreases args.len() - index,
{
    if index < 0 || index >= args.len() {
        None
    } else if args[index] == name {
        if index + 1 < args.len() { Some(args[index + 1]) } else { None }
    } else if starts_with(args[index], name + seq!['=']) {
        Some(args[index].subrange(name.len() as int + 1, args[index].len() as int))
    } else {
        arg_value_from(args, name, index + 1)
    }
}

/// The value given to the flag `name` in `args` (see `arg_value_from`).
pub fn cargo_arg_value(args: &[String], name: &str) -> (r: Option<String>)
    ensures
        match arg_value_from(views(args@), name@, 0) {
            Some(v) => r matches Some(s) && s@ == v,
            None => r is None,
        },
{
    let n = chars_of(name);
    let mut prefix = chars_of(name);
    prefix.push('=');
    assert(prefix@ =~= name@ + seq!['=']);
    let mut index: usize = 0;
    while index < args.len()
        invariant
            index <= args@.len(),
            n@ == name@,
            prefix@ == name@ + seq!['='],
            arg_value_from(views(args@), name@, 0) == arg_value_from(views(args@), name@, index as int),
        decreases args.len() - index,
    {
        let arg = chars_of(args[index].as_str());
        if vec_eq(&arg, &n) {
            if index + 1 < args.len() {
                return Some(args[index + 1].clone());
            }
            return None;
        }
        if vec_starts_with(&arg, &prefix) {
            let value = slice_chars(&arg, prefix.len(), arg.len());
            return Some(string_of(&value));
        }
        index += 1;
    }
    None
}

/// `s` with every trailing `p` removed (`str::trim_end_matches` with a string).
pub open spec fn strip_all_suffix(s: Seq<char>, p: Seq<char>) -> Seq<char>
    decreases s.len(),
{
    if p.len() > 0 && ends_with(s, p) {
        strip_all_suffix(s.subrange(0, s.len() - p.len()), p)
    } else {
        s
    }
}

/// A `cargo tree` line reduced to its package: trimmed, the ` (*)` marks of
/// repeated entries removed.
pub open spec fn normalized_tree_line(line: Seq<char>) -> Seq<char> {
    strip_all_suffix(trim(line), " (*)"@)
}

/// `line` reduced to its package (see `normalized_tree_line`).
pub fn normalize_cargo_tree_line(line: &str) -> (r: String)
    ensures
        r@ == normalized_tree_line(line@),
{
    let v = chars_of(line);
    let mut t = trimmed(&v);
    let mark = chars_of(" (*)");
    while vec_ends_with(&t, &mark)
        invariant
            mark@ == " (*)"@,
            strip_all_suffix(t@, mark@) == normalized_tree_line(line@),
        decreases t@.len(),
    {
        proof {
            reveal_strlit(" (*)");
        }
        let end = t.len() - mark.len();
        t = slice_chars(&t, 0, end);
    }
    proof {
        reveal_strlit(" (*)");
    }
    string_of(&t)
}

/// The packages named by the lines of a `cargo tree` listing.
pub open spec fn tree_packages(text: Seq<char>) -> Set<Seq<char>> {
    Set::new(|p: Seq<char>| p.len() > 0 && exists|i: int| 0 <= i < lines(text).len() && p == normalized_tree_line(#[trigger] lines(text)[i]))
}

/// The UTF-8 decoding of `bytes`, if they are valid UTF-8 (`std::str::from_utf8`).
///
/// Trusted: std decodes exactly the valid UTF-8 inputs, as UTF-8 defines.
#[verifier::external_body]
fn utf8_text(bytes: &[u8]) -> (r: Option<String>)
    ensures
        r is Some <==> vstd::utf8::valid_utf8(bytes@),
        r matches Some(s) ==> s@ == vstd::utf8::decode_utf8(bytes@),
{
    std::str::from_utf8(bytes).ok().map(|text| text.to_string())
}

/// How many distinct packages a `cargo tree --prefix none` listing names; an
/// error when the output is not UTF-8.
pub fn cargo_tree_count(output: &[u8]) -> (r: Result<usize, String>)
    ensures
        r is Err <==> !vstd::utf8::valid_utf8(output@),
        r matches Ok(n) ==> n == tree_packages(vstd::utf8::decode_utf8(output@)).len(),
        r matches Err(e) ==> e@ == "cargo tree output was not UTF-8"@,
{
    let text = match utf8_text(output) {
        Some(text) => text,
        None => return Err(to_owned_string("cargo tree output was not UTF-8")),
    };
    let ls = lines_of(text.as_str());
    let ghost lv = lines(text@);
    let mut seen: Vec<String> = Vec::new();
    let mut i: usize = 0;
    while i < ls.len()
        invariant
            i <= ls@.len(),
            vviews(ls@) == lv,
            views(seen@).no_duplicates(),
            forall|p: Seq<char>| views(seen@).contains(p) <==> (p.len() > 0 && exists|k: int| 0 <= k < i && p == normalized_tree_line(#[trigger] lv[k])),
        decreases ls.len() - i,
    {
        let line = string_of(&ls[i]);
        assert(line@ == lv[i as int]);
        let norm = normalize_cargo_tree_line(line.as_str());
        let nv = chars_of(norm.as_str());
        let mut present = false;
        let mut j: usize = 0;
        while j < seen.len()
            invariant
                j <= seen@.len(),
                present == exists|q: int| 0 <= q < j && views(seen@)[q] == norm@,
            decreases seen.len() - j,
        {
            let same = str_eq(seen[j].as_str(), norm.as_str());
            assert(views(seen@)[j as int] == seen@[j as int]@);
            if same {
                present = true;
            }
            j += 1;
        }
        let ghost before = views(seen@);
        if nv.len() > 0 && !present {
            seen.push(norm);
            assert(views(seen@) =~= before.push(norm@));
        }
        proof {
            let after = views(seen@);
            assert(norm@ == normalized_tree_line(lv[i as int]));
            assert forall|p: Seq<char>| after.contains(p) implies (p.len() > 0 && exists|k: int| 0 <= k < i + 1 && p == normalized_tree_line(#[trigger] lv[k])) by {
                if before.contains(p) {
                } else {
                    let q = choose|q: int| 0 <= q < after.len() && after[q] == p;
                    assert(q == before.len());
                    assert(p == norm@);
                    assert(p == normalized_tree_line(lv[i as int]));
                }
            }
            assert forall|p: Seq<char>| (p.len() > 0 && exists|k: int| 0 <= k < i + 1 && p == normalized_tree_line(#[trigger] lv[k])) implies after.contains(p) by {
                let k = choose|k: int| 0 <= k < i + 1 && p == normalized_tree_line(#[trigger] lv[k]);
                if k < i {
                    assert(before.contains(p));
                    let q = choose|q: int| 0 <= q < before.len() && before[q] == p;
                    assert(after[q] == p);
                } else {
                    assert(p == norm@);
                    if present {
                        let q = choose|q: int| 0 <= q < before.len() && before[q] == norm@;
                        assert(after[q] == p);
                    } else {
                        assert(after[after.len() - 1] == p);
                    }
                }
            }
            if nv.len() > 0 && !present {
                assert(!before.contains(norm@));
            }
        }
        i += 1;
    }
    proof {
        let sv = views(seen@);
        sv.unique_seq_to_set();
        assert(sv.to_set() =~= tree_packages(text@));
    }
    Ok(seen.len())
}

/// The share of `done` in `total` as a whole percentage (0 when `total` is 0).
pub open spec fn percent(done: nat, total: nat) -> nat {
    if total == 0 {
        0
    } else {
        let d = if done < total { done } else { total };
        d * 100 / total
    }
}

/// The share of `done` in `total` as a whole percentage, at most 100.
pub fn progress_percent(done: usize, total: usize) -> (p: usize)
    ensures
        p == percent(done as nat, total as nat),
        p <= 100,
{
    if total == 0 {
        return 0;
    }
    let d: u128 = if done < total { done as u128 } else { total as u128 };
    let t: u128 = total as u128;
    assert((d as int) * 100 / (t as int) <= 100) by (nonlinear_arith)
        requires d <= t, t > 0;
    (d * 100 / t) as usize
}

/// How many cells of the bar are filled: the share of `done` in `total`, rounded up.
pub open spec fn filled_cells(done: nat, total: nat) -> nat {
    if total == 0 || done == 0 {
        0
    } else {
        let d = if done < total { done } else { total };
        ((d * PROGRESS_BAR_WIDTH + total - 1) / total as int) as nat
    }
}

/// How many cells of the bar are filled.
pub fn determinate_progress_width(done: usize, total: usize) -> (w: usize)
    ensures
        w == filled_cells(done as nat, total as nat),
        w <= PROGRESS_BAR_WIDTH,
{
    if total == 0 || done == 0 {
        return 0;
    }
    let d: u128 = if done < total { done as u128 } else { total as u128 };
    let t: u128 = total as u128;
    assert(((d as int) * 18 + (t as int) - 1) / (t as int) <= 18) by (nonlinear_arith)
        requires d <= t, t > 0;
    ((d * 18 + t - 1) / t) as usize
}

/// A bar cell: filled before `filled`, empty after.
pub fn determinate_progress_char(index: usize, filled: usize) -> (c: char)
    ensures
        c == (if index < filled { '#' } else { '-' }),
{
    if index < filled {
        return '#';
    }
    '-'
}

/// A bracketed bar of `PROGRESS_BAR_WIDTH` cells, the first `filled` of them `#`.
pub open spec fn bar_text(filled: nat) -> Seq<char> {
    seq!['['] + Seq::new(PROGRESS_BAR_WIDTH as nat, |i: int| if i < filled { '#' } else { '-' }) + seq![']']
}

/// The bar of `done` out of `total`.
pub fn determinate_progress_bar(done: usize, total: usize) -> (r: String)
    ensures
        r@ == bar_text(filled_cells(done as nat, total as nat)),
{
    let filled = determinate_progress_width(done, total);
    let mut bar = String::new();
    push_char(&mut bar, '[');
    let mut index: usize = 0;
    while index < PROGRESS_BAR_WIDTH
        invariant
            index <= PROGRESS_BAR_WIDTH,
            bar@ == seq!['['] + Seq::new(index as nat, |i: int| if i < filled { '#' } else { '-' }),
        decreases PROGRESS_BAR_WIDTH - index,
    {
        push_char(&mut bar, determinate_progress_char(index, filled));
        assert(bar@ =~= seq!['['] + Seq::new((index + 1) as nat, |i: int| if i < filled { '#' } else { '-' }));
        index += 1;
    }
    push_char(&mut bar, ']');
    assert(bar@ =~= bar_text(filled as nat));
    bar
}

/// `s` right-aligned in a field `w` characters wide.
pub open spec fn pad_left(s: Seq<char>, w: nat) -> Seq<char> {
    if s.len() < w {
        Seq::new((w - s.len()) as nat, |i: int| ' ') + s
    } else {
        s
    }
}

/// The compile progress text: `{done}/{total} {percent:>3}% [bar]`, `done`
/// clamped to `total`.
pub open spec fn progress_text(done: nat, total: nat) -> Seq<char> {
    let d = if done < total { done } else { total };
    dec(d) + seq!['/'] + dec(total) + seq![' '] + pad_left(dec(percent(d, total)), 3) + seq!['%', ' ']
        + bar_text(filled_cells(d, total))
}

/// The compile progress text of `done` out of `total`.
pub fn cargo_progress_text(done: usize, total: usize) -> (r: String)
    ensures
        r@ == progress_text(done as nat, total as nat),
{
    let d = if done < total { done } else { total };
    let percent = progress_percent(d, total);
    let mut r = u64_to_string(d as u64);
    push_char(&mut r, '/');
    let t = u64_to_string(total as u64);
    push_str(&mut r, t.as_str());
    push_char(&mut r, ' ');
    let p = u64_to_string(percent as u64);
    let pv = chars_of(p.as_str());
    let mut pad: usize = pv.len();
    while pad < 3
        invariant
            pv.len() <= pad <= 3 || (pad == pv.len() && pad >= 3),
            r@ == dec(d as nat) + seq!['/'] + dec(total as nat) + seq![' '] + Seq::new((pad - pv.len()) as nat, |i: int| ' '),
        decreases 3 - pad,
    {
        push_char(&mut r, ' ');
        assert(r@ =~= dec(d as nat) + seq!['/'] + dec(total as nat) + seq![' '] + Seq::new((pad + 1 - pv.len()) as nat, |i: int| ' '));
        pad += 1;
    }
    push_str(&mut r, p.as_str());
    push_char(&mut r, '%');
    push_char(&mut r, ' ');
    let bar = determinate_progress_bar(d, total);
    push_str(&mut r, bar.as_str());
    proof {
        let ds = dec(percent as nat);
        if ds.len() < 3 {
            assert(pad_left(ds, 3) =~= Seq::new((3 - ds.len()) as nat, |i: int| ' ') + ds);
        } else {
            assert(Seq::new(0, |i: int| ' ') + ds =~= ds);
        }
        assert(r@ =~= progress_text(done as nat, total as nat));
    }
    r
}

/// Elapsed time as `mm:ss`.
pub open spec fn elapsed_text(seconds: nat) -> Seq<char> {
    dec2(seconds / 60) + seq![':'] + dec2(seconds % 60)
}

/// `duration` as `mm:ss` (minutes grow past two digits as needed).
pub fn format_elapsed(duration: Duration) -> (r: String)
    ensures
        r@ == elapsed_text(total_nanos(duration) / 1_000_000_000),
{
    let seconds = duration_secs(duration);
    let mut r = u64_to_string2(seconds / 60);
    push_char(&mut r, ':');
    let s = u64_to_string2(seconds % 60);
    push_str(&mut r, s.as_str());
    r
}

/// A cell of the pulsing bar whose head is at `head`.
pub open spec fn pulse_char(head: nat, index: nat) -> char {
    if head == index {
        '>'
    } else if head > index && head - index < PROGRESS_PULSE_WIDTH {
        '='
    } else {
        ' '
    }
}

/// A cell of the pulsing bar whose head is at `head`.
pub fn indeterminate_progress_bar_char(head: usize, index: usize) -> (c: char)
    ensures
        c == pulse_char(head as nat, index as nat),
{
    if head == index {
        return '>';
    }
    if head > index && head - index < PROGRESS_PULSE_WIDTH {
        return '=';
    }
    ' '
}

/// The pulsing bar at animation step `tick`.
pub open spec fn pulse_bar(tick: nat) -> Seq<char> {
    let head = tick % (PROGRESS_BAR_WIDTH + PROGRESS_PULSE_WIDTH) as nat;
    seq!['['] + Seq::new(PROGRESS_BAR_WIDTH as nat, |i: int| pulse_char(head, i as nat)) + seq![']']
}

/// The pulsing bar shown while the amount of work is unknown, at step `tick`.
pub fn indeterminate_progress_bar(tick: usize) -> (r: String)
    ensures
        r@ == pulse_bar(tick as nat),
{
    let head = tick % (PROGRESS_BAR_WIDTH + PROGRESS_PULSE_WIDTH);
    let mut bar = String::new();
    push_char(&mut bar, '[');
    let mut index: usize = 0;
    while index < PROGRESS_BAR_WIDTH
        invariant
            index <= PROGRESS_BAR_WIDTH,
            head as int == (tick as int) % ((PROGRESS_BAR_WIDTH + PROGRESS_PULSE_WIDTH) as int),
            bar@ == seq!['['] + Seq::new(index as nat, |i: int| pulse_char(head as nat, i as nat)),
        decreases PROGRESS_BAR_WIDTH - index,
    {
        push_char(&mut bar, indeterminate_progress_bar_char(head, index));
        assert(bar@ =~= seq!['['] + Seq::new((index + 1) as nat, |i: int| pulse_char(head as nat, i as nat)));
        index += 1;
    }
    push_char(&mut bar, ']');
    assert(bar@ =~= pulse_bar(tick as nat));
    bar
}

/// The pulsing bar always shows its head: the `>` sits in the bar for the first
/// `PROGRESS_BAR_WIDTH` steps of every cycle.
pub proof fn lemma_pulse_head_visible(tick: nat)
    requires
        (tick % ((PROGRESS_BAR_WIDTH + PROGRESS_PULSE_WIDTH) as nat)) < PROGRESS_BAR_WIDTH,
    ensures
        pulse_bar(tick).contains(pulse_char(0, 0)),
{
    let head = tick % (PROGRESS_BAR_WIDTH + PROGRESS_PULSE_WIDTH) as nat;
    assert(pulse_bar(tick)[(head + 1) as int] == pulse_char(0, 0));
}


// ---------------------------------------------------------------- cargo's JSON messages

/// An optional string as plain values.
pub open spec fn opt_text(o: Option<String>) -> Option<Seq<char>> {
    match o {
        Some(s) => Some(s@),
        None => None,
    }
}

/// A cargo JSON message as plain values: its `reason`, its `package_id` and
/// its `message.rendered`, each where it is a string.
pub type CargoMessageV = (Option<Seq<char>>, Option<Seq<char>>, Option<Seq<char>>);

/// The plain values of a parsed cargo message.
pub open spec fn message_view(m: (Option<String>, Option<String>, Option<String>)) -> CargoMessageV {
    (opt_text(m.0), opt_text(m.1), opt_text(m.2))
}

/// What serde_json reads from a line of cargo's JSON output: `None` when the
/// line is not JSON, else the three fields the progress reads.
pub uninterp spec fn cargo_message_of(line: Seq<char>) -> Option<CargoMessageV>;

/// Parses a line of cargo's JSON output with `serde_json::from_str` into a
/// `Value` and picks its `reason`, `package_id` and `message.rendered`, each
/// where it is a string (`Value::get`, `Value::as_str`). The contract names
/// the result and states nothing more of serde_json's parsing.
#[verifier::external_body]
pub(crate) fn parse_cargo_message(line: &str) -> (r: Option<(Option<String>, Option<String>, Option<String>)>)
    ensures
        match r {
            Some(m) => cargo_message_of(line@) == Some(message_view(m)),
            None => cargo_message_of(line@) is None,
        },
{
    let value = serde_json::from_str::<serde_json::Value>(line).ok()?;
    let text = |v: Option<&serde_json::Value>| v.and_then(serde_json::Value::as_str).map(str::to_string);
    Some((
        text(value.get("reason")),
        text(value.get("package_id")),
        text(value.get("message").and_then(|message| message.get("rendered"))),
    ))
}

/// One line of cargo's JSON output, from the packages seen so far and the
/// output kept to replay: a blank line is skipped; a line that is not JSON is
/// kept with its line break; a `compiler-artifact` of a package not seen
/// before records it and shows the number of packages built, at most
/// `total`; a `compiler-message` keeps its rendered text; anything else is
/// dropped. The last part is the count shown, when one is.
pub open spec fn cargo_line_next(
    line: Seq<char>,
    parsed: Option<CargoMessageV>,
    total: nat,
    seen: Seq<Seq<char>>,
    replay: Seq<char>,
) -> (Seq<Seq<char>>, Seq<char>, Option<nat>) {
    if trim(line).len() == 0 {
        (seen, replay, None)
    } else {
        match parsed {
            None => (seen, replay + line + "\n"@, None),
            Some((reason, package, rendered)) => if reason == Some("compiler-artifact"@) {
                match package {
                    None => (seen, replay, None),
                    Some(p) => if seen.contains(p) {
                        (seen, replay, None)
                    } else {
                        let now = seen.push(p);
                        (now, replay, Some(if now.len() < total { now.len() } else { total }))
                    },
                }
            } else if reason == Some("compiler-message"@) {
                (seen, replay + match rendered {
                    Some(t) => t,
                    None => Seq::empty(),
                }, None)
            } else {
                (seen, replay, None)
            },
        }
    }
}

fn opt_is(o: &Option<String>, text: &str) -> (r: bool)
    ensures
        r == (opt_text(*o) == Some(text@)),
{
    match o {
        Some(s) => str_eq(s.as_str(), text),
        None => false,
    }
}

fn seen_contains(seen: &Vec<String>, p: &str) -> (r: bool)
    ensures
        r == views(seen@).contains(p@),
{
    let mut i: usize = 0;
    while i < seen.len()
        invariant
            i <= seen@.len(),
            forall|k: int| 0 <= k < i ==> seen@[k]@ != p@,
        decreases seen@.len() - i,
    {
        if str_eq(seen[i].as_str(), p) {
            assert(views(seen@)[i as int] == p@);
            return true;
        }
        i += 1;
    }
    assert(!views(seen@).contains(p@)) by {
        if views(seen@).contains(p@) {
            let k = choose|k: int| 0 <= k < views(seen@).len() && views(seen@)[k] == p@;
            assert(seen@[k]@ == p@);
        }
    }
    false
}

/// One line of cargo's JSON output, given what `parse_cargo_message` made of
/// it (see `cargo_line_next`): updates the packages seen and the output to
/// replay, and returns the count to show.
pub fn cargo_line_step(
    line: &str,
    parsed: Option<(Option<String>, Option<String>, Option<String>)>,
    total: usize,
    seen: &mut Vec<String>,
    replay: &mut String,
) -> (shown: Option<usize>)
    ensures
        ({
            let n = cargo_line_next(line@, match parsed {
                Some(m) => Some(message_view(m)),
                None => None,
            }, total as nat, views(old(seen)@), old(replay)@);
            &&& views(final(seen)@) == n.0
            &&& final(replay)@ == n.1
            &&& match shown {
                Some(k) => n.2 == Some(k as nat),
                None => n.2 is None,
            }
        }),
{
    if trimmed(&chars_of(line)).len() == 0 {
        return None;
    }
    match parsed {
        None => {
            push_str(replay, line);
            push_str(replay, "\n");
            None
        },
        Some((reason, package, rendered)) => {
            if opt_is(&reason, "compiler-artifact") {
                match package {
                    None => None,
                    Some(p) => {
                        if seen_contains(seen, p.as_str()) {
                            None
                        } else {
                            let ghost before = views(seen@);
                            let ghost pv = p@;
                            seen.push(p);
                            assert(views(seen@) =~= before.push(pv));
                            let n = seen.len();
                            Some(if n < total { n } else { total })
                        }
                    },
                }
            } else if opt_is(&reason, "compiler-message") {
                match rendered {
                    Some(t) => push_str(replay, t.as_str()),
                    None => {
                        assert(replay@ + Seq::<char>::empty() =~= replay@);
                    },
                }
                None
            } else {
                None
            }
        },
    }
}

/// The count shown as a plain value.
pub open spec fn shown_view(o: Option<usize>) -> Option<nat> {
    match o {
        Some(k) => Some(k as nat),
        None => None,
    }
}

/// One line of cargo's JSON output (see `cargo_line_next`), parsed with
/// serde_json: updates the packages seen and the output to replay, and
/// returns the count to show.
pub fn read_cargo_json_line(line: &str, total: usize, seen: &mut Vec<String>, replay: &mut String) -> (shown: Option<
    usize,
>)
    ensures
        ({
            let n = cargo_line_next(line@, cargo_message_of(line@), total as nat, views(old(seen)@), old(replay)@);
            &&& views(final(seen)@) == n.0
            &&& final(replay)@ == n.1
            &&& shown_view(shown) == n.2
        }),
{
    let parsed = parse_cargo_message(line);
    cargo_line_step(line, parsed, total, seen, replay)
}

/// Cargo's JSON output line by line: the packages seen, the output kept to
/// replay, and each count shown, in order.
pub open spec fn cargo_lines_fold(ls: Seq<Seq<char>>, total: nat) -> (Seq<Seq<char>>, Seq<char>, Seq<nat>)
    decreases ls.len(),
{
    if ls.len() == 0 {
        (seq![], seq![], seq![])
    } else {
        let (seen, replay, shown) = cargo_lines_fold(ls.drop_last(), total);
        let n = cargo_line_next(ls.last(), cargo_message_of(ls.last()), total, seen, replay);
        (n.0, n.1, match n.2 {
            Some(k) => shown.push(k),
            None => shown,
        })
    }
}

/// Reads cargo's JSON output (see `cargo_lines_fold`): the output to replay
/// and the counts to show, in order.
pub fn read_cargo_json(lines: &Vec<String>, total: usize) -> (r: (String, Vec<usize>))
    ensures
        r.0@ == cargo_lines_fold(views(lines@), total as nat).1,
        r.1@.map_values(|k: usize| k as nat) == cargo_lines_fold(views(lines@), total as nat).2,
{
    let ghost lv = views(lines@);
    let mut seen: Vec<String> = Vec::new();
    let mut replay = String::new();
    let mut shown: Vec<usize> = Vec::new();
    let mut i: usize = 0;
    assert(views(seen@) =~= Seq::<Seq<char>>::empty());
    assert(shown@.map_values(|k: usize| k as nat) =~= Seq::<nat>::empty());
    while i < lines.len()
        invariant
            i <= lines@.len(),
            lv == views(lines@),
            (views(seen@), replay@, shown@.map_values(|k: usize| k as nat)) == cargo_lines_fold(lv.take(i as int), total as nat),
        decreases lines@.len() - i,
    {
        assert(lv.take(i + 1).drop_last() =~= lv.take(i as int));
        assert(lv.take(i + 1).last() == lines@[i as int]@);
        let ghost before = shown@.map_values(|k: usize| k as nat);
        match read_cargo_json_line(lines[i].as_str(), total, &mut seen, &mut replay) {
            Some(k) => {
                shown.push(k);
                assert(shown@.map_values(|k: usize| k as nat) =~= before.push(k as nat));
            },
            None => {},
        }
        i += 1;
    }
    assert(lv.take(lv.len() as int) =~= lv);
    (replay, shown)
}

} // verus!

verus! {

/// What was read from a command's standard output.
pub enum StdoutRead {
    /// The output as it came, when no compile progress is shown.
    Raw(Vec<u8>),
    /// Cargo's JSON output, read for the compile progress: the output to
    /// replay and the counts shown, in order.
    Cargo(String, Vec<usize>),
}

/// The error of output that cannot be read by lines.
pub open spec fn not_utf8_error() -> Seq<char> {
    "stream did not contain valid UTF-8"@
}

fn copy_bytes(b: &[u8]) -> (r: Vec<u8>)
    ensures
        r@ == b@,
{
    let mut r: Vec<u8> = Vec::new();
    let mut i: usize = 0;
    while i < b.len()
        invariant
            i <= b@.len(),
            r@ == b@.take(i as int),
        decreases b@.len() - i,
    {
        r.push(b[i]);
        assert(b@.take(i + 1) =~= b@.take(i as int).push(b@[i as int]));
        i += 1;
    }
    assert(b@.take(b@.len() as int) =~= b@);
    r
}

/// Reads a command's standard output: as it came when no compile progress
/// is shown; else (`cargo_total`: the packages the compile builds) line by
/// line as cargo's JSON output (see `cargo_lines_fold`), where output that
/// is not UTF-8 cannot be read by lines and is an error.
pub fn read_stdout(output: &[u8], cargo_total: Option<usize>) -> (r: Result<StdoutRead, String>)
    ensures
        match cargo_total {
            None => r matches Ok(StdoutRead::Raw(b)) && b@ == output@,
            Some(total) => if vstd::utf8::valid_utf8(output@) {
                let folded = cargo_lines_fold(lines(vstd::utf8::decode_utf8(output@)), total as nat);
                r matches Ok(StdoutRead::Cargo(replay, shown)) && replay@ == folded.1 && shown@.map_values(
                    |k: usize| k as nat,
                ) == folded.2
            } else {
                r matches Err(e) && e@ == not_utf8_error()
            },
        },
{
    let total = match cargo_total {
        None => return Ok(StdoutRead::Raw(copy_bytes(output))),
        Some(total) => total,
    };
    let text = match utf8_text(output) {
        Some(text) => text,
        None => {
            proof {
                reveal_strlit("stream did not contain valid UTF-8");
            }
            return Err(to_owned_string("stream did not contain valid UTF-8"));
        },
    };
    let parts = lines_of(text.as_str());
    let mut strings: Vec<String> = Vec::new();
    let mut i: usize = 0;
    while i < parts.len()
        invariant
            i <= parts@.len(),
            views(strings@) == vviews(parts@).take(i as int),
        decreases parts@.len() - i,
    {
        let ghost before = views(strings@);
        let s = string_of(&parts[i]);
        strings.push(s);
        assert(views(strings@) =~= before.push(parts@[i as int]@));
        assert(vviews(parts@).take(i + 1) =~= vviews(parts@).take(i as int).push(parts@[i as int]@));
        i += 1;
    }
    assert(vviews(parts@).take(parts@.len() as int) =~= vviews(parts@));
    let (replay, shown) = read_cargo_json(&strings, total);
    Ok(StdoutRead::Cargo(replay, shown))
}

} // verus!
