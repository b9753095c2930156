//! macOS: the output of `vm_stat`.
use vstd::prelude::*;
use crate::dev_server::{first_occurrence, lemma_first_occurrence};
use crate::text::{
    chars_of, first_index_of, first_token, lines, lines_of, parse_unsigned, parse_unsigned_chars,
    slice_chars, token_at, trim, trim_bounds, vec_eq, vec_find, vec_find_char, vviews, CharClass,
    occurs_at, contains,
};

verus! {

/// The marker before the page size on `vm_stat`'s first line.
pub open spec fn page_size_marker() -> Seq<char> {
    "page size of "@
}

/// What follows the first page-size marker, up to the next one (the second
/// piece of a split at the marker), if there is a marker.
pub open spec fn page_size_piece(line: Seq<char>) -> Option<Seq<char>> {
    match first_occurrence(line, page_size_marker()) {
        None => None,
        Some(i) => {
            let after = line.skip(i + page_size_marker().len());
            Some(match first_occurrence(after, page_size_marker()) {
                Some(j) => after.take(j),
                None => after,
            })
        },
    }
}

/// The page size `vm_stat` states on its first line: the first word after the
/// marker, read as a `u64`.
pub open spec fn page_size_of(line: Seq<char>) -> Option<nat> {
    match page_size_piece(line) {
        None => None,
        Some(piece) => parse_unsigned(first_token(piece, CharClass::Whitespace), 0xffff_ffff_ffff_ffff),
    }
}

/// `s` without its trailing dots.
pub open spec fn trim_end_dots(s: Seq<char>) -> Seq<char>
    decreases s.len(),
{
    if s.len() > 0 && s.last() == '.' {
        trim_end_dots(s.drop_last())
    } else {
        s
    }
}

/// The page count of a line naming free, inactive or speculative pages
/// (`Pages free: 256.`), if its count reads as a `u64`.
pub open spec fn page_count_line(line: Seq<char>) -> Option<nat> {
    match first_index_of(line, ':') {
        None => None,
        Some(c) => {
            let name = line.take(c);
            if name == "Pages free"@ || name == "Pages inactive"@ || name == "Pages speculative"@ {
                parse_unsigned(trim_end_dots(trim(line.skip(c + 1))), 0xffff_ffff_ffff_ffff)
            } else {
                None
            }
        },
    }
}

/// The page counts that a run of lines states, in order.
pub open spec fn page_counts(ls: Seq<Seq<char>>) -> Seq<nat>
    decreases ls.len(),
{
    if ls.len() == 0 {
        Seq::empty()
    } else {
        match page_count_line(ls.last()) {
            Some(n) => page_counts(ls.drop_last()).push(n),
            None => page_counts(ls.drop_last()),
        }
    }
}

/// The sum of a run of counts.
pub open spec fn total(s: Seq<nat>) -> nat
    decreases s.len(),
{
    if s.len() == 0 {
        0
    } else {
        total(s.drop_last()) + s.last()
    }
}

/// The available memory, in whole MiB, that `vm_stat` reports: the free,
/// inactive and speculative pages times the page size; nothing when either is
/// missing or a `u64` cannot hold them.
pub open spec fn vm_stat_available(output: Seq<char>) -> Option<nat> {
    let ls = lines(output);
    if ls.len() == 0 {
        None
    } else {
        match page_size_of(ls[0]) {
            None => None,
            Some(page) => {
                let counts = page_counts(ls.skip(1));
                let pages = total(counts);
                if counts.len() == 0 || pages > 0xffff_ffff_ffff_ffff || pages * page > 0xffff_ffff_ffff_ffff {
                    None
                } else {
                    Some(pages * page / 1048576)
                }
            },
        }
    }
}

proof fn lemma_counts_step(ls: Seq<Seq<char>>, i: int)
    requires
        0 <= i < ls.len(),
    ensures
        page_counts(ls.take(i + 1)) == (match page_count_line(ls[i]) {
            Some(n) => page_counts(ls.take(i)).push(n),
            None => page_counts(ls.take(i)),
        }),
        total(page_counts(ls.take(i + 1))) == total(page_counts(ls.take(i))) + match page_count_line(ls[i]) {
            Some(n) => n,
            None => 0,
        },
{
    let t = ls.take(i + 1);
    assert(t.drop_last() =~= ls.take(i));
    assert(t.last() == ls[i]);
    match page_count_line(ls[i]) {
        Some(n) => {
            let p = page_counts(ls.take(i));
            assert(p.push(n).drop_last() =~= p);
        },
        None => {},
    }
}

proof fn lemma_counts_prefix_total(ls: Seq<Seq<char>>, i: int)
    requires
        0 <= i <= ls.len(),
    ensures
        total(page_counts(ls.take(i))) <= total(page_counts(ls)),
    decreases ls.len() - i,
{
    if i < ls.len() {
        lemma_counts_prefix_total(ls, i + 1);
        lemma_counts_step(ls, i);
    } else {
        assert(ls.take(i) =~= ls);
    }
}


fn trim_end_dots_len(v: &Vec<char>, n: usize) -> (m: usize)
    requires
        n <= v@.len(),
    ensures
        m <= n,
        trim_end_dots(v@.take(n as int)) == v@.take(m as int),
{
    let mut m = n;
    while m > 0 && v[m - 1] == '.'
        invariant
            m <= n <= v@.len(),
            trim_end_dots(v@.take(n as int)) == trim_end_dots(v@.take(m as int)),
        decreases m,
    {
        assert(v@.take(m as int).drop_last() =~= v@.take(m - 1));
        m -= 1;
    }
    m
}

fn page_count_of(line: &Vec<char>) -> (r: Option<u64>)
    ensures
        match page_count_line(line@) {
            Some(n) => r == Some(n as u64),
            None => r is None,
        },
{
    let c = match vec_find_char(line, ':') {
        None => return None,
        Some(c) => c,
    };
    let name = slice_chars(line, 0, c);
    assert(name@ =~= line@.take(c as int));
    if !(vec_eq(&name, &chars_of("Pages free")) || vec_eq(&name, &chars_of("Pages inactive")) || vec_eq(
        &name,
        &chars_of("Pages speculative"),
    )) {
        return None;
    }
    let rest = slice_chars(line, c + 1, line.len());
    assert(rest@ =~= line@.skip(c + 1));
    let (a, b) = trim_bounds(&rest);
    let value = slice_chars(&rest, a, b);
    let m = trim_end_dots_len(&value, value.len());
    assert(value@.take(value@.len() as int) =~= value@);
    let digits = slice_chars(&value, 0, m);
    assert(digits@ =~= value@.take(m as int));
    parse_unsigned_chars(&digits, 0xffff_ffff_ffff_ffff)
}

fn page_size_in(line: &Vec<char>) -> (r: Option<u64>)
    ensures
        match page_size_of(line@) {
            Some(n) => r == Some(n as u64),
            None => r is None,
        },
{
    let marker = chars_of("page size of ");
    let i = match vec_find(line, &marker) {
        None => return None,
        Some(i) => i,
    };
    proof {
        lemma_first_occurrence(line@, page_size_marker(), i as int);
    }
    let n = line.len();
    assert(occurs_at(line@, marker@, i as int));
    let after = slice_chars(line, i + marker.len(), n);
    assert(after@ =~= line@.skip(i + page_size_marker().len()));
    let piece = match vec_find(&after, &marker) {
        Some(j) => {
            proof {
                lemma_first_occurrence(after@, page_size_marker(), j as int);
            }
            assert(occurs_at(after@, marker@, j as int));
            let p = slice_chars(&after, 0, j);
            assert(p@ =~= after@.take(j as int));
            p
        },
        None => after,
    };
    let (a, b) = token_at(&piece, 0, CharClass::Whitespace);
    assert(piece@.subrange(0, piece@.len() as int) =~= piece@);
    let word = slice_chars(&piece, a, b);
    parse_unsigned_chars(&word, 0xffff_ffff_ffff_ffff)
}

/// The sum of the page counts of `ls[from..]`, and whether there was one;
/// `None` when the sum overflows a `u64`.
fn count_pages(ls: &Vec<Vec<char>>, from: usize) -> (r: Option<(u64, bool)>)
    requires
        from <= ls@.len(),
    ensures
        match r {
            Some((sum, found)) => sum as nat == total(page_counts(vviews(ls@).skip(from as int)))
                && found == (page_counts(vviews(ls@).skip(from as int)).len() > 0),
            None => total(page_counts(vviews(ls@).skip(from as int))) > 0xffff_ffff_ffff_ffff,
        },
{
    let ghost rest = vviews(ls@).skip(from as int);
    let mut acc: u64 = 0;
    let mut found = false;
    let mut i: usize = from;
    assert(rest.take(0) =~= Seq::<Seq<char>>::empty());
    while i < ls.len()
        invariant
            from <= i <= ls@.len(),
            rest == vviews(ls@).skip(from as int),
            acc as nat == total(page_counts(rest.take(i - from))),
            found == (page_counts(rest.take(i - from)).len() > 0),
        decreases ls.len() - i,
    {
        proof {
            assert(rest[i - from] == ls@[i as int]@);
            lemma_counts_step(rest, i - from);
        }
        match page_count_of(&ls[i]) {
            Some(n) => {
                found = true;
                match acc.checked_add(n) {
                    Some(s) => acc = s,
                    None => {
                        proof {
                            lemma_counts_prefix_total(rest, i - from + 1);
                        }
                        return None;
                    },
                }
            },
            None => {},
        }
        i += 1;
    }
    assert(rest.take(ls@.len() - from) =~= rest);
    Some((acc, found))
}

/// The available memory in MiB that `vm_stat` reports (see `vm_stat_available`).
pub fn parse_available_memory_mb(output: &str) -> (r: Option<u64>)
    ensures
        match vm_stat_available(output@) {
            Some(n) => r == Some(n as u64),
            None => r is None,
        },
{
    let ls = lines_of(output);
    if ls.len() == 0 {
        return None;
    }
    let page = match page_size_in(&ls[0]) {
        None => return None,
        Some(p) => p,
    };
    assert(vviews(ls@)[0] == ls@[0]@);
    match count_pages(&ls, 1) {
        None => None,
        Some((pages, found)) => {
            if !found {
                return None;
            }
            match pages.checked_mul(page) {
                Some(bytes) => Some(bytes / 1_048_576),
                None => None,
            }
        },
    }
}


/// The name of this operating system in the console's reports.
pub fn os_name() -> (r: &'static str)
    ensures
        r@ == "macos"@,
{
    "macos"
}

} // verus!
