//! Linux: `/proc/meminfo`.
use vstd::prelude::*;
use crate::text::{
    chars_of, ends_with, lines, lines_of, parse_unsigned, parse_unsigned_chars, slice_chars,
    starts_with, trim, trim_bounds, vec_ends_with, vec_starts_with, vviews,
};

verus! {

/// The available memory, in whole MiB, that one `/proc/meminfo` line states:
/// `MemAvailable:`, a `u64` count and `kB`, spaces allowed around them.
pub open spec fn mem_available_line(line: Seq<char>) -> Option<nat> {
    if starts_with(line, "MemAvailable:"@) {
        let value = trim(line.skip("MemAvailable:"@.len() as int));
        if ends_with(value, "kB"@) {
            match parse_unsigned(trim(value.take(value.len() - "kB"@.len())), 0xffff_ffff_ffff_ffff) {
                Some(kib) => Some(kib / 1024),
                None => None,
            }
        } else {
            None
        }
    } else {
        None
    }
}

/// The first line of `ls` that states the available memory, and what it states.
pub open spec fn first_mem_available(ls: Seq<Seq<char>>) -> Option<nat>
    decreases ls.len(),
{
    if ls.len() == 0 {
        None
    } else {
        match mem_available_line(ls[0]) {
            Some(n) => Some(n),
            None => first_mem_available(ls.drop_first()),
        }
    }
}

fn mem_available_of(line: &Vec<char>) -> (r: Option<u64>)
    ensures
        match mem_available_line(line@) {
            Some(n) => r == Some(n as u64),
            None => r is None,
        },
{
    let prefix = chars_of("MemAvailable:");
    if !vec_starts_with(line, &prefix) {
        return None;
    }
    let rest = slice_chars(line, prefix.len(), line.len());
    assert(rest@ =~= line@.skip("MemAvailable:"@.len() as int));
    let (a, b) = trim_bounds(&rest);
    let value = slice_chars(&rest, a, b);
    let unit = chars_of("kB");
    if !vec_ends_with(&value, &unit) {
        return None;
    }
    let number = slice_chars(&value, 0, value.len() - unit.len());
    assert(number@ =~= value@.take(value@.len() - "kB"@.len()));
    let (c, d) = trim_bounds(&number);
    let digits = slice_chars(&number, c, d);
    match parse_unsigned_chars(&digits, 0xffff_ffff_ffff_ffff) {
        Some(kib) => Some(kib / 1024),
        None => None,
    }
}

/// The available memory in MiB that `/proc/meminfo` states, from its first
/// line that states it (see `mem_available_line`).
pub fn parse_available_memory_mb(content: &str) -> (r: Option<u64>)
    ensures
        match first_mem_available(lines(content@)) {
            Some(n) => r == Some(n as u64),
            None => r is None,
        },
{
    let ls = lines_of(content);
    let ghost lv = vviews(ls@);
    let mut i: usize = 0;
    assert(lv.skip(0) =~= lv);
    while i < ls.len()

        invariant
            i <= ls@.len(),
            lv == vviews(ls@),
            lv == lines(content@),
            first_mem_available(lv) == first_mem_available(lv.skip(i as int)),
        decreases ls.len() - i,
    {
        let ghost rest = lv.skip(i as int);
        assert(rest[0] == ls@[i as int]@);
        assert(rest.drop_first() =~= lv.skip(i + 1));
        match mem_available_of(&ls[i]) {
            Some(n) => return Some(n),
            None => {},
        }
        i += 1;
    }
    None
}


/// The name of this operating system in the console's reports.
pub fn os_name() -> (r: &'static str)
    ensures
        r@ == "linux"@,
{
    "linux"
}

} // verus!
