//! The terminal modes a re-executed console hands to its successor: the four
//! flag words of the terminal's settings, written into an environment value
//! and read back, and the bits that restore cooked mode.
use vstd::prelude::*;
use crate::text::{
    all_digits, chars_of, dec, digit_char, digit_value, digits_value, is_digit, parse_unsigned, parse_unsigned_chars, push_str,
    split_char, split_chars, u64_to_string, unsigned_body, vviews,
};

verus! {

/// The four flag words of a terminal's settings.
#[derive(Clone, Copy, PartialEq, Eq, Structural, Debug)]
pub struct TermiosFlags {
    pub iflag: u64,
    pub oflag: u64,
    pub cflag: u64,
    pub lflag: u64,
}

/// The flag words in decimal, separated by commas: input, output, control, local.
pub open spec fn termios_text(t: TermiosFlags) -> Seq<char> {
    dec(t.iflag as nat) + ","@ + dec(t.oflag as nat) + ","@ + dec(t.cflag as nat) + ","@ + dec(t.lflag as nat)
}

/// The flag words as an environment value (see `termios_text`).
pub fn serialize_termios(t: &TermiosFlags) -> (r: String)
    ensures
        r@ == termios_text(*t),
{
    let mut r = u64_to_string(t.iflag);
    push_str(&mut r, ",");
    let o = u64_to_string(t.oflag);
    push_str(&mut r, o.as_str());
    push_str(&mut r, ",");
    let c = u64_to_string(t.cflag);
    push_str(&mut r, c.as_str());
    push_str(&mut r, ",");
    let l = u64_to_string(t.lflag);
    push_str(&mut r, l.as_str());
    r
}

/// What an environment value gives: exactly four comma-separated fields, each
/// an unsigned number no larger than `max` (the largest flag word).
pub open spec fn parsed_termios(raw: Seq<char>, max: nat) -> Option<TermiosFlags> {
    let fields = split_char(raw, ',');
    if fields.len() != 4 {
        None
    } else {
        match (
            parse_unsigned(fields[0], max),
            parse_unsigned(fields[1], max),
            parse_unsigned(fields[2], max),
            parse_unsigned(fields[3], max),
        ) {
            (Some(i), Some(o), Some(c), Some(l)) => Some(
                TermiosFlags { iflag: i as u64, oflag: o as u64, cflag: c as u64, lflag: l as u64 },
            ),
            _ => None,
        }
    }
}

/// Reads the flag words from an environment value (see `parsed_termios`).
pub fn parse_termios(raw: &str, max: u64) -> (r: Option<TermiosFlags>)
    ensures
        r == parsed_termios(raw@, max as nat),
{
    let fields = split_chars(&chars_of(raw), ',');
    if fields.len() != 4 {
        assert(vviews(fields@).len() == fields@.len());
        return None;
    }
    assert(vviews(fields@)[0] == fields@[0]@ && vviews(fields@)[1] == fields@[1]@);
    assert(vviews(fields@)[2] == fields@[2]@ && vviews(fields@)[3] == fields@[3]@);
    let i = parse_unsigned_chars(&fields[0], max);
    let o = parse_unsigned_chars(&fields[1], max);
    let c = parse_unsigned_chars(&fields[2], max);
    let l = parse_unsigned_chars(&fields[3], max);
    match (i, o, c, l) {
        (Some(i), Some(o), Some(c), Some(l)) => Some(TermiosFlags { iflag: i, oflag: o, cflag: c, lflag: l }),
        _ => None,
    }
}

/// The bits that put a terminal in cooked mode: canonical input, echo and
/// signals (local); flow control and CR-to-NL (input); output processing.
#[derive(Clone, Copy, PartialEq, Eq, Structural, Debug)]
pub struct CookedBits {
    pub lflag: u64,
    pub iflag: u64,
    pub oflag: u64,
}

/// The six mode flags of the C library that cooked mode sets.
#[derive(Clone, Copy, PartialEq, Eq, Structural, Debug)]
pub struct ModeFlags {
    pub icanon: u64,
    pub echo: u64,
    pub isig: u64,
    pub ixon: u64,
    pub icrnl: u64,
    pub opost: u64,
}

/// The platform C library's `ICANON`, `ECHO`, `ISIG`, `IXON`, `ICRNL` and
/// `OPOST` (libc's constants, which differ from one target to another, so
/// nothing is stated of their values).
#[verifier::external_body]
fn libc_mode_flags() -> (f: ModeFlags) {
    ModeFlags {
        icanon: libc::ICANON as u64,
        echo: libc::ECHO as u64,
        isig: libc::ISIG as u64,
        ixon: libc::IXON as u64,
        icrnl: libc::ICRNL as u64,
        opost: libc::OPOST as u64,
    }
}

/// The cooked-mode bits made of the mode flags `f`: canonical input, echo
/// and signals in the local word; flow control and CR-to-NL in the input
/// word; output processing in the output word.
pub fn cooked_bits_of(f: ModeFlags) -> (r: CookedBits)
    ensures
        r.lflag == f.icanon | f.echo | f.isig,
        r.iflag == f.ixon | f.icrnl,
        r.oflag == f.opost,
{
    CookedBits { lflag: f.icanon | f.echo | f.isig, iflag: f.ixon | f.icrnl, oflag: f.opost }
}

/// The cooked-mode bits of this platform's C library (see `cooked_bits_of`).
pub fn cooked_bits() -> (r: CookedBits)
    ensures
        exists|f: ModeFlags| {
            &&& r.lflag == f.icanon | f.echo | f.isig
            &&& r.iflag == f.ixon | f.icrnl
            &&& r.oflag == f.opost
        },
{
    let f = libc_mode_flags();
    cooked_bits_of(f)
}

/// The settings with the cooked-mode bits set; the control word is kept.
pub fn apply_cooked_flags(t: TermiosFlags, bits: CookedBits) -> (r: TermiosFlags)
    ensures
        r.lflag == t.lflag | bits.lflag,
        r.iflag == t.iflag | bits.iflag,
        r.oflag == t.oflag | bits.oflag,
        r.cflag == t.cflag,
{
    TermiosFlags { iflag: t.iflag | bits.iflag, oflag: t.oflag | bits.oflag, cflag: t.cflag, lflag: t.lflag | bits.lflag }
}


proof fn lemma_digit_char_value(d: nat)
    requires
        d < 10,
    ensures
        is_digit(digit_char(d)),
        digit_value(digit_char(d)) == d,
{
    assert(digit_char(d) as u32 == d + 48);
}

proof fn lemma_dec_reads_back(n: nat)
    ensures
        dec(n).len() >= 1,
        all_digits(dec(n)),
        digits_value(dec(n)) == n,
    decreases n,
{
    lemma_digit_char_value((n % 10) as nat);
    if n < 10 {
        assert(dec(n) =~= seq![digit_char(n)]);
        assert(dec(n).drop_last() =~= Seq::<char>::empty());
        assert(digits_value(dec(n)) == digits_value(dec(n).drop_last()) * 10 + digit_value(digit_char(n)));
    } else {
        lemma_dec_reads_back(n / 10);
        let d = dec(n);
        assert(d.drop_last() =~= dec(n / 10));
        assert(d.last() == digit_char(n % 10));
        assert(digits_value(d) == digits_value(dec(n / 10)) * 10 + digit_value(digit_char(n % 10)));
        assert forall|i: int| 0 <= i < d.len() implies is_digit(#[trigger] d[i]) by {
            if i < d.len() - 1 {
                assert(d[i] == dec(n / 10)[i]);
            }
        }
    }
}

proof fn lemma_split_without_separator(x: Seq<char>, c: char)
    requires
        !x.contains(c),
    ensures
        split_char(x, c) == seq![x],
    decreases x.len(),
{
    if x.len() == 0 {
        assert(x =~= Seq::<char>::empty());
        assert(split_char(x, c) =~= seq![x]);
    } else {
        let t = x.drop_first();
        assert(!t.contains(c)) by {
            if t.contains(c) {
                let i = choose|i: int| 0 <= i < t.len() && t[i] == c;
                assert(x[i + 1] == c);
            }
        }
        lemma_split_without_separator(t, c);
        assert(x[0] != c);
        assert(seq![x[0]] + t =~= x);
        assert(split_char(x, c) =~= seq![x]);
    }
}

proof fn lemma_split_at_separator(x: Seq<char>, c: char, y: Seq<char>)
    requires
        !x.contains(c),
    ensures
        split_char(x + seq![c] + y, c) == seq![x] + split_char(y, c),
    decreases x.len(),
{
    let s = x + seq![c] + y;
    if x.len() == 0 {
        assert(x =~= Seq::<char>::empty());
        assert(s[0] == c);
        assert(s.drop_first() =~= y);
        assert(seq![Seq::<char>::empty()] + split_char(y, c) =~= seq![x] + split_char(y, c));
    } else {
        let t = x.drop_first();
        assert(!t.contains(c)) by {
            if t.contains(c) {
                let i = choose|i: int| 0 <= i < t.len() && t[i] == c;
                assert(x[i + 1] == c);
            }
        }
        lemma_split_at_separator(t, c, y);
        assert(s[0] == x[0]);
        assert(x[0] != c);
        assert(s.drop_first() =~= t + seq![c] + y);
        assert(seq![x[0]] + t =~= x);
        assert(split_char(s, c) =~= seq![x] + split_char(y, c));
    }
}

proof fn lemma_field_reads_back(n: nat, max: nat)
    requires
        n <= max,
    ensures
        !dec(n).contains(','),
        parse_unsigned(dec(n), max) == Some(n),
{
    lemma_dec_reads_back(n);
    let d = dec(n);
    assert(!d.contains(',')) by {
        if d.contains(',') {
            let i = choose|i: int| 0 <= i < d.len() && d[i] == ',';
            assert(is_digit(d[i]));
        }
    }
    assert(is_digit(d[0]));
    assert(unsigned_body(d) == d);
}

/// The flag words read back from the value they were written to: writing a
/// terminal's settings and reading the value gives the same four words,
/// when each fits the platform's flag word.
pub proof fn lemma_termios_round_trip(t: TermiosFlags, max: nat)
    requires
        t.iflag <= max,
        t.oflag <= max,
        t.cflag <= max,
        t.lflag <= max,
    ensures
        parsed_termios(termios_text(t), max) == Some(t),
{
    reveal_strlit(",");
    let a = dec(t.iflag as nat);
    let b = dec(t.oflag as nat);
    let c = dec(t.cflag as nat);
    let d = dec(t.lflag as nat);
    lemma_field_reads_back(t.iflag as nat, max);
    lemma_field_reads_back(t.oflag as nat, max);
    lemma_field_reads_back(t.cflag as nat, max);
    lemma_field_reads_back(t.lflag as nat, max);
    let tail2 = c + seq![','] + d;
    let tail1 = b + seq![','] + tail2;
    assert(termios_text(t) =~= a + seq![','] + tail1);
    lemma_split_without_separator(d, ',');
    lemma_split_at_separator(c, ',', d);
    lemma_split_at_separator(b, ',', tail2);
    lemma_split_at_separator(a, ',', tail1);
    let fields = split_char(termios_text(t), ',');
    assert(fields =~= seq![a, b, c, d]);
}

} // verus!
