//! Removing terminal escape sequences from captured output.
use vstd::prelude::*;
use crate::text::{chars_of, push_char};
use ansi_to_tui::IntoText;

verus! {

/// What `ansi_to_tui` parses `raw` into: for each line, the text of each of
/// its spans; `None` when it cannot parse it.
pub uninterp spec fn ansi_spans(raw: Seq<char>) -> Option<Seq<Seq<Seq<char>>>>;

/// The views of parsed lines of span texts.
pub open spec fn spans_view(v: Seq<Vec<String>>) -> Seq<Seq<Seq<char>>> {
    v.map_values(|line: Vec<String>| line@.map_values(|s: String| s@))
}

/// `ansi_to_tui`'s parse of `raw` (`IntoText::into_text`), each line as the
/// texts of its spans.
///
/// Trusted: the result is `ansi_spans(raw@)`, a function of the input alone;
/// nothing is stated about what that parse computes.
#[verifier::external_body]
fn parse_ansi(raw: &str) -> (r: Option<Vec<Vec<String>>>)
    ensures
        match r {
            Some(v) => ansi_spans(raw@) == Some(spans_view(v@)),
            None => ansi_spans(raw@) is None,
        },
{
    match raw.into_text() {
        Ok(text) => Some(
            text.lines.iter().map(|line| line.spans.iter().map(|span| span.content.to_string()).collect()).collect(),
        ),
        Err(_) => None,
    }
}

/// All span texts of all lines, concatenated.
pub open spec fn concat_spans(lines: Seq<Seq<Seq<char>>>) -> Seq<char>
    decreases lines.len(),
{
    if lines.len() == 0 {
        Seq::empty()
    } else {
        concat_spans(lines.drop_last()) + concat_texts(lines.last())
    }
}

/// Texts concatenated.
pub open spec fn concat_texts(texts: Seq<Seq<char>>) -> Seq<char>
    decreases texts.len(),
{
    if texts.len() == 0 {
        Seq::empty()
    } else {
        concat_texts(texts.drop_last()) + texts.last()
    }
}

/// The plain text that `ansi_to_tui` recovers from `raw`: every span of every
/// parsed line, concatenated; `raw` itself when it cannot be parsed.
pub open spec fn ansi_plain(raw: Seq<char>) -> Seq<char> {
    match ansi_spans(raw) {
        Some(lines) => concat_spans(lines),
        None => raw,
    }
}

/// Plain text of `raw` with its ANSI styling removed (see `ansi_plain`).
pub fn strip_ansi(raw: &str) -> (r: String)
    ensures
        r@ == ansi_plain(raw@),
{
    match parse_ansi(raw) {
        None => crate::text::to_owned_string(raw),
        Some(lines) => {
            let ghost lv = spans_view(lines@);
            let mut r = String::new();
            let mut i: usize = 0;
            while i < lines.len()
                invariant
                    i <= lines@.len(),
                    lv == spans_view(lines@),
                    r@ == concat_spans(lv.take(i as int)),
                decreases lines.len() - i,
            {
                let ghost before = r@;
                let line = &lines[i];
                let ghost tv = lv[i as int];
                let mut j: usize = 0;
                while j < line.len()
                    invariant
                        j <= line@.len(),
                        tv == line@.map_values(|s: String| s@),
                        r@ == before + concat_texts(tv.take(j as int)),
                    decreases line.len() - j,
                {
                    crate::text::push_str(&mut r, line[j].as_str());
                    assert(tv.take(j + 1).drop_last() =~= tv.take(j as int));
                    j += 1;
                }
                assert(tv.take(line@.len() as int) =~= tv);
                assert(lv.take(i + 1).drop_last() =~= lv.take(i as int));
                i += 1;
            }
            assert(lv.take(lines@.len() as int) =~= lv);
            r
        },
    }
}


/// A final byte of a CSI escape sequence (`'@'..='~'`).
pub open spec fn is_csi_final(c: char) -> bool {
    '@' <= c && c <= '~'
}

/// The index just past the final byte of a CSI sequence whose parameters start at `i`.
pub open spec fn csi_end(s: Seq<char>, i: int) -> int
    decreases s.len() - i,
{
    if i >= s.len() {
        i
    } else if is_csi_final(s[i]) {
        i + 1
    } else {
        csi_end(s, i + 1)
    }
}

/// `csi_end` never moves backwards and stays within the text.
pub proof fn lemma_csi_end_bounds(s: Seq<char>, i: int)
    requires
        0 <= i,
    ensures
        csi_end(s, i) >= i,
        i <= s.len() ==> csi_end(s, i) <= s.len(),
    decreases s.len() - i,
{
    if i < s.len() && !is_csi_final(s[i]) {
        lemma_csi_end_bounds(s, i + 1);
    }
}

/// `s[i..]` with every `ESC [ ... final` sequence removed.
pub open spec fn strip_codes_from(s: Seq<char>, i: int) -> Seq<char>
    decreases s.len() - i,
{
    if i < 0 || i >= s.len() {
        seq![]
    } else if s[i] == '\x1b' && i + 1 < s.len() && s[i + 1] == '[' {
        proof {
            lemma_csi_end_bounds(s, i + 2);
        }
        strip_codes_from(s, csi_end(s, i + 2))
    } else {
        seq![s[i]] + strip_codes_from(s, i + 1)
    }
}

/// `input` with every CSI escape sequence (`ESC [`, parameters, a final byte in
/// `'@'..='~'`) removed; an unterminated sequence swallows the rest of the input.
pub fn strip_ansi_codes(input: &str) -> (r: String)
    ensures
        r@ == strip_codes_from(input@, 0),
{
    let v = chars_of(input);
    let n = v.len();
    let mut out = String::new();
    let mut i: usize = 0;
    while i < n
        invariant
            n == v.len(),
            v@ == input@,
            i <= n,
            out@ + strip_codes_from(v@, i as int) == strip_codes_from(v@, 0),
        decreases n - i,
    {
        if v[i] == '\x1b' && i + 1 < n && v[i + 1] == '[' {
            let mut j = i + 2;
            proof {
                lemma_csi_end_bounds(v@, (i + 2) as int);
            }
            while j < n && !('@' <= v[j] && v[j] <= '~')
                invariant
                    i + 2 <= j <= n == v.len(),
                    csi_end(v@, (i + 2) as int) == csi_end(v@, j as int),
                decreases n - j,
            {
                j += 1;
            }
            if j < n {
                j += 1;
            }
            i = j;
        } else {
            push_char(&mut out, v[i]);
            assert(out@ + strip_codes_from(v@, i + 1) =~= (out@.drop_last()) + (seq![v@[i as int]]
                + strip_codes_from(v@, i + 1)));
            i += 1;
        }
    }
    assert(out@ + seq![] =~= out@);
    out
}

} // verus!
