//! Character classes and index arithmetic over one line of text.

use vstd::prelude::*;
use vstd::string::*;

verus! {

/// The kinds of character runs that the line patterns are built from.
#[derive(Clone, Copy, PartialEq, Eq, Debug)]
pub enum Run {
    /// Horizontal or vertical white space.
    Space,
    /// Letters, digits and underscore.
    Word,
    /// The comment marker character `-`.
    Dash,
    /// A class name: word characters and the namespace separator `.`.
    ClassName,
    /// A function path: word characters and the separators `.` and `:`.
    Path,
}

pub open spec fn is_space(c: char) -> bool {
    c == ' ' || c == '\t' || c == '\n' || c == '\r' || c == '\x0B' || c == '\x0C'
}

pub open spec fn is_word(c: char) -> bool {
    ('a' <= c && c <= 'z') || ('A' <= c && c <= 'Z') || ('0' <= c && c <= '9') || c == '_'
}

pub open spec fn is_sep(c: char) -> bool {
    c == '.' || c == ':'
}

pub open spec fn in_run(k: Run, c: char) -> bool {
    match k {
        Run::Space => is_space(c),
        Run::Word => is_word(c),
        Run::Dash => c == '-',
        Run::ClassName => is_word(c) || c == '.',
        Run::Path => is_word(c) || is_sep(c),
    }
}

/// The end of the longest run of `k` characters that starts at `i` and stays below `hi`.
pub open spec fn run_end(s: Seq<char>, i: int, hi: int, k: Run) -> int
    decreases hi - i,
{
    if 0 <= i < hi && hi <= s.len() && in_run(k, s[i]) {
        run_end(s, i + 1, hi, k)
    } else {
        i
    }
}

/// The end of `s[lo..hi]` once trailing white space is cut off (never below `lo`).
pub open spec fn trim_back(s: Seq<char>, lo: int, hi: int) -> int
    decreases hi - lo,
{
    if lo < hi && 0 < hi <= s.len() && is_space(s[hi - 1]) {
        trim_back(s, lo, hi - 1)
    } else {
        hi
    }
}

/// Where the trimmed text of a line starts.
pub open spec fn trim_lo(s: Seq<char>) -> int {
    run_end(s, 0, s.len() as int, Run::Space)
}

/// Where the trimmed text of a line ends.
pub open spec fn trim_hi(s: Seq<char>) -> int {
    trim_back(s, trim_lo(s), s.len() as int)
}

/// `lit` stands in `s` at index `i`, wholly below `hi`.
pub open spec fn has_at(s: Seq<char>, i: int, hi: int, lit: Seq<char>) -> bool {
    0 <= i && i + lit.len() <= hi && hi <= s.len() && s.subrange(i, i + lit.len()) == lit
}

pub fn char_in_run(k: Run, c: char) -> (r: bool)
    ensures
        r == in_run(k, c),
{
    let word = ('a' <= c && c <= 'z') || ('A' <= c && c <= 'Z') || ('0' <= c && c <= '9') || c
        == '_';
    match k {
        Run::Space => c == ' ' || c == '\t' || c == '\n' || c == '\r' || c == '\x0B' || c == '\x0C',
        Run::Word => word,
        Run::Dash => c == '-',
        Run::ClassName => word || c == '.',
        Run::Path => word || c == '.' || c == ':',
    }
}

/// The characters of `line`, one per element.
pub fn chars_of(line: &str) -> (r: Vec<char>)
    ensures
        r@ == line@,
{
    let n = line.unicode_len();
    let mut r: Vec<char> = Vec::new();
    let mut i: usize = 0;
    while i < n
        invariant
            n == line@.len(),
            i <= n,
            r@ == line@.subrange(0, i as int),
        decreases n - i,
    {
        let c = line.get_char(i);
        r.push(c);
        i = i + 1;
        assert(r@ =~= line@.subrange(0, i as int));
    }
    assert(r@ =~= line@);
    r
}

/// Executable `run_end`.
pub fn scan_run(s: &Vec<char>, i: usize, hi: usize, k: Run) -> (r: usize)
    requires
        i <= hi <= s@.len(),
    ensures
        r == run_end(s@, i as int, hi as int, k),
        i <= r <= hi,
{
    let mut j: usize = i;
    while j < hi && char_in_run(k, s[j])
        invariant
            i <= j <= hi,
            hi <= s@.len(),
            run_end(s@, i as int, hi as int, k) == run_end(s@, j as int, hi as int, k),
        decreases hi - j,
    {
        j = j + 1;
    }
    j
}

/// Executable `trim_back`.
pub fn scan_back(s: &Vec<char>, lo: usize, hi: usize) -> (r: usize)
    requires
        lo <= hi <= s@.len(),
    ensures
        r == trim_back(s@, lo as int, hi as int),
        lo <= r <= hi,
{
    let mut j: usize = hi;
    while j > lo && char_in_run(Run::Space, s[j - 1])
        invariant
            lo <= j <= hi,
            hi <= s@.len(),
            trim_back(s@, lo as int, hi as int) == trim_back(s@, lo as int, j as int),
        decreases j - lo,
    {
        j = j - 1;
    }
    j
}

/// Executable `has_at`.
pub fn text_at(s: &Vec<char>, i: usize, hi: usize, lit: &str) -> (r: bool)
    requires
        hi <= s@.len(),
    ensures
        r == has_at(s@, i as int, hi as int, lit@),
{
    let n = lit.unicode_len();
    if n > hi || i > hi - n {
        return false;
    }
    let mut j: usize = 0;
    while j < n
        invariant
            n == lit@.len(),
            i + n <= hi <= s@.len(),
            j <= n,
            forall|t: int| 0 <= t < j ==> s@[i + t] == lit@[t],
        decreases n - j,
    {
        if s[i + j] != lit.get_char(j) {
            assert(s@.subrange(i as int, i + n)[j as int] != lit@[j as int]);
            return false;
        }
        j = j + 1;
    }
    assert(s@.subrange(i as int, i + n) =~= lit@);
    true
}

} // verus!
