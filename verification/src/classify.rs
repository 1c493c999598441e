//! Classification of patcher output lines.
//!
//! The patcher process is chatty; only lifecycle milestone lines are surfaced
//! at informational severity, everything else is suppressed. Classification is
//! an allow-list over substrings, applied to a trimmed line. The module also
//! provides the verified trimming and substring search that the stream-drain
//! loop of the embedding application uses.

use vstd::prelude::*;
use vstd::string::StrSliceExecFns;

use crate::LogLevel;

verus! {

/// The characters that Rust's `char::is_whitespace` recognizes: the ASCII
/// whitespace control characters and space, and the Unicode `White_Space`
/// code points.
pub open spec fn is_space_char(c: char) -> bool {
    c == '\u{0009}' || c == '\u{000A}' || c == '\u{000B}' || c == '\u{000C}'
        || c == '\u{000D}' || c == ' ' || c == '\u{0085}' || c == '\u{00A0}'
        || c == '\u{1680}' || c == '\u{2000}' || c == '\u{2001}' || c == '\u{2002}'
        || c == '\u{2003}' || c == '\u{2004}' || c == '\u{2005}' || c == '\u{2006}'
        || c == '\u{2007}' || c == '\u{2008}' || c == '\u{2009}' || c == '\u{200A}'
        || c == '\u{2028}' || c == '\u{2029}' || c == '\u{202F}' || c == '\u{205F}'
        || c == '\u{3000}'
}

/// Executable test for `is_space_char`.
pub fn is_space(c: char) -> (r: bool)
    ensures
        r == is_space_char(c),
{
    c == '\u{0009}' || c == '\u{000A}' || c == '\u{000B}' || c == '\u{000C}'
        || c == '\u{000D}' || c == ' ' || c == '\u{0085}' || c == '\u{00A0}'
        || c == '\u{1680}' || c == '\u{2000}' || c == '\u{2001}' || c == '\u{2002}'
        || c == '\u{2003}' || c == '\u{2004}' || c == '\u{2005}' || c == '\u{2006}'
        || c == '\u{2007}' || c == '\u{2008}' || c == '\u{2009}' || c == '\u{200A}'
        || c == '\u{2028}' || c == '\u{2029}' || c == '\u{202F}' || c == '\u{205F}'
        || c == '\u{3000}'
}

/// A line is blank when every character is whitespace (an empty line is
/// blank).
pub open spec fn is_blank(s: Seq<char>) -> bool {
    forall|i: int| 0 <= i < s.len() ==> is_space_char(s[i])
}

/// `pat` occurs in `hay` starting at position `i`.
pub open spec fn match_at(hay: Seq<char>, pat: Seq<char>, i: int) -> bool {
    0 <= i && i + pat.len() <= hay.len() && hay.subrange(i, i + pat.len() as int) == pat
}

/// `pat` occurs somewhere in `hay`.
pub open spec fn contains_seq(hay: Seq<char>, pat: Seq<char>) -> bool {
    exists|i: int| match_at(hay, pat, i)
}

/// Compares `pat` against `hay` at position `i`, character by character.
fn match_prefix_at(hay: &str, pat: &str, i: usize) -> (r: bool)
    requires
        i + pat@.len() <= hay@.len(),
        hay@.len() <= usize::MAX,
        pat@.len() <= usize::MAX,
    ensures
        r == match_at(hay@, pat@, i as int),
{
    let m = pat.unicode_len();
    let mut k: usize = 0;
    while k < m
        invariant
            m == pat@.len(),
            i + m <= hay@.len() <= usize::MAX,
            0 <= k <= m,
            forall|t: int| 0 <= t < k ==> hay@[i + t] == pat@[t],
        decreases m - k,
    {
        if hay.get_char(i + k) != pat.get_char(k) {
            proof {
                if match_at(hay@, pat@, i as int) {
                    assert(hay@.subrange(i as int, i + m as int)[k as int] == hay@[i + k]);
                }
            }
            return false;
        }
        k += 1;
    }
    proof {
        assert(hay@.subrange(i as int, i + m as int) =~= pat@);
    }
    true
}

/// Substring search: whether `pat` occurs anywhere in `hay`.
pub fn contains_sub(hay: &str, pat: &str) -> (r: bool)
    ensures
        r == contains_seq(hay@, pat@),
{
    let n = hay.unicode_len();
    let m = pat.unicode_len();
    if m == 0 {
        proof {
            assert(hay@.subrange(0, 0) =~= pat@);
            assert(match_at(hay@, pat@, 0));
        }
        return true;
    }
    if m > n {
        proof {
            assert forall|j: int| !match_at(hay@, pat@, j) by {}
        }
        return false;
    }
    let mut i: usize = 0;
    while i <= n - m
        invariant
            n == hay@.len() <= usize::MAX,
            m == pat@.len(),
            1 <= m <= n,
            0 <= i <= n - m + 1,
            forall|j: int| 0 <= j < i ==> !match_at(hay@, pat@, j),
        decreases n - m + 1 - i,
    {
        if match_prefix_at(hay, pat, i) {
            return true;
        }
        i += 1;
    }
    proof {
        assert forall|j: int| !match_at(hay@, pat@, j) by {
            if 0 <= j < i {
                assert(!match_at(hay@, pat@, j));
            }
        }
    }
    false
}

/// `r` is `s` with its leading and trailing whitespace removed: the kept range
/// is flanked only by whitespace, and, unless it is empty, neither of its own
/// end characters is whitespace.
pub open spec fn trim_witness(r: Seq<char>, s: Seq<char>, a: int, b: int) -> bool {
    0 <= a <= b <= s.len() && r == s.subrange(a, b)
        && (forall|i: int| 0 <= i < a ==> is_space_char(s[i]))
        && (forall|i: int| b <= i < s.len() ==> is_space_char(s[i]))
        && (a == b || (!is_space_char(s[a]) && !is_space_char(s[b - 1])))
}

/// `r` is the trimmed form of `s`.
pub open spec fn is_trim_of(r: Seq<char>, s: Seq<char>) -> bool {
    exists|a: int, b: int| trim_witness(r, s, a, b)
}

/// Index of the first non-whitespace character, or `n` when the line is
/// blank.
fn scan_start(line: &str, n: usize) -> (a: usize)
    requires
        n == line@.len(),
    ensures
        0 <= a <= n,
        forall|i: int| 0 <= i < a ==> is_space_char(line@[i]),
        a < n ==> !is_space_char(line@[a as int]),
    decreases n,
{
    let mut a: usize = 0;
    while a < n
        invariant
            n == line@.len(),
            0 <= a <= n,
            forall|i: int| 0 <= i < a ==> is_space_char(line@[i]),
        decreases n - a,
    {
        if !is_space(line.get_char(a)) {
            return a;
        }
        a += 1;
    }
    n
}

/// One past the index of the last non-whitespace character, scanning down
/// from the end; `a` must be a known non-whitespace position.
fn scan_end(line: &str, n: usize, a: usize) -> (b: usize)
    requires
        n == line@.len(),
        a < n,
        !is_space_char(line@[a as int]),
    ensures
        a < b <= n,
        !is_space_char(line@[b - 1]),
        forall|i: int| b <= i < n ==> is_space_char(line@[i]),
{
    let mut b: usize = n;
    while b > a
        invariant
            n == line@.len(),
            a < b <= n,
            !is_space_char(line@[a as int]),
            forall|i: int| b <= i < n ==> is_space_char(line@[i]),
        decreases b,
    {
        if !is_space(line.get_char(b - 1)) {
            return b;
        }
        b -= 1;
    }
    proof {
        assert(false);
    }
    vstd::pervasive::unreached()
}

/// Removes leading and trailing whitespace, as `str::trim` does.
pub fn trimmed(line: &str) -> (r: &str)
    ensures
        is_trim_of(r@, line@),
        is_blank(line@) ==> r@.len() == 0,
        !is_blank(line@) ==> !is_blank(r@),
{
    let n = line.unicode_len();
    let a = scan_start(line, n);
    if a == n {
        let r = line.substring_char(n, n);
        proof {
            assert(r@ =~= line@.subrange(n as int, n as int));
            assert(trim_witness(r@, line@, n as int, n as int));
        }
        r
    } else {
        let b = scan_end(line, n, a);
        let r = line.substring_char(a, b);
        proof {
            assert(trim_witness(r@, line@, a as int, b as int));
            assert(!is_space_char(r@[0]));
        }
        r
    }
}

/// Whether all characters of the line are whitespace.
pub fn is_blank_line(line: &str) -> (r: bool)
    ensures
        r == is_blank(line@),
{
    let n = line.unicode_len();
    let a = scan_start(line, n);
    a == n
}

/// The allow-list decision: a line is surfaced only if it is not blank and
/// mentions one of the patcher's lifecycle milestones.
pub open spec fn allowed_print_spec(s: Seq<char>) -> bool {
    !is_blank(s) && (contains_seq(s, "Patch inited"@) || contains_seq(s, "begin patch file"@)
        || contains_seq(s, "end patch file"@))
}

/// Whether a patcher stdout line should be surfaced in the log: it must be
/// non-blank and contain one of the lifecycle milestone markers.
pub fn allowed_print(line: &str) -> (r: bool)
    ensures
        r == allowed_print_spec(line@),
{
    !is_blank_line(line) && (contains_sub(line, "Patch inited")
        || contains_sub(line, "begin patch file") || contains_sub(line, "end patch file"))
}

/// What `classify` decides for a given line.
pub open spec fn classify_spec(s: Seq<char>) -> Option<LogLevel> {
    if allowed_print_spec(s) {
        Some(LogLevel::Info)
    } else {
        None
    }
}

/// Decides whether and at what severity a trimmed patcher stdout line is
/// surfaced: blank lines and lines outside the milestone allow-list are
/// suppressed (`None`); allow-listed lines are surfaced at informational
/// severity.
pub fn classify(line: &str) -> (r: Option<LogLevel>)
    ensures
        r == classify_spec(line@),
{
    if allowed_print(line) {
        Some(LogLevel::Info)
    } else {
        None
    }
}

} // verus!
