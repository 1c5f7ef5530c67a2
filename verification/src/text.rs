//! Character-level text utilities: prefix tests, substring search,
//! whitespace trimming and ASCII-case-insensitive comparison.

use vstd::prelude::*;

verus! {

/// Characters removed by trimming: the ASCII whitespace a console line
/// may carry at its edges.
pub open spec fn is_trim_char(c: char) -> bool {
    c == ' ' || c == '\t' || c == '\r' || c == '\n'
}

/// `s` begins with `p`.
pub open spec fn starts_with(s: Seq<char>, p: Seq<char>) -> bool {
    p.len() <= s.len() && s.subrange(0, p.len() as int) == p
}

/// `p` occurs somewhere in `s` as a contiguous run.
pub open spec fn contains_seq(s: Seq<char>, p: Seq<char>) -> bool {
    exists|i: int|
        0 <= i && i + p.len() <= s.len() && #[trigger] s.subrange(i, i + p.len() as int) == p
}

/// `s` without its trailing trim characters.
pub open spec fn trim_end_spec(s: Seq<char>) -> Seq<char>
    decreases s.len(),
{
    if s.len() > 0 && is_trim_char(s[s.len() - 1]) {
        trim_end_spec(s.drop_last())
    } else {
        s
    }
}

/// `s` without its leading trim characters.
pub open spec fn trim_start_spec(s: Seq<char>) -> Seq<char>
    decreases s.len(),
{
    if s.len() > 0 && is_trim_char(s[0]) {
        trim_start_spec(s.drop_first())
    } else {
        s
    }
}

/// `s` without leading and trailing trim characters.
pub open spec fn trim_spec(s: Seq<char>) -> Seq<char> {
    trim_start_spec(trim_end_spec(s))
}

/// `a` and `b` are the same letter up to ASCII case.
pub open spec fn chars_ieq(a: char, b: char) -> bool {
    ||| a == b
    ||| ('A' <= a && a <= 'Z' && b as u32 == a as u32 + 32)
    ||| ('a' <= a && a <= 'z' && a as u32 == b as u32 + 32)
}

/// `a` and `b` are equal up to ASCII case, position by position.
pub open spec fn seq_ieq(a: Seq<char>, b: Seq<char>) -> bool {
    a.len() == b.len() && forall|i: int| 0 <= i < a.len() ==> chars_ieq(a[i], b[i])
}

/// Trimming only ever drops a suffix: the result is a prefix of the input.
proof fn lemma_trim_end_prefix(s: Seq<char>, k: int)
    requires
        0 <= k <= s.len(),
        forall|j: int| k <= j < s.len() ==> is_trim_char(s[j]),
        k > 0 ==> !is_trim_char(s[k - 1]),
    ensures
        trim_end_spec(s) == s.subrange(0, k),
    decreases s.len(),
{
    if s.len() > 0 && is_trim_char(s[s.len() - 1]) {
        assert(k < s.len());
        lemma_trim_end_prefix(s.drop_last(), k);
        assert(s.drop_last().subrange(0, k) =~= s.subrange(0, k));
    } else {
        assert(k == s.len());
        assert(s.subrange(0, k) =~= s);
    }
}

/// Mirror of `lemma_trim_end_prefix` for the leading edge.
proof fn lemma_trim_start_suffix(s: Seq<char>, k: int)
    requires
        0 <= k <= s.len(),
        forall|j: int| 0 <= j < k ==> is_trim_char(s[j]),
        k < s.len() ==> !is_trim_char(s[k]),
    ensures
        trim_start_spec(s) == s.subrange(k, s.len() as int),
    decreases s.len(),
{
    if s.len() > 0 && is_trim_char(s[0]) {
        assert(k > 0);
        lemma_trim_start_suffix(s.drop_first(), k - 1);
        assert(s.drop_first().subrange(k - 1, s.drop_first().len() as int) =~= s.subrange(
            k,
            s.len() as int,
        ));
    } else {
        assert(k == 0);
        assert(s.subrange(0, s.len() as int) =~= s);
    }
}

/// `s` begins with `p`, decided character by character.
pub fn str_starts_with(s: &str, p: &str) -> (r: bool)
    ensures
        r == starts_with(s@, p@),
{
    let sn: usize = s.unicode_len();
    let pn: usize = p.unicode_len();
    if pn > sn {
        return false;
    }
    let mut i: usize = 0;
    while i < pn
        invariant
            0 <= i <= pn,
            pn <= sn,
            sn == s@.len(),
            pn == p@.len(),
            forall|j: int| 0 <= j < i ==> s@[j] == p@[j],
        decreases pn - i,
    {
        if s.get_char(i) != p.get_char(i) {
            assert(s@.subrange(0, pn as int)[i as int] != p@[i as int]);
            return false;
        }
        i = i + 1;
    }
    assert(s@.subrange(0, pn as int) =~= p@);
    true
}

/// `p` occurs in `s`, decided by scanning every starting position.
pub fn str_contains(s: &str, p: &str) -> (r: bool)
    ensures
        r == contains_seq(s@, p@),
{
    let sn: usize = s.unicode_len();
    let pn: usize = p.unicode_len();
    if pn > sn {
        return false;
    }
    let mut i: usize = 0;
    while i <= sn - pn
        invariant
            0 <= i <= sn - pn + 1,
            pn <= sn,
            sn == s@.len(),
            pn == p@.len(),
            forall|a: int| 0 <= a < i ==> #[trigger] s@.subrange(a, a + pn as int) != p@,
        decreases sn + 1 - pn - i,
    {
        let mut j: usize = 0;
        let mut matched: bool = true;
        while j < pn
            invariant
                0 <= j <= pn,
                0 <= i <= sn - pn,
                sn == s@.len(),
                pn == p@.len(),
                matched == (forall|b: int| 0 <= b < j ==> s@[i + b] == p@[b]),
            decreases pn - j,
        {
            if s.get_char(i + j) != p.get_char(j) {
                matched = false;
                assert(s@[i + j as int] != p@[j as int]);
                j = pn;
            } else {
                j = j + 1;
            }
        }
        if matched {
            assert(s@.subrange(i as int, i + pn as int) =~= p@);
            return true;
        }
        assert(s@.subrange(i as int, i + pn as int) != p@) by {
            let k: int = choose|b: int| 0 <= b < pn && s@[i + b] != p@[b];
            assert(s@.subrange(i as int, i + pn as int)[k] == s@[i + k]);
        }
        i = i + 1;
    }
    false
}

/// The trimmed middle of `s`, with ASCII whitespace removed from both ends.
pub fn str_trim(s: &str) -> (r: &str)
    ensures
        r@ == trim_spec(s@),
{
    let n: usize = s.unicode_len();
    let mut hi: usize = n;
    while hi > 0 && is_trim_char_exec(s.get_char(hi - 1))
        invariant
            0 <= hi <= n,
            n == s@.len(),
            forall|j: int| hi <= j < n ==> is_trim_char(s@[j]),
        decreases hi,
    {
        hi = hi - 1;
    }
    proof {
        lemma_trim_end_prefix(s@, hi as int);
    }
    let mut lo: usize = 0;
    while lo < hi && is_trim_char_exec(s.get_char(lo))
        invariant
            0 <= lo <= hi <= n,
            n == s@.len(),
            forall|j: int| hi <= j < n ==> is_trim_char(s@[j]),
            forall|j: int| 0 <= j < lo ==> is_trim_char(s@[j]),
        decreases hi - lo,
    {
        lo = lo + 1;
    }
    let r = s.substring_char(lo, hi);
    proof {
        let te = trim_end_spec(s@);
        assert(te == s@.subrange(0, hi as int));
        assert(forall|j: int| 0 <= j < lo ==> is_trim_char(te[j]));
        assert(lo < hi ==> !is_trim_char(te[lo as int]));
        lemma_trim_start_suffix(te, lo as int);
        assert(te.subrange(lo as int, te.len() as int) =~= s@.subrange(lo as int, hi as int));
    }
    r
}

/// Executable test for a single trim character.
pub fn is_trim_char_exec(c: char) -> (r: bool)
    ensures
        r == is_trim_char(c),
{
    c == ' ' || c == '\t' || c == '\r' || c == '\n'
}

/// The trimmed head of `s`, with trailing ASCII whitespace removed.
pub fn str_trim_end(s: &str) -> (r: &str)
    ensures
        r@ == trim_end_spec(s@),
{
    let n: usize = s.unicode_len();
    let mut hi: usize = n;
    while hi > 0 && is_trim_char_exec(s.get_char(hi - 1))
        invariant
            0 <= hi <= n,
            n == s@.len(),
            forall|j: int| hi <= j < n ==> is_trim_char(s@[j]),
        decreases hi,
    {
        hi = hi - 1;
    }
    proof {
        lemma_trim_end_prefix(s@, hi as int);
    }
    s.substring_char(0, hi)
}

/// Where a console line came from.
#[derive(Clone, Copy, PartialEq, Eq, Structural, Debug)]
pub enum LogSource {
    Stdout,
    Stderr,
    /// A line the supervisor itself reports, such as start and stop notices.
    Internal,
}

/// The tag spliced into a log line for its source.
pub open spec fn source_label(source: LogSource) -> Seq<char> {
    match source {
        LogSource::Stdout => "stdout: "@,
        LogSource::Stderr => "stderr: "@,
        LogSource::Internal => ""@,
    }
}

/// A stored log line: bracketed timestamp, source tag, then the text.
pub open spec fn log_line_spec(ts: Seq<char>, source: LogSource, text: Seq<char>) -> Seq<char> {
    "["@ + ts + "] "@ + source_label(source) + text
}

/// Render a log line from a timestamp, a source and the raw text, whose
/// trailing whitespace is dropped.
pub fn format_log_line(ts: &str, source: LogSource, text: &str) -> (r: String)
    ensures
        r@ == log_line_spec(ts@, source, trim_end_spec(text@)),
{
    let trimmed = str_trim_end(text);
    let label: &str = match source {
        LogSource::Stdout => "stdout: ",
        LogSource::Stderr => "stderr: ",
        LogSource::Internal => "",
    };
    assert(label@ == source_label(source));
    let mut r = String::from_str("[");
    r.append(ts);
    r.append("] ");
    r.append(label);
    r.append(trimmed);
    proof {
        assert(r@ =~= log_line_spec(ts@, source, trim_end_spec(text@)));
    }
    r
}

/// `a` equals `b`, decided character by character.
pub fn str_eq(a: &str, b: &str) -> (r: bool)
    ensures
        r == (a@ == b@),
{
    let an: usize = a.unicode_len();
    let bn: usize = b.unicode_len();
    if an != bn {
        return false;
    }
    let mut i: usize = 0;
    while i < an
        invariant
            0 <= i <= an,
            an == a@.len(),
            an == bn,
            bn == b@.len(),
            forall|j: int| 0 <= j < i ==> a@[j] == b@[j],
        decreases an - i,
    {
        if a.get_char(i) != b.get_char(i) {
            assert(a@[i as int] != b@[i as int]);
            return false;
        }
        i = i + 1;
    }
    assert(a@ =~= b@);
    true
}

/// `a` equals `b` up to ASCII case, decided character by character.
pub fn str_eq_ignore_ascii_case(a: &str, b: &str) -> (r: bool)
    ensures
        r == seq_ieq(a@, b@),
{
    let an: usize = a.unicode_len();
    let bn: usize = b.unicode_len();
    if an != bn {
        return false;
    }
    let mut i: usize = 0;
    while i < an
        invariant
            0 <= i <= an,
            an == a@.len(),
            an == bn,
            bn == b@.len(),
            forall|j: int| 0 <= j < i ==> chars_ieq(a@[j], b@[j]),
        decreases an - i,
    {
        let ca = a.get_char(i);
        let cb = b.get_char(i);
        let same = ca == cb || ('A' <= ca && ca <= 'Z' && cb as u32 == ca as u32 + 32) || ('a'
            <= ca && ca <= 'z' && ca as u32 == cb as u32 + 32);
        if !same {
            assert(!chars_ieq(a@[i as int], b@[i as int]));
            return false;
        }
        i = i + 1;
    }
    true
}

} // verus!
