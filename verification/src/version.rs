//! Best-effort parse of the core binary's version query output: the last
//! line announcing a version decides the version string recorded on the
//! status board.

use vstd::prelude::*;

use crate::text::{starts_with, str_starts_with, str_trim, trim_spec};

verus! {

/// The index of the first line break in `s`, or -1 if there is none.
pub open spec fn first_newline(s: Seq<char>) -> int
    decreases s.len(),
{
    if s.len() == 0 {
        -1
    } else if s[0] == '\n' {
        0
    } else {
        let r = first_newline(s.drop_first());
        if r < 0 {
            -1
        } else {
            r + 1
        }
    }
}

/// `s` cut at every line break; the break characters themselves dropped.
pub open spec fn split_lines(s: Seq<char>) -> Seq<Seq<char>>
    decreases s.len(),
{
    let i = first_newline(s);
    if 0 <= i < s.len() {
        seq![s.subrange(0, i)] + split_lines(s.subrange(i + 1, s.len() as int))
    } else {
        seq![s]
    }
}

proof fn lemma_first_newline_at(t: Seq<char>, k: int)
    requires
        0 <= k < t.len(),
        t[k] == '\n',
        forall|j: int| 0 <= j < k ==> t[j] != '\n',
    ensures
        first_newline(t) == k,
    decreases k,
{
    if k > 0 {
        lemma_first_newline_at(t.drop_first(), k - 1);
    }
}

proof fn lemma_first_newline_none(t: Seq<char>)
    requires
        forall|j: int| 0 <= j < t.len() ==> t[j] != '\n',
    ensures
        first_newline(t) == -1,
    decreases t.len(),
{
    if t.len() > 0 {
        lemma_first_newline_none(t.drop_first());
    }
}

/// Cut `s` into its lines.
pub fn split_output_lines(s: &str) -> (r: Vec<String>)
    ensures
        r.deep_view() == split_lines(s@),
{
    let n: usize = s.unicode_len();
    let mut r: Vec<String> = Vec::new();
    proof {
        assert(s@.subrange(0, n as int) =~= s@);
        assert(r.deep_view() =~= Seq::<Seq<char>>::empty());
    }
    let mut start: usize = 0;
    let mut i: usize = 0;
    while i < n
        invariant
            0 <= start <= i <= n,
            n == s@.len(),
            forall|j: int| start <= j < i ==> s@[j] != '\n',
            split_lines(s@) =~= r.deep_view() + split_lines(s@.subrange(start as int, n as int)),
        decreases n - i,
    {
        if s.get_char(i) == '\n' {
            let ghost suffix = s@.subrange(start as int, n as int);
            let line = s.substring_char(start, i).to_owned();
            proof {
                lemma_first_newline_at(suffix, i - start);
                assert(suffix.subrange(0, i - start) =~= s@.subrange(start as int, i as int));
                assert(suffix.subrange(i - start + 1, suffix.len() as int) =~= s@.subrange(
                    i + 1,
                    n as int,
                ));
            }
            let ghost r_before = r.deep_view();
            r.push(line);
            proof {
                assert(r.deep_view() =~= r_before.push(line@));
                assert(split_lines(s@) =~= r.deep_view() + split_lines(
                    s@.subrange(i + 1, n as int),
                ));
            }
            start = i + 1;
        }
        i = i + 1;
    }
    let ghost suffix = s@.subrange(start as int, n as int);
    let line = s.substring_char(start, n).to_owned();
    proof {
        lemma_first_newline_none(suffix);
    }
    let ghost r_before = r.deep_view();
    r.push(line);
    proof {
        assert(r.deep_view() =~= r_before.push(line@));
        assert(split_lines(suffix) =~= seq![suffix]);
        assert(r.deep_view() =~= r_before + split_lines(suffix));
    }
    r
}

/// `s` with every leading repetition of `p` removed.
pub open spec fn strip_prefix_all(s: Seq<char>, p: Seq<char>) -> Seq<char>
    decreases s.len(),
{
    if p.len() > 0 && starts_with(s, p) {
        strip_prefix_all(s.subrange(p.len() as int, s.len() as int), p)
    } else {
        s
    }
}

/// Remove every leading repetition of `p` from `s`.
pub fn strip_prefix_repeated<'a>(s: &'a str, p: &str) -> (r: &'a str)
    requires
        p@.len() > 0,
    ensures
        r@ == strip_prefix_all(s@, p@),
{
    let pn: usize = p.unicode_len();
    let mut cur: &str = s;
    let mut go: bool = str_starts_with(cur, p);
    while go
        invariant
            pn == p@.len(),
            1 <= pn,
            go == starts_with(cur@, p@),
            strip_prefix_all(cur@, p@) == strip_prefix_all(s@, p@),
        decreases cur@.len(),
    {
        let next = cur.substring_char(pn, cur.unicode_len());
        cur = next;
        go = str_starts_with(cur, p);
    }
    cur
}

/// The marker a version line begins with, after trimming.
pub open spec fn version_prefix() -> Seq<char> {
    "sing-box version"@
}

/// Scan lines in order, keeping the version announced by the latest
/// version line seen so far: the trimmed line with the marker stripped.
pub open spec fn version_scan(ls: Seq<Seq<char>>, acc: Option<Seq<char>>) -> Option<Seq<char>>
    decreases ls.len(),
{
    if ls.len() == 0 {
        acc
    } else {
        let t = trim_spec(ls[0]);
        let acc2 = if starts_with(t, version_prefix()) {
            Some(trim_spec(strip_prefix_all(t, version_prefix())))
        } else {
            acc
        };
        version_scan(ls.drop_first(), acc2)
    }
}

/// The version announced by the output of the core's version query, if
/// any line announces one.
pub open spec fn version_of_output(out: Seq<char>) -> Option<Seq<char>> {
    version_scan(split_lines(out), None)
}

/// Parse the version query output.
pub fn parse_version_output(out: &str) -> (r: Option<String>)
    ensures
        (match r {
            Some(v) => version_of_output(out@) == Some(v@),
            None => version_of_output(out@) is None,
        }),
{
    proof {
        reveal_strlit("sing-box version");
    }
    let lines = split_output_lines(out);
    let n = lines.len();
    proof {
        assert(lines.deep_view().skip(0) =~= lines.deep_view());
    }
    let mut acc: Option<String> = None;
    let mut i: usize = 0;
    while i < n
        invariant
            0 <= i <= n,
            n == lines@.len(),
            lines.deep_view() == split_lines(out@),
            version_prefix().len() > 0,
            version_of_output(out@) == version_scan(
                lines.deep_view().skip(i as int),
                match acc {
                    Some(v) => Some(v@),
                    None => None,
                },
            ),
        decreases n - i,
    {
        let t = str_trim(lines[i].as_str());
        proof {
            assert(lines.deep_view().skip(i as int)[0] == lines@[i as int]@);
            assert(lines.deep_view().skip(i as int).drop_first() =~= lines.deep_view().skip(
                i + 1,
            ));
        }
        if str_starts_with(t, "sing-box version") {
            let stripped = strip_prefix_repeated(t, "sing-box version");
            let v = str_trim(stripped);
            acc = Some(v.to_owned());
        }
        i = i + 1;
    }
    proof {
        assert(lines.deep_view().skip(n as int) =~= Seq::<Seq<char>>::empty());
    }
    acc
}

/// The output of a version query names a usable core binary: some line
/// announces a version.
pub fn core_output_valid(out: &str) -> (r: bool)
    ensures
        r == (version_of_output(out@) is Some),
{
    let v = parse_version_output(out);
    v.is_some()
}

} // verus!
