//! Whitespace trimming for the one-line version marker, with its
//! mathematical definition.

use vstd::prelude::*;
use vstd::string::*;

verus! {

/// The whitespace characters stripped from the ends of a marker line.
pub open spec fn is_space(c: char) -> bool {
    c == ' ' || c == '\t' || c == '\n' || c == '\r'
}

/// `s` without its leading whitespace.
pub open spec fn trim_front(s: Seq<char>) -> Seq<char>
    decreases s.len(),
{
    if s.len() > 0 && is_space(s[0]) {
        trim_front(s.subrange(1, s.len() as int))
    } else {
        s
    }
}

/// `s` without its trailing whitespace.
pub open spec fn trim_back(s: Seq<char>) -> Seq<char>
    decreases s.len(),
{
    if s.len() > 0 && is_space(s[s.len() - 1]) {
        trim_back(s.subrange(0, s.len() - 1))
    } else {
        s
    }
}

/// `s` without leading and trailing whitespace.
pub open spec fn trimmed(s: Seq<char>) -> Seq<char> {
    trim_back(trim_front(s))
}

fn is_space_char(c: char) -> (r: bool)
    ensures
        r == is_space(c),
{
    c == ' ' || c == '\t' || c == '\n' || c == '\r'
}

/// Returns `s` with leading and trailing whitespace removed.
pub fn trim_chars(s: &str) -> (r: String)
    ensures
        r@ == trimmed(s@),
{
    let n = s.unicode_len();
    proof {
        assert(s@.subrange(0, n as int) =~= s@);
    }
    let mut start: usize = 0;
    while start < n && is_space_char(s.get_char(start))
        invariant
            start <= n,
            n == s@.len(),
            trim_front(s@) == trim_front(s@.subrange(start as int, n as int)),
        decreases n - start,
    {
        proof {
            let t = s@.subrange(start as int, n as int);
            assert(t[0] == s@[start as int]);
            assert(t.subrange(1, t.len() as int) =~= s@.subrange(
                start as int + 1,
                n as int,
            ));
        }
        start = start + 1;
    }
    proof {
        if start == n {
            assert(s@.subrange(start as int, n as int) =~= Seq::<char>::empty());
        }
        assert(trim_front(s@) == s@.subrange(start as int, n as int));
    }
    let mut end: usize = n;
    while end > start && is_space_char(s.get_char(end - 1))
        invariant
            start <= end <= n,
            n == s@.len(),
            trim_back(s@.subrange(start as int, n as int)) == trim_back(
                s@.subrange(start as int, end as int),
            ),
        decreases end,
    {
        proof {
            let t = s@.subrange(start as int, end as int);
            assert(t[t.len() - 1] == s@[end - 1]);
            assert(t.subrange(0, t.len() - 1) =~= s@.subrange(
                start as int,
                end as int - 1,
            ));
        }
        end = end - 1;
    }
    proof {
        if end == start {
            assert(s@.subrange(start as int, end as int) =~= Seq::<char>::empty());
        }
        assert(trim_back(s@.subrange(start as int, n as int)) == s@.subrange(
            start as int,
            end as int,
        ));
    }
    let piece = s.substring_char(start, end);
    piece.to_owned()
}

/// Whether a raw marker line, once trimmed, names exactly this version.
pub open spec fn marker_line_matches(line: Seq<char>, version: Seq<char>) -> bool {
    trimmed(line) == version
}

/// Compares the raw content of a marker file against a version string.
pub fn line_matches_version(line: &str, version: &String) -> (r: bool)
    ensures
        r == marker_line_matches(line@, version@),
{
    let t = trim_chars(line);
    t == *version
}

} // verus!
