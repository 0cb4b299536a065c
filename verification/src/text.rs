//! Character-level helpers on strings: prefixes, suffixes, searching and
//! trimming, each with a specification over `Seq<char>`.

use vstd::prelude::*;
use vstd::string::*;

verus! {

/// `p` is a prefix of `s`.
pub open spec fn starts_with(s: Seq<char>, p: Seq<char>) -> bool {
    p.len() <= s.len() && s.subrange(0, p.len() as int) == p
}

/// `p` is a suffix of `s`.
pub open spec fn ends_with(s: Seq<char>, p: Seq<char>) -> bool {
    p.len() <= s.len() && s.subrange(s.len() - p.len(), s.len() as int) == p
}

/// `p` occurs in `s` at position `at`.
pub open spec fn occurs_at(s: Seq<char>, p: Seq<char>, at: int) -> bool {
    0 <= at && at + p.len() <= s.len() && s.subrange(at, at + p.len()) == p
}

/// The texts that a list of strings holds, in order.
pub open spec fn texts(strings: Seq<String>) -> Seq<Seq<char>> {
    strings.map_values(|s: String| s@)
}

/// The characters of a string slice, in order.
pub fn chars_of(s: &str) -> (out: Vec<char>)
    ensures
        out@ == s@,
{
    let n: usize = s.unicode_len();
    let mut out: Vec<char> = Vec::new();
    let mut i: usize = 0;
    while i < n
        invariant
            n == s@.len(),
            i <= n,
            out@ == s@.subrange(0, i as int),
        decreases n - i,
    {
        let c = s.get_char(i);
        out.push(c);
        i += 1;
        assert(out@ =~= s@.subrange(0, i as int));
    }
    assert(s@.subrange(0, n as int) =~= s@);
    out
}

/// Whether `p` occurs in `s` at position `at`.
pub fn matches_at(s: &Vec<char>, p: &Vec<char>, at: usize) -> (r: bool)
    ensures
        r == occurs_at(s@, p@, at as int),
{
    if at > s.len() || p.len() > s.len() - at {
        return false;
    }
    let mut i: usize = 0;
    while i < p.len()
        invariant
            at + p.len() <= s.len(),
            i <= p.len(),
            s@.subrange(at as int, at + i) == p@.subrange(0, i as int),
        decreases p.len() - i,
    {
        if s[at + i] != p[i] {
            proof {
                let whole = s@.subrange(at as int, at + p.len());
                assert(whole[i as int] == s@[at + i]);
            }
            return false;
        }
        i += 1;
        assert(s@.subrange(at as int, at + i) =~= s@.subrange(at as int, at + i - 1).push(
            s@[at + i - 1],
        ));
        assert(p@.subrange(0, i as int) =~= p@.subrange(0, i - 1).push(p@[i - 1]));
    }
    assert(p@.subrange(0, p.len() as int) =~= p@);
    true
}

/// Whether `s` ends with `p`.
pub fn has_suffix(s: &Vec<char>, p: &Vec<char>) -> (r: bool)
    ensures
        r == ends_with(s@, p@),
{
    if p.len() > s.len() {
        return false;
    }
    matches_at(s, p, s.len() - p.len())
}

/// Whether two character sequences are the same.
pub fn same_chars(a: &Vec<char>, b: &Vec<char>) -> (r: bool)
    ensures
        r == (a@ == b@),
{
    if a.len() != b.len() {
        return false;
    }
    let r = matches_at(a, b, 0);
    assert(a@.subrange(0, a.len() as int) =~= a@);
    r
}

/// The character is white space: one of the code points that Unicode
/// gives the property `White_Space`.
pub open spec fn is_space(c: char) -> bool {
    let u = c as u32;
    (0x09 <= u <= 0x0D) || u == 0x20 || u == 0x85 || u == 0xA0 || u == 0x1680 || (0x2000 <= u
        <= 0x200A) || u == 0x2028 || u == 0x2029 || u == 0x202F || u == 0x205F || u == 0x3000
}

/// Whether the character is white space.
pub fn is_whitespace(c: char) -> (r: bool)
    ensures
        r == is_space(c),
{
    let u: u32 = c as u32;
    (0x09 <= u && u <= 0x0D) || u == 0x20 || u == 0x85 || u == 0xA0 || u == 0x1680 || (0x2000 <= u
        && u <= 0x200A) || u == 0x2028 || u == 0x2029 || u == 0x202F || u == 0x205F || u == 0x3000
}

/// `s` without the white space that it begins with.
pub open spec fn trim_start(s: Seq<char>) -> Seq<char>
    decreases s.len(),
{
    if s.len() > 0 && is_space(s[0]) {
        trim_start(s.drop_first())
    } else {
        s
    }
}

/// `s` without the white space that it ends with.
pub open spec fn trim_end(s: Seq<char>) -> Seq<char>
    decreases s.len(),
{
    if s.len() > 0 && is_space(s.last()) {
        trim_end(s.drop_last())
    } else {
        s
    }
}

/// `s` without white space at either end.
pub open spec fn trimmed(s: Seq<char>) -> Seq<char> {
    trim_end(trim_start(s))
}

/// `s` without the prefix `p`, or `s` itself where it does not begin with
/// `p`.
pub open spec fn without_prefix(s: Seq<char>, p: Seq<char>) -> Seq<char> {
    if starts_with(s, p) {
        s.skip(p.len() as int)
    } else {
        s
    }
}

/// `s` without the suffix `p`, or `s` itself where it does not end with
/// `p`.
pub open spec fn without_suffix(s: Seq<char>, p: Seq<char>) -> Seq<char> {
    if ends_with(s, p) {
        s.take(s.len() - p.len())
    } else {
        s
    }
}

/// The position of the first `c` in `s`, or the length of `s` where it
/// holds none.
pub open spec fn index_of_first(s: Seq<char>, c: char) -> int
    decreases s.len(),
{
    if s.len() == 0 {
        0
    } else if s[0] == c {
        0
    } else {
        1 + index_of_first(s.drop_first(), c)
    }
}

/// The position of the first `c` lies within `s` or just behind it, no
/// `c` stands before it, and where it lies within, a `c` stands there.
pub proof fn index_of_first_is_first(s: Seq<char>, c: char)
    ensures
        0 <= index_of_first(s, c) <= s.len(),
        forall|k: int| 0 <= k < index_of_first(s, c) ==> s[k] != c,
        index_of_first(s, c) < s.len() ==> s[index_of_first(s, c)] == c,
    decreases s.len(),
{
    if s.len() > 0 && s[0] != c {
        index_of_first_is_first(s.drop_first(), c);
        assert forall|k: int| 0 <= k < index_of_first(s, c) implies s[k] != c by {
            if k > 0 {
                assert(s.drop_first()[k - 1] == s[k]);
            }
        }
    }
}

/// Where the part of `s` from `lo` to `hi` begins once its leading white
/// space is left out.
pub fn skip_spaces(s: &Vec<char>, lo: usize, hi: usize) -> (start: usize)
    requires
        lo <= hi <= s.len(),
    ensures
        lo <= start <= hi,
        s@.subrange(start as int, hi as int) == trim_start(s@.subrange(lo as int, hi as int)),
{
    let mut i: usize = lo;
    while i < hi && is_whitespace(s[i])
        invariant
            lo <= i <= hi <= s.len(),
            trim_start(s@.subrange(lo as int, hi as int)) == trim_start(
                s@.subrange(i as int, hi as int),
            ),
        decreases hi - i,
    {
        proof {
            let rest = s@.subrange(i as int, hi as int);
            assert(rest[0] == s@[i as int]);
            assert(rest.drop_first() =~= s@.subrange(i + 1, hi as int));
        }
        i += 1;
    }
    proof {
        let rest = s@.subrange(i as int, hi as int);
        if i < hi {
            assert(rest[0] == s@[i as int]);
        }
    }
    i
}

/// Where the part of `s` from `lo` to `hi` ends once its trailing white
/// space is left out.
pub fn drop_trailing_spaces(s: &Vec<char>, lo: usize, hi: usize) -> (end: usize)
    requires
        lo <= hi <= s.len(),
    ensures
        lo <= end <= hi,
        s@.subrange(lo as int, end as int) == trim_end(s@.subrange(lo as int, hi as int)),
{
    let mut i: usize = hi;
    while i > lo && is_whitespace(s[i - 1])
        invariant
            lo <= i <= hi <= s.len(),
            trim_end(s@.subrange(lo as int, hi as int)) == trim_end(
                s@.subrange(lo as int, i as int),
            ),
        decreases i - lo,
    {
        proof {
            let rest = s@.subrange(lo as int, i as int);
            assert(rest.last() == s@[i - 1]);
            assert(rest.drop_last() =~= s@.subrange(lo as int, i - 1));
        }
        i -= 1;
    }
    proof {
        let rest = s@.subrange(lo as int, i as int);
        if i > lo {
            assert(rest.last() == s@[i - 1]);
        }
    }
    i
}

/// Whether the part of `s` from `lo` to `hi` begins with `p`.
pub fn window_starts_with(s: &Vec<char>, lo: usize, hi: usize, p: &Vec<char>) -> (r: bool)
    requires
        lo <= hi <= s.len(),
    ensures
        r == starts_with(s@.subrange(lo as int, hi as int), p@),
{
    if p.len() > hi - lo {
        return false;
    }
    proof {
        assert(s@.subrange(lo as int, hi as int).subrange(0, p.len() as int) =~= s@.subrange(
            lo as int,
            lo + p.len(),
        ));
    }
    matches_at(s, p, lo)
}

/// Whether the part of `s` from `lo` to `hi` ends with `p`.
pub fn window_ends_with(s: &Vec<char>, lo: usize, hi: usize, p: &Vec<char>) -> (r: bool)
    requires
        lo <= hi <= s.len(),
    ensures
        r == ends_with(s@.subrange(lo as int, hi as int), p@),
{
    if p.len() > hi - lo {
        return false;
    }
    proof {
        let part = s@.subrange(lo as int, hi as int);
        assert(part.subrange(part.len() - p.len(), part.len() as int) =~= s@.subrange(
            hi - p.len(),
            hi as int,
        ));
    }
    matches_at(s, p, hi - p.len())
}

/// The position in `s` of the first `c` between `lo` and `hi`, or `hi`
/// where there is none.
pub fn find_char(s: &Vec<char>, c: char, lo: usize, hi: usize) -> (at: usize)
    requires
        lo <= hi <= s.len(),
    ensures
        lo <= at <= hi,
        at - lo == index_of_first(s@.subrange(lo as int, hi as int), c),
{
    let mut i: usize = lo;
    while i < hi && s[i] != c
        invariant
            lo <= i <= hi <= s.len(),
            index_of_first(s@.subrange(lo as int, hi as int), c) == (i - lo) + index_of_first(
                s@.subrange(i as int, hi as int),
                c,
            ),
        decreases hi - i,
    {
        proof {
            let rest = s@.subrange(i as int, hi as int);
            assert(rest[0] == s@[i as int]);
            assert(rest.drop_first() =~= s@.subrange(i + 1, hi as int));
        }
        i += 1;
    }
    proof {
        let rest = s@.subrange(i as int, hi as int);
        if i < hi {
            assert(rest[0] == s@[i as int]);
        }
    }
    i
}

} // verus!
