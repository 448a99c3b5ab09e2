//! Normalisation of a loosely written collector address into a WebSocket URI.
use vstd::prelude::*;
use vstd::string::*;

verus! {

/// The endpoint used when no address is given.
pub const DEFAULT_URI: &'static str = "ws://localhost:9090";

/// Characters with the Unicode `White_Space` property.
pub open spec fn is_white_space(c: char) -> bool {
    let n = c as u32;
    (0x09 <= n && n <= 0x0d) || n == 0x20 || n == 0x85 || n == 0xa0 || n == 0x1680
        || (0x2000 <= n && n <= 0x200a) || n == 0x2028 || n == 0x2029 || n == 0x202f
        || n == 0x205f || n == 0x3000
}

/// `s` without its leading white space.
pub open spec fn trim_start(s: Seq<char>) -> Seq<char>
    decreases s.len(),
{
    if s.len() > 0 && is_white_space(s[0]) {
        trim_start(s.drop_first())
    } else {
        s
    }
}

/// `s` without its trailing white space.
pub open spec fn trim_end(s: Seq<char>) -> Seq<char>
    decreases s.len(),
{
    if s.len() > 0 && is_white_space(s.last()) {
        trim_end(s.drop_last())
    } else {
        s
    }
}

/// `s` without white space at either end.
pub open spec fn trimmed(s: Seq<char>) -> Seq<char> {
    trim_end(trim_start(s))
}

/// Whether `c` is white space.
pub fn is_space(c: char) -> (r: bool)
    ensures
        r == is_white_space(c),
{
    let n = c as u32;
    (0x09 <= n && n <= 0x0d) || n == 0x20 || n == 0x85 || n == 0xa0 || n == 0x1680
        || (0x2000 <= n && n <= 0x200a) || n == 0x2028 || n == 0x2029 || n == 0x202f
        || n == 0x205f || n == 0x3000
}

/// `s` without white space at either end.
pub fn trim_text(s: &str) -> (r: &str)
    ensures
        r@ == trimmed(s@),
{
    let n = s.unicode_len();
    let mut i: usize = 0;
    assert(s@.subrange(0, n as int) =~= s@);
    while i < n
        invariant
            n == s@.len(),
            i <= n,
            trim_start(s@) == trim_start(s@.subrange(i as int, n as int)),
        ensures
            i <= n,
            trim_start(s@) == trim_start(s@.subrange(i as int, n as int)),
            i == n || !is_white_space(s@[i as int]),
        decreases n - i,
    {
        if !is_space(s.get_char(i)) {
            break;
        }
        assert(s@.subrange(i as int, n as int).drop_first() =~= s@.subrange(i + 1, n as int));
        i = i + 1;
    }
    let t = s.substring_char(i, n);
    assert(t@ == trim_start(s@));
    let mut j: usize = t.unicode_len();
    assert(t@.subrange(0, j as int) =~= t@);
    while j > 0
        invariant
            j <= t@.len(),
            trim_end(t@) == trim_end(t@.subrange(0, j as int)),
        ensures
            j <= t@.len(),
            trim_end(t@) == trim_end(t@.subrange(0, j as int)),
            j == 0 || !is_white_space(t@[j - 1]),
        decreases j,
    {
        if !is_space(t.get_char(j - 1)) {
            break;
        }
        assert(t@.subrange(0, j as int).drop_last() =~= t@.subrange(0, j - 1));
        j = j - 1;
    }
    t.substring_char(0, j)
}

/// `p` is a prefix of `s`.
pub open spec fn has_prefix(s: Seq<char>, p: Seq<char>) -> bool {
    p.len() <= s.len() && s.subrange(0, p.len() as int) == p
}

/// The pieces that `s` falls into when cut at every occurrence of `sep`
/// (as `str::split` gives them: `n` separators make `n + 1` pieces).
pub open spec fn pieces(s: Seq<char>, sep: char) -> Seq<Seq<char>>
    decreases s.len(),
{
    if s.len() == 0 {
        seq![Seq::<char>::empty()]
    } else {
        let rest = pieces(s.drop_last(), sep);
        if s.last() == sep {
            rest.push(Seq::<char>::empty())
        } else {
            rest.update(rest.len() - 1, rest.last().push(s.last()))
        }
    }
}

/// The address with a WebSocket scheme in front, unless it has one.
pub open spec fn with_scheme(t: Seq<char>) -> Seq<char> {
    if has_prefix(t, "ws://"@) || has_prefix(t, "wss://"@) {
        t
    } else {
        "ws://"@ + t
    }
}

/// Whether the default port is added to the scheme-prefixed address `u`:
/// it has no port, and what follows the first colon is a dotted quad or
/// exactly `localhost`.
pub open spec fn wants_port(u: Seq<char>) -> bool {
    let parts = pieces(u, ':');
    parts.len() == 2 && (pieces(parts[1], '.').len() == 4 || parts[1] == "localhost"@)
}

/// The endpoint that a given address resolves to.
pub open spec fn resolve_raw(raw: Seq<char>) -> Seq<char> {
    let u = with_scheme(trimmed(raw));
    if wants_port(u) {
        u + ":9090"@
    } else {
        u
    }
}

/// The endpoint for an optional address.
pub open spec fn resolved(uri: Option<Seq<char>>) -> Seq<char> {
    match uri {
        Some(raw) => resolve_raw(raw),
        None => DEFAULT_URI@,
    }
}

/// Whether `s` starts with `p`.
pub fn starts_with(s: &str, p: &str) -> (r: bool)
    ensures
        r == has_prefix(s@, p@),
{
    let n = s.unicode_len();
    let m = p.unicode_len();
    if m > n {
        return false;
    }
    let mut i: usize = 0;
    while i < m
        invariant
            m == p@.len(),
            n == s@.len(),
            m <= n,
            i <= m,
            s@.subrange(0, i as int) == p@.subrange(0, i as int),
        decreases m - i,
    {
        if s.get_char(i) != p.get_char(i) {
            assert(s@.subrange(0, m as int)[i as int] != p@[i as int]);
            return false;
        }
        assert(s@.subrange(0, i + 1) =~= s@.subrange(0, i as int).push(s@[i as int]));
        assert(p@.subrange(0, i + 1) =~= p@.subrange(0, i as int).push(p@[i as int]));
        i = i + 1;
    }
    assert(p@.subrange(0, m as int) =~= p@);
    true
}

/// Whether `a` and `b` hold the same characters.
pub fn same_text(a: &str, b: &str) -> (r: bool)
    ensures
        r == (a@ == b@),
{
    if a.unicode_len() != b.unicode_len() {
        return false;
    }
    let r = starts_with(a, b);
    assert(a@ =~= a@.subrange(0, b@.len() as int));
    r
}

/// How `s` falls into pieces at `sep`: the number of separators, and where
/// the last piece starts.
pub fn cut(s: &str, sep: char) -> (r: (usize, usize))
    ensures
        pieces(s@, sep).len() == r.0 + 1,
        r.1 <= s@.len(),
        pieces(s@, sep).last() == s@.subrange(r.1 as int, s@.len() as int),
{
    let n = s.unicode_len();
    let mut count: usize = 0;
    let mut start: usize = 0;
    let mut i: usize = 0;
    assert(s@.subrange(0, 0) =~= Seq::<char>::empty());
    while i < n
        invariant
            n == s@.len(),
            i <= n,
            count <= i,
            start <= i,
            pieces(s@.subrange(0, i as int), sep).len() == count + 1,
            pieces(s@.subrange(0, i as int), sep).last() == s@.subrange(start as int, i as int),
        decreases n - i,
    {
        let c = s.get_char(i);
        let ghost t = s@.subrange(0, i + 1);
        assert(t.drop_last() =~= s@.subrange(0, i as int));
        if c == sep {
            count = count + 1;
            start = i + 1;
            assert(s@.subrange(start as int, i + 1) =~= Seq::<char>::empty());
        } else {
            assert(s@.subrange(start as int, i + 1) =~= s@.subrange(start as int, i as int).push(c));
        }
        i = i + 1;
    }
    assert(s@.subrange(0, n as int) =~= s@);
    (count, start)
}

} // verus!
