//! Text helpers shared by the rules: joining, trimming a repeated affix,
//! finding the last occurrence of a character, and the order of names.

use vstd::prelude::*;
use vstd::string::*;

verus! {

/// Whether `s` begins with `p`.
pub open spec fn starts_with(s: Seq<char>, p: Seq<char>) -> bool {
    p.len() <= s.len() && s.subrange(0, p.len() as int) =~= p
}

/// Whether `s` ends with `p`.
pub open spec fn ends_with(s: Seq<char>, p: Seq<char>) -> bool {
    p.len() <= s.len() && s.subrange(s.len() - p.len(), s.len() as int) =~= p
}

/// `s` without every leading repetition of `p`. An empty `p` removes nothing.
pub open spec fn trim_start(s: Seq<char>, p: Seq<char>) -> Seq<char>
    decreases s.len(),
{
    if p.len() > 0 && starts_with(s, p) {
        trim_start(s.subrange(p.len() as int, s.len() as int), p)
    } else {
        s
    }
}

/// `s` without every trailing repetition of `p`. An empty `p` removes nothing.
pub open spec fn trim_end(s: Seq<char>, p: Seq<char>) -> Seq<char>
    decreases s.len(),
{
    if p.len() > 0 && ends_with(s, p) {
        trim_end(s.subrange(0, s.len() - p.len()), p)
    } else {
        s
    }
}

/// Position of the last `c` in `s`, or -1 where `s` holds none.
pub open spec fn last_position(s: Seq<char>, c: char) -> int
    decreases s.len(),
{
    if s.len() == 0 {
        -1
    } else if s.last() == c {
        s.len() - 1
    } else {
        last_position(s.drop_last(), c)
    }
}

/// What follows the last `c` in `s`; all of `s` where it holds none.
pub open spec fn after_last(s: Seq<char>, c: char) -> Seq<char> {
    s.subrange(last_position(s, c) + 1, s.len() as int)
}

/// What precedes the last `c` in `s`; nothing where it holds none.
pub open spec fn before_last(s: Seq<char>, c: char) -> Seq<char> {
    if last_position(s, c) < 0 {
        Seq::empty()
    } else {
        s.subrange(0, last_position(s, c))
    }
}

/// The order of names: character by character, a proper prefix first.
pub open spec fn name_le(a: Seq<char>, b: Seq<char>) -> bool
    decreases a.len(),
{
    if a.len() == 0 {
        true
    } else if b.len() == 0 {
        false
    } else if a[0] != b[0] {
        (a[0] as int) < (b[0] as int)
    } else {
        name_le(a.subrange(1, a.len() as int), b.subrange(1, b.len() as int))
    }
}

/// Any two names are ordered one way or the other.
pub proof fn name_le_total(a: Seq<char>, b: Seq<char>)
    ensures
        name_le(a, b) || name_le(b, a),
    decreases a.len(),
{
    if a.len() > 0 && b.len() > 0 {
        if a[0] == b[0] {
            name_le_total(a.subrange(1, a.len() as int), b.subrange(1, b.len() as int));
        }
    }
}

/// Two names that are ordered both ways are the same name.
pub proof fn name_le_antisymmetric(a: Seq<char>, b: Seq<char>)
    requires
        name_le(a, b),
        name_le(b, a),
    ensures
        a == b,
    decreases a.len(),
{
    if a.len() > 0 && b.len() > 0 {
        let ta = a.subrange(1, a.len() as int);
        let tb = b.subrange(1, b.len() as int);
        name_le_antisymmetric(ta, tb);
        assert(a =~= seq![a[0]] + ta);
        assert(b =~= seq![b[0]] + tb);
    } else {
        assert(a =~= b);
    }
}

/// The order of names is transitive.
pub proof fn name_le_transitive(a: Seq<char>, b: Seq<char>, c: Seq<char>)
    requires
        name_le(a, b),
        name_le(b, c),
    ensures
        name_le(a, c),
    decreases a.len(),
{
    if a.len() > 0 && b.len() > 0 && c.len() > 0 && a[0] == b[0] && b[0] == c[0] {
        name_le_transitive(
            a.subrange(1, a.len() as int),
            b.subrange(1, b.len() as int),
            c.subrange(1, c.len() as int),
        );
    }
}

/// Names that agree on their first `i` characters are ordered as their rests.
pub proof fn name_le_skip(a: Seq<char>, b: Seq<char>, i: int)
    requires
        0 <= i <= a.len(),
        i <= b.len(),
        forall|k: int| 0 <= k < i ==> a[k] == b[k],
    ensures
        name_le(a, b) == name_le(a.subrange(i, a.len() as int), b.subrange(i, b.len() as int)),
    decreases i,
{
    if i == 0 {
        assert(a.subrange(0, a.len() as int) =~= a);
        assert(b.subrange(0, b.len() as int) =~= b);
    } else {
        let ta = a.subrange(1, a.len() as int);
        let tb = b.subrange(1, b.len() as int);
        name_le_skip(ta, tb, i - 1);
        assert(ta.subrange(i - 1, ta.len() as int) =~= a.subrange(i, a.len() as int));
        assert(tb.subrange(i - 1, tb.len() as int) =~= b.subrange(i, b.len() as int));
    }
}

/// Decides the order of two names.
pub fn name_before_or_equal(a: &str, b: &str) -> (r: bool)
    ensures
        r == name_le(a@, b@),
{
    let n: usize = a.unicode_len();
    let m: usize = b.unicode_len();
    let mut i: usize = 0;
    while i < n && i < m
        invariant
            n == a@.len(),
            m == b@.len(),
            i <= n,
            i <= m,
            forall|k: int| 0 <= k < i ==> a@[k] == b@[k],
        decreases n - i,
    {
        let x: char = a.get_char(i);
        let y: char = b.get_char(i);
        if x != y {
            proof {
                name_le_skip(a@, b@, i as int);
            }
            return (x as u32) < (y as u32);
        }
        i = i + 1;
    }
    proof {
        name_le_skip(a@, b@, i as int);
    }
    i == n
}

/// `a` followed by `b`.
pub fn join(a: &str, b: &str) -> (r: String)
    ensures
        r@ == a@ + b@,
{
    String::from_str(a).concat(b)
}

/// `a`, `b` and `c` in a row.
pub fn join3(a: &str, b: &str, c: &str) -> (r: String)
    ensures
        r@ == a@ + b@ + c@,
{
    String::from_str(a).concat(b).concat(c)
}

/// Whether `p` stands in `s` at position `at`.
fn matches_at(s: &str, at: usize, p: &str, n: usize, m: usize) -> (r: bool)
    requires
        n == s@.len(),
        m == p@.len(),
        at + m <= n,
    ensures
        r == (s@.subrange(at as int, at + m) =~= p@),
{
    let mut k: usize = 0;
    while k < m
        invariant
            n == s@.len(),
            m == p@.len(),
            at + m <= n,
            k <= m,
            forall|j: int| 0 <= j < k ==> s@[at + j] == p@[j],
        decreases m - k,
    {
        if s.get_char(at + k) != p.get_char(k) {
            assert(s@.subrange(at as int, at + m)[k as int] != p@[k as int]);
            return false;
        }
        k = k + 1;
    }
    true
}

/// Whether two texts are the same.
pub fn same_text(a: &str, b: &str) -> (r: bool)
    ensures
        r == (a@ == b@),
{
    let n: usize = a.unicode_len();
    let m: usize = b.unicode_len();
    if n != m {
        return false;
    }
    assert(a@.subrange(0, n as int) =~= a@);
    matches_at(a, 0, b, n, m)
}

/// `s` without every leading repetition of `p`.
pub fn trim_start_matches(s: &str, p: &str) -> (r: String)
    ensures
        r@ == trim_start(s@, p@),
{
    let n: usize = s.unicode_len();
    let m: usize = p.unicode_len();
    let mut from: usize = 0;
    assert(s@.subrange(0, n as int) =~= s@);
    if m > 0 {
        while m <= n - from && matches_at(s, from, p, n, m)
            invariant
                n == s@.len(),
                m == p@.len(),
                m > 0,
                from <= n,
                trim_start(s@, p@) == trim_start(s@.subrange(from as int, n as int), p@),
            decreases n - from,
        {
            proof {
                let rest = s@.subrange(from as int, n as int);
                assert(rest.subrange(0, m as int) =~= s@.subrange(from as int, from + m));
                assert(rest.subrange(m as int, rest.len() as int) =~= s@.subrange(
                    from + m,
                    n as int,
                ));
            }
            from = from + m;
        }
        proof {
            let rest = s@.subrange(from as int, n as int);
            if m <= n - from {
                assert(rest.subrange(0, m as int) =~= s@.subrange(from as int, from + m));
            }
        }
    }
    String::from_str(s.substring_char(from, n))
}

/// `s` without every trailing repetition of `p`.
pub fn trim_end_matches(s: &str, p: &str) -> (r: String)
    ensures
        r@ == trim_end(s@, p@),
{
    let n: usize = s.unicode_len();
    let m: usize = p.unicode_len();
    let mut to: usize = n;
    assert(s@.subrange(0, n as int) =~= s@);
    if m > 0 {
        while m <= to && matches_at(s, to - m, p, n, m)
            invariant
                n == s@.len(),
                m == p@.len(),
                m > 0,
                to <= n,
                trim_end(s@, p@) == trim_end(s@.subrange(0, to as int), p@),
            decreases to,
        {
            proof {
                let rest = s@.subrange(0, to as int);
                assert(rest.subrange(rest.len() - m, rest.len() as int) =~= s@.subrange(
                    to - m,
                    to as int,
                ));
                assert(rest.subrange(0, rest.len() - m) =~= s@.subrange(0, to - m));
            }
            to = to - m;
        }
        proof {
            let rest = s@.subrange(0, to as int);
            if m <= to {
                assert(rest.subrange(rest.len() - m, rest.len() as int) =~= s@.subrange(
                    to - m,
                    to as int,
                ));
            }
        }
    }
    String::from_str(s.substring_char(0, to))
}

/// The position of a character's last occurrence is the one after which it
/// no longer occurs.
proof fn last_position_is(s: Seq<char>, c: char, i: int)
    requires
        -1 <= i < s.len(),
        i >= 0 ==> s[i] == c,
        forall|k: int| i < k < s.len() ==> s[k] != c,
    ensures
        last_position(s, c) == i,
    decreases s.len(),
{
    if s.len() > 0 && s.last() != c {
        last_position_is(s.drop_last(), c, i);
    }
}

/// Finds the last `c` in `s`.
pub fn rfind_char(s: &str, c: char) -> (r: Option<usize>)
    ensures
        match r {
            Some(i) => i == last_position(s@, c) && i < s@.len(),
            None => last_position(s@, c) == -1,
        },
{
    let n: usize = s.unicode_len();
    let mut i: usize = n;
    while i > 0
        invariant
            n == s@.len(),
            i <= n,
            forall|k: int| i <= k < n ==> s@[k] != c,
        decreases i,
    {
        if s.get_char(i - 1) == c {
            proof {
                last_position_is(s@, c, i - 1);
            }
            return Some(i - 1);
        }
        i = i - 1;
    }
    proof {
        last_position_is(s@, c, -1);
    }
    None
}

} // verus!
