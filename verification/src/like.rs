//! SQL `LIKE` pattern matching, used by every free-text filter field.
//!
//! `%` matches any (possibly empty) run of characters, `_` matches exactly
//! one character, and every other pattern character matches itself. The
//! whole text must be covered: `"back%"` matches `"backup"` but `"%back"`
//! does not.

use vstd::prelude::*;
use vstd::string::StrSliceExecFns;

verus! {

/// Whether the pattern `p` matches the whole text `s`, under SQL `LIKE`
/// semantics.
pub open spec fn spec_like(p: Seq<char>, s: Seq<char>) -> bool
    decreases p.len() + s.len(),
{
    if p.len() == 0 {
        s.len() == 0
    } else if p[0] == '%' {
        spec_like(p.drop_first(), s) || (s.len() > 0 && spec_like(p, s.drop_first()))
    } else if s.len() > 0 && (p[0] == '_' || p[0] == s[0]) {
        spec_like(p.drop_first(), s.drop_first())
    } else {
        false
    }
}

/// The characters of `s`, in order.
fn to_chars(s: &str) -> (r: Vec<char>)
    ensures
        r@ == s@,
{
    let n = s.unicode_len();
    let mut r: Vec<char> = Vec::with_capacity(n);
    let mut i: usize = 0;
    while i < n
        invariant
            i <= n,
            n == s@.len(),
            r@ == s@.take(i as int),
        decreases n - i,
    {
        let c = s.get_char(i);
        r.push(c);
        proof {
            assert(s@.take(i as int).push(s@[i as int]) =~= s@.take(i as int + 1));
        }
        i += 1;
    }
    proof {
        assert(r@ =~= s@);
    }
    r
}

/// Matches `p[i..]` against `s[j..]`.
fn like_from(p: &Vec<char>, s: &Vec<char>, i: usize, j: usize) -> (r: bool)
    requires
        i <= p@.len(),
        j <= s@.len(),
    ensures
        r == spec_like(p@.skip(i as int), s@.skip(j as int)),
    decreases p@.len() - i + s@.len() - j,
{
    proof {
        if i < p@.len() {
            assert(p@.skip(i as int)[0] == p@[i as int]);
            assert(p@.skip(i as int).drop_first() =~= p@.skip(i as int + 1));
        }
        if j < s@.len() {
            assert(s@.skip(j as int)[0] == s@[j as int]);
            assert(s@.skip(j as int).drop_first() =~= s@.skip(j as int + 1));
        }
    }
    if i == p.len() {
        proof {
            assert(p@.skip(i as int) =~= Seq::<char>::empty());
        }
        return j == s.len();
    }
    let c = p[i];
    if c == '%' {
        if like_from(p, s, i + 1, j) {
            return true;
        }
        if j < s.len() {
            return like_from(p, s, i, j + 1);
        }
        return false;
    }
    if j < s.len() {
        let d = s[j];
        if c == '_' || c == d {
            return like_from(p, s, i + 1, j + 1);
        }
    }
    false
}

/// Whether `pattern` matches the whole of `text`.
pub fn like_match(pattern: &str, text: &str) -> (r: bool)
    ensures
        r == spec_like(pattern@, text@),
{
    let p = to_chars(pattern);
    let s = to_chars(text);
    let r = like_from(&p, &s, 0, 0);
    proof {
        assert(p@.skip(0) =~= p@);
        assert(s@.skip(0) =~= s@);
    }
    r
}

} // verus!
