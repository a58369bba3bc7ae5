//! Boss names as the store compares them: trimmed, upper-cased, and measured
//! against each other by edit distance.
use vstd::prelude::*;

use crate::chars::{chars_of, string_of, upper_of, uppercase};
use crate::cleaning::sep;

verus! {

/// The Levenshtein distance that strsim computes between two strings.
pub uninterp spec fn levenshtein_of(a: Seq<char>, b: Seq<char>) -> nat;

/// Relies on strsim::levenshtein: the number of single-character insertions,
/// deletions and substitutions that turn one string into the other.
#[verifier::external_body]
fn edit_distance(a: &str, b: &str) -> (r: usize)
    ensures
        r == levenshtein_of(a@, b@),
{
    strsim::levenshtein(a, b)
}

/// `s` without its leading separators.
pub open spec fn trim_front(s: Seq<char>) -> Seq<char>
    decreases s.len(),
{
    if s.len() > 0 && sep(s[0]) {
        trim_front(s.drop_first())
    } else {
        s
    }
}

/// `s` without its trailing separators.
pub open spec fn trim_back(s: Seq<char>) -> Seq<char>
    decreases s.len(),
{
    if s.len() > 0 && sep(s.last()) {
        trim_back(s.drop_last())
    } else {
        s
    }
}

/// `s` without separators at either end.
pub open spec fn trimmed(s: Seq<char>) -> Seq<char> {
    trim_back(trim_front(s))
}

/// How a name is compared: trimmed, then upper-cased.
pub open spec fn normalized(s: Seq<char>) -> Seq<char> {
    upper_of(trimmed(s))
}

/// The longer of two lengths.
pub open spec fn longer(a: Seq<char>, b: Seq<char>) -> nat {
    if a.len() >= b.len() { a.len() } else { b.len() }
}

/// The distance between `a` and `b` as a fraction of the longer length,
/// numerator first; two empty strings are at distance zero.
pub open spec fn distance_ratio(a: Seq<char>, b: Seq<char>) -> (nat, nat) {
    if longer(a, b) == 0 {
        (0, 1)
    } else {
        (levenshtein_of(a, b), longer(a, b))
    }
}

/// The normalized Levenshtein similarity of `a` and `b` is at least 0.80,
/// that is, their distance is at most a fifth of the longer length.
pub open spec fn similar_enough(a: Seq<char>, b: Seq<char>) -> bool {
    5 * distance_ratio(a, b).0 <= distance_ratio(a, b).1
}

/// `a` is closer to `n` than `b` is, by normalized similarity.
pub open spec fn closer(n: Seq<char>, a: Seq<char>, b: Seq<char>) -> bool {
    distance_ratio(n, a).0 * distance_ratio(n, b).1 < distance_ratio(n, b).0 * distance_ratio(n, a).1
}

pub fn trim_chars(s: &Vec<char>) -> (r: Vec<char>)
    ensures
        r@ == trimmed(s@),
{
    let n = s.len();
    let mut a: usize = 0;
    assert(s@.skip(0) =~= s@);
    while a < n && (s[a] == ' ' || crate::chars::char_is_whitespace(s[a]))
        invariant
            n == s@.len(),
            a <= n,
            trim_front(s@) == trim_front(s@.skip(a as int)),
        decreases n - a,
    {
        assert(s@.skip(a as int).drop_first() =~= s@.skip(a + 1));
        a = a + 1;
    }
    let ghost front = s@.skip(a as int);
    assert(trim_front(front) == front);
    let mut b: usize = n;
    while b > a && (s[b - 1] == ' ' || crate::chars::char_is_whitespace(s[b - 1]))
        invariant
            n == s@.len(),
            a <= b <= n,
            front == s@.skip(a as int),
            trim_back(front) == trim_back(s@.subrange(a as int, b as int)),
        decreases b,
    {
        assert(s@.subrange(a as int, b as int).drop_last() =~= s@.subrange(a as int, b - 1));
        b = b - 1;
    }
    assert(b == n ==> s@.subrange(a as int, b as int) =~= front);
    let mut r: Vec<char> = Vec::new();
    let mut i: usize = a;
    while i < b
        invariant
            a <= i <= b <= n,
            n == s@.len(),
            r@ == s@.subrange(a as int, i as int),
        decreases b - i,
    {
        r.push(s[i]);
        i = i + 1;
        assert(r@ =~= s@.subrange(a as int, i as int));
    }
    r
}

/// A name as the store compares it.
pub fn normalize_name(name: &str) -> (r: String)
    ensures
        r@ == normalized(name@),
{
    let t = string_of(&trim_chars(&chars_of(name)));
    uppercase(t.as_str())
}

/// The distance from `n` to `t` as a fraction of the longer length.
pub fn name_distance(n: &str, t: &str) -> (r: (usize, usize))
    ensures
        r.0 == distance_ratio(n@, t@).0,
        r.1 == distance_ratio(n@, t@).1,
        r.1 > 0,
{
    let a = n.unicode_len();
    let b = t.unicode_len();
    let m = if a >= b { a } else { b };
    if m == 0 {
        (0, 1)
    } else {
        (edit_distance(n, t), m)
    }
}

} // verus!
