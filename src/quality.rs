//! How credible a cleaned text is as a boss name. Scores are in hundredths of
//! a point.
use vstd::prelude::*;

use crate::chars::{char_is_alphabetic, char_is_numeric, char_is_uppercase, char_is_whitespace, chars_of, is_alpha, is_num, is_upper};
use crate::cleaning::sep;

verus! {

pub open spec fn is_alpha_at(t: Seq<char>, i: int) -> bool {
    is_alpha(t[i])
}

/// The number of letters in `t`.
pub open spec fn letters(t: Seq<char>) -> nat
    decreases t.len(),
{
    if t.len() == 0 {
        0
    } else {
        letters(t.drop_last()) + if is_alpha(t.last()) { 1nat } else { 0 }
    }
}

/// The number of distinct letters in `t`.
pub open spec fn distinct_letters(t: Seq<char>) -> nat
    decreases t.len(),
{
    if t.len() == 0 {
        0
    } else {
        distinct_letters(t.drop_last()) + if is_alpha(t.last()) && !t.drop_last().contains(
            t.last(),
        ) {
            1nat
        } else {
            0
        }
    }
}

/// The number of numeric characters in `t`.
pub open spec fn digits(t: Seq<char>) -> nat
    decreases t.len(),
{
    if t.len() == 0 {
        0
    } else {
        digits(t.drop_last()) + if is_num(t.last()) { 1nat } else { 0 }
    }
}

/// Symbols that never stand in a name.
pub open spec fn suspicious(c: char) -> bool {
    c == '&' || c == '@' || c == '#' || c == '$' || c == '%' || c == '*' || c == '=' || c == '+'
        || c == '<' || c == '>' || c == '|' || c == '\\' || c == '/' || c == '^' || c == '~' || c
        == '`' || c == '{' || c == '}' || c == '[' || c == ']' || c == ';'
}

/// The number of such symbols in `t`.
pub open spec fn suspicious_count(t: Seq<char>) -> nat
    decreases t.len(),
{
    if t.len() == 0 {
        0
    } else {
        suspicious_count(t.drop_last()) + if suspicious(t.last()) { 1nat } else { 0 }
    }
}

/// The number of words in `t`: runs of characters that are not separators.
pub open spec fn words(t: Seq<char>) -> nat
    decreases t.len(),
{
    if t.len() == 0 {
        0
    } else {
        let p = t.drop_last();
        words(p) + if !sep(t.last()) && (p.len() == 0 || sep(p.last())) { 1nat } else { 0 }
    }
}

/// Three equal characters in a row, or a run `ABABA` followed by one more
/// character.
#[verifier::opaque]
pub open spec fn repetitive(t: Seq<char>) -> bool {
    ((exists|i: int|
        0 <= i && i + 2 < t.len() && #[trigger] t[i] == t[i + 1] && t[i] == t[i + 2]) || (exists|
        i: int,
    |
        0 <= i && i + 5 < t.len() && #[trigger] t[i] == t[i + 2] && t[i] == t[i + 4] && t[i + 1]
            == t[i + 3]))
}

/// Two equal characters side by side.
#[verifier::opaque]
pub open spec fn consecutive_duplicates(t: Seq<char>) -> bool {
    exists|i: int| 0 <= i && i + 1 < t.len() && #[trigger] t[i] == t[i + 1]
}

/// `..`, `--` or `,,` somewhere in `t`.
#[verifier::opaque]
pub open spec fn doubled_punctuation(t: Seq<char>) -> bool {
    exists|i: int|
        0 <= i && i + 1 < t.len() && #[trigger] t[i] == t[i + 1] && (t[i] == '.' || t[i] == '-'
            || t[i] == ',')
}

/// The last two characters are equal, in a text of three characters or more.
pub open spec fn final_duplication(t: Seq<char>) -> bool {
    t.len() >= 3 && t[t.len() - 1] == t[t.len() - 2]
}

/// The points for the share of letters: up to twenty, in hundredths.
#[verifier::opaque]
pub open spec fn letter_share(l: int, n: int) -> int {
    (2000 * l) / n
}

/// Points for a length of `n` characters: best from 8 to 50, fair from 5
/// to 70.
pub open spec fn length_points(n: int) -> int {
    if 8 <= n <= 50 {
        1500
    } else if 5 <= n <= 70 {
        800
    } else {
        -500
    }
}

/// Points for `w` words: best from 2 to 5, fair for one, a penalty above 6.
pub open spec fn word_points(w: int) -> int {
    if 2 <= w <= 5 {
        1000
    } else if w == 1 {
        500
    } else if w > 6 {
        -500
    } else {
        0
    }
}

pub open spec fn abs_diff(a: int, b: int) -> int {
    if a >= b { a - b } else { b - a }
}

/// Points for the size of a text of `n` characters, `w` words, `lp` points
/// for its share of letters, `s` suspicious symbols and `d` digits.
pub open spec fn size_points(n: int, w: int, lp: int, s: int, d: int) -> int {
    length_points(n) + word_points(w) + lp - 800 * s + (if d > 2 { -300 * d } else { 0 })
}

/// Points for its first character and for what cleaning took away.
pub open spec fn shape_points(upper_first: bool, diff: int) -> int {
    (if upper_first { 500int } else { 0 }) + (if diff > 15 { -30 * diff } else { 0 })
}

/// Points for repetitions: `l` letters of which `u` distinct.
pub open spec fn pattern_points(
    l: int,
    u: int,
    rep: bool,
    dup: bool,
    dbl: bool,
    space: bool,
    fin: bool,
) -> int {
    (if rep { -1200int } else { 0 }) + (if l > 0 && 5 * u > 2 * l && !dup { 500int } else { 0 }) + (
    if dbl {
        -500int
    } else {
        0
    }) + (if space { 300int } else { 0 }) + (if fin { -800int } else { 0 })
}

/// The score before it is clamped at zero, from the measures of a text.
pub open spec fn points(
    n: int,
    w: int,
    lp: int,
    l: int,
    u: int,
    d: int,
    s: int,
    upper_first: bool,
    diff: int,
    rep: bool,
    dup: bool,
    dbl: bool,
    space: bool,
    fin: bool,
) -> int {
    size_points(n, w, lp, s, d) + shape_points(upper_first, diff) + pattern_points(
        l,
        u,
        rep,
        dup,
        dbl,
        space,
        fin,
    )
}

/// The score before it is clamped at zero, for a text of five characters or
/// more; `raw_len` is the length of the text before cleaning.
#[verifier::opaque]
pub open spec fn raw_quality(t: Seq<char>, raw_len: int) -> int {
    points(
        t.len() as int,
        words(t) as int,
        letter_share(letters(t) as int, t.len() as int),
        letters(t) as int,
        distinct_letters(t) as int,
        digits(t) as int,
        suspicious_count(t) as int,
        is_upper(t[0]),
        abs_diff(raw_len, t.len() as int),
        repetitive(t),
        consecutive_duplicates(t),
        doubled_punctuation(t),
        t.contains(' '),
        final_duplication(t),
    )
}

/// The score of a cleaned text: zero under five characters, never negative.
pub open spec fn quality(t: Seq<char>, raw_len: int) -> int {
    if t.len() < 5 {
        0
    } else if raw_quality(t, raw_len) < 0 {
        0
    } else {
        raw_quality(t, raw_len)
    }
}

pub fn has_repetitive_patterns(text: &Vec<char>) -> (r: bool)
    ensures
        r == repetitive(text@),
{
    reveal(repetitive);
    let n = text.len();
    let mut i: usize = 0;
    while i < n && n - i > 2
        invariant
            n == text@.len(),
            i <= n,
            forall|j: int| 0 <= j < i && j + 2 < n ==> !(#[trigger] text@[j] == text@[j + 1] && text@[j] == text@[j + 2]),
        decreases n - i,
    {
        if text[i] == text[i + 1] && text[i] == text[i + 2] {
            assert(text@[i as int] == text@[i + 1] && text@[i as int] == text@[i + 2]);
            proof {
                reveal(repetitive);
            }
            return true;
        }
        i = i + 1;
    }
    let mut i: usize = 0;
    while i < n && n - i > 5
        invariant
            n == text@.len(),
            i <= n,
            forall|j: int| 0 <= j && j + 2 < n ==> !(#[trigger] text@[j] == text@[j + 1] && text@[j] == text@[j + 2]),
            forall|j: int|
                0 <= j < i && j + 5 < n ==> !(#[trigger] text@[j] == text@[j + 2] && text@[j] == text@[j + 4]
                    && text@[j + 1] == text@[j + 3]),
        decreases n - i,
    {
        if text[i] == text[i + 2] && text[i] == text[i + 4] && text[i + 1] == text[i + 3] {
            assert(text@[i as int] == text@[i + 2] && text@[i as int] == text@[i + 4] && text@[i + 1]
                == text@[i + 3]);
            proof {
                reveal(repetitive);
            }
            return true;
        }
        i = i + 1;
    }
    false
}

pub fn has_consecutive_duplicates(text: &Vec<char>) -> (r: bool)
    ensures
        r == consecutive_duplicates(text@),
{
    reveal(consecutive_duplicates);
    let n = text.len();
    let mut i: usize = 0;
    while i < n && n - i > 1
        invariant
            n == text@.len(),
            i <= n,
            forall|j: int| 0 <= j < i && j + 1 < n ==> !(#[trigger] text@[j] == text@[j + 1]),
        decreases n - i,
    {
        if text[i] == text[i + 1] {
            assert(text@[i as int] == text@[i + 1]);
            proof {
                reveal(consecutive_duplicates);
            }
            return true;
        }
        i = i + 1;
    }
    false
}

pub fn has_suspicious_final_duplication(text: &Vec<char>) -> (r: bool)
    ensures
        r == final_duplication(text@),
{
    let n = text.len();
    if n < 3 {
        return false;
    }
    text[n - 1] == text[n - 2]
}

fn has_doubled_punctuation(text: &Vec<char>) -> (r: bool)
    ensures
        r == doubled_punctuation(text@),
{
    reveal(doubled_punctuation);
    let n = text.len();
    let mut i: usize = 0;
    while i < n && n - i > 1
        invariant
            n == text@.len(),
            i <= n,
            forall|j: int|
                0 <= j < i && j + 1 < n ==> !(#[trigger] text@[j] == text@[j + 1] && (text@[j] == '.'
                    || text@[j] == '-' || text@[j] == ',')),
        decreases n - i,
    {
        if text[i] == text[i + 1] && (text[i] == '.' || text[i] == '-' || text[i] == ',') {
            assert(text@[i as int] == text@[i + 1]);
            proof {
                reveal(doubled_punctuation);
            }
            return true;
        }
        i = i + 1;
    }
    false
}

fn contains_char(text: &Vec<char>, c: char) -> (r: bool)
    ensures
        r == text@.contains(c),
{
    let mut i: usize = 0;
    while i < text.len()
        invariant
            forall|j: int| 0 <= j < i ==> text@[j] != c,
        decreases text@.len() - i,
    {
        if text[i] == c {
            return true;
        }
        i = i + 1;
    }
    false
}

fn is_suspicious(c: char) -> (r: bool)
    ensures
        r == suspicious(c),
{
    c == '&' || c == '@' || c == '#' || c == '$' || c == '%' || c == '*' || c == '=' || c == '+'
        || c == '<' || c == '>' || c == '|' || c == '\\' || c == '/' || c == '^' || c == '~' || c
        == '`' || c == '{' || c == '}' || c == '[' || c == ']' || c == ';'
}

/// Counts, in one pass: letters, distinct letters, digits, suspicious symbols
/// and words.
fn tally(t: &Vec<char>) -> (r: (usize, usize, usize, usize, usize))
    ensures
        r.0 == letters(t@),
        r.1 == distinct_letters(t@),
        r.2 == digits(t@),
        r.3 == suspicious_count(t@),
        r.4 == words(t@),
        letters(t@) <= t@.len(),
{
    let mut l: usize = 0;
    let mut u: usize = 0;
    let mut d: usize = 0;
    let mut s: usize = 0;
    let mut w: usize = 0;
    let mut i: usize = 0;
    while i < t.len()
        invariant
            i <= t@.len(),
            l == letters(t@.take(i as int)),
            u == distinct_letters(t@.take(i as int)),
            d == digits(t@.take(i as int)),
            s == suspicious_count(t@.take(i as int)),
            w == words(t@.take(i as int)),
            l <= i && u <= i && d <= i && s <= i && w <= i,
        decreases t@.len() - i,
    {
        let c = t[i];
        let ghost p = t@.take(i as int);
        assert(t@.take(i + 1).drop_last() =~= p);
        if char_is_alphabetic(c) {
            l = l + 1;
            let mut seen = false;
            let mut j: usize = 0;
            while j < i
                invariant
                    j <= i < t@.len(),
                    seen == t@.take(j as int).contains(c),
                decreases i - j,
            {
                if t[j] == c {
                    seen = true;
                    assert(t@.take(j + 1)[j as int] == c);
                }
                assert(t@.take(j as int) =~= t@.take(j + 1).drop_last());
                j = j + 1;
            }
            if !seen {
                u = u + 1;
            }
        }
        if char_is_numeric(c) {
            d = d + 1;
        }
        if is_suspicious(c) {
            s = s + 1;
        }
        let is_sep = c == ' ' || char_is_whitespace(c);
        if !is_sep {
            let starts = if i == 0 {
                true
            } else {
                let b = t[i - 1];
                b == ' ' || char_is_whitespace(b)
            };
            if starts {
                w = w + 1;
            }
        }
        i = i + 1;
    }
    assert(t@.take(t@.len() as int) =~= t@);
    (l, u, d, s, w)
}

fn length_points_of(n: usize) -> (r: i128)
    ensures
        r == length_points(n as int),
{
    if 8 <= n && n <= 50 {
        1500
    } else if 5 <= n && n <= 70 {
        800
    } else {
        -500
    }
}

fn word_points_of(w: usize) -> (r: i128)
    ensures
        r == word_points(w as int),
{
    if 2 <= w && w <= 5 {
        1000
    } else if w == 1 {
        500
    } else if w > 6 {
        -500
    } else {
        0
    }
}

fn letter_points_of(l: usize, n: usize) -> (r: i128)
    requires
        l <= n,
        n > 0,
    ensures
        r == letter_share(l as int, n as int),
        0 <= r <= 2000,
{
    reveal(letter_share);
    assert(2000 * l <= 2000 * n) by (nonlinear_arith)
        requires
            l <= n,
    ;
    let r = (2000 * (l as i128)) / (n as i128);
    assert(0 <= r <= 2000) by (nonlinear_arith)
        requires
            r == (2000 * (l as int)) / (n as int),
            l <= n,
            n > 0,
    ;
    r
}

fn size_points_of(n: usize, w: usize, lp: i128, s: usize, d: usize) -> (r: i128)
    requires
        0 <= lp <= 2000,
    ensures
        r == size_points(n as int, w as int, lp as int, s as int, d as int),
        r <= 4500,
{
    let a = length_points_of(n);
    let b = word_points_of(w);
    let e: i128 = 0 - 800 * (s as i128);
    let f: i128 = if d > 2 { 0 - 300 * (d as i128) } else { 0 };
    a + b + lp + e + f
}

fn shape_points_of(upper_first: bool, diff: usize) -> (r: i128)
    ensures
        r == shape_points(upper_first, diff as int),
        r <= 500,
{
    let g: i128 = if upper_first { 500 } else { 0 };
    let h: i128 = if diff > 15 { 0 - 30 * (diff as i128) } else { 0 };
    g + h
}

fn pattern_points_of(l: usize, u: usize, rep: bool, dup: bool, dbl: bool, space: bool, fin: bool) -> (r: i128)
    ensures
        r == pattern_points(l as int, u as int, rep, dup, dbl, space, fin),
        r <= 800,
{
    let k: i128 = if rep { -1200 } else { 0 };
    let m: i128 = if l > 0 && 5 * (u as i128) > 2 * (l as i128) && !dup { 500 } else { 0 };
    let o: i128 = if dbl { -500 } else { 0 };
    let p: i128 = if space { 300 } else { 0 };
    let q: i128 = if fin { -800 } else { 0 };
    k + m + o + p + q
}

/// The score of a text of five characters or more, before clamping.
fn raw_score(t: &Vec<char>, raw_len: usize) -> (r: i128)
    requires
        t@.len() >= 5,
    ensures
        r == raw_quality(t@, raw_len as int),
        r <= 5800,
{
    let n = t.len();
    let (l, u, d, s, w) = tally(t);
    let lp = letter_points_of(l, n);
    let up = char_is_uppercase(t[0]);
    let diff: usize = if raw_len >= n { raw_len - n } else { n - raw_len };
    let rep = has_repetitive_patterns(t);
    let dup = has_consecutive_duplicates(t);
    let dbl = has_doubled_punctuation(t);
    let space = contains_char(t, ' ');
    let fin = has_suspicious_final_duplication(t);
    let r = size_points_of(n, w, lp, s, d) + shape_points_of(up, diff) + pattern_points_of(
        l,
        u,
        rep,
        dup,
        dbl,
        space,
        fin,
    );
    proof {
        reveal(raw_quality);
    }
    r
}

/// The credibility of `cleaned` as a boss name, in hundredths of a point;
/// `raw` is the text as recognised, before cleaning.
pub fn calculate_universal_text_quality(cleaned: &str, raw: &str) -> (r: u64)
    ensures
        r == quality(cleaned@, raw@.len() as int),
        r >= 0,
        cleaned@.len() < 5 ==> r == 0,
{
    let t = chars_of(cleaned);
    if t.len() < 5 {
        return 0;
    }
    let score = raw_score(&t, raw.unicode_len());
    if score < 0 {
        0
    } else {
        score as u64
    }
}

} // verus!
