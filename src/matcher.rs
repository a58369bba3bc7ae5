//! Deciding whether recognised text announces a death.
use vstd::prelude::*;

use crate::chars::{char_is_whitespace, chars_of, string_of, upper_of, uppercase};
use crate::cleaning::sep;

verus! {

/// `t` stands somewhere in `s` as a run of consecutive characters.
pub open spec fn occurs_in(s: Seq<char>, t: Seq<char>) -> bool {
    exists|i: int| 0 <= i && i + t.len() <= s.len() && #[trigger] s.subrange(i, i + t.len()) == t
}

/// An accented capital replaced by its plain letter.
pub open spec fn unaccent(c: char) -> char {
    if c == 'Ü' {
        'U'
    } else if c == 'È' || c == 'É' {
        'E'
    } else {
        c
    }
}

/// `s` without separators, accents replaced.
pub open spec fn squashed(s: Seq<char>) -> Seq<char>
    decreases s.len(),
{
    if s.len() == 0 {
        s
    } else if sep(s.last()) {
        squashed(s.drop_last())
    } else {
        squashed(s.drop_last()).push(unaccent(s.last()))
    }
}

/// `s` without separators.
pub open spec fn spaceless(s: Seq<char>) -> Seq<char>
    decreases s.len(),
{
    if s.len() == 0 {
        s
    } else if sep(s.last()) {
        spaceless(s.drop_last())
    } else {
        spaceless(s.drop_last()).push(s.last())
    }
}

/// The text, upper-cased, holds the phrase upper-cased, as it stands or with
/// separators and accents taken out.
pub open spec fn death_text_matches(text: Seq<char>, phrase: Seq<char>) -> bool {
    occurs_in(upper_of(text), upper_of(phrase)) || occurs_in(
        squashed(upper_of(text)),
        spaceless(upper_of(phrase)),
    )
}

fn occurs(s: &Vec<char>, t: &Vec<char>) -> (r: bool)
    ensures
        r == occurs_in(s@, t@),
{
    if t.len() > s.len() {
        return false;
    }
    let n = s.len();
    let last = n - t.len();
    let mut i: usize = 0;
    while i <= last
        invariant
            last == s@.len() - t@.len(),
            n == s@.len(),
            t@.len() <= s@.len(),
            forall|k: int| 0 <= k < i ==> #[trigger] s@.subrange(k, k + t@.len()) != t@,
        ensures
            forall|k: int| 0 <= k <= last ==> #[trigger] s@.subrange(k, k + t@.len()) != t@,
        decreases last + 1 - i,
    {
        let mut j: usize = 0;
        let mut same = true;
        assert(s@.subrange(i as int, i as int) =~= t@.take(0));
        while j < t.len()
            invariant
                i <= last,
                t@.len() <= s@.len(),
                n == s@.len(),
                last == s@.len() - t@.len(),
                j <= t@.len(),
                same == (s@.subrange(i as int, i + j) == t@.take(j as int)),
            decreases t@.len() - j,
        {
            if s[i + j] != t[j] {
                same = false;
                assert(s@.subrange(i as int, i + j + 1)[j as int] != t@.take(j + 1)[j as int]);
            } else if same {
                assert(s@.subrange(i as int, i + j + 1) =~= t@.take(j + 1));
            }
            if !same {
                assert(s@.subrange(i as int, i + j + 1).take(j as int) =~= s@.subrange(i as int, i + j));
                assert(t@.take(j + 1).take(j as int) =~= t@.take(j as int));
            }
            j = j + 1;
        }
        assert(t@.take(t@.len() as int) =~= t@);
        if same {
            return true;
        }
        assert(s@.subrange(i as int, i + t@.len()) != t@);
        if i == last {
            break;
        }
        i = i + 1;
    }
    proof {
        if occurs_in(s@, t@) {
            let k = choose|k: int| 0 <= k && k + t@.len() <= s@.len() && #[trigger] s@.subrange(k, k + t@.len()) == t@;
            assert(s@.subrange(k, k + t@.len()) != t@);
        }
    }
    false
}

fn is_sep(c: char) -> (r: bool)
    ensures
        r == sep(c),
{
    c == ' ' || char_is_whitespace(c)
}

fn squash(s: &Vec<char>, strip_accents: bool) -> (r: Vec<char>)
    ensures
        strip_accents ==> r@ == squashed(s@),
        !strip_accents ==> r@ == spaceless(s@),
{
    let mut r: Vec<char> = Vec::new();
    let mut i: usize = 0;
    while i < s.len()
        invariant
            i <= s@.len(),
            strip_accents ==> r@ == squashed(s@.take(i as int)),
            !strip_accents ==> r@ == spaceless(s@.take(i as int)),
        decreases s@.len() - i,
    {
        let c = s[i];
        assert(s@.take(i + 1).drop_last() =~= s@.take(i as int));
        if !is_sep(c) {
            let d = if !strip_accents {
                c
            } else if c == 'Ü' {
                'U'
            } else if c == 'È' || c == 'É' {
                'E'
            } else {
                c
            };
            r.push(d);
        }
        i = i + 1;
    }
    assert(s@.take(s@.len() as int) =~= s@);
    r
}

/// Whether the recognised `text` holds the death phrase, as it stands or
/// with separators and accents taken out, both sides upper-cased.
pub fn is_death_text(text: &str, death_text: &str) -> (r: bool)
    ensures
        r == death_text_matches(text@, death_text@),
{
    let upper = chars_of(uppercase(text).as_str());
    let phrase = chars_of(uppercase(death_text).as_str());
    if occurs(&upper, &phrase) {
        return true;
    }
    let squashed_text = squash(&upper, true);
    let squashed_phrase = squash(&phrase, false);
    occurs(&squashed_text, &squashed_phrase)
}

/// The recognised text as it is compared: upper-cased, without separators,
/// accents replaced.
pub fn normalize_death_text(text: &str) -> (r: String)
    ensures
        r@ == squashed(upper_of(text@)),
{
    let upper = chars_of(uppercase(text).as_str());
    string_of(&squash(&upper, true))
}

/// Similarity, in percent, above which a text counts as the death phrase.
pub const FUZZY_DEATH_PERCENT: u64 = 80;

/// A death is read when the text holds the phrase, or when its similarity to
/// the phrase (in percent) is above the fuzzy threshold.
pub fn is_death_detected(text: &str, death_text: &str, similarity_percent: u64) -> (r: bool)
    ensures
        r == (death_text_matches(text@, death_text@) || similarity_percent > FUZZY_DEATH_PERCENT),
{
    is_death_text(text, death_text) || similarity_percent > FUZZY_DEATH_PERCENT
}

} // verus!
