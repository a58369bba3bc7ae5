//! Cleaning of recognised text: only the characters that a name can hold,
//! with single spaces between words.
use vstd::prelude::*;

use crate::chars::{char_is_alphabetic, char_is_whitespace, chars_of, is_alpha, is_ws, string_of};

verus! {

/// A character that separates words.
pub open spec fn sep(c: char) -> bool {
    c == ' ' || is_ws(c)
}

/// A character that cleaning keeps.
pub open spec fn keeps(c: char) -> bool {
    sep(c) || is_alpha(c) || c == '\'' || c == '-' || c == ',' || c == ':' || c == '.' || c == '('
        || c == ')'
}

/// The characters of `s` that cleaning keeps, in order.
pub open spec fn filtered(s: Seq<char>) -> Seq<char>
    decreases s.len(),
{
    if s.len() == 0 {
        s
    } else if keeps(s.last()) {
        filtered(s.drop_last()).push(s.last())
    } else {
        filtered(s.drop_last())
    }
}

/// The words of `s` joined by single spaces, read from left to right; the flag
/// says whether a separator follows the last word.
pub open spec fn squeeze(s: Seq<char>) -> (Seq<char>, bool)
    decreases s.len(),
{
    if s.len() == 0 {
        (Seq::empty(), false)
    } else {
        let (o, gap) = squeeze(s.drop_last());
        let c = s.last();
        if sep(c) {
            (o, true)
        } else if gap && o.len() > 0 {
            (o.push(' ').push(c), false)
        } else {
            (o.push(c), false)
        }
    }
}

/// What cleaning makes of `s`.
pub open spec fn cleaned(s: Seq<char>) -> Seq<char> {
    squeeze(filtered(s)).0
}

/// Words made of kept characters, separated by single spaces, with none at
/// either end.
pub open spec fn normal(t: Seq<char>) -> bool {
    &&& forall|i: int| 0 <= i < t.len() ==> keeps(#[trigger] t[i])
    &&& forall|i: int| 0 <= i < t.len() ==> (#[trigger] t[i] == ' ' || !sep(t[i]))
    &&& forall|i: int|
        0 <= i < t.len() && #[trigger] t[i] == ' ' ==> 0 < i < t.len() - 1 && t[i + 1] != ' '
}

proof fn lemma_filtered_keeps(s: Seq<char>)
    ensures
        forall|i: int| 0 <= i < filtered(s).len() ==> keeps(#[trigger] filtered(s)[i]),
    decreases s.len(),
{
    if s.len() > 0 {
        let p = s.drop_last();
        lemma_filtered_keeps(p);
        if keeps(s.last()) {
            let f = filtered(p);
            assert forall|i: int| 0 <= i < f.push(s.last()).len() implies keeps(
                #[trigger] f.push(s.last())[i],
            ) by {
                if i < f.len() {
                    assert(keeps(f[i]));
                }
            }
        }
    }
}

proof fn lemma_filtered_all_kept(t: Seq<char>)
    requires
        forall|i: int| 0 <= i < t.len() ==> keeps(#[trigger] t[i]),
    ensures
        filtered(t) == t,
    decreases t.len(),
{
    if t.len() > 0 {
        lemma_filtered_all_kept(t.drop_last());
        assert(t.drop_last().push(t.last()) =~= t);
    }
}

proof fn lemma_squeeze_normal(s: Seq<char>)
    requires
        forall|i: int| 0 <= i < s.len() ==> keeps(#[trigger] s[i]),
    ensures
        normal(squeeze(s).0),
    decreases s.len(),
{
    if s.len() > 0 {
        let p = s.drop_last();
        lemma_squeeze_normal(p);
        let (o, gap) = squeeze(p);
        let c = s.last();
        assert(keeps(s[s.len() - 1]));
        if !sep(c) {
            if gap && o.len() > 0 {
                let t = o.push(' ').push(c);
                assert(o[o.len() - 1] == ' ' || !sep(o[o.len() - 1]));
                assert forall|i: int| 0 <= i < t.len() && #[trigger] t[i] == ' ' implies 0 < i < t.len()
                    - 1 && t[i + 1] != ' ' by {
                    if i < o.len() {
                        assert(o[i] == ' ');
                    }
                }
                assert forall|i: int| 0 <= i < t.len() implies keeps(#[trigger] t[i]) by {
                    if i < o.len() {
                        assert(keeps(o[i]));
                    }
                }
                assert forall|i: int| 0 <= i < t.len() implies (#[trigger] t[i] == ' ' || !sep(
                    t[i],
                )) by {
                    if i < o.len() {
                        assert(o[i] == ' ' || !sep(o[i]));
                    }
                }
            } else {
                let t = o.push(c);
                assert forall|i: int| 0 <= i < t.len() && #[trigger] t[i] == ' ' implies 0 < i < t.len()
                    - 1 && t[i + 1] != ' ' by {
                    assert(o[i] == ' ');
                }
                assert forall|i: int| 0 <= i < t.len() implies keeps(#[trigger] t[i]) by {
                    if i < o.len() {
                        assert(keeps(o[i]));
                    }
                }
                assert forall|i: int| 0 <= i < t.len() implies (#[trigger] t[i] == ' ' || !sep(
                    t[i],
                )) by {
                    if i < o.len() {
                        assert(o[i] == ' ' || !sep(o[i]));
                    }
                }
            }
        }
    }
}

proof fn lemma_squeeze_of_normal(t: Seq<char>)
    requires
        normal(t),
    ensures
        squeeze(t) == (t, false),
    decreases t.len(),
{
    if t.len() > 0 {
        let n = t.len();
        let u = t.drop_last();
        let c = t.last();
        assert(t[n - 1] == ' ' || !sep(t[n - 1]));
        if t[n - 1] == ' ' {
            assert(false);
        }
        assert(!sep(c));
        if u.len() > 0 && u.last() == ' ' {
            assert(t[n - 2] == ' ');
            let v = t.take(n - 2);
            assert forall|i: int| 0 <= i < v.len() && #[trigger] v[i] == ' ' implies 0 < i < v.len()
                - 1 && v[i + 1] != ' ' by {
                assert(t[i] == ' ');
            }
            assert forall|i: int| 0 <= i < v.len() implies keeps(#[trigger] v[i]) by {
                assert(keeps(t[i]));
            }
            assert forall|i: int| 0 <= i < v.len() implies (#[trigger] v[i] == ' ' || !sep(v[i])) by {
                assert(t[i] == ' ' || !sep(t[i]));
            }
            lemma_squeeze_of_normal(v);
            assert(u.drop_last() =~= v);
            assert(sep(u.last()));
            assert(squeeze(u) == (v, true));
            assert(v.push(' ').push(c) =~= t);
        } else {
            assert forall|i: int| 0 <= i < u.len() && #[trigger] u[i] == ' ' implies 0 < i < u.len()
                - 1 && u[i + 1] != ' ' by {
                assert(t[i] == ' ');
            }
            assert forall|i: int| 0 <= i < u.len() implies keeps(#[trigger] u[i]) by {
                assert(keeps(t[i]));
            }
            assert forall|i: int| 0 <= i < u.len() implies (#[trigger] u[i] == ' ' || !sep(u[i])) by {
                assert(t[i] == ' ' || !sep(t[i]));
            }
            lemma_squeeze_of_normal(u);
            assert(u.push(c) =~= t);
        }
    }
}

/// Cleaning is idempotent: text that was cleaned once is left as it is.
pub proof fn lemma_clean_idempotent(s: Seq<char>)
    ensures
        cleaned(cleaned(s)) == cleaned(s),
{
    lemma_filtered_keeps(s);
    lemma_squeeze_normal(filtered(s));
    let t = cleaned(s);
    lemma_filtered_all_kept(t);
    lemma_squeeze_of_normal(t);
}

/// Keeps the letters of any script, apostrophes, hyphens, commas, colons,
/// periods and parentheses; words end up separated by single spaces, with
/// none at either end.
pub fn clean_ocr_text_universal(text: &str) -> (r: String)
    ensures
        r@ == cleaned(text@),
{
    let cs = chars_of(text);
    let mut out: Vec<char> = Vec::new();
    let mut gap = false;
    let mut i: usize = 0;
    while i < cs.len()
        invariant
            cs@ == text@,
            i <= cs@.len(),
            (out@, gap) == squeeze(filtered(cs@.take(i as int))),
        decreases cs@.len() - i,
    {
        let c = cs[i];
        let ghost prefix = cs@.take(i as int);
        assert(cs@.take(i + 1).drop_last() =~= prefix);
        let is_sep = c == ' ' || char_is_whitespace(c);
        let kept = is_sep || char_is_alphabetic(c) || c == '\'' || c == '-' || c == ',' || c == ':'
            || c == '.' || c == '(' || c == ')';
        if kept {
            assert(filtered(cs@.take(i + 1)) == filtered(prefix).push(c));
            assert(filtered(prefix).push(c).drop_last() =~= filtered(prefix));
            if is_sep {
                gap = true;
            } else {
                if gap && out.len() > 0 {
                    out.push(' ');
                }
                out.push(c);
                gap = false;
            }
        } else {
            assert(filtered(cs@.take(i + 1)) == filtered(prefix));
        }
        i = i + 1;
    }
    assert(cs@.take(cs@.len() as int) =~= cs@);
    string_of(&out)
}

} // verus!
