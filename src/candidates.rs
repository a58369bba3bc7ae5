//! Choosing a boss name among the texts read from several renderings of one
//! screen zone.
use vstd::prelude::*;

use crate::cleaning::{clean_ocr_text_universal, cleaned};
use crate::quality::{calculate_universal_text_quality, quality};

verus! {

/// The bonus, in hundredths of a point, that each rendering giving the same
/// text adds to it.
pub const CONSENSUS_BONUS: u64 = 250;

/// A death names at most this many bosses.
pub const MAX_BOSS_NAMES: usize = 2;

/// A best candidate must score above this, in hundredths of a point.
pub const MIN_BOSS_SCORE: u64 = 500;

/// How many candidates carry the text `t`.
pub open spec fn occurrences(c: Seq<(String, u64)>, t: Seq<char>) -> nat
    decreases c.len(),
{
    if c.len() == 0 {
        0
    } else {
        occurrences(c.drop_last(), t) + if c.last().0@ == t { 1nat } else { 0 }
    }
}

/// The score of candidate `i` once every candidate with the same text has
/// added its bonus.
pub open spec fn boosted(c: Seq<(String, u64)>, i: int) -> int {
    c[i].1 + CONSENSUS_BONUS * occurrences(c, c[i].0@)
}

/// Index `k` holds the highest boosted score, and no earlier index holds as
/// much.
pub open spec fn is_best(c: Seq<(String, u64)>, k: int) -> bool {
    &&& 0 <= k < c.len()
    &&& forall|j: int| 0 <= j < c.len() ==> boosted(c, j) <= boosted(c, k)
    &&& forall|j: int| 0 <= j < k ==> boosted(c, j) < boosted(c, k)
}

/// The candidate, if any, that a recognised text gives: its cleaned text
/// and that text's score.
pub open spec fn candidate_of(raw: Seq<char>) -> Option<(Seq<char>, int)> {
    if cleaned(raw).len() == 0 {
        None
    } else {
        Some((cleaned(raw), quality(cleaned(raw), raw.len() as int)))
    }
}

/// Cleans and scores one recognised text; an empty cleaned text gives no
/// candidate.
pub fn candidate_from_text(raw: &str) -> (r: Option<(String, u64)>)
    ensures
        r is None <==> candidate_of(raw@) is None,
        r matches Some(p) ==> candidate_of(raw@) == Some((p.0@, p.1 as int)),
{
    let c = clean_ocr_text_universal(raw);
    if c.unicode_len() == 0 {
        None
    } else {
        let s = calculate_universal_text_quality(c.as_str(), raw);
        Some((c, s))
    }
}

fn count_text(c: &Vec<(String, u64)>, t: &String) -> (r: usize)
    ensures
        r == occurrences(c@, t@),
{
    let mut k: usize = 0;
    let mut i: usize = 0;
    while i < c.len()
        invariant
            i <= c@.len(),
            k == occurrences(c@.take(i as int), t@),
            k <= i,
        decreases c@.len() - i,
    {
        assert(c@.take(i + 1).drop_last() =~= c@.take(i as int));
        if c[i].0 == *t {
            k = k + 1;
        }
        i = i + 1;
    }
    assert(c@.take(c@.len() as int) =~= c@);
    k
}

/// Every candidate with its score raised by the consensus bonus once for
/// each candidate carrying the same text, itself included.
pub fn boost_candidates(c: &Vec<(String, u64)>) -> (r: Vec<(String, u128)>)
    ensures
        r@.len() == c@.len(),
        forall|i: int|
            #![trigger r@[i]]
            0 <= i < c@.len() ==> r@[i].0@ == c@[i].0@ && r@[i].1 == boosted(c@, i),
{
    let mut r: Vec<(String, u128)> = Vec::new();
    let mut i: usize = 0;
    while i < c.len()
        invariant
            i <= c@.len(),
            r@.len() == i,
            forall|j: int|
                #![trigger r@[j]]
                0 <= j < i ==> r@[j].0@ == c@[j].0@ && r@[j].1 == boosted(c@, j),
        decreases c@.len() - i,
    {
        let k = count_text(c, &c[i].0);
        let s = (c[i].1 as u128) + 250 * (k as u128);
        r.push((c[i].0.clone(), s));
        i = i + 1;
    }
    r
}

/// The index of the first candidate with the highest boosted score; `None`
/// when there is no candidate.
pub fn best_candidate_index(c: &Vec<(String, u64)>) -> (r: Option<usize>)
    ensures
        r is None <==> c@.len() == 0,
        r matches Some(k) ==> is_best(c@, k as int),
{
    let b = boost_candidates(c);
    if b.len() == 0 {
        return None;
    }
    let mut k: usize = 0;
    let mut i: usize = 1;
    while i < b.len()
        invariant
            b@.len() == c@.len(),
            forall|j: int|
                #![trigger b@[j]]
                0 <= j < c@.len() ==> b@[j].0@ == c@[j].0@ && b@[j].1 == boosted(c@, j),
            1 <= i <= c@.len(),
            0 <= k < i,
            forall|j: int| 0 <= j < i ==> boosted(c@, j) <= boosted(c@, k as int),
            forall|j: int| 0 <= j < k ==> boosted(c@, j) < boosted(c@, k as int),
        decreases c@.len() - i,
    {
        assert(b@[i as int].0@ == c@[i as int].0@);
        assert(b@[k as int].0@ == c@[k as int].0@);
        if b[i].1 > b[k].1 {
            k = i;
        }
        i = i + 1;
    }
    Some(k)
}

/// Consensus outweighs a small lead: a text read by more renderings ranks
/// above one read by fewer, unless the latter's own score leads by at least
/// the bonus times the difference in readings. So a text read three times
/// outranks one read once when their scores differ by less than twice the
/// bonus, and it is the best candidate when it outranks every other text.
pub proof fn lemma_consensus_outranks(c: Seq<(String, u64)>, i: int, j: int)
    requires
        0 <= i < c.len(),
        0 <= j < c.len(),
        occurrences(c, c[i].0@) > occurrences(c, c[j].0@),
        c[j].1 < c[i].1 + CONSENSUS_BONUS * (occurrences(c, c[i].0@) - occurrences(c, c[j].0@)),
    ensures
        boosted(c, i) > boosted(c, j),
{
}

/// A candidate whose boosted score is above that of every candidate with
/// another text, and which is the first with its text, is the best.
pub proof fn lemma_first_of_top_text_is_best(c: Seq<(String, u64)>, i: int)
    requires
        0 <= i < c.len(),
        forall|j: int| 0 <= j < c.len() && c[j].0@ != c[i].0@ ==> boosted(c, j) < boosted(c, i),
        forall|j: int| 0 <= j < c.len() && c[j].0@ == c[i].0@ ==> c[j].1 <= c[i].1,
        forall|j: int| 0 <= j < i && c[j].0@ == c[i].0@ ==> c[j].1 < c[i].1,
    ensures
        is_best(c, i),
{
}

/// The name that a zone gives: the best candidate, when its boosted score is
/// above the minimum.
pub open spec fn zone_name(c: Seq<(String, u64)>) -> Option<Seq<char>> {
    if exists|k: int| is_best(c, k) && boosted(c, k) > MIN_BOSS_SCORE {
        Some(c[choose|k: int| is_best(c, k)].0@)
    } else {
        None
    }
}

proof fn lemma_best_unique(c: Seq<(String, u64)>, a: int, b: int)
    requires
        is_best(c, a),
        is_best(c, b),
    ensures
        a == b,
{
    if a < b {
        assert(boosted(c, a) < boosted(c, b));
    } else if b < a {
        assert(boosted(c, b) < boosted(c, a));
    }
}

/// The boss name of one zone, from the candidates of its renderings.
pub fn select_boss_name(c: &Vec<(String, u64)>) -> (r: Option<String>)
    ensures
        r is None <==> zone_name(c@) is None,
        r matches Some(s) ==> zone_name(c@) == Some(s@),
{
    match best_candidate_index(c) {
        None => None,
        Some(k) => {
            let b = boost_candidates(c);
            assert(b@[k as int].0@ == c@[k as int].0@);
            proof {
                let kk = choose|x: int| is_best(c@, x);
                lemma_best_unique(c@, k as int, kk);
                if exists|x: int| is_best(c@, x) && boosted(c@, x) > MIN_BOSS_SCORE {
                    let x = choose|x: int| is_best(c@, x) && boosted(c@, x) > MIN_BOSS_SCORE;
                    lemma_best_unique(c@, k as int, x);
                }
            }
            if b[k].1 > 500 {
                Some(c[k].0.clone())
            } else {
                None
            }
        },
    }
}

/// The names of the zones scanned in order, up to the first zone that gives
/// none.
pub open spec fn zone_names(zones: Seq<Vec<(String, u64)>>) -> Seq<Seq<char>>
    decreases zones.len(),
{
    if zones.len() == 0 {
        Seq::empty()
    } else {
        match zone_name(zones[0]@) {
            None => Seq::empty(),
            Some(n) => seq![n] + zone_names(zones.drop_first()),
        }
    }
}

/// How many names a scan keeps: those of the zones, at most two.
pub open spec fn kept_names(zones: Seq<Vec<(String, u64)>>) -> int {
    if zone_names(zones).len() <= MAX_BOSS_NAMES {
        zone_names(zones).len() as int
    } else {
        MAX_BOSS_NAMES as int
    }
}

/// Scans the zones in priority order and keeps the name of each, stopping
/// at the first zone whose best candidate is not strong enough, and once two
/// names are found.
pub fn collect_boss_names(zones: &Vec<Vec<(String, u64)>>) -> (r: Vec<String>)
    ensures
        r@.len() == kept_names(zones@),
        r@.len() <= MAX_BOSS_NAMES,
        forall|i: int| 0 <= i < r@.len() ==> #[trigger] r@[i]@ == zone_names(zones@)[i],
{
    let mut r: Vec<String> = Vec::new();
    let mut i: usize = 0;
    assert(zones@.skip(0) =~= zones@);
    assert(r@.map_values(|s: String| s@) =~= Seq::<Seq<char>>::empty());
    while i < zones.len()
        invariant
            i <= zones@.len(),
            r@.len() <= MAX_BOSS_NAMES,
            zone_names(zones@) =~= r@.map_values(|s: String| s@) + zone_names(zones@.skip(i as int)),
        decreases zones@.len() - i,
    {
        if r.len() == MAX_BOSS_NAMES {
            assert(r@.map_values(|s: String| s@).len() == 2);
            return r;
        }
        assert(zones@.skip(i as int).drop_first() =~= zones@.skip(i + 1));
        match select_boss_name(&zones[i]) {
            None => {
                assert(zone_names(zones@.skip(i as int)) =~= Seq::empty());
                assert(r@.map_values(|s: String| s@) + Seq::<Seq<char>>::empty() =~= r@.map_values(|s: String| s@));
                return r;
            },
            Some(n) => {
                let ghost before = r@.map_values(|s: String| s@);
                r.push(n);
                assert(r@.map_values(|s: String| s@) =~= before.push(n@));
            },
        }
        i = i + 1;
    }
    assert(zones@.skip(i as int) =~= Seq::<Vec<(String, u64)>>::empty());
    r
}

} // verus!
