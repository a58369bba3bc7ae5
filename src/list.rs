//! The ordered collection of counters, and how detected boss names fold
//! into it.
use vstd::prelude::*;

use crate::chars::{upper_of, uppercase};
use crate::hotkey::HotkeyMessage;
use crate::names::{closer, distance_ratio, name_distance, normalize_name, normalized, similar_enough, trim_chars, trimmed};
use crate::chars::{chars_of, string_of};
use crate::ids::fresh_id;
use crate::recorder::{bumped, Recorder, RecorderKind, RecorderModel};

verus! {

/// How many totals stand at the front of the collection.
pub const GLOBAL_COUNT: usize = 2;

/// The models of a sequence of counters.
pub open spec fn models(v: Seq<Recorder>) -> Seq<RecorderModel> {
    v.map_values(|r: Recorder| r@)
}

/// The total of deaths first, the total of boss deaths second, and boss
/// counters after them.
pub open spec fn store_wf(ms: Seq<RecorderModel>) -> bool {
    &&& ms.len() >= 2
    &&& ms[0].kind == RecorderKind::GlobalDeaths
    &&& ms[1].kind == RecorderKind::GlobalBosses
    &&& forall|i: int| 2 <= i < ms.len() ==> (#[trigger] ms[i]).kind == RecorderKind::Classic
}

/// A counter after an ordinary increment: one more, unless paused.
pub open spec fn counted(m: RecorderModel) -> RecorderModel {
    RecorderModel { counter: if m.active { bumped(m.counter) } else { m.counter }, ..m }
}

/// A counter after a decrement: one less, never below zero.
pub open spec fn decremented(m: RecorderModel) -> RecorderModel {
    RecorderModel { counter: if m.counter > 0 { (m.counter - 1) as u128 } else { 0 }, ..m }
}

/// Boss counter `i` has the title `n` once upper-cased.
pub open spec fn is_exact(ms: Seq<RecorderModel>, n: Seq<char>, i: int) -> bool {
    0 <= i < ms.len() && ms[i].kind == RecorderKind::Classic && upper_of(ms[i].title) == n
}

pub open spec fn first_exact(ms: Seq<RecorderModel>, n: Seq<char>, i: int) -> bool {
    is_exact(ms, n, i) && forall|j: int| 0 <= j < i ==> !is_exact(ms, n, j)
}

pub open spec fn has_exact(ms: Seq<RecorderModel>, n: Seq<char>) -> bool {
    exists|i: int| is_exact(ms, n, i)
}

/// The first boss counter whose title matches `n` exactly.
pub open spec fn exact_index(ms: Seq<RecorderModel>, n: Seq<char>) -> int {
    choose|i: int| first_exact(ms, n, i)
}

/// Boss counter `i` has a title, upper-cased, within a similarity of 0.80
/// of `n`.
pub open spec fn is_similar(ms: Seq<RecorderModel>, n: Seq<char>, i: int) -> bool {
    0 <= i < ms.len() && ms[i].kind == RecorderKind::Classic && similar_enough(n, upper_of(ms[i].title))
}

pub open spec fn has_similar(ms: Seq<RecorderModel>, n: Seq<char>) -> bool {
    exists|i: int| is_similar(ms, n, i)
}

/// Counter `k` is the first of the most similar boss counters.
pub open spec fn is_most_similar(ms: Seq<RecorderModel>, n: Seq<char>, k: int) -> bool {
    &&& is_similar(ms, n, k)
    &&& forall|j: int|
        is_similar(ms, n, j) ==> !closer(n, upper_of(ms[j].title), upper_of(ms[k].title))
    &&& forall|j: int|
        0 <= j < k && is_similar(ms, n, j) ==> closer(n, upper_of(ms[k].title), upper_of(ms[j].title))
}

pub open spec fn similar_index(ms: Seq<RecorderModel>, n: Seq<char>) -> int {
    choose|k: int| is_most_similar(ms, n, k)
}

/// Counter `i`, incremented, moved to just after the totals.
pub open spec fn promoted(ms: Seq<RecorderModel>, i: int) -> Seq<RecorderModel> {
    ms.remove(i).insert(GLOBAL_COUNT as int, counted(ms[i]))
}

/// What a detected boss `name` makes of the counters `ms`: the first exact
/// match, or else the most similar boss counter, is incremented and moved to
/// just after the totals; with neither, a new boss counter titled `name`
/// stands there, at one.
pub open spec fn boss_death_result(
    ms: Seq<RecorderModel>,
    name: Seq<char>,
    after: Seq<RecorderModel>,
) -> bool {
    let n = normalized(name);
    if has_exact(ms, n) {
        first_exact(ms, n, exact_index(ms, n)) && after == promoted(ms, exact_index(ms, n))
    } else if has_similar(ms, n) {
        is_most_similar(ms, n, similar_index(ms, n)) && after == promoted(ms, similar_index(ms, n))
    } else {
        &&& after.len() == ms.len() + 1
        &&& after.remove(GLOBAL_COUNT as int) == ms
        &&& !has_id(ms, after[GLOBAL_COUNT as int].id)
        &&& after[GLOBAL_COUNT as int].title == name
        &&& after[GLOBAL_COUNT as int].counter == 1
        &&& after[GLOBAL_COUNT as int].active
        &&& after[GLOBAL_COUNT as int].kind == RecorderKind::Classic
    }
}

/// A change to one counter.
#[derive(Clone, Copy, Debug, PartialEq, Eq, Structural)]
pub enum RecorderOp {
    Increment,
    Decrement,
    Reset,
    Toggle,
}

/// A counter after the change.
pub open spec fn applied(m: RecorderModel, op: RecorderOp) -> RecorderModel {
    match op {
        RecorderOp::Increment => counted(m),
        RecorderOp::Decrement => decremented(m),
        RecorderOp::Reset => RecorderModel { counter: 0, ..m },
        RecorderOp::Toggle => RecorderModel { active: !m.active, ..m },
    }
}

pub open spec fn first_id(ms: Seq<RecorderModel>, id: u128, i: int) -> bool {
    0 <= i < ms.len() && ms[i].id == id && forall|j: int| 0 <= j < i ==> ms[j].id != id
}

pub open spec fn has_id(ms: Seq<RecorderModel>, id: u128) -> bool {
    exists|i: int| 0 <= i < ms.len() && ms[i].id == id
}

/// The position of the first counter with identifier `id`.
pub open spec fn id_index(ms: Seq<RecorderModel>, id: u128) -> int {
    choose|i: int| first_id(ms, id, i)
}

/// The counters after the change to the first one with identifier `id`;
/// unchanged when there is none.
pub open spec fn changed_by_id(ms: Seq<RecorderModel>, id: u128, op: RecorderOp) -> Seq<RecorderModel> {
    if has_id(ms, id) {
        ms.update(id_index(ms, id), applied(ms[id_index(ms, id)], op))
    } else {
        ms
    }
}

/// The counters without the first one with identifier `id`, when that one is
/// a boss counter; the totals are never removed.
pub open spec fn deleted_by_id(ms: Seq<RecorderModel>, id: u128) -> Seq<RecorderModel> {
    if has_id(ms, id) && ms[id_index(ms, id)].kind == RecorderKind::Classic {
        ms.remove(id_index(ms, id))
    } else {
        ms
    }
}

/// The counters after the first one with identifier `id` was retitled.
pub open spec fn retitled_by_id(ms: Seq<RecorderModel>, id: u128, title: Seq<char>) -> Seq<RecorderModel> {
    if has_id(ms, id) {
        ms.update(id_index(ms, id), RecorderModel { title, ..ms[id_index(ms, id)] })
    } else {
        ms
    }
}

/// Where a dragged counter lands when dropped on `target`.
pub open spec fn landing(source: int, target: int) -> int {
    if source < target { target - 1 } else { target }
}

/// The boss counter at `source` dropped on `target`; the totals stay in
/// front, and a drop outside the boss counters changes nothing.
pub open spec fn moved(ms: Seq<RecorderModel>, source: int, target: int) -> Seq<RecorderModel> {
    if source != target && GLOBAL_COUNT <= source < ms.len() && GLOBAL_COUNT <= landing(source, target)
        < ms.len() {
        ms.remove(source).insert(landing(source, target), ms[source])
    } else {
        ms
    }
}

/// A name that the detection accepted: one with something besides
/// separators.
pub open spec fn accepted_names(names: Seq<Seq<char>>) -> Seq<Seq<char>>
    decreases names.len(),
{
    if names.len() == 0 {
        Seq::empty()
    } else {
        let rest = accepted_names(names.drop_last());
        if trimmed(names.last()).len() > 0 {
            rest.push(trimmed(names.last()))
        } else {
            rest
        }
    }
}

/// The names joined by ` - `.
pub open spec fn joined(names: Seq<Seq<char>>) -> Seq<char>
    decreases names.len(),
{
    if names.len() == 0 {
        Seq::empty()
    } else if names.len() == 1 {
        names[0]
    } else {
        joined(names.drop_last()) + seq![' ', '-', ' '] + names.last()
    }
}

/// What a boss detection with the names `names` makes of the counters: with
/// no accepted name, nothing; else the total of boss deaths counts one, and
/// the accepted names, joined, fold in as one boss.
pub open spec fn boss_detection_result(
    ms: Seq<RecorderModel>,
    names: Seq<Seq<char>>,
    after: Seq<RecorderModel>,
) -> bool {
    if accepted_names(names).len() == 0 {
        after == ms
    } else {
        boss_death_result(ms.update(1, counted(ms[1])), joined(accepted_names(names)), after)
    }
}

/// A detected name equal, once trimmed and upper-cased, to the upper-cased
/// title of a boss counter increments that counter and adds none.
pub proof fn lemma_exact_match_increments(
    ms: Seq<RecorderModel>,
    name: Seq<char>,
    after: Seq<RecorderModel>,
    i: int,
)
    requires
        store_wf(ms),
        boss_death_result(ms, name, after),
        is_exact(ms, normalized(name), i),
    ensures
        after.len() == ms.len(),
        is_exact(ms, normalized(name), exact_index(ms, normalized(name))),
        after[GLOBAL_COUNT as int] == counted(ms[exact_index(ms, normalized(name))]),
{
}

/// A detected name with no exact match but within a similarity of 0.80 of a
/// boss counter's title increments the most similar such counter and adds
/// none.
pub proof fn lemma_fuzzy_match_increments(
    ms: Seq<RecorderModel>,
    name: Seq<char>,
    after: Seq<RecorderModel>,
    i: int,
)
    requires
        store_wf(ms),
        boss_death_result(ms, name, after),
        !has_exact(ms, normalized(name)),
        is_similar(ms, normalized(name), i),
    ensures
        after.len() == ms.len(),
        is_similar(ms, normalized(name), similar_index(ms, normalized(name))),
        after[GLOBAL_COUNT as int] == counted(ms[similar_index(ms, normalized(name))]),
{
}

/// A detected name that matches no boss counter exactly and lies below a
/// similarity of 0.80 of every one makes exactly one new boss counter, at
/// one, and leaves the others as they were.
pub proof fn lemma_no_match_creates_one(ms: Seq<RecorderModel>, name: Seq<char>, after: Seq<RecorderModel>)
    requires
        store_wf(ms),
        boss_death_result(ms, name, after),
        !has_exact(ms, normalized(name)),
        forall|i: int| 0 <= i < ms.len() ==> !is_similar(ms, normalized(name), i),
    ensures
        after.len() == ms.len() + 1,
        after.remove(GLOBAL_COUNT as int) == ms,
        after[GLOBAL_COUNT as int].counter == 1,
        after[GLOBAL_COUNT as int].kind == RecorderKind::Classic,
        forall|i: int| 0 <= i < ms.len() ==> ms[i].id != after[GLOBAL_COUNT as int].id,
{
}

/// A boss detection with at least one accepted name counts exactly one more
/// on the total of boss deaths (unless it is paused), however many names it
/// carries, and leaves the total of deaths alone.
pub proof fn lemma_global_bosses_once(ms: Seq<RecorderModel>, names: Seq<Seq<char>>, after: Seq<RecorderModel>)
    requires
        store_wf(ms),
        boss_detection_result(ms, names, after),
        accepted_names(names).len() > 0,
    ensures
        after[1] == counted(ms[1]),
        after[0] == ms[0],
{
    let bumped_ms = ms.update(1, counted(ms[1]));
    let n = normalized(joined(accepted_names(names)));
    assert(store_wf(bumped_ms));
    if has_exact(bumped_ms, n) {
        let k = exact_index(bumped_ms, n);
        assert(k >= 2);
        assert(after[1] == bumped_ms.remove(k)[1]);
    } else if has_similar(bumped_ms, n) {
        let k = similar_index(bumped_ms, n);
        assert(k >= 2);
        assert(after[1] == bumped_ms.remove(k)[1]);
    } else {
        assert(after.remove(GLOBAL_COUNT as int)[1] == after[1]);
        assert(after.remove(GLOBAL_COUNT as int)[0] == after[0]);
    }
}

/// Some counter has the identifier `j`.
pub open spec fn id_taken(ms: Seq<RecorderModel>, j: int) -> bool {
    has_id(ms, j as u128)
}

/// A sequence of `n` counters cannot use every identifier from 0 to `n`.
proof fn lemma_some_small_id_free(ms: Seq<RecorderModel>)
    requires
        ms.len() <= usize::MAX,
    ensures
        exists|j: int| 0 <= j <= ms.len() && !id_taken(ms, j),
{
    broadcast use vstd::seq_lib::seq_to_set_is_finite;

    if forall|j: int| 0 <= j <= ms.len() ==> id_taken(ms, j) {
        lemma_all_small_ids_used_impossible(ms);
    }
}

proof fn lemma_all_small_ids_used_impossible(ms: Seq<RecorderModel>)
    requires
        ms.len() <= usize::MAX,
        forall|j: int| 0 <= j <= ms.len() ==> id_taken(ms, j),
    ensures
        ms.len() + 1 <= ms.len(),
{
    broadcast use vstd::seq_lib::seq_to_set_is_finite;

    let ids = ms.map_values(|m: RecorderModel| m.id as int);
    let n = ms.len() as int;
    ids.lemma_cardinality_of_set();
    vstd::set_lib::lemma_int_range(0, n + 1);
    assert forall|x: int| vstd::set_lib::set_int_range(0, n + 1).contains(x) implies ids.to_set().contains(x) by {
        assert(id_taken(ms, x));
        let i = choose|i: int| 0 <= i < ms.len() && ms[i].id == x as u128;
        assert(ids[i] == ms[i].id as int);
        assert(ids[i] == x);
        assert(ids.contains(x));
    }
    vstd::set_lib::lemma_len_subset(vstd::set_lib::set_int_range(0, n + 1), ids.to_set());
}

proof fn lemma_first_exact_unique(ms: Seq<RecorderModel>, n: Seq<char>, a: int, b: int)
    requires
        first_exact(ms, n, a),
        first_exact(ms, n, b),
    ensures
        a == b,
{
}

proof fn lemma_most_similar_unique(ms: Seq<RecorderModel>, n: Seq<char>, a: int, b: int)
    requires
        is_most_similar(ms, n, a),
        is_most_similar(ms, n, b),
    ensures
        a == b,
{
    if a < b {
        assert(closer(n, upper_of(ms[b].title), upper_of(ms[a].title)));
    } else if b < a {
        assert(closer(n, upper_of(ms[a].title), upper_of(ms[b].title)));
    }
}

proof fn lemma_product_fits(a: usize, b: usize)
    ensures
        (a as int) * (b as int) <= u128::MAX,
{
    assert((a as int) * (b as int) <= (usize::MAX as int) * (usize::MAX as int)) by (nonlinear_arith)
        requires
            a <= usize::MAX,
            b <= usize::MAX,
            a >= 0,
            b >= 0,
    ;
    assert((usize::MAX as int) * (usize::MAX as int) <= u128::MAX) by (nonlinear_arith)
        requires
            usize::MAX <= u64::MAX,
    ;
}

/// Comparing distance fractions is transitive.
proof fn lemma_ratio_order(da: nat, ma: nat, db: nat, mb: nat, dc: nat, mc: nat)
    requires
        ma > 0,
        mb > 0,
        mc > 0,
        da * mb >= db * ma,
        db * mc > dc * mb,
    ensures
        da * mc > dc * ma,
{
    assert(da * mb * mc >= db * ma * mc) by (nonlinear_arith)
        requires
            da * mb >= db * ma,
    ;
    assert(db * mc * ma > dc * mb * ma) by (nonlinear_arith)
        requires
            db * mc > dc * mb,
            ma > 0,
    ;
    assert(da * mc * mb > dc * ma * mb) by (nonlinear_arith)
        requires
            da * mb * mc >= db * ma * mc,
            db * mc * ma > dc * mb * ma,
    ;
    assert(da * mc > dc * ma) by (nonlinear_arith)
        requires
            da * mc * mb > dc * ma * mb,
            mb > 0,
    ;
}

/// What the list of counters is told.
#[derive(Clone, Debug)]
pub enum ListMessage {
    StartDrag(usize),
    Drop(usize),
    CancelDrag,
    IncrementRecorder(u128),
    DecrementRecorder(u128),
    ResetRecorder(u128),
    StartEditingTitle(u128),
    UpdateTitle(String),
    EndEditingTitle(u128),
    DeleteRecorder(u128),
    ToggleRecorder(u128),
    Increment,
    AutosaveTick,
    OcrDeath(Vec<String>),
    HotKey(HotkeyMessage),
}

/// The boss counters of `ms`, in order.
pub open spec fn classics_of(ms: Seq<RecorderModel>) -> Seq<RecorderModel>
    decreases ms.len(),
{
    if ms.len() == 0 {
        ms
    } else if ms.last().kind == RecorderKind::Classic {
        classics_of(ms.drop_last()).push(ms.last())
    } else {
        classics_of(ms.drop_last())
    }
}

/// The first counter of `ms` of the given kind.
pub open spec fn first_of_kind(ms: Seq<RecorderModel>, kind: RecorderKind) -> Option<RecorderModel>
    decreases ms.len(),
{
    if ms.len() == 0 {
        None
    } else if ms[0].kind == kind {
        Some(ms[0])
    } else {
        first_of_kind(ms.drop_first(), kind)
    }
}

proof fn lemma_classics_are_classic(ms: Seq<RecorderModel>)
    ensures
        forall|j: int|
            0 <= j < classics_of(ms).len() ==> (#[trigger] classics_of(ms)[j]).kind == RecorderKind::Classic,
    decreases ms.len(),
{
    if ms.len() > 0 {
        lemma_classics_are_classic(ms.drop_last());
        let c = classics_of(ms.drop_last());
        if ms.last().kind == RecorderKind::Classic {
            assert forall|j: int| 0 <= j < c.push(ms.last()).len() implies (#[trigger] c.push(
                ms.last(),
            )[j]).kind == RecorderKind::Classic by {
                if j < c.len() {
                    assert(c[j].kind == RecorderKind::Classic);
                }
            }
        }
    }
}

proof fn lemma_first_of_kind_push(ms: Seq<RecorderModel>, x: RecorderModel, kind: RecorderKind)
    ensures
        first_of_kind(ms.push(x), kind) == match first_of_kind(ms, kind) {
            Some(m) => Some(m),
            None => if x.kind == kind { Some(x) } else { None },
        },
    decreases ms.len(),
{
    if ms.len() > 0 {
        assert(ms.push(x)[0] == ms[0]);
        assert(ms.push(x).drop_first() =~= ms.drop_first().push(x));
        lemma_first_of_kind_push(ms.drop_first(), x, kind);
    } else {
        assert(ms.push(x).drop_first() =~= Seq::<RecorderModel>::empty());
        assert(first_of_kind(Seq::<RecorderModel>::empty(), kind) is None);
        assert(ms.push(x)[0] == x);
    }
}

/// The counters as loaded from `ms`: the first total of deaths and the first
/// total of boss deaths in front (`None` where one is made anew), then the
/// boss counters in their order.
pub open spec fn loaded_as(ms: Seq<RecorderModel>, after: Seq<RecorderModel>) -> bool {
    &&& after.len() == 2 + classics_of(ms).len()
    &&& after.subrange(2, after.len() as int) == classics_of(ms)
    &&& match first_of_kind(ms, RecorderKind::GlobalDeaths) {
        Some(m) => after[0] == m,
        None => after[0].counter == 0 && after[0].active,
    }
    &&& match first_of_kind(ms, RecorderKind::GlobalBosses) {
        Some(m) => after[1] == m,
        None => after[1].counter == 0 && after[1].active,
    }
}

/// The counters, in order, that the totals head.
pub struct ListComponent {
    recorders: Vec<Recorder>,
    dirty: bool,
    dragging: Option<usize>,
    edit_uuid: Option<u128>,
    edit_title: String,
}

impl ListComponent {
    /// The models of the counters, in order.
    pub closed spec fn models(&self) -> Seq<RecorderModel> {
        models(self.recorders@)
    }

    pub closed spec fn wf(&self) -> bool {
        store_wf(self.models())
    }

    /// Whether something changed since the last save.
    pub closed spec fn spec_dirty(&self) -> bool {
        self.dirty
    }

    /// The counter being dragged, if any.
    pub closed spec fn spec_dragging(&self) -> Option<usize> {
        self.dragging
    }

    /// An identifier that no counter has: a freshly drawn one, or on a
    /// collision the smallest free one.
    fn unused_id(&self) -> (r: u128)
        ensures
            !has_id(self.models(), r),
    {
        let drawn = fresh_id();
        if self.position_of(drawn).is_none() {
            return drawn;
        }
        let n = self.recorders.len() as u128;
        let mut k: u128 = 0;
        while k <= n
            invariant
                n == self.models().len(),
                n <= usize::MAX,
                k <= n + 1,
                forall|j: int| 0 <= j < k ==> id_taken(self.models(), j),
            decreases n + 1 - k,
        {
            match self.position_of(k) {
                None => {
                    return k;
                },
                Some(i) => {
                    assert(self.models()[i as int].id == k);
                },
            }
            k = k + 1;
        }
        proof {
            lemma_some_small_id_free(self.models());
        }
        0
    }

    /// Moves counter `pos` to just after the totals, incremented.
    fn promote(&mut self, pos: usize)
        requires
            old(self).wf(),
            GLOBAL_COUNT <= pos < old(self).models().len(),
        ensures
            final(self).wf(),
            final(self).models() == promoted(old(self).models(), pos as int),
            final(self).dirty == old(self).dirty,
            final(self).dragging == old(self).dragging,
            final(self).edit_uuid == old(self).edit_uuid,
            final(self).edit_title == old(self).edit_title,
    {
        let ghost ms = self.models();
        let mut r = self.recorders.remove(pos);
        r.increment();
        self.recorders.insert(GLOBAL_COUNT, r);
        assert(self.models() =~= promoted(ms, pos as int));
    }

    /// The first boss counter whose upper-cased title is `n`.
    fn find_exact(&self, n: &String) -> (r: Option<usize>)
        ensures
            r is None ==> !has_exact(self.models(), n@),
            r matches Some(i) ==> first_exact(self.models(), n@, i as int),
    {
        let mut i: usize = 0;
        while i < self.recorders.len()
            invariant
                i <= self.recorders@.len(),
                forall|j: int| 0 <= j < i ==> !is_exact(self.models(), n@, j),
            decreases self.recorders@.len() - i,
        {
            let r = &self.recorders[i];
            if r.is_classic() {
                let u = uppercase(r.get_title().as_str());
                if u == *n {
                    return Some(i);
                }
            }
            i = i + 1;
        }
        None
    }

    /// The first of the boss counters whose upper-cased title is most
    /// similar to `n`, if any is within a similarity of 0.80.
    fn find_similar_boss(&self, n: &String) -> (r: Option<usize>)
        ensures
            r is None ==> !has_similar(self.models(), n@),
            r matches Some(k) ==> is_most_similar(self.models(), n@, k as int),
    {
        let ghost ms = self.models();
        let mut best: Option<(usize, usize, usize)> = None;
        let mut i: usize = 0;
        while i < self.recorders.len()
            invariant
                ms == self.models(),
                i <= self.recorders@.len(),
                best is None ==> forall|j: int| 0 <= j < i ==> !is_similar(ms, n@, j),
                best matches Some(b) ==> {
                    &&& b.0 < i
                    &&& is_similar(ms, n@, b.0 as int)
                    &&& b.1 == distance_ratio(n@, upper_of(ms[b.0 as int].title)).0
                    &&& b.2 == distance_ratio(n@, upper_of(ms[b.0 as int].title)).1
                    &&& forall|j: int|
                        0 <= j < i && is_similar(ms, n@, j) ==> !closer(
                            n@,
                            upper_of(ms[j].title),
                            upper_of(ms[b.0 as int].title),
                        )
                    &&& forall|j: int|
                        0 <= j < b.0 && is_similar(ms, n@, j) ==> closer(
                            n@,
                            upper_of(ms[b.0 as int].title),
                            upper_of(ms[j].title),
                        )
                },
            decreases self.recorders@.len() - i,
        {
            let r = &self.recorders[i];
            if r.is_classic() {
                let u = uppercase(r.get_title().as_str());
                let (d, m) = name_distance(n.as_str(), u.as_str());
                if 5 * (d as u128) <= (m as u128) {
                    match best {
                        None => {
                            best = Some((i, d, m));
                        },
                        Some((k, bd, bm)) => {
                            proof {
                                lemma_product_fits(d, bm);
                                lemma_product_fits(bd, m);
                            }
                            if (d as u128) * (bm as u128) < (bd as u128) * (m as u128) {
                                proof {
                                    assert forall|j: int|
                                        0 <= j < i + 1 && is_similar(ms, n@, j) implies !closer(
                                        n@,
                                        upper_of(ms[j].title),
                                        upper_of(ms[i as int].title),
                                    ) by {
                                        if j < i {
                                            let rj = distance_ratio(n@, upper_of(ms[j].title));
                                            lemma_ratio_order(rj.0, rj.1, bd as nat, bm as nat, d as nat, m as nat);
                                        }
                                    }
                                    assert forall|j: int|
                                        0 <= j < i && is_similar(ms, n@, j) implies closer(
                                        n@,
                                        upper_of(ms[i as int].title),
                                        upper_of(ms[j].title),
                                    ) by {
                                        let rj = distance_ratio(n@, upper_of(ms[j].title));
                                        lemma_ratio_order(rj.0, rj.1, bd as nat, bm as nat, d as nat, m as nat);
                                    }
                                }
                                best = Some((i, d, m));
                            }
                        },
                    }
                }
            }
            i = i + 1;
        }
        match best {
            None => None,
            Some((k, _, _)) => Some(k),
        }
    }

    /// Folds one detected boss name into the counters.
    pub fn handle_boss_death(&mut self, boss_name: String)
        requires
            old(self).wf(),
        ensures
            final(self).wf(),
            boss_death_result(old(self).models(), boss_name@, final(self).models()),
            final(self).spec_dirty() == old(self).spec_dirty(),
            final(self).spec_dragging() == old(self).spec_dragging(),
    {
        let ghost ms = self.models();
        let ghost nn = normalized(boss_name@);
        let n = normalize_name(boss_name.as_str());
        match self.find_exact(&n) {
            Some(pos) => {
                proof {
                    lemma_first_exact_unique(ms, nn, pos as int, exact_index(ms, nn));
                }
                self.promote(pos);
            },
            None => match self.find_similar_boss(&n) {
                Some(pos) => {
                    proof {
                        lemma_most_similar_unique(ms, nn, pos as int, similar_index(ms, nn));
                    }
                    self.promote(pos);
                },
                None => {
                    let id = self.unused_id();
                    let mut r = Recorder::from_parts(id, boss_name, 0, true, RecorderKind::Classic);
                    r.force_increment();
                    let ghost rm = r@;
                    self.recorders.insert(GLOBAL_COUNT, r);
                    assert(self.models() =~= ms.insert(GLOBAL_COUNT as int, rm));
                    assert(self.models().remove(GLOBAL_COUNT as int) =~= ms);
                },
            },
        }
    }
    /// The counters, in order.
    pub fn get_recorders(&self) -> (r: &Vec<Recorder>)
        ensures
            models(r@) == self.models(),
    {
        &self.recorders
    }

    pub fn is_dirty(&self) -> (r: bool)
        ensures
            r == self.spec_dirty(),
    {
        self.dirty
    }

    /// Records that the counters were saved.
    pub fn mark_saved(&mut self)
        ensures
            final(self).models() == old(self).models(),
            final(self).wf() == old(self).wf(),
            !final(self).spec_dirty(),
            final(self).spec_dragging() == old(self).spec_dragging(),
    {
        self.dirty = false;
    }

    pub fn get_dragging(&self) -> (r: Option<usize>)
        ensures
            r == self.spec_dragging(),
    {
        self.dragging
    }

    /// The position of the first counter with identifier `id`.
    fn position_of(&self, id: u128) -> (r: Option<usize>)
        ensures
            r is None ==> !has_id(self.models(), id),
            r matches Some(i) ==> first_id(self.models(), id, i as int),
    {
        let mut i: usize = 0;
        while i < self.recorders.len()
            invariant
                i <= self.recorders@.len(),
                forall|j: int| 0 <= j < i ==> self.models()[j].id != id,
            decreases self.recorders@.len() - i,
        {
            if self.recorders[i].get_id() == id {
                return Some(i);
            }
            i = i + 1;
        }
        None
    }

    /// Applies the change to counter `pos`, in place.
    fn apply_at(&mut self, pos: usize, op: RecorderOp)
        requires
            old(self).wf(),
            pos < old(self).models().len(),
        ensures
            final(self).wf(),
            final(self).models() == old(self).models().update(
                pos as int,
                applied(old(self).models()[pos as int], op),
            ),
            final(self).dirty == old(self).dirty,
            final(self).dragging == old(self).dragging,
            final(self).edit_uuid == old(self).edit_uuid,
            final(self).edit_title == old(self).edit_title,
    {
        let ghost ms = self.models();
        let mut r = self.recorders.remove(pos);
        match op {
            RecorderOp::Increment => r.increment(),
            RecorderOp::Decrement => r.force_decrement(),
            RecorderOp::Reset => r.reset(),
            RecorderOp::Toggle => r.activate_deactivate(),
        }
        self.recorders.insert(pos, r);
        assert(self.models() =~= ms.update(pos as int, applied(ms[pos as int], op)));
    }

    /// Applies the change to the first counter with identifier `id`.
    pub fn change_recorder(&mut self, id: u128, op: RecorderOp)
        requires
            old(self).wf(),
        ensures
            final(self).wf(),
            final(self).models() == changed_by_id(old(self).models(), id, op),
            final(self).spec_dirty() == old(self).spec_dirty(),
            final(self).spec_dragging() == old(self).spec_dragging(),
    {
        let ghost ms = self.models();
        match self.position_of(id) {
            Some(pos) => {
                proof {
                    assert(first_id(ms, id, id_index(ms, id)));
                }
                self.apply_at(pos, op);
            },
            None => {},
        }
    }

    /// Counts one more on every counter that is not paused.
    pub fn increment_active_recorders(&mut self)
        requires
            old(self).wf(),
        ensures
            final(self).wf(),
            final(self).models().len() == old(self).models().len(),
            forall|i: int|
                0 <= i < old(self).models().len() ==> #[trigger] final(self).models()[i] == counted(
                    old(self).models()[i],
                ),
            final(self).spec_dirty(),
            final(self).spec_dragging() == old(self).spec_dragging(),
    {
        let ghost ms = self.models();
        let mut i: usize = 0;
        while i < self.recorders.len()
            invariant
                self.wf(),
                self.models().len() == ms.len(),
                i <= ms.len(),
                forall|j: int| 0 <= j < i ==> #[trigger] self.models()[j] == counted(ms[j]),
                forall|j: int| i <= j < ms.len() ==> #[trigger] self.models()[j] == ms[j],
                self.dragging == old(self).dragging,
            decreases ms.len() - i,
        {
            self.apply_at(i, RecorderOp::Increment);
            i = i + 1;
        }
        self.dirty = true;
    }

    /// Counts one more death on the total of deaths, unless it is paused.
    pub fn increment_global_deaths(&mut self)
        requires
            old(self).wf(),
        ensures
            final(self).wf(),
            final(self).models() == old(self).models().update(0, counted(old(self).models()[0])),
            final(self).spec_dirty() == old(self).spec_dirty(),
            final(self).spec_dragging() == old(self).spec_dragging(),
    {
        self.apply_at(0, RecorderOp::Increment);
    }

    /// Counts one more boss death on its total, unless it is paused.
    pub fn increment_global_bosses(&mut self)
        requires
            old(self).wf(),
        ensures
            final(self).wf(),
            final(self).models() == old(self).models().update(1, counted(old(self).models()[1])),
            final(self).spec_dirty() == old(self).spec_dirty(),
            final(self).spec_dragging() == old(self).spec_dragging(),
    {
        self.apply_at(1, RecorderOp::Increment);
    }

    /// Removes the first counter with identifier `id`, if it is a boss
    /// counter.
    pub fn delete_recorder(&mut self, id: u128)
        requires
            old(self).wf(),
        ensures
            final(self).wf(),
            final(self).models() == deleted_by_id(old(self).models(), id),
            final(self).spec_dirty() == old(self).spec_dirty(),
            final(self).spec_dragging() == old(self).spec_dragging(),
    {
        let ghost ms = self.models();
        match self.position_of(id) {
            Some(pos) => {
                proof {
                    assert(first_id(ms, id, id_index(ms, id)));
                }
                if self.recorders[pos].is_classic() {
                    self.recorders.remove(pos);
                    assert(self.models() =~= ms.remove(pos as int));
                }
            },
            None => {},
        }
    }

    /// The title of the first counter with identifier `id`; empty when there
    /// is none.
    pub fn get_title(&self, id: u128) -> (r: String)
        ensures
            has_id(self.models(), id) ==> r@ == self.models()[id_index(self.models(), id)].title,
            !has_id(self.models(), id) ==> r@ == Seq::<char>::empty(),
    {
        match self.position_of(id) {
            Some(pos) => {
                proof {
                    assert(first_id(self.models(), id, id_index(self.models(), id)));
                }
                self.recorders[pos].get_title()
            },
            None => String::new(),
        }
    }

    /// Gives a new title to the first counter with identifier `id`.
    pub fn set_title(&mut self, id: u128, title: String)
        requires
            old(self).wf(),
        ensures
            final(self).wf(),
            final(self).models() == retitled_by_id(old(self).models(), id, title@),
            final(self).spec_dirty() == (old(self).spec_dirty() || has_id(old(self).models(), id)),
            final(self).spec_dragging() == old(self).spec_dragging(),
    {
        let ghost ms = self.models();
        match self.position_of(id) {
            Some(pos) => {
                proof {
                    assert(first_id(ms, id, id_index(ms, id)));
                }
                let mut r = self.recorders.remove(pos);
                r.set_title(title);
                self.recorders.insert(pos, r);
                assert(self.models() =~= retitled_by_id(ms, id, title@));
                self.dirty = true;
            },
            None => {},
        }
    }

    /// Moves the boss counter at `source` so that it lands where `target`
    /// was; the totals stay in front.
    pub fn move_recorder(&mut self, source: usize, target: usize)
        requires
            old(self).wf(),
        ensures
            final(self).wf(),
            final(self).models() == moved(old(self).models(), source as int, target as int),
            final(self).spec_dirty() == old(self).spec_dirty(),
            final(self).spec_dragging() == old(self).spec_dragging(),
    {
        let ghost ms = self.models();
        let n = self.recorders.len();
        if source != target && GLOBAL_COUNT <= source && source < n {
            let at = if source < target { target - 1 } else { target };
            if GLOBAL_COUNT <= at && at < n {
                let r = self.recorders.remove(source);
                self.recorders.insert(at, r);
                assert(self.models() =~= ms.remove(source as int).insert(at as int, ms[source as int]));
            }
        }
    }

    /// Folds a boss detection into the counters: the names are trimmed, the
    /// blank ones dropped, and the rest joined by ` - ` count as one boss.
    pub fn handle_boss_detected(&mut self, names: Vec<String>)
        requires
            old(self).wf(),
        ensures
            final(self).wf(),
            boss_detection_result(
                old(self).models(),
                names@.map_values(|s: String| s@),
                final(self).models(),
            ),
            accepted_names(names@.map_values(|s: String| s@)).len() > 0 ==> final(self).spec_dirty(),
            accepted_names(names@.map_values(|s: String| s@)).len() == 0 ==> final(self).spec_dirty()
                == old(self).spec_dirty(),
            final(self).spec_dragging() == old(self).spec_dragging(),
    {
        let ghost ns = names@.map_values(|s: String| s@);
        let mut kept: Vec<Vec<char>> = Vec::new();
        let mut i: usize = 0;
        while i < names.len()
            invariant
                i <= names@.len(),
                ns == names@.map_values(|s: String| s@),
                kept@.map_values(|v: Vec<char>| v@) == accepted_names(ns.take(i as int)),
            decreases names@.len() - i,
        {
            assert(ns.take(i + 1).drop_last() =~= ns.take(i as int));
            let t = trim_chars(&chars_of(names[i].as_str()));
            if t.len() > 0 {
                let ghost before = kept@.map_values(|v: Vec<char>| v@);
                kept.push(t);
                assert(kept@.map_values(|v: Vec<char>| v@) =~= before.push(t@));
            }
            i = i + 1;
        }
        assert(ns.take(names@.len() as int) =~= ns);
        if kept.len() == 0 {
            return;
        }
        let mut label: Vec<char> = Vec::new();
        let mut k: usize = 0;
        let ghost ks = kept@.map_values(|v: Vec<char>| v@);
        while k < kept.len()
            invariant
                k <= kept@.len(),
                ks == kept@.map_values(|v: Vec<char>| v@),
                label@ == joined(ks.take(k as int)),
            decreases kept@.len() - k,
        {
            assert(ks.take(k + 1).drop_last() =~= ks.take(k as int));
            if k > 0 {
                label.push(' ');
                label.push('-');
                label.push(' ');
            }
            let ghost before = label@;
            let w = &kept[k];
            let mut j: usize = 0;
            while j < w.len()
                invariant
                    j <= w@.len(),
                    label@ == before + w@.take(j as int),
                decreases w@.len() - j,
            {
                label.push(w[j]);
                j = j + 1;
                assert(label@ =~= before + w@.take(j as int));
            }
            assert(w@.take(w@.len() as int) =~= w@);
            proof {
                if k == 0 {
                    assert(ks.take(1) =~= seq![w@]);
                    assert(label@ =~= w@);
                } else {
                    assert(label@ =~= joined(ks.take(k as int)) + seq![' ', '-', ' '] + w@);
                }
            }
            k = k + 1;
        }
        assert(ks.take(kept@.len() as int) =~= ks);
        self.increment_global_bosses();
        self.handle_boss_death(string_of(&label));
        self.dirty = true;
    }

    /// The counters as loaded, with the totals put in front (made anew where
    /// missing) and boss counters after them in their order.
    pub fn new(loaded: Vec<Recorder>) -> (r: ListComponent)
        ensures
            r.wf(),
            loaded_as(models(loaded@), r.models()),
            !r.spec_dirty(),
            r.spec_dragging() is None,
    {
        let ghost orig = models(loaded@);
        let mut deaths: Option<Recorder> = None;
        let mut bosses: Option<Recorder> = None;
        let mut classics: Vec<Recorder> = Vec::new();
        let mut loaded = loaded;
        let ghost mut p: int = 0;
        while loaded.len() > 0
            invariant
                0 <= p <= orig.len(),
                models(loaded@) == orig.skip(p),
                models(classics@) == classics_of(orig.take(p)),
                match deaths {
                    Some(d) => first_of_kind(orig.take(p), RecorderKind::GlobalDeaths) == Some(d@),
                    None => first_of_kind(orig.take(p), RecorderKind::GlobalDeaths) is None,
                },
                match bosses {
                    Some(b) => first_of_kind(orig.take(p), RecorderKind::GlobalBosses) == Some(b@),
                    None => first_of_kind(orig.take(p), RecorderKind::GlobalBosses) is None,
                },
                deaths matches Some(d) ==> d@.kind == RecorderKind::GlobalDeaths,
                bosses matches Some(b) ==> b@.kind == RecorderKind::GlobalBosses,
            decreases loaded@.len(),
        {
            let ghost before_classics = models(classics@);
            let ghost before_loaded = loaded@;
            let r = loaded.remove(0);
            proof {
                assert(models(before_loaded).len() == orig.len() - p);
                assert(models(before_loaded)[0] == r@);
                assert(orig.skip(p)[0] == r@);
                assert(orig[p] == r@);
                assert(models(loaded@) =~= models(before_loaded).drop_first());
                assert(orig.take(p + 1) =~= orig.take(p).push(r@));
                assert(orig.take(p + 1).drop_last() =~= orig.take(p));
                assert(models(loaded@) =~= orig.skip(p + 1));
                lemma_first_of_kind_push(orig.take(p), r@, RecorderKind::GlobalDeaths);
                lemma_first_of_kind_push(orig.take(p), r@, RecorderKind::GlobalBosses);
            }
            if r.is_global_deaths() {
                if deaths.is_none() {
                    deaths = Some(r);
                }
            } else if r.is_global_bosses() {
                if bosses.is_none() {
                    bosses = Some(r);
                }
            } else {
                classics.push(r);
                assert(models(classics@) =~= before_classics.push(r@));
            }
            proof {
                p = p + 1;
            }
        }
        proof {
            assert(orig.skip(p).len() == 0);
            assert(orig.take(p) =~= orig);
        }
        let mut recorders: Vec<Recorder> = Vec::new();
        recorders.push(
            match deaths {
                Some(d) => d,
                None => Recorder::new_global_deaths(),
            },
        );
        recorders.push(
            match bosses {
                Some(b) => b,
                None => Recorder::new_global_bosses(),
            },
        );
        let ghost front = models(recorders@);
        assert(front[0] == recorders@[0]@);
        assert(front[1] == recorders@[1]@);
        let ghost all_classics = models(classics@);
        proof {
            lemma_classics_are_classic(orig);
        }
        let ghost mut q: int = 0;
        while classics.len() > 0
            invariant
                0 <= q <= all_classics.len(),
                models(classics@) == all_classics.skip(q),
                models(recorders@) == front + all_classics.take(q),
                front.len() == 2,
                front[0].kind == RecorderKind::GlobalDeaths,
                front[1].kind == RecorderKind::GlobalBosses,
                forall|j: int| 0 <= j < all_classics.len() ==> (#[trigger] all_classics[j]).kind == RecorderKind::Classic,
            decreases classics@.len(),
        {
            let ghost before = models(recorders@);
            let ghost before_classics = classics@;
            let r = classics.remove(0);
            recorders.push(r);
            proof {
                assert(models(before_classics).len() == all_classics.len() - q);
                assert(models(before_classics)[0] == r@);
                assert(all_classics.skip(q)[0] == r@);
                assert(models(classics@) =~= models(before_classics).drop_first());
                assert(models(recorders@) =~= before.push(r@));
                assert(models(classics@) =~= all_classics.skip(q + 1));
                assert(models(recorders@) =~= front + all_classics.take(q + 1));
                q = q + 1;
            }
        }
        proof {
            assert(all_classics.skip(q).len() == 0);
            assert(all_classics.take(q) =~= all_classics);
            let ms = models(recorders@);
            assert(ms.subrange(2, ms.len() as int) =~= all_classics);
            assert forall|i: int| 2 <= i < ms.len() implies (#[trigger] ms[i]).kind == RecorderKind::Classic by {
                assert(ms[i] == all_classics[i - 2]);
            }
        }
        ListComponent { recorders, dirty: false, dragging: None, edit_uuid: None, edit_title: String::new() }
    }

    /// The counter whose title is being edited, if any.
    pub closed spec fn spec_edit_uuid(&self) -> Option<u128> {
        self.edit_uuid
    }

    /// The title being typed.
    pub closed spec fn spec_edit_title(&self) -> Seq<char> {
        self.edit_title@
    }

    /// Handles one message of the list; returns whether the counters should
    /// be saved now.
    pub fn update(&mut self, message: ListMessage) -> (save: bool)
        requires
            old(self).wf(),
        ensures
            final(self).wf(),
            save == (message is AutosaveTick && old(self).spec_dirty()),
            ({
                let ms = old(self).models();
                let after = final(self).models();
                match message {
                    ListMessage::StartDrag(i) => after == ms && final(self).spec_dragging() == Some(i),
                    ListMessage::CancelDrag => after == ms && final(self).spec_dragging() is None,
                    ListMessage::Drop(t) => final(self).spec_dragging() is None && match old(
                        self,
                    ).spec_dragging() {
                        Some(s) => after == moved(ms, s as int, t as int),
                        None => after == ms,
                    },
                    ListMessage::IncrementRecorder(id) => after == changed_by_id(
                        ms,
                        id,
                        RecorderOp::Increment,
                    ) && final(self).spec_dirty(),
                    ListMessage::DecrementRecorder(id) => after == changed_by_id(
                        ms,
                        id,
                        RecorderOp::Decrement,
                    ) && final(self).spec_dirty(),
                    ListMessage::ResetRecorder(id) => after == changed_by_id(ms, id, RecorderOp::Reset)
                        && final(self).spec_dirty(),
                    ListMessage::ToggleRecorder(id) => after == changed_by_id(
                        ms,
                        id,
                        RecorderOp::Toggle,
                    ),
                    ListMessage::DeleteRecorder(id) => after == deleted_by_id(ms, id)
                        && final(self).spec_dirty(),
                    ListMessage::StartEditingTitle(id) => after == ms && final(self).spec_edit_uuid()
                        == Some(id) && (has_id(ms, id) ==> final(self).spec_edit_title()
                        == ms[id_index(ms, id)].title) && (!has_id(ms, id)
                        ==> final(self).spec_edit_title() == Seq::<char>::empty()),
                    ListMessage::UpdateTitle(v) => after == ms && final(self).spec_edit_title() == v@,
                    ListMessage::EndEditingTitle(id) => after == retitled_by_id(
                        ms,
                        id,
                        old(self).spec_edit_title(),
                    ) && final(self).spec_edit_uuid() is None && final(self).spec_edit_title()
                        == Seq::<char>::empty(),
                    ListMessage::OcrDeath(b) => boss_detection_result(
                        ms.update(0, counted(ms[0])),
                        b@.map_values(|s: String| s@),
                        after,
                    ) && final(self).spec_dirty(),
                    ListMessage::HotKey(_) => after.len() == ms.len() && (forall|i: int|
                        0 <= i < ms.len() ==> #[trigger] after[i] == counted(ms[i])),
                    ListMessage::Increment => after == ms,
                    ListMessage::AutosaveTick => after == ms,
                }
            }),
    {
        let was_dirty = self.dirty;
        match message {
            ListMessage::StartDrag(i) => {
                self.dragging = Some(i);
            },
            ListMessage::CancelDrag => {
                self.dragging = None;
            },
            ListMessage::Drop(t) => {
                match self.dragging {
                    Some(s) => self.move_recorder(s, t),
                    None => {},
                }
                self.dragging = None;
            },
            ListMessage::IncrementRecorder(id) => {
                self.change_recorder(id, RecorderOp::Increment);
                self.dirty = true;
            },
            ListMessage::DecrementRecorder(id) => {
                self.change_recorder(id, RecorderOp::Decrement);
                self.dirty = true;
            },
            ListMessage::ResetRecorder(id) => {
                self.change_recorder(id, RecorderOp::Reset);
                self.dirty = true;
            },
            ListMessage::ToggleRecorder(id) => {
                self.change_recorder(id, RecorderOp::Toggle);
            },
            ListMessage::DeleteRecorder(id) => {
                self.delete_recorder(id);
                self.dirty = true;
            },
            ListMessage::StartEditingTitle(id) => {
                self.edit_uuid = Some(id);
                self.edit_title = self.get_title(id);
                self.dirty = true;
            },
            ListMessage::UpdateTitle(v) => {
                self.edit_title = v;
            },
            ListMessage::EndEditingTitle(id) => {
                let title = self.edit_title.clone();
                self.set_title(id, title);
                self.edit_uuid = None;
                self.edit_title = String::new();
            },
            ListMessage::OcrDeath(b) => {
                self.increment_global_deaths();
                self.handle_boss_detected(b);
                self.dirty = true;
            },
            ListMessage::HotKey(_) => {
                self.increment_active_recorders();
            },
            ListMessage::Increment => {},
            ListMessage::AutosaveTick => {
                return was_dirty;
            },
        }
        false
    }
}

} // verus!
