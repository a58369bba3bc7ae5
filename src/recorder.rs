//! A named counter.
use vstd::prelude::*;

use crate::ids::fresh_id;

verus! {

/// What a counter stands for: a boss of its own, or one of the two totals.
#[derive(Clone, Copy, Debug, PartialEq, Eq, Structural)]
pub enum RecorderKind {
    Classic,
    GlobalDeaths,
    GlobalBosses,
}

/// The mathematical content of a [`Recorder`].
pub ghost struct RecorderModel {
    pub id: u128,
    pub title: Seq<char>,
    pub counter: u128,
    pub active: bool,
    pub kind: RecorderKind,
}

/// A named counter that can be paused.
#[derive(Clone, Debug)]
pub struct Recorder {
    id: u128,
    title: String,
    counter: u128,
    active: bool,
    kind: RecorderKind,
}

impl View for Recorder {
    type V = RecorderModel;

    closed spec fn view(&self) -> RecorderModel {
        RecorderModel {
            id: self.id,
            title: self.title@,
            counter: self.counter,
            active: self.active,
            kind: self.kind,
        }
    }
}

/// The counter after one step up; it stays at the largest value once there.
pub open spec fn bumped(c: u128) -> u128 {
    if c < u128::MAX { (c + 1) as u128 } else { c }
}

impl Recorder {
    fn with_kind(title: String, kind: RecorderKind) -> (r: Recorder)
        ensures
            r@.title == title@,
            r@.counter == 0,
            r@.active,
            r@.kind == kind,
    {
        Recorder { id: fresh_id(), title, counter: 0, active: true, kind }
    }

    /// A counter as it was stored.
    pub fn from_parts(id: u128, title: String, counter: u128, active: bool, kind: RecorderKind) -> (r: Recorder)
        ensures
            r@ == (RecorderModel { id, title: title@, counter, active, kind }),
    {
        Recorder { id, title, counter, active, kind }
    }

    pub fn to_parts(&self) -> (r: (u128, String, u128, bool, RecorderKind))
        ensures
            r.0 == self@.id,
            r.1@ == self@.title,
            r.2 == self@.counter,
            r.3 == self@.active,
            r.4 == self@.kind,
    {
        (self.id, self.title.clone(), self.counter, self.active, self.kind)
    }

    /// A new, active boss counter at zero.
    pub fn new(title: String) -> (r: Recorder)
        ensures
            r@.title == title@,
            r@.counter == 0,
            r@.active,
            r@.kind == RecorderKind::Classic,
    {
        Recorder::with_kind(title, RecorderKind::Classic)
    }

    /// A new counter of all deaths.
    pub fn new_global_deaths() -> (r: Recorder)
        ensures
            r@.counter == 0,
            r@.active,
            r@.kind == RecorderKind::GlobalDeaths,
    {
        Recorder::with_kind(String::from_str("Total deaths"), RecorderKind::GlobalDeaths)
    }

    /// A new counter of all deaths against a boss.
    pub fn new_global_bosses() -> (r: Recorder)
        ensures
            r@.counter == 0,
            r@.active,
            r@.kind == RecorderKind::GlobalBosses,
    {
        Recorder::with_kind(String::from_str("Boss deaths"), RecorderKind::GlobalBosses)
    }

    /// Counts one more, unless the counter is paused.
    pub fn increment(&mut self)
        ensures
            final(self)@ == (RecorderModel {
                counter: if old(self)@.active { bumped(old(self)@.counter) } else { old(self)@.counter },
                ..old(self)@
            }),
    {
        if self.active && self.counter < u128::MAX {
            self.counter = self.counter + 1;
        }
    }

    /// Counts one more, whether paused or not.
    pub fn force_increment(&mut self)
        ensures
            final(self)@ == (RecorderModel { counter: bumped(old(self)@.counter), ..old(self)@ }),
    {
        if self.counter < u128::MAX {
            self.counter = self.counter + 1;
        }
    }

    /// Counts one less, never below zero, whether paused or not.
    pub fn force_decrement(&mut self)
        ensures
            final(self)@ == (RecorderModel {
                counter: if old(self)@.counter > 0 { (old(self)@.counter - 1) as u128 } else { 0 },
                ..old(self)@
            }),
    {
        if self.counter > 0 {
            self.counter = self.counter - 1;
        }
    }

    /// Puts the counter back to zero.
    pub fn reset(&mut self)
        ensures
            final(self)@ == (RecorderModel { counter: 0, ..old(self)@ }),
    {
        self.counter = 0;
    }

    pub fn get_counter(&self) -> (r: u128)
        ensures
            r == self@.counter,
    {
        self.counter
    }

    pub fn get_id(&self) -> (r: u128)
        ensures
            r == self@.id,
    {
        self.id
    }

    pub fn get_kind(&self) -> (r: RecorderKind)
        ensures
            r == self@.kind,
    {
        self.kind
    }

    pub fn set_title(&mut self, title: String)
        ensures
            final(self)@ == (RecorderModel { title: title@, ..old(self)@ }),
    {
        self.title = title;
    }

    pub fn get_title(&self) -> (r: String)
        ensures
            r@ == self@.title,
    {
        self.title.clone()
    }

    /// Pauses an active counter, or resumes a paused one.
    pub fn activate_deactivate(&mut self)
        ensures
            final(self)@ == (RecorderModel { active: !old(self)@.active, ..old(self)@ }),
    {
        self.active = !self.active;
    }

    pub fn activate(&mut self)
        ensures
            final(self)@ == (RecorderModel { active: true, ..old(self)@ }),
    {
        self.active = true;
    }

    pub fn deactivate(&mut self)
        ensures
            final(self)@ == (RecorderModel { active: false, ..old(self)@ }),
    {
        self.active = false;
    }

    pub fn get_status_recorder(&self) -> (r: bool)
        ensures
            r == self@.active,
    {
        self.active
    }

    pub fn is_global_deaths(&self) -> (r: bool)
        ensures
            r == (self@.kind == RecorderKind::GlobalDeaths),
    {
        self.kind == RecorderKind::GlobalDeaths
    }

    pub fn is_global_bosses(&self) -> (r: bool)
        ensures
            r == (self@.kind == RecorderKind::GlobalBosses),
    {
        self.kind == RecorderKind::GlobalBosses
    }

    pub fn is_global(&self) -> (r: bool)
        ensures
            r == (self@.kind != RecorderKind::Classic),
    {
        self.kind != RecorderKind::Classic
    }

    pub fn is_classic(&self) -> (r: bool)
        ensures
            r == (self@.kind == RecorderKind::Classic),
    {
        self.kind == RecorderKind::Classic
    }
}

} // verus!
