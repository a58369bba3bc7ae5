//! The simple counter list: counters added by hand and counted together.
use vstd::prelude::*;

use crate::list::{counted, first_id, has_id, id_index, models};
use crate::recorder::{Recorder, RecorderModel};

verus! {

/// The view shown.
#[derive(Clone, Copy, Debug, PartialEq, Eq, Structural)]
pub enum Screen {
    List,
    AddRecorder,
}

/// What the simple counter list is told.
#[derive(Clone, Debug)]
pub enum MessageApp {
    Increment,
    ChangeView(Screen),
    AddCounter,
    DeleteCounter(u128),
    ToggleCounter(usize),
    TitleChanged(String),
    CancelAddCounter,
    SaveRecorders,
    AutosaveTick,
}

/// Counters added by hand, the view shown, and the title being typed.
pub struct App {
    recorders: Vec<Recorder>,
    screen: Screen,
    new_recorder_title: String,
    dirty: bool,
}

impl App {
    pub closed spec fn models(&self) -> Seq<RecorderModel> {
        models(self.recorders@)
    }

    pub closed spec fn spec_screen(&self) -> Screen {
        self.screen
    }

    pub closed spec fn spec_title(&self) -> Seq<char> {
        self.new_recorder_title@
    }

    pub closed spec fn spec_dirty(&self) -> bool {
        self.dirty
    }

    /// No counter, on the list view.
    pub fn new() -> (r: App)
        ensures
            r.models().len() == 0,
            r.spec_screen() == Screen::List,
            r.spec_title().len() == 0,
            !r.spec_dirty(),
    {
        App::with_recorders(Vec::new())
    }

    /// The given counters, on the list view.
    pub fn with_recorders(recorders: Vec<Recorder>) -> (r: App)
        ensures
            r.models() == models(recorders@),
            r.spec_screen() == Screen::List,
            r.spec_title().len() == 0,
            !r.spec_dirty(),
    {
        App { recorders, screen: Screen::List, new_recorder_title: String::new(), dirty: false }
    }

    pub fn get_recorders(&self) -> (r: &Vec<Recorder>)
        ensures
            models(r@) == self.models(),
    {
        &self.recorders
    }

    pub fn get_screen(&self) -> (r: Screen)
        ensures
            r == self.spec_screen(),
    {
        self.screen
    }

    pub fn is_dirty(&self) -> (r: bool)
        ensures
            r == self.spec_dirty(),
    {
        self.dirty
    }

    pub fn reset_new_recorder_title(&mut self)
        ensures
            final(self).spec_title().len() == 0,
            final(self).models() == old(self).models(),
            final(self).spec_screen() == old(self).spec_screen(),
            final(self).spec_dirty() == old(self).spec_dirty(),
    {
        self.new_recorder_title = String::new();
    }

    fn go_to(&mut self, screen: Screen)
        ensures
            final(self).spec_screen() == screen,
            screen == Screen::List ==> final(self).spec_title().len() == 0,
            screen != Screen::List ==> final(self).spec_title() == old(self).spec_title(),
            final(self).models() == old(self).models(),
            final(self).spec_dirty() == old(self).spec_dirty(),
    {
        if screen == Screen::List {
            self.reset_new_recorder_title();
        }
        self.screen = screen;
    }

    /// Adds a new active counter at zero, at the end.
    pub fn add_recorder(&mut self, title: String)
        ensures
            final(self).models().len() == old(self).models().len() + 1,
            final(self).models().drop_last() == old(self).models(),
            final(self).models().last().title == title@,
            final(self).models().last().counter == 0,
            final(self).models().last().active,
            final(self).spec_screen() == old(self).spec_screen(),
            final(self).spec_title() == old(self).spec_title(),
            final(self).spec_dirty() == old(self).spec_dirty(),
    {
        let ghost ms = self.models();
        let r = Recorder::new(title);
        self.recorders.push(r);
        assert(self.models().drop_last() =~= ms);
    }

    /// Removes the first counter with identifier `id`, if any.
    pub fn delete_recorder(&mut self, id: u128)
        ensures
            has_id(old(self).models(), id) ==> final(self).models() == old(self).models().remove(
                id_index(old(self).models(), id),
            ),
            !has_id(old(self).models(), id) ==> final(self).models() == old(self).models(),
            final(self).spec_screen() == old(self).spec_screen(),
            final(self).spec_title() == old(self).spec_title(),
            final(self).spec_dirty() == old(self).spec_dirty(),
    {
        let ghost ms = self.models();
        let mut i: usize = 0;
        while i < self.recorders.len()
            invariant
                ms == self.models(),
                ms == old(self).models(),
                i <= ms.len(),
                forall|j: int| 0 <= j < i ==> ms[j].id != id,
                self.screen == old(self).screen,
                self.new_recorder_title == old(self).new_recorder_title,
                self.dirty == old(self).dirty,
            decreases ms.len() - i,
        {
            if self.recorders[i].get_id() == id {
                proof {
                    assert(first_id(ms, id, i as int));
                    let k = id_index(ms, id);
                    assert(first_id(ms, id, k));
                    if k < i {
                    } else if k > i {
                        assert(ms[i as int].id == id);
                    }
                }
                self.recorders.remove(i);
                assert(self.models() =~= ms.remove(i as int));
                return;
            }
            i = i + 1;
        }
    }

    /// Counts one more on every counter that is not paused.
    fn update_all_counter(&mut self)
        ensures
            final(self).models().len() == old(self).models().len(),
            forall|i: int|
                0 <= i < old(self).models().len() ==> #[trigger] final(self).models()[i] == counted(
                    old(self).models()[i],
                ),
            final(self).spec_screen() == old(self).spec_screen(),
            final(self).spec_title() == old(self).spec_title(),
            final(self).spec_dirty() == old(self).spec_dirty(),
    {
        let ghost ms = self.models();
        let mut i: usize = 0;
        while i < self.recorders.len()
            invariant
                self.models().len() == ms.len(),
                i <= ms.len(),
                forall|j: int| 0 <= j < i ==> #[trigger] self.models()[j] == counted(ms[j]),
                forall|j: int| i <= j < ms.len() ==> #[trigger] self.models()[j] == ms[j],
                self.screen == old(self).screen,
                self.new_recorder_title == old(self).new_recorder_title,
                self.dirty == old(self).dirty,
            decreases ms.len() - i,
        {
            let ghost before = self.models();
            let mut r = self.recorders.remove(i);
            r.increment();
            self.recorders.insert(i, r);
            assert(self.models() =~= before.update(i as int, counted(before[i as int])));
            i = i + 1;
        }
    }

    /// Pauses or resumes counter `i`, if there is one.
    fn toggle_counter(&mut self, i: usize)
        ensures
            i < old(self).models().len() ==> final(self).models() == old(self).models().update(
                i as int,
                RecorderModel { active: !old(self).models()[i as int].active, ..old(self).models()[i as int] },
            ),
            i >= old(self).models().len() ==> final(self).models() == old(self).models(),
            final(self).spec_screen() == old(self).spec_screen(),
            final(self).spec_title() == old(self).spec_title(),
            final(self).spec_dirty() == (old(self).spec_dirty() || i < old(self).models().len()),
    {
        if i < self.recorders.len() {
            let ghost ms = self.models();
            let mut r = self.recorders.remove(i);
            r.activate_deactivate();
            self.recorders.insert(i, r);
            assert(self.models() =~= ms.update(
                i as int,
                RecorderModel { active: !ms[i as int].active, ..ms[i as int] },
            ));
            self.dirty = true;
        }
    }

    /// Handles one message; returns whether the counters should be saved
    /// now.
    pub fn update(&mut self, message: MessageApp) -> (save: bool)
        ensures
            save == match message {
                MessageApp::SaveRecorders => true,
                MessageApp::AutosaveTick => old(self).spec_dirty(),
                _ => false,
            },
            message is Increment ==> final(self).models().len() == old(self).models().len() && (
            forall|i: int|
                0 <= i < old(self).models().len() ==> #[trigger] final(self).models()[i] == counted(
                    old(self).models()[i],
                )) && final(self).spec_dirty(),
            message is AddCounter ==> final(self).models().len() == old(self).models().len() + 1
                && final(self).models().drop_last() == old(self).models()
                && final(self).models().last().title == old(self).spec_title()
                && final(self).spec_screen() == Screen::List && final(self).spec_title().len() == 0
                && final(self).spec_dirty(),
            message is CancelAddCounter ==> final(self).spec_screen() == Screen::List
                && final(self).spec_title().len() == 0 && final(self).models() == old(self).models(),
            message matches MessageApp::ChangeView(s) ==> final(self).spec_screen() == s
                && final(self).models() == old(self).models(),
            message matches MessageApp::TitleChanged(t) ==> final(self).spec_title() == t@
                && final(self).models() == old(self).models(),
            message matches MessageApp::ToggleCounter(i) ==> (i < old(self).models().len()
                ==> final(self).models() == old(self).models().update(
                i as int,
                RecorderModel { active: !old(self).models()[i as int].active, ..old(self).models()[i as int] },
            ) && final(self).spec_dirty()) && (i >= old(self).models().len() ==> final(self).models()
                == old(self).models() && final(self).spec_dirty() == old(self).spec_dirty()),
            message is AutosaveTick ==> !final(self).spec_dirty() && final(self).models() == old(
                self,
            ).models(),
            message is SaveRecorders ==> final(self).models() == old(self).models(),
            message matches MessageApp::DeleteCounter(id) ==> final(self).spec_dirty() && (has_id(
                old(self).models(),
                id,
            ) ==> final(self).models() == old(self).models().remove(id_index(old(self).models(), id)))
                && (!has_id(old(self).models(), id) ==> final(self).models() == old(self).models()),
    {
        match message {
            MessageApp::Increment => {
                self.update_all_counter();
                self.dirty = true;
                false
            },
            MessageApp::AddCounter => {
                let title = self.new_recorder_title.clone();
                self.add_recorder(title);
                self.dirty = true;
                self.go_to(Screen::List);
                false
            },
            MessageApp::CancelAddCounter => {
                self.go_to(Screen::List);
                false
            },
            MessageApp::DeleteCounter(id) => {
                self.delete_recorder(id);
                self.dirty = true;
                false
            },
            MessageApp::ToggleCounter(i) => {
                self.toggle_counter(i);
                false
            },
            MessageApp::ChangeView(screen) => {
                self.screen = screen;
                false
            },
            MessageApp::TitleChanged(value) => {
                self.new_recorder_title = value;
                false
            },
            MessageApp::SaveRecorders => true,
            MessageApp::AutosaveTick => {
                let save = self.dirty;
                self.dirty = false;
                save
            },
        }
    }
}

} // verus!
