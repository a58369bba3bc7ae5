//! The state behind the views: the detection toggle, the form that adds a
//! counter, and the settings form.
use vstd::prelude::*;

use crate::detection::{ActionOCR, OcrMessage, StatusOCR};
use crate::i18n::Language;
use crate::recorder::{Recorder, RecorderKind};
use crate::settings::{Game, ScreenInfo, Settings};

verus! {

/// Whether detection runs, and what it is doing.
#[derive(Clone, Debug)]
pub struct OcrComponent {
    settings: Settings,
    ocr_activate: bool,
    ocr_status: StatusOCR,
}

impl OcrComponent {
    pub closed spec fn spec_active(&self) -> bool {
        self.ocr_activate
    }

    pub closed spec fn spec_status(&self) -> StatusOCR {
        self.ocr_status
    }

    pub closed spec fn spec_settings(&self) -> Settings {
        self.settings
    }

    /// Detection off, with the given settings.
    pub fn new(settings: Settings) -> (r: Self)
        ensures
            !r.spec_active(),
            r.spec_status() == StatusOCR::Stopped,
            r.spec_settings() == settings,
    {
        OcrComponent { settings, ocr_activate: false, ocr_status: StatusOCR::Stopped }
    }

    pub fn get_settings(&self) -> (r: &Settings)
        ensures
            *r == self.spec_settings(),
    {
        &self.settings
    }

    pub fn is_ocr_active(&self) -> (r: bool)
        ensures
            r == self.spec_active(),
    {
        self.ocr_activate
    }

    pub fn get_status(&self) -> (r: StatusOCR)
        ensures
            r == self.spec_status(),
    {
        self.ocr_status
    }

    pub fn set_ocr_active(&mut self, active: bool)
        ensures
            final(self).spec_active() == active,
            final(self).spec_status() == old(self).spec_status(),
            final(self).spec_settings() == old(self).spec_settings(),
    {
        self.ocr_activate = active;
    }

    pub fn set_ocr_action(&mut self, action: ActionOCR)
        ensures
            final(self).spec_status() == StatusOCR::Started(action),
            final(self).spec_active() == old(self).spec_active(),
            final(self).spec_settings() == old(self).spec_settings(),
    {
        self.ocr_status = StatusOCR::Started(action);
    }

    /// Follows what detection announces: switching on shows it starting,
    /// switching off shows it stopped, and a new action is shown as started.
    pub fn update(&mut self, message: OcrMessage)
        ensures
            final(self).spec_settings() == old(self).spec_settings(),
            match message {
                OcrMessage::ActivateOCR(a) => final(self).spec_active() == a && final(self).spec_status()
                    == if a { StatusOCR::Starting } else { StatusOCR::Stopped },
                OcrMessage::ChangeActionOCR(StatusOCR::Started(action)) => final(self).spec_status()
                    == StatusOCR::Started(action) && final(self).spec_active() == old(self).spec_active(),
                _ => final(self).spec_status() == old(self).spec_status() && final(self).spec_active()
                    == old(self).spec_active(),
            },
    {
        match message {
            OcrMessage::ActivateOCR(active) => {
                if active {
                    self.ocr_status = StatusOCR::Starting;
                } else {
                    self.ocr_status = StatusOCR::Stopped;
                }
                self.set_ocr_active(active);
            },
            OcrMessage::ChangeActionOCR(status) => {
                match status {
                    StatusOCR::Started(action) => self.set_ocr_action(action),
                    _ => {},
                }
            },
            OcrMessage::BossesFoundOCR(_) => {},
            OcrMessage::DeathDetected => {},
        }
    }
}

/// What the form that adds a counter is told.
#[derive(Clone, Debug)]
pub enum AddRecorderMessage {
    TitleChanged(String),
    AddCounter,
    CancelAddCounter,
}

/// The message shown when the title is empty.
pub open spec fn empty_title_error() -> Seq<char> {
    "Title cannot be empty"@
}

/// The form that adds a counter.
#[derive(Clone, Debug)]
pub struct AddRecorderScreen {
    title: String,
    error: Option<String>,
}

impl AddRecorderScreen {
    pub closed spec fn spec_title(&self) -> Seq<char> {
        self.title@
    }

    pub closed spec fn spec_error(&self) -> Option<Seq<char>> {
        match self.error {
            Some(e) => Some(e@),
            None => None,
        }
    }

    /// An empty form.
    pub fn new() -> (r: Self)
        ensures
            r.spec_title().len() == 0,
            r.spec_error() is None,
    {
        AddRecorderScreen { title: String::new(), error: None }
    }

    pub fn get_error(&self) -> (r: Option<String>)
        ensures
            r is None <==> self.spec_error() is None,
            r matches Some(e) ==> self.spec_error() == Some(e@),
    {
        match &self.error {
            Some(e) => Some(e.clone()),
            None => None,
        }
    }

    /// Handles one message; on `AddCounter` with a title, returns the new
    /// counter, to be stored first; with an empty title, shows an error.
    pub fn update(&mut self, message: AddRecorderMessage) -> (r: Option<Recorder>)
        ensures
            match message {
                AddRecorderMessage::TitleChanged(t) => r is None && final(self).spec_title() == t@
                    && final(self).spec_error() == old(self).spec_error(),
                AddRecorderMessage::AddCounter => final(self).spec_title() == old(self).spec_title() && if old(
                    self,
                ).spec_title().len() == 0 {
                    r is None && final(self).spec_error() == Some(empty_title_error())
                } else {
                    r matches Some(rec) && rec@.title == old(self).spec_title() && rec@.counter == 0
                        && rec@.active && rec@.kind == RecorderKind::Classic && final(self).spec_error()
                        == old(self).spec_error()
                },
                AddRecorderMessage::CancelAddCounter => r is None && final(self).spec_title() == old(
                    self,
                ).spec_title() && final(self).spec_error() == old(self).spec_error(),
            },
    {
        match message {
            AddRecorderMessage::TitleChanged(new_title) => {
                self.title = new_title;
                None
            },
            AddRecorderMessage::AddCounter => {
                if self.title.unicode_len() == 0 {
                    self.error = Some(String::from_str("Title cannot be empty"));
                    None
                } else {
                    Some(Recorder::new(self.title.clone()))
                }
            },
            AddRecorderMessage::CancelAddCounter => None,
        }
    }
}

/// What the settings form is told.
#[derive(Clone, Debug)]
pub enum SettingsScreenMessage {
    SaveSettings,
    GameSelected(Game),
    LanguageSelected(Language),
    ScreenSelected(ScreenInfo),
    DeathText(String),
}

/// The settings being edited, and the monitors to pick from.
#[derive(Clone, Debug)]
pub struct SettingsScreen {
    settings: Settings,
    screens_list: Vec<ScreenInfo>,
}

impl SettingsScreen {
    pub closed spec fn spec_settings(&self) -> Settings {
        self.settings
    }

    pub closed spec fn spec_screens(&self) -> Seq<ScreenInfo> {
        self.screens_list@
    }

    pub fn new(settings: Settings, screens_list: Vec<ScreenInfo>) -> (r: Self)
        ensures
            r.spec_settings() == settings,
            r.spec_screens() == screens_list@,
    {
        SettingsScreen { settings, screens_list }
    }

    pub fn get_settings(&self) -> (r: &Settings)
        ensures
            *r == self.spec_settings(),
    {
        &self.settings
    }

    pub fn get_screens(&self) -> (r: &Vec<ScreenInfo>)
        ensures
            r@ == self.spec_screens(),
    {
        &self.screens_list
    }

    pub fn set_language(&mut self, language: Language)
        ensures
            final(self).spec_settings().spec_language() == language,
            final(self).spec_settings().spec_game() == old(self).spec_settings().spec_game(),
            final(self).spec_settings().spec_screen() == old(self).spec_settings().spec_screen(),
            final(self).spec_settings().spec_death_text() == old(self).spec_settings().spec_death_text(),
            final(self).spec_screens() == old(self).spec_screens(),
    {
        self.settings.set_language(language);
    }

    /// Handles one message; returns whether the settings should be saved
    /// now.
    pub fn update(&mut self, message: SettingsScreenMessage) -> (save: bool)
        ensures
            save == message is SaveSettings,
            final(self).spec_screens() == old(self).spec_screens(),
            match message {
                SettingsScreenMessage::GameSelected(g) => final(self).spec_settings().spec_game() == g,
                SettingsScreenMessage::LanguageSelected(l) => final(self).spec_settings().spec_language()
                    == l,
                SettingsScreenMessage::ScreenSelected(s) => final(self).spec_settings().spec_screen()
                    == s.index,
                SettingsScreenMessage::DeathText(t) => final(self).spec_settings().spec_death_text()
                    == t@,
                SettingsScreenMessage::SaveSettings => final(self).spec_settings() == old(
                    self,
                ).spec_settings(),
            },
    {
        match message {
            SettingsScreenMessage::SaveSettings => true,
            SettingsScreenMessage::GameSelected(game) => {
                self.settings.set_game(game);
                false
            },
            SettingsScreenMessage::LanguageSelected(language) => {
                self.set_language(language);
                false
            },
            SettingsScreenMessage::ScreenSelected(screen) => {
                self.settings.set_screen(screen.index);
                false
            },
            SettingsScreenMessage::DeathText(text) => {
                self.settings.set_death_text(text);
                false
            },
        }
    }
}

/// The view of detection results.
#[derive(Clone, Copy, Debug, PartialEq, Eq, Structural)]
pub struct OcrScreen {}

impl OcrScreen {
    pub fn new() -> (r: Self)
        ensures
            r == (OcrScreen {}),
    {
        OcrScreen {}
    }
}

} // verus!
