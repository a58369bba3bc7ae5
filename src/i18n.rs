//! The texts shown to the user, in each language.
use vstd::prelude::*;

use crate::detection::{ActionOCR, StatusOCR};
use crate::settings::Settings;

verus! {

/// The languages of the texts.
#[derive(Clone, Copy, Debug, PartialEq, Eq, Structural)]
pub enum Language {
    French,
    English,
}

impl Language {
    /// The language's name as shown.
    pub fn label(&self) -> (r: &'static str)
        ensures
            *self == Language::French ==> r@ == "Français"@,
            *self == Language::English ==> r@ == "English"@,
    {
        match self {
            Language::French => "Français",
            Language::English => "English",
        }
    }
}

/// Texts in one language.
#[derive(Clone, Copy, Debug, PartialEq, Eq, Structural)]
pub struct I18n {
    pub language: Language,
}

#[derive(Clone, Copy, Debug, PartialEq, Eq, Structural)]
pub enum TranslationKey {
    General(GeneralKey),
    Settings(SettingsKey),
    Ocr(OcrKey),
    List(ListKey),
    AddRecorder(AddRecorderKey),
}

#[derive(Clone, Copy, Debug, PartialEq, Eq, Structural)]
pub enum AddRecorderKey {
    Title,
    InputPlaceholder,
    AddCounter,
    Cancel,
}

#[derive(Clone, Copy, Debug, PartialEq, Eq, Structural)]
pub enum GeneralKey {
    Delete,
    AddRecorder,
    Save,
    Settings,
}

#[derive(Clone, Copy, Debug, PartialEq, Eq, Structural)]
pub enum OcrKey {
    Starting,
    SearchingBossName,
    EndingAction,
    SearchingDeath,
    Stopped,
    AutoDetection,
}

#[derive(Clone, Copy, Debug, PartialEq, Eq, Structural)]
pub enum SettingsKey {
    Language,
    Game,
    Screen,
    DeathText,
    DeathTextInput,
}

#[derive(Clone, Copy, Debug, PartialEq, Eq, Structural)]
pub enum ListKey {
    InputTextPlaceholder,
    TitleGlobalDeaths,
    TitleGlobalCounter,
}

/// The French text of a key.
pub open spec fn french_text(k: TranslationKey) -> Seq<char> {
    match k {
        TranslationKey::General(key) => match key {
            GeneralKey::Delete => "Supprimer"@,
            GeneralKey::Save => "Enregistrer"@,
            GeneralKey::Settings => "Paramètres"@,
            GeneralKey::AddRecorder => "Ajouter un enregistreur"@,
        },
        TranslationKey::Settings(key) => match key {
            SettingsKey::Language => "Langue"@,
            SettingsKey::Game => "Jeu"@,
            SettingsKey::Screen => "Écran"@,
            SettingsKey::DeathText => "Texte de mort"@,
            SettingsKey::DeathTextInput => "Texte de Mort"@,
        },
        TranslationKey::Ocr(key) => match key {
            OcrKey::Starting => "Démarrage..."@,
            OcrKey::SearchingBossName => "Recherche du nom du boss..."@,
            OcrKey::EndingAction => "OCR démarré - pause en cours"@,
            OcrKey::SearchingDeath => "Recherche de ta mort... ça arrive"@,
            OcrKey::Stopped => "OCR arrêté"@,
            OcrKey::AutoDetection => "OCR Auto-détection :"@,
        },
        TranslationKey::List(key) => match key {
            ListKey::InputTextPlaceholder => "Entrer le titre"@,
            ListKey::TitleGlobalDeaths => "Morts Totales"@,
            ListKey::TitleGlobalCounter => "VS Boss"@,
        },
        TranslationKey::AddRecorder(key) => match key {
            AddRecorderKey::Title => "Ajouter un enregistreur"@,
            AddRecorderKey::InputPlaceholder => "Titre"@,
            AddRecorderKey::AddCounter => "Ajouter"@,
            AddRecorderKey::Cancel => "Annuler"@,
        },
    }
}

/// The English text of a key.
pub open spec fn english_text(k: TranslationKey) -> Seq<char> {
    match k {
        TranslationKey::General(key) => match key {
            GeneralKey::Delete => "Delete"@,
            GeneralKey::Save => "Save"@,
            GeneralKey::Settings => "Settings"@,
            GeneralKey::AddRecorder => "Add recorder"@,
        },
        TranslationKey::Settings(key) => match key {
            SettingsKey::Language => "Language"@,
            SettingsKey::DeathTextInput => "Death text"@,
            SettingsKey::DeathText => "Death text"@,
            SettingsKey::Game => "Game"@,
            SettingsKey::Screen => "Screen"@,
        },
        TranslationKey::Ocr(key) => match key {
            OcrKey::Starting => "Starting..."@,
            OcrKey::SearchingBossName => "Searching boss name..."@,
            OcrKey::EndingAction => "OCR started - sleeping"@,
            OcrKey::SearchingDeath => "Searching your death..."@,
            OcrKey::Stopped => "OCR stopped"@,
            OcrKey::AutoDetection => "OCR Auto-detection :"@,
        },
        TranslationKey::List(key) => match key {
            ListKey::InputTextPlaceholder => "Enter the title"@,
            ListKey::TitleGlobalDeaths => "Deaths VS Boss"@,
            ListKey::TitleGlobalCounter => "Global Deaths"@,
        },
        TranslationKey::AddRecorder(key) => match key {
            AddRecorderKey::Title => "Add Recorder"@,
            AddRecorderKey::InputPlaceholder => "Title"@,
            AddRecorderKey::AddCounter => "Add"@,
            AddRecorderKey::Cancel => "Cancel"@,
        },
    }
}

/// The text of a key in a language.
pub open spec fn text_in(language: Language, k: TranslationKey) -> Seq<char> {
    match language {
        Language::French => french_text(k),
        Language::English => english_text(k),
    }
}

impl TranslationKey {
    pub fn fr(self) -> (r: &'static str)
        ensures
            r@ == french_text(self),
    {
        match self {
            TranslationKey::General(key) => match key {
                GeneralKey::Delete => "Supprimer",
                GeneralKey::Save => "Enregistrer",
                GeneralKey::Settings => "Paramètres",
                GeneralKey::AddRecorder => "Ajouter un enregistreur",
            },
            TranslationKey::Settings(key) => match key {
                SettingsKey::Language => "Langue",
                SettingsKey::Game => "Jeu",
                SettingsKey::Screen => "Écran",
                SettingsKey::DeathText => "Texte de mort",
                SettingsKey::DeathTextInput => "Texte de Mort",
            },
            TranslationKey::Ocr(key) => match key {
                OcrKey::Starting => "Démarrage...",
                OcrKey::SearchingBossName => "Recherche du nom du boss...",
                OcrKey::EndingAction => "OCR démarré - pause en cours",
                OcrKey::SearchingDeath => "Recherche de ta mort... ça arrive",
                OcrKey::Stopped => "OCR arrêté",
                OcrKey::AutoDetection => "OCR Auto-détection :",
            },
            TranslationKey::List(key) => match key {
                ListKey::InputTextPlaceholder => "Entrer le titre",
                ListKey::TitleGlobalDeaths => "Morts Totales",
                ListKey::TitleGlobalCounter => "VS Boss",
            },
            TranslationKey::AddRecorder(key) => match key {
                AddRecorderKey::Title => "Ajouter un enregistreur",
                AddRecorderKey::InputPlaceholder => "Titre",
                AddRecorderKey::AddCounter => "Ajouter",
                AddRecorderKey::Cancel => "Annuler",
            },
        }
    }

    pub fn en(self) -> (r: &'static str)
        ensures
            r@ == english_text(self),
    {
        match self {
            TranslationKey::General(key) => match key {
                GeneralKey::Delete => "Delete",
                GeneralKey::Save => "Save",
                GeneralKey::Settings => "Settings",
                GeneralKey::AddRecorder => "Add recorder",
            },
            TranslationKey::Settings(key) => match key {
                SettingsKey::Language => "Language",
                SettingsKey::DeathTextInput => "Death text",
                SettingsKey::DeathText => "Death text",
                SettingsKey::Game => "Game",
                SettingsKey::Screen => "Screen",
            },
            TranslationKey::Ocr(key) => match key {
                OcrKey::Starting => "Starting...",
                OcrKey::SearchingBossName => "Searching boss name...",
                OcrKey::EndingAction => "OCR started - sleeping",
                OcrKey::SearchingDeath => "Searching your death...",
                OcrKey::Stopped => "OCR stopped",
                OcrKey::AutoDetection => "OCR Auto-detection :",
            },
            TranslationKey::List(key) => match key {
                ListKey::InputTextPlaceholder => "Enter the title",
                ListKey::TitleGlobalDeaths => "Deaths VS Boss",
                ListKey::TitleGlobalCounter => "Global Deaths",
            },
            TranslationKey::AddRecorder(key) => match key {
                AddRecorderKey::Title => "Add Recorder",
                AddRecorderKey::InputPlaceholder => "Title",
                AddRecorderKey::AddCounter => "Add",
                AddRecorderKey::Cancel => "Cancel",
            },
        }
    }

    /// The key of the text that shows a state of the detection.
    pub fn from_status(status: StatusOCR) -> (r: TranslationKey)
        ensures
            r == match status {
                StatusOCR::Starting => TranslationKey::Ocr(OcrKey::Starting),
                StatusOCR::Stopped => TranslationKey::Ocr(OcrKey::Stopped),
                StatusOCR::Started(ActionOCR::SearchingBossName) => TranslationKey::Ocr(OcrKey::SearchingBossName),
                StatusOCR::Started(ActionOCR::EndingAction) => TranslationKey::Ocr(OcrKey::EndingAction),
                StatusOCR::Started(ActionOCR::SearchingDeath) => TranslationKey::Ocr(OcrKey::SearchingDeath),
            },
    {
        match status {
            StatusOCR::Starting => TranslationKey::Ocr(OcrKey::Starting),
            StatusOCR::Stopped => TranslationKey::Ocr(OcrKey::Stopped),
            StatusOCR::Started(action) => match action {
                ActionOCR::SearchingBossName => TranslationKey::Ocr(OcrKey::SearchingBossName),
                ActionOCR::EndingAction => TranslationKey::Ocr(OcrKey::EndingAction),
                ActionOCR::SearchingDeath => TranslationKey::Ocr(OcrKey::SearchingDeath),
            },
        }
    }
}

impl I18n {
    pub fn new(language: Language) -> (r: Self)
        ensures
            r.language == language,
    {
        I18n { language }
    }

    /// Texts in the language of the settings.
    pub fn load(settings: &Settings) -> (r: Self)
        ensures
            r.language == settings.spec_language(),
    {
        I18n::new(*settings.get_language())
    }

    pub fn set_language(&mut self, language: Language)
        ensures
            final(self).language == language,
    {
        self.language = language;
    }

    pub fn get(&self, key: TranslationKey) -> (r: &'static str)
        ensures
            r@ == text_in(self.language, key),
    {
        match self.language {
            Language::French => key.fr(),
            Language::English => key.en(),
        }
    }

    pub fn general(&self, key: GeneralKey) -> (r: &'static str)
        ensures
            r@ == text_in(self.language, TranslationKey::General(key)),
    {
        self.get(TranslationKey::General(key))
    }

    pub fn ocr(&self, key: OcrKey) -> (r: &'static str)
        ensures
            r@ == text_in(self.language, TranslationKey::Ocr(key)),
    {
        self.get(TranslationKey::Ocr(key))
    }

    pub fn settings(&self, key: SettingsKey) -> (r: &'static str)
        ensures
            r@ == text_in(self.language, TranslationKey::Settings(key)),
    {
        self.get(TranslationKey::Settings(key))
    }

    pub fn list(&self, key: ListKey) -> (r: &'static str)
        ensures
            r@ == text_in(self.language, TranslationKey::List(key)),
    {
        self.get(TranslationKey::List(key))
    }

    pub fn add_recorder(&self, key: AddRecorderKey) -> (r: &'static str)
        ensures
            r@ == text_in(self.language, TranslationKey::AddRecorder(key)),
    {
        self.get(TranslationKey::AddRecorder(key))
    }
}

} // verus!
