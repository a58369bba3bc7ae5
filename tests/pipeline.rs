use death_counter::app_state::{App, MessageApp};
use death_counter::detection::{
    pacing_delay_ms, ActionOCR, DetectorState, OcrMessage, StatusOCR,
};
use death_counter::hotkey::HotkeyMessage;
use death_counter::i18n::{GeneralKey, I18n, Language, OcrKey, TranslationKey};
use death_counter::list::{ListComponent, ListMessage, RecorderOp};
use death_counter::prefilter::{extract_red_channel, has_red_text_present};
use death_counter::screens::{AddRecorderMessage, AddRecorderScreen, OcrComponent};
use death_counter::settings::{CropPosition, Game, GameConfig, Settings};
use death_counter::{Recorder, RecorderKind};

fn store_with(titles: &[&str]) -> ListComponent {
    let loaded: Vec<Recorder> = titles.iter().map(|t| Recorder::new(t.to_string())).collect();
    ListComponent::new(loaded)
}

fn titles(l: &ListComponent) -> Vec<String> {
    l.get_recorders().iter().map(|r| r.get_title()).collect()
}

#[test]
fn totals_are_put_in_front() {
    let mut loaded = vec![Recorder::new("Margit".to_string()), Recorder::new_global_bosses()];
    loaded[1].force_increment();
    let l = ListComponent::new(loaded);
    let rs = l.get_recorders();
    assert_eq!(rs.len(), 3);
    assert!(rs[0].is_global_deaths());
    assert!(rs[1].is_global_bosses());
    assert_eq!(rs[1].get_counter(), 1);
    assert_eq!(rs[2].get_title(), "Margit");
}

#[test]
fn exact_match_increments_without_new_counter() {
    let mut l = store_with(&["Godrick", "Margit the Fell Omen"]);
    l.handle_boss_detected(vec!["  margit the fell omen ".to_string()]);
    let rs = l.get_recorders();
    assert_eq!(rs.len(), 4);
    assert_eq!(rs[2].get_title(), "Margit the Fell Omen");
    assert_eq!(rs[2].get_counter(), 1);
    assert_eq!(rs[3].get_title(), "Godrick");
}

#[test]
fn fuzzy_match_increments_existing_counter() {
    let mut l = store_with(&["Godrick", "MARGIT THE FELL OMEN"]);
    l.handle_boss_detected(vec!["MARGIT THE FEEL OMEN".to_string()]);
    let rs = l.get_recorders();
    assert_eq!(rs.len(), 4);
    assert_eq!(rs[2].get_title(), "MARGIT THE FELL OMEN");
    assert_eq!(rs[2].get_counter(), 1);
}

#[test]
fn fuzzy_match_picks_most_similar() {
    let mut l = store_with(&["RENNALA QUEEN OF THE MOON", "RENNALA QUEEN OF THE FULL MOON"]);
    l.handle_boss_detected(vec!["RENNALA QUEEN OF THE FULL MOOM".to_string()]);
    let rs = l.get_recorders();
    assert_eq!(rs[2].get_title(), "RENNALA QUEEN OF THE FULL MOON");
    assert_eq!(rs[2].get_counter(), 1);
    assert_eq!(rs[3].get_counter(), 0);
}

#[test]
fn no_match_creates_one_counter_at_one() {
    let mut l = store_with(&["Godrick the Grafted"]);
    l.handle_boss_detected(vec!["Malenia".to_string()]);
    let rs = l.get_recorders();
    assert_eq!(rs.len(), 4);
    assert_eq!(rs[2].get_title(), "Malenia");
    assert_eq!(rs[2].get_counter(), 1);
    assert!(rs[2].is_classic());
    assert_eq!(rs[3].get_counter(), 0);
}

#[test]
fn boss_total_counts_once_per_detection() {
    let mut l = store_with(&[]);
    l.handle_boss_detected(vec!["Margit".to_string(), "Godrick".to_string()]);
    let rs = l.get_recorders();
    assert_eq!(rs[1].get_counter(), 1);
    assert_eq!(rs[0].get_counter(), 0);
    assert_eq!(titles(&l)[2], "Margit - Godrick");
    l.handle_boss_detected(vec!["   ".to_string()]);
    assert_eq!(l.get_recorders()[1].get_counter(), 1);
    assert_eq!(l.get_recorders().len(), 3);
}

#[test]
fn ocr_death_counts_death_and_boss() {
    let mut l = store_with(&[]);
    l.update(ListMessage::OcrDeath(vec![]));
    assert_eq!(l.get_recorders()[0].get_counter(), 1);
    assert_eq!(l.get_recorders()[1].get_counter(), 0);
    l.update(ListMessage::OcrDeath(vec!["Margit".to_string()]));
    assert_eq!(l.get_recorders()[0].get_counter(), 2);
    assert_eq!(l.get_recorders()[1].get_counter(), 1);
    assert!(l.is_dirty());
    assert!(l.update(ListMessage::AutosaveTick));
}

#[test]
fn store_operations_by_id() {
    let mut l = store_with(&["A", "B"]);
    let id_a = l.get_recorders()[2].get_id();
    l.change_recorder(id_a, RecorderOp::Increment);
    l.change_recorder(id_a, RecorderOp::Increment);
    l.change_recorder(id_a, RecorderOp::Decrement);
    assert_eq!(l.get_recorders()[2].get_counter(), 1);
    l.update(ListMessage::ToggleRecorder(id_a));
    l.update(ListMessage::HotKey(HotkeyMessage::Increment));
    assert_eq!(l.get_recorders()[2].get_counter(), 1);
    assert_eq!(l.get_recorders()[3].get_counter(), 1);
    assert_eq!(l.get_recorders()[0].get_counter(), 1);
    l.update(ListMessage::ResetRecorder(id_a));
    assert_eq!(l.get_recorders()[2].get_counter(), 0);
    l.set_title(id_a, "Z".to_string());
    assert_eq!(l.get_title(id_a), "Z");
    let deaths = l.get_recorders()[0].get_id();
    l.delete_recorder(deaths);
    assert_eq!(l.get_recorders().len(), 4);
    l.delete_recorder(id_a);
    assert_eq!(titles(&l)[2], "B");
    assert_eq!(l.get_recorders().len(), 3);
}

#[test]
fn drag_and_drop_moves_boss_counters_only() {
    let mut l = store_with(&["A", "B", "C"]);
    l.update(ListMessage::StartDrag(2));
    l.update(ListMessage::Drop(5));
    assert_eq!(&titles(&l)[2..], &["B".to_string(), "C".to_string(), "A".to_string()]);
    assert_eq!(l.get_dragging(), None);
    l.update(ListMessage::StartDrag(4));
    l.update(ListMessage::Drop(0));
    assert_eq!(&titles(&l)[2..], &["B".to_string(), "C".to_string(), "A".to_string()]);
}

#[test]
fn title_editing() {
    let mut l = store_with(&["A"]);
    let id = l.get_recorders()[2].get_id();
    l.update(ListMessage::StartEditingTitle(id));
    l.update(ListMessage::UpdateTitle("Radahn".to_string()));
    l.update(ListMessage::EndEditingTitle(id));
    assert_eq!(l.get_title(id), "Radahn");
}

#[test]
fn cooldown_suppresses_second_detection() {
    let mut s = DetectorState::new();
    let first = s.register_death(1_000);
    assert_eq!(first.len(), 2);
    assert!(matches!(first[0], OcrMessage::ChangeActionOCR(StatusOCR::Started(ActionOCR::SearchingBossName))));
    assert!(matches!(first[1], OcrMessage::DeathDetected));
    let end = s.finish_boss_scan(vec!["Margit".to_string()], 3_000);
    assert!(matches!(end[1], OcrMessage::ChangeActionOCR(StatusOCR::Started(ActionOCR::EndingAction))));
    assert!(s.register_death(7_999).is_empty());
    assert!(s.start_iteration().is_some());
    assert_eq!(s.action, ActionOCR::SearchingDeath);
    assert!(s.start_iteration().is_none());
    assert_eq!(s.register_death(8_000).len(), 2);
}

#[test]
fn pacing() {
    assert_eq!(pacing_delay_ms(120, false), 380);
    assert_eq!(pacing_delay_ms(900, false), 0);
    assert_eq!(pacing_delay_ms(2_000, true), 8_000);
}

#[test]
fn no_red_means_no_ocr() {
    let dark = vec![10u8, 10, 10, 255].repeat(100);
    assert!(!has_red_text_present(&dark));
    let mut some = dark.clone();
    some[0] = 200;
    assert!(!has_red_text_present(&some));
    some[4] = 200;
    assert!(has_red_text_present(&some));
    assert!(!has_red_text_present(&Vec::new()));
    assert_eq!(extract_red_channel(&vec![1, 2, 3, 4, 5, 6, 7, 8, 9]), vec![1, 5]);
}

#[test]
fn crop_zone_in_pixels() {
    let z = CropPosition::new(31, 46, 39, 10);
    assert_eq!(z.to_pixels(1920, 1080), (595, 496, 748, 108));
}

#[test]
fn game_configs() {
    let c = GameConfig::elden_ring_default();
    assert_eq!(*c.get_death_zone(), CropPosition::new(31, 46, 39, 10));
    assert_eq!(c.get_boss_zones().len(), 1);
    let mut s = Settings::new();
    assert_eq!(s.get_game(), Game::EldenRing);
    assert_eq!(s.get_death_text(), "VOUS AVEZ PERI");
    assert_eq!(*s.get_game_config().get_death_zone(), CropPosition::new(31, 46, 39, 10));
    s.set_custom_game_config(Game::EldenRing, GameConfig::dark_souls_3_default());
    assert_eq!(*s.get_game_config().get_death_zone(), CropPosition::new(30, 45, 40, 12));
    s.set_screen(2);
    s.set_language(Language::English);
    assert_eq!(s.get_screen(), 2);
    assert_eq!(*s.get_language(), Language::English);
}

#[test]
fn translations() {
    let mut i = I18n::new(Language::French);
    assert_eq!(i.general(GeneralKey::Delete), "Supprimer");
    i.set_language(Language::English);
    assert_eq!(i.general(GeneralKey::Delete), "Delete");
    assert_eq!(i.ocr(OcrKey::Stopped), "OCR stopped");
    assert_eq!(
        TranslationKey::from_status(StatusOCR::Started(ActionOCR::EndingAction)),
        TranslationKey::Ocr(OcrKey::EndingAction)
    );
}

#[test]
fn screens_state() {
    let mut o = OcrComponent::new(Settings::new());
    o.update(OcrMessage::ActivateOCR(true));
    assert!(o.is_ocr_active());
    assert_eq!(o.get_status(), StatusOCR::Starting);
    o.update(OcrMessage::ChangeActionOCR(StatusOCR::Started(ActionOCR::SearchingDeath)));
    assert_eq!(o.get_status(), StatusOCR::Started(ActionOCR::SearchingDeath));
    let mut a = AddRecorderScreen::new();
    assert!(a.update(AddRecorderMessage::AddCounter).is_none());
    assert_eq!(a.get_error(), Some("Title cannot be empty".to_string()));
    a.update(AddRecorderMessage::TitleChanged("Malenia".to_string()));
    let r = a.update(AddRecorderMessage::AddCounter).unwrap();
    assert_eq!(r.get_title(), "Malenia");
}

#[test]
fn labels() {
    assert_eq!(Game::EldenRing.label(), "Elden Ring");
    assert_eq!(Language::French.label(), "Français");
    assert_eq!(Language::English.label(), "English");
}

#[test]
fn new_boss_counter_gets_an_unused_id() {
    let loaded: Vec<Recorder> = (0..5u128)
        .map(|i| Recorder::from_parts(i, format!("Boss {i}"), 0, true, RecorderKind::Classic))
        .collect();
    let mut l = ListComponent::new(loaded);
    l.handle_boss_detected(vec!["Malenia Blade of Miquella".to_string()]);
    let rs = l.get_recorders();
    let id = rs[2].get_id();
    assert_eq!(rs[2].get_title(), "Malenia Blade of Miquella");
    assert_eq!(rs.iter().filter(|r| r.get_id() == id).count(), 1);
}

#[test]
fn boss_detection_marks_the_store_changed() {
    let mut l = store_with(&[]);
    assert!(!l.is_dirty());
    l.handle_boss_detected(vec!["  ".to_string()]);
    assert!(!l.is_dirty());
    l.handle_boss_detected(vec!["Margit".to_string()]);
    assert!(l.is_dirty());
}

#[test]
fn custom_zones_replace_earlier_ones() {
    let mut s = Settings::new();
    s.set_custom_game_config(Game::EldenRing, GameConfig::dark_souls_3_default());
    s.set_custom_game_config(Game::EldenRing, GameConfig::elden_ring_default());
    assert_eq!(s.get_custom_game_configs().len(), 1);
    assert_eq!(*s.get_game_config().get_death_zone(), CropPosition::new(31, 46, 39, 10));
}

#[test]
fn toggle_in_simple_list() {
    let mut app = App::new();
    app.add_recorder("A".to_string());
    app.add_recorder("B".to_string());
    app.update(MessageApp::ToggleCounter(1));
    assert!(app.get_recorders()[0].get_status_recorder());
    assert!(!app.get_recorders()[1].get_status_recorder());
    app.update(MessageApp::ToggleCounter(7));
    assert_eq!(app.get_recorders().len(), 2);
}
