use death_counter::app_state::{App, MessageApp};
use death_counter::Recorder;

#[test]
fn new_recorder_is_active() {
    let r = Recorder::new("Test".to_string());
    assert!(r.get_status_recorder());
    assert_eq!(r.get_counter(), 0);
}

#[test]
fn increment_only_when_active() {
    let mut r = Recorder::new("Test".to_string());

    r.increment();
    r.deactivate();
    r.increment();

    assert_eq!(r.get_counter(), 1);
}

#[test]
fn activate_deactivate_works() {
    let mut r = Recorder::new("Test".to_string());

    r.deactivate();
    assert!(!r.get_status_recorder());

    r.activate();
    assert!(r.get_status_recorder());
}

#[test]
fn app_starts_empty() {
    let app = App::new();
    assert_eq!(app.get_recorders().len(), 0);
}

#[test]
fn add_recorder_works() {
    let mut app = App::new();
    app.add_recorder("A".to_string());

    assert_eq!(app.get_recorders().len(), 1);
    assert_eq!(app.get_recorders()[0].get_title(), "A");
}

#[test]
fn increment_all_recorders() {
    let mut app = App::new();
    app.add_recorder("A".to_string());
    app.add_recorder("B".to_string());

    app.update(MessageApp::Increment);

    assert_eq!(app.get_recorders()[0].get_counter(), 1);
    assert_eq!(app.get_recorders()[1].get_counter(), 1);
}

#[test]
fn delete_recorder_works() {
    let mut app = App::new();
    app.add_recorder("A".to_string());
    assert_eq!(app.get_recorders().len(), 1);
    let uuid = app.get_recorders().get(0).unwrap().get_id();

    app.update(MessageApp::DeleteCounter(uuid));

    assert_eq!(app.get_recorders().len(), 0);
}

#[test]
fn access_recorder_after_delete() {
    let mut app = App::new();
    app.add_recorder("A".to_string());
    app.add_recorder("B".to_string());

    assert_eq!(app.get_recorders().len(), 2);
    let uuid = app.get_recorders().get(0).unwrap().get_id();
    app.update(MessageApp::DeleteCounter(uuid));

    assert_eq!(app.get_recorders().len(), 1);

    assert_eq!(app.get_recorders()[0].get_title(), "B")
}

#[test]
fn decrement_stops_at_zero_and_reset_clears() {
    let mut r = Recorder::new("Boss".to_string());
    r.force_decrement();
    assert_eq!(r.get_counter(), 0);
    r.deactivate();
    r.force_increment();
    r.force_increment();
    assert_eq!(r.get_counter(), 2);
    r.force_decrement();
    assert_eq!(r.get_counter(), 1);
    r.reset();
    assert_eq!(r.get_counter(), 0);
}

#[test]
fn new_recorders_get_distinct_ids() {
    let a = Recorder::new("A".to_string());
    let b = Recorder::new("A".to_string());
    assert_ne!(a.get_id(), b.get_id());
}

#[test]
fn autosave_only_when_dirty() {
    let mut app = App::new();
    assert!(!app.update(MessageApp::AutosaveTick));
    app.update(MessageApp::TitleChanged("X".to_string()));
    app.update(MessageApp::AddCounter);
    assert_eq!(app.get_recorders()[0].get_title(), "X");
    assert!(app.update(MessageApp::AutosaveTick));
    assert!(!app.update(MessageApp::AutosaveTick));
}
