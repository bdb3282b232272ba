use wallshift::cli::Actions;
use wallshift::configuration::Settings;
use wallshift::data::FileInfo;
use wallshift::path::PathKind;
use wallshift::setup::{serves, Controller, Event, Request, Stage};
use wallshift::wallpaper::{DirectoryEntry, EntryKind};

fn settings(lock: bool) -> Settings {
    Settings { wallpaper_dir: "/walls".to_string(), betterlockscreen: lock, sleep_time: 1800 }
}

fn record(wallpaper: &str, on: bool) -> FileInfo {
    FileInfo { wallpaper: wallpaper.to_string(), on }
}

fn image(name: &str) -> DirectoryEntry {
    DirectoryEntry::new(name.to_string(), EntryKind::Image).unwrap()
}

fn sequence(name: &str, entries: usize) -> DirectoryEntry {
    DirectoryEntry::new(name.to_string(), EntryKind::Sequence { entries: Some(entries) }).unwrap()
}

fn observed(wallpaper: &str, on: bool, kind: PathKind, listing: Vec<DirectoryEntry>) -> Event {
    Event::Observed { state: record(wallpaper, on), kind, listing }
}

#[test]
fn a_new_controller_is_idle() {
    let c = Controller::new(settings(false), Actions::Launch);
    assert_eq!(c.stage, Stage::Idle);
    assert!(c.pending.is_none());
    assert!(c.record.is_none());
    assert_eq!(c.settings.sleep_time, 1800);
}

#[test]
fn toggle_runs_one_cycle() {
    let c = Controller::new(settings(true), Actions::Toggle);
    let (c, r) = c.step(Event::Start);
    assert!(matches!(r, Request::Observe));
    assert_eq!(c.stage, Stage::Observing);
    let (c, r) = c.step(observed("", true, PathKind::Missing, vec![image("a.png")]));
    match r {
        Request::Apply { path, lock_screen } => {
            assert_eq!(path, "/walls/a.png");
            assert!(lock_screen);
        }
        _ => panic!("the wallpaper should be set"),
    }
    assert_eq!(c.stage, Stage::Applying);
    let (c, r) = c.step(Event::Applied);
    match r {
        Request::Persist { state } => {
            assert_eq!(state.wallpaper, "/walls/a.png");
            assert!(state.on);
        }
        _ => panic!("the record should be written"),
    }
    let (c, r) = c.step(Event::Persisted);
    assert!(matches!(r, Request::Exit { failed: false }));
    assert_eq!(c.stage, Stage::Finished);
    let (c, r) = c.step(Event::Woke);
    assert!(matches!(r, Request::Exit { failed: true }));
    assert_eq!(c.stage, Stage::Finished);
}

#[test]
fn toggle_keeps_a_paused_record_paused() {
    let c = Controller::new(settings(false), Actions::Toggle);
    let (c, _) = c.step(Event::Start);
    let (c, r) = c.step(observed("/walls/b.png", false, PathKind::Regular, vec![image("a.png")]));
    assert!(matches!(r, Request::Apply { lock_screen: false, .. }));
    let (_, r) = c.step(Event::Applied);
    match r {
        Request::Persist { state } => {
            assert_eq!(state.wallpaper, "/walls/a.png");
            assert!(!state.on);
        }
        _ => panic!("the record should be written"),
    }
}

#[test]
fn failed_apply_is_not_persisted() {
    let c = Controller::new(settings(false), Actions::Toggle);
    let (c, _) = c.step(Event::Start);
    let (c, _) = c.step(observed("", true, PathKind::Missing, vec![image("a.png")]));
    let (c, r) = c.step(Event::Failed { message: "feh exited with 1".to_string() });
    match r {
        Request::Report { text } => assert_eq!(text, "feh exited with 1"),
        _ => panic!("the failure should be reported"),
    }
    assert_eq!(c.stage, Stage::Reporting);
    let (c, r) = c.step(Event::Reported);
    assert!(matches!(r, Request::Exit { failed: true }));
    assert_eq!(c.stage, Stage::Finished);
}

#[test]
fn launch_retries_after_a_failure() {
    let c = Controller::new(settings(false), Actions::Launch);
    let (c, _) = c.step(Event::Start);
    let (c, r) = c.step(observed("", true, PathKind::Missing, vec![]));
    match r {
        Request::Report { text } => assert_eq!(text, "no wallpapers in the wallpaper directory"),
        _ => panic!("the empty pool should be reported"),
    }
    let (c, r) = c.step(Event::Reported);
    assert!(matches!(r, Request::Sleep { seconds: 1800 }));
    let (c, r) = c.step(Event::Woke);
    assert!(matches!(r, Request::Observe));
    assert_eq!(c.stage, Stage::Observing);
}

#[test]
fn launch_sleeps_while_paused() {
    let c = Controller::new(settings(false), Actions::Launch);
    let (c, _) = c.step(Event::Start);
    let (c, r) = c.step(observed("/walls/a.png", false, PathKind::Regular, vec![image("a.png")]));
    assert!(matches!(r, Request::Sleep { seconds: 1800 }));
    assert_eq!(c.stage, Stage::Sleeping);
    let (_, r) = c.step(Event::Woke);
    assert!(matches!(r, Request::Observe));
}

#[test]
fn launch_sleeps_the_whole_time_after_an_image() {
    let c = Controller::new(settings(false), Actions::Launch);
    let (c, _) = c.step(Event::Start);
    let (c, _) = c.step(observed("", true, PathKind::Missing, vec![image("a.png")]));
    let (c, _) = c.step(Event::Applied);
    let (c, r) = c.step(Event::Persisted);
    assert!(matches!(r, Request::Sleep { seconds: 1800 }));
    assert_eq!(c.stage, Stage::Sleeping);
}

#[test]
fn launch_divides_the_time_among_frames() {
    let c = Controller::new(settings(false), Actions::Launch);
    let (c, _) = c.step(Event::Start);
    let (c, r) = c.step(observed(
        "/walls/beach/beach2.png",
        true,
        PathKind::Regular,
        vec![sequence("beach", 4)],
    ));
    match r {
        Request::Apply { path, .. } => assert_eq!(path, "/walls/beach/beach3.png"),
        _ => panic!("the wallpaper should be set"),
    }
    let (c, r) = c.step(Event::Applied);
    match r {
        Request::Persist { state } => assert_eq!(state.wallpaper, "/walls/beach/beach3.png"),
        _ => panic!("the record should be written"),
    }
    let (c, r) = c.step(Event::Persisted);
    match r {
        Request::Count { directory } => assert_eq!(directory, "/walls/beach"),
        _ => panic!("the frames should be counted"),
    }
    assert_eq!(c.stage, Stage::Timing);
    let (c, r) = c.step(Event::Counted { entries: Some(4) });
    assert!(matches!(r, Request::Sleep { seconds: 450 }));
    assert_eq!(c.stage, Stage::Sleeping);
}

#[test]
fn launch_reports_a_sequence_that_vanished() {
    let c = Controller::new(settings(false), Actions::Launch);
    let (c, _) = c.step(Event::Start);
    let (c, _) = c.step(observed(
        "/walls/beach/beach2.png",
        true,
        PathKind::Regular,
        vec![sequence("beach", 4)],
    ));
    let (c, _) = c.step(Event::Applied);
    let (c, _) = c.step(Event::Persisted);
    let (c, r) = c.step(Event::Counted { entries: None });
    match r {
        Request::Report { text } => assert_eq!(
            text,
            "failed to open the animated wallpaper directory, it appears to be missing"
        ),
        _ => panic!("the failure should be reported"),
    }
    let (_, r) = c.step(Event::Reported);
    assert!(matches!(r, Request::Sleep { seconds: 1800 }));
}

#[test]
fn get_prints_and_changes_nothing() {
    let c = Controller::new(settings(false), Actions::Get);
    let (c, r) = c.step(Event::Start);
    assert!(matches!(r, Request::Observe));
    let (c, r) = c.step(observed("", false, PathKind::Missing, vec![image("a.png")]));
    match r {
        Request::Print { text } => assert_eq!(text, "/walls/a.png"),
        _ => panic!("the path should be printed"),
    }
    assert_eq!(c.stage, Stage::Printing);
    let (c, r) = c.step(Event::Printed);
    assert!(matches!(r, Request::Exit { failed: false }));
    assert_eq!(c.stage, Stage::Finished);
}

#[test]
fn get_fails_on_an_empty_pool() {
    let c = Controller::new(settings(false), Actions::Get);
    let (c, _) = c.step(Event::Start);
    let (c, r) = c.step(observed("", true, PathKind::Missing, vec![]));
    assert!(matches!(r, Request::Report { .. }));
    let (_, r) = c.step(Event::Reported);
    assert!(matches!(r, Request::Exit { failed: true }));
}

#[test]
fn stop_and_resume_flip_the_flag() {
    let c = Controller::new(settings(false), Actions::Stop);
    let (c, r) = c.step(Event::Start);
    assert!(matches!(r, Request::ReadState));
    assert_eq!(c.stage, Stage::Reading);
    let (c, r) = c.step(Event::State { state: record("/walls/a.png", true) });
    match r {
        Request::Persist { state } => {
            assert_eq!(state.wallpaper, "/walls/a.png");
            assert!(!state.on);
        }
        _ => panic!("the record should be written"),
    }
    let (_, r) = c.step(Event::Persisted);
    assert!(matches!(r, Request::Exit { failed: false }));

    let c = Controller::new(settings(false), Actions::Resume);
    let (c, _) = c.step(Event::Start);
    let (_, r) = c.step(Event::State { state: record("/walls/a.png", false) });
    match r {
        Request::Persist { state } => {
            assert_eq!(state.wallpaper, "/walls/a.png");
            assert!(state.on);
        }
        _ => panic!("the record should be written"),
    }
}

#[test]
fn set_applies_then_persists() {
    let c = Controller::new(settings(true), Actions::SetExplicit("/else/where.jpg".to_string()));
    let (c, r) = c.step(Event::Start);
    match r {
        Request::Apply { path, lock_screen } => {
            assert_eq!(path, "/else/where.jpg");
            assert!(lock_screen);
        }
        _ => panic!("the wallpaper should be set"),
    }
    let (c, r) = c.step(Event::Applied);
    assert!(matches!(r, Request::ReadState));
    let (c, r) = c.step(Event::State { state: record("/walls/a.png", false) });
    match r {
        Request::Persist { state } => {
            assert_eq!(state.wallpaper, "/else/where.jpg");
            assert!(!state.on);
        }
        _ => panic!("the record should be written"),
    }
    let (_, r) = c.step(Event::Persisted);
    assert!(matches!(r, Request::Exit { failed: false }));
}

#[test]
fn set_that_fails_is_not_persisted() {
    let c = Controller::new(settings(false), Actions::SetExplicit("/else/where.jpg".to_string()));
    let (c, _) = c.step(Event::Start);
    let (c, r) = c.step(Event::Failed { message: "no such program".to_string() });
    assert!(matches!(r, Request::Report { .. }));
    let (_, r) = c.step(Event::Reported);
    assert!(matches!(r, Request::Exit { failed: true }));
}

#[test]
fn an_event_out_of_turn_is_reported() {
    let c = Controller::new(settings(false), Actions::Toggle);
    let (c, r) = c.step(Event::Applied);
    match r {
        Request::Report { text } => assert_eq!(text, "the event does not answer the request"),
        _ => panic!("the event should be reported"),
    }
    let (_, r) = c.step(Event::Reported);
    assert!(matches!(r, Request::Exit { failed: true }));
    let c = Controller::new(settings(false), Actions::Toggle);
    let (c, _) = c.step(Event::Start);
    let (_, r) = c.step(Event::State { state: record("", true) });
    assert!(matches!(r, Request::Report { .. }));
}

#[test]
fn each_command_comes_to_its_own_stages() {
    assert!(serves(Stage::Sleeping, &Actions::Launch));
    assert!(serves(Stage::Timing, &Actions::Launch));
    assert!(!serves(Stage::Sleeping, &Actions::Toggle));
    assert!(!serves(Stage::Printing, &Actions::Launch));
    assert!(serves(Stage::Printing, &Actions::Get));
    assert!(!serves(Stage::Persisting, &Actions::Get));
    assert!(!serves(Stage::Applying, &Actions::Get));
    assert!(!serves(Stage::Observing, &Actions::Stop));
    assert!(serves(Stage::Reading, &Actions::Resume));
    assert!(!serves(Stage::Observing, &Actions::SetExplicit("/a".to_string())));
    assert!(serves(Stage::Idle, &Actions::Stop));
    assert!(serves(Stage::Finished, &Actions::Launch));
}

#[test]
fn a_stage_of_another_command_is_reported() {
    let mut c = Controller::new(settings(false), Actions::Get);
    c.stage = Stage::Applying;
    let (c, r) = c.step(Event::Applied);
    match r {
        Request::Report { text } => assert_eq!(text, "the event does not answer the request"),
        _ => panic!("the stage should be reported"),
    }
    assert_eq!(c.stage, Stage::Reporting);
    let mut c = Controller::new(settings(false), Actions::Launch);
    c.stage = Stage::Printing;
    let (c, r) = c.step(Event::Printed);
    assert!(matches!(r, Request::Report { .. }));
    let (c, r) = c.step(Event::Reported);
    assert!(matches!(r, Request::Sleep { seconds: 1800 }));
    assert_eq!(c.stage, Stage::Sleeping);
}
