use wallshift::cli::{Actions, Cli};
use wallshift::configuration::{configuration_path, configuration_path_in, Settings};
use wallshift::data::{
    get_current_wallpaper, get_wallpaper_info_path, is_on, modify_config, save_wallpaper, set_off,
    set_on, state_directory_in, wallpaper_info_path_in, FileInfo,
};
use wallshift::error::{
    ExecError, FileError, ParsingError, SelectionError, TimerError, WallshiftError,
};
use wallshift::path::{File, PathKind};

fn cli() -> Cli {
    Cli {
        toggle: false,
        seconds: None,
        minutes: None,
        get: false,
        set: None,
        resume: false,
        stop: false,
        betterlockscreen: None,
    }
}

fn base() -> Settings {
    Settings { wallpaper_dir: "/walls".to_string(), betterlockscreen: false, sleep_time: 1800 }
}

#[test]
fn default_record_is_on_and_empty() {
    let info = FileInfo::default();
    assert_eq!(info.wallpaper, "");
    assert!(info.on);
    assert!(is_on(&info));
}

#[test]
fn mutators_change_one_field() {
    let info = FileInfo { wallpaper: "/walls/a.png".to_string(), on: true };
    let off = set_off(info);
    assert_eq!(off.wallpaper, "/walls/a.png");
    assert!(!is_on(&off));
    let saved = save_wallpaper(off, "/walls/b.png");
    assert_eq!(saved.wallpaper, "/walls/b.png");
    assert!(!saved.on);
    let on = set_on(saved);
    assert_eq!(on.wallpaper, "/walls/b.png");
    assert!(on.on);
    let again = set_on(on);
    assert!(again.on);
}

#[test]
fn current_wallpaper_needs_something_at_its_path() {
    let info = FileInfo { wallpaper: "/walls/a.png".to_string(), on: true };
    assert_eq!(
        get_current_wallpaper(&info, PathKind::Missing).unwrap_err().to_string(),
        "failed to get current wallpaper: failed to create file"
    );
    match get_current_wallpaper(&info, PathKind::Regular).unwrap() {
        File::Image(image) => assert_eq!(image.to_string(), "/walls/a.png"),
        File::Folder(_) => panic!("a file was expected"),
    }
    match get_current_wallpaper(&info, PathKind::Directory).unwrap() {
        File::Folder(folder) => assert_eq!(folder.to_string(), "/walls/a.png"),
        File::Image(_) => panic!("a directory was expected"),
    }
}

#[test]
fn record_lies_below_the_data_directory() {
    assert_eq!(state_directory_in("/home/u/.local/share"), "/home/u/.local/share/wallshift");
    assert_eq!(
        wallpaper_info_path_in("/home/u/.local/share"),
        "/home/u/.local/share/wallshift/.current_wallpaper.yaml"
    );
    match get_wallpaper_info_path() {
        Ok(path) => assert!(path.ends_with("/wallshift/.current_wallpaper.yaml")),
        Err(e) => assert!(
            e.message == "failed to get local data directory"
                || e.message == "failed to convert wallpaper info path to str"
        ),
    }
}

#[test]
fn configuration_lies_below_the_configuration_directory() {
    assert_eq!(configuration_path_in("/home/u/.config"), "/home/u/.config/wallshift/config.yml");
    if let Some(path) = configuration_path() {
        assert!(path.ends_with("/wallshift/config.yml"));
    }
}

#[test]
fn default_settings_point_below_home() {
    let s = Settings::default_in("/home/u");
    assert_eq!(s.wallpaper_dir, "/home/u/Pictures/Wallpapers");
    assert!(!s.betterlockscreen);
    assert_eq!(s.sleep_time, 1800);
    if let Some(s) = Settings::default_for_user() {
        assert!(s.wallpaper_dir.ends_with("/Pictures/Wallpapers"));
        assert_eq!(s.sleep_time, 1800);
        assert!(!s.betterlockscreen);
    }
}

#[test]
fn seconds_win_over_minutes() {
    let mut c = cli();
    assert_eq!(c.get_seconds(), None);
    c.minutes = Some(30);
    assert_eq!(c.get_seconds(), Some(1800));
    c.seconds = Some(5);
    assert_eq!(c.get_seconds(), Some(5));
    c.seconds = None;
    c.minutes = Some(u64::MAX / 60);
    assert_eq!(c.get_seconds(), Some(u64::MAX / 60 * 60));
    c.minutes = Some(u64::MAX / 60 + 1);
    assert_eq!(c.get_seconds(), Some(u64::MAX));
}

#[test]
fn options_override_the_settings() {
    let mut c = cli();
    let s = c.get_settings(base());
    assert_eq!(s.wallpaper_dir, "/walls");
    assert_eq!(s.sleep_time, 1800);
    assert!(!s.betterlockscreen);
    c.minutes = Some(2);
    c.betterlockscreen = Some(true);
    let s = c.get_settings(base());
    assert_eq!(s.wallpaper_dir, "/walls");
    assert_eq!(s.sleep_time, 120);
    assert!(s.betterlockscreen);
}

#[test]
fn first_option_selects_the_action() {
    let mut c = cli();
    assert!(matches!(c.get_action(), Actions::Launch));
    c.set = Some("/walls/a.png".to_string());
    match c.get_action() {
        Actions::SetExplicit(path) => assert_eq!(path, "/walls/a.png"),
        _ => panic!("set was expected"),
    }
    c.stop = true;
    assert!(matches!(c.get_action(), Actions::Stop));
    c.resume = true;
    assert!(matches!(c.get_action(), Actions::Resume));
    c.get = true;
    assert!(matches!(c.get_action(), Actions::Get));
    c.toggle = true;
    assert!(matches!(c.get_action(), Actions::Toggle));
}

#[test]
fn errors_say_what_they_are() {
    assert_eq!(ParsingError::new("bad").to_string(), "bad");
    assert_eq!(FileError::new("gone").to_string(), "gone");
    assert_eq!(ExecError::new("failed").to_string(), "failed");
    assert_eq!(TimerError::new("late").to_string(), "late");
    assert_eq!(
        SelectionError::EmptyPool.to_string(),
        "no wallpapers in the wallpaper directory"
    );
    let e = WallshiftError::Parsing { source: ParsingError::new("bad") };
    assert_eq!(e.to_string(), "Parsing error");
    assert_eq!(e.detail(), "bad");
    let e = WallshiftError::File { source: FileError::new("gone") };
    assert_eq!(e.to_string(), "File error");
    assert_eq!(e.detail(), "gone");
    let e = WallshiftError::Exec { source: ExecError::new("failed") };
    assert_eq!(e.to_string(), "Exec error");
    assert_eq!(e.detail(), "failed");
    let e = WallshiftError::Timer { source: TimerError::new("late") };
    assert_eq!(e.to_string(), "Timer error");
    assert_eq!(e.detail(), "late");
    let e = WallshiftError::Selection { source: SelectionError::RetriesExhausted };
    assert_eq!(e.to_string(), "Selection error");
    assert_eq!(e.detail(), "every sequence that was drawn has no frame to show");
}

#[test]
fn modify_config_applies_the_change() {
    let info = FileInfo { wallpaper: "/walls/a.png".to_string(), on: true };
    let changed = modify_config(info, set_off);
    assert_eq!(changed.wallpaper, "/walls/a.png");
    assert!(!changed.on);
    let changed = modify_config(changed, |info| save_wallpaper(info, "/walls/b.png"));
    assert_eq!(changed.wallpaper, "/walls/b.png");
    assert!(!changed.on);
}
