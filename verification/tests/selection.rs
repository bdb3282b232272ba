use wallshift::configuration::Settings;
use wallshift::error::{SelectionError, WallshiftError};
use wallshift::path::{classify, File, ImagePath, PathKind};
use wallshift::wallpaper::{
    candidates, enter, get_next_animated_wallpaper, get_next_wallpaper, get_random_wallpaper,
    update_animated, wallpaper_at, DirectoryEntry, EntryKind,
};

fn settings() -> Settings {
    Settings { wallpaper_dir: "/walls".to_string(), betterlockscreen: false, sleep_time: 1800 }
}

fn image(name: &str) -> DirectoryEntry {
    DirectoryEntry::new(name.to_string(), EntryKind::Image).unwrap()
}

fn sequence(name: &str, entries: usize) -> DirectoryEntry {
    DirectoryEntry::new(name.to_string(), EntryKind::Sequence { entries: Some(entries) }).unwrap()
}

#[test]
fn empty_directory_is_an_empty_pool() {
    let listing: Vec<DirectoryEntry> = Vec::new();
    let r = get_next_wallpaper(&settings(), "", PathKind::Missing, &listing);
    assert!(matches!(
        r,
        Err(WallshiftError::Selection { source: SelectionError::EmptyPool })
    ));
}

#[test]
fn only_hidden_entries_are_an_empty_pool() {
    let listing = vec![image(".hidden.png"), sequence(".git", 3)];
    let r = get_next_wallpaper(&settings(), "", PathKind::Missing, &listing);
    assert!(matches!(
        r,
        Err(WallshiftError::Selection { source: SelectionError::EmptyPool })
    ));
    let r = get_random_wallpaper(&settings(), None, &listing);
    assert!(matches!(
        r,
        Err(WallshiftError::Selection { source: SelectionError::EmptyPool })
    ));
}

#[test]
fn single_image_is_selected_again() {
    let listing = vec![image("a.png")];
    let first = get_next_wallpaper(&settings(), "", PathKind::Missing, &listing).unwrap();
    assert_eq!(first.path(), "/walls/a.png");
    let second =
        get_next_wallpaper(&settings(), "/walls/a.png", PathKind::Regular, &listing).unwrap();
    assert_eq!(second.path(), "/walls/a.png");
}

#[test]
fn sequence_advances_and_then_draws_afresh() {
    let listing = vec![sequence("beach", 3)];
    let next = get_next_wallpaper(
        &settings(),
        "/walls/beach/beach2.png",
        PathKind::Regular,
        &listing,
    )
    .unwrap();
    assert_eq!(next.path(), "/walls/beach/beach3.png");
    let after = get_next_wallpaper(
        &settings(),
        "/walls/beach/beach3.png",
        PathKind::Regular,
        &listing,
    )
    .unwrap();
    assert_ne!(after.path(), "/walls/beach/beach4.png");
    assert_eq!(after.path(), "/walls/beach/beach1.png");
}

#[test]
fn current_image_is_not_repeated() {
    let listing = vec![image("a.png"), image("b.png")];
    for _ in 0..50 {
        let next =
            get_next_wallpaper(&settings(), "/walls/a.png", PathKind::Regular, &listing).unwrap();
        assert_eq!(next.path(), "/walls/b.png");
    }
}

#[test]
fn draw_stays_inside_the_pool() {
    let listing = vec![image("a.png"), image(".b.png"), image("c.png"), sequence("d", 2)];
    let mut seen = [false; 4];
    for _ in 0..400 {
        let next = get_next_wallpaper(&settings(), "", PathKind::Missing, &listing).unwrap();
        match next.path() {
            "/walls/a.png" => seen[0] = true,
            "/walls/c.png" => seen[2] = true,
            "/walls/d/d1.png" => seen[3] = true,
            other => panic!("{}", other),
        }
    }
    assert_eq!(seen, [true, false, true, true]);
}

#[test]
fn candidates_leave_out_hidden_and_current() {
    let listing = vec![image("a.png"), image(".b.png"), image("c.png"), sequence("d", 2)];
    assert_eq!(candidates(&settings(), &listing, None), vec![0, 2, 3]);
    assert_eq!(candidates(&settings(), &listing, Some("/walls/c.png")), vec![0, 3]);
    assert_eq!(candidates(&settings(), &listing, Some("/elsewhere/c.png")), vec![0, 2, 3]);
    let single = vec![image("a.png"), image(".b.png")];
    assert_eq!(candidates(&settings(), &single, Some("/walls/a.png")), vec![0]);
    assert_eq!(candidates(&settings(), &vec![image(".b.png")], None), Vec::<usize>::new());
}

#[test]
fn entry_names_hold_no_separator() {
    assert!(DirectoryEntry::new("a/b.png".to_string(), EntryKind::Image).is_none());
    let entry = DirectoryEntry::new("a.png".to_string(), EntryKind::Image).unwrap();
    assert_eq!(entry.name(), "a.png");
    assert!(matches!(entry.kind(), EntryKind::Image));
}

#[test]
fn wallpaper_at_builds_the_path() {
    let listing = vec![image("a.png"), sequence("d", 2)];
    match wallpaper_at(&settings(), &listing, 0) {
        File::Image(image) => assert_eq!(image.path(), "/walls/a.png"),
        File::Folder(_) => panic!("a file was expected"),
    }
    match wallpaper_at(&settings(), &listing, 1) {
        File::Folder(folder) => {
            assert_eq!(folder.path(), "/walls/d");
            assert_eq!(folder.name(), "d");
        }
        File::Image(_) => panic!("a directory was expected"),
    }
}

#[test]
fn entering_a_sequence_gives_its_first_frame() {
    let listing = vec![image("a.png"), sequence("d", 2), sequence("empty", 0)];
    assert_eq!(enter(&settings(), &listing, 0).unwrap().unwrap().path(), "/walls/a.png");
    assert_eq!(enter(&settings(), &listing, 1).unwrap().unwrap().path(), "/walls/d/d1.png");
    assert!(enter(&settings(), &listing, 2).unwrap().is_none());
}

#[test]
fn unreadable_sequence_is_a_file_error() {
    let unreadable =
        DirectoryEntry::new("d".to_string(), EntryKind::Sequence { entries: None }).unwrap();
    let listing = vec![unreadable];
    let r = enter(&settings(), &listing, 0);
    match r {
        Err(WallshiftError::File { source }) => assert_eq!(
            source.to_string(),
            "failed to open the animated wallpaper directory, it appears to be missing"
        ),
        _ => panic!("a file error was expected"),
    }
    let r = get_next_wallpaper(&settings(), "/walls/gone/gone1.png", PathKind::Regular, &listing);
    assert!(matches!(r, Err(WallshiftError::File { .. })));
}

#[test]
fn frame_without_number_is_a_parsing_error() {
    let listing = vec![sequence("beach", 3)];
    let r = get_next_wallpaper(&settings(), "/walls/beach/cover.png", PathKind::Regular, &listing);
    match r {
        Err(WallshiftError::Parsing { source }) => {
            assert_eq!(source.to_string(), "failed to parse animated number")
        }
        _ => panic!("a parsing error was expected"),
    }
}

#[test]
fn only_empty_sequences_exhaust_the_draws() {
    let listing = vec![sequence("empty", 0)];
    let r = get_next_wallpaper(&settings(), "", PathKind::Missing, &listing);
    match r {
        Err(WallshiftError::Selection { source }) => {
            assert_eq!(source, SelectionError::RetriesExhausted);
            assert_eq!(source.to_string(), "every sequence that was drawn has no frame to show");
        }
        _ => panic!("a selection error was expected"),
    }
}

#[test]
fn one_frame_sequence_exhausts_every_tick() {
    let listing = vec![sequence("solo", 1), image("a.png")];
    let mut file = File::new("/walls/solo/solo1.png".to_string(), PathKind::Regular).unwrap();
    assert!(file.is_animated(&settings()));
    assert!(get_next_animated_wallpaper(&settings(), &file, &listing).unwrap().is_none());
    let next = update_animated(&settings(), &file, &listing).unwrap();
    assert!(next.path() == "/walls/a.png" || next.path() == "/walls/solo/solo1.png");
}

#[test]
fn directory_as_current_is_entered() {
    let listing = vec![sequence("beach", 3), image("a.png")];
    let next =
        get_next_wallpaper(&settings(), "/walls/beach", PathKind::Directory, &listing).unwrap();
    assert_eq!(next.path(), "/walls/beach/beach1.png");
}

#[test]
fn current_outside_the_directory_is_passed_over() {
    let listing = vec![image("a.png")];
    let next =
        get_next_wallpaper(&settings(), "/elsewhere/x/y/z.png", PathKind::Regular, &listing)
            .unwrap();
    assert_eq!(next.path(), "/walls/a.png");
}

#[test]
fn frame9_then_frame10() {
    let s = settings();
    let nine = classify("/walls/frame/frame9.png", PathKind::Regular, &s).unwrap();
    let ten = classify("/walls/frame/frame10.png", PathKind::Regular, &s).unwrap();
    match (nine, ten) {
        (File::Image(nine), File::Image(ten)) => {
            assert_eq!(nine.get_animated_number(), Some(9));
            assert_eq!(ten.get_animated_number(), Some(10));
            assert_eq!(nine.get_animated_wallpaper_name(), "frame");
        }
        _ => panic!("two files were expected"),
    }
}

#[test]
fn classification_by_depth() {
    let s = settings();
    match classify("/walls/a.png", PathKind::Regular, &s).unwrap() {
        File::Image(image) => {
            assert_eq!(image.path(), "/walls/a.png");
            assert_eq!(image.get_animated_number(), None);
        }
        File::Folder(_) => panic!("a file was expected"),
    }
    match classify("/walls/beach", PathKind::Directory, &s).unwrap() {
        File::Folder(folder) => assert_eq!(folder.name(), "beach"),
        File::Image(_) => panic!("a directory was expected"),
    }
    match classify("/walls/a.png", PathKind::Missing, &s) {
        Err(WallshiftError::File { source }) => {
            assert_eq!(source.to_string(), "the path does not exist")
        }
        _ => panic!("a file error was expected"),
    }
    match classify("/other/a.png", PathKind::Regular, &s) {
        Err(WallshiftError::File { source }) => {
            assert_eq!(source.to_string(), "the path is no entry of the wallpaper directory")
        }
        _ => panic!("a file error was expected"),
    }
    assert!(matches!(
        classify("/walls/beach/inner", PathKind::Directory, &s),
        Err(WallshiftError::File { .. })
    ));
    assert!(matches!(
        classify("/walls/beach/cover.png", PathKind::Regular, &s),
        Err(WallshiftError::Parsing { .. })
    ));
    assert!(matches!(
        classify("/walls/beach/beach4294967296.png", PathKind::Regular, &s),
        Err(WallshiftError::Parsing { .. })
    ));
    match classify("/walls/beach/beach4294967295.png", PathKind::Regular, &s).unwrap() {
        File::Image(image) => assert_eq!(image.get_animated_number(), Some(4294967295)),
        File::Folder(_) => panic!("a file was expected"),
    }
}

#[test]
fn dwell_is_divided_among_the_frames() {
    let s = settings();
    let mut frame = ImagePath::new("/walls/beach/beach1.png".to_string(), PathKind::Regular).unwrap();
    assert_eq!(frame.get_sleep_time(&s, Some(4)).unwrap(), 450);
    assert_eq!(frame.get_sleep_time(&s, Some(2000)).unwrap(), 0);
    assert_eq!(frame.get_sleep_time(&s, Some(1)).unwrap(), 1800);
    assert_eq!(
        frame.get_sleep_time(&s, None).unwrap_err().to_string(),
        "failed to open the animated wallpaper directory, it appears to be missing"
    );
    assert_eq!(
        frame.get_sleep_time(&s, Some(0)).unwrap_err().to_string(),
        "the animated wallpaper directory is empty"
    );
    let mut still = ImagePath::new("/walls/a.png".to_string(), PathKind::Regular).unwrap();
    assert_eq!(still.get_sleep_time(&s, Some(4)).unwrap(), 1800);
    assert_eq!(still.get_sleep_time(&s, None).unwrap(), 1800);
}

#[test]
fn is_animated_keeps_its_first_answer() {
    let s = settings();
    let other =
        Settings { wallpaper_dir: "/other".to_string(), betterlockscreen: false, sleep_time: 60 };
    let mut frame = ImagePath::new("/walls/beach/beach1.png".to_string(), PathKind::Regular).unwrap();
    assert!(frame.is_animated(&s));
    assert!(frame.is_animated(&other));
    let mut still = ImagePath::new("/walls/beach/beach1.png".to_string(), PathKind::Regular).unwrap();
    assert!(!still.is_animated(&other));
    assert!(!still.is_animated(&s));
    assert!(ImagePath::new("/walls/beach".to_string(), PathKind::Directory).is_none());
    assert!(ImagePath::new("/walls/a.png".to_string(), PathKind::Missing).is_none());
    assert!(File::new("/walls/a.png".to_string(), PathKind::Missing).is_none());
}

#[test]
fn image_from_a_path_is_taken_on_trust() {
    let mut image = ImagePath::from("/walls/beach/beach7.png".to_string());
    assert_eq!(image.path(), "/walls/beach/beach7.png");
    assert_eq!(image.to_string(), "/walls/beach/beach7.png");
    assert_eq!(image.get_animated_number(), None);
    assert!(image.is_animated(&settings()));
    assert_eq!(image.get_animated_number(), Some(7));
    assert_eq!(image.get_animated_wallpaper_name(), "beach");
    let mut other = ImagePath::unprobed("/walls/a.png".to_string());
    assert!(!other.is_animated(&settings()));
    assert_eq!(other.get_animated_number(), None);
}

#[test]
fn folder_is_named_by_its_last_component() {
    let mut folder = File::new("/walls/beach".to_string(), PathKind::Directory).unwrap();
    assert_eq!(folder.to_string(), "/walls/beach");
    assert_eq!(folder.get_animated_wallpaper_name(), "beach");
    assert!(folder.is_animated(&settings()));
    let mut inner = File::new("/walls/beach/inner".to_string(), PathKind::Directory).unwrap();
    assert!(!inner.is_animated(&settings()));
    let mut frame = File::new("/walls/beach/beach2.png".to_string(), PathKind::Regular).unwrap();
    assert!(frame.is_animated(&settings()));
    assert_eq!(frame.get_animated_wallpaper_name(), "beach");
    let next = get_next_animated_wallpaper(&settings(), &frame, &vec![sequence("beach", 2)]);
    assert!(next.unwrap().is_none());
    let next = get_next_animated_wallpaper(&settings(), &folder, &vec![sequence("beach", 2)]);
    assert_eq!(next.unwrap().unwrap().path(), "/walls/beach/beach1.png");
}

#[test]
fn sequence_name_that_ends_in_a_digit_skips_frames() {
    let listing = vec![sequence("beach2", 30)];
    let first =
        get_next_wallpaper(&settings(), "/walls/beach2", PathKind::Directory, &listing).unwrap();
    assert_eq!(first.path(), "/walls/beach2/beach21.png");
    let second = get_next_wallpaper(&settings(), first.path(), PathKind::Regular, &listing).unwrap();
    assert_eq!(second.path(), "/walls/beach2/beach222.png");
}

#[test]
fn empty_sequence_beside_the_current_image_lets_it_repeat() {
    let listing = vec![image("a.png"), sequence("empty", 0)];
    for _ in 0..20 {
        let next =
            get_next_wallpaper(&settings(), "/walls/a.png", PathKind::Regular, &listing).unwrap();
        assert_eq!(next.path(), "/walls/a.png");
    }
}
