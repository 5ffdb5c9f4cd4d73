use sandbox_host::discovery::{extension_is, find_latest_lib, prefix_is, DirEntry, DiscoveryError};

fn file(name: &str, modified: u64) -> DirEntry {
    DirEntry { name: Some(name.to_string()), is_file: true, modified: Some(modified) }
}

fn scan(entries: &Vec<DirEntry>, name: &str) -> Result<Option<usize>, DiscoveryError> {
    find_latest_lib(entries, "lib", "so", name, None)
}

#[test]
fn newest_matching_artifact_wins_over_younger_stranger() {
    let entries = vec![file("librender.so", 1), file("librender.so", 3), file("libother.so", 5)];
    assert_eq!(scan(&entries, "render"), Ok(Some(1)));
}

#[test]
fn newest_is_found_wherever_it_stands() {
    let entries = vec![file("librender-a.so", 7), file("librender-b.so", 9), file("librender-c.so", 8)];
    assert_eq!(scan(&entries, "render"), Ok(Some(1)));
    let entries = vec![file("librender-a.so", 9), file("librender-b.so", 7)];
    assert_eq!(scan(&entries, "render"), Ok(Some(0)));
}

#[test]
fn no_matching_file_gives_none() {
    let entries = vec![file("libother.so", 5), file("render.so", 6), file("notes.txt", 7)];
    assert_eq!(scan(&entries, "render"), Ok(None));
}

#[test]
fn empty_directory_gives_none() {
    let entries: Vec<DirEntry> = Vec::new();
    assert_eq!(scan(&entries, "render"), Ok(None));
}

#[test]
fn equal_times_are_won_by_the_last_listed() {
    let entries = vec![file("librender-1.so", 4), file("librender-2.so", 4), file("librender-0.so", 2)];
    assert_eq!(scan(&entries, "render"), Ok(Some(1)));
}

#[test]
fn time_zero_is_a_time() {
    let entries = vec![file("librender.so", 0)];
    assert_eq!(scan(&entries, "render"), Ok(Some(0)));
}

#[test]
fn directories_and_unreadable_names_are_skipped() {
    let entries = vec![
        DirEntry { name: Some("librender.so".to_string()), is_file: false, modified: Some(9) },
        DirEntry { name: None, is_file: true, modified: Some(8) },
        file("librender.so", 1),
    ];
    assert_eq!(scan(&entries, "render"), Ok(Some(2)));
}

#[test]
fn extension_is_what_follows_the_last_dot() {
    let entries = vec![
        file("librender.so.bak", 9),
        file("librender", 8),
        file("librender.so.so", 2),
        file("librenderso", 7),
        file("librender.SO", 6),
    ];
    assert_eq!(scan(&entries, "render"), Ok(Some(2)));
}

#[test]
fn extension_override_replaces_the_platform_extension() {
    let entries = vec![file("librender.so", 9), file("librender.dylib", 1)];
    assert_eq!(find_latest_lib(&entries, "lib", "so", "render", Some("dylib")), Ok(Some(1)));
    assert_eq!(find_latest_lib(&entries, "lib", "so", "render", Some("dll")), Ok(None));
}

#[test]
fn empty_platform_prefix_matches_bare_names() {
    let entries = vec![file("render.dll", 3), file("librender.dll", 5)];
    assert_eq!(find_latest_lib(&entries, "", "dll", "render", None), Ok(Some(0)));
}

#[test]
fn unreadable_candidate_fails_the_scan() {
    let entries = vec![
        file("librender-a.so", 3),
        DirEntry { name: Some("librender-b.so".to_string()), is_file: true, modified: None },
        file("librender-c.so", 9),
    ];
    assert_eq!(scan(&entries, "render"), Err(DiscoveryError::Metadata { index: 1 }));
}

#[test]
fn first_unreadable_candidate_is_reported() {
    let entries = vec![
        DirEntry { name: Some("librender-a.so".to_string()), is_file: true, modified: None },
        DirEntry { name: Some("librender-b.so".to_string()), is_file: true, modified: None },
    ];
    assert_eq!(scan(&entries, "render"), Err(DiscoveryError::Metadata { index: 0 }));
}

#[test]
fn unreadable_stranger_does_not_matter() {
    let entries = vec![
        DirEntry { name: Some("libother.so".to_string()), is_file: true, modified: None },
        file("librender.so", 2),
    ];
    assert_eq!(scan(&entries, "render"), Ok(Some(1)));
}

#[test]
fn extension_edge_cases() {
    assert!(extension_is(b"librender.so", b"so"));
    assert!(!extension_is(b"librender.so", b"s"));
    assert!(!extension_is(b"librender.so", b"o"));
    assert!(!extension_is(b"librender.so", b".so"));
    assert!(!extension_is(b".so", b"so"));
    assert!(!extension_is(b"so", b"so"));
    assert!(!extension_is(b"", b""));
    assert!(!extension_is(b".", b""));
    assert!(!extension_is(b"..", b""));
    assert!(extension_is(b"a.", b""));
    assert!(extension_is(b"...", b""));
    assert!(!extension_is(b"a.b.c", b"b.c"));
    assert!(extension_is(b"a.b.c", b"c"));
}

#[test]
fn prefix_edge_cases() {
    assert!(prefix_is(b"librender.so", b"lib", b"render"));
    assert!(prefix_is(b"librender", b"lib", b"render"));
    assert!(!prefix_is(b"librende", b"lib", b"render"));
    assert!(!prefix_is(b"Librender.so", b"lib", b"render"));
    assert!(!prefix_is(b"libRender.so", b"lib", b"render"));
    assert!(!prefix_is(b"xlibrender.so", b"lib", b"render"));
    assert!(prefix_is(b"render.dll", b"", b"render"));
    assert!(prefix_is(b"anything", b"", b""));
    assert!(!prefix_is(b"", b"lib", b"render"));
}

#[test]
fn names_beyond_ascii_are_compared_by_their_bytes() {
    let entries = vec![file("libr\u{e9}nder.so", 1), file("librender\u{e9}.so", 2)];
    assert_eq!(scan(&entries, "render"), Ok(Some(1)));
    assert_eq!(scan(&entries, "r\u{e9}nder"), Ok(Some(0)));
}
