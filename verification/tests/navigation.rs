use beatcli::playlist::{is_audio, Playlist, PlaybackMode};

fn playlist_of(names: &[&str]) -> Playlist {
    let mut pl = Playlist::new();
    let paths: Vec<String> = names.iter().map(|s| s.to_string()).collect();
    pl.apply_scan(paths);
    pl
}

#[test]
fn scan_keeps_audio_files_in_order() {
    let mut pl = Playlist::new();
    let count = pl.apply_scan(vec![
        "music/a.mp3".to_string(),
        "music/readme.txt".to_string(),
        "music/b.FLAC".to_string(),
        "music/cover.jpg".to_string(),
        "music/c.ogg".to_string(),
    ]);
    assert_eq!(count, 3);
    assert_eq!(pl.items, vec!["music/a.mp3", "music/b.FLAC", "music/c.ogg"]);
    assert!(pl.current.is_none());
    assert!(pl.mode == PlaybackMode::Sequential);
}

#[test]
fn is_audio_checks_extension_case_insensitively() {
    assert!(is_audio("song.mp3"));
    assert!(is_audio("song.MP3"));
    assert!(is_audio("dir/other.FlAc"));
    assert!(is_audio("a.wav"));
    assert!(is_audio("a.m4a"));
    assert!(is_audio("a.aac"));
    assert!(is_audio("a.ogg"));
    assert!(!is_audio("song.txt"));
    assert!(!is_audio("song"));
    assert!(!is_audio(".mp3"));
    assert!(!is_audio("dir/.mp3"));
    assert!(!is_audio("song."));
}

#[test]
fn sequential_next_and_prev_stay_in_range() {
    let mut pl = playlist_of(&["a.mp3", "b.mp3", "c.mp3"]);
    pl.current = Some(1);
    assert_eq!(pl.next_index(), Some(2));
    assert_eq!(pl.prev_index(), Some(0));
    pl.current = Some(2);
    assert_eq!(pl.next_index(), Some(0));
    pl.current = Some(0);
    assert_eq!(pl.prev_index(), Some(2));
}

#[test]
fn empty_list_navigates_nowhere() {
    let mut pl = Playlist::new();
    assert_eq!(pl.next_index(), None);
    assert_eq!(pl.prev_index(), None);
    assert_eq!(pl.advance_on_finished(), None);
    assert_eq!(pl.peek_next_name(), "");
}

#[test]
fn sequential_advance_cycles_back_to_start() {
    let mut pl = playlist_of(&["a.mp3", "b.mp3", "c.mp3", "d.mp3"]);
    pl.current = Some(1);
    for _ in 0..4 {
        pl.advance_on_finished();
    }
    assert_eq!(pl.current, Some(1));
}

#[test]
fn repeat_one_keeps_the_current_index() {
    let mut pl = playlist_of(&["a.mp3", "b.mp3", "c.mp3"]);
    pl.mode = PlaybackMode::RepeatOne;
    pl.current = Some(2);
    assert_eq!(pl.next_index(), Some(2));
    assert_eq!(pl.advance_on_finished(), Some(2));
    assert_eq!(pl.current, Some(2));
    // previous still wraps sequentially
    assert_eq!(pl.prev_index(), Some(1));
}

#[test]
fn shuffle_never_picks_the_current_index() {
    let mut pl = playlist_of(&["a.mp3", "b.mp3", "c.mp3", "d.mp3"]);
    pl.mode = PlaybackMode::Shuffle;
    pl.current = Some(2);
    for _ in 0..200 {
        let n = pl.next_index().unwrap();
        assert!(n < 4);
        assert_ne!(n, 2);
        let p = pl.prev_index().unwrap();
        assert!(p < 4);
        assert_ne!(p, 2);
    }
}

#[test]
fn shuffle_on_two_items_picks_the_other() {
    let mut pl = playlist_of(&["a.mp3", "b.mp3"]);
    pl.mode = PlaybackMode::Shuffle;
    pl.current = Some(0);
    assert_eq!(pl.next_index(), Some(1));
}

#[test]
fn shuffle_single_item_falls_back_to_it() {
    let mut pl = playlist_of(&["a.mp3"]);
    pl.mode = PlaybackMode::Shuffle;
    pl.current = Some(0);
    assert_eq!(pl.next_index(), Some(0));
    assert_eq!(pl.advance_on_finished(), Some(0));
}

#[test]
fn peek_next_name_previews_sequential_pick() {
    let mut pl = playlist_of(&["dir/a.mp3", "dir/b.mp3"]);
    pl.current = Some(0);
    assert_eq!(pl.peek_next_name(), "b.mp3");
    let v = pl.clone_view();
    assert_eq!(v.len, 2);
    assert_eq!(v.current, Some(0));
    assert_eq!(v.now_name, "a.mp3");
    assert_eq!(v.next_name, "b.mp3");
}

#[test]
fn list_marks_the_current_row() {
    let mut pl = playlist_of(&["a.mp3", "b.mp3"]);
    pl.current = Some(1);
    let rows = pl.list();
    assert_eq!(rows.len(), 2);
    assert_eq!(rows[0], (0, "a.mp3".to_string(), false));
    assert_eq!(rows[1], (1, "b.mp3".to_string(), true));
}

#[test]
fn search_matches_file_names_case_insensitively() {
    let pl = playlist_of(&["dir/Song-ABC.mp3", "dir/other.mp3"]);
    let hits = pl.search("abc");
    assert_eq!(hits.len(), 1);
    assert_eq!(hits[0].0, 0);
    assert_eq!(hits[0].1, "dir/Song-ABC.mp3");
    let hits2 = pl.search("SONG");
    assert_eq!(hits2.len(), 1);
    let none = pl.search("zzz");
    assert!(none.is_empty());
    // the query matches the file name, not the directory part
    let dir_hit = pl.search("dir");
    assert!(dir_hit.is_empty());
}
