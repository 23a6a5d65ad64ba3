use beatcli::command::Command;
use beatcli::lyrics::Lyrics;
use beatcli::playlist::{PlaybackMode, Playlist};
use beatcli::session::{
    apply_command, on_scan, on_scan_path_error, on_tick, on_track_missing, on_track_started,
    CommandOutcome, Effect, NavKind,
};
use beatcli::ui::{FlashLevel, UiState};

fn flash_of(e: &[Effect]) -> (String, FlashLevel) {
    for eff in e {
        if let Effect::Flash(m, l) = eff {
            return (m.clone(), *l);
        }
    }
    panic!("no flash effect");
}

fn setup(names: &[&str]) -> (Playlist, UiState) {
    let mut pl = Playlist::new();
    pl.apply_scan(names.iter().map(|s| s.to_string()).collect());
    (pl, UiState::new())
}

#[test]
fn play_on_empty_playlist_is_rejected() {
    let (mut pl, mut ui) = setup(&[]);
    match apply_command(&mut pl, &mut ui, Command::PlayIndex(1)) {
        CommandOutcome::Done(e) => {
            let (m, l) = flash_of(&e);
            assert_eq!(m, "播放列表为空，请先使用 /folder 添加歌曲");
            assert!(matches!(l, FlashLevel::Error));
        }
        _ => panic!("expected a rejection"),
    }
}

#[test]
fn play_out_of_range_is_rejected() {
    let (mut pl, mut ui) = setup(&["a.mp3", "b.mp3"]);
    match apply_command(&mut pl, &mut ui, Command::PlayIndex(3)) {
        CommandOutcome::Done(e) => {
            let (m, _) = flash_of(&e);
            assert_eq!(
                m,
                "歌曲序号超出范围，当前播放列表有 2 首歌曲，请输入 1-2 之间的数字"
            );
        }
        _ => panic!("expected a rejection"),
    }
}

#[test]
fn play_two_then_next_plays_three_then_wraps_to_one() {
    let (mut pl, mut ui) = setup(&["t1.mp3", "t2.mp3", "t3.mp3"]);
    // play 2 (one-based) starts index 1
    match apply_command(&mut pl, &mut ui, Command::PlayIndex(2)) {
        CommandOutcome::StartTrack(idx, NavKind::Explicit) => {
            assert_eq!(idx, 1);
            on_track_started(&mut pl, &mut ui, idx, None, NavKind::Explicit);
        }
        _ => panic!("expected a track start"),
    }
    assert_eq!(pl.current, Some(1));
    // next under sequential plays track 3
    match apply_command(&mut pl, &mut ui, Command::Next) {
        CommandOutcome::StartTrack(idx, NavKind::Next) => {
            assert_eq!(idx, 2);
            on_track_started(&mut pl, &mut ui, idx, None, NavKind::Next);
        }
        _ => panic!("expected a track start"),
    }
    // next again wraps to track 1
    match apply_command(&mut pl, &mut ui, Command::Next) {
        CommandOutcome::StartTrack(idx, NavKind::Next) => assert_eq!(idx, 0),
        _ => panic!("expected a track start"),
    }
}

#[test]
fn volume_applies_and_shows_in_now_output() {
    let (mut pl, mut ui) = setup(&["a.mp3"]);
    pl.current = Some(0);
    ui.now_name = "a.mp3".to_string();
    match apply_command(&mut pl, &mut ui, Command::Volume(80)) {
        CommandOutcome::Done(e) => {
            assert!(matches!(e[0], Effect::PlayerSetVolume(80)));
            let (m, l) = flash_of(&e);
            assert_eq!(m, "音量设置为: 80%");
            assert!(matches!(l, FlashLevel::Okay));
        }
        _ => panic!("expected effects"),
    }
    assert_eq!(ui.volume, Some(80));
    match apply_command(&mut pl, &mut ui, Command::Now) {
        CommandOutcome::Done(e) => {
            let (m, _) = flash_of(&e);
            assert!(m.contains("音量: 80%"));
            assert!(m.contains("a.mp3"));
            assert!(m.contains("序号: 1 / 1"));
        }
        _ => panic!("expected a snapshot"),
    }
}

#[test]
fn pause_needs_a_playing_track() {
    let (mut pl, mut ui) = setup(&["a.mp3"]);
    match apply_command(&mut pl, &mut ui, Command::Pause) {
        CommandOutcome::Done(e) => {
            let (m, _) = flash_of(&e);
            assert_eq!(m, "没有正在播放的歌曲");
        }
        _ => panic!("expected a rejection"),
    }
    pl.current = Some(0);
    match apply_command(&mut pl, &mut ui, Command::Pause) {
        CommandOutcome::Done(e) => {
            assert!(matches!(e[0], Effect::PlayerPause));
            let (m, _) = flash_of(&e);
            assert_eq!(m, "已暂停");
        }
        _ => panic!("expected effects"),
    }
}

#[test]
fn mode_switch_updates_both_states() {
    let (mut pl, mut ui) = setup(&["a.mp3"]);
    match apply_command(&mut pl, &mut ui, Command::Mode(PlaybackMode::Shuffle)) {
        CommandOutcome::Done(e) => {
            let (m, _) = flash_of(&e);
            assert_eq!(m, "已切换到随机播放模式");
        }
        _ => panic!("expected effects"),
    }
    assert!(pl.mode == PlaybackMode::Shuffle);
    assert!(ui.mode == PlaybackMode::Shuffle);
    match apply_command(&mut pl, &mut ui, Command::Mode(PlaybackMode::Shuffle)) {
        CommandOutcome::Done(e) => {
            let (m, _) = flash_of(&e);
            assert_eq!(m, "已经是随机播放模式");
        }
        _ => panic!("expected effects"),
    }
}

#[test]
fn list_and_search_render_rows() {
    let (mut pl, mut ui) = setup(&["dir/Alpha.mp3", "dir/Beta.mp3"]);
    pl.current = Some(0);
    match apply_command(&mut pl, &mut ui, Command::List) {
        CommandOutcome::Done(e) => {
            let (m, _) = flash_of(&e);
            assert_eq!(m, "播放列表:\n  1. >Alpha.mp3\n  2.  Beta.mp3\n");
        }
        _ => panic!("expected a listing"),
    }
    match apply_command(&mut pl, &mut ui, Command::Search("beta".to_string())) {
        CommandOutcome::Done(e) => {
            let (m, _) = flash_of(&e);
            assert_eq!(
                m,
                "搜索 'beta' 的结果：\n  2. Beta.mp3\n\n使用 /play <N> 播放指定歌曲"
            );
        }
        _ => panic!("expected results"),
    }
    match apply_command(&mut pl, &mut ui, Command::Search("nope".to_string())) {
        CommandOutcome::Done(e) => {
            let (m, _) = flash_of(&e);
            assert_eq!(m, "没有找到包含 'nope' 的歌曲");
        }
        _ => panic!("expected no results"),
    }
}

#[test]
fn folder_command_requests_a_scan() {
    let (mut pl, mut ui) = setup(&[]);
    match apply_command(&mut pl, &mut ui, Command::Folder("  ".to_string())) {
        CommandOutcome::Done(e) => {
            let (m, _) = flash_of(&e);
            assert_eq!(m, "路径不能为空，请指定有效的文件夹路径");
        }
        _ => panic!("expected a rejection"),
    }
    match apply_command(&mut pl, &mut ui, Command::Folder("/music".to_string())) {
        CommandOutcome::RequestScan(p) => assert_eq!(p, "/music"),
        _ => panic!("expected a scan request"),
    }
    let e = on_scan(&mut pl, "/music", vec!["/music/a.mp3".to_string()]);
    let (m, _) = flash_of(&e);
    assert_eq!(m, "扫描到 1 首歌曲");
    let e2 = on_scan(&mut pl, "/empty", Vec::new());
    let (m2, _) = flash_of(&e2);
    assert_eq!(m2, "文件夹 '/empty' 中没有找到支持的音频文件");
    let e3 = on_scan_path_error("/gone", true);
    let (m3, _) = flash_of(&e3);
    assert_eq!(m3, "路径不存在: /gone");
}

#[test]
fn track_start_sets_names_and_volume_effect() {
    let (mut pl, mut ui) = setup(&["d/one.mp3", "d/two.mp3"]);
    ui.volume = Some(30);
    let lyr = Lyrics::from_lines(&vec!["[00:00.00]hi".to_string()]);
    let e = on_track_started(&mut pl, &mut ui, 0, Some(lyr), NavKind::Explicit);
    assert!(matches!(e[0], Effect::PlayerSetVolume(30)));
    let (m, _) = flash_of(&e);
    assert_eq!(m, "开始播放: one.mp3 | 已加载歌词");
    assert_eq!(ui.now_name, "one.mp3");
    assert_eq!(ui.next_name, "two.mp3");
    assert_eq!(pl.current, Some(0));
    assert!(ui.playing_ui_active);
}

#[test]
fn missing_track_reports_its_name() {
    let (pl, _) = setup(&["d/one.mp3"]);
    let e = on_track_missing(&pl, 0);
    let (m, l) = flash_of(&e);
    assert_eq!(m, "歌曲文件不存在: one.mp3");
    assert!(matches!(l, FlashLevel::Error));
}

#[test]
fn tick_advances_when_finished() {
    let (mut pl, mut ui) = setup(&["a.mp3", "b.mp3"]);
    pl.current = Some(0);
    let (next, e) = on_tick(&mut pl, &mut ui, true, 0);
    assert_eq!(next, Some(1));
    assert!(e.is_empty());
    assert_eq!(pl.current, Some(1));
}

#[test]
fn tick_reports_progress_and_lyric_changes() {
    let (mut pl, mut ui) = setup(&["a.mp3"]);
    pl.current = Some(0);
    let lyr = Lyrics::from_lines(&vec![
        "[00:00.00]first".to_string(),
        "[00:02.00]second".to_string(),
    ]);
    ui.set_now_playing(0, "a.mp3".to_string(), String::new());
    ui.lyrics = Some(lyr);
    let (n1, e1) = on_tick(&mut pl, &mut ui, false, 100);
    assert_eq!(n1, None);
    assert_eq!(e1.len(), 1);
    assert!(matches!(e1[0], Effect::Refresh));
    assert_eq!(ui.current_lyric_line, Some(0));
    assert_eq!(ui.current_ms, 100);
    // same line: no redraw
    let (_, e2) = on_tick(&mut pl, &mut ui, false, 500);
    assert!(e2.is_empty());
    // line change: redraw
    let (_, e3) = on_tick(&mut pl, &mut ui, false, 2500);
    assert_eq!(e3.len(), 1);
    assert_eq!(ui.current_lyric_line, Some(1));
}
