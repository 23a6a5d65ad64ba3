use beatcli::lyrics::Lyrics;
use beatcli::render::{
    create_footer, create_goodbye_message, create_section_header, create_title_bar, flash_marker,
    format_item, help_text, lyric_block_text, mode_name, now_playing_text, plan_draw,
    playing_status_text, DrawPlan,
};
use beatcli::ui::{FlashLevel, UiState};

#[test]
fn title_bar_centers_by_display_width() {
    // ASCII title of width 2: 56 columns to pad, 28 on each side
    let bar = "█".repeat(60);
    let expected = format!("{}\n█{}ab{}█\n{}\n", bar, " ".repeat(28), " ".repeat(28), bar);
    assert_eq!(create_title_bar("ab"), expected);
}

#[test]
fn section_header_accounts_for_wide_characters() {
    // "你好" occupies four columns, so 54 border cells remain: 27 and 27
    let expected = format!("{} 你好 {}\n", "═".repeat(27), "═".repeat(27));
    assert_eq!(create_section_header("你好"), expected);
    // an ASCII title of the same character count gets more border
    let expected2 = format!("{} hi {}\n", "═".repeat(28), "═".repeat(28));
    assert_eq!(create_section_header("hi"), expected2);
}

#[test]
fn footer_is_a_full_border_line() {
    assert_eq!(create_footer(), format!("{}\n", "═".repeat(60)));
}

#[test]
fn goodbye_message_has_banner_and_footer() {
    let g = create_goodbye_message();
    assert!(g.starts_with(&"█".repeat(60)));
    assert!(g.contains("再见，下次再见！"));
    assert!(g.ends_with(&format!("{}\n", "═".repeat(60))));
}

#[test]
fn format_item_marks_the_current_row() {
    assert_eq!(format_item(0, "x.mp3", true), "  1. >x.mp3\n");
    assert_eq!(format_item(9, "y.mp3", false), "  10.  y.mp3\n");
}

#[test]
fn help_text_lists_the_commands() {
    let h = help_text();
    assert!(h.contains("/help"));
    assert!(h.contains("/volume <0..100>"));
    assert!(h.starts_with(&"═".repeat(60)));
}

#[test]
fn status_text_substitutes_missing_names() {
    let mut ui = UiState::new();
    let s = playing_status_text(&ui, 0);
    assert!(s.contains("当前播放: (未播放)"));
    assert!(s.contains("下一首:   (无)"));
    assert!(s.contains("音量: 50%"));
    assert!(s.contains("播放列表: 0 首"));
    ui.now_name = "now.mp3".to_string();
    ui.next_name = "next.mp3".to_string();
    ui.volume = Some(5);
    let s2 = playing_status_text(&ui, 3);
    assert!(s2.contains("当前播放: now.mp3"));
    assert!(s2.contains("下一首:   next.mp3"));
    assert!(s2.contains("音量: 5%"));
    assert!(s2.contains("播放列表: 3 首"));
    assert_eq!(mode_name(ui.mode), "顺序播放");
}

fn doc(lines: &[&str]) -> Lyrics {
    let raw: Vec<String> = lines.iter().map(|s| s.to_string()).collect();
    Lyrics::from_lines(&raw)
}

#[test]
fn lyric_block_highlights_the_active_line() {
    let d = doc(&["[00:00.00]one", "[00:02.00]two", "[00:04.00]three"]);
    let b = lyric_block_text(&d, 2500);
    assert!(b.contains("    one\n"));
    assert!(b.contains("  \x1b[32m▶ two\x1b[0m\n"));
    assert!(b.contains("    three\n"));
}

#[test]
fn now_playing_snapshot_shows_time_and_lyric_context() {
    let mut ui = UiState::new();
    ui.now_name = "song.mp3".to_string();
    ui.show_lyrics = true;
    ui.lyrics = Some(doc(&["[00:00.00]alpha", "[01:01.00]beta"]));
    ui.current_ms = 61_000;
    let s = now_playing_text(&ui, 0, 2);
    assert!(s.contains("歌曲: song.mp3"));
    assert!(s.contains("播放时间: 01:01"));
    assert!(s.contains("  ▶ beta"));
    assert!(s.contains("    alpha"));
    assert!(s.contains("歌词: 已加载 (2 行)"));
}

#[test]
fn flash_markers_differ_by_severity() {
    assert_eq!(flash_marker(FlashLevel::Info), "ℹ ");
    assert_eq!(flash_marker(FlashLevel::Okay), "✓ ");
    assert_eq!(flash_marker(FlashLevel::Error), "✗ ");
}

#[test]
fn plan_shows_welcome_screen_first() {
    let mut ui = UiState::new();
    ui.show_welcome = true;
    match plan_draw(&mut ui, 0) {
        DrawPlan::Welcome(tb, tail) => {
            assert!(tb.starts_with(&"█".repeat(60)));
            assert!(tail.contains("/help"));
        }
        _ => panic!("expected the welcome plan"),
    }
}

#[test]
fn plan_enters_playing_interface_once() {
    let mut ui = UiState::new();
    ui.now_index = Some(0);
    ui.playing_ui_active = false;
    match plan_draw(&mut ui, 1) {
        DrawPlan::EnterPlaying(status, lyr) => {
            assert!(status.contains("播放状态"));
            assert!(lyr.is_none());
        }
        _ => panic!("expected the full draw"),
    }
    assert!(ui.playing_ui_active);
}

#[test]
fn plan_streams_lyrics_then_rewrites_highlight_only() {
    let mut ui = UiState::new();
    ui.set_now_playing(0, "a".to_string(), String::new());
    ui.lyrics = Some(doc(&["[00:00.00]one", "[00:02.00]two"]));
    ui.current_ms = 0;
    match plan_draw(&mut ui, 1) {
        DrawPlan::StreamLyrics(b) => {
            // first stream write positions the window and clears below it
            assert!(b.starts_with("\x1b7"));
            assert!(b.ends_with("\x1b8"));
            assert!(b.contains("one"));
            assert!(b.contains("two"));
        }
        _ => panic!("expected a streaming write"),
    }
    assert_eq!(ui.current_lyric_line, Some(0));
    assert_eq!(ui.last_lyrics_range, Some((0, 2)));
    let first_len;
    // move to the second line within the same window
    ui.current_ms = 2500;
    match plan_draw(&mut ui, 1) {
        DrawPlan::StreamLyrics(b) => {
            first_len = b.len();
            assert!(b.contains("\x1b[32m\x1b[1m  ▶ "));
        }
        _ => panic!("expected a streaming write"),
    }
    assert_eq!(ui.current_lyric_line, Some(1));
    // the highlight-only write carries no clearing rows, so it is shorter
    // than the first full window write
    ui.current_ms = 0;
    match plan_draw(&mut ui, 1) {
        DrawPlan::StreamLyrics(b) => assert_eq!(b.len(), first_len),
        _ => panic!("expected a streaming write"),
    }
}

#[test]
fn plan_redraws_fully_in_clear_mode() {
    let mut ui = UiState::new();
    ui.set_now_playing(0, "a".to_string(), String::new());
    ui.toggle_lyrics_mode();
    ui.lyrics = Some(doc(&["[00:00.00]one"]));
    match plan_draw(&mut ui, 1) {
        DrawPlan::FullLyricsRedraw(status, lyr) => {
            assert!(status.contains("播放状态"));
            assert!(lyr.is_some());
        }
        _ => panic!("expected a full redraw"),
    }
}

#[test]
fn plan_consumes_the_flash_message_once() {
    let mut ui = UiState::new();
    ui.flash = Some(("done".to_string(), FlashLevel::Okay));
    match plan_draw(&mut ui, 0) {
        DrawPlan::Flash(prefix, lv, msg, prompt) => {
            assert_eq!(prefix, "✓ ");
            assert!(matches!(lv, FlashLevel::Okay));
            assert_eq!(msg, "done");
            assert!(!prompt);
        }
        _ => panic!("expected a flash plan"),
    }
    assert!(ui.flash.is_none());
    assert!(matches!(plan_draw(&mut ui, 0), DrawPlan::Nothing));
}

#[test]
fn screen_draw_delegates_to_the_planner() {
    let mut s = beatcli::render::Screen::new();
    let mut ui = UiState::new();
    ui.show_welcome = true;
    assert!(matches!(s.draw(&mut ui, 0), DrawPlan::Welcome(_, _)));
}
