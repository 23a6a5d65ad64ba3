use beatcli::command::{parse_command, Command};
use beatcli::playlist::PlaybackMode;

#[test]
fn keywords_parse_case_insensitively() {
    assert!(matches!(parse_command("/help"), Command::Help));
    assert!(matches!(parse_command("  /HELP  "), Command::Help));
    assert!(matches!(parse_command("/quit"), Command::Quit));
    assert!(matches!(parse_command("/Exit"), Command::Quit));
    assert!(matches!(parse_command("/q"), Command::Quit));
    assert!(matches!(parse_command("/e"), Command::Quit));
    assert!(matches!(parse_command("/list"), Command::List));
    assert!(matches!(parse_command("/ls"), Command::List));
    assert!(matches!(parse_command("/pause"), Command::Pause));
    assert!(matches!(parse_command("/resume"), Command::Resume));
    assert!(matches!(parse_command("/next"), Command::Next));
    assert!(matches!(parse_command("/prev"), Command::Prev));
    assert!(matches!(parse_command("/back"), Command::Prev));
    assert!(matches!(parse_command("/lyrics"), Command::Lyrics));
    assert!(matches!(parse_command("/lrc"), Command::Lyrics));
    assert!(matches!(parse_command("/lmode"), Command::LyricsMode));
    assert!(matches!(parse_command("/lm"), Command::LyricsMode));
    assert!(matches!(parse_command("/now"), Command::Now));
}

#[test]
fn lines_without_slash_are_unknown() {
    match parse_command("  hello there  ") {
        Command::Unknown(m) => assert_eq!(m, "hello there"),
        _ => panic!("expected unknown"),
    }
    match parse_command("/nosuch") {
        Command::Unknown(m) => assert_eq!(m, "/nosuch"),
        _ => panic!("expected unknown"),
    }
}

#[test]
fn folder_takes_the_rest_of_the_line() {
    match parse_command("/folder C:\\My Music\\pop") {
        Command::Folder(p) => assert_eq!(p, "C:\\My Music\\pop"),
        _ => panic!("expected folder"),
    }
    match parse_command("/f  a   b ") {
        Command::Folder(p) => assert_eq!(p, "a b"),
        _ => panic!("expected folder"),
    }
    match parse_command("/folder") {
        Command::Unknown(m) => {
            assert_eq!(m, "/folder 命令需要指定路径参数，例如: /folder C:\\Music")
        }
        _ => panic!("expected unknown"),
    }
}

#[test]
fn search_takes_the_rest_of_the_line() {
    match parse_command("/search one two") {
        Command::Search(q) => assert_eq!(q, "one two"),
        _ => panic!("expected search"),
    }
    assert!(matches!(parse_command("/search"), Command::Unknown(_)));
}

#[test]
fn play_parses_a_one_based_index() {
    assert!(matches!(parse_command("/play"), Command::PlayIndex(1)));
    assert!(matches!(parse_command("/play 3"), Command::PlayIndex(3)));
    match parse_command("/play 0") {
        Command::Unknown(m) => assert_eq!(m, "歌曲序号从 1 开始，不能为 0"),
        _ => panic!("expected unknown"),
    }
    match parse_command("/play abc") {
        Command::Unknown(m) => assert_eq!(m, "无效的歌曲序号: abc，请输入数字"),
        _ => panic!("expected unknown"),
    }
}

#[test]
fn mode_parses_its_argument() {
    assert!(matches!(
        parse_command("/mode sequential"),
        Command::Mode(PlaybackMode::Sequential)
    ));
    assert!(matches!(parse_command("/m seq"), Command::Mode(PlaybackMode::Sequential)));
    assert!(matches!(
        parse_command("/mode RepeatOne"),
        Command::Mode(PlaybackMode::RepeatOne)
    ));
    assert!(matches!(parse_command("/mode one"), Command::Mode(PlaybackMode::RepeatOne)));
    assert!(matches!(parse_command("/mode shuffle"), Command::Mode(PlaybackMode::Shuffle)));
    assert!(matches!(parse_command("/mode shu"), Command::Mode(PlaybackMode::Shuffle)));
    assert!(matches!(parse_command("/mode"), Command::Unknown(_)));
    match parse_command("/mode zig") {
        Command::Unknown(m) => {
            assert_eq!(m, "无效的播放模式: zig，支持: sequential, repeatone, shuffle")
        }
        _ => panic!("expected unknown"),
    }
}

#[test]
fn volume_is_range_checked() {
    assert!(matches!(parse_command("/volume 80"), Command::Volume(80)));
    assert!(matches!(parse_command("/vol 0"), Command::Volume(0)));
    assert!(matches!(parse_command("/vol 100"), Command::Volume(100)));
    match parse_command("/volume 150") {
        Command::Unknown(m) => {
            assert_eq!(m, "音量值必须在 0-100 范围内，输入的值: 150")
        }
        _ => panic!("expected unknown"),
    }
    match parse_command("/volume -3") {
        Command::Unknown(m) => {
            assert_eq!(m, "音量值必须在 0-100 范围内，输入的值: -3")
        }
        _ => panic!("expected unknown"),
    }
    match parse_command("/volume loud") {
        Command::Unknown(m) => {
            assert_eq!(m, "无效的音量值: loud，请输入 0-100 之间的数字")
        }
        _ => panic!("expected unknown"),
    }
    match parse_command("/volume") {
        Command::Unknown(m) => assert_eq!(m, "/volume 命令需要指定音量值，例如: /volume 80"),
        _ => panic!("expected unknown"),
    }
}

#[test]
fn tokenize_splits_on_whitespace() {
    let toks = beatcli::command::tokenize("  a\tbb   c ");
    assert_eq!(toks, vec!["a", "bb", "c"]);
    assert!(beatcli::command::tokenize("   ").is_empty());
}
