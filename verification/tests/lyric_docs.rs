use beatcli::lyrics::{parse_digits, parse_timestamp, Lyrics};

fn doc(lines: &[&str]) -> Lyrics {
    let raw: Vec<String> = lines.iter().map(|s| s.to_string()).collect();
    Lyrics::from_lines(&raw)
}

#[test]
fn timestamp_with_two_digit_fraction() {
    assert_eq!(parse_timestamp("00:01.50"), Some(1500));
}

#[test]
fn timestamp_fraction_scaling() {
    assert_eq!(parse_timestamp("00:01.5"), Some(1500));
    assert_eq!(parse_timestamp("00:01.500"), Some(1500));
    assert_eq!(parse_timestamp("01:02.345"), Some(62345));
    assert_eq!(parse_timestamp("02:03"), Some(123000));
    assert_eq!(parse_timestamp("10:00.07"), Some(600070));
}

#[test]
fn timestamp_rejects_malformed_tags() {
    assert_eq!(parse_timestamp("abc"), None);
    assert_eq!(parse_timestamp("1:x.5"), None);
    assert_eq!(parse_timestamp(":5"), None);
    assert_eq!(parse_timestamp("1:"), None);
    assert_eq!(parse_timestamp("1:2."), None);
    assert_eq!(parse_timestamp(""), None);
}

#[test]
fn digits_parse_and_overflow() {
    assert_eq!(parse_digits("0042"), Some(42));
    assert_eq!(parse_digits(""), None);
    assert_eq!(parse_digits("1a2"), None);
    assert_eq!(parse_digits("340282366920938463463374607431768211455"), Some(u128::MAX));
    assert_eq!(parse_digits("340282366920938463463374607431768211456"), None);
}

#[test]
fn sidecar_line_parses_to_entry() {
    let d = doc(&["[00:01.50]Hello"]);
    assert_eq!(d.len(), 1);
    assert_eq!(d.lines[0], (1500, "Hello".to_string()));
}

#[test]
fn document_sorts_entries_and_reads_metadata() {
    let d = doc(&[
        "[ti: My Title]",
        "[00:10.00]second",
        "garbage line",
        "[ar:Some Artist]",
        "[00:05.00]first",
        "[al:An Album]",
        "[00:xx]skipped",
        "[00:20.00]   ",
    ]);
    assert_eq!(d.len(), 2);
    assert_eq!(d.lines[0], (5000, "first".to_string()));
    assert_eq!(d.lines[1], (10000, "second".to_string()));
    assert_eq!(d.title, Some("my title".to_string()));
    assert_eq!(d.artist, Some("some artist".to_string()));
    assert_eq!(d.album, Some("an album".to_string()));
}

#[test]
fn last_metadata_tag_wins() {
    let d = doc(&["[ti:one]", "[ti:two]"]);
    assert_eq!(d.title, Some("two".to_string()));
    assert_eq!(d.artist, None);
    assert_eq!(d.album, None);
}

#[test]
fn empty_document_is_valid() {
    let d = doc(&[]);
    assert!(d.is_empty());
    assert_eq!(d.current_line_index(0), None);
}

#[test]
fn current_line_is_greatest_at_or_before_position() {
    let d = doc(&["[00:00.00]a", "[00:02.00]b", "[00:04.00]c"]);
    assert_eq!(d.current_line_index(0), Some(0));
    assert_eq!(d.current_line_index(1999), Some(0));
    assert_eq!(d.current_line_index(2000), Some(1));
    assert_eq!(d.current_line_index(100000), Some(2));
}

#[test]
fn position_before_first_timestamp_has_no_line() {
    let d = doc(&["[00:02.00]late start"]);
    assert_eq!(d.current_line_index(0), None);
    assert_eq!(d.current_line_index(1999), None);
    assert_eq!(d.current_line_index(2000), Some(0));
}

#[test]
fn first_timestamp_zero_is_active_at_zero() {
    let d = doc(&["[00:00.00]opening", "[00:03.00]next"]);
    assert_eq!(d.current_line_index(0), Some(0));
}

#[test]
fn line_index_is_monotone_in_position() {
    let d = doc(&["[00:01.00]a", "[00:02.00]b", "[00:03.00]c", "[00:03.00]c2"]);
    let mut last: Option<usize> = None;
    for ms in 0..5000u128 {
        let cur = d.current_line_index(ms);
        match (last, cur) {
            (Some(_), None) => panic!("line index went back to none at {}", ms),
            (Some(a), Some(b)) => assert!(a <= b),
            _ => {}
        }
        last = cur;
    }
}
