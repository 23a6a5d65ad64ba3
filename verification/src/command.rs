//! The text command surface: one input line becomes a typed command.

use crate::lyrics::{all_digits, digits_val, parse_digits};
use crate::playlist::PlaybackMode;
use crate::text::{
    ascii_lower_eq, dec_str, eq_ignore_ascii, is_ws, is_ws_exec, trim_of, trim_str,
    u128_to_string,
};
use vstd::prelude::*;

verus! {

/// A parsed input line.
#[derive(Debug, Clone)]
pub enum Command {
    Help,
    Quit,
    Folder(String),
    List,
    Search(String),
    PlayIndex(usize),
    Pause,
    Resume,
    Next,
    Prev,
    Mode(PlaybackMode),
    Volume(u8),
    Lyrics,
    LyricsMode,
    Now,
    Unknown(String),
}

/// A token names a keyword, compared without regard to ASCII case.
pub open spec fn is_kw(tok: Seq<char>, k: Seq<char>) -> bool {
    ascii_lower_eq(tok, k)
}

/// A token read as an unsigned index: digits only, fitting `usize`.
pub open spec fn usize_tok(a: Seq<char>) -> Option<int> {
    if all_digits(a) && digits_val(a) <= usize::MAX {
        Some(digits_val(a))
    } else {
        None
    }
}

/// A token read as a signed 32-bit number: an optional minus sign and
/// digits, fitting `i32`.
pub open spec fn i32_tok(a: Seq<char>) -> Option<int> {
    if a.len() > 0 && a[0] == '-' {
        if all_digits(a.skip(1)) && digits_val(a.skip(1)) <= 0x8000_0000 {
            Some(-digits_val(a.skip(1)))
        } else {
            None
        }
    } else {
        if all_digits(a) && digits_val(a) <= 0x7fff_ffff {
            Some(digits_val(a))
        } else {
            None
        }
    }
}

/// Decimal rendering of an integer, with a minus sign when negative.
pub open spec fn int_dec(v: int) -> Seq<char> {
    if v < 0 {
        seq!['-'] + dec_str((-v) as nat)
    } else {
        dec_str(v as nat)
    }
}

/// Which command keyword a token names, first match deciding: 0 help,
/// 1 quit, 2 folder, 3 list, 4 search, 5 play, 6 pause, 7 resume, 8 next,
/// 9 prev, 10 mode, 11 volume, 12 lyrics, 13 lyric-mode, 14 now, 15 none.
pub open spec fn kw_class(c: Seq<char>) -> int {
    if is_kw(c, "help"@) {
        0
    } else if is_kw(c, "quit"@) || is_kw(c, "exit"@) || is_kw(c, "q"@) || is_kw(c, "e"@) {
        1
    } else if is_kw(c, "folder"@) || is_kw(c, "f"@) {
        2
    } else if is_kw(c, "list"@) || is_kw(c, "ls"@) {
        3
    } else if is_kw(c, "search"@) {
        4
    } else if is_kw(c, "play"@) {
        5
    } else if is_kw(c, "pause"@) {
        6
    } else if is_kw(c, "resume"@) {
        7
    } else if is_kw(c, "next"@) {
        8
    } else if is_kw(c, "prev"@) || is_kw(c, "back"@) {
        9
    } else if is_kw(c, "mode"@) || is_kw(c, "m"@) {
        10
    } else if is_kw(c, "volume"@) || is_kw(c, "vol"@) {
        11
    } else if is_kw(c, "lyrics"@) || is_kw(c, "lrc"@) {
        12
    } else if is_kw(c, "lmode"@) || is_kw(c, "lm"@) {
        13
    } else if is_kw(c, "now"@) {
        14
    } else {
        15
    }
}

/// Which playback mode a token names, first match deciding: 0 sequential,
/// 1 repeat-one, 2 shuffle, 3 none.
pub open spec fn mode_class(a: Seq<char>) -> int {
    if is_kw(a, "sequential"@) || is_kw(a, "seq"@) {
        0
    } else if is_kw(a, "repeatone"@) || is_kw(a, "one"@) {
        1
    } else if is_kw(a, "shuffle"@) || is_kw(a, "shu"@) {
        2
    } else {
        3
    }
}

/// The length of the leading run of non-whitespace characters.
pub open spec fn token_len(s: Seq<char>) -> nat
    decreases s.len(),
{
    if s.len() == 0 || is_ws(s[0]) {
        0
    } else {
        1 + token_len(s.skip(1))
    }
}

/// The leading token is no longer than the text.
pub proof fn lemma_token_len_le(s: Seq<char>)
    ensures
        token_len(s) <= s.len(),
    decreases s.len(),
{
    if !(s.len() == 0 || is_ws(s[0])) {
        lemma_token_len_le(s.skip(1));
    }
}

/// The whitespace-separated tokens of `s`, in order; tokens are non-empty.
pub open spec fn tokens_of(s: Seq<char>) -> Seq<Seq<char>>
    decreases s.len(),
    via tokens_of_decreases
{
    if s.len() == 0 {
        Seq::empty()
    } else if is_ws(s[0]) {
        tokens_of(s.skip(1))
    } else {
        let k = token_len(s);
        seq![s.take(k as int)] + tokens_of(s.skip(k as int))
    }
}

#[via_fn]
proof fn tokens_of_decreases(s: Seq<char>) {
    if !(s.len() == 0 || is_ws(s[0])) {
        lemma_token_len_le(s);
    }
}

/// Tokens joined with single spaces.
pub open spec fn join_tokens(ts: Seq<Seq<char>>) -> Seq<char>
    decreases ts.len(),
{
    if ts.len() == 0 {
        Seq::empty()
    } else if ts.len() == 1 {
        ts[0]
    } else {
        join_tokens(ts.drop_last()) + seq![' '] + ts.last()
    }
}

/// The tokens as character sequences.
pub open spec fn token_views(ts: Seq<String>) -> Seq<Seq<char>> {
    ts.map_values(|t: String| t@)
}

proof fn lemma_token_len_run(s: Seq<char>, k: int)
    requires
        0 <= k <= s.len(),
        forall|t: int| 0 <= t < k ==> !is_ws(s[t]),
        k == s.len() || is_ws(s[k]),
    ensures
        token_len(s) == k,
    decreases k,
{
    if k > 0 {
        assert(forall|t: int| 0 <= t < k - 1 ==> #[trigger] s.skip(1)[t] == s[t + 1]);
        if k - 1 < s.skip(1).len() {
            assert(s.skip(1)[k - 1] == s[k as int]);
        }
        lemma_token_len_run(s.skip(1), k - 1);
    }
}

/// Splits on whitespace.
pub fn tokenize(s: &str) -> (r: Vec<String>)
    ensures
        token_views(r@) == tokens_of(s@),
{
    let n = s.unicode_len();
    let mut acc: Vec<String> = Vec::new();
    let mut i: usize = 0;
    proof {
        assert(s@.skip(0) =~= s@);
        assert(token_views(acc@) =~= Seq::<Seq<char>>::empty());
        assert(token_views(acc@) + tokens_of(s@) =~= tokens_of(s@));
    }
    loop
        invariant
            i <= n,
            n == s@.len(),
            tokens_of(s@) == token_views(acc@) + tokens_of(s@.skip(i as int)),
        decreases n - i,
    {
        if i == n {
            proof {
                assert(s@.skip(n as int) =~= Seq::<char>::empty());
                assert(token_views(acc@) + tokens_of(s@.skip(n as int)) =~= token_views(acc@));
            }
            return acc;
        }
        if is_ws_exec(s.get_char(i)) {
            proof {
                assert(s@.skip(i as int)[0] == s@[i as int]);
                assert(s@.skip(i as int).skip(1) =~= s@.skip(i + 1));
            }
            i = i + 1;
        } else {
            let start = i;
            let mut j = i + 1;
            while j < n && !is_ws_exec(s.get_char(j))
                invariant
                    start < j <= n,
                    n == s@.len(),
                    forall|t: int| start <= t < j ==> !is_ws(s@[t]),
                decreases n - j,
            {
                j = j + 1;
            }
            let tok = s.substring_char(start, j);
            acc.push(String::from_str(tok));
            proof {
                let u = s@.skip(start as int);
                assert(forall|t: int|
                    0 <= t < u.len() ==> #[trigger] u[t] == s@[t + start]);
                lemma_token_len_run(u, j - start);
                assert(u.take(j - start) =~= s@.subrange(start as int, j as int));
                assert(u.skip(j - start) =~= s@.skip(j as int));
                assert(tokens_of(u) == seq![s@.subrange(start as int, j as int)] + tokens_of(
                    s@.skip(j as int),
                ));
                let ghost old_acc = token_views(acc@.drop_last());
                assert(acc@.drop_last().push(acc@.last()) =~= acc@);
                assert(token_views(acc@) =~= old_acc.push(tok@));
                assert(old_acc.push(tok@) + tokens_of(s@.skip(j as int)) =~= old_acc + (seq![
                    s@.subrange(start as int, j as int),
                ] + tokens_of(s@.skip(j as int))));
            }
            i = j;
        }
    }
}

/// Joins the tokens from position `from` on with single spaces.
pub fn join_from(toks: &Vec<String>, from: usize) -> (r: String)
    requires
        from <= toks@.len(),
    ensures
        r@ == join_tokens(token_views(toks@).skip(from as int)),
{
    let ghost ts = token_views(toks@).skip(from as int);
    let n = toks.len();
    let mut r = String::new();
    if from < n {
        r = toks[from].clone();
        proof {
            assert(ts[0] == toks@[from as int]@);
            assert(ts.take(1) =~= seq![ts[0]]);
            assert(join_tokens(ts.take(1)) == ts[0]);
        }
        let mut k: usize = from + 1;
        while k < n
            invariant
                from < k <= n,
                n == toks@.len(),
                ts == token_views(toks@).skip(from as int),
                ts.len() == n - from,
                r@ == join_tokens(ts.take(k - from)),
            decreases n - k,
        {
            r.append(" ");
            r.append(toks[k].as_str());
            proof {
                let m = k - from;
                assert(ts.take(m + 1).drop_last() =~= ts.take(m));
                assert(ts.take(m + 1).last() == ts[m]);
                assert(ts[m] == toks@[k as int]@);
                assert(join_tokens(ts.take(m + 1)) == join_tokens(ts.take(m)) + seq![' ']
                    + ts[m]);
                assert(join_tokens(ts.take(m)) + " "@ + toks@[k as int]@ =~= join_tokens(
                    ts.take(m),
                ) + seq![' '] + ts[m]) by {
                    reveal_strlit(" ");
                }
            }
            k = k + 1;
        }
        proof {
            assert(ts.take(n - from) =~= ts);
        }
    } else {
        proof {
            assert(ts =~= Seq::<Seq<char>>::empty());
        }
    }
    r
}

fn parse_usize_tok(a: &str) -> (r: Option<usize>)
    ensures
        r is Some <==> usize_tok(a@) is Some,
        r matches Some(v) ==> usize_tok(a@) == Some(v as int),
{
    match parse_digits(a) {
        Some(v) => {
            if v <= usize::MAX as u128 {
                Some(v as usize)
            } else {
                None
            }
        },
        None => None,
    }
}

fn parse_i32_tok(a: &str) -> (r: Option<i32>)
    ensures
        r is Some <==> i32_tok(a@) is Some,
        r matches Some(v) ==> i32_tok(a@) == Some(v as int),
{
    let n = a.unicode_len();
    if n > 0 && a.get_char(0) == '-' {
        let digits = a.substring_char(1, n);
        proof {
            assert(digits@ =~= a@.skip(1));
        }
        match parse_digits(digits) {
            Some(v) => {
                if v <= 2147483648u128 {
                    Some((-(v as i64)) as i32)
                } else {
                    None
                }
            },
            None => None,
        }
    } else {
        match parse_digits(a) {
            Some(v) => {
                if v <= 2147483647u128 {
                    Some(v as i32)
                } else {
                    None
                }
            },
            None => None,
        }
    }
}

fn i32_to_string(v: i32) -> (s: String)
    ensures
        s@ == int_dec(v as int),
{
    if v < 0 {
        let mag = (-(v as i64)) as u128;
        let mut s = String::from_str("-");
        let d = u128_to_string(mag);
        s.append(d.as_str());
        proof {
            reveal_strlit("-");
            assert("-"@ =~= seq!['-']);
        }
        s
    } else {
        u128_to_string(v as u128)
    }
}

/// Reads one input line as a command. A line must start with `/` after
/// trimming; its first token picks the command, case-insensitively, and the
/// remaining tokens are its arguments. Anything else, and every malformed
/// argument, comes back as `Unknown` with the message to show.
pub fn parse_command(line: &str) -> (r: Command)
    ensures
        ({
            let t = trim_of(line@);
            &&& ((t.len() == 0 || t[0] != '/') ==> (r matches Command::Unknown(m) && m@ == t))
            &&& ((t.len() > 0 && t[0] == '/') ==> ({
                let toks = tokens_of(t.skip(1));
                let c = if toks.len() > 0 {
                    toks[0]
                } else {
                    Seq::<char>::empty()
                };
                &&& (kw_class(c) == 0 ==> r == Command::Help)
                &&& (kw_class(c) == 1 ==> r == Command::Quit)
                &&& (kw_class(c) == 2 ==> ({
                    &&& (toks.len() >= 2 ==> (r matches Command::Folder(p) && p@ == join_tokens(
                        toks.skip(1),
                    )))
                    &&& (toks.len() < 2 ==> (r matches Command::Unknown(m) && m@
                        == "/folder 命令需要指定路径参数，例如: /folder C:\\Music"@))
                }))
                &&& (kw_class(c) == 3 ==> r == Command::List)
                &&& (kw_class(c) == 4 ==> ({
                    &&& (toks.len() >= 2 ==> (r matches Command::Search(p) && p@ == join_tokens(
                        toks.skip(1),
                    )))
                    &&& (toks.len() < 2 ==> (r matches Command::Unknown(m) && m@
                        == "/search 命令需要指定搜索关键词，例如: /search 周杰伦"@))
                }))
                &&& (kw_class(c) == 5 ==> ({
                    &&& (toks.len() <= 1 ==> r == Command::PlayIndex(1usize))
                    &&& (toks.len() >= 2 ==> (match usize_tok(toks[1]) {
                        Some(v) => (v == 0 ==> (r matches Command::Unknown(m) && m@
                            == "歌曲序号从 1 开始，不能为 0"@)) && (v != 0 ==> (
                        r matches Command::PlayIndex(i) && i as int == v)),
                        None => r matches Command::Unknown(m) && m@ == "无效的歌曲序号: "@
                            + toks[1] + "，请输入数字"@,
                    }))
                }))
                &&& (kw_class(c) == 6 ==> r == Command::Pause)
                &&& (kw_class(c) == 7 ==> r == Command::Resume)
                &&& (kw_class(c) == 8 ==> r == Command::Next)
                &&& (kw_class(c) == 9 ==> r == Command::Prev)
                &&& (kw_class(c) == 10 ==> ({
                    &&& (toks.len() <= 1 ==> (r matches Command::Unknown(m) && m@
                        == "/mode 命令需要指定模式参数: sequential(顺序), repeatone(单曲循环), shuffle(随机)"@))
                    &&& (toks.len() >= 2 ==> ({
                        let a = toks[1];
                        &&& (mode_class(a) == 0 ==> r == Command::Mode(PlaybackMode::Sequential))
                        &&& (mode_class(a) == 1 ==> r == Command::Mode(PlaybackMode::RepeatOne))
                        &&& (mode_class(a) == 2 ==> r == Command::Mode(PlaybackMode::Shuffle))
                        &&& (mode_class(a) == 3 ==> (r matches Command::Unknown(m) && m@
                            == "无效的播放模式: "@ + a + "，支持: sequential, repeatone, shuffle"@))
                    }))
                }))
                &&& (kw_class(c) == 11 ==> ({
                    &&& (toks.len() <= 1 ==> (r matches Command::Unknown(m) && m@
                        == "/volume 命令需要指定音量值，例如: /volume 80"@))
                    &&& (toks.len() >= 2 ==> (match i32_tok(toks[1]) {
                        Some(v) => ((v < 0 || v > 100) ==> (r matches Command::Unknown(m) && m@
                            == "音量值必须在 0-100 范围内，输入的值: "@ + int_dec(v))) && ((0 <= v
                            <= 100) ==> (r matches Command::Volume(b) && b as int == v)),
                        None => r matches Command::Unknown(m) && m@ == "无效的音量值: "@
                            + toks[1] + "，请输入 0-100 之间的数字"@,
                    }))
                }))
                &&& (kw_class(c) == 12 ==> r == Command::Lyrics)
                &&& (kw_class(c) == 13 ==> r == Command::LyricsMode)
                &&& (kw_class(c) == 14 ==> r == Command::Now)
                &&& (kw_class(c) == 15 ==> (r matches Command::Unknown(m) && m@ == t))
            }))
        }),
{
    proof {
        reveal_strlit("help");
        reveal_strlit("quit");
        reveal_strlit("exit");
        reveal_strlit("q");
        reveal_strlit("e");
        reveal_strlit("folder");
        reveal_strlit("f");
        reveal_strlit("list");
        reveal_strlit("ls");
        reveal_strlit("search");
        reveal_strlit("play");
        reveal_strlit("pause");
        reveal_strlit("resume");
        reveal_strlit("next");
        reveal_strlit("prev");
        reveal_strlit("back");
        reveal_strlit("mode");
        reveal_strlit("m");
        reveal_strlit("volume");
        reveal_strlit("vol");
        reveal_strlit("lyrics");
        reveal_strlit("lrc");
        reveal_strlit("lmode");
        reveal_strlit("lm");
        reveal_strlit("now");
        reveal_strlit("sequential");
        reveal_strlit("seq");
        reveal_strlit("repeatone");
        reveal_strlit("one");
        reveal_strlit("shuffle");
        reveal_strlit("shu");
        reveal_strlit("");
    }
    let t = trim_str(line);
    let tn = t.unicode_len();
    if tn == 0 || t.get_char(0) != '/' {
        return Command::Unknown(String::from_str(t));
    }
    let body = t.substring_char(1, tn);
    proof {
        assert(body@ =~= trim_of(line@).skip(1));
    }
    let toks = tokenize(body);
    let cmd: &str = if toks.len() > 0 {
        toks[0].as_str()
    } else {
        ""
    };
    proof {
        if toks@.len() > 0 {
            assert(cmd@ == token_views(toks@)[0]);
        } else {
            assert(cmd@ =~= Seq::<char>::empty());
        }
    }
    if eq_ignore_ascii(cmd, "help") {
        return Command::Help;
    }
    if eq_ignore_ascii(cmd, "quit") || eq_ignore_ascii(cmd, "exit") || eq_ignore_ascii(cmd, "q")
        || eq_ignore_ascii(cmd, "e") {
        return Command::Quit;
    }
    if eq_ignore_ascii(cmd, "folder") || eq_ignore_ascii(cmd, "f") {
        if toks.len() < 2 {
            return Command::Unknown(
                String::from_str("/folder 命令需要指定路径参数，例如: /folder C:\\Music"),
            );
        }
        return Command::Folder(join_from(&toks, 1));
    }
    if eq_ignore_ascii(cmd, "list") || eq_ignore_ascii(cmd, "ls") {
        return Command::List;
    }
    if eq_ignore_ascii(cmd, "search") {
        if toks.len() < 2 {
            return Command::Unknown(
                String::from_str("/search 命令需要指定搜索关键词，例如: /search 周杰伦"),
            );
        }
        return Command::Search(join_from(&toks, 1));
    }
    if eq_ignore_ascii(cmd, "play") {
        if toks.len() == 1 {
            return Command::PlayIndex(1);
        }
        if toks.len() >= 2 {
            let a = toks[1].as_str();
            match parse_usize_tok(a) {
                Some(v) => {
                    if v == 0 {
                        return Command::Unknown(
                            String::from_str("歌曲序号从 1 开始，不能为 0"),
                        );
                    }
                    return Command::PlayIndex(v);
                },
                None => {
                    let mut msg = String::from_str("无效的歌曲序号: ");
                    msg.append(a);
                    msg.append("，请输入数字");
                    return Command::Unknown(msg);
                },
            }
        }
        return Command::PlayIndex(1);
    }
    if eq_ignore_ascii(cmd, "pause") {
        return Command::Pause;
    }
    if eq_ignore_ascii(cmd, "resume") {
        return Command::Resume;
    }
    if eq_ignore_ascii(cmd, "next") {
        return Command::Next;
    }
    if eq_ignore_ascii(cmd, "prev") || eq_ignore_ascii(cmd, "back") {
        return Command::Prev;
    }
    if eq_ignore_ascii(cmd, "mode") || eq_ignore_ascii(cmd, "m") {
        if toks.len() < 2 {
            return Command::Unknown(
                String::from_str(
                    "/mode 命令需要指定模式参数: sequential(顺序), repeatone(单曲循环), shuffle(随机)",
                ),
            );
        }
        let a = toks[1].as_str();
        if eq_ignore_ascii(a, "sequential") || eq_ignore_ascii(a, "seq") {
            return Command::Mode(PlaybackMode::Sequential);
        }
        if eq_ignore_ascii(a, "repeatone") || eq_ignore_ascii(a, "one") {
            return Command::Mode(PlaybackMode::RepeatOne);
        }
        if eq_ignore_ascii(a, "shuffle") || eq_ignore_ascii(a, "shu") {
            return Command::Mode(PlaybackMode::Shuffle);
        }
        let mut msg = String::from_str("无效的播放模式: ");
        msg.append(a);
        msg.append("，支持: sequential, repeatone, shuffle");
        return Command::Unknown(msg);
    }
    if eq_ignore_ascii(cmd, "volume") || eq_ignore_ascii(cmd, "vol") {
        if toks.len() < 2 {
            return Command::Unknown(
                String::from_str("/volume 命令需要指定音量值，例如: /volume 80"),
            );
        }
        let a = toks[1].as_str();
        match parse_i32_tok(a) {
            Some(v) => {
                if v < 0 || v > 100 {
                    let mut msg = String::from_str("音量值必须在 0-100 范围内，输入的值: ");
                    let d = i32_to_string(v);
                    msg.append(d.as_str());
                    return Command::Unknown(msg);
                }
                return Command::Volume(v as u8);
            },
            None => {
                let mut msg = String::from_str("无效的音量值: ");
                msg.append(a);
                msg.append("，请输入 0-100 之间的数字");
                return Command::Unknown(msg);
            },
        }
    }
    if eq_ignore_ascii(cmd, "lyrics") || eq_ignore_ascii(cmd, "lrc") {
        return Command::Lyrics;
    }
    if eq_ignore_ascii(cmd, "lmode") || eq_ignore_ascii(cmd, "lm") {
        return Command::LyricsMode;
    }
    if eq_ignore_ascii(cmd, "now") {
        return Command::Now;
    }
    Command::Unknown(String::from_str(t))
}

} // verus!
