//! Rendering as text: every block the terminal shows is built here as a
//! plain string, and the draw planner decides which block to emit so that
//! steady-state playback rewrites only the lyric lines that changed.

use crate::lyrics::{line_index_at, Lyrics};
use crate::playlist::PlaybackMode;
use crate::text::{
    append_centered, append_left_aligned, append_spaces, center_padded, dec_str, display_width,
    left_aligned, repeat_seq, repeat_str, spaces, str_width, u128_to_string, usize_to_string,
};
use crate::ui::{FlashLevel, UiState};
use vstd::prelude::*;

verus! {

/// The banner block: a full-width bar, the title centered by display width
/// between corner characters, and another full-width bar.
pub open spec fn title_bar_spec(title: Seq<char>, w: nat) -> Seq<char> {
    let total: nat = if w + 2 <= 60 {
        (60 - (w + 2)) as nat
    } else {
        0
    };
    let left = total / 2;
    let right = (total - left) as nat;
    repeat_seq("█"@, 60) + "\n"@ + "█"@ + spaces(left) + title + spaces(right) + "█"@ + "\n"@
        + repeat_seq("█"@, 60) + "\n"@
}

/// Builds the banner block for `title`.
pub fn create_title_bar(title: &str) -> (r: String)
    ensures
        r@ == title_bar_spec(title@, display_width(title@)),
{
    let w = str_width(title);
    let total: usize = if w <= 58 {
        58 - w
    } else {
        0
    };
    let left = total / 2;
    let right = total - left;
    let mut r = repeat_str("█", 60);
    r.append("\n");
    r.append("█");
    append_spaces(&mut r, left);
    r.append(title);
    append_spaces(&mut r, right);
    r.append("█");
    r.append("\n");
    let bar = repeat_str("█", 60);
    r.append(bar.as_str());
    r.append("\n");
    proof {
        assert(r@ =~= title_bar_spec(title@, display_width(title@)));
    }
    r
}

/// A section header: the title between border runs, centered by display
/// width.
pub open spec fn section_header_spec(title: Seq<char>, w: nat) -> Seq<char> {
    let total: nat = if w + 2 <= 60 {
        (60 - (w + 2)) as nat
    } else {
        0
    };
    let left = total / 2;
    let right = (total - left) as nat;
    repeat_seq("═"@, left) + " "@ + title + " "@ + repeat_seq("═"@, right) + "\n"@
}

/// Builds a section header for `title`.
pub fn create_section_header(title: &str) -> (r: String)
    ensures
        r@ == section_header_spec(title@, display_width(title@)),
{
    let w = str_width(title);
    let total: usize = if w <= 58 {
        58 - w
    } else {
        0
    };
    let left = total / 2;
    let right = total - left;
    let mut r = repeat_str("═", left);
    r.append(" ");
    r.append(title);
    r.append(" ");
    let bar = repeat_str("═", right);
    r.append(bar.as_str());
    r.append("\n");
    proof {
        assert(r@ =~= section_header_spec(title@, display_width(title@)));
    }
    r
}

/// The closing full-width border line.
pub open spec fn footer_spec() -> Seq<char> {
    repeat_seq("═"@, 60) + "\n"@
}

/// Builds the closing border line.
pub fn create_footer() -> (r: String)
    ensures
        r@ == footer_spec(),
{
    let mut r = repeat_str("═", 60);
    r.append("\n");
    r
}

/// The farewell block shown on quit.
pub open spec fn goodbye_spec() -> Seq<char> {
    title_bar_spec("🎵 感谢使用 BeatCLI"@, display_width("🎵 感谢使用 BeatCLI"@))
        + "\n                    再见，下次再见！\n"@
        + "              希望音乐带给您美好的时光 🎶\n\n"@ + footer_spec()
}

/// Builds the farewell block.
pub fn create_goodbye_message() -> (r: String)
    ensures
        r@ == goodbye_spec(),
{
    let mut r = create_title_bar("🎵 感谢使用 BeatCLI");
    r.append("\n                    再见，下次再见！\n");
    r.append("              希望音乐带给您美好的时光 🎶\n\n");
    let f = create_footer();
    r.append(f.as_str());
    proof {
        assert(r@ =~= goodbye_spec());
    }
    r
}

/// One playlist row: its 1-based number, the current-track marker, and the
/// name.
pub open spec fn format_item_spec(idx: int, name: Seq<char>, is_current: bool) -> Seq<char> {
    "  "@ + dec_str((idx + 1) as nat) + ". "@ + (if is_current {
        ">"@
    } else {
        " "@
    }) + name + "\n"@
}

/// Builds one playlist row.
pub fn format_item(idx: usize, name: &str, is_current: bool) -> (r: String)
    requires
        idx < usize::MAX,
    ensures
        r@ == format_item_spec(idx as int, name@, is_current),
{
    let mut r = String::from_str("  ");
    let d = usize_to_string(idx + 1);
    r.append(d.as_str());
    r.append(". ");
    if is_current {
        r.append(">");
    } else {
        r.append(" ");
    }
    r.append(name);
    r.append("\n");
    proof {
        assert(r@ =~= format_item_spec(idx as int, name@, is_current));
    }
    r
}

/// The command summary block.
pub open spec fn help_text_spec() -> Seq<char> {
    repeat_seq("═"@, 60) + "\n"@ + center_padded("🎵 BeatCLI — Console Music Player"@, 60)
        + "\n"@ + repeat_seq("═"@, 60) + "\n\n"@ + repeat_seq("─"@, 20) + " 常用命令 "@
        + repeat_seq("─"@, 20) + "\n"@ + "/help                显示帮助\n"@
        + "/folder <path>       选择音乐文件夹\n"@ + "/list                列出播放列表\n"@
        + "/search <keyword>    搜索歌曲\n"@
        + "/play <N>            播放第 N 首(从1开始)，默认播放第一首\n"@
        + "/pause               暂停\n"@ + "/resume              继续\n"@
        + "/next                下一首\n"@ + "/prev                上一首\n"@
        + "/mode <Sequential|RepeatOne|Shuffle> 切换播放模式\n"@
        + "/volume <0..100>     设置音量\n"@ + "/lyrics              切换歌词显示\n"@
        + "/lmode               切换歌词显示模式(流式/清屏)\n"@
        + "/now                 显示当前播放信息\n"@ + "/quit                退出\n"@
        + repeat_seq("═"@, 60) + "\n\n"@
}

/// Builds the command summary.
pub fn help_text() -> (r: String)
    ensures
        r@ == help_text_spec(),
{
    let mut r = repeat_str("═", 60);
    r.append("\n");
    append_centered(&mut r, "🎵 BeatCLI — Console Music Player", 60);
    r.append("\n");
    let bar = repeat_str("═", 60);
    r.append(bar.as_str());
    r.append("\n\n");
    let dash = repeat_str("─", 20);
    r.append(dash.as_str());
    r.append(" 常用命令 ");
    r.append(dash.as_str());
    r.append("\n");
    r.append("/help                显示帮助\n");
    r.append("/folder <path>       选择音乐文件夹\n");
    r.append("/list                列出播放列表\n");
    r.append("/search <keyword>    搜索歌曲\n");
    r.append("/play <N>            播放第 N 首(从1开始)，默认播放第一首\n");
    r.append("/pause               暂停\n");
    r.append("/resume              继续\n");
    r.append("/next                下一首\n");
    r.append("/prev                上一首\n");
    r.append("/mode <Sequential|RepeatOne|Shuffle> 切换播放模式\n");
    r.append("/volume <0..100>     设置音量\n");
    r.append("/lyrics              切换歌词显示\n");
    r.append("/lmode               切换歌词显示模式(流式/清屏)\n");
    r.append("/now                 显示当前播放信息\n");
    r.append("/quit                退出\n");
    r.append(bar.as_str());
    r.append("\n\n");
    proof {
        assert(r@ =~= help_text_spec());
    }
    r
}

/// The display name of a playback mode.
pub open spec fn mode_name_spec(m: PlaybackMode) -> Seq<char> {
    match m {
        PlaybackMode::Sequential => "顺序播放"@,
        PlaybackMode::RepeatOne => "单曲循环"@,
        PlaybackMode::Shuffle => "随机播放"@,
    }
}

/// The display name of a playback mode.
pub fn mode_name(m: PlaybackMode) -> (r: &'static str)
    ensures
        r@ == mode_name_spec(m),
{
    match m {
        PlaybackMode::Sequential => "顺序播放",
        PlaybackMode::RepeatOne => "单曲循环",
        PlaybackMode::Shuffle => "随机播放",
    }
}

/// The playback-status block: current and next track, mode, volume and
/// playlist size between a header and a footer.
pub open spec fn status_text_spec(
    now_name: Seq<char>,
    next_name: Seq<char>,
    mode: PlaybackMode,
    volume: Option<u8>,
    len: int,
) -> Seq<char> {
    let now = if now_name.len() == 0 {
        "(未播放)"@
    } else {
        now_name
    };
    let next = if next_name.len() == 0 {
        "(无)"@
    } else {
        next_name
    };
    let vol: nat = match volume {
        Some(v) => v as nat,
        None => 50,
    };
    section_header_spec("🎵 播放状态"@, display_width("🎵 播放状态"@)) + "\n  当前播放: "@ + now
        + "\n  下一首:   "@ + next + "\n\n  播放模式: "@ + mode_name_spec(mode) + "    音量: "@
        + dec_str(vol) + "%    播放列表: "@ + dec_str(len as nat) + " 首\n"@ + footer_spec()
}

/// Builds the playback-status block from what is on screen.
pub fn playing_status_text(ui: &UiState, pl_len: usize) -> (r: String)
    ensures
        r@ == status_text_spec(ui.now_name@, ui.next_name@, ui.mode, ui.volume, pl_len as int),
{
    let mut r = create_section_header("🎵 播放状态");
    r.append("\n  当前播放: ");
    if ui.now_name.as_str().unicode_len() == 0 {
        r.append("(未播放)");
    } else {
        r.append(ui.now_name.as_str());
    }
    r.append("\n  下一首:   ");
    if ui.next_name.as_str().unicode_len() == 0 {
        r.append("(无)");
    } else {
        r.append(ui.next_name.as_str());
    }
    r.append("\n\n  播放模式: ");
    r.append(mode_name(ui.mode));
    r.append("    音量: ");
    let vol: u8 = match ui.volume {
        Some(v) => v,
        None => 50,
    };
    let vd = u128_to_string(vol as u128);
    r.append(vd.as_str());
    r.append("%    播放列表: ");
    let ld = usize_to_string(pl_len);
    r.append(ld.as_str());
    r.append(" 首\n");
    let f = create_footer();
    r.append(f.as_str());
    proof {
        assert(r@ =~= status_text_spec(
            ui.now_name@,
            ui.next_name@,
            ui.mode,
            ui.volume,
            pl_len as int,
        ));
    }
    r
}

/// The line index shown for position `ms`: the active line, or the first
/// line when the position is before every timestamp.
pub open spec fn lyric_display_idx(lines: Seq<(u128, String)>, ms: u128) -> int {
    match line_index_at(lines, ms) {
        Some(j) => j,
        None => 0,
    }
}

/// The window of lines drawn around the current one: up to three before and
/// three after.
pub open spec fn window_start(cur: int) -> int {
    if cur >= 3 {
        cur - 3
    } else {
        0
    }
}

pub open spec fn window_end(cur: int, len: int) -> int {
    if cur + 4 <= len {
        cur + 4
    } else {
        len
    }
}

/// One lyric line in the full-interface block: the current line carries the
/// highlight marker.
pub open spec fn block_line_spec(text: Seq<char>, is_cur: bool) -> Seq<char> {
    if is_cur {
        "  \x1b[32m▶ "@ + text + "\x1b[0m\n"@
    } else {
        "    "@ + text + "\n"@
    }
}

/// The window's lines for the full-interface block, from `start` up to `end`.
pub open spec fn block_lines_spec(lines: Seq<(u128, String)>, start: int, end: int, cur: int) -> Seq<
    char,
>
    decreases end - start,
{
    if end <= start {
        Seq::empty()
    } else {
        block_lines_spec(lines, start, end - 1, cur) + block_line_spec(
            lines[end - 1].1@,
            end - 1 == cur,
        )
    }
}

/// The lyric block of the full interface: header, the window of lines, and
/// a footer.
pub open spec fn lyric_block_spec(lines: Seq<(u128, String)>, cur: int) -> Seq<char> {
    section_header_spec("🎶 歌词"@, display_width("🎶 歌词"@)) + block_lines_spec(
        lines,
        window_start(cur),
        window_end(cur, lines.len() as int),
        cur,
    ) + footer_spec()
}

/// Builds the lyric block of the full interface for position `ms`.
pub fn lyric_block_text(ly: &Lyrics, ms: u128) -> (r: String)
    requires
        ly.lines@.len() > 0,
    ensures
        r@ == lyric_block_spec(ly.lines@, lyric_display_idx(ly.lines@, ms)),
{
    let cur: usize = match ly.current_line_index(ms) {
        Some(j) => j,
        None => 0,
    };
    let ghost gcur = lyric_display_idx(ly.lines@, ms);
    let len = ly.lines.len();
    proof {
        crate::lyrics::lemma_line_index_at_props(ly.lines@, ms);
        assert(cur < len);
    }
    let start: usize = if cur >= 3 {
        cur - 3
    } else {
        0
    };
    let end: usize = if len - cur > 4 {
        cur + 4
    } else {
        len
    };
    proof {
        assert(start as int == window_start(gcur));
        assert(end as int == window_end(gcur, ly.lines@.len() as int));
    }
    let mut r = create_section_header("🎶 歌词");
    let ghost header = r@;
    let mut i = start;
    proof {
        assert(r@ =~= header + block_lines_spec(ly.lines@, start as int, start as int, gcur));
    }
    while i < end
        invariant
            start <= i <= end,
            end <= ly.lines@.len(),
            cur as int == gcur,
            r@ == header + block_lines_spec(ly.lines@, start as int, i as int, gcur),
        decreases end - i,
    {
        if i == cur {
            r.append("  \x1b[32m▶ ");
            r.append(ly.lines[i].1.as_str());
            r.append("\x1b[0m\n");
        } else {
            r.append("    ");
            r.append(ly.lines[i].1.as_str());
            r.append("\n");
        }
        proof {
            assert(r@ =~= header + block_lines_spec(ly.lines@, start as int, i + 1, gcur));
        }
        i = i + 1;
    }
    let f = create_footer();
    r.append(f.as_str());
    proof {
        assert(r@ =~= lyric_block_spec(ly.lines@, gcur));
    }
    r
}

/// A cursor-addressing prefix: move to column one of `row`.
pub open spec fn row_cmd_spec(row: int) -> Seq<char> {
    "\x1b["@ + dec_str(row as nat) + ";1H"@
}

/// One lyric line of the streaming buffer, padded to the lyric column
/// width; the current line is bright green, the others grey.
pub open spec fn stream_line_spec(text: Seq<char>, is_cur: bool) -> Seq<char> {
    if is_cur {
        "\x1b[32m\x1b[1m  ▶ "@ + left_aligned(text, 56) + "\x1b[0m"@
    } else {
        "\x1b[90m    "@ + left_aligned(text, 56) + "\x1b[0m"@
    }
}

/// The streamed window: each line written in place at its row below
/// `base_row`.
pub open spec fn stream_lines_spec(
    lines: Seq<(u128, String)>,
    start: int,
    end: int,
    cur: int,
    base_row: int,
) -> Seq<char>
    decreases end - start,
{
    if end <= start {
        Seq::empty()
    } else {
        stream_lines_spec(lines, start, end - 1, cur, base_row) + row_cmd_spec(
            base_row + (end - 1 - start) + 1,
        ) + stream_line_spec(lines[end - 1].1@, end - 1 == cur)
    }
}

/// Blank rows written below the window to clear leftover lines, up to the
/// seven-row lyric region.
pub open spec fn clear_rows_spec(from: int, upto: int, base_row: int) -> Seq<char>
    decreases upto - from,
{
    if upto <= from {
        Seq::empty()
    } else {
        clear_rows_spec(from, upto - 1, base_row) + row_cmd_spec(base_row + (upto - 1) + 1)
            + spaces(60)
    }
}

fn append_row_cmd(r: &mut String, row: u32)
    ensures
        final(r)@ == old(r)@ + row_cmd_spec(row as int),
{
    r.append("\x1b[");
    let d = u128_to_string(row as u128);
    r.append(d.as_str());
    r.append(";1H");
}

fn append_stream_line(r: &mut String, text: &str, is_cur: bool)
    ensures
        final(r)@ == old(r)@ + stream_line_spec(text@, is_cur),
{
    if is_cur {
        r.append("\x1b[32m\x1b[1m  ▶ ");
    } else {
        r.append("\x1b[90m    ");
    }
    append_left_aligned(r, text, 56);
    r.append("\x1b[0m");
}

/// The whole streaming write: save the cursor, rewrite the window's rows
/// (and, when asked, blank the rest of the region), restore the cursor.
pub open spec fn stream_buffer_spec(
    lines: Seq<(u128, String)>,
    start: int,
    end: int,
    cur: int,
    base_row: int,
    include_clear: bool,
) -> Seq<char> {
    "\x1b7"@ + stream_lines_spec(lines, start, end, cur, base_row) + (if include_clear {
        clear_rows_spec(end - start, 7, base_row)
    } else {
        Seq::empty()
    }) + "\x1b8"@
}

/// Builds the streaming write for the window around the current line.
fn stream_buffer(ly: &Lyrics, cur: usize, start: usize, end: usize, base_row: u16, include_clear: bool) -> (r:
    String)
    requires
        start <= end <= ly.lines@.len(),
        end - start <= 7,
    ensures
        r@ == stream_buffer_spec(
            ly.lines@,
            start as int,
            end as int,
            cur as int,
            base_row as int,
            include_clear,
        ),
{
    let mut r = String::from_str("\x1b7");
    let ghost head = r@;
    let mut i = start;
    proof {
        assert(r@ =~= head + stream_lines_spec(
            ly.lines@,
            start as int,
            start as int,
            cur as int,
            base_row as int,
        ));
    }
    while i < end
        invariant
            start <= i <= end,
            end <= ly.lines@.len(),
            end - start <= 7,
            r@ == head + stream_lines_spec(
                ly.lines@,
                start as int,
                i as int,
                cur as int,
                base_row as int,
            ),
        decreases end - i,
    {
        let row: u32 = base_row as u32 + (i - start) as u32 + 1;
        append_row_cmd(&mut r, row);
        append_stream_line(&mut r, ly.lines[i].1.as_str(), i == cur);
        proof {
            assert(r@ =~= head + stream_lines_spec(
                ly.lines@,
                start as int,
                i + 1,
                cur as int,
                base_row as int,
            ));
        }
        i = i + 1;
    }
    let ghost mid = r@;
    if include_clear {
        let from = end - start;
        let mut o = from;
        proof {
            assert(r@ =~= mid + clear_rows_spec(from as int, from as int, base_row as int));
        }
        while o < 7
            invariant
                from <= o,
                from == end - start,
                o <= 7 || o == from,
                r@ == mid + clear_rows_spec(from as int, o as int, base_row as int),
            decreases 7 - o,
        {
            let row: u32 = base_row as u32 + o as u32 + 1;
            append_row_cmd(&mut r, row);
            append_spaces(&mut r, 60);
            proof {
                assert(r@ =~= mid + clear_rows_spec(from as int, o + 1, base_row as int));
            }
            o = o + 1;
        }
        proof {
            if from >= 7 {
                assert(clear_rows_spec(from as int, 7, base_row as int) =~= Seq::<char>::empty());
                assert(r@ =~= mid + clear_rows_spec(from as int, 7, base_row as int));
            }
        }
    }
    r.append("\x1b8");
    proof {
        assert(r@ =~= stream_buffer_spec(
            ly.lines@,
            start as int,
            end as int,
            cur as int,
            base_row as int,
            include_clear,
        ));
    }
    r
}

/// One lyric line in the now-playing snapshot.
pub open spec fn now_line_spec(text: Seq<char>, is_cur: bool) -> Seq<char> {
    if is_cur {
        "  ▶ "@ + text + "\n"@
    } else {
        "    "@ + text + "\n"@
    }
}

/// The snapshot's window of lyric lines, from `start` up to `end`.
pub open spec fn now_lines_spec(lines: Seq<(u128, String)>, start: int, end: int, cur: int) -> Seq<
    char,
>
    decreases end - start,
{
    if end <= start {
        Seq::empty()
    } else {
        now_lines_spec(lines, start, end - 1, cur) + now_line_spec(
            lines[end - 1].1@,
            end - 1 == cur,
        )
    }
}

/// The lyric part of the now-playing snapshot.
pub open spec fn now_lyrics_spec(ui: UiState) -> Seq<char> {
    if !ui.show_lyrics {
        "  歌词: 已关闭\n"@
    } else {
        match ui.lyrics {
            Some(l) => if l.lines@.len() > 0 {
                let cur = lyric_display_idx(l.lines@, ui.current_ms);
                let start: int = if cur >= 2 {
                    cur - 2
                } else {
                    0
                };
                let end: int = if cur + 3 <= l.lines@.len() {
                    cur + 3
                } else {
                    l.lines@.len() as int
                };
                "  歌词: 已加载 ("@ + dec_str(l.lines@.len() as nat) + " 行)\n\n"@ + repeat_seq(
                    "─"@,
                    20,
                ) + " 当前歌词 "@ + repeat_seq("─"@, 19) + "\n"@ + now_lines_spec(
                    l.lines@,
                    start,
                    end,
                    cur,
                )
            } else {
                "  歌词: 文件为空\n"@
            },
            None => "  歌词: 未找到歌词文件\n"@,
        }
    }
}

/// The whole now-playing snapshot: banner, basic facts (track, position in
/// the list, mode, volume, elapsed time) and the lyric context.
pub open spec fn now_playing_spec(ui: UiState, cur_idx: int, pl_len: int) -> Seq<char> {
    repeat_seq("═"@, 60) + "\n"@ + center_padded("🎵 当前播放信息"@, 60) + "\n"@ + repeat_seq(
        "═"@,
        60,
    ) + "\n\n"@ + repeat_seq("─"@, 20) + " 基本信息 "@ + repeat_seq("─"@, 19) + "\n"@
        + "  歌曲: "@ + ui.now_name@ + "\n"@ + "  序号: "@ + dec_str((cur_idx + 1) as nat)
        + " / "@ + dec_str(pl_len as nat) + "\n"@ + "  模式: "@ + mode_name_spec(ui.mode) + "\n"@
        + "  音量: "@ + dec_str(
        match ui.volume {
            Some(v) => v as nat,
            None => 50,
        },
    ) + "%\n"@ + "  播放时间: "@ + crate::text::dec2_str((ui.current_ms / 60000) as nat) + ":"@
        + crate::text::dec2_str(((ui.current_ms % 60000) / 1000) as nat) + "\n\n"@ + repeat_seq(
        "─"@,
        20,
    ) + " 歌词信息 "@ + repeat_seq("─"@, 19) + "\n"@ + now_lyrics_spec(ui) + "\n"@ + repeat_seq(
        "═"@,
        60,
    ) + "\n"@
}

/// Builds the now-playing snapshot.
#[verifier::rlimit(60)]
pub fn now_playing_text(ui: &UiState, cur_idx: usize, pl_len: usize) -> (r: String)
    requires
        cur_idx < usize::MAX,
    ensures
        r@ == now_playing_spec(*ui, cur_idx as int, pl_len as int),
{
    let bar = repeat_str("═", 60);
    let dash20 = repeat_str("─", 20);
    let dash19 = repeat_str("─", 19);
    let mut r = String::new();
    r.append(bar.as_str());
    r.append("\n");
    append_centered(&mut r, "🎵 当前播放信息", 60);
    r.append("\n");
    r.append(bar.as_str());
    r.append("\n\n");
    r.append(dash20.as_str());
    r.append(" 基本信息 ");
    r.append(dash19.as_str());
    r.append("\n");
    r.append("  歌曲: ");
    r.append(ui.now_name.as_str());
    r.append("\n");
    r.append("  序号: ");
    let d1 = usize_to_string(cur_idx + 1);
    r.append(d1.as_str());
    r.append(" / ");
    let d2 = usize_to_string(pl_len);
    r.append(d2.as_str());
    r.append("\n");
    r.append("  模式: ");
    r.append(mode_name(ui.mode));
    r.append("\n");
    r.append("  音量: ");
    let vol: u8 = match ui.volume {
        Some(v) => v,
        None => 50,
    };
    let vd = u128_to_string(vol as u128);
    r.append(vd.as_str());
    r.append("%\n");
    r.append("  播放时间: ");
    let mm = crate::text::u128_to_string2(ui.current_ms / 60000);
    r.append(mm.as_str());
    r.append(":");
    let ss = crate::text::u128_to_string2((ui.current_ms % 60000) / 1000);
    r.append(ss.as_str());
    r.append("\n\n");
    r.append(dash20.as_str());
    r.append(" 歌词信息 ");
    r.append(dash19.as_str());
    r.append("\n");
    if !ui.show_lyrics {
        r.append("  歌词: 已关闭\n");
    } else {
        match &ui.lyrics {
            Some(l) => {
                let len = l.len();
                if len > 0 {
                    let cur: usize = match l.current_line_index(ui.current_ms) {
                        Some(j) => j,
                        None => 0,
                    };
                    proof {
                        crate::lyrics::lemma_line_index_at_props(l.lines@, ui.current_ms);
                    }
                    r.append("  歌词: 已加载 (");
                    let ld = usize_to_string(len);
                    r.append(ld.as_str());
                    r.append(" 行)\n\n");
                    r.append(dash20.as_str());
                    r.append(" 当前歌词 ");
                    r.append(dash19.as_str());
                    r.append("\n");
                    let start: usize = if cur >= 2 {
                        cur - 2
                    } else {
                        0
                    };
                    let end: usize = if len - cur > 3 {
                        cur + 3
                    } else {
                        len
                    };
                    let ghost before = r@;
                    let mut i = start;
                    proof {
                        assert(r@ =~= before + now_lines_spec(
                            l.lines@,
                            start as int,
                            start as int,
                            cur as int,
                        ));
                    }
                    while i < end
                        invariant
                            start <= i <= end,
                            end <= l.lines@.len(),
                            r@ == before + now_lines_spec(
                                l.lines@,
                                start as int,
                                i as int,
                                cur as int,
                            ),
                        decreases end - i,
                    {
                        if i == cur {
                            r.append("  ▶ ");
                        } else {
                            r.append("    ");
                        }
                        r.append(l.lines[i].1.as_str());
                        r.append("\n");
                        proof {
                            assert(r@ =~= before + now_lines_spec(
                                l.lines@,
                                start as int,
                                i + 1,
                                cur as int,
                            ));
                        }
                        i = i + 1;
                    }
                } else {
                    r.append("  歌词: 文件为空\n");
                }
            },
            None => {
                r.append("  歌词: 未找到歌词文件\n");
            },
        }
    }
    r.append("\n");
    r.append(bar.as_str());
    r.append("\n");
    proof {
        assert(r@ =~= now_playing_spec(*ui, cur_idx as int, pl_len as int));
    }
    r
}

/// The severity marker put before a flash message.
pub open spec fn flash_marker_spec(lv: FlashLevel) -> Seq<char> {
    match lv {
        FlashLevel::Info => "ℹ "@,
        FlashLevel::Okay => "✓ "@,
        FlashLevel::Error => "✗ "@,
    }
}

/// The severity marker put before a flash message.
pub fn flash_marker(lv: FlashLevel) -> (r: &'static str)
    ensures
        r@ == flash_marker_spec(lv),
{
    match lv {
        FlashLevel::Info => "ℹ ",
        FlashLevel::Okay => "✓ ",
        FlashLevel::Error => "✗ ",
    }
}

/// Whether the given lyric block belongs with the status block: present
/// exactly when lyrics are shown, loaded and non-empty, holding the window
/// around the line active at the current position.
pub open spec fn lyric_block_opt(ui: UiState, lyr: Option<String>) -> bool {
    match ui.lyrics {
        Some(l) => if ui.show_lyrics && l.lines@.len() > 0 {
            lyr matches Some(s) && s@ == lyric_block_spec(
                l.lines@,
                lyric_display_idx(l.lines@, ui.current_ms),
            )
        } else {
            lyr is None
        },
        None => lyr is None,
    }
}

/// Builds the full playing interface: the status block and, when shown, the
/// lyric block.
pub fn interface_text(ui: &UiState, pl_len: usize) -> (r: (String, Option<String>))
    ensures
        r.0@ == status_text_spec(ui.now_name@, ui.next_name@, ui.mode, ui.volume, pl_len as int),
        lyric_block_opt(*ui, r.1),
{
    let status = playing_status_text(ui, pl_len);
    let lyr: Option<String> = if ui.show_lyrics {
        match &ui.lyrics {
            Some(l) => {
                if l.len() > 0 {
                    Some(lyric_block_text(l, ui.current_ms))
                } else {
                    None
                }
            },
            None => None,
        }
    } else {
        None
    };
    (status, lyr)
}

/// A newly computed lyric line differs from the one last drawn, while the
/// playing interface shows lyrics.
pub open spec fn lyric_change_pending(ui: UiState) -> bool {
    &&& ui.playing_ui_active
    &&& ui.show_lyrics
    &&& (match ui.lyrics {
        Some(l) => l.lines@.len() > 0 && (match ui.current_lyric_line {
            Some(o) => o as int != lyric_display_idx(l.lines@, ui.current_ms),
            None => true,
        }),
        None => false,
    })
}

/// One terminal update, decided from the interface state.
pub enum DrawPlan {
    /// The welcome banner and its hint text.
    Welcome(String, String),
    /// Clear the screen and draw the full playing interface.
    EnterPlaying(String, Option<String>),
    /// Write this buffer as is: it repositions the cursor itself.
    StreamLyrics(String),
    /// Clear the screen and draw the full playing interface again.
    FullLyricsRedraw(String, Option<String>),
    /// A severity marker, its level, the message, and whether to show the
    /// input prompt after it.
    Flash(String, FlashLevel, String, bool),
    Nothing,
}

/// The relation that one draw step establishes between the interface
/// state before (`u0`) and after (`u1`), the playlist length, and the plan.
pub open spec fn draw_transition(u0: UiState, u1: UiState, pl_len: int, r: DrawPlan) -> bool {
    &&& (u1.wf())
    &&& (u0.show_welcome ==> (u1 == u0 && (r matches DrawPlan::Welcome(tb, tail)
            && tb@ == title_bar_spec(
            "🎵 BeatCLI — Console Music Player"@,
            display_width("🎵 BeatCLI — Console Music Player"@),
        ) && tail@ == "\n      输入 /help 查看命令，/folder <path> 选择音乐目录\n\n>>： "@)))
    &&& ((!u0.show_welcome && u0.now_index is Some && !u0.playing_ui_active) ==> (
        u1 == (UiState { playing_ui_active: true, ..u0 }) && (r matches
            DrawPlan::EnterPlaying(st, lyr) && st@ == status_text_spec(
            u0.now_name@,
            u0.next_name@,
            u0.mode,
            u0.volume,
            pl_len,
        ) && lyric_block_opt(u0, lyr))))
    &&& ((!u0.show_welcome && !(u0.now_index is Some && !u0.playing_ui_active)
            && lyric_change_pending(u0)) ==> (match u0.lyrics {
            Some(l) => ({
                let cur = lyric_display_idx(l.lines@, u0.current_ms);
                let ws = window_start(cur);
                let we = window_end(cur, l.lines@.len() as int);
                &&& (u0.lyrics_stream_mode ==> ({
                    &&& (u0.last_lyrics_range == Some(
                        (ws as usize, we as usize),
                    ) ==> (u1 == (UiState {
                        current_lyric_line: Some(cur as usize),
                        ..u0
                    }) && (r matches DrawPlan::StreamLyrics(b) && b@ == stream_buffer_spec(
                        l.lines@,
                        ws,
                        we,
                        cur,
                        u0.lyrics_base_row->Some_0 as int,
                        false,
                    ))))
                    &&& (u0.last_lyrics_range != Some((ws as usize, we as usize)) ==> ({
                        let base: int = match u0.lyrics_base_row {
                            Some(b) => b as int,
                            None => 10,
                        };
                        &&& u1 == (UiState {
                            current_lyric_line: Some(cur as usize),
                            lyrics_base_row: Some(base as u16),
                            last_lyrics_range: Some((ws as usize, we as usize)),
                            ..u0
                        })
                        &&& (r matches DrawPlan::StreamLyrics(b2) && b2@ == stream_buffer_spec(
                            l.lines@,
                            ws,
                            we,
                            cur,
                            base,
                            true,
                        ))
                    }))
                }))
                &&& (!u0.lyrics_stream_mode ==> (u1 == (UiState {
                    current_lyric_line: Some(cur as usize),
                    ..u0
                }) && (r matches DrawPlan::FullLyricsRedraw(st, lyr) && st@ == status_text_spec(
                    u0.now_name@,
                    u0.next_name@,
                    u0.mode,
                    u0.volume,
                    pl_len,
                ) && lyric_block_opt(u0, lyr))))
            }),
            None => true,
        }))
    &&& ((!u0.show_welcome && !(u0.now_index is Some && !u0.playing_ui_active)
            && !lyric_change_pending(u0)) ==> (match u0.flash {
            Some((m, lv)) => u1 == (UiState { flash: None, ..u0 }) && (r matches
                DrawPlan::Flash(prefix, lv2, msg, prompt) && prefix@ == flash_marker_spec(lv)
                && lv2 == lv && msg == m && prompt == u0.playing_ui_active),
            None => u1 == u0 && r == DrawPlan::Nothing,
        }))
}

/// Decides the next terminal update and advances the redraw bookkeeping:
/// the welcome banner on a fresh screen; a full draw when playback starts;
/// in steady state, a rewrite of only the lyric window (or only its
/// highlighting, when the window has not moved); otherwise any pending
/// flash message, consumed once.
pub fn plan_draw(ui: &mut UiState, pl_len: usize) -> (r: DrawPlan)
    requires
        old(ui).wf(),
    ensures
        draw_transition(*old(ui), *final(ui), pl_len as int, r),
{
    if ui.show_welcome {
        let tb = create_title_bar("🎵 BeatCLI — Console Music Player");
        let tail = String::from_str(
            "\n      输入 /help 查看命令，/folder <path> 选择音乐目录\n\n>>： ",
        );
        return DrawPlan::Welcome(tb, tail);
    }
    if ui.now_index.is_some() && !ui.playing_ui_active {
        ui.playing_ui_active = true;
        let parts = interface_text(ui, pl_len);
        return DrawPlan::EnterPlaying(parts.0, parts.1);
    }
    let mut change: bool = false;
    let mut cur: usize = 0;
    if ui.playing_ui_active && ui.show_lyrics {
        match &ui.lyrics {
            Some(l) => {
                if l.len() > 0 {
                    cur = match l.current_line_index(ui.current_ms) {
                        Some(j) => j,
                        None => 0,
                    };
                    change = match ui.current_lyric_line {
                        Some(o) => o != cur,
                        None => true,
                    };
                    proof {
                        crate::lyrics::lemma_line_index_at_props(l.lines@, ui.current_ms);
                    }
                }
            },
            None => {},
        }
    }
    if change {
        ui.current_lyric_line = Some(cur);
        match &ui.lyrics {
            Some(l) => {
                let len = l.len();
                let start: usize = if cur >= 3 {
                    cur - 3
                } else {
                    0
                };
                let end: usize = if len - cur > 4 {
                    cur + 4
                } else {
                    len
                };
                if ui.lyrics_stream_mode {
                    let same = match ui.last_lyrics_range {
                        Some((a, b)) => a == start && b == end,
                        None => false,
                    };
                    if same {
                        let base = match ui.lyrics_base_row {
                            Some(b) => b,
                            None => 10,
                        };
                        let buf = stream_buffer(l, cur, start, end, base, false);
                        return DrawPlan::StreamLyrics(buf);
                    }
                    let base = match ui.lyrics_base_row {
                        Some(b) => b,
                        None => 10,
                    };
                    ui.lyrics_base_row = Some(base);
                    ui.last_lyrics_range = Some((start, end));
                    let buf = stream_buffer(l, cur, start, end, base, true);
                    return DrawPlan::StreamLyrics(buf);
                }
                let parts = interface_text(ui, pl_len);
                return DrawPlan::FullLyricsRedraw(parts.0, parts.1);
            },
            None => {},
        }
    }
    match &ui.flash {
        Some((m, lv)) => {
            let marker = String::from_str(flash_marker(*lv));
            let msg = m.clone();
            let level = *lv;
            let prompt = ui.playing_ui_active;
            ui.flash = None;
            DrawPlan::Flash(marker, level, msg, prompt)
        },
        None => DrawPlan::Nothing,
    }
}

/// The terminal screen, drawn through plans: each call to `draw` decides
/// one update from the interface state; the caller carries the plan out.
pub struct Screen;

impl Screen {
    pub fn new() -> (r: Self)
        ensures
            true,
    {
        Screen
    }

    /// Decides the next terminal update; see `plan_draw`.
    pub fn draw(&mut self, ui: &mut UiState, pl_len: usize) -> (r: DrawPlan)
        requires
            old(ui).wf(),
        ensures
            draw_transition(*old(ui), *final(ui), pl_len as int, r),
    {
        plan_draw(ui, pl_len)
    }
}

} // verus!
