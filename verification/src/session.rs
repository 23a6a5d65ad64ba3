//! Session logic: applying a parsed command to the playlist and interface
//! state, reacting to the periodic playback poll, and recording a newly
//! started track. All audio and terminal work is reported back as effects
//! for the caller to perform.

use crate::command::Command;
use crate::lyrics::Lyrics;
use crate::playlist::{base_name, base_name_of, sequential_next, PlaybackMode, Playlist};
use crate::render::{
    format_item_spec, help_text, help_text_spec, now_playing_spec, now_playing_text,
};
use crate::text::{dec_str, usize_to_string};
use crate::ui::{FlashLevel, UiState};
use vstd::prelude::*;

verus! {

/// Work for the caller: show a message, drive the audio backend, or redraw.
pub enum Effect {
    Flash(String, FlashLevel),
    PlayerPause,
    PlayerResume,
    PlayerSetVolume(u8),
    Refresh,
}

/// How a track came to start: an explicit play command, manual navigation,
/// or automatic advance when the previous track finished.
#[derive(Debug, Clone, Copy, PartialEq, Eq, Structural)]
pub enum NavKind {
    Explicit,
    Next,
    Prev,
    Auto,
}

/// What a command asks the caller to do beyond the returned effects:
/// nothing, start the track at an index (for `Explicit` the caller must
/// first check that the file exists), or scan a folder.
pub enum CommandOutcome {
    Done(Vec<Effect>),
    StartTrack(usize, NavKind),
    RequestScan(String),
}

/// A display name, with a fallback for paths that yield none.
pub open spec fn display_name(b: Seq<char>) -> Seq<char> {
    if b.len() == 0 {
        "(未知文件名)"@
    } else {
        b
    }
}

/// The playlist listing's rows, up to row `upto`.
pub open spec fn list_rows_spec(items: Seq<String>, current: Option<usize>, upto: int) -> Seq<char>
    decreases upto,
{
    if upto <= 0 {
        Seq::empty()
    } else {
        list_rows_spec(items, current, upto - 1) + format_item_spec(
            upto - 1,
            display_name(base_name_of(items[upto - 1]@)),
            current == Some((upto - 1) as usize),
        )
    }
}

/// A search result's display name, with its fallback.
pub open spec fn search_name(b: Seq<char>) -> Seq<char> {
    if b.len() == 0 {
        "未知文件名"@
    } else {
        b
    }
}

/// The search listing's rows, up to row `upto`.
pub open spec fn search_rows_spec(rows: Seq<(usize, String)>, upto: int) -> Seq<char>
    decreases upto,
{
    if upto <= 0 {
        Seq::empty()
    } else {
        search_rows_spec(rows, upto - 1) + "  "@ + dec_str((rows[upto - 1].0 + 1) as nat) + ". "@
            + search_name(base_name_of(rows[upto - 1].1@)) + "\n"@
    }
}

fn one_flash(msg: String, lv: FlashLevel) -> (r: Vec<Effect>)
    ensures
        r@.len() == 1,
        r@[0] matches Effect::Flash(m, l) && m == msg && l == lv,
{
    let mut r: Vec<Effect> = Vec::new();
    r.push(Effect::Flash(msg, lv));
    r
}

fn flash_lit(msg: &str, lv: FlashLevel) -> (r: Vec<Effect>)
    ensures
        r@.len() == 1,
        r@[0] matches Effect::Flash(m, l) && m@ == msg@ && l == lv,
{
    one_flash(String::from_str(msg), lv)
}

/// The message shown when the playlist is empty and a command needs songs.
pub open spec fn empty_playlist_msg() -> Seq<char> {
    "播放列表为空，请先使用 /folder 添加歌曲"@
}

/// The outcome is exactly one flash message.
pub open spec fn is_flash(r: CommandOutcome, m: Seq<char>, lv: FlashLevel) -> bool {
    r matches CommandOutcome::Done(e) && e@.len() == 1 && (e@[0] matches Effect::Flash(s, l) && s@
        == m && l == lv)
}

/// The outcome is one flash message followed by a redraw.
pub open spec fn is_flash_refresh(r: CommandOutcome, m: Seq<char>, lv: FlashLevel) -> bool {
    r matches CommandOutcome::Done(e) && e@.len() == 2 && (e@[0] matches Effect::Flash(s, l) && s@
        == m && l == lv) && e@[1] == Effect::Refresh
}

/// The display label of a mode in mode-switch messages.
pub open spec fn mode_label_spec(m: PlaybackMode) -> Seq<char> {
    match m {
        PlaybackMode::Sequential => "顺序播放模式"@,
        PlaybackMode::RepeatOne => "单曲循环模式"@,
        PlaybackMode::Shuffle => "随机播放模式"@,
    }
}

fn mode_label(m: PlaybackMode) -> (r: &'static str)
    ensures
        r@ == mode_label_spec(m),
{
    match m {
        PlaybackMode::Sequential => "顺序播放模式",
        PlaybackMode::RepeatOne => "单曲循环模式",
        PlaybackMode::Shuffle => "随机播放模式",
    }
}

fn cmd_help() -> (r: CommandOutcome)
    ensures
        is_flash(r, help_text_spec(), FlashLevel::Info),
{
    CommandOutcome::Done(one_flash(help_text(), FlashLevel::Info))
}

fn cmd_unknown(s: String) -> (r: CommandOutcome)
    ensures
        is_flash(r, "未知命令: "@ + s@ + "\n输入 /help 查看帮助。"@, FlashLevel::Error),
{
    let mut msg = String::from_str("未知命令: ");
    msg.append(s.as_str());
    msg.append("\n输入 /help 查看帮助。");
    CommandOutcome::Done(one_flash(msg, FlashLevel::Error))
}

fn cmd_folder(p: String) -> (r: CommandOutcome)
    ensures
        crate::text::trim_of(p@).len() == 0 ==> is_flash(
            r,
            "路径不能为空，请指定有效的文件夹路径"@,
            FlashLevel::Error,
        ),
        crate::text::trim_of(p@).len() > 0 ==> (r matches CommandOutcome::RequestScan(q) && q
            == p),
{
    let t = crate::text::trim_str(p.as_str());
    if t.unicode_len() == 0 {
        CommandOutcome::Done(
            flash_lit("路径不能为空，请指定有效的文件夹路径", FlashLevel::Error),
        )
    } else {
        CommandOutcome::RequestScan(p)
    }
}

fn cmd_list(pl: &Playlist) -> (r: CommandOutcome)
    requires
        pl.wf(),
    ensures
        pl.items@.len() == 0 ==> is_flash(
            r,
            "(空播放列表)\n请先使用 /folder <path> 选择目录"@,
            FlashLevel::Info,
        ),
        pl.items@.len() > 0 ==> is_flash(
            r,
            "播放列表:\n"@ + list_rows_spec(pl.items@, pl.current, pl.items@.len() as int),
            FlashLevel::Info,
        ),
{
    let len = pl.items.len();
    if len == 0 {
        CommandOutcome::Done(
            flash_lit("(空播放列表)\n请先使用 /folder <path> 选择目录", FlashLevel::Info),
        )
    } else {
        let mut msg = String::from_str("播放列表:\n");
        let ghost head = msg@;
        let mut i: usize = 0;
        proof {
            assert(msg@ =~= head + list_rows_spec(pl.items@, pl.current, 0));
        }
        while i < len
            invariant
                i <= len,
                len == pl.items@.len(),
                pl.wf(),
                msg@ == head + list_rows_spec(pl.items@, pl.current, i as int),
            decreases len - i,
        {
            let name = base_name(&pl.items[i]);
            let is_cur = match pl.current {
                Some(c) => c == i,
                None => false,
            };
            let row = if name.unicode_len() == 0 {
                crate::render::format_item(i, "(未知文件名)", is_cur)
            } else {
                crate::render::format_item(i, name, is_cur)
            };
            msg.append(row.as_str());
            proof {
                assert(msg@ =~= head + list_rows_spec(pl.items@, pl.current, i + 1));
            }
            i = i + 1;
        }
        CommandOutcome::Done(one_flash(msg, FlashLevel::Info))
    }
}

fn cmd_play(pl: &Playlist, i: usize) -> (r: CommandOutcome)
    ensures
        ({
            let len = pl.items@.len();
            if len == 0 {
                is_flash(r, empty_playlist_msg(), FlashLevel::Error)
            } else if i > len {
                is_flash(
                    r,
                    "歌曲序号超出范围，当前播放列表有 "@ + dec_str(len) + " 首歌曲，请输入 1-"@
                        + dec_str(len) + " 之间的数字"@,
                    FlashLevel::Error,
                )
            } else {
                r matches CommandOutcome::StartTrack(idx, k) && k == NavKind::Explicit && (
                idx as int) == (if i > 0 {
                    i - 1
                } else {
                    0int
                })
            }
        }),
{
    let len = pl.items.len();
    if len == 0 {
        CommandOutcome::Done(
            flash_lit("播放列表为空，请先使用 /folder 添加歌曲", FlashLevel::Error),
        )
    } else if i > len {
        let ld = usize_to_string(len);
        let mut msg = String::from_str("歌曲序号超出范围，当前播放列表有 ");
        msg.append(ld.as_str());
        msg.append(" 首歌曲，请输入 1-");
        msg.append(ld.as_str());
        msg.append(" 之间的数字");
        CommandOutcome::Done(one_flash(msg, FlashLevel::Error))
    } else {
        let idx = if i > 0 {
            i - 1
        } else {
            0
        };
        CommandOutcome::StartTrack(idx, NavKind::Explicit)
    }
}

fn cmd_next(pl: &mut Playlist) -> (r: CommandOutcome)
    requires
        old(pl).wf(),
    ensures
        final(pl).wf(),
        final(pl).items@ == old(pl).items@,
        final(pl).mode == old(pl).mode,
        ({
            let len = old(pl).items@.len();
            &&& (len == 0 ==> is_flash(r, empty_playlist_msg(), FlashLevel::Error) && *final(pl)
                == *old(pl))
            &&& (len == 1 ==> is_flash(
                r,
                "只有一首歌曲，无法切换到下一首"@,
                FlashLevel::Info,
            ) && *final(pl) == *old(pl))
            &&& (len > 1 ==> (match old(pl).mode {
                PlaybackMode::Sequential => r matches CommandOutcome::StartTrack(idx, k) && k
                    == NavKind::Next && (idx as int) == sequential_next(
                    old(pl).current,
                    len as int,
                ) && final(pl).current == Some(idx),
                PlaybackMode::RepeatOne => (match old(pl).current {
                    Some(c) => r matches CommandOutcome::StartTrack(idx, k) && k == NavKind::Next
                        && idx == c && final(pl).current == Some(c),
                    None => is_flash(r, "无法获取下一首歌曲"@, FlashLevel::Error) && *final(pl)
                        == *old(pl),
                }),
                PlaybackMode::Shuffle => r matches CommandOutcome::StartTrack(idx, k) && k
                    == NavKind::Next && idx < len && (old(pl).current matches Some(c) ==> idx != c)
                    && final(pl).current == Some(idx),
            }))
        }),
{
    let len = pl.items.len();
    if len == 0 {
        CommandOutcome::Done(
            flash_lit("播放列表为空，请先使用 /folder 添加歌曲", FlashLevel::Error),
        )
    } else if len == 1 {
        CommandOutcome::Done(flash_lit("只有一首歌曲，无法切换到下一首", FlashLevel::Info))
    } else {
        match pl.next_index() {
            Some(idx) => {
                pl.current = Some(idx);
                CommandOutcome::StartTrack(idx, NavKind::Next)
            },
            None => {
                match pl.mode {
                    PlaybackMode::Sequential => CommandOutcome::Done(
                        flash_lit("已经是最后一首，顺序播放模式下不循环", FlashLevel::Info),
                    ),
                    _ => CommandOutcome::Done(
                        flash_lit("无法获取下一首歌曲", FlashLevel::Error),
                    ),
                }
            },
        }
    }
}

fn cmd_prev(pl: &mut Playlist) -> (r: CommandOutcome)
    requires
        old(pl).wf(),
    ensures
        final(pl).wf(),
        final(pl).items@ == old(pl).items@,
        final(pl).mode == old(pl).mode,
        ({
            let len = old(pl).items@.len();
            &&& (len == 0 ==> is_flash(r, empty_playlist_msg(), FlashLevel::Error) && *final(pl)
                == *old(pl))
            &&& (len == 1 ==> is_flash(
                r,
                "只有一首歌曲，无法切换到上一首"@,
                FlashLevel::Info,
            ) && *final(pl) == *old(pl))
            &&& (len > 1 ==> (match old(pl).mode {
                PlaybackMode::Shuffle => r matches CommandOutcome::StartTrack(idx, k) && k
                    == NavKind::Prev && idx < len && (old(pl).current matches Some(c) ==> idx != c)
                    && final(pl).current == Some(idx),
                _ => r matches CommandOutcome::StartTrack(idx, k) && k == NavKind::Prev && (
                idx as int) == crate::playlist::wrap_prev(
                    match old(pl).current {
                        Some(c) => c as int,
                        None => 0,
                    },
                    len as int,
                ) && final(pl).current == Some(idx),
            }))
        }),
{
    let len = pl.items.len();
    if len == 0 {
        CommandOutcome::Done(
            flash_lit("播放列表为空，请先使用 /folder 添加歌曲", FlashLevel::Error),
        )
    } else if len == 1 {
        CommandOutcome::Done(flash_lit("只有一首歌曲，无法切换到上一首", FlashLevel::Info))
    } else {
        match pl.prev_index() {
            Some(idx) => {
                pl.current = Some(idx);
                CommandOutcome::StartTrack(idx, NavKind::Prev)
            },
            None => {
                match pl.mode {
                    PlaybackMode::Sequential => CommandOutcome::Done(
                        flash_lit("已经是第一首，顺序播放模式下不循环", FlashLevel::Info),
                    ),
                    _ => CommandOutcome::Done(
                        flash_lit("无法获取上一首歌曲", FlashLevel::Error),
                    ),
                }
            },
        }
    }
}

fn cmd_pause(pl: &Playlist) -> (r: CommandOutcome)
    ensures
        pl.items@.len() == 0 ==> is_flash(r, empty_playlist_msg(), FlashLevel::Error),
        pl.items@.len() > 0 && pl.current is None ==> is_flash(
            r,
            "没有正在播放的歌曲"@,
            FlashLevel::Error,
        ),
        pl.items@.len() > 0 && pl.current is Some ==> (r matches CommandOutcome::Done(e)
            && e@.len() == 2 && e@[0] == Effect::PlayerPause && (e@[1] matches Effect::Flash(s, l)
            && s@ == "已暂停"@ && l == FlashLevel::Okay)),
{
    if pl.items.len() == 0 {
        CommandOutcome::Done(
            flash_lit("播放列表为空，请先使用 /folder 添加歌曲", FlashLevel::Error),
        )
    } else if pl.current.is_none() {
        CommandOutcome::Done(flash_lit("没有正在播放的歌曲", FlashLevel::Error))
    } else {
        let mut e: Vec<Effect> = Vec::new();
        e.push(Effect::PlayerPause);
        e.push(Effect::Flash(String::from_str("已暂停"), FlashLevel::Okay));
        CommandOutcome::Done(e)
    }
}

fn cmd_resume(pl: &Playlist) -> (r: CommandOutcome)
    ensures
        pl.items@.len() == 0 ==> is_flash(r, empty_playlist_msg(), FlashLevel::Error),
        pl.items@.len() > 0 && pl.current is None ==> is_flash(
            r,
            "没有正在播放的歌曲"@,
            FlashLevel::Error,
        ),
        pl.items@.len() > 0 && pl.current is Some ==> (r matches CommandOutcome::Done(e)
            && e@.len() == 2 && e@[0] == Effect::PlayerResume && (e@[1] matches Effect::Flash(s, l)
            && s@ == "继续播放"@ && l == FlashLevel::Okay)),
{
    if pl.items.len() == 0 {
        CommandOutcome::Done(
            flash_lit("播放列表为空，请先使用 /folder 添加歌曲", FlashLevel::Error),
        )
    } else if pl.current.is_none() {
        CommandOutcome::Done(flash_lit("没有正在播放的歌曲", FlashLevel::Error))
    } else {
        let mut e: Vec<Effect> = Vec::new();
        e.push(Effect::PlayerResume);
        e.push(Effect::Flash(String::from_str("继续播放"), FlashLevel::Okay));
        CommandOutcome::Done(e)
    }
}

fn cmd_volume(pl: &Playlist, ui: &mut UiState, v: u8) -> (r: CommandOutcome)
    ensures
        pl.items@.len() == 0 ==> is_flash(r, empty_playlist_msg(), FlashLevel::Error) && *final(ui)
            == *old(ui),
        pl.items@.len() > 0 && pl.current is None ==> is_flash(
            r,
            "当前没有播放歌曲，无法调节音量"@,
            FlashLevel::Error,
        ) && *final(ui) == *old(ui),
        pl.items@.len() > 0 && pl.current is Some ==> (*final(ui) == (UiState {
            volume: Some(v),
            ..*old(ui)
        }) && (r matches CommandOutcome::Done(e) && e@.len() == 2 && e@[0]
            == Effect::PlayerSetVolume(v) && (e@[1] matches Effect::Flash(s, l) && s@
            == "音量设置为: "@ + dec_str(v as nat) + "%"@ && l == FlashLevel::Okay))),
{
    if pl.items.len() == 0 {
        CommandOutcome::Done(
            flash_lit("播放列表为空，请先使用 /folder 添加歌曲", FlashLevel::Error),
        )
    } else if pl.current.is_none() {
        CommandOutcome::Done(
            flash_lit("当前没有播放歌曲，无法调节音量", FlashLevel::Error),
        )
    } else {
        ui.volume = Some(v);
        let mut msg = String::from_str("音量设置为: ");
        let vd = crate::text::u128_to_string(v as u128);
        msg.append(vd.as_str());
        msg.append("%");
        let mut e: Vec<Effect> = Vec::new();
        e.push(Effect::PlayerSetVolume(v));
        e.push(Effect::Flash(msg, FlashLevel::Okay));
        CommandOutcome::Done(e)
    }
}

fn cmd_lyrics(pl: &Playlist, ui: &mut UiState) -> (r: CommandOutcome)
    ensures
        pl.current is None ==> is_flash(
            r,
            "当前没有播放歌曲，无法操作歌词显示"@,
            FlashLevel::Error,
        ) && *final(ui) == *old(ui),
        pl.current is Some ==> (*final(ui) == (UiState {
            show_lyrics: !old(ui).show_lyrics,
            ..*old(ui)
        }) && (if !old(ui).show_lyrics {
            match old(ui).lyrics {
                Some(l) => if l.lines@.len() > 0 {
                    is_flash_refresh(
                        r,
                        "歌词已显示，已加载 "@ + dec_str(l.lines@.len()) + " 行歌词"@,
                        FlashLevel::Okay,
                    )
                } else {
                    is_flash_refresh(r, "歌词已显示，但歌词文件为空"@, FlashLevel::Info)
                },
                None => is_flash_refresh(
                    r,
                    "歌词已显示，但未找到歌词文件"@,
                    FlashLevel::Info,
                ),
            }
        } else {
            is_flash_refresh(r, "歌词已隐藏"@, FlashLevel::Okay)
        })),
{
    if pl.current.is_none() {
        CommandOutcome::Done(
            flash_lit("当前没有播放歌曲，无法操作歌词显示", FlashLevel::Error),
        )
    } else {
        ui.toggle_lyrics();
        let mut e: Vec<Effect>;
        if ui.show_lyrics {
            match &ui.lyrics {
                Some(l) => {
                    if l.len() > 0 {
                        let mut msg = String::from_str("歌词已显示，已加载 ");
                        let nd = usize_to_string(l.len());
                        msg.append(nd.as_str());
                        msg.append(" 行歌词");
                        e = one_flash(msg, FlashLevel::Okay);
                    } else {
                        e = flash_lit("歌词已显示，但歌词文件为空", FlashLevel::Info);
                    }
                },
                None => {
                    e = flash_lit("歌词已显示，但未找到歌词文件", FlashLevel::Info);
                },
            }
        } else {
            e = flash_lit("歌词已隐藏", FlashLevel::Okay);
        }
        e.push(Effect::Refresh);
        CommandOutcome::Done(e)
    }
}

fn cmd_lyrics_mode(pl: &Playlist, ui: &mut UiState) -> (r: CommandOutcome)
    ensures
        pl.current is None ==> is_flash(
            r,
            "当前没有播放歌曲，无法切换歌词显示模式"@,
            FlashLevel::Error,
        ) && *final(ui) == *old(ui),
        pl.current is Some ==> (*final(ui) == (UiState {
            lyrics_stream_mode: !old(ui).lyrics_stream_mode,
            lyrics_base_row: None,
            status_base_row: None,
            last_lyrics_range: None,
            ..*old(ui)
        }) && is_flash_refresh(
            r,
            "歌词显示模式已切换为: "@ + (if !old(ui).lyrics_stream_mode {
                "流式输出"@
            } else {
                "清屏刷新"@
            }),
            FlashLevel::Okay,
        )),
{
    if pl.current.is_none() {
        CommandOutcome::Done(
            flash_lit("当前没有播放歌曲，无法切换歌词显示模式", FlashLevel::Error),
        )
    } else {
        ui.toggle_lyrics_mode();
        let mut msg = String::from_str("歌词显示模式已切换为: ");
        if ui.lyrics_stream_mode {
            msg.append("流式输出");
        } else {
            msg.append("清屏刷新");
        }
        let mut e = one_flash(msg, FlashLevel::Okay);
        e.push(Effect::Refresh);
        CommandOutcome::Done(e)
    }
}

fn cmd_now(pl: &Playlist, ui: &UiState) -> (r: CommandOutcome)
    requires
        pl.wf(),
    ensures
        pl.items@.len() == 0 ==> is_flash(r, empty_playlist_msg(), FlashLevel::Error),
        pl.items@.len() > 0 ==> (match pl.current {
            Some(c) => is_flash(
                r,
                now_playing_spec(*ui, c as int, pl.items@.len() as int),
                FlashLevel::Info,
            ),
            None => is_flash(
                r,
                "当前没有播放歌曲，使用 /play 开始播放"@,
                FlashLevel::Info,
            ),
        }),
{
    let len = pl.items.len();
    if len == 0 {
        CommandOutcome::Done(
            flash_lit("播放列表为空，请先使用 /folder 添加歌曲", FlashLevel::Error),
        )
    } else {
        match pl.current {
            Some(c) => {
                let msg = now_playing_text(ui, c, len);
                CommandOutcome::Done(one_flash(msg, FlashLevel::Info))
            },
            None => CommandOutcome::Done(
                flash_lit("当前没有播放歌曲，使用 /play 开始播放", FlashLevel::Info),
            ),
        }
    }
}

fn cmd_search(pl: &Playlist, q: String) -> (r: CommandOutcome)
    requires
        pl.wf(),
    ensures
        pl.items@.len() == 0 ==> is_flash(r, empty_playlist_msg(), FlashLevel::Error),
        pl.items@.len() > 0 ==> ({
            let rows = Seq::new(pl.items@.len(), |i: int| (i as usize, pl.items@[i])).filter(
                crate::playlist::search_pred(q@),
            );
            if rows.len() == 0 {
                is_flash(r, "没有找到包含 '"@ + q@ + "' 的歌曲"@, FlashLevel::Info)
            } else {
                is_flash(
                    r,
                    "搜索 '"@ + q@ + "' 的结果：\n"@ + search_rows_spec(rows, rows.len() as int)
                        + "\n使用 /play <N> 播放指定歌曲"@,
                    FlashLevel::Info,
                )
            }
        }),
{
    if pl.items.len() == 0 {
        CommandOutcome::Done(
            flash_lit("播放列表为空，请先使用 /folder 添加歌曲", FlashLevel::Error),
        )
    } else {
        let results = pl.search(q.as_str());
        if results.len() == 0 {
            let mut msg = String::from_str("没有找到包含 '");
            msg.append(q.as_str());
            msg.append("' 的歌曲");
            CommandOutcome::Done(one_flash(msg, FlashLevel::Info))
        } else {
            let mut msg = String::from_str("搜索 '");
            msg.append(q.as_str());
            msg.append("' 的结果：\n");
            let ghost head = msg@;
            let rn = results.len();
            let mut k: usize = 0;
            proof {
                assert(msg@ =~= head + search_rows_spec(results@, 0));
            }
            while k < rn
                invariant
                    k <= rn,
                    rn == results@.len(),
                    msg@ == head + search_rows_spec(results@, k as int),
                decreases rn - k,
            {
                msg.append("  ");
                let d = crate::text::u128_to_string(results[k].0 as u128 + 1);
                msg.append(d.as_str());
                msg.append(". ");
                let name = base_name(&results[k].1);
                if name.unicode_len() == 0 {
                    msg.append("未知文件名");
                } else {
                    msg.append(name);
                }
                msg.append("\n");
                proof {
                    assert(msg@ =~= head + search_rows_spec(results@, k + 1));
                }
                k = k + 1;
            }
            msg.append("\n使用 /play <N> 播放指定歌曲");
            CommandOutcome::Done(one_flash(msg, FlashLevel::Info))
        }
    }
}

fn cmd_mode(pl: &mut Playlist, ui: &mut UiState, m: PlaybackMode) -> (r: CommandOutcome)
    requires
        old(pl).wf(),
    ensures
        final(pl).wf(),
        final(pl).items@ == old(pl).items@,
        old(pl).items@.len() == 0 ==> is_flash(r, empty_playlist_msg(), FlashLevel::Error)
            && *final(pl) == *old(pl) && *final(ui) == *old(ui),
        old(pl).items@.len() > 0 && old(pl).mode == m ==> is_flash(
            r,
            "已经是"@ + mode_label_spec(m),
            FlashLevel::Info,
        ) && *final(pl) == *old(pl) && *final(ui) == *old(ui),
        old(pl).items@.len() > 0 && old(pl).mode != m ==> (*final(pl) == (Playlist {
            mode: m,
            ..*old(pl)
        }) && *final(ui) == (UiState { mode: m, ..*old(ui) }) && is_flash(
            r,
            "已切换到"@ + mode_label_spec(m),
            FlashLevel::Okay,
        )),
{
    if pl.items.len() == 0 {
        CommandOutcome::Done(
            flash_lit("播放列表为空，请先使用 /folder 添加歌曲", FlashLevel::Error),
        )
    } else if pl.mode == m {
        let mut msg = String::from_str("已经是");
        msg.append(mode_label(m));
        CommandOutcome::Done(one_flash(msg, FlashLevel::Info))
    } else {
        pl.mode = m;
        ui.mode = m;
        let mut msg = String::from_str("已切换到");
        msg.append(mode_label(m));
        CommandOutcome::Done(one_flash(msg, FlashLevel::Okay))
    }
}

/// Applies one parsed command to the playlist and interface state. Commands
/// that need songs are rejected with a flash message while the playlist is
/// empty, exactly as stated per command below; play and navigation hand
/// back the track to start; a folder change asks the caller to scan.
pub fn apply_command(pl: &mut Playlist, ui: &mut UiState, cmd: Command) -> (r: CommandOutcome)
    requires
        old(pl).wf(),
        old(ui).wf(),
    ensures
        final(pl).wf(),
        final(ui).wf(),
        final(pl).items@ == old(pl).items@,
        ({
            let len = old(pl).items@.len();
            match cmd {
                Command::Help => is_flash(r, help_text_spec(), FlashLevel::Info) && *final(pl)
                    == *old(pl) && *final(ui) == *old(ui),
                Command::Quit => (r matches CommandOutcome::Done(e) && e@.len() == 0) && *final(pl)
                    == *old(pl) && *final(ui) == *old(ui),
                Command::Unknown(s) => is_flash(
                    r,
                    "未知命令: "@ + s@ + "\n输入 /help 查看帮助。"@,
                    FlashLevel::Error,
                ) && *final(pl) == *old(pl) && *final(ui) == *old(ui),
                Command::Folder(p) => *final(pl) == *old(pl) && *final(ui) == *old(ui) && (if
                    crate::text::trim_of(p@).len() == 0 {
                    is_flash(
                        r,
                        "路径不能为空，请指定有效的文件夹路径"@,
                        FlashLevel::Error,
                    )
                } else {
                    r matches CommandOutcome::RequestScan(q) && q == p
                }),
                Command::List => *final(pl) == *old(pl) && *final(ui) == *old(ui) && (if len == 0 {
                    is_flash(
                        r,
                        "(空播放列表)\n请先使用 /folder <path> 选择目录"@,
                        FlashLevel::Info,
                    )
                } else {
                    is_flash(
                        r,
                        "播放列表:\n"@ + list_rows_spec(
                            old(pl).items@,
                            old(pl).current,
                            len as int,
                        ),
                        FlashLevel::Info,
                    )
                }),
                Command::PlayIndex(i) => *final(pl) == *old(pl) && *final(ui) == *old(ui) && (if len
                    == 0 {
                    is_flash(r, empty_playlist_msg(), FlashLevel::Error)
                } else if i > len {
                    is_flash(
                        r,
                        "歌曲序号超出范围，当前播放列表有 "@ + dec_str(len) + " 首歌曲，请输入 1-"@
                            + dec_str(len) + " 之间的数字"@,
                        FlashLevel::Error,
                    )
                } else {
                    r matches CommandOutcome::StartTrack(idx, k) && k == NavKind::Explicit && (
                    idx as int) == (if i > 0 {
                        i - 1
                    } else {
                        0int
                    })
                }),
                Command::Next => ({
                    &&& (len == 0 ==> is_flash(r, empty_playlist_msg(), FlashLevel::Error)
                        && *final(pl) == *old(pl) && *final(ui) == *old(ui))
                    &&& (len == 1 ==> is_flash(
                        r,
                        "只有一首歌曲，无法切换到下一首"@,
                        FlashLevel::Info,
                    ) && *final(pl) == *old(pl) && *final(ui) == *old(ui))
                    &&& (len > 1 ==> *final(ui) == *old(ui) && final(pl).mode == old(pl).mode
                        && (match old(pl).mode {
                        PlaybackMode::Sequential => r matches CommandOutcome::StartTrack(idx, k)
                            && k == NavKind::Next && (idx as int) == sequential_next(
                            old(pl).current,
                            len as int,
                        ) && final(pl).current == Some(idx),
                        PlaybackMode::RepeatOne => (match old(pl).current {
                            Some(c) => r matches CommandOutcome::StartTrack(idx, k) && k
                                == NavKind::Next && idx == c && final(pl).current == Some(c),
                            None => is_flash(r, "无法获取下一首歌曲"@, FlashLevel::Error)
                                && *final(pl) == *old(pl),
                        }),
                        PlaybackMode::Shuffle => r matches CommandOutcome::StartTrack(idx, k) && k
                            == NavKind::Next && idx < len && (old(pl).current matches Some(c)
                            ==> idx != c) && final(pl).current == Some(idx),
                    }))
                }),
                Command::Prev => ({
                    &&& (len == 0 ==> is_flash(r, empty_playlist_msg(), FlashLevel::Error)
                        && *final(pl) == *old(pl) && *final(ui) == *old(ui))
                    &&& (len == 1 ==> is_flash(
                        r,
                        "只有一首歌曲，无法切换到上一首"@,
                        FlashLevel::Info,
                    ) && *final(pl) == *old(pl) && *final(ui) == *old(ui))
                    &&& (len > 1 ==> *final(ui) == *old(ui) && final(pl).mode == old(pl).mode
                        && (match old(pl).mode {
                        PlaybackMode::Shuffle => r matches CommandOutcome::StartTrack(idx, k) && k
                            == NavKind::Prev && idx < len && (old(pl).current matches Some(c)
                            ==> idx != c) && final(pl).current == Some(idx),
                        _ => r matches CommandOutcome::StartTrack(idx, k) && k == NavKind::Prev && (
                        idx as int) == crate::playlist::wrap_prev(
                            match old(pl).current {
                                Some(c) => c as int,
                                None => 0,
                            },
                            len as int,
                        ) && final(pl).current == Some(idx),
                    }))
                }),
                Command::Pause => *final(pl) == *old(pl) && *final(ui) == *old(ui) && (if len == 0 {
                    is_flash(r, empty_playlist_msg(), FlashLevel::Error)
                } else if old(pl).current is None {
                    is_flash(r, "没有正在播放的歌曲"@, FlashLevel::Error)
                } else {
                    r matches CommandOutcome::Done(e) && e@.len() == 2 && e@[0]
                        == Effect::PlayerPause && (e@[1] matches Effect::Flash(s, l) && s@
                        == "已暂停"@ && l == FlashLevel::Okay)
                }),
                Command::Resume => *final(pl) == *old(pl) && *final(ui) == *old(ui) && (if len == 0 {
                    is_flash(r, empty_playlist_msg(), FlashLevel::Error)
                } else if old(pl).current is None {
                    is_flash(r, "没有正在播放的歌曲"@, FlashLevel::Error)
                } else {
                    r matches CommandOutcome::Done(e) && e@.len() == 2 && e@[0]
                        == Effect::PlayerResume && (e@[1] matches Effect::Flash(s, l) && s@
                        == "继续播放"@ && l == FlashLevel::Okay)
                }),
                Command::Volume(v) => *final(pl) == *old(pl) && (if len == 0 {
                    is_flash(r, empty_playlist_msg(), FlashLevel::Error) && *final(ui) == *old(ui)
                } else if old(pl).current is None {
                    is_flash(
                        r,
                        "当前没有播放歌曲，无法调节音量"@,
                        FlashLevel::Error,
                    ) && *final(ui) == *old(ui)
                } else {
                    *final(ui) == (UiState { volume: Some(v), ..*old(ui) }) && (r matches
                        CommandOutcome::Done(e) && e@.len() == 2 && e@[0]
                        == Effect::PlayerSetVolume(v) && (e@[1] matches Effect::Flash(s, l) && s@
                        == "音量设置为: "@ + dec_str(v as nat) + "%"@ && l == FlashLevel::Okay))
                }),
                Command::Lyrics => *final(pl) == *old(pl) && (if old(pl).current is None {
                    is_flash(
                        r,
                        "当前没有播放歌曲，无法操作歌词显示"@,
                        FlashLevel::Error,
                    ) && *final(ui) == *old(ui)
                } else {
                    *final(ui) == (UiState { show_lyrics: !old(ui).show_lyrics, ..*old(ui) }) && (
                    if !old(ui).show_lyrics {
                        match old(ui).lyrics {
                            Some(l) => if l.lines@.len() > 0 {
                                is_flash_refresh(
                                    r,
                                    "歌词已显示，已加载 "@ + dec_str(l.lines@.len()) + " 行歌词"@,
                                    FlashLevel::Okay,
                                )
                            } else {
                                is_flash_refresh(
                                    r,
                                    "歌词已显示，但歌词文件为空"@,
                                    FlashLevel::Info,
                                )
                            },
                            None => is_flash_refresh(
                                r,
                                "歌词已显示，但未找到歌词文件"@,
                                FlashLevel::Info,
                            ),
                        }
                    } else {
                        is_flash_refresh(r, "歌词已隐藏"@, FlashLevel::Okay)
                    })
                }),
                Command::LyricsMode => *final(pl) == *old(pl) && (if old(pl).current is None {
                    is_flash(
                        r,
                        "当前没有播放歌曲，无法切换歌词显示模式"@,
                        FlashLevel::Error,
                    ) && *final(ui) == *old(ui)
                } else {
                    *final(ui) == (UiState {
                        lyrics_stream_mode: !old(ui).lyrics_stream_mode,
                        lyrics_base_row: None,
                        status_base_row: None,
                        last_lyrics_range: None,
                        ..*old(ui)
                    }) && is_flash_refresh(
                        r,
                        "歌词显示模式已切换为: "@ + (if !old(ui).lyrics_stream_mode {
                            "流式输出"@
                        } else {
                            "清屏刷新"@
                        }),
                        FlashLevel::Okay,
                    )
                }),
                Command::Now => *final(pl) == *old(pl) && *final(ui) == *old(ui) && (if len == 0 {
                    is_flash(r, empty_playlist_msg(), FlashLevel::Error)
                } else {
                    match old(pl).current {
                        Some(c) => is_flash(
                            r,
                            now_playing_spec(*old(ui), c as int, len as int),
                            FlashLevel::Info,
                        ),
                        None => is_flash(
                            r,
                            "当前没有播放歌曲，使用 /play 开始播放"@,
                            FlashLevel::Info,
                        ),
                    }
                }),
                Command::Search(q) => *final(pl) == *old(pl) && *final(ui) == *old(ui) && (if len
                    == 0 {
                    is_flash(r, empty_playlist_msg(), FlashLevel::Error)
                } else {
                    let rows = Seq::new(
                        old(pl).items@.len(),
                        |i: int| (i as usize, old(pl).items@[i]),
                    ).filter(crate::playlist::search_pred(q@));
                    if rows.len() == 0 {
                        is_flash(
                            r,
                            "没有找到包含 '"@ + q@ + "' 的歌曲"@,
                            FlashLevel::Info,
                        )
                    } else {
                        is_flash(
                            r,
                            "搜索 '"@ + q@ + "' 的结果：\n"@ + search_rows_spec(
                                rows,
                                rows.len() as int,
                            ) + "\n使用 /play <N> 播放指定歌曲"@,
                            FlashLevel::Info,
                        )
                    }
                }),
                Command::Mode(m) => (if len == 0 {
                    is_flash(r, empty_playlist_msg(), FlashLevel::Error) && *final(pl) == *old(pl)
                        && *final(ui) == *old(ui)
                } else if old(pl).mode == m {
                    is_flash(r, "已经是"@ + mode_label_spec(m), FlashLevel::Info) && *final(pl)
                        == *old(pl) && *final(ui) == *old(ui)
                } else {
                    *final(pl) == (Playlist { mode: m, ..*old(pl) }) && *final(ui) == (UiState {
                        mode: m,
                        ..*old(ui)
                    }) && is_flash(r, "已切换到"@ + mode_label_spec(m), FlashLevel::Okay)
                }),
            }
        }),
{
    match cmd {
        Command::Help => cmd_help(),
        Command::Quit => CommandOutcome::Done(Vec::new()),
        Command::Unknown(s) => cmd_unknown(s),
        Command::Folder(p) => cmd_folder(p),
        Command::List => cmd_list(pl),
        Command::PlayIndex(i) => cmd_play(pl, i),
        Command::Next => cmd_next(pl),
        Command::Prev => cmd_prev(pl),
        Command::Pause => cmd_pause(pl),
        Command::Resume => cmd_resume(pl),
        Command::Volume(v) => cmd_volume(pl, ui, v),
        Command::Lyrics => cmd_lyrics(pl, ui),
        Command::LyricsMode => cmd_lyrics_mode(pl, ui),
        Command::Now => cmd_now(pl, ui),
        Command::Search(q) => cmd_search(pl, q),
        Command::Mode(m) => cmd_mode(pl, ui, m),
    }
}

/// Records that the track at `idx` has started on the audio backend: the
/// playlist points at it, the interface shows its name and the preview of
/// the next pick, the given lyric document replaces the old one, and the
/// caller is told to apply the remembered volume and to announce the start
/// as the navigation kind dictates.
pub fn on_track_started(
    pl: &mut Playlist,
    ui: &mut UiState,
    idx: usize,
    lyrics: Option<Lyrics>,
    kind: NavKind,
) -> (e: Vec<Effect>)
    requires
        old(pl).wf(),
        idx < old(pl).items@.len(),
    ensures
        final(pl).wf(),
        final(ui).wf(),
        final(pl).items@ == old(pl).items@,
        final(pl).mode == old(pl).mode,
        final(pl).current == Some(idx),
        final(ui).now_index == Some(idx),
        final(ui).now_name@ == base_name_of(old(pl).items@[idx as int]@),
        final(ui).lyrics == lyrics,
        final(ui).show_lyrics && final(ui).playing_ui_active && final(ui).lyrics_stream_mode,
        final(ui).current_lyric_line is None,
        final(ui).last_lyrics_range is None,
        final(ui).lyrics_base_row is None,
        !final(ui).show_welcome,
        final(ui).flash == old(ui).flash,
        final(ui).volume == old(ui).volume,
        final(ui).mode == old(ui).mode,
        final(ui).current_ms == old(ui).current_ms,
        ({
            let len = old(pl).items@.len();
            let items = old(pl).items@;
            match old(pl).mode {
                PlaybackMode::Sequential => final(ui).next_name@ == base_name_of(
                    items[sequential_next(Some(idx), len as int)]@,
                ),
                PlaybackMode::RepeatOne => final(ui).next_name@ == base_name_of(
                    items[idx as int]@,
                ),
                PlaybackMode::Shuffle => exists|j: int|
                    #![auto]
                    0 <= j < len && final(ui).next_name@ == base_name_of(items[j]@) && (len > 1
                        ==> j != idx),
            }
        }),
        e@.len() == 2,
        e@[0] == Effect::PlayerSetVolume(
            match old(ui).volume {
                Some(v) => v,
                None => 50u8,
            },
        ),
        ({
            let name = base_name_of(old(pl).items@[idx as int]@);
            match kind {
                NavKind::Explicit => e@[1] matches Effect::Flash(m, l) && l == FlashLevel::Okay
                    && m@ == "开始播放: "@ + name + (if lyrics is Some {
                    " | 已加载歌词"@
                } else {
                    Seq::<char>::empty()
                }),
                NavKind::Next => e@[1] matches Effect::Flash(m, l) && l == FlashLevel::Okay && m@
                    == "已切换到下一首: "@ + name,
                NavKind::Prev => e@[1] matches Effect::Flash(m, l) && l == FlashLevel::Okay && m@
                    == "已切换到上一首: "@ + name,
                NavKind::Auto => e@[1] == Effect::Refresh,
            }
        }),
{
    pl.current = Some(idx);
    let name = String::from_str(base_name(&pl.items[idx]));
    let next = pl.peek_next_name();
    let has_lyrics = lyrics.is_some();
    ui.set_now_playing(idx, name.clone(), next);
    ui.lyrics = lyrics;
    let vol: u8 = match ui.volume {
        Some(v) => v,
        None => 50,
    };
    let mut e: Vec<Effect> = Vec::new();
    e.push(Effect::PlayerSetVolume(vol));
    match kind {
        NavKind::Explicit => {
            let mut msg = String::from_str("开始播放: ");
            msg.append(name.as_str());
            if has_lyrics {
                msg.append(" | 已加载歌词");
            }
            proof {
                if !has_lyrics {
                    assert("开始播放: "@ + name@ + Seq::<char>::empty() =~= "开始播放: "@
                        + name@);
                }
            }
            e.push(Effect::Flash(msg, FlashLevel::Okay));
        },
        NavKind::Next => {
            let mut msg = String::from_str("已切换到下一首: ");
            msg.append(name.as_str());
            e.push(Effect::Flash(msg, FlashLevel::Okay));
        },
        NavKind::Prev => {
            let mut msg = String::from_str("已切换到上一首: ");
            msg.append(name.as_str());
            e.push(Effect::Flash(msg, FlashLevel::Okay));
        },
        NavKind::Auto => {
            e.push(Effect::Refresh);
        },
    }
    e
}

/// The rejection shown when an explicit play names a file that no longer
/// exists; nothing changes.
pub fn on_track_missing(pl: &Playlist, idx: usize) -> (e: Vec<Effect>)
    requires
        idx < pl.items@.len(),
    ensures
        e@.len() == 1,
        e@[0] matches Effect::Flash(m, l) && l == FlashLevel::Error && m@ == "歌曲文件不存在: "@
            + (if base_name_of(pl.items@[idx as int]@).len() == 0 {
            "未知文件"@
        } else {
            base_name_of(pl.items@[idx as int]@)
        }),
{
    let name = base_name(&pl.items[idx]);
    let mut msg = String::from_str("歌曲文件不存在: ");
    if name.unicode_len() == 0 {
        msg.append("未知文件");
    } else {
        msg.append(name);
    }
    one_flash(msg, FlashLevel::Error)
}

/// Takes the paths of a completed folder scan: the playlist keeps the audio
/// files in scan order and playback state resets; the message reports how
/// many songs were found, or that the folder held none.
pub fn on_scan(pl: &mut Playlist, path: &str, paths: Vec<String>) -> (e: Vec<Effect>)
    ensures
        final(pl).wf(),
        final(pl).items@ == paths@.filter(crate::playlist::audio_pred()),
        final(pl).current is None,
        final(pl).mode == PlaybackMode::Sequential,
        e@.len() == 1,
        final(pl).items@.len() == 0 ==> (e@[0] matches Effect::Flash(m, l) && l
            == FlashLevel::Info && m@ == "文件夹 '"@ + path@
            + "' 中没有找到支持的音频文件"@),
        final(pl).items@.len() > 0 ==> (e@[0] matches Effect::Flash(m, l) && l == FlashLevel::Okay
            && m@ == "扫描到 "@ + dec_str(final(pl).items@.len()) + " 首歌曲"@),
{
    let count = pl.apply_scan(paths);
    if count == 0 {
        let mut msg = String::from_str("文件夹 '");
        msg.append(path);
        msg.append("' 中没有找到支持的音频文件");
        one_flash(msg, FlashLevel::Info)
    } else {
        let mut msg = String::from_str("扫描到 ");
        let cd = usize_to_string(count);
        msg.append(cd.as_str());
        msg.append(" 首歌曲");
        one_flash(msg, FlashLevel::Okay)
    }
}

/// The rejection shown when a folder path does not exist or is not a
/// directory.
pub fn on_scan_path_error(path: &str, missing: bool) -> (e: Vec<Effect>)
    ensures
        e@.len() == 1,
        e@[0] matches Effect::Flash(m, l) && l == FlashLevel::Error && m@ == (if missing {
            "路径不存在: "@ + path@
        } else {
            "路径不是一个文件夹: "@ + path@
        }),
{
    let mut msg = if missing {
        String::from_str("路径不存在: ")
    } else {
        String::from_str("路径不是一个文件夹: ")
    };
    msg.append(path);
    one_flash(msg, FlashLevel::Error)
}

/// One periodic poll of the audio backend. When the track has finished, the
/// playlist advances under its policy and the caller is told which track to
/// start (none on an empty list). Otherwise the reported position is taken
/// over, and a redraw is requested exactly when the active lyric line
/// changed.
pub fn on_tick(pl: &mut Playlist, ui: &mut UiState, finished: bool, current_ms: u128) -> (r: (
    Option<usize>,
    Vec<Effect>,
))
    requires
        old(pl).wf(),
        old(ui).wf(),
    ensures
        final(pl).wf(),
        final(ui).wf(),
        final(pl).items@ == old(pl).items@,
        final(pl).mode == old(pl).mode,
        r.0 matches Some(x) ==> x < old(pl).items@.len(),
        finished ==> *final(ui) == *old(ui) && r.1@.len() == 0 && ({
            let len = old(pl).items@.len();
            &&& (len == 0 ==> r.0 is None && *final(pl) == *old(pl))
            &&& (old(pl).mode == PlaybackMode::RepeatOne ==> r.0 == old(pl).current && *final(pl)
                == *old(pl))
            &&& (len > 0 && old(pl).mode == PlaybackMode::Sequential ==> (r.0 matches Some(x) && (
            x as int) == sequential_next(old(pl).current, len as int) && final(pl).current == r.0))
            &&& (len > 0 && old(pl).mode == PlaybackMode::Shuffle ==> r.0 is Some
                && final(pl).current == r.0)
            &&& (len > 1 && old(pl).mode == PlaybackMode::Shuffle ==> (old(
                pl,
            ).current matches Some(c) ==> (r.0 matches Some(x) && x != c)))
        }),
        !finished ==> r.0 is None && *final(pl) == *old(pl) && ({
            let changed = old(ui).show_lyrics && old(ui).now_index is Some && (match old(
                ui,
            ).lyrics {
                Some(l) => (match old(ui).current_lyric_line {
                    Some(o) => o as int != crate::render::lyric_display_idx(
                        l.lines@,
                        current_ms,
                    ),
                    None => true,
                }),
                None => false,
            });
            if changed {
                match old(ui).lyrics {
                    Some(l) => *final(ui) == (UiState {
                        current_ms: current_ms,
                        current_lyric_line: Some(
                            crate::render::lyric_display_idx(l.lines@, current_ms) as usize,
                        ),
                        ..*old(ui)
                    }) && r.1@.len() == 1 && r.1@[0] == Effect::Refresh,
                    None => true,
                }
            } else {
                *final(ui) == (UiState { current_ms: current_ms, ..*old(ui) }) && r.1@.len() == 0
            }
        }),
{
    if finished {
        let nxt = pl.advance_on_finished();
        (nxt, Vec::new())
    } else {
        ui.current_ms = current_ms;
        let mut effects: Vec<Effect> = Vec::new();
        if ui.show_lyrics && ui.now_index.is_some() {
            match &ui.lyrics {
                Some(l) => {
                    let new_idx: usize = match l.current_line_index(current_ms) {
                        Some(j) => j,
                        None => 0,
                    };
                    let changed = match ui.current_lyric_line {
                        Some(o) => o != new_idx,
                        None => true,
                    };
                    if changed {
                        ui.current_lyric_line = Some(new_idx);
                        effects.push(Effect::Refresh);
                    }
                },
                None => {},
            }
        }
        (None, effects)
    }
}

} // verus!
