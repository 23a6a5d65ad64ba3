//! Screen-facing state: what is shown, the one-shot flash message, and the
//! bookkeeping that incremental lyric redraws need.

use crate::lyrics::Lyrics;
use crate::playlist::PlaybackMode;
use vstd::prelude::*;

verus! {

/// Severity of a flash message.
#[derive(Debug, Clone, Copy, PartialEq, Eq, Structural)]
pub enum FlashLevel {
    Info,
    Okay,
    Error,
}

impl Default for FlashLevel {
    fn default() -> (r: Self)
        ensures
            r == FlashLevel::Info,
    {
        FlashLevel::Info
    }
}

/// What the interface currently shows: the track names on screen, volume,
/// mode, the lyric document and position, the one-shot flash message, and
/// the incremental-redraw bookkeeping (base screen row of the lyric region
/// and the last drawn line range).
pub struct UiState {
    pub show_welcome: bool,
    pub flash: Option<(String, FlashLevel)>,
    pub now_index: Option<usize>,
    pub now_name: String,
    pub next_name: String,
    pub volume: Option<u8>,
    pub mode: PlaybackMode,
    pub lyrics: Option<Lyrics>,
    pub current_ms: u128,
    pub show_lyrics: bool,
    pub current_lyric_line: Option<usize>,
    pub playing_ui_active: bool,
    pub lyrics_stream_mode: bool,
    pub lyrics_base_row: Option<u16>,
    pub status_base_row: Option<u16>,
    pub last_lyrics_range: Option<(usize, usize)>,
}

impl Default for UiState {
    fn default() -> (r: Self)
        ensures
            r.wf(),
            !r.show_welcome,
            r.flash is None,
            r.now_index is None,
            r.volume is None,
            r.mode == PlaybackMode::Sequential,
            r.lyrics is None,
            !r.playing_ui_active,
    {
        UiState::new()
    }
}

impl UiState {
    /// A remembered lyric range always comes with a base row to rewrite at.
    pub open spec fn wf(&self) -> bool {
        self.last_lyrics_range is Some ==> self.lyrics_base_row is Some
    }

    pub fn new() -> (r: Self)
        ensures
            r.wf(),
            !r.show_welcome,
            r.flash is None,
            r.now_index is None,
            r.now_name@ == Seq::<char>::empty(),
            r.next_name@ == Seq::<char>::empty(),
            r.volume is None,
            r.mode == PlaybackMode::Sequential,
            r.lyrics is None,
            r.current_ms == 0,
            !r.show_lyrics,
            r.current_lyric_line is None,
            !r.playing_ui_active,
            !r.lyrics_stream_mode,
            r.lyrics_base_row is None,
            r.status_base_row is None,
            r.last_lyrics_range is None,
    {
        UiState {
            show_welcome: false,
            flash: None,
            now_index: None,
            now_name: String::new(),
            next_name: String::new(),
            volume: None,
            mode: PlaybackMode::Sequential,
            lyrics: None,
            current_ms: 0,
            show_lyrics: false,
            current_lyric_line: None,
            playing_ui_active: false,
            lyrics_stream_mode: false,
            lyrics_base_row: None,
            status_base_row: None,
            last_lyrics_range: None,
        }
    }

    /// Records a newly started track: its index and display names, and
    /// resets the lyric display to its defaults (lyrics shown, streaming
    /// redraws, no remembered positions).
    pub fn set_now_playing(&mut self, idx: usize, name: String, next: String)
        ensures
            final(self).wf(),
            final(self).now_index == Some(idx),
            final(self).now_name == name,
            final(self).next_name == next,
            !final(self).show_welcome,
            final(self).show_lyrics,
            final(self).current_lyric_line is None,
            final(self).playing_ui_active,
            final(self).lyrics_stream_mode,
            final(self).lyrics_base_row is None,
            final(self).status_base_row is None,
            final(self).last_lyrics_range is None,
            final(self).flash == old(self).flash,
            final(self).volume == old(self).volume,
            final(self).mode == old(self).mode,
            final(self).lyrics == old(self).lyrics,
            final(self).current_ms == old(self).current_ms,
    {
        self.now_index = Some(idx);
        self.now_name = name;
        self.next_name = next;
        self.show_welcome = false;
        self.show_lyrics = true;
        self.current_lyric_line = None;
        self.playing_ui_active = true;
        self.lyrics_stream_mode = true;
        self.lyrics_base_row = None;
        self.status_base_row = None;
        self.last_lyrics_range = None;
    }

    /// Queues a flash message, or clears it when none is given.
    pub fn flash_message(&mut self, msg: Option<String>, level: FlashLevel)
        ensures
            *final(self) == (UiState {
                flash: match msg {
                    Some(m) => Some((m, level)),
                    None => None,
                },
                ..*old(self)
            }),
    {
        self.flash = match msg {
            Some(m) => Some((m, level)),
            None => None,
        };
    }

    /// Flips whether lyrics are shown.
    pub fn toggle_lyrics(&mut self)
        ensures
            *final(self) == (UiState { show_lyrics: !old(self).show_lyrics, ..*old(self) }),
    {
        self.show_lyrics = !self.show_lyrics;
    }

    /// Drops any queued flash message.
    pub fn clear_flash(&mut self)
        ensures
            *final(self) == (UiState { flash: None, ..*old(self) }),
    {
        self.flash = None;
    }

    /// Flips between streaming and full-refresh lyric rendering, forgetting
    /// the remembered screen positions.
    pub fn toggle_lyrics_mode(&mut self)
        ensures
            *final(self) == (UiState {
                lyrics_stream_mode: !old(self).lyrics_stream_mode,
                lyrics_base_row: None,
                status_base_row: None,
                last_lyrics_range: None,
                ..*old(self)
            }),
            final(self).wf(),
    {
        self.lyrics_stream_mode = !self.lyrics_stream_mode;
        self.lyrics_base_row = None;
        self.status_base_row = None;
        self.last_lyrics_range = None;
    }
}

} // verus!
