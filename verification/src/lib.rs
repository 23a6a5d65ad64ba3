//! Console audio player core: playlist navigation policy, timed-lyric
//! synchronization, playback timing, command parsing, rendering decisions,
//! and the session logic that ties them together.

pub mod clock;
pub mod command;
pub mod lyrics;
pub mod playlist;
pub mod render;
pub mod session;
pub mod text;
pub mod ui;
