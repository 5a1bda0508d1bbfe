//! echotune: a terminal music player.  This crate holds its verified core:
//! key decoding, playback decisions, playlist reading, file-format detection
//! and the layout of the text user interface.

use vstd::prelude::*;

pub mod configuration;
pub mod file_format;
pub mod input;
pub mod player;
pub mod playlist;
pub mod text;
pub mod tooey;
pub mod tui;

verus! {

/// A request that travels between the input, render and audio parts of the player.
#[derive(PartialEq, Eq, Structural, Debug, Clone, Copy)]
pub enum SongControl {
    VolumeUp,
    VolumeDown,
    SeekForward,
    SeekBackward,
    ToggleLoop,
    PrevSong,
    NextSong,
    TogglePause,
    No,
    DestroyAndExit,
    Unset,
}

/// How the user interface draws itself.
#[derive(PartialEq, Eq, Structural, Debug, Clone, Copy)]
pub enum RenderMode {
    /// A minimal view: the current song, its progress and the volume.
    Safe,
    /// The whole interface: the queue and the playback bar.
    Full,
    /// The playlist is being loaded.
    Reading,
    /// The terminal is too small for the requested view.
    NoSpace,
    /// No mode has been chosen yet.
    Uninitialized,
}

} // verus!
