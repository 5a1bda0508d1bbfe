//! The decisions of the player's three loops: the input loop that turns key
//! presses into requests, the render loop, and the audio loop that plays the
//! queue.  Each decision is a function from what the loop knows and the event
//! it received to what it does next; the loops themselves, which wait for
//! events and talk to the terminal and the sound device, run outside.

use vstd::prelude::*;
use crate::{RenderMode, SongControl};
use crate::file_format::FileFormat;

verus! {

/// How far a seek moves the playback position, in seconds.
pub const SEEK_STEP_SECS: u64 = 5;

/// What the input loop does with a decoded key press.
#[derive(PartialEq, Eq, Structural, Debug, Clone, Copy)]
pub enum InputAction {
    /// Ask the audio loop to shut the player down, and stop reading input.
    Quit,
    /// Nothing to do.
    Ignore,
    /// Publish the new song index (if any), then pass the control on to the
    /// render loop and the audio loop.
    Broadcast { song_index: Option<usize>, control: SongControl },
}

/// What the render loop does with a request.
#[derive(PartialEq, Eq, Structural, Debug, Clone, Copy)]
pub enum RenderAction {
    /// Stop drawing; the interface leaves the alternate screen.
    Stop,
    /// Set whether the current song repeats.
    SetLooped(bool),
    /// Nothing to do.
    Ignore,
}

/// What the audio loop does with a request.
#[derive(PartialEq, Eq, Structural, Debug, Clone, Copy)]
pub enum AudioAction {
    /// Tell the render loop to stop, wait for it, and end the player.
    Shutdown,
    /// Stop the current song and start the one at the published song index.
    Reload,
    /// Resume playback.
    Play,
    /// Pause playback.
    Pause,
    /// Raise the volume by a tenth.
    VolumeUp,
    /// Lower the volume by a tenth, not below silence.
    VolumeDown,
    /// Move the playback position `SEEK_STEP_SECS` forward.
    SeekForward,
    /// Move the playback position `SEEK_STEP_SECS` back, not before the start.
    SeekBackward,
    /// Nothing to do.
    Ignore,
}

/// What the audio loop does when the current song has run out.
#[derive(PartialEq, Eq, Structural, Debug, Clone, Copy)]
pub struct SongEnd {
    /// Ask for the player to shut down (the queue is over).
    pub request_exit: bool,
    /// The song index to publish, if it moves on.
    pub song_index: Option<usize>,
}

/// The song index that an input decision publishes, if any.
pub open spec fn published_index(action: InputAction) -> Option<usize> {
    match action {
        InputAction::Broadcast { song_index, .. } => song_index,
        _ => None,
    }
}

/// The input loop's decision.
pub open spec fn input_action_spec(control: SongControl, song_index: usize, playlist_len: usize) -> InputAction {
    match control {
        SongControl::DestroyAndExit => InputAction::Quit,
        SongControl::NextSong => {
            if playlist_len != 1 {
                InputAction::Broadcast {
                    song_index: Some((song_index + 1) as usize),
                    control: SongControl::NextSong,
                }
            } else {
                InputAction::Ignore
            }
        },
        SongControl::PrevSong => {
            if song_index == 0 {
                InputAction::Ignore
            } else {
                InputAction::Broadcast {
                    song_index: Some((song_index - 1) as usize),
                    control: SongControl::PrevSong,
                }
            }
        },
        SongControl::No => InputAction::Ignore,
        _ => InputAction::Broadcast { song_index: None, control },
    }
}

/// The input loop's decision can be taken: moving to the next song keeps the
/// index inside a `usize`.
pub open spec fn input_action_defined(control: SongControl, song_index: usize, playlist_len: usize) -> bool {
    control == SongControl::NextSong && playlist_len != 1 ==> song_index < usize::MAX
}

/// The input loop's decision for a key press: quit on Ctrl+C; move to the next
/// song unless the playlist holds exactly one; move to the previous song unless
/// already at the first; pass every other control on.
pub fn input_action(control: SongControl, song_index: usize, playlist_len: usize) -> (r: InputAction)
    requires
        input_action_defined(control, song_index, playlist_len),
    ensures
        r == input_action_spec(control, song_index, playlist_len),
{
    match control {
        SongControl::DestroyAndExit => InputAction::Quit,
        SongControl::NextSong => {
            if playlist_len != 1 {
                InputAction::Broadcast { song_index: Some(song_index + 1), control: SongControl::NextSong }
            } else {
                InputAction::Ignore
            }
        },
        SongControl::PrevSong => {
            match song_index.checked_sub(1) {
                Some(n) => InputAction::Broadcast { song_index: Some(n), control: SongControl::PrevSong },
                None => InputAction::Ignore,
            }
        },
        SongControl::No => InputAction::Ignore,
        signal => InputAction::Broadcast { song_index: None, control: signal },
    }
}

/// The render loop's decision.
pub open spec fn render_action_spec(control: SongControl, looped: bool) -> RenderAction {
    match control {
        SongControl::DestroyAndExit => RenderAction::Stop,
        SongControl::ToggleLoop => RenderAction::SetLooped(!looped),
        _ => RenderAction::Ignore,
    }
}

/// The render loop's decision for a request: stop on shutdown, flip the repeat
/// setting on `ToggleLoop`, ignore the rest.
pub fn render_action(control: SongControl, looped: bool) -> (r: RenderAction)
    ensures
        r == render_action_spec(control, looped),
{
    match control {
        SongControl::DestroyAndExit => RenderAction::Stop,
        SongControl::ToggleLoop => RenderAction::SetLooped(!looped),
        _ => RenderAction::Ignore,
    }
}

/// The audio loop's decision.
pub open spec fn audio_action_spec(control: SongControl, paused: bool) -> AudioAction {
    match control {
        SongControl::DestroyAndExit => AudioAction::Shutdown,
        SongControl::PrevSong => AudioAction::Reload,
        SongControl::NextSong => AudioAction::Reload,
        SongControl::TogglePause => if paused {
            AudioAction::Play
        } else {
            AudioAction::Pause
        },
        SongControl::VolumeUp => AudioAction::VolumeUp,
        SongControl::VolumeDown => AudioAction::VolumeDown,
        SongControl::SeekForward => AudioAction::SeekForward,
        SongControl::SeekBackward => AudioAction::SeekBackward,
        _ => AudioAction::Ignore,
    }
}

/// The audio loop's decision for a request, given whether playback is paused.
pub fn audio_action(control: SongControl, paused: bool) -> (r: AudioAction)
    ensures
        r == audio_action_spec(control, paused),
{
    match control {
        SongControl::DestroyAndExit => AudioAction::Shutdown,
        SongControl::PrevSong | SongControl::NextSong => AudioAction::Reload,
        SongControl::TogglePause => if paused {
            AudioAction::Play
        } else {
            AudioAction::Pause
        },
        SongControl::VolumeUp => AudioAction::VolumeUp,
        SongControl::VolumeDown => AudioAction::VolumeDown,
        SongControl::SeekForward => AudioAction::SeekForward,
        SongControl::SeekBackward => AudioAction::SeekBackward,
        _ => AudioAction::Ignore,
    }
}

/// The audio loop's decision when a song has run out.
pub open spec fn song_end_spec(song_index: usize, playlist_len: usize, looped: bool) -> SongEnd {
    if song_index >= playlist_len - 1 {
        SongEnd { request_exit: true, song_index: None }
    } else if !looped {
        SongEnd { request_exit: false, song_index: Some((song_index + 1) as usize) }
    } else {
        SongEnd { request_exit: false, song_index: None }
    }
}

/// The audio loop's decision when a song has run out: after the last song of
/// the queue it asks for the player to shut down; before that it moves on to the
/// next song unless the current one repeats.  Either way it then reloads the
/// song at the published index.
pub fn song_end(song_index: usize, playlist_len: usize, looped: bool) -> (r: SongEnd)
    requires
        playlist_len >= 1,
    ensures
        r == song_end_spec(song_index, playlist_len, looped),
{
    if song_index >= playlist_len - 1 {
        SongEnd { request_exit: true, song_index: None }
    } else if !looped {
        SongEnd { request_exit: false, song_index: Some(song_index + 1) }
    } else {
        SongEnd { request_exit: false, song_index: None }
    }
}

/// Whether the song at `index` of a playlist of `playlist_len` songs can be
/// loaded; past the end there is nothing to load.
pub fn song_available(index: usize, playlist_len: usize) -> (r: bool)
    ensures
        r == (index < playlist_len),
{
    index < playlist_len
}

/// The render mode the player starts in: the full view for a playlist, the
/// minimal view for a single audio file.
pub fn startup_mode(format: FileFormat) -> (r: RenderMode)
    ensures
        format == FileFormat::Other ==> r == RenderMode::Full,
        format != FileFormat::Other ==> r == RenderMode::Safe,
{
    match format {
        FileFormat::Other => RenderMode::Full,
        _ => RenderMode::Safe,
    }
}

/// Going back a song undoes going forward one: when the playlist does not hold
/// exactly one song, `NextSong` publishes the following index, and `PrevSong`
/// from there publishes the index the player started from.
pub proof fn lemma_prev_undoes_next(song_index: usize, playlist_len: usize)
    requires
        playlist_len != 1,
        song_index < usize::MAX,
    ensures
        ({
            let forward = input_action_spec(SongControl::NextSong, song_index, playlist_len);
            &&& forward == InputAction::Broadcast {
                song_index: Some((song_index + 1) as usize),
                control: SongControl::NextSong,
            }
            &&& input_action_spec(SongControl::PrevSong, (song_index + 1) as usize, playlist_len)
                == InputAction::Broadcast { song_index: Some(song_index), control: SongControl::PrevSong }
        }),
{
}

/// The song index never goes below the first song: `PrevSong` at the first song
/// is ignored, and no decision of the input loop publishes an index below the
/// current one except `PrevSong`, which publishes exactly one less.
pub proof fn lemma_index_moves_by_one(control: SongControl, song_index: usize, playlist_len: usize)
    requires
        input_action_defined(control, song_index, playlist_len),
    ensures
        control == SongControl::PrevSong && song_index == 0 ==> input_action_spec(
            control,
            song_index,
            playlist_len,
        ) == InputAction::Ignore,
        published_index(input_action_spec(control, song_index, playlist_len)) is Some ==> (
        published_index(input_action_spec(control, song_index, playlist_len))->0 == song_index + 1
            || published_index(input_action_spec(control, song_index, playlist_len))->0 == song_index
            - 1),
{
}

/// Flipping the repeat setting twice restores it.
pub proof fn lemma_toggle_loop_twice(looped: bool)
    ensures
        render_action_spec(SongControl::ToggleLoop, looped) == RenderAction::SetLooped(!looped),
        render_action_spec(SongControl::ToggleLoop, !looped) == RenderAction::SetLooped(looped),
{
}

/// Pressing pause twice resumes: the pause request pauses a playing song and
/// resumes a paused one.
pub proof fn lemma_pause_toggles()
    ensures
        audio_action_spec(SongControl::TogglePause, false) == AudioAction::Pause,
        audio_action_spec(SongControl::TogglePause, true) == AudioAction::Play,
{
}

/// When a song runs out, the queue never moves past its last song: the published
/// index, if any, is still inside the playlist, and at the last song the player
/// asks to shut down instead.
pub proof fn lemma_song_end_stays_in_queue(song_index: usize, playlist_len: usize, looped: bool)
    requires
        playlist_len >= 1,
    ensures
        song_end_spec(song_index, playlist_len, looped).song_index is Some ==> song_end_spec(
            song_index,
            playlist_len,
            looped,
        ).song_index->0 < playlist_len,
        song_index >= playlist_len - 1 ==> song_end_spec(song_index, playlist_len, looped).request_exit,
        song_index < playlist_len - 1 && looped ==> song_end_spec(song_index, playlist_len, looped)
            == (SongEnd { request_exit: false, song_index: None }),
{
}

/// Every request other than quitting, moving through the queue and the empty
/// request reaches the render and audio loops as it is, and publishes no new
/// song index.
pub proof fn lemma_other_controls_pass_on(control: SongControl, song_index: usize, playlist_len: usize)
    requires
        control != SongControl::DestroyAndExit,
        control != SongControl::NextSong,
        control != SongControl::PrevSong,
        control != SongControl::No,
    ensures
        input_action_spec(control, song_index, playlist_len) == (InputAction::Broadcast {
            song_index: None,
            control,
        }),
{
}

/// Space pauses a playing song and resumes a paused one: the input loop passes
/// the pause request on whatever the queue position, the render loop leaves the
/// repeat setting alone, and the audio loop flips between playing and paused.
pub proof fn lemma_space_pauses_and_resumes(song_index: usize, playlist_len: usize, looped: bool, paused: bool)
    ensures
        ({
            let a = input_action_spec(SongControl::TogglePause, song_index, playlist_len);
            &&& a is Broadcast
            &&& published_index(a) is None
            &&& render_action_spec(a->control, looped) == RenderAction::Ignore
            &&& audio_action_spec(a->control, paused) == (if paused {
                AudioAction::Play
            } else {
                AudioAction::Pause
            })
        }),
{
}

/// Only the repeat request changes the repeat setting, and it always changes
/// it; every request but repeat and shutdown leaves the render loop idle.
pub proof fn lemma_only_toggle_loop_sets_looped(control: SongControl, looped: bool)
    ensures
        render_action_spec(control, looped) is SetLooped <==> control == SongControl::ToggleLoop,
        render_action_spec(control, looped) is SetLooped ==> render_action_spec(control, looped)->0
            != looped,
        control != SongControl::ToggleLoop && control != SongControl::DestroyAndExit
            ==> render_action_spec(control, looped) == RenderAction::Ignore,
{
}

/// When a song runs out the player shuts down exactly when it was the last of
/// the queue; before that, with repeat off, it moves on to the very next song.
pub proof fn lemma_song_end_moves_on(song_index: usize, playlist_len: usize, looped: bool)
    requires
        playlist_len >= 1,
    ensures
        song_end_spec(song_index, playlist_len, looped).request_exit <==> song_index + 1 >= playlist_len,
        !looped && song_index + 1 < playlist_len ==> song_end_spec(song_index, playlist_len, looped)
            == (SongEnd { request_exit: false, song_index: Some((song_index + 1) as usize) }),
{
}

} // verus!
