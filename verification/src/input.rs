//! Decoding of the bytes that the terminal sends for a key press.
//!
//! A key press arrives as one byte, or as an escape sequence of up to three
//! bytes (`ESC [ A` for the up arrow).  The decoder is a small state machine:
//! it takes one byte at a time and either names the control that the key stands
//! for or asks for the next byte.

use vstd::prelude::*;
use crate::SongControl;

verus! {

/// The byte that the terminal sends for Ctrl+C (end of text).
pub const CTRL_C: u8 = 3;
/// The escape byte that starts an escape sequence.
pub const ESCAPE: u8 = 27;
/// The `[` that follows the escape byte in a control sequence.
pub const CSI_BRACKET: u8 = 91;

/// Where the decoder stands within a key press.
#[derive(PartialEq, Eq, Structural, Debug, Clone, Copy)]
pub enum KeyState {
    /// No byte of the key press has been read yet.
    Start,
    /// The escape byte has been read.
    Escape,
    /// The escape byte and `[` have been read.
    Csi,
}

/// What the decoder does with one byte.
#[derive(PartialEq, Eq, Structural, Debug, Clone, Copy)]
pub enum KeyStep {
    /// The key press is complete and stands for this control.
    Done(SongControl),
    /// The key press goes on; read another byte in this state.
    Continue(KeyState),
}

/// The control bound to a plain key.
pub open spec fn control_for_char(c: char) -> SongControl {
    if c == 'r' {
        SongControl::ToggleLoop
    } else if c == 'k' {
        SongControl::PrevSong
    } else if c == 'j' {
        SongControl::NextSong
    } else if c == ' ' {
        SongControl::TogglePause
    } else {
        SongControl::No
    }
}

/// The control bound to the last byte of `ESC [ x` (the arrow keys).
pub open spec fn control_for_arrow(b: u8) -> SongControl {
    if b == 65 {
        SongControl::VolumeUp
    } else if b == 66 {
        SongControl::VolumeDown
    } else if b == 67 {
        SongControl::SeekForward
    } else if b == 68 {
        SongControl::SeekBackward
    } else {
        SongControl::No
    }
}

/// One step of the key decoder.
pub open spec fn key_transition(state: KeyState, byte: u8) -> KeyStep {
    match state {
        KeyState::Start => {
            if byte == CTRL_C {
                KeyStep::Done(SongControl::DestroyAndExit)
            } else if byte == ESCAPE {
                KeyStep::Continue(KeyState::Escape)
            } else {
                KeyStep::Done(control_for_char(byte as char))
            }
        },
        KeyState::Escape => {
            if byte == CSI_BRACKET {
                KeyStep::Continue(KeyState::Csi)
            } else {
                KeyStep::Done(SongControl::No)
            }
        },
        KeyState::Csi => KeyStep::Done(control_for_arrow(byte)),
    }
}

/// A byte that the decoder accepts in a state: a plain key must be ASCII.
pub open spec fn key_byte_accepted(state: KeyState, byte: u8) -> bool {
    state == KeyState::Start ==> byte <= 127
}

/// The character of an ASCII byte.
pub fn dtoc(i: u8) -> (c: char)
    requires
        i <= 127,
    ensures
        c as u32 == i as u32,
{
    i as char
}

/// The control bound to a plain key.
fn char_control(c: char) -> (r: SongControl)
    ensures
        r == control_for_char(c),
{
    if c == 'r' {
        SongControl::ToggleLoop
    } else if c == 'k' {
        SongControl::PrevSong
    } else if c == 'j' {
        SongControl::NextSong
    } else if c == ' ' {
        SongControl::TogglePause
    } else {
        SongControl::No
    }
}

/// Feeds one byte of a key press to the decoder.
pub fn key_step(state: KeyState, byte: u8) -> (r: KeyStep)
    requires
        key_byte_accepted(state, byte),
    ensures
        r == key_transition(state, byte),
{
    match state {
        KeyState::Start => {
            if byte == CTRL_C {
                KeyStep::Done(SongControl::DestroyAndExit)
            } else if byte == ESCAPE {
                KeyStep::Continue(KeyState::Escape)
            } else {
                let c = dtoc(byte);
                assert(c == byte as char);
                KeyStep::Done(char_control(c))
            }
        },
        KeyState::Escape => {
            if byte == CSI_BRACKET {
                KeyStep::Continue(KeyState::Csi)
            } else {
                KeyStep::Done(SongControl::No)
            }
        },
        KeyState::Csi => {
            let control = if byte == 65 {
                SongControl::VolumeUp
            } else if byte == 66 {
                SongControl::VolumeDown
            } else if byte == 67 {
                SongControl::SeekForward
            } else if byte == 68 {
                SongControl::SeekBackward
            } else {
                SongControl::No
            };
            KeyStep::Done(control)
        },
    }
}

/// A key press is complete after at most three bytes: from the start the decoder
/// either finishes or moves to the escape state, from there it finishes or moves
/// to the control-sequence state, and from that state it always finishes.  No key
/// press ever decodes to `Unset`.
pub proof fn lemma_key_press_completes(state: KeyState, byte: u8)
    ensures
        state == KeyState::Start ==> (key_transition(state, byte) is Done
            || key_transition(state, byte) == KeyStep::Continue(KeyState::Escape)),
        state == KeyState::Escape ==> (key_transition(state, byte) is Done
            || key_transition(state, byte) == KeyStep::Continue(KeyState::Csi)),
        state == KeyState::Csi ==> key_transition(state, byte) is Done,
        key_transition(state, byte) != KeyStep::Done(SongControl::Unset),
{
}

} // verus!
