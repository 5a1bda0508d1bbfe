use echotune::file_format::{check_header, FileFormat, HeaderError, HEADER_WINDOW, PLAYLIST_RESUME};
use echotune::input::{dtoc, key_step, KeyState, KeyStep};
use echotune::player::{
    audio_action, input_action, render_action, song_available, song_end, startup_mode, AudioAction,
    InputAction, RenderAction, SongEnd, SEEK_STEP_SECS,
};
use echotune::{RenderMode, SongControl};

fn decode(bytes: &[u8]) -> Option<SongControl> {
    let mut state = KeyState::Start;
    for &b in bytes {
        match key_step(state, b) {
            KeyStep::Done(c) => return Some(c),
            KeyStep::Continue(s) => state = s,
        }
    }
    None
}

#[test]
fn plain_keys() {
    assert_eq!(decode(b"r"), Some(SongControl::ToggleLoop));
    assert_eq!(decode(b"k"), Some(SongControl::PrevSong));
    assert_eq!(decode(b"j"), Some(SongControl::NextSong));
    assert_eq!(decode(b" "), Some(SongControl::TogglePause));
    assert_eq!(decode(b"q"), Some(SongControl::No));
    assert_eq!(decode(&[0]), Some(SongControl::No));
    assert_eq!(decode(&[3]), Some(SongControl::DestroyAndExit));
}

#[test]
fn arrow_keys() {
    assert_eq!(decode(b"\x1b[A"), Some(SongControl::VolumeUp));
    assert_eq!(decode(b"\x1b[B"), Some(SongControl::VolumeDown));
    assert_eq!(decode(b"\x1b[C"), Some(SongControl::SeekForward));
    assert_eq!(decode(b"\x1b[D"), Some(SongControl::SeekBackward));
    assert_eq!(decode(b"\x1b[Z"), Some(SongControl::No));
    assert_eq!(decode(b"\x1bx"), Some(SongControl::No));
    // an escape sequence needs more bytes
    assert_eq!(decode(b"\x1b"), None);
    assert_eq!(decode(b"\x1b["), None);
    assert_eq!(key_step(KeyState::Escape, 200), KeyStep::Done(SongControl::No));
    assert_eq!(key_step(KeyState::Csi, 255), KeyStep::Done(SongControl::No));
}

#[test]
fn dtoc_ascii() {
    assert_eq!(dtoc(b'a'), 'a');
    assert_eq!(dtoc(0), '\0');
    assert_eq!(dtoc(127), '\u{7f}');
}

#[test]
fn input_decisions() {
    assert_eq!(input_action(SongControl::DestroyAndExit, 3, 5), InputAction::Quit);
    assert_eq!(
        input_action(SongControl::NextSong, 3, 5),
        InputAction::Broadcast { song_index: Some(4), control: SongControl::NextSong }
    );
    // next song past the end is still published; the views pull it back
    assert_eq!(
        input_action(SongControl::NextSong, 4, 5),
        InputAction::Broadcast { song_index: Some(5), control: SongControl::NextSong }
    );
    assert_eq!(input_action(SongControl::NextSong, 0, 1), InputAction::Ignore);
    assert_eq!(
        input_action(SongControl::PrevSong, 3, 5),
        InputAction::Broadcast { song_index: Some(2), control: SongControl::PrevSong }
    );
    assert_eq!(input_action(SongControl::PrevSong, 0, 5), InputAction::Ignore);
    assert_eq!(input_action(SongControl::No, 0, 5), InputAction::Ignore);
    assert_eq!(
        input_action(SongControl::VolumeUp, 2, 5),
        InputAction::Broadcast { song_index: None, control: SongControl::VolumeUp }
    );
}

#[test]
fn prev_undoes_next() {
    let after_next = match input_action(SongControl::NextSong, 7, 10) {
        InputAction::Broadcast { song_index: Some(n), .. } => n,
        other => panic!("unexpected {:?}", other),
    };
    match input_action(SongControl::PrevSong, after_next, 10) {
        InputAction::Broadcast { song_index: Some(n), .. } => assert_eq!(n, 7),
        other => panic!("unexpected {:?}", other),
    }
}

#[test]
fn render_decisions() {
    assert_eq!(render_action(SongControl::DestroyAndExit, false), RenderAction::Stop);
    assert_eq!(render_action(SongControl::ToggleLoop, false), RenderAction::SetLooped(true));
    assert_eq!(render_action(SongControl::ToggleLoop, true), RenderAction::SetLooped(false));
    assert_eq!(render_action(SongControl::NextSong, true), RenderAction::Ignore);
}

#[test]
fn audio_decisions() {
    assert_eq!(audio_action(SongControl::DestroyAndExit, false), AudioAction::Shutdown);
    assert_eq!(audio_action(SongControl::NextSong, false), AudioAction::Reload);
    assert_eq!(audio_action(SongControl::PrevSong, true), AudioAction::Reload);
    assert_eq!(audio_action(SongControl::TogglePause, true), AudioAction::Play);
    assert_eq!(audio_action(SongControl::TogglePause, false), AudioAction::Pause);
    assert_eq!(audio_action(SongControl::VolumeUp, false), AudioAction::VolumeUp);
    assert_eq!(audio_action(SongControl::VolumeDown, false), AudioAction::VolumeDown);
    assert_eq!(audio_action(SongControl::SeekForward, false), AudioAction::SeekForward);
    assert_eq!(audio_action(SongControl::SeekBackward, false), AudioAction::SeekBackward);
    assert_eq!(audio_action(SongControl::ToggleLoop, false), AudioAction::Ignore);
    assert_eq!(SEEK_STEP_SECS, 5);
}

#[test]
fn song_end_decisions() {
    assert_eq!(song_end(0, 3, false), SongEnd { request_exit: false, song_index: Some(1) });
    assert_eq!(song_end(0, 3, true), SongEnd { request_exit: false, song_index: None });
    assert_eq!(song_end(2, 3, false), SongEnd { request_exit: true, song_index: None });
    assert_eq!(song_end(2, 3, true), SongEnd { request_exit: true, song_index: None });
    assert_eq!(song_end(0, 1, false), SongEnd { request_exit: true, song_index: None });
    assert!(song_available(0, 1));
    assert!(!song_available(1, 1));
}

#[test]
fn startup_modes() {
    assert_eq!(startup_mode(FileFormat::Other), RenderMode::Full);
    assert_eq!(startup_mode(FileFormat::Mp3), RenderMode::Safe);
    assert_eq!(startup_mode(FileFormat::Ogg), RenderMode::Safe);
    assert_eq!(startup_mode(FileFormat::Flac), RenderMode::Safe);
    assert_eq!(startup_mode(FileFormat::Wav), RenderMode::Safe);
}

#[test]
fn header_detection() {
    assert_eq!(HEADER_WINDOW, 12);
    assert_eq!(PLAYLIST_RESUME, 4);
    assert_eq!(check_header(b"OggS"), Ok(FileFormat::Ogg));
    assert_eq!(check_header(b"ID3\x04"), Ok(FileFormat::Mp3));
    assert_eq!(check_header(b"fLaC"), Ok(FileFormat::Flac));
    assert_eq!(check_header(b"/hom"), Ok(FileFormat::Other));
    assert_eq!(check_header(b"OggX"), Ok(FileFormat::Other));
    assert_eq!(check_header(b"ID3"), Err(HeaderError::TooShort));
    assert_eq!(check_header(b""), Err(HeaderError::TooShort));
    assert_eq!(check_header(b"RIFF\x24\x08\x00\x00WAVE"), Ok(FileFormat::Wav));
    assert_eq!(check_header(b"RIFF\x24\x08\x00\x00AVI "), Ok(FileFormat::Other));
    // too short to hold a WAV header: not a WAV file
    assert_eq!(check_header(b"RIFF\x24\x08\x00\x00WAV"), Ok(FileFormat::Other));
    // an MP3 file without an ID3 tag starts with a frame sync
    assert_eq!(check_header(&[0xFF, 0xFB, 0x90, 0x64]), Ok(FileFormat::Mp3));
    assert_eq!(check_header(&[0xFF, 0xD0, 0x90, 0x64]), Ok(FileFormat::Other));
    assert!(FileFormat::Wav.is_audio());
    assert!(FileFormat::Flac.is_audio());
    assert!(!FileFormat::Other.is_audio());
}

#[test]
fn header_depends_on_first_four_bytes() {
    assert_eq!(check_header(b"OggSxyz"), check_header(b"OggS"));
    assert_eq!(check_header(b"ID3 and more"), check_header(b"ID3 "));
    assert_eq!(check_header(b"RIFFsizeWAVE and data"), check_header(b"RIFFsizeWAVE"));
}
