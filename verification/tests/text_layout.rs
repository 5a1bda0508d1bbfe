use echotune::text::{last_path_segment, repeat};
use echotune::tui::{box_draw_entry, format_time, DrawError, PlaybackStatus, Tui};
use echotune::RenderMode;

fn tui_with(width: u16, height: u16) -> Tui {
    let mut t = Tui::init();
    t.render_set_mode(RenderMode::Full);
    t.width = width;
    t.height = height;
    t
}

#[test]
fn format_time_minutes_and_seconds() {
    assert_eq!(format_time(0), "00:00");
    assert_eq!(format_time(59), "00:59");
    assert_eq!(format_time(61), "01:01");
    assert_eq!(format_time(3599), "59:59");
}

#[test]
fn format_time_with_hours() {
    assert_eq!(format_time(3600), "01:00:00");
    assert_eq!(format_time(3661), "01:01:01");
    assert_eq!(format_time(36000 + 62), "10:01:02");
    assert_eq!(format_time(360000), "100:00:00");
}

#[test]
fn box_draw_entry_layout() {
    assert_eq!(box_draw_entry("song.mp3", 3), "│song.mp3   \x1B[0m│");
    assert_eq!(box_draw_entry("", 0), "│\x1B[0m│");
}

#[test]
fn repeat_pieces() {
    assert_eq!(repeat("─", 3), "───");
    assert_eq!(repeat(" ", 0), "");
}

#[test]
fn last_path_segment_cases() {
    assert_eq!(last_path_segment("/home/user/music/a.mp3"), "a.mp3");
    assert_eq!(last_path_segment("a.mp3"), "a.mp3");
    assert_eq!(last_path_segment("dir/"), "");
    assert_eq!(last_path_segment(""), "");
    assert_eq!(last_path_segment("/ünï/cödé.flac"), "cödé.flac");
}

#[test]
fn draw_box_edges() {
    assert_eq!(Tui::draw_box(false, "queue", 12), "╭─queue────╮");
    assert_eq!(Tui::draw_box(false, "", 5), "╭───╮");
    assert_eq!(Tui::draw_box(true, "ignored", 6), "╰────╯");
    // both edges span the terminal
    assert_eq!(Tui::draw_box(false, "queue", 40).chars().count(), 40);
    assert_eq!(Tui::draw_box(true, "", 40).chars().count(), 40);
}

#[test]
fn draw_entry_fits_and_overflows() {
    let mut t = tui_with(12, 20);
    assert_eq!(t.draw_entry("abc").unwrap(), "│abc       \x1B[0m│");
    assert_eq!(t.rendering_mode, RenderMode::Full);
    // exactly fits: text + 2 walls == width
    assert_eq!(t.draw_entry("abcdefghij").unwrap(), "│abcdefghij\x1B[0m│");
    assert_eq!(t.draw_entry("abcdefghijk"), Err(DrawError::NotEnoughSpace));
    assert_eq!(t.rendering_mode, RenderMode::NoSpace);
}

#[test]
fn draw_highlighted_entry_layout() {
    let mut t = tui_with(8, 20);
    assert_eq!(
        t.draw_highlighted_entry("ab").unwrap(),
        "│\x1B[48;2;245;194;231m\x1B[38;2;30;30;46mab    \x1B[0m│"
    );
    assert_eq!(t.draw_highlighted_entry("abcdefg"), Err(DrawError::NotEnoughSpace));
    assert_eq!(t.rendering_mode, RenderMode::NoSpace);
}

#[test]
fn draw_entry_centered_parities() {
    // odd text, even width: pad = (10 - 3 - 2) / 2 = 2
    let mut t = tui_with(10, 20);
    assert_eq!(t.draw_entry_centered("abc").unwrap(), "│  abc   \x1B[0m│");
    // even text, odd width: pad = (11 - 4 - 2) / 2 = 2
    let mut t = tui_with(11, 20);
    assert_eq!(t.draw_entry_centered("abcd").unwrap(), "│   abcd  \x1B[0m│");
    // odd text, odd width: pad = (11 - 3 - 2) / 2 = 3
    assert_eq!(t.draw_entry_centered("abc").unwrap(), "│   abc   \x1B[0m│");
    // even text, even width: pad = (14 - 4 - 2) / 2 = 4, left side loses two
    let mut t = tui_with(14, 20);
    assert_eq!(t.draw_entry_centered("abcd").unwrap(), "│   abcd     \x1B[0m│");
    // interior always width - 2 bytes
    for w in 8u16..30 {
        for len in 0usize..(w as usize) {
            let text = "x".repeat(len);
            let mut t = tui_with(w, 20);
            let both_even = len % 2 == 0 && w % 2 == 0;
            let fits = len + 2 <= w as usize;
            if fits && both_even && (w as usize - len - 2) / 2 < 2 {
                continue;
            }
            match t.draw_entry_centered(&text) {
                Ok(row) => {
                    let interior = row.trim_start_matches('│').trim_end_matches("\x1B[0m│");
                    assert_eq!(interior.len(), w as usize - 2);
                }
                Err(e) => {
                    assert!(!fits);
                    assert_eq!(e, DrawError::NotEnoughSpace);
                }
            }
        }
    }
}

#[test]
fn draw_entry_centered_too_wide() {
    let mut t = tui_with(5, 20);
    assert_eq!(t.draw_entry_centered("abcd"), Err(DrawError::NotEnoughSpace));
    assert_eq!(t.rendering_mode, RenderMode::NoSpace);
}

#[test]
fn calculate_offset_moves_window() {
    let mut t = tui_with(40, 20); // window of 8 rows
    t.cursor_index_queue = 8;
    t.scrolling_offset = 0;
    t.calculate_offset();
    assert_eq!(t.scrolling_offset, 1);
    t.cursor_index_queue = 0;
    t.calculate_offset();
    assert_eq!(t.scrolling_offset, 0);
    t.cursor_index_queue = 3;
    t.scrolling_offset = 2;
    t.calculate_offset();
    assert_eq!(t.scrolling_offset, 2);
}

#[test]
fn pre_rerender_display_takes_size_and_index() {
    let mut t = tui_with(0, 0);
    t.cursor_index_queue = 2;
    t.scrolling_offset = 5;
    t.pre_rerender_display(80, 24, 7);
    assert_eq!(t.width, 80);
    assert_eq!(t.height, 24);
    assert_eq!(t.scrolling_offset, 2);
    assert_eq!(t.cursor_index_queue, 7);
}

#[test]
fn alt_buffer_sequences() {
    let t = Tui::init();
    let mut out = String::new();
    t.enter_alt_buffer(&mut out);
    t.leave_alt_buffer(&mut out);
    assert_eq!(out, "\x1B[?1049h\n\x1B[?1049l\n");
}

#[test]
fn not_enough_space_screen_returns_to_full() {
    let mut t = tui_with(10, 20);
    t.render_set_mode(RenderMode::NoSpace);
    let mut out = String::new();
    let songs = vec!["a".to_string()];
    let playback = PlaybackStatus { current_secs: 0, total_secs: 0, volume_percent: "0".to_string() };
    let report = t.draw_current(&mut out, &songs, 0, &playback);
    assert!(report.error.is_none());
    assert!(report.song_index_store.is_none());
    assert!(out.starts_with("\x1b[2J\x1b[HEchotune Error\n\nNot enough space for the terminal!\n"));
    assert!(out.ends_with("UID0 (root).\n"));
    assert_eq!(t.rendering_mode, RenderMode::Full);
}

#[test]
fn safe_view() {
    let mut t = tui_with(80, 24);
    t.render_set_mode(RenderMode::Safe);
    t.cursor_index_queue = 5;
    let songs = vec!["/music/one.mp3".to_string(), "/music/two.ogg".to_string()];
    let playback = PlaybackStatus { current_secs: 65, total_secs: 3700, volume_percent: "70".to_string() };
    let mut out = String::new();
    let report = t.draw_current(&mut out, &songs, 0, &playback);
    assert!(report.error.is_none());
    assert_eq!(report.song_index_store, Some(1));
    assert_eq!(t.cursor_index_queue, 1);
    assert_eq!(out, "\x1b[2J\x1b[Htwo.ogg\n01:05 / 01:01:40\n󰕾 70%\n");
}

#[test]
fn safe_view_empty_playlist_aborts() {
    let mut t = tui_with(80, 24);
    t.render_set_mode(RenderMode::Safe);
    let songs: Vec<String> = Vec::new();
    let playback = PlaybackStatus { current_secs: 0, total_secs: 0, volume_percent: "0".to_string() };
    let mut out = String::new();
    let report = t.draw_current(&mut out, &songs, 0, &playback);
    assert_eq!(report.error, Some(DrawError::Abort));
}

#[test]
fn full_view_small_playlist() {
    let mut t = tui_with(20, 14); // two queue rows
    t.cursor_index_queue = 1;
    let songs = vec!["/m/a.mp3".to_string(), "/m/bb.mp3".to_string(), "/m/c.mp3".to_string()];
    let mut out = String::new();
    let report = t.draw_full(&mut out, &songs, 1);
    assert!(report.error.is_none());
    assert!(report.song_index_store.is_none());
    let expected = String::new()
        + "\x1b[2J\x1b[H"
        + "current song index: 1, SONG_INDEX: 1, len: 3\n"
        + "╭─queue────────────╮\n"
        + "│a.mp3             \x1B[0m│"
        + "│\x1B[48;2;245;194;231m\x1B[38;2;30;30;46mbb.mp3            \x1B[0m│"
        + "╰──────────────────╯"
        + "╭──────────────────╮"
        + "│     bb.mp3       \x1B[0m│"
        + "╰──────────────────╯"
        + "0, 1\n";
    assert_eq!(out, expected);
    assert_eq!(t.cursor_index_queue, 1);
    assert_eq!(t.scrolling_offset, 0);
}

#[test]
fn full_view_cursor_pulled_back() {
    let mut t = tui_with(20, 14);
    t.cursor_index_queue = 9;
    let songs = vec!["a".to_string(), "b".to_string()];
    let mut out = String::new();
    // the pulled-back cursor is what the shared index holds when the line is written
    let report = t.draw_full(&mut out, &songs, 7);
    assert!(report.error.is_none());
    assert_eq!(report.song_index_store, Some(1));
    assert!(out.contains("current song index: 1, SONG_INDEX: 1, len: 2\n"));
}

#[test]
fn full_view_debug_line_shows_shared_index() {
    let mut t = tui_with(20, 14);
    t.cursor_index_queue = 1;
    let songs = vec!["a".to_string(), "b".to_string(), "c".to_string()];
    let mut out = String::new();
    let report = t.draw_full(&mut out, &songs, 2);
    assert!(report.error.is_none());
    assert!(report.song_index_store.is_none());
    assert!(out.starts_with("\x1b[2J\x1b[Hcurrent song index: 1, SONG_INDEX: 2, len: 3\n"));
}

#[test]
fn full_view_too_narrow_for_entry() {
    let mut t = tui_with(10, 14);
    let songs = vec!["/m/a-rather-long-name.mp3".to_string()];
    let mut out = String::new();
    let report = t.draw_full(&mut out, &songs, 0);
    assert_eq!(report.error, Some(DrawError::NotEnoughSpace));
    assert_eq!(t.rendering_mode, RenderMode::NoSpace);
    // the next frame shows the not-enough-space screen and returns to the full view
    let playback = PlaybackStatus { current_secs: 0, total_secs: 0, volume_percent: "0".to_string() };
    let mut out2 = String::new();
    let report2 = t.draw_current(&mut out2, &songs, 0, &playback);
    assert!(report2.error.is_none());
    assert_eq!(t.rendering_mode, RenderMode::Full);
    assert!(out2.contains("Not enough space for the terminal!"));
}

#[test]
fn full_view_aborts() {
    // empty playlist
    let mut t = tui_with(20, 14);
    let mut out = String::new();
    assert_eq!(t.draw_full(&mut out, &Vec::new(), 0).error, Some(DrawError::Abort));
    // terminal too short for the fixed rows
    let mut t = tui_with(20, 11);
    assert_eq!(t.draw_full(&mut out, &vec!["a".to_string()], 0).error, Some(DrawError::Abort));
    // terminal too narrow for the queue title
    let mut t = tui_with(7, 14);
    assert_eq!(t.draw_full(&mut out, &vec!["a".to_string()], 0).error, Some(DrawError::Abort));
    // a scrolled window reads a row past the end of the playlist
    let mut t = tui_with(20, 14);
    t.scrolling_offset = 1;
    t.cursor_index_queue = 2;
    let songs = vec!["a".to_string(), "b".to_string(), "c".to_string()];
    assert_eq!(t.draw_full(&mut out, &songs, 0).error, Some(DrawError::Abort));
}

#[test]
fn rows_fill_the_width() {
    for width in 2u16..40 {
        for len in 0..(width as usize - 1) {
            let text = "y".repeat(len);
            let mut t = tui_with(width, 20);
            let row = t.draw_entry(&text).unwrap();
            let interior = row.trim_start_matches('│').trim_end_matches("\x1B[0m│");
            assert_eq!(interior.len(), width as usize - 2);
        }
    }
}

#[test]
fn time_text_lengths() {
    for t in [0u64, 1, 59, 60, 599, 3599] {
        assert_eq!(format_time(t).len(), 5);
    }
    for t in [3600u64, 7199, 86399, 359999] {
        assert_eq!(format_time(t).len(), 8);
    }
}

#[test]
fn full_view_cursor_stays_in_playlist() {
    let songs = vec!["a".to_string(), "b".to_string(), "c".to_string(), "d".to_string()];
    for cursor in 0..10usize {
        let mut t = tui_with(30, 16);
        t.cursor_index_queue = cursor;
        let mut out = String::new();
        let report = t.draw_full(&mut out, &songs, 0);
        assert!(report.error.is_none());
        assert!(t.cursor_index_queue + t.scrolling_offset < songs.len());
        if cursor >= songs.len() {
            assert_eq!(report.song_index_store, Some(songs.len() - 1));
        } else {
            assert_eq!(report.song_index_store, None);
        }
    }
}

#[test]
fn time_text_reads_back_and_orders() {
    let samples: Vec<u64> = (0..3600).step_by(7).chain((3600..360000).step_by(997)).collect();
    for &t in &samples {
        let text = format_time(t);
        let fields: Vec<u64> = text.split(':').map(|x| x.parse().unwrap()).collect();
        assert_eq!(fields.len(), if t < 3600 { 2 } else { 3 });
        assert_eq!(fields.iter().fold(0, |a, x| a * 60 + x), t);
        assert!(fields[1..].iter().all(|x| *x < 60));
    }
    for w in samples.windows(2) {
        let (a, b) = (w[0], w[1]);
        if b < 3600 || a >= 3600 {
            assert_eq!(format_time(a).len(), format_time(b).len());
            assert!(format_time(a) < format_time(b));
        }
    }
}
