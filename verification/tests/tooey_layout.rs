use echotune::tooey::{CursorLocation, Tooey};
use echotune::tui::DrawError;
use echotune::RenderMode;

fn songs() -> Vec<String> {
    vec!["/m/a.mp3".to_string(), "/m/b.mp3".to_string(), "/m/c.mp3".to_string()]
}

#[test]
fn tooey_init_and_setters() {
    let mut t = Tooey::init();
    assert_eq!(t.cursor_index_queue, 31);
    assert_eq!(t.cursor, CursorLocation::Nowhere);
    assert_eq!(t.rendering_mode, RenderMode::Uninitialized);
    t.set_playlist_len(7);
    assert_eq!(t.playlist_len, 7);
    t.adjust_cursor_queue(t.cursor_index_queue + 1);
    assert_eq!(t.cursor_index_queue, 32);
    t.pre_rerender_display(80, 24);
    assert_eq!((t.width, t.height), (80, 24));
    t.echotune_render_playlist();
    assert_eq!(t.width, 80);
}

#[test]
fn tooey_full_view_cursor_below_window() {
    let mut t = Tooey::init();
    t.render_set_mode(RenderMode::Full);
    t.pre_rerender_display(40, 12);
    let mut out = String::new();
    let r = t.draw_current(&mut out, &songs(), "T");
    assert_eq!(r, None);
    assert_eq!(t.cursor_index_queue, 2);
    let pad = |n: usize| " ".repeat(n);
    let expected = String::new()
        + "\x1b[2J\x1b[H"
        + "timings: T\n"
        + "╭─queue" + &"─".repeat(32) + "╮"
        + "│1+0=0; c1: true, c2: true" + &pad(13) + "\x1B[0m│"
        + "│1+0=1; c1: false, c2: false" + &pad(11) + "\x1B[0m│"
        + "╰" + &"─".repeat(38) + "╯"
        + "╭─" + &"─".repeat(37) + "╮"
        + "│" + &pad(9) + "now playing: c.mp3" + &pad(11) + "\x1B[0m│"
        + "╰" + &"─".repeat(38) + "╯";
    assert_eq!(out, expected);
}

#[test]
fn tooey_highlights_start_row() {
    let mut t = Tooey::init();
    t.render_set_mode(RenderMode::Full);
    t.adjust_cursor_queue(0);
    t.pre_rerender_display(40, 20);
    let mut out = String::new();
    assert_eq!(t.draw_full(&mut out, &songs(), "T"), None);
    assert!(out.contains("\x1B[48;2;245;194;231m\x1B[38;2;30;30;46m0+0=0; c1: false, c2: false"));
    assert!(out.contains("now playing: a.mp3"));
}

#[test]
fn tooey_not_enough_space_then_back() {
    let mut t = Tooey::init();
    t.render_set_mode(RenderMode::Full);
    t.pre_rerender_display(20, 20);
    let mut out = String::new();
    assert_eq!(t.draw_current(&mut out, &songs(), "T"), Some(DrawError::NotEnoughSpace));
    assert_eq!(t.rendering_mode, RenderMode::NoSpace);
    let mut out2 = String::new();
    assert_eq!(t.draw_current(&mut out2, &songs(), "T"), None);
    assert!(out2.contains("Not enough space for the terminal!"));
    assert_eq!(t.rendering_mode, RenderMode::Full);
}

#[test]
fn tooey_aborts() {
    let mut t = Tooey::init();
    t.render_set_mode(RenderMode::Full);
    t.pre_rerender_display(40, 9);
    let mut out = String::new();
    assert_eq!(t.draw_full(&mut out, &songs(), "T"), Some(DrawError::Abort));
    let mut t = Tooey::init();
    t.pre_rerender_display(40, 20);
    assert_eq!(t.draw_full(&mut out, &Vec::new(), "T"), Some(DrawError::Abort));
}
