//! An alternative layout of the interface, beside `tui`: its queue rows show
//! the scrolling bookkeeping (`start+offset=index; c1: .., c2: ..`) instead of
//! song names, and its playback bar reads `now playing: <file name>`.

use vstd::prelude::*;
use crate::RenderMode;
use crate::text::{decimal, last_path_segment, last_segment, push_decimal};
use crate::tui::{
    bottom_edge, box_edge, centring_aborts, centred_row, centred_row_text, clear_screen, edge_fits, entry_row,
    highlight_codes, highlighted_row, no_space_text, push_no_space_screen, row_fits, str_len,
    boxed_row, top_edge, song_views, DrawError,
};

verus! {

/// Which part of the interface the cursor is in (`Nowhere` before any).
#[derive(PartialEq, Eq, Structural, Debug, Clone, Copy)]
pub enum CursorLocation {
    Queue,
    Nya,
    NowPlaying,
    Nowhere,
}

/// The state of the alternative interface.
#[derive(PartialEq, Eq, Structural, Debug, Clone, Copy)]
pub struct Tooey {
    pub rendering_mode: RenderMode,
    pub width: u16,
    pub height: u16,
    /// The playlist length, as last told.
    pub playlist_len: u16,
    pub scrolling_offset: usize,
    pub cursor: CursorLocation,
    /// The highlighted queue entry.
    pub cursor_index_queue: u16,
}

/// `true` or `false`, as Rust prints a `bool`.
pub open spec fn bool_text(b: bool) -> Seq<char> {
    if b {
        "true"@
    } else {
        "false"@
    }
}

/// The label of a queue row: `start+offset=index+offset; c1: .., c2: ..`.
pub open spec fn row_label(start: nat, offset: nat, index: nat, c1: bool, c2: bool) -> Seq<char> {
    decimal(start) + "+"@ + decimal(offset) + "="@ + decimal(index + offset) + "; c1: "@ + bool_text(c1)
        + ", c2: "@ + bool_text(c2)
}

/// The queue rows `index..end`, and whether they could be drawn.  On row 0 a
/// cursor below the window sets `c1`, and then, unless the cursor is 0, also
/// `c2`, which moves the start mark to 1 for the rows that follow.  The row whose
/// start mark equals the cursor is highlighted.
pub open spec fn tooey_rows(
    width: u16,
    offset: int,
    cursor: int,
    window: int,
    start: int,
    index: int,
    end: int,
) -> (Seq<char>, Option<DrawError>)
    decreases end - index,
{
    if index >= end {
        (Seq::empty(), None)
    } else {
        let c1 = index == 0 && cursor >= window;
        let c2 = c1 && cursor != index;
        let start2 = if c2 { start + 1 } else { start };
        if index + offset > usize::MAX {
            (Seq::empty(), Some(DrawError::Abort))
        } else {
            let label = row_label(start2 as nat, offset as nat, index as nat, c1, c2);
            if !row_fits(label, width) {
                (Seq::empty(), Some(DrawError::NotEnoughSpace))
            } else {
                let pad = (width - str_len(label) - 2) as nat;
                let row = if start2 == cursor {
                    boxed_row(highlight_codes() + label, pad)
                } else {
                    boxed_row(label, pad)
                };
                let rest = tooey_rows(width, offset, cursor, window, start2, index + 1, end);
                (row + rest.0, rest.1)
            }
        }
    }
}

/// The full view of `t` over `songs`, with `timings` as the time line: the text
/// drawn, whether it could be drawn, and the state afterwards.  An out-of-range
/// cursor is pulled back to the last entry (counted in a `u16`).
pub open spec fn tooey_frame(t: Tooey, songs: Seq<Seq<char>>, timings: Seq<char>) -> (
    Seq<char>,
    Option<DrawError>,
    Tooey,
) {
    let len = songs.len();
    let short_len = len as u16;
    if t.cursor_index_queue >= len && short_len == 0 {
        (Seq::empty(), Some(DrawError::Abort), t)
    } else {
        let c: u16 = if t.cursor_index_queue >= len { (short_len - 1) as u16 } else { t.cursor_index_queue };
        let after = Tooey { cursor_index_queue: c, ..t };
        if !edge_fits(false, "queue"@, t.width) || !edge_fits(false, ""@, t.width) || t.width < 2
            || t.height < 10 {
            (Seq::empty(), Some(DrawError::Abort), after)
        } else {
            let window = t.height - 10;
            let end = if len < window { len as int } else { window as int };
            let head = clear_screen() + "timings: "@ + timings + "\n"@ + top_edge("queue"@, t.width);
            let rows = tooey_rows(t.width, t.scrolling_offset as int, c as int, window as int, 0, 0, end);
            if rows.1 is Some {
                let state = if rows.1 == Some(DrawError::NotEnoughSpace) {
                    Tooey { rendering_mode: RenderMode::NoSpace, ..after }
                } else {
                    after
                };
                (head + rows.0, rows.1, state)
            } else {
                let mid = head + rows.0 + bottom_edge(t.width) + top_edge(""@, t.width);
                let title = "now playing: "@ + last_segment(songs[c as int]);
                let centre = centred_row(title, t.width);
                if centre.1 is Some {
                    let state = if centre.1 == Some(DrawError::NotEnoughSpace) {
                        Tooey { rendering_mode: RenderMode::NoSpace, ..after }
                    } else {
                        after
                    };
                    (mid, centre.1, state)
                } else {
                    (mid + centre.0 + bottom_edge(t.width), None, after)
                }
            }
        }
    }
}

impl Tooey {
    /// A fresh interface: no render mode, no size, the cursor on entry 31.
    pub fn init() -> (r: Tooey)
        ensures
            r == (Tooey {
                rendering_mode: RenderMode::Uninitialized,
                width: 0,
                height: 0,
                playlist_len: 0,
                scrolling_offset: 0,
                cursor: CursorLocation::Nowhere,
                cursor_index_queue: 31,
            }),
    {
        Tooey {
            rendering_mode: RenderMode::Uninitialized,
            width: 0,
            height: 0,
            playlist_len: 0,
            scrolling_offset: 0,
            cursor: CursorLocation::Nowhere,
            cursor_index_queue: 31,
        }
    }

    /// Remembers the playlist length.
    pub fn set_playlist_len(&mut self, len: u16)
        ensures
            *final(self) == (Tooey { playlist_len: len, ..*old(self) }),
    {
        self.playlist_len = len;
    }

    /// Moves the queue cursor to entry `n`.
    pub fn adjust_cursor_queue(&mut self, n: u16)
        ensures
            *final(self) == (Tooey { cursor_index_queue: n, ..*old(self) }),
    {
        self.cursor_index_queue = n;
    }

    /// Chooses how the interface draws itself.
    pub fn render_set_mode(&mut self, mode: RenderMode)
        ensures
            *final(self) == (Tooey { rendering_mode: mode, ..*old(self) }),
    {
        self.rendering_mode = mode;
    }

    /// Takes the terminal size before a frame.
    pub fn pre_rerender_display(&mut self, width: u16, height: u16)
        ensures
            *final(self) == (Tooey { width, height, ..*old(self) }),
    {
        self.width = width;
        self.height = height;
    }

    /// An edge of a box of `term_len` columns (see `tui::box_edge`).
    pub fn draw_box(closing: bool, text: &str, term_len: u16) -> (r: String)
        requires
            edge_fits(closing, text@, term_len),
        ensures
            !closing ==> r@ == top_edge(text@, term_len),
            closing ==> r@ == bottom_edge(term_len),
    {
        box_edge(closing, text, term_len)
    }

    /// A plain queue row for `text`, padded to the terminal width.
    pub fn draw_entry(&mut self, text: &str) -> (r: Result<String, DrawError>)
        ensures
            row_fits(text@, old(self).width) ==> (r matches Ok(row) && row@ == boxed_row(
                text@,
                (old(self).width - str_len(text@) - 2) as nat,
            ) && *final(self) == *old(self)),
            !row_fits(text@, old(self).width) ==> (r matches Err(e) && e == DrawError::NotEnoughSpace
                && *final(self) == (Tooey { rendering_mode: RenderMode::NoSpace, ..*old(self) })),
    {
        match entry_row(text, self.width) {
            Some(row) => Ok(row),
            None => {
                self.render_set_mode(RenderMode::NoSpace);
                Err(DrawError::NotEnoughSpace)
            },
        }
    }

    /// The highlighted queue row for `text`, padded to the terminal width.
    pub fn draw_highlighted_entry(&mut self, text: &str) -> (r: Result<String, DrawError>)
        ensures
            row_fits(text@, old(self).width) ==> (r matches Ok(row) && row@ == boxed_row(
                highlight_codes() + text@,
                (old(self).width - str_len(text@) - 2) as nat,
            ) && *final(self) == *old(self)),
            !row_fits(text@, old(self).width) ==> (r matches Err(e) && e == DrawError::NotEnoughSpace
                && *final(self) == (Tooey { rendering_mode: RenderMode::NoSpace, ..*old(self) })),
    {
        match highlighted_row(text, self.width) {
            Some(row) => Ok(row),
            None => {
                self.render_set_mode(RenderMode::NoSpace);
                Err(DrawError::NotEnoughSpace)
            },
        }
    }

    /// The playback-bar row: `text` centred between the walls of the box.
    pub fn draw_entry_centered(&mut self, text: &str) -> (r: Result<String, DrawError>)
        requires
            centred_row(text@, old(self).width).1 != Some(DrawError::Abort),
        ensures
            centred_row(text@, old(self).width).1 == None::<DrawError> ==> (r matches Ok(row)
                && row@ == centred_row(text@, old(self).width).0 && *final(self) == *old(self)),
            centred_row(text@, old(self).width).1 == Some(DrawError::NotEnoughSpace) ==> (
            r matches Err(e) && e == DrawError::NotEnoughSpace && *final(self) == (Tooey {
                rendering_mode: RenderMode::NoSpace,
                ..*old(self)
            })),
    {
        match centred_row_text(text, self.width) {
            Some(row) => Ok(row),
            None => {
                self.render_set_mode(RenderMode::NoSpace);
                Err(DrawError::NotEnoughSpace)
            },
        }
    }

    /// Draws the screen that says the terminal is too small, then goes back to
    /// the full view for the next frame.
    pub fn draw_not_enough_space(&mut self, out: &mut String)
        ensures
            final(out)@ == old(out)@ + no_space_text(),
            *final(self) == (Tooey { rendering_mode: RenderMode::Full, ..*old(self) }),
    {
        push_no_space_screen(out);
        self.render_set_mode(RenderMode::Full);
    }

    /// Appends the label of queue row `index`.
    #[verifier::spinoff_prover]
    fn push_row_label(out: &mut String, start: usize, offset: usize, index: usize, c1: bool, c2: bool)
        requires
            index + offset <= usize::MAX,
        ensures
            final(out)@ == old(out)@ + row_label(start as nat, offset as nat, index as nat, c1, c2),
    {
        let ghost s0 = out@;
        push_decimal(out, start as u64);
        out.append("+");
        push_decimal(out, offset as u64);
        out.append("=");
        push_decimal(out, (index + offset) as u64);
        let ghost s1 = out@;
        assert(s1 == s0 + (decimal(start as nat) + "+"@ + decimal(offset as nat) + "="@ + decimal(
            (index + offset) as nat,
        )));
        out.append("; c1: ");
        Tooey::push_bool(out, c1);
        out.append(", c2: ");
        Tooey::push_bool(out, c2);
        assert(out@ == s1 + ("; c1: "@ + bool_text(c1) + ", c2: "@ + bool_text(c2)));
    }

    /// Appends `true` or `false`.
    fn push_bool(out: &mut String, b: bool)
        ensures
            final(out)@ == old(out)@ + bool_text(b),
    {
        if b {
            out.append("true");
        } else {
            out.append("false");
        }
    }

    /// Draws the queue rows `0..end` (see `tooey_rows`).
    fn draw_rows(&mut self, out: &mut String, window: u16, end: usize) -> (r: Option<DrawError>)
        ensures
            r == tooey_rows(
                old(self).width,
                old(self).scrolling_offset as int,
                old(self).cursor_index_queue as int,
                window as int,
                0,
                0,
                end as int,
            ).1,
            r != Some(DrawError::Abort) ==> final(out)@ == old(out)@ + tooey_rows(
                old(self).width,
                old(self).scrolling_offset as int,
                old(self).cursor_index_queue as int,
                window as int,
                0,
                0,
                end as int,
            ).0,
            r == None::<DrawError> ==> *final(self) == *old(self),
            r == Some(DrawError::NotEnoughSpace) ==> *final(self) == (Tooey {
                rendering_mode: RenderMode::NoSpace,
                ..*old(self)
            }),
    {
        let width = self.width;
        let offset = self.scrolling_offset;
        let cursor = self.cursor_index_queue;
        let ghost rows0 = tooey_rows(width, offset as int, cursor as int, window as int, 0, 0, end as int);
        let ghost mut acc: Seq<char> = Seq::empty();
        let mut start: usize = 0;
        let mut index: usize = 0;
        while index < end
            invariant
                *self == *old(self),
                width == self.width,
                offset == self.scrolling_offset,
                cursor == self.cursor_index_queue,
                start <= 1,
                index <= end,
                index > 0 || start == 0,
                out@ == old(out)@ + acc,
                rows0 == tooey_rows(width, offset as int, cursor as int, window as int, 0, 0, end as int),
                rows0.0 == acc + tooey_rows(
                    width,
                    offset as int,
                    cursor as int,
                    window as int,
                    start as int,
                    index as int,
                    end as int,
                ).0,
                rows0.1 == tooey_rows(
                    width,
                    offset as int,
                    cursor as int,
                    window as int,
                    start as int,
                    index as int,
                    end as int,
                ).1,
            decreases end - index,
        {
            let c1 = index == 0 && cursor >= window;
            let c2 = c1 && cursor as usize != index;
            if c2 {
                start = start + 1;
            }
            if offset > usize::MAX - index {
                return Some(DrawError::Abort);
            }
            let mut label = String::new();
            Tooey::push_row_label(&mut label, start, offset, index, c1, c2);
            let entry = if start == cursor as usize {
                self.draw_highlighted_entry(label.as_str())
            } else {
                self.draw_entry(label.as_str())
            };
            match entry {
                Ok(e) => {
                    out.append(e.as_str());
                    proof {
                        acc = acc + e@;
                    }
                },
                Err(e) => {
                    return Some(e);
                },
            }
            index = index + 1;
        }
        None
    }

    /// Appends the start of the full view: the time line and the opening edge of
    /// the queue box.
    fn push_head(out: &mut String, timings: &str, width: u16)
        requires
            edge_fits(false, "queue"@, width),
        ensures
            final(out)@ == old(out)@ + (clear_screen() + "timings: "@ + timings@ + "\n"@ + top_edge(
                "queue"@,
                width,
            )),
    {
        out.append("\x1b[2J\x1b[H");
        out.append("timings: ");
        out.append(timings);
        out.append("\n");
        let opening_box = box_edge(false, "queue", width);
        out.append(opening_box.as_str());
    }

    /// Appends the closing edge of the queue box and the opening edge of the
    /// playback bar.
    fn push_queue_end(out: &mut String, width: u16)
        requires
            edge_fits(false, ""@, width),
            width >= 2,
        ensures
            final(out)@ == old(out)@ + (bottom_edge(width) + top_edge(""@, width)),
    {
        let closing_box = box_edge(true, "", width);
        let opening_box1 = box_edge(false, "", width);
        out.append(closing_box.as_str());
        out.append(opening_box1.as_str());
    }

    /// Draws the full view (see `tooey_frame`); `timings` fills the time line.
    #[verifier::rlimit(60)]
    #[verifier::spinoff_prover]
    pub fn draw_full(&mut self, out: &mut String, songs: &Vec<String>, timings: &str) -> (r: Option<DrawError>)
        ensures
            r == tooey_frame(*old(self), song_views(songs@), timings@).1,
            r != Some(DrawError::Abort) ==> final(out)@ == old(out)@ + tooey_frame(
                *old(self),
                song_views(songs@),
                timings@,
            ).0 && *final(self) == tooey_frame(*old(self), song_views(songs@), timings@).2,
    {
        let ghost views = song_views(songs@);
        let len = songs.len();
        let short_len = len as u16;
        if self.cursor_index_queue as usize >= len {
            if short_len == 0 {
                return Some(DrawError::Abort);
            }
            self.cursor_index_queue = short_len - 1;
        }
        let width = self.width;
        let queue_len = "queue".len();
        let empty_len = "".len();
        if !(width >= 3 && width - 3 >= #[verifier::truncate] (queue_len as u16)) || !(width >= 3
            && width - 3 >= #[verifier::truncate] (empty_len as u16)) || width < 2 || self.height
            < 10 {
            return Some(DrawError::Abort);
        }
        let window = self.height - 10;
        let end: usize = if len < window as usize { len } else { window as usize };
        Tooey::push_head(out, timings, width);
        if let Some(e) = self.draw_rows(out, window, end) {
            return Some(e);
        }
        Tooey::push_queue_end(out, width);
        let name = last_path_segment(songs[self.cursor_index_queue as usize].as_str());
        assert(name@ == last_segment(views[self.cursor_index_queue as int]));
        let mut title = String::new();
        title.append("now playing: ");
        title.append(name);
        if centring_aborts(title.as_str(), width) {
            return Some(DrawError::Abort);
        }
        let now_playing = match self.draw_entry_centered(title.as_str()) {
            Ok(row) => row,
            Err(e) => {
                return Some(e);
            },
        };
        out.append(now_playing.as_str());
        let closing_box2 = box_edge(true, "asdadsad", width);
        out.append(closing_box2.as_str());
        None
    }


    /// Whether to draw again right away after a frame: it failed for want of
    /// space and the interface has switched to the not-enough-space view.
    pub fn needs_redraw(&self, error: Option<DrawError>) -> (r: bool)
        ensures
            r == (error == Some(DrawError::NotEnoughSpace) && self.rendering_mode == RenderMode::NoSpace),
    {
        match error {
            Some(DrawError::NotEnoughSpace) => self.rendering_mode == RenderMode::NoSpace,
            _ => false,
        }
    }

    /// Draws a frame in the current render mode: the full view, or the
    /// not-enough-space screen (after which the full view is back).
    pub fn draw_current(&mut self, out: &mut String, songs: &Vec<String>, timings: &str) -> (r: Option<DrawError>)
        requires
            old(self).rendering_mode == RenderMode::Full || old(self).rendering_mode
                == RenderMode::NoSpace,
        ensures
            old(self).rendering_mode == RenderMode::Full ==> r == tooey_frame(
                *old(self),
                song_views(songs@),
                timings@,
            ).1 && (r != Some(DrawError::Abort) ==> final(out)@ == old(out)@ + tooey_frame(
                *old(self),
                song_views(songs@),
                timings@,
            ).0 && *final(self) == tooey_frame(*old(self), song_views(songs@), timings@).2),
            old(self).rendering_mode == RenderMode::NoSpace ==> r == None::<DrawError> && final(out)@
                == old(out)@ + no_space_text() && *final(self) == (Tooey {
                rendering_mode: RenderMode::Full,
                ..*old(self)
            }),
    {
        if self.rendering_mode == RenderMode::Full {
            self.draw_full(out, songs, timings)
        } else {
            self.draw_not_enough_space(out);
            None
        }
    }

    /// Switches the terminal to its alternate screen.
    pub fn enter_alt_buffer(&self, out: &mut String)
        ensures
            final(out)@ == old(out)@ + "\x1B[?1049h\n"@,
    {
        out.append("\x1B[?1049h\n");
    }

    /// Switches the terminal back from its alternate screen.
    pub fn leave_alt_buffer(&self, out: &mut String)
        ensures
            final(out)@ == old(out)@ + "\x1B[?1049l\n"@,
    {
        out.append("\x1B[?1049l\n");
    }

    /// Draws the playlist (nothing, as yet).
    pub fn echotune_render_playlist(&mut self)
        ensures
            *final(self) == *old(self),
    {
    }
}

} // verus!
