//! The layout of the text user interface.
//!
//! `Tui` holds what the interface remembers between frames: the render mode,
//! the terminal size, how far the queue is scrolled and where the cursor is.
//! Drawing appends the bytes of a frame to an output string, which the caller
//! writes to the terminal.

use vstd::prelude::*;
use crate::RenderMode;
use crate::text::{
    all_digits, digit_char, digits_value, lemma_pad2_reads_back, lemma_pad2_two_digits, two_digits,
    lemma_ascii_byte_len, lemma_encode_utf8_concat, lemma_repeat_ascii, lemma_repeat_len,
    byte_len, decimal, last_path_segment, last_segment, pad2, push_char, push_decimal, push_pad2,
    push_repeated, repeat_seq,
};

verus! {

/// Why a frame could not be drawn.
#[derive(PartialEq, Eq, Structural, Debug, Clone, Copy)]
pub enum DrawError {
    /// The terminal is too small for what was to be drawn; the interface has
    /// switched to the not-enough-space view.
    NotEnoughSpace,
    /// The frame hit an inconsistent layout (an empty queue, a terminal too small
    /// to lay out at all, a cursor left of the scrolled window, a queue row past
    /// the end of the playlist, or a title that cannot be centred); the player
    /// stops the interface here.
    Abort,
}

/// The number of bytes of a text, as `str::len` gives it.
pub open spec fn str_len(s: Seq<char>) -> usize {
    byte_len(s) as usize
}

/// `n` spaces.
pub open spec fn spaces(n: nat) -> Seq<char> {
    repeat_seq(" "@, n)
}

/// A queue row: `text` between the box's side walls, followed by `padding` spaces.
/// The row ends by resetting the terminal colours.
pub open spec fn boxed_row(text: Seq<char>, padding: nat) -> Seq<char> {
    "│"@ + text + spaces(padding) + "\x1B[0m│"@
}

/// The colour codes that mark the highlighted queue row.
pub open spec fn highlight_codes() -> Seq<char> {
    "\x1B[48;2;245;194;231m\x1B[38;2;30;30;46m"@
}

/// The top edge of a box of `term_len` columns with `text` as its title.
pub open spec fn top_edge(text: Seq<char>, term_len: u16) -> Seq<char> {
    "╭─"@ + text + repeat_seq("─"@, ((term_len - 3) - (str_len(text) as u16)) as nat) + "╮"@
}

/// The bottom edge of a box of `term_len` columns.
pub open spec fn bottom_edge(term_len: u16) -> Seq<char> {
    "╰"@ + repeat_seq("─"@, (term_len - 2) as nat) + "╯"@
}

/// A box edge can be drawn: the corners (and, on the opening edge, the title) fit
/// in `term_len` columns.
pub open spec fn edge_fits(closing: bool, text: Seq<char>, term_len: u16) -> bool {
    if !closing {
        term_len >= 3 && term_len - 3 >= (str_len(text) as u16)
    } else {
        term_len >= 2
    }
}

/// `t` seconds as `MM:SS`, or `HH:MM:SS` from one hour on.
pub open spec fn time_text(t: nat) -> Seq<char> {
    let hrs = t / 3600;
    let mins = (t % 3600) / 60;
    let secs = t % 60;
    if hrs == 0 {
        pad2(mins) + seq![':'] + pad2(secs)
    } else {
        pad2(hrs) + seq![':'] + pad2(mins) + seq![':'] + pad2(secs)
    }
}

/// The spaces on each side of a centred title.
pub open spec fn centre_pad(len: int, width: int) -> nat {
    ((width - len - 2) / 2) as nat
}

/// `text` with the spaces that centre it between the walls of a `width`-column
/// row.  Each side gets `centre_pad` spaces; the left side loses two when both
/// the text's length and the width are even, and a space follows the left side
/// when the text's length is even and ends the row when the width is even.
pub open spec fn centred_interior(text: Seq<char>, width: u16) -> Seq<char> {
    let len = str_len(text) as int;
    let pad = centre_pad(len, width as int);
    let both_even = len % 2 == 0 && width % 2 == 0;
    let lead = if both_even { spaces((pad - 2) as nat) } else { spaces(pad) };
    let odd_fix = if len % 2 == 0 { seq![' '] } else { Seq::empty() };
    let tail = if width % 2 == 0 { seq![' '] } else { Seq::empty() };
    lead + odd_fix + text + spaces(pad) + tail
}

/// The playback-bar row with `text` centred in `width` columns, and whether it
/// could be drawn.
pub open spec fn centred_row(text: Seq<char>, width: u16) -> (Seq<char>, Option<DrawError>) {
    let len = str_len(text) as int;
    if len > 65535 {
        (Seq::empty(), Some(DrawError::Abort))
    } else if len > width || width - len < 2 {
        (Seq::empty(), Some(DrawError::NotEnoughSpace))
    } else {
        let pad = centre_pad(len, width as int);
        let both_even = len % 2 == 0 && width % 2 == 0;
        if both_even && pad < 2 {
            (Seq::empty(), Some(DrawError::Abort))
        } else {
            (boxed_row(centred_interior(text, width), 0), None)
        }
    }
}

/// A queue row can be drawn in `width` columns: the text and the two walls fit.
pub open spec fn row_fits(text: Seq<char>, width: u16) -> bool {
    str_len(text) + 2 <= width
}

/// The sequence that clears the terminal and puts the cursor top left.
pub open spec fn clear_screen() -> Seq<char> {
    "\x1b[2J\x1b[H"@
}

/// The scrolling offset after a frame: the window scrolls down by one row when
/// the cursor has reached its last row, and up to the cursor when the cursor is
/// at or above its first row.
pub open spec fn offset_after(cursor: usize, offset: usize, height: u16) -> int {
    if cursor >= (height - 12) + offset {
        offset + 1
    } else if cursor <= offset {
        cursor as int
    } else {
        offset as int
    }
}

/// The scrolling offset can be updated: the terminal has room for the fixed
/// parts of the interface and the window bounds fit in a `usize`.
pub open spec fn offset_update_defined(cursor: usize, offset: usize, height: u16) -> bool {
    &&& height >= 12
    &&& (height - 12) + offset <= usize::MAX
    &&& offset_after(cursor, offset, height) <= usize::MAX
}

/// The screen that says the terminal is too small.
pub open spec fn no_space_text() -> Seq<char> {
    clear_screen() + "Echotune Error\n"@ + "\n"@ + "Not enough space for the terminal!\n"@
        + "Resize your terminal in order to see the queue. Keyboard input is still functional.\n"@
        + "To suppress this message, enter rm -rf /* in another shell session running under UID0 (root).\n"@
}

/// The minimal view: the song's file name, its position and length, and the volume.
pub open spec fn safe_text(song: Seq<char>, current: nat, total: nat, volume: Seq<char>) -> Seq<char> {
    clear_screen() + song + "\n"@ + time_text(current) + " / "@ + time_text(total) + "\n"@ + "󰕾 "@
        + volume + "%\n"@
}

/// The queue rows `i..end` of the full view, and whether they could be drawn.
/// Row `i` shows playlist entry `i + offset`; the row equal to `cursor` is
/// highlighted.
pub open spec fn queue_rows(
    songs: Seq<Seq<char>>,
    width: u16,
    offset: int,
    cursor: int,
    i: int,
    end: int,
) -> (Seq<char>, Option<DrawError>)
    decreases end - i,
{
    if i >= end || i >= songs.len() {
        (Seq::empty(), None)
    } else if i < offset {
        queue_rows(songs, width, offset, cursor, i + 1, end)
    } else if i + offset >= songs.len() {
        (Seq::empty(), Some(DrawError::Abort))
    } else {
        let line = last_segment(songs[i + offset]);
        if !row_fits(line, width) {
            (Seq::empty(), Some(DrawError::NotEnoughSpace))
        } else {
            let pad = (width - str_len(line) - 2) as nat;
            let row = if i == cursor {
                boxed_row(highlight_codes() + line, pad)
            } else {
                boxed_row(line, pad)
            };
            let rest = queue_rows(songs, width, offset, cursor, i + 1, end);
            (row + rest.0, rest.1)
        }
    }
}

/// The full view of `t` over the playlist `songs`: the text drawn, whether it
/// could be drawn, the interface state afterwards and the song index to publish.
///
/// An out-of-range cursor is pulled back to the last entry (and published); an
/// out-of-range scrolling offset is pulled back likewise.  The view is a debug
/// line, the queue box with one row per visible entry, and the playback bar
/// with the current song's file name centred, followed by the offset and the
/// cursor.  Afterwards the cursor is relative to the scrolled window.
pub open spec fn full_frame(t: Tui, songs: Seq<Seq<char>>, song_index: usize) -> (
    Seq<char>,
    Option<DrawError>,
    Tui,
    Option<usize>,
) {
    let len = songs.len();
    if len == 0 {
        (Seq::empty(), Some(DrawError::Abort), t, None)
    } else {
        let c: int = if t.cursor_index_queue >= len { len - 1 } else { t.cursor_index_queue as int };
        let o: int = if t.cursor_index_queue >= len {
            t.scrolling_offset as int
        } else if t.scrolling_offset >= len {
            len - 1
        } else {
            t.scrolling_offset as int
        };
        let store: Option<usize> = if t.cursor_index_queue >= len {
            Some((len - 1) as usize)
        } else {
            None
        };
        if !edge_fits(false, "queue"@, t.width) || !edge_fits(false, ""@, t.width) || t.width < 2 || c
            < o || t.height < 12 || (t.height - 12) + o > usize::MAX {
            (Seq::empty(), Some(DrawError::Abort), t, store)
        } else {
            let rel = c - o;
            let after = Tui {
                cursor_index_queue: rel as usize,
                scrolling_offset: o as usize,
                ..t
            };
            let shown: nat = if store is Some { c as nat } else { song_index as nat };
            let head = full_head(c as nat, shown, len, t.width);
            let rows = queue_rows(songs, t.width, o, rel, 0, (t.height - 12) + o);
            if rows.1 is Some {
                let state = if rows.1 == Some(DrawError::NotEnoughSpace) {
                    Tui { rendering_mode: RenderMode::NoSpace, ..after }
                } else {
                    after
                };
                (head + rows.0, rows.1, state, store)
            } else {
                let mid = head + rows.0 + bottom_edge(t.width);
                let centre = centred_row(last_segment(songs[c]), t.width);
                if centre.1 is Some {
                    let state = if centre.1 == Some(DrawError::NotEnoughSpace) {
                        Tui { rendering_mode: RenderMode::NoSpace, ..after }
                    } else {
                        after
                    };
                    (mid, centre.1, state, store)
                } else {
                    (
                        mid + playback_bar(centre.0, t.width, o as nat, rel as nat),
                        None,
                        after,
                        store,
                    )
                }
            }
        }
    }
}

/// The start of the full view: a debug line with the cursor, the shared song
/// index and the playlist length, then the top edge of the queue box.
pub open spec fn full_head(cursor: nat, song_index: nat, len: nat, width: u16) -> Seq<char> {
    clear_screen() + "current song index: "@ + decimal(cursor) + ", SONG_INDEX: "@ + decimal(song_index)
        + ", len: "@ + decimal(len) + "\n"@ + top_edge("queue"@, width) + "\n"@
}

/// The end of the full view: the playback bar around the centred row, then the
/// scrolling offset and the relative cursor.
pub open spec fn playback_bar(centred: Seq<char>, width: u16, offset: nat, cursor: nat) -> Seq<char> {
    top_edge(""@, width) + centred + bottom_edge(width) + decimal(offset) + ", "@ + decimal(cursor)
        + "\n"@
}

/// The minimal view of `t` over the playlist `songs`: the text drawn, whether it
/// could be drawn, the interface state afterwards and the song index to publish.
/// An out-of-range cursor is pulled back to the last entry and published.
pub open spec fn safe_frame(t: Tui, songs: Seq<Seq<char>>, current: nat, total: nat, volume: Seq<char>) -> (
    Seq<char>,
    Option<DrawError>,
    Tui,
    Option<usize>,
) {
    let len = songs.len();
    if len == 0 {
        (Seq::empty(), Some(DrawError::Abort), t, None)
    } else {
        let pulled_back = t.cursor_index_queue >= len;
        let c: int = if pulled_back { len - 1 } else { t.cursor_index_queue as int };
        (
            safe_text(last_segment(songs[c]), current, total, volume),
            None,
            Tui { cursor_index_queue: c as usize, ..t },
            if pulled_back { Some(c as usize) } else { None },
        )
    }
}

/// The modes in which a frame can be drawn.
pub open spec fn drawable_mode(mode: RenderMode) -> bool {
    mode == RenderMode::Full || mode == RenderMode::Safe || mode == RenderMode::NoSpace
}

/// The frame that the current render mode of `t` draws.
pub open spec fn current_frame(
    t: Tui,
    songs: Seq<Seq<char>>,
    song_index: usize,
    current: nat,
    total: nat,
    volume: Seq<char>,
) -> (
    Seq<char>,
    Option<DrawError>,
    Tui,
    Option<usize>,
) {
    if t.rendering_mode == RenderMode::Full {
        full_frame(t, songs, song_index)
    } else if t.rendering_mode == RenderMode::Safe {
        safe_frame(t, songs, current, total, volume)
    } else {
        (no_space_text(), None, Tui { rendering_mode: RenderMode::Full, ..t }, None)
    }
}

/// The views of the playlist entries.
pub open spec fn song_views(songs: Seq<String>) -> Seq<Seq<char>> {
    songs.map_values(|s: String| s@)
}

/// What drawing a frame reports besides the text it appended.
#[derive(Debug, Clone, Copy)]
pub struct FrameReport {
    /// The song index to publish, when the frame pulled an out-of-range cursor back.
    pub song_index_store: Option<usize>,
    /// What went wrong, if the frame could not be drawn.
    pub error: Option<DrawError>,
}

/// What the minimal view shows besides the song's name.
pub struct PlaybackStatus {
    /// Seconds played of the current song.
    pub current_secs: u64,
    /// Length of the current song in seconds.
    pub total_secs: u64,
    /// The volume in percent, as text.
    pub volume_percent: String,
}

/// An edge of a box of `term_len` columns: the closing (bottom) edge when
/// `closing` holds, else the opening (top) edge with `text` as its title.
pub fn box_edge(closing: bool, text: &str, term_len: u16) -> (r: String)
    requires
        edge_fits(closing, text@, term_len),
    ensures
        !closing ==> r@ == top_edge(text@, term_len),
        closing ==> r@ == bottom_edge(term_len),
{
    let mut r = String::new();
    if !closing {
        let title_len = text.len() as u16;
        r.append("╭─");
        r.append(text);
        push_repeated(&mut r, "─", ((term_len - 3) - title_len) as usize);
        r.append("╮");
    } else {
        r.append("╰");
        push_repeated(&mut r, "─", (term_len - 2) as usize);
        r.append("╯");
    }
    r
}

/// Appends the screen that says the terminal is too small.
pub fn push_no_space_screen(out: &mut String)
    ensures
        final(out)@ == old(out)@ + no_space_text(),
{
    out.append("\x1b[2J\x1b[H");
    out.append("Echotune Error\n");
    out.append("\n");
    out.append("Not enough space for the terminal!\n");
    out.append(
        "Resize your terminal in order to see the queue. Keyboard input is still functional.\n",
    );
    out.append(
        "To suppress this message, enter rm -rf /* in another shell session running under UID0 (root).\n",
    );
}

/// Whether centring `text` in `width` columns hits an inconsistent layout: a
/// title longer than 65535 bytes, or one that leaves fewer than two spaces per
/// side when both its length and the width are even.
pub fn centring_aborts(text: &str, width: u16) -> (b: bool)
    ensures
        b == (centred_row(text@, width).1 == Some(DrawError::Abort)),
{
    let len = text.len();
    if len > 65535 {
        return true;
    }
    let w = width as usize;
    if len > w || w - len < 2 {
        return false;
    }
    let pad = (w - len - 2) / 2;
    len % 2 == 0 && w % 2 == 0 && pad < 2
}

/// A plain queue row for `text` in `width` columns, if it fits.
pub fn entry_row(text: &str, width: u16) -> (r: Option<String>)
    ensures
        row_fits(text@, width) ==> (r is Some && r->0@ == boxed_row(
            text@,
            (width - str_len(text@) - 2) as nat,
        )),
        !row_fits(text@, width) ==> r is None,
{
    let w = width as usize;
    match w.checked_sub(text.len().saturating_add(2)) {
        Some(padding) => Some(box_draw_entry(text, padding)),
        None => None,
    }
}

/// A highlighted queue row for `text` in `width` columns, if it fits.
pub fn highlighted_row(text: &str, width: u16) -> (r: Option<String>)
    ensures
        row_fits(text@, width) ==> (r is Some && r->0@ == boxed_row(
            highlight_codes() + text@,
            (width - str_len(text@) - 2) as nat,
        )),
        !row_fits(text@, width) ==> r is None,
{
    let w = width as usize;
    match w.checked_sub(text.len().saturating_add(2)) {
        Some(padding) => {
            let mut out = String::new();
            out.append("\x1B[48;2;245;194;231m\x1B[38;2;30;30;46m");
            out.append(text);
            Some(box_draw_entry(out.as_str(), padding))
        },
        None => None,
    }
}

/// The playback-bar row with `text` centred in `width` columns, if it fits.
pub fn centred_row_text(text: &str, width: u16) -> (r: Option<String>)
    requires
        centred_row(text@, width).1 != Some(DrawError::Abort),
    ensures
        centred_row(text@, width).1 == None::<DrawError> ==> (r is Some && r->0@ == centred_row(
            text@,
            width,
        ).0),
        centred_row(text@, width).1 == Some(DrawError::NotEnoughSpace) ==> r is None,
{
    let len = text.len();
    let title_len = len as u16;
    let pad_len: usize = match width.checked_sub(title_len) {
        Some(n) => match n.checked_sub(2) {
            Some(n) => (n / 2) as usize,
            None => {
                return None;
            },
        },
        None => {
            return None;
        },
    };
    let mut ntext = String::new();
    if len % 2 == 0 && width % 2 == 0 {
        push_repeated(&mut ntext, " ", pad_len - 2);
    } else {
        push_repeated(&mut ntext, " ", pad_len);
    }
    if len % 2 == 0 {
        push_char(&mut ntext, ' ');
    }
    ntext.append(text);
    push_repeated(&mut ntext, " ", pad_len);
    if width % 2 == 0 {
        push_char(&mut ntext, ' ');
    }
    Some(box_draw_entry(ntext.as_str(), 0))
}

/// The state of the user interface.
#[derive(PartialEq, Eq, Structural, Debug, Clone, Copy)]
pub struct Tui {
    pub rendering_mode: RenderMode,
    pub width: u16,
    pub height: u16,
    pub scrolling_offset: usize,
    /// The highlighted queue entry (relative to the scrolled window once a full
    /// frame has been drawn).
    pub cursor_index_queue: usize,
}

/// `text` between the walls of a queue row, followed by `padding` spaces.
pub fn box_draw_entry(text: &str, padding: usize) -> (r: String)
    ensures
        r@ == boxed_row(text@, padding as nat),
{
    let mut r = String::new();
    r.append("│");
    r.append(text);
    push_repeated(&mut r, " ", padding);
    r.append("\x1B[0m│");
    r
}

/// `t` seconds as `MM:SS`, or `HH:MM:SS` from one hour on (each part at least
/// two digits wide).
pub fn format_time(t: u64) -> (r: String)
    ensures
        r@ == time_text(t as nat),
{
    let hrs = t / 3600;
    let mins = (t % 3600) / 60;
    let secs = t % 60;
    let mut r = String::new();
    if hrs == 0 {
        push_pad2(&mut r, mins);
        push_char(&mut r, ':');
        push_pad2(&mut r, secs);
    } else {
        push_pad2(&mut r, hrs);
        push_char(&mut r, ':');
        push_pad2(&mut r, mins);
        push_char(&mut r, ':');
        push_pad2(&mut r, secs);
    }
    r
}

impl Tui {
    /// A fresh interface: no render mode chosen, no size known, nothing scrolled.
    pub fn init() -> (r: Tui)
        ensures
            r.rendering_mode == RenderMode::Uninitialized,
            r.width == 0,
            r.height == 0,
            r.scrolling_offset == 0,
            r.cursor_index_queue == 0,
    {
        Tui {
            rendering_mode: RenderMode::Uninitialized,
            width: 0,
            height: 0,
            scrolling_offset: 0,
            cursor_index_queue: 0,
        }
    }

    /// Chooses how the interface draws itself.
    pub fn render_set_mode(&mut self, mode: RenderMode)
        ensures
            *final(self) == (Tui { rendering_mode: mode, ..*old(self) }),
    {
        self.rendering_mode = mode;
    }

    /// An edge of a box of `term_len` columns: `false` for the opening (top)
    /// edge with `text` as its title, `true` for the closing (bottom) edge.
    pub fn draw_box(closing: bool, text: &str, term_len: u16) -> (r: String)
        requires
            edge_fits(closing, text@, term_len),
        ensures
            !closing ==> r@ == top_edge(text@, term_len),
            closing ==> r@ == bottom_edge(term_len),
    {
        box_edge(closing, text, term_len)
    }

    /// A plain queue row for `text`, padded to the terminal width.
    pub fn draw_entry(&mut self, text: &str) -> (r: Result<String, DrawError>)
        ensures
            row_fits(text@, old(self).width) ==> (r matches Ok(row) && row@ == boxed_row(
                text@,
                (old(self).width - str_len(text@) - 2) as nat,
            ) && *final(self) == *old(self)),
            !row_fits(text@, old(self).width) ==> (r matches Err(e) && e == DrawError::NotEnoughSpace
                && *final(self) == (Tui { rendering_mode: RenderMode::NoSpace, ..*old(self) })),
    {
        match entry_row(text, self.width) {
            Some(row) => Ok(row),
            None => {
                self.render_set_mode(RenderMode::NoSpace);
                Err(DrawError::NotEnoughSpace)
            },
        }
    }

    /// The highlighted queue row for `text`, padded to the terminal width.
    pub fn draw_highlighted_entry(&mut self, text: &str) -> (r: Result<String, DrawError>)
        ensures
            row_fits(text@, old(self).width) ==> (r matches Ok(row) && row@ == boxed_row(
                highlight_codes() + text@,
                (old(self).width - str_len(text@) - 2) as nat,
            ) && *final(self) == *old(self)),
            !row_fits(text@, old(self).width) ==> (r matches Err(e) && e == DrawError::NotEnoughSpace
                && *final(self) == (Tui { rendering_mode: RenderMode::NoSpace, ..*old(self) })),
    {
        match highlighted_row(text, self.width) {
            Some(row) => Ok(row),
            None => {
                self.render_set_mode(RenderMode::NoSpace);
                Err(DrawError::NotEnoughSpace)
            },
        }
    }

    /// The playback-bar row: `text` centred between the walls of the box.
    pub fn draw_entry_centered(&mut self, text: &str) -> (r: Result<String, DrawError>)
        requires
            centred_row(text@, old(self).width).1 != Some(DrawError::Abort),
        ensures
            centred_row(text@, old(self).width).1 == None::<DrawError> ==> (r matches Ok(row)
                && row@ == centred_row(text@, old(self).width).0 && *final(self) == *old(self)),
            centred_row(text@, old(self).width).1 == Some(DrawError::NotEnoughSpace) ==> (
            r matches Err(e) && e == DrawError::NotEnoughSpace && *final(self) == (Tui {
                rendering_mode: RenderMode::NoSpace,
                ..*old(self)
            })),
    {
        match centred_row_text(text, self.width) {
            Some(row) => Ok(row),
            None => {
                self.render_set_mode(RenderMode::NoSpace);
                Err(DrawError::NotEnoughSpace)
            },
        }
    }

    /// Scrolls the queue window so that the cursor stays inside it.
    pub fn calculate_offset(&mut self)
        requires
            offset_update_defined(
                old(self).cursor_index_queue,
                old(self).scrolling_offset,
                old(self).height,
            ),
        ensures
            *final(self) == (Tui {
                scrolling_offset: offset_after(
                    old(self).cursor_index_queue,
                    old(self).scrolling_offset,
                    old(self).height,
                ) as usize,
                ..*old(self)
            }),
    {
        if self.cursor_index_queue >= self.height as usize - 12 + self.scrolling_offset {
            self.scrolling_offset = self.scrolling_offset + 1;
        } else if self.cursor_index_queue <= self.scrolling_offset {
            self.scrolling_offset = self.cursor_index_queue;
        }
    }

    /// Prepares a frame: takes the terminal size, scrolls the window to the
    /// cursor of the last frame, then takes the song index as the new cursor.
    pub fn pre_rerender_display(&mut self, width: u16, height: u16, song_index: usize)
        requires
            offset_update_defined(old(self).cursor_index_queue, old(self).scrolling_offset, height),
        ensures
            *final(self) == (Tui {
                width,
                height,
                scrolling_offset: offset_after(
                    old(self).cursor_index_queue,
                    old(self).scrolling_offset,
                    height,
                ) as usize,
                cursor_index_queue: song_index,
                ..*old(self)
            }),
    {
        self.width = width;
        self.height = height;
        self.calculate_offset();
        self.cursor_index_queue = song_index;
    }

    /// Switches the terminal to its alternate screen.
    pub fn enter_alt_buffer(&self, out: &mut String)
        ensures
            final(out)@ == old(out)@ + "\x1B[?1049h\n"@,
    {
        out.append("\x1B[?1049h\n");
    }

    /// Switches the terminal back from its alternate screen.
    pub fn leave_alt_buffer(&self, out: &mut String)
        ensures
            final(out)@ == old(out)@ + "\x1B[?1049l\n"@,
    {
        out.append("\x1B[?1049l\n");
    }

    /// Draws the screen that says the terminal is too small, then goes back to
    /// the full view for the next frame.
    pub fn draw_not_enough_space(&mut self, out: &mut String)
        ensures
            final(out)@ == old(out)@ + no_space_text(),
            *final(self) == (Tui { rendering_mode: RenderMode::Full, ..*old(self) }),
    {
        push_no_space_screen(out);
        self.render_set_mode(RenderMode::Full);
    }

    /// Draws the minimal view.  An out-of-range cursor is pulled back to the last
    /// playlist entry, and that index is published.
    pub fn draw_safe(&mut self, out: &mut String, songs: &Vec<String>, playback: &PlaybackStatus) -> (r: FrameReport)
        ensures
            ({
                let f = safe_frame(
                    *old(self),
                    song_views(songs@),
                    playback.current_secs as nat,
                    playback.total_secs as nat,
                    playback.volume_percent@,
                );
                &&& r.error == f.1
                &&& r.song_index_store == f.3
                &&& f.1 != Some(DrawError::Abort) ==> final(out)@ == old(out)@ + f.0 && *final(self) == f.2
            }),
    {
        let len = songs.len();
        if len == 0 {
            return FrameReport { song_index_store: None, error: Some(DrawError::Abort) };
        }
        let mut store: Option<usize> = None;
        if self.cursor_index_queue >= len {
            self.cursor_index_queue = len - 1;
            store = Some(self.cursor_index_queue);
        }
        let song = last_path_segment(songs[self.cursor_index_queue].as_str());
        out.append("\x1b[2J\x1b[H");
        out.append(song);
        out.append("\n");
        let current_len = format_time(playback.current_secs);
        let total_len = format_time(playback.total_secs);
        out.append(current_len.as_str());
        out.append(" / ");
        out.append(total_len.as_str());
        out.append("\n");
        out.append("󰕾 ");
        out.append(playback.volume_percent.as_str());
        out.append("%\n");
        FrameReport { song_index_store: store, error: None }
    }


    /// Draws the queue rows `0..end` of the full view (see `queue_rows`).
    fn draw_queue_rows(
        &mut self,
        out: &mut String,
        songs: &Vec<String>,
        o: usize,
        rel: usize,
        end: usize,
    ) -> (r: Option<DrawError>)
        ensures
            r == queue_rows(song_views(songs@), old(self).width, o as int, rel as int, 0, end as int).1,
            r != Some(DrawError::Abort) ==> final(out)@ == old(out)@ + queue_rows(
                song_views(songs@),
                old(self).width,
                o as int,
                rel as int,
                0,
                end as int,
            ).0,
            r == None::<DrawError> ==> *final(self) == *old(self),
            r == Some(DrawError::NotEnoughSpace) ==> *final(self) == (Tui {
                rendering_mode: RenderMode::NoSpace,
                ..*old(self)
            }),
    {
        let ghost views = song_views(songs@);
        let len = songs.len();
        let width = self.width;
        let ghost rows0 = queue_rows(views, width, o as int, rel as int, 0, end as int);
        let ghost mut acc: Seq<char> = Seq::empty();
        let mut i: usize = 0;
        while i < end && i < len
            invariant
                len == songs@.len(),
                views == song_views(songs@),
                views.len() == len,
                width == self.width,
                *self == *old(self),
                i <= len,
                out@ == old(out)@ + acc,
                rows0 == queue_rows(views, width, o as int, rel as int, 0, end as int),
                rows0.0 == acc + queue_rows(views, width, o as int, rel as int, i as int, end as int).0,
                rows0.1 == queue_rows(views, width, o as int, rel as int, i as int, end as int).1,
            decreases len - i,
        {
            if i >= o {
                if o >= len - i {
                    return Some(DrawError::Abort);
                }
                let line = last_path_segment(songs[i + o].as_str());
                assert(line@ == last_segment(views[i + o]));
                let entry = if i == rel {
                    self.draw_highlighted_entry(line)
                } else {
                    self.draw_entry(line)
                };
                match entry {
                    Ok(e) => {
                        out.append(e.as_str());
                        proof {
                            acc = acc + e@;
                        }
                    },
                    Err(e) => {
                        return Some(e);
                    },
                }
            }
            i = i + 1;
        }
        None
    }

    /// Appends the start of the full view.
    fn draw_full_head(out: &mut String, cursor: usize, song_index: usize, len: usize, width: u16)
        requires
            edge_fits(false, "queue"@, width),
        ensures
            final(out)@ == old(out)@ + full_head(cursor as nat, song_index as nat, len as nat, width),
    {
        out.append("\x1b[2J\x1b[H");
        out.append("current song index: ");
        push_decimal(out, cursor as u64);
        out.append(", SONG_INDEX: ");
        push_decimal(out, song_index as u64);
        out.append(", len: ");
        push_decimal(out, len as u64);
        out.append("\n");
        let opening_box = Tui::draw_box(false, "queue", width);
        out.append(opening_box.as_str());
        out.append("\n");
    }

    /// Appends the end of the full view around the centred row.
    fn draw_full_tail(out: &mut String, centred: &str, width: u16, offset: usize, cursor: usize)
        requires
            edge_fits(false, ""@, width),
            width >= 2,
        ensures
            final(out)@ == old(out)@ + playback_bar(centred@, width, offset as nat, cursor as nat),
    {
        let opening_box = Tui::draw_box(false, "", width);
        let closing_box = Tui::draw_box(true, "asdadsad", width);
        out.append(opening_box.as_str());
        out.append(centred);
        out.append(closing_box.as_str());
        push_decimal(out, offset as u64);
        out.append(", ");
        push_decimal(out, cursor as u64);
        out.append("\n");
    }

    /// Draws the full view: the queue and the playback bar (see `full_frame`).
    /// `song_index` is the shared song index as it reads when the frame starts.
    #[verifier::rlimit(40)]
    #[verifier::spinoff_prover]
    pub fn draw_full(&mut self, out: &mut String, songs: &Vec<String>, song_index: usize) -> (r: FrameReport)
        ensures
            r.song_index_store == full_frame(*old(self), song_views(songs@), song_index).3,
            r.error == full_frame(*old(self), song_views(songs@), song_index).1,
            full_frame(*old(self), song_views(songs@), song_index).1 != Some(DrawError::Abort) ==> (
            final(out)@ == old(out)@ + full_frame(*old(self), song_views(songs@), song_index).0
                && *final(self) == full_frame(*old(self), song_views(songs@), song_index).2),
    {
        let ghost views = song_views(songs@);
        let len = songs.len();
        if len == 0 {
            return FrameReport { song_index_store: None, error: Some(DrawError::Abort) };
        }
        let mut store: Option<usize> = None;
        if self.cursor_index_queue >= len {
            self.cursor_index_queue = len - 1;
            store = Some(self.cursor_index_queue);
        } else if self.scrolling_offset >= len {
            self.scrolling_offset = len - 1;
        }
        let width = self.width;
        let queue_len = "queue".len();
        let empty_len = "".len();
        if !(width >= 3 && width - 3 >= #[verifier::truncate] (queue_len as u16)) || !(width >= 3
            && width - 3 >= #[verifier::truncate] (empty_len as u16)) || width < 2
            || self.cursor_index_queue < self.scrolling_offset || self.height < 12
            || self.scrolling_offset > usize::MAX - (self.height as usize - 12) {
            return FrameReport { song_index_store: store, error: Some(DrawError::Abort) };
        }
        let c = self.cursor_index_queue;
        let shown = match store {
            Some(stored) => stored,
            None => song_index,
        };
        Tui::draw_full_head(out, c, shown, len, width);
        self.cursor_index_queue = self.cursor_index_queue - self.scrolling_offset;
        let o = self.scrolling_offset;
        let rel = self.cursor_index_queue;
        let end = (self.height as usize - 12) + o;
        let q = self.draw_queue_rows(out, songs, o, rel, end);
        if let Some(e) = q {
            return FrameReport { song_index_store: store, error: Some(e) };
        }
        let closing_box = Tui::draw_box(true, "", width);
        out.append(closing_box.as_str());
        let line = last_path_segment(songs[rel + o].as_str());
        assert(line@ == last_segment(views[c as int]));
        if centring_aborts(line, width) {
            return FrameReport { song_index_store: store, error: Some(DrawError::Abort) };
        }
        let centred = match self.draw_entry_centered(line) {
            Ok(row) => row,
            Err(e) => {
                return FrameReport { song_index_store: store, error: Some(e) };
            },
        };
        Tui::draw_full_tail(out, centred.as_str(), width, o, rel);
        FrameReport { song_index_store: store, error: None }
    }

    /// Whether to draw again right away after a frame: it failed for want of
    /// space and the interface has switched to the not-enough-space view.
    pub fn needs_redraw(&self, report: &FrameReport) -> (r: bool)
        ensures
            r == (report.error == Some(DrawError::NotEnoughSpace) && self.rendering_mode
                == RenderMode::NoSpace),
    {
        match report.error {
            Some(DrawError::NotEnoughSpace) => self.rendering_mode == RenderMode::NoSpace,
            _ => false,
        }
    }

    /// Draws a frame in the current render mode.  After a frame that failed for
    /// want of space the mode is the not-enough-space view; the caller draws again
    /// right away.  `song_index` is the shared song index as it reads when the
    /// frame starts.
    pub fn draw_current(
        &mut self,
        out: &mut String,
        songs: &Vec<String>,
        song_index: usize,
        playback: &PlaybackStatus,
    ) -> (r: FrameReport)
        requires
            drawable_mode(old(self).rendering_mode),
        ensures
            ({
                let f = current_frame(
                    *old(self),
                    song_views(songs@),
                    song_index,
                    playback.current_secs as nat,
                    playback.total_secs as nat,
                    playback.volume_percent@,
                );
                &&& r.error == f.1
                &&& r.song_index_store == f.3
                &&& f.1 != Some(DrawError::Abort) ==> final(out)@ == old(out)@ + f.0 && *final(self) == f.2
            }),
    {
        match self.rendering_mode {
            RenderMode::Full => self.draw_full(out, songs, song_index),
            RenderMode::Safe => self.draw_safe(out, songs, playback),
            _ => {
                self.draw_not_enough_space(out);
                FrameReport { song_index_store: None, error: None }
            },
        }
    }
}

/// `n` spaces take `n` bytes.
pub proof fn lemma_spaces_bytes(n: nat)
    ensures
        byte_len(spaces(n)) == n,
        spaces(n).len() == n,
        vstd::utf8::is_ascii_chars(spaces(n)),
{
    reveal_strlit(" ");
    lemma_repeat_ascii(" "@, n);
    lemma_repeat_len(" "@, n);
    lemma_ascii_byte_len(spaces(n));
}

/// A queue row that fits spans the terminal: between its two walls, the text
/// and its padding take exactly `width - 2` bytes.
pub proof fn lemma_row_fills_width(text: Seq<char>, width: u16)
    requires
        row_fits(text, width),
        byte_len(text) <= usize::MAX,
    ensures
        byte_len(text + spaces((width - str_len(text) - 2) as nat)) == width - 2,
{
    let n = (width - str_len(text) - 2) as nat;
    lemma_encode_utf8_concat(text, spaces(n));
    lemma_spaces_bytes(n);
}

/// A centred playback-bar row spans the terminal: between its two walls, the
/// title and the spaces around it take exactly `width - 2` bytes, whatever the
/// parities of the title's length and of the width.
pub proof fn lemma_centred_fills_width(text: Seq<char>, width: u16)
    requires
        centred_row(text, width).1 == None::<DrawError>,
        byte_len(text) <= usize::MAX,
    ensures
        byte_len(centred_interior(text, width)) == width - 2,
{
    let len = str_len(text) as int;
    let pad = centre_pad(len, width as int);
    let both_even = len % 2 == 0 && width % 2 == 0;
    let lead = if both_even { spaces((pad - 2) as nat) } else { spaces(pad) };
    let odd_fix: Seq<char> = if len % 2 == 0 { seq![' '] } else { Seq::empty() };
    let tail: Seq<char> = if width % 2 == 0 { seq![' '] } else { Seq::empty() };
    lemma_spaces_bytes(pad);
    lemma_spaces_bytes((pad - 2) as nat);
    assert(vstd::utf8::is_ascii_chars(odd_fix));
    assert(vstd::utf8::is_ascii_chars(tail));
    lemma_ascii_byte_len(odd_fix);
    lemma_ascii_byte_len(tail);
    lemma_encode_utf8_concat(lead, odd_fix);
    lemma_encode_utf8_concat(lead + odd_fix, text);
    lemma_encode_utf8_concat(lead + odd_fix + text, spaces(pad));
    lemma_encode_utf8_concat(lead + odd_fix + text + spaces(pad), tail);
}

/// The edges of a box span the terminal: with an ASCII title that fits, the top
/// edge is exactly `term_len` characters wide, and so is the bottom edge.
pub proof fn lemma_edges_span_terminal(text: Seq<char>, term_len: u16)
    requires
        vstd::utf8::is_ascii_chars(text),
        text.len() <= u16::MAX,
    ensures
        edge_fits(false, text, term_len) ==> top_edge(text, term_len).len() == term_len,
        term_len >= 2 ==> bottom_edge(term_len).len() == term_len,
{
    reveal_strlit("╭─");
    reveal_strlit("─");
    reveal_strlit("╮");
    reveal_strlit("╰");
    reveal_strlit("╯");
    lemma_ascii_byte_len(text);
    if edge_fits(false, text, term_len) {
        lemma_repeat_len("─"@, ((term_len - 3) - (str_len(text) as u16)) as nat);
    }
    if term_len >= 2 {
        lemma_repeat_len("─"@, (term_len - 2) as nat);
    }
}

/// A frame that fails for want of space leaves the interface in the
/// not-enough-space view; the next frame (whatever the terminal size, scroll
/// position and cursor by then) draws the not-enough-space screen, succeeds,
/// and brings the full view back.
pub proof fn lemma_no_space_recovers(
    t: Tui,
    songs: Seq<Seq<char>>,
    song_index: usize,
    current: nat,
    total: nat,
    volume: Seq<char>,
    next: Tui,
)
    requires
        drawable_mode(t.rendering_mode),
        current_frame(t, songs, song_index, current, total, volume).1 == Some(
            DrawError::NotEnoughSpace,
        ),
        next.rendering_mode == current_frame(t, songs, song_index, current, total, volume).2.rendering_mode,
    ensures
        current_frame(t, songs, song_index, current, total, volume).2.rendering_mode == RenderMode::NoSpace,
        current_frame(next, songs, song_index, current, total, volume) == (
            no_space_text(),
            None::<DrawError>,
            Tui { rendering_mode: RenderMode::Full, ..next },
            None::<usize>,
        ),
{
}

/// A drawn full view names the song at the cursor: the cursor and the scrolling
/// offset afterwards add up to the cursor the frame started from (pulled back to
/// the last entry when it was past the end), whatever the offset, and the frame
/// ends with the playback bar around that entry's file name, centred.
pub proof fn lemma_full_view_shows_cursor_song(t: Tui, songs: Seq<Seq<char>>, song_index: usize)
    requires
        full_frame(t, songs, song_index).1 is None,
    ensures
        ({
            let f = full_frame(t, songs, song_index);
            let abs = f.2.cursor_index_queue + f.2.scrolling_offset;
            let centre = centred_row(last_segment(songs[abs]), t.width);
            let bar = playback_bar(centre.0, t.width, f.2.scrolling_offset as nat, f.2.cursor_index_queue as nat);
            &&& abs == (if t.cursor_index_queue >= songs.len() {
                songs.len() - 1
            } else {
                t.cursor_index_queue as int
            })
            &&& centre.1 is None
            &&& f.0.len() >= bar.len()
            &&& f.0.subrange(f.0.len() - bar.len(), f.0.len() as int) == bar
        }),
{
    let f = full_frame(t, songs, song_index);
    let abs = f.2.cursor_index_queue + f.2.scrolling_offset;
    let centre = centred_row(last_segment(songs[abs]), t.width);
    let bar = playback_bar(centre.0, t.width, f.2.scrolling_offset as nat, f.2.cursor_index_queue as nat);
    let len = songs.len();
    let c: int = if t.cursor_index_queue >= len { len - 1 } else { t.cursor_index_queue as int };
    let o: int = if t.cursor_index_queue >= len {
        t.scrolling_offset as int
    } else if t.scrolling_offset >= len {
        len - 1
    } else {
        t.scrolling_offset as int
    };
    let shown: nat = if t.cursor_index_queue >= len { c as nat } else { song_index as nat };
    let rows = queue_rows(songs, t.width, o, c - o, 0, (t.height - 12) + o);
    let mid = full_head(c as nat, shown, len, t.width) + rows.0 + bottom_edge(t.width);
    assert(abs == c);
    assert(f.0 == mid + bar);
    assert(f.0.subrange(f.0.len() - bar.len(), f.0.len() as int) =~= bar);
}

/// Under an hour the time reads `MM:SS` (five characters); from one hour up to
/// a hundred hours it reads `HH:MM:SS` (eight characters).
pub proof fn lemma_time_text_len(t: nat)
    ensures
        t < 3600 ==> time_text(t).len() == 5,
        3600 <= t < 360000 ==> time_text(t).len() == 8,
{
    let hrs = t / 3600;
    let mins = (t % 3600) / 60;
    let secs = t % 60;
    assert(mins < 60);
    assert(secs < 60);
    assert(decimal(mins).len() == 2 || mins < 10) by {
        if mins >= 10 {
            assert(decimal(mins / 10).len() == 1);
        }
    }
    assert(decimal(secs).len() == 2 || secs < 10) by {
        if secs >= 10 {
            assert(decimal(secs / 10).len() == 1);
        }
    }
    if 3600 <= t < 360000 {
        assert(1 <= hrs < 100);
        assert(decimal(hrs).len() == 2 || hrs < 10) by {
            if hrs >= 10 {
                assert(decimal(hrs / 10).len() == 1);
            }
        }
    }
}

/// A drawn frame never points past the playlist: after a full or minimal view
/// that did not abort, the cursor (plus the scrolling offset, in the full view)
/// names an entry of the playlist, and any index the frame publishes is the
/// last entry.
pub proof fn lemma_frame_cursor_in_playlist(
    t: Tui,
    songs: Seq<Seq<char>>,
    song_index: usize,
    current: nat,
    total: nat,
    volume: Seq<char>,
)
    requires
        t.rendering_mode == RenderMode::Full || t.rendering_mode == RenderMode::Safe,
        current_frame(t, songs, song_index, current, total, volume).1 != Some(DrawError::Abort),
    ensures
        ({
            let f = current_frame(t, songs, song_index, current, total, volume);
            &&& t.rendering_mode == RenderMode::Full ==> f.2.cursor_index_queue + f.2.scrolling_offset
                < songs.len()
            &&& t.rendering_mode == RenderMode::Safe ==> f.2.cursor_index_queue < songs.len()
            &&& f.3 is Some ==> f.3->0 == songs.len() - 1
        }),
{
}

/// `a` comes before `b` in dictionary order: they agree up to some position,
/// where `a` has the smaller character.
pub open spec fn lex_lt(a: Seq<char>, b: Seq<char>) -> bool {
    exists|i: int|
        0 <= i < a.len() && i < b.len() && a.subrange(0, i) == b.subrange(0, i) && (a[i] as int) < (
        b[i] as int)
}

/// The time text reads back: its fields, separated by `:`, are all digits; the
/// minutes and seconds take two digits each and are below 60, the hours (from
/// one hour on) at least two; and the fields give back `t`.
pub proof fn lemma_time_text_reads_back(t: nat)
    ensures
        ({
            let hrs = pad2(t / 3600);
            let mins = pad2((t % 3600) / 60);
            let secs = pad2(t % 60);
            &&& all_digits(hrs) && all_digits(mins) && all_digits(secs)
            &&& hrs.len() >= 2 && mins.len() == 2 && secs.len() == 2
            &&& digits_value(mins) < 60 && digits_value(secs) < 60
            &&& t < 3600 ==> time_text(t) == mins + seq![':'] + secs && digits_value(mins) * 60
                + digits_value(secs) == t
            &&& t >= 3600 ==> time_text(t) == hrs + seq![':'] + mins + seq![':'] + secs && digits_value(
                hrs,
            ) * 3600 + digits_value(mins) * 60 + digits_value(secs) == t
        }),
{
    lemma_pad2_reads_back(t / 3600);
    lemma_pad2_reads_back((t % 3600) / 60);
    lemma_pad2_reads_back(t % 60);
}

/// `a` comes before `b` when they agree before position `i` and `a` is smaller there.
proof fn lemma_lex_witness(a: Seq<char>, b: Seq<char>, i: int)
    requires
        0 <= i < a.len(),
        i < b.len(),
        forall|j: int| 0 <= j < i ==> a[j] == b[j],
        (a[i] as int) < (b[i] as int),
    ensures
        lex_lt(a, b),
{
    assert(a.subrange(0, i) =~= b.subrange(0, i));
}

/// Of two numbers below a hundred, the smaller has the smaller two-digit
/// notation: smaller tens, or the same tens and smaller units.
proof fn lemma_two_digits_order(x: nat, y: nat)
    requires
        x < y < 100,
    ensures
        (digit_char(x / 10) as int) < (digit_char(y / 10) as int) || (digit_char(x / 10) == digit_char(
            y / 10,
        ) && (digit_char(x % 10) as int) < (digit_char(y % 10) as int)),
{
    assert((digit_char(x / 10) as int) == x / 10 + 48);
    assert((digit_char(y / 10) as int) == y / 10 + 48);
    assert((digit_char(x % 10) as int) == x % 10 + 48);
    assert((digit_char(y % 10) as int) == y % 10 + 48);
}

/// Within one width class the time texts are in the order of the times: below
/// an hour, and from one hour up to a hundred hours, an earlier time has a text
/// of the same length that comes first in dictionary order.
pub proof fn lemma_time_text_ordered(t1: nat, t2: nat)
    requires
        t1 < t2,
        t2 < 3600 || (3600 <= t1 && t2 < 360000),
    ensures
        time_text(t1).len() == time_text(t2).len(),
        lex_lt(time_text(t1), time_text(t2)),
{
    let (h1, m1, s1) = (t1 / 3600, (t1 % 3600) / 60, t1 % 60);
    let (h2, m2, s2) = (t2 / 3600, (t2 % 3600) / 60, t2 % 60);
    lemma_pad2_two_digits(m1);
    lemma_pad2_two_digits(m2);
    lemma_pad2_two_digits(s1);
    lemma_pad2_two_digits(s2);
    let a = time_text(t1);
    let b = time_text(t2);
    if t2 < 3600 {
        assert(a =~= two_digits(m1) + seq![':'] + two_digits(s1));
        assert(b =~= two_digits(m2) + seq![':'] + two_digits(s2));
        if m1 < m2 {
            lemma_two_digits_order(m1, m2);
            if (digit_char(m1 / 10) as int) < (digit_char(m2 / 10) as int) {
                lemma_lex_witness(a, b, 0);
            } else {
                lemma_lex_witness(a, b, 1);
            }
        } else {
            assert(m1 == m2 && s1 < s2);
            lemma_two_digits_order(s1, s2);
            if (digit_char(s1 / 10) as int) < (digit_char(s2 / 10) as int) {
                lemma_lex_witness(a, b, 3);
            } else {
                lemma_lex_witness(a, b, 4);
            }
        }
    } else {
        assert(1 <= h1 <= h2 < 100);
        lemma_pad2_two_digits(h1);
        lemma_pad2_two_digits(h2);
        assert(a =~= two_digits(h1) + seq![':'] + two_digits(m1) + seq![':'] + two_digits(s1));
        assert(b =~= two_digits(h2) + seq![':'] + two_digits(m2) + seq![':'] + two_digits(s2));
        if h1 < h2 {
            lemma_two_digits_order(h1, h2);
            if (digit_char(h1 / 10) as int) < (digit_char(h2 / 10) as int) {
                lemma_lex_witness(a, b, 0);
            } else {
                lemma_lex_witness(a, b, 1);
            }
        } else if m1 < m2 {
            lemma_two_digits_order(m1, m2);
            if (digit_char(m1 / 10) as int) < (digit_char(m2 / 10) as int) {
                lemma_lex_witness(a, b, 3);
            } else {
                lemma_lex_witness(a, b, 4);
            }
        } else {
            assert(h1 == h2 && m1 == m2 && s1 < s2);
            lemma_two_digits_order(s1, s2);
            if (digit_char(s1 / 10) as int) < (digit_char(s2 / 10) as int) {
                lemma_lex_witness(a, b, 6);
            } else {
                lemma_lex_witness(a, b, 7);
            }
        }
    }
}

} // verus!
