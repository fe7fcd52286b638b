use vstd::prelude::*;

use crate::editor::{sat_add, sat_sub, EditorState};
use crate::position::Position;
use crate::row::rendered;
use crate::text::{decimal, spaces, truncated};

verus! {

/// The banner shown on an empty document.
pub const WELCOME: &'static str = "Spine - Simple, Lightweight, Fast... version 0.1.0";

/// The name shown for a document without a file.
pub const NO_NAME: &'static str = "[No Name]";

/// How many characters of a file name the status bar shows.
pub const NAME_WIDTH: usize = 20;

/// The welcome banner, centred on a screen `width` columns wide and cut to it.
pub open spec fn welcome_line(width: int) -> Seq<char> {
    let msg = WELCOME@;
    let pad = sat_sub(width, msg.len() as int) / 2;
    truncated(seq!['~'] + spaces(sat_sub(pad, 1)) + msg, width)
}

/// The screen row `r` of the content area.
pub open spec fn content_line(s: EditorState, r: int) -> Seq<char> {
    let y = r + s.offset.y;
    if y < s.rows.len() {
        rendered(s.rows[y], s.offset.x as int, sat_add(s.offset.x as int, s.size.width as int))
    } else if s.rows.len() == 0 && r == s.size.height / 3 {
        welcome_line(s.size.width as int)
    } else {
        seq!['~']
    }
}

/// The name part of the status bar.
pub open spec fn shown_name(name: Option<Seq<char>>) -> Seq<char> {
    match name {
        Some(n) => truncated(n, NAME_WIDTH as int),
        None => NO_NAME@,
    }
}

/// The left part of the status bar: the name and the number of lines.
pub open spec fn status_left(s: EditorState) -> Seq<char> {
    shown_name(s.file_name) + " - "@ + decimal(s.rows.len()) + " lines"@
}

/// The right part of the status bar: line and column, counted from 1.
pub open spec fn status_right(s: EditorState) -> Seq<char> {
    decimal(sat_add(s.cursor.y as int, 1) as nat) + seq!['/'] + decimal(
        sat_add(s.cursor.x as int, 1) as nat,
    )
}

/// The status bar: the left part, spaces, and the right part at the right
/// edge, all cut to the screen's width.
pub open spec fn status_line(s: EditorState) -> Seq<char> {
    let left = status_left(s);
    let right = status_right(s);
    let w = s.size.width as int;
    let len = left.len() + right.len();
    let padded = if w > len { left + spaces(w - len) } else { left };
    truncated(padded + right, w)
}

/// The message bar: the message, cut to the screen's width, while it is
/// fresh; nothing after.
pub open spec fn message_line(s: EditorState, fresh: bool) -> Seq<char> {
    if fresh {
        truncated(s.message, s.size.width as int)
    } else {
        Seq::empty()
    }
}

/// Where the cursor shows on screen.
pub open spec fn screen_cursor(s: EditorState) -> Position {
    Position {
        x: sat_sub(s.cursor.x as int, s.offset.x as int) as usize,
        y: sat_sub(s.cursor.y as int, s.offset.y as int) as usize,
    }
}

/// One frame of the screen: the content rows from the top, the status bar,
/// the message bar, and where to put the cursor.
pub struct Frame {
    pub rows: Vec<Vec<char>>,
    pub status_bar: Vec<char>,
    pub message_bar: Vec<char>,
    pub cursor: Position,
}

/// `f` is the frame drawn for `s`, with the message shown when `fresh`.
pub open spec fn frame_of(f: Frame, s: EditorState, fresh: bool) -> bool {
    &&& f.rows@.len() == s.size.height
    &&& forall|r: int| 0 <= r < s.size.height ==> #[trigger] f.rows@[r]@ == content_line(s, r)
    &&& f.status_bar@ == status_line(s)
    &&& f.message_bar@ == message_line(s, fresh)
    &&& f.cursor == screen_cursor(s)
}

} // verus!
