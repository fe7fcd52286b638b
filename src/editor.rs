use vstd::prelude::*;

use crate::document::{
    doc_deleted, doc_inserted, fits, lemma_edits_single, row_len, single_lines, Document,
};
use crate::key::Key;
use crate::position::{Position, Size};
use crate::status::StatusMessage;
use crate::render::{
    content_line, frame_of, message_line, shown_name, status_left, status_line, status_right,
    welcome_line, Frame, NAME_WIDTH, NO_NAME, WELCOME,
};
use crate::row::{rendered, Row};
use crate::text::{chars_of, decimal_chars, is_control, is_control_char, push_all, push_spaces, truncate};

verus! {

/// `a + b`, held at the largest `usize`.
pub open spec fn sat_add(a: int, b: int) -> int {
    if a + b > usize::MAX {
        usize::MAX as int
    } else {
        a + b
    }
}

/// `a - b`, held at zero.
pub open spec fn sat_sub(a: int, b: int) -> int {
    if a < b {
        0
    } else {
        a - b
    }
}

/// Where `key` moves the cursor `cur` in `rows`, on a screen `height` rows
/// high; the column is then held within the row it lands on.
pub open spec fn cursor_moved(rows: Seq<Seq<char>>, cur: Position, height: int, key: Key) -> Position {
    let x = cur.x as int;
    let y = cur.y as int;
    let h = rows.len() as int;
    let w = row_len(rows, y) as int;
    let (nx, ny) = match key {
        Key::Up => (x, sat_sub(y, 1)),
        Key::Down => (x, if y < h { y + 1 } else { h }),
        Key::Left => if x > 0 {
            (x - 1, y)
        } else if y > 0 {
            (row_len(rows, y - 1) as int, y - 1)
        } else {
            (x, y)
        },
        Key::Right => if x < w {
            (x + 1, y)
        } else if y < h {
            (0, y + 1)
        } else {
            (x, y)
        },
        Key::PageUp => (x, sat_sub(y, height)),
        Key::PageDown => (x, if y + height < h { y + height } else { h }),
        Key::Home => (0, y),
        Key::End => (w, y),
        _ => (x, y),
    };
    let lw = row_len(rows, ny) as int;
    Position { x: (if nx > lw { lw } else { nx }) as usize, y: ny as usize }
}

/// One axis of the viewport's offset after scrolling so that `pos` is
/// within `[off, off + extent)`.
pub open spec fn scrolled_axis(off: int, pos: int, extent: int) -> int {
    if pos < off {
        pos
    } else if pos >= sat_add(off, extent) {
        sat_add(sat_sub(pos, extent), 1)
    } else {
        off
    }
}

/// The offset after scrolling so that `cur` is on screen.
pub open spec fn scrolled(off: Position, cur: Position, size: Size) -> Position {
    Position {
        x: scrolled_axis(off.x as int, cur.x as int, size.width as int) as usize,
        y: scrolled_axis(off.y as int, cur.y as int, size.height as int) as usize,
    }
}

/// What the loop that drives the editor has to do after a key press.
#[derive(Clone, Copy, Debug, PartialEq, Eq, Structural)]
pub enum Action {
    /// Nothing beyond drawing the next frame.
    Continue,
    /// Store the document under its file name, then report with `finish_save`.
    Save,
    /// Stop: clear the screen and leave.
    Quit,
}

/// The editor's state, as the contracts see it.
pub struct EditorState {
    pub rows: Seq<Seq<char>>,
    pub file_name: Option<Seq<char>>,
    pub cursor: Position,
    pub offset: Position,
    pub size: Size,
    pub should_quit: bool,
    pub message: Seq<char>,
    /// What has been typed so far while asking for a file name.
    pub prompt: Option<Seq<char>>,
}

/// The label before the file name being typed.
pub open spec fn prompt_label() -> Seq<char> {
    seq!['S', 'a', 'v', 'e', ' ', 'a', 's', ':', ' ']
}

/// The message after the document was stored.
pub open spec fn saved_text() -> Seq<char> {
    seq![
        'F', 'i', 'l', 'e', ' ', 's', 'a', 'v', 'e', 'd', ' ', 's', 'u', 'c', 'c', 'e', 's', 's',
        'f', 'u', 'l', 'l', 'y', '.',
    ]
}

/// The message after storing the document failed.
pub open spec fn save_failed_text() -> Seq<char> {
    seq!['E', 'r', 'r', 'o', 'r', ' ', 'w', 'r', 'i', 't', 'i', 'n', 'g', ' ', 'f', 'i', 'l', 'e', '!']
}

/// The cursor and viewport agree with the document: the cursor is on a row
/// or one past the last, within its row, and inside the viewport.
pub open spec fn state_wf(s: EditorState) -> bool {
    &&& fits(s.rows)
    &&& s.cursor.y <= s.rows.len()
    &&& s.cursor.x <= row_len(s.rows, s.cursor.y as int)
    &&& s.size.height > 0 ==> s.offset.y <= s.cursor.y < s.offset.y + s.size.height
    &&& s.size.width > 0 ==> s.offset.x <= s.cursor.x < s.offset.x + s.size.width
}

/// `s` with the rows `rows` and the cursor at `cur`.
pub open spec fn with_cursor(s: EditorState, rows: Seq<Seq<char>>, cur: Position) -> EditorState {
    EditorState { rows, cursor: cur, ..s }
}

/// `s` with the viewport scrolled so that the cursor is on screen.
pub open spec fn scrolled_state(s: EditorState) -> EditorState {
    EditorState { offset: scrolled(s.offset, s.cursor, s.size), ..s }
}

/// A key press while a file name is asked for.
pub open spec fn prompt_step(s: EditorState, typed: Seq<char>, key: Key) -> (EditorState, Action) {
    match key {
        Key::Char(c) => if c == '\n' {
            (
                EditorState { file_name: Some(typed), prompt: None, message: Seq::empty(), ..s },
                Action::Save,
            )
        } else if !is_control(c) {
            (
                EditorState {
                    prompt: Some(typed.push(c)),
                    message: prompt_label() + typed.push(c),
                    ..s
                },
                Action::Continue,
            )
        } else {
            (s, Action::Continue)
        },
        _ => (s, Action::Continue),
    }
}

/// What one key press does to the document, the cursor and the messages,
/// before the viewport follows the cursor.
pub open spec fn dispatched(s: EditorState, key: Key) -> (EditorState, Action) {
    let h = s.size.height as int;
    match s.prompt {
        Some(typed) => prompt_step(s, typed, key),
        None => match key {
            Key::Ctrl(c) => if c == 'q' {
                (EditorState { should_quit: true, ..s }, Action::Quit)
            } else if c == 's' {
                if s.file_name.is_none() {
                    (
                        EditorState { prompt: Some(Seq::empty()), message: prompt_label(), ..s },
                        Action::Continue,
                    )
                } else {
                    (s, Action::Save)
                }
            } else {
                (s, Action::Continue)
            },
            Key::Char(c) => {
                let rows = doc_inserted(s.rows, s.cursor, c);
                (with_cursor(s, rows, cursor_moved(rows, s.cursor, h, Key::Right)), Action::Continue)
            },
            Key::Delete => (EditorState { rows: doc_deleted(s.rows, s.cursor), ..s }, Action::Continue),
            Key::Backspace => if s.cursor.x > 0 || s.cursor.y > 0 {
                let cur = cursor_moved(s.rows, s.cursor, h, Key::Left);
                (with_cursor(s, doc_deleted(s.rows, cur), cur), Action::Continue)
            } else {
                (s, Action::Continue)
            },
            Key::Up | Key::Down | Key::Left | Key::Right | Key::PageUp | Key::PageDown
            | Key::Home | Key::End => (
                with_cursor(s, s.rows, cursor_moved(s.rows, s.cursor, h, key)),
                Action::Continue,
            ),
            _ => (s, Action::Continue),
        },
    }
}

/// The editor's answer to one key press: the key is dispatched, then the
/// viewport follows the cursor.
pub open spec fn step(s: EditorState, key: Key) -> (EditorState, Action) {
    (scrolled_state(dispatched(s, key).0), dispatched(s, key).1)
}

/// The cursor and its row agree with `rows`.
pub open spec fn cursor_in(rows: Seq<Seq<char>>, cur: Position) -> bool {
    cur.y <= rows.len() && cur.x <= row_len(rows, cur.y as int)
}

proof fn lemma_moved_in(rows: Seq<Seq<char>>, cur: Position, height: int, key: Key)
    requires
        fits(rows),
        cur.y <= rows.len(),
        height >= 0,
    ensures
        cursor_in(rows, cursor_moved(rows, cur, height, key)),
{
}

proof fn lemma_scrolled_axis(off: int, pos: int, extent: int)
    requires
        0 <= off <= usize::MAX,
        0 <= pos <= usize::MAX,
        0 < extent <= usize::MAX,
    ensures
        0 <= scrolled_axis(off, pos, extent) <= pos < scrolled_axis(off, pos, extent) + extent,
{
}

proof fn lemma_inserted_len(rows: Seq<Seq<char>>, at: Position, c: char)
    requires
        at.y <= rows.len(),
    ensures
        doc_inserted(rows, at, c).len() >= rows.len(),
{
}

proof fn lemma_deleted_in(rows: Seq<Seq<char>>, at: Position)
    requires
        cursor_in(rows, at),
    ensures
        cursor_in(doc_deleted(rows, at), at),
{
    let y = at.y as int;
    if y < rows.len() {
        if at.x == rows[y].len() && y + 1 < rows.len() {
            assert(doc_deleted(rows, at)[y] == rows[y] + rows[y + 1]);
        } else {
            assert(doc_deleted(rows, at)[y] == crate::row::row_deleted(rows[y], at.x as int));
        }
    }
}

/// Every key press keeps the editor well formed: the cursor stays on a row
/// (or one past the last), within its row, and inside the viewport. (That
/// the edited rows still fit in memory is the machine's part.)
pub proof fn lemma_step_wf(s: EditorState, key: Key)
    requires
        state_wf(s),
        fits(step(s, key).0.rows),
    ensures
        state_wf(step(s, key).0),
{
    let h = s.size.height as int;
    let t = dispatched(s, key).0;
    if s.prompt.is_none() {
        match key {
            Key::Char(c) => {
                lemma_inserted_len(s.rows, s.cursor, c);
                lemma_moved_in(doc_inserted(s.rows, s.cursor, c), s.cursor, h, Key::Right);
            },
            Key::Delete => {
                lemma_deleted_in(s.rows, s.cursor);
            },
            Key::Backspace => {
                if s.cursor.x > 0 || s.cursor.y > 0 {
                    lemma_moved_in(s.rows, s.cursor, h, Key::Left);
                    lemma_deleted_in(s.rows, cursor_moved(s.rows, s.cursor, h, Key::Left));
                }
            },
            _ => {
                lemma_moved_in(s.rows, s.cursor, h, key);
            },
        }
    }
    assert(cursor_in(t.rows, t.cursor));
    if t.size.height > 0 {
        lemma_scrolled_axis(t.offset.y as int, t.cursor.y as int, t.size.height as int);
    }
    if t.size.width > 0 {
        lemma_scrolled_axis(t.offset.x as int, t.cursor.x as int, t.size.width as int);
    }
}

/// Key presses keep line breaks out of the rows, so what is stored can be
/// read back row for row (see `lemma_lines_of_joined`).
pub proof fn lemma_step_single_lines(s: EditorState, key: Key)
    requires
        single_lines(s.rows),
    ensures
        single_lines(step(s, key).0.rows),
{
    let h = s.size.height as int;
    lemma_edits_single(s.rows, s.cursor, ' ');
    lemma_edits_single(s.rows, cursor_moved(s.rows, s.cursor, h, Key::Left), ' ');
    if let Key::Char(c) = key {
        lemma_edits_single(s.rows, s.cursor, c);
    }
}

/// On the first row, Home followed by Left lands where Home alone does:
/// column 0 of the same row. (Further down, Left from column 0 goes on to
/// the end of the row above.)
pub proof fn lemma_home_then_left(rows: Seq<Seq<char>>, cur: Position, height: int)
    requires
        cur.y == 0,
    ensures
        cursor_moved(rows, cursor_moved(rows, cur, height, Key::Home), height, Key::Left)
            == cursor_moved(rows, cur, height, Key::Home),
        cursor_moved(rows, cur, height, Key::Home) == (Position { x: 0, y: cur.y }),
{
}

/// Left at the origin of the document leaves the cursor where it is.
pub proof fn lemma_left_at_origin(rows: Seq<Seq<char>>, height: int)
    ensures
        cursor_moved(rows, Position { x: 0, y: 0 }, height, Key::Left) == (Position { x: 0, y: 0 }),
{
}

/// Right at the end of the last line, where no row follows, leaves the
/// cursor where it is. (The end of the last stored row is not such a place:
/// from there Right goes on to the empty line below it.)
pub proof fn lemma_right_at_end(rows: Seq<Seq<char>>, cur: Position, height: int)
    requires
        cur.y >= rows.len(),
        cur.x == row_len(rows, cur.y as int),
    ensures
        cursor_moved(rows, cur, height, Key::Right) == cur,
{
}

/// Where `key` moves `cursor` in `document`, on a screen `height` rows high.
pub fn cursor_after(document: &Document, cursor: Position, height: usize, key: Key) -> (r: Position)
    ensures
        r == cursor_moved(document@, cursor, height as int, key),
{
    let Position { mut x, mut y } = cursor;
    let len = document.len();
    let width = match document.row(y) {
        Some(row) => row.len(),
        None => 0,
    };
    match key {
        Key::Up => y = y.saturating_sub(1),
        Key::Down => {
            y = if y < len { y + 1 } else { len };
        },
        Key::Left => {
            if x > 0 {
                x -= 1;
            } else if y > 0 {
                y -= 1;
                x = match document.row(y) {
                    Some(row) => row.len(),
                    None => 0,
                };
            }
        },
        Key::Right => {
            if x < width {
                x += 1;
            } else if y < len {
                y += 1;
                x = 0;
            }
        },
        Key::PageUp => {
            y = if y > height { y - height } else { 0 };
        },
        Key::PageDown => {
            y = if y.saturating_add(height) < len { y + height } else { len };
        },
        Key::Home => x = 0,
        Key::End => x = width,
        _ => {},
    }
    let width = match document.row(y) {
        Some(row) => row.len(),
        None => 0,
    };
    if x > width {
        x = width;
    }
    Position { x, y }
}

/// The offset that brings `cursor` into a viewport of `size` at `offset`.
pub fn scroll_to(offset: Position, cursor: Position, size: Size) -> (r: Position)
    ensures
        r == scrolled(offset, cursor, size),
{
    let mut off = offset;
    if cursor.y < off.y {
        off.y = cursor.y;
    } else if cursor.y >= off.y.saturating_add(size.height) {
        off.y = cursor.y.saturating_sub(size.height).saturating_add(1);
    }
    if cursor.x < off.x {
        off.x = cursor.x;
    } else if cursor.x >= off.x.saturating_add(size.width) {
        off.x = cursor.x.saturating_sub(size.width).saturating_add(1);
    }
    off
}

/// The editor: a document, a cursor in it, the viewport over it, and the
/// message shown to the user.
pub struct Editor {
    should_quit: bool,
    size: Size,
    document: Document,
    status_message: StatusMessage,
    cursor_position: Position,
    offset: Position,
    prompt: Option<Vec<char>>,
}

impl View for Editor {
    type V = EditorState;

    closed spec fn view(&self) -> EditorState {
        EditorState {
            rows: self.document@,
            file_name: match self.document.name() {
                Some(n) => Some(n@),
                None => None,
            },
            cursor: self.cursor_position,
            offset: self.offset,
            size: self.size,
            should_quit: self.should_quit,
            message: self.status_message.text@,
            prompt: match self.prompt {
                Some(t) => Some(t@),
                None => None,
            },
        }
    }
}

impl Editor {
    /// An editor on `document`, with the cursor at its start, for a viewport
    /// of `size`, showing `message`.
    pub fn new(document: Document, size: Size, message: Vec<char>) -> (r: Editor)
        ensures
            r@.rows == document@,
            r@.file_name == (match document.name() {
                Some(n) => Some(n@),
                None => None::<Seq<char>>,
            }),
            r@.cursor == (Position { x: 0, y: 0 }),
            r@.offset == (Position { x: 0, y: 0 }),
            r@.size == size,
            !r@.should_quit,
            r@.message == message@,
            r@.prompt.is_none(),
            state_wf(r@),
    {
        proof {
            document.lemma_fits();
        }
        Editor {
            should_quit: false,
            size,
            document,
            status_message: StatusMessage::from(message),
            cursor_position: Position { x: 0, y: 0 },
            offset: Position { x: 0, y: 0 },
            prompt: None,
        }
    }

    pub fn document(&self) -> (r: &Document)
        ensures
            r@ == self@.rows,
    {
        &self.document
    }

    pub fn cursor_position(&self) -> (r: Position)
        ensures
            r == self@.cursor,
    {
        self.cursor_position
    }

    pub fn offset(&self) -> (r: Position)
        ensures
            r == self@.offset,
    {
        self.offset
    }

    pub fn should_quit(&self) -> (r: bool)
        ensures
            r == self@.should_quit,
    {
        self.should_quit
    }

    pub fn status_text(&self) -> (r: &Vec<char>)
        ensures
            r@ == self@.message,
    {
        &self.status_message.text
    }

    /// Moves the cursor as `key` says; see `cursor_moved`.
    pub fn move_cursor(&mut self, key: Key)
        ensures
            final(self)@ == (EditorState {
                cursor: cursor_moved(old(self)@.rows, old(self)@.cursor, old(self)@.size.height as int, key),
                ..old(self)@
            }),
    {
        self.cursor_position = cursor_after(&self.document, self.cursor_position, self.size.height, key);
    }

    /// Scrolls the viewport so that the cursor is on screen.
    pub fn scroll(&mut self)
        ensures
            final(self)@ == (EditorState {
                offset: scrolled(old(self)@.offset, old(self)@.cursor, old(self)@.size),
                ..old(self)@
            }),
    {
        self.offset = scroll_to(self.offset, self.cursor_position, self.size);
    }

    /// A key press while a file name is asked for; see `prompt_step`.
    fn prompt_keypress(&mut self, key: Key) -> (r: Action)
        requires
            old(self)@.prompt.is_some(),
        ensures
            (final(self)@, r) == prompt_step(old(self)@, old(self)@.prompt.unwrap(), key),
    {
        match key {
            Key::Char(c) => {
                if c == '\n' {
                    match self.prompt.take() {
                        Some(typed) => self.document.set_file_name(typed),
                        None => {},
                    }
                    self.status_message = StatusMessage::from(Vec::new());
                    Action::Save
                } else if !is_control_char(c) {
                    let mut message = chars_of("Save as: ");
                    proof {
                        reveal_strlit("Save as: ");
                    }
                    assert(message@ =~= prompt_label());
                    match &mut self.prompt {
                        Some(typed) => {
                            typed.push(c);
                            push_all(&mut message, typed);
                        },
                        None => {},
                    }
                    self.status_message = StatusMessage::from(message);
                    Action::Continue
                } else {
                    Action::Continue
                }
            },
            _ => Action::Continue,
        }
    }

    /// Dispatches one key press and scrolls the viewport to the cursor; see
    /// `step`. The editor stays well formed.
    pub fn process_keypress(&mut self, key: Key) -> (r: Action)
        ensures
            (final(self)@, r) == step(old(self)@, key),
            state_wf(old(self)@) ==> state_wf(final(self)@),
            single_lines(old(self)@.rows) ==> single_lines(final(self)@.rows),
    {
        proof {
            if single_lines(old(self)@.rows) {
                lemma_step_single_lines(old(self)@, key);
            }
        }
        let action = if self.prompt.is_some() {
            self.prompt_keypress(key)
        } else {
            match key {
                Key::Ctrl(c) => {
                    if c == 'q' {
                        self.should_quit = true;
                        Action::Quit
                    } else if c == 's' {
                        if self.document.file_name().is_none() {
                            let message = chars_of("Save as: ");
                            proof {
                                reveal_strlit("Save as: ");
                            }
                            assert(message@ =~= prompt_label());
                            self.prompt = Some(Vec::new());
                            self.status_message = StatusMessage::from(message);
                            Action::Continue
                        } else {
                            Action::Save
                        }
                    } else {
                        Action::Continue
                    }
                },
                Key::Char(c) => {
                    self.document.insert(&self.cursor_position, c);
                    self.move_cursor(Key::Right);
                    Action::Continue
                },
                Key::Delete => {
                    self.document.delete(&self.cursor_position);
                    Action::Continue
                },
                Key::Backspace => {
                    if self.cursor_position.x > 0 || self.cursor_position.y > 0 {
                        self.move_cursor(Key::Left);
                        self.document.delete(&self.cursor_position);
                    }
                    Action::Continue
                },
                Key::Up | Key::Down | Key::Left | Key::Right | Key::PageUp | Key::PageDown
                | Key::Home | Key::End => {
                    self.move_cursor(key);
                    Action::Continue
                },
                _ => Action::Continue,
            }
        };
        assert((self@, action) == dispatched(old(self)@, key));
        self.scroll();
        proof {
            self.document.lemma_fits();
            if state_wf(old(self)@) {
                lemma_step_wf(old(self)@, key);
            }
        }
        action
    }

    /// One turn of the main loop for the key press `key`: once the editor is
    /// quitting it stays so and does nothing more; before that, see `step`.
    pub fn run(&mut self, key: Key) -> (r: Action)
        ensures
            old(self)@.should_quit ==> final(self)@ == old(self)@ && r == Action::Quit,
            !old(self)@.should_quit ==> (final(self)@, r) == step(old(self)@, key),
            state_wf(old(self)@) ==> state_wf(final(self)@),
            single_lines(old(self)@.rows) ==> single_lines(final(self)@.rows),
    {
        if self.should_quit {
            Action::Quit
        } else {
            self.process_keypress(key)
        }
    }

    /// Reports the outcome of storing the document.
    pub fn finish_save(&mut self, saved: bool)
        ensures
            final(self)@ == (EditorState {
                message: if saved { saved_text() } else { save_failed_text() },
                ..old(self)@
            }),
    {
        let message = if saved {
            proof {
                reveal_strlit("File saved successfully.");
            }
            chars_of("File saved successfully.")
        } else {
            proof {
                reveal_strlit("Error writing file!");
            }
            chars_of("Error writing file!")
        };
        assert(message@ =~= (if saved { saved_text() } else { save_failed_text() }));
        self.status_message = StatusMessage::from(message);
    }

    /// The part of `row` that shows through the viewport.
    pub fn draw_row(&self, row: &Row) -> (r: Vec<char>)
        ensures
            r@ == rendered(
                row@,
                self@.offset.x as int,
                sat_add(self@.offset.x as int, self@.size.width as int),
            ),
    {
        let start = self.offset.x;
        let end = self.offset.x.saturating_add(self.size.width);
        row.render(start, end)
    }

    /// The welcome banner, centred on the screen.
    pub fn draw_welcome_message(&self) -> (r: Vec<char>)
        ensures
            r@ == welcome_line(self@.size.width as int),
    {
        let width = self.size.width;
        let message = chars_of(WELCOME);
        let padding = width.saturating_sub(message.len()) / 2;
        let mut line: Vec<char> = Vec::new();
        line.push('~');
        push_spaces(&mut line, padding.saturating_sub(1));
        push_all(&mut line, &message);
        truncate(&mut line, width);
        line
    }

    /// The content rows of the screen, top to bottom.
    pub fn draw_rows(&self) -> (r: Vec<Vec<char>>)
        ensures
            r@.len() == self@.size.height,
            forall|i: int| 0 <= i < self@.size.height ==> #[trigger] r@[i]@ == content_line(self@, i),
    {
        let height = self.size.height;
        let len = self.document.len();
        let mut lines: Vec<Vec<char>> = Vec::new();
        let mut r: usize = 0;
        while r < height
            invariant
                r <= height,
                height == self@.size.height,
                len == self@.rows.len(),
                lines@.len() == r,
                forall|i: int| 0 <= i < r ==> #[trigger] lines@[i]@ == content_line(self@, i),
            decreases height - r,
        {
            let line = if self.offset.y < len && r < len - self.offset.y {
                match self.document.row(self.offset.y + r) {
                    Some(row) => self.draw_row(row),
                    None => Vec::new(),
                }
            } else if len == 0 && r == height / 3 {
                self.draw_welcome_message()
            } else {
                let mut tilde: Vec<char> = Vec::new();
                tilde.push('~');
                assert(tilde@ =~= seq!['~']);
                tilde
            };
            lines.push(line);
            r = r + 1;
        }
        lines
    }

    /// The status bar: file name, number of lines, and the cursor's line and
    /// column.
    pub fn draw_status_bar(&self) -> (r: Vec<char>)
        ensures
            r@ == status_line(self@),
    {
        let width = self.size.width;
        let mut left: Vec<char> = Vec::new();
        match self.document.file_name() {
            Some(name) => {
                push_all(&mut left, name);
                truncate(&mut left, NAME_WIDTH);
            },
            None => {
                left = chars_of(NO_NAME);
            },
        }
        assert(left@ =~= shown_name(self@.file_name));
        push_all(&mut left, &chars_of(" - "));
        push_all(&mut left, &decimal_chars(self.document.len()));
        push_all(&mut left, &chars_of(" lines"));
        assert(left@ =~= status_left(self@));
        let mut right = decimal_chars(self.cursor_position.y.saturating_add(1));
        right.push('/');
        push_all(&mut right, &decimal_chars(self.cursor_position.x.saturating_add(1)));
        assert(right@ =~= status_right(self@));
        if width > left.len() && width - left.len() > right.len() {
            let gap = width - left.len() - right.len();
            push_spaces(&mut left, gap);
        }
        push_all(&mut left, &right);
        truncate(&mut left, width);
        left
    }

    /// The message bar: the message while `fresh`, else nothing.
    pub fn draw_message_bar(&self, fresh: bool) -> (r: Vec<char>)
        ensures
            r@ == message_line(self@, fresh),
    {
        let mut text: Vec<char> = Vec::new();
        if fresh {
            push_all(&mut text, &self.status_message.text);
            truncate(&mut text, self.size.width);
        }
        assert(text@ =~= message_line(self@, fresh));
        text
    }

    /// The frame for the current state, showing the message when `fresh`.
    pub fn draw(&self, fresh: bool) -> (r: Frame)
        ensures
            frame_of(r, self@, fresh),
    {
        Frame {
            rows: self.draw_rows(),
            status_bar: self.draw_status_bar(),
            message_bar: self.draw_message_bar(fresh),
            cursor: Position {
                x: self.cursor_position.x.saturating_sub(self.offset.x),
                y: self.cursor_position.y.saturating_sub(self.offset.y),
            },
        }
    }

    /// The next frame to paint; `None` once the editor is quitting, when the
    /// screen is to be cleared instead. Whether the message still shows
    /// depends on the clock.
    pub fn refresh_screen(&self) -> (r: Option<Frame>)
        ensures
            self@.should_quit ==> r.is_none(),
            !self@.should_quit ==> r.is_some() && (frame_of(r.unwrap(), self@, true) || frame_of(
                r.unwrap(),
                self@,
                false,
            )),
    {
        if self.should_quit {
            None
        } else {
            let fresh = self.status_message.is_fresh();
            Some(self.draw(fresh))
        }
    }
}

} // verus!
