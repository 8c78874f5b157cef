//! The editing core: viewport, cursor, mode state machine and action
//! application. The editor consumes abstract input events (keys and terminal
//! resizes) and transforms its state; all terminal handling stays outside.
//!
//! Coordinates: `row` and `column` are on-screen positions, 0-based.
//! `terminal_top` is the index of the document line shown on screen row 0,
//! so the logical line under the cursor is `terminal_top + row`. The last
//! two terminal rows are reserved for the status line, hence the text
//! viewport is `window_size.1 - 2` rows tall.

use vstd::prelude::*;
use crate::document::Document;
use crate::document::spec_line_len;

verus! {

/// The editing mode: decides which keymap interprets the next key.
#[derive(Clone, Copy, PartialEq, Eq, Structural, Debug)]
pub enum Mode {
    Normal,
    Insert,
}

/// A discrete editor command produced by interpreting one key event.
#[derive(Clone, Copy, PartialEq, Eq, Structural, Debug)]
pub enum Action {
    Quit,
    MoveUp,
    MoveDown,
    MoveLeft,
    MoveRight,
    MoveToStartOfLine,
    MoveToEndOfLine,
    SetMode(Mode),
}

/// A key, already decoded from the terminal's event stream.
#[derive(Clone, Copy, PartialEq, Eq, Structural, Debug)]
pub enum Key {
    Char(char),
    Up,
    Down,
    Left,
    Right,
    Esc,
    Backspace,
    Enter,
    Delete,
    Other,
}

/// A key press together with whether the control modifier was held.
#[derive(Clone, Copy, PartialEq, Eq, Structural, Debug)]
pub struct KeyInput {
    pub key: Key,
    pub ctrl: bool,
}

/// One input event of the editor: a key press, a terminal resize carrying
/// the new (width, height), or anything else, which the editor ignores.
#[derive(Clone, Copy, PartialEq, Eq, Structural, Debug)]
pub enum InputEvent {
    Key(KeyInput),
    Resize(u16, u16),
    Other,
}

/// The mathematical state of the editor: document lines, scroll offset,
/// cursor, window size and mode, all as unbounded integers.
#[verifier::ext_equal]
pub ghost struct EditorModel {
    pub lines: Seq<Seq<char>>,
    pub top: int,
    pub row: int,
    pub col: int,
    pub width: int,
    pub rows_total: int,
    pub mode: Mode,
}

impl EditorModel {
    /// Rows available for text: the whole window minus the two status rows.
    pub open spec fn height(self) -> int {
        self.rows_total - 2
    }

    /// The document line the cursor sits on.
    pub open spec fn line_index(self) -> int {
        self.top + self.row
    }

    /// Length of the line under the cursor; 0 where no line exists there.
    pub open spec fn current_line_len(self) -> int {
        spec_line_len(self.lines, self.line_index())
    }

    /// The shape every reachable editor state keeps: a window of at least
    /// one column and three rows (so at least one text row), and a cursor
    /// row inside the text viewport.
    pub open spec fn size_ok(self) -> bool {
        &&& self.width >= 1
        &&& self.rows_total >= 3
        &&& 0 <= self.row < self.height()
        &&& 0 <= self.top
        &&& 0 <= self.col
    }
}

/// State after the boundary-clamping pass: the column is pulled back onto
/// the current line (one short of its end, or 0 on an empty or absent line)
/// and inside the window; then the row is pulled back onto the last document
/// line, flooring at 0 when even the top of the viewport is past the end.
pub open spec fn spec_clamp(m: EditorModel) -> EditorModel {
    let l = m.current_line_len();
    let c1 = if m.col >= l {
        if l > 0 {
            l - 1
        } else {
            0
        }
    } else {
        m.col
    };
    let c2 = if c1 >= m.width {
        m.width - 1
    } else {
        c1
    };
    let r = if m.top + m.row >= m.lines.len() {
        if m.lines.len() > m.top {
            m.lines.len() - 1 - m.top
        } else {
            0
        }
    } else {
        m.row
    };
    EditorModel { col: c2, row: r, ..m }
}

/// State after one action. Vertical moves scroll at the window edges: a move
/// down past the last text row scrolls instead of moving, and only while a
/// document line remains below (and the 16-bit scroll offset has room); a
/// move up at row 0 scrolls back instead. Horizontal moves stop at 0 on the
/// left and run free to the right, to be clamped by the next pass. A move to
/// the end of line lands one past the last character, capped at the largest
/// 16-bit column.
pub open spec fn spec_apply_action(m: EditorModel, a: Action) -> EditorModel {
    match a {
        Action::Quit => m,
        Action::MoveUp => if m.row > 0 {
            EditorModel { row: m.row - 1, ..m }
        } else if m.top > 0 {
            EditorModel { top: m.top - 1, ..m }
        } else {
            m
        },
        Action::MoveDown => if m.row + 1 < m.height() {
            EditorModel { row: m.row + 1, ..m }
        } else if m.top + m.row + 1 < m.lines.len() && m.top < 65535 {
            EditorModel { top: m.top + 1, ..m }
        } else {
            m
        },
        Action::MoveLeft => if m.col > 0 {
            EditorModel { col: m.col - 1, ..m }
        } else {
            m
        },
        Action::MoveRight => EditorModel { col: m.col + 1, ..m },
        Action::MoveToStartOfLine => EditorModel { col: 0, ..m },
        Action::MoveToEndOfLine => EditorModel {
            col: if m.current_line_len() > 65535 {
                65535
            } else {
                m.current_line_len()
            },
            ..m
        },
        Action::SetMode(md) => EditorModel { mode: md, ..m },
    }
}

/// State after a resize to `w` columns and `h` rows. The window never drops
/// below one column and three rows, and the cursor row is pulled back inside
/// the shrunk viewport.
pub open spec fn spec_resize(m: EditorModel, w: int, h: int) -> EditorModel {
    let w2 = if w < 1 {
        1
    } else {
        w
    };
    let h2 = if h < 3 {
        3
    } else {
        h
    };
    let r2 = if m.row >= h2 - 2 {
        h2 - 3
    } else {
        m.row
    };
    EditorModel { width: w2, rows_total: h2, row: r2, ..m }
}

/// The Normal-mode keymap, as a pure function of the key.
pub open spec fn spec_normal_action(k: KeyInput) -> Option<Action> {
    match k.key {
        Key::Char(c) => if c == 'j' {
            Some(Action::MoveDown)
        } else if c == 'k' {
            Some(Action::MoveUp)
        } else if c == 'h' {
            if k.ctrl {
                Some(Action::MoveToStartOfLine)
            } else {
                Some(Action::MoveLeft)
            }
        } else if c == 'l' {
            if k.ctrl {
                Some(Action::MoveToEndOfLine)
            } else {
                Some(Action::MoveRight)
            }
        } else if c == 'q' {
            Some(Action::Quit)
        } else if c == 'i' {
            Some(Action::SetMode(Mode::Insert))
        } else if c == '$' {
            Some(Action::MoveToEndOfLine)
        } else if c == '0' {
            Some(Action::MoveToStartOfLine)
        } else {
            None
        },
        Key::Down => Some(Action::MoveDown),
        Key::Up => Some(Action::MoveUp),
        Key::Left => if k.ctrl {
            Some(Action::MoveToStartOfLine)
        } else {
            Some(Action::MoveLeft)
        },
        Key::Right => if k.ctrl {
            Some(Action::MoveToEndOfLine)
        } else {
            Some(Action::MoveRight)
        },
        _ => None,
    }
}

/// The Insert-mode keymap: escape leaves the mode, arrows move; text keys
/// mutate the document directly and yield no action.
pub open spec fn spec_insert_action(k: KeyInput) -> Option<Action> {
    match k.key {
        Key::Esc => Some(Action::SetMode(Mode::Normal)),
        Key::Up => Some(Action::MoveUp),
        Key::Down => Some(Action::MoveDown),
        Key::Left => Some(Action::MoveLeft),
        Key::Right => Some(Action::MoveRight),
        _ => None,
    }
}

/// Insert-mode state change for one key. A printable character is inserted
/// at the logical cursor position and the column advances past it; backspace
/// removes the character left of the cursor and steps back, and is a no-op
/// at column 0; enter splits the current line at the cursor and moves to the
/// start of the next row, scrolling when the cursor is pinned at the bottom
/// edge. A key whose target position is outside the document leaves the
/// state unchanged.
pub open spec fn spec_insert_state(m: EditorModel, k: KeyInput) -> EditorModel {
    let idx = m.line_index();
    match k.key {
        Key::Char(c) => if 0 <= idx < m.lines.len() && 0 <= m.col <= m.lines[idx].len() {
            EditorModel {
                lines: m.lines.update(idx, m.lines[idx].insert(m.col, c)),
                col: m.col + 1,
                ..m
            }
        } else {
            m
        },
        Key::Backspace => if m.col > 0 && 0 <= idx < m.lines.len() && m.col - 1
            < m.lines[idx].len() {
            EditorModel {
                lines: m.lines.update(idx, m.lines[idx].remove(m.col - 1)),
                col: m.col - 1,
                ..m
            }
        } else {
            m
        },
        Key::Enter => if 0 <= idx < m.lines.len() && 0 <= m.col <= m.lines[idx].len() {
            let split = m.lines.update(idx, m.lines[idx].take(m.col)).insert(
                idx + 1,
                m.lines[idx].skip(m.col),
            );
            if m.row + 1 < m.height() {
                EditorModel { lines: split, row: m.row + 1, col: 0, ..m }
            } else if m.top < 65535 {
                EditorModel { lines: split, top: m.top + 1, col: 0, ..m }
            } else {
                EditorModel { lines: split, col: 0, ..m }
            }
        } else {
            m
        },
        _ => m,
    }
}

/// State after one input event: a resize reshapes the window, a key in
/// Insert mode may edit, and everything else leaves the state alone.
pub open spec fn spec_step(m: EditorModel, e: InputEvent) -> EditorModel {
    match e {
        InputEvent::Resize(w, h) => spec_resize(m, w as int, h as int),
        InputEvent::Key(k) => match m.mode {
            Mode::Normal => m,
            Mode::Insert => spec_insert_state(m, k),
        },
        InputEvent::Other => m,
    }
}

/// The action, if any, an input event produces under the current mode.
pub open spec fn spec_emit(m: EditorModel, e: InputEvent) -> Option<Action> {
    match e {
        InputEvent::Key(k) => match m.mode {
            Mode::Normal => spec_normal_action(k),
            Mode::Insert => spec_insert_action(k),
        },
        _ => None,
    }
}

/// The editor state: the document, the on-screen cursor, the scroll offset,
/// the mode, and the terminal size as (columns, rows).
pub struct Editor {
    pub buffer: Document,
    pub column: u16,
    pub row: u16,
    pub terminal_top: u16,
    pub mode: Mode,
    pub window_size: (u16, u16),
}

impl Editor {
    /// The editor as its mathematical model.
    pub open spec fn view(&self) -> EditorModel {
        EditorModel {
            lines: self.buffer@,
            top: self.terminal_top as int,
            row: self.row as int,
            col: self.column as int,
            width: self.window_size.0 as int,
            rows_total: self.window_size.1 as int,
            mode: self.mode,
        }
    }

    /// A fresh editor over `buffer`: cursor at the origin, no scroll, Normal
    /// mode. The window is held to at least one column and three rows.
    pub fn new(buffer: Document, window_size: (u16, u16)) -> (r: Editor)
        ensures
            r@.lines == buffer@,
            r@.top == 0 && r@.row == 0 && r@.col == 0,
            r@.mode == Mode::Normal,
            r@.width == if window_size.0 < 1 { 1int } else { window_size.0 as int },
            r@.rows_total == if window_size.1 < 3 { 3int } else { window_size.1 as int },
            r@.size_ok(),
    {
        let w = if window_size.0 < 1 {
            1
        } else {
            window_size.0
        };
        let h = if window_size.1 < 3 {
            3
        } else {
            window_size.1
        };
        Editor {
            buffer,
            column: 0,
            row: 0,
            terminal_top: 0,
            mode: Mode::Normal,
            window_size: (w, h),
        }
    }

    /// Rows of the window that show text: all but the two status rows.
    pub fn terminal_height(&self) -> (r: u16)
        requires
            self@.rows_total >= 2,
        ensures
            r == self@.height(),
    {
        self.window_size.1 - 2
    }

    /// Columns of the window.
    pub fn terminal_width(&self) -> (r: u16)
        ensures
            r == self@.width,
    {
        self.window_size.0
    }

    /// The document line shown on screen row `index`, if any.
    pub fn v_line(&self, index: u16) -> (r: Option<&Vec<char>>)
        ensures
            self@.top + index < self@.lines.len() ==> (r is Some && r->0@ == self@.lines[
                self@.top + index
            ]),
            self@.top + index >= self@.lines.len() ==> r is None,
    {
        let line = self.terminal_top as usize + index as usize;
        self.buffer.get_line(line)
    }

    /// Length of the line under the cursor; 0 where the cursor is past the
    /// end of the document.
    pub fn get_line_length(&self) -> (r: usize)
        ensures
            r == self@.current_line_len(),
    {
        let line = self.terminal_top as usize + self.row as usize;
        self.buffer.line_len(line)
    }

    /// The boundary-clamping pass, run once per loop iteration before
    /// rendering: pulls the cursor back inside the current line, the window
    /// and the document.
    pub fn handle_broundries(&mut self)
        requires
            old(self)@.width >= 1,
        ensures
            final(self)@ == spec_clamp(old(self)@),
    {
        let len_line = self.get_line_length();
        if self.column as usize >= len_line {
            if len_line > 0 {
                self.column = (len_line - 1) as u16;
            } else {
                self.column = 0;
            }
        }
        if self.column >= self.window_size.0 {
            self.column = self.window_size.0 - 1;
        }
        let total = self.terminal_top as usize + self.row as usize;
        let count = self.buffer.line_count();
        if total >= count {
            if count > self.terminal_top as usize {
                self.row = (count - 1 - self.terminal_top as usize) as u16;
            } else {
                self.row = 0;
            }
        }
    }

    /// Apply one action to the cursor, scroll offset and mode.
    pub fn apply_action(&mut self, action: Action)
        requires
            old(self)@.size_ok(),
            old(self)@.col < old(self)@.width,
        ensures
            final(self)@ == spec_apply_action(old(self)@, action),
            final(self)@.size_ok(),
    {
        match action {
            Action::Quit => {},
            Action::MoveUp => {
                if self.row > 0 {
                    self.row = self.row - 1;
                } else if self.terminal_top > 0 {
                    self.terminal_top = self.terminal_top - 1;
                }
            },
            Action::MoveDown => {
                let height = self.terminal_height();
                if self.row + 1 < height {
                    self.row = self.row + 1;
                } else {
                    let below = self.terminal_top as usize + self.row as usize + 1;
                    if below < self.buffer.line_count() && self.terminal_top < u16::MAX {
                        self.terminal_top = self.terminal_top + 1;
                    }
                }
            },
            Action::MoveLeft => {
                if self.column > 0 {
                    self.column = self.column - 1;
                }
            },
            Action::MoveRight => {
                self.column = self.column + 1;
            },
            Action::MoveToStartOfLine => {
                self.column = 0;
            },
            Action::MoveToEndOfLine => {
                let l = self.get_line_length();
                if l > u16::MAX as usize {
                    self.column = u16::MAX;
                } else {
                    self.column = l as u16;
                }
            },
            Action::SetMode(md) => {
                self.mode = md;
            },
        }
    }

    /// Interpret a key under the Normal-mode keymap. Unrecognized keys map
    /// to no action at all.
    pub fn handle_normal_mode(&self, k: KeyInput) -> (r: Option<Action>)
        ensures
            r == spec_normal_action(k),
    {
        match k.key {
            Key::Char(c) => {
                if c == 'j' {
                    Some(Action::MoveDown)
                } else if c == 'k' {
                    Some(Action::MoveUp)
                } else if c == 'h' {
                    if k.ctrl {
                        Some(Action::MoveToStartOfLine)
                    } else {
                        Some(Action::MoveLeft)
                    }
                } else if c == 'l' {
                    if k.ctrl {
                        Some(Action::MoveToEndOfLine)
                    } else {
                        Some(Action::MoveRight)
                    }
                } else if c == 'q' {
                    Some(Action::Quit)
                } else if c == 'i' {
                    Some(Action::SetMode(Mode::Insert))
                } else if c == '$' {
                    Some(Action::MoveToEndOfLine)
                } else if c == '0' {
                    Some(Action::MoveToStartOfLine)
                } else {
                    None
                }
            },
            Key::Down => Some(Action::MoveDown),
            Key::Up => Some(Action::MoveUp),
            Key::Left => {
                if k.ctrl {
                    Some(Action::MoveToStartOfLine)
                } else {
                    Some(Action::MoveLeft)
                }
            },
            Key::Right => {
                if k.ctrl {
                    Some(Action::MoveToEndOfLine)
                } else {
                    Some(Action::MoveRight)
                }
            },
            _ => None,
        }
    }

    /// Interpret a key under the Insert-mode keymap, applying text mutations
    /// directly to the document at the logical cursor position.
    pub fn handle_insert_mode(&mut self, k: KeyInput) -> (r: Option<Action>)
        requires
            old(self)@.size_ok(),
            old(self)@.col < old(self)@.width,
        ensures
            final(self)@ == spec_insert_state(old(self)@, k),
            r == spec_insert_action(k),
            final(self)@.size_ok(),
    {
        match k.key {
            Key::Esc => Some(Action::SetMode(Mode::Normal)),
            Key::Backspace => {
                if self.column > 0 {
                    let idx = self.terminal_top as usize + self.row as usize;
                    let col = self.column as usize;
                    let res = self.buffer.delete_char(idx, col - 1);
                    if res.is_ok() {
                        self.column = self.column - 1;
                    }
                }
                None
            },
            Key::Delete => None,
            Key::Enter => {
                let idx = self.terminal_top as usize + self.row as usize;
                let col = self.column as usize;
                let res = self.buffer.split_line(idx, col);
                if res.is_ok() {
                    let height = self.terminal_height();
                    if self.row + 1 < height {
                        self.row = self.row + 1;
                    } else if self.terminal_top < u16::MAX {
                        self.terminal_top = self.terminal_top + 1;
                    }
                    self.column = 0;
                }
                None
            },
            Key::Char(ch) => {
                let idx = self.terminal_top as usize + self.row as usize;
                let col = self.column as usize;
                let res = self.buffer.insert_char(idx, col, ch);
                if res.is_ok() {
                    self.column = self.column + 1;
                }
                None
            },
            Key::Up => Some(Action::MoveUp),
            Key::Right => Some(Action::MoveRight),
            Key::Down => Some(Action::MoveDown),
            Key::Left => Some(Action::MoveLeft),
            Key::Other => None,
        }
    }

    /// Dispatch one input event: a resize reshapes the window regardless of
    /// mode and yields no action; a key goes through the current mode's
    /// keymap.
    pub fn handle_event(&mut self, event: InputEvent) -> (r: Option<Action>)
        requires
            old(self)@.size_ok(),
            old(self)@.col < old(self)@.width,
        ensures
            final(self)@ == spec_step(old(self)@, event),
            r == spec_emit(old(self)@, event),
            final(self)@.size_ok(),
    {
        match event {
            InputEvent::Resize(w, h) => {
                let w2 = if w < 1 {
                    1
                } else {
                    w
                };
                let h2 = if h < 3 {
                    3
                } else {
                    h
                };
                if self.row >= h2 - 2 {
                    self.row = h2 - 3;
                }
                self.window_size = (w2, h2);
                None
            },
            InputEvent::Key(k) => {
                match self.mode {
                    Mode::Normal => self.handle_normal_mode(k),
                    Mode::Insert => self.handle_insert_mode(k),
                }
            },
            InputEvent::Other => None,
        }
    }
}

} // verus!
