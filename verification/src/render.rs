//! Pure rendering text: each visible screen row as a fixed-width character
//! run, and the status line showing the mode and the cursor position. The
//! caller prints these; nothing here touches a terminal.

use vstd::prelude::*;
use crate::editor::Editor;
use crate::editor::EditorModel;
use crate::editor::Mode;

verus! {

/// The character for one decimal digit value.
pub open spec fn spec_digit_char(d: int) -> char {
    if d == 0 {
        '0'
    } else if d == 1 {
        '1'
    } else if d == 2 {
        '2'
    } else if d == 3 {
        '3'
    } else if d == 4 {
        '4'
    } else if d == 5 {
        '5'
    } else if d == 6 {
        '6'
    } else if d == 7 {
        '7'
    } else if d == 8 {
        '8'
    } else {
        '9'
    }
}

/// The decimal digits of `n`, most significant first, with no leading zero
/// except for `n == 0` itself.
pub open spec fn spec_decimal(n: int) -> Seq<char>
    decreases n,
{
    if n < 10 {
        seq![spec_digit_char(n)]
    } else {
        spec_decimal(n / 10).push(spec_digit_char(n % 10))
    }
}

/// The name of a mode, as the status line shows it.
pub open spec fn spec_mode_chars(m: Mode) -> Seq<char> {
    match m {
        Mode::Normal => seq!['N', 'o', 'r', 'm', 'a', 'l'],
        Mode::Insert => seq!['I', 'n', 's', 'e', 'r', 't'],
    }
}

/// The status line text: the mode, then the cursor as `row:column`, spaced
/// as ` Mode row:column `.
pub open spec fn spec_status_text(m: EditorModel) -> Seq<char> {
    seq![' '] + spec_mode_chars(m.mode) + seq![' '] + spec_decimal(m.row) + seq![':']
        + spec_decimal(m.col) + seq![' ']
}

/// The text of screen row `i`: the document line scrolled there, cut or
/// padded with spaces to exactly the window width.
pub open spec fn spec_row_text(m: EditorModel, i: int) -> Seq<char> {
    Seq::new(
        m.width as nat,
        |j: int|
            if m.top + i < m.lines.len() && j < m.lines[m.top + i].len() {
                m.lines[m.top + i][j]
            } else {
                ' '
            },
    )
}

/// The character of one decimal digit value.
pub fn digit_char(d: u16) -> (c: char)
    requires
        d < 10,
    ensures
        c == spec_digit_char(d as int),
{
    if d == 0 {
        '0'
    } else if d == 1 {
        '1'
    } else if d == 2 {
        '2'
    } else if d == 3 {
        '3'
    } else if d == 4 {
        '4'
    } else if d == 5 {
        '5'
    } else if d == 6 {
        '6'
    } else if d == 7 {
        '7'
    } else if d == 8 {
        '8'
    } else {
        '9'
    }
}

/// The decimal digits of `n`, most significant first.
pub fn u16_decimal(n: u16) -> (r: Vec<char>)
    ensures
        r@ == spec_decimal(n as int),
    decreases n,
{
    if n < 10 {
        let mut r: Vec<char> = Vec::new();
        r.push(digit_char(n));
        proof {
            assert(r@ =~= spec_decimal(n as int));
        }
        r
    } else {
        let mut r = u16_decimal(n / 10);
        r.push(digit_char(n % 10));
        r
    }
}

impl Editor {
    /// The status line: current mode and cursor position.
    pub fn status_text(&self) -> (r: Vec<char>)
        ensures
            r@ == spec_status_text(self@),
    {
        let mut r: Vec<char> = Vec::new();
        r.push(' ');
        match self.mode {
            Mode::Normal => {
                r.push('N');
                r.push('o');
                r.push('r');
                r.push('m');
                r.push('a');
                r.push('l');
            },
            Mode::Insert => {
                r.push('I');
                r.push('n');
                r.push('s');
                r.push('e');
                r.push('r');
                r.push('t');
            },
        }
        r.push(' ');
        let mut row_digits = u16_decimal(self.row);
        r.append(&mut row_digits);
        r.push(':');
        let mut col_digits = u16_decimal(self.column);
        r.append(&mut col_digits);
        r.push(' ');
        proof {
            assert(r@ =~= spec_status_text(self@));
        }
        r
    }

    /// The text shown on screen row `index`: the document line scrolled
    /// there, cut or padded with spaces to exactly the window width.
    pub fn visible_row_text(&self, index: u16) -> (r: Vec<char>)
        ensures
            r@ == spec_row_text(self@, index as int),
            r@.len() == self@.width,
    {
        let width = self.terminal_width() as usize;
        let mut r: Vec<char> = Vec::new();
        let line = self.v_line(index);
        match line {
            Some(line) => {
                let mut j: usize = 0;
                while j < width
                    invariant
                        j <= width,
                        width == self@.width,
                        self@.top + index < self@.lines.len(),
                        line@ == self@.lines[self@.top + index],
                        r@.len() == j,
                        forall|k: int|
                            0 <= k < j ==> r@[k] == spec_row_text(self@, index as int)[k],
                    decreases width - j,
                {
                    if j < line.len() {
                        r.push(line[j]);
                    } else {
                        r.push(' ');
                    }
                    j = j + 1;
                }
            },
            None => {
                let mut j: usize = 0;
                while j < width
                    invariant
                        j <= width,
                        width == self@.width,
                        self@.top + index >= self@.lines.len(),
                        r@.len() == j,
                        forall|k: int|
                            0 <= k < j ==> r@[k] == spec_row_text(self@, index as int)[k],
                    decreases width - j,
                {
                    r.push(' ');
                    j = j + 1;
                }
            },
        }
        proof {
            assert(r@ =~= spec_row_text(self@, index as int));
        }
        r
    }
}

} // verus!
