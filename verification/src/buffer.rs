//! A flat editable text buffer: a sequence of characters together with a
//! cursor position. Insertion and deletion happen at the cursor, which never
//! leaves the range `[0, content.len()]`.

use vstd::prelude::*;

verus! {

/// Flat text with an insertion cursor.
///
/// Invariant (`wf`): the cursor position never exceeds the content length.
pub struct Buffer {
    pub content: Vec<char>,
    pub cursor_position: usize,
}

impl Buffer {
    /// The cursor always sits between 0 and the content length, inclusive.
    pub open spec fn wf(&self) -> bool {
        self.cursor_position <= self.content@.len()
    }

    /// An empty buffer with the cursor at the start.
    pub fn new() -> (r: Buffer)
        ensures
            r.wf(),
            r.content@ == Seq::<char>::empty(),
            r.cursor_position == 0,
    {
        Buffer { content: Vec::new(), cursor_position: 0 }
    }

    /// Insert `c` at the cursor and advance the cursor past it.
    pub fn insert(&mut self, c: char)
        requires
            old(self).wf(),
        ensures
            final(self).wf(),
            final(self).content@ == old(self).content@.insert(
                old(self).cursor_position as int,
                c,
            ),
            final(self).cursor_position == old(self).cursor_position + 1,
    {
        self.content.insert(self.cursor_position, c);
        let n = self.content.len();
        assert(self.cursor_position < n);
        self.cursor_position = self.cursor_position + 1;
    }

    /// Remove the character just left of the cursor and step the cursor back;
    /// at position 0 the buffer is left unchanged.
    pub fn delete(&mut self)
        requires
            old(self).wf(),
        ensures
            final(self).wf(),
            old(self).cursor_position > 0 ==> {
                &&& final(self).content@ == old(self).content@.remove(
                    old(self).cursor_position - 1,
                )
                &&& final(self).cursor_position == old(self).cursor_position - 1
            },
            old(self).cursor_position == 0 ==> *final(self) == *old(self),
    {
        if self.cursor_position > 0 {
            self.content.remove(self.cursor_position - 1);
            self.cursor_position = self.cursor_position - 1;
        }
    }

    /// Step the cursor one character left, stopping at 0.
    pub fn move_cursor_left(&mut self)
        ensures
            final(self).content@ == old(self).content@,
            old(self).cursor_position > 0
                ==> final(self).cursor_position == old(self).cursor_position - 1,
            old(self).cursor_position == 0 ==> final(self).cursor_position == 0,
            old(self).wf() ==> final(self).wf(),
    {
        if self.cursor_position > 0 {
            self.cursor_position = self.cursor_position - 1;
        }
    }

    /// Step the cursor one character right, stopping at the content length.
    pub fn move_cursor_right(&mut self)
        ensures
            final(self).content@ == old(self).content@,
            old(self).cursor_position < old(self).content@.len()
                ==> final(self).cursor_position == old(self).cursor_position + 1,
            old(self).cursor_position >= old(self).content@.len()
                ==> final(self).cursor_position == old(self).cursor_position,
            old(self).wf() ==> final(self).wf(),
    {
        if self.cursor_position < self.content.len() {
            self.cursor_position = self.cursor_position + 1;
        }
    }

    /// The buffer's characters, in order.
    pub fn get_content(&self) -> (r: &Vec<char>)
        ensures
            r@ == self.content@,
    {
        &self.content
    }

    /// Where the cursor currently sits.
    pub fn get_cursor_position(&self) -> (r: usize)
        ensures
            r == self.cursor_position,
    {
        self.cursor_position
    }
}

} // verus!
