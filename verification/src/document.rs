//! Document content as an ordered sequence of lines. Lines are sequences of
//! characters with no stored line break. Lookup past the end is an explicit
//! absent result, and every mutation validates its target position first.

use vstd::prelude::*;

verus! {

/// An edit aimed outside the current extent of the document.
#[derive(Clone, Copy, PartialEq, Eq, Structural, Debug)]
pub enum EditError {
    OutOfBounds,
}

/// Ordered lines of text; the whole document model.
pub struct Document {
    pub lines: Vec<Vec<char>>,
}

impl Document {
    /// The mathematical content: a sequence of lines, each a sequence of
    /// characters.
    pub open spec fn view(&self) -> Seq<Seq<char>> {
        self.lines.deep_view()
    }

    /// Split flat text into lines on `'\n'` boundaries. A trailing newline
    /// ends the last line; it does not add an empty line after it, so text
    /// with no characters yields no lines.
    pub fn from_text(text: &Vec<char>) -> (r: Document)
        ensures
            r@ == spec_split_lines(text@),
    {
        let mut lines: Vec<Vec<char>> = Vec::new();
        let mut current: Vec<char> = Vec::new();
        let mut i: usize = 0;
        proof {
            assert(text@.skip(0) =~= text@);
            assert(lines.deep_view() + spec_split_lines_partial(text@, current@)
                =~~= spec_split_lines_partial(text@, Seq::<char>::empty()));
        }
        while i < text.len()
            invariant
                i <= text@.len(),
                spec_split_lines(text@) == lines.deep_view() + spec_split_lines_partial(
                    text@.skip(i as int),
                    current@,
                ),
            decreases text@.len() - i,
        {
            let c = text[i];
            proof {
                assert(text@.skip(i as int)[0] == c);
                assert(text@.skip(i as int).skip(1) =~= text@.skip(i as int + 1));
            }
            if c == '\n' {
                let ghost cur = current@;
                let ghost old_dv = lines.deep_view();
                lines.push(current);
                current = Vec::new();
                proof {
                    assert(lines.deep_view() =~~= old_dv.push(cur));
                    assert(old_dv + (seq![cur] + spec_split_lines_partial(
                        text@.skip(i as int + 1),
                        Seq::<char>::empty(),
                    )) =~~= old_dv.push(cur) + spec_split_lines_partial(
                        text@.skip(i as int + 1),
                        Seq::<char>::empty(),
                    ));
                }
            } else {
                current.push(c);
            }
            i = i + 1;
        }
        proof {
            assert(text@.skip(text@.len() as int) =~= Seq::<char>::empty());
        }
        let r = if current.len() > 0 {
            let ghost cur = current@;
            let ghost old_dv = lines.deep_view();
            let mut lines = lines;
            lines.push(current);
            proof {
                assert(lines.deep_view() =~~= old_dv.push(cur));
                assert(old_dv.push(cur) =~~= old_dv + seq![cur]);
            }
            Document { lines }
        } else {
            proof {
                assert(lines.deep_view() + Seq::<Seq<char>>::empty() =~~= lines.deep_view());
            }
            Document { lines }
        };
        r
    }

    /// How many lines the document holds.
    pub fn line_count(&self) -> (r: usize)
        ensures
            r == self@.len(),
    {
        self.lines.len()
    }

    /// The line at `index`, or an explicit absent result past the end. A
    /// present empty line and an index past the end are thereby kept apart.
    pub fn get_line(&self, index: usize) -> (r: Option<&Vec<char>>)
        ensures
            index < self@.len() ==> (r is Some && r->0@ == self@[index as int]),
            index >= self@.len() ==> r is None,
    {
        if index < self.lines.len() {
            Some(&self.lines[index])
        } else {
            None
        }
    }

    /// The length of the line at `index`; 0 where no such line exists, so
    /// every index has a well-defined length.
    pub fn line_len(&self, index: usize) -> (r: usize)
        ensures
            r == spec_line_len(self@, index as int),
    {
        match self.get_line(index) {
            Some(line) => line.len(),
            None => 0,
        }
    }

    /// Insert `ch` into the line at `line` before column `col`. Succeeds
    /// exactly when the line exists and `col` is at most its length; any
    /// other target is rejected unchanged.
    pub fn insert_char(&mut self, line: usize, col: usize, ch: char) -> (r: Result<
        (),
        EditError,
    >)
        ensures
            r is Ok <==> (line < old(self)@.len() && col <= old(self)@[line as int].len()),
            r is Ok ==> final(self)@ == old(self)@.update(
                line as int,
                old(self)@[line as int].insert(col as int, ch),
            ),
            r is Err ==> final(self)@ == old(self)@ && r == Err::<(), EditError>(
                EditError::OutOfBounds,
            ),
    {
        if line < self.lines.len() && col <= self.lines[line].len() {
            self.lines[line].insert(col, ch);
            proof {
                assert(self@ =~~= old(self)@.update(
                    line as int,
                    old(self)@[line as int].insert(col as int, ch),
                ));
            }
            Ok(())
        } else {
            proof {
                assert(self@ =~~= old(self)@);
            }
            Err(EditError::OutOfBounds)
        }
    }

    /// Remove the character at column `col` of the line at `line`. Succeeds
    /// exactly when that character exists; any other target is rejected
    /// unchanged.
    pub fn delete_char(&mut self, line: usize, col: usize) -> (r: Result<(), EditError>)
        ensures
            r is Ok <==> (line < old(self)@.len() && col < old(self)@[line as int].len()),
            r is Ok ==> final(self)@ == old(self)@.update(
                line as int,
                old(self)@[line as int].remove(col as int),
            ),
            r is Err ==> final(self)@ == old(self)@ && r == Err::<(), EditError>(
                EditError::OutOfBounds,
            ),
    {
        if line < self.lines.len() && col < self.lines[line].len() {
            self.lines[line].remove(col);
            proof {
                assert(self@ =~~= old(self)@.update(
                    line as int,
                    old(self)@[line as int].remove(col as int),
                ));
            }
            Ok(())
        } else {
            proof {
                assert(self@ =~~= old(self)@);
            }
            Err(EditError::OutOfBounds)
        }
    }

    /// Split the line at `line` in two at column `col`: the line keeps the
    /// characters before `col`, and a new line holding the rest is inserted
    /// right after it. Succeeds exactly when the line exists and `col` is at
    /// most its length.
    pub fn split_line(&mut self, line: usize, col: usize) -> (r: Result<(), EditError>)
        ensures
            r is Ok <==> (line < old(self)@.len() && col <= old(self)@[line as int].len()),
            r is Ok ==> final(self)@ == old(self)@.update(
                line as int,
                old(self)@[line as int].take(col as int),
            ).insert(line as int + 1, old(self)@[line as int].skip(col as int)),
            r is Err ==> final(self)@ == old(self)@ && r == Err::<(), EditError>(
                EditError::OutOfBounds,
            ),
    {
        if line < self.lines.len() && col <= self.lines[line].len() {
            let rest = self.lines[line].split_off(col);
            self.lines.insert(line + 1, rest);
            proof {
                assert(old(self)@[line as int].take(col as int) =~= old(self)@[
                    line as int].subrange(0, col as int));
                assert(old(self)@[line as int].skip(col as int) =~= old(self)@[
                    line as int].subrange(col as int, old(self)@[line as int].len() as int));
                assert(self@ =~~= old(self)@.update(
                    line as int,
                    old(self)@[line as int].take(col as int),
                ).insert(line as int + 1, old(self)@[line as int].skip(col as int)));
            }
            Ok(())
        } else {
            proof {
                assert(self@ =~~= old(self)@);
            }
            Err(EditError::OutOfBounds)
        }
    }
}

/// The length of line `index` of `lines`, with 0 for an index past the end.
pub open spec fn spec_line_len(lines: Seq<Seq<char>>, index: int) -> int {
    if 0 <= index < lines.len() {
        lines[index].len() as int
    } else {
        0
    }
}

/// Flat text split into lines on `'\n'`, starting with nothing carried over.
pub open spec fn spec_split_lines(text: Seq<char>) -> Seq<Seq<char>> {
    spec_split_lines_partial(text, Seq::<char>::empty())
}

/// Lines still to come out of `text`, given the characters `current` already
/// read of the line in progress.
pub open spec fn spec_split_lines_partial(text: Seq<char>, current: Seq<char>) -> Seq<
    Seq<char>,
>
    decreases text.len(),
{
    if text.len() == 0 {
        if current.len() == 0 {
            Seq::<Seq<char>>::empty()
        } else {
            seq![current]
        }
    } else if text[0] == '\n' {
        seq![current] + spec_split_lines_partial(text.skip(1), Seq::<char>::empty())
    } else {
        spec_split_lines_partial(text.skip(1), current.push(text[0]))
    }
}

} // verus!
