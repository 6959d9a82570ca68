use vstd::prelude::*;

use crate::error::NoteError;

verus! {

/// A line of text, as the sequence of characters that it holds.
pub type LineText = Seq<char>;

/// A cursor position: `col` counts characters from the start of line `row`.
/// A column equal to the line's length is the end-of-line insertion slot.
#[derive(Clone, Copy, Debug, PartialEq, Eq, Structural)]
pub struct Cursor {
    pub col: usize,
    pub row: usize,
}

/// Whether `(col, row)` addresses a character slot of `lines`, the
/// end-of-line slot included.
pub open spec fn in_bounds(lines: Seq<LineText>, col: int, row: int) -> bool {
    &&& 0 <= row < lines.len()
    &&& 0 <= col <= lines[row].len()
}

/// The lines after `ch` is inserted at column `col` of line `row`.
pub open spec fn insert_char_lines(lines: Seq<LineText>, row: int, col: int, ch: char) -> Seq<
    LineText,
> {
    lines.update(row, lines[row].insert(col, ch))
}

/// The lines after line `row` is split at column `col`: the line keeps its
/// first `col` characters, and the rest becomes a new line below it.
pub open spec fn split_lines(lines: Seq<LineText>, row: int, col: int) -> Seq<LineText> {
    lines.update(row, lines[row].subrange(0, col)).insert(
        row + 1,
        lines[row].subrange(col, lines[row].len() as int),
    )
}

/// The lines after line `row` is joined onto the end of line `row - 1`.
pub open spec fn join_lines(lines: Seq<LineText>, row: int) -> Seq<LineText> {
    lines.update(row - 1, lines[row - 1] + lines[row]).remove(row)
}

/// The lines after a delete-before at `(col, row)`: the character before the
/// cursor goes; at the start of a line the line is joined onto the previous
/// one; at the start of the first line nothing changes.
pub open spec fn delete_before_lines(lines: Seq<LineText>, row: int, col: int) -> Seq<LineText> {
    if col > 0 {
        lines.update(row, lines[row].remove(col - 1))
    } else if row > 0 {
        join_lines(lines, row)
    } else {
        lines
    }
}

/// The cursor after a delete-before at `(col, row)`.
pub open spec fn delete_before_cursor(lines: Seq<LineText>, row: int, col: int) -> (int, int) {
    if col > 0 {
        (col - 1, row)
    } else if row > 0 {
        (lines[row - 1].len() as int, row - 1)
    } else {
        (0, 0)
    }
}

/// An ordered sequence of lines of text; it always holds at least one line.
pub struct TextBuffer {
    lines: Vec<Vec<char>>,
}

impl View for TextBuffer {
    type V = Seq<LineText>;

    closed spec fn view(&self) -> Seq<LineText> {
        self.lines@.map_values(|l: Vec<char>| l@)
    }
}

impl TextBuffer {
    /// The buffer holds at least one line.
    pub open spec fn wf(&self) -> bool {
        self@.len() >= 1
    }

    /// A buffer of one empty line.
    pub fn new() -> (r: TextBuffer)
        ensures
            r.wf(),
            r@ == seq![Seq::<char>::empty()],
    {
        let r = TextBuffer { lines: vec![Vec::new()] };
        assert(r@ =~= seq![Seq::<char>::empty()]);
        r
    }

    /// A buffer of the given lines; one empty line where none is given.
    pub fn from_lines(lines: Vec<Vec<char>>) -> (r: TextBuffer)
        ensures
            r.wf(),
            lines@.len() > 0 ==> r@ == lines@.map_values(|l: Vec<char>| l@),
            lines@.len() == 0 ==> r@ == seq![Seq::<char>::empty()],
    {
        if lines.len() == 0 {
            TextBuffer::new()
        } else {
            TextBuffer { lines }
        }
    }

    /// The number of lines.
    pub fn line_count(&self) -> (r: usize)
        ensures
            r == self@.len(),
    {
        self.lines.len()
    }

    /// The lines, each as its characters.
    pub fn lines(&self) -> (r: &Vec<Vec<char>>)
        ensures
            r@.map_values(|l: Vec<char>| l@) == self@,
    {
        &self.lines
    }

    /// The length of line `row`, in characters.
    pub fn line_len(&self, row: usize) -> (r: usize)
        requires
            row < self@.len(),
        ensures
            r == self@[row as int].len(),
    {
        self.lines[row].len()
    }

    /// Inserts `ch` at column `col` of line `row`, shifting the rest of the
    /// line right, and returns the cursor just after it. Fails with
    /// `IndexOutOfRange` where `(col, row)` is not a slot of the buffer.
    pub fn insert_char(&mut self, row: usize, col: usize, ch: char) -> (r: Result<
        Cursor,
        NoteError,
    >)
        requires
            old(self).wf(),
            row < old(self)@.len() ==> old(self)@[row as int].len() < usize::MAX,
        ensures
            final(self).wf(),
            in_bounds(old(self)@, col as int, row as int) ==> {
                &&& r == Ok::<Cursor, NoteError>(Cursor { col: (col + 1) as usize, row })
                &&& final(self)@ == insert_char_lines(old(self)@, row as int, col as int, ch)
            },
            !in_bounds(old(self)@, col as int, row as int) ==> {
                &&& r == Err::<Cursor, NoteError>(NoteError::IndexOutOfRange)
                &&& final(self)@ == old(self)@
            },
    {
        if row >= self.lines.len() || col > self.lines[row].len() {
            return Err(NoteError::IndexOutOfRange);
        }
        self.lines[row].insert(col, ch);
        proof {
            assert(self@ =~= insert_char_lines(old(self)@, row as int, col as int, ch));
        }
        Ok(Cursor { col: col + 1, row })
    }

    /// Splits line `row` at column `col`: the line keeps its first `col`
    /// characters and the rest becomes a new line below it. Returns the
    /// cursor at the start of the new line. Fails with `IndexOutOfRange`
    /// where `(col, row)` is not a slot of the buffer.
    pub fn split_at(&mut self, row: usize, col: usize) -> (r: Result<Cursor, NoteError>)
        requires
            old(self).wf(),
            old(self)@.len() < usize::MAX,
        ensures
            final(self).wf(),
            in_bounds(old(self)@, col as int, row as int) ==> {
                &&& r == Ok::<Cursor, NoteError>(Cursor { col: 0, row: (row + 1) as usize })
                &&& final(self)@ == split_lines(old(self)@, row as int, col as int)
            },
            !in_bounds(old(self)@, col as int, row as int) ==> {
                &&& r == Err::<Cursor, NoteError>(NoteError::IndexOutOfRange)
                &&& final(self)@ == old(self)@
            },
    {
        if row >= self.lines.len() || col > self.lines[row].len() {
            return Err(NoteError::IndexOutOfRange);
        }
        let rest = self.lines[row].split_off(col);
        self.lines.insert(row + 1, rest);
        proof {
            assert(self@ =~= split_lines(old(self)@, row as int, col as int));
        }
        Ok(Cursor { col: 0, row: row + 1 })
    }

    /// Deletes before the cursor `(col, row)`: the character before it where
    /// `col > 0`; at the start of a later line, joins that line onto the end
    /// of the previous one; at the start of the first line, does nothing.
    /// Returns the cursor after the edit. Fails with `IndexOutOfRange` where
    /// `(col, row)` is not a slot of the buffer.
    pub fn delete_before(&mut self, row: usize, col: usize) -> (r: Result<Cursor, NoteError>)
        requires
            old(self).wf(),
        ensures
            final(self).wf(),
            in_bounds(old(self)@, col as int, row as int) ==> {
                &&& r matches Ok(c) && (c.col as int, c.row as int) == delete_before_cursor(
                    old(self)@,
                    row as int,
                    col as int,
                )
                &&& final(self)@ == delete_before_lines(old(self)@, row as int, col as int)
            },
            row == 0 && col == 0 ==> {
                &&& r == Ok::<Cursor, NoteError>(Cursor { col: 0, row: 0 })
                &&& final(self)@ == old(self)@
            },
            !in_bounds(old(self)@, col as int, row as int) ==> {
                &&& r == Err::<Cursor, NoteError>(NoteError::IndexOutOfRange)
                &&& final(self)@ == old(self)@
            },
    {
        if row >= self.lines.len() || col > self.lines[row].len() {
            return Err(NoteError::IndexOutOfRange);
        }
        if col > 0 {
            self.lines[row].remove(col - 1);
            proof {
                assert(self@ =~= delete_before_lines(old(self)@, row as int, col as int));
            }
            Ok(Cursor { col: col - 1, row })
        } else if row > 0 {
            let mut moved = self.lines.remove(row);
            let prev_len = self.lines[row - 1].len();
            self.lines[row - 1].append(&mut moved);
            proof {
                assert(self@ =~= delete_before_lines(old(self)@, row as int, col as int));
            }
            Ok(Cursor { col: prev_len, row: row - 1 })
        } else {
            Ok(Cursor { col: 0, row: 0 })
        }
    }
}

} // verus!
