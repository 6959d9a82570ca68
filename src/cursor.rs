use vstd::prelude::*;

use crate::buffer::{in_bounds, Cursor, LineText, TextBuffer};

verus! {

/// The smaller of two integers.
pub open spec fn min_int(a: int, b: int) -> int {
    if a <= b {
        a
    } else {
        b
    }
}

/// Where the cursor goes on a move left: one column left, or from the start
/// of a line to the end of the previous line.
pub open spec fn left_of(lines: Seq<LineText>, col: int, row: int) -> (int, int) {
    if col > 0 {
        (col - 1, row)
    } else if row > 0 {
        (lines[row - 1].len() as int, row - 1)
    } else {
        (col, row)
    }
}

/// Where the cursor goes on a move right: one column right, or from the end
/// of a line to the start of the next line.
pub open spec fn right_of(lines: Seq<LineText>, col: int, row: int) -> (int, int) {
    if col < lines[row].len() {
        (col + 1, row)
    } else if row + 1 < lines.len() {
        (0, row + 1)
    } else {
        (col, row)
    }
}

/// Where the cursor goes on a move up: one row up, with its column clamped
/// to the length of that row.
pub open spec fn above(lines: Seq<LineText>, col: int, row: int) -> (int, int) {
    if row > 0 {
        (min_int(col, lines[row - 1].len() as int), row - 1)
    } else {
        (col, row)
    }
}

/// Where the cursor goes on a move down: one row down, with its column
/// clamped to the length of that row.
pub open spec fn below(lines: Seq<LineText>, col: int, row: int) -> (int, int) {
    if row + 1 < lines.len() {
        (min_int(col, lines[row + 1].len() as int), row + 1)
    } else {
        (col, row)
    }
}

impl Cursor {
    /// The cursor as a pair `(col, row)` of integers.
    pub open spec fn pos(self) -> (int, int) {
        (self.col as int, self.row as int)
    }

    /// Moves one column left, wrapping to the end of the previous line.
    pub fn move_left(&mut self, buf: &TextBuffer)
        requires
            buf.wf(),
            in_bounds(buf@, old(self).pos().0, old(self).pos().1),
        ensures
            final(self).pos() == left_of(buf@, old(self).col as int, old(self).row as int),
            in_bounds(buf@, final(self).pos().0, final(self).pos().1),
    {
        if self.col > 0 {
            self.col = self.col - 1;
        } else if self.row > 0 {
            self.row = self.row - 1;
            self.col = buf.line_len(self.row);
        }
    }

    /// Moves one column right, wrapping to the start of the next line.
    pub fn move_right(&mut self, buf: &TextBuffer)
        requires
            buf.wf(),
            in_bounds(buf@, old(self).pos().0, old(self).pos().1),
        ensures
            final(self).pos() == right_of(buf@, old(self).col as int, old(self).row as int),
            in_bounds(buf@, final(self).pos().0, final(self).pos().1),
    {
        if self.col < buf.line_len(self.row) {
            self.col = self.col + 1;
        } else if self.row < buf.line_count() - 1 {
            self.row = self.row + 1;
            self.col = 0;
        }
    }

    /// Moves one row up; the column is clamped to the length of that row,
    /// never beyond it.
    pub fn move_up(&mut self, buf: &TextBuffer)
        requires
            buf.wf(),
            in_bounds(buf@, old(self).pos().0, old(self).pos().1),
        ensures
            final(self).pos() == above(buf@, old(self).col as int, old(self).row as int),
            old(self).row > 0 ==> final(self).col == min_int(
                old(self).col as int,
                buf@[old(self).row - 1].len() as int,
            ),
            in_bounds(buf@, final(self).pos().0, final(self).pos().1),
    {
        if self.row > 0 {
            self.row = self.row - 1;
            let len = buf.line_len(self.row);
            if self.col > len {
                self.col = len;
            }
        }
    }

    /// Moves one row down; the column is clamped to the length of that row,
    /// never beyond it.
    pub fn move_down(&mut self, buf: &TextBuffer)
        requires
            buf.wf(),
            in_bounds(buf@, old(self).pos().0, old(self).pos().1),
        ensures
            final(self).pos() == below(buf@, old(self).col as int, old(self).row as int),
            old(self).row + 1 < buf@.len() ==> final(self).col == min_int(
                old(self).col as int,
                buf@[old(self).row + 1].len() as int,
            ),
            in_bounds(buf@, final(self).pos().0, final(self).pos().1),
    {
        if self.row < buf.line_count() - 1 {
            self.row = self.row + 1;
            let len = buf.line_len(self.row);
            if self.col > len {
                self.col = len;
            }
        }
    }
}

} // verus!
