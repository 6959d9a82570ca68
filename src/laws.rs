use vstd::prelude::*;

use crate::buffer::{
    delete_before_cursor, delete_before_lines, in_bounds, insert_char_lines, split_lines, LineText,
};
use crate::editor::{
    highlight_ok, is_picker_down, is_picker_up, key_step, state_wf, ActionModel, AppModel, KeyCode,
    KeyEvent, ModeModel,
};

verus! {

/// Splitting a line and then deleting before the start of the new line
/// gives back the buffer as it was, with the cursor where the split was.
pub proof fn split_then_delete_before_restores(lines: Seq<LineText>, row: int, col: int)
    requires
        in_bounds(lines, col, row),
    ensures
        delete_before_lines(split_lines(lines, row, col), row + 1, 0) == lines,
        delete_before_cursor(split_lines(lines, row, col), row + 1, 0) == (col, row),
{
    let split = split_lines(lines, row, col);
    assert(split[row] =~= lines[row].subrange(0, col));
    assert(split[row] + split[row + 1] =~= lines[row]);
    assert(delete_before_lines(split, row + 1, 0) =~= lines);
}

/// Deleting before the start of the first line changes nothing and leaves
/// the cursor there.
pub proof fn delete_before_at_start_is_noop(lines: Seq<LineText>)
    requires
        lines.len() >= 1,
    ensures
        delete_before_lines(lines, 0, 0) == lines,
        delete_before_cursor(lines, 0, 0) == (0int, 0int),
{
}

/// Inserting a character and then deleting before the cursor that the
/// insertion left gives back the buffer as it was, with the cursor where
/// the insertion was.
pub proof fn insert_then_delete_before_restores(
    lines: Seq<LineText>,
    row: int,
    col: int,
    ch: char,
)
    requires
        in_bounds(lines, col, row),
    ensures
        delete_before_lines(insert_char_lines(lines, row, col, ch), row, col + 1) == lines,
        delete_before_cursor(insert_char_lines(lines, row, col, ch), row, col + 1) == (col, row),
{
    let ins = insert_char_lines(lines, row, col, ch);
    assert(ins[row].remove(col) =~= lines[row]);
    assert(delete_before_lines(ins, row, col + 1) =~= lines);
}

/// Deleting before the start of any line but the first joins that line onto
/// the end of the previous one: the buffer loses one line, the previous line
/// becomes the two joined, the lines after move up by one, and the cursor
/// goes to where the join is.
pub proof fn delete_before_at_line_start_joins(lines: Seq<LineText>, row: int)
    requires
        0 < row < lines.len(),
    ensures
        delete_before_lines(lines, row, 0).len() == lines.len() - 1,
        delete_before_lines(lines, row, 0)[row - 1] == lines[row - 1] + lines[row],
        forall|i: int|
            0 <= i < row - 1 ==> #[trigger] delete_before_lines(lines, row, 0)[i] == lines[i],
        forall|i: int|
            row <= i < lines.len() - 1 ==> #[trigger] delete_before_lines(lines, row, 0)[i]
                == lines[i + 1],
        delete_before_cursor(lines, row, 0) == (lines[row - 1].len() as int, row - 1),
{
}

/// Enter in CreateNote mode with no name typed asks nothing of the store and
/// changes nothing: the editor stays in CreateNote mode.
pub proof fn create_with_empty_name_does_nothing(s: AppModel, k: KeyEvent)
    requires
        s.mode == ModeModel::CreateNote(Seq::empty()),
        k.code == KeyCode::Enter,
    ensures
        key_step(s, k) == (s, ActionModel::Nothing),
{
}

/// The state after the keys `keys` are pressed one after another.
pub open spec fn after_keys(s: AppModel, keys: Seq<KeyEvent>) -> AppModel
    decreases keys.len(),
{
    if keys.len() == 0 {
        s
    } else {
        after_keys(key_step(s, keys[0]).0, keys.drop_first())
    }
}

/// In SelectFile mode, with the highlighted index within the listing, any
/// run of keys that move the highlight (Up and Down, or `w` and `s`) keeps
/// the editor in SelectFile mode with the index within the listing: never
/// below 0, never past its last entry.
pub proof fn up_down_keep_highlight_in_listing(s: AppModel, keys: Seq<KeyEvent>)
    requires
        state_wf(s),
        s.mode matches ModeModel::SelectFile(h) && highlight_ok(h, s.files.len() as int),
        forall|i: int|
            0 <= i < keys.len() ==> is_picker_up(#[trigger] keys[i].code) || is_picker_down(
                keys[i].code,
            ),
    ensures
        after_keys(s, keys).mode matches ModeModel::SelectFile(h) && highlight_ok(
            h,
            s.files.len() as int,
        ),
        state_wf(after_keys(s, keys)),
        after_keys(s, keys).files == s.files,
    decreases keys.len(),
{
    if keys.len() > 0 {
        let next = key_step(s, keys[0]).0;
        let rest = keys.drop_first();
        assert forall|i: int| 0 <= i < rest.len() implies is_picker_up(#[trigger] rest[i].code)
            || is_picker_down(rest[i].code) by {
            assert(rest[i] == keys[i + 1]);
        }
        up_down_keep_highlight_in_listing(next, rest);
    }
}

} // verus!
