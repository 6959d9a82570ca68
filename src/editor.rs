use vstd::prelude::*;

use crate::buffer::{
    delete_before_cursor, delete_before_lines, in_bounds, insert_char_lines, split_lines, Cursor,
    LineText, TextBuffer,
};
use crate::cursor::{above, below, left_of, right_of};
use crate::error::NoteError;
use crate::note_text::{line_views, lines_of_text, note_text, text_lines, text_of_lines};

verus! {

/// A key, as the editor tells keys apart.
#[derive(Clone, Copy, Debug, PartialEq, Eq, Structural)]
pub enum KeyCode {
    Char(char),
    Enter,
    Backspace,
    Esc,
    Left,
    Right,
    Up,
    Down,
    /// Any other key; the editor ignores it.
    Other,
}

/// One key press: the key, and whether Control was held.
#[derive(Clone, Copy, Debug, PartialEq, Eq, Structural)]
pub struct KeyEvent {
    pub code: KeyCode,
    pub ctrl: bool,
}

/// What the keys currently act on. The help overlay is a separate flag of
/// `App`: it is drawn over any mode and does not take keys for itself.
#[derive(Clone, Debug)]
pub enum Mode {
    /// Keys edit the buffer and move the cursor.
    Normal,
    /// Keys type the name of a note to create.
    CreateNote { pending_name: Vec<char> },
    /// Up and Down (or `w` and `s`) pick one of the listed notes to open.
    SelectFile { highlighted: usize },
}

/// The mathematical value of a `Mode`.
pub enum ModeModel {
    Normal,
    CreateNote(Seq<char>),
    SelectFile(int),
}

impl View for Mode {
    type V = ModeModel;

    open spec fn view(&self) -> ModeModel {
        match self {
            Mode::Normal => ModeModel::Normal,
            Mode::CreateNote { pending_name } => ModeModel::CreateNote(pending_name@),
            Mode::SelectFile { highlighted } => ModeModel::SelectFile(*highlighted as int),
        }
    }
}

/// Work that a key press asks of the note store; the caller performs it.
#[derive(Clone, Debug)]
pub enum Action {
    Nothing,
    /// Write `content` to the note `name`.
    Save { name: Vec<char>, content: Vec<char> },
    /// Create the empty note `name`, then report with `App::finish_create`.
    Create { name: Vec<char> },
    /// Read the note `name`, then report with `App::finish_open`.
    Open { name: Vec<char> },
    /// List the notes, then hand the listing to `App::set_files`.
    ListNotes,
}

/// The mathematical value of an `Action`.
pub enum ActionModel {
    Nothing,
    Save(Seq<char>, Seq<char>),
    Create(Seq<char>),
    Open(Seq<char>),
    ListNotes,
}

impl View for Action {
    type V = ActionModel;

    open spec fn view(&self) -> ActionModel {
        match self {
            Action::Nothing => ActionModel::Nothing,
            Action::Save { name, content } => ActionModel::Save(name@, content@),
            Action::Create { name } => ActionModel::Create(name@),
            Action::Open { name } => ActionModel::Open(name@),
            Action::ListNotes => ActionModel::ListNotes,
        }
    }
}

/// The mathematical value of the editor's whole state.
pub struct AppModel {
    pub lines: Seq<LineText>,
    /// The cursor as `(col, row)`.
    pub cursor: (int, int),
    pub mode: ModeModel,
    /// The listing of notes, as the store last gave it.
    pub files: Seq<Seq<char>>,
    /// The note that the buffer is bound to, if any.
    pub current_file: Option<Seq<char>>,
    pub explorer_open: bool,
    pub help_open: bool,
    pub exit: bool,
}

/// Whether `h` may be the highlighted index of a listing of `n` notes: an
/// index of the listing, or 0 where the listing is empty.
pub open spec fn highlight_ok(h: int, n: int) -> bool {
    h == 0 || 0 <= h < n
}

/// The invariant of the editor's state: at least one line, and the cursor on
/// a slot of the buffer.
pub open spec fn state_wf(s: AppModel) -> bool {
    &&& s.lines.len() >= 1
    &&& in_bounds(s.lines, s.cursor.0, s.cursor.1)
}

/// Room for one more line and one more character on the cursor's line.
pub open spec fn has_room_for_edit(s: AppModel) -> bool {
    &&& s.lines.len() < usize::MAX
    &&& s.lines[s.cursor.1].len() < usize::MAX
}

/// A key in CreateNote mode, with `name` typed so far.
pub open spec fn create_note_key(s: AppModel, name: Seq<char>, k: KeyEvent) -> (
    AppModel,
    ActionModel,
) {
    match k.code {
        KeyCode::Enter => if name.len() > 0 {
            (s, ActionModel::Create(name))
        } else {
            (s, ActionModel::Nothing)
        },
        KeyCode::Backspace => {
            let shorter = if name.len() > 0 {
                name.drop_last()
            } else {
                name
            };
            (AppModel { mode: ModeModel::CreateNote(shorter), ..s }, ActionModel::Nothing)
        },
        KeyCode::Esc => (AppModel { mode: ModeModel::Normal, ..s }, ActionModel::Nothing),
        KeyCode::Char(c) => (
            AppModel { mode: ModeModel::CreateNote(name.push(c)), ..s },
            ActionModel::Nothing,
        ),
        _ => (s, ActionModel::Nothing),
    }
}

/// Whether `code` moves the highlight up in SelectFile mode: Up, or `w`.
pub open spec fn is_picker_up(code: KeyCode) -> bool {
    code == KeyCode::Up || code == KeyCode::Char('w')
}

/// Whether `code` moves the highlight down in SelectFile mode: Down, or `s`.
pub open spec fn is_picker_down(code: KeyCode) -> bool {
    code == KeyCode::Down || code == KeyCode::Char('s')
}

/// A key in SelectFile mode, with index `h` highlighted. Enter opens the
/// highlighted note where there is one; Up and Down move the highlight and
/// stop at the ends of the listing.
pub open spec fn select_file_key(s: AppModel, h: int, k: KeyEvent) -> (AppModel, ActionModel) {
    if k.code == KeyCode::Enter {
        if 0 <= h < s.files.len() {
            (s, ActionModel::Open(s.files[h]))
        } else {
            (s, ActionModel::Nothing)
        }
    } else if k.code == KeyCode::Esc {
        (AppModel { mode: ModeModel::Normal, ..s }, ActionModel::Nothing)
    } else if is_picker_up(k.code) {
        let up = if h > 0 {
            h - 1
        } else {
            h
        };
        (AppModel { mode: ModeModel::SelectFile(up), ..s }, ActionModel::Nothing)
    } else if is_picker_down(k.code) {
        let down = if h + 1 < s.files.len() {
            h + 1
        } else {
            h
        };
        (AppModel { mode: ModeModel::SelectFile(down), ..s }, ActionModel::Nothing)
    } else {
        (s, ActionModel::Nothing)
    }
}

/// A key that edits the buffer or moves the cursor, in Normal mode.
pub open spec fn edit_key(s: AppModel, code: KeyCode) -> AppModel {
    let (col, row) = s.cursor;
    match code {
        KeyCode::Left => AppModel { cursor: left_of(s.lines, col, row), ..s },
        KeyCode::Right => AppModel { cursor: right_of(s.lines, col, row), ..s },
        KeyCode::Up => AppModel { cursor: above(s.lines, col, row), ..s },
        KeyCode::Down => AppModel { cursor: below(s.lines, col, row), ..s },
        KeyCode::Backspace => AppModel {
            lines: delete_before_lines(s.lines, row, col),
            cursor: delete_before_cursor(s.lines, row, col),
            ..s
        },
        KeyCode::Enter => AppModel { lines: split_lines(s.lines, row, col), cursor: (0, row + 1), ..s },
        KeyCode::Char(c) => AppModel {
            lines: insert_char_lines(s.lines, row, col, c),
            cursor: (col + 1, row),
            ..s
        },
        _ => s,
    }
}

/// Whether `k` is Control held with the letter `c`.
pub open spec fn is_ctrl(k: KeyEvent, c: char) -> bool {
    k.ctrl && k.code == KeyCode::Char(c)
}

/// A key in Normal mode: the Control shortcuts first, then editing.
pub open spec fn normal_key(s: AppModel, k: KeyEvent) -> (AppModel, ActionModel) {
    if is_ctrl(k, 's') {
        match s.current_file {
            Some(name) => (s, ActionModel::Save(name, text_of_lines(s.lines))),
            None => (s, ActionModel::Nothing),
        }
    } else if is_ctrl(k, 'e') {
        (AppModel { explorer_open: !s.explorer_open, ..s }, ActionModel::Nothing)
    } else if is_ctrl(k, 'q') {
        (AppModel { exit: true, ..s }, ActionModel::Nothing)
    } else if is_ctrl(k, 'n') {
        (AppModel { mode: ModeModel::CreateNote(Seq::empty()), ..s }, ActionModel::Nothing)
    } else if is_ctrl(k, 'o') {
        (AppModel { mode: ModeModel::SelectFile(0), ..s }, ActionModel::ListNotes)
    } else if is_ctrl(k, 'h') {
        (AppModel { help_open: !s.help_open, ..s }, ActionModel::Nothing)
    } else {
        (edit_key(s, k.code), ActionModel::Nothing)
    }
}

/// The state and the store work after one key press: the current mode's
/// handler where a mode other than Normal is active, else Normal's.
pub open spec fn key_step(s: AppModel, k: KeyEvent) -> (AppModel, ActionModel) {
    match s.mode {
        ModeModel::CreateNote(name) => create_note_key(s, name, k),
        ModeModel::SelectFile(h) => select_file_key(s, h, k),
        ModeModel::Normal => normal_key(s, k),
    }
}

/// The name of the note that a new editor is bound to.
pub open spec fn default_note_name() -> Seq<char> {
    seq!['d', 'e', 'f', 'a', 'u', 'l', 't', '.', 't', 'x', 't']
}

/// The state of a new editor: one empty line, the cursor at its start,
/// Normal mode, no listing yet, bound to the default note, the explorer
/// shown and the help hidden.
pub open spec fn initial_state() -> AppModel {
    AppModel {
        lines: seq![Seq::empty()],
        cursor: (0, 0),
        mode: ModeModel::Normal,
        files: Seq::empty(),
        current_file: Some(default_note_name()),
        explorer_open: true,
        help_open: false,
        exit: false,
    }
}

/// The state once the note `name` was created: the buffer is bound to it
/// and emptied, and the editor is back in Normal mode.
pub open spec fn created(s: AppModel, name: Seq<char>) -> AppModel {
    AppModel {
        lines: seq![Seq::empty()],
        cursor: (0, 0),
        mode: ModeModel::Normal,
        current_file: Some(name),
        ..s
    }
}

/// The state once the note `name` was read as `content`: the buffer holds
/// its lines and is bound to it, the cursor is at the start, and the editor
/// is back in Normal mode.
pub open spec fn opened(s: AppModel, name: Seq<char>, content: Seq<char>) -> AppModel {
    AppModel {
        lines: lines_of_text(content),
        cursor: (0, 0),
        mode: ModeModel::Normal,
        current_file: Some(name),
        ..s
    }
}

/// The state once the store listed `files`: the listing is replaced and
/// nothing else changes, the highlighted index included.
pub open spec fn listed(s: AppModel, files: Seq<Seq<char>>) -> AppModel {
    AppModel { files, ..s }
}

/// The screen offset of the editor's text from the terminal's left edge:
/// past the explorer panel where it is shown, else past the border.
pub open spec fn text_left(explorer_open: bool) -> int {
    if explorer_open {
        35
    } else {
        1
    }
}

/// `x` where it fits in a `u16`, else the largest `u16`.
pub open spec fn saturate_u16(x: int) -> int {
    if x <= u16::MAX {
        x
    } else {
        u16::MAX as int
    }
}

/// A copy of a sequence of characters.
fn copy_chars(v: &Vec<char>) -> (r: Vec<char>)
    ensures
        r@ == v@,
{
    let mut r: Vec<char> = Vec::new();
    let mut i: usize = 0;
    while i < v.len()
        invariant
            i <= v@.len(),
            r@ == v@.subrange(0, i as int),
        decreases v@.len() - i,
    {
        r.push(v[i]);
        proof {
            assert(v@.subrange(0, i + 1) =~= v@.subrange(0, i as int).push(v@[i as int]));
        }
        i = i + 1;
    }
    proof {
        assert(v@.subrange(0, i as int) =~= v@);
    }
    r
}

/// The state of the note editor: the buffer, the cursor, the mode, the
/// listing of notes and the flags of the view.
pub struct App {
    buffer: TextBuffer,
    cursor: Cursor,
    mode: Mode,
    files: Vec<Vec<char>>,
    current_file: Option<Vec<char>>,
    explorer_open: bool,
    help_open: bool,
    exit: bool,
}

impl View for App {
    type V = AppModel;

    closed spec fn view(&self) -> AppModel {
        AppModel {
            lines: self.buffer@,
            cursor: self.cursor.pos(),
            mode: self.mode@,
            files: line_views(self.files@),
            current_file: match self.current_file {
                Some(name) => Some(name@),
                None => None,
            },
            explorer_open: self.explorer_open,
            help_open: self.help_open,
            exit: self.exit,
        }
    }
}

impl App {
    /// The state's invariant; see `state_wf`.
    pub open spec fn wf(&self) -> bool {
        state_wf(self@)
    }

    /// Whether the buffer has room for the largest edit one key makes.
    pub fn has_room(&self) -> (r: bool)
        requires
            self.wf(),
        ensures
            r == has_room_for_edit(self@),
    {
        self.buffer.line_count() < usize::MAX && self.buffer.line_len(self.cursor.row)
            < usize::MAX
    }

    /// Handles one key press and returns the store work that it asks for.
    /// The new state and that work are `key_step` of the old state and the key.
    pub fn handle_key_event(&mut self, key: KeyEvent) -> (r: Action)
        requires
            old(self).wf(),
            has_room_for_edit(old(self)@),
        ensures
            final(self).wf(),
            (final(self)@, r@) == key_step(old(self)@, key),
    {
        match &self.mode {
            Mode::CreateNote { .. } => {
                return self.on_create_note_key(key);
            },
            Mode::SelectFile { .. } => {
                return self.on_select_file_key(key);
            },
            Mode::Normal => {},
        }
        if key.ctrl {
            match key.code {
                KeyCode::Char('s') => {
                    return match &self.current_file {
                        Some(name) => Action::Save {
                            name: copy_chars(name),
                            content: note_text(self.buffer.lines()),
                        },
                        None => Action::Nothing,
                    };
                },
                KeyCode::Char('e') => {
                    self.explorer_open = !self.explorer_open;
                    return Action::Nothing;
                },
                KeyCode::Char('q') => {
                    self.exit = true;
                    return Action::Nothing;
                },
                KeyCode::Char('n') => {
                    self.mode = Mode::CreateNote { pending_name: Vec::new() };
                    return Action::Nothing;
                },
                KeyCode::Char('o') => {
                    self.mode = Mode::SelectFile { highlighted: 0 };
                    return Action::ListNotes;
                },
                KeyCode::Char('h') => {
                    self.help_open = !self.help_open;
                    return Action::Nothing;
                },
                _ => {},
            }
        }
        self.on_edit_key(key.code);
        Action::Nothing
    }

    /// A key in CreateNote mode.
    fn on_create_note_key(&mut self, key: KeyEvent) -> (r: Action)
        requires
            old(self).wf(),
            old(self)@.mode is CreateNote,
        ensures
            final(self).wf(),
            (final(self)@, r@) == key_step(old(self)@, key),
    {
        match key.code {
            KeyCode::Enter => {
                if let Mode::CreateNote { pending_name } = &self.mode {
                    if pending_name.len() > 0 {
                        return Action::Create { name: copy_chars(pending_name) };
                    }
                }
                Action::Nothing
            },
            KeyCode::Backspace => {
                if let Mode::CreateNote { pending_name } = &mut self.mode {
                    pending_name.pop();
                }
                Action::Nothing
            },
            KeyCode::Esc => {
                self.mode = Mode::Normal;
                Action::Nothing
            },
            KeyCode::Char(c) => {
                if let Mode::CreateNote { pending_name } = &mut self.mode {
                    pending_name.push(c);
                }
                Action::Nothing
            },
            _ => Action::Nothing,
        }
    }

    /// A key in SelectFile mode.
    fn on_select_file_key(&mut self, key: KeyEvent) -> (r: Action)
        requires
            old(self).wf(),
            old(self)@.mode is SelectFile,
        ensures
            final(self).wf(),
            (final(self)@, r@) == key_step(old(self)@, key),
    {
        let h = match &self.mode {
            Mode::SelectFile { highlighted } => *highlighted,
            _ => 0,
        };
        let code = key.code;
        if code == KeyCode::Enter {
            if h < self.files.len() {
                Action::Open { name: copy_chars(&self.files[h]) }
            } else {
                Action::Nothing
            }
        } else if code == KeyCode::Esc {
            self.mode = Mode::Normal;
            Action::Nothing
        } else if code == KeyCode::Up || code == KeyCode::Char('w') {
            if h > 0 {
                self.mode = Mode::SelectFile { highlighted: h - 1 };
            }
            Action::Nothing
        } else if code == KeyCode::Down || code == KeyCode::Char('s') {
            if h < self.files.len() && h + 1 < self.files.len() {
                self.mode = Mode::SelectFile { highlighted: h + 1 };
            }
            Action::Nothing
        } else {
            Action::Nothing
        }
    }

    /// A key that edits the buffer or moves the cursor, in Normal mode.
    fn on_edit_key(&mut self, code: KeyCode)
        requires
            old(self).wf(),
            has_room_for_edit(old(self)@),
        ensures
            final(self).wf(),
            final(self)@ == edit_key(old(self)@, code),
    {
        match code {
            KeyCode::Left => self.cursor.move_left(&self.buffer),
            KeyCode::Right => self.cursor.move_right(&self.buffer),
            KeyCode::Up => self.cursor.move_up(&self.buffer),
            KeyCode::Down => self.cursor.move_down(&self.buffer),
            KeyCode::Backspace => {
                if let Ok(c) = self.buffer.delete_before(self.cursor.row, self.cursor.col) {
                    self.cursor = c;
                }
            },
            KeyCode::Enter => {
                if let Ok(c) = self.buffer.split_at(self.cursor.row, self.cursor.col) {
                    self.cursor = c;
                }
            },
            KeyCode::Char(ch) => {
                if let Ok(c) = self.buffer.insert_char(self.cursor.row, self.cursor.col, ch) {
                    self.cursor = c;
                }
            },
            _ => {},
        }
    }

    /// Reports how creating the note `name` went. On success the buffer is
    /// bound to the new note and emptied, and the editor returns to Normal
    /// mode; on failure nothing changes.
    pub fn finish_create(&mut self, name: Vec<char>, result: Result<(), NoteError>)
        requires
            old(self).wf(),
        ensures
            final(self).wf(),
            result is Ok ==> final(self)@ == created(old(self)@, name@),
            result is Err ==> final(self)@ == old(self)@,
    {
        if result.is_ok() {
            self.buffer = TextBuffer::new();
            self.cursor = Cursor { col: 0, row: 0 };
            self.mode = Mode::Normal;
            self.current_file = Some(name);
        }
    }

    /// Reports how reading the note `name` went. On success the buffer holds
    /// the note's lines and is bound to it, the cursor goes to the start and
    /// the editor returns to Normal mode; on failure nothing changes.
    pub fn finish_open(&mut self, name: Vec<char>, result: Result<Vec<char>, NoteError>)
        requires
            old(self).wf(),
        ensures
            final(self).wf(),
            result matches Ok(content) ==> final(self)@ == opened(old(self)@, name@, content@),
            result is Err ==> final(self)@ == old(self)@,
    {
        if let Ok(content) = result {
            self.buffer = TextBuffer::from_lines(text_lines(&content));
            self.cursor = Cursor { col: 0, row: 0 };
            self.mode = Mode::Normal;
            self.current_file = Some(name);
        }
    }

    /// Replaces the listing of notes with `files`, as the store gave it.
    /// Nothing else changes: the highlighted index stays as it was, and where
    /// it is past the new listing's end, Enter opens nothing.
    pub fn set_files(&mut self, files: Vec<Vec<char>>)
        requires
            old(self).wf(),
        ensures
            final(self).wf(),
            final(self)@ == listed(old(self)@, line_views(files@)),
    {
        self.files = files;
    }

    /// The lines of the buffer.
    pub fn lines(&self) -> (r: &Vec<Vec<char>>)
        ensures
            line_views(r@) == self@.lines,
    {
        self.buffer.lines()
    }

    /// The cursor.
    pub fn cursor(&self) -> (r: Cursor)
        ensures
            r.pos() == self@.cursor,
    {
        self.cursor
    }

    /// The current mode.
    pub fn mode(&self) -> (r: &Mode)
        ensures
            r@ == self@.mode,
    {
        &self.mode
    }

    /// The listing of notes.
    pub fn files(&self) -> (r: &Vec<Vec<char>>)
        ensures
            line_views(r@) == self@.files,
    {
        &self.files
    }

    /// The note that the buffer is bound to, if any.
    pub fn current_file(&self) -> (r: &Option<Vec<char>>)
        ensures
            r is Some <==> self@.current_file is Some,
            r matches Some(name) ==> self@.current_file == Some(name@),
    {
        &self.current_file
    }

    /// Whether the explorer panel is shown.
    pub fn explorer_open(&self) -> (r: bool)
        ensures
            r == self@.explorer_open,
    {
        self.explorer_open
    }

    /// Whether the help overlay is shown.
    pub fn help_open(&self) -> (r: bool)
        ensures
            r == self@.help_open,
    {
        self.help_open
    }

    /// Whether an exit was asked for.
    pub fn should_exit(&self) -> (r: bool)
        ensures
            r == self@.exit,
    {
        self.exit
    }

    /// The terminal cell of the cursor, `(x, y)`: the text starts right of
    /// the explorer panel where it is shown and below the top border. A
    /// coordinate beyond the terminal's range stops at its largest value.
    pub fn cursor_cell(&self) -> (r: (u16, u16))
        ensures
            r.0 as int == saturate_u16(self@.cursor.0 + text_left(self@.explorer_open)),
            r.1 as int == saturate_u16(self@.cursor.1 + 1),
    {
        let left: usize = if self.explorer_open {
            35
        } else {
            1
        };
        let x: u16 = if self.cursor.col <= (u16::MAX as usize) - left {
            (self.cursor.col + left) as u16
        } else {
            u16::MAX
        };
        let y: u16 = if self.cursor.row < u16::MAX as usize {
            (self.cursor.row + 1) as u16
        } else {
            u16::MAX
        };
        (x, y)
    }
}

impl Default for App {
    /// A new editor; see `initial_state`.
    fn default() -> (r: App)
        ensures
            r.wf(),
            r@ == initial_state(),
    {
        let r = App {
            buffer: TextBuffer::new(),
            cursor: Cursor { col: 0, row: 0 },
            mode: Mode::Normal,
            files: Vec::new(),
            current_file: Some(vec!['d', 'e', 'f', 'a', 'u', 'l', 't', '.', 't', 'x', 't']),
            explorer_open: true,
            help_open: false,
            exit: false,
        };
        proof {
            assert(line_views(r.files@) =~= Seq::<Seq<char>>::empty());
            assert(r@.current_file == Some(default_note_name()));
        }
        r
    }
}

} // verus!
