//! The modal input resolver: turns a key event, given the focused panel and
//! the resolver's own mode and pending key, into at most one command.

use vstd::prelude::*;
use crate::command::{Command, CursorMove, Mode, Scrolling};
use crate::focus::Focus;
use crate::keys::{KeyCode, KeyEvent, KeyEventKind};

verus! {

/// The motion that a plain key stands for in the editor, if any.
pub open spec fn motion_of(c: char) -> Option<CursorMove> {
    if c == 'h' {
        Some(CursorMove::Back)
    } else if c == 'j' {
        Some(CursorMove::Down)
    } else if c == 'k' {
        Some(CursorMove::Up)
    } else if c == 'l' {
        Some(CursorMove::Forward)
    } else if c == 'w' {
        Some(CursorMove::WordForward)
    } else if c == 'e' {
        Some(CursorMove::WordEnd)
    } else if c == 'b' {
        Some(CursorMove::WordBack)
    } else if c == '^' {
        Some(CursorMove::Head)
    } else if c == '$' {
        Some(CursorMove::End)
    } else if c == 'G' {
        Some(CursorMove::Bottom)
    } else {
        None
    }
}

/// `y`, `d` and `c`: the keys that start an operator.
pub open spec fn is_operator(c: char) -> bool {
    c == 'y' || c == 'd' || c == 'c'
}

/// The command for an operator pressed twice: the whole-line variant.
pub open spec fn whole_line_command(op: char) -> Command {
    if op == 'y' {
        Command::EditorCopySelection
    } else {
        Command::EditorDeleteLineByEnd
    }
}

/// The mode after an operator pressed twice: a change goes on in Insert.
pub open spec fn whole_line_mode(op: char) -> Mode {
    if op == 'c' {
        Mode::Insert
    } else {
        Mode::Normal
    }
}

/// A key that arrives while `pending` is buffered: completes `gg`, the
/// whole-line operator or operator-plus-motion, or else is discarded.
pub open spec fn pending_step(mode: Mode, pending: char, code: KeyCode, ctrl: bool) -> (Mode, Command) {
    if pending == 'g' && code == KeyCode::Char('g') && !ctrl {
        (mode, Command::EditorMoveCursor(CursorMove::Top))
    } else if is_operator(pending) {
        match code {
            KeyCode::Char(c) => if c == pending && !ctrl {
                (whole_line_mode(pending), whole_line_command(pending))
            } else if !ctrl && motion_of(c) is Some {
                (Mode::Normal, Command::EditorPerformPendingOperator)
            } else {
                (Mode::Normal, Command::NoOp)
            },
            _ => (Mode::Normal, Command::NoOp),
        }
    } else {
        (mode, Command::NoOp)
    }
}

/// A key in Normal mode with nothing buffered: (new mode, new pending key, command).
pub open spec fn normal_step(code: KeyCode, ctrl: bool) -> (Mode, Option<char>, Command) {
    let stay = |cmd: Command| (Mode::Normal, None::<char>, cmd);
    let insert = |cmd: Command| (Mode::Insert, None::<char>, cmd);
    match code {
        KeyCode::Char(c) => if c == 'e' && ctrl {
            stay(Command::EditorScrollRelative(1i16, 0i16))
        } else if c == 'b' && ctrl {
            stay(Command::EditorScroll(Scrolling::PageUp))
        } else if motion_of(c) is Some {
            stay(Command::EditorMoveCursor(motion_of(c)->0))
        } else if c == 'D' {
            stay(Command::EditorDeleteLineByEnd)
        } else if c == 'C' {
            insert(Command::EditorDeleteLineByEnd)
        } else if c == 'p' {
            stay(Command::EditorPaste)
        } else if c == 'u' && !ctrl {
            stay(Command::EditorUndo)
        } else if c == 'r' && ctrl {
            stay(Command::EditorRedo)
        } else if c == 'x' {
            stay(Command::EditorDeleteNextChar)
        } else if c == 'i' {
            insert(Command::EditorSetMode(Mode::Insert))
        } else if c == 'a' {
            insert(Command::EditorMoveCursor(CursorMove::Forward))
        } else if c == 'A' {
            insert(Command::EditorMoveCursor(CursorMove::End))
        } else if c == 'o' || c == 'O' {
            insert(Command::EditorInputEnter)
        } else if c == 'I' {
            insert(Command::EditorMoveCursor(CursorMove::Head))
        } else if c == 'y' && ctrl {
            stay(Command::EditorScrollRelative(-1i16, 0i16))
        } else if c == 'd' && ctrl {
            stay(Command::EditorScroll(Scrolling::HalfPageDown))
        } else if c == 'u' && ctrl {
            stay(Command::EditorScroll(Scrolling::HalfPageUp))
        } else if c == 'f' && ctrl {
            stay(Command::EditorScroll(Scrolling::PageDown))
        } else if c == 'v' || c == 'V' {
            (Mode::Visual, None, Command::EditorStartSelection)
        } else if c == 'g' && !ctrl {
            (Mode::Normal, Some('g'), Command::NoOp)
        } else if is_operator(c) {
            (Mode::Operator(c), Some(c), Command::EditorSetMode(Mode::Operator(c)))
        } else {
            stay(Command::NoOp)
        },
        _ => stay(Command::NoOp),
    }
}

/// A key in Insert mode: (new mode, command).
pub open spec fn insert_step(code: KeyCode, ctrl: bool) -> (Mode, Command) {
    match code {
        KeyCode::Esc => (Mode::Normal, Command::EditorSetMode(Mode::Normal)),
        KeyCode::Char(c) => if c == 'c' && ctrl {
            (Mode::Normal, Command::EditorSetMode(Mode::Normal))
        } else {
            (Mode::Insert, Command::EditorInputChar(c))
        },
        KeyCode::Backspace => (Mode::Insert, Command::EditorInputBackspace),
        KeyCode::Delete => (Mode::Insert, Command::EditorInputDelete),
        KeyCode::Enter => (Mode::Insert, Command::EditorInputEnter),
        KeyCode::Left => (Mode::Insert, Command::EditorMoveCursor(CursorMove::Back)),
        KeyCode::Right => (Mode::Insert, Command::EditorMoveCursor(CursorMove::Forward)),
        KeyCode::Up => (Mode::Insert, Command::EditorMoveCursor(CursorMove::Up)),
        KeyCode::Down => (Mode::Insert, Command::EditorMoveCursor(CursorMove::Down)),
        KeyCode::Home => (Mode::Insert, Command::EditorMoveCursor(CursorMove::Head)),
        KeyCode::End => (Mode::Insert, Command::EditorMoveCursor(CursorMove::End)),
        KeyCode::PageUp => (Mode::Insert, Command::EditorScroll(Scrolling::PageUp)),
        KeyCode::PageDown => (Mode::Insert, Command::EditorScroll(Scrolling::PageDown)),
        _ => (Mode::Insert, Command::NoOp),
    }
}

/// A key in Visual mode with nothing buffered: (new mode, new pending key, command).
pub open spec fn visual_step(code: KeyCode, ctrl: bool) -> (Mode, Option<char>, Command) {
    match code {
        KeyCode::Esc => (Mode::Normal, None, Command::EditorCancelSelection),
        KeyCode::Char(c) => if motion_of(c) is Some {
            (Mode::Visual, None, Command::EditorMoveCursor(motion_of(c)->0))
        } else if c == 'g' && !ctrl {
            (Mode::Visual, Some('g'), Command::NoOp)
        } else if c == 'y' {
            (Mode::Normal, None, Command::EditorCopySelection)
        } else if c == 'd' {
            (Mode::Normal, None, Command::EditorCutSelection)
        } else if c == 'c' {
            (Mode::Insert, None, Command::EditorCutSelection)
        } else if c == 'v' {
            (Mode::Normal, None, Command::EditorCancelSelection)
        } else {
            (Mode::Visual, None, Command::NoOp)
        },
        _ => (Mode::Visual, None, Command::NoOp),
    }
}

/// One key in the editor: from (mode, pending key) to (mode, pending key, command).
pub open spec fn editor_step(mode: Mode, pending: Option<char>, code: KeyCode, ctrl: bool) -> (Mode, Option<char>, Command) {
    match pending {
        Some(p) => {
            let (m, cmd) = pending_step(mode, p, code, ctrl);
            (m, None, cmd)
        },
        None => match mode {
            Mode::Normal => normal_step(code, ctrl),
            Mode::Insert => {
                let (m, cmd) = insert_step(code, ctrl);
                (m, None, cmd)
            },
            Mode::Visual => visual_step(code, ctrl),
            Mode::Operator(_) => (Mode::Normal, None, Command::NoOp),
        },
    }
}

/// The command for a key when the result table has focus; `tab_index` 2 is
/// the history tab, where up and down move through the history.
pub open spec fn data_table_command(code: KeyCode, tab_index: usize) -> Option<Command> {
    match code {
        KeyCode::Down => Some(if tab_index == 2 { Command::DataTableNextHistoryRow } else { Command::DataTableNextRow }),
        KeyCode::Up => Some(if tab_index == 2 { Command::DataTablePreviousHistoryRow } else { Command::DataTablePreviousRow }),
        KeyCode::PageDown => Some(Command::DataTableNextPage),
        KeyCode::PageUp => Some(Command::DataTablePreviousPage),
        KeyCode::Right => Some(Command::DataTableNextColumn),
        KeyCode::Left => Some(Command::DataTablePreviousColumn),
        KeyCode::Char(c) => if c == '[' {
            Some(Command::DataTablePreviousTab)
        } else if c == ']' {
            Some(Command::DataTableNextTab)
        } else if c == 'j' {
            Some(if tab_index == 2 { Command::DataTableNextHistoryRow } else { Command::DataTableNextRow })
        } else if c == 'k' {
            Some(if tab_index == 2 { Command::DataTablePreviousHistoryRow } else { Command::DataTablePreviousRow })
        } else if c == ' ' {
            Some(Command::DataTableNextPage)
        } else if c == 'g' {
            Some(Command::DataTableJumpToFirstRow)
        } else if c == 'G' {
            Some(Command::DataTableJumpToLastRow)
        } else if c == '>' {
            Some(Command::DataTableScrollRight)
        } else if c == '<' {
            Some(Command::DataTableScrollLeft)
        } else if c == 'l' {
            Some(Command::DataTableNextColumn)
        } else if c == 'h' {
            Some(Command::DataTablePreviousColumn)
        } else if c == 'w' {
            Some(Command::DataTableAdjustColumnWidthIncrease)
        } else if c == 'W' {
            Some(Command::DataTableAdjustColumnWidthDecrease)
        } else if c == 'n' {
            Some(Command::DataTableNextColor)
        } else if c == 'p' {
            Some(Command::DataTablePreviousColor)
        } else if c == 'y' {
            Some(Command::DataTableCopySelectedCell)
        } else if c == 'Y' {
            Some(Command::DataTableCopySelectedRow)
        } else if c == 'C' {
            Some(Command::DataTableCopyQueryToEditor)
        } else if c == 'R' {
            Some(Command::DataTableRunSelectedHistoryQuery)
        } else if '1' <= c && c <= '9' {
            Some(Command::DataTableSetTabIndex((c as u32 - '1' as u32) as usize))
        } else {
            None
        },
        _ => None,
    }
}

/// The command for a key when the schema sidebar has focus.
pub open spec fn sidebar_command(code: KeyCode) -> Option<Command> {
    match code {
        KeyCode::Char(c) => if c == '\n' || c == ' ' { Some(Command::SidebarToggleSelected) } else { None },
        KeyCode::Enter => Some(Command::SidebarToggleSelected),
        KeyCode::Left => Some(Command::SidebarKeyLeft),
        KeyCode::Right => Some(Command::SidebarKeyRight),
        KeyCode::Down => Some(Command::SidebarKeyDown),
        KeyCode::Up => Some(Command::SidebarKeyUp),
        KeyCode::Esc => Some(Command::SidebarDeselect),
        KeyCode::Home => Some(Command::SidebarSelectFirst),
        KeyCode::End => Some(Command::SidebarSelectLast),
        KeyCode::PageDown => Some(Command::SidebarScrollDown(3u16)),
        KeyCode::PageUp => Some(Command::SidebarScrollUp(3u16)),
        _ => None,
    }
}

/// The keys that act whatever has focus: quit, help, focus toggle, execute.
pub open spec fn global_command(code: KeyCode) -> Option<Command> {
    match code {
        KeyCode::Char(c) => if c == 'q' {
            Some(Command::Quit)
        } else if c == '?' {
            Some(Command::ShowKeyMap)
        } else {
            None
        },
        KeyCode::Tab => Some(Command::ToggleFocus),
        KeyCode::F(n) => if n == 5 { Some(Command::ExecuteQuery) } else { None },
        _ => None,
    }
}

/// The command for a key while the help overlay is shown.
pub open spec fn popup_command(code: KeyCode) -> Option<Command> {
    match code {
        KeyCode::Esc => Some(Command::ClosePopup),
        KeyCode::Up => Some(Command::KeyMapScrollUp),
        KeyCode::Down => Some(Command::KeyMapScrollDown),
        KeyCode::Char(c) => if c == 'q' || c == '?' {
            Some(Command::ClosePopup)
        } else if c == 'k' {
            Some(Command::KeyMapScrollUp)
        } else if c == 'j' {
            Some(Command::KeyMapScrollDown)
        } else {
            None
        },
        _ => None,
    }
}

/// The resolver after a press that the editor does not see: any buffered key
/// is discarded, and a pending operator is abandoned for Normal mode.
pub open spec fn cleared(m: DefaultKeyMapper) -> DefaultKeyMapper {
    DefaultKeyMapper {
        editor_mode: match m.editor_mode {
            Mode::Operator(_) => Mode::Normal,
            other => other,
        },
        editor_pending_input: None,
    }
}

/// What resolving a key event does: the resolver's next state and the command.
/// Only presses resolve; the global keys come first; in the editor the modal
/// state machine decides and always yields a command; any other press
/// discards a buffered key.
pub open spec fn resolved(m: DefaultKeyMapper, key_event: KeyEvent, focus: Focus, tab_index: usize) -> (DefaultKeyMapper, Option<Command>) {
    if key_event.kind != KeyEventKind::Press {
        (m, None)
    } else if global_command(key_event.code) is Some {
        (cleared(m), global_command(key_event.code))
    } else {
        match focus {
            Focus::Editor => {
                let (mode, pending, cmd) = editor_step(m.editor_mode, m.editor_pending_input, key_event.code, key_event.ctrl);
                (DefaultKeyMapper { editor_mode: mode, editor_pending_input: pending }, Some(cmd))
            },
            Focus::Table => (cleared(m), data_table_command(key_event.code, tab_index)),
            Focus::Sidebar => (cleared(m), sidebar_command(key_event.code)),
        }
    }
}

/// The resolver's state: the editor mode and at most one buffered key.
pub struct DefaultKeyMapper {
    pub editor_mode: Mode,
    pub editor_pending_input: Option<char>,
}

fn motion_key(c: char) -> (r: Option<CursorMove>)
    ensures
        r == motion_of(c),
{
    match c {
        'h' => Some(CursorMove::Back),
        'j' => Some(CursorMove::Down),
        'k' => Some(CursorMove::Up),
        'l' => Some(CursorMove::Forward),
        'w' => Some(CursorMove::WordForward),
        'e' => Some(CursorMove::WordEnd),
        'b' => Some(CursorMove::WordBack),
        '^' => Some(CursorMove::Head),
        '$' => Some(CursorMove::End),
        'G' => Some(CursorMove::Bottom),
        _ => None,
    }
}

fn pending_key(mode: Mode, pending: char, code: KeyCode, ctrl: bool) -> (r: (Mode, Command))
    ensures
        r == pending_step(mode, pending, code, ctrl),
{
    if pending == 'g' && code == KeyCode::Char('g') && !ctrl {
        (mode, Command::EditorMoveCursor(CursorMove::Top))
    } else if pending == 'y' || pending == 'd' || pending == 'c' {
        match code {
            KeyCode::Char(c) => if c == pending && !ctrl {
                let m = if pending == 'c' { Mode::Insert } else { Mode::Normal };
                let cmd = if pending == 'y' {
                    Command::EditorCopySelection
                } else {
                    Command::EditorDeleteLineByEnd
                };
                (m, cmd)
            } else if !ctrl && motion_key(c).is_some() {
                (Mode::Normal, Command::EditorPerformPendingOperator)
            } else {
                (Mode::Normal, Command::NoOp)
            },
            _ => (Mode::Normal, Command::NoOp),
        }
    } else {
        (mode, Command::NoOp)
    }
}

fn normal_key(code: KeyCode, ctrl: bool) -> (r: (Mode, Option<char>, Command))
    ensures
        r == normal_step(code, ctrl),
{
    let c = match code {
        KeyCode::Char(c) => c,
        _ => {
            return (Mode::Normal, None, Command::NoOp);
        },
    };
    let motion = motion_key(c);
    let (mode, cmd) = if c == 'e' && ctrl {
        (Mode::Normal, Command::EditorScrollRelative(1, 0))
    } else if c == 'b' && ctrl {
        (Mode::Normal, Command::EditorScroll(Scrolling::PageUp))
    } else if let Some(m) = motion {
        (Mode::Normal, Command::EditorMoveCursor(m))
    } else if c == 'D' {
        (Mode::Normal, Command::EditorDeleteLineByEnd)
    } else if c == 'C' {
        (Mode::Insert, Command::EditorDeleteLineByEnd)
    } else if c == 'p' {
        (Mode::Normal, Command::EditorPaste)
    } else if c == 'u' && !ctrl {
        (Mode::Normal, Command::EditorUndo)
    } else if c == 'r' && ctrl {
        (Mode::Normal, Command::EditorRedo)
    } else if c == 'x' {
        (Mode::Normal, Command::EditorDeleteNextChar)
    } else if c == 'i' {
        (Mode::Insert, Command::EditorSetMode(Mode::Insert))
    } else if c == 'a' {
        (Mode::Insert, Command::EditorMoveCursor(CursorMove::Forward))
    } else if c == 'A' {
        (Mode::Insert, Command::EditorMoveCursor(CursorMove::End))
    } else if c == 'o' || c == 'O' {
        (Mode::Insert, Command::EditorInputEnter)
    } else if c == 'I' {
        (Mode::Insert, Command::EditorMoveCursor(CursorMove::Head))
    } else if c == 'y' && ctrl {
        (Mode::Normal, Command::EditorScrollRelative(-1, 0))
    } else if c == 'd' && ctrl {
        (Mode::Normal, Command::EditorScroll(Scrolling::HalfPageDown))
    } else if c == 'u' && ctrl {
        (Mode::Normal, Command::EditorScroll(Scrolling::HalfPageUp))
    } else if c == 'f' && ctrl {
        (Mode::Normal, Command::EditorScroll(Scrolling::PageDown))
    } else if c == 'v' || c == 'V' {
        (Mode::Visual, Command::EditorStartSelection)
    } else if c == 'g' && !ctrl {
        return (Mode::Normal, Some('g'), Command::NoOp);
    } else if c == 'y' || c == 'd' || c == 'c' {
        return (Mode::Operator(c), Some(c), Command::EditorSetMode(Mode::Operator(c)));
    } else {
        (Mode::Normal, Command::NoOp)
    };
    (mode, None, cmd)
}

fn insert_key(code: KeyCode, ctrl: bool) -> (r: (Mode, Command))
    ensures
        r == insert_step(code, ctrl),
{
    match code {
        KeyCode::Esc => (Mode::Normal, Command::EditorSetMode(Mode::Normal)),
        KeyCode::Char(c) => if c == 'c' && ctrl {
            (Mode::Normal, Command::EditorSetMode(Mode::Normal))
        } else {
            (Mode::Insert, Command::EditorInputChar(c))
        },
        KeyCode::Backspace => (Mode::Insert, Command::EditorInputBackspace),
        KeyCode::Delete => (Mode::Insert, Command::EditorInputDelete),
        KeyCode::Enter => (Mode::Insert, Command::EditorInputEnter),
        KeyCode::Left => (Mode::Insert, Command::EditorMoveCursor(CursorMove::Back)),
        KeyCode::Right => (Mode::Insert, Command::EditorMoveCursor(CursorMove::Forward)),
        KeyCode::Up => (Mode::Insert, Command::EditorMoveCursor(CursorMove::Up)),
        KeyCode::Down => (Mode::Insert, Command::EditorMoveCursor(CursorMove::Down)),
        KeyCode::Home => (Mode::Insert, Command::EditorMoveCursor(CursorMove::Head)),
        KeyCode::End => (Mode::Insert, Command::EditorMoveCursor(CursorMove::End)),
        KeyCode::PageUp => (Mode::Insert, Command::EditorScroll(Scrolling::PageUp)),
        KeyCode::PageDown => (Mode::Insert, Command::EditorScroll(Scrolling::PageDown)),
        _ => (Mode::Insert, Command::NoOp),
    }
}

fn visual_key(code: KeyCode, ctrl: bool) -> (r: (Mode, Option<char>, Command))
    ensures
        r == visual_step(code, ctrl),
{
    match code {
        KeyCode::Esc => (Mode::Normal, None, Command::EditorCancelSelection),
        KeyCode::Char(c) => if let Some(m) = motion_key(c) {
            (Mode::Visual, None, Command::EditorMoveCursor(m))
        } else if c == 'g' && !ctrl {
            (Mode::Visual, Some('g'), Command::NoOp)
        } else if c == 'y' {
            (Mode::Normal, None, Command::EditorCopySelection)
        } else if c == 'd' {
            (Mode::Normal, None, Command::EditorCutSelection)
        } else if c == 'c' {
            (Mode::Insert, None, Command::EditorCutSelection)
        } else if c == 'v' {
            (Mode::Normal, None, Command::EditorCancelSelection)
        } else {
            (Mode::Visual, None, Command::NoOp)
        },
        _ => (Mode::Visual, None, Command::NoOp),
    }
}

impl DefaultKeyMapper {
    /// A resolver in Normal mode with nothing buffered.
    pub fn new() -> (r: DefaultKeyMapper)
        ensures
            r.editor_mode == Mode::Normal,
            r.editor_pending_input is None,
    {
        DefaultKeyMapper { editor_mode: Mode::Normal, editor_pending_input: None }
    }

    /// The resolver's invariant: an operator is pending exactly in Operator
    /// mode, and a buffered `g` only in Normal or Visual mode.
    pub open spec fn wf(&self) -> bool {
        match self.editor_mode {
            Mode::Operator(op) => is_operator(op) && self.editor_pending_input == Some(op),
            Mode::Insert => self.editor_pending_input is None,
            _ => self.editor_pending_input is None || self.editor_pending_input == Some('g'),
        }
    }

    fn discard_pending(&mut self)
        ensures
            *final(self) == cleared(*old(self)),
    {
        if let Mode::Operator(_) = self.editor_mode {
            self.editor_mode = Mode::Normal;
        }
        self.editor_pending_input = None;
    }

    /// The current editor mode.
    pub fn editor_mode(&self) -> (r: Mode)
        ensures
            r == self.editor_mode,
    {
        self.editor_mode
    }

    /// Resolves a key in the editor with the modal state machine. A move to
    /// the top needs a plain `g` right after a buffered `g`; a motion after a
    /// pending operator performs it once and returns to Normal; the operator
    /// pressed again gives its whole-line variant.
    pub fn map_query_editor_key(&mut self, code: KeyCode, ctrl: bool) -> (r: Command)
        ensures
            (final(self).editor_mode, final(self).editor_pending_input, r)
                == editor_step(old(self).editor_mode, old(self).editor_pending_input, code, ctrl),
            old(self).wf() ==> final(self).wf(),
            r == Command::EditorMoveCursor(CursorMove::Top) ==> old(self).editor_pending_input == Some('g')
                && code == KeyCode::Char('g') && !ctrl,
            old(self).wf() ==> match old(self).editor_mode {
                Mode::Operator(op) => {
                    &&& (code == KeyCode::Char(op) && !ctrl ==> r == whole_line_command(op) && final(self).editor_mode
                        == whole_line_mode(op) && final(self).editor_pending_input is None)
                    &&& (forall|m: char|
                        code == KeyCode::Char(m) && !ctrl && m != op && #[trigger] motion_of(m) is Some ==> r
                            == Command::EditorPerformPendingOperator && final(self).editor_mode == Mode::Normal
                            && final(self).editor_pending_input is None)
                },
                _ => true,
            },
    {
        proof {
            lemma_top_only_after_buffered_g(old(self).editor_mode, old(self).editor_pending_input, code, ctrl);
        }
        let (mode, pending, cmd) = match self.editor_pending_input {
            Some(p) => {
                let (m, cmd) = pending_key(self.editor_mode, p, code, ctrl);
                (m, None, cmd)
            },
            None => match self.editor_mode {
                Mode::Normal => normal_key(code, ctrl),
                Mode::Insert => {
                    let (m, cmd) = insert_key(code, ctrl);
                    (m, None, cmd)
                },
                Mode::Visual => visual_key(code, ctrl),
                Mode::Operator(_) => (Mode::Normal, None, Command::NoOp),
            },
        };
        self.editor_mode = mode;
        self.editor_pending_input = pending;
        cmd
    }

    fn map_data_table_key(&self, code: KeyCode, tab_index: usize) -> (r: Option<Command>)
        ensures
            r == data_table_command(code, tab_index),
    {
        let next_row = if tab_index == 2 {
            Command::DataTableNextHistoryRow
        } else {
            Command::DataTableNextRow
        };
        let previous_row = if tab_index == 2 {
            Command::DataTablePreviousHistoryRow
        } else {
            Command::DataTablePreviousRow
        };
        match code {
            KeyCode::Down => Some(next_row),
            KeyCode::Up => Some(previous_row),
            KeyCode::PageDown => Some(Command::DataTableNextPage),
            KeyCode::PageUp => Some(Command::DataTablePreviousPage),
            KeyCode::Right => Some(Command::DataTableNextColumn),
            KeyCode::Left => Some(Command::DataTablePreviousColumn),
            KeyCode::Char(c) => match c {
                '[' => Some(Command::DataTablePreviousTab),
                ']' => Some(Command::DataTableNextTab),
                'j' => Some(next_row),
                'k' => Some(previous_row),
                ' ' => Some(Command::DataTableNextPage),
                'g' => Some(Command::DataTableJumpToFirstRow),
                'G' => Some(Command::DataTableJumpToLastRow),
                '>' => Some(Command::DataTableScrollRight),
                '<' => Some(Command::DataTableScrollLeft),
                'l' => Some(Command::DataTableNextColumn),
                'h' => Some(Command::DataTablePreviousColumn),
                'w' => Some(Command::DataTableAdjustColumnWidthIncrease),
                'W' => Some(Command::DataTableAdjustColumnWidthDecrease),
                'n' => Some(Command::DataTableNextColor),
                'p' => Some(Command::DataTablePreviousColor),
                'y' => Some(Command::DataTableCopySelectedCell),
                'Y' => Some(Command::DataTableCopySelectedRow),
                'C' => Some(Command::DataTableCopyQueryToEditor),
                'R' => Some(Command::DataTableRunSelectedHistoryQuery),
                _ => if '1' <= c && c <= '9' {
                    Some(Command::DataTableSetTabIndex((c as u32 - '1' as u32) as usize))
                } else {
                    None
                },
            },
            _ => None,
        }
    }

    fn map_sidebar_key(&self, code: KeyCode) -> (r: Option<Command>)
        ensures
            r == sidebar_command(code),
    {
        match code {
            KeyCode::Char(c) => if c == '\n' || c == ' ' {
                Some(Command::SidebarToggleSelected)
            } else {
                None
            },
            KeyCode::Enter => Some(Command::SidebarToggleSelected),
            KeyCode::Left => Some(Command::SidebarKeyLeft),
            KeyCode::Right => Some(Command::SidebarKeyRight),
            KeyCode::Down => Some(Command::SidebarKeyDown),
            KeyCode::Up => Some(Command::SidebarKeyUp),
            KeyCode::Esc => Some(Command::SidebarDeselect),
            KeyCode::Home => Some(Command::SidebarSelectFirst),
            KeyCode::End => Some(Command::SidebarSelectLast),
            KeyCode::PageDown => Some(Command::SidebarScrollDown(3)),
            KeyCode::PageUp => Some(Command::SidebarScrollUp(3)),
            _ => None,
        }
    }

    /// Resolves a key event given the focused panel and the result table's
    /// active tab. Only presses resolve; the global keys come first; in the
    /// editor the modal state machine decides and always yields a command.
    pub fn map_key_to_command(&mut self, key_event: KeyEvent, current_focus: &Focus, tab_index: usize) -> (r: Option<Command>)
        ensures
            old(self).wf() ==> final(self).wf(),
            (*final(self), r) == resolved(*old(self), key_event, *current_focus, tab_index),
    {
        if key_event.kind != KeyEventKind::Press {
            return None;
        }
        let global = match key_event.code {
            KeyCode::Char('q') => Some(Command::Quit),
            KeyCode::Char('?') => Some(Command::ShowKeyMap),
            KeyCode::Tab => Some(Command::ToggleFocus),
            KeyCode::F(5) => Some(Command::ExecuteQuery),
            _ => None,
        };
        if global.is_some() {
            self.discard_pending();
            return global;
        }
        match current_focus {
            Focus::Editor => Some(self.map_query_editor_key(key_event.code, key_event.ctrl)),
            Focus::Table => {
                self.discard_pending();
                self.map_data_table_key(key_event.code, tab_index)
            },
            Focus::Sidebar => {
                self.discard_pending();
                self.map_sidebar_key(key_event.code)
            },
        }
    }

    /// Resolves a key event while the help overlay is shown; a press
    /// discards any buffered key.
    pub fn map_popup_key(&mut self, key_event: KeyEvent) -> (r: Option<Command>)
        ensures
            old(self).wf() ==> final(self).wf(),
            r == (if key_event.kind == KeyEventKind::Press { popup_command(key_event.code) } else { None }),
            *final(self) == (if key_event.kind == KeyEventKind::Press { cleared(*old(self)) } else { *old(self) }),
    {
        if key_event.kind != KeyEventKind::Press {
            return None;
        }
        self.discard_pending();
        match key_event.code {
            KeyCode::Esc => Some(Command::ClosePopup),
            KeyCode::Up => Some(Command::KeyMapScrollUp),
            KeyCode::Down => Some(Command::KeyMapScrollDown),
            KeyCode::Char(c) => if c == 'q' || c == '?' {
                Some(Command::ClosePopup)
            } else if c == 'k' {
                Some(Command::KeyMapScrollUp)
            } else if c == 'j' {
                Some(Command::KeyMapScrollDown)
            } else {
                None
            },
            _ => None,
        }
    }
}

/// A resolver of key events into commands.
pub trait KeyMapper {
    /// The command for a key event, given the focused panel and the result table's tab.
    fn map_key_to_command(&mut self, key_event: KeyEvent, current_focus: &Focus, tab_index: usize) -> Option<Command>;

    /// The editor mode the resolver is in.
    fn editor_mode(&self) -> Mode;

    /// The command for a key event while the help overlay is shown.
    fn map_popup_key(&mut self, key_event: KeyEvent) -> Option<Command>;
}

impl KeyMapper for DefaultKeyMapper {
    fn map_key_to_command(&mut self, key_event: KeyEvent, current_focus: &Focus, tab_index: usize) -> Option<Command> {
        DefaultKeyMapper::map_key_to_command(self, key_event, current_focus, tab_index)
    }

    fn editor_mode(&self) -> Mode {
        DefaultKeyMapper::editor_mode(self)
    }

    fn map_popup_key(&mut self, key_event: KeyEvent) -> Option<Command> {
        DefaultKeyMapper::map_popup_key(self, key_event)
    }
}

/// Resolving an editor key keeps the resolver's invariant.
pub proof fn lemma_editor_step_keeps_wf(mapper: DefaultKeyMapper, code: KeyCode, ctrl: bool)
    requires
        mapper.wf(),
    ensures
        ({
            let (m, p, _) = editor_step(mapper.editor_mode, mapper.editor_pending_input, code, ctrl);
            (DefaultKeyMapper { editor_mode: m, editor_pending_input: p }).wf()
        }),
{
}

/// Two consecutive plain `g` presses in Normal or Visual mode move to the top:
/// the first only buffers itself, the second emits the motion and clears the buffer.
pub proof fn lemma_gg_moves_to_top(mode: Mode)
    requires
        mode == Mode::Normal || mode == Mode::Visual,
    ensures
        editor_step(mode, None, KeyCode::Char('g'), false) == (mode, Some('g'), Command::NoOp),
        editor_step(mode, Some('g'), KeyCode::Char('g'), false)
            == (mode, None::<char>, Command::EditorMoveCursor(CursorMove::Top)),
{
}

/// The move to the top is only ever emitted for a plain `g` that directly
/// follows a buffered `g`.
pub proof fn lemma_top_only_after_buffered_g(mode: Mode, pending: Option<char>, code: KeyCode, ctrl: bool)
    ensures
        editor_step(mode, pending, code, ctrl).2 == Command::EditorMoveCursor(CursorMove::Top)
            ==> pending == Some('g') && code == KeyCode::Char('g') && !ctrl,
{
}

/// A key other than a plain `g` after a buffered `g` discards the buffer and
/// yields a no-op; a `g` after that starts a fresh buffer instead of moving.
pub proof fn lemma_interrupted_g_starts_fresh(mode: Mode, code: KeyCode, ctrl: bool)
    requires
        mode == Mode::Normal || mode == Mode::Visual,
        !(code == KeyCode::Char('g') && !ctrl),
    ensures
        editor_step(mode, Some('g'), code, ctrl) == (mode, None::<char>, Command::NoOp),
        editor_step(mode, None, KeyCode::Char('g'), false) == (mode, Some('g'), Command::NoOp),
{
}

/// After a press, a key is buffered only if that press buffered it: a
/// buffered key never outlives the next press.
pub proof fn lemma_buffer_lasts_one_press(m: DefaultKeyMapper, key_event: KeyEvent, focus: Focus, tab_index: usize)
    requires
        m.wf(),
        key_event.kind == KeyEventKind::Press,
    ensures
        resolved(m, key_event, focus, tab_index).0.editor_pending_input is Some ==> m.editor_pending_input is None,
{
}

/// A resolved move to the top comes only from a plain `g` pressed in the
/// editor right after a buffered `g`.
pub proof fn lemma_resolved_top_needs_gg(m: DefaultKeyMapper, key_event: KeyEvent, focus: Focus, tab_index: usize)
    ensures
        resolved(m, key_event, focus, tab_index).1 == Some(Command::EditorMoveCursor(CursorMove::Top)) ==> {
            &&& focus == Focus::Editor
            &&& key_event.kind == KeyEventKind::Press
            &&& key_event.code == KeyCode::Char('g')
            &&& !key_event.ctrl
            &&& m.editor_pending_input == Some('g')
        },
{
    lemma_top_only_after_buffered_g(m.editor_mode, m.editor_pending_input, key_event.code, key_event.ctrl);
}

/// An operator followed by a motion yields one "perform pending operator"
/// and returns to Normal mode with nothing buffered.
pub proof fn lemma_operator_then_motion(op: char, motion: char)
    requires
        is_operator(op),
        motion_of(motion) is Some,
    ensures
        editor_step(Mode::Normal, None, KeyCode::Char(op), false)
            == (Mode::Operator(op), Some(op), Command::EditorSetMode(Mode::Operator(op))),
        editor_step(Mode::Operator(op), Some(op), KeyCode::Char(motion), false)
            == (Mode::Normal, None::<char>, Command::EditorPerformPendingOperator),
{
}

/// An operator pressed twice yields its whole-line variant and clears the buffer.
pub proof fn lemma_operator_twice(op: char)
    requires
        is_operator(op),
    ensures
        editor_step(Mode::Normal, None, KeyCode::Char(op), false)
            == (Mode::Operator(op), Some(op), Command::EditorSetMode(Mode::Operator(op))),
        editor_step(Mode::Operator(op), Some(op), KeyCode::Char(op), false)
            == (whole_line_mode(op), None::<char>, whole_line_command(op)),
        whole_line_mode(op) != Mode::Operator(op),
{
}

} // verus!
