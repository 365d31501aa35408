use lazydata::command::{Command, CursorMove, Mode, Scrolling};
use lazydata::focus::Focus;
use lazydata::key_maps::DefaultKeyMapper;
use lazydata::keys::{KeyCode, KeyEvent, KeyEventKind};

fn press(m: &mut DefaultKeyMapper, c: char) -> Option<Command> {
    m.map_key_to_command(KeyEvent::press(KeyCode::Char(c)), &Focus::Editor, 0)
}

#[test]
fn gg_moves_to_top() {
    let mut m = DefaultKeyMapper::new();
    assert_eq!(press(&mut m, 'g'), Some(Command::NoOp));
    assert_eq!(m.editor_pending_input, Some('g'));
    assert_eq!(press(&mut m, 'g'), Some(Command::EditorMoveCursor(CursorMove::Top)));
    assert_eq!(m.editor_pending_input, None);
    assert_eq!(m.editor_mode(), Mode::Normal);
}

#[test]
fn interrupted_gg_starts_fresh_buffer() {
    let mut m = DefaultKeyMapper::new();
    assert_eq!(press(&mut m, 'g'), Some(Command::NoOp));
    assert_eq!(press(&mut m, 'x'), Some(Command::NoOp));
    assert_eq!(m.editor_pending_input, None);
    assert_eq!(press(&mut m, 'g'), Some(Command::NoOp));
    assert_eq!(m.editor_pending_input, Some('g'));
    assert_eq!(press(&mut m, 'g'), Some(Command::EditorMoveCursor(CursorMove::Top)));
}

#[test]
fn operator_then_motion_performs_once() {
    for op in ['y', 'd', 'c'] {
        for motion in ['h', 'j', 'k', 'l', 'w', 'e', 'b', '^', '$', 'G'] {
            let mut m = DefaultKeyMapper::new();
            assert_eq!(press(&mut m, op), Some(Command::EditorSetMode(Mode::Operator(op))));
            assert_eq!(m.editor_mode(), Mode::Operator(op));
            assert_eq!(press(&mut m, motion), Some(Command::EditorPerformPendingOperator));
            assert_eq!(m.editor_mode(), Mode::Normal);
            assert_eq!(m.editor_pending_input, None);
        }
    }
}

#[test]
fn operator_twice_is_whole_line() {
    let mut m = DefaultKeyMapper::new();
    press(&mut m, 'y');
    assert_eq!(press(&mut m, 'y'), Some(Command::EditorCopySelection));
    assert_eq!(m.editor_mode(), Mode::Normal);
    let mut m = DefaultKeyMapper::new();
    press(&mut m, 'd');
    assert_eq!(press(&mut m, 'd'), Some(Command::EditorDeleteLineByEnd));
    assert_eq!(m.editor_mode(), Mode::Normal);
    let mut m = DefaultKeyMapper::new();
    press(&mut m, 'c');
    assert_eq!(press(&mut m, 'c'), Some(Command::EditorDeleteLineByEnd));
    assert_eq!(m.editor_mode(), Mode::Insert);
}

#[test]
fn operator_then_other_key_is_discarded() {
    let mut m = DefaultKeyMapper::new();
    press(&mut m, 'd');
    assert_eq!(press(&mut m, 'z'), Some(Command::NoOp));
    assert_eq!(m.editor_mode(), Mode::Normal);
    assert_eq!(m.editor_pending_input, None);
}

#[test]
fn release_events_resolve_to_nothing() {
    let mut m = DefaultKeyMapper::new();
    let ev = KeyEvent { code: KeyCode::Char('q'), ctrl: false, kind: KeyEventKind::Release };
    assert_eq!(m.map_key_to_command(ev, &Focus::Table, 0), None);
    let ev = KeyEvent { code: KeyCode::Char('j'), ctrl: false, kind: KeyEventKind::Repeat };
    assert_eq!(m.map_popup_key(ev), None);
}

#[test]
fn global_keys_take_precedence() {
    let mut m = DefaultKeyMapper::new();
    for focus in [Focus::Editor, Focus::Table, Focus::Sidebar] {
        assert_eq!(m.map_key_to_command(KeyEvent::press(KeyCode::Char('q')), &focus, 0), Some(Command::Quit));
        assert_eq!(m.map_key_to_command(KeyEvent::press(KeyCode::Char('?')), &focus, 0), Some(Command::ShowKeyMap));
        assert_eq!(m.map_key_to_command(KeyEvent::press(KeyCode::Tab), &focus, 0), Some(Command::ToggleFocus));
        assert_eq!(m.map_key_to_command(KeyEvent::press(KeyCode::F(5)), &focus, 0), Some(Command::ExecuteQuery));
    }
    assert_eq!(m.map_key_to_command(KeyEvent::press(KeyCode::F(4)), &Focus::Table, 0), None);
}

#[test]
fn insert_mode_types_and_escapes() {
    let mut m = DefaultKeyMapper::new();
    assert_eq!(press(&mut m, 'i'), Some(Command::EditorSetMode(Mode::Insert)));
    assert_eq!(press(&mut m, 'x'), Some(Command::EditorInputChar('x')));
    let bs = m.map_key_to_command(KeyEvent::press(KeyCode::Backspace), &Focus::Editor, 0);
    assert_eq!(bs, Some(Command::EditorInputBackspace));
    let esc = m.map_key_to_command(KeyEvent::press(KeyCode::Esc), &Focus::Editor, 0);
    assert_eq!(esc, Some(Command::EditorSetMode(Mode::Normal)));
    assert_eq!(m.editor_mode(), Mode::Normal);
    assert_eq!(press(&mut m, 'i'), Some(Command::EditorSetMode(Mode::Insert)));
    let ctrl_c = m.map_key_to_command(KeyEvent::ctrl_press(KeyCode::Char('c')), &Focus::Editor, 0);
    assert_eq!(ctrl_c, Some(Command::EditorSetMode(Mode::Normal)));
}

#[test]
fn visual_mode_commits_selection() {
    let mut m = DefaultKeyMapper::new();
    assert_eq!(press(&mut m, 'v'), Some(Command::EditorStartSelection));
    assert_eq!(m.editor_mode(), Mode::Visual);
    assert_eq!(press(&mut m, 'l'), Some(Command::EditorMoveCursor(CursorMove::Forward)));
    assert_eq!(press(&mut m, 'd'), Some(Command::EditorCutSelection));
    assert_eq!(m.editor_mode(), Mode::Normal);
    press(&mut m, 'V');
    assert_eq!(press(&mut m, 'c'), Some(Command::EditorCutSelection));
    assert_eq!(m.editor_mode(), Mode::Insert);
}

#[test]
fn normal_mode_control_keys() {
    let mut m = DefaultKeyMapper::new();
    let ev = |c| KeyEvent::ctrl_press(KeyCode::Char(c));
    assert_eq!(m.map_key_to_command(ev('e'), &Focus::Editor, 0), Some(Command::EditorScrollRelative(1, 0)));
    assert_eq!(m.map_key_to_command(ev('y'), &Focus::Editor, 0), Some(Command::EditorScrollRelative(-1, 0)));
    assert_eq!(m.map_key_to_command(ev('d'), &Focus::Editor, 0), Some(Command::EditorScroll(Scrolling::HalfPageDown)));
    assert_eq!(m.map_key_to_command(ev('r'), &Focus::Editor, 0), Some(Command::EditorRedo));
    assert_eq!(press(&mut m, 'u'), Some(Command::EditorUndo));
    assert_eq!(press(&mut m, 'A'), Some(Command::EditorMoveCursor(CursorMove::End)));
    assert_eq!(m.editor_mode(), Mode::Insert);
}

#[test]
fn table_keys_depend_on_history_tab() {
    let mut m = DefaultKeyMapper::new();
    let down = KeyEvent::press(KeyCode::Down);
    assert_eq!(m.map_key_to_command(down, &Focus::Table, 0), Some(Command::DataTableNextRow));
    assert_eq!(m.map_key_to_command(down, &Focus::Table, 2), Some(Command::DataTableNextHistoryRow));
    let k = KeyEvent::press(KeyCode::Char('k'));
    assert_eq!(m.map_key_to_command(k, &Focus::Table, 2), Some(Command::DataTablePreviousHistoryRow));
    let three = KeyEvent::press(KeyCode::Char('3'));
    assert_eq!(m.map_key_to_command(three, &Focus::Table, 0), Some(Command::DataTableSetTabIndex(2)));
    let zero = KeyEvent::press(KeyCode::Char('0'));
    assert_eq!(m.map_key_to_command(zero, &Focus::Table, 0), None);
    let big_g = KeyEvent::press(KeyCode::Char('G'));
    assert_eq!(m.map_key_to_command(big_g, &Focus::Table, 0), Some(Command::DataTableJumpToLastRow));
}

#[test]
fn sidebar_and_popup_keys() {
    let mut m = DefaultKeyMapper::new();
    let pd = KeyEvent::press(KeyCode::PageDown);
    assert_eq!(m.map_key_to_command(pd, &Focus::Sidebar, 0), Some(Command::SidebarScrollDown(3)));
    let sp = KeyEvent::press(KeyCode::Char(' '));
    assert_eq!(m.map_key_to_command(sp, &Focus::Sidebar, 0), Some(Command::SidebarToggleSelected));
    assert_eq!(m.map_popup_key(KeyEvent::press(KeyCode::Esc)), Some(Command::ClosePopup));
    assert_eq!(m.map_popup_key(KeyEvent::press(KeyCode::Char('j'))), Some(Command::KeyMapScrollDown));
    assert_eq!(m.map_popup_key(KeyEvent::press(KeyCode::Up)), Some(Command::KeyMapScrollUp));
    assert_eq!(m.map_popup_key(KeyEvent::press(KeyCode::Char('x'))), None);
}

#[test]
fn intervening_command_discards_buffered_key() {
    let mut m = DefaultKeyMapper::new();
    assert_eq!(press(&mut m, 'g'), Some(Command::NoOp));
    let tab = m.map_key_to_command(KeyEvent::press(KeyCode::Tab), &Focus::Editor, 0);
    assert_eq!(tab, Some(Command::ToggleFocus));
    assert_eq!(m.editor_pending_input, None);
    assert_eq!(press(&mut m, 'g'), Some(Command::NoOp));
    assert_eq!(press(&mut m, 'g'), Some(Command::EditorMoveCursor(CursorMove::Top)));
    press(&mut m, 'd');
    let down = m.map_key_to_command(KeyEvent::press(KeyCode::Down), &Focus::Table, 0);
    assert_eq!(down, Some(Command::DataTableNextRow));
    assert_eq!(m.editor_mode(), Mode::Normal);
    assert_eq!(m.editor_pending_input, None);
    press(&mut m, 'g');
    assert_eq!(m.map_popup_key(KeyEvent::press(KeyCode::Esc)), Some(Command::ClosePopup));
    assert_eq!(m.editor_pending_input, None);
}
