//! The closed set of intents that key events resolve to.

use vstd::prelude::*;

verus! {

/// A cursor motion inside the query editor.
#[derive(Clone, Copy, Debug, PartialEq, Eq, Structural)]
pub enum CursorMove {
    Forward,
    Back,
    Up,
    Down,
    Head,
    End,
    Top,
    Bottom,
    WordForward,
    WordEnd,
    WordBack,
}

/// A scroll of the query editor by a page or half a page.
#[derive(Clone, Copy, Debug, PartialEq, Eq, Structural)]
pub enum Scrolling {
    PageUp,
    PageDown,
    HalfPageUp,
    HalfPageDown,
}

/// The editor's modal sub-state.
#[derive(Clone, Copy, Debug, PartialEq, Eq, Structural)]
pub enum Mode {
    Normal,
    Insert,
    Visual,
    /// Waiting for a motion to apply the operator (`y`, `d` or `c`) to.
    Operator(char),
}

impl Mode {
    /// The label shown in the editor's title, such as `NORMAL` or `OPERATOR(d)`.
    pub fn label(&self) -> (r: String)
        ensures
            r@ == mode_label(*self),
    {
        match self {
            Mode::Normal => String::from_str("NORMAL"),
            Mode::Insert => String::from_str("INSERT"),
            Mode::Visual => String::from_str("VISUAL"),
            Mode::Operator(c) => {
                let mut s = String::from_str("OPERATOR(");
                s.append(char_text(*c).as_str());
                s.append(")");
                s
            },
        }
    }
}

/// The label of a mode.
pub open spec fn mode_label(m: Mode) -> Seq<char> {
    match m {
        Mode::Normal => "NORMAL"@,
        Mode::Insert => "INSERT"@,
        Mode::Visual => "VISUAL"@,
        Mode::Operator(c) => "OPERATOR("@ + seq![c] + ")"@,
    }
}

/// Relies on char::to_string: the one-character string holding `c`.
#[verifier::external_body]
fn char_text(c: char) -> (r: String)
    ensures
        r@ == seq![c],
{
    c.to_string()
}

/// A resolved user intent, consumed by exactly one owner.
#[derive(Clone, Copy, Debug, PartialEq, Eq, Structural)]
pub enum Command {
    Quit,
    ToggleFocus,
    ExecuteQuery,
    ShowKeyMap,
    ClosePopup,
    KeyMapScrollUp,
    KeyMapScrollDown,
    DataTablePreviousTab,
    DataTableNextTab,
    DataTableNextRow,
    DataTablePreviousRow,
    DataTableNextHistoryRow,
    DataTablePreviousHistoryRow,
    DataTableScrollRight,
    DataTableScrollLeft,
    DataTableNextColor,
    DataTablePreviousColor,
    DataTableNextPage,
    DataTablePreviousPage,
    DataTableJumpToFirstRow,
    DataTableJumpToLastRow,
    DataTableNextColumn,
    DataTablePreviousColumn,
    DataTableAdjustColumnWidthIncrease,
    DataTableAdjustColumnWidthDecrease,
    DataTableCopySelectedCell,
    DataTableCopySelectedRow,
    DataTableCopyQueryToEditor,
    DataTableRunSelectedHistoryQuery,
    DataTableSetTabIndex(usize),
    SidebarToggleSelected,
    SidebarKeyLeft,
    SidebarKeyRight,
    SidebarKeyDown,
    SidebarKeyUp,
    SidebarDeselect,
    SidebarSelectFirst,
    SidebarSelectLast,
    SidebarScrollDown(u16),
    SidebarScrollUp(u16),
    EditorInputChar(char),
    EditorInputBackspace,
    EditorInputDelete,
    EditorInputEnter,
    EditorMoveCursor(CursorMove),
    EditorDeleteLineByEnd,
    EditorCancelSelection,
    EditorPaste,
    EditorUndo,
    EditorRedo,
    EditorDeleteNextChar,
    EditorSetMode(Mode),
    EditorScrollRelative(i16, i16),
    EditorScroll(Scrolling),
    EditorStartSelection,
    EditorCopySelection,
    EditorCutSelection,
    EditorPerformPendingOperator,
    NoOp,
}

/// The groups in which the key map guide lists bindings.
#[derive(Clone, Copy, Debug, PartialEq, Eq, Structural)]
pub enum CommandCategory {
    Global,
    Editor,
    DataTable,
    Sidebar,
}

impl CommandCategory {
    /// The categories in the order the key map guide shows them.
    pub fn help_command_categories() -> (r: [CommandCategory; 4])
        ensures
            r@ == seq![
                CommandCategory::Global,
                CommandCategory::Editor,
                CommandCategory::DataTable,
                CommandCategory::Sidebar,
            ],
    {
        let r = [
            CommandCategory::Global,
            CommandCategory::Editor,
            CommandCategory::DataTable,
            CommandCategory::Sidebar,
        ];
        assert(r@ =~= seq![
            CommandCategory::Global,
            CommandCategory::Editor,
            CommandCategory::DataTable,
            CommandCategory::Sidebar,
        ]);
        r
    }

    /// The category's heading.
    pub fn name(&self) -> (r: &'static str)
        ensures
            r@ == category_name(*self),
    {
        match self {
            CommandCategory::Global => "Global",
            CommandCategory::Editor => "Editor",
            CommandCategory::DataTable => "DataTable",
            CommandCategory::Sidebar => "Sidebar",
        }
    }
}

/// The heading of a category.
pub open spec fn category_name(c: CommandCategory) -> Seq<char> {
    match c {
        CommandCategory::Global => "Global"@,
        CommandCategory::Editor => "Editor"@,
        CommandCategory::DataTable => "DataTable"@,
        CommandCategory::Sidebar => "Sidebar"@,
    }
}

} // verus!
