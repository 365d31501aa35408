//! The command router and the per-iteration decisions of the event loop.
//! The loop itself, and all outside work, is the caller's: each step here
//! returns the effect that the caller then performs.

use vstd::prelude::*;
use vstd::string::*;
use crate::command::Command;
use crate::data_table::{table_command_effect, DataTable};
use crate::executor::{outcome_shown, ExecutionError, ExecutionResult};
use crate::focus::{next_focus, Focus};
use crate::key_maps::{cleared, popup_command, resolved, DefaultKeyMapper};
use crate::keys::{KeyEvent, KeyEventKind};
use crate::state::{history_for, QueryHistoryEntry, QueryLog, QueryStats};

verus! {

/// Outside work that a command asks of the caller.
pub enum Effect {
    Nothing,
    /// Run the editor's current text as a query.
    ExecuteQuery,
    /// Put the text on the clipboard.
    Clipboard(String),
    /// Put the query on the clipboard and into the editor.
    QueryToEditor(String),
    /// Put the query into the editor and run it.
    RunQuery(String),
    /// Apply the command to the editor.
    Editor(Command),
    /// Toggle the selected node of the schema tree and load what it opens.
    SidebarToggle,
    /// Apply the command to the schema tree.
    Sidebar(Command),
}

/// Commands owned by the result table.
pub open spec fn is_table_command(c: Command) -> bool {
    match c {
        Command::DataTablePreviousTab | Command::DataTableNextTab | Command::DataTableNextRow
        | Command::DataTablePreviousRow | Command::DataTableNextHistoryRow
        | Command::DataTablePreviousHistoryRow | Command::DataTableScrollRight
        | Command::DataTableScrollLeft | Command::DataTableNextColor | Command::DataTablePreviousColor
        | Command::DataTableNextPage | Command::DataTablePreviousPage | Command::DataTableJumpToFirstRow
        | Command::DataTableJumpToLastRow | Command::DataTableNextColumn | Command::DataTablePreviousColumn
        | Command::DataTableAdjustColumnWidthIncrease | Command::DataTableAdjustColumnWidthDecrease
        | Command::DataTableCopySelectedCell | Command::DataTableCopySelectedRow
        | Command::DataTableCopyQueryToEditor | Command::DataTableRunSelectedHistoryQuery
        | Command::DataTableSetTabIndex(_) => true,
        _ => false,
    }
}

/// Commands owned by the query editor.
pub open spec fn is_editor_command(c: Command) -> bool {
    match c {
        Command::EditorInputChar(_) | Command::EditorInputBackspace | Command::EditorInputDelete
        | Command::EditorInputEnter | Command::EditorMoveCursor(_) | Command::EditorDeleteLineByEnd
        | Command::EditorCancelSelection | Command::EditorPaste | Command::EditorUndo | Command::EditorRedo
        | Command::EditorDeleteNextChar | Command::EditorSetMode(_) | Command::EditorScrollRelative(_, _)
        | Command::EditorScroll(_) | Command::EditorStartSelection | Command::EditorCopySelection
        | Command::EditorCutSelection | Command::EditorPerformPendingOperator => true,
        _ => false,
    }
}

/// Commands owned by the schema tree, but for the toggle, which also loads.
pub open spec fn is_sidebar_command(c: Command) -> bool {
    match c {
        Command::SidebarKeyLeft | Command::SidebarKeyRight | Command::SidebarKeyDown | Command::SidebarKeyUp
        | Command::SidebarDeselect | Command::SidebarSelectFirst | Command::SidebarSelectLast
        | Command::SidebarScrollDown(_) | Command::SidebarScrollUp(_) => true,
        _ => false,
    }
}

/// The effect of a table command, from the text it handed back.
pub open spec fn table_effect(c: Command, clip: Option<String>) -> Effect {
    match clip {
        Some(t) => match c {
            Command::DataTableCopyQueryToEditor => Effect::QueryToEditor(t),
            Command::DataTableRunSelectedHistoryQuery => Effect::RunQuery(t),
            _ => Effect::Clipboard(t),
        },
        None => Effect::Nothing,
    }
}

/// What routing `command` does: `after` follows `before` and `r` is the
/// effect handed to the caller.
pub open spec fn routed(before: AppState, after: AppState, command: Command, r: Effect) -> bool {
    &&& is_table_command(command) ==> exists|clip: Option<String>|
        table_command_effect(before.data_table, after.data_table, command, clip) && r == table_effect(
            command,
            clip,
        ) && after == (AppState { data_table: after.data_table, ..before })
    &&& !is_table_command(command) ==> match command {
        Command::Quit => r == Effect::Nothing && after == (AppState { exit: true, ..before }),
        Command::ShowKeyMap => r == Effect::Nothing && after == (AppState {
            show_key_map: true,
            key_map_scroll: 0,
            ..before
        }),
        Command::ClosePopup => r == Effect::Nothing && after == (AppState {
            show_key_map: false,
            ..before
        }),
        Command::KeyMapScrollUp => r == Effect::Nothing && after == (AppState {
            key_map_scroll: if before.key_map_scroll > 0 { (before.key_map_scroll - 1) as u16 } else { 0 },
            ..before
        }),
        Command::KeyMapScrollDown => r == Effect::Nothing && after == (AppState {
            key_map_scroll: if before.key_map_scroll < u16::MAX {
                (before.key_map_scroll + 1) as u16
            } else {
                u16::MAX
            },
            ..before
        }),
        Command::ToggleFocus => r == Effect::Nothing && after == (AppState {
            focus: next_focus(before.focus),
            ..before
        }),
        Command::ExecuteQuery => r == Effect::ExecuteQuery && after == before,
        Command::SidebarToggleSelected => r == Effect::SidebarToggle && after == before,
        Command::NoOp => r == Effect::Nothing && after == before,
        _ => after == before && (is_editor_command(command) ==> r == Effect::Editor(command)) && (
        is_sidebar_command(command) ==> r == Effect::Sidebar(command)),
    }
}

/// The client's state between two key events.
pub struct AppState {
    pub focus: Focus,
    pub exit: bool,
    pub show_key_map: bool,
    pub key_map_scroll: u16,
    /// The last query submitted.
    pub query: String,
    pub connection_name: Option<String>,
    pub data_table: DataTable,
    pub key_mapper: DefaultKeyMapper,
    pub log: QueryLog,
}

impl AppState {
    /// The state's invariant: the table's and the resolver's.
    pub open spec fn wf(&self) -> bool {
        self.data_table.wf() && self.key_mapper.wf()
    }

    /// A fresh session on `connection_name` over a loaded history: the schema
    /// tree has focus and the table is empty.
    pub fn new(connection_name: Option<String>, history: Vec<QueryHistoryEntry>) -> (r: AppState)
        ensures
            r.wf(),
            r.focus == Focus::Sidebar,
            !r.exit,
            !r.show_key_map,
            r.key_map_scroll == 0,
            r.query@.len() == 0,
            r.connection_name == connection_name,
            r.log.history == history,
            r.log.stats is None,
            r.data_table.rows@.len() == 0,
            r.data_table.headers@.len() == 0,
            r.data_table.query_history@ == match connection_name {
                Some(name) => history_for(history@, name),
                None => history@,
            },
    {
        let log = QueryLog::with_history(history);
        let shown = log.get_history(copy_name(&connection_name));
        AppState {
            focus: Focus::Sidebar,
            exit: false,
            show_key_map: false,
            key_map_scroll: 0,
            query: String::new(),
            connection_name,
            data_table: DataTable::new(Vec::new(), Vec::new(), shown),
            key_mapper: DefaultKeyMapper::new(),
            log,
        }
    }

    /// Moves focus to the next panel.
    pub fn toggle_focus(&mut self)
        ensures
            *final(self) == (AppState { focus: next_focus(old(self).focus), ..*old(self) }),
    {
        self.focus = self.focus.next();
    }

    /// Routes a command: global ones change this state, table ones go to the
    /// table, and the rest come back as the effect the caller performs.
    pub fn handle_command(&mut self, command: Command) -> (r: Effect)
        requires
            old(self).wf(),
        ensures
            final(self).wf(),
            routed(*old(self), *final(self), command, r),
    {
        match command {
            Command::Quit => {
                self.exit = true;
                Effect::Nothing
            },
            Command::ShowKeyMap => {
                self.show_key_map = true;
                self.key_map_scroll = 0;
                Effect::Nothing
            },
            Command::ClosePopup => {
                self.show_key_map = false;
                Effect::Nothing
            },
            Command::KeyMapScrollUp => {
                self.key_map_scroll = if self.key_map_scroll > 0 { self.key_map_scroll - 1 } else { 0 };
                Effect::Nothing
            },
            Command::KeyMapScrollDown => {
                self.key_map_scroll = if self.key_map_scroll < u16::MAX {
                    self.key_map_scroll + 1
                } else {
                    u16::MAX
                };
                Effect::Nothing
            },
            Command::ToggleFocus => {
                self.toggle_focus();
                Effect::Nothing
            },
            Command::ExecuteQuery => Effect::ExecuteQuery,
            Command::DataTablePreviousTab | Command::DataTableNextTab | Command::DataTableNextRow
            | Command::DataTablePreviousRow | Command::DataTableNextHistoryRow
            | Command::DataTablePreviousHistoryRow | Command::DataTableScrollRight
            | Command::DataTableScrollLeft | Command::DataTableNextColor | Command::DataTablePreviousColor
            | Command::DataTableNextPage | Command::DataTablePreviousPage | Command::DataTableJumpToFirstRow
            | Command::DataTableJumpToLastRow | Command::DataTableNextColumn | Command::DataTablePreviousColumn
            | Command::DataTableAdjustColumnWidthIncrease | Command::DataTableAdjustColumnWidthDecrease
            | Command::DataTableCopySelectedCell | Command::DataTableCopySelectedRow
            | Command::DataTableCopyQueryToEditor | Command::DataTableRunSelectedHistoryQuery
            | Command::DataTableSetTabIndex(_) => {
                let ghost before = self.data_table;
                let clip = self.data_table.handle_command(command);
                let ghost handed = clip;
                let effect = match clip {
                    Some(t) => match command {
                        Command::DataTableCopyQueryToEditor => Effect::QueryToEditor(t),
                        Command::DataTableRunSelectedHistoryQuery => Effect::RunQuery(t),
                        _ => Effect::Clipboard(t),
                    },
                    None => Effect::Nothing,
                };
                proof {
                    assert(table_command_effect(before, self.data_table, command, handed) && effect == table_effect(
                        command,
                        handed,
                    ));
                }
                effect
            },
            Command::SidebarToggleSelected => Effect::SidebarToggle,
            Command::SidebarKeyLeft | Command::SidebarKeyRight | Command::SidebarKeyDown | Command::SidebarKeyUp
            | Command::SidebarDeselect | Command::SidebarSelectFirst | Command::SidebarSelectLast
            | Command::SidebarScrollDown(_) | Command::SidebarScrollUp(_) => Effect::Sidebar(command),
            Command::NoOp => Effect::Nothing,
            _ => Effect::Editor(command),
        }
    }

    /// One key event: resolved with the overlay's table while the help
    /// overlay is shown, else by focus and the table's tab, then routed.
    pub fn handle_key(&mut self, key_event: KeyEvent) -> (r: Effect)
        requires
            old(self).wf(),
        ensures
            final(self).wf(),
            old(self).show_key_map ==> {
                let mid = if key_event.kind == KeyEventKind::Press {
                    AppState { key_mapper: cleared(old(self).key_mapper), ..*old(self) }
                } else {
                    *old(self)
                };
                match (if key_event.kind == KeyEventKind::Press { popup_command(key_event.code) } else { None }) {
                    None => r == Effect::Nothing && *final(self) == mid,
                    Some(c) => routed(mid, *final(self), c, r),
                }
            },
            !old(self).show_key_map ==> {
                let (m, resolved_command) = resolved(
                    old(self).key_mapper,
                    key_event,
                    old(self).focus,
                    old(self).data_table.tab_index,
                );
                let mid = AppState { key_mapper: m, ..*old(self) };
                match resolved_command {
                    None => r == Effect::Nothing && *final(self) == mid,
                    Some(c) => routed(mid, *final(self), c, r),
                }
            },
    {
        let resolved = if self.show_key_map {
            self.key_mapper.map_popup_key(key_event)
        } else {
            let focus = self.focus;
            let tab = self.data_table.tab_index;
            self.key_mapper.map_key_to_command(key_event, &focus, tab)
        };
        match resolved {
            Some(command) => self.handle_command(command),
            None => Effect::Nothing,
        }
    }

    /// Starts running `query`: an empty query is ignored; otherwise it becomes
    /// the last query and the table shows the loading state.
    pub fn begin_query(&mut self, query: String) -> (r: bool)
        requires
            old(self).wf(),
        ensures
            final(self).wf(),
            r == (query@.len() > 0),
            !r ==> *final(self) == *old(self),
            r ==> final(self).query == query && final(self).data_table.loading_state is Loading
                && final(self).data_table.tab_index == crate::data_table::DATA_TAB,
    {
        if query.as_str().unicode_len() == 0 {
            return false;
        }
        self.query = query;
        self.data_table.start_loading();
        true
    }

    /// Finishes the query run at `timestamp` that took `elapsed` milliseconds:
    /// records it in the log and shows the outcome with the refreshed history.
    pub fn finish_query(
        &mut self,
        query: String,
        timestamp: i64,
        elapsed: u64,
        outcome: Result<ExecutionResult, ExecutionError>,
    )
        requires
            old(self).wf(),
        ensures
            final(self).wf(),
            final(self).log.history@ == old(self).log.history@.push(
                QueryHistoryEntry {
                    query,
                    connection_name: old(self).connection_name,
                    timestamp,
                    success: outcome is Ok,
                    rows_affected: match outcome {
                        Ok(r) => crate::executor::result_rows(r),
                        Err(_) => 0,
                    },
                    execution_time: elapsed,
                },
            ),
            final(self).data_table.query_history@ == match old(self).connection_name {
                Some(name) => crate::state::history_for(final(self).log.history@, name),
                None => final(self).log.history@,
            },
            final(self).log.stats == match outcome {
                Ok(r) => Some(QueryStats { rows: crate::executor::result_rows(r), elapsed }),
                Err(_) => old(self).log.stats,
            },
            outcome_shown(old(self).data_table, final(self).data_table, outcome, elapsed),
            *final(self) == (AppState { log: final(self).log, data_table: final(self).data_table, ..*old(self) }),
    {
        self.log.record_outcome(query, copy_name(&self.connection_name), timestamp, elapsed, &outcome);
        let shown = self.log.get_history(copy_name(&self.connection_name));
        self.data_table.apply_outcome(outcome, elapsed, shown);
    }
}

fn copy_name(n: &Option<String>) -> (r: Option<String>)
    ensures
        r == *n,
{
    match n {
        Some(s) => Some(s.clone()),
        None => None,
    }
}

} // verus!
