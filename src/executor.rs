//! The query execution pipeline around the backend call: what is run, the
//! result shapes and messages, and what an outcome does to the history log
//! and the result table.

use vstd::prelude::*;
use vstd::string::*;
use crate::cell::CellValue;
use crate::data_table::{fresh_widths, DataTable, LoadingState, DATA_TAB, MESSAGES_TAB};
use crate::query::{keyword_of, Query};
use crate::state::{history_for, QueryHistoryEntry, QueryLog, QueryStats};
use crate::text::{decimal, decimal_text, join2, join3};

verus! {

/// The row count and the human-readable message of a fetch.
pub struct DataMeta {
    pub rows: usize,
    pub message: String,
}

/// What a successful statement produced.
pub enum ExecutionResult {
    /// A mutating statement and the number of rows it affected.
    Affected { rows: usize, message: String },
    /// A read: the column names, the rows and their count.
    Data { headers: Vec<String>, rows: Vec<Vec<CellValue>>, meta: DataMeta },
}

/// Why a statement produced no result.
pub enum ExecutionError {
    /// The statement's leading keyword is none the client runs.
    UnsupportedStatement,
    /// The backend rejected or failed the statement; its message.
    Backend(String),
}

/// One row as the backend returned it: its column names and its cells.
pub struct FetchedRow {
    pub columns: Vec<String>,
    pub cells: Vec<CellValue>,
}

/// What the backend call returned.
pub enum BackendOutcome {
    Rows(Vec<FetchedRow>),
    Affected(u64),
    Failed(String),
}

/// The message of a fetch.
pub open spec fn data_message(rows: nat, elapsed: nat) -> Seq<char> {
    "Successfully run. Total query runtime: "@ + decimal(elapsed) + " ms.\n"@ + decimal(rows) + " rows fetched."@
}

/// The message of a mutating statement.
pub open spec fn affected_message(kind: Query, rows: nat, elapsed: nat) -> Seq<char> {
    keyword_of(kind) + " "@ + decimal(rows) + " rows affected.\nQuery completed in "@ + decimal(elapsed) + " msec."@
}

/// The headers of a fetch: the first row's column names, none without rows.
pub open spec fn headers_of(rows: Seq<FetchedRow>) -> Seq<Seq<char>> {
    if rows.len() == 0 {
        Seq::empty()
    } else {
        rows[0].columns@.map_values(|c: String| c@)
    }
}

/// The message of an error.
pub open spec fn error_text(e: ExecutionError) -> Seq<char> {
    match e {
        ExecutionError::UnsupportedStatement => "Unsupported query"@,
        ExecutionError::Backend(m) => m@,
    }
}

/// The number of rows a result reports.
pub open spec fn result_rows(r: ExecutionResult) -> usize {
    match r {
        ExecutionResult::Affected { rows, .. } => rows,
        ExecutionResult::Data { meta, .. } => meta.rows,
    }
}

/// The message a result carries.
pub open spec fn result_message(r: ExecutionResult) -> Seq<char> {
    match r {
        ExecutionResult::Affected { message, .. } => message@,
        ExecutionResult::Data { meta, .. } => meta.message@,
    }
}

impl ExecutionError {
    /// The text shown for the error.
    pub fn message(&self) -> (r: String)
        ensures
            r@ == error_text(*self),
    {
        match self {
            ExecutionError::UnsupportedStatement => String::from_str("Unsupported query"),
            ExecutionError::Backend(m) => m.clone(),
        }
    }
}

/// Decides what to run: the statement's kind, or the error for a statement
/// whose kind is unknown, which is never sent to the backend.
pub fn plan_query(sql: &str) -> (r: Result<Query, ExecutionError>)
    ensures
        crate::query::classify(sql@) == Query::Unknown ==> r matches Err(ExecutionError::UnsupportedStatement),
        crate::query::classify(sql@) != Query::Unknown ==> r == Ok::<Query, ExecutionError>(crate::query::classify(sql@)),
{
    let kind = Query::from_sql(sql);
    match kind {
        Query::Unknown => Err(ExecutionError::UnsupportedStatement),
        _ => Ok(kind),
    }
}

/// The result of a fetch that took `elapsed` milliseconds: headers from the
/// first row, the rows' cells, their count, and a message with both numbers.
pub fn data_result(fetched: Vec<FetchedRow>, elapsed: u64) -> (r: ExecutionResult)
    ensures
        r matches ExecutionResult::Data { headers, rows, meta } && {
            &&& headers@.map_values(|h: String| h@) == headers_of(fetched@)
            &&& rows@.len() == fetched@.len()
            &&& forall|i: int| 0 <= i < rows@.len() ==> #[trigger] rows@[i] == fetched@[i].cells
            &&& meta.rows == fetched@.len()
            &&& meta.message@ == data_message(fetched@.len(), elapsed as nat)
        },
{
    let count = fetched.len();
    let mut headers: Vec<String> = Vec::new();
    if count > 0 {
        let first = &fetched[0].columns;
        let mut c: usize = 0;
        while c < first.len()
            invariant
                c <= first@.len(),
                headers@.len() == c,
                forall|k: int| 0 <= k < c ==> (#[trigger] headers@[k])@ == first@[k]@,
            decreases first@.len() - c,
        {
            headers.push(first[c].clone());
            c += 1;
        }
        proof {
            assert(headers@.map_values(|h: String| h@) =~= first@.map_values(|c: String| c@));
        }
    } else {
        proof {
            assert(headers@.map_values(|h: String| h@) =~= Seq::<Seq<char>>::empty());
        }
    }
    let mut rows: Vec<Vec<CellValue>> = Vec::new();
    let mut source = fetched;
    let ghost all_rows = source@;
    let mut remaining: Vec<Vec<CellValue>> = Vec::new();
    while source.len() > 0
        invariant
            source@ == all_rows.take(source@.len() as int),
            source@.len() <= all_rows.len(),
            remaining@.len() + source@.len() == all_rows.len(),
            forall|k: int| 0 <= k < remaining@.len() ==> #[trigger] remaining@[k] == all_rows[all_rows.len() - 1 - k].cells,
        decreases source@.len(),
    {
        let row = source.pop().unwrap();
        proof {
            assert(source@ =~= all_rows.take(source@.len() as int));
        }
        remaining.push(row.cells);
    }
    let total = remaining.len();
    while remaining.len() > 0
        invariant
            total == all_rows.len(),
            rows@.len() + remaining@.len() == total,
            forall|k: int| 0 <= k < remaining@.len() ==> #[trigger] remaining@[k] == all_rows[total - 1 - k].cells,
            forall|k: int| 0 <= k < rows@.len() ==> #[trigger] rows@[k] == all_rows[k].cells,
        decreases remaining@.len(),
    {
        let cells = remaining.pop().unwrap();
        rows.push(cells);
    }
    let ms = decimal_text(elapsed);
    let n = decimal_text(count as u64);
    let mut message = join3("Successfully run. Total query runtime: ", ms.as_str(), " ms.\n");
    message.append(n.as_str());
    message.append(" rows fetched.");
    ExecutionResult::Data { headers, rows, meta: DataMeta { rows: count, message } }
}

/// The result of a mutating statement of kind `kind` that affected `rows`
/// rows in `elapsed` milliseconds.
pub fn format_affected_result(kind: Query, rows: usize, elapsed: u64) -> (r: ExecutionResult)
    ensures
        r matches ExecutionResult::Affected { rows: n, message } && n == rows && message@ == affected_message(
            kind,
            rows as nat,
            elapsed as nat,
        ),
{
    let count = decimal_text(rows as u64);
    let ms = decimal_text(elapsed);
    let mut message = join3(kind.keyword(), " ", count.as_str());
    message.append(" rows affected.\nQuery completed in ");
    message.append(ms.as_str());
    message.append(" msec.");
    ExecutionResult::Affected { rows, message }
}

/// Turns what the backend returned for a statement of kind `kind` into the
/// pipeline's result; a backend error is passed on unchanged.
pub fn execution_result(kind: Query, outcome: BackendOutcome, elapsed: u64) -> (r: Result<ExecutionResult, ExecutionError>)
    ensures
        match outcome {
            BackendOutcome::Rows(fetched) => r matches Ok(ExecutionResult::Data { headers, rows, meta }) && {
                &&& headers@.map_values(|h: String| h@) == headers_of(fetched@)
                &&& rows@.len() == fetched@.len()
                &&& forall|i: int| 0 <= i < rows@.len() ==> #[trigger] rows@[i] == fetched@[i].cells
                &&& meta.rows == fetched@.len()
                &&& meta.message@ == data_message(fetched@.len(), elapsed as nat)
            },
            BackendOutcome::Affected(n) => r matches Ok(ExecutionResult::Affected { rows, message }) && rows as int == (
            if n > usize::MAX { usize::MAX as int } else { n as int }) && message@ == affected_message(
                kind,
                rows as nat,
                elapsed as nat,
            ),
            BackendOutcome::Failed(m) => r matches Err(ExecutionError::Backend(e)) && e@ == m@,
        },
{
    match outcome {
        BackendOutcome::Rows(fetched) => Ok(data_result(fetched, elapsed)),
        BackendOutcome::Affected(n) => {
            let rows: usize = if n > usize::MAX as u64 { usize::MAX } else { n as usize };
            Ok(format_affected_result(kind, rows, elapsed))
        },
        BackendOutcome::Failed(m) => Err(ExecutionError::Backend(m)),
    }
}

/// What showing an outcome does to the table, but for its history view: a
/// fetch replaces headers and rows, recomputes the widths and goes to the
/// first page and row (the messages tab when there are none); a mutating
/// statement leaves an empty table on the messages tab; both carry the
/// result's message. An error keeps the data, enters the error state and
/// switches to the messages tab.
pub open spec fn outcome_shown(
    before: DataTable,
    after: DataTable,
    outcome: Result<ExecutionResult, ExecutionError>,
    elapsed: u64,
) -> bool {
    match outcome {
        Ok(r) => {
            &&& after.loading_state is Idle
            &&& after.elapsed == elapsed
            &&& after.current_page == 0
            &&& after.selected_column is None
            &&& after.horizontal_scroll == 0
            &&& after.color_index == before.color_index
            &&& after.history_selected == before.history_selected
            &&& after.status_message matches Some(m) && m@ == result_message(r)
            &&& after.min_column_widths@ == after.column_widths@
            &&& match r {
                ExecutionResult::Data { headers, rows, .. } => {
                    &&& after.headers == headers
                    &&& after.rows == rows
                    &&& fresh_widths(after.column_widths@, headers@, rows@)
                    &&& after.selected_row == (if rows@.len() == 0 { None } else { Some(0usize) })
                    &&& after.tab_index == (if rows@.len() == 0 { MESSAGES_TAB } else { DATA_TAB })
                },
                ExecutionResult::Affected { .. } => {
                    &&& after.headers@.len() == 0
                    &&& after.rows@.len() == 0
                    &&& after.column_widths@.len() == 0
                    &&& after.selected_row is None
                    &&& after.tab_index == MESSAGES_TAB
                },
            }
        },
        Err(e) => {
            &&& after.loading_state matches LoadingState::Error(m) && m@ == error_text(e)
            &&& after.status_message matches Some(m) && m@ == "Error: "@ + error_text(e)
            &&& after == (DataTable {
                loading_state: after.loading_state,
                status_message: after.status_message,
                tab_index: MESSAGES_TAB,
                query_history: after.query_history,
                ..before
            })
        },
    }
}

impl QueryLog {
    /// Records an attempted query: a success replaces the statistics and both
    /// outcomes append one history entry, with the success flag and row count.
    pub fn record_outcome(
        &mut self,
        query: String,
        connection_name: Option<String>,
        timestamp: i64,
        elapsed: u64,
        outcome: &Result<ExecutionResult, ExecutionError>,
    )
        ensures
            final(self).history@ == old(self).history@.push(
                QueryHistoryEntry {
                    query,
                    connection_name,
                    timestamp,
                    success: outcome is Ok,
                    rows_affected: match outcome {
                        Ok(r) => result_rows(*r),
                        Err(_) => 0,
                    },
                    execution_time: elapsed,
                },
            ),
            final(self).stats == match outcome {
                Ok(r) => Some(QueryStats { rows: result_rows(*r), elapsed }),
                Err(_) => old(self).stats,
            },
    {
        let (success, rows) = match outcome {
            Ok(ExecutionResult::Affected { rows, .. }) => (true, *rows),
            Ok(ExecutionResult::Data { meta, .. }) => (true, meta.rows),
            Err(_) => (false, 0),
        };
        if success {
            self.update_query_stats(rows, elapsed);
        }
        self.add_to_history(
            QueryHistoryEntry {
                query,
                connection_name,
                timestamp,
                success,
                rows_affected: rows,
                execution_time: elapsed,
            },
        );
    }
}

impl DataTable {
    /// Shows the outcome of a query: a fetch shows its rows, a mutating
    /// statement an empty table, both with the result's message; an error
    /// switches to the error state. The history is refreshed either way.
    pub fn apply_outcome(
        &mut self,
        outcome: Result<ExecutionResult, ExecutionError>,
        elapsed: u64,
        query_history: Vec<QueryHistoryEntry>,
    )
        requires
            old(self).wf(),
        ensures
            final(self).wf(),
            final(self).query_history == query_history,
            outcome_shown(*old(self), *final(self), outcome, elapsed),
    {
        match outcome {
            Ok(ExecutionResult::Data { headers, rows, meta }) => {
                self.finish_loading(headers, rows, elapsed, query_history);
                self.status_message = Some(meta.message);
            },
            Ok(ExecutionResult::Affected { message, .. }) => {
                self.finish_loading(Vec::new(), Vec::new(), elapsed, query_history);
                self.status_message = Some(message);
            },
            Err(e) => {
                let text = e.message();
                self.set_error_state(text);
                self.query_history = query_history;
            },
        }
    }
}

} // verus!
