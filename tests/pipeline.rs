use lazydata::app_state::{AppState, Effect};
use lazydata::cell::CellValue;
use lazydata::command::Command;
use lazydata::data_table::{LoadingState, MESSAGES_TAB};
use lazydata::executor::{
    data_result, execution_result, format_affected_result, plan_query, BackendOutcome, ExecutionError,
    ExecutionResult, FetchedRow,
};
use lazydata::focus::Focus;
use lazydata::keys::{KeyCode, KeyEvent};
use lazydata::query::Query;
use lazydata::state::{QueryHistoryEntry, QueryLog};

#[test]
fn classify_statements() {
    assert_eq!(Query::from_sql("select * from t"), Query::Select);
    assert_eq!(Query::from_sql("  INSERT into t values (1)"), Query::Insert);
    assert_eq!(Query::from_sql("Update t set x=1"), Query::Update);
    assert_eq!(Query::from_sql("DELETE FROM t"), Query::Delete);
    assert_eq!(Query::from_sql("vacuum t"), Query::Unknown);
    assert_eq!(Query::from_sql("\n\tSeLeCt 1"), Query::Select);
    assert_eq!(Query::from_sql("selection"), Query::Unknown);
    assert_eq!(Query::from_sql(""), Query::Unknown);
}

#[test]
fn unknown_statement_is_unsupported() {
    assert!(matches!(plan_query("vacuum t"), Err(ExecutionError::UnsupportedStatement)));
    assert!(matches!(plan_query("select 1"), Ok(Query::Select)));
    assert_eq!(ExecutionError::UnsupportedStatement.message(), "Unsupported query");
}

#[test]
fn empty_select_result() {
    let r = data_result(vec![], 7);
    match r {
        ExecutionResult::Data { headers, rows, meta } => {
            assert!(headers.is_empty());
            assert!(rows.is_empty());
            assert_eq!(meta.rows, 0);
            assert!(meta.message.contains("0 rows"));
            assert_eq!(meta.message, "Successfully run. Total query runtime: 7 ms.\n0 rows fetched.");
        }
        ExecutionResult::Affected { .. } => panic!("a fetch yields data"),
    }
    let mut app = AppState::new(None, vec![]);
    assert!(app.begin_query("select * from t where false".to_string()));
    app.finish_query("select * from t where false".to_string(), 0, 7, Ok(data_result(vec![], 7)));
    assert!(matches!(app.data_table.loading_state, LoadingState::Idle));
    assert_eq!(app.data_table.total_pages(), 1);
    assert_eq!(app.data_table.tab_index, MESSAGES_TAB);
}

#[test]
fn select_headers_come_from_first_row() {
    let fetched = vec![
        FetchedRow { columns: vec!["id".to_string(), "name".to_string()], cells: vec![CellValue::Integer(1), CellValue::Text("a".to_string())] },
        FetchedRow { columns: vec!["id".to_string(), "name".to_string()], cells: vec![CellValue::Integer(-2), CellValue::Null] },
    ];
    match data_result(fetched, 1234) {
        ExecutionResult::Data { headers, rows, meta } => {
            assert_eq!(headers, vec!["id".to_string(), "name".to_string()]);
            assert_eq!(rows.len(), 2);
            assert_eq!(rows[1][0].display_text(), "-2");
            assert_eq!(meta.rows, 2);
            assert!(meta.message.contains("1234 ms"));
        }
        ExecutionResult::Affected { .. } => panic!("a fetch yields data"),
    }
}

#[test]
fn update_affecting_three_rows() {
    let result = format_affected_result(Query::Update, 3, 15);
    match &result {
        ExecutionResult::Affected { rows, message } => {
            assert_eq!(*rows, 3);
            assert!(message.contains('3'));
            assert_eq!(message, "UPDATE 3 rows affected.\nQuery completed in 15 msec.");
        }
        ExecutionResult::Data { .. } => panic!("an update yields a count"),
    }
    let mut app = AppState::new(Some("local".to_string()), vec![]);
    app.finish_query("Update t set x=1".to_string(), 1_700_000_000_000, 15, Ok(result));
    assert_eq!(app.log.history.len(), 1);
    assert!(app.log.history[0].success);
    assert_eq!(app.log.history[0].rows_affected, 3);
    assert_eq!(app.log.history[0].connection_name, Some("local".to_string()));
    assert_eq!(app.log.get_query_stats().map(|s| s.rows), Some(3));
    assert_eq!(app.data_table.query_history.len(), 1);
}

#[test]
fn backend_error_during_execution() {
    let mut app = AppState::new(None, vec![]);
    assert!(app.begin_query("select * from missing".to_string()));
    let outcome = execution_result(Query::Select, BackendOutcome::Failed("relation does not exist".to_string()), 3);
    app.finish_query("select * from missing".to_string(), 0, 3, outcome);
    assert!(matches!(&app.data_table.loading_state, LoadingState::Error(m) if m == "relation does not exist"));
    assert_eq!(app.data_table.tab_index, MESSAGES_TAB);
    assert_eq!(app.log.history.len(), 1);
    assert!(!app.log.history[0].success);
    assert!(app.log.get_query_stats().is_none());
}

#[test]
fn affected_count_from_backend() {
    match execution_result(Query::Delete, BackendOutcome::Affected(2), 0) {
        Ok(ExecutionResult::Affected { rows, message }) => {
            assert_eq!(rows, 2);
            assert_eq!(message, "DELETE 2 rows affected.\nQuery completed in 0 msec.");
        }
        _ => panic!("a delete yields a count"),
    }
}

fn entry(query: &str, conn: Option<&str>) -> QueryHistoryEntry {
    QueryHistoryEntry {
        query: query.to_string(),
        connection_name: conn.map(|s| s.to_string()),
        timestamp: 0,
        success: true,
        rows_affected: 0,
        execution_time: 0,
    }
}

#[test]
fn history_filtered_by_connection() {
    let mut log = QueryLog::new();
    log.add_to_history(entry("a", Some("x")));
    log.add_to_history(entry("b", Some("y")));
    log.add_to_history(entry("c", Some("x")));
    log.add_to_history(entry("d", None));
    let xs: Vec<String> = log.get_history(Some("x".to_string())).into_iter().map(|e| e.query).collect();
    assert_eq!(xs, vec!["a".to_string(), "c".to_string()]);
    assert_eq!(log.get_history(None).len(), 4);
}

#[test]
fn history_rows_select_most_recent_first() {
    let mut app = AppState::new(None, vec![entry("first", None), entry("second", None)]);
    assert_eq!(app.data_table.query_history.len(), 2);
    app.data_table.next_history_row();
    assert_eq!(app.data_table.get_selected_history_query(), Some("second".to_string()));
    app.data_table.previous_history_row();
    assert_eq!(app.data_table.history_selected, Some(1));
    match app.handle_command(Command::DataTableRunSelectedHistoryQuery) {
        Effect::RunQuery(q) => assert_eq!(q, "first"),
        _ => panic!("a selected history row runs its query"),
    }
    match app.handle_command(Command::DataTableCopyQueryToEditor) {
        Effect::QueryToEditor(q) => assert_eq!(q, "first"),
        _ => panic!("a selected history row is copied"),
    }
}

#[test]
fn router_handles_global_commands() {
    let mut app = AppState::new(None, vec![]);
    assert!(matches!(app.handle_key(KeyEvent::press(KeyCode::Tab)), Effect::Nothing));
    assert_eq!(app.focus, Focus::Editor);
    assert!(matches!(app.handle_key(KeyEvent::press(KeyCode::Char('?'))), Effect::Nothing));
    assert!(app.show_key_map);
    app.handle_key(KeyEvent::press(KeyCode::Char('j')));
    assert_eq!(app.key_map_scroll, 1);
    app.handle_key(KeyEvent::press(KeyCode::Char('q')));
    assert!(!app.show_key_map);
    assert!(!app.exit);
    assert!(matches!(app.handle_key(KeyEvent::press(KeyCode::Char('i'))), Effect::Editor(_)));
    assert!(matches!(app.handle_key(KeyEvent::press(KeyCode::F(5))), Effect::ExecuteQuery));
    app.handle_key(KeyEvent::press(KeyCode::Char('q')));
    assert!(app.exit);
    assert!(!app.begin_query(String::new()));
}

#[test]
fn fetched_rows_replace_the_table() {
    let mut app = AppState::new(None, vec![]);
    app.data_table.next_color();
    assert!(app.begin_query("select id from t".to_string()));
    let fetched = vec![
        FetchedRow { columns: vec!["id".to_string()], cells: vec![CellValue::Integer(10)] },
        FetchedRow { columns: vec!["id".to_string()], cells: vec![CellValue::Integer(200000)] },
    ];
    let outcome = execution_result(Query::Select, BackendOutcome::Rows(fetched), 4);
    app.finish_query("select id from t".to_string(), 0, 4, outcome);
    let t = &app.data_table;
    assert_eq!(t.headers, vec!["id".to_string()]);
    assert_eq!(t.rows.len(), 2);
    assert_eq!(t.rows[1][0].display_text(), "200000");
    assert_eq!(t.column_widths, vec![8]);
    assert_eq!(t.selected_row, Some(0));
    assert_eq!(t.current_page, 0);
    assert_eq!(t.tab_index, 0);
    assert_eq!(t.color_index, 1);
    assert_eq!(app.log.get_query_stats().map(|s| (s.rows, s.elapsed)), Some((2, 4)));
    app.finish_query("delete from t".to_string(), 0, 1, Ok(format_affected_result(Query::Delete, 2, 1)));
    assert!(app.data_table.rows.is_empty());
    assert!(app.data_table.headers.is_empty());
    assert_eq!(app.data_table.tab_index, MESSAGES_TAB);
}
