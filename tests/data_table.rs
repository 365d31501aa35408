use lazydata::cell::CellValue;
use lazydata::command::Command;
use lazydata::data_table::{DataTable, LoadingState, DATA_TAB, MESSAGES_TAB, PAGE_SIZE};

fn headers(names: &[&str]) -> Vec<String> {
    names.iter().map(|s| s.to_string()).collect()
}

fn numbered_rows(n: usize, cols: usize) -> Vec<Vec<CellValue>> {
    (0..n).map(|i| (0..cols).map(|c| CellValue::Integer((i * 10 + c) as i64)).collect()).collect()
}

#[test]
fn jump_to_absolute_row_is_idempotent() {
    let mut t = DataTable::new(headers(&["a"]), numbered_rows(250, 1), vec![]);
    t.jump_to_absolute_row(137);
    assert_eq!(t.current_page, 137 / PAGE_SIZE);
    assert_eq!(t.selected_row, Some(137 % PAGE_SIZE));
    let (page, row) = (t.current_page, t.selected_row);
    t.jump_to_absolute_row(137);
    assert_eq!((t.current_page, t.selected_row), (page, row));
    t.jump_to_absolute_row(10_000);
    assert_eq!(t.current_page, 2);
    assert_eq!(t.selected_row, Some(49));
}

#[test]
fn jump_on_empty_table_changes_nothing() {
    let mut t = DataTable::new(vec![], vec![], vec![]);
    t.jump_to_absolute_row(5);
    assert_eq!(t.current_page, 0);
    assert_eq!(t.selected_row, None);
}

#[test]
fn column_widths_have_floor_and_cover_header() {
    let t = DataTable::new(
        headers(&["id", "a_long_header_name", "x"]),
        vec![vec![CellValue::Integer(7), CellValue::Text("short".to_string()), CellValue::Null]],
        vec![],
    );
    assert_eq!(t.column_widths, vec![4, 20, 3]);
    for (w, h) in t.column_widths.iter().zip(t.headers.iter()) {
        assert!(*w >= 3);
        assert!(*w as usize >= h.len());
    }
    assert_eq!(t.min_column_widths, t.column_widths);
}

#[test]
fn column_widths_use_display_width() {
    let t = DataTable::new(headers(&["h"]), vec![vec![CellValue::Text("日本語".to_string())]], vec![]);
    assert_eq!(t.column_widths, vec![8]);
}

#[test]
fn column_widths_sample_first_hundred_rows() {
    let mut rows: Vec<Vec<CellValue>> = (0..100).map(|_| vec![CellValue::Text("ab".to_string())]).collect();
    rows.push(vec![CellValue::Text("a much longer value".to_string())]);
    let t = DataTable::new(headers(&["h"]), rows, vec![]);
    assert_eq!(t.column_widths, vec![4]);
}

#[test]
fn pages_clamp_and_rows_wrap() {
    let mut t = DataTable::new(headers(&["a"]), numbered_rows(150, 1), vec![]);
    assert_eq!(t.total_pages(), 2);
    t.previous_page();
    assert_eq!(t.current_page, 0);
    t.next_page();
    assert_eq!(t.current_page, 1);
    assert_eq!(t.selected_row, Some(0));
    t.next_page();
    assert_eq!(t.current_page, 1);
    t.previous_row();
    assert_eq!(t.selected_row, Some(49));
    t.next_row();
    assert_eq!(t.selected_row, Some(0));
    assert_eq!(t.get_current_page_rows().len(), 50);
    assert_eq!(t.get_current_page_rows()[0][0], "1000");
}

#[test]
fn empty_table_has_one_page() {
    let t = DataTable::new(vec![], vec![], vec![]);
    assert_eq!(t.total_pages(), 1);
    assert!(t.is_empty());
    assert_eq!(t.tab_index, MESSAGES_TAB);
}

#[test]
fn copy_cell_maps_displayed_column() {
    let mut t = DataTable::new(headers(&["c0", "c1", "c2", "c3"]), numbered_rows(10, 4), vec![]);
    t.jump_to_absolute_row(5);
    t.selected_column = Some(2);
    t.scroll_right();
    assert_eq!(t.horizontal_scroll, 1);
    assert_eq!(t.copy_selected_cell(), Some("52".to_string()));
    t.selected_column = Some(0);
    assert_eq!(t.copy_selected_cell(), Some("6".to_string()));
    t.selected_column = Some(4);
    assert_eq!(t.copy_selected_cell(), None);
}

#[test]
fn copy_cell_command_sets_status() {
    let mut t = DataTable::new(headers(&["a"]), vec![vec![CellValue::Binary(vec![0xde, 0xad, 0x01])]], vec![]);
    t.next_column();
    t.next_column();
    assert_eq!(t.selected_column, Some(1));
    let clip = t.handle_command(Command::DataTableCopySelectedCell);
    assert_eq!(clip, Some("dead01".to_string()));
    assert_eq!(t.status_message, Some("Copied: dead01".to_string()));
}

#[test]
fn copy_row_as_json_with_nulls() {
    let rows = vec![vec![
        CellValue::Text("NULL".to_string()),
        CellValue::Text("[null]".to_string()),
        CellValue::Text("value".to_string()),
        CellValue::Boolean(true),
    ]];
    let t = DataTable::new(headers(&["a", "b", "c", "d"]), rows, vec![]);
    let json = t.copy_selected_row().expect("a row is selected");
    assert!(json.contains("\"a\": null"));
    assert!(json.contains("\"b\": null"));
    assert!(json.contains("\"c\": \"value\""));
    assert!(json.contains("\"d\": \"true\""));
    assert!(json.contains('\n'));
}

#[test]
fn adjust_width_keeps_floor() {
    let mut t = DataTable::new(headers(&["abc", "d"]), numbered_rows(3, 2), vec![]);
    assert_eq!(t.column_widths, vec![5, 4]);
    t.selected_column = Some(1);
    t.adjust_column_width(1);
    assert_eq!(t.column_widths, vec![6, 4]);
    t.adjust_column_width(-1);
    t.adjust_column_width(-1);
    assert_eq!(t.column_widths, vec![5, 4]);
    t.selected_column = Some(0);
    t.adjust_column_width(3);
    assert_eq!(t.column_widths, vec![5, 4]);
}

#[test]
fn scroll_is_bounded_by_columns() {
    let mut t = DataTable::new(headers(&["a", "b"]), numbered_rows(1, 2), vec![]);
    t.scroll_left();
    assert_eq!(t.horizontal_scroll, 0);
    t.scroll_right();
    t.scroll_right();
    assert_eq!(t.horizontal_scroll, 1);
    t.jump_to_column(0);
    assert_eq!(t.horizontal_scroll, 0);
}

#[test]
fn columns_colors_and_tabs_cycle() {
    let mut t = DataTable::new(headers(&["a", "b"]), numbered_rows(1, 2), vec![]);
    t.previous_column();
    assert_eq!(t.selected_column, Some(2));
    t.next_column();
    assert_eq!(t.selected_column, Some(2));
    t.previous_color();
    assert_eq!(t.color_index, 3);
    t.next_color();
    assert_eq!(t.color_index, 0);
    t.handle_command(Command::DataTablePreviousTab);
    assert_eq!(t.tab_index, 2);
    t.handle_command(Command::DataTableNextTab);
    assert_eq!(t.tab_index, DATA_TAB);
    t.handle_command(Command::DataTableSetTabIndex(7));
    assert_eq!(t.tab_index, DATA_TAB);
}

#[test]
fn loading_states() {
    let mut t = DataTable::new(vec![], vec![], vec![]);
    t.start_loading();
    assert!(matches!(t.loading_state, LoadingState::Loading));
    assert_eq!(t.tab_index, DATA_TAB);
    t.finish_loading(headers(&["a"]), numbered_rows(3, 1), 12, vec![]);
    assert!(matches!(t.loading_state, LoadingState::Idle));
    assert_eq!(t.status_message, Some("Query complete in 12 ms.".to_string()));
    assert_eq!(t.selected_row, Some(0));
    assert_eq!(t.tab_index, DATA_TAB);
    t.set_error_state("boom".to_string());
    assert!(matches!(&t.loading_state, LoadingState::Error(m) if m == "boom"));
    assert_eq!(t.status_message, Some("Error: boom".to_string()));
    assert_eq!(t.tab_index, MESSAGES_TAB);
    assert_eq!(t.rows.len(), 3);
}
