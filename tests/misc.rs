use lazydata::cell::{cell_text, CellValue};
use lazydata::command::{CommandCategory, Mode};
use lazydata::database::{database_checkers, Column, ConnectionDetails, DatabaseType, Displayable};
use lazydata::focus::Focus;
use lazydata::key_map_guide::{
    get_data_table_keymaps, get_editor_keymaps, get_global_keymaps, get_sidebar_keymaps, guide_rows, keymaps_of, GuideRow,
};
use lazydata::text::{decimal_text, is_null_text};

#[test]
fn focus_cycles_through_panels() {
    assert_eq!(Focus::Sidebar.next(), Focus::Editor);
    assert_eq!(Focus::Editor.next(), Focus::Table);
    assert_eq!(Focus::Table.next(), Focus::Sidebar);
}

#[test]
fn help_categories_in_order() {
    let cats = CommandCategory::help_command_categories();
    assert_eq!(cats, [CommandCategory::Global, CommandCategory::Editor, CommandCategory::DataTable, CommandCategory::Sidebar]);
    assert_eq!(CommandCategory::DataTable.name(), "DataTable");
}

#[test]
fn keymap_tables() {
    assert_eq!(get_global_keymaps()[2], ("F5", "Execute query"));
    assert_eq!(get_data_table_keymaps().len(), 21);
    assert_eq!(get_sidebar_keymaps()[0], ("Enter / Space", "Toggle selected"));
    assert_eq!(get_editor_keymaps()[13], ("Insert Mode", ""));
    assert_eq!(keymaps_of(CommandCategory::Global), get_global_keymaps());
}

#[test]
fn mode_labels() {
    assert_eq!(Mode::Normal.label(), "NORMAL");
    assert_eq!(Mode::Operator('d').label(), "OPERATOR(d)");
}

#[test]
fn cell_coercion() {
    assert_eq!(CellValue::Integer(i64::MIN).display_text(), "-9223372036854775808");
    assert_eq!(CellValue::Integer(0).display_text(), "0");
    assert_eq!(CellValue::Boolean(false).display_text(), "false");
    assert_eq!(CellValue::Binary(vec![0x00, 0xff, 0x10]).display_text(), "00ff10");
    assert_eq!(CellValue::Null.display_text(), "");
    assert_eq!(CellValue::Rendered("3.5".to_string()).display_text(), "3.5");
    assert_eq!(cell_text(&vec![CellValue::Integer(1)], 3), "");
    assert_eq!(decimal_text(18_446_744_073_709_551_615), "18446744073709551615");
}

#[test]
fn null_words() {
    assert!(is_null_text("NULL"));
    assert!(is_null_text("[Null]"));
    assert!(!is_null_text("nul"));
    assert!(!is_null_text("nullx"));
}

#[test]
fn connection_strings() {
    let d = ConnectionDetails {
        host: Some("localhost".to_string()),
        user: Some("me".to_string()),
        password: Some("pw".to_string()),
        database: Some("shop".to_string()),
    };
    assert_eq!(d.connection_string(DatabaseType::PostgreSQL), "postgres://me:pw@localhost/shop");
    let d = ConnectionDetails { host: Some("db.sqlite".to_string()), user: None, password: None, database: None };
    assert_eq!(d.connection_string(DatabaseType::SQLite), "sqlite://db.sqlite");
    assert_eq!(DatabaseType::MySQL.name(), "MySQL");
}

#[test]
fn column_label_and_checkers() {
    let c = Column { name: "id".to_string(), data_type: "integer".to_string() };
    assert_eq!(Displayable::to_string(&c), "id (integer)");
    assert_eq!(Displayable::name(&c), "id");
    let checkers = database_checkers();
    assert_eq!(checkers.len(), 3);
    assert_eq!(checkers[1].command, "mysql");
    assert_eq!(checkers[2].args, &["--version"]);
}

#[test]
fn guide_rows_pair_bindings_and_keep_headings_alone() {
    let editor = get_editor_keymaps();
    let rows = guide_rows(&editor, CommandCategory::Editor);
    assert_eq!(rows[0], GuideRow::Heading("Normal Mode"));
    assert_eq!(rows[1], GuideRow::Pair(("  h/j/k/l", "Move cursor"), Some(("  w/b", "Move by word"))));
    assert_eq!(rows[6], GuideRow::Pair(("  u", "Undo"), Some(("  Ctrl+r", "Redo"))));
    assert_eq!(rows[7], GuideRow::Heading("Insert Mode"));
    assert_eq!(rows[8], GuideRow::Pair(("  Esc/Ctrl+c", "Enter normal mode"), None));
    assert_eq!(rows[9], GuideRow::Heading("Visual Mode"));
    assert_eq!(rows.len(), 11);
    let global = guide_rows(&get_global_keymaps(), CommandCategory::Global);
    assert_eq!(global, vec![
        GuideRow::Pair(("q", "Quit"), Some(("Tab", "Toggle focus"))),
        GuideRow::Pair(("F5", "Execute query"), Some(("?", "Show key map"))),
    ]);
}
