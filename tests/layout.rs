use lazydata::cell::CellValue;
use lazydata::data_table::DataTable;
use lazydata::database::{installed_summary, Column, Database, MetadataCache, Table, TableMetadata};
use lazydata::layout::{sidebar_target, visible_columns, SidebarTarget};
use lazydata::schema_tree::metadata_to_tree_items;
use lazydata::query::Query;

#[test]
fn search_ignores_case_and_moves_selection() {
    let mut rows: Vec<Vec<CellValue>> = (0..150).map(|i| vec![CellValue::Integer(i), CellValue::Text("x".to_string())]).collect();
    rows[120][1] = CellValue::Text("Hello World".to_string());
    let mut t = DataTable::new(vec!["n".to_string(), "s".to_string()], rows, vec![]);
    assert_eq!(t.search_in_table("WORLD"), Some((20, 1)));
    assert_eq!(t.current_page, 1);
    assert_eq!(t.selected_row, Some(20));
    assert_eq!(t.horizontal_scroll, 1);
    assert_eq!(t.search_in_table("absent"), None);
    assert_eq!(t.current_page, 1);
    assert_eq!(t.search_in_table("149"), Some((49, 0)));
}

#[test]
fn visible_columns_fit_width() {
    let widths = vec![10, 10, 10];
    assert_eq!(visible_columns(&widths, 0, 30), 2);
    assert_eq!(visible_columns(&widths, 0, 35), 3);
    assert_eq!(visible_columns(&widths, 2, 15), 1);
    assert_eq!(visible_columns(&widths, 3, 100), 0);
    assert_eq!(visible_columns(&widths, 0, 5), 0);
}

#[test]
fn sidebar_identifiers() {
    assert!(matches!(sidebar_target("db_shop"), SidebarTarget::Database(n) if n == "shop"));
    assert!(matches!(sidebar_target("tbl_shop_orders"),
        SidebarTarget::Table { database, table } if database == "shop" && table == "orders"));
    assert!(matches!(sidebar_target("tbl_shop_orders_columns"),
        SidebarTarget::Table { database, table } if database == "shop" && table == "orders"));
    assert!(matches!(sidebar_target("tbl_shop"), SidebarTarget::Other));
    assert!(matches!(sidebar_target("db_shop_tables"), SidebarTarget::Database(n) if n == "shop_tables"));
    assert!(matches!(sidebar_target("other"), SidebarTarget::Other));
}

#[test]
fn installed_summary_lists_or_explains() {
    assert_eq!(installed_summary(vec!["MySQL".to_string()]), vec!["MySQL".to_string()]);
    assert_eq!(installed_summary(vec![]), vec!["No databases found in your system.".to_string()]);
}

#[test]
fn classification_ignores_case_and_leading_space() {
    for s in ["select 1", "SELECT 1", "SeLeCt 1", " \t\nselect 1"] {
        assert_eq!(Query::from_sql(s), Query::Select);
    }
    assert_eq!(Query::from_sql("dElEtE from t"), Query::from_sql("DELETE from t"));
    assert_eq!(Query::Update.keyword(), "UPDATE");
}

#[test]
fn schema_tree_ids_parse_back() {
    let meta = TableMetadata {
        name: "orders".to_string(),
        columns: vec![Column { name: "id".to_string(), data_type: "int".to_string() }],
        constraints: vec!["orders_pkey".to_string()],
        indexes: vec![],
        rls_policies: vec![],
        rules: vec![],
        triggers: vec![],
        row_count: 1,
        estimated_size: "8 kB".to_string(),
        table_type: "table".to_string(),
    };
    let dbs = vec![Database {
        name: "shop".to_string(),
        tables: vec![
            Table { name: "orders".to_string(), metadata: Some(meta) },
            Table { name: "users".to_string(), metadata: None },
        ],
    }];
    let tree = metadata_to_tree_items(&dbs);
    assert_eq!(tree.len(), 1);
    assert_eq!(tree[0].id, "db_shop");
    let tables = &tree[0].children[0];
    assert_eq!(tables.id, "db_shop_tables");
    let orders = &tables.children[0];
    assert_eq!(orders.id, "tbl_shop_orders");
    assert_eq!(orders.label, "orders (1 row)");
    assert_eq!(orders.children.len(), 6);
    assert_eq!(orders.children[0].id, "tbl_shop_orders_columns");
    assert_eq!(orders.children[0].children[0].id, "tbl_shop_orders_col_id");
    assert_eq!(orders.children[0].children[0].label, "id (int)");
    assert_eq!(orders.children[1].children[0].id, "tbl_shop_orders_Constraints_orders_pkey");
    assert!(orders.children[2].children.is_empty());
    assert_eq!(tables.children[1].label, "users");
    assert!(matches!(sidebar_target(&orders.id),
        SidebarTarget::Table { database, table } if database == "shop" && table == "orders"));
    assert!(matches!(sidebar_target(&tree[0].id), SidebarTarget::Database(n) if n == "shop"));
}

fn sample_metadata(name: &str) -> TableMetadata {
    TableMetadata {
        name: name.to_string(),
        columns: vec![],
        constraints: vec![],
        indexes: vec![],
        rls_policies: vec![],
        rules: vec![],
        triggers: vec![],
        row_count: 3,
        estimated_size: "N/A".to_string(),
        table_type: "table".to_string(),
    }
}

#[test]
fn metadata_cache_finds_fetched_tables() {
    let mut cache = MetadataCache::new();
    assert_eq!(cache.find(&"shop".to_string(), &"orders".to_string()), None);
    cache.insert("shop".to_string(), "orders".to_string(), sample_metadata("orders"));
    cache.insert("shop".to_string(), "users".to_string(), sample_metadata("users"));
    assert_eq!(cache.find(&"shop".to_string(), &"users".to_string()), Some(1));
    assert_eq!(cache.entries[1].2.name, "users");
    assert_eq!(cache.find(&"other".to_string(), &"users".to_string()), None);
}

#[test]
fn uninspected_tables_are_leaves() {
    let dbs = vec![Database {
        name: "d".to_string(),
        tables: vec![
            Table { name: "a".to_string(), metadata: None },
            Table { name: "b".to_string(), metadata: Some(sample_metadata("b")) },
        ],
    }];
    let tree = metadata_to_tree_items(&dbs);
    let tables = &tree[0].children[0].children;
    assert!(tables[0].children.is_empty());
    assert_eq!(tables[1].children.len(), 6);
    assert_eq!(tables[1].label, "b (3 rows)");
}
