//! The schema browser's tree: databases, their tables and what is known of
//! each table, as nodes with the identifiers that `sidebar_target` reads.

use vstd::prelude::*;
use vstd::string::*;
use crate::cell::{signed_decimal, signed_decimal_text};
use crate::database::{Database, Table, TableMetadata};
use crate::layout::{after_segment, segment, starts_with, target_of};
use crate::text::{join2, join3};

verus! {

/// A node of the tree: its identifier, its label and its children.
pub struct SchemaNode {
    pub id: String,
    pub label: String,
    pub children: Vec<SchemaNode>,
}

/// The identifier of a database's node.
pub open spec fn db_id(db: Seq<char>) -> Seq<char> {
    "db_"@ + db
}

/// The identifier of a table's node.
pub open spec fn table_id(db: Seq<char>, table: Seq<char>) -> Seq<char> {
    "tbl_"@ + db + "_"@ + table
}

/// The label of an inspected table: its name and estimated row count.
pub open spec fn table_label(name: Seq<char>, rows: i64) -> Seq<char> {
    name + " ("@ + signed_decimal(rows as int) + (if rows == 1 { " row)"@ } else { " rows)"@ })
}

fn leaf(id: String, label: String) -> (r: SchemaNode)
    ensures
        r.id == id,
        r.label == label,
        r.children@.len() == 0,
{
    SchemaNode { id, label, children: Vec::new() }
}

/// A category of a table (constraints, indexes, ...): a node `parent_label`
/// with one leaf per item, identified as `parent_label_item`.
pub fn build_category_node(parent: &str, label: &str, items: &Vec<String>) -> (r: SchemaNode)
    ensures
        r.id@ == parent@ + "_"@ + label@,
        r.label@ == label@,
        r.children@.len() == items@.len(),
        forall|i: int|
            0 <= i < items@.len() ==> (#[trigger] r.children@[i]).id@ == r.id@ + "_"@ + items@[i]@
                && r.children@[i].label@ == items@[i]@ && r.children@[i].children@.len() == 0,
{
    let id = join3(parent, "_", label);
    let mut children: Vec<SchemaNode> = Vec::new();
    let mut i: usize = 0;
    while i < items.len()
        invariant
            i <= items@.len(),
            id@ == parent@ + "_"@ + label@,
            children@.len() == i,
            forall|j: int|
                0 <= j < i ==> (#[trigger] children@[j]).id@ == id@ + "_"@ + items@[j]@ && children@[j].label@
                    == items@[j]@ && children@[j].children@.len() == 0,
        decreases items@.len() - i,
    {
        let child_id = join3(id.as_str(), "_", items[i].as_str());
        children.push(leaf(child_id, items[i].clone()));
        i += 1;
    }
    SchemaNode { id, label: String::from_str(label), children }
}

fn column_node(table_id: &str, name: &String, label: String) -> (r: SchemaNode)
    ensures
        r.id@ == table_id@ + "_col_"@ + name@,
        r.label == label,
        r.children@.len() == 3,
{
    let id = join3(table_id, "_col_", name.as_str());
    let mut children: Vec<SchemaNode> = Vec::new();
    children.push(leaf(join2(id.as_str(), "_columns"), String::from_str("Columns")));
    children.push(leaf(join2(id.as_str(), "_constraints"), String::from_str("Constraints")));
    children.push(leaf(join2(id.as_str(), "_other"), String::from_str("Other")));
    SchemaNode { id, label, children }
}

fn inspected_children(id: &str, metadata: &TableMetadata) -> (r: Vec<SchemaNode>)
    ensures
        r@.len() == 6,
        r@[0].id@ == id@ + "_columns"@,
        r@[0].children@.len() == metadata.columns@.len(),
{
    let columns_id = join2(id, "_columns");
    let mut column_nodes: Vec<SchemaNode> = Vec::new();
    let mut i: usize = 0;
    while i < metadata.columns.len()
        invariant
            i <= metadata.columns@.len(),
            column_nodes@.len() == i,
        decreases metadata.columns@.len() - i,
    {
        let c = &metadata.columns[i];
        column_nodes.push(column_node(id, &c.name, c.label()));
        i += 1;
    }
    let mut r: Vec<SchemaNode> = Vec::new();
    r.push(SchemaNode { id: columns_id, label: String::from_str("Columns"), children: column_nodes });
    r.push(build_category_node(id, "Constraints", &metadata.constraints));
    r.push(build_category_node(id, "Indexes", &metadata.indexes));
    r.push(build_category_node(id, "RLS Policies", &metadata.rls_policies));
    r.push(build_category_node(id, "Rules", &metadata.rules));
    r.push(build_category_node(id, "Triggers", &metadata.triggers));
    r
}

/// The node of `table` in database `db`: its identifier, and a leaf with the
/// table's name exactly when no metadata is known, else labelled with the row
/// estimate over six children.
pub open spec fn table_node_shape(node: SchemaNode, db: String, table: Table) -> bool {
    &&& node.id@ == table_id(db@, table.name@)
    &&& (node.children@.len() == 0) == (table.metadata is None)
    &&& match table.metadata {
        None => node.label@ == table.name@,
        Some(m) => node.label@ == table_label(m.name@, m.row_count) && node.children@.len() == 6,
    }
}

/// A table's node: a leaf with its name until inspected, then labelled with
/// its row estimate, over its columns and five categories.
pub fn table_node(db: &String, table: &Table) -> (r: SchemaNode)
    ensures
        table_node_shape(r, *db, *table),
{
    let id = join3("tbl_", db.as_str(), "_");
    let mut id = id;
    id.append(table.name.as_str());
    match &table.metadata {
        None => leaf(id, table.name.clone()),
        Some(m) => {
            let children = inspected_children(id.as_str(), m);
            let count = signed_decimal_text(m.row_count);
            let mut label = join3(m.name.as_str(), " (", count.as_str());
            label.append(if m.row_count == 1 { " row)" } else { " rows)" });
            SchemaNode { id, label, children }
        },
    }
}

/// The whole tree: one node per database, holding a `Tables` node with one
/// node per fetched table.
pub fn metadata_to_tree_items(databases: &Vec<Database>) -> (r: Vec<SchemaNode>)
    ensures
        r@.len() == databases@.len(),
        forall|i: int|
            0 <= i < r@.len() ==> {
                let db = databases@[i];
                let node = #[trigger] r@[i];
                &&& node.id@ == db_id(db.name@)
                &&& node.label@ == db.name@
                &&& node.children@.len() == 1
                &&& node.children@[0].id@ == db_id(db.name@) + "_tables"@
                &&& node.children@[0].children@.len() == db.tables@.len()
                &&& forall|j: int|
                    0 <= j < db.tables@.len() ==> table_node_shape(#[trigger] node.children@[0].children@[j], db.name, db.tables@[j])
            },
{
    let mut r: Vec<SchemaNode> = Vec::new();
    let mut i: usize = 0;
    while i < databases.len()
        invariant
            i <= databases@.len(),
            r@.len() == i,
            forall|k: int|
                0 <= k < i ==> {
                    let db = databases@[k];
                    let node = #[trigger] r@[k];
                    &&& node.id@ == db_id(db.name@)
                    &&& node.label@ == db.name@
                    &&& node.children@.len() == 1
                    &&& node.children@[0].id@ == db_id(db.name@) + "_tables"@
                    &&& node.children@[0].children@.len() == db.tables@.len()
                    &&& forall|j: int|
                        0 <= j < db.tables@.len() ==> table_node_shape(#[trigger] node.children@[0].children@[j], db.name, db.tables@[j])
                },
        decreases databases@.len() - i,
    {
        let db = &databases[i];
        let id = join2("db_", db.name.as_str());
        let tables_id = join2(id.as_str(), "_tables");
        let mut tables: Vec<SchemaNode> = Vec::new();
        let mut j: usize = 0;
        while j < db.tables.len()
            invariant
                j <= db.tables@.len(),
                tables@.len() == j,
                forall|k: int|
                    0 <= k < j ==> table_node_shape(#[trigger] tables@[k], db.name, db.tables@[k]),
            decreases db.tables@.len() - j,
        {
            tables.push(table_node(&db.name, &db.tables[j]));
            j += 1;
        }
        let mut children: Vec<SchemaNode> = Vec::new();
        children.push(SchemaNode { id: tables_id, label: String::from_str("Tables"), children: tables });
        r.push(SchemaNode { id, label: db.name.clone(), children });
        i += 1;
    }
    r
}

/// Text without `_`.
pub open spec fn no_underscore(s: Seq<char>) -> bool {
    forall|i: int| 0 <= i < s.len() ==> s[i] != '_'
}

proof fn lemma_segment_whole(s: Seq<char>)
    requires
        no_underscore(s),
    ensures
        segment(s) == s,
    decreases s.len(),
{
    if s.len() > 0 {
        lemma_segment_whole(s.drop_first());
        assert(seq![s[0]] + s.drop_first() =~= s);
    }
}

proof fn lemma_segment_stops(s: Seq<char>, rest: Seq<char>)
    requires
        no_underscore(s),
    ensures
        segment(s + seq!['_'] + rest) == s,
    decreases s.len(),
{
    let t = s + seq!['_'] + rest;
    if s.len() == 0 {
        assert(t[0] == '_');
    } else {
        assert(t.drop_first() =~= s.drop_first() + seq!['_'] + rest);
        lemma_segment_stops(s.drop_first(), rest);
        assert(seq![s[0]] + s.drop_first() =~= s);
    }
}

/// A table's identifier names that table of that database, and a database's
/// identifier that database, whenever the names hold no `_`.
pub proof fn lemma_node_ids_round_trip(db: Seq<char>, table: Seq<char>)
    requires
        no_underscore(db),
        no_underscore(table),
    ensures
        target_of(table_id(db, table)) == Some((db, Some(table))),
        target_of(db_id(db)) == Some((db, None::<Seq<char>>)),
{
    reveal_strlit("db_");
    reveal_strlit("tbl_");
    reveal_strlit("_");
    let id = table_id(db, table);
    assert(!starts_with(id, "db_"@)) by {
        if starts_with(id, "db_"@) {
            assert(id[0] == 't');
            assert(id.take(3)[0] == 'd');
        }
    }
    assert(id.take(4) =~= "tbl_"@);
    let rest = id.skip(4);
    assert(rest =~= db + seq!['_'] + table);
    lemma_segment_stops(db, table);
    assert(segment(rest).len() < rest.len());
    assert(after_segment(rest) =~= table);
    lemma_segment_whole(table);
    let did = db_id(db);
    assert(did.take(3) =~= "db_"@);
    assert(did.skip(3) =~= db);
}

} // verus!
