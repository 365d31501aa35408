//! Core of a terminal database client: the modal key resolver, the command
//! router, the query execution pipeline and the paginated result table model.

pub mod text;
pub mod keys;
pub mod command;
pub mod focus;
pub mod key_maps;
pub mod cell;
pub mod state;
pub mod data_table;
pub mod query;
pub mod executor;
pub mod app_state;
pub mod database;
pub mod key_map_guide;
pub mod layout;
pub mod schema_tree;
