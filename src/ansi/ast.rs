//! Syntax tree of the ANSI dialect.
pub mod common;
pub mod create_schema;
pub mod create_table;
pub mod data_types;
pub mod drop_schema;
pub mod drop_table;
