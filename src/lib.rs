//! A syntax-level front end for a fragment of the ANSI SQL:2016 data
//! definition language: schema and table creation and removal, and the
//! standard's scalar data types. Text is parsed into a typed syntax tree that
//! renders back to canonical SQL.
pub mod common;
pub mod ansi;
