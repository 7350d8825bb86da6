//! The SQL dialect definitions of sqruff as plain values, verified: the
//! hand-written lexer scanners, the lexer rule tables, the word sets, the
//! grammar libraries of the dialects, and the assembly and expansion of each
//! dialect.

pub mod text;
pub mod sets;
pub mod cursor;
pub mod lexer;
pub mod lexer_rules;
pub mod grammar;
pub mod keywords;
pub mod ansi;
pub mod dialect_lexers;
pub mod dialect_sets;
pub mod db2;
pub mod databricks;
pub mod dialect;
pub mod ansi_library;
pub mod ansi_dialect;
pub mod db2_library;
pub mod db2_dialect;
pub mod athena_grammar;
pub mod bigquery_grammar;
pub mod clickhouse_grammar;
pub mod dialects;
pub mod databricks_grammar;
pub mod ansi_laws;
