# sqruff_lib_dialects

The SQL dialect definitions of sqruff (ANSI, Athena, BigQuery, ClickHouse,
Databricks and DB2) as plain values, written in Verus with their contracts
proved: lexer scanners and rule tables, word sets, the grammar library of each
dialect, and the way a dialect is assembled and expanded.

`src/` (verified):

- `cursor.rs` – the lexer cursor of `sqruff_lib_core`, seen as the characters it
  has not consumed yet; the trusted contracts of `peek`, `shift` and
  `shift_digits` (which calls `shift_while`).
- `lexer.rs` – the native scanners for numeric literals and nested block
  comments, each specified by what it accepts and how far it reads.
- `lexer_rules.rs` – lexer rule tables as plain values, and the two ways a
  dialect changes an inherited table (inserting rules in front of a named rule,
  replacing rules by name).
- `grammar.rs` – a plain-value model of the grammar combinators and parsers of
  `sqruff_lib_core`, with `copy` (insertion at a position or in front of a
  reference, removal of references, terminators, with references compared as
  `sqruff_lib_core` compares them) and value comparison.
- `dialect.rs` – a dialect as plain values: name, word sets, bracket sets,
  lexer rules and library, with the operations the dialects use (set changes,
  keyword lists, `add`, `replace_grammar`, lexer changes) and `expand`.
- `ansi_library.rs`, `db2_library.rs`, `athena_grammar.rs`,
  `bigquery_grammar.rs`, `clickhouse_grammar.rs` – the grammar libraries of the
  dialects, element by element, each stated as a value and built by a function
  proved to give it.
- `ansi_dialect.rs`, `db2_dialect.rs`, `dialects.rs` – the dialects assembled,
  before and after expansion.
- `ansi_laws.rs` – what the ANSI library holds under the names that other
  dialects look up (the shared fragments, the clause terminators, every
  statement).
- `ansi.rs`, `dialect_lexers.rs`, `dialect_sets.rs`, `db2.rs`,
  `databricks.rs` – the ANSI lexer table, word sets, brackets and shared
  grammar fragments, and the per-dialect lexer tables and set changes.
- `keywords.rs` – keyword lists read line by line, and the anti-template that
  keeps reserved keywords from being read as identifiers (built with
  `itertools::join`).
- `sets.rs`, `text.rs` – word sets and text comparison.

The keyword lists of the dialects are given to the dialect functions as
arguments.

`app/` turns these plain values into `sqruff_lib_core` matchers, grammars and
dialects. `tests/` runs the scanners and tables through `sqruff_lib_core`
itself and checks the assembled dialects.
