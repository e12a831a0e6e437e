# mysql_dump

Reads MySQL dumps: joins the lines of a dump into SQL statements, removes
MySQL syntax that the SQL parser does not accept, parses each statement with
`sqlparser` and translates it into a table schema (`CREATE TABLE`) or rows
(`INSERT INTO ... VALUES`).

- `src/` is the library, verified with Verus:
  - `statement.rs`: the statement assembler, fed one dump line at a time;
  - `cleanup.rs`: `cleanup_key` and `cleanup_create_table`;
  - `line_parser.rs`: the dump line types, `parse_line`, the translation of a
    parsed statement, and a table's Arrow schema;
  - `sql.rs`: a parsed statement as plain values;
  - `sql_parser.rs`, `arrow_fields.rs`: the calls into `sqlparser` (and the
    walk over its syntax tree) and
    `arrow`, with the contracts they are trusted to meet;
  - `text.rs`: character-sequence helpers.
- `app/` is the command-line program: reading (optionally gzip-compressed)
  input, threads, progress bars, and the table sink.
- `tests/` runs the library on concrete dumps.
