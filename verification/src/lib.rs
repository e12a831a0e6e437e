//! Reading MySQL dumps: statement assembly from dump lines, clean-up of
//! MySQL-specific syntax, and translation of parsed SQL statements into table
//! schemas and rows.

pub mod arrow_fields;
pub mod cleanup;
pub mod line_parser;
pub mod sql;
pub mod sql_parser;
pub mod statement;
pub mod text;
