//! The parts of a parsed SQL statement that a dump reader looks at, held as
//! plain values: which kind of statement it is, the columns of a
//! `CREATE TABLE` statement and the rows of an `INSERT INTO ... VALUES`
//! statement.

use vstd::prelude::*;

verus! {

/// A column's data type, with the variants the SQL parser gives them.
#[derive(Clone, Debug, PartialEq)]
pub enum SqlDataType {
    Varchar,
    Numeric,
    Decimal,
    BigNumeric,
    BigDecimal,
    Dec,
    Float,
    TinyInt,
    TinyIntUnsigned,
    Int2,
    Int2Unsigned,
    SmallInt,
    SmallIntUnsigned,
    MediumInt,
    MediumIntUnsigned,
    Int,
    Int4,
    Int64,
    Integer,
    IntUnsigned,
    Int4Unsigned,
    IntegerUnsigned,
    BigInt,
    BigIntUnsigned,
    Int8,
    Int8Unsigned,
    Float4,
    Float64,
    Real,
    Float8,
    Double,
    DoublePrecision,
    Bool,
    Boolean,
    Date,
    Time,
    Datetime,
    Timestamp,
    Text,
    MediumText,
    LongText,
    String,
    Enum,
    Varbinary,
    Binary,
    Blob,
    /// A type the parser does not know, with the parts of its name.
    Custom(Vec<String>),
    /// Any other type, with its description.
    Other(String),
}

/// A column option.
#[derive(Clone, Debug, PartialEq)]
pub enum SqlColumnOption {
    /// `NULL`
    Null,
    /// `NOT NULL`
    NotNull,
    /// `PRIMARY KEY` (`is_primary`) or `UNIQUE`.
    Unique { is_primary: bool },
    /// Any other option.
    Other,
}

/// A column of a `CREATE TABLE` statement.
#[derive(Clone, Debug, PartialEq)]
pub struct SqlColumn {
    pub name: String,
    pub data_type: SqlDataType,
    pub options: Vec<SqlColumnOption>,
}

/// A literal value.
#[derive(Clone, Debug, PartialEq)]
pub enum SqlValue {
    /// A number, with its text.
    Number(String),
    /// A string between single quotes, without the quotes.
    SingleQuotedString(String),
    Boolean(bool),
    Null,
    /// Any other value or expression, with its text.
    Other(String),
}

/// An expression in a `VALUES` row.
#[derive(Clone, Debug, PartialEq)]
pub enum SqlExpr {
    /// A literal value.
    Value(SqlValue),
    /// Unary minus applied to an operand: the operand's value where it is
    /// a literal, otherwise `SqlValue::Other` with its text.
    Negated(SqlValue),
    /// Any other expression, with its text.
    Other(String),
}

/// The query that an `INSERT INTO` statement takes its rows from.
#[derive(Clone, Debug, PartialEq)]
pub enum SqlQuery {
    /// `VALUES (...), (...)`: the rows.
    Values(Vec<Vec<SqlExpr>>),
    /// Any other query.
    Other,
}

/// A parsed statement.
#[derive(Clone, Debug, PartialEq)]
pub enum SqlStatement {
    /// `CREATE TABLE`, with the parts of the table name and the columns.
    CreateTable { name: Vec<String>, columns: Vec<SqlColumn> },
    /// `INSERT INTO`, with the parts of the table name and the source query.
    Insert { table_name: Vec<String>, source: Option<SqlQuery> },
    /// Any other statement.
    Other,
}

} // verus!
