//! Translation of a parsed SQL statement into a dump line: a table schema
//! for `CREATE TABLE`, the rows for `INSERT INTO ... VALUES`, nothing for
//! any other statement.

use vstd::prelude::*;

use crate::arrow_fields::{
    builder_fields, builder_metadata, finish_schema, new_schema_builder, no_metadata, push_field,
    schema_fields, schema_metadata, ArrowType,
};
use crate::sql::{SqlColumn, SqlColumnOption, SqlDataType, SqlExpr, SqlQuery, SqlStatement, SqlValue};
use crate::sql_parser::{mysql_statements, parse_statements, parser_error_message};
use crate::text::{
    chars_of, contains_char, lowercase, parse_i64, parsed_i64, same_chars, string_of, to_lowercase,
};

verus! {

/// The type of a column's values.
#[derive(Clone, Copy, Debug, PartialEq, Eq)]
pub enum ColumnType {
    /// VARCHAR, TEXT, LONGTEXT, MEDIUMTEXT
    String,
    /// INTEGER, BIGINT
    Integer,
    Float,
    /// DATE, DATETIME, TIMESTAMP
    Timestamp,
    /// BOOLEAN
    Boolean,
}

/// A column of a table.
#[derive(Clone, Debug, PartialEq, Eq)]
pub struct ColumnDef {
    pub column_name: String,
    pub nullable: bool,
    pub column_type: ColumnType,
}

/// The columns of a table, in order.
#[derive(Clone, Debug, PartialEq, Eq)]
pub struct TableSchema(pub Vec<ColumnDef>);

/// A value of a row.
#[derive(Clone, Debug, PartialEq)]
pub enum ColumnValue {
    String(String),
    /// INTEGER, BIGINT
    Integer(i64),
    /// A decimal number, held as its text (with a leading `-` where it was
    /// negated).
    Float(String),
    /// BOOLEAN
    Boolean(bool),
    Null,
}

/// What a line of a dump holds.
#[derive(Clone, Debug, PartialEq)]
pub enum Line {
    /// A table's name and schema.
    CreateTable(String, TableSchema),
    /// A table's name and rows; each row is in the same order as the schema.
    InsertInto(String, Vec<Vec<ColumnValue>>),
    /// No operation line: anything else!
    NOP,
}

/// Why a line could not be translated.
#[derive(Clone, Debug, PartialEq)]
pub enum LineError {
    /// The SQL parser rejected the line, with its message.
    Sql(String),
    /// The line holds more than one statement.
    TooManyStatements,
    /// A column's data type has no column type, with its description.
    UnsupportedDataType(String),
    /// An `INSERT INTO` statement names no table.
    MissingTableName,
    /// An `INSERT INTO` statement has no source query.
    MissingSource,
    /// An `INSERT INTO` statement's source is not `VALUES`.
    NoValues,
    /// A row holds a value of an unsupported kind, with its text.
    UnsupportedValue(String),
    /// A row holds unary minus applied to something other than a number.
    UnsupportedNegation,
    /// A number without a decimal point that is not an `i64`, with its text.
    InvalidInteger(String),
    /// The parsed statement has a shape that no translation exists for: an
    /// empty type name, or the negation of the smallest `i64`.
    MalformedStatement,
}

/// A value of a row, as a mathematical value.
pub enum ColumnValueView {
    String(Seq<char>),
    Integer(i64),
    Float(Seq<char>),
    Boolean(bool),
    Null,
}

/// A column, as a mathematical value.
pub struct ColumnDefView {
    pub column_name: Seq<char>,
    pub nullable: bool,
    pub column_type: ColumnType,
}

/// A line, as a mathematical value.
pub enum LineView {
    CreateTable(Seq<char>, Seq<ColumnDefView>),
    InsertInto(Seq<char>, Seq<Seq<ColumnValueView>>),
    Nop,
}

/// A translation error, as a mathematical value.
pub enum LineErrorView {
    Sql(Seq<char>),
    TooManyStatements,
    UnsupportedDataType(Seq<char>),
    MissingTableName,
    MissingSource,
    NoValues,
    UnsupportedValue(Seq<char>),
    UnsupportedNegation,
    InvalidInteger(Seq<char>),
    MalformedStatement,
}

impl View for ColumnValue {
    type V = ColumnValueView;

    open spec fn view(&self) -> ColumnValueView {
        match self {
            ColumnValue::String(s) => ColumnValueView::String(s@),
            ColumnValue::Integer(i) => ColumnValueView::Integer(*i),
            ColumnValue::Float(s) => ColumnValueView::Float(s@),
            ColumnValue::Boolean(b) => ColumnValueView::Boolean(*b),
            ColumnValue::Null => ColumnValueView::Null,
        }
    }
}

impl View for ColumnDef {
    type V = ColumnDefView;

    open spec fn view(&self) -> ColumnDefView {
        ColumnDefView {
            column_name: self.column_name@,
            nullable: self.nullable,
            column_type: self.column_type,
        }
    }
}

/// The views of a sequence of columns.
pub open spec fn columns_view(cols: Seq<ColumnDef>) -> Seq<ColumnDefView> {
    cols.map_values(|c: ColumnDef| c@)
}

/// The views of a row.
pub open spec fn row_view(row: Seq<ColumnValue>) -> Seq<ColumnValueView> {
    row.map_values(|v: ColumnValue| v@)
}

/// The views of a sequence of rows.
pub open spec fn rows_view(rows: Seq<Vec<ColumnValue>>) -> Seq<Seq<ColumnValueView>> {
    rows.map_values(|r: Vec<ColumnValue>| row_view(r@))
}

impl View for TableSchema {
    type V = Seq<ColumnDefView>;

    open spec fn view(&self) -> Seq<ColumnDefView> {
        columns_view(self.0@)
    }
}

impl View for Line {
    type V = LineView;

    open spec fn view(&self) -> LineView {
        match self {
            Line::CreateTable(name, schema) => LineView::CreateTable(name@, schema@),
            Line::InsertInto(name, rows) => LineView::InsertInto(name@, rows_view(rows@)),
            Line::NOP => LineView::Nop,
        }
    }
}

impl View for LineError {
    type V = LineErrorView;

    open spec fn view(&self) -> LineErrorView {
        match self {
            LineError::Sql(m) => LineErrorView::Sql(m@),
            LineError::TooManyStatements => LineErrorView::TooManyStatements,
            LineError::UnsupportedDataType(d) => LineErrorView::UnsupportedDataType(d@),
            LineError::MissingTableName => LineErrorView::MissingTableName,
            LineError::MissingSource => LineErrorView::MissingSource,
            LineError::NoValues => LineErrorView::NoValues,
            LineError::UnsupportedValue(t) => LineErrorView::UnsupportedValue(t@),
            LineError::UnsupportedNegation => LineErrorView::UnsupportedNegation,
            LineError::InvalidInteger(t) => LineErrorView::InvalidInteger(t@),
            LineError::MalformedStatement => LineErrorView::MalformedStatement,
        }
    }
}

/// The view of a translation result.
pub open spec fn result_view(r: Result<Line, LineError>) -> Result<LineView, LineErrorView> {
    match r {
        Ok(l) => Ok(l@),
        Err(e) => Err(e@),
    }
}

/// The outcome of a translation step: `None` where the step has no
/// translation (see `LineError::MalformedStatement`), otherwise its result.
pub type Outcome<T> = Option<Result<T, LineErrorView>>;

/// Applies `f` to each element of `s` in order: the sequence of results,
/// or the outcome of the first element that does not translate.
pub open spec fn translate_all<A, B>(s: Seq<A>, f: spec_fn(A) -> Outcome<B>) -> Outcome<Seq<B>>
    decreases s.len(),
{
    if s.len() == 0 {
        Some(Ok(seq![]))
    } else {
        match translate_all(s.drop_last(), f) {
            Some(Ok(prefix)) => match f(s.last()) {
                Some(Ok(b)) => Some(Ok(prefix.push(b))),
                Some(Err(e)) => Some(Err(e)),
                None => None,
            },
            other => other,
        }
    }
}

/// `longtext`
pub open spec fn longtext_name() -> Seq<char> {
    seq!['l', 'o', 'n', 'g', 't', 'e', 'x', 't']
}

/// `mediumtext`
pub open spec fn mediumtext_name() -> Seq<char> {
    seq!['m', 'e', 'd', 'i', 'u', 'm', 't', 'e', 'x', 't']
}

/// The column type of a data type.
pub open spec fn column_type_of(t: SqlDataType) -> Outcome<ColumnType> {
    match t {
        SqlDataType::Varchar => Some(Ok(ColumnType::String)),
        SqlDataType::Numeric => Some(Ok(ColumnType::Integer)),
        SqlDataType::Decimal => Some(Ok(ColumnType::Integer)),
        SqlDataType::BigNumeric => Some(Ok(ColumnType::Integer)),
        SqlDataType::BigDecimal => Some(Ok(ColumnType::Integer)),
        SqlDataType::Dec => Some(Ok(ColumnType::Integer)),
        SqlDataType::Float => Some(Ok(ColumnType::Float)),
        SqlDataType::TinyInt => Some(Ok(ColumnType::Integer)),
        SqlDataType::TinyIntUnsigned => Some(Ok(ColumnType::Integer)),
        SqlDataType::Int2 => Some(Ok(ColumnType::Integer)),
        SqlDataType::Int2Unsigned => Some(Ok(ColumnType::Integer)),
        SqlDataType::SmallInt => Some(Ok(ColumnType::Integer)),
        SqlDataType::SmallIntUnsigned => Some(Ok(ColumnType::Integer)),
        SqlDataType::MediumInt => Some(Ok(ColumnType::Integer)),
        SqlDataType::MediumIntUnsigned => Some(Ok(ColumnType::Integer)),
        SqlDataType::Int => Some(Ok(ColumnType::Integer)),
        SqlDataType::Int4 => Some(Ok(ColumnType::Integer)),
        SqlDataType::Int64 => Some(Ok(ColumnType::Integer)),
        SqlDataType::Integer => Some(Ok(ColumnType::Integer)),
        SqlDataType::IntUnsigned => Some(Ok(ColumnType::Integer)),
        SqlDataType::Int4Unsigned => Some(Ok(ColumnType::Integer)),
        SqlDataType::IntegerUnsigned => Some(Ok(ColumnType::Integer)),
        SqlDataType::BigInt => Some(Ok(ColumnType::Integer)),
        SqlDataType::BigIntUnsigned => Some(Ok(ColumnType::Integer)),
        SqlDataType::Int8 => Some(Ok(ColumnType::Integer)),
        SqlDataType::Int8Unsigned => Some(Ok(ColumnType::Integer)),
        SqlDataType::Float4 => Some(Ok(ColumnType::Float)),
        SqlDataType::Float64 => Some(Ok(ColumnType::Float)),
        SqlDataType::Real => Some(Ok(ColumnType::Float)),
        SqlDataType::Float8 => Some(Ok(ColumnType::Float)),
        SqlDataType::Double => Some(Ok(ColumnType::Float)),
        SqlDataType::DoublePrecision => Some(Ok(ColumnType::Float)),
        SqlDataType::Bool => Some(Ok(ColumnType::Boolean)),
        SqlDataType::Boolean => Some(Ok(ColumnType::Boolean)),
        SqlDataType::Date => Some(Ok(ColumnType::Timestamp)),
        SqlDataType::Time => Some(Ok(ColumnType::Timestamp)),
        SqlDataType::Datetime => Some(Ok(ColumnType::Timestamp)),
        SqlDataType::Timestamp => Some(Ok(ColumnType::Timestamp)),
        SqlDataType::Text => Some(Ok(ColumnType::String)),
        SqlDataType::MediumText => Some(Ok(ColumnType::String)),
        SqlDataType::LongText => Some(Ok(ColumnType::String)),
        SqlDataType::String => Some(Ok(ColumnType::String)),
        SqlDataType::Enum => Some(Ok(ColumnType::String)),
        SqlDataType::Varbinary => Some(Ok(ColumnType::String)),
        SqlDataType::Binary => Some(Ok(ColumnType::String)),
        SqlDataType::Blob => Some(Ok(ColumnType::String)),
        SqlDataType::Custom(name) => if name@.len() == 0 {
            None
        } else if name@[0]@ == longtext_name() || name@[0]@ == mediumtext_name() {
            Some(Ok(ColumnType::String))
        } else {
            Some(Err(LineErrorView::UnsupportedDataType(name@[0]@)))
        },
        SqlDataType::Other(d) => Some(Err(LineErrorView::UnsupportedDataType(d@))),
    }
}

/// Whether a column with these options accepts `NULL`: the first of the
/// options `NULL` (yes), `NOT NULL` or `PRIMARY KEY` (no) decides, and a
/// column with none of them does.
pub open spec fn nullable_of(opts: Seq<SqlColumnOption>) -> bool
    decreases opts.len(),
{
    if opts.len() == 0 {
        true
    } else {
        match opts[0] {
            SqlColumnOption::Null => true,
            SqlColumnOption::NotNull => false,
            SqlColumnOption::Unique { is_primary } => if is_primary {
                false
            } else {
                nullable_of(opts.drop_first())
            },
            SqlColumnOption::Other => nullable_of(opts.drop_first()),
        }
    }
}

/// The column that a column definition translates to.
pub open spec fn column_def_of(c: SqlColumn) -> Outcome<ColumnDefView> {
    match column_type_of(c.data_type) {
        Some(Ok(t)) => Some(
            Ok(ColumnDefView { column_name: c.name@, nullable: nullable_of(c.options@), column_type: t }),
        ),
        Some(Err(e)) => Some(Err(e)),
        None => None,
    }
}

/// `column_def_of` as a function value.
pub open spec fn column_def_fn() -> spec_fn(SqlColumn) -> Outcome<ColumnDefView> {
    |c: SqlColumn| column_def_of(c)
}

/// The schema that a list of column definitions translates to.
pub open spec fn schema_of(cols: Seq<SqlColumn>) -> Outcome<Seq<ColumnDefView>> {
    translate_all(cols, column_def_fn())
}

/// The value that a number (negated or not) translates to: a number with a
/// decimal point stays text, any other must be an `i64`.
pub open spec fn number_value(text: Seq<char>, negated: bool) -> Outcome<ColumnValueView> {
    if text.contains('.') {
        Some(Ok(ColumnValueView::Float(if negated { seq!['-'] + text } else { text })))
    } else {
        match parsed_i64(text) {
            Some(v) => if !negated {
                Some(Ok(ColumnValueView::Integer(v)))
            } else if v == i64::MIN {
                None
            } else {
                Some(Ok(ColumnValueView::Integer((-v) as i64)))
            },
            None => Some(Err(LineErrorView::InvalidInteger(text))),
        }
    }
}

/// The value that an expression of a row translates to.
pub open spec fn cell_of(e: SqlExpr) -> Outcome<ColumnValueView> {
    match e {
        SqlExpr::Negated(SqlValue::Number(t)) => number_value(t@, true),
        SqlExpr::Negated(_) => Some(Err(LineErrorView::UnsupportedNegation)),
        SqlExpr::Value(SqlValue::Number(t)) => number_value(t@, false),
        SqlExpr::Value(SqlValue::SingleQuotedString(s)) => Some(Ok(ColumnValueView::String(s@))),
        SqlExpr::Value(SqlValue::Boolean(b)) => Some(Ok(ColumnValueView::Boolean(b))),
        SqlExpr::Value(SqlValue::Null) => Some(Ok(ColumnValueView::Null)),
        SqlExpr::Value(SqlValue::Other(t)) => Some(Err(LineErrorView::UnsupportedValue(t@))),
        SqlExpr::Other(t) => Some(Err(LineErrorView::UnsupportedValue(t@))),
    }
}

/// `cell_of` as a function value.
pub open spec fn cell_fn() -> spec_fn(SqlExpr) -> Outcome<ColumnValueView> {
    |e: SqlExpr| cell_of(e)
}

/// The values that a row of expressions translates to.
pub open spec fn row_of(row: Seq<SqlExpr>) -> Outcome<Seq<ColumnValueView>> {
    translate_all(row, cell_fn())
}

/// `row_of` as a function value on `VALUES` rows.
pub open spec fn row_fn() -> spec_fn(Vec<SqlExpr>) -> Outcome<Seq<ColumnValueView>> {
    |r: Vec<SqlExpr>| row_of(r@)
}

/// The rows that `VALUES` rows translate to.
pub open spec fn rows_of(rows: Seq<Vec<SqlExpr>>) -> Outcome<Seq<Seq<ColumnValueView>>> {
    translate_all(rows, row_fn())
}

/// The line that a statement translates to.
pub open spec fn line_of(st: SqlStatement) -> Outcome<LineView> {
    match st {
        SqlStatement::CreateTable { name, columns } => if name@.len() == 0 {
            None
        } else {
            match schema_of(columns@) {
                Some(Ok(cols)) => Some(Ok(LineView::CreateTable(name@[0]@, cols))),
                Some(Err(e)) => Some(Err(e)),
                None => None,
            }
        },
        SqlStatement::Insert { table_name, source } => if table_name@.len() == 0 {
            Some(Err(LineErrorView::MissingTableName))
        } else {
            match source {
                None => Some(Err(LineErrorView::MissingSource)),
                Some(SqlQuery::Other) => Some(Err(LineErrorView::NoValues)),
                Some(SqlQuery::Values(rows)) => match rows_of(rows@) {
                    Some(Ok(r)) => Some(Ok(LineView::InsertInto(table_name@[0]@, r))),
                    Some(Err(e)) => Some(Err(e)),
                    None => None,
                },
            }
        },
        SqlStatement::Other => Some(Ok(LineView::Nop)),
    }
}

proof fn lemma_translate_step<A, B>(s: Seq<A>, f: spec_fn(A) -> Outcome<B>, i: int)
    requires
        0 <= i < s.len(),
    ensures
        translate_all(s.take(i + 1), f) == match translate_all(s.take(i), f) {
            Some(Ok(prefix)) => match f(s[i]) {
                Some(Ok(b)) => Some(Ok(prefix.push(b))),
                Some(Err(e)) => Some(Err(e)),
                None => None,
            },
            other => other,
        },
{
    assert(s.take(i + 1).drop_last() =~= s.take(i));
}

proof fn lemma_translate_stops<A, B>(s: Seq<A>, f: spec_fn(A) -> Outcome<B>, i: int)
    requires
        0 <= i <= s.len(),
        !(translate_all(s.take(i), f) matches Some(Ok(_))),
    ensures
        translate_all(s, f) == translate_all(s.take(i), f),
    decreases s.len() - i,
{
    if i < s.len() {
        lemma_translate_step(s, f, i);
        lemma_translate_stops(s, f, i + 1);
    } else {
        assert(s.take(i) =~= s);
    }
}

proof fn lemma_translate_all_ok<A, B>(s: Seq<A>, f: spec_fn(A) -> Outcome<B>, out: Seq<B>)
    requires
        translate_all(s, f) == Some(Ok::<Seq<B>, LineErrorView>(out)),
    ensures
        out.len() == s.len(),
        forall|i: int| 0 <= i < s.len() ==> f(s[i]) == Some(Ok::<B, LineErrorView>(#[trigger] out[i])),
    decreases s.len(),
{
    if s.len() > 0 {
        match translate_all(s.drop_last(), f) {
            Some(Ok(prefix)) => {
                lemma_translate_all_ok(s.drop_last(), f, prefix);
                assert forall|i: int| 0 <= i < s.len() implies f(s[i]) == Some(
                    Ok::<B, LineErrorView>(#[trigger] out[i]),
                ) by {
                    if i < s.len() - 1 {
                        assert(s[i] == s.drop_last()[i]);
                    }
                }
            },
            _ => {},
        }
    }
}

/// A translated `CREATE TABLE` statement has one column per column
/// definition, in the same order and under the same name.
pub proof fn schema_keeps_columns(cols: Seq<SqlColumn>)
    ensures
        schema_of(cols) matches Some(Ok(s)) ==> s.len() == cols.len() && forall|i: int|
            0 <= i < cols.len() ==> (#[trigger] s[i]).column_name == cols[i].name@,
{
    if let Some(Ok(s)) = schema_of(cols) {
        lemma_translate_all_ok(cols, column_def_fn(), s);
        assert forall|i: int| 0 <= i < cols.len() implies (#[trigger] s[i]).column_name
            == cols[i].name@ by {
            assert(column_def_fn()(cols[i]) == Some(Ok::<ColumnDefView, LineErrorView>(s[i])));
        }
    }
}

/// A translated `INSERT INTO ... VALUES` statement has one row per `VALUES`
/// row, in the same order, each with one value per expression.
pub proof fn rows_keep_shape(rows: Seq<Vec<SqlExpr>>)
    ensures
        rows_of(rows) matches Some(Ok(r)) ==> r.len() == rows.len() && forall|i: int|
            0 <= i < rows.len() ==> (#[trigger] r[i]).len() == rows[i]@.len(),
{
    if let Some(Ok(r)) = rows_of(rows) {
        lemma_translate_all_ok(rows, row_fn(), r);
        assert forall|i: int| 0 <= i < rows.len() implies (#[trigger] r[i]).len()
            == rows[i]@.len() by {
            assert(row_fn()(rows[i]) == Some(Ok::<Seq<ColumnValueView>, LineErrorView>(r[i])));
            lemma_translate_all_ok(rows[i]@, cell_fn(), r[i]);
        }
    }
}

/// Literal values translate to the value they write: a single-quoted
/// string, the empty one included, to a string of exactly its characters, a
/// boolean to itself, `NULL` to `Null`; and only the `NULL` literal gives
/// `Null`.
pub proof fn literals_translate_to_themselves(s: String, b: bool, e: SqlExpr)
    ensures
        cell_of(SqlExpr::Value(SqlValue::SingleQuotedString(s))) == Some(
            Ok::<ColumnValueView, LineErrorView>(ColumnValueView::String(s@)),
        ),
        cell_of(SqlExpr::Value(SqlValue::Boolean(b))) == Some(
            Ok::<ColumnValueView, LineErrorView>(ColumnValueView::Boolean(b)),
        ),
        cell_of(SqlExpr::Value(SqlValue::Null)) == Some(
            Ok::<ColumnValueView, LineErrorView>(ColumnValueView::Null),
        ),
        cell_of(e) == Some(Ok::<ColumnValueView, LineErrorView>(ColumnValueView::Null)) ==> e
            == SqlExpr::Value(SqlValue::Null),
{
}

/// In translated `VALUES` rows, every single-quoted string becomes a string
/// of exactly its characters, and a `Null` value comes only from `NULL`.
pub proof fn rows_keep_literals(rows: Seq<Vec<SqlExpr>>)
    ensures
        rows_of(rows) matches Some(Ok(r)) ==> forall|i: int, j: int|
            0 <= i < rows.len() && 0 <= j < rows[i]@.len() ==> {
                &&& (#[trigger] rows[i]@[j]) matches SqlExpr::Value(SqlValue::SingleQuotedString(t))
                    ==> r[i][j] == ColumnValueView::String(t@)
                &&& r[i][j] == ColumnValueView::Null ==> rows[i]@[j] == SqlExpr::Value(
                    SqlValue::Null,
                )
            },
{
    if let Some(Ok(r)) = rows_of(rows) {
        lemma_translate_all_ok(rows, row_fn(), r);
        assert forall|i: int, j: int| 0 <= i < rows.len() && 0 <= j < rows[i]@.len() implies {
            &&& (#[trigger] rows[i]@[j]) matches SqlExpr::Value(SqlValue::SingleQuotedString(t))
                ==> r[i][j] == ColumnValueView::String(t@)
            &&& r[i][j] == ColumnValueView::Null ==> rows[i]@[j] == SqlExpr::Value(SqlValue::Null)
        } by {
            assert(row_fn()(rows[i]) == Some(Ok::<Seq<ColumnValueView>, LineErrorView>(r[i])));
            lemma_translate_all_ok(rows[i]@, cell_fn(), r[i]);
            assert(cell_fn()(rows[i]@[j]) == Some(Ok::<ColumnValueView, LineErrorView>(r[i][j])));
            literals_translate_to_themselves(arbitrary(), true, rows[i]@[j]);
        }
    }
}

/// Numbers: one with a decimal point stays the text it was written as (with
/// a leading `-` where negated); one without must be an `i64`, and gives
/// that integer (negated where it is), or else an invalid-integer error
/// naming the text.  Unsupported values and the negation of anything but a
/// number are errors.
pub proof fn numbers_translate(t: String, v: SqlValue, e: SqlExpr)
    ensures
        t@.contains('.') ==> cell_of(SqlExpr::Value(SqlValue::Number(t))) == Some(
            Ok::<ColumnValueView, LineErrorView>(ColumnValueView::Float(t@)),
        ),
        t@.contains('.') ==> cell_of(SqlExpr::Negated(SqlValue::Number(t))) == Some(
            Ok::<ColumnValueView, LineErrorView>(ColumnValueView::Float(seq!['-'] + t@)),
        ),
        !t@.contains('.') && parsed_i64(t@) is Some ==> cell_of(SqlExpr::Value(SqlValue::Number(t)))
            == Some(Ok::<ColumnValueView, LineErrorView>(ColumnValueView::Integer(parsed_i64(t@)->0))),
        !t@.contains('.') && parsed_i64(t@) is Some && parsed_i64(t@)->0 > i64::MIN ==> cell_of(
            SqlExpr::Negated(SqlValue::Number(t)),
        ) == Some(
            Ok::<ColumnValueView, LineErrorView>(ColumnValueView::Integer((0 - parsed_i64(t@)->0) as i64)),
        ),
        !t@.contains('.') && parsed_i64(t@) is None ==> cell_of(SqlExpr::Value(SqlValue::Number(t)))
            == Some(Err::<ColumnValueView, LineErrorView>(LineErrorView::InvalidInteger(t@))),
        !t@.contains('.') && parsed_i64(t@) is None ==> cell_of(SqlExpr::Negated(SqlValue::Number(t)))
            == Some(Err::<ColumnValueView, LineErrorView>(LineErrorView::InvalidInteger(t@))),
        !(v is Number) ==> cell_of(SqlExpr::Negated(v)) == Some(
            Err::<ColumnValueView, LineErrorView>(LineErrorView::UnsupportedNegation),
        ),
        v matches SqlValue::Other(d) ==> cell_of(SqlExpr::Value(v)) == Some(
            Err::<ColumnValueView, LineErrorView>(LineErrorView::UnsupportedValue(d@)),
        ),
        e matches SqlExpr::Other(d) ==> cell_of(e) == Some(
            Err::<ColumnValueView, LineErrorView>(LineErrorView::UnsupportedValue(d@)),
        ),
{
}

/// How each kind of statement translates: `CREATE TABLE` gives the first
/// part of the table name with the translated columns; `INSERT INTO` gives
/// the first part of the table name with the translated rows, or an error
/// for a missing name, a missing source or a source other than `VALUES`;
/// any other statement gives `NOP`.
pub proof fn statements_translate(st: SqlStatement)
    ensures
        st matches SqlStatement::CreateTable { name, columns } ==> (name@.len() > 0 ==> (schema_of(
            columns@,
        ) matches Some(Ok(cols)) ==> line_of(st) == Some(
            Ok::<LineView, LineErrorView>(LineView::CreateTable(name@[0]@, cols)),
        ))),
        st matches SqlStatement::Insert { table_name, source } ==> (table_name@.len() == 0
            ==> line_of(st) == Some(Err::<LineView, LineErrorView>(LineErrorView::MissingTableName))),
        st matches SqlStatement::Insert { table_name, source } ==> (table_name@.len() > 0
            && source is None ==> line_of(st) == Some(
            Err::<LineView, LineErrorView>(LineErrorView::MissingSource),
        )),
        st matches SqlStatement::Insert { table_name, source } ==> (table_name@.len() > 0
            && source == Some(SqlQuery::Other) ==> line_of(st) == Some(
            Err::<LineView, LineErrorView>(LineErrorView::NoValues),
        )),
        st matches SqlStatement::Insert { table_name, source } ==> (table_name@.len() > 0 ==> (
        source matches Some(SqlQuery::Values(rows)) ==> (rows_of(rows@) matches Some(Ok(r))
            ==> line_of(st) == Some(
            Ok::<LineView, LineErrorView>(LineView::InsertInto(table_name@[0]@, r)),
        )))),
        st is Other ==> line_of(st) == Some(Ok::<LineView, LineErrorView>(LineView::Nop)),
{
}

/// Whether option `k` decides that the column rejects `NULL`: it is
/// `NOT NULL` or `PRIMARY KEY`, and no option before it is `NULL`,
/// `NOT NULL` or `PRIMARY KEY`.
pub open spec fn rejects_null_at(opts: Seq<SqlColumnOption>, k: int) -> bool {
    &&& 0 <= k < opts.len()
    &&& (opts[k] == SqlColumnOption::NotNull || opts[k] == SqlColumnOption::Unique { is_primary: true })
    &&& forall|j: int|
        0 <= j < k ==> opts[j] != SqlColumnOption::Null && opts[j] != SqlColumnOption::NotNull
            && opts[j] != SqlColumnOption::Unique { is_primary: true }
}

/// A column rejects `NULL` exactly when one of its options decides so: the
/// first of `NULL`, `NOT NULL` and `PRIMARY KEY` among its options is
/// `NOT NULL` or `PRIMARY KEY`.
pub proof fn nullable_unless_rejected(opts: Seq<SqlColumnOption>)
    ensures
        !nullable_of(opts) <==> exists|k: int| rejects_null_at(opts, k),
    decreases opts.len(),
{
    if opts.len() > 0 {
        let rest = opts.drop_first();
        nullable_unless_rejected(rest);
        let o = opts[0];
        if o == SqlColumnOption::NotNull || o == (SqlColumnOption::Unique { is_primary: true }) {
            assert(rejects_null_at(opts, 0));
        } else if o == SqlColumnOption::Null {
            assert forall|k: int| !rejects_null_at(opts, k) by {
                if 0 < k && rejects_null_at(opts, k) {
                    assert(opts[0] != SqlColumnOption::Null);
                }
            }
        } else {
            assert(nullable_of(opts) == nullable_of(rest));
            if exists|k: int| rejects_null_at(rest, k) {
                let k = choose|k: int| rejects_null_at(rest, k);
                assert forall|j: int| 0 <= j < k + 1 implies opts[j] != SqlColumnOption::Null
                    && opts[j] != SqlColumnOption::NotNull && opts[j] != SqlColumnOption::Unique {
                    is_primary: true,
                } by {
                    if j > 0 {
                        assert(opts[j] == rest[j - 1]);
                    }
                }
                assert(rejects_null_at(opts, k + 1));
            }
            if exists|k: int| rejects_null_at(opts, k) {
                let k = choose|k: int| rejects_null_at(opts, k);
                assert(k > 0);
                assert forall|j: int| 0 <= j < k - 1 implies rest[j] != SqlColumnOption::Null
                    && rest[j] != SqlColumnOption::NotNull && rest[j] != SqlColumnOption::Unique {
                    is_primary: true,
                } by {
                    assert(rest[j] == opts[j + 1]);
                }
                assert(rest[k - 1] == opts[k]);
                assert(rejects_null_at(rest, k - 1));
            }
        }
    }
}

/// The column type of each data type: dates and times are timestamps,
/// character, text, enum and binary types are strings, exact numeric and
/// integer types are integers, approximate numeric types are floats, and
/// `BOOL` and `BOOLEAN` are booleans.
pub proof fn column_type_table(t: SqlDataType)
    ensures
        (t is Date || t is Time || t is Datetime || t is Timestamp) ==> column_type_of(t) == Some(
            Ok::<ColumnType, LineErrorView>(ColumnType::Timestamp),
        ),
        (t is Varchar || t is Text || t is MediumText || t is LongText || t is String || t is Enum
            || t is Varbinary || t is Binary || t is Blob) ==> column_type_of(t) == Some(
            Ok::<ColumnType, LineErrorView>(ColumnType::String),
        ),
        (t is Numeric || t is Decimal || t is BigNumeric || t is BigDecimal || t is Dec
            || t is TinyInt || t is TinyIntUnsigned || t is Int2 || t is Int2Unsigned
            || t is SmallInt || t is SmallIntUnsigned || t is MediumInt || t is MediumIntUnsigned
            || t is Int || t is Int4 || t is Int64 || t is Integer || t is IntUnsigned
            || t is Int4Unsigned || t is IntegerUnsigned || t is BigInt || t is BigIntUnsigned
            || t is Int8 || t is Int8Unsigned) ==> column_type_of(t) == Some(
            Ok::<ColumnType, LineErrorView>(ColumnType::Integer),
        ),
        (t is Float || t is Float4 || t is Float64 || t is Real || t is Float8 || t is Double
            || t is DoublePrecision) ==> column_type_of(t) == Some(
            Ok::<ColumnType, LineErrorView>(ColumnType::Float),
        ),
        (t is Bool || t is Boolean) ==> column_type_of(t) == Some(
            Ok::<ColumnType, LineErrorView>(ColumnType::Boolean),
        ),
{
}

/// In a translated schema, a column declared `DATE`, `TIME`, `DATETIME` or
/// `TIMESTAMP` has the type `Timestamp`, and every column keeps its
/// declared name; the column accepts `NULL` when it has no options, and not
/// when its first option is `NOT NULL` or `PRIMARY KEY`.
pub proof fn schema_column_types(cols: Seq<SqlColumn>)
    ensures
        schema_of(cols) matches Some(Ok(s)) ==> forall|i: int|
            0 <= i < cols.len() ==> {
                &&& (cols[i].data_type is Date || cols[i].data_type is Time
                    || cols[i].data_type is Datetime || cols[i].data_type is Timestamp)
                    ==> (#[trigger] s[i]).column_type == ColumnType::Timestamp
                &&& s[i].column_name == cols[i].name@
                &&& cols[i].options@.len() == 0 ==> s[i].nullable
                &&& (cols[i].options@.len() > 0 && (cols[i].options@[0] == SqlColumnOption::NotNull
                    || cols[i].options@[0] == SqlColumnOption::Unique { is_primary: true }))
                    ==> !s[i].nullable
            },
{
    if let Some(Ok(s)) = schema_of(cols) {
        lemma_translate_all_ok(cols, column_def_fn(), s);
        assert forall|i: int| 0 <= i < cols.len() implies {
            &&& (cols[i].data_type is Date || cols[i].data_type is Time
                || cols[i].data_type is Datetime || cols[i].data_type is Timestamp)
                ==> (#[trigger] s[i]).column_type == ColumnType::Timestamp
            &&& s[i].column_name == cols[i].name@
            &&& cols[i].options@.len() == 0 ==> s[i].nullable
            &&& (cols[i].options@.len() > 0 && (cols[i].options@[0] == SqlColumnOption::NotNull
                || cols[i].options@[0] == SqlColumnOption::Unique { is_primary: true }))
                ==> !s[i].nullable
        } by {
            assert(column_def_fn()(cols[i]) == Some(Ok::<ColumnDefView, LineErrorView>(s[i])));
            column_type_table(cols[i].data_type);
        }
    }
}

fn longtext_chars() -> (v: Vec<char>)
    ensures
        v@ == longtext_name(),
{
    let v = vec!['l', 'o', 'n', 'g', 't', 'e', 'x', 't'];
    assert(v@ =~= longtext_name());
    v
}

fn mediumtext_chars() -> (v: Vec<char>)
    ensures
        v@ == mediumtext_name(),
{
    let v = vec!['m', 'e', 'd', 'i', 'u', 'm', 't', 'e', 'x', 't'];
    assert(v@ =~= mediumtext_name());
    v
}

fn column_type_from(t: &SqlDataType) -> (r: Option<Result<ColumnType, LineError>>)
    ensures
        !(r matches Some(Err(LineError::Sql(_)))),
        match r {
            Some(Ok(c)) => column_type_of(*t) == Some(Ok::<ColumnType, LineErrorView>(c)),
            Some(Err(e)) => column_type_of(*t) == Some(Err::<ColumnType, LineErrorView>(e@)),
            None => column_type_of(*t) is None,
        },
{
    match t {
        SqlDataType::Varchar | SqlDataType::Text | SqlDataType::MediumText
        | SqlDataType::LongText | SqlDataType::String | SqlDataType::Enum
        | SqlDataType::Varbinary | SqlDataType::Binary | SqlDataType::Blob => Some(
            Ok(ColumnType::String),
        ),
        SqlDataType::Numeric | SqlDataType::Decimal | SqlDataType::BigNumeric
        | SqlDataType::BigDecimal | SqlDataType::Dec | SqlDataType::TinyInt
        | SqlDataType::TinyIntUnsigned | SqlDataType::Int2 | SqlDataType::Int2Unsigned
        | SqlDataType::SmallInt | SqlDataType::SmallIntUnsigned | SqlDataType::MediumInt
        | SqlDataType::MediumIntUnsigned | SqlDataType::Int | SqlDataType::Int4
        | SqlDataType::Int64 | SqlDataType::Integer | SqlDataType::IntUnsigned
        | SqlDataType::Int4Unsigned | SqlDataType::IntegerUnsigned | SqlDataType::BigInt
        | SqlDataType::BigIntUnsigned | SqlDataType::Int8 | SqlDataType::Int8Unsigned => Some(
            Ok(ColumnType::Integer),
        ),
        SqlDataType::Float | SqlDataType::Float4 | SqlDataType::Float64 | SqlDataType::Real
        | SqlDataType::Float8 | SqlDataType::Double | SqlDataType::DoublePrecision => Some(
            Ok(ColumnType::Float),
        ),
        SqlDataType::Bool | SqlDataType::Boolean => Some(Ok(ColumnType::Boolean)),
        SqlDataType::Date | SqlDataType::Time | SqlDataType::Datetime
        | SqlDataType::Timestamp => Some(Ok(ColumnType::Timestamp)),
        SqlDataType::Custom(name) => {
            if name.len() == 0 {
                return None;
            }
            let first = chars_of(name[0].as_str());
            let long = longtext_chars();
            let medium = mediumtext_chars();
            if same_chars(&first, &long) || same_chars(&first, &medium) {
                Some(Ok(ColumnType::String))
            } else {
                Some(Err(LineError::UnsupportedDataType(name[0].clone())))
            }
        },
        SqlDataType::Other(d) => Some(Err(LineError::UnsupportedDataType(d.clone()))),
    }
}

fn nullable_from(opts: &Vec<SqlColumnOption>) -> (r: bool)
    ensures
        r == nullable_of(opts@),
{
    let mut i: usize = 0;
    assert(opts@.skip(0) =~= opts@);
    while i < opts.len()
        invariant
            i <= opts.len(),
            nullable_of(opts@) == nullable_of(opts@.skip(i as int)),
        decreases opts.len() - i,
    {
        proof {
            assert(opts@.skip(i as int).drop_first() =~= opts@.skip(i + 1));
        }
        match &opts[i] {
            SqlColumnOption::Null => {
                return true;
            },
            SqlColumnOption::NotNull => {
                return false;
            },
            SqlColumnOption::Unique { is_primary } => {
                if *is_primary {
                    return false;
                }
            },
            SqlColumnOption::Other => {},
        }
        i = i + 1;
    }
    true
}

fn column_from(c: &SqlColumn) -> (r: Option<Result<ColumnDef, LineError>>)
    ensures
        !(r matches Some(Err(LineError::Sql(_)))),
        match r {
            Some(Ok(d)) => column_def_of(*c) == Some(Ok::<ColumnDefView, LineErrorView>(d@)),
            Some(Err(e)) => column_def_of(*c) == Some(Err::<ColumnDefView, LineErrorView>(e@)),
            None => column_def_of(*c) is None,
        },
{
    match column_type_from(&c.data_type) {
        Some(Ok(t)) => Some(
            Ok(ColumnDef { column_name: c.name.clone(), nullable: nullable_from(&c.options), column_type: t }),
        ),
        Some(Err(e)) => Some(Err(e)),
        None => None,
    }
}

fn schema_from(cols: &Vec<SqlColumn>) -> (r: Option<Result<Vec<ColumnDef>, LineError>>)
    ensures
        !(r matches Some(Err(LineError::Sql(_)))),
        match r {
            Some(Ok(v)) => schema_of(cols@) == Some(Ok::<Seq<ColumnDefView>, LineErrorView>(columns_view(v@))),
            Some(Err(e)) => schema_of(cols@) == Some(Err::<Seq<ColumnDefView>, LineErrorView>(e@)),
            None => schema_of(cols@) is None,
        },
{
    let mut out: Vec<ColumnDef> = Vec::new();
    let mut i: usize = 0;
    assert(cols@.take(0) =~= Seq::<SqlColumn>::empty());
    assert(columns_view(out@) =~= Seq::<ColumnDefView>::empty());
    while i < cols.len()
        invariant
            i <= cols.len(),
            translate_all(cols@.take(i as int), column_def_fn()) == Some(
                Ok::<Seq<ColumnDefView>, LineErrorView>(columns_view(out@)),
            ),
        decreases cols.len() - i,
    {
        proof {
            lemma_translate_step(cols@, column_def_fn(), i as int);
        }
        match column_from(&cols[i]) {
            Some(Ok(d)) => {
                let ghost before = out@;
                out.push(d);
                assert(columns_view(out@) =~= columns_view(before).push(d@));
            },
            Some(Err(e)) => {
                proof {
                    lemma_translate_stops(cols@, column_def_fn(), i + 1);
                }
                return Some(Err(e));
            },
            None => {
                proof {
                    lemma_translate_stops(cols@, column_def_fn(), i + 1);
                }
                return None;
            },
        }
        i = i + 1;
    }
    assert(cols@.take(cols.len() as int) =~= cols@);
    Some(Ok(out))
}

fn number_from(text: &String, negated: bool) -> (r: Option<Result<ColumnValue, LineError>>)
    ensures
        !(r matches Some(Err(LineError::Sql(_)))),
        match r {
            Some(Ok(v)) => number_value(text@, negated) == Some(Ok::<ColumnValueView, LineErrorView>(v@)),
            Some(Err(e)) => number_value(text@, negated) == Some(Err::<ColumnValueView, LineErrorView>(e@)),
            None => number_value(text@, negated) is None,
        },
{
    let chars = chars_of(text.as_str());
    if contains_char(&chars, '.') {
        if negated {
            let mut v = vec!['-'];
            let mut rest = chars;
            let ghost digits = rest@;
            v.append(&mut rest);
            assert(v@ =~= seq!['-'] + digits);
            Some(Ok(ColumnValue::Float(string_of(&v))))
        } else {
            Some(Ok(ColumnValue::Float(text.clone())))
        }
    } else {
        match parse_i64(text.as_str()) {
            Some(v) => {
                if !negated {
                    Some(Ok(ColumnValue::Integer(v)))
                } else if v == i64::MIN {
                    None
                } else {
                    Some(Ok(ColumnValue::Integer(-v)))
                }
            },
            None => Some(Err(LineError::InvalidInteger(text.clone()))),
        }
    }
}

fn cell_from(e: &SqlExpr) -> (r: Option<Result<ColumnValue, LineError>>)
    ensures
        !(r matches Some(Err(LineError::Sql(_)))),
        match r {
            Some(Ok(v)) => cell_of(*e) == Some(Ok::<ColumnValueView, LineErrorView>(v@)),
            Some(Err(x)) => cell_of(*e) == Some(Err::<ColumnValueView, LineErrorView>(x@)),
            None => cell_of(*e) is None,
        },
{
    match e {
        SqlExpr::Negated(SqlValue::Number(t)) => number_from(t, true),
        SqlExpr::Negated(_) => Some(Err(LineError::UnsupportedNegation)),
        SqlExpr::Value(SqlValue::Number(t)) => number_from(t, false),
        SqlExpr::Value(SqlValue::SingleQuotedString(s)) => Some(Ok(ColumnValue::String(s.clone()))),
        SqlExpr::Value(SqlValue::Boolean(b)) => Some(Ok(ColumnValue::Boolean(*b))),
        SqlExpr::Value(SqlValue::Null) => Some(Ok(ColumnValue::Null)),
        SqlExpr::Value(SqlValue::Other(t)) => Some(Err(LineError::UnsupportedValue(t.clone()))),
        SqlExpr::Other(t) => Some(Err(LineError::UnsupportedValue(t.clone()))),
    }
}

fn row_from(row: &Vec<SqlExpr>) -> (r: Option<Result<Vec<ColumnValue>, LineError>>)
    ensures
        !(r matches Some(Err(LineError::Sql(_)))),
        match r {
            Some(Ok(v)) => row_of(row@) == Some(Ok::<Seq<ColumnValueView>, LineErrorView>(row_view(v@))),
            Some(Err(e)) => row_of(row@) == Some(Err::<Seq<ColumnValueView>, LineErrorView>(e@)),
            None => row_of(row@) is None,
        },
{
    let mut out: Vec<ColumnValue> = Vec::new();
    let mut i: usize = 0;
    assert(row@.take(0) =~= Seq::<SqlExpr>::empty());
    assert(row_view(out@) =~= Seq::<ColumnValueView>::empty());
    while i < row.len()
        invariant
            i <= row.len(),
            translate_all(row@.take(i as int), cell_fn()) == Some(
                Ok::<Seq<ColumnValueView>, LineErrorView>(row_view(out@)),
            ),
        decreases row.len() - i,
    {
        proof {
            lemma_translate_step(row@, cell_fn(), i as int);
        }
        match cell_from(&row[i]) {
            Some(Ok(v)) => {
                let ghost before = out@;
                out.push(v);
                assert(row_view(out@) =~= row_view(before).push(v@));
            },
            Some(Err(e)) => {
                proof {
                    lemma_translate_stops(row@, cell_fn(), i + 1);
                }
                return Some(Err(e));
            },
            None => {
                proof {
                    lemma_translate_stops(row@, cell_fn(), i + 1);
                }
                return None;
            },
        }
        i = i + 1;
    }
    assert(row@.take(row.len() as int) =~= row@);
    Some(Ok(out))
}

fn rows_from(rows: &Vec<Vec<SqlExpr>>) -> (r: Option<Result<Vec<Vec<ColumnValue>>, LineError>>)
    ensures
        !(r matches Some(Err(LineError::Sql(_)))),
        match r {
            Some(Ok(v)) => rows_of(rows@) == Some(
                Ok::<Seq<Seq<ColumnValueView>>, LineErrorView>(rows_view(v@)),
            ),
            Some(Err(e)) => rows_of(rows@) == Some(Err::<Seq<Seq<ColumnValueView>>, LineErrorView>(e@)),
            None => rows_of(rows@) is None,
        },
{
    let mut out: Vec<Vec<ColumnValue>> = Vec::new();
    let mut i: usize = 0;
    assert(rows@.take(0) =~= Seq::<Vec<SqlExpr>>::empty());
    assert(rows_view(out@) =~= Seq::<Seq<ColumnValueView>>::empty());
    while i < rows.len()
        invariant
            i <= rows.len(),
            translate_all(rows@.take(i as int), row_fn()) == Some(
                Ok::<Seq<Seq<ColumnValueView>>, LineErrorView>(rows_view(out@)),
            ),
        decreases rows.len() - i,
    {
        proof {
            lemma_translate_step(rows@, row_fn(), i as int);
        }
        match row_from(&rows[i]) {
            Some(Ok(v)) => {
                let ghost before = out@;
                let ghost vv = v@;
                out.push(v);
                assert(rows_view(out@) =~= rows_view(before).push(row_view(vv)));
            },
            Some(Err(e)) => {
                proof {
                    lemma_translate_stops(rows@, row_fn(), i + 1);
                }
                return Some(Err(e));
            },
            None => {
                proof {
                    lemma_translate_stops(rows@, row_fn(), i + 1);
                }
                return None;
            },
        }
        i = i + 1;
    }
    assert(rows@.take(rows.len() as int) =~= rows@);
    Some(Ok(out))
}

/// `line_of`, computed.
fn translate(st: &SqlStatement) -> (r: Option<Result<Line, LineError>>)
    ensures
        !(r matches Some(Err(LineError::Sql(_)))),
        match r {
            Some(x) => line_of(*st) == Some(result_view(x)),
            None => line_of(*st) is None,
        },
{
    match st {
        SqlStatement::CreateTable { name, columns } => {
            if name.len() == 0 {
                return None;
            }
            match schema_from(columns) {
                Some(Ok(cols)) => Some(Ok(Line::CreateTable(name[0].clone(), TableSchema(cols)))),
                Some(Err(e)) => Some(Err(e)),
                None => None,
            }
        },
        SqlStatement::Insert { table_name, source } => {
            if table_name.len() == 0 {
                return Some(Err(LineError::MissingTableName));
            }
            match source {
                None => Some(Err(LineError::MissingSource)),
                Some(SqlQuery::Other) => Some(Err(LineError::NoValues)),
                Some(SqlQuery::Values(rows)) => match rows_from(rows) {
                    Some(Ok(r)) => Some(Ok(Line::InsertInto(table_name[0].clone(), r))),
                    Some(Err(e)) => Some(Err(e)),
                    None => None,
                },
            }
        },
        SqlStatement::Other => Some(Ok(Line::NOP)),
    }
}

/// Translates a parsed statement into a dump line: `CREATE TABLE` into the
/// table's name (the first part of it) and schema, `INSERT INTO ... VALUES`
/// into the table's name and rows, any other statement into `NOP`.  The
/// first column or value that does not translate decides the error.
pub fn line_from_statement(st: &SqlStatement) -> (r: Result<Line, LineError>)
    requires
        line_of(*st) is Some,
    ensures
        line_of(*st) == Some(result_view(r)),
{
    match translate(st) {
        Some(r) => r,
        None => Err(LineError::MalformedStatement),
    }
}

/// The Arrow type that a column type is stored as; a boolean column has
/// none.
pub open spec fn arrow_type_of(t: ColumnType) -> Option<ArrowType> {
    match t {
        ColumnType::String => Some(ArrowType::Utf8),
        ColumnType::Integer => Some(ArrowType::Int64),
        ColumnType::Float => Some(ArrowType::Float64),
        ColumnType::Timestamp => Some(ArrowType::TimestampSeconds),
        ColumnType::Boolean => None,
    }
}

/// Whether every column of `cols` has an Arrow type.
pub open spec fn has_arrow_types(cols: Seq<ColumnDefView>) -> bool {
    forall|i: int| 0 <= i < cols.len() ==> #[trigger] arrow_type_of(cols[i].column_type) is Some
}

/// The Arrow field of a column: its name in lower case, its Arrow type and
/// whether it is nullable.
pub open spec fn arrow_field_of(c: ColumnDefView) -> (Seq<char>, ArrowType, bool) {
    (lowercase(c.column_name), arrow_type_of(c.column_type)->0, c.nullable)
}

/// The Arrow fields of a schema, one per column, in order.
pub open spec fn arrow_fields_of(cols: Seq<ColumnDefView>) -> Seq<(Seq<char>, ArrowType, bool)> {
    cols.map_values(|c: ColumnDefView| arrow_field_of(c))
}

impl TableSchema {
    /// The Arrow schema of the table: one field per column, in order, named
    /// by the column's name in lower case, and no metadata.  Boolean columns
    /// have no Arrow type yet.
    pub fn to_arrow_schema(&self) -> (r: arrow::datatypes::Schema)
        requires
            has_arrow_types(self@),
        ensures
            schema_fields(r) == arrow_fields_of(self@),
            schema_metadata(r) == no_metadata(),
            schema_fields(r).len() == self@.len(),
            forall|i: int|
                0 <= i < self@.len() ==> {
                    &&& (#[trigger] schema_fields(r)[i]).0 == lowercase(self@[i].column_name)
                    &&& schema_fields(r)[i].2 == self@[i].nullable
                    &&& self@[i].column_type == ColumnType::String ==> schema_fields(r)[i].1
                        == ArrowType::Utf8
                    &&& self@[i].column_type == ColumnType::Integer ==> schema_fields(r)[i].1
                        == ArrowType::Int64
                    &&& self@[i].column_type == ColumnType::Float ==> schema_fields(r)[i].1
                        == ArrowType::Float64
                    &&& self@[i].column_type == ColumnType::Timestamp ==> schema_fields(r)[i].1
                        == ArrowType::TimestampSeconds
                },
    {
        let mut builder = new_schema_builder();
        let mut i: usize = 0;
        while i < self.0.len()
            invariant
                i <= self.0.len(),
                has_arrow_types(self@),
                builder_fields(builder) == arrow_fields_of(self@).take(i as int),
                builder_metadata(builder) == no_metadata(),
            decreases self.0.len() - i,
        {
            let c = &self.0[i];
            assert(self@[i as int] == c@);
            let ty = match c.column_type {
                ColumnType::String => ArrowType::Utf8,
                ColumnType::Integer => ArrowType::Int64,
                ColumnType::Float => ArrowType::Float64,
                ColumnType::Timestamp => ArrowType::TimestampSeconds,
                ColumnType::Boolean => {
                    assert(arrow_type_of(self@[i as int].column_type) is Some);
                    ArrowType::Utf8
                },
            };
            push_field(&mut builder, to_lowercase(c.column_name.as_str()), ty, c.nullable);
            assert(arrow_fields_of(self@).take(i + 1) =~= arrow_fields_of(self@).take(i as int).push(
                arrow_field_of(c@),
            ));
            i = i + 1;
        }
        assert(arrow_fields_of(self@).take(self.0.len() as int) =~= arrow_fields_of(self@));
        finish_schema(builder)
    }
}

/// Whether `r` is what statement `st` translates to, or, where it has no
/// translation, `LineError::MalformedStatement`.
pub open spec fn translates_to(st: SqlStatement, r: Result<Line, LineError>) -> bool {
    match line_of(st) {
        Some(o) => o == result_view(r),
        None => r matches Err(LineError::MalformedStatement),
    }
}

/// Parses one SQL statement of a MySQL dump and translates it into a dump
/// line.  A text that the SQL parser rejects gives `LineError::Sql`, one
/// with more than one statement `LineError::TooManyStatements`, and an
/// empty one `NOP`; a single statement gives what `line_from_statement`
/// gives for it (`LineError::MalformedStatement` where it has none).
pub fn parse_line(line: &str) -> (r: Result<Line, LineError>)
    ensures
        mysql_statements(line@) is None <==> r matches Err(LineError::Sql(_)),
        mysql_statements(line@) matches Some(s) ==> (s.len() == 0 ==> r matches Ok(Line::NOP)),
        mysql_statements(line@) matches Some(s) ==> (s.len() > 1 ==> r matches Err(
            LineError::TooManyStatements,
        )),
        mysql_statements(line@) matches Some(s) ==> (s.len() == 1 ==> translates_to(s[0], r)),
{
    let stmts = match parse_statements(line) {
        Ok(v) => v,
        Err(e) => {
            return Err(LineError::Sql(parser_error_message(&e)));
        },
    };
    if stmts.len() == 0 {
        return Ok(Line::NOP);
    }
    if stmts.len() > 1 {
        return Err(LineError::TooManyStatements);
    }
    let r = match translate(&stmts[0]) {
        Some(r) => r,
        None => Err(LineError::MalformedStatement),
    };
    assert(translates_to(stmts@[0], r));
    r
}

} // verus!
