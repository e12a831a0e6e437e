//! Calls into the `sqlparser` crate.  Each function here hands over one
//! layer of the parsed syntax tree as plain values, leaving the deeper
//! layers to the next call.

use vstd::prelude::*;

use sqlparser::ast::ColumnOption as ParsedColumnOption;
use sqlparser::ast::ColumnOptionDef as ParsedColumnOptionDef;
use sqlparser::ast::DataType as ParsedType;
use sqlparser::ast::Expr as ParsedExpr;
use sqlparser::ast::ObjectName as ParsedName;
use sqlparser::ast::ObjectNamePart as ParsedNamePart;
use sqlparser::ast::Query as ParsedQuery;
use sqlparser::ast::SetExpr as ParsedSetExpr;
use sqlparser::ast::Statement as ParsedStatement;
use sqlparser::ast::TableObject as ParsedTable;
use sqlparser::ast::UnaryOperator as ParsedUnaryOperator;
use sqlparser::ast::Value as ParsedValue;
use sqlparser::dialect::MySqlDialect;
use sqlparser::parser::Parser;
use sqlparser::parser::ParserError;

use crate::sql::{
    SqlColumn, SqlColumnOption, SqlDataType, SqlExpr, SqlQuery, SqlStatement, SqlValue,
};

verus! {

#[verifier::external_type_specification]
#[verifier::external_body]
pub struct ExParsedStatement(sqlparser::ast::Statement);

#[verifier::external_type_specification]
#[verifier::external_body]
pub struct ExParserError(sqlparser::parser::ParserError);

#[verifier::external_type_specification]
#[verifier::external_body]
pub struct ExParsedName(sqlparser::ast::ObjectName);

#[verifier::external_type_specification]
#[verifier::external_body]
pub struct ExParsedColumnOptionDef(sqlparser::ast::ColumnOptionDef);

#[verifier::external_type_specification]
#[verifier::external_body]
pub struct ExParsedType(sqlparser::ast::DataType);

#[verifier::external_type_specification]
#[verifier::external_body]
pub struct ExParsedQuery(sqlparser::ast::Query);

#[verifier::external_type_specification]
#[verifier::external_body]
pub struct ExParsedExpr(sqlparser::ast::Expr);

/// The statements that the `sqlparser` crate finds in a text with its MySQL
/// dialect, as the parts that a dump reader looks at (see
/// `statement_model`), or `None` where it reports a syntax error.
pub uninterp spec fn mysql_statements(text: Seq<char>) -> Option<Seq<SqlStatement>>;

/// Calls `sqlparser::parser::Parser::parse_sql` with the MySQL dialect and
/// hands each statement to `statement_model`.  The parse is a function of
/// the text alone: the contract names its result, `mysql_statements`.
#[verifier::external_body]
pub(crate) fn parse_statements(text: &str) -> (r: Result<Vec<SqlStatement>, ParserError>)
    ensures
        match r {
            Ok(v) => mysql_statements(text@) == Some(v@),
            Err(_) => mysql_statements(text@) is None,
        },
{
    Parser::parse_sql(&MySqlDialect {}, text).map(|v| v.iter().map(statement_model).collect())
}

/// Calls `Display::fmt` of `sqlparser::parser::ParserError`, the message
/// of a syntax error.  Nothing is stated of the text.
#[verifier::external_body]
pub(crate) fn parser_error_message(e: &ParserError) -> String {
    e.to_string()
}

/// Reads the parts of a `sqlparser::ast::ObjectName`: an identifier part
/// gives its value without quotes, a function part its SQL text.  Nothing
/// is stated of the result.
#[verifier::external_body]
pub(crate) fn name_parts(n: &ParsedName) -> Vec<String> {
    n.0.iter().map(|p| match p {
        ParsedNamePart::Identifier(i) => i.value.clone(),
        other => other.to_string(),
    }).collect()
}

/// The top layer of a parsed statement.
pub enum StatementNode<'a> {
    /// `CREATE TABLE`: the table name and, for each column, its name, data
    /// type and options.
    CreateTable {
        name: &'a ParsedName,
        columns: Vec<(String, &'a ParsedType, &'a Vec<ParsedColumnOptionDef>)>,
    },
    /// `INSERT INTO`: the table name (`None` for a table function) and the
    /// source query.
    Insert { table_name: Option<&'a ParsedName>, source: Option<&'a ParsedQuery> },
    /// Any other statement.
    Other,
}

/// Tells `sqlparser::ast::Statement`'s variants apart and moves out the
/// fields that a dump reader looks at.  Nothing is stated of the result.
#[verifier::external_body]
pub(crate) fn statement_node(s: &ParsedStatement) -> StatementNode<'_> {
    match s {
        ParsedStatement::CreateTable(c) => StatementNode::CreateTable {
            name: &c.name,
            columns: c.columns.iter().map(|d| (d.name.value.clone(), &d.data_type, &d.options)).collect(),
        },
        ParsedStatement::Insert(i) => StatementNode::Insert {
            table_name: match &i.table {
                ParsedTable::TableName(n) => Some(n),
                _ => None,
            },
            source: i.source.as_deref(),
        },
        _ => StatementNode::Other,
    }
}

/// Tells apart a first group of `sqlparser::ast::DataType`'s variants, one
/// arm each; `None` for every other variant.  Nothing is stated of the
/// result.
#[verifier::external_body]
pub(crate) fn data_type_group_a(t: &ParsedType) -> Option<SqlDataType> {
    match t {
        ParsedType::Varchar(_) => Some(SqlDataType::Varchar),
        ParsedType::Numeric(_) => Some(SqlDataType::Numeric),
        ParsedType::Decimal(_) => Some(SqlDataType::Decimal),
        ParsedType::BigNumeric(_) => Some(SqlDataType::BigNumeric),
        ParsedType::BigDecimal(_) => Some(SqlDataType::BigDecimal),
        ParsedType::Dec(_) => Some(SqlDataType::Dec),
        ParsedType::Float(_) => Some(SqlDataType::Float),
        ParsedType::TinyInt(_) => Some(SqlDataType::TinyInt),
        ParsedType::TinyIntUnsigned(_) => Some(SqlDataType::TinyIntUnsigned),
        ParsedType::Int2(_) => Some(SqlDataType::Int2),
        ParsedType::Int2Unsigned(_) => Some(SqlDataType::Int2Unsigned),
        _ => None,
    }
}

/// Tells apart a second group of `sqlparser::ast::DataType`'s variants, one
/// arm each; `None` for every other variant.  Nothing is stated of the
/// result.
#[verifier::external_body]
pub(crate) fn data_type_group_b(t: &ParsedType) -> Option<SqlDataType> {
    match t {
        ParsedType::SmallInt(_) => Some(SqlDataType::SmallInt),
        ParsedType::SmallIntUnsigned(_) => Some(SqlDataType::SmallIntUnsigned),
        ParsedType::MediumInt(_) => Some(SqlDataType::MediumInt),
        ParsedType::MediumIntUnsigned(_) => Some(SqlDataType::MediumIntUnsigned),
        ParsedType::Int(_) => Some(SqlDataType::Int),
        ParsedType::Int4(_) => Some(SqlDataType::Int4),
        ParsedType::Int64 => Some(SqlDataType::Int64),
        ParsedType::Integer(_) => Some(SqlDataType::Integer),
        ParsedType::IntUnsigned(_) => Some(SqlDataType::IntUnsigned),
        ParsedType::Int4Unsigned(_) => Some(SqlDataType::Int4Unsigned),
        ParsedType::IntegerUnsigned(_) => Some(SqlDataType::IntegerUnsigned),
        _ => None,
    }
}

/// Tells apart a third group of `sqlparser::ast::DataType`'s variants, one
/// arm each; `None` for every other variant.  Nothing is stated of the
/// result.
#[verifier::external_body]
pub(crate) fn data_type_group_c(t: &ParsedType) -> Option<SqlDataType> {
    match t {
        ParsedType::BigInt(_) => Some(SqlDataType::BigInt),
        ParsedType::BigIntUnsigned(_) => Some(SqlDataType::BigIntUnsigned),
        ParsedType::Int8(_) => Some(SqlDataType::Int8),
        ParsedType::Int8Unsigned(_) => Some(SqlDataType::Int8Unsigned),
        ParsedType::Float4 => Some(SqlDataType::Float4),
        ParsedType::Float64 => Some(SqlDataType::Float64),
        ParsedType::Real => Some(SqlDataType::Real),
        ParsedType::Float8 => Some(SqlDataType::Float8),
        ParsedType::Double(_) => Some(SqlDataType::Double),
        ParsedType::DoublePrecision => Some(SqlDataType::DoublePrecision),
        ParsedType::Bool => Some(SqlDataType::Bool),
        _ => None,
    }
}

/// Tells apart a fourth group of `sqlparser::ast::DataType`'s variants, one
/// arm each; `None` for every other variant.  Nothing is stated of the
/// result.
#[verifier::external_body]
pub(crate) fn data_type_group_d(t: &ParsedType) -> Option<SqlDataType> {
    match t {
        ParsedType::Boolean => Some(SqlDataType::Boolean),
        ParsedType::Date => Some(SqlDataType::Date),
        ParsedType::Time(_, _) => Some(SqlDataType::Time),
        ParsedType::Datetime(_) => Some(SqlDataType::Datetime),
        ParsedType::Timestamp(_, _) => Some(SqlDataType::Timestamp),
        ParsedType::Text => Some(SqlDataType::Text),
        ParsedType::MediumText => Some(SqlDataType::MediumText),
        ParsedType::LongText => Some(SqlDataType::LongText),
        ParsedType::String(_) => Some(SqlDataType::String),
        ParsedType::Enum(_, _) => Some(SqlDataType::Enum),
        ParsedType::Varbinary(_) => Some(SqlDataType::Varbinary),
        _ => None,
    }
}

/// The remaining data types.
pub enum TypeNode<'a> {
    /// A type with a variant of its own.
    Known(SqlDataType),
    /// A type the parser does not know, with its name.
    Custom(&'a ParsedName),
    /// Any other type, with its `Debug` text.
    Other(String),
}

/// Tells apart the remaining `sqlparser::ast::DataType` variants, one arm
/// each; any variant not listed is described by its `Debug` text.  Nothing
/// is stated of the result.
#[verifier::external_body]
pub(crate) fn data_type_group_e(t: &ParsedType) -> TypeNode<'_> {
    match t {
        ParsedType::Binary(_) => TypeNode::Known(SqlDataType::Binary),
        ParsedType::Blob(_) => TypeNode::Known(SqlDataType::Blob),
        ParsedType::Custom(n, _) => TypeNode::Custom(n),
        other => TypeNode::Other(format!("{other:?}")),
    }
}

/// Tells apart the variants of `sqlparser::ast::ColumnOption` that a dump
/// reader looks at, one arm each.  Nothing is stated of the result.
#[verifier::external_body]
pub(crate) fn column_option_node(o: &ParsedColumnOptionDef) -> SqlColumnOption {
    match &o.option {
        ParsedColumnOption::Null => SqlColumnOption::Null,
        ParsedColumnOption::NotNull => SqlColumnOption::NotNull,
        ParsedColumnOption::PrimaryKey(_) => SqlColumnOption::Unique { is_primary: true },
        ParsedColumnOption::Unique(_) => SqlColumnOption::Unique { is_primary: false },
        _ => SqlColumnOption::Other,
    }
}

/// Calls on `sqlparser::ast::Query`: the rows of its body where the body is
/// `VALUES`, `None` for any other body.  Nothing is stated of the result.
#[verifier::external_body]
pub(crate) fn query_values(q: &ParsedQuery) -> Option<Vec<&Vec<ParsedExpr>>> {
    match q.body.as_ref() {
        ParsedSetExpr::Values(values) => Some(values.rows.iter().map(|r| &r.content).collect()),
        _ => None,
    }
}

/// The top layer of an expression in a `VALUES` row.
pub enum ExprNode<'a> {
    /// A literal value.
    Value(SqlValue),
    /// Unary minus, with its operand.
    Negated(&'a ParsedExpr),
    /// Any other expression.
    Other,
}

/// Tells apart the variants of `sqlparser::ast::Expr` and of
/// `sqlparser::ast::Value` that a dump reader looks at, one arm each; an
/// unlisted value is described by its `Debug` text.  Nothing is stated of
/// the result.
#[verifier::external_body]
pub(crate) fn expr_node(e: &ParsedExpr) -> ExprNode<'_> {
    match e {
        ParsedExpr::UnaryOp { op: ParsedUnaryOperator::Minus, expr } => ExprNode::Negated(expr),
        ParsedExpr::Value(v) => ExprNode::Value(match &v.value {
            ParsedValue::Number(n, _) => SqlValue::Number(n.clone()),
            ParsedValue::SingleQuotedString(s) => SqlValue::SingleQuotedString(s.clone()),
            ParsedValue::Boolean(b) => SqlValue::Boolean(*b),
            ParsedValue::Null => SqlValue::Null,
            other => SqlValue::Other(format!("{other:?}")),
        }),
        _ => ExprNode::Other,
    }
}

/// Calls `Display::fmt` of `sqlparser::ast::Expr`, the expression's SQL
/// text.  Nothing is stated of the text.
#[verifier::external_body]
pub(crate) fn expr_text(e: &ParsedExpr) -> String {
    e.to_string()
}

fn data_type_model(t: &ParsedType) -> SqlDataType {
    match data_type_group_a(t) {
        Some(d) => d,
        None => match data_type_group_b(t) {
            Some(d) => d,
            None => match data_type_group_c(t) {
                Some(d) => d,
                None => match data_type_group_d(t) {
                    Some(d) => d,
                    None => match data_type_group_e(t) {
                        TypeNode::Known(d) => d,
                        TypeNode::Custom(name) => SqlDataType::Custom(name_parts(name)),
                        TypeNode::Other(d) => SqlDataType::Other(d),
                    },
                },
            },
        },
    }
}

/// A column under the given name, with one option for each option
/// definition, in the same order.
fn column_model(name: String, t: &ParsedType, opts: &Vec<ParsedColumnOptionDef>) -> (r: SqlColumn)
    ensures
        r.name == name,
        r.options@.len() == opts@.len(),
{
    let mut options: Vec<SqlColumnOption> = Vec::new();
    let mut i: usize = 0;
    while i < opts.len()
        invariant
            i <= opts.len(),
            options@.len() == i,
        decreases opts.len() - i,
    {
        options.push(column_option_node(&opts[i]));
        i = i + 1;
    }
    SqlColumn { name, data_type: data_type_model(t), options }
}

fn expr_model(e: &ParsedExpr) -> SqlExpr {
    match expr_node(e) {
        ExprNode::Value(v) => SqlExpr::Value(v),
        ExprNode::Negated(operand) => match expr_node(operand) {
            ExprNode::Value(v) => SqlExpr::Negated(v),
            _ => SqlExpr::Negated(SqlValue::Other(expr_text(operand))),
        },
        ExprNode::Other => SqlExpr::Other(expr_text(e)),
    }
}

/// One row of expressions for each `VALUES` row, in the same order, with
/// one expression for each expression of the row.
fn rows_model(rows: &Vec<&Vec<ParsedExpr>>) -> (r: Vec<Vec<SqlExpr>>)
    ensures
        r@.len() == rows@.len(),
        forall|i: int| 0 <= i < rows@.len() ==> (#[trigger] r@[i])@.len() == rows@[i]@.len(),
{
    let mut out: Vec<Vec<SqlExpr>> = Vec::new();
    let mut i: usize = 0;
    while i < rows.len()
        invariant
            i <= rows.len(),
            out@.len() == i,
            forall|k: int| 0 <= k < i ==> (#[trigger] out@[k])@.len() == rows@[k]@.len(),
        decreases rows.len() - i,
    {
        let row: &Vec<ParsedExpr> = rows[i];
        let mut values: Vec<SqlExpr> = Vec::new();
        let mut j: usize = 0;
        while j < row.len()
            invariant
                j <= row.len(),
                values@.len() == j,
            decreases row.len() - j,
        {
            values.push(expr_model(&row[j]));
            j = j + 1;
        }
        out.push(values);
        i = i + 1;
    }
    out
}

/// The parts of a parsed statement that a dump reader looks at.
pub(crate) fn statement_model(s: &ParsedStatement) -> SqlStatement {
    match statement_node(s) {
        StatementNode::CreateTable { name, columns } => {
            let mut cols: Vec<SqlColumn> = Vec::new();
            let mut i: usize = 0;
            while i < columns.len()
                decreases columns.len() - i,
            {
                let (n, t, opts) = &columns[i];
                cols.push(column_model(n.clone(), t, opts));
                i = i + 1;
            }
            SqlStatement::CreateTable { name: name_parts(name), columns: cols }
        },
        StatementNode::Insert { table_name, source } => {
            let source = match source {
                None => None,
                Some(q) => match query_values(q) {
                    Some(rows) => Some(SqlQuery::Values(rows_model(&rows))),
                    None => Some(SqlQuery::Other),
                },
            };
            let table_name = match table_name {
                Some(n) => name_parts(n),
                None => Vec::new(),
            };
            SqlStatement::Insert { table_name, source }
        },
        StatementNode::Other => SqlStatement::Other,
    }
}

} // verus!
