//! The host's database rules: how the application's parameters are bound,
//! how result rows become `SqlData`, and how failures are reported back.
use vstd::prelude::*;

use crate::text::str_equals;

verus! {

/// A value exchanged with the application's SQL effects.
#[derive(Debug)]
pub enum SqlData {
    Boolean(bool),
    Int(i64),
    Null,
    Text(String),
}

/// The failures that the application's SQL effects can report.
#[derive(Clone, Copy, Debug, PartialEq, Eq)]
pub enum SqlError {
    /// A single-row query returned no row.
    NotFound,
    /// The database refused or failed the query.
    QueryFailed,
}

/// What a statement reports on success.
#[derive(Clone, Copy, Debug, PartialEq, Eq)]
pub struct RocExecuteResult {
    pub last_insert_rowid: i64,
    pub rows_affected: u64,
}

/// A parameter as it is bound to a query.
#[derive(Debug)]
pub enum SqlParam {
    Int(i64),
    Bool(bool),
    Text(String),
    /// SQL `NULL`, bound with the integer type.
    NullInt,
}

/// How a database call failed, as far as the host tells failures apart.
#[derive(Clone, Copy, Debug, PartialEq, Eq)]
pub enum DbFailure {
    /// A single-row query found no row.
    RowNotFound,
    /// Any other failure.
    Other,
}

/// The column types that the host can read back.
#[derive(Clone, Copy, Debug, PartialEq, Eq)]
pub enum ColumnKind {
    Text,
    Boolean,
    Integer,
}

/// One column of a result row, decoded by its kind; `None` is SQL `NULL`.
#[derive(Debug)]
pub enum ColumnValue {
    Text(Option<String>),
    Boolean(Option<bool>),
    Integer(Option<i64>),
}

/// How a value of the application is bound.
pub open spec fn param_of(d: SqlData) -> SqlParam {
    match d {
        SqlData::Int(i) => SqlParam::Int(i),
        SqlData::Boolean(b) => SqlParam::Bool(b),
        SqlData::Text(s) => SqlParam::Text(s),
        SqlData::Null => SqlParam::NullInt,
    }
}

/// The `SqlData` that a decoded column becomes.
pub open spec fn data_of(v: ColumnValue) -> SqlData {
    match v {
        ColumnValue::Text(Some(s)) => SqlData::Text(s),
        ColumnValue::Boolean(Some(b)) => SqlData::Boolean(b),
        ColumnValue::Integer(Some(i)) => SqlData::Int(i),
        _ => SqlData::Null,
    }
}

/// The kind of a column, by the name of its declared type.
pub open spec fn kind_of_decl_type(name: Seq<char>) -> Option<ColumnKind> {
    if name == "TEXT"@ {
        Some(ColumnKind::Text)
    } else if name == "BOOLEAN"@ {
        Some(ColumnKind::Boolean)
    } else if name == "INTEGER"@ {
        Some(ColumnKind::Integer)
    } else {
        None
    }
}

/// The error reported for a failed single-row query.
pub open spec fn fetch_one_error(f: DbFailure) -> SqlError {
    match f {
        DbFailure::RowNotFound => SqlError::NotFound,
        DbFailure::Other => SqlError::QueryFailed,
    }
}

/// Every value binds as itself: an integer as that integer, a boolean as
/// that boolean, a text as that text; only `Null` binds as NULL.
pub proof fn lemma_params_bind_as_themselves(i: i64, b: bool, s: String, d: SqlData)
    ensures
        param_of(SqlData::Int(i)) == SqlParam::Int(i),
        param_of(SqlData::Boolean(b)) == SqlParam::Bool(b),
        param_of(SqlData::Text(s)) == SqlParam::Text(s),
        param_of(SqlData::Null) == SqlParam::NullInt,
        (param_of(d) is NullInt) <==> (d is Null),
{
}

/// A column that is not NULL keeps its value; a NULL column is `Null`.
pub proof fn lemma_columns_keep_their_values(i: i64, b: bool, s: String)
    ensures
        data_of(ColumnValue::Integer(Some(i))) == SqlData::Int(i),
        data_of(ColumnValue::Boolean(Some(b))) == SqlData::Boolean(b),
        data_of(ColumnValue::Text(Some(s))) == SqlData::Text(s),
        data_of(ColumnValue::Integer(None)) == SqlData::Null,
        data_of(ColumnValue::Boolean(None)) == SqlData::Null,
        data_of(ColumnValue::Text(None)) == SqlData::Null,
{
}

/// A single-row query with no row reports `NotFound`; every other failure
/// reports `QueryFailed`.
pub proof fn lemma_fetch_one_errors()
    ensures
        fetch_one_error(DbFailure::RowNotFound) == SqlError::NotFound,
        fetch_one_error(DbFailure::Other) == SqlError::QueryFailed,
{
}

/// The three column types the host reads back are named by their SQL type
/// names, in upper case.
pub proof fn lemma_column_type_names()
    ensures
        kind_of_decl_type("TEXT"@) == Some(ColumnKind::Text),
        kind_of_decl_type("BOOLEAN"@) == Some(ColumnKind::Boolean),
        kind_of_decl_type("INTEGER"@) == Some(ColumnKind::Integer),
        kind_of_decl_type("text"@) is None,
        kind_of_decl_type(""@) is None,
{
    reveal_strlit("TEXT");
    reveal_strlit("BOOLEAN");
    reveal_strlit("INTEGER");
    reveal_strlit("text");
    reveal_strlit("");
    assert("TEXT"@.len() == 4);
    assert("BOOLEAN"@.len() == 7);
    assert("INTEGER"@.len() == 7);
    assert(""@.len() == 0);
    assert("BOOLEAN"@ != "TEXT"@);
    assert("INTEGER"@ != "TEXT"@);
    assert("INTEGER"@[0] != "BOOLEAN"@[0]);
    assert("INTEGER"@ != "BOOLEAN"@);
    assert("text"@[0] != "TEXT"@[0]);
    assert("text"@ != "TEXT"@);
    assert(""@ != "TEXT"@);
    assert(""@ != "BOOLEAN"@);
    assert(""@ != "INTEGER"@);
}

/// Binds one value of the application.
pub fn bind_param(d: &SqlData) -> (p: SqlParam)
    ensures
        p == param_of(*d),
{
    match d {
        SqlData::Int(i) => SqlParam::Int(*i),
        SqlData::Boolean(b) => SqlParam::Bool(*b),
        SqlData::Text(s) => SqlParam::Text(s.clone()),
        SqlData::Null => SqlParam::NullInt,
    }
}

/// Binds the application's parameter list, in order.
pub fn bind_params(params: &Vec<SqlData>) -> (bound: Vec<SqlParam>)
    ensures
        bound@ == params@.map_values(|d: SqlData| param_of(d)),
{
    let mut bound: Vec<SqlParam> = Vec::new();
    let n = params.len();
    for i in 0..n
        invariant
            n == params@.len(),
            bound@ == params@.take(i as int).map_values(|d: SqlData| param_of(d)),
    {
        let p = bind_param(&params[i]);
        bound.push(p);
        assert(params@.take(i + 1) == params@.take(i as int).push(params@[i as int]));
    }
    assert(params@.take(n as int) == params@);
    bound
}

/// The kind of a column by its type name; `None` for a type the host cannot
/// read back.
pub fn column_kind(decl_type: &str) -> (kind: Option<ColumnKind>)
    ensures
        kind == kind_of_decl_type(decl_type@),
{
    if str_equals(decl_type, "TEXT") {
        Some(ColumnKind::Text)
    } else if str_equals(decl_type, "BOOLEAN") {
        Some(ColumnKind::Boolean)
    } else if str_equals(decl_type, "INTEGER") {
        Some(ColumnKind::Integer)
    } else {
        None
    }
}

/// Turns one decoded column into `SqlData`.
pub fn translate_column(v: &ColumnValue) -> (d: SqlData)
    ensures
        d == data_of(*v),
{
    match v {
        ColumnValue::Text(Some(s)) => SqlData::Text(s.clone()),
        ColumnValue::Boolean(Some(b)) => SqlData::Boolean(*b),
        ColumnValue::Integer(Some(i)) => SqlData::Int(*i),
        _ => SqlData::Null,
    }
}

/// Turns a decoded result row into the application's row, column by column.
pub fn translate_row(row: &Vec<ColumnValue>) -> (out: Vec<SqlData>)
    ensures
        out@ == row@.map_values(|v: ColumnValue| data_of(v)),
{
    let mut out: Vec<SqlData> = Vec::new();
    let n = row.len();
    for i in 0..n
        invariant
            n == row@.len(),
            out@ == row@.take(i as int).map_values(|v: ColumnValue| data_of(v)),
    {
        let d = translate_column(&row[i]);
        out.push(d);
        assert(row@.take(i + 1) == row@.take(i as int).push(row@[i as int]));
    }
    assert(row@.take(n as int) == row@);
    out
}

/// A column comes back as `Null` exactly when it holds SQL `NULL`.
pub proof fn lemma_null_exactly_for_null_columns(v: ColumnValue)
    ensures
        (data_of(v) is Null) <==> (match v {
            ColumnValue::Text(t) => t is None,
            ColumnValue::Boolean(b) => b is None,
            ColumnValue::Integer(i) => i is None,
        }),
{
}

/// Reports the outcome of a statement to the application.
pub fn execute_result(outcome: Result<RocExecuteResult, DbFailure>) -> (r: Result<
    RocExecuteResult,
    SqlError,
>)
    ensures
        r == (match outcome {
            Ok(res) => Ok(res),
            Err(_) => Err(SqlError::QueryFailed),
        }),
{
    match outcome {
        Ok(res) => Ok(res),
        Err(_) => Err(SqlError::QueryFailed),
    }
}

/// Reports the outcome of a multi-row query to the application.
pub fn fetch_all_result(outcome: &Result<Vec<Vec<ColumnValue>>, DbFailure>) -> (r: Result<
    Vec<Vec<SqlData>>,
    SqlError,
>)
    ensures
        match (*outcome, r) {
            (Ok(rows), Ok(out)) => out@.len() == rows@.len() && forall|i: int|
                0 <= i < rows@.len() ==> #[trigger] out@[i]@ == rows@[i]@.map_values(
                    |v: ColumnValue| data_of(v),
                ),
            (Err(_), Err(e)) => e == SqlError::QueryFailed,
            _ => false,
        },
{
    match outcome {
        Ok(rows) => {
            let mut out: Vec<Vec<SqlData>> = Vec::new();
            let n = rows.len();
            for i in 0..n
                invariant
                    n == rows@.len(),
                    out@.len() == i,
                    forall|j: int|
                        0 <= j < i ==> #[trigger] out@[j]@ == rows@[j]@.map_values(
                            |v: ColumnValue| data_of(v),
                        ),
            {
                let row = translate_row(&rows[i]);
                out.push(row);
            }
            Ok(out)
        },
        Err(_) => Err(SqlError::QueryFailed),
    }
}

/// Reports the outcome of a single-row query to the application.
pub fn fetch_one_result(outcome: &Result<Vec<ColumnValue>, DbFailure>) -> (r: Result<
    Vec<SqlData>,
    SqlError,
>)
    ensures
        match (*outcome, r) {
            (Ok(row), Ok(out)) => out@ == row@.map_values(|v: ColumnValue| data_of(v)),
            (Err(f), Err(e)) => e == fetch_one_error(f),
            _ => false,
        },
{
    match outcome {
        Ok(row) => Ok(translate_row(row)),
        Err(DbFailure::RowNotFound) => Err(SqlError::NotFound),
        Err(DbFailure::Other) => Err(SqlError::QueryFailed),
    }
}

} // verus!
