use vstd::prelude::*;

use crate::error::NoteError;

verus! {

/// rusqlite's open connection, carried through opaque.
#[verifier::external_type_specification]
#[verifier::external_body]
pub struct ExConnection(rusqlite::Connection);

/// rusqlite's transaction guard, carried through opaque.
#[verifier::external_type_specification]
#[verifier::external_body]
pub struct ExTransaction<'conn>(rusqlite::Transaction<'conn>);

/// A row of a running rusqlite query, read only through `column_value`.
#[verifier::external_type_specification]
#[verifier::external_body]
pub struct ExRow<'stmt>(rusqlite::Row<'stmt>);

/// rusqlite's error, mapped to `NoteError` by `failure`.
#[verifier::external_type_specification]
#[verifier::external_body]
pub struct ExSqlError(rusqlite::Error);

/// rusqlite's owned value, built only by the three constructors below.
#[verifier::external_type_specification]
#[verifier::external_body]
pub struct ExValue(rusqlite::types::Value);

/// A column value as the store hands it back.
#[derive(Debug, Clone, PartialEq, Eq)]
pub enum SqlValue {
    Null,
    Integer(i64),
    Text(String),
    /// A floating-point number or a blob: never written by this library.
    Other,
}

/// A value bound to a statement parameter.
#[derive(Debug, Clone, PartialEq, Eq)]
pub enum Param {
    Null,
    Integer(i64),
    Text(String),
}

pub open spec fn holds_int(v: SqlValue, x: int) -> bool {
    v matches SqlValue::Integer(n) && n == x
}

pub open spec fn holds_text(v: SqlValue, s: Seq<char>) -> bool {
    v matches SqlValue::Text(t) && t@ == s
}

pub open spec fn binds_int(p: Param, x: int) -> bool {
    p matches Param::Integer(n) && n == x
}

pub open spec fn binds_text(p: Param, s: Seq<char>) -> bool {
    p matches Param::Text(t) && t@ == s
}

/// Failures that the store itself reports.
pub open spec fn is_store_failure(e: NoteError) -> bool {
    e is ConstraintViolation || e is QueryError
}

/// Relies on rusqlite's `Value::Null`.
#[verifier::external_body]
fn null_value() -> rusqlite::types::Value {
    rusqlite::types::Value::Null
}

/// Relies on rusqlite's `Value::Integer`.
#[verifier::external_body]
fn integer_value(n: i64) -> rusqlite::types::Value {
    rusqlite::types::Value::Integer(n)
}

/// Relies on rusqlite's `Value::Text`.
#[verifier::external_body]
fn text_value(s: String) -> rusqlite::types::Value {
    rusqlite::types::Value::Text(s)
}

/// Relies on rusqlite's `Row::get` read as a `Value`; the variants are handed on one for one.
#[verifier::external_body]
fn column_value(row: &rusqlite::Row<'_>, i: usize) -> (r: Result<SqlValue, rusqlite::Error>) {
    Ok(match row.get::<usize, rusqlite::types::Value>(i)? {
        rusqlite::types::Value::Null => SqlValue::Null,
        rusqlite::types::Value::Integer(n) => SqlValue::Integer(n),
        rusqlite::types::Value::Text(s) => SqlValue::Text(s),
        rusqlite::types::Value::Real(_) => SqlValue::Other,
        rusqlite::types::Value::Blob(_) => SqlValue::Other,
    })
}

/// Relies on rusqlite's `Connection::prepare` and `Statement::query_map`: every
/// row goes through `row_values`.
#[verifier::external_body]
fn query_rows(
    conn: &rusqlite::Connection,
    sql: &str,
    args: &Vec<rusqlite::types::Value>,
    width: usize,
) -> (r: Result<Vec<Vec<SqlValue>>, rusqlite::Error>)
    ensures
        r matches Ok(rows) ==> forall|i: int| 0 <= i < rows@.len() ==> (#[trigger] rows@[i])@.len() == width,
{
    let mut stmt = conn.prepare(sql)?;
    let rows = stmt.query_map(rusqlite::params_from_iter(args.iter()), |row| row_values(row, width))?;
    rows.collect()
}

/// Relies on rusqlite's `Connection::execute`, which returns the number of rows changed.
#[verifier::external_body]
fn execute_statement(conn: &rusqlite::Connection, sql: &str, args: &Vec<rusqlite::types::Value>)
    -> (r: Result<usize, rusqlite::Error>)
{
    conn.execute(sql, rusqlite::params_from_iter(args.iter()))
}

/// Relies on rusqlite's `Connection::prepare` and `Statement::insert`, which
/// returns the rowid of the one row inserted.
#[verifier::external_body]
fn insert_statement(conn: &rusqlite::Connection, sql: &str, args: &Vec<rusqlite::types::Value>)
    -> (r: Result<i64, rusqlite::Error>)
{
    conn.prepare(sql)?.insert(rusqlite::params_from_iter(args.iter()))
}

/// Relies on rusqlite's `Connection::unchecked_transaction`: the transaction
/// rolls back when it is dropped without a commit.
#[verifier::external_body]
fn begin_transaction(conn: &rusqlite::Connection) -> (r: Result<
    rusqlite::Transaction<'_>,
    rusqlite::Error,
>) {
    conn.unchecked_transaction()
}

/// Relies on rusqlite's `Transaction::commit`.
#[verifier::external_body]
fn commit_transaction(tx: rusqlite::Transaction<'_>) -> (r: Result<(), rusqlite::Error>) {
    tx.commit()
}

/// Relies on rusqlite's `Error::sqlite_error_code`.
#[verifier::external_body]
fn is_constraint_violation(e: &rusqlite::Error) -> bool {
    e.sqlite_error_code() == Some(rusqlite::ErrorCode::ConstraintViolation)
}

/// Relies on rusqlite's `Display` for its errors.
#[verifier::external_body]
fn error_message(e: &rusqlite::Error) -> String {
    e.to_string()
}

/// Reads the first `width` columns of a row.
fn row_values(row: &rusqlite::Row<'_>, width: usize) -> (r: Result<Vec<SqlValue>, rusqlite::Error>)
    ensures
        r matches Ok(v) ==> v@.len() == width,
{
    let mut out: Vec<SqlValue> = Vec::new();
    let mut i: usize = 0;
    while i < width
        invariant
            i <= width,
            out@.len() == i,
        decreases width - i,
    {
        let v = column_value(row, i)?;
        out.push(v);
        i = i + 1;
    }
    Ok(out)
}

fn bind(params: &Vec<Param>) -> (r: Vec<rusqlite::types::Value>)
    ensures
        r@.len() == params@.len(),
{
    let mut out: Vec<rusqlite::types::Value> = Vec::new();
    let mut i: usize = 0;
    while i < params.len()
        invariant
            i <= params@.len(),
            out@.len() == i,
        decreases params@.len() - i,
    {
        let v = match &params[i] {
            Param::Null => null_value(),
            Param::Integer(n) => integer_value(*n),
            Param::Text(s) => text_value(s.clone()),
        };
        out.push(v);
        i = i + 1;
    }
    out
}

/// The library's error for a failure that the store returned: a broken
/// storage constraint (such as a duplicate broker name) is `ConstraintViolation`,
/// anything else is `QueryError`; both carry the store's message.
pub fn store_failure(constraint: bool, message: String) -> (r: NoteError)
    ensures
        constraint ==> r == NoteError::ConstraintViolation(message),
        !constraint ==> r == NoteError::QueryError(message),
{
    if constraint {
        NoteError::ConstraintViolation(message)
    } else {
        NoteError::QueryError(message)
    }
}

/// The library's error for a rusqlite failure, as `store_failure` maps it.
pub fn failure(e: rusqlite::Error) -> (r: NoteError)
    ensures
        is_store_failure(r),
{
    store_failure(is_constraint_violation(&e), error_message(&e))
}

/// Runs a query and returns its rows, each cut to `width` columns.
pub fn query(conn: &rusqlite::Connection, sql: &str, params: &Vec<Param>, width: usize) -> (r: Result<
    Vec<Vec<SqlValue>>,
    NoteError,
>)
    ensures
        r matches Ok(rows) ==> forall|i: int| 0 <= i < rows@.len() ==> (#[trigger] rows@[i])@.len() == width,
        r matches Err(e) ==> is_store_failure(e),
{
    match query_rows(conn, sql, &bind(params), width) {
        Ok(rows) => Ok(rows),
        Err(e) => Err(failure(e)),
    }
}

/// Runs a statement and returns the number of rows it changed.
pub fn execute(conn: &rusqlite::Connection, sql: &str, params: &Vec<Param>) -> (r: Result<
    usize,
    NoteError,
>)
    ensures
        r matches Err(e) ==> is_store_failure(e),
{
    match execute_statement(conn, sql, &bind(params)) {
        Ok(n) => Ok(n),
        Err(e) => Err(failure(e)),
    }
}

/// Runs an insert of one row and returns the row's id.
pub fn insert(conn: &rusqlite::Connection, sql: &str, params: &Vec<Param>) -> (r: Result<
    i64,
    NoteError,
>)
    ensures
        r matches Err(e) ==> is_store_failure(e),
{
    match insert_statement(conn, sql, &bind(params)) {
        Ok(id) => Ok(id),
        Err(e) => Err(failure(e)),
    }
}

/// Opens a transaction on the connection; dropping it uncommitted rolls it back.
pub fn begin(conn: &rusqlite::Connection) -> (r: Result<rusqlite::Transaction<'_>, NoteError>)
    ensures
        r matches Err(e) ==> e is TransactionError,
{
    match begin_transaction(conn) {
        Ok(tx) => Ok(tx),
        Err(e) => Err(NoteError::TransactionError(error_message(&e))),
    }
}

/// Commits a transaction.
pub fn commit(tx: rusqlite::Transaction<'_>) -> (r: Result<(), NoteError>)
    ensures
        r matches Err(e) ==> e is TransactionError,
{
    match commit_transaction(tx) {
        Ok(()) => Ok(()),
        Err(e) => Err(NoteError::TransactionError(error_message(&e))),
    }
}

/// The integer in column `i`.
pub fn int_column(row: &Vec<SqlValue>, i: usize) -> (r: Result<i64, NoteError>)
    requires
        i < row@.len(),
    ensures
        r matches Ok(n) ==> holds_int(row@[i as int], n as int),
        r is Err <==> !(row@[i as int] is Integer),
        r matches Err(e) ==> e is MalformedRow,
{
    match &row[i] {
        SqlValue::Integer(n) => Ok(*n),
        _ => Err(NoteError::MalformedRow),
    }
}

/// The non-negative integer in column `i`: an amount or a money figure.
pub fn natural_column(row: &Vec<SqlValue>, i: usize) -> (r: Result<u64, NoteError>)
    requires
        i < row@.len(),
    ensures
        r matches Ok(n) ==> holds_int(row@[i as int], n as int),
        r is Err <==> !(row@[i as int] matches SqlValue::Integer(n) && n >= 0),
        r matches Err(e) ==> e is MalformedRow,
{
    match &row[i] {
        SqlValue::Integer(n) => if *n >= 0 {
            Ok(*n as u64)
        } else {
            Err(NoteError::MalformedRow)
        },
        _ => Err(NoteError::MalformedRow),
    }
}

/// The text in column `i`.
pub fn text_column(row: &Vec<SqlValue>, i: usize) -> (r: Result<String, NoteError>)
    requires
        i < row@.len(),
    ensures
        r matches Ok(s) ==> holds_text(row@[i as int], s@),
        r is Err <==> !(row@[i as int] is Text),
        r matches Err(e) ==> e is MalformedRow,
{
    match &row[i] {
        SqlValue::Text(s) => Ok(s.clone()),
        _ => Err(NoteError::MalformedRow),
    }
}

} // verus!
