//! The SQLite calls that presets, magic directories and statistics make,
//! through `rusqlite`.
//!
//! What a statement returns depends on the database file at the time of the
//! call, so these items state nothing of the rows themselves; they state the
//! shape that the conversion of each value gives.

use vstd::prelude::*;

verus! {

/// An open SQLite database (`rusqlite::Connection`).
#[verifier::external_type_specification]
#[verifier::external_body]
pub struct ExConnection(rusqlite::Connection);

/// An error that SQLite or `rusqlite` reports (`rusqlite::Error`).
#[verifier::external_type_specification]
#[verifier::external_body]
pub struct ExSqlError(rusqlite::Error);

/// A prepared statement (`rusqlite::Statement`).
#[verifier::external_type_specification]
#[verifier::external_body]
pub struct ExStatement<'conn>(rusqlite::Statement<'conn>);

/// The rows of a running query (`rusqlite::Rows`).
#[verifier::external_type_specification]
#[verifier::external_body]
pub struct ExRows<'stmt>(rusqlite::Rows<'stmt>);

/// One row of a query (`rusqlite::Row`).
#[verifier::external_type_specification]
#[verifier::external_body]
pub struct ExRow<'stmt>(rusqlite::Row<'stmt>);

/// An open transaction (`rusqlite::Transaction`).
#[verifier::external_type_specification]
#[verifier::external_body]
pub struct ExTransaction<'conn>(rusqlite::Transaction<'conn>);

/// A value bound to a statement or read from a row.
#[derive(Debug, Clone, PartialEq, Eq)]
pub enum SqlValue {
    Null,
    Integer(i64),
    Text(String),
    Boolean(bool),
}

/// The type that a column is read as.
#[derive(Debug, Clone, Copy, PartialEq, Eq, Structural)]
pub enum SqlType {
    /// `i64`; NULL or another type is an error.
    Integer,
    /// `Option<i64>`: NULL reads as `Null`.
    OptionalInteger,
    /// `String`; NULL or another type is an error.
    Text,
    /// `bool`, read from an integer (non-zero is true).
    Boolean,
}

/// Whether a value read as `t` has the form that `t` gives.
pub open spec fn value_has_type(v: SqlValue, t: SqlType) -> bool {
    match t {
        SqlType::Integer => v is Integer,
        SqlType::OptionalInteger => v is Integer || v is Null,
        SqlType::Text => v is Text,
        SqlType::Boolean => v is Boolean,
    }
}

/// Opens the SQLite database file at `path`, creating it when it does not
/// exist (`Connection::open`). Whether that works depends on the file
/// system, so nothing is stated of the outcome.
#[verifier::external_body]
pub(crate) fn open_file(path: &str) -> Result<rusqlite::Connection, rusqlite::Error> {
    rusqlite::Connection::open(path)
}

/// Sets how long a statement waits on a locked database
/// (`Connection::busy_timeout`). That method panics when the time in
/// milliseconds does not fit in an `i32`, which `requires` rules out.
#[verifier::external_body]
pub(crate) fn set_busy_timeout(conn: &rusqlite::Connection, seconds: u64) -> Result<(), rusqlite::Error>
    requires
        seconds * 1000 <= i32::MAX,
{
    conn.busy_timeout(std::time::Duration::from_secs(seconds))
}

/// Runs one statement with positional parameters (`Connection::execute`),
/// each value bound as the SQLite value of the same kind (a truth value as
/// 0 or 1), and returns the number of rows it changed. The count depends on
/// the database, so nothing is stated of it.
#[verifier::external_body]
pub(crate) fn execute(conn: &rusqlite::Connection, sql: &str, params: &Vec<SqlValue>) -> Result<usize, rusqlite::Error> {
    conn.execute(sql, rusqlite::params_from_iter(params.iter().map(|p| match p {
        SqlValue::Null => rusqlite::types::Value::Null,
        SqlValue::Integer(i) => rusqlite::types::Value::from(*i),
        SqlValue::Text(t) => rusqlite::types::Value::from(t.clone()),
        SqlValue::Boolean(b) => rusqlite::types::Value::from(*b),
    })))
}

/// Runs several statements without parameters (`Connection::execute_batch`).
#[verifier::external_body]
pub(crate) fn execute_batch(conn: &rusqlite::Connection, sql: &str) -> Result<(), rusqlite::Error> {
    conn.execute_batch(sql)
}

/// The row id of the last successful insert (`Connection::last_insert_rowid`).
#[verifier::external_body]
pub(crate) fn last_insert_rowid(conn: &rusqlite::Connection) -> i64 {
    conn.last_insert_rowid()
}

/// Prepares a statement (`Connection::prepare`).
#[verifier::external_body]
pub(crate) fn prepare<'conn>(conn: &'conn rusqlite::Connection, sql: &str) -> Result<rusqlite::Statement<'conn>, rusqlite::Error> {
    conn.prepare(sql)
}

/// Starts a query with positional parameters (`Statement::query`), bound as
/// `execute` binds them.
#[verifier::external_body]
pub(crate) fn query<'stmt>(statement: &'stmt mut rusqlite::Statement<'_>, params: &Vec<SqlValue>) -> Result<rusqlite::Rows<'stmt>, rusqlite::Error> {
    statement.query(rusqlite::params_from_iter(params.iter().map(|p| match p {
        SqlValue::Null => rusqlite::types::Value::Null,
        SqlValue::Integer(i) => rusqlite::types::Value::from(*i),
        SqlValue::Text(t) => rusqlite::types::Value::from(t.clone()),
        SqlValue::Boolean(b) => rusqlite::types::Value::from(*b),
    })))
}

/// The next row of a query, or `None` after the last (`Rows::next`).
#[verifier::external_body]
pub(crate) fn next_row<'a, 'stmt>(rows: &'a mut rusqlite::Rows<'stmt>) -> Result<Option<&'a rusqlite::Row<'stmt>>, rusqlite::Error> {
    rows.next()
}

/// Column `index` of a row as an integer (`Row::get::<i64>`); NULL or text
/// is an error.
#[verifier::external_body]
fn column_integer(row: &rusqlite::Row<'_>, index: usize) -> Result<i64, rusqlite::Error> {
    row.get(index)
}

/// Column `index` of a row as an optional integer
/// (`Row::get::<Option<i64>>`); NULL reads as `None`.
#[verifier::external_body]
fn column_optional_integer(row: &rusqlite::Row<'_>, index: usize) -> Result<Option<i64>, rusqlite::Error> {
    row.get(index)
}

/// Column `index` of a row as text (`Row::get::<String>`); NULL or an
/// integer is an error.
#[verifier::external_body]
fn column_text(row: &rusqlite::Row<'_>, index: usize) -> Result<String, rusqlite::Error> {
    row.get(index)
}

/// Column `index` of a row as a truth value (`Row::get::<bool>`), read from
/// an integer.
#[verifier::external_body]
fn column_bool(row: &rusqlite::Row<'_>, index: usize) -> Result<bool, rusqlite::Error> {
    row.get(index)
}

/// The value of column `index`, read as `t`. A value of another type is an
/// error from `rusqlite`; a value read has the form that `t` gives.
pub fn column(row: &rusqlite::Row<'_>, index: usize, t: SqlType) -> (r: Result<SqlValue, rusqlite::Error>)
    ensures
        r matches Ok(v) ==> value_has_type(v, t),
{
    match t {
        SqlType::Integer => {
            let v = column_integer(row, index)?;
            Ok(SqlValue::Integer(v))
        },
        SqlType::OptionalInteger => {
            let v = column_optional_integer(row, index)?;
            match v {
                Some(i) => Ok(SqlValue::Integer(i)),
                None => Ok(SqlValue::Null),
            }
        },
        SqlType::Text => {
            let v = column_text(row, index)?;
            Ok(SqlValue::Text(v))
        },
        SqlType::Boolean => {
            let v = column_bool(row, index)?;
            Ok(SqlValue::Boolean(v))
        },
    }
}

/// The error that a query for one row gives when there is none
/// (`rusqlite::Error::QueryReturnedNoRows`).
#[verifier::external_body]
pub(crate) fn no_rows_error() -> rusqlite::Error {
    rusqlite::Error::QueryReturnedNoRows
}

/// Starts a transaction (`Connection::transaction`); it is rolled back when
/// dropped without a commit.
#[verifier::external_body]
pub(crate) fn begin_transaction(conn: &mut rusqlite::Connection) -> Result<rusqlite::Transaction<'_>, rusqlite::Error> {
    conn.transaction()
}

/// The connection that a transaction runs on (`Transaction` dereferenced to
/// `Connection`).
#[verifier::external_body]
pub(crate) fn transaction_connection<'a>(transaction: &'a rusqlite::Transaction<'_>) -> &'a rusqlite::Connection {
    transaction
}

/// Commits a transaction (`Transaction::commit`).
#[verifier::external_body]
pub(crate) fn commit(transaction: rusqlite::Transaction<'_>) -> Result<(), rusqlite::Error> {
    transaction.commit()
}

/// The message of an error (`rusqlite::Error` shown with `Display`).
#[verifier::external_body]
pub(crate) fn error_text(error: &rusqlite::Error) -> String {
    error.to_string()
}

/// The integer of a value read as an integer (0 for another form).
pub open spec fn int_value(v: SqlValue) -> i64 {
    match v {
        SqlValue::Integer(i) => i,
        _ => 0,
    }
}

/// The integer of a value read as an optional integer.
pub open spec fn optional_int_value(v: SqlValue) -> Option<i64> {
    match v {
        SqlValue::Integer(i) => Some(i),
        _ => None,
    }
}

/// The text of a value read as text (empty for another form).
pub open spec fn text_value(v: SqlValue) -> Seq<char> {
    match v {
        SqlValue::Text(t) => t@,
        _ => Seq::empty(),
    }
}

/// The truth value of a value read as a boolean.
pub open spec fn bool_value(v: SqlValue) -> bool {
    match v {
        SqlValue::Boolean(b) => b,
        _ => false,
    }
}

/// The integer in column `i` of a row.
pub fn int_at(row: &Vec<SqlValue>, i: usize) -> (r: i64)
    requires
        i < row@.len(),
    ensures
        r == int_value(row@[i as int]),
{
    match &row[i] {
        SqlValue::Integer(v) => *v,
        _ => 0,
    }
}

/// The optional integer in column `i` of a row.
pub fn optional_int_at(row: &Vec<SqlValue>, i: usize) -> (r: Option<i64>)
    requires
        i < row@.len(),
    ensures
        r == optional_int_value(row@[i as int]),
{
    match &row[i] {
        SqlValue::Integer(v) => Some(*v),
        _ => None,
    }
}

/// The text in column `i` of a row.
pub fn text_at(row: &Vec<SqlValue>, i: usize) -> (r: String)
    requires
        i < row@.len(),
    ensures
        r@ == text_value(row@[i as int]),
{
    match &row[i] {
        SqlValue::Text(t) => t.clone(),
        _ => String::new(),
    }
}

/// The truth value in column `i` of a row.
pub fn bool_at(row: &Vec<SqlValue>, i: usize) -> (r: bool)
    requires
        i < row@.len(),
    ensures
        r == bool_value(row@[i as int]),
{
    match &row[i] {
        SqlValue::Boolean(b) => *b,
        _ => false,
    }
}

/// Reads all rows of a query, each column read as the type given for it.
pub fn query_all(conn: &rusqlite::Connection, sql: &str, params: &Vec<SqlValue>, types: &Vec<SqlType>) -> (r: Result<Vec<Vec<SqlValue>>, rusqlite::Error>)
    ensures
        r matches Ok(rows) ==> forall|i: int| 0 <= i < rows@.len() ==> row_has_types(#[trigger] rows@[i]@, types@),
{
    let mut statement = prepare(conn, sql)?;
    let mut rows = query(&mut statement, params)?;
    let mut out: Vec<Vec<SqlValue>> = Vec::new();
    // A vector holds at most `usize::MAX` rows, so reading stops there.
    while out.len() < usize::MAX
        invariant
            forall|i: int| 0 <= i < out@.len() ==> row_has_types(#[trigger] out@[i]@, types@),
        decreases usize::MAX - out@.len(),
    {
        let next = next_row(&mut rows)?;
        match next {
            None => {
                return Ok(out);
            },
            Some(row) => {
                let values = read_row(row, types)?;
                out.push(values);
            },
        }
    }
    Ok(out)
}

/// Whether each value of a row has the form that its column's type gives.
pub open spec fn row_has_types(row: Seq<SqlValue>, types: Seq<SqlType>) -> bool {
    &&& row.len() == types.len()
    &&& forall|i: int| 0 <= i < row.len() ==> value_has_type(#[trigger] row[i], types[i])
}

/// Reads the columns of one row, each as the type given for it.
pub fn read_row(row: &rusqlite::Row<'_>, types: &Vec<SqlType>) -> (r: Result<Vec<SqlValue>, rusqlite::Error>)
    ensures
        r matches Ok(values) ==> row_has_types(values@, types@),
{
    let mut values: Vec<SqlValue> = Vec::new();
    let mut i: usize = 0;
    while i < types.len()
        invariant
            i <= types@.len(),
            values@.len() == i,
            forall|k: int| 0 <= k < i ==> value_has_type(#[trigger] values@[k], types@[k]),
        decreases types@.len() - i,
    {
        let v = column(row, i, types[i])?;
        values.push(v);
        i = i + 1;
    }
    Ok(values)
}

/// Whether `run`, asked to run the statement with text `sql` and the
/// values `params`, may have answered `out`.
pub open spec fn executed<E: Fn(String, Vec<SqlValue>) -> Result<usize, rusqlite::Error>>(
    run: E,
    sql: Seq<char>,
    params: Seq<SqlValue>,
    out: Result<usize, rusqlite::Error>,
) -> bool {
    exists|s: String, p: Vec<SqlValue>|
        s@ == sql && p@ == params && #[trigger] call_ensures(run, (s, p), out)
}

/// Whether `run`, asked to run the statement with text `sql` with values
/// that `params_ok` accepts, may have answered `out`.
pub open spec fn ran<E: Fn(String, Vec<SqlValue>) -> Result<usize, rusqlite::Error>>(
    run: E,
    sql: Seq<char>,
    params_ok: spec_fn(Seq<SqlValue>) -> bool,
    out: Result<usize, rusqlite::Error>,
) -> bool {
    exists|s: String, p: Vec<SqlValue>| s@ == sql && params_ok(p@) && #[trigger] call_ensures(run, (s, p), out)
}

/// Whether `query`, asked to read the rows of the statement with text `sql`
/// with values that `params_ok` accepts, each column read as `types` says,
/// may have answered `out`.
pub open spec fn queried<Q: Fn(String, Vec<SqlValue>, Vec<SqlType>) -> Result<Vec<Vec<SqlValue>>, rusqlite::Error>>(
    query: Q,
    sql: Seq<char>,
    params_ok: spec_fn(Seq<SqlValue>) -> bool,
    types: Seq<SqlType>,
    out: Result<Vec<Vec<SqlValue>>, rusqlite::Error>,
) -> bool {
    exists|s: String, p: Vec<SqlValue>, t: Vec<SqlType>|
        s@ == sql && params_ok(p@) && t@ == types && #[trigger] call_ensures(query, (s, p, t), out)
}

/// Whether rows that a query answered have the column types it was asked for.
pub open spec fn rows_typed(out: Result<Vec<Vec<SqlValue>>, rusqlite::Error>, types: Seq<SqlType>) -> bool {
    out matches Ok(rows) ==> forall|i: int| 0 <= i < rows@.len() ==> row_has_types(#[trigger] rows@[i]@, types)
}

/// Whether a query runner can always be called, and answers rows of the
/// column types it is asked for.
pub open spec fn well_typed_query<Q: Fn(String, Vec<SqlValue>, Vec<SqlType>) -> Result<Vec<Vec<SqlValue>>, rusqlite::Error>>(query: Q) -> bool {
    &&& forall|s: String, p: Vec<SqlValue>, t: Vec<SqlType>| call_requires(query, (s, p, t))
    &&& forall|s: String, p: Vec<SqlValue>, t: Vec<SqlType>, out: Result<Vec<Vec<SqlValue>>, rusqlite::Error>|
        call_ensures(query, (s, p, t), out) ==> rows_typed(out, t@)
}

} // verus!
