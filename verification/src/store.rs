//! The embedded store: the values it holds and the calls that reach it.
//!
//! Whatever the store answers depends on what it holds at that moment, so
//! the calls below promise nothing about their answers. The rest of the
//! crate is proved for every answer they can give.

use vstd::prelude::*;

verus! {

/// An open connection to the store. Nothing inside it is visible to proofs.
#[verifier::external_type_specification]
#[verifier::external_body]
pub struct ExConnection(rusqlite::Connection);

/// A failure reported by the store. Nothing inside it is visible to proofs.
#[verifier::external_type_specification]
#[verifier::external_body]
pub struct ExStoreError(rusqlite::Error);

/// The store's own dynamically typed value, used only to hand parameters over.
#[verifier::external_type_specification]
#[verifier::external_body]
pub struct ExOutsideValue(rusqlite::types::Value);

/// The row a running query currently stands on.
#[verifier::external_type_specification]
#[verifier::external_body]
pub struct ExOutsideRow<'stmt>(rusqlite::Row<'stmt>);

/// The store's name for a per-connection switch.
#[verifier::external_type_specification]
#[verifier::external_body]
pub struct ExOutsideOption(rusqlite::config::DbConfig);

/// What one column of one row holds, as a mathematical value.
pub enum ColumnValue {
    /// SQL `NULL`.
    Null,
    /// A signed 64-bit integer.
    Integer(i64),
    /// A floating-point number, as its IEEE-754 bit pattern.
    Real(u64),
    /// A text string.
    Text(Seq<char>),
    /// A byte string.
    Blob(Seq<u8>),
}

/// A value bound to a placeholder of a statement.
#[derive(Debug, Clone, PartialEq, Eq)]
pub enum SqlParam {
    /// SQL `NULL`.
    Null,
    /// A signed 64-bit integer.
    Integer(i64),
    /// A text string.
    Text(String),
}

impl View for SqlParam {
    type V = ColumnValue;

    open spec fn view(&self) -> ColumnValue {
        match self {
            SqlParam::Null => ColumnValue::Null,
            SqlParam::Integer(i) => ColumnValue::Integer(*i),
            SqlParam::Text(text) => ColumnValue::Text(text@),
        }
    }
}

/// A value read from one column of a row.
#[derive(Debug, Clone, PartialEq, Eq)]
pub enum SqlValue {
    /// SQL `NULL`.
    Null,
    /// A signed 64-bit integer.
    Integer(i64),
    /// A floating-point number, kept as its IEEE-754 bit pattern.
    Real(u64),
    /// A text string.
    Text(String),
    /// A byte string.
    Blob(Vec<u8>),
}

impl View for SqlValue {
    type V = ColumnValue;

    open spec fn view(&self) -> ColumnValue {
        match self {
            SqlValue::Null => ColumnValue::Null,
            SqlValue::Integer(i) => ColumnValue::Integer(*i),
            SqlValue::Real(bits) => ColumnValue::Real(*bits),
            SqlValue::Text(text) => ColumnValue::Text(text@),
            SqlValue::Blob(bytes) => ColumnValue::Blob(bytes@),
        }
    }
}

/// The mathematical row that a sequence of values stands for.
pub open spec fn row_view(row: Seq<SqlValue>) -> Seq<ColumnValue> {
    Seq::new(row.len(), |i: int| row[i]@)
}

/// The mathematical row that a sequence of parameters stands for.
pub open spec fn params_view(params: Seq<SqlParam>) -> Seq<ColumnValue> {
    Seq::new(params.len(), |i: int| params[i]@)
}

/// The per-connection switches this crate turns on.
#[derive(Debug, Clone, Copy, PartialEq, Eq)]
pub enum ConfigOption {
    /// Enforcement of foreign-key constraints.
    ForeignKeys,
    /// Firing of triggers.
    Triggers,
}

/// What a `rusqlite::Row` holds: for each column of the row that a query
/// stands on, in column order, its value, or nothing where the column is a
/// text that is not valid UTF-8 and so cannot be read.
pub uninterp spec fn row_values(row: rusqlite::Row) -> Seq<Option<ColumnValue>>;

/// Whether every column of a row can be read.
pub open spec fn is_readable(held: Seq<Option<ColumnValue>>) -> bool {
    forall|i: int| 0 <= i < held.len() ==> (#[trigger] held[i]) is Some
}

/// The values of a row whose columns can all be read.
pub open spec fn read_values(held: Seq<Option<ColumnValue>>) -> Seq<ColumnValue> {
    Seq::new(held.len(), |i: int| held[i].unwrap())
}

/// `rusqlite::Statement::column_count`, reached through the row: the number
/// of columns of the row.
#[verifier::external_body]
fn column_count(row: &rusqlite::Row) -> (n: usize)
    ensures
        n == row_values(*row).len(),
{
    row.as_ref().column_count()
}

/// `rusqlite::Row::get` at the store's own dynamic type: the value of column
/// `idx`, variant for variant, a floating-point number as its bit pattern.
/// It fails for an index past the last column and for a text that is not
/// valid UTF-8, and for nothing else.
#[verifier::external_body]
fn column_value(row: &rusqlite::Row, idx: usize) -> (r: Result<SqlValue, rusqlite::Error>)
    ensures
        idx < row_values(*row).len() ==> match row_values(*row)[idx as int] {
            Some(held) => r matches Ok(value) && value@ == held,
            None => r is Err,
        },
        idx >= row_values(*row).len() ==> r is Err,
{
    Ok(match row.get(idx)? {
        rusqlite::types::Value::Null => SqlValue::Null,
        rusqlite::types::Value::Integer(i) => SqlValue::Integer(i),
        rusqlite::types::Value::Real(x) => SqlValue::Real(x.to_bits()),
        rusqlite::types::Value::Text(text) => SqlValue::Text(text),
        rusqlite::types::Value::Blob(bytes) => SqlValue::Blob(bytes),
    })
}

/// Copies the columns of the row a query stands on. The copy succeeds
/// exactly when every column can be read, and then holds the value of each
/// column in column order.
pub(crate) fn read_row(row: &rusqlite::Row) -> (r: Result<Vec<SqlValue>, rusqlite::Error>)
    ensures
        match r {
            Ok(cells) => is_readable(row_values(*row)) && row_view(cells@) == read_values(
                row_values(*row),
            ),
            Err(_) => !is_readable(row_values(*row)),
        },
{
    let count = column_count(row);
    let mut cells: Vec<SqlValue> = Vec::new();
    let mut idx: usize = 0;
    while idx < count
        invariant
            idx <= count,
            count == row_values(*row).len(),
            cells@.len() == idx,
            forall|i: int|
                0 <= i < idx ==> (#[trigger] row_values(*row)[i]) == Some(cells@[i]@),
        decreases count - idx,
    {
        match column_value(row, idx) {
            Ok(value) => {
                cells.push(value);
            },
            Err(e) => {
                assert(row_values(*row)[idx as int] is None);
                return Err(e);
            },
        }
        idx = idx + 1;
    }
    assert(row_view(cells@) =~= read_values(row_values(*row)));
    Ok(cells)
}

/// Hands one parameter to the store: `rusqlite::types::Value` with the same
/// variant and payload. Nothing is claimed of the opaque result.
#[verifier::external_body]
fn outside_value(param: &SqlParam) -> rusqlite::types::Value {
    match param {
        SqlParam::Null => rusqlite::types::Value::Null,
        SqlParam::Integer(i) => rusqlite::types::Value::Integer(*i),
        SqlParam::Text(text) => rusqlite::types::Value::Text(text.clone()),
    }
}

/// The parameters of a statement in the form the store takes them.
fn outside_values(params: &Vec<SqlParam>) -> (values: Vec<rusqlite::types::Value>)
    ensures
        values@.len() == params@.len(),
{
    let mut values: Vec<rusqlite::types::Value> = Vec::new();
    let mut idx: usize = 0;
    while idx < params.len()
        invariant
            idx <= params@.len(),
            values@.len() == idx,
        decreases params@.len() - idx,
    {
        values.push(outside_value(&params[idx]));
        idx = idx + 1;
    }
    values
}

/// `rusqlite::Connection::execute`: runs one statement with positional
/// parameters and answers how many rows it changed, or the store's error.
#[verifier::external_body]
fn execute_statement(
    conn: &rusqlite::Connection,
    sql: &str,
    values: &Vec<rusqlite::types::Value>,
) -> Result<usize, rusqlite::Error> {
    conn.execute(sql, rusqlite::params_from_iter(values.iter()))
}

/// `rusqlite::Connection::query_row`: runs one query with positional
/// parameters and answers the copied columns of its first row, or the store's
/// error; a query without rows is an error.
#[verifier::external_body]
fn query_first_row(
    conn: &rusqlite::Connection,
    sql: &str,
    values: &Vec<rusqlite::types::Value>,
) -> Result<Vec<SqlValue>, rusqlite::Error> {
    conn.query_row(sql, rusqlite::params_from_iter(values.iter()), |row| read_row(row))
}

/// `rusqlite::Connection::prepare` and `rusqlite::Statement::query_map`: runs
/// one query with positional parameters and answers the copied columns of
/// every row, in the order the store gives them, or the store's error.
#[verifier::external_body]
fn query_every_row(
    conn: &rusqlite::Connection,
    sql: &str,
    values: &Vec<rusqlite::types::Value>,
) -> Result<Vec<Vec<SqlValue>>, rusqlite::Error> {
    let mut statement = conn.prepare(sql)?;
    let rows = statement.query_map(rusqlite::params_from_iter(values.iter()), |row| read_row(row))?;
    rows.collect()
}

/// `rusqlite::Connection::open`: opens the store kept in the file at `path`,
/// creating the file when there is none, or answers the store's error.
#[verifier::external_body]
pub(crate) fn open_store(path: &str) -> Result<rusqlite::Connection, rusqlite::Error> {
    rusqlite::Connection::open(path)
}

/// `rusqlite::Connection::open_in_memory`: opens a fresh store that lives in
/// memory, or answers the store's error.
pub assume_specification[ rusqlite::Connection::open_in_memory ]() -> Result<
    rusqlite::Connection,
    rusqlite::Error,
>;

/// `rusqlite::Connection::execute_batch`: runs the statements of a script one
/// after the other, stopping at the first that fails.
pub assume_specification[ rusqlite::Connection::execute_batch ](
    conn: &rusqlite::Connection,
    sql: &str,
) -> Result<(), rusqlite::Error>;

/// `rusqlite::Connection::last_insert_rowid`: the row identifier that the most
/// recent successful insert on this connection assigned.
pub assume_specification[ rusqlite::Connection::last_insert_rowid ](
    conn: &rusqlite::Connection,
) -> i64;

/// `rusqlite::Connection::db_config`: whether a switch is on.
pub assume_specification[ rusqlite::Connection::db_config ](
    conn: &rusqlite::Connection,
    config: rusqlite::config::DbConfig,
) -> Result<bool, rusqlite::Error>;

/// `rusqlite::Connection::set_db_config`: turns a switch on or off and answers
/// its value after the call.
pub assume_specification[ rusqlite::Connection::set_db_config ](
    conn: &rusqlite::Connection,
    config: rusqlite::config::DbConfig,
    new_val: bool,
) -> Result<bool, rusqlite::Error>;

/// The variant of `rusqlite::config::DbConfig` that names a switch. Nothing
/// is claimed of the opaque result.
#[verifier::external_body]
pub(crate) fn outside_option(option: ConfigOption) -> rusqlite::config::DbConfig {
    match option {
        ConfigOption::ForeignKeys => rusqlite::config::DbConfig::SQLITE_DBCONFIG_ENABLE_FKEY,
        ConfigOption::Triggers => rusqlite::config::DbConfig::SQLITE_DBCONFIG_ENABLE_TRIGGER,
    }
}

/// Runs one statement with the given parameters; answers how many rows it
/// changed.
pub(crate) fn execute(conn: &rusqlite::Connection, sql: &str, params: &Vec<SqlParam>) -> Result<
    usize,
    rusqlite::Error,
> {
    let values = outside_values(params);
    execute_statement(conn, sql, &values)
}

/// Runs one query with the given parameters; answers its first row.
pub(crate) fn query_row(conn: &rusqlite::Connection, sql: &str, params: &Vec<SqlParam>) -> Result<
    Vec<SqlValue>,
    rusqlite::Error,
> {
    let values = outside_values(params);
    query_first_row(conn, sql, &values)
}

/// Runs one query with the given parameters; answers all its rows.
pub(crate) fn query_rows(conn: &rusqlite::Connection, sql: &str, params: &Vec<SqlParam>) -> Result<
    Vec<Vec<SqlValue>>,
    rusqlite::Error,
> {
    let values = outside_values(params);
    query_every_row(conn, sql, &values)
}

} // verus!
