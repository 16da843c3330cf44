use vstd::prelude::*;

use crate::value::{DbValue, ValueModel};

verus! {

#[verifier::external_type_specification]
#[verifier::external_body]
pub struct ExDatabase(libsql::Database);

#[verifier::external_type_specification]
#[verifier::external_body]
pub struct ExConnection(libsql::Connection);

#[verifier::external_type_specification]
#[verifier::external_body]
pub struct ExRows(libsql::Rows);

#[verifier::external_type_specification]
#[verifier::external_body]
pub struct ExRow(libsql::Row);

#[verifier::external_type_specification]
#[verifier::external_body]
pub struct ExError(libsql::Error);

/// Relies on libsql::Database::connect, which derives a new connection from an
/// open database or reports why it could not.
#[verifier::external_body]
pub(crate) fn connect(db: &libsql::Database) -> (r: Result<libsql::Connection, libsql::Error>) {
    db.connect()
}

/// Relies on libsql::Connection::last_insert_rowid, the row id of the latest
/// insert on the connection.
#[verifier::external_body]
pub(crate) fn last_insert_rowid(conn: &libsql::Connection) -> (r: i64) {
    conn.last_insert_rowid()
}

/// The number of columns of a cursor, fixed by its statement.
pub uninterp spec fn cursor_width(rows: libsql::Rows) -> int;

/// The name of one column of a cursor, if the engine gives one.
pub uninterp spec fn cursor_name(rows: libsql::Rows, idx: int) -> Option<Seq<char>>;

/// The number of values a row holds.
pub uninterp spec fn row_width(row: libsql::Row) -> int;

/// The engine can hand out the name of this column of the cursor: the cursor
/// has the column, and a name that a local statement reports is valid UTF-8
/// (libsql panics where it is not).
pub uninterp spec fn name_readable(rows: libsql::Rows, idx: int) -> bool;

/// The engine can hand out the value at this index of the row: the index is one
/// of the row's columns, the row holds a value there (a remote row panics where
/// it does not), and a text value is valid UTF-8 (a local row panics where it
/// is not).
pub uninterp spec fn cell_readable(row: libsql::Row, idx: int) -> bool;

/// Reading the cell at this index of the row gave this value. A relation, not a
/// function: a local row reads its statement's current state.
pub uninterp spec fn read_gives(row: libsql::Row, idx: int, v: ValueModel) -> bool;

/// Reading the cell at this index of the row failed with this message.
pub uninterp spec fn read_fails(row: libsql::Row, idx: int, msg: Seq<char>) -> bool;

/// The message of an engine error.
pub uninterp spec fn engine_message(e: libsql::Error) -> Seq<char>;

/// A name by its characters.
pub open spec fn name_view(name: Option<String>) -> Option<Seq<char>> {
    match name {
        Some(s) => Some(s@),
        None => None,
    }
}

/// Relies on libsql::Rows::column_count, the number of columns of the cursor: a
/// statement's column count or the length of a list of column descriptions.
#[verifier::external_body]
pub(crate) fn column_count(rows: &libsql::Rows) -> (r: i32)
    ensures
        r == cursor_width(*rows),
        r >= 0,
        forall|i: int| #[trigger] name_readable(*rows, i) ==> 0 <= i < r,
{
    rows.column_count()
}

/// Relies on libsql::Rows::column_name, the name of one column, if the engine
/// has one. A name that is not valid UTF-8 is left out: libsql panics on it.
#[verifier::external_body]
pub(crate) fn column_name(rows: &libsql::Rows, idx: i32) -> (r: Option<String>)
    requires
        0 <= idx < cursor_width(*rows),
        name_readable(*rows, idx as int),
    ensures
        name_view(r) == cursor_name(*rows, idx as int),
{
    rows.column_name(idx).map(|s| s.to_string())
}

/// Relies on libsql::Row::column_count, the number of values of the row.
#[verifier::external_body]
pub(crate) fn row_column_count(row: &libsql::Row) -> (r: i32)
    ensures
        r == row_width(*row),
        r >= 0,
        forall|i: int| #[trigger] cell_readable(*row, i) ==> 0 <= i < r,
{
    row.column_count()
}

/// Relies on libsql::Row::get_value, the value of one cell of a row; a real is
/// handed on as the bits of its double. A cell the engine cannot hand out
/// (see `cell_readable`) is left out: libsql panics on it.
#[verifier::external_body]
pub(crate) fn cell_value(row: &libsql::Row, idx: i32) -> (r: Result<DbValue, libsql::Error>)
    requires
        0 <= idx < row_width(*row),
        cell_readable(*row, idx as int),
    ensures
        r matches Ok(v) ==> read_gives(*row, idx as int, v@),
        r matches Err(e) ==> read_fails(*row, idx as int, engine_message(e)),
{
    match row.get_value(idx)? {
        libsql::Value::Null => Ok(DbValue::Null),
        libsql::Value::Integer(i) => Ok(DbValue::Integer(i)),
        libsql::Value::Real(f) => Ok(DbValue::Real(f.to_bits())),
        libsql::Value::Text(s) => Ok(DbValue::Text(s)),
        libsql::Value::Blob(b) => Ok(DbValue::Blob(b)),
    }
}

/// Relies on the Display impl of libsql::Error, the message that the host
/// receives for a failure of the engine.
#[verifier::external_body]
pub(crate) fn error_message(e: &libsql::Error) -> (r: String)
    ensures
        r@ == engine_message(*e),
{
    e.to_string()
}

} // verus!
