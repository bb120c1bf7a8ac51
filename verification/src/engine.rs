//! The calls into the SQLite engine and the clock.
//!
//! Nothing in this file is proved: each function hands its arguments to
//! `rusqlite` or `chrono` and converts what comes back. What a statement does
//! is decided by the engine and by what the database holds at that moment, and
//! what the clock says by the time of day, so no contract here speaks of a
//! result. The functions that call these take every answer into account.

use vstd::prelude::*;
use crate::value::Param;
use crate::value::SqlValue;
use rusqlite::types::Value;
use rusqlite::OptionalExtension;

verus! {

/// `rusqlite::Connection`: one open database. Opaque to the verifier.
#[verifier::external_type_specification]
#[verifier::external_body]
pub struct ExConnection(rusqlite::Connection);

/// `rusqlite::Error`: why the engine refused a call. Opaque to the verifier.
#[verifier::external_type_specification]
#[verifier::external_body]
pub struct ExEngineError(rusqlite::Error);

/// `std::path::Path`: a path in the file system, which need not be UTF-8.
/// Opaque to the verifier.
#[verifier::external_type_specification]
#[verifier::external_body]
pub struct ExPath(std::path::Path);

/// `rusqlite::Connection::open`: opens the database file at `path`, creating
/// it if it is absent. Nothing is claimed of the outcome.
#[verifier::external_body]
pub(crate) fn open_file(path: &std::path::Path) -> (opened: Result<rusqlite::Connection, rusqlite::Error>) {
    rusqlite::Connection::open(path)
}

/// `rusqlite::Connection::open_in_memory`: opens a fresh private database
/// that lives in memory. Nothing is claimed of the outcome.
#[verifier::external_body]
pub(crate) fn open_memory() -> (opened: Result<rusqlite::Connection, rusqlite::Error>) {
    rusqlite::Connection::open_in_memory()
}

/// `rusqlite::Connection::execute`, on parameters made by
/// `rusqlite::params_from_iter`: runs one statement with `params` bound to its
/// placeholders in order and reports how many rows it changed. Nothing is
/// claimed of the outcome.
#[verifier::external_body]
pub(crate) fn execute(conn: &rusqlite::Connection, sql: &str, params: &Vec<Param>) -> (changed: Result<usize, rusqlite::Error>) {
    conn.execute(sql, rusqlite::params_from_iter(params.iter().map(|p| match p {
        Param::Null => Value::Null,
        Param::Integer(i) => Value::Integer(*i),
        Param::Text(s) => Value::Text(s.clone()),
    })))
}

/// `rusqlite::Connection::prepare`, `rusqlite::Statement::query_row` and
/// `rusqlite::OptionalExtension::optional`: runs one query with `id` bound to
/// its one placeholder and hands out its first row, or `None` where it has no
/// row. The row is read by `rusqlite::Row::get`, one value for each of the
/// `rusqlite::Statement::column_count` columns. Nothing is claimed of the
/// outcome.
#[verifier::external_body]
pub(crate) fn query_first(conn: &rusqlite::Connection, sql: &str, id: i64) -> (row: Result<Option<Vec<SqlValue>>, rusqlite::Error>) {
    let mut stmt = conn.prepare(sql)?;
    let width = stmt.column_count();
    stmt.query_row([id], |row| (0..width).map(|i| row.get(i).map(|v| match v {
        Value::Null => SqlValue::Null,
        Value::Integer(n) => SqlValue::Integer(n),
        Value::Real(r) => SqlValue::Real(r.to_bits()),
        Value::Text(s) => SqlValue::Text(s),
        Value::Blob(b) => SqlValue::Blob(b),
    })).collect()).optional()
}

/// `rusqlite::Connection::prepare` and `rusqlite::Statement::query_map`: runs
/// one query that binds nothing and hands out all of its rows, in the order
/// in which the engine gives them. Each row is read by `rusqlite::Row::get`,
/// one value for each of the `rusqlite::Statement::column_count` columns.
/// Nothing is claimed of the outcome.
#[verifier::external_body]
pub(crate) fn query_all(conn: &rusqlite::Connection, sql: &str) -> (rows: Result<Vec<Vec<SqlValue>>, rusqlite::Error>) {
    let mut stmt = conn.prepare(sql)?;
    let width = stmt.column_count();
    let rows = stmt.query_map([], |row| (0..width).map(|i| row.get(i).map(|v| match v {
        Value::Null => SqlValue::Null,
        Value::Integer(n) => SqlValue::Integer(n),
        Value::Real(r) => SqlValue::Real(r.to_bits()),
        Value::Text(s) => SqlValue::Text(s),
        Value::Blob(b) => SqlValue::Blob(b),
    })).collect())?;
    rows.collect()
}

/// `rusqlite::Connection::last_insert_rowid`: the row id of the most recent
/// successful insert on this connection. Nothing is claimed of its value.
#[verifier::external_body]
pub(crate) fn last_insert_rowid(conn: &rusqlite::Connection) -> (rowid: i64) {
    conn.last_insert_rowid()
}

/// `std::time::SystemTime::elapsed` on the Unix epoch, then
/// `chrono::TimeDelta::from_std`, `chrono::DateTime::checked_add_signed` on
/// `chrono::DateTime::UNIX_EPOCH`, and `chrono::DateTime::to_rfc3339`: the
/// current time in UTC as an RFC 3339 string, or `None` where the clock reads
/// before 1970 or beyond what a timestamp can hold. Nothing is claimed of the
/// outcome.
#[verifier::external_body]
pub(crate) fn utc_now() -> (text: Option<String>) {
    let elapsed = std::time::UNIX_EPOCH.elapsed().ok()?;
    let delta = chrono::TimeDelta::from_std(elapsed).ok()?;
    Some(chrono::DateTime::UNIX_EPOCH.checked_add_signed(delta)?.to_rfc3339())
}

} // verus!
