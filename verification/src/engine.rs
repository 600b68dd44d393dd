use vstd::prelude::*;
use rusqlite::Error as SqliteError;
use rusqlite::Transaction as SqliteTransaction;
use rusqlite::types::Value as SqliteValue;
use crate::data::SqlValue;
use crate::error::EngineIncident;

verus! {

#[verifier::external_type_specification]
#[verifier::external_body]
pub struct ExRusqliteTransaction<'a>(SqliteTransaction<'a>);

#[verifier::external_type_specification]
#[verifier::external_body]
pub struct ExRusqliteError(SqliteError);

#[verifier::external_type_specification]
#[verifier::external_body]
pub struct ExEngineValue(SqliteValue);

/// Relies on rusqlite::Connection::execute (reached through the
/// transaction's deref): runs one SQL statement with the given positional
/// parameters and reports how many rows it changed.
#[verifier::external_body]
pub(crate) fn exec_sql(
    conn: &SqliteTransaction<'_>,
    sql: &str,
    params: Vec<SqliteValue>,
) -> (r: core::result::Result<usize, SqliteError>) {
    conn.execute(sql, rusqlite::params_from_iter(params))
}

/// Relies on rusqlite::Connection::last_insert_rowid: the row id the engine
/// assigned to the most recent successful insert on this connection.
#[verifier::external_body]
pub(crate) fn last_insert_rowid(conn: &SqliteTransaction<'_>) -> (r: i64) {
    conn.last_insert_rowid()
}

/// Relies on rusqlite::Statement::query: whether the statement, run with no
/// parameters, returns at least one row.
#[verifier::external_body]
pub(crate) fn query_has_row(conn: &SqliteTransaction<'_>, sql: &str) -> (r:
    core::result::Result<bool, SqliteError>) {
    let mut stmt = conn.prepare_cached(sql)?;
    let mut rows = stmt.query(())?;
    Ok(rows.next()?.is_some())
}

/// Relies on rusqlite::Statement::query and rusqlite::Row::get: runs the
/// statement with the id bound, reads the first returned row as one raw
/// engine value per column, and reports whether any row came back at all.
#[verifier::external_body]
pub(crate) fn query_first_row(
    conn: &SqliteTransaction<'_>,
    sql: &str,
    id: i64,
    ncols: usize,
) -> (r: core::result::Result<Option<Vec<SqliteValue>>, SqliteError>)
    ensures
        r matches Ok(Some(v)) ==> v@.len() == ncols,
{
    let mut stmt = conn.prepare_cached(sql)?;
    let mut rows = stmt.query([id])?;
    match rows.next()? {
        None => Ok(None),
        Some(row) => {
            let mut out = Vec::with_capacity(ncols);
            for i in 0..ncols {
                out.push(row.get(i)?);
            }
            Ok(Some(out))
        },
    }
}

/// Relies on rusqlite::types::Value: rebuilds the engine's tagged scalar
/// from a storage-class value; stored float bits become the integer with
/// the same bit pattern.
#[verifier::external_body]
pub(crate) fn to_engine_value(v: SqlValue) -> (r: SqliteValue) {
    match v {
        SqlValue::Null => SqliteValue::Null,
        SqlValue::Integer(i) => SqliteValue::Integer(i),
        SqlValue::Real(b) => SqliteValue::Integer(b as i64),
        SqlValue::Text(s) => SqliteValue::Text(s),
        SqlValue::Blob(b) => SqliteValue::Blob(b),
    }
}

/// Relies on rusqlite::types::Value and f64::to_bits: reduces the engine's
/// tagged scalar to a storage-class value; a float becomes its bit pattern.
#[verifier::external_body]
pub(crate) fn from_engine_value(v: &SqliteValue) -> (r: SqlValue) {
    match v {
        SqliteValue::Null => SqlValue::Null,
        SqliteValue::Integer(i) => SqlValue::Integer(*i),
        SqliteValue::Real(x) => SqlValue::Real(x.to_bits()),
        SqliteValue::Text(s) => SqlValue::Text(s.clone()),
        SqliteValue::Blob(b) => SqlValue::Blob(b.clone()),
    }
}

/// Relies on rusqlite::Error and rusqlite::ErrorCode: tells the engine's
/// failure classes apart and carries their text out as plain values.
#[verifier::external_body]
pub(crate) fn classify_error(e: SqliteError) -> (r: EngineIncident) {
    match &e {
        SqliteError::SqliteFailure(c, _) if c.code == rusqlite::ErrorCode::DatabaseBusy => {
            EngineIncident::Busy
        },
        SqliteError::SqliteFailure(_, _) => EngineIncident::Failure { message: e.to_string() },
        SqliteError::QueryReturnedNoRows => EngineIncident::NoRows { message: e.to_string() },
        SqliteError::InvalidColumnType(i, _, t) => {
            EngineIncident::WrongColumnType { index: *i, got: t.to_string(), message: e.to_string() }
        },
        _ => EngineIncident::Other { message: e.to_string() },
    }
}

} // verus!
