use vstd::prelude::*;
use vstd::string::StringExecFns;
use crate::data::{decode_value, encode_value, ObjectId, Row, SqlValue, ValueView};
use crate::engine::{
    classify_error, exec_sql, from_engine_value, last_insert_rowid, query_first_row, query_has_row,
    to_engine_value,
};
use crate::error::{
    lemma_missing_column_references, references_schema_column, reports_schema_mismatch,
    spec_missing_column_error, EngineIncident, Error, ErrorView, MissingColumnError,
    NotFoundError, Result, UnexpectedTypeError,
};
use crate::object::{row_matches, Schema};
use rusqlite::Transaction as SqliteTransaction;

verus! {

/// One statement issued to the engine, in the library's terms. The storage
/// transaction records every statement it issues, in order.
pub enum Stmt {
    TableCheck { table: Seq<char> },
    CreateTable { table: Seq<char> },
    Insert { table: Seq<char>, row: Seq<ValueView> },
    Select { table: Seq<char>, id: i64 },
    Update { table: Seq<char>, id: i64, row: Seq<ValueView> },
    Delete { table: Seq<char>, id: i64 },
    Commit,
    Rollback,
}

/// An error kind the engine can raise on any statement: the retryable lock
/// conflict or an opaque storage failure.
pub open spec fn is_general_error(e: ErrorView) -> bool {
    e matches ErrorView::LockConflict || e matches ErrorView::Storage(_)
}

/// A capability over one live engine transaction: table existence and
/// creation, single-row reads and writes by id, and commit or rollback of
/// the engine transaction. Every statement it issues is recorded in `log`.
pub struct StorageTx<'a> {
    conn: SqliteTransaction<'a>,
    hist: Ghost<Seq<Stmt>>,
}

impl<'a> StorageTx<'a> {
    /// The statements issued through this transaction so far, oldest first.
    pub closed spec fn log(&self) -> Seq<Stmt> {
        self.hist@
    }

    /// Wraps a live engine transaction.
    pub fn new(conn: SqliteTransaction<'a>) -> (r: Self)
        ensures
            r.log() == Seq::<Stmt>::empty(),
    {
        StorageTx { conn, hist: Ghost(Seq::empty()) }
    }

    /// Asks the engine's catalog whether the table exists; creates nothing.
    pub fn table_exists(&mut self, table: &str) -> (r: Result<bool>)
        ensures
            final(self).log() == old(self).log().push(Stmt::TableCheck { table: table@ }),
            r matches Err(e) ==> is_general_error(e@),
    {
        let mut q = String::new();
        q.append("SELECT name FROM sqlite_master WHERE type='table' AND name='");
        q.append(table);
        q.append("'");
        self.hist = Ghost(self.hist@.push(Stmt::TableCheck { table: table@ }));
        match query_has_row(&self.conn, q.as_str()) {
            Ok(b) => Ok(b),
            Err(e) => Err(crate::error::general_error(classify_error(e))),
        }
    }

    /// Issues the schema's create statement. The caller checks existence
    /// first: the engine refuses to create a table twice.
    pub fn create_table(&mut self, schema: &Schema) -> (r: Result<()>)
        ensures
            final(self).log() == old(self).log().push(
                Stmt::CreateTable { table: schema@.table_name },
            ),
            r matches Err(e) ==> is_general_error(e@),
    {
        let q = schema.create_text();
        self.hist = Ghost(self.hist@.push(Stmt::CreateTable { table: schema@.table_name }));
        match exec_sql(&self.conn, q.as_str(), Vec::new()) {
            Ok(_) => Ok(()),
            Err(e) => Err(crate::error::general_error(classify_error(e))),
        }
    }

    /// Inserts one row with the schema's insert statement (or the
    /// default-values form when the row is empty) and returns the id the
    /// engine assigned. An engine message naming a missing column is
    /// translated to the structured missing-column error.
    pub fn insert_row(&mut self, schema: &Schema, row: &Row) -> (r: Result<ObjectId>)
        ensures
            final(self).log() == old(self).log().push(
                Stmt::Insert { table: schema@.table_name, row: row.deep_view() },
            ),
            r matches Err(e) ==> match e@ {
                ErrorView::MissingColumn(m) => references_schema_column(m, schema@),
                ErrorView::LockConflict => true,
                ErrorView::Storage(_) => true,
                _ => false,
            },
    {
        let q = if row.len() == 0 {
            let mut t = String::new();
            t.append("INSERT INTO ");
            t.append(schema.table_name.as_str());
            t.append(" DEFAULT VALUES");
            t
        } else {
            schema.insert_text()
        };
        let params = encode_row(row);
        self.hist = Ghost(
            self.hist@.push(Stmt::Insert { table: schema@.table_name, row: row.deep_view() }),
        );
        match exec_sql(&self.conn, q.as_str(), params) {
            Ok(n) => {
                if n == 1 {
                    Ok(ObjectId::new(last_insert_rowid(&self.conn)))
                } else {
                    Err(Error::Storage(String::from_str("insert changed an unexpected number of rows")))
                }
            },
            Err(e) => Err(missing_column_or_general(classify_error(e), schema)),
        }
    }

    /// Reads the row with this id and converts each returned column into a
    /// scalar of its declared kind. No row is the not-found condition; a
    /// column of an incompatible storage class is the type-mismatch
    /// condition naming the column and both kinds.
    pub fn select_row(&mut self, id: ObjectId, schema: &Schema) -> (r: Result<Row>)
        ensures
            final(self).log() == old(self).log().push(
                Stmt::Select { table: schema@.table_name, id: id.spec_i64() },
            ),
            r matches Ok(row) ==> row_matches(row.deep_view(), schema@.columns),
            r matches Err(e) ==> match e@ {
                ErrorView::NotFound(n) => n.object_id == id && n.type_label == schema@.type_label,
                ErrorView::UnexpectedType(u) => reports_schema_mismatch(u, schema@),
                ErrorView::MissingColumn(m) => references_schema_column(m, schema@),
                ErrorView::LockConflict => true,
                ErrorView::Storage(_) => true,
            },
    {
        let q = schema.select_text();
        self.hist = Ghost(
            self.hist@.push(Stmt::Select { table: schema@.table_name, id: id.spec_i64() }),
        );
        match query_first_row(&self.conn, q.as_str(), id.into_i64(), schema.columns.len()) {
            Err(e) => Err(missing_column_or_general(classify_error(e), schema)),
            Ok(None) => Err(
                Error::NotFound(NotFoundError::new(id, schema.type_label.clone())),
            ),
            Ok(Some(raws)) => {
                let mut out: Row = Vec::new();
                let mut i: usize = 0;
                while i < schema.columns.len()
                    invariant
                        i <= schema.columns.len() == raws.len(),
                        out.len() == i,
                        self.log() == old(self).log().push(
                            Stmt::Select { table: schema@.table_name, id: id.spec_i64() },
                        ),
                        forall|j: int|
                            0 <= j < i ==> crate::data::tag_of(#[trigger] out@[j]@)
                                == schema@.columns[j].typ,
                    decreases schema.columns.len() - i,
                {
                    let raw = from_engine_value(&raws[i]);
                    let expect = schema.columns[i].typ;
                    proof {
                        assert(expect == schema@.columns[i as int].typ);
                    }
                    match decode_value(raw, expect) {
                        Ok(v) => {
                            let ghost vv = v@;
                            out.push(v);
                            proof {
                                assert(out@[i as int]@ == vv);
                            }
                        },
                        Err(got) => {
                            let err = UnexpectedTypeError::new(
                                schema.type_label.clone(),
                                schema.columns[i].attr_name.clone(),
                                schema.table_name.clone(),
                                schema.columns[i].column_name.clone(),
                                expect,
                                got,
                            );
                            proof {
                                let j = i as int;
                                assert(0 <= j < schema@.columns.len() && err@.attr_name
                                    == schema@.columns[j].attr_name && err@.column_name
                                    == schema@.columns[j].column_name && err@.expected_type
                                    == schema@.columns[j].typ);
                                assert(reports_schema_mismatch(err@, schema@));
                            }
                            return Err(Error::UnexpectedType(err));
                        },
                    }
                    i = i + 1;
                }
                proof {
                    assert(forall|j: int|
                        0 <= j < out.deep_view().len() ==> #[trigger] out.deep_view()[j] == out@[
                            j
                        ]@);
                    assert(row_matches(out.deep_view(), schema@.columns));
                }
                Ok(out)
            },
        }
    }

    /// Updates the row with this id from the given values; a schema with no
    /// columns has nothing to update and issues nothing. Zero affected rows
    /// is not an error: existence was checked when the record was loaded.
    pub fn update_row(&mut self, id: ObjectId, schema: &Schema, row: &Row) -> (r: Result<()>)
        ensures
            schema@.columns.len() == 0 ==> final(self).log() == old(self).log() && r is Ok,
            schema@.columns.len() > 0 ==> final(self).log() == old(self).log().push(
                Stmt::Update { table: schema@.table_name, id: id.spec_i64(), row: row.deep_view() },
            ),
            r matches Err(e) ==> is_general_error(e@),
    {
        if schema.columns.len() == 0 {
            return Ok(());
        }
        let q = schema.update_text();
        let mut params = encode_row(row);
        params.push(to_engine_value(SqlValue::Integer(id.into_i64())));
        self.hist = Ghost(
            self.hist@.push(
                Stmt::Update { table: schema@.table_name, id: id.spec_i64(), row: row.deep_view() },
            ),
        );
        match exec_sql(&self.conn, q.as_str(), params) {
            Ok(_) => Ok(()),
            Err(e) => Err(crate::error::general_error(classify_error(e))),
        }
    }

    /// Deletes the row with this id; zero affected rows is the not-found
    /// condition.
    pub fn delete_row(&mut self, id: ObjectId, schema: &Schema) -> (r: Result<()>)
        ensures
            final(self).log() == old(self).log().push(
                Stmt::Delete { table: schema@.table_name, id: id.spec_i64() },
            ),
            r matches Err(e) ==> match e@ {
                ErrorView::NotFound(n) => n.object_id == id && n.type_label == schema@.type_label,
                ErrorView::LockConflict => true,
                ErrorView::Storage(_) => true,
                _ => false,
            },
    {
        let q = schema.delete_text();
        let mut params: Vec<rusqlite::types::Value> = Vec::new();
        params.push(to_engine_value(SqlValue::Integer(id.into_i64())));
        self.hist = Ghost(
            self.hist@.push(Stmt::Delete { table: schema@.table_name, id: id.spec_i64() }),
        );
        match exec_sql(&self.conn, q.as_str(), params) {
            Ok(changes) => {
                if changes == 0 {
                    Err(Error::NotFound(NotFoundError::new(id, schema.type_label.clone())))
                } else {
                    Ok(())
                }
            },
            Err(e) => Err(crate::error::general_error(classify_error(e))),
        }
    }

    /// Commits the engine transaction.
    pub fn commit(&mut self) -> (r: Result<()>)
        ensures
            final(self).log() == old(self).log().push(Stmt::Commit),
            r matches Err(e) ==> is_general_error(e@),
    {
        self.hist = Ghost(self.hist@.push(Stmt::Commit));
        match exec_sql(&self.conn, "COMMIT", Vec::new()) {
            Ok(_) => Ok(()),
            Err(e) => Err(crate::error::general_error(classify_error(e))),
        }
    }

    /// Rolls the engine transaction back.
    pub fn rollback(&mut self) -> (r: Result<()>)
        ensures
            final(self).log() == old(self).log().push(Stmt::Rollback),
            r matches Err(e) ==> is_general_error(e@),
    {
        self.hist = Ghost(self.hist@.push(Stmt::Rollback));
        match exec_sql(&self.conn, "ROLLBACK", Vec::new()) {
            Ok(_) => Ok(()),
            Err(e) => Err(crate::error::general_error(classify_error(e))),
        }
    }

}

/// Writes each scalar of a row in the engine's terms, in order.
fn encode_row(row: &Row) -> (r: Vec<rusqlite::types::Value>) {
    let mut out: Vec<rusqlite::types::Value> = Vec::new();
    let mut i: usize = 0;
    while i < row.len()
        decreases row.len() - i,
    {
        out.push(to_engine_value(encode_value(&row[i])));
        i = i + 1;
    }
    out
}

/// Translates a failed write or read: an engine message naming a missing
/// column becomes the structured missing-column error, anything else the
/// general translation.
fn missing_column_or_general(incident: EngineIncident, schema: &Schema) -> (r: Error)
    ensures
        match r@ {
            ErrorView::MissingColumn(m) => references_schema_column(m, schema@),
            ErrorView::LockConflict => true,
            ErrorView::Storage(_) => true,
            _ => false,
        },
{
    match incident {
        EngineIncident::Busy => Error::LockConflict,
        EngineIncident::NoRows { message } => missing_or_storage(message, schema),
        EngineIncident::WrongColumnType { index, got, message } => missing_or_storage(
            message,
            schema,
        ),
        EngineIncident::Failure { message } => missing_or_storage(message, schema),
        EngineIncident::Other { message } => missing_or_storage(message, schema),
    }
}

/// The structured missing-column error for an engine message, or the opaque
/// storage error carrying the message when it reports something else.
fn missing_or_storage(message: String, schema: &Schema) -> (r: Error)
    ensures
        match r@ {
            ErrorView::MissingColumn(m) => references_schema_column(m, schema@)
                && spec_missing_column_error(message@, schema@) == Some(r@),
            ErrorView::Storage(s) => s == message@ && spec_missing_column_error(message@, schema@)
                is None,
            _ => false,
        },
{
    match MissingColumnError::get_error_from_text(message.as_str(), schema) {
        Some(e) => {
            proof {
                lemma_missing_column_references(message@, schema@);
            }
            e
        },
        None => Error::Storage(message),
    }
}

} // verus!
