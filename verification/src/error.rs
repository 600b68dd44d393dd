use vstd::prelude::*;
use vstd::string::{StringExecFns, StrSliceExecFns};
use crate::data::{DataType, ObjectId};
use crate::object::{ColumnView, Schema, SchemaView};
use crate::text::{find_substr, first_match_from, spec_trim, trim_str};

verus! {

/// A row that was asked for does not exist (or is already removed).
#[derive(Debug, Clone)]
pub struct NotFoundError {
    pub object_id: ObjectId,
    pub type_label: String,
}

/// Mathematical form of a `NotFoundError`.
pub struct NotFoundErrorView {
    pub object_id: ObjectId,
    pub type_label: Seq<char>,
}

impl View for NotFoundError {
    type V = NotFoundErrorView;

    open spec fn view(&self) -> NotFoundErrorView {
        NotFoundErrorView { object_id: self.object_id, type_label: self.type_label@ }
    }
}

impl NotFoundError {
    pub fn new(object_id: ObjectId, type_label: String) -> (r: Self)
        ensures
            r@.object_id == object_id,
            r@.type_label == type_label@,
    {
        Self { object_id, type_label }
    }
}

/// The engine returned a column of a kind other than the one declared.
#[derive(Debug, Clone)]
pub struct UnexpectedTypeError {
    pub type_label: String,
    pub attr_name: String,
    pub table_name: String,
    pub column_name: String,
    pub expected_type: DataType,
    pub got_type: String,
}

/// Mathematical form of an `UnexpectedTypeError`.
pub struct UnexpectedTypeErrorView {
    pub type_label: Seq<char>,
    pub attr_name: Seq<char>,
    pub table_name: Seq<char>,
    pub column_name: Seq<char>,
    pub expected_type: DataType,
    pub got_type: Seq<char>,
}

impl View for UnexpectedTypeError {
    type V = UnexpectedTypeErrorView;

    open spec fn view(&self) -> UnexpectedTypeErrorView {
        UnexpectedTypeErrorView {
            type_label: self.type_label@,
            attr_name: self.attr_name@,
            table_name: self.table_name@,
            column_name: self.column_name@,
            expected_type: self.expected_type,
            got_type: self.got_type@,
        }
    }
}

impl UnexpectedTypeError {
    pub fn new(
        type_label: String,
        attr_name: String,
        table_name: String,
        column_name: String,
        expected_type: DataType,
        got_type: String,
    ) -> (r: Self)
        ensures
            r@.type_label == type_label@,
            r@.attr_name == attr_name@,
            r@.table_name == table_name@,
            r@.column_name == column_name@,
            r@.expected_type == expected_type,
            r@.got_type == got_type@,
    {
        Self { type_label, attr_name, table_name, column_name, expected_type, got_type }
    }
}

/// The engine reports that a column the schema declares is missing.
#[derive(Debug, Clone)]
pub struct MissingColumnError {
    pub type_label: String,
    pub attr_name: String,
    pub table_name: String,
    pub column_name: String,
}

/// Mathematical form of a `MissingColumnError`.
pub struct MissingColumnErrorView {
    pub type_label: Seq<char>,
    pub attr_name: Seq<char>,
    pub table_name: Seq<char>,
    pub column_name: Seq<char>,
}

impl View for MissingColumnError {
    type V = MissingColumnErrorView;

    open spec fn view(&self) -> MissingColumnErrorView {
        MissingColumnErrorView {
            type_label: self.type_label@,
            attr_name: self.attr_name@,
            table_name: self.table_name@,
            column_name: self.column_name@,
        }
    }
}

/// Everything this library can fail with. `LockConflict` is the only kind a
/// caller may sensibly retry; every other kind ends the unit of work.
#[derive(Debug, Clone)]
pub enum Error {
    NotFound(NotFoundError),
    UnexpectedType(UnexpectedTypeError),
    MissingColumn(MissingColumnError),
    LockConflict,
    Storage(String),
}

/// Mathematical form of an `Error`.
pub enum ErrorView {
    NotFound(NotFoundErrorView),
    UnexpectedType(UnexpectedTypeErrorView),
    MissingColumn(MissingColumnErrorView),
    LockConflict,
    Storage(Seq<char>),
}

impl View for Error {
    type V = ErrorView;

    open spec fn view(&self) -> ErrorView {
        match self {
            Error::NotFound(e) => ErrorView::NotFound(e@),
            Error::UnexpectedType(e) => ErrorView::UnexpectedType(e@),
            Error::MissingColumn(e) => ErrorView::MissingColumn(e@),
            Error::LockConflict => ErrorView::LockConflict,
            Error::Storage(m) => ErrorView::Storage(m@),
        }
    }
}

pub type Result<T> = core::result::Result<T, Error>;

/// What one failed engine call amounts to, reduced to plain values at the
/// boundary: the busy condition, an empty result set, a column of the wrong
/// kind, or any other failure with its message.
#[derive(Debug, Clone)]
pub enum EngineIncident {
    Busy,
    NoRows { message: String },
    WrongColumnType { index: usize, got: String, message: String },
    Failure { message: String },
    Other { message: String },
}

/// Mathematical form of an `EngineIncident`.
pub enum EngineIncidentView {
    Busy,
    NoRows { message: Seq<char> },
    WrongColumnType { index: usize, got: Seq<char>, message: Seq<char> },
    Failure { message: Seq<char> },
    Other { message: Seq<char> },
}

impl View for EngineIncident {
    type V = EngineIncidentView;

    open spec fn view(&self) -> EngineIncidentView {
        match self {
            EngineIncident::Busy => EngineIncidentView::Busy,
            EngineIncident::NoRows { message } => EngineIncidentView::NoRows {
                message: message@,
            },
            EngineIncident::WrongColumnType { index, got, message } => (
            EngineIncidentView::WrongColumnType {
                index: *index,
                got: got@,
                message: message@,
            }),
            EngineIncident::Failure { message } => EngineIncidentView::Failure {
                message: message@,
            },
            EngineIncident::Other { message } => EngineIncidentView::Other { message: message@ },
        }
    }
}

/// The error an engine incident turns into when no more specific translation
/// applies: the busy condition is the retryable lock conflict, everything
/// else an opaque storage error carrying the engine's message.
pub open spec fn spec_general_error(i: EngineIncidentView) -> ErrorView {
    match i {
        EngineIncidentView::Busy => ErrorView::LockConflict,
        EngineIncidentView::NoRows { message } => ErrorView::Storage(message),
        EngineIncidentView::WrongColumnType { index, got, message } => ErrorView::Storage(message),
        EngineIncidentView::Failure { message } => ErrorView::Storage(message),
        EngineIncidentView::Other { message } => ErrorView::Storage(message),
    }
}

/// An engine incident on its way into the library's taxonomy.
pub struct ErrorWithCtx<T> {
    pub inner: T,
}

impl From<ErrorWithCtx<EngineIncident>> for Error {
    fn from(err: ErrorWithCtx<EngineIncident>) -> (r: Error) {
        match err.inner {
            EngineIncident::Busy => Error::LockConflict,
            EngineIncident::NoRows { message } => Error::Storage(message),
            EngineIncident::WrongColumnType { index, got, message } => Error::Storage(message),
            EngineIncident::Failure { message } => Error::Storage(message),
            EngineIncident::Other { message } => Error::Storage(message),
        }
    }
}

impl vstd::std_specs::convert::FromSpecImpl<ErrorWithCtx<EngineIncident>> for Error {
    open spec fn obeys_from_spec() -> bool {
        true
    }

    open spec fn from_spec(err: ErrorWithCtx<EngineIncident>) -> Error {
        match err.inner {
            EngineIncident::Busy => Error::LockConflict,
            EngineIncident::NoRows { message } => Error::Storage(message),
            EngineIncident::WrongColumnType { index, got, message } => Error::Storage(message),
            EngineIncident::Failure { message } => Error::Storage(message),
            EngineIncident::Other { message } => Error::Storage(message),
        }
    }
}

/// Translates an engine incident that no caller handled more specifically.
pub fn general_error(incident: EngineIncident) -> (r: Error)
    ensures
        r@ == spec_general_error(incident@),
{
    match incident {
        EngineIncident::Busy => Error::LockConflict,
        EngineIncident::NoRows { message } => Error::Storage(message),
        EngineIncident::WrongColumnType { index, got, message } => Error::Storage(message),
        EngineIncident::Failure { message } => Error::Storage(message),
        EngineIncident::Other { message } => Error::Storage(message),
    }
}

/// The column name an engine message complains about: the trimmed text after
/// the first missing-column marker, if either marker occurs.
pub open spec fn spec_missing_name(text: Seq<char>) -> Option<Seq<char>> {
    let m1 = "no such column:"@;
    let m2 = "has no column named"@;
    match first_match_from(text, m1, 0) {
        Some(i) => Some(spec_trim(text.subrange(i + m1.len(), text.len() as int))),
        None => match first_match_from(text, m2, 0) {
            Some(i) => Some(spec_trim(text.subrange(i + m2.len(), text.len() as int))),
            None => None,
        },
    }
}

/// The index of the first column with this name.
pub open spec fn first_column_from(cols: Seq<ColumnView>, name: Seq<char>, i: int) -> Option<int>
    decreases cols.len() - i,
{
    if i < 0 || i >= cols.len() {
        None
    } else if cols[i].column_name == name {
        Some(i)
    } else {
        first_column_from(cols, name, i + 1)
    }
}

/// The missing-column error a failed engine message translates to: the first
/// schema column of the reported name, or the implicit id column when the
/// message names `id`, or nothing when the message is not about a missing
/// column known to the schema.
pub open spec fn spec_missing_column_error(text: Seq<char>, schema: SchemaView) -> Option<
    ErrorView,
> {
    match spec_missing_name(text) {
        None => None,
        Some(name) => match first_column_from(schema.columns, name, 0) {
            Some(j) => Some(
                ErrorView::MissingColumn(
                    MissingColumnErrorView {
                        type_label: schema.type_label,
                        attr_name: schema.columns[j].attr_name,
                        table_name: schema.table_name,
                        column_name: schema.columns[j].column_name,
                    },
                ),
            ),
            None => if name == "id"@ {
                Some(
                    ErrorView::MissingColumn(
                        MissingColumnErrorView {
                            type_label: schema.type_label,
                            attr_name: "id"@,
                            table_name: schema.table_name,
                            column_name: "id"@,
                        },
                    ),
                )
            } else {
                None
            },
        },
    }
}

impl MissingColumnError {
    pub fn new(
        type_label: String,
        attr_name: String,
        table_name: String,
        column_name: String,
    ) -> (r: Self)
        ensures
            r@.type_label == type_label@,
            r@.attr_name == attr_name@,
            r@.table_name == table_name@,
            r@.column_name == column_name@,
    {
        Self { type_label, attr_name, table_name, column_name }
    }

    /// Reads an engine failure message and, when it reports a missing column
    /// that the schema (or the implicit id column) accounts for, builds the
    /// structured missing-column error for it.
    pub fn get_error_from_text(err_text: &str, schema: &Schema) -> (r: Option<Error>)
        ensures
            match r {
                Some(e) => spec_missing_column_error(err_text@, schema@) == Some(e@),
                None => spec_missing_column_error(err_text@, schema@) is None,
            },
    {
        let m1 = "no such column:";
        let m2 = "has no column named";
        let n = err_text.unicode_len();
        let tail_start: usize;
        match find_substr(err_text, m1) {
            Some(i) => {
                tail_start = i + m1.unicode_len();
            },
            None => {
                match find_substr(err_text, m2) {
                    Some(i) => {
                        tail_start = i + m2.unicode_len();
                    },
                    None => {
                        return None;
                    },
                }
            },
        }
        let tail = err_text.substring_char(tail_start, n);
        let name = trim_str(tail);
        proof {
            assert(spec_missing_name(err_text@) == Some(name@));
        }
        let mut j: usize = 0;
        while j < schema.columns.len()
            invariant
                j <= schema.columns.len(),
                spec_missing_name(err_text@) == Some(name@),
                first_column_from(schema@.columns, name@, 0) == first_column_from(
                    schema@.columns,
                    name@,
                    j as int,
                ),
            decreases schema.columns.len() - j,
        {
            if schema.columns[j].column_name == name {
                proof {
                    assert(schema@.columns[j as int].column_name == name@);
                    assert(first_column_from(schema@.columns, name@, j as int) == Some(j as int));
                }
                return Some(
                    Error::MissingColumn(
                        MissingColumnError {
                            type_label: schema.type_label.clone(),
                            attr_name: schema.columns[j].attr_name.clone(),
                            table_name: schema.table_name.clone(),
                            column_name: schema.columns[j].column_name.clone(),
                        },
                    ),
                );
            }
            j = j + 1;
        }
        let id_name = String::from_str("id");
        if name == id_name {
            Some(
                Error::MissingColumn(
                    MissingColumnError {
                        type_label: schema.type_label.clone(),
                        attr_name: String::from_str("id"),
                        table_name: schema.table_name.clone(),
                        column_name: String::from_str("id"),
                    },
                ),
            )
        } else {
            None
        }
    }
}

} // verus!

verus! {

/// The missing-column report names this schema's type and table, and either
/// one of its columns or the implicit id column.
pub open spec fn references_schema_column(m: MissingColumnErrorView, schema: SchemaView) -> bool {
    &&& m.type_label == schema.type_label
    &&& m.table_name == schema.table_name
    &&& ((exists|j: int|
        0 <= j < schema.columns.len() && m.attr_name == schema.columns[j].attr_name
            && m.column_name == schema.columns[j].column_name) || (m.attr_name == "id"@
        && m.column_name == "id"@))
}

/// The type-mismatch report names this schema's type and table and one of
/// its columns, with that column's declared kind as the expected one.
pub open spec fn reports_schema_mismatch(u: UnexpectedTypeErrorView, schema: SchemaView) -> bool {
    &&& u.type_label == schema.type_label
    &&& u.table_name == schema.table_name
    &&& exists|j: int|
        0 <= j < schema.columns.len() && u.attr_name == schema.columns[j].attr_name
            && u.column_name == schema.columns[j].column_name && u.expected_type
            == schema.columns[j].typ
}

proof fn lemma_first_column_range(cols: Seq<ColumnView>, name: Seq<char>, i: int, j: int)
    requires
        0 <= i,
        first_column_from(cols, name, i) == Some(j),
    ensures
        i <= j < cols.len(),
        cols[j].column_name == name,
    decreases cols.len() - i,
{
    if i >= cols.len() {
    } else if cols[i].column_name == name {
    } else {
        lemma_first_column_range(cols, name, i + 1, j);
    }
}

/// Whatever missing-column error an engine message translates to references
/// the schema it was checked against.
pub proof fn lemma_missing_column_references(text: Seq<char>, schema: SchemaView)
    ensures
        match spec_missing_column_error(text, schema) {
            Some(e) => e matches ErrorView::MissingColumn(m) && references_schema_column(
                m,
                schema,
            ),
            None => true,
        },
{
    match spec_missing_name(text) {
        None => {},
        Some(name) => {
            match first_column_from(schema.columns, name, 0) {
                Some(j) => {
                    lemma_first_column_range(schema.columns, name, 0, j);
                },
                None => {},
            }
        },
    }
}

} // verus!
