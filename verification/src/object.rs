use vstd::prelude::*;
use vstd::string::StringExecFns;
use crate::data::{DataType, Row, ValueView, tag_of};

verus! {

/// Static description of one mapped field: the column it is stored in, the
/// field's own name — which the create statement also places after the
/// column name as its declared type — and the scalar kind.
pub struct Column {
    pub column_name: String,
    pub attr_name: String,
    pub typ: DataType,
}

/// Mathematical form of a `Column`.
pub struct ColumnView {
    pub column_name: Seq<char>,
    pub attr_name: Seq<char>,
    pub typ: DataType,
}

impl View for Column {
    type V = ColumnView;

    open spec fn view(&self) -> ColumnView {
        ColumnView {
            column_name: self.column_name@,
            attr_name: self.attr_name@,
            typ: self.typ,
        }
    }
}

impl DeepView for Column {
    type V = ColumnView;

    open spec fn deep_view(&self) -> ColumnView {
        self.view()
    }
}

/// Static description of one mapped record type: its table, its type's name
/// as reported in errors, and its columns in field declaration order. The
/// column order is the single source of truth: rows are (de)serialized in
/// exactly this order, and all generated SQL lists columns in it.
pub struct Schema {
    pub table_name: String,
    pub type_label: String,
    pub columns: Vec<Column>,
}

/// Mathematical form of a `Schema`.
pub struct SchemaView {
    pub table_name: Seq<char>,
    pub type_label: Seq<char>,
    pub columns: Seq<ColumnView>,
}

impl View for Schema {
    type V = SchemaView;

    open spec fn view(&self) -> SchemaView {
        SchemaView {
            table_name: self.table_name@,
            type_label: self.type_label@,
            columns: self.columns.deep_view(),
        }
    }
}

/// The column names of a schema, in order.
pub open spec fn column_names(s: SchemaView) -> Seq<Seq<char>> {
    s.columns.map_values(|c: ColumnView| c.column_name)
}

/// `parts` joined with `sep` between consecutive parts.
pub open spec fn spec_join(parts: Seq<Seq<char>>, sep: Seq<char>) -> Seq<char>
    decreases parts.len(),
{
    if parts.len() == 0 {
        Seq::empty()
    } else if parts.len() == 1 {
        parts[0]
    } else {
        spec_join(parts.drop_last(), sep) + sep + parts.last()
    }
}

/// Text of the select-by-id statement: the column list (or a constant `1`
/// when the schema has no columns) from the table, filtered by id.
pub open spec fn spec_select_text(s: SchemaView) -> Seq<char> {
    "SELECT "@ + (if s.columns.len() == 0 {
        "1"@
    } else {
        spec_join(column_names(s), ", "@)
    }) + " FROM "@ + s.table_name + " WHERE id = ?"@
}

/// Text of the insert statement: the column list and one positional
/// placeholder per column.
pub open spec fn spec_insert_text(s: SchemaView) -> Seq<char> {
    "INSERT INTO "@ + s.table_name + " ("@ + spec_join(column_names(s), ", "@) + ") VALUES ("@
        + spec_join(Seq::new(s.columns.len(), |i: int| "?"@), ", "@) + ")"@
}

/// Text of the delete-by-id statement.
pub open spec fn spec_delete_text(s: SchemaView) -> Seq<char> {
    "DELETE FROM "@ + s.table_name + " WHERE id = ?"@
}

/// Text of the update-by-id statement: one `column = ?` per column, filtered
/// by id.
pub open spec fn spec_update_text(s: SchemaView) -> Seq<char> {
    "UPDATE "@ + s.table_name + " SET "@
        + spec_join(s.columns.map_values(|c: ColumnView| c.column_name + " = ?"@), ", "@)
        + " WHERE id = ?"@
}

/// The `, name decl` text appended for each column of the create statement.
pub open spec fn spec_create_columns(cols: Seq<ColumnView>) -> Seq<char>
    decreases cols.len(),
{
    if cols.len() == 0 {
        Seq::empty()
    } else {
        spec_create_columns(cols.drop_last()) + ", "@ + cols.last().column_name + " "@
            + cols.last().attr_name
    }
}

/// Text of the create statement: the implicit autoincrementing id column
/// followed by every mapped column.
pub open spec fn spec_create_text(s: SchemaView) -> Seq<char> {
    "CREATE TABLE "@ + s.table_name + " (id INTEGER PRIMARY KEY AUTOINCREMENT"@
        + spec_create_columns(s.columns) + ")"@
}

impl Schema {
    /// Renders the select-by-id statement for this schema.
    pub fn select_text(&self) -> (r: String)
        ensures
            r@ == spec_select_text(self@),
    {
        let mut s = String::new();
        s.append("SELECT ");
        if self.columns.len() == 0 {
            s.append("1");
        } else {
            let mut i: usize = 0;
            while i < self.columns.len()
                invariant
                    i <= self.columns.len(),
                    s@ == "SELECT "@ + spec_join(column_names(self@).take(i as int), ", "@),
                decreases self.columns.len() - i,
            {
                if i > 0 {
                    s.append(", ");
                }
                s.append(self.columns[i].column_name.as_str());
                proof {
                    lemma_join_step(column_names(self@), ", "@, i as int);
                }
                i = i + 1;
            }
            proof {
                assert(column_names(self@).take(self.columns@.len() as int) =~= column_names(
                    self@,
                ));
            }
        }
        s.append(" FROM ");
        s.append(self.table_name.as_str());
        s.append(" WHERE id = ?");
        s
    }

    /// Renders the insert statement for this schema.
    pub fn insert_text(&self) -> (r: String)
        ensures
            r@ == spec_insert_text(self@),
    {
        let ghost marks = Seq::new(self@.columns.len(), |i: int| "?"@);
        let mut s = String::new();
        s.append("INSERT INTO ");
        s.append(self.table_name.as_str());
        s.append(" (");
        let mut i: usize = 0;
        while i < self.columns.len()
            invariant
                i <= self.columns.len(),
                s@ == "INSERT INTO "@ + self.table_name@ + " ("@ + spec_join(
                    column_names(self@).take(i as int),
                    ", "@,
                ),
            decreases self.columns.len() - i,
        {
            if i > 0 {
                s.append(", ");
            }
            s.append(self.columns[i].column_name.as_str());
            proof {
                lemma_join_step(column_names(self@), ", "@, i as int);
            }
            i = i + 1;
        }
        proof {
            assert(column_names(self@).take(self.columns@.len() as int) =~= column_names(self@));
        }
        s.append(") VALUES (");
        let ghost head = s@;
        let mut j: usize = 0;
        while j < self.columns.len()
            invariant
                j <= self.columns.len(),
                marks == Seq::new(self@.columns.len(), |i: int| "?"@),
                s@ == head + spec_join(marks.take(j as int), ", "@),
            decreases self.columns.len() - j,
        {
            if j > 0 {
                s.append(", ");
            }
            s.append("?");
            proof {
                lemma_join_step(marks, ", "@, j as int);
            }
            j = j + 1;
        }
        proof {
            assert(marks.take(marks.len() as int) =~= marks);
        }
        s.append(")");
        s
    }

    /// Renders the delete-by-id statement for this schema.
    pub fn delete_text(&self) -> (r: String)
        ensures
            r@ == spec_delete_text(self@),
    {
        let mut s = String::new();
        s.append("DELETE FROM ");
        s.append(self.table_name.as_str());
        s.append(" WHERE id = ?");
        s
    }

    /// Renders the update-by-id statement for this schema.
    pub fn update_text(&self) -> (r: String)
        ensures
            r@ == spec_update_text(self@),
    {
        let ghost parts = self@.columns.map_values(|c: ColumnView| c.column_name + " = ?"@);
        let mut s = String::new();
        s.append("UPDATE ");
        s.append(self.table_name.as_str());
        s.append(" SET ");
        let ghost head = s@;
        let mut i: usize = 0;
        while i < self.columns.len()
            invariant
                i <= self.columns.len(),
                parts == self@.columns.map_values(|c: ColumnView| c.column_name + " = ?"@),
                s@ == head + spec_join(parts.take(i as int), ", "@),
            decreases self.columns.len() - i,
        {
            if i > 0 {
                s.append(", ");
            }
            s.append(self.columns[i].column_name.as_str());
            s.append(" = ?");
            proof {
                lemma_join_step(parts, ", "@, i as int);
            }
            i = i + 1;
        }
        proof {
            assert(parts.take(parts.len() as int) =~= parts);
        }
        s.append(" WHERE id = ?");
        s
    }

    /// Renders the create statement for this schema.
    pub fn create_text(&self) -> (r: String)
        ensures
            r@ == spec_create_text(self@),
    {
        let mut s = String::new();
        s.append("CREATE TABLE ");
        s.append(self.table_name.as_str());
        s.append(" (id INTEGER PRIMARY KEY AUTOINCREMENT");
        let ghost head = s@;
        let mut i: usize = 0;
        while i < self.columns.len()
            invariant
                i <= self.columns.len(),
                s@ == head + spec_create_columns(self@.columns.take(i as int)),
            decreases self.columns.len() - i,
        {
            s.append(", ");
            s.append(self.columns[i].column_name.as_str());
            s.append(" ");
            s.append(self.columns[i].attr_name.as_str());
            proof {
                assert(self@.columns.take(i + 1 as int).drop_last() =~= self@.columns.take(
                    i as int,
                ));
            }
            i = i + 1;
        }
        proof {
            assert(self@.columns.take(self@.columns.len() as int) =~= self@.columns);
        }
        s.append(")");
        s
    }
}

/// Joining one more part appends the separator (when anything was joined
/// already) and the part.
proof fn lemma_join_step(parts: Seq<Seq<char>>, sep: Seq<char>, i: int)
    requires
        0 <= i < parts.len(),
    ensures
        i == 0 ==> spec_join(parts.take(i + 1), sep) == parts[0],
        i > 0 ==> spec_join(parts.take(i + 1), sep) == spec_join(parts.take(i), sep) + sep
            + parts[i],
{
    let t = parts.take(i + 1);
    if i == 0 {
        assert(t.len() == 1);
    } else {
        assert(t.drop_last() =~= parts.take(i));
        assert(t.last() == parts[i]);
    }
}

/// A row fit for a schema: one scalar per column, each of its column's kind.
pub open spec fn row_matches(row: Seq<ValueView>, cols: Seq<ColumnView>) -> bool {
    &&& row.len() == cols.len()
    &&& forall|i: int| 0 <= i < row.len() ==> #[trigger] tag_of(row[i]) == cols[i].typ
}

/// A record type that can be stored: it names its schema and moves between
/// its typed form and a row of scalars.
///
/// The mapping from field declarations to an implementation of this trait is
/// the business of an external generator; the library only relies on the
/// three artifacts below and on their contracts.
pub trait Object: Sized {
    /// The schema of this record type.
    spec fn table() -> SchemaView;

    /// The row a value serializes to: the record's whole mathematical
    /// content. Two records with the same serial are the same record.
    spec fn serial(&self) -> Seq<ValueView>;

    /// The schema of this record type, as a value.
    fn schema() -> (s: Schema)
        ensures
            s@ == Self::table(),
    ;

    /// Serializes a value to a row, in the schema's column order.
    fn serialize(&self) -> (r: Row)
        ensures
            r.deep_view() == self.serial(),
            row_matches(r.deep_view(), Self::table().columns),
    ;

    /// Builds the value a row serializes to, consuming the row.
    fn deserialize(row: Row) -> (r: Self)
        requires
            row_matches(row.deep_view(), Self::table().columns),
        ensures
            r.serial() == row.deep_view(),
    ;
}

/// Serializing and then deserializing a record yields an equal record —
/// one whose whole mathematical content is the same — for every record of
/// every mapped type.
pub fn round_trip<T: Object>(x: T) -> (r: T)
    ensures
        r.serial() == x.serial(),
{
    let row = x.serialize();
    T::deserialize(row)
}

} // verus!
