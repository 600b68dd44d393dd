use vstd::prelude::*;

verus! {

/// Identifier of one stored row. The storage engine assigns it on insert;
/// it never changes afterwards and compares by value.
#[derive(Clone, Copy, PartialEq, Eq, Structural, Debug, Hash)]
pub struct ObjectId(pub i64);

impl ObjectId {
    pub fn new(val: i64) -> (r: ObjectId)
        ensures
            r.0 == val,
    {
        ObjectId(val)
    }

    pub fn into_i64(&self) -> (r: i64)
        ensures
            r == self.0,
    {
        self.0
    }

    pub open spec fn spec_i64(&self) -> i64 {
        self.0
    }
}

impl From<i64> for ObjectId {
    fn from(val: i64) -> (r: ObjectId) {
        ObjectId(val)
    }
}

impl vstd::std_specs::convert::FromSpecImpl<i64> for ObjectId {
    open spec fn obeys_from_spec() -> bool {
        true
    }

    open spec fn from_spec(val: i64) -> ObjectId {
        ObjectId(val)
    }
}

/// The logical kind of one column's scalar.
///
/// `Float64` columns carry IEEE 754 bit patterns: the library holds no
/// floating-point values itself, so a 64-bit float travels as its bits.
#[derive(Clone, Copy, PartialEq, Eq, Structural, Debug)]
pub enum DataType {
    String,
    Bytes,
    Int64,
    Float64,
    Bool,
}

/// A 64-bit float carried as its IEEE 754 bit pattern. Field types of mapped
/// records use this in place of a native float; callers convert at the edge
/// with `to_bits` / `from_bits`.
#[derive(Clone, Copy, PartialEq, Eq, Structural, Debug)]
pub struct F64Bits(pub u64);

/// Maps a native field type to the column kind it is stored as.
pub trait ObjectType {
    spec fn dtype() -> DataType;

    fn data_type() -> (r: DataType)
        ensures
            r == Self::dtype(),
    ;
}

impl ObjectType for String {
    open spec fn dtype() -> DataType {
        DataType::String
    }

    fn data_type() -> DataType {
        DataType::String
    }
}

impl ObjectType for Vec<u8> {
    open spec fn dtype() -> DataType {
        DataType::Bytes
    }

    fn data_type() -> DataType {
        DataType::Bytes
    }
}

impl ObjectType for i64 {
    open spec fn dtype() -> DataType {
        DataType::Int64
    }

    fn data_type() -> DataType {
        DataType::Int64
    }
}

impl ObjectType for F64Bits {
    open spec fn dtype() -> DataType {
        DataType::Float64
    }

    fn data_type() -> DataType {
        DataType::Float64
    }
}

impl ObjectType for bool {
    open spec fn dtype() -> DataType {
        DataType::Bool
    }

    fn data_type() -> DataType {
        DataType::Bool
    }
}

/// One scalar tagged by its kind; the unit a row is made of.
#[derive(Clone, Debug, PartialEq, Eq)]
pub enum Value {
    String(String),
    Bytes(Vec<u8>),
    Int64(i64),
    Float64(u64),
    Bool(bool),
}

/// Mathematical form of a `Value`.
pub enum ValueView {
    String(Seq<char>),
    Bytes(Seq<u8>),
    Int64(i64),
    Float64(u64),
    Bool(bool),
}

impl View for Value {
    type V = ValueView;

    open spec fn view(&self) -> ValueView {
        match self {
            Value::String(s) => ValueView::String(s@),
            Value::Bytes(b) => ValueView::Bytes(b@),
            Value::Int64(i) => ValueView::Int64(*i),
            Value::Float64(f) => ValueView::Float64(*f),
            Value::Bool(b) => ValueView::Bool(*b),
        }
    }
}

impl DeepView for Value {
    type V = ValueView;

    open spec fn deep_view(&self) -> ValueView {
        self.view()
    }
}

/// The kind a scalar actually is.
pub open spec fn tag_of(v: ValueView) -> DataType {
    match v {
        ValueView::String(_) => DataType::String,
        ValueView::Bytes(_) => DataType::Bytes,
        ValueView::Int64(_) => DataType::Int64,
        ValueView::Float64(_) => DataType::Float64,
        ValueView::Bool(_) => DataType::Bool,
    }
}

/// An ordered sequence of scalars standing for one row, in the column order
/// of the owning schema.
pub type Row = Vec<Value>;

impl Value {
    pub fn tag(&self) -> (r: DataType)
        ensures
            r == tag_of(self@),
    {
        match self {
            Value::String(_) => DataType::String,
            Value::Bytes(_) => DataType::Bytes,
            Value::Int64(_) => DataType::Int64,
            Value::Float64(_) => DataType::Float64,
            Value::Bool(_) => DataType::Bool,
        }
    }

    pub fn duplicate(&self) -> (r: Value)
        ensures
            r@ == self@,
    {
        match self {
            Value::String(s) => Value::String(s.clone()),
            Value::Bytes(b) => Value::Bytes(clone_bytes(b)),
            Value::Int64(i) => Value::Int64(*i),
            Value::Float64(f) => Value::Float64(*f),
            Value::Bool(b) => Value::Bool(*b),
        }
    }
}

pub(crate) fn clone_bytes(b: &Vec<u8>) -> (r: Vec<u8>)
    ensures
        r@ == b@,
{
    let mut out: Vec<u8> = Vec::new();
    let mut i: usize = 0;
    while i < b.len()
        invariant
            i <= b.len(),
            out@ == b@.take(i as int),
        decreases b.len() - i,
    {
        out.push(b[i]);
        proof {
            assert(out@ =~= b@.take(i + 1 as int));
        }
        i = i + 1;
    }
    proof {
        assert(b@.take(b@.len() as int) =~= b@);
    }
    out
}

/// Copies a row value for value.
pub fn clone_row(r: &Row) -> (c: Row)
    ensures
        c.deep_view() == r.deep_view(),
{
    let mut out: Row = Vec::new();
    let mut i: usize = 0;
    while i < r.len()
        invariant
            i <= r.len(),
            out.len() == i,
            forall|j: int| 0 <= j < i ==> out.deep_view()[j] == r.deep_view()[j],
        decreases r.len() - i,
    {
        out.push(r[i].duplicate());
        i = i + 1;
    }
    proof {
        assert(out.deep_view() =~= r.deep_view());
    }
    out
}

} // verus!

verus! {

/// One scalar in the engine's own terms: the storage class a value reaches
/// or leaves the engine as. A float travels as its IEEE 754 bit pattern
/// (`Real` when the engine reports a float, `Integer` carrying the same bits
/// when this library wrote it).
#[derive(Debug, Clone)]
pub enum SqlValue {
    Null,
    Integer(i64),
    Real(u64),
    Text(String),
    Blob(Vec<u8>),
}

/// Mathematical form of a `SqlValue`.
pub enum SqlValueView {
    Null,
    Integer(i64),
    Real(u64),
    Text(Seq<char>),
    Blob(Seq<u8>),
}

impl View for SqlValue {
    type V = SqlValueView;

    open spec fn view(&self) -> SqlValueView {
        match self {
            SqlValue::Null => SqlValueView::Null,
            SqlValue::Integer(i) => SqlValueView::Integer(*i),
            SqlValue::Real(b) => SqlValueView::Real(*b),
            SqlValue::Text(s) => SqlValueView::Text(s@),
            SqlValue::Blob(b) => SqlValueView::Blob(b@),
        }
    }
}

/// The name the engine gives the storage class a value arrived as.
pub open spec fn storage_class_name(v: SqlValueView) -> Seq<char> {
    match v {
        SqlValueView::Null => "Null"@,
        SqlValueView::Integer(_) => "Integer"@,
        SqlValueView::Real(_) => "Real"@,
        SqlValueView::Text(_) => "Text"@,
        SqlValueView::Blob(_) => "Blob"@,
    }
}

/// The storage class a scalar is written as: text, blob and integer as
/// themselves, a bool as 0 or 1, float bits as the integer with the same
/// bit pattern.
pub open spec fn spec_encode(v: ValueView) -> SqlValueView {
    match v {
        ValueView::String(s) => SqlValueView::Text(s),
        ValueView::Bytes(b) => SqlValueView::Blob(b),
        ValueView::Int64(i) => SqlValueView::Integer(i),
        ValueView::Float64(f) => SqlValueView::Integer(f as i64),
        ValueView::Bool(b) => SqlValueView::Integer(if b { 1 } else { 0 }),
    }
}

/// The scalar a storage class is read back as under the expected kind, or
/// nothing when the classes are incompatible. Bools accept any integer,
/// float bits are recovered from either a true float or the integer form
/// this library writes.
pub open spec fn spec_decode(raw: SqlValueView, expect: DataType) -> Option<ValueView> {
    match (raw, expect) {
        (SqlValueView::Text(s), DataType::String) => Some(ValueView::String(s)),
        (SqlValueView::Blob(b), DataType::Bytes) => Some(ValueView::Bytes(b)),
        (SqlValueView::Integer(i), DataType::Int64) => Some(ValueView::Int64(i)),
        (SqlValueView::Integer(i), DataType::Bool) => Some(ValueView::Bool(i != 0)),
        (SqlValueView::Integer(i), DataType::Float64) => Some(ValueView::Float64(i as u64)),
        (SqlValueView::Real(b), DataType::Float64) => Some(ValueView::Float64(b)),
        _ => None,
    }
}

/// Writing a scalar in the engine's terms and reading it back under its
/// own kind yields the scalar unchanged, for every scalar of every kind.
pub proof fn lemma_encode_decode(v: ValueView)
    ensures
        spec_decode(spec_encode(v), tag_of(v)) == Some(v),
{
    match v {
        ValueView::Float64(f) => {
            assert(((f as i64) as u64) == f) by (bit_vector);
        },
        _ => {},
    }
}

/// Writes one scalar in the engine's terms.
pub fn encode_value(v: &Value) -> (r: SqlValue)
    ensures
        r@ == spec_encode(v@),
{
    match v {
        Value::String(s) => SqlValue::Text(s.clone()),
        Value::Bytes(b) => SqlValue::Blob(clone_bytes(b)),
        Value::Int64(i) => SqlValue::Integer(*i),
        Value::Float64(f) => SqlValue::Integer(#[verifier::truncate] (*f as i64)),
        Value::Bool(b) => SqlValue::Integer(if *b { 1 } else { 0 }),
    }
}

/// Reads one scalar back under the expected kind; on a storage class the
/// kind cannot be read from, reports the class's name.
pub fn decode_value(raw: SqlValue, expect: DataType) -> (r: core::result::Result<Value, String>)
    ensures
        match r {
            Ok(v) => spec_decode(raw@, expect) == Some(v@) && tag_of(v@) == expect,
            Err(g) => spec_decode(raw@, expect) is None && g@ == storage_class_name(raw@),
        },
{
    let ghost rawv = raw@;
    match (raw, expect) {
        (SqlValue::Text(s), DataType::String) => Ok(Value::String(s)),
        (SqlValue::Blob(b), DataType::Bytes) => Ok(Value::Bytes(b)),
        (SqlValue::Integer(i), DataType::Int64) => Ok(Value::Int64(i)),
        (SqlValue::Integer(i), DataType::Bool) => Ok(Value::Bool(i != 0)),
        (SqlValue::Integer(i), DataType::Float64) => Ok(
            Value::Float64(#[verifier::truncate] (i as u64)),
        ),
        (SqlValue::Real(b), DataType::Float64) => Ok(Value::Float64(b)),
        (raw, _) => {
            let name: &str = match raw {
                SqlValue::Null => "Null",
                SqlValue::Integer(_) => "Integer",
                SqlValue::Real(_) => "Real",
                SqlValue::Text(_) => "Text",
                SqlValue::Blob(_) => "Blob",
            };
            Err(String::from_str(name))
        },
    }
}

} // verus!
