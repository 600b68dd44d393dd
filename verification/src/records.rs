use vstd::prelude::*;
use vstd::string::StringExecFns;
use crate::data::{clone_bytes, DataType, F64Bits, Row, Value, ValueView};
use crate::object::{Column, ColumnView, Object, Schema, SchemaView};

verus! {

/// A minimal mapped record: one text field, stored in table `T`.
#[derive(Debug, Clone, PartialEq, Eq)]
pub struct Named {
    pub name: String,
}

impl Object for Named {
    open spec fn table() -> SchemaView {
        SchemaView {
            table_name: "T"@,
            type_label: "Named"@,
            columns: seq![
                ColumnView { column_name: "name"@, attr_name: "name"@, typ: DataType::String },
            ],
        }
    }

    open spec fn serial(&self) -> Seq<ValueView> {
        seq![ValueView::String(self.name@)]
    }

    fn schema() -> (s: Schema) {
        let mut columns: Vec<Column> = Vec::new();
        columns.push(
            Column {
                column_name: String::from_str("name"),
                attr_name: String::from_str("name"),
                typ: DataType::String,
            },
        );
        let s = Schema {
            table_name: String::from_str("T"),
            type_label: String::from_str("Named"),
            columns,
        };
        proof {
            assert(s@.columns =~= Self::table().columns);
        }
        s
    }

    fn serialize(&self) -> (r: Row) {
        let mut r: Row = Vec::new();
        r.push(Value::String(self.name.clone()));
        proof {
            assert(r.deep_view() =~= self.serial());
        }
        r
    }

    fn deserialize(row: Row) -> (r: Self) {
        let ghost given = row.deep_view();
        let mut row = row;
        let v = row.remove(0);
        proof {
            assert(v@ == given[0]);
            assert(crate::data::tag_of(given[0]) == DataType::String);
        }
        match v {
            Value::String(name) => {
                let r = Named { name };
                proof {
                    assert(r.serial() =~= given);
                }
                r
            },
            _ => {
                proof {
                    assert(false);
                }
                Named { name: String::new() }
            },
        }
    }
}

/// A mapped record with one field of every scalar kind, stored in table
/// `samples`. The float field carries its IEEE 754 bit pattern.
#[derive(Debug, Clone, PartialEq, Eq)]
pub struct Sample {
    pub title: String,
    pub payload: Vec<u8>,
    pub count: i64,
    pub ratio: F64Bits,
    pub flag: bool,
}

impl Object for Sample {
    open spec fn table() -> SchemaView {
        SchemaView {
            table_name: "samples"@,
            type_label: "Sample"@,
            columns: seq![
                ColumnView { column_name: "title"@, attr_name: "title"@, typ: DataType::String },
                ColumnView {
                    column_name: "payload"@,
                    attr_name: "payload"@,
                    typ: DataType::Bytes,
                },
                ColumnView { column_name: "count"@, attr_name: "count"@, typ: DataType::Int64 },
                ColumnView { column_name: "ratio"@, attr_name: "ratio"@, typ: DataType::Float64 },
                ColumnView { column_name: "flag"@, attr_name: "flag"@, typ: DataType::Bool },
            ],
        }
    }

    open spec fn serial(&self) -> Seq<ValueView> {
        seq![
            ValueView::String(self.title@),
            ValueView::Bytes(self.payload@),
            ValueView::Int64(self.count),
            ValueView::Float64(self.ratio.0),
            ValueView::Bool(self.flag),
        ]
    }

    fn schema() -> (s: Schema) {
        let mut columns: Vec<Column> = Vec::new();
        columns.push(
            Column {
                column_name: String::from_str("title"),
                attr_name: String::from_str("title"),
                typ: DataType::String,
            },
        );
        columns.push(
            Column {
                column_name: String::from_str("payload"),
                attr_name: String::from_str("payload"),
                typ: DataType::Bytes,
            },
        );
        columns.push(
            Column {
                column_name: String::from_str("count"),
                attr_name: String::from_str("count"),
                typ: DataType::Int64,
            },
        );
        columns.push(
            Column {
                column_name: String::from_str("ratio"),
                attr_name: String::from_str("ratio"),
                typ: DataType::Float64,
            },
        );
        columns.push(
            Column {
                column_name: String::from_str("flag"),
                attr_name: String::from_str("flag"),
                typ: DataType::Bool,
            },
        );
        let s = Schema {
            table_name: String::from_str("samples"),
            type_label: String::from_str("Sample"),
            columns,
        };
        proof {
            assert(s@.columns =~= Self::table().columns);
        }
        s
    }

    fn serialize(&self) -> (r: Row) {
        let mut r: Row = Vec::new();
        r.push(Value::String(self.title.clone()));
        r.push(Value::Bytes(clone_bytes(&self.payload)));
        r.push(Value::Int64(self.count));
        r.push(Value::Float64(self.ratio.0));
        r.push(Value::Bool(self.flag));
        proof {
            assert(r.deep_view() =~= self.serial());
        }
        r
    }

    fn deserialize(row: Row) -> (r: Self) {
        let ghost given = row.deep_view();
        let mut row = row;
        proof {
            assert(crate::data::tag_of(given[0]) == DataType::String);
            assert(crate::data::tag_of(given[1]) == DataType::Bytes);
            assert(crate::data::tag_of(given[2]) == DataType::Int64);
            assert(crate::data::tag_of(given[3]) == DataType::Float64);
            assert(crate::data::tag_of(given[4]) == DataType::Bool);
        }
        let v0 = row.remove(0);
        proof {
            assert(v0@ == given[0]);
            assert(row.deep_view() =~= given.subrange(1, 5));
        }
        let title = match v0 {
            Value::String(s) => s,
            _ => {
                proof {
                    assert(false);
                }
                String::new()
            },
        };
        let ghost g1 = row.deep_view();
        let v1 = row.remove(0);
        proof {
            assert(v1@ == g1[0]);
            assert(v1@ == given[1]);
            assert(row.deep_view() =~= given.subrange(2, 5));
        }
        let payload = match v1 {
            Value::Bytes(b) => b,
            _ => {
                proof {
                    assert(false);
                }
                Vec::new()
            },
        };
        let ghost g2 = row.deep_view();
        let v2 = row.remove(0);
        proof {
            assert(v2@ == g2[0]);
            assert(v2@ == given[2]);
            assert(row.deep_view() =~= given.subrange(3, 5));
        }
        let count = match v2 {
            Value::Int64(i) => i,
            _ => {
                proof {
                    assert(false);
                }
                0
            },
        };
        let ghost g3 = row.deep_view();
        let v3 = row.remove(0);
        proof {
            assert(v3@ == g3[0]);
            assert(v3@ == given[3]);
            assert(row.deep_view() =~= given.subrange(4, 5));
        }
        let ratio = match v3 {
            Value::Float64(f) => F64Bits(f),
            _ => {
                proof {
                    assert(false);
                }
                F64Bits(0)
            },
        };
        let ghost g4 = row.deep_view();
        let v4 = row.remove(0);
        proof {
            assert(v4@ == g4[0]);
            assert(v4@ == given[4]);
        }
        let flag = match v4 {
            Value::Bool(b) => b,
            _ => {
                proof {
                    assert(false);
                }
                false
            },
        };
        let r = Sample { title, payload, count, ratio, flag };
        proof {
            assert(r.serial() =~= given);
        }
        r
    }
}


} // verus!
