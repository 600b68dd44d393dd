use orm::data::{clone_row, decode_value, encode_value, DataType, F64Bits, ObjectType, SqlValue, Value};
use orm::transaction::Table;
use orm::error::{Error, MissingColumnError};
use orm::object::{round_trip, Column, Object, Schema};
use orm::records::{Named, Sample};

fn users_schema() -> Schema {
    Schema {
        table_name: String::from("users"),
        type_label: String::from("User"),
        columns: vec![
            Column {
                column_name: String::from("name"),
                attr_name: String::from("name"),
                typ: DataType::String,
            },
            Column {
                column_name: String::from("age"),
                attr_name: String::from("age"),
                typ: DataType::Int64,
            },
        ],
    }
}

fn empty_schema() -> Schema {
    Schema {
        table_name: String::from("empty"),
        type_label: String::from("Empty"),
        columns: vec![],
    }
}

#[test]
fn select_text_lists_columns() {
    assert_eq!(users_schema().select_text(), "SELECT name, age FROM users WHERE id = ?");
}

#[test]
fn select_text_without_columns_selects_one() {
    assert_eq!(empty_schema().select_text(), "SELECT 1 FROM empty WHERE id = ?");
}

#[test]
fn insert_text_has_one_placeholder_per_column() {
    assert_eq!(users_schema().insert_text(), "INSERT INTO users (name, age) VALUES (?, ?)");
}

#[test]
fn update_text_sets_each_column() {
    assert_eq!(users_schema().update_text(), "UPDATE users SET name = ?, age = ? WHERE id = ?");
}

#[test]
fn delete_text_filters_by_id() {
    assert_eq!(users_schema().delete_text(), "DELETE FROM users WHERE id = ?");
}

#[test]
fn create_text_declares_id_and_columns() {
    assert_eq!(
        users_schema().create_text(),
        "CREATE TABLE users (id INTEGER PRIMARY KEY AUTOINCREMENT, name name, age age)"
    );
}

#[test]
fn create_text_without_columns_declares_only_id() {
    assert_eq!(
        empty_schema().create_text(),
        "CREATE TABLE empty (id INTEGER PRIMARY KEY AUTOINCREMENT)"
    );
}

#[test]
fn texts_are_stable_across_calls() {
    let s = users_schema();
    assert_eq!(s.select_text(), s.select_text());
    assert_eq!(s.insert_text(), s.insert_text());
    assert_eq!(s.update_text(), s.update_text());
    assert_eq!(s.delete_text(), s.delete_text());
    assert_eq!(s.create_text(), s.create_text());
}

#[test]
fn named_round_trips_to_equal_value() {
    let x = Named { name: String::from("a") };
    let y = round_trip(x.clone());
    assert_eq!(x, y);
}

#[test]
fn sample_round_trips_to_equal_value() {
    let x = Sample {
        title: String::from("hello"),
        payload: vec![1, 2, 3],
        count: -7,
        ratio: F64Bits(2.5f64.to_bits()),
        flag: true,
    };
    let y = round_trip(x.clone());
    assert_eq!(x, y);
}

#[test]
fn row_length_equals_column_count() {
    let named = Named { name: String::from("a") };
    assert_eq!(named.serialize().len(), Named::schema().columns.len());
    let sample = Sample {
        title: String::from("t"),
        payload: vec![],
        count: 0,
        ratio: F64Bits(0),
        flag: false,
    };
    assert_eq!(sample.serialize().len(), Sample::schema().columns.len());
}

#[test]
fn bool_is_stored_as_integer() {
    assert!(matches!(encode_value(&Value::Bool(true)), SqlValue::Integer(1)));
    assert!(matches!(encode_value(&Value::Bool(false)), SqlValue::Integer(0)));
    assert_eq!(decode_value(SqlValue::Integer(5), DataType::Bool), Ok(Value::Bool(true)));
    assert_eq!(decode_value(SqlValue::Integer(0), DataType::Bool), Ok(Value::Bool(false)));
}

#[test]
fn float_bits_survive_encoding() {
    let bits = 2.5f64.to_bits();
    let stored = encode_value(&Value::Float64(bits));
    assert!(matches!(stored, SqlValue::Integer(_)));
    assert_eq!(decode_value(stored, DataType::Float64), Ok(Value::Float64(bits)));
    assert_eq!(f64::from_bits(bits), 2.5f64);
    assert_eq!(
        decode_value(SqlValue::Real(bits), DataType::Float64),
        Ok(Value::Float64(bits))
    );
}

#[test]
fn decode_reports_the_storage_class_on_mismatch() {
    assert_eq!(decode_value(SqlValue::Integer(1), DataType::String), Err(String::from("Integer")));
    assert_eq!(decode_value(SqlValue::Null, DataType::Int64), Err(String::from("Null")));
    assert_eq!(
        decode_value(SqlValue::Text(String::from("x")), DataType::Bytes),
        Err(String::from("Text"))
    );
}

#[test]
fn missing_column_text_names_the_schema_column() {
    let schema = users_schema();
    let err = MissingColumnError::get_error_from_text("no such column: name", &schema);
    match err {
        Some(Error::MissingColumn(m)) => {
            assert_eq!(m.type_label, "User");
            assert_eq!(m.attr_name, "name");
            assert_eq!(m.table_name, "users");
            assert_eq!(m.column_name, "name");
        },
        other => panic!("expected a missing-column error, got {:?}", other),
    }
}

#[test]
fn missing_column_text_second_marker() {
    let schema = users_schema();
    let err =
        MissingColumnError::get_error_from_text("table users has no column named age", &schema);
    match err {
        Some(Error::MissingColumn(m)) => {
            assert_eq!(m.attr_name, "age");
            assert_eq!(m.column_name, "age");
        },
        other => panic!("expected a missing-column error, got {:?}", other),
    }
}

#[test]
fn missing_column_text_trims_the_name() {
    let schema = users_schema();
    let err = MissingColumnError::get_error_from_text("no such column:   name  ", &schema);
    assert!(matches!(err, Some(Error::MissingColumn(_))));
}

#[test]
fn missing_column_text_falls_back_to_id() {
    let schema = users_schema();
    let err = MissingColumnError::get_error_from_text("no such column: id", &schema);
    match err {
        Some(Error::MissingColumn(m)) => {
            assert_eq!(m.attr_name, "id");
            assert_eq!(m.column_name, "id");
        },
        other => panic!("expected a missing-column error, got {:?}", other),
    }
}

#[test]
fn unrelated_text_is_not_a_missing_column() {
    let schema = users_schema();
    assert!(MissingColumnError::get_error_from_text("database is locked", &schema).is_none());
    assert!(
        MissingColumnError::get_error_from_text("no such column: address", &schema).is_none()
    );
}

#[test]
fn object_types_report_their_column_kind() {
    assert_eq!(<String as ObjectType>::data_type(), DataType::String);
    assert_eq!(<Vec<u8> as ObjectType>::data_type(), DataType::Bytes);
    assert_eq!(<i64 as ObjectType>::data_type(), DataType::Int64);
    assert_eq!(<F64Bits as ObjectType>::data_type(), DataType::Float64);
    assert_eq!(<bool as ObjectType>::data_type(), DataType::Bool);
}

#[test]
fn values_report_their_tag() {
    assert_eq!(Value::String(String::from("x")).tag(), DataType::String);
    assert_eq!(Value::Bytes(vec![1]).tag(), DataType::Bytes);
    assert_eq!(Value::Int64(3).tag(), DataType::Int64);
    assert_eq!(Value::Float64(0).tag(), DataType::Float64);
    assert_eq!(Value::Bool(true).tag(), DataType::Bool);
}

#[test]
fn records_report_their_table() {
    let named = Named { name: String::from("a") };
    let schema = named.get_table();
    assert_eq!(schema.table_name, "T");
    assert_eq!(schema.type_label, "Named");
    assert_eq!(schema.columns.len(), 1);
    assert_eq!(schema.columns[0].column_name, "name");
}

#[test]
fn rows_copy_value_for_value() {
    let row = vec![
        Value::String(String::from("x")),
        Value::Bytes(vec![9]),
        Value::Int64(-1),
        Value::Float64(7),
        Value::Bool(false),
    ];
    assert_eq!(clone_row(&row), row);
}

#[test]
fn duplicated_values_are_equal() {
    let v = Value::String(String::from("x"));
    assert_eq!(v.duplicate(), v);
    let b = Value::Bytes(vec![1, 2]);
    assert_eq!(b.duplicate(), b);
}
