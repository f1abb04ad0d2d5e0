use nu_plugin_pg::decode::{
    decode_cell, decode_row, wire_kind, Cell, Column, DateTimeParts, DecodeError, TimeParts, WireKind,
};
use nu_plugin_pg::json::{Json, JsonNumber};
use nu_plugin_pg::value::{Instant, Value};

fn column(name: &str, oid: u32, ty: &str) -> Column {
    Column { name: name.to_string(), type_oid: oid, wire_type: ty.to_string() }
}

#[test]
fn wire_kind_table() {
    assert_eq!(wire_kind(25), Some(WireKind::Text));
    assert_eq!(wire_kind(1043), Some(WireKind::Text));
    assert_eq!(wire_kind(1042), Some(WireKind::Text));
    assert_eq!(wire_kind(19), Some(WireKind::Text));
    assert_eq!(wire_kind(16), Some(WireKind::Bool));
    assert_eq!(wire_kind(18), Some(WireKind::Char));
    assert_eq!(wire_kind(21), Some(WireKind::Int2));
    assert_eq!(wire_kind(23), Some(WireKind::Int4));
    assert_eq!(wire_kind(20), Some(WireKind::Int8));
    assert_eq!(wire_kind(700), Some(WireKind::Float4));
    assert_eq!(wire_kind(701), Some(WireKind::Float8));
    assert_eq!(wire_kind(114), Some(WireKind::Json));
    assert_eq!(wire_kind(3802), Some(WireKind::Json));
    assert_eq!(wire_kind(1184), Some(WireKind::TimestampTz));
    assert_eq!(wire_kind(1114), Some(WireKind::Timestamp));
    assert_eq!(wire_kind(1083), Some(WireKind::Time));
    assert_eq!(wire_kind(26), Some(WireKind::Oid));
    assert_eq!(wire_kind(1700), None);
}

#[test]
fn null_decodes_to_nothing_for_every_kind() {
    let kinds = [
        WireKind::Text,
        WireKind::Bool,
        WireKind::Char,
        WireKind::Int2,
        WireKind::Int4,
        WireKind::Int8,
        WireKind::Float4,
        WireKind::Float8,
        WireKind::Json,
        WireKind::TimestampTz,
        WireKind::Timestamp,
        WireKind::Time,
        WireKind::Oid,
    ];
    for k in kinds {
        assert_eq!(decode_cell(k, &Cell::Null), Some(Value::Nothing));
    }
}

#[test]
fn scalar_cells_keep_their_value() {
    assert_eq!(decode_cell(WireKind::Int4, &Cell::Int4(42)), Some(Value::Int(42)));
    assert_eq!(decode_cell(WireKind::Int2, &Cell::Int2(-3)), Some(Value::Int(-3)));
    assert_eq!(decode_cell(WireKind::Char, &Cell::Char(-128)), Some(Value::Int(-128)));
    assert_eq!(decode_cell(WireKind::Int8, &Cell::Int8(i64::MIN)), Some(Value::Int(i64::MIN)));
    assert_eq!(decode_cell(WireKind::Oid, &Cell::Oid(u32::MAX)), Some(Value::Int(4294967295)));
    assert_eq!(decode_cell(WireKind::Bool, &Cell::Bool(true)), Some(Value::Bool(true)));
    assert_eq!(
        decode_cell(WireKind::Text, &Cell::Text("héllo".to_string())),
        Some(Value::String("héllo".to_string()))
    );
    assert_eq!(
        decode_cell(WireKind::Float8, &Cell::Float(1.5f64.to_bits())),
        Some(Value::Float(1.5f64.to_bits()))
    );
    let t = Instant { secs: 1_700_000_000, nanos: 5, offset_secs: 3600 };
    assert_eq!(
        decode_cell(WireKind::TimestampTz, &Cell::Instant(t.clone())),
        Some(Value::Date(t))
    );
}

#[test]
fn json_cell_becomes_record() {
    let j = Json::Object(vec![(
        "a".to_string(),
        Json::Number(JsonNumber { int: Some(1), float: Some(1.0f64.to_bits()), text: "1".to_string() }),
    )]);
    match decode_cell(WireKind::Json, &Cell::Json(j)) {
        Some(Value::Record(r)) => {
            assert_eq!(r.cols, vec!["a".to_string()]);
            assert_eq!(r.vals, vec![Value::Int(1)]);
        }
        other => panic!("unexpected {:?}", other),
    }
}

#[test]
fn timestamp_decomposes_into_fields() {
    let d = DateTimeParts { year: 2024, month: 2, day: 29, hour: 13, minute: 7, second: 59, nanosecond: 123 };
    match decode_cell(WireKind::Timestamp, &Cell::DateTime(d)) {
        Some(Value::Record(r)) => {
            let names: Vec<&str> = r.cols.iter().map(|s| s.as_str()).collect();
            assert_eq!(names, vec!["year", "month", "day", "hour", "minute", "second", "nanosecond"]);
            assert_eq!(
                r.vals,
                vec![
                    Value::Int(2024),
                    Value::Int(2),
                    Value::Int(29),
                    Value::Int(13),
                    Value::Int(7),
                    Value::Int(59),
                    Value::Int(123)
                ]
            );
        }
        other => panic!("unexpected {:?}", other),
    }
}

#[test]
fn time_decomposes_with_hour_as_duration() {
    let t = TimeParts { hour: 23, minute: 59, second: 1, nanosecond: 999 };
    match decode_cell(WireKind::Time, &Cell::Time(t)) {
        Some(Value::Record(r)) => {
            let names: Vec<&str> = r.cols.iter().map(|s| s.as_str()).collect();
            assert_eq!(names, vec!["hour", "minute", "second", "nanosecond"]);
            assert_eq!(r.vals, vec![Value::Duration(23), Value::Int(59), Value::Int(1), Value::Int(999)]);
        }
        other => panic!("unexpected {:?}", other),
    }
}

#[test]
fn mismatched_cell_is_refused() {
    assert_eq!(decode_cell(WireKind::Int4, &Cell::Text("4".to_string())), None);
}

#[test]
fn row_decodes_one_field_per_column_in_order() {
    let cols = vec![column("id", 23, "int4"), column("name", 25, "text"), column("gone", 16, "bool")];
    let cells = vec![Cell::Int4(42), Cell::Text("x".to_string()), Cell::Null];
    let r = decode_row(&cols, &cells).unwrap();
    assert_eq!(r.cols, vec!["id".to_string(), "name".to_string(), "gone".to_string()]);
    assert_eq!(r.vals, vec![Value::Int(42), Value::String("x".to_string()), Value::Nothing]);
}

#[test]
fn row_with_duplicate_column_names_keeps_last_value_at_first_place() {
    let cols = vec![column("a", 23, "int4"), column("b", 23, "int4"), column("a", 25, "text")];
    let cells = vec![Cell::Int4(1), Cell::Int4(2), Cell::Text("z".to_string())];
    let r = decode_row(&cols, &cells).unwrap();
    assert_eq!(r.cols, vec!["a".to_string(), "b".to_string()]);
    assert_eq!(r.vals, vec![Value::String("z".to_string()), Value::Int(2)]);
}

#[test]
fn unsupported_type_names_column_and_type() {
    let cols = vec![column("id", 23, "int4"), column("price", 1700, "numeric"), column("x", 25, "text")];
    let cells = vec![Cell::Int4(1), Cell::Null, Cell::Text("t".to_string())];
    let e = decode_row(&cols, &cells).unwrap_err();
    assert_eq!(
        e,
        DecodeError::UnsupportedType { column: "price".to_string(), wire_type: "numeric".to_string() }
    );
    assert_eq!(e.into_error().msg, "column `price` has unsupported type `numeric`");
}

#[test]
fn mismatch_error_names_column() {
    let cols = vec![column("n", 20, "int8")];
    let cells = vec![Cell::Bool(false)];
    let e = decode_row(&cols, &cells).unwrap_err();
    assert_eq!(e, DecodeError::CellMismatch { column: "n".to_string() });
    assert_eq!(e.into_error().msg, "column `n` holds a value of another type");
}

#[test]
fn first_unsupported_column_is_named() {
    let cols = vec![column("u", 2950, "uuid"), column("d", 1082, "date")];
    let cells = vec![Cell::Null, Cell::Null];
    let e = decode_row(&cols, &cells).unwrap_err();
    assert_eq!(e.clone().into_error().msg, "column `u` has unsupported type `uuid`");
    assert_eq!(e.into_error().help, None);
}
