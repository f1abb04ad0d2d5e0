use nu_plugin_pg::json::{json_to_value, Json, JsonNumber};
use nu_plugin_pg::value::{Record, Value};

fn num(i: i64) -> Json {
    Json::Number(JsonNumber { int: Some(i), float: Some((i as f64).to_bits()), text: i.to_string() })
}

#[test]
fn json_object_becomes_record() {
    let j = Json::Object(vec![("a".to_string(), num(1))]);
    let mut expected = Record::new();
    expected.insert("a".to_string(), Value::Int(1));
    assert_eq!(json_to_value(&j), Value::Record(expected));
}

#[test]
fn json_object_keeps_member_order_and_last_duplicate_wins() {
    let j = Json::Object(vec![
        ("z".to_string(), num(1)),
        ("a".to_string(), Json::Bool(false)),
        ("z".to_string(), Json::String("last".to_string())),
    ]);
    match json_to_value(&j) {
        Value::Record(r) => {
            assert_eq!(r.cols, vec!["z".to_string(), "a".to_string()]);
            assert_eq!(r.vals, vec![Value::String("last".to_string()), Value::Bool(false)]);
        }
        other => panic!("expected a record, got {:?}", other),
    }
}

#[test]
fn json_number_prefers_integer_then_float_then_text() {
    assert_eq!(json_to_value(&num(-7)), Value::Int(-7));
    let big = Json::Number(JsonNumber {
        int: None,
        float: Some(18446744073709551615.0f64.to_bits()),
        text: "18446744073709551615".to_string(),
    });
    assert_eq!(json_to_value(&big), Value::Float(18446744073709551615.0f64.to_bits()));
    let huge = Json::Number(JsonNumber { int: None, float: None, text: "1e999".to_string() });
    assert_eq!(json_to_value(&huge), Value::String("1e999".to_string()));
}

#[test]
fn json_array_and_scalars() {
    let j = Json::Array(vec![Json::Null, Json::Bool(true), Json::String("s".to_string()), Json::Array(vec![])]);
    assert_eq!(
        json_to_value(&j),
        Value::List(vec![Value::Nothing, Value::Bool(true), Value::String("s".to_string()), Value::List(vec![])])
    );
}
