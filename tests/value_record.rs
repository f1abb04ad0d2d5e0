use nu_plugin_pg::plugin::PgPlugin;
use nu_plugin_pg::value::{Record, Value};

#[test]
fn record_insert_appends_new_names_in_order() {
    let mut r = Record::new();
    r.insert("b".to_string(), Value::Int(1));
    r.insert("a".to_string(), Value::Int(2));
    assert_eq!(r.cols, vec!["b".to_string(), "a".to_string()]);
    assert_eq!(r.vals, vec![Value::Int(1), Value::Int(2)]);
    assert_eq!(r.len(), 2);
}

#[test]
fn record_insert_existing_name_keeps_place_last_write_wins() {
    let mut r = Record::new();
    r.insert("x".to_string(), Value::Int(1));
    r.insert("y".to_string(), Value::Int(2));
    r.insert("x".to_string(), Value::Bool(true));
    assert_eq!(r.cols, vec!["x".to_string(), "y".to_string()]);
    assert_eq!(r.vals, vec![Value::Bool(true), Value::Int(2)]);
}

#[test]
fn plugin_new_builds_plugin() {
    assert_eq!(PgPlugin::new(), PgPlugin {});
}
