use mini_game::helpers::{
    get_bool_state, get_dict_state, get_f64_bits_state, get_i64_state, get_list_state, get_state,
    get_text_state, get_u64_state, put_state,
};
use mini_game::store::StateStore;
use mini_game::value::Value;

#[test]
fn absent_key_reads_none() {
    let store = StateStore::new();
    assert!(get_state(&store, "never_written").is_none());
    assert_eq!(get_i64_state(&store, "never_written"), None);
    assert_eq!(get_u64_state(&store, "never_written"), None);
    assert_eq!(get_bool_state(&store, "never_written"), None);
    assert!(get_text_state(&store, "never_written").is_none());
    assert!(get_list_state(&store, "never_written").is_none());
    assert!(get_dict_state(&store, "never_written").is_none());
}

#[test]
fn unwritten_key_stays_absent_after_other_writes() {
    let mut store = StateStore::new();
    put_state(&mut store, "a", Value::Int(1));
    put_state(&mut store, "b", Value::Bool(true));
    put_state(&mut store, "a", Value::Int(2));
    assert!(get_state(&store, "c").is_none());
}

#[test]
fn round_trip_i64() {
    let mut store = StateStore::new();
    put_state(&mut store, "k", Value::Int(-5));
    assert_eq!(get_i64_state(&store, "k"), Some(-5));
}

#[test]
fn round_trip_u64() {
    let mut store = StateStore::new();
    put_state(&mut store, "k", Value::UInt(7));
    assert_eq!(get_u64_state(&store, "k"), Some(7));
}

#[test]
fn round_trip_f64_bits() {
    let mut store = StateStore::new();
    put_state(&mut store, "k", Value::Float((-2.5f64).to_bits()));
    let bits = get_f64_bits_state(&store, "k").expect("float round trip");
    assert_eq!(f64::from_bits(bits), -2.5);
}

#[test]
fn round_trip_null() {
    let mut store = StateStore::new();
    put_state(&mut store, "k", Value::Null);
    assert_eq!(get_state(&store, "k"), Some(&Value::Null));
    // null decodes as no typed shape
    assert_eq!(get_u64_state(&store, "k"), None);
    assert_eq!(get_f64_bits_state(&store, "k"), None);
}

#[test]
fn round_trip_bool() {
    let mut store = StateStore::new();
    put_state(&mut store, "k", Value::Bool(true));
    assert_eq!(get_bool_state(&store, "k"), Some(true));
}

#[test]
fn round_trip_text() {
    let mut store = StateStore::new();
    put_state(&mut store, "k", Value::Text("hello".to_string()));
    assert_eq!(get_text_state(&store, "k"), Some(&"hello".to_string()));
}

fn sample_list() -> Vec<Value> {
    vec![Value::UInt(1), Value::Bool(false), Value::Text("x".to_string())]
}

fn sample_dict() -> Vec<(String, Value)> {
    vec![
        ("one".to_string(), Value::UInt(1)),
        ("two".to_string(), Value::List(vec![Value::Int(-2)])),
    ]
}

#[test]
fn round_trip_list() {
    let mut store = StateStore::new();
    put_state(&mut store, "k", Value::List(sample_list()));
    assert_eq!(get_list_state(&store, "k"), Some(&sample_list()));
}

#[test]
fn round_trip_dict() {
    let mut store = StateStore::new();
    put_state(&mut store, "k", Value::Dict(sample_dict()));
    assert_eq!(get_dict_state(&store, "k"), Some(&sample_dict()));
}

#[test]
fn round_trip_untyped() {
    let mut store = StateStore::new();
    put_state(&mut store, "k", Value::Text("v".to_string()));
    assert_eq!(get_state(&store, "k"), Some(&Value::Text("v".to_string())));
}

#[test]
fn last_write_wins() {
    let mut store = StateStore::new();
    put_state(&mut store, "k", Value::UInt(1));
    put_state(&mut store, "k", Value::UInt(2));
    assert_eq!(get_u64_state(&store, "k"), Some(2));
}

#[test]
fn overwrite_changes_shape() {
    let mut store = StateStore::new();
    put_state(&mut store, "k", Value::UInt(1));
    put_state(&mut store, "k", Value::Bool(false));
    assert_eq!(get_u64_state(&store, "k"), None);
    assert_eq!(get_bool_state(&store, "k"), Some(false));
}

#[test]
fn mismatched_shape_reads_absent() {
    let mut store = StateStore::new();
    put_state(&mut store, "k", Value::Text("not a number".to_string()));
    assert_eq!(get_u64_state(&store, "k"), None);
    assert_eq!(get_i64_state(&store, "k"), None);
    assert_eq!(get_f64_bits_state(&store, "k"), None);
    assert_eq!(get_bool_state(&store, "k"), None);
    assert!(get_list_state(&store, "k").is_none());
    assert!(get_dict_state(&store, "k").is_none());
    // the value is still there, under its own shape
    assert_eq!(get_text_state(&store, "k"), Some(&"not a number".to_string()));
}

#[test]
fn signed_and_unsigned_are_distinct_shapes() {
    let mut store = StateStore::new();
    put_state(&mut store, "k", Value::Int(5));
    assert_eq!(get_u64_state(&store, "k"), None);
    assert_eq!(get_i64_state(&store, "k"), Some(5));
}

#[test]
fn keys_are_independent() {
    let mut store = StateStore::new();
    put_state(&mut store, "a", Value::UInt(1));
    put_state(&mut store, "b", Value::UInt(2));
    put_state(&mut store, "a", Value::UInt(3));
    assert_eq!(get_u64_state(&store, "a"), Some(3));
    assert_eq!(get_u64_state(&store, "b"), Some(2));
}

#[test]
fn float_is_its_own_shape() {
    let mut store = StateStore::new();
    put_state(&mut store, "k", Value::Float(1.0f64.to_bits()));
    assert_eq!(get_u64_state(&store, "k"), None);
    assert_eq!(get_i64_state(&store, "k"), None);
    assert!(get_f64_bits_state(&store, "k").is_some());
}

#[test]
fn value_kind_names() {
    assert_eq!(Value::Null.kind(), "null");
    assert_eq!(Value::Int(0).kind(), "signed integer");
    assert_eq!(Value::UInt(0).kind(), "unsigned integer");
    assert_eq!(Value::Float(0).kind(), "floating point");
    assert_eq!(Value::Bool(true).kind(), "boolean");
    assert_eq!(Value::Text(String::new()).kind(), "text");
    assert_eq!(Value::List(Vec::new()).kind(), "sequence");
    assert_eq!(Value::Dict(Vec::new()).kind(), "mapping");
}

#[test]
fn value_decoders() {
    assert_eq!(Value::Int(-1).as_i64(), Some(-1));
    assert_eq!(Value::UInt(1).as_u64(), Some(1));
    assert_eq!(Value::Bool(true).as_bool(), Some(true));
    assert_eq!(Value::Bool(true).as_i64(), None);
    assert_eq!(Value::Text("t".to_string()).as_text(), Some(&"t".to_string()));
    assert_eq!(Value::List(vec![]).as_list(), Some(&vec![]));
    assert_eq!(Value::Dict(vec![]).as_dict(), Some(&vec![]));
    assert_eq!(Value::UInt(1).as_text(), None);
}
