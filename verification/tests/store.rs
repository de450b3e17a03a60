use carapax::context::Context;

#[derive(Clone, Debug, PartialEq)]
enum Value {
    Number(i64),
    Text(String),
}

const NUMBER: u64 = 1;
const TEXT: u64 = 2;

// Round trip: after `set(key, v)` a `get(key)` returns a value equal to
// `v`; a second `set(key, v2)` makes a later `get(key)` return `v2`.
#[test]
fn set_then_get_round_trip() {
    let mut context: Context<Value> = Context::new();
    context.set(NUMBER, Value::Number(42));
    assert_eq!(*context.get(NUMBER), Value::Number(42));
    context.set(NUMBER, Value::Number(7));
    assert_eq!(*context.get(NUMBER), Value::Number(7));
}

#[test]
fn distinct_keys_hold_distinct_values() {
    let mut context: Context<Value> = Context::new();
    assert_eq!(context.len(), 0);
    assert!(!context.contains(NUMBER));
    context.set(NUMBER, Value::Number(-3));
    context.set(TEXT, Value::Text("hello".to_string()));
    assert_eq!(context.len(), 2);
    assert!(context.contains(NUMBER));
    assert!(context.contains(TEXT));
    assert_eq!(*context.get(NUMBER), Value::Number(-3));
    assert_eq!(*context.get(TEXT), Value::Text("hello".to_string()));
    context.set(TEXT, Value::Text("world".to_string()));
    assert_eq!(context.len(), 2);
    assert_eq!(*context.get(NUMBER), Value::Number(-3));
    assert_eq!(*context.get(TEXT), Value::Text("world".to_string()));
}
