use any_scalar::{Object, Value};

fn word(s: &str) -> Value {
    Value::String(s.to_string())
}

fn float(f: f64) -> Value {
    Value::Number(serde_json::Number::from_f64(f).unwrap())
}

#[test]
fn values_of_different_kinds_differ() {
    let kinds = vec![
        Value::Null,
        Value::Boolean(false),
        Value::Number(0.into()),
        word(""),
        Value::List(vec![]),
        Value::Object(Object::new()),
    ];
    for (i, a) in kinds.iter().enumerate() {
        for (j, b) in kinds.iter().enumerate() {
            assert_eq!(a == b, i == j);
        }
    }
}

#[test]
fn scalars_compare_by_payload() {
    assert_eq!(Value::Boolean(true), Value::Boolean(true));
    assert_ne!(Value::Boolean(true), Value::Boolean(false));
    assert_eq!(word("a"), word("a"));
    assert_ne!(word("a"), word("b"));
    assert_ne!(word("a"), word("A"));
    assert_eq!(Value::Number(5.into()), Value::Number(5.into()));
    assert_ne!(Value::Number(5.into()), Value::Number(6.into()));
    assert_ne!(Value::Number(5.into()), Value::Number((-5).into()));
}

#[test]
fn numbers_compare_as_in_json() {
    assert_eq!(Value::Number(1u8.into()), Value::Number(1i64.into()));
    assert_eq!(float(1.5), float(1.5));
    assert_ne!(float(1.5), float(2.5));
    assert_ne!(Value::Number(1.into()), float(1.0));
    assert_eq!(float(0.0), float(-0.0));
    assert_eq!(Value::Number(u64::MAX.into()), Value::Number(u64::MAX.into()));
    assert_ne!(Value::Number(u64::MAX.into()), Value::Number(i64::MAX.into()));
}

#[test]
fn lists_compare_in_order() {
    let a = Value::List(vec![Value::Null, Value::Boolean(true)]);
    let b = Value::List(vec![Value::Null, Value::Boolean(true)]);
    let swapped = Value::List(vec![Value::Boolean(true), Value::Null]);
    let shorter = Value::List(vec![Value::Null]);
    let longer = Value::List(vec![Value::Null, Value::Boolean(true), Value::Null]);
    assert_eq!(a, b);
    assert_ne!(a, swapped);
    assert_ne!(a, shorter);
    assert_ne!(a, longer);
    assert_ne!(shorter, a);
}

#[test]
fn lists_may_repeat_a_member() {
    let twice = Value::List(vec![word("x"), word("x")]);
    let once = Value::List(vec![word("x")]);
    assert_ne!(twice, once);
    assert_eq!(twice, Value::List(vec![word("x"), word("x")]));
}

#[test]
fn objects_compare_without_order() {
    let mut a = Object::new();
    a.insert("x".to_string(), Value::Number(1.into()));
    a.insert("y".to_string(), Value::Number(2.into()));
    let mut b = Object::new();
    b.insert("y".to_string(), Value::Number(2.into()));
    b.insert("x".to_string(), Value::Number(1.into()));
    assert_eq!(a, b);
    assert_eq!(Value::Object(a.clone()), Value::Object(b.clone()));

    let mut other_value = Object::new();
    other_value.insert("x".to_string(), Value::Number(1.into()));
    other_value.insert("y".to_string(), Value::Number(3.into()));
    assert_ne!(a, other_value);

    let mut other_key = Object::new();
    other_key.insert("x".to_string(), Value::Number(1.into()));
    other_key.insert("z".to_string(), Value::Number(2.into()));
    assert_ne!(a, other_key);
    assert_ne!(other_key, a);

    let mut fewer = Object::new();
    fewer.insert("x".to_string(), Value::Number(1.into()));
    assert_ne!(a, fewer);
    assert_ne!(fewer, a);
}

#[test]
fn nested_values_compare_all_the_way_down() {
    let build = |leaf: Value| {
        let mut inner = Object::new();
        inner.insert("leaf".to_string(), Value::List(vec![leaf]));
        let mut outer = Object::new();
        outer.insert("inner".to_string(), Value::Object(inner));
        Value::List(vec![Value::Object(outer)])
    };
    assert_eq!(build(Value::Null), build(Value::Null));
    assert_ne!(build(Value::Null), build(Value::Boolean(false)));
}

#[test]
fn new_object_is_empty() {
    let object = Object::new();
    assert_eq!(object.len(), 0);
    assert!(object.get("anything").is_none());
    assert!(object.get("").is_none());
}

#[test]
fn insert_adds_a_fresh_key() {
    let mut object = Object::new();
    assert!(object.insert("a".to_string(), Value::Null).is_none());
    assert_eq!(object.len(), 1);
    assert!(object.insert("b".to_string(), Value::Boolean(true)).is_none());
    assert_eq!(object.len(), 2);
    assert_eq!(object.get("a"), Some(&Value::Null));
    assert_eq!(object.get("b"), Some(&Value::Boolean(true)));
    assert!(object.get("c").is_none());
}

#[test]
fn insert_replaces_the_value_of_a_known_key() {
    let mut object = Object::new();
    object.insert("a".to_string(), Value::Number(1.into()));
    object.insert("b".to_string(), Value::Number(2.into()));
    let previous = object.insert("a".to_string(), Value::Number(3.into()));
    assert_eq!(previous, Some(Value::Number(1.into())));
    assert_eq!(object.len(), 2);
    assert_eq!(object.get("a"), Some(&Value::Number(3.into())));
    assert_eq!(object.get("b"), Some(&Value::Number(2.into())));
}

#[test]
fn keys_are_told_apart_exactly() {
    let mut object = Object::new();
    object.insert("key".to_string(), Value::Null);
    assert!(object.get("Key").is_none());
    assert!(object.get("key ").is_none());
    assert!(object.get("ke").is_none());
    assert!(object.get("key").is_some());
}

#[test]
fn clone_is_deep() {
    let mut inner = Object::new();
    inner.insert("k".to_string(), Value::List(vec![word("v")]));
    let first = Value::List(vec![Value::Object(inner), float(2.25)]);
    let mut copy = first.clone();
    assert_eq!(copy, first);
    if let Value::List(items) = &mut copy {
        if let Value::Object(object) = &mut items[0] {
            object.insert("k".to_string(), Value::Null);
        }
    }
    assert_ne!(copy, first);
    if let Value::List(items) = &first {
        if let Value::Object(object) = &items[0] {
            assert_eq!(object.get("k"), Some(&Value::List(vec![word("v")])));
        }
    }
}

#[test]
fn conversions_pick_the_matching_kind() {
    assert_eq!(Value::from(false), Value::Boolean(false));
    assert_eq!(Value::from("s".to_string()), word("s"));
    assert_eq!(Value::from(serde_json::Number::from(9)), Value::Number(9.into()));
    assert_eq!(Value::from(vec![Value::Null]), Value::List(vec![Value::Null]));
    assert_eq!(Value::from(Object::new()), Value::Object(Object::new()));
}

#[test]
fn members_come_in_the_order_of_first_insertion() {
    let mut object = Object::new();
    object.insert("b".to_string(), Value::Number(1.into()));
    object.insert("a".to_string(), Value::Number(2.into()));
    object.insert("b".to_string(), Value::Number(3.into()));
    let members = object.members();
    assert_eq!(members.len(), 2);
    assert_eq!(members[0].0, "b");
    assert_eq!(members[0].1, Value::Number(3.into()));
    assert_eq!(members[1].0, "a");
    assert_eq!(members[1].1, Value::Number(2.into()));
    assert!(Object::new().members().is_empty());
}
