use any_scalar::{Any, Object, Value};

fn text(s: &str) -> Value {
    Value::String(s.to_string())
}

fn sample_object() -> Value {
    let mut inner = Object::new();
    inner.insert("deep".to_string(), Value::List(vec![Value::Null, text("x")]));
    let mut outer = Object::new();
    outer.insert("id".to_string(), text("42"));
    outer.insert("inner".to_string(), Value::Object(inner));
    outer.insert("n".to_string(), Value::Number((-7).into()));
    Value::Object(outer)
}

fn samples() -> Vec<Value> {
    vec![
        Value::Null,
        Value::Boolean(true),
        Value::Boolean(false),
        Value::Number(0.into()),
        Value::Number(u64::MAX.into()),
        Value::Number(i64::MIN.into()),
        Value::Number(serde_json::Number::from_f64(1.5).unwrap()),
        text(""),
        text("hello"),
        Value::List(vec![]),
        Value::List(vec![Value::List(vec![Value::List(vec![Value::Null])])]),
        Value::Object(Object::new()),
        sample_object(),
    ]
}

#[test]
fn test_conversion_ok() {
    let value = Value::List(vec![
        Value::Number(1.into()),
        Value::Boolean(true),
        Value::Null,
    ]);
    let expected = Any(value.clone());
    let output: Any = value.into();
    assert_eq!(output, expected);
}

#[test]
fn parse_accepts_every_value_and_keeps_it() {
    for value in samples() {
        let parsed = Any::parse(value.clone());
        assert!(parsed.is_ok());
        let scalar = parsed.unwrap();
        assert_eq!(scalar.0, value);
        assert_eq!(scalar.to_value(), value);
    }
}

#[test]
fn is_valid_holds_of_every_value() {
    for value in samples() {
        assert!(Any::is_valid(&value));
    }
}

#[test]
fn to_value_returns_an_independent_copy() {
    let scalar = Any(sample_object());
    let mut copy = scalar.to_value();
    assert_eq!(copy, scalar.0);
    if let Value::Object(object) = &mut copy {
        object.insert("id".to_string(), text("changed"));
    }
    assert_ne!(copy, scalar.0);
    assert_eq!(scalar.0, sample_object());
}

#[test]
fn lifting_a_value_wraps_it() {
    for value in samples() {
        let lifted = Any::from(value.clone());
        assert_eq!(lifted.to_value(), value);
        assert_eq!(lifted, Any(value));
    }
}

#[test]
fn lifting_a_source_wraps_its_conversion() {
    assert_eq!(Any::from(true).to_value(), Value::from(true));
    assert_eq!(Any::from(true).to_value(), Value::Boolean(true));
    assert_eq!(Any::from("abc".to_string()).to_value(), Value::from("abc".to_string()));
    assert_eq!(Any::from("abc".to_string()).to_value(), text("abc"));
    let number = serde_json::Number::from(12);
    assert_eq!(Any::from(number.clone()).to_value(), Value::from(number.clone()));
    assert_eq!(Any::from(number.clone()).to_value(), Value::Number(number));
    let items = vec![Value::Null, Value::Boolean(false)];
    assert_eq!(Any::from(items.clone()).to_value(), Value::from(items.clone()));
    assert_eq!(Any::from(items.clone()).to_value(), Value::List(items));
    let mut object = Object::new();
    object.insert("k".to_string(), Value::Null);
    assert_eq!(Any::from(object.clone()).to_value(), Value::from(object.clone()));
    assert_eq!(Any::from(object.clone()).to_value(), Value::Object(object));
}

#[test]
fn scalars_are_equal_when_their_values_are() {
    assert_eq!(Any(Value::Null), Any(Value::Null));
    assert_ne!(Any(Value::Null), Any(Value::Boolean(false)));
    let scalar = Any(sample_object());
    assert_eq!(scalar.clone(), scalar);
}

#[test]
fn wrapped_list_scenario() {
    let value = Value::List(vec![
        Value::Number(1.into()),
        Value::Boolean(true),
        Value::Null,
    ]);
    let scalar = Any::parse(value.clone()).unwrap();
    assert_eq!(scalar.to_value(), value);
    let json = scalar.to_value().to_json();
    let expected = serde_json::Value::Array(vec![
        serde_json::Value::Number(1.into()),
        serde_json::Value::Bool(true),
        serde_json::Value::Null,
    ]);
    assert_eq!(json, expected);
    assert_eq!(json.to_string(), "[1,true,null]");
    let decoded: (i64, bool, Option<()>) = serde_json::from_value(json).unwrap();
    assert_eq!(decoded, (1, true, None));
    let projected: (i64, bool, Option<()>) = scalar.parse_value().unwrap();
    assert_eq!(projected, (1, true, None));
}
