use relay::value::{clone_entries, find, is_key, locate, Value};

fn sample() -> Value {
    Value::Table(vec![
        ("a".to_string(), Value::Integer(1)),
        (
            "b".to_string(),
            Value::Table(vec![("c".to_string(), Value::String("deep".to_string()))]),
        ),
        (
            "list".to_string(),
            Value::Array(vec![Value::String("x".to_string()), Value::String("y".to_string())]),
        ),
    ])
}

#[test]
fn get_and_field() {
    let v = sample();
    assert!(matches!(v.get("a"), Some(Value::Integer(1))));
    assert!(v.get("z").is_none());
    assert!(matches!(v.field("b", "c"), Some(Value::String(s)) if s == "deep"));
    assert!(v.field("b", "z").is_none());
    assert!(v.field("a", "c").is_none());
    assert!(v.field("z", "c").is_none());
    assert!(Value::Integer(1).get("a").is_none());
    assert!(v.is_table());
    assert!(!Value::Nil.is_table());
}

#[test]
fn find_and_is_key() {
    let entries = vec![
        ("k".to_string(), Value::Boolean(true)),
        ("kk".to_string(), Value::Boolean(false)),
    ];
    assert!(matches!(find(&entries, "k"), Some(Value::Boolean(true))));
    assert!(matches!(find(&entries, "kk"), Some(Value::Boolean(false))));
    assert!(find(&entries, "").is_none());
    assert_eq!(locate(&entries, "k"), Some(0));
    assert_eq!(locate(&entries, "kk"), Some(1));
    assert_eq!(locate(&entries, "kkk"), None);
    let numbers = vec![("a".to_string(), 1), ("b".to_string(), 2), ("a".to_string(), 3)];
    assert_eq!(locate(&numbers, "a"), Some(0));
    assert_eq!(locate(&numbers, "b"), Some(1));
    assert!(is_key(&"port".to_string(), "port"));
    assert!(!is_key(&"port".to_string(), "ports"));
    assert!(!is_key(&"port".to_string(), "Port"));
}

#[test]
fn typed_readers() {
    assert_eq!(Value::String("s".to_string()).as_text(), Some("s".to_string()));
    assert_eq!(Value::Integer(1).as_text(), None);
    assert_eq!(Value::Nil.as_text(), None);

    assert_eq!(Value::Integer(0).as_number(10), Some(0));
    assert_eq!(Value::Integer(10).as_number(10), Some(10));
    assert_eq!(Value::Integer(11).as_number(10), None);
    assert_eq!(Value::Integer(-1).as_number(10), None);
    assert_eq!(Value::Integer(i128::MAX).as_number(u64::MAX), None);
    assert_eq!(Value::Integer(u64::MAX as i128).as_number(u64::MAX), Some(u64::MAX));
    assert_eq!(Value::Unsigned(7).as_number(7), Some(7));
    assert_eq!(Value::Unsigned(8).as_number(7), None);
    assert_eq!(Value::Boolean(true).as_number(7), None);
    assert_eq!(Value::Float(0).as_number(7), None);
    assert_eq!(Value::String("1".to_string()).as_number(7), None);

    let v = sample();
    assert_eq!(v.get("list").unwrap().as_texts(), Some(vec!["x".to_string(), "y".to_string()]));
    assert_eq!(Value::Array(vec![]).as_texts(), Some(vec![]));
    assert_eq!(
        Value::Array(vec![Value::String("x".to_string()), Value::Integer(1)]).as_texts(),
        None
    );
    assert_eq!(Value::String("x".to_string()).as_texts(), None);
}

#[test]
fn clone_is_deep() {
    let v = sample();
    let copy = v.clone();
    assert_eq!(format!("{:?}", copy), format!("{:?}", v));
    drop(v);
    assert!(matches!(copy.field("b", "c"), Some(Value::String(s)) if s == "deep"));
    let entries = vec![("k".to_string(), Value::Array(vec![Value::Float(1)]))];
    assert_eq!(format!("{:?}", clone_entries(&entries)), format!("{:?}", entries));
}
