use ctap_codec::cbor::{
    bytes_equal, clone_entries, map_get, map_get_int, map_get_text, map_remove, push_field,
    text_equals, KeyType, SimpleValue, Value,
};

fn sample() -> Vec<(KeyType, Value)> {
    vec![
        (KeyType::Unsigned(1), Value::integer(10)),
        (KeyType::Negative(-1), Value::integer(20)),
        (KeyType::text("a"), Value::integer(30)),
        (KeyType::ByteString(vec![0x61]), Value::integer(40)),
        (KeyType::Unsigned(1), Value::integer(50)),
    ]
}

#[test]
fn integer_picks_the_wire_type() {
    assert_eq!(KeyType::integer(0), KeyType::Unsigned(0));
    assert_eq!(KeyType::integer(5), KeyType::Unsigned(5));
    assert_eq!(KeyType::integer(i64::MAX), KeyType::Unsigned(i64::MAX as u64));
    assert_eq!(KeyType::integer(-1), KeyType::Negative(-1));
    assert_eq!(KeyType::integer(i64::MIN), KeyType::Negative(i64::MIN));
    assert_eq!(Value::integer(-3), Value::KeyValue(KeyType::Negative(-3)));
    assert_eq!(Value::unsigned(3), Value::KeyValue(KeyType::Unsigned(3)));
}

#[test]
fn constructors_make_the_node_they_name() {
    assert_eq!(
        Value::bool_value(true),
        Value::Simple(SimpleValue::TrueValue)
    );
    assert_eq!(
        Value::bool_value(false),
        Value::Simple(SimpleValue::FalseValue)
    );
    assert_eq!(
        Value::text_string("foo"),
        Value::KeyValue(KeyType::TextString("foo".to_string()))
    );
    assert_eq!(
        Value::byte_string(vec![1, 2]),
        Value::KeyValue(KeyType::ByteString(vec![1, 2]))
    );
    assert_eq!(KeyType::text("foo"), KeyType::TextString("foo".to_string()));
}

#[test]
fn keys_of_different_wire_types_differ() {
    assert!(KeyType::Unsigned(1).same_key(&KeyType::Unsigned(1)));
    assert!(!KeyType::Unsigned(1).same_key(&KeyType::Unsigned(2)));
    assert!(!KeyType::Unsigned(1).same_key(&KeyType::Negative(1)));
    assert!(KeyType::Negative(-1).same_key(&KeyType::Negative(-1)));
    assert!(KeyType::text("a").same_key(&KeyType::text("a")));
    assert!(!KeyType::text("a").same_key(&KeyType::text("b")));
    assert!(!KeyType::text("a").same_key(&KeyType::ByteString(vec![0x61])));
    assert!(KeyType::ByteString(vec![1, 2]).same_key(&KeyType::ByteString(vec![1, 2])));
    assert!(!KeyType::ByteString(vec![1, 2]).same_key(&KeyType::ByteString(vec![1, 3])));
    assert!(!KeyType::ByteString(vec![1, 2]).same_key(&KeyType::ByteString(vec![1])));
}

#[test]
fn bytes_and_texts_compare_by_content() {
    assert!(bytes_equal(&vec![], &vec![]));
    assert!(bytes_equal(&vec![1, 2, 3], &vec![1, 2, 3]));
    assert!(!bytes_equal(&vec![1, 2, 3], &vec![1, 2, 4]));
    assert!(!bytes_equal(&vec![1, 2, 3], &vec![1, 2]));
    assert!(text_equals(&"usb".to_string(), "usb"));
    assert!(!text_equals(&"usb".to_string(), "nfc"));
    assert!(!text_equals(&"usb".to_string(), "usb "));
}

#[test]
fn lookup_finds_the_first_entry_with_the_key() {
    let entries = sample();
    assert_eq!(
        map_get(&entries, &KeyType::Unsigned(1)),
        Some(&Value::integer(10))
    );
    assert_eq!(map_get_int(&entries, 1), Some(&Value::integer(10)));
    assert_eq!(map_get_int(&entries, -1), Some(&Value::integer(20)));
    assert_eq!(map_get_text(&entries, "a"), Some(&Value::integer(30)));
    assert_eq!(
        map_get(&entries, &KeyType::ByteString(vec![0x61])),
        Some(&Value::integer(40))
    );
    assert_eq!(map_get_int(&entries, 2), None);
    assert_eq!(map_get_text(&entries, "b"), None);
    assert_eq!(map_get(&Vec::new(), &KeyType::Unsigned(1)), None);
}

#[test]
fn remove_takes_the_first_entry_with_the_key() {
    let mut entries = sample();
    assert_eq!(
        map_remove(&mut entries, &KeyType::text("a")),
        Some(Value::integer(30))
    );
    assert_eq!(entries.len(), 4);
    assert_eq!(map_remove(&mut entries, &KeyType::text("a")), None);
    assert_eq!(entries.len(), 4);
    assert_eq!(
        map_remove(&mut entries, &KeyType::Unsigned(1)),
        Some(Value::integer(10))
    );
    assert_eq!(
        entries,
        vec![
            (KeyType::Negative(-1), Value::integer(20)),
            (KeyType::ByteString(vec![0x61]), Value::integer(40)),
            (KeyType::Unsigned(1), Value::integer(50)),
        ]
    );
    assert_eq!(map_get_int(&entries, 1), Some(&Value::integer(50)));
}

#[test]
fn an_absent_field_has_no_entry() {
    let mut entries = Vec::new();
    push_field(&mut entries, KeyType::integer(1), Some(Value::integer(10)));
    push_field(&mut entries, KeyType::integer(2), None);
    push_field(&mut entries, KeyType::integer(3), Some(Value::integer(30)));
    assert_eq!(
        entries,
        vec![
            (KeyType::Unsigned(1), Value::integer(10)),
            (KeyType::Unsigned(3), Value::integer(30)),
        ]
    );
}

#[test]
fn a_copy_is_equal_down_to_the_leaves() {
    let value = Value::Mapping(vec![
        (
            KeyType::text("list"),
            Value::Array(vec![
                Value::integer(-1),
                Value::byte_string(vec![9, 8]),
                Value::Mapping(sample()),
            ]),
        ),
        (KeyType::Unsigned(7), Value::Simple(SimpleValue::Undefined)),
    ]);
    assert_eq!(value.clone(), value);
    assert_eq!(KeyType::text("k").clone(), KeyType::text("k"));
    assert_eq!(clone_entries(&sample()), sample());
}
