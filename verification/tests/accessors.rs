use ctap_codec::cbor::{KeyType, SimpleValue, Value};
use ctap_codec::read::{
    extract_byte_string, extract_map, extract_text_string, ok_or_missing, read_array, read_bool,
    read_byte_string, read_integer, read_map, read_text_string, read_unsigned,
};
use ctap_codec::status_code::Ctap2StatusCode;
use ctap_codec::status_code::Ctap2StatusCode::CTAP2_ERR_CBOR_UNEXPECTED_TYPE;

fn null() -> Value {
    Value::Simple(SimpleValue::NullValue)
}

#[test]
fn test_read_unsigned() {
    assert_eq!(read_unsigned(&Value::integer(123)), Ok(123));
    assert_eq!(
        read_unsigned(&Value::bool_value(true)),
        Err(CTAP2_ERR_CBOR_UNEXPECTED_TYPE)
    );
    assert_eq!(
        read_unsigned(&Value::text_string("foo")),
        Err(CTAP2_ERR_CBOR_UNEXPECTED_TYPE)
    );
    assert_eq!(
        read_unsigned(&Value::byte_string(b"bar".to_vec())),
        Err(CTAP2_ERR_CBOR_UNEXPECTED_TYPE)
    );
    assert_eq!(
        read_unsigned(&Value::Array(vec![])),
        Err(CTAP2_ERR_CBOR_UNEXPECTED_TYPE)
    );
    assert_eq!(
        read_unsigned(&Value::Mapping(vec![])),
        Err(CTAP2_ERR_CBOR_UNEXPECTED_TYPE)
    );
}

#[test]
fn test_read_unsigned_limits() {
    assert_eq!(read_unsigned(&Value::unsigned(u64::MAX)), Ok(u64::MAX));
    assert_eq!(
        read_unsigned(&Value::unsigned((i64::MAX as u64) + 1)),
        Ok((i64::MAX as u64) + 1)
    );
    assert_eq!(
        read_unsigned(&Value::integer(i64::MAX)),
        Ok(i64::MAX as u64)
    );
    assert_eq!(read_unsigned(&Value::integer(123)), Ok(123));
    assert_eq!(read_unsigned(&Value::integer(1)), Ok(1));
    assert_eq!(read_unsigned(&Value::integer(0)), Ok(0));
    assert_eq!(
        read_unsigned(&Value::integer(-1)),
        Err(CTAP2_ERR_CBOR_UNEXPECTED_TYPE)
    );
    assert_eq!(
        read_unsigned(&Value::integer(-123)),
        Err(CTAP2_ERR_CBOR_UNEXPECTED_TYPE)
    );
    assert_eq!(
        read_unsigned(&Value::integer(i64::MIN)),
        Err(CTAP2_ERR_CBOR_UNEXPECTED_TYPE)
    );
}

#[test]
fn test_read_integer() {
    assert_eq!(read_integer(&Value::integer(123)), Ok(123));
    assert_eq!(read_integer(&Value::integer(-123)), Ok(-123));
    assert_eq!(
        read_integer(&Value::bool_value(true)),
        Err(CTAP2_ERR_CBOR_UNEXPECTED_TYPE)
    );
    assert_eq!(
        read_integer(&Value::text_string("foo")),
        Err(CTAP2_ERR_CBOR_UNEXPECTED_TYPE)
    );
    assert_eq!(
        read_integer(&Value::byte_string(b"bar".to_vec())),
        Err(CTAP2_ERR_CBOR_UNEXPECTED_TYPE)
    );
    assert_eq!(
        read_integer(&Value::Array(vec![])),
        Err(CTAP2_ERR_CBOR_UNEXPECTED_TYPE)
    );
    assert_eq!(
        read_integer(&Value::Mapping(vec![])),
        Err(CTAP2_ERR_CBOR_UNEXPECTED_TYPE)
    );
}

#[test]
fn test_read_integer_limits() {
    assert_eq!(
        read_integer(&Value::unsigned(u64::MAX)),
        Err(CTAP2_ERR_CBOR_UNEXPECTED_TYPE)
    );
    assert_eq!(
        read_integer(&Value::unsigned((i64::MAX as u64) + 1)),
        Err(CTAP2_ERR_CBOR_UNEXPECTED_TYPE)
    );
    assert_eq!(read_integer(&Value::integer(i64::MAX)), Ok(i64::MAX));
    assert_eq!(read_integer(&Value::integer(123)), Ok(123));
    assert_eq!(read_integer(&Value::integer(1)), Ok(1));
    assert_eq!(read_integer(&Value::integer(0)), Ok(0));
    assert_eq!(read_integer(&Value::integer(-1)), Ok(-1));
    assert_eq!(read_integer(&Value::integer(-123)), Ok(-123));
    assert_eq!(read_integer(&Value::integer(i64::MIN)), Ok(i64::MIN));
}

#[test]
fn test_read_byte_string() {
    assert_eq!(
        read_byte_string(&Value::integer(123)),
        Err(CTAP2_ERR_CBOR_UNEXPECTED_TYPE)
    );
    assert_eq!(
        read_byte_string(&Value::bool_value(true)),
        Err(CTAP2_ERR_CBOR_UNEXPECTED_TYPE)
    );
    assert_eq!(
        read_byte_string(&Value::text_string("foo")),
        Err(CTAP2_ERR_CBOR_UNEXPECTED_TYPE)
    );
    assert_eq!(
        read_byte_string(&Value::byte_string(b"".to_vec())),
        Ok(Vec::new())
    );
    assert_eq!(
        read_byte_string(&Value::byte_string(b"bar".to_vec())),
        Ok(b"bar".to_vec())
    );
    assert_eq!(
        read_byte_string(&Value::Array(vec![])),
        Err(CTAP2_ERR_CBOR_UNEXPECTED_TYPE)
    );
    assert_eq!(
        read_byte_string(&Value::Mapping(vec![])),
        Err(CTAP2_ERR_CBOR_UNEXPECTED_TYPE)
    );
}

#[test]
fn test_read_text_string() {
    assert_eq!(
        read_text_string(&Value::integer(123)),
        Err(CTAP2_ERR_CBOR_UNEXPECTED_TYPE)
    );
    assert_eq!(
        read_text_string(&Value::bool_value(true)),
        Err(CTAP2_ERR_CBOR_UNEXPECTED_TYPE)
    );
    assert_eq!(read_text_string(&Value::text_string("")), Ok(String::new()));
    assert_eq!(
        read_text_string(&Value::text_string("foo")),
        Ok(String::from("foo"))
    );
    assert_eq!(
        read_text_string(&Value::byte_string(b"bar".to_vec())),
        Err(CTAP2_ERR_CBOR_UNEXPECTED_TYPE)
    );
    assert_eq!(
        read_text_string(&Value::Array(vec![])),
        Err(CTAP2_ERR_CBOR_UNEXPECTED_TYPE)
    );
    assert_eq!(
        read_text_string(&Value::Mapping(vec![])),
        Err(CTAP2_ERR_CBOR_UNEXPECTED_TYPE)
    );
}

#[test]
fn test_read_array() {
    assert_eq!(
        read_array(&Value::integer(123)),
        Err(CTAP2_ERR_CBOR_UNEXPECTED_TYPE)
    );
    assert_eq!(
        read_array(&Value::bool_value(true)),
        Err(CTAP2_ERR_CBOR_UNEXPECTED_TYPE)
    );
    assert_eq!(
        read_array(&Value::text_string("foo")),
        Err(CTAP2_ERR_CBOR_UNEXPECTED_TYPE)
    );
    assert_eq!(
        read_array(&Value::byte_string(b"bar".to_vec())),
        Err(CTAP2_ERR_CBOR_UNEXPECTED_TYPE)
    );
    assert_eq!(read_array(&Value::Array(vec![])), Ok(&Vec::new()));
    assert_eq!(
        read_array(&Value::Array(vec![
            Value::integer(123),
            null(),
            Value::text_string("foo"),
            Value::Array(vec![]),
            Value::Mapping(vec![]),
        ])),
        Ok(&vec![
            Value::integer(123),
            null(),
            Value::text_string("foo"),
            Value::Array(vec![]),
            Value::Mapping(vec![]),
        ])
    );
    assert_eq!(
        read_array(&Value::Mapping(vec![])),
        Err(CTAP2_ERR_CBOR_UNEXPECTED_TYPE)
    );
}

#[test]
fn test_read_map() {
    assert_eq!(
        read_map(&Value::integer(123)),
        Err(CTAP2_ERR_CBOR_UNEXPECTED_TYPE)
    );
    assert_eq!(
        read_map(&Value::bool_value(true)),
        Err(CTAP2_ERR_CBOR_UNEXPECTED_TYPE)
    );
    assert_eq!(
        read_map(&Value::text_string("foo")),
        Err(CTAP2_ERR_CBOR_UNEXPECTED_TYPE)
    );
    assert_eq!(
        read_map(&Value::byte_string(b"bar".to_vec())),
        Err(CTAP2_ERR_CBOR_UNEXPECTED_TYPE)
    );
    assert_eq!(
        read_map(&Value::Array(vec![])),
        Err(CTAP2_ERR_CBOR_UNEXPECTED_TYPE)
    );
    assert_eq!(read_map(&Value::Mapping(vec![])), Ok(&Vec::new()));
    assert_eq!(
        read_map(&Value::Mapping(vec![
            (KeyType::integer(1), Value::bool_value(false)),
            (KeyType::text("foo"), Value::byte_string(b"bar".to_vec())),
            (KeyType::ByteString(b"bin".to_vec()), Value::integer(-42)),
        ])),
        Ok(&vec![
            (KeyType::Unsigned(1), Value::bool_value(false)),
            (
                KeyType::TextString("foo".to_string()),
                Value::byte_string(b"bar".to_vec())
            ),
            (KeyType::ByteString(b"bin".to_vec()), Value::integer(-42)),
        ])
    );
}

#[test]
fn test_read_bool() {
    assert_eq!(
        read_bool(&Value::integer(123)),
        Err(CTAP2_ERR_CBOR_UNEXPECTED_TYPE)
    );
    assert_eq!(read_bool(&Value::bool_value(true)), Ok(true));
    assert_eq!(read_bool(&Value::bool_value(false)), Ok(false));
    assert_eq!(
        read_bool(&Value::text_string("foo")),
        Err(CTAP2_ERR_CBOR_UNEXPECTED_TYPE)
    );
    assert_eq!(
        read_bool(&Value::byte_string(b"bar".to_vec())),
        Err(CTAP2_ERR_CBOR_UNEXPECTED_TYPE)
    );
    assert_eq!(
        read_bool(&Value::Array(vec![])),
        Err(CTAP2_ERR_CBOR_UNEXPECTED_TYPE)
    );
    assert_eq!(
        read_bool(&Value::Mapping(vec![])),
        Err(CTAP2_ERR_CBOR_UNEXPECTED_TYPE)
    );
}

#[test]
fn read_bool_takes_no_other_simple_value() {
    assert_eq!(read_bool(&null()), Err(CTAP2_ERR_CBOR_UNEXPECTED_TYPE));
    assert_eq!(
        read_bool(&Value::Simple(SimpleValue::Undefined)),
        Err(CTAP2_ERR_CBOR_UNEXPECTED_TYPE)
    );
    assert_eq!(
        read_bool(&Value::integer(0)),
        Err(CTAP2_ERR_CBOR_UNEXPECTED_TYPE)
    );
    assert_eq!(
        read_bool(&Value::integer(1)),
        Err(CTAP2_ERR_CBOR_UNEXPECTED_TYPE)
    );
}

#[test]
fn signed_maximum_plus_one_is_unsigned_only() {
    let value = Value::unsigned(0x8000_0000_0000_0000);
    assert_eq!(read_integer(&value), Err(CTAP2_ERR_CBOR_UNEXPECTED_TYPE));
    assert_eq!(read_unsigned(&value), Ok(0x8000_0000_0000_0000));
    let value = Value::unsigned(0x7fff_ffff_ffff_ffff);
    assert_eq!(read_integer(&value), Ok(0x7fff_ffff_ffff_ffff));
}

#[test]
fn negative_wire_type_is_read_as_it_is() {
    assert_eq!(
        read_integer(&Value::KeyValue(KeyType::Negative(-5))),
        Ok(-5)
    );
    assert_eq!(
        read_unsigned(&Value::KeyValue(KeyType::Negative(-5))),
        Err(CTAP2_ERR_CBOR_UNEXPECTED_TYPE)
    );
}

#[test]
fn extract_takes_the_same_nodes_as_read() {
    assert_eq!(
        extract_byte_string(Value::byte_string(vec![1, 2, 3])),
        Ok(vec![1, 2, 3])
    );
    assert_eq!(
        extract_byte_string(Value::text_string("foo")),
        Err(CTAP2_ERR_CBOR_UNEXPECTED_TYPE)
    );
    assert_eq!(
        extract_text_string(Value::text_string("foo")),
        Ok("foo".to_string())
    );
    assert_eq!(
        extract_text_string(Value::byte_string(vec![1, 2, 3])),
        Err(CTAP2_ERR_CBOR_UNEXPECTED_TYPE)
    );
    assert_eq!(
        extract_map(Value::Mapping(vec![(KeyType::integer(7), null())])),
        Ok(vec![(KeyType::Unsigned(7), null())])
    );
    assert_eq!(
        extract_map(Value::Array(vec![])),
        Err(CTAP2_ERR_CBOR_UNEXPECTED_TYPE)
    );
}

#[test]
fn missing_is_not_a_wrong_type() {
    assert_eq!(ok_or_missing(Some(5)), Ok(5));
    assert_eq!(
        ok_or_missing::<u8>(None),
        Err(Ctap2StatusCode::CTAP2_ERR_MISSING_PARAMETER)
    );
}
