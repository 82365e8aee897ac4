//! The accessors: each takes from a node the one kind of value that it is
//! for, without turning one kind into another. All checking of wire types is
//! done here.

use crate::cbor::{
    entries_view, find_key, int_node, lemma_view_of_parts, unsigned_node, values_view, KeyType,
    KeyView, SimpleValue, Value, ValueView,
};
use crate::status_code::Ctap2StatusCode;
use vstd::prelude::*;

verus! {

/// The non-negative integer in a node of exactly that wire type.
pub open spec fn as_unsigned(v: ValueView) -> Result<u64, Ctap2StatusCode> {
    match v {
        ValueView::KeyValue(KeyView::Unsigned(u)) => Ok(u),
        _ => Err(Ctap2StatusCode::CTAP2_ERR_CBOR_UNEXPECTED_TYPE),
    }
}

/// The integer in a node of one of the two integer wire types. A
/// non-negative one counts only up to the largest signed value: nothing
/// wraps.
pub open spec fn as_integer(v: ValueView) -> Result<i64, Ctap2StatusCode> {
    match v {
        ValueView::KeyValue(KeyView::Unsigned(u)) => if u <= i64::MAX {
            Ok(u as i64)
        } else {
            Err(Ctap2StatusCode::CTAP2_ERR_CBOR_UNEXPECTED_TYPE)
        },
        ValueView::KeyValue(KeyView::Negative(n)) => Ok(n),
        _ => Err(Ctap2StatusCode::CTAP2_ERR_CBOR_UNEXPECTED_TYPE),
    }
}

/// The bytes in a byte string. A text is no byte string.
pub open spec fn as_bytes(v: ValueView) -> Result<Seq<u8>, Ctap2StatusCode> {
    match v {
        ValueView::KeyValue(KeyView::ByteString(b)) => Ok(b),
        _ => Err(Ctap2StatusCode::CTAP2_ERR_CBOR_UNEXPECTED_TYPE),
    }
}

/// The text in a text string. A byte string is no text.
pub open spec fn as_text(v: ValueView) -> Result<Seq<char>, Ctap2StatusCode> {
    match v {
        ValueView::KeyValue(KeyView::TextString(t)) => Ok(t),
        _ => Err(Ctap2StatusCode::CTAP2_ERR_CBOR_UNEXPECTED_TYPE),
    }
}

/// The items of an array.
pub open spec fn as_array(v: ValueView) -> Result<Seq<ValueView>, Ctap2StatusCode> {
    match v {
        ValueView::Array(a) => Ok(a),
        _ => Err(Ctap2StatusCode::CTAP2_ERR_CBOR_UNEXPECTED_TYPE),
    }
}

/// The entries of a map.
pub open spec fn as_map(v: ValueView) -> Result<Seq<(KeyView, ValueView)>, Ctap2StatusCode> {
    match v {
        ValueView::Mapping(m) => Ok(m),
        _ => Err(Ctap2StatusCode::CTAP2_ERR_CBOR_UNEXPECTED_TYPE),
    }
}

/// The truth value in one of the two boolean nodes. No other node is taken
/// for true or false.
pub open spec fn as_bool(v: ValueView) -> Result<bool, Ctap2StatusCode> {
    match v {
        ValueView::Simple(SimpleValue::FalseValue) => Ok(false),
        ValueView::Simple(SimpleValue::TrueValue) => Ok(true),
        _ => Err(Ctap2StatusCode::CTAP2_ERR_CBOR_UNEXPECTED_TYPE),
    }
}

/// What is there, or the error of a missing entry.
pub open spec fn or_missing<T>(o: Option<T>) -> Result<T, Ctap2StatusCode> {
    match o {
        Some(t) => Ok(t),
        None => Err(Ctap2StatusCode::CTAP2_ERR_MISSING_PARAMETER),
    }
}

/// What `read` makes of the value under `key`, which has to be there.
pub open spec fn required<T>(
    entries: Seq<(KeyView, ValueView)>,
    key: KeyView,
    read: spec_fn(ValueView) -> Result<T, Ctap2StatusCode>,
) -> Result<T, Ctap2StatusCode> {
    match find_key(entries, key) {
        Some(v) => read(v),
        None => Err(Ctap2StatusCode::CTAP2_ERR_MISSING_PARAMETER),
    }
}

/// What `read` makes of the value under `key`, where there is one.
pub open spec fn optional<T>(
    entries: Seq<(KeyView, ValueView)>,
    key: KeyView,
    read: spec_fn(ValueView) -> Result<T, Ctap2StatusCode>,
) -> Result<Option<T>, Ctap2StatusCode> {
    match find_key(entries, key) {
        Some(v) => match read(v) {
            Ok(t) => Ok(Some(t)),
            Err(e) => Err(e),
        },
        None => Ok(None),
    }
}

/// A result with its value, where it has one, taken by its view.
pub open spec fn view_of<T: View>(r: Result<T, Ctap2StatusCode>) -> Result<T::V, Ctap2StatusCode> {
    match r {
        Ok(t) => Ok(t@),
        Err(e) => Err(e),
    }
}

/// The result of reading an array, its items taken by their views.
pub open spec fn array_view_of<A: View<V = Seq<Value>>>(r: Result<A, Ctap2StatusCode>) -> Result<
    Seq<ValueView>,
    Ctap2StatusCode,
> {
    match r {
        Ok(array) => Ok(values_view(array@)),
        Err(e) => Err(e),
    }
}

/// The result of reading a map, its entries taken by their views.
pub open spec fn map_view_of<M: View<V = Seq<(KeyType, Value)>>>(
    r: Result<M, Ctap2StatusCode>,
) -> Result<Seq<(KeyView, ValueView)>, Ctap2StatusCode> {
    match r {
        Ok(map) => Ok(entries_view(map@)),
        Err(e) => Err(e),
    }
}

/// Reads a non-negative integer, see [`as_unsigned`].
pub fn read_unsigned(cbor_value: &Value) -> (r: Result<u64, Ctap2StatusCode>)
    ensures
        r == as_unsigned(cbor_value@),
{
    match cbor_value {
        Value::KeyValue(KeyType::Unsigned(unsigned)) => Ok(*unsigned),
        _ => Err(Ctap2StatusCode::CTAP2_ERR_CBOR_UNEXPECTED_TYPE),
    }
}

/// Reads a signed integer, see [`as_integer`].
pub fn read_integer(cbor_value: &Value) -> (r: Result<i64, Ctap2StatusCode>)
    ensures
        r == as_integer(cbor_value@),
{
    match cbor_value {
        Value::KeyValue(KeyType::Unsigned(unsigned)) => {
            if *unsigned <= i64::MAX as u64 {
                Ok(*unsigned as i64)
            } else {
                Err(Ctap2StatusCode::CTAP2_ERR_CBOR_UNEXPECTED_TYPE)
            }
        },
        Value::KeyValue(KeyType::Negative(signed)) => Ok(*signed),
        _ => Err(Ctap2StatusCode::CTAP2_ERR_CBOR_UNEXPECTED_TYPE),
    }
}

/// Reads a byte string and hands out a copy of its bytes, see [`as_bytes`].
pub fn read_byte_string(cbor_value: &Value) -> (r: Result<Vec<u8>, Ctap2StatusCode>)
    ensures
        view_of(r) == as_bytes(cbor_value@),
{
    match cbor_value {
        Value::KeyValue(KeyType::ByteString(byte_string)) => Ok(byte_string.clone()),
        _ => Err(Ctap2StatusCode::CTAP2_ERR_CBOR_UNEXPECTED_TYPE),
    }
}

/// Takes the bytes out of a byte string, see [`as_bytes`].
pub fn extract_byte_string(cbor_value: Value) -> (r: Result<Vec<u8>, Ctap2StatusCode>)
    ensures
        view_of(r) == as_bytes(cbor_value@),
{
    match cbor_value {
        Value::KeyValue(KeyType::ByteString(byte_string)) => Ok(byte_string),
        _ => Err(Ctap2StatusCode::CTAP2_ERR_CBOR_UNEXPECTED_TYPE),
    }
}

/// Reads a text and hands out a copy of it, see [`as_text`].
pub fn read_text_string(cbor_value: &Value) -> (r: Result<String, Ctap2StatusCode>)
    ensures
        view_of(r) == as_text(cbor_value@),
{
    match cbor_value {
        Value::KeyValue(KeyType::TextString(text_string)) => Ok(text_string.clone()),
        _ => Err(Ctap2StatusCode::CTAP2_ERR_CBOR_UNEXPECTED_TYPE),
    }
}

/// Takes the text out of a text string, see [`as_text`].
pub fn extract_text_string(cbor_value: Value) -> (r: Result<String, Ctap2StatusCode>)
    ensures
        view_of(r) == as_text(cbor_value@),
{
    match cbor_value {
        Value::KeyValue(KeyType::TextString(text_string)) => Ok(text_string),
        _ => Err(Ctap2StatusCode::CTAP2_ERR_CBOR_UNEXPECTED_TYPE),
    }
}

/// Reads an array, see [`as_array`].
pub fn read_array(cbor_value: &Value) -> (r: Result<&Vec<Value>, Ctap2StatusCode>)
    ensures
        array_view_of(r) == as_array(cbor_value@),
{
    proof {
        lemma_view_of_parts(*cbor_value);
    }
    match cbor_value {
        Value::Array(array) => Ok(array),
        _ => Err(Ctap2StatusCode::CTAP2_ERR_CBOR_UNEXPECTED_TYPE),
    }
}

/// Reads a map, see [`as_map`].
pub fn read_map(cbor_value: &Value) -> (r: Result<&Vec<(KeyType, Value)>, Ctap2StatusCode>)
    ensures
        map_view_of(r) == as_map(cbor_value@),
{
    proof {
        lemma_view_of_parts(*cbor_value);
    }
    match cbor_value {
        Value::Mapping(map) => Ok(map),
        _ => Err(Ctap2StatusCode::CTAP2_ERR_CBOR_UNEXPECTED_TYPE),
    }
}

/// Takes the entries out of a map, see [`as_map`].
pub fn extract_map(cbor_value: Value) -> (r: Result<Vec<(KeyType, Value)>, Ctap2StatusCode>)
    ensures
        map_view_of(r) == as_map(cbor_value@),
{
    proof {
        lemma_view_of_parts(cbor_value);
    }
    match cbor_value {
        Value::Mapping(map) => Ok(map),
        _ => Err(Ctap2StatusCode::CTAP2_ERR_CBOR_UNEXPECTED_TYPE),
    }
}

/// Reads a truth value, see [`as_bool`].
pub fn read_bool(cbor_value: &Value) -> (r: Result<bool, Ctap2StatusCode>)
    ensures
        r == as_bool(cbor_value@),
{
    match cbor_value {
        Value::Simple(SimpleValue::FalseValue) => Ok(false),
        Value::Simple(SimpleValue::TrueValue) => Ok(true),
        _ => Err(Ctap2StatusCode::CTAP2_ERR_CBOR_UNEXPECTED_TYPE),
    }
}

/// What is there, or the error of a missing entry: never that of a wrong
/// type.
pub fn ok_or_missing<T>(value_option: Option<T>) -> (r: Result<T, Ctap2StatusCode>)
    ensures
        r == or_missing(value_option),
{
    match value_option {
        Some(value) => Ok(value),
        None => Err(Ctap2StatusCode::CTAP2_ERR_MISSING_PARAMETER),
    }
}

/// A non-negative integer of the wire is read as unsigned whatever it is,
/// and as signed only up to the largest signed value: beyond that it is
/// refused, not wrapped.
pub proof fn unsigned_is_never_widened(u: u64)
    ensures
        as_unsigned(unsigned_node(u)) == Ok::<_, Ctap2StatusCode>(u),
        u <= i64::MAX ==> as_integer(unsigned_node(u)) == Ok::<_, Ctap2StatusCode>(u as i64),
        u > i64::MAX ==> as_integer(unsigned_node(u)) == Err::<i64, _>(
            Ctap2StatusCode::CTAP2_ERR_CBOR_UNEXPECTED_TYPE,
        ),
{
}

/// The node for a signed integer is read as that integer, and as unsigned
/// only where the integer is not negative.
pub proof fn integer_is_read_back(i: i64)
    ensures
        as_integer(int_node(i)) == Ok::<_, Ctap2StatusCode>(i),
        i >= 0 ==> as_unsigned(int_node(i)) == Ok::<_, Ctap2StatusCode>(i as u64),
        i < 0 ==> as_unsigned(int_node(i)) == Err::<u64, _>(
            Ctap2StatusCode::CTAP2_ERR_CBOR_UNEXPECTED_TYPE,
        ),
{
}

} // verus!
