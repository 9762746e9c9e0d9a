use api::convex_serde::ser::{
    insert_member, to_map, Error, KeySerializer, SerializeBTreeMap, SerializeValueMap,
    ValueSerializer,
};
use api::convex_serde::value::Value;

struct TestStruct {
    field1: i32,
    field2: String,
}

struct TestStructWithArray {
    field1: i32,
    field2: Vec<String>,
}

fn serialize_test_struct(test: &TestStruct) -> Result<Value, Error> {
    let mut record = ValueSerializer.serialize_struct("TestStruct", 2)?;
    record.serialize_field("field1", ValueSerializer.serialize_i32(test.field1)?)?;
    record.serialize_field("field2", ValueSerializer.serialize_str(&test.field2)?)?;
    record.end()
}

fn serialize_strings(items: &[String]) -> Result<Value, Error> {
    let mut array = ValueSerializer.serialize_seq(Some(items.len()))?;
    for item in items {
        array.serialize_element(ValueSerializer.serialize_str(item)?)?;
    }
    array.end()
}

fn serialize_test_struct_with_array(test: &TestStructWithArray) -> Result<Value, Error> {
    let mut record = ValueSerializer.serialize_struct("TestStructWithArray", 2)?;
    record.serialize_field("field1", ValueSerializer.serialize_i32(test.field1)?)?;
    record.serialize_field("field2", serialize_strings(&test.field2)?)?;
    record.end()
}

#[test]
fn test_serialize_bool() {
    let value = ValueSerializer.serialize_bool(true).unwrap();
    assert_eq!(value, Value::Boolean(true));
}

#[test]
fn test_serialize_i64() {
    let value = ValueSerializer.serialize_i64(42i64).unwrap();
    assert_eq!(value, Value::Int64(42));
}

#[test]
fn test_serialize_string() {
    let value = ValueSerializer.serialize_str("hello").unwrap();
    assert_eq!(value, Value::String("hello".to_string()));
}

#[test]
fn test_serialize_struct() {
    let test = TestStruct {
        field1: 123,
        field2: "test".to_string(),
    };

    let value = serialize_test_struct(&test).unwrap();

    let expected = Value::Object(vec![
        ("field1".to_string(), Value::Int64(123)),
        ("field2".to_string(), Value::String("test".to_string())),
    ]);

    assert_eq!(value, expected);
}

#[test]
fn test_serialize_struct_with_array() {
    let test = TestStructWithArray {
        field1: 123,
        field2: vec!["test1".to_string(), "test2".to_string()],
    };

    let value = serialize_test_struct_with_array(&test).unwrap();

    let expected = Value::Object(vec![
        ("field1".to_string(), Value::Int64(123)),
        (
            "field2".to_string(),
            Value::Array(vec![
                Value::String("test1".to_string()),
                Value::String("test2".to_string()),
            ]),
        ),
    ]);

    assert_eq!(value, expected);
}

#[test]
fn serialize_u64_above_i64_is_refused() {
    assert_eq!(
        ValueSerializer.serialize_u64(i64::MAX as u64),
        Ok(Value::Int64(i64::MAX))
    );
    let refused = ValueSerializer.serialize_u64(i64::MAX as u64 + 1).unwrap_err();
    assert_eq!(refused, Error::IntOutOfRange(9223372036854775808));
    assert_eq!(
        refused.to_string(),
        "cannot serialize u64 values outside of i64 range: 9223372036854775808"
    );
}

#[test]
fn serialize_scalars() {
    assert_eq!(ValueSerializer.serialize_i8(-5), Ok(Value::Int64(-5)));
    assert_eq!(ValueSerializer.serialize_u32(7), Ok(Value::Int64(7)));
    assert_eq!(ValueSerializer.serialize_char('x'), Ok(Value::String("x".to_string())));
    assert_eq!(ValueSerializer.serialize_none(), Ok(Value::Null));
    assert_eq!(ValueSerializer.serialize_unit(), Ok(Value::Null));
    assert_eq!(ValueSerializer.serialize_bytes(&vec![1, 2]), Ok(Value::Bytes(vec![1, 2])));
    assert_eq!(ValueSerializer.serialize_f64(1.5f64.to_bits()), Ok(Value::Float64(1.5f64.to_bits())));
    assert_eq!(
        ValueSerializer.serialize_unit_variant("Kind", 0, "low"),
        Ok(Value::String("low".to_string()))
    );
    assert_eq!(
        ValueSerializer.serialize_newtype_variant("Kind", 0, "some", Value::Int64(1)),
        Ok(Value::Object(vec![("some".to_string(), Value::Int64(1))]))
    );
    assert_eq!(ValueSerializer.serialize_some(Value::Int64(4)), Ok(Value::Int64(4)));
}

#[test]
fn members_are_kept_in_the_order_of_their_keys() {
    let mut members = Vec::new();
    insert_member(&mut members, "b".to_string(), Value::Int64(2));
    insert_member(&mut members, "c".to_string(), Value::Int64(3));
    insert_member(&mut members, "a".to_string(), Value::Int64(1));
    insert_member(&mut members, "b".to_string(), Value::Int64(20));
    insert_member(&mut members, "ab".to_string(), Value::Int64(12));
    assert_eq!(
        members,
        vec![
            ("a".to_string(), Value::Int64(1)),
            ("ab".to_string(), Value::Int64(12)),
            ("b".to_string(), Value::Int64(20)),
            ("c".to_string(), Value::Int64(3)),
        ]
    );
}

#[test]
fn map_value_without_key_is_an_error() {
    let mut map = SerializeValueMap::new();
    let refused = map.serialize_value(Value::Null).unwrap_err();
    assert_eq!(refused, Error::Custom("Key not set before value serialization".to_string()));
    map.serialize_key("k".to_string()).unwrap();
    map.serialize_value(Value::Boolean(false)).unwrap();
    assert_eq!(
        map.end(),
        Ok(Value::Object(vec![("k".to_string(), Value::Boolean(false))]))
    );
}

#[test]
fn keys_must_be_strings() {
    assert_eq!(KeySerializer.serialize_str("id"), Ok("id".to_string()));
    assert_eq!(KeySerializer.serialize_char('k'), Ok("k".to_string()));
    assert_eq!(
        KeySerializer.serialize_bool(true),
        Err(Error::KeyNotString("true".to_string()))
    );
    assert_eq!(
        KeySerializer.serialize_i64(-42),
        Err(Error::KeyNotString("-42".to_string()))
    );
    assert_eq!(
        KeySerializer.serialize_i64(i64::MIN),
        Err(Error::KeyNotString("-9223372036854775808".to_string()))
    );
    assert_eq!(
        KeySerializer.serialize_u64(0),
        Err(Error::KeyNotString("0".to_string()))
    );
    assert_eq!(
        KeySerializer.serialize_bytes(&vec![1, 20, 255]),
        Err(Error::KeyNotString("[1, 20, 255]".to_string()))
    );
    assert_eq!(
        KeySerializer.serialize_bytes(&vec![]),
        Err(Error::KeyNotString(format!("{:?}", Vec::<u8>::new())))
    );
    assert_eq!(
        KeySerializer.serialize_unit_variant("Kind", 1, "Low"),
        Err(Error::KeyNotString("Kind::Low".to_string()))
    );
    assert_eq!(
        KeySerializer.serialize_struct_variant("Kind", 1, "Low", 2),
        Err(Error::KeyNotString("Kind::Low {}".to_string()))
    );
    assert_eq!(
        KeySerializer.serialize_struct("Point", 2).unwrap_err().to_string(),
        "cannot serialize key that is not a string: Point {}"
    );
}

#[test]
fn only_maps_become_objects() {
    assert_eq!(
        SerializeBTreeMap::new().serialize_i32(5).unwrap_err(),
        Error::MapNotObject("5".to_string())
    );
    assert_eq!(
        SerializeBTreeMap::new().serialize_str("text").unwrap_err().to_string(),
        "cannot serialize map that is not an object: text"
    );
    assert_eq!(
        SerializeBTreeMap::new().serialize_tuple_struct("Pair", 2).unwrap_err(),
        Error::MapNotObject("Pair()".to_string())
    );
    let mut record = SerializeBTreeMap::new().serialize_struct("Point", 2).unwrap();
    record.serialize_field("y", Value::Int64(2)).unwrap();
    record.serialize_field("x", Value::Int64(1)).unwrap();
    assert_eq!(
        record.end(),
        Ok(vec![
            ("x".to_string(), Value::Int64(1)),
            ("y".to_string(), Value::Int64(2)),
        ])
    );
}

#[test]
fn to_map_takes_objects_only() {
    assert_eq!(
        to_map(Value::Object(vec![("a".to_string(), Value::Null)])),
        Ok(vec![("a".to_string(), Value::Null)])
    );
    assert_eq!(
        to_map(Value::Int64(1)),
        Err(Error::Custom("Expected an object".to_string()))
    );
}
