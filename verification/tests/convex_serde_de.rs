use std::collections::BTreeMap;

use api::convex_serde::de::{EnumAccess, Error, ValueDeserializer, Visit};
use api::convex_serde::value::Value;

#[derive(Debug, PartialEq)]
struct TestStruct {
    pub field1: i64,
    pub field2: String,
}

#[derive(Debug, PartialEq)]
struct TestStructWithArray {
    pub field1: i64,
    pub field2: String,
    pub field3: Vec<i64>,
}

#[derive(PartialEq, Eq, Debug)]
enum TestEnum {
    Variant1,
    Variant2,
}

fn object(entries: Vec<(String, Value)>) -> Value {
    let sorted: BTreeMap<String, Value> = entries.into_iter().collect();
    Value::Object(sorted.into_iter().collect())
}

fn missing(field: &str) -> Error {
    Error::custom(&format!("missing field `{field}`"))
}

fn read_i64(value: &Value) -> Result<i64, Error> {
    ValueDeserializer::from_value(value).deserialize_i64()
}

fn read_string(value: &Value) -> Result<String, Error> {
    ValueDeserializer::from_value(value).deserialize_string()
}

fn read_bool(value: &Value) -> Result<bool, Error> {
    ValueDeserializer::from_value(value).deserialize_bool()
}

fn read_i64_seq(value: &Value) -> Result<Vec<i64>, Error> {
    let mut seq = ValueDeserializer::from_value(value).deserialize_seq()?;
    let mut items = Vec::with_capacity(seq.size_hint().unwrap_or(0));
    while let Some(item) = seq.next_element() {
        items.push(item.deserialize_i64()?);
    }
    Ok(items)
}

fn read_test_struct(value: &Value) -> Result<TestStruct, Error> {
    let mut map = match ValueDeserializer::from_value(value).deserialize_struct() {
        Visit::Members(map) => map,
        _ => return Err(Error::ExpectedObject(value.duplicate())),
    };
    let mut field1 = None;
    let mut field2 = None;
    while let Some(key) = map.next_key() {
        match key.deserialize_identifier() {
            "field1" => field1 = Some(map.next_value()?.deserialize_i64()?),
            "field2" => field2 = Some(map.next_value()?.deserialize_string()?),
            _ => {
                map.next_value()?;
            }
        }
    }
    Ok(TestStruct {
        field1: field1.ok_or_else(|| missing("field1"))?,
        field2: field2.ok_or_else(|| missing("field2"))?,
    })
}

fn read_test_struct_with_array(value: &Value) -> Result<TestStructWithArray, Error> {
    let mut map = match ValueDeserializer::from_value(value).deserialize_struct() {
        Visit::Members(map) => map,
        _ => return Err(Error::ExpectedObject(value.duplicate())),
    };
    let mut field1 = None;
    let mut field2 = None;
    let mut field3 = None;
    while let Some(key) = map.next_key() {
        match key.deserialize_identifier() {
            "field1" => field1 = Some(map.next_value()?.deserialize_i64()?),
            "field2" => field2 = Some(map.next_value()?.deserialize_string()?),
            "field3" => field3 = Some(read_i64_seq(map.next_value()?.input)?),
            _ => {
                map.next_value()?;
            }
        }
    }
    Ok(TestStructWithArray {
        field1: field1.ok_or_else(|| missing("field1"))?,
        field2: field2.ok_or_else(|| missing("field2"))?,
        field3: field3.ok_or_else(|| missing("field3"))?,
    })
}

fn read_option_test_struct(value: &Value) -> Result<Option<TestStruct>, Error> {
    match ValueDeserializer::from_value(value).deserialize_option() {
        None => Ok(None),
        Some(de) => read_test_struct(de.input).map(Some),
    }
}

fn read_string_map(value: &Value) -> Result<BTreeMap<String, String>, Error> {
    let mut map = match ValueDeserializer::from_value(value).deserialize_any() {
        Visit::Members(map) => map,
        _ => return Err(Error::ExpectedObject(value.duplicate())),
    };
    let mut out = BTreeMap::new();
    while let Some(key) = map.next_key() {
        let key = key.deserialize_string();
        let value = map.next_value()?.deserialize_string()?;
        out.insert(key, value);
    }
    Ok(out)
}

fn read_test_enum(value: &Value) -> Result<TestEnum, Error> {
    match ValueDeserializer::from_value(value).deserialize_enum()? {
        EnumAccess::Unit(name) => match name.as_str() {
            "variant1" => Ok(TestEnum::Variant1),
            "variant2" => Ok(TestEnum::Variant2),
            other => Err(Error::custom(&format!(
                "unknown variant `{other}`, expected `variant1` or `variant2`"
            ))),
        },
        EnumAccess::Value(access) => {
            access.variant()?;
            Err(access.unit_variant())
        }
    }
}

#[test]
fn test_deserialize_struct() {
    let value = object(vec![
        ("field1".to_string(), Value::Int64(42)),
        ("field2".to_string(), Value::String("hello".to_string())),
    ]);

    let test_struct: TestStruct = read_test_struct(&value).expect("deserialization failed");

    assert_eq!(test_struct.field1, 42);
    assert_eq!(test_struct.field2, "hello");
}

#[test]
fn test_deserialize_struct_with_array() {
    let value = object(vec![
        ("field1".to_string(), Value::Int64(42)),
        ("field2".to_string(), Value::String("hello".to_string())),
        (
            "field3".to_string(),
            Value::Array(vec![Value::Int64(1), Value::Int64(2), Value::Int64(3)]),
        ),
    ]);

    let test_struct: TestStructWithArray =
        read_test_struct_with_array(&value).expect("deserialization failed");

    assert_eq!(test_struct.field1, 42);
    assert_eq!(test_struct.field2, "hello");
    assert_eq!(test_struct.field3, vec![1, 2, 3]);
}

#[test]
fn test_deserialize_i64() {
    let value = Value::Int64(42);
    let result: Result<i64, Error> = read_i64(&value);
    assert_eq!(result.unwrap(), 42);
}

#[test]
fn test_deserialize_string() {
    let value = Value::String("hello".to_string());
    let result: Result<String, Error> = read_string(&value);
    assert_eq!(result.unwrap(), "hello");
}

#[test]
fn test_deserialize_bool() {
    let value = Value::Boolean(true);
    let result: Result<bool, Error> = read_bool(&value);
    assert!(result.unwrap());
}

#[test]
fn test_deserialize_option_struct() {
    let value = object(vec![
        ("field1".to_string(), Value::Int64(42)),
        ("field2".to_string(), Value::String("hello".to_string())),
    ]);

    let test_struct: Option<TestStruct> = read_option_test_struct(&value)
        .map_err(|e| format!("deserialization failed: {}", e.to_string()))
        .ok()
        .flatten();
    assert!(test_struct.is_some());
    let test_struct = test_struct.unwrap();
    assert_eq!(test_struct.field1, 42);
    assert_eq!(test_struct.field2, "hello");

    let none_value = Value::Null;
    let none_struct: Option<TestStruct> = read_option_test_struct(&none_value)
        .map_err(|e| format!("deserialization failed: {}", e.to_string()))
        .ok()
        .flatten();
    assert!(none_struct.is_none());
}

#[test]
fn test_deserialize_seq() {
    let value = Value::Array(vec![Value::Int64(1), Value::Int64(2), Value::Int64(3)]);
    let result: Result<Vec<i64>, Error> = read_i64_seq(&value);
    assert_eq!(result.unwrap(), vec![1, 2, 3]);
}

#[test]
fn test_deserialize_map() {
    let value = object(vec![
        ("key1".to_string(), Value::String("value1".to_string())),
        ("key2".to_string(), Value::String("value2".to_string())),
    ]);

    let result: Result<BTreeMap<String, String>, Error> = read_string_map(&value);

    let expected: BTreeMap<String, String> = vec![
        ("key1".to_string(), "value1".to_string()),
        ("key2".to_string(), "value2".to_string()),
    ]
    .into_iter()
    .collect();

    assert_eq!(result.unwrap(), expected);
}

#[test]
fn test_deserialize_error() {
    let value = Value::String("not an int".to_string());
    let result: Result<i64, Error> = read_i64(&value);
    assert!(result.is_err());
    assert_eq!(
        result.unwrap_err().to_string(),
        "expected i64 value, got String(\"not an int\")"
    );
}

#[test]
fn test_deserialize_unit() {
    let value = Value::Null;
    ValueDeserializer::from_value(&value).deserialize_unit()
}

#[test]
fn test_deserialize_enum() {
    let value = Value::String("variant1".to_string());
    let result = read_test_enum(&value).unwrap();
    assert_eq!(result, TestEnum::Variant1);

    let value = Value::String("variant2".to_string());
    let result = read_test_enum(&value).unwrap();
    assert_eq!(result, TestEnum::Variant2);

    let value = Value::String("invalid".to_string());
    let result: Result<TestEnum, Error> = read_test_enum(&value);
    assert!(result.is_err());
}

#[test]
fn deserialize_wrong_kind_names_the_kind_and_keeps_the_value() {
    let value = Value::Int64(7);
    assert_eq!(read_bool(&value), Err(Error::ExpectedBool(Value::Int64(7))));
    assert_eq!(read_string(&value), Err(Error::ExpectedString(Value::Int64(7))));
    assert_eq!(read_i64_seq(&value).unwrap_err(), Error::ExpectedSeq(Value::Int64(7)));
    let de = ValueDeserializer::from_value(&value);
    assert_eq!(de.deserialize_f64(), Err(Error::ExpectedFloat(Value::Int64(7))));
    assert_eq!(de.deserialize_bytes(), Err(Error::ExpectedBytes(Value::Int64(7))));
    assert!(matches!(de.deserialize_enum(), Err(Error::ExpectedEnum(Value::Int64(7)))));
    assert_eq!(read_i64(&Value::Boolean(true)), Err(Error::ExpectedInt(Value::Boolean(true))));
}

#[test]
fn deserialize_error_messages() {
    assert_eq!(
        Error::ExpectedBool(Value::Null).to_string(),
        "expected bool value, got Null"
    );
    assert_eq!(
        Error::ExpectedSeq(Value::Int64(3)).to_string(),
        "expected sequence value, got Int64(3)"
    );
    assert_eq!(Error::ExpectedValue.to_string(), "expected value for map access");
    assert_eq!(Error::custom("boom").to_string(), "boom");
}

#[test]
fn deserialize_any_hands_over_what_is_there() {
    assert!(matches!(
        ValueDeserializer::from_value(&Value::Null).deserialize_any(),
        Visit::Unit
    ));
    assert!(matches!(
        ValueDeserializer::from_value(&Value::Int64(5)).deserialize_any(),
        Visit::I64(5)
    ));
    assert!(matches!(
        ValueDeserializer::from_value(&Value::Float64(77)).deserialize_any(),
        Visit::F64(77)
    ));
    assert!(matches!(
        ValueDeserializer::from_value(&Value::String("x".to_string())).deserialize_any(),
        Visit::Str("x")
    ));
    let array = Value::Array(vec![Value::Null]);
    match ValueDeserializer::from_value(&array).deserialize_any() {
        Visit::Items(seq) => assert_eq!(seq.size_hint(), Some(1)),
        _ => panic!("expected items"),
    }
}

#[test]
fn map_access_hands_out_a_value_once() {
    let value = object(vec![("a".to_string(), Value::Int64(1))]);
    let mut map = match ValueDeserializer::from_value(&value).deserialize_any() {
        Visit::Members(map) => map,
        _ => panic!("expected members"),
    };
    assert_eq!(map.next_value().err(), Some(Error::ExpectedValue));
    let key = map.next_key().unwrap();
    assert_eq!(key.deserialize_str(), "a");
    assert_eq!(map.next_value().unwrap().deserialize_i64(), Ok(1));
    assert_eq!(map.next_value().err(), Some(Error::ExpectedValue));
    assert!(map.next_key().is_none());
}

#[test]
fn enum_off_an_object_fails_at_the_variant_name() {
    let value = object(vec![("Variant1".to_string(), Value::Null)]);
    let result = read_test_enum(&value);
    assert!(matches!(result, Err(Error::ExpectedString(_))));
}

#[test]
fn option_of_a_present_value_stands_on_the_value() {
    let value = Value::Int64(9);
    let de = ValueDeserializer::from_value(&value);
    assert_eq!(de.deserialize_option().unwrap().deserialize_i64(), Ok(9));
    assert!(ValueDeserializer::from_value(&Value::Null).deserialize_option().is_none());
    assert_eq!(de.deserialize_newtype_struct().deserialize_i64(), Ok(9));
}

#[test]
fn values_as_text() {
    assert_eq!(Value::Null.to_text(), "Null");
    assert_eq!(Value::Int64(-3).to_text(), "Int64(-3)");
    assert_eq!(Value::Boolean(false).to_text(), "Boolean(false)");
    assert_eq!(Value::Float64(5).to_text(), "Float64(5)");
    assert_eq!(Value::Bytes(vec![1, 2]).to_text(), "Bytes([1, 2])");
    assert_eq!(
        Value::String("a\"b\n".to_string()).to_text(),
        format!("String({:?})", "a\"b\n")
    );
    assert_eq!(
        Value::Array(vec![Value::Int64(1), Value::String("x".to_string()), Value::Null]).to_text(),
        "Array([Int64(1), String(\"x\"), Null])"
    );
    assert_eq!(Value::Array(vec![]).to_text(), "Array([])");
    assert_eq!(
        object(vec![
            ("z".to_string(), Value::Array(vec![Value::Boolean(true)])),
            ("k".to_string(), Value::Null),
        ])
        .to_text(),
        "Object({\"k\": Null, \"z\": Array([Boolean(true)])})"
    );
    assert_eq!(Value::Object(vec![]).to_text(), "Object({})");
    assert_eq!(
        Error::ExpectedObject(Value::Array(vec![Value::Int64(1)])).to_string(),
        "expected object value, got Array([Int64(1)])"
    );
}
