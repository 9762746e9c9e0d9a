//! Writing typed data as store values.
//!
//! A writer hands its data to [`ValueSerializer`] piece by piece: scalars
//! become values at once, lists are collected by a [`SerializeValueArray`],
//! maps and records by a [`SerializeValueMap`]. The members of an object are
//! kept in the order of their keys, one member for each key.

use vstd::prelude::*;

use crate::convex_serde::value::{lemma_object_view, member_views, Value, ValueView};
use crate::text::{
    bool_text, bool_to_string, bytes_text, bytes_to_string, i64_to_string, int_text, nat_text,
    order_of, text_order, u64_to_string, TextOrder,
};

verus! {

/// Why data could not be written as a store value.
#[derive(Debug, PartialEq, Eq)]
pub enum Error {
    /// An unsigned integer above the largest signed 64-bit integer.
    IntOutOfRange(u64),
    /// A map key that is not a string; the text names what was found.
    KeyNotString(String),
    /// Data that is not an object where an object is needed; the text names
    /// what was found.
    MapNotObject(String),
    Custom(String),
}

/// Model of an [`Error`].
pub enum ErrorView {
    IntOutOfRange(u64),
    KeyNotString(Seq<char>),
    MapNotObject(Seq<char>),
    Custom(Seq<char>),
}

impl View for Error {
    type V = ErrorView;

    open spec fn view(&self) -> ErrorView {
        match self {
            Error::IntOutOfRange(v) => ErrorView::IntOutOfRange(*v),
            Error::KeyNotString(text) => ErrorView::KeyNotString(text@),
            Error::MapNotObject(text) => ErrorView::MapNotObject(text@),
            Error::Custom(text) => ErrorView::Custom(text@),
        }
    }
}

/// What an error says.
pub open spec fn error_message(error: ErrorView) -> Seq<char> {
    match error {
        ErrorView::IntOutOfRange(v) => "cannot serialize u64 values outside of i64 range: "@
            + nat_text(v as nat),
        ErrorView::KeyNotString(text) => "cannot serialize key that is not a string: "@ + text,
        ErrorView::MapNotObject(text) => "cannot serialize map that is not an object: "@ + text,
        ErrorView::Custom(text) => text,
    }
}

impl Error {
    /// The error for a key that is not a string; `value` names what was
    /// found.
    pub fn key_not_string(value: String) -> (error: Error)
        ensures
            error@ == ErrorView::KeyNotString(value@),
    {
        Error::KeyNotString(value)
    }

    /// The error for data that is not an object; `value` names what was
    /// found.
    pub fn map_not_object(value: String) -> (error: Error)
        ensures
            error@ == ErrorView::MapNotObject(value@),
    {
        Error::MapNotObject(value)
    }

    /// A custom error with the text `msg`.
    pub fn custom(msg: &str) -> (error: Error)
        ensures
            error@ == ErrorView::Custom(msg@),
    {
        Error::Custom(msg.to_owned())
    }

    /// What the error says.
    pub fn to_string(&self) -> (text: String)
        ensures
            text@ == error_message(self@),
    {
        match self {
            Error::IntOutOfRange(v) => {
                let mut text = "cannot serialize u64 values outside of i64 range: ".to_owned();
                text.append(u64_to_string(*v).as_str());
                text
            },
            Error::KeyNotString(found) => {
                let mut text = "cannot serialize key that is not a string: ".to_owned();
                text.append(found.as_str());
                text
            },
            Error::MapNotObject(found) => {
                let mut text = "cannot serialize map that is not an object: ".to_owned();
                text.append(found.as_str());
                text
            },
            Error::Custom(text) => text.clone(),
        }
    }
}

/// The members of an object after the member `key` was set to `value`: the
/// member takes the place of the one with its key, or else the place that
/// the order of the keys gives it.
pub open spec fn inserted(
    members: Seq<(Seq<char>, ValueView)>,
    key: Seq<char>,
    value: ValueView,
) -> Seq<(Seq<char>, ValueView)>
    decreases members.len(),
{
    if members.len() == 0 {
        seq![(key, value)]
    } else {
        match text_order(members[0].0, key) {
            TextOrder::Before => seq![members[0]] + inserted(members.drop_first(), key, value),
            TextOrder::Same => seq![(key, value)] + members.drop_first(),
            TextOrder::After => seq![(key, value)] + members,
        }
    }
}

/// Setting a member passes over the members whose keys come before its key.
pub proof fn lemma_inserted_skip(
    members: Seq<(Seq<char>, ValueView)>,
    key: Seq<char>,
    value: ValueView,
    i: int,
)
    requires
        0 <= i < members.len(),
        text_order(members[i].0, key) is Before,
        inserted(members, key, value) == members.take(i) + inserted(members.skip(i), key, value),
    ensures
        inserted(members, key, value) == members.take(i + 1) + inserted(
            members.skip(i + 1),
            key,
            value,
        ),
{
    let rest = members.skip(i);
    assert(rest[0] == members[i]);
    assert(rest.drop_first() == members.skip(i + 1));
    assert(members.take(i) + (seq![members[i]] + inserted(members.skip(i + 1), key, value))
        == members.take(i + 1) + inserted(members.skip(i + 1), key, value));
}

/// Sets the member `key` of the members `map` to `value`.
pub fn insert_member(map: &mut Vec<(String, Value)>, key: String, value: Value)
    ensures
        member_views(final(map)@) == inserted(member_views(old(map)@), key@, value@),
{
    let ghost before = member_views(map@);
    let n = map.len();
    let mut i: usize = 0;
    assert(before.take(0) + inserted(before.skip(0), key@, value@) == inserted(
        before,
        key@,
        value@,
    )) by {
        assert(before.skip(0) == before);
        assert(before.take(0) + inserted(before, key@, value@) == inserted(before, key@, value@));
    }
    while i < n
        invariant
            i <= n == map.len(),
            map@ == old(map)@,
            before == member_views(map@),
            inserted(before, key@, value@) == before.take(i as int) + inserted(
                before.skip(i as int),
                key@,
                value@,
            ),
        decreases n - i,
    {
        let ghost rest = before.skip(i as int);
        assert(rest[0] == before[i as int]);
        assert(before[i as int].0 == map@[i as int].0@);
        match order_of(map[i].0.as_str(), key.as_str()) {
            TextOrder::Before => {
                proof {
                    lemma_inserted_skip(before, key@, value@, i as int);
                }
                i += 1;
            },
            TextOrder::Same => {
                assert(rest.drop_first() == before.skip(i + 1));
                map.set(i, (key, value));
                assert(member_views(map@) == before.take(i as int) + (seq![(key@, value@)]
                    + before.skip(i + 1)));
                return ;
            },
            TextOrder::After => {
                map.insert(i, (key, value));
                assert(member_views(map@) == before.take(i as int) + (seq![(key@, value@)] + rest));
                return ;
            },
        }
    }
    assert(before.skip(n as int) == Seq::<(Seq<char>, ValueView)>::empty());
    assert(before.take(n as int) == before);
    map.push((key, value));
    assert(member_views(map@) == before + seq![(key@, value@)]);
}

/// Writes data as values.
#[derive(Debug, Clone, Copy, PartialEq, Eq, Structural)]
pub struct ValueSerializer;

impl ValueSerializer {
    /// A boolean becomes a boolean value.
    pub fn serialize_bool(self, v: bool) -> (value: Result<Value, Error>)
        ensures
            value matches Ok(x) && x@ == ValueView::Boolean(v),
    {
        Ok(Value::Boolean(v))
    }

    /// An integer becomes an integer value of 64 bits.
    pub fn serialize_i8(self, v: i8) -> (value: Result<Value, Error>)
        ensures
            value matches Ok(x) && x@ == ValueView::Int64(v as i64),
    {
        self.serialize_i64(v as i64)
    }

    /// An integer becomes an integer value of 64 bits.
    pub fn serialize_i16(self, v: i16) -> (value: Result<Value, Error>)
        ensures
            value matches Ok(x) && x@ == ValueView::Int64(v as i64),
    {
        self.serialize_i64(v as i64)
    }

    /// An integer becomes an integer value of 64 bits.
    pub fn serialize_i32(self, v: i32) -> (value: Result<Value, Error>)
        ensures
            value matches Ok(x) && x@ == ValueView::Int64(v as i64),
    {
        self.serialize_i64(v as i64)
    }

    /// An integer becomes an integer value.
    pub fn serialize_i64(self, v: i64) -> (value: Result<Value, Error>)
        ensures
            value matches Ok(x) && x@ == ValueView::Int64(v),
    {
        Ok(Value::Int64(v))
    }

    /// An integer becomes an integer value of 64 bits.
    pub fn serialize_u8(self, v: u8) -> (value: Result<Value, Error>)
        ensures
            value matches Ok(x) && x@ == ValueView::Int64(v as i64),
    {
        self.serialize_i64(v as i64)
    }

    /// An integer becomes an integer value of 64 bits.
    pub fn serialize_u16(self, v: u16) -> (value: Result<Value, Error>)
        ensures
            value matches Ok(x) && x@ == ValueView::Int64(v as i64),
    {
        self.serialize_i64(v as i64)
    }

    /// An integer becomes an integer value of 64 bits.
    pub fn serialize_u32(self, v: u32) -> (value: Result<Value, Error>)
        ensures
            value matches Ok(x) && x@ == ValueView::Int64(v as i64),
    {
        self.serialize_i64(v as i64)
    }

    /// An unsigned integer becomes a signed one; one above the largest
    /// signed integer is refused.
    pub fn serialize_u64(self, v: u64) -> (value: Result<Value, Error>)
        ensures
            if v <= i64::MAX as u64 {
                value matches Ok(x) && x@ == ValueView::Int64(v as i64)
            } else {
                value matches Err(e) && e@ == ErrorView::IntOutOfRange(v)
            },
    {
        if v <= i64::MAX as u64 {
            Ok(Value::Int64(v as i64))
        } else {
            Err(Error::IntOutOfRange(v))
        }
    }

    /// A float, given by its bits.
    pub fn serialize_f64(self, bits: u64) -> (value: Result<Value, Error>)
        ensures
            value matches Ok(x) && x@ == ValueView::Float64(bits),
    {
        Ok(Value::Float64(bits))
    }

    /// A scalar value becomes the string that holds it alone.
    pub fn serialize_char(self, v: char) -> (value: Result<Value, Error>)
        ensures
            value matches Ok(x) && x@ == ValueView::String(seq![v]),
    {
        let mut text = String::new();
        text.push(v);
        Ok(Value::String(text))
    }

    /// A string becomes a string value.
    pub fn serialize_str(self, v: &str) -> (value: Result<Value, Error>)
        ensures
            value matches Ok(x) && x@ == ValueView::String(v@),
    {
        Ok(Value::String(v.to_owned()))
    }

    /// A list of bytes becomes a bytes value.
    pub fn serialize_bytes(self, v: &Vec<u8>) -> (value: Result<Value, Error>)
        ensures
            value matches Ok(x) && x@ == ValueView::Bytes(v@),
    {
        Ok(Value::Bytes(v.clone()))
    }

    /// Nothing becomes null.
    pub fn serialize_none(self) -> (value: Result<Value, Error>)
        ensures
            value matches Ok(x) && x@ == ValueView::Null,
    {
        Ok(Value::Null)
    }

    /// What is there is written as itself.
    pub fn serialize_some(self, inner: Value) -> (value: Result<Value, Error>)
        ensures
            value == Ok::<Value, Error>(inner),
    {
        Ok(inner)
    }

    /// The unit becomes null.
    pub fn serialize_unit(self) -> (value: Result<Value, Error>)
        ensures
            value matches Ok(x) && x@ == ValueView::Null,
    {
        Ok(Value::Null)
    }

    /// A record without fields becomes null.
    pub fn serialize_unit_struct(self, _name: &str) -> (value: Result<Value, Error>)
        ensures
            value matches Ok(x) && x@ == ValueView::Null,
    {
        Ok(Value::Null)
    }

    /// A variant without data becomes the string of its name.
    pub fn serialize_unit_variant(self, _name: &str, _variant_index: u32, variant: &str) -> (value:
        Result<Value, Error>)
        ensures
            value matches Ok(x) && x@ == ValueView::String(variant@),
    {
        Ok(Value::String(variant.to_owned()))
    }

    /// A wrapper type is written as what it wraps.
    pub fn serialize_newtype_struct(self, _name: &str, inner: Value) -> (value: Result<Value, Error>)
        ensures
            value == Ok::<Value, Error>(inner),
    {
        Ok(inner)
    }

    /// A variant with one field becomes an object with one member: the
    /// variant's name and the field.
    pub fn serialize_newtype_variant(
        self,
        _name: &str,
        _variant_index: u32,
        variant: &str,
        inner: Value,
    ) -> (value: Result<Value, Error>)
        ensures
            value matches Ok(x) && x@ == ValueView::Object(seq![(variant@, inner@)]),
    {
        let mut map: Vec<(String, Value)> = Vec::new();
        map.push((variant.to_owned(), inner));
        proof {
            lemma_object_view(map);
            assert(member_views(map@) == seq![(variant@, inner@)]);
        }
        Ok(Value::Object(map))
    }

    /// A list is collected item by item.
    pub fn serialize_seq(self, _len: Option<usize>) -> (array: Result<SerializeValueArray, Error>)
        ensures
            array matches Ok(a) && a.values@.len() == 0,
    {
        Ok(SerializeValueArray { values: Vec::new() })
    }

    /// A tuple is collected as a list.
    pub fn serialize_tuple(self, len: usize) -> (array: Result<SerializeValueArray, Error>)
        ensures
            array matches Ok(a) && a.values@.len() == 0,
    {
        self.serialize_seq(Some(len))
    }

    /// A tuple with a name is collected as a list.
    pub fn serialize_tuple_struct(self, _name: &str, len: usize) -> (array: Result<
        SerializeValueArray,
        Error,
    >)
        ensures
            array matches Ok(a) && a.values@.len() == 0,
    {
        self.serialize_tuple(len)
    }

    /// A variant with unnamed fields is collected as a list.
    pub fn serialize_tuple_variant(
        self,
        _name: &str,
        _variant_index: u32,
        _variant: &str,
        len: usize,
    ) -> (array: Result<SerializeValueArray, Error>)
        ensures
            array matches Ok(a) && a.values@.len() == 0,
    {
        self.serialize_tuple(len)
    }

    /// A map is collected member by member.
    pub fn serialize_map(self, _len: Option<usize>) -> (map: Result<SerializeValueMap, Error>)
        ensures
            map matches Ok(m) && m.inner.map@.len() == 0 && m.inner.key is None,
    {
        Ok(SerializeValueMap::new())
    }

    /// A record is collected as a map.
    pub fn serialize_struct(self, _name: &str, _len: usize) -> (map: Result<SerializeValueMap, Error>)
        ensures
            map matches Ok(m) && m.inner.map@.len() == 0 && m.inner.key is None,
    {
        self.serialize_map(None)
    }

    /// A variant with named fields is collected as a map.
    pub fn serialize_struct_variant(
        self,
        _name: &str,
        _variant_index: u32,
        _variant: &str,
        _len: usize,
    ) -> (map: Result<SerializeValueMap, Error>)
        ensures
            map matches Ok(m) && m.inner.map@.len() == 0 && m.inner.key is None,
    {
        self.serialize_map(None)
    }
}

/// The name of a variant with its type: the two joined by `::`.
pub open spec fn variant_text(name: Seq<char>, variant: Seq<char>) -> Seq<char> {
    name + "::"@ + variant
}

/// `first`, `second` and `third`, one after the other.
fn concat3(first: &str, second: &str, third: &str) -> (text: String)
    ensures
        text@ == first@ + second@ + third@,
{
    let mut text = first.to_owned();
    text.append(second);
    text.append(third);
    text
}

/// The name of a variant with its type and what follows it.
fn variant_with(name: &str, variant: &str, tail: &str) -> (text: String)
    ensures
        text@ == variant_text(name@, variant@) + tail@,
{
    let mut text = concat3(name, "::", variant);
    text.append(tail);
    text
}

/// Writes the key of a member. Only a string or a scalar value is a key;
/// for anything else the error names what was found.
#[derive(Debug, Clone, Copy, PartialEq, Eq, Structural)]
pub struct KeySerializer;

impl KeySerializer {
    /// A boolean is no key.
    pub fn serialize_bool(self, v: bool) -> (key: Result<String, Error>)
        ensures
            key matches Err(e) && e@ == ErrorView::KeyNotString(bool_text(v)),
    {
        Err(Error::key_not_string(bool_to_string(v)))
    }

    /// An integer is no key.
    pub fn serialize_i8(self, v: i8) -> (key: Result<String, Error>)
        ensures
            key matches Err(e) && e@ == ErrorView::KeyNotString(int_text(v as int)),
    {
        Err(Error::key_not_string(i64_to_string(v as i64)))
    }

    /// An integer is no key.
    pub fn serialize_i16(self, v: i16) -> (key: Result<String, Error>)
        ensures
            key matches Err(e) && e@ == ErrorView::KeyNotString(int_text(v as int)),
    {
        Err(Error::key_not_string(i64_to_string(v as i64)))
    }

    /// An integer is no key.
    pub fn serialize_i32(self, v: i32) -> (key: Result<String, Error>)
        ensures
            key matches Err(e) && e@ == ErrorView::KeyNotString(int_text(v as int)),
    {
        Err(Error::key_not_string(i64_to_string(v as i64)))
    }

    /// An integer is no key.
    pub fn serialize_i64(self, v: i64) -> (key: Result<String, Error>)
        ensures
            key matches Err(e) && e@ == ErrorView::KeyNotString(int_text(v as int)),
    {
        Err(Error::key_not_string(i64_to_string(v)))
    }

    /// An integer is no key.
    pub fn serialize_u8(self, v: u8) -> (key: Result<String, Error>)
        ensures
            key matches Err(e) && e@ == ErrorView::KeyNotString(nat_text(v as nat)),
    {
        Err(Error::key_not_string(u64_to_string(v as u64)))
    }

    /// An integer is no key.
    pub fn serialize_u16(self, v: u16) -> (key: Result<String, Error>)
        ensures
            key matches Err(e) && e@ == ErrorView::KeyNotString(nat_text(v as nat)),
    {
        Err(Error::key_not_string(u64_to_string(v as u64)))
    }

    /// An integer is no key.
    pub fn serialize_u32(self, v: u32) -> (key: Result<String, Error>)
        ensures
            key matches Err(e) && e@ == ErrorView::KeyNotString(nat_text(v as nat)),
    {
        Err(Error::key_not_string(u64_to_string(v as u64)))
    }

    /// An integer is no key.
    pub fn serialize_u64(self, v: u64) -> (key: Result<String, Error>)
        ensures
            key matches Err(e) && e@ == ErrorView::KeyNotString(nat_text(v as nat)),
    {
        Err(Error::key_not_string(u64_to_string(v)))
    }

    /// A scalar value is the key that holds it alone.
    pub fn serialize_char(self, v: char) -> (key: Result<String, Error>)
        ensures
            key matches Ok(k) && k@ == seq![v],
    {
        let mut text = String::new();
        text.push(v);
        Ok(text)
    }

    /// A string is no key.
    pub fn serialize_str(self, v: &str) -> (key: Result<String, Error>)
        ensures
            key matches Ok(k) && k@ == v@,
    {
        Ok(v.to_owned())
    }

    /// A list of bytes is no key.
    pub fn serialize_bytes(self, v: &Vec<u8>) -> (key: Result<String, Error>)
        ensures
            key matches Err(e) && e@ == ErrorView::KeyNotString(bytes_text(v@)),
    {
        Err(Error::key_not_string(bytes_to_string(v)))
    }

    /// Nothing is no key.
    pub fn serialize_none(self) -> (key: Result<String, Error>)
        ensures
            key matches Err(e) && e@ == ErrorView::KeyNotString("None"@),
    {
        Err(Error::key_not_string("None".to_owned()))
    }

    /// What is there is written as itself.
    pub fn serialize_some(self, inner: Result<String, Error>) -> (key: Result<String, Error>)
        ensures
            key == inner,
    {
        inner
    }

    /// The unit is no key.
    pub fn serialize_unit(self) -> (key: Result<String, Error>)
        ensures
            key matches Err(e) && e@ == ErrorView::KeyNotString("()"@),
    {
        Err(Error::key_not_string("()".to_owned()))
    }

    /// A record without fields is no key.
    pub fn serialize_unit_struct(self, name: &str) -> (key: Result<String, Error>)
        ensures
            key matches Err(e) && e@ == ErrorView::KeyNotString(name@),
    {
        Err(Error::key_not_string(name.to_owned()))
    }

    /// A variant without data is no key.
    pub fn serialize_unit_variant(self, name: &str, _variant_index: u32, variant: &str) -> (key:
        Result<String, Error>)
        ensures
            key matches Err(e) && e@ == ErrorView::KeyNotString(variant_text(name@, variant@)),
    {
        Err(Error::key_not_string(concat3(name, "::", variant)))
    }

    /// A wrapper type is written as what it wraps.
    pub fn serialize_newtype_struct(self, _name: &str, inner: Result<String, Error>) -> (key:
        Result<String, Error>)
        ensures
            key == inner,
    {
        inner
    }

    /// A variant with one field is no key.
    pub fn serialize_newtype_variant(self, name: &str, _variant_index: u32, variant: &str) -> (key:
        Result<String, Error>)
        ensures
            key matches Err(e) && e@ == ErrorView::KeyNotString(
                variant_text(name@, variant@) + "()"@,
            ),
    {
        Err(Error::key_not_string(variant_with(name, variant, "()")))
    }

    /// A list is no key.
    pub fn serialize_seq(self, _len: Option<usize>) -> (key: Result<String, Error>)
        ensures
            key matches Err(e) && e@ == ErrorView::KeyNotString("[]"@),
    {
        Err(Error::key_not_string("[]".to_owned()))
    }

    /// A tuple is no key.
    pub fn serialize_tuple(self, _len: usize) -> (key: Result<String, Error>)
        ensures
            key matches Err(e) && e@ == ErrorView::KeyNotString("()"@),
    {
        Err(Error::key_not_string("()".to_owned()))
    }

    /// A tuple with a name is no key.
    pub fn serialize_tuple_struct(self, name: &str, _len: usize) -> (key: Result<String, Error>)
        ensures
            key matches Err(e) && e@ == ErrorView::KeyNotString(name@ + "()"@),
    {
        let mut text = name.to_owned();
        text.append("()");
        Err(Error::key_not_string(text))
    }

    /// A variant with unnamed fields is no key.
    pub fn serialize_tuple_variant(
        self,
        name: &str,
        _variant_index: u32,
        variant: &str,
        _len: usize,
    ) -> (key: Result<String, Error>)
        ensures
            key matches Err(e) && e@ == ErrorView::KeyNotString(
                variant_text(name@, variant@) + "()"@,
            ),
    {
        Err(Error::key_not_string(variant_with(name, variant, "()")))
    }

    /// A map is no key.
    pub fn serialize_map(self, _len: Option<usize>) -> (key: Result<String, Error>)
        ensures
            key matches Err(e) && e@ == ErrorView::KeyNotString("{}"@),
    {
        Err(Error::key_not_string("{}".to_owned()))
    }

    /// A record is no key.
    pub fn serialize_struct(self, name: &str, _len: usize) -> (key: Result<String, Error>)
        ensures
            key matches Err(e) && e@ == ErrorView::KeyNotString(name@ + " {}"@),
    {
        let mut text = name.to_owned();
        text.append(" {}");
        Err(Error::key_not_string(text))
    }

    /// A variant with named fields is no key.
    pub fn serialize_struct_variant(
        self,
        name: &str,
        _variant_index: u32,
        variant: &str,
        _len: usize,
    ) -> (key: Result<String, Error>)
        ensures
            key matches Err(e) && e@ == ErrorView::KeyNotString(
                variant_text(name@, variant@) + " {}"@,
            ),
    {
        Err(Error::key_not_string(variant_with(name, variant, " {}")))
    }
}

/// Collects the items of a list.
#[derive(Debug, PartialEq, Eq)]
pub struct SerializeValueArray {
    pub values: Vec<Value>,
}

impl SerializeValueArray {
    /// Adds an item at the end.
    pub fn serialize_element(&mut self, value: Value) -> (done: Result<(), Error>)
        ensures
            done is Ok,
            final(self).values@ == old(self).values@.push(value),
    {
        self.values.push(value);
        Ok(())
    }

    /// Adds a field at the end: the fields of a tuple are its items.
    pub fn serialize_field(&mut self, value: Value) -> (done: Result<(), Error>)
        ensures
            done is Ok,
            final(self).values@ == old(self).values@.push(value),
    {
        self.serialize_element(value)
    }

    /// The array of the items.
    pub fn end(self) -> (value: Result<Value, Error>)
        ensures
            value == Ok::<Value, Error>(Value::Array(self.values)),
    {
        Ok(Value::Array(self.values))
    }
}

/// Collects the members of an object.
#[derive(Debug, PartialEq, Eq)]
pub struct SerializeBTreeMap {
    pub map: Vec<(String, Value)>,
    pub key: Option<String>,
}

impl SerializeBTreeMap {
    /// A collector without members.
    pub fn new() -> (collector: Self)
        ensures
            collector.map@.len() == 0,
            collector.key is None,
    {
        SerializeBTreeMap { key: None, map: Vec::new() }
    }

    /// Holds `key` for the value that comes next.
    pub fn serialize_key(&mut self, key: String) -> (done: Result<(), Error>)
        ensures
            done is Ok,
            final(self).key == Some(key),
            final(self).map == old(self).map,
    {
        self.key = Some(key);
        Ok(())
    }

    /// Sets the member of the key that is held to `value`. An error where
    /// no key is held.
    pub fn serialize_value(&mut self, value: Value) -> (done: Result<(), Error>)
        ensures
            final(self).key is None,
            match old(self).key {
                Some(key) => done is Ok && member_views(final(self).map@) == inserted(
                    member_views(old(self).map@),
                    key@,
                    value@,
                ),
                None => final(self).map == old(self).map && (done matches Err(e) && e@
                    == ErrorView::Custom("Key not set before value serialization"@)),
            },
    {
        match self.key.take() {
            Some(key) => {
                insert_member(&mut self.map, key, value);
                Ok(())
            },
            None => Err(Error::custom("Key not set before value serialization")),
        }
    }

    /// Sets the member `key` to `value`.
    pub fn serialize_field(&mut self, key: &str, value: Value) -> (done: Result<(), Error>)
        ensures
            done is Ok,
            final(self).key is None,
            member_views(final(self).map@) == inserted(
                member_views(old(self).map@),
                key@,
                value@,
            ),
    {
        self.key = Some(key.to_owned());
        self.serialize_value(value)
    }

    /// The members that were collected.
    pub fn end(self) -> (members: Result<Vec<(String, Value)>, Error>)
        ensures
            members matches Ok(m) && m@ == self.map@,
    {
        if self.map.len() == 0 {
            Ok(Vec::new())
        } else {
            Ok(self.map)
        }
    }
}

/// Where the members of an object are asked for, only a map or a record can
/// be written; for anything else the error names what was found.
impl SerializeBTreeMap {
    /// A boolean is no object.
    pub fn serialize_bool(self, v: bool) -> (map: Result<SerializeBTreeMap, Error>)
        ensures
            map matches Err(e) && e@ == ErrorView::MapNotObject(bool_text(v)),
    {
        Err(Error::map_not_object(bool_to_string(v)))
    }

    /// An integer is no object.
    pub fn serialize_i8(self, v: i8) -> (map: Result<SerializeBTreeMap, Error>)
        ensures
            map matches Err(e) && e@ == ErrorView::MapNotObject(int_text(v as int)),
    {
        Err(Error::map_not_object(i64_to_string(v as i64)))
    }

    /// An integer is no object.
    pub fn serialize_i16(self, v: i16) -> (map: Result<SerializeBTreeMap, Error>)
        ensures
            map matches Err(e) && e@ == ErrorView::MapNotObject(int_text(v as int)),
    {
        Err(Error::map_not_object(i64_to_string(v as i64)))
    }

    /// An integer is no object.
    pub fn serialize_i32(self, v: i32) -> (map: Result<SerializeBTreeMap, Error>)
        ensures
            map matches Err(e) && e@ == ErrorView::MapNotObject(int_text(v as int)),
    {
        Err(Error::map_not_object(i64_to_string(v as i64)))
    }

    /// An integer is no object.
    pub fn serialize_i64(self, v: i64) -> (map: Result<SerializeBTreeMap, Error>)
        ensures
            map matches Err(e) && e@ == ErrorView::MapNotObject(int_text(v as int)),
    {
        Err(Error::map_not_object(i64_to_string(v)))
    }

    /// An integer is no object.
    pub fn serialize_u8(self, v: u8) -> (map: Result<SerializeBTreeMap, Error>)
        ensures
            map matches Err(e) && e@ == ErrorView::MapNotObject(nat_text(v as nat)),
    {
        Err(Error::map_not_object(u64_to_string(v as u64)))
    }

    /// An integer is no object.
    pub fn serialize_u16(self, v: u16) -> (map: Result<SerializeBTreeMap, Error>)
        ensures
            map matches Err(e) && e@ == ErrorView::MapNotObject(nat_text(v as nat)),
    {
        Err(Error::map_not_object(u64_to_string(v as u64)))
    }

    /// An integer is no object.
    pub fn serialize_u32(self, v: u32) -> (map: Result<SerializeBTreeMap, Error>)
        ensures
            map matches Err(e) && e@ == ErrorView::MapNotObject(nat_text(v as nat)),
    {
        Err(Error::map_not_object(u64_to_string(v as u64)))
    }

    /// An integer is no object.
    pub fn serialize_u64(self, v: u64) -> (map: Result<SerializeBTreeMap, Error>)
        ensures
            map matches Err(e) && e@ == ErrorView::MapNotObject(nat_text(v as nat)),
    {
        Err(Error::map_not_object(u64_to_string(v)))
    }

    /// A scalar value is no object.
    pub fn serialize_char(self, v: char) -> (map: Result<SerializeBTreeMap, Error>)
        ensures
            map matches Err(e) && e@ == ErrorView::MapNotObject(seq![v]),
    {
        let mut text = String::new();
        text.push(v);
        Err(Error::map_not_object(text))
    }

    /// A string is no object.
    pub fn serialize_str(self, v: &str) -> (map: Result<SerializeBTreeMap, Error>)
        ensures
            map matches Err(e) && e@ == ErrorView::MapNotObject(v@),
    {
        Err(Error::map_not_object(v.to_owned()))
    }

    /// A list of bytes is no object.
    pub fn serialize_bytes(self, v: &Vec<u8>) -> (map: Result<SerializeBTreeMap, Error>)
        ensures
            map matches Err(e) && e@ == ErrorView::MapNotObject(bytes_text(v@)),
    {
        Err(Error::map_not_object(bytes_to_string(v)))
    }

    /// Nothing is no object.
    pub fn serialize_none(self) -> (map: Result<SerializeBTreeMap, Error>)
        ensures
            map matches Err(e) && e@ == ErrorView::MapNotObject("None"@),
    {
        Err(Error::map_not_object("None".to_owned()))
    }

    /// What is there is written as itself.
    pub fn serialize_some(self, inner: Result<SerializeBTreeMap, Error>) -> (map: Result<
        SerializeBTreeMap,
        Error,
    >)
        ensures
            map == inner,
    {
        inner
    }

    /// The unit is no object.
    pub fn serialize_unit(self) -> (map: Result<SerializeBTreeMap, Error>)
        ensures
            map matches Err(e) && e@ == ErrorView::MapNotObject("()"@),
    {
        Err(Error::map_not_object("()".to_owned()))
    }

    /// A record without fields is no object.
    pub fn serialize_unit_struct(self, name: &str) -> (map: Result<SerializeBTreeMap, Error>)
        ensures
            map matches Err(e) && e@ == ErrorView::MapNotObject(name@),
    {
        Err(Error::map_not_object(name.to_owned()))
    }

    /// A variant without data is no object.
    pub fn serialize_unit_variant(self, name: &str, _variant_index: u32, variant: &str) -> (map:
        Result<SerializeBTreeMap, Error>)
        ensures
            map matches Err(e) && e@ == ErrorView::MapNotObject(variant_text(name@, variant@)),
    {
        Err(Error::map_not_object(concat3(name, "::", variant)))
    }

    /// A wrapper type is no object.
    pub fn serialize_newtype_struct(self, name: &str) -> (map: Result<SerializeBTreeMap, Error>)
        ensures
            map matches Err(e) && e@ == ErrorView::MapNotObject(name@),
    {
        Err(Error::map_not_object(name.to_owned()))
    }

    /// A variant with one field is no object.
    pub fn serialize_newtype_variant(self, name: &str, _variant_index: u32, variant: &str) -> (map:
        Result<SerializeBTreeMap, Error>)
        ensures
            map matches Err(e) && e@ == ErrorView::MapNotObject(
                variant_text(name@, variant@) + "()"@,
            ),
    {
        Err(Error::map_not_object(variant_with(name, variant, "()")))
    }

    /// A list is no object.
    pub fn serialize_seq(self, _len: Option<usize>) -> (map: Result<SerializeBTreeMap, Error>)
        ensures
            map matches Err(e) && e@ == ErrorView::MapNotObject("[]"@),
    {
        Err(Error::map_not_object("[]".to_owned()))
    }

    /// A tuple is no object.
    pub fn serialize_tuple(self, _len: usize) -> (map: Result<SerializeBTreeMap, Error>)
        ensures
            map matches Err(e) && e@ == ErrorView::MapNotObject("()"@),
    {
        Err(Error::map_not_object("()".to_owned()))
    }

    /// A tuple with a name is no object.
    pub fn serialize_tuple_struct(self, name: &str, _len: usize) -> (map: Result<
        SerializeBTreeMap,
        Error,
    >)
        ensures
            map matches Err(e) && e@ == ErrorView::MapNotObject(name@ + "()"@),
    {
        let mut text = name.to_owned();
        text.append("()");
        Err(Error::map_not_object(text))
    }

    /// A variant with unnamed fields is no object.
    pub fn serialize_tuple_variant(
        self,
        name: &str,
        _variant_index: u32,
        variant: &str,
        _len: usize,
    ) -> (map: Result<SerializeBTreeMap, Error>)
        ensures
            map matches Err(e) && e@ == ErrorView::MapNotObject(
                variant_text(name@, variant@) + "()"@,
            ),
    {
        Err(Error::map_not_object(variant_with(name, variant, "()")))
    }

    /// A map is collected from nothing.
    pub fn serialize_map(self, _len: Option<usize>) -> (map: Result<SerializeBTreeMap, Error>)
        ensures
            map matches Ok(m) && m.map@.len() == 0 && m.key is None,
    {
        Ok(SerializeBTreeMap::new())
    }

    /// A record is collected as a map.
    pub fn serialize_struct(self, _name: &str, _len: usize) -> (map: Result<SerializeBTreeMap, Error>)
        ensures
            map matches Ok(m) && m.map@.len() == 0 && m.key is None,
    {
        self.serialize_map(None)
    }

    /// A variant with named fields is collected as a map.
    pub fn serialize_struct_variant(
        self,
        _name: &str,
        _variant_index: u32,
        _variant: &str,
        _len: usize,
    ) -> (map: Result<SerializeBTreeMap, Error>)
        ensures
            map matches Ok(m) && m.map@.len() == 0 && m.key is None,
    {
        self.serialize_map(None)
    }
}

/// Collects the members of an object and hands them over as a value.
#[derive(Debug, PartialEq, Eq)]
pub struct SerializeValueMap {
    pub inner: SerializeBTreeMap,
}

impl SerializeValueMap {
    /// A collector without members.
    pub fn new() -> (collector: Self)
        ensures
            collector.inner.map@.len() == 0,
            collector.inner.key is None,
    {
        SerializeValueMap { inner: SerializeBTreeMap::new() }
    }

    /// Holds `key` for the value that comes next.
    pub fn serialize_key(&mut self, key: String) -> (done: Result<(), Error>)
        ensures
            done is Ok,
            final(self).inner.key == Some(key),
            final(self).inner.map == old(self).inner.map,
    {
        self.inner.serialize_key(key)
    }

    /// Sets the member of the key that is held to `value`. An error where
    /// no key is held.
    pub fn serialize_value(&mut self, value: Value) -> (done: Result<(), Error>)
        ensures
            final(self).inner.key is None,
            match old(self).inner.key {
                Some(key) => done is Ok && member_views(final(self).inner.map@) == inserted(
                    member_views(old(self).inner.map@),
                    key@,
                    value@,
                ),
                None => final(self).inner.map == old(self).inner.map && (done matches Err(e)
                    && e@ == ErrorView::Custom("Key not set before value serialization"@)),
            },
    {
        self.inner.serialize_value(value)
    }

    /// Sets the member `key` to `value`.
    pub fn serialize_field(&mut self, key: &str, value: Value) -> (done: Result<(), Error>)
        ensures
            done is Ok,
            final(self).inner.key is None,
            member_views(final(self).inner.map@) == inserted(
                member_views(old(self).inner.map@),
                key@,
                value@,
            ),
    {
        self.inner.serialize_field(key, value)
    }

    /// The object of the members that were collected.
    pub fn end(self) -> (value: Result<Value, Error>)
        ensures
            value matches Ok(x) && x@ == ValueView::Object(member_views(self.inner.map@)),
    {
        match self.inner.end() {
            Ok(map) => {
                proof {
                    lemma_object_view(map);
                }
                Ok(Value::Object(map))
            },
            Err(error) => Err(error),
        }
    }
}

/// The members of the object that `value` is. An error where it is no
/// object.
pub fn to_map(value: Value) -> (members: Result<Vec<(String, Value)>, Error>)
    ensures
        match value {
            Value::Object(map) => members == Ok::<Vec<(String, Value)>, Error>(map),
            _ => members matches Err(e) && e@ == ErrorView::Custom("Expected an object"@),
        },
{
    match value {
        Value::Object(map) => Ok(map),
        _ => Err(Error::custom("Expected an object")),
    }
}

} // verus!
