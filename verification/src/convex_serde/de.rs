//! Reading typed data out of store values.
//!
//! A [`ValueDeserializer`] stands on one value and hands out what a reader
//! asks for: a scalar, the items of an array, the members of an object. Where
//! the value is of another kind, the error names the kind that was expected
//! and holds the value that was found.

use vstd::prelude::*;

use crate::convex_serde::value::{value_text, Value, ValueView};

verus! {

/// Why a value could not be read as the type that was asked for. Each
/// variant but the last two holds the value that was found.
#[derive(Debug, PartialEq, Eq)]
pub enum Error {
    ExpectedBool(Value),
    ExpectedInt(Value),
    ExpectedFloat(Value),
    ExpectedString(Value),
    ExpectedBytes(Value),
    ExpectedSeq(Value),
    ExpectedObject(Value),
    ExpectedValue,
    ExpectedEnum(Value),
    Custom(String),
}

/// Model of an [`Error`].
pub enum ErrorView {
    ExpectedBool(ValueView),
    ExpectedInt(ValueView),
    ExpectedFloat(ValueView),
    ExpectedString(ValueView),
    ExpectedBytes(ValueView),
    ExpectedSeq(ValueView),
    ExpectedObject(ValueView),
    ExpectedValue,
    ExpectedEnum(ValueView),
    Custom(Seq<char>),
}

impl View for Error {
    type V = ErrorView;

    open spec fn view(&self) -> ErrorView {
        match self {
            Error::ExpectedBool(v) => ErrorView::ExpectedBool(v@),
            Error::ExpectedInt(v) => ErrorView::ExpectedInt(v@),
            Error::ExpectedFloat(v) => ErrorView::ExpectedFloat(v@),
            Error::ExpectedString(v) => ErrorView::ExpectedString(v@),
            Error::ExpectedBytes(v) => ErrorView::ExpectedBytes(v@),
            Error::ExpectedSeq(v) => ErrorView::ExpectedSeq(v@),
            Error::ExpectedObject(v) => ErrorView::ExpectedObject(v@),
            Error::ExpectedValue => ErrorView::ExpectedValue,
            Error::ExpectedEnum(v) => ErrorView::ExpectedEnum(v@),
            Error::Custom(text) => ErrorView::Custom(text@),
        }
    }
}

/// What an error says: the kind that was expected and the value that was
/// found, or the text of a custom error.
pub open spec fn error_message(error: ErrorView) -> Seq<char> {
    match error {
        ErrorView::ExpectedBool(v) => "expected bool value, got "@ + value_text(v),
        ErrorView::ExpectedInt(v) => "expected i64 value, got "@ + value_text(v),
        ErrorView::ExpectedFloat(v) => "expected f64 value, got "@ + value_text(v),
        ErrorView::ExpectedString(v) => "expected string value, got "@ + value_text(v),
        ErrorView::ExpectedBytes(v) => "expected bytes value, got "@ + value_text(v),
        ErrorView::ExpectedSeq(v) => "expected sequence value, got "@ + value_text(v),
        ErrorView::ExpectedObject(v) => "expected object value, got "@ + value_text(v),
        ErrorView::ExpectedValue => "expected value for map access"@,
        ErrorView::ExpectedEnum(v) => "expected enum value, got "@ + value_text(v),
        ErrorView::Custom(text) => text,
    }
}

impl Error {
    /// A custom error with the text `msg`.
    pub fn custom(msg: &str) -> (error: Error)
        ensures
            error@ == ErrorView::Custom(msg@),
    {
        Error::Custom(msg.to_owned())
    }

    /// What the error says.
    pub fn to_string(&self) -> (text: String)
        ensures
            text@ == error_message(self@),
    {
        let (head, found) = match self {
            Error::ExpectedBool(v) => ("expected bool value, got ", v),
            Error::ExpectedInt(v) => ("expected i64 value, got ", v),
            Error::ExpectedFloat(v) => ("expected f64 value, got ", v),
            Error::ExpectedString(v) => ("expected string value, got ", v),
            Error::ExpectedBytes(v) => ("expected bytes value, got ", v),
            Error::ExpectedSeq(v) => ("expected sequence value, got ", v),
            Error::ExpectedObject(v) => ("expected object value, got ", v),
            Error::ExpectedEnum(v) => ("expected enum value, got ", v),
            Error::ExpectedValue => {
                return "expected value for map access".to_owned();
            },
            Error::Custom(text) => {
                return text.clone();
            },
        };
        let mut text = head.to_owned();
        text.append(found.to_text().as_str());
        text
    }
}

/// What a value hands to a reader that takes whatever is there.
pub enum Visit<'de> {
    /// Nothing: the value is null.
    Unit,
    I64(i64),
    /// A float, as its bits.
    F64(u64),
    Bool(bool),
    Str(&'de str),
    Bytes(&'de Vec<u8>),
    Items(SeqValues<'de>),
    Members(ObjectMapAccess<'de>),
}

/// A reader's stand on one value.
pub struct ValueDeserializer<'de> {
    pub input: &'de Value,
}

/// How an enum is read off a value.
pub enum EnumAccess<'de> {
    /// A string: it names a variant without data.
    Unit(String),
    /// An object: the variant and its data are read off it.
    Value(EnumValue<'de>),
}

impl<'de> ValueDeserializer<'de> {
    /// A stand on `input`.
    pub fn from_value(input: &'de Value) -> (de: Self)
        ensures
            de.input == input,
    {
        Self { input }
    }

    /// Hands over whatever the value is: nothing for null, the scalar for a
    /// scalar, the items for an array, the members for an object.
    pub fn deserialize_any(&self) -> (visit: Visit<'de>)
        ensures
            match *self.input {
                Value::Null => visit is Unit,
                Value::Int64(i) => visit matches Visit::I64(v) && v == i,
                Value::Float64(bits) => visit matches Visit::F64(v) && v == bits,
                Value::Boolean(b) => visit matches Visit::Bool(v) && v == b,
                Value::String(s) => visit matches Visit::Str(v) && v@ == s@,
                Value::Bytes(b) => visit matches Visit::Bytes(v) && v@ == b@,
                Value::Array(items) => visit matches Visit::Items(seq) && seq.values@ == items@
                    && seq.index == 0,
                Value::Object(entries) => visit matches Visit::Members(map) && map.entries@
                    == entries@ && map.index == 0 && map.value is None,
            },
    {
        match self.input {
            Value::Null => Visit::Unit,
            Value::Int64(i) => Visit::I64(*i),
            Value::Float64(bits) => Visit::F64(*bits),
            Value::Boolean(b) => Visit::Bool(*b),
            Value::String(s) => Visit::Str(s.as_str()),
            Value::Bytes(b) => Visit::Bytes(b),
            Value::Array(items) => Visit::Items(SeqValues::new(items)),
            Value::Object(entries) => Visit::Members(
                ObjectMapAccess::new(ObjectDeserializer::new(entries)),
            ),
        }
    }

    /// The boolean that the value is.
    pub fn deserialize_bool(&self) -> (read: Result<bool, Error>)
        ensures
            match *self.input {
                Value::Boolean(b) => read == Ok::<bool, Error>(b),
                _ => read matches Err(e) && e@ == ErrorView::ExpectedBool(self.input@),
            },
    {
        match self.input {
            Value::Boolean(b) => Ok(*b),
            value => Err(Error::ExpectedBool(value.duplicate())),
        }
    }

    /// The integer that the value is.
    pub fn deserialize_i64(&self) -> (read: Result<i64, Error>)
        ensures
            match *self.input {
                Value::Int64(i) => read == Ok::<i64, Error>(i),
                _ => read matches Err(e) && e@ == ErrorView::ExpectedInt(self.input@),
            },
    {
        match self.input {
            Value::Int64(i) => Ok(*i),
            value => Err(Error::ExpectedInt(value.duplicate())),
        }
    }

    /// The bits of the float that the value is.
    pub fn deserialize_f64(&self) -> (read: Result<u64, Error>)
        ensures
            match *self.input {
                Value::Float64(bits) => read == Ok::<u64, Error>(bits),
                _ => read matches Err(e) && e@ == ErrorView::ExpectedFloat(self.input@),
            },
    {
        match self.input {
            Value::Float64(bits) => Ok(*bits),
            value => Err(Error::ExpectedFloat(value.duplicate())),
        }
    }

    /// The string that the value is, borrowed.
    pub fn deserialize_str(&self) -> (read: Result<&'de str, Error>)
        ensures
            match *self.input {
                Value::String(s) => read matches Ok(text) && text@ == s@,
                _ => read matches Err(e) && e@ == ErrorView::ExpectedString(self.input@),
            },
    {
        match self.input {
            Value::String(s) => Ok(s.as_str()),
            value => Err(Error::ExpectedString(value.duplicate())),
        }
    }

    /// The string that the value is, as a copy.
    pub fn deserialize_string(&self) -> (read: Result<String, Error>)
        ensures
            match *self.input {
                Value::String(s) => read matches Ok(text) && text@ == s@,
                _ => read matches Err(e) && e@ == ErrorView::ExpectedString(self.input@),
            },
    {
        match self.input {
            Value::String(s) => Ok(s.clone()),
            value => Err(Error::ExpectedString(value.duplicate())),
        }
    }

    /// The bytes that the value is, borrowed.
    pub fn deserialize_bytes(&self) -> (read: Result<&'de Vec<u8>, Error>)
        ensures
            match *self.input {
                Value::Bytes(b) => read matches Ok(bytes) && bytes@ == b@,
                _ => read matches Err(e) && e@ == ErrorView::ExpectedBytes(self.input@),
            },
    {
        match self.input {
            Value::Bytes(b) => Ok(b),
            value => Err(Error::ExpectedBytes(value.duplicate())),
        }
    }

    /// Nothing where the value is null, else a stand on the value itself.
    pub fn deserialize_option(&self) -> (read: Option<ValueDeserializer<'de>>)
        ensures
            match *self.input {
                Value::Null => read is None,
                _ => read matches Some(de) && de.input == self.input,
            },
    {
        match self.input {
            Value::Null => None,
            _ => Some(ValueDeserializer { input: self.input }),
        }
    }

    /// The items of the array that the value is.
    pub fn deserialize_seq(&self) -> (read: Result<SeqValues<'de>, Error>)
        ensures
            match *self.input {
                Value::Array(items) => read matches Ok(seq) && seq.values@ == items@ && seq.index
                    == 0,
                _ => read matches Err(e) && e@ == ErrorView::ExpectedSeq(self.input@),
            },
    {
        match self.input {
            Value::Array(values) => Ok(SeqValues::new(values)),
            value => Err(Error::ExpectedSeq(value.duplicate())),
        }
    }

    /// A stand on the same value: a wrapper type is read as what it wraps.
    pub fn deserialize_newtype_struct(&self) -> (de: ValueDeserializer<'de>)
        ensures
            de.input == self.input,
    {
        ValueDeserializer { input: self.input }
    }

    /// What a record is read off: whatever the value is.
    pub fn deserialize_struct(&self) -> (visit: Visit<'de>)
        ensures
            match *self.input {
                Value::Null => visit is Unit,
                Value::Int64(i) => visit matches Visit::I64(v) && v == i,
                Value::Float64(bits) => visit matches Visit::F64(v) && v == bits,
                Value::Boolean(b) => visit matches Visit::Bool(v) && v == b,
                Value::String(s) => visit matches Visit::Str(v) && v@ == s@,
                Value::Bytes(b) => visit matches Visit::Bytes(v) && v@ == b@,
                Value::Array(items) => visit matches Visit::Items(seq) && seq.values@ == items@
                    && seq.index == 0,
                Value::Object(entries) => visit matches Visit::Members(map) && map.entries@
                    == entries@ && map.index == 0 && map.value is None,
            },
    {
        self.deserialize_any()
    }

    /// The unit: it is read off any value.
    pub fn deserialize_unit(&self) {
    }

    /// A record without fields: it is read off any value.
    pub fn deserialize_unit_struct(&self) {
    }

    /// How an enum is read off the value: a string names a variant without
    /// data, an object carries variant and data.
    pub fn deserialize_enum(&self) -> (read: Result<EnumAccess<'de>, Error>)
        ensures
            match *self.input {
                Value::String(s) => read matches Ok(EnumAccess::Unit(name)) && name@ == s@,
                Value::Object(_) => read matches Ok(EnumAccess::Value(access)) && access.de.input
                    == self.input,
                _ => read matches Err(e) && e@ == ErrorView::ExpectedEnum(self.input@),
            },
    {
        match self.input {
            Value::String(s) => Ok(EnumAccess::Unit(s.clone())),
            Value::Object(_) => Ok(
                EnumAccess::Value(EnumValue::new(ValueDeserializer { input: self.input })),
            ),
            value => Err(Error::ExpectedEnum(value.duplicate())),
        }
    }

    /// The name that the value is: a string.
    pub fn deserialize_identifier(&self) -> (read: Result<&'de str, Error>)
        ensures
            match *self.input {
                Value::String(s) => read matches Ok(text) && text@ == s@,
                _ => read matches Err(e) && e@ == ErrorView::ExpectedString(self.input@),
            },
    {
        self.deserialize_str()
    }
}

/// An enum that is read off an object.
pub struct EnumValue<'de> {
    pub de: ValueDeserializer<'de>,
}

impl<'de> EnumValue<'de> {
    /// The access to the enum on which `de` stands.
    pub fn new(de: ValueDeserializer<'de>) -> (access: Self)
        ensures
            access.de.input == de.input,
    {
        Self { de }
    }

    /// The name of the variant: the value itself, read as a name.
    pub fn variant(&self) -> (read: Result<&'de str, Error>)
        ensures
            match *self.de.input {
                Value::String(s) => read matches Ok(text) && text@ == s@,
                _ => read matches Err(e) && e@ == ErrorView::ExpectedString(self.de.input@),
            },
    {
        self.de.deserialize_identifier()
    }

    /// A variant without data cannot be read off an object: the error says
    /// that a string was expected.
    pub fn unit_variant(&self) -> (error: Error)
        ensures
            error@ == ErrorView::ExpectedString(self.de.input@),
    {
        Error::ExpectedString(self.de.input.duplicate())
    }

    /// The stand from which the one field of a variant is read.
    pub fn newtype_variant(self) -> (de: ValueDeserializer<'de>)
        ensures
            de.input == self.de.input,
    {
        self.de
    }

    /// What the fields of a variant with named fields are read off: whatever
    /// the value is.
    pub fn struct_variant(&self) -> (visit: Visit<'de>)
        ensures
            match *self.de.input {
                Value::Null => visit is Unit,
                Value::Int64(i) => visit matches Visit::I64(v) && v == i,
                Value::Float64(bits) => visit matches Visit::F64(v) && v == bits,
                Value::Boolean(b) => visit matches Visit::Bool(v) && v == b,
                Value::String(s) => visit matches Visit::Str(v) && v@ == s@,
                Value::Bytes(b) => visit matches Visit::Bytes(v) && v@ == b@,
                Value::Array(items) => visit matches Visit::Items(seq) && seq.values@ == items@
                    && seq.index == 0,
                Value::Object(entries) => visit matches Visit::Members(map) && map.entries@
                    == entries@ && map.index == 0 && map.value is None,
            },
    {
        self.de.deserialize_any()
    }

    /// The items from which the fields of a tuple variant are read.
    pub fn tuple_variant(&self) -> (read: Result<SeqValues<'de>, Error>)
        ensures
            match *self.de.input {
                Value::Array(items) => read matches Ok(seq) && seq.values@ == items@ && seq.index
                    == 0,
                _ => read matches Err(e) && e@ == ErrorView::ExpectedSeq(self.de.input@),
            },
    {
        self.de.deserialize_seq()
    }
}

/// The items of an array, handed out one after the other.
pub struct SeqValues<'de> {
    pub values: &'de Vec<Value>,
    pub index: usize,
}

impl<'de> SeqValues<'de> {
    /// The items of `values`, from the first.
    pub fn new(values: &'de Vec<Value>) -> (seq: Self)
        ensures
            seq.values == values,
            seq.index == 0,
    {
        Self { values, index: 0 }
    }

    /// A stand on the next item, or nothing where all were handed out.
    pub fn next_element(&mut self) -> (next: Option<ValueDeserializer<'de>>)
        ensures
            final(self).values == old(self).values,
            match next {
                Some(de) => old(self).index < old(self).values.len() && final(self).index == old(
                    self,
                ).index + 1 && *de.input == old(self).values@[old(self).index as int],
                None => old(self).index >= old(self).values.len() && final(self).index == old(
                    self,
                ).index,
            },
    {
        if self.index < self.values.len() {
            let value = &self.values[self.index];
            self.index += 1;
            Some(ValueDeserializer::from_value(value))
        } else {
            None
        }
    }

    /// How many items are still to come.
    pub fn size_hint(&self) -> (left: Option<usize>)
        ensures
            left == Some(
                if self.index <= self.values.len() {
                    (self.values.len() - self.index) as usize
                } else {
                    0usize
                },
            ),
    {
        if self.index <= self.values.len() {
            Some(self.values.len() - self.index)
        } else {
            Some(0)
        }
    }
}

/// A reader's stand on the key of a member.
pub struct KeyDeserializer<'de> {
    pub input: &'de str,
}

impl<'de> KeyDeserializer<'de> {
    /// A stand on the key `input`.
    pub fn new(input: &'de str) -> (de: Self)
        ensures
            de.input@ == input@,
    {
        Self { input }
    }

    /// The key, whatever is asked for.
    pub fn deserialize_any(&self) -> (key: &'de str)
        ensures
            key@ == self.input@,
    {
        self.input
    }

    /// The key, borrowed.
    pub fn deserialize_str(&self) -> (key: &'de str)
        ensures
            key@ == self.input@,
    {
        self.input
    }

    /// The key, as a copy.
    pub fn deserialize_string(&self) -> (key: String)
        ensures
            key@ == self.input@,
    {
        self.input.to_owned()
    }

    /// The key, read as a name.
    pub fn deserialize_identifier(&self) -> (key: &'de str)
        ensures
            key@ == self.input@,
    {
        self.input
    }
}

/// A reader's stand on the members of an object.
pub struct ObjectDeserializer<'de> {
    pub input: &'de Vec<(String, Value)>,
}

impl<'de> ObjectDeserializer<'de> {
    /// A stand on the members `input`.
    pub fn new(input: &'de Vec<(String, Value)>) -> (de: Self)
        ensures
            de.input == input,
    {
        Self { input }
    }

    /// The members, whatever is asked for.
    pub fn deserialize_any(self) -> (map: ObjectMapAccess<'de>)
        ensures
            map.entries == self.input,
            map.index == 0,
            map.value is None,
    {
        ObjectMapAccess::new(self)
    }
}

/// The members of an object, handed out key by key; after each key its
/// value can be taken once.
pub struct ObjectMapAccess<'de> {
    pub entries: &'de Vec<(String, Value)>,
    pub index: usize,
    pub value: Option<&'de Value>,
}

impl<'de> ObjectMapAccess<'de> {
    /// The members of the object on which `deserializer` stands, from the
    /// first.
    pub fn new(deserializer: ObjectDeserializer<'de>) -> (map: Self)
        ensures
            map.entries == deserializer.input,
            map.index == 0,
            map.value is None,
    {
        Self { entries: deserializer.input, index: 0, value: None }
    }

    /// A stand on the key of the next member, or nothing where all members
    /// were handed out. The member's value is then the one to be taken.
    pub fn next_key(&mut self) -> (next: Option<KeyDeserializer<'de>>)
        ensures
            final(self).entries == old(self).entries,
            match next {
                Some(key) => {
                    &&& old(self).index < old(self).entries.len()
                    &&& final(self).index == old(self).index + 1
                    &&& key.input@ == old(self).entries@[old(self).index as int].0@
                    &&& final(self).value == Some(&old(self).entries@[old(self).index as int].1)
                },
                None => {
                    &&& old(self).index >= old(self).entries.len()
                    &&& final(self).index == old(self).index
                    &&& final(self).value == old(self).value
                },
            },
    {
        if self.index < self.entries.len() {
            let entry = &self.entries[self.index];
            self.index += 1;
            self.value = Some(&entry.1);
            Some(KeyDeserializer::new(entry.0.as_str()))
        } else {
            None
        }
    }

    /// A stand on the value of the member whose key was handed out last. An
    /// error where no value is to be taken: none was handed out, or it was
    /// taken already.
    pub fn next_value(&mut self) -> (next: Result<ValueDeserializer<'de>, Error>)
        ensures
            final(self).entries == old(self).entries,
            final(self).index == old(self).index,
            final(self).value is None,
            match old(self).value {
                Some(value) => next matches Ok(de) && de.input == value,
                None => next matches Err(e) && e@ == ErrorView::ExpectedValue,
            },
    {
        match self.value.take() {
            Some(value) => Ok(ValueDeserializer::from_value(value)),
            None => Err(Error::ExpectedValue),
        }
    }
}

} // verus!
