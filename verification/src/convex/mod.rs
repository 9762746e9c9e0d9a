//! Records and calls of the document store.

pub mod attachments;
pub mod messages;
pub mod threads;

use vstd::prelude::*;

use crate::convex_serde::{DeError, SerError};
use crate::convex_serde::de::{Error, ErrorView, ValueDeserializer};
use crate::convex_serde::ser::{insert_member, inserted};
use crate::convex_serde::value::{lemma_object_view, member_views, Value, ValueView};
use crate::text::{concat, str_eq};

verus! {

/// What an error of the store says.
pub open spec fn convex_error_message(error: ConvexError) -> Seq<char> {
    match error {
        ConvexError::Unexpected(text) => "unexpected error: "@ + text@,
        ConvexError::Query(text) => "query error: "@ + text@,
        ConvexError::Message(text) => "query error: "@ + text@,
        ConvexError::Deserialization(e) => "deserialization error: "@
            + crate::convex_serde::de::error_message(e@),
        ConvexError::Serialization(e) => "serialization error: "@
            + crate::convex_serde::ser::error_message(e@),
    }
}

impl ConvexError {
    /// What the error says.
    pub fn to_string(&self) -> (text: String)
        ensures
            text@ == convex_error_message(*self),
    {
        match self {
            ConvexError::Unexpected(text) => concat("unexpected error: ", text.as_str()),
            ConvexError::Query(text) => concat("query error: ", text.as_str()),
            ConvexError::Message(text) => concat("query error: ", text.as_str()),
            ConvexError::Deserialization(e) => concat(
                "deserialization error: ",
                e.to_string().as_str(),
            ),
            ConvexError::Serialization(e) => concat(
                "serialization error: ",
                e.to_string().as_str(),
            ),
        }
    }
}

/// What the store answers to a call of one of its functions.
#[derive(Debug, PartialEq, Eq)]
pub enum FunctionResult {
    /// The value that the function returned.
    Value(Value),
    /// The function failed; the text says why.
    ErrorMessage(String),
    /// The function raised an application error; the text says why.
    ConvexError(String),
}

/// Name of the argument that carries the key of the service.
pub const API_KEY: &'static str = "apiKey";

/// The value that a call returned, or the error that it raised.
pub fn parse_result(result: FunctionResult) -> (value: Result<Value, ConvexError>)
    ensures
        match result {
            FunctionResult::Value(v) => value == Ok::<Value, ConvexError>(v),
            FunctionResult::ErrorMessage(message) => value == Err::<Value, ConvexError>(
                ConvexError::Message(message),
            ),
            FunctionResult::ConvexError(error) => value == Err::<Value, ConvexError>(
                ConvexError::Query(error),
            ),
        },
{
    match result {
        FunctionResult::Value(value) => Ok(value),
        FunctionResult::ErrorMessage(message) => Err(ConvexError::Message(message)),
        FunctionResult::ConvexError(convex_error) => Err(ConvexError::Query(convex_error)),
    }
}

/// Adds the key of the service to the arguments of a call.
pub fn auth_args(api_key: &str, args: &mut Vec<(String, Value)>)
    ensures
        member_views(final(args)@) == inserted(
            member_views(old(args)@),
            API_KEY@,
            ValueView::String(api_key@),
        ),
{
    insert_member(args, API_KEY.to_owned(), Value::String(api_key.to_owned()));
}

/// The arguments of a call, with the key of the service among them.
pub fn convex_query(api_key: &str, args: Vec<(String, Value)>) -> (call: Vec<(String, Value)>)
    ensures
        member_views(call@) == inserted(
            member_views(args@),
            API_KEY@,
            ValueView::String(api_key@),
        ),
{
    let mut args = args;
    auth_args(api_key, &mut args);
    args
}

/// The arguments of a mutation, with the key of the service among them.
pub fn convex_mutation(api_key: &str, args: Vec<(String, Value)>) -> (call: Vec<(String, Value)>)
    ensures
        member_views(call@) == inserted(
            member_views(args@),
            API_KEY@,
            ValueView::String(api_key@),
        ),
{
    convex_query(api_key, args)
}

/// The value of the first member named `key`.
pub open spec fn member_view(members: Seq<(Seq<char>, ValueView)>, key: Seq<char>) -> Option<
    ValueView,
>
    decreases members.len(),
{
    if members.len() == 0 {
        None
    } else if members[0].0 == key {
        Some(members[0].1)
    } else {
        member_view(members.drop_first(), key)
    }
}

/// The text that reports a member that a record lacks.
pub open spec fn missing_field(key: Seq<char>) -> Seq<char> {
    "missing field `"@ + key + "`"@
}

/// The member `key` as a string: it must be there and a string.
pub open spec fn string_field(members: Seq<(Seq<char>, ValueView)>, key: Seq<char>) -> Result<
    Seq<char>,
    ErrorView,
> {
    match member_view(members, key) {
        None => Err(ErrorView::Custom(missing_field(key))),
        Some(ValueView::String(text)) => Ok(text),
        Some(other) => Err(ErrorView::ExpectedString(other)),
    }
}

/// The member `key` as a string that may be missing: a missing member and
/// null are no string, anything but a string is an error.
pub open spec fn optional_string_field(
    members: Seq<(Seq<char>, ValueView)>,
    key: Seq<char>,
) -> Result<Option<Seq<char>>, ErrorView> {
    match member_view(members, key) {
        None => Ok(None),
        Some(ValueView::Null) => Ok(None),
        Some(ValueView::String(text)) => Ok(Some(text)),
        Some(other) => Err(ErrorView::ExpectedString(other)),
    }
}

/// The value of the first member named `key`.
pub fn find_member<'a>(members: &'a Vec<(String, Value)>, key: &str) -> (found: Option<&'a Value>)
    ensures
        match member_view(member_views(members@), key@) {
            Some(value) => found matches Some(v) && v@ == value,
            None => found is None,
        },
{
    let ghost all = member_views(members@);
    let mut i: usize = 0;
    assert(all.skip(0) == all);
    while i < members.len()
        invariant
            i <= members.len(),
            all == member_views(members@),
            member_view(all, key@) == member_view(all.skip(i as int), key@),
        decreases members.len() - i,
    {
        let ghost rest = all.skip(i as int);
        assert(rest[0] == all[i as int]);
        assert(rest.drop_first() == all.skip(i + 1));
        if str_eq(members[i].0.as_str(), key) {
            return Some(&members[i].1);
        }
        i += 1;
    }
    None
}

/// The text that reports a member that a record lacks.
pub fn missing_field_error(key: &str) -> (error: Error)
    ensures
        error@ == ErrorView::Custom(missing_field(key@)),
{
    let mut text = "missing field `".to_owned();
    text.append(key);
    text.append("`");
    Error::Custom(text)
}

/// Reads the member `key` as a string.
pub fn read_string_field(members: &Vec<(String, Value)>, key: &str) -> (read: Result<String, Error>)
    ensures
        match string_field(member_views(members@), key@) {
            Ok(text) => read matches Ok(t) && t@ == text,
            Err(error) => read matches Err(e) && e@ == error,
        },
{
    match find_member(members, key) {
        None => Err(missing_field_error(key)),
        Some(value) => ValueDeserializer::from_value(value).deserialize_string(),
    }
}

/// Reads the member `key` as a string that may be missing.
pub fn read_optional_string_field(members: &Vec<(String, Value)>, key: &str) -> (read: Result<
    Option<String>,
    Error,
>)
    ensures
        match optional_string_field(member_views(members@), key@) {
            Ok(Some(text)) => read matches Ok(Some(t)) && t@ == text,
            Ok(None) => read matches Ok(None),
            Err(error) => read matches Err(e) && e@ == error,
        },
{
    match find_member(members, key) {
        None => Ok(None),
        Some(value) => match ValueDeserializer::from_value(value).deserialize_option() {
            None => Ok(None),
            Some(de) => match de.deserialize_string() {
                Ok(text) => Ok(Some(text)),
                Err(error) => Err(error),
            },
        },
    }
}

/// Whether a mutation took effect, by its answer: null says that it did
/// not; a record with a string member `_id` says that it did.
pub open spec fn stored_answer(answer: ValueView) -> Result<bool, ErrorView> {
    match answer {
        ValueView::Null => Ok(false),
        ValueView::Object(members) => match string_field(members, "_id"@) {
            Ok(_) => Ok(true),
            Err(error) => Err(error),
        },
        other => Err(ErrorView::ExpectedObject(other)),
    }
}

/// Whether a mutation took effect, by its answer.
pub fn mutation_stored(answer: &Value) -> (stored: Result<bool, ConvexError>)
    ensures
        match stored_answer(answer@) {
            Ok(yes) => stored == Ok::<bool, ConvexError>(yes),
            Err(error) => stored matches Err(ConvexError::Deserialization(e)) && e@ == error,
        },
{
    match answer {
        Value::Null => Ok(false),
        Value::Object(members) => {
            proof {
                lemma_object_view(*members);
            }
            match read_string_field(members, "_id") {
                Ok(_) => Ok(true),
                Err(error) => Err(ConvexError::Deserialization(error)),
            }
        },
        other => Err(ConvexError::Deserialization(Error::ExpectedObject(other.duplicate()))),
    }
}

/// Why a call of the document store failed.
#[derive(Debug, PartialEq, Eq)]
pub enum ConvexError {
    /// The client failed before an answer came.
    Unexpected(String),
    /// The store's function raised an application error.
    Query(String),
    /// The store answered with an error message.
    Message(String),
    /// The answer was not of the expected type.
    Deserialization(DeError),
    /// The arguments could not be written as a store value.
    Serialization(SerError),
}

} // verus!
