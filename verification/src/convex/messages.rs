//! Messages of a thread as the document store holds them, and the arguments
//! of the mutations that change them.

use vstd::prelude::*;

use crate::convex::{
    find_member, member_view, missing_field, missing_field_error, read_string_field, string_field,
    ConvexError,
};
use crate::convex_serde::de::{EnumAccess, Error, ErrorView, ValueDeserializer};
use crate::convex_serde::ser::{insert_member, inserted};
use crate::convex_serde::value::{
    lemma_array_view, lemma_object_view, member_views, value_views, Value, ValueView,
};
use crate::text::str_eq;

verus! {

/// Lifecycle of a message. A message that is not `Pending` is final.
#[derive(Debug, Clone, Copy, PartialEq, Eq, Structural)]
pub enum MessageStatus {
    Pending,
    Complete,
    Cancelled,
}

/// One content part of a message.
#[derive(Debug, Clone, PartialEq, Eq)]
pub enum MessagePart {
    Text { text: String },
    Attachment { id: String },
}

/// Model of a [`MessagePart`].
pub enum MessagePartView {
    Text { text: Seq<char> },
    Attachment { id: Seq<char> },
}

impl View for MessagePart {
    type V = MessagePartView;

    open spec fn view(&self) -> MessagePartView {
        match self {
            MessagePart::Text { text } => MessagePartView::Text { text: text@ },
            MessagePart::Attachment { id } => MessagePartView::Attachment { id: id@ },
        }
    }
}

/// Author of a message.
#[derive(Debug, Clone, Copy, PartialEq, Eq, Structural)]
pub enum Role {
    User,
    Assistant,
    System,
}

/// One turn of a thread.
#[derive(Debug, Clone, PartialEq, Eq)]
pub struct Message {
    pub id: String,
    pub thread_id: String,
    pub status: Option<MessageStatus>,
    pub role: Role,
    pub parts: Vec<MessagePart>,
}

/// Model of a [`Message`].
pub struct MessageView {
    pub id: Seq<char>,
    pub thread_id: Seq<char>,
    pub status: Option<MessageStatus>,
    pub role: Role,
    pub parts: Seq<MessagePartView>,
}

impl View for Message {
    type V = MessageView;

    open spec fn view(&self) -> MessageView {
        MessageView {
            id: self.id@,
            thread_id: self.thread_id@,
            status: self.status,
            role: self.role,
            parts: Seq::new(self.parts@.len(), |i: int| self.parts@[i]@),
        }
    }
}

/// How much reasoning the model was asked for.
#[derive(Debug, Clone, Copy, PartialEq, Eq, Structural)]
pub enum ReasoningEffort {
    Low,
    Medium,
    High,
}

/// Parameters the model ran with, stored with the completed message.
#[derive(Debug, Clone, Copy, PartialEq, Eq, Structural)]
pub struct ModelParams {
    pub reasoning_effort: Option<ReasoningEffort>,
    pub include_search: bool,
}

/// Tokens per second as the exact fraction `numerator / denominator`; the
/// denominator is never zero.
#[derive(Debug, Clone, Copy, PartialEq, Eq, Structural)]
pub struct TokenRate {
    pub numerator: u64,
    pub denominator: u64,
}

/// Arguments of the mutation that completes a message: the model and the
/// usage of the run.
#[derive(Debug, Clone, PartialEq, Eq)]
pub struct CompleteMessageArgs {
    pub message_id: String,
    pub model: String,
    pub model_params: Option<ModelParams>,
    pub time_to_first_token_ms: u64,
    pub prompt_token_count: u32,
    pub token_count: u32,
    pub duration_ms: u64,
    pub tokens_per_second: TokenRate,
}

/// Model of [`CompleteMessageArgs`].
pub struct CompleteMessageArgsView {
    pub message_id: Seq<char>,
    pub model: Seq<char>,
    pub model_params: Option<ModelParams>,
    pub time_to_first_token_ms: u64,
    pub prompt_token_count: u32,
    pub token_count: u32,
    pub duration_ms: u64,
    pub tokens_per_second: TokenRate,
}

impl View for CompleteMessageArgs {
    type V = CompleteMessageArgsView;

    open spec fn view(&self) -> CompleteMessageArgsView {
        CompleteMessageArgsView {
            message_id: self.message_id@,
            model: self.model@,
            model_params: self.model_params,
            time_to_first_token_ms: self.time_to_first_token_ms,
            prompt_token_count: self.prompt_token_count,
            token_count: self.token_count,
            duration_ms: self.duration_ms,
            tokens_per_second: self.tokens_per_second,
        }
    }
}

/// A source cited by the model.
#[derive(Debug, Clone, PartialEq, Eq)]
pub struct Annotation {
    pub title: String,
    pub url: String,
    pub content: String,
}

/// Model of an [`Annotation`].
pub struct AnnotationView {
    pub title: Seq<char>,
    pub url: Seq<char>,
    pub content: Seq<char>,
}

impl View for Annotation {
    type V = AnnotationView;

    open spec fn view(&self) -> AnnotationView {
        AnnotationView { title: self.title@, url: self.url@, content: self.content@ }
    }
}

/// The models of a sequence of annotations, item by item.
pub open spec fn annotation_views(items: Seq<Annotation>) -> Seq<AnnotationView> {
    Seq::new(items.len(), |i: int| items[i]@)
}

impl Annotation {
    /// A copy of the annotation.
    pub fn duplicate(&self) -> (copy: Annotation)
        ensures
            copy@ == self@,
    {
        Annotation {
            title: self.title.clone(),
            url: self.url.clone(),
            content: self.content.clone(),
        }
    }
}

/// A copy of a list of annotations.
pub fn duplicate_annotations(items: &Vec<Annotation>) -> (copy: Vec<Annotation>)
    ensures
        annotation_views(copy@) == annotation_views(items@),
{
    let mut copy: Vec<Annotation> = Vec::new();
    let mut i: usize = 0;
    while i < items.len()
        invariant
            i <= items.len(),
            copy.len() == i,
            forall|k: int| 0 <= k < i ==> copy@[k]@ == items@[k]@,
        decreases items.len() - i,
    {
        copy.push(items[i].duplicate());
        i += 1;
    }
    assert(annotation_views(copy@) =~= annotation_views(items@));
    copy
}

/// Arguments of the mutation that appends annotations to a message.
#[derive(Debug, Clone, PartialEq, Eq)]
pub struct AnnotationArgs {
    pub message_id: String,
    pub annotations: Vec<Annotation>,
}

/// The members of an object with the one member `key`.
pub open spec fn one_member(key: Seq<char>, value: ValueView) -> Seq<(Seq<char>, ValueView)> {
    inserted(Seq::empty(), key, value)
}

/// The members of an object with the two members `first` and `second`.
pub open spec fn two_members(
    first: Seq<char>,
    first_value: ValueView,
    second: Seq<char>,
    second_value: ValueView,
) -> Seq<(Seq<char>, ValueView)> {
    inserted(one_member(first, first_value), second, second_value)
}

/// The arguments of a call with the one string argument `key`.
fn string_arg(key: &str, value: String) -> (args: Vec<(String, Value)>)
    ensures
        member_views(args@) == one_member(key@, ValueView::String(value@)),
{
    let mut args: Vec<(String, Value)> = Vec::new();
    assert(member_views(args@) == Seq::<(Seq<char>, ValueView)>::empty());
    insert_member(&mut args, key.to_owned(), Value::String(value));
    args
}

/// The arguments of a call with the two string arguments `first` and
/// `second`.
fn string_args(first: &str, first_value: String, second: &str, second_value: String) -> (args: Vec<
    (String, Value),
>)
    ensures
        member_views(args@) == two_members(
            first@,
            ValueView::String(first_value@),
            second@,
            ValueView::String(second_value@),
        ),
{
    let mut args = string_arg(first, first_value);
    insert_member(&mut args, second.to_owned(), Value::String(second_value));
    args
}

/// Name of the query that fetches a message.
pub const GET_BY_ID: &'static str = "messages:apiGetById";

/// Name of the query that fetches the messages of a thread.
pub const GET_BY_THREAD_ID: &'static str = "messages:apiGetByThreadId";

/// Name of the mutation that completes a message.
pub const COMPLETE_MESSAGE: &'static str = "messages:apiComplete";

/// Name of the mutation that appends text to a message.
pub const APPEND_TEXT: &'static str = "messages:apiAppendText";

/// Name of the mutation that appends reasoning to a message.
pub const APPEND_REASONING: &'static str = "messages:apiAppendReasoning";

/// Name of the mutation that appends annotations to a message.
pub const APPEND_ANNOTATIONS: &'static str = "messages:apiAppendAnnotations";

/// Name of the mutation that marks a message cancelled.
pub const CANCEL_MESSAGE: &'static str = "messages:apiCancel";

/// Name of the query that fetches the messages of a thread up to a message.
pub const GET_UNTIL: &'static str = "threads:apiGetMessagesUntil";

/// The arguments of the query that fetches the message `id`.
pub fn get_by_id(id: String) -> (args: Vec<(String, Value)>)
    ensures
        member_views(args@) == one_member("id"@, ValueView::String(id@)),
{
    string_arg("id", id)
}

/// The arguments of the query that fetches the messages of a thread.
pub fn get_by_thread_id(thread_id: String) -> (args: Vec<(String, Value)>)
    ensures
        member_views(args@) == one_member("threadId"@, ValueView::String(thread_id@)),
{
    string_arg("threadId", thread_id)
}

/// The arguments of the mutation that appends text to a message.
pub fn append_text(message_id: String, text: String) -> (args: Vec<(String, Value)>)
    ensures
        member_views(args@) == two_members(
            "messageId"@,
            ValueView::String(message_id@),
            "text"@,
            ValueView::String(text@),
        ),
{
    string_args("messageId", message_id, "text", text)
}

/// The arguments of the mutation that appends reasoning to a message.
pub fn append_reasoning(message_id: String, reasoning: String) -> (args: Vec<(String, Value)>)
    ensures
        member_views(args@) == two_members(
            "messageId"@,
            ValueView::String(message_id@),
            "reasoning"@,
            ValueView::String(reasoning@),
        ),
{
    string_args("messageId", message_id, "reasoning", reasoning)
}

/// The arguments of the mutation that marks a message cancelled.
pub fn cancel(message_id: String) -> (args: Vec<(String, Value)>)
    ensures
        member_views(args@) == one_member("messageId"@, ValueView::String(message_id@)),
{
    string_arg("messageId", message_id)
}

/// The arguments of the query that fetches the messages of a thread up to
/// the message `until_id`.
pub fn get_until(thread_id: String, until_id: String) -> (args: Vec<(String, Value)>)
    ensures
        member_views(args@) == two_members(
            "threadId"@,
            ValueView::String(thread_id@),
            "untilId"@,
            ValueView::String(until_id@),
        ),
{
    string_args("threadId", thread_id, "untilId", until_id)
}

/// The name of a reasoning effort in the store.
pub open spec fn effort_name(effort: ReasoningEffort) -> Seq<char> {
    match effort {
        ReasoningEffort::Low => "low"@,
        ReasoningEffort::Medium => "medium"@,
        ReasoningEffort::High => "high"@,
    }
}

/// Model parameters as a store value: null where there are none, else an
/// object with the members `includeSearch` and `reasoningEffort`, the latter
/// null where no effort was asked for.
pub open spec fn model_params_value(params: Option<ModelParams>) -> ValueView {
    match params {
        None => ValueView::Null,
        Some(params) => ValueView::Object(
            two_members(
                "includeSearch"@,
                ValueView::Boolean(params.include_search),
                "reasoningEffort"@,
                match params.reasoning_effort {
                    Some(effort) => ValueView::String(effort_name(effort)),
                    None => ValueView::Null,
                },
            ),
        ),
    }
}

/// The arguments of the mutation that completes a message, without the
/// numbers of the usage: the message, the model and the model parameters.
/// The store takes the numbers as floats, which the caller adds.
pub fn complete(args: &CompleteMessageArgs) -> (call: Vec<(String, Value)>)
    ensures
        member_views(call@) == inserted(
            two_members(
                "messageId"@,
                ValueView::String(args.message_id@),
                "model"@,
                ValueView::String(args.model@),
            ),
            "modelParams"@,
            model_params_value(args.model_params),
        ),
{
    let params = match args.model_params {
        None => Value::Null,
        Some(params) => {
            let effort = match params.reasoning_effort {
                Some(ReasoningEffort::Low) => Value::String("low".to_owned()),
                Some(ReasoningEffort::Medium) => Value::String("medium".to_owned()),
                Some(ReasoningEffort::High) => Value::String("high".to_owned()),
                None => Value::Null,
            };
            let mut members: Vec<(String, Value)> = Vec::new();
            assert(member_views(members@) == Seq::<(Seq<char>, ValueView)>::empty());
            insert_member(
                &mut members,
                "includeSearch".to_owned(),
                Value::Boolean(params.include_search),
            );
            insert_member(&mut members, "reasoningEffort".to_owned(), effort);
            proof {
                lemma_object_view(members);
            }
            Value::Object(members)
        },
    };
    let mut call = string_args("messageId", args.message_id.clone(), "model", args.model.clone());
    insert_member(&mut call, "modelParams".to_owned(), params);
    call
}

/// An annotation as a store value: an object with the members `content`,
/// `title` and `url`.
pub open spec fn annotation_value(annotation: AnnotationView) -> ValueView {
    ValueView::Object(
        inserted(
            inserted(
                one_member("title"@, ValueView::String(annotation.title)),
                "url"@,
                ValueView::String(annotation.url),
            ),
            "content"@,
            ValueView::String(annotation.content),
        ),
    )
}

/// The annotations as store values, in order.
pub open spec fn annotation_values(annotations: Seq<AnnotationView>) -> Seq<ValueView> {
    Seq::new(annotations.len(), |i: int| annotation_value(annotations[i]))
}

impl Annotation {
    /// The annotation as a store value.
    pub fn to_value(&self) -> (value: Value)
        ensures
            value@ == annotation_value(self@),
    {
        let mut members = string_arg("title", self.title.clone());
        insert_member(&mut members, "url".to_owned(), Value::String(self.url.clone()));
        insert_member(&mut members, "content".to_owned(), Value::String(self.content.clone()));
        proof {
            lemma_object_view(members);
        }
        Value::Object(members)
    }
}

/// The arguments of the mutation that appends annotations to a message: the
/// annotations as an array of objects, and the message.
pub fn append_annotations(args: &AnnotationArgs) -> (call: Vec<(String, Value)>)
    ensures
        member_views(call@) == two_members(
            "messageId"@,
            ValueView::String(args.message_id@),
            "annotations"@,
            ValueView::Array(annotation_values(annotation_views(args.annotations@))),
        ),
{
    let mut items: Vec<Value> = Vec::new();
    let mut i: usize = 0;
    while i < args.annotations.len()
        invariant
            i <= args.annotations.len(),
            items.len() == i,
            forall|k: int| 0 <= k < i ==> items@[k]@ == annotation_value(args.annotations@[k]@),
        decreases args.annotations.len() - i,
    {
        items.push(args.annotations[i].to_value());
        i += 1;
    }
    proof {
        lemma_array_view(items);
        assert(value_views(items@) == annotation_values(annotation_views(args.annotations@)));
    }
    let mut call = string_arg("messageId", args.message_id.clone());
    insert_member(&mut call, "annotations".to_owned(), Value::Array(items));
    call
}

/// The text that reports a name that is no variant.
pub open spec fn unknown_variant(name: Seq<char>) -> Seq<char> {
    "unknown variant `"@ + name + "`"@
}

/// The error for a name that is no variant.
fn unknown_variant_error(name: &str) -> (error: Error)
    ensures
        error@ == ErrorView::Custom(unknown_variant(name@)),
{
    let mut text = "unknown variant `".to_owned();
    text.append(name);
    text.append("`");
    Error::Custom(text)
}

/// The status that a store value names: `pending`, `complete` or
/// `cancelled`.
pub open spec fn status_of(value: ValueView) -> Result<MessageStatus, ErrorView> {
    match value {
        ValueView::String(name) => if name == "pending"@ {
            Ok(MessageStatus::Pending)
        } else if name == "complete"@ {
            Ok(MessageStatus::Complete)
        } else if name == "cancelled"@ {
            Ok(MessageStatus::Cancelled)
        } else {
            Err(ErrorView::Custom(unknown_variant(name)))
        },
        other => Err(ErrorView::ExpectedEnum(other)),
    }
}

/// The role that a store value names: `user`, `assistant` or `system`.
pub open spec fn role_of(value: ValueView) -> Result<Role, ErrorView> {
    match value {
        ValueView::String(name) => if name == "user"@ {
            Ok(Role::User)
        } else if name == "assistant"@ {
            Ok(Role::Assistant)
        } else if name == "system"@ {
            Ok(Role::System)
        } else {
            Err(ErrorView::Custom(unknown_variant(name)))
        },
        other => Err(ErrorView::ExpectedEnum(other)),
    }
}

/// The content part that a store value holds: an object whose member `type`
/// is `text`, with a member `text`, or `attachment`, with a member `id`.
pub open spec fn part_of(value: ValueView) -> Result<MessagePartView, ErrorView> {
    match value {
        ValueView::Object(members) => match string_field(members, "type"@) {
            Err(error) => Err(error),
            Ok(tag) => if tag == "text"@ {
                match string_field(members, "text"@) {
                    Ok(text) => Ok(MessagePartView::Text { text }),
                    Err(error) => Err(error),
                }
            } else if tag == "attachment"@ {
                match string_field(members, "id"@) {
                    Ok(id) => Ok(MessagePartView::Attachment { id }),
                    Err(error) => Err(error),
                }
            } else {
                Err(ErrorView::Custom(unknown_variant(tag)))
            },
        },
        other => Err(ErrorView::ExpectedObject(other)),
    }
}

/// The content parts that the items hold, or the error of the first item
/// that holds none.
pub open spec fn parts_of(items: Seq<ValueView>) -> Result<Seq<MessagePartView>, ErrorView>
    decreases items.len(),
{
    if items.len() == 0 {
        Ok(Seq::empty())
    } else {
        match parts_of(items.drop_last()) {
            Err(error) => Err(error),
            Ok(before) => match part_of(items.last()) {
                Ok(part) => Ok(before.push(part)),
                Err(error) => Err(error),
            },
        }
    }
}

/// The status of a record: that of its member `status`, none where the
/// member is missing or null.
pub open spec fn status_field(members: Seq<(Seq<char>, ValueView)>) -> Result<
    Option<MessageStatus>,
    ErrorView,
> {
    match member_view(members, "status"@) {
        None => Ok(None),
        Some(ValueView::Null) => Ok(None),
        Some(value) => match status_of(value) {
            Ok(status) => Ok(Some(status)),
            Err(error) => Err(error),
        },
    }
}

/// The role of a record: that of its member `role`.
pub open spec fn role_field(members: Seq<(Seq<char>, ValueView)>) -> Result<Role, ErrorView> {
    match member_view(members, "role"@) {
        None => Err(ErrorView::Custom(missing_field("role"@))),
        Some(value) => role_of(value),
    }
}

/// The content parts of a record: those of its member `parts`, an array.
pub open spec fn parts_field(members: Seq<(Seq<char>, ValueView)>) -> Result<
    Seq<MessagePartView>,
    ErrorView,
> {
    match member_view(members, "parts"@) {
        None => Err(ErrorView::Custom(missing_field("parts"@))),
        Some(ValueView::Array(items)) => parts_of(items),
        Some(other) => Err(ErrorView::ExpectedSeq(other)),
    }
}

/// The message that a store value holds: an object with the members `_id`,
/// `threadId`, `status`, `role` and `parts`, read in this order. Members
/// that are not named here are ignored.
pub open spec fn message_of(value: ValueView) -> Result<MessageView, ErrorView> {
    match value {
        ValueView::Object(members) => match string_field(members, "_id"@) {
            Err(error) => Err(error),
            Ok(id) => match string_field(members, "threadId"@) {
                Err(error) => Err(error),
                Ok(thread_id) => match status_field(members) {
                    Err(error) => Err(error),
                    Ok(status) => match role_field(members) {
                        Err(error) => Err(error),
                        Ok(role) => match parts_field(members) {
                            Err(error) => Err(error),
                            Ok(parts) => Ok(MessageView { id, thread_id, status, role, parts }),
                        },
                    },
                },
            },
        },
        other => Err(ErrorView::ExpectedObject(other)),
    }
}

impl MessageStatus {
    /// Reads a status off a store value.
    pub fn from_value(value: &Value) -> (read: Result<MessageStatus, Error>)
        ensures
            match status_of(value@) {
                Ok(status) => read == Ok::<MessageStatus, Error>(status),
                Err(error) => read matches Err(e) && e@ == error,
            },
    {
        match ValueDeserializer::from_value(value).deserialize_enum() {
            Ok(EnumAccess::Unit(name)) => {
                if str_eq(name.as_str(), "pending") {
                    Ok(MessageStatus::Pending)
                } else if str_eq(name.as_str(), "complete") {
                    Ok(MessageStatus::Complete)
                } else if str_eq(name.as_str(), "cancelled") {
                    Ok(MessageStatus::Cancelled)
                } else {
                    Err(unknown_variant_error(name.as_str()))
                }
            },
            Ok(EnumAccess::Value(_)) => Err(Error::ExpectedEnum(value.duplicate())),
            Err(error) => Err(error),
        }
    }
}

impl Role {
    /// Reads a role off a store value.
    pub fn from_value(value: &Value) -> (read: Result<Role, Error>)
        ensures
            match role_of(value@) {
                Ok(role) => read == Ok::<Role, Error>(role),
                Err(error) => read matches Err(e) && e@ == error,
            },
    {
        match ValueDeserializer::from_value(value).deserialize_enum() {
            Ok(EnumAccess::Unit(name)) => {
                if str_eq(name.as_str(), "user") {
                    Ok(Role::User)
                } else if str_eq(name.as_str(), "assistant") {
                    Ok(Role::Assistant)
                } else if str_eq(name.as_str(), "system") {
                    Ok(Role::System)
                } else {
                    Err(unknown_variant_error(name.as_str()))
                }
            },
            Ok(EnumAccess::Value(_)) => Err(Error::ExpectedEnum(value.duplicate())),
            Err(error) => Err(error),
        }
    }
}

impl MessagePart {
    /// Reads a content part off a store value.
    pub fn from_value(value: &Value) -> (read: Result<MessagePart, Error>)
        ensures
            match part_of(value@) {
                Ok(part) => read matches Ok(p) && p@ == part,
                Err(error) => read matches Err(e) && e@ == error,
            },
    {
        match value {
            Value::Object(members) => {
                proof {
                    lemma_object_view(*members);
                }
                let tag = match read_string_field(members, "type") {
                    Ok(tag) => tag,
                    Err(error) => {
                        return Err(error);
                    },
                };
                if str_eq(tag.as_str(), "text") {
                    match read_string_field(members, "text") {
                        Ok(text) => Ok(MessagePart::Text { text }),
                        Err(error) => Err(error),
                    }
                } else if str_eq(tag.as_str(), "attachment") {
                    match read_string_field(members, "id") {
                        Ok(id) => Ok(MessagePart::Attachment { id }),
                        Err(error) => Err(error),
                    }
                } else {
                    Err(unknown_variant_error(tag.as_str()))
                }
            },
            other => Err(Error::ExpectedObject(other.duplicate())),
        }
    }
}

/// Items that hold no list of parts up to some length hold none at all, and
/// fail with the same error.
pub proof fn lemma_parts_fail(items: Seq<ValueView>, n: int)
    requires
        0 <= n <= items.len(),
        parts_of(items.take(n)) is Err,
    ensures
        parts_of(items) == parts_of(items.take(n)),
    decreases items.len() - n,
{
    if n < items.len() {
        assert(items.take(n + 1).drop_last() == items.take(n));
        lemma_parts_fail(items, n + 1);
    } else {
        assert(items.take(n) == items);
    }
}

/// Reads the content parts off the items of an array.
pub fn parts_from_values(items: &Vec<Value>) -> (read: Result<Vec<MessagePart>, Error>)
    ensures
        match parts_of(value_views(items@)) {
            Ok(parts) => read matches Ok(p) && Seq::new(p@.len(), |i: int| p@[i]@) == parts,
            Err(error) => read matches Err(e) && e@ == error,
        },
{
    let ghost all = value_views(items@);
    let mut parts: Vec<MessagePart> = Vec::new();
    let mut i: usize = 0;
    assert(Seq::new(parts@.len(), |k: int| parts@[k]@) == Seq::<MessagePartView>::empty());
    while i < items.len()
        invariant
            i <= items.len(),
            all == value_views(items@),
            parts_of(all.take(i as int)) == Ok::<Seq<MessagePartView>, ErrorView>(
                Seq::new(parts@.len(), |k: int| parts@[k]@),
            ),
        decreases items.len() - i,
    {
        let ghost before = Seq::new(parts@.len(), |k: int| parts@[k]@);
        assert(all.take(i + 1).drop_last() == all.take(i as int));
        assert(all.take(i + 1).last() == items@[i as int]@);
        match MessagePart::from_value(&items[i]) {
            Ok(part) => {
                parts.push(part);
                assert(Seq::new(parts@.len(), |k: int| parts@[k]@) == before.push(part@));
            },
            Err(error) => {
                proof {
                    lemma_parts_fail(all, i + 1);
                }
                return Err(error);
            },
        }
        i += 1;
    }
    assert(all.take(items.len() as int) == all);
    Ok(parts)
}

impl Message {
    /// Reads a message off a store value.
    pub fn from_value(value: &Value) -> (read: Result<Message, Error>)
        ensures
            match message_of(value@) {
                Ok(message) => read matches Ok(m) && m@ == message,
                Err(error) => read matches Err(e) && e@ == error,
            },
    {
        let members = match value {
            Value::Object(members) => members,
            other => {
                return Err(Error::ExpectedObject(other.duplicate()));
            },
        };
        proof {
            lemma_object_view(*members);
        }
        let id = match read_string_field(members, "_id") {
            Ok(id) => id,
            Err(error) => {
                return Err(error);
            },
        };
        let thread_id = match read_string_field(members, "threadId") {
            Ok(thread_id) => thread_id,
            Err(error) => {
                return Err(error);
            },
        };
        let status = match find_member(members, "status") {
            None => None,
            Some(Value::Null) => None,
            Some(found) => match MessageStatus::from_value(found) {
                Ok(status) => Some(status),
                Err(error) => {
                    return Err(error);
                },
            },
        };
        let role = match find_member(members, "role") {
            None => {
                return Err(missing_field_error("role"));
            },
            Some(found) => match Role::from_value(found) {
                Ok(role) => role,
                Err(error) => {
                    return Err(error);
                },
            },
        };
        let parts = match find_member(members, "parts") {
            None => {
                return Err(missing_field_error("parts"));
            },
            Some(Value::Array(items)) => {
                proof {
                    lemma_array_view(*items);
                }
                match parts_from_values(items) {
                    Ok(parts) => parts,
                    Err(error) => {
                        return Err(error);
                    },
                }
            },
            Some(other) => {
                return Err(Error::ExpectedSeq(other.duplicate()));
            },
        };
        Ok(Message { id, thread_id, status, role, parts })
    }
}

/// The messages that the items hold, or the error of the first item that
/// holds none.
pub open spec fn messages_of(items: Seq<ValueView>) -> Result<Seq<MessageView>, ErrorView>
    decreases items.len(),
{
    if items.len() == 0 {
        Ok(Seq::empty())
    } else {
        match messages_of(items.drop_last()) {
            Err(error) => Err(error),
            Ok(before) => match message_of(items.last()) {
                Ok(message) => Ok(before.push(message)),
                Err(error) => Err(error),
            },
        }
    }
}

/// The history that the answer of the store holds: null is no history; else
/// it must be an array of messages.
pub open spec fn history_of(answer: ValueView) -> Result<Option<Seq<MessageView>>, ErrorView> {
    match answer {
        ValueView::Null => Ok(None),
        ValueView::Array(items) => match messages_of(items) {
            Ok(messages) => Ok(Some(messages)),
            Err(error) => Err(error),
        },
        other => Err(ErrorView::ExpectedSeq(other)),
    }
}

/// The message that the answer of the store holds: null is no message.
pub open spec fn message_answer(answer: ValueView) -> Result<Option<MessageView>, ErrorView> {
    match answer {
        ValueView::Null => Ok(None),
        other => match message_of(other) {
            Ok(message) => Ok(Some(message)),
            Err(error) => Err(error),
        },
    }
}

/// The messages of a thread that the answer of the store holds: an object
/// whose member `messages` is an array of messages.
pub open spec fn thread_messages_of(answer: ValueView) -> Result<Seq<MessageView>, ErrorView> {
    match answer {
        ValueView::Object(members) => match member_view(members, "messages"@) {
            None => Err(ErrorView::Custom(missing_field("messages"@))),
            Some(ValueView::Array(items)) => messages_of(items),
            Some(other) => Err(ErrorView::ExpectedSeq(other)),
        },
        other => Err(ErrorView::ExpectedObject(other)),
    }
}

/// The models of a list of messages.
pub open spec fn message_views(messages: Seq<Message>) -> Seq<MessageView> {
    Seq::new(messages.len(), |i: int| messages[i]@)
}

/// Items that hold no list of messages up to some length hold none at all,
/// and fail with the same error.
pub proof fn lemma_messages_fail(items: Seq<ValueView>, n: int)
    requires
        0 <= n <= items.len(),
        messages_of(items.take(n)) is Err,
    ensures
        messages_of(items) == messages_of(items.take(n)),
    decreases items.len() - n,
{
    if n < items.len() {
        assert(items.take(n + 1).drop_last() == items.take(n));
        lemma_messages_fail(items, n + 1);
    } else {
        assert(items.take(n) == items);
    }
}

/// Reads messages off the items of an array.
pub fn messages_from_values(items: &Vec<Value>) -> (read: Result<Vec<Message>, Error>)
    ensures
        match messages_of(value_views(items@)) {
            Ok(messages) => read matches Ok(m) && message_views(m@) == messages,
            Err(error) => read matches Err(e) && e@ == error,
        },
{
    let ghost all = value_views(items@);
    let mut messages: Vec<Message> = Vec::new();
    let mut i: usize = 0;
    assert(message_views(messages@) == Seq::<MessageView>::empty());
    while i < items.len()
        invariant
            i <= items.len(),
            all == value_views(items@),
            messages_of(all.take(i as int)) == Ok::<Seq<MessageView>, ErrorView>(
                message_views(messages@),
            ),
        decreases items.len() - i,
    {
        let ghost before = message_views(messages@);
        assert(all.take(i + 1).drop_last() == all.take(i as int));
        assert(all.take(i + 1).last() == items@[i as int]@);
        match Message::from_value(&items[i]) {
            Ok(message) => {
                messages.push(message);
                assert(message_views(messages@) == before.push(message@));
            },
            Err(error) => {
                proof {
                    lemma_messages_fail(all, i + 1);
                }
                return Err(error);
            },
        }
        i += 1;
    }
    assert(all.take(items.len() as int) == all);
    Ok(messages)
}

impl Message {
    /// Reads a message off the answer of the store; `None` where the store
    /// has no such message.
    pub fn from_answer(answer: &Value) -> (read: Result<Option<Message>, ConvexError>)
        ensures
            match message_answer(answer@) {
                Ok(Some(message)) => read matches Ok(Some(m)) && m@ == message,
                Ok(None) => read matches Ok(None),
                Err(error) => read matches Err(ConvexError::Deserialization(e)) && e@ == error,
            },
    {
        match answer {
            Value::Null => Ok(None),
            other => match Message::from_value(other) {
                Ok(message) => Ok(Some(message)),
                Err(error) => Err(ConvexError::Deserialization(error)),
            },
        }
    }
}

/// Reads the history of a message off the answer of the store; `None` where
/// the store has none.
pub fn history_from_answer(answer: &Value) -> (read: Result<Option<Vec<Message>>, ConvexError>)
    ensures
        match history_of(answer@) {
            Ok(Some(messages)) => read matches Ok(Some(m)) && message_views(m@) == messages,
            Ok(None) => read matches Ok(None),
            Err(error) => read matches Err(ConvexError::Deserialization(e)) && e@ == error,
        },
{
    match answer {
        Value::Null => Ok(None),
        Value::Array(items) => {
            proof {
                lemma_array_view(*items);
            }
            match messages_from_values(items) {
                Ok(messages) => Ok(Some(messages)),
                Err(error) => Err(ConvexError::Deserialization(error)),
            }
        },
        other => Err(ConvexError::Deserialization(Error::ExpectedSeq(other.duplicate()))),
    }
}

/// Reads the messages of a thread off the answer of the store.
pub fn thread_messages_from_answer(answer: &Value) -> (read: Result<Vec<Message>, ConvexError>)
    ensures
        match thread_messages_of(answer@) {
            Ok(messages) => read matches Ok(m) && message_views(m@) == messages,
            Err(error) => read matches Err(ConvexError::Deserialization(e)) && e@ == error,
        },
{
    let members = match answer {
        Value::Object(members) => members,
        other => {
            return Err(ConvexError::Deserialization(Error::ExpectedObject(other.duplicate())));
        },
    };
    proof {
        lemma_object_view(*members);
    }
    match find_member(members, "messages") {
        None => Err(ConvexError::Deserialization(missing_field_error("messages"))),
        Some(Value::Array(items)) => {
            proof {
                lemma_array_view(*items);
            }
            match messages_from_values(items) {
                Ok(messages) => Ok(messages),
                Err(error) => Err(ConvexError::Deserialization(error)),
            }
        },
        Some(other) => Err(ConvexError::Deserialization(Error::ExpectedSeq(other.duplicate()))),
    }
}

} // verus!
