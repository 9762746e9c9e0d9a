use api::convex::messages::{
    append_annotations, append_reasoning, append_text, cancel, get_by_id, get_by_thread_id,
    get_until, history_from_answer, thread_messages_from_answer, Annotation, AnnotationArgs,
    Message, MessagePart, MessageStatus, Role,
};
use api::convex::threads::{self, Thread};
use api::convex::{
    attachments, auth_args, convex_mutation, convex_query, mutation_stored, parse_result,
    ConvexError, FunctionResult,
};
use api::convex_serde::de::Error;
use api::convex_serde::value::Value;
use api::routes::chat::create::args;

fn text(s: &str) -> Value {
    Value::String(s.to_string())
}

fn object(members: &[(&str, Value)]) -> Value {
    let mut sorted: Vec<(String, Value)> =
        members.iter().map(|(k, v)| (k.to_string(), v.duplicate())).collect();
    sorted.sort_by(|a, b| a.0.cmp(&b.0));
    Value::Object(sorted)
}

fn stored_message() -> Value {
    object(&[
        ("_id", text("m1")),
        ("_creationTime", Value::Float64(0)),
        ("threadId", text("t1")),
        ("status", text("pending")),
        ("role", text("assistant")),
        (
            "parts",
            Value::Array(vec![
                object(&[("type", text("text")), ("text", text("hello"))]),
                object(&[("type", text("attachment")), ("id", text("att"))]),
            ]),
        ),
    ])
}

fn message() -> Message {
    Message {
        id: "m1".to_string(),
        thread_id: "t1".to_string(),
        status: Some(MessageStatus::Pending),
        role: Role::Assistant,
        parts: vec![
            MessagePart::Text { text: "hello".to_string() },
            MessagePart::Attachment { id: "att".to_string() },
        ],
    }
}

#[test]
fn results_of_calls() {
    assert_eq!(parse_result(FunctionResult::Value(Value::Int64(1))), Ok(Value::Int64(1)));
    assert_eq!(
        parse_result(FunctionResult::ErrorMessage("bad".to_string())),
        Err(ConvexError::Message("bad".to_string()))
    );
    assert_eq!(
        parse_result(FunctionResult::ConvexError("app".to_string())),
        Err(ConvexError::Query("app".to_string()))
    );
}

#[test]
fn arguments_are_members_in_key_order() {
    assert_eq!(get_by_id("m".to_string()), vec![("id".to_string(), text("m"))]);
    assert_eq!(threads::get_by_id("t".to_string()), vec![("id".to_string(), text("t"))]);
    assert_eq!(attachments::get_by_id("a".to_string()), vec![("id".to_string(), text("a"))]);
    assert_eq!(get_by_thread_id("t".to_string()), vec![("threadId".to_string(), text("t"))]);
    assert_eq!(cancel("m".to_string()), vec![("messageId".to_string(), text("m"))]);
    assert_eq!(
        append_text("m".to_string(), "some text".to_string()),
        vec![("messageId".to_string(), text("m")), ("text".to_string(), text("some text"))]
    );
    assert_eq!(
        append_reasoning("m".to_string(), "why".to_string()),
        vec![("messageId".to_string(), text("m")), ("reasoning".to_string(), text("why"))]
    );
    assert_eq!(
        get_until("t".to_string(), "m".to_string()),
        vec![("threadId".to_string(), text("t")), ("untilId".to_string(), text("m"))]
    );
    assert_eq!(
        threads::set_title("t".to_string(), "A title".to_string()),
        vec![("threadId".to_string(), text("t")), ("title".to_string(), text("A title"))]
    );
    assert_eq!(
        args(vec![
            ("b".to_string(), "2".to_string()),
            ("a".to_string(), "1".to_string()),
            ("b".to_string(), "3".to_string()),
        ]),
        vec![("a".to_string(), text("1")), ("b".to_string(), text("3"))]
    );
}

#[test]
fn annotations_are_an_array_of_objects() {
    let call = append_annotations(&AnnotationArgs {
        message_id: "m".to_string(),
        annotations: vec![Annotation {
            title: "T".to_string(),
            url: "U".to_string(),
            content: "C".to_string(),
        }],
    });
    assert_eq!(
        call,
        vec![
            (
                "annotations".to_string(),
                Value::Array(vec![Value::Object(vec![
                    ("content".to_string(), text("C")),
                    ("title".to_string(), text("T")),
                    ("url".to_string(), text("U")),
                ])])
            ),
            ("messageId".to_string(), text("m")),
        ]
    );
}

#[test]
fn the_key_of_the_service_is_added() {
    let mut call = vec![("id".to_string(), text("m"))];
    auth_args("secret", &mut call);
    assert_eq!(call, vec![("apiKey".to_string(), text("secret")), ("id".to_string(), text("m"))]);
    assert_eq!(convex_query("k", vec![]), vec![("apiKey".to_string(), text("k"))]);
    assert_eq!(
        convex_mutation("k2", vec![("apiKey".to_string(), text("old")), ("z".to_string(), Value::Null)]),
        vec![("apiKey".to_string(), text("k2")), ("z".to_string(), Value::Null)]
    );
}

#[test]
fn mutation_answers() {
    assert_eq!(mutation_stored(&Value::Null), Ok(false));
    assert_eq!(mutation_stored(&object(&[("_id", text("m1"))])), Ok(true));
    assert_eq!(
        mutation_stored(&object(&[])),
        Err(ConvexError::Deserialization(Error::Custom("missing field `_id`".to_string())))
    );
    assert_eq!(
        mutation_stored(&object(&[("_id", Value::Int64(1))])),
        Err(ConvexError::Deserialization(Error::ExpectedString(Value::Int64(1))))
    );
    assert_eq!(
        mutation_stored(&Value::Boolean(true)),
        Err(ConvexError::Deserialization(Error::ExpectedObject(Value::Boolean(true))))
    );
}

#[test]
fn thread_answers() {
    assert_eq!(Thread::from_answer(&Value::Null), Ok(None));
    assert_eq!(
        Thread::from_answer(&object(&[("_id", text("t1")), ("title", text("Named"))])),
        Ok(Some(Thread { id: "t1".to_string(), title: Some("Named".to_string()) }))
    );
    assert_eq!(
        Thread::from_answer(&object(&[("_id", text("t1")), ("other", Value::Int64(1))])),
        Ok(Some(Thread { id: "t1".to_string(), title: None }))
    );
    assert_eq!(
        Thread::from_answer(&object(&[("_id", text("t1")), ("title", Value::Null)])),
        Ok(Some(Thread { id: "t1".to_string(), title: None }))
    );
    assert_eq!(
        Thread::from_answer(&object(&[("_id", text("t1")), ("title", Value::Int64(3))])),
        Err(ConvexError::Deserialization(Error::ExpectedString(Value::Int64(3))))
    );
    assert_eq!(
        Thread::from_answer(&Value::Array(vec![])),
        Err(ConvexError::Deserialization(Error::ExpectedObject(Value::Array(vec![]))))
    );
}

#[test]
fn message_answers() {
    assert_eq!(Message::from_answer(&Value::Null), Ok(None));
    assert_eq!(Message::from_answer(&stored_message()), Ok(Some(message())));
    assert_eq!(Message::from_value(&stored_message()), Ok(message()));
    let without_status = object(&[
        ("_id", text("m1")),
        ("threadId", text("t1")),
        ("role", text("user")),
        ("parts", Value::Array(vec![])),
    ]);
    assert_eq!(
        Message::from_value(&without_status),
        Ok(Message {
            id: "m1".to_string(),
            thread_id: "t1".to_string(),
            status: None,
            role: Role::User,
            parts: vec![],
        })
    );
}

#[test]
fn message_faults() {
    let base = [
        ("_id", text("m1")),
        ("threadId", text("t1")),
        ("status", text("complete")),
        ("role", text("system")),
        ("parts", Value::Array(vec![])),
    ];
    let with = |key: &str, value: Option<Value>| {
        let members: Vec<(&str, Value)> = base
            .iter()
            .filter(|(k, _)| *k != key)
            .map(|(k, v)| (*k, v.duplicate()))
            .chain(value.map(|v| (key, v)))
            .map(|(k, v)| (if k == key { key } else { k }, v))
            .collect();
        let owned: Vec<(String, Value)> =
            members.into_iter().map(|(k, v)| (k.to_string(), v)).collect();
        let mut sorted = owned;
        sorted.sort_by(|a, b| a.0.cmp(&b.0));
        Value::Object(sorted)
    };
    assert_eq!(Message::from_value(&with("none", None)).unwrap().status, Some(MessageStatus::Complete));
    assert_eq!(
        Message::from_value(&with("_id", None)),
        Err(Error::Custom("missing field `_id`".to_string()))
    );
    assert_eq!(
        Message::from_value(&with("role", None)),
        Err(Error::Custom("missing field `role`".to_string()))
    );
    assert_eq!(
        Message::from_value(&with("parts", None)),
        Err(Error::Custom("missing field `parts`".to_string()))
    );
    assert_eq!(
        Message::from_value(&with("status", Some(text("done")))),
        Err(Error::Custom("unknown variant `done`".to_string()))
    );
    assert_eq!(
        Message::from_value(&with("status", Some(Value::Int64(1)))),
        Err(Error::ExpectedEnum(Value::Int64(1)))
    );
    assert_eq!(
        Message::from_value(&with("role", Some(text("tool")))),
        Err(Error::Custom("unknown variant `tool`".to_string()))
    );
    assert_eq!(
        Message::from_value(&with("parts", Some(text("x")))),
        Err(Error::ExpectedSeq(text("x")))
    );
    assert_eq!(
        Message::from_value(&with(
            "parts",
            Some(Value::Array(vec![object(&[("type", text("image"))])]))
        )),
        Err(Error::Custom("unknown variant `image`".to_string()))
    );
    assert_eq!(
        Message::from_value(&with(
            "parts",
            Some(Value::Array(vec![object(&[("type", text("text"))])]))
        )),
        Err(Error::Custom("missing field `text`".to_string()))
    );
    assert_eq!(
        Message::from_value(&Value::Int64(1)),
        Err(Error::ExpectedObject(Value::Int64(1)))
    );
}

#[test]
fn history_answers() {
    assert_eq!(history_from_answer(&Value::Null), Ok(None));
    assert_eq!(history_from_answer(&Value::Array(vec![])), Ok(Some(vec![])));
    assert_eq!(
        history_from_answer(&Value::Array(vec![stored_message(), stored_message()])),
        Ok(Some(vec![message(), message()]))
    );
    assert_eq!(
        history_from_answer(&Value::Array(vec![stored_message(), Value::Null])),
        Err(ConvexError::Deserialization(Error::ExpectedObject(Value::Null)))
    );
    assert_eq!(
        history_from_answer(&text("x")),
        Err(ConvexError::Deserialization(Error::ExpectedSeq(text("x"))))
    );
    assert_eq!(
        thread_messages_from_answer(&object(&[("messages", Value::Array(vec![stored_message()]))])),
        Ok(vec![message()])
    );
    assert_eq!(
        thread_messages_from_answer(&object(&[])),
        Err(ConvexError::Deserialization(Error::Custom("missing field `messages`".to_string())))
    );
    assert_eq!(
        thread_messages_from_answer(&Value::Null),
        Err(ConvexError::Deserialization(Error::ExpectedObject(Value::Null)))
    );
}

#[test]
fn value_duplicate_is_equal() {
    let value = stored_message();
    assert_eq!(value.duplicate(), value);
}

#[test]
fn completion_arguments_without_numbers() {
    use_complete(None, Value::Null);
    use_complete(
        Some(api::convex::messages::ModelParams {
            reasoning_effort: Some(api::convex::messages::ReasoningEffort::Medium),
            include_search: true,
        }),
        Value::Object(vec![
            ("includeSearch".to_string(), Value::Boolean(true)),
            ("reasoningEffort".to_string(), text("medium")),
        ]),
    );
    use_complete(
        Some(api::convex::messages::ModelParams { reasoning_effort: None, include_search: false }),
        Value::Object(vec![
            ("includeSearch".to_string(), Value::Boolean(false)),
            ("reasoningEffort".to_string(), Value::Null),
        ]),
    );
}

fn use_complete(model_params: Option<api::convex::messages::ModelParams>, expected: Value) {
    let args = api::convex::messages::CompleteMessageArgs {
        message_id: "m".to_string(),
        model: "some/model".to_string(),
        model_params,
        time_to_first_token_ms: 1,
        prompt_token_count: 2,
        token_count: 3,
        duration_ms: 4,
        tokens_per_second: api::convex::messages::TokenRate { numerator: 3000, denominator: 4 },
    };
    assert_eq!(
        api::convex::messages::complete(&args),
        vec![
            ("messageId".to_string(), text("m")),
            ("model".to_string(), text("some/model")),
            ("modelParams".to_string(), expected),
        ]
    );
}
