use api::convex::messages::{
    Annotation as StoredAnnotation, Message, MessagePart, MessageStatus, ModelParams,
    ReasoningEffort as StoredEffort, Role as StoredRole,
};
use api::convex::threads::Thread;
use api::convex::ConvexError;
use api::convex_serde::SerError;
use api::openrouter::types::{
    Annotation, ContentPart, MessageRequest, ReasoningEffort, Role, UrlCitation,
};
use api::routes::message::create::{
    message_to_part, messages_to_parts, openrouter_annotation_to_convex, require_history,
    require_pending, require_thread, ChatContext, CreateMessageError, CreateMessageRequest,
    ModelParamsRequest, ReasoningEffortRequest, RequestIds,
};
use api::routes::message::relay::{RelayPhase, StreamRelay};

fn request(message_id: &str, thread_id: &str, model: &str) -> CreateMessageRequest {
    CreateMessageRequest {
        thread_id: thread_id.to_string(),
        response_message_id: message_id.to_string(),
        model: model.to_string(),
        model_params: None,
        reasoning_effort: None,
    }
}

fn message(status: Option<MessageStatus>) -> Message {
    Message {
        id: "m1".to_string(),
        thread_id: "t1".to_string(),
        status,
        role: StoredRole::Assistant,
        parts: vec![],
    }
}

#[test]
fn ids_are_trimmed() {
    assert_eq!(
        request(" m1 ", "\tt1\n", "  some/model ").ids(),
        Ok(RequestIds {
            message_id: "m1".to_string(),
            thread_id: "t1".to_string(),
            model: "some/model".to_string(),
        })
    );
}

#[test]
fn blank_ids_are_refused_in_order() {
    assert_eq!(request("  ", " ", " ").ids(), Err(CreateMessageError::MessageNotFound));
    assert_eq!(request("m", " ", " ").ids(), Err(CreateMessageError::ThreadNotFound));
    assert_eq!(request("m", "t", "\n").ids(), Err(CreateMessageError::NoModelSpecified));
    assert_eq!(request("", "t", "x").ids(), Err(CreateMessageError::MessageNotFound));
}

#[test]
fn missing_records_are_refused() {
    assert_eq!(require_thread(None), Err(CreateMessageError::ThreadNotFound));
    let thread = Thread { id: "t1".to_string(), title: None };
    assert_eq!(require_thread(Some(thread.clone())), Ok(thread));
    assert_eq!(require_pending(None), Err(CreateMessageError::MessageNotFound));
    assert_eq!(require_history(None), Err(CreateMessageError::MessageNotFound));
    assert_eq!(require_history(Some(vec![])), Ok(vec![]));
}

#[test]
fn message_that_is_not_pending_is_refused() {
    for status in [Some(MessageStatus::Complete), Some(MessageStatus::Cancelled), None] {
        assert_eq!(
            require_pending(Some(message(status))),
            Err(CreateMessageError::ResponseMessageNotPending)
        );
    }
    let pending = message(Some(MessageStatus::Pending));
    assert_eq!(require_pending(Some(pending.clone())), Ok(pending));
}

#[test]
fn status_codes() {
    assert_eq!(CreateMessageError::MessageNotFound.status_code(), 404);
    assert_eq!(CreateMessageError::ThreadNotFound.status_code(), 404);
    assert_eq!(CreateMessageError::ResponseMessageNotPending.status_code(), 400);
    assert_eq!(CreateMessageError::NoModelSpecified.status_code(), 400);
    assert_eq!(CreateMessageError::Unexpected("x".to_string()).status_code(), 500);
    assert_eq!(
        CreateMessageError::Serialization(SerError::IntOutOfRange(1)).status_code(),
        500
    );
    assert_eq!(
        CreateMessageError::Convex(ConvexError::Message("x".to_string())).status_code(),
        500
    );
}

#[test]
fn stored_message_becomes_one_text_part() {
    let stored = Message {
        id: "m0".to_string(),
        thread_id: "t1".to_string(),
        status: Some(MessageStatus::Complete),
        role: StoredRole::System,
        parts: vec![
            MessagePart::Text { text: "a".to_string() },
            MessagePart::Attachment { id: "file".to_string() },
            MessagePart::Text { text: "b".to_string() },
        ],
    };
    assert_eq!(
        message_to_part(stored.clone()),
        MessageRequest {
            role: Role::System,
            content: vec![ContentPart::Text { text: "ab".to_string() }],
        }
    );
    let user = Message { role: StoredRole::User, parts: vec![], ..stored.clone() };
    assert_eq!(
        messages_to_parts(vec![stored, user]),
        vec![
            MessageRequest::text(Role::System, "ab".to_string()),
            MessageRequest::text(Role::User, String::new()),
        ]
    );
    assert_eq!(
        message_to_part(message(None)).role,
        Role::Assistant
    );
}

#[test]
fn provider_annotation_becomes_stored_annotation() {
    let annotation = Annotation::UrlCitation {
        url_citation: UrlCitation {
            title: "T".to_string(),
            url: "U".to_string(),
            content: "C".to_string(),
        },
    };
    assert_eq!(
        openrouter_annotation_to_convex(annotation),
        StoredAnnotation { title: "T".to_string(), url: "U".to_string(), content: "C".to_string() }
    );
}

#[test]
fn reasoning_effort_of_a_request() {
    assert_eq!(ReasoningEffort::from(ReasoningEffortRequest::Low), ReasoningEffort::Low);
    assert_eq!(ReasoningEffort::from(ReasoningEffortRequest::Medium), ReasoningEffort::Medium);
    assert_eq!(ReasoningEffort::from(ReasoningEffortRequest::High), ReasoningEffort::High);
    let effort: ReasoningEffort = ReasoningEffortRequest::High.into();
    assert_eq!(effort, ReasoningEffort::High);
}

#[test]
fn model_params_of_a_request() {
    for (name, effort) in [
        ("low", Some(StoredEffort::Low)),
        ("medium", Some(StoredEffort::Medium)),
        ("high", Some(StoredEffort::High)),
        ("none", None),
        ("", None),
        ("LOW", None),
    ] {
        let params = ModelParamsRequest { reasoning_effort: name.to_string(), include_search: true };
        assert_eq!(
            params.to_stored(),
            ModelParams { reasoning_effort: effort, include_search: true }
        );
    }
}

#[test]
fn context_starts_a_relay_and_its_request() {
    let payload = CreateMessageRequest {
        thread_id: "t1".to_string(),
        response_message_id: "m1".to_string(),
        model: " some/model ".to_string(),
        model_params: Some(ModelParamsRequest {
            reasoning_effort: "high".to_string(),
            include_search: false,
        }),
        reasoning_effort: Some(ReasoningEffortRequest::Medium),
    };
    let ids = payload.ids().unwrap();
    let history = vec![MessageRequest::text(Role::User, "hi".to_string())];
    let context = ChatContext::new(
        payload,
        ids,
        Some("key".to_string()),
        "title/model".to_string(),
        Thread { id: "t1".to_string(), title: None },
        message(Some(MessageStatus::Pending)),
        history.clone(),
    );
    assert_eq!(context.model, "some/model");
    assert_eq!(context.stored_model, " some/model ");
    assert!(context.set_title);
    assert!(context.using_custom_key());
    assert_eq!(context.reasoning_effort, Some(ReasoningEffort::Medium));
    assert_eq!(
        context.model_params,
        Some(ModelParams { reasoning_effort: Some(StoredEffort::High), include_search: false })
    );
    let (relay, request): (StreamRelay, _) = StreamRelay::start(context);
    assert_eq!(relay.phase(), RelayPhase::Starting);
    assert_eq!(relay.usage(0).message_id, "m1");
    assert_eq!(relay.usage(0).model, " some/model ");
    assert_eq!(request.model, "some/model");
    assert_eq!(request.messages, history);
    assert!(request.stream);
    assert!(request.plugins.is_empty());
    assert_eq!(request.max_tokens, None);
}

#[test]
fn thread_with_title_sets_none() {
    let payload = request("m1", "t1", "model");
    let ids = payload.ids().unwrap();
    let context = ChatContext::new(
        payload,
        ids,
        None,
        "title/model".to_string(),
        Thread { id: "t1".to_string(), title: Some("Named".to_string()) },
        message(Some(MessageStatus::Pending)),
        vec![],
    );
    assert!(!context.set_title);
    assert!(!context.using_custom_key());
    assert_eq!(context.model_params, None);
    assert_eq!(context.reasoning_effort, None);
}
