use api::convex::messages::{
    Annotation, AnnotationArgs, CompleteMessageArgs, Message, MessagePart, MessageStatus,
    ModelParams, ReasoningEffort, Role, TokenRate,
};
use api::openrouter::completions::OpenrouterEvent;
use api::openrouter::title::{TITLE_GENERATION_PROMPT, TITLE_GENERATION_SYSTEM_MESSAGE};
use api::openrouter::types::{
    Annotation as ProviderAnnotation, ChatChoice, ChatCompletion, ChatDelta, ChatUsage,
    CompletionChoice, CompletionResponse, ContentPart, MessageResponse, UrlCitation,
};
use api::openrouter::types::Role as ProviderRole;
use api::routes::message::create::{ChatEvent, StreamChatError};
use api::routes::message::relay::{
    tokens_per_second, CompletingStep, RelayAction, RelayEvent, RelayPhase, RelayStep, StoreCall,
    StreamRelay, FLUSH_THRESHOLD,
};

fn relay(set_title: bool) -> StreamRelay {
    StreamRelay::new(
        "msg-1".to_string(),
        "thread-1".to_string(),
        "some/model".to_string(),
        Some(ModelParams {
            reasoning_effort: Some(ReasoningEffort::Low),
            include_search: true,
        }),
        set_title,
        "title/model".to_string(),
    )
}

fn streaming(set_title: bool) -> StreamRelay {
    let mut relay = relay(set_title);
    let step = relay.step(RelayEvent::SourceOpened);
    assert!(step.actions.is_empty());
    assert_eq!(step.outcome, None);
    assert_eq!(relay.phase(), RelayPhase::Streaming);
    relay
}

fn frame(delta: ChatDelta, usage: Option<ChatUsage>) -> RelayEvent {
    frame_at(delta, usage, 10)
}

fn frame_at(delta: ChatDelta, usage: Option<ChatUsage>, elapsed_ms: u64) -> RelayEvent {
    RelayEvent::Provider {
        event: Some(OpenrouterEvent::Completion(ChatCompletion {
            choices: vec![ChatChoice { delta }],
            usage,
        })),
        elapsed_ms,
    }
}

fn text(content: &str) -> ChatDelta {
    ChatDelta::Text {
        content: content.to_string(),
        reasoning: None,
        annotations: None,
    }
}

fn reasoning(thought: &str) -> ChatDelta {
    ChatDelta::Text {
        content: "ignored".to_string(),
        reasoning: Some(thought.to_string()),
        annotations: None,
    }
}

fn closed(elapsed_ms: u64) -> RelayEvent {
    RelayEvent::Provider { event: None, elapsed_ms }
}

fn appended_text(actions: &[RelayAction]) -> String {
    let mut all = String::new();
    for action in actions {
        if let RelayAction::AppendText { text, .. } = action {
            all.push_str(text);
        }
    }
    all
}

fn emitted(actions: &[RelayAction]) -> Vec<ChatEvent> {
    actions
        .iter()
        .filter_map(|action| match action {
            RelayAction::Emit(event) => Some(event.clone()),
            _ => None,
        })
        .collect()
}

fn run(relay: &mut StreamRelay, events: Vec<RelayEvent>) -> (Vec<RelayAction>, Option<Result<(), StreamChatError>>) {
    let mut actions = Vec::new();
    let mut outcome = None;
    for event in events {
        let RelayStep { actions: more, outcome: ended } = relay.step(event);
        actions.extend(more);
        if ended.is_some() {
            outcome = ended;
        }
    }
    (actions, outcome)
}

fn usage_args(ttft: u64, prompt: u32, tokens: u32, duration_ms: u64, rate: TokenRate) -> CompleteMessageArgs {
    CompleteMessageArgs {
        message_id: "msg-1".to_string(),
        model: "some/model".to_string(),
        model_params: Some(ModelParams {
            reasoning_effort: Some(ReasoningEffort::Low),
            include_search: true,
        }),
        time_to_first_token_ms: ttft,
        prompt_token_count: prompt,
        token_count: tokens,
        duration_ms,
        tokens_per_second: rate,
    }
}

#[test]
fn tokens_per_second_divides_tokens_by_seconds() {
    let rate = tokens_per_second(100, 1000);
    assert_eq!(rate, TokenRate { numerator: 100_000, denominator: 1000 });
    assert_eq!(rate.numerator as f64 / rate.denominator as f64, 100.0);
    let half = tokens_per_second(100, 500);
    assert_eq!(half.numerator as f64 / half.denominator as f64, 200.0);
}

#[test]
fn tokens_per_second_without_duration_is_the_token_count() {
    let rate = tokens_per_second(100, 0);
    assert_eq!(rate, TokenRate { numerator: 100, denominator: 1 });
    assert_eq!(rate.numerator as f64 / rate.denominator as f64, 100.0);
    assert_eq!(tokens_per_second(u32::MAX, 1).numerator, u32::MAX as u64 * 1000);
}

#[test]
fn text_is_sent_sanitized_and_buffered_raw() {
    let mut relay = streaming(false);
    let step = relay.step(frame(text("a\r\nb"), None));
    assert_eq!(step.actions, vec![RelayAction::Emit(ChatEvent::Text("a\\nb".to_string()))]);
    assert_eq!(step.outcome, None);
    assert_eq!(relay.buffered_text(), "a\r\nb");
    assert_eq!(relay.buffered_reasoning(), "");
    assert_eq!(relay.phase(), RelayPhase::Streaming);
}

#[test]
fn reasoning_wins_over_content() {
    let mut relay = streaming(false);
    let step = relay.step(frame(reasoning("hm\n"), None));
    assert_eq!(step.actions, vec![RelayAction::Emit(ChatEvent::Reasoning("hm\\n".to_string()))]);
    assert_eq!(relay.buffered_text(), "");
    assert_eq!(relay.buffered_reasoning(), "hm\n");
}

#[test]
fn buffer_flushes_at_one_hundred_scalar_values() {
    assert_eq!(FLUSH_THRESHOLD, 100);
    let mut relay = streaming(false);
    let ninety_nine = "x".repeat(99);
    let step = relay.step(frame(text(&ninety_nine), None));
    assert_eq!(step.actions.len(), 1);
    assert_eq!(relay.buffered_text(), ninety_nine);
    let step = relay.step(frame(text("y"), None));
    assert_eq!(
        step.actions,
        vec![
            RelayAction::Emit(ChatEvent::Text("y".to_string())),
            RelayAction::AppendText {
                message_id: "msg-1".to_string(),
                text: format!("{ninety_nine}y"),
            },
        ]
    );
    assert_eq!(relay.buffered_text(), "");
}

#[test]
fn threshold_counts_scalar_values_not_bytes() {
    let mut relay = streaming(false);
    let fifty = "\u{e9}".repeat(50);
    assert_eq!(fifty.len(), 100);
    let step = relay.step(frame(text(&fifty), None));
    assert_eq!(step.actions.len(), 1);
    assert_eq!(relay.buffered_text(), fifty);
    let step = relay.step(frame(text(&fifty), None));
    assert_eq!(step.actions.len(), 2);
    assert_eq!(relay.buffered_text(), "");
}

#[test]
fn reasoning_buffer_flushes_on_its_own() {
    let mut relay = streaming(false);
    relay.step(frame(text("keep"), None));
    let long = "r".repeat(120);
    let step = relay.step(frame(reasoning(&long), None));
    assert_eq!(
        step.actions,
        vec![
            RelayAction::Emit(ChatEvent::Reasoning(long.clone())),
            RelayAction::AppendReasoning {
                message_id: "msg-1".to_string(),
                reasoning: long,
            },
        ]
    );
    assert_eq!(relay.buffered_text(), "keep");
    assert_eq!(relay.buffered_reasoning(), "");
}

#[test]
fn annotations_are_sent_and_appended_before_the_text() {
    let mut relay = streaming(false);
    let delta = ChatDelta::Text {
        content: "see".to_string(),
        reasoning: None,
        annotations: Some(vec![ProviderAnnotation::UrlCitation {
            url_citation: UrlCitation {
                title: "T".to_string(),
                url: "https://example.org".to_string(),
                content: "C".to_string(),
            },
        }]),
    };
    let stored = Annotation {
        title: "T".to_string(),
        url: "https://example.org".to_string(),
        content: "C".to_string(),
    };
    let step = relay.step(frame(delta, None));
    assert_eq!(
        step.actions,
        vec![
            RelayAction::Emit(ChatEvent::Annotations(vec![stored.clone()])),
            RelayAction::AppendAnnotations(AnnotationArgs {
                message_id: "msg-1".to_string(),
                annotations: vec![stored],
            }),
            RelayAction::Emit(ChatEvent::Text("see".to_string())),
        ]
    );
}

#[test]
fn empty_annotation_list_does_nothing() {
    let mut relay = streaming(false);
    let delta = ChatDelta::Text {
        content: "x".to_string(),
        reasoning: None,
        annotations: Some(vec![]),
    };
    let step = relay.step(frame(delta, None));
    assert_eq!(step.actions, vec![RelayAction::Emit(ChatEvent::Text("x".to_string()))]);
}

#[test]
fn frame_without_choices_keeps_usage_only() {
    let mut relay = streaming(false);
    let step = relay.step(RelayEvent::Provider {
        event: Some(OpenrouterEvent::Completion(ChatCompletion {
            choices: vec![],
            usage: Some(ChatUsage { prompt_tokens: 7, completion_tokens: 9 }),
        })),
        elapsed_ms: 5,
    });
    assert!(step.actions.is_empty());
    assert_eq!(relay.usage(1000), usage_args(0, 7, 9, 1000, TokenRate { numerator: 9000, denominator: 1000 }));
}

#[test]
fn usage_is_last_write_wins_and_first_token_is_latched() {
    let mut relay = streaming(false);
    relay.step(frame_at(text("a"), Some(ChatUsage { prompt_tokens: 1, completion_tokens: 2 }), 30));
    relay.step(frame_at(text("b"), None, 60));
    relay.step(frame_at(reasoning("c"), Some(ChatUsage { prompt_tokens: 3, completion_tokens: 100 }), 90));
    let step = relay.step(frame_at(
        ChatDelta::Finished { finish_reason: "stop".to_string() },
        Some(ChatUsage { prompt_tokens: 4, completion_tokens: 100 }),
        1000,
    ));
    assert_eq!(
        step.actions,
        vec![
            RelayAction::AppendText { message_id: "msg-1".to_string(), text: "ab".to_string() },
            RelayAction::AppendReasoning { message_id: "msg-1".to_string(), reasoning: "c".to_string() },
            RelayAction::Emit(ChatEvent::End),
            RelayAction::Complete(usage_args(30, 4, 100, 1000, TokenRate { numerator: 100_000, denominator: 1000 })),
        ]
    );
    assert_eq!(relay.phase(), RelayPhase::Completing(CompletingStep::Storing));
}

#[test]
fn first_token_at_zero_is_not_overwritten() {
    let mut relay = streaming(false);
    relay.step(frame_at(text("a"), None, 0));
    relay.step(frame_at(text("b"), None, 50));
    assert_eq!(relay.usage(0).time_to_first_token_ms, 0);
    assert_eq!(relay.usage(0).tokens_per_second, TokenRate { numerator: 0, denominator: 1 });
    let mut late = streaming(false);
    late.step(frame_at(text("a"), None, 50));
    late.step(frame_at(text("b"), None, 70));
    assert_eq!(late.usage(80).time_to_first_token_ms, 50);
}

#[test]
fn every_terminal_item_finishes_the_turn() {
    let cases: Vec<(RelayEvent, ChatEvent)> = vec![
        (closed(1), ChatEvent::End),
        (RelayEvent::Provider { event: Some(OpenrouterEvent::Error), elapsed_ms: 1 }, ChatEvent::Error),
        (
            RelayEvent::Provider { event: Some(OpenrouterEvent::Unauthorized), elapsed_ms: 1 },
            ChatEvent::Unauthorized,
        ),
        (
            frame_at(ChatDelta::Refusal { refusal: "no\n".to_string() }, None, 1),
            ChatEvent::Refusal("no\n".to_string()),
        ),
        (
            frame_at(ChatDelta::Finished { finish_reason: "length".to_string() }, None, 1),
            ChatEvent::End,
        ),
    ];
    for (event, terminal) in cases {
        let mut relay = streaming(false);
        let step = relay.step(event);
        assert_eq!(emitted(&step.actions), vec![terminal]);
        assert!(matches!(step.actions.last(), Some(RelayAction::Complete(_))));
        assert_eq!(relay.phase(), RelayPhase::Completing(CompletingStep::Storing));
        assert!(!relay.is_terminated());
    }
}

#[test]
fn appended_text_equals_text_deltas_in_order() {
    let mut relay = relay(false);
    let chunks: Vec<String> = (0..40).map(|i| format!("chunk-{i}\n")).collect();
    let mut events = vec![RelayEvent::SourceOpened];
    for (i, chunk) in chunks.iter().enumerate() {
        events.push(frame(text(chunk), None));
        if i % 3 == 0 {
            events.push(frame(reasoning("thinking"), None));
        }
    }
    events.push(closed(99));
    events.push(RelayEvent::Completed { stored: true });
    let (actions, outcome) = run(&mut relay, events);
    assert_eq!(appended_text(&actions), chunks.concat());
    assert_eq!(outcome, Some(Ok(())));
    let appends = actions
        .iter()
        .filter(|a| matches!(a, RelayAction::AppendText { .. }))
        .count();
    assert!(appends >= 2);
    assert!(relay.is_terminated());
}

#[test]
fn exactly_one_terminal_event_is_sent_and_it_is_last() {
    let mut relay = relay(true);
    let (actions, outcome) = run(
        &mut relay,
        vec![
            RelayEvent::SourceOpened,
            frame(text("hello"), None),
            closed(5),
            closed(6),
            RelayEvent::Kill,
            RelayEvent::Completed { stored: true },
            RelayEvent::History { messages: vec![] },
            RelayEvent::Title { reply: reply(&["A title"]) },
            RelayEvent::TitleStored { stored: true },
            frame(text("late"), None),
        ],
    );
    let sent = emitted(&actions);
    assert_eq!(sent.iter().filter(|e| e.is_terminal()).count(), 1);
    assert_eq!(sent.last(), Some(&ChatEvent::End));
    assert_eq!(sent, vec![ChatEvent::Text("hello".to_string()), ChatEvent::End]);
    assert_eq!(outcome, Some(Ok(())));
}

#[test]
fn cancellation_before_any_frame() {
    let mut relay = relay(true);
    let (actions, outcome) = run(
        &mut relay,
        vec![RelayEvent::SourceOpened, RelayEvent::Kill, RelayEvent::Cancelled { stored: true }],
    );
    assert_eq!(
        actions,
        vec![
            RelayAction::CancelUpstream,
            RelayAction::CancelMessage { message_id: "msg-1".to_string() },
            RelayAction::Emit(ChatEvent::Cancelled),
        ]
    );
    assert_eq!(appended_text(&actions), "");
    assert_eq!(outcome, Some(Ok(())));
    assert_eq!(relay.phase(), RelayPhase::Terminated);
}

#[test]
fn cancellation_discards_what_is_buffered() {
    let mut relay = relay(false);
    let flushed = "f".repeat(100);
    let (actions, outcome) = run(
        &mut relay,
        vec![
            RelayEvent::SourceOpened,
            frame(text(&flushed), None),
            frame(text("buffered"), None),
            RelayEvent::Kill,
            frame(text("after"), None),
            closed(7),
            RelayEvent::Cancelled { stored: false },
            RelayEvent::Completed { stored: true },
        ],
    );
    assert_eq!(appended_text(&actions), flushed);
    assert_eq!(relay.buffered_text(), "buffered");
    assert_eq!(emitted(&actions).last(), Some(&ChatEvent::Cancelled));
    assert!(!actions.iter().any(|a| matches!(a, RelayAction::Complete(_))));
    assert_eq!(outcome, Some(Ok(())));
}

#[test]
fn kill_is_obeyed_only_while_streaming() {
    let mut starting = relay(false);
    assert!(starting.step(RelayEvent::Kill).actions.is_empty());
    assert_eq!(starting.phase(), RelayPhase::Starting);
    let mut completing = streaming(false);
    completing.step(closed(1));
    assert!(completing.step(RelayEvent::Kill).actions.is_empty());
    assert_eq!(completing.phase(), RelayPhase::Completing(CompletingStep::Storing));
}

fn reply(contents: &[&str]) -> CompletionResponse {
    CompletionResponse {
        id: "gen".to_string(),
        choices: contents
            .iter()
            .map(|content| CompletionChoice {
                message: MessageResponse {
                    role: ProviderRole::Assistant,
                    content: content.to_string(),
                },
            })
            .collect(),
    }
}

#[test]
fn title_is_generated_once_and_set_once() {
    let mut relay = relay(true);
    let history = vec![Message {
        id: "m0".to_string(),
        thread_id: "thread-1".to_string(),
        status: Some(MessageStatus::Complete),
        role: Role::User,
        parts: vec![
            MessagePart::Text { text: "Hi ".to_string() },
            MessagePart::Attachment { id: "att".to_string() },
            MessagePart::Text { text: "there".to_string() },
        ],
    }];
    let (actions, outcome) = run(
        &mut relay,
        vec![
            RelayEvent::SourceOpened,
            closed(3),
            RelayEvent::Completed { stored: true },
            RelayEvent::History { messages: history },
            RelayEvent::Title { reply: reply(&[" \"Greet", "ings\" \n"]) },
            RelayEvent::TitleStored { stored: true },
        ],
    );
    assert_eq!(outcome, Some(Ok(())));
    let requests: Vec<_> = actions
        .iter()
        .filter_map(|a| match a {
            RelayAction::GenerateTitle { thread_id, request } => Some((thread_id.clone(), request.clone())),
            _ => None,
        })
        .collect();
    assert_eq!(requests.len(), 1);
    let (thread_id, request) = &requests[0];
    assert_eq!(thread_id, "thread-1");
    assert_eq!(request.model, "title/model");
    assert_eq!(request.max_tokens, Some(50));
    assert!(!request.stream);
    assert_eq!(request.messages.len(), 3);
    assert_eq!(request.messages[0].role, ProviderRole::System);
    assert_eq!(
        request.messages[0].content,
        vec![ContentPart::Text { text: TITLE_GENERATION_SYSTEM_MESSAGE.to_string() }]
    );
    assert_eq!(request.messages[1].role, ProviderRole::User);
    assert_eq!(
        request.messages[1].content,
        vec![ContentPart::Text { text: "Hi there".to_string() }]
    );
    assert_eq!(
        request.messages[2].content,
        vec![ContentPart::Text { text: TITLE_GENERATION_PROMPT.to_string() }]
    );
    let titles: Vec<_> = actions
        .iter()
        .filter(|a| matches!(a, RelayAction::SetTitle { .. }))
        .collect();
    assert_eq!(
        titles,
        vec![&RelayAction::SetTitle {
            thread_id: "thread-1".to_string(),
            title: "Greetings".to_string(),
        }]
    );
    assert!(actions.contains(&RelayAction::FetchHistory { thread_id: "thread-1".to_string() }));
}

#[test]
fn title_is_generated_even_without_messages() {
    let mut relay = relay(true);
    let (actions, outcome) = run(
        &mut relay,
        vec![
            RelayEvent::SourceOpened,
            closed(3),
            RelayEvent::Completed { stored: true },
            RelayEvent::History { messages: vec![] },
            RelayEvent::Title { reply: reply(&["Untitled"]) },
            RelayEvent::TitleStored { stored: true },
        ],
    );
    assert_eq!(outcome, Some(Ok(())));
    assert_eq!(actions.iter().filter(|a| matches!(a, RelayAction::GenerateTitle { .. })).count(), 1);
    assert_eq!(actions.iter().filter(|a| matches!(a, RelayAction::SetTitle { .. })).count(), 1);
}

#[test]
fn thread_with_title_asks_for_none() {
    let mut relay = relay(false);
    let (actions, outcome) = run(
        &mut relay,
        vec![RelayEvent::SourceOpened, closed(3), RelayEvent::Completed { stored: true }],
    );
    assert_eq!(outcome, Some(Ok(())));
    assert!(!actions.iter().any(|a| matches!(
        a,
        RelayAction::FetchHistory { .. } | RelayAction::GenerateTitle { .. } | RelayAction::SetTitle { .. }
    )));
}

#[test]
fn failures_end_the_relay_with_their_error() {
    let mut refused = streaming(true);
    refused.step(closed(1));
    let step = refused.step(RelayEvent::Completed { stored: false });
    assert_eq!(step.outcome, Some(Err(StreamChatError::CompleteMessage)));
    assert!(step.actions.is_empty());
    assert!(refused.is_terminated());

    let mut empty_title = streaming(true);
    run(
        &mut empty_title,
        vec![closed(1), RelayEvent::Completed { stored: true }, RelayEvent::History { messages: vec![] }],
    );
    let step = empty_title.step(RelayEvent::Title { reply: reply(&[" \"\" "]) });
    assert_eq!(
        step.outcome,
        Some(Err(StreamChatError::Unexpected(
            "Generated title is empty for thread: thread-1".to_string()
        )))
    );

    let mut title_refused = streaming(true);
    run(
        &mut title_refused,
        vec![
            closed(1),
            RelayEvent::Completed { stored: true },
            RelayEvent::History { messages: vec![] },
            RelayEvent::Title { reply: reply(&["ok"]) },
        ],
    );
    let step = title_refused.step(RelayEvent::TitleStored { stored: false });
    assert_eq!(step.outcome, Some(Err(StreamChatError::SetThreadTitle)));

    for (call, error) in [
        (StoreCall::AppendText, StreamChatError::AppendText),
        (StoreCall::AppendReasoning, StreamChatError::AppendText),
        (StoreCall::AppendAnnotations, StreamChatError::AppendAnnotations),
    ] {
        let mut relay = streaming(false);
        let step = relay.step(RelayEvent::Rejected { call });
        assert_eq!(step.outcome, Some(Err(error)));
        assert!(relay.is_terminated());
        assert!(relay.step(closed(1)).actions.is_empty());
    }

    let mut unopened = relay(false);
    let step = unopened.step(RelayEvent::Failed {
        error: StreamChatError::OpenRouter("no stream".to_string()),
    });
    assert_eq!(step.outcome, Some(Err(StreamChatError::OpenRouter("no stream".to_string()))));
    assert!(unopened.step(RelayEvent::SourceOpened).actions.is_empty());
    assert!(unopened.is_terminated());
}

#[test]
fn events_out_of_phase_change_nothing() {
    let mut relay = relay(true);
    for event in [
        closed(1),
        RelayEvent::Cancelled { stored: true },
        RelayEvent::Completed { stored: true },
        RelayEvent::History { messages: vec![] },
        RelayEvent::Title { reply: reply(&["x"]) },
        RelayEvent::TitleStored { stored: true },
    ] {
        let step = relay.step(event);
        assert!(step.actions.is_empty());
        assert_eq!(step.outcome, None);
        assert_eq!(relay.phase(), RelayPhase::Starting);
    }
}

#[test]
fn refused_append_while_streaming_sends_no_terminal_event() {
    let mut relay = relay(true);
    let (actions, outcome) = run(
        &mut relay,
        vec![
            RelayEvent::SourceOpened,
            frame(text(&"x".repeat(100)), None),
            RelayEvent::Rejected { call: StoreCall::AppendText },
            closed(9),
        ],
    );
    assert_eq!(outcome, Some(Err(StreamChatError::AppendText)));
    assert_eq!(emitted(&actions).iter().filter(|e| e.is_terminal()).count(), 0);
    assert!(relay.is_terminated());
}

#[test]
fn failure_while_completing_ends_the_relay() {
    let mut relay = relay(true);
    let (actions, outcome) = run(
        &mut relay,
        vec![
            RelayEvent::SourceOpened,
            closed(9),
            RelayEvent::Failed { error: StreamChatError::OpenRouter("late".to_string()) },
            RelayEvent::Completed { stored: true },
        ],
    );
    assert_eq!(outcome, Some(Err(StreamChatError::OpenRouter("late".to_string()))));
    assert_eq!(emitted(&actions), vec![ChatEvent::End]);
}

#[test]
fn refused_last_flush_ends_the_relay_with_its_error() {
    let mut relay = relay(true);
    let (actions, outcome) = run(
        &mut relay,
        vec![
            RelayEvent::SourceOpened,
            frame(text("tail"), None),
            closed(9),
            RelayEvent::Rejected { call: StoreCall::AppendText },
            RelayEvent::Completed { stored: true },
        ],
    );
    assert_eq!(outcome, Some(Err(StreamChatError::AppendText)));
    assert!(relay.is_terminated());
    assert!(!actions.iter().any(|a| matches!(a, RelayAction::FetchHistory { .. })));
    let flush = actions
        .iter()
        .position(|a| matches!(a, RelayAction::AppendText { .. }))
        .unwrap();
    let end = actions
        .iter()
        .position(|a| matches!(a, RelayAction::Emit(ChatEvent::End)))
        .unwrap();
    assert!(flush < end);
}
