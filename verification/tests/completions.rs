use api::json::Json;
use api::openrouter::completions::{
    decode_completion, decode_delta, frame_is_json, get_completions, pdf_plugin,
    stream_completions, stream_openrouter_chat, OpenrouterEvent, SourceItem, COMPLETIONS_PATH,
};
use api::openrouter::authorization_header;
use api::openrouter::types::{
    Annotation, ChatChoice, ChatCompletion, ChatDelta, ChatUsage, MessageRequest, PdfOptions,
    PluginRequest, ReasoningEffort, ReasoningRequest, Role, UrlCitation, UsageRequest,
};

fn from_serde(value: serde_json::Value) -> Json {
    match value {
        serde_json::Value::Null => Json::Null,
        serde_json::Value::Bool(b) => Json::Bool(b),
        serde_json::Value::Number(n) => Json::Number(n.to_string()),
        serde_json::Value::String(s) => Json::Text(s),
        serde_json::Value::Array(items) => Json::Array(items.into_iter().map(from_serde).collect()),
        serde_json::Value::Object(members) => {
            Json::Object(members.into_iter().map(|(k, v)| (k, from_serde(v))).collect())
        }
    }
}

fn json(text: &str) -> Json {
    from_serde(serde_json::from_str(text).unwrap())
}

fn text_delta(content: &str) -> ChatDelta {
    ChatDelta::Text {
        content: content.to_string(),
        reasoning: None,
        annotations: None,
    }
}

#[test]
fn decode_text_frame_with_usage() {
    let frame = json(
        r#"{"id":"gen-1","choices":[{"index":0,"delta":{"role":"assistant","content":"Hel"},"finish_reason":null}],"usage":{"prompt_tokens":12,"completion_tokens":34,"total_tokens":46}}"#,
    );
    assert_eq!(
        decode_completion(&frame),
        Some(ChatCompletion {
            choices: vec![ChatChoice { delta: text_delta("Hel") }],
            usage: Some(ChatUsage { prompt_tokens: 12, completion_tokens: 34 }),
        })
    );
}

#[test]
fn decode_checks_finish_then_refusal_then_text() {
    assert_eq!(
        decode_delta(&json(r#"{"content":"x","refusal":"r","finish_reason":"stop"}"#)),
        Some(ChatDelta::Finished { finish_reason: "stop".to_string() })
    );
    assert_eq!(
        decode_delta(&json(r#"{"content":"x","refusal":"r","finish_reason":null}"#)),
        Some(ChatDelta::Refusal { refusal: "r".to_string() })
    );
    assert_eq!(
        decode_delta(&json(r#"{"content":"x","refusal":null,"finish_reason":7}"#)),
        Some(text_delta("x"))
    );
    assert_eq!(decode_delta(&json(r#"{"refusal":"no"}"#)), Some(ChatDelta::Refusal { refusal: "no".to_string() }));
    assert_eq!(decode_delta(&json(r#"{}"#)), None);
    assert_eq!(decode_delta(&json(r#"{"content":5}"#)), None);
    assert_eq!(decode_delta(&json(r#"["content"]"#)), None);
    assert_eq!(decode_delta(&json(r#""content""#)), None);
}

#[test]
fn decode_reasoning_and_annotations() {
    let delta = json(
        r#"{"content":"","reasoning":"think","annotations":[{"type":"url_citation","url_citation":{"title":"T","url":"U","content":"C","start_index":1}}]}"#,
    );
    assert_eq!(
        decode_delta(&delta),
        Some(ChatDelta::Text {
            content: String::new(),
            reasoning: Some("think".to_string()),
            annotations: Some(vec![Annotation::UrlCitation {
                url_citation: UrlCitation {
                    title: "T".to_string(),
                    url: "U".to_string(),
                    content: "C".to_string(),
                },
            }]),
        })
    );
    assert_eq!(
        decode_delta(&json(r#"{"content":"c","reasoning":null,"annotations":null}"#)),
        Some(text_delta("c"))
    );
    assert_eq!(
        decode_delta(&json(r#"{"content":"c","annotations":[]}"#)),
        Some(ChatDelta::Text { content: "c".to_string(), reasoning: None, annotations: Some(vec![]) })
    );
}

#[test]
fn decode_refuses_malformed_members() {
    for delta in [
        r#"{"content":"c","reasoning":5}"#,
        r#"{"content":"c","annotations":{}}"#,
        r#"{"content":"c","annotations":[{"type":"other","url_citation":{"title":"T","url":"U","content":"C"}}]}"#,
        r#"{"content":"c","annotations":[{"url_citation":{"title":"T","url":"U","content":"C"}}]}"#,
        r#"{"content":"c","annotations":[{"type":"url_citation"}]}"#,
        r#"{"content":"c","annotations":[{"type":"url_citation","url_citation":{"title":"T","url":"U"}}]}"#,
        r#"{"content":"c","annotations":[{"type":"url_citation","url_citation":{"title":"T","url":"U","content":"C"}},null]}"#,
    ] {
        assert_eq!(decode_delta(&json(delta)), None, "{delta}");
    }
    for frame in [
        r#"{}"#,
        r#"{"choices":{}}"#,
        r#"{"choices":null}"#,
        r#"{"choices":[{}]}"#,
        r#"{"choices":[{"delta":{"content":"c"}},{"delta":{}}]}"#,
        r#"{"choices":[],"usage":5}"#,
        r#"{"choices":[],"usage":{"prompt_tokens":1}}"#,
        r#"{"choices":[],"usage":{"prompt_tokens":1,"completion_tokens":-1}}"#,
        r#"{"choices":[],"usage":{"prompt_tokens":1,"completion_tokens":1.5}}"#,
        r#"{"choices":[],"usage":{"prompt_tokens":1,"completion_tokens":"2"}}"#,
        r#"{"choices":[],"usage":{"prompt_tokens":4294967296,"completion_tokens":2}}"#,
        r#"[]"#,
    ] {
        assert_eq!(decode_completion(&json(frame)), None, "{frame}");
    }
}

#[test]
fn decode_usage_limits() {
    assert_eq!(
        decode_completion(&json(
            r#"{"choices":[],"usage":{"prompt_tokens":4294967295,"completion_tokens":0}}"#
        )),
        Some(ChatCompletion {
            choices: vec![],
            usage: Some(ChatUsage { prompt_tokens: u32::MAX, completion_tokens: 0 }),
        })
    );
    assert_eq!(
        decode_completion(&json(r#"{"choices":[],"usage":null}"#)),
        Some(ChatCompletion { choices: vec![], usage: None })
    );
    assert_eq!(Json::Number("007".to_string()).to_u32(), Some(7));
    assert_eq!(Json::Number("".to_string()).to_u32(), None);
    assert_eq!(Json::Number("12a".to_string()).to_u32(), None);
    assert_eq!(Json::Number("99999999999999999999999".to_string()).to_u32(), None);
    assert_eq!(Json::Text("7".to_string()).to_u32(), None);
}

#[test]
fn json_members_are_found_by_name() {
    let object = Json::Object(vec![
        ("a".to_string(), Json::Bool(true)),
        ("b".to_string(), Json::Text("x".to_string())),
        ("a".to_string(), Json::Null),
    ]);
    assert_eq!(object.get("a"), Some(&Json::Bool(true)));
    assert_eq!(object.get("c"), None);
    assert_eq!(object.get_str("b"), Some("x"));
    assert_eq!(object.get_str("a"), None);
    assert_eq!(Json::Null.get("a"), None);
    assert_eq!(Json::Text("t".to_string()).as_str(), Some("t"));
    assert_eq!(Json::Bool(false).as_str(), None);
}

#[test]
fn frames_that_are_no_json_are_passed_over() {
    assert!(frame_is_json("{\"choices\":[]}"));
    assert!(frame_is_json("{"));
    assert!(!frame_is_json("[DONE]"));
    assert!(!frame_is_json(""));
    assert!(!frame_is_json(": keep-alive"));
    assert!(!frame_is_json(" {}"));
    for data in ["[DONE]", "", "ping"] {
        let step = stream_openrouter_chat(
            SourceItem::Message { data: data.to_string(), document: None },
            false,
        );
        assert_eq!(step.event, None);
        assert!(!step.finished);
    }
}

#[test]
fn source_items_become_events() {
    let data = r#"{"choices":[{"delta":{"content":"hi"}}]}"#;
    let step = stream_openrouter_chat(
        SourceItem::Message { data: data.to_string(), document: Some(json(data)) },
        false,
    );
    assert_eq!(
        step.event,
        Some(OpenrouterEvent::Completion(ChatCompletion {
            choices: vec![ChatChoice { delta: text_delta("hi") }],
            usage: None,
        }))
    );
    assert!(!step.finished);

    let broken = stream_openrouter_chat(
        SourceItem::Message { data: "{broken".to_string(), document: None },
        true,
    );
    assert_eq!(broken.event, Some(OpenrouterEvent::Error));
    assert!(!broken.finished);

    let wrong = stream_openrouter_chat(
        SourceItem::Message { data: "{}".to_string(), document: Some(json("{}")) },
        true,
    );
    assert_eq!(wrong.event, Some(OpenrouterEvent::Error));

    let open = stream_openrouter_chat(SourceItem::Open, true);
    assert_eq!((open.event, open.finished), (None, false));
    let ended = stream_openrouter_chat(SourceItem::StreamEnded, true);
    assert_eq!((ended.event, ended.finished), (None, true));
    let failed = stream_openrouter_chat(SourceItem::Transport, true);
    assert_eq!((failed.event, failed.finished), (Some(OpenrouterEvent::Error), true));
    let content = stream_openrouter_chat(SourceItem::InvalidContentType, true);
    assert_eq!((content.event, content.finished), (Some(OpenrouterEvent::Error), false));
}

#[test]
fn unauthorized_only_with_a_key_of_the_caller() {
    let own = stream_openrouter_chat(SourceItem::InvalidStatusCode(401), true);
    assert_eq!(own.event, Some(OpenrouterEvent::Unauthorized));
    assert!(!own.finished);
    let ours = stream_openrouter_chat(SourceItem::InvalidStatusCode(401), false);
    assert_eq!(ours.event, Some(OpenrouterEvent::Error));
    let other = stream_openrouter_chat(SourceItem::InvalidStatusCode(500), true);
    assert_eq!(other.event, Some(OpenrouterEvent::Error));
}

#[test]
fn completion_requests() {
    let messages = vec![MessageRequest::text(Role::User, "hello".to_string())];
    let streamed = stream_completions("m", messages.clone(), None, Some(ReasoningEffort::High), true);
    assert_eq!(streamed.model, "m");
    assert_eq!(streamed.messages, messages);
    assert_eq!(streamed.max_tokens, None);
    assert_eq!(streamed.reasoning, Some(ReasoningRequest { effort: ReasoningEffort::High }));
    assert!(streamed.stream);
    assert_eq!(streamed.usage, Some(UsageRequest { included: true }));
    assert_eq!(
        streamed.plugins,
        vec![PluginRequest { id: "file-parser".to_string(), pdf: PdfOptions { engine: None } }]
    );
    assert_eq!(streamed.plugins, vec![pdf_plugin()]);

    let whole = get_completions("m2", vec![], Some(50), None, false);
    assert!(!whole.stream);
    assert_eq!(whole.max_tokens, Some(50));
    assert_eq!(whole.reasoning, None);
    assert!(whole.plugins.is_empty());
    assert_eq!(COMPLETIONS_PATH, "chat/completions");
}

#[test]
fn authorization_is_a_bearer_token() {
    assert_eq!(authorization_header("sk-123"), "Bearer sk-123");
    assert_eq!(authorization_header(""), "Bearer ");
}

#[test]
fn status_outside_the_two_hundreds_is_an_error() {
    use_status(200, None, true);
    use_status(204, Some("x"), true);
    use_status(299, None, true);
    use_status(199, None, false);
    use_status(300, Some("moved"), false);
    use_status(401, Some("no"), false);
    use_status(500, None, false);
}

fn use_status(status: u16, body: Option<&str>, success: bool) {
    let body = body.map(|b| b.to_string());
    let checked = api::openrouter::check_status(status, body.clone());
    if success {
        assert_eq!(checked, Ok(()));
    } else {
        assert_eq!(checked, Err(api::openrouter::OpenrouterError::NotOk(status, body)));
    }
}
