use api::convex::messages::Annotation;
use api::json::quoted;
use api::routes::message::create::{
    annotations_to_json, client_frames, sanitize_text, ChatEvent, ClientFrame,
};

fn annotation(title: &str, url: &str, content: &str) -> Annotation {
    Annotation {
        title: title.to_string(),
        url: url.to_string(),
        content: content.to_string(),
    }
}

fn all_kinds() -> Vec<ChatEvent> {
    vec![
        ChatEvent::Text("plain text".to_string()),
        ChatEvent::Text(String::new()),
        ChatEvent::Text("0:tag-like: text".to_string()),
        ChatEvent::Reasoning("thinking\\nhard".to_string()),
        ChatEvent::Annotations(vec![]),
        ChatEvent::Annotations(vec![annotation("T", "https://example.org/?q=1", "C")]),
        ChatEvent::Annotations(vec![
            annotation("quote \" and \\ backslash", "u\u{8}\u{c}\n\r\t", "\u{1}\u{1f}\u{7f}"),
            annotation("", "", ""),
            annotation("],[{\"title\":\"x\"}", "\u{e9}\u{4e2d}\u{1f600}", "a/b"),
        ]),
        ChatEvent::Error,
        ChatEvent::Cancelled,
        ChatEvent::Refusal("I cannot help with that".to_string()),
        ChatEvent::End,
        ChatEvent::Unauthorized,
    ]
}

#[test]
fn every_event_has_its_tag() {
    assert_eq!(ChatEvent::Text("hi".to_string()).into_string(), "0:hi");
    assert_eq!(ChatEvent::Reasoning("hm".to_string()).into_string(), "1:hm");
    assert_eq!(ChatEvent::Annotations(vec![]).into_string(), "2:[]");
    assert_eq!(ChatEvent::Error.into_string(), "3:");
    assert_eq!(ChatEvent::Cancelled.into_string(), "4:");
    assert_eq!(ChatEvent::Refusal("no".to_string()).into_string(), "5:no");
    assert_eq!(ChatEvent::End.into_string(), "6:");
    assert_eq!(ChatEvent::Unauthorized.into_string(), "7:");
}

#[test]
fn annotations_are_a_json_array_of_objects() {
    let event = ChatEvent::Annotations(vec![
        annotation("A \"title\"", "https://a.example", "line\nbreak"),
        annotation("B", "https://b.example", "tab\there"),
    ]);
    assert_eq!(
        event.into_string(),
        "2:[{\"title\":\"A \\\"title\\\"\",\"url\":\"https://a.example\",\"content\":\"line\\nbreak\"},{\"title\":\"B\",\"url\":\"https://b.example\",\"content\":\"tab\\there\"}]"
    );
}

#[test]
fn annotations_json_is_read_by_a_json_parser() {
    let annotations = vec![
        annotation("quote \" and \\ backslash", "u\u{8}\u{c}\n\r\t", "\u{0}\u{1f}\u{7f}"),
        annotation("\u{e9}\u{4e2d}\u{1f600}", "", "x"),
    ];
    let text = annotations_to_json(&annotations);
    let parsed: serde_json::Value = serde_json::from_str(&text).unwrap();
    let items = parsed.as_array().unwrap();
    assert_eq!(items.len(), 2);
    for (item, annotation) in items.iter().zip(&annotations) {
        let object = item.as_object().unwrap();
        assert_eq!(object.len(), 3);
        assert_eq!(object["title"].as_str().unwrap(), annotation.title);
        assert_eq!(object["url"].as_str().unwrap(), annotation.url);
        assert_eq!(object["content"].as_str().unwrap(), annotation.content);
    }
}

#[test]
fn quoted_escapes_what_json_asks_for() {
    assert_eq!(quoted("plain"), "\"plain\"");
    assert_eq!(quoted(""), "\"\"");
    assert_eq!(quoted("a\"b\\c"), "\"a\\\"b\\\\c\"");
    assert_eq!(quoted("\u{8}\u{c}\n\r\t"), "\"\\b\\f\\n\\r\\t\"");
    assert_eq!(quoted("\u{0}\u{1}\u{b}\u{1f}"), "\"\\u0000\\u0001\\u000b\\u001f\"");
    assert_eq!(quoted("\u{7f}/\u{e9}"), "\"\u{7f}/\u{e9}\"");
}

#[test]
fn every_event_survives_the_wire() {
    for event in all_kinds() {
        let line = event.clone().into_string();
        assert_eq!(ChatEvent::from_line(&line), Some(event));
    }
}

#[test]
fn every_control_character_survives_quoting() {
    for code in 0u32..0x100 {
        let c = char::from_u32(code).unwrap();
        let event = ChatEvent::Annotations(vec![annotation(&c.to_string(), "u", &format!("{c}{c}"))]);
        let line = event.clone().into_string();
        assert!(!line.contains('\n'));
        assert_eq!(ChatEvent::from_line(&line), Some(event));
    }
}

#[test]
fn lines_that_are_none_are_refused() {
    for line in [
        "", "0", "0;x", "8:", "a:", "3:x", "4: ", "6:6", "7:7:", "2:", "2:[", "2:]", "2:[,]",
        "2:[{}]", "2:[]x", "2:[{\"title\":\"a\",\"url\":\"b\",\"content\":\"c\"}",
        "2:[{\"title\":\"a\",\"url\":\"b\",\"content\":\"c\"},]",
        "2:[{\"title\":\"a\",\"url\":\"b\",\"content\":\"c\"}]]",
        "2:[{\"url\":\"b\",\"title\":\"a\",\"content\":\"c\"}]",
        "2:[{\"title\":\"a\\x\",\"url\":\"b\",\"content\":\"c\"}]",
        "2:[{\"title\":\"a\\u0041\",\"url\":\"b\",\"content\":\"c\"}]",
        "2:[{\"title\":\"a\\u00g1\",\"url\":\"b\",\"content\":\"c\"}]",
        "2:[{\"title\":\"a\nb\",\"url\":\"b\",\"content\":\"c\"}]",
        "2:[ {\"title\":\"a\",\"url\":\"b\",\"content\":\"c\"}]",
    ] {
        assert_eq!(ChatEvent::from_line(line), None, "{line:?}");
    }
}

#[test]
fn reading_accepts_the_escapes_of_json() {
    assert_eq!(
        ChatEvent::from_line("2:[{\"title\":\"a\\/b\\u001F\\u000a\",\"url\":\"\",\"content\":\"\"}]"),
        Some(ChatEvent::Annotations(vec![annotation("a/b\u{1f}\n", "", "")]))
    );
    assert_eq!(ChatEvent::from_line("0:"), Some(ChatEvent::Text(String::new())));
    assert_eq!(ChatEvent::from_line("5::"), Some(ChatEvent::Refusal(":".to_string())));
}

#[test]
fn sanitize_makes_one_line() {
    assert_eq!(sanitize_text("a\r\nb\nc\rd"), "a\\nb\\ncd");
    assert_eq!(sanitize_text(""), "");
    assert_eq!(sanitize_text("\r\r"), "");
    assert_eq!(sanitize_text("\\n"), "\\n");
    for text in ["x\ny", "\n\n", "tab\tstays", "\u{e9}\r\n"] {
        let line = sanitize_text(text);
        assert!(!line.contains('\n') && !line.contains('\r'));
        assert_eq!(line, text.replace('\r', "").replace('\n', "\\n"));
    }
}

#[test]
fn only_text_reasoning_and_annotations_go_on() {
    for event in all_kinds() {
        let goes_on = matches!(
            event,
            ChatEvent::Text(_) | ChatEvent::Reasoning(_) | ChatEvent::Annotations(_)
        );
        assert_eq!(event.is_terminal(), !goes_on);
    }
}

#[test]
fn frames_end_with_exactly_one_end_frame() {
    let frames = client_frames(vec![ChatEvent::Text("a".to_string()), ChatEvent::End]);
    assert_eq!(
        frames,
        vec![
            ClientFrame::Message("0:a".to_string()),
            ClientFrame::Message("6:".to_string()),
            ClientFrame::End,
        ]
    );
    assert_eq!(client_frames(vec![]), vec![ClientFrame::End]);
    for events in [all_kinds(), vec![ChatEvent::Cancelled]] {
        let frames = client_frames(events.clone());
        assert_eq!(frames.len(), events.len() + 1);
        assert_eq!(frames.iter().filter(|f| **f == ClientFrame::End).count(), 1);
        assert_eq!(frames.last(), Some(&ClientFrame::End));
    }
}
