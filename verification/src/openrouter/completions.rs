//! Completion requests and the events of a streamed reply.

use vstd::prelude::*;

use crate::json::Json;
use crate::openrouter::types::{
    annotation_views, message_request_views, Annotation, AnnotationView, ChatChoice,
    ChatCompletion, ChatCompletionView, ChatDelta, ChatDeltaView, ChatUsage, CompletionRequest,
    CompletionRequestView, MessageRequest, MessageRequestView, PdfOptions, PluginRequest,
    PluginRequestView, ReasoningEffort, ReasoningRequest, UrlCitation, UrlCitationView,
    UsageRequest,
};
use crate::text::{starts_with_char, str_eq};

verus! {

/// Path of the completions endpoint, relative to the provider's base.
pub const COMPLETIONS_PATH: &'static str = "chat/completions";

/// Identifier of the plugin that reads attached files.
pub const PDF_PLUGIN_ID: &'static str = "file-parser";

/// The plugin that reads attached files, with the provider's default engine.
pub fn pdf_plugin() -> (plugin: PluginRequest)
    ensures
        plugin@ == pdf_plugin_view(),
{
    PluginRequest { id: PDF_PLUGIN_ID.to_owned(), pdf: PdfOptions { engine: None } }
}

/// The reasoning section for an optional effort.
pub open spec fn reasoning_of(effort: Option<ReasoningEffort>) -> Option<ReasoningRequest> {
    match effort {
        Some(effort) => Some(ReasoningRequest { effort }),
        None => None,
    }
}

/// The file plugin as a request holds it.
pub open spec fn pdf_plugin_view() -> PluginRequestView {
    PluginRequestView { id: PDF_PLUGIN_ID@, engine: None }
}

/// The request that asks `model` to complete `messages`: usage reporting is
/// on, and the file plugin is the one plugin exactly where `enable_pdf`.
pub open spec fn completion_request_view(
    model: Seq<char>,
    messages: Seq<MessageRequestView>,
    max_tokens: Option<u32>,
    reasoning: Option<ReasoningEffort>,
    enable_pdf: bool,
    stream: bool,
) -> CompletionRequestView {
    CompletionRequestView {
        model,
        messages,
        reasoning: reasoning_of(reasoning),
        max_tokens,
        stream,
        usage: Some(UsageRequest { included: true }),
        plugins: if enable_pdf {
            seq![pdf_plugin_view()]
        } else {
            Seq::empty()
        },
    }
}

/// Builds a completion request.
fn completion_request(
    model: &str,
    messages: Vec<MessageRequest>,
    max_tokens: Option<u32>,
    reasoning: Option<ReasoningEffort>,
    enable_pdf: bool,
    stream: bool,
) -> (request: CompletionRequest)
    ensures
        request@ == completion_request_view(
            model@,
            message_request_views(messages@),
            max_tokens,
            reasoning,
            enable_pdf,
            stream,
        ),
{
    let ghost reasoning_before = reasoning;
    let mut plugins: Vec<PluginRequest> = Vec::new();
    if enable_pdf {
        plugins.push(pdf_plugin());
    }
    let reasoning = match reasoning {
        Some(effort) => Some(ReasoningRequest { effort }),
        None => None,
    };
    let request = CompletionRequest {
        model: model.to_owned(),
        messages,
        max_tokens,
        reasoning,
        stream,
        usage: Some(UsageRequest { included: true }),
        plugins,
    };
    assert(request@.plugins =~= completion_request_view(
        model@,
        message_request_views(messages@),
        max_tokens,
        reasoning_before,
        enable_pdf,
        stream,
    ).plugins);
    request
}

/// The request of a completion that is answered in one reply.
pub fn get_completions(
    model: &str,
    messages: Vec<MessageRequest>,
    max_tokens: Option<u32>,
    reasoning: Option<ReasoningEffort>,
    enable_pdf: bool,
) -> (request: CompletionRequest)
    ensures
        request@ == completion_request_view(
            model@,
            message_request_views(messages@),
            max_tokens,
            reasoning,
            enable_pdf,
            false,
        ),
{
    completion_request(model, messages, max_tokens, reasoning, enable_pdf, false)
}

/// The request of a completion that is answered as a stream of frames.
pub fn stream_completions(
    model: &str,
    messages: Vec<MessageRequest>,
    max_tokens: Option<u32>,
    reasoning: Option<ReasoningEffort>,
    enable_pdf: bool,
) -> (request: CompletionRequest)
    ensures
        request@ == completion_request_view(
            model@,
            message_request_views(messages@),
            max_tokens,
            reasoning,
            enable_pdf,
            true,
        ),
{
    completion_request(model, messages, max_tokens, reasoning, enable_pdf, true)
}

/// One item of a streamed reply.
#[derive(Debug, Clone, PartialEq, Eq)]
pub enum OpenrouterEvent {
    /// A decoded frame.
    Completion(ChatCompletion),
    /// A frame that could not be decoded, or a failure of the source.
    Error,
    /// The provider refused the caller's own key.
    Unauthorized,
}

/// Model of an [`OpenrouterEvent`].
pub enum OpenrouterEventView {
    Completion(ChatCompletionView),
    Error,
    Unauthorized,
}

impl View for OpenrouterEvent {
    type V = OpenrouterEventView;

    open spec fn view(&self) -> OpenrouterEventView {
        match self {
            OpenrouterEvent::Completion(completion) => OpenrouterEventView::Completion(completion@),
            OpenrouterEvent::Error => OpenrouterEventView::Error,
            OpenrouterEvent::Unauthorized => OpenrouterEventView::Unauthorized,
        }
    }
}

/// The cited page that a JSON object holds: its members `title`, `url` and
/// `content` must be strings.
pub open spec fn citation_of(json: Json) -> Option<UrlCitationView> {
    match (json.text_member("title"@), json.text_member("url"@), json.text_member("content"@)) {
        (Some(title), Some(url), Some(content)) => Some(UrlCitationView { title, url, content }),
        _ => None,
    }
}

/// The annotation that a JSON object holds: its member `type` must be the
/// string `url_citation` and its member `url_citation` a cited page.
pub open spec fn annotation_of(json: Json) -> Option<AnnotationView> {
    if json.text_member("type"@) == Some("url_citation"@) {
        match json.member("url_citation"@) {
            Some(inner) => match citation_of(inner) {
                Some(url_citation) => Some(AnnotationView::UrlCitation { url_citation }),
                None => None,
            },
            None => None,
        }
    } else {
        None
    }
}

/// The annotations that the items hold, where each item holds one.
pub open spec fn annotations_of(items: Seq<Json>) -> Option<Seq<AnnotationView>>
    decreases items.len(),
{
    if items.len() == 0 {
        Some(Seq::empty())
    } else {
        match (annotations_of(items.drop_last()), annotation_of(items.last())) {
            (Some(before), Some(last)) => Some(before.push(last)),
            _ => None,
        }
    }
}

/// A member that may be missing, read as a string: a missing member and
/// `null` are no string, a string is itself, anything else is malformed
/// (the outer `None`).
pub open spec fn optional_text_of(member: Option<Json>) -> Option<Option<Seq<char>>> {
    match member {
        None => Some(None),
        Some(Json::Null) => Some(None),
        Some(Json::Text(text)) => Some(Some(text@)),
        Some(_) => None,
    }
}

/// A member that may be missing, read as a list of annotations: a missing
/// member and `null` are no list, an array of annotations is itself,
/// anything else is malformed (the outer `None`).
pub open spec fn optional_annotations_of(member: Option<Json>) -> Option<
    Option<Seq<AnnotationView>>,
> {
    match member {
        None => Some(None),
        Some(Json::Null) => Some(None),
        Some(Json::Array(items)) => match annotations_of(items@) {
            Some(annotations) => Some(Some(annotations)),
            None => None,
        },
        Some(_) => None,
    }
}

/// The increment that a JSON object holds. The checks are made in a fixed
/// order: an object with a string member `finish_reason` is the end of the
/// reply; else one with a string member `refusal` is a refusal; else it
/// must be text, with a string member `content`.
pub open spec fn delta_of(json: Json) -> Option<ChatDeltaView> {
    match json.text_member("finish_reason"@) {
        Some(finish_reason) => Some(ChatDeltaView::Finished { finish_reason }),
        None => match json.text_member("refusal"@) {
            Some(refusal) => Some(ChatDeltaView::Refusal { refusal }),
            None => match (
                json.text_member("content"@),
                optional_text_of(json.member("reasoning"@)),
                optional_annotations_of(json.member("annotations"@)),
            ) {
                (Some(content), Some(reasoning), Some(annotations)) => Some(
                    ChatDeltaView::Text { content, reasoning, annotations },
                ),
                _ => None,
            },
        },
    }
}

/// The increment of a choice: that of its member `delta`.
pub open spec fn choice_of(json: Json) -> Option<ChatDeltaView> {
    match json.member("delta"@) {
        Some(delta) => delta_of(delta),
        None => None,
    }
}

/// The increments of the choices, where each choice holds one.
pub open spec fn choices_of(items: Seq<Json>) -> Option<Seq<ChatDeltaView>>
    decreases items.len(),
{
    if items.len() == 0 {
        Some(Seq::empty())
    } else {
        match (choices_of(items.drop_last()), choice_of(items.last())) {
            (Some(before), Some(last)) => Some(before.push(last)),
            _ => None,
        }
    }
}

/// The usage counters of a frame: a missing member and `null` are no
/// counters; an object must hold `prompt_tokens` and `completion_tokens` as
/// whole numbers up to `u32::MAX`; anything else is malformed (the outer
/// `None`).
pub open spec fn usage_member_of(member: Option<Json>) -> Option<Option<ChatUsage>> {
    match member {
        None => Some(None),
        Some(Json::Null) => Some(None),
        Some(json) => match (json.member("prompt_tokens"@), json.member("completion_tokens"@)) {
            (Some(prompt), Some(completion)) => match (prompt.as_u32(), completion.as_u32()) {
                (Some(prompt_tokens), Some(completion_tokens)) => Some(
                    Some(ChatUsage { prompt_tokens, completion_tokens }),
                ),
                _ => None,
            },
            _ => None,
        },
    }
}

/// The frame that a JSON document holds: its member `choices` must be an
/// array of choices; its member `usage`, where it has one, the counters.
/// Members that are not named here are ignored.
pub open spec fn completion_of(json: Json) -> Option<ChatCompletionView> {
    match (json.member("choices"@), usage_member_of(json.member("usage"@))) {
        (Some(Json::Array(items)), Some(usage)) => match choices_of(items@) {
            Some(choices) => Some(ChatCompletionView { choices, usage }),
            None => None,
        },
        _ => None,
    }
}

/// A copy of an optional string slice.
fn owned(text: Option<&str>) -> (copy: Option<String>)
    ensures
        match text {
            Some(t) => copy matches Some(c) && c@ == t@,
            None => copy is None,
        },
{
    match text {
        Some(t) => Some(t.to_owned()),
        None => None,
    }
}

/// Reads a cited page out of a JSON object.
fn decode_citation(json: &Json) -> (read: Option<UrlCitation>)
    ensures
        match citation_of(*json) {
            Some(citation) => read matches Some(c) && c@ == citation,
            None => read is None,
        },
{
    let title = owned(json.get_str("title"));
    let url = owned(json.get_str("url"));
    let content = owned(json.get_str("content"));
    match (title, url, content) {
        (Some(title), Some(url), Some(content)) => Some(UrlCitation { title, url, content }),
        _ => None,
    }
}

/// Reads an annotation out of a JSON object.
fn decode_annotation(json: &Json) -> (read: Option<Annotation>)
    ensures
        match annotation_of(*json) {
            Some(annotation) => read matches Some(a) && a@ == annotation,
            None => read is None,
        },
{
    let tagged = match json.get_str("type") {
        Some(tag) => str_eq(tag, "url_citation"),
        None => false,
    };
    if !tagged {
        return None;
    }
    match json.get("url_citation") {
        Some(inner) => match decode_citation(inner) {
            Some(url_citation) => Some(Annotation::UrlCitation { url_citation }),
            None => None,
        },
        None => None,
    }
}

/// Reads the annotations out of the items of a JSON array.
fn decode_annotations(items: &Vec<Json>) -> (read: Option<Vec<Annotation>>)
    ensures
        match annotations_of(items@) {
            Some(annotations) => read matches Some(a) && annotation_views(a@) == annotations,
            None => read is None,
        },
{
    let mut annotations: Vec<Annotation> = Vec::new();
    let mut i: usize = 0;
    while i < items.len()
        invariant
            i <= items.len(),
            annotations_of(items@.take(i as int)) == Some(annotation_views(annotations@)),
        decreases items.len() - i,
    {
        let ghost before = annotation_views(annotations@);
        assert(items@.take(i + 1).drop_last() == items@.take(i as int));
        assert(items@.take(i + 1).last() == items@[i as int]);
        match decode_annotation(&items[i]) {
            Some(annotation) => {
                annotations.push(annotation);
                assert(annotation_views(annotations@) == before.push(annotation@));
            },
            None => {
                proof {
                    lemma_annotations_fail(items@, i + 1);
                }
                return None;
            },
        }
        i += 1;
    }
    assert(items@.take(items.len() as int) == items@);
    Some(annotations)
}

/// Items that hold no list of annotations up to some length hold none at
/// all.
pub proof fn lemma_annotations_fail(items: Seq<Json>, n: int)
    requires
        0 <= n <= items.len(),
        annotations_of(items.take(n)) is None,
    ensures
        annotations_of(items) is None,
    decreases items.len() - n,
{
    if n < items.len() {
        assert(items.take(n + 1).drop_last() == items.take(n));
        lemma_annotations_fail(items, n + 1);
    } else {
        assert(items.take(n) == items);
    }
}

/// Choices that hold no list of increments up to some length hold none at
/// all.
pub proof fn lemma_choices_fail(items: Seq<Json>, n: int)
    requires
        0 <= n <= items.len(),
        choices_of(items.take(n)) is None,
    ensures
        choices_of(items) is None,
    decreases items.len() - n,
{
    if n < items.len() {
        assert(items.take(n + 1).drop_last() == items.take(n));
        lemma_choices_fail(items, n + 1);
    } else {
        assert(items.take(n) == items);
    }
}

/// Reads the increment out of a JSON object.
pub fn decode_delta(json: &Json) -> (read: Option<ChatDelta>)
    ensures
        match delta_of(*json) {
            Some(delta) => read matches Some(d) && d@ == delta,
            None => read is None,
        },
{
    match json.get_str("finish_reason") {
        Some(reason) => {
            return Some(ChatDelta::Finished { finish_reason: reason.to_owned() });
        },
        None => {},
    }
    match json.get_str("refusal") {
        Some(refusal) => {
            return Some(ChatDelta::Refusal { refusal: refusal.to_owned() });
        },
        None => {},
    }
    let content = match json.get_str("content") {
        Some(content) => content.to_owned(),
        None => {
            return None;
        },
    };
    let reasoning = match json.get("reasoning") {
        None => None,
        Some(Json::Null) => None,
        Some(Json::Text(text)) => Some(text.clone()),
        Some(_) => {
            return None;
        },
    };
    let annotations = match json.get("annotations") {
        None => None,
        Some(Json::Null) => None,
        Some(Json::Array(items)) => match decode_annotations(items) {
            Some(annotations) => Some(annotations),
            None => {
                return None;
            },
        },
        Some(_) => {
            return None;
        },
    };
    Some(ChatDelta::Text { content, reasoning, annotations })
}

/// Reads the usage counters out of the member `usage` of a frame. The outer
/// `None` is a malformed member.
fn decode_usage(member: Option<&Json>) -> (read: Option<Option<ChatUsage>>)
    ensures
        read == usage_member_of(
            match member {
                Some(json) => Some(*json),
                None => None,
            },
        ),
{
    match member {
        None => Some(None),
        Some(Json::Null) => Some(None),
        Some(json) => {
            let prompt = match json.get("prompt_tokens") {
                Some(value) => value.to_u32(),
                None => None,
            };
            let completion = match json.get("completion_tokens") {
                Some(value) => value.to_u32(),
                None => None,
            };
            match (prompt, completion) {
                (Some(prompt_tokens), Some(completion_tokens)) => Some(
                    Some(ChatUsage { prompt_tokens, completion_tokens }),
                ),
                _ => None,
            }
        },
    }
}

/// Reads a frame of a streamed reply out of a JSON document. `None` where
/// the document holds no frame.
#[verifier::loop_isolation(false)]
pub fn decode_completion(json: &Json) -> (read: Option<ChatCompletion>)
    ensures
        match completion_of(*json) {
            Some(completion) => read matches Some(c) && c@ == completion,
            None => read is None,
        },
{
    let usage = match decode_usage(json.get("usage")) {
        Some(usage) => usage,
        None => {
            return None;
        },
    };
    let items = match json.get("choices") {
        Some(Json::Array(items)) => items,
        _ => {
            return None;
        },
    };
    let mut choices: Vec<ChatChoice> = Vec::new();
    let mut i: usize = 0;
    while i < items.len()
        invariant
            i <= items.len(),
            choices_of(items@.take(i as int)) == Some(
                Seq::new(choices@.len(), |k: int| choices@[k].delta@),
            ),
        decreases items.len() - i,
    {
        let ghost before = Seq::new(choices@.len(), |k: int| choices@[k].delta@);
        assert(items@.take(i + 1).drop_last() == items@.take(i as int));
        assert(items@.take(i + 1).last() == items@[i as int]);
        let delta = match items[i].get("delta") {
            Some(delta) => decode_delta(delta),
            None => None,
        };
        match delta {
            Some(delta) => {
                choices.push(ChatChoice { delta });
                assert(Seq::new(choices@.len(), |k: int| choices@[k].delta@) == before.push(
                    delta@,
                ));
            },
            None => {
                proof {
                    lemma_choices_fail(items@, i + 1);
                }
                return None;
            },
        }
        i += 1;
    }
    assert(items@.take(items.len() as int) == items@);
    Some(ChatCompletion { choices, usage })
}

/// What the source of a streamed reply hands over.
#[derive(Debug, PartialEq, Eq)]
pub enum SourceItem {
    /// The connection is open.
    Open,
    /// A frame, with its data as text and, where the text begins with a
    /// brace, as the JSON document that it holds (`None` where it holds
    /// none).
    Message { data: String, document: Option<Json> },
    /// The stream ended.
    StreamEnded,
    /// The provider answered with a status that is no success.
    InvalidStatusCode(u16),
    /// The provider answered with something that is no event stream.
    InvalidContentType,
    /// The connection failed.
    Transport,
}

/// What an item of the source means: the event to relay, if any, and whether
/// the source is finished.
pub struct SourceStep {
    pub event: Option<OpenrouterEvent>,
    pub finished: bool,
}

/// The data of the frame that tells the end of a reply.
pub const DONE_FRAME: &'static str = "[DONE]";

/// The status that refuses a key.
pub const UNAUTHORIZED: u16 = 401;

/// Whether the data of a frame is to be read as JSON: it is neither empty
/// nor the end marker, and it begins with a brace.
pub open spec fn is_json_frame(data: Seq<char>) -> bool {
    data.len() > 0 && data != DONE_FRAME@ && data[0] == '{'
}

/// Whether the data of a frame is to be read as JSON. The end marker and
/// empty frames are passed over, as is data that does not begin with a
/// brace.
pub fn frame_is_json(data: &str) -> (yes: bool)
    ensures
        yes == is_json_frame(data@),
{
    if str_eq(data, DONE_FRAME) || data.is_empty() {
        false
    } else {
        starts_with_char(data, '{')
    }
}

/// The event that an item of the source is relayed as, if any.
pub open spec fn source_event(item: SourceItem, using_custom_key: bool) -> Option<
    OpenrouterEventView,
> {
    match item {
        SourceItem::Open => None,
        SourceItem::Message { data, document } => if is_json_frame(data@) {
            match document {
                Some(json) => match completion_of(json) {
                    Some(completion) => Some(OpenrouterEventView::Completion(completion)),
                    None => Some(OpenrouterEventView::Error),
                },
                None => Some(OpenrouterEventView::Error),
            }
        } else {
            None
        },
        SourceItem::StreamEnded => None,
        SourceItem::InvalidStatusCode(status) => if status == UNAUTHORIZED && using_custom_key {
            Some(OpenrouterEventView::Unauthorized)
        } else {
            Some(OpenrouterEventView::Error)
        },
        SourceItem::InvalidContentType => Some(OpenrouterEventView::Error),
        SourceItem::Transport => Some(OpenrouterEventView::Error),
    }
}

/// Whether an item finishes the source: the end of the stream and a failure
/// of the connection do.
pub open spec fn source_finished(item: SourceItem) -> bool {
    item is StreamEnded || item is Transport
}

/// Reads one item of the source of a streamed reply.
///
/// The end marker, empty frames and frames that do not begin with a brace
/// are passed over. A frame that holds no completion becomes an error event
/// and the source goes on. A refused key becomes an unauthorized event only
/// where the caller brought the key. The end of the stream and a failure of
/// the connection finish the source, the failure after an error event.
pub fn stream_openrouter_chat(item: SourceItem, using_custom_key: bool) -> (step: SourceStep)
    ensures
        match source_event(item, using_custom_key) {
            Some(event) => step.event matches Some(e) && e@ == event,
            None => step.event is None,
        },
        step.finished == source_finished(item),
{
    match item {
        SourceItem::Open => SourceStep { event: None, finished: false },
        SourceItem::Message { data, document } => {
            if !frame_is_json(data.as_str()) {
                return SourceStep { event: None, finished: false };
            }
            let read = match &document {
                Some(json) => decode_completion(json),
                None => None,
            };
            let event = match read {
                Some(completion) => OpenrouterEvent::Completion(completion),
                None => OpenrouterEvent::Error,
            };
            SourceStep { event: Some(event), finished: false }
        },
        SourceItem::StreamEnded => SourceStep { event: None, finished: true },
        SourceItem::InvalidStatusCode(status) => {
            let event = if status == UNAUTHORIZED && using_custom_key {
                OpenrouterEvent::Unauthorized
            } else {
                OpenrouterEvent::Error
            };
            SourceStep { event: Some(event), finished: false }
        },
        SourceItem::InvalidContentType => SourceStep {
            event: Some(OpenrouterEvent::Error),
            finished: false,
        },
        SourceItem::Transport => SourceStep { event: Some(OpenrouterEvent::Error), finished: true },
    }
}

} // verus!
