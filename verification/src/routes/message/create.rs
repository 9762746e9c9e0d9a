//! Starting a chat turn: the events sent to the client and the conversion of
//! provider and store records into each other.

use vstd::prelude::*;

use crate::convex::{convex_error_message, ConvexError};
use crate::convex::messages::{
    annotation_views, Annotation, AnnotationView, Message, MessagePart, MessagePartView,
    MessageStatus, ModelParams,
};
use crate::convex::messages::ReasoningEffort as StoredEffort;
use crate::convex::messages::Role as StoreRole;
use crate::convex::threads::Thread;
use crate::convex_serde::SerError;
use crate::json::{json_quoted, quoted};
use crate::openrouter::{openrouter_error_message, OpenrouterError};
use crate::openrouter::types::{
    message_request_views, text_message, MessageRequest, MessageRequestView, ReasoningEffort, Role,
};
use crate::openrouter::types::Annotation as ProviderAnnotation;
use crate::openrouter::types::AnnotationView as ProviderAnnotationView;
use crate::text::{chars_of, concat, str_eq, trim, trimmed};

verus! {

/// Model parameters as a request names them.
#[derive(Debug, Clone, PartialEq, Eq)]
pub struct ModelParamsRequest {
    pub reasoning_effort: String,
    pub include_search: bool,
}

/// Reasoning effort as a request names it.
#[derive(Debug, Clone, Copy, PartialEq, Eq, Structural)]
pub enum ReasoningEffortRequest {
    Low,
    Medium,
    High,
}

impl From<ReasoningEffortRequest> for ReasoningEffort {
    fn from(val: ReasoningEffortRequest) -> (effort: ReasoningEffort) {
        match val {
            ReasoningEffortRequest::Low => ReasoningEffort::Low,
            ReasoningEffortRequest::Medium => ReasoningEffort::Medium,
            ReasoningEffortRequest::High => ReasoningEffort::High,
        }
    }
}

impl vstd::std_specs::convert::FromSpecImpl<ReasoningEffortRequest> for ReasoningEffort {
    open spec fn obeys_from_spec() -> bool {
        true
    }

    open spec fn from_spec(val: ReasoningEffortRequest) -> ReasoningEffort {
        match val {
            ReasoningEffortRequest::Low => ReasoningEffort::Low,
            ReasoningEffortRequest::Medium => ReasoningEffort::Medium,
            ReasoningEffortRequest::High => ReasoningEffort::High,
        }
    }
}

/// The request that starts a chat turn.
#[derive(Debug, Clone, PartialEq, Eq)]
pub struct CreateMessageRequest {
    pub thread_id: String,
    pub response_message_id: String,
    pub model: String,
    pub model_params: Option<ModelParamsRequest>,
    pub reasoning_effort: Option<ReasoningEffortRequest>,
}

/// Why a chat turn was not started.
#[derive(Debug, PartialEq, Eq)]
pub enum CreateMessageError {
    MessageNotFound,
    ThreadNotFound,
    ResponseMessageNotPending,
    Unexpected(String),
    Serialization(SerError),
    Convex(ConvexError),
    NoModelSpecified,
}

/// What an error of a request for a chat turn says.
pub open spec fn create_error_message(error: CreateMessageError) -> Seq<char> {
    match error {
        CreateMessageError::MessageNotFound => "message not found"@,
        CreateMessageError::ThreadNotFound => "thread not found"@,
        CreateMessageError::ResponseMessageNotPending => "response message not pending"@,
        CreateMessageError::Unexpected(text) => "unexpected error: "@ + text@,
        CreateMessageError::Serialization(e) => "serialization error: "@
            + crate::convex_serde::ser::error_message(e@),
        CreateMessageError::Convex(e) => "failed to get response message: "@
            + convex_error_message(e),
        CreateMessageError::NoModelSpecified => "no model specified"@,
    }
}

impl CreateMessageError {
    /// What the error says.
    pub fn to_string(&self) -> (text: String)
        ensures
            text@ == create_error_message(*self),
    {
        match self {
            CreateMessageError::MessageNotFound => "message not found".to_owned(),
            CreateMessageError::ThreadNotFound => "thread not found".to_owned(),
            CreateMessageError::ResponseMessageNotPending => "response message not pending".to_owned(),
            CreateMessageError::Unexpected(text) => concat("unexpected error: ", text.as_str()),
            CreateMessageError::Serialization(e) => concat(
                "serialization error: ",
                e.to_string().as_str(),
            ),
            CreateMessageError::Convex(e) => concat(
                "failed to get response message: ",
                e.to_string().as_str(),
            ),
            CreateMessageError::NoModelSpecified => "no model specified".to_owned(),
        }
    }

    /// The HTTP status that answers the request: 404 where the thread or the
    /// message is not there, 400 where the request is at fault, 500
    /// otherwise.
    pub fn status_code(&self) -> (status: u16)
        ensures
            status == match self {
                CreateMessageError::MessageNotFound => 404u16,
                CreateMessageError::ThreadNotFound => 404u16,
                CreateMessageError::ResponseMessageNotPending => 400u16,
                CreateMessageError::NoModelSpecified => 400u16,
                CreateMessageError::Unexpected(_) => 500u16,
                CreateMessageError::Serialization(_) => 500u16,
                CreateMessageError::Convex(_) => 500u16,
            },
    {
        match self {
            CreateMessageError::MessageNotFound => 404,
            CreateMessageError::ThreadNotFound => 404,
            CreateMessageError::ResponseMessageNotPending => 400,
            CreateMessageError::NoModelSpecified => 400,
            CreateMessageError::Unexpected(_) => 500,
            CreateMessageError::Serialization(_) => 500,
            CreateMessageError::Convex(_) => 500,
        }
    }
}

/// The identifiers of a request, without surrounding whitespace.
#[derive(Debug, Clone, PartialEq, Eq)]
pub struct RequestIds {
    pub message_id: String,
    pub thread_id: String,
    pub model: String,
}

/// The store's model parameters for those of a request. The effort is kept
/// where it is `low`, `medium` or `high`.
pub open spec fn stored_params(effort: Seq<char>, include_search: bool) -> ModelParams {
    ModelParams {
        reasoning_effort: if effort == "low"@ {
            Some(StoredEffort::Low)
        } else if effort == "medium"@ {
            Some(StoredEffort::Medium)
        } else if effort == "high"@ {
            Some(StoredEffort::High)
        } else {
            None
        },
        include_search,
    }
}

impl ModelParamsRequest {
    /// The model parameters that are stored with the message.
    pub fn to_stored(&self) -> (params: ModelParams)
        ensures
            params == stored_params(self.reasoning_effort@, self.include_search),
    {
        let effort = self.reasoning_effort.as_str();
        let reasoning_effort = if str_eq(effort, "low") {
            Some(StoredEffort::Low)
        } else if str_eq(effort, "medium") {
            Some(StoredEffort::Medium)
        } else if str_eq(effort, "high") {
            Some(StoredEffort::High)
        } else {
            None
        };
        ModelParams { reasoning_effort, include_search: self.include_search }
    }
}

impl CreateMessageRequest {
    /// The error that the identifiers of the request deserve: a blank
    /// message id, then a blank thread id, then a blank model.
    pub open spec fn fault(self) -> Option<CreateMessageError> {
        if trimmed(self.response_message_id@).len() == 0 {
            Some(CreateMessageError::MessageNotFound)
        } else if trimmed(self.thread_id@).len() == 0 {
            Some(CreateMessageError::ThreadNotFound)
        } else if trimmed(self.model@).len() == 0 {
            Some(CreateMessageError::NoModelSpecified)
        } else {
            None
        }
    }

    /// The trimmed identifiers of the request, or the error of the first
    /// that is blank.
    pub fn ids(&self) -> (ids: Result<RequestIds, CreateMessageError>)
        ensures
            match ids {
                Ok(ids) => {
                    &&& self.fault() is None
                    &&& ids.message_id@ == trimmed(self.response_message_id@)
                    &&& ids.thread_id@ == trimmed(self.thread_id@)
                    &&& ids.model@ == trimmed(self.model@)
                },
                Err(error) => self.fault() == Some(error),
            },
    {
        let message_id = trim(self.response_message_id.as_str());
        if message_id.as_str().is_empty() {
            return Err(CreateMessageError::MessageNotFound);
        }
        let thread_id = trim(self.thread_id.as_str());
        if thread_id.as_str().is_empty() {
            return Err(CreateMessageError::ThreadNotFound);
        }
        let model = trim(self.model.as_str());
        if model.as_str().is_empty() {
            return Err(CreateMessageError::NoModelSpecified);
        }
        Ok(RequestIds { message_id, thread_id, model })
    }
}

/// The thread of a request, or the error for a thread that is not there.
pub fn require_thread(thread: Option<Thread>) -> (found: Result<Thread, CreateMessageError>)
    ensures
        match thread {
            Some(t) => found == Ok::<Thread, CreateMessageError>(t),
            None => found == Err::<Thread, CreateMessageError>(CreateMessageError::ThreadNotFound),
        },
{
    match thread {
        Some(thread) => Ok(thread),
        None => Err(CreateMessageError::ThreadNotFound),
    }
}

/// The message that a chat turn is to fill: it must be there and pending.
/// A message in any other state is refused, so that nothing is asked of the
/// provider for it.
pub fn require_pending(message: Option<Message>) -> (found: Result<Message, CreateMessageError>)
    ensures
        match message {
            Some(m) => if m.status == Some(MessageStatus::Pending) {
                found == Ok::<Message, CreateMessageError>(m)
            } else {
                found == Err::<Message, CreateMessageError>(
                    CreateMessageError::ResponseMessageNotPending,
                )
            },
            None => found == Err::<Message, CreateMessageError>(CreateMessageError::MessageNotFound),
        },
{
    match message {
        Some(message) => {
            let pending = match message.status {
                Some(MessageStatus::Pending) => true,
                _ => false,
            };
            if pending {
                Ok(message)
            } else {
                Err(CreateMessageError::ResponseMessageNotPending)
            }
        },
        None => Err(CreateMessageError::MessageNotFound),
    }
}

/// The history of a request as messages for the provider, or the error for
/// a history that is not there.
pub fn require_history(history: Option<Vec<Message>>) -> (found: Result<
    Vec<MessageRequest>,
    CreateMessageError,
>)
    ensures
        match history {
            Some(messages) => found matches Ok(requests) && message_request_views(requests@)
                == history_requests(messages@),
            None => found == Err::<Vec<MessageRequest>, CreateMessageError>(
                CreateMessageError::MessageNotFound,
            ),
        },
{
    match history {
        Some(messages) => Ok(messages_to_parts(messages)),
        None => Err(CreateMessageError::MessageNotFound),
    }
}

/// What a chat turn works on: the pending message, its thread, and what to
/// ask of the provider.
#[derive(Debug, Clone, PartialEq, Eq)]
pub struct ChatContext {
    /// The model to ask, without surrounding whitespace.
    pub model: String,
    pub message: Message,
    pub thread: Thread,
    /// The model as the request named it, stored with the message.
    pub stored_model: String,
    pub model_params: Option<ModelParams>,
    pub custom_key: Option<String>,
    /// Whether the thread has no title yet.
    pub set_title: bool,
    /// The model that is asked for a title.
    pub title_model: String,
    pub messages: Vec<MessageRequest>,
    pub reasoning_effort: Option<ReasoningEffort>,
}

impl ChatContext {
    /// The context of the chat turn that `payload` asks for.
    pub fn new(
        payload: CreateMessageRequest,
        ids: RequestIds,
        custom_key: Option<String>,
        title_model: String,
        thread: Thread,
        message: Message,
        messages: Vec<MessageRequest>,
    ) -> (context: ChatContext)
        requires
            message.status == Some(MessageStatus::Pending),
        ensures
            context.model == ids.model,
            context.message == message,
            context.thread == thread,
            context.stored_model == payload.model,
            context.model_params == match payload.model_params {
                Some(params) => Some(stored_params(params.reasoning_effort@, params.include_search)),
                None => None,
            },
            context.custom_key == custom_key,
            context.set_title == (thread.title is None),
            context.title_model == title_model,
            context.messages == messages,
            context.reasoning_effort == match payload.reasoning_effort {
                Some(ReasoningEffortRequest::Low) => Some(ReasoningEffort::Low),
                Some(ReasoningEffortRequest::Medium) => Some(ReasoningEffort::Medium),
                Some(ReasoningEffortRequest::High) => Some(ReasoningEffort::High),
                None => None,
            },
    {
        let model_params = match &payload.model_params {
            Some(params) => Some(params.to_stored()),
            None => None,
        };
        let reasoning_effort = match payload.reasoning_effort {
            Some(effort) => Some(ReasoningEffort::from(effort)),
            None => None,
        };
        let set_title = thread.title.is_none();
        ChatContext {
            model: ids.model,
            message,
            thread,
            stored_model: payload.model,
            model_params,
            custom_key,
            set_title,
            title_model,
            messages,
            reasoning_effort,
        }
    }

    /// Whether the caller brought a key of their own.
    pub fn using_custom_key(&self) -> (yes: bool)
        ensures
            yes == (self.custom_key is Some),
    {
        self.custom_key.is_some()
    }
}

/// Why a relay ended without completing its message.
#[derive(Debug, PartialEq, Eq)]
pub enum StreamChatError {
    /// A failure that fits no other variant; the text says what happened.
    Unexpected(String),
    /// The completion request could not be made.
    OpenrouterError(OpenrouterError),
    /// A call of the document store failed.
    ConvexError(ConvexError),
    /// The provider's stream could not be opened.
    OpenRouter(String),
    /// The store refused to append text or reasoning.
    AppendText,
    /// The store refused to complete the message.
    CompleteMessage,
    /// The store refused to set the thread's title.
    SetThreadTitle,
    /// The store refused to append annotations.
    AppendAnnotations,
}

/// Model of a [`StreamChatError`].
pub enum StreamChatErrorView {
    Unexpected(Seq<char>),
    OpenrouterError(OpenrouterError),
    ConvexError(ConvexError),
    OpenRouter(Seq<char>),
    AppendText,
    CompleteMessage,
    SetThreadTitle,
    AppendAnnotations,
}

impl View for StreamChatError {
    type V = StreamChatErrorView;

    open spec fn view(&self) -> StreamChatErrorView {
        match self {
            StreamChatError::Unexpected(text) => StreamChatErrorView::Unexpected(text@),
            StreamChatError::OpenrouterError(e) => StreamChatErrorView::OpenrouterError(*e),
            StreamChatError::ConvexError(e) => StreamChatErrorView::ConvexError(*e),
            StreamChatError::OpenRouter(text) => StreamChatErrorView::OpenRouter(text@),
            StreamChatError::AppendText => StreamChatErrorView::AppendText,
            StreamChatError::CompleteMessage => StreamChatErrorView::CompleteMessage,
            StreamChatError::SetThreadTitle => StreamChatErrorView::SetThreadTitle,
            StreamChatError::AppendAnnotations => StreamChatErrorView::AppendAnnotations,
        }
    }
}

/// What an error of a relay says.
pub open spec fn stream_error_message(error: StreamChatErrorView) -> Seq<char> {
    match error {
        StreamChatErrorView::Unexpected(text) => "unexpected error: "@ + text,
        StreamChatErrorView::OpenrouterError(e) => "openrouter client error: "@
            + openrouter_error_message(e),
        StreamChatErrorView::ConvexError(e) => "convex error: "@ + convex_error_message(e),
        StreamChatErrorView::OpenRouter(text) => "failed to create OpenRouter stream: "@ + text,
        StreamChatErrorView::AppendText => "failed to append text to message"@,
        StreamChatErrorView::CompleteMessage => "failed to complete message"@,
        StreamChatErrorView::SetThreadTitle => "failed to set thread title"@,
        StreamChatErrorView::AppendAnnotations => "failed to append annotations to message"@,
    }
}

impl StreamChatError {
    /// What the error says.
    pub fn to_string(&self) -> (text: String)
        ensures
            text@ == stream_error_message(self@),
    {
        match self {
            StreamChatError::Unexpected(text) => concat("unexpected error: ", text.as_str()),
            StreamChatError::OpenrouterError(e) => concat(
                "openrouter client error: ",
                e.to_string().as_str(),
            ),
            StreamChatError::ConvexError(e) => concat("convex error: ", e.to_string().as_str()),
            StreamChatError::OpenRouter(text) => concat(
                "failed to create OpenRouter stream: ",
                text.as_str(),
            ),
            StreamChatError::AppendText => "failed to append text to message".to_owned(),
            StreamChatError::CompleteMessage => "failed to complete message".to_owned(),
            StreamChatError::SetThreadTitle => "failed to set thread title".to_owned(),
            StreamChatError::AppendAnnotations => "failed to append annotations to message".to_owned(),
        }
    }
}

/// One event sent to the client.
#[derive(Debug, Clone, PartialEq, Eq)]
pub enum ChatEvent {
    Text(String),
    Reasoning(String),
    Cancelled,
    Error,
    Refusal(String),
    End,
    Unauthorized,
    Annotations(Vec<Annotation>),
}

/// Model of a [`ChatEvent`].
pub enum ChatEventView {
    Text(Seq<char>),
    Reasoning(Seq<char>),
    Cancelled,
    Error,
    Refusal(Seq<char>),
    End,
    Unauthorized,
    Annotations(Seq<AnnotationView>),
}

impl View for ChatEvent {
    type V = ChatEventView;

    open spec fn view(&self) -> ChatEventView {
        match self {
            ChatEvent::Text(text) => ChatEventView::Text(text@),
            ChatEvent::Reasoning(text) => ChatEventView::Reasoning(text@),
            ChatEvent::Cancelled => ChatEventView::Cancelled,
            ChatEvent::Error => ChatEventView::Error,
            ChatEvent::Refusal(text) => ChatEventView::Refusal(text@),
            ChatEvent::End => ChatEventView::End,
            ChatEvent::Unauthorized => ChatEventView::Unauthorized,
            ChatEvent::Annotations(items) => ChatEventView::Annotations(annotation_views(items@)),
        }
    }
}

impl ChatEventView {
    /// Whether the event ends the turn: every event but text, reasoning and
    /// annotations does.
    pub open spec fn is_terminal(self) -> bool {
        !(self is Text || self is Reasoning || self is Annotations)
    }
}

/// An annotation as a JSON object with the members `title`, `url` and
/// `content`, in this order and without whitespace.
pub open spec fn annotation_json(annotation: AnnotationView) -> Seq<char> {
    "{\"title\":"@ + json_quoted(annotation.title) + ",\"url\":"@ + json_quoted(annotation.url)
        + ",\"content\":"@ + json_quoted(annotation.content) + "}"@
}

/// The annotations as JSON objects, separated by commas.
pub open spec fn annotation_list_json(annotations: Seq<AnnotationView>) -> Seq<char>
    decreases annotations.len(),
{
    if annotations.len() == 0 {
        Seq::empty()
    } else if annotations.len() == 1 {
        annotation_json(annotations[0])
    } else {
        annotation_list_json(annotations.drop_last()) + ","@ + annotation_json(annotations.last())
    }
}

/// The annotations as a JSON array of objects, without whitespace.
pub open spec fn annotations_json(annotations: Seq<AnnotationView>) -> Seq<char> {
    "["@ + annotation_list_json(annotations) + "]"@
}

/// The tag that opens the line of an event.
pub open spec fn wire_tag(event: ChatEventView) -> char {
    match event {
        ChatEventView::Text(_) => '0',
        ChatEventView::Reasoning(_) => '1',
        ChatEventView::Annotations(_) => '2',
        ChatEventView::Error => '3',
        ChatEventView::Cancelled => '4',
        ChatEventView::Refusal(_) => '5',
        ChatEventView::End => '6',
        ChatEventView::Unauthorized => '7',
    }
}

/// What follows the tag and the colon on the line of an event: the text of
/// a text, reasoning or refusal event, the JSON array of an annotations
/// event, nothing for the others.
pub open spec fn wire_payload(event: ChatEventView) -> Seq<char> {
    match event {
        ChatEventView::Text(text) => text,
        ChatEventView::Reasoning(text) => text,
        ChatEventView::Refusal(text) => text,
        ChatEventView::Annotations(annotations) => annotations_json(annotations),
        _ => Seq::empty(),
    }
}

/// The line of an event: its tag, a colon and its payload.
pub open spec fn wire_line(event: ChatEventView) -> Seq<char> {
    seq![wire_tag(event), ':'] + wire_payload(event)
}

/// Appends an annotation as a JSON object to `out`.
fn push_annotation(out: &mut String, annotation: &Annotation)
    ensures
        final(out)@ == old(out)@ + annotation_json(annotation@),
{
    out.append("{\"title\":");
    out.append(quoted(annotation.title.as_str()).as_str());
    out.append(",\"url\":");
    out.append(quoted(annotation.url.as_str()).as_str());
    out.append(",\"content\":");
    out.append(quoted(annotation.content.as_str()).as_str());
    out.append("}");
    assert(out@ =~= old(out)@ + annotation_json(annotation@));
}

/// The annotations as a JSON array of objects.
pub fn annotations_to_json(annotations: &Vec<Annotation>) -> (text: String)
    ensures
        text@ == annotations_json(annotation_views(annotations@)),
{
    let ghost items = annotation_views(annotations@);
    let mut text = "[".to_owned();
    let mut i: usize = 0;
    while i < annotations.len()
        invariant
            i <= annotations.len(),
            items == annotation_views(annotations@),
            text@ == "["@ + annotation_list_json(items.take(i as int)),
        decreases annotations.len() - i,
    {
        assert(items.take(i + 1).drop_last() == items.take(i as int));
        assert(items.take(i + 1).last() == annotations@[i as int]@);
        if i > 0 {
            text.append(",");
        }
        push_annotation(&mut text, &annotations[i]);
        assert(text@ =~= "["@ + annotation_list_json(items.take(i + 1)));
        i += 1;
    }
    assert(items.take(annotations.len() as int) == items);
    text.append("]");
    text
}

/// One frame of the push stream to the client.
#[derive(Debug, Clone, PartialEq, Eq)]
pub enum ClientFrame {
    /// A frame named `message` whose data is the line of an event.
    Message(String),
    /// The frame named `end`, which closes the stream.
    End,
}

/// Model of a [`ClientFrame`].
pub enum ClientFrameView {
    Message(Seq<char>),
    End,
}

impl View for ClientFrame {
    type V = ClientFrameView;

    open spec fn view(&self) -> ClientFrameView {
        match self {
            ClientFrame::Message(line) => ClientFrameView::Message(line@),
            ClientFrame::End => ClientFrameView::End,
        }
    }
}

/// The name of a frame: `message` for the line of an event, `end` for the
/// frame that closes the stream.
pub open spec fn frame_name(frame: ClientFrameView) -> Seq<char> {
    match frame {
        ClientFrameView::Message(_) => "message"@,
        ClientFrameView::End => "end"@,
    }
}

/// The frame for what the channel of the relay hands over: the line of an
/// event, or the end frame where the channel is closed.
pub open spec fn frame_of(received: Option<ChatEventView>) -> ClientFrameView {
    match received {
        Some(event) => ClientFrameView::Message(wire_line(event)),
        None => ClientFrameView::End,
    }
}

impl ClientFrame {
    /// The name of the frame.
    pub fn name(&self) -> (name: &'static str)
        ensures
            name@ == frame_name(self@),
    {
        match self {
            ClientFrame::Message(_) => "message",
            ClientFrame::End => "end",
        }
    }

    /// The data of the frame: the line of a message frame; the end frame has
    /// none.
    pub fn into_data(self) -> (data: Option<String>)
        ensures
            match self {
                ClientFrame::Message(line) => data == Some(line),
                ClientFrame::End => data is None,
            },
    {
        match self {
            ClientFrame::Message(line) => Some(line),
            ClientFrame::End => None,
        }
    }

    /// The frame for what the channel of the relay hands over: the line of
    /// an event, or the end frame where the channel is closed.
    pub fn next(received: Option<ChatEvent>) -> (frame: ClientFrame)
        ensures
            frame@ == frame_of(
                match received {
                    Some(event) => Some(event@),
                    None => None,
                },
            ),
    {
        match received {
            Some(event) => ClientFrame::Message(event.into_string()),
            None => ClientFrame::End,
        }
    }
}

/// The frames that carry `events` to the client: one message frame for each
/// event, in order, and then the end frame.
pub open spec fn frames_of(events: Seq<ChatEventView>) -> Seq<ClientFrameView> {
    Seq::new(events.len(), |i: int| ClientFrameView::Message(wire_line(events[i]))).push(
        ClientFrameView::End,
    )
}

/// The frames that carry `events` to the client, the closing end frame
/// included.
pub fn client_frames(events: Vec<ChatEvent>) -> (frames: Vec<ClientFrame>)
    ensures
        Seq::new(frames@.len(), |i: int| frames@[i]@) == frames_of(
            Seq::new(events@.len(), |i: int| events@[i]@),
        ),
{
    let ghost given = events@;
    let mut frames: Vec<ClientFrame> = Vec::new();
    for event in it: events
        invariant
            it.seq() == given,
            frames.len() == it.index(),
            forall|k: int|
                0 <= k < it.index() ==> frames@[k]@ == ClientFrameView::Message(
                    wire_line(given[k]@),
                ),
    {
        frames.push(ClientFrame::next(Some(event)));
    }
    frames.push(ClientFrame::next(None));
    assert(Seq::new(frames@.len(), |i: int| frames@[i]@) =~= frames_of(
        Seq::new(given.len(), |i: int| given[i]@),
    ));
    frames
}

impl ChatEvent {
    /// The line that carries the event to the client: a tag, a colon and the
    /// payload.
    pub fn into_string(self) -> (line: String)
        ensures
            line@ == wire_line(self@),
    {
        proof {
            reveal_strlit("0:");
            reveal_strlit("1:");
            reveal_strlit("2:");
            reveal_strlit("3:");
            reveal_strlit("4:");
            reveal_strlit("5:");
            reveal_strlit("6:");
            reveal_strlit("7:");
        }
        let (tag, payload) = match self {
            ChatEvent::Text(text) => ("0:", text),
            ChatEvent::Reasoning(text) => ("1:", text),
            ChatEvent::Annotations(annotations) => ("2:", annotations_to_json(&annotations)),
            ChatEvent::Error => ("3:", String::new()),
            ChatEvent::Cancelled => ("4:", String::new()),
            ChatEvent::Refusal(text) => ("5:", text),
            ChatEvent::End => ("6:", String::new()),
            ChatEvent::Unauthorized => ("7:", String::new()),
        };
        let mut line = tag.to_owned();
        line.append(payload.as_str());
        assert(line@ =~= wire_line(self@));
        line
    }

    /// Whether the event ends the turn.
    pub fn is_terminal(&self) -> (terminal: bool)
        ensures
            terminal == self@.is_terminal(),
    {
        match self {
            ChatEvent::Text(_) | ChatEvent::Reasoning(_) | ChatEvent::Annotations(_) => false,
            _ => true,
        }
    }
}

/// `text` without its carriage returns and with each line feed replaced by a
/// backslash and the letter n.
pub open spec fn sanitized(text: Seq<char>) -> Seq<char>
    decreases text.len(),
{
    if text.len() == 0 {
        Seq::empty()
    } else {
        let before = sanitized(text.drop_last());
        let c = text.last();
        if c == '\r' {
            before
        } else if c == '\n' {
            before.push('\\').push('n')
        } else {
            before.push(c)
        }
    }
}

/// Makes `text` fit on one line: carriage returns are dropped and line feeds
/// become the two characters `\n`.
pub fn sanitize_text(text: &str) -> (line: String)
    ensures
        line@ == sanitized(text@),
{
    let chars = chars_of(text);
    let mut line = String::new();
    let mut i: usize = 0;
    while i < chars.len()
        invariant
            i <= chars.len(),
            line@ == sanitized(chars@.take(i as int)),
        decreases chars.len() - i,
    {
        let c = chars[i];
        assert(chars@.take(i + 1).drop_last() == chars@.take(i as int));
        if c == '\r' {
        } else if c == '\n' {
            line.push('\\');
            line.push('n');
        } else {
            line.push(c);
        }
        i += 1;
    }
    assert(chars@.take(chars.len() as int) == chars@);
    line
}

/// A sanitized line holds neither a carriage return nor a line feed.
pub proof fn law_sanitized_is_one_line(text: Seq<char>)
    ensures
        forall|i: int|
            0 <= i < sanitized(text).len() ==> sanitized(text)[i] != '\r' && sanitized(text)[i]
                != '\n',
    decreases text.len(),
{
    if text.len() > 0 {
        law_sanitized_is_one_line(text.drop_last());
        let before = sanitized(text.drop_last());
        let line = sanitized(text);
        assert forall|i: int| 0 <= i < line.len() implies line[i] != '\r' && line[i] != '\n' by {
            if i < before.len() {
                assert(line[i] == before[i]);
            }
        }
    }
}

/// The store's form of a provider annotation.
pub open spec fn store_annotation(annotation: ProviderAnnotationView) -> AnnotationView {
    match annotation {
        ProviderAnnotationView::UrlCitation { url_citation } => AnnotationView {
            title: url_citation.title,
            url: url_citation.url,
            content: url_citation.content,
        },
    }
}

/// The store's form of each provider annotation, in order.
pub open spec fn store_annotations(annotations: Seq<ProviderAnnotationView>) -> Seq<AnnotationView> {
    Seq::new(annotations.len(), |i: int| store_annotation(annotations[i]))
}

/// Turns a provider annotation into the record the store keeps.
pub fn openrouter_annotation_to_convex(annotation: ProviderAnnotation) -> (stored: Annotation)
    ensures
        stored@ == store_annotation(annotation@),
{
    match annotation {
        ProviderAnnotation::UrlCitation { url_citation } => Annotation {
            title: url_citation.title,
            url: url_citation.url,
            content: url_citation.content,
        },
    }
}

/// The provider's role for a store role.
pub open spec fn provider_role(role: StoreRole) -> Role {
    match role {
        StoreRole::User => Role::User,
        StoreRole::Assistant => Role::Assistant,
        StoreRole::System => Role::System,
    }
}

/// The text of the text parts of a message, concatenated in order.
pub open spec fn parts_text(parts: Seq<MessagePartView>) -> Seq<char>
    decreases parts.len(),
{
    if parts.len() == 0 {
        Seq::empty()
    } else {
        let before = parts_text(parts.drop_last());
        match parts.last() {
            MessagePartView::Text { text } => before + text,
            MessagePartView::Attachment { .. } => before,
        }
    }
}

/// Turns a stored message into a message for the provider: the role is
/// mapped and the text parts are concatenated into one text part.
pub fn message_to_part(message: Message) -> (request: MessageRequest)
    ensures
        request@ == text_message(provider_role(message.role), parts_text(message@.parts)),
{
    let role = match message.role {
        StoreRole::User => Role::User,
        StoreRole::Assistant => Role::Assistant,
        StoreRole::System => Role::System,
    };
    let mut content = String::new();
    let mut i: usize = 0;
    while i < message.parts.len()
        invariant
            i <= message.parts.len(),
            content@ == parts_text(message@.parts.take(i as int)),
        decreases message.parts.len() - i,
    {
        assert(message@.parts.take(i + 1).drop_last() == message@.parts.take(i as int));
        match &message.parts[i] {
            MessagePart::Text { text } => {
                content.append(text.as_str());
            },
            MessagePart::Attachment { .. } => {},
        }
        i += 1;
    }
    assert(message@.parts.take(message.parts.len() as int) == message@.parts);
    MessageRequest::text(role, content)
}

/// Turns the stored messages of a history into messages for the provider,
/// in order.
pub fn messages_to_parts(history: Vec<Message>) -> (requests: Vec<MessageRequest>)
    ensures
        message_request_views(requests@) == history_requests(history@),
{
    let ghost given = history@;
    let mut requests: Vec<MessageRequest> = Vec::new();
    for message in it: history
        invariant
            it.seq() == given,
            requests.len() == it.index(),
            forall|k: int| 0 <= k < it.index() ==> requests@[k]@ == history_requests(given)[k],
    {
        requests.push(message_to_part(message));
    }
    assert(message_request_views(requests@) =~= history_requests(given));
    requests
}

/// The provider messages of a history, one per stored message.
pub open spec fn history_requests(history: Seq<Message>) -> Seq<MessageRequestView> {
    Seq::new(
        history.len(),
        |i: int| text_message(provider_role(history[i].role), parts_text(history[i]@.parts)),
    )
}

} // verus!
