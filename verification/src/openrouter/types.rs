//! Records exchanged with the completion provider.

use vstd::prelude::*;

verus! {

/// Reply of the model catalogue.
#[derive(Debug, Clone, PartialEq, Eq)]
pub struct ListModelsResponse {
    pub data: Vec<Model>,
}

/// One model of the catalogue.
#[derive(Debug, Clone, PartialEq, Eq)]
pub struct Model {
    /// Identifier used in requests.
    pub id: String,
    /// Permanent slug of the model.
    pub slug: String,
    pub hugging_face_id: Option<String>,
    /// Display name.
    pub name: String,
    /// Unix time at which the model was added.
    pub created: i64,
    pub description: String,
    /// Size of the context window in tokens.
    pub context_length: i64,
    pub architecture: Architecture,
    pub pricing: Pricing,
    pub top_provider: TopProvider,
    pub supported_parameters: Vec<Parameter>,
}

/// What a model reads and writes.
#[derive(Debug, Clone, PartialEq, Eq)]
pub struct Architecture {
    pub modality: ModalitySummary,
    pub input_modalities: Vec<Modality>,
    pub output_modalities: Vec<Modality>,
    pub tokenizer: String,
    pub instruct_type: Option<String>,
}

/// A kind of input or output.
#[derive(Debug, Clone, Copy, PartialEq, Eq, Structural)]
pub enum Modality {
    File,
    Image,
    Text,
}

/// Summary of a model's inputs and outputs.
#[derive(Debug, Clone, Copy, PartialEq, Eq, Structural)]
pub enum ModalitySummary {
    TextImageToText,
    TextToText,
}

/// Prices of a model, as decimal strings.
#[derive(Debug, Clone, PartialEq, Eq)]
pub struct Pricing {
    pub prompt: String,
    pub completion: String,
    pub request: Option<String>,
    pub image: Option<String>,
    pub web_search: Option<String>,
    pub internal_reasoning: Option<String>,
    pub input_cache_read: Option<String>,
    pub input_cache_write: Option<String>,
}

/// A request parameter that a model supports.
#[derive(Debug, Clone, Copy, PartialEq, Eq, Structural)]
pub enum Parameter {
    FrequencyPenalty,
    IncludeReasoning,
    LogitBias,
    Logprobs,
    MaxTokens,
    MinP,
    PresencePenalty,
    Reasoning,
    RepetitionPenalty,
    ResponseFormat,
    Seed,
    Stop,
    StructuredOutputs,
    Temperature,
    ToolChoice,
    Tools,
    TopA,
    TopK,
    TopLogprobs,
    TopP,
    WebSearchOptions,
}

/// Limits of the primary provider of a model.
#[derive(Debug, Clone, Copy, PartialEq, Eq, Structural)]
pub struct TopProvider {
    pub context_length: Option<i64>,
    pub max_completion_tokens: Option<i64>,
    pub is_moderated: bool,
}

/// Author of a message sent to the provider.
#[derive(Debug, Clone, Copy, PartialEq, Eq, Structural)]
pub enum Role {
    User,
    System,
    Assistant,
    Function,
    Tool,
}

/// An image given by its address.
#[derive(Debug, Clone, PartialEq, Eq)]
pub struct ImageUrl {
    pub url: String,
}

/// A file given by name and base64 content.
#[derive(Debug, Clone, PartialEq, Eq)]
pub struct File {
    pub filename: String,
    pub file_data: String,
}

/// One content part of a message sent to the provider.
#[derive(Debug, Clone, PartialEq, Eq)]
pub enum ContentPart {
    Text { text: String },
    Image { image_url: ImageUrl },
    File { file: File },
}

/// Model of a [`ContentPart`].
pub enum ContentPartView {
    Text { text: Seq<char> },
    Image { url: Seq<char> },
    File { filename: Seq<char>, file_data: Seq<char> },
}

impl View for ContentPart {
    type V = ContentPartView;

    open spec fn view(&self) -> ContentPartView {
        match self {
            ContentPart::Text { text } => ContentPartView::Text { text: text@ },
            ContentPart::Image { image_url } => ContentPartView::Image { url: image_url.url@ },
            ContentPart::File { file } => ContentPartView::File {
                filename: file.filename@,
                file_data: file.file_data@,
            },
        }
    }
}

/// One message sent to the provider.
#[derive(Debug, Clone, PartialEq, Eq)]
pub struct MessageRequest {
    pub role: Role,
    pub content: Vec<ContentPart>,
}

/// Model of a [`MessageRequest`].
pub struct MessageRequestView {
    pub role: Role,
    pub content: Seq<ContentPartView>,
}

impl View for MessageRequest {
    type V = MessageRequestView;

    open spec fn view(&self) -> MessageRequestView {
        MessageRequestView {
            role: self.role,
            content: Seq::new(self.content@.len(), |i: int| self.content@[i]@),
        }
    }
}

/// The models of a sequence of messages, item by item.
pub open spec fn message_request_views(items: Seq<MessageRequest>) -> Seq<MessageRequestView> {
    Seq::new(items.len(), |i: int| items[i]@)
}

/// A message with one text part.
pub open spec fn text_message(role: Role, text: Seq<char>) -> MessageRequestView {
    MessageRequestView { role, content: seq![ContentPartView::Text { text }] }
}

impl MessageRequest {
    /// A message of `role` whose content is the one text part `text`.
    pub fn text(role: Role, text: String) -> (message: MessageRequest)
        ensures
            message@ == text_message(role, text@),
    {
        let mut content: Vec<ContentPart> = Vec::new();
        content.push(ContentPart::Text { text });
        let message = MessageRequest { role, content };
        assert(message@.content =~= seq![ContentPartView::Text { text: text@ }]);
        message
    }
}

/// One message of a completed reply.
#[derive(Debug, Clone, PartialEq, Eq)]
pub struct MessageResponse {
    pub role: Role,
    pub content: String,
}

/// How much reasoning to ask for.
#[derive(Debug, Clone, Copy, PartialEq, Eq, Structural)]
pub enum ReasoningEffort {
    Low,
    Medium,
    High,
}

/// The reasoning section of a request.
#[derive(Debug, Clone, Copy, PartialEq, Eq, Structural)]
pub struct ReasoningRequest {
    pub effort: ReasoningEffort,
}

/// Whether the reply should report token usage.
#[derive(Debug, Clone, Copy, PartialEq, Eq, Structural)]
pub struct UsageRequest {
    pub included: bool,
}

/// Options of the file parser plugin.
#[derive(Debug, Clone, PartialEq, Eq)]
pub struct PdfOptions {
    pub engine: Option<String>,
}

/// A plugin to run with the request.
#[derive(Debug, Clone, PartialEq, Eq)]
pub struct PluginRequest {
    pub id: String,
    pub pdf: PdfOptions,
}

/// A completion request.
#[derive(Debug, Clone, PartialEq, Eq)]
pub struct CompletionRequest {
    pub model: String,
    pub messages: Vec<MessageRequest>,
    pub reasoning: Option<ReasoningRequest>,
    pub max_tokens: Option<u32>,
    pub stream: bool,
    pub usage: Option<UsageRequest>,
    pub plugins: Vec<PluginRequest>,
}

/// Model of a [`PluginRequest`].
pub struct PluginRequestView {
    pub id: Seq<char>,
    pub engine: Option<Seq<char>>,
}

impl View for PluginRequest {
    type V = PluginRequestView;

    open spec fn view(&self) -> PluginRequestView {
        PluginRequestView { id: self.id@, engine: optional_text(self.pdf.engine) }
    }
}

/// Model of a [`CompletionRequest`].
pub struct CompletionRequestView {
    pub model: Seq<char>,
    pub messages: Seq<MessageRequestView>,
    pub reasoning: Option<ReasoningRequest>,
    pub max_tokens: Option<u32>,
    pub stream: bool,
    pub usage: Option<UsageRequest>,
    pub plugins: Seq<PluginRequestView>,
}

impl View for CompletionRequest {
    type V = CompletionRequestView;

    open spec fn view(&self) -> CompletionRequestView {
        CompletionRequestView {
            model: self.model@,
            messages: message_request_views(self.messages@),
            reasoning: self.reasoning,
            max_tokens: self.max_tokens,
            stream: self.stream,
            usage: self.usage,
            plugins: Seq::new(self.plugins@.len(), |i: int| self.plugins@[i]@),
        }
    }
}

/// One choice of a completed reply.
#[derive(Debug, Clone, PartialEq, Eq)]
pub struct CompletionChoice {
    pub message: MessageResponse,
}

/// A completed (not streamed) reply.
#[derive(Debug, Clone, PartialEq, Eq)]
pub struct CompletionResponse {
    pub id: String,
    pub choices: Vec<CompletionChoice>,
}

/// One frame of a streamed reply.
#[derive(Debug, Clone, PartialEq, Eq)]
pub struct ChatCompletion {
    pub choices: Vec<ChatChoice>,
    pub usage: Option<ChatUsage>,
}

/// One choice of a frame.
#[derive(Debug, Clone, PartialEq, Eq)]
pub struct ChatChoice {
    pub delta: ChatDelta,
}

/// The increment a choice carries.
#[derive(Debug, Clone, PartialEq, Eq)]
pub enum ChatDelta {
    Text { content: String, reasoning: Option<String>, annotations: Option<Vec<Annotation>> },
    Finished { finish_reason: String },
    Refusal { refusal: String },
}

/// Why a reply ended.
#[derive(Debug, Clone, Copy, PartialEq, Eq, Structural)]
pub enum FinishReason {
    Stop,
    Length,
    ContentFilter,
    ToolUse,
    FunctionCall,
}

/// Token counters of a reply.
#[derive(Debug, Clone, Copy, PartialEq, Eq, Structural)]
pub struct ChatUsage {
    pub prompt_tokens: u32,
    pub completion_tokens: u32,
}

/// A source attached to a text increment.
#[derive(Debug, Clone, PartialEq, Eq)]
pub enum Annotation {
    UrlCitation { url_citation: UrlCitation },
}

/// A cited page.
#[derive(Debug, Clone, PartialEq, Eq)]
pub struct UrlCitation {
    pub title: String,
    pub url: String,
    pub content: String,
}

/// Model of a [`UrlCitation`].
pub struct UrlCitationView {
    pub title: Seq<char>,
    pub url: Seq<char>,
    pub content: Seq<char>,
}

impl View for UrlCitation {
    type V = UrlCitationView;

    open spec fn view(&self) -> UrlCitationView {
        UrlCitationView { title: self.title@, url: self.url@, content: self.content@ }
    }
}

/// Model of an [`Annotation`].
pub enum AnnotationView {
    UrlCitation { url_citation: UrlCitationView },
}

impl View for Annotation {
    type V = AnnotationView;

    open spec fn view(&self) -> AnnotationView {
        match self {
            Annotation::UrlCitation { url_citation } => AnnotationView::UrlCitation {
                url_citation: url_citation@,
            },
        }
    }
}

/// The models of a sequence of annotations, item by item.
pub open spec fn annotation_views(items: Seq<Annotation>) -> Seq<AnnotationView> {
    Seq::new(items.len(), |i: int| items[i]@)
}

/// The scalar values of an optional string.
pub open spec fn optional_text(text: Option<String>) -> Option<Seq<char>> {
    match text {
        Some(t) => Some(t@),
        None => None,
    }
}

/// The models of an optional list of annotations.
pub open spec fn optional_annotations(annotations: Option<Vec<Annotation>>) -> Option<
    Seq<AnnotationView>,
> {
    match annotations {
        Some(items) => Some(annotation_views(items@)),
        None => None,
    }
}

/// Model of a [`ChatDelta`].
pub enum ChatDeltaView {
    Text {
        content: Seq<char>,
        reasoning: Option<Seq<char>>,
        annotations: Option<Seq<AnnotationView>>,
    },
    Finished { finish_reason: Seq<char> },
    Refusal { refusal: Seq<char> },
}

impl View for ChatDelta {
    type V = ChatDeltaView;

    open spec fn view(&self) -> ChatDeltaView {
        match self {
            ChatDelta::Text { content, reasoning, annotations } => ChatDeltaView::Text {
                content: content@,
                reasoning: optional_text(*reasoning),
                annotations: optional_annotations(*annotations),
            },
            ChatDelta::Finished { finish_reason } => ChatDeltaView::Finished {
                finish_reason: finish_reason@,
            },
            ChatDelta::Refusal { refusal } => ChatDeltaView::Refusal { refusal: refusal@ },
        }
    }
}

/// Model of a [`ChatCompletion`]: the increments of its choices and its
/// usage counters.
pub struct ChatCompletionView {
    pub choices: Seq<ChatDeltaView>,
    pub usage: Option<ChatUsage>,
}

impl View for ChatCompletion {
    type V = ChatCompletionView;

    open spec fn view(&self) -> ChatCompletionView {
        ChatCompletionView {
            choices: Seq::new(self.choices@.len(), |i: int| self.choices@[i].delta@),
            usage: self.usage,
        }
    }
}

} // verus!
