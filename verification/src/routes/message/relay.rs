//! The relay of one chat turn, as a state machine.
//!
//! The relay decides; its caller acts. The caller hands each thing that
//! happens to [`StreamRelay::step`] as a [`RelayEvent`] and gets back the
//! actions to perform, in order. An action that calls the store and is
//! refused, or that fails in transport, ends the batch: the caller drops the
//! actions after it and reports the refusal or failure as the next event.

use vstd::prelude::*;

use crate::convex::messages::{
    annotation_views, duplicate_annotations, Annotation, AnnotationArgs, AnnotationView,
    CompleteMessageArgs, CompleteMessageArgsView, Message, MessageStatus, ModelParams, TokenRate,
};
use crate::openrouter::completions::{
    completion_request_view, stream_completions, OpenrouterEvent, OpenrouterEventView,
};
use crate::openrouter::title::{
    generate_title_from_content, title_of, title_request, title_request_view,
};
use crate::openrouter::types::{
    message_request_views, optional_annotations, ChatCompletion, ChatDelta, ChatDeltaView,
    ChatUsage, CompletionRequest, CompletionRequestView, CompletionResponse, MessageRequestView,
};
use crate::openrouter::types::Annotation as ProviderAnnotation;
use crate::openrouter::types::AnnotationView as ProviderAnnotationView;
use crate::openrouter::types::annotation_views as provider_annotation_views;
use crate::routes::message::create::{
    history_requests, messages_to_parts, openrouter_annotation_to_convex, sanitize_text,
    sanitized, store_annotation, store_annotations, ChatContext, ChatEvent, ChatEventView,
    StreamChatError, StreamChatErrorView,
};

verus! {

/// Number of scalar values at which a buffer is flushed to the store.
pub const FLUSH_THRESHOLD: usize = 100;

/// Number of events that the channel to the client holds. A client that
/// does not read holds up the relay once the channel is full.
pub const CLIENT_CHANNEL_CAPACITY: usize = 128;

/// Number of kill signals that the channel of a relay holds.
pub const KILL_CHANNEL_CAPACITY: usize = 1;

/// Name of the header in which a caller brings a key of their own.
pub const CUSTOM_KEY_HEADER: &'static str = "X-OpenRouter-Key";

/// What a completing relay waits for.
#[derive(Debug, Clone, Copy, PartialEq, Eq, Structural)]
pub enum CompletingStep {
    /// The store's answer to the completion of the message.
    Storing,
    /// The thread's messages.
    History,
    /// The title model's reply.
    Title,
    /// The store's answer to the new title.
    TitleStore,
}

/// Where a relay stands.
#[derive(Debug, Clone, Copy, PartialEq, Eq, Structural)]
pub enum RelayPhase {
    /// The provider's stream is being opened.
    Starting,
    /// Frames are relayed; a kill signal is obeyed.
    Streaming,
    /// The turn ended without a kill signal.
    Completing(CompletingStep),
    /// A kill signal came; the store is marking the message cancelled.
    Cancelling,
    /// Nothing more will be done.
    Terminated,
}

/// A store call that appends to the message.
#[derive(Debug, Clone, Copy, PartialEq, Eq, Structural)]
pub enum StoreCall {
    AppendText,
    AppendReasoning,
    AppendAnnotations,
}

/// Something that happened, told to the relay.
#[derive(Debug, PartialEq, Eq)]
pub enum RelayEvent {
    /// The provider's stream is open.
    SourceOpened,
    /// The next item of the provider's stream, `None` where the stream
    /// closed, with the milliseconds since the relay began.
    Provider { event: Option<OpenrouterEvent>, elapsed_ms: u64 },
    /// The kill signal came, or its channel closed.
    Kill,
    /// The store answered the cancellation of the message.
    Cancelled { stored: bool },
    /// The store answered the completion of the message.
    Completed { stored: bool },
    /// The thread's messages.
    History { messages: Vec<Message> },
    /// The title model's reply.
    Title { reply: CompletionResponse },
    /// The store answered the new title.
    TitleStored { stored: bool },
    /// The store refused an append.
    Rejected { call: StoreCall },
    /// The stream could not be opened, or a call failed in transport.
    Failed { error: StreamChatError },
}

/// Model of a [`RelayEvent`].
pub enum RelayEventView {
    SourceOpened,
    Provider { event: Option<OpenrouterEventView>, elapsed_ms: u64 },
    Kill,
    Cancelled { stored: bool },
    Completed { stored: bool },
    /// The history as the messages sent to the provider.
    History { messages: Seq<MessageRequestView> },
    /// The title that the reply holds, if any.
    Title { title: Option<Seq<char>> },
    TitleStored { stored: bool },
    Rejected { call: StoreCall },
    Failed { error: StreamChatErrorView },
}

impl View for RelayEvent {
    type V = RelayEventView;

    open spec fn view(&self) -> RelayEventView {
        match self {
            RelayEvent::SourceOpened => RelayEventView::SourceOpened,
            RelayEvent::Provider { event, elapsed_ms } => RelayEventView::Provider {
                event: match event {
                    Some(e) => Some(e@),
                    None => None,
                },
                elapsed_ms: *elapsed_ms,
            },
            RelayEvent::Kill => RelayEventView::Kill,
            RelayEvent::Cancelled { stored } => RelayEventView::Cancelled { stored: *stored },
            RelayEvent::Completed { stored } => RelayEventView::Completed { stored: *stored },
            RelayEvent::History { messages } => RelayEventView::History {
                messages: history_requests(messages@),
            },
            RelayEvent::Title { reply } => RelayEventView::Title { title: title_of(*reply) },
            RelayEvent::TitleStored { stored } => RelayEventView::TitleStored { stored: *stored },
            RelayEvent::Rejected { call } => RelayEventView::Rejected { call: *call },
            RelayEvent::Failed { error } => RelayEventView::Failed { error: error@ },
        }
    }
}

/// Something the relay asks its caller to do.
#[derive(Debug, PartialEq, Eq)]
pub enum RelayAction {
    /// Send the event to the client. A failure to send is ignored.
    Emit(ChatEvent),
    /// Append text to the message in the store.
    AppendText { message_id: String, text: String },
    /// Append reasoning to the message in the store.
    AppendReasoning { message_id: String, reasoning: String },
    /// Append annotations to the message in the store.
    AppendAnnotations(AnnotationArgs),
    /// Abort the connection to the provider.
    CancelUpstream,
    /// Mark the message cancelled in the store; answered by
    /// [`RelayEvent::Cancelled`].
    CancelMessage { message_id: String },
    /// Complete the message in the store; answered by
    /// [`RelayEvent::Completed`].
    Complete(CompleteMessageArgs),
    /// Fetch the thread's messages; answered by [`RelayEvent::History`].
    FetchHistory { thread_id: String },
    /// Ask the title model; answered by [`RelayEvent::Title`].
    GenerateTitle { thread_id: String, request: CompletionRequest },
    /// Set the thread's title in the store; answered by
    /// [`RelayEvent::TitleStored`].
    SetTitle { thread_id: String, title: String },
}

/// Model of a [`RelayAction`].
pub enum RelayActionView {
    Emit(ChatEventView),
    AppendText { message_id: Seq<char>, text: Seq<char> },
    AppendReasoning { message_id: Seq<char>, reasoning: Seq<char> },
    AppendAnnotations { message_id: Seq<char>, annotations: Seq<AnnotationView> },
    CancelUpstream,
    CancelMessage { message_id: Seq<char> },
    Complete(CompleteMessageArgsView),
    FetchHistory { thread_id: Seq<char> },
    GenerateTitle { thread_id: Seq<char>, request: CompletionRequestView },
    SetTitle { thread_id: Seq<char>, title: Seq<char> },
}

impl View for RelayAction {
    type V = RelayActionView;

    open spec fn view(&self) -> RelayActionView {
        match self {
            RelayAction::Emit(event) => RelayActionView::Emit(event@),
            RelayAction::AppendText { message_id, text } => RelayActionView::AppendText {
                message_id: message_id@,
                text: text@,
            },
            RelayAction::AppendReasoning { message_id, reasoning } => RelayActionView::AppendReasoning {
                message_id: message_id@,
                reasoning: reasoning@,
            },
            RelayAction::AppendAnnotations(args) => RelayActionView::AppendAnnotations {
                message_id: args.message_id@,
                annotations: annotation_views(args.annotations@),
            },
            RelayAction::CancelUpstream => RelayActionView::CancelUpstream,
            RelayAction::CancelMessage { message_id } => RelayActionView::CancelMessage {
                message_id: message_id@,
            },
            RelayAction::Complete(args) => RelayActionView::Complete(args@),
            RelayAction::FetchHistory { thread_id } => RelayActionView::FetchHistory {
                thread_id: thread_id@,
            },
            RelayAction::GenerateTitle { thread_id, request } => RelayActionView::GenerateTitle {
                thread_id: thread_id@,
                request: request@,
            },
            RelayAction::SetTitle { thread_id, title } => RelayActionView::SetTitle {
                thread_id: thread_id@,
                title: title@,
            },
        }
    }
}

/// The models of a sequence of actions, item by item.
pub open spec fn action_views(actions: Seq<RelayAction>) -> Seq<RelayActionView> {
    Seq::new(actions.len(), |i: int| actions[i]@)
}

/// How a relay ended: `Ok` where the message was completed or cancelled.
pub open spec fn outcome_view(outcome: Option<Result<(), StreamChatError>>) -> Option<
    Result<(), StreamChatErrorView>,
> {
    match outcome {
        Some(Ok(())) => Some(Ok(())),
        Some(Err(error)) => Some(Err(error@)),
        None => None,
    }
}

/// What one event makes of a relay.
pub struct RelayStep {
    /// What the caller is to do, in order.
    pub actions: Vec<RelayAction>,
    /// How the relay ended, where this event ended it.
    pub outcome: Option<Result<(), StreamChatError>>,
}

/// Model of a relay.
pub struct RelayView {
    pub phase: RelayPhase,
    pub message_id: Seq<char>,
    pub thread_id: Seq<char>,
    pub model: Seq<char>,
    pub model_params: Option<ModelParams>,
    /// Whether the thread had no title when the relay began.
    pub set_title: bool,
    /// The model that is asked for a title.
    pub title_model: Seq<char>,
    /// Text that came and is not yet stored.
    pub text_buffer: Seq<char>,
    /// Reasoning that came and is not yet stored.
    pub reasoning_buffer: Seq<char>,
    pub prompt_tokens: u32,
    pub completion_tokens: u32,
    /// Milliseconds from the relay's start to its first text or reasoning.
    pub first_token_ms: Option<u64>,
}

/// Model of a [`RelayStep`], with the relay as the event leaves it.
pub struct RelayStepView {
    pub state: RelayView,
    pub actions: Seq<RelayActionView>,
    pub outcome: Option<Result<(), StreamChatErrorView>>,
}

/// Tokens per second of a run of `duration_ms` milliseconds that produced
/// `tokens` tokens: the tokens divided by the seconds, or the bare token
/// count where no time passed.
pub open spec fn token_rate(tokens: u32, duration_ms: u64) -> TokenRate {
    if duration_ms > 0 {
        TokenRate { numerator: (tokens * 1000) as u64, denominator: duration_ms }
    } else {
        TokenRate { numerator: tokens as u64, denominator: 1 }
    }
}

/// The error that a refused append ends the relay with. A refused append of
/// reasoning is reported as a refused append of text.
pub open spec fn rejection_error(call: StoreCall) -> StreamChatErrorView {
    match call {
        StoreCall::AppendText => StreamChatErrorView::AppendText,
        StoreCall::AppendReasoning => StreamChatErrorView::AppendText,
        StoreCall::AppendAnnotations => StreamChatErrorView::AppendAnnotations,
    }
}

/// The text that reports an empty title for the thread `thread_id`.
pub open spec fn empty_title_message(thread_id: Seq<char>) -> Seq<char> {
    "Generated title is empty for thread: "@ + thread_id
}

/// What an item of the provider's stream delivers.
pub enum Delivery {
    /// Nothing to relay: a frame without choices.
    Nothing,
    /// An increment of text, or of reasoning where `reasoning` holds, with
    /// the annotations that came with it.
    Increment {
        reasoning: bool,
        text: Seq<char>,
        annotations: Option<Seq<ProviderAnnotationView>>,
    },
    /// The end of the turn, as the event that tells the client.
    Terminal(ChatEventView),
}

/// What an item of the provider's stream delivers; `None` is the closed
/// stream. Of a frame the first choice decides: a text increment that
/// carries reasoning delivers the reasoning and not its content.
pub open spec fn delivery(event: Option<OpenrouterEventView>) -> Delivery {
    match event {
        None => Delivery::Terminal(ChatEventView::End),
        Some(OpenrouterEventView::Unauthorized) => Delivery::Terminal(ChatEventView::Unauthorized),
        Some(OpenrouterEventView::Error) => Delivery::Terminal(ChatEventView::Error),
        Some(OpenrouterEventView::Completion(completion)) => if completion.choices.len() == 0 {
            Delivery::Nothing
        } else {
            match completion.choices[0] {
                ChatDeltaView::Text { content, reasoning, annotations } => match reasoning {
                    Some(thought) => Delivery::Increment {
                        reasoning: true,
                        text: thought,
                        annotations,
                    },
                    None => Delivery::Increment { reasoning: false, text: content, annotations },
                },
                ChatDeltaView::Finished { .. } => Delivery::Terminal(ChatEventView::End),
                ChatDeltaView::Refusal { refusal } => Delivery::Terminal(
                    ChatEventView::Refusal(refusal),
                ),
            }
        },
    }
}

/// The usage counters that an item of the provider's stream carries.
pub open spec fn usage_of(event: Option<OpenrouterEventView>) -> Option<ChatUsage> {
    match event {
        Some(OpenrouterEventView::Completion(completion)) => completion.usage,
        _ => None,
    }
}

impl RelayView {
    /// A relay that has not begun to stream.
    pub open spec fn initial(
        message_id: Seq<char>,
        thread_id: Seq<char>,
        model: Seq<char>,
        model_params: Option<ModelParams>,
        set_title: bool,
        title_model: Seq<char>,
    ) -> RelayView {
        RelayView {
            phase: RelayPhase::Starting,
            message_id,
            thread_id,
            model,
            model_params,
            set_title,
            title_model,
            text_buffer: Seq::empty(),
            reasoning_buffer: Seq::empty(),
            prompt_tokens: 0,
            completion_tokens: 0,
            first_token_ms: None,
        }
    }

    /// The step of an event that changes nothing.
    pub open spec fn ignore(self) -> RelayStepView {
        RelayStepView { state: self, actions: Seq::empty(), outcome: None }
    }

    /// The step that ends the relay with `outcome` after `actions`.
    pub open spec fn end(
        self,
        actions: Seq<RelayActionView>,
        outcome: Result<(), StreamChatErrorView>,
    ) -> RelayStepView {
        RelayStepView {
            state: RelayView { phase: RelayPhase::Terminated, ..self },
            actions,
            outcome: Some(outcome),
        }
    }

    /// The relay with the counters of `usage`, where a frame carries them.
    pub open spec fn with_usage(self, usage: Option<ChatUsage>) -> RelayView {
        match usage {
            Some(u) => RelayView {
                prompt_tokens: u.prompt_tokens,
                completion_tokens: u.completion_tokens,
                ..self
            },
            None => self,
        }
    }

    /// The usage of a run that ended `elapsed_ms` milliseconds after it
    /// began.
    pub open spec fn usage(self, elapsed_ms: u64) -> CompleteMessageArgsView {
        CompleteMessageArgsView {
            message_id: self.message_id,
            model: self.model,
            model_params: self.model_params,
            time_to_first_token_ms: match self.first_token_ms {
                Some(ms) => ms,
                None => 0,
            },
            prompt_token_count: self.prompt_tokens,
            token_count: self.completion_tokens,
            duration_ms: elapsed_ms,
            tokens_per_second: token_rate(self.completion_tokens, elapsed_ms),
        }
    }

    /// The appends that store what the buffers still hold.
    pub open spec fn last_flush(self) -> Seq<RelayActionView> {
        (if self.text_buffer.len() > 0 {
            seq![RelayActionView::AppendText { message_id: self.message_id, text: self.text_buffer }]
        } else {
            Seq::empty()
        }) + (if self.reasoning_buffer.len() > 0 {
            seq![
                RelayActionView::AppendReasoning {
                    message_id: self.message_id,
                    reasoning: self.reasoning_buffer,
                },
            ]
        } else {
            Seq::empty()
        })
    }

    /// The step of the terminal event `event`: what is buffered is stored,
    /// the event is sent and the message is completed with its usage.
    pub open spec fn finish(self, event: ChatEventView, elapsed_ms: u64) -> RelayStepView {
        RelayStepView {
            state: RelayView {
                phase: RelayPhase::Completing(CompletingStep::Storing),
                text_buffer: Seq::empty(),
                reasoning_buffer: Seq::empty(),
                ..self
            },
            actions: self.last_flush() + seq![
                RelayActionView::Emit(event),
                RelayActionView::Complete(self.usage(elapsed_ms)),
            ],
            outcome: None,
        }
    }

    /// The actions for the annotations of a text increment: where there are
    /// some, they are sent to the client and appended in the store.
    pub open spec fn cite(self, annotations: Option<Seq<ProviderAnnotationView>>) -> Seq<
        RelayActionView,
    > {
        match annotations {
            Some(items) if items.len() > 0 => seq![
                RelayActionView::Emit(ChatEventView::Annotations(store_annotations(items))),
                RelayActionView::AppendAnnotations {
                    message_id: self.message_id,
                    annotations: store_annotations(items),
                },
            ],
            _ => Seq::empty(),
        }
    }

    /// The step of an increment of text (or of reasoning, where
    /// `reasoning`): annotations first, then the sanitized increment is sent
    /// to the client, then each buffer that has reached the threshold is
    /// stored and emptied.
    pub open spec fn on_text(
        self,
        reasoning: bool,
        text: Seq<char>,
        annotations: Option<Seq<ProviderAnnotationView>>,
        elapsed_ms: u64,
    ) -> RelayStepView {
        let text_buffer = if reasoning {
            self.text_buffer
        } else {
            self.text_buffer + text
        };
        let reasoning_buffer = if reasoning {
            self.reasoning_buffer + text
        } else {
            self.reasoning_buffer
        };
        let flush_text = text_buffer.len() >= FLUSH_THRESHOLD;
        let flush_reasoning = reasoning_buffer.len() >= FLUSH_THRESHOLD;
        RelayStepView {
            state: RelayView {
                first_token_ms: match self.first_token_ms {
                    Some(ms) => Some(ms),
                    None => Some(elapsed_ms),
                },
                text_buffer: if flush_text {
                    Seq::empty()
                } else {
                    text_buffer
                },
                reasoning_buffer: if flush_reasoning {
                    Seq::empty()
                } else {
                    reasoning_buffer
                },
                ..self
            },
            actions: self.cite(annotations) + seq![
                RelayActionView::Emit(
                    if reasoning {
                        ChatEventView::Reasoning(sanitized(text))
                    } else {
                        ChatEventView::Text(sanitized(text))
                    },
                ),
            ] + (if flush_text {
                seq![RelayActionView::AppendText { message_id: self.message_id, text: text_buffer }]
            } else {
                Seq::empty()
            }) + (if flush_reasoning {
                seq![
                    RelayActionView::AppendReasoning {
                        message_id: self.message_id,
                        reasoning: reasoning_buffer,
                    },
                ]
            } else {
                Seq::empty()
            }),
            outcome: None,
        }
    }

    /// The step of an item of the provider's stream while streaming: the
    /// usage counters that the item carries are kept, then the item is
    /// relayed as what it delivers.
    pub open spec fn on_provider(
        self,
        event: Option<OpenrouterEventView>,
        elapsed_ms: u64,
    ) -> RelayStepView {
        let counted = self.with_usage(usage_of(event));
        match delivery(event) {
            Delivery::Nothing => counted.ignore(),
            Delivery::Increment { reasoning, text, annotations } => counted.on_text(
                reasoning,
                text,
                annotations,
                elapsed_ms,
            ),
            Delivery::Terminal(event) => counted.finish(event, elapsed_ms),
        }
    }

    /// The relay in `phase`, with no action.
    pub open spec fn goto(self, phase: RelayPhase, actions: Seq<RelayActionView>) -> RelayStepView {
        RelayStepView { state: RelayView { phase, ..self }, actions, outcome: None }
    }

    /// What an event makes of the relay. An event that the phase does not
    /// await changes nothing.
    pub open spec fn step(self, event: RelayEventView) -> RelayStepView {
        match event {
            RelayEventView::SourceOpened => if self.phase is Starting {
                self.goto(RelayPhase::Streaming, Seq::empty())
            } else {
                self.ignore()
            },
            RelayEventView::Provider { event, elapsed_ms } => if self.phase is Streaming {
                self.on_provider(event, elapsed_ms)
            } else {
                self.ignore()
            },
            RelayEventView::Kill => if self.phase is Streaming {
                self.goto(
                    RelayPhase::Cancelling,
                    seq![
                        RelayActionView::CancelUpstream,
                        RelayActionView::CancelMessage { message_id: self.message_id },
                    ],
                )
            } else {
                self.ignore()
            },
            RelayEventView::Cancelled { stored } => if self.phase is Cancelling {
                self.end(seq![RelayActionView::Emit(ChatEventView::Cancelled)], Ok(()))
            } else {
                self.ignore()
            },
            RelayEventView::Completed { stored } => if self.phase == RelayPhase::Completing(
                CompletingStep::Storing,
            ) {
                if !stored {
                    self.end(Seq::empty(), Err(StreamChatErrorView::CompleteMessage))
                } else if self.set_title {
                    self.goto(
                        RelayPhase::Completing(CompletingStep::History),
                        seq![RelayActionView::FetchHistory { thread_id: self.thread_id }],
                    )
                } else {
                    self.end(Seq::empty(), Ok(()))
                }
            } else {
                self.ignore()
            },
            RelayEventView::History { messages } => if self.phase == RelayPhase::Completing(
                CompletingStep::History,
            ) {
                self.goto(
                    RelayPhase::Completing(CompletingStep::Title),
                    seq![
                        RelayActionView::GenerateTitle {
                            thread_id: self.thread_id,
                            request: title_request_view(self.title_model, messages),
                        },
                    ],
                )
            } else {
                self.ignore()
            },
            RelayEventView::Title { title } => if self.phase == RelayPhase::Completing(
                CompletingStep::Title,
            ) {
                match title {
                    Some(title) => self.goto(
                        RelayPhase::Completing(CompletingStep::TitleStore),
                        seq![RelayActionView::SetTitle { thread_id: self.thread_id, title }],
                    ),
                    None => self.end(
                        Seq::empty(),
                        Err(StreamChatErrorView::Unexpected(empty_title_message(self.thread_id))),
                    ),
                }
            } else {
                self.ignore()
            },
            RelayEventView::TitleStored { stored } => if self.phase == RelayPhase::Completing(
                CompletingStep::TitleStore,
            ) {
                if stored {
                    self.end(Seq::empty(), Ok(()))
                } else {
                    self.end(Seq::empty(), Err(StreamChatErrorView::SetThreadTitle))
                }
            } else {
                self.ignore()
            },
            RelayEventView::Rejected { call } => if self.phase is Terminated {
                self.ignore()
            } else {
                self.end(Seq::empty(), Err(rejection_error(call)))
            },
            RelayEventView::Failed { error } => if self.phase is Terminated {
                self.ignore()
            } else {
                self.end(Seq::empty(), Err(error))
            },
        }
    }
}

/// The model of what a step hands back, with the relay as the step left it.
pub open spec fn step_view(state: RelayView, step: RelayStep) -> RelayStepView {
    RelayStepView {
        state,
        actions: action_views(step.actions@),
        outcome: outcome_view(step.outcome),
    }
}

/// Tokens per second of a run: the tokens divided by the seconds, or the
/// bare token count where no time passed.
pub fn tokens_per_second(tokens: u32, duration_ms: u64) -> (rate: TokenRate)
    ensures
        rate == token_rate(tokens, duration_ms),
        rate.denominator > 0,
{
    if duration_ms > 0 {
        TokenRate { numerator: tokens as u64 * 1000, denominator: duration_ms }
    } else {
        TokenRate { numerator: tokens as u64, denominator: 1 }
    }
}

/// The relay of one chat turn.
pub struct StreamRelay {
    phase: RelayPhase,
    message_id: String,
    thread_id: String,
    model: String,
    model_params: Option<ModelParams>,
    set_title: bool,
    title_model: String,
    text_buffer: String,
    reasoning_buffer: String,
    prompt_tokens: u32,
    completion_tokens: u32,
    first_token_ms: Option<u64>,
}

impl View for StreamRelay {
    type V = RelayView;

    closed spec fn view(&self) -> RelayView {
        RelayView {
            phase: self.phase,
            message_id: self.message_id@,
            thread_id: self.thread_id@,
            model: self.model@,
            model_params: self.model_params,
            set_title: self.set_title,
            title_model: self.title_model@,
            text_buffer: self.text_buffer@,
            reasoning_buffer: self.reasoning_buffer@,
            prompt_tokens: self.prompt_tokens,
            completion_tokens: self.completion_tokens,
            first_token_ms: self.first_token_ms,
        }
    }
}

impl StreamRelay {
    /// A relay for the message `message_id` of the thread `thread_id`, about
    /// to open the provider's stream. `set_title` says that the thread has no
    /// title yet; `title_model` is the model to ask for one.
    pub fn new(
        message_id: String,
        thread_id: String,
        model: String,
        model_params: Option<ModelParams>,
        set_title: bool,
        title_model: String,
    ) -> (relay: StreamRelay)
        ensures
            relay@ == RelayView::initial(
                message_id@,
                thread_id@,
                model@,
                model_params,
                set_title,
                title_model@,
            ),
    {
        StreamRelay {
            phase: RelayPhase::Starting,
            message_id,
            thread_id,
            model,
            model_params,
            set_title,
            title_model,
            text_buffer: String::new(),
            reasoning_buffer: String::new(),
            prompt_tokens: 0,
            completion_tokens: 0,
            first_token_ms: None,
        }
    }

    /// The relay of the chat turn of `context`, and the request that opens
    /// the provider's stream for it. The message of the context is pending:
    /// no relay is made, and nothing is asked of the provider, for a message
    /// in another state.
    pub fn start(context: ChatContext) -> (started: (StreamRelay, CompletionRequest))
        requires
            context.message.status == Some(MessageStatus::Pending),
        ensures
            started.0@ == RelayView::initial(
                context.message.id@,
                context.thread.id@,
                context.stored_model@,
                context.model_params,
                context.set_title,
                context.title_model@,
            ),
            started.1@ == completion_request_view(
                context.model@,
                message_request_views(context.messages@),
                None,
                context.reasoning_effort,
                false,
                true,
            ),
    {
        let request = stream_completions(
            context.model.as_str(),
            context.messages,
            None,
            context.reasoning_effort,
            false,
        );
        let relay = StreamRelay::new(
            context.message.id,
            context.thread.id,
            context.stored_model,
            context.model_params,
            context.set_title,
            context.title_model,
        );
        (relay, request)
    }

    /// Where the relay stands.
    pub fn phase(&self) -> (phase: RelayPhase)
        ensures
            phase == self@.phase,
    {
        self.phase
    }

    /// Whether the relay has ended.
    pub fn is_terminated(&self) -> (ended: bool)
        ensures
            ended == (self@.phase is Terminated),
    {
        match self.phase {
            RelayPhase::Terminated => true,
            _ => false,
        }
    }

    /// The text that came and is not yet stored.
    pub fn buffered_text(&self) -> (text: &str)
        ensures
            text@ == self@.text_buffer,
    {
        self.text_buffer.as_str()
    }

    /// The reasoning that came and is not yet stored.
    pub fn buffered_reasoning(&self) -> (text: &str)
        ensures
            text@ == self@.reasoning_buffer,
    {
        self.reasoning_buffer.as_str()
    }

    /// The usage of the run, had it ended `elapsed_ms` milliseconds after it
    /// began.
    pub fn usage(&self, elapsed_ms: u64) -> (args: CompleteMessageArgs)
        ensures
            args@ == self@.usage(elapsed_ms),
    {
        CompleteMessageArgs {
            message_id: self.message_id.clone(),
            model: self.model.clone(),
            model_params: self.model_params,
            time_to_first_token_ms: match self.first_token_ms {
                Some(ms) => ms,
                None => 0,
            },
            prompt_token_count: self.prompt_tokens,
            token_count: self.completion_tokens,
            duration_ms: elapsed_ms,
            tokens_per_second: tokens_per_second(self.completion_tokens, elapsed_ms),
        }
    }

    /// The step of an event that changes nothing.
    fn ignore(&self) -> (step: RelayStep)
        ensures
            step_view(self@, step) == self@.ignore(),
    {
        let step = RelayStep { actions: Vec::new(), outcome: None };
        assert(action_views(step.actions@) =~= Seq::empty());
        step
    }

    /// Moves to `phase` and asks for `actions`.
    fn goto(&mut self, phase: RelayPhase, actions: Vec<RelayAction>) -> (step: RelayStep)
        ensures
            step_view(final(self)@, step) == old(self)@.goto(phase, action_views(actions@)),
    {
        self.phase = phase;
        RelayStep { actions, outcome: None }
    }

    /// Ends the relay with `outcome` after `actions`.
    fn end(&mut self, actions: Vec<RelayAction>, outcome: Result<(), StreamChatError>) -> (step:
        RelayStep)
        ensures
            step_view(final(self)@, step) == old(self)@.end(
                action_views(actions@),
                outcome_view(Some(outcome))->Some_0,
            ),
    {
        self.phase = RelayPhase::Terminated;
        RelayStep { actions, outcome: Some(outcome) }
    }

    /// The step of the terminal event `event`.
    fn finish(&mut self, event: ChatEvent, elapsed_ms: u64) -> (step: RelayStep)
        ensures
            step_view(final(self)@, step) == old(self)@.finish(event@, elapsed_ms),
    {
        let mut actions: Vec<RelayAction> = Vec::new();
        if !self.text_buffer.as_str().is_empty() {
            let text = self.text_buffer.clone();
            actions.push(RelayAction::AppendText { message_id: self.message_id.clone(), text });
        }
        if !self.reasoning_buffer.as_str().is_empty() {
            let reasoning = self.reasoning_buffer.clone();
            actions.push(
                RelayAction::AppendReasoning { message_id: self.message_id.clone(), reasoning },
            );
        }
        assert(action_views(actions@) =~= old(self)@.last_flush());
        actions.push(RelayAction::Emit(event));
        actions.push(RelayAction::Complete(self.usage(elapsed_ms)));
        assert(action_views(actions@) =~= old(self)@.finish(event@, elapsed_ms).actions);
        self.text_buffer = String::new();
        self.reasoning_buffer = String::new();
        self.phase = RelayPhase::Completing(CompletingStep::Storing);
        RelayStep { actions, outcome: None }
    }

    /// The step of an increment of text, or of reasoning where `reasoning`.
    fn on_text(
        &mut self,
        reasoning: bool,
        text: String,
        annotations: Option<Vec<ProviderAnnotation>>,
        elapsed_ms: u64,
    ) -> (step: RelayStep)
        ensures
            step_view(final(self)@, step) == old(self)@.on_text(
                reasoning,
                text@,
                optional_annotations(annotations),
                elapsed_ms,
            ),
    {
        let ghost before = self@;
        let ghost cited = optional_annotations(annotations);
        let ghost expected = before.on_text(reasoning, text@, cited, elapsed_ms);
        if self.first_token_ms.is_none() {
            self.first_token_ms = Some(elapsed_ms);
        }
        let mut actions: Vec<RelayAction> = Vec::new();
        let event = if reasoning {
            self.reasoning_buffer.append(text.as_str());
            ChatEvent::Reasoning(sanitize_text(text.as_str()))
        } else {
            self.text_buffer.append(text.as_str());
            ChatEvent::Text(sanitize_text(text.as_str()))
        };
        match annotations {
            Some(items) => {
                let ghost given = provider_annotation_views(items@);
                let stored = convert_annotations(items);
                assert(annotation_views(stored@).len() == stored@.len());
                assert(store_annotations(given).len() == given.len());
                if stored.len() > 0 {
                    let copy = duplicate_annotations(&stored);
                    actions.push(RelayAction::Emit(ChatEvent::Annotations(copy)));
                    actions.push(
                        RelayAction::AppendAnnotations(
                            AnnotationArgs {
                                message_id: self.message_id.clone(),
                                annotations: stored,
                            },
                        ),
                    );
                }
            },
            None => {},
        }
        assert(action_views(actions@) =~= before.cite(cited));
        actions.push(RelayAction::Emit(event));
        if self.text_buffer.as_str().unicode_len() >= FLUSH_THRESHOLD {
            let text = self.text_buffer.clone();
            actions.push(RelayAction::AppendText { message_id: self.message_id.clone(), text });
            self.text_buffer = String::new();
        }
        if self.reasoning_buffer.as_str().unicode_len() >= FLUSH_THRESHOLD {
            let reasoning = self.reasoning_buffer.clone();
            actions.push(
                RelayAction::AppendReasoning { message_id: self.message_id.clone(), reasoning },
            );
            self.reasoning_buffer = String::new();
        }
        assert(action_views(actions@) =~= expected.actions);
        RelayStep { actions, outcome: None }
    }
}

impl StreamRelay {
    /// The step of a decoded frame.
    fn on_completion(&mut self, completion: ChatCompletion, elapsed_ms: u64) -> (step: RelayStep)
        ensures
            step_view(final(self)@, step) == old(self)@.on_provider(
                Some(OpenrouterEventView::Completion(completion@)),
                elapsed_ms,
            ),
    {
        let mut completion = completion;
        match completion.usage {
            Some(usage) => {
                self.prompt_tokens = usage.prompt_tokens;
                self.completion_tokens = usage.completion_tokens;
            },
            None => {},
        }
        if completion.choices.len() == 0 {
            return self.ignore();
        }
        let choice = completion.choices.remove(0);
        match choice.delta {
            ChatDelta::Text { content, reasoning, annotations } => match reasoning {
                Some(thought) => self.on_text(true, thought, annotations, elapsed_ms),
                None => self.on_text(false, content, annotations, elapsed_ms),
            },
            ChatDelta::Finished { .. } => self.finish(ChatEvent::End, elapsed_ms),
            ChatDelta::Refusal { refusal } => self.finish(ChatEvent::Refusal(refusal), elapsed_ms),
        }
    }

    /// The step of an item of the provider's stream while streaming.
    fn on_provider(&mut self, event: Option<OpenrouterEvent>, elapsed_ms: u64) -> (step: RelayStep)
        ensures
            step_view(final(self)@, step) == old(self)@.on_provider(
                match event {
                    Some(e) => Some(e@),
                    None => None,
                },
                elapsed_ms,
            ),
    {
        match event {
            None => self.finish(ChatEvent::End, elapsed_ms),
            Some(OpenrouterEvent::Unauthorized) => self.finish(ChatEvent::Unauthorized, elapsed_ms),
            Some(OpenrouterEvent::Error) => self.finish(ChatEvent::Error, elapsed_ms),
            Some(OpenrouterEvent::Completion(completion)) => self.on_completion(
                completion,
                elapsed_ms,
            ),
        }
    }

    /// The step of the store's answer to the completion of the message.
    fn on_completed(&mut self, stored: bool) -> (step: RelayStep)
        requires
            old(self)@.phase == RelayPhase::Completing(CompletingStep::Storing),
        ensures
            step_view(final(self)@, step) == old(self)@.step(RelayEventView::Completed { stored }),
    {
        if !stored {
            let step = self.end(Vec::new(), Err(StreamChatError::CompleteMessage));
            assert(step_view(self@, step).actions =~= Seq::empty());
            step
        } else if self.set_title {
            let mut actions: Vec<RelayAction> = Vec::new();
            actions.push(RelayAction::FetchHistory { thread_id: self.thread_id.clone() });
            assert(action_views(actions@) =~= seq![
                RelayActionView::FetchHistory { thread_id: self@.thread_id },
            ]);
            self.goto(RelayPhase::Completing(CompletingStep::History), actions)
        } else {
            let step = self.end(Vec::new(), Ok(()));
            assert(step_view(self@, step).actions =~= Seq::empty());
            step
        }
    }

    /// The step of the thread's messages: the title model is asked.
    fn on_history(&mut self, messages: Vec<Message>) -> (step: RelayStep)
        requires
            old(self)@.phase == RelayPhase::Completing(CompletingStep::History),
        ensures
            step_view(final(self)@, step) == old(self)@.step(
                RelayEventView::History { messages: history_requests(messages@) },
            ),
    {
        let ghost history = messages@;
        let request = title_request(self.title_model.as_str(), messages_to_parts(messages));
        let mut actions: Vec<RelayAction> = Vec::new();
        actions.push(RelayAction::GenerateTitle { thread_id: self.thread_id.clone(), request });
        assert(action_views(actions@) =~= seq![
            RelayActionView::GenerateTitle {
                thread_id: self@.thread_id,
                request: title_request_view(self@.title_model, history_requests(history)),
            },
        ]);
        self.goto(RelayPhase::Completing(CompletingStep::Title), actions)
    }

    /// The step of the title model's reply: the title is set, or the relay
    /// ends where the reply holds none.
    fn on_title(&mut self, reply: CompletionResponse) -> (step: RelayStep)
        requires
            old(self)@.phase == RelayPhase::Completing(CompletingStep::Title),
        ensures
            step_view(final(self)@, step) == old(self)@.step(
                RelayEventView::Title { title: title_of(reply) },
            ),
    {
        match generate_title_from_content(&reply) {
            Some(title) => {
                let mut actions: Vec<RelayAction> = Vec::new();
                actions.push(RelayAction::SetTitle { thread_id: self.thread_id.clone(), title });
                assert(action_views(actions@) =~= seq![
                    RelayActionView::SetTitle { thread_id: self@.thread_id, title: title@ },
                ]);
                self.goto(RelayPhase::Completing(CompletingStep::TitleStore), actions)
            },
            None => {
                let mut text = "Generated title is empty for thread: ".to_owned();
                text.append(self.thread_id.as_str());
                let step = self.end(Vec::new(), Err(StreamChatError::Unexpected(text)));
                assert(step_view(self@, step).actions =~= Seq::empty());
                step
            },
        }
    }

    /// Tells the relay what happened and gets back what to do.
    ///
    /// The actions are to be performed in order. An event that the relay's
    /// phase does not await changes nothing and asks for nothing.
    pub fn step(&mut self, event: RelayEvent) -> (step: RelayStep)
        ensures
            step_view(final(self)@, step) == old(self)@.step(event@),
    {
        match event {
            RelayEvent::SourceOpened => match self.phase {
                RelayPhase::Starting => {
                    let step = self.goto(RelayPhase::Streaming, Vec::new());
                    assert(step_view(self@, step).actions =~= Seq::empty());
                    step
                },
                _ => self.ignore(),
            },
            RelayEvent::Provider { event, elapsed_ms } => match self.phase {
                RelayPhase::Streaming => self.on_provider(event, elapsed_ms),
                _ => self.ignore(),
            },
            RelayEvent::Kill => match self.phase {
                RelayPhase::Streaming => {
                    let mut actions: Vec<RelayAction> = Vec::new();
                    actions.push(RelayAction::CancelUpstream);
                    actions.push(RelayAction::CancelMessage { message_id: self.message_id.clone() });
                    assert(action_views(actions@) =~= seq![
                        RelayActionView::CancelUpstream,
                        RelayActionView::CancelMessage { message_id: self@.message_id },
                    ]);
                    self.goto(RelayPhase::Cancelling, actions)
                },
                _ => self.ignore(),
            },
            RelayEvent::Cancelled { stored } => match self.phase {
                RelayPhase::Cancelling => {
                    let mut actions: Vec<RelayAction> = Vec::new();
                    actions.push(RelayAction::Emit(ChatEvent::Cancelled));
                    assert(action_views(actions@) =~= seq![
                        RelayActionView::Emit(ChatEventView::Cancelled),
                    ]);
                    self.end(actions, Ok(()))
                },
                _ => self.ignore(),
            },
            RelayEvent::Completed { stored } => match self.phase {
                RelayPhase::Completing(CompletingStep::Storing) => self.on_completed(stored),
                _ => self.ignore(),
            },
            RelayEvent::History { messages } => match self.phase {
                RelayPhase::Completing(CompletingStep::History) => self.on_history(messages),
                _ => self.ignore(),
            },
            RelayEvent::Title { reply } => match self.phase {
                RelayPhase::Completing(CompletingStep::Title) => self.on_title(reply),
                _ => self.ignore(),
            },
            RelayEvent::TitleStored { stored } => match self.phase {
                RelayPhase::Completing(CompletingStep::TitleStore) => {
                    let outcome = if stored {
                        Ok(())
                    } else {
                        Err(StreamChatError::SetThreadTitle)
                    };
                    let step = self.end(Vec::new(), outcome);
                    assert(step_view(self@, step).actions =~= Seq::empty());
                    step
                },
                _ => self.ignore(),
            },
            RelayEvent::Rejected { call } => match self.phase {
                RelayPhase::Terminated => self.ignore(),
                _ => {
                    let error = match call {
                        StoreCall::AppendText => StreamChatError::AppendText,
                        StoreCall::AppendReasoning => StreamChatError::AppendText,
                        StoreCall::AppendAnnotations => StreamChatError::AppendAnnotations,
                    };
                    let step = self.end(Vec::new(), Err(error));
                    assert(step_view(self@, step).actions =~= Seq::empty());
                    step
                },
            },
            RelayEvent::Failed { error } => match self.phase {
                RelayPhase::Terminated => self.ignore(),
                _ => {
                    let step = self.end(Vec::new(), Err(error));
                    assert(step_view(self@, step).actions =~= Seq::empty());
                    step
                },
            },
        }
    }
}

/// Turns provider annotations into the records the store keeps, in order.
pub fn convert_annotations(annotations: Vec<ProviderAnnotation>) -> (stored: Vec<Annotation>)
    ensures
        annotation_views(stored@) == store_annotations(
            provider_annotation_views(annotations@),
        ),
{
    let ghost given = provider_annotation_views(annotations@);
    let ghost items = annotations@;
    let mut stored: Vec<Annotation> = Vec::new();
    for item in it: annotations
        invariant
            it.seq() == items,
            given == provider_annotation_views(items),
            stored.len() == it.index(),
            forall|k: int| 0 <= k < it.index() ==> stored@[k]@ == store_annotation(given[k]),
    {
        stored.push(openrouter_annotation_to_convex(item));
    }
    assert(annotation_views(stored@) =~= store_annotations(given));
    stored
}

} // verus!
