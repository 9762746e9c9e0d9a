//! Synthesis of a thread title by a single completion call.

use vstd::prelude::*;

use crate::openrouter::completions::{completion_request_view, get_completions};
use crate::openrouter::types::{
    message_request_views, text_message, CompletionChoice, CompletionRequest,
    CompletionRequestView, CompletionResponse, MessageRequest, MessageRequestView, Role,
};
use crate::text::{trim, trim_quotes, trimmed, unquoted};

verus! {

/// The instruction that opens a title request.
pub const TITLE_GENERATION_SYSTEM_MESSAGE: &'static str =
    "You are an AI assistant that creates short, descriptive titles. Your only task is to generate a concise title (max 50 characters) based on the user's messages. You must always return a title, even if the conversation seems unclear. Do not add any explanation, just provide the title text. Never return an empty response.";

/// The question that closes a title request.
pub const TITLE_GENERATION_PROMPT: &'static str = "What is the title of this conversation?";

/// Most tokens a title reply may hold.
pub const TITLE_MAX_TOKENS: u32 = 50;

/// The messages of a title request: the instruction, the thread's history
/// and the closing question.
pub open spec fn title_messages(history: Seq<MessageRequestView>) -> Seq<MessageRequestView> {
    seq![text_message(Role::System, TITLE_GENERATION_SYSTEM_MESSAGE@)] + history + seq![
        text_message(Role::User, TITLE_GENERATION_PROMPT@),
    ]
}

/// The title request for `history`: not streamed, to the title model
/// `model`, at most fifty tokens, no reasoning and no plugins.
pub open spec fn title_request_view(
    model: Seq<char>,
    history: Seq<MessageRequestView>,
) -> CompletionRequestView {
    completion_request_view(
        model,
        title_messages(history),
        Some(TITLE_MAX_TOKENS),
        None,
        false,
        false,
    )
}

/// Builds the request that asks the title model `model` for a title of the
/// thread whose messages are `thread_messages`.
pub fn title_request(model: &str, thread_messages: Vec<MessageRequest>) -> (request:
    CompletionRequest)
    ensures
        request@ == title_request_view(model@, message_request_views(thread_messages@)),
{
    let ghost history = message_request_views(thread_messages@);
    let mut thread_messages = thread_messages;
    let mut messages: Vec<MessageRequest> = Vec::new();
    messages.push(MessageRequest::text(Role::System, TITLE_GENERATION_SYSTEM_MESSAGE.to_owned()));
    assert(message_request_views(messages@) =~= seq![
        text_message(Role::System, TITLE_GENERATION_SYSTEM_MESSAGE@),
    ]);
    let ghost head = message_request_views(messages@);
    messages.append(&mut thread_messages);
    assert(message_request_views(messages@) =~= head + history);
    messages.push(MessageRequest::text(Role::User, TITLE_GENERATION_PROMPT.to_owned()));
    assert(message_request_views(messages@) =~= title_messages(history));
    get_completions(model, messages, Some(TITLE_MAX_TOKENS), None, false)
}

/// The content of the choices of a reply, concatenated in order.
pub open spec fn joined_content(choices: Seq<CompletionChoice>) -> Seq<char>
    decreases choices.len(),
{
    if choices.len() == 0 {
        Seq::empty()
    } else {
        joined_content(choices.drop_last()) + choices.last().message.content@
    }
}

/// The title held by reply text: the text without surrounding whitespace,
/// then without surrounding quote characters.
pub open spec fn final_title(raw: Seq<char>) -> Seq<char> {
    unquoted(trimmed(raw))
}

/// The title that a reply of the title model holds, or `None` where nothing
/// is left after trimming.
pub open spec fn title_of(reply: CompletionResponse) -> Option<Seq<char>> {
    let title = final_title(joined_content(reply.choices@));
    if title.len() == 0 {
        None
    } else {
        Some(title)
    }
}

/// Reads the title out of a reply of the title model: the choices'
/// content is concatenated, whitespace and then quote characters are removed
/// from both ends. `None` where nothing is left.
pub fn generate_title_from_content(reply: &CompletionResponse) -> (title: Option<String>)
    ensures
        match title {
            Some(t) => title_of(*reply) == Some(t@),
            None => title_of(*reply) is None,
        },
{
    let mut raw = String::new();
    let mut i: usize = 0;
    while i < reply.choices.len()
        invariant
            i <= reply.choices.len(),
            raw@ == joined_content(reply.choices@.take(i as int)),
        decreases reply.choices.len() - i,
    {
        assert(reply.choices@.take(i + 1).drop_last() == reply.choices@.take(i as int));
        raw.append(reply.choices[i].message.content.as_str());
        i += 1;
    }
    assert(reply.choices@.take(reply.choices.len() as int) == reply.choices@);
    let title = trim_quotes(trim(raw.as_str()).as_str());
    if title.as_str().is_empty() {
        None
    } else {
        Some(title)
    }
}

} // verus!
