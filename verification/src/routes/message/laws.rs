//! What holds of every run of a relay.
//!
//! A run is a sequence of events handed to a relay one after the other. The
//! laws speak of the actions that the run asked for. A caller drops the
//! actions behind a call that is refused or fails, and tells the relay so
//! with the next event. So what was asked for is what was done as long as no
//! such event answers a batch, and each law names the events that it leaves
//! out on this account.

use vstd::prelude::*;

use crate::openrouter::types::AnnotationView as ProviderAnnotationView;
use crate::routes::message::create::{
    frames_of, sanitized, wire_line, ChatEventView, ClientFrameView, StreamChatErrorView,
};
use crate::routes::message::relay::{
    delivery, usage_of, CompletingStep, Delivery, RelayActionView, RelayEventView, RelayPhase,
    RelayView, FLUSH_THRESHOLD,
};
use crate::text::{gather, lemma_gather_add, lemma_gather_short};

verus! {

/// A relay after a run, with all that the run asked for.
pub struct RunView {
    pub state: RelayView,
    /// The actions of all steps, in order.
    pub actions: Seq<RelayActionView>,
    /// How the relay ended, where it did.
    pub outcome: Option<Result<(), StreamChatErrorView>>,
}

/// The run of `events` on the relay `start`.
pub open spec fn run(start: RelayView, events: Seq<RelayEventView>) -> RunView
    decreases events.len(),
{
    if events.len() == 0 {
        RunView { state: start, actions: Seq::empty(), outcome: None }
    } else {
        let before = run(start, events.drop_last());
        let step = before.state.step(events.last());
        RunView {
            state: step.state,
            actions: before.actions + step.actions,
            outcome: if step.outcome is Some {
                step.outcome
            } else {
                before.outcome
            },
        }
    }
}

/// Whether no event of the run reports a refused append or a failure.
pub open spec fn undisturbed(events: Seq<RelayEventView>) -> bool {
    forall|i: int|
        0 <= i < events.len() ==> !(#[trigger] events[i] is Rejected) && !(events[i] is Failed)
}

/// Whether no event of the run is a kill signal.
pub open spec fn unkilled(events: Seq<RelayEventView>) -> bool {
    forall|i: int| 0 <= i < events.len() ==> !(#[trigger] events[i] is Kill)
}

/// The text that an action appends to the message.
pub open spec fn appended(action: RelayActionView) -> Seq<char> {
    match action {
        RelayActionView::AppendText { text, .. } => text,
        _ => Seq::empty(),
    }
}

/// The event that an action sends to the client, if it sends one.
pub open spec fn sent(action: RelayActionView) -> Seq<ChatEventView> {
    match action {
        RelayActionView::Emit(event) => seq![event],
        _ => Seq::empty(),
    }
}

/// The action itself where it appends to the message in the store.
pub open spec fn append(action: RelayActionView) -> Seq<RelayActionView> {
    if action is AppendText || action is AppendReasoning || action is AppendAnnotations {
        seq![action]
    } else {
        Seq::empty()
    }
}

/// The action itself where it asks the title model for a title.
pub open spec fn title_call(action: RelayActionView) -> Seq<RelayActionView> {
    if action is GenerateTitle {
        seq![action]
    } else {
        Seq::empty()
    }
}

/// The action itself where it sets the thread's title.
pub open spec fn title_store(action: RelayActionView) -> Seq<RelayActionView> {
    if action is SetTitle {
        seq![action]
    } else {
        Seq::empty()
    }
}

/// The event itself where it ends the turn.
pub open spec fn terminal(event: ChatEventView) -> Seq<ChatEventView> {
    if event.is_terminal() {
        seq![event]
    } else {
        Seq::empty()
    }
}

/// The text that the actions append to the message, concatenated in order.
pub open spec fn stored_text(actions: Seq<RelayActionView>) -> Seq<char> {
    gather(actions, |action: RelayActionView| appended(action))
}

/// The events that the actions ask to send to the client, in order.
pub open spec fn emitted(actions: Seq<RelayActionView>) -> Seq<ChatEventView> {
    gather(actions, |action: RelayActionView| sent(action))
}

/// The events among `events` that end the turn, in order.
pub open spec fn terminals(events: Seq<ChatEventView>) -> Seq<ChatEventView> {
    gather(events, |event: ChatEventView| terminal(event))
}

/// The actions that append to the message in the store, in order.
pub open spec fn appends(actions: Seq<RelayActionView>) -> Seq<RelayActionView> {
    gather(actions, |action: RelayActionView| append(action))
}

/// The actions that ask the title model for a title, in order.
pub open spec fn title_calls(actions: Seq<RelayActionView>) -> Seq<RelayActionView> {
    gather(actions, |action: RelayActionView| title_call(action))
}

/// The actions that set the thread's title, in order.
pub open spec fn title_stores(actions: Seq<RelayActionView>) -> Seq<RelayActionView> {
    gather(actions, |action: RelayActionView| title_store(action))
}

/// The text that an event brings: the text of an increment that is not
/// reasoning.
pub open spec fn text_of(event: RelayEventView) -> Seq<char> {
    match event {
        RelayEventView::Provider { event, .. } => match delivery(event) {
            Delivery::Increment { reasoning: false, text, .. } => text,
            _ => Seq::empty(),
        },
        _ => Seq::empty(),
    }
}

/// The text that arrives while the relay streams, concatenated in order of
/// arrival.
pub open spec fn arrived_text(start: RelayView, events: Seq<RelayEventView>) -> Seq<char>
    decreases events.len(),
{
    if events.len() == 0 {
        Seq::empty()
    } else {
        arrived_text(start, events.drop_last()) + (if run(start, events.drop_last()).state.phase
            is Streaming {
            text_of(events.last())
        } else {
            Seq::empty()
        })
    }
}

/// What is gathered from the actions of a terminal event: from the last
/// flush, from the event sent and from the completion, in this order.
pub proof fn lemma_finish_gather<B>(
    s: RelayView,
    event: ChatEventView,
    elapsed_ms: u64,
    part: spec_fn(RelayActionView) -> Seq<B>,
)
    ensures
        gather(s.finish(event, elapsed_ms).actions, part) == (if s.text_buffer.len() > 0 {
            part(RelayActionView::AppendText { message_id: s.message_id, text: s.text_buffer })
        } else {
            Seq::empty()
        }) + (if s.reasoning_buffer.len() > 0 {
            part(
                RelayActionView::AppendReasoning {
                    message_id: s.message_id,
                    reasoning: s.reasoning_buffer,
                },
            )
        } else {
            Seq::empty()
        }) + part(RelayActionView::Emit(event)) + part(
            RelayActionView::Complete(s.usage(elapsed_ms)),
        ),
{
    let text = if s.text_buffer.len() > 0 {
        seq![RelayActionView::AppendText { message_id: s.message_id, text: s.text_buffer }]
    } else {
        Seq::empty()
    };
    let reasoning = if s.reasoning_buffer.len() > 0 {
        seq![
            RelayActionView::AppendReasoning {
                message_id: s.message_id,
                reasoning: s.reasoning_buffer,
            },
        ]
    } else {
        Seq::empty()
    };
    let tail = seq![
        RelayActionView::Emit(event),
        RelayActionView::Complete(s.usage(elapsed_ms)),
    ];
    lemma_gather_add(text + reasoning, tail, part);
    lemma_gather_add(text, reasoning, part);
    lemma_gather_short(tail, part);
    lemma_gather_short(text, part);
    lemma_gather_short(reasoning, part);
    assert(gather(text, part) + gather(reasoning, part) + (part(tail[0]) + part(tail[1]))
        == gather(text, part) + gather(reasoning, part) + part(tail[0]) + part(tail[1]));
}

/// What is gathered from the actions of an increment: from the annotations
/// sent and appended, from the increment sent, from the flush of the text
/// and from the flush of the reasoning, in this order.
pub proof fn lemma_text_gather<B>(
    s: RelayView,
    reasoning: bool,
    text: Seq<char>,
    annotations: Option<Seq<ProviderAnnotationView>>,
    elapsed_ms: u64,
    part: spec_fn(RelayActionView) -> Seq<B>,
)
    ensures
        gather(s.on_text(reasoning, text, annotations, elapsed_ms).actions, part) == gather(
            s.cite(annotations),
            part,
        ) + part(
            RelayActionView::Emit(
                if reasoning {
                    ChatEventView::Reasoning(sanitized(text))
                } else {
                    ChatEventView::Text(sanitized(text))
                },
            ),
        ) + (if !reasoning && (s.text_buffer + text).len() >= FLUSH_THRESHOLD {
            part(
                RelayActionView::AppendText {
                    message_id: s.message_id,
                    text: s.text_buffer + text,
                },
            )
        } else if reasoning && s.text_buffer.len() >= FLUSH_THRESHOLD {
            part(RelayActionView::AppendText { message_id: s.message_id, text: s.text_buffer })
        } else {
            Seq::empty()
        }) + (if reasoning && (s.reasoning_buffer + text).len() >= FLUSH_THRESHOLD {
            part(
                RelayActionView::AppendReasoning {
                    message_id: s.message_id,
                    reasoning: s.reasoning_buffer + text,
                },
            )
        } else if !reasoning && s.reasoning_buffer.len() >= FLUSH_THRESHOLD {
            part(
                RelayActionView::AppendReasoning {
                    message_id: s.message_id,
                    reasoning: s.reasoning_buffer,
                },
            )
        } else {
            Seq::empty()
        }),
        s.cite(annotations).len() <= 2,
{
    let cited = s.cite(annotations);
    let event = seq![
        RelayActionView::Emit(
            if reasoning {
                ChatEventView::Reasoning(sanitized(text))
            } else {
                ChatEventView::Text(sanitized(text))
            },
        ),
    ];
    let text_buffer = if reasoning {
        s.text_buffer
    } else {
        s.text_buffer + text
    };
    let reasoning_buffer = if reasoning {
        s.reasoning_buffer + text
    } else {
        s.reasoning_buffer
    };
    let flush_text = if text_buffer.len() >= FLUSH_THRESHOLD {
        seq![RelayActionView::AppendText { message_id: s.message_id, text: text_buffer }]
    } else {
        Seq::empty()
    };
    let flush_reasoning = if reasoning_buffer.len() >= FLUSH_THRESHOLD {
        seq![
            RelayActionView::AppendReasoning { message_id: s.message_id, reasoning: reasoning_buffer },
        ]
    } else {
        Seq::empty()
    };
    assert(s.on_text(reasoning, text, annotations, elapsed_ms).actions == cited + event
        + flush_text + flush_reasoning);
    lemma_gather_add(cited + event + flush_text, flush_reasoning, part);
    lemma_gather_add(cited + event, flush_text, part);
    lemma_gather_add(cited, event, part);
    lemma_gather_short(event, part);
    lemma_gather_short(flush_text, part);
    lemma_gather_short(flush_reasoning, part);
}

/// The text accounting of one step: what the step stores and what it leaves
/// in the buffer is what the buffer held and what the event brought.
pub proof fn lemma_step_stores_text(s: RelayView, e: RelayEventView)
    ensures
        stored_text(s.step(e).actions) + s.step(e).state.text_buffer == s.text_buffer + (if s.phase
            is Streaming {
            text_of(e)
        } else {
            Seq::empty()
        }),
{
    let part = |action: RelayActionView| appended(action);
    let st = s.step(e);
    match e {
        RelayEventView::Provider { event, elapsed_ms } => {
            if s.phase is Streaming {
                let counted = s.with_usage(usage_of(event));
                match delivery(event) {
                    Delivery::Nothing => {},
                    Delivery::Increment { reasoning, text, annotations } => {
                        lemma_text_gather(counted, reasoning, text, annotations, elapsed_ms, part);
                        lemma_gather_short(counted.cite(annotations), part);
                    },
                    Delivery::Terminal(event) => {
                        lemma_finish_gather(counted, event, elapsed_ms, part);
                    },
                }
            }
        },
        _ => {
            lemma_gather_short(st.actions, part);
        },
    }
}

/// A prefix of a run without refusals and failures has none either.
pub proof fn lemma_prefix_undisturbed(events: Seq<RelayEventView>)
    requires
        events.len() > 0,
    ensures
        undisturbed(events) ==> undisturbed(events.drop_last()) && !(events.last() is Rejected)
            && !(events.last() is Failed),
        unkilled(events) ==> unkilled(events.drop_last()) && !(events.last() is Kill),
{
    let prefix = events.drop_last();
    if undisturbed(events) {
        assert forall|i: int| 0 <= i < prefix.len() implies !(#[trigger] prefix[i] is Rejected) && !(
        prefix[i] is Failed) by {
            assert(prefix[i] == events[i]);
        }
        assert(events[events.len() - 1] == events.last());
    }
    if unkilled(events) {
        assert forall|i: int| 0 <= i < prefix.len() implies !(#[trigger] prefix[i] is Kill) by {
            assert(prefix[i] == events[i]);
        }
        assert(events[events.len() - 1] == events.last());
    }
}

/// In every run, the text that the relay asked to store, followed by the
/// text it still buffers, is the text it buffered at the start followed by
/// the text that arrived while it streamed: each increment once, in the order
/// of arrival.
pub proof fn law_text_stored_in_order(start: RelayView, events: Seq<RelayEventView>)
    ensures
        stored_text(run(start, events).actions) + run(start, events).state.text_buffer
            == start.text_buffer + arrived_text(start, events),
    decreases events.len(),
{
    if events.len() == 0 {
    } else {
        let prefix = events.drop_last();
        let before = run(start, prefix);
        let step = before.state.step(events.last());
        law_text_stored_in_order(start, prefix);
        lemma_step_stores_text(before.state, events.last());
        lemma_gather_add(before.actions, step.actions, |action: RelayActionView| appended(action));
        let brought = if before.state.phase is Streaming {
            text_of(events.last())
        } else {
            Seq::empty()
        };
        assert(stored_text(before.actions) + stored_text(step.actions) + step.state.text_buffer
            == stored_text(before.actions) + (stored_text(step.actions) + step.state.text_buffer));
        assert(stored_text(before.actions) + (before.state.text_buffer + brought) == stored_text(
            before.actions,
        ) + before.state.text_buffer + brought);
        assert(start.text_buffer + arrived_text(start, prefix) + brought == start.text_buffer + (
        arrived_text(start, prefix) + brought));
    }
}

/// Where a run began with a fresh relay and held no kill signal, no refusal
/// and no failure, the relay buffers no text once its turn has ended, and it
/// never cancels.
pub proof fn lemma_completed_run_is_flushed(start: RelayView, events: Seq<RelayEventView>)
    requires
        start.phase is Starting,
        start.text_buffer.len() == 0,
        unkilled(events),
        undisturbed(events),
    ensures
        !(run(start, events).state.phase is Cancelling),
        !(run(start, events).state.phase is Streaming) ==> run(start, events).state.text_buffer.len()
            == 0,
    decreases events.len(),
{
    if events.len() > 0 {
        lemma_prefix_undisturbed(events);
        lemma_completed_run_is_flushed(start, events.drop_last());
    }
}

/// On the path without cancellation, once the turn has ended, the text that
/// the relay asked to store is the text that arrived: the concatenation of
/// the appended texts, the last flush included, equals the concatenation of
/// the text increments, each once and in the order of arrival.
pub proof fn law_completed_run_stores_arrived_text(start: RelayView, events: Seq<RelayEventView>)
    requires
        start.phase is Starting,
        start.text_buffer.len() == 0,
        unkilled(events),
        undisturbed(events),
        run(start, events).state.phase is Completing || run(start, events).state.phase
            is Terminated,
    ensures
        stored_text(run(start, events).actions) == arrived_text(start, events),
{
    law_text_stored_in_order(start, events);
    lemma_completed_run_is_flushed(start, events);
    assert(run(start, events).state.text_buffer == Seq::<char>::empty());
    assert(start.text_buffer == Seq::<char>::empty());
    assert(stored_text(run(start, events).actions) + Seq::<char>::empty() == stored_text(
        run(start, events).actions,
    ));
    assert(Seq::<char>::empty() + arrived_text(start, events) == arrived_text(start, events));
}

/// Whether the relay has not yet told the client how the turn ended.
pub open spec fn is_open(phase: RelayPhase) -> bool {
    phase is Starting || phase is Streaming || phase is Cancelling
}

/// Whether the batch that tells the client how the turn ended was done and
/// answered: the relay is neither open nor waiting for the store's answer
/// to the completion, which is asked for in that batch.
pub open spec fn answered(phase: RelayPhase) -> bool {
    !is_open(phase) && phase != RelayPhase::Completing(CompletingStep::Storing)
}

/// Whether no refusal and no failure reaches the relay before the batch
/// that tells the client how the turn ended was answered. In such a run
/// every batch up to and with that one is done in full, the last flush
/// before the event that ends the turn included, so the events that these
/// batches ask to send are the events sent.
pub open spec fn calm(start: RelayView, events: Seq<RelayEventView>) -> bool {
    forall|i: int|
        0 <= i < events.len() && (#[trigger] events[i] is Rejected || events[i] is Failed)
            ==> answered(run(start, events.take(i)).state.phase)
}

/// A run without refusals and failures is calm.
pub proof fn lemma_undisturbed_is_calm(start: RelayView, events: Seq<RelayEventView>)
    requires
        undisturbed(events),
    ensures
        calm(start, events),
{
}

/// A prefix of a calm run is calm, and a refusal or failure at its end
/// finds the batch with the end of the turn answered.
pub proof fn lemma_prefix_calm(start: RelayView, events: Seq<RelayEventView>)
    requires
        events.len() > 0,
        calm(start, events),
    ensures
        calm(start, events.drop_last()),
        events.last() is Rejected || events.last() is Failed ==> answered(
            run(start, events.drop_last()).state.phase,
        ),
{
    let prefix = events.drop_last();
    assert forall|i: int|
        0 <= i < prefix.len() && (#[trigger] prefix[i] is Rejected || prefix[i] is Failed)
            implies answered(run(start, prefix.take(i)).state.phase) by {
        assert(prefix[i] == events[i]);
        assert(prefix.take(i) == events.take(i));
    }
    let last = events.len() - 1;
    assert(events[last] == events.last());
    assert(events.take(last) == prefix);
}

/// What one step asks to send to the client: nothing once the end of the
/// turn was sent; the event that ends the turn last and once, where the step
/// ends the turn; no such event otherwise.
pub proof fn lemma_step_emits(s: RelayView, e: RelayEventView)
    requires
        is_open(s.phase) ==> !(e is Rejected) && !(e is Failed),
    ensures
        !is_open(s.phase) ==> emitted(s.step(e).actions).len() == 0 && !is_open(
            s.step(e).state.phase,
        ),
        is_open(s.phase) && is_open(s.step(e).state.phase) ==> terminals(
            emitted(s.step(e).actions),
        ).len() == 0,
        is_open(s.phase) && !is_open(s.step(e).state.phase) ==> terminals(
            emitted(s.step(e).actions),
        ).len() == 1 && emitted(s.step(e).actions).len() > 0 && emitted(
            s.step(e).actions,
        ).last().is_terminal(),
{
    let part = |action: RelayActionView| sent(action);
    let ends = |event: ChatEventView| terminal(event);
    let st = s.step(e);
    match e {
        RelayEventView::Provider { event, elapsed_ms } => {
            if s.phase is Streaming {
                let counted = s.with_usage(usage_of(event));
                match delivery(event) {
                    Delivery::Nothing => {},
                    Delivery::Increment { reasoning, text, annotations } => {
                        lemma_text_gather(counted, reasoning, text, annotations, elapsed_ms, part);
                        lemma_gather_short(counted.cite(annotations), part);
                        lemma_gather_short(emitted(st.actions), ends);
                    },
                    Delivery::Terminal(event) => {
                        lemma_finish_gather(counted, event, elapsed_ms, part);
                        lemma_gather_short(emitted(st.actions), ends);
                    },
                }
            }
        },
        _ => {
            lemma_gather_short(st.actions, part);
            lemma_gather_short(emitted(st.actions), ends);
        },
    }
}

/// In a run of a fresh relay that no refusal and no failure reaches before
/// the batch with the end of the turn was answered, exactly one event that
/// ends the turn is sent to the client once the turn has ended, and nothing
/// is sent after it; before that, none is sent. A refusal or failure of the
/// last flush is left out with the others: the event that ends the turn
/// stands behind the flush and is dropped with it.
pub proof fn law_one_terminal_event(start: RelayView, events: Seq<RelayEventView>)
    requires
        start.phase is Starting,
        calm(start, events),
    ensures
        is_open(run(start, events).state.phase) ==> terminals(
            emitted(run(start, events).actions),
        ).len() == 0,
        !is_open(run(start, events).state.phase) ==> terminals(
            emitted(run(start, events).actions),
        ).len() == 1 && emitted(run(start, events).actions).len() > 0 && emitted(
            run(start, events).actions,
        ).last().is_terminal(),
    decreases events.len(),
{
    if events.len() > 0 {
        let prefix = events.drop_last();
        let before = run(start, prefix);
        let step = before.state.step(events.last());
        lemma_prefix_calm(start, events);
        law_one_terminal_event(start, prefix);
        lemma_step_emits(before.state, events.last());
        lemma_gather_add(before.actions, step.actions, |action: RelayActionView| sent(action));
        lemma_gather_add(
            emitted(before.actions),
            emitted(step.actions),
            |event: ChatEventView| terminal(event),
        );
        if emitted(step.actions).len() == 0 {
            assert(emitted(before.actions) + emitted(step.actions) == emitted(before.actions));
        }
    }
}

/// Whatever is sent, the client's stream holds exactly one end frame, and it
/// is the last frame.
pub proof fn law_one_end_frame(events: Seq<ChatEventView>)
    ensures
        frames_of(events).len() == events.len() + 1,
        frames_of(events).last() is End,
        forall|i: int| 0 <= i < events.len() ==> frames_of(events)[i] == ClientFrameView::Message(
            wire_line(events[i]),
        ),
{
}

/// Once the turn of a fresh relay has ended, and no refusal and no failure
/// reached the relay before the batch with the end of the turn was answered,
/// the client's stream ends with the frame of the one event that ends the
/// turn, followed by the one end frame.
pub proof fn law_terminal_then_end(start: RelayView, events: Seq<RelayEventView>)
    requires
        start.phase is Starting,
        calm(start, events),
        !is_open(run(start, events).state.phase),
    ensures
        ({
            let sent = emitted(run(start, events).actions);
            let frames = frames_of(sent);
            &&& terminals(sent).len() == 1
            &&& frames.len() >= 2
            &&& frames[frames.len() - 1] is End
            &&& sent.last().is_terminal()
            &&& frames[frames.len() - 2] == ClientFrameView::Message(wire_line(sent.last()))
        }),
{
    law_one_terminal_event(start, events);
    law_one_end_frame(emitted(run(start, events).actions));
}

/// What one step asks of the title model and of the store's title.
pub proof fn lemma_step_titles(s: RelayView, e: RelayEventView)
    ensures
        title_calls(s.step(e).actions).len() == (if s.phase == RelayPhase::Completing(
            CompletingStep::History,
        ) && e is History {
            1nat
        } else {
            0nat
        }),
        title_stores(s.step(e).actions).len() == (if s.phase == RelayPhase::Completing(
            CompletingStep::Title,
        ) && e matches RelayEventView::Title { title: Some(_) } {
            1nat
        } else {
            0nat
        }),
{
    let calls = |action: RelayActionView| title_call(action);
    let stores = |action: RelayActionView| title_store(action);
    let st = s.step(e);
    match e {
        RelayEventView::Provider { event, elapsed_ms } => {
            if s.phase is Streaming {
                let counted = s.with_usage(usage_of(event));
                match delivery(event) {
                    Delivery::Nothing => {},
                    Delivery::Increment { reasoning, text, annotations } => {
                        lemma_text_gather(counted, reasoning, text, annotations, elapsed_ms, calls);
                        lemma_gather_short(counted.cite(annotations), calls);
                        lemma_text_gather(counted, reasoning, text, annotations, elapsed_ms, stores);
                        lemma_gather_short(counted.cite(annotations), stores);
                    },
                    Delivery::Terminal(event) => {
                        lemma_finish_gather(counted, event, elapsed_ms, calls);
                        lemma_finish_gather(counted, event, elapsed_ms, stores);
                    },
                }
            }
        },
        _ => {
            lemma_gather_short(st.actions, calls);
            lemma_gather_short(st.actions, stores);
        },
    }
}

/// How far a relay has come with the title, by its phase: `calls` requests
/// to the title model and `stores` new titles so far.
pub open spec fn title_progress(
    set_title: bool,
    phase: RelayPhase,
    outcome: Option<Result<(), StreamChatErrorView>>,
    calls: nat,
    stores: nat,
) -> bool {
    &&& outcome is Some <==> phase is Terminated
    &&& !(phase is Cancelling)
    &&& match phase {
        RelayPhase::Completing(CompletingStep::History) => set_title && calls == 0 && stores == 0,
        RelayPhase::Completing(CompletingStep::Title) => set_title && calls == 1 && stores == 0,
        RelayPhase::Completing(CompletingStep::TitleStore) => set_title && calls == 1 && stores
            == 1,
        RelayPhase::Terminated => if outcome == Some(Ok::<(), StreamChatErrorView>(())) {
            if set_title {
                calls == 1 && stores == 1
            } else {
                calls == 0 && stores == 0
            }
        } else {
            true
        },
        _ => calls == 0 && stores == 0,
    }
}

/// One step keeps the progress with the title.
pub proof fn lemma_title_progress_step(
    s: RelayView,
    e: RelayEventView,
    outcome: Option<Result<(), StreamChatErrorView>>,
    calls: nat,
    stores: nat,
)
    requires
        title_progress(s.set_title, s.phase, outcome, calls, stores),
        !(e is Kill),
        !(e is Rejected),
        !(e is Failed),
    ensures
        s.step(e).state.set_title == s.set_title,
        title_progress(
            s.set_title,
            s.step(e).state.phase,
            if s.step(e).outcome is Some {
                s.step(e).outcome
            } else {
                outcome
            },
            calls + (if s.phase == RelayPhase::Completing(CompletingStep::History) && e is History {
                1nat
            } else {
                0nat
            }),
            stores + (if s.phase == RelayPhase::Completing(CompletingStep::Title)
                && e matches RelayEventView::Title { title: Some(_) } {
                1nat
            } else {
                0nat
            }),
        ),
{
}

/// How far a run without kill signal, refusal and failure has come with the
/// title, by the phase of the relay.
pub proof fn lemma_title_progress(start: RelayView, events: Seq<RelayEventView>)
    requires
        start.phase is Starting,
        unkilled(events),
        undisturbed(events),
    ensures
        run(start, events).state.set_title == start.set_title,
        title_progress(
            start.set_title,
            run(start, events).state.phase,
            run(start, events).outcome,
            title_calls(run(start, events).actions).len(),
            title_stores(run(start, events).actions).len(),
        ),
    decreases events.len(),
{
    if events.len() == 0 {
        assert(title_calls(run(start, events).actions).len() == 0);
        assert(title_stores(run(start, events).actions).len() == 0);
    } else {
        let prefix = events.drop_last();
        let before = run(start, prefix);
        let step = before.state.step(events.last());
        let after = run(start, events);
        lemma_prefix_undisturbed(events);
        lemma_title_progress(start, prefix);
        lemma_step_titles(before.state, events.last());
        lemma_title_progress_step(
            before.state,
            events.last(),
            before.outcome,
            title_calls(before.actions).len(),
            title_stores(before.actions).len(),
        );
        lemma_gather_add(
            before.actions,
            step.actions,
            |action: RelayActionView| title_call(action),
        );
        lemma_gather_add(
            before.actions,
            step.actions,
            |action: RelayActionView| title_store(action),
        );
    }
}

/// Where the thread had no title and the run completed the message without a
/// kill signal, a refusal or a failure, the title model was asked exactly
/// once and the title was set exactly once, whatever the thread's messages
/// are. Where the thread had a title, neither happened.
pub proof fn law_title_generated_once(start: RelayView, events: Seq<RelayEventView>)
    requires
        start.phase is Starting,
        unkilled(events),
        undisturbed(events),
        run(start, events).outcome == Some(Ok::<(), StreamChatErrorView>(())),
    ensures
        start.set_title ==> title_calls(run(start, events).actions).len() == 1 && title_stores(
            run(start, events).actions,
        ).len() == 1,
        !start.set_title ==> title_calls(run(start, events).actions).len() == 0 && title_stores(
            run(start, events).actions,
        ).len() == 0,
{
    lemma_title_progress(start, events);
}

/// What a step appends once a kill signal was obeyed: nothing, and the
/// buffers stay as they are.
pub proof fn lemma_step_after_kill(s: RelayView, e: RelayEventView)
    requires
        s.phase is Cancelling || s.phase is Terminated,
    ensures
        appends(s.step(e).actions).len() == 0,
        s.step(e).state.phase is Cancelling || s.step(e).state.phase is Terminated,
        s.step(e).state.text_buffer == s.text_buffer,
        s.step(e).state.reasoning_buffer == s.reasoning_buffer,
{
    lemma_gather_short(s.step(e).actions, |action: RelayActionView| append(action));
}

/// A kill signal that comes while the relay streams discards what is
/// buffered: whatever follows, the relay asks for no append, and the buffers
/// keep what they held.
pub proof fn law_kill_discards_buffers(s: RelayView, rest: Seq<RelayEventView>)
    requires
        s.phase is Streaming,
    ensures
        appends(run(s, seq![RelayEventView::Kill] + rest).actions).len() == 0,
        run(s, seq![RelayEventView::Kill] + rest).state.text_buffer == s.text_buffer,
        run(s, seq![RelayEventView::Kill] + rest).state.reasoning_buffer == s.reasoning_buffer,
        run(s, seq![RelayEventView::Kill] + rest).state.phase is Cancelling || run(
            s,
            seq![RelayEventView::Kill] + rest,
        ).state.phase is Terminated,
    decreases rest.len(),
{
    let part = |action: RelayActionView| append(action);
    let events = seq![RelayEventView::Kill] + rest;
    if rest.len() == 0 {
        assert(events.drop_last() == Seq::<RelayEventView>::empty());
        assert(events.last() == RelayEventView::Kill);
        let before = run(s, events.drop_last());
        assert(before.actions == Seq::<RelayActionView>::empty());
        lemma_gather_short(s.step(RelayEventView::Kill).actions, part);
        assert(before.actions + s.step(RelayEventView::Kill).actions == s.step(
            RelayEventView::Kill,
        ).actions);
    } else {
        assert(events.drop_last() == seq![RelayEventView::Kill] + rest.drop_last());
        assert(events.last() == rest.last());
        law_kill_discards_buffers(s, rest.drop_last());
        let before = run(s, events.drop_last());
        lemma_step_after_kill(before.state, rest.last());
        lemma_gather_add(before.actions, before.state.step(rest.last()).actions, part);
    }
}

/// A kill signal that comes before the first frame: the relay aborts the
/// connection, marks the message cancelled, tells the client that the turn
/// was cancelled, and ends well; nothing is appended.
pub proof fn law_kill_before_first_frame(start: RelayView, stored: bool)
    requires
        start.phase is Starting,
    ensures
        ({
            let r = run(
                start,
                seq![
                    RelayEventView::SourceOpened,
                    RelayEventView::Kill,
                    RelayEventView::Cancelled { stored },
                ],
            );
            &&& r.actions == seq![
                RelayActionView::CancelUpstream,
                RelayActionView::CancelMessage { message_id: start.message_id },
                RelayActionView::Emit(ChatEventView::Cancelled),
            ]
            &&& r.outcome == Some(Ok::<(), StreamChatErrorView>(()))
            &&& r.state.phase is Terminated
        }),
{
    let e0 = RelayEventView::SourceOpened;
    let e1 = RelayEventView::Kill;
    let e2 = RelayEventView::Cancelled { stored };
    let none = Seq::<RelayEventView>::empty();
    assert(seq![e0, e1, e2].drop_last() == seq![e0, e1]);
    assert(seq![e0, e1].drop_last() == seq![e0]);
    assert(seq![e0].drop_last() == none);
    let r0 = run(start, none);
    let r1 = run(start, seq![e0]);
    let r2 = run(start, seq![e0, e1]);
    let r3 = run(start, seq![e0, e1, e2]);
    assert(r1.state.phase is Streaming && r1.actions == Seq::<RelayActionView>::empty());
    assert(r2.state.phase is Cancelling);
    assert(r2.actions == seq![
        RelayActionView::CancelUpstream,
        RelayActionView::CancelMessage { message_id: start.message_id },
    ]);
    assert(r3.actions == seq![
        RelayActionView::CancelUpstream,
        RelayActionView::CancelMessage { message_id: start.message_id },
        RelayActionView::Emit(ChatEventView::Cancelled),
    ]);
}

} // verus!
