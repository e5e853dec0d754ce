//! Forwarding of what the conversation engine reports to the UI: each
//! event becomes one UI event, and the processing flags follow the turn.

use vstd::prelude::*;
use crate::display::{DisplayContent, DisplayMessage, displays_block};
use crate::model::{ChatMessage, ContentBlock, Role};
use crate::session::ProcessingState;

verus! {

/// What the daemon reports for a session.
pub enum DaemonEvent {
    /// A block of the reply being generated.
    AssistantContent(ContentBlock),
    /// The turn is over.
    TurnComplete,
    Error(String),
    /// Anything the UI does not show.
    Other,
}

/// What the forwarder receives from the session's broadcast.
pub enum Received {
    Event(DaemonEvent),
    /// The forwarder fell behind by this many events.
    Lagged(u64),
    /// The session is gone.
    Closed,
}

/// What the forwarder does next.
pub enum ForwardAction {
    /// Emit `streaming_message` with this message.
    Streaming(DisplayMessage),
    /// Fetch the session's messages and emit `message_complete`, then mark
    /// the conversation idle.
    CompleteTurn,
    /// Emit `error` with this text.
    ReportError(String),
    /// Note that events were missed and go on.
    NoteLag(u64),
    /// Nothing to show.
    Ignore,
    /// Stop forwarding.
    Stop,
}

/// The streamed piece of a reply, as a message of one block.
pub open spec fn streams_block(b: ContentBlock, m: DisplayMessage) -> bool {
    &&& m.role == Role::Assistant
    &&& m.content@.len() == 1
    &&& displays_block(b, m.content@[0])
    &&& m.turn_id is None
    &&& m.span_id is None
    &&& m.alternates is None
}

/// One step of the forwarder of conversation `conversation_id`: a streamed
/// block marks the conversation as generating, an error marks it idle;
/// the end of a turn is left to `finish_turn`.
pub fn forward_event(received: Received, conversation_id: &String, processing: &mut ProcessingState) -> (r:
    ForwardAction)
    requires
        old(processing).wf(),
    ensures
        final(processing).wf(),
        final(processing).voice_target() == old(processing).voice_target(),
        (match received {
            Received::Event(DaemonEvent::AssistantContent(b)) => {
                &&& r matches ForwardAction::Streaming(m) && streams_block(b, m)
                &&& final(processing).flags() == old(processing).flags().insert(conversation_id@, true)
            },
            Received::Event(DaemonEvent::TurnComplete) => {
                &&& r is CompleteTurn
                &&& final(processing).flags() == old(processing).flags()
            },
            Received::Event(DaemonEvent::Error(e)) => {
                &&& r == ForwardAction::ReportError(e)
                &&& final(processing).flags() == old(processing).flags().insert(conversation_id@, false)
            },
            Received::Event(DaemonEvent::Other) => {
                &&& r is Ignore
                &&& final(processing).flags() == old(processing).flags()
            },
            Received::Lagged(n) => {
                &&& r == ForwardAction::NoteLag(n)
                &&& final(processing).flags() == old(processing).flags()
            },
            Received::Closed => {
                &&& r is Stop
                &&& final(processing).flags() == old(processing).flags()
            },
        }),
{
    match received {
        Received::Event(event) => match event {
            DaemonEvent::AssistantContent(block) => {
                processing.set_processing(conversation_id.clone(), true);
                let mut content: Vec<DisplayContent> = Vec::new();
                content.push(DisplayContent::from_block(block));
                ForwardAction::Streaming(
                    DisplayMessage {
                        role: Role::Assistant,
                        content,
                        turn_id: None,
                        span_id: None,
                        alternates: None,
                    },
                )
            },
            DaemonEvent::TurnComplete => ForwardAction::CompleteTurn,
            DaemonEvent::Error(e) => {
                processing.set_processing(conversation_id.clone(), false);
                ForwardAction::ReportError(e)
            },
            DaemonEvent::Other => ForwardAction::Ignore,
        },
        Received::Lagged(n) => ForwardAction::NoteLag(n),
        Received::Closed => ForwardAction::Stop,
    }
}

/// Payload of the `message_complete` event.
pub struct MessageCompleteEvent {
    pub conversation_id: String,
    pub messages: Vec<DisplayMessage>,
}

/// Ends a turn: the complete messages are sent and the conversation is
/// marked idle.
pub fn finish_turn(conversation_id: &String, messages: Vec<DisplayMessage>, processing: &mut ProcessingState) -> (r:
    MessageCompleteEvent)
    requires
        old(processing).wf(),
    ensures
        final(processing).wf(),
        final(processing).voice_target() == old(processing).voice_target(),
        final(processing).flags() == old(processing).flags().insert(conversation_id@, false),
        r.conversation_id == *conversation_id,
        r.messages == messages,
{
    processing.set_processing(conversation_id.clone(), false);
    MessageCompleteEvent { conversation_id: conversation_id.clone(), messages }
}

/// An alternate reply of a parallel run, as the engine reports it.
pub struct ParallelAlternate {
    pub model_id: String,
    pub model_display_name: String,
    pub message_count: usize,
    pub is_selected: bool,
}

/// What the in-process engine reports.
pub enum EngineEvent {
    Message(ChatMessage),
    MessageComplete,
    Error(String),
    ModelChanged(String),
    HistoryCleared,
    ParallelStreamingMessage { model_id: String, message: ChatMessage },
    ParallelModelComplete { model_id: String, messages: Vec<ChatMessage> },
    ParallelComplete { alternates: Vec<ParallelAlternate> },
    ParallelModelError { model_id: String, error: String },
}

/// What the engine loop does with an event (or with none).
pub enum EngineAction {
    /// Emit `streaming_message`.
    Streaming(DisplayMessage),
    /// Read the session's messages and emit `message_complete`; the flag is
    /// cleared afterwards.
    Complete,
    /// Emit `error`.
    Error(String),
    /// Emit `model_changed`.
    ModelChanged(String),
    /// Emit `history_cleared`.
    HistoryCleared,
    /// Emit `parallel_streaming_message`.
    ParallelStreaming { model_id: String, message: DisplayMessage },
    /// Emit `parallel_model_complete`.
    ParallelModelComplete { model_id: String, messages: Vec<DisplayMessage> },
    /// Emit `parallel_complete`.
    ParallelComplete { alternates: Vec<ParallelAlternate> },
    /// Emit `parallel_model_error`.
    ParallelModelError { model_id: String, error: String },
    /// Poll again after this many milliseconds.
    Wait(u64),
}

/// A message of the engine as the UI shows it.
pub open spec fn shows_message(c: ChatMessage, d: DisplayMessage) -> bool {
    &&& d.role == c.role
    &&& d.content@.len() == c.payload.content@.len()
    &&& forall|i: int| 0 <= i < d.content@.len() ==> displays_block(c.payload.content@[i], #[trigger] d.content@[i])
    &&& d.turn_id is None
    &&& d.span_id is None
    &&& d.alternates is None
}

fn show_all(messages: Vec<ChatMessage>) -> (r: Vec<DisplayMessage>)
    ensures
        r@.len() == messages@.len(),
        forall|i: int| 0 <= i < r@.len() ==> shows_message(messages@[i], #[trigger] r@[i]),
{
    let ghost orig = messages@;
    let mut rest = messages;
    let mut out: Vec<DisplayMessage> = Vec::new();
    while rest.len() > 0
        invariant
            out@.len() + rest@.len() == orig.len(),
            forall|i: int| 0 <= i < out@.len() ==> shows_message(orig[i], #[trigger] out@[i]),
            rest@ == orig.skip(out@.len() as int),
        decreases rest@.len(),
    {
        let m = rest.remove(0);
        proof {
            assert(m == orig[out@.len() as int]);
        }
        out.push(DisplayMessage::from_chat_message(m));
        proof {
            assert(rest@ =~= orig.skip(out@.len() as int));
        }
    }
    out
}

/// One step of the engine loop. `engine_ready` is false while the engine
/// is not initialized; then the loop waits 50 ms, and 10 ms when the engine
/// had nothing. Streaming marks the engine as generating; the end of a
/// parallel run and an error mark it idle.
pub fn engine_step(engine_ready: bool, event: Option<EngineEvent>, is_processing: &mut bool) -> (r: EngineAction)
    ensures
        !engine_ready ==> r == EngineAction::Wait(50) && *final(is_processing) == *old(is_processing),
        engine_ready ==> match event {
            None => r == EngineAction::Wait(10) && *final(is_processing) == *old(is_processing),
            Some(EngineEvent::Message(m)) => (r matches EngineAction::Streaming(d) && shows_message(m, d))
                && *final(is_processing),
            Some(EngineEvent::MessageComplete) => r is Complete && *final(is_processing) == *old(
                is_processing,
            ),
            Some(EngineEvent::Error(e)) => r == EngineAction::Error(e) && !*final(is_processing),
            Some(EngineEvent::ModelChanged(n)) => r == EngineAction::ModelChanged(n) && *final(is_processing)
                == *old(is_processing),
            Some(EngineEvent::HistoryCleared) => r is HistoryCleared && *final(is_processing) == *old(
                is_processing,
            ),
            Some(EngineEvent::ParallelStreamingMessage { model_id, message }) => (r matches EngineAction::ParallelStreaming {
                model_id: id,
                message: d,
            } && id == model_id && shows_message(message, d)) && *final(is_processing),
            Some(EngineEvent::ParallelModelComplete { model_id, messages }) => (r matches EngineAction::ParallelModelComplete {
                model_id: id,
                messages: ds,
            } && id == model_id && ds@.len() == messages@.len() && forall|i: int|
                0 <= i < ds@.len() ==> shows_message(messages@[i], #[trigger] ds@[i])) && *final(is_processing)
                == *old(is_processing),
            Some(EngineEvent::ParallelComplete { alternates }) => r == EngineAction::ParallelComplete {
                alternates,
            } && !*final(is_processing),
            Some(EngineEvent::ParallelModelError { model_id, error }) => r == EngineAction::ParallelModelError {
                model_id,
                error,
            } && *final(is_processing) == *old(is_processing),
        },
{
    if !engine_ready {
        return EngineAction::Wait(50);
    }
    match event {
        None => EngineAction::Wait(10),
        Some(EngineEvent::Message(m)) => {
            *is_processing = true;
            EngineAction::Streaming(DisplayMessage::from_chat_message(m))
        },
        Some(EngineEvent::MessageComplete) => EngineAction::Complete,
        Some(EngineEvent::Error(e)) => {
            *is_processing = false;
            EngineAction::Error(e)
        },
        Some(EngineEvent::ModelChanged(n)) => EngineAction::ModelChanged(n),
        Some(EngineEvent::HistoryCleared) => EngineAction::HistoryCleared,
        Some(EngineEvent::ParallelStreamingMessage { model_id, message }) => {
            *is_processing = true;
            EngineAction::ParallelStreaming { model_id, message: DisplayMessage::from_chat_message(message) }
        },
        Some(EngineEvent::ParallelModelComplete { model_id, messages }) => {
            EngineAction::ParallelModelComplete { model_id, messages: show_all(messages) }
        },
        Some(EngineEvent::ParallelComplete { alternates }) => {
            *is_processing = false;
            EngineAction::ParallelComplete { alternates }
        },
        Some(EngineEvent::ParallelModelError { model_id, error }) => {
            EngineAction::ParallelModelError { model_id, error }
        },
    }
}

/// After `message_complete` is emitted, the engine is idle; the messages
/// sent are those of the session.
pub fn engine_messages_complete(messages: Vec<ChatMessage>, is_processing: &mut bool) -> (r: Vec<DisplayMessage>)
    ensures
        !*final(is_processing),
        r@.len() == messages@.len(),
        forall|i: int| 0 <= i < r@.len() ==> shows_message(messages@[i], #[trigger] r@[i]),
{
    *is_processing = false;
    show_all(messages)
}

} // verus!
