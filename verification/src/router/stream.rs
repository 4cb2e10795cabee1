//! Notifications streamed by the agent, and what each one sends to the platform.

use vstd::prelude::*;
use vstd::string::*;
use crate::json::{JsonValue, JsonView};
use crate::router::OutboundMessage;

verus! {

/// A streamed event from the agent.
#[derive(Debug)]
pub enum StreamEvent {
    TypingStart { session_id: String, chat_id: String },
    StreamChunk { session_id: String, chat_id: String, text: String, is_final: bool },
    MessageComplete { session_id: String, chat_id: String, text: String, metadata: Option<JsonValue> },
    ToolStarted { session_id: String, chat_id: String, tool_name: String, tool_params: JsonValue },
    ToolCompleted {
        session_id: String,
        chat_id: String,
        tool_name: String,
        result: Option<JsonValue>,
        error: Option<String>,
    },
}

/// What an event asks of the platform side.
#[derive(Debug)]
pub enum StreamAction {
    /// Nothing to send.
    Ignore,
    /// Send a piece of the reply.
    SendChunk(OutboundMessage),
    /// Send the complete reply.
    SendComplete(OutboundMessage),
}

/// The stream manager. It keeps no state.
#[derive(Debug)]
pub struct StreamManager {}

/// `msg` goes to `chat_id` on `platform` with `text`, streaming as given,
/// carrying `metadata`.
pub open spec fn outbound_is(
    msg: OutboundMessage,
    platform: Seq<char>,
    chat_id: Seq<char>,
    text: Seq<char>,
    is_streaming: bool,
    metadata: Option<JsonView>,
) -> bool {
    &&& msg.platform@ == platform
    &&& msg.chat_id@ == chat_id
    &&& msg.text@ == text
    &&& msg.is_streaming == is_streaming
    &&& match (msg.metadata, metadata) {
        (Some(a), Some(b)) => a@ == b,
        (None, None) => true,
        _ => false,
    }
}

impl StreamManager {
    pub fn new() -> (r: StreamManager) {
        StreamManager {  }
    }

    /// Starts handling the stream of a session. It does nothing yet and succeeds.
    pub fn handle_stream(&self, session_id: &str, platform: String, chat_id: String) -> (r: Result<(), String>)
        ensures
            r is Ok,
    {
        Ok(())
    }

    /// What an event sends to `platform`: a chunk goes out as a message that
    /// is still streaming unless it is the final one; a completed message
    /// goes out with its metadata and not streaming; other events send nothing.
    pub fn process_event(&self, event: StreamEvent, platform: &str) -> (r: StreamAction)
        ensures
            match event {
                StreamEvent::StreamChunk { chat_id, text, is_final, .. } => r matches StreamAction::SendChunk(m)
                    && outbound_is(m, platform@, chat_id@, text@, !is_final, None),
                StreamEvent::MessageComplete { chat_id, text, metadata, .. } => r matches StreamAction::SendComplete(
                    m,
                ) && outbound_is(
                    m,
                    platform@,
                    chat_id@,
                    text@,
                    false,
                    match metadata {
                        Some(x) => Some(x@),
                        None => None,
                    },
                ),
                _ => r is Ignore,
            },
    {
        match event {
            StreamEvent::StreamChunk { chat_id, text, is_final, .. } => {
                StreamAction::SendChunk(
                    OutboundMessage {
                        platform: String::from_str(platform),
                        chat_id,
                        text,
                        is_streaming: !is_final,
                        metadata: None,
                    },
                )
            },
            StreamEvent::MessageComplete { chat_id, text, metadata, .. } => {
                StreamAction::SendComplete(
                    OutboundMessage {
                        platform: String::from_str(platform),
                        chat_id,
                        text,
                        is_streaming: false,
                        metadata,
                    },
                )
            },
            _ => StreamAction::Ignore,
        }
    }
}

/// What a streamed piece of the reply sends: a message to the event's chat
/// on the given platform with the event's text, still streaming exactly when
/// the piece is not the final one, with no metadata.
pub proof fn law_chunk_outbound(m: OutboundMessage, platform: Seq<char>, chat_id: Seq<char>, text: Seq<char>, is_final: bool)
    requires
        outbound_is(m, platform, chat_id, text, !is_final, None),
    ensures
        m.platform@ == platform,
        m.chat_id@ == chat_id,
        m.text@ == text,
        m.is_streaming == !is_final,
        m.metadata is None,
{
}

/// What a completed reply sends: a message to the event's chat with the
/// event's text, not streaming, carrying the event's metadata.
pub proof fn law_complete_outbound(
    m: OutboundMessage,
    platform: Seq<char>,
    chat_id: Seq<char>,
    text: Seq<char>,
    metadata: Option<JsonView>,
)
    requires
        outbound_is(m, platform, chat_id, text, false, metadata),
    ensures
        m.platform@ == platform,
        m.chat_id@ == chat_id,
        m.text@ == text,
        !m.is_streaming,
        match (m.metadata, metadata) {
            (Some(a), Some(b)) => a@ == b,
            (None, None) => true,
            _ => false,
        },
{
}

} // verus!
