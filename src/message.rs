//! The data that travels through the bot: incoming events, the requests that
//! the worker takes, the results it gives back, and the replies sent out.

use vstd::prelude::*;

verus! {

/// What a room message holds, by message type.
#[derive(Clone, Debug, PartialEq, Eq)]
pub enum MessageContent {
    /// Plain text, with its body.
    Text(String),
    /// An emote, with its body.
    Emote(String),
    /// A notice, with its body.
    Notice(String),
    /// An image, with its description.
    Image(String),
    /// Any other message type, with its type name.
    Other(String),
}

/// A room message event whose content is still present.
#[derive(Clone, Debug, PartialEq, Eq)]
pub struct MessageEvent {
    pub event_id: String,
    pub sender: String,
    pub content: MessageContent,
}

/// A room message event as the sync loop hands it over.
#[derive(Clone, Debug, PartialEq, Eq)]
pub enum SyncMessage {
    /// The event with its content.
    Original(MessageEvent),
    /// An event whose content was removed: only its id and sender are left.
    Redacted { event_id: String, sender: String },
}

/// The room an event arrived in, by the bot's membership in it.
#[derive(Clone, Debug, PartialEq, Eq)]
pub enum Room {
    Joined(String),
    Invited(String),
    Left(String),
}

/// Where a reply goes: the room, and the event it answers.
#[derive(Clone, Debug, PartialEq, Eq)]
pub struct MessageContext {
    pub room_id: String,
    pub event: MessageEvent,
}

/// Work for the worker: the prompt, and where to answer.
#[derive(Clone, Debug, PartialEq, Eq)]
pub struct ImageRequest {
    pub prompt: String,
    pub message_context: MessageContext,
}

/// What the worker made of a request.
#[derive(Clone, Debug, PartialEq, Eq)]
pub struct ImageResult {
    pub prompt: String,
    pub image: Vec<u8>,
    pub message_context: MessageContext,
}

/// A text message to post in a room, as an answer to an earlier event.
#[derive(Clone, Debug, PartialEq, Eq)]
pub struct Reply {
    pub room_id: String,
    pub body: String,
    pub in_reply_to: MessageEvent,
}

} // verus!
