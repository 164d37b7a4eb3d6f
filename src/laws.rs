//! What holds of the pipeline as a whole.

use vstd::prelude::*;

use crate::bot::{answers, is_result_of, request_of};
use crate::message::{
    ImageRequest, ImageResult, MessageContent, MessageContext, MessageEvent, Room, SyncMessage,
};

verus! {

/// The sender of an event, whether or not its content is still present.
pub open spec fn sender_of(event: SyncMessage) -> String {
    match event {
        SyncMessage::Original(m) => m.sender,
        SyncMessage::Redacted { sender, .. } => sender,
    }
}

/// Whether an event carries a plain text message.
pub open spec fn is_text(event: SyncMessage) -> bool {
    event matches SyncMessage::Original(m) && m.content is Text
}

/// A text message in a joined room, from anyone but the bot, gives exactly
/// one request, whose prompt is the message body unchanged and whose reply
/// address is that room and that event.
pub proof fn lemma_text_from_others_is_requested(m: MessageEvent, room_id: String, user_id: Seq<char>)
    requires
        m.content is Text,
        m.sender@ != user_id,
    ensures
        request_of(SyncMessage::Original(m), Room::Joined(room_id), user_id) == Some(
            ImageRequest {
                prompt: m.content->Text_0,
                message_context: MessageContext { room_id, event: m },
            },
        ),
{
}

/// Nothing the bot sent itself is ever requested.
pub proof fn lemma_own_events_are_ignored(event: SyncMessage, room: Room, user_id: Seq<char>)
    requires
        sender_of(event)@ == user_id,
    ensures
        request_of(event, room, user_id) is None,
{
}

/// Nothing but a plain text message is ever requested.
pub proof fn lemma_non_text_is_ignored(event: SyncMessage, room: Room, user_id: Seq<char>)
    requires
        !is_text(event),
    ensures
        request_of(event, room, user_id) is None,
{
}

/// Results that answer a run of requests are exactly as many as the
/// requests, and each keeps the prompt and the reply address of its own.
pub proof fn lemma_one_result_per_request(requests: Seq<ImageRequest>, results: Seq<ImageResult>)
    requires
        answers(requests, results),
    ensures
        results.len() == requests.len(),
        forall|i: int|
            0 <= i < requests.len() ==> (#[trigger] results[i]).prompt == requests[i].prompt
                && results[i].message_context == requests[i].message_context
                && results[i].image@.len() == 0,
{
    assert forall|i: int| 0 <= i < requests.len() implies (#[trigger] results[i]).prompt
        == requests[i].prompt && results[i].message_context == requests[i].message_context
        && results[i].image@.len() == 0 by {
        assert(is_result_of(requests[i], results[i]));
    }
}

/// Results come out in the order their requests went in: of two requests,
/// the earlier one's result stands before the later one's.
pub proof fn lemma_results_keep_request_order(
    requests: Seq<ImageRequest>,
    results: Seq<ImageResult>,
    i: int,
    j: int,
)
    requires
        answers(requests, results),
        0 <= i < j < requests.len(),
    ensures
        is_result_of(requests[i], results[i]),
        is_result_of(requests[j], results[j]),
        results[i].prompt == requests[i].prompt,
        results[j].prompt == requests[j].prompt,
{
}

} // verus!
