//! The decisions of the bot: which events become requests, what the worker
//! makes of a request, and what is posted back for a result.

use vstd::prelude::*;

use tokio::sync::mpsc::UnboundedSender;

use crate::channel::send_message;
use crate::error::Error;
use crate::message::{
    ImageRequest, ImageResult, MessageContent, MessageContext, MessageEvent, Reply, Room,
    SyncMessage,
};

verus! {

/// The request that an event asks for, if any: a text message, with its
/// content present, in a joined room, from someone other than the bot.
pub open spec fn request_of(event: SyncMessage, room: Room, user_id: Seq<char>) -> Option<ImageRequest> {
    match (room, event) {
        (Room::Joined(room_id), SyncMessage::Original(m)) => {
            if m.sender@ == user_id {
                None
            } else {
                match m.content {
                    MessageContent::Text(body) => Some(ImageRequest {
                        prompt: body,
                        message_context: MessageContext { room_id, event: m },
                    }),
                    _ => None,
                }
            }
        },
        _ => None,
    }
}

/// Picks out the request that an incoming event asks for.
pub fn request_for_event(event: SyncMessage, room: Room, user_id: &String) -> (r: Option<ImageRequest>)
    ensures
        r == request_of(event, room, user_id@),
{
    match room {
        Room::Joined(room_id) => match event {
            SyncMessage::Original(m) => {
                if m.sender == *user_id {
                    return None;
                }
                let body = match &m.content {
                    MessageContent::Text(b) => Some(b.clone()),
                    _ => None,
                };
                match body {
                    Some(prompt) => Some(
                        ImageRequest { prompt, message_context: MessageContext { room_id, event: m } },
                    ),
                    None => None,
                }
            },
            SyncMessage::Redacted { .. } => None,
        },
        _ => None,
    }
}

} // verus!

verus! {

/// What the event handler needs: the queue to the worker, and the bot's own
/// user id.
#[derive(Clone, Debug)]
pub struct HandlerContext {
    /// The queue that carries requests to the worker.
    pub tx_request: UnboundedSender<ImageRequest>,
    /// The user id the bot is logged in as.
    pub user_id: String,
}

impl HandlerContext {
    pub fn new(tx_request: UnboundedSender<ImageRequest>, user_id: String) -> (r: HandlerContext)
        ensures
            r.tx_request == tx_request,
            r.user_id == user_id,
    {
        HandlerContext { tx_request, user_id }
    }

    /// Hands a request to the worker. It fails only when the worker's end of
    /// the queue is gone, and then gives the request back in the error.
    pub fn send_request(&self, request: ImageRequest) -> (r: Result<(), Error>)
        ensures
            r matches Err(e) ==> e == Error::RequestChannel(request),
    {
        match send_message(&self.tx_request, request) {
            Ok(()) => Ok(()),
            Err(back) => Err(Error::RequestChannel(back)),
        }
    }
}

/// Handles one incoming event: queues the request it asks for, if any.
/// An event that asks for nothing is dropped and the call succeeds; a request
/// that cannot be queued comes back in the error.
pub fn on_room_message(event: SyncMessage, room: Room, ctx: &HandlerContext) -> (r: Result<(), Error>)
    ensures
        request_of(event, room, ctx.user_id@) is None ==> r is Ok,
        r matches Err(e) ==> request_of(event, room, ctx.user_id@) matches Some(req)
            && e == Error::RequestChannel(req),
{
    match request_for_event(event, room, &ctx.user_id) {
        Some(request) => ctx.send_request(request),
        None => Ok(()),
    }
}

/// Whether `result` is what the worker gives for `request`: the same prompt
/// and reply address, and an empty image.
pub open spec fn is_result_of(request: ImageRequest, result: ImageResult) -> bool {
    &&& result.prompt == request.prompt
    &&& result.image@ == Seq::<u8>::empty()
    &&& result.message_context == request.message_context
}

/// Whether `results` answers `requests` one for one, in the same order.
pub open spec fn answers(requests: Seq<ImageRequest>, results: Seq<ImageResult>) -> bool {
    &&& results.len() == requests.len()
    &&& forall|i: int| 0 <= i < requests.len() ==> #[trigger] is_result_of(requests[i], results[i])
}

/// The worker's work on one request. Image generation is not done yet: the
/// prompt comes back with an empty image.
pub fn result_for_request(request: ImageRequest) -> (r: ImageResult)
    ensures
        is_result_of(request, r),
{
    ImageResult { prompt: request.prompt, image: Vec::new(), message_context: request.message_context }
}

/// The worker's work on a batch of requests taken off the queue, in order.
pub fn results_for_requests(requests: Vec<ImageRequest>) -> (r: Vec<ImageResult>)
    ensures
        answers(requests@, r@),
{
    let ghost all = requests@;
    let mut rest = requests;
    let mut out: Vec<ImageResult> = Vec::new();
    while rest.len() > 0
        invariant
            out@.len() + rest@.len() == all.len(),
            rest@ == all.subrange(out@.len() as int, all.len() as int),
            forall|i: int| 0 <= i < out@.len() ==> #[trigger] is_result_of(all[i], out@[i]),
        decreases rest@.len(),
    {
        let request = rest.remove(0);
        let result = result_for_request(request);
        out.push(result);
    }
    out
}

/// Hands results to the reply side in order. It stops at the first one that
/// cannot be handed over, which comes back in the error.
pub fn send_results(results: Vec<ImageResult>, response_tx: &UnboundedSender<ImageResult>) -> (r: Result<(), Error>)
    ensures
        r matches Err(e) ==> exists|i: int| 0 <= i < results@.len()
            && e == Error::ResponseChannel(#[trigger] results@[i]),
{
    let ghost all = results@;
    let mut rest = results;
    let ghost mut done: int = 0;
    while rest.len() > 0
        invariant
            0 <= done <= all.len(),
            all == results@,
            rest@ == all.subrange(done, all.len() as int),
        decreases rest@.len(),
    {
        let result = rest.remove(0);
        match send_message(response_tx, result) {
            Ok(()) => {},
            Err(back) => {
                return Err(Error::ResponseChannel(back));
            },
        }
        proof { done = done + 1; }
    }
    Ok(())
}

/// The worker's turn on a batch of requests: each gets its result, and the
/// results go to the reply side in the order of the requests.
pub fn generate_images_from_requests(
    requests: Vec<ImageRequest>,
    response_tx: &UnboundedSender<ImageResult>,
) -> (r: Result<(), Error>)
    ensures
        r matches Err(e) ==> exists|i: int| 0 <= i < requests@.len()
            && e is ResponseChannel && is_result_of(#[trigger] requests@[i], e->ResponseChannel_0),
{
    let results = results_for_requests(requests);
    let r = send_results(results, response_tx);
    proof {
        if r is Err {
            let i = choose|i: int| 0 <= i < results@.len() && r->Err_0 == Error::ResponseChannel(#[trigger] results@[i]);
            assert(is_result_of(requests@[i], results@[i]));
        }
    }
    r
}

/// The text posted back for a prompt.
pub open spec fn reply_body(prompt: Seq<char>) -> Seq<char> {
    "Okay. Here is `"@ + prompt + "`"@
}

/// The reply for a result: its text names the prompt, it goes to the room
/// the request came from, and it answers the event that asked.
pub fn reply_for_result(result: ImageResult) -> (r: Reply)
    ensures
        r.room_id == result.message_context.room_id,
        r.body@ == reply_body(result.prompt@),
        r.in_reply_to == result.message_context.event,
{
    let mut body = String::from_str("Okay. Here is `");
    body.append(result.prompt.as_str());
    body.append("`");
    Reply {
        room_id: result.message_context.room_id,
        body,
        in_reply_to: result.message_context.event,
    }
}

} // verus!
