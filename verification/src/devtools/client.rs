//! What the VM service client keeps of the messages it receives: the answer
//! to the request it sent, and the events of the stream it listens to.
use crate::devtools::vm_service::{Event, StreamId};
use crate::text::{chars_equal, chars_of};
use vstd::prelude::*;

verus! {

/// An answer of the service, matched to its request by the text `id`.
#[derive(Debug, Clone, PartialEq)]
pub struct VmServiceResponse<R> {
    pub id: String,
    pub jsonrpc: String,
    pub result: R,
}

/// A notification of a stream the client listens to.
#[derive(Debug, PartialEq)]
pub struct VmServiceEvent {
    pub jsonrpc: String,
    pub method: String,
    pub params: VmServiceEventParams,
}

#[derive(Debug, PartialEq)]
pub struct VmServiceEventParams {
    pub stream_id: StreamId,
    pub event: Event,
}

/// The result that `response` carries, if it answers the request `request_id`.
pub fn result_for_request<R>(response: VmServiceResponse<R>, request_id: &str) -> (r: Option<R>)
    ensures
        r == (if response.id@ == request_id@ {
            Some(response.result)
        } else {
            None
        }),
{
    let id = chars_of(response.id.as_str());
    let wanted = chars_of(request_id);
    if chars_equal(&id, &wanted) {
        Some(response.result)
    } else {
        None
    }
}

/// Whether a message with method `method`, on stream `stream_id`, is an event
/// of the stream `wanted`: the service sends events as `streamNotify`.
pub fn is_stream_event(method: &str, stream_id: &StreamId, wanted: &StreamId) -> (b: bool)
    ensures
        b == (method@ == "streamNotify"@ && *stream_id == *wanted),
{
    let m = chars_of(method);
    let notify = chars_of("streamNotify");
    chars_equal(&m, &notify) && *stream_id == *wanted
}

/// The flag that the text `s` spells: the service writes some flags as
/// `"true"` or `"false"`; any other text spells none.
pub fn bool_from_text(s: &str) -> (r: Option<bool>)
    ensures
        r == (if s@ == "true"@ {
            Some(true)
        } else if s@ == "false"@ {
            Some(false)
        } else {
            None
        }),
{
    let chars = chars_of(s);
    let yes = chars_of("true");
    let no = chars_of("false");
    if chars_equal(&chars, &yes) {
        Some(true)
    } else if chars_equal(&chars, &no) {
        Some(false)
    } else {
        None
    }
}

/// The text the service expects for the flag `b`.
pub fn text_of_bool(b: bool) -> (s: String)
    ensures
        s@ == (if b {
            "true"@
        } else {
            "false"@
        }),
{
    if b {
        String::from_str("true")
    } else {
        String::from_str("false")
    }
}

/// The event a notification carries, when it is an event of the stream
/// `wanted`.
pub fn event_for_stream(message: VmServiceEvent, wanted: &StreamId) -> (r: Option<Event>)
    ensures
        r == (if message.method@ == "streamNotify"@ && message.params.stream_id == *wanted {
            Some(message.params.event)
        } else {
            None
        }),
{
    if is_stream_event(message.method.as_str(), &message.params.stream_id, wanted) {
        Some(message.params.event)
    } else {
        None
    }
}

} // verus!
