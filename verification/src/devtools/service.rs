//! The decisions of the tool's own VM service connection: the requests it
//! sends, numbered one after another, and which incoming messages it keeps.
use crate::devtools::request::{
    EmptyParams, StreamCancelParams, StreamId, StreamListenParams, VmServiceRequest,
};
use crate::devtools::response::{GetVersionResponse, VmServiceResponse};
use crate::devtools::vm_service::{Event, Version};
use crate::text::{chars_equal, chars_of};
use vstd::prelude::*;

verus! {

/// Why a call to the service gave no result.
#[derive(Debug, Clone, PartialEq, Eq, Structural)]
pub enum ServiceError {
    /// The answer to `getVersion` held no version.
    MissingVersion,
}

/// The JSON-RPC version that every request names.
pub open spec fn is_jsonrpc_version(s: Seq<char>) -> bool {
    s == "2.0"@
}

fn jsonrpc_version() -> (s: String)
    ensures
        is_jsonrpc_version(s@),
{
    String::from_str("2.0")
}

/// The `getVersion` request with id `id`.
pub fn get_version_request(id: u32) -> (r: VmServiceRequest)
    ensures
        r matches VmServiceRequest::GetVersion { jsonrpc, id: i, params: _ } && is_jsonrpc_version(
            jsonrpc@,
        ) && i == id,
{
    VmServiceRequest::GetVersion { jsonrpc: jsonrpc_version(), id, params: EmptyParams {  } }
}

/// The request with id `id` to listen to the stream `stream_id`.
pub fn stream_listen_request(id: u32, stream_id: StreamId) -> (r: VmServiceRequest)
    ensures
        r matches VmServiceRequest::StreamListen { jsonrpc, id: i, params } && is_jsonrpc_version(
            jsonrpc@,
        ) && i == id && params.stream_id == stream_id,
{
    VmServiceRequest::StreamListen {
        jsonrpc: jsonrpc_version(),
        id,
        params: StreamListenParams { stream_id },
    }
}

/// The request with id `id` to stop listening to the stream `stream_id`.
pub fn stream_cancel_request(id: u32, stream_id: StreamId) -> (r: VmServiceRequest)
    ensures
        r matches VmServiceRequest::StreamCancel { jsonrpc, id: i, params } && is_jsonrpc_version(
            jsonrpc@,
        ) && i == id && params.stream_id == stream_id,
{
    VmServiceRequest::StreamCancel {
        jsonrpc: jsonrpc_version(),
        id,
        params: StreamCancelParams { stream_id },
    }
}

/// The response, if it answers the request with id `request_id`.
pub fn answer_for<R>(response: VmServiceResponse<R>, request_id: u32) -> (r: Option<
    VmServiceResponse<R>,
>)
    ensures
        r == (if response.id == request_id {
            Some(response)
        } else {
            None
        }),
{
    if response.id == request_id {
        Some(response)
    } else {
        None
    }
}

/// The version that an answer to `getVersion` carries.
pub fn version_of(response: GetVersionResponse) -> (r: Result<Version, ServiceError>)
    ensures
        match response.result {
            Some(v) => r == Ok::<Version, ServiceError>(v),
            None => r == Err::<Version, ServiceError>(ServiceError::MissingVersion),
        },
{
    match response.result {
        Some(v) => Ok(v),
        None => Err(ServiceError::MissingVersion),
    }
}

/// Whether a message with method `method` is an event of a stream the tool
/// listens to.
pub fn is_stream_notification(method: &str) -> (b: bool)
    ensures
        b == (method@ == "streamNotify"@),
{
    let m = chars_of(method);
    let notify = chars_of("streamNotify");
    chars_equal(&m, &notify)
}

/// A notification on the tool's own connection.
#[derive(Debug, PartialEq)]
pub struct VmServiceEvent {
    pub jsonrpc: String,
    pub method: String,
    pub params: Event,
}

/// The event a notification carries, when it is a stream event.
pub fn event_of(message: VmServiceEvent) -> (r: Option<Event>)
    ensures
        r == (if message.method@ == "streamNotify"@ {
            Some(message.params)
        } else {
            None
        }),
{
    if is_stream_notification(message.method.as_str()) {
        Some(message.params)
    } else {
        None
    }
}

} // verus!
