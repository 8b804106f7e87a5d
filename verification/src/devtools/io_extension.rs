//! Objects that the `dart:io` service extensions return.
//!
//! A field that the protocol calls `type` is named `type_` here.
use vstd::prelude::*;

verus! {

#[derive(Debug, Clone, PartialEq)]
pub struct OpenFileRef {
    pub type_: String,
    pub id: i64,
    pub name: String,
}

#[derive(Debug, Clone, PartialEq)]
pub struct OpenFile {
    pub type_: String,
    pub id: i64,
    pub name: String,
    pub read_bytes: i64,
    pub write_bytes: i64,
    pub read_count: i64,
    pub write_count: i64,
    pub last_read_time: i64,
    pub last_write_time: i64,
}

#[derive(Debug, Clone, PartialEq)]
pub struct OpenFileList {
    pub type_: String,
    pub files: Vec<OpenFileRef>,
}

#[derive(Debug, Clone, PartialEq)]
pub struct HttpTimelineLoggingState {
    pub type_: String,
    pub enabled: bool,
}

#[derive(Debug, Clone, PartialEq)]
pub struct HttpProfileProxyData {
    pub type_: String,
    pub host: Option<String>,
    pub username: Option<String>,
    pub is_direct: Option<bool>,
    pub port: Option<i64>,
}

#[derive(Debug, Clone, PartialEq)]
pub struct SocketProfilingState {
    pub type_: String,
    pub enabled: bool,
}

#[derive(Debug, Clone, PartialEq)]
pub struct SpawnedProcessRef {
    pub type_: String,
    pub id: i64,
    pub name: String,
}

#[derive(Debug, Clone, PartialEq)]
pub struct SpawnedProcess {
    pub type_: String,
    pub id: i64,
    pub name: String,
    pub pid: i64,
    pub started_at: i64,
    pub arguments: Vec<String>,
    pub working_directory: String,
}

#[derive(Debug, Clone, PartialEq)]
pub struct SpawnedProcessList {
    pub type_: String,
    pub processes: Vec<SpawnedProcessRef>,
}

#[derive(Debug, Clone, PartialEq)]
pub struct Response {
    pub type_: String,
}

#[derive(Debug, Clone, PartialEq)]
pub struct SocketProfile {
    pub type_: String,
    pub sockets: Vec<SocketStatistic>,
}

#[derive(Debug, Clone, PartialEq)]
pub struct SocketStatistic {
    pub id: i64,
    pub start_time: i64,
    pub end_time: Option<i64>,
    pub last_read_time: Option<i64>,
    pub last_write_time: Option<i64>,
    pub address: String,
    pub port: i64,
    pub socket_type: String,
    pub read_bytes: i64,
    pub write_bytes: i64,
}

#[derive(Debug, Clone, PartialEq)]
pub struct Success {
    pub type_: String,
}

#[derive(Debug, Clone, PartialEq)]
pub struct Version {
    pub type_: String,
    pub major: i64,
    pub minor: i64,
}

/// The HTTP profile of an isolate.
#[derive(Debug, Clone, PartialEq)]
pub struct HttpProfile {
    pub type_: String,
    pub timestamp: i64,
    pub requests: Vec<HttpProfileRequestRef>,
}

#[derive(Debug, Clone, PartialEq)]
pub struct HttpProfileRequestRef {
    pub type_: String,
    pub id: String,
    pub isolate_id: String,
    pub method: String,
    pub uri: String,
    pub events: Vec<HttpProfileRequestEvent>,
    pub start_time: i64,
    pub end_time: Option<i64>,
    pub request: Option<HttpProfileRequestData>,
    pub response: Option<HttpProfileResponseData>,
}

#[derive(Debug, Clone, PartialEq)]
pub struct HttpProfileRequest {
    pub type_: String,
    pub id: String,
    pub isolate_id: String,
    pub method: String,
    pub uri: String,
    pub events: Vec<HttpProfileRequestEvent>,
    pub start_time: i64,
    pub end_time: Option<i64>,
    pub request: Option<HttpProfileRequestData>,
    pub response: Option<HttpProfileResponseData>,
    pub request_body: Option<Vec<i64>>,
    pub response_body: Option<Vec<i64>>,
}

/// The request side of a profiled request; `connection_info` and `headers`
/// hold the JSON text of their objects.
#[derive(Debug, Clone, PartialEq)]
pub struct HttpProfileRequestData {
    pub type_: String,
    pub connection_info: Option<String>,
    pub content_length: Option<i64>,
    pub cookies: Option<Vec<String>>,
    pub error: Option<String>,
    pub follow_redirects: Option<bool>,
    pub headers: Option<String>,
    pub max_redirects: Option<i64>,
    pub persistent_connection: Option<bool>,
    pub proxy_details: Option<HttpProfileProxyData>,
}

/// The response side of a profiled request; `redirects`, `connection_info`
/// and `headers` hold the JSON text of their objects.
#[derive(Debug, Clone, PartialEq)]
pub struct HttpProfileResponseData {
    pub type_: String,
    pub redirects: Vec<String>,
    pub cookies: Option<Vec<String>>,
    pub connection_info: Option<String>,
    pub headers: Option<String>,
    pub compression_state: Option<String>,
    pub reason_phrase: Option<String>,
    pub is_redirect: Option<bool>,
    pub persistent_connection: Option<bool>,
    pub content_length: Option<i64>,
    pub status_code: Option<i64>,
    pub start_time: Option<i64>,
    pub end_time: Option<i64>,
    pub error: Option<String>,
}

/// An event of a profiled request; `arguments` holds the JSON text of its
/// object.
#[derive(Debug, Clone, PartialEq)]
pub struct HttpProfileRequestEvent {
    pub type_: String,
    pub event: String,
    pub timestamp: i64,
    pub arguments: Option<String>,
}

} // verus!
