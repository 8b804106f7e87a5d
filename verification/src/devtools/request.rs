//! Requests to the VM service.
use vstd::prelude::*;

verus! {

/// Parameters of a request that takes none.
#[derive(Debug, Clone, PartialEq)]
pub struct EmptyParams {}

/// The event streams of the VM service.
#[derive(Debug, Clone, PartialEq, Eq, Structural)]
pub enum StreamId {
    VM,
    Isolate,
    Debug,
    Profiler,
    GC,
    Extension,
    Timeline,
    Logging,
    Service,
    HeapSnapshot,
}

#[derive(Debug, Clone, PartialEq)]
pub struct StreamCancelParams {
    pub stream_id: StreamId,
}

#[derive(Debug, Clone, PartialEq)]
pub struct StreamListenParams {
    pub stream_id: StreamId,
}

#[derive(Debug, Clone, PartialEq)]
pub struct FlutterListViewsParams {
    pub isolate_id: String,
}

#[derive(Debug, Clone, PartialEq)]
pub struct FlutterGetDisplayRefreshRateParams {
    pub isolate_id: String,
    pub view_id: String,
}

/// A JSON-RPC request, told apart by its `method` name on the wire.
#[derive(Debug, Clone, PartialEq)]
pub enum VmServiceRequest {
    GetVersion { jsonrpc: String, id: u32, params: EmptyParams },
    StreamListen { jsonrpc: String, id: u32, params: StreamListenParams },
    StreamCancel { jsonrpc: String, id: u32, params: StreamCancelParams },
    FlutterListViews { jsonrpc: String, id: u32, params: FlutterListViewsParams },
    FlutterGetDisplayRefreshRate {
        jsonrpc: String,
        id: u32,
        params: FlutterGetDisplayRefreshRateParams,
    },
}

} // verus!
