//! Answers of the VM service to the tool's numbered requests.
use crate::devtools::vm_service::{Success, Version};
use vstd::prelude::*;

verus! {

/// The answer to the request with id `id`; `result` is absent when the
/// service sent none.
#[derive(Debug, Clone, PartialEq)]
pub struct VmServiceResponse<R> {
    pub id: u32,
    pub jsonrpc: String,
    pub result: Option<R>,
}

pub type GetVersionResponse = VmServiceResponse<Version>;

pub type SuccessResponse = VmServiceResponse<Success>;

} // verus!
