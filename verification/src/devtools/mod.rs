//! The Dart VM service: its protocol objects, the requests that the tool
//! sends and how their answers and events are picked out.
pub mod client;
pub mod flutter_extension;
pub mod io_extension;
pub mod params;
pub mod request;
pub mod response;
pub mod service;
pub mod vm_service;
