//! Responses of the Flutter daemon.
use crate::daemon::device::Device;
use crate::daemon::emulator::Emulator;
use vstd::prelude::*;

verus! {

/// The answer to the request with id `id`.
#[derive(Debug, Clone, PartialEq)]
pub struct FlutterDaemonResponse<T> {
    pub id: u32,
    pub result: Option<T>,
}

pub type VersionResponse = FlutterDaemonResponse<String>;

pub type GetDevicesResponse = FlutterDaemonResponse<Vec<Device>>;

pub type GetEmulatorsResponse = FlutterDaemonResponse<Vec<Emulator>>;

pub type DetachAppResponse = FlutterDaemonResponse<bool>;

pub type StopAppResponse = FlutterDaemonResponse<bool>;

} // verus!
