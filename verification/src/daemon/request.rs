//! Requests to the Flutter daemon.
use vstd::prelude::*;

verus! {

#[derive(Debug, Clone, PartialEq)]
pub struct GetSupportedPlatformsParams {
    pub project_root: String,
}

#[derive(Debug, Clone, PartialEq)]
pub struct LaunchEmulatorParams {
    pub emulator_id: String,
    pub cold_boot: bool,
}

#[derive(Debug, Clone, PartialEq)]
pub struct CreateEmultorParams {
    pub name: Option<String>,
}

#[derive(Debug, Clone, PartialEq)]
pub struct RestartAppParams {
    pub app_id: String,
    pub full_restart: bool,
    pub pause: bool,
    pub reason: Option<String>,
    pub debounce: Option<String>,
}

#[derive(Debug, Clone, PartialEq)]
pub struct DetachAppParams {
    pub app_id: String,
}

#[derive(Debug, Clone, PartialEq)]
pub struct StopAppParams {
    pub app_id: String,
}

/// Parameters of a service extension call. `params` holds the extension's
/// own parameters as the text of a JSON object.
#[derive(Debug, Clone, PartialEq)]
pub struct CallServiceExtensionParams {
    pub app_id: String,
    pub method_name: String,
    pub params: Option<String>,
}

#[derive(Debug, Clone, PartialEq)]
pub struct DeviceForwardParams {
    pub device_id: String,
    pub port: u32,
    pub host_port: Option<u32>,
}

#[derive(Debug, Clone, PartialEq)]
pub struct DeviceUnforwardParams {
    pub device_id: String,
    pub port: u32,
    pub host_port: u32,
}

/// A request, told apart by its `method` name on the wire.
#[derive(Debug, Clone, PartialEq)]
pub enum FlutterDaemonRequest {
    Version { id: u32 },
    Shutdown { id: u32 },
    GetSupportedPlatforms { id: u32, params: GetSupportedPlatformsParams },
    GetDevices { id: u32 },
    DeviceEnable { id: u32 },
    DeviceDisable { id: u32 },
    DeviceForward { id: u32, params: DeviceForwardParams },
    DeviceUnforward { id: u32, params: DeviceUnforwardParams },
    GetEmulators { id: u32 },
    LaunchEmulator { id: u32, params: LaunchEmulatorParams },
    CreateEmulator { id: u32, params: CreateEmultorParams },
    ServeDevtools { id: u32 },
    RestartApp { id: u32, params: RestartAppParams },
    DetachApp { id: u32, params: DetachAppParams },
    StopApp { id: u32, params: StopAppParams },
    CallServiceExtension { id: u32, params: CallServiceExtensionParams },
}

} // verus!
