//! Events that the Flutter daemon sends unasked.
use crate::daemon::device::Device;
use vstd::prelude::*;

verus! {

#[derive(Debug, Clone, PartialEq)]
pub struct ConnectedEventParams {
    pub version: String,
    pub pid: u32,
}

#[derive(Debug, Clone, PartialEq)]
pub struct LogEventParams {
    pub log: String,
    pub error: bool,
}

#[derive(Debug, Clone, PartialEq)]
pub enum MessageLevel {
    Status,
    Info,
    Warning,
    Error,
}

#[derive(Debug, Clone, PartialEq)]
pub struct ShowMessageEventParams {
    pub level: MessageLevel,
    pub title: String,
    pub message: String,
}

#[derive(Debug, Clone, PartialEq)]
pub struct LogMessageEventParams {
    pub level: MessageLevel,
    pub message: String,
    pub stack_trace: Option<String>,
}

#[derive(Debug, Clone, PartialEq)]
pub enum AppLaunchMode {
    Run,
    Attach,
}

#[derive(Debug, Clone, PartialEq)]
pub enum AppMode {
    Debug,
    Profile,
    Release,
    JitRelease,
}

#[derive(Debug, Clone, PartialEq)]
pub struct AppStartEventParams {
    pub app_id: String,
    pub device_id: String,
    pub directory: String,
    pub supports_restart: bool,
    pub launch_mode: AppLaunchMode,
    pub mode: AppMode,
}

#[derive(Debug, Clone, PartialEq)]
pub struct AppDebugPortEventParams {
    pub app_id: String,
    pub ws_uri: String,
    pub base_uri: Option<String>,
    pub port: u16,
}

#[derive(Debug, Clone, PartialEq)]
pub struct AppStartedEventParams {
    pub app_id: String,
}

#[derive(Debug, Clone, PartialEq)]
pub struct AppLogEventParams {
    pub app_id: String,
    pub log: String,
    pub error: bool,
}

#[derive(Debug, Clone, PartialEq)]
pub struct AppProgressEventParams {
    pub id: String,
    pub app_id: String,
    pub progress_id: Option<String>,
    pub message: Option<String>,
    pub finished: bool,
}

#[derive(Debug, Clone, PartialEq)]
pub struct AppStopEventParams {
    pub app_id: String,
}

#[derive(Debug, Clone, PartialEq)]
pub struct AppWebLaunchUrlEventParams {
    pub url: String,
    pub launched: bool,
}

#[derive(Debug, Clone, PartialEq)]
pub struct DeviceAddedEventParams {}

#[derive(Debug, Clone, PartialEq)]
pub struct DeviceRemovedEventParams {}

/// An event, told apart by its `event` name on the wire.
#[derive(Debug, Clone, PartialEq)]
pub enum FlutterDaemonEvent {
    Connected { params: ConnectedEventParams },
    Log { params: LogEventParams },
    ShowMessage { params: ShowMessageEventParams },
    LogMessage { params: LogMessageEventParams },
    AppStart { params: AppStartEventParams },
    AppDebugPort { params: AppDebugPortEventParams },
    AppStarted { params: AppStartedEventParams },
    AppLog { params: AppLogEventParams },
    AppProgress { params: AppProgressEventParams },
    AppStop { params: AppStopEventParams },
    AppWebLaunchUrl { params: AppWebLaunchUrlEventParams },
    DeviceAdded { params: Device },
    DeviceRemoved { params: Device },
}

} // verus!
