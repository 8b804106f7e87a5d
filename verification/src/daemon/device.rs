//! Devices that the Flutter daemon reports.
use vstd::prelude::*;

verus! {

/// What a device supports.
#[derive(Debug, Clone, PartialEq, Eq)]
pub struct DeviceCapabilities {
    pub hot_reload: bool,
    pub hot_restart: bool,
    pub screenshot: bool,
    pub fast_start: bool,
    pub flutter_exit: bool,
    pub hardware_rendering: bool,
    pub start_paused: bool,
}

/// A device that apps can run on.
#[derive(Debug, Clone, PartialEq, Eq)]
pub struct Device {
    pub id: String,
    pub name: String,
    pub platform: String,
    pub emulator: bool,
    pub category: String,
    pub platform_type: String,
    pub ephemeral: bool,
    pub emulator_id: Option<String>,
    pub sdk: String,
    pub capabilities: DeviceCapabilities,
}

} // verus!
