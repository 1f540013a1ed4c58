//! The messages that clients and the daemon exchange: one request in, at
//! most one response out.

use vstd::prelude::*;

verus! {

/// A request from a client. `ac` tells the settings for mains power from
/// those for battery.
#[derive(Clone, Debug, PartialEq, Eq)]
#[allow(inconsistent_fields)]
pub enum DaemonCommand {
    SetPowerMode { ac: usize, pwr: u8, cpu: u8, gpu: u8 },
    SetFanSpeed { ac: usize, rpm: i32 },
    SetLogoLedState { ac: usize, logo_state: u8 },
    SetBrightness { ac: usize, val: u8 },
    SetIdle { ac: usize, val: u32 },
    SetSync { sync: bool },
    GetBrightness { ac: usize },
    GetLogoLedState { ac: usize },
    GetKeyboardRGB { layer: i32 },
    GetSync,
    GetFanSpeed { ac: usize },
    GetPwrLevel { ac: usize },
    GetCPUBoost { ac: usize },
    GetGPUBoost { ac: usize },
    SetEffect { name: String, params: Vec<u8> },
    SetStandardEffect { name: String, params: Vec<u8> },
    SetBatteryHealthOptimizer { is_on: bool, threshold: u8 },
    GetBatteryHealthOptimizer,
    GetDeviceName,
    SetEnableLightControl { enable: bool },
    GetEnableLightControl,
}

/// The daemon's answer to a request of the same name.
#[derive(Clone, Debug, PartialEq, Eq)]
#[allow(inconsistent_fields)]
pub enum DaemonResponse {
    SetPowerMode { result: bool },
    SetFanSpeed { result: bool },
    SetLogoLedState { result: bool },
    SetBrightness { result: bool },
    SetIdle { result: bool },
    SetSync { result: bool },
    GetBrightness { result: u8 },
    GetLogoLedState { logo_state: u8 },
    GetKeyboardRGB { layer: i32, rgbdata: Vec<u8> },
    GetSync { sync: bool },
    GetFanSpeed { rpm: i32 },
    GetPwrLevel { pwr: u8 },
    GetCPUBoost { cpu: u8 },
    GetGPUBoost { gpu: u8 },
    SetEffect { result: bool },
    SetStandardEffect { result: bool },
    SetBatteryHealthOptimizer { result: bool },
    GetBatteryHealthOptimizer { is_on: bool, threshold: u8 },
    GetDeviceName { name: String },
    SetEnableLightControl { result: bool },
    GetEnableLightControl { enabled: bool },
}

/// An effect that the keyboard hardware runs by itself.
#[derive(Clone, Copy, Debug, PartialEq, Eq, Structural)]
pub enum StandardEffect {
    Off,
    Wave,
    Reactive,
    Breathing,
    Spectrum,
    Static,
    Starlight,
}

/// One operation of the device manager, with its arguments.
#[derive(Clone, Debug, PartialEq, Eq)]
#[allow(inconsistent_fields)]
pub enum DeviceCall {
    /// The request asks nothing of the device.
    Nothing,
    SetPowerMode { ac: usize, pwr: u8, cpu: u8, gpu: u8 },
    SetFanRpm { ac: usize, rpm: i32 },
    SetLogoLedState { ac: usize, logo_state: u8 },
    SetBrightness { ac: usize, val: u8 },
    ChangeIdle { ac: usize, val: u32 },
    SetSync { sync: bool },
    GetBrightness { ac: usize },
    GetLogoLedState { ac: usize },
    GetSync,
    GetFanRpm { ac: usize },
    GetPowerMode { ac: usize },
    GetCpuBoost { ac: usize },
    GetGpuBoost { ac: usize },
    SetStandardEffect { effect: StandardEffect, params: Vec<u8> },
    SetBhoHandler { is_on: bool, threshold: u8 },
    GetBhoHandler,
    GetName,
    SetLightControl { enable: bool },
    GetLightControl,
}

/// What the device manager answered to a call.
#[derive(Clone, Debug, PartialEq, Eq)]
pub enum DeviceReply {
    /// Nothing was asked.
    Nothing,
    /// Whether a setting was taken, or the state of a switch.
    Flag(bool),
    /// A level: brightness, logo state, power mode or boost.
    Level(u8),
    /// A fan speed.
    Rpm(i32),
    /// The battery health optimizer's switch and threshold, where the device
    /// has one.
    Bho(Option<(bool, u8)>),
    /// The device's name, where there is a device.
    Name(Option<String>),
}

} // verus!
