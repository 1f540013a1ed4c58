//! The daemon's decisions at startup and for each client request: with
//! which layers it starts, what a request asks of the device and of the
//! effect stack, and how it is answered.
//!
//! Nothing here touches the device, a socket or a bus. The caller performs
//! the device call that a request needs and hands the device's reply back;
//! the functions here say which call that is and what follows from the
//! reply.

use crate::comms::{DaemonCommand, DaemonResponse, DeviceCall, DeviceReply, StandardEffect};
use crate::effects::{name_is, named_effect, Effect, LayerEffect, StaticEffect};
use crate::layers::{
    lemma_frame_covers_keyboard, lemma_pop_keeps_wf, lemma_push_keeps_wf, LayerStack,
};
use crate::manager::{records_of, EffectManager, SavedLayer};
use crate::rgb::{frame_bytes, uniform_frame, KeyColour, KEY_COUNT};
use vstd::prelude::*;

verus! {

/// The kinds of reply that the device manager gives.
#[derive(Clone, Copy, Debug, PartialEq, Eq, Structural)]
pub enum ReplyKind {
    Nothing,
    Flag,
    Level,
    Rpm,
    Bho,
    Name,
}

/// A claim of every key.
pub open spec fn all_keys() -> Seq<bool> {
    Seq::new(KEY_COUNT as nat, |k: int| true)
}

/// The hardware effect that a client names with `name`, if there is one.
pub open spec fn standard_effect_named(name: Seq<char>) -> Option<StandardEffect> {
    if name == "off"@ {
        Some(StandardEffect::Off)
    } else if name == "wave"@ {
        Some(StandardEffect::Wave)
    } else if name == "reactive"@ {
        Some(StandardEffect::Reactive)
    } else if name == "breathing"@ {
        Some(StandardEffect::Breathing)
    } else if name == "spectrum"@ {
        Some(StandardEffect::Spectrum)
    } else if name == "static"@ {
        Some(StandardEffect::Static)
    } else if name == "starlight"@ {
        Some(StandardEffect::Starlight)
    } else {
        None
    }
}

/// The kind of a reply.
pub open spec fn reply_kind(reply: DeviceReply) -> ReplyKind {
    match reply {
        DeviceReply::Nothing => ReplyKind::Nothing,
        DeviceReply::Flag(_) => ReplyKind::Flag,
        DeviceReply::Level(_) => ReplyKind::Level,
        DeviceReply::Rpm(_) => ReplyKind::Rpm,
        DeviceReply::Bho(_) => ReplyKind::Bho,
        DeviceReply::Name(_) => ReplyKind::Name,
    }
}

/// The kind of reply that answers a call.
pub open spec fn answer_kind(call: DeviceCall) -> ReplyKind {
    match call {
        DeviceCall::Nothing => ReplyKind::Nothing,
        DeviceCall::SetPowerMode { .. } => ReplyKind::Flag,
        DeviceCall::SetFanRpm { .. } => ReplyKind::Flag,
        DeviceCall::SetLogoLedState { .. } => ReplyKind::Flag,
        DeviceCall::SetBrightness { .. } => ReplyKind::Flag,
        DeviceCall::ChangeIdle { .. } => ReplyKind::Flag,
        DeviceCall::SetSync { .. } => ReplyKind::Flag,
        DeviceCall::GetBrightness { .. } => ReplyKind::Level,
        DeviceCall::GetLogoLedState { .. } => ReplyKind::Level,
        DeviceCall::GetSync => ReplyKind::Flag,
        DeviceCall::GetFanRpm { .. } => ReplyKind::Rpm,
        DeviceCall::GetPowerMode { .. } => ReplyKind::Level,
        DeviceCall::GetCpuBoost { .. } => ReplyKind::Level,
        DeviceCall::GetGpuBoost { .. } => ReplyKind::Level,
        DeviceCall::SetStandardEffect { .. } => ReplyKind::Flag,
        DeviceCall::SetBhoHandler { .. } => ReplyKind::Flag,
        DeviceCall::GetBhoHandler => ReplyKind::Bho,
        DeviceCall::GetName => ReplyKind::Name,
        DeviceCall::SetLightControl { .. } => ReplyKind::Flag,
        DeviceCall::GetLightControl => ReplyKind::Flag,
    }
}

/// `call` is the one device call that `cmd` needs, with the request's
/// arguments. Requests on the effect stack need none; switching to a
/// hardware effect needs one only where there is a device and the effect's
/// name is known.
pub open spec fn is_call_for(cmd: DaemonCommand, device_present: bool, call: DeviceCall) -> bool {
    match cmd {
        DaemonCommand::SetPowerMode { ac, pwr, cpu, gpu } => call
            == (DeviceCall::SetPowerMode { ac, pwr, cpu, gpu }),
        DaemonCommand::SetFanSpeed { ac, rpm } => call == (DeviceCall::SetFanRpm { ac, rpm }),
        DaemonCommand::SetLogoLedState { ac, logo_state } => call
            == (DeviceCall::SetLogoLedState { ac, logo_state }),
        DaemonCommand::SetBrightness { ac, val } => call == (DeviceCall::SetBrightness { ac, val }),
        DaemonCommand::SetIdle { ac, val } => call == (DeviceCall::ChangeIdle { ac, val }),
        DaemonCommand::SetSync { sync } => call == (DeviceCall::SetSync { sync }),
        DaemonCommand::GetBrightness { ac } => call == (DeviceCall::GetBrightness { ac }),
        DaemonCommand::GetLogoLedState { ac } => call == (DeviceCall::GetLogoLedState { ac }),
        DaemonCommand::GetKeyboardRGB { .. } => call == DeviceCall::Nothing,
        DaemonCommand::GetSync => call == DeviceCall::GetSync,
        DaemonCommand::GetFanSpeed { ac } => call == (DeviceCall::GetFanRpm { ac }),
        DaemonCommand::GetPwrLevel { ac } => call == (DeviceCall::GetPowerMode { ac }),
        DaemonCommand::GetCPUBoost { ac } => call == (DeviceCall::GetCpuBoost { ac }),
        DaemonCommand::GetGPUBoost { ac } => call == (DeviceCall::GetGpuBoost { ac }),
        DaemonCommand::SetEffect { .. } => call == DeviceCall::Nothing,
        DaemonCommand::SetStandardEffect { name, params } => {
            if device_present && standard_effect_named(name@) is Some {
                &&& call matches DeviceCall::SetStandardEffect { effect, params: sent }
                &&& Some(effect) == standard_effect_named(name@)
                &&& sent@ == params@
            } else {
                call == DeviceCall::Nothing
            }
        },
        DaemonCommand::SetBatteryHealthOptimizer { is_on, threshold } => call
            == (DeviceCall::SetBhoHandler { is_on, threshold }),
        DaemonCommand::GetBatteryHealthOptimizer => call == DeviceCall::GetBhoHandler,
        DaemonCommand::GetDeviceName => call == DeviceCall::GetName,
        DaemonCommand::SetEnableLightControl { enable } => call
            == (DeviceCall::SetLightControl { enable }),
        DaemonCommand::GetEnableLightControl => call == DeviceCall::GetLightControl,
    }
}

/// The kind of reply that `cmd` waits for.
pub open spec fn expected_reply(cmd: DaemonCommand, device_present: bool) -> ReplyKind {
    match cmd {
        DaemonCommand::SetPowerMode { .. } => ReplyKind::Flag,
        DaemonCommand::SetFanSpeed { .. } => ReplyKind::Flag,
        DaemonCommand::SetLogoLedState { .. } => ReplyKind::Flag,
        DaemonCommand::SetBrightness { .. } => ReplyKind::Flag,
        DaemonCommand::SetIdle { .. } => ReplyKind::Flag,
        DaemonCommand::SetSync { .. } => ReplyKind::Flag,
        DaemonCommand::GetBrightness { .. } => ReplyKind::Level,
        DaemonCommand::GetLogoLedState { .. } => ReplyKind::Level,
        DaemonCommand::GetKeyboardRGB { .. } => ReplyKind::Nothing,
        DaemonCommand::GetSync => ReplyKind::Flag,
        DaemonCommand::GetFanSpeed { .. } => ReplyKind::Rpm,
        DaemonCommand::GetPwrLevel { .. } => ReplyKind::Level,
        DaemonCommand::GetCPUBoost { .. } => ReplyKind::Level,
        DaemonCommand::GetGPUBoost { .. } => ReplyKind::Level,
        DaemonCommand::SetEffect { .. } => ReplyKind::Nothing,
        DaemonCommand::SetStandardEffect { name, .. } => if device_present
            && standard_effect_named(name@) is Some {
            ReplyKind::Flag
        } else {
            ReplyKind::Nothing
        },
        DaemonCommand::SetBatteryHealthOptimizer { .. } => ReplyKind::Flag,
        DaemonCommand::GetBatteryHealthOptimizer => ReplyKind::Bho,
        DaemonCommand::GetDeviceName => ReplyKind::Name,
        DaemonCommand::SetEnableLightControl { .. } => ReplyKind::Flag,
        DaemonCommand::GetEnableLightControl => ReplyKind::Flag,
    }
}

/// Whether serving `cmd` reads or changes the effect stack, so that the
/// stack must be held for it.
pub open spec fn uses_effect_stack(cmd: DaemonCommand, device_present: bool) -> bool {
    match cmd {
        DaemonCommand::GetKeyboardRGB { .. } => true,
        DaemonCommand::SetEffect { .. } => true,
        DaemonCommand::SetStandardEffect { .. } => device_present,
        _ => false,
    }
}

/// The effect stack after `cmd` has been served.
///
/// Setting a named effect replaces the top layer by that effect on every
/// key, where there is a device and the name and parameters name an effect;
/// otherwise the stack stays. Switching to a hardware effect takes the top
/// layer off where there is a device, whether or not the name is known.
/// No other request changes the stack, and none does where the reply is not
/// of the kind that the request waits for.
pub open spec fn stack_after(
    cmd: DaemonCommand,
    device_present: bool,
    reply: DeviceReply,
    stack: LayerStack,
) -> LayerStack {
    if reply_kind(reply) != expected_reply(cmd, device_present) {
        stack
    } else {
        match cmd {
            DaemonCommand::SetEffect { name, params } => match named_effect(name@, params@) {
                Some(effect) if device_present => stack.pop().push(effect, all_keys()),
                _ => stack,
            },
            DaemonCommand::SetStandardEffect { .. } => if device_present {
                stack.pop()
            } else {
                stack
            },
            _ => stack,
        }
    }
}

/// `response` is the answer to `cmd`, given what the device replied and,
/// for a query of the keyboard's colours, the bytes `shown` of the layer
/// asked for.
///
/// A reply of another kind than the request waits for gets no response.
/// Otherwise the response has the request's name. A setting reports the
/// device's flag; a query reports the device's value. Setting a named
/// effect succeeds where there is a device and the effect is known;
/// switching to a hardware effect succeeds where there is a device, the
/// effect is known and the device took it. A query of the battery health
/// optimizer gets no response where the device has none, and the name of a
/// missing device is "Unknown Device".
pub open spec fn responds(
    cmd: DaemonCommand,
    device_present: bool,
    reply: DeviceReply,
    shown: Seq<u8>,
    response: Option<DaemonResponse>,
) -> bool {
    if reply_kind(reply) != expected_reply(cmd, device_present) {
        response is None
    } else {
        match cmd {
            DaemonCommand::SetPowerMode { .. } => {
                &&& response matches Some(DaemonResponse::SetPowerMode { result })
                &&& reply == DeviceReply::Flag(result)
            },
            DaemonCommand::SetFanSpeed { .. } => {
                &&& response matches Some(DaemonResponse::SetFanSpeed { result })
                &&& reply == DeviceReply::Flag(result)
            },
            DaemonCommand::SetLogoLedState { .. } => {
                &&& response matches Some(DaemonResponse::SetLogoLedState { result })
                &&& reply == DeviceReply::Flag(result)
            },
            DaemonCommand::SetBrightness { .. } => {
                &&& response matches Some(DaemonResponse::SetBrightness { result })
                &&& reply == DeviceReply::Flag(result)
            },
            DaemonCommand::SetIdle { .. } => {
                &&& response matches Some(DaemonResponse::SetIdle { result })
                &&& reply == DeviceReply::Flag(result)
            },
            DaemonCommand::SetSync { .. } => {
                &&& response matches Some(DaemonResponse::SetSync { result })
                &&& reply == DeviceReply::Flag(result)
            },
            DaemonCommand::GetBrightness { .. } => {
                &&& response matches Some(DaemonResponse::GetBrightness { result })
                &&& reply == DeviceReply::Level(result)
            },
            DaemonCommand::GetLogoLedState { .. } => {
                &&& response matches Some(DaemonResponse::GetLogoLedState { logo_state })
                &&& reply == DeviceReply::Level(logo_state)
            },
            DaemonCommand::GetKeyboardRGB { layer } => {
                &&& response matches Some(DaemonResponse::GetKeyboardRGB { layer: asked, rgbdata })
                &&& asked == layer
                &&& rgbdata@ == shown
            },
            DaemonCommand::GetSync => {
                &&& response matches Some(DaemonResponse::GetSync { sync })
                &&& reply == DeviceReply::Flag(sync)
            },
            DaemonCommand::GetFanSpeed { .. } => {
                &&& response matches Some(DaemonResponse::GetFanSpeed { rpm })
                &&& reply == DeviceReply::Rpm(rpm)
            },
            DaemonCommand::GetPwrLevel { .. } => {
                &&& response matches Some(DaemonResponse::GetPwrLevel { pwr })
                &&& reply == DeviceReply::Level(pwr)
            },
            DaemonCommand::GetCPUBoost { .. } => {
                &&& response matches Some(DaemonResponse::GetCPUBoost { cpu })
                &&& reply == DeviceReply::Level(cpu)
            },
            DaemonCommand::GetGPUBoost { .. } => {
                &&& response matches Some(DaemonResponse::GetGPUBoost { gpu })
                &&& reply == DeviceReply::Level(gpu)
            },
            DaemonCommand::SetEffect { name, params } => {
                &&& response matches Some(DaemonResponse::SetEffect { result })
                &&& result == (device_present && named_effect(name@, params@) is Some)
            },
            DaemonCommand::SetStandardEffect { name, .. } => {
                &&& response matches Some(DaemonResponse::SetStandardEffect { result })
                &&& result == (reply == DeviceReply::Flag(true))
            },
            DaemonCommand::SetBatteryHealthOptimizer { .. } => {
                &&& response matches Some(DaemonResponse::SetBatteryHealthOptimizer { result })
                &&& reply == DeviceReply::Flag(result)
            },
            DaemonCommand::GetBatteryHealthOptimizer => match reply {
                DeviceReply::Bho(Some((on, level))) => {
                    &&& response matches Some(
                        DaemonResponse::GetBatteryHealthOptimizer { is_on, threshold },
                    )
                    &&& is_on == on
                    &&& threshold == level
                },
                _ => response is None,
            },
            DaemonCommand::GetDeviceName => {
                &&& response matches Some(DaemonResponse::GetDeviceName { name })
                &&& name@ == match reply {
                    DeviceReply::Name(Some(known)) => known@,
                    _ => "Unknown Device"@,
                }
            },
            DaemonCommand::SetEnableLightControl { .. } => {
                &&& response matches Some(DaemonResponse::SetEnableLightControl { result })
                &&& reply == DeviceReply::Flag(result)
            },
            DaemonCommand::GetEnableLightControl => {
                &&& response matches Some(DaemonResponse::GetEnableLightControl { enabled })
                &&& reply == DeviceReply::Flag(enabled)
            },
        }
    }
}

fn copy_bytes(bytes: &Vec<u8>) -> (copy: Vec<u8>)
    ensures
        copy@ == bytes@,
{
    let mut copy: Vec<u8> = Vec::new();
    let mut i: usize = 0;
    while i < bytes.len()
        invariant
            i <= bytes.len(),
            copy@ == bytes@.subrange(0, i as int),
        decreases bytes.len() - i,
    {
        copy.push(bytes[i]);
        assert(bytes@.subrange(0, i as int).push(bytes@[i as int]) =~= bytes@.subrange(
            0,
            i as int + 1,
        ));
        i += 1;
    }
    assert(bytes@.subrange(0, bytes.len() as int) =~= bytes@);
    copy
}

/// The hardware effect that `name` names.
pub fn standard_effect_from_name(name: &String) -> (effect: Option<StandardEffect>)
    ensures
        effect == standard_effect_named(name@),
{
    if name_is(name, "off") {
        Some(StandardEffect::Off)
    } else if name_is(name, "wave") {
        Some(StandardEffect::Wave)
    } else if name_is(name, "reactive") {
        Some(StandardEffect::Reactive)
    } else if name_is(name, "breathing") {
        Some(StandardEffect::Breathing)
    } else if name_is(name, "spectrum") {
        Some(StandardEffect::Spectrum)
    } else if name_is(name, "static") {
        Some(StandardEffect::Static)
    } else if name_is(name, "starlight") {
        Some(StandardEffect::Starlight)
    } else {
        None
    }
}

/// A switch of effects replaces the top layer: the stack holds as many
/// layers as before, or one where it held none, so that switching again and
/// again never makes it grow; and every key shows the new effect.
pub proof fn lemma_switch_replaces_top(stack: LayerStack, effect: LayerEffect)
    requires
        stack.wf(),
    ensures
        stack.pop().push(effect, all_keys()).wf(),
        stack.pop().push(effect, all_keys()).count() == if stack.count() == 0 {
            1
        } else {
            stack.count()
        },
        stack.pop().push(effect, all_keys()).rendered() == effect.frame(),
{
    let below = stack.pop();
    let after = below.push(effect, all_keys());
    lemma_pop_keeps_wf(stack);
    lemma_push_keeps_wf(below, effect, all_keys());
    lemma_frame_covers_keyboard(effect);
    assert forall|k: int| 0 <= k < KEY_COUNT implies after.rendered()[k] == effect.frame()[k] by {
        assert(after.snapshots.last()[k] == below.count());
    }
    assert(after.rendered() =~= effect.frame());
}

/// Whether `reply` is of the kind that answers `call`.
pub fn answers(call: &DeviceCall, reply: &DeviceReply) -> (fits: bool)
    ensures
        fits == (reply_kind(*reply) == answer_kind(*call)),
{
    match reply {
        DeviceReply::Nothing => match call {
            DeviceCall::Nothing => true,
            _ => false,
        },
        DeviceReply::Flag(_) => match call {
            DeviceCall::SetPowerMode { .. } => true,
            DeviceCall::SetFanRpm { .. } => true,
            DeviceCall::SetLogoLedState { .. } => true,
            DeviceCall::SetBrightness { .. } => true,
            DeviceCall::ChangeIdle { .. } => true,
            DeviceCall::SetSync { .. } => true,
            DeviceCall::GetSync => true,
            DeviceCall::SetStandardEffect { .. } => true,
            DeviceCall::SetBhoHandler { .. } => true,
            DeviceCall::SetLightControl { .. } => true,
            DeviceCall::GetLightControl => true,
            _ => false,
        },
        DeviceReply::Level(_) => match call {
            DeviceCall::GetBrightness { .. } => true,
            DeviceCall::GetLogoLedState { .. } => true,
            DeviceCall::GetPowerMode { .. } => true,
            DeviceCall::GetCpuBoost { .. } => true,
            DeviceCall::GetGpuBoost { .. } => true,
            _ => false,
        },
        DeviceReply::Rpm(_) => match call {
            DeviceCall::GetFanRpm { .. } => true,
            _ => false,
        },
        DeviceReply::Bho(_) => match call {
            DeviceCall::GetBhoHandler => true,
            _ => false,
        },
        DeviceReply::Name(_) => match call {
            DeviceCall::GetName => true,
            _ => false,
        },
    }
}

/// The device call that `cmd` needs.
pub fn device_call(cmd: &DaemonCommand, device_present: bool) -> (call: DeviceCall)
    ensures
        is_call_for(*cmd, device_present, call),
        answer_kind(call) == expected_reply(*cmd, device_present),
{
    match cmd {
        DaemonCommand::SetPowerMode { ac, pwr, cpu, gpu } => DeviceCall::SetPowerMode {
            ac: *ac,
            pwr: *pwr,
            cpu: *cpu,
            gpu: *gpu,
        },
        DaemonCommand::SetFanSpeed { ac, rpm } => DeviceCall::SetFanRpm { ac: *ac, rpm: *rpm },
        DaemonCommand::SetLogoLedState { ac, logo_state } => DeviceCall::SetLogoLedState {
            ac: *ac,
            logo_state: *logo_state,
        },
        DaemonCommand::SetBrightness { ac, val } => DeviceCall::SetBrightness {
            ac: *ac,
            val: *val,
        },
        DaemonCommand::SetIdle { ac, val } => DeviceCall::ChangeIdle { ac: *ac, val: *val },
        DaemonCommand::SetSync { sync } => DeviceCall::SetSync { sync: *sync },
        DaemonCommand::GetBrightness { ac } => DeviceCall::GetBrightness { ac: *ac },
        DaemonCommand::GetLogoLedState { ac } => DeviceCall::GetLogoLedState { ac: *ac },
        DaemonCommand::GetKeyboardRGB { .. } => DeviceCall::Nothing,
        DaemonCommand::GetSync => DeviceCall::GetSync,
        DaemonCommand::GetFanSpeed { ac } => DeviceCall::GetFanRpm { ac: *ac },
        DaemonCommand::GetPwrLevel { ac } => DeviceCall::GetPowerMode { ac: *ac },
        DaemonCommand::GetCPUBoost { ac } => DeviceCall::GetCpuBoost { ac: *ac },
        DaemonCommand::GetGPUBoost { ac } => DeviceCall::GetGpuBoost { ac: *ac },
        DaemonCommand::SetEffect { .. } => DeviceCall::Nothing,
        DaemonCommand::SetStandardEffect { name, params } => {
            if device_present {
                match standard_effect_from_name(name) {
                    Some(effect) => DeviceCall::SetStandardEffect {
                        effect,
                        params: copy_bytes(params),
                    },
                    None => DeviceCall::Nothing,
                }
            } else {
                DeviceCall::Nothing
            }
        },
        DaemonCommand::SetBatteryHealthOptimizer { is_on, threshold } => {
            DeviceCall::SetBhoHandler { is_on: *is_on, threshold: *threshold }
        },
        DaemonCommand::GetBatteryHealthOptimizer => DeviceCall::GetBhoHandler,
        DaemonCommand::GetDeviceName => DeviceCall::GetName,
        DaemonCommand::SetEnableLightControl { enable } => DeviceCall::SetLightControl {
            enable: *enable,
        },
        DaemonCommand::GetEnableLightControl => DeviceCall::GetLightControl,
    }
}

/// Whether serving `cmd` needs the effect stack.
pub fn needs_effect_stack(cmd: &DaemonCommand, device_present: bool) -> (needed: bool)
    ensures
        needed == uses_effect_stack(*cmd, device_present),
{
    match cmd {
        DaemonCommand::GetKeyboardRGB { .. } => true,
        DaemonCommand::SetEffect { .. } => true,
        DaemonCommand::SetStandardEffect { .. } => device_present,
        _ => false,
    }
}

/// Answers a request that leaves the effect stack alone, from the device's
/// reply to the call that the request needed.
pub fn process_device_request(
    cmd: &DaemonCommand,
    device_present: bool,
    reply: DeviceReply,
) -> (response: Option<DaemonResponse>)
    requires
        !uses_effect_stack(*cmd, device_present),
    ensures
        responds(*cmd, device_present, reply, Seq::empty(), response),
{
    match cmd {
        DaemonCommand::SetPowerMode { .. } => match reply {
            DeviceReply::Flag(result) => Some(DaemonResponse::SetPowerMode { result }),
            _ => None,
        },
        DaemonCommand::SetFanSpeed { .. } => match reply {
            DeviceReply::Flag(result) => Some(DaemonResponse::SetFanSpeed { result }),
            _ => None,
        },
        DaemonCommand::SetLogoLedState { .. } => match reply {
            DeviceReply::Flag(result) => Some(DaemonResponse::SetLogoLedState { result }),
            _ => None,
        },
        DaemonCommand::SetBrightness { .. } => match reply {
            DeviceReply::Flag(result) => Some(DaemonResponse::SetBrightness { result }),
            _ => None,
        },
        DaemonCommand::SetIdle { .. } => match reply {
            DeviceReply::Flag(result) => Some(DaemonResponse::SetIdle { result }),
            _ => None,
        },
        DaemonCommand::SetSync { .. } => match reply {
            DeviceReply::Flag(result) => Some(DaemonResponse::SetSync { result }),
            _ => None,
        },
        DaemonCommand::GetBrightness { .. } => match reply {
            DeviceReply::Level(result) => Some(DaemonResponse::GetBrightness { result }),
            _ => None,
        },
        DaemonCommand::GetLogoLedState { .. } => match reply {
            DeviceReply::Level(logo_state) => Some(DaemonResponse::GetLogoLedState { logo_state }),
            _ => None,
        },
        DaemonCommand::GetSync => match reply {
            DeviceReply::Flag(sync) => Some(DaemonResponse::GetSync { sync }),
            _ => None,
        },
        DaemonCommand::GetFanSpeed { .. } => match reply {
            DeviceReply::Rpm(rpm) => Some(DaemonResponse::GetFanSpeed { rpm }),
            _ => None,
        },
        DaemonCommand::GetPwrLevel { .. } => match reply {
            DeviceReply::Level(pwr) => Some(DaemonResponse::GetPwrLevel { pwr }),
            _ => None,
        },
        DaemonCommand::GetCPUBoost { .. } => match reply {
            DeviceReply::Level(cpu) => Some(DaemonResponse::GetCPUBoost { cpu }),
            _ => None,
        },
        DaemonCommand::GetGPUBoost { .. } => match reply {
            DeviceReply::Level(gpu) => Some(DaemonResponse::GetGPUBoost { gpu }),
            _ => None,
        },
        DaemonCommand::SetStandardEffect { .. } => match reply {
            DeviceReply::Nothing => Some(DaemonResponse::SetStandardEffect { result: false }),
            _ => None,
        },
        DaemonCommand::SetBatteryHealthOptimizer { .. } => match reply {
            DeviceReply::Flag(result) => Some(
                DaemonResponse::SetBatteryHealthOptimizer { result },
            ),
            _ => None,
        },
        DaemonCommand::GetBatteryHealthOptimizer => match reply {
            DeviceReply::Bho(Some((is_on, threshold))) => Some(
                DaemonResponse::GetBatteryHealthOptimizer { is_on, threshold },
            ),
            _ => None,
        },
        DaemonCommand::GetDeviceName => match reply {
            DeviceReply::Name(Some(name)) => Some(DaemonResponse::GetDeviceName { name }),
            DeviceReply::Name(None) => Some(
                DaemonResponse::GetDeviceName { name: String::from_str("Unknown Device") },
            ),
            _ => None,
        },
        DaemonCommand::SetEnableLightControl { .. } => match reply {
            DeviceReply::Flag(result) => Some(DaemonResponse::SetEnableLightControl { result }),
            _ => None,
        },
        DaemonCommand::GetEnableLightControl => match reply {
            DeviceReply::Flag(enabled) => Some(DaemonResponse::GetEnableLightControl { enabled }),
            _ => None,
        },
        DaemonCommand::GetKeyboardRGB { .. } => None,
        DaemonCommand::SetEffect { .. } => None,
    }
}

/// Serves one request: changes the effect stack as the request says and
/// builds the response, from the device's reply to the call that the
/// request needed.
pub fn process_client_request(
    cmd: DaemonCommand,
    device_present: bool,
    reply: DeviceReply,
    effects: &mut EffectManager,
) -> (response: Option<DaemonResponse>)
    requires
        old(effects).wf(),
    ensures
        final(effects).wf(),
        final(effects)@ == stack_after(cmd, device_present, reply, old(effects)@),
        final(effects).last_frame() == old(effects).last_frame(),
        final(effects).last_update() == old(effects).last_update(),
        responds(
            cmd,
            device_present,
            reply,
            match cmd {
                DaemonCommand::GetKeyboardRGB { layer } => frame_bytes(
                    old(effects).layer_frame(layer),
                ),
                _ => Seq::empty(),
            },
            response,
        ),
{
    match &cmd {
        DaemonCommand::GetKeyboardRGB { layer } => match reply {
            DeviceReply::Nothing => {
                let rgbdata = effects.get_map(*layer);
                Some(DaemonResponse::GetKeyboardRGB { layer: *layer, rgbdata })
            },
            _ => None,
        },
        DaemonCommand::SetEffect { name, params } => match reply {
            DeviceReply::Nothing => {
                let mut result = false;
                if device_present {
                    if let Some(effect) = LayerEffect::from_name(name, params) {
                        let enabled_keys: [bool; 90] = [true; 90];
                        assert(enabled_keys@ =~= all_keys());
                        effects.pop_effect();
                        effects.push_effect(effect, &enabled_keys);
                        result = true;
                    }
                }
                Some(DaemonResponse::SetEffect { result })
            },
            _ => None,
        },
        DaemonCommand::SetStandardEffect { name, .. } => {
            if device_present {
                let known = standard_effect_from_name(name).is_some();
                match reply {
                    DeviceReply::Flag(result) => {
                        if known {
                            effects.pop_effect();
                            Some(DaemonResponse::SetStandardEffect { result })
                        } else {
                            None
                        }
                    },
                    DeviceReply::Nothing => {
                        if known {
                            None
                        } else {
                            effects.pop_effect();
                            Some(DaemonResponse::SetStandardEffect { result: false })
                        }
                    },
                    _ => None,
                }
            } else {
                process_device_request(&cmd, device_present, reply)
            }
        },
        _ => process_device_request(&cmd, device_present, reply),
    }
}

/// The layer that a daemon without a saved session starts with: green on
/// every key.
pub open spec fn default_effect() -> LayerEffect {
    LayerEffect::Static(StaticEffect::solid(KeyColour { red: 0, green: 255, blue: 0 }))
}

/// The stack that the daemon starts with: the saved layers replayed, or,
/// with nothing saved, the default layer alone.
pub open spec fn initial_stack(saved: Option<Vec<SavedLayer>>) -> LayerStack {
    match saved {
        Some(layers) => LayerStack::empty().replay(records_of(layers@)),
        None => LayerStack::empty().push(default_effect(), all_keys()),
    }
}

/// Makes the effect manager that the daemon starts with.
pub fn init_effect_manager(saved: Option<Vec<SavedLayer>>) -> (manager: EffectManager)
    ensures
        manager.wf(),
        manager@ == initial_stack(saved),
        manager.last_frame() == uniform_frame(KeyColour::black()),
{
    let mut manager = EffectManager::new();
    match &saved {
        Some(layers) => {
            manager.restore(layers);
        },
        None => {
            let enabled_keys: [bool; 90] = [true; 90];
            assert(enabled_keys@ =~= all_keys());
            manager.push_effect(LayerEffect::Static(StaticEffect::new(0, 255, 0)), &enabled_keys);
        },
    }
    manager
}

} // verus!
