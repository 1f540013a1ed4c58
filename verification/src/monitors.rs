//! What the background tasks decide: how a system event switches the
//! lighting, which watches to set after a poll of the session bus, and when
//! the animator renders.

use crate::manager::{frame_due, EffectManager};
use crate::rgb::KeyboardData;
use vstd::prelude::*;

verus! {

/// Power-save mode in which the display is off.
pub const POWER_SAVE_OFF: i32 = 3;

/// Power-save mode in which the display is on.
pub const POWER_SAVE_ON: i32 = 0;

/// A notification from the system that a monitor has subscribed to.
#[derive(Clone, Copy, Debug, PartialEq, Eq, Structural)]
pub enum SystemEvent {
    /// The display's power-save mode has changed to this value.
    PowerSaveMode(i32),
    /// A watch of the idle monitor has fired.
    WatchFired { id: u32 },
    /// The screen saver has become active or inactive.
    ScreenSaverActive(bool),
    /// Mains power has come or gone.
    AcOnline(bool),
    /// The battery's charge has changed.
    BatteryPercentage,
    /// The system is about to sleep, or has just resumed.
    PrepareForSleep { start: bool },
}

/// What an event does to the device manager's idea of the power source.
#[derive(Clone, Copy, Debug, PartialEq, Eq, Structural)]
pub enum AcChange {
    Keep,
    /// Note that mains power is on or off.
    Note(bool),
    /// Ask the system again whether mains power is on.
    Refresh,
}

/// What an event does to the light output.
#[derive(Clone, Copy, Debug, PartialEq, Eq, Structural)]
pub enum LightChange {
    Keep,
    Off,
    Restore,
}

/// The device manager's part in an event: first the change of the power
/// source, then that of the light. The effect stack has no part in it.
#[derive(Clone, Copy, Debug, PartialEq, Eq, Structural)]
pub struct Reaction {
    pub ac: AcChange,
    pub light: LightChange,
}

/// The watches to set on the idle monitor after a poll.
#[derive(Clone, Copy, Debug, PartialEq, Eq, Structural)]
pub struct WatchRequest {
    pub add_active: bool,
    pub add_idle: bool,
}

/// The reaction to `event`, where `idle_id` and `active_id` are the watches
/// that the device manager has set for idleness and for activity.
///
/// The light goes off when the display powers down, the idle watch fires,
/// the screen saver starts or the system is about to sleep, and comes back
/// on the opposite events. A watch that is neither of the two is ignored,
/// and where both have one id the idle watch counts. A change of mains
/// power is noted, and before and after sleep the power source is asked for
/// again.
pub open spec fn reaction_to(event: SystemEvent, idle_id: u32, active_id: u32) -> Reaction {
    match event {
        SystemEvent::PowerSaveMode(mode) => Reaction {
            ac: AcChange::Keep,
            light: if mode == POWER_SAVE_OFF {
                LightChange::Off
            } else if mode == POWER_SAVE_ON {
                LightChange::Restore
            } else {
                LightChange::Keep
            },
        },
        SystemEvent::WatchFired { id } => Reaction {
            ac: AcChange::Keep,
            light: if id == idle_id {
                LightChange::Off
            } else if id == active_id {
                LightChange::Restore
            } else {
                LightChange::Keep
            },
        },
        SystemEvent::ScreenSaverActive(active) => Reaction {
            ac: AcChange::Keep,
            light: if active {
                LightChange::Off
            } else {
                LightChange::Restore
            },
        },
        SystemEvent::AcOnline(online) => Reaction {
            ac: AcChange::Note(online),
            light: LightChange::Keep,
        },
        SystemEvent::BatteryPercentage => Reaction { ac: AcChange::Keep, light: LightChange::Keep },
        SystemEvent::PrepareForSleep { start } => Reaction {
            ac: AcChange::Refresh,
            light: if start {
                LightChange::Off
            } else {
                LightChange::Restore
            },
        },
    }
}

/// Decides what the device manager does on `event`.
pub fn react(event: SystemEvent, idle_id: u32, active_id: u32) -> (reaction: Reaction)
    ensures
        reaction == reaction_to(event, idle_id, active_id),
{
    match event {
        SystemEvent::PowerSaveMode(mode) => {
            let light = if mode == POWER_SAVE_OFF {
                LightChange::Off
            } else if mode == POWER_SAVE_ON {
                LightChange::Restore
            } else {
                LightChange::Keep
            };
            Reaction { ac: AcChange::Keep, light }
        },
        SystemEvent::WatchFired { id } => {
            let light = if id == idle_id {
                LightChange::Off
            } else if id == active_id {
                LightChange::Restore
            } else {
                LightChange::Keep
            };
            Reaction { ac: AcChange::Keep, light }
        },
        SystemEvent::ScreenSaverActive(active) => {
            let light = if active {
                LightChange::Off
            } else {
                LightChange::Restore
            };
            Reaction { ac: AcChange::Keep, light }
        },
        SystemEvent::AcOnline(online) => Reaction {
            ac: AcChange::Note(online),
            light: LightChange::Keep,
        },
        SystemEvent::BatteryPercentage => Reaction { ac: AcChange::Keep, light: LightChange::Keep },
        SystemEvent::PrepareForSleep { start } => {
            let light = if start {
                LightChange::Off
            } else {
                LightChange::Restore
            };
            Reaction { ac: AcChange::Refresh, light }
        },
    }
}

/// The watches to set after one poll of the session bus. `polled` is
/// `None` where the poll failed, and otherwise says whether a message was
/// handled. After a failed poll nothing is set; after any other the idle
/// watch is set again, and the activity watch too once a message was
/// handled.
pub fn watches_after_poll(polled: Option<bool>) -> (request: WatchRequest)
    ensures
        request.add_active == (polled == Some(true)),
        request.add_idle == polled is Some,
{
    match polled {
        Some(handled) => WatchRequest { add_active: handled, add_idle: true },
        None => WatchRequest { add_active: false, add_idle: false },
    }
}

/// One turn of the animator at `now`: a cycle of the compositor if the
/// lighting is under the daemon's control, there is a device to render on
/// and a frame is due; nothing otherwise. The frame returned is the one to
/// render.
pub fn animator_tick_at(
    light_control_enabled: bool,
    device_present: bool,
    effects: &mut EffectManager,
    now: u128,
) -> (frame: Option<KeyboardData>)
    requires
        old(effects).wf(),
    ensures
        final(effects).wf(),
        light_control_enabled && device_present && frame_due(old(effects).last_update(), now)
            ==> final(effects).cycled_from(old(effects), now, frame),
        !(light_control_enabled && device_present && frame_due(old(effects).last_update(), now))
            ==> frame is None && final(effects).unchanged_from(old(effects)),
{
    if light_control_enabled && device_present {
        effects.update_at(now)
    } else {
        None
    }
}

/// One turn of the animator by the system clock. With the lighting out of
/// the daemon's control, or with no device, nothing changes and there is no
/// frame. Otherwise, whatever the clock reads, the turn is the manager's
/// turn at that reading: a cycle where a frame is due, nothing otherwise.
pub fn animator_tick(
    light_control_enabled: bool,
    device_present: bool,
    effects: &mut EffectManager,
) -> (frame: Option<KeyboardData>)
    requires
        old(effects).wf(),
    ensures
        final(effects).wf(),
        exists|now: u128| #[trigger]
            animated_from(
                old(effects),
                final(effects),
                light_control_enabled,
                device_present,
                now,
                frame,
            ),
{
    if light_control_enabled && device_present {
        let frame = effects.update();
        proof {
            let now = choose|now: u128| effects.updated_from(old(effects), now, frame);
            assert(animated_from(
                old(effects),
                effects,
                light_control_enabled,
                device_present,
                now,
                frame,
            ));
        }
        frame
    } else {
        assert(animated_from(
            old(effects),
            effects,
            light_control_enabled,
            device_present,
            0,
            None,
        ));
        None
    }
}

/// `after` and `frame` are what one turn of the animator at `now` makes of
/// `before`: the manager's turn at `now` where the lighting is under the
/// daemon's control and there is a device, and nothing, with no frame,
/// where either is missing.
pub open spec fn animated_from(
    before: &EffectManager,
    after: &EffectManager,
    light_control_enabled: bool,
    device_present: bool,
    now: u128,
    frame: Option<KeyboardData>,
) -> bool {
    if light_control_enabled && device_present {
        after.updated_from(before, now, frame)
    } else {
        frame is None && after.unchanged_from(before)
    }
}

} // verus!
